use gpu_bench::gpu_layout::{
    elementwise_pass, readback_u32s, upload_bytes, word_buffer_size, workgroup_count,
};
use gpu_bench::{reset_time_gap, restart_lap};
use gpu_bench::riemann::{riemann_pass, riemann_sum_pass};
use gpu_bench::surface::{on_window_event, pick_surface_format, FrameAction, WindowSignal};

#[test]
fn word_buffer_size_is_four_bytes_per_element() {
    assert_eq!(word_buffer_size(500), 2000);
    assert_eq!(word_buffer_size(65535), 262140);
    assert_eq!(word_buffer_size(0), 0);
}

#[test]
fn workgroup_count_is_one_per_element() {
    assert_eq!(workgroup_count(500), 500);
    assert_eq!(workgroup_count(0), 0);
    if usize::BITS == 64 {
        let wide = (1u64 << 32) as usize + 3;
        assert_eq!(workgroup_count(wide), 3);
    }
}

#[test]
fn upload_bytes_has_four_bytes_per_value() {
    let values = vec![1u32, 2, 0xdead_beef];
    let bytes = upload_bytes(&values);
    assert_eq!(bytes.len(), 12);
    assert_eq!(bytes, &[values[0].to_ne_bytes(), values[1].to_ne_bytes(), values[2].to_ne_bytes()].concat()[..]);
}

#[test]
fn readback_of_uploaded_bytes_gives_the_values_back() {
    let values = vec![0u32, 7, 500, u32::MAX, 0x0102_0304];
    let bytes = upload_bytes(&values).to_vec();
    assert_eq!(readback_u32s(&bytes), values);
    assert!(readback_u32s(&[]).is_empty());
}

#[test]
fn readback_decodes_native_order() {
    let bytes = 0x1122_3344u32.to_ne_bytes();
    assert_eq!(readback_u32s(&bytes), vec![0x1122_3344]);
}

#[test]
fn elementwise_pass_spans_the_whole_result() {
    let layout = elementwise_pass(65535);
    assert_eq!(layout.groups, 65535);
    assert_eq!(layout.output_size, 262140);
    assert_eq!(layout.staging_size, 262140);
    assert_eq!(layout.copy_size, 262140);
    let batch = elementwise_pass(5);
    assert_eq!((batch.groups, batch.copy_size), (5, 20));
}

#[test]
fn riemann_passes_use_a_thousand_groups() {
    let layout = riemann_pass();
    assert_eq!(layout.groups, 1000);
    assert_eq!(layout.output_size, 4000);
    assert_eq!(layout.staging_size, 4000);
    assert_eq!(layout.copy_size, 4000);
    let sum = riemann_sum_pass();
    assert_eq!((sum.groups, sum.copy_size), (1000, 4000));
}

#[test]
fn surface_format_prefers_the_first_srgb() {
    assert_eq!(pick_surface_format(&[false, true, true]), 1);
    assert_eq!(pick_surface_format(&[true, false]), 0);
    assert_eq!(pick_surface_format(&[false, false, false]), 0);
    assert_eq!(pick_surface_format(&[false]), 0);
}

#[test]
fn window_events_map_to_actions() {
    assert_eq!(on_window_event(WindowSignal::RedrawRequested), FrameAction::DrawFrame);
    assert_eq!(on_window_event(WindowSignal::CloseRequested), FrameAction::Exit);
    assert_eq!(on_window_event(WindowSignal::Other), FrameAction::Ignore);
}

#[test]
fn reset_time_gap_restarts_the_lap() {
    let start = std::time::Instant::now();
    let mut gap = start;
    while start.elapsed() < std::time::Duration::from_millis(5) {}
    reset_time_gap(&mut gap);
    assert!(gap.duration_since(start) >= std::time::Duration::from_millis(5));
}

#[test]
fn restart_lap_stores_the_reading() {
    let earlier = std::time::Instant::now();
    while earlier.elapsed() < std::time::Duration::from_millis(2) {}
    let now = std::time::Instant::now();
    let mut gap = earlier;
    restart_lap(&mut gap, now);
    assert_eq!(gap, now);
    assert_ne!(gap, earlier);
}
