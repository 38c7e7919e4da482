use datoviz::native::NativeCall;
use datoviz::scatter::{buffer_len, scatter_call};
use datoviz::PointLayout;

#[test]
fn components_per_layout() {
    assert_eq!(PointLayout::Planar.components(), 2);
    assert_eq!(PointLayout::Spatial.components(), 3);
}

#[test]
fn buffer_of_ten_thousand_spatial_points() {
    assert_eq!(buffer_len(10000, PointLayout::Spatial), Some(30000));
    assert_eq!(
        scatter_call(30000, PointLayout::Spatial),
        Some(NativeCall::DemoScatter { point_count: 10000 })
    );
}

#[test]
fn buffer_of_planar_points() {
    assert_eq!(buffer_len(10000, PointLayout::Planar), Some(20000));
    assert_eq!(
        scatter_call(20000, PointLayout::Planar),
        Some(NativeCall::DemoScatter { point_count: 10000 })
    );
    assert_eq!(
        scatter_call(30000, PointLayout::Planar),
        Some(NativeCall::DemoScatter { point_count: 15000 })
    );
}

#[test]
fn empty_buffer_draws_no_points() {
    assert_eq!(buffer_len(0, PointLayout::Spatial), Some(0));
    assert_eq!(
        scatter_call(0, PointLayout::Spatial),
        Some(NativeCall::DemoScatter { point_count: 0 })
    );
}

#[test]
fn negative_count_has_no_buffer() {
    assert_eq!(buffer_len(-1, PointLayout::Spatial), None);
    assert_eq!(buffer_len(i32::MIN, PointLayout::Planar), None);
}

#[test]
fn largest_count_has_a_buffer() {
    assert_eq!(
        buffer_len(i32::MAX, PointLayout::Spatial),
        (i32::MAX as usize).checked_mul(3)
    );
}

#[test]
fn partial_point_is_refused() {
    assert_eq!(scatter_call(30001, PointLayout::Spatial), None);
    assert_eq!(scatter_call(1, PointLayout::Planar), None);
    assert_eq!(scatter_call(5, PointLayout::Spatial), None);
}

#[test]
fn count_beyond_native_range_is_refused() {
    let len = (i32::MAX as usize + 1) * 2;
    assert_eq!(scatter_call(len, PointLayout::Planar), None);
    let len = i32::MAX as usize * 2;
    assert_eq!(
        scatter_call(len, PointLayout::Planar),
        Some(NativeCall::DemoScatter { point_count: i32::MAX })
    );
}

#[test]
fn buffer_len_and_scatter_call_agree() {
    for n in [0, 1, 2, 7, 333, 10000, 123456] {
        for layout in [PointLayout::Planar, PointLayout::Spatial] {
            let len = buffer_len(n, layout).unwrap();
            assert_eq!(len, n as usize * layout.components());
            assert_eq!(scatter_call(len, layout), Some(NativeCall::DemoScatter { point_count: n }));
        }
    }
}
