use netsync::buffer::InterpolationBuffer;
use netsync::fixed::Vec2;

fn v(x: i64, y: i64) -> Vec2 {
    Vec2 { x, y }
}

#[test]
fn add_keeps_keys_ordered() {
    let mut b: InterpolationBuffer<Vec2> = InterpolationBuffer::new();
    b.add(50, v(5, 0));
    b.add(10, v(1, 0));
    b.add(30, v(3, 0));
    assert_eq!(b.len(), 3);
    assert_eq!(b.get(0), (10, v(1, 0)));
    assert_eq!(b.get(1), (30, v(3, 0)));
    assert_eq!(b.get(2), (50, v(5, 0)));
}

#[test]
fn add_replaces_equal_key() {
    let mut b: InterpolationBuffer<Vec2> = InterpolationBuffer::new();
    b.add(10, v(1, 0));
    b.add(10, v(7, 7));
    assert_eq!(b.len(), 1);
    assert_eq!(b.get(0), (10, v(7, 7)));
}

#[test]
fn remove_at_or_after_discards_the_future() {
    let mut b: InterpolationBuffer<Vec2> = InterpolationBuffer::new();
    b.add(10, v(1, 0));
    b.add(20, v(2, 0));
    b.add(30, v(3, 0));
    b.add(40, v(4, 0));
    b.remove_at_or_after(30);
    assert_eq!(b.len(), 2);
    assert_eq!(b.get(0), (10, v(1, 0)));
    assert_eq!(b.get(1), (20, v(2, 0)));
}

#[test]
fn sample_at_exact_keyframe_returns_it_unchanged() {
    let mut b: InterpolationBuffer<Vec2> = InterpolationBuffer::new();
    b.add(0, v(123, -9));
    b.add(1000, v(5000, 40));
    b.add(2000, v(0, 0));
    assert_eq!(b.sample(0), Some(v(123, -9)));
    assert_eq!(b.sample(1000), Some(v(5000, 40)));
    assert_eq!(b.clamped_sample(0), Some(v(123, -9)));
    assert_eq!(b.clamped_sample(1000), Some(v(5000, 40)));
    assert_eq!(b.clamped_sample(2000), Some(v(0, 0)));
}

#[test]
fn sample_blends_linearly_between_keys() {
    let mut b: InterpolationBuffer<Vec2> = InterpolationBuffer::new();
    b.add(0, v(0, 0));
    b.add(1000, v(1000, 2000));
    assert_eq!(b.sample(500), Some(v(500, 1000)));
    assert_eq!(b.sample(250), Some(v(250, 500)));
}

#[test]
fn sample_outside_keyed_range_is_none() {
    let mut b: InterpolationBuffer<Vec2> = InterpolationBuffer::new();
    b.add(100, v(1, 1));
    b.add(200, v(2, 2));
    assert_eq!(b.sample(99), None);
    assert_eq!(b.sample(200), None);
    assert_eq!(b.sample(10_000), None);
}

#[test]
fn clamped_sample_clamps_to_the_ends() {
    let mut b: InterpolationBuffer<Vec2> = InterpolationBuffer::new();
    b.add(100, v(1, 1));
    b.add(200, v(2, 2));
    assert_eq!(b.clamped_sample(0), Some(v(1, 1)));
    assert_eq!(b.clamped_sample(10_000), Some(v(2, 2)));
    let empty: InterpolationBuffer<Vec2> = InterpolationBuffer::new();
    assert_eq!(empty.clamped_sample(5), None);
}

#[test]
fn single_keyframe_only_clamps() {
    let mut b: InterpolationBuffer<Vec2> = InterpolationBuffer::new();
    b.add(100, v(9, 9));
    assert_eq!(b.sample(100), None);
    assert_eq!(b.clamped_sample(100), Some(v(9, 9)));
    assert_eq!(b.clamped_sample(40), Some(v(9, 9)));
}
