use gif_probe::probe::{
    area_exceeds, ceiling_reached, contains_index, palette_color_count, raise_max_colors,
    Disposal, FrameData, FrameHead, ProbeLimits,
};

#[test]
fn contains_index_finds_and_misses() {
    assert!(contains_index(&vec![5, 9, 7], 9));
    assert!(!contains_index(&vec![5, 9, 7], 8));
    assert!(!contains_index(&Vec::new(), 0));
}

#[test]
fn palette_color_count_divides_by_three() {
    assert_eq!(palette_color_count(768), Some(256));
    assert_eq!(palette_color_count(0), Some(0));
    assert_eq!(palette_color_count(7), Some(2));
    assert_eq!(palette_color_count(3 * 70_000), None);
}

#[test]
fn raise_max_colors_takes_the_larger_palette() {
    assert_eq!(raise_max_colors(4, &None), Some(4));
    assert_eq!(raise_max_colors(4, &Some(vec![0; 6])), Some(4));
    assert_eq!(raise_max_colors(4, &Some(vec![0; 768])), Some(256));
    assert_eq!(raise_max_colors(4, &Some(vec![0; 3 * 70_000])), None);
}

#[test]
fn ceiling_reached_checks_inclusively() {
    assert!(ceiling_reached(100, Some(100)));
    assert!(ceiling_reached(101, Some(100)));
    assert!(!ceiling_reached(99, Some(100)));
    assert!(!ceiling_reached(u64::MAX, None));
}

#[test]
fn area_exceeds_uses_the_full_product() {
    assert!(area_exceeds(480, 270, Some(129_599)));
    assert!(!area_exceeds(480, 270, Some(129_600)));
    assert!(!area_exceeds(65_535, 65_535, None));
}

#[test]
fn disposal_codes_map_to_variants() {
    assert_eq!(Disposal::from_code(0), Disposal::Unspecified);
    assert_eq!(Disposal::from_code(1), Disposal::Keep);
    assert_eq!(Disposal::from_code(2), Disposal::Background);
    assert_eq!(Disposal::from_code(3), Disposal::Previous);
    assert_eq!(Disposal::from_code(9), Disposal::Unspecified);
}

#[test]
fn unbounded_limits_bound_nothing() {
    let limits = ProbeLimits::unbounded();
    assert!(limits.max_duration.is_none());
    assert!(limits.max_pixels.is_none());
    assert!(limits.max_memory.is_none());
}

#[test]
fn frame_head_builder_keeps_fields() {
    let head = FrameHead::new(3, 4, 5, Disposal::Background, Some(2), Some(vec![1, 2, 3]));
    assert_eq!(head.width, 3);
    assert_eq!(head.height, 4);
    assert_eq!(head.delay, 5);
    assert_eq!(head.disposal, Disposal::Background);
    assert_eq!(head.transparent, Some(2));
    assert_eq!(head.palette, Some(vec![1, 2, 3]));
    let data = FrameData::new(head, vec![2, 2]);
    assert_eq!(data.pixels, vec![2, 2]);
}
