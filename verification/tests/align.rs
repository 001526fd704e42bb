use cjk_align::{pad_to_width, AlignmentMode, CJKAlign, CJKAlignWide};

#[test]
fn renders_left_aligned_cjk() {
    let r = CJKAlign("你好").render(6, AlignmentMode::Left);
    assert_eq!(r, "你好  ");
}

#[test]
fn renders_right_aligned_cjk() {
    let r = CJKAlign("你好").render(6, AlignmentMode::Right);
    assert_eq!(r, "  你好");
}

#[test]
fn renders_center_aligned_cjk_even_pad() {
    let r = CJKAlign("你好").render(6, AlignmentMode::Center);
    assert_eq!(r, " 你好 ");
}

#[test]
fn renders_center_aligned_cjk_odd_pad_extra_space_left() {
    let r = CJKAlign("你好").render(7, AlignmentMode::Center);
    assert_eq!(r, "  你好 ");
}

#[test]
fn ambiguous_characters_narrow_under_default_policy() {
    let r = CJKAlign("“……”").render(8, AlignmentMode::Left);
    assert_eq!(r, "“……”    ");
}

#[test]
fn ambiguous_characters_wide_under_cjk_policy() {
    let r = CJKAlignWide("“……”").render(8, AlignmentMode::Left);
    assert_eq!(r, "“……”");
}

#[test]
fn policy_difference_on_single_ambiguous_character() {
    assert_eq!(CJKAlign("…").width(), 1);
    assert_eq!(CJKAlignWide("…").width(), 2);
}

#[test]
fn width_counts_double_columns_for_cjk() {
    assert_eq!(CJKAlign("你好").width(), 4);
    assert_eq!(CJKAlignWide("你好").width(), 4);
    assert_eq!(CJKAlign("abc").width(), 3);
    assert_eq!(CJKAlign("").width(), 0);
}

#[test]
fn zero_requested_width_returns_text_unchanged() {
    assert_eq!(CJKAlign("你好").render(0, AlignmentMode::Right), "你好");
    assert_eq!(CJKAlignWide("你好").render(0, AlignmentMode::Center), "你好");
    assert_eq!(CJKAlign("").render(0, AlignmentMode::Left), "");
}

#[test]
fn text_wider_than_field_is_unchanged() {
    assert_eq!(CJKAlign("你好").render(3, AlignmentMode::Left), "你好");
    assert_eq!(CJKAlign("你好").render(4, AlignmentMode::Center), "你好");
    assert_eq!(CJKAlignWide("你好").render(1, AlignmentMode::Right), "你好");
}

#[test]
fn left_padded_result_reaches_requested_display_width() {
    let r = CJKAlign("你好").render(9, AlignmentMode::Left);
    assert_eq!(CJKAlign(&r).width(), 9);
    assert!(r.starts_with("你好"));
    assert!(r[6..].chars().all(|c| c == ' '));
}

#[test]
fn right_padding_moves_the_same_spaces_to_the_front() {
    let l = CJKAlign("你好").render(9, AlignmentMode::Left);
    let r = CJKAlign("你好").render(9, AlignmentMode::Right);
    assert_eq!(r, format!("{}你好", &l[6..]));
}

#[test]
fn pads_with_an_explicit_measured_width() {
    assert_eq!(pad_to_width("ab", 2, 5, AlignmentMode::Center), "  ab ");
    assert_eq!(pad_to_width("ab", 2, 5, AlignmentMode::Left), "ab   ");
    assert_eq!(pad_to_width("ab", 2, 5, AlignmentMode::Right), "   ab");
    assert_eq!(pad_to_width("ab", 2, 0, AlignmentMode::Left), "ab");
    assert_eq!(pad_to_width("ab", 7, 5, AlignmentMode::Right), "ab");
}

#[test]
fn empty_text_is_all_spaces() {
    assert_eq!(CJKAlign("").render(4, AlignmentMode::Center), "    ");
}

#[test]
fn combining_mark_has_zero_width() {
    assert_eq!(CJKAlign("\u{0301}").width(), 0);
}

#[test]
fn emoji_render_uses_double_width() {
    assert_eq!(CJKAlign("😀").width(), 2);
    assert_eq!(CJKAlign("😀").render(4, AlignmentMode::Right), "  😀");
}
