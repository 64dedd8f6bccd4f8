use artillery_calc::grid::{checked_parse_map_kv_base, parse_grid_square, parse_map_kv_base};

#[test]
fn grid_reference_plain() {
    assert_eq!(parse_map_kv_base("042117"), (4200, 11700));
}

#[test]
fn grid_reference_surrounding_whitespace_is_ignored() {
    assert_eq!(parse_map_kv_base("  123456  "), (12300, 45600));
    assert_eq!(parse_map_kv_base("\t048120\n"), (4800, 12000));
}

#[test]
fn grid_reference_untrimmed_square_does_not_read() {
    assert_eq!(parse_grid_square("  123456  "), (0, 0));
}

#[test]
fn grid_reference_extra_characters_after_six_are_ignored() {
    assert_eq!(parse_map_kv_base("042117xyz"), (4200, 11700));
    assert_eq!(parse_map_kv_base("042117\0"), (4200, 11700));
}

#[test]
fn grid_reference_signs() {
    assert_eq!(parse_map_kv_base("-12+34"), (-1200, 3400));
    assert_eq!(parse_map_kv_base("+05-99"), (500, -9900));
}

#[test]
fn grid_reference_extremes() {
    assert_eq!(parse_map_kv_base("999999"), (99900, 99900));
    assert_eq!(parse_map_kv_base("000000"), (0, 0));
}

#[test]
fn grid_reference_too_short_gives_origin() {
    assert_eq!(parse_map_kv_base("12345"), (0, 0));
    assert_eq!(parse_map_kv_base(""), (0, 0));
    assert_eq!(parse_map_kv_base("   "), (0, 0));
}

#[test]
fn grid_reference_bad_field_gives_origin() {
    assert_eq!(parse_map_kv_base("12a456"), (0, 0));
    assert_eq!(parse_map_kv_base("1234-6"), (0, 0));
    assert_eq!(parse_map_kv_base("123-56"), (12300, -5600));
    assert_eq!(parse_map_kv_base("+-1234"), (0, 0));
    assert_eq!(parse_map_kv_base("1 3456"), (0, 0));
    assert_eq!(parse_map_kv_base("- 1234"), (0, 0));
}

#[test]
fn grid_reference_non_ascii_field_on_boundaries_gives_origin() {
    // "é" takes two bytes, so the first field is "é1" and does not read as a number.
    assert_eq!(checked_parse_map_kv_base("é12345"), Some((0, 0)));
}

#[test]
fn grid_reference_field_inside_character_is_refused() {
    assert_eq!(checked_parse_map_kv_base("12€456"), None);
    assert_eq!(checked_parse_map_kv_base("1234€"), None);
}

#[test]
fn grid_reference_checked_agrees_when_fields_cut_cleanly() {
    assert_eq!(checked_parse_map_kv_base(" 042117 "), Some((4200, 11700)));
    assert_eq!(checked_parse_map_kv_base("1"), Some((0, 0)));
}

#[test]
fn grid_reference_unicode_whitespace_is_ignored() {
    assert_eq!(parse_map_kv_base("\u{3000}042117\u{a0}"), (4200, 11700));
    assert_eq!(parse_map_kv_base("\u{2028}\u{85}\u{1680}123456\u{202f}\u{205f}\u{200a}"), (12300, 45600));
    assert_eq!(checked_parse_map_kv_base("\u{2000}\u{2029}\u{b}\u{c}\r042117"), Some((4200, 11700)));
}

#[test]
fn grid_reference_whitespace_inside_is_kept() {
    // A no-break space is trimmed only at the ends; inside it makes a field unreadable.
    assert_eq!(checked_parse_map_kv_base("1\u{a0}23456"), Some((0, 0)));
}

#[test]
fn grid_reference_zero_width_space_is_not_whitespace() {
    // U+200B is not White_Space: it stays, fills the first three bytes, and the field does not read.
    assert_eq!(checked_parse_map_kv_base("\u{200b}123456"), Some((0, 0)));
    // U+00AD (two bytes) is not White_Space either: the first field would end inside the next character.
    assert_eq!(checked_parse_map_kv_base("\u{ad}\u{ad}123456"), None);
}
