use fff::sanitize::safe_spice;

#[test]
fn quotes_and_backslashes_are_doubled() {
    assert_eq!(safe_spice("a'b\\c"), "a''b\\\\c");
}

#[test]
fn newline_is_removed_before_escaping() {
    assert_eq!(safe_spice("a\nb"), "ab");
    assert_eq!(safe_spice("O'\nBrien"), "O''Brien");
    assert_eq!(safe_spice("'\n'"), "''''");
}

#[test]
fn every_control_character_is_removed() {
    assert_eq!(safe_spice("\u{0}a\tb\rc\u{1f}d"), "abcd");
    assert_eq!(safe_spice("x\u{7f}y"), "xy");
    assert_eq!(safe_spice("x\u{80}y\u{85}z\u{9f}"), "xyz");
    assert_eq!(safe_spice("\n\t\r"), "");
}

#[test]
fn neighbours_of_the_control_range_are_kept() {
    assert_eq!(safe_spice(" ~\u{a0}"), " ~\u{a0}");
}

#[test]
fn plain_text_is_left_as_it_is() {
    assert_eq!(safe_spice(""), "");
    assert_eq!(safe_spice("KC"), "KC");
    assert_eq!(safe_spice("00-0033873"), "00-0033873");
    assert_eq!(safe_spice("Zoë Müller 日本"), "Zoë Müller 日本");
    assert_eq!(safe_spice("50% \"off\"; -- x"), "50% \"off\"; -- x");
}

#[test]
fn runs_of_quotes_stay_even() {
    assert_eq!(safe_spice("'"), "''");
    assert_eq!(safe_spice("''"), "''''");
    assert_eq!(safe_spice("\\'"), "\\\\''");
    assert_eq!(safe_spice("x' OR '1'='1"), "x'' OR ''1''=''1");
}

#[test]
fn sanitizing_the_parts_is_sanitizing_the_whole() {
    let whole = safe_spice("a'b\n\\c");
    let parts = format!("{}{}", safe_spice("a'b"), safe_spice("\n\\c"));
    assert_eq!(whole, parts);
}
