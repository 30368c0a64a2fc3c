use mkdesktop::paths::filename_from_name;

#[test]
fn spaces_become_underscores_and_punctuation_is_dropped() {
    assert_eq!(filename_from_name("My App! 2.0"), "My_App_2.0.desktop");
}

#[test]
fn kept_chars_pass_through() {
    assert_eq!(filename_from_name("a-b_c.d9Z"), "a-b_c.d9Z.desktop");
}

#[test]
fn empty_name_gives_bare_extension() {
    assert_eq!(filename_from_name(""), ".desktop");
}

#[test]
fn every_whitespace_kind_becomes_underscore() {
    assert_eq!(filename_from_name("a\tb\nc d"), "a_b_c_d.desktop");
}

#[test]
fn unicode_letters_are_kept() {
    assert_eq!(filename_from_name("Café"), "Café.desktop");
}

#[test]
fn unicode_punctuation_is_dropped() {
    assert_eq!(filename_from_name("a…b«c»"), "abc.desktop");
}

#[test]
fn non_breaking_space_becomes_underscore() {
    assert_eq!(filename_from_name("a\u{a0}b"), "a_b.desktop");
}

#[test]
fn all_dropped_chars_leave_only_extension() {
    assert_eq!(filename_from_name("!@#$%^&*()"), ".desktop");
}
