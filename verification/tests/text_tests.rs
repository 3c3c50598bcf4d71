use nusaca::text::{i64_to_text, last_segment, remove_spaces, str_contains};

#[test]
fn remove_spaces_drops_every_space() {
    assert_eq!(remove_spaces("Jawa Barat"), "JawaBarat");
    assert_eq!(remove_spaces(" D I  Yogyakarta "), "DIYogyakarta");
    assert_eq!(remove_spaces(""), "");
    assert_eq!(remove_spaces("Aceh"), "Aceh");
}

#[test]
fn remove_spaces_twice_is_once() {
    let once = remove_spaces("Kalimantan Timur ");
    assert_eq!(remove_spaces(&once), once);
}

#[test]
fn decimal_text_of_timestamps() {
    assert_eq!(i64_to_text(20231123120000), "20231123120000");
    assert_eq!(i64_to_text(0), "0");
    assert_eq!(i64_to_text(7), "7");
    assert_eq!(i64_to_text(10), "10");
    assert_eq!(i64_to_text(-45), "-45");
    assert_eq!(i64_to_text(i64::MAX), i64::MAX.to_string());
    assert_eq!(i64_to_text(i64::MIN), i64::MIN.to_string());
}

#[test]
fn decimal_text_tells_values_apart() {
    assert_ne!(i64_to_text(12), i64_to_text(-12));
    assert_ne!(i64_to_text(120), i64_to_text(12));
}

#[test]
fn contains_finds_substrings() {
    assert!(str_contains("https://x?url=Aceh", "url"));
    assert!(str_contains("url", "url"));
    assert!(!str_contains("ur", "url"));
    assert!(!str_contains("DigitalForecast-Aceh.xml", "url"));
    assert!(str_contains("abc", ""));
}

#[test]
fn last_segment_after_last_separator() {
    assert_eq!(last_segment("url=Aceh", '='), "Aceh");
    assert_eq!(last_segment("a=b=c", '='), "c");
    assert_eq!(last_segment("no separator", '='), "no separator");
    assert_eq!(last_segment("trailing=", '='), "");
    assert_eq!(last_segment("", '='), "");
}
