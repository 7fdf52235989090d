use raccoon::text::{
    find_char, first_line, note_preview, prefix_chars, str_eq, tag_name, trim_end_str,
    u64_to_string, wiki_suffix,
};

#[test]
fn short_notes_stay_verbatim() {
    assert_eq!(note_preview("short note"), "short note");
    assert_eq!(note_preview(""), "");
    // Exactly forty characters is still verbatim, trailing space and all.
    let exactly_forty = "0123456789012345678901234567890123456789";
    assert_eq!(exactly_forty.chars().count(), 40);
    assert_eq!(note_preview(exactly_forty), exactly_forty);
}

#[test]
fn long_notes_are_cut_and_marked() {
    let long = "01234567890123456789012345678901234567890123456789";
    assert_eq!(
        note_preview(long),
        "0123456789012345678901234567890123456789..."
    );
    // Trailing whitespace inside the cut is trimmed before the marker.
    let spaced = "0123456789012345678901234567890123456    89012345";
    assert_eq!(note_preview(spaced), "0123456789012345678901234567890123456...");
}

#[test]
fn preview_is_idempotent_on_its_output() {
    let long = "01234567890123456789012345678901234567890123456789";
    let once = note_preview(long);
    assert_eq!(note_preview(&once), once);
    let short = "short note";
    let once = note_preview(short);
    assert_eq!(note_preview(&once), once);
}

#[test]
fn preview_reapplication_differs_when_the_marker_straddles_the_cut() {
    // When the trimmed head keeps thirty-nine characters, the appended
    // marker pushes the output past forty characters again, so a second
    // application cuts into the marker itself.
    let mut note = "a".repeat(39);
    note.push(' ');
    note.push_str("xx");
    let once = note_preview(&note);
    assert_eq!(once.chars().count(), 42);
    assert!(once.ends_with("a..."));
    let twice = note_preview(&once);
    assert_ne!(twice, once);
    assert!(twice.ends_with("a...."));
}

#[test]
fn decimal_rendering_is_exact() {
    assert_eq!(u64_to_string(0), "0");
    assert_eq!(u64_to_string(7), "7");
    assert_eq!(u64_to_string(63), "63");
    assert_eq!(u64_to_string(1000), "1000");
    assert_eq!(u64_to_string(18446744073709551615), "18446744073709551615");
}

#[test]
fn first_line_stops_at_the_line_feed() {
    assert_eq!(first_line("Fix the parser\nwith details"), "Fix the parser");
    assert_eq!(first_line("no newline"), "no newline");
    assert_eq!(first_line("\nleading"), "");
    assert_eq!(first_line(""), "");
}

#[test]
fn tag_names_come_after_the_last_slash() {
    assert_eq!(tag_name("refs/tags/v1.0.0"), "v1.0.0");
    assert_eq!(tag_name("refs/tags/"), "");
    assert_eq!(tag_name("v1.0.0"), "<invalid>");
    assert_eq!(tag_name(""), "<invalid>");
}

#[test]
fn prefixes_and_suffixes() {
    assert_eq!(prefix_chars("abcdef1234567890", 7), "abcdef1");
    assert_eq!(prefix_chars("abc", 7), "abc");
    assert_eq!(wiki_suffix("create"), "d");
    assert_eq!(wiki_suffix("edit"), "ed");
    assert_eq!(wiki_suffix(""), "ed");
}

#[test]
fn text_helpers_are_character_exact() {
    assert!(str_eq("", ""));
    assert!(str_eq("abc", "abc"));
    assert!(!str_eq("abc", "abd"));
    assert!(!str_eq("abc", "abcd"));
    assert_eq!(find_char("a:b", ':'), 1);
    assert_eq!(find_char("ab", ':'), 2);
    assert_eq!(trim_end_str("pad  \t\n"), "pad");
    assert_eq!(trim_end_str("   "), "");
}
