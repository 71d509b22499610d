use menu_ui::text::{chars_of, progress_label, push_decimal, relabel_progress, strip_edges, string_from_range, find_marker};

#[test]
fn strip_edges_removes_spaces_tabs_and_newlines() {
    assert_eq!(strip_edges("  res://a.png \t\n"), "res://a.png");
    assert_eq!(strip_edges("\r\nabc"), "abc");
    assert_eq!(strip_edges("abc"), "abc");
}

#[test]
fn strip_edges_keeps_inner_blanks() {
    assert_eq!(strip_edges("  a b  "), "a b");
}

#[test]
fn strip_edges_of_blank_is_empty() {
    assert_eq!(strip_edges(""), "");
    assert_eq!(strip_edges(" \t \n "), "");
    assert_eq!(strip_edges("\u{1f}x\u{0}"), "x");
}

#[test]
fn strip_edges_keeps_non_ascii() {
    assert_eq!(strip_edges(" botão "), "botão");
    assert_eq!(strip_edges("\u{a0}x\u{a0}"), "\u{a0}x\u{a0}");
}

#[test]
fn strip_edges_is_idempotent_on_examples() {
    for s in ["", "  x ", "\tab c\n", "   "] {
        let once = strip_edges(s);
        assert_eq!(strip_edges(&once), once);
    }
}

#[test]
fn decimal_rendering_matches_format() {
    for n in [0i64, 7, 10, 42, 100, -1, -100, 123456789, i64::MAX, i64::MIN] {
        let mut s = String::from("x");
        push_decimal(&mut s, n);
        assert_eq!(s, format!("x{}", n));
    }
}

#[test]
fn progress_label_formats_percentage() {
    assert_eq!(progress_label("Loading...", 42), "Loading... (42%)");
    assert_eq!(progress_label("Loading Complete!", 100), "Loading Complete! (100%)");
    assert_eq!(progress_label("", 0), " (0%)");
    assert_eq!(progress_label("x", -3), "x (-3%)");
}

#[test]
fn relabel_replaces_the_percentage() {
    assert_eq!(relabel_progress("Loading... (10%)", 55), "Loading... (55%)");
    assert_eq!(relabel_progress("Loading...", 5), "Loading... (5%)");
    assert_eq!(relabel_progress("a (b) (c%)", 1), "a (1%)");
    assert_eq!(relabel_progress("", 9), " (9%)");
}

#[test]
fn relabel_twice_keeps_only_the_last_percentage() {
    let once = relabel_progress("Carregando (3%)", 40);
    let twice = relabel_progress(&once, 80);
    assert_eq!(twice, relabel_progress("Carregando (3%)", 80));
    assert_eq!(twice, "Carregando (80%)");
}

#[test]
fn find_marker_finds_first_occurrence() {
    assert_eq!(find_marker(&chars_of("ab (c (d")), Some(2));
    assert_eq!(find_marker(&chars_of("ab(")), None);
    assert_eq!(find_marker(&chars_of(" (")), Some(0));
}

#[test]
fn string_from_range_copies_a_slice() {
    let v = chars_of("hello");
    assert_eq!(string_from_range(&v, 1, 4), "ell");
    assert_eq!(string_from_range(&v, 2, 2), "");
}
