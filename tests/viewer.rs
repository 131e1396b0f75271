use aegis_decrypt::viewer::{export_file_name, sanitize_lines, Action, Key, Status, Viewer};

fn text(line: &[char]) -> String {
    line.iter().collect()
}

fn all(lines: &[Vec<char>]) -> Vec<String> {
    lines.iter().map(|l| text(l)).collect()
}

#[test]
fn lines_split_and_cleaned() {
    assert_eq!(all(&sanitize_lines("")), Vec::<String>::new());
    assert_eq!(all(&sanitize_lines("\n")), vec![""]);
    assert_eq!(all(&sanitize_lines("a\n\nb\n")), vec!["a", "", "b"]);
    assert_eq!(all(&sanitize_lines("a\r\nb\tc\u{7}d\u{9b}")), vec!["a", "b\tcd"]);
}

#[test]
fn icon_lines_redacted() {
    let t = "{\n  \"icon\": \"AAAA\",\n  \"icon_mime\": \"image/png\",\n  \"icon_hash\": \"x\",\n  \"name\": \"iconic\"\n}";
    assert_eq!(
        all(&sanitize_lines(t)),
        vec!["{", "[icon removed]", "[icon removed]", "[icon removed]", "  \"name\": \"iconic\"", "}"]
    );
}

fn typed(v: &mut Viewer, s: &str) {
    for c in s.chars() {
        assert_eq!(v.handle_key(Key::Char(c), 2), Action::Continue);
    }
}

#[test]
fn search_and_cycle_results() {
    let mut v = Viewer::new("alpha\nbeta\ngamma\ndelta\nalphabet");
    assert_eq!(v.handle_key(Key::Char('/'), 2), Action::Continue);
    assert!(v.search_mode);
    typed(&mut v, "alx");
    assert_eq!(v.handle_key(Key::Backspace, 2), Action::Continue);
    assert_eq!(text(&v.query), "al");
    assert_eq!(v.handle_key(Key::Enter, 2), Action::Continue);
    assert!(!v.search_mode);
    assert_eq!(v.results, vec![0, 4]);
    assert!(matches!(v.status, Status::Found(2)));
    assert_eq!(v.scroll, 0);
    v.handle_key(Key::Char('n'), 2);
    assert_eq!((v.search_index, v.scroll), (1, 4));
    v.handle_key(Key::Char('n'), 2);
    assert_eq!((v.search_index, v.scroll), (0, 0));
    v.handle_key(Key::Char('N'), 2);
    assert_eq!((v.search_index, v.scroll), (1, 4));
}

#[test]
fn search_without_result() {
    let mut v = Viewer::new("one\ntwo");
    v.handle_key(Key::Char('/'), 2);
    typed(&mut v, "zzz");
    v.handle_key(Key::Enter, 2);
    assert!(v.results.is_empty());
    assert!(matches!(v.status, Status::NotFound));
    v.handle_key(Key::Char('/'), 2);
    v.handle_key(Key::Esc, 2);
    assert!(!v.search_mode);
    assert!(v.query.is_empty());
}

#[test]
fn scrolling_stays_in_text() {
    let mut v = Viewer::new("1\n2\n3\n4");
    v.handle_key(Key::Up, 2);
    assert_eq!(v.scroll, 0);
    v.handle_key(Key::Down, 2);
    v.handle_key(Key::Down, 2);
    v.handle_key(Key::Down, 2);
    assert_eq!(v.scroll, 2);
    v.handle_key(Key::Up, 2);
    assert_eq!(v.scroll, 1);
}

#[test]
fn quit_and_export_keys() {
    let mut v = Viewer::new("x");
    assert_eq!(v.handle_key(Key::Char('e'), 2), Action::Export);
    assert_eq!(v.handle_key(Key::Char('q'), 2), Action::Quit);
    assert_eq!(v.handle_key(Key::Esc, 2), Action::Quit);
    assert_eq!(v.handle_key(Key::Other, 2), Action::Continue);
}

#[test]
fn visible_window_marks_results() {
    let mut v = Viewer::new("ab\ncd\nab\nef");
    v.handle_key(Key::Char('/'), 3);
    typed(&mut v, "ab");
    v.handle_key(Key::Enter, 3);
    v.handle_key(Key::Char('n'), 3);
    assert_eq!(v.scroll, 2);
    assert_eq!(all(&v.visible_lines(3)), vec!["> ab", "ef"]);
    v.handle_key(Key::Up, 3);
    assert_eq!(all(&v.visible_lines(2)), vec!["cd", "> ab"]);
}

#[test]
fn export_names() {
    assert_eq!(export_file_name(Some("backup"), Some("json")), "backup_uncyphered.json");
    assert_eq!(export_file_name(Some("backup"), None), "backup_uncyphered");
    assert_eq!(export_file_name(None, Some("json")), "");
}
