use snarky_ed::cmdline::CommandLine;

#[test]
fn hidden_overlay_ignores_typing() {
    let mut c = CommandLine::new();
    assert_eq!(c.text, vec!['H', 'e', 'l', 'l', 'o']);
    c.push_char('x');
    c.pop_char();
    assert!(!c.visible);
    assert_eq!(c.text, vec!['H', 'e', 'l', 'l', 'o']);
}

#[test]
fn open_overlay_takes_typing() {
    let mut c = CommandLine::new();
    c.open();
    c.push_char('w');
    c.push_char('q');
    assert_eq!(c.text, vec!['w', 'q']);
    c.pop_char();
    assert_eq!(c.text, vec!['w']);
    c.pop_char();
    c.pop_char();
    assert!(c.text.is_empty());
    c.push_char('a');
    c.close();
    c.push_char('b');
    assert_eq!(c.text, vec!['a']);
    c.open();
    assert!(c.text.is_empty());
}
