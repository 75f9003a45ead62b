use stratum_monitor::escape::escape_html;
use stratum_monitor::tail::{is_newest_first, render_snippet, render_tick};
use stratum_monitor::window::{join_lines, window};
use stratum_monitor::WINDOW_LIMIT;

fn lines(n: usize) -> Vec<String> {
    let mut v = Vec::new();
    for i in 1..=n {
        v.push(format!("L{}", i));
    }
    v
}

#[test]
fn escape_keeps_plain_text() {
    assert_eq!(escape_html("hello world 123"), "hello world 123");
    assert_eq!(escape_html(""), "");
}

#[test]
fn escape_angle_and_ampersand() {
    assert_eq!(escape_html("<a&b>"), "&lt;a&amp;b&gt;");
}

#[test]
fn escape_does_not_touch_its_own_entities_twice() {
    // The ampersand is expanded before the angle brackets are, so the
    // entities introduced for `<` and `>` keep a single leading `&`.
    assert_eq!(escape_html("<>"), "&lt;&gt;");
    // A literal entity in the input is escaped at its ampersand alone.
    assert_eq!(escape_html("&lt;"), "&amp;lt;");
}

#[test]
fn escape_is_order_preserving() {
    assert_eq!(escape_html("a<b>c&d"), "a&lt;b&gt;c&amp;d");
}

#[test]
fn window_short_file_is_whole_file() {
    let v = lines(3);
    let w = window(&v, false);
    assert_eq!(w, vec!["L1", "L2", "L3"]);
    let r = window(&v, true);
    assert_eq!(r, vec!["L3", "L2", "L1"]);
}

#[test]
fn window_exact_limit_is_whole_file() {
    let v = lines(WINDOW_LIMIT);
    let w = window(&v, false);
    assert_eq!(w.len(), WINDOW_LIMIT);
    assert_eq!(w[0], "L1");
    assert_eq!(w[WINDOW_LIMIT - 1], format!("L{}", WINDOW_LIMIT));
}

#[test]
fn window_long_file_keeps_last_hundred() {
    let v = lines(150);
    let w = window(&v, false);
    assert_eq!(w.len(), 100);
    assert_eq!(w[0], "L51");
    assert_eq!(w[99], "L150");
    let r = window(&v, true);
    assert_eq!(r.len(), 100);
    assert_eq!(r[0], "L150");
    assert_eq!(r[99], "L51");
}

#[test]
fn join_empty_and_single() {
    assert_eq!(join_lines(&Vec::new()), "");
    assert_eq!(join_lines(&vec!["only".to_string()]), "only");
}

#[test]
fn join_puts_one_newline_between_lines() {
    let v = vec!["a".to_string(), "b".to_string(), "c".to_string()];
    assert_eq!(join_lines(&v), "a\nb\nc");
}

#[test]
fn snippet_of_150_lines_default_order() {
    let v = lines(150);
    let expected: Vec<String> = (51..=150).map(|i| format!("L{}", i)).collect();
    assert_eq!(render_snippet(&v, false), expected.join("\n"));
}

#[test]
fn snippet_of_150_lines_newest_first() {
    let v = lines(150);
    let expected: Vec<String> = (51..=150).rev().map(|i| format!("L{}", i)).collect();
    assert_eq!(render_snippet(&v, true), expected.join("\n"));
}

#[test]
fn snippet_of_short_file_is_whole_file() {
    let v = lines(5);
    assert_eq!(render_snippet(&v, false), "L1\nL2\nL3\nL4\nL5");
    assert_eq!(render_snippet(&v, true), "L5\nL4\nL3\nL2\nL1");
}

#[test]
fn snippet_of_empty_file_is_empty() {
    assert_eq!(render_snippet(&Vec::new(), false), "");
    assert_eq!(render_snippet(&Vec::new(), true), "");
}

#[test]
fn snippet_escapes_every_line() {
    let v = vec!["<a&b>".to_string(), "x > y".to_string()];
    assert_eq!(render_snippet(&v, false), "&lt;a&amp;b&gt;\nx &gt; y");
}

#[test]
fn absent_file_yields_sentinel() {
    assert_eq!(render_tick(None, false), "Waiting for file...");
    assert_eq!(render_tick(None, true), "Waiting for file...");
}

#[test]
fn absent_then_created_file() {
    // First tick: the file does not exist yet; second tick: it holds one line.
    let first = render_tick(None, false);
    assert_eq!(first, "Waiting for file...");
    let contents = vec!["hello".to_string()];
    let second = render_tick(Some(&contents), false);
    assert_eq!(second, "hello");
}

#[test]
fn two_orderings_of_one_file_are_independent() {
    // Two clients tailing the same file with different ordering preferences:
    // each tick is a pure function of the lines and the client's own flag.
    let v = lines(150);
    let chrono = render_tick(Some(&v), false);
    let newest = render_tick(Some(&v), true);
    assert_eq!(chrono.lines().next(), Some("L51"));
    assert_eq!(newest.lines().next(), Some("L150"));
    assert_eq!(render_tick(Some(&v), false), chrono);
    assert_eq!(render_tick(Some(&v), true), newest);
}

#[test]
fn order_parameter_parsing() {
    assert!(is_newest_first(Some(&"newest".to_string())));
    assert!(!is_newest_first(Some(&"chronological".to_string())));
    assert!(!is_newest_first(Some(&"Newest".to_string())));
    assert!(!is_newest_first(Some(&"".to_string())));
    assert!(!is_newest_first(None));
}
