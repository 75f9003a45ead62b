//! One tick of the log-tail engine.
//!
//! On every tick the engine is handed the file's current lines — or nothing
//! when the file does not exist yet — and renders one snippet: the
//! HTML-escaped, bounded, ordered window of the tail, joined with newlines,
//! or the fixed sentinel text while the file is still absent. A tick owns no
//! state between polls, so every snippet is a function of the file's current
//! contents and the client's ordering preference alone.
use vstd::prelude::*;
use vstd::string::StringExecFns;
use crate::escape::escape_seq;
use crate::escape::escape_html;
use crate::window::join_spec;
use crate::window::join_lines;
use crate::window::window_spec;
use crate::window::window;

verus! {

/// The text emitted while the tailed file does not exist yet.
pub open spec fn sentinel_text() -> Seq<char> {
    "Waiting for file..."@
}

/// The snippet rendered from a file's lines: each raw line HTML-escaped,
/// the window of the last lines taken in the requested order, and the
/// window joined with newlines.
pub open spec fn snippet_spec(raw_lines: Seq<Seq<char>>, newest_first: bool) -> Seq<char> {
    join_spec(window_spec(raw_lines.map_values(|l: Seq<char>| escape_seq(l)), newest_first))
}

/// Render the snippet for one tick from the raw lines of the file.
pub fn render_snippet(lines: &Vec<String>, newest_first: bool) -> (r: String)
    ensures
        r@ == snippet_spec(lines.deep_view(), newest_first),
{
    let ghost escaped_view = lines.deep_view().map_values(|l: Seq<char>| escape_seq(l));
    let mut escaped: Vec<String> = Vec::new();
    let mut i: usize = 0;
    while i < lines.len()
        invariant
            i <= lines.len(),
            escaped_view == lines.deep_view().map_values(|l: Seq<char>| escape_seq(l)),
            escaped.deep_view() =~= escaped_view.subrange(0, i as int),
        decreases lines.len() - i,
    {
        let ghost pre = escaped.deep_view();
        let line = escape_html(lines[i].as_str());
        proof {
            assert(line@ == escape_seq(lines.deep_view()[i as int]));
        }
        escaped.push(line);
        i = i + 1;
        proof {
            assert(escaped.deep_view() =~= pre.push(escape_seq(lines.deep_view()[i - 1])));
            assert(escaped.deep_view() =~= escaped_view.subrange(0, i as int));
        }
    }
    proof {
        assert(escaped.deep_view() =~= escaped_view);
    }
    let shown = window(&escaped, newest_first);
    join_lines(&shown)
}

/// Render one tick's output. `file_lines` is the file's current lines, or
/// `None` when the file could not be opened; the absence is transient and
/// yields the sentinel text, never an error.
pub fn render_tick(file_lines: Option<&Vec<String>>, newest_first: bool) -> (r: String)
    ensures
        file_lines is None ==> r@ == sentinel_text(),
        file_lines matches Some(lines) ==> r@ == snippet_spec(lines.deep_view(), newest_first),
{
    match file_lines {
        None => String::from_str("Waiting for file..."),
        Some(lines) => render_snippet(lines, newest_first),
    }
}

/// Read the client's ordering preference from the value of its `order`
/// query parameter: exactly the value `newest` asks for the newest line
/// first; any other value, or an absent parameter, keeps file order.
pub fn is_newest_first(order: Option<&String>) -> (r: bool)
    ensures
        r == (order matches Some(s) && s@ == "newest"@),
{
    match order {
        None => false,
        Some(s) => {
            let key = String::from_str("newest");
            *s == key
        },
    }
}

} // verus!
