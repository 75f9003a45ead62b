//! HTML escaping of log lines.
//!
//! Every line shown to a client is escaped character by character:
//! `&` becomes `&amp;`, `<` becomes `&lt;`, `>` becomes `&gt;`, and every
//! other character is kept as it is. Escaping the ampersand together with
//! the angle brackets in a single pass means the entities introduced for
//! `<` and `>` are never escaped a second time.
use vstd::prelude::*;
use vstd::string::StrSliceExecFns;
use vstd::string::StringExecFns;

verus! {

/// The expansion of a single character under HTML escaping.
pub open spec fn escape_char(c: char) -> Seq<char> {
    if c == '&' {
        seq!['&', 'a', 'm', 'p', ';']
    } else if c == '<' {
        seq!['&', 'l', 't', ';']
    } else if c == '>' {
        seq!['&', 'g', 't', ';']
    } else {
        seq![c]
    }
}

/// HTML escaping of a whole line: the concatenation, in order, of the
/// expansions of its characters.
pub open spec fn escape_seq(s: Seq<char>) -> Seq<char>
    decreases s.len(),
{
    if s.len() == 0 {
        Seq::empty()
    } else {
        escape_char(s[0]) + escape_seq(s.drop_first())
    }
}

/// Law: HTML escaping is order-preserving. The escape of a concatenation is
/// the concatenation of the escapes, so each character's expansion stands in
/// the output exactly where the character stood in the input, and the escape
/// of one part of a line never reaches into another.
pub proof fn lemma_escape_concat(s: Seq<char>, t: Seq<char>)
    ensures
        escape_seq(s + t) == escape_seq(s) + escape_seq(t),
    decreases s.len(),
{
    if s.len() == 0 {
        assert(s + t =~= t);
        assert(escape_seq(s) + escape_seq(t) =~= escape_seq(t));
    } else {
        assert((s + t).len() > 0);
        assert((s + t)[0] == s[0]);
        assert((s + t).drop_first() =~= s.drop_first() + t);
        lemma_escape_concat(s.drop_first(), t);
        assert(escape_seq(s + t) =~= escape_seq(s) + escape_seq(t));
    }
}

/// Appending one character to a line appends that character's expansion to
/// the escaped line.
pub proof fn lemma_escape_push(s: Seq<char>, c: char)
    ensures
        escape_seq(s.push(c)) == escape_seq(s) + escape_char(c),
{
    assert(s.push(c) =~= s + seq![c]);
    lemma_escape_concat(s, seq![c]);
    assert(seq![c].drop_first() =~= Seq::<char>::empty());
    assert(escape_seq(Seq::<char>::empty()) =~= Seq::<char>::empty());
    assert(seq![c][0] == c);
    assert(escape_seq(seq![c]) =~= escape_char(c) + escape_seq(seq![c].drop_first()));
    assert(escape_seq(seq![c]) =~= escape_char(c));
}

/// Law: an escaped line is HTML-safe — it holds no raw angle bracket, so a
/// log line can never open or close a tag in the page it is shown on.
pub proof fn lemma_escape_html_safe(s: Seq<char>)
    ensures
        forall|i: int|
            0 <= i < escape_seq(s).len() ==> #[trigger] escape_seq(s)[i] != '<' && escape_seq(
                s,
            )[i] != '>',
    decreases s.len(),
{
    if s.len() > 0 {
        lemma_escape_html_safe(s.drop_first());
        assert forall|i: int|
            0 <= i < escape_seq(s).len() implies #[trigger] escape_seq(s)[i] != '<' && escape_seq(
            s,
        )[i] != '>' by {
            let head = escape_char(s[0]);
            if i >= head.len() {
                assert(escape_seq(s)[i] == escape_seq(s.drop_first())[i - head.len()]);
            }
        }
    }
}

/// HTML-escape one line of text.
pub fn escape_html(input: &str) -> (r: String)
    ensures
        r@ == escape_seq(input@),
{
    let n = input.unicode_len();
    let mut out = String::new();
    let mut i: usize = 0;
    while i < n
        invariant
            n == input@.len(),
            i <= n,
            out@ == escape_seq(input@.subrange(0, i as int)),
        decreases n - i,
    {
        let c = input.get_char(i);
        if c == '&' {
            out.append("&amp;");
            proof {
                reveal_strlit("&amp;");
                assert("&amp;"@ =~= escape_char('&'));
            }
        } else if c == '<' {
            out.append("&lt;");
            proof {
                reveal_strlit("&lt;");
                assert("&lt;"@ =~= escape_char('<'));
            }
        } else if c == '>' {
            out.append("&gt;");
            proof {
                reveal_strlit("&gt;");
                assert("&gt;"@ =~= escape_char('>'));
            }
        } else {
            let piece = input.substring_char(i, i + 1);
            out.append(piece);
            proof {
                assert(piece@ =~= escape_char(c));
            }
        }
        proof {
            assert(input@.subrange(0, i + 1) =~= input@.subrange(0, i as int).push(input@[i as int]));
            lemma_escape_push(input@.subrange(0, i as int), input@[i as int]);
        }
        i = i + 1;
    }
    proof {
        assert(input@.subrange(0, n as int) =~= input@);
    }
    out
}

} // verus!
