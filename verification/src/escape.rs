//! Keeping a payload on one line: every carriage return and every line feed
//! becomes the two characters `||`. The replacing is done by the `regex`
//! crate.

use regex::Regex;
use vstd::prelude::*;

verus! {

/// The pattern that matches one line-break character: a class of two.
pub const LINE_BREAK_CLASS: &'static str = "[\\r\\n]";

/// What stands in a payload for each line-break character.
pub const LINE_BREAK_MARK: &'static str = "||";

/// Whether `c` is a carriage return or a line feed.
pub open spec fn is_line_break(c: char) -> bool {
    c == '\r' || c == '\n'
}

/// Whether no character of `text` is a line break.
pub open spec fn on_one_line(text: Seq<char>) -> bool {
    forall|i: int| 0 <= i < text.len() ==> !is_line_break(#[trigger] text[i])
}

/// Whether `line` is exactly one physical line: text without a line break,
/// closed by one line feed.
pub open spec fn is_single_line(line: Seq<char>) -> bool {
    &&& line.len() > 0
    &&& line.last() == '\n'
    &&& on_one_line(line.drop_last())
}

/// `text` with `||` in place of each of its line-break characters, and every
/// other character as it was.
pub open spec fn escaped(text: Seq<char>) -> Seq<char>
    decreases text.len(),
{
    if text.len() == 0 {
        Seq::empty()
    } else if is_line_break(text[0]) {
        LINE_BREAK_MARK@ + escaped(text.drop_first())
    } else {
        seq![text[0]] + escaped(text.drop_first())
    }
}

/// Compiles `pattern` with `regex::Regex::new` and calls
/// `regex::Regex::replace_all` on `haystack`.
///
/// Trusted, for the one pattern and the one replacement that `requires`
/// admits: the class `[\r\n]` matches each carriage return and each line feed,
/// one character at a time, so every such character is a match of its own;
/// `replace_all` puts the replacement, which holds no `$` and is therefore
/// taken literally, in place of every match and copies the rest. The pattern
/// compiles, so the `unwrap` does not panic.
#[verifier::external_body]
pub(crate) fn replace_all(pattern: &str, haystack: &str, replacement: &str) -> (out: String)
    requires
        pattern@ == LINE_BREAK_CLASS@,
        replacement@ == LINE_BREAK_MARK@,
    ensures
        out@ == escaped(haystack@),
{
    Regex::new(pattern).unwrap().replace_all(haystack, replacement).into_owned()
}

/// Replaces every carriage return and every line feed of `body` by `||`.
pub fn escape_line_breaks(body: &str) -> (data: String)
    ensures
        data@ == escaped(body@),
        on_one_line(data@),
{
    proof {
        lemma_escaped_on_one_line(body@);
    }
    replace_all(LINE_BREAK_CLASS, body, LINE_BREAK_MARK)
}

/// An escaped text holds no line break.
pub proof fn lemma_escaped_on_one_line(text: Seq<char>)
    ensures
        on_one_line(escaped(text)),
    decreases text.len(),
{
    reveal_strlit("||");
    if text.len() > 0 {
        lemma_escaped_on_one_line(text.drop_first());
    }
}

/// Escaping changes nothing in a text that holds no line break.
pub proof fn lemma_escaped_unchanged(text: Seq<char>)
    requires
        on_one_line(text),
    ensures
        escaped(text) == text,
    decreases text.len(),
{
    if text.len() > 0 {
        let rest = text.drop_first();
        assert forall|i: int| 0 <= i < rest.len() implies !is_line_break(#[trigger] rest[i]) by {
            assert(rest[i] == text[i + 1]);
        }
        lemma_escaped_unchanged(rest);
        assert(text =~= seq![text[0]] + rest);
    }
}

} // verus!
