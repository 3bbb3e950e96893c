//! The canonical text of a number written with a fixed count of fractional
//! digits: trailing zeros go, and a decimal point left at the end goes too.

use vstd::prelude::*;
use vstd::string::*;

verus! {

/// `s` without the run of `c` at its end.
pub open spec fn trim_end(s: Seq<char>, c: char) -> Seq<char>
    decreases s.len(),
{
    if s.len() > 0 && s.last() == c {
        trim_end(s.drop_last(), c)
    } else {
        s
    }
}

/// `s` without its last character, if that character is `c`.
pub open spec fn strip_end(s: Seq<char>, c: char) -> Seq<char> {
    if s.len() > 0 && s.last() == c {
        s.drop_last()
    } else {
        s
    }
}

/// The canonical form of a fixed-point text: every trailing `0` removed,
/// then one trailing `.` removed if the zeros left one.
pub open spec fn canonical(s: Seq<char>) -> Seq<char> {
    strip_end(trim_end(s, '0'), '.')
}

/// [`trim_end`] keeps a prefix of `s`, drops only `c`, and leaves no `c` at
/// the end: it drops the whole trailing run and nothing else.
pub proof fn trim_end_drops_the_trailing_run(s: Seq<char>, c: char)
    ensures
        trim_end(s, c).len() <= s.len(),
        trim_end(s, c) == s.take(trim_end(s, c).len() as int),
        forall|i: int| trim_end(s, c).len() <= i < s.len() ==> s[i] == c,
        trim_end(s, c).len() > 0 ==> trim_end(s, c).last() != c,
    decreases s.len(),
{
    if s.len() > 0 && s.last() == c {
        let shorter = s.drop_last();
        trim_end_drops_the_trailing_run(shorter, c);
        let kept = trim_end(shorter, c).len() as int;
        assert forall|i: int| kept <= i < s.len() implies s[i] == c by {
            if i < shorter.len() {
                assert(shorter[i] == c);
            }
        }
    }
}

/// Removes every `c` from the end of `text`.
pub fn trim_end_matches(text: &str, c: char) -> (trimmed: String)
    ensures
        trimmed@ == trim_end(text@, c),
        trimmed@.len() <= text@.len(),
        trimmed@ == text@.take(trimmed@.len() as int),
        forall|i: int| trimmed@.len() <= i < text@.len() ==> text@[i] == c,
        trimmed@.len() > 0 ==> trimmed@.last() != c,
{
    let mut end: usize = text.unicode_len();
    assert(text@.take(end as int) =~= text@);
    while end > 0 && text.get_char(end - 1) == c
        invariant
            end <= text@.len(),
            trim_end(text@, c) == trim_end(text@.take(end as int), c),
        decreases end,
    {
        assert(text@.take(end as int).drop_last() =~= text@.take(end - 1));
        end = end - 1;
    }
    proof {
        trim_end_drops_the_trailing_run(text@, c);
    }
    String::from_str(text.substring_char(0, end))
}

/// Removes one `c` from the end of `text`, if it ends in one.
pub fn strip_end_char(text: &str, c: char) -> (stripped: String)
    ensures
        stripped@ == strip_end(text@, c),
{
    let len: usize = text.unicode_len();
    if len > 0 && text.get_char(len - 1) == c {
        String::from_str(text.substring_char(0, len - 1))
    } else {
        String::from_str(text)
    }
}

/// The canonical form of a number written in fixed-point notation, as the
/// fields show it: `50.0000000000` becomes `50`, `0.0005000000` becomes
/// `0.0005`, and `16.6666666667` stays as it is.
pub fn canonical_decimal(fixed: &str) -> (text: String)
    ensures
        text@ == canonical(fixed@),
{
    let without_zeros = trim_end_matches(fixed, '0');
    strip_end_char(without_zeros.as_str(), '.')
}

} // verus!
