//! Text: what trimming means, and the parts of `String` and `str` that the rest builds on.

use vstd::prelude::*;

verus! {

/// The code points with Unicode's White_Space property.
pub open spec fn white_space(c: char) -> bool {
    let code = c as u32;
    ||| 0x9 <= code <= 0xd
    ||| code == 0x20
    ||| code == 0x85
    ||| code == 0xa0
    ||| code == 0x1680
    ||| 0x2000 <= code <= 0x200a
    ||| code == 0x2028
    ||| code == 0x2029
    ||| code == 0x202f
    ||| code == 0x205f
    ||| code == 0x3000
}

/// `s` without its leading white space.
pub open spec fn trimmed_start(s: Seq<char>) -> Seq<char>
    decreases s.len(),
{
    if s.len() > 0 && white_space(s[0]) {
        trimmed_start(s.drop_first())
    } else {
        s
    }
}

/// `s` without its trailing white space.
pub open spec fn trimmed_end(s: Seq<char>) -> Seq<char>
    decreases s.len(),
{
    if s.len() > 0 && white_space(s.last()) {
        trimmed_end(s.drop_last())
    } else {
        s
    }
}

/// `s` without leading and trailing white space.
pub open spec fn trimmed(s: Seq<char>) -> Seq<char> {
    trimmed_end(trimmed_start(s))
}

/// Nothing to trim at either end.
pub open spec fn is_trimmed(s: Seq<char>) -> bool {
    s.len() > 0 ==> !white_space(s[0]) && !white_space(s.last())
}

/// `str::trim` removes leading and trailing characters that have Unicode's White_Space
/// property, and nothing else.
pub assume_specification[ str::trim ](s: &str) -> (r: &str)
    ensures
        r@ == trimmed(s@),
;

/// `String::push` appends one character.
pub assume_specification[ String::push ](s: &mut String, ch: char)
    ensures
        final(s)@ == old(s)@.push(ch),
;

/// `String::pop` removes the last character and returns it; an empty string stays empty.
pub assume_specification[ String::pop ](s: &mut String) -> (ch: Option<char>)
    ensures
        old(s)@.len() == 0 ==> ch is None && final(s)@ == old(s)@,
        old(s)@.len() > 0 ==> ch == Some(old(s)@.last()) && final(s)@ == old(s)@.drop_last(),
;

/// The characters of an optional text.
pub open spec fn optional(text: Option<String>) -> Option<Seq<char>> {
    match text {
        Some(text) => Some(text@),
        None => None,
    }
}

proof fn lemma_trimmed_end(s: Seq<char>)
    ensures
        trimmed_end(s).len() <= s.len(),
        trimmed_end(s) == s.take(trimmed_end(s).len() as int),
        trimmed_end(s).len() > 0 ==> !white_space(trimmed_end(s).last()),
    decreases s.len(),
{
    if s.len() > 0 && white_space(s.last()) {
        lemma_trimmed_end(s.drop_last());
        assert(s.drop_last().take(trimmed_end(s).len() as int) =~= s.take(
            trimmed_end(s).len() as int,
        ));
    } else {
        assert(s.take(s.len() as int) =~= s);
    }
}

proof fn lemma_trimmed_start(s: Seq<char>)
    ensures
        trimmed_start(s).len() > 0 ==> !white_space(trimmed_start(s)[0]),
    decreases s.len(),
{
    if s.len() > 0 && white_space(s[0]) {
        lemma_trimmed_start(s.drop_first());
    }
}

/// Trimmed text has no white space at either end.
pub proof fn law_trimmed_has_no_outer_space(s: Seq<char>)
    ensures
        is_trimmed(trimmed(s)),
{
    lemma_trimmed_start(s);
    lemma_trimmed_end(trimmed_start(s));
}

/// Trimming trimmed text changes nothing.
pub proof fn law_trim_is_idempotent(s: Seq<char>)
    ensures
        trimmed(trimmed(s)) == trimmed(s),
{
    law_trimmed_has_no_outer_space(s);
}

/// `left` followed by `right`.
pub fn joined(left: &str, right: &str) -> (r: String)
    ensures
        r@ == left@ + right@,
{
    left.to_string().concat(right)
}

/// The two texts have the same characters.
pub fn same_text(left: &str, right: &str) -> (same: bool)
    ensures
        same == (left@ == right@),
{
    left.to_string() == right.to_string()
}

/// A copy of an optional text.
pub fn copy_optional(text: &Option<String>) -> (r: Option<String>)
    ensures
        optional(r) == optional(*text),
{
    match text {
        Some(text) => Some(text.clone()),
        None => None,
    }
}

proof fn lemma_trimmed_start_is_suffix(s: Seq<char>) -> (cut: int)
    ensures
        0 <= cut <= s.len(),
        trimmed_start(s) == s.skip(cut),
        forall|i: int| 0 <= i < cut ==> white_space(#[trigger] s[i]),
    decreases s.len(),
{
    if s.len() > 0 && white_space(s[0]) {
        let rest = lemma_trimmed_start_is_suffix(s.drop_first());
        assert(s.drop_first().skip(rest) =~= s.skip(rest + 1));
        assert forall|i: int| 0 <= i < rest + 1 implies white_space(#[trigger] s[i]) by {
            if i > 0 {
                assert(s[i] == s.drop_first()[i - 1]);
            }
        }
        rest + 1
    } else {
        assert(s.skip(0) =~= s);
        0
    }
}

proof fn lemma_trimmed_end_is_prefix(s: Seq<char>) -> (keep: int)
    ensures
        0 <= keep <= s.len(),
        trimmed_end(s) == s.take(keep),
        forall|i: int| keep <= i < s.len() ==> white_space(#[trigger] s[i]),
    decreases s.len(),
{
    if s.len() > 0 && white_space(s.last()) {
        let keep = lemma_trimmed_end_is_prefix(s.drop_last());
        assert(s.drop_last().take(keep) =~= s.take(keep));
        assert forall|i: int| keep <= i < s.len() implies white_space(#[trigger] s[i]) by {
            if i < s.len() - 1 {
                assert(s[i] == s.drop_last()[i]);
            }
        }
        keep
    } else {
        assert(s.take(s.len() as int) =~= s);
        s.len() as int
    }
}

/// Trimming cuts white space off both ends and nothing else: what is left stood in the text in
/// one piece, and everything around it was white space. Text that is not all white space keeps
/// something, and text with other characters at both ends stays as it is.
pub proof fn law_trim_cuts_only_outer_space(s: Seq<char>)
    ensures
        exists|from: int, to: int|
            #![trigger s.subrange(from, to)]
            {
                &&& 0 <= from <= to <= s.len()
                &&& trimmed(s) == s.subrange(from, to)
                &&& forall|i: int|
                    0 <= i < from || to <= i < s.len() ==> white_space(#[trigger] s[i])
            },
        (exists|i: int| 0 <= i < s.len() && !white_space(#[trigger] s[i])) <==> trimmed(s).len()
            > 0,
        s.len() > 0 && !white_space(s[0]) && !white_space(s.last()) ==> trimmed(s) == s,
{
    let from = lemma_trimmed_start_is_suffix(s);
    let rest = s.skip(from);
    let keep = lemma_trimmed_end_is_prefix(rest);
    let to = from + keep;
    assert(rest.take(keep) =~= s.subrange(from, to));
    assert forall|i: int| 0 <= i < from || to <= i < s.len() implies white_space(
        #[trigger] s[i],
    ) by {
        if i >= from {
            assert(s[i] == rest[i - from]);
        }
    }
    assert(trimmed(s) == s.subrange(from, to));
    law_trimmed_has_no_outer_space(s);
    if trimmed(s).len() > 0 {
        assert(trimmed(s)[0] == s[from]);
        assert(!white_space(s[from]));
    } else {
        assert(from == to);
    }
    if s.len() > 0 && !white_space(s[0]) && !white_space(s.last()) {
        assert(from == 0);
        assert(to == s.len()) by {
            if to < s.len() {
                assert(white_space(s[s.len() - 1]));
            }
        }
        assert(s.subrange(0, s.len() as int) =~= s);
    }
}

/// Among the ASCII characters, white space is the blank and the controls from tab to carriage
/// return; a letter, a digit or a sign is never cut off.
pub proof fn law_ascii_white_space(c: char)
    requires
        (c as u32) < 128,
    ensures
        white_space(c) <==> c == ' ' || c == '\t' || c == '\n' || c == '\r' || c as u32 == 11 || c
            as u32 == 12,
{
}

/// An optional text shows its characters if it is there.
pub proof fn law_optional_text(text: String)
    ensures
        optional(Some(text)) == Some(text@),
        optional(None) is None,
{
}

} // verus!
