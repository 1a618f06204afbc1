//! Escaping of free text that is placed between single quotes in a query.

use vstd::prelude::*;

verus! {

broadcast use vstd::string::group_string_axioms;

/// Whether `c` is a control character (general category Cc): the C0 range,
/// DEL and the C1 range.
pub open spec fn is_control(c: char) -> bool {
    c as u32 <= 0x1f || (0x7f <= c as u32 && c as u32 <= 0x9f)
}

/// What one character of the input contributes to the sanitized text.
pub open spec fn escaped(c: char) -> Seq<char> {
    if is_control(c) {
        seq![]
    } else if c == '\'' {
        seq!['\'', '\'']
    } else if c == '\\' {
        seq!['\\', '\\']
    } else {
        seq![c]
    }
}

/// The sanitized form of `s`: the contributions of its characters, in order.
pub open spec fn sanitized(s: Seq<char>) -> Seq<char>
    decreases s.len(),
{
    if s.len() == 0 {
        seq![]
    } else {
        sanitized(s.drop_last()) + escaped(s.last())
    }
}

/// `s` without its control characters.
pub open spec fn stripped(s: Seq<char>) -> Seq<char> {
    s.filter(|c: char| !is_control(c))
}

/// Sanitizing works character by character: the sanitized form of a text in
/// two parts is made of the sanitized forms of the parts.
pub proof fn lemma_sanitized_concat(a: Seq<char>, b: Seq<char>)
    ensures
        sanitized(a + b) == sanitized(a) + sanitized(b),
    decreases b.len(),
{
    if b.len() > 0 {
        lemma_sanitized_concat(a, b.drop_last());
        assert((a + b).drop_last() =~= a + b.drop_last());
        assert(sanitized(a) + sanitized(b) =~= sanitized(a) + sanitized(b.drop_last()) + escaped(
            b.last(),
        ));
    }
}

/// No control character is left in a sanitized text.
pub proof fn lemma_sanitized_has_no_control(s: Seq<char>)
    ensures
        forall|i: int| 0 <= i < sanitized(s).len() ==> !is_control(#[trigger] sanitized(s)[i]),
    decreases s.len(),
{
    if s.len() > 0 {
        lemma_sanitized_has_no_control(s.drop_last());
        let head = sanitized(s.drop_last());
        let tail = escaped(s.last());
        assert forall|i: int| 0 <= i < sanitized(s).len() implies !is_control(
            #[trigger] sanitized(s)[i],
        ) by {
            if i < head.len() {
                assert(sanitized(s)[i] == head[i]);
            } else {
                assert(sanitized(s)[i] == tail[i - head.len()]);
            }
        }
    }
}

/// Control characters are taken out before anything is escaped: a text and
/// the same text without its control characters have the same sanitized form.
pub proof fn lemma_sanitized_ignores_control(s: Seq<char>)
    ensures
        sanitized(s) == sanitized(stripped(s)),
    decreases s.len(),
{
    reveal(Seq::filter);
    if s.len() > 0 {
        lemma_sanitized_ignores_control(s.drop_last());
        if !is_control(s.last()) {
            assert(stripped(s).drop_last() =~= stripped(s.drop_last()));
        }
    }
}

/// Every single quote of `t` is one of a pair of neighbours, read from the end
/// of the text.
pub open spec fn quotes_paired(t: Seq<char>) -> bool
    decreases t.len(),
{
    if t.len() == 0 {
        true
    } else if t.last() != '\'' {
        quotes_paired(t.drop_last())
    } else {
        t.len() >= 2 && t[t.len() - 2] == '\'' && quotes_paired(t.take(t.len() - 2))
    }
}

/// In a sanitized text every single quote is doubled, so that the text, put
/// between single quotes, is one literal.
pub proof fn lemma_sanitized_quotes_paired(s: Seq<char>)
    ensures
        quotes_paired(sanitized(s)),
    decreases s.len(),
{
    if s.len() > 0 {
        lemma_sanitized_quotes_paired(s.drop_last());
        let head = sanitized(s.drop_last());
        let c = s.last();
        let t = sanitized(s);
        if is_control(c) {
            assert(t =~= head);
        } else if c == '\'' {
            assert(t.take(t.len() - 2) =~= head);
        } else if c == '\\' {
            let u = t.drop_last();
            assert(u.drop_last() =~= head);
            assert(quotes_paired(u));
        } else {
            assert(t.drop_last() =~= head);
        }
    }
}

/// A text without control characters, quotes and backslashes is its own
/// sanitized form.
pub proof fn lemma_sanitized_plain(s: Seq<char>)
    requires
        forall|i: int|
            0 <= i < s.len() ==> !is_control(#[trigger] s[i]) && s[i] != '\'' && s[i] != '\\',
    ensures
        sanitized(s) == s,
    decreases s.len(),
{
    if s.len() > 0 {
        lemma_sanitized_plain(s.drop_last());
    }
}

fn is_control_char(c: char) -> (b: bool)
    ensures
        b == is_control(c),
{
    let code: u32 = c as u32;
    code <= 0x1f || (0x7f <= code && code <= 0x9f)
}

pub fn safe_spice(input: &str) -> (out: String)
    ensures
        out@ == sanitized(input@),
{
    let mut out = String::new();
    for c in it: input.chars()
        invariant
            it.seq() == input@,
            out@ == sanitized(input@.take(it.index())),
    {
        proof {
            let k = it.index();
            assert(input@.take(k + 1).drop_last() =~= input@.take(k));
        }
        if !is_control_char(c) {
            if c == '\'' {
                out.push('\'');
                out.push('\'');
            } else if c == '\\' {
                out.push('\\');
                out.push('\\');
            } else {
                out.push(c);
            }
        }
    }
    proof {
        assert(input@.take(input@.len() as int) =~= input@);
    }
    out
}

} // verus!
