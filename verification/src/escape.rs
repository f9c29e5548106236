//! Neutralizing credential text for embedding in the automation script.
//!
//! The generated script places each credential inside a double-quoted
//! string literal of the scripting language, whose escape character is the
//! backtick: a backtick escapes the character after it, an unescaped
//! double quote ends the literal, and an unescaped dollar sign starts
//! variable or subexpression interpolation. Every backtick in the
//! credential is therefore doubled, and every double quote and every
//! dollar sign is prefixed with a backtick (a backtick-escaped character
//! with no special escape meaning denotes itself, so `` `" `` is a literal
//! quote and `` `$ `` a literal dollar sign).
//!
//! Two laws pin this down: the escaped text never exposes a bare quote or
//! dollar sign to the script parser, nor a backtick that escapes what
//! follows the literal (`lemma_escape_well_formed`), and reading the
//! escaped text back under the escape rules yields exactly the original
//! credential, unmangled (`lemma_escape_round_trip`).

use vstd::prelude::*;
use crate::text::push_char;

verus! {

/// How one credential character appears inside the script's double-quoted
/// literal.
pub open spec fn escape_char(c: char) -> Seq<char> {
    if c == '`' {
        seq!['`', '`']
    } else if c == '"' {
        seq!['`', '"']
    } else if c == '$' {
        seq!['`', '$']
    } else {
        seq![c]
    }
}

/// The whole credential, escaped character by character.
pub open spec fn escape_seq(s: Seq<char>) -> Seq<char>
    decreases s.len(),
{
    if s.len() == 0 {
        Seq::empty()
    } else {
        escape_char(s[0]) + escape_seq(s.drop_first())
    }
}

/// Escaping distributes over concatenation.
pub proof fn lemma_escape_append(a: Seq<char>, b: Seq<char>)
    ensures
        escape_seq(a + b) == escape_seq(a) + escape_seq(b),
    decreases a.len(),
{
    if a.len() == 0 {
        assert(a + b =~= b);
        assert(escape_seq(a) + escape_seq(b) =~= escape_seq(b));
    } else {
        lemma_escape_append(a.drop_first(), b);
        assert((a + b).drop_first() =~= a.drop_first() + b);
        assert(escape_char(a[0]) + (escape_seq(a.drop_first()) + escape_seq(b)) =~= (escape_char(
            a[0],
        ) + escape_seq(a.drop_first())) + escape_seq(b));
    }
}

/// A double-quoted literal body is inert when, scanning left to right,
/// every backtick escapes a following character and no double quote or
/// dollar sign stands on its own: a bare quote would end the literal early
/// and a bare dollar sign would start interpolation, either way letting
/// credential text be read as script syntax.
pub open spec fn quoted_body_well_formed(t: Seq<char>) -> bool
    decreases t.len(),
{
    if t.len() == 0 {
        true
    } else if t[0] == '"' || t[0] == '$' {
        false
    } else if t[0] == '`' {
        t.len() >= 2 && quoted_body_well_formed(t.skip(2))
    } else {
        quoted_body_well_formed(t.drop_first())
    }
}

/// The text a well-formed double-quoted literal body denotes: a backtick
/// yields the character after it, every other character yields itself.
pub open spec fn quoted_body_text(t: Seq<char>) -> Seq<char>
    decreases t.len(),
{
    if t.len() == 0 {
        Seq::empty()
    } else if t[0] == '`' && t.len() >= 2 {
        seq![t[1]] + quoted_body_text(t.skip(2))
    } else {
        seq![t[0]] + quoted_body_text(t.drop_first())
    }
}

/// Escaped credential text parses as a single inert literal body: no
/// character of the credential can end the literal, start interpolation,
/// or escape what follows it.
pub proof fn lemma_escape_well_formed(s: Seq<char>)
    ensures
        quoted_body_well_formed(escape_seq(s)),
    decreases s.len(),
{
    if s.len() == 0 {
    } else {
        lemma_escape_well_formed(s.drop_first());
        let t = escape_seq(s);
        let rest = escape_seq(s.drop_first());
        if s[0] == '`' || s[0] == '"' || s[0] == '$' {
            assert(t =~= seq!['`', s[0]] + rest);
            assert(t.skip(2) =~= rest);
        } else {
            assert(t =~= seq![s[0]] + rest);
            assert(t.drop_first() =~= rest);
        }
    }
}

/// Round trip: reading the escaped credential back under the script's
/// escape rules gives exactly the original text — nothing is lost, added or
/// reordered by neutralization.
pub proof fn lemma_escape_round_trip(s: Seq<char>)
    ensures
        quoted_body_text(escape_seq(s)) == s,
    decreases s.len(),
{
    if s.len() == 0 {
        assert(quoted_body_text(escape_seq(s)) =~= s);
    } else {
        lemma_escape_round_trip(s.drop_first());
        let t = escape_seq(s);
        let rest = escape_seq(s.drop_first());
        if s[0] == '`' || s[0] == '"' || s[0] == '$' {
            assert(t =~= seq!['`', s[0]] + rest);
            assert(t.skip(2) =~= rest);
            assert(t[0] == '`' && t.len() >= 2);
            assert(quoted_body_text(t) =~= seq![t[1]] + quoted_body_text(rest));
            assert(quoted_body_text(t) =~= s);
        } else {
            assert(t =~= seq![s[0]] + rest);
            assert(t[0] != '`');
            assert(t.drop_first() =~= rest);
            assert(quoted_body_text(t) =~= seq![t[0]] + quoted_body_text(rest));
            assert(quoted_body_text(t) =~= s);
        }
    }
}

/// One escaped step appended on the right.
proof fn lemma_escape_snoc(s: Seq<char>, i: int)
    requires
        0 <= i < s.len(),
    ensures
        escape_seq(s.subrange(0, i + 1)) == escape_seq(s.subrange(0, i)) + escape_char(s[i]),
{
    assert(s.subrange(0, i + 1) =~= s.subrange(0, i) + seq![s[i]]);
    lemma_escape_append(s.subrange(0, i), seq![s[i]]);
    let single = seq![s[i]];
    assert(single.len() == 1);
    assert(single[0] == s[i]);
    assert(single.drop_first() =~= Seq::<char>::empty());
    assert(escape_seq(single) == escape_char(s[i]) + escape_seq(single.drop_first()));
    assert(escape_seq(single.drop_first()) == Seq::<char>::empty());
    assert(escape_char(s[i]) + Seq::<char>::empty() =~= escape_char(s[i]));
    assert(escape_seq(single) == escape_char(s[i]));
}

/// Escapes one credential for embedding in the script's double-quoted
/// literal.
pub fn escape_credential(s: &str) -> (r: String)
    ensures
        r@ == escape_seq(s@),
{
    let len: usize = s.unicode_len();
    let mut r = String::new();
    let mut i: usize = 0;
    proof {
        assert(s@.subrange(0, 0) =~= Seq::<char>::empty());
    }
    while i < len
        invariant
            0 <= i <= len,
            len == s@.len(),
            r@ == escape_seq(s@.subrange(0, i as int)),
        decreases len - i,
    {
        let c = s.get_char(i);
        if c == '`' {
            push_char(&mut r, '`');
            push_char(&mut r, '`');
        } else if c == '"' {
            push_char(&mut r, '`');
            push_char(&mut r, '"');
        } else if c == '$' {
            push_char(&mut r, '`');
            push_char(&mut r, '$');
        } else {
            push_char(&mut r, c);
        }
        proof {
            lemma_escape_snoc(s@, i as int);
            assert(r@ =~= escape_seq(s@.subrange(0, i as int)) + escape_char(s@[i as int]));
        }
        i += 1;
    }
    proof {
        assert(s@.subrange(0, len as int) =~= s@);
    }
    r
}

} // verus!
