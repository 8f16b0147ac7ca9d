//! Naming conventions for storage key variants (PascalCase) and event topics
//! (snake_case). Both are encoded on-chain as symbols, which accept only
//! `a-zA-Z0-9_` and at most 32 characters; the checks here are stricter.

use vstd::prelude::*;
use vstd::utf8::*;

verus! {

broadcast use vstd::string::axiom_spec_iter;

/// Maximum length, in bytes, of an on-chain symbol.
pub const MAX_SYMBOL_LEN: usize = 32;

pub open spec fn is_ascii_upper(c: char) -> bool {
    'A' <= c && c <= 'Z'
}

pub open spec fn is_ascii_lower(c: char) -> bool {
    'a' <= c && c <= 'z'
}

pub open spec fn is_ascii_digit(c: char) -> bool {
    '0' <= c && c <= '9'
}

pub open spec fn is_ascii_alnum(c: char) -> bool {
    is_ascii_upper(c) || is_ascii_lower(c) || is_ascii_digit(c)
}

/// Characters allowed in an identifier: ASCII letters, digits and `_`.
pub open spec fn is_ident_char(c: char) -> bool {
    is_ascii_alnum(c) || c == '_'
}

/// PascalCase: an uppercase ASCII letter followed by ASCII letters and digits.
pub open spec fn pascal_case(s: Seq<char>) -> bool {
    &&& s.len() > 0
    &&& is_ascii_upper(s[0])
    &&& forall|i: int| 1 <= i < s.len() ==> is_ascii_alnum(#[trigger] s[i])
}

/// snake_case: a lowercase ASCII letter followed by lowercase ASCII letters,
/// digits and underscores.
pub open spec fn snake_case(s: Seq<char>) -> bool {
    &&& s.len() > 0
    &&& is_ascii_lower(s[0])
    &&& forall|i: int|
        1 <= i < s.len() ==> is_ascii_lower(#[trigger] s[i]) || is_ascii_digit(s[i]) || s[i]
            == '_'
}

/// The leading identifier of `s`: its longest prefix of identifier characters.
pub open spec fn leading_identifier(s: Seq<char>) -> Seq<char> {
    if forall|i: int| 0 <= i < s.len() ==> is_ident_char(#[trigger] s[i]) {
        s
    } else {
        s.take(
            choose|k: int|
                0 <= k < s.len() && !is_ident_char(#[trigger] s[k]) && forall|i: int|
                    0 <= i < k ==> is_ident_char(#[trigger] s[i]),
        )
    }
}

/// True if `name` is PascalCase: starts with an uppercase ASCII letter and
/// contains only ASCII alphanumeric characters. This is the convention for
/// storage key variants.
pub fn is_pascal_case(name: &str) -> (r: bool)
    ensures
        r == pascal_case(name@),
{
    let mut ok = true;
    let mut first = true;
    for c in it: name.chars()
        invariant
            it.seq() == name@,
            first == (it.index() == 0),
            ok == (it.index() > 0 ==> is_ascii_upper(name@[0]) && forall|i: int|
                1 <= i < it.index() ==> is_ascii_alnum(#[trigger] name@[i])),
    {
        let good = if first {
            'A' <= c && c <= 'Z'
        } else {
            ('a' <= c && c <= 'z') || ('A' <= c && c <= 'Z') || ('0' <= c && c <= '9')
        };
        ok = ok && good;
        first = false;
    }
    ok && !name.is_empty()
}

/// True if `name` is snake_case: starts with a lowercase ASCII letter and
/// contains only lowercase ASCII letters, digits, and underscores. This is the
/// convention for event topics.
pub fn is_snake_case(name: &str) -> (r: bool)
    ensures
        r == snake_case(name@),
{
    let mut ok = true;
    let mut first = true;
    for c in it: name.chars()
        invariant
            it.seq() == name@,
            first == (it.index() == 0),
            ok == (it.index() > 0 ==> is_ascii_lower(name@[0]) && forall|i: int|
                1 <= i < it.index() ==> is_ascii_lower(#[trigger] name@[i]) || is_ascii_digit(
                    name@[i],
                ) || name@[i] == '_'),
    {
        let good = if first {
            'a' <= c && c <= 'z'
        } else {
            ('a' <= c && c <= 'z') || ('0' <= c && c <= '9') || c == '_'
        };
        ok = ok && good;
        first = false;
    }
    ok && !name.is_empty()
}

proof fn lemma_encode_concat(a: Seq<char>, b: Seq<char>)
    ensures
        encode_utf8(a + b) == encode_utf8(a) + encode_utf8(b),
    decreases a.len(),
{
    if a.len() == 0 {
        assert(a + b =~= b);
    } else {
        assert((a + b).drop_first() =~= a.drop_first() + b);
        lemma_encode_concat(a.drop_first(), b);
    }
}

/// Extracts the leading identifier from a `Debug` rendering of an enum
/// variant, e.g. `"Transfer(1)"` -> `"Transfer"`, `"Admin"` -> `"Admin"`.
pub fn variant_name(debug_repr: &str) -> (r: &str)
    requires
        debug_repr@.len() <= usize::MAX,
    ensures
        r@ == leading_identifier(debug_repr@),
{
    let mut k: usize = 0;
    let mut found = false;
    for c in it: debug_repr.chars()
        invariant
            it.seq() == debug_repr@,
            debug_repr@.len() <= usize::MAX,
            k <= it.index(),
            found ==> k < debug_repr@.len() && !is_ident_char(debug_repr@[k as int]),
            !found ==> k == it.index(),
            forall|i: int| 0 <= i < k ==> is_ident_char(#[trigger] debug_repr@[i]),
    {
        if !found {
            let ident = ('a' <= c && c <= 'z') || ('A' <= c && c <= 'Z') || ('0' <= c && c
                <= '9') || c == '_';
            if ident {
                k = k + 1;
            } else {
                found = true;
            }
        }
    }
    if !found {
        return debug_repr;
    }
    let ghost s = debug_repr@;
    let ghost a = s.take(k as int);
    let ghost b = s.skip(k as int);
    proof {
        assert(!(forall|i: int| 0 <= i < s.len() ==> is_ident_char(#[trigger] s[i])));
        let kk = choose|j: int|
            0 <= j < s.len() && !is_ident_char(#[trigger] s[j]) && forall|i: int|
                0 <= i < j ==> is_ident_char(#[trigger] s[i]);
        if kk < k {
            assert(is_ident_char(s[kk]));
        }
        if k < kk {
            assert(is_ident_char(s[k as int]));
        }
        assert(a + b =~= s);
        lemma_encode_concat(a, b);
        assert(is_ascii_chars(a)) by {
            assert forall|i: int| 0 <= i < a.len() implies '\0' <= #[trigger] a[i] <= '\u{7f}' by {
                assert(is_ident_char(s[i]));
            }
        }
        is_ascii_chars_encode_utf8(a);
        encode_utf8_first_scalar(b);
        encode_utf8_valid_utf8(s);
        let bytes = encode_utf8(s);
        assert(bytes[k as int] == encode_utf8(b)[0]);
        is_char_boundary_iff_is_leading_byte(bytes, k as int);
        assert(is_char_boundary(bytes, k as int)) by {
            reveal_with_fuel(valid_leading_and_continuation_bytes_first_codepoint, 1);
        }
    }
    let (head, _tail) = debug_repr.split_at(k);
    proof {
        let bytes = encode_utf8(s);
        assert(bytes.subrange(0, k as int) =~= encode_utf8(a));
        encode_utf8_decode_utf8(head@);
        encode_utf8_decode_utf8(a);
    }
    head
}

} // verus!
