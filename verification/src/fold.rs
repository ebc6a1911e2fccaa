//! ASCII case folding: the string equivalence used for attribute-name lookups.
//!
//! Two names are equivalent when they agree character for character after
//! mapping ASCII `A`-`Z` to `a`-`z`. No other character folds; in particular
//! non-ASCII characters compare exactly. This matches the markup
//! specification's rule for attribute names, which is deliberately narrower
//! than Unicode case-insensitive comparison.

use vstd::prelude::*;
use vstd::string::StrSliceExecFns;

verus! {

/// Whether `c` is an ASCII uppercase letter `A`-`Z`.
pub open spec fn is_ascii_upper(c: char) -> bool {
    65 <= c as u32 && c as u32 <= 90
}

/// Whether `c` is an ASCII lowercase letter `a`-`z`.
pub open spec fn is_ascii_lower(c: char) -> bool {
    97 <= c as u32 && c as u32 <= 122
}

/// The scalar value of `c` after ASCII case folding: `A`-`Z` map to their
/// lowercase counterparts, every other character is unchanged.
pub open spec fn fold_code(c: char) -> int {
    if is_ascii_upper(c) {
        c as u32 + 32
    } else {
        (c as u32) as int
    }
}

/// ASCII case-insensitive equality of two character sequences.
pub open spec fn ascii_case_eq(a: Seq<char>, b: Seq<char>) -> bool {
    a.len() == b.len() && forall|i: int| 0 <= i < a.len() ==> fold_code(a[i]) == fold_code(b[i])
}

/// ASCII case-insensitive equality is an equivalence relation, so it is fit
/// to serve as the key equivalence of a lookup table.
pub proof fn lemma_ascii_case_eq_equivalence(a: Seq<char>, b: Seq<char>, c: Seq<char>)
    ensures
        ascii_case_eq(a, a),
        ascii_case_eq(a, b) ==> ascii_case_eq(b, a),
        ascii_case_eq(a, b) && ascii_case_eq(b, c) ==> ascii_case_eq(a, c),
{
}

/// Characters other than ASCII letters never fold: if the sequences differ at
/// a position where neither side is an ASCII letter, they are not equivalent.
pub proof fn lemma_non_letter_mismatch(a: Seq<char>, b: Seq<char>, i: int)
    requires
        a.len() == b.len(),
        0 <= i < a.len(),
        a[i] != b[i],
        !is_ascii_upper(a[i]) && !is_ascii_lower(a[i]),
        !is_ascii_upper(b[i]) && !is_ascii_lower(b[i]),
    ensures
        !ascii_case_eq(a, b),
{
    if fold_code(a[i]) == fold_code(b[i]) {
        assert(a[i] as u32 == b[i] as u32);
        vstd::utf8::char_u32_cast(a[i], a[i] as u32);
        vstd::utf8::char_u32_cast(b[i], b[i] as u32);
        assert(a[i] == b[i]);
    }
}

/// Relies on `unicase::UniCase::ascii` and its `PartialEq`: two ASCII-mode
/// `UniCase` wrappers are equal exactly when the wrapped strings agree byte
/// for byte after folding only ASCII `A`-`Z` to lowercase
/// (`str::eq_ignore_ascii_case`). For valid UTF-8 that coincides with the
/// character-for-character [`ascii_case_eq`], because the bytes of a
/// multi-byte character never fall in the ASCII letter range.
#[verifier::external_body]
pub(crate) fn unicase_ascii_eq(a: &str, b: &str) -> (r: bool)
    ensures
        r == ascii_case_eq(a@, b@),
{
    unicase::UniCase::ascii(a) == unicase::UniCase::ascii(b)
}

/// Relies on `String::push`: appends the given character to the end of the
/// string.
#[verifier::external_body]
pub(crate) fn push_char(s: &mut String, c: char)
    ensures
        final(s)@ == old(s)@.push(c),
{
    s.push(c);
}

/// The character mapping that turns a markup name into a constant
/// identifier: `-` becomes `_`, ASCII lowercase letters are uppercased,
/// everything else is kept.
pub open spec fn ident_char(c: char) -> char {
    if c == '-' {
        '_'
    } else if is_ascii_lower(c) {
        (((c as u32) - 32) as u8) as char
    } else {
        c
    }
}

/// The constant identifier derived from a markup name.
pub open spec fn ident_of(s: Seq<char>) -> Seq<char> {
    s.map_values(|c: char| ident_char(c))
}

/// Derives the constant identifier for a markup name: uppercased, with `-`
/// normalized to `_`. Deterministic in the name alone.
pub fn constant_ident(name: &str) -> (r: String)
    ensures
        r@ == ident_of(name@),
{
    let n = name.unicode_len();
    let mut out = String::new();
    let mut i: usize = 0;
    while i < n
        invariant
            i <= n,
            n == name@.len(),
            out@ == ident_of(name@).take(i as int),
        decreases n - i,
    {
        let c = name.get_char(i);
        let code: u32 = c as u32;
        let mapped: char = if code == 45 {
            '_'
        } else if 97 <= code && code <= 122 {
            ((code - 32) as u8) as char
        } else {
            c
        };
        assert(mapped == ident_char(name@[i as int]));
        push_char(&mut out, mapped);
        proof {
            assert(out@ =~= ident_of(name@).take(i + 1));
        }
        i += 1;
    }
    proof {
        assert(out@ =~= ident_of(name@));
    }
    out
}

} // verus!
