//! Shared encoding helpers: the base64 alphabet conversion applied to the
//! host's key export, JSON string escaping, and character-level string
//! utilities.

use vstd::prelude::*;
use vstd::string::StrSliceExecFns;

verus! {

/// Relies on std's `String::push`: appends the given `char` to the end of
/// the string.
pub assume_specification[ String::push ](s: &mut String, ch: char)
    ensures
        final(s)@ == old(s)@.push(ch),
;

/// One character of the URL-safe base64 alphabet, as the host's key export
/// produces it.
pub open spec fn is_url_b64_char(c: char) -> bool {
    ||| ('A' <= c && c <= 'Z')
    ||| ('a' <= c && c <= 'z')
    ||| ('0' <= c && c <= '9')
    ||| c == '-'
    ||| c == '_'
}

/// One character of the standard base64 alphabet (padding included), as the
/// WireGuard configuration format expects it.
pub open spec fn is_std_b64_char(c: char) -> bool {
    ||| ('A' <= c && c <= 'Z')
    ||| ('a' <= c && c <= 'z')
    ||| ('0' <= c && c <= '9')
    ||| c == '+'
    ||| c == '/'
    ||| c == '='
}

pub open spec fn is_url_b64_seq(s: Seq<char>) -> bool {
    forall|i: int| 0 <= i < s.len() ==> is_url_b64_char(#[trigger] s[i])
}

pub open spec fn url_to_std_char(c: char) -> char {
    if c == '-' {
        '+'
    } else if c == '_' {
        '/'
    } else {
        c
    }
}

pub open spec fn std_to_url_char(c: char) -> char {
    if c == '+' {
        '-'
    } else if c == '/' {
        '_'
    } else {
        c
    }
}

/// What the conversion from a URL-safe unpadded base64 value to a standard
/// padded one yields: each character swapped to the standard alphabet, and a
/// single `=` appended (the host export has a fixed coordinate length, so
/// exactly one padding character is owed).
pub open spec fn std_of_url(s: Seq<char>) -> Seq<char> {
    s.map_values(|c: char| url_to_std_char(c)).push('=')
}

/// The reverse direction: a standard padded value back to URL-safe unpadded
/// form. Defined only for values with the trailing `=`.
pub open spec fn url_of_std(s: Seq<char>) -> Option<Seq<char>> {
    if s.len() > 0 && s.last() == '=' {
        Some(s.drop_last().map_values(|c: char| std_to_url_char(c)))
    } else {
        None
    }
}

/// Converts a URL-safe unpadded base64 value to the standard padded alphabet:
/// `-` becomes `+`, `_` becomes `/`, and one `=` is appended. The conversion
/// is applied unconditionally, whatever the input holds.
pub fn to_std_base64(b64url: &str) -> (r: String)
    ensures
        r@ == std_of_url(b64url@),
{
    let n: usize = b64url.unicode_len();
    let mut r = String::new();
    let mut i: usize = 0;
    while i < n
        invariant
            n == b64url@.len(),
            0 <= i <= n,
            r@ == b64url@.subrange(0, i as int).map_values(|c: char| url_to_std_char(c)),
        decreases n - i,
    {
        let c = b64url.get_char(i);
        let mapped: char = if c == '-' {
            '+'
        } else if c == '_' {
            '/'
        } else {
            c
        };
        r.push(mapped);
        i = i + 1;
        proof {
            assert(b64url@.subrange(0, i as int).map_values(|c: char| url_to_std_char(c))
                =~= b64url@.subrange(0, i - 1).map_values(|c: char| url_to_std_char(c)).push(
                mapped));
        }
    }
    proof {
        assert(b64url@.subrange(0, n as int) =~= b64url@);
    }
    r.push('=');
    r
}

/// Strips the single trailing `=` and swaps the alphabet back: the exact
/// reverse of `to_std_base64`. Returns `None` when the value does not end
/// with `=`.
pub fn to_url_base64(b64std: &str) -> (r: Option<String>)
    ensures
        match r {
            Some(t) => url_of_std(b64std@) == Some(t@),
            None => url_of_std(b64std@) is None,
        },
{
    let n: usize = b64std.unicode_len();
    if n == 0 {
        return None;
    }
    let last = b64std.get_char(n - 1);
    if last != '=' {
        return None;
    }
    let mut r = String::new();
    let mut i: usize = 0;
    while i < n - 1
        invariant
            n == b64std@.len(),
            n >= 1,
            0 <= i <= n - 1,
            r@ == b64std@.drop_last().subrange(0, i as int).map_values(
                |c: char| std_to_url_char(c),
            ),
        decreases n - 1 - i,
    {
        let c = b64std.get_char(i);
        let mapped: char = if c == '+' {
            '-'
        } else if c == '/' {
            '_'
        } else {
            c
        };
        r.push(mapped);
        i = i + 1;
        proof {
            assert(b64std@.drop_last().subrange(0, i as int).map_values(
                |c: char| std_to_url_char(c))
                =~= b64std@.drop_last().subrange(0, i - 1).map_values(
                |c: char| std_to_url_char(c)).push(mapped));
        }
    }
    proof {
        assert(b64std@.drop_last().subrange(0, n - 1) =~= b64std@.drop_last());
    }
    Some(r)
}

/// Converting a value from the host's URL-safe unpadded export to the
/// standard padded alphabet and back reproduces the original exactly.
pub proof fn lemma_base64_round_trip(s: Seq<char>)
    requires
        is_url_b64_seq(s),
    ensures
        url_of_std(std_of_url(s)) == Some(s),
{
    let t = std_of_url(s);
    assert(t.last() == '=');
    assert(t.drop_last() =~= s.map_values(|c: char| url_to_std_char(c)));
    assert(t.drop_last().map_values(|c: char| std_to_url_char(c)) =~= s);
}

/// The conversion never collapses two distinct host-export values into one
/// registered value: on URL-safe inputs it is injective.
pub proof fn lemma_std_of_url_injective(a: Seq<char>, b: Seq<char>)
    requires
        is_url_b64_seq(a),
        is_url_b64_seq(b),
        std_of_url(a) == std_of_url(b),
    ensures
        a == b,
{
    lemma_base64_round_trip(a);
    lemma_base64_round_trip(b);
}

/// Every character the conversion emits lies in the standard base64 alphabet.
pub proof fn lemma_std_of_url_alphabet(s: Seq<char>)
    requires
        is_url_b64_seq(s),
    ensures
        forall|i: int| 0 <= i < std_of_url(s).len() ==> is_std_b64_char(#[trigger] std_of_url(s)[i]),
{
}

/// Character-for-character string equality, decided without any trusted
/// comparison.
pub fn str_eq(a: &str, b: &str) -> (r: bool)
    ensures
        r == (a@ == b@),
{
    let na: usize = a.unicode_len();
    let nb: usize = b.unicode_len();
    if na != nb {
        return false;
    }
    let mut i: usize = 0;
    while i < na
        invariant
            na == a@.len(),
            nb == b@.len(),
            na == nb,
            0 <= i <= na,
            forall|j: int| 0 <= j < i ==> a@[j] == b@[j],
        decreases na - i,
    {
        let ca = a.get_char(i);
        let cb = b.get_char(i);
        if ca != cb {
            return false;
        }
        i = i + 1;
    }
    proof {
        assert(a@ =~= b@);
    }
    true
}

pub open spec fn hex_digit(d: int) -> char
    recommends
        0 <= d < 16,
{
    if d < 10 {
        ((48 + d) as u8) as char
    } else {
        ((87 + d) as u8) as char
    }
}

/// How one character is written inside a JSON string literal: quote and
/// backslash get a backslash escape, control characters a `\u00XX` escape,
/// everything else stands as it is.
pub open spec fn escape_char(c: char) -> Seq<char> {
    if c == '"' {
        seq!['\\', '"']
    } else if c == '\\' {
        seq!['\\', '\\']
    } else if (c as u32) < 32 {
        seq!['\\', 'u', '0', '0', hex_digit((c as u32 / 16) as int), hex_digit((c as u32 % 16) as int)]
    } else {
        seq![c]
    }
}

/// A whole string escaped for use inside a JSON string literal.
pub open spec fn escape_string(s: Seq<char>) -> Seq<char>
    decreases s.len(),
{
    if s.len() == 0 {
        Seq::empty()
    } else {
        escape_char(s[0]) + escape_string(s.drop_first())
    }
}

proof fn lemma_escape_string_push(s: Seq<char>, c: char)
    ensures
        escape_string(s.push(c)) == escape_string(s) + escape_char(c),
    decreases s.len(),
{
    if s.len() == 0 {
        assert(s.push(c)[0] == c);
        assert(s.push(c).drop_first() =~= Seq::<char>::empty());
        assert(escape_string(s.push(c)) == escape_char(c) + escape_string(Seq::<char>::empty()));
        assert(escape_char(c) + Seq::<char>::empty() =~= escape_char(c));
        assert(Seq::<char>::empty() + escape_char(c) =~= escape_char(c));
    } else {
        assert(s.push(c).drop_first() =~= s.drop_first().push(c));
        lemma_escape_string_push(s.drop_first(), c);
        assert(escape_char(s[0]) + (escape_string(s.drop_first()) + escape_char(c))
            =~= (escape_char(s[0]) + escape_string(s.drop_first())) + escape_char(c));
    }
}

/// Escapes a string for inclusion inside a JSON string literal.
pub fn escape_json(s: &str) -> (r: String)
    ensures
        r@ == escape_string(s@),
{
    let n: usize = s.unicode_len();
    let mut r = String::new();
    let mut i: usize = 0;
    while i < n
        invariant
            n == s@.len(),
            0 <= i <= n,
            r@ == escape_string(s@.subrange(0, i as int)),
        decreases n - i,
    {
        let c = s.get_char(i);
        if c == '"' {
            r.push('\\');
            r.push('"');
        } else if c == '\\' {
            r.push('\\');
            r.push('\\');
        } else if (c as u32) < 32 {
            r.push('\\');
            r.push('u');
            r.push('0');
            r.push('0');
            let hi: u32 = (c as u32) / 16;
            let lo: u32 = (c as u32) % 16;
            let hc: char = if hi < 10 {
                ((48 + hi) as u8) as char
            } else {
                ((87 + hi) as u8) as char
            };
            let lc: char = if lo < 10 {
                ((48 + lo) as u8) as char
            } else {
                ((87 + lo) as u8) as char
            };
            r.push(hc);
            r.push(lc);
            proof {
                assert(hc == hex_digit(hi as int));
                assert(lc == hex_digit(lo as int));
            }
        } else {
            r.push(c);
        }
        proof {
            assert(r@ =~= escape_string(s@.subrange(0, i as int)) + escape_char(s@[i as int]));
        }
        i = i + 1;
        proof {
            assert(s@.subrange(0, i as int) =~= s@.subrange(0, i - 1).push(s@[i - 1]));
            lemma_escape_string_push(s@.subrange(0, i - 1), s@[i - 1]);
        }
    }
    proof {
        assert(s@.subrange(0, n as int) =~= s@);
    }
    r
}

} // verus!
