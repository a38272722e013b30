//! Device-identity synthesis: random identifier strings drawn from the
//! letter-and-digit alphabet. The random source is threaded in explicitly as
//! a sequence of bytes, so the shape of every identifier is provable and
//! testable; drawing the bytes themselves is the surrounding application's
//! business.

use vstd::prelude::*;

verus! {

/// The character that one draw maps to: the alphabet
/// `A..Z`, `a..z`, `0..9`, in that order.
pub open spec fn alnum_char(i: int) -> char
    recommends
        0 <= i < 62,
{
    if i < 26 {
        ((65 + i) as u8) as char
    } else if i < 52 {
        ((97 + (i - 26)) as u8) as char
    } else {
        ((48 + (i - 52)) as u8) as char
    }
}

pub open spec fn is_alnum_char(c: char) -> bool {
    ||| ('A' <= c && c <= 'Z')
    ||| ('a' <= c && c <= 'z')
    ||| ('0' <= c && c <= '9')
}

/// The string that a given entropy sequence yields: character `i` is the
/// alphabet entry selected by byte `i`, reduced modulo the alphabet size.
pub open spec fn random_string_spec(len: nat, entropy: Seq<u8>) -> Seq<char>
    recommends
        len <= entropy.len(),
{
    Seq::new(len, |i: int| alnum_char((entropy[i] % 62) as int))
}

proof fn lemma_alnum_char_in_alphabet(i: int)
    requires
        0 <= i < 62,
    ensures
        is_alnum_char(alnum_char(i)),
{
}

/// Draws a string of `len` characters from the alphabet `[A-Za-z0-9]`, one
/// character per entropy byte. Each character depends on its own byte alone;
/// the small bias of the modulo reduction is accepted by design.
pub fn generate_random_string(len: usize, entropy: &Vec<u8>) -> (r: String)
    requires
        len <= entropy@.len(),
    ensures
        r@ == random_string_spec(len as nat, entropy@),
        r@.len() == len,
        forall|i: int| 0 <= i < r@.len() ==> is_alnum_char(#[trigger] r@[i]),
{
    let mut r = String::new();
    let mut i: usize = 0;
    while i < len
        invariant
            len <= entropy@.len(),
            0 <= i <= len,
            r@ == random_string_spec(i as nat, entropy@),
        decreases len - i,
    {
        let b: u8 = entropy[i] % 62;
        let c: char = if b < 26 {
            (65 + b) as char
        } else if b < 52 {
            (97 + (b - 26)) as char
        } else {
            (48 + (b - 52)) as char
        };
        proof {
            assert(c == alnum_char(b as int));
        }
        r.push(c);
        i = i + 1;
        proof {
            assert(r@ =~= random_string_spec(i as nat, entropy@));
        }
    }
    proof {
        assert forall|i: int| 0 <= i < r@.len() implies is_alnum_char(#[trigger] r@[i]) by {
            lemma_alnum_char_in_alphabet((entropy@[i] % 62) as int);
        }
    }
    r
}

} // verus!
