//! Random nonces: short strings of ASCII letters mixed into hash preimages.

use vstd::prelude::*;
use rand::Rng;

verus! {

/// An ASCII alphabetic character.
pub open spec fn is_ascii_letter(c: char) -> bool {
    ('A' <= c && c <= 'Z') || ('a' <= c && c <= 'z')
}

/// How many ASCII letters there are, counting both cases.
pub const LETTER_COUNT: u8 = 52;

/// Relies on `rand::Rng::gen_range`: the result of sampling `0..LETTER_COUNT`
/// lies in that range. Which value comes back depends on the thread's
/// generator, so nothing more is stated.
#[verifier::external_body]
fn sample_letter_index() -> (i: u8)
    ensures
        i < LETTER_COUNT,
{
    rand::thread_rng().gen_range(0..LETTER_COUNT)
}

/// Draws one ASCII letter uniformly, both cases together.
fn random_letter() -> (c: char)
    ensures
        is_ascii_letter(c),
{
    let i = sample_letter_index();
    let b: u8 = if i < 26 {
        65 + i
    } else {
        97 + (i - 26)
    };
    b as char
}

/// Draws a fresh 4-character nonce of ASCII letters.
pub(crate) fn generate_random_chars() -> (s: String)
    ensures
        s@.len() == 4,
        forall|i: int| 0 <= i < s@.len() ==> is_ascii_letter(#[trigger] s@[i]),
{
    let mut s = String::new();
    let mut count: usize = 0;
    while count < 4
        invariant
            count <= 4,
            s@.len() == count as int,
            forall|i: int| 0 <= i < s@.len() ==> is_ascii_letter(#[trigger] s@[i]),
        decreases 4 - count,
    {
        let c = random_letter();
        s.push(c);
        count += 1;
    }
    s
}

pub assume_specification[ String::push ](s: &mut String, ch: char)
    ensures
        final(s)@ == old(s)@.push(ch),
;

} // verus!
