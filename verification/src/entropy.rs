//! Random tokens that keep concurrently created scratch files apart.

use vstd::prelude::*;

verus! {

/// `rand::rngs::ThreadRng`, carried from the call that hands it out to the
/// calls that draw from it; nothing inside it is looked at.
#[verifier::external_type_specification]
#[verifier::external_body]
pub struct ExThreadRng(rand::rngs::ThreadRng);

/// `rand::thread_rng`: a handle to the calling thread's generator, which the
/// operating system seeds on first use. Nothing is claimed of the handle.
/// The call fails only where the operating system can supply no seed.
pub assume_specification[ rand::thread_rng ]() -> (rng: rand::rngs::ThreadRng)
;

/// The bytes `0-9`, `A-Z` and `a-z`.
pub open spec fn is_alphanumeric(b: u8) -> bool {
    ||| 0x30 <= b <= 0x39
    ||| 0x41 <= b <= 0x5a
    ||| 0x61 <= b <= 0x7a
}

/// `Rng::sample` with the distribution `rand::distributions::Alphanumeric`:
/// one byte drawn from the ASCII letters and digits. Which one is left open;
/// two calls may differ. The byte is found by drawing again until a draw
/// fits, which ends with probability one.
#[verifier::external_body]
fn sample_alphanumeric(rng: &mut rand::rngs::ThreadRng) -> (b: u8)
    ensures
        is_alphanumeric(b),
{
    rand::Rng::sample(rng, rand::distributions::Alphanumeric)
}

/// Number of characters in a token.
pub const TOKEN_LEN: usize = 7;

/// The characters `0-9`, `A-Z` and `a-z`.
pub open spec fn is_alphanumeric_char(c: char) -> bool {
    c as int <= 0x7a && is_alphanumeric(c as u8)
}

/// A token: `TOKEN_LEN` ASCII letters and digits.
pub open spec fn is_token(t: Seq<char>) -> bool {
    &&& t.len() == TOKEN_LEN
    &&& forall|i: int| 0 <= i < t.len() ==> is_alphanumeric_char(#[trigger] t[i])
}

/// Draws a fresh token from the calling thread's generator.
pub fn random_token() -> (token: String)
    ensures
        is_token(token@),
{
    let mut rng = rand::thread_rng();
    let mut token = String::new();
    let mut i: usize = 0;
    while i < TOKEN_LEN
        invariant
            i <= TOKEN_LEN,
            token@.len() == i,
            forall|j: int| 0 <= j < token@.len() ==> is_alphanumeric_char(#[trigger] token@[j]),
        decreases TOKEN_LEN - i,
    {
        let b = sample_alphanumeric(&mut rng);
        token.push(b as char);
        i += 1;
    }
    token
}

} // verus!
