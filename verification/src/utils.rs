//! Random identifiers.

use vstd::prelude::*;

verus! {

/// Whether a byte is an ASCII letter or digit.
pub open spec fn is_alphanumeric(b: u8) -> bool {
    ||| 48 <= b <= 57
    ||| 65 <= b <= 90
    ||| 97 <= b <= 122
}

/// Whether a text is made of `len` ASCII letters and digits.
pub open spec fn is_token(text: Seq<char>, len: nat) -> bool {
    &&& text.len() == len
    &&& forall|i: int|
        0 <= i < text.len() ==> (#[trigger] text[i] as u32) < 128 && is_alphanumeric(
            text[i] as u8,
        )
}

/// One random ASCII letter or digit.
///
/// Trusted: wraps `rand::Rng::sample` on `rand::thread_rng()` with the
/// distribution `Alphanumeric`, which picks one of `A-Z`, `a-z` and `0-9`.
#[verifier::external_body]
fn random_alphanumeric() -> (b: u8)
    ensures
        is_alphanumeric(b),
{
    rand::Rng::sample(&mut rand::thread_rng(), rand::distributions::Alphanumeric)
}

/// A random text of `len` ASCII letters and digits.
pub fn random_str(len: usize) -> (s: String)
    ensures
        is_token(s@, len as nat),
{
    let mut s = String::new();
    let mut i: usize = 0;
    while i < len
        invariant
            i <= len,
            is_token(s@, i as nat),
        decreases len - i,
    {
        let b = random_alphanumeric();
        crate::text::push_char(&mut s, b as char);
        i += 1;
    }
    s
}

} // verus!
