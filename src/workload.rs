use rand::distributions::Alphanumeric;
use rand::rngs::ThreadRng;
use rand::Rng;
use vstd::prelude::*;

verus! {

/// An ASCII letter, upper or lower case, or an ASCII digit.
pub open spec fn is_alphanumeric(c: char) -> bool {
    ('A' <= c && c <= 'Z') || ('a' <= c && c <= 'z') || ('0' <= c && c <= '9')
}

/// The byte form of `is_alphanumeric`.
pub open spec fn is_alphanumeric_byte(b: u8) -> bool {
    (65 <= b <= 90) || (97 <= b <= 122) || (48 <= b <= 57)
}

#[verifier::external_type_specification]
#[verifier::external_body]
pub struct ExThreadRng(ThreadRng);

/// Relies on `rand::thread_rng`: a handle on the lazily seeded generator of
/// the current thread.
#[verifier::external_body]
fn thread_generator() -> ThreadRng {
    rand::thread_rng()
}

/// Relies on `Rng::sample` with `rand::distributions::Alphanumeric`, whose
/// sampler returns a byte of its table `A-Z`, `a-z`, `0-9`.
#[verifier::external_body]
fn draw_alphanumeric(rng: &mut ThreadRng) -> (b: u8)
    ensures
        is_alphanumeric_byte(b),
{
    rng.sample(Alphanumeric)
}

/// Relies on `String::from_utf8`: ASCII bytes are valid UTF-8, one character
/// per byte.
#[verifier::external_body]
pub(crate) fn ascii_to_string(bytes: Vec<u8>) -> (s: String)
    requires
        forall|i: int| 0 <= i < bytes@.len() ==> bytes@[i] < 128,
    ensures
        s@.len() == bytes@.len(),
        forall|i: int| 0 <= i < bytes@.len() ==> s@[i] == (#[trigger] bytes@[i]) as char,
{
    String::from_utf8(bytes).unwrap()
}

/// A fresh payload of `size` characters, each drawn at random from the
/// ASCII letters and digits. No seed is fixed: two calls differ.
pub fn generate_random_string(size: usize) -> (s: String)
    ensures
        s@.len() == size,
        forall|i: int| 0 <= i < size ==> is_alphanumeric(#[trigger] s@[i]),
{
    let mut rng = thread_generator();
    let mut bytes: Vec<u8> = Vec::with_capacity(size);
    let mut i: usize = 0;
    while i < size
        invariant
            i <= size,
            bytes@.len() == i,
            forall|k: int| 0 <= k < i ==> is_alphanumeric_byte(#[trigger] bytes@[k]),
        decreases size - i,
    {
        let b = draw_alphanumeric(&mut rng);
        bytes.push(b);
        i = i + 1;
    }
    let s = ascii_to_string(bytes);
    proof {
        assert forall|i: int| 0 <= i < size implies is_alphanumeric(#[trigger] s@[i]) by {
            let b = bytes@[i];
            assert(is_alphanumeric_byte(b));
            assert(s@[i] == b as char);
        }
    }
    s
}

} // verus!
