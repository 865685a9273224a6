//! Names for stored images: ten characters drawn from the alphanumeric
//! alphabet, with the `.png` extension. The randomness is the `rand`
//! crate's; everything provable of every outcome — length and shape of
//! the name — is stated and checked.

use vstd::prelude::*;

verus! {

use vstd::string::*;

/// An ASCII alphanumeric byte.
pub open spec fn is_alnum_byte(b: u8) -> bool {
    (65 <= b <= 90) || (97 <= b <= 122) || (48 <= b <= 57)
}

/// An ASCII alphanumeric character.
pub open spec fn is_alnum_char(c: char) -> bool {
    (65 <= c as int <= 90) || (97 <= c as int <= 122) || (48 <= c as int <= 57)
}

/// The shape of a generated image name: ten alphanumeric characters
/// followed by `.png`.
pub open spec fn is_image_name(s: Seq<char>) -> bool {
    &&& s.len() == 14
    &&& forall|i: int| 0 <= i < 10 ==> is_alnum_char(#[trigger] s[i])
    &&& s[10] == '.'
    &&& s[11] == 'p'
    &&& s[12] == 'n'
    &&& s[13] == 'g'
}

/// Does a string have the shape of a generated image name? The verified
/// allow-list test for callers that refuse every other name.
pub fn check_image_name(s: &str) -> (r: bool)
    ensures
        r == is_image_name(s@),
{
    let n = s.unicode_len();
    if n != 14 {
        return false;
    }
    let mut i: usize = 0;
    while i < 10
        invariant
            s@.len() == 14,
            i <= 10,
            forall|j: int| 0 <= j < i ==> is_alnum_char(#[trigger] s@[j]),
        decreases 10 - i,
    {
        let c = s.get_char(i);
        let u = c as u32;
        if !((65 <= u && u <= 90) || (97 <= u && u <= 122) || (48 <= u && u <= 57)) {
            return false;
        }
        i = i + 1;
    }
    let dot = s.get_char(10);
    let p = s.get_char(11);
    let n_ = s.get_char(12);
    let g = s.get_char(13);
    dot == '.' && p == 'p' && n_ == 'n' && g == 'g'
}

#[verifier::external_type_specification]
#[verifier::external_body]
pub struct ExThreadRng(rand::rngs::ThreadRng);

/// Relies on rand's `rng`: a handle to the thread-local generator.
#[verifier::external_body]
fn new_rng() -> rand::rngs::ThreadRng {
    rand::rng()
}

/// Relies on rand's `Alphanumeric` distribution over `u8`: whatever the
/// generator state, every sample is an ASCII alphanumeric byte.
#[verifier::external_body]
fn sample_alnum(rng: &mut rand::rngs::ThreadRng) -> (r: u8)
    ensures
        is_alnum_byte(r),
{
    rand::distr::Distribution::sample(&rand::distr::Alphanumeric, rng)
}

/// Relies on std's `String::from_utf8`: ASCII bytes convert to the
/// string of the same characters.
#[verifier::external_body]
fn ascii_to_string(bytes: Vec<u8>) -> (r: String)
    requires
        forall|i: int| 0 <= i < bytes@.len() ==> bytes@[i] < 128,
    ensures
        r@.len() == bytes@.len(),
        forall|i: int| 0 <= i < bytes@.len() ==> r@[i] == bytes@[i] as char,
{
    String::from_utf8(bytes).unwrap_or_default()
}

/// Generate a fresh image name: ten random alphanumeric characters and
/// the `.png` extension. Collisions are not checked for.
pub fn generate_filename() -> (r: String)
    ensures
        is_image_name(r@),
{
    let mut rng = new_rng();
    let mut bytes: Vec<u8> = Vec::new();
    let mut i: usize = 0;
    while i < 10
        invariant
            i <= 10,
            bytes@.len() == i,
            forall|j: int| 0 <= j < i ==> is_alnum_byte(#[trigger] bytes@[j]),
        decreases 10 - i,
    {
        let b = sample_alnum(&mut rng);
        bytes.push(b);
        i = i + 1;
    }
    bytes.push(46);  // '.'
    bytes.push(112);  // 'p'
    bytes.push(110);  // 'n'
    bytes.push(103);  // 'g'
    let r = ascii_to_string(bytes);
    proof {
        assert(forall|j: int|
            0 <= j < 10 ==> is_alnum_byte(bytes@[j]) && #[trigger] r@[j] == bytes@[j] as char);
        assert(r@[10] == 46u8 as char && r@[11] == 112u8 as char && r@[12] == 110u8 as char
            && r@[13] == 103u8 as char);
    }
    r
}

} // verus!
