use vstd::prelude::*;
use rand::rngs::ThreadRng;
use rand::Rng;

verus! {

/// Number of characters of an entity id.
pub const ENTITY_ID_LEN: usize = 30;

/// `rand::rngs::ThreadRng`, the handle to the thread-local generator.
#[verifier::external_type_specification]
#[verifier::external_body]
pub struct ExThreadRng(ThreadRng);

/// An ASCII letter or digit, as a byte.
pub open spec fn is_alphanumeric_byte(b: u8) -> bool {
    (0x41 <= b <= 0x5a) || (0x61 <= b <= 0x7a) || (0x30 <= b <= 0x39)
}

/// An ASCII letter or digit.
pub open spec fn is_alphanumeric_char(c: char) -> bool {
    ('A' <= c <= 'Z') || ('a' <= c <= 'z') || ('0' <= c <= '9')
}

/// `rand::thread_rng()`: a handle to the thread-local generator. Nothing is
/// stated of it; the call panics where the generator cannot be seeded from
/// the operating system, which no argument here decides.
#[verifier::external_body]
fn thread_rng() -> ThreadRng {
    rand::thread_rng()
}

/// `Rng::sample` with `rand::distributions::Alphanumeric`: a random byte that
/// is an ASCII letter or digit (the distribution picks from
/// `A..=Z`, `a..=z`, `0..=9`). Which byte comes out is chance, and is not
/// stated.
#[verifier::external_body]
fn sample_alphanumeric(rng: &mut ThreadRng) -> (b: u8)
    ensures
        is_alphanumeric_byte(b),
{
    rng.sample(rand::distributions::Alphanumeric)
}

/// `String::push`: appends one character.
#[verifier::external_body]
fn push_char(s: &mut String, c: char)
    ensures
        final(s)@ == old(s)@.push(c),
{
    s.push(c)
}

/// The entity id spelled by `samples`: each byte becomes the character with
/// that code, in order.
pub fn entity_id_from_samples(samples: &Vec<u8>) -> (res: String)
    ensures
        res@ == samples@.map_values(|b: u8| b as char),
{
    let mut id = String::new();
    let mut n: usize = 0;
    while n < samples.len()
        invariant
            n <= samples@.len(),
            id@ == samples@.take(n as int).map_values(|b: u8| b as char),
        decreases samples@.len() - n,
    {
        let c = samples[n] as char;
        push_char(&mut id, c);
        n = n + 1;
        assert(samples@.take(n as int) =~= samples@.take(n - 1).push(samples@[n - 1]));
        assert(id@ =~= samples@.take(n as int).map_values(|b: u8| b as char));
    }
    assert(samples@.take(n as int) =~= samples@);
    id
}

/// A fresh random entity id: thirty bytes drawn from the thread-local
/// generator, each an ASCII letter or digit, spelled out as characters.
pub fn generate_entity_id() -> (res: String)
    ensures
        res@.len() == ENTITY_ID_LEN,
        forall|i: int| 0 <= i < res@.len() ==> is_alphanumeric_char(#[trigger] res@[i]),
{
    let mut rng = thread_rng();
    let mut samples: Vec<u8> = Vec::new();
    while samples.len() < ENTITY_ID_LEN
        invariant
            samples@.len() <= ENTITY_ID_LEN,
            forall|i: int| 0 <= i < samples@.len() ==> is_alphanumeric_byte(#[trigger] samples@[i]),
        decreases ENTITY_ID_LEN - samples@.len(),
    {
        let b = sample_alphanumeric(&mut rng);
        samples.push(b);
    }
    let id = entity_id_from_samples(&samples);
    assert forall|i: int| 0 <= i < id@.len() implies is_alphanumeric_char(#[trigger] id@[i]) by {
        assert(is_alphanumeric_byte(samples@[i]));
    }
    id
}

} // verus!
