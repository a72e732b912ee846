//! The clock, identifiers, randomness and hashing that the cluster layer draws on.
use vstd::prelude::*;
use std::collections::hash_map::DefaultHasher;
use std::hash::Hasher;
use rand::Rng;
use vstd::std_specs::hash::DefaultHasherAdditionalSpecFns;

verus! {

#[verifier::external_type_specification]
#[verifier::external_body]
#[verifier::reject_recursive_types(K)]
#[verifier::reject_recursive_types(V)]
#[verifier::reject_recursive_types(S)]
pub struct ExDashMap<K, V, S>(dashmap::DashMap<K, V, S>);

/// The current time as milliseconds since the Unix epoch
/// (`chrono::Utc::now().timestamp_millis()`). The clock decides the value, so
/// nothing is stated of it.
#[verifier::external_body]
pub(crate) fn now_millis() -> i64 {
    chrono::Utc::now().timestamp_millis()
}

/// A fresh random identifier (`uuid::Uuid::new_v4()` in its hyphenated text form,
/// which is 36 characters long).
#[verifier::external_body]
pub(crate) fn new_uuid() -> (r: String)
    ensures
        r@.len() == 36,
{
    uuid::Uuid::new_v4().to_string()
}

/// A random number below `n` (`rand::Rng::gen_range(0..n)` on the thread's
/// generator, which panics on an empty range).
#[verifier::external_body]
pub(crate) fn random_below(n: usize) -> (r: usize)
    requires
        n > 0,
    ensures
        r < n,
{
    rand::thread_rng().gen_range(0..n)
}

/// A random number below `n` (`rand::Rng::gen_range(0..n)` on the thread's
/// generator, which panics on an empty range).
#[verifier::external_body]
pub(crate) fn random_below_u128(n: u128) -> (r: u128)
    requires
        n > 0,
    ensures
        r < n,
{
    rand::thread_rng().gen_range(0..n)
}

/// The byte that std's `Hash` for `str` writes after the text.
pub open spec fn str_hash_terminator() -> Seq<u8> {
    seq![0xffu8]
}

/// The `DefaultHasher` digest of a text hashed as std hashes a `str`: its UTF-8
/// bytes followed by one `0xff` byte.
pub open spec fn text_digest(key: Seq<char>) -> u64 {
    DefaultHasher::spec_finish(seq![vstd::utf8::encode_utf8(key), str_hash_terminator()])
}

/// Hashes a text with a fresh `DefaultHasher`.
pub fn hash_text(key: &str) -> (r: u64)
    ensures
        r == text_digest(key@),
{
    let mut hasher = DefaultHasher::new();
    let bytes = key.as_bytes();
    assert(bytes@ == vstd::utf8::encode_utf8(key@));
    hasher.write(bytes);
    let terminator: [u8; 1] = [0xffu8];
    hasher.write(&terminator);
    proof {
        assert(terminator@ =~= str_hash_terminator());
        assert(hasher@ =~= seq![vstd::utf8::encode_utf8(key@), str_hash_terminator()]);
    }
    hasher.finish()
}

} // verus!
