//! Entity identifier generation.
//!
//! Sessions and peer connections are addressed throughout by an opaque,
//! globally-unique string assigned at creation time. Uniqueness comes from
//! the generator's entropy and is not a proved fact: a collision surfaces
//! as a duplicate-identifier error at insertion, never as a silent
//! overwrite.

use vstd::prelude::*;

verus! {

/// Relies on `nanoid::format` with the crate's URL-safe 64-symbol alphabet
/// and its default length: the alphabet size is a power of two, so the
/// result holds exactly 21 characters. The result is random; nothing else
/// is promised of it.
#[verifier::external_body]
pub(crate) fn new_id() -> (id: String)
    ensures
        id@.len() == 21,
{
    nanoid::format(nanoid::rngs::default, &nanoid::alphabet::SAFE, 21)
}

} // verus!
