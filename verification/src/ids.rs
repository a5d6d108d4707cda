//! Identifiers of game objects, taken from the `unique_id` crate.
//!
//! Nothing in this file is proved. The sequence generator counts in one
//! counter for the whole process, so nothing is claimed of the numbers it
//! hands out.

use vstd::prelude::*;
use unique_id::sequence::SequenceGenerator;
use unique_id::Generator;

verus! {

/// The sequence generator of `unique_id`.
#[verifier::external_type_specification]
#[verifier::external_body]
pub struct ExSequenceGenerator(unique_id::sequence::SequenceGenerator);

/// `SequenceGenerator::default`: a handle to the generator.
#[verifier::external_body]
pub(crate) fn new_generator() -> (generator: SequenceGenerator) {
    SequenceGenerator::default()
}

/// `SequenceGenerator::clone`: another handle to the generator.
#[verifier::external_body]
pub(crate) fn clone_generator(generator: &SequenceGenerator) -> (copy: SequenceGenerator) {
    generator.clone()
}

/// `Generator::next_id` of the sequence generator: the next number of the
/// process-wide sequence.
#[verifier::external_body]
pub(crate) fn next_id(generator: &SequenceGenerator) -> (id: i64) {
    generator.next_id()
}

} // verus!
