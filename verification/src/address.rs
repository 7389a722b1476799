//! Mail addresses.
//!
//! A new address is a random name under a domain. The search for a name that
//! the domain does not hold yet takes a bounded number of rounds. Each round
//! is one lookup in the storage, which is the caller's part.

use vstd::prelude::*;
use rand::distributions::{Alphanumeric, DistString};
use rand::Rng;
use crate::api::CreateAddressRequest;
use crate::error::Error;

verus! {

/// What the storage needs to create an address.
#[derive(Debug, PartialEq, Eq)]
pub struct CreateAddress {
    pub address: String,
    pub description: Option<String>,
    pub enabled: bool,
    pub domain_id: i32,
    pub user_id: i32,
}

/// The address that a user's request creates under the generated name. It is
/// enabled from the start.
pub fn new_address(request: CreateAddressRequest, address: String, user_id: i32) -> (create:
    CreateAddress)
    ensures
        create.address == address,
        create.description == request.description,
        create.enabled,
        create.domain_id == request.domain_id,
        create.user_id == user_id,
{
    CreateAddress {
        address,
        description: request.description,
        enabled: true,
        domain_id: request.domain_id,
        user_id,
    }
}

/// Candidates tried before the search for an unused name gives up.
pub const MAX_ROUNDS: usize = 10;

/// The shortest generated name.
pub const MIN_LENGTH: usize = 10;

/// The longest generated name.
pub const MAX_LENGTH: usize = 18;

/// An ASCII letter or digit.
pub open spec fn is_alphanumeric(c: char) -> bool {
    ||| 'A' <= c <= 'Z'
    ||| 'a' <= c <= 'z'
    ||| '0' <= c <= '9'
}

/// What every generated name looks like.
pub open spec fn is_candidate(name: Seq<char>) -> bool {
    &&& MIN_LENGTH <= name.len() <= MAX_LENGTH
    &&& forall|i: int| 0 <= i < name.len() ==> is_alphanumeric(#[trigger] name[i])
}

/// `rand::Rng::gen_range` on the thread's generator, over an inclusive range:
/// some number of the range.
#[verifier::external_body]
fn random_between(low: usize, high: usize) -> (n: usize)
    requires
        low <= high,
    ensures
        low <= n <= high,
{
    rand::thread_rng().gen_range(low..=high)
}

/// `rand::distributions::Alphanumeric::sample_string` on the thread's
/// generator: that many ASCII letters and digits.
#[verifier::external_body]
fn random_alphanumeric(length: usize) -> (text: String)
    ensures
        text@.len() == length,
        forall|i: int| 0 <= i < text@.len() ==> is_alphanumeric(#[trigger] text@[i]),
{
    Alphanumeric.sample_string(&mut rand::thread_rng(), length)
}

/// A random name for an address.
pub fn candidate_address() -> (name: String)
    ensures
        is_candidate(name@),
{
    let length = random_between(MIN_LENGTH, MAX_LENGTH);
    random_alphanumeric(length)
}

/// What the search for an unused name does next.
#[derive(Debug, PartialEq, Eq)]
pub enum Generation {
    /// Ask the storage whether the domain holds the candidate. `round` counts
    /// the candidates so far, counting this one.
    Lookup { candidate: String, round: usize },
    /// The search is over.
    Done(Result<String, Error>),
}

/// Starts the search for a name that the domain does not hold yet.
pub fn generate_domain_address() -> (next: Generation)
    ensures
        next matches Generation::Lookup { candidate, round } && round == 1 && is_candidate(
            candidate@,
        ),
{
    Generation::Lookup { candidate: candidate_address(), round: 1 }
}

/// Goes on with the search after the lookup of a candidate. A free candidate
/// is the result. A taken one is followed by another candidate, up to the
/// limit of rounds; then the search fails. A failed lookup fails the search
/// with what the storage reported.
pub fn after_lookup(candidate: String, round: usize, lookup: Result<bool, String>) -> (next:
    Generation)
    ensures
        match lookup {
            Err(detail) => next == Generation::Done(Err(Error::DatabaseQueryFailed(detail))),
            Ok(false) => next == Generation::Done(Ok(candidate)),
            Ok(true) => if round < MAX_ROUNDS {
                next matches Generation::Lookup { candidate: another, round: following }
                    && following == round + 1 && is_candidate(another@)
            } else {
                next == Generation::Done(Err(Error::NameCollisionLimit))
            },
        },
{
    match lookup {
        Err(detail) => Generation::Done(Err(Error::DatabaseQueryFailed(detail))),
        Ok(false) => Generation::Done(Ok(candidate)),
        Ok(true) => if round < MAX_ROUNDS {
            Generation::Lookup { candidate: candidate_address(), round: round + 1 }
        } else {
            Generation::Done(Err(Error::NameCollisionLimit))
        },
    }
}

} // verus!
