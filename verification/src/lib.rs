//! Core types and logic of a blockchain light-client status API: hex and
//! commitment codecs, versioned header-extension decoding, a status snapshot
//! aggregator, a topic-filtered subscriber registry, and the correlated
//! request/response protocol with its error taxonomy.
pub mod commitments;
pub mod encode;
pub mod header;
pub mod hexstr;
pub mod protocol;
pub mod registry;
pub mod status;

use vstd::prelude::*;

verus! {

#[verifier::external_type_specification]
#[verifier::external_body]
pub struct ExUuid(uuid::Uuid);

} // verus!
