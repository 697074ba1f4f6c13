use vstd::prelude::*;

verus! {

/// Location of the ToyDB API. Every outbound request goes to this one
/// statically configured address; there is no runtime configuration.
pub const TOYDB: &'static str = "http://localhost:3000/api";

/// The endpoint address as a sequence of characters, for use in contracts.
pub open spec fn endpoint() -> Seq<char> {
    TOYDB@
}

} // verus!
