use vstd::prelude::*;

verus! {

/// Payload of a fork/clone request: the new owner, the content id of the
/// record set to fork, and a version tag. Reserved for clone-time policy.
#[derive(Clone)]
pub struct DataStructFork {
    pub owner: String,
    pub cid: String,
    pub version: String,
}

/// A trait/value pair used to build NFT-style attribute metadata
/// (OpenSea-style attribute list entries).
pub struct OpenSeaAttributes {
    pub trait_type: String,
    pub value: String,
}

/// The pair of character sequences an attribute stands for.
pub open spec fn attr_view(a: OpenSeaAttributes) -> (Seq<char>, Seq<char>) {
    (a.trait_type@, a.value@)
}

/// The pairs a list of attributes stands for.
pub open spec fn attrs_view(l: Seq<OpenSeaAttributes>) -> Seq<(Seq<char>, Seq<char>)> {
    l.map_values(|a: OpenSeaAttributes| attr_view(a))
}

} // verus!
