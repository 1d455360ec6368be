//! Trusted declarations of the generic content-identifier envelope.
//!
//! The generic content identifier and its multihash come from the `cid`
//! and `multihash` crates and are opaque to the verifier. Two names stand
//! for what a value of each type holds; every wrapper below states its
//! effect over those names, exactly as the crates' sources show it.

use vstd::prelude::*;

verus! {

#[verifier::external_type_specification]
#[verifier::external_body]
pub struct ExMultihash<const S: usize>(multihash::Multihash<S>);

#[verifier::external_type_specification]
#[verifier::external_body]
pub struct ExCid<const S: usize>(cid::CidGeneric<S>);

/// The hash code a multihash value carries.
pub uninterp spec fn mh_code(m: multihash::Multihash<39>) -> u64;

/// The digest bytes a multihash value carries.
pub uninterp spec fn mh_digest(m: multihash::Multihash<39>) -> Seq<u8>;

/// The codec tag a content identifier carries.
pub uninterp spec fn cid_codec(c: cid::CidGeneric<39>) -> u64;

/// The hash code of the multihash a content identifier carries.
pub uninterp spec fn cid_mh_code(c: cid::CidGeneric<39>) -> u64;

/// The digest bytes of the multihash a content identifier carries.
pub uninterp spec fn cid_mh_digest(c: cid::CidGeneric<39>) -> Seq<u8>;

/// Relies on multihash::Multihash::wrap: a digest no longer than the
/// allocated size is stored verbatim together with the given code.
#[verifier::external_body]
pub fn wrap_multihash(code: u64, digest: &[u8]) -> (m: multihash::Multihash<39>)
    requires
        digest@.len() <= 39,
    ensures
        mh_code(m) == code,
        mh_digest(m) == digest@,
{
    multihash::Multihash::wrap(code, digest).unwrap()
}

/// Relies on multihash::Multihash::code: returns the stored hash code.
#[verifier::external_body]
pub fn multihash_code(m: &multihash::Multihash<39>) -> (r: u64)
    ensures
        r == mh_code(*m),
{
    m.code()
}

/// Relies on multihash::Multihash::digest: returns the stored digest bytes.
#[verifier::external_body]
pub fn multihash_digest(m: &multihash::Multihash<39>) -> (r: Vec<u8>)
    ensures
        r@ == mh_digest(*m),
{
    m.digest().to_vec()
}

/// Relies on cid::CidGeneric::new_v1: builds a version-1 identifier that
/// stores the given codec tag and multihash.
#[verifier::external_body]
pub fn cid_new_v1(codec: u64, hash: multihash::Multihash<39>) -> (c: cid::CidGeneric<39>)
    ensures
        cid_codec(c) == codec,
        cid_mh_code(c) == mh_code(hash),
        cid_mh_digest(c) == mh_digest(hash),
{
    cid::CidGeneric::new_v1(codec, hash)
}

/// Relies on cid::CidGeneric::codec: returns the stored codec tag.
#[verifier::external_body]
pub fn get_codec(c: &cid::CidGeneric<39>) -> (r: u64)
    ensures
        r == cid_codec(*c),
{
    c.codec()
}

/// Relies on cid::CidGeneric::hash: returns the stored multihash.
#[verifier::external_body]
pub fn get_hash<'a>(c: &'a cid::CidGeneric<39>) -> (m: &'a multihash::Multihash<39>)
    ensures
        mh_code(*m) == cid_mh_code(*c),
        mh_digest(*m) == cid_mh_digest(*c),
{
    c.hash()
}

} // verus!
