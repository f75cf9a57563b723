//! Optional device features and their negotiation.
//!
//! A device is asked for one optional feature, timestamp queries, and only
//! on an adapter that advertises it. A feature set of the GPU API is seen
//! here as the set of its flags.

use vstd::prelude::*;

verus! {

/// `wgpu::Features`: a set of optional device capabilities, kept as the bit
/// flags of the GPU API. The verifier does not look inside.
#[verifier::external_type_specification]
#[verifier::external_body]
pub struct ExFeatures(wgpu::Features);

/// The flags that are set in a feature set. Flag `64 * w + b` is bit `b` of
/// word `w` of `wgpu::Features::bits()`.
pub uninterp spec fn feature_flags(features: wgpu::Features) -> Set<nat>;

/// The flag of timestamp-query support: bit 7 of the second word.
pub open spec fn timestamp_query_flag() -> nat {
    71
}

/// The flags that a context would like its device to have.
pub open spec fn wanted_flags() -> Set<nat> {
    set![timestamp_query_flag()]
}

/// The flags to require of a device on an adapter that advertises
/// `advertised`: the wanted ones that the adapter has.
pub open spec fn negotiated_flags(advertised: Set<nat>) -> Set<nat> {
    advertised.intersect(wanted_flags())
}

/// `wgpu::Features::empty()`: the feature set with no flag set.
#[verifier::external_body]
fn no_features() -> (features: wgpu::Features)
    ensures
        feature_flags(features) == Set::<nat>::empty(),
{
    wgpu::Features::empty()
}

/// `wgpu::Features::TIMESTAMP_QUERY`: the feature set whose only flag is
/// timestamp-query support.
#[verifier::external_body]
fn timestamp_query() -> (features: wgpu::Features)
    ensures
        feature_flags(features) == set![timestamp_query_flag()],
{
    wgpu::Features::TIMESTAMP_QUERY
}

/// `wgpu::Features::contains`: whether every flag set in `wanted` is also set
/// in `features`.
#[verifier::external_body]
fn contains_all(features: wgpu::Features, wanted: wgpu::Features) -> (all: bool)
    ensures
        all == feature_flags(wanted).subset_of(feature_flags(features)),
{
    features.contains(wanted)
}

/// `|=` on `wgpu::Features`: sets in `features` every flag that is set in
/// `more` and leaves the others as they were.
#[verifier::external_body]
fn add_features(features: &mut wgpu::Features, more: wgpu::Features)
    ensures
        feature_flags(*final(features)) == feature_flags(*old(features)).union(
            feature_flags(more),
        ),
{
    *features |= more;
}

/// The features to require of a device on an adapter that advertises
/// `advertised`: timestamp-query support where the adapter has it, and
/// nothing else.
pub fn negotiate_features(advertised: wgpu::Features) -> (required: wgpu::Features)
    ensures
        feature_flags(required) == negotiated_flags(feature_flags(advertised)),
{
    let mut required = no_features();
    if contains_all(advertised, timestamp_query()) {
        add_features(&mut required, timestamp_query());
    }
    required
}

/// What is required of a device is always among what its adapter advertises.
/// Timestamp-query support is required exactly when the adapter advertises
/// it, and no other feature is ever required.
pub proof fn lemma_negotiated_flags(advertised: Set<nat>)
    ensures
        negotiated_flags(advertised).subset_of(advertised),
        negotiated_flags(advertised).contains(timestamp_query_flag()) <==> advertised.contains(
            timestamp_query_flag(),
        ),
        forall|flag: nat| #[trigger]
            negotiated_flags(advertised).contains(flag) ==> flag == timestamp_query_flag(),
        negotiated_flags(advertised) == if advertised.contains(timestamp_query_flag()) {
            set![timestamp_query_flag()]
        } else {
            Set::<nat>::empty()
        },
{
}

} // verus!
