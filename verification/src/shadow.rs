//! The shadow reconciliation rules: what one desired document does to the
//! device's live periods, chaos configuration and reported document.
//!
//! Two channels can change the live periods — the heartbeat response and the
//! shadow's desired document — and the last one to run wins; the desired
//! document alone governs the chaos flags. This module states the effect of
//! one desired document as a pure function of the values it meets, so that
//! the reconciler's code and its laws both speak of the same transition.
use crate::doc::{has_key, lookup, num_at, DocValueV};
use vstd::prelude::*;

verus! {

/// Key of the sampling period in shadow documents.
pub open spec fn key_sample() -> Seq<char> {
    "sample_interval_secs"@
}

/// Key of the upload period in shadow documents.
pub open spec fn key_upload() -> Seq<char> {
    "upload_interval_secs"@
}

/// Key of the heartbeat period in shadow documents.
pub open spec fn key_heartbeat() -> Seq<char> {
    "heartbeat_interval_secs"@
}

/// Key of the chaos-flag sub-document in shadow documents.
pub open spec fn key_chaos() -> Seq<char> {
    "chaos_flags"@
}

/// Key of the random-failure toggle inside the chaos sub-document.
pub open spec fn key_random_error() -> Seq<char> {
    "random_error"@
}

/// The four document keys the reconciler writes are pairwise distinct.
pub proof fn lemma_keys_distinct()
    ensures
        key_sample() != key_upload(),
        key_sample() != key_heartbeat(),
        key_sample() != key_chaos(),
        key_upload() != key_heartbeat(),
        key_upload() != key_chaos(),
        key_heartbeat() != key_chaos(),
{
    reveal_strlit("sample_interval_secs");
    reveal_strlit("upload_interval_secs");
    reveal_strlit("heartbeat_interval_secs");
    reveal_strlit("chaos_flags");
    assert(key_sample()[0] != key_upload()[0]);
    assert(key_sample().len() != key_heartbeat().len());
    assert(key_sample().len() != key_chaos().len());
    assert(key_upload().len() != key_heartbeat().len());
    assert(key_upload().len() != key_chaos().len());
    assert(key_heartbeat().len() != key_chaos().len());
}

/// What one desired document does to the live periods and the chaos
/// configuration.
pub struct ShadowEffect {
    pub sample_period: u64,
    pub upload_period: u64,
    pub heartbeat_period: u64,
    /// The new chaos configuration: the desired document's `chaos_flags`
    /// value verbatim, or nothing when the key is absent — absence clears,
    /// it is not sticky.
    pub chaos: Option<DocValueV>,
    /// Whether each period changed, and its timer was therefore discarded
    /// and re-armed. An unchanged value is a no-op.
    pub restart_sample: bool,
    pub restart_upload: bool,
    pub restart_heartbeat: bool,
}

/// The effect of a desired document on a device whose live periods are the
/// given ones: each interval key that is present and numeric and differs
/// replaces the live period; the chaos value is taken verbatim or cleared.
pub open spec fn shadow_effect(
    sample: u64,
    upload: u64,
    heartbeat: u64,
    desired: Seq<(Seq<char>, DocValueV)>,
) -> ShadowEffect {
    let new_sample = match num_at(desired, key_sample()) {
        Some(v) => v,
        None => sample,
    };
    let new_upload = match num_at(desired, key_upload()) {
        Some(v) => v,
        None => upload,
    };
    let new_heartbeat = match num_at(desired, key_heartbeat()) {
        Some(v) => v,
        None => heartbeat,
    };
    ShadowEffect {
        sample_period: new_sample,
        upload_period: new_upload,
        heartbeat_period: new_heartbeat,
        chaos: lookup(desired, key_chaos()),
        restart_sample: new_sample != sample,
        restart_upload: new_upload != upload,
        restart_heartbeat: new_heartbeat != heartbeat,
    }
}

/// Whether a chaos configuration asks for random injected failures: it is a
/// sub-document whose `random_error` entry is the flag `true`.
pub open spec fn chaos_random_error(chaos: Option<DocValueV>) -> bool {
    match chaos {
        Some(DocValueV::Doc(d)) => lookup(d, key_random_error()) == Some(
            crate::doc::ScalarV::Flag(true),
        ),
        _ => false,
    }
}

/// Law: the chaos configuration is not sticky. A desired document that
/// carries no `chaos_flags` key leaves the device with no active chaos
/// configuration, whatever was active before; one that carries the key
/// replaces the configuration with that value verbatim.
pub proof fn lemma_chaos_follows_desired(
    sample: u64,
    upload: u64,
    heartbeat: u64,
    desired: Seq<(Seq<char>, DocValueV)>,
)
    ensures
        !has_key(desired, key_chaos()) ==> shadow_effect(sample, upload, heartbeat, desired).chaos
            is None,
        shadow_effect(sample, upload, heartbeat, desired).chaos == lookup(desired, key_chaos()),
{
}

/// Law: applying the same desired document twice in a row is idempotent.
/// The second application changes no period, so no timer is discarded or
/// re-armed; the chaos configuration also stays what the first application
/// made it. (The reported document is still rebuilt and pushed on every
/// cycle, whether or not anything changed; that is part of the reconciler's
/// unconditional contract.)
pub proof fn lemma_shadow_effect_idempotent(
    sample: u64,
    upload: u64,
    heartbeat: u64,
    desired: Seq<(Seq<char>, DocValueV)>,
)
    ensures
        ({
            let first = shadow_effect(sample, upload, heartbeat, desired);
            let second = shadow_effect(
                first.sample_period,
                first.upload_period,
                first.heartbeat_period,
                desired,
            );
            &&& !second.restart_sample
            &&& !second.restart_upload
            &&& !second.restart_heartbeat
            &&& second.sample_period == first.sample_period
            &&& second.upload_period == first.upload_period
            &&& second.heartbeat_period == first.heartbeat_period
            &&& second.chaos == first.chaos
        }),
{
}

} // verus!
