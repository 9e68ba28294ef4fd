//! Firmware-update state: which image the device runs and which of the two
//! storage slots holds it, plus the decision logic of the periodic update
//! check.
//!
//! The remote fetches, the image write, the durable save and the final
//! process exit all happen outside this module; it decides, from the fetched
//! metadata alone, whether a switch is due, and performs the switch on the
//! in-memory state.
use crate::types::FirmwareMetadata;
use vstd::prelude::*;

verus! {

/// One of the two firmware storage locations. Exactly one is active.
#[derive(Clone, Copy, Debug, PartialEq, Eq, Structural)]
pub enum Slot {
    A,
    B,
}

/// The slot a successful switch moves to: slots strictly alternate.
pub open spec fn other_slot(s: Slot) -> Slot {
    match s {
        Slot::A => Slot::B,
        Slot::B => Slot::A,
    }
}

/// Crash-persisted record of the running firmware. Mutated only by a
/// successful switch, and saved durably before the process restarts.
pub struct OtaState {
    pub current_version: String,
    pub active_slot: Slot,
}

/// Outcome of one metadata fetch, as handed in by the transport layer.
pub enum MetadataFetch {
    /// The backend answered "no content": nothing on offer.
    NoContent,
    /// The body was empty or undecodable where content was expected;
    /// treated as "no data available", not as a failure.
    Malformed,
    /// A well-formed metadata document.
    Payload(FirmwareMetadata),
}

/// Sort a raw metadata response into what it means for the update check:
/// a "no content" status is the backend saying nothing is on offer; a body
/// that is empty, or present but undecodable, counts as no data available —
/// not as a failure; only a decoded document is a payload.
pub fn classify_metadata_response(
    no_content: bool,
    body_present: bool,
    parsed: Option<FirmwareMetadata>,
) -> (r: MetadataFetch)
    ensures
        no_content ==> r == MetadataFetch::NoContent,
        !no_content && !body_present ==> r == MetadataFetch::Malformed,
        !no_content && body_present ==> match parsed {
            Some(m) => r == MetadataFetch::Payload(m),
            None => r == MetadataFetch::Malformed,
        },
{
    if no_content {
        MetadataFetch::NoContent
    } else if !body_present {
        MetadataFetch::Malformed
    } else {
        match parsed {
            Some(m) => MetadataFetch::Payload(m),
            None => MetadataFetch::Malformed,
        }
    }
}

/// What the update check concluded.
pub enum UpdateDecision {
    /// Stay on the current image; no side effects.
    UpToDate,
    /// Fetch the image this metadata describes, then switch to it.
    Install(FirmwareMetadata),
}

/// The decision the update check owes for a given state and fetch outcome:
/// install exactly when a well-formed document names a version other than
/// the running one.
pub open spec fn spec_evaluate_update(s: OtaState, fetch: MetadataFetch) -> UpdateDecision {
    match fetch {
        MetadataFetch::Payload(m) => if m.version@ != s.current_version@ {
            UpdateDecision::Install(m)
        } else {
            UpdateDecision::UpToDate
        },
        _ => UpdateDecision::UpToDate,
    }
}

/// The state after a successful switch to `version`: the new version is
/// recorded and the active slot alternates.
pub open spec fn spec_switched(s: OtaState, version: String) -> OtaState {
    OtaState { current_version: version, active_slot: other_slot(s.active_slot) }
}

impl OtaState {
    /// The state of a device that has never persisted one: its own build
    /// version, running from slot A.
    pub fn boot_default(build_version: String) -> (s: OtaState)
        ensures
            s.current_version == build_version,
            s.active_slot == Slot::A,
    {
        OtaState { current_version: build_version, active_slot: Slot::A }
    }

    /// Decide whether the fetched metadata calls for an update.
    pub fn evaluate_update(&self, fetch: MetadataFetch) -> (d: UpdateDecision)
        ensures
            d == spec_evaluate_update(*self, fetch),
    {
        match fetch {
            MetadataFetch::Payload(m) => {
                if m.version == self.current_version {
                    UpdateDecision::UpToDate
                } else {
                    UpdateDecision::Install(m)
                }
            },
            _ => UpdateDecision::UpToDate,
        }
    }

    /// Switch to a downloaded and verified image: record its version and
    /// alternate the active slot. The caller must persist the new state
    /// durably before it terminates the process.
    pub fn apply_firmware_switch(&mut self, new_version: String)
        ensures
            *final(self) == spec_switched(*old(self), new_version),
    {
        self.current_version = new_version;
        self.active_slot = match self.active_slot {
            Slot::A => Slot::B,
            Slot::B => Slot::A,
        };
    }
}

/// A fetch that names the running version changes nothing: the decision is
/// to stay put, and only an `Install` decision ever mutates state or ends
/// the process.
pub proof fn lemma_update_check_noop(s: OtaState, m: FirmwareMetadata)
    requires
        m.version@ == s.current_version@,
    ensures
        spec_evaluate_update(s, MetadataFetch::Payload(m)) == UpdateDecision::UpToDate,
{
}

/// A fetch that names a different version decides to install it, and the
/// switch then records that version and strictly alternates the slot:
/// A becomes B and B becomes A.
pub proof fn lemma_update_switch(s: OtaState, m: FirmwareMetadata)
    requires
        m.version@ != s.current_version@,
    ensures
        spec_evaluate_update(s, MetadataFetch::Payload(m)) == UpdateDecision::Install(m),
        spec_switched(s, m.version).current_version == m.version,
        spec_switched(s, m.version).active_slot == other_slot(s.active_slot),
        spec_switched(s, m.version).active_slot != s.active_slot,
{
}

} // verus!
