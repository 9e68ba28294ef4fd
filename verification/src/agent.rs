//! The agent: one state object owning the configuration, the OTA state, the
//! telemetry queue, the sampler and the schedule, with one transition per
//! periodic action.
//!
//! The surrounding program runs the loop: it asks the schedule which action
//! falls due, performs that action's outside work — the backend call, the
//! durable write — and hands the outcome to the transition here, which does
//! everything that can be decided from values alone. One transition runs at
//! a time, to completion; no state is shared beyond this object.
use crate::config::{AgentError, Config};
use crate::doc::{
    clone_doc_value, clone_document, lookup, DocValue, DocValueV, Document, FlatDoc,
};
use crate::host::draw_in_range;
use crate::ota::{spec_switched, OtaState};
use crate::queue::{drain_count, QueueRecord, TelemetryQueue};
use crate::sampler::SamplerState;
use crate::sched::{sat_add, ActionKind, Scheduler, Timer};
use crate::shadow::{
    chaos_random_error, key_chaos, key_heartbeat, key_sample, key_upload, lemma_keys_distinct,
    shadow_effect,
};
use crate::types::{
    clone_measurement, clone_opt_string, Heartbeat, IngestPayload, Measurement, RegisterPayload,
};
use vstd::prelude::*;

verus! {

/// How many records one upload drains at most.
pub const UPLOAD_BATCH_SIZE: usize = 100;

/// What the upload tick decided to do.
pub enum UploadPlan {
    /// The chaos configuration injected a simulated failure: nothing was
    /// drained, nothing is sent.
    ChaosSkip,
    /// The queue was empty: nothing to send.
    Empty,
    /// A drained batch, ready to send. On a reported send failure every
    /// measurement of it must be handed back to `settle_upload`.
    Batch(Vec<Measurement>),
}

/// The agent's whole in-memory state.
pub struct Agent {
    pub config: Config,
    pub ota: OtaState,
    pub queue: TelemetryQueue,
    pub sampler: SamplerState,
    pub sched: Scheduler,
}

/// The active chaos configuration, as specifications see it.
pub open spec fn chaos_view(c: Config) -> Option<DocValueV> {
    match c.chaos_flags {
        Some(v) => Some(v@),
        None => None,
    }
}

/// The reported document the device holds, or an empty one where none has
/// been built yet.
pub open spec fn reported_base(c: Config) -> Seq<(Seq<char>, DocValueV)> {
    match c.reported_shadow_state {
        Some(d) => d@,
        None => Seq::<(Seq<char>, DocValueV)>::empty(),
    }
}

/// The value the reported document mirrors the chaos configuration as: the
/// configuration itself, or an empty sub-document where none is active.
pub open spec fn reported_chaos_value(chaos: Option<DocValueV>) -> DocValueV {
    match chaos {
        Some(v) => v,
        None => DocValueV::Doc(Seq::<(Seq<char>, crate::doc::ScalarV)>::empty()),
    }
}

impl Agent {
    /// Well-formed: the queue's identifiers are ordered and the sampler's
    /// position is a valid coordinate.
    pub open spec fn wf(self) -> bool {
        &&& self.queue.wf()
        &&& self.sampler.wf()
    }

    /// Identity is immutable: the device identifier and the credential of
    /// one state are those of another.
    pub open spec fn same_identity(self, other: Agent) -> bool {
        &&& self.config.device_id == other.config.device_id
        &&& self.config.auth_token == other.config.auth_token
    }

    /// The agent as it starts: a fresh queue and sampler, and every timer
    /// armed one period from `now`, the configured periods for sample,
    /// upload, heartbeat and ota-check, the fixed period for shadow-check.
    pub fn boot(config: Config, ota: OtaState, now: u64) -> (a: Agent)
        ensures
            a.wf(),
            a.config == config,
            a.ota == ota,
            a.queue.records@.len() == 0,
            a.queue.next_id == 1,
            a.sampler.sequence_number == 0,
            a.sched.now == now,
            a.sched.sample.period_secs == config.sample_interval_secs,
            a.sched.upload.period_secs == config.upload_interval_secs,
            a.sched.heartbeat.period_secs == config.heartbeat_interval_secs,
            a.sched.ota_check.period_secs == config.ota_check_interval_secs,
            a.sched.shadow_check.period_secs == crate::config::SHADOW_CHECK_INTERVAL_SECS,
    {
        let sched = Scheduler::new(
            now,
            config.sample_interval_secs,
            config.upload_interval_secs,
            config.heartbeat_interval_secs,
            config.ota_check_interval_secs,
            crate::config::SHADOW_CHECK_INTERVAL_SECS,
        );
        Agent {
            config,
            ota,
            queue: TelemetryQueue::init(),
            sampler: SamplerState::new(),
            sched,
        }
    }

    /// Whether this tick simulates a failure: the chaos decision over the
    /// active configuration and one fresh draw from 0..=9, so a flagged
    /// device skips about one tick in ten. Only ever true while the active
    /// chaos configuration asks for random failures; which flagged ticks
    /// are hit is chance.
    pub fn should_inject_chaos_failure(&self) -> (r: bool)
        ensures
            r ==> chaos_random_error(chaos_view(self.config)),
    {
        let flagged = match &self.config.chaos_flags {
            Some(DocValue::Doc(d)) => match d.get_flag("random_error") {
                Some(b) => b,
                None => false,
            },
            _ => false,
        };
        proof {
            assert(flagged == chaos_random_error(chaos_view(self.config)));
        }
        chaos_decision(flagged, draw_in_range(0, 9))
    }

    /// The sample tick: take one measurement under the running firmware
    /// version and append it durably to the queue. Nothing else moves.
    pub fn sample_tick(&mut self)
        requires
            old(self).wf(),
            old(self).queue.next_id < u64::MAX,
        ensures
            final(self).wf(),
            final(self).queue.measurements().len() == old(self).queue.measurements().len() + 1,
            final(self).queue.measurements().drop_last() == old(self).queue.measurements(),
            final(self).queue.measurements().last().sequence_number == old(self).sampler.sequence_number,
            final(self).queue.measurements().last().firmware_version == Some(
                old(self).ota.current_version,
            ),
            final(self).config == old(self).config,
            final(self).ota == old(self).ota,
            final(self).sched == old(self).sched,
            old(self).same_identity(*final(self)),
    {
        let fw = self.ota.current_version.clone();
        let m = self.sampler.generate_measurement(fw);
        let _id = self.queue.append_measurement(m);
        proof {
            assert(final(self).queue.measurements().drop_last() =~= old(self).queue.measurements());
        }
    }

    /// The upload tick's first half: decide whether to send at all, and
    /// drain a batch if so. A chaos-injected failure drains nothing; an
    /// empty queue sends nothing; otherwise the oldest records, up to the
    /// batch size, leave the queue and form the batch.
    pub fn plan_upload(&mut self) -> (plan: UploadPlan)
        requires
            old(self).wf(),
        ensures
            final(self).wf(),
            final(self).config == old(self).config,
            final(self).ota == old(self).ota,
            final(self).sched == old(self).sched,
            final(self).sampler == old(self).sampler,
            final(self).queue.next_id == old(self).queue.next_id,
            old(self).same_identity(*final(self)),
            match plan {
                UploadPlan::ChaosSkip => chaos_random_error(chaos_view(old(self).config))
                    && *final(self) == *old(self),
                UploadPlan::Empty => old(self).queue.measurements().len() == 0 && *final(self)
                    == *old(self),
                UploadPlan::Batch(b) => {
                    &&& b@.len() > 0
                    &&& b@ == old(self).queue.measurements().take(
                        drain_count(old(self).queue.records@, UPLOAD_BATCH_SIZE as int),
                    )
                    &&& final(self).queue.records@ == old(self).queue.records@.skip(
                        drain_count(old(self).queue.records@, UPLOAD_BATCH_SIZE as int),
                    )
                },
            },
    {
        if self.should_inject_chaos_failure() {
            return UploadPlan::ChaosSkip;
        }
        if self.queue.len() == 0 {
            return UploadPlan::Empty;
        }
        let batch = self.queue.get_and_clear_measurements(UPLOAD_BATCH_SIZE);
        UploadPlan::Batch(batch)
    }

    /// The upload tick's second half: on a reported send failure, append
    /// every drained measurement back, in batch order, as new records at
    /// the tail; on success the batch is done with. At-least-once delivery:
    /// a measurement leaves for good only when the backend acknowledged it.
    pub fn settle_upload(&mut self, batch: Vec<Measurement>, delivered: bool)
        requires
            old(self).wf(),
            old(self).queue.next_id + batch@.len() <= u64::MAX,
        ensures
            final(self).wf(),
            final(self).config == old(self).config,
            final(self).ota == old(self).ota,
            final(self).sched == old(self).sched,
            final(self).sampler == old(self).sampler,
            old(self).same_identity(*final(self)),
            delivered ==> *final(self) == *old(self),
            !delivered ==> final(self).queue.measurements() == old(self).queue.measurements()
                + batch@,
            // Each re-appended measurement is a new record at the tail,
            // under a fresh identifier larger than every identifier the
            // queue has assigned: it keeps its content, not its place.
            !delivered ==> {
                &&& final(self).queue.records@.take(old(self).queue.records@.len() as int) == old(
                    self,
                ).queue.records@
                &&& final(self).queue.records@.len() == old(self).queue.records@.len()
                    + batch@.len()
                &&& forall|j: int|
                    0 <= j < batch@.len() ==> #[trigger] final(self).queue.records@[old(
                        self,
                    ).queue.records@.len() + j] == (QueueRecord {
                        id: (old(self).queue.next_id + j) as u64,
                        measurement: batch@[j],
                    })
                &&& final(self).queue.next_id == old(self).queue.next_id + batch@.len()
            },
    {
        if delivered {
            return ;
        }
        let ghost orig = batch@;
        let ghost base = old(self).queue.records@;
        let mut rest = batch;
        let n = rest.len();
        let mut i: usize = 0;
        proof {
            assert(orig.skip(0) =~= orig);
            assert(old(self).queue.measurements() + orig.take(0) =~= old(self).queue.measurements());
            assert(self.queue.records@.take(base.len() as int) =~= base);
        }
        while i < n
            invariant
                i <= n,
                n == orig.len(),
                rest@ == orig.skip(i as int),
                self.queue.wf(),
                self.sampler.wf(),
                self.queue.next_id == old(self).queue.next_id + i,
                old(self).queue.next_id + n <= u64::MAX,
                self.queue.measurements() == old(self).queue.measurements() + orig.take(i as int),
                self.queue.records@.len() == base.len() + i,
                self.queue.records@.take(base.len() as int) == base,
                forall|j: int|
                    0 <= j < i ==> #[trigger] self.queue.records@[base.len() + j] == (QueueRecord {
                        id: (old(self).queue.next_id + j) as u64,
                        measurement: orig[j],
                    }),
                self.config == old(self).config,
                self.ota == old(self).ota,
                self.sched == old(self).sched,
                self.sampler == old(self).sampler,
            decreases n - i,
        {
            let m = rest.remove(0);
            proof {
                assert(orig.skip(i as int).remove(0) =~= orig.skip(i as int + 1));
            }
            let _id = self.queue.append_measurement(m);
            proof {
                assert((old(self).queue.measurements() + orig.take(i as int)).push(
                    orig[i as int],
                ) =~= old(self).queue.measurements() + orig.take(i as int + 1));
                assert(self.queue.records@.take(base.len() as int) =~= base);
            }
            i = i + 1;
        }
        proof {
            assert(orig.take(n as int) =~= orig);
        }
    }

    /// The heartbeat request for the current state, or the local failure
    /// when no credential is stored. The reported intervals are the live
    /// periods at this moment, not values any response may set.
    pub fn heartbeat_body(&self) -> (r: Result<Heartbeat, AgentError>)
        ensures
            r is Ok <==> self.config.auth_token is Some,
            r matches Ok(hb) ==> {
                &&& hb.device_id == self.config.device_id
                &&& hb.firmware_version == self.ota.current_version
                &&& hb.reported_sample_interval_secs == self.sched.sample.period_secs
                &&& hb.reported_upload_interval_secs == self.sched.upload.period_secs
                &&& hb.reported_heartbeat_interval_secs == self.sched.heartbeat.period_secs
                &&& hb.region == self.config.region
                &&& hb.hardware_rev == self.config.hardware_rev
            },
            r matches Err(e) ==> e == AgentError::MissingCredential,
    {
        match &self.config.auth_token {
            None => Err(AgentError::MissingCredential),
            Some(_) => Ok(
                Heartbeat {
                    device_id: self.config.device_id.clone(),
                    firmware_version: self.ota.current_version.clone(),
                    reported_sample_interval_secs: self.sched.sample.period_secs,
                    reported_upload_interval_secs: self.sched.upload.period_secs,
                    reported_heartbeat_interval_secs: self.sched.heartbeat.period_secs,
                    region: clone_opt_string(&self.config.region),
                    hardware_rev: clone_opt_string(&self.config.hardware_rev),
                },
            ),
        }
    }

    /// Apply a heartbeat response: each desired interval that differs from
    /// the live one replaces it, discarding and re-arming that timer; an
    /// unchanged value is a no-op. The configuration — identity above all —
    /// is untouched; the desired firmware version is the update check's
    /// business, not the heartbeat's.
    pub fn apply_heartbeat_desired(&mut self, d: crate::types::DesiredState)
        ensures
            final(self).config == old(self).config,
            final(self).ota == old(self).ota,
            final(self).queue == old(self).queue,
            final(self).sampler == old(self).sampler,
            old(self).same_identity(*final(self)),
            final(self).sched.now == old(self).sched.now,
            final(self).sched.ota_check == old(self).sched.ota_check,
            final(self).sched.shadow_check == old(self).sched.shadow_check,
            final(self).sched.sample.period_secs == d.desired_sample_interval_secs,
            final(self).sched.upload.period_secs == d.desired_upload_interval_secs,
            final(self).sched.heartbeat.period_secs == d.desired_heartbeat_interval_secs,
            d.desired_sample_interval_secs != old(self).sched.sample.period_secs ==> final(self).sched.sample == (Timer {
                period_secs: d.desired_sample_interval_secs,
                next_due: sat_add(old(self).sched.now, d.desired_sample_interval_secs),
            }),
            d.desired_sample_interval_secs == old(self).sched.sample.period_secs ==> final(self).sched.sample == old(self).sched.sample,
            d.desired_upload_interval_secs != old(self).sched.upload.period_secs ==> final(self).sched.upload == (Timer {
                period_secs: d.desired_upload_interval_secs,
                next_due: sat_add(old(self).sched.now, d.desired_upload_interval_secs),
            }),
            d.desired_upload_interval_secs == old(self).sched.upload.period_secs ==> final(self).sched.upload == old(self).sched.upload,
            d.desired_heartbeat_interval_secs != old(self).sched.heartbeat.period_secs ==> final(self).sched.heartbeat == (Timer {
                period_secs: d.desired_heartbeat_interval_secs,
                next_due: sat_add(old(self).sched.now, d.desired_heartbeat_interval_secs),
            }),
            d.desired_heartbeat_interval_secs == old(self).sched.heartbeat.period_secs ==> final(self).sched.heartbeat == old(self).sched.heartbeat,
    {
        if d.desired_sample_interval_secs != self.sched.sample.period_secs {
            self.sched.reconfigure(ActionKind::Sample, d.desired_sample_interval_secs);
        }
        if d.desired_upload_interval_secs != self.sched.upload.period_secs {
            self.sched.reconfigure(ActionKind::Upload, d.desired_upload_interval_secs);
        }
        if d.desired_heartbeat_interval_secs != self.sched.heartbeat.period_secs {
            self.sched.reconfigure(ActionKind::Heartbeat, d.desired_heartbeat_interval_secs);
        }
    }

    /// The ingest request for a drained batch, or the local failure when no
    /// credential is stored. The batch itself stays with the caller, who
    /// owes it to `settle_upload` either way.
    pub fn make_ingest_payload(&self, measurements: &Vec<Measurement>) -> (r: Result<
        IngestPayload,
        AgentError,
    >)
        ensures
            r is Ok <==> self.config.auth_token is Some,
            r matches Ok(p) ==> p.device_id == self.config.device_id && p.measurements@
                == measurements@,
            r matches Err(e) ==> e == AgentError::MissingCredential,
    {
        match &self.config.auth_token {
            None => Err(AgentError::MissingCredential),
            Some(_) => {
                let n = measurements.len();
                let mut copied: Vec<Measurement> = Vec::new();
                let mut i: usize = 0;
                while i < n
                    invariant
                        i <= n,
                        n == measurements@.len(),
                        copied@.len() == i,
                        forall|j: int| 0 <= j < i ==> #[trigger] copied@[j] == measurements@[j],
                    decreases n - i,
                {
                    copied.push(clone_measurement(&measurements[i]));
                    i = i + 1;
                }
                proof {
                    assert(copied@ =~= measurements@);
                }
                Ok(IngestPayload { device_id: self.config.device_id.clone(), measurements: copied })
            },
        }
    }

    /// Apply one fetched desired document, in the reconciler's fixed order:
    /// the chaos configuration is replaced verbatim when the document
    /// carries `chaos_flags` and cleared entirely when it does not; each
    /// interval key that is present, numeric and different replaces the
    /// live period, discarding and re-arming that timer; then the reported
    /// document is refreshed — every cycle, changed or not — with the live
    /// periods and a mirror of the active chaos configuration, stored in
    /// the configuration for persisting, and returned for pushing to the
    /// backend. Identity, queue, OTA state and the other timers are
    /// untouched.
    pub fn apply_shadow_desired(&mut self, desired: Document) -> (reported: Document)
        ensures
            ({
                let eff = shadow_effect(
                    old(self).sched.sample.period_secs,
                    old(self).sched.upload.period_secs,
                    old(self).sched.heartbeat.period_secs,
                    desired@,
                );
                &&& chaos_view(final(self).config) == eff.chaos
                &&& final(self).sched.sample.period_secs == eff.sample_period
                &&& final(self).sched.upload.period_secs == eff.upload_period
                &&& final(self).sched.heartbeat.period_secs == eff.heartbeat_period
                &&& eff.restart_sample ==> final(self).sched.sample == (Timer {
                    period_secs: eff.sample_period,
                    next_due: sat_add(old(self).sched.now, eff.sample_period),
                })
                &&& !eff.restart_sample ==> final(self).sched.sample == old(self).sched.sample
                &&& eff.restart_upload ==> final(self).sched.upload == (Timer {
                    period_secs: eff.upload_period,
                    next_due: sat_add(old(self).sched.now, eff.upload_period),
                })
                &&& !eff.restart_upload ==> final(self).sched.upload == old(self).sched.upload
                &&& eff.restart_heartbeat ==> final(self).sched.heartbeat == (Timer {
                    period_secs: eff.heartbeat_period,
                    next_due: sat_add(old(self).sched.now, eff.heartbeat_period),
                })
                &&& !eff.restart_heartbeat ==> final(self).sched.heartbeat == old(
                    self,
                ).sched.heartbeat
                &&& lookup(reported@, key_sample()) == Some(DocValueV::Num(eff.sample_period))
                &&& lookup(reported@, key_upload()) == Some(DocValueV::Num(eff.upload_period))
                &&& lookup(reported@, key_heartbeat()) == Some(
                    DocValueV::Num(eff.heartbeat_period),
                )
                &&& lookup(reported@, key_chaos()) == Some(reported_chaos_value(eff.chaos))
            }),
            forall|k: Seq<char>|
                k != key_sample() && k != key_upload() && k != key_heartbeat() && k != key_chaos()
                    ==> #[trigger] lookup(reported@, k) == lookup(reported_base(old(self).config), k),
            final(self).config.reported_shadow_state matches Some(d) && d@ == reported@,
            final(self).sched.now == old(self).sched.now,
            final(self).sched.ota_check == old(self).sched.ota_check,
            final(self).sched.shadow_check == old(self).sched.shadow_check,
            final(self).config.device_id == old(self).config.device_id,
            final(self).config.auth_token == old(self).config.auth_token,
            final(self).config.backend_url == old(self).config.backend_url,
            final(self).config.region == old(self).config.region,
            final(self).config.hardware_rev == old(self).config.hardware_rev,
            final(self).config.sample_interval_secs == old(self).config.sample_interval_secs,
            final(self).config.upload_interval_secs == old(self).config.upload_interval_secs,
            final(self).config.heartbeat_interval_secs == old(self).config.heartbeat_interval_secs,
            final(self).config.ota_check_interval_secs == old(self).config.ota_check_interval_secs,
            final(self).config.desired_shadow_state == old(self).config.desired_shadow_state,
            final(self).ota == old(self).ota,
            final(self).queue == old(self).queue,
            final(self).sampler == old(self).sampler,
            old(self).same_identity(*final(self)),
    {
        proof {
            lemma_keys_distinct();
        }
        // Chaos first: present replaces verbatim, absence clears.
        match desired.get("chaos_flags") {
            Some(v) => {
                self.config.chaos_flags = Some(clone_doc_value(v));
            },
            None => {
                self.config.chaos_flags = None;
            },
        }
        // Interval keys: update the live period only where the value
        // differs; an equal value leaves the timer running.
        match desired.get_num("sample_interval_secs") {
            Some(v) => {
                if v != self.sched.sample.period_secs {
                    self.sched.reconfigure(ActionKind::Sample, v);
                }
            },
            None => {},
        }
        match desired.get_num("upload_interval_secs") {
            Some(v) => {
                if v != self.sched.upload.period_secs {
                    self.sched.reconfigure(ActionKind::Upload, v);
                }
            },
            None => {},
        }
        match desired.get_num("heartbeat_interval_secs") {
            Some(v) => {
                if v != self.sched.heartbeat.period_secs {
                    self.sched.reconfigure(ActionKind::Heartbeat, v);
                }
            },
            None => {},
        }
        // Refresh the reported document with the live values, every cycle.
        let prev = self.config.reported_shadow_state.take();
        let mut reported = match prev {
            Some(d) => d,
            None => Document::empty(),
        };
        reported.set("sample_interval_secs", DocValue::Num(self.sched.sample.period_secs));
        reported.set("upload_interval_secs", DocValue::Num(self.sched.upload.period_secs));
        reported.set(
            "heartbeat_interval_secs",
            DocValue::Num(self.sched.heartbeat.period_secs),
        );
        let chaos_mirror = match &self.config.chaos_flags {
            Some(v) => clone_doc_value(v),
            None => DocValue::Doc(FlatDoc::empty()),
        };
        reported.set("chaos_flags", chaos_mirror);
        self.config.reported_shadow_state = Some(clone_document(&reported));
        reported
    }

    /// Record a completed firmware switch: the new version, the other slot.
    /// Everything else — the identity above all — is untouched. The caller
    /// persists the OTA state durably and only then terminates the process.
    pub fn complete_firmware_switch(&mut self, new_version: String)
        ensures
            final(self).ota == spec_switched(old(self).ota, new_version),
            final(self).config == old(self).config,
            final(self).queue == old(self).queue,
            final(self).sampler == old(self).sampler,
            final(self).sched == old(self).sched,
            old(self).same_identity(*final(self)),
    {
        self.ota.apply_firmware_switch(new_version);
    }
}

/// The fault-injection rule, on the drawn value alone: a failure is
/// injected exactly when the chaos configuration flags random failures and
/// the draw from 0..=9 came up 0 — one flagged tick in ten.
pub fn chaos_decision(flagged: bool, draw: i64) -> (r: bool)
    ensures
        r == (flagged && draw == 0),
{
    flagged && draw == 0
}

/// The one-time registration request, carrying a fresh boot identifier.
pub fn make_register_payload() -> (p: RegisterPayload)
    ensures
        p.boot_id@.len() == 36,
{
    RegisterPayload { boot_id: crate::host::new_uuid_string() }
}

} // verus!
