//! Device configuration: identity, credential, backend address, the four
//! periods, and the persisted shadow documents.
//!
//! A device boots either from a persisted configuration file or, on first
//! boot, from environment values with defaults; reading the environment and
//! the file happens outside this crate, which receives the raw values and
//! builds the configuration from them. The identity and the credential are
//! set exactly once, by registration, and never mutated afterwards.
use crate::doc::{DocValue, DocValueV, Document, FlatDoc};
use crate::host::new_uuid_string;
use vstd::prelude::*;

verus! {

pub const DEFAULT_SAMPLE_INTERVAL_SECS: u64 = 10;

pub const DEFAULT_UPLOAD_INTERVAL_SECS: u64 = 60;

pub const DEFAULT_HEARTBEAT_INTERVAL_SECS: u64 = 30;

pub const DEFAULT_OTA_CHECK_INTERVAL_SECS: u64 = 300;

/// How often the device shadow is fetched; fixed, not configurable.
pub const SHADOW_CHECK_INTERVAL_SECS: u64 = 60;

/// The failure a call can detect locally, before any transport is touched:
/// an authenticated operation was asked for while no credential is stored.
#[derive(Clone, Copy, Debug, PartialEq, Eq, Structural)]
pub enum AgentError {
    MissingCredential,
}

/// The device's persisted configuration.
pub struct Config {
    /// Set once, at registration or from the boot environment.
    pub device_id: String,
    /// Opaque credential; required for every authenticated backend call.
    pub auth_token: Option<String>,
    pub backend_url: String,
    pub sample_interval_secs: u64,
    pub upload_interval_secs: u64,
    pub heartbeat_interval_secs: u64,
    pub ota_check_interval_secs: u64,
    pub region: Option<String>,
    pub hardware_rev: Option<String>,
    /// Backend-owned document, as last fetched.
    pub desired_shadow_state: Option<Document>,
    /// Device-owned document, as last pushed.
    pub reported_shadow_state: Option<Document>,
    /// Active fault-injection toggles, mirrored from the desired document.
    pub chaos_flags: Option<DocValue>,
}

/// A decimal digit byte.
pub open spec fn is_dec_digit(b: u8) -> bool {
    48 <= b <= 57
}

/// Whether every byte is a decimal digit.
pub open spec fn all_dec_digits(s: Seq<u8>) -> bool {
    forall|i: int| 0 <= i < s.len() ==> is_dec_digit(#[trigger] s[i])
}

/// The number a digit string denotes, most significant digit first.
pub open spec fn dec_value(s: Seq<u8>) -> int
    decreases s.len(),
{
    if s.len() == 0 {
        0
    } else {
        dec_value(s.drop_last()) * 10 + (s.last() - 48)
    }
}

/// What parsing a decimal string yields: its value when the string is
/// non-empty, all digits, and the value fits; nothing otherwise.
pub open spec fn spec_parse_u64(s: Seq<u8>) -> Option<u64> {
    if s.len() > 0 && all_dec_digits(s) && dec_value(s) <= u64::MAX {
        Some(dec_value(s) as u64)
    } else {
        None
    }
}

/// A digit string denotes a non-negative number.
proof fn lemma_dec_value_nonneg(s: Seq<u8>)
    requires
        all_dec_digits(s),
    ensures
        dec_value(s) >= 0,
    decreases s.len(),
{
    if s.len() > 0 {
        assert(all_dec_digits(s.drop_last())) by {
            assert(forall|i: int|
                0 <= i < s.len() - 1 ==> #[trigger] s.drop_last()[i] == s[i]);
        }
        lemma_dec_value_nonneg(s.drop_last());
    }
}

/// Every prefix of a digit string denotes at most what the whole string
/// denotes.
proof fn lemma_dec_value_take_le(s: Seq<u8>, i: int)
    requires
        all_dec_digits(s),
        0 <= i <= s.len(),
    ensures
        dec_value(s.take(i)) <= dec_value(s),
    decreases s.len() - i,
{
    if i == s.len() {
        assert(s.take(i) =~= s);
    } else {
        assert(s.take(i + 1).drop_last() =~= s.take(i));
        assert(s.take(i + 1).last() == s[i]);
        assert(all_dec_digits(s.take(i))) by {
            assert(forall|j: int| 0 <= j < i ==> #[trigger] s.take(i)[j] == s[j]);
        }
        lemma_dec_value_nonneg(s.take(i));
        assert(dec_value(s.take(i)) <= dec_value(s.take(i + 1)));
        lemma_dec_value_take_le(s, i + 1);
    }
}

/// Parse a decimal string: its number if it is non-empty, all digits and
/// fits in the type, nothing otherwise.
pub fn parse_u64(s: &[u8]) -> (r: Option<u64>)
    ensures
        r == spec_parse_u64(s@),
{
    let n = s.len();
    if n == 0 {
        return None;
    }
    let mut val: u64 = 0;
    let mut i: usize = 0;
    proof {
        assert(s@.take(0) =~= Seq::<u8>::empty());
    }
    while i < n
        invariant
            i <= n,
            n == s@.len(),
            0 < n,
            all_dec_digits(s@.take(i as int)),
            val == dec_value(s@.take(i as int)),
        decreases n - i,
    {
        let b = s[i];
        if b < 48 || b > 57 {
            return None;
        }
        proof {
            assert(s@.take(i as int + 1).drop_last() =~= s@.take(i as int));
            assert(s@.take(i as int + 1).last() == s@[i as int]);
            assert(all_dec_digits(s@.take(i as int + 1))) by {
                assert(forall|j: int|
                    0 <= j < i ==> #[trigger] s@.take(i as int + 1)[j] == s@.take(i as int)[j]);
            }
        }
        let d = (b - 48) as u64;
        let next = match val.checked_mul(10) {
            Some(v) => match v.checked_add(d) {
                Some(v2) => v2,
                None => {
                    proof {
                        if all_dec_digits(s@) {
                            lemma_dec_value_take_le(s@, i as int + 1);
                        }
                    }
                    return None;
                },
            },
            None => {
                proof {
                    lemma_dec_value_nonneg(s@.take(i as int));
                    if all_dec_digits(s@) {
                        lemma_dec_value_take_le(s@, i as int + 1);
                    }
                }
                return None;
            },
        };
        val = next;
        i = i + 1;
    }
    proof {
        assert(s@.take(n as int) =~= s@);
    }
    Some(val)
}

/// The number a raw environment value denotes, or the default where the
/// value is absent or does not parse.
pub fn u64_or_default(text: Option<&[u8]>, default: u64) -> (r: u64)
    ensures
        r == (match text {
            Some(b) => match spec_parse_u64(b@) {
                Some(v) => v,
                None => default,
            },
            None => default,
        }),
{
    match text {
        Some(b) => match parse_u64(b) {
            Some(v) => v,
            None => default,
        },
        None => default,
    }
}

impl Config {
    /// The configuration of a device that has no persisted file yet, built
    /// from the raw environment values. Absent values fall back to the
    /// defaults; an absent device identifier is drawn fresh. The shadow
    /// documents start absent: they are initialized by registration.
    pub fn from_boot_values(
        device_id: Option<String>,
        auth_token: Option<String>,
        backend_url: Option<String>,
        sample_text: Option<&[u8]>,
        upload_text: Option<&[u8]>,
        heartbeat_text: Option<&[u8]>,
        ota_text: Option<&[u8]>,
        region: Option<String>,
        hardware_rev: Option<String>,
    ) -> (c: Config)
        ensures
            match device_id {
                Some(id) => c.device_id == id,
                None => c.device_id@.len() == 36,
            },
            c.auth_token == auth_token,
            match backend_url {
                Some(u) => c.backend_url == u,
                None => c.backend_url@ == "http://localhost:8000"@,
            },
            c.sample_interval_secs == (match sample_text {
                Some(b) => match spec_parse_u64(b@) {
                    Some(v) => v,
                    None => DEFAULT_SAMPLE_INTERVAL_SECS,
                },
                None => DEFAULT_SAMPLE_INTERVAL_SECS,
            }),
            c.upload_interval_secs == (match upload_text {
                Some(b) => match spec_parse_u64(b@) {
                    Some(v) => v,
                    None => DEFAULT_UPLOAD_INTERVAL_SECS,
                },
                None => DEFAULT_UPLOAD_INTERVAL_SECS,
            }),
            c.heartbeat_interval_secs == (match heartbeat_text {
                Some(b) => match spec_parse_u64(b@) {
                    Some(v) => v,
                    None => DEFAULT_HEARTBEAT_INTERVAL_SECS,
                },
                None => DEFAULT_HEARTBEAT_INTERVAL_SECS,
            }),
            c.ota_check_interval_secs == (match ota_text {
                Some(b) => match spec_parse_u64(b@) {
                    Some(v) => v,
                    None => DEFAULT_OTA_CHECK_INTERVAL_SECS,
                },
                None => DEFAULT_OTA_CHECK_INTERVAL_SECS,
            }),
            c.region == region,
            c.hardware_rev == hardware_rev,
            c.desired_shadow_state is None,
            c.reported_shadow_state is None,
            c.chaos_flags is None,
    {
        let device_id = match device_id {
            Some(id) => id,
            None => new_uuid_string(),
        };
        let backend_url = match backend_url {
            Some(u) => u,
            None => "http://localhost:8000".to_owned(),
        };
        Config {
            device_id,
            auth_token,
            backend_url,
            sample_interval_secs: u64_or_default(sample_text, DEFAULT_SAMPLE_INTERVAL_SECS),
            upload_interval_secs: u64_or_default(upload_text, DEFAULT_UPLOAD_INTERVAL_SECS),
            heartbeat_interval_secs: u64_or_default(
                heartbeat_text,
                DEFAULT_HEARTBEAT_INTERVAL_SECS,
            ),
            ota_check_interval_secs: u64_or_default(ota_text, DEFAULT_OTA_CHECK_INTERVAL_SECS),
            region,
            hardware_rev,
            desired_shadow_state: None,
            reported_shadow_state: None,
            chaos_flags: None,
        }
    }

    /// Record a successful registration: the assigned identity and
    /// credential, with freshly initialized empty desired, reported and
    /// chaos documents. Nothing else changes. The caller persists the
    /// configuration immediately; registration is the only operation that
    /// ever writes these two fields.
    pub fn apply_registration(&mut self, device_id: String, auth_token: String)
        ensures
            final(self).device_id == device_id,
            final(self).auth_token == Some(auth_token),
            final(self).desired_shadow_state matches Some(d) && d@.len() == 0,
            final(self).reported_shadow_state matches Some(d) && d@.len() == 0,
            final(self).chaos_flags matches Some(v) && v@ == DocValueV::Doc(
                Seq::<(Seq<char>, crate::doc::ScalarV)>::empty(),
            ),
            final(self).backend_url == old(self).backend_url,
            final(self).sample_interval_secs == old(self).sample_interval_secs,
            final(self).upload_interval_secs == old(self).upload_interval_secs,
            final(self).heartbeat_interval_secs == old(self).heartbeat_interval_secs,
            final(self).ota_check_interval_secs == old(self).ota_check_interval_secs,
            final(self).region == old(self).region,
            final(self).hardware_rev == old(self).hardware_rev,
    {
        self.device_id = device_id;
        self.auth_token = Some(auth_token);
        self.desired_shadow_state = Some(Document::empty());
        self.reported_shadow_state = Some(Document::empty());
        self.chaos_flags = Some(DocValue::Doc(FlatDoc::empty()));
    }

    /// The stored credential, or the local failure every authenticated call
    /// reports when none is stored. No transport is touched either way.
    pub fn require_auth(&self) -> (r: Result<&String, AgentError>)
        ensures
            match r {
                Ok(t) => self.auth_token == Some(*t),
                Err(e) => self.auth_token is None && e == AgentError::MissingCredential,
            },
    {
        match &self.auth_token {
            Some(t) => Ok(t),
            None => Err(AgentError::MissingCredential),
        }
    }
}

} // verus!
