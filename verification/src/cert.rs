//! The certificate manager's decisions: keep or regenerate what the disk
//! yielded, when to fire the webhook, and how long the renewal daemon sleeps.

use vstd::prelude::*;
use crate::bytes::append_bytes;
use crate::identity::Identity;

verus! {

/// What to do with the identity the disk yielded: keep it, or generate and
/// persist a fresh self-signed one.
#[derive(Clone, Copy, PartialEq, Eq, Structural, Debug)]
pub enum LoadPlan {
    UseLoaded,
    Regenerate,
}

/// The view of an optional pair of path strings.
pub open spec fn view_path_pair(o: &Option<(String, String)>) -> Option<(Seq<char>, Seq<char>)> {
    match o {
        Some(p) => Some((p.0@, p.1@)),
        None => None,
    }
}

/// The view of an optional string.
pub open spec fn view_string(o: &Option<String>) -> Option<Seq<char>> {
    match o {
        Some(s) => Some(s@),
        None => None,
    }
}

/// The manager's immutable configuration: optional explicit certificate and
/// key paths (when present, the operator rotates files and no automatic
/// renewal happens), and an optional webhook URL.
pub struct CertificateManager {
    cert_key: Option<(String, String)>,
    cert_webhook: Option<String>,
}

impl CertificateManager {
    /// The configured explicit certificate and key paths.
    pub closed spec fn spec_cert_key(&self) -> Option<(Seq<char>, Seq<char>)> {
        view_path_pair(&self.cert_key)
    }

    /// The configured webhook URL.
    pub closed spec fn spec_webhook(&self) -> Option<Seq<char>> {
        view_string(&self.cert_webhook)
    }

    /// Whether explicit certificate and key paths are configured.
    pub open spec fn spec_has_explicit_paths(&self) -> bool {
        self.spec_cert_key() is Some
    }

    /// Whether a webhook URL is configured.
    pub open spec fn spec_webhook_configured(&self) -> bool {
        self.spec_webhook() is Some
    }

    /// Builds a manager from the optional explicit paths and webhook URL.
    pub fn new(cert_key: Option<(String, String)>, cert_webhook: Option<String>) -> (m: Self)
        ensures
            m.spec_cert_key() == view_path_pair(&cert_key),
            m.spec_webhook() == view_string(&cert_webhook),
    {
        CertificateManager { cert_key, cert_webhook }
    }

    /// The explicit certificate and key paths, when configured.
    pub fn explicit_paths(&self) -> (r: &Option<(String, String)>)
        ensures
            view_path_pair(r) == self.spec_cert_key(),
    {
        &self.cert_key
    }

    /// The webhook URL, when configured.
    pub fn webhook_url(&self) -> (r: &Option<String>)
        ensures
            view_string(r) == self.spec_webhook(),
    {
        &self.cert_webhook
    }

    /// Whether the manager renews automatically: only when no explicit paths
    /// are configured.
    pub fn auto_renews(&self) -> (r: bool)
        ensures
            r == !self.spec_has_explicit_paths(),
    {
        self.cert_key.is_none()
    }

    /// The load decision: an absent identity always forces regeneration;
    /// with explicit paths a loaded identity is kept unconditionally
    /// (operator-managed, no validity check); otherwise a loaded identity is
    /// kept only while still valid.
    pub open spec fn spec_load_plan(&self, loaded: Option<&Identity>, now: int) -> LoadPlan {
        match loaded {
            None => LoadPlan::Regenerate,
            Some(id) => if self.spec_has_explicit_paths() || id.spec_valid_at(now) {
                LoadPlan::UseLoaded
            } else {
                LoadPlan::Regenerate
            },
        }
    }

    /// Decides what to do with the identity the disk yielded, given the
    /// current time.
    pub fn load_plan(&self, loaded: Option<&Identity>, now: i64) -> (p: LoadPlan)
        ensures
            p == self.spec_load_plan(loaded, now as int),
    {
        match loaded {
            None => LoadPlan::Regenerate,
            Some(id) => {
                if self.cert_key.is_some() || id.is_valid_at(now) {
                    LoadPlan::UseLoaded
                } else {
                    LoadPlan::Regenerate
                }
            },
        }
    }

    /// The webhook fires after a load exactly when a fresh identity was
    /// generated and a webhook URL is configured.
    pub open spec fn spec_webhook_after_load(&self, plan: LoadPlan) -> bool {
        plan is Regenerate && self.spec_webhook_configured()
    }

    /// Whether the webhook must fire after a load that took `plan`.
    pub fn webhook_after_load(&self, plan: LoadPlan) -> (r: bool)
        ensures
            r == self.spec_webhook_after_load(plan),
    {
        match plan {
            LoadPlan::Regenerate => self.cert_webhook.is_some(),
            LoadPlan::UseLoaded => false,
        }
    }
}

/// The seconds to sleep before the next forced renewal of an identity whose
/// not-after is `not_after`: thirty seconds before expiry, floored at zero.
pub open spec fn spec_renewal_delay(not_after: int, now: int) -> int {
    if not_after - now - 30 > 0 {
        not_after - now - 30
    } else {
        0
    }
}

/// Computes the renewal sleep in seconds: `not_after - now - 30`, floored at
/// zero.
pub fn renewal_delay_secs(not_after: i64, now: i64) -> (d: u64)
    ensures
        d as int == spec_renewal_delay(not_after as int, now as int),
{
    if now >= not_after {
        return 0;
    }
    let wide: i128 = not_after as i128 - now as i128;
    let diff: u64 = wide as u64;
    if diff > 30 {
        diff - 30
    } else {
        0
    }
}

/// The daemon's wait before it renews: while the identity is valid, sleep
/// until thirty seconds before expiry; once it is not, renew at once.
pub fn renewal_wait_secs(id: &Identity, now: i64) -> (d: u64)
    ensures
        d as int == (if id.spec_valid_at(now as int) {
            spec_renewal_delay(id.spec_not_after(), now as int)
        } else {
            0
        }),
{
    if id.is_valid_at(now) {
        renewal_delay_secs(id.not_after_ts(), now)
    } else {
        0
    }
}

/// The bytes of `{"certificate_hash":"`.
pub open spec fn payload_prefix() -> Seq<u8> {
    seq![
        123u8,
        34,
        99,
        101,
        114,
        116,
        105,
        102,
        105,
        99,
        97,
        116,
        101,
        95,
        104,
        97,
        115,
        104,
        34,
        58,
        34,
    ]
}

/// The bytes of `"}`.
pub open spec fn payload_suffix() -> Seq<u8> {
    seq![34u8, 125]
}

/// The JSON body sent to the webhook: `{"certificate_hash":"`, then the
/// fingerprint, then `"}`.
pub open spec fn spec_webhook_payload(hash: Seq<u8>) -> Seq<u8> {
    payload_prefix() + hash + payload_suffix()
}

/// Builds the webhook body carrying a renewed certificate's fingerprint.
pub fn webhook_payload(hash: &Vec<u8>) -> (r: Vec<u8>)
    ensures
        r@ == spec_webhook_payload(hash@),
{
    let mut r: Vec<u8> = Vec::new();
    r.push(123);
    r.push(34);
    r.push(99);
    r.push(101);
    r.push(114);
    r.push(116);
    r.push(105);
    r.push(102);
    r.push(105);
    r.push(99);
    r.push(97);
    r.push(116);
    r.push(101);
    r.push(95);
    r.push(104);
    r.push(97);
    r.push(115);
    r.push(104);
    r.push(34);
    r.push(58);
    r.push(34);
    proof {
        assert(r@ =~= payload_prefix());
    }
    append_bytes(&mut r, hash);
    r.push(34);
    r.push(125);
    proof {
        assert(r@ =~= spec_webhook_payload(hash@));
    }
    r
}

/// Reloading the same still-valid persisted identity without explicit paths
/// keeps it both times and fires no webhook: the load decision is
/// idempotent.
pub proof fn lemma_reload_is_idempotent(m: &CertificateManager, id: &Identity, now: int)
    requires
        !m.spec_has_explicit_paths(),
        id.spec_valid_at(now),
    ensures
        m.spec_load_plan(Some(id), now) == LoadPlan::UseLoaded,
        !m.spec_webhook_after_load(m.spec_load_plan(Some(id), now)),
{
}

/// An identity whose not-after lies in the past is not valid, and without
/// explicit paths the load decision regenerates rather than keeps it.
pub proof fn lemma_expired_identity_regenerates(m: &CertificateManager, id: &Identity, now: int)
    requires
        !m.spec_has_explicit_paths(),
        id.spec_not_after() < now,
    ensures
        !id.spec_valid_at(now),
        m.spec_load_plan(Some(id), now) == LoadPlan::Regenerate,
{
}

} // verus!
