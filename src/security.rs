//! Identity and trust: the known-peer fingerprint store, the whitelist of
//! trusted senders, and the trust-on-first-use policy for peer certificates.

use vstd::prelude::*;
use crate::keyed::KeyedVec;
use crate::text::{trim_text, trimmed};
use crate::transfer::CertificateAction;
use crate::utils::{join_path, path_join};

verus! {

/// What `blake3::hash(..).to_hex()` gives for some bytes.
pub uninterp spec fn blake3_hex(b: Seq<u8>) -> Seq<char>;

/// Relies on `blake3::hash` and `Hash::to_hex`: the lower-case hex digest of
/// the bytes, 64 characters for the 32-byte hash.
#[verifier::external_body]
fn blake3_fingerprint(der: &[u8]) -> (r: String)
    ensures
        r@ == blake3_hex(der@),
        r@.len() == 64,
{
    blake3::hash(der).to_hex().to_string()
}

/// Fingerprints of known peers, keyed by peer id.
pub struct KnownHostsStore {
    pub hosts: KeyedVec<String>,
}

/// Sender names that the user has accepted before.
pub struct WhitelistStore {
    pub trusted_senders: KeyedVec<()>,
}

/// The in-memory trust store of one node; `base_path` is its directory.
pub struct SecurityManager {
    pub base_path: String,
    pub known_hosts: KnownHostsStore,
    pub whitelist: WhitelistStore,
}

impl SecurityManager {
    pub open spec fn wf(&self) -> bool {
        self.known_hosts.hosts.wf() && self.whitelist.trusted_senders.wf()
    }

    /// The known fingerprint of each peer.
    pub open spec fn fingerprints(&self) -> Map<Seq<char>, Seq<char>> {
        self.known_hosts.hosts@.map_values(|f: String| f@)
    }

    /// The trusted sender names.
    pub open spec fn trusted(&self) -> Set<Seq<char>> {
        self.whitelist.trusted_senders@.dom()
    }

    /// An empty store kept in `base_path`.
    pub fn new(base_path: String) -> (r: Self)
        ensures
            r.wf(),
            r.base_path == base_path,
            r.fingerprints() == Map::<Seq<char>, Seq<char>>::empty(),
            r.trusted() == Set::<Seq<char>>::empty(),
    {
        let r = SecurityManager {
            base_path,
            known_hosts: KnownHostsStore { hosts: KeyedVec::new() },
            whitelist: WhitelistStore { trusted_senders: KeyedVec::new() },
        };
        assert(r.fingerprints() =~= Map::<Seq<char>, Seq<char>>::empty());
        assert(r.trusted() =~= Set::<Seq<char>>::empty());
        r
    }

    /// The fingerprint stored for `peer_id`.
    pub fn get_known_fingerprint(&self, peer_id: &str) -> (r: Option<String>)
        requires
            self.wf(),
        ensures
            r is None <==> !self.fingerprints().contains_key(peer_id@),
            r is Some ==> r->0@ == self.fingerprints()[peer_id@],
    {
        match self.known_hosts.hosts.get(peer_id) {
            Some(f) => Some(f.clone()),
            None => None,
        }
    }

    /// Stores `fingerprint` for `peer_id`; says whether the store changed,
    /// that is whether it has to be written out again.
    pub fn save_known_host(&mut self, peer_id: String, fingerprint: String) -> (changed: bool)
        requires
            old(self).wf(),
        ensures
            final(self).wf(),
            final(self).fingerprints() == old(self).fingerprints().insert(peer_id@, fingerprint@),
            changed == !(old(self).fingerprints().contains_key(peer_id@)
                && old(self).fingerprints()[peer_id@] == fingerprint@),
            final(self).trusted() == old(self).trusted(),
            final(self).base_path == old(self).base_path,
    {
        let ghost before = self.fingerprints();
        let same = match self.known_hosts.hosts.get(peer_id.as_str()) {
            Some(existing) => crate::text::text_eq(existing.as_str(), fingerprint.as_str()),
            None => false,
        };
        if same {
            assert(before =~= before.insert(peer_id@, fingerprint@));
            return false;
        }
        let ghost f = fingerprint@;
        self.known_hosts.hosts.insert(peer_id, fingerprint);
        assert(self.fingerprints() =~= before.insert(peer_id@, f));
        true
    }

    /// Whether `sender_name` is trusted.
    pub fn is_trusted(&self, sender_name: &str) -> (r: bool)
        requires
            self.wf(),
        ensures
            r == self.trusted().contains(sender_name@),
    {
        self.whitelist.trusted_senders.contains(sender_name)
    }

    /// Trusts `sender_name` from now on; says whether the whitelist changed.
    pub fn add_trust(&mut self, sender_name: String) -> (changed: bool)
        requires
            old(self).wf(),
        ensures
            final(self).wf(),
            final(self).trusted() == old(self).trusted().insert(sender_name@),
            changed == !old(self).trusted().contains(sender_name@),
            final(self).fingerprints() == old(self).fingerprints(),
            final(self).base_path == old(self).base_path,
    {
        if self.whitelist.trusted_senders.contains(sender_name.as_str()) {
            assert(self.trusted() =~= self.trusted().insert(sender_name@));
            return false;
        }
        let ghost before = self.trusted();
        let ghost s = sender_name@;
        self.whitelist.trusted_senders.insert(sender_name, ());
        assert(self.trusted() =~= before.insert(s));
        true
    }

    /// Every stored (peer id, fingerprint) pair, each once.
    pub fn host_entries(&self) -> (r: Vec<(String, String)>)
        requires
            self.wf(),
        ensures
            r@.len() == self.known_hosts.hosts.entries@.len(),
            forall|i: int| 0 <= i < r@.len() ==> {
                &&& self.fingerprints().contains_key((#[trigger] r@[i]).0@)
                &&& self.fingerprints()[r@[i].0@] == r@[i].1@
            },
            forall|k: Seq<char>| #[trigger] self.fingerprints().contains_key(k)
                ==> exists|i: int| 0 <= i < r@.len() && (#[trigger] r@[i]).0@ == k,
    {
        let n = self.known_hosts.hosts.entries.len();
        let mut out: Vec<(String, String)> = Vec::new();
        let mut i: usize = 0;
        while i < n
            invariant
                self.wf(),
                n == self.known_hosts.hosts.entries@.len(),
                i <= n,
                out@.len() == i,
                forall|j: int| 0 <= j < i ==> (#[trigger] out@[j]).0@
                    == self.known_hosts.hosts.entries@[j].0@ && out@[j].1
                    == self.known_hosts.hosts.entries@[j].1,
            decreases n - i,
        {
            let e = &self.known_hosts.hosts.entries[i];
            out.push((e.0.clone(), e.1.clone()));
            i = i + 1;
        }
        proof {
            assert forall|j: int| 0 <= j < out@.len() implies {
                &&& self.fingerprints().contains_key((#[trigger] out@[j]).0@)
                &&& self.fingerprints()[out@[j].0@] == out@[j].1@
            } by {
                self.known_hosts.hosts.lemma_entry_in_view(j);
            }
            assert forall|k: Seq<char>| #[trigger] self.fingerprints().contains_key(k)
                implies exists|j: int| 0 <= j < out@.len() && (#[trigger] out@[j]).0@ == k by {
                let a = choose|a: int| #[trigger] self.known_hosts.hosts.has_key_at(k, a);
                assert(out@[a].0@ == k);
            }
        }
        out
    }

    /// Every trusted sender name, each once.
    pub fn trusted_senders(&self) -> (r: Vec<String>)
        requires
            self.wf(),
        ensures
            forall|i: int| 0 <= i < r@.len() ==> self.trusted().contains((#[trigger] r@[i])@),
            forall|k: Seq<char>| #[trigger] self.trusted().contains(k)
                ==> exists|i: int| 0 <= i < r@.len() && (#[trigger] r@[i])@ == k,
    {
        let n = self.whitelist.trusted_senders.entries.len();
        let mut out: Vec<String> = Vec::new();
        let mut i: usize = 0;
        while i < n
            invariant
                self.wf(),
                n == self.whitelist.trusted_senders.entries@.len(),
                i <= n,
                out@.len() == i,
                forall|j: int| 0 <= j < i ==> (#[trigger] out@[j])@
                    == self.whitelist.trusted_senders.entries@[j].0@,
            decreases n - i,
        {
            out.push(self.whitelist.trusted_senders.entries[i].0.clone());
            i = i + 1;
        }
        proof {
            assert forall|j: int| 0 <= j < out@.len() implies self.trusted().contains(
                (#[trigger] out@[j])@,
            ) by {
                self.whitelist.trusted_senders.lemma_entry_in_view(j);
            }
            assert forall|k: Seq<char>| #[trigger] self.trusted().contains(k) implies exists|j: int|
                0 <= j < out@.len() && (#[trigger] out@[j])@ == k by {
                let a = choose|a: int| #[trigger] self.whitelist.trusted_senders.has_key_at(k, a);
                assert(out@[a]@ == k);
            }
        }
        out
    }
}

/// After `save_known_host(p, f)` the store holds `f` for `p`, whatever it
/// held before.
pub proof fn lemma_known_after_save(before: Map<Seq<char>, Seq<char>>, p: Seq<char>, f: Seq<char>)
    ensures
        before.insert(p, f).contains_key(p),
        before.insert(p, f)[p] == f,
{
}

/// Why a peer certificate is refused.
#[derive(Debug, Clone, Copy, PartialEq, Eq, Structural)]
pub enum TofuError {
    /// A first-seen certificate that the user rejected.
    Rejected,
    /// The certificate differs from the one stored, and was not accepted.
    FingerprintMismatch,
    /// The user could not be asked.
    CallbackFailed,
}

/// The outcome of checking a certificate with fingerprint `f` for peer `p`,
/// against `known`, with or without a callback, given the callback's answer
/// (`None` when it failed or was not asked).
pub open spec fn tofu_outcome(
    known: Map<Seq<char>, Seq<char>>,
    p: Seq<char>,
    f: Seq<char>,
    has_callback: bool,
    answer: Option<CertificateAction>,
) -> Result<(), TofuError> {
    if known.contains_key(p) && known[p] == f {
        Ok(())
    } else if !has_callback {
        if known.contains_key(p) {
            Err(TofuError::FingerprintMismatch)
        } else {
            Ok(())
        }
    } else {
        match answer {
            Some(CertificateAction::Accept) => Ok(()),
            Some(CertificateAction::Reject) => if known.contains_key(p) {
                Err(TofuError::FingerprintMismatch)
            } else {
                Err(TofuError::Rejected)
            },
            None => Err(TofuError::CallbackFailed),
        }
    }
}

/// The trust-on-first-use policy over a trust store; `has_callback` says
/// whether the user can be asked, and `filename` is shown when asking.
pub struct TofuVerifier {
    pub manager: SecurityManager,
    pub has_callback: bool,
    pub filename: Option<String>,
}

impl TofuVerifier {
    pub open spec fn wf(&self) -> bool {
        self.manager.wf()
    }

    /// A verifier that cannot ask the user.
    pub fn new(manager: SecurityManager) -> (r: Self)
        ensures
            r.manager == manager,
            !r.has_callback,
            r.filename is None,
    {
        TofuVerifier { manager, has_callback: false, filename: None }
    }

    /// A verifier that asks the user, showing `filename`.
    pub fn with_callback(manager: SecurityManager, filename: Option<String>) -> (r: Self)
        ensures
            r.manager == manager,
            r.has_callback,
            r.filename == filename,
    {
        TofuVerifier { manager, has_callback: true, filename }
    }

    /// The peer id (the server name without surrounding white space) and the
    /// fingerprint of a DER certificate.
    pub fn identify(&self, cert_der: &[u8], server_name: &str) -> (r: (String, String))
        ensures
            r.0@ == trimmed(server_name@),
            r.1@ == blake3_hex(cert_der@),
    {
        (trim_text(server_name), blake3_fingerprint(cert_der))
    }

    /// Whether the user is to be asked about fingerprint `f` for peer `p`:
    /// when a callback is there and `f` is not the fingerprint on record.
    pub fn needs_user(&self, peer_id: &str, fingerprint: &str) -> (r: bool)
        requires
            self.wf(),
        ensures
            r == (self.has_callback && !(self.manager.fingerprints().contains_key(peer_id@)
                && self.manager.fingerprints()[peer_id@] == fingerprint@)),
    {
        if !self.has_callback {
            return false;
        }
        match self.manager.get_known_fingerprint(peer_id) {
            Some(known) => !crate::text::text_eq(known.as_str(), fingerprint),
            None => true,
        }
    }

    /// Checks fingerprint `f` of peer `p` by the trust-on-first-use policy,
    /// given the user's answer when one was asked for. An accepted
    /// fingerprint is stored; `Ok(changed)` says whether the store changed.
    pub fn check_cert(
        &mut self,
        peer_id: String,
        fingerprint: String,
        answer: Option<CertificateAction>,
    ) -> (r: Result<bool, TofuError>)
        requires
            old(self).wf(),
        ensures
            final(self).wf(),
            final(self).has_callback == old(self).has_callback,
            final(self).manager.trusted() == old(self).manager.trusted(),
            r is Ok ==> r->Ok_0 == !(old(self).manager.fingerprints().contains_key(peer_id@)
                && old(self).manager.fingerprints()[peer_id@] == fingerprint@),
            match tofu_outcome(
                old(self).manager.fingerprints(),
                peer_id@,
                fingerprint@,
                old(self).has_callback,
                answer,
            ) {
                Ok(_) => r is Ok && final(self).manager.fingerprints()
                    == old(self).manager.fingerprints().insert(peer_id@, fingerprint@),
                Err(e) => r == Err::<bool, TofuError>(e) && final(self).manager.fingerprints()
                    == old(self).manager.fingerprints(),
            },
    {
        let known = self.manager.get_known_fingerprint(peer_id.as_str());
        let ghost m = self.manager.fingerprints();
        match known {
            Some(k) => {
                if crate::text::text_eq(k.as_str(), fingerprint.as_str()) {
                    assert(m =~= m.insert(peer_id@, fingerprint@));
                    return Ok(false);
                }
                if !self.has_callback {
                    return Err(TofuError::FingerprintMismatch);
                }
                match answer {
                    Some(CertificateAction::Accept) => Ok(
                        self.manager.save_known_host(peer_id, fingerprint),
                    ),
                    Some(CertificateAction::Reject) => Err(TofuError::FingerprintMismatch),
                    None => Err(TofuError::CallbackFailed),
                }
            },
            None => {
                if !self.has_callback {
                    return Ok(self.manager.save_known_host(peer_id, fingerprint));
                }
                match answer {
                    Some(CertificateAction::Accept) => Ok(
                        self.manager.save_known_host(peer_id, fingerprint),
                    ),
                    Some(CertificateAction::Reject) => Err(TofuError::Rejected),
                    None => Err(TofuError::CallbackFailed),
                }
            },
        }
    }
}

/// Where a node's identity is kept: `<storage>/security/<node>_cert.der` and
/// `<storage>/security/<node>_key.der`.
pub fn identity_paths(storage_path: &str, node_name: &str) -> (r: (String, String))
    ensures
        r.0@ == path_join(path_join(storage_path@, "security"@), node_name@ + "_cert.der"@),
        r.1@ == path_join(path_join(storage_path@, "security"@), node_name@ + "_key.der"@),
{
    let dir = join_path(storage_path, "security");
    let cert = String::from_str(node_name).concat("_cert.der");
    let key = String::from_str(node_name).concat("_key.der");
    (join_path(dir.as_str(), cert.as_str()), join_path(dir.as_str(), key.as_str()))
}

/// Where the trust store is kept: `<storage>/security/known_hosts.json` and
/// `<storage>/security/whitelist.json`.
pub fn store_paths(storage_path: &str) -> (r: (String, String))
    ensures
        r.0@ == path_join(path_join(storage_path@, "security"@), "known_hosts.json"@),
        r.1@ == path_join(path_join(storage_path@, "security"@), "whitelist.json"@),
{
    let dir = join_path(storage_path, "security");
    (join_path(dir.as_str(), "known_hosts.json"), join_path(dir.as_str(), "whitelist.json"))
}

} // verus!
