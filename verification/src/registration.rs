use vstd::prelude::*;
use crate::bytes_util::{bytes_equal, clone_bytes};
use crate::codec::{enc_u64_fixed, write_u64_fixed};
use crate::crypto::{compute_mac, compute_shared_secret, mac_of, shared_secret_of};
use crate::error::Error;
use crate::gateway::WireguardGatewayData;
use crate::request::{generate_random, IpAddr, IpAddrView};

verus! {

/// Number of bytes of a peer's public key.
pub const PEER_KEY_LEN: usize = 32;

/// Seconds during which a `(peer key, nonce)` pair stays burned: presenting
/// it again within this window is a replay.
pub const NONCE_VALIDITY_WINDOW: u64 = 300;

/// Transcript label of the tag the gateway sends.
pub const GATEWAY_MAC_LABEL: u8 = 1;

/// Transcript label of the tag the peer sends back.
pub const CLIENT_MAC_LABEL: u8 = 2;

/// A single-use random token preventing handshake replay.
pub type Nonce = u64;

/// A peer's public key material, validated on construction; equality and
/// hashing go over the raw bytes, which key the client registry.
#[derive(Clone, Debug, PartialEq, Eq, Hash)]
pub struct PeerPublicKey {
    pub bytes: Vec<u8>,
}

impl View for PeerPublicKey {
    type V = Seq<u8>;

    open spec fn view(&self) -> Seq<u8> {
        self.bytes@
    }
}

impl PeerPublicKey {
    pub open spec fn wf(&self) -> bool {
        self@.len() == PEER_KEY_LEN
    }

    /// Accepts exactly thirty-two raw bytes as a key; rejects any other shape.
    pub fn new(bytes: Vec<u8>) -> (r: Result<PeerPublicKey, Error>)
        ensures
            r is Ok <==> bytes@.len() == PEER_KEY_LEN,
            r is Ok ==> r->Ok_0 == (PeerPublicKey { bytes }),
            r is Err ==> r->Err_0 == Error::InvalidKey,
    {
        if bytes.len() == PEER_KEY_LEN {
            Ok(PeerPublicKey { bytes })
        } else {
            Err(Error::InvalidKey)
        }
    }
}

/// A peer's registration opener.
#[derive(Clone, Debug, PartialEq)]
pub struct InitMessage {
    pub peer_public_key: PeerPublicKey,
    pub nonce: Nonce,
}

/// A keyed message-authentication tag over handshake fields and the derived
/// shared secret; proves possession of key material without revealing it.
#[derive(Clone, Debug, PartialEq)]
pub struct ClientMac {
    pub bytes: Vec<u8>,
}

impl View for ClientMac {
    type V = Seq<u8>;

    open spec fn view(&self) -> Seq<u8> {
        self.bytes@
    }
}

/// The gateway's reply to an `InitMessage`: the echoed nonce and the
/// gateway-side tag, letting the peer authenticate the gateway.
#[derive(Clone, Debug, PartialEq)]
pub struct ClientRegistrationResponse {
    pub nonce: Nonce,
    pub gateway_mac: ClientMac,
}

/// The peer's final handshake message carrying its own tag, completing
/// mutual authentication.
#[derive(Clone, Debug, PartialEq)]
pub struct ClientMessage {
    pub peer_public_key: PeerPublicKey,
    pub mac: ClientMac,
}

/// An admitted-peer record: created on successful handshake completion,
/// overwritten with fresh timestamps on re-registration by the same key.
#[derive(Clone, Debug, PartialEq)]
pub struct GatewayClient {
    pub peer_public_key: PeerPublicKey,
    pub assigned_tunnel_ip: IpAddr,
    pub registered_at: u64,
    pub last_handshake_at: u64,
}

#[verifier::ext_equal]
pub struct GatewayClientView {
    pub peer_public_key: Seq<u8>,
    pub assigned_tunnel_ip: IpAddrView,
    pub registered_at: u64,
    pub last_handshake_at: u64,
}

impl View for GatewayClient {
    type V = GatewayClientView;

    open spec fn view(&self) -> GatewayClientView {
        GatewayClientView {
            peer_public_key: self.peer_public_key@,
            assigned_tunnel_ip: self.assigned_tunnel_ip@,
            registered_at: self.registered_at,
            last_handshake_at: self.last_handshake_at,
        }
    }
}

/// A `(peer key, nonce)` pair and when it was first presented.
#[derive(Clone, Debug)]
pub struct NonceRecord {
    pub key: PeerPublicKey,
    pub nonce: Nonce,
    pub seen_at: u64,
}

/// A handshake that has passed its opening step and awaits the peer's tag.
#[derive(Clone, Debug)]
pub struct PendingRecord {
    pub key: PeerPublicKey,
    pub nonce: Nonce,
    pub started_at: u64,
}

/// Whether the pair was presented before and is still within its window.
pub open spec fn nonce_seen(records: Seq<NonceRecord>, key: Seq<u8>, nonce: Nonce, now: u64) -> bool {
    exists|i: int|
        0 <= i < records.len() && records[i].key@ == key && records[i].nonce == nonce && now
            < records[i].seen_at + NONCE_VALIDITY_WINDOW
}

/// The nonce of the most recent pending handshake for the key, if any.
pub open spec fn find_pending(records: Seq<PendingRecord>, key: Seq<u8>) -> Option<Nonce>
    decreases records.len(),
{
    if records.len() == 0 {
        Option::None
    } else if records.last().key@ == key {
        Option::Some(records.last().nonce)
    } else {
        find_pending(records.drop_last(), key)
    }
}

/// The records whose key differs from the given one, in their order.
pub open spec fn without_key(records: Seq<PendingRecord>, key: Seq<u8>) -> Seq<PendingRecord>
    decreases records.len(),
{
    if records.len() == 0 {
        Seq::empty()
    } else {
        let rest = without_key(records.drop_last(), key);
        if records.last().key@ == key {
            rest
        } else {
            rest.push(records.last())
        }
    }
}

proof fn lemma_find_without(records: Seq<PendingRecord>, key: Seq<u8>)
    ensures
        find_pending(without_key(records, key), key) is None,
    decreases records.len(),
{
    if records.len() == 0 {
    } else {
        lemma_find_without(records.drop_last(), key);
        if records.last().key@ == key {
        } else {
            let w = without_key(records.drop_last(), key).push(records.last());
            assert(w.drop_last() =~= without_key(records.drop_last(), key));
        }
    }
}

/// The byte string both authentication tags are computed over: a direction
/// label, the peer's key, and the nonce in its fixed eight-byte form.
pub open spec fn transcript(label: u8, key: Seq<u8>, nonce: Nonce) -> Seq<u8> {
    seq![label] + key + enc_u64_fixed(nonce)
}

fn build_transcript(label: u8, key: &PeerPublicKey, nonce: Nonce) -> (r: Vec<u8>)
    ensures
        r@ == transcript(label, key@, nonce),
{
    let mut out: Vec<u8> = Vec::new();
    out.push(label);
    let mut i: usize = 0;
    while i < key.bytes.len()
        invariant
            i <= key.bytes@.len(),
            out@ == seq![label] + key.bytes@.subrange(0, i as int),
        decreases key.bytes@.len() - i,
    {
        out.push(key.bytes[i]);
        proof {
            assert(out@ =~= seq![label] + key.bytes@.subrange(0, i + 1));
        }
        i = i + 1;
    }
    proof {
        assert(key.bytes@.subrange(0, key.bytes@.len() as int) =~= key.bytes@);
    }
    write_u64_fixed(&mut out, nonce);
    proof {
        assert(out@ =~= transcript(label, key@, nonce));
    }
    out
}

fn clone_ip(ip: &IpAddr) -> (r: IpAddr)
    ensures
        r@ == ip@,
{
    match ip {
        IpAddr::V4(o) => IpAddr::V4(clone_bytes(o)),
        IpAddr::V6(o) => IpAddr::V6(clone_bytes(o)),
    }
}

/// Draws a fresh random single-use token for a registration opener.
pub fn issue_nonce() -> Nonce {
    generate_random()
}

/// The gateway side of the three-message mutual-authentication state
/// machine: it burns nonces against replay, tracks handshakes awaiting the
/// peer's tag, and admits peers into the registry on success. Only the final
/// step mutates shared state; the earlier steps are pure validation.
pub struct RegistrationHandshake {
    pub nonces: Vec<NonceRecord>,
    pub pending: Vec<PendingRecord>,
}

impl RegistrationHandshake {
    pub fn new() -> (r: RegistrationHandshake)
        ensures
            r.nonces@.len() == 0,
            r.pending@.len() == 0,
    {
        RegistrationHandshake { nonces: Vec::new(), pending: Vec::new() }
    }

    fn nonce_is_seen(&self, key: &PeerPublicKey, nonce: Nonce, now: u64) -> (r: bool)
        ensures
            r == nonce_seen(self.nonces@, key@, nonce, now),
    {
        let mut i: usize = 0;
        while i < self.nonces.len()
            invariant
                i <= self.nonces@.len(),
                forall|k: int|
                    0 <= k < i ==> !(self.nonces@[k].key@ == key@ && self.nonces@[k].nonce == nonce
                        && now < self.nonces@[k].seen_at + NONCE_VALIDITY_WINDOW),
            decreases self.nonces@.len() - i,
        {
            let rec = &self.nonces[i];
            if bytes_equal(&rec.key.bytes, &key.bytes) && rec.nonce == nonce && (rec.seen_at > now
                || now - rec.seen_at < NONCE_VALIDITY_WINDOW) {
                return true;
            }
            i = i + 1;
        }
        false
    }

    fn lookup_pending(&self, key: &PeerPublicKey) -> (r: Option<Nonce>)
        ensures
            r == find_pending(self.pending@, key@),
    {
        let mut j: usize = self.pending.len();
        proof {
            assert(self.pending@.subrange(0, j as int) =~= self.pending@);
        }
        while j > 0
            invariant
                j <= self.pending@.len(),
                find_pending(self.pending@, key@) == find_pending(
                    self.pending@.subrange(0, j as int),
                    key@,
                ),
            decreases j,
        {
            let rec = &self.pending[j - 1];
            proof {
                assert(self.pending@.subrange(0, j as int).last() == self.pending@[j - 1]);
                assert(self.pending@.subrange(0, j as int).drop_last() =~= self.pending@.subrange(
                    0,
                    j - 1,
                ));
            }
            if bytes_equal(&rec.key.bytes, &key.bytes) {
                return Some(rec.nonce);
            }
            j = j - 1;
        }
        None
    }

    fn remove_pending(&mut self, key: &PeerPublicKey)
        ensures
            final(self).pending@ == without_key(old(self).pending@, key@),
            final(self).nonces@ == old(self).nonces@,
    {
        let mut taken: Vec<PendingRecord> = Vec::new();
        core::mem::swap(&mut self.pending, &mut taken);
        let ghost orig = taken@;
        let mut kept: Vec<PendingRecord> = Vec::new();
        while taken.len() > 0
            invariant
                taken@.len() <= orig.len(),
                taken@ == orig.subrange(
                    orig.len() - taken@.len(),
                    orig.len() as int,
                ),
                self.pending@.len() == 0,
                self.nonces@ == old(self).nonces@,
                kept@ == without_key(orig.subrange(0, orig.len() - taken@.len()), key@),
            decreases taken@.len(),
        {
            let ghost k = orig.len() - taken@.len();
            proof {
                assert(orig.subrange(k, orig.len() as int)[0] == orig[k]);
                assert(orig.subrange(k + 1, orig.len() as int) =~= taken@.remove(0));
                assert(orig.subrange(0, k + 1).drop_last() =~= orig.subrange(0, k));
                assert(orig.subrange(0, k + 1).last() == orig[k]);
            }
            let rec = taken.remove(0);
            proof {
                assert(rec == orig[k]);
            }
            if !bytes_equal(&rec.key.bytes, &key.bytes) {
                kept.push(rec);
            }
            proof {
                assert(kept@ =~= without_key(orig.subrange(0, k + 1), key@));
            }
        }
        proof {
            assert(orig.subrange(0, orig.len() as int) =~= orig);
        }
        self.pending = kept;
    }

    /// Handshake opening: validates the key's shape, refuses a replayed
    /// nonce, burns the fresh one, notes the handshake as awaiting the
    /// peer's tag, and answers with the echoed nonce under the gateway's
    /// own tag.
    pub fn process_init(
        &mut self,
        data: &WireguardGatewayData,
        init: &InitMessage,
        now: u64,
    ) -> (r: Result<ClientRegistrationResponse, Error>)
        requires
            data.wf(),
        ensures
            r is Ok <==> (init.peer_public_key@.len() == PEER_KEY_LEN && !nonce_seen(
                old(self).nonces@,
                init.peer_public_key@,
                init.nonce,
                now,
            )),
            init.peer_public_key@.len() != PEER_KEY_LEN ==> r == Result::<
                ClientRegistrationResponse,
                Error,
            >::Err(Error::InvalidKey) && *final(self) == *old(self),
            init.peer_public_key@.len() == PEER_KEY_LEN && nonce_seen(
                old(self).nonces@,
                init.peer_public_key@,
                init.nonce,
                now,
            ) ==> r == Result::<ClientRegistrationResponse, Error>::Err(Error::ReplayDetected)
                && *final(self) == *old(self),
            r is Ok ==> r->Ok_0.nonce == init.nonce && r->Ok_0.gateway_mac@ == mac_of(
                shared_secret_of(data.keypair.private_key@, init.peer_public_key@),
                transcript(GATEWAY_MAC_LABEL, init.peer_public_key@, init.nonce),
            ),
            r is Ok ==> final(self).nonces@.len() == old(self).nonces@.len() + 1 && final(self).nonces@.subrange(0, old(self).nonces@.len() as int) == old(self).nonces@ && final(self).nonces@.last().key@ == init.peer_public_key@ && final(self).nonces@.last().nonce
                == init.nonce && final(self).nonces@.last().seen_at == now,
            r is Ok ==> final(self).pending@.len() == old(self).pending@.len() + 1 && final(self).pending@.subrange(0, old(self).pending@.len() as int) == old(self).pending@ && final(self).pending@.last().key@ == init.peer_public_key@ && final(self).pending@.last().nonce
                == init.nonce && final(self).pending@.last().started_at == now,
    {
        if init.peer_public_key.bytes.len() != PEER_KEY_LEN {
            return Err(Error::InvalidKey);
        }
        if self.nonce_is_seen(&init.peer_public_key, init.nonce, now) {
            return Err(Error::ReplayDetected);
        }
        self.nonces.push(
            NonceRecord {
                key: PeerPublicKey { bytes: clone_bytes(&init.peer_public_key.bytes) },
                nonce: init.nonce,
                seen_at: now,
            },
        );
        self.pending.push(
            PendingRecord {
                key: PeerPublicKey { bytes: clone_bytes(&init.peer_public_key.bytes) },
                nonce: init.nonce,
                started_at: now,
            },
        );
        let t = build_transcript(GATEWAY_MAC_LABEL, &init.peer_public_key, init.nonce);
        let secret = compute_shared_secret(&data.keypair.private_key, &init.peer_public_key.bytes);
        let mac = compute_mac(&secret, &t);
        Ok(ClientRegistrationResponse { nonce: init.nonce, gateway_mac: ClientMac { bytes: mac } })
    }

    /// Handshake completion: verifies the peer's tag against the one the
    /// gateway derives itself and, only on a match, admits the peer by
    /// inserting (or overwriting, with fresh timestamps) its record in the
    /// registry. On any failure the registry is untouched.
    pub fn process_client_message(
        &mut self,
        data: &mut WireguardGatewayData,
        msg: &ClientMessage,
        assigned_ip: IpAddr,
        now: u64,
    ) -> (r: Result<GatewayClient, Error>)
        requires
            old(data).wf(),
            assigned_ip.wf(),
        ensures
            r is Ok <==> (msg.peer_public_key@.len() == PEER_KEY_LEN && find_pending(
                old(self).pending@,
                msg.peer_public_key@,
            ) is Some && msg.mac@ == mac_of(
                shared_secret_of(old(data).keypair.private_key@, msg.peer_public_key@),
                transcript(
                    CLIENT_MAC_LABEL,
                    msg.peer_public_key@,
                    find_pending(old(self).pending@, msg.peer_public_key@)->0,
                ),
            )),
            msg.peer_public_key@.len() != PEER_KEY_LEN ==> r == Result::<
                GatewayClient,
                Error,
            >::Err(Error::InvalidKey),
            msg.peer_public_key@.len() == PEER_KEY_LEN && find_pending(
                old(self).pending@,
                msg.peer_public_key@,
            ) is None ==> r == Result::<GatewayClient, Error>::Err(Error::UnknownPeer),
            msg.peer_public_key@.len() == PEER_KEY_LEN && find_pending(
                old(self).pending@,
                msg.peer_public_key@,
            ) is Some && msg.mac@ != mac_of(
                shared_secret_of(old(data).keypair.private_key@, msg.peer_public_key@),
                transcript(
                    CLIENT_MAC_LABEL,
                    msg.peer_public_key@,
                    find_pending(old(self).pending@, msg.peer_public_key@)->0,
                ),
            ) ==> r == Result::<GatewayClient, Error>::Err(Error::AuthenticationFailed),
            r is Err ==> *final(self) == *old(self) && *final(data) == *old(data),
            r is Ok ==> r->Ok_0@ == (GatewayClientView {
                peer_public_key: msg.peer_public_key@,
                assigned_tunnel_ip: assigned_ip@,
                registered_at: now,
                last_handshake_at: now,
            }),
            r is Ok ==> final(data).client_registry@ == old(data).client_registry@.insert(
                msg.peer_public_key@,
                r->Ok_0@,
            ) && final(data).config == old(data).config && final(data).keypair == old(data).keypair,
            r is Ok ==> final(self).pending@ == without_key(
                old(self).pending@,
                msg.peer_public_key@,
            ) && final(self).nonces@ == old(self).nonces@,
            r is Ok ==> find_pending(final(self).pending@, msg.peer_public_key@) is None,
    {
        if msg.peer_public_key.bytes.len() != PEER_KEY_LEN {
            return Err(Error::InvalidKey);
        }
        let nonce = match self.lookup_pending(&msg.peer_public_key) {
            None => {
                return Err(Error::UnknownPeer);
            },
            Some(n) => n,
        };
        let t = build_transcript(CLIENT_MAC_LABEL, &msg.peer_public_key, nonce);
        let secret = compute_shared_secret(&data.keypair.private_key, &msg.peer_public_key.bytes);
        let expected = compute_mac(&secret, &t);
        if !bytes_equal(&msg.mac.bytes, &expected) {
            return Err(Error::AuthenticationFailed);
        }
        let client = GatewayClient {
            peer_public_key: PeerPublicKey { bytes: clone_bytes(&msg.peer_public_key.bytes) },
            assigned_tunnel_ip: assigned_ip,
            registered_at: now,
            last_handshake_at: now,
        };
        let stored = GatewayClient {
            peer_public_key: PeerPublicKey { bytes: clone_bytes(&client.peer_public_key.bytes) },
            assigned_tunnel_ip: clone_ip(&client.assigned_tunnel_ip),
            registered_at: client.registered_at,
            last_handshake_at: client.last_handshake_at,
        };
        let key_for_map = PeerPublicKey { bytes: clone_bytes(&msg.peer_public_key.bytes) };
        data.register_client(key_for_map, stored);
        self.remove_pending(&msg.peer_public_key);
        proof {
            lemma_find_without(old(self).pending@, msg.peer_public_key@);
        }
        Ok(client)
    }
}

/// Replay rejection: once a pair is recorded, presenting the same nonce for
/// the same key within the validity window is seen as a replay, while a
/// different nonce for that key stays as fresh as it was before.
pub proof fn lemma_replay_rejection(
    records: Seq<NonceRecord>,
    rec: NonceRecord,
    later: u64,
    other_nonce: Nonce,
)
    requires
        later < rec.seen_at + NONCE_VALIDITY_WINDOW,
        other_nonce != rec.nonce,
        !nonce_seen(records, rec.key@, other_nonce, later),
    ensures
        nonce_seen(records.push(rec), rec.key@, rec.nonce, later),
        !nonce_seen(records.push(rec), rec.key@, other_nonce, later),
{
    let s = records.push(rec);
    assert(s[records.len() as int] == rec);
    assert(!nonce_seen(s, rec.key@, other_nonce, later)) by {
        if nonce_seen(s, rec.key@, other_nonce, later) {
            let i = choose|i: int|
                0 <= i < s.len() && s[i].key@ == rec.key@ && s[i].nonce == other_nonce && later
                    < s[i].seen_at + NONCE_VALIDITY_WINDOW;
            if i < records.len() {
                assert(records[i] == s[i]);
                assert(nonce_seen(records, rec.key@, other_nonce, later));
            } else {
                assert(s[i] == rec);
            }
            assert(false);
        }
    }
}

} // verus!
