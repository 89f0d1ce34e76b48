use vstd::prelude::*;
use crate::registration::{GatewayClient, GatewayClientView, PeerPublicKey};

verus! {

#[verifier::external_type_specification]
#[verifier::external_body]
#[verifier::reject_recursive_types(K)]
#[verifier::reject_recursive_types(V)]
#[verifier::reject_recursive_types(S)]
pub struct ExDashMap<K, V, S>(dashmap::DashMap<K, V, S>);

/// What the sharded map holds: admitted-peer records, keyed by the raw bytes
/// of the peer's public key.
pub uninterp spec fn dashmap_contents(
    m: dashmap::DashMap<PeerPublicKey, GatewayClient>,
) -> Map<Seq<u8>, GatewayClientView>;

/// The model of a registry with no admitted peers.
pub open spec fn empty_registry() -> Map<Seq<u8>, GatewayClientView> {
    Map::empty()
}

/// The concurrent mapping from peer public key to admitted-peer record,
/// shared by the handshake (writer) and the packet-forwarding path (reader).
/// It is backed by the sharded map of the dashmap crate, so operations on
/// distinct keys never block one another; no operation fails, absence is an
/// ordinary `None`.
pub struct GatewayClientRegistry {
    pub inner: dashmap::DashMap<PeerPublicKey, GatewayClient>,
}

impl View for GatewayClientRegistry {
    type V = Map<Seq<u8>, GatewayClientView>;

    open spec fn view(&self) -> Map<Seq<u8>, GatewayClientView> {
        dashmap_contents(self.inner)
    }
}

impl GatewayClientRegistry {
    /// Relies on DashMap::new: a map with no entries.
    #[verifier::external_body]
    pub fn new() -> (r: GatewayClientRegistry)
        ensures
            dashmap_contents(r.inner) == empty_registry(),
    {
        GatewayClientRegistry { inner: dashmap::DashMap::new() }
    }

    /// Relies on DashMap::insert: maps the key to the new record, atomically
    /// per key, and hands back the record it overwrote. Always succeeds.
    #[verifier::external_body]
    pub fn register(&mut self, key: PeerPublicKey, client: GatewayClient) -> (prev: Option<
        GatewayClient,
    >)
        ensures
            dashmap_contents(final(self).inner) == dashmap_contents(old(self).inner).insert(
                key@,
                client@,
            ),
            prev is Some <==> dashmap_contents(old(self).inner).contains_key(key@),
            prev is Some ==> prev->0@ == dashmap_contents(old(self).inner)[key@],
    {
        self.inner.insert(key, client)
    }

    /// Relies on DashMap::get: the record the key maps to, cloned out.
    #[verifier::external_body]
    pub fn lookup(&self, key: &PeerPublicKey) -> (r: Option<GatewayClient>)
        ensures
            r is Some <==> dashmap_contents(self.inner).contains_key(key@),
            r is Some ==> r->0@ == dashmap_contents(self.inner)[key@],
    {
        self.inner.get(key).map(|entry| entry.value().clone())
    }

    /// Relies on DashMap::remove: drops the key's entry, atomically per key,
    /// and hands back the record it held.
    #[verifier::external_body]
    pub fn remove(&mut self, key: &PeerPublicKey) -> (r: Option<GatewayClient>)
        ensures
            dashmap_contents(final(self).inner) == dashmap_contents(old(self).inner).remove(key@),
            r is Some <==> dashmap_contents(old(self).inner).contains_key(key@),
            r is Some ==> r->0@ == dashmap_contents(old(self).inner)[key@],
    {
        self.inner.remove(key).map(|pair| pair.1)
    }

    /// Relies on DashMap::len: the number of entries.
    #[verifier::external_body]
    pub fn len(&self) -> (n: usize)
        ensures
            n == dashmap_contents(self.inner).dom().len(),
    {
        self.inner.len()
    }

    /// Relies on DashMap::iter: a point-in-time copy of every entry, its key
    /// beside its record, each key exactly once, in no promised order.
    #[verifier::external_body]
    pub fn snapshot(&self) -> (r: Vec<(PeerPublicKey, GatewayClient)>)
        ensures
            r@.len() == dashmap_contents(self.inner).dom().len(),
            forall|i: int|
                0 <= i < r@.len() ==> dashmap_contents(self.inner).contains_key(
                    #[trigger] r@[i].0@,
                ) && dashmap_contents(self.inner)[r@[i].0@] == r@[i].1@,
            forall|i: int, j: int| 0 <= i < j < r@.len() ==> r@[i].0@ != r@[j].0@,
    {
        self.inner.iter().map(|entry| (entry.key().clone(), entry.value().clone())).collect()
    }
}

/// Registry idempotence: registering the same key twice keeps only the
/// second record, under that key, and leaves the number of entries exactly
/// where one registration alone would have left it.
pub proof fn lemma_register_idempotent(
    m: Map<Seq<u8>, GatewayClientView>,
    k: Seq<u8>,
    c1: GatewayClientView,
    c2: GatewayClientView,
)
    ensures
        m.insert(k, c1).insert(k, c2) == m.insert(k, c2),
        m.insert(k, c1).insert(k, c2)[k] == c2,
        m.insert(k, c1).insert(k, c2).dom() == m.insert(k, c1).dom(),
{
    assert(m.insert(k, c1).insert(k, c2) =~= m.insert(k, c2));
    assert(m.insert(k, c1).insert(k, c2).dom() =~= m.insert(k, c1).dom());
}

} // verus!
