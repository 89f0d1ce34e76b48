use vstd::prelude::*;
use crate::error::Error;
use crate::registration::{GatewayClient, GatewayClientView, PeerPublicKey};
use crate::registry::{empty_registry, GatewayClientRegistry};

verus! {

/// Static configuration of the gateway; immutable after construction.
#[derive(Clone, Copy, Debug, PartialEq, Eq, Structural)]
pub struct Config {
    /// Port the gateway announces for tunnel traffic.
    pub listen_port: u16,
    /// Prefix length of the private network tunnel addresses are drawn from.
    pub private_network_prefix: u8,
}

/// The gateway's long-term key pair, held as raw curve-25519 key bytes.
#[derive(Clone, Debug, PartialEq)]
pub struct KeyPair {
    pub private_key: Vec<u8>,
    pub public_key: Vec<u8>,
}

#[verifier::ext_equal]
pub struct KeyPairView {
    pub private_key: Seq<u8>,
    pub public_key: Seq<u8>,
}

impl View for KeyPair {
    type V = KeyPairView;

    open spec fn view(&self) -> KeyPairView {
        KeyPairView { private_key: self.private_key@, public_key: self.public_key@ }
    }
}

impl KeyPair {
    pub open spec fn wf(&self) -> bool {
        self@.private_key.len() == 32 && self@.public_key.len() == 32
    }

    /// Accepts exactly thirty-two bytes for each half of the pair.
    pub fn new(private_key: Vec<u8>, public_key: Vec<u8>) -> (r: Result<KeyPair, Error>)
        ensures
            r is Ok <==> (private_key@.len() == 32 && public_key@.len() == 32),
            r is Ok ==> r->Ok_0 == (KeyPair { private_key, public_key }),
            r is Err ==> r->Err_0 == Error::InvalidKey,
    {
        if private_key.len() == 32 && public_key.len() == 32 {
            Ok(KeyPair { private_key, public_key })
        } else {
            Err(Error::InvalidKey)
        }
    }
}

/// Gateway session state: static configuration, the gateway's long-term key
/// pair, and the registry of admitted peers. Constructed once per gateway
/// process; the configuration and key pair are never mutated afterwards,
/// and registry mutation happens only through the registry operations.
pub struct WireguardGatewayData {
    pub config: Config,
    pub keypair: KeyPair,
    pub client_registry: GatewayClientRegistry,
}

impl WireguardGatewayData {
    pub open spec fn wf(&self) -> bool {
        self.keypair.wf()
    }

    /// Builds the session state with an empty peer registry.
    pub fn new(config: Config, keypair: KeyPair) -> (r: WireguardGatewayData)
        requires
            keypair.wf(),
        ensures
            r.config == config,
            r.keypair == keypair,
            r.client_registry@ == empty_registry(),
            r.wf(),
    {
        WireguardGatewayData { config, keypair, client_registry: GatewayClientRegistry::new() }
    }

    /// The static configuration.
    pub fn config(&self) -> (r: Config)
        ensures
            r == self.config,
    {
        self.config
    }

    /// The gateway's long-term key pair.
    pub fn keypair(&self) -> (r: &KeyPair)
        ensures
            r == &self.keypair,
    {
        &self.keypair
    }

    /// The registry of admitted peers, for the reading packet-forwarding path.
    pub fn client_registry(&self) -> (r: &GatewayClientRegistry)
        ensures
            r == &self.client_registry,
    {
        &self.client_registry
    }

    /// Inserts, or overwrites, the record for the key; returns the previous
    /// record if one was admitted. Configuration and key pair are untouched.
    pub fn register_client(&mut self, key: PeerPublicKey, client: GatewayClient) -> (prev: Option<
        GatewayClient,
    >)
        ensures
            final(self).client_registry@ == old(self).client_registry@.insert(key@, client@),
            final(self).config == old(self).config,
            final(self).keypair == old(self).keypair,
            prev is Some <==> old(self).client_registry@.contains_key(key@),
            prev is Some ==> prev->0@ == old(self).client_registry@[key@],
    {
        self.client_registry.register(key, client)
    }

    /// The admitted record for the key, if any.
    pub fn lookup_client(&self, key: &PeerPublicKey) -> (r: Option<GatewayClient>)
        ensures
            r is Some <==> self.client_registry@.contains_key(key@),
            r is Some ==> r->0@ == self.client_registry@[key@],
    {
        self.client_registry.lookup(key)
    }

    /// Drops the key's admitted record on explicit disconnect. Referencing a
    /// key that was never admitted is the one failure, `UnknownPeer`.
    pub fn disconnect_client(&mut self, key: &PeerPublicKey) -> (r: Result<GatewayClient, Error>)
        ensures
            r is Ok <==> old(self).client_registry@.contains_key(key@),
            r is Ok ==> r->Ok_0@ == old(self).client_registry@[key@] && final(self).client_registry@ == old(self).client_registry@.remove(key@),
            r is Err ==> r->Err_0 == Error::UnknownPeer && final(self).client_registry@ == old(self).client_registry@,
            final(self).config == old(self).config,
            final(self).keypair == old(self).keypair,
    {
        match self.client_registry.remove(key) {
            Some(client) => Ok(client),
            None => {
                proof {
                    assert(old(self).client_registry@.remove(key@) =~= old(self).client_registry@);
                }
                Err(Error::UnknownPeer)
            },
        }
    }
}

} // verus!
