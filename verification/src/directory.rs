use vstd::prelude::*;

verus! {

// The node directory is an external collaborator of the gateway core: these
// are the records it exchanges at that boundary. Amounts are held as plain
// integers with their denomination, addresses as their text form.

/// Base58 encoded ed25519 signing public key of a node.
pub type IdentityKey = String;

/// Base58 encoded x25519 routing public key of a node.
pub type SphinxKey = String;

/// A bonded amount: how many base units of which denomination.
#[derive(Clone, Debug, PartialEq)]
pub struct Coin {
    pub amount: u128,
    pub denom: String,
}

/// A ledger account address in its text form.
#[derive(Clone, Debug, PartialEq, Eq, Hash)]
pub struct Addr(pub String);

/// A mixing node as the directory announces it.
#[derive(Clone, Debug, PartialEq)]
pub struct MixNode {
    pub host: String,
    pub mix_port: u16,
    pub verloc_port: u16,
    pub http_api_port: u16,
    pub sphinx_key: SphinxKey,
    /// Base58 encoded ed25519 EdDSA public key.
    pub identity_key: IdentityKey,
    pub version: String,
}

/// The position a node mixes at: the gateway edge or one of three layers.
#[derive(Copy, Clone, Debug, PartialEq, Eq, Structural)]
pub enum Layer {
    Gateway,
    One,
    Two,
    Three,
}

/// A node together with its stake: the bonded amount, the delegated amount,
/// the owning account and the layer it mixes at.
#[derive(Clone, Debug, PartialEq)]
pub struct MixNodeBond {
    pub bond_amount: Coin,
    pub total_delegation: Coin,
    pub owner: Addr,
    pub layer: Layer,
    pub mix_node: MixNode,
}

impl MixNodeBond {
    /// A fresh bond starts with no delegation, in the denomination of the
    /// bonded amount.
    pub fn new(bond_amount: Coin, owner: Addr, layer: Layer, mix_node: MixNode) -> (r: MixNodeBond)
        ensures
            r.total_delegation.amount == 0,
            r.total_delegation.denom@ == bond_amount.denom@,
            r.bond_amount == bond_amount,
            r.owner == owner,
            r.layer == layer,
            r.mix_node == mix_node,
    {
        let denom = bond_amount.denom.clone();
        MixNodeBond {
            total_delegation: Coin { amount: 0, denom },
            bond_amount,
            owner,
            layer,
            mix_node,
        }
    }

    /// The node's identity key.
    pub fn identity(&self) -> (r: &String)
        ensures
            r == &self.mix_node.identity_key,
    {
        &self.mix_node.identity_key
    }

    /// The bonded amount, copied out.
    pub fn bond_amount(&self) -> (r: Coin)
        ensures
            r.amount == self.bond_amount.amount,
            r.denom@ == self.bond_amount.denom@,
    {
        Coin { amount: self.bond_amount.amount, denom: self.bond_amount.denom.clone() }
    }

    /// The owning account.
    pub fn owner(&self) -> (r: &Addr)
        ensures
            r == &self.owner,
    {
        &self.owner
    }

    /// The node record itself.
    pub fn mix_node(&self) -> (r: &MixNode)
        ensures
            r == &self.mix_node,
    {
        &self.mix_node
    }
}

/// One page of the directory's node listing.
#[derive(Clone, Debug, PartialEq)]
pub struct PagedMixnodeResponse {
    pub nodes: Vec<MixNodeBond>,
    pub per_page: usize,
    pub start_next_after: Option<IdentityKey>,
}

impl PagedMixnodeResponse {
    pub fn new(
        nodes: Vec<MixNodeBond>,
        per_page: usize,
        start_next_after: Option<IdentityKey>,
    ) -> (r: PagedMixnodeResponse)
        ensures
            r.nodes == nodes,
            r.per_page == per_page,
            r.start_next_after == start_next_after,
    {
        PagedMixnodeResponse { nodes, per_page, start_next_after }
    }
}

/// Whether an account owns a node.
#[derive(Clone, Debug, PartialEq)]
pub struct MixOwnershipResponse {
    pub address: Addr,
    pub has_node: bool,
}

} // verus!
