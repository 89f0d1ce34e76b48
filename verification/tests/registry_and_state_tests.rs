use gateway_core::directory::{Addr, Coin, Layer, MixNode, MixNodeBond, PagedMixnodeResponse};
use gateway_core::registration::{GatewayClient, PeerPublicKey};
use gateway_core::registry::GatewayClientRegistry;
use gateway_core::reply_route::resolve_reply_route;
use gateway_core::request::IpAddr;
use gateway_core::session_state::{AppState, ConnectionState, VpnMode};
use gateway_core::current_version;

fn key(fill: u8) -> PeerPublicKey {
    PeerPublicKey::new(vec![fill; 32]).unwrap()
}

fn client(fill: u8, last_octet: u8) -> GatewayClient {
    GatewayClient {
        peer_public_key: key(fill),
        assigned_tunnel_ip: IpAddr::v4(10, 1, 0, last_octet),
        registered_at: 100,
        last_handshake_at: 100,
    }
}

#[test]
fn registry_register_is_idempotent_overwrite() {
    let mut registry = GatewayClientRegistry::new();
    assert_eq!(registry.len(), 0);
    let first = registry.register(key(1), client(1, 2));
    assert!(first.is_none());
    let second = registry.register(key(1), client(1, 9));
    assert_eq!(second.unwrap().assigned_tunnel_ip, IpAddr::v4(10, 1, 0, 2));
    let found = registry.lookup(&key(1)).unwrap();
    assert_eq!(found.assigned_tunnel_ip, IpAddr::v4(10, 1, 0, 9));
    assert_eq!(registry.len(), 1);
}

#[test]
fn registry_lookup_remove_and_snapshot() {
    let mut registry = GatewayClientRegistry::new();
    assert!(registry.lookup(&key(1)).is_none());
    registry.register(key(1), client(1, 1));
    registry.register(key(2), client(2, 2));
    assert_eq!(registry.len(), 2);
    let mut snapshot = registry.snapshot();
    assert_eq!(snapshot.len(), 2);
    snapshot.sort_by_key(|(k, _)| k.bytes.clone());
    assert_eq!(snapshot[0].0, key(1));
    assert_eq!(snapshot[0].1.peer_public_key, key(1));
    assert_eq!(snapshot[0].1.assigned_tunnel_ip, IpAddr::v4(10, 1, 0, 1));
    assert_eq!(snapshot[1].0, key(2));
    assert_eq!(snapshot[1].1.assigned_tunnel_ip, IpAddr::v4(10, 1, 0, 2));
    let removed = registry.remove(&key(1)).unwrap();
    assert_eq!(removed.assigned_tunnel_ip, IpAddr::v4(10, 1, 0, 1));
    assert!(registry.remove(&key(1)).is_none());
    assert_eq!(registry.len(), 1);
}

#[test]
fn reply_route_resolution() {
    let defaulted = resolve_reply_route(None, None, 3);
    assert_eq!(defaulted.hops, 3);
    assert_eq!(defaulted.avg_mix_delay, None);
    let minimal = resolve_reply_route(Some(0), Some(50u64), 3);
    assert_eq!(minimal.hops, 0);
    assert_eq!(minimal.avg_mix_delay, Some(50));
    let widened = resolve_reply_route(Some(5), None, 3);
    assert_eq!(widened.hops, 5);
}

fn node() -> MixNode {
    MixNode {
        host: "mix.example.org".to_string(),
        mix_port: 1789,
        verloc_port: 1790,
        http_api_port: 8000,
        sphinx_key: "sphinxkey".to_string(),
        identity_key: "identitykey".to_string(),
        version: "1.1.0".to_string(),
    }
}

#[test]
fn mix_node_bond_starts_without_delegation() {
    let bond = MixNodeBond::new(
        Coin {
            amount: 1_000_000,
            denom: "unym".to_string(),
        },
        Addr("n1owner".to_string()),
        Layer::Two,
        node(),
    );
    assert_eq!(bond.total_delegation.amount, 0);
    assert_eq!(bond.total_delegation.denom, "unym");
    assert_eq!(bond.bond_amount().amount, 1_000_000);
    assert_eq!(bond.bond_amount().denom, "unym");
    assert_eq!(bond.identity(), "identitykey");
    assert_eq!(bond.owner(), &Addr("n1owner".to_string()));
    assert_eq!(bond.mix_node(), &node());
}

#[test]
fn paged_response_keeps_its_fields() {
    let response = PagedMixnodeResponse::new(vec![], 25, Some("last".to_string()));
    assert!(response.nodes.is_empty());
    assert_eq!(response.per_page, 25);
    assert_eq!(response.start_next_after, Some("last".to_string()));
}

#[test]
fn session_state_defaults() {
    let state = AppState::default();
    assert!(matches!(state.state, ConnectionState::Disconnected));
    assert!(matches!(state.vpn_mode, VpnMode::TwoHop));
    assert!(state.error.is_none());
    assert!(state.entry_node.is_none());
    assert!(state.exit_node.is_none());
    assert!(state.tunnel.is_none());
    assert!(state.connection_start_time.is_none());
    assert!(matches!(ConnectionState::default(), ConnectionState::Disconnected));
    assert!(matches!(VpnMode::default(), VpnMode::TwoHop));
}

#[test]
fn protocol_version_is_stable() {
    assert_eq!(current_version(), 4);
}
