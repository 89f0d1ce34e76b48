use gateway_core::error::Error;
use gateway_core::gateway::{Config, KeyPair, WireguardGatewayData};
use gateway_core::registration::{
    issue_nonce, ClientMac, ClientMessage, InitMessage, PeerPublicKey, RegistrationHandshake,
    CLIENT_MAC_LABEL, GATEWAY_MAC_LABEL, NONCE_VALIDITY_WINDOW,
};
use gateway_core::request::IpAddr;
use hmac::{KeyInit, Mac};

fn gateway_data() -> WireguardGatewayData {
    let gw_secret = [7u8; 32];
    let gw_public = x25519_dalek::PublicKey::from(&x25519_dalek::StaticSecret::from(gw_secret));
    let keypair = KeyPair::new(gw_secret.to_vec(), gw_public.as_bytes().to_vec()).unwrap();
    let config = Config {
        listen_port: 51822,
        private_network_prefix: 16,
    };
    WireguardGatewayData::new(config, keypair)
}

fn client_secret() -> x25519_dalek::StaticSecret {
    x25519_dalek::StaticSecret::from([9u8; 32])
}

fn client_key() -> PeerPublicKey {
    let public = x25519_dalek::PublicKey::from(&client_secret());
    PeerPublicKey::new(public.as_bytes().to_vec()).unwrap()
}

/// The tag as the peer computes it on its own side, from its private key and
/// the gateway's public key.
fn client_side_mac(label: u8, gateway_public: &[u8], nonce: u64) -> Vec<u8> {
    let mut gw_pk = [0u8; 32];
    gw_pk.copy_from_slice(gateway_public);
    let shared = client_secret().diffie_hellman(&x25519_dalek::PublicKey::from(gw_pk));
    let key = client_key();
    let mut transcript = vec![label];
    transcript.extend_from_slice(&key.bytes);
    transcript.extend_from_slice(&nonce.to_be_bytes());
    let mut mac =
        <hmac::Hmac<sha2::Sha256> as KeyInit>::new_from_slice(shared.as_bytes()).unwrap();
    mac.update(&transcript);
    mac.finalize().into_bytes().to_vec()
}

#[test]
fn replay_of_same_nonce_is_rejected() {
    let data = gateway_data();
    let mut handshake = RegistrationHandshake::new();
    let init = InitMessage {
        peer_public_key: client_key(),
        nonce: 42,
    };
    assert!(handshake.process_init(&data, &init, 1000).is_ok());
    assert_eq!(
        handshake.process_init(&data, &init, 1000).map(|_| ()),
        Err(Error::ReplayDetected)
    );
    // a fresh nonce for the same key succeeds
    let fresh = InitMessage {
        peer_public_key: client_key(),
        nonce: 43,
    };
    assert!(handshake.process_init(&data, &fresh, 1001).is_ok());
}

#[test]
fn nonce_can_return_after_the_window() {
    let data = gateway_data();
    let mut handshake = RegistrationHandshake::new();
    let init = InitMessage {
        peer_public_key: client_key(),
        nonce: 42,
    };
    assert!(handshake.process_init(&data, &init, 1000).is_ok());
    assert_eq!(
        handshake.process_init(&data, &init, 1000 + NONCE_VALIDITY_WINDOW - 1).map(|_| ()),
        Err(Error::ReplayDetected)
    );
    assert!(handshake
        .process_init(&data, &init, 1000 + NONCE_VALIDITY_WINDOW)
        .is_ok());
}

#[test]
fn malformed_key_is_rejected() {
    let data = gateway_data();
    let mut handshake = RegistrationHandshake::new();
    let init = InitMessage {
        peer_public_key: PeerPublicKey {
            bytes: vec![1, 2, 3],
        },
        nonce: 1,
    };
    assert_eq!(
        handshake.process_init(&data, &init, 0).map(|_| ()),
        Err(Error::InvalidKey)
    );
    assert!(matches!(
        PeerPublicKey::new(vec![0u8; 31]),
        Err(Error::InvalidKey)
    ));
}

#[test]
fn full_handshake_admits_the_peer() {
    let mut data = gateway_data();
    let mut handshake = RegistrationHandshake::new();
    let init = InitMessage {
        peer_public_key: client_key(),
        nonce: 77,
    };
    let response = handshake.process_init(&data, &init, 500).unwrap();
    assert_eq!(response.nonce, 77);
    // the peer can authenticate the gateway: the gateway-side tag matches
    // what the peer derives from its own private key
    let gw_public = data.keypair().public_key.clone();
    assert_eq!(
        response.gateway_mac.bytes,
        client_side_mac(GATEWAY_MAC_LABEL, &gw_public, 77)
    );

    let msg = ClientMessage {
        peer_public_key: client_key(),
        mac: ClientMac {
            bytes: client_side_mac(CLIENT_MAC_LABEL, &gw_public, 77),
        },
    };
    let client = handshake
        .process_client_message(&mut data, &msg, IpAddr::v4(10, 1, 0, 2), 600)
        .unwrap();
    assert_eq!(client.peer_public_key, client_key());
    assert_eq!(client.assigned_tunnel_ip, IpAddr::v4(10, 1, 0, 2));
    assert_eq!(client.registered_at, 600);
    assert_eq!(client.last_handshake_at, 600);

    let found = data.lookup_client(&client_key()).unwrap();
    assert_eq!(found.assigned_tunnel_ip, IpAddr::v4(10, 1, 0, 2));
    assert_eq!(data.client_registry().len(), 1);

    // explicit disconnect removes the record; a second one finds nobody
    let removed = data.disconnect_client(&client_key()).unwrap();
    assert_eq!(removed.peer_public_key, client_key());
    assert_eq!(
        data.disconnect_client(&client_key()).map(|_| ()),
        Err(Error::UnknownPeer)
    );
}

#[test]
fn wrong_mac_is_rejected_without_admission() {
    let mut data = gateway_data();
    let mut handshake = RegistrationHandshake::new();
    let init = InitMessage {
        peer_public_key: client_key(),
        nonce: 5,
    };
    handshake.process_init(&data, &init, 0).unwrap();
    let msg = ClientMessage {
        peer_public_key: client_key(),
        mac: ClientMac {
            bytes: vec![0u8; 32],
        },
    };
    assert_eq!(
        handshake
            .process_client_message(&mut data, &msg, IpAddr::v4(10, 1, 0, 2), 1)
            .map(|_| ()),
        Err(Error::AuthenticationFailed)
    );
    assert!(data.lookup_client(&client_key()).is_none());
    assert_eq!(data.client_registry().len(), 0);
}

#[test]
fn completion_without_pending_handshake_is_unknown() {
    let mut data = gateway_data();
    let mut handshake = RegistrationHandshake::new();
    let msg = ClientMessage {
        peer_public_key: client_key(),
        mac: ClientMac {
            bytes: vec![0u8; 32],
        },
    };
    assert_eq!(
        handshake
            .process_client_message(&mut data, &msg, IpAddr::v4(10, 1, 0, 2), 1)
            .map(|_| ()),
        Err(Error::UnknownPeer)
    );
}

#[test]
fn issued_nonces_open_handshakes() {
    let data = gateway_data();
    let mut handshake = RegistrationHandshake::new();
    let nonce = issue_nonce();
    let init = InitMessage {
        peer_public_key: client_key(),
        nonce,
    };
    let response = handshake.process_init(&data, &init, 10).unwrap();
    assert_eq!(response.nonce, nonce);
    assert_eq!(response.gateway_mac.bytes.len(), 32);
    assert_eq!(
        handshake.process_init(&data, &init, 11).map(|_| ()),
        Err(Error::ReplayDetected)
    );
}
