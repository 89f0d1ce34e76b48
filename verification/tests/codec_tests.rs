use gateway_core::codec::ReconstructedMessage;
use gateway_core::error::Error;
use gateway_core::request::{
    DataRequest, DisconnectRequest, DynamicConnectRequest, IpAddr, IpPacketRequest,
    IpPacketRequestData, Recipient, StaticConnectRequest,
};
use gateway_core::CURRENT_VERSION;

fn fixed_recipient() -> Recipient {
    let identity: Vec<u8> = (0u8..32).collect();
    let encryption_key: Vec<u8> = (32u8..64).collect();
    let gateway: Vec<u8> = (64u8..96).collect();
    Recipient::new(identity, encryption_key, gateway).unwrap()
}

fn decode(bytes: Vec<u8>) -> Result<IpPacketRequest, Error> {
    IpPacketRequest::from_reconstructed_message(&ReconstructedMessage {
        message: bytes,
        sender_tag: None,
    })
}

#[test]
fn check_size_of_request() {
    let connect = IpPacketRequest {
        version: 4,
        data: IpPacketRequestData::StaticConnect(StaticConnectRequest {
            request_id: 123,
            ip: IpAddr::v4(10, 0, 0, 1),
            reply_to: fixed_recipient(),
            reply_to_hops: None,
            reply_to_avg_mix_delays: None,
        }),
    };
    assert_eq!(connect.to_bytes().unwrap().len(), 107);
}

#[test]
fn check_size_of_data() {
    let data = IpPacketRequest {
        version: 4,
        data: IpPacketRequestData::Data(DataRequest {
            ip_packet: vec![1u8; 32],
        }),
    };
    assert_eq!(data.to_bytes().unwrap().len(), 35);
}

#[test]
fn serialize_and_deserialize_data_request() {
    let data = IpPacketRequest {
        version: 4,
        data: IpPacketRequestData::Data(DataRequest {
            ip_packet: vec![1, 2, 4, 2, 5],
        }),
    };

    let serialized = data.to_bytes().unwrap();
    let deserialized = decode(serialized).unwrap();

    assert_eq!(deserialized.version, 4);
    assert_eq!(
        deserialized.data,
        IpPacketRequestData::Data(DataRequest {
            ip_packet: vec![1, 2, 4, 2, 5],
        })
    );
}

#[test]
fn data_frame_exact_bytes() {
    let data = IpPacketRequest {
        version: 4,
        data: IpPacketRequestData::Data(DataRequest {
            ip_packet: vec![1, 2, 4, 2, 5],
        }),
    };
    assert_eq!(data.to_bytes().unwrap(), vec![4, 3, 5, 1, 2, 4, 2, 5]);
}

#[test]
fn round_trip_static_connect() {
    let (req, id) = IpPacketRequest::new_static_connect_request(
        IpAddr::v4(10, 0, 0, 1),
        fixed_recipient(),
        Some(2),
        Some(1.5f64.to_bits()),
    );
    assert_eq!(req.version, CURRENT_VERSION);
    assert_eq!(req.id(), Some(id));
    let decoded = decode(req.to_bytes().unwrap()).unwrap();
    assert_eq!(decoded, req);
}

#[test]
fn round_trip_dynamic_connect() {
    let (req, id) = IpPacketRequest::new_dynamic_connect_request(fixed_recipient(), None, None);
    assert_eq!(req.id(), Some(id));
    let decoded = decode(req.to_bytes().unwrap()).unwrap();
    assert_eq!(decoded, req);
}

#[test]
fn round_trip_disconnect() {
    let (req, id) = IpPacketRequest::new_disconnect_request(fixed_recipient());
    assert_eq!(req.id(), Some(id));
    let decoded = decode(req.to_bytes().unwrap()).unwrap();
    assert_eq!(decoded, req);
}

#[test]
fn round_trip_large_request_id() {
    let req = IpPacketRequest {
        version: 4,
        data: IpPacketRequestData::Disconnect(DisconnectRequest {
            request_id: u64::MAX - 7,
            reply_to: fixed_recipient(),
        }),
    };
    let bytes = req.to_bytes().unwrap();
    // one version byte, one tag, a nine-byte identifier, a ninety-seven byte address
    assert_eq!(bytes.len(), 108);
    assert_eq!(decode(bytes).unwrap(), req);
}

#[test]
fn round_trip_ipv6_address() {
    let octets: Vec<u8> = (0u8..16).collect();
    let req = IpPacketRequest {
        version: 4,
        data: IpPacketRequestData::StaticConnect(StaticConnectRequest {
            request_id: 77,
            ip: IpAddr::from_octets(octets).unwrap(),
            reply_to: fixed_recipient(),
            reply_to_hops: None,
            reply_to_avg_mix_delays: None,
        }),
    };
    assert_eq!(decode(req.to_bytes().unwrap()).unwrap(), req);
}

#[test]
fn version_gate_rejects_other_versions() {
    let data = IpPacketRequest {
        version: 4,
        data: IpPacketRequestData::Data(DataRequest {
            ip_packet: vec![9, 9],
        }),
    };
    let mut bytes = data.to_bytes().unwrap();
    bytes[0] = 5;
    assert_eq!(decode(bytes), Err(Error::UnsupportedVersion));
    assert_eq!(decode(vec![0, 3, 0]), Err(Error::UnsupportedVersion));
}

#[test]
fn malformed_buffers_are_rejected() {
    assert_eq!(decode(vec![]), Err(Error::MalformedMessage));
    // version alone, no tag
    assert_eq!(decode(vec![4]), Err(Error::MalformedMessage));
    // unknown variant tag
    assert_eq!(decode(vec![4, 9]), Err(Error::MalformedMessage));
    // truncated data frame: length prefix promises more than follows
    assert_eq!(decode(vec![4, 3, 5, 1, 2]), Err(Error::MalformedMessage));
    // trailing garbage after a complete frame
    assert_eq!(decode(vec![4, 3, 1, 7, 0]), Err(Error::MalformedMessage));
}

#[test]
fn encoding_failure_on_malformed_recipient() {
    let req = IpPacketRequest {
        version: 4,
        data: IpPacketRequestData::Disconnect(DisconnectRequest {
            request_id: 1,
            reply_to: Recipient {
                identity: vec![1, 2, 3],
                encryption_key: vec![],
                gateway: vec![],
            },
        }),
    };
    assert_eq!(req.to_bytes(), Err(Error::EncodingFailure));
}

#[test]
fn hop_override_distinctness() {
    let make = |hops: Option<u8>| IpPacketRequest {
        version: 4,
        data: IpPacketRequestData::DynamicConnect(DynamicConnectRequest {
            request_id: 11,
            reply_to: fixed_recipient(),
            reply_to_hops: hops,
            reply_to_avg_mix_delays: None,
        }),
    };
    let with_zero = make(Some(0));
    let without = make(None);
    let bytes_zero = with_zero.to_bytes().unwrap();
    let bytes_none = without.to_bytes().unwrap();
    assert_ne!(bytes_zero, bytes_none);
    let decoded_zero = decode(bytes_zero).unwrap();
    let decoded_none = decode(bytes_none).unwrap();
    assert_eq!(decoded_zero, with_zero);
    assert_eq!(decoded_none, without);
    assert_ne!(decoded_zero, decoded_none);
}

#[test]
fn correlation_of_data_frames() {
    let req = IpPacketRequest::new_ip_packet(vec![1, 2, 3]);
    assert_eq!(req.id(), None);
    assert!(req.recipient().is_none());
    let (connect, id) = IpPacketRequest::new_dynamic_connect_request(fixed_recipient(), None, None);
    assert_eq!(connect.id(), Some(id));
    assert_eq!(connect.recipient().unwrap(), &fixed_recipient());
}
