use vstd::prelude::*;
use rand::RngCore;
use crate::error::Error;
use crate::CURRENT_VERSION;

verus! {

/// Number of bytes in each of the three parts of a mixnet address.
pub const ADDRESS_PART_LEN: usize = 32;

/// Relies on rand's `OsRng` (`RngCore::next_u64`): a 64-bit value drawn from the
/// operating system's secure generator. Nothing is promised of the value.
#[verifier::external_body]
pub(crate) fn generate_random() -> u64 {
    rand::rngs::OsRng.next_u64()
}

/// A tunnel address, held as its raw octets: four for version four of the
/// internet protocol, sixteen for version six.
#[derive(Clone, Debug, PartialEq, Eq)]
pub enum IpAddr {
    V4(Vec<u8>),
    V6(Vec<u8>),
}

#[verifier::ext_equal]
pub enum IpAddrView {
    V4(Seq<u8>),
    V6(Seq<u8>),
}

impl View for IpAddr {
    type V = IpAddrView;

    open spec fn view(&self) -> IpAddrView {
        match self {
            IpAddr::V4(o) => IpAddrView::V4(o@),
            IpAddr::V6(o) => IpAddrView::V6(o@),
        }
    }
}

impl IpAddrView {
    pub open spec fn wf(self) -> bool {
        match self {
            IpAddrView::V4(o) => o.len() == 4,
            IpAddrView::V6(o) => o.len() == 16,
        }
    }
}

impl IpAddr {
    pub open spec fn wf(&self) -> bool {
        self@.wf()
    }

    /// Builds the version-four address `a.b.c.d`.
    pub fn v4(a: u8, b: u8, c: u8, d: u8) -> (r: IpAddr)
        ensures
            r@ == IpAddrView::V4(seq![a, b, c, d]),
            r.wf(),
    {
        let mut o: Vec<u8> = Vec::new();
        o.push(a);
        o.push(b);
        o.push(c);
        o.push(d);
        proof {
            assert(o@ =~= seq![a, b, c, d]);
        }
        IpAddr::V4(o)
    }

    /// Builds an address from raw octets; rejects any octet count other than
    /// four or sixteen.
    pub fn from_octets(octets: Vec<u8>) -> (r: Result<IpAddr, Error>)
        ensures
            r is Ok <==> (octets@.len() == 4 || octets@.len() == 16),
            octets@.len() == 4 ==> r == Ok::<IpAddr, Error>(IpAddr::V4(octets)),
            octets@.len() == 16 ==> r == Ok::<IpAddr, Error>(IpAddr::V6(octets)),
            r is Err ==> r->Err_0 == Error::MalformedMessage,
    {
        if octets.len() == 4 {
            Ok(IpAddr::V4(octets))
        } else if octets.len() == 16 {
            Ok(IpAddr::V6(octets))
        } else {
            Err(Error::MalformedMessage)
        }
    }
}

/// An opaque mixnet address a remote endpoint can use to route a response
/// back: the client's identity key, its routing (encryption) key, and the
/// identity of its gateway, each thirty-two raw bytes.
#[derive(Clone, Debug, PartialEq, Eq)]
pub struct Recipient {
    pub identity: Vec<u8>,
    pub encryption_key: Vec<u8>,
    pub gateway: Vec<u8>,
}

#[verifier::ext_equal]
pub struct RecipientView {
    pub identity: Seq<u8>,
    pub encryption_key: Seq<u8>,
    pub gateway: Seq<u8>,
}

impl View for Recipient {
    type V = RecipientView;

    open spec fn view(&self) -> RecipientView {
        RecipientView {
            identity: self.identity@,
            encryption_key: self.encryption_key@,
            gateway: self.gateway@,
        }
    }
}

impl RecipientView {
    pub open spec fn wf(self) -> bool {
        &&& self.identity.len() == ADDRESS_PART_LEN
        &&& self.encryption_key.len() == ADDRESS_PART_LEN
        &&& self.gateway.len() == ADDRESS_PART_LEN
    }

    /// The ninety-six byte wire image of the address.
    pub open spec fn bytes(self) -> Seq<u8> {
        self.identity + self.encryption_key + self.gateway
    }
}

impl Recipient {
    pub open spec fn wf(&self) -> bool {
        self@.wf()
    }

    /// Builds an address from its three parts; each must hold exactly
    /// thirty-two bytes.
    pub fn new(identity: Vec<u8>, encryption_key: Vec<u8>, gateway: Vec<u8>) -> (r: Result<
        Recipient,
        Error,
    >)
        ensures
            r is Ok <==> (identity@.len() == ADDRESS_PART_LEN
                && encryption_key@.len() == ADDRESS_PART_LEN && gateway@.len()
                == ADDRESS_PART_LEN),
            r is Ok ==> r->Ok_0 == (Recipient { identity, encryption_key, gateway }),
            r is Err ==> r->Err_0 == Error::InvalidKey,
    {
        if identity.len() == ADDRESS_PART_LEN && encryption_key.len() == ADDRESS_PART_LEN
            && gateway.len() == ADDRESS_PART_LEN {
            Ok(Recipient { identity, encryption_key, gateway })
        } else {
            Err(Error::InvalidKey)
        }
    }
}

/// A request to admit the sender with a fixed tunnel address of its choice.
#[derive(Clone, Debug, PartialEq)]
pub struct StaticConnectRequest {
    pub request_id: u64,
    pub ip: IpAddr,
    /// The mixnet address the response should be sent back to.
    pub reply_to: Recipient,
    /// Mix-node hops responses should take in addition to the entry and exit
    /// node; zero means client, entry, exit, client only; absent means the
    /// negotiated default.
    pub reply_to_hops: Option<u8>,
    /// Average per-hop delay for reply traffic, in milliseconds, carried as the
    /// raw bit image of the sender's floating-point value so the wire image
    /// round-trips exactly. Accepted but not enforced by the receiving router.
    pub reply_to_avg_mix_delays: Option<u64>,
}

/// A request to admit the sender with a gateway-assigned tunnel address.
#[derive(Clone, Debug, PartialEq)]
pub struct DynamicConnectRequest {
    pub request_id: u64,
    /// The mixnet address the response should be sent back to.
    pub reply_to: Recipient,
    /// See `StaticConnectRequest::reply_to_hops`.
    pub reply_to_hops: Option<u8>,
    /// See `StaticConnectRequest::reply_to_avg_mix_delays`.
    pub reply_to_avg_mix_delays: Option<u64>,
}

/// A request to drop the sender's admitted record.
#[derive(Clone, Debug, PartialEq)]
pub struct DisconnectRequest {
    pub request_id: u64,
    /// The mixnet address the response should be sent back to.
    pub reply_to: Recipient,
}

/// A tunnelled frame; uncorrelated and fire-and-forget.
#[derive(Clone, Debug, PartialEq)]
pub struct DataRequest {
    pub ip_packet: Vec<u8>,
}

/// The four kinds of message the tunnel protocol carries.
#[derive(Clone, Debug, PartialEq)]
pub enum IpPacketRequestData {
    StaticConnect(StaticConnectRequest),
    DynamicConnect(DynamicConnectRequest),
    Disconnect(DisconnectRequest),
    Data(DataRequest),
}

/// A versioned tunnel protocol message.
#[derive(Clone, Debug, PartialEq)]
pub struct IpPacketRequest {
    pub version: u8,
    pub data: IpPacketRequestData,
}

#[verifier::ext_equal]
pub enum RequestDataView {
    StaticConnect {
        request_id: u64,
        ip: IpAddrView,
        reply_to: RecipientView,
        reply_to_hops: Option<u8>,
        reply_to_avg_mix_delays: Option<u64>,
    },
    DynamicConnect {
        request_id: u64,
        reply_to: RecipientView,
        reply_to_hops: Option<u8>,
        reply_to_avg_mix_delays: Option<u64>,
    },
    Disconnect { request_id: u64, reply_to: RecipientView },
    Data { ip_packet: Seq<u8> },
}

#[verifier::ext_equal]
pub struct RequestView {
    pub version: u8,
    pub data: RequestDataView,
}

impl View for IpPacketRequestData {
    type V = RequestDataView;

    open spec fn view(&self) -> RequestDataView {
        match self {
            IpPacketRequestData::StaticConnect(r) => RequestDataView::StaticConnect {
                request_id: r.request_id,
                ip: r.ip@,
                reply_to: r.reply_to@,
                reply_to_hops: r.reply_to_hops,
                reply_to_avg_mix_delays: r.reply_to_avg_mix_delays,
            },
            IpPacketRequestData::DynamicConnect(r) => RequestDataView::DynamicConnect {
                request_id: r.request_id,
                reply_to: r.reply_to@,
                reply_to_hops: r.reply_to_hops,
                reply_to_avg_mix_delays: r.reply_to_avg_mix_delays,
            },
            IpPacketRequestData::Disconnect(r) => RequestDataView::Disconnect {
                request_id: r.request_id,
                reply_to: r.reply_to@,
            },
            IpPacketRequestData::Data(r) => RequestDataView::Data { ip_packet: r.ip_packet@ },
        }
    }
}

impl View for IpPacketRequest {
    type V = RequestView;

    open spec fn view(&self) -> RequestView {
        RequestView { version: self.version, data: self.data@ }
    }
}

impl RequestDataView {
    /// Structural validity: every address part has its fixed length, and a
    /// carried frame fits the length prefix of the wire format.
    pub open spec fn encodable(self) -> bool {
        match self {
            RequestDataView::StaticConnect { ip, reply_to, .. } => ip.wf() && reply_to.wf(),
            RequestDataView::DynamicConnect { reply_to, .. } => reply_to.wf(),
            RequestDataView::Disconnect { reply_to, .. } => reply_to.wf(),
            RequestDataView::Data { ip_packet } => ip_packet.len() <= u64::MAX,
        }
    }

    /// The correlation identifier: present on connect and disconnect
    /// messages, absent on data frames.
    pub open spec fn spec_id(self) -> Option<u64> {
        match self {
            RequestDataView::StaticConnect { request_id, .. } => Some(request_id),
            RequestDataView::DynamicConnect { request_id, .. } => Some(request_id),
            RequestDataView::Disconnect { request_id, .. } => Some(request_id),
            RequestDataView::Data { .. } => None,
        }
    }

    /// The reply address: present on connect and disconnect messages, absent
    /// on data frames.
    pub open spec fn spec_recipient(self) -> Option<RecipientView> {
        match self {
            RequestDataView::StaticConnect { reply_to, .. } => Some(reply_to),
            RequestDataView::DynamicConnect { reply_to, .. } => Some(reply_to),
            RequestDataView::Disconnect { reply_to, .. } => Some(reply_to),
            RequestDataView::Data { .. } => None,
        }
    }
}

impl RequestView {
    pub open spec fn encodable(self) -> bool {
        self.data.encodable()
    }

    /// A validly constructed message: structurally sound and carrying the
    /// current protocol version.
    pub open spec fn wf(self) -> bool {
        self.encodable() && self.version == CURRENT_VERSION
    }
}

impl IpPacketRequest {
    pub open spec fn encodable(&self) -> bool {
        self@.encodable()
    }

    pub open spec fn wf(&self) -> bool {
        self@.wf()
    }

    /// Builds a static connect request carrying the requested tunnel address,
    /// with a fresh random correlation identifier, returned alongside the
    /// message so the caller can track the pending operation.
    pub fn new_static_connect_request(
        ip: IpAddr,
        reply_to: Recipient,
        reply_to_hops: Option<u8>,
        reply_to_avg_mix_delays: Option<u64>,
    ) -> (r: (IpPacketRequest, u64))
        requires
            ip.wf(),
            reply_to.wf(),
        ensures
            r.0@ == (RequestView {
                version: CURRENT_VERSION,
                data: RequestDataView::StaticConnect {
                    request_id: r.1,
                    ip: ip@,
                    reply_to: reply_to@,
                    reply_to_hops,
                    reply_to_avg_mix_delays,
                },
            }),
            r.0.wf(),
    {
        let request_id = generate_random();
        (
            IpPacketRequest {
                version: CURRENT_VERSION,
                data: IpPacketRequestData::StaticConnect(
                    StaticConnectRequest {
                        request_id,
                        ip,
                        reply_to,
                        reply_to_hops,
                        reply_to_avg_mix_delays,
                    },
                ),
            },
            request_id,
        )
    }

    /// Builds a dynamic connect request, with a fresh random correlation
    /// identifier returned alongside the message.
    pub fn new_dynamic_connect_request(
        reply_to: Recipient,
        reply_to_hops: Option<u8>,
        reply_to_avg_mix_delays: Option<u64>,
    ) -> (r: (IpPacketRequest, u64))
        requires
            reply_to.wf(),
        ensures
            r.0@ == (RequestView {
                version: CURRENT_VERSION,
                data: RequestDataView::DynamicConnect {
                    request_id: r.1,
                    reply_to: reply_to@,
                    reply_to_hops,
                    reply_to_avg_mix_delays,
                },
            }),
            r.0.wf(),
    {
        let request_id = generate_random();
        (
            IpPacketRequest {
                version: CURRENT_VERSION,
                data: IpPacketRequestData::DynamicConnect(
                    DynamicConnectRequest {
                        request_id,
                        reply_to,
                        reply_to_hops,
                        reply_to_avg_mix_delays,
                    },
                ),
            },
            request_id,
        )
    }

    /// Builds a disconnect request, with a fresh random correlation identifier
    /// returned alongside the message.
    pub fn new_disconnect_request(reply_to: Recipient) -> (r: (IpPacketRequest, u64))
        requires
            reply_to.wf(),
        ensures
            r.0@ == (RequestView {
                version: CURRENT_VERSION,
                data: RequestDataView::Disconnect { request_id: r.1, reply_to: reply_to@ },
            }),
            r.0.wf(),
    {
        let request_id = generate_random();
        (
            IpPacketRequest {
                version: CURRENT_VERSION,
                data: IpPacketRequestData::Disconnect(DisconnectRequest { request_id, reply_to }),
            },
            request_id,
        )
    }

    /// Wraps a raw frame into an uncorrelated data message.
    pub fn new_ip_packet(ip_packet: Vec<u8>) -> (r: IpPacketRequest)
        ensures
            r@ == (RequestView {
                version: CURRENT_VERSION,
                data: RequestDataView::Data { ip_packet: ip_packet@ },
            }),
            r.wf(),
    {
        let n: usize = ip_packet.len();
        proof {
            assert(n <= u64::MAX);
        }
        IpPacketRequest {
            version: CURRENT_VERSION,
            data: IpPacketRequestData::Data(DataRequest { ip_packet }),
        }
    }

    /// The correlation identifier of the message, if it has one.
    pub fn id(&self) -> (r: Option<u64>)
        ensures
            r == self@.data.spec_id(),
    {
        match &self.data {
            IpPacketRequestData::StaticConnect(request) => Some(request.request_id),
            IpPacketRequestData::DynamicConnect(request) => Some(request.request_id),
            IpPacketRequestData::Disconnect(request) => Some(request.request_id),
            IpPacketRequestData::Data(_) => None,
        }
    }

    /// The reply address of the message, if it has one.
    pub fn recipient(&self) -> (r: Option<&Recipient>)
        ensures
            r is Some <==> self@.data.spec_recipient() is Some,
            r is Some ==> r->0@ == self@.data.spec_recipient()->0,
    {
        match &self.data {
            IpPacketRequestData::StaticConnect(request) => Some(&request.reply_to),
            IpPacketRequestData::DynamicConnect(request) => Some(&request.reply_to),
            IpPacketRequestData::Disconnect(request) => Some(&request.reply_to),
            IpPacketRequestData::Data(_) => None,
        }
    }
}


/// Correlation contract: connect and disconnect messages answer to the
/// identifier drawn at construction, while a data frame is uncorrelated,
/// carrying neither an identifier nor a reply address.
pub proof fn lemma_correlation(v: RequestView)
    ensures
        (v.data is Data) <==> v.data.spec_id() is None,
        (v.data is Data) <==> v.data.spec_recipient() is None,
        v.data matches RequestDataView::StaticConnect { request_id, .. } ==> v.data.spec_id()
            == Option::Some(request_id),
        v.data matches RequestDataView::DynamicConnect { request_id, .. } ==> v.data.spec_id()
            == Option::Some(request_id),
        v.data matches RequestDataView::Disconnect { request_id, .. } ==> v.data.spec_id()
            == Option::Some(request_id),
{
}

} // verus!
