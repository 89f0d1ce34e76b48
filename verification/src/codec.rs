use vstd::prelude::*;
use crate::error::Error;
use crate::request::{
    IpAddr, IpAddrView, IpPacketRequest, IpPacketRequestData, Recipient, RecipientView,
    RequestDataView, RequestView,
};
use crate::CURRENT_VERSION;

verus! {

// The wire format is a fixed, deterministic, non-self-describing binary
// layout: one version byte, a variant tag, then the variant's fields in a
// stable order. Unsigned integers use a variable-length form: values below
// 251 are one raw byte; the markers 251, 252 and 253 announce a big-endian
// two-, four- or eight-byte value. Optional fields use one presence byte.
// Byte strings carry their length first; addresses are the fixed ninety-six
// byte image of their three parts.

/// Number of bytes in the wire image of a reply address.
pub const RECIPIENT_LEN: usize = 96;

pub open spec fn varint(v: u64) -> Seq<u8> {
    if v < 251 {
        seq![v as u8]
    } else if v < 0x10000 {
        seq![251u8, (v >> 8) as u8, v as u8]
    } else if v < 0x100000000 {
        seq![252u8, (v >> 24) as u8, (v >> 16) as u8, (v >> 8) as u8, v as u8]
    } else {
        seq![
            253u8,
            (v >> 56) as u8,
            (v >> 48) as u8,
            (v >> 40) as u8,
            (v >> 32) as u8,
            (v >> 24) as u8,
            (v >> 16) as u8,
            (v >> 8) as u8,
            v as u8,
        ]
    }
}

pub open spec fn enc_u64_fixed(v: u64) -> Seq<u8> {
    seq![
        (v >> 56) as u8,
        (v >> 48) as u8,
        (v >> 40) as u8,
        (v >> 32) as u8,
        (v >> 24) as u8,
        (v >> 16) as u8,
        (v >> 8) as u8,
        v as u8,
    ]
}

pub open spec fn enc_opt_u8(o: Option<u8>) -> Seq<u8> {
    match o {
        Option::None => seq![0u8],
        Option::Some(x) => seq![1u8, x],
    }
}

pub open spec fn enc_opt_delays(o: Option<u64>) -> Seq<u8> {
    match o {
        Option::None => seq![0u8],
        Option::Some(x) => seq![1u8] + enc_u64_fixed(x),
    }
}

pub open spec fn enc_ip(ip: IpAddrView) -> Seq<u8> {
    match ip {
        IpAddrView::V4(o) => seq![0u8] + o,
        IpAddrView::V6(o) => seq![1u8] + o,
    }
}

pub open spec fn enc_bytes(data: Seq<u8>) -> Seq<u8> {
    varint(data.len() as u64) + data
}

pub open spec fn enc_recipient(r: RecipientView) -> Seq<u8> {
    varint(RECIPIENT_LEN as u64) + r.bytes()
}

pub open spec fn enc_data(d: RequestDataView) -> Seq<u8> {
    match d {
        RequestDataView::StaticConnect {
            request_id,
            ip,
            reply_to,
            reply_to_hops,
            reply_to_avg_mix_delays,
        } => seq![0u8] + varint(request_id) + enc_ip(ip) + enc_recipient(reply_to) + enc_opt_u8(
            reply_to_hops,
        ) + enc_opt_delays(reply_to_avg_mix_delays),
        RequestDataView::DynamicConnect {
            request_id,
            reply_to,
            reply_to_hops,
            reply_to_avg_mix_delays,
        } => seq![1u8] + varint(request_id) + enc_recipient(reply_to) + enc_opt_u8(reply_to_hops)
            + enc_opt_delays(reply_to_avg_mix_delays),
        RequestDataView::Disconnect { request_id, reply_to } => seq![2u8] + varint(request_id)
            + enc_recipient(reply_to),
        RequestDataView::Data { ip_packet } => seq![3u8] + enc_bytes(ip_packet),
    }
}

/// The full wire image of a message.
pub open spec fn spec_encode(v: RequestView) -> Seq<u8> {
    seq![v.version] + enc_data(v.data)
}

pub open spec fn parse_varint(b: Seq<u8>, i: int) -> Option<(u64, int)> {
    if i < 0 || i >= b.len() {
        Option::None
    } else if b[i] < 251 {
        Option::Some(((b[i] as u64), i + 1))
    } else if b[i] == 251 {
        if i + 3 <= b.len() {
            Option::Some((((b[i + 1] as u64) << 8) | (b[i + 2] as u64), i + 3))
        } else {
            Option::None
        }
    } else if b[i] == 252 {
        if i + 5 <= b.len() {
            Option::Some(
                (
                    ((b[i + 1] as u64) << 24) | ((b[i + 2] as u64) << 16) | ((b[i + 3] as u64) << 8)
                        | (b[i + 4] as u64),
                    i + 5,
                ),
            )
        } else {
            Option::None
        }
    } else if b[i] == 253 {
        if i + 9 <= b.len() {
            Option::Some(
                (
                    ((b[i + 1] as u64) << 56) | ((b[i + 2] as u64) << 48) | ((b[i + 3] as u64)
                        << 40) | ((b[i + 4] as u64) << 32) | ((b[i + 5] as u64) << 24) | ((b[i
                        + 6] as u64) << 16) | ((b[i + 7] as u64) << 8) | (b[i + 8] as u64),
                    i + 9,
                ),
            )
        } else {
            Option::None
        }
    } else {
        Option::None
    }
}

pub open spec fn parse_u8(b: Seq<u8>, i: int) -> Option<(u8, int)> {
    if 0 <= i < b.len() {
        Option::Some((b[i], i + 1))
    } else {
        Option::None
    }
}

pub open spec fn parse_fixed(b: Seq<u8>, i: int, n: int) -> Option<(Seq<u8>, int)> {
    if 0 <= i && 0 <= n && i + n <= b.len() {
        Option::Some((b.subrange(i, i + n), i + n))
    } else {
        Option::None
    }
}

pub open spec fn parse_u64_fixed(b: Seq<u8>, i: int) -> Option<(u64, int)> {
    if 0 <= i && i + 8 <= b.len() {
        Option::Some(
            (
                ((b[i] as u64) << 56) | ((b[i + 1] as u64) << 48) | ((b[i + 2] as u64) << 40) | ((
                b[i + 3] as u64) << 32) | ((b[i + 4] as u64) << 24) | ((b[i + 5] as u64) << 16) | ((
                b[i + 6] as u64) << 8) | (b[i + 7] as u64),
                i + 8,
            ),
        )
    } else {
        Option::None
    }
}

pub open spec fn parse_opt_u8(b: Seq<u8>, i: int) -> Option<(Option<u8>, int)> {
    match parse_u8(b, i) {
        Option::None => Option::None,
        Option::Some((tag, j)) => {
            if tag == 0 {
                Option::Some((Option::None, j))
            } else if tag == 1 {
                match parse_u8(b, j) {
                    Option::None => Option::None,
                    Option::Some((x, k)) => Option::Some((Option::Some(x), k)),
                }
            } else {
                Option::None
            }
        },
    }
}

pub open spec fn parse_opt_delays(b: Seq<u8>, i: int) -> Option<(Option<u64>, int)> {
    match parse_u8(b, i) {
        Option::None => Option::None,
        Option::Some((tag, j)) => {
            if tag == 0 {
                Option::Some((Option::None, j))
            } else if tag == 1 {
                match parse_u64_fixed(b, j) {
                    Option::None => Option::None,
                    Option::Some((x, k)) => Option::Some((Option::Some(x), k)),
                }
            } else {
                Option::None
            }
        },
    }
}

pub open spec fn parse_ip(b: Seq<u8>, i: int) -> Option<(IpAddrView, int)> {
    match parse_u8(b, i) {
        Option::None => Option::None,
        Option::Some((tag, j)) => {
            if tag == 0 {
                match parse_fixed(b, j, 4) {
                    Option::None => Option::None,
                    Option::Some((o, k)) => Option::Some((IpAddrView::V4(o), k)),
                }
            } else if tag == 1 {
                match parse_fixed(b, j, 16) {
                    Option::None => Option::None,
                    Option::Some((o, k)) => Option::Some((IpAddrView::V6(o), k)),
                }
            } else {
                Option::None
            }
        },
    }
}

pub open spec fn parse_bytes(b: Seq<u8>, i: int) -> Option<(Seq<u8>, int)> {
    match parse_varint(b, i) {
        Option::None => Option::None,
        Option::Some((n, j)) => parse_fixed(b, j, n as int),
    }
}

pub open spec fn parse_recipient(b: Seq<u8>, i: int) -> Option<(RecipientView, int)> {
    match parse_bytes(b, i) {
        Option::None => Option::None,
        Option::Some((s, j)) => {
            if s.len() == RECIPIENT_LEN {
                Option::Some(
                    (
                        RecipientView {
                            identity: s.subrange(0, 32),
                            encryption_key: s.subrange(32, 64),
                            gateway: s.subrange(64, 96),
                        },
                        j,
                    ),
                )
            } else {
                Option::None
            }
        },
    }
}

pub open spec fn parse_static(b: Seq<u8>, i: int) -> Option<(RequestDataView, int)> {
    match parse_varint(b, i) {
        Option::None => Option::None,
        Option::Some((request_id, i1)) => match parse_ip(b, i1) {
            Option::None => Option::None,
            Option::Some((ip, i2)) => match parse_recipient(b, i2) {
                Option::None => Option::None,
                Option::Some((reply_to, i3)) => match parse_opt_u8(b, i3) {
                    Option::None => Option::None,
                    Option::Some((reply_to_hops, i4)) => match parse_opt_delays(b, i4) {
                        Option::None => Option::None,
                        Option::Some((reply_to_avg_mix_delays, i5)) => Option::Some(
                            (
                                RequestDataView::StaticConnect {
                                    request_id,
                                    ip,
                                    reply_to,
                                    reply_to_hops,
                                    reply_to_avg_mix_delays,
                                },
                                i5,
                            ),
                        ),
                    },
                },
            },
        },
    }
}

pub open spec fn parse_dynamic(b: Seq<u8>, i: int) -> Option<(RequestDataView, int)> {
    match parse_varint(b, i) {
        Option::None => Option::None,
        Option::Some((request_id, i1)) => match parse_recipient(b, i1) {
            Option::None => Option::None,
            Option::Some((reply_to, i2)) => match parse_opt_u8(b, i2) {
                Option::None => Option::None,
                Option::Some((reply_to_hops, i3)) => match parse_opt_delays(b, i3) {
                    Option::None => Option::None,
                    Option::Some((reply_to_avg_mix_delays, i4)) => Option::Some(
                        (
                            RequestDataView::DynamicConnect {
                                request_id,
                                reply_to,
                                reply_to_hops,
                                reply_to_avg_mix_delays,
                            },
                            i4,
                        ),
                    ),
                },
            },
        },
    }
}

pub open spec fn parse_disconnect(b: Seq<u8>, i: int) -> Option<(RequestDataView, int)> {
    match parse_varint(b, i) {
        Option::None => Option::None,
        Option::Some((request_id, i1)) => match parse_recipient(b, i1) {
            Option::None => Option::None,
            Option::Some((reply_to, i2)) => Option::Some(
                (RequestDataView::Disconnect { request_id, reply_to }, i2),
            ),
        },
    }
}

pub open spec fn parse_data(b: Seq<u8>, i: int) -> Option<(RequestDataView, int)> {
    match parse_bytes(b, i) {
        Option::None => Option::None,
        Option::Some((ip_packet, j)) => Option::Some(
            (RequestDataView::Data { ip_packet }, j),
        ),
    }
}

/// What any byte buffer decodes to: the version gate first, then the variant
/// tag, then the variant's fields, with nothing allowed to trail.
pub open spec fn spec_decode(b: Seq<u8>) -> Result<RequestView, Error> {
    if b.len() == 0 {
        Result::Err(Error::MalformedMessage)
    } else if b[0] != CURRENT_VERSION {
        Result::Err(Error::UnsupportedVersion)
    } else {
        match parse_varint(b, 1) {
            Option::None => Result::Err(Error::MalformedMessage),
            Option::Some((tag, i)) => {
                let pd = if tag == 0 {
                    parse_static(b, i)
                } else if tag == 1 {
                    parse_dynamic(b, i)
                } else if tag == 2 {
                    parse_disconnect(b, i)
                } else if tag == 3 {
                    parse_data(b, i)
                } else {
                    Option::None
                };
                match pd {
                    Option::None => Result::Err(Error::MalformedMessage),
                    Option::Some((d, j)) => {
                        if j == b.len() {
                            Result::Ok(RequestView { version: b[0], data: d })
                        } else {
                            Result::Err(Error::MalformedMessage)
                        }
                    },
                }
            },
        }
    }
}

fn write_varint(out: &mut Vec<u8>, v: u64)
    ensures
        final(out)@ == old(out)@ + varint(v),
{
    if v < 251 {
        out.push(#[verifier::truncate] (v as u8));
        proof {
            assert(out@ =~= old(out)@ + varint(v));
        }
    } else if v < 0x10000 {
        out.push(251u8);
        out.push(#[verifier::truncate] ((v >> 8) as u8));
        out.push(#[verifier::truncate] (v as u8));
        proof {
            assert(out@ =~= old(out)@ + varint(v));
        }
    } else if v < 0x100000000 {
        out.push(252u8);
        out.push(#[verifier::truncate] ((v >> 24) as u8));
        out.push(#[verifier::truncate] ((v >> 16) as u8));
        out.push(#[verifier::truncate] ((v >> 8) as u8));
        out.push(#[verifier::truncate] (v as u8));
        proof {
            assert(out@ =~= old(out)@ + varint(v));
        }
    } else {
        out.push(253u8);
        out.push(#[verifier::truncate] ((v >> 56) as u8));
        out.push(#[verifier::truncate] ((v >> 48) as u8));
        out.push(#[verifier::truncate] ((v >> 40) as u8));
        out.push(#[verifier::truncate] ((v >> 32) as u8));
        out.push(#[verifier::truncate] ((v >> 24) as u8));
        out.push(#[verifier::truncate] ((v >> 16) as u8));
        out.push(#[verifier::truncate] ((v >> 8) as u8));
        out.push(#[verifier::truncate] (v as u8));
        proof {
            assert(out@ =~= old(out)@ + varint(v));
        }
    }
}

pub(crate) fn write_u64_fixed(out: &mut Vec<u8>, v: u64)
    ensures
        final(out)@ == old(out)@ + enc_u64_fixed(v),
{
    out.push(#[verifier::truncate] ((v >> 56) as u8));
    out.push(#[verifier::truncate] ((v >> 48) as u8));
    out.push(#[verifier::truncate] ((v >> 40) as u8));
    out.push(#[verifier::truncate] ((v >> 32) as u8));
    out.push(#[verifier::truncate] ((v >> 24) as u8));
    out.push(#[verifier::truncate] ((v >> 16) as u8));
    out.push(#[verifier::truncate] ((v >> 8) as u8));
    out.push(#[verifier::truncate] (v as u8));
    proof {
        assert(out@ =~= old(out)@ + enc_u64_fixed(v));
    }
}

fn write_raw(out: &mut Vec<u8>, data: &Vec<u8>)
    ensures
        final(out)@ == old(out)@ + data@,
{
    let mut j: usize = 0;
    while j < data.len()
        invariant
            j <= data@.len(),
            out@ == old(out)@ + data@.subrange(0, j as int),
        decreases data@.len() - j,
    {
        out.push(data[j]);
        proof {
            assert(out@ =~= old(out)@ + data@.subrange(0, j + 1));
        }
        j = j + 1;
    }
    proof {
        assert(data@.subrange(0, data@.len() as int) =~= data@);
    }
}

fn write_opt_u8(out: &mut Vec<u8>, o: &Option<u8>)
    ensures
        final(out)@ == old(out)@ + enc_opt_u8(*o),
{
    match o {
        Option::None => {
            out.push(0u8);
            proof {
                assert(out@ =~= old(out)@ + enc_opt_u8(*o));
            }
        },
        Option::Some(x) => {
            out.push(1u8);
            out.push(*x);
            proof {
                assert(out@ =~= old(out)@ + enc_opt_u8(*o));
            }
        },
    }
}

fn write_opt_delays(out: &mut Vec<u8>, o: &Option<u64>)
    ensures
        final(out)@ == old(out)@ + enc_opt_delays(*o),
{
    match o {
        Option::None => {
            out.push(0u8);
            proof {
                assert(out@ =~= old(out)@ + enc_opt_delays(*o));
            }
        },
        Option::Some(x) => {
            out.push(1u8);
            write_u64_fixed(out, *x);
            proof {
                assert(out@ =~= old(out)@ + enc_opt_delays(*o));
            }
        },
    }
}

fn write_ip(out: &mut Vec<u8>, ip: &IpAddr)
    ensures
        final(out)@ == old(out)@ + enc_ip(ip@),
{
    match ip {
        IpAddr::V4(o) => {
            out.push(0u8);
            write_raw(out, o);
            proof {
                assert(out@ =~= old(out)@ + enc_ip(ip@));
            }
        },
        IpAddr::V6(o) => {
            out.push(1u8);
            write_raw(out, o);
            proof {
                assert(out@ =~= old(out)@ + enc_ip(ip@));
            }
        },
    }
}

fn write_recipient(out: &mut Vec<u8>, r: &Recipient)
    ensures
        final(out)@ == old(out)@ + enc_recipient(r@),
{
    write_varint(out, RECIPIENT_LEN as u64);
    write_raw(out, &r.identity);
    write_raw(out, &r.encryption_key);
    write_raw(out, &r.gateway);
    proof {
        assert(out@ =~= old(out)@ + enc_recipient(r@));
    }
}

fn write_bytes(out: &mut Vec<u8>, data: &Vec<u8>)
    ensures
        final(out)@ == old(out)@ + enc_bytes(data@),
{
    let n: usize = data.len();
    write_varint(out, n as u64);
    write_raw(out, data);
    proof {
        assert(out@ =~= old(out)@ + enc_bytes(data@));
    }
}

impl IpPacketRequest {
    /// Whether every field of the message has the shape the wire format fixes.
    pub fn is_encodable(&self) -> (r: bool)
        ensures
            r == self.encodable(),
    {
        match &self.data {
            IpPacketRequestData::StaticConnect(req) => {
                let ip_ok = match &req.ip {
                    IpAddr::V4(o) => o.len() == 4,
                    IpAddr::V6(o) => o.len() == 16,
                };
                ip_ok && req.reply_to.identity.len() == 32 && req.reply_to.encryption_key.len()
                    == 32 && req.reply_to.gateway.len() == 32
            },
            IpPacketRequestData::DynamicConnect(req) => {
                req.reply_to.identity.len() == 32 && req.reply_to.encryption_key.len() == 32
                    && req.reply_to.gateway.len() == 32
            },
            IpPacketRequestData::Disconnect(req) => {
                req.reply_to.identity.len() == 32 && req.reply_to.encryption_key.len() == 32
                    && req.reply_to.gateway.len() == 32
            },
            IpPacketRequestData::Data(req) => {
                let n: usize = req.ip_packet.len();
                proof {
                    assert(n <= u64::MAX);
                }
                true
            },
        }
    }

    /// Encodes the message into its wire image. Never fails for a well-formed
    /// in-memory value; a failure here marks an internal-logic fault, not a
    /// user-facing one.
    pub fn to_bytes(&self) -> (r: Result<Vec<u8>, Error>)
        ensures
            r is Ok <==> self.encodable(),
            r is Ok ==> r->Ok_0@ == spec_encode(self@),
            r is Err ==> r->Err_0 == Error::EncodingFailure,
    {
        if !self.is_encodable() {
            return Err(Error::EncodingFailure);
        }
        let mut out: Vec<u8> = Vec::new();
        out.push(self.version);
        match &self.data {
            IpPacketRequestData::StaticConnect(req) => {
                out.push(0u8);
                write_varint(&mut out, req.request_id);
                write_ip(&mut out, &req.ip);
                write_recipient(&mut out, &req.reply_to);
                write_opt_u8(&mut out, &req.reply_to_hops);
                write_opt_delays(&mut out, &req.reply_to_avg_mix_delays);
                proof {
                    assert(out@ =~= spec_encode(self@));
                }
            },
            IpPacketRequestData::DynamicConnect(req) => {
                out.push(1u8);
                write_varint(&mut out, req.request_id);
                write_recipient(&mut out, &req.reply_to);
                write_opt_u8(&mut out, &req.reply_to_hops);
                write_opt_delays(&mut out, &req.reply_to_avg_mix_delays);
                proof {
                    assert(out@ =~= spec_encode(self@));
                }
            },
            IpPacketRequestData::Disconnect(req) => {
                out.push(2u8);
                write_varint(&mut out, req.request_id);
                write_recipient(&mut out, &req.reply_to);
                proof {
                    assert(out@ =~= spec_encode(self@));
                }
            },
            IpPacketRequestData::Data(req) => {
                out.push(3u8);
                write_bytes(&mut out, &req.ip_packet);
                proof {
                    assert(out@ =~= spec_encode(self@));
                }
            },
        }
        Ok(out)
    }
}

/// A payload handed back by the anonymity transport: the reconstructed raw
/// bytes, and the anonymous tag of the sender where one was attached.
#[derive(Clone, Debug, PartialEq)]
pub struct ReconstructedMessage {
    pub message: Vec<u8>,
    pub sender_tag: Option<Vec<u8>>,
}

fn read_varint(b: &Vec<u8>, i: usize) -> (r: Option<(u64, usize)>)
    ensures
        r is Some <==> parse_varint(b@, i as int) is Some,
        r is Some ==> parse_varint(b@, i as int) == Option::Some((r.unwrap().0, r.unwrap().1 as int)),
        r is Some ==> i < r.unwrap().1 <= b@.len(),
{
    if i >= b.len() {
        return None;
    }
    let m = b[i];
    if m < 251 {
        Some((m as u64, i + 1))
    } else if m == 251 {
        if b.len() - i >= 3 {
            let v = ((b[i + 1] as u64) << 8) | (b[i + 2] as u64);
            Some((v, i + 3))
        } else {
            None
        }
    } else if m == 252 {
        if b.len() - i >= 5 {
            let v = ((b[i + 1] as u64) << 24) | ((b[i + 2] as u64) << 16) | ((b[i + 3] as u64)
                << 8) | (b[i + 4] as u64);
            Some((v, i + 5))
        } else {
            None
        }
    } else if m == 253 {
        if b.len() - i >= 9 {
            let v = ((b[i + 1] as u64) << 56) | ((b[i + 2] as u64) << 48) | ((b[i + 3] as u64)
                << 40) | ((b[i + 4] as u64) << 32) | ((b[i + 5] as u64) << 24) | ((b[i + 6] as u64)
                << 16) | ((b[i + 7] as u64) << 8) | (b[i + 8] as u64);
            Some((v, i + 9))
        } else {
            None
        }
    } else {
        None
    }
}

fn read_u8(b: &Vec<u8>, i: usize) -> (r: Option<(u8, usize)>)
    ensures
        r is Some <==> parse_u8(b@, i as int) is Some,
        r is Some ==> parse_u8(b@, i as int) == Option::Some((r.unwrap().0, r.unwrap().1 as int)),
        r is Some ==> i < r.unwrap().1 <= b@.len(),
{
    if i < b.len() {
        Some((b[i], i + 1))
    } else {
        None
    }
}

fn read_exact(b: &Vec<u8>, i: usize, n: usize) -> (r: Option<(Vec<u8>, usize)>)
    ensures
        r is Some <==> parse_fixed(b@, i as int, n as int) is Some,
        r is Some ==> parse_fixed(b@, i as int, n as int) == Option::Some(
            (r.unwrap().0@, r.unwrap().1 as int),
        ),
        r is Some ==> i <= r.unwrap().1 <= b@.len() && r.unwrap().1 == i + n,
{
    if i <= b.len() && n <= b.len() - i {
        let mut out: Vec<u8> = Vec::new();
        let mut j: usize = 0;
        while j < n
            invariant
                j <= n,
                i + n <= b@.len(),
                i + n <= usize::MAX,
                out@ == b@.subrange(i as int, i + j),
            decreases n - j,
        {
            out.push(b[i + j]);
            proof {
                assert(out@ =~= b@.subrange(i as int, i + j + 1));
            }
            j = j + 1;
        }
        Some((out, i + n))
    } else {
        None
    }
}

fn read_u64_fixed(b: &Vec<u8>, i: usize) -> (r: Option<(u64, usize)>)
    ensures
        r is Some <==> parse_u64_fixed(b@, i as int) is Some,
        r is Some ==> parse_u64_fixed(b@, i as int) == Option::Some((r.unwrap().0, r.unwrap().1 as int)),
        r is Some ==> i < r.unwrap().1 <= b@.len(),
{
    if i <= b.len() && 8 <= b.len() - i {
        let v = ((b[i] as u64) << 56) | ((b[i + 1] as u64) << 48) | ((b[i + 2] as u64) << 40) | ((
        b[i + 3] as u64) << 32) | ((b[i + 4] as u64) << 24) | ((b[i + 5] as u64) << 16) | ((b[i
            + 6] as u64) << 8) | (b[i + 7] as u64);
        Some((v, i + 8))
    } else {
        None
    }
}

fn read_opt_u8(b: &Vec<u8>, i: usize) -> (r: Option<(Option<u8>, usize)>)
    ensures
        r is Some <==> parse_opt_u8(b@, i as int) is Some,
        r is Some ==> parse_opt_u8(b@, i as int) == Option::Some((r.unwrap().0, r.unwrap().1 as int)),
        r is Some ==> i < r.unwrap().1 <= b@.len(),
{
    match read_u8(b, i) {
        None => None,
        Some((tag, j)) => {
            if tag == 0 {
                Some((None, j))
            } else if tag == 1 {
                match read_u8(b, j) {
                    None => None,
                    Some((x, k)) => Some((Some(x), k)),
                }
            } else {
                None
            }
        },
    }
}

fn read_opt_delays(b: &Vec<u8>, i: usize) -> (r: Option<(Option<u64>, usize)>)
    ensures
        r is Some <==> parse_opt_delays(b@, i as int) is Some,
        r is Some ==> parse_opt_delays(b@, i as int) == Option::Some((r.unwrap().0, r.unwrap().1 as int)),
        r is Some ==> i < r.unwrap().1 <= b@.len(),
{
    match read_u8(b, i) {
        None => None,
        Some((tag, j)) => {
            if tag == 0 {
                Some((None, j))
            } else if tag == 1 {
                match read_u64_fixed(b, j) {
                    None => None,
                    Some((x, k)) => Some((Some(x), k)),
                }
            } else {
                None
            }
        },
    }
}

fn read_ip(b: &Vec<u8>, i: usize) -> (r: Option<(IpAddr, usize)>)
    ensures
        r is Some <==> parse_ip(b@, i as int) is Some,
        r is Some ==> parse_ip(b@, i as int) == Option::Some((r.unwrap().0@, r.unwrap().1 as int)),
        r is Some ==> i < r.unwrap().1 <= b@.len() && r.unwrap().0.wf(),
{
    match read_u8(b, i) {
        None => None,
        Some((tag, j)) => {
            if tag == 0 {
                match read_exact(b, j, 4) {
                    None => None,
                    Some((o, k)) => Some((IpAddr::V4(o), k)),
                }
            } else if tag == 1 {
                match read_exact(b, j, 16) {
                    None => None,
                    Some((o, k)) => Some((IpAddr::V6(o), k)),
                }
            } else {
                None
            }
        },
    }
}

fn read_recipient(b: &Vec<u8>, i: usize) -> (r: Option<(Recipient, usize)>)
    ensures
        r is Some <==> parse_recipient(b@, i as int) is Some,
        r is Some ==> parse_recipient(b@, i as int) == Option::Some((r.unwrap().0@, r.unwrap().1 as int)),
        r is Some ==> i < r.unwrap().1 <= b@.len() && r.unwrap().0.wf(),
{
    match read_varint(b, i) {
        None => None,
        Some((n, j)) => {
            if n != RECIPIENT_LEN as u64 {
                proof {
                    // a length other than ninety-six can neither pass the
                    // fixed-size cut nor the length test of the parser
                    if parse_fixed(b@, j as int, n as int) is Some {
                        assert(parse_fixed(b@, j as int, n as int).unwrap().0.len() == n as int);
                    }
                }
                None
            } else {
                match read_exact(b, j, 32) {
                    None => None,
                    Some((identity, j1)) => match read_exact(b, j1, 32) {
                        None => None,
                        Some((encryption_key, j2)) => match read_exact(b, j2, 32) {
                            None => None,
                            Some((gateway, j3)) => {
                                proof {
                                    let s = parse_fixed(b@, j as int, 96).unwrap().0;
                                    assert(s.subrange(0, 32) =~= b@.subrange(j as int, j + 32));
                                    assert(s.subrange(32, 64) =~= b@.subrange(j + 32, j + 64));
                                    assert(s.subrange(64, 96) =~= b@.subrange(j + 64, j + 96));
                                }
                                let r = Recipient { identity, encryption_key, gateway };
                                Some((r, j3))
                            },
                        },
                    },
                }
            }
        },
    }
}

impl IpPacketRequest {
    /// Decodes the payload reconstructed by the anonymity transport back into
    /// a message, applying the version gate first and refusing truncated,
    /// trailing or otherwise malformed byte layouts.
    pub fn from_reconstructed_message(message: &ReconstructedMessage) -> (r: Result<
        IpPacketRequest,
        Error,
    >)
        ensures
            r is Ok <==> spec_decode(message.message@) is Ok,
            r is Ok ==> r->Ok_0@ == spec_decode(message.message@)->Ok_0,
            r is Ok ==> r->Ok_0.wf(),
            r is Err ==> r->Err_0 == spec_decode(message.message@)->Err_0,
    {
        let b = &message.message;
        if b.len() == 0 {
            return Err(Error::MalformedMessage);
        }
        let version = b[0];
        if version != CURRENT_VERSION {
            return Err(Error::UnsupportedVersion);
        }
        let (tag, i) = match read_varint(b, 1) {
            None => {
                return Err(Error::MalformedMessage);
            },
            Some(p) => p,
        };
        let parsed: Option<(IpPacketRequestData, usize)> = if tag == 0 {
            match read_varint(b, i) {
                None => None,
                Some((request_id, i1)) => match read_ip(b, i1) {
                    None => None,
                    Some((ip, i2)) => match read_recipient(b, i2) {
                        None => None,
                        Some((reply_to, i3)) => match read_opt_u8(b, i3) {
                            None => None,
                            Some((reply_to_hops, i4)) => match read_opt_delays(b, i4) {
                                None => None,
                                Some((reply_to_avg_mix_delays, i5)) => Some(
                                    (
                                        IpPacketRequestData::StaticConnect(
                                            crate::request::StaticConnectRequest {
                                                request_id,
                                                ip,
                                                reply_to,
                                                reply_to_hops,
                                                reply_to_avg_mix_delays,
                                            },
                                        ),
                                        i5,
                                    ),
                                ),
                            },
                        },
                    },
                },
            }
        } else if tag == 1 {
            match read_varint(b, i) {
                None => None,
                Some((request_id, i1)) => match read_recipient(b, i1) {
                    None => None,
                    Some((reply_to, i2)) => match read_opt_u8(b, i2) {
                        None => None,
                        Some((reply_to_hops, i3)) => match read_opt_delays(b, i3) {
                            None => None,
                            Some((reply_to_avg_mix_delays, i4)) => Some(
                                (
                                    IpPacketRequestData::DynamicConnect(
                                        crate::request::DynamicConnectRequest {
                                            request_id,
                                            reply_to,
                                            reply_to_hops,
                                            reply_to_avg_mix_delays,
                                        },
                                    ),
                                    i4,
                                ),
                            ),
                        },
                    },
                },
            }
        } else if tag == 2 {
            match read_varint(b, i) {
                None => None,
                Some((request_id, i1)) => match read_recipient(b, i1) {
                    None => None,
                    Some((reply_to, i2)) => Some(
                        (
                            IpPacketRequestData::Disconnect(
                                crate::request::DisconnectRequest { request_id, reply_to },
                            ),
                            i2,
                        ),
                    ),
                },
            }
        } else if tag == 3 {
            match read_varint(b, i) {
                None => None,
                Some((n, j)) => {
                    if n > usize::MAX as u64 {
                        proof {
                            // a fragment longer than the address space cannot
                            // fit in the buffer either
                            assert(parse_fixed(b@, j as int, n as int) is None);
                        }
                        None
                    } else {
                        match read_exact(b, j, n as usize) {
                            None => None,
                            Some((ip_packet, k)) => Some(
                                (
                                    IpPacketRequestData::Data(
                                        crate::request::DataRequest { ip_packet },
                                    ),
                                    k,
                                ),
                            ),
                        }
                    }
                },
            }
        } else {
            None
        };
        match parsed {
            None => Err(Error::MalformedMessage),
            Some((data, j)) => {
                if j == b.len() {
                    let out = IpPacketRequest { version, data };
                    proof {
                        assert(out@.data =~= spec_decode(b@)->Ok_0.data);
                        assert(out@ =~= spec_decode(b@)->Ok_0);
                    }
                    Ok(out)
                } else {
                    Err(Error::MalformedMessage)
                }
            },
        }
    }
}

proof fn lemma_split_subrange(b: Seq<u8>, i: int, w1: Seq<u8>, w2: Seq<u8>)
    requires
        0 <= i,
        i + w1.len() + w2.len() <= b.len(),
        b.subrange(i, i + w1.len() + w2.len()) == w1 + w2,
    ensures
        b.subrange(i, i + w1.len() as int) == w1,
        b.subrange(i + w1.len() as int, i + w1.len() + w2.len()) == w2,
{
    let l1 = w1.len() as int;
    let r = i + w1.len() + w2.len();
    let full = b.subrange(i, r);
    assert forall|j: int| 0 <= j < l1 implies #[trigger] b.subrange(i, i + l1)[j] == w1[j] by {
        assert(full[j] == (w1 + w2)[j]);
    }
    assert(b.subrange(i, i + l1) =~= w1);
    assert forall|j: int| 0 <= j < w2.len() implies #[trigger] b.subrange(i + l1, r)[j] == w2[j] by {
        assert(full[l1 + j] == (w1 + w2)[l1 + j]);
    }
    assert(b.subrange(i + l1, r) =~= w2);
}

proof fn lemma_parse_varint_at(b: Seq<u8>, i: int, v: u64)
    requires
        0 <= i,
        i + varint(v).len() <= b.len(),
        b.subrange(i, i + varint(v).len() as int) == varint(v),
    ensures
        parse_varint(b, i) == Option::Some((v, i + varint(v).len() as int)),
{
    let w = varint(v);
    let sub = b.subrange(i, i + w.len() as int);
    if v < 251 {
        assert(b[i] == sub[0]);
        assert((v as u8) < 251 && ((v as u8) as u64) == v) by (bit_vector)
            requires
                v < 251,
        ;
    } else if v < 0x10000 {
        assert(b[i] == sub[0]);
        assert(b[i + 1] == sub[1]);
        assert(b[i + 2] == sub[2]);
        assert(!((251u8) < 251));
        assert(((((v >> 8) as u8) as u64) << 8) | ((v as u8) as u64) == v) by (bit_vector)
            requires
                v < 0x10000,
        ;
    } else if v < 0x100000000 {
        assert(b[i] == sub[0]);
        assert(b[i + 1] == sub[1]);
        assert(b[i + 2] == sub[2]);
        assert(b[i + 3] == sub[3]);
        assert(b[i + 4] == sub[4]);
        assert(((((v >> 24) as u8) as u64) << 24) | ((((v >> 16) as u8) as u64) << 16) | ((((v
            >> 8) as u8) as u64) << 8) | ((v as u8) as u64) == v) by (bit_vector)
            requires
                v < 0x100000000,
        ;
    } else {
        assert(b[i] == sub[0]);
        assert(b[i + 1] == sub[1]);
        assert(b[i + 2] == sub[2]);
        assert(b[i + 3] == sub[3]);
        assert(b[i + 4] == sub[4]);
        assert(b[i + 5] == sub[5]);
        assert(b[i + 6] == sub[6]);
        assert(b[i + 7] == sub[7]);
        assert(b[i + 8] == sub[8]);
        assert(((((v >> 56) as u8) as u64) << 56) | ((((v >> 48) as u8) as u64) << 48) | ((((v
            >> 40) as u8) as u64) << 40) | ((((v >> 32) as u8) as u64) << 32) | ((((v
            >> 24) as u8) as u64) << 24) | ((((v >> 16) as u8) as u64) << 16) | ((((v
            >> 8) as u8) as u64) << 8) | ((v as u8) as u64) == v) by (bit_vector);
    }
}

proof fn lemma_parse_u64_fixed_at(b: Seq<u8>, i: int, v: u64)
    requires
        0 <= i,
        i + 8 <= b.len(),
        b.subrange(i, i + 8) == enc_u64_fixed(v),
    ensures
        parse_u64_fixed(b, i) == Option::Some((v, i + 8)),
{
    let sub = b.subrange(i, i + 8);
    assert(b[i] == sub[0]);
    assert(b[i + 1] == sub[1]);
    assert(b[i + 2] == sub[2]);
    assert(b[i + 3] == sub[3]);
    assert(b[i + 4] == sub[4]);
    assert(b[i + 5] == sub[5]);
    assert(b[i + 6] == sub[6]);
    assert(b[i + 7] == sub[7]);
    assert(((((v >> 56) as u8) as u64) << 56) | ((((v >> 48) as u8) as u64) << 48) | ((((v
        >> 40) as u8) as u64) << 40) | ((((v >> 32) as u8) as u64) << 32) | ((((v
        >> 24) as u8) as u64) << 24) | ((((v >> 16) as u8) as u64) << 16) | ((((v
        >> 8) as u8) as u64) << 8) | ((v as u8) as u64) == v) by (bit_vector);
}

proof fn lemma_parse_opt_u8_at(b: Seq<u8>, i: int, o: Option<u8>)
    requires
        0 <= i,
        i + enc_opt_u8(o).len() <= b.len(),
        b.subrange(i, i + enc_opt_u8(o).len() as int) == enc_opt_u8(o),
    ensures
        parse_opt_u8(b, i) == Option::Some((o, i + enc_opt_u8(o).len() as int)),
{
    let sub = b.subrange(i, i + enc_opt_u8(o).len() as int);
    match o {
        Option::None => {
            assert(b[i] == sub[0]);
        },
        Option::Some(x) => {
            assert(b[i] == sub[0]);
            assert(b[i + 1] == sub[1]);
        },
    }
}

proof fn lemma_parse_opt_delays_at(b: Seq<u8>, i: int, o: Option<u64>)
    requires
        0 <= i,
        i + enc_opt_delays(o).len() <= b.len(),
        b.subrange(i, i + enc_opt_delays(o).len() as int) == enc_opt_delays(o),
    ensures
        parse_opt_delays(b, i) == Option::Some((o, i + enc_opt_delays(o).len() as int)),
{
    let sub = b.subrange(i, i + enc_opt_delays(o).len() as int);
    match o {
        Option::None => {
            assert(b[i] == sub[0]);
        },
        Option::Some(x) => {
            lemma_split_subrange(b, i, seq![1u8], enc_u64_fixed(x));
            assert(b[i] == b.subrange(i, i + 1)[0]);
            lemma_parse_u64_fixed_at(b, i + 1, x);
        },
    }
}

proof fn lemma_parse_ip_at(b: Seq<u8>, i: int, ip: IpAddrView)
    requires
        0 <= i,
        ip.wf(),
        i + enc_ip(ip).len() <= b.len(),
        b.subrange(i, i + enc_ip(ip).len() as int) == enc_ip(ip),
    ensures
        parse_ip(b, i) == Option::Some((ip, i + enc_ip(ip).len() as int)),
{
    match ip {
        IpAddrView::V4(o) => {
            lemma_split_subrange(b, i, seq![0u8], o);
            assert(b[i] == b.subrange(i, i + 1)[0]);
            assert(parse_fixed(b, i + 1, 4) == Option::Some((o, i + 5)));
        },
        IpAddrView::V6(o) => {
            lemma_split_subrange(b, i, seq![1u8], o);
            assert(b[i] == b.subrange(i, i + 1)[0]);
            assert(parse_fixed(b, i + 1, 16) == Option::Some((o, i + 17)));
        },
    }
}

proof fn lemma_parse_recipient_at(b: Seq<u8>, i: int, r: RecipientView)
    requires
        0 <= i,
        r.wf(),
        i + enc_recipient(r).len() <= b.len(),
        b.subrange(i, i + enc_recipient(r).len() as int) == enc_recipient(r),
    ensures
        parse_recipient(b, i) == Option::Some((r, i + enc_recipient(r).len() as int)),
{
    assert(varint(RECIPIENT_LEN as u64) =~= seq![96u8]);
    assert(r.bytes().len() == 96);
    lemma_split_subrange(b, i, seq![96u8], r.bytes());
    assert(b[i] == b.subrange(i, i + 1)[0]);
    assert(parse_varint(b, i) == Option::Some((96u64, i + 1)));
    let s = b.subrange(i + 1, i + 97);
    assert(s == r.bytes());
    assert(parse_fixed(b, i + 1, 96) == Option::Some((s, i + 97)));
    assert(s.subrange(0, 96) =~= s);
    lemma_split_subrange(s, 0, r.identity + r.encryption_key, r.gateway);
    lemma_split_subrange(s, 0, r.identity, r.encryption_key);
    assert(parse_recipient(b, i).unwrap().0 =~= r);
}

proof fn lemma_parse_bytes_at(b: Seq<u8>, i: int, data: Seq<u8>)
    requires
        0 <= i,
        data.len() <= u64::MAX,
        i + enc_bytes(data).len() <= b.len(),
        b.subrange(i, i + enc_bytes(data).len() as int) == enc_bytes(data),
    ensures
        parse_bytes(b, i) == Option::Some((data, i + enc_bytes(data).len() as int)),
{
    let n = data.len() as u64;
    let vl = varint(n).len() as int;
    lemma_split_subrange(b, i, varint(n), data);
    lemma_parse_varint_at(b, i, n);
    assert(parse_fixed(b, i + vl, n as int) == Option::Some(
        (b.subrange(i + vl, i + vl + n as int), i + vl + n as int),
    ));
    assert(b.subrange(i + vl, i + vl + n as int) == data);
}

/// Round trip: every validly constructed message decodes from its own wire
/// image back to itself.
#[verifier::rlimit(100)]
#[verifier::spinoff_prover]
pub proof fn lemma_round_trip(v: RequestView)
    requires
        v.wf(),
    ensures
        spec_decode(spec_encode(v)) == Result::<RequestView, Error>::Ok(v),
{
    let b = spec_encode(v);
    let ed = enc_data(v.data);
    assert(b == seq![v.version] + ed);
    assert(b.subrange(0, b.len() as int) =~= b);
    lemma_split_subrange(b, 0, seq![v.version], ed);
    assert(b[0] == b.subrange(0, 1)[0]);
    assert(b[0] == v.version);
    match v.data {
        RequestDataView::StaticConnect {
            request_id,
            ip,
            reply_to,
            reply_to_hops,
            reply_to_avg_mix_delays,
        } => {
            let t = seq![0u8];
            let s1 = varint(request_id);
            let s2 = enc_ip(ip);
            let s3 = enc_recipient(reply_to);
            let s4 = enc_opt_u8(reply_to_hops);
            let s5 = enc_opt_delays(reply_to_avg_mix_delays);
            let p1 = t + s1;
            let p2 = p1 + s2;
            let p3 = p2 + s3;
            let p4 = p3 + s4;
            assert(ed == p4 + s5);
            lemma_split_subrange(b, 1, p4, s5);
            lemma_split_subrange(b, 1, p3, s4);
            lemma_split_subrange(b, 1, p2, s3);
            lemma_split_subrange(b, 1, p1, s2);
            lemma_split_subrange(b, 1, t, s1);
            assert(b[1] == b.subrange(1, 2)[0]);
            assert(parse_varint(b, 1) == Option::Some((0u64, 2int)));
            let o2 = 2 + s1.len() as int;
            let o3 = o2 + s2.len() as int;
            let o4 = o3 + s3.len() as int;
            let o5 = o4 + s4.len() as int;
            let o6 = o5 + s5.len() as int;
            lemma_parse_varint_at(b, 2, request_id);
            lemma_parse_ip_at(b, o2, ip);
            lemma_parse_recipient_at(b, o3, reply_to);
            lemma_parse_opt_u8_at(b, o4, reply_to_hops);
            lemma_parse_opt_delays_at(b, o5, reply_to_avg_mix_delays);
            assert(parse_static(b, 2) == Option::Some((v.data, o6)));
            assert(b.len() == o6);
            assert(RequestView { version: b[0], data: v.data } =~= v);
        },
        RequestDataView::DynamicConnect {
            request_id,
            reply_to,
            reply_to_hops,
            reply_to_avg_mix_delays,
        } => {
            let t = seq![1u8];
            let s1 = varint(request_id);
            let s2 = enc_recipient(reply_to);
            let s3 = enc_opt_u8(reply_to_hops);
            let s4 = enc_opt_delays(reply_to_avg_mix_delays);
            let p1 = t + s1;
            let p2 = p1 + s2;
            let p3 = p2 + s3;
            assert(ed == p3 + s4);
            lemma_split_subrange(b, 1, p3, s4);
            lemma_split_subrange(b, 1, p2, s3);
            lemma_split_subrange(b, 1, p1, s2);
            lemma_split_subrange(b, 1, t, s1);
            assert(b[1] == b.subrange(1, 2)[0]);
            assert(parse_varint(b, 1) == Option::Some((1u64, 2int)));
            let o2 = 2 + s1.len() as int;
            let o3 = o2 + s2.len() as int;
            let o4 = o3 + s3.len() as int;
            let o5 = o4 + s4.len() as int;
            lemma_parse_varint_at(b, 2, request_id);
            lemma_parse_recipient_at(b, o2, reply_to);
            lemma_parse_opt_u8_at(b, o3, reply_to_hops);
            lemma_parse_opt_delays_at(b, o4, reply_to_avg_mix_delays);
            assert(parse_dynamic(b, 2) == Option::Some((v.data, o5)));
            assert(b.len() == o5);
            assert(RequestView { version: b[0], data: v.data } =~= v);
        },
        RequestDataView::Disconnect { request_id, reply_to } => {
            let t = seq![2u8];
            let s1 = varint(request_id);
            let s2 = enc_recipient(reply_to);
            let p1 = t + s1;
            assert(ed == p1 + s2);
            lemma_split_subrange(b, 1, p1, s2);
            lemma_split_subrange(b, 1, t, s1);
            assert(b[1] == b.subrange(1, 2)[0]);
            assert(parse_varint(b, 1) == Option::Some((2u64, 2int)));
            let o2 = 2 + s1.len() as int;
            let o3 = o2 + s2.len() as int;
            lemma_parse_varint_at(b, 2, request_id);
            lemma_parse_recipient_at(b, o2, reply_to);
            assert(parse_disconnect(b, 2) == Option::Some((v.data, o3)));
            assert(b.len() == o3);
            assert(RequestView { version: b[0], data: v.data } =~= v);
        },
        RequestDataView::Data { ip_packet } => {
            let t = seq![3u8];
            let s1 = enc_bytes(ip_packet);
            assert(ed == t + s1);
            lemma_split_subrange(b, 1, t, s1);
            assert(b[1] == b.subrange(1, 2)[0]);
            assert(parse_varint(b, 1) == Option::Some((3u64, 2int)));
            let o2 = 2 + s1.len() as int;
            lemma_parse_bytes_at(b, 2, ip_packet);
            assert(parse_data(b, 2) == Option::Some((v.data, o2)));
            assert(b.len() == o2);
            assert(RequestView { version: b[0], data: v.data } =~= v);
        },
    }
}

/// Version gate: a buffer whose leading byte is not the current version is
/// rejected as unsupported, whatever the remaining payload holds.
pub proof fn lemma_version_gate(b: Seq<u8>)
    requires
        b.len() > 0,
        b[0] != CURRENT_VERSION,
    ensures
        spec_decode(b) == Result::<RequestView, Error>::Err(Error::UnsupportedVersion),
{
}

/// A present zero-hop override survives the round trip distinct from an
/// absent one: the decoded value preserves the difference.
pub proof fn lemma_hop_override_distinct(
    request_id: u64,
    ip: IpAddrView,
    reply_to: RecipientView,
    delays: Option<u64>,
)
    requires
        ip.wf(),
        reply_to.wf(),
    ensures
        ({
            let with_zero = RequestView {
                version: CURRENT_VERSION,
                data: RequestDataView::StaticConnect {
                    request_id,
                    ip,
                    reply_to,
                    reply_to_hops: Option::Some(0u8),
                    reply_to_avg_mix_delays: delays,
                },
            };
            let without = RequestView {
                version: CURRENT_VERSION,
                data: RequestDataView::StaticConnect {
                    request_id,
                    ip,
                    reply_to,
                    reply_to_hops: Option::None,
                    reply_to_avg_mix_delays: delays,
                },
            };
            spec_decode(spec_encode(with_zero)) == Result::<RequestView, Error>::Ok(with_zero)
                && spec_decode(spec_encode(without)) == Result::<RequestView, Error>::Ok(without)
                && with_zero != without
        }),
{
    let with_zero = RequestView {
        version: CURRENT_VERSION,
        data: RequestDataView::StaticConnect {
            request_id,
            ip,
            reply_to,
            reply_to_hops: Option::Some(0u8),
            reply_to_avg_mix_delays: delays,
        },
    };
    let without = RequestView {
        version: CURRENT_VERSION,
        data: RequestDataView::StaticConnect {
            request_id,
            ip,
            reply_to,
            reply_to_hops: Option::None,
            reply_to_avg_mix_delays: delays,
        },
    };
    lemma_round_trip(with_zero);
    lemma_round_trip(without);
}

} // verus!
