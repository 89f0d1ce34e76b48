use vstd::prelude::*;

verus! {

/// The resolved shape of the path a response to a connect or disconnect
/// message will take.
#[derive(Clone, Copy, Debug, PartialEq, Eq, Structural)]
pub struct ReplyRoute {
    /// Mix-node hops in addition to the entry and exit node; zero is the
    /// minimal path, client to entry to exit and back.
    pub hops: u8,
    /// Average per-hop delay for reply traffic, in milliseconds, as the raw
    /// bit image carried on the wire. Round-tripped but not enforced by the
    /// receiving router; kept for forward compatibility.
    pub avg_mix_delay: Option<u64>,
}

/// The hop count a response will use: an absent override defers to the
/// negotiated default, a present one replaces it, with zero selecting the
/// minimal path and trading anonymity strength for latency.
pub open spec fn effective_hops(reply_to_hops: Option<u8>, default_hops: u8) -> u8 {
    match reply_to_hops {
        Option::None => default_hops,
        Option::Some(n) => n,
    }
}

/// Whether the route is the minimal one, entry and exit only.
pub open spec fn is_minimal(route: ReplyRoute) -> bool {
    route.hops == 0
}

/// Resolves the optional overrides carried in a connect or disconnect
/// message against the network's default hop count.
pub fn resolve_reply_route(
    reply_to_hops: Option<u8>,
    reply_to_avg_mix_delays: Option<u64>,
    default_hops: u8,
) -> (r: ReplyRoute)
    ensures
        r.hops == effective_hops(reply_to_hops, default_hops),
        r.avg_mix_delay == reply_to_avg_mix_delays,
        is_minimal(r) <==> effective_hops(reply_to_hops, default_hops) == 0,
{
    let hops = match reply_to_hops {
        None => default_hops,
        Some(n) => n,
    };
    ReplyRoute { hops, avg_mix_delay: reply_to_avg_mix_delays }
}

} // verus!
