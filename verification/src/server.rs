//! The server's decisions: what to do with a new TCP connection, which UDP socket to bind
//! and which multicast groups to join, and how TLS material is read out of PEM files.
use vstd::prelude::*;
use vstd::utf8::valid_utf8;

use crate::config::{Config, IpAddress, SocketAddress};
use crate::http::{
    http_get_host, is_http_get, parse_out_host_from_http_get,
    redirect_response, redirect_response_bytes, starts_with_get,
};

verus! {

/// Calls `std::str::from_utf8`. Trusted: it succeeds exactly on well-formed UTF-8,
/// which vstd's `valid_utf8` defines.
#[verifier::external_body]
fn is_utf8(bytes: &[u8]) -> (r: bool)
    ensures
        r == valid_utf8(bytes@),
{
    std::str::from_utf8(bytes).is_ok()
}

/// What `serde_bare::from_slice::<(String, u64)>` yields on `bytes`: the text and the
/// number of a [`ServerTestStruct`], or `None` where it fails.
pub uninterp spec fn bare_test_struct_decoding(bytes: Seq<u8>) -> Option<(Seq<char>, u64)>;

/// Calls `serde_bare::from_slice` for a BARE `string` followed by a BARE `u64`, the layout
/// of [`ServerTestStruct`]. Trusted: its result is what [`bare_test_struct_decoding`]
/// names for `bytes`.
#[verifier::external_body]
fn bare_decode_test_struct(bytes: &[u8]) -> (r: Result<(String, u64), serde_bare::error::Error>)
    ensures
        match r {
            Ok((a, b)) => bare_test_struct_decoding(bytes@) == Some((a@, b)),
            Err(_) => bare_test_struct_decoding(bytes@).is_none(),
        },
{
    serde_bare::from_slice::<(String, u64)>(bytes)
}

/// The test message that a client may send in BARE over a bare TCP stream.
#[derive(Debug)]
pub struct ServerTestStruct {
    pub a: String,
    pub b: u64,
}

/// What the server does with a new TCP connection, decided from its first bytes.
#[derive(Debug)]
pub enum ConnectionPlan {
    /// An unencrypted HTTP GET: answer with these bytes (a 301 to `https://`), then close.
    Redirect(Vec<u8>),
    /// An unencrypted HTTP GET whose host name is not UTF-8: the connection ends in error.
    HostNotUtf8,
    /// A BARE test message was read from the connection's buffer.
    BareTestMessage(ServerTestStruct),
    /// Anything else is taken to be TLS, which then carries a websocket.
    Tls,
}

/// Reads a [`ServerTestStruct`] out of a connection's buffer, if the buffer starts with one.
pub fn probe_bare_test_message(buf: &[u8]) -> (r: Option<ServerTestStruct>)
    ensures
        match bare_test_struct_decoding(buf@) {
            Some((a, b)) => r matches Some(m) && m.a@ == a && m.b == b,
            None => r.is_none(),
        },
{
    match bare_decode_test_struct(buf) {
        Ok((a, b)) => Some(ServerTestStruct { a, b }),
        Err(_) => None,
    }
}

/// The plan for a connection whose first bytes are `peeked`, given what the BARE probe of
/// its buffer found. A plain HTTP GET is always turned away towards HTTPS: with a 301 that
/// names the host it asked for, or with an error when that host is not UTF-8.
pub fn classify_connection(peeked: &[u8], probe: Option<ServerTestStruct>) -> (plan:
    ConnectionPlan)
    ensures
        starts_with_get(peeked@) && valid_utf8(http_get_host(peeked@)) ==> (plan matches
            ConnectionPlan::Redirect(r) && r@ == redirect_response_bytes(http_get_host(peeked@))),
        starts_with_get(peeked@) && !valid_utf8(http_get_host(peeked@)) ==> plan
            is HostNotUtf8,
        !starts_with_get(peeked@) ==> match probe {
            Some(m) => plan matches ConnectionPlan::BareTestMessage(p) && p == m,
            None => plan is Tls,
        },
{
    if is_http_get(peeked) {
        let host = parse_out_host_from_http_get(peeked);
        if is_utf8(host.as_slice()) {
            ConnectionPlan::Redirect(redirect_response(host.as_slice()))
        } else {
            ConnectionPlan::HostNotUtf8
        }
    } else {
        match probe {
            Some(m) => ConnectionPlan::BareTestMessage(m),
            None => ConnectionPlan::Tls,
        }
    }
}

/// The plan for a new connection: `peeked` are the bytes seen so far, `buf` the whole
/// buffer they were peeked into. The buffer is probed for BARE only when the connection is
/// not a plain HTTP GET.
pub fn plan_connection(peeked: &[u8], buf: &[u8]) -> (plan: ConnectionPlan)
    ensures
        starts_with_get(peeked@) && valid_utf8(http_get_host(peeked@)) ==> (plan matches
            ConnectionPlan::Redirect(r) && r@ == redirect_response_bytes(http_get_host(peeked@))),
        starts_with_get(peeked@) && !valid_utf8(http_get_host(peeked@)) ==> plan
            is HostNotUtf8,
        !starts_with_get(peeked@) ==> match bare_test_struct_decoding(buf@) {
            Some((a, b)) => plan matches ConnectionPlan::BareTestMessage(m) && m.a@ == a && m.b
                == b,
            None => plan is Tls,
        },
{
    if is_http_get(peeked) {
        classify_connection(peeked, None)
    } else {
        let probe = probe_bare_test_message(buf);
        classify_connection(peeked, probe)
    }
}

/// A multicast group to join, and the local interface to join it on.
#[derive(Clone, Copy, Debug, PartialEq, Eq, Structural)]
pub enum MulticastJoin {
    /// An IPv4 group, joined on the interface with this address.
    V4 { v4_group: u32, interface_addr: u32 },
    /// An IPv6 group, joined on the interface with this index.
    V6 { v6_group: u128, interface_index: u32 },
}

/// How a group is joined: IPv4 groups on the unspecified address `0.0.0.0`, IPv6 groups on
/// interface 0 (the system's choice).
pub open spec fn join_for(group: IpAddress) -> MulticastJoin {
    match group {
        IpAddress::V4(g) => MulticastJoin::V4 { v4_group: g, interface_addr: 0 },
        IpAddress::V6(g) => MulticastJoin::V6 { v6_group: g, interface_index: 0 },
    }
}

/// The UDP side of the server: the socket to bind and the groups to join, in order.
#[derive(Debug)]
pub struct UdpPlan {
    pub bind: SocketAddress,
    pub joins: Vec<MulticastJoin>,
}

/// UDP binds the configured address and port (by default every IPv6 address, `[::]`),
/// and joins each configured multicast group in turn.
pub fn udp_plan(config: &Config) -> (plan: UdpPlan)
    ensures
        plan.bind == (SocketAddress { ip: config.server_listen_ip, port: config.server_listen_port }),
        plan.joins@.len() == config.server_multicast_groups@.len(),
        forall|i: int|
            0 <= i < plan.joins@.len() ==> #[trigger] plan.joins@[i] == join_for(
                config.server_multicast_groups@[i],
            ),
        forall|i: int|
            0 <= i < plan.joins@.len() ==> match config.server_multicast_groups@[i] {
                IpAddress::V4(g) => #[trigger] plan.joins@[i] == (MulticastJoin::V4 {
                    v4_group: g,
                    interface_addr: 0,
                }),
                IpAddress::V6(g) => plan.joins@[i] == (MulticastJoin::V6 {
                    v6_group: g,
                    interface_index: 0,
                }),
            },
{
    proof {
        law_groups_are_joined_on_the_unspecified_interface();
    }
    let bind = SocketAddress::new(config.server_listen_ip, config.server_listen_port);
    let groups = &config.server_multicast_groups;
    let mut joins: Vec<MulticastJoin> = Vec::new();
    let mut i: usize = 0;
    while i < groups.len()
        invariant
            i <= groups@.len(),
            joins@.len() == i,
            forall|k: int| 0 <= k < i ==> #[trigger] joins@[k] == join_for(groups@[k]),
        decreases groups@.len() - i,
    {
        let join = match groups[i] {
            IpAddress::V4(g) => MulticastJoin::V4 { v4_group: g, interface_addr: 0 },
            IpAddress::V6(g) => MulticastJoin::V6 { v6_group: g, interface_index: 0 },
        };
        joins.push(join);
        i = i + 1;
    }
    UdpPlan { bind, joins }
}

/// The kinds of websocket message.
#[derive(Clone, Copy, Debug, PartialEq, Eq, Structural)]
pub enum WebSocketMessageKind {
    Text,
    Binary,
    Ping,
    Pong,
    Close,
    Frame,
}

/// Whether a websocket session passes a message on: only text and binary messages are.
pub fn forwards_websocket_message(kind: WebSocketMessageKind) -> (r: bool)
    ensures
        r == (kind == WebSocketMessageKind::Text || kind == WebSocketMessageKind::Binary),
{
    match kind {
        WebSocketMessageKind::Text => true,
        WebSocketMessageKind::Binary => true,
        _ => false,
    }
}

/// Every IPv4 group is joined on the unspecified address `0.0.0.0`, and every IPv6 group on
/// interface 0; the group itself is kept as configured.
pub proof fn law_groups_are_joined_on_the_unspecified_interface()
    ensures
        forall|g: u32| #[trigger] join_for(IpAddress::V4(g)) == (MulticastJoin::V4 {
            v4_group: g,
            interface_addr: 0,
        }),
        forall|g: u128| #[trigger] join_for(IpAddress::V6(g)) == (MulticastJoin::V6 {
            v6_group: g,
            interface_index: 0,
        }),
{
}

} // verus!
