//! What the node reads out of transport messages, as plain data.
//!
//! Wire encodings themselves are the transports' business; the checking and
//! conversion of what they carry — IP addresses arriving as tagged byte
//! strings or as chunked arrays, and peer references built from them — is
//! ring logic and lives here, exact contracts included.

use vstd::prelude::*;

use crate::addr::{Addr, Ip};
use crate::{Node, NodeId};

verus! {

/// The version tag carried beside a byte-string IP address.
pub const IP_VERSION_V4: i32 = 4;

/// The version tag carried beside a byte-string IP address.
pub const IP_VERSION_V6: i32 = 6;

/// An IP address as one transport ships it: a version tag and the raw
/// address bytes (four for v4, sixteen for v6).
#[derive(Clone, Debug)]
pub struct IpAddress {
    pub version: i32,
    pub address: Vec<u8>,
}

impl IpAddress {
    /// Whether the version tag says v4.
    pub fn is_v4(&self) -> (r: bool)
        ensures
            r == (self.version == IP_VERSION_V4),
    {
        self.version == IP_VERSION_V4
    }

    /// Whether the version tag says v6.
    pub fn is_v6(&self) -> (r: bool)
        ensures
            r == (self.version == IP_VERSION_V6),
    {
        self.version == IP_VERSION_V6
    }
}

/// Why an IP address failed to parse.
#[derive(Clone, Debug)]
pub struct IpParseError {
    pub msg: String,
}

impl IpParseError {
    /// An error carrying `msg`.
    pub fn new(msg: &str) -> (e: IpParseError)
        ensures
            e.msg@ == msg@,
    {
        IpParseError { msg: msg.to_string() }
    }
}

/// Segment `i` of a v6 address shipped as sixteen big-endian bytes.
pub open spec fn v6_segment(bytes: Seq<u8>, i: int) -> u16 {
    (bytes[2 * i] * 256 + bytes[2 * i + 1]) as u16
}

/// Whether a tagged byte-string IP address is well formed: a v4 tag with
/// exactly four bytes, or a v6 tag with exactly sixteen.
pub open spec fn ip_address_valid(ip: IpAddress) -> bool {
    ||| (ip.version == IP_VERSION_V4 && ip.address@.len() == 4)
    ||| (ip.version == IP_VERSION_V6 && ip.address@.len() == 16)
}

/// Parse a tagged byte-string IP address: four bytes under a v4 tag become
/// the octets, sixteen bytes under a v6 tag become eight big-endian
/// segments, and anything else is rejected with a message naming what was
/// wrong.
pub fn parse_ip_address(ip: &IpAddress) -> (r: Result<Ip, IpParseError>)
    ensures
        r is Ok <==> ip_address_valid(*ip),
        ip.version == IP_VERSION_V4 && ip.address@.len() == 4 ==> r == Ok::<Ip, IpParseError>(
            Ip::V4([ip.address@[0], ip.address@[1], ip.address@[2], ip.address@[3]]),
        ),
        ip.version == IP_VERSION_V6 && ip.address@.len() == 16 ==> (r matches Ok(Ip::V6(s))
            && (forall|i: int| 0 <= i < 8 ==> s@[i] == v6_segment(ip.address@, i))),
        ip.version == IP_VERSION_V4 && ip.address@.len() != 4 ==> (r matches Err(e) && e.msg@
            == "Invalid IPv4 address"@),
        ip.version == IP_VERSION_V6 && ip.address@.len() != 16 ==> (r matches Err(e) && e.msg@
            == "Invalid IPv6 address"@),
        ip.version != IP_VERSION_V4 && ip.version != IP_VERSION_V6 ==> (r matches Err(e) && e.msg@
            == "Invalid IP address"@),
{
    if ip.is_v4() && ip.address.len() != 4 {
        Err(IpParseError::new("Invalid IPv4 address"))
    } else if ip.is_v6() && ip.address.len() != 16 {
        Err(IpParseError::new("Invalid IPv6 address"))
    } else if ip.is_v4() {
        let a = &ip.address;
        Ok(Ip::V4([a[0], a[1], a[2], a[3]]))
    } else if ip.is_v6() {
        let a = &ip.address;
        let segs: [u16; 8] = [
            (a[0] as u16) * 256 + (a[1] as u16),
            (a[2] as u16) * 256 + (a[3] as u16),
            (a[4] as u16) * 256 + (a[5] as u16),
            (a[6] as u16) * 256 + (a[7] as u16),
            (a[8] as u16) * 256 + (a[9] as u16),
            (a[10] as u16) * 256 + (a[11] as u16),
            (a[12] as u16) * 256 + (a[13] as u16),
            (a[14] as u16) * 256 + (a[15] as u16),
        ];
        Ok(Ip::V6(segs))
    } else {
        Err(IpParseError::new("Invalid IP address"))
    }
}

/// A peer reference read off the wire: the id is taken as sent, the address
/// must parse.
pub fn node_from_wire(id: u64, ip: &IpAddress, port: u16) -> (r: Result<Node, IpParseError>)
    ensures
        r is Ok <==> ip_address_valid(*ip),
        r matches Ok(n) ==> n.id == NodeId(id) && n.addr.port == port,
        ip.version == IP_VERSION_V4 && ip.address@.len() == 4 ==> (r matches Ok(n) && n.addr.ip
            == Ip::V4([ip.address@[0], ip.address@[1], ip.address@[2], ip.address@[3]])),
        ip.version == IP_VERSION_V6 && ip.address@.len() == 16 ==> (r matches Ok(n) && (n.addr.ip
            matches Ip::V6(s) && (forall|i: int| 0 <= i < 8 ==> s@[i] == v6_segment(ip.address@, i)))),
        ip.version == IP_VERSION_V4 && ip.address@.len() != 4 ==> (r matches Err(e) && e.msg@
            == "Invalid IPv4 address"@),
        ip.version == IP_VERSION_V6 && ip.address@.len() != 16 ==> (r matches Err(e) && e.msg@
            == "Invalid IPv6 address"@),
        ip.version != IP_VERSION_V4 && ip.version != IP_VERSION_V6 ==> (r matches Err(e) && e.msg@
            == "Invalid IP address"@),
{
    match parse_ip_address(ip) {
        Ok(parsed) => Ok(Node::with_id(NodeId(id), Addr { ip: parsed, port })),
        Err(e) => Err(e),
    }
}

/// How the other transport ships an IP address: v4 as a list of byte
/// chunks, v6 as a list of 16-bit chunks.
#[derive(Clone, Debug)]
pub enum WireIp {
    V4(Vec<u8>),
    V6(Vec<u16>),
}

/// Why a message failed to parse.
#[derive(Clone, Debug)]
pub enum ParserError {
    InvalidNode,
    InvalidIp(String),
}

/// Parse a chunked IP address and port into an endpoint: a v4 address must
/// have exactly four chunks and a v6 address exactly eight; a wrong count
/// is rejected with a message saying which shape was expected.
pub fn parse_wire_addr(ip: &WireIp, port: u16) -> (r: Result<Addr, ParserError>)
    ensures
        match ip {
            WireIp::V4(v) => if v@.len() == 4 {
                r == Ok::<Addr, ParserError>(
                    Addr { ip: Ip::V4([v@[0], v@[1], v@[2], v@[3]]), port },
                )
            } else {
                r matches Err(ParserError::InvalidIp(m)) && m@
                    == "IPv4 should contain 4 chunks"@
            },
            WireIp::V6(v) => if v@.len() == 8 {
                r matches Ok(a) && a.port == port && (a.ip matches Ip::V6(s) && (forall|i: int|
                    0 <= i < 8 ==> s@[i] == v@[i]))
            } else {
                r matches Err(ParserError::InvalidIp(m)) && m@
                    == "IPv6 should contain 8 chunks, each containing u16"@
            },
        },
{
    match ip {
        WireIp::V4(v) => {
            if v.len() != 4 {
                Err(ParserError::InvalidIp("IPv4 should contain 4 chunks".to_string()))
            } else {
                Ok(Addr { ip: Ip::V4([v[0], v[1], v[2], v[3]]), port })
            }
        },
        WireIp::V6(v) => {
            if v.len() != 8 {
                Err(
                    ParserError::InvalidIp(
                        "IPv6 should contain 8 chunks, each containing u16".to_string(),
                    ),
                )
            } else {
                Ok(Addr { ip: Ip::V6([v[0], v[1], v[2], v[3], v[4], v[5], v[6], v[7]]), port })
            }
        },
    }
}

/// Sum of two counters.
pub fn add(left: usize, right: usize) -> (r: usize)
    requires
        left + right <= usize::MAX,
    ensures
        r == left + right,
{
    left + right
}

} // verus!
