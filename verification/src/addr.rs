//! Network endpoints as the node sees them: an IP address (v4 or v6) and a
//! port. The node never opens a connection itself — transports do — so an
//! address is plain data here, and it has a canonical byte encoding from
//! which the node's ring id is derived.

use vstd::prelude::*;

verus! {

/// An IP address: four octets, or eight 16-bit segments.
#[derive(Clone, Copy, Debug, PartialEq, Eq)]
pub enum Ip {
    V4([u8; 4]),
    V6([u16; 8]),
}

/// A network endpoint: an IP address and a port.
#[derive(Clone, Copy, Debug, PartialEq, Eq)]
pub struct Addr {
    pub ip: Ip,
    pub port: u16,
}

impl Addr {
    /// A v4 endpoint from its four octets and a port.
    pub fn v4(octets: [u8; 4], port: u16) -> (a: Addr)
        ensures
            a == (Addr { ip: Ip::V4(octets), port }),
    {
        Addr { ip: Ip::V4(octets), port }
    }

    /// A v6 endpoint from its eight segments and a port.
    pub fn v6(segments: [u16; 8], port: u16) -> (a: Addr)
        ensures
            a == (Addr { ip: Ip::V6(segments), port }),
    {
        Addr { ip: Ip::V6(segments), port }
    }
}

/// The canonical byte encoding of an address: a version tag, the address
/// bytes (v6 segments big-endian), then the port big-endian.
pub open spec fn addr_encoding(a: Addr) -> Seq<u8> {
    let tail = seq![((a.port >> 8) & 0xff) as u8, (a.port & 0xff) as u8];
    match a.ip {
        Ip::V4(o) => seq![4u8, o[0], o[1], o[2], o[3]] + tail,
        Ip::V6(s) => seq![
            6u8,
            ((s[0] >> 8) & 0xff) as u8, (s[0] & 0xff) as u8,
            ((s[1] >> 8) & 0xff) as u8, (s[1] & 0xff) as u8,
            ((s[2] >> 8) & 0xff) as u8, (s[2] & 0xff) as u8,
            ((s[3] >> 8) & 0xff) as u8, (s[3] & 0xff) as u8,
            ((s[4] >> 8) & 0xff) as u8, (s[4] & 0xff) as u8,
            ((s[5] >> 8) & 0xff) as u8, (s[5] & 0xff) as u8,
            ((s[6] >> 8) & 0xff) as u8, (s[6] & 0xff) as u8,
            ((s[7] >> 8) & 0xff) as u8, (s[7] & 0xff) as u8,
        ] + tail,
    }
}

/// Build the canonical byte encoding of `a`.
pub fn encode_addr(a: &Addr) -> (v: Vec<u8>)
    ensures
        v@ == addr_encoding(*a),
{
    let mut v: Vec<u8> = Vec::new();
    match a.ip {
        Ip::V4(o) => {
            v.push(4u8);
            v.push(o[0]);
            v.push(o[1]);
            v.push(o[2]);
            v.push(o[3]);
        },
        Ip::V6(s) => {
            v.push(6u8);
            let mut i: usize = 0;
            while i < 8
                invariant
                    i <= 8,
                    a.ip == Ip::V6(s),
                    v@.len() == 1 + 2 * i,
                    v@[0] == 6u8,
                    forall|j: int|
                        0 <= j < i ==> v@[1 + 2 * j] == ((s[j] >> 8) & 0xff) as u8 && v@[2 + 2 * j]
                            == (s[j] & 0xff) as u8,
                decreases 8 - i,
            {
                v.push(((s[i] >> 8) & 0xff) as u8);
                v.push((s[i] & 0xff) as u8);
                i = i + 1;
            }
        },
    }
    v.push(((a.port >> 8) & 0xff) as u8);
    v.push((a.port & 0xff) as u8);
    proof {
        assert(v@ =~= addr_encoding(*a));
    }
    v
}

} // verus!
