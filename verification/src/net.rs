//! Plain-value models of socket addresses and socket runtime state.
//!
//! A live socket is owned by the embedder; the table and the serialization
//! layer only ever read these plain fields, so they are what the crate
//! stores and reasons about.

use vstd::prelude::*;

use crate::errno::Errno;

verus! {

/// An IP address: four octets, or eight 16-bit groups packed into two words.
#[derive(Clone, Copy, Debug, PartialEq, Eq, Structural)]
pub enum IpAddr {
    /// Version 4, one field per octet in order.
    V4(u8, u8, u8, u8),
    /// Version 6, the high and the low eight bytes, each big-endian.
    V6(u64, u64),
}

/// A socket address: an IP address plus a port.
#[derive(Clone, Copy, Debug, PartialEq, Eq, Structural)]
pub struct SocketAddr {
    /// The host part.
    pub ip: IpAddr,
    /// The port part.
    pub port: u16,
}

/// The address family a socket was opened with.
#[derive(Clone, Copy, Debug, PartialEq, Eq, Structural)]
pub enum AddressFamily {
    /// IPv4.
    Inet4,
    /// IPv6.
    Inet6,
}

/// Stream or datagram semantics.
#[derive(Clone, Copy, Debug, PartialEq, Eq, Structural)]
pub enum SocketType {
    /// Datagram (UDP-like).
    Datagram,
    /// Stream (TCP-like).
    Stream,
}

/// Where a socket stands in its connection life cycle.
#[derive(Clone, Copy, Debug, PartialEq, Eq, Structural)]
pub enum ConnectState {
    /// Neither listening nor connected.
    Empty,
    /// A listener with a backlog.
    Listening,
    /// Connected to a peer.
    Connect,
}

/// Which directions of a socket have been shut down.
#[derive(Clone, Copy, Debug, PartialEq, Eq, Structural)]
pub enum Shutdown {
    /// Reads are shut down.
    Read,
    /// Writes are shut down.
    Write,
    /// Both directions are shut down.
    Both,
}

/// An address family paired with stream/datagram semantics.
#[derive(Clone, Copy, Debug, PartialEq, Eq, Structural)]
pub struct SockKind {
    /// The address family.
    pub family: AddressFamily,
    /// Stream or datagram.
    pub kind: SocketType,
}

/// The plain-value runtime state of one socket, as the table stores it.
#[derive(Clone, Copy, Debug, PartialEq, Eq, Structural)]
pub struct WasiSocketState {
    /// Address family and stream/datagram kind.
    pub sock_type: SockKind,
    /// Bound local address, once known.
    pub local_addr: Option<SocketAddr>,
    /// Connected peer address, once known.
    pub peer_addr: Option<SocketAddr>,
    /// The backlog a listener was configured with.
    pub backlog: u32,
    /// Set once the socket has been shut down.
    pub shutdown: Option<Shutdown>,
    /// Whether operations are non-blocking.
    pub nonblocking: bool,
    /// The `SO_REUSEADDR` option.
    pub so_reuseaddr: bool,
    /// Connection life-cycle state.
    pub so_conn_state: ConnectState,
    /// Receive buffer size in bytes.
    pub so_recv_buf_size: usize,
    /// Send buffer size in bytes.
    pub so_send_buf_size: usize,
    /// Receive timeout in nanoseconds, if set.
    pub so_recv_timeout: Option<u64>,
    /// Send timeout in nanoseconds, if set.
    pub so_send_timeout: Option<u64>,
    /// WASI rights bitmask.
    pub fs_rights: u64,
}

impl Default for WasiSocketState {
    /// A fresh IPv4 stream socket with nothing configured.
    fn default() -> (r: Self)
        ensures
            r == WasiSocketState::initial(),
    {
        WasiSocketState {
            sock_type: (SockKind { family: AddressFamily::Inet4, kind: SocketType::Stream }),
            local_addr: None,
            peer_addr: None,
            backlog: 0,
            shutdown: None,
            nonblocking: false,
            so_reuseaddr: false,
            so_conn_state: ConnectState::Empty,
            so_recv_buf_size: 0,
            so_send_buf_size: 0,
            so_recv_timeout: None,
            so_send_timeout: None,
            fs_rights: 0,
        }
    }
}

impl WasiSocketState {
    /// The value `Default::default` returns.
    pub open spec fn initial() -> WasiSocketState {
        WasiSocketState {
            sock_type: (SockKind { family: AddressFamily::Inet4, kind: SocketType::Stream }),
            local_addr: None,
            peer_addr: None,
            backlog: 0,
            shutdown: None,
            nonblocking: false,
            so_reuseaddr: false,
            so_conn_state: ConnectState::Empty,
            so_recv_buf_size: 0,
            so_send_buf_size: 0,
            so_recv_timeout: None,
            so_send_timeout: None,
            fs_rights: 0,
        }
    }
}

/// What a sixteen-byte big-endian buffer denotes as two 64-bit words.
pub open spec fn ip6_words(s: Seq<u8>) -> (u64, u64) {
    (
        (s[0] as u64) << 56 | (s[1] as u64) << 48 | (s[2] as u64) << 40 | (s[3] as u64) << 32 | (
        s[4] as u64) << 24 | (s[5] as u64) << 16 | (s[6] as u64) << 8 | (s[7] as u64),
        (s[8] as u64) << 56 | (s[9] as u64) << 48 | (s[10] as u64) << 40 | (s[11] as u64) << 32 | (
        s[12] as u64) << 24 | (s[13] as u64) << 16 | (s[14] as u64) << 8 | (s[15] as u64),
    )
}

/// Parse the address buffer a guest hands to `sock_bind` or `sock_connect`:
/// four bytes give an IPv4 address, sixteen give an IPv6 address, any other
/// length is invalid.
pub fn parse_wasi_ip(addr: &[u8]) -> (r: Result<IpAddr, Errno>)
    ensures
        addr@.len() == 4 ==> r == Ok::<IpAddr, Errno>(
            IpAddr::V4(addr@[0], addr@[1], addr@[2], addr@[3]),
        ),
        addr@.len() == 16 ==> r == Ok::<IpAddr, Errno>(
            IpAddr::V6(ip6_words(addr@).0, ip6_words(addr@).1),
        ),
        addr@.len() != 4 && addr@.len() != 16 ==> r == Err::<IpAddr, Errno>(Errno::Inval),
{
    if addr.len() == 4 {
        Ok(IpAddr::V4(addr[0], addr[1], addr[2], addr[3]))
    } else if addr.len() == 16 {
        let hi = (addr[0] as u64) << 56 | (addr[1] as u64) << 48 | (addr[2] as u64) << 40 | (
        addr[3] as u64) << 32 | (addr[4] as u64) << 24 | (addr[5] as u64) << 16 | (addr[6] as u64)
            << 8 | (addr[7] as u64);
        let lo = (addr[8] as u64) << 56 | (addr[9] as u64) << 48 | (addr[10] as u64) << 40 | (
        addr[11] as u64) << 32 | (addr[12] as u64) << 24 | (addr[13] as u64) << 16 | (addr[14]
            as u64) << 8 | (addr[15] as u64);
        Ok(IpAddr::V6(hi, lo))
    } else {
        Err(Errno::Inval)
    }
}

/// One big-endian byte of a 64-bit word; `k` counts from the most
/// significant byte.
pub open spec fn word_byte(w: u64, k: int) -> u8 {
    (w >> ((7 - k) * 8)) as u8
}

/// Serialize an address to the byte form `parse_wasi_ip` reads: the octets
/// of an IPv4 address, or the sixteen big-endian bytes of an IPv6 address.
pub fn ip_octets(ip: &IpAddr) -> (r: Vec<u8>)
    ensures
        match *ip {
            IpAddr::V4(a, b, c, d) => r@ =~= seq![a, b, c, d],
            IpAddr::V6(hi, lo) => r@.len() == 16 && (forall|k: int|
                0 <= k < 8 ==> #[trigger] r@[k] == word_byte(hi, k)) && (forall|k: int|
                8 <= k < 16 ==> #[trigger] r@[k] == word_byte(lo, k - 8)),
        },
{
    match ip {
        IpAddr::V4(a, b, c, d) => {
            let mut v: Vec<u8> = Vec::new();
            v.push(*a);
            v.push(*b);
            v.push(*c);
            v.push(*d);
            v
        },
        IpAddr::V6(hi, lo) => {
            let mut v: Vec<u8> = Vec::new();
            let mut k: usize = 0;
            while k < 8
                invariant
                    k <= 8,
                    v@.len() == k,
                    forall|j: int| 0 <= j < k ==> #[trigger] v@[j] == word_byte(*hi, j),
                decreases 8 - k,
            {
                let shift: u64 = ((7 - k) as u64) * 8;
                v.push((*hi >> shift) as u8);
                k = k + 1;
            }
            let mut k: usize = 0;
            while k < 8
                invariant
                    k <= 8,
                    v@.len() == 8 + k,
                    forall|j: int| 0 <= j < 8 ==> #[trigger] v@[j] == word_byte(*hi, j),
                    forall|j: int| 8 <= j < 8 + k ==> #[trigger] v@[j] == word_byte(*lo, j - 8),
                decreases 8 - k,
            {
                let shift: u64 = ((7 - k) as u64) * 8;
                v.push((*lo >> shift) as u8);
                k = k + 1;
            }
            v
        },
    }
}

/// Reading back the serialized bytes of an address yields the address:
/// `parse_wasi_ip(ip_octets(ip)) == Ok(ip)`.
pub proof fn lemma_ip_octets_roundtrip(ip: IpAddr, bytes: Seq<u8>)
    requires
        match ip {
            IpAddr::V4(a, b, c, d) => bytes =~= seq![a, b, c, d],
            IpAddr::V6(hi, lo) => bytes.len() == 16 && (forall|k: int|
                0 <= k < 8 ==> #[trigger] bytes[k] == word_byte(hi, k)) && (forall|k: int|
                8 <= k < 16 ==> #[trigger] bytes[k] == word_byte(lo, k - 8)),
        },
    ensures
        match ip {
            IpAddr::V4(a, b, c, d) => bytes.len() == 4 && IpAddr::V4(
                bytes[0],
                bytes[1],
                bytes[2],
                bytes[3],
            ) == ip,
            IpAddr::V6(hi, lo) => bytes.len() == 16 && ip6_words(bytes) == (hi, lo),
        },
{
    match ip {
        IpAddr::V4(a, b, c, d) => {},
        IpAddr::V6(hi, lo) => {
            assert(ip6_words(bytes).0 == hi && ip6_words(bytes).1 == lo) by {
                assert(bytes[0] == word_byte(hi, 0) && bytes[1] == word_byte(hi, 1) && bytes[2]
                    == word_byte(hi, 2) && bytes[3] == word_byte(hi, 3) && bytes[4] == word_byte(
                    hi,
                    4,
                ) && bytes[5] == word_byte(hi, 5) && bytes[6] == word_byte(hi, 6) && bytes[7]
                    == word_byte(hi, 7));
                assert(bytes[8] == word_byte(lo, 0) && bytes[9] == word_byte(lo, 1) && bytes[10]
                    == word_byte(lo, 2) && bytes[11] == word_byte(lo, 3) && bytes[12] == word_byte(
                    lo,
                    4,
                ) && bytes[13] == word_byte(lo, 5) && bytes[14] == word_byte(lo, 6) && bytes[15]
                    == word_byte(lo, 7));
                lemma_word_bytes_roundtrip(hi);
                lemma_word_bytes_roundtrip(lo);
            }
        },
    }
}

/// Reassembling the eight big-endian bytes of a word yields the word.
proof fn lemma_word_bytes_roundtrip(w: u64)
    ensures
        (word_byte(w, 0) as u64) << 56 | (word_byte(w, 1) as u64) << 48 | (word_byte(
            w,
            2,
        ) as u64) << 40 | (word_byte(w, 3) as u64) << 32 | (word_byte(w, 4) as u64) << 24 | (
        word_byte(w, 5) as u64) << 16 | (word_byte(w, 6) as u64) << 8 | (word_byte(w, 7) as u64)
            == w,
{
    assert(((w >> 56) as u8 as u64) << 56 | ((w >> 48) as u8 as u64) << 48 | ((w >> 40) as u8
        as u64) << 40 | ((w >> 32) as u8 as u64) << 32 | ((w >> 24) as u8 as u64) << 24 | ((w
        >> 16) as u8 as u64) << 16 | ((w >> 8) as u8 as u64) << 8 | ((w >> 0) as u8 as u64) == w)
        by (bit_vector);
    assert(word_byte(w, 0) == (w >> 56) as u8);
    assert(word_byte(w, 1) == (w >> 48) as u8);
    assert(word_byte(w, 2) == (w >> 40) as u8);
    assert(word_byte(w, 3) == (w >> 32) as u8);
    assert(word_byte(w, 4) == (w >> 24) as u8);
    assert(word_byte(w, 5) == (w >> 16) as u8);
    assert(word_byte(w, 6) == (w >> 8) as u8);
    assert(word_byte(w, 7) == (w >> 0) as u8);
}

} // verus!
