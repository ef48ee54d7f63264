//! Classifying the subscriptions of a multi-descriptor wait, and building
//! the events reported back to the guest.
//!
//! A subscription either names a clock deadline or asks for readiness of a
//! descriptor. The classification separates the two so the embedder can
//! race the descriptor waits against the (single) deadline; the process
//! CPU-time clocks are unsupported and reported as such.

use vstd::prelude::*;

use crate::errno::Errno;

verus! {

/// The guest-visible event-type code for a clock event.
pub const EVENTTYPE_CLOCK: u8 = 0;

/// The guest-visible event-type code for descriptor readability.
pub const EVENTTYPE_FD_READ: u8 = 1;

/// The guest-visible event-type code for descriptor writability.
pub const EVENTTYPE_FD_WRITE: u8 = 2;

/// The real-time clock.
pub const CLOCKID_REALTIME: u32 = 0;

/// The monotonic clock.
pub const CLOCKID_MONOTONIC: u32 = 1;

/// One parsed subscription.
#[derive(Clone, Copy, Debug, PartialEq, Eq, Structural)]
pub struct Subscription {
    /// The opaque value the guest wants echoed in the event.
    pub userdata: u64,
    /// What is being waited on.
    pub kind: SubscriptionKind,
}

/// What one subscription waits on.
#[derive(Clone, Copy, Debug, PartialEq, Eq, Structural)]
pub enum SubscriptionKind {
    /// A deadline on one of the WASI clocks.
    Clock {
        /// Which clock.
        id: u32,
        /// The timeout, in nanoseconds.
        timeout: u64,
        /// The precision, in nanoseconds.
        precision: u64,
        /// Whether the timeout is an absolute point in time.
        absolute: bool,
    },
    /// Readability of a descriptor.
    FdRead(i32),
    /// Writability of a descriptor.
    FdWrite(i32),
}

/// One descriptor wait, ready for the embedder.
#[derive(Clone, Copy, Debug, PartialEq, Eq, Structural)]
pub struct FdSubscription {
    /// The guest-visible handle.
    pub fd: i32,
    /// The echoed value.
    pub userdata: u64,
    /// True for a write wait, false for a read wait.
    pub write: bool,
}

/// The single deadline of a wait, ready for the embedder.
#[derive(Clone, Copy, Debug, PartialEq, Eq, Structural)]
pub struct ClockSubscription {
    /// The echoed value.
    pub userdata: u64,
    /// The timeout, in nanoseconds.
    pub timeout: u64,
    /// The precision, in nanoseconds.
    pub precision: u64,
    /// Whether the timeout is an absolute point in time.
    pub absolute: bool,
    /// Set for the CPU-time clocks, which this implementation does not
    /// serve.
    pub unsupported: bool,
}

/// A wait, classified: descriptor waits only, one deadline only, or both.
#[derive(Clone, Debug, PartialEq, Eq)]
pub enum PrePoll {
    /// Only descriptor waits.
    OnlyFd(Vec<FdSubscription>),
    /// Only a deadline.
    OnlyClock(ClockSubscription),
    /// Descriptor waits raced against a deadline.
    ClockAndFd(ClockSubscription, Vec<FdSubscription>),
}

/// The descriptor waits of a subscription list, in order.
pub open spec fn fd_subs(s: Seq<Subscription>) -> Seq<FdSubscription>
    decreases s.len(),
{
    if s.len() == 0 {
        Seq::empty()
    } else {
        let rest = fd_subs(s.drop_last());
        match s.last().kind {
            SubscriptionKind::FdRead(fd) => rest.push(
                FdSubscription { fd, userdata: s.last().userdata, write: false },
            ),
            SubscriptionKind::FdWrite(fd) => rest.push(
                FdSubscription { fd, userdata: s.last().userdata, write: true },
            ),
            SubscriptionKind::Clock { .. } => rest,
        }
    }
}

/// The first clock subscription of a list, if any.
pub open spec fn first_clock(s: Seq<Subscription>) -> Option<ClockSubscription>
    decreases s.len(),
{
    if s.len() == 0 {
        None
    } else {
        match s[0].kind {
            SubscriptionKind::Clock { id, timeout, precision, absolute } => Some(
                ClockSubscription {
                    userdata: s[0].userdata,
                    timeout,
                    precision,
                    absolute,
                    unsupported: id != CLOCKID_REALTIME && id != CLOCKID_MONOTONIC,
                },
            ),
            _ => first_clock(s.skip(1)),
        }
    }
}

/// Classify a wait's subscriptions: gather the descriptor waits in order
/// and pick the first deadline, marking the CPU-time clocks unsupported.
pub fn classify_subscriptions(subs: &Vec<Subscription>) -> (r: PrePoll)
    ensures
        match r {
            PrePoll::OnlyFd(fds) => first_clock(subs@) is None && fds@ == fd_subs(subs@),
            PrePoll::OnlyClock(c) => first_clock(subs@) == Some(c) && fd_subs(subs@).len() == 0,
            PrePoll::ClockAndFd(c, fds) => first_clock(subs@) == Some(c) && fds@ == fd_subs(
                subs@,
            ) && fds@.len() > 0,
        },
{
    let mut fds: Vec<FdSubscription> = Vec::new();
    let mut clock: Option<ClockSubscription> = None;
    let mut i: usize = 0;
    while i < subs.len()
        invariant
            i <= subs@.len(),
            fds@ == fd_subs(subs@.subrange(0, i as int)),
            clock == first_clock(subs@.subrange(0, i as int)),
        decreases subs@.len() - i,
    {
        let ghost prefix = subs@.subrange(0, i as int);
        let s = subs[i];
        match s.kind {
            SubscriptionKind::Clock { id, timeout, precision, absolute } => {
                if clock.is_none() {
                    clock = Some(
                        ClockSubscription {
                            userdata: s.userdata,
                            timeout,
                            precision,
                            absolute,
                            unsupported: id != CLOCKID_REALTIME && id != CLOCKID_MONOTONIC,
                        },
                    );
                }
            },
            SubscriptionKind::FdRead(fd) => {
                fds.push(FdSubscription { fd, userdata: s.userdata, write: false });
            },
            SubscriptionKind::FdWrite(fd) => {
                fds.push(FdSubscription { fd, userdata: s.userdata, write: true });
            },
        }
        proof {
            let prefix2 = subs@.subrange(0, i as int + 1);
            assert(prefix2.drop_last() =~= prefix);
            assert(prefix2.last() == subs@[i as int]);
            lemma_first_clock_extend(subs@, i as int);
        }
        i = i + 1;
    }
    proof {
        assert(subs@.subrange(0, subs@.len() as int) =~= subs@);
    }
    match clock {
        None => PrePoll::OnlyFd(fds),
        Some(c) => {
            if fds.len() == 0 {
                PrePoll::OnlyClock(c)
            } else {
                PrePoll::ClockAndFd(c, fds)
            }
        },
    }
}

/// Extending a prefix by one subscription extends its first clock only when
/// no clock came earlier.
proof fn lemma_first_clock_extend(s: Seq<Subscription>, i: int)
    requires
        0 <= i < s.len(),
    ensures
        first_clock(s.subrange(0, i + 1)) == (if first_clock(s.subrange(0, i)) is Some {
            first_clock(s.subrange(0, i))
        } else {
            match s[i].kind {
                SubscriptionKind::Clock { id, timeout, precision, absolute } => Some(
                    ClockSubscription {
                        userdata: s[i].userdata,
                        timeout,
                        precision,
                        absolute,
                        unsupported: id != CLOCKID_REALTIME && id != CLOCKID_MONOTONIC,
                    },
                ),
                _ => None,
            }
        }),
    decreases i,
{
    let a = s.subrange(0, i);
    let b = s.subrange(0, i + 1);
    if i == 0 {
        assert(b.len() == 1);
        assert(b[0] == s[0]);
    } else {
        assert(a[0] == s[0]);
        assert(b[0] == s[0]);
        match s[0].kind {
            SubscriptionKind::Clock { .. } => {},
            _ => {
                assert(a.skip(1) =~= s.skip(1).subrange(0, i - 1));
                assert(b.skip(1) =~= s.skip(1).subrange(0, i));
                lemma_first_clock_extend(s.skip(1), i - 1);
                assert(s.skip(1)[i - 1] == s[i]);
            },
        }
    }
}

/// One event reported back to the guest.
#[derive(Clone, Copy, Debug, PartialEq, Eq, Structural)]
pub struct WasiEvent {
    /// The echoed value from the subscription.
    pub userdata: u64,
    /// The error code, zero on success.
    pub errno: u32,
    /// The event-type code.
    pub event_type: u8,
    /// For readability events: bytes available.
    pub nbytes: u64,
    /// Whether the descriptor hung up.
    pub hangup: bool,
}

/// The event reported when a descriptor wait itself failed before any
/// readiness was observed.
pub fn fd_error_event(sub: &FdSubscription, e: Errno) -> (r: WasiEvent)
    ensures
        r.userdata == sub.userdata,
        r.errno == e.code_spec(),
        r.event_type == (if sub.write {
            EVENTTYPE_FD_WRITE
        } else {
            EVENTTYPE_FD_READ
        }),
        r.nbytes == 0,
        !r.hangup,
{
    WasiEvent {
        userdata: sub.userdata,
        errno: e.code(),
        event_type: if sub.write {
            EVENTTYPE_FD_WRITE
        } else {
            EVENTTYPE_FD_READ
        },
        nbytes: 0,
        hangup: false,
    }
}

/// The event reported when a descriptor wait finished: success carries the
/// available byte count, failure carries the error and the hang-up flag.
pub fn fd_outcome_event(sub: &FdSubscription, outcome: Result<u64, Errno>) -> (r: WasiEvent)
    ensures
        r.userdata == sub.userdata,
        r.event_type == (if sub.write {
            EVENTTYPE_FD_WRITE
        } else {
            EVENTTYPE_FD_READ
        }),
        match outcome {
            Ok(n) => r.errno == 0 && r.nbytes == n && !r.hangup,
            Err(e) => r.errno == e.code_spec() && r.nbytes == 0 && r.hangup,
        },
{
    match outcome {
        Ok(n) => WasiEvent {
            userdata: sub.userdata,
            errno: 0,
            event_type: if sub.write {
                EVENTTYPE_FD_WRITE
            } else {
                EVENTTYPE_FD_READ
            },
            nbytes: n,
            hangup: false,
        },
        Err(e) => WasiEvent {
            userdata: sub.userdata,
            errno: e.code(),
            event_type: if sub.write {
                EVENTTYPE_FD_WRITE
            } else {
                EVENTTYPE_FD_READ
            },
            nbytes: 0,
            hangup: true,
        },
    }
}

/// The event reported when the deadline won the race; a wait on one of the
/// unserved CPU-time clocks resolves at once with the no-such-device code.
pub fn clock_event(clock: &ClockSubscription) -> (r: WasiEvent)
    ensures
        r.userdata == clock.userdata,
        r.event_type == EVENTTYPE_CLOCK,
        r.errno == (if clock.unsupported {
            Errno::Nodev.code_spec()
        } else {
            0
        }),
        r.nbytes == 0,
        !r.hangup,
{
    WasiEvent {
        userdata: clock.userdata,
        errno: if clock.unsupported {
            Errno::Nodev.code()
        } else {
            0
        },
        event_type: EVENTTYPE_CLOCK,
        nbytes: 0,
        hangup: false,
    }
}

/// The byte size of one subscription record in guest memory.
pub const SUBSCRIPTION_SIZE: usize = 48;

/// The byte size of one event record in guest memory.
pub const EVENT_SIZE: usize = 32;

/// Two little-endian bytes as a 16-bit value.
pub open spec fn le16(b0: u8, b1: u8) -> u16 {
    (b0 as u16) | (b1 as u16) << 8
}

/// Four little-endian bytes as a 32-bit value.
pub open spec fn le32(b0: u8, b1: u8, b2: u8, b3: u8) -> u32 {
    (b0 as u32) | (b1 as u32) << 8 | (b2 as u32) << 16 | (b3 as u32) << 24
}

/// Eight little-endian bytes as a 64-bit value.
pub open spec fn le64(b0: u8, b1: u8, b2: u8, b3: u8, b4: u8, b5: u8, b6: u8, b7: u8) -> u64 {
    (b0 as u64) | (b1 as u64) << 8 | (b2 as u64) << 16 | (b3 as u64) << 24 | (b4 as u64) << 32 | (
    b5 as u64) << 40 | (b6 as u64) << 48 | (b7 as u64) << 56
}

/// The 64-bit little-endian field at `off` of a record.
pub open spec fn le64_at(s: Seq<u8>, off: int) -> u64 {
    le64(
        s[off],
        s[off + 1],
        s[off + 2],
        s[off + 3],
        s[off + 4],
        s[off + 5],
        s[off + 6],
        s[off + 7],
    )
}

/// Read the 64-bit little-endian field at `off`.
fn read_le64(bytes: &[u8], off: usize) -> (r: u64)
    requires
        off + 8 <= bytes@.len(),
    ensures
        r == le64_at(bytes@, off as int),
{
    (bytes[off] as u64) | (bytes[off + 1] as u64) << 8 | (bytes[off + 2] as u64) << 16 | (bytes[off
        + 3] as u64) << 24 | (bytes[off + 4] as u64) << 32 | (bytes[off + 5] as u64) << 40 | (
    bytes[off + 6] as u64) << 48 | (bytes[off + 7] as u64) << 56
}

/// Decode one subscription record as the guest lays it out: the echoed
/// value, then the tagged union of a clock deadline or a descriptor
/// interest. A short buffer or an unknown tag is invalid.
pub fn parse_subscription(bytes: &[u8]) -> (r: Result<Subscription, Errno>)
    ensures
        bytes@.len() < SUBSCRIPTION_SIZE ==> r == Err::<Subscription, Errno>(Errno::Inval),
        bytes@.len() >= SUBSCRIPTION_SIZE ==> match r {
            Ok(sub) => {
                &&& sub.userdata == le64_at(bytes@, 0)
                &&& match sub.kind {
                    SubscriptionKind::Clock { id, timeout, precision, absolute } => {
                        &&& bytes@[8] == EVENTTYPE_CLOCK
                        &&& id == le32(bytes@[16], bytes@[17], bytes@[18], bytes@[19])
                        &&& timeout == le64_at(bytes@, 24)
                        &&& precision == le64_at(bytes@, 32)
                        &&& absolute == (le16(bytes@[40], bytes@[41]) == 1)
                    },
                    SubscriptionKind::FdRead(fd) => bytes@[8] == EVENTTYPE_FD_READ && fd == le32(
                        bytes@[16],
                        bytes@[17],
                        bytes@[18],
                        bytes@[19],
                    ) as i32,
                    SubscriptionKind::FdWrite(fd) => bytes@[8] == EVENTTYPE_FD_WRITE && fd == le32(
                        bytes@[16],
                        bytes@[17],
                        bytes@[18],
                        bytes@[19],
                    ) as i32,
                }
            },
            Err(e) => e == Errno::Inval && bytes@[8] != EVENTTYPE_CLOCK && bytes@[8]
                != EVENTTYPE_FD_READ && bytes@[8] != EVENTTYPE_FD_WRITE,
        },
{
    if bytes.len() < SUBSCRIPTION_SIZE {
        return Err(Errno::Inval);
    }
    let userdata = read_le64(bytes, 0);
    let tag = bytes[8];
    let field = (bytes[16] as u32) | (bytes[17] as u32) << 8 | (bytes[18] as u32) << 16 | (bytes[19]
        as u32) << 24;
    if tag == EVENTTYPE_CLOCK {
        let timeout = read_le64(bytes, 24);
        let precision = read_le64(bytes, 32);
        let flags = (bytes[40] as u16) | (bytes[41] as u16) << 8;
        Ok(
            Subscription {
                userdata,
                kind: SubscriptionKind::Clock {
                    id: field,
                    timeout,
                    precision,
                    absolute: flags == 1,
                },
            },
        )
    } else if tag == EVENTTYPE_FD_READ {
        Ok(Subscription { userdata, kind: SubscriptionKind::FdRead(field as i32) })
    } else if tag == EVENTTYPE_FD_WRITE {
        Ok(Subscription { userdata, kind: SubscriptionKind::FdWrite(field as i32) })
    } else {
        Err(Errno::Inval)
    }
}

/// Encode one event record as the guest reads it: the echoed value, the
/// error code, the event type, then the readiness payload; the padding the
/// layout leaves is zero.
pub fn encode_event(event: &WasiEvent) -> (r: Vec<u8>)
    requires
        event.errno <= u16::MAX,
    ensures
        r@.len() == EVENT_SIZE,
        le64_at(r@, 0) == event.userdata,
        le16(r@[8], r@[9]) == event.errno as u16,
        r@[10] == event.event_type,
        le64_at(r@, 16) == event.nbytes,
        le16(r@[24], r@[25]) == (if event.hangup {
            1u16
        } else {
            0u16
        }),
        forall|j: int| (11 <= j < 16 || 26 <= j < 32) ==> (#[trigger] r@[j]) == 0,
{
    let mut out: Vec<u8> = Vec::new();
    push_le64(&mut out, event.userdata);
    let errno16 = event.errno as u16;
    out.push(errno16 as u8);
    out.push((errno16 >> 8) as u8);
    proof {
        lemma_le16_of_bytes(errno16);
    }
    out.push(event.event_type);
    let mut j: usize = 0;
    while j < 5
        invariant
            out@.len() == 11 + j,
            j <= 5,
            le64_at(out@, 0) == event.userdata,
            le16(out@[8], out@[9]) == event.errno as u16,
            out@[10] == event.event_type,
            forall|q: int| 11 <= q < 11 + j ==> (#[trigger] out@[q]) == 0,
        decreases 5 - j,
    {
        out.push(0);
        j = j + 1;
    }
    push_le64(&mut out, event.nbytes);
    let flags: u16 = if event.hangup {
        1
    } else {
        0
    };
    out.push(flags as u8);
    out.push((flags >> 8) as u8);
    proof {
        lemma_le16_of_bytes(flags);
    }
    let mut j: usize = 0;
    while j < 6
        invariant
            out@.len() == 26 + j,
            j <= 6,
            le64_at(out@, 0) == event.userdata,
            le16(out@[8], out@[9]) == event.errno as u16,
            out@[10] == event.event_type,
            le64_at(out@, 16) == event.nbytes,
            le16(out@[24], out@[25]) == (if event.hangup {
                1u16
            } else {
                0u16
            }),
            forall|q: int| 11 <= q < 16 ==> (#[trigger] out@[q]) == 0,
            forall|q: int| 26 <= q < 26 + j ==> (#[trigger] out@[q]) == 0,
        decreases 6 - j,
    {
        out.push(0);
        j = j + 1;
    }
    out
}

/// Append a 64-bit value in little-endian order.
fn push_le64(out: &mut Vec<u8>, v: u64)
    ensures
        final(out)@.len() == old(out)@.len() + 8,
        forall|j: int| 0 <= j < old(out)@.len() ==> (#[trigger] final(out)@[j]) == old(out)@[j],
        le64_at(final(out)@, old(out)@.len() as int) == v,
{
    let ghost base = out@;
    out.push(v as u8);
    out.push((v >> 8) as u8);
    out.push((v >> 16) as u8);
    out.push((v >> 24) as u8);
    out.push((v >> 32) as u8);
    out.push((v >> 40) as u8);
    out.push((v >> 48) as u8);
    out.push((v >> 56) as u8);
    proof {
        lemma_le64_of_bytes(v);
    }
}

/// Splitting a 64-bit value into its little-endian bytes and reassembling
/// them yields the value.
proof fn lemma_le64_of_bytes(v: u64)
    ensures
        le64(
            v as u8,
            (v >> 8) as u8,
            (v >> 16) as u8,
            (v >> 24) as u8,
            (v >> 32) as u8,
            (v >> 40) as u8,
            (v >> 48) as u8,
            (v >> 56) as u8,
        ) == v,
{
    assert((v as u8 as u64) | ((v >> 8) as u8 as u64) << 8 | ((v >> 16) as u8 as u64) << 16 | ((v
        >> 24) as u8 as u64) << 24 | ((v >> 32) as u8 as u64) << 32 | ((v >> 40) as u8 as u64)
        << 40 | ((v >> 48) as u8 as u64) << 48 | ((v >> 56) as u8 as u64) << 56 == v)
        by (bit_vector);
}

/// Splitting a 16-bit value into its little-endian bytes and reassembling
/// them yields the value.
proof fn lemma_le16_of_bytes(v: u16)
    ensures
        le16(v as u8, (v >> 8) as u8) == v,
{
    assert((v as u8 as u16) | ((v >> 8) as u8 as u16) << 8 == v) by (bit_vector);
}

} // verus!
