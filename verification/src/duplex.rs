//! A model of one negotiated duplex connection and of its split halves.
//!
//! A `Connection` is a bidirectional byte stream bound to one client, valid
//! only once its handshake has completed: bytes the peer has sent and the
//! adapter has not yet read wait in `inbound`, bytes written toward the peer
//! and not yet taken by it wait in `outbound`. Splitting moves the
//! connection into a `ConnTable` slot addressed by two independent handles,
//! a `ReadEnd` and a `WriteEnd`; the slot — the shared resource behind
//! both — is torn down only when both handles have been released.

use vstd::prelude::*;
use crate::capability::Negotiated;
use crate::remote_addr::Protocol;

verus! {

/// The abstract state of one duplex connection: its protocol tag and the
/// bytes pending in each direction.
#[verifier::ext_equal]
pub struct ConnState {
    pub protocol: Protocol,
    pub inbound: Seq<u8>,
    pub outbound: Seq<u8>,
}

/// Writing `b` toward the peer appends it to the outbound direction and
/// touches nothing else.
pub open spec fn write_step(s: ConnState, b: Seq<u8>) -> ConnState {
    ConnState { outbound: s.outbound + b, ..s }
}

/// Reading up to `n` bytes takes them from the front of the inbound
/// direction, in order, and touches nothing else. Returns the state after
/// the read and the bytes observed.
pub open spec fn read_step(s: ConnState, n: nat) -> (ConnState, Seq<u8>) {
    let k = if n <= s.inbound.len() {
        n as int
    } else {
        s.inbound.len() as int
    };
    (ConnState { inbound: s.inbound.skip(k), ..s }, s.inbound.take(k))
}

/// The peer echoing everything it has received: the pending outbound bytes
/// move, in order, to the end of the inbound direction.
pub open spec fn loopback_step(s: ConnState) -> ConnState {
    ConnState { inbound: s.inbound + s.outbound, outbound: Seq::empty(), ..s }
}

/// A negotiated bidirectional byte stream, exclusively owned until it is
/// split.
pub struct Connection {
    protocol: Protocol,
    inbound: Vec<u8>,
    outbound: Vec<u8>,
}

impl View for Connection {
    type V = ConnState;

    closed spec fn view(&self) -> ConnState {
        ConnState {
            protocol: self.protocol,
            inbound: self.inbound@,
            outbound: self.outbound@,
        }
    }
}

impl Connection {
    /// A freshly negotiated connection: nothing pending in either direction.
    pub fn establish(protocol: Protocol) -> (c: Connection)
        ensures
            c@.protocol == protocol,
            c@.inbound == Seq::<u8>::empty(),
            c@.outbound == Seq::<u8>::empty(),
    {
        Connection { protocol, inbound: Vec::new(), outbound: Vec::new() }
    }

    /// The peer delivers `b`: it joins the inbound direction.
    pub fn deliver(&mut self, b: &Vec<u8>)
        requires
            old(self)@.inbound.len() + b@.len() <= usize::MAX,
        ensures
            final(self)@ == (ConnState { inbound: old(self)@.inbound + b@, ..old(self)@ }),
    {
        append_bytes(&mut self.inbound, b);
    }

    /// Writes `b` toward the peer on the unsplit connection.
    pub fn write(&mut self, b: &Vec<u8>)
        requires
            old(self)@.outbound.len() + b@.len() <= usize::MAX,
        ensures
            final(self)@ == write_step(old(self)@, b@),
    {
        append_bytes(&mut self.outbound, b);
    }

    /// Reads up to `n` bytes from the peer on the unsplit connection.
    pub fn read(&mut self, n: usize) -> (out: Vec<u8>)
        ensures
            final(self)@ == read_step(old(self)@, n as nat).0,
            out@ == read_step(old(self)@, n as nat).1,
    {
        take_front(&mut self.inbound, n)
    }

    /// What the peer observes: up to `n` bytes from the front of the
    /// outbound direction, exactly as they were written.
    pub fn peer_take(&mut self, n: usize) -> (out: Vec<u8>)
        ensures
            final(self)@ == (ConnState {
                outbound: old(self)@.outbound.skip(taken(old(self)@.outbound, n as nat)),
                ..old(self)@
            }),
            out@ == old(self)@.outbound.take(taken(old(self)@.outbound, n as nat)),
    {
        take_front(&mut self.outbound, n)
    }
}

impl Negotiated for Connection {
    open spec fn tag_spec(&self) -> Protocol {
        self@.protocol
    }

    fn protocol_tag(&self) -> (p: Protocol) {
        self.protocol
    }
}

/// How many bytes a read of `n` takes from a direction holding `s`.
pub open spec fn taken(s: Seq<u8>, n: nat) -> int {
    if n <= s.len() {
        n as int
    } else {
        s.len() as int
    }
}

/// One slot of the table behind split connections. The slot is the shared
/// resource: it stays live while at least one half still holds it and is
/// torn down as soon as the second half is released.
enum Slot {
    Live { conn: Connection, read_held: bool, write_held: bool },
    TornDown,
}

/// The handle over the read direction of one split connection. It can be
/// moved to a task of its own and used without any coordination with the
/// matching `WriteEnd`.
pub struct ReadEnd {
    conn: usize,
}

/// The handle over the write direction of one split connection.
pub struct WriteEnd {
    conn: usize,
}

impl ReadEnd {
    /// Which table slot this half addresses.
    pub closed spec fn id(self) -> int {
        self.conn as int
    }

    /// The slot index, for looking the connection up in its table.
    pub fn slot(&self) -> (i: usize)
        ensures
            i as int == self.id(),
    {
        self.conn
    }
}

impl WriteEnd {
    /// Which table slot this half addresses.
    pub closed spec fn id(self) -> int {
        self.conn as int
    }

    /// The slot index, for looking the connection up in its table.
    pub fn slot(&self) -> (i: usize)
        ensures
            i as int == self.id(),
    {
        self.conn
    }
}

/// The index-addressed store of split connections: each split turns one
/// exclusively owned `Connection` into a slot of this table plus two
/// independent handles.
pub struct ConnTable {
    slots: Vec<Slot>,
}

impl ConnTable {
    /// How many connections have ever been split into this table.
    pub closed spec fn slot_count(self) -> nat {
        self.slots@.len()
    }

    /// Whether slot `i` still backs at least one half.
    pub closed spec fn is_live(self, i: int) -> bool {
        0 <= i < self.slots@.len() && self.slots@[i] is Live
    }

    /// Whether slot `i` has been torn down: both halves released, the
    /// transport resource gone.
    pub closed spec fn is_torn_down(self, i: int) -> bool {
        0 <= i < self.slots@.len() && self.slots@[i] is TornDown
    }

    /// The connection state behind a live slot.
    pub closed spec fn conn_state(self, i: int) -> ConnState {
        match self.slots@[i] {
            Slot::Live { conn, .. } => conn@,
            Slot::TornDown => ConnState {
                protocol: Protocol::Socks5,
                inbound: Seq::empty(),
                outbound: Seq::empty(),
            },
        }
    }

    /// Whether the read half of slot `i` is still held.
    pub closed spec fn read_held(self, i: int) -> bool {
        match self.slots@[i] {
            Slot::Live { read_held, .. } => read_held,
            Slot::TornDown => false,
        }
    }

    /// Whether the write half of slot `i` is still held.
    pub closed spec fn write_held(self, i: int) -> bool {
        match self.slots@[i] {
            Slot::Live { write_held, .. } => write_held,
            Slot::TornDown => false,
        }
    }

    /// Slot `j` looks the same in `a` and in `b`.
    pub open spec fn same_slot(a: ConnTable, b: ConnTable, j: int) -> bool {
        a.is_live(j) == b.is_live(j) && a.is_torn_down(j) == b.is_torn_down(j)
            && a.conn_state(j) == b.conn_state(j) && a.read_held(j) == b.read_held(j)
            && a.write_held(j) == b.write_held(j)
    }

    /// Every live slot is held by at least one half: a connection both of
    /// whose halves were released never lingers.
    pub open spec fn wf(self) -> bool {
        forall|i: int| #[trigger] self.is_live(i) ==> self.read_held(i) || self.write_held(i)
    }

    /// An empty table.
    pub fn new() -> (t: ConnTable)
        ensures
            t.wf(),
            t.slot_count() == 0,
    {
        ConnTable { slots: Vec::new() }
    }

    /// Splits one negotiated connection into a read half and a write half.
    ///
    /// The connection is consumed — it can be split exactly once — and
    /// becomes a fresh slot addressed by both returned handles; every other
    /// slot is untouched.
    pub fn split(&mut self, conn: Connection) -> (halves: (ReadEnd, WriteEnd))
        requires
            old(self).wf(),
            old(self).slot_count() < usize::MAX,
        ensures
            final(self).wf(),
            final(self).slot_count() == old(self).slot_count() + 1,
            halves.0.id() == old(self).slot_count(),
            halves.1.id() == old(self).slot_count(),
            final(self).is_live(halves.0.id()),
            final(self).read_held(halves.0.id()),
            final(self).write_held(halves.0.id()),
            final(self).conn_state(halves.0.id()) == conn@,
            forall|j: int|
                0 <= j < old(self).slot_count() ==> Self::same_slot(*old(self), *final(self), j),
    {
        let id = self.slots.len();
        self.slots.push(Slot::Live { conn, read_held: true, write_held: true });
        proof {
            assert forall|i: int| self.is_live(i) implies self.read_held(i)
                || self.write_held(i) by {
                if i != id as int {
                    assert(old(self).is_live(i));
                }
            }
        }
        (ReadEnd { conn: id }, WriteEnd { conn: id })
    }

    /// A write half is usable while its slot is live and the half has not
    /// been released.
    pub open spec fn write_usable(self, w: WriteEnd) -> bool {
        self.is_live(w.id()) && self.write_held(w.id())
    }

    /// A read half is usable while its slot is live and the half has not
    /// been released.
    pub open spec fn read_usable(self, r: ReadEnd) -> bool {
        self.is_live(r.id()) && self.read_held(r.id())
    }

    /// Writes `b` through a write half: exactly the write the unsplit
    /// connection would perform, touching neither the read direction of the
    /// same connection nor any other slot.
    pub fn write(&mut self, w: &WriteEnd, b: &Vec<u8>)
        requires
            old(self).wf(),
            old(self).write_usable(*w),
            old(self).conn_state(w.id()).outbound.len() + b@.len() <= usize::MAX,
        ensures
            final(self).wf(),
            final(self).slot_count() == old(self).slot_count(),
            final(self).conn_state(w.id()) == write_step(old(self).conn_state(w.id()), b@),
            final(self).is_live(w.id()),
            final(self).read_held(w.id()) == old(self).read_held(w.id()),
            final(self).write_held(w.id()),
            forall|j: int|
                0 <= j < old(self).slot_count() && j != w.id() ==> Self::same_slot(
                    *old(self),
                    *final(self),
                    j,
                ),
    {
        match &mut self.slots[w.conn] {
            Slot::Live { conn, .. } => {
                conn.write(b);
            },
            Slot::TornDown => {
                proof {
                    assert(false);
                }
            },
        }
        proof {
            assert forall|i: int| self.is_live(i) implies self.read_held(i)
                || self.write_held(i) by {
                if i != w.id() {
                    assert(old(self).is_live(i));
                }
            }
        }
    }

    /// Reads up to `n` bytes through a read half: exactly the read the
    /// unsplit connection would perform, touching neither the write
    /// direction of the same connection nor any other slot.
    pub fn read(&mut self, r: &ReadEnd, n: usize) -> (out: Vec<u8>)
        requires
            old(self).wf(),
            old(self).read_usable(*r),
        ensures
            final(self).wf(),
            final(self).slot_count() == old(self).slot_count(),
            final(self).conn_state(r.id()) == read_step(old(self).conn_state(r.id()), n as nat).0,
            out@ == read_step(old(self).conn_state(r.id()), n as nat).1,
            final(self).is_live(r.id()),
            final(self).read_held(r.id()),
            final(self).write_held(r.id()) == old(self).write_held(r.id()),
            forall|j: int|
                0 <= j < old(self).slot_count() && j != r.id() ==> Self::same_slot(
                    *old(self),
                    *final(self),
                    j,
                ),
    {
        let out = match &mut self.slots[r.conn] {
            Slot::Live { conn, .. } => conn.read(n),
            Slot::TornDown => {
                proof {
                    assert(false);
                }
                Vec::new()
            },
        };
        proof {
            assert forall|i: int| self.is_live(i) implies self.read_held(i)
                || self.write_held(i) by {
                if i != r.id() {
                    assert(old(self).is_live(i));
                }
            }
        }
        out
    }

    /// The peer of slot addressed by `r` echoes everything written so far:
    /// the pending outbound bytes move, in order, onto the inbound
    /// direction.
    pub fn loopback(&mut self, r: &ReadEnd)
        requires
            old(self).wf(),
            old(self).is_live(r.id()),
            old(self).conn_state(r.id()).inbound.len() + old(self).conn_state(r.id()).outbound.len()
                <= usize::MAX,
        ensures
            final(self).wf(),
            final(self).slot_count() == old(self).slot_count(),
            final(self).conn_state(r.id()) == loopback_step(old(self).conn_state(r.id())),
            final(self).is_live(r.id()),
            final(self).read_held(r.id()) == old(self).read_held(r.id()),
            final(self).write_held(r.id()) == old(self).write_held(r.id()),
            forall|j: int|
                0 <= j < old(self).slot_count() && j != r.id() ==> Self::same_slot(
                    *old(self),
                    *final(self),
                    j,
                ),
    {
        match &mut self.slots[r.conn] {
            Slot::Live { conn, .. } => {
                let pending = conn.peer_take(usize::MAX);
                proof {
                    assert(pending@ =~= old(self).conn_state(r.id()).outbound);
                }
                conn.deliver(&pending);
                proof {
                    assert(conn@.inbound == old(self).conn_state(r.id()).inbound + old(
                        self,
                    ).conn_state(r.id()).outbound);
                    assert(conn@.outbound =~= Seq::<u8>::empty());
                    assert(conn@ =~= loopback_step(old(self).conn_state(r.id())));
                }
            },
            Slot::TornDown => {
                proof {
                    assert(false);
                }
            },
        }
        proof {
            assert forall|i: int| self.is_live(i) implies self.read_held(i)
                || self.write_held(i) by {
                if i != r.id() {
                    assert(old(self).is_live(i));
                }
            }
        }
    }

    /// Releases a read half. This half-closes the read direction only: if
    /// the write half is still held the slot stays live with its write
    /// direction untouched; only when this was the last half held is the
    /// slot torn down.
    pub fn close_read(&mut self, r: ReadEnd)
        requires
            old(self).wf(),
            old(self).read_usable(r),
        ensures
            final(self).wf(),
            final(self).slot_count() == old(self).slot_count(),
            !final(self).read_held(r.id()),
            final(self).is_live(r.id()) == old(self).write_held(r.id()),
            final(self).is_torn_down(r.id()) == !old(self).write_held(r.id()),
            old(self).write_held(r.id()) ==> final(self).write_held(r.id())
                && final(self).conn_state(r.id()) == old(self).conn_state(r.id()),
            forall|j: int|
                0 <= j < old(self).slot_count() && j != r.id() ==> Self::same_slot(
                    *old(self),
                    *final(self),
                    j,
                ),
    {
        let keep: bool = match &self.slots[r.conn] {
            Slot::Live { write_held, .. } => *write_held,
            Slot::TornDown => {
                proof {
                    assert(false);
                }
                false
            },
        };
        if keep {
            match &mut self.slots[r.conn] {
                Slot::Live { read_held, .. } => {
                    *read_held = false;
                },
                Slot::TornDown => {
                    proof {
                        assert(false);
                    }
                },
            }
        } else {
            self.slots[r.conn] = Slot::TornDown;
        }
        proof {
            assert forall|i: int| self.is_live(i) implies self.read_held(i)
                || self.write_held(i) by {
                if i != r.id() {
                    assert(old(self).is_live(i));
                }
            }
        }
    }

    /// Releases a write half; symmetric to `close_read`.
    pub fn close_write(&mut self, w: WriteEnd)
        requires
            old(self).wf(),
            old(self).write_usable(w),
        ensures
            final(self).wf(),
            final(self).slot_count() == old(self).slot_count(),
            !final(self).write_held(w.id()),
            final(self).is_live(w.id()) == old(self).read_held(w.id()),
            final(self).is_torn_down(w.id()) == !old(self).read_held(w.id()),
            old(self).read_held(w.id()) ==> final(self).read_held(w.id())
                && final(self).conn_state(w.id()) == old(self).conn_state(w.id()),
            forall|j: int|
                0 <= j < old(self).slot_count() && j != w.id() ==> Self::same_slot(
                    *old(self),
                    *final(self),
                    j,
                ),
    {
        let keep: bool = match &self.slots[w.conn] {
            Slot::Live { read_held, .. } => *read_held,
            Slot::TornDown => {
                proof {
                    assert(false);
                }
                false
            },
        };
        if keep {
            match &mut self.slots[w.conn] {
                Slot::Live { write_held, .. } => {
                    *write_held = false;
                },
                Slot::TornDown => {
                    proof {
                        assert(false);
                    }
                },
            }
        } else {
            self.slots[w.conn] = Slot::TornDown;
        }
        proof {
            assert forall|i: int| self.is_live(i) implies self.read_held(i)
                || self.write_held(i) by {
                if i != w.id() {
                    assert(old(self).is_live(i));
                }
            }
        }
    }

    /// Whether the slot a half addressed has been torn down; observable so
    /// that a consumer can check that a resource was released only once
    /// both halves were.
    pub fn slot_torn_down(&self, id: usize) -> (b: bool)
        requires
            id < self.slot_count(),
        ensures
            b == self.is_torn_down(id as int),
    {
        match &self.slots[id] {
            Slot::Live { .. } => false,
            Slot::TornDown => true,
        }
    }
}

/// Law: the two halves of one split connection are independent. A write
/// interleaved before a read neither changes what the read observes nor
/// leads to a different connection state than performing the read first:
/// the halves may be driven concurrently by two tasks, in either order,
/// with the same outcome the unsplit connection would give.
pub proof fn lemma_half_ops_commute(s: ConnState, b: Seq<u8>, n: nat)
    ensures
        read_step(write_step(s, b), n).1 == read_step(s, n).1,
        read_step(write_step(s, b), n).0 == write_step(read_step(s, n).0, b),
{
    assert(read_step(write_step(s, b), n).0 =~= write_step(read_step(s, n).0, b));
}

/// Law: writes reach the peer concatenated exactly in write order; the
/// split introduces no reordering or batching.
pub proof fn lemma_writes_preserve_order(s: ConnState, b1: Seq<u8>, b2: Seq<u8>)
    ensures
        write_step(write_step(s, b1), b2).outbound == s.outbound + b1 + b2,
{
}

/// One operation a task performs on one half of a split connection.
pub enum HalfOp {
    /// A write of these bytes through the write half.
    Put(Seq<u8>),
    /// A read of up to this many bytes through the read half.
    Take(nat),
}

/// The connection state after an interleaving of operations on the two
/// halves.
pub open spec fn apply_ops(s: ConnState, ops: Seq<HalfOp>) -> ConnState
    decreases ops.len(),
{
    if ops.len() == 0 {
        s
    } else {
        let s1 = match ops[0] {
            HalfOp::Put(b) => write_step(s, b),
            HalfOp::Take(n) => read_step(s, n).0,
        };
        apply_ops(s1, ops.drop_first())
    }
}

/// What the reading task observes, read by read, under an interleaving.
pub open spec fn observed(s: ConnState, ops: Seq<HalfOp>) -> Seq<Seq<u8>>
    decreases ops.len(),
{
    if ops.len() == 0 {
        Seq::empty()
    } else {
        match ops[0] {
            HalfOp::Put(b) => observed(write_step(s, b), ops.drop_first()),
            HalfOp::Take(n) => seq![read_step(s, n).1] + observed(
                read_step(s, n).0,
                ops.drop_first(),
            ),
        }
    }
}

/// The reads of an interleaving, in order, with the writes left out.
pub open spec fn reads_of(ops: Seq<HalfOp>) -> Seq<HalfOp>
    decreases ops.len(),
{
    if ops.len() == 0 {
        Seq::empty()
    } else {
        match ops[0] {
            HalfOp::Put(_) => reads_of(ops.drop_first()),
            HalfOp::Take(n) => seq![ops[0]] + reads_of(ops.drop_first()),
        }
    }
}

/// The writes of an interleaving, concatenated in order.
pub open spec fn writes_concat(ops: Seq<HalfOp>) -> Seq<u8>
    decreases ops.len(),
{
    if ops.len() == 0 {
        Seq::empty()
    } else {
        match ops[0] {
            HalfOp::Put(b) => b + writes_concat(ops.drop_first()),
            HalfOp::Take(_) => writes_concat(ops.drop_first()),
        }
    }
}

/// Reads depend on the inbound direction alone: two states that agree on
/// it give a reading task the same observations, whatever their outbound
/// directions hold.
proof fn lemma_reads_see_only_inbound(s1: ConnState, s2: ConnState, ops: Seq<HalfOp>)
    requires
        s1.inbound == s2.inbound,
        forall|i: int| 0 <= i < ops.len() ==> ops[i] is Take,
    ensures
        observed(s1, ops) == observed(s2, ops),
        apply_ops(s1, ops).inbound == apply_ops(s2, ops).inbound,
    decreases ops.len(),
{
    if ops.len() > 0 {
        match ops[0] {
            HalfOp::Take(n) => {
                lemma_reads_see_only_inbound(
                    read_step(s1, n).0,
                    read_step(s2, n).0,
                    ops.drop_first(),
                );
            },
            HalfOp::Put(_) => {
                assert(false);
            },
        }
    }
}

/// Every element of the reads of an interleaving is a read.
proof fn lemma_reads_of_are_reads(ops: Seq<HalfOp>)
    ensures
        forall|i: int| 0 <= i < reads_of(ops).len() ==> #[trigger] reads_of(ops)[i] is Take,
    decreases ops.len(),
{
    if ops.len() > 0 {
        lemma_reads_of_are_reads(ops.drop_first());
    }
}

/// Law (concurrent use of the halves): under any interleaving of
/// operations by a writing task and a reading task, the reading task
/// observes exactly what it would observe with no writer at all, and the
/// writes reach the wire concatenated exactly in write order. Driving the
/// two halves from two tasks needs no synchronization through the adapter.
pub proof fn lemma_concurrent_halves(s: ConnState, ops: Seq<HalfOp>)
    ensures
        observed(s, ops) == observed(s, reads_of(ops)),
        apply_ops(s, ops).inbound == apply_ops(s, reads_of(ops)).inbound,
        apply_ops(s, ops).outbound == s.outbound + writes_concat(ops),
    decreases ops.len(),
{
    lemma_reads_of_are_reads(ops);
    if ops.len() == 0 {
        assert(apply_ops(s, ops).outbound =~= s.outbound + writes_concat(ops));
    } else {
        let rest = ops.drop_first();
        match ops[0] {
            HalfOp::Put(b) => {
                let s1 = write_step(s, b);
                lemma_concurrent_halves(s1, rest);
                lemma_reads_of_are_reads(rest);
                lemma_reads_see_only_inbound(s1, s, reads_of(rest));
                assert(apply_ops(s, ops).outbound =~= s.outbound + writes_concat(ops));
            },
            HalfOp::Take(n) => {
                let s1 = read_step(s, n).0;
                lemma_concurrent_halves(s1, rest);
                let tail = reads_of(rest);
                assert((seq![ops[0]] + tail)[0] == ops[0]);
                assert((seq![ops[0]] + tail).drop_first() =~= tail);
                assert(observed(s, reads_of(ops)) == seq![read_step(s, n).1] + observed(s1, tail));
            },
        }
    }
}

/// Law (round trip): on a quiet connection, bytes written through the
/// write half and echoed back by the peer are read through the read half
/// exactly as written, in order and in full.
pub proof fn lemma_split_round_trip(s: ConnState, b: Seq<u8>)
    requires
        s.inbound == Seq::<u8>::empty(),
        s.outbound == Seq::<u8>::empty(),
    ensures
        read_step(loopback_step(write_step(s, b)), b.len()).1 == b,
        read_step(loopback_step(write_step(s, b)), b.len()).0.inbound == Seq::<u8>::empty(),
{
    assert(write_step(s, b).outbound =~= b);
    assert(loopback_step(write_step(s, b)).inbound =~= b);
    assert(b.take(b.len() as int) =~= b);
    assert(b.skip(b.len() as int) =~= Seq::<u8>::empty());
}

/// Appends all of `b` to `v`.
fn append_bytes(v: &mut Vec<u8>, b: &Vec<u8>)
    requires
        old(v)@.len() + b@.len() <= usize::MAX,
    ensures
        final(v)@ == old(v)@ + b@,
{
    let mut i: usize = 0;
    while i < b.len()
        invariant
            i <= b@.len(),
            v@ == old(v)@ + b@.take(i as int),
            old(v)@.len() + b@.len() <= usize::MAX,
        decreases b@.len() - i,
    {
        v.push(b[i]);
        i = i + 1;
        proof {
            assert(v@ =~= old(v)@ + b@.take(i as int));
        }
    }
    proof {
        assert(v@ =~= old(v)@ + b@);
    }
}

/// Removes up to `n` bytes from the front of `v` and returns them in order.
fn take_front(v: &mut Vec<u8>, n: usize) -> (out: Vec<u8>)
    ensures
        out@ == old(v)@.take(taken(old(v)@, n as nat)),
        final(v)@ == old(v)@.skip(taken(old(v)@, n as nat)),
{
    let k: usize = if n <= v.len() {
        n
    } else {
        v.len()
    };
    let mut out: Vec<u8> = Vec::new();
    let mut i: usize = 0;
    while i < k
        invariant
            i <= k,
            k <= v@.len(),
            v@ == old(v)@,
            out@ == v@.take(i as int),
        decreases k - i,
    {
        out.push(v[i]);
        i = i + 1;
        proof {
            assert(out@ =~= v@.take(i as int));
        }
    }
    let mut rest: Vec<u8> = Vec::new();
    let mut j: usize = k;
    while j < v.len()
        invariant
            k <= j <= v@.len(),
            v@ == old(v)@,
            rest@ == v@.subrange(k as int, j as int),
        decreases v@.len() - j,
    {
        rest.push(v[j]);
        j = j + 1;
        proof {
            assert(rest@ =~= v@.subrange(k as int, j as int));
        }
    }
    *v = rest;
    proof {
        assert(out@ =~= old(v)@.take(taken(old(v)@, n as nat)));
        assert(v@ =~= old(v)@.skip(taken(old(v)@, n as nat)));
    }
    out
}

} // verus!
