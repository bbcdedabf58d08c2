//! How a frame is laid over the buffers of a descriptor chain.

use vstd::prelude::*;
use crate::ring::Descriptor;

verus! {

/// Bytes of the header that precedes every frame on both queues.
pub const VIRTIO_HDR_LEN: u32 = 12;

/// Length recorded in the used ring for a transmitted chain.
pub const TX_USED_LEN: u32 = 0x100;

/// Total length of the buffers of a chain.
pub open spec fn capacity(descs: Seq<Descriptor>) -> nat
    decreases descs.len(),
{
    if descs.len() == 0 {
        0
    } else {
        capacity(descs.drop_last()) + descs.last().len as nat
    }
}

/// The smaller of two lengths.
pub open spec fn min_nat(a: nat, b: nat) -> nat {
    if a <= b {
        a
    } else {
        b
    }
}

/// A piece of a frame and the guest address it is copied to.
#[derive(Clone, Copy, Debug, PartialEq, Eq, Structural)]
pub struct Segment {
    /// Guest address of the receiving buffer.
    pub addr: u64,
    /// Offset of the piece in the frame.
    pub start: usize,
    /// Number of bytes in the piece.
    pub len: usize,
}

/// The piece of a frame of `frame_len` bytes that goes into buffer `i` of
/// the chain: it starts where the buffers before it are full and takes as
/// much as the buffer holds or the frame has left.
pub open spec fn segment_at(descs: Seq<Descriptor>, frame_len: nat, i: int) -> Segment
    recommends
        0 <= i < descs.len(),
{
    let start = min_nat(frame_len, capacity(descs.take(i)));
    Segment {
        addr: descs[i].addr,
        start: start as usize,
        len: min_nat(descs[i].len as nat, (frame_len - start) as nat) as usize,
    }
}

/// How a received frame is copied into a chain.
#[derive(Debug)]
pub struct RxPlan {
    /// The copies to make, in chain order.
    pub segments: Vec<Segment>,
    /// Bytes of the frame that reach the guest.
    pub used: u32,
    /// Whether the frame is longer than the chain can hold.
    pub oversized: bool,
}

impl RxPlan {
    /// The plan for a frame of `frame_len` bytes over `descs`: one segment
    /// for each buffer up to the one that completes the frame, the rest of
    /// the frame dropped when the chain is too short.
    pub open spec fn matches_transfer(self, descs: Seq<Descriptor>, frame_len: nat) -> bool {
        &&& self.used as nat == min_nat(frame_len, capacity(descs))
        &&& self.oversized == (capacity(descs) < frame_len)
        &&& self.segments@.len() <= descs.len()
        &&& forall|i: int|
            0 <= i < self.segments@.len() ==> #[trigger] self.segments@[i] == segment_at(
                descs,
                frame_len,
                i,
            )
        &&& forall|i: int|
            0 <= i < self.segments@.len() ==> #[trigger] capacity(descs.take(i)) < frame_len
        &&& self.segments@.len() < descs.len() ==> capacity(descs.take(self.segments@.len() as int))
            >= frame_len
    }
}

/// Extending a chain by one buffer adds that buffer's length.
pub proof fn lemma_capacity_step(descs: Seq<Descriptor>, i: int)
    requires
        0 <= i < descs.len(),
    ensures
        capacity(descs.take(i + 1)) == capacity(descs.take(i)) + descs[i].len as nat,
{
    assert(descs.take(i + 1).drop_last() =~= descs.take(i));
}

/// A chain holds at least what any of its prefixes holds.
pub proof fn lemma_capacity_monotone(descs: Seq<Descriptor>, i: int, j: int)
    requires
        0 <= i <= j <= descs.len(),
    ensures
        capacity(descs.take(i)) <= capacity(descs.take(j)),
    decreases j - i,
{
    if i < j {
        lemma_capacity_monotone(descs, i, j - 1);
        lemma_capacity_step(descs, j - 1);
    }
}

/// The bytes of `frame` that the first `n` segments of its transfer over
/// `descs` carry, in order.
pub open spec fn delivered(descs: Seq<Descriptor>, frame: Seq<u8>, n: int) -> Seq<u8>
    recommends
        0 <= n <= descs.len(),
    decreases n,
{
    if n <= 0 {
        Seq::empty()
    } else {
        let s = segment_at(descs, frame.len(), n - 1);
        delivered(descs, frame, n - 1) + frame.subrange(s.start as int, s.start + s.len)
    }
}

/// The segments of a transfer tile the frame: each starts where the one
/// before it ends, none is longer than its buffer, and together the first
/// `n` carry the frame's first bytes, as many as those `n` buffers hold or
/// the whole frame if it is shorter.
pub proof fn lemma_segments_tile_frame(descs: Seq<Descriptor>, frame: Seq<u8>, n: int)
    requires
        0 <= n <= descs.len(),
        frame.len() <= usize::MAX,
    ensures
        delivered(descs, frame, n) == frame.subrange(
            0,
            min_nat(frame.len(), capacity(descs.take(n))) as int,
        ),
        forall|i: int|
            0 <= i < n ==> (#[trigger] segment_at(descs, frame.len(), i)).len <= descs[i].len,
        forall|i: int|
            0 <= i < n - 1 ==> (#[trigger] segment_at(descs, frame.len(), i)).start + segment_at(
                descs,
                frame.len(),
                i,
            ).len == segment_at(descs, frame.len(), i + 1).start,
    decreases n,
{
    if n <= 0 {
        assert(descs.take(0) =~= Seq::<Descriptor>::empty());
        assert(delivered(descs, frame, n) =~= frame.subrange(0, 0));
    } else {
        lemma_segments_tile_frame(descs, frame, n - 1);
        lemma_capacity_step(descs, n - 1);
        let s = segment_at(descs, frame.len(), n - 1);
        let before = min_nat(frame.len(), capacity(descs.take(n - 1)));
        let after = min_nat(frame.len(), capacity(descs.take(n)));
        assert(s.start == before);
        assert(s.start + s.len == after);
        assert(frame.subrange(0, before as int) + frame.subrange(before as int, after as int)
            =~= frame.subrange(0, after as int));
        if n >= 2 {
            lemma_capacity_step(descs, n - 2);
        }
    }
}

/// A frame that fits its chain arrives whole; a longer one arrives cut to
/// the chain's capacity.
pub proof fn lemma_transfer_complete_or_truncated(descs: Seq<Descriptor>, frame: Seq<u8>)
    requires
        frame.len() <= usize::MAX,
    ensures
        capacity(descs) >= frame.len() ==> delivered(descs, frame, descs.len() as int) == frame,
        capacity(descs) < frame.len() ==> delivered(descs, frame, descs.len() as int)
            == frame.subrange(0, capacity(descs) as int),
{
    lemma_segments_tile_frame(descs, frame, descs.len() as int);
    assert(descs.take(descs.len() as int) =~= descs);
    assert(frame.subrange(0, frame.len() as int) =~= frame);
}

/// The segments of a plan carry exactly the bytes the plan counts as used:
/// the frame's first `used` bytes, in order. That is the whole frame unless
/// the plan is marked oversized, and then it is as much as the chain holds.
pub proof fn lemma_plan_delivers_used(plan: RxPlan, descs: Seq<Descriptor>, frame: Seq<u8>)
    requires
        plan.matches_transfer(descs, frame.len()),
        frame.len() <= usize::MAX,
    ensures
        delivered(descs, frame, plan.segments@.len() as int) == frame.subrange(0, plan.used as int),
        !plan.oversized ==> plan.used == frame.len() && delivered(
            descs,
            frame,
            plan.segments@.len() as int,
        ) == frame,
        plan.oversized ==> plan.used == capacity(descs) && plan.used < frame.len()
            && plan.segments@.len() == descs.len(),
{
    let n = plan.segments@.len() as int;
    lemma_segments_tile_frame(descs, frame, n);
    lemma_capacity_monotone(descs, n, descs.len() as int);
    assert(descs.take(descs.len() as int) =~= descs);
    assert(frame.subrange(0, frame.len() as int) =~= frame);
}

/// Lays a frame of `frame_len` bytes over the buffers of a chain.
pub fn plan_rx(descs: &Vec<Descriptor>, frame_len: usize) -> (plan: RxPlan)
    requires
        frame_len <= u32::MAX,
    ensures
        plan.matches_transfer(descs@, frame_len as nat),
{
    let mut segments: Vec<Segment> = Vec::new();
    let mut count: usize = 0;
    let mut i: usize = 0;
    proof {
        assert(descs@.take(0) =~= Seq::<Descriptor>::empty());
    }
    while i < descs.len() && count < frame_len
        invariant
            i <= descs.len(),
            count <= frame_len <= u32::MAX,
            segments@.len() == i,
            count as nat == min_nat(frame_len as nat, capacity(descs@.take(i as int))),
            forall|k: int|
                0 <= k < i ==> #[trigger] segments@[k] == segment_at(descs@, frame_len as nat, k),
            forall|k: int| 0 <= k < i ==> #[trigger] capacity(descs@.take(k)) < frame_len,
        decreases descs.len() - i,
    {
        let left: usize = frame_len - count;
        let room: usize = descs[i].len as usize;
        let len: usize = if left < room {
            left
        } else {
            room
        };
        proof {
            lemma_capacity_step(descs@, i as int);
        }
        segments.push(Segment { addr: descs[i].addr, start: count, len });
        count = count + len;
        i = i + 1;
    }
    proof {
        lemma_capacity_monotone(descs@, i as int, descs@.len() as int);
        assert(descs@.take(descs@.len() as int) =~= descs@);
    }
    RxPlan { segments, used: count as u32, oversized: count != frame_len }
}

/// Whether a chain offered for transmission starts with a buffer that can
/// hold the frame header.
pub open spec fn spec_tx_well_formed(descs: Seq<Descriptor>) -> bool {
    descs.len() > 0 && descs[0].len >= VIRTIO_HDR_LEN
}

/// Tests a chain offered for transmission: it is malformed when it is empty
/// or its first buffer is shorter than the frame header.
pub fn tx_well_formed(descs: &Vec<Descriptor>) -> (ok: bool)
    ensures
        ok == spec_tx_well_formed(descs@),
{
    descs.len() > 0 && descs[0].len >= VIRTIO_HDR_LEN
}

/// The buffers' contents one after another.
pub open spec fn concat(parts: Seq<Seq<u8>>) -> Seq<u8>
    decreases parts.len(),
{
    if parts.len() == 0 {
        Seq::empty()
    } else {
        concat(parts.drop_last()) + parts.last()
    }
}

/// The contents of the first `n` of `parts`, as views.
pub open spec fn views(parts: Seq<Vec<u8>>, n: int) -> Seq<Seq<u8>> {
    Seq::new(n as nat, |i: int| parts[i]@)
}

/// Joins the contents read from a chain's buffers into the frame that is
/// sent: every byte of every buffer, in chain order.
pub fn assemble(parts: &Vec<Vec<u8>>) -> (frame: Vec<u8>)
    ensures
        frame@ == concat(views(parts@, parts@.len() as int)),
{
    let mut frame: Vec<u8> = Vec::new();
    let mut i: usize = 0;
    assert(views(parts@, 0) =~= Seq::<Seq<u8>>::empty());
    while i < parts.len()
        invariant
            i <= parts.len(),
            frame@ == concat(views(parts@, i as int)),
        decreases parts.len() - i,
    {
        let part = &parts[i];
        let mut j: usize = 0;
        let ghost before = frame@;
        while j < part.len()
            invariant
                j <= part.len(),
                frame@ == before + part@.subrange(0, j as int),
            decreases part.len() - j,
        {
            frame.push(part[j]);
            j = j + 1;
            assert(frame@ =~= before + part@.subrange(0, j as int));
        }
        assert(part@.subrange(0, j as int) =~= part@);
        assert(views(parts@, i + 1).drop_last() =~= views(parts@, i as int));
        assert(views(parts@, i + 1).last() == part@);
        i = i + 1;
    }
    frame
}

/// What the engine does once it has found a ring empty and asked for
/// notifications again.
#[derive(Clone, Copy, Debug, PartialEq, Eq, Structural)]
pub enum AfterDrain {
    /// Entries arrived meanwhile: switch notifications off and drain again.
    DrainAgain,
    /// Nothing is pending: yield until the driver notifies.
    Yield,
}

/// Decides whether a drain may end. `raced` is what re-enabling
/// notifications reported: `Some(true)` when the driver added entries
/// between the last look at the ring and the re-enabling, `None` when the
/// ring could not be read. The drain ends only when the ring was seen to
/// hold nothing new or cannot be read at all.
pub fn after_drain(raced: Option<bool>) -> (next: AfterDrain)
    ensures
        next == AfterDrain::DrainAgain <==> raced == Some(true),
        next == AfterDrain::Yield <==> raced != Some(true),
{
    match raced {
        Some(true) => AfterDrain::DrainAgain,
        _ => AfterDrain::Yield,
    }
}

} // verus!
