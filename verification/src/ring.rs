//! Split virtqueues in guest memory.
//!
//! The library keeps a queue as plain values. The ring accesses themselves are
//! made by the `virtio-queue` and `vm-memory` crates, on a queue restored from
//! those values for each access. The functions that call them are trusted.
//! They say when an access is refused whatever memory holds and how the
//! queue's positions move, and nothing of what is found in memory, because
//! the guest may change it between any two accesses.

use vstd::prelude::*;
use virtio_queue::{Queue, QueueOwnedT, QueueState, QueueT};
use vm_memory::{Bytes, GuestAddress, GuestMemoryMmap};

verus! {

/// Largest ring the device offers.
pub const MAX_QUEUE_SIZE: u16 = 256;

#[verifier::external_type_specification]
#[verifier::external_body]
#[verifier::reject_recursive_types(R)]
pub struct ExGuestRegionCollection<R>(vm_memory::GuestRegionCollection<R>);

#[verifier::external_type_specification]
#[verifier::external_body]
#[verifier::reject_recursive_types(B)]
pub struct ExGuestRegionMmap<B>(vm_memory::GuestRegionMmap<B>);

/// One buffer of a descriptor chain.
#[derive(Clone, Copy, Debug, PartialEq, Eq, Structural)]
pub struct Descriptor {
    pub addr: u64,
    pub len: u32,
    pub flags: u16,
}

/// A descriptor chain taken from an available ring: the index of its head
/// and its buffers in chain order.
#[derive(Debug)]
pub struct Chain {
    pub head: u16,
    pub descs: Vec<Descriptor>,
}

/// What a look at the available ring found.
#[derive(Debug)]
pub enum Polled {
    /// The ring could not be read, or the queue is not set up.
    Fault,
    /// No chain is waiting.
    Empty,
    /// The next chain; the queue has moved past it.
    Next(Chain),
}

/// Ring sizes a driver may choose: the powers of two up to the maximum.
pub open spec fn is_ring_size(n: u16) -> bool {
    n == 1 || n == 2 || n == 4 || n == 8 || n == 16 || n == 32 || n == 64 || n == 128 || n == 256
}

/// A virtqueue as the device sees it.
#[derive(Clone, Copy, Debug, PartialEq, Eq, Structural)]
pub struct VirtQueue {
    /// Ring size in entries.
    pub size: u16,
    /// Whether the driver has placed the rings.
    pub ready: bool,
    /// Page frame number the driver wrote, 0 while unplaced.
    pub pfn: u32,
    /// Guest address of the descriptor table.
    pub desc_table: u64,
    /// Guest address of the available ring.
    pub avail_ring: u64,
    /// Guest address of the used ring.
    pub used_ring: u64,
    /// Position in the available ring the device will read next.
    pub next_avail: u16,
    /// Position in the used ring the device will fill next.
    pub next_used: u16,
}

impl VirtQueue {
    /// The state of a queue the driver has not configured.
    pub open spec fn spec_unconfigured() -> VirtQueue {
        VirtQueue {
            size: MAX_QUEUE_SIZE,
            ready: false,
            pfn: 0,
            desc_table: 0,
            avail_ring: 0,
            used_ring: 0,
            next_avail: 0,
            next_used: 0,
        }
    }

    /// The ring size is one a driver may choose.
    pub open spec fn wf(self) -> bool {
        is_ring_size(self.size)
    }

    /// The rings lie at addresses the ring accesses accept: the descriptor
    /// table at a multiple of 16, the available ring at a multiple of 2,
    /// the used ring at a multiple of 4.
    pub open spec fn aligned(self) -> bool {
        self.desc_table % 16 == 0 && self.avail_ring % 2 == 0 && self.used_ring % 4 == 0
    }

    /// Whether `self` differs from `before` in its ring positions at most.
    pub open spec fn same_setup(self, before: VirtQueue) -> bool {
        &&& self.size == before.size
        &&& self.ready == before.ready
        &&& self.pfn == before.pfn
        &&& self.desc_table == before.desc_table
        &&& self.avail_ring == before.avail_ring
        &&& self.used_ring == before.used_ring
    }

    /// Tests the invariant of the queue.
    pub fn is_valid(&self) -> (ok: bool)
        ensures
            ok == self.wf(),
    {
        let n: u16 = self.size;
        n == 1 || n == 2 || n == 4 || n == 8 || n == 16 || n == 32 || n == 64 || n == 128 || n
            == 256
    }

    /// A queue in its unconfigured state.
    pub fn unconfigured() -> (q: VirtQueue)
        ensures
            q == VirtQueue::spec_unconfigured(),
            q.wf(),
    {
        VirtQueue {
            size: MAX_QUEUE_SIZE,
            ready: false,
            pfn: 0,
            desc_table: 0,
            avail_ring: 0,
            used_ring: 0,
            next_avail: 0,
            next_used: 0,
        }
    }
}

/// The powers of two that a 16-bit size can be.
pub open spec fn is_power_of_two(n: u16) -> bool {
    n == 1 || n == 2 || n == 4 || n == 8 || n == 16 || n == 32 || n == 64 || n == 128 || n == 256
        || n == 512 || n == 1024 || n == 2048 || n == 4096 || n == 8192 || n == 16384 || n == 32768
}

/// The queues that the outside crate restores for a device that offers
/// rings of up to `max_size` entries: both sizes are powers of two, the
/// queue's is no larger than the maximum, and the descriptor table, the
/// available ring and the used ring lie at multiples of 16, 2 and 4.
pub open spec fn accepted(q: VirtQueue, max_size: u16) -> bool {
    &&& is_power_of_two(max_size)
    &&& is_power_of_two(q.size)
    &&& q.size <= max_size
    &&& q.aligned()
}

/// The ring position after `at`; positions wrap at 16 bits.
pub open spec fn next_position(at: u16) -> u16 {
    if at == 0xffff {
        0
    } else {
        (at + 1) as u16
    }
}

/// `Queue::try_from` on a `QueueState` made of `q`, `max_size` and
/// `event_idx`, then `QueueOwnedT::iter` and one `next` on it, with the
/// chain's descriptors collected in order, and `QueueT::next_avail` for the
/// position afterwards. Nothing comes back for a queue that is not
/// accepted. The look fails for a queue that is not ready or has its
/// available ring at address 0. The position moves on by one when a chain
/// is handed out and stays otherwise. Nothing is claimed of the chain
/// itself.
#[verifier::external_body]
pub(crate) fn next_chain(
    q: &VirtQueue,
    max_size: u16,
    event_idx: bool,
    mem: &GuestMemoryMmap<()>,
) -> (out: Option<(Polled, u16)>)
    ensures
        !accepted(*q, max_size) ==> out is None,
        out matches Some(seen) ==> (!q.ready || q.avail_ring == 0 ==> seen.0 is Fault),
        out matches Some(seen) ==> (seen.0 is Next ==> seen.1 == next_position(q.next_avail)),
        out matches Some(seen) ==> (!(seen.0 is Next) ==> seen.1 == q.next_avail),
{
    let state = QueueState {
        max_size, next_avail: q.next_avail, next_used: q.next_used, event_idx_enabled: event_idx,
        size: q.size, ready: q.ready, desc_table: q.desc_table, avail_ring: q.avail_ring, used_ring: q.used_ring,
    };
    let mut queue = Queue::try_from(state).ok()?;
    let found = match queue.iter(mem) {
        Ok(mut avail) => match avail.next() {
            Some(c) => Polled::Next(Chain { head: c.head_index(), descs: c.map(|d| Descriptor { addr: d.addr().0, len: d.len(), flags: d.flags() }).collect() }),
            None => Polled::Empty,
        },
        Err(_) => Polled::Fault,
    };
    Some((found, queue.next_avail()))
}

/// `Queue::try_from` on a `QueueState` made of `q`, `max_size` and
/// `event_idx`, then `QueueT::add_used`, which posts a used-ring entry for
/// the chain headed by `head` with `len` bytes, and `QueueT::next_used` for
/// the position afterwards, handed back when the entry was posted. The
/// access is refused for a queue that is not accepted and for a head
/// outside the ring. A posted entry moves the position on by one.
#[verifier::external_body]
pub(crate) fn add_used(
    q: &VirtQueue,
    max_size: u16,
    event_idx: bool,
    mem: &GuestMemoryMmap<()>,
    head: u16,
    len: u32,
) -> (out: Option<u16>)
    ensures
        !accepted(*q, max_size) || head >= q.size ==> out is None,
        out matches Some(at) ==> at == next_position(q.next_used),
{
    let state = QueueState {
        max_size, next_avail: q.next_avail, next_used: q.next_used, event_idx_enabled: event_idx,
        size: q.size, ready: q.ready, desc_table: q.desc_table, avail_ring: q.avail_ring, used_ring: q.used_ring,
    };
    let mut queue = Queue::try_from(state).ok()?;
    queue.add_used(mem, head, len).ok()?;
    Some(queue.next_used())
}

/// `Queue::try_from` on a `QueueState` made of `q`, `max_size` and
/// `event_idx`, then `QueueT::enable_notification`, which asks the driver
/// to notify again and reports whether entries arrived in the meantime.
/// `None` when the ring could not be accessed, as for every queue that is
/// not accepted.
#[verifier::external_body]
pub(crate) fn enable_notification(
    q: &VirtQueue,
    max_size: u16,
    event_idx: bool,
    mem: &GuestMemoryMmap<()>,
) -> (out: Option<bool>)
    ensures
        !accepted(*q, max_size) ==> out is None,
{
    let state = QueueState {
        max_size, next_avail: q.next_avail, next_used: q.next_used, event_idx_enabled: event_idx,
        size: q.size, ready: q.ready, desc_table: q.desc_table, avail_ring: q.avail_ring, used_ring: q.used_ring,
    };
    Queue::try_from(state).ok()?.enable_notification(mem).ok()
}

/// `Queue::try_from` on a `QueueState` made of `q`, `max_size` and
/// `event_idx`, then `QueueT::disable_notification`, which asks the driver
/// not to notify. `true` when the outside calls succeeded, which they do
/// not for a queue that is not accepted.
#[verifier::external_body]
pub(crate) fn disable_notification(
    q: &VirtQueue,
    max_size: u16,
    event_idx: bool,
    mem: &GuestMemoryMmap<()>,
) -> (ok: bool)
    ensures
        !accepted(*q, max_size) ==> !ok,
{
    let state = QueueState {
        max_size, next_avail: q.next_avail, next_used: q.next_used, event_idx_enabled: event_idx,
        size: q.size, ready: q.ready, desc_table: q.desc_table, avail_ring: q.avail_ring, used_ring: q.used_ring,
    };
    match Queue::try_from(state) {
        Ok(mut queue) => queue.disable_notification(mem).is_ok(),
        Err(_) => false,
    }
}

/// `Queue::try_from` on a `QueueState` made of `q`, `max_size` and
/// `event_idx`, then `QueueT::needs_notification`: whether the driver
/// wants an interrupt for what was posted. `None` for a queue that is not
/// accepted. With the event index off the outside crate answers yes
/// without a look at memory.
#[verifier::external_body]
pub(crate) fn needs_notification(
    q: &VirtQueue,
    max_size: u16,
    event_idx: bool,
    mem: &GuestMemoryMmap<()>,
) -> (out: Option<bool>)
    ensures
        !accepted(*q, max_size) ==> out is None,
        accepted(*q, max_size) && !event_idx ==> out == Some(true),
{
    let state = QueueState {
        max_size, next_avail: q.next_avail, next_used: q.next_used, event_idx_enabled: event_idx,
        size: q.size, ready: q.ready, desc_table: q.desc_table, avail_ring: q.avail_ring, used_ring: q.used_ring,
    };
    Queue::try_from(state).ok()?.needs_notification(mem).ok()
}

/// `Bytes::write_slice` on guest memory: copies `data` to guest address
/// `addr`. `true` when the whole slice was written.
#[verifier::external_body]
pub(crate) fn write_guest(mem: &GuestMemoryMmap<()>, data: &[u8], addr: u64) -> bool {
    mem.write_slice(data, GuestAddress(addr)).is_ok()
}

/// `Bytes::read_slice` on guest memory: fills a buffer of `len` bytes from
/// guest address `addr`. The buffer comes back only when it was filled.
#[verifier::external_body]
pub(crate) fn read_guest(mem: &GuestMemoryMmap<()>, addr: u64, len: u32) -> (out: Option<Vec<u8>>)
    ensures
        out matches Some(bytes) ==> bytes@.len() == len,
{
    let mut buffer = vec![0u8; len as usize];
    match mem.read_slice(&mut buffer, GuestAddress(addr)) {
        Ok(()) => Some(buffer),
        Err(_) => None,
    }
}

} // verus!
