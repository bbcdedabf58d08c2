//! The network device: its register window, and the relay of frames
//! between the host interface and the two virtqueues, one step at a time.
//!
//! The host side is not reached from here. A step hands back what is to be
//! sent or signalled, and the caller performs it and calls again.

use vstd::prelude::*;
use vm_memory::GuestMemoryMmap;
use crate::config_space::{config_bytes, NetConfig};
use crate::error::VirtioNetError;
use crate::features::{negotiated, offload_flags, spec_offered_features, spec_offload_flags};
use crate::mmio::{
    decode_offset, spec_decode_offset, Effect, VirtioConfig, DEVICE_ID_NET, INTERRUPT_USED_RING,
    RX_QUEUE, STATUS_FAILED, TX_QUEUE,
};
use crate::ring::{
    add_used, disable_notification, enable_notification, needs_notification, next_chain,
    next_position, read_guest, write_guest, Chain, Descriptor, Polled, VirtQueue,
    MAX_QUEUE_SIZE,
};
use crate::transfer::{
    after_drain, assemble, capacity, concat, min_nat, plan_rx, spec_tx_well_formed,
    tx_well_formed, views, AfterDrain, RxPlan, TX_USED_LEN, VIRTIO_HDR_LEN,
};

verus! {

/// What a look at a queue's available ring found.
#[derive(Debug)]
pub enum Available {
    /// The next chain: on the receive queue buffers to fill, on the
    /// transmit queue a frame to send.
    Buffer(Chain),
    /// No chain was waiting, but the driver added one while notifications
    /// were switched back on: look again.
    Retry,
    /// No chain is waiting and the driver will notify when one is, or the
    /// device is not in operation.
    Halt,
    /// A ring access failed; the device is marked failed.
    Fault,
}

/// How a frame went into a receive chain.
#[derive(Clone, Copy, Debug, PartialEq, Eq, Structural)]
pub struct Delivery {
    /// Bytes of the frame that reached the guest.
    pub used: u32,
    /// Whether the rest of the frame did not fit and was dropped.
    pub oversized: bool,
}

impl Delivery {
    /// The diagnostic to record for the delivery, if any.
    pub fn diagnostic(&self) -> (out: Option<VirtioNetError>)
        ensures
            out == if self.oversized {
                Some(VirtioNetError::OversizedFrame)
            } else {
                None::<VirtioNetError>
            },
    {
        if self.oversized {
            Some(VirtioNetError::OversizedFrame)
        } else {
            None
        }
    }
}

/// A frame taken from a transmit chain.
#[derive(Debug)]
pub struct TxFrame {
    /// The bytes to write to the host interface, header included.
    pub frame: Vec<u8>,
    /// Whether the driver is to be interrupted for the completion.
    pub signal: bool,
}

/// What one step of draining the transmit queue produced.
#[derive(Debug)]
pub enum TxStep {
    /// A frame to write to the host interface; `signal` when the driver is
    /// to be interrupted for it.
    Send { frame: Vec<u8>, signal: bool },
    /// A malformed chain was skipped.
    Skipped,
    /// The ring looked empty but entries arrived meanwhile: step again.
    Again,
    /// The ring is empty and notifications are on, or the device is not
    /// in operation.
    Done,
    /// A ring or buffer access failed; the device is marked failed.
    Fault,
}

/// What the host interface is set to when the device goes into operation.
#[derive(Clone, Copy, Debug, PartialEq, Eq, Structural)]
pub struct Activation {
    /// Length of the header the host interface puts before each frame.
    pub vnet_hdr_size: u32,
    /// Offload flags of the host interface.
    pub offload: u32,
}

/// The interrupt status after a queue was asked whether the driver wants
/// an interrupt, and whether the interrupt line is to be signalled.
pub open spec fn spec_raise_interrupt(status: u8, wanted: Option<bool>) -> (u8, bool) {
    if wanted == Some(true) {
        (status | INTERRUPT_USED_RING, true)
    } else {
        (status, false)
    }
}

/// Sets the used-ring bit and asks for a signal exactly when the queue
/// reported that the driver wants an interrupt; bits already set stay.
pub fn raise_interrupt(status: u8, wanted: Option<bool>) -> (out: (u8, bool))
    ensures
        out == spec_raise_interrupt(status, wanted),
        out.0 & status == status,
{
    assert((status | 1u8) & status == status) by (bit_vector);
    assert(status & status == status) by (bit_vector);
    match wanted {
        Some(true) => (status | INTERRUPT_USED_RING, true),
        _ => (status, false),
    }
}

/// Buffers read whole make a frame as long as their chain.
pub proof fn lemma_concat_fills_capacity(parts: Seq<Vec<u8>>, descs: Seq<Descriptor>, n: int)
    requires
        0 <= n <= parts.len(),
        parts.len() == descs.len(),
        forall|i: int| 0 <= i < parts.len() ==> (#[trigger] parts[i])@.len() == descs[i].len,
    ensures
        concat(views(parts, n)).len() == capacity(descs.take(n)),
    decreases n,
{
    if n > 0 {
        lemma_concat_fills_capacity(parts, descs, n - 1);
        crate::transfer::lemma_capacity_step(descs, n - 1);
        assert(views(parts, n).drop_last() =~= views(parts, n - 1));
        assert(views(parts, n).last() == parts[n - 1]@);
    } else {
        assert(descs.take(0) =~= Seq::<Descriptor>::empty());
        assert(views(parts, 0) =~= Seq::<Seq<u8>>::empty());
    }
}

/// Takes the next chain of `q` from guest memory. A chain handed out moves
/// the queue's position in the available ring on by one; otherwise the
/// queue stays as it is. The look fails for a queue that is not ready or
/// whose size or ring addresses the ring accesses do not accept.
fn poll(q: &mut VirtQueue, mem: &GuestMemoryMmap<()>) -> (found: Polled)
    ensures
        final(q).same_setup(*old(q)),
        final(q).next_used == old(q).next_used,
        found is Next ==> final(q).next_avail == next_position(old(q).next_avail),
        !(found is Next) ==> *final(q) == *old(q),
        !(old(q).wf() && old(q).aligned()) || !old(q).ready || old(q).avail_ring == 0 ==> found
            is Fault,
{
    match next_chain(q, MAX_QUEUE_SIZE, false, mem) {
        Some((found, at)) => {
            q.next_avail = at;
            found
        },
        None => Polled::Fault,
    }
}

/// Posts a used-ring entry of `len` bytes for the chain headed by `head`
/// and says whether the ring took it. A posted entry moves the queue's
/// position in the used ring on by one; otherwise the queue stays as it
/// is. Nothing is posted for a head outside the ring, nor to a queue whose
/// size or ring addresses the ring accesses do not accept.
fn post_used(q: &mut VirtQueue, mem: &GuestMemoryMmap<()>, head: u16, len: u32) -> (ok: bool)
    ensures
        final(q).same_setup(*old(q)),
        final(q).next_avail == old(q).next_avail,
        ok ==> final(q).next_used == next_position(old(q).next_used),
        !ok ==> *final(q) == *old(q),
        !(old(q).wf() && old(q).aligned()) || head >= old(q).size ==> !ok,
{
    match add_used(q, MAX_QUEUE_SIZE, false, mem, head, len) {
        Some(at) => {
            q.next_used = at;
            true
        },
        None => false,
    }
}

/// Switches the driver's notifications for `q` off. `false` on a fault, as
/// for every queue whose size or ring addresses the ring accesses do not
/// accept.
fn quiet(q: &VirtQueue, mem: &GuestMemoryMmap<()>) -> (ok: bool)
    ensures
        !(q.wf() && q.aligned()) ==> !ok,
{
    disable_notification(q, MAX_QUEUE_SIZE, false, mem)
}

/// Switches the driver's notifications for `q` back on and reports
/// whether entries arrived meanwhile. `None` on a fault, as for every
/// queue whose size or ring addresses the ring accesses do not accept.
fn rearm(q: &VirtQueue, mem: &GuestMemoryMmap<()>) -> (raced: Option<bool>)
    ensures
        !(q.wf() && q.aligned()) ==> raced is None,
{
    enable_notification(q, MAX_QUEUE_SIZE, false, mem)
}

/// Whether the driver wants an interrupt for what was posted to `q`. The
/// queues of this device run without the event index, and such a queue
/// always wants one; there is no answer for a queue whose size or ring
/// addresses the ring accesses do not accept.
fn wants_interrupt(q: &VirtQueue, mem: &GuestMemoryMmap<()>) -> (wanted: Option<bool>)
    ensures
        wanted == if q.wf() && q.aligned() {
            Some(true)
        } else {
            None::<bool>
        },
{
    needs_notification(q, MAX_QUEUE_SIZE, false, mem)
}

/// Copies `frame` into the buffers `descs` as its transfer plan says. The
/// plan comes back when every copy succeeded, which is owed when there is
/// nothing to copy.
pub fn copy_frame(mem: &GuestMemoryMmap<()>, descs: &Vec<Descriptor>, frame: &[u8]) -> (out: Result<
    RxPlan,
    VirtioNetError,
>)
    requires
        frame@.len() <= u32::MAX,
    ensures
        out matches Ok(plan) ==> plan.matches_transfer(descs@, frame@.len()),
        out matches Err(e) ==> e == VirtioNetError::GuestMemoryFault,
        descs@.len() == 0 || frame@.len() == 0 ==> out is Ok,
{
    let plan = plan_rx(descs, frame.len());
    let mut i: usize = 0;
    proof {
        crate::transfer::lemma_segments_tile_frame(descs@, frame@, plan.segments@.len() as int);
        if plan.segments@.len() > 0 {
            assert(capacity(descs@.take(0)) < frame@.len());
        }
    }
    while i < plan.segments.len()
        invariant
            i <= plan.segments@.len() <= descs@.len(),
            frame@.len() <= u32::MAX,
            plan.matches_transfer(descs@, frame@.len()),
            plan.segments@.len() > 0 ==> descs@.len() > 0 && frame@.len() > 0,
        decreases plan.segments.len() - i,
    {
        let seg = plan.segments[i];
        assert(seg == crate::transfer::segment_at(descs@, frame@.len(), i as int));
        let piece = vstd::slice::slice_subrange(frame, seg.start, seg.start + seg.len);
        if !write_guest(mem, piece, seg.addr) {
            return Err(VirtioNetError::GuestMemoryFault);
        }
        i = i + 1;
    }
    Ok(plan)
}

/// Reads the contents of the buffers `descs`, one vector for each, in
/// chain order. They come back when every read succeeded, which is owed
/// for an empty chain.
pub fn gather_tx(mem: &GuestMemoryMmap<()>, descs: &Vec<Descriptor>) -> (out: Result<
    Vec<Vec<u8>>,
    VirtioNetError,
>)
    ensures
        out matches Ok(parts) ==> parts@.len() == descs@.len() && forall|i: int|
            0 <= i < parts@.len() ==> (#[trigger] parts@[i])@.len() == descs@[i].len,
        out matches Err(e) ==> e == VirtioNetError::GuestMemoryFault,
        descs@.len() == 0 ==> out is Ok,
{
    let mut parts: Vec<Vec<u8>> = Vec::new();
    let mut i: usize = 0;
    while i < descs.len()
        invariant
            i <= descs@.len(),
            parts@.len() == i,
            descs@.len() > 0 || i == 0,
            forall|k: int| 0 <= k < i ==> (#[trigger] parts@[k])@.len() == descs@[k].len,
        decreases descs.len() - i,
    {
        match read_guest(mem, descs[i].addr, descs[i].len) {
            Some(bytes) => {
                parts.push(bytes);
            },
            None => {
                return Err(VirtioNetError::GuestMemoryFault);
            },
        }
        i = i + 1;
    }
    Ok(parts)
}

/// A virtio network device.
#[derive(Debug)]
pub struct VirtioNet {
    /// The state behind the register window.
    pub device_config: VirtioConfig,
}

impl VirtioNet {
    /// The invariant of the device.
    pub open spec fn wf(self) -> bool {
        self.device_config.wf()
    }

    /// The status byte after a failed guest-memory access: `status` with
    /// the failed bit set.
    pub open spec fn failed(status: u8) -> u8 {
        status | STATUS_FAILED
    }

    /// Whether `self` came from `before` by relaying: nothing that the
    /// driver configured has changed.
    pub open spec fn relayed_from(self, before: VirtioNet) -> bool {
        let a = self.device_config;
        let b = before.device_config;
        &&& a.device_features == b.device_features
        &&& a.driver_features == b.driver_features
        &&& a.device_features_select == b.device_features_select
        &&& a.driver_features_select == b.driver_features_select
        &&& a.page_size == b.page_size
        &&& a.queue_select == b.queue_select
        &&& a.config_space == b.config_space
        &&& a.rx.same_setup(b.rx)
        &&& a.tx.same_setup(b.tx)
    }

    /// A device in its reset state that publishes `config`.
    pub fn new(config: &NetConfig, with_reserved: bool) -> (dev: VirtioNet)
        ensures
            dev.wf(),
            dev.device_config.config_space@ == config_bytes(*config),
            dev.device_config.device_features == spec_offered_features(with_reserved),
            dev.device_config.reset_state() == dev.device_config,
    {
        VirtioNet { device_config: VirtioConfig::new(config, with_reserved) }
    }

    /// Tests the invariant of the device.
    pub fn is_valid(&self) -> (ok: bool)
        ensures
            ok == self.wf(),
    {
        self.device_config.is_valid()
    }

    /// The virtio device type: a network device.
    pub fn device_type(&self) -> (id: u32)
        ensures
            id == DEVICE_ID_NET,
    {
        DEVICE_ID_NET
    }

    /// Reads `width` bytes at `offset` of the register window.
    pub fn virtio_mmio_read(&self, offset: u64, width: usize) -> (out: Result<
        Vec<u8>,
        VirtioNetError,
    >)
        requires
            self.wf(),
        ensures
            match spec_decode_offset(offset) {
                Some(reg) => match self.device_config.read_result(reg, width) {
                    Some(bytes) => out matches Ok(v) && v@ == bytes,
                    None => out == Err::<Vec<u8>, VirtioNetError>(VirtioNetError::RegisterError),
                },
                None => out == Err::<Vec<u8>, VirtioNetError>(VirtioNetError::RegisterError),
            },
    {
        match decode_offset(offset) {
            Some(reg) => self.device_config.read(reg, width),
            None => Err(VirtioNetError::RegisterError),
        }
    }

    /// Writes `data` at `offset` of the register window. A refused write
    /// changes nothing.
    pub fn virtio_mmio_write(&mut self, offset: u64, data: &[u8]) -> (out: Result<
        Effect,
        VirtioNetError,
    >)
        requires
            old(self).wf(),
        ensures
            final(self).wf(),
            match spec_decode_offset(offset) {
                Some(reg) => if data@.len() == 4 {
                    match old(self).device_config.write_result(
                        reg,
                        crate::bytes::from_le32(data@),
                    ) {
                        Some((state, effect)) => out == Ok::<Effect, VirtioNetError>(effect)
                            && final(self).device_config == state,
                        None => out == Err::<Effect, VirtioNetError>(
                            VirtioNetError::RegisterError,
                        ) && *final(self) == *old(self),
                    }
                } else {
                    out == Err::<Effect, VirtioNetError>(VirtioNetError::RegisterError) && *final(self) == *old(self)
                },
                None => out == Err::<Effect, VirtioNetError>(VirtioNetError::RegisterError)
                    && *final(self) == *old(self),
            },
    {
        match decode_offset(offset) {
            Some(reg) => self.device_config.write(reg, data),
            None => Err(VirtioNetError::RegisterError),
        }
    }

    /// What to set on the host interface when the driver has set the
    /// driver-ok bit: the header length, and the offloads that mirror the
    /// features in force.
    pub fn activate(&self) -> (out: Activation)
        ensures
            out.vnet_hdr_size == VIRTIO_HDR_LEN,
            out.offload == spec_offload_flags(self.device_config.negotiated()),
    {
        let active = negotiated(
            self.device_config.device_features,
            self.device_config.driver_features,
        );
        Activation { vnet_hdr_size: VIRTIO_HDR_LEN, offload: offload_flags(active) }
    }

    /// Marks the device failed after a guest-memory fault: sets the failed
    /// bit and takes the device out of operation.
    fn fail(&mut self)
        ensures
            final(self).device_config == (VirtioConfig {
                device_status: Self::failed(old(self).device_config.device_status),
                activated: false,
                ..old(self).device_config
            }),
    {
        self.device_config.device_status = self.device_config.device_status | STATUS_FAILED;
        self.device_config.activated = false;
    }

    /// Asks queue `queue_index` whether the driver wants an interrupt for
    /// what was posted to it, sets the used-ring interrupt bit if so, and
    /// says whether the interrupt line is to be signalled. Nothing else
    /// changes. The queues run without the event index, so the driver
    /// wants an interrupt whenever it is asked: the line is signalled
    /// unless the index names no queue or the queue's rings lie at
    /// addresses the ring accesses do not accept.
    pub fn maybe_notify(&mut self, mem: &GuestMemoryMmap<()>, queue_index: u32) -> (signal: bool)
        requires
            old(self).wf(),
        ensures
            final(self).device_config == (VirtioConfig {
                interrupt_status: final(self).device_config.interrupt_status,
                ..old(self).device_config
            }),
            final(self).device_config.interrupt_status == if signal {
                old(self).device_config.interrupt_status | INTERRUPT_USED_RING
            } else {
                old(self).device_config.interrupt_status
            },
            signal == (queue_index == RX_QUEUE && old(self).device_config.rx.aligned()
                || queue_index == TX_QUEUE && old(self).device_config.tx.aligned()),
    {
        if queue_index >= 2 {
            return false;
        }
        let q = if queue_index == 0 {
            self.device_config.rx
        } else {
            self.device_config.tx
        };
        let wanted = wants_interrupt(&q, mem);
        let (status, signal) = raise_interrupt(self.device_config.interrupt_status, wanted);
        self.device_config.interrupt_status = status;
        signal
    }

    /// Looks for a chain to receive the next frame, before anything is read
    /// from the host interface.
    ///
    /// Notifications are switched off and the next waiting chain is handed
    /// out. With none waiting, notifications are switched back on and the
    /// result says whether entries arrived meanwhile. No used entry is
    /// posted. A device that is not in operation, or whose receive queue
    /// the driver has not placed, halts at once.
    pub fn next_rx_chain(&mut self, mem: &GuestMemoryMmap<()>) -> (ready: Available)
        requires
            old(self).wf(),
        ensures
            final(self).wf(),
            final(self).relayed_from(*old(self)),
            final(self).device_config.tx == old(self).device_config.tx,
            final(self).device_config.interrupt_status == old(self).device_config.interrupt_status,
            final(self).device_config.rx.next_used == old(self).device_config.rx.next_used,
            ready is Buffer ==> final(self).device_config.rx.next_avail == next_position(
                old(self).device_config.rx.next_avail,
            ),
            !(ready is Buffer) ==> final(self).device_config.rx == old(self).device_config.rx,
            !old(self).device_config.activated || !old(self).device_config.rx.ready ==> ready
                is Halt && *final(self) == *old(self),
            old(self).device_config.activated && old(self).device_config.rx.ready && (!old(self).device_config.rx.aligned() || old(self).device_config.rx.avail_ring == 0) ==> ready
                is Fault,
            ready is Fault ==> !final(self).device_config.activated && final(self).device_config.device_status == Self::failed(old(self).device_config.device_status),
            !(ready is Fault) ==> final(self).device_config.activated == old(self).device_config.activated && final(self).device_config.device_status == old(self).device_config.device_status,
    {
        if !self.device_config.activated || !self.device_config.rx.ready {
            return Available::Halt;
        }
        let mut q = self.device_config.rx;
        if !quiet(&q, mem) {
            self.fail();
            return Available::Fault;
        }
        let found = poll(&mut q, mem);
        self.device_config.rx = q;
        match found {
            Polled::Fault => {
                self.fail();
                Available::Fault
            },
            Polled::Empty => {
                let raced = rearm(&q, mem);
                match after_drain(raced) {
                    AfterDrain::DrainAgain => Available::Retry,
                    AfterDrain::Yield => Available::Halt,
                }
            },
            Polled::Next(chain) => Available::Buffer(chain),
        }
    }

    /// Puts the chain handed out last back on the available ring, for when
    /// the host interface had no frame for it: the receive queue steps back
    /// one position, and nothing else changes.
    pub fn release_rx_chain(&mut self)
        ensures
            final(self).device_config == (VirtioConfig {
                rx: VirtQueue {
                    next_avail: if old(self).device_config.rx.next_avail == 0 {
                        0xffffu16
                    } else {
                        (old(self).device_config.rx.next_avail - 1) as u16
                    },
                    ..old(self).device_config.rx
                },
                ..old(self).device_config
            }),
    {
        let at: u16 = self.device_config.rx.next_avail;
        self.device_config.rx.next_avail = if at == 0 {
            0xffff
        } else {
            at - 1
        };
    }

    /// Copies one received frame into `chain` and posts its used entry.
    ///
    /// The frame goes into the chain's buffers in order. A frame longer
    /// than the chain is cut to the chain's capacity and the rest is
    /// dropped; the used entry records the bytes copied. A failed copy or
    /// post marks the device failed. A device that is not in operation, or
    /// whose receive queue the driver has not placed, refuses the frame
    /// and changes nothing.
    pub fn write_frame_to_guest(
        &mut self,
        mem: &GuestMemoryMmap<()>,
        chain: &Chain,
        frame: &[u8],
    ) -> (out: Result<Delivery, VirtioNetError>)
        requires
            old(self).wf(),
            frame@.len() <= u32::MAX,
        ensures
            final(self).wf(),
            final(self).relayed_from(*old(self)),
            final(self).device_config.tx == old(self).device_config.tx,
            final(self).device_config.interrupt_status == old(self).device_config.interrupt_status,
            final(self).device_config.rx.next_avail == old(self).device_config.rx.next_avail,
            !old(self).device_config.activated || !old(self).device_config.rx.ready ==> out
                == Err::<Delivery, VirtioNetError>(VirtioNetError::RegisterError) && *final(self)
                == *old(self),
            old(self).device_config.activated && old(self).device_config.rx.ready ==> (out
                matches Err(e) ==> e == VirtioNetError::GuestMemoryFault),
            out matches Ok(done) ==> done.used as nat == min_nat(
                frame@.len(),
                capacity(chain.descs@),
            ) && done.oversized == (capacity(chain.descs@) < frame@.len()),
            out is Ok ==> final(self).device_config.activated && final(self).device_config.device_status == old(self).device_config.device_status,
            old(self).device_config.activated && old(self).device_config.rx.ready && (!old(self).device_config.rx.aligned() || chain.head >= old(self).device_config.rx.size) ==> out
                == Err::<Delivery, VirtioNetError>(VirtioNetError::GuestMemoryFault),
            out is Ok ==> final(self).device_config.rx.next_used == next_position(
                old(self).device_config.rx.next_used,
            ),
            out is Err ==> final(self).device_config.rx == old(self).device_config.rx,
            out == Err::<Delivery, VirtioNetError>(VirtioNetError::GuestMemoryFault) ==> !final(self).device_config.activated && final(self).device_config.device_status == Self::failed(
                old(self).device_config.device_status,
            ) && final(self).device_config.rx.next_used == old(self).device_config.rx.next_used,
    {
        if !self.device_config.activated || !self.device_config.rx.ready {
            return Err(VirtioNetError::RegisterError);
        }
        match copy_frame(mem, &chain.descs, frame) {
            Err(e) => {
                self.fail();
                Err(e)
            },
            Ok(plan) => {
                let mut q = self.device_config.rx;
                let posted = post_used(&mut q, mem, chain.head, plan.used);
                if posted {
                    self.device_config.rx = q;
                    Ok(Delivery { used: plan.used, oversized: plan.oversized })
                } else {
                    self.fail();
                    Err(VirtioNetError::GuestMemoryFault)
                }
            },
        }
    }

    /// Looks for the next chain to transmit.
    ///
    /// Notifications are switched off and the next waiting chain is handed
    /// out. With none waiting, notifications are switched back on and the
    /// result says whether entries arrived meanwhile. No used entry is
    /// posted. A device that is not in operation, or whose transmit queue
    /// the driver has not placed, halts at once.
    pub fn next_tx_chain(&mut self, mem: &GuestMemoryMmap<()>) -> (ready: Available)
        requires
            old(self).wf(),
        ensures
            final(self).wf(),
            final(self).relayed_from(*old(self)),
            final(self).device_config.rx == old(self).device_config.rx,
            final(self).device_config.interrupt_status == old(self).device_config.interrupt_status,
            final(self).device_config.tx.next_used == old(self).device_config.tx.next_used,
            ready is Buffer ==> final(self).device_config.tx.next_avail == next_position(
                old(self).device_config.tx.next_avail,
            ),
            !(ready is Buffer) ==> final(self).device_config.tx == old(self).device_config.tx,
            !old(self).device_config.activated || !old(self).device_config.tx.ready ==> ready
                is Halt && *final(self) == *old(self),
            old(self).device_config.activated && old(self).device_config.tx.ready && (!old(self).device_config.tx.aligned() || old(self).device_config.tx.avail_ring == 0) ==> ready
                is Fault,
            ready is Fault ==> !final(self).device_config.activated && final(self).device_config.device_status == Self::failed(old(self).device_config.device_status),
            !(ready is Fault) ==> final(self).device_config.activated == old(self).device_config.activated && final(self).device_config.device_status == old(self).device_config.device_status,
    {
        if !self.device_config.activated || !self.device_config.tx.ready {
            return Available::Halt;
        }
        let mut q = self.device_config.tx;
        if !quiet(&q, mem) {
            self.fail();
            return Available::Fault;
        }
        let found = poll(&mut q, mem);
        self.device_config.tx = q;
        match found {
            Polled::Fault => {
                self.fail();
                Available::Fault
            },
            Polled::Empty => {
                let raced = rearm(&q, mem);
                match after_drain(raced) {
                    AfterDrain::DrainAgain => Available::Retry,
                    AfterDrain::Yield => Available::Halt,
                }
            },
            Polled::Next(chain) => Available::Buffer(chain),
        }
    }

    /// Reads the frame that `chain` holds and posts the chain's used entry.
    ///
    /// A chain that is empty or opens with a buffer shorter than the frame
    /// header is malformed: it is refused, and nothing is posted or
    /// changed. Otherwise every buffer is read whole, in chain order, the
    /// used entry is posted, and the queue is asked whether the driver
    /// wants an interrupt. A failed read or post marks the device failed.
    /// A device that is not in operation, or whose transmit queue the
    /// driver has not placed, refuses the chain and changes nothing.
    pub fn read_frame_from_guest(&mut self, mem: &GuestMemoryMmap<()>, chain: &Chain) -> (out:
        Result<TxFrame, VirtioNetError>)
        requires
            old(self).wf(),
        ensures
            final(self).wf(),
            final(self).relayed_from(*old(self)),
            final(self).device_config.rx == old(self).device_config.rx,
            final(self).device_config.tx.next_avail == old(self).device_config.tx.next_avail,
            !old(self).device_config.activated || !old(self).device_config.tx.ready ==> out
                == Err::<TxFrame, VirtioNetError>(VirtioNetError::RegisterError) && *final(self)
                == *old(self),
            old(self).device_config.activated && old(self).device_config.tx.ready
                && !spec_tx_well_formed(chain.descs@) ==> out == Err::<TxFrame, VirtioNetError>(
                VirtioNetError::MalformedChain,
            ) && *final(self) == *old(self),
            old(self).device_config.activated && old(self).device_config.tx.ready
                && spec_tx_well_formed(chain.descs@) ==> (out matches Err(e) ==> e
                == VirtioNetError::GuestMemoryFault),
            out matches Ok(sent) ==> sent.frame@.len() == capacity(chain.descs@)
                && sent.frame@.len() >= VIRTIO_HDR_LEN && final(self).device_config.activated
                && final(self).device_config.device_status == old(self).device_config.device_status && final(self).device_config.interrupt_status
                == if sent.signal {
                old(self).device_config.interrupt_status | INTERRUPT_USED_RING
            } else {
                old(self).device_config.interrupt_status
            },
            out matches Err(e) ==> final(self).device_config.interrupt_status == old(self).device_config.interrupt_status && final(self).device_config.tx.next_used == old(self).device_config.tx.next_used,
            old(self).device_config.activated && old(self).device_config.tx.ready
                && spec_tx_well_formed(chain.descs@) && (!old(self).device_config.tx.aligned()
                || chain.head >= old(self).device_config.tx.size) ==> out == Err::<
                TxFrame,
                VirtioNetError,
            >(VirtioNetError::GuestMemoryFault),
            out matches Ok(sent) ==> sent.signal && final(self).device_config.tx.next_used
                == next_position(old(self).device_config.tx.next_used),
            out is Err ==> final(self).device_config.tx == old(self).device_config.tx,
            out == Err::<TxFrame, VirtioNetError>(VirtioNetError::GuestMemoryFault) ==> !final(self).device_config.activated && final(self).device_config.device_status == Self::failed(
                old(self).device_config.device_status,
            ),
    {
        if !self.device_config.activated || !self.device_config.tx.ready {
            return Err(VirtioNetError::RegisterError);
        }
        if !tx_well_formed(&chain.descs) {
            return Err(VirtioNetError::MalformedChain);
        }
        match gather_tx(mem, &chain.descs) {
            Err(e) => {
                self.fail();
                Err(e)
            },
            Ok(parts) => {
                let frame = assemble(&parts);
                proof {
                    let n = parts@.len() as int;
                    lemma_concat_fills_capacity(parts@, chain.descs@, n);
                    assert(chain.descs@.take(n) =~= chain.descs@);
                    crate::transfer::lemma_capacity_step(chain.descs@, 0);
                    crate::transfer::lemma_capacity_monotone(chain.descs@, 1, n);
                    assert(chain.descs@.take(0) =~= Seq::<Descriptor>::empty());
                }
                let mut q = self.device_config.tx;
                let posted = post_used(&mut q, mem, chain.head, TX_USED_LEN);
                if posted {
                    self.device_config.tx = q;
                    let signal = self.maybe_notify(mem, TX_QUEUE);
                    Ok(TxFrame { frame, signal })
                } else {
                    self.fail();
                    Err(VirtioNetError::GuestMemoryFault)
                }
            },
        }
    }

    /// Makes one step of draining the transmit queue: looks for the next
    /// chain and, if there is one, reads its frame and completes it.
    pub fn queue_notify(&mut self, mem: &GuestMemoryMmap<()>) -> (step: TxStep)
        requires
            old(self).wf(),
        ensures
            final(self).wf(),
            final(self).relayed_from(*old(self)),
            final(self).device_config.rx == old(self).device_config.rx,
            !old(self).device_config.activated || !old(self).device_config.tx.ready ==> step is Done
                && *final(self) == *old(self),
            step is Fault ==> !final(self).device_config.activated && final(self).device_config.device_status == Self::failed(old(self).device_config.device_status),
            !(step is Fault) ==> final(self).device_config.activated == old(self).device_config.activated && final(self).device_config.device_status == old(self).device_config.device_status,
            step matches TxStep::Send { frame, signal } ==> frame@.len() >= VIRTIO_HDR_LEN
                && final(self).device_config.interrupt_status == if signal {
                old(self).device_config.interrupt_status | INTERRUPT_USED_RING
            } else {
                old(self).device_config.interrupt_status
            },
            !(step is Send) ==> final(self).device_config.interrupt_status == old(self).device_config.interrupt_status,
            step is Skipped || step is Again || step is Done ==> final(self).device_config.tx.next_used == old(self).device_config.tx.next_used,
            step matches TxStep::Send { frame, signal } ==> signal && final(self).device_config.tx.next_used == next_position(old(self).device_config.tx.next_used),
            step is Send || step is Skipped ==> final(self).device_config.tx.next_avail
                == next_position(old(self).device_config.tx.next_avail),
            step is Again || step is Done ==> final(self).device_config.tx == old(self).device_config.tx,
            old(self).device_config.activated && old(self).device_config.tx.ready && !old(self).device_config.tx.aligned() ==> step is Fault,
    {
        match self.next_tx_chain(mem) {
            Available::Halt => TxStep::Done,
            Available::Retry => TxStep::Again,
            Available::Fault => TxStep::Fault,
            Available::Buffer(chain) => match self.read_frame_from_guest(mem, &chain) {
                Ok(sent) => TxStep::Send { frame: sent.frame, signal: sent.signal },
                Err(VirtioNetError::MalformedChain) => TxStep::Skipped,
                Err(_) => TxStep::Fault,
            },
        }
    }
}

} // verus!
