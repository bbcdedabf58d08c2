//! The register window of the device and the state behind it.

use vstd::prelude::*;
use crate::bytes::{decode_le32, encode_le32, from_le32, le32};
use crate::config_space::{config_bytes, config_vec, NetConfig, CONFIG_SPACE_LEN};
use crate::error::VirtioNetError;
use crate::features::{
    feature_half, offered_features, spec_feature_half, spec_offered_features,
    spec_with_feature_half, with_feature_half,
};
use crate::ring::{is_ring_size, VirtQueue, MAX_QUEUE_SIZE};

verus! {

pub const MAGIC_VALUE: u32 = 0x74726976;
pub const MMIO_VERSION: u32 = 2;
pub const DEVICE_ID_NET: u32 = 1;
pub const VENDOR_ID: u32 = 0x1AF4;

pub const STATUS_ACKNOWLEDGE: u8 = 0x01;
pub const STATUS_DRIVER: u8 = 0x02;
pub const STATUS_DRIVER_OK: u8 = 0x04;
pub const STATUS_FEATURES_OK: u8 = 0x08;
pub const STATUS_FAILED: u8 = 0x80;

/// Interrupt-status bit for "the device has used a buffer".
pub const INTERRUPT_USED_RING: u8 = 0x01;

/// Index of the receive queue.
pub const RX_QUEUE: u32 = 0;
/// Index of the transmit queue.
pub const TX_QUEUE: u32 = 1;

/// Offset of the first configuration byte in the register window.
pub const CONFIG_BASE: u64 = 0x100;

/// The registers of the window.
#[derive(Clone, Copy, Debug, PartialEq, Eq, Structural)]
pub enum Register {
    MagicValue,
    VirtioVersion,
    DeviceId,
    VendorId,
    HostFeatures,
    HostFeaturesSel,
    GuestFeatures,
    GuestFeaturesSel,
    GuestPageSize,
    QueueSel,
    QueueNumMax,
    QueueNum,
    QueueAlign,
    QueuePfn,
    QueueNotify,
    InterruptStatus,
    InterruptAck,
    Status,
    /// A position in the configuration space, counted from its start.
    DeviceSpecific(u32),
}

/// What the caller has to do after a register write.
#[derive(Clone, Copy, Debug, PartialEq, Eq, Structural)]
pub enum Effect {
    /// Nothing beyond the change of state.
    Nothing,
    /// The driver is ready: bring the host interface up.
    Activate,
    /// The device was reset or has failed: tear the host side down.
    Reset,
    /// The driver has work on the queue of this index.
    Notify(u32),
}

/// The register at an offset of the window, if there is one.
pub open spec fn spec_decode_offset(offset: u64) -> Option<Register> {
    if offset == 0x000 {
        Some(Register::MagicValue)
    } else if offset == 0x004 {
        Some(Register::VirtioVersion)
    } else if offset == 0x008 {
        Some(Register::DeviceId)
    } else if offset == 0x00c {
        Some(Register::VendorId)
    } else if offset == 0x010 {
        Some(Register::HostFeatures)
    } else if offset == 0x014 {
        Some(Register::HostFeaturesSel)
    } else if offset == 0x020 {
        Some(Register::GuestFeatures)
    } else if offset == 0x024 {
        Some(Register::GuestFeaturesSel)
    } else if offset == 0x028 {
        Some(Register::GuestPageSize)
    } else if offset == 0x030 {
        Some(Register::QueueSel)
    } else if offset == 0x034 {
        Some(Register::QueueNumMax)
    } else if offset == 0x038 {
        Some(Register::QueueNum)
    } else if offset == 0x03c {
        Some(Register::QueueAlign)
    } else if offset == 0x040 {
        Some(Register::QueuePfn)
    } else if offset == 0x050 {
        Some(Register::QueueNotify)
    } else if offset == 0x060 {
        Some(Register::InterruptStatus)
    } else if offset == 0x064 {
        Some(Register::InterruptAck)
    } else if offset == 0x070 {
        Some(Register::Status)
    } else if 0x100 <= offset < 0x100 + 17 {
        Some(Register::DeviceSpecific((offset - 0x100) as u32))
    } else {
        None
    }
}

/// Names the register at `offset`; `None` outside the register table.
pub fn decode_offset(offset: u64) -> (reg: Option<Register>)
    ensures
        reg == spec_decode_offset(offset),
{
    if offset == 0x000 {
        Some(Register::MagicValue)
    } else if offset == 0x004 {
        Some(Register::VirtioVersion)
    } else if offset == 0x008 {
        Some(Register::DeviceId)
    } else if offset == 0x00c {
        Some(Register::VendorId)
    } else if offset == 0x010 {
        Some(Register::HostFeatures)
    } else if offset == 0x014 {
        Some(Register::HostFeaturesSel)
    } else if offset == 0x020 {
        Some(Register::GuestFeatures)
    } else if offset == 0x024 {
        Some(Register::GuestFeaturesSel)
    } else if offset == 0x028 {
        Some(Register::GuestPageSize)
    } else if offset == 0x030 {
        Some(Register::QueueSel)
    } else if offset == 0x034 {
        Some(Register::QueueNumMax)
    } else if offset == 0x038 {
        Some(Register::QueueNum)
    } else if offset == 0x03c {
        Some(Register::QueueAlign)
    } else if offset == 0x040 {
        Some(Register::QueuePfn)
    } else if offset == 0x050 {
        Some(Register::QueueNotify)
    } else if offset == 0x060 {
        Some(Register::InterruptStatus)
    } else if offset == 0x064 {
        Some(Register::InterruptAck)
    } else if offset == 0x070 {
        Some(Register::Status)
    } else if CONFIG_BASE <= offset && offset < CONFIG_BASE + 17 {
        Some(Register::DeviceSpecific((offset - CONFIG_BASE) as u32))
    } else {
        None
    }
}

/// `x` rounded up to a multiple of `align`; unchanged when `align` is 0.
pub open spec fn align_up(x: int, align: int) -> int {
    if align <= 0 {
        x
    } else {
        ((x + align - 1) / align) * align
    }
}

/// A multiple of a multiple of 16 is a multiple of 16.
pub proof fn lemma_multiple_of_16(x: int, a: int)
    requires
        a % 16 == 0,
    ensures
        (x * a) % 16 == 0,
{
    let k = a / 16;
    assert(a == 16 * k);
    assert(x * a == 16 * (x * k)) by (nonlinear_arith)
        requires
            a == 16 * k,
    ;
}

/// The queue `q` after the driver wrote page frame `pfn` with pages of
/// `page_size` bytes. Frame 0 releases the queue. Any other frame places
/// the descriptor table at `pfn * page_size`, the available ring behind
/// its `size` entries of 16 bytes, and the used ring at the next page
/// boundary behind the available ring; the ring positions start at 0.
pub open spec fn spec_place_queue(q: VirtQueue, pfn: u32, page_size: u32) -> VirtQueue {
    if pfn == 0 {
        VirtQueue { size: q.size, ..VirtQueue::spec_unconfigured() }
    } else {
        let desc = pfn as int * page_size as int;
        let avail = desc + 16 * q.size;
        VirtQueue {
            size: q.size,
            ready: true,
            pfn,
            desc_table: desc as u64,
            avail_ring: avail as u64,
            used_ring: align_up(avail + 6 + 2 * q.size, page_size as int) as u64,
            next_avail: 0,
            next_used: 0,
        }
    }
}

/// Places or releases a queue as the driver's page frame number says.
pub fn place_queue(q: &VirtQueue, pfn: u32, page_size: u32) -> (out: VirtQueue)
    requires
        q.wf(),
    ensures
        out == spec_place_queue(*q, pfn, page_size),
        out.wf(),
        pfn != 0 ==> out.desc_table == pfn as int * page_size as int,
        pfn != 0 ==> out.avail_ring == out.desc_table + 16 * q.size,
        pfn != 0 ==> out.used_ring >= out.avail_ring + 6 + 2 * q.size,
        page_size > 0 && page_size % 16 == 0 ==> out.aligned(),
{
    if pfn == 0 {
        VirtQueue {
            size: q.size,
            ready: false,
            pfn: 0,
            desc_table: 0,
            avail_ring: 0,
            used_ring: 0,
            next_avail: 0,
            next_used: 0,
        }
    } else {
        assert(pfn as int * page_size as int <= 0xFFFF_FFFF * 0xFFFF_FFFF) by (nonlinear_arith)
            requires
                0 <= pfn as int <= 0xFFFF_FFFF,
                0 <= page_size as int <= 0xFFFF_FFFF,
        ;
        proof {
            if page_size % 16 == 0 {
                lemma_multiple_of_16(pfn as int, page_size as int);
            }
        }
        let desc: u64 = (pfn as u64) * (page_size as u64);
        let avail: u64 = desc + 16 * (q.size as u64);
        let end: u64 = avail + 6 + 2 * (q.size as u64);
        let used: u64 = if page_size == 0 {
            end
        } else {
            let a: u64 = page_size as u64;
            let y: u64 = end + a - 1;
            assert((y as int / a as int) * a as int <= y as int && (y as int / a as int) * a as int
                > y as int - a as int) by (nonlinear_arith)
                requires
                    a > 0,
                    y >= 0,
            ;
            proof {
                if a % 16 == 0 {
                    lemma_multiple_of_16(y as int / a as int, a as int);
                }
            }
            (y / a) * a
        };
        VirtQueue {
            size: q.size,
            ready: true,
            pfn,
            desc_table: desc,
            avail_ring: avail,
            used_ring: used,
            next_avail: 0,
            next_used: 0,
        }
    }
}

/// The state of the device that the register window reads and writes.
#[derive(Debug)]
pub struct VirtioConfig {
    /// Features the device offers.
    pub device_features: u64,
    /// Features the driver accepted, as written.
    pub driver_features: u64,
    /// Which half of the offered features is read next.
    pub device_features_select: u32,
    /// Which half of the accepted features is written next.
    pub driver_features_select: u32,
    /// Page size the driver announced.
    pub page_size: u32,
    /// Queue that the queue registers address: 0 or 1.
    pub queue_select: u32,
    /// The receive queue.
    pub rx: VirtQueue,
    /// The transmit queue.
    pub tx: VirtQueue,
    /// The device status byte.
    pub device_status: u8,
    /// The interrupt status bits.
    pub interrupt_status: u8,
    /// The configuration space.
    pub config_space: Vec<u8>,
    /// Whether the driver has brought the device into operation.
    pub activated: bool,
}

impl VirtioConfig {
    /// The invariant of the device state.
    pub open spec fn wf(self) -> bool {
        &&& self.config_space@.len() == CONFIG_SPACE_LEN
        &&& self.queue_select < 2
        &&& self.rx.wf()
        &&& self.tx.wf()
    }

    /// The queue that the queue registers address.
    pub open spec fn selected(self) -> VirtQueue {
        if self.queue_select == 0 {
            self.rx
        } else {
            self.tx
        }
    }

    /// `self` with the addressed queue replaced by `q`.
    pub open spec fn with_selected(self, q: VirtQueue) -> VirtioConfig {
        if self.queue_select == 0 {
            VirtioConfig { rx: q, ..self }
        } else {
            VirtioConfig { tx: q, ..self }
        }
    }

    /// The features in force.
    pub open spec fn negotiated(self) -> u64 {
        self.device_features & self.driver_features
    }

    /// The state after a reset: status, interrupts, accepted features,
    /// selectors and page size cleared, both queues unconfigured, the
    /// device out of operation. Offered features and configuration space
    /// stay.
    pub open spec fn reset_state(self) -> VirtioConfig {
        VirtioConfig {
            driver_features: 0,
            device_features_select: 0,
            driver_features_select: 0,
            page_size: 0,
            queue_select: 0,
            rx: VirtQueue::spec_unconfigured(),
            tx: VirtQueue::spec_unconfigured(),
            device_status: 0,
            interrupt_status: 0,
            activated: false,
            ..self
        }
    }

    /// The state after the driver wrote `status`. Zero resets the device.
    /// A status with the failed bit resets everything but the status,
    /// which keeps what was written. A status with the driver-ok bit
    /// puts a device that is not yet in operation into operation.
    pub open spec fn status_written(self, status: u8) -> (VirtioConfig, Effect) {
        if status == 0 {
            (self.reset_state(), Effect::Reset)
        } else if status >= 0x80 {
            (VirtioConfig { device_status: status, ..self.reset_state() }, Effect::Reset)
        } else if (status / 4) % 2 == 1 && !self.activated {
            (VirtioConfig { device_status: status, activated: true, ..self }, Effect::Activate)
        } else {
            (VirtioConfig { device_status: status, ..self }, Effect::Nothing)
        }
    }

    /// What a write of `value` to `reg` does: the new state and the effect,
    /// or `None` where the access is refused and changes nothing.
    pub open spec fn write_result(self, reg: Register, value: u32) -> Option<
        (VirtioConfig, Effect),
    > {
        match reg {
            Register::HostFeaturesSel => Some(
                (VirtioConfig { device_features_select: value, ..self }, Effect::Nothing),
            ),
            Register::GuestFeaturesSel => Some(
                (VirtioConfig { driver_features_select: value, ..self }, Effect::Nothing),
            ),
            Register::GuestFeatures => Some(
                (
                    VirtioConfig {
                        driver_features: spec_with_feature_half(
                            self.driver_features,
                            self.driver_features_select,
                            value,
                        ),
                        ..self
                    },
                    Effect::Nothing,
                ),
            ),
            Register::GuestPageSize => Some(
                (VirtioConfig { page_size: value, ..self }, Effect::Nothing),
            ),
            Register::QueueSel => if value < 2 {
                Some((VirtioConfig { queue_select: value, ..self }, Effect::Nothing))
            } else {
                None
            },
            Register::QueueNum => if value <= MAX_QUEUE_SIZE && is_ring_size(value as u16) {
                Some(
                    (
                        self.with_selected(VirtQueue { size: value as u16, ..self.selected() }),
                        Effect::Nothing,
                    ),
                )
            } else {
                None
            },
            Register::QueueAlign => Some((self, Effect::Nothing)),
            Register::QueuePfn => Some(
                (
                    self.with_selected(spec_place_queue(self.selected(), value, self.page_size)),
                    Effect::Nothing,
                ),
            ),
            Register::QueueNotify => if self.activated && value < 2 {
                Some((self, Effect::Notify(value)))
            } else {
                None
            },
            Register::InterruptAck => Some(
                (
                    VirtioConfig {
                        interrupt_status: self.interrupt_status & !((value % 256) as u8),
                        ..self
                    },
                    Effect::Nothing,
                ),
            ),
            Register::Status => Some(self.status_written((value % 256) as u8)),
            _ => None,
        }
    }

    /// The value of a readable 32-bit register, `None` for the others.
    pub open spec fn register_value(self, reg: Register) -> Option<u32> {
        match reg {
            Register::MagicValue => Some(MAGIC_VALUE),
            Register::VirtioVersion => Some(MMIO_VERSION),
            Register::DeviceId => Some(DEVICE_ID_NET),
            Register::VendorId => Some(VENDOR_ID),
            Register::HostFeatures => Some(
                spec_feature_half(self.device_features, self.device_features_select),
            ),
            Register::QueueNumMax => Some(MAX_QUEUE_SIZE as u32),
            Register::QueuePfn => Some(self.selected().pfn),
            Register::InterruptStatus => Some(self.interrupt_status as u32),
            Register::Status => Some(self.device_status as u32),
            _ => None,
        }
    }

    /// What a read of `width` bytes at `reg` returns, or `None` where the
    /// access is refused. A register is read whole, four bytes in
    /// little-endian order; a configuration read returns the bytes at its
    /// position and must stay inside the configuration space.
    pub open spec fn read_result(self, reg: Register, width: usize) -> Option<Seq<u8>> {
        match reg {
            Register::DeviceSpecific(at) => if 0 < width && at + width
                <= self.config_space@.len() {
                Some(self.config_space@.subrange(at as int, at + width))
            } else {
                None
            },
            _ => match self.register_value(reg) {
                Some(v) => if width == 4 {
                    Some(le32(v))
                } else {
                    None
                },
                None => None,
            },
        }
    }

    /// A device in its reset state that offers the standard features, with
    /// the reserved bits where asked for, and publishes `config`.
    pub fn new(config: &NetConfig, with_reserved: bool) -> (state: VirtioConfig)
        ensures
            state.wf(),
            state.config_space@ == config_bytes(*config),
            state.device_features == spec_offered_features(with_reserved),
            state.driver_features == 0,
            state.device_status == 0,
            state.interrupt_status == 0,
            !state.activated,
            state.rx == VirtQueue::spec_unconfigured(),
            state.tx == VirtQueue::spec_unconfigured(),
            state.reset_state() == state,
    {
        VirtioConfig {
            device_features: offered_features(with_reserved),
            driver_features: 0,
            device_features_select: 0,
            driver_features_select: 0,
            page_size: 0,
            queue_select: 0,
            rx: VirtQueue::unconfigured(),
            tx: VirtQueue::unconfigured(),
            device_status: 0,
            interrupt_status: 0,
            config_space: config_vec(config),
            activated: false,
        }
    }

    /// Tests the invariant of the device state.
    pub fn is_valid(&self) -> (ok: bool)
        ensures
            ok == self.wf(),
    {
        self.config_space.len() == CONFIG_SPACE_LEN && self.queue_select < 2
            && self.rx.is_valid() && self.tx.is_valid()
    }

    /// Puts the device back into its reset state.
    pub fn reset(&mut self)
        requires
            old(self).wf(),
        ensures
            *final(self) == old(self).reset_state(),
            final(self).wf(),
    {
        self.driver_features = 0;
        self.device_features_select = 0;
        self.driver_features_select = 0;
        self.page_size = 0;
        self.queue_select = 0;
        self.rx = VirtQueue::unconfigured();
        self.tx = VirtQueue::unconfigured();
        self.device_status = 0;
        self.interrupt_status = 0;
        self.activated = false;
    }

    /// Reads `width` bytes at `reg`. The state does not change.
    pub fn read(&self, reg: Register, width: usize) -> (out: Result<Vec<u8>, VirtioNetError>)
        requires
            self.wf(),
        ensures
            match self.read_result(reg, width) {
                Some(bytes) => out matches Ok(v) && v@ == bytes,
                None => out == Err::<Vec<u8>, VirtioNetError>(VirtioNetError::RegisterError),
            },
    {
        let value: u32 = match reg {
            Register::DeviceSpecific(at) => {
                let at: usize = at as usize;
                if width == 0 || at > CONFIG_SPACE_LEN || width > CONFIG_SPACE_LEN - at {
                    return Err(VirtioNetError::RegisterError);
                }
                let mut bytes: Vec<u8> = Vec::new();
                let mut i: usize = 0;
                while i < width
                    invariant
                        i <= width,
                        self.config_space@.len() == CONFIG_SPACE_LEN,
                        at + width <= self.config_space@.len(),
                        bytes@ == self.config_space@.subrange(at as int, at + i),
                    decreases width - i,
                {
                    bytes.push(self.config_space[at + i]);
                    i = i + 1;
                    assert(bytes@ =~= self.config_space@.subrange(at as int, at + i));
                }
                return Ok(bytes);
            },
            Register::MagicValue => MAGIC_VALUE,
            Register::VirtioVersion => MMIO_VERSION,
            Register::DeviceId => DEVICE_ID_NET,
            Register::VendorId => VENDOR_ID,
            Register::HostFeatures => feature_half(
                self.device_features,
                self.device_features_select,
            ),
            Register::QueueNumMax => MAX_QUEUE_SIZE as u32,
            Register::QueuePfn => if self.queue_select == 0 {
                self.rx.pfn
            } else {
                self.tx.pfn
            },
            Register::InterruptStatus => self.interrupt_status as u32,
            Register::Status => self.device_status as u32,
            _ => {
                return Err(VirtioNetError::RegisterError);
            },
        };
        if width != 4 {
            return Err(VirtioNetError::RegisterError);
        }
        Ok(encode_le32(value))
    }

    /// Writes `data` to `reg`. A register takes exactly four bytes, a
    /// little-endian value. A refused write changes nothing.
    pub fn write(&mut self, reg: Register, data: &[u8]) -> (out: Result<Effect, VirtioNetError>)
        requires
            old(self).wf(),
        ensures
            final(self).wf(),
            data@.len() != 4 ==> out == Err::<Effect, VirtioNetError>(
                VirtioNetError::RegisterError,
            ) && *final(self) == *old(self),
            data@.len() == 4 ==> match old(self).write_result(reg, from_le32(data@)) {
                Some((state, effect)) => out == Ok::<Effect, VirtioNetError>(effect)
                    && *final(self) == state,
                None => out == Err::<Effect, VirtioNetError>(VirtioNetError::RegisterError)
                    && *final(self) == *old(self),
            },
    {
        if data.len() != 4 {
            return Err(VirtioNetError::RegisterError);
        }
        let value: u32 = decode_le32(data);
        match reg {
            Register::HostFeaturesSel => {
                self.device_features_select = value;
                Ok(Effect::Nothing)
            },
            Register::GuestFeaturesSel => {
                self.driver_features_select = value;
                Ok(Effect::Nothing)
            },
            Register::GuestFeatures => {
                self.driver_features = with_feature_half(
                    self.driver_features,
                    self.driver_features_select,
                    value,
                );
                Ok(Effect::Nothing)
            },
            Register::GuestPageSize => {
                self.page_size = value;
                Ok(Effect::Nothing)
            },
            Register::QueueSel => {
                if value < 2 {
                    self.queue_select = value;
                    Ok(Effect::Nothing)
                } else {
                    Err(VirtioNetError::RegisterError)
                }
            },
            Register::QueueNum => {
                if value == 1 || value == 2 || value == 4 || value == 8 || value == 16 || value
                    == 32 || value == 64 || value == 128 || value == 256 {
                    if self.queue_select == 0 {
                        self.rx.size = value as u16;
                    } else {
                        self.tx.size = value as u16;
                    }
                    Ok(Effect::Nothing)
                } else {
                    Err(VirtioNetError::RegisterError)
                }
            },
            Register::QueueAlign => Ok(Effect::Nothing),
            Register::QueuePfn => {
                if self.queue_select == 0 {
                    self.rx = place_queue(&self.rx, value, self.page_size);
                } else {
                    self.tx = place_queue(&self.tx, value, self.page_size);
                }
                Ok(Effect::Nothing)
            },
            Register::QueueNotify => {
                if self.activated && value < 2 {
                    Ok(Effect::Notify(value))
                } else {
                    Err(VirtioNetError::RegisterError)
                }
            },
            Register::InterruptAck => {
                self.interrupt_status = self.interrupt_status & !((value % 256) as u8);
                Ok(Effect::Nothing)
            },
            Register::Status => {
                let status: u8 = (value % 256) as u8;
                if status == 0 {
                    self.reset();
                    Ok(Effect::Reset)
                } else if status >= 0x80 {
                    self.reset();
                    self.device_status = status;
                    Ok(Effect::Reset)
                } else if (status / 4) % 2 == 1 && !self.activated {
                    self.device_status = status;
                    self.activated = true;
                    Ok(Effect::Activate)
                } else {
                    self.device_status = status;
                    Ok(Effect::Nothing)
                }
            },
            _ => Err(VirtioNetError::RegisterError),
        }
    }
}

/// Every byte of the configuration space reads back as it was laid out at
/// construction, alone or in a run, and no read reaches past its end.
pub proof fn lemma_config_round_trip(state: VirtioConfig, config: NetConfig, at: u32, width: usize)
    requires
        state.config_space@ == config_bytes(config),
    ensures
        at < CONFIG_SPACE_LEN ==> state.read_result(Register::DeviceSpecific(at), 1) == Some(
            seq![config_bytes(config)[at as int]],
        ),
        0 < width && at + width <= CONFIG_SPACE_LEN ==> state.read_result(
            Register::DeviceSpecific(at),
            width,
        ) == Some(config_bytes(config).subrange(at as int, at + width)),
        at + width > CONFIG_SPACE_LEN ==> state.read_result(Register::DeviceSpecific(at), width)
            is None,
{
    crate::config_space::lemma_config_layout(config);
    if at < CONFIG_SPACE_LEN {
        assert(config_bytes(config).subrange(at as int, at + 1) =~= seq![
            config_bytes(config)[at as int],
        ]);
    }
}

/// Accepting the same feature bits twice under one selector leaves the
/// state, and with it the features in force, as the first write left it.
pub proof fn lemma_accept_features_twice(state: VirtioConfig, value: u32)
    ensures
        state.write_result(Register::GuestFeatures, value) matches Some((once, _))
            && once.write_result(Register::GuestFeatures, value) == Some((once, Effect::Nothing))
            && once.negotiated() == state.device_features & once.driver_features,
{
}

/// Interrupt bits are sticky. A read leaves them alone, as does every
/// accepted write except an acknowledgement and a write to the status
/// register; an acknowledgement clears exactly the bits it names.
pub proof fn lemma_interrupt_sticky(state: VirtioConfig, reg: Register, value: u32, bit: u8)
    requires
        bit < 8,
        reg != Register::Status,
        state.write_result(reg, value) is Some,
    ensures
        state.register_value(Register::InterruptStatus) == Some(state.interrupt_status as u32),
        reg != Register::InterruptAck ==> state.write_result(reg, value).unwrap().0.interrupt_status
            == state.interrupt_status,
        reg == Register::InterruptAck ==> (state.write_result(
            reg,
            value,
        ).unwrap().0.interrupt_status & (1u8 << bit) != 0 <==> state.interrupt_status & (1u8
            << bit) != 0 && ((value % 256) as u8) & (1u8 << bit) == 0),
{
    let s = state.interrupt_status;
    let a = (value % 256) as u8;
    assert(((s & !a) & (1u8 << bit) != 0) <==> (s & (1u8 << bit) != 0 && a & (1u8 << bit) == 0))
        by (bit_vector)
        requires
            bit < 8,
    ;
}

/// Writing 0 to the status register resets the device: status and
/// interrupt status read 0, both queues are unconfigured, no feature is in
/// force, and a queue notification is refused, as it is in any state in
/// which the driver has not set the driver-ok bit since the last reset.
pub proof fn lemma_status_zero_resets(state: VirtioConfig, value: u32)
    ensures
        state.write_result(Register::Status, 0) == Some((state.reset_state(), Effect::Reset)),
        state.reset_state().register_value(Register::Status) == Some(0u32),
        state.reset_state().register_value(Register::InterruptStatus) == Some(0u32),
        state.reset_state().rx == VirtQueue::spec_unconfigured(),
        state.reset_state().tx == VirtQueue::spec_unconfigured(),
        state.reset_state().negotiated() == 0,
        state.reset_state().write_result(Register::QueueNotify, value) is None,
{
    let f = state.device_features;
    assert(f & 0u64 == 0) by (bit_vector);
}

/// A queue notification is accepted exactly when the device is in
/// operation and the value names one of the two queues, and only a write
/// to the status register that sets the driver-ok bit and not the failed
/// bit puts a device into operation.
pub proof fn lemma_notify_needs_activation(
    state: VirtioConfig,
    value: u32,
    reg: Register,
    written: u32,
)
    ensures
        state.write_result(Register::QueueNotify, value) is Some <==> state.activated && (value
            == RX_QUEUE || value == TX_QUEUE),
        state.write_result(Register::QueueNotify, value) matches Some((after, effect))
            ==> after == state && effect == Effect::Notify(value),
        !state.activated ==> (state.write_result(reg, written) matches Some((after, effect))
            ==> (after.activated ==> reg == Register::Status && effect == Effect::Activate && ((
        written % 256) / 4) % 2 == 1 && written % 256 < 0x80)),
{
}

} // verus!
