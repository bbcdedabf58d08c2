use virtio_net::config_space::NetConfig;
use virtio_net::device::{copy_frame, gather_tx, Available, Delivery, TxStep, VirtioNet};
use virtio_net::error::VirtioNetError;
use virtio_net::mmio::Effect;
use virtio_net::ring::{Chain, Descriptor};
use vm_memory::{Bytes, GuestAddress, GuestMemoryMmap};

const PAGE: u32 = 4096;
const RX_DESC: u64 = 0x1000;
const RX_AVAIL: u64 = 0x2000;
const RX_USED: u64 = 0x3000;
const TX_DESC: u64 = 0x10000;
const TX_AVAIL: u64 = 0x11000;
const TX_USED: u64 = 0x12000;

fn net_config() -> NetConfig {
    NetConfig {
        mac: [13, 13, 13, 13, 13, 13],
        status: 0,
        max_virtqueue_pairs: 1,
        mtu: 1420,
        speed: 1000,
        duplex: 1,
    }
}

fn memory() -> GuestMemoryMmap<()> {
    GuestMemoryMmap::from_ranges(&[(GuestAddress(0), 0x40000)]).unwrap()
}

fn wr(dev: &mut VirtioNet, offset: u64, value: u32) -> Result<Effect, VirtioNetError> {
    dev.virtio_mmio_write(offset, &value.to_le_bytes())
}

fn rd(dev: &VirtioNet, offset: u64) -> u32 {
    let bytes = dev.virtio_mmio_read(offset, 4).unwrap();
    u32::from_le_bytes([bytes[0], bytes[1], bytes[2], bytes[3]])
}

fn operational() -> VirtioNet {
    let mut dev = VirtioNet::new(&net_config(), false);
    assert_eq!(wr(&mut dev, 0x070, 0x01 | 0x02), Ok(Effect::Nothing));
    assert_eq!(wr(&mut dev, 0x014, 1), Ok(Effect::Nothing));
    assert_eq!(rd(&dev, 0x010), 1);
    assert_eq!(wr(&mut dev, 0x024, 1), Ok(Effect::Nothing));
    assert_eq!(wr(&mut dev, 0x020, 1), Ok(Effect::Nothing));
    assert_eq!(wr(&mut dev, 0x070, 0x01 | 0x02 | 0x08), Ok(Effect::Nothing));
    assert_eq!(wr(&mut dev, 0x028, PAGE), Ok(Effect::Nothing));
    assert_eq!(wr(&mut dev, 0x030, 0), Ok(Effect::Nothing));
    assert_eq!(wr(&mut dev, 0x038, 256), Ok(Effect::Nothing));
    assert_eq!(wr(&mut dev, 0x040, 1), Ok(Effect::Nothing));
    assert_eq!(wr(&mut dev, 0x030, 1), Ok(Effect::Nothing));
    assert_eq!(wr(&mut dev, 0x038, 256), Ok(Effect::Nothing));
    assert_eq!(wr(&mut dev, 0x040, 0x10), Ok(Effect::Nothing));
    assert_eq!(wr(&mut dev, 0x070, 0x0f), Ok(Effect::Activate));
    dev
}

fn put_desc(mem: &GuestMemoryMmap<()>, table: u64, index: u16, addr: u64, len: u32, next: Option<u16>) {
    let at = table + 16 * u64::from(index);
    mem.write_obj(addr.to_le(), GuestAddress(at)).unwrap();
    mem.write_obj(len.to_le(), GuestAddress(at + 8)).unwrap();
    let flags: u16 = if next.is_some() { 1 } else { 0 };
    mem.write_obj(flags.to_le(), GuestAddress(at + 12)).unwrap();
    mem.write_obj(next.unwrap_or(0).to_le(), GuestAddress(at + 14)).unwrap();
}

fn offer(mem: &GuestMemoryMmap<()>, avail: u64, slot: u16, head: u16) {
    mem.write_obj(head.to_le(), GuestAddress(avail + 4 + 2 * u64::from(slot))).unwrap();
    mem.write_obj((slot + 1).to_le(), GuestAddress(avail + 2)).unwrap();
}

fn used_idx(mem: &GuestMemoryMmap<()>, used: u64) -> u16 {
    mem.read_obj::<u16>(GuestAddress(used + 2)).unwrap()
}

fn used_entry(mem: &GuestMemoryMmap<()>, used: u64, slot: u16) -> (u32, u32) {
    let at = used + 4 + 8 * u64::from(slot);
    (
        mem.read_obj::<u32>(GuestAddress(at)).unwrap(),
        mem.read_obj::<u32>(GuestAddress(at + 4)).unwrap(),
    )
}

fn rx_chain(dev: &mut VirtioNet, mem: &GuestMemoryMmap<()>) -> Chain {
    match dev.next_rx_chain(mem) {
        Available::Buffer(chain) => chain,
        other => panic!("no receive chain: {:?}", other),
    }
}

fn frame(len: usize) -> Vec<u8> {
    (0..len).map(|i| (i * 7 + 3) as u8).collect()
}

fn guest_bytes(mem: &GuestMemoryMmap<()>, addr: u64, len: usize) -> Vec<u8> {
    let mut out = vec![0u8; len];
    mem.read_slice(&mut out, GuestAddress(addr)).unwrap();
    out
}

#[test]
fn queue_placement_follows_page_frame() {
    let dev = operational();
    let rx = dev.device_config.rx;
    assert!(rx.ready);
    assert_eq!(rx.size, 256);
    assert_eq!((rx.desc_table, rx.avail_ring, rx.used_ring), (RX_DESC, RX_AVAIL, RX_USED));
    let tx = dev.device_config.tx;
    assert_eq!((tx.desc_table, tx.avail_ring, tx.used_ring), (TX_DESC, TX_AVAIL, TX_USED));
    assert_eq!(tx.pfn, 0x10);
}

#[test]
fn rx_frame_that_fits_is_delivered_whole() {
    let mem = memory();
    let mut dev = operational();
    put_desc(&mem, RX_DESC, 3, 0x20000, 40, Some(5));
    put_desc(&mem, RX_DESC, 5, 0x21000, 40, None);
    offer(&mem, RX_AVAIL, 0, 3);
    let data = frame(64);
    let chain = rx_chain(&mut dev, &mem);
    assert_eq!(chain.head, 3);
    assert_eq!(
        chain.descs,
        vec![
            Descriptor { addr: 0x20000, len: 40, flags: 1 },
            Descriptor { addr: 0x21000, len: 40, flags: 0 },
        ]
    );
    assert_eq!(used_idx(&mem, RX_USED), 0);
    let done = dev.write_frame_to_guest(&mem, &chain, &data);
    assert_eq!(done, Ok(Delivery { used: 64, oversized: false }));
    assert_eq!(done.unwrap().diagnostic(), None);
    assert_eq!(used_idx(&mem, RX_USED), 1);
    assert_eq!(used_entry(&mem, RX_USED, 0), (3, 64));
    assert_eq!(guest_bytes(&mem, 0x20000, 40), data[..40].to_vec());
    assert_eq!(guest_bytes(&mem, 0x21000, 24), data[40..].to_vec());
    assert_eq!(guest_bytes(&mem, 0x21000 + 24, 4), vec![0u8; 4]);
    assert_eq!(dev.device_config.rx.next_avail, 1);
    assert_eq!(dev.device_config.rx.next_used, 1);
}

#[test]
fn rx_frame_longer_than_chain_is_truncated() {
    let mem = memory();
    let mut dev = operational();
    put_desc(&mem, RX_DESC, 0, 0x20000, 16, Some(1));
    put_desc(&mem, RX_DESC, 1, 0x21000, 8, None);
    offer(&mem, RX_AVAIL, 0, 0);
    let data = frame(64);
    let chain = rx_chain(&mut dev, &mem);
    let done = dev.write_frame_to_guest(&mem, &chain, &data);
    assert_eq!(done, Ok(Delivery { used: 24, oversized: true }));
    assert_eq!(done.unwrap().diagnostic(), Some(VirtioNetError::OversizedFrame));
    assert_eq!(used_idx(&mem, RX_USED), 1);
    assert_eq!(used_entry(&mem, RX_USED, 0), (0, 24));
    assert_eq!(guest_bytes(&mem, 0x20000, 16), data[..16].to_vec());
    assert_eq!(guest_bytes(&mem, 0x21000, 8), data[16..24].to_vec());
    assert_eq!(guest_bytes(&mem, 0x21000 + 8, 8), vec![0u8; 8]);
}

#[test]
fn rx_without_chain_halts_and_keeps_frame_out() {
    let mem = memory();
    let mut dev = operational();
    mem.write_obj(1u16, GuestAddress(RX_USED)).unwrap();
    assert!(matches!(dev.next_rx_chain(&mem), Available::Halt));
    assert_eq!(mem.read_obj::<u16>(GuestAddress(RX_USED)).unwrap(), 0);
    assert_eq!(used_idx(&mem, RX_USED), 0);
    assert_eq!(dev.device_config.rx.next_avail, 0);
}

#[test]
fn rx_before_driver_ok_takes_nothing() {
    let mem = memory();
    let mut dev = VirtioNet::new(&net_config(), false);
    assert!(matches!(dev.next_rx_chain(&mem), Available::Halt));
    assert!(matches!(dev.next_tx_chain(&mem), Available::Halt));
    assert!(matches!(dev.queue_notify(&mem), TxStep::Done));
    let chain = Chain { head: 0, descs: vec![Descriptor { addr: 0x20000, len: 64, flags: 2 }] };
    assert_eq!(
        dev.write_frame_to_guest(&mem, &chain, &frame(64)),
        Err(VirtioNetError::RegisterError)
    );
    assert_eq!(
        dev.read_frame_from_guest(&mem, &chain).err(),
        Some(VirtioNetError::RegisterError)
    );
}

#[test]
fn rx_fault_marks_device_failed() {
    let mem = memory();
    let mut dev = operational();
    put_desc(&mem, RX_DESC, 0, 0x9000_0000, 64, None);
    offer(&mem, RX_AVAIL, 0, 0);
    let chain = rx_chain(&mut dev, &mem);
    assert_eq!(
        dev.write_frame_to_guest(&mem, &chain, &frame(64)),
        Err(VirtioNetError::GuestMemoryFault)
    );
    assert_eq!(rd(&dev, 0x070), 0x8f);
    assert_eq!(wr(&mut dev, 0x050, 0), Err(VirtioNetError::RegisterError));
    assert_eq!(used_idx(&mem, RX_USED), 0);
}

#[test]
fn tx_chain_is_sent_whole() {
    let mem = memory();
    let mut dev = operational();
    let head = frame(12);
    let body: Vec<u8> = (0..30).map(|i| (200 - i) as u8).collect();
    mem.write_slice(&head, GuestAddress(0x30000)).unwrap();
    mem.write_slice(&body, GuestAddress(0x31000)).unwrap();
    put_desc(&mem, TX_DESC, 7, 0x30000, 12, Some(2));
    put_desc(&mem, TX_DESC, 2, 0x31000, 30, None);
    offer(&mem, TX_AVAIL, 0, 7);
    let mut expected = head.clone();
    expected.extend_from_slice(&body);
    match dev.queue_notify(&mem) {
        TxStep::Send { frame, signal } => {
            assert_eq!(frame, expected);
            assert!(signal);
        }
        other => panic!("unexpected step {:?}", other),
    }
    assert_eq!(used_idx(&mem, TX_USED), 1);
    assert_eq!(used_entry(&mem, TX_USED, 0), (7, 0x100));
    assert_eq!(rd(&dev, 0x060), 1);
    assert!(matches!(dev.queue_notify(&mem), TxStep::Done));
    assert_eq!(used_idx(&mem, TX_USED), 1);
}

#[test]
fn tx_chain_with_short_header_is_skipped() {
    let mem = memory();
    let mut dev = operational();
    put_desc(&mem, TX_DESC, 0, 0x30000, 11, Some(1));
    put_desc(&mem, TX_DESC, 1, 0x31000, 30, None);
    offer(&mem, TX_AVAIL, 0, 0);
    assert!(matches!(dev.queue_notify(&mem), TxStep::Skipped));
    assert_eq!(used_idx(&mem, TX_USED), 0);
    assert_eq!(rd(&dev, 0x060), 0);
    assert!(matches!(dev.queue_notify(&mem), TxStep::Done));
}

#[test]
fn tx_entry_added_after_empty_drain_is_processed() {
    let mem = memory();
    let mut dev = operational();
    assert!(matches!(dev.queue_notify(&mem), TxStep::Done));
    mem.write_slice(&frame(14), GuestAddress(0x30000)).unwrap();
    put_desc(&mem, TX_DESC, 0, 0x30000, 14, None);
    offer(&mem, TX_AVAIL, 0, 0);
    match dev.queue_notify(&mem) {
        TxStep::Send { frame: sent, signal: _ } => assert_eq!(sent, frame(14)),
        other => panic!("unexpected step {:?}", other),
    }
}

#[test]
fn drained_queue_switches_notifications_back_on() {
    let mem = memory();
    let mut dev = operational();
    mem.write_obj(0xffffu16, GuestAddress(TX_USED)).unwrap();
    assert!(matches!(dev.queue_notify(&mem), TxStep::Done));
    assert_eq!(mem.read_obj::<u16>(GuestAddress(TX_USED)).unwrap(), 0);
}

#[test]
fn tx_fault_marks_device_failed() {
    let mem = memory();
    let mut dev = operational();
    put_desc(&mem, TX_DESC, 0, 0x9000_0000, 64, None);
    offer(&mem, TX_AVAIL, 0, 0);
    assert!(matches!(dev.queue_notify(&mem), TxStep::Fault));
    assert_eq!(rd(&dev, 0x070) & 0x80, 0x80);
    assert!(!dev.device_config.activated);
}

#[test]
fn copy_frame_writes_each_segment() {
    let mem = memory();
    let descs = vec![
        Descriptor { addr: 0x100, len: 4, flags: 2 },
        Descriptor { addr: 0x200, len: 0, flags: 2 },
        Descriptor { addr: 0x300, len: 10, flags: 2 },
    ];
    let data = frame(9);
    let plan = copy_frame(&mem, &descs, &data).unwrap();
    assert_eq!(plan.used, 9);
    assert!(!plan.oversized);
    assert_eq!(plan.segments.len(), 3);
    assert_eq!((plan.segments[2].start, plan.segments[2].len), (4, 5));
    assert_eq!(guest_bytes(&mem, 0x100, 4), data[..4].to_vec());
    assert_eq!(guest_bytes(&mem, 0x300, 5), data[4..].to_vec());
    let outside = vec![Descriptor { addr: 0x9000_0000, len: 4, flags: 2 }];
    assert_eq!(copy_frame(&mem, &outside, &data).err(), Some(VirtioNetError::GuestMemoryFault));
}

#[test]
fn gather_tx_reads_each_buffer() {
    let mem = memory();
    mem.write_slice(&[1, 2, 3], GuestAddress(0x100)).unwrap();
    mem.write_slice(&[9, 8], GuestAddress(0x200)).unwrap();
    let descs = vec![
        Descriptor { addr: 0x100, len: 3, flags: 0 },
        Descriptor { addr: 0x200, len: 2, flags: 0 },
    ];
    assert_eq!(gather_tx(&mem, &descs), Ok(vec![vec![1, 2, 3], vec![9, 8]]));
    assert_eq!(gather_tx(&mem, &Vec::new()), Ok(Vec::new()));
    let outside = vec![Descriptor { addr: 0x9000_0000, len: 4, flags: 0 }];
    assert_eq!(gather_tx(&mem, &outside), Err(VirtioNetError::GuestMemoryFault));
}

#[test]
fn end_to_end_receive() {
    let mem = memory();
    let mut dev = operational();
    assert_eq!(dev.device_config.driver_features, 1u64 << 32);
    let setup = dev.activate();
    assert_eq!(setup.vnet_hdr_size, 12);
    assert_eq!(setup.offload, 0);
    put_desc(&mem, RX_DESC, 0, 0x20000, 128, None);
    offer(&mem, RX_AVAIL, 0, 0);
    let data = frame(64);
    let mut signals = 0;
    let chain = rx_chain(&mut dev, &mem);
    assert_eq!(
        dev.write_frame_to_guest(&mem, &chain, &data),
        Ok(Delivery { used: 64, oversized: false })
    );
    assert!(matches!(dev.next_rx_chain(&mem), Available::Halt));
    if dev.maybe_notify(&mem, 0) {
        signals += 1;
    }
    assert_eq!(signals, 1);
    assert_eq!(used_idx(&mem, RX_USED), 1);
    assert_eq!(used_entry(&mem, RX_USED, 0), (0, 64));
    assert_eq!(guest_bytes(&mem, 0x20000, 64), data);
    assert_eq!(rd(&dev, 0x060), 1);
}

#[test]
fn released_chain_is_offered_again() {
    let mem = memory();
    let mut dev = operational();
    put_desc(&mem, RX_DESC, 4, 0x20000, 64, None);
    offer(&mem, RX_AVAIL, 0, 4);
    let first = rx_chain(&mut dev, &mem);
    assert_eq!(dev.device_config.rx.next_avail, 1);
    dev.release_rx_chain();
    assert_eq!(dev.device_config.rx.next_avail, 0);
    let again = rx_chain(&mut dev, &mem);
    assert_eq!(again.head, first.head);
    assert_eq!(again.descs, first.descs);
    let mut fresh = VirtioNet::new(&net_config(), false);
    fresh.release_rx_chain();
    assert_eq!(fresh.device_config.rx.next_avail, 0xffff);
}

#[test]
fn malformed_transmit_chain_is_refused() {
    let mem = memory();
    let mut dev = operational();
    let short = Chain { head: 0, descs: vec![Descriptor { addr: 0x30000, len: 11, flags: 0 }] };
    assert_eq!(
        dev.read_frame_from_guest(&mem, &short).err(),
        Some(VirtioNetError::MalformedChain)
    );
    let empty = Chain { head: 0, descs: Vec::new() };
    assert_eq!(
        dev.read_frame_from_guest(&mem, &empty).err(),
        Some(VirtioNetError::MalformedChain)
    );
    assert_eq!(used_idx(&mem, TX_USED), 0);
    assert!(dev.device_config.activated);
}

#[test]
fn queue_with_misaligned_rings_faults() {
    let mem = memory();
    let mut dev = VirtioNet::new(&net_config(), false);
    assert_eq!(wr(&mut dev, 0x028, 1001), Ok(Effect::Nothing));
    assert_eq!(wr(&mut dev, 0x030, 1), Ok(Effect::Nothing));
    assert_eq!(wr(&mut dev, 0x040, 3), Ok(Effect::Nothing));
    assert_eq!(dev.device_config.tx.desc_table, 3003);
    assert_eq!(wr(&mut dev, 0x070, 0x0f), Ok(Effect::Activate));
    assert!(matches!(dev.next_tx_chain(&mem), Available::Fault));
    assert_eq!(rd(&dev, 0x070), 0x8f);
}

#[test]
fn ring_positions_wrap() {
    let mem = memory();
    let mut dev = operational();
    dev.device_config.rx.next_avail = 0xffff;
    dev.device_config.rx.next_used = 0xffff;
    put_desc(&mem, RX_DESC, 9, 0x20000, 64, None);
    mem.write_obj(9u16, GuestAddress(RX_AVAIL + 4 + 2 * 255)).unwrap();
    mem.write_obj(0u16, GuestAddress(RX_AVAIL + 2)).unwrap();
    let chain = rx_chain(&mut dev, &mem);
    assert_eq!(chain.head, 9);
    assert_eq!(dev.device_config.rx.next_avail, 0);
    assert_eq!(dev.device_config.rx.next_used, 0xffff);
    let data = frame(20);
    assert_eq!(
        dev.write_frame_to_guest(&mem, &chain, &data),
        Ok(Delivery { used: 20, oversized: false })
    );
    assert_eq!(dev.device_config.rx.next_used, 0);
    assert_eq!(dev.device_config.rx.next_avail, 0);
    assert_eq!(used_idx(&mem, RX_USED), 0);
    assert_eq!(used_entry(&mem, RX_USED, 255), (9, 20));
}

#[test]
fn positions_stay_when_nothing_is_taken_or_posted() {
    let mem = memory();
    let mut dev = operational();
    let before_rx = dev.device_config.rx;
    let before_tx = dev.device_config.tx;
    assert!(matches!(dev.next_rx_chain(&mem), Available::Halt));
    assert!(matches!(dev.next_tx_chain(&mem), Available::Halt));
    assert_eq!(dev.device_config.rx, before_rx);
    assert_eq!(dev.device_config.tx, before_tx);
    put_desc(&mem, TX_DESC, 0, 0x30000, 4, None);
    offer(&mem, TX_AVAIL, 0, 0);
    assert!(matches!(dev.queue_notify(&mem), TxStep::Skipped));
    assert_eq!(dev.device_config.tx.next_avail, 1);
    assert_eq!(dev.device_config.tx.next_used, 0);
}

#[test]
fn chain_head_outside_ring_is_a_fault() {
    let mem = memory();
    let mut dev = operational();
    let chain = Chain { head: 256, descs: vec![Descriptor { addr: 0x20000, len: 64, flags: 2 }] };
    assert_eq!(
        dev.write_frame_to_guest(&mem, &chain, &frame(10)),
        Err(VirtioNetError::GuestMemoryFault)
    );
    assert_eq!(dev.device_config.rx.next_used, 0);
    assert_eq!(used_idx(&mem, RX_USED), 0);
    assert!(!dev.device_config.activated);

    let mut dev = operational();
    mem.write_slice(&frame(12), GuestAddress(0x30000)).unwrap();
    let chain = Chain { head: 300, descs: vec![Descriptor { addr: 0x30000, len: 12, flags: 0 }] };
    assert_eq!(
        dev.read_frame_from_guest(&mem, &chain).err(),
        Some(VirtioNetError::GuestMemoryFault)
    );
    assert_eq!(dev.device_config.tx.next_used, 0);
    assert_eq!(rd(&dev, 0x060), 0);
}

#[test]
fn interrupt_is_signalled_for_each_placed_queue() {
    let mem = memory();
    let mut dev = operational();
    assert!(!dev.maybe_notify(&mem, 2));
    assert_eq!(rd(&dev, 0x060), 0);
    assert!(dev.maybe_notify(&mem, 1));
    assert_eq!(rd(&dev, 0x060), 1);
    assert!(dev.maybe_notify(&mem, 0));
    assert_eq!(rd(&dev, 0x060), 1);
    let mut odd = operational();
    odd.device_config.rx.used_ring = 0x3002;
    assert!(!odd.maybe_notify(&mem, 0));
    assert_eq!(rd(&odd, 0x060), 0);
    assert!(odd.maybe_notify(&mem, 1));
}

#[test]
fn queue_without_available_ring_faults() {
    let mem = memory();
    let mut dev = operational();
    dev.device_config.tx.avail_ring = 0;
    assert!(matches!(dev.next_tx_chain(&mem), Available::Fault));
    assert_eq!(rd(&dev, 0x070), 0x8f);
    let mut dev = operational();
    dev.device_config.rx.avail_ring = 0;
    assert!(matches!(dev.next_rx_chain(&mem), Available::Fault));
    assert!(!dev.device_config.activated);
}
