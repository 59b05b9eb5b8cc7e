use k3_drivers::aplic::{pack_smsicfg_addrh, Aplic, MsiConfig, MsiTarget};
use k3_drivers::gmac::controller::{DescRing, K3GmacConfig, K3GmacCore, TxBuffer, QUEUE_SIZE};
use k3_drivers::gmac::desc::{ring_offset, set_addr, tx_has_error, DmaDesc};
use k3_drivers::gmac::mdio::Mdio;
use k3_drivers::gmac::reference::{
    dma_desc, dwmac4_dma_init_channel_ref, dwmac4_dma_init_ref, dwmac4_dma_rx_chan_op_mode_ref,
    dwmac4_dma_tx_chan_op_mode_ref, dwmac4_enable_mac_ref, dwmac4_set_addr_ref, k3_mmio,
};
use k3_drivers::gmac::regs::{
    dma_chan_status, dma_chan_tx_control, mtl_chan_rx_op_mode, mtl_chan_tx_op_mode, Mmio,
};
use k3_drivers::gmac::syscon::update_bits;
use k3_drivers::pinctrl::controller::K3Pinctrl;
use k3_drivers::script::{Op, Reg, Script, Window};
use k3_drivers::sdhci::host::{K3SdhciHost, Timing, TuningError};
use k3_drivers::sdhci::tuning::TuningWindowScan;
use k3_drivers::uart::port::PxaUart;
use k3_drivers::uart::regs;
use k3_drivers::uart::rx::fold;
use k3_drivers::uart::types::{
    Config, ConfigError, RxFlag, RxSample, SerialEventSet, Source,
};
use k3_drivers::ufs::host::{K3UfsHost, UpiuSlotKind};
use k3_drivers::ufs::power::{config_pwr_mode, least, PwrModeParams};
use k3_drivers::ufs::scsi::{read_be32, CommandEnd};
use k3_drivers::ufs::transfer::slot_mask;
use k3_drivers::usb::dwc3::power_option;

fn own(offset: usize) -> Reg {
    Reg { window: Window::Core, offset }
}

fn wr(offset: usize, value: u32) -> Op {
    Op::Write { reg: own(offset), value }
}

fn up(offset: usize, clear: u32, set: u32) -> Op {
    Op::Update { reg: own(offset), clear, set }
}

fn ops(script: Script) -> Vec<Op> {
    script.ops
}

#[test]
fn interrupt_controller_registers() {
    let mut aplic = Aplic::new(33);
    assert_eq!(
        ops(aplic.clear_all_pending()),
        vec![wr(0x1d00, 0xffff_ffff), wr(0x1d04, 0xffff_ffff)]
    );
    let mut full = Aplic::new(32);
    assert_eq!(
        ops(full.clear_all_pending()),
        vec![wr(0x1d00, 0xffff_ffff), wr(0x1d04, 0xffff_ffff)]
    );
    let disable = ops(full.disable_all_sources());
    assert_eq!(disable.len(), 2 + 32);
    assert_eq!(disable[..2], [wr(0x1f00, 0xffff_ffff), wr(0x1f04, 0xffff_ffff)]);
    assert_eq!(disable[33], wr(0x4 + 31 * 4, 0));
    assert_eq!(ops(Aplic::new(31).clear_all_pending()), vec![wr(0x1d00, 0xffff_ffff)]);
    assert!(ops(Aplic::new(0).clear_all_pending()).is_empty());
    let config = MsiConfig { base_ppn: 0xe0400, lhxw: 4, lhxs: 0, hhxw: 0, hhxs: 0 };
    assert_eq!(pack_smsicfg_addrh(&config), 0x8000_4000);
    assert_eq!(
        ops(aplic.init_msi_mode(&config)),
        vec![wr(0x1bc8, 0xe0400), wr(0x1bcc, 0x8000_4000), up(0, 0, 0x104)]
    );
    assert_eq!(ops(aplic.trigger_source(7)), vec![wr(0x2000, 7)]);
    assert_eq!(ops(aplic.clear_source_pending(33)), vec![wr(0x1d04, 2)]);
    let target = MsiTarget { hart_index: 1, guest_index: 0, eiid: 5 };
    assert_eq!(ops(aplic.generate_msi(target)), vec![wr(0x3000, 0x40005)]);
    assert_eq!(aplic.pending_bitmap(2), Op::Read { reg: own(0x1c08) });
    assert_eq!(aplic.enable_bitmap(1), Op::Read { reg: own(0x1e04) });
    assert_eq!(aplic.read_raw(0x10), Op::Read { reg: own(0x10) });
}

fn gmac(rx_fifo_depth: u32) -> K3GmacCore {
    K3GmacCore::new(
        0x1_0000_2000,
        0x3000,
        K3GmacConfig {
            mac: [1, 2, 3, 4, 5, 6],
            tx_fifo_depth: 4096,
            rx_fifo_depth,
            checksum_offload: false,
            speed_mbps: 1000,
            full_duplex: true,
        },
    )
}

fn empty_ring() -> DescRing {
    [DmaDesc { des0: 0, des1: 0, des2: 0, des3: 0 }; QUEUE_SIZE]
}

#[test]
fn ethernet_controller_is_stopped_and_started() {
    let core_state = gmac(4096);
    assert_eq!(core_state.mac_address(), [1, 2, 3, 4, 5, 6]);
    assert_eq!(
        ops(core_state.reset_dma()),
        vec![
            up(0x1000, 0, 1),
            Op::Poll {
                reg: own(0x1000),
                mask: 1,
                value: 0,
                attempts: 1_000_000,
                interval_us: 1,
                patient: true,
                required: false,
            },
        ]
    );
    assert_eq!(
        ops(core_state.stop_dma()),
        vec![up(0x1104, 1, 0), up(0x1108, 1, 0), up(0, 3, 0)]
    );
    assert_eq!(
        ops(core_state.start_dma()),
        vec![up(0x1108, 0, 1), up(0x1104, 0, 1)]
    );
    assert_eq!(
        ops(core_state.program_mac_address()),
        vec![wr(0x304, 0x0403_0201), wr(0x300, 0x8000_0605)]
    );
}

#[test]
fn ethernet_controller_settings() {
    let core_state = gmac(4096);
    assert_eq!(
        ops(core_state.init_dma_bus()),
        vec![
            wr(0x1004, 0x2_080c),
            wr(0x1100, 0x19_0000),
            wr(0x1134, 0x1_9001),
            wr(0x1104, 0x8_0010),
            wr(0x1108, 0x8_1000),
        ]
    );
    assert_eq!(
        ops(core_state.init_mtl()),
        vec![wr(0xc00, 0x000f_0009), up(0xc30, 0x3fff_ff00, 0x00f0_c164)]
    );
    assert_eq!(
        ops(gmac(2048).init_mtl()),
        vec![wr(0xc00, 0x000f_0009), up(0xc30, 0x3ff0_0000, 0x0070_0060)]
    );
    let (mut tx, mut rx) = (empty_ring(), empty_ring());
    tx[5].des3 = 7;
    assert_eq!(
        ops(core_state.init_rings(&mut tx, &mut rx)),
        vec![
            wr(0x1110, 1),
            wr(0x1114, 0x2000),
            wr(0x112c, 63),
            wr(0x1118, 0),
            wr(0x111c, 0x3000),
            wr(0x1130, 63),
        ]
    );
    assert_eq!(tx, empty_ring());
    assert_eq!(
        ops(core_state.init_mac_config()),
        vec![up(0, 0x7_8200, 0x7_8200), wr(8, 0x11), up(0xa0, 3, 2)]
    );
}

#[test]
fn descriptors_are_taken_back() {
    let mut core_state = gmac(4096);
    let (mut tx, mut rx) = (empty_ring(), empty_ring());
    let sent = TxBuffer { bus_addr: 0x9000, len: 60 };
    assert!(core_state.submit_tx(&mut tx, sent).is_ok());
    assert!(core_state.submit_rx(&mut rx, 0xa000).is_ok());
    core_state.reclaim_tx(&mut tx);
    core_state.reclaim_rx(&mut rx);
    assert!(core_state.tx_done.is_empty() && core_state.rx_done.is_empty());
    tx[0].des3 = 1 << 15;
    assert!(tx_has_error(&tx[0]));
    rx[0].des3 = (1 << 29) | (1 << 28) | 64;
    core_state.reclaim_tx(&mut tx);
    core_state.reclaim_rx(&mut rx);
    assert_eq!(core_state.tx_done, [0x9000]);
    assert_eq!(core_state.rx_done, [(0xa000, 64)]);
    assert_eq!((tx, rx), (empty_ring(), empty_ring()));
    assert_eq!(ring_offset(3), 48);
}

#[test]
fn channel_registers() {
    assert_eq!(dma_chan_status(0), 0x1160);
    assert_eq!(dma_chan_tx_control(2), 0x1204);
    assert_eq!(mtl_chan_tx_op_mode(1), 0xc40);
    assert_eq!(mtl_chan_rx_op_mode(1), 0xc70);
    let mmio = Mmio::new(Window::Syscon);
    assert_eq!(
        update_bits(&mmio, 8, 0xf0, 0xff),
        Op::Update { reg: Reg { window: Window::Syscon, offset: 8 }, clear: 0xf0, set: 0xf0 }
    );
}

#[test]
fn management_reads_wait_for_the_bus() {
    let mmio = Mmio::new(Window::Core);
    let mdio = Mdio::new(&mmio, 5);
    let idle = mdio.wait_idle();
    assert!(matches!(idle, Op::Poll { mask: 1, value: 0, required: true, .. }));
    let script = ops(mdio.read_c22(3, 2));
    assert_eq!(script[0], idle);
    assert_eq!(script[1], wr(0x200, mdio.command(3, 2, 0b11 << 2)));
    assert_eq!(script.last(), Some(&Op::Read { reg: own(0x204) }));
    assert_eq!(mdio.command(3, 2, 0b11 << 2), (3 << 21) | (2 << 16) | (5 << 8) | 0xc | 1);
}

#[test]
fn reference_channel_settings() {
    let mut io = k3_mmio { regs: [0; 2048] };
    dwmac4_dma_init_ref(&mut io);
    assert_eq!(io.regs[0x1004 / 4], 0);
    assert_eq!(io.regs[0x1028 / 4], 0xfe);
    dwmac4_dma_init_channel_ref(&mut io, 0, 0x1_0000_2000, 0x3000, 64, 2048);
    let at = |offset: usize| io.regs[offset / 4];
    assert_eq!((at(0x1110), at(0x1114), at(0x1118), at(0x111c)), (1, 0x2000, 0, 0x3000));
    assert_eq!((at(0x112c), at(0x1130)), (63, 63));
    assert_eq!((at(0x1120), at(0x1128)), (0x2000, 0x3000));
    assert_eq!((at(0x1104), at(0x1108)), (0, 0x1000));
    dwmac4_dma_rx_chan_op_mode_ref(&mut io, 0, 4096);
    assert_eq!(io.regs[0xd30 / 4], 0x00f0_c1e0);
    dwmac4_dma_tx_chan_op_mode_ref(&mut io, 0, 4096);
    assert_eq!(io.regs[0xd00 / 4], 0x000f_000a);
    io.regs[0] = 0xc000;
    dwmac4_enable_mac_ref(&mut io);
    assert_eq!(io.regs[0], 0);
    let mut desc = dma_desc { des0: 0, des1: 0, des2: 9, des3: 9 };
    dwmac4_set_addr_ref(&mut desc, 0x1_0000_2000);
    assert_eq!((desc.des0, desc.des1, desc.des2, desc.des3), (0x2000, 1, 9, 9));
    let mut own = DmaDesc { des0: 0, des1: 0, des2: 9, des3: 9 };
    set_addr(&mut own, 0x1_0000_2000);
    assert_eq!((own.des0, own.des1, own.des2, own.des3), (0x2000, 1, 9, 9));
}

#[test]
fn pins_are_written_one_by_one() {
    let pins = K3Pinctrl { asar_offset: 0x50 };
    let reg = Reg { window: Window::Pins, offset: 4 };
    assert_eq!(ops(pins.set_mux(1, 5)), vec![Op::Update { reg, clear: 7, set: 5 }]);
    assert_eq!(ops(pins.set_config_value(1, 0x18)).len(), 1);
}

#[test]
fn tuning_keeps_the_middle_of_the_window() {
    let mut host = K3SdhciHost::new();
    assert!(ops(host.prepare_tuning(Timing::Legacy)).is_empty());
    assert_eq!(
        ops(host.prepare_tuning(Timing::MmcHs200)),
        vec![up(0x134, 0xff, 0), up(0x130, 0, 1), up(0x118, 0xc, 4)]
    );
    let scan = TuningWindowScan { max_windows: 60, max_delay: 109 };
    assert_eq!(ops(host.apply_scan(scan).unwrap()), vec![up(0x130, 0xff_0000, 80 << 16)]);
    let narrow = TuningWindowScan { max_windows: 10, max_delay: 9 };
    assert_eq!(
        host.apply_scan(narrow).unwrap_err(),
        TuningError::WindowTooNarrow { max_windows: 10 }
    );
    assert_eq!(host.rxtuning.select_delay, 80);
}

fn speed(baudrate: u32) -> Config {
    Config { baudrate: Some(baudrate), data_bits: None, stop_bits: None, parity: None }
}

#[test]
fn serial_port_is_started() {
    let mut uart = PxaUart::new(14_700_000, 8, 0);
    assert_eq!(uart.initial_baudrate(), 114_843);
    assert_eq!(PxaUart::new(16_000_000, 0, 0).initial_baudrate(), 1_000_000);
    let pending = vec![
        regs::read(regs::UART_LSR),
        regs::read(regs::UART_RBR),
        regs::read(regs::UART_IIR),
        regs::read(regs::UART_MSR),
    ];
    let mut reset = vec![
        regs::write(regs::UART_FCR, 1),
        regs::write(regs::UART_FCR, 7),
        regs::write(regs::UART_FCR, 0),
    ];
    reset.extend(pending.clone());
    reset.extend([regs::write(regs::UART_LCR, 3), regs::write(regs::UART_MCR, 8)]);
    assert_eq!(ops(uart.reset_line()), reset);

    let divisor = vec![
        regs::write(regs::UART_LCR, 0x83),
        regs::write(regs::UART_DLH, 0),
        regs::read(regs::UART_DLH),
        regs::write(regs::UART_DLL, 8),
        regs::read(regs::UART_DLL),
        regs::read(regs::UART_DLL),
        regs::write(regs::UART_LCR, 3),
    ];
    assert_eq!(ops(uart.set_divisor(8, 3)), divisor);
    let mut start = divisor;
    start.extend([
        regs::write(regs::UART_LCR, 3),
        regs::write(regs::UART_FCR, 0x41),
        regs::write(regs::UART_IER, 0x40),
    ]);
    start.extend(pending);
    start.push(regs::write(regs::UART_IER, 0x40));
    assert_eq!(ops(uart.startup(&speed(115_200), 3).unwrap()), start);
    assert_eq!(uart.startup(&speed(0), 3).unwrap_err(), ConfigError::InvalidBaudrate);
    assert_eq!(uart.select_fcr_flags(1), 0x81);
    assert_eq!(uart.select_fcr_flags(0xffff), 0x01);
}

#[test]
fn serial_port_reports_what_is_ready_when_armed() {
    let mut uart = PxaUart::new(14_700_000, 8, 0);
    let sources = SerialEventSet::empty().with(Source::RxData).with(Source::TxSpace);
    assert!(sources.has_rx() && Source::RxTimeout.is_rx() && !Source::TxSpace.is_rx());
    assert_eq!(
        ops(uart.arm(sources, 0x40)),
        vec![regs::write(regs::UART_IER, uart.ier), regs::read(regs::UART_LSR)]
    );
    let armed = uart.ier;
    assert_eq!(armed & 0x43, 0x43);
    let (ready, accesses) = uart.rearm(sources, 0);
    assert!(ready.is_empty() && accesses.ops.is_empty());
    let (ready, accesses) = uart.rearm(sources, regs::LSR_THRE);
    assert_eq!(ready, SerialEventSet::empty().with(Source::TxSpace));
    assert_eq!(ops(accesses), vec![regs::write(regs::UART_IER, armed & !2)]);
    assert_eq!(uart.mask_all(0x57), regs::write(regs::UART_IER, 0x40));
}

#[test]
fn serial_port_reads_samples() {
    let mut uart = PxaUart::new(14_700_000, 8, 0);
    assert_eq!(uart.read_lsr_preserving(regs::LSR_OE), regs::LSR_OE);
    assert_eq!(uart.read_lsr_preserving(0), regs::LSR_OE);
    assert_eq!(fold(regs::LSR_DR | regs::LSR_PE, regs::LSR_FE), regs::LSR_PE | regs::LSR_FE);
    let pending = uart.read_rx(regs::LSR_DR).unwrap();
    assert_eq!(
        pending.complete(b'a'),
        RxSample { byte: Some(b'a'), flag: RxFlag::Normal, overrun: true }
    );
    assert!(uart.read_rx(0).is_none());
    assert_eq!(uart.drain_rx(regs::LSR_DR), Some(regs::read(regs::UART_RBR)));
    assert_eq!(uart.drain_rx(0), None);
}

fn start_of(cdb: [u8; 16]) -> [u8; 10] {
    core::array::from_fn(|i| cdb[i])
}

#[test]
fn storage_commands() {
    assert_eq!(K3UfsHost::test_unit_ready().cdb, [0; 16]);
    assert_eq!(start_of(K3UfsHost::request_sense().cdb), [3, 0, 0, 0, 18, 0, 0, 0, 0, 0]);
    assert_eq!(K3UfsHost::request_sense().data_len, 18);
    assert_eq!(start_of(K3UfsHost::scsi_inquiry().cdb), [0x12, 0, 0, 0, 36, 0, 0, 0, 0, 0]);
    assert_eq!(K3UfsHost::scsi_read_capacity_10().cdb[0], 0x25);
    assert_eq!(K3UfsHost::scsi_read_capacity_10().data_len, 8);
    let long = K3UfsHost::scsi_read_capacity_16();
    assert_eq!((long.cdb[0], long.cdb[1], long.cdb[13], long.data_len), (0x9e, 0x10, 32, 32));
    let report = K3UfsHost::report_luns();
    assert_eq!((report.cdb[0], &report.cdb[6..10], report.data_len), (0xa0, &[0, 0, 16, 0][..], 4096));
    assert_eq!(read_be32(&[0, 1, 2, 3, 4], 1), 0x0102_0304);
    assert_eq!(K3UfsHost::block_result(CommandEnd::Good, true), Ok(()));
    assert!(K3UfsHost::block_result(CommandEnd::Bad, false).is_err());
}

#[test]
fn storage_slots_and_modes() {
    let mut host = K3UfsHost::new();
    host.setup_transfer_lists(0x1f);
    assert_eq!(host.take_slot(UpiuSlotKind::DevCmd), 31);
    assert_eq!(host.take_slot(UpiuSlotKind::ScsiIo), 0);
    assert_eq!(host.take_slot(UpiuSlotKind::ScsiIo), 1);
    assert_eq!(slot_mask(31), 0x8000_0000);
    assert_eq!(least(3, 2), 2);
    let change = config_pwr_mode(&PwrModeParams::fast(3, 2, 1));
    assert!(change.len() > 8);
    assert_eq!(power_option(0x0100_0000), 1);
}
