use fdt_edit::{Node, Property};
use k3_drivers::gmac::controller::{
    next, DescRing, K3GmacConfig, K3GmacCore, NetEvent, SubmitError, TxBuffer, BUFFER_SIZE,
    QUEUE_SIZE,
};
use k3_drivers::gmac::desc::{
    clear, mtl_fifo_words, prepare_rx, prepare_tx, rx_buf_size_bits, rx_has_error, rx_len,
    rx_owned, rx_ready, split_addr, tx_owned, DmaDesc,
};
use k3_drivers::gmac::mdio::{
    negotiated, BringUp, Mdio, PhyLinkState, PhyStep, ScanStep, ADVERTISED, ADV_1000FULL,
    BMSR_ANEGCOMPLETE, BMSR_ESTATEN, BMSR_LSTATUS, LPA_1000FULL,
};
use k3_drivers::gmac::pinctrl::{
    apbc_reference, bias_disable_config, drive_strength_config_1v8, gmac1_pins, io_pd_offset,
    pin_reg_offset, state_phandle, K3GmacPinctrl, K3PinMux, Located, PinctrlError, RegEntry,
    K3_GMAC1_CTRL_OFFSET,
};
use k3_drivers::gmac::probe::{generated_mac, parse_config, parse_mac};
use k3_drivers::gmac::queue::{
    hard_irq_result, queue_config, rearm_result, K3GmacNet, NetHardIrqResult, NetRearmResult,
};
use k3_drivers::gmac::reference::{
    dwmac4_program_mac_ref, dwmac4_rd_init_rx_desc_ref, dwmac4_rd_prepare_tx_desc_ref,
    dwmac4_rx_len_ref, dwmac4_rx_ready_ref, dwmac4_tx_owned_ref, k3_delayline_init_ref,
    k3_eqos_iface_config_ref, k3_eqos_wol_config_ref, k3_fix_mac_speed_ref, dma_desc, k3_glue,
    k3_mmio, K3_CLK_TUNING_BY_DLINE, K3_PHY_RGMII,
};
use k3_drivers::gmac::regs::Mmio;
use k3_drivers::gmac::syscon::{ClockTuning, GlueConfig, GpioReset, PhyMode};
use k3_drivers::script::{Op, Reg, Window};

fn reg(window: Window, offset: usize) -> Reg {
    Reg { window, offset }
}

fn cells(values: &[u32]) -> Vec<u8> {
    values.iter().flat_map(|value| value.to_be_bytes()).collect()
}

fn node(props: &[(&str, Vec<u8>)]) -> Node {
    let mut node = Node::new("ethernet");
    for (name, data) in props {
        node.set_property(Property::new(name, data.clone()));
    }
    node
}

fn config() -> K3GmacConfig {
    K3GmacConfig {
        mac: [2, 0x4b, 0x33, 1, 2, 3],
        tx_fifo_depth: 4096,
        rx_fifo_depth: 1024,
        checksum_offload: false,
        speed_mbps: 1000,
        full_duplex: true,
    }
}

fn empty_ring() -> DescRing {
    [DmaDesc { des0: 0, des1: 0, des2: 0, des3: 0 }; QUEUE_SIZE]
}

#[test]
fn fifo_depths_hold_a_buffer() {
    assert_eq!(config().queue_fifo_depths(), (4096, BUFFER_SIZE as u32));
    assert_eq!(next(0), 1);
    assert_eq!(next(63), 0);
}

#[test]
fn descriptors_are_filled_in() {
    let mut desc = DmaDesc { des0: 9, des1: 9, des2: 9, des3: 9 };
    prepare_tx(&mut desc, 0x1_2345_6789, 60, false);
    assert_eq!(
        desc,
        DmaDesc { des0: 0x2345_6789, des1: 1, des2: 0x8000_003c, des3: 0xb000_003c }
    );
    prepare_tx(&mut desc, 0, 0x1_0000, true);
    assert_eq!(desc.des2, 0x8000_3fff);
    assert_eq!(desc.des3, 0xb003_3fff);
    assert!(tx_owned(&desc));
    prepare_rx(&mut desc, 0x2000);
    assert_eq!(desc, DmaDesc { des0: 0x2000, des1: 0, des2: 0, des3: 0xc100_0000 });
    assert!(rx_owned(&desc));
    desc.des3 = 0x3000_0040;
    assert!(rx_ready(&desc) && !rx_has_error(&desc));
    assert_eq!(rx_len(&desc), 0x40);
    clear(&mut desc);
    assert!(!rx_ready(&desc));
}

#[test]
fn descriptors_agree_with_the_reference() {
    for checksum in [false, true] {
        let mut desc = DmaDesc { des0: 0, des1: 0, des2: 0, des3: 0 };
        let mut reference = dma_desc { des0: 0, des1: 0, des2: 0, des3: 0 };
        prepare_tx(&mut desc, 0x1_0000_3000, 1514, checksum);
        dwmac4_rd_prepare_tx_desc_ref(&mut reference, 0x1_0000_3000, 1514, checksum as i32);
        assert_eq!((desc.des0, desc.des1), (reference.des0, reference.des1));
        assert_eq!(desc.des3, reference.des3);
        assert_eq!(dwmac4_tx_owned_ref(&reference), 1);
    }
    let mut reference = dma_desc { des0: 0, des1: 0, des2: 0, des3: 0 };
    dwmac4_rd_init_rx_desc_ref(&mut reference, 0x2000, 0);
    assert_eq!(reference.des3, 0xc100_0000);
    reference.des3 = 0x3000_0040;
    assert_eq!(dwmac4_rx_ready_ref(&reference), 1);
    assert_eq!(dwmac4_rx_len_ref(&reference), 0x40);
}

#[test]
fn register_fields() {
    assert_eq!(split_addr(0x1_0000_2000), (0x2000, 1));
    assert_eq!(mtl_fifo_words(4096), 15);
    assert_eq!(mtl_fifo_words(100), 0);
    assert_eq!(rx_buf_size_bits(2048), 0x1000);
}

#[test]
fn frames_come_back_in_order_once_sent() {
    let mut core = K3GmacCore::new(0x10_0000, 0x20_0000, config());
    let mut ring = empty_ring();
    for i in 0..3u64 {
        let doorbell = core
            .submit_tx(&mut ring, TxBuffer { bus_addr: 0x8000 + i, len: 60 })
            .unwrap();
        assert_eq!(doorbell.index, i as usize);
        assert!(matches!(
            doorbell.script.ops[0],
            Op::Write { value, .. } if value == 0x10_0000 + 16 * (i as u32 + 1)
        ));
    }
    assert_eq!(core.reclaim_tx_buffer(&mut ring), None);
    ring[0].des3 = 0;
    ring[2].des3 = 0;
    assert_eq!(core.reclaim_tx_buffer(&mut ring), Some(0x8000));
    assert_eq!(core.reclaim_tx_buffer(&mut ring), None);
    ring[1].des3 = 0;
    assert_eq!(core.reclaim_tx_buffer(&mut ring), Some(0x8001));
    assert_eq!(core.reclaim_tx_buffer(&mut ring), Some(0x8002));
    assert_eq!((core.tx.clean, core.tx.fill), (3, 3));
    let next = core.submit_tx(&mut ring, TxBuffer { bus_addr: 0x9000, len: 60 }).unwrap();
    assert_eq!(next.index, 3);
}

#[test]
fn full_ring_takes_no_frame() {
    let mut core = K3GmacCore::new(0, 0x2000, config());
    let mut ring = empty_ring();
    for i in 0..QUEUE_SIZE as u64 {
        assert!(core.submit_tx(&mut ring, TxBuffer { bus_addr: i, len: 1 }).is_ok());
    }
    assert_eq!(
        core.submit_tx(&mut ring, TxBuffer { bus_addr: 99, len: 1 }).err(),
        Some(SubmitError::Retry)
    );
    assert_eq!((core.tx.clean, core.tx.fill), (0, 0));
    ring[0].des3 = 0;
    assert!(core.submit_tx(&mut ring, TxBuffer { bus_addr: 99, len: 1 }).is_ok());
}

#[test]
fn received_frames_have_their_length() {
    let mut core = K3GmacCore::new(0, 0x2000, config());
    let mut ring = empty_ring();
    assert!(core.submit_rx(&mut ring, 0x100).is_ok());
    assert!(core.submit_rx(&mut ring, 0x200).is_ok());
    ring[0].des3 = 0x3000_0040;
    ring[1].des3 = 0x3000_8040;
    assert_eq!(core.reclaim_rx_buffer(&mut ring), Some((0x100, 0x40)));
    assert_eq!(core.reclaim_rx_buffer(&mut ring), Some((0x200, 0)));
    assert_eq!(core.reclaim_rx_buffer(&mut ring), None);
    assert_eq!((core.rx.clean, core.rx.fill), (2, 2));
}

#[test]
fn interrupts_tell_which_queue_has_work() {
    let mut core = K3GmacCore::new(0, 0x2000, config());
    let (mut tx, mut rx) = (empty_ring(), empty_ring());
    assert!(core.acknowledge(0x41).is_none());
    let idle = core.handle_irq(0x41, &mut tx, &mut rx);
    assert_eq!(idle, NetEvent { tx: false, rx: false });
    let status = 0x8000 | 0x40;
    let ack = core.acknowledge(status).unwrap();
    assert_eq!(ack.ops, vec![Op::Write { reg: reg(Window::Core, 0x1160), value: status }]);
    let event = core.handle_irq(status, &mut tx, &mut rx);
    assert_eq!(event, NetEvent { tx: false, rx: true });
    assert_eq!(hard_irq_result(Some(event)), NetHardIrqResult::Schedule(event));
    assert_eq!(hard_irq_result(Some(idle)), NetHardIrqResult::Spurious);
    assert_eq!(hard_irq_result(None), NetHardIrqResult::ProbeDeferred);
    assert_eq!(rearm_result(idle), NetRearmResult::Idle);
    assert_eq!(rearm_result(event), NetRearmResult::WorkPending(event));
    core.enable_irq();
    assert!(core.is_irq_enabled());
    core.disable_irq();
    assert!(!core.is_irq_enabled());
}

#[test]
fn device_has_one_queue_pair() {
    let net = K3GmacNet::new(K3GmacCore::new(0, 0x2000, config()));
    assert_eq!(net.mac, [2, 0x4b, 0x33, 1, 2, 3]);
    assert_eq!(queue_config().ring_size, 64);
    assert_eq!(queue_config().buf_size, 2048);
}

#[test]
fn hardware_is_set_up() {
    let core = K3GmacCore::new(0x1_0000_2000, 0x3000, config());
    let (mut tx, mut rx) = (empty_ring(), empty_ring());
    tx[5].des3 = 7;
    let ops = core.init_hardware(&mut tx, &mut rx).ops;
    assert_eq!(tx[5].des3, 0);
    let version = Op::Read { reg: reg(Window::Core, 0x110) };
    let at = ops.iter().position(|op| *op == version).unwrap();
    assert_eq!(ops[at - 1], Op::Write { reg: reg(Window::Core, 0x300), value: 0x8000_0302 });
    assert_eq!(ops[at + 4], Op::Read { reg: reg(Window::Core, 0x128) });
    assert!(ops.contains(&Op::Write { reg: reg(Window::Core, 0x304), value: 0x0133_4b02 }));
    assert!(ops.contains(&Op::Write { reg: reg(Window::Core, 0x300), value: 0x8000_0302 }));
    assert!(ops.contains(&Op::Write { reg: reg(Window::Core, 0x112c), value: 63 }));
    assert!(core.apply_link_speed(2500, true).ops.is_empty());
    assert_eq!(
        core.apply_link_speed(100, false).ops,
        vec![Op::Update { reg: reg(Window::Core, 0), clear: 0xe003, set: 0xc003 }]
    );
    assert_eq!(core.link_settings(None), (1000, true));
    let link = PhyLinkState { up: false, aneg_complete: true, speed_mbps: 10, full_duplex: false };
    assert_eq!(core.link_settings(Some(link)), (10, false));
    let last = core.finish_init(None).ops;
    assert_eq!(last.len(), 17);
    assert_eq!(last[3], Op::Read { reg: reg(Window::Core, 0) });
    assert_eq!(last[16], Op::Read { reg: reg(Window::Core, 0x1128) });
}

#[test]
fn station_address_agrees_with_the_reference() {
    let mut io = k3_mmio { regs: [0; 2048] };
    dwmac4_program_mac_ref(&mut io, &[2, 0x4b, 0x33, 1, 2, 3]);
    assert_eq!(io.regs[0x304 / 4], 0x0133_4b02);
    assert_eq!(io.regs[0x300 / 4], 0x8000_0302);
}

#[test]
fn phys_are_searched_for() {
    let mmio = Mmio::new(Window::Core);
    let mdio = Mdio::new(&mmio, 5);
    assert_eq!(mdio.command(1, 2, 0xc), 0x0022_050d);
    assert_eq!(mdio.write_c22(0, 0, 0x8000).ops.len(), 4);
    let mut scan = mdio.find_phy();
    assert_eq!(scan.resume(None), ScanStep::Next);
    assert_eq!(scan.resume(Some(0xffff)), ScanStep::Next);
    assert_eq!(scan.resume(Some(0x001c)), ScanStep::Found { addr: 2 });
    let mut scan = mdio.find_phy();
    for _ in 0..7 {
        assert_eq!(scan.resume(Some(0)), ScanStep::Next);
    }
    assert_eq!(scan.resume(Some(0)), ScanStep::NotFound);
}

#[test]
fn links_are_negotiated() {
    let mmio = Mmio::new(Window::Core);
    let mdio = Mdio::new(&mmio, 5);
    let mut work = mdio.init_phy(1, 1000);
    assert_eq!(work.script(&mdio).ops.len(), 4);
    assert_eq!(work.resume(Some(0)), BringUp::Continue);
    assert!(matches!(work.step, PhyStep::ResetWait { left: 50 }));
    work.resume(Some(0x8000));
    work.resume(Some(0));
    assert_eq!(work.step, PhyStep::Advertise);
    work.resume(Some(0));
    work.resume(Some(BMSR_ESTATEN as u32));
    assert_eq!(work.step, PhyStep::Gigabit { enable: true });
    work.resume(Some(0));
    work.resume(Some(0));
    let status = (BMSR_ANEGCOMPLETE | BMSR_LSTATUS) as u32;
    work.resume(Some(status));
    work.resume(Some(status));
    work.resume(Some(status));
    work.resume(Some(status));
    work.resume(Some(LPA_1000FULL as u32));
    work.resume(Some(0));
    let done = work.resume(Some(ADV_1000FULL as u32));
    let link = PhyLinkState { up: true, aneg_complete: true, speed_mbps: 1000, full_duplex: true };
    assert_eq!(done, BringUp::Done { link: Some(link) });
}

#[test]
fn bring_up_ends_if_the_phy_cannot_be_written() {
    let mmio = Mmio::new(Window::Core);
    let mdio = Mdio::new(&mmio, 5);
    let mut work = mdio.init_phy(1, 1000);
    assert_eq!(work.resume(None), BringUp::Done { link: None });
}

#[test]
fn best_common_mode() {
    assert_eq!(ADVERTISED, 0x0de0);
    assert_eq!(negotiated(LPA_1000FULL, 0x1e0, ADV_1000FULL), (1000, true));
    assert_eq!(negotiated(LPA_1000FULL, 0x1e0, 0), (100, true));
    assert_eq!(negotiated(0, 0x0e0, ADV_1000FULL), (100, false));
    assert_eq!(negotiated(0, 0x060, 0), (10, true));
    assert_eq!(negotiated(0, 0x020, 0), (10, false));
}

#[test]
fn addresses_come_from_the_node() {
    let local = node(&[("local-mac-address", vec![0, 1, 2, 3, 4, 5])]);
    assert_eq!(parse_mac(&local), Some([0, 1, 2, 3, 4, 5]));
    assert_eq!(parse_mac(&node(&[("local-mac-address", vec![0; 6])])), None);
    let short = node(&[
        ("local-mac-address", vec![1, 2, 3]),
        ("mac-address", vec![9, 8, 7, 6, 5, 4]),
    ]);
    assert_eq!(parse_mac(&short), Some([9, 8, 7, 6, 5, 4]));
    assert_eq!(generated_mac(0xcac8_1000), [0x02, 0x4b, 0x33, 0xc8, 0x10, 0x00]);
    let config = parse_config(&node(&[("max-speed", cells(&[2500]))]), 0xcac8_1000);
    assert_eq!(config.speed_mbps, 1000);
    assert_eq!(config.rx_fifo_depth, 4096);
    assert_eq!(config.mac, generated_mac(0xcac8_1000));
}

#[test]
fn glue_settings_are_read_and_applied() {
    let node = node(&[
        ("phy-mode", b"rgmii-id\0".to_vec()),
        ("spacemit,apmu", cells(&[7])),
        ("spacemit,ctrl-offset", cells(&[0x3e4])),
        ("spacemit,dline-offset", cells(&[0x3e8])),
        ("spacemit,clk-tuning-enable", vec![]),
        ("spacemit,clk-tuning-by-delayline", vec![]),
        ("spacemit,tx-phase", cells(&[90])),
        ("spacemit,rx-phase", cells(&[300])),
        ("snps,reset-gpios", cells(&[8, 1, 5, 1])),
    ]);
    let config = GlueConfig::parse(&node);
    assert_eq!(config.phy_mode, PhyMode::RgmiiId);
    assert_eq!(config.tuning, ClockTuning::ByDelayLine { tx_phase: 90, rx_phase: 255 });
    let plan = config.apply().unwrap();
    assert_eq!(plan.apmu, 7);
    let ctrl = reg(Window::Syscon, 0x3e4);
    assert_eq!(
        plan.syscon.ops,
        vec![
            Op::Update { reg: ctrl, clear: 0x19, set: 0x09 },
            Op::Delay { us: 100 },
            Op::Update { reg: ctrl, clear: 0x1002, set: 0x0002 },
            Op::Delay { us: 100 },
            Op::Read { reg: ctrl },
            Op::Update { reg: reg(Window::Syscon, 0x3e8), clear: 0xff01_ff01, set: 0x5a01_ff01 },
        ]
    );
    let (phandle, reset) = plan.reset.unwrap();
    assert_eq!(phandle, 8);
    assert_eq!(reset.ops[0], Op::Write { reg: reg(Window::Gpio, 0x5c), value: 0x20 });
    assert_eq!(reset.ops[1], Op::Write { reg: reg(Window::Gpio, 0x48), value: 0x20 });
    assert_eq!(reset.ops[2], Op::Delay { us: 2 });
    assert_eq!(reset.ops[3], Op::Write { reg: reg(Window::Gpio, 0x4c), value: 0x20 });
}

#[test]
fn glue_without_a_controller_does_nothing() {
    let config = GlueConfig::parse(&node(&[("spacemit,apmu", cells(&[7]))]));
    assert_eq!(config.phy_mode, PhyMode::Rgmii);
    assert_eq!(config.tuning, ClockTuning::Disabled);
    assert!(config.apply().is_none());
    assert!(GpioReset::parse(&node(&[("snps,reset-gpios", cells(&[8, 1]))])).is_none());
    assert_eq!(PhyMode::parse(Some("rmii")).syscon_value(), 0);
    assert_eq!(PhyMode::parse(Some("mii")).syscon_value(), 0x18);
    assert_eq!(PhyMode::parse(Some("sgmii")), PhyMode::Rgmii);
}

#[test]
fn reference_glue_settings() {
    let mut apmu = k3_mmio { regs: [0xffff_ffff; 2048] };
    let glue = k3_glue {
        phy_mode: K3_PHY_RGMII,
        tuning_way: K3_CLK_TUNING_BY_DLINE,
        clk_tuning_enable: 1,
        wol_irq_enable: 0,
        tx_clk_phase: 0x12,
        rx_clk_phase: 0x34,
        ctrl_off: 0x10,
        dline_off: 0x14,
    };
    k3_eqos_iface_config_ref(&mut apmu, &glue);
    assert_eq!(apmu.regs[4] & 0x18, 0x08);
    k3_eqos_wol_config_ref(&mut apmu, &glue);
    assert_eq!(apmu.regs[4] & 0x1000, 0);
    k3_delayline_init_ref(&mut apmu, &glue);
    assert_eq!(apmu.regs[5], 0x00ff_00ff);
    k3_fix_mac_speed_ref(&mut apmu, &glue);
    assert_eq!(apmu.regs[5], 0x12ff_34ff);
    let before = apmu.regs;
    k3_fix_mac_speed_ref(&mut apmu, &glue);
    assert_eq!(apmu.regs, before);
}

fn controller() -> Node {
    node(&[
        ("compatible", b"spacemit,k3-pinctrl\0".to_vec()),
        ("spacemit,apbc", cells(&[3, 0x50])),
    ])
}

fn entries() -> Vec<RegEntry> {
    vec![
        RegEntry { address: 0xd401_e000, size: Some(0x1000) },
        RegEntry { address: 0xd401_e800, size: None },
    ]
}

#[test]
fn pin_windows_are_found() {
    let gmac = node(&[("pinctrl-0", cells(&[42]))]);
    assert_eq!(state_phandle(&gmac), Some(42));
    let controller = controller();
    assert_eq!(apbc_reference(&controller), Some((3, 0x50)));
    let located = || Some(Located { node: &controller, regs: entries() });
    let apbc = || Some(vec![RegEntry { address: 0xd401_5000, size: Some(0x100) }]);
    let found = K3GmacPinctrl::parse(&gmac, K3_GMAC1_CTRL_OFFSET, true, located(), apbc());
    let pinctrl = found.unwrap().unwrap();
    assert_eq!((pinctrl.pins.address, pinctrl.pins.size), (0xd401_e000, 0x1000));
    assert_eq!(pinctrl.io_power.size, 0x34);
    assert_eq!(pinctrl.apbc.size, 0x1000);
    assert_eq!(pinctrl.apbc_unlock_offset, 0x50);
    assert_eq!(K3GmacPinctrl::parse(&gmac, 0, true, None, None), Ok(None));
    let ctrl = K3_GMAC1_CTRL_OFFSET;
    let parse = |state, controller, apbc| K3GmacPinctrl::parse(&gmac, ctrl, state, controller, apbc);
    assert_eq!(
        K3GmacPinctrl::parse(&node(&[]), ctrl, true, located(), apbc()),
        Err(PinctrlError::MissingState)
    );
    assert_eq!(parse(false, located(), apbc()), Err(PinctrlError::StateNotFound));
    assert_eq!(parse(true, None, apbc()), Err(PinctrlError::NoController));
    assert_eq!(parse(true, located(), None), Err(PinctrlError::ApbcNotFound));
    assert_eq!(parse(true, located(), Some(vec![])), Err(PinctrlError::MissingApbcRegs));
    assert_eq!(
        parse(true, Some(Located { node: &gmac, regs: entries() }), apbc()),
        Err(PinctrlError::WrongController)
    );
    assert_eq!(
        parse(true, Some(Located { node: &controller, regs: vec![] }), apbc()),
        Err(PinctrlError::MissingPinRegs)
    );
    assert_eq!(
        parse(true, Some(Located { node: &controller, regs: entries()[..1].to_vec() }), apbc()),
        Err(PinctrlError::MissingIoPowerRegs)
    );
    let bare = node(&[("compatible", b"spacemit,k3-pinctrl\0".to_vec())]);
    assert_eq!(
        parse(true, Some(Located { node: &bare, regs: entries() }), apbc()),
        Err(PinctrlError::MalformedApbc)
    );
}

#[test]
fn pins_are_set_up() {
    let gmac = node(&[("pinctrl-0", cells(&[42]))]);
    let controller = controller();
    let located = Located { node: &controller, regs: entries() };
    let apbc = vec![RegEntry { address: 0xd401_5000, size: None }];
    let pinctrl = K3GmacPinctrl::parse(&gmac, K3_GMAC1_CTRL_OFFSET, true, Some(located), Some(apbc))
        .unwrap()
        .unwrap();
    assert_eq!(gmac1_pins().iter().map(|group| group.pins.len()).sum::<usize>(), 16);
    assert_eq!(pin_reg_offset(21), 84);
    assert_eq!(pin_reg_offset(131), 532);
    assert_eq!(io_pd_offset(21), 0x0c);
    assert_eq!(bias_disable_config(), 0);
    assert_eq!(drive_strength_config_1v8(9), 4 << 9);
    assert_eq!(drive_strength_config_1v8(25), 10 << 9);
    assert!(pinctrl.enable_aib_clocks().ops.len() >= 1);
    assert_eq!(pinctrl.set_io_power_1v8(21).ops.len() >= 3, true);
    let one = pinctrl.apply_pin(K3PinMux::new(21, 1, "rx_ctl"), 9).ops;
    assert!(one.iter().any(|op| matches!(
        op,
        Op::Write { reg: Reg { window: Window::Pins, offset: 84 }, value: 0x801 }
            | Op::Update { reg: Reg { window: Window::Pins, offset: 84 }, .. }
    )));
    assert!(pinctrl.apply().ops.len() > 16);
}
