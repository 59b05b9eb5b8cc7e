use fdt_edit::{Node, Property};
use k3_drivers::script::{Op, Reg, Window};
use k3_drivers::usb::dwc3::{
    align_up_4k, clock_and_reset, combo_usb_bit, dwc3_core_host_setup, dwc3_phy_iface_setup,
    dwc3_power_off_roothub_ports, is_host, k3_usb2_phy_init, k3_usb3_phy_init,
    k3_usb3_phy_power_on, map_size, op_regs_base, parse_phys, port_count, prop_phandle, read_ports,
    read_status, rx_reg_a_value, rx_reg_b_value, usb2_phy_result, HostSetup, K3Dwc3Quirks,
    PhyError, PhyLookup, Usb3Step,
};
use k3_drivers::usb::ids::{
    cdc_acm_id, ch34x_id, cp210x_id, probe_cdc_acm, probe_ch34x, probe_cp210x, probe_uvcvideo,
    uvcvideo_ids, Endpoint, Interface, UsbError, UVCVIDEO_NAME,
};
use k3_drivers::usb::video::{probe, probe_first, Receive, StreamEvent, UvcVideoCapture};

#[test]
fn registers_wildcard_video_control_and_streaming_interfaces() {
    assert_eq!(UVCVIDEO_NAME, "uvcvideo");
    let (control, streaming) = uvcvideo_ids();
    let ids = [control, streaming];
    assert_eq!(ids.len(), 2);
    assert_eq!(ids[0].vid, None);
    assert_eq!(ids[0].pid, None);
    assert_eq!(ids[0].class, Some(0x0e));
    assert_eq!(ids[0].subclass, Some(0x01));
    assert_eq!(ids[1].vid, None);
    assert_eq!(ids[1].pid, None);
    assert_eq!(ids[1].class, Some(0x0e));
    assert_eq!(ids[1].subclass, Some(0x02));
}

fn interface(class: u8, subclass: u8, protocol: u8, endpoints: Vec<Endpoint>) -> Interface {
    Interface { class, subclass, protocol, alternate_setting: 0, endpoints }
}

#[test]
fn drivers_take_their_interfaces_only() {
    let camera = interface(0x0e, 1, 0, vec![]);
    let modem = interface(2, 2, 1, vec![Endpoint { interrupt: true, input: true }]);
    let silent = interface(2, 2, 1, vec![Endpoint { interrupt: false, input: true }]);
    let ch340 = interface(0xff, 1, 2, vec![]);
    let cp210x = interface(0xff, 0, 0, vec![]);
    assert_eq!(probe_uvcvideo(&camera), Ok(()));
    assert_eq!(probe_uvcvideo(&modem), Err(UsbError::NotSupported));
    assert_eq!(probe_cdc_acm(&modem), Ok(()));
    assert_eq!(probe_cdc_acm(&silent), Err(UsbError::NotSupported));
    assert_eq!(probe_ch34x(&ch340), Ok(()));
    assert_eq!(probe_ch34x(&cp210x), Err(UsbError::NotSupported));
    assert_eq!(probe_cp210x(&cp210x), Ok(()));
    assert_eq!(probe_cp210x(&ch340), Err(UsbError::NotSupported));
}

#[test]
fn adapters_are_known_by_their_numbers() {
    assert_eq!(cp210x_id().vid, Some(usb_serial::cp210x::VENDOR_ID));
    assert_eq!(cp210x_id().pid, Some(usb_serial::cp210x::PRODUCT_ID_EA60));
    assert_eq!(ch34x_id().vid, Some(0x1a86));
    assert_eq!(ch34x_id().pid, Some(0x7523));
    assert_eq!(cdc_acm_id().class, Some(2));
}

fn event(frame_number: u32) -> StreamEvent {
    StreamEvent {
        data: vec![frame_number as u8],
        pts_90khz: Some(90 * frame_number),
        frame_number,
        eof: true,
        has_error: false,
    }
}

#[test]
fn frames_come_in_order_and_in_the_accepted_format() {
    let mut capture: UvcVideoCapture<u8> = UvcVideoCapture::open();
    assert!(matches!(capture.recv_frame(), Receive::Refused(UsbError::InvalidParameter)));
    assert_eq!(capture.set_format(None), Err(UsbError::InvalidParameter));
    assert_eq!(capture.set_format(Some(3)), Ok(()));
    capture.start_streaming();
    assert_eq!(capture.may_set_format(), Err(UsbError::InvalidParameter));
    assert!(matches!(capture.recv_frame(), Receive::Wait));
    capture.accept(vec![event(1), event(2)]);
    for number in [1u32, 2] {
        match capture.recv_frame() {
            Receive::Frame(frame) => {
                assert_eq!(frame.frame_number, number);
                assert_eq!(frame.timestamp, 90 * number as u64);
                assert_eq!(frame.format, 3);
            }
            _ => panic!("no frame"),
        }
    }
    capture.accept(vec![event(3)]);
    capture.stop_streaming();
    assert!(matches!(capture.recv_frame(), Receive::Refused(_)));
    assert_eq!(capture.current_format(), Some(3));
    assert_eq!(UvcVideoCapture::<u8>::start_default_streaming(&vec![7, 8]), Ok(7));
    assert_eq!(
        UvcVideoCapture::<u8>::start_default_streaming(&vec![]),
        Err(UsbError::NotSupported)
    );
    assert_eq!(probe_first(&vec![false, true, true]), Some(1));
    assert_eq!(probe_first(&vec![false]), None);
    assert_eq!(probe(&vec![true, false, true]), vec![0, 2]);
    assert_eq!(probe(&vec![false]), vec![]);
}

fn strings(values: &[&str]) -> Vec<u8> {
    let mut data = Vec::new();
    for value in values {
        data.extend_from_slice(value.as_bytes());
        data.push(0);
    }
    data
}

fn cells(values: &[u32]) -> Vec<u8> {
    values.iter().flat_map(|value| value.to_be_bytes()).collect()
}

fn node(props: &[(&str, Vec<u8>)]) -> Node {
    let mut node = Node::new("usb3");
    for (name, data) in props {
        node.set_property(Property::new(name, data.clone()));
    }
    node
}

#[test]
fn phys_are_found_by_name() {
    let phys = ("phys", cells(&[11, 22]));
    assert_eq!(
        parse_phys(&node(&[phys.clone(), ("phy-names", strings(&["usb3-phy", "usb2-phy"]))])),
        Ok((22, 11))
    );
    assert_eq!(
        parse_phys(&node(&[phys.clone(), ("phy-names", strings(&["usb2-phy"]))])),
        Err(PhyLookup::NoUsb3)
    );
    assert_eq!(
        parse_phys(&node(&[phys.clone(), ("phy-names", strings(&["usb3-phy"]))])),
        Err(PhyLookup::NoUsb2)
    );
    assert_eq!(parse_phys(&node(&[phys])), Err(PhyLookup::NoNames));
    assert_eq!(parse_phys(&node(&[])), Err(PhyLookup::NoPhys));
}

#[test]
fn controller_node_is_read() {
    let host = node(&[
        ("dr_mode", strings(&["host"])),
        ("snps,dis_enblslpm_quirk", vec![]),
        ("spacemit,syscon-apmu", cells(&[5, 6])),
        ("combo-usb-bit", cells(&[1])),
    ]);
    assert!(is_host(&host));
    assert!(!is_host(&node(&[("dr_mode", strings(&["otg"]))])));
    assert!(!is_host(&node(&[])));
    let quirks = K3Dwc3Quirks::parse(&host);
    assert!(quirks.dis_enblslpm);
    assert!(!quirks.dis_tx_ipgap_linecheck);
    assert!(!quirks.parkmode_disable_ss);
    assert_eq!(prop_phandle(&host, "spacemit,syscon-apmu"), Some(5));
    assert_eq!(prop_phandle(&host, "spacemit,syscon-apb-spare"), None);
    assert_eq!(combo_usb_bit(&host), Some(1));
}

#[test]
fn windows_are_mapped_in_whole_pages() {
    assert_eq!(align_up_4k(0x1001), 0x2000);
    assert_eq!(map_size(Some(0x200), 0x1_0000), 0x1000);
    assert_eq!(map_size(None, 0x1_0000), 0x1_0000);
    assert_eq!(map_size(Some(0), 0x1_0000), 0x1000);
}

fn reg(window: Window, offset: usize) -> Reg {
    Reg { window, offset }
}

#[test]
fn controller_is_clocked_then_reset() {
    let ops = clock_and_reset().ops;
    let ctrl = reg(Window::Syscon, 0x5c);
    assert_eq!(ops[0], Op::Update { reg: ctrl, clear: 0, set: 0x100 });
    assert_eq!(ops[2], Op::Update { reg: ctrl, clear: 0xe00, set: 0 });
    assert_eq!(ops[3], Op::Delay { us: 2 });
    assert_eq!(ops[4], Op::Update { reg: ctrl, clear: 0, set: 0xe00 });
}

#[test]
fn ports_are_read_and_turned_off() {
    assert_eq!(op_regs_base(0x0100_0020), 0x20);
    assert_eq!(port_count(0x0200_0140), 2);
    assert_eq!(port_count(0x8000_0000), 0);
    assert_eq!(read_status(0x0100_0020), Op::Read { reg: reg(Window::Core, 0x24) });
    let reads = read_ports(0x20, 0x0200_0000).ops;
    assert_eq!(
        reads,
        vec![
            Op::Read { reg: reg(Window::Core, 0x420) },
            Op::Read { reg: reg(Window::Core, 0x430) },
            Op::Delay { us: 1_000_000 },
        ]
    );
    assert!(read_ports(0x20, 0).ops.is_empty());
    let off = dwc3_power_off_roothub_ports(0x20, 0x0100_0000).ops;
    assert_eq!(off, vec![Op::Update { reg: reg(Window::Core, 0x420), clear: 0x200, set: 0 }]);
}

const PLAIN: K3Dwc3Quirks = K3Dwc3Quirks {
    dis_enblslpm: false,
    dis_tx_ipgap_linecheck: false,
    parkmode_disable_ss: false,
};

#[test]
fn phy_interfaces_are_woken() {
    let quirky = K3Dwc3Quirks { dis_enblslpm: true, ..PLAIN };
    let sleepy = dwc3_phy_iface_setup(&PLAIN).ops;
    let awake = dwc3_phy_iface_setup(&quirky).ops;
    assert_eq!(sleepy[0], awake[0]);
    let cfg = reg(Window::Core, 0xc200);
    assert_eq!(sleepy[1], Op::Update { reg: cfg, clear: 0x3c4f, set: 0x2507 });
    assert_eq!(awake[1], Op::Update { reg: cfg, clear: 0x3d4f, set: 0x2407 });
}

#[test]
fn usb2_phy_waits_for_its_pll() {
    let ops = k3_usb2_phy_init().ops;
    assert_eq!(ops.len(), 10);
    assert_eq!(ops[1], Op::Write { reg: reg(Window::Usb2Phy, 0x98), value: 0xbec4 });
    assert!(matches!(ops[2], Op::Poll { mask: 1, value: 1, attempts: 101, patient: false, required: true, .. }));
    assert_eq!(usb2_phy_result(true), Ok(()));
    assert_eq!(usb2_phy_result(false), Err(PhyError::Usb2PllTimeout));
}

#[test]
fn usb3_phy_is_calibrated_and_configured() {
    let mut init = k3_usb3_phy_init(Some(1));
    assert_eq!(
        init.script().ops[0],
        Op::Update { reg: reg(Window::Syscon, 0x1d8), clear: 0, set: 0x12 }
    );
    init.resume(Some(0));
    assert_eq!(init.step, Usb3Step::Calibrate);
    init.resume(None);
    assert_eq!(init.step, Usb3Step::Trim);
    assert_eq!(init.script().ops.len(), 2);
    init.resume(Some(0));
    assert_eq!(init.step, Usb3Step::Configure);
    assert_eq!(init.script().ops.len(), 14);
    init.resume(Some(1));
    assert_eq!(init.step, Usb3Step::PowerOn);
    assert_eq!(init.script().ops, k3_usb3_phy_power_on().ops);
    init.resume(Some(0));
    assert_eq!(init.step, Usb3Step::Over { result: Ok(()) });
}

#[test]
fn usb3_phy_that_is_set_up_is_left_alone() {
    let mut init = k3_usb3_phy_init(None);
    assert_eq!(init.script().ops.len(), 2);
    init.resume(Some(1 << 11));
    assert_eq!(init.step, Usb3Step::PowerOn);
}

#[test]
fn usb3_phy_failures() {
    let refused = k3_usb3_phy_init(Some(3));
    assert_eq!(refused.step, Usb3Step::Over { result: Err(PhyError::InvalidComboBit(3)) });
    let mut init = k3_usb3_phy_init(None);
    init.resume(Some(0));
    init.resume(Some(0x100));
    init.resume(None);
    assert_eq!(init.step, Usb3Step::Over { result: Err(PhyError::Usb3PllTimeout) });
}

#[test]
fn receiver_settings() {
    assert_eq!(rx_reg_a_value(), 0xdf98_7810);
    assert_eq!(rx_reg_b_value(), 0x0028_88b4);
}

fn host_mode(gctl: u32, hwparams1: u32, revision: u32, quirks: &K3Dwc3Quirks) -> Vec<Op> {
    let mut setup = dwc3_core_host_setup();
    setup = setup.resume(gctl);
    setup = setup.resume(hwparams1);
    if let HostSetup::Revision { .. } = setup {
        setup = setup.resume(revision);
    }
    let ops = setup.script(quirks).ops;
    assert_eq!(setup.resume(0), HostSetup::Done);
    ops
}

#[test]
fn host_mode_goes_by_the_power_option() {
    let gctl = reg(Window::Core, 0xc110);
    let gated = host_mode(0x31, 1 << 24, 0x5533_280b, &PLAIN);
    assert_eq!(gated[0], Op::Write { reg: gctl, value: 0 });
    let ungated = host_mode(0x30, 1 << 24, 0x5533_230a, &PLAIN);
    assert_eq!(ungated[0], Op::Write { reg: gctl, value: 0x401 });
    let hibernating = host_mode(0x30, 2 << 24, 0, &PLAIN);
    assert_eq!(hibernating[0], Op::Write { reg: gctl, value: 2 });
    let plain = host_mode(0x30, 0, 0, &PLAIN);
    assert_eq!(plain[0], Op::Write { reg: gctl, value: 0 });
    assert_eq!(plain[2], Op::Update { reg: gctl, clear: 0x3000, set: 0x1000 });
    let quirks =
        K3Dwc3Quirks { dis_tx_ipgap_linecheck: true, parkmode_disable_ss: true, ..PLAIN };
    let quirky = host_mode(0, 0, 0, &quirks);
    assert_eq!(
        quirky[1],
        Op::Update { reg: reg(Window::Core, 0xc11c), clear: 0, set: 0x1002_0000 }
    );
}
