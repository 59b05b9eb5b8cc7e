use k3_drivers::aplic::{
    pack_smsicfg_addrh, Aplic, MsiConfig, MsiTarget, SourceTrigger, CFGADDRH_BAPPN_MASK,
    CFGADDRH_HHXS_MASK, CFGADDRH_HHXS_SHIFT, CFGADDRH_HHXW_MASK, CFGADDRH_HHXW_SHIFT, CFGADDRH_L,
    CFGADDRH_LHXS_MASK, CFGADDRH_LHXS_SHIFT, CFGADDRH_LHXW_MASK, CFGADDRH_LHXW_SHIFT,
    SOURCECFG_BASE, TARGET_BASE, TARGET_EIID_MASK, TARGET_GUEST_IDX_MASK, TARGET_GUEST_IDX_SHIFT,
    TARGET_HART_IDX_MASK, TARGET_HART_IDX_SHIFT,
};
use k3_drivers::imsic::{
    claim, complete_stopei, compose_msi_message, disable_eid, enable_eid, group_base_ppn,
    init_local_file, interrupt_file_addr, parse_stopei, send_ipi, CsrOp, ImsicGeometry, IPI_EIID,
};
use k3_drivers::script::{Op, Reg, Script, Window};

#[test]
fn msi_target_packs_fields() {
    let t = MsiTarget { hart_index: 3, guest_index: 0, eiid: 42 };
    let packed = t.pack();
    assert_eq!(packed >> TARGET_HART_IDX_SHIFT & TARGET_HART_IDX_MASK, 3);
    assert_eq!(packed >> TARGET_GUEST_IDX_SHIFT & TARGET_GUEST_IDX_MASK, 0);
    assert_eq!(packed & TARGET_EIID_MASK, 42);
}

#[test]
fn source_trigger_encoding_matches_linux() {
    assert_eq!(SourceTrigger::Inactive.to_sm(), 0x0);
    assert_eq!(SourceTrigger::EdgeRise.to_sm(), 0x4);
    assert_eq!(SourceTrigger::LevelHigh.to_sm(), 0x6);
}

#[test]
fn source_offset_is_one_indexed() {
    assert_eq!(Aplic::source_offset(1, SOURCECFG_BASE), 0x0004);
    assert_eq!(Aplic::source_offset(2, SOURCECFG_BASE), 0x0008);
    assert_eq!(Aplic::source_offset(1, TARGET_BASE), 0x3004);
}

#[test]
fn pack_smsicfg_addrh_encodes_geometry_and_base_ppn() {
    let cfg = MsiConfig { base_ppn: 0x0000_0001_2345_6789, lhxw: 2, lhxs: 3, hhxw: 4, hhxs: 5 };
    let v = pack_smsicfg_addrh(&cfg);
    assert_eq!(v & CFGADDRH_L, CFGADDRH_L);
    assert_eq!((v >> CFGADDRH_HHXS_SHIFT) & CFGADDRH_HHXS_MASK, 5);
    assert_eq!((v >> CFGADDRH_LHXS_SHIFT) & CFGADDRH_LHXS_MASK, 3);
    assert_eq!((v >> CFGADDRH_HHXW_SHIFT) & CFGADDRH_HHXW_MASK, 4);
    assert_eq!((v >> CFGADDRH_LHXW_SHIFT) & CFGADDRH_LHXW_MASK, 2);
    assert_eq!(v & CFGADDRH_BAPPN_MASK, 1);
}

#[test]
fn pack_smsicfg_addrh_masks_overflowing_fields() {
    let cfg = MsiConfig {
        base_ppn: 0xffff_ffff_ffff_ffff,
        lhxw: 0xff,
        lhxs: 0xff,
        hhxw: 0xff,
        hhxs: 0xff,
    };
    let v = pack_smsicfg_addrh(&cfg);
    assert_eq!((v >> CFGADDRH_HHXS_SHIFT) & CFGADDRH_HHXS_MASK, CFGADDRH_HHXS_MASK);
    assert_eq!((v >> CFGADDRH_LHXS_SHIFT) & CFGADDRH_LHXS_MASK, CFGADDRH_LHXS_MASK);
    assert_eq!((v >> CFGADDRH_HHXW_SHIFT) & CFGADDRH_HHXW_MASK, CFGADDRH_HHXW_MASK);
    assert_eq!((v >> CFGADDRH_LHXW_SHIFT) & CFGADDRH_LHXW_MASK, CFGADDRH_LHXW_MASK);
    assert_eq!(v & CFGADDRH_BAPPN_MASK, CFGADDRH_BAPPN_MASK);
}

#[test]
fn from_fdt_interrupt_spec_maps_posix_flags() {
    assert_eq!(SourceTrigger::from_fdt_interrupt_spec(0x01), Some(SourceTrigger::EdgeRise));
    assert_eq!(SourceTrigger::from_fdt_interrupt_spec(0x02), Some(SourceTrigger::EdgeFall));
    assert_eq!(SourceTrigger::from_fdt_interrupt_spec(0x04), Some(SourceTrigger::LevelHigh));
    assert_eq!(SourceTrigger::from_fdt_interrupt_spec(0x08), Some(SourceTrigger::LevelLow));
}

#[test]
fn from_fdt_interrupt_spec_rejects_unknown_and_zero() {
    assert_eq!(SourceTrigger::from_fdt_interrupt_spec(0), None);
    assert_eq!(SourceTrigger::from_fdt_interrupt_spec(0x10), None);
    assert_eq!(SourceTrigger::from_fdt_interrupt_spec(u32::MAX), None);
}

fn write(offset: usize, value: u32) -> Op {
    Op::Write { reg: Reg { window: Window::Core, offset }, value }
}

fn last_write(script: &Script) -> Op {
    script.ops[script.ops.len() - 1]
}

#[test]
fn sources_are_configured_enabled_and_triggered() {
    let mut aplic = Aplic::new(512);
    assert_eq!(aplic.num_sources(), 512);
    let target = MsiTarget { hart_index: 1, guest_index: 0, eiid: 7 };
    let script = aplic.configure_source(3, SourceTrigger::LevelHigh, target);
    assert_eq!(script.ops, vec![write(0x000c, 6), write(0x300c, target.pack())]);
    assert_eq!(last_write(&aplic.enable_source(3)), write(0x1edc, 3));
    assert_eq!(last_write(&aplic.disable_source(3)), write(0x1fdc, 3));
    assert_eq!(last_write(&aplic.generate_msi(target)), write(0x3000, target.pack()));
    assert_eq!(Aplic::bitmap_word(35), 1);
    assert!(aplic.is_pending(35, 0b1000));
    assert!(!aplic.is_pending(35, 0b0100));
}

#[test]
fn all_sources_are_disabled_word_by_word() {
    let mut aplic = Aplic::new(40);
    let script = aplic.disable_all_sources();
    let words = script
        .ops
        .iter()
        .filter(|op| matches!(op, Op::Write { value: 0xffff_ffff, .. }))
        .count();
    assert_eq!(words, 2);
}

fn k3() -> ImsicGeometry {
    ImsicGeometry {
        base_addr: 0xe040_0000,
        hart_index_bits: 4,
        guest_index_bits: 6,
        group_index_bits: 0,
        group_index_shift: 24,
        num_ids: 511,
    }
}

#[test]
fn k3_hart_stride_is_0x40000() {
    assert_eq!(k3().hart_stride(), 0x40000);
}

#[test]
fn k3_max_harts_is_16() {
    assert_eq!(k3().max_harts(), 16);
}

#[test]
fn k3_interrupt_file_addr_matches_dtb_layout() {
    let geo = k3();
    assert_eq!(interrupt_file_addr(&geo, 0, 0), 0xe040_0000);
    assert_eq!(interrupt_file_addr(&geo, 1, 0), 0xe044_0000);
    assert_eq!(interrupt_file_addr(&geo, 7, 0), 0xe05c_0000);
    assert_eq!(interrupt_file_addr(&geo, 15, 0), 0xe07c_0000);
    assert_eq!(interrupt_file_addr(&geo, 0, 1), 0xe040_1000);
}

#[test]
fn k3_total_imsic_span_matches_reg_size() {
    let geo = k3();
    assert_eq!(geo.max_harts() as usize * geo.hart_stride(), 0x400000);
}

#[test]
fn compose_msi_message_carries_eiid_as_data() {
    let geo = k3();
    let msg = compose_msi_message(&geo, 0, 0, 42);
    assert_eq!(msg.address, 0xe040_0000);
    assert_eq!(msg.data, 42);
}

#[test]
fn group_base_ppn_clears_index_bits() {
    let geo = k3();
    let bppn = group_base_ppn(&geo);
    assert_eq!(bppn, 0xE0400);
    let hart1 = ((bppn | (1u64 << geo.guest_index_bits)) << 12) as usize;
    assert_eq!(hart1, 0xe044_0000);
    let hart15 = ((bppn | (15u64 << geo.guest_index_bits)) << 12) as usize;
    assert_eq!(hart15, 0xe07c_0000);
}

#[test]
fn parse_stopei_decodes_priority_and_eiid() {
    assert_eq!(parse_stopei(0), None);
    assert_eq!(parse_stopei(0x5_002a), Some((42, 5)));
    assert_eq!(parse_stopei(0x1_0001), Some((1, 1)));
}

#[test]
fn ipi_uses_eid_zero() {
    assert_eq!(IPI_EIID, 0);
}

#[test]
fn interrupt_file_addr_guest_pages_within_hart_stride() {
    let geo = k3();
    let base = geo.base_addr;
    assert_eq!(interrupt_file_addr(&geo, 0, 0), base);
    assert_eq!(interrupt_file_addr(&geo, 0, 1), base + 0x1000);
    assert_eq!(interrupt_file_addr(&geo, 0, 2), base + 0x2000);
    assert_eq!(interrupt_file_addr(&geo, 0, 63), base + 63 * 0x1000);
    assert_eq!(interrupt_file_addr(&geo, 1, 0), base + 0x40000);
}

#[test]
fn interrupt_file_addr_zero_geometry_is_single_page_layout() {
    let geo = ImsicGeometry {
        base_addr: 0x2800_0000,
        hart_index_bits: 0,
        guest_index_bits: 0,
        group_index_bits: 0,
        group_index_shift: 24,
        num_ids: 255,
    };
    assert_eq!(geo.hart_stride(), 0x1000);
    assert_eq!(geo.max_harts(), 1);
    assert_eq!(interrupt_file_addr(&geo, 0, 0), 0x2800_0000);
}

#[test]
fn group_base_ppn_clears_group_index_bits() {
    let geo = ImsicGeometry {
        base_addr: 0xe040_0000 | (0b1010 << 28),
        hart_index_bits: 4,
        guest_index_bits: 6,
        group_index_bits: 4,
        group_index_shift: 24,
        num_ids: 511,
    };
    let bppn = group_base_ppn(&geo);
    assert_eq!(bppn, 0xe040_0000 >> 12);
}

#[test]
fn local_file_starts_with_everything_disabled() {
    let ops = init_local_file(511);
    assert_eq!(ops.len(), 4 + 2 * 8);
    assert_eq!(ops[0], CsrOp::Select { register: 0x70 });
    assert_eq!(ops[1], CsrOp::Write { value: 1 });
    assert_eq!(ops[18], CsrOp::Select { register: 0xc0 + 14 });
    assert_eq!(ops[19], CsrOp::Write { value: 0 });
}

#[test]
fn identities_are_enabled_one_by_one() {
    assert_eq!(
        enable_eid(65),
        vec![CsrOp::Select { register: 0xc2 }, CsrOp::SetBits { bits: 2 }]
    );
    assert_eq!(
        disable_eid(63),
        vec![CsrOp::Select { register: 0xc0 }, CsrOp::ClearBits { bits: 1 << 63 }]
    );
    assert_eq!(claim(0x5_002a), Some((42, 5)));
    assert_eq!(complete_stopei(9), CsrOp::Complete { claimed: 9 });
    let message = send_ipi(0xe044_0000);
    assert_eq!((message.address, message.data), (0xe044_0000, 0));
}
