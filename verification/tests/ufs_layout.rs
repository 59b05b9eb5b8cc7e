use k3_drivers::ufs::desc::{
    build_nop_upiu, build_query_upiu, build_scsi_upiu, fill_prdt, utrd_ocs, DataDirection, Prdt,
    PRDT_MAX_BYTES, UPIU_CMD_FLAGS_NONE, UPIU_CMD_FLAGS_READ,
    UPIU_QUERY_FUNC_STANDARD_READ_REQUEST, UPIU_QUERY_OPCODE_READ_FLAG, UPIU_TRANSACTION_COMMAND,
    UPIU_TRANSACTION_NOP_OUT, UPIU_TRANSACTION_QUERY_REQ,
};
use k3_drivers::ufs::host::K3UfsHost;
use k3_drivers::ufs::regs::{rx_lane_sel, uic_arg_mib, uic_arg_mib_sel};

#[test]
fn data_direction_builds_expected_dw0() {
    assert_eq!(DataDirection::NoData.dw0(), 0x1100_0000);
    assert_eq!(DataDirection::ToDevice.dw0(), 0x1300_0000);
    assert_eq!(DataDirection::ToHost.dw0(), 0x1500_0000);
}

#[test]
fn fill_prdt_encodes_address_and_byte_count_minus_one() {
    let mut prdt = Prdt { dba: 0, dbau: 0, reserved: 0, dbc: 0 };
    fill_prdt(&mut prdt, 0x1_0000_2000, 4096);
    assert_eq!(prdt.dba, 0x0000_2000);
    assert_eq!(prdt.dbau, 1);
    assert_eq!(prdt.reserved, 0);
    assert_eq!(prdt.dbc, 4095);
}

#[test]
fn fill_prdt_accepts_maximum_single_entry_byte_count() {
    let mut prdt = Prdt { dba: 0, dbau: 0, reserved: 0, dbc: 0 };
    fill_prdt(&mut prdt, 0, PRDT_MAX_BYTES);
    assert_eq!(prdt.dbc, PRDT_MAX_BYTES - 1);
}

#[test]
fn scsi_upiu_places_header_lun_and_cdb() {
    let mut upiu = [0u8; 512];
    let cdb = [0x28, 0, 0, 0, 1, 0, 0, 0, 1, 0, 0, 0, 0, 0, 0, 0];
    build_scsi_upiu(&mut upiu, 3, 0x05, UPIU_CMD_FLAGS_READ, &cdb, 512);
    assert_eq!(upiu[0], UPIU_TRANSACTION_COMMAND);
    assert_eq!(upiu[1], UPIU_CMD_FLAGS_READ);
    assert_eq!(upiu[2], 0x05);
    assert_eq!(upiu[3], 3);
    assert_eq!(&upiu[12..16], &512u32.to_be_bytes());
    assert_eq!(&upiu[16..32], &cdb[..16]);
    assert_eq!(&upiu[32..], &[0u8; 480][..]);
}

#[test]
fn scsi_upiu_truncates_oversized_cdb_to_16_bytes() {
    let mut upiu = [0u8; 512];
    let cdb = [0xaa; 32];
    build_scsi_upiu(&mut upiu, 0, 0, UPIU_CMD_FLAGS_NONE, &cdb, 0);
    assert_eq!(&upiu[16..32], &cdb[..16]);
}

#[test]
fn query_upiu_fills_query_structure() {
    let mut upiu = [0u8; 512];
    build_query_upiu(
        &mut upiu,
        9,
        UPIU_QUERY_FUNC_STANDARD_READ_REQUEST,
        UPIU_QUERY_OPCODE_READ_FLAG,
        0x01,
    );
    assert_eq!(upiu[0], UPIU_TRANSACTION_QUERY_REQ);
    assert_eq!(upiu[3], 9);
    assert_eq!(upiu[5], UPIU_QUERY_FUNC_STANDARD_READ_REQUEST);
    assert_eq!(upiu[12], UPIU_QUERY_OPCODE_READ_FLAG);
    assert_eq!(upiu[13], 0x01);
}

#[test]
fn nop_upiu_sets_transaction_type_and_tag() {
    let mut upiu = [0u8; 512];
    build_nop_upiu(&mut upiu, 4);
    assert_eq!(upiu[0], UPIU_TRANSACTION_NOP_OUT);
    assert_eq!(upiu[3], 4);
}

#[test]
fn mib_selector_places_attribute_in_high_word() {
    assert_eq!(uic_arg_mib(0x1552), 0x1552_0000);
    assert_eq!(uic_arg_mib(0x2043), 0x2043_0000);
}

#[test]
fn mib_selector_combines_lane_selector_in_low_word() {
    assert_eq!(uic_arg_mib_sel(0x008D, 1), 0x008D_0001);
    assert_eq!(uic_arg_mib_sel(0x155B, 0), 0x155B_0000);
}

#[test]
fn rx_lane_selector_is_pa_maxdatalanes_plus_lane() {
    assert_eq!(rx_lane_sel(0), 4);
    assert_eq!(rx_lane_sel(1), 5);
    assert_eq!(uic_arg_mib_sel(0x008D, rx_lane_sel(1)), 0x008D_0005);
}

#[test]
fn status_field_of_a_finished_transfer() {
    assert_eq!(utrd_ocs(0xffff_fff0), 0);
    assert_eq!(utrd_ocs(0x0f), 0x0f);
}

#[test]
fn slot_image_points_at_response_and_regions() {
    let mut upiu = [0u8; 512];
    build_nop_upiu(&mut upiu, 0);
    let image =
        K3UfsHost::prepare_slot(&upiu, Some((0x2_0000_1000, 512)), DataDirection::ToHost, 5, 0x1000);
    assert_eq!(image.command[3], 5);
    assert_eq!(image.utrd.dw0, 0x1500_0000);
    assert_eq!(image.utrd.dw2, 0x0f);
    assert_eq!(image.utrd.ucdba, 0x1000 + 5 * 3072);
    assert_eq!(image.utrd.ucdbau, 0);
    assert_eq!(image.utrd.prdtl, 1);
    assert_eq!(image.prdt.dba, 0x1000);
    assert_eq!(image.prdt.dbau, 2);
    assert_eq!(image.prdt.dbc, 511);
}

#[test]
fn slot_image_without_data_has_no_region() {
    let upiu = [7u8; 512];
    let image = K3UfsHost::prepare_slot(&upiu, None, DataDirection::NoData, 0, 0x1_0000_0000);
    assert_eq!(image.utrd.prdtl, 0);
    assert_eq!(image.utrd.ucdbau, 1);
    assert_eq!(image.prdt.dbc, 0);
    assert_eq!(image.command[4], 7);
}
