use k3_drivers::block::BlkError;
use k3_drivers::ufs::error::{Failure, UfsError};
use k3_drivers::ufs::host::{decode_fdt_irq, BlockRequest, K3UfsHost};
use k3_drivers::ufs::scan::{LunInfo, ScanStep};
use k3_drivers::ufs::scsi::{
    build_read_capacity_cdb, classify_response, parse_capacity, CommandEnd, SAI_READ_CAPACITY_16,
    SCSI_READ_CAPACITY_10, SCSI_SENSE_ILLEGAL_REQUEST, SCSI_SENSE_NOT_READY,
    SCSI_SENSE_UNIT_ATTENTION, SCSI_SERVICE_ACTION_IN_16,
};

#[test]
fn scsi_to_upiu_lun_keeps_regular_lun_number() {
    assert_eq!(K3UfsHost::scsi_to_upiu_lun(0), 0);
    assert_eq!(K3UfsHost::scsi_to_upiu_lun(5), 5);
    assert_eq!(K3UfsHost::scsi_to_upiu_lun(0x20), 0x20);
}

#[test]
fn scsi_to_upiu_lun_sets_wlun_bit_for_well_known_luns() {
    assert_eq!(K3UfsHost::scsi_to_upiu_lun(0xC101), 0x81);
}

#[test]
fn scsilun_to_int_reverses_each_byte_pair() {
    let lun = [0x00, 0x12, 0x00, 0x34, 0x00, 0x00, 0x00, 0x00];
    assert_eq!(K3UfsHost::scsilun_to_int(&lun), 0x340012);
}

#[test]
fn decode_fixed_sense_parses_valid_fixed_sense() {
    let sense = [0x70, 0, 0x06, 0, 0, 0, 0, 0, 0, 0, 0, 0, 0x3f, 0x03];
    assert_eq!(K3UfsHost::decode_fixed_sense(&sense), Some((0x06, 0x3f, 0x03)));
}

#[test]
fn decode_fixed_sense_rejects_short_and_descriptor_sense() {
    assert_eq!(K3UfsHost::decode_fixed_sense(&[0x70; 13]), None);
    assert_eq!(K3UfsHost::decode_fixed_sense(&[0x72; 14]), None);
}

#[test]
fn sense_retry_policy_retries_transient_keys_only() {
    assert!(K3UfsHost::sense_is_retryable(Some((SCSI_SENSE_UNIT_ATTENTION, 0, 0))));
    assert!(K3UfsHost::sense_is_retryable(Some((SCSI_SENSE_NOT_READY, 0, 0))));
    assert!(!K3UfsHost::sense_is_retryable(Some((SCSI_SENSE_ILLEGAL_REQUEST, 0, 0))));
    assert!(!K3UfsHost::sense_is_retryable(None));
}

#[test]
fn parse_capacity_reads_read_capacity_10_layout() {
    let mut data = [0u8; 32];
    data[0..4].copy_from_slice(&0x0000_FFFFu32.to_be_bytes());
    data[4..8].copy_from_slice(&512u32.to_be_bytes());
    assert_eq!(parse_capacity(&data, 8), (0x1_0000, 512));
}

#[test]
fn parse_capacity_reads_read_capacity_16_layout() {
    let mut data = [0u8; 32];
    data[0..8].copy_from_slice(&0x0000_0001_0000_0000u64.to_be_bytes());
    data[8..12].copy_from_slice(&4096u32.to_be_bytes());
    assert_eq!(parse_capacity(&data, 32), (0x0000_0001_0000_0001, 4096));
}

#[test]
fn read_capacity_16_cdb_places_service_action_and_alloc_len() {
    let cdb = build_read_capacity_cdb(SCSI_SERVICE_ACTION_IN_16, SAI_READ_CAPACITY_16, 32);
    assert_eq!(cdb[0], 0x9E);
    assert_eq!(cdb[1], 0x10);
    assert_eq!(&cdb[10..14], &32u32.to_be_bytes());
}

#[test]
fn read_capacity_10_cdb_uses_plain_opcode() {
    let cdb = build_read_capacity_cdb(SCSI_READ_CAPACITY_10, 0, 8);
    assert_eq!(cdb[0], 0x25);
    assert_eq!(cdb[1], 0);
    assert_eq!(&cdb[10..14], &[0u8; 4]);
}

#[test]
fn next_io_slot_rotates_through_io_slots_only() {
    assert_eq!(K3UfsHost::next_io_slot(32, 0), (0, 1));
    assert_eq!(K3UfsHost::next_io_slot(32, 30), (30, 31));
    assert_eq!(K3UfsHost::next_io_slot(32, 31), (0, 32));
    assert_eq!(K3UfsHost::next_io_slot(32, 62), (31 % 31, 63));
}

#[test]
fn next_io_slot_handles_small_slot_counts() {
    assert_eq!(K3UfsHost::next_io_slot(2, 0), (0, 1));
    assert_eq!(K3UfsHost::next_io_slot(2, 5), (0, 6));
    assert_eq!(K3UfsHost::next_io_slot(1, 0), (0, 1));
}

#[test]
fn slots_come_from_the_capabilities_and_spare_the_last() {
    let mut host = K3UfsHost::new();
    host.setup_transfer_lists(0x0107_001f);
    assert_eq!(host.nutrs, 32);
    assert_eq!(host.reserved_slot(), 31);
    host.setup_transfer_lists(2);
    assert_eq!(host.nutrs, 3);
    let given = [host.alloc_io_slot(), host.alloc_io_slot(), host.alloc_io_slot()];
    assert_eq!(given, [0, 1, 0]);
}

#[test]
fn slot_count_starts_over_at_its_limit() {
    assert_eq!(K3UfsHost::next_io_slot(4, usize::MAX), (usize::MAX % 3, 0));
}

fn sized_host() -> K3UfsHost {
    let mut host = K3UfsHost::new();
    host.num_blocks = 100;
    host.block_size = 512;
    host
}

#[test]
fn requests_within_the_device_are_accepted() {
    let host = sized_host();
    assert_eq!(host.check_request(98, 1024), Ok(BlockRequest { lba: 98, num_blocks: 2 }));
}

#[test]
fn requests_beyond_the_device_or_uneven_are_refused() {
    let host = sized_host();
    assert_eq!(host.check_request(99, 1024), Err(BlkError::InvalidRequest));
    assert_eq!(host.check_request(0, 0), Err(BlkError::InvalidRequest));
    assert_eq!(host.check_request(0, 513), Err(BlkError::InvalidRequest));
    assert_eq!(host.check_request(0x1_0000_0000, 512), Err(BlkError::InvalidRequest));
    let mut large = host;
    large.num_blocks = 0x10_0000;
    assert_eq!(large.check_request(0, 512 * 0x1_0000), Err(BlkError::InvalidRequest));
}

#[test]
fn interrupt_specifiers() {
    assert_eq!(decode_fdt_irq(&vec![vec![135]]), Some(135));
    assert_eq!(decode_fdt_irq(&vec![vec![135, 4]]), Some(135));
    assert_eq!(decode_fdt_irq(&vec![vec![0, 135, 4]]), Some(167));
    assert_eq!(decode_fdt_irq(&vec![vec![1, 135, 4]]), Some(151));
    assert_eq!(decode_fdt_irq(&vec![vec![2, 135, 4]]), Some(135));
    assert_eq!(decode_fdt_irq(&vec![vec![0, 1, 2, 3]]), None);
    assert_eq!(decode_fdt_irq(&vec![]), None);
}

#[test]
fn read_and_write_commands() {
    let host = sized_host();
    let read = host.scsi_read_10(0x0102_0304, 0x0506, 512 * 0x0506).unwrap();
    assert_eq!(&read.cdb[..10], &[0x28, 0, 1, 2, 3, 4, 0, 5, 6, 0]);
    assert_eq!(read.data_len, 512 * 0x0506);
    let write = host.scsi_write_10(1, 1, 512).unwrap();
    assert_eq!(write.cdb[0], 0x2a);
    let message = write.message(3);
    assert_eq!(message[0], 0x01);
    assert_eq!(message[1], 0x20);
    assert_eq!(message[2], 3);
    assert_eq!(&message[12..16], &512u32.to_be_bytes());
    assert!(matches!(
        host.scsi_read_10(0, 2, 1023),
        Err(UfsError::Other(Failure::BufferTooSmall))
    ));
    assert!(matches!(
        host.scsi_write_10(0, 2, 1023),
        Err(UfsError::Other(Failure::BufferTooSmall))
    ));
}

#[test]
fn responses_are_classified() {
    let mut response = [0u8; 512];
    response[0] = 0x21;
    assert!(matches!(classify_response(Ok(&response)), CommandEnd::Good));
    response[7] = 0x02;
    response[33] = 18;
    response[34] = 0x70;
    response[36] = 0x06;
    response[46] = 0x29;
    let end = classify_response(Ok(&response));
    assert!(matches!(end, CommandEnd::Check(Some((0x06, 0x29, 0)))));
    response[7] = 0x08;
    assert!(matches!(classify_response(Ok(&response)), CommandEnd::Bad));
    response[0] = 0x20;
    assert!(matches!(
        classify_response(Ok(&response)),
        CommandEnd::Failed(UfsError::Other(Failure::ScsiInvalid))
    ));
    assert!(matches!(
        classify_response(Err(UfsError::Timeout)),
        CommandEnd::Failed(UfsError::Timeout)
    ));
}

#[test]
fn unit_list_is_read() {
    let mut data = vec![0u8; 24];
    data[3] = 16;
    data[9] = 1;
    data[16] = 0xc1;
    data[17] = 0x50;
    let luns = K3UfsHost::parse_luns(&data).unwrap();
    assert_eq!(luns, vec![1, 0xc150]);
    assert!(K3UfsHost::is_wlun(0xc150));
    assert!(!K3UfsHost::is_wlun(1));
}

#[test]
fn partition_signatures() {
    let mut block0 = vec![0u8; 512];
    assert!(!K3UfsHost::has_partition_signature(&block0));
    block0[510] = 0x55;
    block0[511] = 0xaa;
    assert!(K3UfsHost::has_partition_signature(&block0));
    let mut block1 = vec![0u8; 512];
    assert!(!K3UfsHost::has_gpt_signature(&block1));
    block1[..8].copy_from_slice(b"EFI PART");
    assert!(K3UfsHost::has_gpt_signature(&block1));
}

fn capacity(last: u32, size: u32) -> Vec<u8> {
    let mut data = vec![0u8; 8];
    data[0..4].copy_from_slice(&last.to_be_bytes());
    data[4..8].copy_from_slice(&size.to_be_bytes());
    data
}

#[test]
fn scan_takes_the_unit_with_a_partition_table() {
    let mut list = vec![0u8; 4096];
    list[3] = 24;
    list[9] = 1;
    list[16] = 0xc1;
    list[17] = 0x01;
    let mut host = K3UfsHost::new();
    let mut scan = host.select_data_lun(CommandEnd::Good, &list);
    assert_eq!(scan.luns, vec![1, 0xc101, 0]);
    assert_eq!(host.active_lun, 1);
    for lun in [1u64, 0] {
        assert!(matches!(scan.state.step, ScanStep::Inquiry));
        scan.resume(&mut host, CommandEnd::Good, &[0; 36]);
        scan.resume(&mut host, CommandEnd::Good, &[]);
        assert!(matches!(scan.state.step, ScanStep::Capacity { long: false, tries: 0 }));
        scan.resume(&mut host, CommandEnd::Good, &capacity(lun as u32 + 9, 512));
        let mut block = vec![0u8; 512];
        if lun == 0 {
            block[510] = 0x55;
            block[511] = 0xaa;
        }
        scan.resume(&mut host, CommandEnd::Good, &block);
    }
    let found = LunInfo { scsi_lun: 0, num_blocks: 10, block_size: 512 };
    assert_eq!(scan.state.step, ScanStep::Over { result: Ok(found) });
    assert_eq!((host.active_lun, host.num_blocks, host.block_size), (0, 10, 512));
    assert_eq!(
        scan.state.first_usable,
        Some(LunInfo { scsi_lun: 1, num_blocks: 11, block_size: 512 })
    );
}

#[test]
fn scan_falls_back_to_the_first_usable_unit() {
    let mut host = K3UfsHost::new();
    let mut scan = host.select_data_lun(CommandEnd::Bad, &[]);
    assert_eq!(scan.luns, vec![0]);
    scan.resume(&mut host, CommandEnd::Good, &[0; 36]);
    scan.resume(&mut host, CommandEnd::Good, &[]);
    scan.resume(&mut host, CommandEnd::Good, &capacity(7, 0));
    scan.resume(&mut host, CommandEnd::Good, &[0; 512]);
    assert!(matches!(scan.state.step, ScanStep::Over { result: Ok(_) }));
    assert_eq!(host.num_blocks, 8);
    assert_eq!(host.block_size, 512);
}

#[test]
fn scan_asks_for_the_long_form_of_large_capacities() {
    let mut host = K3UfsHost::new();
    let mut scan = host.select_data_lun(CommandEnd::Bad, &[]);
    scan.resume(&mut host, CommandEnd::Good, &[0; 36]);
    scan.resume(&mut host, CommandEnd::Good, &[]);
    scan.resume(&mut host, CommandEnd::Good, &capacity(u32::MAX, 512));
    assert!(matches!(scan.state.step, ScanStep::Capacity { long: true, tries: 0 }));
    let request = scan.request(&host).unwrap();
    assert_eq!(request.cdb[0], 0x9e);
    assert_eq!(request.data_len, 32);
}

#[test]
fn scan_retries_a_unit_that_is_not_ready_and_gives_up() {
    let mut host = K3UfsHost::new();
    let mut scan = host.select_data_lun(CommandEnd::Bad, &[]);
    scan.resume(&mut host, CommandEnd::Good, &[0; 36]);
    let busy = CommandEnd::Check(Some((SCSI_SENSE_NOT_READY, 4, 1)));
    for _ in 0..10 {
        assert!(matches!(scan.state.step, ScanStep::Ready { .. }));
        scan.resume(&mut host, busy, &[]);
        assert!(matches!(scan.state.step, ScanStep::ReadyPause { .. }));
        assert!(scan.request(&host).is_none());
        scan.resume(&mut host, CommandEnd::Good, &[]);
    }
    assert_eq!(
        scan.state.step,
        ScanStep::Over { result: Err(UfsError::Other(Failure::NoLun)) }
    );
}

#[test]
fn failures_are_described() {
    assert_eq!(Failure::NoLun.describe().is_empty(), false);
    assert_eq!(Failure::NoLun.describe(), "No usable LUN found");
    assert!(UfsError::Timeout.needs_recovery());
    assert!(!UfsError::Other(Failure::NoLun).needs_recovery());
}
