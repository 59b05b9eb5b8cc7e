use fdt_edit::{Node, Property};
use k3_drivers::script::{Op, Script};
use k3_drivers::uart::irq::{iir_to_event, IrqStep, PxaUartIrq};
use k3_drivers::uart::port::{
    ier_for_events, probe_current_baud, DivisorProbe, PxaUart, Received,
};
use k3_drivers::uart::probe::{clock_frequency, PXA_DEFAULT_CLOCK};
use k3_drivers::uart::regs::{
    self, read, FCR_ENABLE_FIFO, FCR_PXAR8, IER_RDI, IER_RLSI, IER_RTOIE, IER_THRI, IER_UUE,
    IIR_CTI, IIR_MSI, IIR_NO_INT, IIR_RDI, IIR_RLSI, IIR_THRI, LSR_BI, LSR_DR, LSR_FE, LSR_OE,
    LSR_PE, LSR_TEMT, LSR_THRE, UART_DLH, UART_DLL, UART_FCR, UART_IER, UART_LCR, UART_THR,
};
use k3_drivers::uart::rx::{classify_rx, rx_errors_from_sample};
use k3_drivers::uart::types::{
    Config, ConfigError, DataBits, Parity, RxErrorFlags, RxFlag, RxSample, SerialEventSet, Source,
    StopBits, TransferError,
};

#[test]
fn reports_none_when_shared_irq_is_not_pending() {
    assert_eq!(iir_to_event(IIR_NO_INT), None);
}

#[test]
fn maps_each_pending_interrupt_id_to_its_event_class() {
    assert_eq!(iir_to_event(IIR_RLSI), Some(Source::RxStatus));
    assert_eq!(iir_to_event(IIR_RDI), Some(Source::RxData));
    assert_eq!(iir_to_event(IIR_CTI), Some(Source::RxTimeout));
    assert_eq!(iir_to_event(IIR_THRI), Some(Source::TxSpace));
}

#[test]
fn maps_msi_zero_id_to_modem_status_when_no_int_is_clear() {
    assert_eq!(iir_to_event(IIR_MSI), Some(Source::ModemStatus));
}

#[test]
fn maps_unknown_interrupt_id_to_fault() {
    assert_eq!(iir_to_event(0x08), Some(Source::Fault));
}

#[test]
fn divisor_rounds_to_nearest_value() {
    let uart = PxaUart::new(14_700_000, 0, 0);

    assert_eq!(uart.divisor(115_200), Some(8));
}

#[test]
fn classifies_normal_data_sample_with_byte_read() {
    let mut saved = 0;
    assert_eq!(classify_rx(LSR_DR, &mut saved), Some((RxFlag::Normal, false, true)));
    assert_eq!(saved, 0);
}

#[test]
fn classifies_parity_error_sample_without_data() {
    let mut saved = 0;
    assert_eq!(classify_rx(LSR_PE, &mut saved), Some((RxFlag::Parity, false, false)));
    assert_eq!(saved, 0);
}

#[test]
fn error_priority_is_break_over_parity_over_framing() {
    let mut saved = 0;
    assert_eq!(classify_rx(LSR_FE | LSR_PE, &mut saved), Some((RxFlag::Parity, false, false)));

    let mut saved = 0;
    assert_eq!(classify_rx(LSR_BI | LSR_PE, &mut saved), Some((RxFlag::Break, false, false)));
}

#[test]
fn folds_sticky_overrun_into_following_sample_then_clears_latch() {
    let mut saved = LSR_OE;
    assert_eq!(classify_rx(LSR_DR, &mut saved), Some((RxFlag::Normal, true, true)));
    assert_eq!(saved, 0);
}

#[test]
fn returns_none_when_receiver_is_idle() {
    let mut saved = 0;
    assert_eq!(classify_rx(LSR_THRE, &mut saved), None);
    assert_eq!(saved, 0);
}

#[test]
fn maps_sample_to_irq_error_summary() {
    let sample = RxSample { byte: None, flag: RxFlag::Break, overrun: true };
    assert_eq!(
        rx_errors_from_sample(sample),
        RxErrorFlags { break_condition: true, overrun: true, ..RxErrorFlags::empty() }
    );
}

#[test]
fn divisors_that_do_not_exist() {
    let uart = PxaUart::new(14_700_000, 8, 0);
    assert_eq!(uart.baudrate(), 114_843);
    assert_eq!(uart.divisor(0), None);
    assert_eq!(uart.divisor(1), None);
    assert_eq!(uart.divisor(4_000_000), None);
    assert_eq!(probe_current_baud(14_700_000, 0, 0), 0);
}

#[test]
fn divisor_latch_is_read_and_left_as_it_was() {
    let mut probe = DivisorProbe::Line;
    let mut written = Vec::new();
    for value in [0x13u8, 8, 1, 0, 0] {
        if let DivisorProbe::Done { .. } = probe {
            break;
        }
        written.extend(probe.script().ops.into_iter().filter(|op| matches!(op, Op::Write { .. })));
        probe = probe.resume(value);
    }
    assert_eq!(probe, DivisorProbe::Done { dll: 8, dlh: 1 });
    assert_eq!(written.last(), Some(&regs::write(UART_LCR, 0x13)));
}

fn config(baudrate: u32) -> Config {
    Config {
        baudrate: Some(baudrate),
        data_bits: Some(DataBits::Seven),
        stop_bits: Some(StopBits::Two),
        parity: Some(Parity::Even),
    }
}

#[test]
fn settings_are_applied_and_read_back() {
    let mut uart = PxaUart::new(14_700_000, 1, 0);
    let script: Script = uart.set_config(&config(115_200), 0x03).unwrap();
    assert_eq!(
        &script.ops[script.ops.len() - 3..],
        &[
            regs::write(UART_LCR, 0x1e),
            regs::write(UART_FCR, FCR_ENABLE_FIFO | FCR_PXAR8),
            regs::write(UART_IER, IER_UUE),
        ]
    );
    assert!(script.ops.contains(&regs::write(UART_DLL, 8)));
    assert!(script.ops.contains(&regs::write(UART_DLH, 0)));
    assert_eq!(uart.baudrate(), 115_200);
    assert_eq!(uart.data_bits(), DataBits::Seven);
    assert_eq!(uart.stop_bits(), StopBits::Two);
    assert_eq!(uart.parity(), Parity::Even);
}

#[test]
fn refused_settings_change_nothing() {
    let mut uart = PxaUart::new(14_700_000, 1, 0);
    let before = uart;
    assert_eq!(uart.set_config(&config(0), 3).err(), Some(ConfigError::InvalidBaudrate));
    assert_eq!(uart, before);
}

#[test]
fn loopback_is_switched() {
    let mut uart = PxaUart::new(14_700_000, 1, 0);
    assert!(!uart.is_loopback_enabled());
    uart.enable_loopback();
    assert!(uart.is_loopback_enabled());
    uart.disable_loopback();
    assert!(!uart.is_loopback_enabled());
}

#[test]
fn bytes_are_written_when_there_is_room() {
    let uart = PxaUart::new(14_700_000, 1, 0);
    assert_eq!(uart.write_byte(0x41, 0), None);
    assert_eq!(uart.write_byte(0x41, LSR_THRE), Some(regs::write(UART_THR, 0x41)));
    assert_eq!(uart.write_tx(&vec![1, 2], 1, LSR_THRE), Some(regs::write(UART_THR, 2)));
    assert_eq!(uart.write_tx(&vec![1, 2], 2, LSR_THRE), None);
    assert!(uart.tx_idle(LSR_TEMT | LSR_THRE));
}

#[test]
fn received_bytes_and_errors() {
    let mut uart = PxaUart::new(14_700_000, 1, 0);
    let status = uart.poll_status(LSR_DR);
    assert!(status.rx_ready && !status.rx_error && !status.overrun);
    let found = uart.read_byte(status).unwrap();
    assert_eq!(found, Received::Data);
    assert_eq!(found.complete(0x41), Ok(0x41));
    assert_eq!(Received::Overrun.complete(7), Err(TransferError::Overrun(7)));
    assert_eq!(Received::Break.complete(7), Err(TransferError::Break));
    let status = uart.poll_status(LSR_DR | LSR_FE);
    assert_eq!(uart.read_byte(status), Some(Received::Framing));
    let idle = uart.poll_status(0);
    assert_eq!(uart.read_byte(idle), None);
}

#[test]
fn interrupt_enables_follow_the_events() {
    let none = SerialEventSet::empty();
    assert_eq!(ier_for_events(none), 0);
    assert_eq!(ier_for_events(none.with(Source::TxSpace)), IER_THRI);
    let rx = ier_for_events(none.with(Source::RxData).with(Source::RxStatus).with(Source::RxTimeout));
    assert_eq!(rx, IER_RDI | IER_RLSI | IER_RTOIE);
}

#[test]
fn interrupt_of_another_device_is_left_alone() {
    let mut irq = PxaUart::new(14_700_000, 1, 0).split().1;
    let mut work = irq.handle();
    assert_eq!(work.script().ops, vec![read(2)]);
    assert_eq!(work.resume(&mut irq, IIR_NO_INT), None);
    assert!(matches!(work.step, IrqStep::Done));
    assert_eq!(work.result(), None);
}

#[test]
fn interrupt_reads_the_receiver_out() {
    let mut irq = PxaUart::new(14_700_000, 1, 0).split().1;
    let mut work = irq.handle();
    work.resume(&mut irq, IIR_RDI);
    assert!(matches!(work.step, IrqStep::Status));
    assert_eq!(work.resume(&mut irq, LSR_DR | LSR_PE), None);
    let sample = work.resume(&mut irq, 0x5a).unwrap();
    assert_eq!(sample, RxSample { byte: Some(0x5a), flag: RxFlag::Parity, overrun: false });
    work.resume(&mut irq, 0);
    work.resume(&mut irq, IIR_NO_INT);
    let event = work.result().unwrap();
    assert!(event.events.rx_data);
    assert!(event.rx_errors.parity && !event.rx_errors.framing);
}

#[test]
fn timeout_interrupts_need_the_workaround() {
    let mut irq = PxaUartIrq::new();
    assert!(irq.timeout_errata);
    let mut work = irq.handle();
    work.resume(&mut irq, IIR_CTI);
    assert!(matches!(work.step, IrqStep::Quiet));
}

#[test]
fn clock_comes_from_the_node() {
    let mut node = Node::new("serial");
    assert_eq!(clock_frequency(&node), PXA_DEFAULT_CLOCK);
    node.set_property(Property::new("clock-frequency", vec![0, 0xe0, 0x4d, 0xe0]));
    assert_eq!(clock_frequency(&node), 14_700_000);
}
