//! What the port's settings and states are in bits of its registers.

use vstd::prelude::*;
use crate::bits;
use crate::bits::{bit, bit8};
use crate::script;
use crate::script::{core_reg, Op, Reg, Script};
use crate::uart::irq;
use crate::uart::irq::{IrqStep, IrqWork, PxaUartIrq};
use crate::uart::port;
use crate::uart::port::{DivisorProbe, PxaUart, Received};
use crate::uart::rx;
use crate::uart::types::{
    Config, DataBits, Parity, RxFlag, RxSample, SerialEventSet, Source, StopBits, TransferError,
};

verus! {

/// How many data bits there are.
pub open spec fn count(data_bits: DataBits) -> int {
    match data_bits {
        DataBits::Five => 5,
        DataBits::Six => 6,
        DataBits::Seven => 7,
        DataBits::Eight => 8,
    }
}

/// After `n` data bits were set, the low two bits of the line control register
/// are `n - 5`; two stop bits are bit 2; parity is bit 3, even (or space) bit 4,
/// stuck (mark or space) bit 5. What was not set keeps its bits, as do bits 6
/// and 7.
pub proof fn law_line_control_bits(uart: PxaUart, config: Config, index: u8)
    requires
        index < 8,
    ensures
        ({
            let lcr = uart.configured(config).lcr;
            &&& config.data_bits matches Some(data_bits) ==> lcr % 4 == count(data_bits) - 5
            &&& config.data_bits is None ==> lcr % 4 == uart.lcr % 4
            &&& bit8(lcr, 2) == (match config.stop_bits {
                Some(stop_bits) => stop_bits == StopBits::Two,
                None => bit8(uart.lcr, 2),
            })
            &&& bit8(lcr, 3) == (match config.parity {
                Some(parity) => parity != Parity::Off,
                None => bit8(uart.lcr, 3),
            })
            &&& bit8(lcr, 4) == (match config.parity {
                Some(parity) => parity == Parity::Even || parity == Parity::Space,
                None => bit8(uart.lcr, 4),
            })
            &&& bit8(lcr, 5) == (match config.parity {
                Some(parity) => parity == Parity::Mark || parity == Parity::Space,
                None => bit8(uart.lcr, 5),
            })
            &&& index >= 6 ==> bit8(lcr, index) == bit8(uart.lcr, index)
        }),
{
    lemma_line_bit(uart.lcr, config, 0);
    lemma_line_bit(uart.lcr, config, 1);
    lemma_line_bit(uart.lcr, config, 2);
    lemma_line_bit(uart.lcr, config, 3);
    lemma_line_bit(uart.lcr, config, 4);
    lemma_line_bit(uart.lcr, config, 5);
    lemma_line_bit(uart.lcr, config, index);
    bits::lemma_masks8(uart.configured(config).lcr);
    bits::lemma_masks8(uart.lcr);
}

/// One bit of the line control register under new settings.
proof fn lemma_line_bit(lcr: u8, config: Config, index: u8)
    requires
        index < 8,
    ensures
        bit8(port::line_control(lcr, config), index) == (if index < 2 {
            match config.data_bits {
                Some(data_bits) => if index == 0 {
                    data_bits is Six || data_bits is Eight
                } else {
                    data_bits is Seven || data_bits is Eight
                },
                None => bit8(lcr, index),
            }
        } else if index == 2 {
            match config.stop_bits {
                Some(stop_bits) => stop_bits is Two,
                None => bit8(lcr, index),
            }
        } else if index < 6 {
            match config.parity {
                Some(parity) => if index == 3 {
                    !(parity is Off)
                } else if index == 4 {
                    parity is Even || parity is Space
                } else {
                    parity is Mark || parity is Space
                },
                None => bit8(lcr, index),
            }
        } else {
            bit8(lcr, index)
        }),
{
    broadcast use bits::group_bits8;

}

/// A port whose line control register ends in binary 00, 01, 10 or 11 has 5, 6,
/// 7 or 8 data bits; it has two stop bits by bit 2; parity by bit 3, even (or
/// space) by bit 4, mark or space by bit 5.
pub proof fn law_line_settings_of_register(
    uart: PxaUart,
    data_bits: DataBits,
    stop_bits: StopBits,
    parity: Parity,
)
    requires
        call_ensures(PxaUart::data_bits, (&uart,), data_bits),
        call_ensures(PxaUart::stop_bits, (&uart,), stop_bits),
        call_ensures(PxaUart::parity, (&uart,), parity),
    ensures
        count(data_bits) == 5 + uart.lcr % 4,
        stop_bits == StopBits::Two <==> bit8(uart.lcr, 2),
        parity == Parity::Off <==> !bit8(uart.lcr, 3),
        parity == Parity::Even || parity == Parity::Space <==> bit8(uart.lcr, 3) && bit8(
            uart.lcr,
            4,
        ),
        parity == Parity::Mark || parity == Parity::Space <==> bit8(uart.lcr, 3) && bit8(
            uart.lcr,
            5,
        ),
{
    broadcast use {bits::group_bits8, script::group_settle};

    bits::lemma_masks8(uart.lcr);
}

/// What a new configuration writes last: the line control register (0x0c) as
/// the port now holds it, the FIFO control (0x08), and the interrupt enables
/// (0x04), which keep what they were and turn the unit on (bit 6).
pub proof fn law_configuration_is_written(
    uart: PxaUart,
    config: Config,
    lcr: u8,
    image: Map<Reg, u32>,
    index: u8,
)
    requires
        uart.accepts(config),
        index < 8,
    ensures
        ({
            let after = script::settle(uart.config_ops(config, lcr), image);
            let set = uart.configured(config);
            &&& after[core_reg(0x0c)] == set.lcr
            &&& after[core_reg(0x04)] == set.ier
            &&& bit8(set.ier, index) == (index == 6 || bit8(uart.ier, index))
            &&& set.current_baud == config.baudrate.unwrap_or(uart.current_baud)
            &&& set.clock_freq == uart.clock_freq && set.mcr == uart.mcr && set.saved_lsr
                == uart.saved_lsr
        }),
{
    broadcast use {bits::group_bits8, script::group_settle};

    let tail = seq![
        crate::uart::regs::write(crate::uart::regs::UART_LCR, uart.configured(config).lcr),
        crate::uart::regs::write(
            crate::uart::regs::UART_FCR,
            port::fifo_control(uart.clock_freq / uart.configured(config).fifo_divisor()),
        ),
        crate::uart::regs::write(crate::uart::regs::UART_IER, uart.configured(config).ier),
    ];
    let head = uart.config_ops(config, lcr).take(uart.config_ops(config, lcr).len() - 3);
    assert(uart.config_ops(config, lcr) =~= head + tail);
}

/// The FIFOs are on (bit 0). The receiver interrupts per byte below 2400 baud,
/// from 8 bytes on (bit 6) below 230400 and from 32 bytes on (bit 7) above: the
/// rate is the clock over the divisor, sixteen ticks per bit.
pub proof fn law_fifo_bits(uart: PxaUart, divisor: u32, fcr: u8, index: u8)
    requires
        divisor != 0,
        call_ensures(PxaUart::select_fcr_flags, (&uart, divisor), fcr),
        index < 8,
    ensures
        ({
            let rate = uart.clock_freq as int / divisor as int;
            bit8(fcr, index) == (index == 0 || index == 6 && 38400 <= rate < 3686400 || index == 7
                && rate >= 3686400)
        }),
{
    broadcast use {bits::group_bits8, script::group_settle};

}

/// Setting the divisor opens the latch (bit 7 of 0x0c), writes the high byte to
/// 0x04 and the low byte to 0x00, and closes the latch with the line control
/// register as it was.
pub proof fn law_divisor_latch(
    uart: PxaUart,
    divisor: u16,
    lcr: u8,
    accesses: Script,
    image: Map<Reg, u32>,
    index: u8,
)
    requires
        call_ensures(PxaUart::set_divisor, (&uart, divisor, lcr), accesses),
        index < 8,
    ensures
        ({
            let after = script::settle(accesses@, image);
            &&& accesses@[0] matches Op::Write { reg, value } && reg == core_reg(0x0c) && value < 256
                && bit8(value as u8, index) == (index == 7 || bit8(lcr, index))
            &&& 256 * after[core_reg(0x04)] + after[core_reg(0x00)] == divisor
            &&& after[core_reg(0x00)] < 256
            &&& after[core_reg(0x0c)] == lcr
            &&& accesses@.last() == (Op::Write { reg: core_reg(0x0c), value: lcr as u32 })
        }),
{
    broadcast use {bits::group_bits8, script::group_settle};

}

/// A divisor is found exactly if the clock runs, and is at least half a divisor
/// step and less than 65535.5 steps of sixteen ticks per bit.
pub proof fn law_reachable_baud_rates(uart: PxaUart, baudrate: u32, divisor: Option<u16>)
    requires
        call_ensures(PxaUart::divisor, (&uart, baudrate), divisor),
    ensures
        divisor is Some <==> baudrate > 0 && 8 * baudrate <= uart.clock_freq && uart.clock_freq + 8
            * baudrate < 0x10_0000 * baudrate,
{
    broadcast use {bits::group_bits8, script::group_settle};

    if baudrate > 0 {
        let sum = uart.clock_freq + 8 * baudrate;
        let step = 16 * baudrate;
        vstd::arithmetic::div_mod::lemma_fundamental_div_mod(sum, step);
        vstd::arithmetic::div_mod::lemma_mod_bound(sum, step);
        let q = sum / step;
        assert(q >= 1 ==> step * q >= step) by (nonlinear_arith)
            requires
                step > 0,
        ;
        assert(q < 1 ==> step * q <= 0) by (nonlinear_arith)
            requires
                step > 0,
        ;
        assert(q <= 0xffff ==> step * q <= step * 0xffff) by (nonlinear_arith)
            requires
                step > 0,
        ;
        assert(q > 0xffff ==> step * q >= step * 0x1_0000) by (nonlinear_arith)
            requires
                step > 0,
        ;
    }
}

/// Everything about the receiver is bits 0, 2 and 4 of the interrupt enables,
/// space to send is bit 1.
pub proof fn law_event_enables(events: SerialEventSet, enables: u8, index: u8)
    requires
        call_ensures(port::ier_for_events, (events,), enables),
        index < 8,
    ensures
        bit8(enables, index) == ((index == 0 || index == 2 || index == 4) && (events.rx_data
            || events.rx_timeout || events.rx_status) || index == 1 && events.tx_space),
{
    broadcast use {bits::group_bits8, script::group_settle};

}

/// A port gives no reason if bit 0 of the identification is set; otherwise bits
/// 1 to 3 say which: 0 the modem lines, 1 space to send, 2 data, 3 the line
/// status, 6 a timeout, anything else a fault.
pub proof fn law_interrupt_reasons(iir: u8, source: Option<Source>)
    requires
        call_ensures(irq::iir_to_event, (iir,), source),
    ensures
        ({
            let id = (iir as int / 2) % 8;
            &&& source is None <==> iir % 2 == 1
            &&& iir % 2 == 0 ==> {
                &&& source == Some(Source::ModemStatus) <==> id == 0
                &&& source == Some(Source::TxSpace) <==> id == 1
                &&& source == Some(Source::RxData) <==> id == 2
                &&& source == Some(Source::RxStatus) <==> id == 3
                &&& source == Some(Source::RxTimeout) <==> id == 6
                &&& source == Some(Source::Fault) <==> id == 4 || id == 5 || id == 7
            }
        }),
{
    broadcast use {bits::group_bits8, script::group_settle};

    lemma_reasons(iir);
}

proof fn lemma_reasons(iir: u8)
    ensures
        ({
            let id = (iir as int / 2) % 8;
            irq::source_of(iir) == (if iir % 2 == 1 {
                None
            } else if id == 0 {
                Some(Source::ModemStatus)
            } else if id == 1 {
                Some(Source::TxSpace)
            } else if id == 2 {
                Some(Source::RxData)
            } else if id == 3 {
                Some(Source::RxStatus)
            } else if id == 6 {
                Some(Source::RxTimeout)
            } else {
                Some(Source::Fault)
            })
        }),
{
    bits::lemma_masks8(iir);
}

/// A sample is there exactly if data (bit 0), an overrun (1), a parity error
/// (2), a framing error (3) or a break (4) is in the status or in the latch. A
/// break comes before a parity error, and that before a framing error. The
/// errors then leave the latch.
pub proof fn law_sample_bits(raw_lsr: u8, saved_lsr: u8, index: u8)
    requires
        index < 8,
    ensures
        ({
            let (found, latch) = rx::classified(raw_lsr, saved_lsr);
            let any = |i: u8| bit8(raw_lsr, i) || bit8(saved_lsr, i);
            &&& found is Some <==> any(0) || any(1) || any(2) || any(3) || any(4)
            &&& found is Some ==> {
                let (flag, overrun, has_data) = found.unwrap();
                &&& flag == RxFlag::Break <==> any(4)
                &&& flag == RxFlag::Parity <==> any(2) && !any(4)
                &&& flag == RxFlag::Framing <==> any(3) && !any(4) && !any(2)
                &&& flag == RxFlag::Normal <==> !any(4) && !any(2) && !any(3)
                &&& overrun <==> any(1)
                &&& has_data <==> any(0)
                &&& bit8(latch, index) == ((index == 0 || index == 5 || index == 6) && bit8(
                    saved_lsr,
                    index,
                ))
            }
            &&& found is None ==> bit8(latch, index) == (bit8(saved_lsr, index) || index == 7 && bit8(
                raw_lsr,
                7,
            ))
        }),
{
    broadcast use {bits::group_bits8, script::group_settle};

    bits::lemma_masks8(raw_lsr | rx::fold(raw_lsr, saved_lsr));
}

/// A read reports the first of the latched errors, overrun (bit 1), parity (2),
/// framing (3), break (4), and the bit that leaves the latch is that error's.
pub proof fn law_first_error_bit(latch: u8, index: u8)
    requires
        index < 8,
    ensures
        ({
            let found = port::first_error(latch);
            &&& found is None <==> !bit8(latch, 1) && !bit8(latch, 2) && !bit8(latch, 3) && !bit8(
                latch,
                4,
            )
            &&& found is Some ==> {
                let (mark, error) = found.unwrap();
                &&& error == Received::Overrun <==> bit8(latch, 1)
                &&& error == Received::Parity <==> !bit8(latch, 1) && bit8(latch, 2)
                &&& error == Received::Framing <==> !bit8(latch, 1) && !bit8(latch, 2) && bit8(
                    latch,
                    3,
                )
                &&& error == Received::Break <==> !bit8(latch, 1) && !bit8(latch, 2) && !bit8(
                    latch,
                    3,
                )
                &&& bit8(latch & !mark, index) == (bit8(latch, index) && index != (
                match error {
                    Received::Overrun => 1,
                    Received::Parity => 2,
                    Received::Framing => 3,
                    _ => 4int,
                }))
            }
        }),
{
    broadcast use {bits::group_bits8, script::group_settle};

    bits::lemma_masks8(latch);
}

/// A byte is sent exactly if the transmitter has space (bit 5), thrown away
/// exactly if one was received (bit 0), and everything was sent exactly if bits
/// 5 and 6 are set. Data goes through register 0.
pub proof fn law_line_status_bits(
    uart: PxaUart,
    byte: u8,
    bytes: Vec<u8>,
    written: usize,
    lsr: u8,
    sent: Option<Op>,
    queued: Option<Op>,
    drained: Option<Op>,
    idle: bool,
)
    requires
        call_ensures(PxaUart::write_byte, (&uart, byte, lsr), sent),
        call_ensures(PxaUart::write_tx, (&uart, &bytes, written, lsr), queued),
        call_ensures(PxaUart::drain_rx, (&uart, lsr), drained),
        call_ensures(PxaUart::tx_idle, (&uart, lsr), idle),
    ensures
        sent == (if bit8(lsr, 5) {
            Some(Op::Write { reg: core_reg(0x00), value: byte as u32 })
        } else {
            None
        }),
        queued == (if bit8(lsr, 5) && written < bytes@.len() && written < 64 {
            Some(Op::Write { reg: core_reg(0x00), value: bytes@[written as int] as u32 })
        } else {
            None
        }),
        drained == (if bit8(lsr, 0) {
            Some(Op::Read { reg: core_reg(0x00) })
        } else {
            None
        }),
        idle <==> bit8(lsr, 5) && bit8(lsr, 6),
{
    broadcast use {bits::group_bits8, script::group_settle};

    bits::lemma_masks8(lsr);
}

/// What was read is data as it is, an overrun keeps its byte, and each other
/// error is reported as itself.
pub proof fn law_received_bytes(
    byte: u8,
    data: Result<u8, TransferError>,
    lost: Result<u8, TransferError>,
    received: Received,
    result: Result<u8, TransferError>,
)
    requires
        call_ensures(Received::complete, (Received::Data, byte), data),
        call_ensures(Received::complete, (Received::Overrun, byte), lost),
        call_ensures(Received::complete, (received, byte), result),
    ensures
        data == Ok::<u8, TransferError>(byte),
        lost == Err::<u8, TransferError>(TransferError::Overrun(byte)),
        result is Ok <==> received is Data,
        result == Err::<u8, TransferError>(TransferError::Parity) <==> received is Parity,
        result == Err::<u8, TransferError>(TransferError::Framing) <==> received is Framing,
        result == Err::<u8, TransferError>(TransferError::Break) <==> received is Break,
{
    broadcast use {bits::group_bits8, script::group_settle};

}

/// The baud rate of a latch is the clock over sixteen ticks per divisor step,
/// rounded down, and nothing if the latch is empty.
pub proof fn law_probed_baud_rate(clock_freq: u32, dll: u8, dlh: u8, baud: u32)
    requires
        call_ensures(port::probe_current_baud, (clock_freq, dll, dlh), baud),
    ensures
        ({
            let step = 16 * (256 * dlh + dll);
            &&& step == 0 ==> baud == 0
            &&& step > 0 ==> step * baud <= clock_freq < step * (baud + 1)
        }),
{
    broadcast use {bits::group_bits8, script::group_settle};

    let step = 16 * (256 * dlh + dll);
    if step > 0 {
        vstd::arithmetic::div_mod::lemma_fundamental_div_mod(clock_freq as int, step);
        vstd::arithmetic::div_mod::lemma_mod_bound(clock_freq as int, step);
        assert(step * (baud + 1) == step * baud + step) by (nonlinear_arith);
    }
}

/// Each step of an interrupt reads the register that it is about: the reason
/// (0x08), the line status (0x14), the data (0x00) or the modem status (0x18).
/// Four steps change the interrupt enables (0x04) and nothing else: the receiver
/// timeout is bit 4, the transmitter bit 1, and after a fault only the unit
/// enable (bit 6) is left.
pub proof fn law_interrupt_accesses(
    work: IrqWork,
    image: Map<Reg, u32>,
    reg: Reg,
    index: u32,
)
    requires
        index < 32,
    ensures
        ({
            let after = script::settle(work.ops(), image);
            let before = index < 8 && bit(image[reg], index);
            &&& reg != core_reg(0x04) ==> after[reg] == image[reg]
            &&& reg == core_reg(0x04) ==> bit(after[reg], index) == (match work.step {
                IrqStep::Quiet => before && index != 4,
                IrqStep::Wake => before || index == 4,
                IrqStep::Silence => index == 6,
                IrqStep::MaskTx => before && index != 1,
                _ => bit(image[reg], index),
            })
            &&& work.step is Identify ==> work.ops() == seq![Op::Read { reg: core_reg(0x08) }]
            &&& work.step is Stranded || work.step is Status ==> work.ops() == seq![
                Op::Read { reg: core_reg(0x14) },
            ]
            &&& work.step is Data ==> work.ops() == seq![Op::Read { reg: core_reg(0x00) }]
            &&& work.step is Modem ==> work.ops() == seq![Op::Read { reg: core_reg(0x18) }]
            &&& work.step is Done ==> work.ops().len() == 0
        }),
{
    broadcast use {bits::group_bits, bits::group_bits8, script::group_settle};

    lemma_enable_words(index);
}

proof fn lemma_enable_words(index: u32)
    requires
        index < 32,
    ensures
        bit(0x10, index) == (index == 4),
        bit(0x40, index) == (index == 6),
        bit((0u8 | 0x02u8) as u32, index) == (index == 1),
{
    assert(bit(0x10, index) == (index == 4) && bit(0x40, index) == (index == 6) && bit(
        (0u8 | 0x02u8) as u32,
        index,
    ) == (index == 1)) by (bit_vector)
        requires
            index < 32,
    ;
}

/// What an interrupt turns to, by its reason. A reason is noted as itself.
/// Without a reason it is over, or with the timeout workaround the line status
/// is looked at.
pub proof fn law_interrupt_routing(
    work: IrqWork,
    handler: PxaUartIrq,
    iir: u8,
    source: Option<Source>,
)
    requires
        work.step is Identify,
        work.rx_samples < irq::RX_SAMPLE_BUDGET,
        call_ensures(irq::iir_to_event, (iir,), source),
    ensures
        ({
            let (after, latch, sample) = work.next(handler, iir);
            let was = work.event.events;
            let now = after.event.events;
            let receiver = if handler.timeout_errata {
                IrqStep::Quiet
            } else {
                IrqStep::Status
            };
            &&& latch == handler.saved_lsr
            &&& sample is None
            &&& now.modem_status == (was.modem_status || source == Some(Source::ModemStatus))
            &&& now.tx_space == (was.tx_space || source == Some(Source::TxSpace))
            &&& now.rx_data == (was.rx_data || source == Some(Source::RxData))
            &&& now.rx_status == (was.rx_status || source == Some(Source::RxStatus))
            &&& now.rx_timeout == (was.rx_timeout || source == Some(Source::RxTimeout))
            &&& now.fault == (was.fault || source == Some(Source::Fault))
            &&& after.event.rearm == work.event.rearm
            &&& after.event.rx_errors == work.event.rx_errors
            &&& after.rx_samples == work.rx_samples && after.passes == work.passes
            &&& source is None ==> after.step == (if handler.timeout_errata {
                IrqStep::Stranded
            } else {
                IrqStep::Done
            })
            &&& source == Some(Source::ModemStatus) ==> after.step is Modem
            &&& source == Some(Source::TxSpace) ==> after.step is MaskTx
            &&& source == Some(Source::Fault) ==> after.step is Silence
            &&& source == Some(Source::RxData) || source == Some(Source::RxStatus) || source == Some(
                Source::RxTimeout,
            ) ==> after.step == receiver
        }),
{
    assert(work.next(handler, iir) == (
        work.identified(handler.timeout_errata, source),
        handler.saved_lsr,
        None::<RxSample>,
    ));
    lemma_identified(work, handler.timeout_errata, source);
    if source is Some {
        law_added_reason(work.event.events, source.unwrap());
    }
}

proof fn lemma_identified(work: IrqWork, timeout_errata: bool, source: Option<Source>)
    ensures
        ({
            let after = work.identified(timeout_errata, source);
            &&& after.event.events == (match source {
                Some(found) => work.event.events.with(found),
                None => work.event.events,
            })
            &&& after.event.rearm == work.event.rearm
            &&& after.event.rx_errors == work.event.rx_errors
            &&& after.rx_samples == work.rx_samples
            &&& !(after.step is Data)
            &&& work.rx_samples < irq::RX_SAMPLE_BUDGET ==> after.passes == work.passes
                && after.step == (match source {
                None => if timeout_errata {
                    IrqStep::Stranded
                } else {
                    IrqStep::Done
                },
                Some(Source::ModemStatus) => IrqStep::Modem,
                Some(Source::TxSpace) => IrqStep::MaskTx,
                Some(Source::Fault) => IrqStep::Silence,
                Some(_) => if timeout_errata {
                    IrqStep::Quiet
                } else {
                    IrqStep::Status
                },
            })
        }),
{
    reveal(IrqWork::identified);
    if let Some(found) = source {
        lemma_noted(work, found);
        lemma_moves(work.with_event(found), timeout_errata);
    }
}

/// What the receiver hands over: a byte that was read, with the errors of its
/// status; an error without a byte at once; and nothing if the status shows
/// neither. Each sample counts once, and its errors are noted.
pub proof fn law_interrupt_samples(work: IrqWork, handler: PxaUartIrq, value: u8)
    requires
        work.wf(),
    ensures
        ({
            let (after, _, sample) = work.next(handler, value);
            let any = |i: u8| bit8(value, i) || bit8(handler.saved_lsr, i);
            &&& sample is Some ==> after.rx_samples == work.rx_samples + 1
            &&& sample is None ==> after.rx_samples == work.rx_samples
            &&& !(work.step is Status) && !(work.step is Data) ==> sample is None
            &&& work.step matches IrqStep::Data { pending } ==> sample matches Some(found)
                && found.flag == pending.flag && found.overrun == pending.overrun && found.byte
                == (if pending.has_data {
                Some(value)
            } else {
                None
            })
            &&& work.step is Status ==> {
                &&& after.step is Data <==> any(0)
                &&& sample is Some <==> !any(0) && (any(1) || any(2) || any(3) || any(4))
                &&& sample matches Some(found) ==> found.byte is None && (found.overrun <==> any(1))
                    && (found.flag is Break <==> any(4))
                &&& after.step matches IrqStep::Data { pending } ==> pending.has_data && (
                pending.overrun <==> any(1)) && (pending.flag is Break <==> any(4)) && (
                pending.flag is Parity <==> any(2) && !any(4)) && (pending.flag is Framing <==> any(
                    3,
                ) && !any(2) && !any(4))
            }
        }),
{
    lemma_next_moves(work, handler, value);
    if work.step is Status {
        law_sample_bits(value, handler.saved_lsr, 0);
    }
}

proof fn lemma_moves(work: IrqWork, timeout_errata: bool)
    ensures
        ({
            let turned = work.turn_to_rx(timeout_errata);
            let on = work.read_on(timeout_errata);
            let out = work.read_out(timeout_errata);
            let pass = work.next_pass();
            &&& turned.event == work.event && on.event == work.event && out.event == work.event
                && pass.event == work.event
            &&& turned.rx_samples == work.rx_samples && on.rx_samples == work.rx_samples
                && out.rx_samples == work.rx_samples && pass.rx_samples == work.rx_samples
            &&& !(turned.step is Data) && !(on.step is Data) && !(out.step is Data) && !(
            pass.step is Data)
            &&& work.rx_samples < irq::RX_SAMPLE_BUDGET ==> turned.passes == work.passes
                && turned.step == (if timeout_errata {
                IrqStep::Quiet
            } else {
                IrqStep::Status
            })
        }),
{
    reveal(IrqWork::turn_to_rx);
    reveal(IrqWork::read_on);
    reveal(IrqWork::read_out);
    reveal(IrqWork::next_pass);
}

proof fn lemma_noted(work: IrqWork, source: Source)
    ensures
        work.with_event(source) == (IrqWork {
            event: work.with_event(source).event,
            ..work
        }),
        work.with_event(source).event.events == work.event.events.with(source),
        work.with_event(source).event.rearm == work.event.rearm,
        work.with_event(source).event.rx_errors == work.event.rx_errors,
{
    reveal(IrqWork::with_event);
}

proof fn lemma_next_moves(work: IrqWork, handler: PxaUartIrq, value: u8)
    requires
        work.wf(),
    ensures
        ({
            let (after, _, sample) = work.next(handler, value);
            &&& sample is Some ==> after.rx_samples == work.rx_samples + 1
            &&& sample is None ==> after.rx_samples == work.rx_samples
            &&& !(work.step is MaskTx) ==> after.event.rearm == work.event.rearm
            &&& work.step is MaskTx ==> after.event.rearm == work.event.rearm.with(Source::TxSpace)
            &&& work.step is Status ==> (after.step is Data <==> (rx::classified(
                value,
                handler.saved_lsr,
            ).0 matches Some((_, _, has_data)) && has_data))
        }),
{
    let errata = handler.timeout_errata;
    lemma_moves(work, errata);
    match work.step {
        IrqStep::Identify => {
            lemma_identified(work, errata, irq::source_of(value));
        },
        IrqStep::Stranded => {
            lemma_moves(IrqWork { stranded: true, ..work }, errata);
        },
        IrqStep::Status => {
            if let Some((flag, overrun, has_data)) = rx::classified(value, handler.saved_lsr).0 {
                let pending = port::PendingSample { flag, overrun, has_data };
                lemma_moves(work.with_sample(pending.complete(0)), errata);
            }
        },
        IrqStep::Data { pending } => {
            lemma_moves(work.with_sample(pending.complete(value)), errata);
        },
        IrqStep::Wake => {
            lemma_noted(work, Source::RxData);
        },
        IrqStep::MaskTx => {
            lemma_moves(
                IrqWork {
                    event: crate::uart::types::SerialIrqEvent {
                        rearm: work.event.rearm.with(Source::TxSpace),
                        ..work.event
                    },
                    ..work
                },
                errata,
            );
        },
        _ => {},
    }
}

/// Only the transmitter is handed back to be armed again, after it was masked.
pub proof fn law_masked_transmitter_is_rearmed(work: IrqWork, handler: PxaUartIrq, value: u8)
    requires
        work.wf(),
    ensures
        ({
            let after = work.next(handler, value).0;
            let (was, now) = (work.event.rearm, after.event.rearm);
            &&& now.tx_space == (was.tx_space || work.step is MaskTx)
            &&& now.rx_data == was.rx_data && now.rx_timeout == was.rx_timeout && now.rx_status
                == was.rx_status && now.modem_status == was.modem_status && now.fault == was.fault
        }),
{
    lemma_next_moves(work, handler, value);
}

/// A set with a reason added has that one and no other than before.
pub proof fn law_added_reason(set: SerialEventSet, source: Source)
    ensures
        ({
            let with = set.with(source);
            &&& with.rx_data == (set.rx_data || source is RxData)
            &&& with.rx_timeout == (set.rx_timeout || source is RxTimeout)
            &&& with.rx_status == (set.rx_status || source is RxStatus)
            &&& with.tx_space == (set.tx_space || source is TxSpace)
            &&& with.modem_status == (set.modem_status || source is ModemStatus)
            &&& with.fault == (set.fault || source is Fault)
            &&& !with.is_empty()
            &&& set.is_empty() <==> set == SerialEventSet::empty()
            &&& with.has_rx() <==> set.has_rx() || source.is_rx()
            &&& source.is_rx() <==> source is RxData || source is RxTimeout || source is RxStatus
        }),
{
}

/// When sources are armed again, what is ready is reported only for sources
/// asked about: data by bit 0, an error without data by bits 1 to 4, space to
/// send by bit 5.
pub proof fn law_ready_sources(sources: SerialEventSet, status: u8)
    ensures
        ({
            let ready = PxaUart::ready_events(sources, status);
            let receiver = sources.rx_data || sources.rx_timeout || sources.rx_status;
            let error = bit8(status, 1) || bit8(status, 2) || bit8(status, 3) || bit8(status, 4);
            &&& ready.rx_data <==> receiver && bit8(status, 0)
            &&& ready.rx_status <==> receiver && !bit8(status, 0) && error
            &&& ready.tx_space <==> sources.tx_space && bit8(status, 5)
            &&& !ready.rx_timeout && !ready.modem_status && !ready.fault
        }),
{
    bits::lemma_masks8(status);
}

/// The latch of errors keeps bits 1 to 4 and 7 of what is read.
pub proof fn law_latched_bits(raw_lsr: u8, saved_lsr: u8, index: u8)
    requires
        index < 8,
    ensures
        bit8(rx::fold(raw_lsr, saved_lsr), index) == (bit8(saved_lsr, index) || (1 <= index <= 4
            || index == 7) && bit8(raw_lsr, index)),
{
    broadcast use bits::group_bits8;

}

/// A loopback is on exactly if bit 4 of the modem control is set.
pub proof fn law_loopback_bit(uart: PxaUart, enabled: bool)
    requires
        call_ensures(PxaUart::is_loopback_enabled, (&uart,), enabled),
    ensures
        enabled <==> bit8(uart.mcr, 4),
{
    bits::lemma_masks8(uart.mcr);
}

/// A reset of the line leaves eight data bits (3 in 0x0c), the interrupt line on
/// (8 in 0x10) and the FIFOs off (0 in 0x08), after they were cleared (7).
pub proof fn law_reset_line_registers(image: Map<Reg, u32>)
    ensures
        ({
            let ops = PxaUart::reset_ops();
            let after = script::settle(ops, image);
            &&& after[core_reg(0x0c)] == 3
            &&& after[core_reg(0x10)] == 8
            &&& after[core_reg(0x08)] == 0
            &&& after[core_reg(0x04)] == image[core_reg(0x04)]
            &&& ops[1] == (Op::Write { reg: core_reg(0x08), value: 7 })
        }),
{
    broadcast use script::group_settle;

    bits::lemma_bit8(0, 0, 0);
}

/// Reading the divisor of a port finds what the latch holds, low byte first,
/// with the latch open (bit 7 of 0x0c), and leaves the line control register as
/// it was found.
pub proof fn law_divisor_probe(lcr: u8, dll: u8, dlh: u8, any: u8, image: Map<Reg, u32>, index: u8)
    requires
        index < 8,
    ensures
        ({
            let low = DivisorProbe::Line.next(lcr);
            let high = low.next(dll);
            let restore = high.next(dlh);
            &&& DivisorProbe::Line.ops() == seq![Op::Read { reg: core_reg(0x0c) }]
            &&& low.ops().len() == 2
            &&& low.ops()[0] matches Op::Write { reg, value } && reg == core_reg(0x0c) && value < 256
                && bit8(value as u8, index) == (index == 7 || bit8(lcr, index))
            &&& low.ops()[1] == (Op::Read { reg: core_reg(0x00) })
            &&& high.ops() == seq![Op::Read { reg: core_reg(0x04) }]
            &&& script::settle(restore.ops(), image)[core_reg(0x0c)] == lcr
            &&& restore.next(any) == (DivisorProbe::Done { dll, dlh })
        }),
{
    broadcast use {bits::group_bits8, script::group_settle};

}

} // verus!
