use k3_drivers::script::{core_reg, Action, Op, Reg, Runner, Script, Window};

fn pins(offset: usize) -> Reg {
    Reg { window: Window::Pins, offset }
}

#[test]
fn steps_are_collected_in_order() {
    let mut script = Script::new();
    script.read(core_reg(0x10));
    script.set(pins(4), 0x3);
    script.clear(pins(8), 0xc);
    let mut tail = Script::new();
    tail.delay(7);
    tail.push(Op::Write { reg: pins(0), value: 9 });
    script.append(tail);
    assert_eq!(
        script.ops,
        vec![
            Op::Read { reg: core_reg(0x10) },
            Op::Update { reg: pins(4), clear: 0, set: 0x3 },
            Op::Update { reg: pins(8), clear: 0xc, set: 0 },
            Op::Delay { us: 7 },
            Op::Write { reg: pins(0), value: 9 },
        ]
    );
}

#[test]
fn updates_read_before_they_write() {
    let mut script = Script::new();
    script.update(pins(4), 0xf0, 0x0c);
    script.read(core_reg(0));
    let mut runner = Runner::new(script);
    assert_eq!(runner.resume(0), Action::Read { reg: pins(4) });
    assert_eq!(runner.resume(0xff), Action::Write { reg: pins(4), value: 0x0f });
    assert_eq!(runner.resume(0), Action::Read { reg: core_reg(0) });
    assert_eq!(runner.resume(5), Action::Finished);
    assert_eq!(runner.last, 5);
}

fn poll(patient: bool, required: bool) -> Script {
    let mut script = Script::new();
    script.push(Op::Poll {
        reg: core_reg(8),
        mask: 1,
        value: 1,
        attempts: 2,
        interval_us: 50,
        patient,
        required,
    });
    script.write(core_reg(0xc), 1);
    script
}

#[test]
fn polls_wait_between_looks() {
    let mut runner = Runner::new(poll(true, true));
    assert_eq!(runner.resume(0), Action::Read { reg: core_reg(8) });
    assert_eq!(runner.resume(0), Action::Delay { us: 50 });
    assert_eq!(runner.resume(0), Action::Read { reg: core_reg(8) });
    assert_eq!(runner.resume(1), Action::Write { reg: core_reg(0xc), value: 1 });
    assert_eq!(runner.resume(0), Action::Finished);
}

fn drive(script: Script) -> (Action, usize) {
    let mut runner = Runner::new(script);
    let mut writes = 0;
    loop {
        match runner.resume(0) {
            Action::Write { .. } => writes += 1,
            Action::Read { .. } | Action::Delay { .. } => {}
            end => return (end, writes),
        }
    }
}

#[test]
fn required_polls_that_run_out_end_the_script() {
    let (end, writes) = drive(poll(true, true));
    assert!(matches!(end, Action::TimedOut { .. }));
    assert_eq!(writes, 0);
}

#[test]
fn other_polls_that_run_out_do_not() {
    let (end, writes) = drive(poll(true, false));
    assert_eq!(end, Action::Finished);
    assert_eq!(writes, 1);
}

#[test]
fn patient_polls_wait_after_the_last_look() {
    let mut runner = Runner::new(poll(true, true));
    assert_eq!(runner.resume(0), Action::Read { reg: core_reg(8) });
    assert_eq!(runner.resume(0), Action::Delay { us: 50 });
    assert_eq!(runner.resume(0), Action::Read { reg: core_reg(8) });
    assert_eq!(runner.resume(0), Action::Delay { us: 50 });
    assert_eq!(runner.resume(0), Action::TimedOut { left: 1 });
}

#[test]
fn other_polls_do_not_wait_after_the_last_look() {
    let mut runner = Runner::new(poll(false, true));
    assert_eq!(runner.resume(0), Action::Read { reg: core_reg(8) });
    assert_eq!(runner.resume(0), Action::Delay { us: 50 });
    assert_eq!(runner.resume(0), Action::Read { reg: core_reg(8) });
    assert_eq!(runner.resume(0), Action::TimedOut { left: 1 });

    let mut runner = Runner::new(poll(false, false));
    assert_eq!(runner.resume(0), Action::Read { reg: core_reg(8) });
    assert_eq!(runner.resume(0), Action::Delay { us: 50 });
    assert_eq!(runner.resume(0), Action::Read { reg: core_reg(8) });
    assert_eq!(runner.resume(0), Action::Write { reg: core_reg(0xc), value: 1 });
    assert_eq!(runner.resume(0), Action::Finished);
}
