//! Register scripts: the accesses a driver asks its caller to perform.
//!
//! The drivers of this crate never touch a bus. A driver operation returns a
//! [`Script`], the list of register accesses, delays and polls that carry it
//! out. A [`Runner`] turns a script into single bus accesses, one per call,
//! and is handed back what each read returned.
//!
//! [`run`] gives a script its meaning: the bus events that it causes, as a
//! function of the values that the device returns on reads.

use vstd::prelude::*;

verus! {

/// A register block that a driver addresses.
#[derive(Clone, Copy, Debug, PartialEq, Eq, Structural)]
pub enum Window {
    /// The controller's own register block.
    Core,
    /// Pin configuration registers.
    Pins,
    /// IO power-domain registers.
    IoPower,
    /// APB clock unit.
    Apbc,
    /// System controller (APMU).
    Syscon,
    /// GPIO controller.
    Gpio,
    /// USB 2.0 PHY.
    Usb2Phy,
    /// USB 3.0 PHY.
    Usb3Phy,
    /// APB spare register block.
    ApbSpare,
}

/// A 32-bit register: a byte offset into a window.
#[derive(Clone, Copy, Debug, PartialEq, Eq, Structural)]
pub struct Reg {
    pub window: Window,
    pub offset: usize,
}

/// The register at `offset` of the controller's own block.
#[verifier::allow_in_spec]
pub fn core_reg(offset: usize) -> (reg: Reg)
    returns
        (Reg { window: Window::Core, offset }),
{
    Reg { window: Window::Core, offset }
}

/// One step of a script.
#[derive(Clone, Copy, Debug, PartialEq, Eq, Structural)]
pub enum Op {
    /// Read a register.
    Read { reg: Reg },
    /// Write a register.
    Write { reg: Reg, value: u32 },
    /// Read a register and write it back with `clear` taken out and `set` put in.
    Update { reg: Reg, clear: u32, set: u32 },
    /// Wait.
    Delay { us: u32 },
    /// Read a register until its `mask` bits equal `value`, at most `attempts`
    /// times, waiting `interval_us` after each read that misses; after the last
    /// one only if the poll is `patient`. When every read misses, the script
    /// ends if the poll is `required` and goes on otherwise.
    Poll {
        reg: Reg,
        mask: u32,
        value: u32,
        attempts: u32,
        interval_us: u32,
        patient: bool,
        required: bool,
    },
}

/// A list of register accesses, in order.
#[derive(Debug)]
pub struct Script {
    pub ops: Vec<Op>,
}

impl View for Script {
    type V = Seq<Op>;

    open spec fn view(&self) -> Seq<Op> {
        self.ops@
    }
}

/// The operation that sets bits and keeps the others.
pub open spec fn set_bits(reg: Reg, bits: u32) -> Op {
    Op::Update { reg, clear: 0, set: bits }
}

/// The operation that clears bits and keeps the others.
pub open spec fn clear_bits(reg: Reg, bits: u32) -> Op {
    Op::Update { reg, clear: bits, set: 0 }
}

impl Script {
    /// A script that does nothing.
    pub fn new() -> (script: Script)
        ensures
            script@ == Seq::<Op>::empty(),
    {
        Script { ops: Vec::new() }
    }

    /// Adds one step.
    pub fn push(&mut self, op: Op)
        ensures
            final(self)@ == old(self)@.push(op),
    {
        self.ops.push(op);
    }

    /// Adds a read.
    pub fn read(&mut self, reg: Reg)
        ensures
            final(self)@ == old(self)@.push(Op::Read { reg }),
    {
        self.ops.push(Op::Read { reg });
    }

    /// Adds a write.
    pub fn write(&mut self, reg: Reg, value: u32)
        ensures
            final(self)@ == old(self)@.push(Op::Write { reg, value }),
    {
        self.ops.push(Op::Write { reg, value });
    }

    /// Adds a read-modify-write.
    pub fn update(&mut self, reg: Reg, clear: u32, set: u32)
        ensures
            final(self)@ == old(self)@.push(Op::Update { reg, clear, set }),
    {
        self.ops.push(Op::Update { reg, clear, set });
    }

    /// Adds a read-modify-write that sets `bits`.
    pub fn set(&mut self, reg: Reg, bits: u32)
        ensures
            final(self)@ == old(self)@.push(set_bits(reg, bits)),
    {
        self.ops.push(Op::Update { reg, clear: 0, set: bits });
    }

    /// Adds a read-modify-write that clears `bits`.
    pub fn clear(&mut self, reg: Reg, bits: u32)
        ensures
            final(self)@ == old(self)@.push(clear_bits(reg, bits)),
    {
        self.ops.push(Op::Update { reg, clear: bits, set: 0 });
    }

    /// Adds a wait.
    pub fn delay(&mut self, us: u32)
        ensures
            final(self)@ == old(self)@.push(Op::Delay { us }),
    {
        self.ops.push(Op::Delay { us });
    }

    /// Adds the steps of another script.
    pub fn append(&mut self, other: Script)
        ensures
            final(self)@ == old(self)@ + other@,
    {
        let mut rest: Vec<Op> = other.ops;
        self.ops.append(&mut rest);
    }
}

/// What happens on the bus.
#[derive(Clone, Copy, Debug, PartialEq, Eq, Structural)]
pub enum Event {
    /// A read that returned `value`.
    Read { reg: Reg, value: u32 },
    /// A write.
    Write { reg: Reg, value: u32 },
    /// A wait.
    Delay { us: u32 },
}

/// How far a script got with the values that the device returned so far.
pub enum End {
    /// The script needs the value of one more read.
    Waiting,
    /// Every step was carried out.
    Finished,
    /// A required poll missed on every read; `left` steps follow it.
    TimedOut { left: nat },
}

/// The meaning of a script on given read values.
pub struct Run {
    /// What happened, in order.
    pub events: Seq<Event>,
    /// How many of the values were used.
    pub used: nat,
    /// Where it stopped.
    pub end: End,
}

/// `first`, then `rest` on the values that `first` left.
pub open spec fn before(events: Seq<Event>, used: nat, rest: Run) -> Run {
    Run { events: events + rest.events, used: used + rest.used, end: rest.end }
}

/// The read value written back by an update.
pub open spec fn updated(value: u32, clear: u32, set: u32) -> u32 {
    (value & !clear) | set
}

/// A poll with `attempts` reads to go; a miss on all of them ends in `missed`.
pub open spec fn run_poll(
    reg: Reg,
    mask: u32,
    value: u32,
    attempts: nat,
    interval_us: u32,
    patient: bool,
    missed: End,
    replies: Seq<u32>,
) -> Run
    decreases attempts,
{
    if attempts == 0 {
        Run { events: Seq::empty(), used: 0, end: missed }
    } else if replies.len() == 0 {
        Run { events: Seq::empty(), used: 0, end: End::Waiting }
    } else if replies[0] & mask == value {
        Run {
            events: seq![Event::Read { reg, value: replies[0] }],
            used: 1,
            end: End::Finished,
        }
    } else if attempts == 1 && !patient {
        Run { events: seq![Event::Read { reg, value: replies[0] }], used: 1, end: missed }
    } else {
        before(
            seq![Event::Read { reg, value: replies[0] }, Event::Delay { us: interval_us }],
            1,
            run_poll(
                reg,
                mask,
                value,
                (attempts - 1) as nat,
                interval_us,
                patient,
                missed,
                replies.drop_first(),
            ),
        )
    }
}

/// One step, followed by `left` others.
pub open spec fn run_op(op: Op, left: nat, replies: Seq<u32>) -> Run {
    match op {
        Op::Read { reg } => if replies.len() == 0 {
            Run { events: Seq::empty(), used: 0, end: End::Waiting }
        } else {
            Run {
                events: seq![Event::Read { reg, value: replies[0] }],
                used: 1,
                end: End::Finished,
            }
        },
        Op::Write { reg, value } => Run {
            events: seq![Event::Write { reg, value }],
            used: 0,
            end: End::Finished,
        },
        Op::Update { reg, clear, set } => if replies.len() == 0 {
            Run { events: Seq::empty(), used: 0, end: End::Waiting }
        } else {
            Run {
                events: seq![
                    Event::Read { reg, value: replies[0] },
                    Event::Write { reg, value: updated(replies[0], clear, set) },
                ],
                used: 1,
                end: End::Finished,
            }
        },
        Op::Delay { us } => Run {
            events: seq![Event::Delay { us }],
            used: 0,
            end: End::Finished,
        },
        Op::Poll { reg, mask, value, attempts, interval_us, patient, required } => run_poll(
            reg,
            mask,
            value,
            attempts as nat,
            interval_us,
            patient,
            if required {
                End::TimedOut { left }
            } else {
                End::Finished
            },
            replies,
        ),
    }
}

/// `first`, then `ops` if it finished.
pub open spec fn and_then(first: Run, ops: Seq<Op>, replies: Seq<u32>) -> Run
    decreases ops.len(), 1nat,
{
    if first.end is Finished {
        before(first.events, first.used, run(ops, replies.skip(first.used as int)))
    } else {
        first
    }
}

/// The meaning of a script: what it does to the bus when the device returns
/// `replies` on its reads.
pub open spec fn run(ops: Seq<Op>, replies: Seq<u32>) -> Run
    decreases ops.len(), 0nat,
{
    if ops.len() == 0 {
        Run { events: Seq::empty(), used: 0, end: End::Finished }
    } else {
        and_then(
            run_op(ops[0], (ops.len() - 1) as nat, replies),
            ops.drop_first(),
            replies,
        )
    }
}

/// What a [`Runner`] asks for next.
#[derive(Clone, Copy, Debug, PartialEq, Eq, Structural)]
pub enum Action {
    /// Read the register and hand its value to the next call.
    Read { reg: Reg },
    /// Write the register.
    Write { reg: Reg, value: u32 },
    /// Wait.
    Delay { us: u32 },
    /// Every step was carried out.
    Finished,
    /// A required poll missed on every read; `left` steps were not carried out.
    TimedOut { left: usize },
}

/// Where a runner stands within the current step.
#[derive(Clone, Copy, Debug, PartialEq, Eq, Structural)]
pub enum Stage {
    /// The step has not begun.
    Fetch,
    /// The value of the step's read is awaited.
    Reply,
    /// A poll awaits the value of a read; `attempts` reads remain, that one included.
    PollReply { attempts: u32 },
    /// A poll waits after a miss; `attempts` reads remain.
    Backoff { attempts: u32 },
    /// The step was a required poll and missed on every read.
    Failed,
}

/// Carries a script out, one bus access per call.
#[derive(Debug)]
pub struct Runner {
    pub ops: Vec<Op>,
    pub pc: usize,
    pub stage: Stage,
    pub last: u32,
}

/// How many actions a script asks for at most.
pub open spec fn cost(ops: Seq<Op>) -> nat
    decreases ops.len(),
{
    if ops.len() == 0 {
        0
    } else {
        cost_op(ops[0]) + cost(ops.drop_first())
    }
}

/// How many actions one step asks for at most.
pub open spec fn cost_op(op: Op) -> nat {
    match op {
        Op::Read { .. } => 1,
        Op::Write { .. } => 1,
        Op::Update { .. } => 2,
        Op::Delay { .. } => 1,
        Op::Poll { attempts, .. } => 2 * attempts as nat,
    }
}

impl Runner {
    /// The stage fits the current step.
    pub open spec fn wf(&self) -> bool {
        &&& self.pc <= self.ops@.len()
        &&& match self.stage {
            Stage::Fetch => true,
            Stage::Reply => self.pc < self.ops@.len() && (self.ops@[self.pc as int] is Read
                || self.ops@[self.pc as int] is Update),
            Stage::PollReply { attempts } => self.pc < self.ops@.len()
                && self.ops@[self.pc as int] is Poll && attempts > 0,
            Stage::Backoff { .. } => self.pc < self.ops@.len()
                && self.ops@[self.pc as int] is Poll,
            Stage::Failed => self.pc < self.ops@.len(),
        }
    }

    /// Whether the next call is handed the value of a read.
    pub open spec fn awaits(&self) -> bool {
        self.stage is Reply || self.stage is PollReply
    }

    /// The register whose value is awaited.
    pub open spec fn awaited(&self) -> Reg {
        match self.ops@[self.pc as int] {
            Op::Read { reg } => reg,
            Op::Write { reg, .. } => reg,
            Op::Update { reg, .. } => reg,
            Op::Delay { .. } => arbitrary(),
            Op::Poll { reg, .. } => reg,
        }
    }

    /// The steps after the current one.
    pub open spec fn later(&self) -> Seq<Op> {
        self.ops@.skip(self.pc + 1)
    }

    /// The current poll with `attempts` reads to go, and the steps after it.
    pub open spec fn polling(&self, attempts: nat, replies: Seq<u32>) -> Run {
        match self.ops@[self.pc as int] {
            Op::Poll { reg, mask, value, interval_us, patient, required, .. } => and_then(
                run_poll(
                    reg,
                    mask,
                    value,
                    attempts,
                    interval_us,
                    patient,
                    if required {
                        End::TimedOut { left: self.later().len() }
                    } else {
                        End::Finished
                    },
                    replies,
                ),
                self.later(),
                replies,
            ),
            _ => arbitrary(),
        }
    }

    /// What the rest of the script does when the device returns `replies`.
    pub open spec fn ahead(&self, replies: Seq<u32>) -> Run {
        match self.stage {
            Stage::Fetch => run(self.ops@.skip(self.pc as int), replies),
            Stage::Reply => run(self.ops@.skip(self.pc as int), replies),
            Stage::PollReply { attempts } => self.polling(attempts as nat, replies),
            Stage::Backoff { attempts } => self.polling(attempts as nat, replies),
            Stage::Failed => Run {
                events: Seq::empty(),
                used: 0,
                end: End::TimedOut { left: self.later().len() },
            },
        }
    }

    /// How many actions are asked for at most before the script ends.
    pub open spec fn remaining(&self) -> nat {
        match self.stage {
            Stage::Fetch => cost(self.ops@.skip(self.pc as int)),
            Stage::Reply => if self.ops@[self.pc as int] is Update {
                1 + cost(self.later())
            } else {
                cost(self.later())
            },
            Stage::PollReply { attempts } => (2 * attempts - 1 + cost(self.later())) as nat,
            Stage::Backoff { attempts } => 2 * attempts as nat + cost(self.later()),
            Stage::Failed => 0,
        }
    }

    /// A runner at the start of `script`.
    pub fn new(script: Script) -> (runner: Runner)
        ensures
            runner.wf(),
            !runner.awaits(),
            runner.last == 0,
            forall|replies: Seq<u32>| #[trigger] runner.ahead(replies) == run(script@, replies),
            runner.remaining() == cost(script@),
    {
        let runner = Runner { ops: script.ops, pc: 0, stage: Stage::Fetch, last: 0 };
        assert(script@.skip(0) =~= script@);
        runner
    }

    /// Moves on to the next action. `reply` is the value of the read that the
    /// call before asked for; it is ignored if that call asked for none.
    ///
    /// Whatever the device goes on to return, the events of this call followed
    /// by those still ahead are the ones that the script means.
    pub fn resume(&mut self, reply: u32) -> (action: Action)
        requires
            old(self).wf(),
        ensures
            final(self).wf(),
            final(self).ops@ == old(self).ops@,
            final(self).last == (if old(self).awaits() { reply } else { old(self).last }),
            final(self).awaits() <==> action is Read,
            action matches Action::Read { reg } ==> final(self).awaited() == reg,
            faithful(*old(self), reply, action, *final(self)),
            action is Finished ==> forall|replies: Seq<u32>|
                (#[trigger] final(self).ahead(replies)) == (Run {
                    events: Seq::empty(),
                    used: 0,
                    end: End::Finished,
                }),
            action matches Action::TimedOut { left } ==> forall|replies: Seq<u32>|
                (#[trigger] final(self).ahead(replies)) == (Run {
                    events: Seq::empty(),
                    used: 0,
                    end: End::TimedOut { left: left as nat },
                }),
            !(action is Finished) && !(action is TimedOut) ==> final(self).remaining() < old(
                self,
            ).remaining(),
    {
        let ghost start = *self;
        proof {
            lemma_before_nothing();
            lemma_nothing_fed(start, reply);
        }
        if let Stage::Failed = self.stage {
            let left: usize = self.ops.len() - self.pc - 1;
            return Action::TimedOut { left };
        }
        if let Stage::Fetch = self.stage {
            return self.fetch();
        }
        proof {
            lemma_unfold(self.ops@, self.pc as int);
        }
        let count: usize = self.ops.len();
        assert(self.pc < count);
        match (self.stage, self.ops[self.pc]) {
            (Stage::Reply, Op::Update { reg, clear, set }) => {
                self.last = reply;
                self.stage = Stage::Fetch;
                self.pc = self.pc + 1;
                proof {
                    lemma_first_skipped(reply);
                }
                assert forall|replies: Seq<u32>|
                    start.ahead(seq![reply] + replies) == before(
                        seq![
                            Event::Read { reg, value: reply },
                            Event::Write { reg, value: updated(reply, clear, set) },
                        ],
                        1,
                        #[trigger] self.ahead(replies),
                    ) by {
                    assert((seq![reply] + replies).skip(1) == replies);
                }
                assert(happened(
                    start,
                    reply,
                    Action::Write { reg, value: (reply & !clear) | set },
                ) =~= seq![
                    Event::Read { reg, value: reply },
                    Event::Write { reg, value: updated(reply, clear, set) },
                ]);
                Action::Write { reg, value: (reply & !clear) | set }
            },
            (
                Stage::PollReply { attempts },
                Op::Poll { reg, mask, value, interval_us, patient, required, .. },
            ) => {
                self.last = reply;
                let last_miss = attempts == 1 && !patient && reply & mask != value;
                if last_miss && required {
                    self.stage = Stage::Failed;
                    assert forall|replies: Seq<u32>|
                        start.ahead(seq![reply] + replies) == before(
                            seq![Event::Read { reg, value: reply }],
                            1,
                            #[trigger] self.ahead(replies),
                        ) by {
                        assert(seq![Event::Read { reg, value: reply }] + Seq::empty() =~= seq![
                            Event::Read { reg, value: reply },
                        ]);
                    }
                    return Action::TimedOut { left: self.ops.len() - self.pc - 1 };
                }
                if last_miss || reply & mask == value {
                    self.stage = Stage::Fetch;
                    self.pc = self.pc + 1;
                    let ghost mid = *self;
                    proof {
                        lemma_first_skipped(reply);
                    }
                    let action = self.fetch();
                    proof {
                        lemma_answered(start, reply, mid, action, *self);
                    }
                    return action;
                }
                self.stage = Stage::Backoff { attempts: attempts - 1 };
                assert forall|replies: Seq<u32>|
                    start.ahead(seq![reply] + replies) == before(
                        seq![Event::Read { reg, value: reply }, Event::Delay { us: interval_us }],
                        1,
                        #[trigger] self.ahead(replies),
                    ) by {
                    lemma_poll_miss(
                        reg,
                        mask,
                        value,
                        (attempts - 1) as nat,
                        interval_us,
                        patient,
                        start.missed(),
                        reply,
                        start.later(),
                        replies,
                    );
                }
                assert(happened(start, reply, Action::Delay { us: interval_us }) =~= seq![
                    Event::Read { reg, value: reply },
                    Event::Delay { us: interval_us },
                ]);
                Action::Delay { us: interval_us }
            },
            (Stage::Backoff { attempts }, Op::Poll { reg, required, .. }) => {
                if attempts > 0 {
                    self.stage = Stage::PollReply { attempts };
                    return Action::Read { reg };
                }
                if required {
                    self.stage = Stage::Failed;
                    return Action::TimedOut { left: self.ops.len() - self.pc - 1 };
                }
                self.stage = Stage::Fetch;
                self.pc = self.pc + 1;
                assert forall|replies: Seq<u32>| start.ahead(replies) == #[trigger] self.ahead(
                    replies,
                ) by {
                    assert(replies.skip(0) =~= replies);
                }
                self.fetch()
            },
            _ => {
                self.last = reply;
                self.stage = Stage::Fetch;
                self.pc = self.pc + 1;
                let ghost mid = *self;
                proof {
                    lemma_first_skipped(reply);
                }
                let action = self.fetch();
                proof {
                    lemma_answered(start, reply, mid, action, *self);
                }
                action
            },
        }
    }

    /// Begins the step at `pc`, and those after it that ask for no action.
    fn fetch(&mut self) -> (action: Action)
        requires
            old(self).wf(),
            old(self).stage is Fetch,
        ensures
            final(self).wf(),
            final(self).ops@ == old(self).ops@,
            final(self).last == old(self).last,
            final(self).awaits() <==> action is Read,
            action matches Action::Read { reg } ==> final(self).awaited() == reg,
            faithful(*old(self), 0, action, *final(self)),
            action is Finished ==> forall|replies: Seq<u32>|
                (#[trigger] final(self).ahead(replies)) == (Run {
                    events: Seq::empty(),
                    used: 0,
                    end: End::Finished,
                }),
            action matches Action::TimedOut { left } ==> forall|replies: Seq<u32>|
                (#[trigger] final(self).ahead(replies)) == (Run {
                    events: Seq::empty(),
                    used: 0,
                    end: End::TimedOut { left: left as nat },
                }),
            !(action is Finished) && !(action is TimedOut) ==> final(self).remaining() < old(
                self,
            ).remaining(),
    {
        let ghost start = *self;
        proof {
            lemma_before_nothing();
            lemma_nothing_fed(start, 0);
        }
        while self.pc < self.ops.len()
            invariant
                self.wf(),
                self.stage is Fetch,
                self.ops@ == start.ops@,
                self.last == start.last,
                start == *old(self),
                !start.awaits(),
                forall|rest: Run| #[trigger] before(Seq::empty(), 0, rest) == rest,
                forall|replies: Seq<u32>| #[trigger] fed(start, 0) + replies == replies,
                self.remaining() <= start.remaining(),
                forall|replies: Seq<u32>| start.ahead(replies) == #[trigger] self.ahead(replies),
            decreases self.ops@.len() - self.pc,
        {
            proof {
                lemma_unfold(self.ops@, self.pc as int);
            }
            let ghost here = *self;
            match self.ops[self.pc] {
                Op::Read { reg } => {
                    self.stage = Stage::Reply;
                    assert(forall|replies: Seq<u32>|
                        here.ahead(replies) == #[trigger] self.ahead(replies));
                    return Action::Read { reg };
                },
                Op::Update { reg, .. } => {
                    self.stage = Stage::Reply;
                    assert(forall|replies: Seq<u32>|
                        here.ahead(replies) == #[trigger] self.ahead(replies));
                    return Action::Read { reg };
                },
                Op::Write { reg, value } => {
                    self.pc = self.pc + 1;
                    assert forall|replies: Seq<u32>|
                        here.ahead(replies) == before(
                            seq![Event::Write { reg, value }],
                            0,
                            #[trigger] self.ahead(replies),
                        ) by {
                        assert(replies.skip(0) =~= replies);
                    }
                    return Action::Write { reg, value };
                },
                Op::Delay { us } => {
                    self.pc = self.pc + 1;
                    assert forall|replies: Seq<u32>|
                        here.ahead(replies) == before(
                            seq![Event::Delay { us }],
                            0,
                            #[trigger] self.ahead(replies),
                        ) by {
                        assert(replies.skip(0) =~= replies);
                    }
                    return Action::Delay { us };
                },
                Op::Poll { reg, attempts, required, .. } => {
                    if attempts > 0 {
                        self.stage = Stage::PollReply { attempts };
                        return Action::Read { reg };
                    }
                    if required {
                        self.stage = Stage::Failed;
                        return Action::TimedOut { left: self.ops.len() - self.pc - 1 };
                    }
                    self.pc = self.pc + 1;
                    assert forall|replies: Seq<u32>| here.ahead(replies) == #[trigger] self.ahead(
                        replies,
                    ) by {
                        assert(replies.skip(0) =~= replies);
                    }
                },
            }
        }
        assert(self.ops@.skip(self.pc as int) =~= Seq::empty());
        Action::Finished
    }

    /// Where the current poll ends when every read misses.
    pub open spec fn missed(&self) -> End {
        match self.ops@[self.pc as int] {
            Op::Poll { required: true, .. } => End::TimedOut { left: self.later().len() },
            _ => End::Finished,
        }
    }
}

/// Whatever the device goes on to return, the script means from `from` on what
/// this call did followed by what it means from `to` on.
pub open spec fn faithful(from: Runner, reply: u32, action: Action, to: Runner) -> bool {
    forall|replies: Seq<u32>|
        from.ahead(fed(from, reply) + replies) == before(
            happened(from, reply, action),
            fed(from, reply).len(),
            #[trigger] to.ahead(replies),
        )
}

proof fn lemma_before_nothing()
    ensures
        forall|rest: Run| #[trigger] before(Seq::empty(), 0, rest) == rest,
{
    assert forall|rest: Run| #[trigger] before(Seq::empty(), 0, rest) == rest by {
        assert(Seq::empty() + rest.events =~= rest.events);
    }
}

proof fn lemma_nothing_fed(runner: Runner, reply: u32)
    ensures
        !runner.awaits() ==> forall|replies: Seq<u32>| #[trigger]
            fed(runner, reply) + replies == replies,
{
    assert forall|replies: Seq<u32>| !runner.awaits() implies #[trigger] fed(runner, reply)
        + replies == replies by {
        assert(fed(runner, reply) + replies =~= replies);
    }
}

proof fn lemma_first_skipped(reply: u32)
    ensures
        forall|replies: Seq<u32>| (#[trigger] (seq![reply] + replies)).skip(1) == replies,
{
    assert forall|replies: Seq<u32>| (#[trigger] (seq![reply] + replies)).skip(1) == replies by {
        assert((seq![reply] + replies).skip(1) =~= replies);
    }
}

proof fn lemma_answered(start: Runner, reply: u32, mid: Runner, action: Action, end: Runner)
    requires
        start.awaits(),
        !mid.awaits(),
        forall|replies: Seq<u32>|
            start.ahead(#[trigger] (seq![reply] + replies)) == before(
                seq![Event::Read { reg: start.awaited(), value: reply }],
                1,
                mid.ahead(replies),
            ),
        faithful(mid, 0, action, end),
    ensures
        faithful(start, reply, action, end),
{
    let answered = seq![Event::Read { reg: start.awaited(), value: reply }];
    assert forall|replies: Seq<u32>|
        start.ahead(fed(start, reply) + replies) == before(
            happened(start, reply, action),
            fed(start, reply).len(),
            #[trigger] end.ahead(replies),
        ) by {
        let rest = end.ahead(replies);
        lemma_nothing_fed(mid, 0);
        assert(fed(mid, 0) + replies == replies);
        assert(mid.ahead(replies) == before(happened(mid, 0, action), 0, rest));
        assert(happened(start, reply, action) =~= answered + happened(mid, 0, action));
        assert(start.ahead(seq![reply] + replies) == before(answered, 1, mid.ahead(replies)));
        lemma_before(answered, 1, happened(mid, 0, action), 0, rest);
    }
}

proof fn lemma_unfold(ops: Seq<Op>, pc: int)
    requires
        0 <= pc < ops.len(),
    ensures
        forall|replies: Seq<u32>|
            #[trigger] run(ops.skip(pc), replies) == and_then(
                run_op(ops[pc], ops.skip(pc + 1).len(), replies),
                ops.skip(pc + 1),
                replies,
            ),
        cost(ops.skip(pc)) == cost_op(ops[pc]) + cost(ops.skip(pc + 1)),
{
    assert(ops.skip(pc).drop_first() =~= ops.skip(pc + 1));
}

proof fn lemma_before(a: Seq<Event>, m: nat, b: Seq<Event>, n: nat, rest: Run)
    ensures
        before(a, m, before(b, n, rest)) == before(a + b, m + n, rest),
{
    assert(a + (b + rest.events) =~= (a + b) + rest.events);
}

proof fn lemma_poll_used(
    reg: Reg,
    mask: u32,
    value: u32,
    attempts: nat,
    interval_us: u32,
    patient: bool,
    missed: End,
    replies: Seq<u32>,
)
    ensures
        run_poll(reg, mask, value, attempts, interval_us, patient, missed, replies).used
            <= replies.len(),
    decreases attempts,
{
    if attempts > 0 && replies.len() > 0 {
        lemma_poll_used(
            reg,
            mask,
            value,
            (attempts - 1) as nat,
            interval_us,
            patient,
            missed,
            replies.drop_first(),
        );
    }
}

proof fn lemma_poll_miss(
    reg: Reg,
    mask: u32,
    value: u32,
    attempts: nat,
    interval_us: u32,
    patient: bool,
    missed: End,
    reply: u32,
    later: Seq<Op>,
    replies: Seq<u32>,
)
    requires
        reply & mask != value,
        attempts > 0 || patient,
    ensures
        and_then(
            run_poll(
                reg,
                mask,
                value,
                attempts + 1,
                interval_us,
                patient,
                missed,
                seq![reply] + replies,
            ),
            later,
            seq![reply] + replies,
        ) == before(
            seq![Event::Read { reg, value: reply }, Event::Delay { us: interval_us }],
            1,
            and_then(
                run_poll(reg, mask, value, attempts, interval_us, patient, missed, replies),
                later,
                replies,
            ),
        ),
{
    let all = seq![reply] + replies;
    let events = seq![Event::Read { reg, value: reply }, Event::Delay { us: interval_us }];
    let inner = run_poll(reg, mask, value, attempts, interval_us, patient, missed, replies);
    assert(all.drop_first() =~= replies);
    assert(run_poll(reg, mask, value, attempts + 1, interval_us, patient, missed, all) == before(
        events,
        1,
        inner,
    ));
    lemma_poll_used(reg, mask, value, attempts, interval_us, patient, missed, replies);
    assert(all.skip((1 + inner.used) as int) =~= replies.skip(inner.used as int));
    if inner.end is Finished {
        lemma_before(
            events,
            1,
            inner.events,
            inner.used,
            run(later, replies.skip(inner.used as int)),
        );
    }
}

/// The values that the device returned since the call before.
pub open spec fn fed(runner: Runner, reply: u32) -> Seq<u32> {
    if runner.awaits() {
        seq![reply]
    } else {
        Seq::empty()
    }
}

/// The events of one call: the read that was answered, then the action.
pub open spec fn happened(runner: Runner, reply: u32, action: Action) -> Seq<Event> {
    let answered = if runner.awaits() {
        seq![Event::Read { reg: runner.awaited(), value: reply }]
    } else {
        Seq::empty()
    };
    match action {
        Action::Write { reg, value } => answered.push(Event::Write { reg, value }),
        Action::Delay { us } => answered.push(Event::Delay { us }),
        _ => answered,
    }
}

/// A script followed by another one: once the first finishes, the second does
/// what it means on the values that the first left.
pub proof fn law_scripts_compose(first: Seq<Op>, second: Seq<Op>, replies: Seq<u32>)
    requires
        run(first, replies).end is Finished,
    ensures
        run(first, replies).used <= replies.len(),
        run(first + second, replies) == before(
            run(first, replies).events,
            run(first, replies).used,
            run(second, replies.skip(run(first, replies).used as int)),
        ),
    decreases first.len(),
{
    if first.len() == 0 {
        assert(first + second =~= second);
        assert(replies.skip(0) =~= replies);
        lemma_before_nothing();
    } else {
        let op = first[0];
        let tail = first.drop_first();
        let all = first + second;
        let short = run_op(op, tail.len(), replies);
        let long = run_op(op, (all.len() - 1) as nat, replies);
        assert(all.drop_first() =~= tail + second);
        lemma_op_used(op, tail.len(), replies);
        lemma_left_immaterial(op, tail.len(), (all.len() - 1) as nat, replies);
        let rest = replies.skip(short.used as int);
        law_scripts_compose(tail, second, rest);
        let inner = run(tail, rest);
        assert(replies.skip((short.used + inner.used) as int) =~= rest.skip(inner.used as int));
        lemma_before(
            short.events,
            short.used,
            inner.events,
            inner.used,
            run(second, rest.skip(inner.used as int)),
        );
    }
}

proof fn lemma_op_used(op: Op, left: nat, replies: Seq<u32>)
    ensures
        run_op(op, left, replies).used <= replies.len(),
{
    if let Op::Poll { reg, mask, value, attempts, interval_us, patient, required } = op {
        lemma_poll_used(
            reg,
            mask,
            value,
            attempts as nat,
            interval_us,
            patient,
            if required {
                End::TimedOut { left }
            } else {
                End::Finished
            },
            replies,
        );
    }
}

/// A step that finishes does the same whatever follows it.
proof fn lemma_left_immaterial(op: Op, m: nat, n: nat, replies: Seq<u32>)
    requires
        run_op(op, m, replies).end is Finished,
    ensures
        run_op(op, n, replies) == run_op(op, m, replies),
{
    if let Op::Poll { reg, mask, value, attempts, interval_us, patient, required } = op {
        if required {
            lemma_poll_left(reg, mask, value, attempts as nat, interval_us, patient, m, n, replies);
        }
    }
}

proof fn lemma_poll_left(
    reg: Reg,
    mask: u32,
    value: u32,
    attempts: nat,
    interval_us: u32,
    patient: bool,
    m: nat,
    n: nat,
    replies: Seq<u32>,
)
    requires
        run_poll(
            reg,
            mask,
            value,
            attempts,
            interval_us,
            patient,
            End::TimedOut { left: m },
            replies,
        ).end is Finished,
    ensures
        run_poll(reg, mask, value, attempts, interval_us, patient, End::TimedOut { left: n }, replies)
            == run_poll(
            reg,
            mask,
            value,
            attempts,
            interval_us,
            patient,
            End::TimedOut { left: m },
            replies,
        ),
    decreases attempts,
{
    if attempts > 0 && replies.len() > 0 && replies[0] & mask != value && (attempts > 1
        || patient) {
        lemma_poll_left(
            reg,
            mask,
            value,
            (attempts - 1) as nat,
            interval_us,
            patient,
            m,
            n,
            replies.drop_first(),
        );
    }
}

/// Registers after the events, if they hold what was last written to them and
/// the reads returned just that; `None` if some read returned another value.
pub open spec fn replay(events: Seq<Event>, regs: Map<Reg, u32>) -> Option<Map<Reg, u32>>
    decreases events.len(),
{
    if events.len() == 0 {
        Some(regs)
    } else {
        match events[0] {
            Event::Read { reg, value } => if regs[reg] == value {
                replay(events.drop_first(), regs)
            } else {
                None
            },
            Event::Write { reg, value } => replay(events.drop_first(), regs.insert(reg, value)),
            Event::Delay { .. } => replay(events.drop_first(), regs),
        }
    }
}

/// What a script leaves in registers that hold what was last written to them.
pub open spec fn settle(ops: Seq<Op>, regs: Map<Reg, u32>) -> Map<Reg, u32>
    decreases ops.len(),
{
    if ops.len() == 0 {
        regs
    } else {
        settle(ops.drop_first(), settle_op(ops[0], regs))
    }
}

/// What one step leaves in such registers.
pub open spec fn settle_op(op: Op, regs: Map<Reg, u32>) -> Map<Reg, u32> {
    match op {
        Op::Write { reg, value } => regs.insert(reg, value),
        Op::Update { reg, clear, set } => regs.insert(reg, updated(regs[reg], clear, set)),
        _ => regs,
    }
}

/// Scripts one after the other act one after the other.
pub broadcast proof fn settle_append(a: Seq<Op>, b: Seq<Op>, regs: Map<Reg, u32>)
    ensures
        #[trigger] settle(a + b, regs) == settle(b, settle(a, regs)),
    decreases a.len(),
{
    if a.len() == 0 {
        assert(a + b =~= b);
    } else {
        settle_append(a.drop_first(), b, settle_op(a[0], regs));
        assert((a + b).drop_first() =~= a.drop_first() + b);
    }
}

/// A short script acts step by step.
pub broadcast proof fn settle_steps(ops: Seq<Op>, regs: Map<Reg, u32>)
    ensures
        #![trigger settle(ops, regs)]
        ops.len() == 0 ==> settle(ops, regs) == regs,
        ops.len() == 1 ==> settle(ops, regs) == settle_op(ops[0], regs),
        ops.len() == 2 ==> settle(ops, regs) == settle_op(ops[1], settle_op(ops[0], regs)),
        ops.len() == 3 ==> settle(ops, regs) == settle_op(ops[2], settle_op(ops[1], settle_op(ops[0], regs))),
        ops.len() == 4 ==> settle(ops, regs) == settle_op(ops[3], settle_op(ops[2], settle_op(ops[1], settle_op(ops[0], regs)))),
        ops.len() == 5 ==> settle(ops, regs) == settle_op(ops[4], settle_op(ops[3], settle_op(ops[2], settle_op(ops[1], settle_op(ops[0], regs))))),
        ops.len() == 6 ==> settle(ops, regs) == settle_op(ops[5], settle_op(ops[4], settle_op(ops[3], settle_op(ops[2], settle_op(ops[1], settle_op(ops[0], regs)))))),
        ops.len() == 7 ==> settle(ops, regs) == settle_op(ops[6], settle_op(ops[5], settle_op(ops[4], settle_op(ops[3], settle_op(ops[2], settle_op(ops[1], settle_op(ops[0], regs))))))),
{
    reveal_with_fuel(settle, 8);
}

/// Reads leave the registers as they are.
pub proof fn settle_reads(ops: Seq<Op>, regs: Map<Reg, u32>)
    requires
        forall|i: int| 0 <= i < ops.len() ==> (#[trigger] ops[i]) is Read,
    ensures
        settle(ops, regs) == regs,
    decreases ops.len(),
{
    if ops.len() > 0 {
        let rest = ops.drop_first();
        assert forall|i: int| 0 <= i < rest.len() implies (#[trigger] rest[i]) is Read by {
            assert(rest[i] == ops[i + 1]);
        }
        settle_reads(rest, regs);
        assert(ops[0] is Read);
    }
}

pub broadcast group group_settle {
    settle_steps,
    settle_append,
}

/// On registers that hold what was last written to them, a script that
/// finishes leaves what [`settle`] says.
pub proof fn law_finished_script_settles(
    ops: Seq<Op>,
    replies: Seq<u32>,
    regs: Map<Reg, u32>,
)
    requires
        run(ops, replies).end is Finished,
        replay(run(ops, replies).events, regs) is Some,
    ensures
        replay(run(ops, replies).events, regs) == Some(settle(ops, regs)),
    decreases ops.len(),
{
    if ops.len() > 0 {
        let left = (ops.len() - 1) as nat;
        let first = run_op(ops[0], left, replies);
        let tail = ops.drop_first();
        let rest = replies.skip(first.used as int);
        lemma_replay_split(first.events, run(tail, rest).events, regs);
        lemma_op_settles(ops[0], left, replies, regs);
        law_finished_script_settles(tail, rest, settle_op(ops[0], regs));
    }
}

proof fn lemma_replay_split(a: Seq<Event>, b: Seq<Event>, regs: Map<Reg, u32>)
    ensures
        replay(a + b, regs) == match replay(a, regs) {
            Some(mid) => replay(b, mid),
            None => None,
        },
    decreases a.len(),
{
    if a.len() == 0 {
        assert(a + b =~= b);
    } else {
        assert((a + b).drop_first() =~= a.drop_first() + b);
        match a[0] {
            Event::Write { reg, value } => {
                lemma_replay_split(a.drop_first(), b, regs.insert(reg, value));
            },
            _ => {
                lemma_replay_split(a.drop_first(), b, regs);
            },
        }
    }
}

proof fn lemma_op_settles(op: Op, left: nat, replies: Seq<u32>, regs: Map<Reg, u32>)
    requires
        run_op(op, left, replies).end is Finished,
        replay(run_op(op, left, replies).events, regs) is Some,
    ensures
        replay(run_op(op, left, replies).events, regs) == Some(settle_op(op, regs)),
{
    reveal_with_fuel(replay, 3);
    let events = run_op(op, left, replies).events;
    match op {
        Op::Poll { reg, mask, value, attempts, interval_us, patient, required } => {
            lemma_poll_settles(
                reg,
                mask,
                value,
                attempts as nat,
                interval_us,
                patient,
                if required {
                    End::TimedOut { left }
                } else {
                    End::Finished
                },
                replies,
                regs,
            );
        },
        Op::Update { reg, clear, set } => {
            assert(events.drop_first() =~= seq![events[1]]);
            assert(events.drop_first().drop_first() =~= Seq::empty());
        },
        _ => {
            assert(events.drop_first() =~= Seq::empty());
        },
    }
}

proof fn lemma_poll_settles(
    reg: Reg,
    mask: u32,
    value: u32,
    attempts: nat,
    interval_us: u32,
    patient: bool,
    missed: End,
    replies: Seq<u32>,
    regs: Map<Reg, u32>,
)
    requires
        replay(
            run_poll(reg, mask, value, attempts, interval_us, patient, missed, replies).events,
            regs,
        ) is Some,
    ensures
        replay(run_poll(reg, mask, value, attempts, interval_us, patient, missed, replies).events, regs)
            == Some(regs),
    decreases attempts,
{
    reveal_with_fuel(replay, 3);
    if attempts > 0 && replies.len() > 0 {
        if replies[0] & mask == value || (attempts == 1 && !patient) {
            let events = run_poll(
                reg,
                mask,
                value,
                attempts,
                interval_us,
                patient,
                missed,
                replies,
            ).events;
            assert(events.drop_first() =~= Seq::empty());
        } else {
            let head = seq![
                Event::Read { reg, value: replies[0] },
                Event::Delay { us: interval_us },
            ];
            let inner = run_poll(
                reg,
                mask,
                value,
                (attempts - 1) as nat,
                interval_us,
                patient,
                missed,
                replies.drop_first(),
            );
            lemma_replay_split(head, inner.events, regs);
            assert(head.drop_first() =~= seq![Event::Delay { us: interval_us }]);
            assert(head.drop_first().drop_first() =~= Seq::empty());
            lemma_poll_settles(
                reg,
                mask,
                value,
                (attempts - 1) as nat,
                interval_us,
                patient,
                missed,
                replies.drop_first(),
                regs,
            );
        }
    }
}

/// An update sets the bits to set, clears the other bits to clear, and keeps
/// the rest.
pub proof fn law_updated_bits(value: u32, clear: u32, set: u32, index: u32)
    requires
        index < 32,
    ensures
        crate::bits::bit(updated(value, clear, set), index) == (crate::bits::bit(set, index) || (
        crate::bits::bit(value, index) && !crate::bits::bit(clear, index))),
{
    broadcast use crate::bits::group_bits;

}

/// A poll ends at the first read whose masked bits are those asked for, and
/// misses only if it read as often as it may and no read had them.
pub proof fn law_polls_end_at_the_first_match(
    reg: Reg,
    mask: u32,
    value: u32,
    attempts: nat,
    interval_us: u32,
    patient: bool,
    left: nat,
    replies: Seq<u32>,
)
    ensures
        ({
            let run = run_poll(
                reg,
                mask,
                value,
                attempts,
                interval_us,
                patient,
                End::TimedOut { left },
                replies,
            );
            &&& run.used <= attempts && run.used <= replies.len()
            &&& run.end is Finished ==> run.used > 0 && replies[run.used - 1] & mask == value
            &&& forall|i: int|
                0 <= i < run.used && (i < run.used - 1 || !(run.end is Finished)) ==> #[trigger]
                    replies[i] & mask != value
            &&& run.end is TimedOut <==> run.used == attempts && !(run.end is Finished)
            &&& run.end is Waiting ==> run.used == replies.len()
        }),
    decreases attempts,
{
    if attempts > 0 && replies.len() > 0 && replies[0] & mask != value && !(attempts == 1
        && !patient) {
        let rest = replies.drop_first();
        let next = run_poll(
            reg,
            mask,
            value,
            (attempts - 1) as nat,
            interval_us,
            patient,
            End::TimedOut { left },
            rest,
        );
        law_polls_end_at_the_first_match(
            reg,
            mask,
            value,
            (attempts - 1) as nat,
            interval_us,
            patient,
            left,
            rest,
        );
        assert forall|i: int|
            0 <= i < next.used + 1 && (i < next.used || !(next.end is Finished)) implies #[trigger]
            replies[i] & mask != value by {
            if i > 0 {
                assert(replies[i] == rest[i - 1]);
            }
        }
        if next.end is Finished {
            assert(replies[next.used as int] == rest[next.used - 1]);
        }
    }
}

} // verus!
