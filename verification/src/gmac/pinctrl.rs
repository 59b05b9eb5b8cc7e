//! Pin set-up for the second Ethernet controller of the COM260 board.
//!
//! Only the pin state of that controller is known here; for any other one the
//! pins are left as the firmware set them.

use vstd::prelude::*;
use fdt_edit::Node;
use crate::fdt;
use crate::fdt::{has_compatible, prop_u32_list};
use crate::script::{Op, Reg, Script, Window};

verus! {

/// The control register offset that tells the controller apart.
pub const K3_GMAC1_CTRL_OFFSET: u32 = 0x3ec;

/// Function field of a pin register.
pub const PAD_MUX: u32 = 0x7;
/// Drive strength field of a pin register.
pub const PAD_DRIVE_K3: u32 = 0xf << 9;
pub const PAD_DRIVE_SHIFT: u32 = 9;

/// Clock gate of the pin controller.
pub const APBC_AIB_CLK_RST: u32 = 0x3c;
pub const APBC_AIB_CLK_EN: u32 = 1 << 1;
pub const APBC_AIB_BUS_CLK_EN: u32 = 1 << 0;

/// Access keys of the IO power-domain registers.
pub const APBC_ASFAR: u32 = 0x00;
pub const APBC_ASSAR: u32 = 0x04;
pub const APBC_ASFAR_AKEY: u32 = 0xbaba;
pub const APBC_ASSAR_AKEY: u32 = 0xeb10;

/// 1.8 V selection of an IO power-domain register.
pub const IO_PWR_DOMAIN_V18EN: u32 = 1 << 2;

/// A register window: physical address and size.
#[derive(Clone, Copy, Debug, PartialEq, Eq, Structural)]
pub struct Region {
    pub address: u64,
    pub size: u64,
}

/// An entry of a node's `reg` property, translated to physical addresses.
#[derive(Clone, Copy, Debug, PartialEq, Eq)]
pub struct RegEntry {
    pub address: u64,
    pub size: Option<u64>,
}

/// Why the pin set-up cannot be determined.
#[derive(Clone, Copy, Debug, PartialEq, Eq, Structural)]
pub enum PinctrlError {
    /// The node has no `pinctrl-0`.
    MissingState,
    /// `pinctrl-0` names no node.
    StateNotFound,
    /// The state has no parent.
    NoController,
    /// The state's parent is not a pin controller of this kind.
    WrongController,
    /// The controller has no pin registers.
    MissingPinRegs,
    /// The controller has no IO power-domain registers.
    MissingIoPowerRegs,
    /// `spacemit,apbc` has fewer than two cells.
    MalformedApbc,
    /// `spacemit,apbc` names no node.
    ApbcNotFound,
    /// The clock unit has no registers.
    MissingApbcRegs,
}

/// Pin and function of one signal.
#[derive(Clone, Copy, Debug)]
pub struct K3PinMux {
    pub pin: u16,
    pub mux: u16,
    pub signal: &'static str,
}

impl K3PinMux {
    /// The pin that carries `signal` when set to function `mux`.
    pub fn new(pin: u16, mux: u16, signal: &'static str) -> (entry: K3PinMux)
        ensures
            entry.pin == pin,
            entry.mux == mux,
            entry.signal@ == signal@,
    {
        K3PinMux { pin, mux, signal }
    }
}

/// Signals that share a drive strength.
#[derive(Debug)]
pub struct K3PinGroup {
    pub drive_ma: u32,
    pub pins: Vec<K3PinMux>,
}

/// Pin, function and drive strength of one signal.
pub struct PinSetting {
    pub pin: u16,
    pub mux: u16,
    pub drive_ma: u32,
}

/// The pin state of the controller, in the order in which it is applied.
pub open spec fn gmac1_state() -> Seq<PinSetting> {
    seq![
        PinSetting { pin: 21, mux: 1, drive_ma: 9 },
        PinSetting { pin: 22, mux: 1, drive_ma: 9 },
        PinSetting { pin: 23, mux: 1, drive_ma: 9 },
        PinSetting { pin: 24, mux: 1, drive_ma: 9 },
        PinSetting { pin: 27, mux: 1, drive_ma: 9 },
        PinSetting { pin: 28, mux: 1, drive_ma: 9 },
        PinSetting { pin: 32, mux: 1, drive_ma: 9 },
        PinSetting { pin: 33, mux: 1, drive_ma: 9 },
        PinSetting { pin: 34, mux: 1, drive_ma: 9 },
        PinSetting { pin: 25, mux: 1, drive_ma: 9 },
        PinSetting { pin: 26, mux: 1, drive_ma: 9 },
        PinSetting { pin: 29, mux: 1, drive_ma: 9 },
        PinSetting { pin: 30, mux: 1, drive_ma: 9 },
        PinSetting { pin: 31, mux: 1, drive_ma: 9 },
        PinSetting { pin: 35, mux: 1, drive_ma: 9 },
        PinSetting { pin: 37, mux: 0, drive_ma: 25 },
    ]
}

/// The settings of one group.
pub open spec fn group_settings(group: K3PinGroup) -> Seq<PinSetting> {
    Seq::new(
        group.pins@.len(),
        |i: int|
            PinSetting {
                pin: group.pins@[i].pin,
                mux: group.pins@[i].mux,
                drive_ma: group.drive_ma,
            },
    )
}

/// The settings of several groups.
pub open spec fn all_settings(groups: Seq<K3PinGroup>) -> Seq<PinSetting>
    decreases groups.len(),
{
    if groups.len() == 0 {
        Seq::empty()
    } else {
        all_settings(groups.drop_last()) + group_settings(groups.last())
    }
}

/// The pin groups of the controller.
pub fn gmac1_pins() -> (groups: Vec<K3PinGroup>)
    ensures
        all_settings(groups@) == gmac1_state(),
{
    let mut groups: Vec<K3PinGroup> = Vec::new();
    groups.push(
        K3PinGroup {
            drive_ma: 9,
            pins: vec![
                K3PinMux::new(21, 1, "rx_ctl"),
                K3PinMux::new(22, 1, "rx_d0"),
                K3PinMux::new(23, 1, "rx_d1"),
                K3PinMux::new(24, 1, "rx_clk"),
                K3PinMux::new(27, 1, "tx_d0"),
                K3PinMux::new(28, 1, "tx_d1"),
                K3PinMux::new(32, 1, "tx_ctl"),
                K3PinMux::new(33, 1, "mdc"),
                K3PinMux::new(34, 1, "mdio"),
            ],
        },
    );
    groups.push(
        K3PinGroup {
            drive_ma: 9,
            pins: vec![
                K3PinMux::new(25, 1, "rx_d2"),
                K3PinMux::new(26, 1, "rx_d3"),
                K3PinMux::new(29, 1, "tx_clk"),
                K3PinMux::new(30, 1, "tx_d2"),
                K3PinMux::new(31, 1, "tx_d3"),
            ],
        },
    );
    groups.push(
        K3PinGroup { drive_ma: 9, pins: vec![K3PinMux::new(35, 1, "phy_int")] },
    );
    groups.push(
        K3PinGroup { drive_ma: 25, pins: vec![K3PinMux::new(37, 0, "com260_gpio37")] },
    );
    proof {
        reveal_with_fuel(all_settings, 5);
        let g = groups@;
        assert(g.drop_last().last() == g[2]);
        assert(g.drop_last().drop_last().last() == g[1]);
        assert(g.drop_last().drop_last().drop_last().last() == g[0]);
        assert(all_settings(g) =~= gmac1_state());
    }
    groups
}

/// A node together with its register windows.
pub struct Located<'a> {
    pub node: &'a Node,
    pub regs: Vec<RegEntry>,
}

/// Register windows of the pin controller.
#[derive(Clone, Copy, Debug, PartialEq, Eq, Structural)]
pub struct K3GmacPinctrl {
    pub pins: Region,
    pub io_power: Region,
    pub apbc: Region,
    pub apbc_unlock_offset: u32,
}

/// A window of at least `least` bytes.
pub open spec fn window(entry: RegEntry, least: u64) -> Region {
    Region {
        address: entry.address,
        size: match entry.size {
            Some(size) => if size > least {
                size
            } else {
                least
            },
            None => least,
        },
    }
}

fn region(entry: &RegEntry, least: u64) -> (region: Region)
    ensures
        region == window(*entry, least),
{
    let size: u64 = match entry.size {
        Some(size) => {
            if size > least {
                size
            } else {
                least
            }
        },
        None => least,
    };
    Region { address: entry.address, size }
}

/// The phandle of a node's first pin state.
pub fn state_phandle(node: &Node) -> (phandle: Option<u32>)
    ensures
        phandle == (if fdt::numbers(*node, "pinctrl-0"@).len() > 0 {
            Some(fdt::numbers(*node, "pinctrl-0"@)[0])
        } else {
            None
        }),
{
    let phandles = prop_u32_list(node, "pinctrl-0");
    if phandles.len() > 0 {
        Some(phandles[0])
    } else {
        None
    }
}

/// The clock unit that a pin controller names: phandle and offset of the
/// access keys. Both cells of `spacemit,apbc` are needed.
pub fn apbc_reference(controller: &Node) -> (reference: Option<(u32, u32)>)
    ensures
        reference == (if fdt::numbers(*controller, "spacemit,apbc"@).len() >= 2 {
            Some(
                (
                    fdt::numbers(*controller, "spacemit,apbc"@)[0],
                    fdt::numbers(*controller, "spacemit,apbc"@)[1],
                ),
            )
        } else {
            None
        }),
{
    let cells = prop_u32_list(controller, "spacemit,apbc");
    if cells.len() < 2 {
        None
    } else {
        Some((cells[0], cells[1]))
    }
}

/// A controller of the right kind, and why not.
pub open spec fn controller_fault(controller: Option<Located>) -> Option<PinctrlError> {
    match controller {
        None => Some(PinctrlError::NoController),
        Some(found) => if !fdt::strings(*found.node, "compatible"@).contains("spacemit,k3-pinctrl"@) {
            Some(PinctrlError::WrongController)
        } else if found.regs@.len() < 1 {
            Some(PinctrlError::MissingPinRegs)
        } else if found.regs@.len() < 2 {
            Some(PinctrlError::MissingIoPowerRegs)
        } else if fdt::numbers(*found.node, "spacemit,apbc"@).len() < 2 {
            Some(PinctrlError::MalformedApbc)
        } else {
            None
        },
    }
}

/// The clock unit has registers, and why not.
pub open spec fn apbc_fault(apbc: Option<Vec<RegEntry>>) -> Option<PinctrlError> {
    match apbc {
        None => Some(PinctrlError::ApbcNotFound),
        Some(regs) => if regs@.len() < 1 {
            Some(PinctrlError::MissingApbcRegs)
        } else {
            None
        },
    }
}

/// What stands in the way of the pin set-up, the first fault in the order in
/// which the nodes refer to one another.
pub open spec fn fault(
    node: Node,
    state_found: bool,
    controller: Option<Located>,
    apbc: Option<Vec<RegEntry>>,
) -> Option<PinctrlError> {
    if fdt::numbers(node, "pinctrl-0"@).len() == 0 {
        Some(PinctrlError::MissingState)
    } else if !state_found {
        Some(PinctrlError::StateNotFound)
    } else if controller_fault(controller) is Some {
        controller_fault(controller)
    } else {
        apbc_fault(apbc)
    }
}

impl K3GmacPinctrl {
    /// The register windows for the pin set-up of the controller that `node`
    /// describes; none for a controller whose pin state is not known.
    ///
    /// `state_found` tells whether [`state_phandle`] names a node, `controller`
    /// is that node's parent, and `apbc` are the windows of the node that
    /// [`apbc_reference`] names.
    pub fn parse(
        node: &Node,
        ctrl_offset: u32,
        state_found: bool,
        controller: Option<Located>,
        apbc: Option<Vec<RegEntry>>,
    ) -> (result: Result<Option<K3GmacPinctrl>, PinctrlError>)
        ensures
            ctrl_offset != K3_GMAC1_CTRL_OFFSET ==> result == Ok::<
                Option<K3GmacPinctrl>,
                PinctrlError,
            >(None),
            ctrl_offset == K3_GMAC1_CTRL_OFFSET ==> match fault(
                *node,
                state_found,
                controller,
                apbc,
            ) {
                Some(error) => result == Err::<Option<K3GmacPinctrl>, PinctrlError>(error),
                None => result == Ok::<Option<K3GmacPinctrl>, PinctrlError>(
                    Some(
                        K3GmacPinctrl {
                            pins: window(controller->0.regs@[0], 0x400),
                            io_power: window(controller->0.regs@[1], 0x34),
                            apbc: window(apbc->0@[0], 0x1000),
                            apbc_unlock_offset: fdt::numbers(
                                *controller->0.node,
                                "spacemit,apbc"@,
                            )[1],
                        },
                    ),
                ),
            },
    {
        if ctrl_offset != K3_GMAC1_CTRL_OFFSET {
            return Ok(None);
        }
        if state_phandle(node).is_none() {
            return Err(PinctrlError::MissingState);
        }
        if !state_found {
            return Err(PinctrlError::StateNotFound);
        }
        let controller = match controller {
            Some(controller) => controller,
            None => {
                return Err(PinctrlError::NoController);
            },
        };
        if !has_compatible(controller.node, "spacemit,k3-pinctrl") {
            return Err(PinctrlError::WrongController);
        }
        if controller.regs.len() < 1 {
            return Err(PinctrlError::MissingPinRegs);
        }
        if controller.regs.len() < 2 {
            return Err(PinctrlError::MissingIoPowerRegs);
        }
        let apbc_unlock_offset: u32 = match apbc_reference(controller.node) {
            Some((_, offset)) => offset,
            None => {
                return Err(PinctrlError::MalformedApbc);
            },
        };
        let apbc_regs = match apbc {
            Some(regs) => regs,
            None => {
                return Err(PinctrlError::ApbcNotFound);
            },
        };
        if apbc_regs.len() < 1 {
            return Err(PinctrlError::MissingApbcRegs);
        }
        Ok(
            Some(
                K3GmacPinctrl {
                    pins: region(&controller.regs[0], 0x400),
                    io_power: region(&controller.regs[1], 0x34),
                    apbc: region(&apbc_regs[0], 0x1000),
                    apbc_unlock_offset,
                },
            ),
        )
    }

    /// A pin register.
    pub open spec fn pin_reg(offset: u32) -> Reg {
        Reg { window: Window::Pins, offset: offset as usize }
    }

    /// An IO power-domain register.
    pub open spec fn io_reg(offset: u32) -> Reg {
        Reg { window: Window::IoPower, offset: offset as usize }
    }

    /// A clock unit register.
    pub open spec fn apbc_reg(offset: u32) -> Reg {
        Reg { window: Window::Apbc, offset: offset as usize }
    }

    /// Turns the clocks of the pin controller on.
    pub open spec fn clock_ops() -> Seq<Op> {
        seq![
            Op::Update {
                reg: K3GmacPinctrl::apbc_reg(APBC_AIB_CLK_RST),
                clear: 0,
                set: APBC_AIB_CLK_EN | APBC_AIB_BUS_CLK_EN,
            },
            Op::Read { reg: K3GmacPinctrl::apbc_reg(APBC_AIB_CLK_RST) },
        ]
    }

    /// Turns the clocks of the pin controller on.
    pub fn enable_aib_clocks(&self) -> (script: Script)
        ensures
            script@ == K3GmacPinctrl::clock_ops(),
    {
        let reg = Reg { window: Window::Apbc, offset: APBC_AIB_CLK_RST as usize };
        let mut script = Script::new();
        script.update(reg, 0, APBC_AIB_CLK_EN | APBC_AIB_BUS_CLK_EN);
        script.read(reg);
        script
    }

    /// Writes both access keys.
    pub open spec fn unlock_ops(self) -> Seq<Op> {
        seq![
            Op::Write {
                reg: K3GmacPinctrl::apbc_reg((self.apbc_unlock_offset + APBC_ASFAR) as u32),
                value: APBC_ASFAR_AKEY,
            },
            Op::Write {
                reg: K3GmacPinctrl::apbc_reg((self.apbc_unlock_offset + APBC_ASSAR) as u32),
                value: APBC_ASSAR_AKEY,
            },
        ]
    }

    /// Sets the IO power domain of a pin to 1.8 V, with the access keys before
    /// and after the write. A pin without a power domain is left alone.
    pub open spec fn io_power_ops(self, pin: u16) -> Seq<Op> {
        if io_pd_offset(pin) == 0 {
            Seq::empty()
        } else {
            self.unlock_ops() + seq![
                Op::Write {
                    reg: K3GmacPinctrl::io_reg(io_pd_offset(pin)),
                    value: IO_PWR_DOMAIN_V18EN,
                },
            ] + self.unlock_ops() + seq![
                Op::Read { reg: K3GmacPinctrl::io_reg(io_pd_offset(pin)) },
            ]
        }
    }

    fn unlock(&self) -> (script: Script)
        requires
            self.apbc_unlock_offset + APBC_ASSAR <= u32::MAX,
        ensures
            script@ == self.unlock_ops(),
    {
        let mut script = Script::new();
        let first: u32 = self.apbc_unlock_offset + APBC_ASFAR;
        let second: u32 = self.apbc_unlock_offset + APBC_ASSAR;
        script.write(Reg { window: Window::Apbc, offset: first as usize }, APBC_ASFAR_AKEY);
        script.write(Reg { window: Window::Apbc, offset: second as usize }, APBC_ASSAR_AKEY);
        script
    }

    /// Sets the IO power domain of a pin to 1.8 V.
    pub fn set_io_power_1v8(&self, pin: u16) -> (script: Script)
        requires
            self.apbc_unlock_offset + APBC_ASSAR <= u32::MAX,
        ensures
            script@ == self.io_power_ops(pin),
    {
        let offset: u32 = io_pd_offset(pin);
        if offset == 0 {
            return Script::new();
        }
        let reg = Reg { window: Window::IoPower, offset: offset as usize };
        let mut script = self.unlock();
        script.write(reg, IO_PWR_DOMAIN_V18EN);
        script.append(self.unlock());
        script.read(reg);
        assert(script@ =~= self.io_power_ops(pin));
        script
    }

    /// Configures a pin without bias, keeping its function, and then sets its
    /// function.
    pub open spec fn pin_ops(pin: u16, mux: u16, drive_ma: u32) -> Seq<Op> {
        let reg = K3GmacPinctrl::pin_reg(pin_register(pin));
        seq![
            Op::Update { reg, clear: !PAD_MUX, set: drive_field(drive_ma) },
            Op::Update { reg, clear: PAD_MUX, set: mux as u32 },
            Op::Read { reg },
        ]
    }

    /// Configures a pin and sets its function.
    pub fn apply_pin(&self, pin: K3PinMux, drive_ma: u32) -> (script: Script)
        ensures
            script@ == K3GmacPinctrl::pin_ops(pin.pin, pin.mux, drive_ma),
    {
        let reg = Reg { window: Window::Pins, offset: pin_reg_offset(pin.pin) as usize };
        let strength: u32 = drive_strength_config_1v8(drive_ma);
        let bias: u32 = bias_disable_config();
        proof {
            crate::bits::lemma_bytes(strength, 0);
        }
        let mut script = Script::new();
        script.update(reg, !PAD_MUX, bias | strength);
        script.update(reg, PAD_MUX, pin.mux as u32);
        script.read(reg);
        script
    }

    /// Power and configuration of some pins, one after another.
    pub open spec fn settings_ops(self, settings: Seq<PinSetting>) -> Seq<Op>
        decreases settings.len(),
    {
        if settings.len() == 0 {
            Seq::empty()
        } else {
            let last = settings.last();
            self.settings_ops(settings.drop_last()) + self.io_power_ops(last.pin)
                + K3GmacPinctrl::pin_ops(last.pin, last.mux, last.drive_ma)
        }
    }

    /// Applies the pin state of the controller.
    pub fn apply(&self) -> (script: Script)
        requires
            self.apbc_unlock_offset + APBC_ASSAR <= u32::MAX,
        ensures
            script@ == K3GmacPinctrl::clock_ops() + self.settings_ops(gmac1_state()),
    {
        let mut script = self.enable_aib_clocks();
        let groups = gmac1_pins();
        let ghost mut done: Seq<PinSetting> = Seq::empty();
        assert(all_settings(groups@.take(0)) =~= Seq::empty());
        assert(script@ =~= K3GmacPinctrl::clock_ops() + self.settings_ops(done));
        for i in 0..groups.len()
            invariant
                self.apbc_unlock_offset + APBC_ASSAR <= u32::MAX,
                done == all_settings(groups@.take(i as int)),
                script@ == K3GmacPinctrl::clock_ops() + self.settings_ops(done),
        {
            let group = &groups[i];
            let ghost before = done;
            assert(group_settings(*group).take(0) =~= Seq::empty());
            assert(before + group_settings(*group).take(0) =~= before);
            for j in 0..group.pins.len()
                invariant
                    self.apbc_unlock_offset + APBC_ASSAR <= u32::MAX,
                    done == before + group_settings(*group).take(j as int),
                    script@ == K3GmacPinctrl::clock_ops() + self.settings_ops(done),
            {
                let pin = group.pins[j];
                script.append(self.set_io_power_1v8(pin.pin));
                script.append(self.apply_pin(pin, group.drive_ma));
                proof {
                    let setting = group_settings(*group)[j as int];
                    let more = done.push(setting);
                    assert(more.drop_last() =~= done);
                    assert(script@ =~= K3GmacPinctrl::clock_ops() + self.settings_ops(more));
                    assert(more =~= before + group_settings(*group).take(j + 1));
                    done = more;
                }
            }
            proof {
                assert(group_settings(*group).take(group.pins@.len() as int) =~= group_settings(
                    *group,
                ));
                assert(groups@.take(i + 1).drop_last() =~= groups@.take(i as int));
                assert(groups@.take(i + 1).last() == *group);
            }
        }
        assert(groups@.take(groups@.len() as int) =~= groups@);
        script
    }
}

/// The pin configuration without bias.
#[verifier::allow_in_spec]
pub fn bias_disable_config() -> (config: u32)
    returns
        0u32,
{
    0
}

/// Drive strengths at 1.8 V, in milliamperes, weakest first. One more setting
/// drives harder still.
pub open spec fn drive_strengths_1v8() -> Seq<u32> {
    seq![2, 4, 6, 7, 9, 11, 13, 14, 21, 23, 25, 26, 28, 30, 31]
}

/// The weakest setting that gives at least `ma`.
pub open spec fn drive_code(ma: u32, code: u32) -> bool {
    &&& code <= 15
    &&& code < 15 ==> ma <= drive_strengths_1v8()[code as int]
    &&& forall|i: int| 0 <= i < code ==> #[trigger] drive_strengths_1v8()[i] < ma
}

/// The drive strength field for a strength at 1.8 V.
pub open spec fn drive_field(ma: u32) -> u32 {
    (choose|code: u32| drive_code(ma, code)) << PAD_DRIVE_SHIFT & PAD_DRIVE_K3
}

/// The drive strength field for a strength at 1.8 V: the weakest setting that
/// gives at least `ma`.
pub fn drive_strength_config_1v8(ma: u32) -> (field: u32)
    ensures
        field == drive_field(ma),
        exists|code: u32| #[trigger] drive_code(ma, code) && field == code << PAD_DRIVE_SHIFT,
{
    let value: u32 = match ma {
        0..=2 => 0,
        3..=4 => 1,
        5..=6 => 2,
        7 => 3,
        8..=9 => 4,
        10..=11 => 5,
        12..=13 => 6,
        14 => 7,
        15..=21 => 8,
        22..=23 => 9,
        24..=25 => 10,
        26 => 11,
        27..=28 => 12,
        29..=30 => 13,
        31 => 14,
        _ => 15,
    };
    proof {
        assert(drive_code(ma, value));
        let picked = choose|code: u32| drive_code(ma, code);
        lemma_drive_code_unique(ma, value, picked);
        assert(value <= 15 ==> value << PAD_DRIVE_SHIFT & PAD_DRIVE_K3 == value
            << PAD_DRIVE_SHIFT) by (bit_vector);
    }
    (value << PAD_DRIVE_SHIFT) & PAD_DRIVE_K3
}

proof fn lemma_drive_code_unique(ma: u32, a: u32, b: u32)
    requires
        drive_code(ma, a),
        drive_code(ma, b),
    ensures
        a == b,
{
    if a < b {
        assert(drive_strengths_1v8()[a as int] < ma);
    }
    if b < a {
        assert(drive_strengths_1v8()[b as int] < ma);
    }
}

/// The offset of a pin's register: one word per pin, with two unused words
/// after pin 130.
pub open spec fn pin_register(pin: u16) -> u32 {
    if pin > 130 {
        (4 * (pin + 2)) as u32
    } else {
        (4 * pin) as u32
    }
}

/// The offset of a pin's register.
pub fn pin_reg_offset(pin: u16) -> (offset: u32)
    ensures
        offset == pin_register(pin),
{
    let mut index: u32 = pin as u32;
    if index > 130 {
        index = index + 2;
    }
    index * 4
}

/// The offset of the IO power-domain register of a pin; 0 if it has none.
#[verifier::allow_in_spec]
pub fn io_pd_offset(pin: u16) -> (offset: u32)
    returns
        (if pin <= 20 {
            0x04u32
        } else if pin <= 41 {
            0x0c
        } else if 76 <= pin <= 98 {
            0x20
        } else if 99 <= pin <= 127 {
            0x10
        } else if 132 <= pin <= 137 {
            0x1c
        } else if 138 <= pin <= 144 {
            0x2c
        } else {
            0
        }),
{
    match pin {
        0..=20 => 0x04,
        21..=41 => 0x0c,
        76..=98 => 0x20,
        99..=127 => 0x10,
        132..=137 => 0x1c,
        138..=144 => 0x2c,
        _ => 0,
    }
}

} // verus!
