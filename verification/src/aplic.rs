//! Advanced platform-level interrupt controller (APLIC) in MSI mode.
//!
//! The APLIC turns wired interrupts into messages for the IMSIC. Sources are
//! numbered from 1.

use vstd::prelude::*;
use crate::script::{core_reg, Op, Script};

verus! {

pub const DOMAINCFG: usize = 0x0000;
pub const SOURCECFG_BASE: usize = 0x0004;
pub const SMSICFGADDR: usize = 0x1bc8;
pub const SMSICFGADDRH: usize = 0x1bcc;
pub const SETIP_BASE: usize = 0x1c00;
pub const CLRIP_BASE: usize = 0x1d00;
pub const SETIE_BASE: usize = 0x1e00;
pub const SETIENUM: usize = 0x1edc;
pub const CLRIE_BASE: usize = 0x1f00;
pub const CLRIENUM: usize = 0x1fdc;
pub const SETIPNUM_LE: usize = 0x2000;
pub const GENMSI: usize = 0x3000;
pub const TARGET_BASE: usize = 0x3004;

pub const DOMAINCFG_IE: u32 = 1 << 8;
pub const DOMAINCFG_DM: u32 = 1 << 2;

/// Source modes.
pub const SM_INACTIVE: u32 = 0x0;
pub const SM_DETACH: u32 = 0x1;
pub const SM_EDGE_RISE: u32 = 0x4;
pub const SM_EDGE_FALL: u32 = 0x5;
pub const SM_LEVEL_HIGH: u32 = 0x6;
pub const SM_LEVEL_LOW: u32 = 0x7;

/// Target register fields.
pub const TARGET_HART_IDX_SHIFT: u32 = 18;
pub const TARGET_HART_IDX_MASK: u32 = 0x3fff;
pub const TARGET_GUEST_IDX_SHIFT: u32 = 12;
pub const TARGET_GUEST_IDX_MASK: u32 = 0x3f;
pub const TARGET_EIID_MASK: u32 = 0x7ff;

/// Fields of the upper MSI address register.
pub const CFGADDRH_L: u32 = 1 << 31;
pub const CFGADDRH_HHXS_SHIFT: u32 = 24;
pub const CFGADDRH_HHXS_MASK: u32 = 0x1f;
pub const CFGADDRH_LHXS_SHIFT: u32 = 20;
pub const CFGADDRH_LHXS_MASK: u32 = 0x7;
pub const CFGADDRH_HHXW_SHIFT: u32 = 16;
pub const CFGADDRH_HHXW_MASK: u32 = 0x7;
pub const CFGADDRH_LHXW_SHIFT: u32 = 12;
pub const CFGADDRH_LHXW_MASK: u32 = 0xf;
pub const CFGADDRH_BAPPN_MASK: u32 = 0xfff;

/// What a source listens to.
#[derive(Clone, Copy, Debug, PartialEq, Eq, Structural)]
pub enum SourceTrigger {
    Inactive,
    Detach,
    EdgeRise,
    EdgeFall,
    LevelHigh,
    LevelLow,
}

impl SourceTrigger {
    /// The source mode.
    #[verifier::allow_in_spec]
    pub fn to_sm(self) -> (mode: u32)
        returns
            (match self {
                SourceTrigger::Inactive => SM_INACTIVE,
                SourceTrigger::Detach => SM_DETACH,
                SourceTrigger::EdgeRise => SM_EDGE_RISE,
                SourceTrigger::EdgeFall => SM_EDGE_FALL,
                SourceTrigger::LevelHigh => SM_LEVEL_HIGH,
                SourceTrigger::LevelLow => SM_LEVEL_LOW,
            }),
    {
        match self {
            SourceTrigger::Inactive => SM_INACTIVE,
            SourceTrigger::Detach => SM_DETACH,
            SourceTrigger::EdgeRise => SM_EDGE_RISE,
            SourceTrigger::EdgeFall => SM_EDGE_FALL,
            SourceTrigger::LevelHigh => SM_LEVEL_HIGH,
            SourceTrigger::LevelLow => SM_LEVEL_LOW,
        }
    }

    /// The trigger that the flag cell of a device-tree interrupt specifier
    /// stands for: 1 rising edge, 2 falling edge, 4 high level, 8 low level.
    /// Other values, 0 among them, leave the choice to the caller.
    pub fn from_fdt_interrupt_spec(flag: u32) -> (trigger: Option<SourceTrigger>)
        ensures
            trigger == (if flag == 0x01 {
                Some(SourceTrigger::EdgeRise)
            } else if flag == 0x02 {
                Some(SourceTrigger::EdgeFall)
            } else if flag == 0x04 {
                Some(SourceTrigger::LevelHigh)
            } else if flag == 0x08 {
                Some(SourceTrigger::LevelLow)
            } else {
                None
            }),
    {
        match flag {
            0x01 => Some(SourceTrigger::EdgeRise),
            0x02 => Some(SourceTrigger::EdgeFall),
            0x04 => Some(SourceTrigger::LevelHigh),
            0x08 => Some(SourceTrigger::LevelLow),
            _ => None,
        }
    }
}

/// Where the message of a source goes.
#[derive(Clone, Copy, Debug, PartialEq, Eq, Structural)]
pub struct MsiTarget {
    pub hart_index: u32,
    pub guest_index: u32,
    pub eiid: u32,
}

impl MsiTarget {
    /// The target register.
    #[verifier::allow_in_spec]
    pub fn pack(self) -> (word: u32)
        returns
            ((self.hart_index & TARGET_HART_IDX_MASK) << TARGET_HART_IDX_SHIFT) | ((
            self.guest_index & TARGET_GUEST_IDX_MASK) << TARGET_GUEST_IDX_SHIFT) | (self.eiid
                & TARGET_EIID_MASK),
    {
        ((self.hart_index & TARGET_HART_IDX_MASK) << TARGET_HART_IDX_SHIFT) | ((self.guest_index
            & TARGET_GUEST_IDX_MASK) << TARGET_GUEST_IDX_SHIFT) | (self.eiid & TARGET_EIID_MASK)
    }
}

/// Where the interrupt files of the IMSIC lie: base page and index geometry.
#[derive(Clone, Copy, Debug, PartialEq, Eq, Structural)]
pub struct MsiConfig {
    pub base_ppn: u64,
    pub lhxw: u32,
    pub lhxs: u32,
    pub hhxw: u32,
    pub hhxs: u32,
}

/// The upper MSI address register.
#[verifier::allow_in_spec]
pub fn pack_smsicfg_addrh(cfg: &MsiConfig) -> (word: u32)
    returns
        CFGADDRH_L | ((cfg.hhxs & CFGADDRH_HHXS_MASK) << CFGADDRH_HHXS_SHIFT) | ((cfg.lhxs
            & CFGADDRH_LHXS_MASK) << CFGADDRH_LHXS_SHIFT) | ((cfg.hhxw & CFGADDRH_HHXW_MASK)
            << CFGADDRH_HHXW_SHIFT) | ((cfg.lhxw & CFGADDRH_LHXW_MASK) << CFGADDRH_LHXW_SHIFT) | ((
        cfg.base_ppn >> 32) as u32 & CFGADDRH_BAPPN_MASK),
{
    CFGADDRH_L | ((cfg.hhxs & CFGADDRH_HHXS_MASK) << CFGADDRH_HHXS_SHIFT) | ((cfg.lhxs
        & CFGADDRH_LHXS_MASK) << CFGADDRH_LHXS_SHIFT) | ((cfg.hhxw & CFGADDRH_HHXW_MASK)
        << CFGADDRH_HHXW_SHIFT) | ((cfg.lhxw & CFGADDRH_LHXW_MASK) << CFGADDRH_LHXW_SHIFT) | ((
    cfg.base_ppn >> 32) as u32 & CFGADDRH_BAPPN_MASK)
}

/// The interrupt controller. Its methods give the accesses to carry out.
#[derive(Clone, Copy, Debug, PartialEq, Eq, Structural)]
pub struct Aplic {
    pub num_sources: u32,
}

/// A write to the word `index` of an array of registers.
pub open spec fn word_write(base: usize, index: int, value: u32) -> Op {
    Op::Write { reg: core_reg((base + index * 4) as usize), value }
}

/// The bit of a source in its bitmap word.
pub open spec fn source_bit(source: u32) -> u32 {
    1u32 << (source % 32)
}

impl Aplic {
    /// Every register of a source has an address.
    pub open spec fn wf(&self) -> bool {
        TARGET_BASE + self.num_sources * 4 <= usize::MAX
    }

    /// How many bitmap words the sources take up. Bit 0 of the first word
    /// stands for no source.
    pub open spec fn bitmap_words(&self) -> nat {
        if self.num_sources == 0 {
            0
        } else {
            (self.num_sources / 32 + 1) as nat
        }
    }

    /// Writes that clear the bit of every source in the bitmap at `base`.
    pub open spec fn bitmap_clears(&self, base: usize) -> Seq<Op> {
        Seq::new(self.bitmap_words(), |i: int| word_write(base, i, 0xffff_ffff))
    }

    /// A controller with sources 1 to `num_sources`.
    pub fn new(num_sources: u32) -> (aplic: Aplic)
        ensures
            aplic.num_sources == num_sources,
    {
        Aplic { num_sources }
    }

    /// How many sources there are.
    pub fn num_sources(&self) -> (count: u32)
        ensures
            count == self.num_sources,
    {
        self.num_sources
    }

    /// A read of any register.
    pub fn read_raw(&self, offset: usize) -> (op: Op)
        ensures
            op == (Op::Read { reg: core_reg(offset) }),
    {
        Op::Read { reg: core_reg(offset) }
    }

    /// The offset of a source's register in an array that starts at `base`.
    pub fn source_offset(source: u32, base: usize) -> (offset: usize)
        requires
            source != 0,
            base + (source - 1) * 4 <= usize::MAX,
        ensures
            offset == base + (source - 1) * 4,
    {
        base + (source as usize - 1) * 4
    }

    fn fill_words(base: usize, count: usize, value: u32) -> (script: Script)
        requires
            base + count * 4 <= usize::MAX,
        ensures
            script@ == Seq::new(count as nat, |i: int| word_write(base, i, value)),
    {
        let mut script = Script::new();
        for i in 0..count
            invariant
                base + count * 4 <= usize::MAX,
                script@ =~= Seq::new(i as nat, |j: int| word_write(base, j, value)),
        {
            script.write(core_reg(base + i * 4), value);
        }
        script
    }

    fn clear_bitmap(&self, base: usize) -> (script: Script)
        requires
            self.wf(),
            base <= TARGET_BASE,
        ensures
            script@ == self.bitmap_clears(base),
    {
        let words: usize = if self.num_sources == 0 {
            0
        } else {
            (self.num_sources / 32) as usize + 1
        };
        Self::fill_words(base, words, 0xffff_ffff)
    }

    /// Disables every source: clears the whole enable bitmap, then makes every
    /// source inactive.
    pub fn disable_all_sources(&mut self) -> (script: Script)
        requires
            old(self).wf(),
        ensures
            script@ == old(self).bitmap_clears(CLRIE_BASE) + Seq::new(
                old(self).num_sources as nat,
                |i: int| word_write(SOURCECFG_BASE, i, SM_INACTIVE),
            ),
            *final(self) == *old(self),
    {
        let mut script = self.clear_bitmap(CLRIE_BASE);
        script.append(Self::fill_words(SOURCECFG_BASE, self.num_sources as usize, SM_INACTIVE));
        script
    }

    /// Clears every pending bit.
    pub fn clear_all_pending(&mut self) -> (script: Script)
        requires
            old(self).wf(),
        ensures
            script@ == old(self).bitmap_clears(CLRIP_BASE),
            *final(self) == *old(self),
    {
        self.clear_bitmap(CLRIP_BASE)
    }

    /// A read of a word of the pending bitmap; each word has 32 sources.
    pub fn pending_bitmap(&self, reg_index: usize) -> (op: Op)
        requires
            SETIP_BASE + reg_index * 4 <= usize::MAX,
        ensures
            op == (Op::Read { reg: core_reg((SETIP_BASE + reg_index * 4) as usize) }),
    {
        Op::Read { reg: core_reg(SETIP_BASE + reg_index * 4) }
    }

    /// A read of a word of the enable bitmap; each word has 32 sources.
    pub fn enable_bitmap(&self, reg_index: usize) -> (op: Op)
        requires
            SETIE_BASE + reg_index * 4 <= usize::MAX,
        ensures
            op == (Op::Read { reg: core_reg((SETIE_BASE + reg_index * 4) as usize) }),
    {
        Op::Read { reg: core_reg(SETIE_BASE + reg_index * 4) }
    }

    /// The word of the bitmaps that a source is in.
    pub fn bitmap_word(source: u32) -> (index: usize)
        ensures
            index == source / 32,
    {
        (source / 32) as usize
    }

    /// Whether a source is pending, given its word of the pending bitmap.
    pub fn is_pending(&self, source: u32, bitmap: u32) -> (pending: bool)
        requires
            source != 0,
        ensures
            pending == (bitmap & source_bit(source) != 0),
    {
        bitmap & (1u32 << (source % 32)) != 0
    }

    /// Enters MSI mode: announces the interrupt files, then enables delivery
    /// by message.
    pub fn init_msi_mode(&mut self, cfg: &MsiConfig) -> (script: Script)
        ensures
            script@ == seq![
                Op::Write { reg: core_reg(SMSICFGADDR), value: cfg.base_ppn as u32 },
                Op::Write { reg: core_reg(SMSICFGADDRH), value: pack_smsicfg_addrh(cfg) },
                Op::Update {
                    reg: core_reg(DOMAINCFG),
                    clear: 0,
                    set: DOMAINCFG_IE | DOMAINCFG_DM,
                },
            ],
            *final(self) == *old(self),
            script@[0] == (Op::Write { reg: core_reg(0x1bc8), value: cfg.base_ppn as u32 }),
            script@[1] == (Op::Write { reg: core_reg(0x1bcc), value: pack_smsicfg_addrh(cfg) }),
            script@[2] == (Op::Update {
                reg: core_reg(0x0000),
                clear: 0,
                set: (1u32 << 8) | (1u32 << 2),
            }),
    {
        let mut script = Script::new();
        script.write(core_reg(SMSICFGADDR), cfg.base_ppn as u32);
        script.write(core_reg(SMSICFGADDRH), pack_smsicfg_addrh(cfg));
        script.update(core_reg(DOMAINCFG), 0, DOMAINCFG_IE | DOMAINCFG_DM);
        script
    }

    /// Sets the trigger and the target of a source.
    pub fn configure_source(&mut self, source: u32, trigger: SourceTrigger, target: MsiTarget) -> (
        script: Script)
        requires
            source != 0,
            TARGET_BASE + (source - 1) * 4 <= usize::MAX,
        ensures
            script@ == seq![
                word_write(SOURCECFG_BASE, source - 1, trigger.to_sm()),
                word_write(TARGET_BASE, source - 1, target.pack()),
            ],
            *final(self) == *old(self),
            script@[0] matches Op::Write { reg, .. } && reg == core_reg((4 * source) as usize),
            script@[1] matches Op::Write { reg, .. } && reg == core_reg(
                (0x3000 + 4 * source) as usize,
            ),
    {
        let mut script = Script::new();
        script.write(
            core_reg(Self::source_offset(source, SOURCECFG_BASE)),
            trigger.to_sm(),
        );
        script.write(core_reg(Self::source_offset(source, TARGET_BASE)), target.pack());
        script
    }

    /// Enables a source.
    pub fn enable_source(&mut self, source: u32) -> (script: Script)
        requires
            source != 0,
        ensures
            script@ == seq![Op::Write { reg: core_reg(SETIENUM), value: source }],
            *final(self) == *old(self),
            script@ == seq![Op::Write { reg: core_reg(0x1edc), value: source }],
    {
        let mut script = Script::new();
        script.write(core_reg(SETIENUM), source);
        script
    }

    /// Disables a source.
    pub fn disable_source(&mut self, source: u32) -> (script: Script)
        requires
            source != 0,
        ensures
            script@ == seq![Op::Write { reg: core_reg(CLRIENUM), value: source }],
            *final(self) == *old(self),
            script@ == seq![Op::Write { reg: core_reg(0x1fdc), value: source }],
    {
        let mut script = Script::new();
        script.write(core_reg(CLRIENUM), source);
        script
    }

    /// Clears the pending bit of a source.
    pub fn clear_source_pending(&mut self, source: u32) -> (script: Script)
        requires
            source != 0,
        ensures
            script@ == seq![word_write(CLRIP_BASE, (source / 32) as int, source_bit(source))],
            *final(self) == *old(self),
            script@ == seq![
                Op::Write {
                    reg: core_reg((0x1d00 + 4 * (source as int / 32)) as usize),
                    value: 1u32 << (source % 32),
                },
            ],
    {
        let mut script = Script::new();
        let word: usize = (source / 32) as usize;
        script.write(core_reg(CLRIP_BASE + word * 4), 1u32 << (source % 32));
        script
    }

    /// Makes a source pending.
    pub fn trigger_source(&mut self, source: u32) -> (script: Script)
        requires
            source != 0,
        ensures
            script@ == seq![Op::Write { reg: core_reg(SETIPNUM_LE), value: source }],
            *final(self) == *old(self),
            script@ == seq![Op::Write { reg: core_reg(0x2000), value: source }],
    {
        let mut script = Script::new();
        script.write(core_reg(SETIPNUM_LE), source);
        script
    }

    /// Sends a message that no source asked for.
    pub fn generate_msi(&mut self, target: MsiTarget) -> (script: Script)
        ensures
            script@ == seq![Op::Write { reg: core_reg(GENMSI), value: target.pack() }],
            *final(self) == *old(self),
            script@ == seq![Op::Write { reg: core_reg(0x3000), value: target.pack() }],
    {
        let mut script = Script::new();
        script.write(core_reg(GENMSI), target.pack());
        script
    }
}

/// The fields of a target come back out of its register, cut to their width.
pub proof fn law_target_fields(target: MsiTarget)
    ensures
        target.pack() >> TARGET_HART_IDX_SHIFT & TARGET_HART_IDX_MASK == target.hart_index
            & TARGET_HART_IDX_MASK,
        target.pack() >> TARGET_GUEST_IDX_SHIFT & TARGET_GUEST_IDX_MASK == target.guest_index
            & TARGET_GUEST_IDX_MASK,
        target.pack() & TARGET_EIID_MASK == target.eiid & TARGET_EIID_MASK,
{
    let h = target.hart_index;
    let g = target.guest_index;
    let e = target.eiid;
    let word = target.pack();
    assert(word == ((h & TARGET_HART_IDX_MASK) << TARGET_HART_IDX_SHIFT) | ((g
        & TARGET_GUEST_IDX_MASK) << TARGET_GUEST_IDX_SHIFT) | (e & TARGET_EIID_MASK));
    assert(word >> TARGET_HART_IDX_SHIFT & TARGET_HART_IDX_MASK == h & TARGET_HART_IDX_MASK && word
        >> TARGET_GUEST_IDX_SHIFT & TARGET_GUEST_IDX_MASK == g & TARGET_GUEST_IDX_MASK && word
        & TARGET_EIID_MASK == e & TARGET_EIID_MASK) by (bit_vector)
        requires
            word == ((h & TARGET_HART_IDX_MASK) << TARGET_HART_IDX_SHIFT) | ((g
                & TARGET_GUEST_IDX_MASK) << TARGET_GUEST_IDX_SHIFT) | (e & TARGET_EIID_MASK),
    ;
}

/// The geometry fields come back out of the upper MSI address register, cut
/// to their width; none spills into another.
pub proof fn law_geometry_fields(cfg: MsiConfig)
    ensures
        pack_smsicfg_addrh(&cfg) & CFGADDRH_L == CFGADDRH_L,
        (pack_smsicfg_addrh(&cfg) >> CFGADDRH_HHXS_SHIFT) & CFGADDRH_HHXS_MASK == cfg.hhxs
            & CFGADDRH_HHXS_MASK,
        (pack_smsicfg_addrh(&cfg) >> CFGADDRH_LHXS_SHIFT) & CFGADDRH_LHXS_MASK == cfg.lhxs
            & CFGADDRH_LHXS_MASK,
        (pack_smsicfg_addrh(&cfg) >> CFGADDRH_HHXW_SHIFT) & CFGADDRH_HHXW_MASK == cfg.hhxw
            & CFGADDRH_HHXW_MASK,
        (pack_smsicfg_addrh(&cfg) >> CFGADDRH_LHXW_SHIFT) & CFGADDRH_LHXW_MASK == cfg.lhxw
            & CFGADDRH_LHXW_MASK,
        pack_smsicfg_addrh(&cfg) & CFGADDRH_BAPPN_MASK == (cfg.base_ppn >> 32) as u32
            & CFGADDRH_BAPPN_MASK,
{
    let a = cfg.hhxs;
    let b = cfg.lhxs;
    let c = cfg.hhxw;
    let d = cfg.lhxw;
    let p = (cfg.base_ppn >> 32) as u32;
    let word = pack_smsicfg_addrh(&cfg);
    assert(word & CFGADDRH_L == CFGADDRH_L && (word >> CFGADDRH_HHXS_SHIFT) & CFGADDRH_HHXS_MASK
        == a & CFGADDRH_HHXS_MASK && (word >> CFGADDRH_LHXS_SHIFT) & CFGADDRH_LHXS_MASK == b
        & CFGADDRH_LHXS_MASK && (word >> CFGADDRH_HHXW_SHIFT) & CFGADDRH_HHXW_MASK == c
        & CFGADDRH_HHXW_MASK && (word >> CFGADDRH_LHXW_SHIFT) & CFGADDRH_LHXW_MASK == d
        & CFGADDRH_LHXW_MASK && word & CFGADDRH_BAPPN_MASK == p & CFGADDRH_BAPPN_MASK)
        by (bit_vector)
        requires
            word == CFGADDRH_L | ((a & CFGADDRH_HHXS_MASK) << CFGADDRH_HHXS_SHIFT) | ((b
                & CFGADDRH_LHXS_MASK) << CFGADDRH_LHXS_SHIFT) | ((c & CFGADDRH_HHXW_MASK)
                << CFGADDRH_HHXW_SHIFT) | ((d & CFGADDRH_LHXW_MASK) << CFGADDRH_LHXW_SHIFT) | (p
                & CFGADDRH_BAPPN_MASK),
    ;
}

/// Clearing every pending bit writes the bit of every source, in the word that
/// the source is found in, and so does disabling every source in the enable
/// bitmap.
pub proof fn law_bitmap_covers_sources(aplic: Aplic, source: u32)
    requires
        1 <= source <= aplic.num_sources,
    ensures
        source / 32 < aplic.bitmap_words(),
        aplic.bitmap_clears(CLRIP_BASE)[source as int / 32] == word_write(
            CLRIP_BASE,
            source as int / 32,
            0xffff_ffff,
        ),
        aplic.bitmap_clears(CLRIE_BASE)[source as int / 32] == word_write(
            CLRIE_BASE,
            source as int / 32,
            0xffff_ffff,
        ),
        0xffff_ffffu32 & source_bit(source) == source_bit(source),
{
    let bit = source_bit(source);
    assert(0xffff_ffffu32 & bit == bit) by (bit_vector);
}

/// The mode of a source that the device tree asks for: bit 2 is set for all of
/// them, bit 1 for levels, and bit 0 for a falling edge or a low level.
pub proof fn law_trigger_modes(flag: u32, trigger: Option<SourceTrigger>)
    requires
        call_ensures(SourceTrigger::from_fdt_interrupt_spec, (flag,), trigger),
    ensures
        trigger is Some <==> flag == 1 || flag == 2 || flag == 4 || flag == 8,
        trigger matches Some(found) ==> found.to_sm() == 4 + (if flag >= 4 {
            2int
        } else {
            0
        }) + (if flag == 2 || flag == 8 {
            1int
        } else {
            0
        }),
        SourceTrigger::Inactive.to_sm() == 0 && SourceTrigger::Detach.to_sm() == 1,
{
}

/// A target is the hart from bit 18 on, the guest from bit 12 on, and the
/// identity.
pub proof fn law_target_word(target: MsiTarget)
    requires
        target.hart_index < 0x4000,
        target.guest_index < 0x40,
        target.eiid < 0x800,
    ensures
        target.pack() == 0x4_0000 * target.hart_index + 0x1000 * target.guest_index + target.eiid,
{
    let (h, g, e) = (target.hart_index, target.guest_index, target.eiid);
    assert(((h & 0x3fff) << 18) | ((g & 0x3f) << 12) | (e & 0x7ff) == 0x4_0000 * h + 0x1000 * g + e)
        by (bit_vector)
        requires
            h < 0x4000,
            g < 0x40,
            e < 0x800,
    ;
}

/// The geometry is locked (bit 31); it has the higher shift from bit 24, the
/// lower one from bit 20, the higher width from bit 16 and the lower one from
/// bit 12, and the page number from its bit 32 on.
pub proof fn law_geometry_word(cfg: MsiConfig)
    requires
        cfg.hhxs < 0x20,
        cfg.lhxs < 8,
        cfg.hhxw < 8,
        cfg.lhxw < 0x10,
        cfg.base_ppn < 0x1000_0000_0000,
    ensures
        pack_smsicfg_addrh(&cfg) == 0x8000_0000 + 0x100_0000 * cfg.hhxs + 0x10_0000 * cfg.lhxs
            + 0x1_0000 * cfg.hhxw + 0x1000 * cfg.lhxw + cfg.base_ppn / 0x1_0000_0000,
{
    let (a, b, c, d, p) = (cfg.hhxs, cfg.lhxs, cfg.hhxw, cfg.lhxw, cfg.base_ppn);
    assert((1u32 << 31) | ((a & 0x1f) << 24) | ((b & 0x7) << 20) | ((c & 0x7) << 16) | ((d & 0xf)
        << 12) | ((p >> 32) as u32 & 0xfff) == 0x8000_0000 + 0x100_0000 * a + 0x10_0000 * b
        + 0x1_0000 * c + 0x1000 * d + p / 0x1_0000_0000) by (bit_vector)
        requires
            a < 0x20,
            b < 8,
            c < 8,
            d < 0x10,
            p < 0x1000_0000_0000,
    ;
}

/// A source is pending exactly if its bit of its word is set.
pub proof fn law_pending_bit(aplic: Aplic, source: u32, bitmap: u32, pending: bool)
    requires
        source != 0,
        call_ensures(Aplic::is_pending, (&aplic, source, bitmap), pending),
    ensures
        pending <==> crate::bits::bit(bitmap, source % 32),
{
    broadcast use crate::bits::group_masks;

    assert(bitmap & (1u32 << (source % 32)) != 0 <==> crate::bits::bit(bitmap, source % 32));
}

} // verus!
