//! Bootloader configuration record and the rules that build it.
//!
//! The bootloader reads a fixed-layout record at a known image offset: a
//! magic number, a generation counter, the image start page, a boolean-flag
//! bitmask, an optional lock value, two sector-erase bitmasks and a header
//! checksum. Applications describe the record as a list of `key: value`
//! entries; [`toboot_config`] checks the entries and fills in the fixed
//! defaults, yielding the exact record to emit into the image.

use vstd::prelude::*;

verus! {

/// Magic header value marking a version-2 record.
pub const TOBOOT_V2_MAGIC: u32 = 0x907070b2;

/// Lock value that disables manual bootloader entry via pin shorting.
pub const TOBOOT_LOCK_ENTRY_MAGIC: u32 = 0x18349420;

/// Applications start at page 16 (16 KiB into flash).
pub const TOBOOT_APP_START_PAGE: u8 = 16;

/// Flag bit: keep interrupts routed to the application.
pub const CONFIG_IRQ_ENABLE: u8 = 1;

/// Flag bit: run the application automatically.
pub const CONFIG_AUTORUN_ENABLE: u8 = 2;

/// The record the bootloader reads. The byte layout is fixed: the fields
/// are emitted in declaration order, little endian, with no padding.
#[derive(Clone, Copy, Debug, PartialEq, Eq, Structural)]
pub struct TobootConfig {
    /// Magic header; [`TOBOOT_V2_MAGIC`] for version 2.
    pub magic: u32,
    /// Rewritten by the bootloader with an incrementing generation number.
    pub reserved_gen: u16,
    /// First page of the application image.
    pub start: u8,
    /// Configuration bitmask built from the flag list.
    pub config: u8,
    /// [`TOBOOT_LOCK_ENTRY_MAGIC`] to disable manual bootloader entry,
    /// zero otherwise.
    pub lock_entry: u32,
    /// Bitmask of the lower sectors (1-31) erased when updating.
    pub erase_mask_lo: u32,
    /// Bitmask of the higher sectors (32-63) erased when updating.
    pub erase_mask_hi: u32,
    /// Filled in by the bootloader with a hash of the header.
    pub reserved_hash: u32,
}

/// The record emitted when the application configures nothing.
pub fn default_config() -> (r: TobootConfig)
    ensures
        r == (TobootConfig {
            magic: TOBOOT_V2_MAGIC,
            reserved_gen: 0,
            start: TOBOOT_APP_START_PAGE,
            config: 0,
            lock_entry: 0,
            erase_mask_lo: 0,
            erase_mask_hi: 0,
            reserved_hash: 0,
        }),
{
    TobootConfig {
        magic: TOBOOT_V2_MAGIC,
        reserved_gen: 0,
        start: TOBOOT_APP_START_PAGE,
        config: 0,
        lock_entry: 0,
        erase_mask_lo: 0,
        erase_mask_hi: 0,
        reserved_hash: 0,
    }
}

/// The value side of one configuration entry.
pub enum TobootValue {
    /// A list of flag names, for the `config` key.
    Flags(Vec<String>),
    /// A boolean, for the `lock_entry` key.
    Bool(bool),
    /// An integer, for the erase-mask keys.
    Int(u32),
}

/// One `key: value` element of a configuration block.
pub struct TobootEntry {
    pub key: String,
    pub value: TobootValue,
}

/// Everything that can be wrong with a configuration block, reported for
/// the first offending entry.
#[derive(Clone, Copy, Debug, PartialEq, Eq, Structural)]
pub enum TobootError {
    /// The key is none of `config`, `lock_entry`, `erase_mask_lo`,
    /// `erase_mask_hi`.
    UnexpectedKey,
    /// The `config` key needs a list of flag names.
    ExpectedFlagArray,
    /// The `lock_entry` key needs a boolean.
    ExpectedBool,
    /// The erase-mask keys need an integer.
    ExpectedInt,
    /// A flag name is neither `irq_enable` nor `autorun_enable`.
    UnsupportedFlag,
}

/// The abstract value of a parsed configuration block: per key, the last
/// value given for it, if any.
pub struct ConfigView {
    pub config: Option<Seq<Seq<char>>>,
    pub lock_entry: Option<bool>,
    pub erase_mask_lo: Option<u32>,
    pub erase_mask_hi: Option<u32>,
}

/// The abstract value of an empty block.
pub open spec fn empty_view() -> ConfigView {
    ConfigView { config: None, lock_entry: None, erase_mask_lo: None, erase_mask_hi: None }
}

/// What is wrong with one entry, if anything: the key must be known and its
/// value of the key's type.
pub open spec fn entry_error(e: TobootEntry) -> Option<TobootError> {
    if e.key@ == "config"@ {
        match e.value {
            TobootValue::Flags(_) => None,
            _ => Some(TobootError::ExpectedFlagArray),
        }
    } else if e.key@ == "lock_entry"@ {
        match e.value {
            TobootValue::Bool(_) => None,
            _ => Some(TobootError::ExpectedBool),
        }
    } else if e.key@ == "erase_mask_lo"@ || e.key@ == "erase_mask_hi"@ {
        match e.value {
            TobootValue::Int(_) => None,
            _ => Some(TobootError::ExpectedInt),
        }
    } else {
        Some(TobootError::UnexpectedKey)
    }
}

/// One valid entry applied to the accumulated block: the entry's key takes
/// its value, later entries overriding earlier ones.
pub open spec fn apply_entry(acc: ConfigView, e: TobootEntry) -> ConfigView {
    if e.key@ == "config"@ {
        match e.value {
            TobootValue::Flags(f) => ConfigView { config: Some(f.deep_view()), ..acc },
            _ => acc,
        }
    } else if e.key@ == "lock_entry"@ {
        match e.value {
            TobootValue::Bool(b) => ConfigView { lock_entry: Some(b), ..acc },
            _ => acc,
        }
    } else if e.key@ == "erase_mask_lo"@ {
        match e.value {
            TobootValue::Int(m) => ConfigView { erase_mask_lo: Some(m), ..acc },
            _ => acc,
        }
    } else {
        match e.value {
            TobootValue::Int(m) => ConfigView { erase_mask_hi: Some(m), ..acc },
            _ => acc,
        }
    }
}

/// The abstract result of parsing a block: the accumulated values, or the
/// error of the first offending entry.
pub open spec fn spec_parse(entries: Seq<TobootEntry>) -> Result<ConfigView, TobootError>
    decreases entries.len(),
{
    if entries.len() == 0 {
        Ok(empty_view())
    } else {
        match spec_parse(entries.drop_last()) {
            Ok(acc) => match entry_error(entries.last()) {
                Some(err) => Err(err),
                None => Ok(apply_entry(acc, entries.last())),
            },
            Err(err) => Err(err),
        }
    }
}

/// Once a prefix of the block is in error, the whole block parses to that
/// same error.
proof fn lemma_parse_error_persists(s: Seq<TobootEntry>, k: int)
    requires
        0 <= k <= s.len(),
        spec_parse(s.take(k)) is Err,
    ensures
        spec_parse(s) == spec_parse(s.take(k)),
    decreases s.len() - k,
{
    if k < s.len() {
        assert(s.take(k + 1).drop_last() =~= s.take(k));
        lemma_parse_error_persists(s, k + 1);
    } else {
        assert(s.take(k) =~= s);
    }
}

/// A configuration block with each key's value picked out, ready to be
/// folded into the record.
pub struct ParsedTobootConfig {
    pub config: Option<Vec<String>>,
    pub lock_entry: Option<bool>,
    pub erase_mask_lo: Option<u32>,
    pub erase_mask_hi: Option<u32>,
}

impl View for ParsedTobootConfig {
    type V = ConfigView;

    open spec fn view(&self) -> ConfigView {
        ConfigView {
            config: self.config.deep_view(),
            lock_entry: self.lock_entry,
            erase_mask_lo: self.erase_mask_lo,
            erase_mask_hi: self.erase_mask_hi,
        }
    }
}

impl ParsedTobootConfig {
    /// Checks a block entry by entry: every key must be one of the four
    /// known ones, with a value of the key's type; per key the last value
    /// wins. Returns the error of the first offending entry.
    #[verifier::loop_isolation(false)]
    pub fn parse(entries: Vec<TobootEntry>) -> (r: Result<ParsedTobootConfig, TobootError>)
        ensures
            r is Ok ==> spec_parse(entries@) == Ok::<ConfigView, TobootError>(r->Ok_0@),
            r is Err ==> spec_parse(entries@) == Err::<ConfigView, TobootError>(r->Err_0),
    {
        let ghost all = entries@;
        let k_config: String = "config".to_owned();
        let k_lock: String = "lock_entry".to_owned();
        let k_lo: String = "erase_mask_lo".to_owned();
        let k_hi: String = "erase_mask_hi".to_owned();
        let mut rest = entries;
        let mut result = ParsedTobootConfig {
            config: None,
            lock_entry: None,
            erase_mask_lo: None,
            erase_mask_hi: None,
        };
        while rest.len() > 0
            invariant
                rest@.len() <= all.len(),
                all.skip(all.len() - rest@.len()) =~= rest@,
                spec_parse(all.take(all.len() - rest@.len())) == Ok::<
                    ConfigView,
                    TobootError,
                >(result@),
                k_config@ == "config"@,
                k_lock@ == "lock_entry"@,
                k_lo@ == "erase_mask_lo"@,
                k_hi@ == "erase_mask_hi"@,
            decreases rest@.len(),
        {
            let ghost k = all.len() - rest@.len();
            let e = rest.remove(0);
            let ghost e_spec = e;
            proof {
                assert(all.take(k + 1).drop_last() =~= all.take(k));
                assert(all.take(k + 1).last() == all[k]);
                assert(all[k] == e_spec);
            }
            if e.key == k_config {
                match e.value {
                    TobootValue::Flags(f) => {
                        result.config = Some(f);
                    },
                    _ => {
                        proof {
                            lemma_parse_error_persists(all, k + 1);
                        }
                        return Err(TobootError::ExpectedFlagArray);
                    },
                }
            } else if e.key == k_lock {
                match e.value {
                    TobootValue::Bool(b) => {
                        result.lock_entry = Some(b);
                    },
                    _ => {
                        proof {
                            lemma_parse_error_persists(all, k + 1);
                        }
                        return Err(TobootError::ExpectedBool);
                    },
                }
            } else if e.key == k_lo {
                match e.value {
                    TobootValue::Int(m) => {
                        result.erase_mask_lo = Some(m);
                    },
                    _ => {
                        proof {
                            lemma_parse_error_persists(all, k + 1);
                        }
                        return Err(TobootError::ExpectedInt);
                    },
                }
            } else if e.key == k_hi {
                match e.value {
                    TobootValue::Int(m) => {
                        result.erase_mask_hi = Some(m);
                    },
                    _ => {
                        proof {
                            lemma_parse_error_persists(all, k + 1);
                        }
                        return Err(TobootError::ExpectedInt);
                    },
                }
            } else {
                proof {
                    lemma_parse_error_persists(all, k + 1);
                }
                return Err(TobootError::UnexpectedKey);
            }
        }
        proof {
            assert(all.take(all.len() - rest@.len()) =~= all);
        }
        Ok(result)
    }
}

/// The flag mask of a flag list: `irq_enable` and `autorun_enable` set
/// their bits (repetitions are harmless); the first unknown name is an
/// error.
pub open spec fn spec_flags_mask(flags: Seq<Seq<char>>) -> Result<u8, TobootError>
    decreases flags.len(),
{
    if flags.len() == 0 {
        Ok(0u8)
    } else {
        match spec_flags_mask(flags.drop_last()) {
            Ok(m) => {
                if flags.last() == "irq_enable"@ {
                    Ok(m | CONFIG_IRQ_ENABLE)
                } else if flags.last() == "autorun_enable"@ {
                    Ok(m | CONFIG_AUTORUN_ENABLE)
                } else {
                    Err(TobootError::UnsupportedFlag)
                }
            },
            Err(err) => Err(err),
        }
    }
}

/// The flag mask of an optional flag list: no list means no flags.
pub open spec fn spec_config_mask(config: Option<Seq<Seq<char>>>) -> Result<u8, TobootError> {
    match config {
        None => Ok(0u8),
        Some(flags) => spec_flags_mask(flags),
    }
}

proof fn lemma_flags_error_persists(s: Seq<Seq<char>>, k: int)
    requires
        0 <= k <= s.len(),
        spec_flags_mask(s.take(k)) is Err,
    ensures
        spec_flags_mask(s) == spec_flags_mask(s.take(k)),
    decreases s.len() - k,
{
    if k < s.len() {
        assert(s.take(k + 1).drop_last() =~= s.take(k));
        lemma_flags_error_persists(s, k + 1);
    } else {
        assert(s.take(k) =~= s);
    }
}

impl ParsedTobootConfig {
    /// The configuration bitmask, or the error of the first unknown flag.
    #[verifier::loop_isolation(false)]
    pub fn config_val(&self) -> (r: Result<u8, TobootError>)
        ensures
            r == spec_config_mask(self@.config),
    {
        match &self.config {
            None => Ok(0),
            Some(flags) => {
                let ghost fv = flags.deep_view();
                let k_irq: String = "irq_enable".to_owned();
                let k_autorun: String = "autorun_enable".to_owned();
                let mut mask: u8 = 0;
                let mut i: usize = 0;
                while i < flags.len()
                    invariant
                        i <= flags.len(),
                        fv == flags.deep_view(),
                        fv.len() == flags@.len(),
                        forall|j: int| 0 <= j < fv.len() ==> fv[j] == #[trigger] flags@[j]@,
                        spec_flags_mask(fv.take(i as int)) == Ok::<u8, TobootError>(mask),
                        k_irq@ == "irq_enable"@,
                        k_autorun@ == "autorun_enable"@,
                    decreases flags.len() - i,
                {
                    proof {
                        assert(fv.take(i + 1).drop_last() =~= fv.take(i as int));
                        assert(fv.take(i + 1).last() == fv[i as int]);
                    }
                    let f: &String = &flags[i];
                    if *f == k_irq {
                        mask = mask | CONFIG_IRQ_ENABLE;
                    } else if *f == k_autorun {
                        mask = mask | CONFIG_AUTORUN_ENABLE;
                    } else {
                        proof {
                            lemma_flags_error_persists(fv, i + 1);
                        }
                        return Err(TobootError::UnsupportedFlag);
                    }
                    i = i + 1;
                }
                proof {
                    assert(fv.take(i as int) =~= fv);
                }
                Ok(mask)
            },
        }
    }

    /// The lock value: the lock magic exactly when `lock_entry: true` was
    /// given.
    pub fn lock_entry_val(&self) -> (r: u32)
        ensures
            r == (if self@.lock_entry == Some(true) {
                TOBOOT_LOCK_ENTRY_MAGIC
            } else {
                0u32
            }),
    {
        match &self.lock_entry {
            Some(lock) => {
                if *lock {
                    TOBOOT_LOCK_ENTRY_MAGIC
                } else {
                    0
                }
            },
            None => 0,
        }
    }

    /// The lower erase mask, defaulting to zero.
    pub fn erase_mask_lo_val(&self) -> (r: u32)
        ensures
            r == (if self@.erase_mask_lo is Some {
                self@.erase_mask_lo->0
            } else {
                0u32
            }),
    {
        match &self.erase_mask_lo {
            Some(mask) => *mask,
            None => 0,
        }
    }

    /// The higher erase mask, defaulting to zero.
    pub fn erase_mask_hi_val(&self) -> (r: u32)
        ensures
            r == (if self@.erase_mask_hi is Some {
                self@.erase_mask_hi->0
            } else {
                0u32
            }),
    {
        match &self.erase_mask_hi {
            Some(mask) => *mask,
            None => 0,
        }
    }
}

/// The record described by a configuration block: the first offending
/// entry's error, or the record with the given flags, lock value and erase
/// masks over the fixed defaults.
pub open spec fn spec_toboot_config(entries: Seq<TobootEntry>) -> Result<
    TobootConfig,
    TobootError,
> {
    match spec_parse(entries) {
        Err(err) => Err(err),
        Ok(v) => match spec_config_mask(v.config) {
            Err(err) => Err(err),
            Ok(mask) => Ok(
                TobootConfig {
                    magic: TOBOOT_V2_MAGIC,
                    reserved_gen: 0,
                    start: TOBOOT_APP_START_PAGE,
                    config: mask,
                    lock_entry: if v.lock_entry == Some(true) {
                        TOBOOT_LOCK_ENTRY_MAGIC
                    } else {
                        0u32
                    },
                    erase_mask_lo: if v.erase_mask_lo is Some {
                        v.erase_mask_lo->0
                    } else {
                        0u32
                    },
                    erase_mask_hi: if v.erase_mask_hi is Some {
                        v.erase_mask_hi->0
                    } else {
                        0u32
                    },
                    reserved_hash: 0,
                },
            ),
        },
    }
}

/// Builds the bootloader record from a configuration block: checks the
/// entries, folds the flags into the bitmask, maps `lock_entry: true` to
/// the lock magic, and fills in the fixed magic, start page and reserved
/// fields.
pub fn toboot_config(entries: Vec<TobootEntry>) -> (r: Result<TobootConfig, TobootError>)
    ensures
        r == spec_toboot_config(entries@),
{
    let parsed = match ParsedTobootConfig::parse(entries) {
        Ok(p) => p,
        Err(err) => {
            return Err(err);
        },
    };
    let config_val = match parsed.config_val() {
        Ok(v) => v,
        Err(err) => {
            return Err(err);
        },
    };
    Ok(
        TobootConfig {
            magic: TOBOOT_V2_MAGIC,
            reserved_gen: 0,
            start: TOBOOT_APP_START_PAGE,
            config: config_val,
            lock_entry: parsed.lock_entry_val(),
            erase_mask_lo: parsed.erase_mask_lo_val(),
            erase_mask_hi: parsed.erase_mask_hi_val(),
            reserved_hash: 0,
        },
    )
}

} // verus!
