use tomu_hal::toboot::{
    default_config, toboot_config, ParsedTobootConfig, TobootEntry, TobootError, TobootValue,
    CONFIG_AUTORUN_ENABLE, CONFIG_IRQ_ENABLE, TOBOOT_APP_START_PAGE, TOBOOT_LOCK_ENTRY_MAGIC,
    TOBOOT_V2_MAGIC,
};

fn entry(key: &str, value: TobootValue) -> TobootEntry {
    TobootEntry { key: key.to_owned(), value }
}

#[test]
fn default_record_has_the_fixed_fields() {
    let c = default_config();
    assert_eq!(c.magic, TOBOOT_V2_MAGIC);
    assert_eq!(c.reserved_gen, 0);
    assert_eq!(c.start, TOBOOT_APP_START_PAGE);
    assert_eq!(c.config, 0);
    assert_eq!(c.lock_entry, 0);
    assert_eq!(c.erase_mask_lo, 0);
    assert_eq!(c.erase_mask_hi, 0);
    assert_eq!(c.reserved_hash, 0);
}

#[test]
fn empty_block_builds_the_default_record() {
    let c = toboot_config(Vec::new()).unwrap();
    assert_eq!(c, default_config());
}

#[test]
fn autorun_block_sets_only_the_autorun_bit() {
    let entries = vec![
        entry("config", TobootValue::Flags(vec!["autorun_enable".to_owned()])),
        entry("lock_entry", TobootValue::Bool(false)),
        entry("erase_mask_lo", TobootValue::Int(0)),
        entry("erase_mask_hi", TobootValue::Int(0)),
    ];
    let c = toboot_config(entries).unwrap();
    assert_eq!(c.config, CONFIG_AUTORUN_ENABLE);
    assert_eq!(c.lock_entry, 0);
    assert_eq!(c.magic, TOBOOT_V2_MAGIC);
    assert_eq!(c.start, TOBOOT_APP_START_PAGE);
}

#[test]
fn both_flags_combine_and_lock_maps_to_the_magic() {
    let entries = vec![
        entry(
            "config",
            TobootValue::Flags(vec!["irq_enable".to_owned(), "autorun_enable".to_owned()]),
        ),
        entry("lock_entry", TobootValue::Bool(true)),
    ];
    let c = toboot_config(entries).unwrap();
    assert_eq!(c.config, CONFIG_IRQ_ENABLE | CONFIG_AUTORUN_ENABLE);
    assert_eq!(c.lock_entry, TOBOOT_LOCK_ENTRY_MAGIC);
}

#[test]
fn repeated_flags_are_harmless() {
    let entries = vec![entry(
        "config",
        TobootValue::Flags(vec!["irq_enable".to_owned(), "irq_enable".to_owned()]),
    )];
    let c = toboot_config(entries).unwrap();
    assert_eq!(c.config, CONFIG_IRQ_ENABLE);
}

#[test]
fn later_entries_override_earlier_ones() {
    let entries = vec![
        entry("erase_mask_lo", TobootValue::Int(0xff)),
        entry("erase_mask_lo", TobootValue::Int(0x0f)),
        entry("erase_mask_hi", TobootValue::Int(0xf0)),
    ];
    let c = toboot_config(entries).unwrap();
    assert_eq!(c.erase_mask_lo, 0x0f);
    assert_eq!(c.erase_mask_hi, 0xf0);
}

#[test]
fn unknown_key_is_rejected() {
    let entries = vec![entry("autorun", TobootValue::Bool(true))];
    assert_eq!(toboot_config(entries), Err(TobootError::UnexpectedKey));
}

#[test]
fn config_needs_a_flag_array() {
    let entries = vec![entry("config", TobootValue::Bool(true))];
    assert_eq!(toboot_config(entries), Err(TobootError::ExpectedFlagArray));
}

#[test]
fn lock_entry_needs_a_bool() {
    let entries = vec![entry("lock_entry", TobootValue::Int(1))];
    assert_eq!(toboot_config(entries), Err(TobootError::ExpectedBool));
}

#[test]
fn erase_masks_need_integers() {
    let entries = vec![entry("erase_mask_hi", TobootValue::Bool(false))];
    assert_eq!(toboot_config(entries), Err(TobootError::ExpectedInt));
}

#[test]
fn unsupported_flag_is_rejected() {
    let entries = vec![entry(
        "config",
        TobootValue::Flags(vec!["irq_enable".to_owned(), "turbo".to_owned()]),
    )];
    assert_eq!(toboot_config(entries), Err(TobootError::UnsupportedFlag));
}

#[test]
fn first_offending_entry_wins() {
    let entries = vec![
        entry("lock_entry", TobootValue::Int(7)),
        entry("bogus", TobootValue::Bool(true)),
    ];
    assert_eq!(toboot_config(entries), Err(TobootError::ExpectedBool));
}

#[test]
fn parse_collects_the_last_value_per_key() {
    let entries = vec![
        entry("lock_entry", TobootValue::Bool(true)),
        entry("erase_mask_lo", TobootValue::Int(3)),
    ];
    let p = ParsedTobootConfig::parse(entries).unwrap();
    assert_eq!(p.lock_entry, Some(true));
    assert_eq!(p.erase_mask_lo, Some(3));
    assert_eq!(p.erase_mask_hi, None);
    assert!(p.config.is_none());
    assert_eq!(p.config_val(), Ok(0));
    assert_eq!(p.lock_entry_val(), TOBOOT_LOCK_ENTRY_MAGIC);
    assert_eq!(p.erase_mask_lo_val(), 3);
    assert_eq!(p.erase_mask_hi_val(), 0);
}
