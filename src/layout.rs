//! Window sizing and key placement.
//!
//! Lengths are in thousandths of a pixel, size multipliers in thousandths.
//! A width beyond `u64::MAX` is reported as `u64::MAX`.
use vstd::prelude::*;

use crate::types::{AppConfig, KeyConfig, MILLI};

verus! {

/// Width of one key column: the key itself, its outline on both sides, and
/// one margin.
pub open spec fn column_width(
    key_size: u32,
    size_multiplier: u32,
    outline_thickness: u32,
    margin: u32,
) -> int {
    key_size as int * size_multiplier as int / MILLI as int + 2 * outline_thickness as int
        + margin as int
}

/// Sum of the column widths of `keys`.
pub open spec fn columns_width(
    keys: Seq<KeyConfig>,
    key_size: u32,
    outline_thickness: u32,
    margin: u32,
) -> int
    decreases keys.len(),
{
    if keys.len() == 0 {
        0
    } else {
        columns_width(keys.drop_last(), key_size, outline_thickness, margin) + column_width(
            key_size,
            keys.last().size,
            outline_thickness,
            margin,
        )
    }
}

/// Left edge of the key at `index`: the initial margin, then the columns of
/// the keys before it.
pub open spec fn key_offset(config: &AppConfig, index: int) -> int {
    config.margin as int + columns_width(
        config.keys@.subrange(0, index),
        config.key_size,
        config.outline_thickness,
        config.margin,
    )
}

/// Width of the window: the initial margin, then every key's column.
pub open spec fn window_width(config: &AppConfig) -> int {
    key_offset(config, config.keys@.len() as int)
}

/// Clamps a mathematical integer into the range of `u64`.
pub open spec fn saturate_u64(x: int) -> u64 {
    if x > u64::MAX {
        u64::MAX
    } else if x < 0 {
        0
    } else {
        x as u64
    }
}

proof fn lemma_columns_width_nonneg(keys: Seq<KeyConfig>, key_size: u32, outline: u32, margin: u32)
    ensures
        columns_width(keys, key_size, outline, margin) >= 0,
    decreases keys.len(),
{
    if keys.len() > 0 {
        lemma_columns_width_nonneg(keys.drop_last(), key_size, outline, margin);
        assert(key_size as int * keys.last().size as int >= 0) by (nonlinear_arith);
    }
}

/// Calculates the total window width required to display all keys.
pub fn calculate_window_width(config: &AppConfig) -> (w: u64)
    ensures
        w == saturate_u64(window_width(config)),
{
    let positions = calculate_key_x_positions_upto(config, config.keys.len());
    positions.1
}

/// Calculates the width of one key column.
pub fn calculate_column_width(
    key_size: u32,
    size_multiplier: u32,
    outline_thickness: u32,
    margin: u32,
) -> (w: u64)
    ensures
        w == column_width(key_size, size_multiplier, outline_thickness, margin),
{
    let size: u64 = key_size as u64;
    let multiplier: u64 = size_multiplier as u64;
    assert(size * multiplier <= u32::MAX as int * u32::MAX as int) by (nonlinear_arith)
        requires
            size <= u32::MAX,
            multiplier <= u32::MAX,
    ;
    let product: u64 = size * multiplier;
    assert(product / 1000 <= 18446744073709551) by (nonlinear_arith)
        requires
            product <= u32::MAX as int * u32::MAX as int,
    ;
    product / MILLI as u64 + 2 * outline_thickness as u64 + margin as u64
}

/// Calculates the left edge of every key, in configuration order.
pub fn calculate_key_x_positions(config: &AppConfig) -> (positions: Vec<u64>)
    ensures
        positions@.len() == config.keys@.len(),
        forall|i: int|
            0 <= i < positions@.len() ==> positions@[i] == saturate_u64(key_offset(config, i)),
{
    calculate_key_x_positions_upto(config, config.keys.len()).0
}

/// The left edges of the first `count` keys, and the left edge after them.
fn calculate_key_x_positions_upto(config: &AppConfig, count: usize) -> (r: (Vec<u64>, u64))
    requires
        count <= config.keys@.len(),
    ensures
        r.0@.len() == count,
        forall|i: int| 0 <= i < count ==> r.0@[i] == saturate_u64(key_offset(config, i)),
        r.1 == saturate_u64(key_offset(config, count as int)),
{
    let mut positions: Vec<u64> = Vec::new();
    let mut current_x: u64 = config.margin as u64;
    let mut i: usize = 0;
    proof {
        assert(config.keys@.subrange(0, 0).len() == 0);
    }
    while i < count
        invariant
            count <= config.keys@.len(),
            0 <= i <= count,
            positions@.len() == i,
            forall|j: int| 0 <= j < i ==> positions@[j] == saturate_u64(key_offset(config, j)),
            current_x == saturate_u64(key_offset(config, i as int)),
        decreases count - i,
    {
        positions.push(current_x);
        let width = calculate_column_width(
            config.key_size,
            config.keys[i].size,
            config.outline_thickness,
            config.margin,
        );
        proof {
            let keys = config.keys@;
            assert(keys.subrange(0, i + 1).drop_last() =~= keys.subrange(0, i as int));
            assert(keys.subrange(0, i + 1).last() == keys[i as int]);
            lemma_columns_width_nonneg(
                keys.subrange(0, i as int),
                config.key_size,
                config.outline_thickness,
                config.margin,
            );
            assert(config.key_size as int * keys[i as int].size as int >= 0) by (nonlinear_arith);
        }
        current_x = current_x.saturating_add(width);
        i = i + 1;
    }
    (positions, current_x)
}

/// Adding a key of positive size makes the window strictly wider, as long as
/// the new column is not empty (a key narrower than a thousandth of a pixel
/// with neither outline nor margin adds nothing) and the wider window's width
/// is representable.
pub proof fn lemma_width_grows_with_key(config: &AppConfig, wider: &AppConfig, key: KeyConfig)
    requires
        wider.keys@ == config.keys@.push(key),
        wider.key_size == config.key_size,
        wider.margin == config.margin,
        wider.outline_thickness == config.outline_thickness,
        config.key_size > 0,
        key.size > 0,
        column_width(config.key_size, key.size, config.outline_thickness, config.margin) > 0,
        window_width(wider) <= u64::MAX,
    ensures
        saturate_u64(window_width(wider)) > saturate_u64(window_width(config)),
{
    let keys = wider.keys@;
    assert(keys.subrange(0, keys.len() as int) =~= keys);
    assert(config.keys@.subrange(0, config.keys@.len() as int) =~= config.keys@);
    assert(keys.drop_last() =~= config.keys@);
    lemma_columns_width_nonneg(config.keys@, config.key_size, config.outline_thickness, config.margin);
}

} // verus!
