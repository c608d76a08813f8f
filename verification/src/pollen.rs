//! Pollen severity on the European Aeroallergen Network (EAN) scale.
//!
//! Readings are grains/m³ as reported by the forecast provider, carried as the
//! bit pattern of the binary32 value (see [`crate::float_bits`]).
use crate::float_bits::{
    bits_le_int, bits_value_le, f32_le_int, is_nan_bits, lemma_le_int_downward, lemma_le_int_upward, scaled_magnitude,
    significand,
};
use vstd::prelude::*;
use vstd::string::*;

verus! {

/// Pollen severity bucket, aligned to the EAN scale, plus `OffSeason` for a
/// reading of zero (the species is not producing pollen here right now).
///
/// Declaration order is severity order.
#[derive(Debug, Clone, Copy, PartialEq, Eq, Structural, PartialOrd, Ord)]
pub enum PollenLevel {
    OffSeason,
    Low,
    Moderate,
    High,
    VeryHigh,
}

/// Pollen species the forecast reports.
#[derive(Debug, Clone, Copy, PartialEq, Eq, Structural)]
pub enum PollenSpecies {
    Alder,
    Birch,
    Grass,
    Mugwort,
    Olive,
    Ragweed,
}

/// Rank of a level in severity order (`OffSeason` lowest).
pub open spec fn severity(level: PollenLevel) -> nat {
    match level {
        PollenLevel::OffSeason => 0,
        PollenLevel::Low => 1,
        PollenLevel::Moderate => 2,
        PollenLevel::High => 3,
        PollenLevel::VeryHigh => 4,
    }
}

impl PollenLevel {
    /// Rank of the level in severity order.
    pub fn severity_rank(&self) -> (r: u8)
        ensures
            r == severity(*self),
    {
        match self {
            PollenLevel::OffSeason => 0,
            PollenLevel::Low => 1,
            PollenLevel::Moderate => 2,
            PollenLevel::High => 3,
            PollenLevel::VeryHigh => 4,
        }
    }
}

/// Upper bounds (grains/m³, inclusive) of the Low, Moderate and High tiers for
/// a species: trees (alder, birch), grasses and weeds (grass, mugwort,
/// ragweed), and olive on its own scale.
pub open spec fn tier_bounds(species: PollenSpecies) -> (nat, nat, nat) {
    match species {
        PollenSpecies::Alder | PollenSpecies::Birch => (10, 100, 1000),
        PollenSpecies::Grass | PollenSpecies::Mugwort | PollenSpecies::Ragweed => (5, 20, 50),
        PollenSpecies::Olive => (10, 50, 200),
    }
}

/// The EAN level of a reading: anything at or below zero is `OffSeason`;
/// otherwise the first tier whose bound the reading does not exceed, or
/// `VeryHigh` above all of them (a NaN reading exceeds every bound).
pub open spec fn level_of(species: PollenSpecies, grains: u32) -> PollenLevel {
    let (low, moderate, high) = tier_bounds(species);
    if f32_le_int(grains, 0) {
        PollenLevel::OffSeason
    } else if f32_le_int(grains, low) {
        PollenLevel::Low
    } else if f32_le_int(grains, moderate) {
        PollenLevel::Moderate
    } else if f32_le_int(grains, high) {
        PollenLevel::High
    } else {
        PollenLevel::VeryHigh
    }
}

/// The three tier bounds of a species (grains/m³).
fn tier_bounds_exec(species: PollenSpecies) -> (r: (u32, u32, u32))
    ensures
        r.0 as nat == tier_bounds(species).0,
        r.1 as nat == tier_bounds(species).1,
        r.2 as nat == tier_bounds(species).2,
{
    match species {
        PollenSpecies::Alder | PollenSpecies::Birch => (10, 100, 1000),
        PollenSpecies::Grass | PollenSpecies::Mugwort | PollenSpecies::Ragweed => (5, 20, 50),
        PollenSpecies::Olive => (10, 50, 200),
    }
}

/// Categorizes a grains/m³ reading (the bit pattern of its `f32` value) for a
/// species using the EAN thresholds.
pub fn categorize_pollen(species: PollenSpecies, grains: u32) -> (r: PollenLevel)
    ensures
        r == level_of(species, grains),
{
    if bits_le_int(grains, 0) {
        return PollenLevel::OffSeason;
    }
    let (low, moderate, high) = tier_bounds_exec(species);
    if bits_le_int(grains, low) {
        PollenLevel::Low
    } else if bits_le_int(grains, moderate) {
        PollenLevel::Moderate
    } else if bits_le_int(grains, high) {
        PollenLevel::High
    } else {
        PollenLevel::VeryHigh
    }
}

/// The six per-species readings of one pollen forecast, each the bit pattern
/// of the provider's `f32` grains/m³ value.
#[derive(Debug, Clone, Copy, PartialEq, Eq, Structural)]
pub struct PollenReadings {
    pub alder: u32,
    pub birch: u32,
    pub grass: u32,
    pub mugwort: u32,
    pub olive: u32,
    pub ragweed: u32,
}

/// The readings in natural species order.
pub open spec fn readings_seq(data: PollenReadings) -> Seq<(PollenSpecies, u32)> {
    seq![
        (PollenSpecies::Alder, data.alder),
        (PollenSpecies::Birch, data.birch),
        (PollenSpecies::Grass, data.grass),
        (PollenSpecies::Mugwort, data.mugwort),
        (PollenSpecies::Olive, data.olive),
        (PollenSpecies::Ragweed, data.ragweed),
    ]
}

/// Each species paired with its raw reading, in natural species order
/// (Alder, Birch, Grass, Mugwort, Olive, Ragweed). No categorization or
/// filtering.
pub fn species_readings(data: &PollenReadings) -> (r: [(PollenSpecies, u32); 6])
    ensures
        r@ == readings_seq(*data),
{
    let r = [
        (PollenSpecies::Alder, data.alder),
        (PollenSpecies::Birch, data.birch),
        (PollenSpecies::Grass, data.grass),
        (PollenSpecies::Mugwort, data.mugwort),
        (PollenSpecies::Olive, data.olive),
        (PollenSpecies::Ragweed, data.ragweed),
    ];
    assert(r@ =~= readings_seq(*data));
    r
}

/// The entries of `rs` whose level is not `OffSeason`, each with its level,
/// in their order.
pub open spec fn active_of(rs: Seq<(PollenSpecies, u32)>) -> Seq<(PollenSpecies, u32, PollenLevel)>
    decreases rs.len(),
{
    if rs.len() == 0 {
        Seq::empty()
    } else {
        let prefix = active_of(rs.drop_last());
        let (s, g) = rs.last();
        let level = level_of(s, g);
        if level == PollenLevel::OffSeason {
            prefix
        } else {
            prefix.push((s, g, level))
        }
    }
}

/// The species with a reading above `OffSeason`, with the raw reading and its
/// EAN level, in natural species order.
pub fn active_pollen_species(data: &PollenReadings) -> (r: Vec<(PollenSpecies, u32, PollenLevel)>)
    ensures
        r@ == active_of(readings_seq(*data)),
{
    let rows = species_readings(data);
    let mut out: Vec<(PollenSpecies, u32, PollenLevel)> = Vec::new();
    let mut i: usize = 0;
    while i < 6
        invariant
            i <= 6,
            rows@ == readings_seq(*data),
            out@ == active_of(readings_seq(*data).take(i as int)),
        decreases 6 - i,
    {
        let (s, g) = rows[i];
        let level = categorize_pollen(s, g);
        proof {
            let rs = readings_seq(*data);
            assert(rs.take(i + 1).drop_last() =~= rs.take(i as int));
            assert(rs.take(i + 1).last() == rs[i as int]);
        }
        if level != PollenLevel::OffSeason {
            out.push((s, g, level));
        }
        i = i + 1;
    }
    assert(readings_seq(*data).take(6) =~= readings_seq(*data));
    out
}

/// Index of the entry a "maximum by severity" scan settles on: the last entry
/// among those of highest severity.
pub open spec fn lead_index(a: Seq<(PollenSpecies, u32, PollenLevel)>) -> int
    decreases a.len(),
{
    if a.len() <= 1 {
        0
    } else {
        let j = lead_index(a.drop_last());
        if severity(a.last().2) >= severity(a[j].2) {
            a.len() - 1
        } else {
            j
        }
    }
}

/// The lead index picks a most severe entry, the last among equals.
proof fn lemma_lead_index(a: Seq<(PollenSpecies, u32, PollenLevel)>)
    requires
        a.len() > 0,
    ensures
        0 <= lead_index(a) < a.len(),
        forall|i: int| 0 <= i < a.len() ==> severity(#[trigger] a[i].2) <= severity(a[lead_index(a)].2),
        forall|i: int| lead_index(a) < i < a.len() ==> severity(#[trigger] a[i].2) < severity(a[lead_index(a)].2),
    decreases a.len(),
{
    if a.len() > 1 {
        let p = a.drop_last();
        lemma_lead_index(p);
        let j = lead_index(p);
        let k = lead_index(a);
        assert(a[j] == p[j]);
        assert forall|i: int| 0 <= i < a.len() implies severity(#[trigger] a[i].2) <= severity(
            a[k].2,
        ) by {
            if i < a.len() - 1 {
                assert(a[i] == p[i]);
            }
        }
        assert forall|i: int| k < i < a.len() implies severity(#[trigger] a[i].2) < severity(
            a[k].2,
        ) by {
            if i < a.len() - 1 {
                assert(a[i] == p[i]);
            }
        }
    }
}

/// What the panel shows of one pollen forecast: the leading species and its
/// level, and how many other species are active.
#[derive(Debug, Clone, Copy, PartialEq, Eq, Structural)]
pub struct PollenHeadline {
    pub species: PollenSpecies,
    pub level: PollenLevel,
    pub others: usize,
}

/// The headline of a forecast: `None` when every species is off season;
/// otherwise the highest-severity active species (the last one in species
/// order among equals), and the count of the remaining active species.
pub fn pollen_headline(data: &PollenReadings) -> (r: Option<PollenHeadline>)
    ensures
        ({
            let a = active_of(readings_seq(*data));
            match r {
                None => a.len() == 0,
                Some(h) => {
                    &&& a.len() > 0
                    &&& h.species == a[lead_index(a)].0
                    &&& h.level == a[lead_index(a)].2
                    &&& h.others == a.len() - 1
                },
            }
        }),
{
    let active = active_pollen_species(data);
    if active.len() == 0 {
        return None;
    }
    let mut best: usize = 0;
    let mut i: usize = 1;
    while i < active.len()
        invariant
            1 <= i <= active@.len(),
            best == lead_index(active@.take(i as int)),
        decreases active@.len() - i,
    {
        proof {
            let a = active@;
            assert(a.take(i + 1).drop_last() =~= a.take(i as int));
            lemma_lead_index(a.take(i as int));
        }
        if active[i].2.severity_rank() >= active[best].2.severity_rank() {
            best = i;
        }
        i = i + 1;
    }
    assert(active@.take(active@.len() as int) =~= active@);
    proof {
        lemma_lead_index(active@);
    }
    Some(PollenHeadline { species: active[best].0, level: active[best].2, others: active.len() - 1 })
}

/// Message id of the localized description of a pollen level.
pub open spec fn pollen_level_key(level: PollenLevel) -> Seq<char> {
    match level {
        PollenLevel::OffSeason => "pollen-level-off-season"@,
        PollenLevel::Low => "pollen-level-low"@,
        PollenLevel::Moderate => "pollen-level-moderate"@,
        PollenLevel::High => "pollen-level-high"@,
        PollenLevel::VeryHigh => "pollen-level-very-high"@,
    }
}

/// Message id of the localized description of a pollen level; the caller
/// looks it up in the translation catalogue.
pub fn pollen_level_to_description(level: PollenLevel) -> (r: String)
    ensures
        r@ == pollen_level_key(level),
{
    match level {
        PollenLevel::OffSeason => String::from_str("pollen-level-off-season"),
        PollenLevel::Low => String::from_str("pollen-level-low"),
        PollenLevel::Moderate => String::from_str("pollen-level-moderate"),
        PollenLevel::High => String::from_str("pollen-level-high"),
        PollenLevel::VeryHigh => String::from_str("pollen-level-very-high"),
    }
}

/// Message id of the localized common name of a pollen species.
pub open spec fn pollen_species_key(species: PollenSpecies) -> Seq<char> {
    match species {
        PollenSpecies::Alder => "pollen-species-alder"@,
        PollenSpecies::Birch => "pollen-species-birch"@,
        PollenSpecies::Grass => "pollen-species-grass"@,
        PollenSpecies::Mugwort => "pollen-species-mugwort"@,
        PollenSpecies::Olive => "pollen-species-olive"@,
        PollenSpecies::Ragweed => "pollen-species-ragweed"@,
    }
}

/// Message id of the localized common name of a pollen species.
pub fn pollen_species_to_description(species: PollenSpecies) -> (r: String)
    ensures
        r@ == pollen_species_key(species),
{
    match species {
        PollenSpecies::Alder => String::from_str("pollen-species-alder"),
        PollenSpecies::Birch => String::from_str("pollen-species-birch"),
        PollenSpecies::Grass => String::from_str("pollen-species-grass"),
        PollenSpecies::Mugwort => String::from_str("pollen-species-mugwort"),
        PollenSpecies::Olive => String::from_str("pollen-species-olive"),
        PollenSpecies::Ragweed => String::from_str("pollen-species-ragweed"),
    }
}

/// A reading of zero (of either sign) is `OffSeason` for every species.
pub proof fn zero_reading_is_off_season(species: PollenSpecies)
    ensures
        level_of(species, 0) == PollenLevel::OffSeason,
        level_of(species, 0x8000_0000) == PollenLevel::OffSeason,
{
    vstd::arithmetic::power2::lemma_pow2_pos(150);
    vstd::arithmetic::power2::lemma_pow2_pos(1);
    assert(significand(0) == 0);
    assert(scaled_magnitude(0) == 0);
    assert(significand(0x8000_0000) == 0);
    assert(scaled_magnitude(0x8000_0000) == 0);
}

/// More pollen never means a lower level: for any species, of two readings
/// that are not NaN, the smaller one is at most as severe as the larger.
pub proof fn pollen_level_is_monotone(species: PollenSpecies, a: u32, b: u32)
    requires
        !is_nan_bits(a),
        !is_nan_bits(b),
        bits_value_le(a, b),
    ensures
        severity(level_of(species, a)) <= severity(level_of(species, b)),
{
    let (low, moderate, high) = tier_bounds(species);
    if f32_le_int(b, 0) {
        lemma_le_int_downward(a, b, 0);
    }
    if f32_le_int(b, low) {
        lemma_le_int_downward(a, b, low);
    }
    if f32_le_int(b, moderate) {
        lemma_le_int_downward(a, b, moderate);
    }
    if f32_le_int(b, high) {
        lemma_le_int_downward(a, b, high);
    }
}

/// The level a reading has on a scale whose Low, Moderate and High tiers end
/// at the given bounds (grains/m³, inclusive).
pub open spec fn level_on_scale(grains: u32, low: nat, moderate: nat, high: nat) -> PollenLevel {
    if f32_le_int(grains, 0) {
        PollenLevel::OffSeason
    } else if f32_le_int(grains, low) {
        PollenLevel::Low
    } else if f32_le_int(grains, moderate) {
        PollenLevel::Moderate
    } else if f32_le_int(grains, high) {
        PollenLevel::High
    } else {
        PollenLevel::VeryHigh
    }
}

/// Every reading is judged on the EAN scale of its species family: alder and
/// birch on the tree scale 10/100/1000, grass, mugwort and ragweed on the
/// grass-and-weed scale 5/20/50, olive on its own scale 10/50/200. Species of
/// one family always get the same level.
pub proof fn species_use_their_ean_scale(grains: u32)
    ensures
        level_of(PollenSpecies::Alder, grains) == level_on_scale(grains, 10, 100, 1000),
        level_of(PollenSpecies::Birch, grains) == level_on_scale(grains, 10, 100, 1000),
        level_of(PollenSpecies::Grass, grains) == level_on_scale(grains, 5, 20, 50),
        level_of(PollenSpecies::Mugwort, grains) == level_on_scale(grains, 5, 20, 50),
        level_of(PollenSpecies::Ragweed, grains) == level_on_scale(grains, 5, 20, 50),
        level_of(PollenSpecies::Olive, grains) == level_on_scale(grains, 10, 50, 200),
        level_of(PollenSpecies::Mugwort, grains) == level_of(PollenSpecies::Grass, grains),
        level_of(PollenSpecies::Ragweed, grains) == level_of(PollenSpecies::Grass, grains),
        level_of(PollenSpecies::Birch, grains) == level_of(PollenSpecies::Alder, grains),
{
}

/// A grass-family reading above 20 and at most 50 grains/m³ is High, and a
/// tree reading in the same range is Moderate.
pub proof fn weed_and_tree_scales_differ(grains: u32)
    requires
        !f32_le_int(grains, 20),
        f32_le_int(grains, 50),
    ensures
        level_of(PollenSpecies::Grass, grains) == PollenLevel::High,
        level_of(PollenSpecies::Mugwort, grains) == PollenLevel::High,
        level_of(PollenSpecies::Ragweed, grains) == PollenLevel::High,
        level_of(PollenSpecies::Alder, grains) == PollenLevel::Moderate,
        level_of(PollenSpecies::Birch, grains) == PollenLevel::Moderate,
{
    if f32_le_int(grains, 10) {
        lemma_le_int_upward(grains, 10, 20);
    }
    if f32_le_int(grains, 5) {
        lemma_le_int_upward(grains, 5, 20);
    }
    if f32_le_int(grains, 0) {
        lemma_le_int_upward(grains, 0, 20);
    }
    lemma_le_int_upward(grains, 50, 100);
}

} // verus!
