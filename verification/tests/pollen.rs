use tempest::pollen::{
    active_pollen_species, categorize_pollen, pollen_headline, pollen_level_to_description,
    pollen_species_to_description, species_readings, PollenLevel, PollenReadings, PollenSpecies,
};

fn level(species: PollenSpecies, grains: f32) -> PollenLevel {
    categorize_pollen(species, grains.to_bits())
}

#[test]
fn categorizes_live_fixtures_against_ean_scale() {
    assert_eq!(level(PollenSpecies::Grass, 19.1), PollenLevel::Moderate);
    assert_eq!(level(PollenSpecies::Grass, 0.7), PollenLevel::Low);
    assert_eq!(level(PollenSpecies::Grass, 0.2), PollenLevel::Low);
    assert_eq!(level(PollenSpecies::Olive, 0.6), PollenLevel::Low);
}

#[test]
fn zero_collapses_to_off_season_for_every_species() {
    for species in [
        PollenSpecies::Alder,
        PollenSpecies::Birch,
        PollenSpecies::Grass,
        PollenSpecies::Mugwort,
        PollenSpecies::Olive,
        PollenSpecies::Ragweed,
    ] {
        assert_eq!(level(species, 0.0), PollenLevel::OffSeason);
    }
}

#[test]
fn tree_scale_boundaries() {
    assert_eq!(level(PollenSpecies::Birch, 10.0), PollenLevel::Low);
    assert_eq!(level(PollenSpecies::Birch, 10.01), PollenLevel::Moderate);
    assert_eq!(level(PollenSpecies::Birch, 100.0), PollenLevel::Moderate);
    assert_eq!(level(PollenSpecies::Birch, 100.01), PollenLevel::High);
    assert_eq!(level(PollenSpecies::Birch, 1000.0), PollenLevel::High);
    assert_eq!(level(PollenSpecies::Birch, 1000.1), PollenLevel::VeryHigh);
}

#[test]
fn grass_weed_scale_boundaries() {
    assert_eq!(level(PollenSpecies::Grass, 5.0), PollenLevel::Low);
    assert_eq!(level(PollenSpecies::Grass, 20.0), PollenLevel::Moderate);
    assert_eq!(level(PollenSpecies::Grass, 50.0), PollenLevel::High);
    assert_eq!(level(PollenSpecies::Grass, 50.1), PollenLevel::VeryHigh);
    assert_eq!(level(PollenSpecies::Ragweed, 50.1), PollenLevel::VeryHigh);
}

#[test]
fn olive_scale_boundaries() {
    assert_eq!(level(PollenSpecies::Olive, 10.0), PollenLevel::Low);
    assert_eq!(level(PollenSpecies::Olive, 200.0), PollenLevel::High);
    assert_eq!(level(PollenSpecies::Olive, 200.1), PollenLevel::VeryHigh);
}

#[test]
fn negative_zero_nan_and_negative_readings() {
    assert_eq!(level(PollenSpecies::Alder, -0.0), PollenLevel::OffSeason);
    assert_eq!(level(PollenSpecies::Alder, -3.0), PollenLevel::OffSeason);
    assert_eq!(level(PollenSpecies::Alder, f32::INFINITY), PollenLevel::VeryHigh);
    // NaN compares false with every threshold, as in the float comparisons.
    assert_eq!(level(PollenSpecies::Alder, f32::NAN), PollenLevel::VeryHigh);
}

#[test]
fn more_pollen_is_never_less_severe() {
    let samples = [0.0f32, 0.5, 5.0, 5.5, 10.0, 12.0, 20.0, 49.0, 50.0, 60.0, 100.0, 150.0, 200.0, 500.0, 1000.0, 2000.0];
    for species in [PollenSpecies::Birch, PollenSpecies::Grass, PollenSpecies::Olive] {
        for pair in samples.windows(2) {
            assert!(level(species, pair[0]) <= level(species, pair[1]));
        }
    }
}

fn readings(values: [f32; 6]) -> PollenReadings {
    PollenReadings {
        alder: values[0].to_bits(),
        birch: values[1].to_bits(),
        grass: values[2].to_bits(),
        mugwort: values[3].to_bits(),
        olive: values[4].to_bits(),
        ragweed: values[5].to_bits(),
    }
}

#[test]
fn readings_come_in_species_order() {
    let data = readings([1.0, 2.0, 3.0, 4.0, 5.0, 6.0]);
    let rs = species_readings(&data);
    assert_eq!(rs[0], (PollenSpecies::Alder, 1.0f32.to_bits()));
    assert_eq!(rs[2], (PollenSpecies::Grass, 3.0f32.to_bits()));
    assert_eq!(rs[5], (PollenSpecies::Ragweed, 6.0f32.to_bits()));
}

#[test]
fn off_season_species_are_not_active() {
    let data = readings([0.0, 12.0, 0.0, 0.0, 0.6, 0.0]);
    let active = active_pollen_species(&data);
    assert_eq!(active.len(), 2);
    assert_eq!(active[0], (PollenSpecies::Birch, 12.0f32.to_bits(), PollenLevel::Moderate));
    assert_eq!(active[1], (PollenSpecies::Olive, 0.6f32.to_bits(), PollenLevel::Low));
}

#[test]
fn headline_leads_with_the_most_severe_species() {
    let data = readings([0.0, 150.0, 19.1, 0.0, 0.6, 0.0]);
    let h = pollen_headline(&data).unwrap();
    assert_eq!(h.species, PollenSpecies::Birch);
    assert_eq!(h.level, PollenLevel::High);
    assert_eq!(h.others, 2);
    // Among equal levels the last species in order leads.
    let tie = readings([0.0, 12.0, 19.1, 0.0, 0.0, 0.0]);
    assert_eq!(pollen_headline(&tie).unwrap().species, PollenSpecies::Grass);
    assert!(pollen_headline(&readings([0.0; 6])).is_none());
}

#[test]
fn pollen_message_ids() {
    assert_eq!(pollen_level_to_description(PollenLevel::VeryHigh), "pollen-level-very-high");
    assert_eq!(pollen_level_to_description(PollenLevel::OffSeason), "pollen-level-off-season");
    assert_eq!(pollen_species_to_description(PollenSpecies::Mugwort), "pollen-species-mugwort");
}
