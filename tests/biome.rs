use terrain_gen::biome::{biome_map, classify, Biome, CellClass, Relief, Shoreline, Wetness};

const SHORES: [Shoreline; 5] =
    [Shoreline::Deep, Shoreline::Shallow, Shoreline::Shore, Shoreline::Land, Shoreline::FlatLand];
const RELIEFS: [Relief; 5] = [Relief::Low, Relief::Middle, Relief::Upper, Relief::High, Relief::Peak];
const WETS: [Wetness; 6] =
    [Wetness::Arid, Wetness::Dry, Wetness::Fair, Wetness::Moist, Wetness::Wet, Wetness::Soaked];

// Sea level 0.35 throughout: elevation 0.1 lies below 0.25.
#[test]
fn deep_ocean_classification() {
    assert_eq!(classify(Shoreline::Deep, Relief::Low, Wetness::Moist), Biome::DeepOcean);
}

// Elevation 0.30 lies in [0.25, 0.35).
#[test]
fn shallow_water_classification() {
    assert_eq!(classify(Shoreline::Shallow, Relief::Low, Wetness::Moist), Biome::ShallowWater);
}

// Elevation 0.36 lies in [0.35, 0.37).
#[test]
fn beach_classification() {
    assert_eq!(classify(Shoreline::Shore, Relief::Low, Wetness::Moist), Biome::Beach);
}

// Elevation 0.95: land elevation 0.6 / 0.65 > 0.85; moisture 0.5.
#[test]
fn snow_at_high_elevation() {
    assert_eq!(classify(Shoreline::Land, Relief::Peak, Wetness::Moist), Biome::Snow);
}

// Elevation 0.5: land elevation 0.15 / 0.65 < 0.25; moisture 0.1.
#[test]
fn desert_low_moisture() {
    assert_eq!(classify(Shoreline::Land, Relief::Low, Wetness::Arid), Biome::Desert);
}

// Elevation 0.5: land elevation below 0.25; moisture 0.5.
#[test]
fn forest_medium_moisture() {
    assert_eq!(classify(Shoreline::Land, Relief::Low, Wetness::Moist), Biome::Forest);
}

#[test]
fn all_extremes_classified() {
    for s in SHORES {
        for r in RELIEFS {
            for w in WETS {
                let b = classify(s, r, w);
                assert!(b.code() <= 10);
                assert_ne!(b, Biome::Volcanic);
            }
        }
    }
}

#[test]
fn land_rules_in_order() {
    let land = Shoreline::Land;
    assert_eq!(classify(land, Relief::High, Wetness::Soaked), Biome::Mountain);
    assert_eq!(classify(land, Relief::Upper, Wetness::Dry), Biome::Tundra);
    assert_eq!(classify(land, Relief::Upper, Wetness::Arid), Biome::Tundra);
    assert_eq!(classify(land, Relief::Middle, Wetness::Arid), Biome::Desert);
    assert_eq!(classify(land, Relief::Low, Wetness::Soaked), Biome::Jungle);
    assert_eq!(classify(land, Relief::Middle, Wetness::Soaked), Biome::DenseForest);
    assert_eq!(classify(land, Relief::Low, Wetness::Wet), Biome::DenseForest);
    assert_eq!(classify(land, Relief::Upper, Wetness::Fair), Biome::Grassland);
    assert_eq!(classify(land, Relief::Middle, Wetness::Dry), Biome::Grassland);
    assert_eq!(classify(Shoreline::FlatLand, Relief::Peak, Wetness::Arid), Biome::Grassland);
}

#[test]
fn codes_round_trip() {
    for c in 0u8..=11 {
        let b = Biome::from_code(c).unwrap();
        assert_eq!(b.code(), c);
    }
    assert_eq!(Biome::Volcanic.code(), 11);
    assert_eq!(Biome::DeepOcean.code(), 0);
    assert_eq!(Biome::from_code(12), None);
    assert_eq!(Biome::from_code(255), None);
}

#[test]
fn biome_map_contains_valid_values() {
    let mut cells = Vec::new();
    for s in SHORES {
        for r in RELIEFS {
            for w in WETS {
                cells.push(CellClass { shore: s, relief: r, wet: w });
            }
        }
    }
    let map = biome_map(&cells);
    assert_eq!(map.len(), cells.len());
    assert!(map.iter().all(|&b| b <= 11));
    for (c, code) in cells.iter().zip(map.iter()) {
        assert_eq!(classify(c.shore, c.relief, c.wet).code(), *code);
    }
    assert_eq!(map[0], 0);
}

#[test]
fn biome_map_of_nothing_is_empty() {
    assert!(biome_map(&Vec::new()).is_empty());
}
