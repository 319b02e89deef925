use peace_performance::DifficultyAttributes;
use peace_performance::FruitsAttributeProvider;
use peace_performance::FruitsPP;
use peace_performance::PpResult;
use peace_performance::StarResult;

fn attributes() -> DifficultyAttributes {
    DifficultyAttributes {
        n_fruits: 1234,
        n_droplets: 567,
        n_tiny_droplets: 2345,
        max_combo: 1801,
    }
}

#[test]
fn provider_attribute_bag() {
    let calculator = FruitsPP::new().attributes(attributes());

    let held = calculator.attributes.unwrap();
    assert_eq!(held.n_fruits, 1234);
    assert_eq!(held.max_combo, 1801);
}

#[test]
fn provider_star_result_same_mode() {
    let calculator = FruitsPP::new().attributes(StarResult::Fruits(attributes()));

    assert_eq!(calculator.attributes.unwrap().n_droplets, 567);
}

#[test]
fn provider_star_result_other_mode_is_ignored() {
    let calculator = FruitsPP::new()
        .attributes(attributes())
        .attributes(StarResult::Taiko);

    // The mismatched provider yields nothing; the earlier attributes stay.
    assert_eq!(calculator.attributes.unwrap().n_fruits, 1234);

    let fresh = FruitsPP::new().attributes(StarResult::Mania);
    assert!(fresh.attributes.is_none());
}

#[test]
fn provider_pp_result_feeds_next_calculation() {
    let result = PpResult {
        mode: 2,
        mods: 72,
        attributes: StarResult::Fruits(attributes()),
    };

    let calculator = FruitsPP::new().attributes(result);
    assert_eq!(calculator.attributes.unwrap().n_tiny_droplets, 2345);

    let mismatched = PpResult {
        mode: 0,
        mods: 0,
        attributes: StarResult::Osu,
    };
    assert!(mismatched.attributes().is_none());
}
