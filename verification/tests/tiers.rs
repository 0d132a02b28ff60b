use xiuxian::realm::Realm;

fn rank(r: Realm) -> u32 {
    match r {
        Realm::Mortal => 1,
        Realm::QiRefining => 2,
        Realm::FoundationBuilding => 3,
        Realm::CoreFormation => 4,
        Realm::SpiritTransformation => 5,
    }
}

#[test]
fn tier_band_boundaries() {
    assert_eq!(Realm::from_experience(0), Realm::Mortal);
    assert_eq!(Realm::from_experience(50), Realm::Mortal);
    assert_eq!(Realm::from_experience(51), Realm::QiRefining);
    assert_eq!(Realm::from_experience(150), Realm::QiRefining);
    assert_eq!(Realm::from_experience(151), Realm::FoundationBuilding);
    assert_eq!(Realm::from_experience(300), Realm::FoundationBuilding);
    assert_eq!(Realm::from_experience(301), Realm::CoreFormation);
    assert_eq!(Realm::from_experience(500), Realm::CoreFormation);
    assert_eq!(Realm::from_experience(501), Realm::SpiritTransformation);
    assert_eq!(Realm::from_experience(u32::MAX), Realm::SpiritTransformation);
}

#[test]
fn tier_monotonic_in_experience() {
    let mut last = 0;
    for e in 0..1200u32 {
        let r = rank(Realm::from_experience(e));
        assert!(r >= last, "rank dropped at experience {}", e);
        last = r;
    }
}

#[test]
fn tier_display_names() {
    assert_eq!(Realm::Mortal.display_name(), "凡人境");
    assert_eq!(Realm::QiRefining.display_name(), "炼气期");
    assert_eq!(Realm::FoundationBuilding.display_name(), "筑基期");
    assert_eq!(Realm::CoreFormation.display_name(), "结丹期");
    assert_eq!(Realm::SpiritTransformation.display_name(), "化神期");
}
