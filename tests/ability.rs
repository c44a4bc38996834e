use rpg_combat::ability::{Ability, AbilityModifier};
use rpg_combat::model::{AbilityModel, AbilityModelType, ModifierPool};

#[test]
fn test_display() {
    assert_eq!(Ability::Luck(105).to_string(), "\tLuck: 105\n");
}

#[test]
fn biased_ability() {
    let mut pool = ModifierPool::new();
    let ability_stamina = pool.add(Ability::Stamina(100).into());
    let ability_endurement = pool.add(Ability::Endurement(160).into());
    let defense = AbilityModel::new(
        AbilityModelType::WeigthedOnPrior,
        ability_stamina,
        Some(ability_endurement),
    )
    .expect("it should succeed.");
    assert_eq!(defense.value(&mut pool), 120);
    pool.apply_positive(ability_stamina, 60);
    assert_eq!(defense.value(&mut pool), 160);
    pool.apply_negative(ability_endurement, 60);
    assert_eq!(defense.value(&mut pool), 140);
}

#[test]
fn multiple_modifier() {
    let mut pool = ModifierPool::new();
    let ability_intelligence = pool.add(Ability::Intelligence(100).into());
    let buff = AbilityModel::new(AbilityModelType::Single, ability_intelligence, None)
        .expect("it should succeed");
    assert_eq!(buff.value(&mut pool), 100);
    pool.apply_positive(ability_intelligence, 30);
    pool.apply_positive(ability_intelligence, 50);
    pool.apply_positive(ability_intelligence, 40);
    assert_eq!(buff.value(&mut pool), 190);
    pool.apply_negative(ability_intelligence, -40);
    pool.apply_negative(ability_intelligence, -50);
    pool.apply_negative(ability_intelligence, -60);
    assert_eq!(buff.value(&mut pool), 80);
}

#[test]
fn typename_and_value_of_each_kind() {
    let all = [
        (Ability::Strength(1), "Strength", 1),
        (Ability::Dexterity(-2), "Dexterity", -2),
        (Ability::Stamina(3), "Stamina", 3),
        (Ability::Endurement(4), "Endurement", 4),
        (Ability::Luck(5), "Luck", 5),
        (Ability::Intelligence(6), "Intelligence", 6),
    ];
    for (a, name, v) in all {
        assert_eq!(a.typename(), name);
        assert_eq!(a.value(), v);
    }
}

#[test]
fn display_of_negative_value() {
    assert_eq!(Ability::Strength(-7).to_string(), "\tStrength: -7\n");
    assert_eq!(Ability::Dexterity(0).to_string(), "\tDexterity: 0\n");
}

#[test]
fn modifier_display_shows_slots_and_cache() {
    let mut m = AbilityModifier::from(Ability::Luck(105));
    assert_eq!(m.to_string(), "[\tLuck: 105\n, modifiers: 0,0,0,0] -> <Lazy>");
    m.apply_positive(20);
    m.apply_negative(15);
    assert_eq!(m.value(), 110);
    assert_eq!(
        m.to_string(),
        "[\tLuck: 105\n, modifiers: 20,0,-15,0] -> 110"
    );
}

#[test]
fn value_read_twice_is_the_same() {
    let mut m = AbilityModifier::from(Ability::Stamina(40));
    m.apply_positive(7);
    let first = m.value();
    let second = m.value();
    assert_eq!(first, 47);
    assert_eq!(first, second);
}

#[test]
fn applied_bonus_clears_the_cache() {
    let mut m = AbilityModifier::from(Ability::Stamina(40));
    assert_eq!(m.value(), 40);
    m.apply_positive(5);
    assert_eq!(m.value(), 45);
    m.apply_negative(3);
    assert_eq!(m.value(), 42);
    // too small to take a slot: nothing changes
    m.apply_positive(-1);
    assert_eq!(m.value(), 42);
}

#[test]
fn bonus_equal_to_top_takes_its_slot() {
    let mut m = AbilityModifier::from(Ability::Strength(100));
    m.apply_positive(30);
    m.apply_positive(30);
    assert_eq!(m.value(), 160);
    m.apply_positive(10);
    assert_eq!(m.value(), 160);
    m.apply_positive(30);
    assert_eq!(m.value(), 160);
}

#[test]
fn penalty_sign_does_not_matter() {
    let mut a = AbilityModifier::from(Ability::Luck(190));
    let mut b = AbilityModifier::from(Ability::Luck(190));
    for x in [40, 50, 60] {
        a.apply_negative(x);
        b.apply_negative(-x);
    }
    assert_eq!(a.value(), 80);
    assert_eq!(b.value(), 80);
}

#[test]
fn equal_average_truncates() {
    let mut pool = ModifierPool::new();
    let x = pool.add(Ability::Stamina(101).into());
    let y = pool.add(Ability::Endurement(100).into());
    let m = AbilityModel::new(AbilityModelType::Equal, x, Some(y)).expect("valid");
    assert_eq!(m.value(&mut pool), 100);
}

#[test]
fn averages_truncate_toward_zero_for_negative_sums() {
    let mut pool = ModifierPool::new();
    let x = pool.add(Ability::Stamina(-101).into());
    let y = pool.add(Ability::Endurement(100).into());
    let eq = AbilityModel::new(AbilityModelType::Equal, x, Some(y)).expect("valid");
    assert_eq!(eq.value(&mut pool), 0);
    let w = AbilityModel::new(AbilityModelType::WeigthedOnPrior, x, Some(y)).expect("valid");
    assert_eq!(w.value(&mut pool), -34);
}

#[test]
fn identity_and_equal_over_one_modifier() {
    let mut pool = ModifierPool::new();
    let int = pool.add(Ability::Intelligence(300).into());
    let sta = pool.add(Ability::Stamina(100).into());
    let single = AbilityModel::new(AbilityModelType::Single, int, None).expect("valid");
    assert_eq!(single.value(&mut pool), 300);
    let equal = AbilityModel::new(AbilityModelType::Equal, sta, Some(sta)).expect("valid");
    assert_eq!(equal.value(&mut pool), 100);
}

#[test]
fn blend_without_second_modifier_is_refused() {
    let mut pool = ModifierPool::new();
    let sta = pool.add(Ability::Stamina(100).into());
    assert!(matches!(
        AbilityModel::new(AbilityModelType::Equal, sta, None),
        Err(AbilityModelType::Equal)
    ));
    assert!(matches!(
        AbilityModel::new(AbilityModelType::WeigthedOnPrior, sta, None),
        Err(AbilityModelType::WeigthedOnPrior)
    ));
    assert!(AbilityModel::new(AbilityModelType::Single, sta, None).is_ok());
}

#[test]
fn shared_modifier_seen_by_every_model() {
    let mut pool = ModifierPool::new();
    let sta = pool.add(Ability::Stamina(100).into());
    let end = pool.add(Ability::Endurement(50).into());
    let a = AbilityModel::new(AbilityModelType::Single, sta, None).expect("valid");
    let b = AbilityModel::new(AbilityModelType::Equal, end, Some(sta)).expect("valid");
    assert_eq!(a.value(&mut pool), 100);
    assert_eq!(b.value(&mut pool), 75);
    pool.apply_positive(sta, 20);
    assert_eq!(a.value(&mut pool), 120);
    assert_eq!(b.value(&mut pool), 85);
    assert_eq!(pool.len(), 2);
    assert_eq!(pool.modifier(sta).value(), 120);
}

#[test]
fn readiness_checks() {
    let mut pool = ModifierPool::new();
    let big = pool.add(Ability::Luck(i32::MAX).into());
    let small = pool.add(Ability::Luck(5).into());
    let m = AbilityModel::new(AbilityModelType::Single, small, None).expect("valid");
    assert!(m.readable_in(&pool));
    let out = AbilityModel::new(AbilityModelType::Single, 7, None).expect("valid");
    assert!(!out.readable_in(&pool));
    pool.apply_positive(big, 1);
    assert!(!pool.modifier(big).total_in_range());
    let e = AbilityModel::new(AbilityModelType::Equal, small, Some(big)).expect("valid");
    assert!(!e.readable_in(&pool));
    assert!(pool.modifier(small).total_in_range());
}
