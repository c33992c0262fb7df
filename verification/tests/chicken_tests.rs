use genocide::config::settings::{ChickenSettings, Settings};
use genocide::modules::chicken::{check, run, CheckType, PlayerVitals, SafetyType};

fn thresholds() -> ChickenSettings {
    ChickenSettings {
        town_life: 50,
        town_mana: 20,
        exit_life: 20,
        exit_mana: -1,
        potion_life: 25,
        rejuv_life: 30,
        potion_mana: 30,
        rejuv_mana: -1,
    }
}

fn vitals(life: i32, mana: i32) -> Option<PlayerVitals> {
    Some(PlayerVitals { life_percent: life, mana_percent: mana })
}

#[test]
fn no_player_means_no_reaction() {
    let s = thresholds();
    assert_eq!(check(CheckType::Life, None, &s), SafetyType::Idle);
    assert_eq!(check(CheckType::Mana, None, &s), SafetyType::Idle);
}

#[test]
fn life_reactions_follow_priority() {
    let s = thresholds();
    assert_eq!(check(CheckType::Life, vitals(90, 90), &s), SafetyType::Idle);
    assert_eq!(check(CheckType::Life, vitals(50, 90), &s), SafetyType::Town);
    assert_eq!(check(CheckType::Life, vitals(28, 90), &s), SafetyType::Rejuv);
    assert_eq!(check(CheckType::Life, vitals(24, 90), &s), SafetyType::Potion);
    assert_eq!(check(CheckType::Life, vitals(20, 90), &s), SafetyType::Exit);
    assert_eq!(check(CheckType::Life, vitals(0, 90), &s), SafetyType::Exit);
}

#[test]
fn mana_uses_mana_thresholds_and_off_values() {
    let s = thresholds();
    // exit_mana and rejuv_mana are off (-1): even 0 % mana never exits.
    assert_eq!(check(CheckType::Mana, vitals(90, 0), &s), SafetyType::Potion);
    assert_eq!(check(CheckType::Mana, vitals(90, 25), &s), SafetyType::Potion);
    assert_eq!(check(CheckType::Mana, vitals(90, 31), &s), SafetyType::Idle);
    assert_eq!(check(CheckType::Mana, vitals(0, 100), &s), SafetyType::Idle);
}

#[test]
fn zero_threshold_fires_at_zero_only() {
    let s = Settings::new("settings.json");
    assert_eq!(check(CheckType::Life, vitals(0, 5), &s.chicken), SafetyType::Exit);
    assert_eq!(check(CheckType::Life, vitals(1, 5), &s.chicken), SafetyType::Idle);
}

#[test]
fn switched_off_thresholds_never_fire() {
    let s = ChickenSettings {
        town_life: -1,
        town_mana: -5,
        exit_life: -1,
        exit_mana: -1,
        potion_life: -2,
        rejuv_life: -1,
        potion_mana: -1,
        rejuv_mana: -100,
    };
    for v in [-200, -1, 0, 50, 100] {
        assert_eq!(check(CheckType::Life, vitals(v, v), &s), SafetyType::Idle);
        assert_eq!(check(CheckType::Mana, vitals(v, v), &s), SafetyType::Idle);
    }
}

fn urgency(s: SafetyType) -> i32 {
    match s {
        SafetyType::Exit => 4,
        SafetyType::Potion => 3,
        SafetyType::Rejuv => 2,
        SafetyType::Town => 1,
        SafetyType::Idle => 0,
    }
}

#[test]
fn lower_value_is_never_less_urgent() {
    let s = thresholds();
    let mut previous = 0;
    for v in (0..=100).rev() {
        let u = urgency(check(CheckType::Life, vitals(v, 100), &s));
        assert!(u >= previous);
        previous = u;
    }
}

#[test]
fn run_checks_life_then_mana() {
    let s = thresholds();
    assert_eq!(run(vitals(10, 25), &s), vec![SafetyType::Exit, SafetyType::Potion]);
    assert_eq!(run(vitals(100, 100), &s), vec![SafetyType::Idle, SafetyType::Idle]);
    assert_eq!(run(None, &s), vec![SafetyType::Idle, SafetyType::Idle]);
}
