use vstd::prelude::*;

use crate::config::settings::ChickenSettings;

verus! {

/// Which of the player's resources a check looks at.
#[derive(Debug, Clone, Copy, PartialEq, Eq, Structural)]
pub enum CheckType {
    Life,
    Mana,
}

/// The reaction a check asks for.
#[derive(Debug, Clone, Copy, PartialEq, Eq, Structural)]
pub enum SafetyType {
    Idle,
    Town,
    Exit,
    Potion,
    Rejuv,
}

/// The player's current life and mana, in percent of their maximum.
#[derive(Debug, Clone, Copy, PartialEq, Eq, Structural)]
pub struct PlayerVitals {
    pub life_percent: i32,
    pub mana_percent: i32,
}

/// The thresholds that apply to one check: (town, exit, potion, rejuv).
pub open spec fn thresholds(check_type: CheckType, settings: ChickenSettings) -> (i32, i32, i32, i32) {
    match check_type {
        CheckType::Life => (
            settings.town_life,
            settings.exit_life,
            settings.potion_life,
            settings.rejuv_life,
        ),
        CheckType::Mana => (
            settings.town_mana,
            settings.exit_mana,
            settings.potion_mana,
            settings.rejuv_mana,
        ),
    }
}

/// The player's value that a check compares.
pub open spec fn current_value(check_type: CheckType, vitals: PlayerVitals) -> i32 {
    match check_type {
        CheckType::Life => vitals.life_percent,
        CheckType::Mana => vitals.mana_percent,
    }
}

/// A threshold fires when it is switched on (above -1) and the current value
/// has dropped to it or below.
pub open spec fn fires(current: int, threshold: int) -> bool {
    current <= threshold && threshold > -1
}

/// The reaction for one value: exit before potion before rejuvenation before
/// town; nothing when no threshold fires.
pub open spec fn reaction(current: int, town: int, exit: int, potion: int, rejuv: int) -> SafetyType {
    if fires(current, exit) {
        SafetyType::Exit
    } else if fires(current, potion) {
        SafetyType::Potion
    } else if fires(current, rejuv) {
        SafetyType::Rejuv
    } else if fires(current, town) {
        SafetyType::Town
    } else {
        SafetyType::Idle
    }
}

/// What `check` answers: nothing without a player, else the reaction of the
/// checked value against the matching thresholds.
pub open spec fn spec_check(
    check_type: CheckType,
    player: Option<PlayerVitals>,
    settings: ChickenSettings,
) -> SafetyType {
    match player {
        None => SafetyType::Idle,
        Some(vitals) => {
            let (town, exit, potion, rejuv) = thresholds(check_type, settings);
            reaction(current_value(check_type, vitals) as int, town as int, exit as int, potion as int, rejuv as int)
        },
    }
}

/// How urgent a reaction is: exit, then potion, rejuvenation, town, nothing.
pub open spec fn urgency(s: SafetyType) -> int {
    match s {
        SafetyType::Exit => 4,
        SafetyType::Potion => 3,
        SafetyType::Rejuv => 2,
        SafetyType::Town => 1,
        SafetyType::Idle => 0,
    }
}

/// Decides the reaction for one resource of the player (if one is in game).
pub fn check(check_type: CheckType, player: Option<PlayerVitals>, settings: &ChickenSettings) -> (res: SafetyType)
    ensures
        res == spec_check(check_type, player, *settings),
{
    match player {
        None => SafetyType::Idle,
        Some(vitals) => {
            let (current_value, town_value, exit_value, potion_value, rejuv_value) = match check_type {
                CheckType::Life => (
                    vitals.life_percent,
                    settings.town_life,
                    settings.exit_life,
                    settings.potion_life,
                    settings.rejuv_life,
                ),
                CheckType::Mana => (
                    vitals.mana_percent,
                    settings.town_mana,
                    settings.exit_mana,
                    settings.potion_mana,
                    settings.rejuv_mana,
                ),
            };
            if current_value <= exit_value && exit_value > -1 {
                SafetyType::Exit
            } else if current_value <= potion_value && potion_value > -1 {
                SafetyType::Potion
            } else if current_value <= rejuv_value && rejuv_value > -1 {
                SafetyType::Rejuv
            } else if current_value <= town_value && town_value > -1 {
                SafetyType::Town
            } else {
                SafetyType::Idle
            }
        },
    }
}

/// Runs the life check and then the mana check; the caller leaves the game
/// once for every `Exit` among the answers, and does nothing for the others.
pub fn run(player: Option<PlayerVitals>, settings: &ChickenSettings) -> (res: Vec<SafetyType>)
    ensures
        res@ == seq![
            spec_check(CheckType::Life, player, *settings),
            spec_check(CheckType::Mana, player, *settings),
        ],
{
    let mut res: Vec<SafetyType> = Vec::new();
    let life = check(CheckType::Life, player, settings);
    res.push(life);
    let mana = check(CheckType::Mana, player, settings);
    res.push(mana);
    res
}

/// A reaction never gets less urgent as the value drops: whatever fires at
/// `current` still fires at any `lower` value, and the most urgent firing
/// reaction is chosen.
pub proof fn lemma_lower_value_is_at_least_as_urgent(
    lower: int,
    current: int,
    town: int,
    exit: int,
    potion: int,
    rejuv: int,
)
    requires
        lower <= current,
    ensures
        urgency(reaction(lower, town, exit, potion, rejuv)) >= urgency(reaction(current, town, exit, potion, rejuv)),
{
}

/// The life check, threshold by threshold: with a player present, it
/// answers `Exit` exactly when life has dropped to `exit_life` (and that
/// threshold is on, above -1); otherwise `Potion` exactly when it has
/// dropped to `potion_life`; otherwise `Rejuv` for `rejuv_life`; otherwise
/// `Town` for `town_life`; and `Idle` when none of them is reached.
pub proof fn lemma_life_check_thresholds(vitals: PlayerVitals, settings: ChickenSettings)
    ensures
        ({
            let r = spec_check(CheckType::Life, Some(vitals), settings);
            let v = vitals.life_percent;
            let exit = v <= settings.exit_life && settings.exit_life > -1;
            let potion = v <= settings.potion_life && settings.potion_life > -1;
            let rejuv = v <= settings.rejuv_life && settings.rejuv_life > -1;
            let town = v <= settings.town_life && settings.town_life > -1;
            &&& (r == SafetyType::Exit) == exit
            &&& (r == SafetyType::Potion) == (!exit && potion)
            &&& (r == SafetyType::Rejuv) == (!exit && !potion && rejuv)
            &&& (r == SafetyType::Town) == (!exit && !potion && !rejuv && town)
            &&& (r == SafetyType::Idle) == (!exit && !potion && !rejuv && !town)
        }),
{
}

/// The mana check, threshold by threshold: with a player present, it
/// answers `Exit` exactly when mana has dropped to `exit_mana` (and that
/// threshold is on, above -1); otherwise `Potion` exactly when it has
/// dropped to `potion_mana`; otherwise `Rejuv` for `rejuv_mana`; otherwise
/// `Town` for `town_mana`; and `Idle` when none of them is reached. Life
/// plays no part in it.
pub proof fn lemma_mana_check_thresholds(vitals: PlayerVitals, settings: ChickenSettings)
    ensures
        ({
            let r = spec_check(CheckType::Mana, Some(vitals), settings);
            let v = vitals.mana_percent;
            let exit = v <= settings.exit_mana && settings.exit_mana > -1;
            let potion = v <= settings.potion_mana && settings.potion_mana > -1;
            let rejuv = v <= settings.rejuv_mana && settings.rejuv_mana > -1;
            let town = v <= settings.town_mana && settings.town_mana > -1;
            &&& (r == SafetyType::Exit) == exit
            &&& (r == SafetyType::Potion) == (!exit && potion)
            &&& (r == SafetyType::Rejuv) == (!exit && !potion && rejuv)
            &&& (r == SafetyType::Town) == (!exit && !potion && !rejuv && town)
            &&& (r == SafetyType::Idle) == (!exit && !potion && !rejuv && !town)
        }),
{
}

/// Without a player in game, no check asks for anything.
pub proof fn lemma_no_player_no_reaction(check_type: CheckType, settings: ChickenSettings)
    ensures
        spec_check(check_type, None, settings) == SafetyType::Idle,
{
}

/// The checks `run` makes leave the game exactly when life has reached the
/// exit-life threshold or mana the exit-mana threshold (each switched on).
pub proof fn lemma_run_exits(vitals: PlayerVitals, settings: ChickenSettings)
    ensures
        (spec_check(CheckType::Life, Some(vitals), settings) == SafetyType::Exit) == (vitals.life_percent
            <= settings.exit_life && settings.exit_life > -1),
        (spec_check(CheckType::Mana, Some(vitals), settings) == SafetyType::Exit) == (vitals.mana_percent
            <= settings.exit_mana && settings.exit_mana > -1),
{
}

/// Thresholds below zero are switched off: with all four off, no value
/// triggers any reaction.
pub proof fn lemma_switched_off_never_fires(current: int, town: int, exit: int, potion: int, rejuv: int)
    requires
        town < 0,
        exit < 0,
        potion < 0,
        rejuv < 0,
    ensures
        reaction(current, town, exit, potion, rejuv) == SafetyType::Idle,
{
}

} // verus!
