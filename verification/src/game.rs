//! Dice-roll dispatch: two literal cases and three flavours of fallback —
//! one that captures the unmatched roll, one that discards it and reacts,
//! and one that discards it and does nothing.

use vstd::prelude::*;

verus! {

/// The action selected when the fallback captures the unmatched roll.
#[derive(Clone, Copy, Debug, PartialEq, Eq, Structural)]
pub enum DiceAction {
    AddFancyHat,
    RemoveFancyHat,
    MovePlayer(i8),
}

/// The action selected when the fallback discards the roll and rerolls.
#[derive(Clone, Copy, Debug, PartialEq, Eq, Structural)]
pub enum RerollAction {
    AddFancyHat,
    RemoveFancyHat,
    Reroll,
}

/// The action selected when the fallback discards the roll and does nothing.
#[derive(Clone, Copy, Debug, PartialEq, Eq, Structural)]
pub enum NoopAction {
    AddFancyHat,
    RemoveFancyHat,
    Noop,
}

/// The dispatch rule with a capturing fallback: a roll of three adds the hat,
/// a roll of seven removes it, and every other roll moves the player by
/// exactly that roll.
pub open spec fn dice_action(roll: i8) -> DiceAction {
    if roll == 3 {
        DiceAction::AddFancyHat
    } else if roll == 7 {
        DiceAction::RemoveFancyHat
    } else {
        DiceAction::MovePlayer(roll)
    }
}

/// The dispatch rule with a discarding fallback that rerolls.
pub open spec fn reroll_action(roll: i8) -> RerollAction {
    if roll == 3 {
        RerollAction::AddFancyHat
    } else if roll == 7 {
        RerollAction::RemoveFancyHat
    } else {
        RerollAction::Reroll
    }
}

/// The dispatch rule with a discarding fallback that does nothing.
pub open spec fn noop_action(roll: i8) -> NoopAction {
    if roll == 3 {
        NoopAction::AddFancyHat
    } else if roll == 7 {
        NoopAction::RemoveFancyHat
    } else {
        NoopAction::Noop
    }
}

/// Selects exactly one action for a roll; the fallback arm binds the
/// unmatched roll and hands it to the move action.
pub fn classify_dice_roll(roll: i8) -> (action: DiceAction)
    ensures
        action == dice_action(roll),
{
    match roll {
        3 => DiceAction::AddFancyHat,
        7 => DiceAction::RemoveFancyHat,
        other => DiceAction::MovePlayer(other),
    }
}

/// Selects exactly one action for a roll; the fallback arm discards the roll.
pub fn classify_dice_roll_reroll(roll: i8) -> (action: RerollAction)
    ensures
        action == reroll_action(roll),
{
    match roll {
        3 => RerollAction::AddFancyHat,
        7 => RerollAction::RemoveFancyHat,
        _ => RerollAction::Reroll,
    }
}

/// Selects exactly one action for a roll; the fallback arm does nothing.
pub fn classify_dice_roll_noop(roll: i8) -> (action: NoopAction)
    ensures
        action == noop_action(roll),
{
    match roll {
        3 => NoopAction::AddFancyHat,
        7 => NoopAction::RemoveFancyHat,
        _ => NoopAction::Noop,
    }
}

/// Runs the three dispatch rules on the fixed roll of nine and returns the
/// selected actions: move by nine, reroll, and do nothing.
pub fn game() -> (actions: (DiceAction, RerollAction, NoopAction))
    ensures
        actions.0 == DiceAction::MovePlayer(9),
        actions.1 == RerollAction::Reroll,
        actions.2 == NoopAction::Noop,
{
    let dice_roll: i8 = 9;
    let capture = classify_dice_roll(dice_roll);
    let discard = classify_dice_roll_reroll(dice_roll);
    let silent = classify_dice_roll_noop(dice_roll);
    (capture, discard, silent)
}

/// Handler for a roll of three; the placeholder action has no observable
/// effect.
pub fn add_fancy_hat() {
}

/// Handler for a roll of seven; the placeholder action has no observable
/// effect.
pub fn remove_fancy_hat() {
}

/// Handler for the discarding fallback; the placeholder action has no
/// observable effect.
pub fn reroll() {
}

} // verus!
