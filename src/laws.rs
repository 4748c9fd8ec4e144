use vstd::prelude::*;

use crate::config::{BetBounds, GameConfig};
use crate::engine::{bet_check, bet_outcome, payout_for};
use crate::error::ErrorCode;

verus! {

/// A bet on a valid number with an admitted stake, in a running game, settles; the only
/// errors left to it are an unrepresentable payout or balances that cannot cover a move
/// (and `settle_bet` changes nothing when it fails).
pub proof fn lemma_valid_bet_settles_or_names_error(
    config: GameConfig,
    vault: u64,
    player_balance: u64,
    chosen_number: u8,
    amount: u64,
    drawn_number: u8,
)
    requires
        !config.is_paused,
        1 <= chosen_number <= 6,
        config.bounds.admits(amount),
    ensures
        bet_outcome(config, vault, player_balance, chosen_number, amount, drawn_number) is Ok
            || bet_outcome(config, vault, player_balance, chosen_number, amount, drawn_number)
            == Err::<(u64, u64, u64), ErrorCode>(ErrorCode::MathOverflow)
            || bet_outcome(config, vault, player_balance, chosen_number, amount, drawn_number)
            == Err::<(u64, u64, u64), ErrorCode>(ErrorCode::InsufficientFunds),
{
}

/// While the game is paused every bet is refused with `GamePaused`, whatever is drawn; as
/// a refusal changes nothing, the same bet made again is refused again in the same way.
pub proof fn lemma_paused_rejects_every_time(
    config: GameConfig,
    vault: u64,
    player_balance: u64,
    chosen_number: u8,
    amount: u64,
    first_draw: u8,
    second_draw: u8,
)
    requires
        config.is_paused,
    ensures
        bet_outcome(config, vault, player_balance, chosen_number, amount, first_draw)
            == Err::<(u64, u64, u64), ErrorCode>(ErrorCode::GamePaused),
        bet_outcome(config, vault, player_balance, chosen_number, amount, second_draw)
            == Err::<(u64, u64, u64), ErrorCode>(ErrorCode::GamePaused),
{
}

/// A settled bet conserves value: the vault gains the stake less the amount paid, the
/// player the reverse, and the amount paid is the payout on a match and zero otherwise.
pub proof fn lemma_settlement_conserves_value(
    config: GameConfig,
    vault: u64,
    player_balance: u64,
    chosen_number: u8,
    amount: u64,
    drawn_number: u8,
)
    requires
        bet_outcome(config, vault, player_balance, chosen_number, amount, drawn_number) is Ok,
    ensures
        ({
            let (v, p, paid) = bet_outcome(
                config,
                vault,
                player_balance,
                chosen_number,
                amount,
                drawn_number,
            )->Ok_0;
            &&& v as int == vault as int + amount as int - paid as int
            &&& p as int == player_balance as int - amount as int + paid as int
            &&& paid as int == (if drawn_number == chosen_number {
                payout_for(amount, config.reward_percentage)
            } else {
                0
            })
        }),
{
}

/// With inclusive bounds, stakes of exactly `min_bet` and `max_bet` pass the checks (when
/// their payout is representable), and one below `min_bet` or one above `max_bet` is
/// refused with `InvalidBetAmount`.
pub proof fn lemma_stake_bound_edges(config: GameConfig, chosen_number: u8, min_bet: u64, max_bet: u64)
    requires
        config.bounds == (BetBounds::Inclusive { min_bet, max_bet }),
        min_bet <= max_bet,
        !config.is_paused,
        1 <= chosen_number <= 6,
    ensures
        min_bet as int * config.reward_percentage as int <= u64::MAX as int ==> bet_check(
            config,
            chosen_number,
            min_bet,
        ) is Ok,
        max_bet as int * config.reward_percentage as int <= u64::MAX as int ==> bet_check(
            config,
            chosen_number,
            max_bet,
        ) is Ok,
        min_bet > 0 ==> bet_check(config, chosen_number, (min_bet - 1) as u64)
            == Err::<u64, ErrorCode>(ErrorCode::InvalidBetAmount),
        max_bet < u64::MAX ==> bet_check(config, chosen_number, (max_bet + 1) as u64)
            == Err::<u64, ErrorCode>(ErrorCode::InvalidBetAmount),
{
}

/// A stake whose product with the reward percentage exceeds `u64::MAX` is refused with
/// `MathOverflow`, whatever is drawn and whatever the balances (which then stay as they were).
pub proof fn lemma_overflow_refused(
    config: GameConfig,
    vault: u64,
    player_balance: u64,
    chosen_number: u8,
    amount: u64,
    drawn_number: u8,
)
    requires
        !config.is_paused,
        1 <= chosen_number <= 6,
        config.bounds.admits(amount),
        amount as int * config.reward_percentage as int > u64::MAX as int,
    ensures
        bet_outcome(config, vault, player_balance, chosen_number, amount, drawn_number)
            == Err::<(u64, u64, u64), ErrorCode>(ErrorCode::MathOverflow),
{
}

} // verus!
