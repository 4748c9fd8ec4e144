use vstd::prelude::*;

use crate::config::GameConfig;
use crate::error::ErrorCode;
use crate::identity::Identity;
use crate::ledger::{transfer, transfer_result};
use crate::outcome::{draw_number, drawn_face, Entropy};

verus! {

/// The record emitted once for every settled bet.
#[derive(Clone, Copy, Debug)]
pub struct BetResult {
    pub player: Identity,
    pub bet_amount: u64,
    pub chosen_number: u8,
    pub random_number: u8,
    /// What was paid to the player: the payout when won, else zero.
    pub win_amount: u64,
    pub won: bool,
    pub timestamp: i64,
}

/// The payout of a winning stake: `floor(amount * reward_percentage / 100)`.
pub open spec fn payout_for(amount: u64, reward_percentage: u64) -> int {
    (amount as int * reward_percentage as int) / 100
}

/// The checks made before any value moves, in order, and the payout owed on a win.
pub open spec fn bet_check(config: GameConfig, chosen_number: u8, amount: u64) -> Result<u64, ErrorCode> {
    if config.is_paused {
        Err(ErrorCode::GamePaused)
    } else if !(1 <= chosen_number && chosen_number <= 6) {
        Err(ErrorCode::InvalidNumber)
    } else if !config.bounds.admits(amount) {
        Err(ErrorCode::InvalidBetAmount)
    } else if amount as int * config.reward_percentage as int > u64::MAX as int {
        Err(ErrorCode::MathOverflow)
    } else {
        Ok(payout_for(amount, config.reward_percentage) as u64)
    }
}

/// The vault balance, the player's balance and the amount paid after a bet, or the
/// error that refuses it: the checks, then the stake moved from the player into the
/// vault, then, on a match, the payout moved from the vault to the player.
pub open spec fn bet_outcome(
    config: GameConfig,
    vault: u64,
    player_balance: u64,
    chosen_number: u8,
    amount: u64,
    drawn_number: u8,
) -> Result<(u64, u64, u64), ErrorCode> {
    match bet_check(config, chosen_number, amount) {
        Err(e) => Err(e),
        Ok(payout) => match transfer_result(player_balance, vault, amount) {
            Err(e) => Err(e),
            Ok((staked_player, staked_vault)) => if drawn_number == chosen_number {
                match transfer_result(staked_vault, staked_player, payout) {
                    Err(e) => Err(e),
                    Ok((paid_vault, paid_player)) => Ok((paid_vault, paid_player, payout)),
                }
            } else {
                Ok((staked_vault, staked_player, 0u64))
            },
        },
    }
}

/// The record of a settled bet.
pub open spec fn bet_record(
    player: Identity,
    amount: u64,
    chosen_number: u8,
    drawn_number: u8,
    paid: u64,
    timestamp: i64,
) -> BetResult {
    BetResult {
        player,
        bet_amount: amount,
        chosen_number,
        random_number: drawn_number,
        win_amount: paid,
        won: drawn_number == chosen_number,
        timestamp,
    }
}

/// Runs the checks that come before any value moves and returns the payout owed on a win.
pub fn check_bet(config: &GameConfig, chosen_number: u8, amount: u64) -> (r: Result<u64, ErrorCode>)
    ensures
        r == bet_check(*config, chosen_number, amount),
{
    if config.is_paused {
        return Err(ErrorCode::GamePaused);
    }
    if !(1 <= chosen_number && chosen_number <= 6) {
        return Err(ErrorCode::InvalidNumber);
    }
    if !config.bounds.accepts(amount) {
        return Err(ErrorCode::InvalidBetAmount);
    }
    match amount.checked_mul(config.reward_percentage) {
        None => Err(ErrorCode::MathOverflow),
        Some(product) => Ok(product / 100),
    }
}

/// Settles one bet against an already drawn number: the stake goes into the vault and,
/// on a match, the payout comes back out, all or nothing.
pub fn settle_bet(
    config: &GameConfig,
    vault: &mut u64,
    player_balance: &mut u64,
    player: &Identity,
    chosen_number: u8,
    bet_amount: u64,
    drawn_number: u8,
    timestamp: i64,
) -> (r: Result<BetResult, ErrorCode>)
    ensures
        match bet_outcome(*config, *old(vault), *old(player_balance), chosen_number, bet_amount, drawn_number) {
            Ok((v, p, paid)) => r == Ok::<BetResult, ErrorCode>(
                bet_record(*player, bet_amount, chosen_number, drawn_number, paid, timestamp),
            ) && *final(vault) == v && *final(player_balance) == p,
            Err(e) => r == Err::<BetResult, ErrorCode>(e) && *final(vault) == *old(vault)
                && *final(player_balance) == *old(player_balance),
        },
{
    let payout = match check_bet(config, chosen_number, bet_amount) {
        Err(e) => return Err(e),
        Ok(p) => p,
    };
    let mut v: u64 = *vault;
    let mut p: u64 = *player_balance;
    match transfer(&mut p, &mut v, bet_amount) {
        Err(e) => return Err(e),
        Ok(()) => {},
    }
    let won = drawn_number == chosen_number;
    let mut paid: u64 = 0;
    if won {
        match transfer(&mut v, &mut p, payout) {
            Err(e) => return Err(e),
            Ok(()) => {},
        }
        paid = payout;
    }
    *vault = v;
    *player_balance = p;
    Ok(BetResult {
        player: *player,
        bet_amount,
        chosen_number,
        random_number: drawn_number,
        win_amount: paid,
        won,
        timestamp,
    })
}

/// Places one bet: draws the number from `entropy` and settles the bet against it.
pub fn place_bet(
    config: &GameConfig,
    vault: &mut u64,
    player_balance: &mut u64,
    player: &Identity,
    chosen_number: u8,
    bet_amount: u64,
    entropy: &Entropy,
) -> (r: Result<BetResult, ErrorCode>)
    ensures
        match bet_outcome(
            *config,
            *old(vault),
            *old(player_balance),
            chosen_number,
            bet_amount,
            drawn_face(*entropy, *player),
        ) {
            Ok((v, p, paid)) => r == Ok::<BetResult, ErrorCode>(
                bet_record(
                    *player,
                    bet_amount,
                    chosen_number,
                    drawn_face(*entropy, *player),
                    paid,
                    entropy.timestamp_of(),
                ),
            ) && *final(vault) == v && *final(player_balance) == p,
            Err(e) => r == Err::<BetResult, ErrorCode>(e) && *final(vault) == *old(vault)
                && *final(player_balance) == *old(player_balance),
        },
{
    let drawn = draw_number(entropy, player);
    settle_bet(config, vault, player_balance, player, chosen_number, bet_amount, drawn, entropy.timestamp())
}

} // verus!
