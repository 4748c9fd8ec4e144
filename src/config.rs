use vstd::prelude::*;

use crate::error::ErrorCode;
use crate::identity::Identity;
use crate::ledger::{transfer, transfer_result};

verus! {

/// The lower stake bound that a deployment uses unless it chooses another.
pub const DEFAULT_MIN_BET: u64 = 1000000;

/// The upper stake bound that a deployment uses unless it chooses another.
pub const DEFAULT_MAX_BET: u64 = 100000000;

/// The stakes a game accepts.
#[derive(Clone, Copy, Debug, PartialEq, Eq, Structural)]
pub enum BetBounds {
    /// Any positive stake.
    Unbounded,
    /// Stakes from `min_bet` to `max_bet`, both included.
    Inclusive { min_bet: u64, max_bet: u64 },
}

impl BetBounds {
    /// Whether a stake of `amount` is accepted.
    pub open spec fn admits(self, amount: u64) -> bool {
        match self {
            BetBounds::Unbounded => amount > 0,
            BetBounds::Inclusive { min_bet, max_bet } => min_bet <= amount && amount <= max_bet,
        }
    }

    /// Checks a stake against the bounds.
    pub fn accepts(&self, amount: u64) -> (r: bool)
        ensures
            r == self.admits(amount),
    {
        match self {
            BetBounds::Unbounded => amount > 0,
            BetBounds::Inclusive { min_bet, max_bet } => *min_bet <= amount && amount <= *max_bet,
        }
    }
}

/// The admin-owned configuration of one game.
#[derive(Clone, Copy, Debug)]
pub struct GameConfig {
    /// The only identity that may reconfigure, pause or withdraw.
    pub admin: Identity,
    /// The percentage of a winning stake that is paid out.
    pub reward_percentage: u64,
    /// While set, every bet is refused.
    pub is_paused: bool,
    pub bounds: BetBounds,
}

impl GameConfig {
    /// The bounds, when present, are ordered.
    pub open spec fn wf(self) -> bool {
        match self.bounds {
            BetBounds::Unbounded => true,
            BetBounds::Inclusive { min_bet, max_bet } => min_bet <= max_bet,
        }
    }

    /// Whether `caller` holds the admin capability of this game.
    pub open spec fn authorizes(self, caller: Identity) -> bool {
        self.admin.same_as(caller)
    }
}

/// A running game that accepts any positive stake.
pub fn initialize(admin: &Identity, reward_percentage: u64) -> (r: GameConfig)
    ensures
        r.wf(),
        r.admin == *admin,
        r.reward_percentage == reward_percentage,
        !r.is_paused,
        r.bounds == BetBounds::Unbounded,
{
    GameConfig { admin: *admin, reward_percentage, is_paused: false, bounds: BetBounds::Unbounded }
}

/// A running game that accepts stakes from `min_bet` to `max_bet`; refused when the
/// bounds are out of order.
pub fn initialize_game(admin: &Identity, reward_percentage: u64, min_bet: u64, max_bet: u64) -> (r:
    Result<GameConfig, ErrorCode>)
    ensures
        min_bet > max_bet ==> r == Err::<GameConfig, ErrorCode>(ErrorCode::InvalidBetAmount),
        min_bet <= max_bet ==> (r matches Ok(c) && c.wf() && c.admin == *admin
            && c.reward_percentage == reward_percentage && !c.is_paused
            && c.bounds == (BetBounds::Inclusive { min_bet, max_bet })),
{
    if min_bet > max_bet {
        return Err(ErrorCode::InvalidBetAmount);
    }
    Ok(GameConfig {
        admin: *admin,
        reward_percentage,
        is_paused: false,
        bounds: BetBounds::Inclusive { min_bet, max_bet },
    })
}

/// Sets the reward percentage for all later bets; only the admin may.
pub fn update_reward_percentage(config: &mut GameConfig, caller: &Identity, new_percentage: u64) -> (r:
    Result<(), ErrorCode>)
    ensures
        !old(config).authorizes(*caller) ==> r == Err::<(), ErrorCode>(ErrorCode::Unauthorized)
            && *final(config) == *old(config),
        old(config).authorizes(*caller) ==> r is Ok
            && *final(config) == (GameConfig { reward_percentage: new_percentage, ..*old(config) }),
{
    if !config.admin.is_same(caller) {
        return Err(ErrorCode::Unauthorized);
    }
    config.reward_percentage = new_percentage;
    Ok(())
}

/// Pauses or resumes the game; only the admin may.
pub fn set_pause(config: &mut GameConfig, caller: &Identity, paused: bool) -> (r: Result<(), ErrorCode>)
    ensures
        !old(config).authorizes(*caller) ==> r == Err::<(), ErrorCode>(ErrorCode::Unauthorized)
            && *final(config) == *old(config),
        old(config).authorizes(*caller) ==> r is Ok
            && *final(config) == (GameConfig { is_paused: paused, ..*old(config) }),
{
    if !config.admin.is_same(caller) {
        return Err(ErrorCode::Unauthorized);
    }
    config.is_paused = paused;
    Ok(())
}

/// Pauses the game; only the admin may.
pub fn pause_game(config: &mut GameConfig, caller: &Identity) -> (r: Result<(), ErrorCode>)
    ensures
        !old(config).authorizes(*caller) ==> r == Err::<(), ErrorCode>(ErrorCode::Unauthorized)
            && *final(config) == *old(config),
        old(config).authorizes(*caller) ==> r is Ok
            && *final(config) == (GameConfig { is_paused: true, ..*old(config) }),
{
    set_pause(config, caller, true)
}

/// Resumes the game; only the admin may.
pub fn unpause_game(config: &mut GameConfig, caller: &Identity) -> (r: Result<(), ErrorCode>)
    ensures
        !old(config).authorizes(*caller) ==> r == Err::<(), ErrorCode>(ErrorCode::Unauthorized)
            && *final(config) == *old(config),
        old(config).authorizes(*caller) ==> r is Ok
            && *final(config) == (GameConfig { is_paused: false, ..*old(config) }),
{
    set_pause(config, caller, false)
}

/// Moves `amount` from the vault to the admin's own balance; only the admin may, and
/// only what the vault holds.
pub fn withdraw_funds(
    config: &GameConfig,
    caller: &Identity,
    vault: &mut u64,
    admin_balance: &mut u64,
    amount: u64,
) -> (r: Result<(), ErrorCode>)
    ensures
        !config.authorizes(*caller) ==> r == Err::<(), ErrorCode>(ErrorCode::Unauthorized)
            && *final(vault) == *old(vault) && *final(admin_balance) == *old(admin_balance),
        config.authorizes(*caller) ==> match transfer_result(*old(vault), *old(admin_balance), amount) {
            Ok((v, a)) => r is Ok && *final(vault) == v && *final(admin_balance) == a,
            Err(e) => r == Err::<(), ErrorCode>(e) && *final(vault) == *old(vault)
                && *final(admin_balance) == *old(admin_balance),
        },
{
    if !config.admin.is_same(caller) {
        return Err(ErrorCode::Unauthorized);
    }
    transfer(vault, admin_balance, amount)
}

} // verus!
