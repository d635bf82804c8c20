//! Custodial escrow of a single non-divisible unit.

use vstd::prelude::*;

use crate::addr::Addr;
use crate::errors::MarketplaceError;

verus! {

/// A holder's position in one kind of unit: how many units of `unit_id`
/// the `owner` currently holds. A collectible unit is non-divisible, so a
/// position of exactly 1 is what a sale or auction takes custody of.
#[derive(Clone, Copy, Debug, PartialEq, Eq, Structural)]
pub struct TokenAccount {
    pub owner: Addr,
    pub unit_id: u64,
    pub amount: u64,
}

/// Custodial holder of exactly one unit for the duration of a listing or
/// auction. A vault is created holding the unit (locked) and transitions
/// to released exactly once, recording the one destination that received
/// the unit.
#[derive(Clone, Copy, Debug, PartialEq, Eq, Structural)]
pub struct EscrowVault {
    /// The kind of unit in custody.
    pub unit_id: u64,
    /// `None` while the vault holds the unit; `Some(destination)` once it
    /// has released it.
    pub released_to: Option<Addr>,
}

impl EscrowVault {
    /// Whether the vault still holds its unit.
    pub open spec fn is_locked(self) -> bool {
        self.released_to is None
    }

    /// Takes exclusive custody of one unit out of `source`.
    ///
    /// Fails with `WrongQuantity` exactly when `source` does not hold
    /// exactly one unit; otherwise the unit moves from `source` into a
    /// fresh locked vault.
    pub fn lock(source: &mut TokenAccount) -> (r: Result<EscrowVault, MarketplaceError>)
        ensures
            match r {
                Ok(v) => {
                    &&& old(source).amount == 1
                    &&& v == (EscrowVault { unit_id: old(source).unit_id, released_to: None })
                    &&& v.is_locked()
                    &&& *final(source) == (TokenAccount { amount: 0, ..*old(source) })
                },
                Err(e) => {
                    &&& e == MarketplaceError::WrongQuantity
                    &&& old(source).amount != 1
                    &&& *final(source) == *old(source)
                },
            },
    {
        if source.amount != 1 {
            return Err(MarketplaceError::WrongQuantity);
        }
        source.amount = 0;
        Ok(EscrowVault { unit_id: source.unit_id, released_to: None })
    }

    /// Releases the held unit to `destination` and marks the vault empty.
    ///
    /// Fails with `EmptyVault` exactly when the vault has already
    /// released its unit: a vault transitions locked to released exactly
    /// once, to exactly one destination.
    pub fn release(&mut self, destination: Addr) -> (r: Result<(), MarketplaceError>)
        ensures
            match r {
                Ok(_) => {
                    &&& old(self).is_locked()
                    &&& *final(self) == (EscrowVault {
                        unit_id: old(self).unit_id,
                        released_to: Some(destination),
                    })
                },
                Err(e) => {
                    &&& e == MarketplaceError::EmptyVault
                    &&& !old(self).is_locked()
                    &&& *final(self) == *old(self)
                },
            },
    {
        match self.released_to {
            Some(_) => Err(MarketplaceError::EmptyVault),
            None => {
                self.released_to = Some(destination);
                Ok(())
            },
        }
    }
}

} // verus!
