use vstd::prelude::*;
use std::collections::HashMap;
use crate::errors::OpError;

verus! {

/// The balances of one account: spendable (`free`) funds and funds
/// earmarked for a pending burn (`reserved`).
///
/// Both amounts are unsigned, so neither can ever be negative.
#[derive(Clone, Copy, Debug, PartialEq, Eq, Structural)]
pub struct BalanceRecord {
    pub free: u64,
    pub reserved: u64,
}

/// The ledger core: per-account balance records and the global supply
/// counter.
///
/// An account without a record holds zero free and zero reserved funds.
/// `total_supply` is mutated only by the mint and burn workflows; the
/// balance primitives below leave it untouched.
#[derive(Debug)]
pub struct Ledger {
    pub balances: HashMap<u64, BalanceRecord>,
    pub total_supply: u64,
}

impl Ledger {
    /// The spendable funds of `account`; zero when no record exists.
    pub open spec fn spec_free(self, account: u64) -> u64 {
        if self.balances@.contains_key(account) {
            self.balances@[account].free
        } else {
            0
        }
    }

    /// The funds of `account` earmarked for a pending burn; zero when no
    /// record exists.
    pub open spec fn spec_reserved(self, account: u64) -> u64 {
        if self.balances@.contains_key(account) {
            self.balances@[account].reserved
        } else {
            0
        }
    }

    /// An empty ledger: no balance records, zero supply.
    pub fn new() -> (r: Ledger)
        ensures
            r.balances@ == Map::<u64, BalanceRecord>::empty(),
            r.total_supply == 0,
    {
        Ledger { balances: HashMap::new(), total_supply: 0 }
    }

    /// The balance record of `account`, defaulting to zeroes.
    pub fn record_of(&self, account: u64) -> (r: BalanceRecord)
        ensures
            r.free == self.spec_free(account),
            r.reserved == self.spec_reserved(account),
    {
        match self.balances.get(&account) {
            Some(b) => *b,
            None => BalanceRecord { free: 0, reserved: 0 },
        }
    }

    /// Adds `amount` to the free balance of `account`.  Fails with
    /// `Overflow` when the sum would leave the balance domain.
    pub fn credit(&mut self, account: u64, amount: u64) -> (r: Result<(), OpError>)
        ensures
            match r {
                Ok(_) => {
                    &&& old(self).spec_free(account) + amount <= u64::MAX
                    &&& final(self).balances@ == old(self).balances@.insert(
                        account,
                        (BalanceRecord {
                            free: (old(self).spec_free(account) + amount) as u64,
                            reserved: old(self).spec_reserved(account),
                        }),
                    )
                    &&& final(self).total_supply == old(self).total_supply
                },
                Err(e) => {
                    &&& e == OpError::Overflow
                    &&& old(self).spec_free(account) + amount > u64::MAX
                    &&& *final(self) == *old(self)
                },
            },
    {
        let rec = self.record_of(account);
        if amount > u64::MAX - rec.free {
            return Err(OpError::Overflow);
        }
        self.balances.insert(
            account,
            BalanceRecord { free: rec.free + amount, reserved: rec.reserved },
        );
        Ok(())
    }

    /// Removes `amount` from the free balance of `account`.  Fails with
    /// `InsufficientBalance` when the free balance does not cover it.
    pub fn debit(&mut self, account: u64, amount: u64) -> (r: Result<(), OpError>)
        ensures
            match r {
                Ok(_) => {
                    &&& old(self).spec_free(account) >= amount
                    &&& final(self).balances@ == old(self).balances@.insert(
                        account,
                        (BalanceRecord {
                            free: (old(self).spec_free(account) - amount) as u64,
                            reserved: old(self).spec_reserved(account),
                        }),
                    )
                    &&& final(self).total_supply == old(self).total_supply
                },
                Err(e) => {
                    &&& e == OpError::InsufficientBalance
                    &&& old(self).spec_free(account) < amount
                    &&& *final(self) == *old(self)
                },
            },
    {
        let rec = self.record_of(account);
        if rec.free < amount {
            return Err(OpError::InsufficientBalance);
        }
        self.balances.insert(
            account,
            BalanceRecord { free: rec.free - amount, reserved: rec.reserved },
        );
        Ok(())
    }

    /// Moves `amount` of `account`'s funds from free to reserved, as the
    /// burn workflow does when a request is created.  Fails with
    /// `InsufficientBalance` when the free balance does not cover the
    /// amount, and with `Overflow` when the reserved balance would leave
    /// the domain.
    pub fn reserve(&mut self, account: u64, amount: u64) -> (r: Result<(), OpError>)
        ensures
            match r {
                Ok(_) => {
                    &&& old(self).spec_free(account) >= amount
                    &&& old(self).spec_reserved(account) + amount <= u64::MAX
                    &&& final(self).balances@ == old(self).balances@.insert(
                        account,
                        (BalanceRecord {
                            free: (old(self).spec_free(account) - amount) as u64,
                            reserved: (old(self).spec_reserved(account) + amount) as u64,
                        }),
                    )
                    &&& final(self).total_supply == old(self).total_supply
                },
                Err(e) => {
                    &&& *final(self) == *old(self)
                    &&& if old(self).spec_free(account) < amount {
                        e == OpError::InsufficientBalance
                    } else {
                        e == OpError::Overflow
                            && old(self).spec_reserved(account) + amount > u64::MAX
                    }
                },
            },
    {
        let rec = self.record_of(account);
        if rec.free < amount {
            return Err(OpError::InsufficientBalance);
        }
        if amount > u64::MAX - rec.reserved {
            return Err(OpError::Overflow);
        }
        self.balances.insert(
            account,
            BalanceRecord { free: rec.free - amount, reserved: rec.reserved + amount },
        );
        Ok(())
    }

    /// Returns `amount` of `account`'s reserved funds to the free
    /// balance, as the burn workflow does when a request is rejected.
    /// Fails with `InsufficientReservedBalance` when the reserved balance
    /// does not cover the amount, and with `Overflow` when the free
    /// balance would leave the domain.
    pub fn release(&mut self, account: u64, amount: u64) -> (r: Result<(), OpError>)
        ensures
            match r {
                Ok(_) => {
                    &&& old(self).spec_reserved(account) >= amount
                    &&& old(self).spec_free(account) + amount <= u64::MAX
                    &&& final(self).balances@ == old(self).balances@.insert(
                        account,
                        (BalanceRecord {
                            free: (old(self).spec_free(account) + amount) as u64,
                            reserved: (old(self).spec_reserved(account) - amount) as u64,
                        }),
                    )
                    &&& final(self).total_supply == old(self).total_supply
                },
                Err(e) => {
                    &&& *final(self) == *old(self)
                    &&& if old(self).spec_reserved(account) < amount {
                        e == OpError::InsufficientReservedBalance
                    } else {
                        e == OpError::Overflow
                            && old(self).spec_free(account) + amount > u64::MAX
                    }
                },
            },
    {
        let rec = self.record_of(account);
        if rec.reserved < amount {
            return Err(OpError::InsufficientReservedBalance);
        }
        if amount > u64::MAX - rec.free {
            return Err(OpError::Overflow);
        }
        self.balances.insert(
            account,
            BalanceRecord { free: rec.free + amount, reserved: rec.reserved - amount },
        );
        Ok(())
    }

    /// Destroys exactly `amount` of `account`'s reserved funds, as the
    /// burn workflow does when a request is approved.  Fails with
    /// `InsufficientReservedBalance` when less than the full amount is
    /// reserved: a burn is never partial.
    pub fn slash_reserved(&mut self, account: u64, amount: u64) -> (r: Result<(), OpError>)
        ensures
            match r {
                Ok(_) => {
                    &&& old(self).spec_reserved(account) >= amount
                    &&& final(self).balances@ == old(self).balances@.insert(
                        account,
                        (BalanceRecord {
                            free: old(self).spec_free(account),
                            reserved: (old(self).spec_reserved(account) - amount) as u64,
                        }),
                    )
                    &&& final(self).total_supply == old(self).total_supply
                },
                Err(e) => {
                    &&& e == OpError::InsufficientReservedBalance
                    &&& old(self).spec_reserved(account) < amount
                    &&& *final(self) == *old(self)
                },
            },
    {
        let rec = self.record_of(account);
        if rec.reserved < amount {
            return Err(OpError::InsufficientReservedBalance);
        }
        self.balances.insert(
            account,
            BalanceRecord { free: rec.free, reserved: rec.reserved - amount },
        );
        Ok(())
    }

    /// Moves `amount` of free funds from `from` to `to`.  A move onto the
    /// same account checks the balance and changes nothing.  Fails with
    /// `InsufficientBalance` when `from`'s free balance does not cover
    /// the amount, and with `Overflow` when `to`'s free balance would
    /// leave the domain.
    pub fn move_free(&mut self, from: u64, to: u64, amount: u64) -> (r: Result<(), OpError>)
        ensures
            match r {
                Ok(_) => {
                    &&& old(self).spec_free(from) >= amount
                    &&& if from == to {
                        *final(self) == *old(self)
                    } else {
                        old(self).spec_free(to) + amount <= u64::MAX
                            && final(self).balances@ == old(self).balances@.insert(
                            from,
                            (BalanceRecord {
                                free: (old(self).spec_free(from) - amount) as u64,
                                reserved: old(self).spec_reserved(from),
                            }),
                        ).insert(
                            to,
                            (BalanceRecord {
                                free: (old(self).spec_free(to) + amount) as u64,
                                reserved: old(self).spec_reserved(to),
                            }),
                        )
                    }
                    &&& final(self).total_supply == old(self).total_supply
                },
                Err(e) => {
                    &&& *final(self) == *old(self)
                    &&& if old(self).spec_free(from) < amount {
                        e == OpError::InsufficientBalance
                    } else {
                        e == OpError::Overflow && from != to
                            && old(self).spec_free(to) + amount > u64::MAX
                    }
                },
            },
    {
        let from_rec = self.record_of(from);
        if from_rec.free < amount {
            return Err(OpError::InsufficientBalance);
        }
        if from == to {
            return Ok(());
        }
        let to_rec = self.record_of(to);
        if amount > u64::MAX - to_rec.free {
            return Err(OpError::Overflow);
        }
        self.balances.insert(
            from,
            BalanceRecord { free: from_rec.free - amount, reserved: from_rec.reserved },
        );
        self.balances.insert(
            to,
            BalanceRecord { free: to_rec.free + amount, reserved: to_rec.reserved },
        );
        Ok(())
    }
}

} // verus!
