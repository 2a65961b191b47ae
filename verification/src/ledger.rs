//! The token ledger as the lifecycle layer meets it.
//!
//! The ledger itself (transfers, minting, allowances, marketing data) is a
//! collaborator outside this library. Two things of it appear here. The
//! account book, which shares the instance's storage: transitions read
//! balances from it and burn units in it. And the commands that are handed
//! on to the ledger word for word: they leave a transition inside its
//! [`Response`](crate::response::Response).

use vstd::prelude::*;
use crate::env::Timestamp;
use crate::error::ContractError;
use crate::store::{saved, RecordStore};

verus! {

/// When an allowance ends.
#[derive(Clone, Copy, Debug, PartialEq, Eq, Structural)]
pub enum Expiration {
    AtHeight(u64),
    AtTime(Timestamp),
    Never,
}

/// A logo, by its address or by its uploaded content.
#[derive(Debug, PartialEq, Eq)]
pub struct LogoInfo {
    pub url: Option<String>,
    pub upload: Option<String>,
}

/// The balance that an account starts with.
#[derive(Debug, PartialEq, Eq)]
pub struct Cw20Coin {
    pub address: String,
    pub amount: u128,
}

/// Who may mint, and up to which total supply.
#[derive(Debug, PartialEq, Eq)]
pub struct MinterResponse {
    pub minter: String,
    pub cap: Option<u128>,
}

/// The marketing data that a ledger starts with.
#[derive(Debug, PartialEq, Eq)]
pub struct InstantiateMarketingInfo {
    pub project: Option<String>,
    pub description: Option<String>,
    pub marketing: Option<String>,
    pub logo: Option<LogoInfo>,
}

/// What the ledger is set up with.
#[derive(Debug, PartialEq, Eq)]
pub struct Cw20InstantiateMsg {
    pub name: String,
    pub symbol: String,
    pub decimals: u8,
    pub initial_balances: Vec<Cw20Coin>,
    pub mint: Option<MinterResponse>,
    pub marketing: Option<InstantiateMarketingInfo>,
}

/// A command for the ledger, carried out by the ledger in the name of the
/// caller of the transition that issued it.
#[derive(Debug, PartialEq, Eq)]
pub enum Cw20ExecuteMsg {
    Instantiate(Cw20InstantiateMsg),
    Transfer { recipient: String, amount: u128 },
    Burn { amount: u128 },
    Send { contract: String, amount: u128, msg: Vec<u8> },
    IncreaseAllowance { spender: String, amount: u128, expires: Option<Expiration> },
    DecreaseAllowance { spender: String, amount: u128, expires: Option<Expiration> },
    TransferFrom { owner: String, recipient: String, amount: u128 },
    SendFrom { owner: String, contract: String, amount: u128, msg: Vec<u8> },
    Mint { recipient: String, amount: u128 },
    UpdateMinter { new_minter: Option<String> },
    UpdateMarketing { project: Option<String>, description: Option<String>, marketing: Option<String> },
    UploadLogo(LogoInfo),
}

/// A question for the ledger, answered by the ledger.
#[derive(Debug, PartialEq, Eq)]
pub enum Cw20QueryMsg {
    Balance { address: String },
    TokenInfo {},
    Minter {},
    Allowance { owner: String, spender: String },
    AllAllowances { owner: String, start_after: Option<String>, limit: Option<u32> },
    AllAccounts { start_after: Option<String>, limit: Option<u32> },
    MarketingInfo {},
    DownloadLogo {},
}

/// The balance of `holder` in an account book with the given balances: what
/// is entered for the holder, and zero for a holder without an entry.
pub open spec fn balance_in(balances: Map<Seq<char>, u128>, holder: Seq<char>) -> u128 {
    if balances.dom().contains(holder) {
        balances[holder]
    } else {
        0
    }
}

/// What burning `amount` units of `holder` does to an account book with the
/// given balances and total supply: the new balances and supply, or why the
/// burn is refused. A holder without an entry holds nothing.
pub open spec fn burn_outcome(
    balances: Map<Seq<char>, u128>,
    total_supply: u128,
    holder: Seq<char>,
    amount: u128,
) -> Result<(Map<Seq<char>, u128>, u128), ContractError> {
    if balance_in(balances, holder) < amount {
        Err(ContractError::InsufficientFunds { needed: amount, available: balance_in(balances, holder) })
    } else if total_supply < amount {
        Err(ContractError::Overflow)
    } else {
        Ok(
            (
                saved(balances, holder, (balance_in(balances, holder) - amount) as u128),
                (total_supply - amount) as u128,
            ),
        )
    }
}

/// The ledger's account book: the balance of every holder and the total supply.
#[derive(Clone, Debug, PartialEq, Eq)]
pub struct Ledger {
    pub balances: RecordStore<u128>,
    pub total_supply: u128,
}

impl Ledger {
    /// A book without accounts and with no supply.
    pub fn new() -> (r: Ledger)
        ensures
            r.balances@ == Map::<Seq<char>, u128>::empty(),
            r.total_supply == 0,
    {
        Ledger { balances: RecordStore::new(), total_supply: 0 }
    }

    /// The balance of `holder`: zero where the book has no entry for it.
    pub fn balance_of(&self, holder: &String) -> (r: u128)
        ensures
            r == balance_in(self.balances@, holder@),
    {
        match self.balances.load(holder) {
            Ok(balance) => *balance,
            Err(_) => 0,
        }
    }

    /// The total supply.
    pub fn total_supply(&self) -> (r: u128)
        ensures
            r == self.total_supply,
    {
        self.total_supply
    }

    /// Enters the balance that the ledger holds for `holder`.
    pub fn set_balance(&mut self, holder: String, amount: u128)
        ensures
            final(self).balances@ == saved(old(self).balances@, holder@, amount),
            final(self).total_supply == old(self).total_supply,
    {
        self.balances.save(holder, amount);
    }

    /// Enters the total supply that the ledger holds.
    pub fn set_total_supply(&mut self, amount: u128)
        ensures
            final(self).balances == old(self).balances,
            final(self).total_supply == amount,
    {
        self.total_supply = amount;
    }

    /// Removes `amount` units for good: from the balance of `holder` and from
    /// the total supply. Refused, with the book unchanged, where `holder`
    /// holds less than `amount` or the supply is below `amount`.
    pub fn burn(&mut self, holder: &String, amount: u128) -> (r: Result<(), ContractError>)
        ensures
            match burn_outcome(old(self).balances@, old(self).total_supply, holder@, amount) {
                Ok((balances, total_supply)) => {
                    &&& r == Ok::<(), ContractError>(())
                    &&& final(self).balances@ == balances
                    &&& final(self).total_supply == total_supply
                },
                Err(e) => r == Err::<(), ContractError>(e) && *final(self) == *old(self),
            },
    {
        let balance = self.balance_of(holder);
        if balance < amount {
            return Err(ContractError::InsufficientFunds { needed: amount, available: balance });
        }
        if self.total_supply < amount {
            return Err(ContractError::Overflow);
        }
        self.balances.save(holder.clone(), balance - amount);
        self.total_supply = self.total_supply - amount;
        Ok(())
    }
}

/// Conservation in the account book: a burn takes the same amount from the
/// holder's balance and from the total supply, and touches no other balance.
pub proof fn law_burn_conserves(
    balances: Map<Seq<char>, u128>,
    total_supply: u128,
    holder: Seq<char>,
    amount: u128,
    other: Seq<char>,
)
    requires
        burn_outcome(balances, total_supply, holder, amount) is Ok,
        other != holder,
    ensures
        ({
            let after = burn_outcome(balances, total_supply, holder, amount)->Ok_0;
            &&& balance_in(after.0, holder) + amount == balance_in(balances, holder)
            &&& after.1 + amount == total_supply
            &&& balance_in(after.0, other) == balance_in(balances, other)
        }),
{
}

} // verus!
