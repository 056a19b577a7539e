//! The token subsystem: token descriptors, the operation vocabulary, and
//! the token contract with balances, allowances and minter control.

use vstd::prelude::*;
use crate::errors::{TribeError, TribeResult};
use crate::ledger::{bal, BalanceBook};

verus! {

use vstd::string::{StringExecFns, StrSliceExecFns};

/// Descriptive facts about a token.
#[derive(Debug)]
pub struct TokenInfo {
    pub id: String,
    pub name: String,
    pub symbol: String,
    pub decimals: u8,
    pub description: String,
    pub icon_url: Option<String>,
    pub website: Option<String>,
    pub social_links: Vec<(String, String)>,
}

/// The operations a token contract executes.
#[derive(Debug)]
pub enum TokenOperation {
    Transfer { from: String, to: String, amount: u64 },
    Approve { owner: String, spender: String, amount: u64 },
    TransferFrom { spender: String, from: String, to: String, amount: u64 },
    Mint { to: String, amount: u64 },
    Burn { from: String, amount: u64 },
    Pause,
    Unpause,
    AddMinter { minter: String },
    RemoveMinter { minter: String },
    TransferOwnership { new_owner: String },
}

/// The separator joining owner and spender into one allowance key; no
/// printable address contains it.
pub const ALLOWANCE_SEPARATOR: &'static str = "\u{1f}";

/// The allowance key for an owner-spender pair.
pub open spec fn allowance_key(owner: Seq<char>, spender: Seq<char>) -> Seq<char> {
    owner + "\u{1f}"@ + spender
}

/// A token contract.
#[derive(Debug)]
pub struct TokenContract {
    pub info: TokenInfo,
    pub total_supply: u64,
    pub owner: String,
    pub balances: BalanceBook,
    pub allowances: BalanceBook,
    pub minters: Vec<String>,
    pub is_paused: bool,
}

impl TokenContract {
    /// Both books are well formed.
    pub open spec fn wf(&self) -> bool {
        self.balances.wf() && self.allowances.wf()
    }

    /// Whether `who` is a registered minter.
    pub open spec fn spec_is_minter(&self, who: Seq<char>) -> bool {
        exists|i: int| 0 <= i < self.minters@.len() && (#[trigger] self.minters@[i])@ == who
    }

    /// Creates a token: the whole supply is credited to the owner, who is
    /// also the first minter. Rejected for an empty name or symbol, a zero
    /// supply, or more than eighteen decimals.
    pub fn new(name: String, symbol: String, total_supply: u64, decimals: u8, owner: String) -> (r:
        TribeResult<TokenContract>)
        ensures
            r is Ok <==> (name@.len() > 0 && symbol@.len() > 0 && total_supply > 0 && decimals
                <= 18),
            r matches Ok(c) ==> {
                &&& c.wf()
                &&& c.info.name == name
                &&& c.info.symbol == symbol
                &&& c.info.decimals == decimals
                &&& c.total_supply == total_supply
                &&& c.owner@ == owner@
                &&& bal(c.balances.view(), owner@) == total_supply
                &&& c.spec_is_minter(owner@)
                &&& !c.is_paused
            },
    {
        if name.as_str().is_empty() || symbol.as_str().is_empty() {
            return Err(TribeError::Token(String::from_str(
                "token name and symbol cannot be empty",
            )));
        }
        if total_supply == 0 {
            return Err(TribeError::Token(String::from_str("total supply must be positive")));
        }
        if decimals > 18 {
            return Err(TribeError::Token(String::from_str("at most eighteen decimals")));
        }
        let mut balances = BalanceBook::new();
        balances.set(owner.as_str(), total_supply);
        let mut minters: Vec<String> = Vec::new();
        minters.push(owner.clone());
        proof {
            assert((minters@[0])@ == owner@);
        }
        let id = crate::runtime::new_id();
        let info = TokenInfo {
            id,
            name,
            symbol,
            decimals,
            description: String::new(),
            icon_url: None,
            website: None,
            social_links: Vec::new(),
        };
        let contract = TokenContract {
            info,
            total_supply,
            owner,
            balances,
            allowances: BalanceBook::new(),
            minters,
            is_paused: false,
        };
        proof {
            assert((contract.minters@[0])@ == contract.owner@);
            assert(contract.spec_is_minter(contract.owner@));
        }
        Ok(contract)
    }

    /// Balance of an address, zero when unknown.
    pub fn balance_of(&self, who: &str) -> (r: u64)
        requires
            self.wf(),
        ensures
            r == bal(self.balances.view(), who@),
    {
        self.balances.get(who)
    }

    /// Remaining allowance an owner granted a spender.
    pub fn allowance(&self, owner: &str, spender: &str) -> (r: u64)
        requires
            self.wf(),
        ensures
            r == bal(self.allowances.view(), allowance_key(owner@, spender@)),
    {
        let key = Self::make_allowance_key(owner, spender);
        self.allowances.get(key.as_str())
    }

    /// Joins an owner and a spender into one allowance key.
    fn make_allowance_key(owner: &str, spender: &str) -> (r: String)
        ensures
            r@ == allowance_key(owner@, spender@),
    {
        let mut key = String::from_str(owner);
        key.append(ALLOWANCE_SEPARATOR);
        key.append(spender);
        proof {
            assert(key@ =~= allowance_key(owner@, spender@));
        }
        key
    }

    /// Moves tokens between addresses: accepted exactly when the contract
    /// is running and the sender's balance covers the amount.
    pub fn transfer(&mut self, from: &str, to: &str, amount: u64) -> (r: TribeResult<()>)
        requires
            old(self).wf(),
            bal(old(self).balances.view(), to@) + amount <= u64::MAX,
        ensures
            final(self).wf(),
            r is Ok <==> (!old(self).is_paused && amount <= bal(
                old(self).balances.view(),
                from@,
            )),
            r is Ok && from@ != to@ ==> final(self).balances.view() == old(
                self,
            ).balances.view().insert(
                from@,
                (bal(old(self).balances.view(), from@) - amount) as u64,
            ).insert(to@, (bal(old(self).balances.view(), to@) + amount) as u64),
            r is Err ==> *final(self) == *old(self),
            final(self).total_supply == old(self).total_supply,
    {
        if self.is_paused {
            return Err(TribeError::Token(String::from_str("token is paused")));
        }
        let from_balance = self.balances.get(from);
        if amount > from_balance {
            return Err(TribeError::Token(String::from_str("insufficient balance")));
        }
        self.balances.debit(from, amount);
        self.balances.credit(to, amount);
        Ok(())
    }

    /// Grants a spender an allowance over the owner's tokens.
    pub fn approve(&mut self, owner: &str, spender: &str, amount: u64) -> (r: TribeResult<()>)
        requires
            old(self).wf(),
        ensures
            final(self).wf(),
            r is Ok <==> !old(self).is_paused,
            r is Ok ==> final(self).allowances.view() == old(self).allowances.view().insert(
                allowance_key(owner@, spender@),
                amount,
            ),
            r is Ok ==> final(self).balances == old(self).balances,
            r is Err ==> *final(self) == *old(self),
    {
        if self.is_paused {
            return Err(TribeError::Token(String::from_str("token is paused")));
        }
        let key = Self::make_allowance_key(owner, spender);
        self.allowances.set(key.as_str(), amount);
        Ok(())
    }

    /// Spends an allowance: accepted exactly when the contract is running,
    /// the allowance covers the amount, and so does the owner's balance.
    pub fn transfer_from(&mut self, spender: &str, from: &str, to: &str, amount: u64) -> (r:
        TribeResult<()>)
        requires
            old(self).wf(),
            bal(old(self).balances.view(), to@) + amount <= u64::MAX,
        ensures
            final(self).wf(),
            r is Ok <==> (!old(self).is_paused && amount <= bal(
                old(self).allowances.view(),
                allowance_key(from@, spender@),
            ) && amount <= bal(old(self).balances.view(), from@)),
            r is Ok ==> final(self).allowances.view() == old(self).allowances.view().insert(
                allowance_key(from@, spender@),
                (bal(old(self).allowances.view(), allowance_key(from@, spender@)) - amount) as u64,
            ),
            r is Err ==> *final(self) == *old(self),
            final(self).total_supply == old(self).total_supply,
    {
        if self.is_paused {
            return Err(TribeError::Token(String::from_str("token is paused")));
        }
        let key = Self::make_allowance_key(from, spender);
        let allowed = self.allowances.get(key.as_str());
        if amount > allowed {
            return Err(TribeError::Token(String::from_str("insufficient allowance")));
        }
        let from_balance = self.balances.get(from);
        if amount > from_balance {
            return Err(TribeError::Token(String::from_str("insufficient balance")));
        }
        self.balances.debit(from, amount);
        self.balances.credit(to, amount);
        self.allowances.debit(key.as_str(), amount);
        Ok(())
    }

    /// Mints new tokens to an address: accepted exactly when the contract
    /// is running, the caller is a minter, and the supply stays within the
    /// machine word.
    #[verifier::loop_isolation(false)]
    pub fn mint(&mut self, caller: &str, to: &str, amount: u64) -> (r: TribeResult<()>)
        requires
            old(self).wf(),
            bal(old(self).balances.view(), to@) + amount <= u64::MAX,
        ensures
            final(self).wf(),
            r is Ok <==> (!old(self).is_paused && old(self).spec_is_minter(caller@) && old(
                self,
            ).total_supply + amount <= u64::MAX),
            r is Ok ==> final(self).total_supply == old(self).total_supply + amount,
            r is Ok ==> final(self).balances.view() == old(self).balances.view().insert(
                to@,
                (bal(old(self).balances.view(), to@) + amount) as u64,
            ),
            r is Err ==> *final(self) == *old(self),
    {
        if self.is_paused {
            return Err(TribeError::Token(String::from_str("token is paused")));
        }
        let caller_owned = String::from_str(caller);
        let n = self.minters.len();
        let mut found = false;
        let mut i: usize = 0;
        while i < n
            invariant
                i <= n,
                found ==> self.spec_is_minter(caller@),
                !found ==> forall|j: int|
                    0 <= j < i ==> (#[trigger] self.minters@[j])@ != caller@,
            decreases n - i,
        {
            if !found && self.minters[i] == caller_owned {
                proof {
                    assert((self.minters@[i as int])@ == caller@);
                }
                found = true;
            }
            i = i + 1;
        }
        if !found {
            proof {
                if self.spec_is_minter(caller@) {
                    let w = choose|j: int|
                        0 <= j < self.minters@.len() && (#[trigger] self.minters@[j])@ == caller@;
                    assert(false);
                }
            }
            return Err(TribeError::Token(String::from_str("not authorized to mint")));
        }
        let new_supply = match self.total_supply.checked_add(amount) {
            Some(s) => s,
            None => {
                return Err(TribeError::Token(String::from_str("supply overflow")));
            },
        };
        self.total_supply = new_supply;
        self.balances.credit(to, amount);
        Ok(())
    }

    /// Burns tokens from an address: accepted exactly when the contract is
    /// running and the balance covers the amount.
    pub fn burn(&mut self, from: &str, amount: u64) -> (r: TribeResult<()>)
        requires
            old(self).wf(),
        ensures
            final(self).wf(),
            r is Ok <==> (!old(self).is_paused && amount <= bal(
                old(self).balances.view(),
                from@,
            )),
            r is Ok ==> final(self).balances.view() == old(self).balances.view().insert(
                from@,
                (bal(old(self).balances.view(), from@) - amount) as u64,
            ),
            r is Ok ==> final(self).total_supply as int == (if amount <= old(self).total_supply {
                old(self).total_supply - amount
            } else {
                0int
            }),
            r is Err ==> *final(self) == *old(self),
    {
        if self.is_paused {
            return Err(TribeError::Token(String::from_str("token is paused")));
        }
        let from_balance = self.balances.get(from);
        if amount > from_balance {
            return Err(TribeError::Token(String::from_str("insufficient balance")));
        }
        let supply_left = if amount <= self.total_supply {
            self.total_supply - amount
        } else {
            0
        };
        self.balances.debit(from, amount);
        self.total_supply = supply_left;
        Ok(())
    }

    /// Judges an operation without applying it: accepted exactly when the
    /// caller holds the right the operation needs and the funds it moves
    /// are covered.
    pub fn validate_operation(&self, operation: &TokenOperation, caller: &str) -> (r:
        TribeResult<()>)
        requires
            self.wf(),
        ensures
            r is Ok <==> match *operation {
                TokenOperation::Transfer { ref from, ref to, amount } => from@ == caller@
                    && amount <= bal(self.balances.view(), from@),
                TokenOperation::Approve { ref owner, ref spender, amount } => owner@ == caller@,
                TokenOperation::TransferFrom { ref spender, ref from, ref to, amount } => spender@
                    == caller@ && amount <= bal(
                    self.allowances.view(),
                    allowance_key(from@, spender@),
                ),
                TokenOperation::Mint { ref to, amount } => self.spec_is_minter(caller@),
                TokenOperation::Burn { ref from, amount } => from@ == caller@,
                TokenOperation::Pause => caller@ == self.owner@,
                TokenOperation::Unpause => caller@ == self.owner@,
                TokenOperation::AddMinter { ref minter } => caller@ == self.owner@,
                TokenOperation::RemoveMinter { ref minter } => caller@ == self.owner@,
                TokenOperation::TransferOwnership { ref new_owner } => caller@ == self.owner@,
            },
    {
        let caller_owned = String::from_str(caller);
        match operation {
            TokenOperation::Transfer { from, to, amount } => {
                if !(*from == caller_owned) {
                    return Err(TribeError::Token(String::from_str(
                        "can only transfer own tokens",
                    )));
                }
                if *amount > self.balance_of(from.as_str()) {
                    return Err(TribeError::Token(String::from_str("insufficient balance")));
                }
                Ok(())
            },
            TokenOperation::Approve { owner, spender, amount } => {
                if !(*owner == caller_owned) {
                    return Err(TribeError::Token(String::from_str(
                        "can only approve own tokens",
                    )));
                }
                Ok(())
            },
            TokenOperation::TransferFrom { spender, from, to, amount } => {
                if !(*spender == caller_owned) {
                    return Err(TribeError::Token(String::from_str("invalid spender")));
                }
                if *amount > self.allowance(from.as_str(), spender.as_str()) {
                    return Err(TribeError::Token(String::from_str("insufficient allowance")));
                }
                Ok(())
            },
            TokenOperation::Mint { to, amount } => {
                if !self.is_minter(caller) {
                    return Err(TribeError::Token(String::from_str("not authorized to mint")));
                }
                Ok(())
            },
            TokenOperation::Burn { from, amount } => {
                if !(*from == caller_owned) {
                    return Err(TribeError::Token(String::from_str("can only burn own tokens")));
                }
                Ok(())
            },
            TokenOperation::Pause | TokenOperation::Unpause => {
                if !(caller_owned == self.owner) {
                    return Err(TribeError::Token(String::from_str(
                        "only the owner can pause or unpause",
                    )));
                }
                Ok(())
            },
            TokenOperation::AddMinter { .. } | TokenOperation::RemoveMinter { .. } => {
                if !(caller_owned == self.owner) {
                    return Err(TribeError::Token(String::from_str(
                        "only the owner can manage minters",
                    )));
                }
                Ok(())
            },
            TokenOperation::TransferOwnership { .. } => {
                if !(caller_owned == self.owner) {
                    return Err(TribeError::Token(String::from_str(
                        "only the owner can transfer ownership",
                    )));
                }
                Ok(())
            },
        }
    }

    /// Whether `who` is a registered minter.
    #[verifier::loop_isolation(false)]
    pub fn is_minter(&self, who: &str) -> (r: bool)
        ensures
            r == self.spec_is_minter(who@),
    {
        let who_owned = String::from_str(who);
        let n = self.minters.len();
        let mut i: usize = 0;
        while i < n
            invariant
                i <= n,
                forall|j: int| 0 <= j < i ==> (#[trigger] self.minters@[j])@ != who@,
            decreases n - i,
        {
            if self.minters[i] == who_owned {
                proof {
                    assert((self.minters@[i as int])@ == who@);
                }
                return true;
            }
            i = i + 1;
        }
        proof {
            if self.spec_is_minter(who@) {
                let w = choose|j: int|
                    0 <= j < self.minters@.len() && (#[trigger] self.minters@[j])@ == who@;
                assert(false);
            }
        }
        false
    }

    /// Pauses the contract; only the owner may.
    pub fn pause(&mut self, caller: &str) -> (r: TribeResult<()>)
        ensures
            r is Ok <==> caller@ == old(self).owner@,
            r is Ok ==> final(self).is_paused,
            r is Err ==> *final(self) == *old(self),
    {
        let caller_owned = String::from_str(caller);
        if !(caller_owned == self.owner) {
            return Err(TribeError::Token(String::from_str("only the owner can pause")));
        }
        self.is_paused = true;
        Ok(())
    }

    /// Resumes the contract; only the owner may.
    pub fn unpause(&mut self, caller: &str) -> (r: TribeResult<()>)
        ensures
            r is Ok <==> caller@ == old(self).owner@,
            r is Ok ==> !final(self).is_paused,
            r is Err ==> *final(self) == *old(self),
    {
        let caller_owned = String::from_str(caller);
        if !(caller_owned == self.owner) {
            return Err(TribeError::Token(String::from_str("only the owner can unpause")));
        }
        self.is_paused = false;
        Ok(())
    }
}

} // verus!
