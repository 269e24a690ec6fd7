use vstd::prelude::*;

use crate::address::ProgramAddress;
use crate::amount::scaled;
use crate::destake::{destake, destake_error, destake_payout, destaked, DeStake, Payout};
use crate::error::ErrorCode;
use crate::initialize::{initialize, initialize_outcome, Initialize};
use crate::stake::{stake, stake_error, staked, Stake};
use crate::state::{Policy, StakeInfo};

verus! {

/// One user's records in the store: the user's own token balance, ledger
/// entry and personal stake vault balance.
#[derive(Clone, Copy, Debug)]
pub struct UserRecords {
    pub owner: [u8; 32],
    pub user_token_account: u64,
    pub stake_info_account: StakeInfo,
    pub stake_account: u64,
}

/// The records a stake by `u` works on.
pub open spec fn stake_records(u: UserRecords, decimals: u8) -> Stake {
    Stake {
        stake_info_account: u.stake_info_account,
        stake_account: u.stake_account,
        user_token_account: u.user_token_account,
        decimals,
    }
}

/// The records a destake by `u` works on, with the reward vault's balance.
pub open spec fn destake_records(u: UserRecords, reward_vault: u64, decimals: u8) -> DeStake {
    DeStake {
        token_vault_account: reward_vault,
        stake_info_account: u.stake_info_account,
        stake_account: u.stake_account,
        user_token_account: u.user_token_account,
        decimals,
    }
}

/// `u` with the user's part of `s` written back.
pub open spec fn after_stake(u: UserRecords, s: Stake) -> UserRecords {
    UserRecords {
        owner: u.owner,
        user_token_account: s.user_token_account,
        stake_info_account: s.stake_info_account,
        stake_account: s.stake_account,
    }
}

/// `u` with the user's part of `d` written back.
pub open spec fn after_destake(u: UserRecords, d: DeStake) -> UserRecords {
    UserRecords {
        owner: u.owner,
        user_token_account: d.user_token_account,
        stake_info_account: d.stake_info_account,
        stake_account: d.stake_account,
    }
}

/// The store of every account the program keeps: the shared reward vault
/// and, for each user, that user's records, found by the user's identity.
pub struct Ledger {
    decimals: u8,
    policy: Policy,
    reward_vault: Initialize,
    users: Vec<UserRecords>,
}

impl Ledger {
    /// No two users share an identity.
    pub closed spec fn wf(&self) -> bool {
        forall|i: int, j: int|
            0 <= i < j < self.users@.len() ==> self.users@[i].owner@ != self.users@[j].owner@
    }

    /// Each user's records, by identity.
    pub closed spec fn accounts(&self) -> Map<Seq<u8>, UserRecords> {
        Map::new(
            |k: Seq<u8>| exists|i: int| 0 <= i < self.users@.len() && self.users@[i].owner@ == k,
            |k: Seq<u8>|
                self.users@[choose|i: int| 0 <= i < self.users@.len() && self.users@[i].owner@ == k],
        )
    }

    /// The reward vault's balance, or `None` before initialization.
    pub closed spec fn reward_vault(&self) -> Option<u64> {
        self.reward_vault.token_vault_account
    }

    pub closed spec fn decimals(&self) -> u8 {
        self.decimals
    }

    pub closed spec fn policy(&self) -> Policy {
        self.policy
    }

    proof fn lemma_lookup(&self, i: int)
        requires
            self.wf(),
            0 <= i < self.users@.len(),
        ensures
            self.accounts().contains_key(self.users@[i].owner@),
            self.accounts()[self.users@[i].owner@] == self.users@[i],
    {
        let k = self.users@[i].owner@;
        assert(self.accounts().contains_key(k));
        let j = choose|j: int| 0 <= j < self.users@.len() && self.users@[j].owner@ == k;
        assert(j == i);
    }

    /// An empty store for an asset with `decimals` decimals, run under
    /// `policy`.
    pub fn new(decimals: u8, policy: Policy) -> (r: Ledger)
        ensures
            r.wf(),
            r.accounts() == Map::<Seq<u8>, UserRecords>::empty(),
            r.reward_vault() is None,
            r.decimals() == decimals,
            r.policy() == policy,
    {
        let r = Ledger {
            decimals,
            policy,
            reward_vault: Initialize { token_vault_account: None },
            users: Vec::new(),
        };
        assert(r.accounts() =~= Map::<Seq<u8>, UserRecords>::empty());
        r
    }

    fn position(&self, owner: &[u8; 32]) -> (r: Option<usize>)
        ensures
            r matches Some(i) ==> i < self.users@.len() && self.users@[i as int].owner@ == owner@,
            r is None ==> !self.accounts().contains_key(owner@),
    {
        let mut i: usize = 0;
        while i < self.users.len()
            invariant
                i <= self.users@.len(),
                forall|j: int| 0 <= j < i ==> self.users@[j].owner@ != owner@,
            decreases self.users@.len() - i,
        {
            if same_identity(&self.users[i].owner, owner) {
                return Some(i);
            }
            i = i + 1;
        }
        None
    }

    fn replace(&mut self, i: usize, u: UserRecords)
        requires
            old(self).wf(),
            i < old(self).users@.len(),
            u.owner@ == old(self).users@[i as int].owner@,
        ensures
            final(self).wf(),
            final(self).accounts() == old(self).accounts().insert(u.owner@, u),
            final(self).reward_vault == old(self).reward_vault,
            final(self).decimals == old(self).decimals,
            final(self).policy == old(self).policy,
    {
        let ghost before = *self;
        self.users.set(i, u);
        proof {
            assert forall|a: int, b: int| 0 <= a < b < self.users@.len() implies self.users@[
                a
            ].owner@ != self.users@[b].owner@ by {
                assert(self.users@[a].owner@ == before.users@[a].owner@);
                assert(self.users@[b].owner@ == before.users@[b].owner@);
            }
            assert forall|k: Seq<u8>| #[trigger]
                self.accounts().contains_key(k) == before.accounts().insert(
                    u.owner@,
                    u,
                ).contains_key(k) by {
                if before.accounts().contains_key(k) {
                    let j = choose|j: int|
                        0 <= j < before.users@.len() && before.users@[j].owner@ == k;
                    assert(self.users@[j].owner@ == k);
                }
                if self.accounts().contains_key(k) {
                    let j = choose|j: int| 0 <= j < self.users@.len() && self.users@[j].owner@ == k;
                    assert(before.users@[j].owner@ == k);
                }
            }
            assert forall|k: Seq<u8>| #[trigger]
                self.accounts().contains_key(k) implies self.accounts()[k]
                == before.accounts().insert(u.owner@, u)[k] by {
                let j = choose|j: int| 0 <= j < self.users@.len() && self.users@[j].owner@ == k;
                self.lemma_lookup(j);
                if j != i as int {
                    assert(before.users@[j] == self.users@[j]);
                    before.lemma_lookup(j);
                }
            }
            assert(self.accounts() =~= before.accounts().insert(u.owner@, u));
        }
    }

    /// Opens the records of a new user whose own token balance is `balance`,
    /// with an empty ledger entry and an empty personal stake vault. Returns
    /// `false`, changing nothing, where `owner` already has records.
    pub fn open_wallet(&mut self, owner: &[u8; 32], balance: u64) -> (r: bool)
        requires
            old(self).wf(),
        ensures
            final(self).wf(),
            r == !old(self).accounts().contains_key(owner@),
            final(self).accounts() == (if r {
                old(self).accounts().insert(
                    owner@,
                    UserRecords {
                        owner: *owner,
                        user_token_account: balance,
                        stake_info_account: StakeInfo {
                            stake_at_slot: 0,
                            is_staked: false,
                            stake_amount: 0,
                        },
                        stake_account: 0,
                    },
                )
            } else {
                old(self).accounts()
            }),
            final(self).reward_vault() == old(self).reward_vault(),
            final(self).decimals() == old(self).decimals(),
            final(self).policy() == old(self).policy(),
    {
        if self.position(owner).is_some() {
            return false;
        }
        let ghost before = *self;
        let u = UserRecords {
            owner: *owner,
            user_token_account: balance,
            stake_info_account: StakeInfo::new(),
            stake_account: 0,
        };
        self.users.push(u);
        proof {
            let n = before.users@.len();
            assert(self.users@[n as int] == u);
            assert forall|a: int| 0 <= a < n implies self.users@[a] == before.users@[a] by {}
            assert forall|k: Seq<u8>| #[trigger]
                self.accounts().contains_key(k) == before.accounts().insert(
                    owner@,
                    u,
                ).contains_key(k) by {
                if before.accounts().contains_key(k) {
                    let j = choose|j: int|
                        0 <= j < before.users@.len() && before.users@[j].owner@ == k;
                    assert(self.users@[j].owner@ == k);
                }
                if k == owner@ {
                    assert(self.users@[n as int].owner@ == k);
                }
                if self.accounts().contains_key(k) && k != owner@ {
                    let j = choose|j: int| 0 <= j < self.users@.len() && self.users@[j].owner@ == k;
                    assert(before.users@[j].owner@ == k);
                }
            }
            assert forall|k: Seq<u8>| #[trigger]
                self.accounts().contains_key(k) implies self.accounts()[k]
                == before.accounts().insert(owner@, u)[k] by {
                let j = choose|j: int| 0 <= j < self.users@.len() && self.users@[j].owner@ == k;
                self.lemma_lookup(j);
                if j != n as int {
                    before.lemma_lookup(j);
                }
            }
            assert(self.accounts() =~= before.accounts().insert(owner@, u));
        }
        true
    }

    /// Makes sure the reward vault exists at its derived address, as
    /// `initialize` does; users' records are untouched.
    pub fn initialize(&mut self, program_id: &[u8; 32]) -> (r: Result<ProgramAddress, ErrorCode>)
        requires
            old(self).wf(),
        ensures
            final(self).wf(),
            final(self).reward_vault() == initialize_outcome(
                Initialize { token_vault_account: old(self).reward_vault() },
                program_id@,
            ).0.token_vault_account,
            match initialize_outcome(
                Initialize { token_vault_account: old(self).reward_vault() },
                program_id@,
            ).1 {
                Ok(address) => r matches Ok(p) && p.address@ == address,
                Err(e) => r == Err::<ProgramAddress, ErrorCode>(e),
            },
            final(self).accounts() == old(self).accounts(),
            final(self).decimals() == old(self).decimals(),
            final(self).policy() == old(self).policy(),
    {
        initialize(&mut self.reward_vault, program_id)
    }

    /// Adds `amount` smallest units to the reward vault.
    pub fn fund_reward_vault(&mut self, amount: u64) -> (r: Result<(), ErrorCode>)
        requires
            old(self).wf(),
        ensures
            final(self).wf(),
            old(self).reward_vault() is None ==> r == Err::<(), ErrorCode>(
                ErrorCode::AccountNotInitialized,
            ) && final(self).reward_vault() == old(self).reward_vault(),
            old(self).reward_vault() matches Some(b) ==> if b + amount > u64::MAX {
                r == Err::<(), ErrorCode>(ErrorCode::ArithmeticOverflow)
                    && final(self).reward_vault() == old(self).reward_vault()
            } else {
                r == Ok::<(), ErrorCode>(()) && final(self).reward_vault() == Some(
                    (b + amount) as u64,
                )
            },
            final(self).accounts() == old(self).accounts(),
            final(self).decimals() == old(self).decimals(),
            final(self).policy() == old(self).policy(),
    {
        match self.reward_vault.token_vault_account {
            None => Err(ErrorCode::AccountNotInitialized),
            Some(b) => match b.checked_add(amount) {
                Some(total) => {
                    self.reward_vault = Initialize { token_vault_account: Some(total) };
                    Ok(())
                },
                None => Err(ErrorCode::ArithmeticOverflow),
            },
        }
    }

    /// `stake` on `owner`'s records. Every other user's records and the
    /// reward vault stay as they are.
    pub fn stake(&mut self, owner: &[u8; 32], amount: u64, now: u64) -> (r: Result<u64, ErrorCode>)
        requires
            old(self).wf(),
            amount > 0,
        ensures
            final(self).wf(),
            !old(self).accounts().contains_key(owner@) ==> r == Err::<u64, ErrorCode>(
                ErrorCode::AccountNotInitialized,
            ) && final(self).accounts() == old(self).accounts(),
            old(self).accounts().contains_key(owner@) ==> ({
                let u = old(self).accounts()[owner@];
                let c = stake_records(u, old(self).decimals());
                match stake_error(c, amount, old(self).policy()) {
                    Some(e) => r == Err::<u64, ErrorCode>(e)
                        && final(self).accounts() == old(self).accounts(),
                    None => r == Ok::<u64, ErrorCode>(scaled(amount, c.decimals) as u64)
                        && final(self).accounts() == old(self).accounts().insert(
                        owner@,
                        after_stake(u, staked(c, amount, now)),
                    ),
                }
            }),
            forall|k: Seq<u8>|
                k != owner@ ==> #[trigger] final(self).accounts().get(k) == old(
                    self
                ).accounts().get(k),
            final(self).reward_vault() == old(self).reward_vault(),
            final(self).decimals() == old(self).decimals(),
            final(self).policy() == old(self).policy(),
    {
        let i = match self.position(owner) {
            Some(i) => i,
            None => return Err(ErrorCode::AccountNotInitialized),
        };
        proof {
            self.lemma_lookup(i as int);
        }
        let u = self.users[i];
        let mut c = Stake {
            stake_info_account: u.stake_info_account,
            stake_account: u.stake_account,
            user_token_account: u.user_token_account,
            decimals: self.decimals,
        };
        let r = stake(&mut c, amount, now, &self.policy);
        if r.is_ok() {
            let updated = UserRecords {
                owner: u.owner,
                user_token_account: c.user_token_account,
                stake_info_account: c.stake_info_account,
                stake_account: c.stake_account,
            };
            self.replace(i, updated);
        }
        r
    }

    /// `destake` on `owner`'s records and the reward vault. Every other
    /// user's records stay as they are.
    pub fn destake(&mut self, owner: &[u8; 32], amount: u64, now: u64) -> (r: Result<
        Payout,
        ErrorCode,
    >)
        requires
            old(self).wf(),
        ensures
            final(self).wf(),
            (old(self).reward_vault() is None || !old(self).accounts().contains_key(owner@)) ==> r
                == Err::<Payout, ErrorCode>(ErrorCode::AccountNotInitialized)
                && final(self).accounts() == old(self).accounts()
                && final(self).reward_vault() == old(self).reward_vault(),
            (old(self).reward_vault() is Some && old(self).accounts().contains_key(owner@)) ==> ({
                let u = old(self).accounts()[owner@];
                let vault = old(self).reward_vault()->Some_0;
                let c = destake_records(u, vault, old(self).decimals());
                let policy = old(self).policy();
                match destake_error(c, amount, now, policy) {
                    Some(e) => r == Err::<Payout, ErrorCode>(e)
                        && final(self).accounts() == old(self).accounts()
                        && final(self).reward_vault() == old(self).reward_vault(),
                    None => r == Ok::<Payout, ErrorCode>(destake_payout(c, amount, now, policy))
                        && final(self).accounts() == old(self).accounts().insert(
                        owner@,
                        after_destake(u, destaked(c, amount, now, policy)),
                    ) && final(self).reward_vault() == Some(
                        destaked(c, amount, now, policy).token_vault_account,
                    ),
                }
            }),
            forall|k: Seq<u8>|
                k != owner@ ==> #[trigger] final(self).accounts().get(k) == old(
                    self
                ).accounts().get(k),
            final(self).decimals() == old(self).decimals(),
            final(self).policy() == old(self).policy(),
    {
        let vault = match self.reward_vault.token_vault_account {
            Some(v) => v,
            None => return Err(ErrorCode::AccountNotInitialized),
        };
        let i = match self.position(owner) {
            Some(i) => i,
            None => return Err(ErrorCode::AccountNotInitialized),
        };
        proof {
            self.lemma_lookup(i as int);
        }
        let u = self.users[i];
        let mut d = DeStake {
            token_vault_account: vault,
            stake_info_account: u.stake_info_account,
            stake_account: u.stake_account,
            user_token_account: u.user_token_account,
            decimals: self.decimals,
        };
        let r = destake(&mut d, amount, now, &self.policy);
        if r.is_ok() {
            let updated = UserRecords {
                owner: u.owner,
                user_token_account: d.user_token_account,
                stake_info_account: d.stake_info_account,
                stake_account: d.stake_account,
            };
            self.replace(i, updated);
            self.reward_vault = Initialize { token_vault_account: Some(d.token_vault_account) };
        }
        r
    }

    /// The reward vault's balance, or `None` before initialization.
    pub fn reward_vault_balance(&self) -> (r: Option<u64>)
        ensures
            r == self.reward_vault(),
    {
        self.reward_vault.token_vault_account
    }

    /// `owner`'s records, if the user has any.
    pub fn records(&self, owner: &[u8; 32]) -> (r: Option<UserRecords>)
        requires
            self.wf(),
        ensures
            r == self.accounts().get(owner@),
    {
        match self.position(owner) {
            Some(i) => {
                proof {
                    self.lemma_lookup(i as int);
                }
                Some(self.users[i])
            },
            None => None,
        }
    }
}

/// Whether two user identities are the same.
fn same_identity(a: &[u8; 32], b: &[u8; 32]) -> (r: bool)
    ensures
        r == (a@ == b@),
{
    let mut i: usize = 0;
    while i < 32
        invariant
            i <= 32,
            forall|j: int| 0 <= j < i ==> a@[j] == b@[j],
        decreases 32 - i,
    {
        if a[i] != b[i] {
            return false;
        }
        i = i + 1;
    }
    assert(a@ =~= b@);
    true
}

} // verus!
