//! The recovery ledger: claimable balances of operations that could not be
//! completed, appended by the failure paths and drained by an explicit claim.

use vstd::prelude::*;

use crate::state::ContractState;
use crate::types::{Action, Coin, CoinModel, RecoveryEntry, RecoveryModel};

verus! {

/// The claimable balances of `who`, in the order they were recorded.
pub open spec fn recoverable_coins(r: Seq<RecoveryModel>, who: Seq<char>) -> Seq<CoinModel>
    decreases r.len(),
{
    if r.len() == 0 {
        Seq::empty()
    } else {
        let rest = recoverable_coins(r.drop_last(), who);
        if r.last().recoverer == who {
            rest.push(r.last().coin)
        } else {
            rest
        }
    }
}

/// The ledger without the balances of `who`, in the order they were recorded.
pub open spec fn entries_not_for(r: Seq<RecoveryModel>, who: Seq<char>) -> Seq<RecoveryModel>
    decreases r.len(),
{
    if r.len() == 0 {
        Seq::empty()
    } else {
        let rest = entries_not_for(r.drop_last(), who);
        if r.last().recoverer == who {
            rest
        } else {
            rest.push(r.last())
        }
    }
}

impl ContractState {
    /// A read-only, side-effect-free lookup of the balances currently
    /// claimable by `addr`: the empty list, not an error, when there are none.
    pub fn query_recoverable(&self, addr: &String) -> (coins: Vec<Coin>)
        ensures
            coins@.map_values(|c: Coin| c@) == recoverable_coins(self@.recovery, addr@),
    {
        let n = self.recovery.len();
        let mut coins: Vec<Coin> = Vec::new();
        let mut i: usize = 0;
        while i < n
            invariant
                i <= n,
                n == self.recovery@.len(),
                coins@.map_values(|c: Coin| c@) == recoverable_coins(
                    self@.recovery.take(i as int),
                    addr@,
                ),
            decreases n - i,
        {
            let ghost prefix = self@.recovery.take(i as int);
            let ghost grown = self@.recovery.take(i as int + 1);
            proof {
                assert(grown.drop_last() =~= prefix);
                assert(grown.last() == self@.recovery[i as int]);
            }
            if self.recovery[i].recoverer == *addr {
                let ghost before = coins@.map_values(|c: Coin| c@);
                coins.push(self.recovery[i].coin.clone());
                proof {
                    crate::state::lemma_map_values_push(
                        coins@.drop_last(),
                        |c: Coin| c@,
                        coins@.last(),
                    );
                    assert(coins@.drop_last().push(coins@.last()) =~= coins@);
                    assert(coins@.map_values(|c: Coin| c@) =~= before.push(
                        self@.recovery[i as int].coin,
                    ));
                }
            }
            i += 1;
        }
        proof {
            assert(self@.recovery.take(n as int) =~= self@.recovery);
        }
        coins
    }

    /// The caller claims their recoverable balances: returns the full
    /// claimable list (the one release the host must perform) and atomically
    /// clears it from the ledger; every other sender's balances are kept in
    /// order, and nothing else of the state is touched.
    pub fn execute_recover(&mut self, caller: &String) -> (r: Action)
        requires
            old(self).wf(),
        ensures
            final(self).wf(),
            final(self)@.recovery == entries_not_for(old(self)@.recovery, caller@),
            final(self)@.config == old(self)@.config,
            final(self)@.next_token == old(self)@.next_token,
            final(self)@.pending_swaps == old(self)@.pending_swaps,
            final(self)@.pending_forwards == old(self)@.pending_forwards,
            final(self)@.in_flight == old(self)@.in_flight,
            r matches Action::Release { to, coins } && to@ == caller@ && coins@.map_values(
                |c: Coin| c@,
            ) == recoverable_coins(old(self)@.recovery, caller@),
    {
        let n = self.recovery.len();
        let mut kept: Vec<RecoveryEntry> = Vec::new();
        let mut coins: Vec<Coin> = Vec::new();
        let mut i: usize = 0;
        while i < n
            invariant
                i <= n,
                n == self.recovery@.len(),
                coins@.map_values(|c: Coin| c@) == recoverable_coins(
                    self@.recovery.take(i as int),
                    caller@,
                ),
                kept@.map_values(|e: RecoveryEntry| e@) == entries_not_for(
                    self@.recovery.take(i as int),
                    caller@,
                ),
            decreases n - i,
        {
            let ghost prefix = self@.recovery.take(i as int);
            let ghost grown = self@.recovery.take(i as int + 1);
            proof {
                assert(grown.drop_last() =~= prefix);
                assert(grown.last() == self@.recovery[i as int]);
            }
            if self.recovery[i].recoverer == *caller {
                let ghost before = coins@.map_values(|c: Coin| c@);
                coins.push(self.recovery[i].coin.clone());
                proof {
                    crate::state::lemma_map_values_push(
                        coins@.drop_last(),
                        |c: Coin| c@,
                        coins@.last(),
                    );
                    assert(coins@.drop_last().push(coins@.last()) =~= coins@);
                    assert(coins@.map_values(|c: Coin| c@) =~= before.push(
                        self@.recovery[i as int].coin,
                    ));
                }
            } else {
                let ghost before = kept@.map_values(|e: RecoveryEntry| e@);
                kept.push(self.recovery[i].clone());
                proof {
                    crate::state::lemma_map_values_push(
                        kept@.drop_last(),
                        |e: RecoveryEntry| e@,
                        kept@.last(),
                    );
                    assert(kept@.drop_last().push(kept@.last()) =~= kept@);
                    assert(kept@.map_values(|e: RecoveryEntry| e@) =~= before.push(
                        self@.recovery[i as int],
                    ));
                }
            }
            i += 1;
        }
        proof {
            assert(self@.recovery.take(n as int) =~= self@.recovery);
        }
        self.recovery = kept;
        Action::Release { to: caller.clone(), coins }
    }
}

} // verus!
