//! Initialization and owner-gated administration of the configuration.

use vstd::prelude::*;

use crate::addr::{check_addr, valid_addr};
use crate::state::{Config, ConfigModel, ContractState};
use crate::types::ContractError;

verus! {

/// One-time setup: validates the three addresses and returns the initial
/// state, with no operation pending, an empty recovery ledger, and the
/// correlation-token counter at zero.  A malformed address is rejected with
/// `InvalidAddress` and nothing is created.
pub fn initialize(swap_contract: String, governor: String, registry_contract: String) -> (r: Result<
    ContractState,
    ContractError,
>)
    ensures
        r is Ok <==> (valid_addr(swap_contract@) && valid_addr(governor@) && valid_addr(
            registry_contract@,
        )),
        r is Err ==> r == Err::<ContractState, ContractError>(ContractError::InvalidAddress),
        r matches Ok(s) ==> {
            &&& s.wf()
            &&& s@.config == (ConfigModel {
                swap_contract: swap_contract@,
                governor: governor@,
                registry_contract: registry_contract@,
            })
            &&& s@.next_token == 0
            &&& s@.pending_swaps.len() == 0
            &&& s@.pending_forwards.len() == 0
            &&& s@.in_flight.len() == 0
            &&& s@.recovery.len() == 0
        },
{
    if !check_addr(&swap_contract) || !check_addr(&governor) || !check_addr(&registry_contract) {
        return Err(ContractError::InvalidAddress);
    }
    let state = ContractState {
        config: Config { swap_contract, governor, registry_contract },
        next_token: 0,
        pending_swaps: Vec::new(),
        pending_forwards: Vec::new(),
        in_flight: Vec::new(),
        recovery: Vec::new(),
    };
    Ok(state)
}

impl ContractState {
    /// Hands the governing ownership to `new_governor`.
    ///
    /// Only the current governor may call this; anyone else is rejected with
    /// `Unauthorized` and the state is unchanged.  A malformed new owner is
    /// rejected with `InvalidAddress` before any mutation.  On success exactly
    /// the `governor` field of the configuration is overwritten.
    pub fn execute_transfer_ownership(&mut self, caller: &String, new_governor: String) -> (r:
        Result<(), ContractError>)
        requires
            old(self).wf(),
        ensures
            final(self).wf(),
            caller@ != old(self)@.config.governor ==> r == Err::<(), ContractError>(
                ContractError::Unauthorized,
            ) && *final(self) == *old(self),
            caller@ == old(self)@.config.governor && !valid_addr(new_governor@) ==> r == Err::<
                (),
                ContractError,
            >(ContractError::InvalidAddress) && *final(self) == *old(self),
            caller@ == old(self)@.config.governor && valid_addr(new_governor@) ==> {
                &&& r == Ok::<(), ContractError>(())
                &&& final(self)@.config == (ConfigModel {
                    governor: new_governor@,
                    ..old(self)@.config
                })
                &&& final(self)@.same_operational_state(old(self)@)
            },
    {
        if !(*caller == self.config.governor) {
            return Err(ContractError::Unauthorized);
        }
        if !check_addr(&new_governor) {
            return Err(ContractError::InvalidAddress);
        }
        self.config.governor = new_governor;
        Ok(())
    }

    /// Points the orchestrator at a new swap service.
    ///
    /// Only the current governor may call this; anyone else is rejected with
    /// `Unauthorized` and the state is unchanged.  A malformed address is
    /// rejected with `InvalidAddress` before any mutation.  On success exactly
    /// the `swap_contract` field of the configuration is overwritten.
    pub fn execute_set_swap_service(&mut self, caller: &String, new_contract: String) -> (r: Result<
        (),
        ContractError,
    >)
        requires
            old(self).wf(),
        ensures
            final(self).wf(),
            caller@ != old(self)@.config.governor ==> r == Err::<(), ContractError>(
                ContractError::Unauthorized,
            ) && *final(self) == *old(self),
            caller@ == old(self)@.config.governor && !valid_addr(new_contract@) ==> r == Err::<
                (),
                ContractError,
            >(ContractError::InvalidAddress) && *final(self) == *old(self),
            caller@ == old(self)@.config.governor && valid_addr(new_contract@) ==> {
                &&& r == Ok::<(), ContractError>(())
                &&& final(self)@.config == (ConfigModel {
                    swap_contract: new_contract@,
                    ..old(self)@.config
                })
                &&& final(self)@.same_operational_state(old(self)@)
            },
    {
        if !(*caller == self.config.governor) {
            return Err(ContractError::Unauthorized);
        }
        if !check_addr(&new_contract) {
            return Err(ContractError::InvalidAddress);
        }
        self.config.swap_contract = new_contract;
        Ok(())
    }
}

} // verus!
