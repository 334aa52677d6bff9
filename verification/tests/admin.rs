use crosschain_swaps::config::initialize;
use crosschain_swaps::state::ContractState;
use crosschain_swaps::types::ContractError;

fn setup() -> ContractState {
    initialize(
        "swapservice".to_string(),
        "governor1".to_string(),
        "registry9".to_string(),
    )
    .expect("all three addresses are well-formed")
}

#[test]
fn initialize_rejects_a_malformed_address() {
    let result = initialize(
        "Not A Valid Address!".to_string(),
        "governor1".to_string(),
        "registry9".to_string(),
    );
    assert!(matches!(result, Err(ContractError::InvalidAddress)));

    let result = initialize(
        "swapservice".to_string(),
        "".to_string(),
        "registry9".to_string(),
    );
    assert!(matches!(result, Err(ContractError::InvalidAddress)));
}

#[test]
fn address_length_bounds() {
    // 90 lowercase alphanumeric characters is the longest accepted identity.
    let longest = "a".repeat(90);
    let too_long = "a".repeat(91);
    assert!(initialize(
        longest,
        "governor1".to_string(),
        "registry9".to_string()
    )
    .is_ok());
    assert!(matches!(
        initialize(too_long, "governor1".to_string(), "registry9".to_string()),
        Err(ContractError::InvalidAddress)
    ));
}

#[test]
fn non_owner_cannot_set_swap_service() {
    let mut state = setup();
    let result =
        state.execute_set_swap_service(&"mallory".to_string(), "evilswap".to_string());
    assert_eq!(result, Err(ContractError::Unauthorized));
    assert_eq!(state.config.swap_contract, "swapservice");
    assert_eq!(state.config.governor, "governor1");
    assert_eq!(state.config.registry_contract, "registry9");
}

#[test]
fn owner_sets_swap_service() {
    let mut state = setup();
    let result =
        state.execute_set_swap_service(&"governor1".to_string(), "newswap".to_string());
    assert_eq!(result, Ok(()));
    assert_eq!(state.config.swap_contract, "newswap");
    assert_eq!(state.config.governor, "governor1");
    assert_eq!(state.config.registry_contract, "registry9");
}

#[test]
fn set_swap_service_rejects_a_malformed_address() {
    let mut state = setup();
    let result =
        state.execute_set_swap_service(&"governor1".to_string(), "Bad Address".to_string());
    assert_eq!(result, Err(ContractError::InvalidAddress));
    assert_eq!(state.config.swap_contract, "swapservice");
}

#[test]
fn ownership_transfer_gates_later_admin_calls() {
    let mut state = setup();
    let result =
        state.execute_transfer_ownership(&"governor1".to_string(), "governor2".to_string());
    assert_eq!(result, Ok(()));
    assert_eq!(state.config.governor, "governor2");

    // The old governor no longer has the role.
    let result =
        state.execute_transfer_ownership(&"governor1".to_string(), "governor1".to_string());
    assert_eq!(result, Err(ContractError::Unauthorized));
    assert_eq!(state.config.governor, "governor2");

    // The new governor does.
    let result =
        state.execute_set_swap_service(&"governor2".to_string(), "newswap".to_string());
    assert_eq!(result, Ok(()));
    assert_eq!(state.config.swap_contract, "newswap");
}

#[test]
fn non_owner_cannot_transfer_ownership() {
    let mut state = setup();
    let result =
        state.execute_transfer_ownership(&"mallory".to_string(), "mallory".to_string());
    assert_eq!(result, Err(ContractError::Unauthorized));
    assert_eq!(state.config.governor, "governor1");
}

#[test]
fn transfer_ownership_rejects_a_malformed_address() {
    let mut state = setup();
    let result = state.execute_transfer_ownership(&"governor1".to_string(), "".to_string());
    assert_eq!(result, Err(ContractError::InvalidAddress));
    assert_eq!(state.config.governor, "governor1");
}
