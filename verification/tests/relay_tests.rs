use bundler::auth::AuthContext;
use bundler::ledger::Ledger;
use bundler::relay::Bundler;
use bundler::relay::BundlerError;
use bundler::relay::DataKey;
use bundler::relay::RelayOutcome;
use bundler::relay::RelayRequest;
use bundler::value::InvokeError;
use bundler::value::Value;

const TOKEN: u64 = 7;
const SPONSOR: u64 = 1;
const CUSTODY: u64 = 9;
const CALLER: u64 = 2;
const TARGET: u64 = 3;

fn bundler() -> Bundler {
    Bundler::new(TOKEN, SPONSOR, CUSTODY)
}

fn full_auth() -> AuthContext {
    let mut auth = AuthContext::new();
    auth.grant(SPONSOR);
    auth.grant(CALLER);
    auth
}

fn funded_ledger() -> Ledger {
    let mut ledger = Ledger::new();
    ledger.set_balance(CALLER, 100);
    ledger
}

fn request(max_fee: i128, simulated_fee: i128) -> RelayRequest {
    RelayRequest {
        caller: CALLER,
        max_fee,
        simulated_fee,
        contract_address: TARGET,
        function_name: vec![b'p', b'i', b'n', b'g'],
        args: vec![
            Value::Int(5),
            Value::Bool(true),
            Value::Pairs(vec![(Value::Bytes(vec![b'k']), Value::Void)]),
        ],
    }
}

#[test]
fn success_scenario_charges_ceiling_and_returns_value() {
    let b = bundler();
    let auth = full_auth();
    let mut ledger = funded_ledger();
    let out = b.execute(&auth, &mut ledger, &request(10, 5), Ok(Value::Bytes(vec![4, 2])));
    assert_eq!(out, RelayOutcome::Success(Value::Bytes(vec![4, 2])));
    assert_eq!(ledger.balance_of(CALLER), 90);
    assert_eq!(ledger.balance_of(CUSTODY), 10);
}

#[test]
fn estimate_above_ceiling_is_insufficient_fee_and_free() {
    let b = bundler();
    let auth = full_auth();
    let mut ledger = funded_ledger();
    let out = b.execute(&auth, &mut ledger, &request(10, 20), Ok(Value::Void));
    assert_eq!(out, RelayOutcome::Failure(BundlerError::InsufficientFee));
    assert_eq!(ledger.balance_of(CALLER), 100);
    assert_eq!(ledger.balance_of(CUSTODY), 0);
}

#[test]
fn inner_failure_still_charges_the_fee() {
    let b = bundler();
    let auth = full_auth();
    let mut ledger = funded_ledger();
    let out = b.execute(&auth, &mut ledger, &request(10, 5), Err(InvokeError));
    assert_eq!(out, RelayOutcome::Failure(BundlerError::InnerFailure));
    assert_eq!(ledger.balance_of(CALLER), 90);
    assert_eq!(ledger.balance_of(CUSTODY), 10);
}

#[test]
fn missing_sponsor_consent_stops_everything() {
    let b = bundler();
    let mut auth = AuthContext::new();
    auth.grant(CALLER);
    let mut ledger = funded_ledger();
    let out = b.execute(&auth, &mut ledger, &request(10, 5), Ok(Value::Void));
    assert_eq!(out, RelayOutcome::Unauthorized(SPONSOR));
    assert_eq!(ledger.balance_of(CALLER), 100);
    assert_eq!(ledger.balance_of(CUSTODY), 0);
}

#[test]
fn missing_caller_consent_stops_everything() {
    let b = bundler();
    let mut auth = AuthContext::new();
    auth.grant(SPONSOR);
    let mut ledger = funded_ledger();
    let out = b.execute(&auth, &mut ledger, &request(10, 5), Err(InvokeError));
    assert_eq!(out, RelayOutcome::Unauthorized(CALLER));
    assert_eq!(ledger.balance_of(CALLER), 100);
}

#[test]
fn failed_transfer_is_reported_even_when_downstream_succeeded() {
    let b = bundler();
    let auth = full_auth();
    let mut ledger = Ledger::new();
    ledger.set_balance(CALLER, 3);
    let out = b.execute(&auth, &mut ledger, &request(10, 5), Ok(Value::Int(1)));
    assert_eq!(out, RelayOutcome::Failure(BundlerError::TransferFailed));
    assert_eq!(ledger.balance_of(CALLER), 3);
    assert_eq!(ledger.balance_of(CUSTODY), 0);
}

#[test]
fn negative_ceiling_passes_the_check_but_cannot_settle() {
    let b = bundler();
    let auth = full_auth();
    let mut ledger = funded_ledger();
    let out = b.execute(&auth, &mut ledger, &request(-1, -5), Ok(Value::Void));
    assert_eq!(out, RelayOutcome::Failure(BundlerError::TransferFailed));
    assert_eq!(ledger.balance_of(CALLER), 100);
}

#[test]
fn estimate_equal_to_ceiling_is_accepted() {
    let b = bundler();
    let auth = full_auth();
    let mut ledger = funded_ledger();
    let out = b.execute(&auth, &mut ledger, &request(10, 10), Ok(Value::Void));
    assert_eq!(out, RelayOutcome::Success(Value::Void));
    assert_eq!(ledger.balance_of(CALLER), 90);
}

#[test]
fn zero_fee_success_moves_nothing() {
    let b = bundler();
    let auth = full_auth();
    let mut ledger = funded_ledger();
    let out = b.execute(&auth, &mut ledger, &request(0, 0), Ok(Value::List(vec![])));
    assert_eq!(out, RelayOutcome::Success(Value::List(vec![])));
    assert_eq!(ledger.balance_of(CALLER), 100);
    assert_eq!(ledger.balance_of(CUSTODY), 0);
}

#[test]
fn config_slots_hold_what_was_initialized() {
    let b = bundler();
    assert_eq!(b.config(DataKey::BundlerAccount), SPONSOR);
    assert_eq!(b.config(DataKey::TokenAddress), TOKEN);
}

#[test]
fn check_fee_accepts_exactly_up_to_the_ceiling() {
    assert_eq!(bundler::relay::check_fee(10, 5), Ok(()));
    assert_eq!(bundler::relay::check_fee(10, 10), Ok(()));
    assert_eq!(
        bundler::relay::check_fee(10, 11),
        Err(BundlerError::InsufficientFee)
    );
    assert_eq!(bundler::relay::check_fee(-1, -5), Ok(()));
}

#[test]
fn settle_orders_transfer_failure_before_inner_failure() {
    assert_eq!(
        bundler::relay::settle(false, true),
        Some(BundlerError::TransferFailed)
    );
    assert_eq!(
        bundler::relay::settle(false, false),
        Some(BundlerError::TransferFailed)
    );
    assert_eq!(
        bundler::relay::settle(true, false),
        Some(BundlerError::InnerFailure)
    );
    assert_eq!(bundler::relay::settle(true, true), None);
}

#[test]
fn bystander_balances_never_move() {
    let b = bundler();
    let auth = full_auth();
    let mut ledger = funded_ledger();
    ledger.set_balance(55, 1234);
    let out = b.execute(&auth, &mut ledger, &request(10, 5), Ok(Value::Void));
    assert_eq!(out, RelayOutcome::Success(Value::Void));
    assert_eq!(ledger.balance_of(55), 1234);
}
