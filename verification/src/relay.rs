//! The relay operation: two-party authorization, fee-ceiling validation,
//! downstream invocation, conditional fee settlement.
//!
//! The order of the steps is the point of this module and may not be
//! rearranged: authorization first, then the ceiling check (before any side
//! effect), then the downstream invocation, then — unconditionally once the
//! earlier gates have passed — the fee debit. A failed downstream invocation
//! is reported only after the debit has been attempted, so the caller, not
//! the sponsor, bears the cost of a failed operation.

use vstd::prelude::*;

use crate::auth::AuthContext;
use crate::ledger::Ledger;
use crate::value::InvokeError;
use crate::value::Value;

verus! {

/// The two persistent configuration slots, written once at initialization
/// and read on every relay attempt.
#[derive(Clone, Copy, PartialEq, Eq, Structural, Debug)]
pub enum DataKey {
    /// The slot holding the sponsor account's identity.
    BundlerAccount,
    /// The slot holding the fee asset's identity.
    TokenAddress,
}

/// The three failure kinds a relay attempt that passed authorization can
/// report. The taxonomy is flat and complete: no other error leaves the
/// relay.
#[derive(Clone, Copy, PartialEq, Eq, Structural, Debug)]
pub enum BundlerError {
    /// The caller's own cost estimate exceeds the ceiling it declared.
    /// Detected before any side effect.
    InsufficientFee,
    /// The downstream invocation failed. Reported only after a successful
    /// fee debit: the caller has paid although the operation did not happen.
    InnerFailure,
    /// The fee debit could not complete. The debit is atomic, so no balance
    /// changed; the downstream invocation's own effects, if it succeeded,
    /// are not undone.
    TransferFailed,
}

/// One request to relay a call: who asks, what they are willing to pay,
/// what they expect it to cost, and the call to forward.
pub struct RelayRequest {
    /// The party on whose behalf the call is relayed and who pays the fee.
    pub caller: u64,
    /// The fee ceiling: the most the caller has agreed to pay.
    pub max_fee: i128,
    /// The caller's own estimate of the execution cost.
    pub simulated_fee: i128,
    /// The downstream target to invoke.
    pub contract_address: u64,
    /// The name of the function to invoke on the target.
    pub function_name: Vec<u8>,
    /// The ordered argument list to hand to the target, verbatim.
    pub args: Vec<Value>,
}

/// The result of one relay attempt.
#[derive(PartialEq, Eq, Debug)]
pub enum RelayOutcome {
    /// The downstream invocation's return value, verbatim.
    Success(Value),
    /// The attempt completed and failed with one of the three error kinds.
    Failure(BundlerError),
    /// The named principal had not granted authorization: a hard stop
    /// before any other step, outside the three-kind taxonomy, with no
    /// side effect of any sort.
    Unauthorized(u64),
}

/// The relay itself: the immutable configuration fixed at initialization.
pub struct Bundler {
    bundler_account: u64,
    token_address: u64,
    custody: u64,
}

impl Bundler {
    /// The sponsor account whose consent gates every relay attempt.
    pub closed spec fn spec_sponsor(&self) -> u64 {
        self.bundler_account
    }

    /// The fungible asset in which fees are paid.
    pub closed spec fn spec_fee_asset(&self) -> u64 {
        self.token_address
    }

    /// The relay's own account, into which collected fees are held.
    pub closed spec fn spec_custody(&self) -> u64 {
        self.custody
    }

    /// Fixes the configuration: the fee asset, the sponsor account, and the
    /// relay's own custody account. Called once, before any relay attempt.
    pub fn new(token_address: u64, bundler_account: u64, custody: u64) -> (b: Bundler)
        ensures
            b.spec_fee_asset() == token_address,
            b.spec_sponsor() == bundler_account,
            b.spec_custody() == custody,
    {
        Bundler { bundler_account, token_address, custody }
    }

    /// Reads one configuration slot.
    pub fn config(&self, key: DataKey) -> (r: u64)
        ensures
            r == (match key {
                DataKey::BundlerAccount => self.spec_sponsor(),
                DataKey::TokenAddress => self.spec_fee_asset(),
            }),
    {
        match key {
            DataKey::BundlerAccount => self.bundler_account,
            DataKey::TokenAddress => self.token_address,
        }
    }

    /// What one relay attempt reports, as a function of the consents given,
    /// the two fee figures, whether the fee debit can complete, and the
    /// downstream invocation's outcome — evaluated in the relay's fixed
    /// order: sponsor consent, caller consent, fee ceiling, fee debit,
    /// downstream outcome.
    pub open spec fn relay_result(
        &self,
        auth: Set<u64>,
        caller: u64,
        max_fee: i128,
        simulated_fee: i128,
        transfer_ok: bool,
        downstream: Result<Value, InvokeError>,
    ) -> RelayOutcome {
        if !auth.contains(self.spec_sponsor()) {
            RelayOutcome::Unauthorized(self.spec_sponsor())
        } else if !auth.contains(caller) {
            RelayOutcome::Unauthorized(caller)
        } else if simulated_fee > max_fee {
            RelayOutcome::Failure(BundlerError::InsufficientFee)
        } else if !transfer_ok {
            RelayOutcome::Failure(BundlerError::TransferFailed)
        } else {
            match downstream {
                Ok(v) => RelayOutcome::Success(v),
                Err(_) => RelayOutcome::Failure(BundlerError::InnerFailure),
            }
        }
    }

    /// Whether one relay attempt debits the fee: exactly when both parties
    /// consented, the estimate is within the ceiling, and the debit itself
    /// can complete — independent of the downstream outcome.
    pub open spec fn charges_fee(
        &self,
        auth: Set<u64>,
        caller: u64,
        max_fee: i128,
        simulated_fee: i128,
        transfer_ok: bool,
    ) -> bool {
        &&& auth.contains(self.spec_sponsor())
        &&& auth.contains(caller)
        &&& simulated_fee <= max_fee
        &&& transfer_ok
    }

    /// One relay attempt. `downstream` is the outcome the downstream target
    /// reports when it is invoked with the request's target, function name
    /// and arguments; the target is opaque and its own side effects are
    /// outside this operation's control. Exactly one fee debit of
    /// `max_fee` — never the estimate — from the caller into custody is
    /// attempted, and only once authorization and the ceiling check have
    /// passed.
    pub fn execute(
        &self,
        auth: &AuthContext,
        ledger: &mut Ledger,
        req: &RelayRequest,
        downstream: Result<Value, InvokeError>,
    ) -> (out: RelayOutcome)
        ensures
            out == self.relay_result(
                auth@,
                req.caller,
                req.max_fee,
                req.simulated_fee,
                old(ledger).transfer_allowed(req.caller, self.spec_custody(), req.max_fee),
                downstream,
            ),
            self.charges_fee(
                auth@,
                req.caller,
                req.max_fee,
                req.simulated_fee,
                old(ledger).transfer_allowed(req.caller, self.spec_custody(), req.max_fee),
            ) ==> {
                &&& req.caller != self.spec_custody() ==> {
                    &&& final(ledger).spec_balance(req.caller)
                        == old(ledger).spec_balance(req.caller) - req.max_fee
                    &&& final(ledger).spec_balance(self.spec_custody())
                        == old(ledger).spec_balance(self.spec_custody()) + req.max_fee
                    &&& forall|w: u64|
                        w != req.caller && w != self.spec_custody()
                            ==> final(ledger).spec_balance(w) == old(ledger).spec_balance(w)
                }
                &&& req.caller == self.spec_custody() ==> forall|w: u64|
                    final(ledger).spec_balance(w) == old(ledger).spec_balance(w)
            },
            !self.charges_fee(
                auth@,
                req.caller,
                req.max_fee,
                req.simulated_fee,
                old(ledger).transfer_allowed(req.caller, self.spec_custody(), req.max_fee),
            ) ==> forall|w: u64|
                final(ledger).spec_balance(w) == old(ledger).spec_balance(w),
    {
        let sponsor = self.config(DataKey::BundlerAccount);
        if !auth.is_granted(sponsor) {
            return RelayOutcome::Unauthorized(sponsor);
        }
        if !auth.is_granted(req.caller) {
            return RelayOutcome::Unauthorized(req.caller);
        }
        if req.simulated_fee > req.max_fee {
            return RelayOutcome::Failure(BundlerError::InsufficientFee);
        }
        let ok = ledger.transfer(req.caller, self.custody, req.max_fee);
        if !ok {
            return RelayOutcome::Failure(BundlerError::TransferFailed);
        }
        match downstream {
            Ok(v) => RelayOutcome::Success(v),
            Err(_) => RelayOutcome::Failure(BundlerError::InnerFailure),
        }
    }
}

/// The ceiling check alone: accepts exactly when the caller's estimate does
/// not exceed the ceiling it declared, and rejects with InsufficientFee
/// otherwise.
pub fn check_fee(max_fee: i128, simulated_fee: i128) -> (r: Result<(), BundlerError>)
    ensures
        r == (if simulated_fee <= max_fee {
            Result::<(), BundlerError>::Ok(())
        } else {
            Result::<(), BundlerError>::Err(BundlerError::InsufficientFee)
        }),
{
    if simulated_fee <= max_fee {
        Ok(())
    } else {
        Err(BundlerError::InsufficientFee)
    }
}

/// The settlement verdict alone: a failed fee debit is TransferFailed
/// whatever the downstream invocation did; a successful debit after a failed
/// downstream invocation is InnerFailure; otherwise nothing is wrong.
pub fn settle(transfer_ok: bool, downstream_ok: bool) -> (r: Option<BundlerError>)
    ensures
        r == (if !transfer_ok {
            Option::Some(BundlerError::TransferFailed)
        } else if !downstream_ok {
            Option::Some(BundlerError::InnerFailure)
        } else {
            Option::<BundlerError>::None
        }),
{
    if !transfer_ok {
        Some(BundlerError::TransferFailed)
    } else if !downstream_ok {
        Some(BundlerError::InnerFailure)
    } else {
        None
    }
}

/// Ceiling enforcement: an authorized request whose estimate exceeds its
/// ceiling is rejected as InsufficientFee and charges no fee, whatever the
/// ledger would have allowed and whatever the downstream target would have
/// reported.
pub proof fn lemma_ceiling_enforcement(
    b: Bundler,
    auth: Set<u64>,
    caller: u64,
    max_fee: i128,
    simulated_fee: i128,
    transfer_ok: bool,
    downstream: Result<Value, InvokeError>,
)
    requires
        auth.contains(b.spec_sponsor()),
        auth.contains(caller),
        simulated_fee > max_fee,
    ensures
        b.relay_result(auth, caller, max_fee, simulated_fee, transfer_ok, downstream)
            == RelayOutcome::Failure(BundlerError::InsufficientFee),
        !b.charges_fee(auth, caller, max_fee, simulated_fee, transfer_ok),
{
}

/// Auth gating: without the sponsor's consent the attempt stops as
/// Unauthorized naming the sponsor, no fee is charged, and the outcome is
/// the same whatever the fee figures, the ledger and the downstream target
/// would have contributed — no later step leaves a trace in it.
pub proof fn lemma_auth_gating(
    b: Bundler,
    auth: Set<u64>,
    caller: u64,
    max_fee_a: i128,
    simulated_fee_a: i128,
    transfer_ok_a: bool,
    downstream_a: Result<Value, InvokeError>,
    max_fee_b: i128,
    simulated_fee_b: i128,
    transfer_ok_b: bool,
    downstream_b: Result<Value, InvokeError>,
)
    requires
        !auth.contains(b.spec_sponsor()),
    ensures
        b.relay_result(auth, caller, max_fee_a, simulated_fee_a, transfer_ok_a, downstream_a)
            == RelayOutcome::Unauthorized(b.spec_sponsor()),
        b.relay_result(auth, caller, max_fee_a, simulated_fee_a, transfer_ok_a, downstream_a)
            == b.relay_result(auth, caller, max_fee_b, simulated_fee_b, transfer_ok_b, downstream_b),
        !b.charges_fee(auth, caller, max_fee_a, simulated_fee_a, transfer_ok_a),
{
}

/// Charge on success: with both consents, an estimate within the ceiling, a
/// fee debit that completes and a downstream invocation that succeeded, the
/// attempt reports the downstream's value verbatim and the fee is charged.
pub proof fn lemma_charge_on_success(
    b: Bundler,
    auth: Set<u64>,
    caller: u64,
    max_fee: i128,
    simulated_fee: i128,
    v: Value,
)
    requires
        auth.contains(b.spec_sponsor()),
        auth.contains(caller),
        simulated_fee <= max_fee,
    ensures
        b.relay_result(auth, caller, max_fee, simulated_fee, true, Result::Ok(v))
            == RelayOutcome::Success(v),
        b.charges_fee(auth, caller, max_fee, simulated_fee, true),
{
}

/// Charge despite inner failure: with both consents, an estimate within the
/// ceiling and a fee debit that completes, a failed downstream invocation is
/// reported as InnerFailure — and the fee is charged all the same.
pub proof fn lemma_charge_despite_inner_failure(
    b: Bundler,
    auth: Set<u64>,
    caller: u64,
    max_fee: i128,
    simulated_fee: i128,
    e: InvokeError,
)
    requires
        auth.contains(b.spec_sponsor()),
        auth.contains(caller),
        simulated_fee <= max_fee,
    ensures
        b.relay_result(auth, caller, max_fee, simulated_fee, true, Result::Err(e))
            == RelayOutcome::Failure(BundlerError::InnerFailure),
        b.charges_fee(auth, caller, max_fee, simulated_fee, true),
{
}

/// No charge on transfer failure: when the fee debit cannot complete, the
/// attempt reports TransferFailed whatever the downstream invocation did,
/// and no fee is charged.
pub proof fn lemma_no_charge_on_transfer_failure(
    b: Bundler,
    auth: Set<u64>,
    caller: u64,
    max_fee: i128,
    simulated_fee: i128,
    downstream: Result<Value, InvokeError>,
)
    requires
        auth.contains(b.spec_sponsor()),
        auth.contains(caller),
        simulated_fee <= max_fee,
    ensures
        b.relay_result(auth, caller, max_fee, simulated_fee, false, downstream)
            == RelayOutcome::Failure(BundlerError::TransferFailed),
        !b.charges_fee(auth, caller, max_fee, simulated_fee, false),
{
}

} // verus!
