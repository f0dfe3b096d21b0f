//! What the execution engine decides around a swap: the plan, the requests
//! made of the routing service, the priority fee, and what follows the
//! mandatory simulation.

use vstd::prelude::*;
use base64::Engine;
use crate::jupiter::{QuoteRequest, QuoteResponse, SlippageError, SwapRequest,
    ensure_slippage_bounds, slippage_verdict};
use crate::fixed::{floor_div, lemma_quotient_bounds};
use crate::position::Position;
use crate::text::{decimal, decimal_string};

verus! {

/// Why base64 text could not be decoded, as `base64` reports it.
#[verifier::external_type_specification]
#[verifier::external_body]
pub struct ExDecodeError(base64::DecodeError);

#[derive(Debug, Clone)]
pub struct SwapPlan {
    pub input_mint: String,
    pub output_mint: String,
    /// Amount to sell, in the input mint's base units.
    pub in_amount: u64,
    pub slippage_bps: u64,
}

#[derive(Debug, Clone)]
pub struct SwapResult {
    pub signature: String,
}

/// The lowest priority fee that is offered, in micro-lamports per compute
/// unit, where any is offered.
pub const MIN_PRIORITY_FEE: u64 = 1;

/// The highest priority fee that is offered.
pub const MAX_PRIORITY_FEE: u64 = 50_000;

/// The bytes that standard, padded base64 text stands for, or none where the
/// text is not such base64.
pub uninterp spec fn base64_standard(text: Seq<char>) -> Option<Seq<u8>>;

/// `base64::Engine::decode` on `base64::engine::general_purpose::STANDARD`:
/// decodes text in the standard alphabet with padding required. The contract
/// names the outcome and claims only that it depends on the text alone.
#[verifier::external_body]
fn decode_standard(text: &str) -> (decoded: Result<Vec<u8>, base64::DecodeError>)
    ensures
        match decoded {
            Ok(bytes) => base64_standard(text@) == Some(bytes@),
            Err(_) => base64_standard(text@) is None,
        },
{
    base64::engine::general_purpose::STANDARD.decode(text)
}

/// Why a swap did not go through, as far as the engine itself decides it.
#[derive(Debug, Clone, Copy, PartialEq, Eq, Structural)]
pub enum SwapError {
    /// The slippage tolerance of the plan was refused.
    Slippage(SlippageError),
    /// The transaction that the routing service sent is not base64.
    BadEncoding,
}

/// The piece of outside work that a swap waits for. A swap goes through the
/// stages in this order and does nothing out of turn.
#[derive(Debug, Clone, Copy, PartialEq, Eq, Structural)]
pub enum SwapStage {
    /// Loading the signer's key.
    LoadKeypair,
    /// Asking the routing service for a quote.
    Quote,
    /// Asking for the fees lately paid.
    PriorityFee,
    /// Asking the routing service for the transaction.
    BuildSwap,
    /// Decoding the transaction and signing it over a fresh block hash.
    Sign,
    /// Simulating the signed transaction.
    Simulate,
    /// Sending the signed transaction.
    Send,
    /// The swap is done.
    Done,
    /// The swap was given up.
    Failed,
}

/// The stage that follows `stage` once its work has succeeded or failed. A
/// failure ends the swap, but for the priority fee, which is done without.
/// After a simulation that succeeded a dry run is done and anything else is
/// sent.
pub open spec fn stage_after(stage: SwapStage, succeeded: bool, dry_run: bool) -> SwapStage {
    match stage {
        SwapStage::LoadKeypair => if succeeded {
            SwapStage::Quote
        } else {
            SwapStage::Failed
        },
        SwapStage::Quote => if succeeded {
            SwapStage::PriorityFee
        } else {
            SwapStage::Failed
        },
        SwapStage::PriorityFee => SwapStage::BuildSwap,
        SwapStage::BuildSwap => if succeeded {
            SwapStage::Sign
        } else {
            SwapStage::Failed
        },
        SwapStage::Sign => if succeeded {
            SwapStage::Simulate
        } else {
            SwapStage::Failed
        },
        SwapStage::Simulate => if !succeeded {
            SwapStage::Failed
        } else if dry_run {
            SwapStage::Done
        } else {
            SwapStage::Send
        },
        SwapStage::Send => if succeeded {
            SwapStage::Done
        } else {
            SwapStage::Failed
        },
        SwapStage::Done => SwapStage::Done,
        SwapStage::Failed => SwapStage::Failed,
    }
}

/// The stage reached from `stage` after the outcomes `outcomes`, oldest
/// first.
pub open spec fn stage_after_all(stage: SwapStage, outcomes: Seq<bool>, dry_run: bool)
    -> SwapStage
    decreases outcomes.len(),
{
    if outcomes.len() == 0 {
        stage
    } else {
        stage_after(
            stage_after_all(stage, outcomes.drop_last(), dry_run),
            outcomes.last(),
            dry_run,
        )
    }
}

/// How far along a stage is.
pub open spec fn stage_rank(stage: SwapStage) -> int {
    match stage {
        SwapStage::LoadKeypair => 0,
        SwapStage::Quote => 1,
        SwapStage::PriorityFee => 2,
        SwapStage::BuildSwap => 3,
        SwapStage::Sign => 4,
        SwapStage::Simulate => 5,
        SwapStage::Send => 6,
        SwapStage::Done => 7,
        SwapStage::Failed => 7,
    }
}

/// A transaction is sent only straight after its simulation has succeeded,
/// and never in a dry run.
pub proof fn lemma_send_follows_simulation(stage: SwapStage, succeeded: bool, dry_run: bool)
    ensures
        stage_after(stage, succeeded, dry_run) == SwapStage::Send ==> stage == SwapStage::Simulate
            && succeeded && !dry_run,
        stage_rank(stage) < 7 ==> stage_rank(stage_after(stage, succeeded, dry_run)) > stage_rank(
            stage,
        ),
        stage_rank(stage) == 7 ==> stage_after(stage, succeeded, dry_run) == stage,
{
}

/// In a dry run no history of outcomes leads a swap that is not yet sending
/// to send.
pub proof fn lemma_dry_run_never_sends(stage: SwapStage, outcomes: Seq<bool>)
    requires
        stage != SwapStage::Send,
    ensures
        stage_after_all(stage, outcomes, true) != SwapStage::Send,
    decreases outcomes.len(),
{
    if outcomes.len() > 0 {
        lemma_dry_run_never_sends(stage, outcomes.drop_last());
    }
}

/// The largest of `fees`, or none where there are none.
pub open spec fn highest(fees: Seq<u64>) -> Option<u64>
    decreases fees.len(),
{
    if fees.len() == 0 {
        None
    } else {
        match highest(fees.drop_last()) {
            Some(rest) => Some(if fees.last() > rest { fees.last() } else { rest }),
            None => Some(fees.last()),
        }
    }
}

/// The priority fee to offer given the fees lately paid: their highest, kept
/// between `MIN_PRIORITY_FEE` and `MAX_PRIORITY_FEE`, or nothing where none
/// was paid.
pub open spec fn priority_fee_of(fees: Seq<u64>) -> u64 {
    match highest(fees) {
        None => 0,
        Some(fee) => if fee < MIN_PRIORITY_FEE {
            MIN_PRIORITY_FEE
        } else if fee > MAX_PRIORITY_FEE {
            MAX_PRIORITY_FEE
        } else {
            fee
        },
    }
}

/// The priority fee to offer, in micro-lamports per compute unit.
pub fn priority_fee_micro_lamports(fees: &Vec<u64>) -> (fee: u64)
    ensures
        fee == priority_fee_of(fees@),
        fees.len() == 0 ==> fee == 0,
        fees.len() > 0 ==> MIN_PRIORITY_FEE <= fee <= MAX_PRIORITY_FEE,
{
    let mut best: Option<u64> = None;
    let mut i: usize = 0;
    while i < fees.len()
        invariant
            i <= fees.len(),
            best == highest(fees@.take(i as int)),
            i > 0 ==> best is Some,
        decreases fees.len() - i,
    {
        assert(fees@.take(i + 1).drop_last() =~= fees@.take(i as int));
        let fee = fees[i];
        best = match best {
            Some(rest) => Some(if fee > rest { fee } else { rest }),
            None => Some(fee),
        };
        i += 1;
    }
    assert(fees@.take(fees.len() as int) =~= fees@);
    match best {
        None => 0,
        Some(fee) => if fee < MIN_PRIORITY_FEE {
            MIN_PRIORITY_FEE
        } else if fee > MAX_PRIORITY_FEE {
            MAX_PRIORITY_FEE
        } else {
            fee
        },
    }
}

/// Computes `stage_after`.
pub fn next_stage(stage: SwapStage, succeeded: bool, dry_run: bool) -> (next: SwapStage)
    ensures
        next == stage_after(stage, succeeded, dry_run),
{
    match stage {
        SwapStage::LoadKeypair => if succeeded {
            SwapStage::Quote
        } else {
            SwapStage::Failed
        },
        SwapStage::Quote => if succeeded {
            SwapStage::PriorityFee
        } else {
            SwapStage::Failed
        },
        SwapStage::PriorityFee => SwapStage::BuildSwap,
        SwapStage::BuildSwap => if succeeded {
            SwapStage::Sign
        } else {
            SwapStage::Failed
        },
        SwapStage::Sign => if succeeded {
            SwapStage::Simulate
        } else {
            SwapStage::Failed
        },
        SwapStage::Simulate => if !succeeded {
            SwapStage::Failed
        } else if dry_run {
            SwapStage::Done
        } else {
            SwapStage::Send
        },
        SwapStage::Send => if succeeded {
            SwapStage::Done
        } else {
            SwapStage::Failed
        },
        SwapStage::Done => SwapStage::Done,
        SwapStage::Failed => SwapStage::Failed,
    }
}

/// The result of a swap that was simulated and not sent.
pub fn dry_run_result() -> (result: SwapResult)
    ensures
        result.signature@ == "DRY_RUN"@,
{
    SwapResult { signature: "DRY_RUN".to_owned() }
}

/// The bytes of the transaction that the routing service sent as base64.
pub fn decode_swap_transaction(encoded: &str) -> (decoded: Result<Vec<u8>, SwapError>)
    ensures
        match decoded {
            Ok(bytes) => base64_standard(encoded@) == Some(bytes@),
            Err(error) => error == SwapError::BadEncoding && base64_standard(encoded@) is None,
        },
{
    match decode_standard(encoded) {
        Ok(bytes) => Ok(bytes),
        Err(_) => Err(SwapError::BadEncoding),
    }
}

impl SwapPlan {
    /// Checks the plan's slippage tolerance against the configured maximum,
    /// before anything is asked of the outside world.
    pub fn check(&self, max_slippage_bps: u64) -> (verdict: Result<(), SwapError>)
        ensures
            verdict == match slippage_verdict(self.slippage_bps, max_slippage_bps) {
                Ok(_) => Ok::<(), SwapError>(()),
                Err(error) => Err(SwapError::Slippage(error)),
            },
            verdict is Ok <==> 0 < self.slippage_bps <= max_slippage_bps,
    {
        match ensure_slippage_bounds(self.slippage_bps, max_slippage_bps) {
            Ok(_) => Ok(()),
            Err(error) => Err(SwapError::Slippage(error)),
        }
    }

    /// Where the swap starts: at the signer's key where the plan's slippage
    /// tolerance is accepted, and at its end where it is refused.
    pub fn first_stage(&self, max_slippage_bps: u64) -> (stage: SwapStage)
        ensures
            stage == if 0 < self.slippage_bps <= max_slippage_bps {
                SwapStage::LoadKeypair
            } else {
                SwapStage::Failed
            },
    {
        match self.check(max_slippage_bps) {
            Ok(_) => SwapStage::LoadKeypair,
            Err(_) => SwapStage::Failed,
        }
    }

    /// The quote to ask for: the plan's mints and slippage, the amount in
    /// decimal, and any route allowed.
    pub fn quote_request(&self) -> (request: QuoteRequest)
        ensures
            request.input_mint@ == self.input_mint@,
            request.output_mint@ == self.output_mint@,
            request.amount@ == decimal(self.in_amount as nat),
            request.slippage_bps == self.slippage_bps,
            request.only_direct_routes is None,
    {
        QuoteRequest {
            input_mint: self.input_mint.clone(),
            output_mint: self.output_mint.clone(),
            amount: decimal_string(self.in_amount),
            slippage_bps: self.slippage_bps,
            only_direct_routes: None,
        }
    }
}

/// The swap to ask for once quoted: the quote as it came, the signer's key,
/// wrapping and unwrapping of SOL switched on, and the priority fee where one
/// could be had.
pub fn swap_request(
    quote: QuoteResponse,
    user_public_key: String,
    priority_fee: Option<u64>,
) -> (request: SwapRequest)
    ensures
        request.quote_response == quote.rest,
        request.user_public_key == user_public_key,
        request.wrap_and_unwrap_sol == Some(true),
        request.compute_unit_price_micro_lamports == priority_fee,
{
    SwapRequest {
        quote_response: quote.rest,
        user_public_key,
        wrap_and_unwrap_sol: Some(true),
        compute_unit_price_micro_lamports: priority_fee,
    }
}

/// The amount of base, in the base mint's units, that a notional in the
/// quote mint's units is worth at a price: `notional * ticks_per_unit /
/// price`, rounded down and kept within `u64`, where `price` is the price of
/// one unit of base in units of quote, in ticks of which `ticks_per_unit` make
/// one. A notional that is not positive is worth nothing, and at a price of
/// zero no amount can be told.
pub open spec fn base_amount_of(notional: int, price: int, ticks_per_unit: int) -> int {
    if notional > 0 && price > 0 {
        let amount = (notional * ticks_per_unit) / price;
        if amount > u64::MAX {
            u64::MAX as int
        } else {
            amount
        }
    } else {
        0
    }
}

/// Computes `base_amount_of`. A position's size is a notional in millionths
/// of a USDC, which are the units of the USDC mint.
pub fn base_amount_for(notional_usdc: i64, price: u64, ticks_per_unit: u64) -> (amount: u64)
    ensures
        amount == base_amount_of(notional_usdc as int, price as int, ticks_per_unit as int),
{
    if notional_usdc > 0 && price > 0 {
        assert(0 <= notional_usdc * ticks_per_unit <= 0x7fff_ffff_ffff_ffff * 0xffff_ffff_ffff_ffff)
            by (nonlinear_arith)
            requires
                0 < notional_usdc <= 0x7fff_ffff_ffff_ffff,
                0 <= ticks_per_unit <= 0xffff_ffff_ffff_ffff,
        ;
        let product: i128 = (notional_usdc as i128) * (ticks_per_unit as i128);
        let amount = floor_div(product, price as i128);
        if amount > u64::MAX as i128 {
            u64::MAX
        } else {
            proof {
                lemma_quotient_bounds(product as int, price as int);
            }
            amount as u64
        }
    } else {
        0
    }
}

/// The swap that closes a position: `in_amount` of its base, in the base
/// mint's units, sold back into its quote. The book holds a position's size
/// as a notional in the quote, so the caller sizes the sale with
/// `base_amount_for` at the price it trades at.
pub fn exit_plan(position: &Position, in_amount: u64, slippage_bps: u64) -> (plan: SwapPlan)
    ensures
        plan.input_mint@ == position.base_mint@,
        plan.output_mint@ == position.quote_mint@,
        plan.in_amount == in_amount,
        plan.slippage_bps == slippage_bps,
{
    SwapPlan {
        input_mint: position.base_mint.clone(),
        output_mint: position.quote_mint.clone(),
        in_amount,
        slippage_bps,
    }
}

} // verus!
