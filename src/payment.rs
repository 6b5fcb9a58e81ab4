use vstd::prelude::*;
use crate::audit::{create_audit_log_internal, is_audit_record};
use crate::contexts::VerifyX402Payment;
use crate::error::XLiquidityEngineError;
use crate::key::same_optional_key;
use crate::state::{AuditLog, AuditPayload, ProtocolConfig, X402Payment};
use crate::types::{AuditEventType, Clock, PaymentCurrency, PaymentStatus};

verus! {

/// Seconds of API access that a verified payment grants.
pub const ACCESS_DURATION_SECS: i64 = 3600;

/// Why the payment cannot be verified, if it cannot.
pub open spec fn payment_error(
    config: ProtocolConfig,
    ctx: VerifyX402Payment,
    amount: u64,
    now: i64,
) -> Option<XLiquidityEngineError> {
    if amount < config.x402_min_payment {
        Some(XLiquidityEngineError::PaymentTooSmall)
    } else if config.x402_facilitator != Some(ctx.facilitator) {
        Some(XLiquidityEngineError::InvalidFacilitator)
    } else if now + ACCESS_DURATION_SECS > i64::MAX {
        Some(XLiquidityEngineError::ArithmeticOverflow)
    } else {
        None
    }
}

/// Verifies a payment for metered access to `api_endpoint`: it must reach the
/// configured minimum and be presented by the configured facilitator. A
/// verified payment grants access for one hour from now; settling it is left
/// to the facilitator.
pub fn verify_x402_payment(
    ctx: &VerifyX402Payment,
    config: &ProtocolConfig,
    payment_id: [u8; 32],
    amount: u64,
    currency: PaymentCurrency,
    api_endpoint: String,
    api_version: String,
    clock: &Clock,
) -> (r: Result<(X402Payment, AuditLog), XLiquidityEngineError>)
    ensures
        match r {
            Err(e) => payment_error(*config, *ctx, amount, clock.unix_timestamp) == Some(e),
            Ok((p, log)) => {
                &&& payment_error(*config, *ctx, amount, clock.unix_timestamp) is None
                &&& p.payment_id == payment_id
                &&& p.payer == ctx.payer
                &&& p.payer_wallet == ctx.payer_wallet
                &&& p.amount == amount
                &&& p.currency == currency
                &&& p.payment_status == PaymentStatus::Verified
                &&& p.facilitator == ctx.facilitator
                &&& p.facilitator_signature is None
                &&& p.payment_tx_signature is None
                &&& p.api_endpoint == api_endpoint
                &&& p.api_version == api_version
                &&& p.access_granted
                &&& p.access_expires_at == Some((clock.unix_timestamp + ACCESS_DURATION_SECS) as i64)
                &&& p.requested_at == clock.unix_timestamp
                &&& p.verified_at == Some(clock.unix_timestamp)
                &&& p.settled_at is None
                &&& is_audit_record(
                    log,
                    AuditEventType::PaymentReceived,
                    None,
                    ctx.payer,
                    AuditPayload::Empty,
                    *clock,
                )
            },
        },
{
    if amount < config.x402_min_payment {
        return Err(XLiquidityEngineError::PaymentTooSmall);
    }
    if !same_optional_key(&config.x402_facilitator, &ctx.facilitator) {
        return Err(XLiquidityEngineError::InvalidFacilitator);
    }
    let expires_at = match clock.unix_timestamp.checked_add(ACCESS_DURATION_SECS) {
        Some(t) => t,
        None => return Err(XLiquidityEngineError::ArithmeticOverflow),
    };
    let payment = X402Payment {
        payment_id,
        payer: ctx.payer,
        payer_wallet: ctx.payer_wallet,
        amount,
        currency,
        payment_status: PaymentStatus::Verified,
        facilitator: ctx.facilitator,
        facilitator_signature: None,
        payment_tx_signature: None,
        api_endpoint,
        api_version,
        access_granted: true,
        access_expires_at: Some(expires_at),
        requested_at: clock.unix_timestamp,
        verified_at: Some(clock.unix_timestamp),
        settled_at: None,
    };
    let log = create_audit_log_internal(
        AuditEventType::PaymentReceived,
        None,
        ctx.payer,
        AuditPayload::Empty,
        clock,
    );
    Ok((payment, log))
}

} // verus!
