//! Pool-manager logs, decoded by the bindings of `substreams_abis`.
use crate::events::{
    DonateFields,
    DonateLog,
    InitializeFields,
    InitializeLog,
    ModifyLiquidityFields,
    ModifyLiquidityLog,
    ProtocolFeeUpdatedFields,
    ProtocolFeeUpdatedLog,
    SwapFields,
    SwapLog,
};
use crate::text::bytes_view;
use crate::wide::WideInt;
use substreams_abis::dex::uniswap::v4::poolmanager::events as bindings;
use substreams_ethereum::pb::eth::v2::Log;
use substreams_ethereum::Event;
use vstd::prelude::*;

verus! {

/// The fields of the `Swap` event in a log with these topics and data, where the
/// log is one.
pub uninterp spec fn swap_log(topics: Seq<Seq<u8>>, data: Seq<u8>) -> Option<SwapFields>;

/// The fields of the `Initialize` event in a log with these topics and data, where
/// the log is one.
pub uninterp spec fn initialize_log(topics: Seq<Seq<u8>>, data: Seq<u8>) -> Option<
    InitializeFields,
>;

/// The fields of the `ModifyLiquidity` event in a log with these topics and data,
/// where the log is one.
pub uninterp spec fn modify_liquidity_log(topics: Seq<Seq<u8>>, data: Seq<u8>) -> Option<
    ModifyLiquidityFields,
>;

/// The fields of the `Donate` event in a log with these topics and data, where the
/// log is one.
pub uninterp spec fn donate_log(topics: Seq<Seq<u8>>, data: Seq<u8>) -> Option<DonateFields>;

/// The new controller of the `ProtocolFeeControllerUpdated` event in a log with
/// these topics and data, where the log is one.
pub uninterp spec fn protocol_fee_controller_updated_log(
    topics: Seq<Seq<u8>>,
    data: Seq<u8>,
) -> Option<Seq<u8>>;

/// The fields of the `ProtocolFeeUpdated` event in a log with these topics and
/// data, where the log is one.
pub uninterp spec fn protocol_fee_updated_log(topics: Seq<Seq<u8>>, data: Seq<u8>) -> Option<
    ProtocolFeeUpdatedFields,
>;

/// The view of optional swap fields.
pub open spec fn swap_view(fields: Option<SwapLog>) -> Option<SwapFields> {
    match fields {
        Some(f) => Some(f@),
        None => None,
    }
}

/// The view of optional initialize fields.
pub open spec fn initialize_view(fields: Option<InitializeLog>) -> Option<InitializeFields> {
    match fields {
        Some(f) => Some(f@),
        None => None,
    }
}

/// The view of optional modify-liquidity fields.
pub open spec fn modify_liquidity_view(fields: Option<ModifyLiquidityLog>) -> Option<
    ModifyLiquidityFields,
> {
    match fields {
        Some(f) => Some(f@),
        None => None,
    }
}

/// The view of optional donate fields.
pub open spec fn donate_view(fields: Option<DonateLog>) -> Option<DonateFields> {
    match fields {
        Some(f) => Some(f@),
        None => None,
    }
}

/// The view of optional protocol-fee fields.
pub open spec fn protocol_fee_updated_view(fields: Option<ProtocolFeeUpdatedLog>) -> Option<
    ProtocolFeeUpdatedFields,
> {
    match fields {
        Some(f) => Some(f@),
        None => None,
    }
}

/// Calls `Swap::match_and_decode` of the pool-manager bindings on a log with these
/// topics and data, and keeps each number as its two's-complement bytes. Trusted:
/// the outcome depends on topics and data alone; a log that does not match or does
/// not decode gives nothing.
#[verifier::external_body]
pub(crate) fn decode_swap(topics: &Vec<Vec<u8>>, data: &Vec<u8>) -> (r: Option<SwapLog>)
    ensures
        swap_view(r) == swap_log(topics.deep_view(), data@),
{
    let log = Log { topics: topics.clone(), data: data.clone(), ..Default::default() };
    bindings::Swap::match_and_decode(&log).map(
        |e| SwapLog {
            id: e.id.to_vec(),
            sender: e.sender,
            amount0: WideInt { bytes: e.amount0.to_signed_bytes_be() },
            amount1: WideInt { bytes: e.amount1.to_signed_bytes_be() },
            sqrt_price_x96: WideInt { bytes: e.sqrt_price_x96.to_signed_bytes_be() },
            liquidity: WideInt { bytes: e.liquidity.to_signed_bytes_be() },
            tick: WideInt { bytes: e.tick.to_signed_bytes_be() },
            fee: WideInt { bytes: e.fee.to_signed_bytes_be() },
        },
    )
}

/// Calls `Initialize::match_and_decode` of the pool-manager bindings on a log with
/// these topics and data, and keeps each number as its two's-complement bytes.
/// Trusted: the outcome depends on topics and data alone; a log that does not
/// match or does not decode gives nothing.
#[verifier::external_body]
pub(crate) fn decode_initialize(topics: &Vec<Vec<u8>>, data: &Vec<u8>) -> (r: Option<
    InitializeLog,
>)
    ensures
        initialize_view(r) == initialize_log(topics.deep_view(), data@),
{
    let log = Log { topics: topics.clone(), data: data.clone(), ..Default::default() };
    bindings::Initialize::match_and_decode(&log).map(
        |e| InitializeLog {
            id: e.id.to_vec(),
            currency0: e.currency0,
            currency1: e.currency1,
            fee: WideInt { bytes: e.fee.to_signed_bytes_be() },
            tick_spacing: WideInt { bytes: e.tick_spacing.to_signed_bytes_be() },
            hooks: e.hooks,
            sqrt_price_x96: WideInt { bytes: e.sqrt_price_x96.to_signed_bytes_be() },
            tick: WideInt { bytes: e.tick.to_signed_bytes_be() },
        },
    )
}

/// Calls `ModifyLiquidity::match_and_decode` of the pool-manager bindings on a log
/// with these topics and data, and keeps each number as its two's-complement
/// bytes. Trusted: the outcome depends on topics and data alone; a log that does
/// not match or does not decode gives nothing.
#[verifier::external_body]
pub(crate) fn decode_modify_liquidity(topics: &Vec<Vec<u8>>, data: &Vec<u8>) -> (r: Option<
    ModifyLiquidityLog,
>)
    ensures
        modify_liquidity_view(r) == modify_liquidity_log(topics.deep_view(), data@),
{
    let log = Log { topics: topics.clone(), data: data.clone(), ..Default::default() };
    bindings::ModifyLiquidity::match_and_decode(&log).map(
        |e| ModifyLiquidityLog {
            id: e.id.to_vec(),
            sender: e.sender,
            tick_lower: WideInt { bytes: e.tick_lower.to_signed_bytes_be() },
            tick_upper: WideInt { bytes: e.tick_upper.to_signed_bytes_be() },
            liquidity_delta: WideInt { bytes: e.liquidity_delta.to_signed_bytes_be() },
            salt: e.salt.to_vec(),
        },
    )
}

/// Calls `Donate::match_and_decode` of the pool-manager bindings on a log with
/// these topics and data, and keeps each number as its two's-complement bytes.
/// Trusted: the outcome depends on topics and data alone; a log that does not
/// match or does not decode gives nothing.
#[verifier::external_body]
pub(crate) fn decode_donate(topics: &Vec<Vec<u8>>, data: &Vec<u8>) -> (r: Option<DonateLog>)
    ensures
        donate_view(r) == donate_log(topics.deep_view(), data@),
{
    let log = Log { topics: topics.clone(), data: data.clone(), ..Default::default() };
    bindings::Donate::match_and_decode(&log).map(
        |e| DonateLog {
            id: e.id.to_vec(),
            sender: e.sender,
            amount0: WideInt { bytes: e.amount0.to_signed_bytes_be() },
            amount1: WideInt { bytes: e.amount1.to_signed_bytes_be() },
        },
    )
}

/// Calls `ProtocolFeeControllerUpdated::match_and_decode` of the pool-manager
/// bindings on a log with these topics and data, and keeps the new controller.
/// Trusted: the outcome depends on topics and data alone; a log that does not
/// match or does not decode gives nothing.
#[verifier::external_body]
pub(crate) fn decode_protocol_fee_controller_updated(
    topics: &Vec<Vec<u8>>,
    data: &Vec<u8>,
) -> (r: Option<Vec<u8>>)
    ensures
        bytes_view(r) == protocol_fee_controller_updated_log(topics.deep_view(), data@),
{
    let log = Log { topics: topics.clone(), data: data.clone(), ..Default::default() };
    bindings::ProtocolFeeControllerUpdated::match_and_decode(&log).map(
        |e| e.protocol_fee_controller,
    )
}

/// Calls `ProtocolFeeUpdated::match_and_decode` of the pool-manager bindings on a
/// log with these topics and data, and keeps the fee as its two's-complement
/// bytes. Trusted: the outcome depends on topics and data alone; a log that does
/// not match or does not decode gives nothing.
#[verifier::external_body]
pub(crate) fn decode_protocol_fee_updated(topics: &Vec<Vec<u8>>, data: &Vec<u8>) -> (r: Option<
    ProtocolFeeUpdatedLog,
>)
    ensures
        protocol_fee_updated_view(r) == protocol_fee_updated_log(topics.deep_view(), data@),
{
    let log = Log { topics: topics.clone(), data: data.clone(), ..Default::default() };
    bindings::ProtocolFeeUpdated::match_and_decode(&log).map(
        |e| ProtocolFeeUpdatedLog {
            id: e.id.to_vec(),
            protocol_fee: WideInt { bytes: e.protocol_fee.to_signed_bytes_be() },
        },
    )
}

} // verus!
