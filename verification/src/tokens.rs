//! Calls of single token contracts, decoded by the bindings of `substreams_abis`.
use crate::abi::{text_pair_view, text_pair_wide_view};
use crate::text::{bytes_view, text_view};
use crate::wide::WideInt;
use substreams_abis::tokens::erc20::blendr::functions::Launch;
use substreams_abis::tokens::erc20::sai::functions::SetName;
use substreams_abis::tokens::erc20::usdc::fiattoken_v2_2::functions::{
    Initialize,
    InitializeV2,
    InitializeV22,
};
use substreams_ethereum::pb::eth::v2::Call;
use substreams_ethereum::Function;
use vstd::prelude::*;

verus! {

/// The name that a stablecoin `initializeV2` call with this input sets, where the
/// input is such a call.
pub uninterp spec fn initialize_v2_call(input: Seq<u8>) -> Option<Seq<char>>;

/// The symbol that a stablecoin `initializeV2_2` call with this input sets, where
/// the input is such a call.
pub uninterp spec fn initialize_v2_2_call(input: Seq<u8>) -> Option<Seq<char>>;

/// The name, symbol and decimals that a stablecoin `initialize` call with this
/// input sets, where the input is such a call.
pub uninterp spec fn stablecoin_initialize_call(input: Seq<u8>) -> Option<
    (Seq<char>, Seq<char>, int),
>;

/// The 32 name bytes that a `setName(bytes32)` call with this input carries, where
/// the input is such a call.
pub uninterp spec fn set_name_bytes_call(input: Seq<u8>) -> Option<Seq<u8>>;

/// The name and symbol that a `launch` call with this input sets, where the input
/// is such a call.
pub uninterp spec fn launch_call(input: Seq<u8>) -> Option<(Seq<char>, Seq<char>)>;

/// Calls `InitializeV2::match_and_decode` of the stablecoin bindings on a call with
/// this input and keeps the new name. Trusted: the outcome depends on the input
/// alone; a call that does not match or does not decode gives nothing.
#[verifier::external_body]
pub(crate) fn decode_initialize_v2(input: &Vec<u8>) -> (r: Option<String>)
    ensures
        text_view(r) == initialize_v2_call(input@),
{
    let call = Call { input: input.clone(), ..Default::default() };
    InitializeV2::match_and_decode(&call).map(|f| f.new_name)
}

/// Calls `InitializeV22::match_and_decode` of the stablecoin bindings on a call
/// with this input and keeps the new symbol. Trusted: the outcome depends on the
/// input alone; a call that does not match or does not decode gives nothing.
#[verifier::external_body]
pub(crate) fn decode_initialize_v2_2(input: &Vec<u8>) -> (r: Option<String>)
    ensures
        text_view(r) == initialize_v2_2_call(input@),
{
    let call = Call { input: input.clone(), ..Default::default() };
    InitializeV22::match_and_decode(&call).map(|f| f.new_symbol)
}

/// Calls `Initialize::match_and_decode` of the stablecoin bindings on a call with
/// this input and keeps name, symbol and decimals, the last as its two's-complement
/// bytes. Trusted: the outcome depends on the input alone; a call that does not
/// match or does not decode gives nothing.
#[verifier::external_body]
pub(crate) fn decode_stablecoin_initialize(input: &Vec<u8>) -> (r: Option<
    (String, String, WideInt),
>)
    ensures
        text_pair_wide_view(r) == stablecoin_initialize_call(input@),
{
    let call = Call { input: input.clone(), ..Default::default() };
    Initialize::match_and_decode(&call).map(
        |f| (f.token_name, f.token_symbol, WideInt { bytes: f.token_decimals.to_signed_bytes_be() }),
    )
}

/// Calls `SetName::match_and_decode` of the `setName(bytes32)` bindings on a call
/// with this input and keeps the name bytes. Trusted: the outcome depends on the
/// input alone; a call that does not match or does not decode gives nothing.
#[verifier::external_body]
pub(crate) fn decode_set_name_bytes(input: &Vec<u8>) -> (r: Option<Vec<u8>>)
    ensures
        bytes_view(r) == set_name_bytes_call(input@),
{
    let call = Call { input: input.clone(), ..Default::default() };
    SetName::match_and_decode(&call).map(|f| f.name.to_vec())
}

/// Calls `Launch::match_and_decode` of the launch bindings on a call with this
/// input and keeps name and symbol. Trusted: the outcome depends on the input
/// alone; a call that does not match or does not decode gives nothing.
#[verifier::external_body]
pub(crate) fn decode_launch(input: &Vec<u8>) -> (r: Option<(String, String)>)
    ensures
        text_pair_view(r) == launch_call(input@),
{
    let call = Call { input: input.clone(), ..Default::default() };
    Launch::match_and_decode(&call).map(|f| (f.name, f.symbol))
}

} // verus!
