//! Token metadata set by a contract call: which calls set a name, a symbol, both,
//! or both with the decimals, and in which order they are tried.
use crate::abi::{
    decode_initialize_call,
    decode_text_call,
    decode_text_pair_call,
    initialize_call,
    text_call,
    text_pair_call,
    text_pair_view,
    text_pair_wide_view,
};
use crate::text::{bytes32_to_string, lossy_text, text_view, trimmed};
use crate::tokens::{
    decode_initialize_v2,
    decode_initialize_v2_2,
    decode_launch,
    decode_set_name_bytes,
    decode_stablecoin_initialize,
    initialize_v2_2_call,
    initialize_v2_call,
    launch_call,
    set_name_bytes_call,
    stablecoin_initialize_call,
};
use crate::wide::{bigint_to_uint8, WideInt};
use vstd::prelude::*;

verus! {

/// Selector of `setSymbol(string)`.
pub const SET_SYMBOL: u32 = 0xb84c_8246;

/// Selector of `changeSymbol(string)`.
pub const CHANGE_SYMBOL: u32 = 0xa389_5fff;

/// Selector of `updateSymbol(string)`.
pub const UPDATE_SYMBOL: u32 = 0x537f_5312;

/// Selector of `setTokenSymbol(string)`.
pub const SET_TOKEN_SYMBOL: u32 = 0xba51_b1b4;

/// Selector of `setName(string)`.
pub const SET_NAME: u32 = 0xc47f_0027;

/// Selector of `changeName(string)`.
pub const CHANGE_NAME: u32 = 0x5353_a2d8;

/// Selector of `updateName(string)`.
pub const UPDATE_NAME: u32 = 0x84da_92a7;

/// Selector of `setMetadata(string,string)`.
pub const SET_METADATA: u32 = 0x5133_5b50;

/// Selector of `setNameAndSymbol(string,string)`.
pub const SET_NAME_AND_SYMBOL: u32 = 0x5a44_6215;

/// Selector of `setNameAndTicker(string,string)`.
pub const SET_NAME_AND_TICKER: u32 = 0xc388_c167;

/// Selector of `setTokenInformation(string,string)`.
pub const SET_TOKEN_INFORMATION: u32 = 0x4eee_966f;

/// A contract call as the resolver sees it: the raw input, selector first.
#[derive(Debug, Clone, PartialEq, Eq)]
pub struct DecodedCall {
    pub input: Vec<u8>,
}

/// What a call changes of a token's metadata. A field that the call does not set
/// is `None`; a field set to the empty text is `Some` of the empty text.
#[derive(Debug, Clone, PartialEq, Eq)]
pub struct SetNameSymbol {
    pub name: Option<String>,
    pub symbol: Option<String>,
    pub decimals: Option<i32>,
}

/// The mathematical value of a `SetNameSymbol`.
pub struct MetadataUpdate {
    pub name: Option<Seq<char>>,
    pub symbol: Option<Seq<char>>,
    pub decimals: Option<i32>,
}

impl View for SetNameSymbol {
    type V = MetadataUpdate;

    open spec fn view(&self) -> MetadataUpdate {
        MetadataUpdate {
            name: text_view(self.name),
            symbol: text_view(self.symbol),
            decimals: self.decimals,
        }
    }
}

/// The view of an optional update.
pub open spec fn update_view(update: Option<SetNameSymbol>) -> Option<MetadataUpdate> {
    match update {
        Some(u) => Some(u@),
        None => None,
    }
}

/// `first` where it holds something, else `second`.
pub open spec fn first_some<T>(first: Option<T>, second: Option<T>) -> Option<T> {
    if first is Some {
        first
    } else {
        second
    }
}

/// The name and symbol that a call sets together: the first of the joint shapes,
/// in this order, that decodes the input.
pub open spec fn name_symbol_of(input: Seq<u8>) -> Option<(Seq<char>, Seq<char>)> {
    first_some(
        text_pair_call(input, SET_METADATA),
        first_some(
            text_pair_call(input, SET_NAME_AND_SYMBOL),
            first_some(
                text_pair_call(input, SET_NAME_AND_TICKER),
                first_some(text_pair_call(input, SET_TOKEN_INFORMATION), launch_call(input)),
            ),
        ),
    )
}

/// The text of a `setName(bytes32)` call: the name bytes without the zero bytes at
/// their end.
pub open spec fn fixed_width_name(input: Seq<u8>) -> Option<Seq<char>> {
    match set_name_bytes_call(input) {
        Some(bytes) => Some(lossy_text(trimmed(bytes))),
        None => None,
    }
}

/// The name that a call sets alone: the first of the name shapes, in this order,
/// that decodes the input.
pub open spec fn name_of(input: Seq<u8>) -> Option<Seq<char>> {
    first_some(
        text_call(input, SET_NAME),
        first_some(
            text_call(input, CHANGE_NAME),
            first_some(
                text_call(input, UPDATE_NAME),
                first_some(initialize_v2_call(input), fixed_width_name(input)),
            ),
        ),
    )
}

/// The symbol that a call sets alone: the first of the symbol shapes, in this
/// order, that decodes the input.
pub open spec fn symbol_of(input: Seq<u8>) -> Option<Seq<char>> {
    first_some(
        text_call(input, SET_SYMBOL),
        first_some(
            text_call(input, CHANGE_SYMBOL),
            first_some(
                text_call(input, UPDATE_SYMBOL),
                first_some(text_call(input, SET_TOKEN_SYMBOL), initialize_v2_2_call(input)),
            ),
        ),
    )
}

/// The update for what the three groups of shapes gave: the joint result where
/// there is one, else the name alone, else the symbol alone, else nothing.
pub open spec fn resolved(
    joint: Option<(Seq<char>, Seq<char>)>,
    name: Option<Seq<char>>,
    symbol: Option<Seq<char>>,
) -> Option<MetadataUpdate> {
    match joint {
        Some((n, s)) => Some(MetadataUpdate { name: Some(n), symbol: Some(s), decimals: None }),
        None => match name {
            Some(n) => Some(MetadataUpdate { name: Some(n), symbol: None, decimals: None }),
            None => match symbol {
                Some(s) => Some(MetadataUpdate { name: None, symbol: Some(s), decimals: None }),
                None => None,
            },
        },
    }
}

/// The update that a call with this input makes.
pub open spec fn metadata_of(input: Seq<u8>) -> Option<MetadataUpdate> {
    resolved(name_symbol_of(input), name_of(input), symbol_of(input))
}

/// A decoded name, symbol and decimals, kept only where the decimals fit an
/// unsigned 8-bit integer.
pub open spec fn with_precision(decoded: Option<(Seq<char>, Seq<char>, int)>) -> Option<
    (Seq<char>, Seq<char>, i32),
> {
    match decoded {
        Some((name, symbol, decimals)) => {
            if 0 <= decimals <= 255 {
                Some((name, symbol, decimals as i32))
            } else {
                None
            }
        },
        None => None,
    }
}

/// The name, symbol and decimals that a call sets at once: the stablecoin
/// initializer where it decodes with decimals in range, else the bridged-token one.
pub open spec fn name_symbol_precision_of(input: Seq<u8>) -> Option<(Seq<char>, Seq<char>, i32)> {
    first_some(
        with_precision(stablecoin_initialize_call(input)),
        with_precision(initialize_call(input)),
    )
}

/// The view of an optional name, symbol and decimals.
pub open spec fn precision_view(triple: Option<(String, String, i32)>) -> Option<
    (Seq<char>, Seq<char>, i32),
> {
    match triple {
        Some((name, symbol, decimals)) => Some((name@, symbol@, decimals)),
        None => None,
    }
}

/// The symbol that the call sets alone, if it is one of the symbol-setting calls.
pub fn get_symbol(call: &DecodedCall) -> (r: Option<String>)
    ensures
        text_view(r) == symbol_of(call.input@),
{
    if let Some(symbol) = decode_text_call(&call.input, SET_SYMBOL) {
        return Some(symbol);
    }
    if let Some(symbol) = decode_text_call(&call.input, CHANGE_SYMBOL) {
        return Some(symbol);
    }
    if let Some(symbol) = decode_text_call(&call.input, UPDATE_SYMBOL) {
        return Some(symbol);
    }
    if let Some(symbol) = decode_text_call(&call.input, SET_TOKEN_SYMBOL) {
        return Some(symbol);
    }
    decode_initialize_v2_2(&call.input)
}

/// The name that the call sets alone, if it is one of the name-setting calls.
pub fn get_name(call: &DecodedCall) -> (r: Option<String>)
    ensures
        text_view(r) == name_of(call.input@),
{
    if let Some(name) = decode_text_call(&call.input, SET_NAME) {
        return Some(name);
    }
    if let Some(name) = decode_text_call(&call.input, CHANGE_NAME) {
        return Some(name);
    }
    if let Some(name) = decode_text_call(&call.input, UPDATE_NAME) {
        return Some(name);
    }
    if let Some(name) = decode_initialize_v2(&call.input) {
        return Some(name);
    }
    match decode_set_name_bytes(&call.input) {
        Some(bytes) => Some(bytes32_to_string(&bytes)),
        None => None,
    }
}

/// The name and symbol that the call sets together, if it is one of the joint calls.
pub fn get_name_symbol(call: &DecodedCall) -> (r: Option<(String, String)>)
    ensures
        text_pair_view(r) == name_symbol_of(call.input@),
{
    if let Some(pair) = decode_text_pair_call(&call.input, SET_METADATA) {
        return Some(pair);
    }
    if let Some(pair) = decode_text_pair_call(&call.input, SET_NAME_AND_SYMBOL) {
        return Some(pair);
    }
    if let Some(pair) = decode_text_pair_call(&call.input, SET_NAME_AND_TICKER) {
        return Some(pair);
    }
    if let Some(pair) = decode_text_pair_call(&call.input, SET_TOKEN_INFORMATION) {
        return Some(pair);
    }
    decode_launch(&call.input)
}

/// Builds the update from what the three groups of shapes gave. The joint result
/// wins over a name, and a name over a symbol.
pub fn resolve_metadata(
    joint: Option<(String, String)>,
    name: Option<String>,
    symbol: Option<String>,
) -> (r: Option<SetNameSymbol>)
    ensures
        update_view(r) == resolved(text_pair_view(joint), text_view(name), text_view(symbol)),
{
    if let Some((n, s)) = joint {
        return Some(SetNameSymbol { name: Some(n), symbol: Some(s), decimals: None });
    }
    if let Some(n) = name {
        return Some(SetNameSymbol { name: Some(n), symbol: None, decimals: None });
    }
    if let Some(s) = symbol {
        return Some(SetNameSymbol { name: None, symbol: Some(s), decimals: None });
    }
    None
}

/// The metadata update that the call makes: name and symbol where it sets both,
/// else the name, else the symbol; nothing where it is none of the known calls.
/// The decimals are never set here.
pub fn get_metadata(call: &DecodedCall) -> (r: Option<SetNameSymbol>)
    ensures
        update_view(r) == metadata_of(call.input@),
        r is Some ==> r->0.decimals is None && (r->0.name is Some || r->0.symbol is Some),
{
    let joint = get_name_symbol(call);
    if joint.is_some() {
        return resolve_metadata(joint, None, None);
    }
    let name = get_name(call);
    if name.is_some() {
        return resolve_metadata(None, name, None);
    }
    resolve_metadata(None, None, get_symbol(call))
}

/// Keeps a decoded name, symbol and decimals only where the decimals fit an
/// unsigned 8-bit integer: 255 is kept, 256 and every negative number are not.
pub fn keep_precision(decoded: Option<(String, String, WideInt)>) -> (r: Option<
    (String, String, i32),
>)
    ensures
        precision_view(r) == with_precision(text_pair_wide_view(decoded)),
{
    match decoded {
        Some((name, symbol, decimals)) => match bigint_to_uint8(&decimals) {
            Some(d) => Some((name, symbol, d)),
            None => None,
        },
        None => None,
    }
}

/// The name, symbol and decimals that the call sets at once, if it is one of the
/// initializers and its decimals fit an unsigned 8-bit integer. Decimals out of
/// that range make the call count as not recognised: no part of it is returned.
pub fn get_name_symbol_precision(call: &DecodedCall) -> (r: Option<(String, String, i32)>)
    ensures
        precision_view(r) == name_symbol_precision_of(call.input@),
{
    if let Some(found) = keep_precision(decode_stablecoin_initialize(&call.input)) {
        return Some(found);
    }
    keep_precision(decode_initialize_call(&call.input))
}

/// The update of a call that sets name and symbol together.
pub open spec fn joint_update(pair: Option<(Seq<char>, Seq<char>)>) -> Option<MetadataUpdate> {
    resolved(pair, None, None)
}

/// The update of a call that sets the name alone.
pub open spec fn name_update(name: Option<Seq<char>>) -> Option<MetadataUpdate> {
    resolved(None, name, None)
}

/// The update of a call that sets the symbol alone.
pub open spec fn symbol_update(symbol: Option<Seq<char>>) -> Option<MetadataUpdate> {
    resolved(None, None, symbol)
}

/// What each known shape makes of the input, in the order in which the shapes are
/// tried: the joint shapes, then the name shapes, then the symbol shapes.
pub open spec fn shape_updates(input: Seq<u8>) -> Seq<Option<MetadataUpdate>> {
    seq![
        joint_update(text_pair_call(input, SET_METADATA)),
        joint_update(text_pair_call(input, SET_NAME_AND_SYMBOL)),
        joint_update(text_pair_call(input, SET_NAME_AND_TICKER)),
        joint_update(text_pair_call(input, SET_TOKEN_INFORMATION)),
        joint_update(launch_call(input)),
        name_update(text_call(input, SET_NAME)),
        name_update(text_call(input, CHANGE_NAME)),
        name_update(text_call(input, UPDATE_NAME)),
        name_update(initialize_v2_call(input)),
        name_update(fixed_width_name(input)),
        symbol_update(text_call(input, SET_SYMBOL)),
        symbol_update(text_call(input, CHANGE_SYMBOL)),
        symbol_update(text_call(input, UPDATE_SYMBOL)),
        symbol_update(text_call(input, SET_TOKEN_SYMBOL)),
        symbol_update(initialize_v2_2_call(input)),
    ]
}

/// The update of a call is what the first shape that decodes it makes of it.
pub proof fn law_first_matching_shape(input: Seq<u8>, k: int)
    requires
        0 <= k < shape_updates(input).len(),
        shape_updates(input)[k] is Some,
        forall|j: int| 0 <= j < k ==> shape_updates(input)[j] is None,
    ensures
        metadata_of(input) == shape_updates(input)[k],
{
    let shapes = shape_updates(input);
    assert(shapes.len() == 15);
    assert(shapes[0] is Some <==> text_pair_call(input, SET_METADATA) is Some);
    assert(shapes[1] is Some <==> text_pair_call(input, SET_NAME_AND_SYMBOL) is Some);
    assert(shapes[2] is Some <==> text_pair_call(input, SET_NAME_AND_TICKER) is Some);
    assert(shapes[3] is Some <==> text_pair_call(input, SET_TOKEN_INFORMATION) is Some);
    assert(shapes[4] is Some <==> launch_call(input) is Some);
    assert(shapes[5] is Some <==> text_call(input, SET_NAME) is Some);
    assert(shapes[6] is Some <==> text_call(input, CHANGE_NAME) is Some);
    assert(shapes[7] is Some <==> text_call(input, UPDATE_NAME) is Some);
    assert(shapes[8] is Some <==> initialize_v2_call(input) is Some);
    assert(shapes[9] is Some <==> fixed_width_name(input) is Some);
    assert(shapes[10] is Some <==> text_call(input, SET_SYMBOL) is Some);
    assert(shapes[11] is Some <==> text_call(input, CHANGE_SYMBOL) is Some);
    assert(shapes[12] is Some <==> text_call(input, UPDATE_SYMBOL) is Some);
    assert(shapes[13] is Some <==> text_call(input, SET_TOKEN_SYMBOL) is Some);
    assert(shapes[14] is Some <==> initialize_v2_2_call(input) is Some);
}

/// Where exactly one shape decodes a call, the update holds the fields of that
/// shape and no others: both texts for a joint shape, the name alone for a name
/// shape, the symbol alone for a symbol shape, and never the decimals.
pub proof fn law_single_matching_shape(input: Seq<u8>, k: int)
    requires
        0 <= k < shape_updates(input).len(),
        shape_updates(input)[k] is Some,
        forall|j: int| 0 <= j < shape_updates(input).len() && j != k ==> shape_updates(input)[j] is None,
    ensures
        metadata_of(input) == shape_updates(input)[k],
        metadata_of(input)->0.decimals is None,
        k < 5 ==> metadata_of(input)->0.name is Some && metadata_of(input)->0.symbol is Some,
        5 <= k < 10 ==> metadata_of(input)->0.name is Some && metadata_of(input)->0.symbol is None,
        10 <= k ==> metadata_of(input)->0.name is None && metadata_of(input)->0.symbol is Some,
{
    law_first_matching_shape(input, k);
    assert(shape_updates(input).len() == 15);
}

/// A joint result wins: whatever the name and symbol shapes give, the update holds
/// the joint name and symbol.
pub proof fn law_joint_wins(
    joint: (Seq<char>, Seq<char>),
    name: Option<Seq<char>>,
    symbol: Option<Seq<char>>,
)
    ensures
        resolved(Some(joint), name, symbol) == Some(
            MetadataUpdate { name: Some(joint.0), symbol: Some(joint.1), decimals: None },
        ),
{
}

/// An update always holds a name or a symbol, and never the decimals.
pub proof fn law_update_holds_a_field(input: Seq<u8>)
    requires
        metadata_of(input) is Some,
    ensures
        metadata_of(input)->0.decimals is None,
        metadata_of(input)->0.name is Some || metadata_of(input)->0.symbol is Some,
{
}

/// Decimals of 255 are kept and decimals of 256 or more are not, whatever name
/// and symbol are; what is kept are decimals from 0 to 255.
pub proof fn law_precision_bound(name: Seq<char>, symbol: Seq<char>, decimals: int)
    ensures
        with_precision(Some((name, symbol, decimals))) is Some <==> 0 <= decimals <= 255,
        decimals == 255 ==> with_precision(Some((name, symbol, decimals))) == Some(
            (name, symbol, 255i32),
        ),
        decimals >= 256 ==> with_precision(Some((name, symbol, decimals))) is None,
{
}

/// The initializers give a result exactly where one of them decodes the call with
/// decimals from 0 to 255, and then all three fields are those of that initializer.
pub proof fn law_precision_all_or_nothing(input: Seq<u8>)
    ensures
        name_symbol_precision_of(input) is Some <==> with_precision(
            stablecoin_initialize_call(input),
        ) is Some || with_precision(initialize_call(input)) is Some,
        name_symbol_precision_of(input) is Some ==> 0 <= (name_symbol_precision_of(input)->0).2
            <= 255,
        stablecoin_initialize_call(input) is Some && (stablecoin_initialize_call(input)->0).2 >= 256
            && initialize_call(input) is None ==> name_symbol_precision_of(input) is None,
        initialize_call(input) is Some && (initialize_call(input)->0).2 >= 256
            && stablecoin_initialize_call(input) is None ==> name_symbol_precision_of(input)
            is None,
{
}

} // verus!
