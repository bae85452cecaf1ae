use evm_decode::events::{
    Block, DecodedLog, Donate, EventContext, Events, Initialize, InitializeLog, LogWithCaller,
    ModifyLiquidity, NormalizedEvent, ProtocolFeeControllerUpdated, ProtocolFeeUpdated, Swap,
    SwapLog, Transaction, TransactionContext,
};
use evm_decode::mapper::{
    context_of, copy_bytes, map_events, map_log, merge_by_ordinal, normalize_initialize,
    normalize_swap, sort_by_ordinal,
};
use evm_decode::metadata::{get_metadata, DecodedCall, SetNameSymbol};
use evm_decode::wide::WideInt;

const SWAP: &str = "40e9cecb9f5f1f1c5b9c97dec2917b7ee92e57ba5563708daca94dd84ad7112f";
const INITIALIZE: &str = "dd466e674ea557f56295e2d0218a125ea4b4f0f6f3307b95f85e6110838d6438";
const MODIFY_LIQUIDITY: &str = "f208f4912782fd25c7f114ca3723a2d5dd6f3bcc3ac8db5af63baa85f711d5ec";
const DONATE: &str = "29ef05caaff9404b7cb6d1c0e9bbae9eaa7ab2541feba1a9c4248594c08156cb";
const FEE_CONTROLLER: &str = "b4bd8ef53df690b9943d3318996006dbb82a25f54719d8c8035b516a2a5b8acc";
const FEE_UPDATED: &str = "e9c42593e71f84403b84352cd168d693e2c9fcd1fdbcc3feb21d92b43e6696f9";

fn unhex(text: &str) -> Vec<u8> {
    (0..text.len() / 2).map(|i| u8::from_str_radix(&text[2 * i..2 * i + 2], 16).unwrap()).collect()
}

fn unsigned(value: u128) -> Vec<u8> {
    let mut word = vec![0u8; 16];
    word.extend_from_slice(&value.to_be_bytes());
    word
}

fn signed(value: i128) -> Vec<u8> {
    let fill = if value < 0 { 0xff } else { 0x00 };
    let mut word = vec![fill; 16];
    word.extend_from_slice(&value.to_be_bytes());
    word
}

fn address_word(address: &[u8]) -> Vec<u8> {
    let mut word = vec![0u8; 12];
    word.extend_from_slice(address);
    word
}

fn words(parts: &[Vec<u8>]) -> Vec<u8> {
    parts.concat()
}

fn pool() -> Vec<u8> {
    vec![0x5a; 32]
}

fn sender() -> Vec<u8> {
    vec![0xab; 20]
}

fn manager() -> Vec<u8> {
    vec![0x04; 20]
}

fn caller() -> Vec<u8> {
    vec![0xca; 20]
}

fn tx() -> TransactionContext {
    TransactionContext { hash: vec![0x99; 32], from: vec![0x0f; 20], to: vec![0x70; 20] }
}

fn context(ordinal: u64) -> EventContext {
    EventContext {
        tx_hash: vec![0x99; 32],
        tx_from: vec![0x0f; 20],
        tx_to: vec![0x70; 20],
        caller: caller(),
        contract: manager(),
        ordinal,
    }
}

fn log(topics: Vec<Vec<u8>>, data: Vec<u8>, ordinal: u64) -> DecodedLog {
    DecodedLog { address: manager(), topics, data, ordinal }
}

fn swap_log_with(tick: Vec<u8>, ordinal: u64) -> DecodedLog {
    let data = words(&[
        signed(-1000),
        signed(2500),
        unsigned(79228162514264337593543950336),
        unsigned(1_000_000_000_000_000_000),
        tick,
        unsigned(3000),
    ]);
    log(vec![unhex(SWAP), pool(), address_word(&sender())], data, ordinal)
}

fn swap_log(ordinal: u64) -> DecodedLog {
    swap_log_with(signed(-887272), ordinal)
}

fn swap_event(tick: i32, ordinal: u64) -> Swap {
    Swap {
        context: context(ordinal),
        id: pool(),
        sender: sender(),
        amount0: "-1000".to_string(),
        amount1: "2500".to_string(),
        fee: "3000".to_string(),
        liquidity: "1000000000000000000".to_string(),
        sqrt_price_x96: "79228162514264337593543950336".to_string(),
        tick,
    }
}

fn initialize_log_with(fee: Vec<u8>, spacing: Vec<u8>, ordinal: u64) -> DecodedLog {
    let data = words(&[
        fee,
        spacing,
        address_word(&[0x77; 20]),
        unsigned(4295128739),
        signed(-5),
    ]);
    let topics = vec![
        unhex(INITIALIZE),
        pool(),
        address_word(&[0xc0; 20]),
        address_word(&[0xc1; 20]),
    ];
    log(topics, data, ordinal)
}

fn initialize_event(fee: u64, tick_spacing: i32, ordinal: u64) -> Initialize {
    Initialize {
        context: context(ordinal),
        id: pool(),
        currency0: vec![0xc0; 20],
        currency1: vec![0xc1; 20],
        fee,
        tick_spacing,
        hooks: None,
        sqrt_price_x96: "4295128739".to_string(),
        tick: -5,
    }
}

fn modify_liquidity_log(ordinal: u64) -> DecodedLog {
    let data = words(&[signed(-60), signed(120), signed(-123456789012345678901234567890), vec![0x5e; 32]]);
    log(vec![unhex(MODIFY_LIQUIDITY), pool(), address_word(&sender())], data, ordinal)
}

fn donate_log(ordinal: u64) -> DecodedLog {
    let data = words(&[unsigned(17), unsigned(0)]);
    log(vec![unhex(DONATE), pool(), address_word(&sender())], data, ordinal)
}

fn fee_controller_log(ordinal: u64) -> DecodedLog {
    log(vec![unhex(FEE_CONTROLLER), address_word(&[0xfc; 20])], vec![], ordinal)
}

fn fee_updated_log(fee: Vec<u8>, ordinal: u64) -> DecodedLog {
    log(vec![unhex(FEE_UPDATED), pool()], fee, ordinal)
}

fn unknown_log(ordinal: u64) -> DecodedLog {
    log(vec![vec![0xdd; 32], pool(), address_word(&sender())], vec![0u8; 64], ordinal)
}

fn map(log: &DecodedLog) -> Option<NormalizedEvent> {
    map_log(log, &tx(), &caller())
}

fn block_of(logs: Vec<DecodedLog>) -> Block {
    let logs = logs.into_iter().map(|log| LogWithCaller { log, caller: caller() }).collect();
    Block { transactions: vec![Transaction { context: tx(), logs }] }
}

#[test]
fn swap_log_becomes_a_swap() {
    assert_eq!(map(&swap_log(3)), Some(NormalizedEvent::Swap(swap_event(-887272, 3))));
}

#[test]
fn initialize_log_becomes_an_initialize_without_hooks() {
    let event = map(&initialize_log_with(unsigned(500), signed(10), 8));
    assert_eq!(event, Some(NormalizedEvent::Initialize(initialize_event(500, 10, 8))));
}

#[test]
fn modify_liquidity_log_becomes_a_modify_liquidity() {
    let expected = ModifyLiquidity {
        context: context(1),
        id: pool(),
        sender: sender(),
        tick_lower: -60,
        tick_upper: 120,
        liquidity_delta: "-123456789012345678901234567890".to_string(),
        salt: vec![0x5e; 32],
    };
    assert_eq!(map(&modify_liquidity_log(1)), Some(NormalizedEvent::ModifyLiquidity(expected)));
}

#[test]
fn donate_log_becomes_a_donate() {
    let expected = Donate {
        context: context(2),
        id: pool(),
        sender: sender(),
        amount0: "17".to_string(),
        amount1: "0".to_string(),
    };
    assert_eq!(map(&donate_log(2)), Some(NormalizedEvent::Donate(expected)));
}

#[test]
fn fee_controller_log_becomes_a_controller_update() {
    let expected = ProtocolFeeControllerUpdated {
        context: context(4),
        protocol_fee_controller: vec![0xfc; 20],
    };
    assert_eq!(
        map(&fee_controller_log(4)),
        Some(NormalizedEvent::ProtocolFeeControllerUpdated(expected))
    );
}

#[test]
fn fee_updated_log_becomes_a_fee_update() {
    let expected = ProtocolFeeUpdated { context: context(5), id: pool(), protocol_fee: 4000 };
    assert_eq!(
        map(&fee_updated_log(unsigned(4000), 5)),
        Some(NormalizedEvent::ProtocolFeeUpdated(expected))
    );
}

#[test]
fn unrecognised_logs_give_nothing() {
    assert_eq!(map(&unknown_log(0)), None);
    assert_eq!(map(&log(vec![], vec![], 0)), None);
    assert_eq!(map(&log(vec![unhex(SWAP)], vec![], 0)), None);
    let mut short = swap_log(0);
    short.data.truncate(160);
    assert_eq!(map(&short), None);
    let mut long = swap_log(0);
    long.data.extend_from_slice(&[0u8; 32]);
    assert_eq!(map(&long), None);
    let mut narrow = swap_log(0);
    narrow.topics[1].truncate(31);
    assert_eq!(map(&narrow), None);
}

#[test]
fn tick_at_the_largest_value_is_kept() {
    let event = map(&swap_log_with(signed(i32::MAX as i128), 0));
    assert_eq!(event, Some(NormalizedEvent::Swap(swap_event(i32::MAX, 0))));
    let lowest = map(&swap_log_with(signed(i32::MIN as i128), 0));
    assert_eq!(lowest, Some(NormalizedEvent::Swap(swap_event(i32::MIN, 0))));
}

#[test]
fn tick_out_of_range_becomes_the_largest_value() {
    let above = map(&swap_log_with(signed(i32::MAX as i128 + 1), 0));
    assert_eq!(above, Some(NormalizedEvent::Swap(swap_event(i32::MAX, 0))));
    let below = map(&swap_log_with(signed(i32::MIN as i128 - 1), 0));
    assert_eq!(below, Some(NormalizedEvent::Swap(swap_event(i32::MAX, 0))));
    let wide = map(&swap_log_with(vec![0x7f; 32], 0));
    assert_eq!(wide, Some(NormalizedEvent::Swap(swap_event(i32::MAX, 0))));
}

#[test]
fn fee_out_of_range_becomes_the_largest_value() {
    let top = map(&initialize_log_with(unsigned(u64::MAX as u128), signed(1), 0));
    assert_eq!(top, Some(NormalizedEvent::Initialize(initialize_event(u64::MAX, 1, 0))));
    let above = map(&initialize_log_with(unsigned(u64::MAX as u128 + 1), signed(i32::MAX as i128 + 1), 0));
    assert_eq!(above, Some(NormalizedEvent::Initialize(initialize_event(u64::MAX, i32::MAX, 0))));
    let fee = map(&fee_updated_log(vec![0xff; 32], 6));
    let expected = ProtocolFeeUpdated { context: context(6), id: pool(), protocol_fee: u64::MAX };
    assert_eq!(fee, Some(NormalizedEvent::ProtocolFeeUpdated(expected)));
}

#[test]
fn normalize_swap_formats_and_clamps() {
    let value = |bytes: &[u8]| WideInt::from_signed_bytes_be(bytes.to_vec());
    let fields = SwapLog {
        id: pool(),
        sender: sender(),
        amount0: value(&[0xfc, 0x18]),
        amount1: value(&[0x09, 0xc4]),
        sqrt_price_x96: value(&[0x01, 0, 0, 0, 0, 0, 0, 0, 0, 0, 0, 0, 0]),
        liquidity: value(&[0x0d, 0xe0, 0xb6, 0xb3, 0xa7, 0x64, 0x00, 0x00]),
        tick: value(&[0x00, 0x80, 0x00, 0x00, 0x00]),
        fee: value(&[0x0b, 0xb8]),
    };
    assert_eq!(normalize_swap(context(3), fields), swap_event(i32::MAX, 3));
}

#[test]
fn normalize_initialize_drops_the_hooks() {
    let value = |bytes: &[u8]| WideInt::from_signed_bytes_be(bytes.to_vec());
    let fields = InitializeLog {
        id: pool(),
        currency0: vec![0xc0; 20],
        currency1: vec![0xc1; 20],
        fee: value(&[0xff]),
        tick_spacing: value(&[0x0a]),
        hooks: vec![0x77; 20],
        sqrt_price_x96: value(&[0x01, 0x00, 0x02, 0x76, 0xa3]),
        tick: value(&[0xfb]),
    };
    assert_eq!(normalize_initialize(context(8), fields), initialize_event(u64::MAX, 10, 8));
}

#[test]
fn context_is_taken_from_transaction_caller_and_log() {
    assert_eq!(context_of(&swap_log(42), &tx(), &caller()), context(42));
    assert_eq!(copy_bytes(&vec![1, 2, 3]), vec![1, 2, 3]);
    assert_eq!(copy_bytes(&vec![]), Vec::<u8>::new());
}

#[test]
fn events_carry_their_ordinal() {
    assert_eq!(map(&swap_log(3)).map(|e| e.ordinal()), Some(3));
    assert_eq!(map(&donate_log(u64::MAX)).map(|e| e.ordinal()), Some(u64::MAX));
    assert_eq!(map(&fee_controller_log(0)).map(|e| e.ordinal()), Some(0));
}

#[test]
fn block_events_are_grouped_by_kind_in_discovery_order() {
    let first = Transaction {
        context: tx(),
        logs: vec![
            LogWithCaller { log: swap_log(0), caller: caller() },
            LogWithCaller { log: unknown_log(1), caller: caller() },
            LogWithCaller { log: donate_log(2), caller: caller() },
        ],
    };
    let other = TransactionContext { hash: vec![0x98; 32], from: vec![0x0e; 20], to: vec![] };
    let second = Transaction {
        context: other,
        logs: vec![
            LogWithCaller { log: swap_log(3), caller: vec![0xcb; 20] },
            LogWithCaller { log: fee_controller_log(4), caller: vec![0xcb; 20] },
        ],
    };
    let events = map_events(&Block { transactions: vec![first, second, Transaction { context: tx(), logs: vec![] }] });
    assert_eq!(events.swap.len(), 2);
    assert_eq!(events.swap[0], swap_event(-887272, 0));
    assert_eq!(events.swap[1].context.ordinal, 3);
    assert_eq!(events.swap[1].context.tx_hash, vec![0x98; 32]);
    assert_eq!(events.swap[1].context.tx_to, Vec::<u8>::new());
    assert_eq!(events.swap[1].context.caller, vec![0xcb; 20]);
    assert_eq!(events.donate.len(), 1);
    assert_eq!(events.protocol_fee_controller_updated.len(), 1);
    assert_eq!(events.protocol_fee_controller_updated[0].context.tx_from, vec![0x0e; 20]);
    assert!(events.initialize.is_empty());
    assert!(events.modify_liquidity.is_empty());
    assert!(events.protocol_fee_updated.is_empty());
}

#[test]
fn empty_block_gives_an_empty_batch() {
    assert_eq!(map_events(&Block { transactions: vec![] }), Events::new());
    assert_eq!(map_events(&block_of(vec![unknown_log(0), unknown_log(1)])), Events::new());
}

#[test]
fn sorting_is_by_ordinal_and_stable() {
    let swap = |tick: i32, ordinal: u64| NormalizedEvent::Swap(swap_event(tick, ordinal));
    let sorted = sort_by_ordinal(vec![swap(1, 5), swap(2, 3), swap(3, 5), swap(4, 0), swap(5, 3)]);
    assert_eq!(sorted, vec![swap(4, 0), swap(2, 3), swap(5, 3), swap(1, 5), swap(3, 5)]);
    assert_eq!(sort_by_ordinal(vec![]), vec![]);
    assert_eq!(sort_by_ordinal(vec![swap(1, 9)]), vec![swap(1, 9)]);
}

#[test]
fn reverse_processing_merged_by_ordinal_gives_the_same_batch() {
    let logs = vec![
        swap_log(0),
        initialize_log_with(unsigned(500), signed(10), 1),
        unknown_log(2),
        swap_log_with(signed(7), 3),
        donate_log(4),
        modify_liquidity_log(5),
        fee_updated_log(unsigned(1), 6),
        swap_log_with(signed(-7), 7),
        fee_controller_log(8),
        donate_log(9),
    ];
    let forward = map_events(&block_of(logs.clone()));
    let backward: Vec<NormalizedEvent> = logs.iter().rev().filter_map(map).collect();
    assert_eq!(merge_by_ordinal(backward), forward);
    assert_eq!(forward.swap.len(), 3);
    assert_eq!(forward.swap[1], swap_event(7, 3));
    assert_eq!(forward.donate.len(), 2);
    assert_eq!(forward.donate[1].context.ordinal, 9);
}

#[test]
fn pushing_goes_to_the_sequence_of_the_kind() {
    let mut events = Events::new();
    events.push(NormalizedEvent::Swap(swap_event(1, 0)));
    events.push(NormalizedEvent::Initialize(initialize_event(1, 1, 1)));
    events.push(NormalizedEvent::Swap(swap_event(2, 2)));
    assert_eq!(events.swap, vec![swap_event(1, 0), swap_event(2, 2)]);
    assert_eq!(events.initialize, vec![initialize_event(1, 1, 1)]);
    assert!(events.donate.is_empty());
}

#[test]
fn one_metadata_call_and_one_swap_log() {
    let mut input = vec![0x51, 0x33, 0x5b, 0x50];
    input.extend(words(&[unsigned(64), unsigned(128), unsigned(5)]));
    input.extend_from_slice(b"Token");
    input.extend_from_slice(&[0u8; 27]);
    input.extend(unsigned(3));
    input.extend_from_slice(b"TKN");
    input.extend_from_slice(&[0u8; 29]);
    let update = get_metadata(&DecodedCall { input });
    assert_eq!(
        update,
        Some(SetNameSymbol {
            name: Some("Token".to_string()),
            symbol: Some("TKN".to_string()),
            decimals: None
        })
    );
    let events = map_events(&block_of(vec![swap_log(3)]));
    assert_eq!(events.swap, vec![swap_event(-887272, 3)]);
    assert_eq!(events.swap[0].context.ordinal, 3);
    assert_eq!(events.swap[0].context.caller, caller());
    assert_eq!(events.swap[0].context.contract, manager());
    assert!(events.initialize.is_empty() && events.modify_liquidity.is_empty());
    assert!(events.donate.is_empty() && events.protocol_fee_updated.is_empty());
    assert!(events.protocol_fee_controller_updated.is_empty());
}
