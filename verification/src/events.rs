//! The records of the pool-manager pipeline: logs as they come in, the fields that
//! the bindings decode from them, and the normalised events that go out.
use crate::text::bytes_view;
use crate::wide::WideInt;
use vstd::prelude::*;

verus! {

/// A log as the mapper sees it.
#[derive(Debug, Clone, PartialEq, Eq)]
pub struct DecodedLog {
    /// The contract that emitted the log.
    pub address: Vec<u8>,
    /// The topics; the first one names the event.
    pub topics: Vec<Vec<u8>>,
    pub data: Vec<u8>,
    /// The position of the log in its block.
    pub ordinal: u64,
}

/// A log together with the address that started the call chain leading to it.
#[derive(Debug, Clone, PartialEq, Eq)]
pub struct LogWithCaller {
    pub log: DecodedLog,
    pub caller: Vec<u8>,
}

/// What an event takes from its transaction.
#[derive(Debug, Clone, PartialEq, Eq)]
pub struct TransactionContext {
    pub hash: Vec<u8>,
    pub from: Vec<u8>,
    pub to: Vec<u8>,
}

/// A transaction with its logs in the order of discovery.
#[derive(Debug, Clone, PartialEq, Eq)]
pub struct Transaction {
    pub context: TransactionContext,
    pub logs: Vec<LogWithCaller>,
}

/// A block: its transactions in order.
#[derive(Debug, Clone, PartialEq, Eq)]
pub struct Block {
    pub transactions: Vec<Transaction>,
}

/// Where an event comes from: its transaction, the caller, the emitting contract
/// and the log's position in the block.
#[derive(Debug, Clone, PartialEq, Eq)]
pub struct EventContext {
    pub tx_hash: Vec<u8>,
    pub tx_from: Vec<u8>,
    pub tx_to: Vec<u8>,
    pub caller: Vec<u8>,
    pub contract: Vec<u8>,
    pub ordinal: u64,
}

/// The mathematical value of an `EventContext`.
pub struct Origin {
    pub tx_hash: Seq<u8>,
    pub tx_from: Seq<u8>,
    pub tx_to: Seq<u8>,
    pub caller: Seq<u8>,
    pub contract: Seq<u8>,
    pub ordinal: u64,
}

impl View for EventContext {
    type V = Origin;

    open spec fn view(&self) -> Origin {
        Origin {
            tx_hash: self.tx_hash@,
            tx_from: self.tx_from@,
            tx_to: self.tx_to@,
            caller: self.caller@,
            contract: self.contract@,
            ordinal: self.ordinal,
        }
    }
}

/// The fields of a decoded `Swap` log.
#[derive(Debug, Clone, PartialEq, Eq)]
pub struct SwapLog {
    pub id: Vec<u8>,
    pub sender: Vec<u8>,
    pub amount0: WideInt,
    pub amount1: WideInt,
    pub sqrt_price_x96: WideInt,
    pub liquidity: WideInt,
    pub tick: WideInt,
    pub fee: WideInt,
}

/// The mathematical value of a `SwapLog`.
pub struct SwapFields {
    pub id: Seq<u8>,
    pub sender: Seq<u8>,
    pub amount0: int,
    pub amount1: int,
    pub sqrt_price_x96: int,
    pub liquidity: int,
    pub tick: int,
    pub fee: int,
}

impl View for SwapLog {
    type V = SwapFields;

    open spec fn view(&self) -> SwapFields {
        SwapFields {
            id: self.id@,
            sender: self.sender@,
            amount0: self.amount0@,
            amount1: self.amount1@,
            sqrt_price_x96: self.sqrt_price_x96@,
            liquidity: self.liquidity@,
            tick: self.tick@,
            fee: self.fee@,
        }
    }
}

/// The fields of a decoded `Initialize` log.
#[derive(Debug, Clone, PartialEq, Eq)]
pub struct InitializeLog {
    pub id: Vec<u8>,
    pub currency0: Vec<u8>,
    pub currency1: Vec<u8>,
    pub fee: WideInt,
    pub tick_spacing: WideInt,
    pub hooks: Vec<u8>,
    pub sqrt_price_x96: WideInt,
    pub tick: WideInt,
}

/// The mathematical value of an `InitializeLog`.
pub struct InitializeFields {
    pub id: Seq<u8>,
    pub currency0: Seq<u8>,
    pub currency1: Seq<u8>,
    pub fee: int,
    pub tick_spacing: int,
    pub hooks: Seq<u8>,
    pub sqrt_price_x96: int,
    pub tick: int,
}

impl View for InitializeLog {
    type V = InitializeFields;

    open spec fn view(&self) -> InitializeFields {
        InitializeFields {
            id: self.id@,
            currency0: self.currency0@,
            currency1: self.currency1@,
            fee: self.fee@,
            tick_spacing: self.tick_spacing@,
            hooks: self.hooks@,
            sqrt_price_x96: self.sqrt_price_x96@,
            tick: self.tick@,
        }
    }
}

/// The fields of a decoded `ModifyLiquidity` log.
#[derive(Debug, Clone, PartialEq, Eq)]
pub struct ModifyLiquidityLog {
    pub id: Vec<u8>,
    pub sender: Vec<u8>,
    pub tick_lower: WideInt,
    pub tick_upper: WideInt,
    pub liquidity_delta: WideInt,
    pub salt: Vec<u8>,
}

/// The mathematical value of a `ModifyLiquidityLog`.
pub struct ModifyLiquidityFields {
    pub id: Seq<u8>,
    pub sender: Seq<u8>,
    pub tick_lower: int,
    pub tick_upper: int,
    pub liquidity_delta: int,
    pub salt: Seq<u8>,
}

impl View for ModifyLiquidityLog {
    type V = ModifyLiquidityFields;

    open spec fn view(&self) -> ModifyLiquidityFields {
        ModifyLiquidityFields {
            id: self.id@,
            sender: self.sender@,
            tick_lower: self.tick_lower@,
            tick_upper: self.tick_upper@,
            liquidity_delta: self.liquidity_delta@,
            salt: self.salt@,
        }
    }
}

/// The fields of a decoded `Donate` log.
#[derive(Debug, Clone, PartialEq, Eq)]
pub struct DonateLog {
    pub id: Vec<u8>,
    pub sender: Vec<u8>,
    pub amount0: WideInt,
    pub amount1: WideInt,
}

/// The mathematical value of a `DonateLog`.
pub struct DonateFields {
    pub id: Seq<u8>,
    pub sender: Seq<u8>,
    pub amount0: int,
    pub amount1: int,
}

impl View for DonateLog {
    type V = DonateFields;

    open spec fn view(&self) -> DonateFields {
        DonateFields {
            id: self.id@,
            sender: self.sender@,
            amount0: self.amount0@,
            amount1: self.amount1@,
        }
    }
}

/// The fields of a decoded `ProtocolFeeUpdated` log.
#[derive(Debug, Clone, PartialEq, Eq)]
pub struct ProtocolFeeUpdatedLog {
    pub id: Vec<u8>,
    pub protocol_fee: WideInt,
}

/// The mathematical value of a `ProtocolFeeUpdatedLog`.
pub struct ProtocolFeeUpdatedFields {
    pub id: Seq<u8>,
    pub protocol_fee: int,
}

impl View for ProtocolFeeUpdatedLog {
    type V = ProtocolFeeUpdatedFields;

    open spec fn view(&self) -> ProtocolFeeUpdatedFields {
        ProtocolFeeUpdatedFields { id: self.id@, protocol_fee: self.protocol_fee@ }
    }
}

/// A swap in a pool. Amounts, fee, liquidity and price are decimal text.
#[derive(Debug, Clone, PartialEq, Eq)]
pub struct Swap {
    pub context: EventContext,
    pub id: Vec<u8>,
    pub sender: Vec<u8>,
    pub amount0: String,
    pub amount1: String,
    pub fee: String,
    pub liquidity: String,
    pub sqrt_price_x96: String,
    pub tick: i32,
}

/// The mathematical value of a `Swap`.
pub struct SwapRecord {
    pub context: Origin,
    pub id: Seq<u8>,
    pub sender: Seq<u8>,
    pub amount0: Seq<char>,
    pub amount1: Seq<char>,
    pub fee: Seq<char>,
    pub liquidity: Seq<char>,
    pub sqrt_price_x96: Seq<char>,
    pub tick: i32,
}

impl View for Swap {
    type V = SwapRecord;

    open spec fn view(&self) -> SwapRecord {
        SwapRecord {
            context: self.context@,
            id: self.id@,
            sender: self.sender@,
            amount0: self.amount0@,
            amount1: self.amount1@,
            fee: self.fee@,
            liquidity: self.liquidity@,
            sqrt_price_x96: self.sqrt_price_x96@,
            tick: self.tick,
        }
    }
}

/// The creation of a pool. The hook address is not carried over: `hooks` is
/// always `None`.
#[derive(Debug, Clone, PartialEq, Eq)]
pub struct Initialize {
    pub context: EventContext,
    pub id: Vec<u8>,
    pub currency0: Vec<u8>,
    pub currency1: Vec<u8>,
    pub fee: u64,
    pub tick_spacing: i32,
    pub hooks: Option<Vec<u8>>,
    pub sqrt_price_x96: String,
    pub tick: i32,
}

/// The mathematical value of an `Initialize`.
pub struct InitializeRecord {
    pub context: Origin,
    pub id: Seq<u8>,
    pub currency0: Seq<u8>,
    pub currency1: Seq<u8>,
    pub fee: u64,
    pub tick_spacing: i32,
    pub hooks: Option<Seq<u8>>,
    pub sqrt_price_x96: Seq<char>,
    pub tick: i32,
}

impl View for Initialize {
    type V = InitializeRecord;

    open spec fn view(&self) -> InitializeRecord {
        InitializeRecord {
            context: self.context@,
            id: self.id@,
            currency0: self.currency0@,
            currency1: self.currency1@,
            fee: self.fee,
            tick_spacing: self.tick_spacing,
            hooks: bytes_view(self.hooks),
            sqrt_price_x96: self.sqrt_price_x96@,
            tick: self.tick,
        }
    }
}

/// A change of a position's liquidity.
#[derive(Debug, Clone, PartialEq, Eq)]
pub struct ModifyLiquidity {
    pub context: EventContext,
    pub id: Vec<u8>,
    pub sender: Vec<u8>,
    pub tick_lower: i32,
    pub tick_upper: i32,
    pub liquidity_delta: String,
    pub salt: Vec<u8>,
}

/// The mathematical value of a `ModifyLiquidity`.
pub struct ModifyLiquidityRecord {
    pub context: Origin,
    pub id: Seq<u8>,
    pub sender: Seq<u8>,
    pub tick_lower: i32,
    pub tick_upper: i32,
    pub liquidity_delta: Seq<char>,
    pub salt: Seq<u8>,
}

impl View for ModifyLiquidity {
    type V = ModifyLiquidityRecord;

    open spec fn view(&self) -> ModifyLiquidityRecord {
        ModifyLiquidityRecord {
            context: self.context@,
            id: self.id@,
            sender: self.sender@,
            tick_lower: self.tick_lower,
            tick_upper: self.tick_upper,
            liquidity_delta: self.liquidity_delta@,
            salt: self.salt@,
        }
    }
}

/// A donation to a pool.
#[derive(Debug, Clone, PartialEq, Eq)]
pub struct Donate {
    pub context: EventContext,
    pub id: Vec<u8>,
    pub sender: Vec<u8>,
    pub amount0: String,
    pub amount1: String,
}

/// The mathematical value of a `Donate`.
pub struct DonateRecord {
    pub context: Origin,
    pub id: Seq<u8>,
    pub sender: Seq<u8>,
    pub amount0: Seq<char>,
    pub amount1: Seq<char>,
}

impl View for Donate {
    type V = DonateRecord;

    open spec fn view(&self) -> DonateRecord {
        DonateRecord {
            context: self.context@,
            id: self.id@,
            sender: self.sender@,
            amount0: self.amount0@,
            amount1: self.amount1@,
        }
    }
}

/// A change of the protocol-fee controller.
#[derive(Debug, Clone, PartialEq, Eq)]
pub struct ProtocolFeeControllerUpdated {
    pub context: EventContext,
    pub protocol_fee_controller: Vec<u8>,
}

/// The mathematical value of a `ProtocolFeeControllerUpdated`.
pub struct ProtocolFeeControllerUpdatedRecord {
    pub context: Origin,
    pub protocol_fee_controller: Seq<u8>,
}

impl View for ProtocolFeeControllerUpdated {
    type V = ProtocolFeeControllerUpdatedRecord;

    open spec fn view(&self) -> ProtocolFeeControllerUpdatedRecord {
        ProtocolFeeControllerUpdatedRecord {
            context: self.context@,
            protocol_fee_controller: self.protocol_fee_controller@,
        }
    }
}

/// A change of a pool's protocol fee.
#[derive(Debug, Clone, PartialEq, Eq)]
pub struct ProtocolFeeUpdated {
    pub context: EventContext,
    pub id: Vec<u8>,
    pub protocol_fee: u64,
}

/// The mathematical value of a `ProtocolFeeUpdated`.
pub struct ProtocolFeeUpdatedRecord {
    pub context: Origin,
    pub id: Seq<u8>,
    pub protocol_fee: u64,
}

impl View for ProtocolFeeUpdated {
    type V = ProtocolFeeUpdatedRecord;

    open spec fn view(&self) -> ProtocolFeeUpdatedRecord {
        ProtocolFeeUpdatedRecord {
            context: self.context@,
            id: self.id@,
            protocol_fee: self.protocol_fee,
        }
    }
}

/// A normalised pool-manager event, one variant for each kind.
#[derive(Debug, Clone, PartialEq, Eq)]
pub enum NormalizedEvent {
    Swap(Swap),
    Initialize(Initialize),
    ModifyLiquidity(ModifyLiquidity),
    Donate(Donate),
    ProtocolFeeControllerUpdated(ProtocolFeeControllerUpdated),
    ProtocolFeeUpdated(ProtocolFeeUpdated),
}

/// The mathematical value of a `NormalizedEvent`.
pub enum EventRecord {
    Swap(SwapRecord),
    Initialize(InitializeRecord),
    ModifyLiquidity(ModifyLiquidityRecord),
    Donate(DonateRecord),
    ProtocolFeeControllerUpdated(ProtocolFeeControllerUpdatedRecord),
    ProtocolFeeUpdated(ProtocolFeeUpdatedRecord),
}

impl EventRecord {
    /// Where the event comes from.
    pub open spec fn context(self) -> Origin {
        match self {
            EventRecord::Swap(e) => e.context,
            EventRecord::Initialize(e) => e.context,
            EventRecord::ModifyLiquidity(e) => e.context,
            EventRecord::Donate(e) => e.context,
            EventRecord::ProtocolFeeControllerUpdated(e) => e.context,
            EventRecord::ProtocolFeeUpdated(e) => e.context,
        }
    }

    /// The position in the block of the log that the event was made from.
    pub open spec fn ordinal(self) -> u64 {
        self.context().ordinal
    }
}

impl View for NormalizedEvent {
    type V = EventRecord;

    open spec fn view(&self) -> EventRecord {
        match self {
            NormalizedEvent::Swap(e) => EventRecord::Swap(e@),
            NormalizedEvent::Initialize(e) => EventRecord::Initialize(e@),
            NormalizedEvent::ModifyLiquidity(e) => EventRecord::ModifyLiquidity(e@),
            NormalizedEvent::Donate(e) => EventRecord::Donate(e@),
            NormalizedEvent::ProtocolFeeControllerUpdated(e) => {
                EventRecord::ProtocolFeeControllerUpdated(e@)
            },
            NormalizedEvent::ProtocolFeeUpdated(e) => EventRecord::ProtocolFeeUpdated(e@),
        }
    }
}

impl NormalizedEvent {
    /// The position in the block of the log that the event was made from.
    pub fn ordinal(&self) -> (r: u64)
        ensures
            r == self@.ordinal(),
    {
        match self {
            NormalizedEvent::Swap(e) => e.context.ordinal,
            NormalizedEvent::Initialize(e) => e.context.ordinal,
            NormalizedEvent::ModifyLiquidity(e) => e.context.ordinal,
            NormalizedEvent::Donate(e) => e.context.ordinal,
            NormalizedEvent::ProtocolFeeControllerUpdated(e) => e.context.ordinal,
            NormalizedEvent::ProtocolFeeUpdated(e) => e.context.ordinal,
        }
    }
}

/// The view of an optional event.
pub open spec fn event_view(event: Option<NormalizedEvent>) -> Option<EventRecord> {
    match event {
        Some(e) => Some(e@),
        None => None,
    }
}

/// The views of a sequence of events.
pub open spec fn event_views(events: Seq<NormalizedEvent>) -> Seq<EventRecord> {
    events.map_values(|e: NormalizedEvent| e@)
}

/// The events of one block, one sequence for each kind, each in the order in
/// which its events were added.
#[derive(Debug, Clone, PartialEq, Eq)]
pub struct Events {
    pub swap: Vec<Swap>,
    pub initialize: Vec<Initialize>,
    pub modify_liquidity: Vec<ModifyLiquidity>,
    pub donate: Vec<Donate>,
    pub protocol_fee_controller_updated: Vec<ProtocolFeeControllerUpdated>,
    pub protocol_fee_updated: Vec<ProtocolFeeUpdated>,
}

/// The mathematical value of an `Events`.
pub struct Batch {
    pub swap: Seq<SwapRecord>,
    pub initialize: Seq<InitializeRecord>,
    pub modify_liquidity: Seq<ModifyLiquidityRecord>,
    pub donate: Seq<DonateRecord>,
    pub protocol_fee_controller_updated: Seq<ProtocolFeeControllerUpdatedRecord>,
    pub protocol_fee_updated: Seq<ProtocolFeeUpdatedRecord>,
}

impl View for Events {
    type V = Batch;

    open spec fn view(&self) -> Batch {
        Batch {
            swap: self.swap@.map_values(|e: Swap| e@),
            initialize: self.initialize@.map_values(|e: Initialize| e@),
            modify_liquidity: self.modify_liquidity@.map_values(|e: ModifyLiquidity| e@),
            donate: self.donate@.map_values(|e: Donate| e@),
            protocol_fee_controller_updated: self.protocol_fee_controller_updated@.map_values(
                |e: ProtocolFeeControllerUpdated| e@,
            ),
            protocol_fee_updated: self.protocol_fee_updated@.map_values(
                |e: ProtocolFeeUpdated| e@,
            ),
        }
    }
}

/// The batch that holds nothing.
pub open spec fn empty_batch() -> Batch {
    Batch {
        swap: Seq::empty(),
        initialize: Seq::empty(),
        modify_liquidity: Seq::empty(),
        donate: Seq::empty(),
        protocol_fee_controller_updated: Seq::empty(),
        protocol_fee_updated: Seq::empty(),
    }
}

/// `batch` with `event` added at the end of the sequence of its kind.
pub open spec fn batch_push(batch: Batch, event: EventRecord) -> Batch {
    match event {
        EventRecord::Swap(e) => Batch { swap: batch.swap.push(e), ..batch },
        EventRecord::Initialize(e) => Batch { initialize: batch.initialize.push(e), ..batch },
        EventRecord::ModifyLiquidity(e) => Batch {
            modify_liquidity: batch.modify_liquidity.push(e),
            ..batch
        },
        EventRecord::Donate(e) => Batch { donate: batch.donate.push(e), ..batch },
        EventRecord::ProtocolFeeControllerUpdated(e) => Batch {
            protocol_fee_controller_updated: batch.protocol_fee_controller_updated.push(e),
            ..batch
        },
        EventRecord::ProtocolFeeUpdated(e) => Batch {
            protocol_fee_updated: batch.protocol_fee_updated.push(e),
            ..batch
        },
    }
}

/// The batch of a sequence of events: each event in the sequence of its kind, in
/// the order of `events`.
pub open spec fn batch_of(events: Seq<EventRecord>) -> Batch
    decreases events.len(),
{
    if events.len() == 0 {
        empty_batch()
    } else {
        batch_push(batch_of(events.drop_last()), events.last())
    }
}

impl Events {
    /// A batch without events.
    pub fn new() -> (r: Events)
        ensures
            r@ == empty_batch(),
    {
        let r = Events {
            swap: Vec::new(),
            initialize: Vec::new(),
            modify_liquidity: Vec::new(),
            donate: Vec::new(),
            protocol_fee_controller_updated: Vec::new(),
            protocol_fee_updated: Vec::new(),
        };
        assert(r@.swap =~= empty_batch().swap);
        assert(r@.initialize =~= empty_batch().initialize);
        assert(r@.modify_liquidity =~= empty_batch().modify_liquidity);
        assert(r@.donate =~= empty_batch().donate);
        assert(r@.protocol_fee_controller_updated =~= empty_batch().protocol_fee_controller_updated);
        assert(r@.protocol_fee_updated =~= empty_batch().protocol_fee_updated);
        r
    }

    /// Adds an event at the end of the sequence of its kind.
    pub fn push(&mut self, event: NormalizedEvent)
        ensures
            final(self)@ == batch_push(old(self)@, event@),
    {
        match event {
            NormalizedEvent::Swap(e) => {
                self.swap.push(e);
                assert(self@.swap =~= old(self)@.swap.push(e@));
            },
            NormalizedEvent::Initialize(e) => {
                self.initialize.push(e);
                assert(self@.initialize =~= old(self)@.initialize.push(e@));
            },
            NormalizedEvent::ModifyLiquidity(e) => {
                self.modify_liquidity.push(e);
                assert(self@.modify_liquidity =~= old(self)@.modify_liquidity.push(e@));
            },
            NormalizedEvent::Donate(e) => {
                self.donate.push(e);
                assert(self@.donate =~= old(self)@.donate.push(e@));
            },
            NormalizedEvent::ProtocolFeeControllerUpdated(e) => {
                self.protocol_fee_controller_updated.push(e);
                assert(self@.protocol_fee_controller_updated
                    =~= old(self)@.protocol_fee_controller_updated.push(e@));
            },
            NormalizedEvent::ProtocolFeeUpdated(e) => {
                self.protocol_fee_updated.push(e);
                assert(self@.protocol_fee_updated =~= old(self)@.protocol_fee_updated.push(e@));
            },
        }
    }
}

} // verus!
