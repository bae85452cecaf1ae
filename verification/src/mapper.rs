//! From logs to normalised events: which event a log is, what the event keeps of
//! the decoded fields, and the batch of a whole block.
use crate::events::{
    batch_of,
    batch_push,
    event_view,
    event_views,
    Block,
    DecodedLog,
    Donate,
    DonateFields,
    DonateLog,
    DonateRecord,
    EventContext,
    EventRecord,
    Events,
    Initialize,
    InitializeFields,
    InitializeLog,
    InitializeRecord,
    LogWithCaller,
    ModifyLiquidity,
    ModifyLiquidityFields,
    ModifyLiquidityLog,
    ModifyLiquidityRecord,
    NormalizedEvent,
    Origin,
    ProtocolFeeControllerUpdated,
    ProtocolFeeControllerUpdatedRecord,
    ProtocolFeeUpdated,
    ProtocolFeeUpdatedFields,
    ProtocolFeeUpdatedLog,
    ProtocolFeeUpdatedRecord,
    Swap,
    SwapFields,
    SwapLog,
    SwapRecord,
    Transaction,
    TransactionContext,
};
use crate::poolmanager::{
    decode_donate,
    decode_initialize,
    decode_modify_liquidity,
    decode_protocol_fee_controller_updated,
    decode_protocol_fee_updated,
    decode_swap,
    donate_log,
    initialize_log,
    modify_liquidity_log,
    protocol_fee_controller_updated_log,
    protocol_fee_updated_log,
    swap_log,
};
use crate::wide::{clamp_to_i32, clamp_to_u64, clamped_i32, clamped_u64, decimal_text};
use vstd::prelude::*;

verus! {

/// A copy of `bytes`.
pub fn copy_bytes(bytes: &Vec<u8>) -> (r: Vec<u8>)
    ensures
        r@ == bytes@,
{
    let r = bytes.clone();
    assert(r@ =~= bytes@);
    r
}

/// Where an event made from `log` comes from.
pub open spec fn origin_of(log: DecodedLog, tx: TransactionContext, caller: Seq<u8>) -> Origin {
    Origin {
        tx_hash: tx.hash@,
        tx_from: tx.from@,
        tx_to: tx.to@,
        caller,
        contract: log.address@,
        ordinal: log.ordinal,
    }
}

/// The swap that these decoded fields make: wide numbers as decimal text, the
/// tick clamped to 32 bits.
pub open spec fn swap_record(context: Origin, fields: SwapFields) -> SwapRecord {
    SwapRecord {
        context,
        id: fields.id,
        sender: fields.sender,
        amount0: decimal_text(fields.amount0),
        amount1: decimal_text(fields.amount1),
        fee: decimal_text(fields.fee),
        liquidity: decimal_text(fields.liquidity),
        sqrt_price_x96: decimal_text(fields.sqrt_price_x96),
        tick: clamped_i32(fields.tick),
    }
}

/// The pool creation that these decoded fields make: fee clamped to 64 bits, tick
/// and tick spacing to 32 bits, the price as decimal text, and no hook address.
pub open spec fn initialize_record(context: Origin, fields: InitializeFields) -> InitializeRecord {
    InitializeRecord {
        context,
        id: fields.id,
        currency0: fields.currency0,
        currency1: fields.currency1,
        fee: clamped_u64(fields.fee),
        tick_spacing: clamped_i32(fields.tick_spacing),
        hooks: None,
        sqrt_price_x96: decimal_text(fields.sqrt_price_x96),
        tick: clamped_i32(fields.tick),
    }
}

/// The liquidity change that these decoded fields make: ticks clamped to 32 bits,
/// the change as decimal text.
pub open spec fn modify_liquidity_record(
    context: Origin,
    fields: ModifyLiquidityFields,
) -> ModifyLiquidityRecord {
    ModifyLiquidityRecord {
        context,
        id: fields.id,
        sender: fields.sender,
        tick_lower: clamped_i32(fields.tick_lower),
        tick_upper: clamped_i32(fields.tick_upper),
        liquidity_delta: decimal_text(fields.liquidity_delta),
        salt: fields.salt,
    }
}

/// The donation that these decoded fields make: amounts as decimal text.
pub open spec fn donate_record(context: Origin, fields: DonateFields) -> DonateRecord {
    DonateRecord {
        context,
        id: fields.id,
        sender: fields.sender,
        amount0: decimal_text(fields.amount0),
        amount1: decimal_text(fields.amount1),
    }
}

/// The fee change that these decoded fields make: the fee clamped to 64 bits.
pub open spec fn protocol_fee_updated_record(
    context: Origin,
    fields: ProtocolFeeUpdatedFields,
) -> ProtocolFeeUpdatedRecord {
    ProtocolFeeUpdatedRecord {
        context,
        id: fields.id,
        protocol_fee: clamped_u64(fields.protocol_fee),
    }
}

/// The event that a log gives, if any: the first of the six kinds, in this order,
/// that decodes its topics and data.
pub open spec fn mapped(log: DecodedLog, tx: TransactionContext, caller: Seq<u8>) -> Option<
    EventRecord,
> {
    let context = origin_of(log, tx, caller);
    let topics = log.topics.deep_view();
    let data = log.data@;
    if let Some(fields) = swap_log(topics, data) {
        Some(EventRecord::Swap(swap_record(context, fields)))
    } else if let Some(fields) = initialize_log(topics, data) {
        Some(EventRecord::Initialize(initialize_record(context, fields)))
    } else if let Some(fields) = modify_liquidity_log(topics, data) {
        Some(EventRecord::ModifyLiquidity(modify_liquidity_record(context, fields)))
    } else if let Some(fields) = donate_log(topics, data) {
        Some(EventRecord::Donate(donate_record(context, fields)))
    } else if let Some(controller) = protocol_fee_controller_updated_log(topics, data) {
        Some(
            EventRecord::ProtocolFeeControllerUpdated(
                ProtocolFeeControllerUpdatedRecord { context, protocol_fee_controller: controller },
            ),
        )
    } else if let Some(fields) = protocol_fee_updated_log(topics, data) {
        Some(EventRecord::ProtocolFeeUpdated(protocol_fee_updated_record(context, fields)))
    } else {
        None
    }
}

/// The events of one transaction's logs, in the order of the logs.
pub open spec fn log_events(tx: TransactionContext, logs: Seq<LogWithCaller>) -> Seq<EventRecord>
    decreases logs.len(),
{
    if logs.len() == 0 {
        Seq::empty()
    } else {
        let before = log_events(tx, logs.drop_last());
        match mapped(logs.last().log, tx, logs.last().caller@) {
            Some(event) => before.push(event),
            None => before,
        }
    }
}

/// The events of a block's transactions, in the order of discovery.
pub open spec fn block_events(transactions: Seq<Transaction>) -> Seq<EventRecord>
    decreases transactions.len(),
{
    if transactions.len() == 0 {
        Seq::empty()
    } else {
        block_events(transactions.drop_last()) + log_events(
            transactions.last().context,
            transactions.last().logs@,
        )
    }
}

/// Takes what an event keeps of its transaction, its caller and its log.
pub fn context_of(log: &DecodedLog, tx: &TransactionContext, caller: &Vec<u8>) -> (r: EventContext)
    ensures
        r@ == origin_of(*log, *tx, caller@),
{
    EventContext {
        tx_hash: copy_bytes(&tx.hash),
        tx_from: copy_bytes(&tx.from),
        tx_to: copy_bytes(&tx.to),
        caller: copy_bytes(caller),
        contract: copy_bytes(&log.address),
        ordinal: log.ordinal,
    }
}

/// Makes a swap of decoded fields. A tick outside the signed 32-bit range, above
/// or below, becomes `i32::MAX`.
pub fn normalize_swap(context: EventContext, fields: SwapLog) -> (r: Swap)
    ensures
        r@ == swap_record(context@, fields@),
{
    Swap {
        context,
        amount0: fields.amount0.to_decimal(),
        amount1: fields.amount1.to_decimal(),
        fee: fields.fee.to_decimal(),
        liquidity: fields.liquidity.to_decimal(),
        sqrt_price_x96: fields.sqrt_price_x96.to_decimal(),
        tick: clamp_to_i32(&fields.tick),
        id: fields.id,
        sender: fields.sender,
    }
}

/// Makes a pool creation of decoded fields. A fee outside the unsigned 64-bit
/// range becomes `u64::MAX`, a tick or tick spacing outside the signed 32-bit
/// range `i32::MAX`; the decoded hook address is dropped.
pub fn normalize_initialize(context: EventContext, fields: InitializeLog) -> (r: Initialize)
    ensures
        r@ == initialize_record(context@, fields@),
{
    Initialize {
        context,
        fee: clamp_to_u64(&fields.fee),
        tick_spacing: clamp_to_i32(&fields.tick_spacing),
        hooks: None,
        sqrt_price_x96: fields.sqrt_price_x96.to_decimal(),
        tick: clamp_to_i32(&fields.tick),
        id: fields.id,
        currency0: fields.currency0,
        currency1: fields.currency1,
    }
}

/// Makes a liquidity change of decoded fields. A tick outside the signed 32-bit
/// range becomes `i32::MAX`.
pub fn normalize_modify_liquidity(context: EventContext, fields: ModifyLiquidityLog) -> (r:
    ModifyLiquidity)
    ensures
        r@ == modify_liquidity_record(context@, fields@),
{
    ModifyLiquidity {
        context,
        tick_lower: clamp_to_i32(&fields.tick_lower),
        tick_upper: clamp_to_i32(&fields.tick_upper),
        liquidity_delta: fields.liquidity_delta.to_decimal(),
        id: fields.id,
        sender: fields.sender,
        salt: fields.salt,
    }
}

/// Makes a donation of decoded fields.
pub fn normalize_donate(context: EventContext, fields: DonateLog) -> (r: Donate)
    ensures
        r@ == donate_record(context@, fields@),
{
    Donate {
        context,
        amount0: fields.amount0.to_decimal(),
        amount1: fields.amount1.to_decimal(),
        id: fields.id,
        sender: fields.sender,
    }
}

/// Makes a fee change of decoded fields. A fee outside the unsigned 64-bit range
/// becomes `u64::MAX`.
pub fn normalize_protocol_fee_updated(context: EventContext, fields: ProtocolFeeUpdatedLog) -> (r:
    ProtocolFeeUpdated)
    ensures
        r@ == protocol_fee_updated_record(context@, fields@),
{
    ProtocolFeeUpdated {
        context,
        protocol_fee: clamp_to_u64(&fields.protocol_fee),
        id: fields.id,
    }
}

/// The event that the log gives: the six kinds are tried in a fixed order and the
/// first that decodes the log decides. A log of no known kind gives `None`.
pub fn map_log(log: &DecodedLog, tx: &TransactionContext, caller: &Vec<u8>) -> (r: Option<
    NormalizedEvent,
>)
    ensures
        event_view(r) == mapped(*log, *tx, caller@),
        r is Some ==> r->0@.ordinal() == log.ordinal,
{
    if let Some(fields) = decode_swap(&log.topics, &log.data) {
        let context = context_of(log, tx, caller);
        Some(NormalizedEvent::Swap(normalize_swap(context, fields)))
    } else if let Some(fields) = decode_initialize(&log.topics, &log.data) {
        let context = context_of(log, tx, caller);
        Some(NormalizedEvent::Initialize(normalize_initialize(context, fields)))
    } else if let Some(fields) = decode_modify_liquidity(&log.topics, &log.data) {
        let context = context_of(log, tx, caller);
        Some(NormalizedEvent::ModifyLiquidity(normalize_modify_liquidity(context, fields)))
    } else if let Some(fields) = decode_donate(&log.topics, &log.data) {
        let context = context_of(log, tx, caller);
        Some(NormalizedEvent::Donate(normalize_donate(context, fields)))
    } else if let Some(controller) = decode_protocol_fee_controller_updated(
        &log.topics,
        &log.data,
    ) {
        let context = context_of(log, tx, caller);
        Some(
            NormalizedEvent::ProtocolFeeControllerUpdated(
                ProtocolFeeControllerUpdated { context, protocol_fee_controller: controller },
            ),
        )
    } else if let Some(fields) = decode_protocol_fee_updated(&log.topics, &log.data) {
        let context = context_of(log, tx, caller);
        Some(NormalizedEvent::ProtocolFeeUpdated(normalize_protocol_fee_updated(context, fields)))
    } else {
        None
    }
}

/// Adding one event to a sequence adds it to the batch of the sequence.
pub proof fn lemma_batch_of_push(events: Seq<EventRecord>, event: EventRecord)
    ensures
        batch_of(events.push(event)) == batch_push(batch_of(events), event),
{
    assert(events.push(event).drop_last() =~= events);
}

/// The events of a block, each kind in the order in which its logs were found:
/// transaction by transaction, and log by log within each.
pub fn map_events(block: &Block) -> (r: Events)
    ensures
        r@ == batch_of(block_events(block.transactions@)),
{
    let mut events = Events::new();
    let mut i: usize = 0;
    while i < block.transactions.len()
        invariant
            i <= block.transactions.len(),
            events@ == batch_of(block_events(block.transactions@.take(i as int))),
        decreases block.transactions.len() - i,
    {
        let trx = &block.transactions[i];
        let ghost done = block_events(block.transactions@.take(i as int));
        let mut j: usize = 0;
        while j < trx.logs.len()
            invariant
                j <= trx.logs.len(),
                events@ == batch_of(done + log_events(trx.context, trx.logs@.take(j as int))),
            decreases trx.logs.len() - j,
        {
            let entry = &trx.logs[j];
            let ghost before = log_events(trx.context, trx.logs@.take(j as int));
            proof {
                assert(trx.logs@.take(j + 1).drop_last() =~= trx.logs@.take(j as int));
            }
            if let Some(event) = map_log(&entry.log, &trx.context, &entry.caller) {
                proof {
                    assert(done + before.push(event@) =~= (done + before).push(event@));
                    lemma_batch_of_push(done + before, event@);
                }
                events.push(event);
            }
            j = j + 1;
        }
        proof {
            assert(trx.logs@.take(j as int) =~= trx.logs@);
            assert(block.transactions@.take(i + 1).drop_last() =~= block.transactions@.take(
                i as int,
            ));
        }
        i = i + 1;
    }
    proof {
        assert(block.transactions@.take(i as int) =~= block.transactions@);
    }
    events
}

/// Where an event with this ordinal goes into a sequence that is in order: behind
/// every event whose ordinal is not greater.
pub open spec fn insert_position(events: Seq<EventRecord>, ordinal: u64) -> int
    decreases events.len(),
{
    if events.len() > 0 && events.last().ordinal() > ordinal {
        insert_position(events.drop_last(), ordinal)
    } else {
        events.len() as int
    }
}

/// `events` put in the order of their ordinals. Events with the same ordinal keep
/// the order that they had.
pub open spec fn sorted_by_ordinal(events: Seq<EventRecord>) -> Seq<EventRecord>
    decreases events.len(),
{
    if events.len() == 0 {
        events
    } else {
        let before = sorted_by_ordinal(events.drop_last());
        before.insert(insert_position(before, events.last().ordinal()), events.last())
    }
}

/// Whether no event stands before one with a smaller ordinal.
pub open spec fn ordered(events: Seq<EventRecord>) -> bool {
    forall|i: int, j: int|
        0 <= i < j < events.len() ==> events[i].ordinal() <= events[j].ordinal()
}

/// Whether each event has a greater ordinal than the one before it.
pub open spec fn strictly_ordered(events: Seq<EventRecord>) -> bool {
    forall|i: int, j: int|
        0 <= i < j < events.len() ==> events[i].ordinal() < events[j].ordinal()
}

/// The insert position lies in the sequence, and every event from it on has a
/// greater ordinal. In an ordered sequence no event before it has one.
pub proof fn lemma_insert_position(events: Seq<EventRecord>, ordinal: u64)
    ensures
        0 <= insert_position(events, ordinal) <= events.len(),
        forall|k: int|
            insert_position(events, ordinal) <= k < events.len() ==> events[k].ordinal()
                > ordinal,
        ordered(events) ==> forall|k: int|
            0 <= k < insert_position(events, ordinal) ==> events[k].ordinal() <= ordinal,
    decreases events.len(),
{
    if events.len() > 0 && events.last().ordinal() > ordinal {
        let shorter = events.drop_last();
        lemma_insert_position(shorter, ordinal);
        assert forall|k: int|
            insert_position(events, ordinal) <= k < events.len() implies events[k].ordinal()
            > ordinal by {
            if k < shorter.len() {
                assert(shorter[k] == events[k]);
            }
        }
        if ordered(events) {
            assert forall|i: int, j: int| 0 <= i < j < shorter.len() implies shorter[i].ordinal()
                <= shorter[j].ordinal() by {
                assert(shorter[i] == events[i] && shorter[j] == events[j]);
            }
            assert forall|k: int| 0 <= k < insert_position(events, ordinal) implies events[k].ordinal()
                <= ordinal by {
                assert(shorter[k] == events[k]);
            }
        }
    } else if events.len() > 0 {
        if ordered(events) {
            assert forall|k: int| 0 <= k < events.len() implies events[k].ordinal() <= ordinal by {
                assert(events[k].ordinal() <= events[events.len() - 1].ordinal());
            }
        }
    }
}

/// Sorting keeps every event, as often as it was there, and leaves them ordered.
pub proof fn lemma_sorted_by_ordinal(events: Seq<EventRecord>)
    ensures
        ordered(sorted_by_ordinal(events)),
        sorted_by_ordinal(events).to_multiset() == events.to_multiset(),
        sorted_by_ordinal(events).len() == events.len(),
    decreases events.len(),
{
    broadcast use vstd::seq_lib::to_multiset_insert, vstd::seq_lib::to_multiset_build;

    if events.len() > 0 {
        let last = events.last();
        let before = sorted_by_ordinal(events.drop_last());
        lemma_sorted_by_ordinal(events.drop_last());
        lemma_insert_position(before, last.ordinal());
        let at = insert_position(before, last.ordinal());
        let after = before.insert(at, last);
        assert forall|i: int, j: int| 0 <= i < j < after.len() implies after[i].ordinal()
            <= after[j].ordinal() by {
            if j < at {
                assert(after[i] == before[i] && after[j] == before[j]);
            } else if j == at {
                assert(after[i] == before[i]);
            } else if i < at {
                assert(after[i] == before[i] && after[j] == before[j - 1]);
            } else if i == at {
                assert(after[j] == before[j - 1]);
            } else {
                assert(after[i] == before[i - 1] && after[j] == before[j - 1]);
            }
        }
        assert(events.drop_last().push(last) =~= events);
    }
}

/// The number of events in `events` whose ordinal is not greater than `ordinal`,
/// counted from the front, where `events` is in order: the place to insert at.
fn find_position(events: &Vec<NormalizedEvent>, ordinal: u64) -> (at: usize)
    ensures
        at == insert_position(event_views(events@), ordinal),
        at <= events.len(),
{
    let ghost views = event_views(events@);
    let mut at: usize = events.len();
    proof {
        assert(views.take(at as int) =~= views);
    }
    while at > 0 && events[at - 1].ordinal() > ordinal
        invariant
            at <= events.len(),
            views == event_views(events@),
            insert_position(views, ordinal) == insert_position(views.take(at as int), ordinal),
        decreases at,
    {
        proof {
            assert(views.take(at as int).drop_last() =~= views.take(at - 1));
        }
        at = at - 1;
    }
    at
}

/// Puts the events in the order of their ordinals. Events with the same ordinal
/// keep the order that they had.
pub fn sort_by_ordinal(events: Vec<NormalizedEvent>) -> (r: Vec<NormalizedEvent>)
    ensures
        event_views(r@) == sorted_by_ordinal(event_views(events@)),
        ordered(event_views(r@)),
        event_views(r@).to_multiset() == event_views(events@).to_multiset(),
        r.len() == events.len(),
{
    let ghost all = event_views(events@);
    let mut rest = events;
    let mut sorted: Vec<NormalizedEvent> = Vec::new();
    let ghost mut done: int = 0;
    proof {
        assert(event_views(rest@) =~= all.skip(0));
        assert(event_views(sorted@) =~= sorted_by_ordinal(all.take(0)));
    }
    while rest.len() > 0
        invariant
            0 <= done <= all.len(),
            event_views(rest@) == all.skip(done),
            event_views(sorted@) == sorted_by_ordinal(all.take(done)),
        decreases rest.len(),
    {
        let ghost views = event_views(sorted@);
        let ghost waiting = rest@;
        proof {
            assert(event_views(waiting).len() == waiting.len());
            assert(event_views(waiting)[0] == waiting[0]@);
        }
        let event = rest.remove(0);
        let at = find_position(&sorted, event.ordinal());
        proof {
            assert(event@ == all[done]);
            assert(all.take(done + 1).drop_last() =~= all.take(done));
            assert forall|k: int| 0 <= k < rest@.len() implies event_views(rest@)[k] == all.skip(
                done + 1,
            )[k] by {
                assert(rest@[k] == waiting[k + 1]);
                assert(event_views(waiting)[k + 1] == waiting[k + 1]@);
            }
            assert(event_views(rest@) =~= all.skip(done + 1));
        }
        sorted.insert(at, event);
        proof {
            assert(event_views(sorted@) =~= views.insert(at as int, event@));
            done = done + 1;
        }
    }
    proof {
        assert(all.take(done) =~= all);
        lemma_sorted_by_ordinal(all);
    }
    sorted
}

/// The batch of per-log results that came in any order: the events are put in the
/// order of their ordinals, then each goes to the sequence of its kind.
pub fn merge_by_ordinal(results: Vec<NormalizedEvent>) -> (r: Events)
    ensures
        r@ == batch_of(sorted_by_ordinal(event_views(results@))),
{
    let mut rest = sort_by_ordinal(results);
    let ghost all = event_views(rest@);
    let mut events = Events::new();
    let ghost mut done: int = 0;
    proof {
        assert(event_views(rest@) =~= all.skip(0));
        assert(all.take(0) =~= Seq::<EventRecord>::empty());
    }
    while rest.len() > 0
        invariant
            0 <= done <= all.len(),
            event_views(rest@) == all.skip(done),
            events@ == batch_of(all.take(done)),
        decreases rest.len(),
    {
        let ghost waiting = rest@;
        proof {
            assert(event_views(waiting).len() == waiting.len());
            assert(event_views(waiting)[0] == waiting[0]@);
        }
        let event = rest.remove(0);
        proof {
            assert(event@ == all[done]);
            assert(all.take(done + 1) =~= all.take(done).push(event@));
            lemma_batch_of_push(all.take(done), event@);
            assert forall|k: int| 0 <= k < rest@.len() implies event_views(rest@)[k] == all.skip(
                done + 1,
            )[k] by {
                assert(rest@[k] == waiting[k + 1]);
                assert(event_views(waiting)[k + 1] == waiting[k + 1]@);
            }
            assert(event_views(rest@) =~= all.skip(done + 1));
            done = done + 1;
        }
        events.push(event);
    }
    proof {
        assert(all.take(done) =~= all);
    }
    events
}

/// An event made from a log carries the log's ordinal, whatever its kind.
pub proof fn law_event_keeps_ordinal(log: DecodedLog, tx: TransactionContext, caller: Seq<u8>)
    requires
        mapped(log, tx, caller) is Some,
    ensures
        mapped(log, tx, caller)->0.ordinal() == log.ordinal,
        mapped(log, tx, caller)->0.context() == origin_of(log, tx, caller),
{
}

/// A log gives no event exactly where none of the six kinds decodes it.
pub proof fn law_unrecognised_log(log: DecodedLog, tx: TransactionContext, caller: Seq<u8>)
    ensures
        mapped(log, tx, caller) is None <==> {
            &&& swap_log(log.topics.deep_view(), log.data@) is None
            &&& initialize_log(log.topics.deep_view(), log.data@) is None
            &&& modify_liquidity_log(log.topics.deep_view(), log.data@) is None
            &&& donate_log(log.topics.deep_view(), log.data@) is None
            &&& protocol_fee_controller_updated_log(log.topics.deep_view(), log.data@) is None
            &&& protocol_fee_updated_log(log.topics.deep_view(), log.data@) is None
        },
{
}

/// A tick inside the signed 32-bit range is kept, the largest one included; a
/// tick one above the largest, or one below the smallest, becomes the largest.
pub proof fn law_tick_clamp(tick: int)
    ensures
        i32::MIN <= tick <= i32::MAX ==> clamped_i32(tick) == tick,
        tick > i32::MAX || tick < i32::MIN ==> clamped_i32(tick) == i32::MAX,
        clamped_i32(0x7fff_ffff) == 0x7fff_ffff,
        clamped_i32(0x8000_0000) == 0x7fff_ffff,
        clamped_i32(-0x8000_0001) == 0x7fff_ffff,
{
}

/// The events of some logs are the event of the first log, if it gives one, and
/// then the events of the other logs.
pub proof fn lemma_log_events_front(tx: TransactionContext, logs: Seq<LogWithCaller>)
    requires
        logs.len() > 0,
    ensures
        log_events(tx, logs) == match mapped(logs[0].log, tx, logs[0].caller@) {
            Some(event) => seq![event] + log_events(tx, logs.skip(1)),
            None => log_events(tx, logs.skip(1)),
        },
    decreases logs.len(),
{
    let rest = logs.skip(1);
    if logs.len() == 1 {
        assert(logs.drop_last() =~= rest);
        assert(log_events(tx, rest) =~= Seq::<EventRecord>::empty());
        match mapped(logs[0].log, tx, logs[0].caller@) {
            Some(event) => {
                assert(log_events(tx, logs) =~= seq![event] + log_events(tx, rest));
            },
            None => {},
        }
    } else {
        lemma_log_events_front(tx, logs.drop_last());
        assert(logs.drop_last().skip(1) =~= rest.drop_last());
        assert(logs.drop_last()[0] == logs[0]);
        assert(rest.last() == logs.last());
        let inner = log_events(tx, rest.drop_last());
        match mapped(logs[0].log, tx, logs[0].caller@) {
            Some(event) => {
                match mapped(logs.last().log, tx, logs.last().caller@) {
                    Some(last) => {
                        assert((seq![event] + inner).push(last) =~= seq![event] + inner.push(last));
                    },
                    None => {},
                }
            },
            None => {},
        }
    }
}

/// Every event of some logs has the ordinal of one of the logs: where all logs lie
/// above a bound, so do all their events.
pub proof fn lemma_log_events_above(tx: TransactionContext, logs: Seq<LogWithCaller>, bound: u64)
    requires
        forall|i: int| 0 <= i < logs.len() ==> logs[i].log.ordinal > bound,
    ensures
        forall|k: int|
            0 <= k < log_events(tx, logs).len() ==> log_events(tx, logs)[k].ordinal() > bound,
    decreases logs.len(),
{
    if logs.len() > 0 {
        let shorter = logs.drop_last();
        assert forall|i: int| 0 <= i < shorter.len() implies shorter[i].log.ordinal > bound by {
            assert(shorter[i] == logs[i]);
        }
        lemma_log_events_above(tx, shorter, bound);
        let before = log_events(tx, shorter);
        let last = logs[logs.len() - 1];
        assert(logs.last() == last);
        assert forall|k: int| 0 <= k < log_events(tx, logs).len() implies log_events(
            tx,
            logs,
        )[k].ordinal() > bound by {
            match mapped(last.log, tx, last.caller@) {
                Some(event) => {
                    law_event_keeps_ordinal(last.log, tx, last.caller@);
                    if k < before.len() {
                        assert(before.push(event)[k] == before[k]);
                    }
                },
                None => {},
            }
        }
    }
}

/// An event whose ordinal is smaller than all those of a sequence goes in front.
pub proof fn lemma_insert_in_front(events: Seq<EventRecord>, ordinal: u64)
    requires
        forall|k: int| 0 <= k < events.len() ==> events[k].ordinal() > ordinal,
    ensures
        insert_position(events, ordinal) == 0,
    decreases events.len(),
{
    if events.len() > 0 {
        let shorter = events.drop_last();
        assert forall|k: int| 0 <= k < shorter.len() implies shorter[k].ordinal() > ordinal by {
            assert(shorter[k] == events[k]);
        }
        lemma_insert_in_front(shorter, ordinal);
        assert(events.last() == events[events.len() - 1]);
    }
}

/// Logs whose ordinals grow in the order of discovery give the same events, and
/// so the same batch, whether they are mapped in that order, or mapped in the
/// reverse order and the results then merged by ordinal.
pub proof fn law_merge_restores_discovery_order(tx: TransactionContext, logs: Seq<LogWithCaller>)
    requires
        forall|i: int, j: int|
            0 <= i < j < logs.len() ==> logs[i].log.ordinal < logs[j].log.ordinal,
    ensures
        sorted_by_ordinal(log_events(tx, logs.reverse())) == log_events(tx, logs),
        batch_of(sorted_by_ordinal(log_events(tx, logs.reverse()))) == batch_of(
            log_events(tx, logs),
        ),
    decreases logs.len(),
{
    if logs.len() == 0 {
        assert(logs.reverse() =~= logs);
    } else {
        let rest = logs.skip(1);
        let backwards = logs.reverse();
        assert(backwards.drop_last() =~= rest.reverse());
        assert(backwards.last() == logs[0]);
        assert forall|i: int, j: int| 0 <= i < j < rest.len() implies rest[i].log.ordinal
            < rest[j].log.ordinal by {
            assert(rest[i] == logs[i + 1] && rest[j] == logs[j + 1]);
        }
        law_merge_restores_discovery_order(tx, rest);
        lemma_log_events_front(tx, logs);
        let tail = log_events(tx, rest);
        match mapped(logs[0].log, tx, logs[0].caller@) {
            Some(event) => {
                let mixed = log_events(tx, rest.reverse());
                assert(log_events(tx, backwards) == mixed.push(event));
                assert(mixed.push(event).drop_last() =~= mixed);
                assert forall|i: int| 0 <= i < rest.len() implies rest[i].log.ordinal
                    > logs[0].log.ordinal by {
                    assert(rest[i] == logs[i + 1]);
                }
                lemma_log_events_above(tx, rest, logs[0].log.ordinal);
                lemma_insert_in_front(tail, event.ordinal());
                assert(tail.insert(0, event) =~= seq![event] + tail);
            },
            None => {},
        }
    }
}

} // verus!
