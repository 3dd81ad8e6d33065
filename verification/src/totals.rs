//! Sums over all bundles of a source, and what a batch of events does to
//! them: no event is dropped and none is counted twice.

use vstd::prelude::*;
use crate::dispatch::dispatched;
use crate::dispatch::fallen_back;
use crate::dispatch::key_of;
use crate::events::NetAddress;
use crate::events::PushedEvent;
use crate::geolocation::SpecCountryAnswer;
use crate::metrics::advanced;
use crate::metrics::Increments;
use crate::metrics::Metrics;
use crate::registry::bundle_or_zero;
use crate::registry::landing_key;
use crate::registry::recorded;
use crate::registry::PublicGatewayStatus;
use crate::registry::SpecMetricsKey;

verus! {

/// The sum of a measure over all bundles.
pub open spec fn sum_over(held: Map<SpecMetricsKey, Metrics>, measure: spec_fn(Metrics) -> nat) -> nat
    decreases held.dom().len(),
    when held.dom().finite()
{
    if held.dom().len() == 0 {
        0
    } else {
        let key = held.dom().choose();
        measure(held[key]) + sum_over(held.remove(key), measure)
    }
}

/// The number of events that all bundles together have counted.
pub open spec fn events_counted(held: Map<SpecMetricsKey, Metrics>) -> nat {
    sum_over(held, |m: Metrics| m.events())
}

/// All counters of all bundles added up.
pub open spec fn counters_total(held: Map<SpecMetricsKey, Metrics>) -> nat {
    sum_over(held, |m: Metrics| m.total())
}

/// All increments of a batch of events added up.
pub open spec fn batch_total(events: Seq<PushedEvent>) -> nat
    decreases events.len(),
{
    if events.len() == 0 {
        0
    } else {
        batch_total(events.drop_last()) + Increments::of_event(events.last()).total()
    }
}

/// The sum over all bundles is the measure of any one of them plus the sum
/// over the others.
pub proof fn sum_over_split(
    held: Map<SpecMetricsKey, Metrics>,
    measure: spec_fn(Metrics) -> nat,
    key: SpecMetricsKey,
)
    requires
        held.dom().finite(),
        held.dom().contains(key),
    ensures
        sum_over(held, measure) == measure(held[key]) + sum_over(held.remove(key), measure),
    decreases held.dom().len(),
{
    let chosen = held.dom().choose();
    if chosen != key {
        sum_over_split(held.remove(chosen), measure, key);
        sum_over_split(held.remove(key), measure, chosen);
        assert(held.remove(chosen).remove(key) =~= held.remove(key).remove(chosen));
    }
}

/// Where the measure of every bundle is zero, so is the sum.
pub proof fn sum_over_nothing(
    held: Map<SpecMetricsKey, Metrics>,
    measure: spec_fn(Metrics) -> nat,
)
    requires
        held.dom().finite(),
        forall|key: SpecMetricsKey| held.dom().contains(key) ==> measure(#[trigger] held[key]) == 0,
    ensures
        sum_over(held, measure) == 0,
    decreases held.dom().len(),
{
    if held.dom().len() > 0 {
        sum_over_nothing(held.remove(held.dom().choose()), measure);
    }
}

/// Bundles that are all at zero have counted no event, and their counters
/// add up to nothing.
pub proof fn zero_bundles_have_counted_nothing(held: Map<SpecMetricsKey, Metrics>)
    requires
        held.dom().finite(),
        forall|key: SpecMetricsKey| held.dom().contains(key) ==> #[trigger] held[key]
            == Metrics::zero(),
    ensures
        events_counted(held) == 0,
        counters_total(held) == 0,
{
    sum_over_nothing(held, |m: Metrics| m.events());
    sum_over_nothing(held, |m: Metrics| m.total());
}

/// Putting a bundle under a key changes the sum by the measure of that
/// bundle, less the measure of the bundle that was there.
pub proof fn sum_over_insert(
    held: Map<SpecMetricsKey, Metrics>,
    measure: spec_fn(Metrics) -> nat,
    key: SpecMetricsKey,
    bundle: Metrics,
)
    requires
        held.dom().finite(),
    ensures
        held.insert(key, bundle).dom().finite(),
        sum_over(held.insert(key, bundle), measure) + (if held.dom().contains(key) {
            measure(held[key])
        } else {
            0
        }) == sum_over(held, measure) + measure(bundle),
{
    let put = held.insert(key, bundle);
    sum_over_split(put, measure, key);
    assert(put.remove(key) =~= held.remove(key));
    if held.dom().contains(key) {
        sum_over_split(held, measure, key);
    } else {
        assert(held.remove(key) =~= held);
    }
}

/// One event makes the number of counted events grow by one, whichever
/// bundle it lands in.
pub proof fn recorded_counts_one_event(
    held: Map<SpecMetricsKey, Metrics>,
    key: SpecMetricsKey,
    event: PushedEvent,
)
    requires
        held.dom().finite(),
        events_counted(held) < u64::MAX,
    ensures
        recorded(held, key, event).dom().finite(),
        events_counted(recorded(held, key, event)) == events_counted(held) + 1,
{
    let measure = |m: Metrics| m.events();
    let landing = landing_key(held, key);
    let before = bundle_or_zero(held, landing);
    let after = before.plus(Increments::of_event(event));
    if held.dom().contains(landing) {
        sum_over_split(held, measure, landing);
    }
    assert(measure(after) == measure(before) + 1);
    sum_over_insert(held, measure, landing, after);
}

/// One event makes the sum of all counters grow by the increments of that
/// event, whichever bundle it lands in.
pub proof fn recorded_adds_increments(
    held: Map<SpecMetricsKey, Metrics>,
    key: SpecMetricsKey,
    event: PushedEvent,
)
    requires
        held.dom().finite(),
        counters_total(held) + Increments::of_event(event).total() <= u64::MAX,
    ensures
        recorded(held, key, event).dom().finite(),
        counters_total(recorded(held, key, event)) == counters_total(held) + Increments::of_event(
            event,
        ).total(),
{
    let measure = |m: Metrics| m.total();
    let landing = landing_key(held, key);
    let before = bundle_or_zero(held, landing);
    let after = before.plus(Increments::of_event(event));
    if held.dom().contains(landing) {
        sum_over_split(held, measure, landing);
    }
    assert(measure(after) == measure(before) + Increments::of_event(event).total());
    sum_over_insert(held, measure, landing, after);
}

/// Every event of a batch is counted exactly once: after the batch, the
/// bundles of the source together have counted as many events more as the
/// batch holds. This holds whatever the country database answers and
/// whichever peers are gateways, also for the events that land in an error
/// bundle. It is stated for counters that the batch does not drive to
/// their ceiling.
pub proof fn every_event_is_counted_once(
    held: Map<SpecMetricsKey, Metrics>,
    answers: Map<NetAddress, SpecCountryAnswer>,
    gateways: Set<Seq<char>>,
    events: Seq<PushedEvent>,
)
    requires
        held.dom().finite(),
        events_counted(held) + events.len() <= u64::MAX,
    ensures
        dispatched(held, answers, gateways, events).dom().finite(),
        events_counted(dispatched(held, answers, gateways, events)) == events_counted(held)
            + events.len(),
    decreases events.len(),
{
    if events.len() > 0 {
        every_event_is_counted_once(held, answers, gateways, events.drop_last());
        recorded_counts_one_event(
            dispatched(held, answers, gateways, events.drop_last()),
            key_of(answers, gateways, events.last()),
            events.last(),
        );
    }
}

/// After a batch, all counters of all bundles together have grown by the
/// increments of the events of the batch, no more and no less. It is stated
/// for counters that the batch does not drive to their ceiling.
pub proof fn counters_grow_by_the_batch(
    held: Map<SpecMetricsKey, Metrics>,
    answers: Map<NetAddress, SpecCountryAnswer>,
    gateways: Set<Seq<char>>,
    events: Seq<PushedEvent>,
)
    requires
        held.dom().finite(),
        counters_total(held) + batch_total(events) <= u64::MAX,
    ensures
        dispatched(held, answers, gateways, events).dom().finite(),
        counters_total(dispatched(held, answers, gateways, events)) == counters_total(held)
            + batch_total(events),
    decreases events.len(),
{
    if events.len() > 0 {
        counters_grow_by_the_batch(held, answers, gateways, events.drop_last());
        recorded_adds_increments(
            dispatched(held, answers, gateways, events.drop_last()),
            key_of(answers, gateways, events.last()),
            events.last(),
        );
    }
}

/// A batch of events that each advance one counter only, such as connects
/// and disconnects, has as many increments as events.
pub proof fn plain_batch_total(events: Seq<PushedEvent>)
    requires
        forall|i: int|
            0 <= i < events.len() ==> (#[trigger] Increments::of_event(events[i])).total() == 1,
    ensures
        batch_total(events) == events.len(),
    decreases events.len(),
{
    if events.len() > 0 {
        plain_batch_total(events.drop_last());
    }
}

/// Counters only ever grow, and bundles are never removed: after a batch,
/// every bundle that was there is there still, with no counter below what
/// it was.
pub proof fn counters_never_fall(
    held: Map<SpecMetricsKey, Metrics>,
    answers: Map<NetAddress, SpecCountryAnswer>,
    gateways: Set<Seq<char>>,
    events: Seq<PushedEvent>,
    key: SpecMetricsKey,
)
    requires
        held.dom().contains(key),
    ensures
        dispatched(held, answers, gateways, events).dom().contains(key),
        dispatched(held, answers, gateways, events)[key].at_least(held[key]),
    decreases events.len(),
{
    if events.len() > 0 {
        counters_never_fall(held, answers, gateways, events.drop_last(), key);
    }
}

/// Advancing a counter twice is advancing it once by both increments.
proof fn advanced_twice(count: u64, a: nat, b: nat)
    ensures
        advanced(advanced(count, a), b) == advanced(count, a + b),
{
}

/// Two lots of increments can be added to a bundle in either order.
proof fn plus_commutes(bundle: Metrics, a: Increments, b: Increments)
    ensures
        bundle.plus(a).plus(b) == bundle.plus(b).plus(a),
{
    advanced_twice(bundle.num_connected, a.connected, b.connected);
    advanced_twice(bundle.num_connected, b.connected, a.connected);
    advanced_twice(bundle.num_disconnected, a.disconnected, b.disconnected);
    advanced_twice(bundle.num_disconnected, b.disconnected, a.disconnected);
    advanced_twice(bundle.num_messages, a.messages, b.messages);
    advanced_twice(bundle.num_messages, b.messages, a.messages);
    advanced_twice(bundle.num_wantlists_full, a.wantlists_full, b.wantlists_full);
    advanced_twice(bundle.num_wantlists_full, b.wantlists_full, a.wantlists_full);
    advanced_twice(
        bundle.num_wantlists_incremental,
        a.wantlists_incremental,
        b.wantlists_incremental,
    );
    advanced_twice(
        bundle.num_wantlists_incremental,
        b.wantlists_incremental,
        a.wantlists_incremental,
    );
    advanced_twice(bundle.num_entries_cancel, a.entries_cancel, b.entries_cancel);
    advanced_twice(bundle.num_entries_cancel, b.entries_cancel, a.entries_cancel);
    advanced_twice(bundle.num_entries_want_block, a.entries_want_block, b.entries_want_block);
    advanced_twice(bundle.num_entries_want_block, b.entries_want_block, a.entries_want_block);
    advanced_twice(
        bundle.num_entries_want_block_send_dont_have,
        a.entries_want_block_send_dont_have,
        b.entries_want_block_send_dont_have,
    );
    advanced_twice(
        bundle.num_entries_want_block_send_dont_have,
        b.entries_want_block_send_dont_have,
        a.entries_want_block_send_dont_have,
    );
    advanced_twice(bundle.num_entries_want_have, a.entries_want_have, b.entries_want_have);
    advanced_twice(bundle.num_entries_want_have, b.entries_want_have, a.entries_want_have);
    advanced_twice(
        bundle.num_entries_want_have_send_dont_have,
        a.entries_want_have_send_dont_have,
        b.entries_want_have_send_dont_have,
    );
    advanced_twice(
        bundle.num_entries_want_have_send_dont_have,
        b.entries_want_have_send_dont_have,
        a.entries_want_have_send_dont_have,
    );
    advanced_twice(bundle.num_blocks, a.blocks, b.blocks);
    advanced_twice(bundle.num_blocks, b.blocks, a.blocks);
    advanced_twice(bundle.num_block_presence_have, a.block_presence_have, b.block_presence_have);
    advanced_twice(bundle.num_block_presence_have, b.block_presence_have, a.block_presence_have);
    advanced_twice(
        bundle.num_block_presence_dont_have,
        a.block_presence_dont_have,
        b.block_presence_dont_have,
    );
    advanced_twice(
        bundle.num_block_presence_dont_have,
        b.block_presence_dont_have,
        a.block_presence_dont_have,
    );
}

/// The bundles after increments have been added to the bundle under a
/// key, which starts at zero if it is not there.
spec fn raised(
    held: Map<SpecMetricsKey, Metrics>,
    key: SpecMetricsKey,
    by: Increments,
) -> Map<SpecMetricsKey, Metrics> {
    held.insert(key, bundle_or_zero(held, key).plus(by))
}

proof fn raising_commutes(
    held: Map<SpecMetricsKey, Metrics>,
    a: SpecMetricsKey,
    by_a: Increments,
    b: SpecMetricsKey,
    by_b: Increments,
)
    ensures
        raised(raised(held, a, by_a), b, by_b) == raised(raised(held, b, by_b), a, by_a),
{
    if a == b {
        plus_commutes(bundle_or_zero(held, a), by_a, by_b);
    }
    assert(raised(raised(held, a, by_a), b, by_b) =~= raised(raised(held, b, by_b), a, by_a));
}

/// The order of two events does not matter to the counters: counting one
/// and then the other gives the same bundles as counting them the other
/// way round.
pub proof fn recording_commutes(
    held: Map<SpecMetricsKey, Metrics>,
    first_key: SpecMetricsKey,
    first: PushedEvent,
    second_key: SpecMetricsKey,
    second: PushedEvent,
)
    ensures
        recorded(recorded(held, first_key, first), second_key, second) == recorded(
            recorded(held, second_key, second),
            first_key,
            first,
        ),
{
    let a = landing_key(held, first_key);
    let b = landing_key(held, second_key);
    let by_a = Increments::of_event(first);
    let by_b = Increments::of_event(second);
    let after_first = recorded(held, first_key, first);
    let after_second = recorded(held, second_key, second);
    assert(after_first == raised(held, a, by_a));
    assert(after_second == raised(held, b, by_b));
    assert(landing_key(after_first, second_key) == b);
    assert(landing_key(after_second, first_key) == a);
    assert(recorded(after_first, second_key, second) == raised(after_first, b, by_b));
    assert(recorded(after_second, first_key, first) == raised(after_second, a, by_a));
    raising_commutes(held, a, by_a, b, by_b);
}

/// The order of the events of a batch does not matter to the counters:
/// a batch in which two neighbours have changed places gives the same
/// bundles.
pub proof fn neighbours_may_change_places(
    held: Map<SpecMetricsKey, Metrics>,
    answers: Map<NetAddress, SpecCountryAnswer>,
    gateways: Set<Seq<char>>,
    events: Seq<PushedEvent>,
    at: int,
)
    requires
        0 <= at,
        at + 1 < events.len(),
    ensures
        dispatched(
            held,
            answers,
            gateways,
            events.update(at, events[at + 1]).update(at + 1, events[at]),
        ) == dispatched(held, answers, gateways, events),
    decreases events.len(),
{
    let swapped = events.update(at, events[at + 1]).update(at + 1, events[at]);
    if at + 2 == events.len() {
        let front = events.drop_last().drop_last();
        assert(swapped.drop_last().drop_last() =~= front);
        assert(swapped.drop_last().last() == events[at + 1]);
        assert(swapped.last() == events[at]);
        assert(events.drop_last().last() == events[at]);
        assert(events.last() == events[at + 1]);
        let base = dispatched(held, answers, gateways, front);
        assert(dispatched(held, answers, gateways, events.drop_last()) == recorded(
            base,
            key_of(answers, gateways, events[at]),
            events[at],
        ));
        assert(dispatched(held, answers, gateways, swapped.drop_last()) == recorded(
            base,
            key_of(answers, gateways, events[at + 1]),
            events[at + 1],
        ));
        recording_commutes(
            dispatched(held, answers, gateways, front),
            key_of(answers, gateways, events[at]),
            events[at],
            key_of(answers, gateways, events[at + 1]),
            events[at + 1],
        );
    } else {
        let front = events.drop_last();
        neighbours_may_change_places(held, answers, gateways, front, at);
        assert(swapped.drop_last() =~= front.update(at, front[at + 1]).update(at + 1, front[at]));
        assert(swapped.last() == events.last());
    }
}

/// The number of events that the two error bundles have counted.
pub open spec fn error_events(held: Map<SpecMetricsKey, Metrics>) -> nat {
    held[SpecMetricsKey::error(PublicGatewayStatus::Gateway)].events() + held[SpecMetricsKey::error(
        PublicGatewayStatus::NonGateway,
    )].events()
}

/// The error bundles count the events for which no bundle could be made,
/// and no others: after a batch, they have counted as many events more as
/// fell back to them. It is stated for counters that the batch does not
/// drive to their ceiling.
pub proof fn error_bundles_count_what_fell_back(
    held: Map<SpecMetricsKey, Metrics>,
    answers: Map<NetAddress, SpecCountryAnswer>,
    gateways: Set<Seq<char>>,
    events: Seq<PushedEvent>,
)
    requires
        held.dom().contains(SpecMetricsKey::error(PublicGatewayStatus::Gateway)),
        held.dom().contains(SpecMetricsKey::error(PublicGatewayStatus::NonGateway)),
        error_events(held) + events.len() <= u64::MAX,
    ensures
        fallen_back(held, answers, gateways, events) <= events.len(),
        error_events(dispatched(held, answers, gateways, events)) == error_events(held)
            + fallen_back(held, answers, gateways, events),
    decreases events.len(),
{
    if events.len() > 0 {
        let front = events.drop_last();
        let last = events.last();
        let before = dispatched(held, answers, gateways, front);
        let key = key_of(answers, gateways, last);
        error_bundles_count_what_fell_back(held, answers, gateways, front);
        counters_never_fall(
            held,
            answers,
            gateways,
            front,
            SpecMetricsKey::error(PublicGatewayStatus::Gateway),
        );
        counters_never_fall(
            held,
            answers,
            gateways,
            front,
            SpecMetricsKey::error(PublicGatewayStatus::NonGateway),
        );
        assert(!(key.geo_origin is Error));
        let landing = landing_key(before, key);
        let by = Increments::of_event(last);
        assert(by.events() == 1);
        assert(dispatched(held, answers, gateways, events) == before.insert(
            landing,
            bundle_or_zero(before, landing).plus(by),
        ));
        if landing != key {
            assert(landing == SpecMetricsKey::error(key.overlay_origin));
            assert(bundle_or_zero(before, landing).plus(by).events() == before[landing].events()
                + 1);
        }
    }
}

} // verus!
