//! Counting the events of a batch: each event is counted once, in the
//! bundle of its origin.

use vstd::prelude::*;
use crate::events::NetAddress;
use crate::events::PushedEvent;
use crate::gateways::KnownGateways;
use crate::geolocation::origin_of_address;
use crate::geolocation::CountryDb;
use crate::geolocation::SpecCountryAnswer;
use crate::metrics::Metrics;
use crate::registry::landing_key;
use crate::registry::recorded;
use crate::registry::MetricsKey;
use crate::registry::MetricsMap;
use crate::registry::PublicGatewayStatus;
use crate::registry::SpecMetricsKey;
use crate::totals::batch_total;
use crate::totals::counters_grow_by_the_batch;
use crate::totals::counters_total;
use crate::totals::events_counted;
use crate::totals::every_event_is_counted_once;
use crate::totals::recorded_counts_one_event;

verus! {

/// The overlay origin of a peer, given the gateways.
pub open spec fn status_of(gateways: Set<Seq<char>>, peer: Seq<char>) -> PublicGatewayStatus {
    if gateways.contains(peer) {
        PublicGatewayStatus::Gateway
    } else {
        PublicGatewayStatus::NonGateway
    }
}

/// The key of an event, given what the country database answers and which
/// peers are gateways.
pub open spec fn key_of(
    answers: Map<NetAddress, SpecCountryAnswer>,
    gateways: Set<Seq<char>>,
    event: PushedEvent,
) -> SpecMetricsKey {
    SpecMetricsKey {
        geo_origin: origin_of_address(answers, event.origin()),
        overlay_origin: status_of(gateways, event.peer@),
    }
}

/// The bundles after a batch of events has been counted, one event after
/// the other.
pub open spec fn dispatched(
    held: Map<SpecMetricsKey, Metrics>,
    answers: Map<NetAddress, SpecCountryAnswer>,
    gateways: Set<Seq<char>>,
    events: Seq<PushedEvent>,
) -> Map<SpecMetricsKey, Metrics>
    decreases events.len(),
{
    if events.len() == 0 {
        held
    } else {
        recorded(
            dispatched(held, answers, gateways, events.drop_last()),
            key_of(answers, gateways, events.last()),
            events.last(),
        )
    }
}

/// Works out the key of an event: its origin by the country database, its
/// overlay origin by the set of gateways as it is now.
pub fn metrics_key(db: &CountryDb, gateways: &KnownGateways, event: &PushedEvent) -> (key:
    MetricsKey)
    ensures
        key@ == key_of(db@, gateways@, *event),
{
    MetricsKey {
        geo_origin: db.geolocate_event(event),
        overlay_origin: gateways.status_of(event.peer.as_str()),
    }
}

/// Counts one event in the bundle of its key. An event whose key has no
/// bundle and cannot get one is counted in the error bundle of its overlay
/// origin; the result says whether that happened.
pub fn handle_event(
    metrics: &mut MetricsMap,
    db: &CountryDb,
    gateways: &KnownGateways,
    event: &PushedEvent,
) -> (fell_back: bool)
    requires
        old(metrics).wf(),
    ensures
        final(metrics).wf(),
        final(metrics)@ == recorded(old(metrics)@, key_of(db@, gateways@, *event), *event),
        fell_back == (landing_key(old(metrics)@, key_of(db@, gateways@, *event)) != key_of(
            db@,
            gateways@,
            *event,
        )),
        events_counted(old(metrics)@) < u64::MAX ==> events_counted(final(metrics)@)
            == events_counted(old(metrics)@) + 1,
{
    proof {
        metrics.bundles_are_constructible();
        if events_counted(metrics@) < u64::MAX {
            recorded_counts_one_event(metrics@, key_of(db@, gateways@, *event), *event);
        }
    }
    let key = metrics_key(db, gateways, event);
    metrics.record_event(&key, event)
}

/// The events of a batch that are counted in an error bundle, given the
/// bundles at the start of the batch.
pub open spec fn fallen_back(
    held: Map<SpecMetricsKey, Metrics>,
    answers: Map<NetAddress, SpecCountryAnswer>,
    gateways: Set<Seq<char>>,
    events: Seq<PushedEvent>,
) -> nat
    decreases events.len(),
{
    if events.len() == 0 {
        0
    } else {
        let key = key_of(answers, gateways, events.last());
        fallen_back(held, answers, gateways, events.drop_last()) + (if landing_key(
            dispatched(held, answers, gateways, events.drop_last()),
            key,
        ) != key {
            1nat
        } else {
            0nat
        })
    }
}

/// Counts the events of a batch, in the order in which they came. Says how
/// many of them were counted in an error bundle.
///
/// Every event is counted exactly once: unless a counter reaches its
/// ceiling, the bundles together have counted as many events more as the
/// batch holds, and all their counters together have grown by the
/// increments of the batch.
pub fn handle_received_events(
    metrics: &mut MetricsMap,
    db: &CountryDb,
    gateways: &KnownGateways,
    events: &Vec<PushedEvent>,
) -> (fell_back: usize)
    requires
        old(metrics).wf(),
    ensures
        final(metrics).wf(),
        final(metrics)@ == dispatched(old(metrics)@, db@, gateways@, events@),
        fell_back == fallen_back(old(metrics)@, db@, gateways@, events@),
        events_counted(old(metrics)@) + events@.len() <= u64::MAX ==> events_counted(
            final(metrics)@,
        ) == events_counted(old(metrics)@) + events@.len(),
        counters_total(old(metrics)@) + batch_total(events@) <= u64::MAX ==> counters_total(
            final(metrics)@,
        ) == counters_total(old(metrics)@) + batch_total(events@),
{
    let mut i: usize = 0;
    let mut fell_back: usize = 0;
    proof {
        assert(events@.take(0) =~= Seq::<PushedEvent>::empty());
    }
    while i < events.len()
        invariant
            i <= events.len(),
            fell_back <= i,
            metrics.wf(),
            metrics@ == dispatched(old(metrics)@, db@, gateways@, events@.take(i as int)),
            fell_back == fallen_back(old(metrics)@, db@, gateways@, events@.take(i as int)),
        decreases events.len() - i,
    {
        proof {
            let next = events@.take(i + 1);
            assert(next.drop_last() =~= events@.take(i as int));
            assert(next.last() == events@[i as int]);
        }
        if handle_event(metrics, db, gateways, &events[i]) {
            fell_back += 1;
        }
        i += 1;
    }
    proof {
        assert(events@.take(i as int) =~= events@);
        old(metrics).bundles_are_constructible();
        if events_counted(old(metrics)@) + events@.len() <= u64::MAX {
            every_event_is_counted_once(old(metrics)@, db@, gateways@, events@);
        }
        if counters_total(old(metrics)@) + batch_total(events@) <= u64::MAX {
            counters_grow_by_the_batch(old(metrics)@, db@, gateways@, events@);
        }
    }
    fell_back
}

} // verus!
