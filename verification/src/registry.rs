//! The bundles of counters of one source, by the origin of the traffic.

use vstd::prelude::*;
use crate::geolocation::Geolocation;
use crate::geolocation::SpecGeolocation;
use crate::geolocation::is_alpha2;
use crate::events::PushedEvent;
use crate::metrics::Increments;
use crate::metrics::Metrics;
use crate::totals::counters_total;
use crate::totals::events_counted;
use crate::totals::zero_bundles_have_counted_nothing;

verus! {

/// Whether a peer is a known public gateway.
#[derive(Clone, Copy, Debug, PartialEq, Eq, Hash, Structural)]
pub enum PublicGatewayStatus {
    Gateway,
    NonGateway,
}

impl PublicGatewayStatus {
    /// The name under which the counters of this overlay origin are shown.
    pub open spec fn label(self) -> Seq<char> {
        match self {
            PublicGatewayStatus::Gateway => "gateway"@,
            PublicGatewayStatus::NonGateway => "non-gateway"@,
        }
    }

    /// The name under which the counters of this overlay origin are shown.
    pub fn label_text(&self) -> (name: &'static str)
        ensures
            name@ == self.label(),
    {
        match self {
            PublicGatewayStatus::Gateway => "gateway",
            PublicGatewayStatus::NonGateway => "non-gateway",
        }
    }
}

/// What a bundle of counters is kept for: a geographic origin and whether
/// the traffic came from a gateway.
#[derive(Clone, Debug, PartialEq, Eq, Hash)]
pub struct MetricsKey {
    pub geo_origin: Geolocation,
    pub overlay_origin: PublicGatewayStatus,
}

/// A key as a mathematical value.
pub struct SpecMetricsKey {
    pub geo_origin: SpecGeolocation,
    pub overlay_origin: PublicGatewayStatus,
}

impl View for MetricsKey {
    type V = SpecMetricsKey;

    open spec fn view(&self) -> SpecMetricsKey {
        SpecMetricsKey { geo_origin: self.geo_origin@, overlay_origin: self.overlay_origin }
    }
}

impl SpecMetricsKey {
    /// The key that stands in for the keys no bundle can be made for.
    pub open spec fn error(overlay_origin: PublicGatewayStatus) -> SpecMetricsKey {
        SpecMetricsKey { geo_origin: SpecGeolocation::Error, overlay_origin }
    }

    /// Whether a bundle can be made for this key.
    pub open spec fn constructible(self) -> bool {
        self.geo_origin.is_label()
    }
}

impl MetricsKey {
    /// Whether two keys are the same.
    pub fn same(&self, other: &MetricsKey) -> (b: bool)
        ensures
            b == (self@ == other@),
    {
        self.overlay_origin == other.overlay_origin && self.geo_origin.same(&other.geo_origin)
    }

    /// A copy of this key.
    pub fn duplicate(&self) -> (copy: MetricsKey)
        ensures
            copy@ == self@,
    {
        MetricsKey { geo_origin: self.geo_origin.duplicate(), overlay_origin: self.overlay_origin }
    }

    /// The key for a country, given by its code.
    pub fn country(code: &str, overlay_origin: PublicGatewayStatus) -> (key: MetricsKey)
        ensures
            key@ == (SpecMetricsKey {
                geo_origin: SpecGeolocation::Alpha2(code@),
                overlay_origin,
            }),
    {
        MetricsKey { geo_origin: Geolocation::Alpha2(code.to_owned()), overlay_origin }
    }
}

/// A key with its bundle.
struct Entry {
    key: MetricsKey,
    metrics: Metrics,
}

/// No two entries have the same key.
spec fn distinct_keys(entries: Seq<Entry>) -> bool {
    forall|i: int, j: int| 0 <= i < j < entries.len() ==> entries[i].key@ != entries[j].key@
}

/// Whether some entry has the key.
spec fn has_key(entries: Seq<Entry>, key: SpecMetricsKey) -> bool {
    exists|i: int| 0 <= i < entries.len() && entries[i].key@ == key
}

/// The bundles that a list of entries holds, by key.
spec fn bundles(entries: Seq<Entry>) -> Map<SpecMetricsKey, Metrics> {
    Map::new(
        |key: SpecMetricsKey| has_key(entries, key),
        |key: SpecMetricsKey|
            entries[choose|i: int| 0 <= i < entries.len() && entries[i].key@ == key].metrics,
    )
}

/// The key under which an event with key `key` is counted, given the
/// bundles that exist: its own, if that bundle exists or can be made, and
/// else the error key of its overlay origin.
pub open spec fn landing_key(
    held: Map<SpecMetricsKey, Metrics>,
    key: SpecMetricsKey,
) -> SpecMetricsKey {
    if held.dom().contains(key) || key.constructible() {
        key
    } else {
        SpecMetricsKey::error(key.overlay_origin)
    }
}

/// The bundle held under a key, or the zero bundle if there is none yet.
pub open spec fn bundle_or_zero(held: Map<SpecMetricsKey, Metrics>, key: SpecMetricsKey) -> Metrics {
    if held.dom().contains(key) {
        held[key]
    } else {
        Metrics::zero()
    }
}

/// The bundles after one more event with key `key` has been counted.
pub open spec fn recorded(
    held: Map<SpecMetricsKey, Metrics>,
    key: SpecMetricsKey,
    event: PushedEvent,
) -> Map<SpecMetricsKey, Metrics> {
    let landing = landing_key(held, key);
    held.insert(landing, bundle_or_zero(held, landing).plus(Increments::of_event(event)))
}

/// The countries that every map has bundles for from the start.
pub open spec fn popular_countries() -> Seq<Seq<char>> {
    seq!["US"@, "DE"@, "CN"@, "FR"@, "GB"@, "NL"@, "CA"@, "RU"@]
}

/// The origins that a map has bundles for from the start, given the
/// countries among them: those countries, the unknown origin and the error
/// origin.
pub open spec fn is_initial_origin(origin: SpecGeolocation, countries: Seq<Seq<char>>) -> bool {
    match origin {
        SpecGeolocation::Alpha2(code) => countries.contains(code),
        SpecGeolocation::Unknown => true,
        SpecGeolocation::Error => true,
    }
}

/// The bundles that a map starts with, given the countries among them: one
/// for each initial origin and each overlay origin, all counters at zero.
pub open spec fn initial_bundles(countries: Seq<Seq<char>>) -> Map<SpecMetricsKey, Metrics> {
    Map::new(
        |key: SpecMetricsKey| is_initial_origin(key.geo_origin, countries),
        |key: SpecMetricsKey| Metrics::zero(),
    )
}

proof fn bundles_at(entries: Seq<Entry>, i: int)
    requires
        distinct_keys(entries),
        0 <= i < entries.len(),
    ensures
        bundles(entries).dom().contains(entries[i].key@),
        bundles(entries)[entries[i].key@] == entries[i].metrics,
{
}

proof fn bundles_after_push(entries: Seq<Entry>, e: Entry)
    requires
        distinct_keys(entries),
        !has_key(entries, e.key@),
    ensures
        distinct_keys(entries.push(e)),
        bundles(entries.push(e)) == bundles(entries).insert(e.key@, e.metrics),
{
    let pushed = entries.push(e);
    let target = bundles(entries).insert(e.key@, e.metrics);
    assert(distinct_keys(pushed)) by {
        assert forall|i: int, j: int| 0 <= i < j < pushed.len() implies pushed[i].key@
            != pushed[j].key@ by {
            if j == entries.len() && pushed[i].key@ == e.key@ {
                assert(entries[i].key@ == e.key@);
            }
        }
    }
    assert forall|k: SpecMetricsKey| bundles(pushed).dom().contains(k) <==> target.dom().contains(
        k,
    ) by {
        if has_key(pushed, k) {
            let j = choose|j: int| 0 <= j < pushed.len() && pushed[j].key@ == k;
            if j < entries.len() {
                assert(entries[j].key@ == k);
            }
        }
        if has_key(entries, k) {
            let j = choose|j: int| 0 <= j < entries.len() && entries[j].key@ == k;
            assert(pushed[j].key@ == k);
        }
        if k == e.key@ {
            assert(pushed[entries.len() as int].key@ == k);
        }
    }
    assert forall|k: SpecMetricsKey| bundles(pushed).dom().contains(k) implies bundles(pushed)[k]
        == target[k] by {
        let j = choose|j: int| 0 <= j < pushed.len() && pushed[j].key@ == k;
        bundles_at(pushed, j);
        if j < entries.len() {
            bundles_at(entries, j);
        }
    }
    assert(bundles(pushed) =~= target);
}

proof fn bundles_after_update(entries: Seq<Entry>, i: int, e: Entry)
    requires
        distinct_keys(entries),
        0 <= i < entries.len(),
        e.key@ == entries[i].key@,
    ensures
        distinct_keys(entries.update(i, e)),
        bundles(entries.update(i, e)) == bundles(entries).insert(e.key@, e.metrics),
{
    let updated = entries.update(i, e);
    let target = bundles(entries).insert(e.key@, e.metrics);
    assert forall|k: SpecMetricsKey| bundles(updated).dom().contains(k) <==> target.dom().contains(
        k,
    ) by {
        if has_key(updated, k) {
            let j = choose|j: int| 0 <= j < updated.len() && updated[j].key@ == k;
            assert(entries[j].key@ == k);
        }
        if has_key(entries, k) {
            let j = choose|j: int| 0 <= j < entries.len() && entries[j].key@ == k;
            assert(updated[j].key@ == k);
        }
        if k == e.key@ {
            assert(updated[i].key@ == k);
        }
    }
    assert forall|k: SpecMetricsKey| bundles(updated).dom().contains(k) implies bundles(updated)[k]
        == target[k] by {
        let j = choose|j: int| 0 <= j < updated.len() && updated[j].key@ == k;
        bundles_at(updated, j);
        if j != i {
            bundles_at(entries, j);
        }
    }
    assert(bundles(updated) =~= target);
}

/// The bundles of one source. There is always a bundle under the error key
/// of either overlay origin, so every event has a bundle to be counted in.
pub struct MetricsMap {
    entries: Vec<Entry>,
}

impl View for MetricsMap {
    type V = Map<SpecMetricsKey, Metrics>;

    closed spec fn view(&self) -> Map<SpecMetricsKey, Metrics> {
        bundles(self.entries@)
    }
}

impl MetricsMap {
    /// What holds of every map: a key has one bundle, and both error keys
    /// have theirs.
    pub closed spec fn wf(&self) -> bool {
        &&& distinct_keys(self.entries@)
        &&& has_key(self.entries@, SpecMetricsKey::error(PublicGatewayStatus::Gateway))
        &&& has_key(self.entries@, SpecMetricsKey::error(PublicGatewayStatus::NonGateway))
        &&& forall|i: int|
            0 <= i < self.entries@.len() ==> (#[trigger] self.entries@[i]).key@.constructible()
    }

    /// Both error bundles exist in every map, so a key for which no bundle
    /// can be made always has one to land in.
    pub proof fn error_bundles_exist(&self)
        requires
            self.wf(),
        ensures
            forall|s: PublicGatewayStatus| #[trigger]
                self@.dom().contains(SpecMetricsKey::error(s)),
    {
        assert forall|s: PublicGatewayStatus| #[trigger]
            self@.dom().contains(SpecMetricsKey::error(s)) by {
            match s {
                PublicGatewayStatus::Gateway => {
                    assert(has_key(self.entries@, SpecMetricsKey::error(s)));
                },
                PublicGatewayStatus::NonGateway => {
                    assert(has_key(self.entries@, SpecMetricsKey::error(s)));
                },
            }
        }
    }

    /// Every bundle of a map is one that can be made: a key for which none
    /// can be made has none.
    pub proof fn bundles_are_constructible(&self)
        requires
            self.wf(),
        ensures
            forall|key: SpecMetricsKey| self@.dom().contains(key) ==> key.constructible(),
            self@.dom().finite(),
    {
        assert forall|key: SpecMetricsKey| self@.dom().contains(key) implies key.constructible() by {
            let i = choose|i: int| 0 <= i < self.entries@.len() && self.entries@[i].key@ == key;
            assert(self.entries@[i].key@.constructible());
        }
        lemma_bundles_len(self.entries@);
    }

    /// The map that holds the two error bundles and nothing else, all
    /// counters at zero.
    pub fn new() -> (map: MetricsMap)
        ensures
            map.wf(),
            map@ == Map::<SpecMetricsKey, Metrics>::empty().insert(
                SpecMetricsKey::error(PublicGatewayStatus::Gateway),
                Metrics::zero(),
            ).insert(SpecMetricsKey::error(PublicGatewayStatus::NonGateway), Metrics::zero()),
    {
        let mut entries: Vec<Entry> = Vec::new();
        let first = Entry {
            key: MetricsKey {
                geo_origin: Geolocation::Error,
                overlay_origin: PublicGatewayStatus::Gateway,
            },
            metrics: Metrics::new(),
        };
        let second = Entry {
            key: MetricsKey {
                geo_origin: Geolocation::Error,
                overlay_origin: PublicGatewayStatus::NonGateway,
            },
            metrics: Metrics::new(),
        };
        proof {
            assert(bundles(entries@) =~= Map::<SpecMetricsKey, Metrics>::empty());
            bundles_after_push(entries@, first);
            bundles_after_push(entries@.push(first), second);
        }
        entries.push(first);
        entries.push(second);
        let map = MetricsMap { entries };
        proof {
            assert(map.entries@[0].key@ == SpecMetricsKey::error(PublicGatewayStatus::Gateway));
            assert(map.entries@[1].key@ == SpecMetricsKey::error(PublicGatewayStatus::NonGateway));
        }
        map
    }

    /// Where a key stands among the entries, if it does.
    fn position(&self, key: &MetricsKey) -> (at: Option<usize>)
        ensures
            match at {
                Some(i) => i < self.entries@.len() && self.entries@[i as int].key@ == key@,
                None => !has_key(self.entries@, key@),
            },
    {
        let mut i: usize = 0;
        while i < self.entries.len()
            invariant
                i <= self.entries.len(),
                forall|j: int| 0 <= j < i ==> self.entries@[j].key@ != key@,
            decreases self.entries.len() - i,
        {
            if self.entries[i].key.same(key) {
                return Some(i);
            }
            i += 1;
        }
        None
    }

    /// The number of bundles.
    pub fn len(&self) -> (n: usize)
        requires
            self.wf(),
        ensures
            n == self@.dom().len(),
            self@.dom().finite(),
            n >= 2,
    {
        proof {
            self.lemma_len();
        }
        self.entries.len()
    }

    proof fn lemma_len(&self)
        requires
            self.wf(),
        ensures
            self@.dom().finite(),
            self@.dom().len() == self.entries@.len(),
            self.entries@.len() >= 2,
    {
        lemma_bundles_len(self.entries@);
        let i = choose|i: int|
            0 <= i < self.entries@.len() && self.entries@[i].key@ == SpecMetricsKey::error(
                PublicGatewayStatus::Gateway,
            );
        let j = choose|j: int|
            0 <= j < self.entries@.len() && self.entries@[j].key@ == SpecMetricsKey::error(
                PublicGatewayStatus::NonGateway,
            );
        assert(i != j);
    }

    /// The bundle in which events with key `key` are counted. If there is
    /// none for the key yet, one is made, with all counters at zero; if none
    /// can be made, the error bundle of the key's overlay origin is given,
    /// and the map stays as it was.
    pub fn get_or_create(&mut self, key: &MetricsKey) -> (bundle: &mut Metrics)
        requires
            old(self).wf(),
        ensures
            final(self).wf(),
            *bundle == bundle_or_zero(old(self)@, landing_key(old(self)@, key@)),
            final(self)@ == old(self)@.insert(landing_key(old(self)@, key@), *final(bundle)),
            !key@.constructible() ==> {
                &&& landing_key(old(self)@, key@) == SpecMetricsKey::error(key.overlay_origin)
                &&& *bundle == old(self)@[SpecMetricsKey::error(key.overlay_origin)]
                &&& final(self)@.dom() == old(self)@.dom()
            },
    {
        proof {
            old(self).bundles_are_constructible();
            old(self).error_bundles_exist();
            assert forall|m: Metrics|
                old(self)@.dom().contains(landing_key(old(self)@, key@)) implies (
            #[trigger] old(self)@.insert(landing_key(old(self)@, key@), m)).dom() == old(
                self,
            )@.dom() by {
                assert(old(self)@.insert(landing_key(old(self)@, key@), m).dom() =~= old(
                    self,
                )@.dom());
            }
        }
        let ghost before = self.entries@;
        let ghost landing = landing_key(old(self)@, key@);
        let found = self.position(key);
        let at: usize = match found {
            Some(i) => i,
            None => {
                if key.geo_origin.is_label() {
                    let fresh = Entry { key: key.duplicate(), metrics: Metrics::new() };
                    proof {
                        bundles_after_push(before, fresh);
                        assert(forall|k: SpecMetricsKey|
                            has_key(before, k) ==> before.push(fresh)[choose|i: int|
                                0 <= i < before.len() && before[i].key@ == k].key@ == k);
                    }
                    self.entries.push(fresh);
                    self.entries.len() - 1
                } else {
                    let fallback = MetricsKey {
                        geo_origin: Geolocation::Error,
                        overlay_origin: key.overlay_origin,
                    };
                    match self.position(&fallback) {
                        Some(i) => i,
                        None => {
                            proof {
                                assert(has_key(
                                    before,
                                    SpecMetricsKey::error(PublicGatewayStatus::Gateway),
                                ));
                                assert(has_key(
                                    before,
                                    SpecMetricsKey::error(PublicGatewayStatus::NonGateway),
                                ));
                                assert(false);
                            }
                            0
                        },
                    }
                }
            },
        };
        let ghost mid = self.entries@;
        proof {
            assert(distinct_keys(mid));
            assert(mid[at as int].key@ == landing);
            bundles_at(mid, at as int);
            assert(bundles(mid) =~= old(self)@.insert(landing, mid[at as int].metrics));
            assert(mid[at as int].metrics == bundle_or_zero(old(self)@, landing)) by {
                if found is Some {
                    bundles_at(before, at as int);
                }
            }
            assert forall|m: Metrics|
                #![trigger mid.update(at as int, Entry { key: mid[at as int].key, metrics: m })]
                {
                    let e = Entry { key: mid[at as int].key, metrics: m };
                    &&& forall|i: int|
                        0 <= i < mid.len() ==> (#[trigger] mid.update(
                            at as int,
                            e,
                        )[i]).key@.constructible()
                    &&& distinct_keys(mid.update(at as int, e))
                    &&& bundles(mid.update(at as int, e)) == old(self)@.insert(landing, m)
                    &&& has_key(
                        mid.update(at as int, e),
                        SpecMetricsKey::error(PublicGatewayStatus::Gateway),
                    )
                    &&& has_key(
                        mid.update(at as int, e),
                        SpecMetricsKey::error(PublicGatewayStatus::NonGateway),
                    )
                } by {
                let e = Entry { key: mid[at as int].key, metrics: m };
                bundles_after_update(mid, at as int, e);
                assert(bundles(mid).insert(landing, m) =~= old(self)@.insert(landing, m));
                lemma_keys_kept(mid, at as int, e, SpecMetricsKey::error(PublicGatewayStatus::Gateway));
                lemma_keys_kept(
                    mid,
                    at as int,
                    e,
                    SpecMetricsKey::error(PublicGatewayStatus::NonGateway),
                );
            }
        }
        &mut self.entries[at].metrics
    }

    /// Counts an event with key `key`, in the bundle that `get_or_create`
    /// gives for the key. Says whether that was the error bundle in place
    /// of a bundle that could not be made.
    pub fn record_event(&mut self, key: &MetricsKey, event: &PushedEvent) -> (fell_back: bool)
        requires
            old(self).wf(),
        ensures
            final(self).wf(),
            final(self)@ == recorded(old(self)@, key@, *event),
            fell_back == (landing_key(old(self)@, key@) != key@),
    {
        let own = key.geo_origin.is_label() || self.contains_key(key);
        let bundle = self.get_or_create(key);
        bundle.count_event(event);
        !own
    }

    /// Makes sure that both bundles of an origin exist.
    fn add_origin(&mut self, origin: &Geolocation)
        requires
            old(self).wf(),
            origin@.is_label(),
        ensures
            final(self).wf(),
            final(self)@ == old(self)@.insert(
                SpecMetricsKey {
                    geo_origin: origin@,
                    overlay_origin: PublicGatewayStatus::Gateway,
                },
                bundle_or_zero(
                    old(self)@,
                    SpecMetricsKey {
                        geo_origin: origin@,
                        overlay_origin: PublicGatewayStatus::Gateway,
                    },
                ),
            ).insert(
                SpecMetricsKey {
                    geo_origin: origin@,
                    overlay_origin: PublicGatewayStatus::NonGateway,
                },
                bundle_or_zero(
                    old(self)@,
                    SpecMetricsKey {
                        geo_origin: origin@,
                        overlay_origin: PublicGatewayStatus::NonGateway,
                    },
                ),
            ),
    {
        let gateway = MetricsKey {
            geo_origin: origin.duplicate(),
            overlay_origin: PublicGatewayStatus::Gateway,
        };
        let non_gateway = MetricsKey {
            geo_origin: origin.duplicate(),
            overlay_origin: PublicGatewayStatus::NonGateway,
        };
        let _ = self.get_or_create(&gateway);
        let _ = self.get_or_create(&non_gateway);
    }

    /// The map that a source starts with: bundles for the error origin, for
    /// the unknown origin and for the popular countries, each for both
    /// overlay origins, all counters at zero.
    pub fn create_basic_set() -> (map: MetricsMap)
        ensures
            map.wf(),
            map@ == initial_bundles(popular_countries()),
            events_counted(map@) == 0,
            counters_total(map@) == 0,
    {
        let mut map = MetricsMap::new();
        map.add_origin(&Geolocation::Unknown);
        let codes: Vec<&str> = vec!["US", "DE", "CN", "FR", "GB", "NL", "CA", "RU"];
        proof {
            reveal_strlit("US");
            reveal_strlit("DE");
            reveal_strlit("CN");
            reveal_strlit("FR");
            reveal_strlit("GB");
            reveal_strlit("NL");
            reveal_strlit("CA");
            reveal_strlit("RU");
            assert(codes@.map_values(|c: &str| c@) =~= popular_countries());
            assert(map@ =~= initial_bundles(Seq::empty()));
        }
        let mut i: usize = 0;
        while i < codes.len()
            invariant
                i <= codes.len(),
                map.wf(),
                codes@.map_values(|c: &str| c@) == popular_countries(),
                forall|j: int| 0 <= j < codes.len() ==> is_alpha2(#[trigger] codes@[j]@),
                map@ == initial_bundles(popular_countries().take(i as int)),
            decreases codes.len() - i,
        {
            let origin = Geolocation::Alpha2(codes[i].to_owned());
            let ghost before = map@;
            map.add_origin(&origin);
            proof {
                let done = popular_countries().take(i as int);
                let next = popular_countries().take(i + 1);
                assert(codes@.map_values(|c: &str| c@)[i as int] == codes@[i as int]@);
                assert(next =~= done.push(codes@[i as int]@));
                assert forall|key: SpecMetricsKey|
                    is_initial_origin(key.geo_origin, next) <==> (is_initial_origin(
                        key.geo_origin,
                        done,
                    ) || key.geo_origin == origin@) by {
                    if let SpecGeolocation::Alpha2(code) = key.geo_origin {
                        if next.contains(code) {
                            let j = choose|j: int| 0 <= j < next.len() && next[j] == code;
                            if j < i {
                                assert(done[j] == code);
                            }
                        }
                        if done.contains(code) {
                            let j = choose|j: int| 0 <= j < done.len() && done[j] == code;
                            assert(next[j] == code);
                        }
                        if code == codes@[i as int]@ {
                            assert(next[i as int] == code);
                        }
                    }
                }
                assert(map@ =~= initial_bundles(next));
            }
            i += 1;
        }
        proof {
            assert(popular_countries().take(i as int) =~= popular_countries());
            map.bundles_are_constructible();
            zero_bundles_have_counted_nothing(map@);
        }
        map
    }

    /// The keys of all bundles, each once, in the order in which the
    /// bundles were made.
    pub fn keys(&self) -> (keys: Vec<MetricsKey>)
        requires
            self.wf(),
        ensures
            keys@.len() == self@.dom().len(),
            forall|i: int| 0 <= i < keys@.len() ==> self@.dom().contains(#[trigger] keys@[i]@),
            forall|key: SpecMetricsKey|
                self@.dom().contains(key) ==> exists|i: int|
                    0 <= i < keys@.len() && #[trigger] keys@[i]@ == key,
            forall|i: int, j: int| 0 <= i < j < keys@.len() ==> keys@[i]@ != keys@[j]@,
    {
        proof {
            self.lemma_len();
        }
        let mut keys: Vec<MetricsKey> = Vec::new();
        let mut i: usize = 0;
        while i < self.entries.len()
            invariant
                i <= self.entries.len(),
                keys@.len() == i,
                forall|j: int| 0 <= j < i ==> (#[trigger] keys@[j])@ == self.entries@[j].key@,
            decreases self.entries.len() - i,
        {
            keys.push(self.entries[i].key.duplicate());
            i += 1;
        }
        proof {
            assert forall|key: SpecMetricsKey| self@.dom().contains(key) implies exists|i: int|
                0 <= i < keys@.len() && #[trigger] keys@[i]@ == key by {
                let j = choose|j: int| 0 <= j < self.entries@.len() && self.entries@[j].key@ == key;
                assert(keys@[j]@ == key);
            }
            assert forall|i: int| 0 <= i < keys@.len() implies self@.dom().contains(
                #[trigger] keys@[i]@,
            ) by {
                assert(self.entries@[i].key@ == keys@[i]@);
            }
        }
        keys
    }

    /// Whether there is a bundle for the key.
    pub fn contains_key(&self, key: &MetricsKey) -> (b: bool)
        ensures
            b == self@.dom().contains(key@),
    {
        self.position(key).is_some()
    }

    /// The bundle for a key, if there is one.
    pub fn get(&self, key: &MetricsKey) -> (bundle: Option<Metrics>)
        requires
            self.wf(),
        ensures
            bundle == (if self@.dom().contains(key@) {
                Some(self@[key@])
            } else {
                None
            }),
    {
        match self.position(key) {
            Some(i) => {
                proof {
                    bundles_at(self.entries@, i as int);
                }
                Some(self.entries[i].metrics)
            },
            None => None,
        }
    }
}

proof fn lemma_keys_kept(entries: Seq<Entry>, i: int, e: Entry, key: SpecMetricsKey)
    requires
        0 <= i < entries.len(),
        e.key@ == entries[i].key@,
        has_key(entries, key) || has_key(entries.update(i, e), key),
    ensures
        has_key(entries, key),
        has_key(entries.update(i, e), key),
{
    let updated = entries.update(i, e);
    if has_key(entries, key) {
        let j = choose|j: int| 0 <= j < entries.len() && entries[j].key@ == key;
        assert(updated[j].key@ == key);
    } else {
        let j = choose|j: int| 0 <= j < updated.len() && updated[j].key@ == key;
        assert(entries[j].key@ == key);
    }
}

proof fn lemma_bundles_len(entries: Seq<Entry>)
    requires
        distinct_keys(entries),
    ensures
        bundles(entries).dom().finite(),
        bundles(entries).dom().len() == entries.len(),
    decreases entries.len(),
{
    if entries.len() == 0 {
        assert(bundles(entries).dom() =~= Set::<SpecMetricsKey>::empty());
    } else {
        let front = entries.drop_last();
        let last = entries.last();
        assert(distinct_keys(front));
        lemma_bundles_len(front);
        assert(!has_key(front, last.key@)) by {
            if has_key(front, last.key@) {
                let i = choose|i: int| 0 <= i < front.len() && front[i].key@ == last.key@;
                assert(entries[i].key@ == entries[entries.len() - 1].key@);
            }
        }
        assert(entries =~= front.push(last));
        bundles_after_push(front, last);
        assert(bundles(entries).dom() =~= bundles(front).dom().insert(last.key@));
    }
}

} // verus!
