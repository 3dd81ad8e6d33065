use bitswap_monitoring::events::ConnectionEvent;
use bitswap_monitoring::events::ConnectionEventType;
use bitswap_monitoring::events::EventType;
use bitswap_monitoring::events::Multiaddr;
use bitswap_monitoring::events::PushedEvent;
use bitswap_monitoring::events::Timestamp;
use bitswap_monitoring::geolocation::has_alpha2_form;
use bitswap_monitoring::geolocation::Geolocation;
use bitswap_monitoring::metrics::Metrics;
use bitswap_monitoring::registry::MetricsKey;
use bitswap_monitoring::registry::MetricsMap;
use bitswap_monitoring::registry::PublicGatewayStatus;

fn error_key(overlay_origin: PublicGatewayStatus) -> MetricsKey {
    MetricsKey { geo_origin: Geolocation::Error, overlay_origin }
}

fn connect() -> PushedEvent {
    PushedEvent {
        timestamp: Timestamp { seconds: 0, nanoseconds: 0 },
        peer: "p".to_string(),
        inner: EventType::ConnectionEvent(ConnectionEvent {
            remote: Multiaddr { protocols: vec![] },
            connection_event_type: ConnectionEventType::Connected,
        }),
    }
}

#[test]
fn alpha2_form_is_two_capital_letters() {
    assert!(has_alpha2_form("DE"));
    assert!(has_alpha2_form("AZ"));
    assert!(!has_alpha2_form("de"));
    assert!(!has_alpha2_form("D"));
    assert!(!has_alpha2_form("DEU"));
    assert!(!has_alpha2_form(""));
    assert!(!has_alpha2_form("D1"));
    assert!(!has_alpha2_form("ÄÖ"));
    assert!(!has_alpha2_form("@["));
}

#[test]
fn origins_compare_by_what_they_hold() {
    let de = Geolocation::Alpha2("DE".to_string());
    assert!(de.same(&Geolocation::Alpha2("DE".to_string())));
    assert!(!de.same(&Geolocation::Alpha2("FR".to_string())));
    assert!(!de.same(&Geolocation::Unknown));
    assert!(Geolocation::Unknown.same(&Geolocation::Unknown));
    assert!(!Geolocation::Unknown.same(&Geolocation::Error));
    assert_eq!(de.duplicate(), de);
    assert!(de.is_label());
    assert!(!Geolocation::Alpha2("Germany".to_string()).is_label());
    assert!(Geolocation::Error.is_label());
}

#[test]
fn keys_compare_by_origin_and_overlay() {
    let a = MetricsKey::country("DE", PublicGatewayStatus::Gateway);
    let b = MetricsKey::country("DE", PublicGatewayStatus::NonGateway);
    assert_eq!(a.geo_origin, Geolocation::Alpha2("DE".to_string()));
    assert!(a.same(&a.duplicate()));
    assert!(!a.same(&b));
    assert!(!a.same(&MetricsKey::country("US", PublicGatewayStatus::Gateway)));
}

#[test]
fn new_map_holds_the_two_error_bundles() {
    let map = MetricsMap::new();
    assert_eq!(map.len(), 2);
    assert_eq!(map.get(&error_key(PublicGatewayStatus::Gateway)), Some(Metrics::new()));
    assert_eq!(map.get(&error_key(PublicGatewayStatus::NonGateway)), Some(Metrics::new()));
    assert_eq!(map.get(&MetricsKey::country("DE", PublicGatewayStatus::Gateway)), None);
}

#[test]
fn basic_set_holds_error_unknown_and_popular_countries() {
    let map = MetricsMap::create_basic_set();
    assert_eq!(map.len(), 20);
    for overlay in [PublicGatewayStatus::Gateway, PublicGatewayStatus::NonGateway] {
        assert_eq!(map.get(&error_key(overlay)), Some(Metrics::new()));
        assert_eq!(
            map.get(&MetricsKey { geo_origin: Geolocation::Unknown, overlay_origin: overlay }),
            Some(Metrics::new())
        );
        for code in ["US", "DE", "CN", "FR", "GB", "NL", "CA", "RU"] {
            assert_eq!(map.get(&MetricsKey::country(code, overlay)), Some(Metrics::new()));
        }
        assert!(!map.contains_key(&MetricsKey::country("SE", overlay)));
    }
    let keys = map.keys();
    assert_eq!(keys.len(), 20);
    for (i, a) in keys.iter().enumerate() {
        assert!(map.contains_key(a));
        for b in keys.iter().skip(i + 1) {
            assert!(!a.same(b));
        }
    }
}

#[test]
fn get_or_create_gives_the_bundle_that_is_there() {
    let mut map = MetricsMap::create_basic_set();
    let key = MetricsKey::country("DE", PublicGatewayStatus::NonGateway);
    map.get_or_create(&key).num_blocks = 4;
    assert_eq!(map.len(), 20);
    let again = map.get_or_create(&key);
    assert_eq!(*again, Metrics { num_blocks: 4, ..Metrics::new() });
    assert_eq!(map.len(), 20);
}

#[test]
fn get_or_create_makes_a_bundle_for_a_new_country() {
    let mut map = MetricsMap::create_basic_set();
    let key = MetricsKey::country("SE", PublicGatewayStatus::Gateway);
    assert_eq!(map.get(&key), None);
    let bundle = map.get_or_create(&key);
    assert_eq!(*bundle, Metrics::new());
    bundle.num_connected = 1;
    assert_eq!(map.len(), 21);
    assert_eq!(map.get(&key), Some(Metrics { num_connected: 1, ..Metrics::new() }));
    assert_eq!(map.get(&MetricsKey::country("SE", PublicGatewayStatus::NonGateway)), None);
}

#[test]
fn get_or_create_falls_back_to_the_error_bundle() {
    let mut map = MetricsMap::new();
    map.get_or_create(&error_key(PublicGatewayStatus::Gateway)).num_messages = 7;
    map.get_or_create(&error_key(PublicGatewayStatus::NonGateway)).num_messages = 9;
    for (overlay, expected) in
        [(PublicGatewayStatus::Gateway, 7), (PublicGatewayStatus::NonGateway, 9)]
    {
        let bad = MetricsKey::country("not a country", overlay);
        let bundle = map.get_or_create(&bad);
        assert_eq!(bundle.num_messages, expected);
        bundle.num_blocks += 1;
        assert_eq!(map.len(), 2);
        assert_eq!(map.get(&bad), None);
        assert_eq!(
            map.get(&error_key(overlay)),
            Some(Metrics { num_messages: expected, num_blocks: 1, ..Metrics::new() })
        );
    }
}

#[test]
fn record_event_counts_in_the_landing_bundle() {
    let mut map = MetricsMap::new();
    let se = MetricsKey::country("SE", PublicGatewayStatus::NonGateway);
    assert!(!map.record_event(&se, &connect()));
    assert!(!map.record_event(&se, &connect()));
    assert!(map.record_event(&MetricsKey::country("se", PublicGatewayStatus::NonGateway), &connect()));
    assert!(!map.record_event(&error_key(PublicGatewayStatus::Gateway), &connect()));
    assert_eq!(map.len(), 3);
    assert_eq!(map.get(&se), Some(Metrics { num_connected: 2, ..Metrics::new() }));
    assert_eq!(
        map.get(&error_key(PublicGatewayStatus::NonGateway)),
        Some(Metrics { num_connected: 1, ..Metrics::new() })
    );
    assert_eq!(
        map.get(&error_key(PublicGatewayStatus::Gateway)),
        Some(Metrics { num_connected: 1, ..Metrics::new() })
    );
}

#[test]
fn labels_of_origins() {
    assert_eq!(Geolocation::Alpha2("DE".to_string()).label(), "DE");
    assert_eq!(Geolocation::Unknown.label(), "Unknown");
    assert_eq!(Geolocation::Error.label(), "Error");
    assert_eq!(PublicGatewayStatus::Gateway.label_text(), "gateway");
    assert_eq!(PublicGatewayStatus::NonGateway.label_text(), "non-gateway");
    let map = MetricsMap::create_basic_set();
    let keys = map.keys();
    for (i, a) in keys.iter().enumerate() {
        for b in keys.iter().skip(i + 1) {
            assert!(
                a.geo_origin.label() != b.geo_origin.label()
                    || a.overlay_origin.label_text() != b.overlay_origin.label_text()
            );
        }
    }
}
