use bitswap_monitoring::dispatch::handle_event;
use bitswap_monitoring::dispatch::handle_received_events;
use bitswap_monitoring::dispatch::metrics_key;
use bitswap_monitoring::events::BitswapMessage;
use bitswap_monitoring::events::ConnectionEvent;
use bitswap_monitoring::events::ConnectionEventType;
use bitswap_monitoring::events::EventType;
use bitswap_monitoring::events::Multiaddr;
use bitswap_monitoring::events::NetAddress;
use bitswap_monitoring::events::Protocol;
use bitswap_monitoring::events::PushedEvent;
use bitswap_monitoring::events::Timestamp;
use bitswap_monitoring::events::WantType;
use bitswap_monitoring::events::WantlistEntry;
use bitswap_monitoring::gateways::KnownGateways;
use bitswap_monitoring::geolocation::CountryDb;
use bitswap_monitoring::geolocation::Geolocation;
use bitswap_monitoring::metrics::Metrics;
use bitswap_monitoring::registry::MetricsKey;
use bitswap_monitoring::registry::MetricsMap;
use bitswap_monitoring::registry::PublicGatewayStatus;

const IN_DB: NetAddress = NetAddress::V4(0x0102_0304);
const NOT_IN_DB: NetAddress = NetAddress::V4(0xC801_0101);

fn add_text(db: &mut Vec<u8>, text: &str) {
    assert!(text.len() < 29);
    db.push(0x40 | text.len() as u8);
    db.extend_from_slice(text.as_bytes());
}

/// A database for IPv4 in which the addresses whose first bit is 0 belong
/// to the country with the given code, and the others to none.
fn db_of_country(code: &str) -> CountryDb {
    let mut db: Vec<u8> = Vec::new();
    db.extend_from_slice(&[0x00, 0x00, 0x11, 0x00, 0x00, 0x01]);
    db.extend_from_slice(&[0u8; 16]);
    db.push(0xE1);
    add_text(&mut db, "country");
    db.push(0xE1);
    add_text(&mut db, "iso_code");
    add_text(&mut db, code);
    db.extend_from_slice(b"\xab\xcd\xefMaxMind.com");
    db.push(0xE9);
    add_text(&mut db, "binary_format_major_version");
    db.extend_from_slice(&[0xA1, 2]);
    add_text(&mut db, "binary_format_minor_version");
    db.extend_from_slice(&[0xA1, 0]);
    add_text(&mut db, "build_epoch");
    db.extend_from_slice(&[0x04, 0x02, 0x5F, 0x00, 0x00, 0x00]);
    add_text(&mut db, "database_type");
    add_text(&mut db, "Test-Country");
    add_text(&mut db, "description");
    db.push(0xE1);
    add_text(&mut db, "en");
    add_text(&mut db, "test");
    add_text(&mut db, "ip_version");
    db.extend_from_slice(&[0xA1, 4]);
    add_text(&mut db, "languages");
    db.extend_from_slice(&[0x01, 0x04]);
    add_text(&mut db, "en");
    add_text(&mut db, "node_count");
    db.extend_from_slice(&[0xC1, 1]);
    add_text(&mut db, "record_size");
    db.extend_from_slice(&[0xA1, 24]);
    CountryDb::from_bytes(db).ok().unwrap()
}

fn multiaddr(address: NetAddress) -> Multiaddr {
    Multiaddr {
        protocols: vec![
            match address {
                NetAddress::V4(a) => Protocol::Ip4(a),
                NetAddress::V6(a) => Protocol::Ip6(a),
            },
            Protocol::Other,
            Protocol::Other,
        ],
    }
}

fn want(want_type: WantType, cancel: bool, send_dont_have: bool) -> WantlistEntry {
    WantlistEntry { priority: 10, cancel, send_dont_have, cid: "bafkqaaa".to_string(), want_type }
}

fn message_from(peer: &str, address: Option<NetAddress>, entries: Vec<WantlistEntry>) -> PushedEvent {
    PushedEvent {
        timestamp: Timestamp { seconds: 1_700_000_000, nanoseconds: 1 },
        peer: peer.to_string(),
        inner: EventType::BitswapMessage(BitswapMessage {
            wantlist_entries: entries,
            full_wantlist: true,
            blocks: vec![],
            block_presences: vec![],
            connected_addresses: match address {
                Some(a) => vec![multiaddr(a)],
                None => vec![],
            },
        }),
    }
}

fn connection_from(
    peer: &str,
    address: Option<NetAddress>,
    kind: ConnectionEventType,
) -> PushedEvent {
    PushedEvent {
        timestamp: Timestamp { seconds: 1_700_000_000, nanoseconds: 2 },
        peer: peer.to_string(),
        inner: EventType::ConnectionEvent(ConnectionEvent {
            remote: match address {
                Some(a) => multiaddr(a),
                None => Multiaddr { protocols: vec![Protocol::Other] },
            },
            connection_event_type: kind,
        }),
    }
}

fn key(origin: Geolocation, overlay_origin: PublicGatewayStatus) -> MetricsKey {
    MetricsKey { geo_origin: origin, overlay_origin }
}

fn events_counted(map: &MetricsMap) -> u64 {
    let mut sum = 0;
    for k in map.keys() {
        let m = map.get(&k).unwrap();
        sum += m.num_connected + m.num_disconnected + m.num_messages;
    }
    sum
}

fn counters_total(map: &MetricsMap) -> u64 {
    let mut sum = 0;
    for k in map.keys() {
        let m = map.get(&k).unwrap();
        sum += m.num_connected
            + m.num_disconnected
            + m.num_messages
            + m.num_wantlists_full
            + m.num_wantlists_incremental
            + m.num_entries_cancel
            + m.num_entries_want_block
            + m.num_entries_want_block_send_dont_have
            + m.num_entries_want_have
            + m.num_entries_want_have_send_dont_have
            + m.num_blocks
            + m.num_block_presence_have
            + m.num_block_presence_dont_have;
    }
    sum
}

#[test]
fn key_is_made_of_origin_and_gateway_status() {
    let db = db_of_country("DE");
    let gateways = KnownGateways::parse("QmGateway\n").ok().unwrap();
    assert_eq!(
        metrics_key(&db, &gateways, &message_from("QmGateway", Some(IN_DB), vec![])),
        key(Geolocation::Alpha2("DE".to_string()), PublicGatewayStatus::Gateway)
    );
    assert_eq!(
        metrics_key(&db, &gateways, &message_from("QmOther", Some(NOT_IN_DB), vec![])),
        key(Geolocation::Unknown, PublicGatewayStatus::NonGateway)
    );
    assert_eq!(
        metrics_key(
            &db,
            &gateways,
            &connection_from("QmGateway", None, ConnectionEventType::Connected)
        ),
        key(Geolocation::Unknown, PublicGatewayStatus::Gateway)
    );
}

#[test]
fn full_wantlist_from_germany_by_a_peer_that_is_no_gateway() {
    let db = db_of_country("DE");
    let gateways = KnownGateways::parse("QmGateway\n").ok().unwrap();
    let mut metrics = MetricsMap::create_basic_set();
    let events = vec![message_from(
        "QmPeer",
        Some(IN_DB),
        vec![want(WantType::Block, false, false), want(WantType::Block, false, true)],
    )];
    handle_received_events(&mut metrics, &db, &gateways, &events);
    let bundle = metrics
        .get(&key(Geolocation::Alpha2("DE".to_string()), PublicGatewayStatus::NonGateway))
        .unwrap();
    assert_eq!(bundle.num_messages, 1);
    assert_eq!(bundle.num_wantlists_full, 1);
    assert_eq!(bundle.num_entries_want_block, 1);
    assert_eq!(bundle.num_entries_want_block_send_dont_have, 1);
    assert_eq!(
        bundle,
        Metrics {
            num_messages: 1,
            num_wantlists_full: 1,
            num_entries_want_block: 1,
            num_entries_want_block_send_dont_have: 1,
            ..Metrics::new()
        }
    );
    assert_eq!(counters_total(&metrics), 4);
    assert_eq!(metrics.len(), 20);
}

#[test]
fn disconnect_without_address_is_counted_as_unknown_only() {
    let db = db_of_country("DE");
    for (peer, overlay) in
        [("QmPeer", PublicGatewayStatus::NonGateway), ("QmGateway", PublicGatewayStatus::Gateway)]
    {
        let gateways = KnownGateways::parse("QmGateway\n").ok().unwrap();
        let mut metrics = MetricsMap::create_basic_set();
        handle_event(
            &mut metrics,
            &db,
            &gateways,
            &connection_from(peer, None, ConnectionEventType::Disconnected),
        );
        let unknown = key(Geolocation::Unknown, overlay);
        assert_eq!(
            metrics.get(&unknown),
            Some(Metrics { num_disconnected: 1, ..Metrics::new() })
        );
        for k in metrics.keys() {
            if !k.same(&unknown) {
                assert_eq!(metrics.get(&k), Some(Metrics::new()));
            }
        }
        assert_eq!(metrics.len(), 20);
    }
}

#[test]
fn country_without_bundle_gets_one_on_the_fly() {
    let db = db_of_country("SE");
    let gateways = KnownGateways::new();
    let mut metrics = MetricsMap::create_basic_set();
    let events = vec![
        connection_from("QmA", Some(IN_DB), ConnectionEventType::Connected),
        connection_from("QmB", Some(IN_DB), ConnectionEventType::Connected),
    ];
    assert_eq!(handle_received_events(&mut metrics, &db, &gateways, &events), 0);
    assert_eq!(metrics.len(), 21);
    assert_eq!(
        metrics.get(&key(Geolocation::Alpha2("SE".to_string()), PublicGatewayStatus::NonGateway)),
        Some(Metrics { num_connected: 2, ..Metrics::new() })
    );
}

#[test]
fn country_that_is_no_label_lands_in_the_error_bundle() {
    let db = db_of_country("Sweden");
    let gateways = KnownGateways::parse("QmGateway\n").ok().unwrap();
    let mut metrics = MetricsMap::create_basic_set();
    let events = vec![
        connection_from("QmA", Some(IN_DB), ConnectionEventType::Connected),
        message_from("QmGateway", Some(IN_DB), vec![want(WantType::Have, true, false)]),
        connection_from("QmA", Some(IN_DB), ConnectionEventType::Disconnected),
    ];
    assert_eq!(handle_received_events(&mut metrics, &db, &gateways, &events), 3);
    assert_eq!(metrics.len(), 20);
    assert_eq!(
        metrics.get(&key(Geolocation::Error, PublicGatewayStatus::NonGateway)),
        Some(Metrics { num_connected: 1, num_disconnected: 1, ..Metrics::new() })
    );
    assert_eq!(
        metrics.get(&key(Geolocation::Error, PublicGatewayStatus::Gateway)),
        Some(Metrics {
            num_messages: 1,
            num_wantlists_full: 1,
            num_entries_cancel: 1,
            ..Metrics::new()
        })
    );
    assert_eq!(
        metrics
            .get(&key(Geolocation::Alpha2("Sweden".to_string()), PublicGatewayStatus::NonGateway)),
        None
    );
    assert_eq!(events_counted(&metrics), 3);
}

#[test]
fn every_event_of_a_batch_is_counted_once() {
    let db = db_of_country("DE");
    let gateways = KnownGateways::parse("QmGateway\n").ok().unwrap();
    let mut metrics = MetricsMap::create_basic_set();
    let first = vec![
        connection_from("QmA", Some(IN_DB), ConnectionEventType::Connected),
        connection_from("QmGateway", Some(NOT_IN_DB), ConnectionEventType::Connected),
        message_from("QmA", Some(IN_DB), vec![want(WantType::Have, false, true)]),
        message_from("QmB", None, vec![]),
        message_from("QmGateway", Some(NetAddress::V6(9)), vec![want(WantType::Block, true, true)]),
        connection_from("QmA", None, ConnectionEventType::Disconnected),
    ];
    handle_received_events(&mut metrics, &db, &gateways, &first);
    assert_eq!(events_counted(&metrics), 6);
    assert_eq!(counters_total(&metrics), 6 + 2 + 2);
    let second = vec![
        connection_from("QmC", Some(IN_DB), ConnectionEventType::Disconnected),
        connection_from("QmGateway", Some(IN_DB), ConnectionEventType::Connected),
    ];
    handle_received_events(&mut metrics, &db, &gateways, &second);
    assert_eq!(events_counted(&metrics), 8);
    assert_eq!(counters_total(&metrics), 12);
    handle_received_events(&mut metrics, &db, &gateways, &Vec::new());
    assert_eq!(events_counted(&metrics), 8);
}

#[test]
fn gateway_status_goes_by_the_set_as_it_is_at_dispatch() {
    let db = db_of_country("DE");
    let mut gateways = KnownGateways::new();
    let mut metrics = MetricsMap::create_basic_set();
    let event = connection_from("QmA", Some(IN_DB), ConnectionEventType::Connected);
    assert!(!handle_event(&mut metrics, &db, &gateways, &event));
    assert_eq!(gateways.reload("QmA\n"), Ok(()));
    handle_event(&mut metrics, &db, &gateways, &event);
    handle_event(&mut metrics, &db, &gateways, &event);
    let de = Geolocation::Alpha2("DE".to_string());
    assert_eq!(
        metrics.get(&key(de.duplicate(), PublicGatewayStatus::NonGateway)),
        Some(Metrics { num_connected: 1, ..Metrics::new() })
    );
    assert_eq!(
        metrics.get(&key(de, PublicGatewayStatus::Gateway)),
        Some(Metrics { num_connected: 2, ..Metrics::new() })
    );
}

#[test]
fn order_of_a_batch_does_not_matter_to_the_counters() {
    let db = db_of_country("SE");
    let gateways = KnownGateways::parse("QmGateway\n").ok().unwrap();
    let events = vec![
        connection_from("QmA", Some(IN_DB), ConnectionEventType::Connected),
        message_from("QmGateway", Some(IN_DB), vec![want(WantType::Have, false, false)]),
        connection_from("QmB", None, ConnectionEventType::Disconnected),
        message_from("QmA", Some(IN_DB), vec![want(WantType::Block, true, false)]),
        connection_from("QmGateway", Some(NOT_IN_DB), ConnectionEventType::Connected),
    ];
    let mut backwards = events.clone();
    backwards.reverse();
    let mut one = MetricsMap::create_basic_set();
    handle_received_events(&mut one, &db, &gateways, &events);
    let mut other = MetricsMap::create_basic_set();
    handle_received_events(&mut other, &db, &gateways, &backwards);
    assert_eq!(one.len(), other.len());
    assert_eq!(one.len(), 22);
    for k in one.keys() {
        assert_eq!(one.get(&k), other.get(&k));
    }
}

#[test]
fn counters_never_fall_and_bundles_stay() {
    let db = db_of_country("DE");
    let gateways = KnownGateways::new();
    let mut metrics = MetricsMap::create_basic_set();
    let events = vec![
        message_from("QmA", Some(IN_DB), vec![want(WantType::Have, false, false)]),
        connection_from("QmB", None, ConnectionEventType::Disconnected),
    ];
    handle_received_events(&mut metrics, &db, &gateways, &events);
    let keys_before = metrics.keys();
    let before: Vec<Metrics> = keys_before.iter().map(|k| metrics.get(k).unwrap()).collect();
    handle_received_events(&mut metrics, &db, &gateways, &events);
    handle_event(&mut metrics, &db, &gateways, &events[0]);
    for (k, was) in keys_before.iter().zip(before.iter()) {
        let now = metrics.get(k).unwrap();
        assert!(now.num_messages >= was.num_messages);
        assert!(now.num_disconnected >= was.num_disconnected);
        assert!(now.num_wantlists_full >= was.num_wantlists_full);
        assert!(now.num_entries_want_have >= was.num_entries_want_have);
    }
    assert_eq!(
        metrics
            .get(&key(Geolocation::Alpha2("DE".to_string()), PublicGatewayStatus::NonGateway))
            .unwrap()
            .num_messages,
        3
    );
}

#[test]
fn dispatcher_says_when_an_event_fell_back_to_the_error_bundle() {
    let gateways = KnownGateways::new();
    let mut metrics = MetricsMap::create_basic_set();
    let event = connection_from("QmA", Some(IN_DB), ConnectionEventType::Connected);
    assert!(handle_event(&mut metrics, &db_of_country("xx"), &gateways, &event));
    assert!(!handle_event(&mut metrics, &db_of_country("XX"), &gateways, &event));
    assert!(!handle_event(&mut metrics, &db_of_country("DE"), &gateways, &event));
    let lost = connection_from("QmA", Some(NOT_IN_DB), ConnectionEventType::Connected);
    assert!(!handle_event(&mut metrics, &db_of_country("xx"), &gateways, &lost));
    assert_eq!(
        metrics.get(&key(Geolocation::Error, PublicGatewayStatus::NonGateway)),
        Some(Metrics { num_connected: 1, ..Metrics::new() })
    );
    assert_eq!(events_counted(&metrics), 4);
}
