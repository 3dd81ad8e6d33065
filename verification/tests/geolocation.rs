use bitswap_monitoring::events::ConnectionEvent;
use bitswap_monitoring::events::ConnectionEventType;
use bitswap_monitoring::events::EventType;
use bitswap_monitoring::events::Multiaddr;
use bitswap_monitoring::events::NetAddress;
use bitswap_monitoring::events::Protocol;
use bitswap_monitoring::events::PushedEvent;
use bitswap_monitoring::events::Timestamp;
use bitswap_monitoring::geolocation::classify;
use bitswap_monitoring::geolocation::CountryAnswer;
use bitswap_monitoring::geolocation::CountryDb;
use bitswap_monitoring::geolocation::Geolocation;

fn put_text(db: &mut Vec<u8>, text: &str) {
    assert!(text.len() < 29);
    db.push(0x40 | text.len() as u8);
    db.extend_from_slice(text.as_bytes());
}

/// A database for IPv4 with one node: the addresses whose first bit is 0
/// have the given record, the others have none.
fn small_country_db(record: &[u8]) -> Vec<u8> {
    let mut db: Vec<u8> = Vec::new();
    db.extend_from_slice(&[0x00, 0x00, 0x11, 0x00, 0x00, 0x01]);
    db.extend_from_slice(&[0u8; 16]);
    db.extend_from_slice(record);
    db.extend_from_slice(b"\xab\xcd\xefMaxMind.com");
    db.push(0xE9);
    put_text(&mut db, "binary_format_major_version");
    db.extend_from_slice(&[0xA1, 2]);
    put_text(&mut db, "binary_format_minor_version");
    db.extend_from_slice(&[0xA1, 0]);
    put_text(&mut db, "build_epoch");
    db.extend_from_slice(&[0x04, 0x02, 0x5F, 0x00, 0x00, 0x00]);
    put_text(&mut db, "database_type");
    put_text(&mut db, "Test-Country");
    put_text(&mut db, "description");
    db.push(0xE1);
    put_text(&mut db, "en");
    put_text(&mut db, "test");
    put_text(&mut db, "ip_version");
    db.extend_from_slice(&[0xA1, 4]);
    put_text(&mut db, "languages");
    db.extend_from_slice(&[0x01, 0x04]);
    put_text(&mut db, "en");
    put_text(&mut db, "node_count");
    db.extend_from_slice(&[0xC1, 1]);
    put_text(&mut db, "record_size");
    db.extend_from_slice(&[0xA1, 24]);
    db
}

fn country_record(code: &str) -> Vec<u8> {
    let mut record: Vec<u8> = vec![0xE1];
    put_text(&mut record, "country");
    record.push(0xE1);
    put_text(&mut record, "iso_code");
    put_text(&mut record, code);
    record
}

fn german_db() -> CountryDb {
    CountryDb::from_bytes(small_country_db(&country_record("DE"))).ok().unwrap()
}

#[test]
fn classify_takes_the_country_or_gives_unknown() {
    assert_eq!(
        classify(CountryAnswer::Country("DE".to_string())),
        Geolocation::Alpha2("DE".to_string())
    );
    assert_eq!(
        classify(CountryAnswer::Country("zz".to_string())),
        Geolocation::Alpha2("zz".to_string())
    );
    assert_eq!(classify(CountryAnswer::NoCountry), Geolocation::Unknown);
    assert_eq!(classify(CountryAnswer::NotFound), Geolocation::Unknown);
    assert_eq!(classify(CountryAnswer::Failed), Geolocation::Unknown);
}

#[test]
fn bytes_that_are_no_database_are_refused() {
    let refused = CountryDb::from_bytes(vec![1, 2, 3]).err().unwrap();
    assert!(!refused.message.is_empty());
    assert!(CountryDb::from_bytes(Vec::new()).is_err());
    let mut cut = small_country_db(&country_record("DE"));
    cut.truncate(40);
    assert!(CountryDb::from_bytes(cut).is_err());
}

#[test]
fn lookup_gives_the_country_of_the_record() {
    let db = german_db();
    assert_eq!(db.lookup(NetAddress::V4(0x0102_0304)), CountryAnswer::Country("DE".to_string()));
    assert_eq!(db.lookup(NetAddress::V4(0x7FFF_FFFF)), CountryAnswer::Country("DE".to_string()));
    assert_eq!(db.lookup(NetAddress::V4(0)), CountryAnswer::Country("DE".to_string()));
}

#[test]
fn lookup_of_an_address_without_record_finds_nothing() {
    let db = german_db();
    assert_eq!(db.lookup(NetAddress::V4(0xC801_0101)), CountryAnswer::NotFound);
    assert_eq!(db.lookup(NetAddress::V4(0x8000_0000)), CountryAnswer::NotFound);
}

#[test]
fn lookup_of_a_record_without_country() {
    let db = CountryDb::from_bytes(small_country_db(&[0xE0])).ok().unwrap();
    assert_eq!(db.lookup(NetAddress::V4(0x0102_0304)), CountryAnswer::NoCountry);
}

#[test]
fn lookup_fails_for_an_address_the_database_is_not_made_for() {
    let db = german_db();
    assert_eq!(db.lookup(NetAddress::V6(1)), CountryAnswer::Failed);
}

#[test]
fn lookup_fails_on_a_record_that_is_no_country_record() {
    let db = CountryDb::from_bytes(small_country_db(&[0x42, b'D', b'E'])).ok().unwrap();
    assert_eq!(db.lookup(NetAddress::V4(0x0102_0304)), CountryAnswer::Failed);
}

#[test]
fn geolocate_maps_every_miss_to_unknown() {
    let db = german_db();
    assert_eq!(
        db.geolocate(Some(NetAddress::V4(0x0102_0304))),
        Geolocation::Alpha2("DE".to_string())
    );
    assert_eq!(db.geolocate(None), Geolocation::Unknown);
    assert_eq!(db.geolocate(Some(NetAddress::V4(0xC801_0101))), Geolocation::Unknown);
    assert_eq!(db.geolocate(Some(NetAddress::V6(7))), Geolocation::Unknown);
}

#[test]
fn geolocate_event_goes_by_the_address_of_the_event() {
    let db = german_db();
    let mut event = PushedEvent {
        timestamp: Timestamp { seconds: 1, nanoseconds: 2 },
        peer: "QmA".to_string(),
        inner: EventType::ConnectionEvent(ConnectionEvent {
            remote: Multiaddr { protocols: vec![Protocol::Ip4(0x0102_0304), Protocol::Other] },
            connection_event_type: ConnectionEventType::Connected,
        }),
    };
    assert_eq!(db.geolocate_event(&event), Geolocation::Alpha2("DE".to_string()));
    event.inner = EventType::ConnectionEvent(ConnectionEvent {
        remote: Multiaddr { protocols: vec![Protocol::Other, Protocol::Other] },
        connection_event_type: ConnectionEventType::Connected,
    });
    assert_eq!(db.geolocate_event(&event), Geolocation::Unknown);
}
