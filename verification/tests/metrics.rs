use bitswap_monitoring::events::BitswapMessage;
use bitswap_monitoring::events::BlockPresence;
use bitswap_monitoring::events::BlockPresenceType;
use bitswap_monitoring::events::ConnectionEvent;
use bitswap_monitoring::events::ConnectionEventType;
use bitswap_monitoring::events::EntryKind;
use bitswap_monitoring::events::EventType;
use bitswap_monitoring::events::Multiaddr;
use bitswap_monitoring::events::NetAddress;
use bitswap_monitoring::events::Protocol;
use bitswap_monitoring::events::PushedEvent;
use bitswap_monitoring::events::Timestamp;
use bitswap_monitoring::events::UnknownBlockPresenceType;
use bitswap_monitoring::events::UnknownConnectionEventType;
use bitswap_monitoring::events::UnknownWantType;
use bitswap_monitoring::events::WantType;
use bitswap_monitoring::events::WantlistEntry;
use bitswap_monitoring::metrics::Metrics;

fn entry(want_type: WantType, cancel: bool, send_dont_have: bool) -> WantlistEntry {
    WantlistEntry {
        priority: 1,
        cancel,
        send_dont_have,
        cid: "bafkqaaa".to_string(),
        want_type,
    }
}

fn address(parts: &[Protocol]) -> Multiaddr {
    Multiaddr { protocols: parts.to_vec() }
}

fn message(
    entries: Vec<WantlistEntry>,
    full: bool,
    blocks: Vec<String>,
    presences: Vec<BlockPresence>,
) -> PushedEvent {
    PushedEvent {
        timestamp: Timestamp { seconds: 1_600_000_000, nanoseconds: 0 },
        peer: "QmPeer".to_string(),
        inner: EventType::BitswapMessage(BitswapMessage {
            wantlist_entries: entries,
            full_wantlist: full,
            blocks,
            block_presences: presences,
            connected_addresses: vec![address(&[Protocol::Ip4(0x0102_0304), Protocol::Other])],
        }),
    }
}

fn connection(kind: ConnectionEventType) -> PushedEvent {
    PushedEvent {
        timestamp: Timestamp { seconds: 1_600_000_000, nanoseconds: 5 },
        peer: "QmPeer".to_string(),
        inner: EventType::ConnectionEvent(ConnectionEvent {
            remote: address(&[Protocol::Ip4(0x0102_0304), Protocol::Other, Protocol::Other]),
            connection_event_type: kind,
        }),
    }
}

#[test]
fn want_type_is_decoded_from_its_code() {
    assert_eq!(WantType::from_code(0), Ok(WantType::Block));
    assert_eq!(WantType::from_code(1), Ok(WantType::Have));
    assert_eq!(WantType::from_code(2), Err(UnknownWantType { code: 2 }));
    assert_eq!(WantType::from_code(-1), Err(UnknownWantType { code: -1 }));
    assert_eq!(WantType::Block.code(), 0);
    assert_eq!(WantType::Have.code(), 1);
}

#[test]
fn types_of_presences_and_connection_events_are_decoded_from_their_codes() {
    assert_eq!(BlockPresenceType::from_code(0), Ok(BlockPresenceType::Have));
    assert_eq!(BlockPresenceType::from_code(1), Ok(BlockPresenceType::DontHave));
    assert_eq!(BlockPresenceType::from_code(2), Err(UnknownBlockPresenceType { code: 2 }));
    assert_eq!(
        BlockPresenceType::from_code(i32::MIN),
        Err(UnknownBlockPresenceType { code: i32::MIN })
    );
    assert_eq!(BlockPresenceType::Have.code(), 0);
    assert_eq!(BlockPresenceType::DontHave.code(), 1);
    assert_eq!(ConnectionEventType::from_code(0), Ok(ConnectionEventType::Connected));
    assert_eq!(ConnectionEventType::from_code(1), Ok(ConnectionEventType::Disconnected));
    assert_eq!(ConnectionEventType::from_code(-1), Err(UnknownConnectionEventType { code: -1 }));
    assert_eq!(ConnectionEventType::from_code(7), Err(UnknownConnectionEventType { code: 7 }));
    assert_eq!(ConnectionEventType::Connected.code(), 0);
    assert_eq!(ConnectionEventType::Disconnected.code(), 1);
}

#[test]
fn entry_kind_puts_cancel_first() {
    assert_eq!(entry(WantType::Block, true, true).entry_kind(), EntryKind::Cancel);
    assert_eq!(entry(WantType::Have, true, false).entry_kind(), EntryKind::Cancel);
    assert_eq!(entry(WantType::Block, false, false).entry_kind(), EntryKind::WantBlock);
    assert_eq!(
        entry(WantType::Block, false, true).entry_kind(),
        EntryKind::WantBlockSendDontHave
    );
    assert_eq!(entry(WantType::Have, false, false).entry_kind(), EntryKind::WantHave);
    assert_eq!(
        entry(WantType::Have, false, true).entry_kind(),
        EntryKind::WantHaveSendDontHave
    );
}

#[test]
fn origin_address_of_events() {
    assert_eq!(
        connection(ConnectionEventType::Connected).origin_address(),
        Some(NetAddress::V4(0x0102_0304))
    );
    let mut msg = message(vec![], false, vec![], vec![]);
    assert_eq!(msg.origin_address(), Some(NetAddress::V4(0x0102_0304)));
    if let EventType::BitswapMessage(m) = &mut msg.inner {
        m.connected_addresses =
            vec![address(&[Protocol::Ip6(1)]), address(&[Protocol::Ip4(7), Protocol::Other])];
    }
    assert_eq!(msg.origin_address(), Some(NetAddress::V6(1)));
    if let EventType::BitswapMessage(m) = &mut msg.inner {
        m.connected_addresses = vec![address(&[Protocol::Other]), address(&[Protocol::Ip4(7)])];
    }
    assert_eq!(msg.origin_address(), None);
    if let EventType::BitswapMessage(m) = &mut msg.inner {
        m.connected_addresses = vec![];
    }
    assert_eq!(msg.origin_address(), None);
}

#[test]
fn ip_address_is_that_of_the_first_part_with_one() {
    assert_eq!(address(&[]).ip_address(), None);
    assert_eq!(address(&[Protocol::Other, Protocol::Other]).ip_address(), None);
    assert_eq!(address(&[Protocol::Ip4(5)]).ip_address(), Some(NetAddress::V4(5)));
    assert_eq!(
        address(&[Protocol::Other, Protocol::Ip6(6), Protocol::Ip4(5)]).ip_address(),
        Some(NetAddress::V6(6))
    );
    assert_eq!(
        address(&[Protocol::Other, Protocol::Other, Protocol::Ip4(u32::MAX), Protocol::Ip6(0)])
            .ip_address(),
        Some(NetAddress::V4(u32::MAX))
    );
}

#[test]
fn new_bundle_is_all_zero() {
    let m = Metrics::new();
    assert_eq!(
        m,
        Metrics {
            num_connected: 0,
            num_disconnected: 0,
            num_messages: 0,
            num_wantlists_full: 0,
            num_wantlists_incremental: 0,
            num_entries_cancel: 0,
            num_entries_want_block: 0,
            num_entries_want_block_send_dont_have: 0,
            num_entries_want_have: 0,
            num_entries_want_have_send_dont_have: 0,
            num_blocks: 0,
            num_block_presence_have: 0,
            num_block_presence_dont_have: 0,
        }
    );
}

#[test]
fn connect_and_disconnect_advance_one_counter_each() {
    let mut m = Metrics::new();
    m.count_event(&connection(ConnectionEventType::Connected));
    assert_eq!(m, Metrics { num_connected: 1, ..Metrics::new() });
    m.count_event(&connection(ConnectionEventType::Disconnected));
    m.count_event(&connection(ConnectionEventType::Disconnected));
    assert_eq!(m, Metrics { num_connected: 1, num_disconnected: 2, ..Metrics::new() });
}

#[test]
fn full_wantlist_with_two_block_wants() {
    let mut m = Metrics::new();
    m.count_event(&message(
        vec![entry(WantType::Block, false, false), entry(WantType::Block, false, true)],
        true,
        vec![],
        vec![],
    ));
    assert_eq!(
        m,
        Metrics {
            num_messages: 1,
            num_wantlists_full: 1,
            num_entries_want_block: 1,
            num_entries_want_block_send_dont_have: 1,
            ..Metrics::new()
        }
    );
}

#[test]
fn incremental_wantlist_counts_each_entry_by_kind() {
    let mut m = Metrics::new();
    m.count_event(&message(
        vec![
            entry(WantType::Have, false, false),
            entry(WantType::Have, false, true),
            entry(WantType::Have, false, true),
            entry(WantType::Block, true, false),
            entry(WantType::Have, true, true),
            entry(WantType::Block, false, false),
        ],
        false,
        vec![],
        vec![],
    ));
    assert_eq!(
        m,
        Metrics {
            num_messages: 1,
            num_wantlists_incremental: 1,
            num_entries_cancel: 2,
            num_entries_want_block: 1,
            num_entries_want_have: 1,
            num_entries_want_have_send_dont_have: 2,
            ..Metrics::new()
        }
    );
}

#[test]
fn message_without_entries_counts_no_wantlist() {
    let mut m = Metrics::new();
    m.count_event(&message(vec![], true, vec![], vec![]));
    assert_eq!(m, Metrics { num_messages: 1, ..Metrics::new() });
}

#[test]
fn blocks_and_presences_are_counted() {
    let mut m = Metrics::new();
    m.count_event(&message(
        vec![],
        false,
        vec!["a".to_string(), "b".to_string(), "c".to_string()],
        vec![
            BlockPresence { cid: "x".to_string(), block_presence_type: BlockPresenceType::Have },
            BlockPresence {
                cid: "y".to_string(),
                block_presence_type: BlockPresenceType::DontHave,
            },
            BlockPresence {
                cid: "z".to_string(),
                block_presence_type: BlockPresenceType::DontHave,
            },
        ],
    ));
    assert_eq!(
        m,
        Metrics {
            num_messages: 1,
            num_blocks: 3,
            num_block_presence_have: 1,
            num_block_presence_dont_have: 2,
            ..Metrics::new()
        }
    );
}

#[test]
fn counters_stay_at_their_ceiling() {
    let mut m = Metrics { num_connected: u64::MAX, num_blocks: u64::MAX - 1, ..Metrics::new() };
    m.count_event(&connection(ConnectionEventType::Connected));
    assert_eq!(m.num_connected, u64::MAX);
    m.count_event(&message(vec![], false, vec!["a".to_string(), "b".to_string()], vec![]));
    assert_eq!(m.num_blocks, u64::MAX);
    assert_eq!(m.num_messages, 1);
}
