use bitswap_monitoring::gateways::KnownGateways;
use bitswap_monitoring::gateways::MalformedGatewayList;
use bitswap_monitoring::registry::PublicGatewayStatus;

#[test]
fn new_set_is_empty() {
    let set = KnownGateways::new();
    assert_eq!(set.len(), 0);
    assert!(!set.contains("QmA"));
    assert_eq!(set.status_of("QmA"), PublicGatewayStatus::NonGateway);
}

#[test]
fn parse_reads_one_id_per_line() {
    let set = KnownGateways::parse("QmA\n12D3KooWB\nbafzc\n").ok().unwrap();
    assert_eq!(set.len(), 3);
    assert!(set.contains("QmA"));
    assert!(set.contains("12D3KooWB"));
    assert!(set.contains("bafzc"));
    assert!(!set.contains("Qm"));
    assert!(!set.contains("QmA\n"));
    assert!(!set.contains(""));
    assert_eq!(set.status_of("bafzc"), PublicGatewayStatus::Gateway);
    assert_eq!(set.status_of("bafzd"), PublicGatewayStatus::NonGateway);
}

#[test]
fn parse_takes_a_last_line_without_line_feed() {
    let set = KnownGateways::parse("QmA\nQmB").ok().unwrap();
    assert_eq!(set.len(), 2);
    assert!(set.contains("QmA"));
    assert!(set.contains("QmB"));
}

#[test]
fn parse_leaves_out_empty_lines_and_repeats() {
    let set = KnownGateways::parse("\n\nQmA\n\nQmB\nQmA\n\n").ok().unwrap();
    assert_eq!(set.len(), 2);
    assert!(set.contains("QmA"));
    assert!(set.contains("QmB"));
    assert!(!set.contains(""));
}

#[test]
fn parse_of_nothing_is_the_empty_set() {
    assert_eq!(KnownGateways::parse("").ok().unwrap().len(), 0);
    assert_eq!(KnownGateways::parse("\n").ok().unwrap().len(), 0);
}

#[test]
fn parse_refuses_what_is_no_peer_id() {
    assert_eq!(KnownGateways::parse("QmA\nQm B\n").err(), Some(MalformedGatewayList));
    assert_eq!(KnownGateways::parse("QmA\r\nQmB\r\n").err(), Some(MalformedGatewayList));
    assert_eq!(KnownGateways::parse("QmÄ\n").err(), Some(MalformedGatewayList));
    assert_eq!(KnownGateways::parse("/ip4/1.2.3.4").err(), Some(MalformedGatewayList));
    assert_eq!(KnownGateways::parse("Qm_A").err(), Some(MalformedGatewayList));
}

#[test]
fn reload_replaces_the_whole_set() {
    let mut set = KnownGateways::parse("QmA\nQmB\n").ok().unwrap();
    assert_eq!(set.reload("QmB\nQmC\nQmD\n"), Ok(()));
    assert_eq!(set.len(), 3);
    assert!(!set.contains("QmA"));
    assert!(set.contains("QmB"));
    assert!(set.contains("QmC"));
    assert!(set.contains("QmD"));
    assert_eq!(set.reload(""), Ok(()));
    assert_eq!(set.len(), 0);
    assert!(!set.contains("QmB"));
}

#[test]
fn reload_of_a_malformed_list_changes_nothing() {
    let mut set = KnownGateways::parse("QmA\nQmB\n").ok().unwrap();
    assert_eq!(set.reload("QmC\nQmD\nnot an id\n"), Err(MalformedGatewayList));
    assert_eq!(set.len(), 2);
    assert!(set.contains("QmA"));
    assert!(set.contains("QmB"));
    assert!(!set.contains("QmC"));
    assert!(!set.contains("QmD"));
}
