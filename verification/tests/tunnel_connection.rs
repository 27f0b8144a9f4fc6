use knx_rust::group_event::{GroupEvent, GroupEventType};
use knx_rust::tunnel_connection::{TunnelConnection, TunnelConnectionConfig, TunnelError};

const CONNECT_REQUEST: [u8; 26] = [
    0x06, 0x10, 0x02, 0x05, 0x00, 0x1A, 0x08, 0x01, 0xC0, 0xA8, 0xC8, 0x0C, 0xC3, 0xB4, 0x08, 0x01,
    0xC0, 0xA8, 0xC8, 0x0C, 0xC3, 0xB4, 0x04, 0x04, 0x02, 0x00,
];

const CONNECT_RESPONSE: [u8; 20] = [
    0x06, 0x10, 0x02, 0x06, 0x00, 0x14, 0x15, 0x00, 0x08, 0x01, 0xC0, 0xA8, 0xC8, 0x14, 0xC3, 0xB4,
    0x04, 0x04, 0x11, 0x0A,
];

const STATE_REQUEST: [u8; 16] = [
    0x06, 0x10, 0x02, 0x07, 0x00, 0x10, 0x15, 0x00, 0x08, 0x01, 0xC0, 0xA8, 0xC8, 0x0C, 0xC3, 0xB4,
];

const DISCONNECT_REQUEST: [u8; 16] = [
    0x06, 0x10, 0x02, 0x09, 0x00, 0x10, 0x15, 0x00, 0x08, 0x01, 0xC0, 0xA8, 0xC8, 0x0C, 0xC3, 0xB4,
];

fn fresh(now: u64) -> TunnelConnection {
    TunnelConnection::new([192, 168, 200, 12], 50100, TunnelConnectionConfig::default(), now)
}

fn next(con: &mut TunnelConnection, now: u64) -> Option<Vec<u8>> {
    con.get_outbound_data(now).map(|bytes| bytes.to_vec())
}

fn connected(now: u64) -> TunnelConnection {
    let mut con = fresh(now);
    assert_eq!(next(&mut con, now), Some(CONNECT_REQUEST.to_vec()));
    assert_eq!(con.handle_inbound_message(&CONNECT_RESPONSE, now), None);
    assert!(con.connected());
    con
}

fn write_indication(channel: u8, seq: u8) -> Vec<u8> {
    vec![
        0x06, 0x10, 0x04, 0x20, 0x00, 0x17, 0x04, channel, seq, 0x00, 0x29, 0x00, 0xBC, 0xE0, 0x11,
        0x01, 0x00, 0x0A, 0x03, 0x00, 0x80, 0x03, 0xD4,
    ]
}

fn ack(channel: u8, seq: u8) -> Vec<u8> {
    vec![0x06, 0x10, 0x04, 0x21, 0x00, 0x0A, 0x04, channel, seq, 0x00]
}

#[test]
fn default_config_holds_the_usual_intervals() {
    let config = TunnelConnectionConfig::default();
    assert_eq!(config.resent_interval, 1000);
    assert_eq!(config.response_timeout, 1500);
    assert_eq!(config.heartbeat_interval, 60_000);
    assert_eq!(config.heartbeat_response_timeout, 10_000);
}

#[test]
fn new_connection_offers_its_connect_request_once() {
    let mut con = fresh(5);
    assert!(!con.connected());
    assert_eq!(next(&mut con, 5), Some(CONNECT_REQUEST.to_vec()));
    assert_eq!(next(&mut con, 5), None);
    assert_eq!(next(&mut con, 900), None);
}

#[test]
fn connect_request_is_offered_again_after_the_resend_interval() {
    let mut con = fresh(0);
    assert_eq!(next(&mut con, 10), Some(CONNECT_REQUEST.to_vec()));
    assert_eq!(con.get_next_time_event(), 1010);
    assert_eq!(con.handle_time_events(1009), Ok(()));
    assert_eq!(next(&mut con, 1009), None);
    assert_eq!(con.handle_time_events(1010), Ok(()));
    assert_eq!(next(&mut con, 1010), Some(CONNECT_REQUEST.to_vec()));
    assert_eq!(next(&mut con, 1010), None);
}

#[test]
fn connect_request_without_answer_fails_the_session() {
    let mut con = fresh(0);
    assert_eq!(next(&mut con, 0), Some(CONNECT_REQUEST.to_vec()));
    assert_eq!(con.handle_time_events(1499), Ok(()));
    assert_eq!(con.handle_time_events(1500), Err(TunnelError::ConnectTimeout));
    assert_eq!(con.handle_time_events(9000), Err(TunnelError::ConnectTimeout));
    assert!(!con.connected());
}

#[test]
fn connect_response_opens_the_channel() {
    let mut con = fresh(0);
    assert_eq!(next(&mut con, 0), Some(CONNECT_REQUEST.to_vec()));
    assert_eq!(con.handle_inbound_message(&CONNECT_RESPONSE, 20), None);
    assert!(con.connected());
    assert_eq!(next(&mut con, 20), None);
    assert_eq!(con.handle_time_events(5000), Ok(()));
    assert_eq!(next(&mut con, 5000), None);
}

#[test]
fn refused_connection_stays_connecting() {
    let mut con = fresh(0);
    assert_eq!(next(&mut con, 0), Some(CONNECT_REQUEST.to_vec()));
    let refused = [0x06, 0x10, 0x02, 0x06, 0x00, 0x08, 0x00, 0x24];
    assert_eq!(con.handle_inbound_message(&refused, 20), None);
    assert!(!con.connected());
    assert_eq!(con.handle_time_events(1000), Ok(()));
    assert_eq!(next(&mut con, 1000), Some(CONNECT_REQUEST.to_vec()));
    assert_eq!(con.handle_time_events(1500), Err(TunnelError::ConnectTimeout));
}

#[test]
fn send_wraps_a_read_into_a_tunnel_request() {
    let mut con = connected(0);
    con.send(
        GroupEvent { address: 0x000A, event_type: GroupEventType::GroupValueRead, data: () },
        100,
    );
    assert_eq!(
        next(&mut con, 100),
        Some(vec![
            0x06, 0x10, 0x04, 0x20, 0x00, 0x15, 0x04, 0x15, 0x00, 0x00, 0x11, 0x00, 0xBC, 0xE0,
            0x00, 0x00, 0x00, 0x0A, 0x01, 0x00, 0x00
        ])
    );
    assert_eq!(next(&mut con, 100), None);
}

#[test]
fn send_counts_the_outbound_sequence_number() {
    let mut con = connected(0);
    con.send(
        GroupEvent { address: 0x0102, event_type: GroupEventType::GroupValueWrite, data: true },
        100,
    );
    con.send(
        GroupEvent {
            address: 0x0103,
            event_type: GroupEventType::GroupValueResponse,
            data: vec![0x0Cu8, 0x1A],
        },
        100,
    );
    assert_eq!(
        next(&mut con, 100),
        Some(vec![
            0x06, 0x10, 0x04, 0x20, 0x00, 0x15, 0x04, 0x15, 0x00, 0x00, 0x11, 0x00, 0xBC, 0xE0,
            0x00, 0x00, 0x01, 0x02, 0x01, 0x00, 0x81
        ])
    );
    assert_eq!(next(&mut con, 100), None);
    assert_eq!(con.handle_inbound_message(&ack(0x15, 0), 110), None);
    assert_eq!(
        next(&mut con, 110),
        Some(vec![
            0x06, 0x10, 0x04, 0x20, 0x00, 0x17, 0x04, 0x15, 0x01, 0x00, 0x11, 0x00, 0xBC, 0xE0,
            0x00, 0x00, 0x01, 0x03, 0x03, 0x00, 0x40, 0x0C, 0x1A
        ])
    );
    assert_eq!(con.handle_inbound_message(&ack(0x15, 1), 120), None);
    assert_eq!(next(&mut con, 120), None);
}

#[test]
fn outbound_sequence_number_wraps_at_256() {
    let mut con = connected(0);
    for n in 0..=256u32 {
        con.send(
            GroupEvent { address: 1, event_type: GroupEventType::GroupValueRead, data: () },
            10,
        );
        let frame = next(&mut con, 10).unwrap();
        assert_eq!(frame[8], (n % 256) as u8);
        assert_eq!(con.handle_inbound_message(&ack(0x15, frame[8]), 10), None);
    }
}

#[test]
fn unanswered_request_is_resent_and_then_given_up() {
    let mut con = connected(0);
    con.send(
        GroupEvent { address: 0x000A, event_type: GroupEventType::GroupValueRead, data: () },
        100,
    );
    let frame = next(&mut con, 100).unwrap();
    assert_eq!(con.get_next_time_event(), 1100);
    assert_eq!(con.handle_time_events(1100), Ok(()));
    assert_eq!(next(&mut con, 1100), Some(frame));
    assert_eq!(con.get_next_time_event(), 1600);
    assert_eq!(con.handle_time_events(1600), Ok(()));
    assert_eq!(next(&mut con, 1600), None);
    assert!(con.connected());
    assert_eq!(con.get_next_time_event(), 60_000);
}

#[test]
fn failed_acknowledgement_leaves_the_request_in_flight() {
    let mut con = connected(0);
    con.send(
        GroupEvent { address: 0x000A, event_type: GroupEventType::GroupValueRead, data: () },
        100,
    );
    let frame = next(&mut con, 100).unwrap();
    let failed = [0x06, 0x10, 0x04, 0x21, 0x00, 0x0A, 0x04, 0x15, 0x00, 0x04];
    assert_eq!(con.handle_inbound_message(&failed, 200), None);
    assert_eq!(con.handle_time_events(1100), Ok(()));
    assert_eq!(next(&mut con, 1100), Some(frame));
}

#[test]
fn expected_tunnel_request_is_acknowledged_and_delivered() {
    let mut con = connected(0);
    let event = con.handle_inbound_message(&write_indication(0x15, 0), 50);
    assert_eq!(
        event,
        Some(GroupEvent {
            address: 0x000A,
            event_type: GroupEventType::GroupValueWrite,
            data: vec![0x03, 0xD4]
        })
    );
    assert_eq!(next(&mut con, 50), Some(ack(0x15, 0)));
    assert_eq!(next(&mut con, 50), None);
    let event = con.handle_inbound_message(&write_indication(0x15, 1), 60);
    assert!(event.is_some());
    assert_eq!(next(&mut con, 60), Some(ack(0x15, 1)));
}

#[test]
fn repeated_tunnel_request_is_acknowledged_and_not_delivered() {
    let mut con = connected(0);
    assert!(con.handle_inbound_message(&write_indication(0x15, 0), 50).is_some());
    assert_eq!(next(&mut con, 50), Some(ack(0x15, 0)));
    assert_eq!(con.handle_inbound_message(&write_indication(0x15, 0), 60), None);
    assert_eq!(next(&mut con, 60), Some(ack(0x15, 0)));
    assert_eq!(next(&mut con, 60), None);
    assert!(con.handle_inbound_message(&write_indication(0x15, 1), 70).is_some());
    assert_eq!(next(&mut con, 70), Some(ack(0x15, 1)));
}

#[test]
fn repetition_of_request_255_is_known_after_the_wrap() {
    let mut con = connected(0);
    for seq in 0..=255u8 {
        assert!(con.handle_inbound_message(&write_indication(0x15, seq), 50).is_some());
        assert_eq!(next(&mut con, 50), Some(ack(0x15, seq)));
    }
    assert_eq!(con.handle_inbound_message(&write_indication(0x15, 255), 60), None);
    assert_eq!(next(&mut con, 60), Some(ack(0x15, 255)));
    assert!(con.handle_inbound_message(&write_indication(0x15, 0), 70).is_some());
}

#[test]
fn foreign_tunnel_request_is_ignored() {
    let mut con = connected(0);
    assert_eq!(con.handle_inbound_message(&write_indication(0x16, 7), 50), None);
    assert_eq!(next(&mut con, 50), None);
    assert_eq!(con.handle_inbound_message(&write_indication(0x16, 0), 50), None);
    assert_eq!(next(&mut con, 50), None);
    assert_eq!(con.handle_inbound_message(&write_indication(0x15, 1), 50), None);
    assert_eq!(con.handle_inbound_message(&write_indication(0x15, 254), 50), None);
    assert_eq!(next(&mut con, 50), None);
    assert!(con.handle_inbound_message(&write_indication(0x15, 0), 50).is_some());
}

#[test]
fn read_and_response_indications_are_delivered() {
    let mut con = connected(0);
    let read = [
        0x06, 0x10, 0x04, 0x20, 0x00, 0x15, 0x04, 0x15, 0x00, 0x00, 0x29, 0x00, 0xBC, 0xE0, 0x11,
        0x01, 0x12, 0x34, 0x01, 0x00, 0x00,
    ];
    assert_eq!(
        con.handle_inbound_message(&read, 50),
        Some(GroupEvent {
            address: 0x1234,
            event_type: GroupEventType::GroupValueRead,
            data: vec![]
        })
    );
    let response = [
        0x06, 0x10, 0x04, 0x20, 0x00, 0x15, 0x04, 0x15, 0x01, 0x00, 0x29, 0x00, 0xBC, 0xE0, 0x11,
        0x01, 0x12, 0x34, 0x01, 0x00, 0x41,
    ];
    assert_eq!(
        con.handle_inbound_message(&response, 60),
        Some(GroupEvent {
            address: 0x1234,
            event_type: GroupEventType::GroupValueResponse,
            data: vec![0x01]
        })
    );
}

#[test]
fn confirmation_is_acknowledged_and_brings_no_event() {
    let mut con = connected(0);
    let confirmation = [
        0x06, 0x10, 0x04, 0x20, 0x00, 0x15, 0x04, 0x15, 0x00, 0x00, 0x2E, 0x00, 0xBC, 0xE0, 0x11,
        0x01, 0x12, 0x34, 0x01, 0x00, 0x00,
    ];
    assert_eq!(con.handle_inbound_message(&confirmation, 50), None);
    assert_eq!(next(&mut con, 50), Some(ack(0x15, 0)));
    assert!(con.handle_inbound_message(&write_indication(0x15, 1), 60).is_some());
}

#[test]
fn malformed_datagram_is_ignored() {
    let mut con = connected(0);
    assert_eq!(con.handle_inbound_message(&[], 50), None);
    assert_eq!(con.handle_inbound_message(&[0x06, 0x10, 0x02, 0x07, 0x00, 0x14], 50), None);
    assert_eq!(con.handle_inbound_message(&[0x06, 0x11, 0x02, 0x07, 0x00, 0x06], 50), None);
    let mut cut = write_indication(0x15, 0);
    cut.truncate(20);
    assert_eq!(con.handle_inbound_message(&cut, 50), None);
    assert_eq!(next(&mut con, 50), None);
    assert!(con.connected());
    assert!(con.handle_inbound_message(&write_indication(0x15, 0), 50).is_some());
}

#[test]
fn heartbeat_probes_the_connection() {
    let mut con = connected(0);
    assert_eq!(con.get_next_time_event(), 60_000);
    assert_eq!(con.handle_time_events(59_999), Ok(()));
    assert_eq!(next(&mut con, 59_999), None);
    assert_eq!(con.handle_time_events(60_000), Ok(()));
    assert_eq!(next(&mut con, 60_000), Some(STATE_REQUEST.to_vec()));
    let alive = [0x06, 0x10, 0x02, 0x08, 0x00, 0x08, 0x15, 0x00];
    assert_eq!(con.handle_inbound_message(&alive, 60_010), None);
    assert!(con.connected());
    assert_eq!(con.handle_time_events(120_000), Ok(()));
    assert_eq!(next(&mut con, 120_000), Some(STATE_REQUEST.to_vec()));
    assert!(con.connected());
}

#[test]
fn second_missed_heartbeat_closes_the_channel() {
    let mut con = connected(0);
    assert_eq!(con.handle_time_events(60_000), Ok(()));
    assert_eq!(next(&mut con, 60_000), Some(STATE_REQUEST.to_vec()));
    assert_eq!(con.handle_time_events(61_500), Ok(()));
    assert!(con.connected());
    assert_eq!(con.handle_time_events(120_000), Ok(()));
    assert!(!con.connected());
    assert_eq!(next(&mut con, 120_000), Some(DISCONNECT_REQUEST.to_vec()));
    assert_eq!(next(&mut con, 120_000), None);
}

#[test]
fn disconnect_response_starts_a_new_session() {
    let mut con = connected(0);
    assert_eq!(con.handle_time_events(60_000), Ok(()));
    assert_eq!(next(&mut con, 60_000), Some(STATE_REQUEST.to_vec()));
    assert_eq!(con.handle_time_events(120_000), Ok(()));
    assert_eq!(next(&mut con, 120_000), Some(DISCONNECT_REQUEST.to_vec()));
    let closed = [0x06, 0x10, 0x02, 0x0A, 0x00, 0x08, 0x15, 0x00];
    assert_eq!(con.handle_inbound_message(&closed, 120_010), None);
    assert!(!con.connected());
    assert_eq!(next(&mut con, 120_010), Some(CONNECT_REQUEST.to_vec()));
    assert_eq!(con.handle_inbound_message(&CONNECT_RESPONSE, 120_020), None);
    assert!(con.connected());
}

#[test]
fn disconnect_request_without_answer_starts_a_new_session() {
    let mut con = connected(0);
    assert_eq!(con.handle_time_events(60_000), Ok(()));
    assert_eq!(next(&mut con, 60_000), Some(STATE_REQUEST.to_vec()));
    assert_eq!(con.handle_time_events(61_500), Ok(()));
    assert_eq!(con.handle_time_events(120_000), Ok(()));
    assert_eq!(next(&mut con, 120_000), Some(DISCONNECT_REQUEST.to_vec()));
    assert_eq!(con.handle_time_events(121_500), Ok(()));
    assert!(!con.connected());
    assert_eq!(next(&mut con, 121_500), Some(CONNECT_REQUEST.to_vec()));
    assert_eq!(con.handle_time_events(123_000), Err(TunnelError::ConnectTimeout));
}

#[test]
fn failed_connection_state_starts_a_new_session() {
    let mut con = connected(0);
    assert_eq!(con.handle_time_events(60_000), Ok(()));
    assert_eq!(next(&mut con, 60_000), Some(STATE_REQUEST.to_vec()));
    let lost = [0x06, 0x10, 0x02, 0x08, 0x00, 0x08, 0x15, 0x21];
    assert_eq!(con.handle_inbound_message(&lost, 60_010), None);
    assert!(!con.connected());
    assert_eq!(next(&mut con, 60_010), Some(CONNECT_REQUEST.to_vec()));
}

#[test]
fn disconnect_request_of_the_gateway_is_answered_before_the_new_session() {
    let mut con = connected(0);
    con.send(
        GroupEvent { address: 0x000A, event_type: GroupEventType::GroupValueRead, data: () },
        100,
    );
    let foreign = [
        0x06, 0x10, 0x02, 0x09, 0x00, 0x10, 0x16, 0x00, 0x08, 0x01, 0xC0, 0xA8, 0xC8, 0x14, 0xC3,
        0xB4,
    ];
    assert_eq!(con.handle_inbound_message(&foreign, 200), None);
    assert!(con.connected());
    let ours = [
        0x06, 0x10, 0x02, 0x09, 0x00, 0x10, 0x15, 0x00, 0x08, 0x01, 0xC0, 0xA8, 0xC8, 0x14, 0xC3,
        0xB4,
    ];
    assert_eq!(con.handle_inbound_message(&ours, 200), None);
    assert!(!con.connected());
    assert_eq!(next(&mut con, 200), Some(vec![0x06, 0x10, 0x02, 0x0A, 0x00, 0x08, 0x15, 0x00]));
    assert_eq!(next(&mut con, 200), Some(CONNECT_REQUEST.to_vec()));
    assert_eq!(next(&mut con, 200), None);
}

#[test]
fn acknowledgements_go_before_the_request_in_flight() {
    let mut con = connected(0);
    con.send(
        GroupEvent { address: 0x000A, event_type: GroupEventType::GroupValueRead, data: () },
        100,
    );
    assert!(con.handle_inbound_message(&write_indication(0x15, 0), 100).is_some());
    assert_eq!(next(&mut con, 100), Some(ack(0x15, 0)));
    let request = next(&mut con, 100).unwrap();
    assert_eq!(&request[2..4], &[0x04, 0x20]);
    assert_eq!(next(&mut con, 100), None);
}

#[test]
fn next_time_event_is_the_earliest_deadline() {
    let config = TunnelConnectionConfig {
        resent_interval: 700,
        response_timeout: 300,
        heartbeat_response_timeout: 0,
        heartbeat_interval: 500,
    };
    let mut con = TunnelConnection::new([10, 0, 0, 1], 1, config, 1000);
    assert_eq!(con.get_next_time_event(), 1300);
    con.get_outbound_data(1100);
    assert_eq!(con.get_next_time_event(), 1300);
    let late = TunnelConnection::new([10, 0, 0, 1], 1, config, u64::MAX - 10);
    assert_eq!(late.get_next_time_event(), u64::MAX);
}

#[test]
fn try_send_refuses_what_does_not_fit_a_telegram() {
    let mut con = connected(0);
    let long =
        GroupEvent { address: 1, event_type: GroupEventType::GroupValueWrite, data: vec![0u8; 245] };
    assert!(!con.try_send(long, 10));
    assert_eq!(next(&mut con, 10), None);

    let longest =
        GroupEvent { address: 1, event_type: GroupEventType::GroupValueWrite, data: vec![0u8; 244] };
    assert!(con.try_send(longest, 10));
    let frame = next(&mut con, 10).unwrap();
    assert_eq!(frame.len(), 6 + 4 + 2 + 8 + 1 + 244);
    assert_eq!(&frame[4..6], &[0x01, 0x09]);
    assert_eq!(frame[8], 0);
    assert_eq!(frame[18], 245);

    let read = GroupEvent {
        address: 1,
        event_type: GroupEventType::GroupValueRead,
        data: vec![0u8; 9000],
    };
    assert!(con.try_send(read, 10));
}

#[test]
fn a_value_without_a_bit_is_sent_as_the_service_code_alone() {
    let mut con = connected(0);
    let unit = GroupEvent { address: 0x000A, event_type: GroupEventType::GroupValueWrite, data: () };
    assert!(con.try_send(unit, 10));
    assert_eq!(
        next(&mut con, 10),
        Some(vec![
            0x06, 0x10, 0x04, 0x20, 0x00, 0x15, 0x04, 0x15, 0x00, 0x00, 0x11, 0x00, 0xBC, 0xE0,
            0x00, 0x00, 0x00, 0x0A, 0x01, 0x00, 0x80
        ])
    );
    assert_eq!(con.handle_inbound_message(&ack(0x15, 0), 20), None);

    let empty = GroupEvent {
        address: 0x000A,
        event_type: GroupEventType::GroupValueResponse,
        data: Vec::<u8>::new(),
    };
    con.send(empty, 30);
    assert_eq!(
        next(&mut con, 30),
        Some(vec![
            0x06, 0x10, 0x04, 0x20, 0x00, 0x15, 0x04, 0x15, 0x01, 0x00, 0x11, 0x00, 0xBC, 0xE0,
            0x00, 0x00, 0x00, 0x0A, 0x01, 0x00, 0x40
        ])
    );
}
