use captive_portal::clock::{ClockError, Duration, Instant, TICK_HZ};
use captive_portal::dhcp_codec::{
    parse, CodecError, DhcpMessage, DhcpMessageType, DhcpRepr,
};
use captive_portal::dhcp_server::{DhcpAssignment, DhcpError, DhcpServer};
use captive_portal::wire::{EthernetAddress, Ipv4Address};
use smoltcp::wire::{DhcpMessageType as WireType, DhcpPacket, DhcpRepr as WireRepr};

const SERVER: Ipv4Address = Ipv4Address([169, 254, 1, 1]);
const NOTHING: Ipv4Address = Ipv4Address([0, 0, 0, 0]);

fn client(n: u8) -> EthernetAddress {
    EthernetAddress([0x02, 0, 0, 0, 0, n])
}

fn server<const N: usize>() -> DhcpServer<N> {
    DhcpServer::<N>::new(SERVER, Duration::from_ticks(3600 * TICK_HZ)).unwrap()
}

fn message(kind: DhcpMessageType, n: u8, transaction_id: u32) -> DhcpMessage {
    DhcpMessage {
        message_type: kind,
        transaction_id,
        client_hardware_address: client(n),
        client_ip: NOTHING,
        client_identifier: None,
    }
}

/// A buffer of `capacity` bytes that holds the message a client sends.
fn client_packet(kind: WireType, n: u8, transaction_id: u32, capacity: usize) -> Vec<u8> {
    let repr = WireRepr {
        message_type: kind,
        transaction_id,
        secs: 0,
        client_hardware_address: smoltcp::wire::EthernetAddress(client(n).0),
        client_ip: smoltcp::wire::Ipv4Address::UNSPECIFIED,
        your_ip: smoltcp::wire::Ipv4Address::UNSPECIFIED,
        server_ip: smoltcp::wire::Ipv4Address::UNSPECIFIED,
        router: None,
        subnet_mask: None,
        relay_agent_ip: smoltcp::wire::Ipv4Address::UNSPECIFIED,
        broadcast: false,
        requested_ip: None,
        client_identifier: None,
        server_identifier: None,
        parameter_request_list: None,
        dns_servers: None,
        max_size: None,
        lease_duration: None,
        renew_duration: None,
        rebind_duration: None,
        additional_options: &[],
    };
    let mut buffer = vec![0u8; capacity];
    let mut packet = DhcpPacket::new_checked(&mut buffer[..]).unwrap();
    repr.emit(&mut packet).unwrap();
    buffer
}

#[test]
fn discover_is_answered_with_an_offer() {
    let mut server = server::<4>();
    let reply = server
        .process_message_at(&message(DhcpMessageType::Discover, 1, 0x11), Instant::from_ticks(5));
    assert_eq!(
        reply,
        Ok(Some(DhcpRepr {
            message_type: DhcpMessageType::Offer,
            transaction_id: 0x11,
            client_hardware_address: client(1),
            client_ip: NOTHING,
            your_ip: Ipv4Address::new(169, 254, 1, 2),
            server_ip: SERVER,
            server_identifier: Some(SERVER),
            dns_server: Some(SERVER),
            lease_duration: Some(3600),
        }))
    );
    assert_eq!(
        server.assignment(0),
        Some(DhcpAssignment::Offered { transaction_id: 0x11, identifier: client(1) })
    );
}

#[test]
fn offer_states_the_lease_in_whole_seconds() {
    let address = Ipv4Address::new(169, 254, 1, 1);
    for (ticks, seconds) in [
        (0u64, 0u32),
        (TICK_HZ - 1, 0),
        (TICK_HZ, 1),
        (90 * TICK_HZ + 999_999, 90),
        (u32::MAX as u64 * TICK_HZ, u32::MAX),
        ((u32::MAX as u64 + 1) * TICK_HZ, 0),
        ((u32::MAX as u64 + 61) * TICK_HZ, 60),
    ] {
        let mut server = DhcpServer::<2>::new(address, Duration::from_ticks(ticks)).unwrap();
        let reply = server
            .process_message_at(&message(DhcpMessageType::Discover, 1, 1), Instant::from_ticks(0))
            .unwrap()
            .unwrap();
        assert_eq!(reply.lease_duration, Some(seconds));
    }
}

#[test]
fn request_is_answered_with_an_ack_or_a_nak() {
    let mut server = server::<4>();
    let mut request = message(DhcpMessageType::Request, 1, 0x11);
    request.client_ip = Ipv4Address::new(169, 254, 1, 40);
    assert_eq!(
        server.process_message_at(&request, Instant::from_ticks(5)),
        Ok(Some(DhcpRepr {
            message_type: DhcpMessageType::Nak,
            transaction_id: 0x11,
            client_hardware_address: client(1),
            client_ip: Ipv4Address::new(169, 254, 1, 40),
            your_ip: NOTHING,
            server_ip: NOTHING,
            server_identifier: Some(NOTHING),
            dns_server: Some(NOTHING),
            lease_duration: None,
        }))
    );
    server
        .process_message_at(&message(DhcpMessageType::Discover, 0, 0x10), Instant::from_ticks(5))
        .unwrap();
    server
        .process_message_at(&message(DhcpMessageType::Discover, 1, 0x11), Instant::from_ticks(5))
        .unwrap();
    assert_eq!(
        server.process_message_at(&request, Instant::from_ticks(6)),
        Ok(Some(DhcpRepr {
            message_type: DhcpMessageType::Ack,
            transaction_id: 0x11,
            client_hardware_address: client(1),
            client_ip: Ipv4Address::new(169, 254, 1, 40),
            your_ip: Ipv4Address::new(169, 254, 1, 3),
            server_ip: SERVER,
            server_identifier: Some(SERVER),
            dns_server: Some(SERVER),
            lease_duration: None,
        }))
    );
    assert_eq!(
        server.assignment(1),
        Some(DhcpAssignment::Assigned {
            transaction_id: 0x11,
            identifier: client(1),
            lease_end_time: Instant::from_ticks(6 + 3600 * TICK_HZ),
        })
    );
}

#[test]
fn other_messages_get_no_answer_and_change_nothing() {
    let mut server = server::<2>();
    server
        .process_message_at(&message(DhcpMessageType::Discover, 1, 1), Instant::from_ticks(5))
        .unwrap();
    for kind in [
        DhcpMessageType::Offer,
        DhcpMessageType::Decline,
        DhcpMessageType::Ack,
        DhcpMessageType::Nak,
        DhcpMessageType::Release,
        DhcpMessageType::Inform,
        DhcpMessageType::Unknown(0),
        DhcpMessageType::Unknown(77),
    ] {
        assert_eq!(server.process_message_at(&message(kind, 1, 1), Instant::from_ticks(6)), Ok(None));
        assert_eq!(
            server.assignment(0),
            Some(DhcpAssignment::Offered { transaction_id: 1, identifier: client(1) })
        );
        assert_eq!(server.assignment(1), Some(DhcpAssignment::Free));
    }
}

#[test]
fn discover_for_a_full_table_gets_no_answer() {
    let mut server = server::<1>();
    let now = Instant::from_ticks(5);
    server.process_message_at(&message(DhcpMessageType::Discover, 1, 1), now).unwrap();
    server.process_message_at(&message(DhcpMessageType::Request, 1, 1), now).unwrap();
    assert_eq!(server.process_message_at(&message(DhcpMessageType::Discover, 2, 2), now), Ok(None));
}

#[test]
fn request_past_the_range_of_the_clock_fails() {
    let mut server = server::<1>();
    let now = Instant::from_ticks(u64::MAX);
    server.process_message_at(&message(DhcpMessageType::Discover, 1, 1), now).unwrap();
    assert_eq!(
        server.process_message_at(&message(DhcpMessageType::Request, 1, 1), now),
        Err(ClockError)
    );
    let mut buffer = client_packet(WireType::Request, 1, 1, 512);
    let before = buffer.clone();
    assert_eq!(server.process_packet_at(&mut buffer, now), Err(DhcpError::Clock(ClockError)));
    assert_eq!(buffer, before);
}

#[test]
fn discover_packet_is_answered_with_an_offer_packet() {
    let mut server = server::<4>();
    let mut buffer = client_packet(WireType::Discover, 3, 0xcafe_f00d, 2048);
    assert_eq!(server.process_packet_at(&mut buffer, Instant::from_ticks(9)), Ok(Some(262)));
    assert_eq!(
        parse(&buffer[..262]),
        Ok(DhcpMessage {
            message_type: DhcpMessageType::Offer,
            transaction_id: 0xcafe_f00d,
            client_hardware_address: client(3),
            client_ip: NOTHING,
            client_identifier: None,
        })
    );
    // the offered address, the server, and the lease time
    assert_eq!(&buffer[16..20], &[169, 254, 1, 2]);
    assert_eq!(&buffer[20..24], &[169, 254, 1, 1]);
    assert_eq!(&buffer[249..255], &[51, 4, 0, 0, 0x0e, 0x10]);
    assert_eq!(
        server.assignment(0),
        Some(DhcpAssignment::Offered { transaction_id: 0xcafe_f00d, identifier: client(3) })
    );
}

#[test]
fn request_packet_is_answered_with_an_ack_packet() {
    let mut server = server::<4>();
    let now = Instant::from_ticks(9);
    let mut buffer = client_packet(WireType::Discover, 0, 1, 2048);
    server.process_packet_at(&mut buffer, now).unwrap();
    let mut buffer = client_packet(WireType::Discover, 3, 2, 2048);
    server.process_packet_at(&mut buffer, now).unwrap();
    let mut buffer = client_packet(WireType::Request, 3, 2, 2048);
    assert_eq!(server.process_packet_at(&mut buffer, now), Ok(Some(256)));
    assert_eq!(parse(&buffer[..256]).map(|m| m.message_type), Ok(DhcpMessageType::Ack));
    assert_eq!(&buffer[4..8], &[0, 0, 0, 2]);
    // the acknowledged address is that of slot 1
    assert_eq!(&buffer[16..20], &[169, 254, 1, 3]);
    assert_eq!(&buffer[28..34], &client(3).0);
}

#[test]
fn unmatched_request_packet_is_answered_with_a_nak_packet() {
    let mut server = server::<4>();
    let mut buffer = client_packet(WireType::Request, 3, 2, 2048);
    assert_eq!(server.process_packet_at(&mut buffer, Instant::from_ticks(9)), Ok(Some(256)));
    assert_eq!(parse(&buffer[..256]).map(|m| m.message_type), Ok(DhcpMessageType::Nak));
    assert_eq!(&buffer[16..20], &[0, 0, 0, 0]);
}

#[test]
fn other_packets_are_left_alone() {
    let mut server = server::<4>();
    for kind in [WireType::Decline, WireType::Release, WireType::Inform] {
        let mut buffer = client_packet(kind, 3, 2, 300);
        let before = buffer.clone();
        assert_eq!(server.process_packet_at(&mut buffer, Instant::from_ticks(9)), Ok(None));
        assert_eq!(buffer, before);
    }
    assert_eq!(server.assignment(0), Some(DhcpAssignment::Free));
}

#[test]
fn malformed_packet_is_an_error_and_changes_nothing() {
    let mut server = server::<4>();
    let mut buffer = vec![0x17u8; 300];
    let before = buffer.clone();
    assert_eq!(
        server.process_packet_at(&mut buffer, Instant::from_ticks(9)),
        Err(DhcpError::Codec(CodecError::Malformed))
    );
    assert_eq!(buffer, before);
    let mut short = vec![0u8; 100];
    assert_eq!(
        server.process_packet_at(&mut short, Instant::from_ticks(9)),
        Err(DhcpError::Codec(CodecError::Malformed))
    );
    assert_eq!(server.assignment(0), Some(DhcpAssignment::Free));
}

#[test]
fn answer_that_does_not_fit_is_an_error() {
    let mut server = server::<4>();
    // room for the Discover, not for the Offer
    let mut buffer = client_packet(WireType::Discover, 3, 2, 250);
    assert_eq!(
        server.process_packet_at(&mut buffer, Instant::from_ticks(9)),
        Err(DhcpError::Codec(CodecError::BufferTooSmall))
    );
    // the slot was offered all the same
    assert_eq!(
        server.assignment(0),
        Some(DhcpAssignment::Offered { transaction_id: 2, identifier: client(3) })
    );
}

#[test]
fn packets_on_the_system_clock() {
    let mut server = server::<2>();
    let mut buffer = client_packet(WireType::Discover, 1, 7, 1024);
    assert_eq!(server.process_packet(&mut buffer), Ok(Some(262)));
    assert_eq!(parse(&buffer).map(|m| m.message_type), Ok(DhcpMessageType::Offer));
    let mut buffer = client_packet(WireType::Request, 1, 7, 1024);
    assert_eq!(server.process_packet(&mut buffer), Ok(Some(256)));
    assert_eq!(parse(&buffer).map(|m| m.message_type), Ok(DhcpMessageType::Ack));
    let mut buffer = client_packet(WireType::Request, 2, 8, 1024);
    assert_eq!(server.process_packet(&mut buffer), Ok(Some(256)));
    assert_eq!(parse(&buffer).map(|m| m.message_type), Ok(DhcpMessageType::Nak));
    let mut buffer = client_packet(WireType::Release, 1, 7, 1024);
    assert_eq!(server.process_packet(&mut buffer), Ok(None));
}
