use captive_portal::dns_packet::{
    header_is_eligible, DnsHeader, DnsPacket, DnsQuestion, ANSWER_RECORD_SIZE, DNS_HEADER_SIZE,
};
use captive_portal::wire::Ipv4Address;

/// A query with the given flags byte and QDCOUNT, followed by `question`.
fn query(flags: u8, question_count: u16, question: &[u8]) -> Vec<u8> {
    let mut bytes = vec![0xAB, 0xCD, flags, 0x00];
    bytes.extend_from_slice(&question_count.to_be_bytes());
    bytes.extend_from_slice(&[0, 0, 0, 0, 0, 0]);
    bytes.extend_from_slice(question);
    bytes
}

/// The question for the single label "test", type A, class IN.
fn test_question() -> Vec<u8> {
    vec![4, b't', b'e', b's', b't', 0, 0, 1, 0, 1]
}

#[test]
fn header_needs_twelve_bytes() {
    assert!(DnsHeader::new_checked(&[0u8; 11]).is_none());
    assert!(DnsHeader::new_checked(&[0u8; 12]).is_some());
    assert!(DnsHeader::new_checked(&[]).is_none());
    assert!(DnsHeader::new_checked(&[0u8; 512]).is_some());
}

#[test]
fn header_reads_the_qr_bit() {
    let bytes = query(0x00, 1, &[]);
    assert!(DnsHeader::new_checked(&bytes).unwrap().is_query());
    let bytes = query(0x7f, 1, &[]);
    assert!(DnsHeader::new_checked(&bytes).unwrap().is_query());
    let bytes = query(0x80, 1, &[]);
    assert!(!DnsHeader::new_checked(&bytes).unwrap().is_query());
    let bytes = query(0xff, 1, &[]);
    assert!(!DnsHeader::new_checked(&bytes).unwrap().is_query());
}

#[test]
fn header_reads_the_opcode() {
    // RD, TC, AA and QR do not count, the four bits in between do
    for flags in [0x00u8, 0x01, 0x02, 0x04, 0x07, 0x80, 0x87] {
        let bytes = query(flags, 1, &[]);
        assert!(DnsHeader::new_checked(&bytes).unwrap().is_standard_query());
    }
    for flags in [0x08u8, 0x10, 0x20, 0x40, 0x78, 0x28, 0xf8] {
        let bytes = query(flags, 1, &[]);
        assert!(!DnsHeader::new_checked(&bytes).unwrap().is_standard_query());
    }
}

#[test]
fn header_reads_the_question_count() {
    for count in [0u16, 1, 2, 255, 256, 0x1234, 0xffff] {
        let bytes = query(0, count, &[]);
        assert_eq!(DnsHeader::new_checked(&bytes).unwrap().question_count(), count);
    }
}

#[test]
fn eligible_is_a_standard_query_with_one_question() {
    assert!(header_is_eligible(&query(0x00, 1, &[])));
    assert!(header_is_eligible(&query(0x01, 1, &[])));
    assert!(!header_is_eligible(&query(0x80, 1, &[])));
    assert!(!header_is_eligible(&query(0x08, 1, &[])));
    assert!(!header_is_eligible(&query(0x00, 0, &[])));
    assert!(!header_is_eligible(&query(0x00, 2, &[])));
    assert!(!header_is_eligible(&query(0x00, 256, &[])));
    assert!(!header_is_eligible(&[0u8; 11]));
}

#[test]
fn question_length_of_a_single_label() {
    assert_eq!(DnsQuestion::length(&test_question()), Some(10));
}

#[test]
fn question_length_sums_the_labels() {
    let mut name = Vec::new();
    for label in ["www", "example", "com"] {
        name.push(label.len() as u8);
        name.extend_from_slice(label.as_bytes());
    }
    name.push(0);
    name.extend_from_slice(&[0, 1, 0, 1]);
    // (1 + 3) + (1 + 7) + (1 + 3), the terminator, QTYPE and QCLASS
    assert_eq!(DnsQuestion::length(&name), Some(4 + 8 + 4 + 1 + 4));
    // what follows the name plays no part
    name.extend_from_slice(&[9, 9, 9, 9, 9]);
    assert_eq!(DnsQuestion::length(&name), Some(21));
}

#[test]
fn question_length_of_the_root_name() {
    assert_eq!(DnsQuestion::length(&[0, 0, 1, 0, 1]), Some(5));
    // the four bytes behind the terminator are counted, present or not
    assert_eq!(DnsQuestion::length(&[0]), Some(5));
}

#[test]
fn question_length_takes_the_longest_label() {
    let mut name = vec![255u8];
    name.extend_from_slice(&[b'x'; 255]);
    name.push(0);
    assert_eq!(DnsQuestion::length(&name), Some(256 + 1 + 4));
}

#[test]
fn question_length_of_a_truncated_name() {
    assert_eq!(DnsQuestion::length(&[]), None);
    assert_eq!(DnsQuestion::length(&[4, b't', b'e', b's', b't']), None);
    assert_eq!(DnsQuestion::length(&[4, b't', b'e']), None);
    assert_eq!(DnsQuestion::length(&[4]), None);
    assert_eq!(DnsQuestion::length(&[1, b'a', 1, b'b', 1]), None);
    assert_eq!(DnsQuestion::length(&[3, b'a', b'b', b'c', 200, 0]), None);
}

#[test]
fn question_is_accepted_when_its_name_ends() {
    assert!(DnsQuestion::new_checked(&test_question()).is_some());
    assert!(DnsQuestion::new_checked(&[0]).is_some());
    assert!(DnsQuestion::new_checked(&[]).is_none());
    assert!(DnsQuestion::new_checked(&[4, b't', b'e', b's', b't']).is_none());
}

#[test]
fn packet_wraps_any_buffer() {
    assert!(DnsPacket::new_checked(&[]).is_some());
    assert!(DnsPacket::new_checked(&[1, 2, 3]).is_some());
    assert!(DnsPacket::new_checked(&query(0, 1, &test_question())).is_some());
}

#[test]
fn packet_hands_out_its_header() {
    let bytes = query(0x01, 3, &test_question());
    let packet = DnsPacket::new_checked(&bytes).unwrap();
    let header = packet.header();
    assert!(header.is_query());
    assert!(header.is_standard_query());
    assert_eq!(header.question_count(), 3);
}

#[test]
fn packet_finds_its_questions() {
    let mut questions = test_question();
    questions.extend_from_slice(&[2, b'a', b'b', 0, 0, 1, 0, 1]);
    questions.extend_from_slice(&[1, b'c', 0, 0, 1, 0, 1]);
    let bytes = query(0, 3, &questions);
    let packet = DnsPacket::new_checked(&bytes).unwrap();
    assert!(packet.question(0).is_some());
    assert!(packet.question(1).is_some());
    assert!(packet.question(2).is_some());
    assert!(packet.question(3).is_none());
    assert!(packet.question(u16::MAX).is_none());
}

#[test]
fn packet_has_no_question_past_a_truncated_one() {
    // the second question is cut short, so stepping over it fails
    let mut questions = test_question();
    questions.extend_from_slice(&[2, b'a']);
    let bytes = query(0, 4, &questions);
    let packet = DnsPacket::new_checked(&bytes).unwrap();
    assert!(packet.question(0).is_some());
    assert!(packet.question(1).is_some());
    assert!(packet.question(2).is_none());
    assert!(packet.question(3).is_none());
}

#[test]
fn packet_without_a_header_has_no_question() {
    assert!(DnsPacket::new_checked(&[]).unwrap().question(0).is_none());
    assert!(DnsPacket::new_checked(&[0u8; 11]).unwrap().question(0).is_none());
    // a header that announces a question, and nothing behind it
    assert!(DnsPacket::new_checked(&query(0, 1, &[])).unwrap().question(0).is_none());
    // no question announced
    let bytes = query(0, 0, &test_question());
    assert!(DnsPacket::new_checked(&bytes).unwrap().question(0).is_none());
}

#[test]
fn query_for_a_single_label_is_answered() {
    let address = Ipv4Address::new(169, 254, 1, 1);
    let mut buffer = query(0x00, 1, &test_question());
    buffer.resize(64, 0xEE);
    let before = buffer.clone();
    let question_length = 10;
    let response = DnsPacket::transform_query_to_response(&mut buffer, address).unwrap().to_vec();

    assert_eq!(response.len(), DNS_HEADER_SIZE + question_length + ANSWER_RECORD_SIZE);
    // identifier kept, QR and AA set, fixed second flags byte
    assert_eq!(&response[0..2], &[0xAB, 0xCD]);
    assert_eq!(response[2] & 0x80, 0x80);
    assert_eq!(response[2] & 0x04, 0x04);
    assert_eq!(response[2], 0x84);
    assert_eq!(response[3], 0x80);
    // QDCOUNT 1, ANCOUNT 1, NSCOUNT 0, ARCOUNT 0
    assert_eq!(&response[4..12], &[0, 1, 0, 1, 0, 0, 0, 0]);
    // the question as it came
    assert_eq!(&response[12..22], &test_question()[..]);
    // the answer record
    assert_eq!(
        &response[22..34],
        &[0xC0, 0x0C, 0x00, 0x01, 0x00, 0x01, 0, 0, 0, 60, 0, 4]
    );
    let answer_start = DNS_HEADER_SIZE + question_length;
    assert_eq!(&response[answer_start + 12..answer_start + 16], &[169, 254, 1, 1]);
    // the buffer holds the response, and behind it what it held before
    assert_eq!(&buffer[..38], &response[..]);
    assert_eq!(&buffer[38..], &before[38..]);
}

#[test]
fn response_keeps_the_other_flag_bits_of_the_query() {
    let address = Ipv4Address::new(10, 0, 0, 1);
    // RD set in the query
    let mut buffer = query(0x01, 1, &test_question());
    buffer.resize(38, 0);
    let response = DnsPacket::transform_query_to_response(&mut buffer, address).unwrap();
    assert_eq!(response[2], 0x85);
    // TC and RD set
    let mut buffer = query(0x03, 1, &test_question());
    buffer.resize(38, 0);
    let response = DnsPacket::transform_query_to_response(&mut buffer, address).unwrap();
    assert_eq!(response[2], 0x87);
}

#[test]
fn response_carries_the_address_for_any_name() {
    let address = Ipv4Address::new(198, 51, 100, 7);
    let mut question = Vec::new();
    for label in ["connectivitycheck", "gstatic", "com"] {
        question.push(label.len() as u8);
        question.extend_from_slice(label.as_bytes());
    }
    question.extend_from_slice(&[0, 0, 1, 0, 1]);
    let question_length = question.len();
    let mut buffer = query(0x01, 1, &question);
    buffer.resize(2048, 0);
    let response = DnsPacket::transform_query_to_response(&mut buffer, address).unwrap();
    assert_eq!(response.len(), 12 + question_length + 16);
    assert_eq!(&response[response.len() - 4..], &[198, 51, 100, 7]);
    assert_eq!(&response[12..12 + question_length], &question[..]);
}

#[test]
fn response_fits_exactly() {
    let address = Ipv4Address::new(1, 2, 3, 4);
    let mut buffer = query(0x00, 1, &test_question());
    buffer.resize(12 + 10 + 16, 0);
    assert_eq!(
        DnsPacket::transform_query_to_response(&mut buffer, address).map(|r| r.len()),
        Some(38)
    );
    // one byte less and there is no room for the answer
    let mut buffer = query(0x00, 1, &test_question());
    buffer.resize(12 + 10 + 15, 0);
    let before = buffer.clone();
    assert!(DnsPacket::transform_query_to_response(&mut buffer, address).is_none());
    assert_eq!(buffer, before);
}

#[test]
fn query_with_two_questions_gets_no_response() {
    let address = Ipv4Address::new(169, 254, 1, 1);
    let mut questions = test_question();
    questions.extend_from_slice(&test_question());
    let mut buffer = query(0x00, 2, &questions);
    buffer.resize(128, 0);
    let before = buffer.clone();
    assert!(DnsPacket::transform_query_to_response(&mut buffer, address).is_none());
    assert_eq!(buffer, before);
}

#[test]
fn query_with_no_question_gets_no_response() {
    let address = Ipv4Address::new(169, 254, 1, 1);
    let mut buffer = query(0x00, 0, &test_question());
    buffer.resize(128, 0);
    assert!(DnsPacket::transform_query_to_response(&mut buffer, address).is_none());
}

#[test]
fn query_with_another_opcode_gets_no_response() {
    let address = Ipv4Address::new(169, 254, 1, 1);
    for flags in [0x08u8, 0x10, 0x28, 0x78] {
        let mut buffer = query(flags, 1, &test_question());
        buffer.resize(128, 0);
        let before = buffer.clone();
        assert!(DnsPacket::transform_query_to_response(&mut buffer, address).is_none());
        assert_eq!(buffer, before);
    }
}

#[test]
fn response_gets_no_response() {
    let address = Ipv4Address::new(169, 254, 1, 1);
    let mut buffer = query(0x80, 1, &test_question());
    buffer.resize(128, 0);
    let before = buffer.clone();
    assert!(DnsPacket::transform_query_to_response(&mut buffer, address).is_none());
    assert_eq!(buffer, before);
}

#[test]
fn query_with_a_truncated_name_gets_no_response() {
    let address = Ipv4Address::new(169, 254, 1, 1);
    // the name never reaches a zero-length label
    let mut buffer = query(0x00, 1, &[4, b't', b'e', b's', b't']);
    let before = buffer.clone();
    assert!(DnsPacket::transform_query_to_response(&mut buffer, address).is_none());
    assert_eq!(buffer, before);
    // a label that claims more bytes than there are
    let mut buffer = query(0x00, 1, &[40, b't', b'e', b's', b't', 0, 0, 1, 0, 1]);
    assert!(DnsPacket::transform_query_to_response(&mut buffer, address).is_none());
}

#[test]
fn short_buffer_gets_no_response() {
    let address = Ipv4Address::new(169, 254, 1, 1);
    let mut empty: [u8; 0] = [];
    assert!(DnsPacket::transform_query_to_response(&mut empty, address).is_none());
    let mut short = [0u8, 0, 0, 0, 0, 1, 0, 0, 0, 0, 0];
    assert!(DnsPacket::transform_query_to_response(&mut short, address).is_none());
    // a header and nothing else
    let mut header_only = query(0x00, 1, &[]);
    assert!(DnsPacket::transform_query_to_response(&mut header_only, address).is_none());
}
