//! DHCP messages as the server reads and writes them. The wire format is
//! `smoltcp`'s: this module converts to and from it and states what the
//! rest of the crate relies on.

use crate::wire::{EthernetAddress, Ipv4Address};
use heapless::Vec as WireList;
use smoltcp::wire::{
    DhcpPacket, DhcpRepr as WireRepr, EthernetAddress as WireEthernet, Ipv4Address as WireIpv4,
};
use vstd::prelude::*;

verus! {

/// Length of the fixed part of a DHCP message, up to and including the
/// magic cookie.
pub const DHCP_FIXED_SIZE: usize = 240;

/// `smoltcp::wire::Error`: a packet that is malformed, or a buffer that
/// is too short for what is written to it.
#[verifier::external_type_specification]
#[verifier::external_body]
pub struct ExWireError(smoltcp::wire::Error);

/// Why a message could not be read or written.
#[derive(Debug, Clone, Copy, PartialEq, Eq, Structural)]
pub enum CodecError {
    /// The bytes are not a DHCP message this codec understands.
    Malformed,
    /// The output buffer cannot hold the message.
    BufferTooSmall,
}

/// The kind of a DHCP message, as option 53 carries it.
#[derive(Debug, Clone, Copy, PartialEq, Eq, Structural)]
pub enum DhcpMessageType {
    Discover,
    Offer,
    Request,
    Decline,
    Ack,
    Nak,
    Release,
    Inform,
    Unknown(u8),
}

impl DhcpMessageType {
    /// The kind that option value `code` stands for.
    pub open spec fn spec_from_code(code: u8) -> DhcpMessageType {
        match code {
            1u8 => DhcpMessageType::Discover,
            2u8 => DhcpMessageType::Offer,
            3u8 => DhcpMessageType::Request,
            4u8 => DhcpMessageType::Decline,
            5u8 => DhcpMessageType::Ack,
            6u8 => DhcpMessageType::Nak,
            7u8 => DhcpMessageType::Release,
            8u8 => DhcpMessageType::Inform,
            other => DhcpMessageType::Unknown(other),
        }
    }

    /// The option value that stands for this kind.
    pub open spec fn spec_code(self) -> u8 {
        match self {
            DhcpMessageType::Discover => 1,
            DhcpMessageType::Offer => 2,
            DhcpMessageType::Request => 3,
            DhcpMessageType::Decline => 4,
            DhcpMessageType::Ack => 5,
            DhcpMessageType::Nak => 6,
            DhcpMessageType::Release => 7,
            DhcpMessageType::Inform => 8,
            DhcpMessageType::Unknown(code) => code,
        }
    }

    /// Whether this is the kind that its own code stands for: every kind
    /// but an `Unknown` that holds the code of a known kind.
    pub open spec fn spec_is_canonical(self) -> bool {
        self == DhcpMessageType::spec_from_code(self.spec_code())
    }

    /// The value of the `op` field of a message whose kind has this code:
    /// 1 for what clients send, 2 for what servers send, 0 for a code that
    /// stands for no known kind.
    pub open spec fn spec_opcode(self) -> u8 {
        match DhcpMessageType::spec_from_code(self.spec_code()) {
            DhcpMessageType::Discover
            | DhcpMessageType::Request
            | DhcpMessageType::Decline
            | DhcpMessageType::Release
            | DhcpMessageType::Inform => 1,
            DhcpMessageType::Offer | DhcpMessageType::Ack | DhcpMessageType::Nak => 2,
            DhcpMessageType::Unknown(_) => 0,
        }
    }

    /// The kind that option value `code` stands for.
    pub fn from_code(code: u8) -> (r: DhcpMessageType)
        ensures
            r == DhcpMessageType::spec_from_code(code),
    {
        match code {
            1 => DhcpMessageType::Discover,
            2 => DhcpMessageType::Offer,
            3 => DhcpMessageType::Request,
            4 => DhcpMessageType::Decline,
            5 => DhcpMessageType::Ack,
            6 => DhcpMessageType::Nak,
            7 => DhcpMessageType::Release,
            8 => DhcpMessageType::Inform,
            other => DhcpMessageType::Unknown(other),
        }
    }

    /// The option value that stands for this kind.
    pub fn code(&self) -> (r: u8)
        ensures
            r == self.spec_code(),
    {
        match self {
            DhcpMessageType::Discover => 1,
            DhcpMessageType::Offer => 2,
            DhcpMessageType::Request => 3,
            DhcpMessageType::Decline => 4,
            DhcpMessageType::Ack => 5,
            DhcpMessageType::Nak => 6,
            DhcpMessageType::Release => 7,
            DhcpMessageType::Inform => 8,
            DhcpMessageType::Unknown(code) => *code,
        }
    }
}

/// What the server reads from a client's message.
#[derive(Debug, Clone, Copy, PartialEq, Eq)]
pub struct DhcpMessage {
    pub message_type: DhcpMessageType,
    pub transaction_id: u32,
    pub client_hardware_address: EthernetAddress,
    pub client_ip: Ipv4Address,
    pub client_identifier: Option<EthernetAddress>,
}

/// What the server puts into a message of its own. Every field and option
/// that is not listed here is left unset in the message.
#[derive(Debug, Clone, Copy, PartialEq, Eq)]
pub struct DhcpRepr {
    pub message_type: DhcpMessageType,
    pub transaction_id: u32,
    pub client_hardware_address: EthernetAddress,
    pub client_ip: Ipv4Address,
    pub your_ip: Ipv4Address,
    pub server_ip: Ipv4Address,
    pub server_identifier: Option<Ipv4Address>,
    pub dns_server: Option<Ipv4Address>,
    pub lease_duration: Option<u32>,
}

/// What `smoltcp` reads from `bytes` as a DHCP message, in this crate's
/// terms; `None` where it rejects them.
pub uninterp spec fn spec_wire_parse(bytes: Seq<u8>) -> Option<DhcpMessage>;

/// The bytes that `smoltcp` writes for `repr`.
pub uninterp spec fn spec_wire_bytes(repr: DhcpRepr) -> Seq<u8>;

/// The big-endian 32-bit value at offset `at` of `bytes`.
pub open spec fn spec_u32_at(bytes: Seq<u8>, at: int) -> int {
    bytes[at] as int * 0x100_0000 + bytes[at + 1] as int * 0x1_0000 + bytes[at + 2] as int * 0x100
        + bytes[at + 3] as int
}

/// Length of the wire form of `repr`: the fixed part, the message type
/// option, six bytes each for the server identifier, the lease duration
/// and the one DNS server where they are set, and the end marker.
pub open spec fn spec_buffer_len(repr: DhcpRepr) -> int {
    DHCP_FIXED_SIZE + 3 + (if repr.server_identifier is Some {
        6int
    } else {
        0int
    }) + (if repr.lease_duration is Some {
        6int
    } else {
        0int
    }) + (if repr.dns_server is Some {
        6int
    } else {
        0int
    }) + 1
}

/// The fixed fields at the front of `bytes` are those of `repr`.
pub open spec fn spec_header_holds(bytes: Seq<u8>, repr: DhcpRepr) -> bool {
    &&& bytes.len() >= DHCP_FIXED_SIZE
    &&& bytes[0] == repr.message_type.spec_opcode()
    &&& spec_u32_at(bytes, 4) == repr.transaction_id
    &&& bytes.subrange(12, 16) == repr.client_ip@
    &&& bytes.subrange(16, 20) == repr.your_ip@
    &&& bytes.subrange(20, 24) == repr.server_ip@
    &&& bytes.subrange(28, 34) == repr.client_hardware_address@
}

/// The fixed fields of `message` are those at the front of `bytes`, and
/// its kind is canonical and one that goes with the `op` field.
pub open spec fn spec_header_read(bytes: Seq<u8>, message: DhcpMessage) -> bool {
    &&& bytes.len() >= DHCP_FIXED_SIZE
    &&& message.message_type.spec_is_canonical()
    &&& message.message_type.spec_opcode() == bytes[0]
    &&& message.transaction_id == spec_u32_at(bytes, 4)
    &&& message.client_ip@ == bytes.subrange(12, 16)
    &&& message.client_hardware_address@ == bytes.subrange(28, 34)
}

/// Writing `repr` into a buffer that held `before` left `after` in it,
/// and succeeded or not as `written` says: it succeeds exactly when the
/// buffer is long enough, and then the message stands at the front, what
/// was behind it is untouched.
pub open spec fn spec_emitted(
    repr: DhcpRepr,
    before: Seq<u8>,
    after: Seq<u8>,
    written: bool,
) -> bool {
    &&& after.len() == before.len()
    &&& written <==> before.len() >= spec_buffer_len(repr)
    &&& written ==> {
        &&& after == spec_wire_bytes(repr) + before.skip(spec_buffer_len(repr))
        &&& spec_header_holds(after, repr)
    }
}

/// `parse` on `bytes` returned `result`.
pub open spec fn spec_parsed(bytes: Seq<u8>, result: Result<DhcpMessage, CodecError>) -> bool {
    match result {
        Ok(message) => spec_wire_parse(bytes) == Some(message) && spec_header_read(bytes, message),
        Err(error) => error == CodecError::Malformed && spec_wire_parse(bytes) is None,
    }
}

/// `serialize` of `repr` into a buffer that held `before` left `after`
/// in it and returned `result`.
pub open spec fn spec_serialized(
    repr: DhcpRepr,
    before: Seq<u8>,
    after: Seq<u8>,
    result: Result<usize, CodecError>,
) -> bool {
    &&& spec_emitted(repr, before, after, result is Ok)
    &&& match result {
        Ok(length) => length == spec_buffer_len(repr),
        Err(error) => error == CodecError::BufferTooSmall,
    }
}

/// The message of kind `message_type` that this server sends: the server
/// names itself as server identifier and as the one DNS server.
pub open spec fn spec_construct_packet_repr(
    message_type: DhcpMessageType,
    server_ip: Ipv4Address,
    client_ip: Ipv4Address,
    client_hardware_address: EthernetAddress,
    transaction_id: u32,
    assigned_address: Ipv4Address,
    lease_duration_seconds: Option<u32>,
) -> DhcpRepr {
    DhcpRepr {
        message_type,
        transaction_id,
        client_hardware_address,
        client_ip,
        your_ip: assigned_address,
        server_ip,
        server_identifier: Some(server_ip),
        dns_server: Some(server_ip),
        lease_duration: lease_duration_seconds,
    }
}

/// The Offer of `assigned_address` for `lease_duration_seconds`.
pub open spec fn spec_construct_offer(
    server_ip: Ipv4Address,
    client_hardware_address: EthernetAddress,
    transaction_id: u32,
    assigned_address: Ipv4Address,
    lease_duration_seconds: u32,
) -> DhcpRepr {
    spec_construct_packet_repr(
        DhcpMessageType::Offer,
        server_ip,
        Ipv4Address([0u8, 0u8, 0u8, 0u8]),
        client_hardware_address,
        transaction_id,
        assigned_address,
        Some(lease_duration_seconds),
    )
}

/// The Ack that confirms `address`.
pub open spec fn spec_construct_ack(
    server_ip: Ipv4Address,
    client_hardware_address: EthernetAddress,
    client_ip: Ipv4Address,
    transaction_id: u32,
    address: Ipv4Address,
) -> DhcpRepr {
    spec_construct_packet_repr(
        DhcpMessageType::Ack,
        server_ip,
        client_ip,
        client_hardware_address,
        transaction_id,
        address,
        None,
    )
}

/// The Nak: it names no server and no address.
pub open spec fn spec_construct_nack(
    client_hardware_address: EthernetAddress,
    client_ip: Ipv4Address,
    transaction_id: u32,
) -> DhcpRepr {
    spec_construct_packet_repr(
        DhcpMessageType::Nak,
        Ipv4Address([0u8, 0u8, 0u8, 0u8]),
        client_ip,
        client_hardware_address,
        transaction_id,
        Ipv4Address([0u8, 0u8, 0u8, 0u8]),
        None,
    )
}

/// Builds the message of kind `message_type` that this server sends.
pub fn construct_packet_repr(
    message_type: DhcpMessageType,
    server_ip: Ipv4Address,
    client_ip: Ipv4Address,
    client_hardware_address: EthernetAddress,
    transaction_id: u32,
    assigned_address: Ipv4Address,
    lease_duration_seconds: Option<u32>,
) -> (r: DhcpRepr)
    ensures
        r == spec_construct_packet_repr(
            message_type,
            server_ip,
            client_ip,
            client_hardware_address,
            transaction_id,
            assigned_address,
            lease_duration_seconds,
        ),
{
    DhcpRepr {
        message_type,
        transaction_id,
        client_hardware_address,
        client_ip,
        your_ip: assigned_address,
        server_ip,
        server_identifier: Some(server_ip),
        dns_server: Some(server_ip),
        lease_duration: lease_duration_seconds,
    }
}

/// Builds the Offer of `assigned_address` for `lease_duration_seconds`.
pub fn construct_offer(
    server_ip: Ipv4Address,
    client_hardware_address: EthernetAddress,
    transaction_id: u32,
    assigned_address: Ipv4Address,
    lease_duration_seconds: u32,
) -> (r: DhcpRepr)
    ensures
        r == spec_construct_offer(
            server_ip,
            client_hardware_address,
            transaction_id,
            assigned_address,
            lease_duration_seconds,
        ),
{
    construct_packet_repr(
        DhcpMessageType::Offer,
        server_ip,
        Ipv4Address([0, 0, 0, 0]),
        client_hardware_address,
        transaction_id,
        assigned_address,
        Some(lease_duration_seconds),
    )
}

/// Builds the Ack that confirms `address`.
pub fn construct_ack(
    server_ip: Ipv4Address,
    client_hardware_address: EthernetAddress,
    client_ip: Ipv4Address,
    transaction_id: u32,
    address: Ipv4Address,
) -> (r: DhcpRepr)
    ensures
        r == spec_construct_ack(
            server_ip,
            client_hardware_address,
            client_ip,
            transaction_id,
            address,
        ),
{
    construct_packet_repr(
        DhcpMessageType::Ack,
        server_ip,
        client_ip,
        client_hardware_address,
        transaction_id,
        address,
        None,
    )
}

/// Builds the Nak.
pub fn construct_nack(
    client_hardware_address: EthernetAddress,
    client_ip: Ipv4Address,
    transaction_id: u32,
) -> (r: DhcpRepr)
    ensures
        r == spec_construct_nack(client_hardware_address, client_ip, transaction_id),
{
    construct_packet_repr(
        DhcpMessageType::Nak,
        Ipv4Address([0, 0, 0, 0]),
        client_ip,
        client_hardware_address,
        transaction_id,
        Ipv4Address([0, 0, 0, 0]),
        None,
    )
}

impl DhcpRepr {
    /// Return the length of a packet that will be emitted from this
    /// representation.
    pub fn buffer_len(&self) -> (r: usize)
        ensures
            r == spec_buffer_len(*self),
    {
        let mut len: usize = DHCP_FIXED_SIZE + 3 + 1;
        if self.server_identifier.is_some() {
            len = len + 6;
        }
        if self.lease_duration.is_some() {
            len = len + 6;
        }
        if self.dns_server.is_some() {
            len = len + 6;
        }
        len
    }
}

/// Calls `smoltcp::wire::DhcpPacket::new_checked` and
/// `smoltcp::wire::DhcpRepr::parse`, and hands back five fields of what
/// they return. The result is named, not spelled out. Beyond the name the
/// contract claims what the accessors of `DhcpPacket` show: no buffer
/// under 240 bytes is accepted, the transaction id is the big-endian word
/// at offset 4, the client address the four bytes at offset 12, the
/// hardware address the six bytes at offset 28; and what the parser's test
/// of the message type option shows: a kind is accepted only with the
/// `op` byte that `spec_opcode` gives for it. The kind is made from its
/// code, so it is canonical.
#[verifier::external_body]
fn wire_parse(buffer: &[u8]) -> (r: Result<DhcpMessage, smoltcp::wire::Error>)
    ensures
        match r {
            Ok(message) => spec_wire_parse(buffer@) == Some(message) && spec_header_read(
                buffer@,
                message,
            ),
            Err(_) => spec_wire_parse(buffer@) is None,
        },
{
    let packet = DhcpPacket::new_checked(buffer)?;
    let wire = WireRepr::parse(&packet)?;
    Ok(DhcpMessage {
        message_type: DhcpMessageType::from_code(wire.message_type.into()),
        transaction_id: wire.transaction_id,
        client_hardware_address: EthernetAddress(wire.client_hardware_address.0),
        client_ip: Ipv4Address(wire.client_ip.0),
        client_identifier: wire.client_identifier.map(|a| EthernetAddress(a.0)),
    })
}

/// Calls `smoltcp::wire::DhcpPacket::new_checked` and
/// `smoltcp::wire::DhcpRepr::emit` on the representation that has the
/// fields of `repr` and nothing else set. The bytes written are named, not
/// spelled out. Beyond the name the contract claims: the call succeeds
/// exactly when the buffer has `spec_buffer_len` bytes, which is what
/// `DhcpRepr::buffer_len` computes for such a representation; it then
/// writes that many bytes and no others; and the fixed fields stand where
/// the setters of `DhcpPacket` put them. After a failure the buffer may
/// hold a part of the message.
#[verifier::external_body]
fn wire_emit(repr: &DhcpRepr, buffer: &mut [u8]) -> (r: Result<(), smoltcp::wire::Error>)
    ensures
        final(buffer)@.len() == old(buffer)@.len(),
        r is Ok <==> old(buffer)@.len() >= spec_buffer_len(*repr),
        r is Ok ==> final(buffer)@ == spec_wire_bytes(*repr) + old(buffer)@.skip(
            spec_buffer_len(*repr),
        ),
        r is Ok ==> spec_header_holds(final(buffer)@, *repr),
{
    let wire = WireRepr {
        message_type: repr.message_type.code().into(), transaction_id: repr.transaction_id, secs: 0,
        client_hardware_address: WireEthernet(repr.client_hardware_address.0),
        client_ip: WireIpv4(repr.client_ip.0), your_ip: WireIpv4(repr.your_ip.0),
        server_ip: WireIpv4(repr.server_ip.0), relay_agent_ip: WireIpv4::UNSPECIFIED,
        router: None, subnet_mask: None, broadcast: false, requested_ip: None, client_identifier: None,
        server_identifier: repr.server_identifier.map(|a| WireIpv4(a.0)),
        dns_servers: repr.dns_server.map(|a| WireList::from_slice(&[WireIpv4(a.0)]).unwrap()),
        lease_duration: repr.lease_duration, parameter_request_list: None, max_size: None,
        renew_duration: None, rebind_duration: None, additional_options: &[],
    };
    let mut packet = DhcpPacket::new_checked(buffer)?;
    wire.emit(&mut packet)
}

/// Reads a client's message from `buffer`. Which buffers are accepted,
/// and what is read from the options, is `smoltcp`'s to say; the fixed
/// fields are read from their offsets.
pub fn parse(buffer: &[u8]) -> (r: Result<DhcpMessage, CodecError>)
    ensures
        spec_parsed(buffer@, r),
{
    match wire_parse(buffer) {
        Ok(message) => Ok(message),
        Err(_) => Err(CodecError::Malformed),
    }
}

/// Writes `repr` to the front of `out_buffer` and returns the number of
/// bytes written, or `BufferTooSmall` where the buffer cannot hold it.
pub fn serialize(repr: &DhcpRepr, out_buffer: &mut [u8]) -> (r: Result<usize, CodecError>)
    ensures
        spec_serialized(*repr, old(out_buffer)@, final(out_buffer)@, r),
{
    match wire_emit(repr, out_buffer) {
        Ok(()) => Ok(repr.buffer_len()),
        Err(_) => Err(CodecError::BufferTooSmall),
    }
}

/// Writes the Offer of `assigned_address` to the front of `out_buffer`.
pub fn serialize_offer(
    server_ip: Ipv4Address,
    client_hardware_address: EthernetAddress,
    transaction_id: u32,
    assigned_address: Ipv4Address,
    lease_duration_seconds: u32,
    out_buffer: &mut [u8],
) -> (r: Result<usize, CodecError>)
    ensures
        spec_serialized(
            spec_construct_offer(
                server_ip,
                client_hardware_address,
                transaction_id,
                assigned_address,
                lease_duration_seconds,
            ),
            old(out_buffer)@,
            final(out_buffer)@,
            r,
        ),
{
    let repr = construct_offer(
        server_ip,
        client_hardware_address,
        transaction_id,
        assigned_address,
        lease_duration_seconds,
    );
    serialize(&repr, out_buffer)
}

/// Writes the Ack that confirms `address` to the front of `out_buffer`.
pub fn serialize_ack(
    server_ip: Ipv4Address,
    client_hardware_address: EthernetAddress,
    client_ip: Ipv4Address,
    transaction_id: u32,
    address: Ipv4Address,
    out_buffer: &mut [u8],
) -> (r: Result<usize, CodecError>)
    ensures
        spec_serialized(
            spec_construct_ack(
                server_ip,
                client_hardware_address,
                client_ip,
                transaction_id,
                address,
            ),
            old(out_buffer)@,
            final(out_buffer)@,
            r,
        ),
{
    let repr = construct_ack(server_ip, client_hardware_address, client_ip, transaction_id, address);
    serialize(&repr, out_buffer)
}

/// Writes the Nak to the front of `out_buffer`.
pub fn serialize_nack(
    client_hardware_address: EthernetAddress,
    client_ip: Ipv4Address,
    transaction_id: u32,
    out_buffer: &mut [u8],
) -> (r: Result<usize, CodecError>)
    ensures
        spec_serialized(
            spec_construct_nack(client_hardware_address, client_ip, transaction_id),
            old(out_buffer)@,
            final(out_buffer)@,
            r,
        ),
{
    let repr = construct_nack(client_hardware_address, client_ip, transaction_id);
    serialize(&repr, out_buffer)
}

/// A message that was written and is then read from any buffer that
/// starts with it is read with the transaction id, the hardware address
/// and the client address it was written with, and as a message of the
/// same direction: what a server wrote is read as an Offer, an Ack or a
/// Nak.
pub proof fn lemma_header_fields_survive_round_trip(
    repr: DhcpRepr,
    before: Seq<u8>,
    after: Seq<u8>,
    written: Result<usize, CodecError>,
    read_from: Seq<u8>,
    read: Result<DhcpMessage, CodecError>,
)
    requires
        spec_serialized(repr, before, after, written),
        written matches Ok(length) && read_from.len() >= length && read_from.subrange(
            0,
            length as int,
        ) == after.subrange(0, length as int),
        spec_parsed(read_from, read),
    ensures
        read matches Ok(message) ==> {
            &&& message.transaction_id == repr.transaction_id
            &&& message.client_hardware_address == repr.client_hardware_address
            &&& message.client_ip == repr.client_ip
            &&& message.message_type.spec_opcode() == repr.message_type.spec_opcode()
            &&& repr.message_type.spec_opcode() == 2 ==> (message.message_type
                == DhcpMessageType::Offer || message.message_type == DhcpMessageType::Ack
                || message.message_type == DhcpMessageType::Nak)
        },
{
    if let Ok(message) = read {
        let length = written->Ok_0 as int;
        assert forall|i: int| 0 <= i < length implies read_from[i] == after[i] by {
            assert(read_from.subrange(0, length)[i] == after.subrange(0, length)[i]);
        }
        assert(message.client_ip@ =~= repr.client_ip@);
        assert(message.client_hardware_address@ =~= repr.client_hardware_address@);
        vstd::array::axiom_array_ext_equal(message.client_ip.0, repr.client_ip.0);
        vstd::array::axiom_array_ext_equal(
            message.client_hardware_address.0,
            repr.client_hardware_address.0,
        );
        assert(message.client_ip.0 =~= repr.client_ip.0);
        assert(message.client_hardware_address.0 =~= repr.client_hardware_address.0);
    }
}

} // verus!
