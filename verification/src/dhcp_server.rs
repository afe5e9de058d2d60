//! The DHCP lease table and the Discover/Request state machine that decides
//! which address to offer, acknowledge or refuse.

use crate::clock::{ClockError, Duration, Instant};
use crate::dhcp_codec::{
    construct_ack, construct_nack, construct_offer, parse, serialize, spec_construct_ack,
    spec_construct_nack, spec_construct_offer, spec_serialized, spec_wire_parse, CodecError,
    DhcpMessage, DhcpMessageType, DhcpRepr,
};
use crate::wire::{EthernetAddress, Ipv4Address};
use vstd::prelude::*;

verus! {

/// The largest table whose slot addresses still fit in the last octet.
pub const MAX_ADDRESSES: usize = 254;

/// One entry of the lease table. The address of a slot is fixed by its
/// index; the entry says who, if anyone, holds it.
#[derive(Debug, Clone, Copy, PartialEq, Eq)]
pub enum DhcpAssignment {
    /// Tentatively reserved for `identifier`, pending a matching Request.
    Offered { transaction_id: u32, identifier: EthernetAddress },
    /// Bound to `identifier` until `lease_end_time`.
    Assigned { transaction_id: u32, identifier: EthernetAddress, lease_end_time: Instant },
    /// No outstanding offer or assignment.
    Free,
}

/// What a Request is answered with.
#[derive(Debug, Clone, Copy, PartialEq, Eq)]
pub enum RequestOutcome {
    /// The lease in slot `.0`, for address `.1`, is granted or renewed.
    Ack(usize, Ipv4Address),
    /// No offer or live lease matches the Request.
    Nack,
}

/// Why a packet that should have had an answer got none.
#[derive(Debug, Clone, Copy, PartialEq, Eq)]
pub enum DhcpError {
    /// The packet could not be read, or the answer did not fit the buffer.
    Codec(CodecError),
    /// The end of the lease cannot be represented on the clock.
    Clock(ClockError),
}

/// The key a client is recognised by: its client identifier where it sent
/// one, else its hardware address.
pub open spec fn spec_identifier(
    client_hardware_address: EthernetAddress,
    client_identifier: Option<EthernetAddress>,
) -> EthernetAddress {
    match client_identifier {
        Some(identifier) => identifier,
        None => client_hardware_address,
    }
}

/// The address that belongs to slot `index`: `169.254.1.(index + 2)`.
pub open spec fn spec_construct_address(index: int) -> Ipv4Address {
    Ipv4Address([169u8, 254u8, 1u8, (index + 2) as u8])
}

/// A slot that a Discover from `identifier` at time `now` may take at
/// once: a free one, one already offered or assigned to the same
/// identifier, or one assigned to another identifier whose lease has run
/// out.
pub open spec fn spec_reusable(
    slot: DhcpAssignment,
    identifier: EthernetAddress,
    now: Instant,
) -> bool {
    match slot {
        DhcpAssignment::Free => true,
        DhcpAssignment::Offered { identifier: holder, .. } => holder == identifier,
        DhcpAssignment::Assigned { identifier: holder, lease_end_time, .. } => holder
            == identifier || now.ticks >= lease_end_time.ticks,
    }
}

/// A slot offered to some other identifier: taken over only when no slot
/// is reusable at once.
pub open spec fn spec_offered_to_other(slot: DhcpAssignment, identifier: EthernetAddress) -> bool {
    match slot {
        DhcpAssignment::Offered { identifier: holder, .. } => holder != identifier,
        _ => false,
    }
}

/// A slot that answers a Request from `identifier` with `transaction_id`
/// at time `now`: the matching offer, or the matching lease while it runs.
pub open spec fn spec_grants(
    slot: DhcpAssignment,
    identifier: EthernetAddress,
    transaction_id: u32,
    now: Instant,
) -> bool {
    match slot {
        DhcpAssignment::Offered { transaction_id: offered, identifier: holder } => holder
            == identifier && offered == transaction_id,
        DhcpAssignment::Assigned { transaction_id: assigned, identifier: holder, lease_end_time } =>
            holder == identifier && assigned == transaction_id && now.ticks
                < lease_end_time.ticks,
        DhcpAssignment::Free => false,
    }
}

/// The first index at or after `start` whose slot is reusable.
pub open spec fn spec_first_reusable_from(
    table: Seq<DhcpAssignment>,
    identifier: EthernetAddress,
    now: Instant,
    start: int,
) -> Option<int>
    decreases table.len() - start,
{
    if start < 0 || start >= table.len() {
        None
    } else if spec_reusable(table[start], identifier, now) {
        Some(start)
    } else {
        spec_first_reusable_from(table, identifier, now, start + 1)
    }
}

/// The first index at or after `start` whose slot is offered to another
/// identifier.
pub open spec fn spec_first_offered_to_other_from(
    table: Seq<DhcpAssignment>,
    identifier: EthernetAddress,
    start: int,
) -> Option<int>
    decreases table.len() - start,
{
    if start < 0 || start >= table.len() {
        None
    } else if spec_offered_to_other(table[start], identifier) {
        Some(start)
    } else {
        spec_first_offered_to_other_from(table, identifier, start + 1)
    }
}

/// The first index at or after `start` whose slot answers the Request.
pub open spec fn spec_first_granting_from(
    table: Seq<DhcpAssignment>,
    identifier: EthernetAddress,
    transaction_id: u32,
    now: Instant,
    start: int,
) -> Option<int>
    decreases table.len() - start,
{
    if start < 0 || start >= table.len() {
        None
    } else if spec_grants(table[start], identifier, transaction_id, now) {
        Some(start)
    } else {
        spec_first_granting_from(table, identifier, transaction_id, now, start + 1)
    }
}

/// The slot that a Discover from `identifier` at time `now` is offered:
/// the first reusable one; where there is none, the first one offered to
/// another identifier; where there is none of either, no slot.
pub open spec fn spec_discover_slot(
    table: Seq<DhcpAssignment>,
    identifier: EthernetAddress,
    now: Instant,
) -> Option<int> {
    match spec_first_reusable_from(table, identifier, now, 0) {
        Some(index) => Some(index),
        None => spec_first_offered_to_other_from(table, identifier, 0),
    }
}

/// What a Discover is answered with: the chosen slot and its address.
pub open spec fn spec_discover_offer(
    table: Seq<DhcpAssignment>,
    identifier: EthernetAddress,
    now: Instant,
) -> Option<(usize, Ipv4Address)> {
    match spec_discover_slot(table, identifier, now) {
        Some(index) => Some((index as usize, spec_construct_address(index))),
        None => None,
    }
}

/// The table after a Discover from `identifier` with `transaction_id`.
pub open spec fn spec_after_discover(
    table: Seq<DhcpAssignment>,
    identifier: EthernetAddress,
    transaction_id: u32,
    now: Instant,
) -> Seq<DhcpAssignment> {
    match spec_discover_slot(table, identifier, now) {
        Some(index) => table.update(
            index,
            DhcpAssignment::Offered { transaction_id, identifier },
        ),
        None => table,
    }
}

/// The slot that answers a Request from `identifier` with
/// `transaction_id` at time `now`: the first that grants it.
pub open spec fn spec_request_slot(
    table: Seq<DhcpAssignment>,
    identifier: EthernetAddress,
    transaction_id: u32,
    now: Instant,
) -> Option<int> {
    spec_first_granting_from(table, identifier, transaction_id, now, 0)
}

/// The table after a Request: the answering slot, if there is one and the
/// end of the lease can be represented, is assigned until
/// `now + lease_time`; otherwise nothing changes.
pub open spec fn spec_after_request(
    table: Seq<DhcpAssignment>,
    lease_time: Duration,
    identifier: EthernetAddress,
    transaction_id: u32,
    now: Instant,
) -> Seq<DhcpAssignment> {
    match (spec_request_slot(table, identifier, transaction_id, now), now.spec_checked_add(
        lease_time,
    )) {
        (Some(index), Some(lease_end_time)) => table.update(
            index,
            DhcpAssignment::Assigned { transaction_id, identifier, lease_end_time },
        ),
        _ => table,
    }
}

/// The answer to a Request: an Ack for the answering slot, a Nack where
/// there is none, an error where the end of the lease overflows the clock.
pub open spec fn spec_request_outcome(
    table: Seq<DhcpAssignment>,
    lease_time: Duration,
    identifier: EthernetAddress,
    transaction_id: u32,
    now: Instant,
) -> Result<RequestOutcome, ClockError> {
    match spec_request_slot(table, identifier, transaction_id, now) {
        Some(index) => match now.spec_checked_add(lease_time) {
            Some(_) => Ok(RequestOutcome::Ack(index as usize, spec_construct_address(index))),
            None => Err(ClockError),
        },
        None => Ok(RequestOutcome::Nack),
    }
}

/// The lease duration as an Offer states it: whole seconds, the low 32
/// bits.
pub open spec fn spec_lease_seconds(lease_time: Duration) -> u32 {
    (lease_time.spec_as_secs() % 0x1_0000_0000) as u32
}

/// The table after `message` has arrived at time `now`: a Discover and a
/// Request act on it, any other message leaves it alone.
pub open spec fn spec_table_after(
    table: Seq<DhcpAssignment>,
    lease_time: Duration,
    message: DhcpMessage,
    now: Instant,
) -> Seq<DhcpAssignment> {
    let identifier = spec_identifier(message.client_hardware_address, message.client_identifier);
    match message.message_type {
        DhcpMessageType::Discover => spec_after_discover(
            table,
            identifier,
            message.transaction_id,
            now,
        ),
        DhcpMessageType::Request => spec_after_request(
            table,
            lease_time,
            identifier,
            message.transaction_id,
            now,
        ),
        _ => table,
    }
}

/// What `message`, arriving at time `now`, is answered with: an Offer for
/// a Discover that finds a slot, an Ack or a Nak for a Request, nothing
/// for a Discover that finds no slot and for every other kind of message;
/// an error for a Request whose lease would end past the range of the
/// clock.
pub open spec fn spec_reply(
    table: Seq<DhcpAssignment>,
    server_address: Ipv4Address,
    lease_time: Duration,
    message: DhcpMessage,
    now: Instant,
) -> Result<Option<DhcpRepr>, ClockError> {
    let identifier = spec_identifier(message.client_hardware_address, message.client_identifier);
    match message.message_type {
        DhcpMessageType::Discover => match spec_discover_offer(table, identifier, now) {
            Some((_, address)) => Ok(
                Some(
                    spec_construct_offer(
                        server_address,
                        message.client_hardware_address,
                        message.transaction_id,
                        address,
                        spec_lease_seconds(lease_time),
                    ),
                ),
            ),
            None => Ok(None),
        },
        DhcpMessageType::Request => match spec_request_outcome(
            table,
            lease_time,
            identifier,
            message.transaction_id,
            now,
        ) {
            Ok(RequestOutcome::Ack(_, address)) => Ok(
                Some(
                    spec_construct_ack(
                        server_address,
                        message.client_hardware_address,
                        message.client_ip,
                        message.transaction_id,
                        address,
                    ),
                ),
            ),
            Ok(RequestOutcome::Nack) => Ok(
                Some(
                    spec_construct_nack(
                        message.client_hardware_address,
                        message.client_ip,
                        message.transaction_id,
                    ),
                ),
            ),
            Err(error) => Err(error),
        },
        _ => Ok(None),
    }
}

/// A server with `table`, on receiving `received` at time `now`, ends
/// with `table_after`, leaves `buffer_after` in the buffer and returns
/// `result`. A packet that cannot be read changes nothing and is an
/// error. One that can be read acts on the table as `spec_table_after`
/// says. Where `spec_reply` gives an answer, it is written over the
/// packet and `result` is its length, or the codec's error where the
/// buffer is too short; where it gives none, or fails, the buffer is left
/// as it was.
pub open spec fn spec_packet_processed(
    table: Seq<DhcpAssignment>,
    server_address: Ipv4Address,
    lease_time: Duration,
    received: Seq<u8>,
    now: Instant,
    table_after: Seq<DhcpAssignment>,
    buffer_after: Seq<u8>,
    result: Result<Option<usize>, DhcpError>,
) -> bool {
    match spec_wire_parse(received) {
        None => {
            &&& result == Err::<Option<usize>, DhcpError>(
                DhcpError::Codec(CodecError::Malformed),
            )
            &&& table_after == table
            &&& buffer_after == received
        },
        Some(message) => {
            &&& table_after == spec_table_after(table, lease_time, message, now)
            &&& match spec_reply(table, server_address, lease_time, message, now) {
                Err(error) => {
                    &&& result == Err::<Option<usize>, DhcpError>(DhcpError::Clock(error))
                    &&& buffer_after == received
                },
                Ok(None) => {
                    &&& result == Ok::<Option<usize>, DhcpError>(None)
                    &&& buffer_after == received
                },
                Ok(Some(repr)) => match result {
                    Ok(Some(length)) => spec_serialized(
                        repr,
                        received,
                        buffer_after,
                        Ok(length),
                    ),
                    Err(DhcpError::Codec(error)) => spec_serialized(
                        repr,
                        received,
                        buffer_after,
                        Err(error),
                    ),
                    _ => false,
                },
            }
        },
    }
}

/// The lease table of a DHCP server with `N_ADDRESSES` slots, and the
/// configuration its answers are built from.
pub struct DhcpServer<const N_ADDRESSES: usize> {
    server_address: Ipv4Address,
    assignments: [DhcpAssignment; N_ADDRESSES],
    lease_time: Duration,
}

impl<const N_ADDRESSES: usize> DhcpServer<N_ADDRESSES> {
    #[verifier::type_invariant]
    spec fn every_slot_has_an_address(self) -> bool {
        N_ADDRESSES <= MAX_ADDRESSES
    }

    /// The lease table, slot by slot.
    pub closed spec fn view(&self) -> Seq<DhcpAssignment> {
        self.assignments@
    }

    /// The server's own address.
    pub closed spec fn spec_server_address(&self) -> Ipv4Address {
        self.server_address
    }

    /// The duration of every lease this server grants.
    pub closed spec fn spec_lease_time(&self) -> Duration {
        self.lease_time
    }

    /// The table has as many slots as the type says.
    pub proof fn lemma_table_size(&self)
        ensures
            self@.len() == N_ADDRESSES,
    {
    }

    /// A server with every slot free. There is none for a table larger
    /// than `MAX_ADDRESSES`, whose later slots would have no address.
    pub fn new(server_address: Ipv4Address, lease_time: Duration) -> (r: Option<Self>)
        ensures
            r is Some <==> N_ADDRESSES <= MAX_ADDRESSES,
            r matches Some(server) ==> {
                &&& server@ == Seq::new(N_ADDRESSES as nat, |i: int| DhcpAssignment::Free)
                &&& server.spec_server_address() == server_address
                &&& server.spec_lease_time() == lease_time
            },
    {
        if N_ADDRESSES > MAX_ADDRESSES {
            return None;
        }
        let assignments = [DhcpAssignment::Free; N_ADDRESSES];
        assert(assignments@ =~= Seq::new(N_ADDRESSES as nat, |i: int| DhcpAssignment::Free));
        Some(Self { server_address, assignments, lease_time })
    }

    /// The server's own address.
    pub fn server_address(&self) -> (r: Ipv4Address)
        ensures
            r == self.spec_server_address(),
    {
        self.server_address
    }

    /// The duration of every lease this server grants.
    pub fn lease_time(&self) -> (r: Duration)
        ensures
            r == self.spec_lease_time(),
    {
        self.lease_time
    }

    /// The state of slot `index`, or `None` past the end of the table.
    pub fn assignment(&self, index: usize) -> (r: Option<DhcpAssignment>)
        ensures
            r == if index < self@.len() {
                Some(self@[index as int])
            } else {
                None
            },
    {
        if index < N_ADDRESSES {
            Some(self.assignments[index])
        } else {
            None
        }
    }

    /// Given a Discover from a client at time `now`, go through the table
    /// in order. The first slot that is free, already offered or assigned
    /// to the same identifier, or assigned to another identifier whose
    /// lease has run out, becomes an offer to this client. Where there is
    /// no such slot, the first slot offered to another identifier does.
    /// Where there is none of either, every slot holds a live lease of
    /// another client: nothing changes and nothing is offered.
    pub fn process_discover_at(
        &mut self,
        client_hardware_address: EthernetAddress,
        client_identifier: Option<EthernetAddress>,
        transaction_id: u32,
        now: Instant,
    ) -> (r: Option<(usize, Ipv4Address)>)
        ensures
            final(self).spec_server_address() == old(self).spec_server_address(),
            final(self).spec_lease_time() == old(self).spec_lease_time(),
            final(self)@ == spec_after_discover(
                old(self)@,
                spec_identifier(client_hardware_address, client_identifier),
                transaction_id,
                now,
            ),
            r == spec_discover_offer(
                old(self)@,
                spec_identifier(client_hardware_address, client_identifier),
                now,
            ),
    {
        proof {
            use_type_invariant(&*self);
        }
        let id = match client_identifier {
            Some(identifier) => identifier,
            None => client_hardware_address,
        };
        let mut first_offered_index: Option<usize> = None;
        let mut index: usize = 0;
        while index < N_ADDRESSES
            invariant
                self.assignments@ == old(self).assignments@,
                N_ADDRESSES <= MAX_ADDRESSES,
                self.server_address == old(self).server_address,
                self.lease_time == old(self).lease_time,
                id == spec_identifier(client_hardware_address, client_identifier),
                index <= N_ADDRESSES,
                spec_first_reusable_from(self.assignments@, id, now, index as int)
                    == spec_first_reusable_from(self.assignments@, id, now, 0),
                match first_offered_index {
                    Some(found) => found < index && spec_first_offered_to_other_from(
                        self.assignments@,
                        id,
                        0,
                    ) == Some(found as int),
                    None => spec_first_offered_to_other_from(self.assignments@, id, index as int)
                        == spec_first_offered_to_other_from(self.assignments@, id, 0),
                },
            decreases N_ADDRESSES - index,
        {
            let reusable = match self.assignments[index] {
                // an offer to another identifier can be taken over if there are no more
                // spots
                DhcpAssignment::Offered { identifier, .. } => {
                    if identifier != id {
                        if first_offered_index.is_none() {
                            first_offered_index = Some(index);
                        }
                        false
                    } else {
                        true
                    }
                },
                // a lease of another identifier that still runs cannot be used
                DhcpAssignment::Assigned { identifier, lease_end_time, .. } => !(identifier != id
                    && now.ticks < lease_end_time.ticks),
                DhcpAssignment::Free => true,
            };
            if reusable {
                // we are free to use this assignment spot
                self.assignments[index] = DhcpAssignment::Offered { transaction_id, identifier: id };
                return Some((index, Self::construct_address(index as u8)));
            }
            index = index + 1;
        }
        match first_offered_index {
            Some(i) => {
                self.assignments[i] = DhcpAssignment::Offered { transaction_id, identifier: id };
                Some((i, Self::construct_address(i as u8)))
            },
            None => None,
        }
    }

    /// Given a Request from a client at time `now`, go through the table in
    /// order. The first slot offered to the same identifier under the same
    /// transaction id, or assigned to it under the same transaction id with
    /// the lease still running, is assigned until `now` plus the lease
    /// time, and the Request is acknowledged. Where that end cannot be
    /// represented, the Request fails and nothing changes. Where no slot
    /// matches, the answer is a Nack and nothing changes. `client_ip` is the
    /// address the client claims; the decision does not depend on it.
    #[allow(unused_variables)]
    pub fn process_request_at(
        &mut self,
        client_ip: Ipv4Address,
        client_hardware_address: EthernetAddress,
        client_identifier: Option<EthernetAddress>,
        transaction_id: u32,
        now: Instant,
    ) -> (r: Result<RequestOutcome, ClockError>)
        ensures
            final(self).spec_server_address() == old(self).spec_server_address(),
            final(self).spec_lease_time() == old(self).spec_lease_time(),
            final(self)@ == spec_after_request(
                old(self)@,
                old(self).spec_lease_time(),
                spec_identifier(client_hardware_address, client_identifier),
                transaction_id,
                now,
            ),
            r == spec_request_outcome(
                old(self)@,
                old(self).spec_lease_time(),
                spec_identifier(client_hardware_address, client_identifier),
                transaction_id,
                now,
            ),
    {
        proof {
            use_type_invariant(&*self);
        }
        let id = match client_identifier {
            Some(identifier) => identifier,
            None => client_hardware_address,
        };
        let mut index: usize = 0;
        while index < N_ADDRESSES
            invariant
                self.assignments@ == old(self).assignments@,
                N_ADDRESSES <= MAX_ADDRESSES,
                self.server_address == old(self).server_address,
                self.lease_time == old(self).lease_time,
                id == spec_identifier(client_hardware_address, client_identifier),
                index <= N_ADDRESSES,
                spec_first_granting_from(self.assignments@, id, transaction_id, now, index as int)
                    == spec_first_granting_from(self.assignments@, id, transaction_id, now, 0),
            decreases N_ADDRESSES - index,
        {
            let grants = match self.assignments[index] {
                // we have offered an assignment with this transaction_id to this identifier
                DhcpAssignment::Offered { identifier, transaction_id: offered } => identifier == id
                    && offered == transaction_id,
                // we have already assigned an address to this identifier with this
                // transaction_id, and the lease time isn't up
                DhcpAssignment::Assigned { identifier, transaction_id: assigned, lease_end_time } =>
                    identifier == id && assigned == transaction_id && now.ticks
                        < lease_end_time.ticks,
                DhcpAssignment::Free => false,
            };
            if grants {
                let lease_end_time = now.lease_end(self.lease_time)?;
                self.assignments[index] = DhcpAssignment::Assigned {
                    transaction_id,
                    identifier: id,
                    lease_end_time,
                };
                return Ok(RequestOutcome::Ack(index, Self::construct_address(index as u8)));
            }
            index = index + 1;
        }
        Ok(RequestOutcome::Nack)
    }

    /// `process_discover_at` at the time the system clock shows. The
    /// contract holds for whatever the clock showed.
    pub fn process_discover(
        &mut self,
        client_hardware_address: EthernetAddress,
        client_identifier: Option<EthernetAddress>,
        transaction_id: u32,
    ) -> (r: Option<(usize, Ipv4Address)>)
        ensures
            final(self).spec_server_address() == old(self).spec_server_address(),
            final(self).spec_lease_time() == old(self).spec_lease_time(),
            exists|now: Instant|
                {
                    &&& final(self)@ == #[trigger] spec_after_discover(
                        old(self)@,
                        spec_identifier(client_hardware_address, client_identifier),
                        transaction_id,
                        now,
                    )
                    &&& r == spec_discover_offer(
                        old(self)@,
                        spec_identifier(client_hardware_address, client_identifier),
                        now,
                    )
                },
    {
        let now = Instant::now();
        self.process_discover_at(client_hardware_address, client_identifier, transaction_id, now)
    }

    /// `process_request_at` at the time the system clock shows. The
    /// contract holds for whatever the clock showed.
    pub fn process_request(
        &mut self,
        client_ip: Ipv4Address,
        client_hardware_address: EthernetAddress,
        client_identifier: Option<EthernetAddress>,
        transaction_id: u32,
    ) -> (r: Result<RequestOutcome, ClockError>)
        ensures
            final(self).spec_server_address() == old(self).spec_server_address(),
            final(self).spec_lease_time() == old(self).spec_lease_time(),
            exists|now: Instant|
                {
                    &&& final(self)@ == #[trigger] spec_after_request(
                        old(self)@,
                        old(self).spec_lease_time(),
                        spec_identifier(client_hardware_address, client_identifier),
                        transaction_id,
                        now,
                    )
                    &&& r == spec_request_outcome(
                        old(self)@,
                        old(self).spec_lease_time(),
                        spec_identifier(client_hardware_address, client_identifier),
                        transaction_id,
                        now,
                    )
                },
    {
        let now = Instant::now();
        self.process_request_at(
            client_ip,
            client_hardware_address,
            client_identifier,
            transaction_id,
            now,
        )
    }

    /// Lets `message`, which arrived at time `now`, act on the table and
    /// builds the answer to it, if it gets one.
    pub fn process_message_at(&mut self, message: &DhcpMessage, now: Instant) -> (r: Result<
        Option<DhcpRepr>,
        ClockError,
    >)
        ensures
            final(self).spec_server_address() == old(self).spec_server_address(),
            final(self).spec_lease_time() == old(self).spec_lease_time(),
            final(self)@ == spec_table_after(old(self)@, old(self).spec_lease_time(), *message, now),
            r == spec_reply(
                old(self)@,
                old(self).spec_server_address(),
                old(self).spec_lease_time(),
                *message,
                now,
            ),
    {
        match message.message_type {
            DhcpMessageType::Discover => {
                match self.process_discover_at(
                    message.client_hardware_address,
                    message.client_identifier,
                    message.transaction_id,
                    now,
                ) {
                    Some((_, address)) => {
                        let lease_seconds: u32 = (self.lease_time.as_secs() % 0x1_0000_0000) as u32;
                        Ok(
                            Some(
                                construct_offer(
                                    self.server_address,
                                    message.client_hardware_address,
                                    message.transaction_id,
                                    address,
                                    lease_seconds,
                                ),
                            ),
                        )
                    },
                    None => Ok(None),
                }
            },
            DhcpMessageType::Request => {
                match self.process_request_at(
                    message.client_ip,
                    message.client_hardware_address,
                    message.client_identifier,
                    message.transaction_id,
                    now,
                )? {
                    RequestOutcome::Ack(_, address) => Ok(
                        Some(
                            construct_ack(
                                self.server_address,
                                message.client_hardware_address,
                                message.client_ip,
                                message.transaction_id,
                                address,
                            ),
                        ),
                    ),
                    RequestOutcome::Nack => Ok(
                        Some(
                            construct_nack(
                                message.client_hardware_address,
                                message.client_ip,
                                message.transaction_id,
                            ),
                        ),
                    ),
                }
            },
            _ => Ok(None),
        }
    }

    /// Handles the packet that `buffer` holds, received at time `now`: reads
    /// it, lets it act on the table, and writes the answer, if there is
    /// one, over it. Returns the length of the answer to send, or `None`
    /// where nothing is to be sent.
    pub fn process_packet_at(&mut self, buffer: &mut [u8], now: Instant) -> (r: Result<
        Option<usize>,
        DhcpError,
    >)
        ensures
            final(self).spec_server_address() == old(self).spec_server_address(),
            final(self).spec_lease_time() == old(self).spec_lease_time(),
            spec_packet_processed(
                old(self)@,
                old(self).spec_server_address(),
                old(self).spec_lease_time(),
                old(buffer)@,
                now,
                final(self)@,
                final(buffer)@,
                r,
            ),
    {
        let message = match parse(buffer) {
            Ok(message) => message,
            Err(error) => {
                return Err(DhcpError::Codec(error));
            },
        };
        let reply = match self.process_message_at(&message, now) {
            Ok(reply) => reply,
            Err(error) => {
                return Err(DhcpError::Clock(error));
            },
        };
        match reply {
            Some(repr) => match serialize(&repr, buffer) {
                Ok(length) => Ok(Some(length)),
                Err(error) => Err(DhcpError::Codec(error)),
            },
            None => Ok(None),
        }
    }

    /// `process_packet_at` at the time the system clock shows. The
    /// contract holds for whatever the clock showed.
    pub fn process_packet(&mut self, buffer: &mut [u8]) -> (r: Result<Option<usize>, DhcpError>)
        ensures
            final(self).spec_server_address() == old(self).spec_server_address(),
            final(self).spec_lease_time() == old(self).spec_lease_time(),
            exists|now: Instant| #[trigger]
                spec_packet_processed(
                    old(self)@,
                    old(self).spec_server_address(),
                    old(self).spec_lease_time(),
                    old(buffer)@,
                    now,
                    final(self)@,
                    final(buffer)@,
                    r,
                ),
    {
        let now = Instant::now();
        self.process_packet_at(buffer, now)
    }

    /// This function constructs the address of slot `i`.
    pub fn construct_address(i: u8) -> (r: Ipv4Address)
        requires
            i < MAX_ADDRESSES,
        ensures
            r == spec_construct_address(i as int),
    {
        Ipv4Address([169, 254, 1, i + 2])
    }
}

} // verus!
