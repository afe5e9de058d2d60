//! What holds of the lease table: which slot a scan finds, and what the
//! Discover and Request transitions guarantee to clients.

use crate::clock::{ClockError, Duration, Instant};
use crate::dhcp_server::{
    spec_after_discover, spec_after_request, spec_construct_address, spec_discover_offer,
    spec_discover_slot, spec_first_granting_from, spec_first_offered_to_other_from,
    spec_first_reusable_from, spec_grants, spec_offered_to_other, spec_request_outcome,
    spec_request_slot, spec_reusable, DhcpAssignment, RequestOutcome, MAX_ADDRESSES,
};
use crate::wire::EthernetAddress;
use vstd::prelude::*;

verus! {

/// `spec_first_reusable_from` finds the least index from `start` on whose
/// slot is reusable, and finds none only where there is none.
pub proof fn lemma_first_reusable(
    table: Seq<DhcpAssignment>,
    identifier: EthernetAddress,
    now: Instant,
    start: int,
)
    requires
        0 <= start,
    ensures
        match spec_first_reusable_from(table, identifier, now, start) {
            Some(index) => {
                &&& start <= index < table.len()
                &&& spec_reusable(table[index], identifier, now)
                &&& forall|j: int|
                    start <= j < index ==> !spec_reusable(#[trigger] table[j], identifier, now)
            },
            None => forall|j: int|
                start <= j < table.len() ==> !spec_reusable(#[trigger] table[j], identifier, now),
        },
    decreases table.len() - start,
{
    if start < table.len() && !spec_reusable(table[start], identifier, now) {
        lemma_first_reusable(table, identifier, now, start + 1);
    }
}

/// `spec_first_offered_to_other_from` finds the least index from `start`
/// on whose slot is offered to another identifier, and finds none only
/// where there is none.
pub proof fn lemma_first_offered_to_other(
    table: Seq<DhcpAssignment>,
    identifier: EthernetAddress,
    start: int,
)
    requires
        0 <= start,
    ensures
        match spec_first_offered_to_other_from(table, identifier, start) {
            Some(index) => {
                &&& start <= index < table.len()
                &&& spec_offered_to_other(table[index], identifier)
                &&& forall|j: int|
                    start <= j < index ==> !spec_offered_to_other(#[trigger] table[j], identifier)
            },
            None => forall|j: int|
                start <= j < table.len() ==> !spec_offered_to_other(
                    #[trigger] table[j],
                    identifier,
                ),
        },
    decreases table.len() - start,
{
    if start < table.len() && !spec_offered_to_other(table[start], identifier) {
        lemma_first_offered_to_other(table, identifier, start + 1);
    }
}

/// `spec_first_granting_from` finds the least index from `start` on whose
/// slot answers the Request, and finds none only where there is none.
pub proof fn lemma_first_granting(
    table: Seq<DhcpAssignment>,
    identifier: EthernetAddress,
    transaction_id: u32,
    now: Instant,
    start: int,
)
    requires
        0 <= start,
    ensures
        match spec_first_granting_from(table, identifier, transaction_id, now, start) {
            Some(index) => {
                &&& start <= index < table.len()
                &&& spec_grants(table[index], identifier, transaction_id, now)
                &&& forall|j: int|
                    start <= j < index ==> !spec_grants(
                        #[trigger] table[j],
                        identifier,
                        transaction_id,
                        now,
                    )
            },
            None => forall|j: int|
                start <= j < table.len() ==> !spec_grants(
                    #[trigger] table[j],
                    identifier,
                    transaction_id,
                    now,
                ),
        },
    decreases table.len() - start,
{
    if start < table.len() && !spec_grants(table[start], identifier, transaction_id, now) {
        lemma_first_granting(table, identifier, transaction_id, now, start + 1);
    }
}

/// Different slots of a table have different addresses.
pub proof fn lemma_slot_addresses_differ(i: int, j: int)
    requires
        0 <= i < MAX_ADDRESSES,
        0 <= j < MAX_ADDRESSES,
        i != j,
    ensures
        spec_construct_address(i) != spec_construct_address(j),
{
    let a = spec_construct_address(i);
    let b = spec_construct_address(j);
    assert(a.0[3] == (i + 2) as u8);
    assert(b.0[3] == (j + 2) as u8);
}

/// A Discover changes no slot but the one it is offered, and changes
/// nothing where it is offered none.
pub proof fn lemma_discover_touches_one_slot(
    table: Seq<DhcpAssignment>,
    identifier: EthernetAddress,
    transaction_id: u32,
    now: Instant,
)
    ensures
        spec_after_discover(table, identifier, transaction_id, now).len() == table.len(),
        match spec_discover_slot(table, identifier, now) {
            Some(index) => {
                &&& 0 <= index < table.len()
                &&& spec_after_discover(table, identifier, transaction_id, now)[index]
                    == (DhcpAssignment::Offered { transaction_id, identifier })
                &&& forall|j: int|
                    0 <= j < table.len() && j != index ==> #[trigger] spec_after_discover(
                        table,
                        identifier,
                        transaction_id,
                        now,
                    )[j] == table[j]
            },
            None => spec_after_discover(table, identifier, transaction_id, now) == table,
        },
{
    lemma_first_reusable(table, identifier, now, 0);
    lemma_first_offered_to_other(table, identifier, 0);
}

/// A Request that matches an offer is acknowledged: the first slot that
/// answers it lies at or before the offer, is assigned until `now` plus the
/// lease time, and the Ack carries that slot's address. Where no earlier
/// slot answers the Request, that slot is the offer itself.
pub proof fn lemma_request_for_offer_is_acknowledged(
    table: Seq<DhcpAssignment>,
    lease_time: Duration,
    identifier: EthernetAddress,
    transaction_id: u32,
    now: Instant,
    offer: int,
)
    requires
        table.len() <= MAX_ADDRESSES,
        0 <= offer < table.len(),
        table[offer] == (DhcpAssignment::Offered { transaction_id, identifier }),
        now.spec_checked_add(lease_time) is Some,
    ensures
        spec_request_slot(table, identifier, transaction_id, now) matches Some(index) && {
            &&& index <= offer
            &&& spec_request_outcome(table, lease_time, identifier, transaction_id, now) == Ok::<
                RequestOutcome,
                ClockError,
            >(RequestOutcome::Ack(index as usize, spec_construct_address(index)))
            &&& spec_after_request(table, lease_time, identifier, transaction_id, now)
                == table.update(
                index,
                DhcpAssignment::Assigned {
                    transaction_id,
                    identifier,
                    lease_end_time: now.spec_checked_add(lease_time)->0,
                },
            )
            &&& (forall|j: int|
                0 <= j < offer ==> !spec_grants(#[trigger] table[j], identifier, transaction_id, now))
                ==> index == offer
        },
{
    lemma_first_granting(table, identifier, transaction_id, now, 0);
}

/// A Request that no slot answers gets a Nack and changes nothing.
pub proof fn lemma_unmatched_request_is_refused(
    table: Seq<DhcpAssignment>,
    lease_time: Duration,
    identifier: EthernetAddress,
    transaction_id: u32,
    now: Instant,
)
    requires
        forall|j: int|
            0 <= j < table.len() ==> !spec_grants(#[trigger] table[j], identifier, transaction_id, now),
    ensures
        spec_request_outcome(table, lease_time, identifier, transaction_id, now) == Ok::<
            RequestOutcome,
            ClockError,
        >(RequestOutcome::Nack),
        spec_after_request(table, lease_time, identifier, transaction_id, now) == table,
{
    lemma_first_granting(table, identifier, transaction_id, now, 0);
}

/// Renewing a lease that still runs keeps its slot and address: the slot
/// stays assigned to the same identifier under the same transaction id,
/// now until `now` plus the lease time, and no other slot changes.
pub proof fn lemma_renewal_keeps_the_slot(
    table: Seq<DhcpAssignment>,
    lease_time: Duration,
    identifier: EthernetAddress,
    transaction_id: u32,
    lease_end_time: Instant,
    now: Instant,
    slot: int,
)
    requires
        table.len() <= MAX_ADDRESSES,
        0 <= slot < table.len(),
        table[slot] == (DhcpAssignment::Assigned { transaction_id, identifier, lease_end_time }),
        now.ticks < lease_end_time.ticks,
        forall|j: int|
            0 <= j < slot ==> !spec_grants(#[trigger] table[j], identifier, transaction_id, now),
        now.spec_checked_add(lease_time) is Some,
    ensures
        spec_request_outcome(table, lease_time, identifier, transaction_id, now) == Ok::<
            RequestOutcome,
            ClockError,
        >(RequestOutcome::Ack(slot as usize, spec_construct_address(slot))),
        spec_after_request(table, lease_time, identifier, transaction_id, now) == table.update(
            slot,
            DhcpAssignment::Assigned {
                transaction_id,
                identifier,
                lease_end_time: Instant { ticks: (now.ticks + lease_time.ticks) as u64 },
            },
        ),
{
    lemma_first_granting(table, identifier, transaction_id, now, 0);
}

/// Once a lease has run out, a Discover from another identifier may take
/// its slot: the slot is reusable for it, and is the one offered where no
/// earlier slot is reusable.
pub proof fn lemma_expired_lease_can_be_reclaimed(
    table: Seq<DhcpAssignment>,
    holder: EthernetAddress,
    holder_transaction_id: u32,
    lease_end_time: Instant,
    newcomer: EthernetAddress,
    now: Instant,
    slot: int,
)
    requires
        table.len() <= MAX_ADDRESSES,
        0 <= slot < table.len(),
        table[slot] == (DhcpAssignment::Assigned {
            transaction_id: holder_transaction_id,
            identifier: holder,
            lease_end_time,
        }),
        now.ticks >= lease_end_time.ticks,
    ensures
        spec_reusable(table[slot], newcomer, now),
        spec_discover_slot(table, newcomer, now) matches Some(index) && index <= slot,
        (forall|j: int| 0 <= j < slot ==> !spec_reusable(#[trigger] table[j], newcomer, now))
            ==> spec_discover_offer(table, newcomer, now) == Some(
            (slot as usize, spec_construct_address(slot)),
        ),
{
    lemma_first_reusable(table, newcomer, now, 0);
}

/// A Discover from the identifier that holds a slot, offered or assigned,
/// expired or not, is offered the same slot and address again, provided
/// no earlier slot is reusable for it.
pub proof fn lemma_rediscovery_gets_the_same_slot(
    table: Seq<DhcpAssignment>,
    identifier: EthernetAddress,
    now: Instant,
    slot: int,
)
    requires
        table.len() <= MAX_ADDRESSES,
        0 <= slot < table.len(),
        match table[slot] {
            DhcpAssignment::Offered { identifier: holder, .. } => holder == identifier,
            DhcpAssignment::Assigned { identifier: holder, .. } => holder == identifier,
            DhcpAssignment::Free => false,
        },
        forall|j: int| 0 <= j < slot ==> !spec_reusable(#[trigger] table[j], identifier, now),
    ensures
        spec_discover_offer(table, identifier, now) == Some(
            (slot as usize, spec_construct_address(slot)),
        ),
{
    lemma_first_reusable(table, identifier, now, 0);
}

/// While every slot holds a running lease of another identifier, a
/// Discover is offered nothing and changes nothing.
pub proof fn lemma_full_table_offers_nothing(
    table: Seq<DhcpAssignment>,
    newcomer: EthernetAddress,
    transaction_id: u32,
    now: Instant,
)
    requires
        forall|j: int|
            0 <= j < table.len() ==> (#[trigger] table[j] matches DhcpAssignment::Assigned {
                identifier,
                lease_end_time,
                ..
            } && identifier != newcomer && now.ticks < lease_end_time.ticks),
    ensures
        spec_discover_offer(table, newcomer, now) is None,
        spec_after_discover(table, newcomer, transaction_id, now) == table,
{
    lemma_first_reusable(table, newcomer, now, 0);
    lemma_first_offered_to_other(table, newcomer, 0);
}

/// One client's exchange with the server: a Discover, then the Request
/// that takes up the offer.
pub struct Exchange {
    pub identifier: EthernetAddress,
    pub transaction_id: u32,
    pub discover_time: Instant,
    pub request_time: Instant,
}

/// A table of `capacity` slots, all free.
pub open spec fn spec_fresh_table(capacity: nat) -> Seq<DhcpAssignment> {
    Seq::new(capacity, |i: int| DhcpAssignment::Free)
}

/// The table of a fresh server after the first `count` of `exchanges`.
pub open spec fn spec_after_exchanges(
    capacity: nat,
    lease_time: Duration,
    exchanges: Seq<Exchange>,
    count: nat,
) -> Seq<DhcpAssignment>
    decreases count,
{
    if count == 0 {
        spec_fresh_table(capacity)
    } else {
        let before = spec_after_exchanges(capacity, lease_time, exchanges, (count - 1) as nat);
        let exchange = exchanges[count - 1];
        spec_after_request(
            spec_after_discover(
                before,
                exchange.identifier,
                exchange.transaction_id,
                exchange.discover_time,
            ),
            lease_time,
            exchange.identifier,
            exchange.transaction_id,
            exchange.request_time,
        )
    }
}

/// Exchanges of different clients, none more than the table has slots,
/// each lease representable on the clock and still running when the later
/// clients send their Discover.
pub open spec fn spec_leases_stay_live(
    capacity: nat,
    lease_time: Duration,
    exchanges: Seq<Exchange>,
) -> bool {
    &&& exchanges.len() <= capacity <= MAX_ADDRESSES
    &&& forall|j: int, k: int|
        0 <= j < k < exchanges.len() ==> (#[trigger] exchanges[j]).identifier
            != (#[trigger] exchanges[k]).identifier
    &&& forall|k: int|
        0 <= k < exchanges.len() ==> (#[trigger] exchanges[k]).request_time.ticks
            + lease_time.ticks <= u64::MAX
    &&& forall|j: int, k: int|
        0 <= j < k < exchanges.len() ==> (#[trigger] exchanges[k]).discover_time.ticks
            < (#[trigger] exchanges[j]).request_time.ticks + lease_time.ticks
}

/// The table in which the first `count` slots are leased to the first
/// `count` clients, in order, and the others are free.
pub open spec fn spec_leased_in_order(
    capacity: nat,
    lease_time: Duration,
    exchanges: Seq<Exchange>,
    count: nat,
) -> Seq<DhcpAssignment> {
    Seq::new(
        capacity,
        |i: int|
            if i < count {
                DhcpAssignment::Assigned {
                    transaction_id: exchanges[i].transaction_id,
                    identifier: exchanges[i].identifier,
                    lease_end_time: Instant {
                        ticks: (exchanges[i].request_time.ticks + lease_time.ticks) as u64,
                    },
                }
            } else {
                DhcpAssignment::Free
            },
    )
}

/// On a fresh table, clients with different identifiers are served in
/// order: the client of exchange `k` is offered slot `k` with that slot's
/// address, its Request is acknowledged for the same slot, and afterwards
/// the first `k + 1` slots are leased and the others still free. So every
/// client gets a slot, and an address, of its own.
pub proof fn lemma_each_client_gets_its_own_slot(
    capacity: nat,
    lease_time: Duration,
    exchanges: Seq<Exchange>,
    k: nat,
)
    requires
        spec_leases_stay_live(capacity, lease_time, exchanges),
        k < exchanges.len(),
    ensures
        spec_after_exchanges(capacity, lease_time, exchanges, k) == spec_leased_in_order(
            capacity,
            lease_time,
            exchanges,
            k,
        ),
        spec_discover_offer(
            spec_after_exchanges(capacity, lease_time, exchanges, k),
            exchanges[k as int].identifier,
            exchanges[k as int].discover_time,
        ) == Some((k as usize, spec_construct_address(k as int))),
        spec_request_outcome(
            spec_after_discover(
                spec_after_exchanges(capacity, lease_time, exchanges, k),
                exchanges[k as int].identifier,
                exchanges[k as int].transaction_id,
                exchanges[k as int].discover_time,
            ),
            lease_time,
            exchanges[k as int].identifier,
            exchanges[k as int].transaction_id,
            exchanges[k as int].request_time,
        ) == Ok::<RequestOutcome, ClockError>(
            RequestOutcome::Ack(k as usize, spec_construct_address(k as int)),
        ),
        spec_after_exchanges(capacity, lease_time, exchanges, k + 1) == spec_leased_in_order(
            capacity,
            lease_time,
            exchanges,
            k + 1,
        ),
    decreases k,
{
    if k > 0 {
        lemma_each_client_gets_its_own_slot(capacity, lease_time, exchanges, (k - 1) as nat);
    } else {
        assert(spec_fresh_table(capacity) =~= spec_leased_in_order(
            capacity,
            lease_time,
            exchanges,
            0,
        ));
    }
    let exchange = exchanges[k as int];
    let before = spec_after_exchanges(capacity, lease_time, exchanges, k);
    assert(before == spec_leased_in_order(capacity, lease_time, exchanges, k));
    assert forall|j: int| 0 <= j < k implies !spec_reusable(
        #[trigger] before[j],
        exchange.identifier,
        exchange.discover_time,
    ) by {
        assert(exchanges[j].identifier != exchanges[k as int].identifier);
        assert(exchanges[k as int].discover_time.ticks < exchanges[j].request_time.ticks
            + lease_time.ticks);
    }
    assert(spec_reusable(before[k as int], exchange.identifier, exchange.discover_time));
    lemma_first_reusable(before, exchange.identifier, exchange.discover_time, 0);
    let offered = spec_after_discover(
        before,
        exchange.identifier,
        exchange.transaction_id,
        exchange.discover_time,
    );
    assert(offered == before.update(
        k as int,
        DhcpAssignment::Offered {
            transaction_id: exchange.transaction_id,
            identifier: exchange.identifier,
        },
    ));
    assert forall|j: int| 0 <= j < k implies !spec_grants(
        #[trigger] offered[j],
        exchange.identifier,
        exchange.transaction_id,
        exchange.request_time,
    ) by {
        assert(offered[j] == before[j]);
        assert(exchanges[j].identifier != exchanges[k as int].identifier);
    }
    lemma_first_granting(
        offered,
        exchange.identifier,
        exchange.transaction_id,
        exchange.request_time,
        0,
    );
    assert(spec_after_exchanges(capacity, lease_time, exchanges, k + 1) =~= spec_leased_in_order(
        capacity,
        lease_time,
        exchanges,
        k + 1,
    ));
}

/// Once as many clients hold a lease as the table has slots, a Discover
/// from a further identifier is offered nothing for as long as all those
/// leases run, and leaves the table as it is.
pub proof fn lemma_no_slot_for_one_client_more(
    capacity: nat,
    lease_time: Duration,
    exchanges: Seq<Exchange>,
    newcomer: EthernetAddress,
    transaction_id: u32,
    now: Instant,
)
    requires
        spec_leases_stay_live(capacity, lease_time, exchanges),
        exchanges.len() == capacity,
        forall|k: int| 0 <= k < exchanges.len() ==> (#[trigger] exchanges[k]).identifier != newcomer,
        forall|k: int|
            0 <= k < exchanges.len() ==> now.ticks < (#[trigger] exchanges[k]).request_time.ticks
                + lease_time.ticks,
    ensures
        spec_discover_offer(
            spec_after_exchanges(capacity, lease_time, exchanges, capacity),
            newcomer,
            now,
        ) is None,
        spec_after_discover(
            spec_after_exchanges(capacity, lease_time, exchanges, capacity),
            newcomer,
            transaction_id,
            now,
        ) == spec_after_exchanges(capacity, lease_time, exchanges, capacity),
{
    let table = spec_after_exchanges(capacity, lease_time, exchanges, capacity);
    if capacity == 0 {
        assert(table.len() == 0);
    } else {
        lemma_each_client_gets_its_own_slot(
            capacity,
            lease_time,
            exchanges,
            (capacity - 1) as nat,
        );
    }
    assert(table == spec_leased_in_order(capacity, lease_time, exchanges, capacity));
    assert forall|j: int| 0 <= j < table.len() implies (#[trigger] table[j] matches DhcpAssignment::Assigned {
        identifier,
        lease_end_time,
        ..
    } && identifier != newcomer && now.ticks < lease_end_time.ticks) by {
        assert(exchanges[j].identifier != newcomer);
        assert(now.ticks < exchanges[j].request_time.ticks + lease_time.ticks);
    }
    lemma_full_table_offers_nothing(table, newcomer, transaction_id, now);
}

} // verus!
