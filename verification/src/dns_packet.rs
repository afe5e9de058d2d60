//! In-place DNS codec: header inspection, question-name walking, and the
//! rewrite of a query buffer into a single-answer response.

use crate::wire::Ipv4Address;
use vstd::prelude::*;

verus! {

/// A DNS header is 12 bytes.
pub const DNS_HEADER_SIZE: usize = 12;

/// Bytes that follow a question name: QTYPE and QCLASS.
pub const QUESTION_TRAILER_SIZE: usize = 4;

/// Size of the answer record that a response carries: a two-byte name
/// pointer, type, class, a four-byte TTL, RDLENGTH and the four address bytes.
pub const ANSWER_RECORD_SIZE: usize = 16;

/// Seconds for which a client may cache the answer.
pub const ANSWER_TTL: u8 = 60;

/// True when the QR bit of the flags byte marks the message as a query.
pub open spec fn spec_is_query(bytes: Seq<u8>) -> bool {
    bytes[2] < 0x80
}

/// True when the four OPCODE bits of the flags byte are all clear.
pub open spec fn spec_is_standard_query(bytes: Seq<u8>) -> bool {
    (bytes[2] as int / 8) % 16 == 0
}

/// QDCOUNT: the big-endian 16-bit value at offsets 4 and 5.
pub open spec fn spec_question_count(bytes: Seq<u8>) -> int {
    bytes[4] as int * 256 + bytes[5] as int
}

/// A message that this responder answers: a full header, marked as a
/// standard query, with exactly one question.
pub open spec fn spec_header_is_eligible(bytes: Seq<u8>) -> bool {
    &&& bytes.len() >= DNS_HEADER_SIZE
    &&& spec_is_query(bytes)
    &&& spec_is_standard_query(bytes)
    &&& spec_question_count(bytes) == 1
}

/// Index of the zero-length label that terminates the name whose first
/// length byte is at `pos`, or `None` when the bytes run out first.
pub open spec fn spec_name_end(bytes: Seq<u8>, pos: int) -> Option<int>
    decreases bytes.len() - pos,
{
    if pos < 0 || pos >= bytes.len() {
        None
    } else if bytes[pos] == 0 {
        Some(pos)
    } else if pos + 1 + bytes[pos] < bytes.len() {
        spec_name_end(bytes, pos + 1 + bytes[pos])
    } else {
        None
    }
}

/// Length of the question that starts at the front of `bytes`: the name up
/// to and including its terminator, then QTYPE and QCLASS.
pub open spec fn spec_question_length(bytes: Seq<u8>) -> Option<int> {
    match spec_name_end(bytes, 0) {
        Some(end) => Some(end + 1 + QUESTION_TRAILER_SIZE as int),
        None => None,
    }
}

/// Wire form of a name made of `labels`, without its terminator: each label
/// preceded by its length.
pub open spec fn spec_encode_labels(labels: Seq<Seq<u8>>) -> Seq<u8>
    decreases labels.len(),
{
    if labels.len() == 0 {
        Seq::empty()
    } else {
        seq![labels[0].len() as u8] + labels[0] + spec_encode_labels(labels.skip(1))
    }
}

/// Sum of `1 + label length` over `labels`.
pub open spec fn spec_labels_size(labels: Seq<Seq<u8>>) -> int
    decreases labels.len(),
{
    if labels.len() == 0 {
        0
    } else {
        1 + labels[0].len() + spec_labels_size(labels.skip(1))
    }
}

/// What remains of `bytes` once `count` questions have been stepped over,
/// or `None` when one of them is truncated.
pub open spec fn spec_skip_questions(bytes: Seq<u8>, count: nat) -> Option<Seq<u8>>
    decreases count,
{
    if count == 0 {
        Some(bytes)
    } else {
        match spec_question_length(bytes) {
            Some(length) => if length <= bytes.len() {
                spec_skip_questions(bytes.skip(length), (count - 1) as nat)
            } else {
                None
            },
            None => None,
        }
    }
}

/// How many questions `DnsPacket::question` steps over for a given index.
pub open spec fn spec_questions_to_skip(question: u16) -> nat {
    if question == 0 {
        0
    } else {
        (question - 1) as nat
    }
}

/// The flags byte of a response: QR and AA set, the other bits as in the
/// query.
pub open spec fn spec_response_flags(query_flags: u8) -> u8 {
    query_flags | 0x84
}

/// Header of the response to `query`: identifier and QDCOUNT kept, QR and AA
/// set, the second flags byte fixed at `0x80`, ANCOUNT one, NSCOUNT and
/// ARCOUNT zero.
pub open spec fn spec_response_header(query: Seq<u8>) -> Seq<u8> {
    seq![
        query[0],
        query[1],
        spec_response_flags(query[2]),
        0x80u8,
        query[4],
        query[5],
        0u8,
        1u8,
        0u8,
        0u8,
        0u8,
        0u8,
    ]
}

/// The single answer: a compression pointer to offset 12, type A, class IN,
/// the fixed TTL, RDLENGTH 4 and the address.
pub open spec fn spec_answer_record(ip_address: Ipv4Address) -> Seq<u8> {
    seq![
        0xC0u8,
        0x0Cu8,
        0u8,
        1u8,
        0u8,
        1u8,
        0u8,
        0u8,
        0u8,
        ANSWER_TTL,
        0u8,
        4u8,
        ip_address.0[0],
        ip_address.0[1],
        ip_address.0[2],
        ip_address.0[3],
    ]
}

/// Length of the question of an answerable query, when the buffer also has
/// room for the answer record behind it.
pub open spec fn spec_answerable_question(query: Seq<u8>) -> Option<int> {
    if spec_header_is_eligible(query) {
        match spec_question_length(query.skip(DNS_HEADER_SIZE as int)) {
            Some(length) => if DNS_HEADER_SIZE + length + ANSWER_RECORD_SIZE <= query.len() {
                Some(length)
            } else {
                None
            },
            None => None,
        }
    } else {
        None
    }
}

/// The response to `query`, if it is answered at all: patched header, the
/// question as received, and the answer record.
pub open spec fn spec_response(query: Seq<u8>, ip_address: Ipv4Address) -> Option<Seq<u8>> {
    match spec_answerable_question(query) {
        Some(length) => Some(
            spec_response_header(query) + query.subrange(
                DNS_HEADER_SIZE as int,
                DNS_HEADER_SIZE + length,
            ) + spec_answer_record(ip_address),
        ),
        None => None,
    }
}

/// A read-only view of the 12-byte header at the front of a DNS message.
pub struct DnsHeader<'a> {
    buffer: &'a [u8],
}

impl<'a> DnsHeader<'a> {
    #[verifier::type_invariant]
    spec fn holds_full_header(self) -> bool {
        self.buffer@.len() >= DNS_HEADER_SIZE
    }

    /// The bytes of the message this header belongs to.
    pub closed spec fn view(&self) -> Seq<u8> {
        self.buffer@
    }

    /// Try to create a DNS header from a buffer: succeeds exactly when the
    /// buffer holds at least the 12 header bytes.
    pub fn new_checked(buffer: &'a [u8]) -> (r: Option<Self>)
        ensures
            r is Some <==> buffer@.len() >= DNS_HEADER_SIZE,
            r matches Some(header) ==> header@ == buffer@,
    {
        if buffer.len() < DNS_HEADER_SIZE {
            None
        } else {
            Some(Self { buffer })
        }
    }

    /// Whether the QR bit is clear.
    pub fn is_query(&self) -> (r: bool)
        ensures
            r == spec_is_query(self@),
    {
        proof {
            use_type_invariant(self);
        }
        let flags: u8 = self.buffer[2];
        assert(((flags >> 7) & 1 == 0) <==> flags < 0x80) by (bit_vector);
        ((flags >> 7) & 1) == 0
    }

    /// Whether OPCODE is 0, the standard query.
    pub fn is_standard_query(&self) -> (r: bool)
        ensures
            r == spec_is_standard_query(self@),
    {
        proof {
            use_type_invariant(self);
        }
        let flags: u8 = self.buffer[2];
        assert(((flags >> 3) & 0xf == 0) <==> (flags as int / 8) % 16 == 0) by (bit_vector);
        ((flags >> 3) & 0xf) == 0
    }

    /// QDCOUNT, the number of questions the message announces.
    pub fn question_count(&self) -> (r: u16)
        ensures
            r == spec_question_count(self@),
    {
        proof {
            use_type_invariant(self);
        }
        let hi: u8 = self.buffer[4];
        let lo: u8 = self.buffer[5];
        assert((((hi as u16) << 8) | (lo as u16)) == hi as int * 256 + lo as int) by (bit_vector);
        ((hi as u16) << 8) | (lo as u16)
    }
}

/// Whether `buffer` starts with the header of a query that this responder
/// answers.
pub fn header_is_eligible(buffer: &[u8]) -> (r: bool)
    ensures
        r == spec_header_is_eligible(buffer@),
{
    match DnsHeader::new_checked(buffer) {
        Some(header) => header.is_query() && header.is_standard_query() && header.question_count()
            == 1,
        None => false,
    }
}

/// A question whose name is properly terminated inside its buffer.
pub struct DnsQuestion<'a> {
    buffer: &'a [u8],
}

impl<'a> DnsQuestion<'a> {
    #[verifier::type_invariant]
    spec fn name_is_terminated(self) -> bool {
        spec_question_length(self.buffer@) is Some
    }

    /// The bytes from the start of the question to the end of its buffer.
    pub closed spec fn view(&self) -> Seq<u8> {
        self.buffer@
    }

    /// Accepts `buffer` as a question exactly when `length` finds one in it.
    pub fn new_checked(buffer: &'a [u8]) -> (r: Option<Self>)
        ensures
            r is Some <==> (spec_question_length(buffer@) matches Some(length) && length
                <= usize::MAX),
            r matches Some(question) ==> question@ == buffer@,
    {
        match Self::length(buffer) {
            Some(_) => Some(Self { buffer }),
            None => None,
        }
    }

    /// Given a buffer, calculate the length of the question part of the
    /// packet in bytes: every label with its length byte, the terminator,
    /// QTYPE and QCLASS. `None` when the buffer ends before the terminator.
    pub fn length(buffer: &[u8]) -> (r: Option<usize>)
        ensures
            r is Some <==> (spec_question_length(buffer@) matches Some(length) && length
                <= usize::MAX),
            r matches Some(length) ==> spec_question_length(buffer@) == Some(length as int),
    {
        let mut pos: usize = 0;
        while pos < buffer.len()
            invariant
                pos <= buffer@.len(),
                spec_name_end(buffer@, pos as int) == spec_name_end(buffer@, 0),
            decreases buffer@.len() - pos,
        {
            let skip: usize = buffer[pos] as usize;
            if skip == 0 {
                return pos.checked_add(1 + QUESTION_TRAILER_SIZE);
            }
            if skip >= buffer.len() - pos {
                return None;
            }
            pos = pos + 1 + skip;
        }
        None
    }
}

/// A DNS message as received.
pub struct DnsPacket<'a> {
    buffer: &'a [u8],
}

impl<'a> DnsPacket<'a> {
    /// The bytes of the message.
    pub closed spec fn view(&self) -> Seq<u8> {
        self.buffer@
    }

    /// Wraps any buffer; what it holds is examined by the accessors.
    pub fn new_checked(buffer: &'a [u8]) -> (r: Option<Self>)
        ensures
            r matches Some(packet) && packet@ == buffer@,
    {
        Some(Self { buffer })
    }

    /// The header of a message that is long enough to have one.
    pub fn header<'b>(&self) -> (r: DnsHeader<'b>) where 'a: 'b
        requires
            self@.len() >= DNS_HEADER_SIZE,
        ensures
            r@ == self@,
    {
        DnsHeader { buffer: self.buffer }
    }

    /// The question reached from the first one by stepping over
    /// `question - 1` questions (none for the first two indices), provided
    /// `question` is below QDCOUNT and every question on the way, and the
    /// one returned, is terminated inside the message.
    pub fn question<'b>(&self, question: u16) -> (r: Option<DnsQuestion<'b>>) where 'a: 'b
        ensures
            r is Some <==> (self@.len() >= DNS_HEADER_SIZE && question < spec_question_count(self@)
                && (spec_skip_questions(
                self@.skip(DNS_HEADER_SIZE as int),
                spec_questions_to_skip(question),
            ) matches Some(rest) && (spec_question_length(rest) matches Some(length) && length
                <= usize::MAX))),
            r matches Some(found) ==> spec_skip_questions(
                self@.skip(DNS_HEADER_SIZE as int),
                spec_questions_to_skip(question),
            ) == Some(found@),
    {
        if self.buffer.len() < DNS_HEADER_SIZE {
            return None;
        }
        if question >= self.header().question_count() {
            return None;
        }
        let mut buffer: &'b [u8] = &self.buffer[DNS_HEADER_SIZE..self.buffer.len()];
        let to_skip: u16 = question.saturating_sub(1);
        let mut skipped: u16 = 0;
        assert(buffer@ == self@.skip(DNS_HEADER_SIZE as int));
        while skipped < to_skip
            invariant
                skipped <= to_skip,
                to_skip == spec_questions_to_skip(question),
                self@.len() >= DNS_HEADER_SIZE,
                question < spec_question_count(self@),
                spec_skip_questions(buffer@, (to_skip - skipped) as nat) == spec_skip_questions(
                    self@.skip(DNS_HEADER_SIZE as int),
                    to_skip as nat,
                ),
            decreases to_skip - skipped,
        {
            let remaining: usize = buffer.len();
            let question_length = match DnsQuestion::length(buffer) {
                Some(length) => length,
                None => {
                    return None;
                },
            };
            if question_length > remaining {
                return None;
            }
            let ghost before = buffer@;
            buffer = &buffer[question_length..remaining];
            assert(buffer@ == before.skip(question_length as int));
            skipped = skipped + 1;
        }
        DnsQuestion::new_checked(buffer)
    }

    /// Turns the query in `query_buffer` into its response, in place, and
    /// returns the response: the front of the same buffer. A message that
    /// is not a standard query with exactly one question, whose question
    /// name is not terminated, or whose buffer has no room for the answer
    /// record behind the question, is left as it is and gets no response.
    /// The answer is `ip_address`, whatever name was asked for.
    pub fn transform_query_to_response<'buffer>(
        query_buffer: &'buffer mut [u8],
        ip_address: Ipv4Address,
    ) -> (r: Option<&'buffer [u8]>)
        ensures
            final(query_buffer)@.len() == old(query_buffer)@.len(),
            match r {
                Some(response) => {
                    &&& spec_response(old(query_buffer)@, ip_address) == Some(response@)
                    &&& final(query_buffer)@ == response@ + old(query_buffer)@.skip(
                        response@.len() as int,
                    )
                },
                None => {
                    &&& spec_response(old(query_buffer)@, ip_address) is None
                    &&& final(query_buffer)@ == old(query_buffer)@
                },
            },
    {
        let total: usize = query_buffer.len();
        if !header_is_eligible(query_buffer) {
            return None;
        }
        let question_length = match DnsQuestion::length(&query_buffer[DNS_HEADER_SIZE..total]) {
            Some(length) => length,
            None => {
                return None;
            },
        };
        if question_length > total - DNS_HEADER_SIZE || total - DNS_HEADER_SIZE - question_length
            < ANSWER_RECORD_SIZE {
            return None;
        }
        let answer_start: usize = DNS_HEADER_SIZE + question_length;
        let response_end: usize = answer_start + ANSWER_RECORD_SIZE;
        let flags: u8 = query_buffer[2];

        write_bytes(
            query_buffer,
            answer_start,
            &[0xC0, 0x0C, 0x00, 0x01, 0x00, 0x01, 0, 0, 0, ANSWER_TTL, 0, 4],
        );
        write_bytes(query_buffer, answer_start + 12, ip_address.as_bytes());
        // this is a response, authoritative
        query_buffer[2] = flags | 0x84;
        query_buffer[3] = 0x80;
        // one answer, nothing else
        write_bytes(query_buffer, 6, &[0, 1, 0, 0, 0, 0]);

        let whole: &'buffer [u8] = query_buffer;
        let response = &whole[0..response_end];
        proof {
            let expected = spec_response(old(query_buffer)@, ip_address)->0;
            assert(response@ =~= expected);
            assert(whole@ =~= response@ + old(query_buffer)@.skip(response@.len() as int));
        }
        Some(response)
    }
}

/// Copies `data` over `buffer[start..start + data.len()]`.
fn write_bytes(buffer: &mut [u8], start: usize, data: &[u8])
    requires
        start + data@.len() <= old(buffer)@.len(),
    ensures
        final(buffer)@ == old(buffer)@.subrange(0, start as int) + data@ + old(buffer)@.skip(
            start + data@.len(),
        ),
{
    let mut i: usize = 0;
    let capacity: usize = buffer.len();
    while i < data.len()
        invariant
            i <= data@.len(),
            buffer@.len() == capacity,
            old(buffer)@.len() == capacity,
            start + data@.len() <= capacity,
            buffer@ == old(buffer)@.subrange(0, start as int) + data@.subrange(0, i as int) + old(
                buffer,
            )@.skip(start + i),
        decreases data@.len() - i,
    {
        buffer[start + i] = data[i];
        i = i + 1;
        assert(buffer@ =~= old(buffer)@.subrange(0, start as int) + data@.subrange(0, i as int)
            + old(buffer)@.skip(start + i));
    }
    assert(data@.subrange(0, i as int) =~= data@);
}

/// A message that is not a query, whose OPCODE is not 0, that announces
/// another number of questions than one, or whose question name is not
/// terminated inside the buffer, gets no response.
pub proof fn lemma_unanswerable_query_gets_no_response(query: Seq<u8>, ip_address: Ipv4Address)
    requires
        !spec_is_query(query) || !spec_is_standard_query(query) || spec_question_count(query) != 1
            || spec_question_length(query.skip(DNS_HEADER_SIZE as int)) is None,
    ensures
        spec_response(query, ip_address) is None,
{
}

/// What every response looks like: it ends right behind the answer
/// record; identifier and question are those of the query; QR and AA are
/// set; ANCOUNT is one, NSCOUNT and ARCOUNT are zero; and the last four
/// bytes, twelve bytes into the record that follows the question, are the
/// configured address.
pub proof fn lemma_response_shape(query: Seq<u8>, ip_address: Ipv4Address)
    requires
        spec_response(query, ip_address) is Some,
    ensures
        spec_answerable_question(query) matches Some(length) && ({
            let response = spec_response(query, ip_address)->0;
            let answer_start = DNS_HEADER_SIZE + length;
            &&& response.len() == answer_start + ANSWER_RECORD_SIZE
            &&& response.len() <= query.len()
            &&& response.subrange(0, 2) == query.subrange(0, 2)
            &&& response[2] & 0x80 == 0x80
            &&& response[2] & 0x04 == 0x04
            &&& response[2] & 0x7b == query[2] & 0x7b
            &&& response.subrange(4, 6) == query.subrange(4, 6)
            &&& response[6] == 0 && response[7] == 1
            &&& response.subrange(8, 12) == seq![0u8, 0u8, 0u8, 0u8]
            &&& response.subrange(DNS_HEADER_SIZE as int, answer_start) == query.subrange(
                DNS_HEADER_SIZE as int,
                answer_start,
            )
            &&& response.subrange(answer_start + 12, answer_start + 16) == ip_address@
        }),
{
    let length = spec_answerable_question(query)->0;
    let response = spec_response(query, ip_address)->0;
    let answer_start = DNS_HEADER_SIZE + length;
    lemma_name_end_in_bounds(query.skip(DNS_HEADER_SIZE as int), 0);
    let flags: u8 = query[2];
    assert((flags | 0x84) & 0x80 == 0x80 && (flags | 0x84) & 0x04 == 0x04 && (flags | 0x84) & 0x7b
        == flags & 0x7b) by (bit_vector);
    assert(response.subrange(0, 2) =~= query.subrange(0, 2));
    assert(response.subrange(4, 6) =~= query.subrange(4, 6));
    assert(response.subrange(8, 12) =~= seq![0u8, 0u8, 0u8, 0u8]);
    assert(response.subrange(DNS_HEADER_SIZE as int, answer_start) =~= query.subrange(
        DNS_HEADER_SIZE as int,
        answer_start,
    ));
    assert(response.subrange(answer_start + 12, answer_start + 16) =~= ip_address@);
}

/// Labels as a name can carry them: none empty, none longer than a length
/// byte can say.
pub open spec fn spec_labels_encodable(labels: Seq<Seq<u8>>) -> bool {
    forall|i: int| 0 <= i < labels.len() ==> 1 <= #[trigger] labels[i].len() <= 255
}

/// A question whose name is made of `labels` and a terminator is
/// `sum(1 + label length) + 1 + 4` bytes long, whatever follows the name.
pub proof fn lemma_question_length_of_labels(labels: Seq<Seq<u8>>, rest: Seq<u8>)
    requires
        spec_labels_encodable(labels),
    ensures
        spec_question_length(spec_encode_labels(labels) + seq![0u8] + rest) == Some(
            spec_labels_size(labels) + 1 + 4,
        ),
{
    lemma_name_end_of_labels(Seq::empty(), labels, rest);
    assert(Seq::<u8>::empty() + spec_encode_labels(labels) + seq![0u8] + rest
        =~= spec_encode_labels(labels) + seq![0u8] + rest);
}

/// Walking from the first length byte of an encoded name, wherever in a
/// message it starts, ends on the terminator the encoder put behind it.
proof fn lemma_name_end_of_labels(prefix: Seq<u8>, labels: Seq<Seq<u8>>, rest: Seq<u8>)
    requires
        spec_labels_encodable(labels),
    ensures
        spec_name_end(
            prefix + spec_encode_labels(labels) + seq![0u8] + rest,
            prefix.len() as int,
        ) == Some(prefix.len() + spec_labels_size(labels)),
    decreases labels.len(),
{
    let bytes = prefix + spec_encode_labels(labels) + seq![0u8] + rest;
    let start = prefix.len() as int;
    if labels.len() == 0 {
        assert(bytes[start] == 0);
    } else {
        let first = labels[0];
        let tail = labels.skip(1);
        let longer = prefix + seq![first.len() as u8] + first;
        assert(1 <= first.len() <= 255);
        assert(bytes[start] == first.len() as u8);
        assert(longer.len() == start + 1 + first.len());
        assert(bytes =~= longer + spec_encode_labels(tail) + seq![0u8] + rest);
        assert(spec_labels_encodable(tail)) by {
            assert forall|i: int| 0 <= i < tail.len() implies 1 <= #[trigger] tail[i].len()
                <= 255 by {
                assert(tail[i] == labels[i + 1]);
            }
        }
        lemma_name_end_of_labels(longer, tail, rest);
    }
}

/// The terminator that `spec_name_end` finds lies at or after `pos`, inside
/// `bytes`, and is a zero byte.
pub proof fn lemma_name_end_in_bounds(bytes: Seq<u8>, pos: int)
    ensures
        spec_name_end(bytes, pos) matches Some(end) ==> pos <= end < bytes.len() && bytes[end]
            == 0,
    decreases bytes.len() - pos,
{
    if 0 <= pos < bytes.len() && bytes[pos] != 0 && pos + 1 + bytes[pos] < bytes.len() {
        lemma_name_end_in_bounds(bytes, pos + 1 + bytes[pos]);
    }
}

} // verus!
