use vstd::prelude::*;
use vstd::slice::slice_subrange;
use crate::decimal::{
    decimal_text, lemma_decimal_round_trip, lemma_decimal_text_digits, parse_bounded,
    parse_unsigned, push_decimal, IntFault,
};
use crate::primitives::{bytes_to_vec, CCDifficulty, CCNonce};
use crate::timestamp::{is_float_text, lemma_float_text_has_no_colon, FloatFault, Timestamp};

verus! {

/// The byte that separates the fields of a payload.
pub const GLUE_BYTE: u8 = 58;

pub type ByteTag = [u8; 3];

pub type SerializedBlockConsensus = Vec<u8>;

/// The tag of a proof-of-work payload: the bytes of `PoW`.
pub open spec fn pow_tag() -> Seq<u8> {
    seq![80u8, 111u8, 87u8]
}

/// The consensus fields that a block carries in its payload.
#[derive(Debug)]
pub struct BlockConsensus {
    /// Consensus data byte-prefix
    pub tag: ByteTag,
    /// The difficulty that the block declares
    pub difficulty: CCDifficulty,
    /// The time at which the block was mined, in UTC seconds
    pub timestamp: Timestamp,
    /// The proof-of-work nonce
    pub nonce: CCNonce,
}

/// A `BlockConsensus` as plain values.
pub ghost struct ConsensusView {
    pub tag: Seq<u8>,
    pub difficulty: CCDifficulty,
    pub timestamp: Seq<u8>,
    pub nonce: CCNonce,
}

impl View for BlockConsensus {
    type V = ConsensusView;

    open spec fn view(&self) -> ConsensusView {
        ConsensusView {
            tag: self.tag@,
            difficulty: self.difficulty,
            timestamp: self.timestamp@,
            nonce: self.nonce,
        }
    }
}

/// The consensus of a block that carries none: an all-zero tag, difficulty
/// and nonce zero, and the timestamp `0`.
pub open spec fn default_consensus() -> ConsensusView {
    ConsensusView { tag: seq![0u8, 0u8, 0u8], difficulty: 0, timestamp: seq![48u8], nonce: 0 }
}

#[derive(Debug)]
pub enum ConsensusError {
    ParsingError(String),
    NotPoWError(String),
    InvalidHash(String),
}

/// A `ConsensusError` as plain values.
pub ghost enum ConsensusErrorView {
    ParsingError(Seq<char>),
    NotPoWError(Seq<char>),
    InvalidHash(Seq<char>),
}

impl View for ConsensusError {
    type V = ConsensusErrorView;

    open spec fn view(&self) -> ConsensusErrorView {
        match self {
            ConsensusError::ParsingError(message) => ConsensusErrorView::ParsingError(message@),
            ConsensusError::NotPoWError(message) => ConsensusErrorView::NotPoWError(message@),
            ConsensusError::InvalidHash(message) => ConsensusErrorView::InvalidHash(message@),
        }
    }
}

/// The text that describes an error: what kind it is of, and its message.
pub open spec fn error_text(error: ConsensusErrorView) -> Seq<char> {
    match error {
        ConsensusErrorView::ParsingError(message) => "Unparsable Consensus: "@ + message,
        ConsensusErrorView::NotPoWError(message) => "Not PoW Consensus: "@ + message,
        ConsensusErrorView::InvalidHash(message) => "Hash doesn't meet diffulty "@ + message,
    }
}

impl ConsensusError {
    /// The text that describes the error.
    pub fn to_string(&self) -> (text: String)
        ensures
            text@ == error_text(self@),
    {
        match self {
            ConsensusError::ParsingError(message) => String::from_str(
                "Unparsable Consensus: ",
            ).concat(message.as_str()),
            ConsensusError::NotPoWError(message) => String::from_str("Not PoW Consensus: ").concat(
                message.as_str(),
            ),
            ConsensusError::InvalidHash(message) => String::from_str(
                "Hash doesn't meet diffulty ",
            ).concat(message.as_str()),
        }
    }
}

/// What is wrong with a payload.
pub ghost enum PayloadFault {
    /// The payload ends before its tag and the byte behind it are complete.
    Truncated,
    /// The tag is not `PoW`.
    NotPow,
    Difficulty(IntFault),
    Timestamp(FloatFault),
    Nonce(IntFault),
}

/// The index of the first `terminator` at or behind `from`, or the length of
/// the text where there is none.
pub open spec fn field_end(text: Seq<u8>, from: int, terminator: u8) -> int
    decreases text.len() - from,
{
    if 0 <= from < text.len() && text[from] != terminator {
        field_end(text, from + 1, terminator)
    } else {
        from
    }
}

/// Where a field that is to start at `from` starts: there, or at the end of
/// the text where `from` lies behind it.
pub open spec fn field_start(text: Seq<u8>, from: int) -> int {
    if from > text.len() {
        text.len() as int
    } else {
        from
    }
}

/// Where the field behind the one that ends at `end` starts: behind the
/// terminator, or at the end of the text.
pub open spec fn field_next(text: Seq<u8>, end: int) -> int {
    if end < text.len() {
        end + 1
    } else {
        end
    }
}

pub open spec fn float_fault(text: Seq<u8>) -> FloatFault {
    if text.len() == 0 {
        FloatFault::Empty
    } else {
        FloatFault::Invalid
    }
}

/// What a payload holds. Three bytes of tag, which must be `PoW`; one byte
/// that is passed over; the difficulty up to the next colon; the nonce up to
/// the colon after that; and the timestamp, which is all the rest. A field
/// that the payload ends before is empty. Of several faulty fields the
/// difficulty is reported before the timestamp, and the timestamp before the
/// nonce.
pub open spec fn parse_payload(payload: Seq<u8>) -> Result<ConsensusView, PayloadFault> {
    if payload.len() < 3 {
        Err(PayloadFault::Truncated)
    } else if payload.subrange(0, 3) != pow_tag() {
        Err(PayloadFault::NotPow)
    } else if payload.len() < 4 {
        Err(PayloadFault::Truncated)
    } else {
        let difficulty_end = field_end(payload, 4, GLUE_BYTE);
        let nonce_start = field_next(payload, difficulty_end);
        let nonce_end = field_end(payload, nonce_start, GLUE_BYTE);
        let timestamp_start = field_next(payload, nonce_end);
        let difficulty = parse_unsigned(payload.subrange(4, difficulty_end), u32::MAX as nat);
        let nonce = parse_unsigned(payload.subrange(nonce_start, nonce_end), u64::MAX as nat);
        let timestamp = payload.subrange(timestamp_start, payload.len() as int);
        match difficulty {
            Err(fault) => Err(PayloadFault::Difficulty(fault)),
            Ok(difficulty) => if !is_float_text(timestamp) {
                Err(PayloadFault::Timestamp(float_fault(timestamp)))
            } else {
                match nonce {
                    Err(fault) => Err(PayloadFault::Nonce(fault)),
                    Ok(nonce) => Ok(
                        ConsensusView {
                            tag: pow_tag(),
                            difficulty: difficulty as u32,
                            timestamp,
                            nonce: nonce as u64,
                        },
                    ),
                }
            },
        }
    }
}

/// The payload that carries the given fields: `PoW:<difficulty>:<nonce>:<timestamp>`.
pub open spec fn payload_text(difficulty: CCDifficulty, timestamp: Seq<u8>, nonce: CCNonce) -> Seq<
    u8,
> {
    pow_tag() + seq![GLUE_BYTE] + decimal_text(difficulty as nat) + seq![GLUE_BYTE] + decimal_text(
        nonce as nat,
    ) + seq![GLUE_BYTE] + timestamp
}

pub open spec fn int_fault_text(fault: IntFault) -> Seq<char> {
    match fault {
        IntFault::Empty => "cannot parse integer from empty string"@,
        IntFault::InvalidDigit => "invalid digit found in string"@,
        IntFault::Overflow => "number too large to fit in target type"@,
    }
}

pub open spec fn float_fault_text(fault: FloatFault) -> Seq<char> {
    match fault {
        FloatFault::Empty => "cannot parse float from empty string"@,
        FloatFault::Invalid => "invalid float literal"@,
    }
}

/// The error that reports a fault: the tag's under `NotPoWError`, every
/// other under `ParsingError`, a field's with the field's name and a colon
/// before the reason.
pub open spec fn fault_error(fault: PayloadFault) -> ConsensusErrorView {
    match fault {
        PayloadFault::Truncated => ConsensusErrorView::ParsingError(
            "failed to fill whole buffer"@,
        ),
        PayloadFault::NotPow => ConsensusErrorView::NotPoWError("Consensus has invalid tag"@),
        PayloadFault::Difficulty(fault) => ConsensusErrorView::ParsingError(
            "difficulty:"@ + int_fault_text(fault),
        ),
        PayloadFault::Timestamp(fault) => ConsensusErrorView::ParsingError(
            "timestamp:"@ + float_fault_text(fault),
        ),
        PayloadFault::Nonce(fault) => ConsensusErrorView::ParsingError(
            "nonce:"@ + int_fault_text(fault),
        ),
    }
}

fn int_fault_message(field: &str, fault: IntFault) -> (message: String)
    ensures
        message@ == field@ + int_fault_text(fault),
{
    let message: String = String::from_str(field);
    match fault {
        IntFault::Empty => message.concat("cannot parse integer from empty string"),
        IntFault::InvalidDigit => message.concat("invalid digit found in string"),
        IntFault::Overflow => message.concat("number too large to fit in target type"),
    }
}

fn float_fault_message(field: &str, fault: FloatFault) -> (message: String)
    ensures
        message@ == field@ + float_fault_text(fault),
{
    let message: String = String::from_str(field);
    match fault {
        FloatFault::Empty => message.concat("cannot parse float from empty string"),
        FloatFault::Invalid => message.concat("invalid float literal"),
    }
}

/// Where the text has no terminator from `from` up to `end`, and ends or has
/// one at `end`, the field that starts at `from` ends at `end`.
pub proof fn lemma_field_end_at(text: Seq<u8>, from: int, end: int, terminator: u8)
    requires
        0 <= from <= end <= text.len(),
        forall|i: int| from <= i < end ==> text[i] != terminator,
        end == text.len() || text[end] == terminator,
    ensures
        field_end(text, from, terminator) == end,
    decreases end - from,
{
    if from < end {
        lemma_field_end_at(text, from + 1, end, terminator);
    }
}

/// A field ends within the text, and holds no terminator.
pub proof fn lemma_field_end(text: Seq<u8>, from: int, terminator: u8)
    requires
        0 <= from <= text.len(),
    ensures
        from <= field_end(text, from, terminator) <= text.len(),
        forall|i: int|
            from <= i < field_end(text, from, terminator) ==> #[trigger] text[i] != terminator,
        field_end(text, from, terminator) < text.len() ==> text[field_end(
            text,
            from,
            terminator,
        )] == terminator,
    decreases text.len() - from,
{
    if from < text.len() && text[from] != terminator {
        lemma_field_end(text, from + 1, terminator);
    }
}

/// Reading the payload that was written for a difficulty, a timestamp and a
/// nonce gives the three back, under the tag `PoW`.
pub proof fn lemma_payload_round_trip(difficulty: CCDifficulty, timestamp: Seq<u8>, nonce: CCNonce)
    requires
        is_float_text(timestamp),
    ensures
        parse_payload(payload_text(difficulty, timestamp, nonce)) == Ok::<
            ConsensusView,
            PayloadFault,
        >(ConsensusView { tag: pow_tag(), difficulty, timestamp, nonce }),
{
    let payload = payload_text(difficulty, timestamp, nonce);
    let d = decimal_text(difficulty as nat);
    let n = decimal_text(nonce as nat);
    lemma_decimal_text_digits(difficulty as nat);
    lemma_decimal_text_digits(nonce as nat);
    lemma_decimal_round_trip(difficulty as nat, u32::MAX as nat);
    lemma_decimal_round_trip(nonce as nat, u64::MAX as nat);
    let difficulty_end = 4 + d.len();
    let nonce_start = difficulty_end + 1;
    let nonce_end = nonce_start + n.len();
    let timestamp_start = nonce_end + 1;
    assert(payload.len() == timestamp_start + timestamp.len());
    assert(payload.subrange(0, 3) =~= pow_tag());
    assert forall|i: int| 4 <= i < difficulty_end implies payload[i] != GLUE_BYTE by {
        assert(payload[i] == d[i - 4]);
    }
    assert(payload[difficulty_end as int] == GLUE_BYTE);
    lemma_field_end_at(payload, 4, difficulty_end as int, GLUE_BYTE);
    assert forall|i: int| nonce_start <= i < nonce_end implies payload[i] != GLUE_BYTE by {
        assert(payload[i] == n[i - nonce_start]);
    }
    assert(payload[nonce_end as int] == GLUE_BYTE);
    lemma_field_end_at(payload, nonce_start as int, nonce_end as int, GLUE_BYTE);
    assert(payload.subrange(4, difficulty_end as int) =~= d);
    assert(payload.subrange(nonce_start as int, nonce_end as int) =~= n);
    assert(payload.subrange(timestamp_start as int, payload.len() as int) =~= timestamp);
}

/// No field of a written payload holds a colon: the only colons of the
/// payload are the three that separate the tag and the fields.
pub proof fn lemma_payload_fields_hold_no_colon(
    difficulty: CCDifficulty,
    timestamp: Seq<u8>,
    nonce: CCNonce,
)
    requires
        is_float_text(timestamp),
    ensures
        forall|i: int|
            0 <= i < decimal_text(difficulty as nat).len() ==> #[trigger] decimal_text(
                difficulty as nat,
            )[i] != GLUE_BYTE,
        forall|i: int|
            0 <= i < decimal_text(nonce as nat).len() ==> #[trigger] decimal_text(nonce as nat)[i]
                != GLUE_BYTE,
        forall|i: int| 0 <= i < timestamp.len() ==> #[trigger] timestamp[i] != GLUE_BYTE,
        forall|i: int|
            0 <= i < payload_text(difficulty, timestamp, nonce).len() ==> (#[trigger] payload_text(
                difficulty,
                timestamp,
                nonce,
            )[i] == GLUE_BYTE <==> (i == 3 || i == 4 + decimal_text(difficulty as nat).len() || i == 5
                + decimal_text(difficulty as nat).len() + decimal_text(nonce as nat).len())),
{
    lemma_decimal_text_digits(difficulty as nat);
    lemma_decimal_text_digits(nonce as nat);
    lemma_float_text_has_no_colon(timestamp);
    let payload = payload_text(difficulty, timestamp, nonce);
    let d = decimal_text(difficulty as nat);
    let n = decimal_text(nonce as nat);
    assert forall|i: int| 0 <= i < payload.len() implies (#[trigger] payload[i] == GLUE_BYTE <==> (i
        == 3 || i == 4 + d.len() || i == 5 + d.len() + n.len())) by {
        if i < 4 {
        } else if i < 4 + d.len() {
            assert(payload[i] == d[i - 4]);
        } else if i == 4 + d.len() {
        } else if i < 5 + d.len() + n.len() {
            assert(payload[i] == n[i - 5 - d.len()]);
        } else if i == 5 + d.len() + n.len() {
        } else {
            assert(payload[i] == timestamp[i - 6 - d.len() - n.len()]);
        }
    }
}

impl BlockConsensus {
    /// Whether `payload` parses as a proof-of-work consensus.
    pub fn is_pow_consensus(payload: &[u8]) -> (pow: bool)
        ensures
            pow == parse_payload(payload@) is Ok,
    {
        match Self::deserialize(payload) {
            Ok(_) => true,
            Err(_) => false,
        }
    }

    /// Writes the fields as a payload.
    pub fn serialize(difficulty: CCDifficulty, timestamp: &Timestamp, nonce: CCNonce) -> (payload:
        Vec<u8>)
        ensures
            payload@ == payload_text(difficulty, timestamp@, nonce),
    {
        let mut payload: Vec<u8> = vec![80u8, 111u8, 87u8, GLUE_BYTE];
        push_decimal(&mut payload, difficulty as u64);
        payload.push(GLUE_BYTE);
        push_decimal(&mut payload, nonce);
        payload.push(GLUE_BYTE);
        payload.extend_from_slice(timestamp.as_bytes());
        assert(payload@ =~= payload_text(difficulty, timestamp@, nonce));
        payload
    }

    /// Reads the field that starts at `from`, or at the end of `bytes` where
    /// `from` lies behind it: the bytes up to the next `terminator`, or up to
    /// the end. Returns the field and the place where the next field starts.
    pub fn read_sequence(bytes: &[u8], from: usize, terminator: u8) -> (result: (Vec<u8>, usize))
        ensures
            result.0@ == bytes@.subrange(
                field_start(bytes@, from as int),
                field_end(bytes@, field_start(bytes@, from as int), terminator),
            ),
            result.1 == field_next(
                bytes@,
                field_end(bytes@, field_start(bytes@, from as int), terminator),
            ),
    {
        let start: usize = if from > bytes.len() { bytes.len() } else { from };
        let mut end: usize = start;
        while end < bytes.len() && bytes[end] != terminator
            invariant
                start <= end <= bytes@.len(),
                field_end(bytes@, start as int, terminator) == field_end(
                    bytes@,
                    end as int,
                    terminator,
                ),
            decreases bytes@.len() - end,
        {
            end += 1;
        }
        let sequence: Vec<u8> = bytes_to_vec(slice_subrange(bytes, start, end));
        let next: usize = if end < bytes.len() { end + 1 } else { end };
        (sequence, next)
    }

    /// Reads a payload.
    pub fn deserialize(slice: &[u8]) -> (result: Result<Self, ConsensusError>)
        ensures
            match result {
                Ok(consensus) => parse_payload(slice@) == Ok::<ConsensusView, PayloadFault>(
                    consensus@,
                ),
                Err(error) => parse_payload(slice@) matches Err(fault) && error@ == fault_error(
                    fault,
                ),
            },
    {
        if slice.len() < 3 {
            return Err(
                ConsensusError::ParsingError(String::from_str("failed to fill whole buffer")),
            );
        }
        let tag: ByteTag = [slice[0], slice[1], slice[2]];
        if !Self::verify_tag(slice_subrange(slice, 0, 3)) {
            return Err(ConsensusError::NotPoWError(String::from_str("Consensus has invalid tag")));
        }
        if slice.len() < 4 {
            return Err(
                ConsensusError::ParsingError(String::from_str("failed to fill whole buffer")),
            );
        }
        let (difficulty_text, nonce_start) = Self::read_sequence(slice, 4, GLUE_BYTE);
        proof {
            lemma_field_end(slice@, 4, GLUE_BYTE);
        }
        let (nonce_text, timestamp_start) = Self::read_sequence(slice, nonce_start, GLUE_BYTE);
        proof {
            lemma_field_end(slice@, nonce_start as int, GLUE_BYTE);
        }
        let timestamp_text: &[u8] = slice_subrange(slice, timestamp_start, slice.len());
        let difficulty: u32 = match parse_bounded(difficulty_text.as_slice(), 0xffff_ffff) {
            Ok(value) => value as u32,
            Err(fault) => {
                return Err(ConsensusError::ParsingError(int_fault_message("difficulty:", fault)));
            },
        };
        let timestamp: Timestamp = match Timestamp::parse(timestamp_text) {
            Ok(timestamp) => timestamp,
            Err(fault) => {
                return Err(
                    ConsensusError::ParsingError(float_fault_message("timestamp:", fault)),
                );
            },
        };
        let nonce: u64 = match parse_bounded(nonce_text.as_slice(), 0xffff_ffff_ffff_ffff) {
            Ok(value) => value,
            Err(fault) => {
                return Err(ConsensusError::ParsingError(int_fault_message("nonce:", fault)));
            },
        };
        let consensus = Self { tag, difficulty, timestamp, nonce };
        assert(consensus.tag@ =~= pow_tag());
        Ok(consensus)
    }

    /// The consensus of a block that carries none.
    pub fn new() -> (consensus: Self)
        ensures
            consensus@ == default_consensus(),
    {
        let consensus = Self { tag: [0u8, 0u8, 0u8], difficulty: 0, timestamp: Timestamp::zero(), nonce: 0 };
        assert(consensus.tag@ =~= seq![0u8, 0u8, 0u8]);
        consensus
    }

    /// Whether the tag is `PoW`.
    pub fn is_pow(&self) -> (pow: bool)
        ensures
            pow == (self@.tag == pow_tag()),
    {
        let pow: bool = self.tag[0] == 80 && self.tag[1] == 111 && self.tag[2] == 87;
        proof {
            if pow {
                assert(self@.tag =~= pow_tag());
            }
        }
        pow
    }

    /// Whether `tag` is `PoW`.
    pub fn verify_tag(tag: &[u8]) -> (pow: bool)
        ensures
            pow == (tag@ == pow_tag()),
    {
        let pow: bool = tag.len() == 3 && tag[0] == 80 && tag[1] == 111 && tag[2] == 87;
        proof {
            if pow {
                assert(tag@ =~= pow_tag());
            }
        }
        pow
    }
}

impl Clone for BlockConsensus {
    fn clone(&self) -> (copy: Self)
        ensures
            copy@ == self@,
    {
        Self {
            tag: self.tag,
            difficulty: self.difficulty,
            timestamp: self.timestamp.clone(),
            nonce: self.nonce,
        }
    }
}

} // verus!
