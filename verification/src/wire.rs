//! The wire format. Every message travels inside a [`WireMessageHeader`]: a `u64` of flags,
//! whose low byte says how the `inner` bytes are to be decoded, followed by those bytes.
//! Both are written in BARE: the flags as 8 little-endian bytes, `inner` as `data`.
use vstd::prelude::*;

verus! {

/// The error type of `serde_bare`.
#[verifier::external_type_specification]
#[verifier::external_body]
pub struct ExBareError(serde_bare::error::Error);

/// What `serde_bare::from_slice::<(u64, serde_bytes::ByteBuf)>` yields on `bytes`: the
/// flags and the inner bytes of a header, or `None` where it fails.
pub uninterp spec fn bare_header_decoding(bytes: Seq<u8>) -> Option<(u64, Seq<u8>)>;

/// Calls `serde_bare::from_slice` for a BARE `u64` followed by BARE `data`, the layout of
/// [`WireMessageHeader`]. Trusted: its result is what [`bare_header_decoding`] names for
/// `bytes`, the inner bytes taken out of the `ByteBuf` unchanged.
#[verifier::external_body]
fn bare_decode_header(bytes: &[u8]) -> (r: Result<(u64, Vec<u8>), serde_bare::error::Error>)
    ensures
        match r {
            Ok((flags, inner)) => bare_header_decoding(bytes@) == Some((flags, inner@)),
            Err(_) => bare_header_decoding(bytes@).is_none(),
        },
{
    match serde_bare::from_slice::<(u64, serde_bytes::ByteBuf)>(bytes) {
        Ok((flags, inner)) => Ok((flags, inner.into_vec())),
        Err(e) => Err(e),
    }
}

/// Wraps every other message; `msg_flags` says how `inner` is to be decoded.
pub struct WireMessageHeader {
    pub msg_flags: u64,
    pub inner: Vec<u8>,
}

impl WireMessageHeader {
    /// The message number: the low byte of the flags.
    pub fn get_msg_num(&self) -> (n: u8)
        ensures
            n == self.msg_flags % 256,
    {
        (self.msg_flags % 256) as u8
    }
}

/// A decoded message. No message kind is defined yet, so no value of this type can
/// exist: its invariant holds of none.
pub struct WireMessage {
    /// The message number of this message's kind.
    kind: u8,
}

impl WireMessage {
    /// The message number of this message's kind: the low byte of the flags of the
    /// header that carries it.
    pub closed spec fn msg_num(self) -> u8 {
        self.kind
    }

    /// Holds of the message kinds that are defined: none so far.
    #[verifier::type_invariant]
    spec fn kind_is_defined(self) -> bool {
        false
    }
}

/// Why bytes could not be turned into a [`WireMessage`].
#[derive(Debug)]
pub enum WireError {
    /// The bytes do not start with a BARE header; the BARE decoding error.
    HeaderDecode(serde_bare::error::Error),
    /// The header names a message number that this library does not know.
    UnknownMessage { msg_num: u8 },
}

/// The header decoding of `bytes` names message number 0, whose decoding is not written yet.
pub open spec fn names_unimplemented_message(bytes: Seq<u8>) -> bool {
    match bare_header_decoding(bytes) {
        Some((flags, _)) => flags % 256 == 0,
        None => false,
    }
}

impl WireMessage {
    /// What follows the header decoding: a header that could not be read gives its
    /// decoding error as [`WireError::HeaderDecode`], and any other message number is
    /// unknown. Message number 0 is left out: its decoding is not written yet.
    pub fn from_decoded_header(header: Result<WireMessageHeader, serde_bare::error::Error>) -> (r:
        Result<WireMessage, WireError>)
        requires
            header matches Ok(h) ==> h.msg_flags % 256 != 0,
        ensures
            match header {
                Err(e) => r matches Err(WireError::HeaderDecode(e2)) && e2 == e,
                Ok(h) => r matches Err(WireError::UnknownMessage { msg_num }) && msg_num == h.msg_flags
                    % 256,
            },
    {
        match header {
            Err(e) => Err(WireError::HeaderDecode(e)),
            Ok(h) => {
                let n = h.get_msg_num();
                Err(WireError::UnknownMessage { msg_num: n })
            },
        }
    }

    /// Decodes a message: first its BARE header, then, by the message number, the rest.
    pub fn from_bytes(bytes: &[u8]) -> (r: Result<WireMessage, WireError>)
        requires
            !names_unimplemented_message(bytes@),
        ensures
            match bare_header_decoding(bytes@) {
                None => r matches Err(WireError::HeaderDecode(_)),
                Some((flags, _)) => r matches Err(WireError::UnknownMessage { msg_num })
                    && msg_num == flags % 256,
            },
    {
        match bare_decode_header(bytes) {
            Ok((msg_flags, inner)) => {
                WireMessage::from_decoded_header(Ok(WireMessageHeader { msg_flags, inner }))
            },
            Err(e) => WireMessage::from_decoded_header(Err(e)),
        }
    }

    /// [`WireMessage::from_bytes`] where it is defined, and `None` for the message number
    /// whose decoding is not written yet.
    pub fn try_from_bytes(bytes: &[u8]) -> (r: Option<Result<WireMessage, WireError>>)
        ensures
            names_unimplemented_message(bytes@) <==> r.is_none(),
            match bare_header_decoding(bytes@) {
                None => r matches Some(Err(WireError::HeaderDecode(_))),
                Some((flags, _)) => flags % 256 != 0 ==> (r matches Some(
                    Err(WireError::UnknownMessage { msg_num }),
                ) && msg_num == flags % 256),
            },
    {
        match bare_decode_header(bytes) {
            Ok((msg_flags, _)) => {
                if msg_flags % 256 == 0 {
                    None
                } else {
                    Some(WireMessage::from_bytes(bytes))
                }
            },
            Err(e) => Some(WireMessage::from_decoded_header(Err(e))),
        }
    }

    /// The header that carries this message: its message number is the message's own.
    /// No message exists yet to carry.
    pub fn add_header(&self) -> (h: WireMessageHeader)
        ensures
            h.msg_flags % 256 == self.msg_num(),
    {
        proof {
            use_type_invariant(self);
        }
        WireMessageHeader { msg_flags: self.kind as u64, inner: Vec::new() }
    }
}

/// The first message form: flags alone. Every message can be read as this one first,
/// to learn from its flags which form the rest takes.
pub struct WireMessageZero {
    pub flags: u64,
}

/// Sent by clients to servers to ask for SQL queries, inserts and updates.
pub struct WireMessageOne {
    pub flags: u64,
    /// Server name.
    pub sn: String,
    /// Database name.
    pub db: String,
    /// The SQL payload.
    pub sql: String,
}

/// A count of rows.
pub struct WireMessageTwo {
    pub flags: u64,
    pub num_rows: u64,
}

/// A list of column names.
pub struct WireMessageThree {
    pub flags: u64,
    pub columns: Vec<String>,
}

/// The message number left undecoded is 0: the one in the low byte of the decoded
/// header's flags.
pub proof fn law_unimplemented_message_is_number_zero(bytes: Seq<u8>)
    ensures
        names_unimplemented_message(bytes) <==> match bare_header_decoding(bytes) {
            Some((flags, _)) => flags % 256 == 0,
            None => false,
        },
        forall|flags: u64| #![trigger flags % 256] (flags % 256 == 0) <==> (flags & 0xff == 0),
{
    assert forall|flags: u64| #![trigger flags % 256] (flags % 256 == 0) <==> (flags & 0xff == 0) by {
        assert(flags & 0xff == flags % 256) by (bit_vector);
    }
}

} // verus!
