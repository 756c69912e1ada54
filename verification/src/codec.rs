//! The request sent to the time server and the decoding of its reply.
//!
//! Both directions go through the `ntp_nostd` crate. The reply is reduced to
//! the one field the clock needs, the seconds of the transmit timestamp, and
//! to the same instant counted from the Unix epoch.

use vstd::prelude::*;

verus! {

/// Length in bytes of a time-protocol packet without extension fields.
pub const PACKET_LEN: usize = 48;

/// Index of the first byte of the transmit timestamp's seconds.
pub const TRANSMIT_SECONDS_AT: usize = 40;

/// Seconds from the protocol epoch (1900-01-01) to the Unix epoch (1970-01-01).
pub const UNIX_EPOCH_OFFSET: u32 = 2_208_988_800;

/// First byte of a client request: no leap warning, version 4, client mode.
pub const CLIENT_FLAGS: u8 = 0x23;

/// The bytes of a client request: the flags byte followed by zeros.
pub open spec fn client_request_bytes() -> Seq<u8> {
    Seq::new(
        PACKET_LEN as nat,
        |i: int|
            if i == 0 {
                CLIENT_FLAGS
            } else {
                0u8
            },
    )
}

/// The unsigned 32-bit number stored most significant byte first in the four
/// bytes of `bytes` that start at `at`.
pub open spec fn be_u32_at(bytes: Seq<u8>, at: int) -> int {
    bytes[at] as int * 0x100_0000 + bytes[at + 1] as int * 0x1_0000 + bytes[at + 2] as int * 0x100
        + bytes[at + 3] as int
}

/// Seconds since the Unix epoch of a transmit timestamp, where the timestamp
/// is not earlier than that epoch.
pub open spec fn unix_seconds_of(transmit_seconds: int) -> Option<u32> {
    if transmit_seconds >= UNIX_EPOCH_OFFSET {
        Some((transmit_seconds - UNIX_EPOCH_OFFSET) as u32)
    } else {
        None
    }
}

/// What a datagram decodes to: nothing where it is shorter than a packet,
/// else the transmit timestamp read from its place in the header.
pub open spec fn decoded_reply(bytes: Seq<u8>) -> Option<TimeServerReply> {
    if bytes.len() < PACKET_LEN {
        None
    } else {
        Some(
            TimeServerReply {
                transmit_seconds: be_u32_at(bytes, TRANSMIT_SECONDS_AT as int) as u32,
                unix_seconds: unix_seconds_of(be_u32_at(bytes, TRANSMIT_SECONDS_AT as int)),
            },
        )
    }
}

/// The payload of a request to the time server. It is built once and only
/// read afterwards.
#[derive(Clone, Copy, Debug)]
pub struct TimeServerRequest {
    payload: [u8; 48],
}

impl View for TimeServerRequest {
    type V = Seq<u8>;

    closed spec fn view(&self) -> Seq<u8> {
        self.payload@
    }
}

impl TimeServerRequest {
    /// Builds the client request.
    pub fn new() -> (request: TimeServerRequest)
        ensures
            request@ == client_request_bytes(),
    {
        TimeServerRequest { payload: client_request_payload() }
    }

    /// The bytes to hand to the datagram channel.
    pub fn as_bytes(&self) -> (bytes: &[u8; 48])
        ensures
            bytes@ == self@,
    {
        &self.payload
    }
}

/// What the clock reads from a reply of the time server.
#[derive(Clone, Copy, Debug, PartialEq, Eq)]
pub struct TimeServerReply {
    /// Seconds of the transmit timestamp, counted from the protocol epoch.
    /// Zero says that the reply carries no usable timestamp.
    pub transmit_seconds: u32,
    /// The same instant in seconds since the Unix epoch; `None` where the
    /// timestamp lies before that epoch.
    pub unix_seconds: Option<u32>,
}

impl TimeServerReply {
    /// Whether the two fields belong together, as they do in every reply that
    /// `decode_reply` hands out.
    pub open spec fn wf(self) -> bool {
        self.unix_seconds == unix_seconds_of(self.transmit_seconds as int)
    }

    /// The wall-clock seconds that may be captured from this reply: none
    /// where the validity field is zero.
    pub open spec fn usable_seconds(self) -> Option<u32> {
        if self.transmit_seconds == 0 {
            None
        } else {
            self.unix_seconds
        }
    }

    /// Whether the validity field, the seconds of the transmit timestamp, is
    /// not zero.
    pub fn is_valid(&self) -> (valid: bool)
        ensures
            valid == (self.transmit_seconds != 0),
    {
        self.transmit_seconds != 0
    }
}

/// Decodes a datagram received from the time server.
pub fn decode_reply(datagram: &[u8]) -> (reply: Option<TimeServerReply>)
    ensures
        reply == decoded_reply(datagram@),
        reply matches Some(r) ==> r.wf(),
{
    if datagram.len() < PACKET_LEN {
        return None;
    }
    let transmit_seconds: u32 = reply_transmit_seconds(datagram);
    let unix_seconds: Option<u32> = if transmit_seconds >= UNIX_EPOCH_OFFSET {
        Some(reply_unix_seconds(datagram))
    } else {
        None
    };
    Some(TimeServerReply { transmit_seconds, unix_seconds })
}

/// `ntp_nostd::get_client_request`. The crate fills a buffer of 48 zero bytes
/// and sets the first to `0b00100011`; the contract states these bytes.
#[verifier::external_body]
fn client_request_payload() -> (payload: [u8; 48])
    ensures
        payload@ == client_request_bytes(),
{
    ntp_nostd::get_client_request()
}

/// `ntp_nostd::NtpServerResponse::from` on a byte slice, and the field
/// `tx_time_seconds` of the headers it returns. The crate reads the header
/// byte by byte and unwraps each read, so a slice shorter than 48 bytes is
/// left out. It joins bytes 40 to 43, the first shifted the furthest, into
/// that field; the contract states this number.
#[verifier::external_body]
fn reply_transmit_seconds(datagram: &[u8]) -> (seconds: u32)
    requires
        datagram@.len() >= PACKET_LEN,
    ensures
        seconds == be_u32_at(datagram@, TRANSMIT_SECONDS_AT as int),
{
    ntp_nostd::NtpServerResponse::from(datagram).headers.tx_time_seconds
}

/// `ntp_nostd::PacketHeaders::get_unix_timestamp` on the headers that
/// `NtpServerResponse::from` reads from the slice (a value of that type cannot
/// be made in another way). The crate subtracts 2 208 988 800 from
/// `tx_time_seconds` as `u32`; a timestamp below that number is left out.
#[verifier::external_body]
fn reply_unix_seconds(datagram: &[u8]) -> (seconds: u32)
    requires
        datagram@.len() >= PACKET_LEN,
        be_u32_at(datagram@, TRANSMIT_SECONDS_AT as int) >= UNIX_EPOCH_OFFSET,
    ensures
        seconds == be_u32_at(datagram@, TRANSMIT_SECONDS_AT as int) - UNIX_EPOCH_OFFSET,
{
    ntp_nostd::NtpServerResponse::from(datagram).headers.get_unix_timestamp()
}

} // verus!
