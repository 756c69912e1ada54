use ntp_clock::codec::{
    decode_reply, TimeServerReply, TimeServerRequest, CLIENT_FLAGS, PACKET_LEN, TRANSMIT_SECONDS_AT,
    UNIX_EPOCH_OFFSET,
};

const SECONDARY_SERVER_REPLY: [u8; 48] = [
    36, 3, 0, 232, 0, 0, 5, 139, 0, 0, 0, 39, 10, 72, 8, 222, 232, 139, 229, 188, 150, 26, 5, 122, 0, 0,
    0, 0, 0, 0, 0, 0, 232, 139, 229, 209, 125, 186, 194, 223, 232, 139, 229, 209, 125, 239, 153, 206,
];

const LATER_REPLY: [u8; 48] = [
    36, 2, 0, 237, 0, 0, 0, 13, 0, 0, 0, 2, 10, 1, 105, 4, 232, 140, 230, 172, 44, 61, 185, 98, 0, 0, 0,
    0, 0, 0, 0, 0, 232, 140, 230, 180, 185, 134, 172, 167, 232, 140, 230, 180, 185, 136, 186, 218,
];

fn reply_with_transmit_seconds(seconds: u32) -> Vec<u8> {
    let mut datagram = vec![0xAAu8; PACKET_LEN];
    datagram[TRANSMIT_SECONDS_AT..TRANSMIT_SECONDS_AT + 4].copy_from_slice(&seconds.to_be_bytes());
    datagram
}

#[test]
fn request_is_a_client_packet() {
    let request = TimeServerRequest::new();
    let bytes = request.as_bytes();
    assert_eq!(bytes.len(), PACKET_LEN);
    assert_eq!(bytes[0], CLIENT_FLAGS);
    assert_eq!(bytes[0], 0b0010_0011);
    assert!(bytes[1..].iter().all(|b| *b == 0));
}

#[test]
fn request_is_the_same_each_time() {
    assert_eq!(TimeServerRequest::new().as_bytes(), TimeServerRequest::new().as_bytes());
}

#[test]
fn decode_reads_the_transmit_timestamp() {
    assert_eq!(
        decode_reply(&SECONDARY_SERVER_REPLY),
        Some(TimeServerReply { transmit_seconds: 3_901_482_449, unix_seconds: Some(1_692_493_649) })
    );
    assert_eq!(
        decode_reply(&LATER_REPLY),
        Some(TimeServerReply { transmit_seconds: 3_901_548_212, unix_seconds: Some(1_692_559_412) })
    );
}

#[test]
fn decode_reads_most_significant_byte_first() {
    let mut datagram = vec![0u8; PACKET_LEN];
    datagram[40] = 0x84;
    datagram[41] = 0x03;
    datagram[42] = 0x02;
    datagram[43] = 0x01;
    let reply = decode_reply(&datagram).unwrap();
    assert_eq!(reply.transmit_seconds, 0x8403_0201);
    assert_eq!(reply.unix_seconds, Some(0x8403_0201 - 2_208_988_800));
}

#[test]
fn decode_ignores_everything_but_the_transmit_seconds() {
    for seconds in [2_208_988_800u32, 3_000_000_000, u32::MAX] {
        let mut datagram = reply_with_transmit_seconds(seconds);
        let first = decode_reply(&datagram);
        for i in 0..PACKET_LEN {
            if i < TRANSMIT_SECONDS_AT || i >= TRANSMIT_SECONDS_AT + 4 {
                datagram[i] = 0x55;
            }
        }
        datagram.extend_from_slice(&[1, 2, 3, 4, 5, 6, 7, 8]);
        assert_eq!(decode_reply(&datagram), first);
        assert_eq!(first.unwrap().transmit_seconds, seconds);
    }
}

#[test]
fn decode_refuses_a_short_datagram() {
    assert_eq!(decode_reply(&[]), None);
    assert_eq!(decode_reply(&SECONDARY_SERVER_REPLY[..47]), None);
    assert_eq!(decode_reply(&SECONDARY_SERVER_REPLY[..44]), None);
    assert!(decode_reply(&SECONDARY_SERVER_REPLY[..48]).is_some());
}

#[test]
fn decode_accepts_a_receive_buffer_longer_than_the_packet() {
    let mut buffer = [0u8; 1536];
    buffer[..48].copy_from_slice(&SECONDARY_SERVER_REPLY);
    assert_eq!(
        decode_reply(&buffer),
        Some(TimeServerReply { transmit_seconds: 3_901_482_449, unix_seconds: Some(1_692_493_649) })
    );
}

#[test]
fn decode_of_an_untouched_buffer_has_no_timestamp() {
    let buffer = [0u8; 1536];
    let reply = decode_reply(&buffer).unwrap();
    assert_eq!(reply, TimeServerReply { transmit_seconds: 0, unix_seconds: None });
    assert!(!reply.is_valid());
}

#[test]
fn decode_converts_to_the_unix_epoch() {
    let at_epoch = decode_reply(&reply_with_transmit_seconds(UNIX_EPOCH_OFFSET)).unwrap();
    assert_eq!(at_epoch.unix_seconds, Some(0));
    let one_later = decode_reply(&reply_with_transmit_seconds(UNIX_EPOCH_OFFSET + 1)).unwrap();
    assert_eq!(one_later.unix_seconds, Some(1));
    let last = decode_reply(&reply_with_transmit_seconds(u32::MAX)).unwrap();
    assert_eq!(last.unix_seconds, Some(2_085_978_495));
}

#[test]
fn decode_has_no_unix_seconds_before_the_unix_epoch() {
    let before = decode_reply(&reply_with_transmit_seconds(UNIX_EPOCH_OFFSET - 1)).unwrap();
    assert_eq!(before, TimeServerReply { transmit_seconds: 2_208_988_799, unix_seconds: None });
    assert!(before.is_valid());
    let one = decode_reply(&reply_with_transmit_seconds(1)).unwrap();
    assert_eq!(one, TimeServerReply { transmit_seconds: 1, unix_seconds: None });
    assert!(one.is_valid());
}

#[test]
fn validity_is_a_transmit_timestamp_that_is_not_zero() {
    assert!(!TimeServerReply { transmit_seconds: 0, unix_seconds: None }.is_valid());
    assert!(!TimeServerReply { transmit_seconds: 0, unix_seconds: Some(7) }.is_valid());
    assert!(TimeServerReply { transmit_seconds: 1, unix_seconds: None }.is_valid());
    assert!(TimeServerReply { transmit_seconds: u32::MAX, unix_seconds: Some(2_085_978_495) }.is_valid());
}

#[test]
fn unix_epoch_offset_is_seventy_years() {
    let leap_days = 17u32;
    assert_eq!(UNIX_EPOCH_OFFSET, (70 * 365 + leap_days) * 86_400);
}
