use ld19codec::codec::{Ld19Codec, Ld19Frame, SYNC_BYTE};
use ld19codec::crc::crc8;
use ld19codec::packet::{Ld19Packet, PKG_SIZE};
use tokio_util::bytes::BytesMut;

const VALID: [u8; 47] = [
    0x54, 0x2c, 0x68, 0x08, 0xab, 0x7e, 0xe0, 0x00, 0xe4, 0xdc, 0x00, 0xe2, 0xd9, 0x00, 0xe5, 0xd5,
    0x00, 0xe3, 0xd3, 0x00, 0xe4, 0xd0, 0x00, 0xe9, 0xcd, 0x00, 0xe4, 0xca, 0x00, 0xe2, 0xc7, 0x00,
    0xe9, 0xc5, 0x00, 0xe5, 0xc2, 0x00, 0xe5, 0xc0, 0x00, 0xe5, 0xbe, 0x82, 0x3a, 0x1a, 0x50,
];

/// A valid packet without any sync byte after its header.
fn build_packet(start_angle: u16, end_angle: u16, timestamp: u16) -> Vec<u8> {
    let mut bytes = vec![0x54, 0x2c];
    bytes.extend_from_slice(&3600u16.to_le_bytes());
    bytes.extend_from_slice(&start_angle.to_le_bytes());
    for i in 0..12u16 {
        bytes.extend_from_slice(&(1000 + i).to_le_bytes());
        bytes.push(200 + i as u8);
    }
    bytes.extend_from_slice(&end_angle.to_le_bytes());
    bytes.extend_from_slice(&timestamp.to_le_bytes());
    let crc = crc8(&bytes);
    bytes.push(crc);
    assert_eq!(bytes.len(), 47);
    bytes
}

fn decode_once(buffer: &mut BytesMut) -> Ld19Frame {
    let mut codec = Ld19Codec {};
    codec.decode(buffer)
}

#[test]
fn sizes_and_sync_byte() {
    assert_eq!(PKG_SIZE, 47);
    assert_eq!(SYNC_BYTE, 0x54);
}

#[test]
fn find_sync_returns_the_first_position() {
    assert_eq!(Ld19Codec::find_sync(&[]), None);
    assert_eq!(Ld19Codec::find_sync(&[0x00, 0x53, 0x55]), None);
    assert_eq!(Ld19Codec::find_sync(&[0x54]), Some(0));
    assert_eq!(Ld19Codec::find_sync(&[0x00, 0x54, 0x54, 0x00, 0x54]), Some(1));
    assert_eq!(Ld19Codec::find_sync(&[0xff, 0xff, 0xff, 0x54]), Some(3));
}

#[test]
fn decode_without_sync_byte_discards_the_whole_buffer() {
    for n in [1usize, 2, 46, 47, 48, 100, 1000] {
        let bytes: Vec<u8> = (0..n).map(|i| if i % 256 == 0x54 { 0x55 } else { (i % 256) as u8 }).collect();
        assert!(!bytes.contains(&0x54));
        let mut buffer = BytesMut::from(&bytes[..]);
        assert_eq!(decode_once(&mut buffer), Ld19Frame::NeedMoreData);
        assert!(buffer.is_empty());
    }
}

#[test]
fn decode_of_empty_buffer_needs_more_data() {
    let mut buffer = BytesMut::new();
    assert_eq!(decode_once(&mut buffer), Ld19Frame::NeedMoreData);
    assert!(buffer.is_empty());
}

#[test]
fn decode_with_short_tail_keeps_the_buffer() {
    for garbage in [0usize, 1, 5, 60] {
        for tail in [1usize, 2, 46, 47] {
            let mut bytes = vec![0xaa; garbage];
            bytes.extend_from_slice(&VALID[..tail]);
            let mut buffer = BytesMut::from(&bytes[..]);
            assert_eq!(decode_once(&mut buffer), Ld19Frame::NeedMoreData);
            assert_eq!(&buffer[..], &bytes[..]);
        }
    }
}

#[test]
fn decode_waits_for_a_byte_after_the_packet() {
    let mut buffer = BytesMut::from(&VALID[..]);
    assert_eq!(decode_once(&mut buffer), Ld19Frame::NeedMoreData);
    assert_eq!(&buffer[..], &VALID[..]);
    buffer.extend_from_slice(&[0x00]);
    assert_eq!(decode_once(&mut buffer), Ld19Frame::Packet(Ld19Packet::from_bytes(&VALID)));
    assert_eq!(&buffer[..], &[0x00]);
}

#[test]
fn decode_returns_the_fields_parsed_from_the_bytes() {
    let mut bytes = VALID.to_vec();
    bytes.push(0x00);
    let mut buffer = BytesMut::from(&bytes[..]);
    match decode_once(&mut buffer) {
        Ld19Frame::Packet(packet) => {
            assert_eq!(packet.header, 0x54);
            assert_eq!(packet.ver_len, 0x2c);
            assert_eq!(packet.speed, u16::from_le_bytes([VALID[2], VALID[3]]));
            assert_eq!(packet.start_angle, u16::from_le_bytes([VALID[4], VALID[5]]));
            for i in 0..12 {
                let at = 6 + 3 * i;
                assert_eq!(packet.point[i].distance, u16::from_le_bytes([VALID[at], VALID[at + 1]]));
                assert_eq!(packet.point[i].intensity, VALID[at + 2]);
            }
            assert_eq!(packet.end_angle, u16::from_le_bytes([VALID[42], VALID[43]]));
            assert_eq!(packet.timestamp, u16::from_le_bytes([VALID[44], VALID[45]]));
            assert_eq!(packet.crc8, VALID[46]);
            assert_eq!(packet.start_angle, 32427);
            assert_eq!(packet.point[0].distance, 224);
        }
        other => panic!("expected a packet, got {:?}", other),
    }
    assert_eq!(&buffer[..], &[0x00]);
}

#[test]
fn decode_round_trips_built_packets() {
    for (start, end, time) in [(0u16, 0u16, 0u16), (1000, 2100, 42), (35900, 100, 65535), (17, 35999, 9)] {
        let mut bytes = build_packet(start, end, time);
        bytes.push(0xff);
        let mut buffer = BytesMut::from(&bytes[..]);
        match decode_once(&mut buffer) {
            Ld19Frame::Packet(packet) => {
                assert_eq!(packet.start_angle, start);
                assert_eq!(packet.end_angle, end);
                assert_eq!(packet.timestamp, time);
                assert_eq!(packet.speed, 3600);
                for i in 0..12 {
                    assert_eq!(packet.point[i].distance, 1000 + i as u16);
                    assert_eq!(packet.point[i].intensity, 200 + i as u8);
                }
                assert_eq!(packet.crc8, bytes[46]);
            }
            other => panic!("expected a packet, got {:?}", other),
        }
        assert_eq!(&buffer[..], &[0xff]);
    }
}

#[test]
fn decode_reports_corrupted_checksum_and_drops_one_byte() {
    for flip in [0x01u8, 0x80, 0xff] {
        let mut bytes = VALID.to_vec();
        bytes[46] ^= flip;
        bytes.push(0x00);
        let mut buffer = BytesMut::from(&bytes[..]);
        assert_eq!(decode_once(&mut buffer), Ld19Frame::CrcError);
        assert_eq!(&buffer[..], &bytes[1..]);
        // The rest holds no sync byte: the next step discards it.
        assert_eq!(decode_once(&mut buffer), Ld19Frame::NeedMoreData);
        assert!(buffer.is_empty());
    }
}

#[test]
fn decode_reports_corrupted_payload() {
    let mut bytes = VALID.to_vec();
    bytes[10] ^= 0x04;
    bytes.push(0x00);
    let mut buffer = BytesMut::from(&bytes[..]);
    assert_eq!(decode_once(&mut buffer), Ld19Frame::CrcError);
    assert_eq!(&buffer[..], &bytes[1..]);
}

#[test]
fn decode_resumes_after_a_checksum_error() {
    let mut corrupt = VALID.to_vec();
    corrupt[46] ^= 0x10;
    let good = build_packet(100, 1200, 7);
    let mut bytes = corrupt.clone();
    bytes.extend_from_slice(&good);
    bytes.push(0x00);
    let mut buffer = BytesMut::from(&bytes[..]);
    assert_eq!(decode_once(&mut buffer), Ld19Frame::CrcError);
    assert_eq!(buffer.len(), bytes.len() - 1);
    assert_eq!(&buffer[..], &bytes[1..]);
    assert_eq!(decode_once(&mut buffer), Ld19Frame::Packet(Ld19Packet::from_bytes(&good)));
    assert_eq!(&buffer[..], &[0x00]);
}

#[test]
fn decode_skips_a_false_sync_byte_by_one() {
    // A lone sync byte followed by a valid packet: the candidate that starts
    // at the lone byte fails, and the true packet is found on the next step.
    let good = build_packet(500, 1600, 3);
    let mut bytes = vec![0x54];
    bytes.extend_from_slice(&good);
    bytes.push(0x00);
    bytes.push(0x00);
    let mut buffer = BytesMut::from(&bytes[..]);
    assert_eq!(decode_once(&mut buffer), Ld19Frame::CrcError);
    assert_eq!(&buffer[..], &bytes[1..]);
    assert_eq!(decode_once(&mut buffer), Ld19Frame::Packet(Ld19Packet::from_bytes(&good)));
    assert_eq!(&buffer[..], &[0x00, 0x00]);
}

#[test]
fn decode_consumes_garbage_before_a_packet() {
    let mut bytes = vec![0xff, 0xff];
    bytes.extend_from_slice(&VALID);
    bytes.push(0x00);
    let mut buffer = BytesMut::from(&bytes[..]);
    let mut crc_errors = 0;
    let mut packets = Vec::new();
    loop {
        match decode_once(&mut buffer) {
            Ld19Frame::Packet(packet) => packets.push(packet),
            Ld19Frame::CrcError => crc_errors += 1,
            Ld19Frame::NeedMoreData => break,
        }
    }
    assert_eq!(packets, vec![Ld19Packet::from_bytes(&VALID)]);
    assert_eq!(crc_errors, 0);
    assert!(buffer.is_empty());
}

#[test]
fn decode_garbage_then_packet_without_a_following_byte_waits() {
    let mut bytes = vec![0xff, 0xff];
    bytes.extend_from_slice(&VALID);
    let mut buffer = BytesMut::from(&bytes[..]);
    assert_eq!(decode_once(&mut buffer), Ld19Frame::NeedMoreData);
    assert_eq!(&buffer[..], &bytes[..]);
    // The next read brings the start of the following packet.
    buffer.extend_from_slice(&[0x54]);
    assert_eq!(decode_once(&mut buffer), Ld19Frame::Packet(Ld19Packet::from_bytes(&VALID)));
    assert_eq!(&buffer[..], &[0x54]);
}

#[test]
fn decode_two_back_to_back_packets_in_stream_order() {
    let first = build_packet(1000, 2100, 1);
    let second = build_packet(2200, 3300, 2);
    let mut bytes = first.clone();
    bytes.extend_from_slice(&second);
    bytes.push(0x00);
    let mut buffer = BytesMut::from(&bytes[..]);
    assert_eq!(decode_once(&mut buffer), Ld19Frame::Packet(Ld19Packet::from_bytes(&first)));
    assert_eq!(buffer.len(), 48);
    assert_eq!(decode_once(&mut buffer), Ld19Frame::Packet(Ld19Packet::from_bytes(&second)));
    assert_eq!(&buffer[..], &[0x00]);
    assert_eq!(decode_once(&mut buffer), Ld19Frame::NeedMoreData);
    assert!(buffer.is_empty());
}

#[test]
fn decode_two_packets_without_a_following_byte_holds_the_second() {
    let first = build_packet(1000, 2100, 1);
    let second = build_packet(2200, 3300, 2);
    let mut bytes = first.clone();
    bytes.extend_from_slice(&second);
    let mut buffer = BytesMut::from(&bytes[..]);
    assert_eq!(decode_once(&mut buffer), Ld19Frame::Packet(Ld19Packet::from_bytes(&first)));
    assert_eq!(decode_once(&mut buffer), Ld19Frame::NeedMoreData);
    assert_eq!(&buffer[..], &second[..]);
}

#[test]
fn decode_yields_every_packet_of_a_chunked_stream() {
    let mut stream = vec![0x01, 0x02, 0x03];
    let mut expected = Vec::new();
    for n in 0..20u16 {
        let bytes = build_packet(n * 1100, n * 1100 + 1100, n);
        expected.push(Ld19Packet::from_bytes(&bytes));
        stream.extend_from_slice(&bytes);
    }
    stream.push(0x00);
    let mut codec = Ld19Codec {};
    let mut buffer = BytesMut::new();
    let mut got = Vec::new();
    let mut crc_errors = 0;
    for chunk in stream.chunks(13) {
        buffer.extend_from_slice(chunk);
        loop {
            match codec.decode(&mut buffer) {
                Ld19Frame::Packet(packet) => got.push(packet),
                Ld19Frame::CrcError => crc_errors += 1,
                Ld19Frame::NeedMoreData => break,
            }
        }
    }
    assert_eq!(got, expected);
    assert_eq!(crc_errors, 0);
}

#[test]
fn scan_reports_the_frame_and_the_consumed_prefix() {
    assert_eq!(Ld19Codec::scan(&[]), (Ld19Frame::NeedMoreData, 0));
    assert_eq!(Ld19Codec::scan(&[1, 2, 3]), (Ld19Frame::NeedMoreData, 3));
    assert_eq!(Ld19Codec::scan(&[1, 2, 0x54, 9]), (Ld19Frame::NeedMoreData, 0));

    let mut bytes = vec![0xff, 0xff, 0xff];
    bytes.extend_from_slice(&VALID);
    bytes.push(0x00);
    assert_eq!(Ld19Codec::scan(&bytes), (Ld19Frame::Packet(Ld19Packet::from_bytes(&VALID)), 50));

    bytes[3 + 46] ^= 0xff;
    assert_eq!(Ld19Codec::scan(&bytes), (Ld19Frame::CrcError, 4));
}

#[test]
fn scan_decodes_the_candidate_and_not_the_garbage_before_it() {
    let good = build_packet(4321, 5432, 77);
    let mut bytes = vec![0x11; 9];
    bytes.extend_from_slice(&good);
    bytes.push(0x00);
    match Ld19Codec::scan(&bytes) {
        (Ld19Frame::Packet(packet), consumed) => {
            assert_eq!(consumed, 9 + 47);
            assert_eq!(packet.header, 0x54);
            assert_eq!(packet.start_angle, 4321);
            assert_eq!(packet.end_angle, 5432);
            assert_eq!(packet.timestamp, 77);
        }
        other => panic!("expected a packet, got {:?}", other),
    }
}

#[test]
fn decode_agrees_with_scan() {
    let good = build_packet(10, 1110, 5);
    let mut corrupt = good.clone();
    corrupt[20] ^= 0x01;
    let mut streams: Vec<Vec<u8>> = vec![vec![], vec![0x00; 10], good.clone(), corrupt.clone()];
    let mut joined = vec![0x07, 0x54, 0x08];
    joined.extend_from_slice(&corrupt);
    joined.extend_from_slice(&good);
    joined.extend_from_slice(&[0x54, 0x00]);
    streams.push(joined);
    for stream in streams {
        let mut buffer = BytesMut::from(&stream[..]);
        let mut rest = stream.clone();
        for _ in 0..200 {
            let (frame, consumed) = Ld19Codec::scan(&rest);
            assert_eq!(decode_once(&mut buffer), frame);
            rest.drain(..consumed);
            assert_eq!(&buffer[..], &rest[..]);
        }
    }
}

#[test]
fn decode_catches_any_single_corrupt_byte() {
    for at in 1..47 {
        for flip in [0x01u8, 0x10, 0x80, 0xff, 0x54 ^ VALID[at]] {
            if flip == 0 {
                continue;
            }
            let mut bytes = VALID.to_vec();
            bytes[at] ^= flip;
            bytes.push(0x00);
            let mut buffer = BytesMut::from(&bytes[..]);
            assert_eq!(decode_once(&mut buffer), Ld19Frame::CrcError);
            assert_eq!(&buffer[..], &bytes[1..]);
        }
    }
}

/// The decoding step written out on a plain vector.
fn step_on_vec(buffer: &mut Vec<u8>) -> Ld19Frame {
    match buffer.iter().position(|b| *b == 0x54) {
        None => {
            buffer.clear();
            Ld19Frame::NeedMoreData
        }
        Some(p) => {
            if buffer.len() - p > 47 {
                let candidate: Vec<u8> = buffer[p..p + 47].to_vec();
                if crc8(&candidate[..46]) == candidate[46] {
                    buffer.drain(..p + 47);
                    Ld19Frame::Packet(Ld19Packet::from_bytes(&candidate))
                } else {
                    buffer.drain(..p + 1);
                    Ld19Frame::CrcError
                }
            } else {
                Ld19Frame::NeedMoreData
            }
        }
    }
}

#[test]
fn decode_follows_the_step_on_noisy_streams() {
    let mut seed: u32 = 0x1d19_c0de;
    let mut next = move || {
        seed = seed.wrapping_mul(1_664_525).wrapping_add(1_013_904_223);
        (seed >> 16) as u16
    };
    for _ in 0..40 {
        let mut stream = Vec::new();
        for _ in 0..12 {
            match next() % 4 {
                0 => {
                    for _ in 0..(next() % 70) {
                        stream.push((next() % 256) as u8);
                    }
                }
                1 => {
                    for _ in 0..(next() % 5) {
                        stream.push(0x54);
                    }
                }
                2 => {
                    let mut packet = build_packet(next() % 36000, next() % 36000, next());
                    let at = 1 + (next() % 46) as usize;
                    packet[at] ^= 1 + (next() % 255) as u8;
                    stream.extend_from_slice(&packet);
                }
                _ => stream.extend_from_slice(&build_packet(next() % 36000, next() % 36000, next())),
            }
        }
        let mut codec = Ld19Codec {};
        let mut buffer = BytesMut::new();
        let mut model: Vec<u8> = Vec::new();
        let chunk = 1 + (next() % 90) as usize;
        for part in stream.chunks(chunk) {
            buffer.extend_from_slice(part);
            model.extend_from_slice(part);
            loop {
                let expected = step_on_vec(&mut model);
                let frame = codec.decode(&mut buffer);
                assert_eq!(frame, expected);
                assert_eq!(&buffer[..], &model[..]);
                if frame == Ld19Frame::NeedMoreData {
                    break;
                }
            }
        }
    }
}
