use bi5::number::parse_u32;
use bi5::tick::{decode_tick, decode_ticks};
use bi5::{
    check_record_layout, decode_payload, read_bi5_file, Bi5Error, Forwarded, Opened, PathKind,
    Tick, TICK_WIDTH,
};

fn record(millisecs: u32, ask: u32, bid: u32, asksize: f32, bidsize: f32) -> Vec<u8> {
    let mut out: Vec<u8> = Vec::new();
    out.extend_from_slice(&millisecs.to_be_bytes());
    out.extend_from_slice(&ask.to_be_bytes());
    out.extend_from_slice(&bid.to_be_bytes());
    out.extend_from_slice(&asksize.to_bits().to_be_bytes());
    out.extend_from_slice(&bidsize.to_bits().to_be_bytes());
    out
}

fn compress(payload: &[u8]) -> Vec<u8> {
    let mut input: &[u8] = payload;
    let mut out: Vec<u8> = Vec::new();
    lzma_rs::lzma_compress(&mut input, &mut out).expect("compression failed");
    out
}

fn fixture() -> Vec<u8> {
    let count: u32 = 10412;
    let mut payload: Vec<u8> = Vec::new();
    payload.extend(record(1860002, 133153, 133117, 0.015, 0.02));
    for i in 1..count - 1 {
        payload.extend(record(1860002 + i * 167, 133000 + (i % 97), 132990 + (i % 89), 1.5, 2.25));
    }
    payload.extend(record(3599899, 131453, 131427, 0.015, 0.02));
    compress(&payload)
}

#[test]
fn test_read_bi5() {
    let opened = Opened::Contents(Some(fixture()));
    match read_bi5_file("test/test.bi5", PathKind::File, None, &opened, &Vec::new()) {
        Err(_) => assert!(false),
        Ok(ticks) => {
            assert_eq!(ticks.len(), 10412);
            assert_eq!(
                ticks.first(),
                Some(&Tick {
                    millisecs: 1860002,
                    bid: 133117,
                    ask: 133153,
                    bidsize_bits: 0.02f32.to_bits(),
                    asksize_bits: 0.015f32.to_bits(),
                })
            );
            assert_eq!(
                ticks.last(),
                Some(&Tick {
                    millisecs: 3599899,
                    bid: 131427,
                    ask: 131453,
                    bidsize_bits: 0.02f32.to_bits(),
                    asksize_bits: 0.015f32.to_bits(),
                })
            );
            let first = ticks[0];
            assert_eq!(f32::from_bits(first.bidsize_bits), 0.02);
            assert_eq!(f32::from_bits(first.asksize_bits), 0.015);
        }
    }
}

#[test]
fn record_width_is_twenty() {
    assert_eq!(TICK_WIDTH, 20);
}

#[test]
fn decode_one_record() {
    let buf: Vec<u8> = vec![
        0x00, 0x1c, 0x61, 0xa2, 0x00, 0x02, 0x08, 0x21, 0x00, 0x02, 0x07, 0xfd, 0x3c, 0x75, 0xc2,
        0x8f, 0x3c, 0xa3, 0xd7, 0x0a,
    ];
    let tick = decode_tick(&buf, 0).expect("a whole record");
    assert_eq!(tick.millisecs, 1860002);
    assert_eq!(tick.ask, 133153);
    assert_eq!(tick.bid, 133117);
    assert_eq!(f32::from_bits(tick.asksize_bits), 0.015);
    assert_eq!(f32::from_bits(tick.bidsize_bits), 0.02);
    let high: Vec<u8> = vec![0xff; 20];
    assert_eq!(decode_tick(&high, 0).map(|t| t.millisecs), Some(u32::MAX));
    let mut mixed: Vec<u8> = vec![0; 24];
    mixed[4..8].copy_from_slice(&[0x12, 0x34, 0x56, 0x78]);
    assert_eq!(decode_tick(&mixed, 4).map(|t| t.millisecs), Some(0x12345678));
    assert_eq!(decode_tick(&mixed, 0).map(|t| t.ask), Some(0x12345678));
}

#[test]
fn decode_short_tail_is_end_of_data() {
    let buf: Vec<u8> = record(1, 2, 3, 4.0, 5.0);
    assert!(decode_tick(&buf, 0).is_some());
    assert_eq!(decode_tick(&buf, 1), None);
    assert_eq!(decode_tick(&buf, 20), None);
    assert_eq!(decode_tick(&buf, 21), None);
    assert_eq!(decode_tick(&Vec::new(), 0), None);
    assert_eq!(decode_tick(&buf[..19].to_vec(), 0), None);
}

#[test]
fn decode_records_in_sequence() {
    let mut buf: Vec<u8> = Vec::new();
    for i in 0..5u32 {
        buf.extend(record(i, 10 + i, 20 + i, 0.5, 0.25));
    }
    let ticks = decode_ticks(&buf);
    assert_eq!(ticks.len(), 5);
    for i in 0..5u32 {
        assert_eq!(
            ticks[i as usize],
            Tick {
                millisecs: i,
                ask: 10 + i,
                bid: 20 + i,
                asksize_bits: 0.5f32.to_bits(),
                bidsize_bits: 0.25f32.to_bits(),
            }
        );
        assert_eq!(decode_tick(&buf, 20 * i as usize), Some(ticks[i as usize]));
    }
    assert_eq!(decode_ticks(&Vec::new()), Vec::new());
}

#[test]
fn payload_of_whole_records_is_kept() {
    assert_eq!(check_record_layout(Vec::new()), Ok(Vec::new()));
    let forty: Vec<u8> = (0..40u8).collect();
    assert_eq!(check_record_layout(forty.clone()), Ok(forty));
}

#[test]
fn ragged_payload_is_a_format_error() {
    assert_eq!(check_record_layout(vec![0u8; 21]), Err(Bi5Error::Format { len: 21, width: 20 }));
    assert_eq!(check_record_layout(vec![0u8; 19]), Err(Bi5Error::Format { len: 19, width: 20 }));
    assert_eq!(check_record_layout(vec![0u8; 1]), Err(Bi5Error::Format { len: 1, width: 20 }));
}

#[test]
fn decompression_restores_the_payload() {
    let mut payload: Vec<u8> = Vec::new();
    for i in 0..100u32 {
        payload.extend(record(i * 3, i, i + 1, 0.75, 1.25));
    }
    let compressed = compress(&payload);
    assert_ne!(compressed, payload);
    assert_eq!(decode_payload(&compressed), Ok(payload));
}

#[test]
fn empty_file_is_an_empty_payload() {
    assert_eq!(decode_payload(&Vec::new()), Ok(Vec::new()));
    let opened = Opened::Contents(Some(Vec::new()));
    assert_eq!(read_bi5_file("empty.bi5", PathKind::File, None, &opened, &Vec::new()), Ok(Vec::new()));
}

#[test]
fn ragged_file_is_refused() {
    let compressed = compress(&vec![7u8; 41]);
    assert_eq!(decode_payload(&compressed), Err(Bi5Error::Format { len: 41, width: 20 }));
    let opened = Opened::Contents(Some(compressed));
    assert_eq!(
        read_bi5_file("ragged.bi5", PathKind::File, None, &opened, &Vec::new()),
        Err(Bi5Error::Format { len: 41, width: 20 })
    );
}

#[test]
fn malformed_stream_is_a_decompression_error() {
    assert_eq!(decode_payload(&vec![0xff; 16]), Err(Bi5Error::Decompress));
    assert_eq!(decode_payload(&vec![0x5d]), Err(Bi5Error::Decompress));
    let mut truncated = compress(&record(1, 2, 3, 4.0, 5.0));
    truncated.truncate(15);
    assert_eq!(decode_payload(&truncated), Err(Bi5Error::Decompress));
}

#[test]
fn unreadable_file_is_an_io_error() {
    let opened = Opened::Contents(None);
    assert_eq!(
        read_bi5_file("missing.bi5", PathKind::File, None, &opened, &Vec::new()),
        Err(Bi5Error::Io)
    );
}

#[test]
fn neither_file_nor_directory() {
    let opened = Opened::Contents(Some(Vec::new()));
    assert_eq!(
        read_bi5_file("socket", PathKind::Other, None, &opened, &Vec::new()),
        Err(Bi5Error::NotFileOrDir)
    );
    let walk = Opened::Walk(Forwarded::Finished);
    assert_eq!(
        read_bi5_file("socket", PathKind::Other, None, &walk, &Vec::new()),
        Err(Bi5Error::NotFileOrDir)
    );
}

#[test]
fn decimal_numbers() {
    assert_eq!(parse_u32("0"), Some(0));
    assert_eq!(parse_u32("07"), Some(7));
    assert_eq!(parse_u32("2020"), Some(2020));
    assert_eq!(parse_u32("+5"), Some(5));
    assert_eq!(parse_u32("4294967295"), Some(u32::MAX));
    assert_eq!(parse_u32("4294967296"), None);
    assert_eq!(parse_u32("99999999999999999999"), None);
    assert_eq!(parse_u32("00000000000000000001"), Some(1));
    assert_eq!(parse_u32(""), None);
    assert_eq!(parse_u32("+"), None);
    assert_eq!(parse_u32("-1"), None);
    assert_eq!(parse_u32("++1"), None);
    assert_eq!(parse_u32("12a"), None);
    assert_eq!(parse_u32(" 1"), None);
    assert_eq!(parse_u32("1 "), None);
    assert_eq!(parse_u32("\u{0661}"), None);
}

#[test]
fn decimal_numbers_agree_with_std() {
    let texts = [
        "0", "1", "9", "10", "23", "24", "007", "+0", "+12", "-0", "+", "", "4294967295",
        "4294967296", "4294967300", "42949672950", "1e3", "0x10", "12 ", "é1", "١٢", "1_000",
    ];
    for text in texts {
        assert_eq!(parse_u32(text), text.parse::<u32>().ok(), "{}", text);
    }
}
