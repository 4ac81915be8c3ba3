use dw3000_ng::hl::framing::{tx_buffer_for_send, tx_buffer_framed, tx_buffer_with, TX_DATA_LEN};
use dw3000_ng::ranging::{convert_u64_u8, convert_u8_u64, tof_ticks_double};

#[test]
fn raw_frame_fills_buffer_start() {
    let (w, len) = tx_buffer_with(&[1, 2, 3]);
    assert_eq!(len, 3);
    let b = w.as_bytes();
    assert_eq!(b.len(), 2 + TX_DATA_LEN);
    assert_eq!(&b[..5], &[0, 0, 1, 2, 3]);
    assert!(b[5..].iter().all(|x| *x == 0));
}

#[test]
fn raw_frame_of_full_length() {
    let data = [0xAAu8; TX_DATA_LEN];
    let (w, len) = tx_buffer_with(&data);
    assert_eq!(len, TX_DATA_LEN);
    assert_eq!(&w.as_bytes()[2..], &data[..]);
}

#[test]
fn data_frame_has_header_data_and_footer() {
    let (w, len) = tx_buffer_for_send(7, 0x1234, [0xAB, 0xCD], &[1, 2, 3]).unwrap();
    // header 9, data 3, footer 1, and the CRC counted as one more byte
    assert_eq!(len, 14);
    let b = w.as_bytes();
    assert_eq!(
        &b[2..15],
        &[0x41, 0x98, 7, 0, 0, 0xff, 0xff, 0xCD, 0xAB, 1, 2, 3, 0]
    );
    assert!(b[15..].iter().all(|x| *x == 0));
}

#[test]
fn data_frame_too_long_is_refused() {
    let fits = vec![5u8; TX_DATA_LEN - 10];
    assert!(tx_buffer_for_send(0, 0, [0, 1], &fits).is_some());
    let too_long = vec![5u8; TX_DATA_LEN - 9];
    assert!(tx_buffer_for_send(0, 0, [0, 1], &too_long).is_none());
}

#[test]
fn timestamp_bytes_most_significant_first() {
    let mut b = [0u8; 5];
    convert_u64_u8(0x01_0203_0405, &mut b);
    assert_eq!(b, [1, 2, 3, 4, 5]);
    assert_eq!(convert_u8_u64(&b), 0x01_0203_0405);
}

#[test]
fn timestamp_roundtrip_keeps_low_40_bits() {
    let mut b = [0u8; 5];
    convert_u64_u8(0xAB_CDEF_0123_4567, &mut b);
    assert_eq!(b, [0xEF, 0x01, 0x23, 0x45, 0x67]);
    assert_eq!(convert_u8_u64(&b), 0xEF_0123_4567);
    // only the first five bytes are read
    assert_eq!(convert_u8_u64(&[0, 0, 0, 1, 0, 0xff]), 0x100);
}

#[test]
fn double_sided_time_of_flight() {
    // round trips of 1000 and 1200, replies of 800 and 1000:
    // (1000 * 1200 - 800 * 1000) / (1000 + 800 + 1200 + 1000) = 100
    let tof = tof_ticks_double(0, 100, 900, 1000, 2000, 2100);
    assert_eq!(tof, 100);
    // symmetric exchange with a flight time of 50
    assert_eq!(tof_ticks_double(0, 50, 150, 200, 300, 350), 50);
}

#[test]
fn framed_buffer_places_header_data_footer() {
    let (w, len) = tx_buffer_framed(&[0xA1, 0xA2], &[7, 8, 9]).unwrap();
    assert_eq!(len, 7);
    let b = w.as_bytes();
    assert_eq!(&b[..8], &[0, 0, 0xA1, 0xA2, 7, 8, 9, 0]);
    assert!(b[8..].iter().all(|x| *x == 0));
}

#[test]
fn framed_buffer_limits() {
    let header = [1u8; 9];
    assert!(tx_buffer_framed(&header, &[2u8; 117]).is_some());
    assert!(tx_buffer_framed(&header, &[2u8; 118]).is_none());
    assert!(tx_buffer_framed(&[1u8; 126], &[]).is_some());
    assert!(tx_buffer_framed(&[1u8; 127], &[]).is_none());
    let (w, len) = tx_buffer_framed(&[], &[]).unwrap();
    assert_eq!(len, 2);
    assert!(w.as_bytes().iter().all(|x| *x == 0));
}

#[test]
fn sequence_number_is_frame_byte_two() {
    for seq in [0u8, 1, 200, 255] {
        let (w, _) = tx_buffer_for_send(seq, 0xBEEF, [1, 2], &[9]).unwrap();
        // two header bytes of the SPI access, then the frame
        assert_eq!(w.as_bytes()[4], seq);
        assert_eq!(&w.as_bytes()[2..4], &[0x41, 0x98]);
    }
}
