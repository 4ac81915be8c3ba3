use dw3000_ng::fast_command::FastCommand;
use dw3000_ng::ll::registers::{
    DMA_CFG, FCMD_STAT, GPIO_MODE, PANADR, PLL_CC, STS_TS, SYS_CFG, SYS_STATUS, TX_BUFFER, TX_FCTRL,
};
use dw3000_ng::ll::{fast_command_byte, init_header, Readable, Register, Writable, DW3000, R, W};

#[test]
fn field_reads_back_what_was_written() {
    let mut w = SYS_CFG::write();
    w.phr_mode(1).cp_spc(0b11).pdoa_mode(0b10);
    let r = R::<SYS_CFG>::from_bytes(w.as_bytes().to_vec()).unwrap();
    assert_eq!(r.phr_mode(), 1);
    assert_eq!(r.cp_spc(), 0b11);
    assert_eq!(r.pdoa_mode(), 0b10);
    assert_eq!(r.ffen(), 0);
    assert_eq!(r.fast_aat(), 0);
    // bits 4, 12-13, 16-17 of the register, after the two header bytes
    assert_eq!(w.as_bytes(), &[0, 0, 0x10, 0x30, 0x02, 0x00]);
}

#[test]
fn too_large_value_is_truncated() {
    let mut w = SYS_CFG::write();
    w.cp_spc(0xff);
    let r = R::<SYS_CFG>::from_bytes(w.as_bytes().to_vec()).unwrap();
    assert_eq!(r.cp_spc(), 0b11);
    assert_eq!(r.dis_drxb(), 0);
    assert_eq!(w.as_bytes(), &[0, 0, 0x00, 0x30, 0x00, 0x00]);
}

#[test]
fn write_keeps_other_fields() {
    let r = R::<TX_FCTRL>::from_bytes(vec![0xAA, 0xBB, 0xff, 0xff, 0xff, 0xff, 0xff, 0xff]).unwrap();
    let mut w = W::from_read(&r);
    w.txflen(0x12);
    let r2 = R::<TX_FCTRL>::from_bytes(w.as_bytes().to_vec()).unwrap();
    assert_eq!(r2.txflen(), 0x12);
    assert_eq!(r2.txbr(), 1);
    assert_eq!(r2.tr(), 1);
    assert_eq!(r2.txpsr(), 0xf);
    assert_eq!(r2.txb_offset(), 0x3ff);
    assert_eq!(r2.fine_plen(), 0xff);
    assert_eq!(&w.as_bytes()[..2], &[0xAA, 0xBB]);
    assert_eq!(w.as_bytes(), &[0xAA, 0xBB, 0x12, 0xfc, 0xff, 0xff, 0xff, 0xff]);
}

#[test]
fn second_write_wins() {
    let mut a = GPIO_MODE::write();
    a.msgp4(5).msgp4(2);
    let mut b = GPIO_MODE::write();
    b.msgp4(2);
    assert_eq!(a.as_bytes(), b.as_bytes());
}

#[test]
fn disjoint_writes_commute() {
    let mut a = GPIO_MODE::write();
    a.msgp0(3).msgp8(6);
    let mut b = GPIO_MODE::write();
    b.msgp8(6).msgp0(3);
    assert_eq!(a.as_bytes(), b.as_bytes());
}

#[test]
fn unaligned_fields_across_bytes() {
    // sts_toast: bits 55 to 63; sts_poa: bits 40 to 53
    let mut bytes = vec![0u8; 10];
    bytes[2 + 5] = 0b1100_0000;
    bytes[2 + 6] = 0b1011_0101;
    bytes[2 + 7] = 0b1000_0001;
    let r = R::<STS_TS>::from_bytes(bytes).unwrap();
    assert_eq!(r.sts_poa(), 0b11_0101_1100_0000);
    assert_eq!(r.sts_toast(), 0b1_0000_0011);
}

#[test]
fn wide_field_read_into_narrow_type_keeps_low_bits() {
    // ch5_code: bits 8 to 21, read as a u8
    let r = R::<PLL_CC>::from_bytes(vec![0, 0, 0x00, 0xAB, 0x3F]).unwrap();
    assert_eq!(r.ch5_code(), 0xAB);
    let d = R::<DMA_CFG>::from_bytes(vec![0, 0, 0, 0, 0, 0, 0x80, 0xff, 0x01, 0]).unwrap();
    // pyld_size: bits 39 to 48, low eight of them
    assert_eq!(d.pyld_size(), 0xff);
}

#[test]
fn generic_field_access() {
    let mut w = PANADR::write();
    w.set_u16(0, 15, 0xBEEF).set_u16(16, 31, 0x1234);
    let r = R::<PANADR>::from_bytes(w.as_bytes().to_vec()).unwrap();
    assert_eq!(r.get_u32(0, 31), 0x1234_BEEF);
    assert_eq!(r.get_u8(4, 11), 0xEE);
    assert_eq!(r.short_addr(), 0xBEEF);
    assert_eq!(r.pan_id(), 0x1234);
}

#[test]
fn register_values_need_the_register_length() {
    assert!(R::<PANADR>::from_bytes(vec![0; 5]).is_none());
    assert!(R::<PANADR>::from_bytes(vec![0; 7]).is_none());
    assert!(R::<PANADR>::from_bytes(vec![0; 6]).is_some());
}

#[test]
fn fresh_buffers_are_zero() {
    let r = SYS_STATUS::read();
    assert_eq!(r.as_bytes(), &[0u8; 8]);
    let w = SYS_STATUS::write();
    assert_eq!(w.as_bytes(), &[0u8; 8]);
    assert_eq!(TX_BUFFER::write().as_bytes().len(), 129);
}

#[test]
fn read_header() {
    let mut r = PANADR::read();
    let buf = <PANADR as Readable>::buffer(&mut r);
    assert_eq!(init_header::<PANADR>(false, buf), 2);
    assert_eq!(r.as_bytes(), &[0x40, 0x30, 0, 0, 0, 0]);
}

#[test]
fn write_header() {
    let mut w = TX_FCTRL::write();
    let buf = <TX_FCTRL as Writable>::buffer(&mut w);
    init_header::<TX_FCTRL>(true, buf);
    assert_eq!(&w.as_bytes()[..2], &[0xC0, 0x90]);
    assert_eq!(<SYS_STATUS as Register>::SUB_ID, 0x44);
    let mut w = SYS_STATUS::write();
    init_header::<SYS_STATUS>(true, <SYS_STATUS as Writable>::buffer(&mut w));
    // the sub-address 0x44 has its top bit (0x40) in the first byte
    assert_eq!(&w.as_bytes()[..2], &[0xC1, 0x10]);
}

#[test]
fn fast_command_bytes() {
    assert_eq!(fast_command_byte(FastCommand::CMD_TXRXOFF.value()), 0x81);
    assert_eq!(fast_command_byte(FastCommand::CMD_TX.value()), 0x83);
    assert_eq!(fast_command_byte(FastCommand::CMD_DTX.value()), 0x87);
    assert_eq!(fast_command_byte(FastCommand::CMD_DB_TOGGLE.value()), 0xA7);
    assert_eq!(FastCommand::CMD_DTX_REF_W4R.value(), 0x10);
}

#[test]
fn data_views() {
    let mut w = TX_BUFFER::write();
    w.data()[0] = 7;
    w.data()[126] = 9;
    assert_eq!(w.as_bytes()[2], 7);
    assert_eq!(w.as_bytes()[128], 9);
    assert_eq!(w.as_bytes()[0], 0);
    let mut bytes = vec![0u8; 129];
    bytes[2] = 0x55;
    let r = R::<dw3000_ng::ll::registers::RX_BUFFER_0>::from_bytes(bytes).unwrap();
    assert_eq!(r.data().len(), 127);
    assert_eq!(r.data()[0], 0x55);
}

#[test]
fn low_level_driver_holds_bus_and_pin() {
    let mut dw = DW3000::new(5u32, 'c');
    assert_eq!(*dw.bus(), 5);
    *dw.bus() = 6;
    assert_eq!(*dw.chip_select(), 'c');
    assert_eq!(*dw.bus(), 6);
    let acc = dw.tx_buffer();
    assert_eq!(*acc.0.bus(), 6);
}

#[test]
fn register_value_as_hex_text() {
    let r = R::<PANADR>::from_bytes(vec![0, 0, 0x01, 0x02, 0xAB, 0xFF]).unwrap();
    assert_eq!(String::from_utf8(r.to_hex()).unwrap(), "0xffab0201");
    let r = R::<FCMD_STAT>::from_bytes(vec![0x12, 0x34, 0x0c]).unwrap();
    assert_eq!(String::from_utf8(r.to_hex()).unwrap(), "0x0c");
}
