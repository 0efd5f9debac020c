use ftdi_mpsse::{ClockBits, ClockBitsOut, ClockData, ClockTMS, ClockTMSOut, MpsseCmdBuilder};
use jtag_tap::encoder::{
    append, clock_bits, clock_bytes, clock_tms, configure, opposite, set_clock, set_gpio,
    tms_bytes, BitOrder, Edge, EngineFlags, ShiftMode, MAX_BITS, MAX_BYTES,
};
use jtag_tap::error::EncodingError;

fn mode(order: BitOrder, out_edge: Edge, capture: bool) -> ShiftMode {
    ShiftMode { order, out_edge, capture }
}

#[test]
fn clock_tms_without_capture() {
    assert_eq!(
        clock_tms(0x7F, 7, Edge::Negative, false, false),
        Ok(vec![0x4B, 0x06, 0x7F])
    );
    assert_eq!(
        clock_tms(0x06, 5, Edge::Positive, false, false),
        Ok(vec![0x4A, 0x04, 0x06])
    );
}

#[test]
fn clock_tms_with_capture() {
    assert_eq!(
        clock_tms(0x01, 1, Edge::Negative, true, false),
        Ok(vec![0x6B, 0x00, 0x01])
    );
    assert_eq!(
        clock_tms(0x01, 1, Edge::Positive, true, false),
        Ok(vec![0x6A, 0x00, 0x01])
    );
}

#[test]
fn clock_tms_holds_tdi_in_bit_seven() {
    assert_eq!(
        clock_tms(0x01, 1, Edge::Negative, false, true),
        Ok(vec![0x4B, 0x00, 0x81])
    );
    assert_eq!(
        clock_tms(0x03, 2, Edge::Negative, true, true),
        Ok(vec![0x6B, 0x01, 0x83])
    );
}

#[test]
fn clock_tms_refuses_counts_outside_one_to_seven() {
    assert_eq!(
        clock_tms(0, 0, Edge::Negative, false, false),
        Err(EncodingError::LengthOutOfRange)
    );
    assert_eq!(
        clock_tms(0, 8, Edge::Negative, false, false),
        Err(EncodingError::LengthOutOfRange)
    );
    assert_eq!(
        clock_tms(0, 255, Edge::Positive, true, true),
        Err(EncodingError::LengthOutOfRange)
    );
    assert!(clock_tms(0, MAX_BITS, Edge::Negative, false, false).is_ok());
}

#[test]
fn clock_tms_agrees_with_the_builder() {
    let direct = MpsseCmdBuilder::new().clock_tms_out(ClockTMSOut::NegEdge, 0x7f, false, 7);
    assert_eq!(
        clock_tms(0x7f, 7, Edge::Negative, false, false).unwrap(),
        direct.as_slice()
    );
    let direct = MpsseCmdBuilder::new().clock_tms(ClockTMS::NegTMSPosTDO, 0x01, true, 1);
    assert_eq!(
        clock_tms(0x01, 1, Edge::Negative, true, true).unwrap(),
        direct.as_slice()
    );
    assert_eq!(tms_bytes(0x01, 1, Edge::Negative, true, true), direct.as_slice());
}

#[test]
fn clock_bits_in_every_mode() {
    let cases = [
        (BitOrder::MsbFirst, Edge::Positive, false, 0x12),
        (BitOrder::MsbFirst, Edge::Negative, false, 0x13),
        (BitOrder::LsbFirst, Edge::Positive, false, 0x1A),
        (BitOrder::LsbFirst, Edge::Negative, false, 0x1B),
        (BitOrder::MsbFirst, Edge::Negative, true, 0x33),
        (BitOrder::MsbFirst, Edge::Positive, true, 0x36),
        (BitOrder::LsbFirst, Edge::Negative, true, 0x3B),
        (BitOrder::LsbFirst, Edge::Positive, true, 0x3E),
    ];
    for (order, edge, capture, opcode) in cases {
        assert_eq!(
            clock_bits(0xA5, 3, mode(order, edge, capture)),
            Ok(vec![opcode, 0x02, 0xA5])
        );
    }
}

#[test]
fn clock_bits_refuses_counts_outside_one_to_seven() {
    let m = mode(BitOrder::LsbFirst, Edge::Negative, false);
    assert_eq!(clock_bits(0, 0, m), Err(EncodingError::LengthOutOfRange));
    assert_eq!(clock_bits(0, 8, m), Err(EncodingError::LengthOutOfRange));
    assert_eq!(clock_bits(0x55, 7, m), Ok(vec![0x1B, 0x06, 0x55]));
    assert_eq!(clock_bits(0x55, 1, m), Ok(vec![0x1B, 0x00, 0x55]));
}

#[test]
fn clock_bits_agrees_with_the_builder() {
    let direct = MpsseCmdBuilder::new().clock_bits_out(ClockBitsOut::LsbNeg, 0x09, 5);
    assert_eq!(
        clock_bits(0x09, 5, mode(BitOrder::LsbFirst, Edge::Negative, false)).unwrap(),
        direct.as_slice()
    );
    let direct = MpsseCmdBuilder::new().clock_bits(ClockBits::LsbPosIn, 0x00, 7);
    assert_eq!(
        clock_bits(0x00, 7, mode(BitOrder::LsbFirst, Edge::Negative, true)).unwrap(),
        direct.as_slice()
    );
}

#[test]
fn clock_bytes_in_every_mode() {
    let cases = [
        (BitOrder::MsbFirst, Edge::Positive, false, 0x10),
        (BitOrder::MsbFirst, Edge::Negative, false, 0x11),
        (BitOrder::LsbFirst, Edge::Positive, false, 0x18),
        (BitOrder::LsbFirst, Edge::Negative, false, 0x19),
        (BitOrder::MsbFirst, Edge::Negative, true, 0x31),
        (BitOrder::MsbFirst, Edge::Positive, true, 0x34),
        (BitOrder::LsbFirst, Edge::Negative, true, 0x39),
        (BitOrder::LsbFirst, Edge::Positive, true, 0x3C),
    ];
    for (order, edge, capture, opcode) in cases {
        assert_eq!(
            clock_bytes(&[1, 2, 3], mode(order, edge, capture)),
            Ok(vec![opcode, 0x02, 0x00, 1, 2, 3])
        );
    }
}

#[test]
fn clock_bytes_length_field_is_little_endian() {
    let data = vec![0x5Au8; 0x1234];
    let bytes = clock_bytes(&data, mode(BitOrder::LsbFirst, Edge::Negative, true)).unwrap();
    assert_eq!(&bytes[..3], &[0x39, 0x33, 0x12]);
    assert_eq!(&bytes[3..], &data[..]);
}

#[test]
fn clock_bytes_limits() {
    let m = mode(BitOrder::LsbFirst, Edge::Negative, false);
    assert_eq!(clock_bytes(&[], m), Ok(vec![]));
    let most = vec![0u8; MAX_BYTES];
    let bytes = clock_bytes(&most, m).unwrap();
    assert_eq!(bytes.len(), MAX_BYTES + 3);
    assert_eq!(&bytes[..3], &[0x19, 0xFF, 0xFF]);
    let over = vec![0u8; MAX_BYTES + 1];
    assert_eq!(clock_bytes(&over, m), Err(EncodingError::LengthOutOfRange));
}

#[test]
fn clock_bytes_agrees_with_the_builder() {
    let direct = MpsseCmdBuilder::new().clock_data(ClockData::LsbPosIn, &[0, 0, 0]);
    assert_eq!(
        clock_bytes(&[0, 0, 0], mode(BitOrder::LsbFirst, Edge::Negative, true)).unwrap(),
        direct.as_slice()
    );
}

#[test]
fn set_clock_bytes() {
    assert_eq!(set_clock(0x5db, Some(false)), vec![0x8A, 0x86, 0xDB, 0x05]);
    assert_eq!(set_clock(0x5db, Some(true)), vec![0x8B, 0x86, 0xDB, 0x05]);
    assert_eq!(set_clock(9, None), vec![0x86, 0x09, 0x00]);
    assert_eq!(set_clock(0x0012_3456, None), vec![0x86, 0x56, 0x34]);
}

#[test]
fn set_gpio_bytes() {
    assert_eq!(
        set_gpio(0x0b, 0x08, 0x00, 0x00),
        vec![0x80, 0x08, 0x0b, 0x82, 0x00, 0x00]
    );
    assert_eq!(
        set_gpio(0x11, 0x22, 0x33, 0x44),
        vec![0x80, 0x22, 0x11, 0x82, 0x44, 0x33]
    );
    let direct = MpsseCmdBuilder::new()
        .set_gpio_lower(0x08, 0x0b)
        .set_gpio_upper(0x00, 0x00);
    assert_eq!(set_gpio(0x0b, 0x08, 0x00, 0x00), direct.as_slice());
}

#[test]
fn configure_bytes() {
    let off = EngineFlags { loopback: false, three_phase: false, adaptive_clocking: false };
    assert_eq!(configure(off), vec![0x97, 0x8D, 0x85]);
    let on = EngineFlags { loopback: true, three_phase: true, adaptive_clocking: true };
    assert_eq!(configure(on), vec![0x96, 0x8C, 0x84]);
    let mixed = EngineFlags { loopback: true, three_phase: false, adaptive_clocking: false };
    assert_eq!(configure(mixed), vec![0x97, 0x8D, 0x84]);
    let direct = MpsseCmdBuilder::new()
        .disable_adaptive_data_clocking()
        .disable_3phase_data_clocking()
        .disable_loopback();
    assert_eq!(configure(off), direct.as_slice());
}

#[test]
fn opposite_edge() {
    assert_eq!(opposite(Edge::Positive), Edge::Negative);
    assert_eq!(opposite(Edge::Negative), Edge::Positive);
}

#[test]
fn append_keeps_both_parts_in_order() {
    let mut buf = vec![1u8, 2];
    append(&mut buf, &vec![3, 4, 5]);
    assert_eq!(buf, vec![1, 2, 3, 4, 5]);
    append(&mut buf, &vec![]);
    assert_eq!(buf, vec![1, 2, 3, 4, 5]);
}
