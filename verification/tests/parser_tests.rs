use fh6_tel::parser::{parse, skip, ParseError, PacketCursor, DASH_PACKET_LEN};

fn zero_packet(len: usize) -> Vec<u8> {
    vec![0u8; len]
}

fn packet_with_speed(speed_ms: f32) -> Vec<u8> {
    let mut buf = zero_packet(311);
    buf[244..248].copy_from_slice(&speed_ms.to_le_bytes());
    buf
}

#[test]
fn rejects_short_packet() {
    let buf = zero_packet(100);
    assert!(parse(&buf).is_err());
}

#[test]
fn parses_speed_field() {
    let buf = packet_with_speed(44.44);
    let pkt = parse(&buf).unwrap();
    assert!((f32::from_bits(pkt.speed_ms) - 44.44).abs() < 0.001);
}

#[test]
fn accepts_311_byte_packet() {
    let buf = zero_packet(311);
    assert!(parse(&buf).is_ok());
}

#[test]
fn accepts_324_byte_packet_with_tire_wear() {
    let mut buf = zero_packet(324);
    buf[311..315].copy_from_slice(&0.85f32.to_le_bytes());
    let pkt = parse(&buf).unwrap();
    assert!((f32::from_bits(pkt.tire_wear_fl.unwrap()) - 0.85).abs() < 0.001);
}

#[test]
fn is_race_on_zero_parses_as_false() {
    let buf = zero_packet(311);
    let pkt = parse(&buf).unwrap();
    assert!(!pkt.is_race_on);
}

#[test]
fn is_race_on_one_parses_as_true() {
    let mut buf = zero_packet(311);
    buf[0..4].copy_from_slice(&1i32.to_le_bytes());
    let pkt = parse(&buf).unwrap();
    assert!(pkt.is_race_on);
}

#[test]
fn short_packet_error_carries_its_length() {
    assert_eq!(parse(&zero_packet(100)), Err(ParseError::TooShort(100)));
    assert_eq!(parse(&zero_packet(0)), Err(ParseError::TooShort(0)));
    assert_eq!(parse(&zero_packet(310)), Err(ParseError::TooShort(310)));
    assert_eq!(DASH_PACKET_LEN, 311);
}

#[test]
fn is_race_on_is_any_nonzero_word() {
    let mut buf = zero_packet(311);
    buf[3] = 0x80;
    assert!(parse(&buf).unwrap().is_race_on);
    let mut buf = zero_packet(311);
    buf[4] = 1; // timestamp, not the flag
    assert!(!parse(&buf).unwrap().is_race_on);
}

#[test]
fn every_field_comes_from_its_offset() {
    // Fill each byte with its index (mod 256) so every field is distinct.
    let buf: Vec<u8> = (0..327u32).map(|i| (i % 251) as u8).collect();
    let pkt = parse(&buf).unwrap();
    let u32_at = |off: usize| u32::from_le_bytes(buf[off..off + 4].try_into().unwrap());
    let i32_at = |off: usize| i32::from_le_bytes(buf[off..off + 4].try_into().unwrap());
    assert_eq!(pkt.timestamp_ms, u32_at(4));
    assert_eq!(pkt.engine_max_rpm, u32_at(8));
    assert_eq!(pkt.engine_idle_rpm, u32_at(12));
    assert_eq!(pkt.current_engine_rpm, u32_at(16));
    assert_eq!(pkt.accel_x, u32_at(20));
    assert_eq!(pkt.accel_z, u32_at(28));
    assert_eq!(pkt.vel_x, u32_at(32));
    assert_eq!(pkt.vel_z, u32_at(40));
    assert_eq!(pkt.tire_slip_ratio_fl, u32_at(84));
    assert_eq!(pkt.tire_slip_ratio_rr, u32_at(96));
    assert_eq!(pkt.tire_slip_angle_fl, u32_at(164));
    assert_eq!(pkt.tire_slip_angle_rr, u32_at(176));
    assert_eq!(pkt.car_ordinal, i32_at(212));
    assert_eq!(pkt.car_class, i32_at(216));
    assert_eq!(pkt.car_pi, i32_at(220));
    assert_eq!(pkt.drivetrain_type, i32_at(224));
    assert_eq!(pkt.speed_ms, u32_at(244));
    assert_eq!(pkt.power, u32_at(248));
    assert_eq!(pkt.torque, u32_at(252));
    assert_eq!(pkt.tire_temp_fl, u32_at(256));
    assert_eq!(pkt.tire_temp_rr, u32_at(268));
    assert_eq!(pkt.boost, u32_at(272));
    assert_eq!(pkt.fuel, u32_at(276));
    assert_eq!(pkt.distance_traveled, u32_at(280));
    assert_eq!(pkt.best_lap, u32_at(284));
    assert_eq!(pkt.last_lap, u32_at(288));
    assert_eq!(pkt.current_lap, u32_at(292));
    assert_eq!(pkt.current_race_time, u32_at(296));
    assert_eq!(pkt.lap_number, u16::from_le_bytes([buf[300], buf[301]]));
    assert_eq!(pkt.race_position, buf[302]);
    assert_eq!(pkt.throttle, buf[303]);
    assert_eq!(pkt.brake, buf[304]);
    assert_eq!(pkt.clutch, buf[305]);
    assert_eq!(pkt.handbrake, buf[306]);
    assert_eq!(pkt.gear, buf[307]);
    assert_eq!(pkt.tire_wear_fl, Some(u32_at(311)));
    assert_eq!(pkt.tire_wear_fr, Some(u32_at(315)));
    assert_eq!(pkt.tire_wear_rl, Some(u32_at(319)));
    assert_eq!(pkt.tire_wear_rr, Some(u32_at(323)));
}

#[test]
fn negative_car_fields_decode_as_twos_complement() {
    let mut buf = zero_packet(311);
    buf[212..216].copy_from_slice(&(-5i32).to_le_bytes());
    buf[224..228].copy_from_slice(&i32::MIN.to_le_bytes());
    buf[300..302].copy_from_slice(&0xbeefu16.to_le_bytes());
    let pkt = parse(&buf).unwrap();
    assert_eq!(pkt.car_ordinal, -5);
    assert_eq!(pkt.drivetrain_type, i32::MIN);
    assert_eq!(pkt.lap_number, 0xbeef);
}

#[test]
fn tire_wear_appears_as_the_packet_grows() {
    for (len, present) in [(311, 0), (314, 0), (315, 1), (318, 1), (319, 2), (323, 3), (324, 3), (326, 3), (327, 4), (400, 4)] {
        let pkt = parse(&zero_packet(len)).unwrap();
        let got = [pkt.tire_wear_fl, pkt.tire_wear_fr, pkt.tire_wear_rl, pkt.tire_wear_rr]
            .iter()
            .filter(|w| w.is_some())
            .count();
        assert_eq!(got, present, "len {len}");
    }
}

#[test]
fn trailing_bytes_are_ignored() {
    let base: Vec<u8> = (0..327u32).map(|i| (i * 7 % 256) as u8).collect();
    let mut longer = base.clone();
    longer.extend_from_slice(&[0xff; 50]);
    assert_eq!(parse(&base), parse(&longer));
}

#[test]
fn cursor_reads_and_skips() {
    let buf: Vec<u8> = vec![1, 0, 0, 0, 0xff, 0xff, 0xff, 0xff, 7, 1, 9];
    let mut c = PacketCursor::new(&buf);
    assert_eq!(c.read_u32_le(), Ok(1));
    assert_eq!(c.read_i32_le(), Ok(-1));
    assert_eq!(c.read_u16_le(), Ok(0x0107));
    assert_eq!(c.pos(), 10);
    assert_eq!(c.read_u8(), Ok(9));
    assert_eq!(c.read_u8(), Err(ParseError::Io));
    assert_eq!(c.pos(), 11);
}

#[test]
fn skip_moves_by_whole_fields() {
    let buf = zero_packet(10);
    let mut c = PacketCursor::new(&buf);
    assert_eq!(skip(&mut c, 2), Ok(()));
    assert_eq!(c.pos(), 8);
    assert_eq!(skip(&mut c, 0), Ok(()));
    assert_eq!(c.pos(), 8);
    // Not enough left: the cursor runs to the end and the skip fails.
    assert_eq!(skip(&mut c, 1), Err(ParseError::Io));
    assert_eq!(c.pos(), 10);
}

#[test]
fn bytes_past_311_only_change_tire_wear() {
    let a = zero_packet(330);
    let mut b = zero_packet(330);
    for byte in b[311..].iter_mut() {
        *byte = 0xab;
    }
    let pa = parse(&a).unwrap();
    let pb = parse(&b).unwrap();
    assert_ne!(pa, pb);
    let mut pb_without_wear = pb.clone();
    pb_without_wear.tire_wear_fl = pa.tire_wear_fl;
    pb_without_wear.tire_wear_fr = pa.tire_wear_fr;
    pb_without_wear.tire_wear_rl = pa.tire_wear_rl;
    pb_without_wear.tire_wear_rr = pa.tire_wear_rr;
    assert_eq!(pa, pb_without_wear);
    assert_eq!(pb.tire_wear_rr, Some(0xabab_abab));
}
