use g213::color::{RgbColor, Speed};
use g213::command::{Argument, Command, CommandError, Phase, TransportError, MAX_SECTOR, MIN_SPEED};
use g213::hexfmt::{from_hex, push_hex_byte, to_hex};
use g213::payload::{check_sector, check_speed, encode_command, encode_frame, FRAME_LEN};
use g213::textfmt::decimal;

fn payload(cmd: Command) -> String {
    encode_command(&cmd).unwrap()
}

#[test]
fn red_in_the_third_sector() {
    let cmd = Command::SetSectorColor(RgbColor(255, 0, 0), Some(2));
    assert_eq!(
        encode_command(&cmd),
        Ok("11ff0c3a0301ff00000200000000000000000000".to_string())
    );
}

#[test]
fn green_breathing() {
    let cmd = Command::Breathe(RgbColor(0, 255, 0), Speed(100));
    assert_eq!(
        encode_command(&cmd),
        Ok("11ff0c3a000200ff000064006400000000000000".to_string())
    );
}

#[test]
fn colour_cycle() {
    let cmd = Command::Cycle(Speed(100));
    assert_eq!(
        encode_command(&cmd),
        Ok("11ff0c3a0003ffffff0000006464000000000000".to_string())
    );
}

#[test]
fn broadcast_has_sector_byte_zero() {
    let text = payload(Command::SetSectorColor(RgbColor(1, 2, 3), None));
    assert_eq!(text, "11ff0c3a00010102030200000000000000000000");
    assert_eq!(&text[8..10], "00");
}

#[test]
fn sector_byte_is_index_plus_one() {
    for index in 0u8..=4 {
        let cmd = Command::SetSectorColor(RgbColor(0x12, 0x34, 0x56), Some(index));
        let frame = encode_frame(&cmd).unwrap();
        assert_eq!(frame[4], index + 1);
        let text = payload(cmd);
        assert_eq!(&text[8..10], format!("{:02x}", index + 1));
        assert_eq!(text, format!("11ff0c3a{:02x}011234560200000000000000000000", index + 1));
    }
}

#[test]
fn sector_above_four_is_rejected() {
    for index in [5u8, 6, 100, 254, 255] {
        let cmd = Command::SetSectorColor(RgbColor(0, 0, 0), Some(index));
        let expected = CommandError::InvalidArgument(Argument::Sector, index as u16);
        assert_eq!(encode_command(&cmd), Err(expected));
        assert_eq!(encode_frame(&cmd), Err(expected));
    }
}

#[test]
fn check_sector_gives_the_selector() {
    assert_eq!(check_sector(None), Ok(0));
    assert_eq!(check_sector(Some(0)), Ok(1));
    assert_eq!(check_sector(Some(MAX_SECTOR)), Ok(5));
    assert_eq!(
        check_sector(Some(MAX_SECTOR + 1)),
        Err(CommandError::InvalidArgument(Argument::Sector, 5))
    );
}

#[test]
fn check_speed_has_its_bound_at_32() {
    assert_eq!(MIN_SPEED, 32);
    assert_eq!(check_speed(Speed(32)), Ok(()));
    assert_eq!(check_speed(Speed(65535)), Ok(()));
    assert_eq!(
        check_speed(Speed(31)),
        Err(CommandError::InvalidArgument(Argument::Speed, 31))
    );
    assert_eq!(
        check_speed(Speed(0)),
        Err(CommandError::InvalidArgument(Argument::Speed, 0))
    );
}

#[test]
fn low_speed_is_rejected_by_both_commands() {
    for speed in 0u16..32 {
        let expected = CommandError::InvalidArgument(Argument::Speed, speed);
        assert_eq!(
            encode_command(&Command::Breathe(RgbColor(9, 9, 9), Speed(speed))),
            Err(expected)
        );
        assert_eq!(encode_command(&Command::Cycle(Speed(speed))), Err(expected));
    }
}

#[test]
fn speed_field_is_big_endian() {
    for speed in [32u16, 33, 100, 255, 256, 0x1234, 0xabcd, 0xff00, 65535] {
        let breathe = payload(Command::Breathe(RgbColor(1, 2, 3), Speed(speed)));
        assert_eq!(&breathe[18..22], format!("{:04x}", speed));
        assert_eq!(breathe, format!("11ff0c3a0002010203{:04x}006400000000000000", speed));
        let cycle = payload(Command::Cycle(Speed(speed)));
        assert_eq!(&cycle[22..26], format!("{:04x}", speed));
        assert_eq!(cycle, format!("11ff0c3a0003ffffff0000{:04x}64000000000000", speed));
        let frame = encode_frame(&Command::Cycle(Speed(speed))).unwrap();
        assert_eq!(frame[11], (speed >> 8) as u8);
        assert_eq!(frame[12], (speed & 0xff) as u8);
    }
}

#[test]
fn color_serializes_as_six_digits() {
    let color = RgbColor(0xff, 0xb4, 0xaa);
    assert_eq!(color.to_hex(), "ffb4aa");
    assert_eq!(RgbColor(0, 1, 0x0f).to_hex(), "00010f");
    for sector in [None, Some(0u8), Some(4)] {
        let text = payload(Command::SetSectorColor(color, sector));
        assert_eq!(&text[12..18], "ffb4aa");
    }
    let text = payload(Command::Breathe(color, Speed(1000)));
    assert_eq!(&text[12..18], "ffb4aa");
    assert!(text.contains("ffb4aa"));
}

#[test]
fn encoding_twice_gives_the_same_payload() {
    let cmds = [
        Command::SetSectorColor(RgbColor(7, 8, 9), Some(3)),
        Command::SetSectorColor(RgbColor(7, 8, 9), Some(30)),
        Command::Breathe(RgbColor(7, 8, 9), Speed(4000)),
        Command::Cycle(Speed(5)),
    ];
    for cmd in cmds {
        assert_eq!(encode_command(&cmd), encode_command(&cmd));
        assert_eq!(encode_frame(&cmd), encode_frame(&cmd));
    }
}

#[test]
fn every_frame_has_twenty_bytes() {
    assert_eq!(FRAME_LEN, 20);
    let cmds = [
        Command::SetSectorColor(RgbColor(255, 255, 255), None),
        Command::Breathe(RgbColor(0, 0, 0), Speed(32)),
        Command::Cycle(Speed(65535)),
    ];
    for cmd in cmds {
        assert_eq!(encode_frame(&cmd).unwrap().len(), FRAME_LEN);
        assert_eq!(payload(cmd).len(), 2 * FRAME_LEN);
    }
}

#[test]
fn frames_follow_the_layout() {
    assert_eq!(
        encode_frame(&Command::SetSectorColor(RgbColor(0xaa, 0xbb, 0xcc), Some(4))),
        Ok(vec![
            0x11, 0xff, 0x0c, 0x3a, 0x05, 0x01, 0xaa, 0xbb, 0xcc, 0x02, 0, 0, 0, 0, 0, 0, 0, 0, 0,
            0
        ])
    );
    assert_eq!(
        encode_frame(&Command::Breathe(RgbColor(0xaa, 0xbb, 0xcc), Speed(0x1234))),
        Ok(vec![
            0x11, 0xff, 0x0c, 0x3a, 0x00, 0x02, 0xaa, 0xbb, 0xcc, 0x12, 0x34, 0x00, 0x64, 0, 0, 0,
            0, 0, 0, 0
        ])
    );
    assert_eq!(
        encode_frame(&Command::Cycle(Speed(0x1234))),
        Ok(vec![
            0x11, 0xff, 0x0c, 0x3a, 0x00, 0x03, 0xff, 0xff, 0xff, 0x00, 0x00, 0x12, 0x34, 0x64, 0,
            0, 0, 0, 0, 0
        ])
    );
}

#[test]
fn payload_reads_back_as_the_frame() {
    let cmds = [
        Command::SetSectorColor(RgbColor(0xde, 0xad, 0xbe), Some(1)),
        Command::Breathe(RgbColor(0xef, 0x01, 0x23), Speed(0x4567)),
        Command::Cycle(Speed(0x89ab)),
    ];
    for cmd in cmds {
        let text = payload(cmd);
        assert_eq!(from_hex(&text), Some(encode_frame(&cmd).unwrap()));
    }
}

#[test]
fn to_hex_writes_two_lower_case_digits_per_byte() {
    assert_eq!(to_hex(&vec![]), "");
    assert_eq!(to_hex(&vec![0x00]), "00");
    assert_eq!(to_hex(&vec![1, 2, 3, 15, 16]), "0102030f10");
    assert_eq!(to_hex(&vec![0xab, 0xcd, 0xef, 0xff]), "abcdefff");
    let all: Vec<u8> = (0u8..=255).collect();
    let expected: String = all.iter().map(|b| format!("{:02x}", b)).collect();
    assert_eq!(to_hex(&all), expected);
}

#[test]
fn push_hex_byte_appends() {
    let mut text = "11".to_string();
    push_hex_byte(&mut text, 0xff);
    push_hex_byte(&mut text, 0x0c);
    assert_eq!(text, "11ff0c");
}

#[test]
fn from_hex_reads_both_cases() {
    assert_eq!(from_hex(""), Some(vec![]));
    assert_eq!(from_hex("0a"), Some(vec![10]));
    assert_eq!(from_hex("f9b4ca"), Some(vec![0xf9, 0xb4, 0xca]));
    assert_eq!(from_hex("F9B4CA"), Some(vec![0xf9, 0xb4, 0xca]));
    assert_eq!(from_hex("f9B4Ca"), Some(vec![0xf9, 0xb4, 0xca]));
    assert_eq!(
        from_hex("48656c6c6f20776f726c6421"),
        Some("Hello world!".as_bytes().to_vec())
    );
}

#[test]
fn from_hex_refuses_what_is_not_hex_text() {
    assert_eq!(from_hex("1"), None);
    assert_eq!(from_hex("123"), None);
    assert_eq!(from_hex("foo"), None);
    assert_eq!(from_hex("0g"), None);
    assert_eq!(from_hex("0x10"), None);
    assert_eq!(from_hex(" 0"), None);
    assert_eq!(from_hex("\u{e9}"), None);
    assert_eq!(from_hex("0\u{e9}1"), None);
}

#[test]
fn from_hex_undoes_to_hex() {
    let all: Vec<u8> = (0u8..=255).rev().collect();
    assert_eq!(from_hex(&to_hex(&all)), Some(all));
}

#[test]
fn decimal_has_no_leading_zeros() {
    assert_eq!(decimal(0), "0");
    assert_eq!(decimal(9), "9");
    assert_eq!(decimal(10), "10");
    assert_eq!(decimal(31), "31");
    assert_eq!(decimal(100), "100");
    assert_eq!(decimal(4096), "4096");
    assert_eq!(decimal(65535), "65535");
    for n in [1u16, 42, 255, 1000, 10000, 60001] {
        assert_eq!(decimal(n), format!("{}", n));
    }
}

#[test]
fn errors_say_what_went_wrong() {
    let sector = CommandError::InvalidArgument(Argument::Sector, 7);
    assert_eq!(sector.detail(), "7 > 4");
    let speed = CommandError::InvalidArgument(Argument::Speed, 31);
    assert_eq!(speed.detail(), "31 < 32");
    assert_eq!(Argument::Sector.name(), "sector");
    assert_eq!(Argument::Speed.name(), "speed");
    assert_eq!(
        CommandError::Usb(Phase::OpenDevice, TransportError::Access).detail(),
        "opening G213 USB device"
    );
    assert_eq!(
        CommandError::Usb(Phase::AcquireLease, TransportError::Busy).detail(),
        "detaching USB device from kernel"
    );
    assert_eq!(
        CommandError::Usb(Phase::WriteControl, TransportError::Pipe).detail(),
        "write_control"
    );
    assert_eq!(
        CommandError::Usb(Phase::ReadInterrupt, TransportError::Timeout).detail(),
        "read_interrupt"
    );
    assert_eq!(Phase::WriteControl.context(), "write_control");
    assert_eq!(Phase::ReadInterrupt.context(), "read_interrupt");
}
