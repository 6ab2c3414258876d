use std::borrow::Cow;

use midi::consts::{DEFAULT_NOTE_OFF_VEL, MIDDLE_C};
use midi::message::cc::Cc;
use midi::message::note::{NoteOff, NoteOn};
use midi::message::nrpn::Nrpn;
use midi::message::rpn::{Rpn, RpnKind};
use midi::message::sysex::SysEx;
use midi::message::{FourteenBit, FourteenBitError, Message, MessageKind, MidiMessageError};
use midi::util::Channel;

#[test]
fn test_cc() {
    let mut msg = Message::new(Cc { addr: 1, val: 100 }).unwrap();
    let channel = Channel::new(0).unwrap();
    for i in 1..=10 {
        assert_eq!(msg.message(channel), vec![0xB0, 1, 100 + i - 1]);
        msg.update_value(100 + i).unwrap()
    }
    assert_eq!(msg.message(channel), vec![0xB0, 1, 110]);
}

#[test]
fn send_note() {
    let note_on = Message::new(NoteOn { note: MIDDLE_C, velo: 100 }).unwrap();
    let note_off = Message::new(NoteOff { note: MIDDLE_C }).unwrap();
    let channel = Channel::new(0).unwrap();
    for _ in 0..100 {
        assert_eq!(note_on.message(channel), vec![0x90, 0x3c, 100]);
        assert_eq!(note_off.message(channel), vec![0x80, 0x3c, DEFAULT_NOTE_OFF_VEL]);
    }
}

#[test]
fn send_cc() {
    let msg = Message::new(Cc { addr: 80, val: 100 }).unwrap();
    let channel = Channel::new(0).unwrap();
    for _ in 0..100 {
        assert_eq!(msg.message(channel), vec![0xB0, 80, 100]);
    }
}

#[test]
fn channel_accepts_only_four_bits() {
    for c in 0u8..16 {
        assert_eq!(Channel::new(c).unwrap().value(), c);
    }
    assert!(Channel::new(16).is_err());
    assert!(Channel::new(0x80).is_err());
    assert!(Channel::new(255).is_err());
}

#[test]
fn channel_goes_into_status_nibble() {
    let ch = Channel::new(15).unwrap();
    let m = Message::new(NoteOn { note: 64, velo: 1 }).unwrap();
    assert_eq!(m.message(ch), vec![0x9F, 64, 1]);
    let m = Message::new(Cc { addr: 7, val: 127 }).unwrap();
    assert_eq!(m.message(ch), vec![0xBF, 7, 127]);
}

#[test]
fn nrpn_encoding_is_exact() {
    let m = Message::new(Nrpn { addr: (1, 2), val: (3, 4) }).unwrap();
    let ch = Channel::new(0).unwrap();
    assert_eq!(
        m.message(ch),
        vec![
            0xB0, 0x63, 0x01, 0xB0, 0x62, 0x02, 0xB0, 0x06, 0x03, 0xB0, 0x26, 0x04, 0xB0, 0x63,
            0x7F, 0xB0, 0x62, 0x7F
        ]
    );
}

#[test]
fn rpn_encoding_is_exact() {
    let m = Message::new(Rpn { addr: RpnKind::PitchBend, val: (2, 0) }).unwrap();
    let ch = Channel::new(1).unwrap();
    assert_eq!(
        m.message(ch),
        vec![
            0xB1, 0x65, 0x00, 0x64, 0x00, 0xB1, 0x06, 2, 0x26, 0, 0xB1, 0x65, 127, 0xB1, 0x64, 127
        ]
    );
    let m = Message::new(Rpn { addr: RpnKind::ModDepthRange, val: (0, 64) }).unwrap();
    assert_eq!(m.message(ch)[4], 0x05);
}

#[test]
fn legal_fields_give_table_lengths() {
    let ch = Channel::new(9).unwrap();
    assert_eq!(Message::new(NoteOn { note: 127, velo: 127 }).unwrap().message(ch).len(), 3);
    assert_eq!(Message::new(NoteOff { note: 0 }).unwrap().message(ch).len(), 3);
    assert_eq!(Message::new(Cc { addr: 127, val: 0 }).unwrap().message(ch).len(), 3);
    assert_eq!(
        Message::new(Nrpn { addr: (127, 127), val: (127, 127) }).unwrap().message(ch).len(),
        18
    );
    assert_eq!(
        Message::new(Rpn { addr: RpnKind::TuneBankSel, val: (127, 127) })
            .unwrap()
            .message(ch)
            .len(),
        16
    );
}

#[test]
fn sysex_framing_is_checked() {
    let good = [0xF0u8, 0x01, 0xF7];
    let m = Message::new(SysEx { data: Cow::Borrowed(&good[..]) }).unwrap();
    assert_eq!(m.message(Channel::new(3).unwrap()), vec![0xF0, 0x01, 0xF7]);

    let no_start = [0x01u8, 0xF7];
    let no_end = [0xF0u8, 0x01];
    assert!(matches!(
        Message::new(SysEx { data: Cow::Borrowed(&no_start[..]) }),
        Err(MidiMessageError::Address(_))
    ));
    assert!(matches!(
        Message::new(SysEx { data: Cow::Borrowed(&no_end[..]) }),
        Err(MidiMessageError::Address(_))
    ));
    assert!(Message::new(SysEx { data: Cow::Owned(vec![]) }).is_err());
    assert!(Message::new(SysEx { data: Cow::Owned(vec![0xF0]) }).is_err());
    assert!(Message::new(SysEx { data: Cow::Owned(vec![0xF0, 0xF7]) }).is_ok());
}

#[test]
fn sysex_update_keeps_old_payload_on_error() {
    let first = [0xF0u8, 0x10, 0xF7];
    let second = [0xF0u8, 0x20, 0x21, 0xF7];
    let bad = [0xF0u8, 0x20];
    let ch = Channel::new(0).unwrap();
    let mut m = Message::new(SysEx { data: Cow::Borrowed(&first[..]) }).unwrap();
    let err = m.update(&bad).unwrap_err();
    assert_eq!(err, "Invalid address: SysEx 2 bytes");
    assert_eq!(m.message(ch), vec![0xF0, 0x10, 0xF7]);
    m.update(&second).unwrap();
    assert_eq!(m.message(ch), vec![0xF0, 0x20, 0x21, 0xF7]);
}

#[test]
fn construction_names_the_bad_field() {
    match Message::new(Cc { addr: 128, val: 200 }) {
        Err(MidiMessageError::Address(s)) => assert_eq!(s, "Invalid address: 128"),
        other => panic!("unexpected: {:?}", other.map(|_| ())),
    }
    match Message::new(Cc { addr: 3, val: 200 }) {
        Err(MidiMessageError::Value(s)) => assert_eq!(s, "Invalid value: 200"),
        other => panic!("unexpected: {:?}", other.map(|_| ())),
    }
    match Message::new(NoteOn { note: 60, velo: 128 }) {
        Err(MidiMessageError::Value(s)) => assert_eq!(s, "Invalid value: Note: 60, Velo: 128"),
        other => panic!("unexpected: {:?}", other.map(|_| ())),
    }
    match Message::new(NoteOff { note: 255 }) {
        Err(MidiMessageError::Address(s)) => assert_eq!(s, "Invalid address: Note: 255"),
        other => panic!("unexpected: {:?}", other.map(|_| ())),
    }
    match Message::new(Nrpn { addr: (1, 130), val: (0, 0) }) {
        Err(MidiMessageError::Address(s)) => assert_eq!(s, "Invalid address: 1 130"),
        other => panic!("unexpected: {:?}", other.map(|_| ())),
    }
    match Message::new(Rpn { addr: RpnKind::FineTune, val: (128, 0) }) {
        Err(MidiMessageError::Value(s)) => assert_eq!(s, "Invalid value: 128 0"),
        other => panic!("unexpected: {:?}", other.map(|_| ())),
    }
}

#[test]
fn failed_updates_leave_message_unchanged() {
    let ch = Channel::new(2).unwrap();

    let mut cc = Message::new(Cc { addr: 10, val: 20 }).unwrap();
    assert_eq!(cc.update_value(128).unwrap_err(), "Invalid value: 128");
    assert_eq!(cc.update(200, 5).unwrap_err(), "Invalid address: 200");
    assert_eq!(cc.update(200, 200).unwrap_err(), "Invalid value: 200");
    assert_eq!(cc.message(ch), vec![0xB2, 10, 20]);
    cc.update(11, 21).unwrap();
    assert_eq!(cc.message(ch), vec![0xB2, 11, 21]);

    let mut note = Message::new(NoteOn { note: 60, velo: 90 }).unwrap();
    assert_eq!(note.update_note(128).unwrap_err(), "Invalid address: Note: 128");
    assert_eq!(note.update_velocity(255).unwrap_err(), "Invalid value: Note: 60, Velo: 255");
    assert!(note.update(61, 128).is_err());
    assert_eq!(note.message(ch), vec![0x92, 60, 90]);
    note.update_note(62).unwrap();
    note.update_velocity(1).unwrap();
    assert_eq!(note.message(ch), vec![0x92, 62, 1]);
    note.update(63, 2).unwrap();
    assert_eq!(note.message(ch), vec![0x92, 63, 2]);

    let mut nrpn = Message::new(Nrpn { addr: (1, 2), val: (3, 4) }).unwrap();
    assert_eq!(nrpn.update_value(&(3, 200)).unwrap_err(), "Invalid value: 3 200");
    assert_eq!(nrpn.update(&(128, 0), &(5, 6)).unwrap_err(), "Invalid address: 128 0");
    assert_eq!(nrpn.kind().addr, (1, 2));
    assert_eq!(nrpn.kind().val, (3, 4));
    nrpn.update(&(7, 8), &(9, 10)).unwrap();
    assert_eq!(nrpn.message(ch)[2], 7);
    assert_eq!(nrpn.message(ch)[11], 10);
    nrpn.update_value(&(11, 12)).unwrap();
    assert_eq!(nrpn.kind().val, (11, 12));

    let mut rpn = Message::new(Rpn { addr: RpnKind::CoarseTune, val: (64, 0) }).unwrap();
    assert_eq!(rpn.update_value(&(64, 128)).unwrap_err(), "Invalid value: 64 128");
    assert!(rpn.update(&RpnKind::FineTune, &(200, 0)).is_err());
    assert_eq!(rpn.message(ch)[4], 0x02);
    rpn.update(&RpnKind::TuneProgChange, &(1, 1)).unwrap();
    assert_eq!(rpn.message(ch)[4], 0x03);
    rpn.update_value(&(5, 6)).unwrap();
    assert_eq!(rpn.kind().val, (5, 6));
}

#[test]
fn sending_twice_gives_same_bytes() {
    let ch = Channel::new(4).unwrap();
    let m = Message::new(Nrpn { addr: (20, 30), val: (40, 50) }).unwrap();
    assert_eq!(m.message(ch), m.message(ch));
    let data = [0xF0u8, 0x7E, 0x00, 0xF7];
    let s = Message::new(SysEx { data: Cow::Borrowed(&data[..]) }).unwrap();
    assert_eq!(s.message(ch), s.message(ch));
}

#[test]
fn fourteen_bit_split() {
    assert_eq!(Nrpn::split(0), Ok((0, 0)));
    assert_eq!(Nrpn::split(300), Ok((2, 44)));
    assert_eq!(Rpn::split(16383), Ok((127, 127)));
    assert_eq!(Nrpn::split(16384), Err(FourteenBitError { value: 16384 }));
    assert_eq!(Rpn::split(u16::MAX), Err(FourteenBitError { value: u16::MAX }));
}

#[test]
fn kinds_describe_themselves() {
    assert_eq!(Cc { addr: 0, val: 127 }.repr(), "127");
    assert_eq!(Cc { addr: 0, val: 127 }.repr_addr(), "0");
    assert_eq!(NoteOn { note: 60, velo: 100 }.repr(), "Note: 60, Velo: 100");
    assert_eq!(NoteOff { note: 60 }.repr(), "Note: 60, Velo: 64");
    assert_eq!(NoteOff { note: 9 }.repr_addr(), "Note: 9");
    assert_eq!(Nrpn { addr: (1, 2), val: (30, 40) }.repr(), "30 40");
    assert_eq!(Rpn { addr: RpnKind::ModDepthRange, val: (0, 0) }.repr_addr(), "ModDepthRange");
    let data = [0xF0u8, 0x01, 0xF7];
    let s = SysEx { data: Cow::Borrowed(&data[..]) };
    assert_eq!(s.repr(), "[240, 1, 247]");
    assert_eq!(s.repr_addr(), "SysEx 3 bytes");
    assert_eq!(SysEx { data: Cow::Owned(vec![]) }.repr(), "[]");
}
