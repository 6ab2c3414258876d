//! Typed MIDI messages: each kind validates its own fields and lays itself out
//! as wire bytes; `Message` admits a kind only when both checks pass.
use vstd::prelude::*;
use crate::text::{join, joined};
use crate::consts::{
    CC, DEFAULT_NOTE_OFF_VEL, NOTE_OFF, NOTE_ON, NRPN_LSB, NRPN_MSB, NRPN_VAL_LSB, NRPN_VAL_MSB,
    NULL_SELECT, RPN_LSB, RPN_MSB, RPN_VAL_LSB, RPN_VAL_MSB,
};
use crate::util::Channel;
use cc::cc_bytes;
use note::{note_off_bytes, note_on_bytes};
use nrpn::nrpn_bytes;
use rpn::{RpnKind, rpn_bytes};

pub mod cc;
pub mod note;
pub mod nrpn;
pub mod rpn;
pub mod sysex;

verus! {

/// What every kind of MIDI message knows about itself.
pub trait MessageKind: Sized {
    /// The bytes that this message puts on the wire on channel `ch`.
    spec fn wire(&self, ch: u8) -> Seq<u8>;

    /// Whether the address part (note, controller, parameter, framing) is legal.
    spec fn address_ok(&self) -> bool;

    /// Whether the value part is legal.
    spec fn value_ok(&self) -> bool;

    /// Human-readable text of the value part.
    spec fn value_text(&self) -> Seq<char>;

    /// Human-readable text of the address part.
    spec fn address_text(&self) -> Seq<char>;

    /// Returns a MIDI message formatted in bytes.
    fn to_bytes(&self, ch: Channel) -> (r: Vec<u8>)
        ensures
            r@ == self.wire(ch@),
    ;

    /// Validates the address part of the message.
    fn validate_address(&self) -> (r: bool)
        ensures
            r == self.address_ok(),
    ;

    /// Validates the value part of the message.
    fn validate_value(&self) -> (r: bool)
        ensures
            r == self.value_ok(),
    ;

    /// A string representation of the value part.
    fn repr(&self) -> (r: String)
        ensures
            r@ == self.value_text(),
    ;

    /// A string representation of the address part.
    fn repr_addr(&self) -> (r: String)
        ensures
            r@ == self.address_text(),
    ;
}

/// Why a message was refused: the text names the rejected part and its value.
#[derive(Debug, Clone)]
pub enum MidiMessageError {
    Address(String),
    Value(String),
}

/// Text of the error for a rejected address.
pub open spec fn address_error_text<T: MessageKind>(kind: T) -> Seq<char> {
    "Invalid address: "@ + kind.address_text()
}

/// Text of the error for a rejected value.
pub open spec fn value_error_text<T: MessageKind>(kind: T) -> Seq<char> {
    "Invalid value: "@ + kind.value_text()
}

/// `a` followed by `b`.
pub(crate) fn concat2(a: &str, b: &str) -> (r: String)
    ensures
        r@ == a@ + b@,
{
    let parts: Vec<&str> = vec![a, b];
    let ghost first = parts@.drop_last();
    assert(first.drop_last() =~= Seq::<&str>::empty());
    assert(joined(first.drop_last()) == Seq::<char>::empty());
    assert(joined(first) =~= a@);
    join(&parts)
}

fn address_error<T: MessageKind>(kind: &T) -> (r: String)
    ensures
        r@ == address_error_text(*kind),
{
    let text = kind.repr_addr();
    concat2("Invalid address: ", text.as_str())
}

fn value_error<T: MessageKind>(kind: &T) -> (r: String)
    ensures
        r@ == value_error_text(*kind),
{
    let text = kind.repr();
    concat2("Invalid value: ", text.as_str())
}

/// Reason for a number that does not fit in fourteen bits.
#[derive(Debug, Clone, Copy, PartialEq, Eq)]
pub struct FourteenBitError {
    pub value: u16,
}

/// Coarse half of a fourteen-bit number.
pub open spec fn coarse_of(num: u16) -> u8 {
    (num >> 7u16) as u8
}

/// Fine half of a fourteen-bit number.
pub open spec fn fine_of(num: u16) -> u8 {
    (num & 0x7Fu16) as u8
}

/// Kinds whose value is a fourteen-bit number sent as a coarse and a fine byte.
pub trait FourteenBit {
    /// Splits `num` into its coarse seven bits and its fine seven bits, or
    /// refuses it when it needs more than fourteen bits.
    fn split(num: u16) -> (r: Result<(u8, u8), FourteenBitError>)
        ensures
            num < 16384 <==> r is Ok,
            r matches Ok(p) ==> p == (coarse_of(num), fine_of(num)) && p.0 < 128 && p.1 < 128
                && p.0 as int * 128 + p.1 as int == num as int,
            r matches Err(e) ==> e.value == num,
    {
        if num >= 16384 {
            Err(FourteenBitError { value: num })
        } else {
            assert(num < 16384 ==> (num >> 7u16) < 128 && (num & 0x7Fu16) < 128
                && (num >> 7u16) * 128 + (num & 0x7Fu16) == num) by (bit_vector);
            Ok(((num >> 7) as u8, (num & 0b0111_1111) as u8))
        }
    }
}

/// A message of kind `T` whose address and value have been validated.
#[derive(Debug)]
pub struct Message<T: MessageKind> {
    kind: T,
}

impl<T: MessageKind> View for Message<T> {
    type V = T;

    closed spec fn view(&self) -> T {
        self.kind
    }
}

impl<T: MessageKind> Message<T> {
    #[verifier::type_invariant]
    closed spec fn valid(self) -> bool {
        self.kind.address_ok() && self.kind.value_ok()
    }

    /// Admits `kind` when its address and then its value validate; the first
    /// check that fails names the error.
    pub fn new(kind: T) -> (r: Result<Self, MidiMessageError>)
        ensures
            r is Ok <==> kind.address_ok() && kind.value_ok(),
            r matches Ok(m) ==> m@ == kind,
            r matches Err(MidiMessageError::Address(s)) ==> !kind.address_ok() && s@
                == address_error_text(kind),
            r matches Err(MidiMessageError::Value(s)) ==> kind.address_ok() && !kind.value_ok()
                && s@ == value_error_text(kind),
    {
        if !kind.validate_address() {
            return Err(MidiMessageError::Address(address_error(&kind)));
        }
        if !kind.validate_value() {
            return Err(MidiMessageError::Value(value_error(&kind)));
        }
        Ok(Message { kind })
    }

    /// The validated kind inside.
    pub fn kind(&self) -> (r: &T)
        ensures
            *r == self@,
            r.address_ok(),
            r.value_ok(),
    {
        proof {
            use_type_invariant(self);
        }
        &self.kind
    }

    /// The bytes that sending this message on channel `ch` writes.
    pub fn message(&self, ch: Channel) -> (r: Vec<u8>)
        ensures
            r@ == self@.wire(ch@),
    {
        self.kind.to_bytes(ch)
    }

    /// Replaces the kind by `kind` when its value and then its address
    /// validate; otherwise leaves the message as it was.
    fn revalidate(&mut self, kind: T) -> (r: Result<(), String>)
        ensures
            r is Ok <==> kind.value_ok() && kind.address_ok(),
            r is Ok ==> final(self)@ == kind,
            r is Err ==> final(self)@ == old(self)@,
            r matches Err(s) ==> s@ == if !kind.value_ok() {
                value_error_text(kind)
            } else {
                address_error_text(kind)
            },
    {
        if !kind.validate_value() {
            return Err(value_error(&kind));
        }
        if !kind.validate_address() {
            return Err(address_error(&kind));
        }
        self.kind = kind;
        Ok(())
    }
}

/// Sending one message twice on one channel writes the same bytes both times.
pub proof fn lemma_send_repeatable<T: MessageKind>(
    m: &Message<T>,
    ch: Channel,
    first: Vec<u8>,
    second: Vec<u8>,
)
    requires
        call_ensures(Message::<T>::message, (m, ch), first),
        call_ensures(Message::<T>::message, (m, ch), second),
    ensures
        first@ == second@,
{
}

/// Every Note-On, Note-Off, Continuous-Controller, NRPN and RPN message whose
/// fields are 7-bit data bytes passes both checks of `Message::new`, and lays
/// out exactly as many bytes as its wire format has: 3, 3, 3, 18 and 16.
pub proof fn lemma_legal_fields_encode(ch: u8, a: u8, b: u8, c: u8, d: u8, target: RpnKind)
    requires
        a < 128,
        b < 128,
        c < 128,
        d < 128,
    ensures
        (note::NoteOn { note: a, velo: b }).address_ok(),
        (note::NoteOn { note: a, velo: b }).value_ok(),
        (note::NoteOn { note: a, velo: b }).wire(ch).len() == 3,
        (note::NoteOff { note: a }).address_ok(),
        (note::NoteOff { note: a }).value_ok(),
        (note::NoteOff { note: a }).wire(ch).len() == 3,
        (cc::Cc { addr: a, val: b }).address_ok(),
        (cc::Cc { addr: a, val: b }).value_ok(),
        (cc::Cc { addr: a, val: b }).wire(ch).len() == 3,
        (nrpn::Nrpn { addr: (a, b), val: (c, d) }).address_ok(),
        (nrpn::Nrpn { addr: (a, b), val: (c, d) }).value_ok(),
        (nrpn::Nrpn { addr: (a, b), val: (c, d) }).wire(ch).len() == 18,
        (rpn::Rpn { addr: target, val: (c, d) }).address_ok(),
        (rpn::Rpn { addr: target, val: (c, d) }).value_ok(),
        (rpn::Rpn { addr: target, val: (c, d) }).wire(ch).len() == 16,
{
}

// The functions below lay out raw messages without validating them: a byte
// above 127 that a caller passes goes on the wire as it is.

/// Bytes of a Continuous-Controller message.
pub fn cc(ch: Channel, addr: u8, val: u8) -> (r: Vec<u8>)
    ensures
        r@ == cc_bytes(ch@, addr, val),
{
    vec![CC | ch.value(), addr, val]
}

/// Bytes of a Non-Registered Parameter Number message, null selection included.
pub fn nrpn(ch: Channel, addr: (u8, u8), val: (u8, u8)) -> (r: Vec<u8>)
    ensures
        r@ == nrpn_bytes(ch@, addr, val),
{
    let status = CC | ch.value();
    vec![
        status, NRPN_MSB, addr.0,
        status, NRPN_LSB, addr.1,
        status, NRPN_VAL_MSB, val.0,
        status, NRPN_VAL_LSB, val.1,
        status, NRPN_MSB, NULL_SELECT,
        status, NRPN_LSB, NULL_SELECT,
    ]
}

/// Bytes of a Registered Parameter Number message for parameter `addr`,
/// null selection included.
pub fn rpn(ch: Channel, addr: &RpnKind, val: (u8, u8)) -> (r: Vec<u8>)
    ensures
        r@ == rpn_bytes(ch@, *addr, val),
{
    let status = CC | ch.value();
    vec![
        status, RPN_MSB, 0x00, RPN_LSB, addr.number(),
        status, RPN_VAL_MSB, val.0, RPN_VAL_LSB, val.1,
        status, RPN_MSB, NULL_SELECT,
        status, RPN_LSB, NULL_SELECT,
    ]
}

/// Bytes of a System-Exclusive message: the payload as given. A receiver
/// expects it to start with `SYSEX_BEGIN` and end with `SYSEX_END`.
pub fn sysex(data: &[u8]) -> (r: Vec<u8>)
    ensures
        r@ == data@,
{
    vstd::slice::slice_to_vec(data)
}

/// Bytes of a Note-On message.
pub fn note_on(ch: Channel, note: u8, velo: u8) -> (r: Vec<u8>)
    ensures
        r@ == note_on_bytes(ch@, note, velo),
{
    vec![NOTE_ON | ch.value(), note, velo]
}

/// Bytes of a Note-Off message; the velocity sent is `DEFAULT_NOTE_OFF_VEL`.
pub fn note_off(ch: Channel, note: u8) -> (r: Vec<u8>)
    ensures
        r@ == note_off_bytes(ch@, note),
{
    vec![NOTE_OFF | ch.value(), note, DEFAULT_NOTE_OFF_VEL]
}

} // verus!
