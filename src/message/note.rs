use vstd::prelude::*;
use crate::consts::{DEFAULT_NOTE_OFF_VEL, NOTE_OFF, NOTE_ON};
use crate::message::{Message, MessageKind, address_error_text, value_error_text};
use crate::text::{decimal, join, joined, push_decimal, push_part};
use crate::util::Channel;

verus! {

/// Bytes of a Note-On message.
pub open spec fn note_on_bytes(ch: u8, note: u8, velo: u8) -> Seq<u8> {
    seq![NOTE_ON | ch, note, velo]
}

/// Bytes of a Note-Off message; its velocity is always `DEFAULT_NOTE_OFF_VEL`.
pub open spec fn note_off_bytes(ch: u8, note: u8) -> Seq<u8> {
    seq![NOTE_OFF | ch, note, DEFAULT_NOTE_OFF_VEL]
}

/// Text naming a note.
pub open spec fn note_text(note: u8) -> Seq<char> {
    "Note: "@ + decimal(note as nat)
}

/// Text naming a note and its velocity.
pub open spec fn note_velo_text(note: u8, velo: u8) -> Seq<char> {
    "Note: "@ + decimal(note as nat) + ", Velo: "@ + decimal(velo as nat)
}

fn note_string(note: u8) -> (r: String)
    ensures
        r@ == note_text(note),
{
    let mut parts: Vec<&str> = Vec::new();
    assert(joined(parts@) == Seq::<char>::empty());
    push_part(&mut parts, "Note: ");
    push_decimal(&mut parts, note as u64);
    join(&parts)
}

fn note_velo_string(note: u8, velo: u8) -> (r: String)
    ensures
        r@ == note_velo_text(note, velo),
{
    let mut parts: Vec<&str> = Vec::new();
    assert(joined(parts@) == Seq::<char>::empty());
    push_part(&mut parts, "Note: ");
    push_decimal(&mut parts, note as u64);
    push_part(&mut parts, ", Velo: ");
    push_decimal(&mut parts, velo as u64);
    join(&parts)
}

/// Note-On message: note number and velocity.
#[derive(Clone, Copy, Debug)]
pub struct NoteOn {
    pub note: u8,
    pub velo: u8,
}

/// Note-Off message: note number; the velocity is fixed.
#[derive(Clone, Copy, Debug)]
pub struct NoteOff {
    pub note: u8,
}

impl MessageKind for NoteOn {
    open spec fn wire(&self, ch: u8) -> Seq<u8> {
        note_on_bytes(ch, self.note, self.velo)
    }

    open spec fn address_ok(&self) -> bool {
        self.note < 128
    }

    open spec fn value_ok(&self) -> bool {
        self.velo < 128
    }

    open spec fn value_text(&self) -> Seq<char> {
        note_velo_text(self.note, self.velo)
    }

    open spec fn address_text(&self) -> Seq<char> {
        note_text(self.note)
    }

    fn to_bytes(&self, ch: Channel) -> (r: Vec<u8>) {
        vec![NOTE_ON | ch.value(), self.note, self.velo]
    }

    fn validate_address(&self) -> (r: bool) {
        self.note < 128
    }

    fn validate_value(&self) -> (r: bool) {
        self.velo < 128
    }

    fn repr(&self) -> (r: String) {
        note_velo_string(self.note, self.velo)
    }

    fn repr_addr(&self) -> (r: String) {
        note_string(self.note)
    }
}

impl MessageKind for NoteOff {
    open spec fn wire(&self, ch: u8) -> Seq<u8> {
        note_off_bytes(ch, self.note)
    }

    open spec fn address_ok(&self) -> bool {
        self.note < 128
    }

    open spec fn value_ok(&self) -> bool {
        DEFAULT_NOTE_OFF_VEL < 128
    }

    open spec fn value_text(&self) -> Seq<char> {
        note_velo_text(self.note, DEFAULT_NOTE_OFF_VEL)
    }

    open spec fn address_text(&self) -> Seq<char> {
        note_text(self.note)
    }

    fn to_bytes(&self, ch: Channel) -> (r: Vec<u8>) {
        vec![NOTE_OFF | ch.value(), self.note, DEFAULT_NOTE_OFF_VEL]
    }

    fn validate_address(&self) -> (r: bool) {
        self.note < 128
    }

    fn validate_value(&self) -> (r: bool) {
        DEFAULT_NOTE_OFF_VEL < 128
    }

    fn repr(&self) -> (r: String) {
        note_velo_string(self.note, DEFAULT_NOTE_OFF_VEL)
    }

    fn repr_addr(&self) -> (r: String) {
        note_string(self.note)
    }
}

impl Message<NoteOn> {
    /// Sets the velocity, refusing one above 127.
    pub fn update_velocity(&mut self, velo: u8) -> (r: Result<(), String>)
        ensures
            r is Ok <==> velo < 128,
            r is Ok ==> final(self)@ == (NoteOn { note: old(self)@.note, velo }),
            r is Err ==> final(self)@ == old(self)@,
            r matches Err(s) ==> s@ == value_error_text(NoteOn { note: old(self)@.note, velo }),
    {
        let note = self.kind().note;
        self.revalidate(NoteOn { note, velo })
    }

    /// Sets the note number, refusing one above 127.
    pub fn update_note(&mut self, note: u8) -> (r: Result<(), String>)
        ensures
            r is Ok <==> note < 128,
            r is Ok ==> final(self)@ == (NoteOn { note, velo: old(self)@.velo }),
            r is Err ==> final(self)@ == old(self)@,
            r matches Err(s) ==> s@ == address_error_text(NoteOn { note, velo: old(self)@.velo }),
    {
        let velo = self.kind().velo;
        self.revalidate(NoteOn { note, velo })
    }

    /// Sets note and velocity together, or neither: the velocity is checked
    /// first, then the note.
    pub fn update(&mut self, note: u8, velo: u8) -> (r: Result<(), String>)
        ensures
            r is Ok <==> note < 128 && velo < 128,
            r is Ok ==> final(self)@ == (NoteOn { note, velo }),
            r is Err ==> final(self)@ == old(self)@,
            r matches Err(s) ==> s@ == if velo >= 128 {
                value_error_text(NoteOn { note, velo })
            } else {
                address_error_text(NoteOn { note, velo })
            },
    {
        self.revalidate(NoteOn { note, velo })
    }
}

} // verus!
