use vstd::prelude::*;
use std::borrow::Cow;
use vstd::slice::slice_to_vec;
use crate::consts::{SYSEX_BEGIN, SYSEX_END};
use crate::message::{Message, MessageKind, address_error_text};
use crate::text::{decimal, join, joined, push_decimal, push_part};
use crate::util::Channel;

verus! {

/// Whether `data` is framed as a System-Exclusive message: it starts with
/// `SYSEX_BEGIN` and ends with `SYSEX_END`.
pub open spec fn sysex_framed(data: Seq<u8>) -> bool {
    data.len() > 0 && data[0] == SYSEX_BEGIN && data.last() == SYSEX_END
}

/// The numbers of `data` in decimal, separated by ", ".
pub open spec fn byte_items_text(data: Seq<u8>) -> Seq<char>
    decreases data.len(),
{
    if data.len() == 0 {
        Seq::empty()
    } else if data.len() == 1 {
        decimal(data[0] as nat)
    } else {
        byte_items_text(data.drop_last()) + ", "@ + decimal(data.last() as nat)
    }
}

/// Text of a byte buffer as a bracketed list of numbers.
pub open spec fn byte_list_text(data: Seq<u8>) -> Seq<char> {
    "["@ + byte_items_text(data) + "]"@
}

/// Text giving the size of a System-Exclusive message.
pub open spec fn sysex_size_text(len: nat) -> Seq<char> {
    "SysEx "@ + decimal(len) + " bytes"@
}

/// System-Exclusive message: an opaque, manufacturer-defined payload, sent as
/// it stands.
#[derive(Debug)]
pub struct SysEx<'a> {
    pub data: Cow<'a, [u8]>,
}

impl<'a> SysEx<'a> {
    /// The payload as a slice.
    pub fn bytes(&self) -> (r: &[u8])
        ensures
            r@ == self.data@,
    {
        match &self.data {
            Cow::Borrowed(b) => b,
            Cow::Owned(v) => v.as_slice(),
        }
    }
}

impl<'a> MessageKind for SysEx<'a> {
    open spec fn wire(&self, ch: u8) -> Seq<u8> {
        self.data@
    }

    open spec fn address_ok(&self) -> bool {
        sysex_framed(self.data@)
    }

    open spec fn value_ok(&self) -> bool {
        true
    }

    open spec fn value_text(&self) -> Seq<char> {
        byte_list_text(self.data@)
    }

    open spec fn address_text(&self) -> Seq<char> {
        sysex_size_text(self.data@.len())
    }

    fn to_bytes(&self, _ch: Channel) -> (r: Vec<u8>) {
        slice_to_vec(self.bytes())
    }

    fn validate_address(&self) -> (r: bool) {
        let data = self.bytes();
        match (data.first(), data.last()) {
            (Some(first), Some(last)) => *first == SYSEX_BEGIN && *last == SYSEX_END,
            _ => false,
        }
    }

    fn validate_value(&self) -> (r: bool) {
        true
    }

    fn repr(&self) -> (r: String) {
        let data = self.bytes();
        let mut parts: Vec<&str> = Vec::new();
        assert(joined(parts@) == Seq::<char>::empty());
        push_part(&mut parts, "[");
        let mut i: usize = 0;
        while i < data.len()
            invariant
                i <= data@.len(),
                joined(parts@) == "["@ + byte_items_text(data@.subrange(0, i as int)),
            decreases data@.len() - i,
        {
            let ghost done = data@.subrange(0, i as int);
            let ghost next = data@.subrange(0, i + 1);
            assert(next.drop_last() == done);
            if i > 0 {
                push_part(&mut parts, ", ");
            }
            push_decimal(&mut parts, data[i] as u64);
            assert(byte_items_text(next) == byte_items_text(done) + (if i > 0 {
                ", "@
            } else {
                Seq::empty()
            }) + decimal(data@[i as int] as nat));
            i = i + 1;
        }
        assert(data@.subrange(0, data@.len() as int) == data@);
        push_part(&mut parts, "]");
        join(&parts)
    }

    fn repr_addr(&self) -> (r: String) {
        let mut parts: Vec<&str> = Vec::new();
        assert(joined(parts@) == Seq::<char>::empty());
        push_part(&mut parts, "SysEx ");
        push_decimal(&mut parts, self.bytes().len() as u64);
        push_part(&mut parts, " bytes");
        join(&parts)
    }
}

impl<'a> Message<SysEx<'a>> {
    /// Replaces the payload, refusing one that is not framed by
    /// `SYSEX_BEGIN` and `SYSEX_END`.
    pub fn update(&mut self, data: &'a [u8]) -> (r: Result<(), String>)
        ensures
            r is Ok <==> sysex_framed(data@),
            r is Ok ==> final(self)@.data@ == data@,
            r is Err ==> final(self)@ == old(self)@,
            r matches Err(s) ==> s@ == address_error_text(SysEx { data: Cow::Borrowed(data) }),
    {
        self.revalidate(SysEx { data: Cow::Borrowed(data) })
    }
}

} // verus!
