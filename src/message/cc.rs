use vstd::prelude::*;
use crate::consts::CC;
use crate::message::{Message, MessageKind, value_error_text, address_error_text};
use crate::text::{decimal, decimal_string};
use crate::util::Channel;

verus! {

/// Bytes of a Continuous-Controller message.
pub open spec fn cc_bytes(ch: u8, addr: u8, val: u8) -> Seq<u8> {
    seq![CC | ch, addr, val]
}

/// Continuous-Controller message: controller number and value.
#[derive(Clone, Copy, Debug)]
pub struct Cc {
    pub addr: u8,
    pub val: u8,
}

impl MessageKind for Cc {
    open spec fn wire(&self, ch: u8) -> Seq<u8> {
        cc_bytes(ch, self.addr, self.val)
    }

    open spec fn address_ok(&self) -> bool {
        self.addr < 128
    }

    open spec fn value_ok(&self) -> bool {
        self.val < 128
    }

    open spec fn value_text(&self) -> Seq<char> {
        decimal(self.val as nat)
    }

    open spec fn address_text(&self) -> Seq<char> {
        decimal(self.addr as nat)
    }

    fn to_bytes(&self, ch: Channel) -> (r: Vec<u8>) {
        vec![CC | ch.value(), self.addr, self.val]
    }

    fn validate_address(&self) -> (r: bool) {
        self.addr < 128
    }

    fn validate_value(&self) -> (r: bool) {
        self.val < 128
    }

    fn repr(&self) -> (r: String) {
        decimal_string(self.val as u64)
    }

    fn repr_addr(&self) -> (r: String) {
        decimal_string(self.addr as u64)
    }
}

impl Message<Cc> {
    /// Sets the controller value, refusing one above 127.
    pub fn update_value(&mut self, val: u8) -> (r: Result<(), String>)
        ensures
            r is Ok <==> val < 128,
            r is Ok ==> final(self)@ == (Cc { addr: old(self)@.addr, val }),
            r is Err ==> final(self)@ == old(self)@,
            r matches Err(s) ==> s@ == value_error_text(Cc { addr: old(self)@.addr, val }),
    {
        let addr = self.kind().addr;
        self.revalidate(Cc { addr, val })
    }

    /// Sets controller number and value together, or neither: the value is
    /// checked first, then the controller number.
    pub fn update(&mut self, addr: u8, val: u8) -> (r: Result<(), String>)
        ensures
            r is Ok <==> addr < 128 && val < 128,
            r is Ok ==> final(self)@ == (Cc { addr, val }),
            r is Err ==> final(self)@ == old(self)@,
            r matches Err(s) ==> s@ == if val >= 128 {
                value_error_text(Cc { addr, val })
            } else {
                address_error_text(Cc { addr, val })
            },
    {
        self.revalidate(Cc { addr, val })
    }
}

} // verus!
