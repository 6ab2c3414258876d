use vstd::prelude::*;
use crate::consts::{CC, NRPN_LSB, NRPN_MSB, NRPN_VAL_LSB, NRPN_VAL_MSB, NULL_SELECT};
use crate::message::{FourteenBit, Message, MessageKind, address_error_text, value_error_text};
use crate::text::{decimal, join, joined, push_decimal, push_part};
use crate::util::Channel;

verus! {

/// Bytes of an NRPN message: select the parameter, enter coarse and fine
/// data, then select the null parameter so that no receiver stays latched.
pub open spec fn nrpn_bytes(ch: u8, addr: (u8, u8), val: (u8, u8)) -> Seq<u8> {
    seq![
        CC | ch, NRPN_MSB, addr.0,
        CC | ch, NRPN_LSB, addr.1,
        CC | ch, NRPN_VAL_MSB, val.0,
        CC | ch, NRPN_VAL_LSB, val.1,
        CC | ch, NRPN_MSB, NULL_SELECT,
        CC | ch, NRPN_LSB, NULL_SELECT,
    ]
}

/// Text of a pair of data bytes: the two numbers, a space between.
pub open spec fn pair_text(p: (u8, u8)) -> Seq<char> {
    decimal(p.0 as nat) + " "@ + decimal(p.1 as nat)
}

/// Whether both bytes of a pair are 7-bit data bytes.
pub open spec fn pair_ok(p: (u8, u8)) -> bool {
    p.0 < 128 && p.1 < 128
}

pub(crate) fn pair_string(p: (u8, u8)) -> (r: String)
    ensures
        r@ == pair_text(p),
{
    let mut parts: Vec<&str> = Vec::new();
    assert(joined(parts@) == Seq::<char>::empty());
    push_decimal(&mut parts, p.0 as u64);
    push_part(&mut parts, " ");
    push_decimal(&mut parts, p.1 as u64);
    join(&parts)
}

/// Non-Registered Parameter Number message: a two-byte address and a
/// coarse/fine value.
#[derive(Clone, Copy, Debug)]
pub struct Nrpn {
    pub addr: (u8, u8),
    pub val: (u8, u8),
}

impl MessageKind for Nrpn {
    open spec fn wire(&self, ch: u8) -> Seq<u8> {
        nrpn_bytes(ch, self.addr, self.val)
    }

    open spec fn address_ok(&self) -> bool {
        pair_ok(self.addr)
    }

    open spec fn value_ok(&self) -> bool {
        pair_ok(self.val)
    }

    open spec fn value_text(&self) -> Seq<char> {
        pair_text(self.val)
    }

    open spec fn address_text(&self) -> Seq<char> {
        pair_text(self.addr)
    }

    fn to_bytes(&self, ch: Channel) -> (r: Vec<u8>) {
        let status = CC | ch.value();
        vec![
            status, NRPN_MSB, self.addr.0,
            status, NRPN_LSB, self.addr.1,
            status, NRPN_VAL_MSB, self.val.0,
            status, NRPN_VAL_LSB, self.val.1,
            status, NRPN_MSB, NULL_SELECT,
            status, NRPN_LSB, NULL_SELECT,
        ]
    }

    fn validate_address(&self) -> (r: bool) {
        let (msb, lsb) = self.addr;
        msb < 128 && lsb < 128
    }

    fn validate_value(&self) -> (r: bool) {
        let (coarse, fine) = self.val;
        coarse < 128 && fine < 128
    }

    fn repr(&self) -> (r: String) {
        pair_string(self.val)
    }

    fn repr_addr(&self) -> (r: String) {
        pair_string(self.addr)
    }
}

impl FourteenBit for Nrpn {}

impl Message<Nrpn> {
    /// Sets the coarse/fine value, refusing a byte above 127.
    pub fn update_value(&mut self, val: &(u8, u8)) -> (r: Result<(), String>)
        ensures
            r is Ok <==> pair_ok(*val),
            r is Ok ==> final(self)@ == (Nrpn { addr: old(self)@.addr, val: *val }),
            r is Err ==> final(self)@ == old(self)@,
            r matches Err(s) ==> s@ == value_error_text(Nrpn { addr: old(self)@.addr, val: *val }),
    {
        let addr = self.kind().addr;
        self.revalidate(Nrpn { addr, val: *val })
    }

    /// Sets address and value together, or neither: the value is checked
    /// first, then the address.
    pub fn update(&mut self, addr: &(u8, u8), val: &(u8, u8)) -> (r: Result<(), String>)
        ensures
            r is Ok <==> pair_ok(*addr) && pair_ok(*val),
            r is Ok ==> final(self)@ == (Nrpn { addr: *addr, val: *val }),
            r is Err ==> final(self)@ == old(self)@,
            r matches Err(s) ==> s@ == if !pair_ok(*val) {
                value_error_text(Nrpn { addr: *addr, val: *val })
            } else {
                address_error_text(Nrpn { addr: *addr, val: *val })
            },
    {
        self.revalidate(Nrpn { addr: *addr, val: *val })
    }
}

} // verus!
