use vstd::prelude::*;
use crate::consts::{CC, NULL_SELECT, RPN_LSB, RPN_MSB, RPN_VAL_LSB, RPN_VAL_MSB};
use crate::message::{FourteenBit, Message, MessageKind, value_error_text};
use crate::message::nrpn::{pair_ok, pair_string, pair_text};
use crate::util::Channel;

verus! {

/// The registered parameters that an RPN message can select.
#[derive(Debug, Clone, Copy)]
pub enum RpnKind {
    PitchBend,
    FineTune,
    CoarseTune,
    TuneProgChange,
    TuneBankSel,
    ModDepthRange,
}

/// Parameter number of a registered parameter.
pub open spec fn rpn_number(k: RpnKind) -> u8 {
    match k {
        RpnKind::PitchBend => 0x00,
        RpnKind::FineTune => 0x01,
        RpnKind::CoarseTune => 0x02,
        RpnKind::TuneProgChange => 0x03,
        RpnKind::TuneBankSel => 0x04,
        RpnKind::ModDepthRange => 0x05,
    }
}

/// Name of a registered parameter.
pub open spec fn rpn_name(k: RpnKind) -> Seq<char> {
    match k {
        RpnKind::PitchBend => "PitchBend"@,
        RpnKind::FineTune => "FineTune"@,
        RpnKind::CoarseTune => "CoarseTune"@,
        RpnKind::TuneProgChange => "TuneProgChange"@,
        RpnKind::TuneBankSel => "TuneBankSel"@,
        RpnKind::ModDepthRange => "ModDepthRange"@,
    }
}

impl RpnKind {
    /// The parameter number that selects this parameter.
    pub fn number(self) -> (r: u8)
        ensures
            r == rpn_number(self),
    {
        match self {
            RpnKind::PitchBend => 0x00,
            RpnKind::FineTune => 0x01,
            RpnKind::CoarseTune => 0x02,
            RpnKind::TuneProgChange => 0x03,
            RpnKind::TuneBankSel => 0x04,
            RpnKind::ModDepthRange => 0x05,
        }
    }

    /// The name of this parameter.
    pub fn name(self) -> (r: &'static str)
        ensures
            r@ == rpn_name(self),
    {
        match self {
            RpnKind::PitchBend => "PitchBend",
            RpnKind::FineTune => "FineTune",
            RpnKind::CoarseTune => "CoarseTune",
            RpnKind::TuneProgChange => "TuneProgChange",
            RpnKind::TuneBankSel => "TuneBankSel",
            RpnKind::ModDepthRange => "ModDepthRange",
        }
    }
}

/// Bytes of an RPN message: select the parameter, enter coarse and fine
/// data, then select the null parameter. Within each group the status byte is
/// sent once and the second controller runs on it.
pub open spec fn rpn_bytes(ch: u8, target: RpnKind, val: (u8, u8)) -> Seq<u8> {
    seq![
        CC | ch, RPN_MSB, 0x00, RPN_LSB, rpn_number(target),
        CC | ch, RPN_VAL_MSB, val.0, RPN_VAL_LSB, val.1,
        CC | ch, RPN_MSB, NULL_SELECT,
        CC | ch, RPN_LSB, NULL_SELECT,
    ]
}

/// Registered Parameter Number message: a parameter chosen from `RpnKind`
/// and a coarse/fine value.
#[derive(Clone, Copy, Debug)]
pub struct Rpn {
    pub addr: RpnKind,
    pub val: (u8, u8),
}

impl MessageKind for Rpn {
    open spec fn wire(&self, ch: u8) -> Seq<u8> {
        rpn_bytes(ch, self.addr, self.val)
    }

    open spec fn address_ok(&self) -> bool {
        true
    }

    open spec fn value_ok(&self) -> bool {
        pair_ok(self.val)
    }

    open spec fn value_text(&self) -> Seq<char> {
        pair_text(self.val)
    }

    open spec fn address_text(&self) -> Seq<char> {
        rpn_name(self.addr)
    }

    fn to_bytes(&self, ch: Channel) -> (r: Vec<u8>) {
        let status = CC | ch.value();
        vec![
            status, RPN_MSB, 0x00, RPN_LSB, self.addr.number(),
            status, RPN_VAL_MSB, self.val.0, RPN_VAL_LSB, self.val.1,
            status, RPN_MSB, NULL_SELECT,
            status, RPN_LSB, NULL_SELECT,
        ]
    }

    fn validate_address(&self) -> (r: bool) {
        true
    }

    fn validate_value(&self) -> (r: bool) {
        let (coarse, fine) = self.val;
        coarse < 128 && fine < 128
    }

    fn repr(&self) -> (r: String) {
        pair_string(self.val)
    }

    fn repr_addr(&self) -> (r: String) {
        self.addr.name().to_owned()
    }
}

impl FourteenBit for Rpn {}

impl Message<Rpn> {
    /// Sets the coarse/fine value, refusing a byte above 127.
    pub fn update_value(&mut self, val: &(u8, u8)) -> (r: Result<(), String>)
        ensures
            r is Ok <==> pair_ok(*val),
            r is Ok ==> final(self)@ == (Rpn { addr: old(self)@.addr, val: *val }),
            r is Err ==> final(self)@ == old(self)@,
            r matches Err(s) ==> s@ == value_error_text(Rpn { addr: old(self)@.addr, val: *val }),
    {
        let addr = self.kind().addr;
        self.revalidate(Rpn { addr, val: *val })
    }

    /// Sets parameter and value together, or neither. Every parameter of
    /// `RpnKind` is legal, so only the value can be refused.
    pub fn update(&mut self, addr: &RpnKind, val: &(u8, u8)) -> (r: Result<(), String>)
        ensures
            r is Ok <==> pair_ok(*val),
            r is Ok ==> final(self)@ == (Rpn { addr: *addr, val: *val }),
            r is Err ==> final(self)@ == old(self)@,
            r matches Err(s) ==> s@ == value_error_text(Rpn { addr: *addr, val: *val }),
    {
        self.revalidate(Rpn { addr: *addr, val: *val })
    }
}

} // verus!
