use vstd::prelude::*;

verus! {

/// A MIDI channel, 0 to 15.
///
/// The only way to obtain one is `Channel::new`, which refuses anything wider
/// than four bits, so a status byte built from it keeps its high nibble.
#[derive(Clone, Copy, Debug)]
pub struct Channel(u8);

impl View for Channel {
    type V = u8;

    closed spec fn view(&self) -> u8 {
        self.0
    }
}

impl Channel {
    #[verifier::type_invariant]
    closed spec fn in_range(self) -> bool {
        self.0 < 16
    }

    /// Accepts a channel number in 0..=15 and refuses every other byte.
    pub fn new(channel: u8) -> (r: Result<Self, String>)
        ensures
            channel < 16 <==> r is Ok,
            r matches Ok(c) ==> c@ == channel,
    {
        if channel & 0b1111_0000 == 0 {
            assert(channel & 0b1111_0000 == 0 <==> channel < 16) by (bit_vector);
            Ok(Channel(channel))
        } else {
            assert(channel & 0b1111_0000 == 0 <==> channel < 16) by (bit_vector);
            Err("Channel is not a value between 0 and 15.".to_string())
        }
    }

    /// The channel number.
    pub fn value(self) -> (r: u8)
        ensures
            r == self@,
            r < 16,
    {
        proof {
            use_type_invariant(&self);
        }
        self.0
    }
}

} // verus!
