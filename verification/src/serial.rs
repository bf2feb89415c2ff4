//! Serial link: a data byte, a control byte, and an optional injected
//! byte-exchange callback.  Starting a transfer (control write with both the
//! start and the internal-clock bit set) hands the data byte to the callback;
//! a byte handed back replaces the data register and raises the serial
//! interrupt-request bit.  Byte semantics beyond callback delivery are the
//! link partner's business and out of scope.

use vstd::prelude::*;

verus! {

/// Implemented by hosts that want to sit on the other end of the link.
pub trait SerialCallback {
    fn call(&mut self, value: u8) -> Option<u8>;
}

pub struct Serial {
    pub data: u8,
    pub control: u8,
    pub interrupt: u8,
    pub callback: Option<Box<dyn SerialCallback>>,
}

/// Mathematical image of the link: the attached callback itself has no
/// specification value, only its presence is visible.
#[verifier::ext_equal]
pub struct SerialView {
    pub data: u8,
    pub control: u8,
    pub interrupt: u8,
    pub linked: bool,
}

impl View for Serial {
    type V = SerialView;

    open spec fn view(&self) -> SerialView {
        SerialView {
            data: self.data,
            control: self.control,
            interrupt: self.interrupt,
            linked: self.callback is Some,
        }
    }
}

impl SerialView {
    pub open spec fn spec_rb(self, address: u16) -> u8 {
        if address == 0xFF01 {
            self.data
        } else {
            self.control
        }
    }
}

impl Serial {

    pub fn new() -> (r: Serial)
        ensures
            r.data == 0,
            r.control == 0,
            r.interrupt == 0,
            r.callback is None,
    {
        Serial { data: 0, control: 0, interrupt: 0, callback: None }
    }

    pub fn new_with_callback(cb: Box<dyn SerialCallback>) -> (r: Serial)
        ensures
            r.data == 0,
            r.control == 0,
            r.interrupt == 0,
            r.callback is Some,
    {
        Serial { data: 0, control: 0, interrupt: 0, callback: Some(cb) }
    }

    pub fn set_callback(&mut self, cb: Box<dyn SerialCallback>)
        ensures
            final(self).data == old(self).data,
            final(self).control == old(self).control,
            final(self).interrupt == old(self).interrupt,
            final(self).callback is Some,
    {
        self.callback = Some(cb);
    }

    pub fn unset_callback(&mut self)
        ensures
            final(self).data == old(self).data,
            final(self).control == old(self).control,
            final(self).interrupt == old(self).interrupt,
            final(self).callback is None,
    {
        self.callback = None;
    }

    pub fn rb(&self, address: u16) -> (r: u8)
        requires
            0xFF01 <= address <= 0xFF02,
        ensures
            r == self@.spec_rb(address),
    {
        if address == 0xFF01 {
            self.data
        } else {
            self.control
        }
    }

    /// A data write stores the byte.  A control write stores the byte and,
    /// when it starts a transfer and a callback is attached, performs the
    /// exchange; the callback's answer is outside this crate's control, so
    /// only the two possible outcomes are promised.
    pub fn wb(&mut self, address: u16, value: u8)
        requires
            0xFF01 <= address <= 0xFF02,
        ensures
            address == 0xFF01 ==> final(self).data == value
                && final(self).control == old(self).control
                && final(self).interrupt == old(self).interrupt,
            address == 0xFF02 ==> final(self).control == value,
            address == 0xFF02 && !(value & 0x81 == 0x81 && old(self).callback is Some)
                ==> final(self).data == old(self).data
                    && final(self).interrupt == old(self).interrupt,
            address == 0xFF02 ==> final(self).interrupt == old(self).interrupt
                || final(self).interrupt == 0x08,
            address == 0xFF02 && final(self).interrupt != 0x08 ==> final(self).data == old(
                self,
            ).data && final(self).interrupt == old(self).interrupt,
            final(self)@.linked == old(self)@.linked,
    {
        if address == 0xFF01 {
            self.data = value;
        } else {
            self.control = value;
            if value & 0x81 == 0x81 {
                match &mut self.callback {
                    Some(cb) => {
                        match cb.call(self.data) {
                            Some(answer) => {
                                self.data = answer;
                                self.interrupt = 0x08;
                            },
                            None => {},
                        }
                    },
                    None => {},
                }
            }
        }
    }
}

} // verus!
