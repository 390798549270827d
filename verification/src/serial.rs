//! The serial port, as far as a program can see it: one data register, and a
//! line on which started transfers leave for the host.

use vstd::prelude::*;
use crate::address::Address;
use crate::fault::Fault;
use crate::utils::{get_bit, lemma_bits_as_arithmetic};

verus! {

pub const SERIAL_DATA: u16 = 0xFF01;

pub const SERIAL_CONTROL: u16 = 0xFF02;

pub struct SerialModel {
    pub transfer_data: u8,
    /// Whether the host asked for the bytes that the program sends.
    pub print_serial: bool,
    /// The bytes sent and not yet taken by the host, oldest first.
    pub sent: Seq<u8>,
}

impl SerialModel {
    pub open spec fn fresh(print_serial: bool) -> SerialModel {
        SerialModel { transfer_data: 0, print_serial, sent: Seq::empty() }
    }

    /// Only the data register can be read.
    pub open spec fn read(self, addr: u16) -> Result<u8, Fault> {
        if addr == SERIAL_DATA {
            Ok(self.transfer_data)
        } else {
            Err(Fault::UnmappedRead(addr))
        }
    }

    /// A write to the control register with bit 7 set starts a transfer: the
    /// byte in the data register goes out, if the host listens.
    pub open spec fn write(self, addr: u16, value: u8) -> SerialModel {
        if addr == SERIAL_DATA {
            SerialModel { transfer_data: value, ..self }
        } else if self.print_serial && value >= 0x80 {
            SerialModel { sent: self.sent.push(self.transfer_data), ..self }
        } else {
            self
        }
    }
}

pub struct Serial {
    transfer_data: u8,
    print_serial: bool,
    sent: Vec<u8>,
}

impl View for Serial {
    type V = SerialModel;

    closed spec fn view(&self) -> SerialModel {
        SerialModel {
            transfer_data: self.transfer_data,
            print_serial: self.print_serial,
            sent: self.sent@,
        }
    }
}

impl Serial {
    pub fn new(print_serial: bool) -> (r: Self)
        ensures
            r@ == SerialModel::fresh(print_serial),
    {
        Self { transfer_data: 0, print_serial, sent: Vec::new() }
    }

    pub fn read(&self, address: Address) -> (r: Result<u8, Fault>)
        requires
            SERIAL_DATA <= address.addr <= SERIAL_CONTROL,
        ensures
            r == self@.read(address.addr),
    {
        if address.value() == SERIAL_DATA {
            Ok(self.transfer_data)
        } else {
            Err(Fault::UnmappedRead(address.value()))
        }
    }

    pub fn write(&mut self, address: Address, value: u8)
        requires
            SERIAL_DATA <= address.addr <= SERIAL_CONTROL,
        ensures
            final(self)@ == old(self)@.write(address.addr, value),
    {
        if address.value() == SERIAL_DATA {
            self.transfer_data = value;
        } else {
            proof {
                lemma_bits_as_arithmetic(value);
            }
            if self.print_serial && get_bit(value, 7) {
                self.sent.push(self.transfer_data);
            }
        }
    }

    /// Hands the host the bytes sent since it last asked, oldest first.
    pub fn take_sent(&mut self) -> (r: Vec<u8>)
        ensures
            r@ == old(self)@.sent,
            final(self)@ == (SerialModel { sent: Seq::empty(), ..old(self)@ }),
    {
        let mut out: Vec<u8> = Vec::new();
        out.append(&mut self.sent);
        assert(self.sent@ =~= Seq::empty());
        assert(out@ =~= old(self).sent@);
        out
    }
}

} // verus!
