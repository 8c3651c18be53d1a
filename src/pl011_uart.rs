//! A minimal PL011 UART: a data register that prints what the guest writes and
//! a flag register that always reads as ready.
use vstd::prelude::*;
use crate::mmio::{Emitted, MmioController};

verus! {

/// Offset of the flag register.
pub const UART01X_FR: u64 = 0x18;

/// Offset of the data register.
pub const UARTDR: u64 = 0x00;

/// Whether `v` is a Unicode scalar value.
pub open spec fn is_scalar_value(v: u32) -> bool {
    v < 0xd800 || (0xe000 <= v && v < 0x11_0000)
}

/// Relies on char::from_u32: `Some` exactly for a Unicode scalar value, holding
/// the character with that code.
#[verifier::external_body]
fn char_from_u32(v: u32) -> (r: Option<char>)
    ensures
        r is Some <==> is_scalar_value(v),
        r matches Some(c) ==> c == v as char && c as u32 == v,
{
    char::from_u32(v)
}

/// What a write of `value` to the data register hands to the output stream:
/// the character whose code is the low 32 bits of `value`, or a diagnostic.
pub open spec fn data_output(value: u64) -> Emitted {
    let code = value as u32;
    if is_scalar_value(code) {
        Emitted::Char(code as char)
    } else {
        Emitted::NonChar(value)
    }
}

/// The console controller. It keeps no state.
#[derive(Clone, Copy, Debug, PartialEq, Eq, Structural)]
pub struct Controller;

impl MmioController for Controller {
    open spec fn read_spec(&self, addr: u64) -> Option<u64> {
        if addr == UART01X_FR {
            Some(0)
        } else {
            None
        }
    }

    open spec fn write_ack(&self, addr: u64, value: u64) -> Option<u64> {
        if addr == UARTDR {
            Some(value)
        } else {
            None
        }
    }

    open spec fn write_output(&self, addr: u64, value: u64) -> Seq<Emitted> {
        if addr == UARTDR {
            seq![data_output(value)]
        } else {
            seq![]
        }
    }

    fn read(&self, addr: u64) -> (r: Option<u64>) {
        match addr {
            UART01X_FR => Some(0),
            _ => None,
        }
    }

    fn write(&mut self, addr: u64, value: u64, out: &mut Vec<Emitted>) -> (r: Option<u64>) {
        match addr {
            UARTDR => {
                match char_from_u32(value as u32) {
                    Some(ch) => {
                        out.push(Emitted::Char(ch))
                    },
                    None => out.push(Emitted::NonChar(value)),
                }
                Some(value)
            },
            _ => None,
        }
    }
}

} // verus!
