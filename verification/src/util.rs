//! Small shared utilities: 16-bit address assembly and a plain error type.

use vstd::prelude::*;

verus! {

/// A plain message-carrying error, used where a human-readable failure
/// description is all that is needed.
pub enum Error {
    Msg(String),
}

impl Error {
    /// Wraps a message in an `Error`.
    pub fn new(msg: String) -> (r: Error)
        ensures
            r == Error::Msg(msg),
    {
        Error::Msg(msg)
    }

    /// Returns the message carried by this error.
    pub fn message(&self) -> (r: &String)
        ensures
            self == Error::Msg(*r),
    {
        match self {
            Error::Msg(m) => m,
        }
    }
}

/// The low byte of a 16-bit value.
pub open spec fn lo_byte(v: u16) -> u8 {
    (v % 256) as u8
}

/// The high byte of a 16-bit value.
pub open spec fn hi_byte(v: u16) -> u8 {
    (v / 256) as u8
}

/// The 16-bit value assembled from a high and a low byte.
pub open spec fn addr_of(high: u8, low: u8) -> u16 {
    (high * 256 + low) as u16
}

/// Assembles a 16-bit address from its high and low bytes.
pub fn make_addr(high: u8, low: u8) -> (r: u16)
    ensures
        r == addr_of(high, low),
        hi_byte(r) == high,
        lo_byte(r) == low,
{
    (high as u16) * 256 + (low as u16)
}

/// Splitting an address into bytes and reassembling them is the identity.
pub proof fn lemma_addr_split_join(v: u16)
    ensures
        addr_of(hi_byte(v), lo_byte(v)) == v,
{
}

} // verus!
