//! The domain frame vocabulary: the request and response values exchanged
//! once byte-level framing has already happened, and the coarse error kind
//! that handler failures are reduced to at the adapter boundary.

use vstd::prelude::*;

verus! {

/// A decoded Modbus request: a register or coil operation, addressed by a
/// starting offset and a quantity (or, for a write, an offset and a value).
#[derive(Clone, Copy, Debug, PartialEq, Eq, Structural)]
pub enum Request {
    /// Read a quantity of bit coils starting at an offset.
    ReadCoils(u16, u16),
    /// Read a quantity of holding registers starting at an offset.
    ReadHoldingRegisters(u16, u16),
    /// Read a quantity of input registers starting at an offset.
    ReadInputRegisters(u16, u16),
    /// Write one value to the register at an offset.
    WriteSingleRegister(u16, u16),
}

/// A decoded Modbus response carrying the data the operation produced.
#[derive(Debug, PartialEq, Eq)]
pub enum Response {
    /// The coil states that were read.
    ReadCoils(Vec<bool>),
    /// The holding register words that were read.
    ReadHoldingRegisters(Vec<u16>),
    /// The input register words that were read.
    ReadInputRegisters(Vec<u16>),
    /// The register offset and the value that was written.
    WriteSingleRegister(u16, u16),
}

/// The mathematical value of a [`Response`]: the same shape with the
/// payload vectors abstracted to sequences.
pub enum ResponseModel {
    ReadCoils(Seq<bool>),
    ReadHoldingRegisters(Seq<u16>),
    ReadInputRegisters(Seq<u16>),
    WriteSingleRegister(u16, u16),
}

impl View for Response {
    type V = ResponseModel;

    open spec fn view(&self) -> ResponseModel {
        match self {
            Response::ReadCoils(bits) => ResponseModel::ReadCoils(bits@),
            Response::ReadHoldingRegisters(words) => ResponseModel::ReadHoldingRegisters(words@),
            Response::ReadInputRegisters(words) => ResponseModel::ReadInputRegisters(words@),
            Response::WriteSingleRegister(addr, word) => (ResponseModel::WriteSingleRegister(
                *addr,
                *word,
            )),
        }
    }
}

impl Clone for Response {
    /// Cloning a response keeps its abstract value.
    fn clone(&self) -> (r: Self)
        ensures
            r@ == self@,
    {
        match self {
            Response::ReadCoils(bits) => {
                let copied = bits.clone();
                proof {
                    assert(copied@ =~= bits@);
                }
                Response::ReadCoils(copied)
            },
            Response::ReadHoldingRegisters(words) => {
                let copied = words.clone();
                proof {
                    assert(copied@ =~= words@);
                }
                Response::ReadHoldingRegisters(copied)
            },
            Response::ReadInputRegisters(words) => {
                let copied = words.clone();
                proof {
                    assert(copied@ =~= words@);
                }
                Response::ReadInputRegisters(copied)
            },
            Response::WriteSingleRegister(addr, word) => {
                Response::WriteSingleRegister(*addr, *word)
            },
        }
    }
}

/// The coarse, generic I/O error kind that every handler failure is reduced
/// to at the adapter boundary; the reduction may lose detail by design.
#[derive(Clone, Copy, Debug, PartialEq, Eq, Structural)]
pub enum ErrorKind {
    /// The request could not be served with the given arguments.
    InvalidInput,
    /// The handler produced data that could not be turned into a response.
    InvalidData,
    /// Any other handler failure.
    Other,
}

} // verus!
