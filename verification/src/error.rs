//! The library's error taxonomy.
//!
//! Configuration errors (`ArchNotFound`, `MissingArg`) are detected before any
//! decoding starts; decode errors carry the failing address; invalid lengths
//! are driver invariant violations; the remaining variants surface corrupted
//! or mismatched correspondence data instead of resolving it silently.
use crate::text::spec_dec;
use crate::text::u64_to_dec;
use vstd::prelude::*;
use vstd::string::StringExecFns;

verus! {

#[derive(Debug)]
pub enum Error {
    /// The requested architecture name matches no preset; carries the name as
    /// it was requested.
    ArchNotFound(String),
    /// A required session setting was absent at build time; carries the name
    /// of the first missing setting.
    MissingArg(String),
    /// The external decoder failed at the given offset.
    DecodeError { offset: u64, message: String },
    /// The external decoder reported an instruction length that is negative,
    /// zero, or runs past the end of the buffer: a driver invariant
    /// violation, fatal for the run.
    InvalidLength { offset: u64, length: i64 },
    /// Two micro-operations of one instruction share a sequence number; the
    /// collected streams are corrupt.
    CorruptedSequence { first: usize, second: usize },
    /// A correspondence query named an instruction position that the index
    /// does not hold.
    IndexOutOfRange { index: usize, len: usize },
}

impl Error {
    /// The text of [`Error::message`].
    pub open spec fn spec_message(&self) -> Seq<char> {
        match self {
            Error::ArchNotFound(name) => "arch "@ + name@ + " is not found in preset"@,
            Error::MissingArg(name) => "missing argument: "@ + name@,
            Error::DecodeError { offset, message } => "decode error at offset "@ + spec_dec(
                *offset as int,
            ) + ": "@ + message@,
            Error::InvalidLength { offset, length } => "invalid instruction length at offset "@
                + spec_dec(*offset as int),
            Error::CorruptedSequence { first, second } => "corrupted sequence numbers at pcode positions "@
                + spec_dec(*first as int) + " and "@ + spec_dec(*second as int),
            Error::IndexOutOfRange { index, len } => "instruction position "@ + spec_dec(
                *index as int,
            ) + " is out of range for "@ + spec_dec(*len as int) + " instructions"@,
        }
    }

    /// A human-readable description that names the offending architecture,
    /// missing setting, or failing address.
    pub fn message(&self) -> (r: String)
        ensures
            r@ == self.spec_message(),
    {
        match self {
            Error::ArchNotFound(name) => {
                let mut s = "arch ".to_owned();
                s.append(name.as_str());
                s.append(" is not found in preset");
                s
            },
            Error::MissingArg(name) => {
                let mut s = "missing argument: ".to_owned();
                s.append(name.as_str());
                s
            },
            Error::DecodeError { offset, message } => {
                let mut s = "decode error at offset ".to_owned();
                s.append(u64_to_dec(*offset).as_str());
                s.append(": ");
                s.append(message.as_str());
                s
            },
            Error::InvalidLength { offset, .. } => {
                let mut s = "invalid instruction length at offset ".to_owned();
                s.append(u64_to_dec(*offset).as_str());
                s
            },
            Error::CorruptedSequence { first, second } => {
                let mut s = "corrupted sequence numbers at pcode positions ".to_owned();
                s.append(u64_to_dec(*first as u64).as_str());
                s.append(" and ");
                s.append(u64_to_dec(*second as u64).as_str());
                s
            },
            Error::IndexOutOfRange { index, len } => {
                let mut s = "instruction position ".to_owned();
                s.append(u64_to_dec(*index as u64).as_str());
                s.append(" is out of range for ");
                s.append(u64_to_dec(*len as u64).as_str());
                s.append(" instructions");
                s
            },
        }
    }
}

} // verus!
