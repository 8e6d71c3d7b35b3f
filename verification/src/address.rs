//! The addressing model: a location inside a named address space, and a
//! storage operand (varnode) touched by a micro-operation.
//!
//! Two addresses are equal when both the space and the offset agree; they are
//! ordered only within one space, so the ordered comparison of addresses from
//! different spaces yields no ordering at all rather than an arbitrary one.
use crate::text::spec_dec;
use crate::text::u64_to_dec;
use vstd::prelude::*;
use vstd::string::StringExecFns;

verus! {

/// The mathematical value of an [`Address`].
pub ghost struct AddrV {
    pub space: Seq<char>,
    pub offset: u64,
}

/// A location: a named address space and an unsigned offset within it.
///
/// Addresses are immutable value objects; the decode loop advances its own
/// cursor and never mutates an emitted address.
#[derive(Debug)]
pub struct Address {
    pub space: String,
    pub offset: u64,
}

impl View for Address {
    type V = AddrV;

    open spec fn view(&self) -> AddrV {
        AddrV { space: self.space@, offset: self.offset }
    }
}

impl Clone for Address {
    fn clone(&self) -> (r: Address)
        ensures
            r@ == self@,
    {
        Address { space: self.space.clone(), offset: self.offset }
    }
}

impl PartialEq for Address {
    fn eq(&self, other: &Address) -> (r: bool) {
        self.space == other.space && self.offset == other.offset
    }
}

impl Eq for Address {

}

impl vstd::std_specs::cmp::PartialEqSpecImpl for Address {
    open spec fn obeys_eq_spec() -> bool {
        true
    }

    open spec fn eq_spec(&self, other: &Address) -> bool {
        self@ == other@
    }
}

impl PartialOrd for Address {
    /// Ordered comparison, defined only inside one address space: addresses
    /// of different spaces have no ordering.
    fn partial_cmp(&self, other: &Address) -> (r: Option<core::cmp::Ordering>) {
        if self.space == other.space {
            if self.offset < other.offset {
                Some(core::cmp::Ordering::Less)
            } else if self.offset == other.offset {
                Some(core::cmp::Ordering::Equal)
            } else {
                Some(core::cmp::Ordering::Greater)
            }
        } else {
            None
        }
    }
}

impl vstd::std_specs::cmp::PartialOrdSpecImpl for Address {
    open spec fn obeys_partial_cmp_spec() -> bool {
        true
    }

    open spec fn partial_cmp_spec(&self, other: &Address) -> Option<core::cmp::Ordering> {
        if self@.space == other@.space {
            if self@.offset < other@.offset {
                Some(core::cmp::Ordering::Less)
            } else if self@.offset == other@.offset {
                Some(core::cmp::Ordering::Equal)
            } else {
                Some(core::cmp::Ordering::Greater)
            }
        } else {
            None
        }
    }
}

impl Address {
    /// Total comparison inside one space. A cross-space comparison is
    /// undefined, so the caller must establish that both addresses share one
    /// space; this failure is loud (at verification time) instead of
    /// returning an arbitrary order.
    pub fn cmp(&self, other: &Address) -> (r: core::cmp::Ordering)
        requires
            self@.space == other@.space,
        ensures
            r == core::cmp::Ordering::Less <==> self@.offset < other@.offset,
            r == core::cmp::Ordering::Equal <==> self@.offset == other@.offset,
            r == core::cmp::Ordering::Greater <==> self@.offset > other@.offset,
    {
        if self.offset < other.offset {
            core::cmp::Ordering::Less
        } else if self.offset == other.offset {
            core::cmp::Ordering::Equal
        } else {
            core::cmp::Ordering::Greater
        }
    }

    /// The canonical `space(offset)` form, meant for debugging and logging,
    /// not for parsing.
    pub fn to_text(&self) -> (r: String)
        ensures
            r@ == self@.space + "("@ + spec_dec(self@.offset as int) + ")"@,
    {
        let mut s = self.space.clone();
        s.append("(");
        s.append(u64_to_dec(self.offset).as_str());
        s.append(")");
        s
    }
}

/// The mathematical value of a [`PcodeVarnodeData`].
pub ghost struct VarV {
    pub space: Seq<char>,
    pub offset: usize,
    pub size: u32,
}

/// A varnode: a storage location read or written by a micro-operation, given
/// as a space, an offset and a width in bytes. Plain value, no ownership
/// semantics; several micro-operations may carry equal-valued operands.
#[derive(Debug)]
pub struct PcodeVarnodeData {
    pub space: String,
    pub offset: usize,
    pub size: u32,
}

impl View for PcodeVarnodeData {
    type V = VarV;

    open spec fn view(&self) -> VarV {
        VarV { space: self.space@, offset: self.offset, size: self.size }
    }
}

impl Clone for PcodeVarnodeData {
    fn clone(&self) -> (r: PcodeVarnodeData)
        ensures
            r@ == self@,
    {
        PcodeVarnodeData { space: self.space.clone(), offset: self.offset, size: self.size }
    }
}

} // verus!
