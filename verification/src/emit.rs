//! Assembly lines, micro-operations, the two emission-sink interfaces, and
//! the collecting sinks that accumulate the two streams of a decode run.
//!
//! A micro-operation carries a sequence number scoped to its owning address:
//! it is reset to zero whenever the owning address changes from the previous
//! emission and incremented otherwise. The collecting pcode sink maintains
//! that discipline as a type invariant.
use crate::address::AddrV;
use crate::address::Address;
use crate::address::PcodeVarnodeData;
use crate::address::VarV;
use crate::opcode::PcodeOpCode;
use vstd::prelude::*;
use vstd::string::StringExecFns;

verus! {

/// The mathematical value of an [`Instruction`].
pub ghost struct InstrV {
    pub addr: AddrV,
    pub mnemonic: Seq<char>,
    pub body: Seq<char>,
}

/// One assembly line: an address, a mnemonic and the operand text. Emitted
/// once per decode step, immutable afterwards; its micro-operations are
/// attached by position through the correspondence index, never by
/// re-decoding.
#[derive(Debug)]
pub struct Instruction {
    pub addr: Address,
    pub mnemonic: String,
    pub body: String,
}

impl View for Instruction {
    type V = InstrV;

    open spec fn view(&self) -> InstrV {
        InstrV { addr: self.addr@, mnemonic: self.mnemonic@, body: self.body@ }
    }
}

impl Instruction {
    pub fn set_addr(&mut self, sp: String, of: u64)
        ensures
            final(self)@ == (InstrV {
                addr: AddrV { space: sp@, offset: of },
                ..old(self)@
            }),
    {
        self.addr = Address { space: sp, offset: of };
    }

    pub fn set_mnemonic(&mut self, mnem: String)
        ensures
            final(self)@ == (InstrV { mnemonic: mnem@, ..old(self)@ }),
    {
        self.mnemonic = mnem;
    }

    pub fn set_body(&mut self, body: String)
        ensures
            final(self)@ == (InstrV { body: body@, ..old(self)@ }),
    {
        self.body = body;
    }
}

/// The mathematical value of a [`PcodeInstruction`].
pub ghost struct PcodeV {
    pub addr: AddrV,
    pub seq: u64,
    pub opcode: PcodeOpCode,
    pub vars: Seq<VarV>,
    pub out_var: Option<VarV>,
}

/// One micro-operation: the address of the instruction it belongs to, its
/// per-address sequence number, the operation kind, the ordered input
/// operands and the optional output operand. Created once per emission,
/// immutable afterwards.
#[derive(Debug)]
pub struct PcodeInstruction {
    pub addr: Address,
    pub seq: u64,
    pub opcode: PcodeOpCode,
    pub vars: Vec<PcodeVarnodeData>,
    pub out_var: Option<PcodeVarnodeData>,
}

impl View for PcodeInstruction {
    type V = PcodeV;

    open spec fn view(&self) -> PcodeV {
        PcodeV {
            addr: self.addr@,
            seq: self.seq,
            opcode: self.opcode,
            vars: self.vars@.map_values(|v: PcodeVarnodeData| v@),
            out_var: match self.out_var {
                Some(v) => Some(v@),
                None => None,
            },
        }
    }
}

/// The view of an optional borrowed varnode.
pub open spec fn opt_var_view(o: Option<&PcodeVarnodeData>) -> Option<VarV> {
    match o {
        Some(v) => Some(v@),
        None => None,
    }
}

/// A sink for the assembly stream: the driver reports each decoded line to
/// it. The library's session collects into [`CollectingAssemblyEmit`], which
/// the caller gets back under its own type — no runtime downcast; the trait
/// is the callback interface for adapters that drive decoding themselves.
pub trait AssemblyEmit {
    /// Receives one assembly line: the instruction's address, its mnemonic
    /// and its operand text.
    fn dump(&mut self, addr: &Address, mnem: &str, body: &str);
}

/// A sink for the micro-operation stream, the counterpart of
/// [`AssemblyEmit`] for pcode emissions.
pub trait PcodeEmit {
    /// Receives one micro-operation: the owning instruction's address, the
    /// operation kind, the optional output operand and the ordered input
    /// operands.
    fn dump(
        &mut self,
        addr: &Address,
        opcode: PcodeOpCode,
        out_var: Option<&PcodeVarnodeData>,
        vars: &[PcodeVarnodeData],
    );
}

/// An assembly sink that simply collects every emitted line, in emission
/// order.
#[derive(Debug)]
pub struct CollectingAssemblyEmit {
    pub asms: Vec<Instruction>,
}

impl View for CollectingAssemblyEmit {
    type V = Seq<InstrV>;

    open spec fn view(&self) -> Seq<InstrV> {
        self.asms@.map_values(|a: Instruction| a@)
    }
}

impl Default for CollectingAssemblyEmit {
    fn default() -> (r: Self)
        ensures
            r@ =~= Seq::<InstrV>::empty(),
    {
        CollectingAssemblyEmit { asms: Vec::new() }
    }
}

impl AssemblyEmit for CollectingAssemblyEmit {
    fn dump(&mut self, addr: &Address, mnem: &str, body: &str)
        ensures
            final(self)@ == old(self)@.push(
                InstrV { addr: addr@, mnemonic: mnem@, body: body@ },
            ),
    {
        let line = Instruction {
            addr: addr.clone(),
            mnemonic: mnem.to_owned(),
            body: body.to_owned(),
        };
        self.asms.push(line);
        proof {
            assert(final(self)@ =~= old(self)@.push(
                InstrV { addr: addr@, mnemonic: mnem@, body: body@ },
            ));
        }
    }
}

/// The sequence number owed to the next micro-operation emitted at address
/// `a`, given the stream collected so far: one past the last emission's
/// number if that emission owned the same address, and zero otherwise.
pub open spec fn next_seq(s: Seq<PcodeV>, a: AddrV) -> int {
    if s.len() > 0 && s.last().addr == a {
        s.last().seq + 1
    } else {
        0
    }
}

/// The per-address sequence discipline: every entry carries exactly the
/// number owed to it by the stream before it.
pub open spec fn seq_disciplined(s: Seq<PcodeV>) -> bool {
    forall|i: int| 0 <= i < s.len() ==> (#[trigger] s[i].seq) as int == next_seq(s.take(i), s[i].addr)
}

/// A pcode sink that collects every emitted micro-operation in emission
/// order, assigning sequence numbers under the per-address discipline.
#[derive(Debug)]
pub struct CollectingPcodeEmit {
    pcode_asms: Vec<PcodeInstruction>,
}

impl View for CollectingPcodeEmit {
    type V = Seq<PcodeV>;

    closed spec fn view(&self) -> Seq<PcodeV> {
        self.pcode_asms@.map_values(|p: PcodeInstruction| p@)
    }
}

impl CollectingPcodeEmit {
    #[verifier::type_invariant]
    spec fn wf(self) -> bool {
        &&& seq_disciplined(self@)
        &&& forall|i: int| 0 <= i < self@.len() ==> (#[trigger] self@[i].seq) as int <= i
    }

    /// The collected micro-operations, in emission order. The stream always
    /// obeys the per-address sequence discipline.
    pub fn pcode_asms(&self) -> (r: &Vec<PcodeInstruction>)
        ensures
            r@.map_values(|p: PcodeInstruction| p@) == self@,
            seq_disciplined(self@),
    {
        proof {
            use_type_invariant(self);
        }
        &self.pcode_asms
    }
}

impl Default for CollectingPcodeEmit {
    fn default() -> (r: Self)
        ensures
            r@ =~= Seq::<PcodeV>::empty(),
    {
        CollectingPcodeEmit { pcode_asms: Vec::new() }
    }
}

fn clone_varnodes(vars: &[PcodeVarnodeData]) -> (r: Vec<PcodeVarnodeData>)
    ensures
        r@.map_values(|v: PcodeVarnodeData| v@) == vars@.map_values(|v: PcodeVarnodeData| v@),
{
    let mut r: Vec<PcodeVarnodeData> = Vec::new();
    let mut i: usize = 0;
    while i < vars.len()
        invariant
            i <= vars@.len(),
            r@.len() == i,
            forall|k: int| 0 <= k < i ==> (#[trigger] r@[k])@ == vars@[k]@,
        decreases vars@.len() - i,
    {
        r.push(vars[i].clone());
        i = i + 1;
    }
    proof {
        assert(r@.map_values(|v: PcodeVarnodeData| v@) =~= vars@.map_values(
            |v: PcodeVarnodeData| v@,
        ));
    }
    r
}

impl PcodeEmit for CollectingPcodeEmit {
    fn dump(
        &mut self,
        addr: &Address,
        opcode: PcodeOpCode,
        out_var: Option<&PcodeVarnodeData>,
        vars: &[PcodeVarnodeData],
    )
        ensures
            final(self)@ == old(self)@.push(
                PcodeV {
                    addr: addr@,
                    seq: next_seq(old(self)@, addr@) as u64,
                    opcode: opcode,
                    vars: vars@.map_values(|v: PcodeVarnodeData| v@),
                    out_var: opt_var_view(out_var),
                },
            ),
    {
        proof {
            use_type_invariant(&*self);
        }
        let seq: u64 = match self.pcode_asms.last() {
            Some(last) => {
                if last.addr == *addr {
                    last.seq + 1
                } else {
                    0
                }
            },
            None => 0,
        };
        let pcode_vars = clone_varnodes(vars);
        let out = match out_var {
            Some(v) => Some(v.clone()),
            None => None,
        };
        let rec = PcodeInstruction {
            addr: addr.clone(),
            seq: seq,
            opcode: opcode,
            vars: pcode_vars,
            out_var: out,
        };
        let mut v: Vec<PcodeInstruction> = Vec::new();
        std::mem::swap(&mut v, &mut self.pcode_asms);
        v.push(rec);
        proof {
            let s2 = v@.map_values(|p: PcodeInstruction| p@);
            assert(s2 =~= old(self)@.push(
                PcodeV {
                    addr: addr@,
                    seq: next_seq(old(self)@, addr@) as u64,
                    opcode: opcode,
                    vars: vars@.map_values(|v: PcodeVarnodeData| v@),
                    out_var: opt_var_view(out_var),
                },
            ));
            assert forall|i: int| 0 <= i < s2.len() implies (#[trigger] s2[i].seq) as int
                == next_seq(s2.take(i), s2[i].addr) by {
                if i < old(self)@.len() {
                    assert(s2.take(i) =~= old(self)@.take(i));
                } else {
                    assert(s2.take(i) =~= old(self)@);
                }
            }
        }
        self.pcode_asms = v;
    }
}

} // verus!
