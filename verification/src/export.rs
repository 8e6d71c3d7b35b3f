//! Row derivation for the tabular export: one row per instruction and one
//! row per micro-operation, derived purely from the collected data model —
//! no re-decoding. Up to two input operands are kept inline; any further
//! operands go to a free-text overflow column.
use crate::address::PcodeVarnodeData;
use crate::address::VarV;
use crate::emit::Instruction;
use crate::emit::PcodeInstruction;
use crate::text::spec_dec;
use crate::text::u64_to_dec;
use vstd::prelude::*;
use vstd::string::StringExecFns;

verus! {

/// One exported instruction row.
#[derive(Debug)]
pub struct AsmRow {
    pub space: String,
    pub offset: u64,
    pub mnemonic: String,
    pub body: String,
}

/// One exported micro-operation row: address, operation name, up to two
/// inline input operands, the output operand, and the overflow text for any
/// further input operands.
#[derive(Debug)]
pub struct PcodeRow {
    pub space: String,
    pub offset: u64,
    pub op: String,
    pub opr1: Option<PcodeVarnodeData>,
    pub opr2: Option<PcodeVarnodeData>,
    pub out_var: Option<PcodeVarnodeData>,
    pub comment: Option<String>,
}

/// The canonical `space(offset):size` text of one operand.
pub open spec fn spec_var_text(v: VarV) -> Seq<char> {
    v.space + "("@ + spec_dec(v.offset as int) + ")"@ + ":"@ + spec_dec(v.size as int)
}

/// The overflow text of a list of operands: their canonical texts joined
/// with a comma.
pub open spec fn spec_overflow_text(vs: Seq<VarV>) -> Seq<char>
    decreases vs.len(),
{
    if vs.len() == 0 {
        Seq::empty()
    } else if vs.len() == 1 {
        spec_var_text(vs[0])
    } else {
        spec_var_text(vs[0]) + ", "@ + spec_overflow_text(vs.drop_first())
    }
}

fn var_text(v: &PcodeVarnodeData) -> (r: String)
    ensures
        r@ == spec_var_text(v@),
{
    let mut s = v.space.clone();
    s.append("(");
    s.append(u64_to_dec(v.offset as u64).as_str());
    s.append(")");
    s.append(":");
    s.append(u64_to_dec(v.size as u64).as_str());
    s
}

fn overflow_from(vars: &Vec<PcodeVarnodeData>, i: usize) -> (r: String)
    requires
        i <= vars@.len(),
    ensures
        r@ == spec_overflow_text(vars@.skip(i as int).map_values(|v: PcodeVarnodeData| v@)),
    decreases vars@.len() - i,
{
    let ghost tail = vars@.skip(i as int).map_values(|v: PcodeVarnodeData| v@);
    if i >= vars.len() {
        proof {
            assert(tail.len() == 0);
        }
        String::new()
    } else if i + 1 == vars.len() {
        proof {
            assert(tail[0] == vars@[i as int]@);
        }
        var_text(&vars[i])
    } else {
        let mut s = var_text(&vars[i]);
        s.append(", ");
        let rest = overflow_from(vars, i + 1);
        s.append(rest.as_str());
        proof {
            assert(tail[0] == vars@[i as int]@);
            assert(tail.drop_first() =~= vars@.skip(i as int + 1).map_values(
                |v: PcodeVarnodeData| v@,
            ));
        }
        s
    }
}

/// Derives the exported row of one instruction.
pub fn asm_row(inst: &Instruction) -> (r: AsmRow)
    ensures
        r.space@ == inst@.addr.space,
        r.offset == inst@.addr.offset,
        r.mnemonic@ == inst@.mnemonic,
        r.body@ == inst@.body,
{
    AsmRow {
        space: inst.addr.space.clone(),
        offset: inst.addr.offset,
        mnemonic: inst.mnemonic.clone(),
        body: inst.body.clone(),
    }
}

/// Derives the exported row of one micro-operation: the first two input
/// operands inline, the output operand, and — exactly when more than two
/// input operands exist — the overflow text of the remaining ones.
pub fn pcode_row(p: &PcodeInstruction) -> (r: PcodeRow)
    ensures
        r.space@ == p@.addr.space,
        r.offset == p@.addr.offset,
        r.op@ == p@.opcode.spec_name(),
        p@.vars.len() == 0 ==> r.opr1 is None,
        p@.vars.len() >= 1 ==> (r.opr1 matches Some(v) && v@ == p@.vars[0]),
        p@.vars.len() <= 1 ==> r.opr2 is None,
        p@.vars.len() >= 2 ==> (r.opr2 matches Some(v) && v@ == p@.vars[1]),
        p@.out_var is None <==> r.out_var is None,
        p@.out_var matches Some(pv) ==> (r.out_var matches Some(v) && v@ == pv),
        p@.vars.len() <= 2 ==> r.comment is None,
        p@.vars.len() > 2 ==> (r.comment matches Some(c) && c@ == spec_overflow_text(
            p@.vars.skip(2),
        )),
{
    let opr1 = if p.vars.len() >= 1 {
        Some(p.vars[0].clone())
    } else {
        None
    };
    let opr2 = if p.vars.len() >= 2 {
        Some(p.vars[1].clone())
    } else {
        None
    };
    let out_var = match &p.out_var {
        Some(v) => Some(v.clone()),
        None => None,
    };
    let comment = if p.vars.len() > 2 {
        let c = overflow_from(&p.vars, 2);
        proof {
            assert(p.vars@.skip(2).map_values(|v: PcodeVarnodeData| v@) =~= p@.vars.skip(2));
        }
        Some(c)
    } else {
        None
    };
    PcodeRow {
        space: p.addr.space.clone(),
        offset: p.addr.offset,
        op: p.opcode.name(),
        opr1,
        opr2,
        out_var,
        comment,
    }
}

} // verus!
