//! The correspondence engine: joins the two collected streams of a decode
//! run into one queryable, address-ordered index.
//!
//! Every collected micro-operation is assigned to the instructions sharing
//! its exact address — space and offset both equal, so pcode of a constant
//! or join space is never conflated with main-memory pcode at a numerically
//! equal offset. Within one instruction's group the positions are ordered by
//! sequence number, strictly ascending; a tie between two positions is a
//! data-corruption condition and is surfaced as an error, never resolved
//! silently. Querying an unknown instruction position is an error, not an
//! empty result.
use crate::address::AddrV;
use crate::emit::CollectingAssemblyEmit;
use crate::emit::CollectingPcodeEmit;
use crate::emit::InstrV;
use crate::emit::Instruction;
use crate::emit::PcodeInstruction;
use crate::emit::PcodeV;
use crate::error::Error;
use vstd::prelude::*;

verus! {

/// `g` is the correspondence group of address `a`: it holds exactly the
/// positions of the micro-operations at `a`, ordered by sequence number,
/// strictly ascending.
pub open spec fn valid_group(pcodes: Seq<PcodeV>, a: AddrV, g: Seq<usize>) -> bool {
    &&& forall|k: int|
        0 <= k < g.len() ==> (#[trigger] g[k]) < pcodes.len() && pcodes[g[k] as int].addr == a
    &&& forall|k1: int, k2: int|
        #![trigger g[k1], g[k2]]
        0 <= k1 < k2 < g.len() ==> pcodes[g[k1] as int].seq < pcodes[g[k2] as int].seq
    &&& forall|j: usize|
        j < pcodes.len() && (#[trigger] pcodes[j as int]).addr == a ==> g.contains(j)
}

/// `idx` is the correspondence index of the two streams: one group per
/// instruction, each the valid group of that instruction's address.
pub open spec fn is_correspondence(
    asms: Seq<InstrV>,
    pcodes: Seq<PcodeV>,
    idx: Seq<Seq<usize>>,
) -> bool {
    &&& idx.len() == asms.len()
    &&& forall|i: int| 0 <= i < asms.len() ==> valid_group(pcodes, asms[i].addr, #[trigger] idx[i])
}

/// Two distinct micro-operations of one instruction's address share a
/// sequence number: the corrupted-data condition that correspondence
/// building surfaces.
pub open spec fn has_seq_tie(asms: Seq<InstrV>, pcodes: Seq<PcodeV>) -> bool {
    exists|i: int, j1: usize, j2: usize|
        {
            &&& 0 <= i < asms.len()
            &&& j1 < j2 < pcodes.len()
            &&& (#[trigger] pcodes[j1 as int]).addr == (#[trigger] asms[i]).addr
            &&& (#[trigger] pcodes[j2 as int]).addr == asms[i].addr
            &&& pcodes[j1 as int].seq == pcodes[j2 as int].seq
        }
}

/// A valid correspondence rules every sequence-number tie out.
pub proof fn lemma_correspondence_no_tie(
    asms: Seq<InstrV>,
    pcodes: Seq<PcodeV>,
    idx: Seq<Seq<usize>>,
)
    requires
        is_correspondence(asms, pcodes, idx),
    ensures
        !has_seq_tie(asms, pcodes),
{
    if has_seq_tie(asms, pcodes) {
        let (i, j1, j2) = choose|i: int, j1: usize, j2: usize|
            {
                &&& 0 <= i < asms.len()
                &&& j1 < j2 < pcodes.len()
                &&& (#[trigger] pcodes[j1 as int]).addr == (#[trigger] asms[i]).addr
                &&& (#[trigger] pcodes[j2 as int]).addr == asms[i].addr
                &&& pcodes[j1 as int].seq == pcodes[j2 as int].seq
            };
        let g = idx[i];
        assert(g.contains(j1));
        assert(g.contains(j2));
        let k1 = choose|k1: int| 0 <= k1 < g.len() && g[k1] == j1;
        let k2 = choose|k2: int| 0 <= k2 < g.len() && g[k2] == j2;
        assert(k1 != k2);
        assert(false);
    }
}

/// Strictly seq-ordered groups over the same member set are equal.
proof fn lemma_sorted_same_members(pcodes: Seq<PcodeV>, g1: Seq<usize>, g2: Seq<usize>)
    requires
        forall|k: int| 0 <= k < g1.len() ==> (#[trigger] g1[k]) < pcodes.len(),
        forall|k: int| 0 <= k < g2.len() ==> (#[trigger] g2[k]) < pcodes.len(),
        forall|k1: int, k2: int|
            #![trigger g1[k1], g1[k2]]
            0 <= k1 < k2 < g1.len() ==> pcodes[g1[k1] as int].seq < pcodes[g1[k2] as int].seq,
        forall|k1: int, k2: int|
            #![trigger g2[k1], g2[k2]]
            0 <= k1 < k2 < g2.len() ==> pcodes[g2[k1] as int].seq < pcodes[g2[k2] as int].seq,
        forall|j: usize| g1.contains(j) <==> g2.contains(j),
    ensures
        g1 =~= g2,
    decreases g1.len(),
{
    if g1.len() == 0 {
        if g2.len() > 0 {
            assert(g2.contains(g2[0]));
            assert(g1.contains(g2[0]));
            assert(false);
        }
    } else if g2.len() == 0 {
        assert(g1.contains(g1[0]));
        assert(g2.contains(g1[0]));
        assert(false);
    } else {
        assert(g1.contains(g1[0]));
        assert(g2.contains(g1[0]));
        let k = choose|k: int| 0 <= k < g2.len() && g2[k] == g1[0];
        assert(g2.contains(g2[0]));
        assert(g1.contains(g2[0]));
        let m = choose|m: int| 0 <= m < g1.len() && g1[m] == g2[0];
        if k > 0 {
            assert(pcodes[g2[0] as int].seq < pcodes[g1[0] as int].seq);
            if m > 0 {
                assert(pcodes[g1[0] as int].seq < pcodes[g2[0] as int].seq);
            }
            assert(false);
        }
        assert(g1[0] == g2[0]);
        let t1 = g1.drop_first();
        let t2 = g2.drop_first();
        assert forall|j: usize| t1.contains(j) <==> t2.contains(j) by {
            lemma_tail_members(pcodes, g1, j);
            lemma_tail_members(pcodes, g2, j);
        }
        lemma_sorted_same_members(pcodes, t1, t2);
        assert(g1.len() == g2.len());
        assert forall|k: int| 0 <= k < g1.len() implies g1[k] == g2[k] by {
            if k > 0 {
                assert(t1[k - 1] == t2[k - 1]);
            }
        }
        assert(g1 =~= g2);
    }
}

/// For a strictly seq-ordered group, tail membership is whole-group
/// membership minus the head.
proof fn lemma_tail_members(pcodes: Seq<PcodeV>, g: Seq<usize>, j: usize)
    requires
        g.len() > 0,
        forall|k: int| 0 <= k < g.len() ==> (#[trigger] g[k]) < pcodes.len(),
        forall|k1: int, k2: int|
            #![trigger g[k1], g[k2]]
            0 <= k1 < k2 < g.len() ==> pcodes[g[k1] as int].seq < pcodes[g[k2] as int].seq,
    ensures
        g.drop_first().contains(j) <==> (g.contains(j) && j != g[0]),
{
    let t = g.drop_first();
    if t.contains(j) {
        let k = choose|k: int| 0 <= k < t.len() && t[k] == j;
        assert(g[k + 1] == j);
        assert(pcodes[g[0] as int].seq < pcodes[g[k + 1] as int].seq);
        assert(g.contains(j) && j != g[0]);
    }
    if g.contains(j) && j != g[0] {
        let k = choose|k: int| 0 <= k < g.len() && g[k] == j;
        assert(k > 0);
        assert(t[k - 1] == j);
        assert(t.contains(j));
    }
}

/// One address has exactly one valid group: the two characterizations pin
/// the same sequence of positions.
pub proof fn lemma_group_unique(pcodes: Seq<PcodeV>, a: AddrV, g1: Seq<usize>, g2: Seq<usize>)
    requires
        valid_group(pcodes, a, g1),
        valid_group(pcodes, a, g2),
    ensures
        g1 == g2,
{
    assert forall|j: usize| g1.contains(j) <==> g2.contains(j) by {
        if g1.contains(j) {
            let k = choose|k: int| 0 <= k < g1.len() && g1[k] == j;
            assert(pcodes[j as int].addr == a);
        }
        if g2.contains(j) {
            let k = choose|k: int| 0 <= k < g2.len() && g2[k] == j;
            assert(pcodes[j as int].addr == a);
        }
    }
    lemma_sorted_same_members(pcodes, g1, g2);
    assert(g1 =~= g2);
}

/// Building the correspondence is deterministic: two valid indexes over the
/// same two collected streams are identical, groups and ordering alike — so
/// running the join twice yields identical results.
pub proof fn lemma_correspondence_unique(
    asms: Seq<InstrV>,
    pcodes: Seq<PcodeV>,
    idx1: Seq<Seq<usize>>,
    idx2: Seq<Seq<usize>>,
)
    requires
        is_correspondence(asms, pcodes, idx1),
        is_correspondence(asms, pcodes, idx2),
    ensures
        idx1 == idx2,
{
    assert forall|i: int| 0 <= i < idx1.len() implies idx1[i] == idx2[i] by {
        lemma_group_unique(pcodes, asms[i].addr, idx1[i], idx2[i]);
    }
    assert(idx1 =~= idx2);
}

/// In a valid correspondence, the group of every instruction holds only
/// positions at the instruction's exact address — space and offset — and is
/// strictly increasing in sequence number.
pub proof fn lemma_group_ordered(
    asms: Seq<InstrV>,
    pcodes: Seq<PcodeV>,
    idx: Seq<Seq<usize>>,
    i: int,
)
    requires
        is_correspondence(asms, pcodes, idx),
        0 <= i < asms.len(),
    ensures
        forall|k: int|
            0 <= k < idx[i].len() ==> (#[trigger] idx[i][k]) < pcodes.len()
                && pcodes[idx[i][k] as int].addr == asms[i].addr,
        forall|k1: int, k2: int|
            #![trigger idx[i][k1], idx[i][k2]]
            0 <= k1 < k2 < idx[i].len() ==> pcodes[idx[i][k1] as int].seq
                < pcodes[idx[i][k2] as int].seq,
{
}

/// The joined result of one decode run: the two collected streams and the
/// read-only index from each instruction position to the ordered positions
/// of its micro-operations.
#[derive(Debug)]
pub struct CorrespondedCollectedAsm<'a> {
    asm_emit: &'a CollectingAssemblyEmit,
    pcode_emit: &'a CollectingPcodeEmit,
    idx_map: Vec<Vec<usize>>,
}

impl<'a> CorrespondedCollectedAsm<'a> {
    /// The assembly stream the index was built over.
    pub closed spec fn spec_asms(&self) -> Seq<InstrV> {
        self.asm_emit@
    }

    /// The pcode stream the index was built over.
    pub closed spec fn spec_pcodes(&self) -> Seq<PcodeV> {
        self.pcode_emit@
    }

    /// The index itself: one group of pcode positions per instruction
    /// position.
    pub closed spec fn spec_index(&self) -> Seq<Seq<usize>> {
        self.idx_map.deep_view()
    }

    #[verifier::type_invariant]
    spec fn wf(self) -> bool {
        is_correspondence(self.spec_asms(), self.spec_pcodes(), self.spec_index())
    }

    /// The collected instructions.
    pub fn asms(&self) -> (r: &'a Vec<Instruction>)
        ensures
            r@.map_values(|x: Instruction| x@) == self.spec_asms(),
            is_correspondence(self.spec_asms(), self.spec_pcodes(), self.spec_index()),
    {
        proof {
            use_type_invariant(self);
        }
        &self.asm_emit.asms
    }

    /// The collected micro-operations.
    pub fn pcodes(&self) -> (r: &'a Vec<PcodeInstruction>)
        ensures
            r@.map_values(|x: PcodeInstruction| x@) == self.spec_pcodes(),
            is_correspondence(self.spec_asms(), self.spec_pcodes(), self.spec_index()),
    {
        proof {
            use_type_invariant(self);
        }
        self.pcode_emit.pcode_asms()
    }

    /// The ordered pcode positions of the instruction at `asm_idx`: every
    /// returned position carries the instruction's exact address — space and
    /// offset — and the positions come strictly increasing in sequence
    /// number. A position outside the collected instructions is rejected as
    /// [`Error::IndexOutOfRange`], never answered with an empty group.
    pub fn pcode_indices_of_asm(&self, asm_idx: usize) -> (r: Result<Vec<usize>, Error>)
        ensures
            is_correspondence(self.spec_asms(), self.spec_pcodes(), self.spec_index()),
            match r {
                Ok(g) => {
                    &&& asm_idx < self.spec_asms().len()
                    &&& g@ == self.spec_index()[asm_idx as int]
                    &&& forall|k: int|
                        0 <= k < g@.len() ==> (#[trigger] g@[k]) < self.spec_pcodes().len()
                            && self.spec_pcodes()[g@[k] as int].addr == self.spec_asms()[
                        asm_idx as int].addr
                    &&& forall|k1: int, k2: int|
                        #![trigger g@[k1], g@[k2]]
                        0 <= k1 < k2 < g@.len() ==> self.spec_pcodes()[g@[k1] as int].seq
                            < self.spec_pcodes()[g@[k2] as int].seq
                },
                Err(e) => {
                    &&& asm_idx >= self.spec_asms().len()
                    &&& e matches Error::IndexOutOfRange { index, len } && index == asm_idx && len
                        == self.spec_asms().len()
                },
            },
    {
        proof {
            use_type_invariant(self);
        }
        let n = self.asm_emit.asms.len();
        if asm_idx >= n {
            return Err(Error::IndexOutOfRange { index: asm_idx, len: n });
        }
        let src = &self.idx_map[asm_idx];
        let mut g: Vec<usize> = Vec::new();
        let mut k: usize = 0;
        while k < src.len()
            invariant
                k <= src@.len(),
                g@ == src@.take(k as int),
            decreases src@.len() - k,
        {
            g.push(src[k]);
            k = k + 1;
            proof {
                assert(g@ =~= src@.take(k as int));
            }
        }
        proof {
            assert(src@.take(src@.len() as int) =~= src@);
            assert(self.spec_index()[asm_idx as int] =~= src@);
        }
        Ok(g)
    }
}

impl CollectingAssemblyEmit {
    /// Joins this assembly stream with a collected pcode stream: for every
    /// instruction, the positions of the micro-operations at its exact
    /// address, ordered by sequence number. Succeeds if and only if no two
    /// micro-operations of one instruction's address share a sequence
    /// number; a tie is surfaced as [`Error::CorruptedSequence`] naming two
    /// offending positions.
    #[verifier::rlimit(100)]
    pub fn correspond<'a>(&'a self, pcodes: &'a CollectingPcodeEmit) -> (r: Result<
        CorrespondedCollectedAsm<'a>,
        Error,
    >)
        ensures
            r is Ok <==> !has_seq_tie(self@, pcodes@),
            r matches Ok(c) ==> c.spec_asms() == self@ && c.spec_pcodes() == pcodes@
                && is_correspondence(self@, pcodes@, c.spec_index()),
            r matches Err(e) ==> e matches Error::CorruptedSequence { first, second } && first
                < second < pcodes@.len() && pcodes@[first as int].seq == pcodes@[second as int].seq
                && pcodes@[first as int].addr == pcodes@[second as int].addr,
    {
        let pv = pcodes.pcode_asms();
        let n_asms = self.asms.len();
        let n_pcodes = pv.len();
        let mut idx_map: Vec<Vec<usize>> = Vec::new();
        let mut asm_idx: usize = 0;
        while asm_idx < n_asms
            invariant
                n_asms == self@.len(),
                n_pcodes == pcodes@.len(),
                pv@.map_values(|x: PcodeInstruction| x@) == pcodes@,
                idx_map.deep_view().len() == asm_idx,
                asm_idx <= n_asms,
                forall|i: int|
                    0 <= i < asm_idx ==> valid_group(
                        pcodes@,
                        self@[i].addr,
                        #[trigger] idx_map.deep_view()[i],
                    ),
            decreases n_asms - asm_idx,
        {
            let a = &self.asms[asm_idx].addr;
            let ghost av = self@[asm_idx as int].addr;
            proof {
                assert(a@ == av);
            }
            let mut g: Vec<usize> = Vec::new();
            let mut j: usize = 0;
            while j < n_pcodes
                invariant
                    n_pcodes == pcodes@.len(),
                    pv@.map_values(|x: PcodeInstruction| x@) == pcodes@,
                    a@ == av,
                    asm_idx < self@.len(),
                    av == self@[asm_idx as int].addr,
                    j <= n_pcodes,
                    forall|k: int|
                        0 <= k < g@.len() ==> (#[trigger] g@[k]) < j && pcodes@[g@[k] as int].addr
                            == av,
                    forall|k1: int, k2: int|
                        #![trigger g@[k1], g@[k2]]
                        0 <= k1 < k2 < g@.len() ==> pcodes@[g@[k1] as int].seq < pcodes@[g@[
                        k2] as int].seq,
                    forall|jj: usize|
                        jj < j && (#[trigger] pcodes@[jj as int]).addr == av ==> g@.contains(jj),
                decreases n_pcodes - j,
            {
                proof {
                    assert(pv@[j as int]@ == pcodes@[j as int]);
                }
                if pv[j].addr == *a {
                    let mut pos: usize = g.len();
                    while pos > 0 && pv[g[pos - 1]].seq > pv[j].seq
                        invariant
                            n_pcodes == pcodes@.len(),
                            pv@.map_values(|x: PcodeInstruction| x@) == pcodes@,
                            j < n_pcodes,
                            asm_idx < self@.len(),
                            av == self@[asm_idx as int].addr,
                            pcodes@[j as int].addr == av,
                            pos <= g@.len(),
                            forall|k: int|
                                0 <= k < g@.len() ==> (#[trigger] g@[k]) < j && pcodes@[g@[
                                k] as int].addr == av,
                            forall|k: int|
                                pos <= k < g@.len() ==> pcodes@[(#[trigger] g@[k]) as int].seq
                                    > pcodes@[j as int].seq,
                            forall|k1: int, k2: int|
                                #![trigger g@[k1], g@[k2]]
                                0 <= k1 < k2 < g@.len() ==> pcodes@[g@[k1] as int].seq < pcodes@[g@[
                                k2] as int].seq,
                        decreases pos,
                    {
                        proof {
                            assert(pv@[g@[pos - 1] as int]@ == pcodes@[g@[pos - 1] as int]);
                        }
                        pos = pos - 1;
                    }
                    if pos > 0 {
                        proof {
                            assert(pv@[g@[pos - 1] as int]@ == pcodes@[g@[pos - 1] as int]);
                        }
                        if pv[g[pos - 1]].seq == pv[j].seq {
                            let first = g[pos - 1];
                            proof {
                                let i = asm_idx as int;
                                assert(pcodes@[first as int].addr == (#[trigger] self@[i]).addr);
                                assert(pcodes@[j as int].addr == self@[i].addr);
                                assert(has_seq_tie(self@, pcodes@));
                            }
                            return Err(Error::CorruptedSequence { first: first, second: j });
                        }
                    }
                    let ghost g_old = g@;
                    g.insert(pos, j);
                    proof {
                        assert forall|jj: usize|
                            jj < j + 1 && (#[trigger] pcodes@[jj as int]).addr == av implies g@
                            .contains(jj) by {
                            if jj == j {
                                assert(g@[pos as int] == jj);
                            } else {
                                assert(g_old.contains(jj));
                                let k = choose|k: int| 0 <= k < g_old.len() && g_old[k] == jj;
                                if k < pos {
                                    assert(g@[k] == jj);
                                } else {
                                    assert(g@[k + 1] == jj);
                                }
                            }
                        }
                    }
                }
                j = j + 1;
            }
            let ghost gv = g@;
            let ghost prev_deep = idx_map.deep_view();
            proof {
                assert(valid_group(pcodes@, av, gv));
            }
            idx_map.push(g);
            asm_idx = asm_idx + 1;
            proof {
                assert(idx_map.deep_view().len() == asm_idx);
                assert forall|i: int|
                    0 <= i < asm_idx implies valid_group(
                    pcodes@,
                    self@[i].addr,
                    #[trigger] idx_map.deep_view()[i],
                ) by {
                    if i + 1 == asm_idx {
                        assert(idx_map.deep_view()[i] =~= gv);
                    } else {
                        assert(idx_map.deep_view()[i] == prev_deep[i]);
                    }
                }
            }
        }
        let result = CorrespondedCollectedAsm { asm_emit: self, pcode_emit: pcodes, idx_map };
        proof {
            lemma_correspondence_no_tie(self@, pcodes@, result.spec_index());
        }
        Ok(result)
    }
}

} // verus!
