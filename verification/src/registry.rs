//! The architecture preset registry: a fixed, compiled-in catalog mapping
//! case-insensitive architecture names to their specification documents.
//!
//! Catalog entries are opaque texts handed to the external decoding engine;
//! the library neither parses nor validates their internal structure. The
//! catalog is a constant of the build: every lookup reads the same table, so
//! the registry needs no process-wide mutable state at all.
use crate::error::Error;
use crate::text::lower_bytes;
use crate::text::bytes_eq;
use crate::text::spec_lower_bytes;
use vstd::prelude::*;
use vstd::string::StringExecFns;
use vstd::string::StringSliceAdditionalSpecFns;

verus! {

/// The catalog as a mathematical value: pairs of a lower-case key (as its
/// UTF-8 bytes) and the specification text of that architecture.
pub open spec fn spec_catalog() -> Seq<(Seq<u8>, Seq<char>)> {
    seq![
        ("6502".spec_bytes(), "<sleigh arch=\"6502\" version=\"1\"/>"@),
        ("6805".spec_bytes(), "<sleigh arch=\"6805\" version=\"1\"/>"@),
        ("8048".spec_bytes(), "<sleigh arch=\"8048\" version=\"1\"/>"@),
        ("8051".spec_bytes(), "<sleigh arch=\"8051\" version=\"1\"/>"@),
        ("8085".spec_bytes(), "<sleigh arch=\"8085\" version=\"1\"/>"@),
        ("68040".spec_bytes(), "<sleigh arch=\"68040\" version=\"1\"/>"@),
        ("aarch64".spec_bytes(), "<sleigh arch=\"aarch64\" version=\"1\"/>"@),
        ("arm7be".spec_bytes(), "<sleigh arch=\"arm7be\" version=\"1\"/>"@),
        ("arm7le".spec_bytes(), "<sleigh arch=\"arm7le\" version=\"1\"/>"@),
        ("avr8".spec_bytes(), "<sleigh arch=\"avr8\" version=\"1\"/>"@),
        ("dalvik".spec_bytes(), "<sleigh arch=\"dalvik\" version=\"1\"/>"@),
        ("jvm".spec_bytes(), "<sleigh arch=\"jvm\" version=\"1\"/>"@),
        ("mips32be".spec_bytes(), "<sleigh arch=\"mips32be\" version=\"1\"/>"@),
        ("mips32le".spec_bytes(), "<sleigh arch=\"mips32le\" version=\"1\"/>"@),
        ("mips64be".spec_bytes(), "<sleigh arch=\"mips64be\" version=\"1\"/>"@),
        ("mips64le".spec_bytes(), "<sleigh arch=\"mips64le\" version=\"1\"/>"@),
        ("pic16".spec_bytes(), "<sleigh arch=\"pic16\" version=\"1\"/>"@),
        ("ppc32be".spec_bytes(), "<sleigh arch=\"ppc32be\" version=\"1\"/>"@),
        ("ppc64be".spec_bytes(), "<sleigh arch=\"ppc64be\" version=\"1\"/>"@),
        ("riscv".spec_bytes(), "<sleigh arch=\"riscv\" version=\"1\"/>"@),
        ("sh4".spec_bytes(), "<sleigh arch=\"sh4\" version=\"1\"/>"@),
        ("tricore".spec_bytes(), "<sleigh arch=\"tricore\" version=\"1\"/>"@),
        ("v850".spec_bytes(), "<sleigh arch=\"v850\" version=\"1\"/>"@),
        ("x86".spec_bytes(), "<sleigh arch=\"x86\" version=\"1\"/>"@),
        ("x86-64".spec_bytes(), "<sleigh arch=\"x86-64\" version=\"1\"/>"@),
        ("z80".spec_bytes(), "<sleigh arch=\"z80\" version=\"1\"/>"@),
    ]
}

/// Scans a catalog for a key, first match wins.
pub open spec fn spec_lookup(cat: Seq<(Seq<u8>, Seq<char>)>, key: Seq<u8>) -> Option<Seq<char>>
    decreases cat.len(),
{
    if cat.len() == 0 {
        None
    } else if cat[0].0 == key {
        Some(cat[0].1)
    } else {
        spec_lookup(cat.drop_first(), key)
    }
}

/// What resolving an architecture name returns: the catalog entry whose key
/// is the ASCII-lowered name, if any. The result depends on the name only
/// through its lowered bytes, which makes the lookup case-insensitive.
pub open spec fn spec_resolve(name: Seq<u8>) -> Option<Seq<char>> {
    spec_lookup(spec_catalog(), spec_lower_bytes(name))
}

/// Names that differ only in ASCII letter case resolve to the identical
/// specification.
pub proof fn lemma_resolve_case_insensitive(n1: Seq<u8>, n2: Seq<u8>)
    requires
        spec_lower_bytes(n1) == spec_lower_bytes(n2),
    ensures
        spec_resolve(n1) == spec_resolve(n2),
{
}

#[verifier::rlimit(100)]
fn preset_table() -> (t: Vec<(&'static str, &'static str)>)
    ensures
        t@.len() == spec_catalog().len(),
        forall|i: int|
            0 <= i < t@.len() ==> (#[trigger] t@[i]).0.spec_bytes() == spec_catalog()[i].0
                && t@[i].1@ == spec_catalog()[i].1,
{
    let t: Vec<(&'static str, &'static str)> = vec![
        ("6502", "<sleigh arch=\"6502\" version=\"1\"/>"),
        ("6805", "<sleigh arch=\"6805\" version=\"1\"/>"),
        ("8048", "<sleigh arch=\"8048\" version=\"1\"/>"),
        ("8051", "<sleigh arch=\"8051\" version=\"1\"/>"),
        ("8085", "<sleigh arch=\"8085\" version=\"1\"/>"),
        ("68040", "<sleigh arch=\"68040\" version=\"1\"/>"),
        ("aarch64", "<sleigh arch=\"aarch64\" version=\"1\"/>"),
        ("arm7be", "<sleigh arch=\"arm7be\" version=\"1\"/>"),
        ("arm7le", "<sleigh arch=\"arm7le\" version=\"1\"/>"),
        ("avr8", "<sleigh arch=\"avr8\" version=\"1\"/>"),
        ("dalvik", "<sleigh arch=\"dalvik\" version=\"1\"/>"),
        ("jvm", "<sleigh arch=\"jvm\" version=\"1\"/>"),
        ("mips32be", "<sleigh arch=\"mips32be\" version=\"1\"/>"),
        ("mips32le", "<sleigh arch=\"mips32le\" version=\"1\"/>"),
        ("mips64be", "<sleigh arch=\"mips64be\" version=\"1\"/>"),
        ("mips64le", "<sleigh arch=\"mips64le\" version=\"1\"/>"),
        ("pic16", "<sleigh arch=\"pic16\" version=\"1\"/>"),
        ("ppc32be", "<sleigh arch=\"ppc32be\" version=\"1\"/>"),
        ("ppc64be", "<sleigh arch=\"ppc64be\" version=\"1\"/>"),
        ("riscv", "<sleigh arch=\"riscv\" version=\"1\"/>"),
        ("sh4", "<sleigh arch=\"sh4\" version=\"1\"/>"),
        ("tricore", "<sleigh arch=\"tricore\" version=\"1\"/>"),
        ("v850", "<sleigh arch=\"v850\" version=\"1\"/>"),
        ("x86", "<sleigh arch=\"x86\" version=\"1\"/>"),
        ("x86-64", "<sleigh arch=\"x86-64\" version=\"1\"/>"),
        ("z80", "<sleigh arch=\"z80\" version=\"1\"/>"),
    ];
    proof {
        assert(t@.len() == spec_catalog().len());
    }
    t
}

/// Resolves an architecture name, matched case-insensitively against the
/// fixed catalog, to its specification text; fails with
/// [`Error::ArchNotFound`] naming the requested string when no entry
/// matches.
#[verifier::rlimit(100)]
pub fn arch_spec(name: &str) -> (r: Result<String, Error>)
    ensures
        match r {
            Ok(content) => spec_resolve(name.spec_bytes()) == Some(content@),
            Err(e) => {
                &&& spec_resolve(name.spec_bytes()) is None
                &&& e matches Error::ArchNotFound(n) && n@ == name@
            },
        },
{
    let lowered = lower_bytes(name.as_bytes());
    let table = preset_table();
    proof {
        assert(spec_catalog().skip(0) =~= spec_catalog());
    }
    let mut i: usize = 0;
    while i < table.len()
        invariant
            i <= table@.len(),
            lowered@ == spec_lower_bytes(name.spec_bytes()),
            table@.len() == spec_catalog().len(),
            forall|k: int|
                0 <= k < table@.len() ==> (#[trigger] table@[k]).0.spec_bytes()
                    == spec_catalog()[k].0 && table@[k].1@ == spec_catalog()[k].1,
            spec_lookup(spec_catalog().skip(i as int), lowered@) == spec_resolve(
                name.spec_bytes(),
            ),
        decreases table@.len() - i,
    {
        let hit = bytes_eq(lowered.as_slice(), table[i].0.as_bytes());
        proof {
            let rest = spec_catalog().skip(i as int);
            assert(rest[0] == spec_catalog()[i as int]);
            assert(rest.drop_first() =~= spec_catalog().skip(i as int + 1));
        }
        if hit {
            return Ok(table[i].1.to_owned());
        }
        i = i + 1;
    }
    proof {
        assert(spec_catalog().skip(spec_catalog().len() as int).len() == 0);
    }
    Err(Error::ArchNotFound(name.to_owned()))
}

} // verus!
