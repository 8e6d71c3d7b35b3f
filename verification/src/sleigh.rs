//! The decoding session: the address-width mode, the external single-step
//! decode capability, the validating session builder, and the decode loop
//! driver that walks a byte buffer instruction by instruction.
//!
//! The external engine is a capability behind a narrow trait boundary: one
//! call decodes a single instruction at a cursor address and hands back the
//! consumed length together with the one assembly line and the
//! micro-operations it emitted. The driver trusts nothing about it: every
//! postcondition of [`Sleigh::decode`] holds whatever the engine returns.
use crate::emit::CollectingAssemblyEmit;
use crate::emit::CollectingPcodeEmit;
use crate::emit::AssemblyEmit;
use crate::emit::PcodeEmit;
use crate::emit::Instruction;
use crate::address::Address;
use crate::address::PcodeVarnodeData;
use crate::error::Error;
use crate::loader::LoadImage;
use crate::opcode::PcodeOpCode;
use crate::registry::arch_spec;
use crate::registry::spec_resolve;
use vstd::prelude::*;
use vstd::string::StringSliceAdditionalSpecFns;

verus! {

/// The address-width mode of a session; the default is the narrowest.
#[derive(Debug, Clone, Copy, PartialEq, Eq, Structural)]
pub enum Mode {
    /// Address size is 16-bit.
    MODE16,
    /// Address size is 32-bit.
    MODE32,
    /// Address size is 64-bit.
    MODE64,
}

impl Default for Mode {
    fn default() -> (r: Self)
        ensures
            r == Mode::MODE16,
    {
        Mode::MODE16
    }
}

/// One micro-operation as the engine emits it, before the collecting sink
/// assigns its per-address sequence number.
#[derive(Debug)]
pub struct PcodeEmission {
    pub addr: Address,
    pub opcode: PcodeOpCode,
    pub vars: Vec<PcodeVarnodeData>,
    pub out_var: Option<PcodeVarnodeData>,
}

/// Everything one decode step emits: the consumed byte length as the engine
/// reported it, exactly one assembly line, and zero or more
/// micro-operations in emission order.
#[derive(Debug)]
pub struct StepEmission {
    pub length: i32,
    pub instruction: Instruction,
    pub pcodes: Vec<PcodeEmission>,
}

/// The external single-step decode capability.
///
/// An implementation decodes one instruction of the supplied image at a
/// cursor address according to the specification text it was handed at
/// session build, or reports a decode failure in its own words. Nothing is
/// assumed of an implementation; a test double can stand in for the real
/// engine without touching the driver or the correspondence engine.
pub trait DecodeEngine<L: LoadImage> {
    /// Hands the engine the architecture specification text and the
    /// address-width mode before decoding starts.
    fn set_spec(&mut self, spec_text: &str, mode: Mode);

    /// Decodes a single instruction at `cursor`, reading bytes through
    /// `loader`, and returns the step's emissions, or a description of the
    /// failure.
    fn decode_step(&mut self, loader: &L, cursor: u64) -> Result<StepEmission, String>;
}

/// The driver's lifecycle: built but not started, actively stepping, or
/// finished — by buffer exhaustion, by the instruction cap, or by an error.
#[derive(Debug, Clone, Copy, PartialEq, Eq, Structural)]
pub enum DriverState {
    Idle,
    Running,
    Done,
}

/// Accumulates the settings of a decoding session: the byte source, the
/// specification text (given directly or resolved from an architecture
/// name), the two emission sinks, and the optional address-width mode.
///
/// Building a session fails with [`Error::MissingArg`] naming the first
/// absent required setting, checked in a fixed order: byte source,
/// specification, assembly sink, pcode sink. [`SleighSetting::default`]
/// starts from nothing; [`SleighSetting::new`] starts from a byte source
/// and fresh collecting sinks.
#[derive(Debug)]
pub struct SleighSetting<L: LoadImage> {
    pub loader: Option<L>,
    pub spec: Option<String>,
    pub asm_emit: Option<CollectingAssemblyEmit>,
    pub pcode_emit: Option<CollectingPcodeEmit>,
    pub mode: Mode,
}

impl<L: LoadImage> Default for SleighSetting<L> {
    fn default() -> (s: Self)
        ensures
            s.loader is None,
            s.spec is None,
            s.asm_emit is None,
            s.pcode_emit is None,
            s.mode == Mode::MODE16,
    {
        SleighSetting {
            loader: None,
            spec: None,
            asm_emit: None,
            pcode_emit: None,
            mode: Mode::MODE16,
        }
    }
}

impl<L: LoadImage> SleighSetting<L> {
    /// A setting with the given byte source and fresh collecting sinks; the
    /// specification is still owed.
    pub fn new(loader: L) -> (s: Self)
        ensures
            s.loader == Some(loader),
            s.spec is None,
            s.asm_emit matches Some(a) && a@ == Seq::<crate::emit::InstrV>::empty(),
            s.pcode_emit matches Some(p) && p@ == Seq::<crate::emit::PcodeV>::empty(),
            s.mode == Mode::MODE16,
    {
        SleighSetting {
            loader: Some(loader),
            spec: None,
            asm_emit: Some(CollectingAssemblyEmit::default()),
            pcode_emit: Some(CollectingPcodeEmit::default()),
            mode: Mode::MODE16,
        }
    }

    /// A setting with the given byte source and specification text.
    pub fn with_spec(spec_str: &str, loader: L) -> (s: Self)
        ensures
            s.loader == Some(loader),
            s.spec matches Some(t) && t@ == spec_str@,
            s.asm_emit matches Some(a) && a@ == Seq::<crate::emit::InstrV>::empty(),
            s.pcode_emit matches Some(p) && p@ == Seq::<crate::emit::PcodeV>::empty(),
            s.mode == Mode::MODE16,
    {
        let mut s = SleighSetting::new(loader);
        s.spec(spec_str);
        s
    }

    /// A setting with the given byte source and the specification resolved
    /// from an architecture name; fails with [`Error::ArchNotFound`] when
    /// the name matches no preset.
    pub fn with_arch(arch_name: &str, loader: L) -> (r: Result<Self, Error>)
        ensures
            match r {
                Ok(s) => {
                    &&& spec_resolve(arch_name.spec_bytes()) matches Some(c)
                    &&& s.spec matches Some(t) && t@ == c
                    &&& s.loader == Some(loader)
                    &&& s.asm_emit matches Some(a) && a@ == Seq::<crate::emit::InstrV>::empty()
                    &&& s.pcode_emit matches Some(p) && p@ == Seq::<crate::emit::PcodeV>::empty()
                    &&& s.mode == Mode::MODE16
                },
                Err(e) => {
                    &&& spec_resolve(arch_name.spec_bytes()) is None
                    &&& e matches Error::ArchNotFound(n) && n@ == arch_name@
                },
            },
    {
        let mut s = SleighSetting::new(loader);
        match s.arch(arch_name) {
            Ok(()) => Ok(s),
            Err(e) => Err(e),
        }
    }

    /// Sets the byte source.
    pub fn loader(&mut self, loader: L)
        ensures
            *final(self) == (SleighSetting { loader: Some(loader), ..*old(self) }),
    {
        self.loader = Some(loader);
    }

    /// Sets the assembly-emission sink.
    pub fn asm_emit(&mut self, emit: CollectingAssemblyEmit)
        ensures
            *final(self) == (SleighSetting { asm_emit: Some(emit), ..*old(self) }),
    {
        self.asm_emit = Some(emit);
    }

    /// Sets the pcode-emission sink.
    pub fn pcode_emit(&mut self, emit: CollectingPcodeEmit)
        ensures
            *final(self) == (SleighSetting { pcode_emit: Some(emit), ..*old(self) }),
    {
        self.pcode_emit = Some(emit);
    }

    /// Sets the specification text directly.
    pub fn spec(&mut self, spec_str: &str)
        ensures
            final(self).spec matches Some(t) && t@ == spec_str@,
            final(self).loader == old(self).loader,
            final(self).asm_emit == old(self).asm_emit,
            final(self).pcode_emit == old(self).pcode_emit,
            final(self).mode == old(self).mode,
    {
        self.spec = Some(spec_str.to_owned());
    }

    /// Resolves an architecture name against the preset registry and takes
    /// its specification text; on failure the setting is unchanged.
    pub fn arch(&mut self, arch_name: &str) -> (r: Result<(), Error>)
        ensures
            match r {
                Ok(()) => {
                    &&& spec_resolve(arch_name.spec_bytes()) matches Some(c)
                    &&& final(self).spec matches Some(t) && t@ == c
                    &&& final(self).loader == old(self).loader
                    &&& final(self).asm_emit == old(self).asm_emit
                    &&& final(self).pcode_emit == old(self).pcode_emit
                    &&& final(self).mode == old(self).mode
                },
                Err(e) => {
                    &&& spec_resolve(arch_name.spec_bytes()) is None
                    &&& e matches Error::ArchNotFound(n) && n@ == arch_name@
                    &&& *final(self) == *old(self)
                },
            },
    {
        match arch_spec(arch_name) {
            Ok(content) => {
                self.spec = Some(content);
                Ok(())
            },
            Err(e) => Err(e),
        }
    }

    /// Sets the address-width mode.
    pub fn mode(&mut self, mode: Mode)
        ensures
            *final(self) == (SleighSetting { mode: mode, ..*old(self) }),
    {
        self.mode = mode;
    }
}

/// The sum of the byte lengths of a run's decode steps.
pub open spec fn sum_lengths(s: Seq<u64>) -> int
    decreases s.len(),
{
    if s.len() == 0 {
        0
    } else {
        sum_lengths(s.drop_last()) + s.last()
    }
}

/// The cursor after some decode steps: the start offset plus the consumed
/// lengths, wrapped around the 64-bit offset space.
pub open spec fn cursor_after(start: u64, lengths: Seq<u64>) -> int {
    (start + sum_lengths(lengths)) % (u64::MAX as int + 1)
}

proof fn lemma_cursor_advance(start: u64, sum: int, cursor: u64, len: u64)
    requires
        sum >= 0,
        cursor as int == (start + sum) % (u64::MAX as int + 1),
    ensures
        vstd::wrapping::u64_specs::wrapping_add(cursor, len) as int == (start + sum + len) % (
        u64::MAX as int + 1),
{
    let m = u64::MAX as int + 1;
    let s = start + sum;
    vstd::arithmetic::div_mod::lemma_add_mod_noop(s, len as int, m);
    vstd::arithmetic::div_mod::lemma_small_mod(len as nat, m as nat);
    if cursor + len > u64::MAX {
        vstd::arithmetic::div_mod::lemma_mod_multiples_vanish(1, cursor + len - m, m);
        vstd::arithmetic::div_mod::lemma_small_mod((cursor + len - m) as nat, m as nat);
    } else {
        vstd::arithmetic::div_mod::lemma_small_mod((cursor + len) as nat, m as nat);
    }
}

/// A ready decoding session: the engine bound to its specification, the byte
/// source, the two collecting sinks, and the statistics of the most recent
/// run.
pub struct Sleigh<L: LoadImage, E: DecodeEngine<L>> {
    pub engine: E,
    pub loader: L,
    pub asm_emit: CollectingAssemblyEmit,
    pub pcode_emit: CollectingPcodeEmit,
    /// Where the driver stands: `Idle` until the first run, `Done` after.
    pub state: DriverState,
    /// Bytes consumed by the most recent run.
    pub bytes_consumed: u64,
    /// Instructions emitted by the most recent run.
    pub instructions_emitted: u64,
    /// The byte length of each decode step of the most recent run.
    pub step_lengths: Ghost<Seq<u64>>,
}

impl<L: LoadImage, E: DecodeEngine<L>> Sleigh<L, E> {
    /// Builds the session from a setting, checking the four required
    /// settings in order — byte source, specification, assembly sink, pcode
    /// sink — and failing with [`Error::MissingArg`] naming the first one
    /// absent, before any engine interaction. On success the engine is
    /// handed the specification text and the mode, and the session starts
    /// idle with zeroed statistics.
    pub fn with_setting(setting: SleighSetting<L>, engine: E) -> (r: Result<Self, Error>)
        ensures
            match r {
                Ok(s) => {
                    &&& setting.loader matches Some(l) && s.loader == l
                    &&& setting.spec is Some
                    &&& setting.asm_emit matches Some(a) && s.asm_emit == a
                    &&& setting.pcode_emit matches Some(p) && s.pcode_emit == p
                    &&& s.state == DriverState::Idle
                    &&& s.bytes_consumed == 0
                    &&& s.instructions_emitted == 0
                    &&& s.step_lengths@ == Seq::<u64>::empty()
                },
                Err(e) => {
                    &&& e matches Error::MissingArg(name)
                    &&& if setting.loader is None {
                        name@ == "loader"@
                    } else if setting.spec is None {
                        name@ == "spec"@
                    } else if setting.asm_emit is None {
                        name@ == "asm_emit"@
                    } else {
                        setting.pcode_emit is None && name@ == "pcode_emit"@
                    }
                },
            },
    {
        let SleighSetting { loader, spec, asm_emit, pcode_emit, mode } = setting;
        let loader = match loader {
            Some(l) => l,
            None => {
                return Err(Error::MissingArg("loader".to_owned()));
            },
        };
        let spec = match spec {
            Some(t) => t,
            None => {
                return Err(Error::MissingArg("spec".to_owned()));
            },
        };
        let asm_emit = match asm_emit {
            Some(a) => a,
            None => {
                return Err(Error::MissingArg("asm_emit".to_owned()));
            },
        };
        let pcode_emit = match pcode_emit {
            Some(p) => p,
            None => {
                return Err(Error::MissingArg("pcode_emit".to_owned()));
            },
        };
        let mut engine = engine;
        engine.set_spec(spec.as_str(), mode);
        Ok(
            Sleigh {
                engine,
                loader,
                asm_emit,
                pcode_emit,
                state: DriverState::Idle,
                bytes_consumed: 0,
                instructions_emitted: 0,
                step_lengths: Ghost(Seq::empty()),
            },
        )
    }

    /// Builds a session from an architecture name, a byte source and an
    /// engine, with fresh collecting sinks.
    pub fn with_arch(arch_name: &str, loader: L, engine: E) -> (r: Result<Self, Error>)
        ensures
            match r {
                Ok(s) => {
                    &&& spec_resolve(arch_name.spec_bytes()) is Some
                    &&& s.loader == loader
                    &&& s.state == DriverState::Idle
                    &&& s.asm_emit@ == Seq::<crate::emit::InstrV>::empty()
                    &&& s.pcode_emit@ == Seq::<crate::emit::PcodeV>::empty()
                    &&& s.bytes_consumed == 0
                    &&& s.instructions_emitted == 0
                },
                Err(e) => {
                    &&& spec_resolve(arch_name.spec_bytes()) is None
                    &&& e matches Error::ArchNotFound(n) && n@ == arch_name@
                },
            },
    {
        let setting = match SleighSetting::with_arch(arch_name, loader) {
            Ok(s) => s,
            Err(e) => {
                return Err(e);
            },
        };
        match Self::with_setting(setting, engine) {
            Ok(s) => Ok(s),
            Err(e) => {
                proof {
                    assert(false);
                }
                Err(e)
            },
        }
    }

    /// Builds a session from a specification text, a byte source and an
    /// engine, with fresh collecting sinks; every such build succeeds.
    pub fn with_spec(spec_str: &str, loader: L, engine: E) -> (r: Result<Self, Error>)
        ensures
            r matches Ok(s) && s.loader == loader && s.state == DriverState::Idle && s.asm_emit@
                == Seq::<crate::emit::InstrV>::empty() && s.pcode_emit@ == Seq::<
                crate::emit::PcodeV,
            >::empty() && s.bytes_consumed == 0 && s.instructions_emitted == 0,
    {
        let setting = SleighSetting::with_spec(spec_str, loader);
        Self::with_setting(setting, engine)
    }

    /// Runs the decode loop from `start`: repeatedly invokes the engine's
    /// single-step decode at the cursor, feeds the emissions to the two
    /// sinks, and advances by the reported length, while bytes remain in
    /// the buffer and the optional instruction cap is not reached.
    ///
    /// For every run, whatever the engine did: the byte lengths of the
    /// steps sum exactly to `bytes_consumed`, which never exceeds the
    /// buffer size; one instruction is collected per step; earlier
    /// collected results are kept. Every failure is a decode error or an
    /// invalid-length error — never a configuration error — and carries
    /// the failing step's cursor, the start offset plus the lengths
    /// consumed so far: an engine failure is surfaced there immediately,
    /// with no retry or resynchronization, and a reported length that is
    /// negative, zero, or runs past the buffer end is a driver invariant
    /// violation, fatal for the run. Results emitted before a failure
    /// remain valid.
    ///
    /// A buffer of length zero, or an instruction cap of zero, yields zero
    /// instructions and zero pcodes with no error.
    pub fn decode(&mut self, start: u64, inst_size: Option<u64>) -> (r: Result<(), Error>)
        ensures
            final(self).loader == old(self).loader,
            final(self).state == DriverState::Done,
            final(self).instructions_emitted == final(self).step_lengths@.len(),
            final(self).bytes_consumed as int == sum_lengths(final(self).step_lengths@),
            forall|i: int|
                0 <= i < final(self).step_lengths@.len() ==> 1 <= #[trigger] final(self).step_lengths@[i],
            final(self).bytes_consumed <= old(self).loader.contents().len(),
            final(self).asm_emit@.len() == old(self).asm_emit@.len() + final(self).step_lengths@.len(),
            forall|i: int|
                0 <= i < old(self).asm_emit@.len() ==> final(self).asm_emit@[i] == old(self).asm_emit@[i],
            final(self).pcode_emit@.len() >= old(self).pcode_emit@.len(),
            forall|i: int|
                0 <= i < old(self).pcode_emit@.len() ==> final(self).pcode_emit@[i] == old(self).pcode_emit@[i],
            inst_size matches Some(m) ==> final(self).instructions_emitted <= m,
            r is Ok ==> final(self).bytes_consumed == old(self).loader.contents().len() || (
            inst_size matches Some(m) && final(self).instructions_emitted == m),
            old(self).loader.contents().len() == 0 || inst_size == Some(0u64) ==> r is Ok
                && final(self).instructions_emitted == 0 && final(self).asm_emit@ == old(self).asm_emit@ && final(self).pcode_emit@ == old(self).pcode_emit@,
            r matches Err(e) ==> e is DecodeError || e is InvalidLength,
            r matches Err(Error::DecodeError { offset, .. }) ==> offset as int == cursor_after(
                start,
                final(self).step_lengths@,
            ),
            r matches Err(Error::InvalidLength { offset, length }) ==> offset as int
                == cursor_after(start, final(self).step_lengths@) && (length <= 0 || length > old(
                self,
            ).loader.contents().len() - sum_lengths(final(self).step_lengths@)),
    {
        let buf_size = self.loader.buf_size();
        let limit_unset = inst_size.is_none();
        let limit: u64 = match inst_size {
            Some(m) => m,
            None => 0,
        };
        self.state = DriverState::Running;
        self.bytes_consumed = 0;
        self.instructions_emitted = 0;
        self.step_lengths = Ghost(Seq::empty());
        let mut cursor = start;
        proof {
            vstd::arithmetic::div_mod::lemma_small_mod(start as nat, u64::MAX as nat + 1);
        }
        while self.bytes_consumed < buf_size as u64 && (limit_unset || self.instructions_emitted
            < limit)
            invariant
                self.loader == old(self).loader,
                buf_size == self.loader.contents().len(),
                self.instructions_emitted == self.step_lengths@.len(),
                self.bytes_consumed as int == sum_lengths(self.step_lengths@),
                self.instructions_emitted <= self.bytes_consumed,
                self.bytes_consumed <= buf_size as u64,
                forall|i: int|
                    0 <= i < self.step_lengths@.len() ==> 1 <= #[trigger] self.step_lengths@[i],
                self.asm_emit@.len() == old(self).asm_emit@.len() + self.step_lengths@.len(),
                forall|i: int|
                    0 <= i < old(self).asm_emit@.len() ==> self.asm_emit@[i] == old(self).asm_emit@[i],
                self.pcode_emit@.len() >= old(self).pcode_emit@.len(),
                forall|i: int|
                    0 <= i < old(self).pcode_emit@.len() ==> self.pcode_emit@[i] == old(self).pcode_emit@[i],
                self.step_lengths@.len() == 0 ==> self.pcode_emit@ == old(self).pcode_emit@,
                limit_unset <==> inst_size is None,
                inst_size matches Some(m) ==> limit == m,
                !limit_unset ==> self.instructions_emitted <= limit,
                cursor as int == cursor_after(start, self.step_lengths@),
            decreases buf_size as u64 - self.bytes_consumed,
        {
            let step = self.engine.decode_step(&self.loader, cursor);
            let em = match step {
                Ok(em) => em,
                Err(msg) => {
                    self.state = DriverState::Done;
                    return Err(Error::DecodeError { offset: cursor, message: msg });
                },
            };
            if em.length <= 0 {
                self.state = DriverState::Done;
                return Err(Error::InvalidLength { offset: cursor, length: em.length as i64 });
            }
            let length = em.length as u64;
            if length > buf_size as u64 - self.bytes_consumed {
                self.state = DriverState::Done;
                return Err(Error::InvalidLength { offset: cursor, length: em.length as i64 });
            }
            self.asm_emit.dump(
                &em.instruction.addr,
                em.instruction.mnemonic.as_str(),
                em.instruction.body.as_str(),
            );
            let ghost asm_here = self.asm_emit;
            let ghost lengths_here = self.step_lengths@;
            let ghost consumed_here = self.bytes_consumed;
            let ghost emitted_here = self.instructions_emitted;
            let mut j: usize = 0;
            while j < em.pcodes.len()
                invariant
                    j <= em.pcodes@.len(),
                    self.pcode_emit@.len() >= old(self).pcode_emit@.len(),
                    forall|i: int|
                        0 <= i < old(self).pcode_emit@.len() ==> self.pcode_emit@[i] == old(self).pcode_emit@[i],
                    self.loader == old(self).loader,
                    self.asm_emit == asm_here,
                    self.step_lengths@ == lengths_here,
                    self.bytes_consumed == consumed_here,
                    self.instructions_emitted == emitted_here,
                decreases em.pcodes@.len() - j,
            {
                let p = &em.pcodes[j];
                self.pcode_emit.dump(&p.addr, p.opcode, p.out_var.as_ref(), p.vars.as_slice());
                j = j + 1;
            }
            let ghost prev_lengths = self.step_lengths@;
            self.bytes_consumed = self.bytes_consumed + length;
            self.instructions_emitted = self.instructions_emitted + 1;
            self.step_lengths = Ghost(self.step_lengths@.push(length));
            proof {
                lemma_cursor_advance(start, sum_lengths(prev_lengths), cursor, length);
            }
            cursor = cursor.wrapping_add(length);
            proof {
                assert(self.step_lengths@.drop_last() =~= prev_lengths);
            }
        }
        self.state = DriverState::Done;
        proof {
            if old(self).loader.contents().len() == 0 || inst_size == Some(0u64) {
                assert(final(self).asm_emit@ =~= old(self).asm_emit@);
            }
        }
        Ok(())
    }

}

} // verus!
