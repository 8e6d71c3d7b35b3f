//! A verified disassembly orchestration library.
//!
//! The library drives a streaming decode session on top of an external
//! single-step instruction decoder: it resolves named architecture presets,
//! validates and assembles a session, walks a byte buffer instruction by
//! instruction, collects the two emission streams (assembly lines and
//! micro-operations), and joins them into an address-ordered, queryable
//! correspondence index.

pub mod address;
pub mod correspond;
pub mod emit;
pub mod error;
pub mod export;
pub mod loader;
pub mod opcode;
pub mod registry;
pub mod sleigh;
pub mod text;

pub use address::Address;
pub use address::PcodeVarnodeData;
pub use correspond::CorrespondedCollectedAsm;
pub use emit::AssemblyEmit;
pub use emit::CollectingAssemblyEmit;
pub use emit::CollectingPcodeEmit;
pub use emit::Instruction;
pub use emit::PcodeEmit;
pub use emit::PcodeInstruction;
pub use error::Error;
pub use export::AsmRow;
pub use export::PcodeRow;
pub use export::asm_row;
pub use export::pcode_row;
pub use loader::LoadImage;
pub use loader::PlainLoadImage;
pub use opcode::PcodeOpCode;
pub use registry::arch_spec;
pub use sleigh::DecodeEngine;
pub use sleigh::DriverState;
pub use sleigh::Mode;
pub use sleigh::PcodeEmission;
pub use sleigh::Sleigh;
pub use sleigh::SleighSetting;
pub use sleigh::StepEmission;
pub use text::u64_to_dec;
