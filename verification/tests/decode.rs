use sleighcraft::Address;
use sleighcraft::DecodeEngine;
use sleighcraft::DriverState;
use sleighcraft::Error;
use sleighcraft::Instruction;
use sleighcraft::LoadImage;
use sleighcraft::Mode;
use sleighcraft::PcodeEmission;
use sleighcraft::PcodeOpCode;
use sleighcraft::PlainLoadImage;
use sleighcraft::Sleigh;
use sleighcraft::SleighSetting;
use sleighcraft::StepEmission;

fn ram(offset: u64) -> Address {
    Address {
        space: "ram".to_string(),
        offset,
    }
}

/// A small deterministic engine standing in for the native decoder: it
/// decodes a toy subset of each architecture it is handed, keyed on the
/// specification text it received at session build.
struct ToyEngine {
    spec_text: String,
}

impl ToyEngine {
    fn new() -> Self {
        ToyEngine {
            spec_text: String::new(),
        }
    }

    fn step(
        &self,
        addr: Address,
        length: i32,
        mnemonic: &str,
        body: &str,
        pcodes: Vec<PcodeEmission>,
    ) -> StepEmission {
        StepEmission {
            length,
            instruction: Instruction {
                addr,
                mnemonic: mnemonic.to_string(),
                body: body.to_string(),
            },
            pcodes,
        }
    }

    fn pcode(&self, addr: Address, opcode: PcodeOpCode) -> PcodeEmission {
        PcodeEmission {
            addr,
            opcode,
            vars: Vec::new(),
            out_var: None,
        }
    }
}

impl DecodeEngine<PlainLoadImage> for ToyEngine {
    fn set_spec(&mut self, spec_text: &str, _mode: Mode) {
        self.spec_text = spec_text.to_string();
    }

    fn decode_step(
        &mut self,
        loader: &PlainLoadImage,
        cursor: u64,
    ) -> Result<StepEmission, String> {
        if self.spec_text.contains("mips32le") {
            let b = loader.load_fill(4, &ram(cursor));
            let w = u32::from_le_bytes([b[0], b[1], b[2], b[3]]);
            match w >> 26 {
                2 => Ok(self.step(
                    ram(cursor),
                    4,
                    "j",
                    "",
                    vec![self.pcode(ram(cursor), PcodeOpCode::BRANCH)],
                )),
                0 => Ok(self.step(
                    ram(cursor),
                    4,
                    "add",
                    "",
                    vec![self.pcode(ram(cursor), PcodeOpCode::INT_ADD)],
                )),
                13 => Ok(self.step(
                    ram(cursor),
                    4,
                    "ori",
                    "",
                    vec![self.pcode(ram(cursor), PcodeOpCode::INT_OR)],
                )),
                op => Err(format!("unknown mips opcode {}", op)),
            }
        } else if self.spec_text.contains("x86") {
            let b = loader.load_fill(2, &ram(cursor));
            match b[0] {
                0x90 => Ok(self.step(
                    ram(cursor),
                    1,
                    "NOP",
                    "",
                    vec![self.pcode(ram(cursor), PcodeOpCode::COPY)],
                )),
                0x58 => Ok(self.step(
                    ram(cursor),
                    1,
                    "POP",
                    "EAX",
                    vec![
                        self.pcode(ram(cursor), PcodeOpCode::LOAD),
                        self.pcode(ram(cursor), PcodeOpCode::INT_ADD),
                    ],
                )),
                0x32 => Ok(self.step(
                    ram(cursor),
                    2,
                    "XOR",
                    "DH,CL",
                    vec![self.pcode(ram(cursor), PcodeOpCode::INT_XOR)],
                )),
                other => Err(format!("unknown x86 byte {}", other)),
            }
        } else {
            // An unrecognized (custom) specification: fixed two-byte words.
            Ok(self.step(
                ram(cursor),
                2,
                "WORD",
                "",
                vec![self.pcode(ram(cursor), PcodeOpCode::COPY)],
            ))
        }
    }
}

#[test]
fn test_custom_spec() {
    let compiled = "<sleigh arch=\"toy-custom\" version=\"1\"/>";

    let buf = [0x20, 0x30];

    let loader = PlainLoadImage::from_buf(&buf, 0);

    let setting = SleighSetting::with_spec(compiled, loader);
    let mut sleigh = Sleigh::with_setting(setting, ToyEngine::new()).unwrap();

    sleigh.decode(0, None).unwrap();

    assert_eq!(sleigh.asm_emit.asms.len(), 1);
    assert!(sleigh.pcode_emit.pcode_asms().len() > 0);
}

#[test]
fn test_x86() {
    let buf = [0x90, 0x32, 0x31];
    let loader = PlainLoadImage::from_buf(&buf, 0);

    let mut setting = SleighSetting::with_arch("x86", loader).unwrap();
    setting.mode(Mode::MODE32);
    let mut sleigh = Sleigh::with_setting(setting, ToyEngine::new()).unwrap();

    sleigh.decode(0, None).unwrap();

    assert!(sleigh.asm_emit.asms.len() == 2);
    assert!(sleigh.pcode_emit.pcode_asms().len() > 0);
}

#[test]
fn test_x86_case_ignoring() {
    let buf = [0x90, 0x32, 0x31];
    let loader = PlainLoadImage::from_buf(&buf, 0);

    let mut setting = SleighSetting::with_arch("X86", loader).unwrap();
    setting.mode(Mode::MODE32);
    let mut sleigh = Sleigh::with_setting(setting, ToyEngine::new()).unwrap();

    sleigh.decode(0, None).unwrap();

    assert!(sleigh.asm_emit.asms.len() == 2);
    assert!(sleigh.pcode_emit.pcode_asms().len() > 0);
}

#[test]
fn test_x86_64_bit() {
    let buf = [0x90, 0x58];
    let loader = PlainLoadImage::from_buf(&buf, 0);
    let mut setting = SleighSetting::with_arch("X86-64", loader).unwrap();
    setting.mode(Mode::MODE64);
    let mut sleigh = Sleigh::with_setting(setting, ToyEngine::new()).unwrap();

    sleigh.decode(0, None).unwrap();

    assert!(sleigh.asm_emit.asms.len() == 2);
    assert!(sleigh.pcode_emit.pcode_asms().len() > 0);
}

#[test]
fn test_mips32le_bit() {
    /*
    0x0 j 8
    0x4 add $1, $2, $3
    0x8 ori $1, $2, 0x64
    */
    let buf = [2, 0, 0, 8, 32, 8, 67, 0, 100, 0, 65, 52];
    let loader = PlainLoadImage::from_buf(&buf, 0);
    let mut sleigh = Sleigh::with_arch("mips32le", loader, ToyEngine::new()).unwrap();

    sleigh.decode(0, None).unwrap();

    assert!(sleigh.asm_emit.asms.len() > 0);
    assert!(sleigh.pcode_emit.pcode_asms().len() > 0);
}

#[test]
fn x86_scenario_two_instructions_each_with_pcode() {
    let buf = [0x90, 0x32, 0x31];
    let loader = PlainLoadImage::from_buf(&buf, 0);
    let setting = SleighSetting::with_arch("x86", loader).unwrap();
    let mut sleigh = Sleigh::with_setting(setting, ToyEngine::new()).unwrap();

    sleigh.decode(0, None).unwrap();

    assert_eq!(sleigh.asm_emit.asms.len(), 2);
    assert_eq!(sleigh.bytes_consumed, 3);
    assert_eq!(sleigh.instructions_emitted, 2);
    assert_eq!(sleigh.asm_emit.asms[0].mnemonic, "NOP");
    assert_eq!(sleigh.asm_emit.asms[1].mnemonic, "XOR");

    let joined = sleigh.asm_emit.correspond(&sleigh.pcode_emit).unwrap();
    for i in 0..2 {
        let group = joined.pcode_indices_of_asm(i).unwrap();
        assert!(group.len() >= 1);
    }
}

#[test]
fn mips_scenario_three_words() {
    let buf = [2, 0, 0, 8, 32, 8, 67, 0, 100, 0, 65, 52];
    let loader = PlainLoadImage::from_buf(&buf, 0);
    let mut sleigh = Sleigh::with_arch("mips32le", loader, ToyEngine::new()).unwrap();

    sleigh.decode(0, None).unwrap();

    assert_eq!(sleigh.asm_emit.asms.len(), 3);
    assert_eq!(sleigh.bytes_consumed, 12);
    let joined = sleigh.asm_emit.correspond(&sleigh.pcode_emit).unwrap();
    let pcodes = joined.pcodes();

    let g0 = joined.pcode_indices_of_asm(0).unwrap();
    assert!(matches!(pcodes[g0[0]].opcode, PcodeOpCode::BRANCH));

    let g1 = joined.pcode_indices_of_asm(1).unwrap();
    assert!(matches!(pcodes[g1[0]].opcode, PcodeOpCode::INT_ADD));

    let g2 = joined.pcode_indices_of_asm(2).unwrap();
    assert!(matches!(pcodes[g2[0]].opcode, PcodeOpCode::INT_OR));
}

#[test]
fn empty_buffer_decodes_nothing() {
    let buf: [u8; 0] = [];
    let loader = PlainLoadImage::from_buf(&buf, 0);
    let mut sleigh = Sleigh::with_arch("x86", loader, ToyEngine::new()).unwrap();

    sleigh.decode(0, None).unwrap();

    assert_eq!(sleigh.asm_emit.asms.len(), 0);
    assert_eq!(sleigh.pcode_emit.pcode_asms().len(), 0);
    assert_eq!(sleigh.bytes_consumed, 0);
    assert_eq!(sleigh.instructions_emitted, 0);
}

#[test]
fn zero_instruction_cap_decodes_nothing() {
    let buf = [0x90, 0x32, 0x31];
    let loader = PlainLoadImage::from_buf(&buf, 0);
    let mut sleigh = Sleigh::with_arch("x86", loader, ToyEngine::new()).unwrap();

    sleigh.decode(0, Some(0)).unwrap();

    assert_eq!(sleigh.asm_emit.asms.len(), 0);
    assert_eq!(sleigh.pcode_emit.pcode_asms().len(), 0);
    assert_eq!(sleigh.bytes_consumed, 0);
}

#[test]
fn instruction_cap_stops_the_run() {
    let buf = [0x90, 0x32, 0x31];
    let loader = PlainLoadImage::from_buf(&buf, 0);
    let mut sleigh = Sleigh::with_arch("x86", loader, ToyEngine::new()).unwrap();

    sleigh.decode(0, Some(1)).unwrap();

    assert_eq!(sleigh.asm_emit.asms.len(), 1);
    assert_eq!(sleigh.bytes_consumed, 1);
    assert!(matches!(sleigh.state, DriverState::Done));
}


fn build_err<E: DecodeEngine<PlainLoadImage>>(
    setting: SleighSetting<PlainLoadImage>,
    engine: E,
) -> Error {
    match Sleigh::with_setting(setting, engine) {
        Err(e) => e,
        Ok(_) => panic!("expected the build to fail"),
    }
}

#[test]
fn missing_asm_sink_fails_before_the_engine() {
    let buf = [0x90];
    let loader = PlainLoadImage::from_buf(&buf, 0);
    let mut setting: SleighSetting<PlainLoadImage> = SleighSetting::default();
    setting.loader(loader);
    setting.spec("<sleigh arch=\"x86\" version=\"1\"/>");
    setting.pcode_emit(Default::default());

    let err = build_err(setting, ToyEngine::new());
    match err {
        Error::MissingArg(name) => assert_eq!(name, "asm_emit"),
        other => panic!("expected MissingArg, got {:?}", other),
    }
}

#[test]
fn missing_settings_are_reported_in_order() {
    let setting: SleighSetting<PlainLoadImage> = SleighSetting::default();
    let err = build_err(setting, ToyEngine::new());
    assert!(matches!(err, Error::MissingArg(ref n) if n == "loader"));

    let buf = [0x90];
    let mut setting: SleighSetting<PlainLoadImage> = SleighSetting::default();
    setting.loader(PlainLoadImage::from_buf(&buf, 0));
    let err = build_err(setting, ToyEngine::new());
    assert!(matches!(err, Error::MissingArg(ref n) if n == "spec"));

    let mut setting: SleighSetting<PlainLoadImage> = SleighSetting::default();
    setting.loader(PlainLoadImage::from_buf(&buf, 0));
    setting.spec("<custom/>");
    setting.asm_emit(Default::default());
    let err = build_err(setting, ToyEngine::new());
    assert!(matches!(err, Error::MissingArg(ref n) if n == "pcode_emit"));
}

/// An engine double that always fails, to exercise error propagation.
struct FailingEngine;

impl DecodeEngine<PlainLoadImage> for FailingEngine {
    fn set_spec(&mut self, _spec_text: &str, _mode: Mode) {}

    fn decode_step(
        &mut self,
        _loader: &PlainLoadImage,
        _cursor: u64,
    ) -> Result<StepEmission, String> {
        Err("bad pattern".to_string())
    }
}

#[test]
fn engine_failure_is_surfaced_with_the_address() {
    let buf = [0x90];
    let loader = PlainLoadImage::from_buf(&buf, 0);
    let mut sleigh = Sleigh::with_arch("x86", loader, FailingEngine).unwrap();

    let err = sleigh.decode(7, None).unwrap_err();
    match err {
        Error::DecodeError { offset, message } => {
            assert_eq!(offset, 7);
            assert_eq!(message, "bad pattern");
        }
        other => panic!("expected DecodeError, got {:?}", other),
    }
    assert!(matches!(sleigh.state, DriverState::Done));
}

/// An engine double that reports a length running past the buffer end.
struct OvershootingEngine;

impl DecodeEngine<PlainLoadImage> for OvershootingEngine {
    fn set_spec(&mut self, _spec_text: &str, _mode: Mode) {}

    fn decode_step(
        &mut self,
        _loader: &PlainLoadImage,
        cursor: u64,
    ) -> Result<StepEmission, String> {
        Ok(StepEmission {
            length: 9,
            instruction: Instruction {
                addr: ram(cursor),
                mnemonic: "BIG".to_string(),
                body: String::new(),
            },
            pcodes: Vec::new(),
        })
    }
}

#[test]
fn implausible_length_is_a_driver_invariant_violation() {
    let buf = [0x90, 0x90];
    let loader = PlainLoadImage::from_buf(&buf, 0);
    let mut sleigh = Sleigh::with_arch("x86", loader, OvershootingEngine).unwrap();

    let err = sleigh.decode(0, None).unwrap_err();
    match err {
        Error::InvalidLength { offset, length } => {
            assert_eq!(offset, 0);
            assert_eq!(length, 9);
        }
        other => panic!("expected InvalidLength, got {:?}", other),
    }
}

/// An engine double that fails on the second step only.
struct SecondStepFails {
    steps: u32,
}

impl DecodeEngine<PlainLoadImage> for SecondStepFails {
    fn set_spec(&mut self, _spec_text: &str, _mode: Mode) {}

    fn decode_step(
        &mut self,
        _loader: &PlainLoadImage,
        cursor: u64,
    ) -> Result<StepEmission, String> {
        self.steps += 1;
        if self.steps > 1 {
            return Err("stuck".to_string());
        }
        Ok(StepEmission {
            length: 1,
            instruction: Instruction {
                addr: ram(cursor),
                mnemonic: "ONE".to_string(),
                body: String::new(),
            },
            pcodes: vec![PcodeEmission {
                addr: ram(cursor),
                opcode: PcodeOpCode::COPY,
                vars: Vec::new(),
                out_var: None,
            }],
        })
    }
}

#[test]
fn partial_results_remain_after_a_decode_error() {
    let buf = [0x90, 0x90];
    let loader = PlainLoadImage::from_buf(&buf, 0);
    let mut sleigh = Sleigh::with_arch("x86", loader, SecondStepFails { steps: 0 }).unwrap();

    let err = sleigh.decode(0, None).unwrap_err();
    assert!(matches!(err, Error::DecodeError { offset: 1, .. }));
    assert_eq!(sleigh.asm_emit.asms.len(), 1);
    assert_eq!(sleigh.pcode_emit.pcode_asms().len(), 1);
}

#[test]
fn bytes_consumed_matches_the_buffer_when_the_run_completes() {
    let buf = [0x90, 0x32, 0x31];
    let loader = PlainLoadImage::from_buf(&buf, 0);
    let mut sleigh = Sleigh::with_arch("x86", loader, ToyEngine::new()).unwrap();

    sleigh.decode(0, None).unwrap();

    // Two steps of lengths 1 and 2: their sum is exactly the bytes consumed,
    // which is exactly the buffer size.
    assert_eq!(sleigh.bytes_consumed, 3);
    assert_eq!(sleigh.instructions_emitted, 2);
}

/// An engine double that reports a negative length.
struct NegativeLengthEngine;

impl DecodeEngine<PlainLoadImage> for NegativeLengthEngine {
    fn set_spec(&mut self, _spec_text: &str, _mode: Mode) {}

    fn decode_step(
        &mut self,
        _loader: &PlainLoadImage,
        cursor: u64,
    ) -> Result<StepEmission, String> {
        Ok(StepEmission {
            length: -1,
            instruction: Instruction {
                addr: ram(cursor),
                mnemonic: "NEG".to_string(),
                body: String::new(),
            },
            pcodes: Vec::new(),
        })
    }
}

#[test]
fn negative_length_is_fatal_and_collects_nothing() {
    let buf = [0x90];
    let loader = PlainLoadImage::from_buf(&buf, 0);
    let mut sleigh = Sleigh::with_arch("x86", loader, NegativeLengthEngine).unwrap();

    let err = sleigh.decode(0, None).unwrap_err();
    assert!(matches!(
        err,
        Error::InvalidLength {
            offset: 0,
            length: -1
        }
    ));
    assert_eq!(sleigh.asm_emit.asms.len(), 0);
}

#[test]
fn decode_error_offset_counts_from_the_start_offset() {
    let buf = [0x90, 0x90];
    let loader = PlainLoadImage::from_buf(&buf, 0);
    let mut sleigh = Sleigh::with_arch("x86", loader, SecondStepFails { steps: 0 }).unwrap();

    // One one-byte step succeeds at cursor 5; the failure is reported at 6.
    let err = sleigh.decode(5, None).unwrap_err();
    assert!(matches!(err, Error::DecodeError { offset: 6, .. }));
}
