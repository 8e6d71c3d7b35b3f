use std::cmp::Ordering;

use sleighcraft::asm_row;
use sleighcraft::pcode_row;
use sleighcraft::u64_to_dec;
use sleighcraft::Address;
use sleighcraft::Instruction;
use sleighcraft::LoadImage;
use sleighcraft::Mode;
use sleighcraft::PcodeInstruction;
use sleighcraft::PcodeOpCode;
use sleighcraft::PcodeVarnodeData;
use sleighcraft::PlainLoadImage;

fn var(space: &str, offset: usize, size: u32) -> PcodeVarnodeData {
    PcodeVarnodeData {
        space: space.to_string(),
        offset,
        size,
    }
}

#[test]
fn address_equality_needs_space_and_offset() {
    let a = Address {
        space: "ram".to_string(),
        offset: 16,
    };
    let b = Address {
        space: "ram".to_string(),
        offset: 16,
    };
    let c = Address {
        space: "register".to_string(),
        offset: 16,
    };
    let d = Address {
        space: "ram".to_string(),
        offset: 17,
    };
    assert_eq!(a, b);
    assert_ne!(a, c);
    assert_ne!(a, d);
}

#[test]
fn addresses_of_one_space_are_ordered() {
    let a = Address {
        space: "ram".to_string(),
        offset: 1,
    };
    let b = Address {
        space: "ram".to_string(),
        offset: 2,
    };
    assert_eq!(a.partial_cmp(&b), Some(Ordering::Less));
    assert_eq!(b.partial_cmp(&a), Some(Ordering::Greater));
    assert_eq!(a.partial_cmp(&a), Some(Ordering::Equal));
    assert!(a < b);
    assert_eq!(a.cmp(&b), Ordering::Less);
}

#[test]
fn addresses_of_different_spaces_have_no_order() {
    let a = Address {
        space: "ram".to_string(),
        offset: 1,
    };
    let b = Address {
        space: "register".to_string(),
        offset: 2,
    };
    assert_eq!(a.partial_cmp(&b), None);
}

#[test]
fn address_text_is_space_then_offset() {
    let a = Address {
        space: "ram".to_string(),
        offset: 4096,
    };
    assert_eq!(a.to_text(), "ram(4096)");
}

#[test]
fn decimal_rendering_is_exact() {
    assert_eq!(u64_to_dec(0), "0");
    assert_eq!(u64_to_dec(7), "7");
    assert_eq!(u64_to_dec(10), "10");
    assert_eq!(u64_to_dec(12345), "12345");
    assert_eq!(u64_to_dec(u64::MAX), "18446744073709551615");
}

#[test]
fn opcode_names_match_their_identifiers() {
    assert_eq!(PcodeOpCode::COPY.name(), "COPY");
    assert_eq!(PcodeOpCode::INT_SLESSEQUAL.name(), "INT_SLESSEQUAL");
    assert_eq!(PcodeOpCode::FLOAT_FLOAT2FLOAT.name(), "FLOAT_FLOAT2FLOAT");
    assert_eq!(PcodeOpCode::MAX.name(), "MAX");
}

#[test]
fn mode_defaults_to_the_narrowest() {
    assert!(matches!(Mode::default(), Mode::MODE16));
}

#[test]
fn instruction_setters_replace_each_field() {
    let mut inst = Instruction {
        addr: Address {
            space: "ram".to_string(),
            offset: 0,
        },
        mnemonic: "NOP".to_string(),
        body: String::new(),
    };
    inst.set_addr("register".to_string(), 8);
    inst.set_mnemonic("MOV".to_string());
    inst.set_body("EAX,EBX".to_string());
    assert_eq!(inst.addr.space, "register");
    assert_eq!(inst.addr.offset, 8);
    assert_eq!(inst.mnemonic, "MOV");
    assert_eq!(inst.body, "EAX,EBX");
}

#[test]
fn load_fill_zero_fills_outside_the_covered_range() {
    let image = PlainLoadImage::from_buf(&[1, 2, 3], 10);
    let filled = image.load_fill(
        6,
        &Address {
            space: "ram".to_string(),
            offset: 8,
        },
    );
    assert_eq!(filled, vec![0, 0, 1, 2, 3, 0]);
    assert_eq!(image.buf_size(), 3);
}

#[test]
fn load_fill_reads_inside_the_covered_range() {
    let image = PlainLoadImage::from_buf(&[9, 8, 7, 6], 0);
    let filled = image.load_fill(
        2,
        &Address {
            space: "ram".to_string(),
            offset: 1,
        },
    );
    assert_eq!(filled, vec![8, 7]);
}

#[test]
fn asm_row_copies_the_instruction_fields() {
    let inst = Instruction {
        addr: Address {
            space: "ram".to_string(),
            offset: 2,
        },
        mnemonic: "XOR".to_string(),
        body: "DH,CL".to_string(),
    };
    let row = asm_row(&inst);
    assert_eq!(row.space, "ram");
    assert_eq!(row.offset, 2);
    assert_eq!(row.mnemonic, "XOR");
    assert_eq!(row.body, "DH,CL");
}

#[test]
fn pcode_row_keeps_two_operands_inline() {
    let p = PcodeInstruction {
        addr: Address {
            space: "ram".to_string(),
            offset: 4,
        },
        seq: 0,
        opcode: PcodeOpCode::INT_ADD,
        vars: vec![var("register", 0, 4), var("register", 8, 4)],
        out_var: Some(var("register", 16, 4)),
    };
    let row = pcode_row(&p);
    assert_eq!(row.space, "ram");
    assert_eq!(row.offset, 4);
    assert_eq!(row.op, "INT_ADD");
    assert_eq!(row.opr1.as_ref().unwrap().offset, 0);
    assert_eq!(row.opr2.as_ref().unwrap().offset, 8);
    assert_eq!(row.out_var.as_ref().unwrap().offset, 16);
    assert!(row.comment.is_none());
}

#[test]
fn pcode_row_overflows_extra_operands_to_text() {
    let p = PcodeInstruction {
        addr: Address {
            space: "ram".to_string(),
            offset: 0,
        },
        seq: 0,
        opcode: PcodeOpCode::CALLOTHER,
        vars: vec![
            var("const", 1, 4),
            var("register", 2, 4),
            var("register", 3, 2),
            var("unique", 4, 8),
        ],
        out_var: None,
    };
    let row = pcode_row(&p);
    assert_eq!(row.op, "CALLOTHER");
    assert_eq!(
        row.comment.as_deref(),
        Some("register(3):2, unique(4):8")
    );
    assert!(row.out_var.is_none());
}

#[test]
fn pcode_row_with_no_operands_is_all_empty() {
    let p = PcodeInstruction {
        addr: Address {
            space: "ram".to_string(),
            offset: 0,
        },
        seq: 0,
        opcode: PcodeOpCode::RETURN,
        vars: Vec::new(),
        out_var: None,
    };
    let row = pcode_row(&p);
    assert!(row.opr1.is_none());
    assert!(row.opr2.is_none());
    assert!(row.comment.is_none());
}
