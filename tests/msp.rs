use msp::alu::{arith, decimal_add, CARRYF, NEGF, OVERF, ZEROF};
use msp::cpu::Cpu;
use msp::isa::{get_addressing_mode, parse_inst, AddressingMode, Fault, OpType, Operation};

fn two(opc: u16, sreg: u16, ad: u16, bw: u16, as_: u16, dreg: u16) -> u16 {
    (opc << 12) | (sreg << 8) | (ad << 7) | (bw << 6) | (as_ << 4) | dreg
}

fn one(opc: u16, bw: u16, ad: u16, reg: u16) -> u16 {
    0x1000 | (opc << 7) | (bw << 6) | (ad << 4) | reg
}

fn jump(cond: u16, off: u16) -> u16 {
    0x2000 | (cond << 10) | (off & 0x3ff)
}

fn cpu_with(words: &[u16]) -> Cpu {
    let mut cpu = Cpu::new();
    for (i, w) in words.iter().enumerate() {
        cpu.write_word((2 * i) as u16, *w);
    }
    cpu
}

#[test]
fn parse_tests() {
    let instrs: Vec<u16> = vec![0x4031, 0x37ff, 0x118b];
    let optype = vec![OpType::TwoArg, OpType::NoArg, OpType::OneArg];
    let opcodes: Vec<u8> = vec![0b0100, 0b101, 0b011];
    let sourceregs: Vec<u8> = vec![0, 0, 0];
    let ads = vec![AddressingMode::Direct, AddressingMode::Direct, AddressingMode::Direct];
    let bws = vec![false, false, false];
    let ass = vec![
        AddressingMode::IndirectAutoIncrement,
        AddressingMode::Direct,
        AddressingMode::Direct,
    ];
    let destregs: Vec<u8> = vec![0b0001, 0, 11];
    for (ix, &code) in instrs.iter().enumerate() {
        let inst = parse_inst(code).unwrap();
        assert_eq!(inst.opcode, opcodes[ix]);
        assert_eq!(inst.optype, optype[ix]);
        assert_eq!(inst.sourcereg, sourceregs[ix]);
        assert_eq!(inst.dest_mode, ads[ix]);
        assert_eq!(inst.bw, bws[ix]);
        assert_eq!(inst.source_mode, ass[ix]);
        assert_eq!(inst.destreg, destregs[ix]);
    }
}

#[test]
fn cpu_test() {
    let mut cpu = Cpu::new();
    cpu.write_word(0, 0x4031);
    cpu.write_word(2, 0x4400);
    println!("{:?}", cpu.registers());
    assert_eq!(cpu.step(), Ok(()));
    println!("{:?}", cpu.registers());
    println!("{}", cpu.last_instruction().to_string());
}

#[test]
fn mov_autoincrement_through_pc() {
    let mut cpu = cpu_with(&[0x4031, 0x4400]);
    assert_eq!(cpu.step(), Ok(()));
    // the source address was R0 after the fetch of the opcode word: 2
    assert_eq!(cpu.get_reg(1), 0x4400);
    assert_eq!(cpu.get_reg(0), 4);
}

#[test]
fn decode_every_opcode() {
    let twos = [
        (4, Operation::Mov),
        (5, Operation::Add),
        (6, Operation::Addc),
        (7, Operation::Subc),
        (8, Operation::Sub),
        (9, Operation::Cmp),
        (10, Operation::Dadd),
        (11, Operation::Bit),
        (12, Operation::Bic),
        (13, Operation::Bis),
        (14, Operation::Xor),
        (15, Operation::And),
    ];
    for (opc, op) in twos.iter() {
        let i = parse_inst(two(*opc, 5, 0, 0, 0, 6)).unwrap();
        assert_eq!(i.optype, OpType::TwoArg);
        assert_eq!(i.opcode, *opc as u8);
        assert_eq!(i.op, *op);
    }
    let ones = [
        (0, Operation::Rrc),
        (1, Operation::Swpb),
        (2, Operation::Rra),
        (3, Operation::Sxt),
        (4, Operation::Push),
        (5, Operation::Call),
        (6, Operation::Reti),
    ];
    for (opc, op) in ones.iter() {
        let i = parse_inst(one(*opc, 0, 0, 7)).unwrap();
        assert_eq!(i.optype, OpType::OneArg);
        assert_eq!(i.opcode, *opc as u8);
        assert_eq!(i.op, *op);
    }
    let jumps = [
        (0, Operation::Jne),
        (1, Operation::Jeq),
        (2, Operation::Jnc),
        (3, Operation::Jc),
        (4, Operation::Jn),
        (5, Operation::Jge),
        (6, Operation::Jl),
        (7, Operation::Jmp),
    ];
    for (opc, op) in jumps.iter() {
        let i = parse_inst(jump(*opc, 3)).unwrap();
        assert_eq!(i.optype, OpType::NoArg);
        assert_eq!(i.opcode, *opc as u8);
        assert_eq!(i.op, *op);
        assert_eq!(i.offset, 6);
    }
}

#[test]
fn decode_unused_single_operand_opcode() {
    let w = one(7, 0, 0, 4);
    assert_eq!(
        parse_inst(w),
        Err(Fault::IllegalOpcode { word: w, format: OpType::OneArg })
    );
}

#[test]
fn decode_sign_extends_jump_offset() {
    // offset field 0x3ff is -1 words: -2 bytes
    assert_eq!(parse_inst(jump(7, 0x3ff)).unwrap().offset, 0xfffe);
    assert_eq!(parse_inst(jump(7, 0x200)).unwrap().offset, 0xfc00);
    assert_eq!(parse_inst(jump(7, 0x1ff)).unwrap().offset, 0x03fe);
}

#[test]
fn addressing_mode_table() {
    for reg in 0u8..16 {
        let expect = match reg {
            2 => [
                AddressingMode::Direct,
                AddressingMode::Absolute,
                AddressingMode::Constant4,
                AddressingMode::Constant8,
            ],
            3 => [
                AddressingMode::Constant0,
                AddressingMode::Constant1,
                AddressingMode::Constant2,
                AddressingMode::ConstantNeg1,
            ],
            _ => [
                AddressingMode::Direct,
                AddressingMode::Indexed,
                AddressingMode::Indirect,
                AddressingMode::IndirectAutoIncrement,
            ],
        };
        for sel in 0u8..4 {
            assert_eq!(get_addressing_mode(sel, reg), Ok(expect[sel as usize]));
        }
    }
    assert_eq!(get_addressing_mode(0, 16), Err(Fault::IllegalRegister));
    assert_eq!(get_addressing_mode(4, 5), Err(Fault::IllegalAddressingMode));
}

#[test]
fn pc_advance_by_extension_words() {
    // MOV R5, R6: no extension word
    let mut cpu = cpu_with(&[two(4, 5, 0, 0, 0, 6)]);
    cpu.step().unwrap();
    assert_eq!(cpu.get_reg(0), 2);
    // MOV 4(R5), 8(R6): two extension words, source first
    let mut cpu = cpu_with(&[two(4, 5, 1, 0, 1, 6), 4, 8]);
    cpu.set_reg(5, 0x100);
    cpu.set_reg(6, 0x200);
    cpu.write_word(0x104, 0xbeef);
    cpu.step().unwrap();
    assert_eq!(cpu.get_reg(0), 6);
    assert_eq!(cpu.read_word(0x208), 0xbeef);
    // MOV &0x300, R7: one extension word through R2's absolute mode
    let mut cpu = cpu_with(&[two(4, 2, 0, 0, 1, 7), 0x300]);
    cpu.write_word(0x300, 0x1234);
    cpu.step().unwrap();
    assert_eq!(cpu.get_reg(0), 4);
    assert_eq!(cpu.get_reg(7), 0x1234);
    // MOV @R5, R6: indirect, no extension word
    let mut cpu = cpu_with(&[two(4, 5, 0, 0, 2, 6)]);
    cpu.set_reg(5, 0x100);
    cpu.write_word(0x100, 0x5555);
    cpu.step().unwrap();
    assert_eq!(cpu.get_reg(0), 2);
    assert_eq!(cpu.get_reg(6), 0x5555);
}

#[test]
fn autoincrement_adds_two_for_bytes_too() {
    // MOV.B @R5+, R6
    let mut cpu = cpu_with(&[two(4, 5, 0, 1, 3, 6)]);
    cpu.set_reg(5, 0x101);
    cpu.write_byte(0x101, 0xab);
    cpu.step().unwrap();
    assert_eq!(cpu.get_reg(5), 0x103);
    assert_eq!(cpu.get_reg(6), 0xab);
}

#[test]
fn byte_store_keeps_neighbour() {
    // MOV.B R5, 0(R6)
    let mut cpu = cpu_with(&[two(4, 5, 1, 1, 0, 6), 0]);
    cpu.set_reg(5, 0x12ff);
    cpu.set_reg(6, 0x200);
    cpu.write_word(0x200, 0xaaaa);
    cpu.step().unwrap();
    assert_eq!(cpu.read_word(0x200), 0xaaff);
}

#[test]
fn mov_bic_bis_keep_flags() {
    for opc in [4u16, 12, 13] {
        let mut cpu = cpu_with(&[two(opc, 5, 0, 0, 0, 6)]);
        cpu.set_reg(2, ZEROF | NEGF | CARRYF | OVERF);
        cpu.set_reg(5, 0x0f0f);
        cpu.set_reg(6, 0x00ff);
        cpu.step().unwrap();
        assert_eq!(cpu.get_reg(2), ZEROF | NEGF | CARRYF | OVERF);
    }
}

#[test]
fn add_sets_flags() {
    // ADD R5, R6 with 0x7fff + 1: negative and overflow
    let mut cpu = cpu_with(&[two(5, 5, 0, 0, 0, 6)]);
    cpu.set_reg(5, 1);
    cpu.set_reg(6, 0x7fff);
    cpu.step().unwrap();
    assert_eq!(cpu.get_reg(6), 0x8000);
    assert_eq!(cpu.get_reg(2), NEGF | OVERF);
    // 0xffff + 1: zero and carry
    let mut cpu = cpu_with(&[two(5, 5, 0, 0, 0, 6)]);
    cpu.set_reg(5, 1);
    cpu.set_reg(6, 0xffff);
    cpu.step().unwrap();
    assert_eq!(cpu.get_reg(6), 0);
    assert_eq!(cpu.get_reg(2), ZEROF | CARRYF);
}

#[test]
fn byte_add_flags_by_width() {
    // ADD.B R5, R6: 0x80 + 0x80 = 0x100 wraps to 0 in a byte
    let mut cpu = cpu_with(&[two(5, 5, 0, 1, 0, 6)]);
    cpu.set_reg(5, 0x80);
    cpu.set_reg(6, 0x1280);
    cpu.step().unwrap();
    assert_eq!(cpu.get_reg(6), 0);
    assert_eq!(cpu.get_reg(2), ZEROF | CARRYF | OVERF);
}

#[test]
fn sub_and_cmp() {
    // SUB R5, R6: 5 - 3
    let mut cpu = cpu_with(&[two(8, 5, 0, 0, 0, 6)]);
    cpu.set_reg(5, 3);
    cpu.set_reg(6, 5);
    cpu.step().unwrap();
    assert_eq!(cpu.get_reg(6), 2);
    assert_eq!(cpu.get_reg(2), CARRYF);
    // CMP R5, R6 on equal values: zero, destination kept
    let mut cpu = cpu_with(&[two(9, 5, 0, 0, 0, 6)]);
    cpu.set_reg(5, 7);
    cpu.set_reg(6, 7);
    cpu.step().unwrap();
    assert_eq!(cpu.get_reg(6), 7);
    assert_eq!(cpu.get_reg(2), ZEROF | CARRYF);
}

#[test]
fn and_xor_bit() {
    let mut cpu = cpu_with(&[two(15, 5, 0, 0, 0, 6)]);
    cpu.set_reg(5, 0xf0f0);
    cpu.set_reg(6, 0x0ff0);
    cpu.step().unwrap();
    assert_eq!(cpu.get_reg(6), 0x00f0);
    assert_eq!(cpu.get_reg(2), CARRYF);
    let mut cpu = cpu_with(&[two(14, 5, 0, 0, 0, 6)]);
    cpu.set_reg(5, 0x8001);
    cpu.set_reg(6, 0x8001);
    cpu.step().unwrap();
    assert_eq!(cpu.get_reg(6), 0);
    assert_eq!(cpu.get_reg(2), ZEROF | OVERF);
    let mut cpu = cpu_with(&[two(11, 5, 0, 0, 0, 6)]);
    cpu.set_reg(5, 0x8000);
    cpu.set_reg(6, 0x8001);
    cpu.step().unwrap();
    assert_eq!(cpu.get_reg(6), 0x8001);
    assert_eq!(cpu.get_reg(2), NEGF | CARRYF);
}

#[test]
fn constant_generator_reads_minus_one() {
    // MOV #-1 (R3, selector 3), R5 while R3 holds something else
    let mut cpu = cpu_with(&[two(4, 3, 0, 0, 3, 5)]);
    cpu.set_reg(3, 0x1234);
    cpu.step().unwrap();
    assert_eq!(cpu.get_reg(5), 0xffff);
    assert_eq!(cpu.get_reg(0), 2);
}

#[test]
fn constant_generator_refuses_store() {
    // ADD R5, R3: the destination is the constant 0
    let mut cpu = cpu_with(&[two(5, 5, 0, 0, 0, 3)]);
    assert_eq!(cpu.step(), Err(Fault::InvalidStoreTarget));
    let r = cpu._store(3, AddressingMode::ConstantNeg1, false, 5);
    assert_eq!(r, Err(Fault::InvalidStoreTarget));
}

#[test]
fn jge_all_flag_combinations() {
    for (n, v, taken) in [(false, false, true), (false, true, false), (true, false, false), (true, true, true)] {
        let mut cpu = cpu_with(&[jump(5, 4)]);
        let mut sr = 0;
        if n {
            sr |= NEGF;
        }
        if v {
            sr |= OVERF;
        }
        cpu.set_reg(2, sr);
        cpu.step().unwrap();
        assert_eq!(cpu.get_reg(0), if taken { 10 } else { 2 });
    }
}

#[test]
fn carry_jumps_polarity() {
    let mut cpu = cpu_with(&[jump(2, 4)]);
    cpu.set_reg(2, CARRYF);
    cpu.step().unwrap();
    assert_eq!(cpu.get_reg(0), 2);
    let mut cpu = cpu_with(&[jump(3, 4)]);
    cpu.set_reg(2, CARRYF);
    cpu.step().unwrap();
    assert_eq!(cpu.get_reg(0), 10);
}

#[test]
fn backward_jump() {
    let mut cpu = Cpu::new();
    cpu.write_word(0x100, jump(7, 0x3fe));
    cpu.set_reg(0, 0x100);
    cpu.step().unwrap();
    assert_eq!(cpu.get_reg(0), 0xfe);
}

#[test]
fn sxt_examples() {
    let mut cpu = cpu_with(&[one(3, 0, 0, 5)]);
    cpu.set_reg(5, 0x00ff);
    cpu.step().unwrap();
    assert_eq!(cpu.get_reg(5), 0xffff);
    let mut cpu = cpu_with(&[one(3, 0, 0, 5)]);
    cpu.set_reg(5, 0x007f);
    cpu.step().unwrap();
    assert_eq!(cpu.get_reg(5), 0x007f);
}

#[test]
fn dadd_carries_between_digits() {
    let mut cpu = cpu_with(&[two(10, 5, 0, 0, 0, 6)]);
    cpu.set_reg(5, 0x09);
    cpu.set_reg(6, 0x01);
    cpu.step().unwrap();
    assert_eq!(cpu.get_reg(6), 0x10);
    assert_eq!(decimal_add(false, 0x9999, 0x0001, 0), (0x0000, ZEROF | CARRYF));
    assert_eq!(decimal_add(true, 0x45, 0x38, CARRYF).0, 0x84);
}

#[test]
fn arith_formula() {
    assert_eq!(arith(false, 0x1234, 0x1111, 0, 0), (0x2345, 0));
    assert_eq!(arith(true, 0xff, 0x01, 0, 0), (0x00, ZEROF | CARRYF));
}

#[test]
fn rotates_and_swap() {
    // RRC R5 with carry set: 0x0001 -> 0x8000, carry out 1
    let mut cpu = cpu_with(&[one(0, 0, 0, 5)]);
    cpu.set_reg(5, 0x0001);
    cpu.set_reg(2, CARRYF);
    cpu.step().unwrap();
    assert_eq!(cpu.get_reg(5), 0x8000);
    assert_eq!(cpu.get_reg(2), NEGF | CARRYF);
    // RRA R5: 0x8002 -> 0xc001
    let mut cpu = cpu_with(&[one(2, 0, 0, 5)]);
    cpu.set_reg(5, 0x8002);
    cpu.step().unwrap();
    assert_eq!(cpu.get_reg(5), 0xc001);
    assert_eq!(cpu.get_reg(2), NEGF);
    // SWPB R5
    let mut cpu = cpu_with(&[one(1, 0, 0, 5)]);
    cpu.set_reg(5, 0x1234);
    cpu.step().unwrap();
    assert_eq!(cpu.get_reg(5), 0x3412);
    assert_eq!(cpu.get_reg(2), 0);
}

#[test]
fn push_call_reti() {
    // PUSH R5
    let mut cpu = cpu_with(&[one(4, 0, 0, 5)]);
    cpu.set_reg(1, 0x400);
    cpu.set_reg(5, 0xcafe);
    cpu.step().unwrap();
    assert_eq!(cpu.get_reg(1), 0x3fe);
    assert_eq!(cpu.read_word(0x3fe), 0xcafe);
    // CALL: pushes the address of the target word, jumps to the target
    let mut cpu = cpu_with(&[one(5, 0, 0, 0), 0x200]);
    cpu.set_reg(1, 0x400);
    cpu.step().unwrap();
    assert_eq!(cpu.get_reg(0), 0x200);
    assert_eq!(cpu.get_reg(1), 0x3fe);
    assert_eq!(cpu.read_word(0x3fe), 2);
    // RETI: pops the status register, then the program counter
    let mut cpu = cpu_with(&[one(6, 0, 0, 0)]);
    cpu.set_reg(1, 0x3fc);
    cpu.write_word(0x3fc, ZEROF);
    cpu.write_word(0x3fe, 0x120);
    cpu.step().unwrap();
    assert_eq!(cpu.get_reg(2), ZEROF);
    assert_eq!(cpu.get_reg(0), 0x120);
    assert_eq!(cpu.get_reg(1), 0x400);
}

#[test]
fn illegal_opcode_surfaces() {
    let w = one(7, 0, 0, 4);
    let mut cpu = cpu_with(&[w]);
    assert_eq!(cpu.step(), Err(Fault::IllegalOpcode { word: w, format: OpType::OneArg }));
    assert_eq!(cpu.get_reg(0), 2);
}

#[test]
fn load_reports_bad_register() {
    let mut cpu = Cpu::new();
    assert_eq!(cpu.load(16, AddressingMode::Direct, false), Err(Fault::IllegalRegister));
    cpu.set_reg(4, 9);
    assert_eq!(cpu.load(4, AddressingMode::Direct, false), Ok(9));
}

#[test]
fn display_of_last_instruction() {
    let mut cpu = cpu_with(&[0x4031, 0x4400]);
    cpu.step().unwrap();
    let last = cpu.last_instruction();
    assert_eq!(last.namer(), "MOV");
    assert_eq!(last.to_string(), "MOV 4400 0000");
    let j = parse_inst(jump(7, 0x3ff)).unwrap();
    assert_eq!(j.to_string(), "JMP fffe");
}
