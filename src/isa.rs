use vstd::prelude::*;
use vstd::string::*;

verus! {

/// The three instruction classes, told apart by the top three bits of a word.
#[derive(Clone, Copy, Debug, PartialEq, Eq, Structural)]
pub enum OpType {
    /// Conditional and unconditional jumps.
    NoArg,
    /// Single-operand instructions.
    OneArg,
    /// Double-operand instructions.
    TwoArg,
}

/// How an operand is reached, once the register number is known.
#[derive(Clone, Copy, Debug, PartialEq, Eq, Structural)]
pub enum AddressingMode {
    Direct,
    Indexed,
    Indirect,
    IndirectAutoIncrement,
    Absolute,
    ConstantNeg1,
    Constant0,
    Constant1,
    Constant2,
    Constant4,
    Constant8,
}

/// One variant per operation of the instruction set.
#[derive(Clone, Copy, Debug, PartialEq, Eq, Structural)]
pub enum Operation {
    Jne,
    Jeq,
    Jnc,
    Jc,
    Jn,
    Jge,
    Jl,
    Jmp,
    Rrc,
    Swpb,
    Rra,
    Sxt,
    Push,
    Call,
    Reti,
    Mov,
    Add,
    Addc,
    Subc,
    Sub,
    Cmp,
    Dadd,
    Bit,
    Bic,
    Bis,
    Xor,
    And,
}

/// Why a step could not be carried out.
#[derive(Clone, Copy, Debug, PartialEq, Eq, Structural)]
pub enum Fault {
    /// The word's opcode field names no operation of its class.
    IllegalOpcode { word: u16, format: OpType },
    /// An addressing selector outside 0..=3.
    IllegalAddressingMode,
    /// A register index outside 0..=15.
    IllegalRegister,
    /// A store through a constant-generator encoding.
    InvalidStoreTarget,
}

/// A decoded instruction word. Fields that a class does not use are zero
/// (registers, offset) or `Direct` (modes).
#[derive(Clone, Copy, Debug, PartialEq, Eq, Structural)]
pub struct Instruction {
    /// The raw opcode word.
    pub code: u16,
    pub optype: OpType,
    /// The class-scoped numeric opcode field.
    pub opcode: u8,
    pub op: Operation,
    /// Jump displacement in bytes: the 10-bit field sign-extended and doubled,
    /// as a two's-complement 16-bit value.
    pub offset: u16,
    /// Byte (true) or word (false) operand width.
    pub bw: bool,
    pub dest_mode: AddressingMode,
    pub source_mode: AddressingMode,
    pub sourcereg: u8,
    pub destreg: u8,
    /// Source operand value, filled in when the instruction is executed.
    pub sourcearg: u16,
    /// Destination operand value before execution, filled in likewise.
    pub destarg: u16,
}

/// The architecture's fixed table from (register, selector) to mode.
pub open spec fn mode_spec(reg: u8, sel: u8) -> AddressingMode {
    if reg == 2 {
        if sel == 0 {
            AddressingMode::Direct
        } else if sel == 1 {
            AddressingMode::Absolute
        } else if sel == 2 {
            AddressingMode::Constant4
        } else {
            AddressingMode::Constant8
        }
    } else if reg == 3 {
        if sel == 0 {
            AddressingMode::Constant0
        } else if sel == 1 {
            AddressingMode::Constant1
        } else if sel == 2 {
            AddressingMode::Constant2
        } else {
            AddressingMode::ConstantNeg1
        }
    } else {
        if sel == 0 {
            AddressingMode::Direct
        } else if sel == 1 {
            AddressingMode::Indexed
        } else if sel == 2 {
            AddressingMode::Indirect
        } else {
            AddressingMode::IndirectAutoIncrement
        }
    }
}

/// Mode lookup for in-range arguments.
pub fn mode_of(sel: u8, reg: u8) -> (r: AddressingMode)
    requires
        sel < 4,
        reg < 16,
    ensures
        r == mode_spec(reg, sel),
{
    if reg == 2 {
        match sel {
            0 => AddressingMode::Direct,
            1 => AddressingMode::Absolute,
            2 => AddressingMode::Constant4,
            _ => AddressingMode::Constant8,
        }
    } else if reg == 3 {
        match sel {
            0 => AddressingMode::Constant0,
            1 => AddressingMode::Constant1,
            2 => AddressingMode::Constant2,
            _ => AddressingMode::ConstantNeg1,
        }
    } else {
        match sel {
            0 => AddressingMode::Direct,
            1 => AddressingMode::Indexed,
            2 => AddressingMode::Indirect,
            _ => AddressingMode::IndirectAutoIncrement,
        }
    }
}

/// Resolves a (selector, register) pair to an addressing mode. Registers 2
/// and 3 never reach the indexed or indirect modes.
pub fn get_addressing_mode(sel: u8, reg: u8) -> (r: Result<AddressingMode, Fault>)
    ensures
        reg >= 16 ==> r == Err::<AddressingMode, Fault>(Fault::IllegalRegister),
        reg < 16 && sel >= 4 ==> r == Err::<AddressingMode, Fault>(Fault::IllegalAddressingMode),
        reg < 16 && sel < 4 ==> r == Ok::<AddressingMode, Fault>(mode_spec(reg, sel)),
        (reg == 2 || reg == 3) && r is Ok ==> r->Ok_0 != AddressingMode::Indexed
            && r->Ok_0 != AddressingMode::Indirect
            && r->Ok_0 != AddressingMode::IndirectAutoIncrement,
{
    if reg >= 16 {
        Err(Fault::IllegalRegister)
    } else if sel >= 4 {
        Err(Fault::IllegalAddressingMode)
    } else {
        Ok(mode_of(sel, reg))
    }
}

pub open spec fn optype_spec(code: u16) -> OpType {
    if code >> 13 == 0 {
        OpType::OneArg
    } else if code >> 13 == 1 {
        OpType::NoArg
    } else {
        OpType::TwoArg
    }
}

/// The instruction class of a word, from its top three bits.
pub fn get_optype(code: u16) -> (r: OpType)
    ensures
        r == optype_spec(code),
{
    let top = code >> 13;
    if top == 0 {
        OpType::OneArg
    } else if top == 1 {
        OpType::NoArg
    } else {
        OpType::TwoArg
    }
}


/// Double-operand operations by their 4-bit opcode field.
pub open spec fn op_two(opcode: u8) -> Option<Operation> {
    if opcode == 4 {
        Some(Operation::Mov)
    } else if opcode == 5 {
        Some(Operation::Add)
    } else if opcode == 6 {
        Some(Operation::Addc)
    } else if opcode == 7 {
        Some(Operation::Subc)
    } else if opcode == 8 {
        Some(Operation::Sub)
    } else if opcode == 9 {
        Some(Operation::Cmp)
    } else if opcode == 10 {
        Some(Operation::Dadd)
    } else if opcode == 11 {
        Some(Operation::Bit)
    } else if opcode == 12 {
        Some(Operation::Bic)
    } else if opcode == 13 {
        Some(Operation::Bis)
    } else if opcode == 14 {
        Some(Operation::Xor)
    } else if opcode == 15 {
        Some(Operation::And)
    } else {
        None
    }
}

/// Single-operand operations by their 3-bit opcode field; 7 is unused.
pub open spec fn op_one(opcode: u8) -> Option<Operation> {
    if opcode == 0 {
        Some(Operation::Rrc)
    } else if opcode == 1 {
        Some(Operation::Swpb)
    } else if opcode == 2 {
        Some(Operation::Rra)
    } else if opcode == 3 {
        Some(Operation::Sxt)
    } else if opcode == 4 {
        Some(Operation::Push)
    } else if opcode == 5 {
        Some(Operation::Call)
    } else if opcode == 6 {
        Some(Operation::Reti)
    } else {
        None
    }
}

/// Jump operations by their 3-bit opcode field.
pub open spec fn op_jump(opcode: u8) -> Operation {
    if opcode == 0 {
        Operation::Jne
    } else if opcode == 1 {
        Operation::Jeq
    } else if opcode == 2 {
        Operation::Jnc
    } else if opcode == 3 {
        Operation::Jc
    } else if opcode == 4 {
        Operation::Jn
    } else if opcode == 5 {
        Operation::Jge
    } else if opcode == 6 {
        Operation::Jl
    } else {
        Operation::Jmp
    }
}

/// The jump displacement of a word: bits 9..0 sign-extended, times two.
pub open spec fn offset_spec(code: u16) -> u16 {
    let raw = code & 0x3ff;
    if raw & 0x200 != 0 {
        (raw | 0xfc00) << 1u16
    } else {
        raw << 1u16
    }
}

pub open spec fn twoarg_spec(code: u16) -> Result<Instruction, Fault> {
    let opcode = ((code & 0xf000) >> 12u16) as u8;
    let sourcereg = ((code & 0xf00) >> 8u16) as u8;
    let destreg = (code & 0xf) as u8;
    match op_two(opcode) {
        None => Err(Fault::IllegalOpcode { word: code, format: OpType::TwoArg }),
        Some(op) => Ok(
            Instruction {
                code,
                optype: OpType::TwoArg,
                opcode,
                op,
                offset: 0,
                bw: (code & 0x40) >> 6u16 != 0,
                dest_mode: mode_spec(destreg, ((code & 0x80) >> 7u16) as u8),
                source_mode: mode_spec(sourcereg, ((code & 0x30) >> 4u16) as u8),
                sourcereg,
                destreg,
                sourcearg: 0,
                destarg: 0,
            },
        ),
    }
}

pub open spec fn onearg_spec(code: u16) -> Result<Instruction, Fault> {
    let opcode = ((code & 0x380) >> 7u16) as u8;
    let destreg = (code & 0xf) as u8;
    match op_one(opcode) {
        None => Err(Fault::IllegalOpcode { word: code, format: OpType::OneArg }),
        Some(op) => Ok(
            Instruction {
                code,
                optype: OpType::OneArg,
                opcode,
                op,
                offset: 0,
                bw: (code & 0x40) >> 6u16 != 0,
                dest_mode: mode_spec(destreg, ((code & 0x30) >> 4u16) as u8),
                source_mode: AddressingMode::Direct,
                sourcereg: 0,
                destreg,
                sourcearg: 0,
                destarg: 0,
            },
        ),
    }
}

pub open spec fn noarg_spec(code: u16) -> Instruction {
    let opcode = ((code & 0x1c00) >> 10u16) as u8;
    Instruction {
        code,
        optype: OpType::NoArg,
        opcode,
        op: op_jump(opcode),
        offset: offset_spec(code),
        bw: false,
        dest_mode: AddressingMode::Direct,
        source_mode: AddressingMode::Direct,
        sourcereg: 0,
        destreg: 0,
        sourcearg: 0,
        destarg: 0,
    }
}

/// What a word decodes to.
pub open spec fn decode_spec(code: u16) -> Result<Instruction, Fault> {
    match optype_spec(code) {
        OpType::NoArg => Ok(noarg_spec(code)),
        OpType::OneArg => onearg_spec(code),
        OpType::TwoArg => twoarg_spec(code),
    }
}

/// A decoded instruction whose register fields are in range.
pub open spec fn inst_wf(i: Instruction) -> bool {
    i.sourcereg < 16 && i.destreg < 16
}

impl Instruction {
    /// An empty instruction: a jump class word of all zeros, nothing resolved.
    pub fn new() -> (r: Instruction)
        ensures
            r == noarg_spec(0),
    {
        let r = Instruction {
            code: 0,
            optype: OpType::NoArg,
            opcode: 0,
            op: Operation::Jne,
            offset: 0,
            bw: false,
            dest_mode: AddressingMode::Direct,
            source_mode: AddressingMode::Direct,
            sourcereg: 0,
            destreg: 0,
            sourcearg: 0,
            destarg: 0,
        };
        assert(offset_spec(0) == 0) by (bit_vector);
        assert(((0u16 & 0x1c00u16) >> 10u16) as u8 == 0) by (bit_vector);
        r
    }
}

/// Splits a double-operand word into its fields.
pub fn twoarg_split(code: u16) -> (r: Result<Instruction, Fault>)
    ensures
        r == twoarg_spec(code),
        r is Ok ==> inst_wf(r->Ok_0),
{
    let opcode = ((code & 0xf000) >> 12) as u8;
    let sourcereg = ((code & 0xf00) >> 8) as u8;
    let destreg = (code & 0xf) as u8;
    let ssel = ((code & 0x30) >> 4) as u8;
    let dsel = ((code & 0x80) >> 7) as u8;
    assert((code & 0xf000) >> 12u16 < 16 && (code & 0xf00) >> 8u16 < 16 && code & 0xf < 16
        && (code & 0x30) >> 4u16 < 4 && (code & 0x80) >> 7u16 < 2) by (bit_vector);
    let op = match opcode {
        4 => Operation::Mov,
        5 => Operation::Add,
        6 => Operation::Addc,
        7 => Operation::Subc,
        8 => Operation::Sub,
        9 => Operation::Cmp,
        10 => Operation::Dadd,
        11 => Operation::Bit,
        12 => Operation::Bic,
        13 => Operation::Bis,
        14 => Operation::Xor,
        15 => Operation::And,
        _ => {
            return Err(Fault::IllegalOpcode { word: code, format: OpType::TwoArg });
        },
    };
    Ok(
        Instruction {
            code,
            optype: OpType::TwoArg,
            opcode,
            op,
            offset: 0,
            bw: (code & 0x40) >> 6 != 0,
            dest_mode: mode_of(dsel, destreg),
            source_mode: mode_of(ssel, sourcereg),
            sourcereg,
            destreg,
            sourcearg: 0,
            destarg: 0,
        },
    )
}

/// Splits a single-operand word into its fields.
pub fn onearg_split(code: u16) -> (r: Result<Instruction, Fault>)
    ensures
        r == onearg_spec(code),
        r is Ok ==> inst_wf(r->Ok_0),
{
    let opcode = ((code & 0x380) >> 7) as u8;
    let destreg = (code & 0xf) as u8;
    let dsel = ((code & 0x30) >> 4) as u8;
    assert((code & 0x380) >> 7u16 < 8 && code & 0xf < 16 && (code & 0x30) >> 4u16 < 4)
        by (bit_vector);
    let op = match opcode {
        0 => Operation::Rrc,
        1 => Operation::Swpb,
        2 => Operation::Rra,
        3 => Operation::Sxt,
        4 => Operation::Push,
        5 => Operation::Call,
        6 => Operation::Reti,
        _ => {
            return Err(Fault::IllegalOpcode { word: code, format: OpType::OneArg });
        },
    };
    Ok(
        Instruction {
            code,
            optype: OpType::OneArg,
            opcode,
            op,
            offset: 0,
            bw: (code & 0x40) >> 6 != 0,
            dest_mode: mode_of(dsel, destreg),
            source_mode: AddressingMode::Direct,
            sourcereg: 0,
            destreg,
            sourcearg: 0,
            destarg: 0,
        },
    )
}

/// Splits a jump word into its condition and signed displacement.
pub fn noarg_split(code: u16) -> (r: Instruction)
    ensures
        r == noarg_spec(code),
        inst_wf(r),
{
    let opcode = ((code & 0x1c00) >> 10) as u8;
    assert((code & 0x1c00) >> 10u16 < 8) by (bit_vector);
    let raw = code & 0x3ff;
    let offset = if raw & 0x200 != 0 {
        (raw | 0xfc00) << 1
    } else {
        raw << 1
    };
    let op = match opcode {
        0 => Operation::Jne,
        1 => Operation::Jeq,
        2 => Operation::Jnc,
        3 => Operation::Jc,
        4 => Operation::Jn,
        5 => Operation::Jge,
        6 => Operation::Jl,
        _ => Operation::Jmp,
    };
    Instruction {
        code,
        optype: OpType::NoArg,
        opcode,
        op,
        offset,
        bw: false,
        dest_mode: AddressingMode::Direct,
        source_mode: AddressingMode::Direct,
        sourcereg: 0,
        destreg: 0,
        sourcearg: 0,
        destarg: 0,
    }
}

/// Decodes one instruction word.
pub fn parse_inst(code: u16) -> (r: Result<Instruction, Fault>)
    ensures
        r == decode_spec(code),
        r is Ok ==> inst_wf(r->Ok_0),
{
    match get_optype(code) {
        OpType::NoArg => Ok(noarg_split(code)),
        OpType::OneArg => onearg_split(code),
        OpType::TwoArg => twoarg_split(code),
    }
}

/// The mnemonic of an operation.
pub open spec fn mnemonic(op: Operation) -> Seq<char> {
    match op {
        Operation::Jne => "JNE"@,
        Operation::Jeq => "JEQ"@,
        Operation::Jnc => "JNC"@,
        Operation::Jc => "JC"@,
        Operation::Jn => "JN"@,
        Operation::Jge => "JGE"@,
        Operation::Jl => "JL"@,
        Operation::Jmp => "JMP"@,
        Operation::Rrc => "RRC"@,
        Operation::Swpb => "SWPB"@,
        Operation::Rra => "RRA"@,
        Operation::Sxt => "SXT"@,
        Operation::Push => "PUSH"@,
        Operation::Call => "CALL"@,
        Operation::Reti => "RETI"@,
        Operation::Mov => "MOV"@,
        Operation::Add => "ADD"@,
        Operation::Addc => "ADDC"@,
        Operation::Subc => "SUBC"@,
        Operation::Sub => "SUB"@,
        Operation::Cmp => "CMP"@,
        Operation::Dadd => "DADD"@,
        Operation::Bit => "BIT"@,
        Operation::Bic => "BIC"@,
        Operation::Bis => "BIS"@,
        Operation::Xor => "XOR"@,
        Operation::And => "AND"@,
    }
}

/// The lower-case hexadecimal digit of `d`, for `d < 16`.
pub open spec fn hex_char(d: u16) -> char {
    if d == 0 {
        '0'
    } else if d == 1 {
        '1'
    } else if d == 2 {
        '2'
    } else if d == 3 {
        '3'
    } else if d == 4 {
        '4'
    } else if d == 5 {
        '5'
    } else if d == 6 {
        '6'
    } else if d == 7 {
        '7'
    } else if d == 8 {
        '8'
    } else if d == 9 {
        '9'
    } else if d == 10 {
        'a'
    } else if d == 11 {
        'b'
    } else if d == 12 {
        'c'
    } else if d == 13 {
        'd'
    } else if d == 14 {
        'e'
    } else if d == 15 {
        'f'
    } else {
        '?'
    }
}

/// Four hexadecimal digits of `v`, most significant first.
pub open spec fn hex4_spec(v: u16) -> Seq<char> {
    seq![
        hex_char((v >> 12u16) & 0xf),
        hex_char((v >> 8u16) & 0xf),
        hex_char((v >> 4u16) & 0xf),
        hex_char(v & 0xf),
    ]
}

/// How an instruction is shown: its mnemonic, then each operand value it
/// has (the displacement for a jump) in four hexadecimal digits.
pub open spec fn display_spec(i: Instruction) -> Seq<char> {
    match i.optype {
        OpType::NoArg => mnemonic(i.op) + seq![' '] + hex4_spec(i.offset),
        OpType::OneArg => mnemonic(i.op) + seq![' '] + hex4_spec(i.destarg),
        OpType::TwoArg => mnemonic(i.op) + seq![' '] + hex4_spec(i.sourcearg) + seq![' ']
            + hex4_spec(i.destarg),
    }
}

fn hex_digit(d: u16) -> (r: &'static str)
    requires
        d < 16,
    ensures
        r@ == seq![hex_char(d)],
{
    match d {
        0 => {
            proof {
                reveal_strlit("0");
            }
            "0"
        },
        1 => {
            proof {
                reveal_strlit("1");
            }
            "1"
        },
        2 => {
            proof {
                reveal_strlit("2");
            }
            "2"
        },
        3 => {
            proof {
                reveal_strlit("3");
            }
            "3"
        },
        4 => {
            proof {
                reveal_strlit("4");
            }
            "4"
        },
        5 => {
            proof {
                reveal_strlit("5");
            }
            "5"
        },
        6 => {
            proof {
                reveal_strlit("6");
            }
            "6"
        },
        7 => {
            proof {
                reveal_strlit("7");
            }
            "7"
        },
        8 => {
            proof {
                reveal_strlit("8");
            }
            "8"
        },
        9 => {
            proof {
                reveal_strlit("9");
            }
            "9"
        },
        10 => {
            proof {
                reveal_strlit("a");
            }
            "a"
        },
        11 => {
            proof {
                reveal_strlit("b");
            }
            "b"
        },
        12 => {
            proof {
                reveal_strlit("c");
            }
            "c"
        },
        13 => {
            proof {
                reveal_strlit("d");
            }
            "d"
        },
        14 => {
            proof {
                reveal_strlit("e");
            }
            "e"
        },
        _ => {
            proof {
                reveal_strlit("f");
            }
            "f"
        },
    }
}

/// Appends the four hexadecimal digits of `v` to `s`.
fn push_hex4(s: &mut String, v: u16)
    ensures
        final(s)@ == old(s)@ + hex4_spec(v),
{
    assert((v >> 12u16) & 0xf < 16 && (v >> 8u16) & 0xf < 16 && (v >> 4u16) & 0xf < 16 && v & 0xf
        < 16) by (bit_vector);
    s.append(hex_digit((v >> 12) & 0xf));
    s.append(hex_digit((v >> 8) & 0xf));
    s.append(hex_digit((v >> 4) & 0xf));
    s.append(hex_digit(v & 0xf));
    assert(final(s)@ =~= old(s)@ + hex4_spec(v));
}

impl Instruction {
    /// The mnemonic of the instruction's operation.
    pub fn namer(&self) -> (r: &'static str)
        ensures
            r@ == mnemonic(self.op),
    {
        match self.op {
            Operation::Jne => {
                proof {
                    reveal_strlit("JNE");
                }
                "JNE"
            },
            Operation::Jeq => {
                proof {
                    reveal_strlit("JEQ");
                }
                "JEQ"
            },
            Operation::Jnc => {
                proof {
                    reveal_strlit("JNC");
                }
                "JNC"
            },
            Operation::Jc => {
                proof {
                    reveal_strlit("JC");
                }
                "JC"
            },
            Operation::Jn => {
                proof {
                    reveal_strlit("JN");
                }
                "JN"
            },
            Operation::Jge => {
                proof {
                    reveal_strlit("JGE");
                }
                "JGE"
            },
            Operation::Jl => {
                proof {
                    reveal_strlit("JL");
                }
                "JL"
            },
            Operation::Jmp => {
                proof {
                    reveal_strlit("JMP");
                }
                "JMP"
            },
            Operation::Rrc => {
                proof {
                    reveal_strlit("RRC");
                }
                "RRC"
            },
            Operation::Swpb => {
                proof {
                    reveal_strlit("SWPB");
                }
                "SWPB"
            },
            Operation::Rra => {
                proof {
                    reveal_strlit("RRA");
                }
                "RRA"
            },
            Operation::Sxt => {
                proof {
                    reveal_strlit("SXT");
                }
                "SXT"
            },
            Operation::Push => {
                proof {
                    reveal_strlit("PUSH");
                }
                "PUSH"
            },
            Operation::Call => {
                proof {
                    reveal_strlit("CALL");
                }
                "CALL"
            },
            Operation::Reti => {
                proof {
                    reveal_strlit("RETI");
                }
                "RETI"
            },
            Operation::Mov => {
                proof {
                    reveal_strlit("MOV");
                }
                "MOV"
            },
            Operation::Add => {
                proof {
                    reveal_strlit("ADD");
                }
                "ADD"
            },
            Operation::Addc => {
                proof {
                    reveal_strlit("ADDC");
                }
                "ADDC"
            },
            Operation::Subc => {
                proof {
                    reveal_strlit("SUBC");
                }
                "SUBC"
            },
            Operation::Sub => {
                proof {
                    reveal_strlit("SUB");
                }
                "SUB"
            },
            Operation::Cmp => {
                proof {
                    reveal_strlit("CMP");
                }
                "CMP"
            },
            Operation::Dadd => {
                proof {
                    reveal_strlit("DADD");
                }
                "DADD"
            },
            Operation::Bit => {
                proof {
                    reveal_strlit("BIT");
                }
                "BIT"
            },
            Operation::Bic => {
                proof {
                    reveal_strlit("BIC");
                }
                "BIC"
            },
            Operation::Bis => {
                proof {
                    reveal_strlit("BIS");
                }
                "BIS"
            },
            Operation::Xor => {
                proof {
                    reveal_strlit("XOR");
                }
                "XOR"
            },
            Operation::And => {
                proof {
                    reveal_strlit("AND");
                }
                "AND"
            },
        }
    }

    /// The instruction as text: mnemonic and operand values in hexadecimal.
    pub fn to_string(&self) -> (r: String)
        ensures
            r@ == display_spec(*self),
    {
        let mut s = String::from_str(self.namer());
        proof {
            reveal_strlit(" ");
        }
        s.append(" ");
        match self.optype {
            OpType::NoArg => push_hex4(&mut s, self.offset),
            OpType::OneArg => push_hex4(&mut s, self.destarg),
            OpType::TwoArg => {
                push_hex4(&mut s, self.sourcearg);
                s.append(" ");
                push_hex4(&mut s, self.destarg);
            },
        }
        assert(s@ =~= display_spec(*self));
        s
    }
}

} // verus!
