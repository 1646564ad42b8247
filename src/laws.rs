use crate::alu::{compute_spec, flag_of, flag_set, mask_of, sign_of, CARRYF, NEGF, OVERF, ZEROF};
use crate::cpu::{
    args_spec, exec_spec, Args, fetch_spec, no_operands, read_spec, resolve_spec, step_spec,
    write_spec, writes_result, Location,
};
use crate::isa::{
    decode_spec, inst_wf, mode_spec, optype_spec, AddressingMode, Fault, Instruction, OpType,
    Operation,
};
use crate::mem::{state_wf, wrap_add, MachineState};
use vstd::prelude::*;

verus! {

/// Extension words that a register and mode take from the instruction
/// stream: one for Indexed and Absolute, and one for autoincrement through
/// the program counter (an immediate).
pub open spec fn ext_words(reg: u8, mode: AddressingMode) -> int {
    if mode == AddressingMode::Indexed || mode == AddressingMode::Absolute || (mode
        == AddressingMode::IndirectAutoIncrement && reg == 0) {
        1
    } else {
        0
    }
}

/// Extension words that an instruction's operands take.
pub open spec fn inst_ext_words(i: Instruction) -> int {
    if no_operands(i) {
        0
    } else if i.optype == OpType::TwoArg {
        ext_words(i.sourcereg, i.source_mode) + ext_words(i.destreg, i.dest_mode)
    } else {
        ext_words(i.destreg, i.dest_mode)
    }
}

/// Whether an instruction sets the program counter itself: a jump, CALL,
/// RETI, or a result stored directly into register 0.
pub open spec fn writes_pc(i: Instruction) -> bool {
    match i.op {
        Operation::Jne | Operation::Jeq | Operation::Jnc | Operation::Jc | Operation::Jn
        | Operation::Jge | Operation::Jl | Operation::Jmp | Operation::Call | Operation::Reti => true,
        _ => writes_result(i.op) && i.destreg == 0 && i.dest_mode == AddressingMode::Direct,
    }
}

/// Two advances of the program counter modulo 2^16 add up.
proof fn lemma_wrap_twice(p: int, a: int, b: int)
    requires
        0 <= p < 0x10000,
        0 <= a <= 4,
        0 <= b <= 4,
    ensures
        ((p + a) % 0x10000 + b) % 0x10000 == (p + a + b) % 0x10000,
{
    if p + a >= 0x10000 {
        assert((p + a) % 0x10000 == p + a - 0x10000);
    } else {
        assert((p + a) % 0x10000 == p + a);
    }
}

/// Every word that decodes gives register fields in range.
pub proof fn lemma_decode_wf(w: u16)
    ensures
        decode_spec(w) is Ok ==> inst_wf(decode_spec(w)->Ok_0),
{
    assert((w & 0xf00) >> 8u16 < 16 && w & 0xf < 16) by (bit_vector);
}

/// Decoding classifies a word by its top three bits (0: single operand,
/// 1: jump, else double operand) and takes the opcode from that class's
/// field; it fails exactly on the unused single-operand opcode 7.
pub proof fn lemma_decode_classes(w: u16)
    ensures
        decode_spec(w) is Err <==> (w >> 13u16 == 0 && (w & 0x380) >> 7u16 == 7),
        decode_spec(w) is Err ==> decode_spec(w) == Err::<Instruction, Fault>(
            Fault::IllegalOpcode { word: w, format: OpType::OneArg },
        ),
        decode_spec(w) is Ok ==> decode_spec(w)->Ok_0.optype == optype_spec(w),
        decode_spec(w) is Ok && w >> 13u16 == 0 ==> decode_spec(w)->Ok_0.opcode == ((w & 0x380)
            >> 7u16) as u8,
        decode_spec(w) is Ok && w >> 13u16 == 1 ==> decode_spec(w)->Ok_0.opcode == ((w & 0x1c00)
            >> 10u16) as u8,
        decode_spec(w) is Ok && w >> 13u16 >= 2 ==> decode_spec(w)->Ok_0.opcode == ((w & 0xf000)
            >> 12u16) as u8,
{
    assert(w >> 13u16 >= 2 ==> (w & 0xf000) >> 12u16 >= 4 && (w & 0xf000) >> 12u16 < 16)
        by (bit_vector);
    assert((w & 0x380) >> 7u16 < 8) by (bit_vector);
}

/// Resolution changes only the program counter (by two per extension word)
/// and, for autoincrement, its own register; it leaves memory alone, and
/// yields the register itself exactly in Direct mode.
pub proof fn lemma_resolve_effect(s: MachineState, reg: u8, mode: AddressingMode)
    requires
        state_wf(s),
        reg < 16,
    ensures
        state_wf(resolve_spec(s, reg, mode).1),
        resolve_spec(s, reg, mode).1.mem == s.mem,
        resolve_spec(s, reg, mode).1.regs[0] == (s.regs[0] + 2 * ext_words(reg, mode))
            % 0x10000,
        forall|k: int|
            1 <= k < 16 && !(mode == AddressingMode::IndirectAutoIncrement && k == reg)
                ==> #[trigger] resolve_spec(s, reg, mode).1.regs[k] == s.regs[k],
        (resolve_spec(s, reg, mode).0 is Register) <==> mode == AddressingMode::Direct,
        mode == AddressingMode::Direct ==> resolve_spec(s, reg, mode).0 == Location::Register(
            reg,
        ),
{
}

/// Operand resolution advances the program counter by two per extension
/// word, and yields a register location only for a Direct destination.
proof fn lemma_args_pc(s: MachineState, i: Instruction)
    requires
        state_wf(s),
        inst_wf(i),
        !no_operands(i),
    ensures
        state_wf(args_spec(s, i).1),
        args_spec(s, i).1.regs[0] == (s.regs[0] + 2 * inst_ext_words(i)) % 0x10000,
        args_spec(s, i).0.dst is Register ==> args_spec(s, i).0.dst == Location::Register(
            i.destreg,
        ) && i.dest_mode == AddressingMode::Direct,
{
    if i.optype == OpType::TwoArg {
        let (sl, s2) = resolve_spec(s, i.sourcereg, i.source_mode);
        lemma_resolve_effect(s, i.sourcereg, i.source_mode);
        let (dl, s3) = resolve_spec(s2, i.destreg, i.dest_mode);
        lemma_resolve_effect(s2, i.destreg, i.dest_mode);
        assert(args_spec(s, i) == (Args { src: read_spec(s2, sl, i.bw), dst: dl }, s3));
        lemma_wrap_twice(
            s.regs[0] as int,
            2 * ext_words(i.sourcereg, i.source_mode),
            2 * ext_words(i.destreg, i.dest_mode),
        );
    } else {
        lemma_resolve_effect(s, i.destreg, i.dest_mode);
    }
}

/// Execution keeps the program counter unless the instruction sets it.
proof fn lemma_exec_pc(s: MachineState, i: Instruction, a: Args)
    requires
        state_wf(s),
        inst_wf(i),
        !writes_pc(i),
        a.dst is Register ==> a.dst == Location::Register(i.destreg) && i.dest_mode
            == AddressingMode::Direct,
    ensures
        exec_spec(s, i, a).0.regs[0] == s.regs[0],
{
}

/// After a step that decodes and does not set the program counter itself,
/// the program counter has advanced by two for the opcode word and by two
/// for each extension word, whatever the addressing modes.
pub proof fn lemma_pc_advance(s: MachineState)
    requires
        state_wf(s),
        decode_spec(fetch_spec(s).0) is Ok,
        !writes_pc(decode_spec(fetch_spec(s).0)->Ok_0),
    ensures
        step_spec(s).0.regs[0] == (s.regs[0] + 2 + 2 * inst_ext_words(
            decode_spec(fetch_spec(s).0)->Ok_0,
        )) % 0x10000,
{
    let (w, s1) = fetch_spec(s);
    let i = decode_spec(w)->Ok_0;
    lemma_decode_wf(w);
    lemma_args_pc(s1, i);
    let (a, s2) = args_spec(s1, i);
    lemma_exec_pc(s2, i, a);
    lemma_wrap_twice(s.regs[0] as int, 2, 2 * inst_ext_words(i));
}

/// MOV, BIC and BIS leave the status register as it was, unless their
/// destination is the status register itself.
pub proof fn lemma_status_kept(s: MachineState)
    requires
        state_wf(s),
        decode_spec(fetch_spec(s).0) is Ok,
        ({
            let i = decode_spec(fetch_spec(s).0)->Ok_0;
            (i.op == Operation::Mov || i.op == Operation::Bic || i.op == Operation::Bis) && !(
            i.destreg == 2 && i.dest_mode == AddressingMode::Direct)
        }),
    ensures
        step_spec(s).0.regs[2] == s.regs[2],
{
    let (w, s1) = fetch_spec(s);
    let i = decode_spec(w)->Ok_0;
    lemma_decode_wf(w);
    assert(i.optype == OpType::TwoArg);
    assert(i.source_mode != AddressingMode::IndirectAutoIncrement || i.sourcereg != 2);
    lemma_resolve_effect(s1, i.sourcereg, i.source_mode);
    let s2 = resolve_spec(s1, i.sourcereg, i.source_mode).1;
    lemma_resolve_effect(s2, i.destreg, i.dest_mode);
}

/// Setting one flag bit reads back as set, and leaves the other three
/// flag bits as they were.
pub proof fn lemma_flag_bits(sr: u16, on: bool)
    ensures
        flag_of(flag_set(sr, ZEROF, on), ZEROF) == on,
        flag_of(flag_set(sr, ZEROF, on), NEGF) == flag_of(sr, NEGF),
        flag_of(flag_set(sr, NEGF, on), NEGF) == on,
        flag_of(flag_set(sr, NEGF, on), ZEROF) == flag_of(sr, ZEROF),
        flag_of(flag_set(sr, CARRYF, on), ZEROF) == flag_of(sr, ZEROF),
        flag_of(flag_set(sr, CARRYF, on), NEGF) == flag_of(sr, NEGF),
        flag_of(flag_set(sr, OVERF, on), ZEROF) == flag_of(sr, ZEROF),
        flag_of(flag_set(sr, OVERF, on), NEGF) == flag_of(sr, NEGF),
{
    assert((sr | 2) & 2 != 0 && (sr & !2u16) & 2 == 0 && ((sr | 2) & 4 != 0) == (sr & 4 != 0)
        && ((sr & !2u16) & 4 != 0) == (sr & 4 != 0)) by (bit_vector);
    assert((sr | 4) & 4 != 0 && (sr & !4u16) & 4 == 0 && ((sr | 4) & 2 != 0) == (sr & 2 != 0) && ((sr
        & !4u16) & 2 != 0) == (sr & 2 != 0)) by (bit_vector);
    assert(((sr | 1) & 2 != 0) == (sr & 2 != 0) && ((sr & !1u16) & 2 != 0) == (sr & 2 != 0) && ((
    sr | 1) & 4 != 0) == (sr & 4 != 0) && ((sr & !1u16) & 4 != 0) == (sr & 4 != 0))
        by (bit_vector);
    assert(((sr | 0x100) & 2 != 0) == (sr & 2 != 0) && ((sr & !0x100u16) & 2 != 0) == (sr & 2
        != 0) && ((sr | 0x100) & 4 != 0) == (sr & 4 != 0) && ((sr & !0x100u16) & 4 != 0) == (sr
        & 4 != 0)) by (bit_vector);
}

/// ADD, SUB, AND, XOR, CMP and BIT set Zero exactly when the result is zero
/// within the operand width, and Negative exactly when its sign bit is set.
pub proof fn lemma_result_flags(op: Operation, bw: bool, src: u16, dst: u16, sr: u16)
    requires
        op == Operation::Add || op == Operation::Sub || op == Operation::And || op
            == Operation::Xor || op == Operation::Cmp || op == Operation::Bit,
    ensures
        flag_of(compute_spec(op, bw, src, dst, sr).1, ZEROF) == (compute_spec(
            op,
            bw,
            src,
            dst,
            sr,
        ).0 & mask_of(bw) == 0),
        flag_of(compute_spec(op, bw, src, dst, sr).1, NEGF) == (compute_spec(
            op,
            bw,
            src,
            dst,
            sr,
        ).0 & sign_of(bw) != 0),
{
    let v = compute_spec(op, bw, src, dst, sr).0;
    let z = flag_set(sr, ZEROF, v & mask_of(bw) == 0);
    let zn = flag_set(z, NEGF, v & sign_of(bw) != 0);
    lemma_flag_bits(sr, v & mask_of(bw) == 0);
    lemma_flag_bits(z, v & sign_of(bw) != 0);
    lemma_flag_bits(zn, true);
    lemma_flag_bits(zn, false);
    let c1 = flag_set(zn, CARRYF, true);
    let c0 = flag_set(zn, CARRYF, false);
    lemma_flag_bits(c1, true);
    lemma_flag_bits(c1, false);
    lemma_flag_bits(c0, true);
    lemma_flag_bits(c0, false);
}

/// Register 3 with selector 3 reads as 0xFFFF whatever register 3 holds,
/// and no constant-generator selector of register 3 can be stored through.
pub proof fn lemma_constant_generator(s: MachineState, sel: u8, bw: bool, v: u16)
    requires
        state_wf(s),
        sel < 4,
    ensures
        read_spec(resolve_spec(s, 3, mode_spec(3, 3)).1, resolve_spec(s, 3, mode_spec(3, 3)).0, bw)
            == 0xffff,
        resolve_spec(s, 3, mode_spec(3, sel)).1 == s,
        write_spec(s, resolve_spec(s, 3, mode_spec(3, sel)).0, bw, v) == (s, Err::<(), Fault>(
            Fault::InvalidStoreTarget,
        )),
{
}

/// A JGE step jumps (adds its displacement to the advanced program counter)
/// exactly when Negative equals Overflow.
pub proof fn lemma_jge(s: MachineState)
    requires
        state_wf(s),
        decode_spec(fetch_spec(s).0) is Ok,
        decode_spec(fetch_spec(s).0)->Ok_0.op == Operation::Jge,
    ensures
        step_spec(s).1 == Ok::<(), Fault>(()),
        step_spec(s).0.regs[0] == if flag_of(s.regs[2], NEGF) == flag_of(s.regs[2], OVERF) {
            wrap_add(wrap_add(s.regs[0], 2), decode_spec(fetch_spec(s).0)->Ok_0.offset)
        } else {
            wrap_add(s.regs[0], 2)
        },
{
}

} // verus!
