use crate::alu::{
    arith, mask, sign, compute_spec, decimal_add, flag_of, flag_set, result_flags,
    set_all_flags, with_flag, zn_spec, CARRYF, NEGF, OVERF, ZEROF,
};
use crate::isa::{
    decode_spec, inst_wf, parse_inst, AddressingMode, Fault, Instruction, OpType, Operation,
};
use crate::mem::{
    add16, byte_at, load_byte, load_word, put_byte, put_word, state_wf, store_byte, store_word,
    sub16, word_at, wrap_add, wrap_sub, MachineState, MEM_SIZE, NUM_REGS,
};
use vstd::prelude::*;

verus! {

/// Where an operand lives once its addressing has been resolved.
#[derive(Clone, Copy, Debug, PartialEq, Eq, Structural)]
pub enum Location {
    Register(u8),
    Memory(u16),
    /// A constant-generator value: readable, never writable.
    Constant(u16),
}

/// The operands of one instruction, resolved once: the source value and
/// the destination's location.
#[derive(Clone, Copy, Debug, PartialEq, Eq, Structural)]
pub struct Args {
    pub src: u16,
    pub dst: Location,
}

pub open spec fn loc_wf(l: Location) -> bool {
    match l {
        Location::Register(r) => r < NUM_REGS,
        _ => true,
    }
}

pub open spec fn reg_of(s: MachineState, r: u8) -> u16 {
    s.regs[r as int]
}

pub open spec fn with_reg(s: MachineState, r: u8, v: u16) -> MachineState {
    MachineState { regs: s.regs.update(r as int, v), mem: s.mem }
}

pub open spec fn with_mem(s: MachineState, m: Seq<u8>) -> MachineState {
    MachineState { regs: s.regs, mem: m }
}

/// Reads the word at the program counter and advances it by two.
pub open spec fn fetch_spec(s: MachineState) -> (u16, MachineState) {
    (word_at(s.mem, reg_of(s, 0)), with_reg(s, 0, wrap_add(reg_of(s, 0), 2)))
}

/// Resolves a register and mode to a location. Indexed and Absolute take
/// one extension word from the instruction stream; autoincrement adds two
/// to the register whatever the width.
pub open spec fn resolve_spec(s: MachineState, reg: u8, mode: AddressingMode) -> (
    Location,
    MachineState,
) {
    let rv = reg_of(s, reg);
    match mode {
        AddressingMode::Direct => (Location::Register(reg), s),
        AddressingMode::Indexed => {
            let (x, s1) = fetch_spec(s);
            (Location::Memory(wrap_add(rv, x)), s1)
        },
        AddressingMode::Indirect => (Location::Memory(rv), s),
        AddressingMode::IndirectAutoIncrement => (
            Location::Memory(rv),
            with_reg(s, reg, wrap_add(rv, 2)),
        ),
        AddressingMode::Absolute => {
            let (x, s1) = fetch_spec(s);
            (Location::Memory(x), s1)
        },
        AddressingMode::ConstantNeg1 => (Location::Constant(0xffff), s),
        AddressingMode::Constant0 => (Location::Constant(0), s),
        AddressingMode::Constant1 => (Location::Constant(1), s),
        AddressingMode::Constant2 => (Location::Constant(2), s),
        AddressingMode::Constant4 => (Location::Constant(4), s),
        AddressingMode::Constant8 => (Location::Constant(8), s),
    }
}

/// The value at a location; memory is read at the operand width.
pub open spec fn read_spec(s: MachineState, l: Location, bw: bool) -> u16 {
    match l {
        Location::Register(r) => reg_of(s, r),
        Location::Memory(a) => if bw {
            byte_at(s.mem, a)
        } else {
            word_at(s.mem, a)
        },
        Location::Constant(c) => c,
    }
}

/// Stores a value: a register takes all sixteen bits, memory the operand
/// width; a constant cannot be written.
pub open spec fn write_spec(s: MachineState, l: Location, bw: bool, v: u16) -> (
    MachineState,
    Result<(), Fault>,
) {
    match l {
        Location::Register(r) => (with_reg(s, r, v), Ok(())),
        Location::Memory(a) => (
            with_mem(
                s,
                if bw {
                    put_byte(s.mem, a, v)
                } else {
                    put_word(s.mem, a, v)
                },
            ),
            Ok(()),
        ),
        Location::Constant(_) => (s, Err(Fault::InvalidStoreTarget)),
    }
}

/// Resolves a register and mode, then reads the operand.
pub open spec fn load_spec(s: MachineState, reg: u8, mode: AddressingMode, bw: bool) -> (
    u16,
    MachineState,
) {
    let (l, s1) = resolve_spec(s, reg, mode);
    (read_spec(s1, l, bw), s1)
}

/// Whether an operation takes no operand from its mode fields.
pub open spec fn no_operands(i: Instruction) -> bool {
    i.optype == OpType::NoArg || i.op == Operation::Call || i.op == Operation::Reti
}

/// Operand resolution for an instruction: the source first (its extension
/// word, then its value), then the destination; each extension word is
/// taken exactly once.
pub open spec fn args_spec(s: MachineState, i: Instruction) -> (Args, MachineState) {
    if no_operands(i) {
        (Args { src: 0, dst: Location::Constant(0) }, s)
    } else if i.optype == OpType::TwoArg {
        let (sl, s1) = resolve_spec(s, i.sourcereg, i.source_mode);
        let sv = read_spec(s1, sl, i.bw);
        let (dl, s2) = resolve_spec(s1, i.destreg, i.dest_mode);
        (Args { src: sv, dst: dl }, s2)
    } else {
        let (dl, s1) = resolve_spec(s, i.destreg, i.dest_mode);
        (Args { src: 0, dst: dl }, s1)
    }
}

/// Whether a jump operation's condition holds on the status register.
pub open spec fn cond_spec(op: Operation, sr: u16) -> bool {
    let z = flag_of(sr, ZEROF);
    let c = flag_of(sr, CARRYF);
    let n = flag_of(sr, NEGF);
    let v = flag_of(sr, OVERF);
    match op {
        Operation::Jne => !z,
        Operation::Jeq => z,
        Operation::Jnc => !c,
        Operation::Jc => c,
        Operation::Jn => n,
        Operation::Jge => n == v,
        Operation::Jl => n != v,
        _ => true,
    }
}

/// Adds `offset` to the program counter when `taken`.
pub open spec fn jump_spec(s: MachineState, offset: u16, taken: bool) -> MachineState {
    if taken {
        with_reg(s, 0, wrap_add(reg_of(s, 0), offset))
    } else {
        s
    }
}

pub open spec fn writes_result(op: Operation) -> bool {
    match op {
        Operation::Mov | Operation::Add | Operation::Addc | Operation::Subc | Operation::Sub
        | Operation::Dadd | Operation::And | Operation::Bic | Operation::Bis | Operation::Xor
        | Operation::Rrc | Operation::Rra | Operation::Swpb | Operation::Sxt => true,
        _ => false,
    }
}

pub open spec fn sets_flags(op: Operation) -> bool {
    match op {
        Operation::Add | Operation::Addc | Operation::Subc | Operation::Sub | Operation::Cmp
        | Operation::Dadd | Operation::Bit | Operation::And | Operation::Xor | Operation::Rrc
        | Operation::Rra => true,
        _ => false,
    }
}

/// An operation that computes on its operands: the destination is read,
/// the status register updated if the operation sets flags, then the
/// result stored if the operation writes one.
pub open spec fn alu_step_spec(s: MachineState, op: Operation, bw: bool, a: Args) -> (
    MachineState,
    Result<(), Fault>,
) {
    let dv = read_spec(s, a.dst, bw);
    let (v, sr) = compute_spec(op, bw, a.src, dv, reg_of(s, 2));
    let s1 = if sets_flags(op) {
        with_reg(s, 2, sr)
    } else {
        s
    };
    if writes_result(op) {
        write_spec(s1, a.dst, bw, v)
    } else {
        (s1, Ok(()))
    }
}

/// PUSH: the stack pointer drops by two, then the operand is stored there.
pub open spec fn push_spec(s: MachineState, bw: bool, a: Args) -> MachineState {
    let v = read_spec(s, a.dst, bw);
    let sp = wrap_sub(reg_of(s, 1), 2);
    let s1 = with_reg(s, 1, sp);
    write_spec(s1, Location::Memory(sp), bw, v).0
}

/// CALL: the program counter is pushed, then the next word of the stream
/// is taken as the absolute target.
pub open spec fn call_spec(s: MachineState) -> MachineState {
    let sp = wrap_sub(reg_of(s, 1), 2);
    let s1 = with_reg(s, 1, sp);
    let s2 = with_mem(s1, put_word(s1.mem, sp, reg_of(s, 0)));
    let (t, s3) = fetch_spec(s2);
    with_reg(s3, 0, t)
}

/// RETI: the status register, then the program counter, are popped.
pub open spec fn reti_spec(s: MachineState) -> MachineState {
    let sp = reg_of(s, 1);
    let sr = word_at(s.mem, sp);
    let pc = word_at(s.mem, wrap_add(sp, 2));
    with_reg(with_reg(with_reg(s, 2, sr), 0, pc), 1, wrap_add(sp, 4))
}

/// Executes a decoded instruction whose operands are resolved.
pub open spec fn exec_spec(s: MachineState, i: Instruction, a: Args) -> (
    MachineState,
    Result<(), Fault>,
) {
    match i.op {
        Operation::Jne | Operation::Jeq | Operation::Jnc | Operation::Jc | Operation::Jn
        | Operation::Jge | Operation::Jl | Operation::Jmp => (
            jump_spec(s, i.offset, cond_spec(i.op, reg_of(s, 2))),
            Ok(()),
        ),
        Operation::Push => (push_spec(s, i.bw, a), Ok(())),
        Operation::Call => (call_spec(s), Ok(())),
        Operation::Reti => (reti_spec(s), Ok(())),
        _ => alu_step_spec(s, i.op, i.bw, a),
    }
}

/// One step: fetch a word, decode it, resolve its operands, execute it.
/// The state returned with an error is the state at the point of failure.
pub open spec fn step_spec(s: MachineState) -> (MachineState, Result<(), Fault>) {
    let (w, s1) = fetch_spec(s);
    match decode_spec(w) {
        Err(e) => (s1, Err(e)),
        Ok(i) => {
            let (a, s2) = args_spec(s1, i);
            exec_spec(s2, i, a)
        },
    }
}

/// The machine: its register file, its memory, and the most recently
/// executed instruction with its operand values, kept for display.
pub struct Cpu {
    regs: Vec<u16>,
    ram: Vec<u8>,
    inst: Instruction,
}

impl View for Cpu {
    type V = MachineState;

    closed spec fn view(&self) -> MachineState {
        MachineState { regs: self.regs@, mem: self.ram@ }
    }
}

impl Cpu {
    pub open spec fn wf(&self) -> bool {
        state_wf(self@)
    }

    /// The instruction kept for display.
    pub closed spec fn last(&self) -> Instruction {
        self.inst
    }

    /// A machine with every register and every byte of memory zero.
    pub fn new() -> (r: Cpu)
        ensures
            r.wf(),
            r@.regs == Seq::new(NUM_REGS as nat, |i: int| 0u16),
            r@.mem == Seq::new(MEM_SIZE as nat, |i: int| 0u8),
    {
        let mut regs: Vec<u16> = Vec::new();
        let mut k: usize = 0;
        while k < NUM_REGS
            invariant
                k <= NUM_REGS,
                regs@ == Seq::new(k as nat, |i: int| 0u16),
            decreases NUM_REGS - k,
        {
            regs.push(0);
            k = k + 1;
            assert(regs@ =~= Seq::new(k as nat, |i: int| 0u16));
        }
        let mut ram: Vec<u8> = Vec::new();
        let mut k: usize = 0;
        while k < MEM_SIZE
            invariant
                k <= MEM_SIZE,
                ram@ == Seq::new(k as nat, |i: int| 0u8),
            decreases MEM_SIZE - k,
        {
            ram.push(0);
            k = k + 1;
            assert(ram@ =~= Seq::new(k as nat, |i: int| 0u8));
        }
        Cpu { regs, ram, inst: Instruction::new() }
    }

    /// The value of register `r`.
    pub fn get_reg(&self, r: u8) -> (v: u16)
        requires
            self.wf(),
            r < NUM_REGS,
        ensures
            v == reg_of(self@, r),
    {
        self.regs[r as usize]
    }

    /// Sets register `r` to `v`.
    pub fn set_reg(&mut self, r: u8, v: u16)
        requires
            old(self).wf(),
            r < NUM_REGS,
        ensures
            final(self).wf(),
            final(self)@ == with_reg(old(self)@, r, v),
    {
        self.regs.set(r as usize, v);
    }

    /// The word at address `a`.
    pub fn read_word(&self, a: u16) -> (v: u16)
        requires
            self.wf(),
        ensures
            v == word_at(self@.mem, a),
    {
        load_word(&self.ram, a)
    }

    /// The byte at address `a`.
    pub fn read_byte(&self, a: u16) -> (v: u16)
        requires
            self.wf(),
        ensures
            v == byte_at(self@.mem, a),
    {
        load_byte(&self.ram, a)
    }

    /// Stores the word `v` at address `a`, low byte first.
    pub fn write_word(&mut self, a: u16, v: u16)
        requires
            old(self).wf(),
        ensures
            final(self).wf(),
            final(self)@ == with_mem(old(self)@, put_word(old(self)@.mem, a, v)),
    {
        store_word(&mut self.ram, a, v);
    }

    /// Stores the low byte of `v` at address `a`.
    pub fn write_byte(&mut self, a: u16, v: u16)
        requires
            old(self).wf(),
        ensures
            final(self).wf(),
            final(self)@ == with_mem(old(self)@, put_byte(old(self)@.mem, a, v)),
    {
        store_byte(&mut self.ram, a, v);
    }

    /// A copy of the sixteen registers.
    pub fn registers(&self) -> (r: Vec<u16>)
        ensures
            r@ == self@.regs,
    {
        self.regs.clone()
    }

    /// A copy of the memory.
    pub fn memory(&self) -> (r: Vec<u8>)
        ensures
            r@ == self@.mem,
    {
        self.ram.clone()
    }

    /// The most recently executed instruction, with its operand values.
    pub fn last_instruction(&self) -> (r: Instruction)
        ensures
            r == self.last(),
    {
        self.inst
    }

    /// Reads the word at the program counter and advances it by two.
    pub fn next_inst(&mut self) -> (r: u16)
        requires
            old(self).wf(),
        ensures
            final(self).wf(),
            (r, final(self)@) == fetch_spec(old(self)@),
    {
        let pc = self.regs[0];
        let w = load_word(&self.ram, pc);
        self.regs.set(0, add16(pc, 2));
        w
    }

    /// Whether `flag` is set in the status register.
    pub fn getflag(&self, flag: u16) -> (r: bool)
        requires
            self.wf(),
        ensures
            r == flag_of(reg_of(self@, 2), flag),
    {
        self.regs[2] & flag != 0
    }

    /// Sets or clears `flag` in the status register.
    pub fn set_flag(&mut self, flag: u16, on: bool)
        requires
            old(self).wf(),
        ensures
            final(self).wf(),
            final(self)@ == with_reg(old(self)@, 2, flag_set(reg_of(old(self)@, 2), flag, on)),
    {
        let sr = with_flag(self.regs[2], flag, on);
        self.regs.set(2, sr);
    }

    /// Zero and Negative from a result of the given width.
    pub fn setflags(&mut self, v: u16, bw: bool)
        requires
            old(self).wf(),
        ensures
            final(self).wf(),
            final(self)@ == with_reg(old(self)@, 2, zn_spec(reg_of(old(self)@, 2), v, bw)),
    {
        let sr = result_flags(self.regs[2], v, bw);
        self.regs.set(2, sr);
    }

    /// Resolves a register and mode to a location, taking an extension word
    /// where the mode has one.
    pub fn resolve(&mut self, reg: u8, mode: AddressingMode) -> (r: Location)
        requires
            old(self).wf(),
            reg < NUM_REGS,
        ensures
            final(self).wf(),
            (r, final(self)@) == resolve_spec(old(self)@, reg, mode),
            loc_wf(r),
    {
        match mode {
            AddressingMode::Direct => Location::Register(reg),
            AddressingMode::Indexed => {
                let base = self.regs[reg as usize];
                let x = self.next_inst();
                Location::Memory(add16(base, x))
            },
            AddressingMode::Indirect => Location::Memory(self.regs[reg as usize]),
            AddressingMode::IndirectAutoIncrement => {
                let rv = self.regs[reg as usize];
                self.regs.set(reg as usize, add16(rv, 2));
                Location::Memory(rv)
            },
            AddressingMode::Absolute => Location::Memory(self.next_inst()),
            AddressingMode::ConstantNeg1 => Location::Constant(0xffff),
            AddressingMode::Constant0 => Location::Constant(0),
            AddressingMode::Constant1 => Location::Constant(1),
            AddressingMode::Constant2 => Location::Constant(2),
            AddressingMode::Constant4 => Location::Constant(4),
            AddressingMode::Constant8 => Location::Constant(8),
        }
    }

    /// The value at a location, memory read at the operand width.
    pub fn read(&self, l: Location, bw: bool) -> (r: u16)
        requires
            self.wf(),
            loc_wf(l),
        ensures
            r == read_spec(self@, l, bw),
    {
        match l {
            Location::Register(r) => self.regs[r as usize],
            Location::Memory(a) => if bw {
                load_byte(&self.ram, a)
            } else {
                load_word(&self.ram, a)
            },
            Location::Constant(c) => c,
        }
    }

    /// Stores `v` at a resolved location; a constant location is refused.
    pub fn store(&mut self, l: Location, bw: bool, v: u16) -> (r: Result<(), Fault>)
        requires
            old(self).wf(),
            loc_wf(l),
        ensures
            final(self).wf(),
            (final(self)@, r) == write_spec(old(self)@, l, bw, v),
    {
        match l {
            Location::Register(r) => {
                self.regs.set(r as usize, v);
                Ok(())
            },
            Location::Memory(a) => {
                if bw {
                    store_byte(&mut self.ram, a, v);
                } else {
                    store_word(&mut self.ram, a, v);
                }
                Ok(())
            },
            Location::Constant(_) => Err(Fault::InvalidStoreTarget),
        }
    }

    /// Sets the status register to `sr`, then stores `v` at the location.
    pub fn set_and_store(&mut self, l: Location, bw: bool, v: u16, sr: u16) -> (r: Result<
        (),
        Fault,
    >)
        requires
            old(self).wf(),
            loc_wf(l),
        ensures
            final(self).wf(),
            (final(self)@, r) == write_spec(with_reg(old(self)@, 2, sr), l, bw, v),
    {
        self.regs.set(2, sr);
        self.store(l, bw, v)
    }

    /// Resolves a register and mode and reads the operand there.
    pub fn load(&mut self, reg: u8, mode: AddressingMode, bw: bool) -> (r: Result<u16, Fault>)
        requires
            old(self).wf(),
        ensures
            final(self).wf(),
            reg >= NUM_REGS ==> r == Err::<u16, Fault>(Fault::IllegalRegister) && final(self)@
                == old(self)@,
            reg < NUM_REGS ==> (r, final(self)@) == (Ok::<u16, Fault>(
                load_spec(old(self)@, reg, mode, bw).0,
            ), load_spec(old(self)@, reg, mode, bw).1),
    {
        if reg >= 16 {
            return Err(Fault::IllegalRegister);
        }
        let l = self.resolve(reg, mode);
        Ok(self.read(l, bw))
    }

    /// Resolves a register and mode and stores `v` there.
    pub fn _store(&mut self, reg: u8, mode: AddressingMode, bw: bool, v: u16) -> (r: Result<
        (),
        Fault,
    >)
        requires
            old(self).wf(),
        ensures
            final(self).wf(),
            reg >= NUM_REGS ==> r == Err::<(), Fault>(Fault::IllegalRegister) && final(self)@
                == old(self)@,
            reg < NUM_REGS ==> (final(self)@, r) == write_spec(
                resolve_spec(old(self)@, reg, mode).1,
                resolve_spec(old(self)@, reg, mode).0,
                bw,
                v,
            ),
    {
        if reg >= 16 {
            return Err(Fault::IllegalRegister);
        }
        let l = self.resolve(reg, mode);
        self.store(l, bw, v)
    }
}

#[allow(non_snake_case)]
impl Cpu {
    /// Adds the instruction's displacement to the program counter.
    pub fn JMP(&mut self, inst: &Instruction)
        requires
            old(self).wf(),
        ensures
            final(self).wf(),
            final(self)@ == jump_spec(old(self)@, inst.offset, true),
    {
        let pc = self.regs[0];
        self.regs.set(0, add16(pc, inst.offset));
    }

    /// Jumps when Zero is clear.
    pub fn JNE(&mut self, inst: &Instruction)
        requires
            old(self).wf(),
        ensures
            final(self).wf(),
            final(self)@ == jump_spec(
                old(self)@,
                inst.offset,
                cond_spec(Operation::Jne, reg_of(old(self)@, 2)),
            ),
    {
        if !self.getflag(ZEROF) {
            self.JMP(inst);
        }
    }

    /// Jumps when Zero is set.
    pub fn JEQ(&mut self, inst: &Instruction)
        requires
            old(self).wf(),
        ensures
            final(self).wf(),
            final(self)@ == jump_spec(
                old(self)@,
                inst.offset,
                cond_spec(Operation::Jeq, reg_of(old(self)@, 2)),
            ),
    {
        if self.getflag(ZEROF) {
            self.JMP(inst);
        }
    }

    /// Jumps when Carry is clear.
    pub fn JNC(&mut self, inst: &Instruction)
        requires
            old(self).wf(),
        ensures
            final(self).wf(),
            final(self)@ == jump_spec(
                old(self)@,
                inst.offset,
                cond_spec(Operation::Jnc, reg_of(old(self)@, 2)),
            ),
    {
        if !self.getflag(CARRYF) {
            self.JMP(inst);
        }
    }

    /// Jumps when Carry is set.
    pub fn JC(&mut self, inst: &Instruction)
        requires
            old(self).wf(),
        ensures
            final(self).wf(),
            final(self)@ == jump_spec(
                old(self)@,
                inst.offset,
                cond_spec(Operation::Jc, reg_of(old(self)@, 2)),
            ),
    {
        if self.getflag(CARRYF) {
            self.JMP(inst);
        }
    }

    /// Jumps when Negative is set.
    pub fn JN(&mut self, inst: &Instruction)
        requires
            old(self).wf(),
        ensures
            final(self).wf(),
            final(self)@ == jump_spec(
                old(self)@,
                inst.offset,
                cond_spec(Operation::Jn, reg_of(old(self)@, 2)),
            ),
    {
        if self.getflag(NEGF) {
            self.JMP(inst);
        }
    }

    /// Jumps when Negative equals Overflow.
    pub fn JGE(&mut self, inst: &Instruction)
        requires
            old(self).wf(),
        ensures
            final(self).wf(),
            final(self)@ == jump_spec(
                old(self)@,
                inst.offset,
                cond_spec(Operation::Jge, reg_of(old(self)@, 2)),
            ),
    {
        if self.getflag(NEGF) == self.getflag(OVERF) {
            self.JMP(inst);
        }
    }

    /// Jumps when Negative differs from Overflow.
    pub fn JL(&mut self, inst: &Instruction)
        requires
            old(self).wf(),
        ensures
            final(self).wf(),
            final(self)@ == jump_spec(
                old(self)@,
                inst.offset,
                cond_spec(Operation::Jl, reg_of(old(self)@, 2)),
            ),
    {
        if self.getflag(NEGF) != self.getflag(OVERF) {
            self.JMP(inst);
        }
    }

    /// RRC: rotate right through carry: the carry enters at the sign bit of the width and the bit shifted out becomes the carry.
    pub fn RRC(&mut self, inst: &Instruction, args: &Args) -> (r: Result<(), Fault>)
        requires
            old(self).wf(),
            loc_wf(args.dst),
        ensures
            final(self).wf(),
            (final(self)@, r) == alu_step_spec(old(self)@, Operation::Rrc, inst.bw, *args),
    {
        let m = mask(inst.bw);
        let s = sign(inst.bw);
        let dv = self.read(args.dst, inst.bw);
        let d = dv & m;
        let v = (d >> 1) | (if self.getflag(CARRYF) {
            s
        } else {
            0
        });
        let sr = set_all_flags(self.regs[2], v, inst.bw, d & 1 != 0, false);
        self.set_and_store(args.dst, inst.bw, v, sr)
    }

    /// SWPB: swaps the two bytes of the operand; no flags.
    pub fn SWPB(&mut self, inst: &Instruction, args: &Args) -> (r: Result<(), Fault>)
        requires
            old(self).wf(),
            loc_wf(args.dst),
        ensures
            final(self).wf(),
            (final(self)@, r) == alu_step_spec(old(self)@, Operation::Swpb, inst.bw, *args),
    {
        let m = mask(inst.bw);
        let s = sign(inst.bw);
        let dv = self.read(args.dst, inst.bw);
        let v = (dv >> 8) | (dv << 8);
        self.store(args.dst, inst.bw, v)
    }

    /// RRA: arithmetic shift right by one, sign kept; the bit shifted out becomes the carry.
    pub fn RRA(&mut self, inst: &Instruction, args: &Args) -> (r: Result<(), Fault>)
        requires
            old(self).wf(),
            loc_wf(args.dst),
        ensures
            final(self).wf(),
            (final(self)@, r) == alu_step_spec(old(self)@, Operation::Rra, inst.bw, *args),
    {
        let m = mask(inst.bw);
        let s = sign(inst.bw);
        let dv = self.read(args.dst, inst.bw);
        let d = dv & m;
        let v = (d >> 1) | (d & s);
        let sr = set_all_flags(self.regs[2], v, inst.bw, d & 1 != 0, false);
        self.set_and_store(args.dst, inst.bw, v, sr)
    }

    /// SXT: sign-extends the low byte to sixteen bits; no flags.
    pub fn SXT(&mut self, inst: &Instruction, args: &Args) -> (r: Result<(), Fault>)
        requires
            old(self).wf(),
            loc_wf(args.dst),
        ensures
            final(self).wf(),
            (final(self)@, r) == alu_step_spec(old(self)@, Operation::Sxt, inst.bw, *args),
    {
        let m = mask(inst.bw);
        let s = sign(inst.bw);
        let dv = self.read(args.dst, inst.bw);
        let v = if dv & 0x80 != 0 {
            dv | 0xff00
        } else {
            dv & 0xff
        };
        self.store(args.dst, inst.bw, v)
    }

    /// PUSH: the stack pointer drops by two, then the operand is stored at
    /// its new value.
    pub fn PUSH(&mut self, inst: &Instruction, args: &Args)
        requires
            old(self).wf(),
            loc_wf(args.dst),
        ensures
            final(self).wf(),
            final(self)@ == push_spec(old(self)@, inst.bw, *args),
    {
        let v = self.read(args.dst, inst.bw);
        let sp = sub16(self.regs[1], 2);
        self.regs.set(1, sp);
        let _ = self.store(Location::Memory(sp), inst.bw, v);
    }

    /// CALL: pushes the program counter, then jumps to the absolute target
    /// held in the next word of the instruction stream.
    pub fn CALL(&mut self)
        requires
            old(self).wf(),
        ensures
            final(self).wf(),
            final(self)@ == call_spec(old(self)@),
    {
        let pc = self.regs[0];
        let sp = sub16(self.regs[1], 2);
        self.regs.set(1, sp);
        store_word(&mut self.ram, sp, pc);
        let target = self.next_inst();
        self.regs.set(0, target);
    }

    /// RETI: pops the status register, then the program counter.
    pub fn RETI(&mut self)
        requires
            old(self).wf(),
        ensures
            final(self).wf(),
            final(self)@ == reti_spec(old(self)@),
    {
        let sp = self.regs[1];
        let sr = load_word(&self.ram, sp);
        let pc = load_word(&self.ram, add16(sp, 2));
        self.regs.set(2, sr);
        self.regs.set(0, pc);
        self.regs.set(1, add16(sp, 4));
    }

    /// MOV: copies the source to the destination; no flags.
    pub fn MOV(&mut self, inst: &Instruction, args: &Args) -> (r: Result<(), Fault>)
        requires
            old(self).wf(),
            loc_wf(args.dst),
        ensures
            final(self).wf(),
            (final(self)@, r) == alu_step_spec(old(self)@, Operation::Mov, inst.bw, *args),
    {
        let m = mask(inst.bw);
        let s = sign(inst.bw);
        let dv = self.read(args.dst, inst.bw);
        self.store(args.dst, inst.bw, args.src & m)
    }

    /// ADD: binary addition.
    pub fn ADD(&mut self, inst: &Instruction, args: &Args) -> (r: Result<(), Fault>)
        requires
            old(self).wf(),
            loc_wf(args.dst),
        ensures
            final(self).wf(),
            (final(self)@, r) == alu_step_spec(old(self)@, Operation::Add, inst.bw, *args),
    {
        let m = mask(inst.bw);
        let s = sign(inst.bw);
        let dv = self.read(args.dst, inst.bw);
        let (v, sr) = arith(inst.bw, args.src, dv, 0, self.regs[2]);
        self.set_and_store(args.dst, inst.bw, v, sr)
    }

    /// ADDC: binary addition with the carry.
    pub fn ADDC(&mut self, inst: &Instruction, args: &Args) -> (r: Result<(), Fault>)
        requires
            old(self).wf(),
            loc_wf(args.dst),
        ensures
            final(self).wf(),
            (final(self)@, r) == alu_step_spec(old(self)@, Operation::Addc, inst.bw, *args),
    {
        let m = mask(inst.bw);
        let s = sign(inst.bw);
        let dv = self.read(args.dst, inst.bw);
        let cin: u16 = if self.getflag(CARRYF) {
            1
        } else {
            0
        };
        let (v, sr) = arith(inst.bw, args.src, dv, cin, self.regs[2]);
        self.set_and_store(args.dst, inst.bw, v, sr)
    }

    /// SUBC: subtraction with the carry, as `dst + !src + C`.
    pub fn SUBC(&mut self, inst: &Instruction, args: &Args) -> (r: Result<(), Fault>)
        requires
            old(self).wf(),
            loc_wf(args.dst),
        ensures
            final(self).wf(),
            (final(self)@, r) == alu_step_spec(old(self)@, Operation::Subc, inst.bw, *args),
    {
        let m = mask(inst.bw);
        let s = sign(inst.bw);
        let dv = self.read(args.dst, inst.bw);
        let cin: u16 = if self.getflag(CARRYF) {
            1
        } else {
            0
        };
        let (v, sr) = arith(inst.bw, !args.src, dv, cin, self.regs[2]);
        self.set_and_store(args.dst, inst.bw, v, sr)
    }

    /// SUB: subtraction, as `dst + !src + 1`.
    pub fn SUB(&mut self, inst: &Instruction, args: &Args) -> (r: Result<(), Fault>)
        requires
            old(self).wf(),
            loc_wf(args.dst),
        ensures
            final(self).wf(),
            (final(self)@, r) == alu_step_spec(old(self)@, Operation::Sub, inst.bw, *args),
    {
        let m = mask(inst.bw);
        let s = sign(inst.bw);
        let dv = self.read(args.dst, inst.bw);
        let (v, sr) = arith(inst.bw, !args.src, dv, 1, self.regs[2]);
        self.set_and_store(args.dst, inst.bw, v, sr)
    }

    /// CMP: the difference of SUB, for the flags only.
    pub fn CMP(&mut self, inst: &Instruction, args: &Args) -> (r: Result<(), Fault>)
        requires
            old(self).wf(),
            loc_wf(args.dst),
        ensures
            final(self).wf(),
            (final(self)@, r) == alu_step_spec(old(self)@, Operation::Cmp, inst.bw, *args),
    {
        let m = mask(inst.bw);
        let s = sign(inst.bw);
        let dv = self.read(args.dst, inst.bw);
        let (_v, sr) = arith(inst.bw, !args.src, dv, 1, self.regs[2]);
        self.regs.set(2, sr);
        Ok(())
    }

    /// DADD: packed-decimal addition with the carry.
    pub fn DADD(&mut self, inst: &Instruction, args: &Args) -> (r: Result<(), Fault>)
        requires
            old(self).wf(),
            loc_wf(args.dst),
        ensures
            final(self).wf(),
            (final(self)@, r) == alu_step_spec(old(self)@, Operation::Dadd, inst.bw, *args),
    {
        let m = mask(inst.bw);
        let s = sign(inst.bw);
        let dv = self.read(args.dst, inst.bw);
        let (v, sr) = decimal_add(inst.bw, args.src, dv, self.regs[2]);
        self.set_and_store(args.dst, inst.bw, v, sr)
    }

    /// BIT: the flags of `src & dst`; the destination is kept.
    pub fn BIT(&mut self, inst: &Instruction, args: &Args) -> (r: Result<(), Fault>)
        requires
            old(self).wf(),
            loc_wf(args.dst),
        ensures
            final(self).wf(),
            (final(self)@, r) == alu_step_spec(old(self)@, Operation::Bit, inst.bw, *args),
    {
        let m = mask(inst.bw);
        let s = sign(inst.bw);
        let dv = self.read(args.dst, inst.bw);
        let v = args.src & dv & m;
        let sr = set_all_flags(self.regs[2], v, inst.bw, v != 0, false);
        self.regs.set(2, sr);
        Ok(())
    }

    /// BIC: clears the source bits in the destination; no flags.
    pub fn BIC(&mut self, inst: &Instruction, args: &Args) -> (r: Result<(), Fault>)
        requires
            old(self).wf(),
            loc_wf(args.dst),
        ensures
            final(self).wf(),
            (final(self)@, r) == alu_step_spec(old(self)@, Operation::Bic, inst.bw, *args),
    {
        let m = mask(inst.bw);
        let s = sign(inst.bw);
        let dv = self.read(args.dst, inst.bw);
        self.store(args.dst, inst.bw, dv & !args.src & m)
    }

    /// BIS: sets the source bits in the destination; no flags.
    pub fn BIS(&mut self, inst: &Instruction, args: &Args) -> (r: Result<(), Fault>)
        requires
            old(self).wf(),
            loc_wf(args.dst),
        ensures
            final(self).wf(),
            (final(self)@, r) == alu_step_spec(old(self)@, Operation::Bis, inst.bw, *args),
    {
        let m = mask(inst.bw);
        let s = sign(inst.bw);
        let dv = self.read(args.dst, inst.bw);
        self.store(args.dst, inst.bw, (dv | args.src) & m)
    }

    /// XOR: exclusive or.
    pub fn XOR(&mut self, inst: &Instruction, args: &Args) -> (r: Result<(), Fault>)
        requires
            old(self).wf(),
            loc_wf(args.dst),
        ensures
            final(self).wf(),
            (final(self)@, r) == alu_step_spec(old(self)@, Operation::Xor, inst.bw, *args),
    {
        let m = mask(inst.bw);
        let s = sign(inst.bw);
        let dv = self.read(args.dst, inst.bw);
        let v = (args.src ^ dv) & m;
        let sr = set_all_flags(self.regs[2], v, inst.bw, v != 0, (args.src & s) != 0 && (dv & s) != 0);
        self.set_and_store(args.dst, inst.bw, v, sr)
    }

    /// AND: bitwise and.
    pub fn AND(&mut self, inst: &Instruction, args: &Args) -> (r: Result<(), Fault>)
        requires
            old(self).wf(),
            loc_wf(args.dst),
        ensures
            final(self).wf(),
            (final(self)@, r) == alu_step_spec(old(self)@, Operation::And, inst.bw, *args),
    {
        let m = mask(inst.bw);
        let s = sign(inst.bw);
        let dv = self.read(args.dst, inst.bw);
        let v = args.src & dv & m;
        let sr = set_all_flags(self.regs[2], v, inst.bw, v != 0, false);
        self.set_and_store(args.dst, inst.bw, v, sr)
    }
}

impl Cpu {
    /// Resolves an instruction's operands, each extension word taken once:
    /// the source (and its value) before the destination.
    pub fn get_args(&mut self, inst: &Instruction) -> (r: Args)
        requires
            old(self).wf(),
            inst_wf(*inst),
        ensures
            final(self).wf(),
            (r, final(self)@) == args_spec(old(self)@, *inst),
            loc_wf(r.dst),
    {
        if inst.optype == OpType::NoArg || inst.op == Operation::Call || inst.op == Operation::Reti {
            Args { src: 0, dst: Location::Constant(0) }
        } else if inst.optype == OpType::TwoArg {
            let sl = self.resolve(inst.sourcereg, inst.source_mode);
            let sv = self.read(sl, inst.bw);
            let dl = self.resolve(inst.destreg, inst.dest_mode);
            Args { src: sv, dst: dl }
        } else {
            let dl = self.resolve(inst.destreg, inst.dest_mode);
            Args { src: 0, dst: dl }
        }
    }

    /// Executes a decoded instruction on its resolved operands.
    pub fn caller(&mut self, inst: &Instruction, args: &Args) -> (r: Result<(), Fault>)
        requires
            old(self).wf(),
            loc_wf(args.dst),
        ensures
            final(self).wf(),
            (final(self)@, r) == exec_spec(old(self)@, *inst, *args),
    {
        match inst.op {
            Operation::Jne => {
                self.JNE(inst);
                Ok(())
            },
            Operation::Jeq => {
                self.JEQ(inst);
                Ok(())
            },
            Operation::Jnc => {
                self.JNC(inst);
                Ok(())
            },
            Operation::Jc => {
                self.JC(inst);
                Ok(())
            },
            Operation::Jn => {
                self.JN(inst);
                Ok(())
            },
            Operation::Jge => {
                self.JGE(inst);
                Ok(())
            },
            Operation::Jl => {
                self.JL(inst);
                Ok(())
            },
            Operation::Jmp => {
                self.JMP(inst);
                Ok(())
            },
            Operation::Rrc => self.RRC(inst, args),
            Operation::Swpb => self.SWPB(inst, args),
            Operation::Rra => self.RRA(inst, args),
            Operation::Sxt => self.SXT(inst, args),
            Operation::Push => {
                self.PUSH(inst, args);
                Ok(())
            },
            Operation::Call => {
                self.CALL();
                Ok(())
            },
            Operation::Reti => {
                self.RETI();
                Ok(())
            },
            Operation::Mov => self.MOV(inst, args),
            Operation::Add => self.ADD(inst, args),
            Operation::Addc => self.ADDC(inst, args),
            Operation::Subc => self.SUBC(inst, args),
            Operation::Sub => self.SUB(inst, args),
            Operation::Cmp => self.CMP(inst, args),
            Operation::Dadd => self.DADD(inst, args),
            Operation::Bit => self.BIT(inst, args),
            Operation::Bic => self.BIC(inst, args),
            Operation::Bis => self.BIS(inst, args),
            Operation::Xor => self.XOR(inst, args),
            Operation::And => self.AND(inst, args),
        }
    }

    /// Executes exactly one instruction: fetch, decode, resolve operands,
    /// execute. The instruction and its operand values are kept for display.
    pub fn step(&mut self) -> (r: Result<(), Fault>)
        requires
            old(self).wf(),
        ensures
            final(self).wf(),
            (final(self)@, r) == step_spec(old(self)@),
    {
        let code = self.next_inst();
        let inst = match parse_inst(code) {
            Ok(i) => i,
            Err(e) => {
                return Err(e);
            },
        };
        let args = self.get_args(&inst);
        let mut shown = inst;
        shown.sourcearg = args.src;
        shown.destarg = self.read(args.dst, inst.bw);
        self.inst = shown;
        self.caller(&inst, &args)
    }
}

} // verus!
