use vstd::prelude::*;

use rustc_hash::FxHashMap;

use crate::errors::RuntimeErrorKind;
use crate::instructions::{encode, lemma_round_trip, I9, Instruction, Word};
use crate::register::{written, Registers};
use crate::value::Value;

verus! {

#[verifier::external_type_specification]
#[verifier::external_body]
pub struct ExFxBuildHasher(rustc_hash::FxBuildHasher);

/// A global table: names to values.
pub type GlobalTable = FxHashMap<String, Value>;

/// What a global table holds, keyed by the characters of each name.
pub uninterp spec fn globals_of(t: GlobalTable) -> Map<Seq<char>, Value>;

/// Relies on `HashMap::default` (with rustc_hash's `FxBuildHasher`): a new map
/// holds no entry.
#[verifier::external_body]
fn table_new() -> (r: GlobalTable)
    ensures
        forall|k: Seq<char>| !globals_of(r).contains_key(k),
{
    FxHashMap::default()
}

/// Relies on `HashMap::get`: the entry whose key has the same characters as
/// `name`, if there is one.
#[verifier::external_body]
fn table_get<'a>(t: &'a GlobalTable, name: &str) -> (r: Option<&'a Value>)
    ensures
        match r {
            Some(v) => globals_of(*t).contains_key(name@) && globals_of(*t)[name@] == *v,
            None => !globals_of(*t).contains_key(name@),
        },
{
    t.get(name)
}

/// Relies on `HashMap::insert`: the key maps to `v` afterwards, the other
/// entries stay.
#[verifier::external_body]
fn table_insert(t: &mut GlobalTable, name: String, v: Value)
    ensures
        globals_of(*final(t)) == globals_of(*old(t)).insert(name@, v),
{
    t.insert(name, v);
}

/// What the embedder does after one step. The numeric work (a product, a
/// remainder, a loop counter's step and test) is done by the embedder on the
/// floats whose bits are given, and handed back through `VM::resume`.
#[derive(Debug, Clone, Copy, PartialEq, Eq, Structural)]
pub enum Action {
    /// The program ended.
    Halt,
    /// The instruction was carried out; step again.
    Next,
    /// Multiply the two numbers and resume with the product.
    Multiply(u64, u64),
    /// Take the floating remainder of the two numbers and resume with it.
    Modulo(u64, u64),
    /// Subtract one from the loop counter and resume with the result.
    Decrement(u64),
    /// Add one to the loop counter (first number) and resume with the result
    /// and whether it is below the limit (second number).
    Increment(u64, u64),
}

/// The big-endian 32-bit word at byte `i`.
pub open spec fn be_u32(b: Seq<u8>, i: int) -> u32 {
    (b[i] as int * 0x1000000 + b[i + 1] as int * 0x10000 + b[i + 2] as int * 0x100 + b[i
        + 3] as int) as u32
}

/// The word at word index `pc`, if the code holds a whole one there.
pub open spec fn fetch(code: Seq<u8>, pc: int) -> Option<Word> {
    if 0 <= pc && 4 * pc + 4 <= code.len() {
        Some(Word(be_u32(code, 4 * pc)))
    } else {
        None
    }
}

/// The value an operand names.
pub open spec fn operand_value(x: I9, regs: Seq<Value>, consts: Seq<Value>) -> Result<
    Value,
    RuntimeErrorKind,
> {
    match x {
        I9::Reg(i) => if (i as int) < regs.len() {
            Ok(regs[i as int])
        } else {
            Err(RuntimeErrorKind::RegisterOutOfRange)
        },
        I9::Cst(i) => if (i as int) < consts.len() {
            Ok(consts[i as int])
        } else {
            Err(RuntimeErrorKind::MalformedProgram)
        },
    }
}

/// The two numbers of a binary operation: both operands are read, then both
/// must be numbers.
pub open spec fn operands(x: I9, y: I9, regs: Seq<Value>, consts: Seq<Value>) -> Result<
    (u64, u64),
    RuntimeErrorKind,
> {
    match (operand_value(x, regs, consts), operand_value(y, regs, consts)) {
        (Err(e), _) => Err(e),
        (Ok(_), Err(e)) => Err(e),
        (Ok(Value::Num(p)), Ok(Value::Num(q))) => Ok((p, q)),
        _ => Err(RuntimeErrorKind::InvalidOperator),
    }
}

/// The number in register `i`.
pub open spec fn reg_number(regs: Seq<Value>, i: int) -> Result<u64, RuntimeErrorKind> {
    if 0 <= i < regs.len() {
        match regs[i] {
            Value::Num(n) => Ok(n),
            Value::Str(_) => Err(RuntimeErrorKind::InvalidOperator),
        }
    } else {
        Err(RuntimeErrorKind::RegisterOutOfRange)
    }
}

/// The outcome of a register write that ends an instruction: on success the
/// program counter moves to `next`; on failure nothing changes.
pub open spec fn after_write(pc: int, regs: Seq<Value>, a: u8, v: Value, next: int) -> (
    Result<(), RuntimeErrorKind>,
    int,
    Seq<Value>,
) {
    match written(regs, a, v) {
        Some(n) => (Ok(()), next, n),
        None => (Err(RuntimeErrorKind::RegisterOutOfRange), pc, regs),
    }
}

/// `after_write` for an instruction that ends by continuing.
pub open spec fn write_then_next(pc: int, regs: Seq<Value>, a: u8, v: Value) -> (
    Result<Action, RuntimeErrorKind>,
    int,
    Seq<Value>,
) {
    let (r, p, n) = after_write(pc, regs, a, v, pc + 1);
    match r {
        Ok(_) => (Ok(Action::Next), p, n),
        Err(e) => (Err(e), p, n),
    }
}

/// One step of the machine: its result, then the program counter and the
/// registers after it. Numeric instructions leave both as they are and ask
/// the embedder for the number.
pub open spec fn step_spec(
    code: Seq<u8>,
    pc: int,
    regs: Seq<Value>,
    consts: Seq<Value>,
    globals: Map<Seq<char>, Value>,
) -> (Result<Action, RuntimeErrorKind>, int, Seq<Value>) {
    let fail = |e: RuntimeErrorKind| (Err(e), pc, regs);
    match fetch(code, pc) {
        None => fail(RuntimeErrorKind::MalformedProgram),
        Some(w) => match w.decoded() {
            None => fail(RuntimeErrorKind::MalformedProgram),
            Some(inst) => match inst {
                Instruction::Return => (Ok(Action::Halt), pc, regs),
                Instruction::Move(_, _) => (Ok(Action::Halt), pc, regs),
                Instruction::Load(a, bx) => if (bx as int) < consts.len() {
                    write_then_next(pc, regs, a, consts[bx as int])
                } else {
                    fail(RuntimeErrorKind::MalformedProgram)
                },
                Instruction::Mul(_, b, c) => match operands(b, c, regs, consts) {
                    Ok((p, q)) => (Ok(Action::Multiply(p, q)), pc, regs),
                    Err(e) => fail(e),
                },
                Instruction::Mod(_, b, c) => match operands(b, c, regs, consts) {
                    Ok((p, q)) => (Ok(Action::Modulo(p, q)), pc, regs),
                    Err(e) => fail(e),
                },
                Instruction::ForPrep(a, _) => match reg_number(regs, a as int) {
                    Ok(v) => (Ok(Action::Decrement(v)), pc, regs),
                    Err(e) => fail(e),
                },
                Instruction::ForLoop(a, _) => match reg_number(regs, a as int + 1) {
                    Err(e) => fail(e),
                    Ok(lim) => match reg_number(regs, a as int) {
                        Ok(v) => (Ok(Action::Increment(v, lim)), pc, regs),
                        Err(e) => fail(e),
                    },
                },
                Instruction::LoadGlb(a, b) => match operand_value(b, regs, consts) {
                    Err(e) => fail(e),
                    Ok(Value::Num(_)) => fail(RuntimeErrorKind::InvalidOperator),
                    Ok(Value::Str(name)) => if globals.contains_key(name@) {
                        write_then_next(pc, regs, a, globals[name@])
                    } else {
                        fail(RuntimeErrorKind::GlobalNotFound(name))
                    },
                },
            },
        },
    }
}

/// Completing the numeric instruction at `pc` with the number `value` (and,
/// for a loop test, `again`): the result, then the program counter and the
/// registers after it.
pub open spec fn resume_spec(code: Seq<u8>, pc: int, regs: Seq<Value>, value: u64, again: bool) -> (
    Result<(), RuntimeErrorKind>,
    int,
    Seq<Value>,
) {
    let v = Value::Num(value);
    let fail = (Err(RuntimeErrorKind::MalformedProgram), pc, regs);
    match fetch(code, pc) {
        None => fail,
        Some(w) => match w.decoded() {
            Some(Instruction::Mul(a, _, _)) => after_write(pc, regs, a, v, pc + 1),
            Some(Instruction::Mod(a, _, _)) => after_write(pc, regs, a, v, pc + 1),
            Some(Instruction::ForPrep(a, bx)) => after_write(pc, regs, a, v, pc + bx + 1),
            Some(Instruction::ForLoop(a, bx)) => if !again {
                after_write(pc, regs, a, v, pc + 1)
            } else if bx as int <= pc {
                after_write(pc, regs, a, v, pc - bx + 1)
            } else {
                fail
            },
            _ => fail,
        },
    }
}

/// A global load whose name operand holds a string finds the value that the
/// table binds to that name and stores it in the destination register; when
/// the table holds no such name, the step fails with that exact name.
pub proof fn lemma_global_resolution(
    code: Seq<u8>,
    pc: int,
    regs: Seq<Value>,
    consts: Seq<Value>,
    globals: Map<Seq<char>, Value>,
    a: u8,
    b: I9,
    name: String,
)
    requires
        fetch(code, pc) == Some(Word(encode(Instruction::LoadGlb(a, b)))),
        operand_value(b, regs, consts) == Ok::<Value, RuntimeErrorKind>(Value::Str(name)),
    ensures
        globals.contains_key(name@) && (a as int) <= regs.len() ==> {
            let (r, next, after) = step_spec(code, pc, regs, consts, globals);
            &&& r == Ok::<Action, RuntimeErrorKind>(Action::Next)
            &&& next == pc + 1
            &&& after[a as int] == globals[name@]
        },
        !globals.contains_key(name@) ==> step_spec(code, pc, regs, consts, globals).0 == Err::<
            Action,
            RuntimeErrorKind,
        >(RuntimeErrorKind::GlobalNotFound(name)),
{
    lemma_round_trip(Instruction::LoadGlb(a, b));
}

/// A multiplication or a remainder with a string operand fails with
/// `InvalidOperator`; with two numbers it hands exactly those two numbers to
/// the embedder and changes nothing yet.
pub proof fn lemma_arithmetic_operands(
    code: Seq<u8>,
    pc: int,
    regs: Seq<Value>,
    consts: Seq<Value>,
    globals: Map<Seq<char>, Value>,
    modulo: bool,
    a: u8,
    b: I9,
    c: I9,
)
    requires
        fetch(code, pc) == Some(
            Word(
                encode(
                    if modulo {
                        Instruction::Mod(a, b, c)
                    } else {
                        Instruction::Mul(a, b, c)
                    },
                ),
            ),
        ),
    ensures
        (operand_value(b, regs, consts) matches Ok(Value::Str(_))) && operand_value(
            c,
            regs,
            consts,
        ) is Ok ==> step_spec(code, pc, regs, consts, globals).0 == Err::<
            Action,
            RuntimeErrorKind,
        >(RuntimeErrorKind::InvalidOperator),
        operand_value(b, regs, consts) is Ok && (operand_value(c, regs, consts) matches Ok(
            Value::Str(_),
        )) ==> step_spec(code, pc, regs, consts, globals).0 == Err::<Action, RuntimeErrorKind>(
            RuntimeErrorKind::InvalidOperator,
        ),
        (operand_value(b, regs, consts) matches Ok(Value::Num(_))) && (operand_value(
            c,
            regs,
            consts,
        ) matches Ok(Value::Num(_))) ==> {
            let p = operand_value(b, regs, consts)->Ok_0->Num_0;
            let q = operand_value(c, regs, consts)->Ok_0->Num_0;
            let act = if modulo {
                Action::Modulo(p, q)
            } else {
                Action::Multiply(p, q)
            };
            step_spec(code, pc, regs, consts, globals) == (
                Ok::<Action, RuntimeErrorKind>(act),
                pc,
                regs,
            )
        },
{
    if modulo {
        lemma_round_trip(Instruction::Mod(a, b, c));
    } else {
        lemma_round_trip(Instruction::Mul(a, b, c));
    }
}

/// The virtual machine: program counter, registers, constant pool and global
/// table.
pub struct VM {
    reg: Registers,
    pc: usize,
    cst: Vec<Value>,
    glb: GlobalTable,
}

impl VM {
    pub closed spec fn pc_of(&self) -> int {
        self.pc as int
    }

    pub closed spec fn regs(&self) -> Seq<Value> {
        self.reg@
    }

    pub closed spec fn consts(&self) -> Seq<Value> {
        self.cst@
    }

    pub closed spec fn globals(&self) -> Map<Seq<char>, Value> {
        globals_of(self.glb)
    }

    pub fn new() -> (r: VM)
        ensures
            r.pc_of() == 0,
            r.regs() == Seq::<Value>::empty(),
            r.consts() == Seq::<Value>::empty(),
            r.globals() == Map::<Seq<char>, Value>::empty(),
    {
        let glb = table_new();
        assert(globals_of(glb) =~= Map::<Seq<char>, Value>::empty());
        VM { reg: Registers::new(), pc: 0, cst: Vec::new(), glb }
    }

    /// Binds `name` to `value` in the global table.
    pub fn set_global(&mut self, name: String, value: Value)
        ensures
            final(self).globals() == old(self).globals().insert(name@, value),
            final(self).pc_of() == old(self).pc_of(),
            final(self).regs() == old(self).regs(),
            final(self).consts() == old(self).consts(),
    {
        table_insert(&mut self.glb, name, value);
    }

    /// The value in register `i`, if the file holds one there.
    pub fn register(&self, i: u8) -> (r: Option<&Value>)
        ensures
            (i as int) < self.regs().len() ==> r == Some(&self.regs()[i as int]),
            (i as int) >= self.regs().len() ==> r is None,
    {
        self.reg.get(i)
    }

    /// Prepares a run: program counter at the first word, fresh registers, the
    /// given constant pool. Fails when the code is not made of whole words.
    pub fn start(&mut self, code: &[u8], consts: Vec<Value>) -> (r: Result<(), RuntimeErrorKind>)
        ensures
            final(self).pc_of() == 0,
            final(self).regs() == Seq::<Value>::empty(),
            final(self).consts() == consts@,
            final(self).globals() == old(self).globals(),
            r is Ok <==> code@.len() % 4 == 0,
            r is Err ==> (r matches Err(RuntimeErrorKind::MalformedProgram)),
    {
        self.pc = 0;
        self.reg = Registers::new();
        self.cst = consts;
        if code.len() % 4 != 0 {
            Err(RuntimeErrorKind::MalformedProgram)
        } else {
            Ok(())
        }
    }

    /// The word at the program counter, read big-endian.
    fn fetch_word(&self, code: &[u8]) -> (r: Option<Word>)
        ensures
            r == fetch(code@, self.pc_of()),
            r is Some ==> self.pc_of() < usize::MAX / 4,
    {
        let len = code.len();
        assert(len / 4 <= usize::MAX / 4);
        if self.pc >= len / 4 {
            None
        } else {
            let i = 4 * self.pc;
            let w = (code[i] as u32) * 0x1000000 + (code[i + 1] as u32) * 0x10000 + (code[i
                + 2] as u32) * 0x100 + (code[i + 3] as u32);
            Some(Word(w))
        }
    }

    /// The value an operand names.
    fn load(&self, addr: I9) -> (r: Result<Value, RuntimeErrorKind>)
        ensures
            r == operand_value(addr, self.regs(), self.consts()),
    {
        match addr {
            I9::Reg(x) => match self.reg.get(x) {
                Some(v) => Ok(v.duplicate()),
                None => Err(RuntimeErrorKind::RegisterOutOfRange),
            },
            I9::Cst(x) => if (x as usize) < self.cst.len() {
                Ok(self.cst[x as usize].duplicate())
            } else {
                Err(RuntimeErrorKind::MalformedProgram)
            },
        }
    }

    /// The two numbers of a binary operation.
    fn load_numbers(&self, b: I9, c: I9) -> (r: Result<(u64, u64), RuntimeErrorKind>)
        ensures
            r == operands(b, c, self.regs(), self.consts()),
    {
        let lhs = self.load(b);
        let rhs = self.load(c);
        match (lhs, rhs) {
            (Err(e), _) => Err(e),
            (Ok(_), Err(e)) => Err(e),
            (Ok(Value::Num(p)), Ok(Value::Num(q))) => Ok((p, q)),
            _ => Err(RuntimeErrorKind::InvalidOperator),
        }
    }

    /// The number in register `i`.
    fn number_at(&self, i: usize) -> (r: Result<u64, RuntimeErrorKind>)
        ensures
            r == reg_number(self.regs(), i as int),
    {
        match self.reg.at(i) {
            Some(Value::Num(n)) => Ok(*n),
            Some(Value::Str(_)) => Err(RuntimeErrorKind::InvalidOperator),
            None => Err(RuntimeErrorKind::RegisterOutOfRange),
        }
    }
    /// Writes `v` into register `a`; on success moves to word `next`.
    fn write_and_jump(&mut self, a: u8, v: Value, next: usize) -> (r: Result<(), RuntimeErrorKind>)
        ensures
            (r, final(self).pc_of(), final(self).regs()) == after_write(
                old(self).pc_of(),
                old(self).regs(),
                a,
                v,
                next as int,
            ),
            final(self).consts() == old(self).consts(),
            final(self).globals() == old(self).globals(),
    {
        match self.reg.insert(a, v) {
            Ok(()) => {
                self.pc = next;
                Ok(())
            },
            Err(e) => Err(e),
        }
    }

    /// Writes `v` into register `a`; on success moves to the next word.
    fn write_and_advance(&mut self, a: u8, v: Value) -> (r: Result<Action, RuntimeErrorKind>)
        requires
            old(self).pc_of() < usize::MAX,
        ensures
            (r, final(self).pc_of(), final(self).regs()) == write_then_next(
                old(self).pc_of(),
                old(self).regs(),
                a,
                v,
            ),
            final(self).consts() == old(self).consts(),
            final(self).globals() == old(self).globals(),
    {
        let next = self.pc + 1;
        match self.write_and_jump(a, v, next) {
            Ok(()) => Ok(Action::Next),
            Err(e) => Err(e),
        }
    }

    /// Runs the instruction at the program counter as far as it needs no
    /// arithmetic: halts, moves data and advances, or reads the numbers that
    /// the embedder has to combine. The first error ends the step with the
    /// program counter and registers as they were.
    pub fn step(&mut self, code: &[u8]) -> (r: Result<Action, RuntimeErrorKind>)
        ensures
            ({
                let (res, pc, regs) = step_spec(
                    code@,
                    old(self).pc_of(),
                    old(self).regs(),
                    old(self).consts(),
                    old(self).globals(),
                );
                &&& r == res
                &&& final(self).pc_of() == pc
                &&& final(self).regs() == regs
            }),
            final(self).consts() == old(self).consts(),
            final(self).globals() == old(self).globals(),
    {
        let w = match self.fetch_word(code) {
            Some(w) => w,
            None => return Err(RuntimeErrorKind::MalformedProgram),
        };
        let inst = match w.decode() {
            Some(i) => i,
            None => return Err(RuntimeErrorKind::MalformedProgram),
        };
        match inst {
            Instruction::Return => Ok(Action::Halt),
            Instruction::Move(_, _) => Ok(Action::Halt),
            Instruction::Load(a, bx) => {
                if (bx as usize) < self.cst.len() {
                    let v = self.cst[bx as usize].duplicate();
                    self.write_and_advance(a, v)
                } else {
                    Err(RuntimeErrorKind::MalformedProgram)
                }
            },
            Instruction::Mul(_, b, c) => match self.load_numbers(b, c) {
                Ok((p, q)) => Ok(Action::Multiply(p, q)),
                Err(e) => Err(e),
            },
            Instruction::Mod(_, b, c) => match self.load_numbers(b, c) {
                Ok((p, q)) => Ok(Action::Modulo(p, q)),
                Err(e) => Err(e),
            },
            Instruction::ForPrep(a, _) => match self.number_at(a as usize) {
                Ok(v) => Ok(Action::Decrement(v)),
                Err(e) => Err(e),
            },
            Instruction::ForLoop(a, _) => match self.number_at(a as usize + 1) {
                Err(e) => Err(e),
                Ok(lim) => match self.number_at(a as usize) {
                    Ok(v) => Ok(Action::Increment(v, lim)),
                    Err(e) => Err(e),
                },
            },
            Instruction::LoadGlb(a, b) => match self.load(b) {
                Err(e) => Err(e),
                Ok(Value::Num(_)) => Err(RuntimeErrorKind::InvalidOperator),
                Ok(Value::Str(name)) => match table_get(&self.glb, name.as_str()) {
                    Some(v) => {
                        let v = v.duplicate();
                        self.write_and_advance(a, v)
                    },
                    None => Err(RuntimeErrorKind::GlobalNotFound(name)),
                },
            },
        }
    }

    /// Completes the numeric instruction at the program counter with the
    /// number the embedder computed: stores it in the instruction's register
    /// and moves on; for a loop test, `again` says whether to jump back.
    pub fn resume(&mut self, code: &[u8], value: u64, again: bool) -> (r: Result<
        (),
        RuntimeErrorKind,
    >)
        ensures
            ({
                let (res, pc, regs) = resume_spec(
                    code@,
                    old(self).pc_of(),
                    old(self).regs(),
                    value,
                    again,
                );
                &&& r == res
                &&& final(self).pc_of() == pc
                &&& final(self).regs() == regs
            }),
            final(self).consts() == old(self).consts(),
            final(self).globals() == old(self).globals(),
    {
        let w = match self.fetch_word(code) {
            Some(w) => w,
            None => return Err(RuntimeErrorKind::MalformedProgram),
        };
        let v = Value::Num(value);
        let pc = self.pc;
        match w.decode() {
            Some(Instruction::Mul(a, _, _)) => self.write_and_jump(a, v, pc + 1),
            Some(Instruction::Mod(a, _, _)) => self.write_and_jump(a, v, pc + 1),
            Some(Instruction::ForPrep(a, bx)) => self.write_and_jump(a, v, pc + bx as usize + 1),
            Some(Instruction::ForLoop(a, bx)) => {
                if !again {
                    self.write_and_jump(a, v, pc + 1)
                } else if (bx as usize) <= pc {
                    self.write_and_jump(a, v, pc - bx as usize + 1)
                } else {
                    Err(RuntimeErrorKind::MalformedProgram)
                }
            },
            _ => Err(RuntimeErrorKind::MalformedProgram),
        }
    }
}

} // verus!
