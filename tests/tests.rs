use thvm::instructions::{OP_LOAD, OP_MUL, OP_RETURN};
use thvm::{Action, Instruction, Registers, RuntimeErrorKind, Value, Word, I9, VM};

use Instruction::{ForLoop, ForPrep, Load, LoadGlb, Mod, Move, Mul, Return};
use Value::{Num, Str};
use I9::{Cst, Reg};

fn n(x: f64) -> Value {
    Num(x.to_bits())
}

fn f(bits: u64) -> f64 {
    f64::from_bits(bits)
}

fn assemble(insts: Vec<Instruction>) -> Vec<u8> {
    insts
        .into_iter()
        .flat_map(|inst| Word::from(inst).0.to_be_bytes())
        .collect()
}

/// Runs the program to its end, doing the float work the machine asks for.
/// Returns how many times a loop jumped back.
fn run(vm: &mut VM, code: &[u8], consts: Vec<Value>) -> Result<usize, RuntimeErrorKind> {
    vm.start(code, consts)?;
    let mut jumps = 0;
    loop {
        match vm.step(code)? {
            Action::Halt => return Ok(jumps),
            Action::Next => {}
            Action::Multiply(p, q) => vm.resume(code, (f(p) * f(q)).to_bits(), false)?,
            Action::Modulo(p, q) => vm.resume(code, (f(p) % f(q)).to_bits(), false)?,
            Action::Decrement(v) => vm.resume(code, (f(v) - 1.0).to_bits(), false)?,
            Action::Increment(v, lim) => {
                let next = f(v) + 1.0;
                let again = next < f(lim);
                if again {
                    jumps += 1;
                }
                vm.resume(code, next.to_bits(), again)?
            }
        }
    }
}

fn execute(insts: Vec<Instruction>, consts: Vec<Value>) -> (VM, Result<usize, RuntimeErrorKind>) {
    let mut vm = VM::new();
    let code = assemble(insts);
    let r = run(&mut vm, &code, consts);
    (vm, r)
}

fn number_in(vm: &VM, i: u8) -> f64 {
    match vm.register(i) {
        Some(Num(b)) => f(*b),
        other => panic!("register {} holds {:?}", i, other),
    }
}

#[test]
fn test_mul() {
    let insts = vec![Load(0, 0), Mul(1, Reg(0), Cst(1)), Return];
    let consts = vec![n(2.0), n(3.0)];
    let (vm, r) = execute(insts, consts);
    assert!(r.is_ok());
    assert_eq!(number_in(&vm, 1), 6.0);
}

#[test]
fn test_for() {
    let insts = vec![
        Load(0, 0),
        Load(1, 0),
        Load(2, 2),
        ForPrep(1, 1),
        Mul(0, Reg(0), Cst(1)),
        ForLoop(1, 2),
        Return,
    ];
    let consts = vec![n(1.0), n(2.0), n(4.0)];
    let (vm, r) = execute(insts, consts);
    assert_eq!(r.unwrap(), 3);
    assert_eq!(number_in(&vm, 0), 8.0);
    assert_eq!(number_in(&vm, 1), 4.0);
}

#[test]
fn test_arithmetic() {
    let insts = vec![
        Load(0, 0),
        Load(1, 0),
        Load(2, 1),
        ForPrep(1, 2),
        Mul(3, Reg(0), Reg(1)),
        Mod(0, Reg(3), Cst(2)),
        ForLoop(1, 3),
        Return,
    ];
    let consts = vec![n(1.0), n(1000000.0), n(100000007.0)];
    let (vm, r) = execute(insts, consts);
    assert_eq!(r.unwrap(), 999999);
    let mut acc = 1.0f64;
    let mut i = 1.0f64;
    while i < 1000000.0 {
        acc = (acc * i) % 100000007.0;
        i += 1.0;
    }
    assert_eq!(number_in(&vm, 0), acc);
}

#[test]
fn multiply_text_operand_is_invalid() {
    let insts = vec![Load(0, 0), Mul(1, Reg(0), Cst(1)), Return];
    let consts = vec![Str("a".to_string()), n(3.0)];
    let (_, r) = execute(insts, consts);
    assert!(matches!(r, Err(RuntimeErrorKind::InvalidOperator)));
}

#[test]
fn modulo_text_operand_is_invalid() {
    let insts = vec![Mod(0, Cst(0), Cst(1)), Return];
    let consts = vec![n(7.0), Str("b".to_string())];
    let (_, r) = execute(insts, consts);
    assert!(matches!(r, Err(RuntimeErrorKind::InvalidOperator)));
}

#[test]
fn modulo_matches_native_remainder() {
    let insts = vec![Mod(0, Cst(0), Cst(1)), Mul(1, Cst(0), Cst(1)), Return];
    let (vm, r) = execute(insts, vec![n(7.5), n(-2.0)]);
    assert!(r.is_ok());
    assert_eq!(number_in(&vm, 0), 7.5f64 % -2.0);
    assert_eq!(number_in(&vm, 0), 1.5);
    assert_eq!(number_in(&vm, 1), -15.0);
}

#[test]
fn loop_from_one_to_two_runs_body_once() {
    let insts = vec![
        Load(0, 2),
        Load(1, 0),
        Load(2, 1),
        ForPrep(1, 1),
        Mul(0, Reg(0), Cst(3)),
        ForLoop(1, 2),
        Return,
    ];
    let (vm, r) = execute(insts, vec![n(1.0), n(2.0), n(1.0), n(10.0)]);
    assert_eq!(r.unwrap(), 1);
    assert_eq!(number_in(&vm, 0), 10.0);
}

#[test]
fn loop_squares_accumulator_three_times() {
    let insts = vec![
        Load(0, 3),
        Load(1, 0),
        Load(2, 2),
        ForPrep(1, 1),
        Mul(0, Reg(0), Reg(0)),
        ForLoop(1, 2),
        Return,
    ];
    let (vm, r) = execute(insts, vec![n(1.0), n(1.0), n(4.0), n(2.0)]);
    assert_eq!(r.unwrap(), 3);
    assert_eq!(number_in(&vm, 0), 256.0);
}

#[test]
fn loop_with_start_past_limit_skips_body() {
    let insts = vec![
        Load(0, 0),
        Load(1, 1),
        Load(2, 1),
        ForPrep(1, 1),
        Mul(0, Reg(0), Cst(2)),
        ForLoop(1, 2),
        Return,
    ];
    let (vm, r) = execute(insts, vec![n(1.0), n(5.0), n(3.0)]);
    assert_eq!(r.unwrap(), 0);
    assert_eq!(number_in(&vm, 0), 1.0);
    assert_eq!(number_in(&vm, 1), 5.0);
}

#[test]
fn missing_global_reports_its_name() {
    let (_, r) = execute(vec![LoadGlb(0, Cst(0)), Return], vec![Str("x".to_string())]);
    match r {
        Err(RuntimeErrorKind::GlobalNotFound(name)) => assert_eq!(name, "x"),
        other => panic!("unexpected {:?}", other),
    }
}

#[test]
fn present_global_is_loaded() {
    let mut vm = VM::new();
    vm.set_global("x".to_string(), n(5.0));
    vm.set_global("y".to_string(), Str("why".to_string()));
    let code = assemble(vec![LoadGlb(0, Cst(0)), LoadGlb(1, Cst(1)), Return]);
    let r = run(&mut vm, &code, vec![Str("x".to_string()), Str("y".to_string())]);
    assert!(r.is_ok());
    assert_eq!(number_in(&vm, 0), 5.0);
    match vm.register(1) {
        Some(Str(s)) => assert_eq!(s, "why"),
        other => panic!("unexpected {:?}", other),
    }
}

#[test]
fn global_name_must_be_text() {
    let (_, r) = execute(vec![LoadGlb(0, Cst(0)), Return], vec![n(1.0)]);
    assert!(matches!(r, Err(RuntimeErrorKind::InvalidOperator)));
}

#[test]
fn truncated_program_is_malformed() {
    let mut vm = VM::new();
    let mut code = assemble(vec![Return]);
    code.push(0);
    let r = vm.start(&code, vec![]);
    assert!(matches!(r, Err(RuntimeErrorKind::MalformedProgram)));
}

#[test]
fn running_off_the_end_is_malformed() {
    let (_, r) = execute(vec![Load(0, 0)], vec![n(1.0)]);
    assert!(matches!(r, Err(RuntimeErrorKind::MalformedProgram)));
}

#[test]
fn unknown_opcode_is_malformed() {
    let code = Word::new(9).0.to_be_bytes().to_vec();
    let mut vm = VM::new();
    vm.start(&code, vec![]).unwrap();
    assert!(matches!(vm.step(&code), Err(RuntimeErrorKind::MalformedProgram)));
}

#[test]
fn missing_constant_is_malformed() {
    let (_, r) = execute(vec![Load(0, 3), Return], vec![n(1.0)]);
    assert!(matches!(r, Err(RuntimeErrorKind::MalformedProgram)));
}

#[test]
fn write_past_register_end_is_rejected() {
    let (vm, r) = execute(vec![Load(0, 0), Load(2, 0), Return], vec![n(1.0)]);
    assert!(matches!(r, Err(RuntimeErrorKind::RegisterOutOfRange)));
    assert_eq!(number_in(&vm, 0), 1.0);
    assert!(vm.register(2).is_none());
}

#[test]
fn read_of_unset_register_is_rejected() {
    let (_, r) = execute(vec![Mul(0, Reg(4), Cst(0)), Return], vec![n(1.0)]);
    assert!(matches!(r, Err(RuntimeErrorKind::RegisterOutOfRange)));
}

#[test]
fn move_halts() {
    let (vm, r) = execute(vec![Load(0, 0), Move(1, Reg(0)), Load(1, 0)], vec![n(1.0)]);
    assert_eq!(r.unwrap(), 0);
    assert!(vm.register(1).is_none());
}

#[test]
fn registers_append_overwrite_reject() {
    let mut regs = Registers::new();
    assert!(regs.insert(0, n(1.0)).is_ok());
    assert_eq!(regs.len(), 1);
    assert!(regs.insert(1, n(2.0)).is_ok());
    assert_eq!(regs.len(), 2);
    assert!(regs.insert(0, n(3.0)).is_ok());
    assert_eq!(regs.len(), 2);
    assert!(matches!(regs.get(0), Some(Num(b)) if f(*b) == 3.0));
    assert!(matches!(regs.insert(5, n(4.0)), Err(RuntimeErrorKind::RegisterOutOfRange)));
    assert_eq!(regs.len(), 2);
    assert!(regs.get(5).is_none());
}

#[test]
fn instruction_round_trip() {
    let mut insts = vec![Return];
    for a in [0u8, 1, 7, 128, 255] {
        for x in [0u8, 1, 200, 255] {
            for b in [Reg(x), Cst(x)] {
                insts.push(Move(a, b));
                insts.push(LoadGlb(a, b));
                for c in [Reg(255 - x), Cst(x / 2)] {
                    insts.push(Mul(a, b, c));
                    insts.push(Mod(a, b, c));
                }
            }
        }
        for bx in [0u16, 1, 300, 65535] {
            insts.push(Load(a, bx));
            insts.push(ForPrep(a, bx));
            insts.push(ForLoop(a, bx));
        }
    }
    for inst in insts {
        assert_eq!(Word::from(inst).decode(), Some(inst));
    }
}

#[test]
fn operand_round_trip() {
    for i in 0..=255u8 {
        assert_eq!(I9::from(u32::from(Reg(i))), Reg(i));
        assert_eq!(I9::from(u32::from(Cst(i))), Cst(i));
        assert_eq!(u32::from(Cst(i)), i as u32 | 0x100);
    }
}

#[test]
fn word_layout() {
    let w = Word::with_a_b_c(OP_MUL, 1, Reg(0), Cst(1));
    assert_eq!(w.0, (5 << 26) | (1 << 18) | 0x101);
    assert_eq!(w.get_opcode(), OP_MUL);
    assert_eq!(w.parse_a_b_c(), (1, Reg(0), Cst(1)));
    let w = Word::with_a_bx(OP_LOAD, 3, 0xbeef);
    assert_eq!(w.0, (2 << 26) | (3 << 18) | 0xbeef);
    assert_eq!(w.parse_a_bx(), (3, 0xbeef));
    let w = Word::with_a_sbx(OP_LOAD, 4, 12, true);
    assert_eq!(w.parse_a_sbx(), (4, 12, true));
    assert_eq!(Word::with_a_sbx(OP_LOAD, 4, 12, false).parse_a_sbx(), (4, 12, false));
    let w = Word::with_a(OP_RETURN, 9);
    assert_eq!(w.parse_a(), 9);
    assert_eq!(Word::with_a_b(7, 2, Cst(3)).parse_a_b(), (2, Cst(3)));
    assert_eq!(Word::new(1).set_a(2).set_b(Reg(3)).set_c(Cst(4)).0, (1 << 26) | (2 << 18) | (3 << 9) | 0x104);
    assert_eq!(Word::new(0).set_bx(7).0, 7);
    assert_eq!(Word::new(0).set_sbx(7, true).0, 7 | (1 << 17));
}

#[test]
fn value_accessors() {
    let v = n(2.5);
    assert_eq!(f(v.num()), 2.5);
    let s = Str("abc".to_string());
    assert_eq!(s.str(), "abc");
    assert!(matches!(s.duplicate(), Str(t) if t == "abc"));
}
