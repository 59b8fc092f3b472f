use vstd::prelude::*;

verus! {

pub const OP_RETURN: u8 = 0;

pub const OP_MOVE: u8 = 1;

pub const OP_LOAD: u8 = 2;

pub const OP_FORPREP: u8 = 3;

pub const OP_FORLOOP: u8 = 4;

pub const OP_MUL: u8 = 5;

pub const OP_MOD: u8 = 6;

pub const OP_LOADGLB: u8 = 7;

/// A 9-bit operand: bit 8 selects a constant slot, the low 8 bits are the index.
#[derive(Debug, Clone, Copy, PartialEq, Eq, Structural)]
pub enum I9 {
    Reg(u8),
    Cst(u8),
}

/// The logical form of one instruction.
#[derive(Debug, Clone, Copy, PartialEq, Eq, Structural)]
pub enum Instruction {
    Return,
    Move(u8, I9),
    Load(u8, u16),
    ForPrep(u8, u16),
    ForLoop(u8, u16),
    /// Multiply. R(A) = RC(B) * RC(C)
    Mul(u8, I9, I9),
    /// Modulus. R(A) = RC(B) % RC(C)
    Mod(u8, I9, I9),
    /// Load globals. R(A) = Globals\[RC(B)]
    LoadGlb(u8, I9),
}

/// One packed 32-bit instruction word.
#[derive(Debug, Clone, Copy, PartialEq, Eq, Structural)]
pub struct Word(pub u32);

/// The 9-bit field of an operand.
pub open spec fn operand_bits(x: I9) -> u32 {
    match x {
        I9::Reg(i) => i as u32,
        I9::Cst(i) => (i as u32) | 0x100,
    }
}

/// The operand held in the low 9 bits of `v`.
pub open spec fn operand_of(v: u32) -> I9 {
    let i = (v & 0xff) as u8;
    if (v >> 8u32) & 1 == 0 {
        I9::Reg(i)
    } else {
        I9::Cst(i)
    }
}

pub open spec fn opcode_bits(op: u8) -> u32 {
    (op as u32) << 26u32
}

pub open spec fn a_bits(a: u8) -> u32 {
    (a as u32) << 18u32
}

pub open spec fn sign_bit(neg: bool) -> u32 {
    if neg {
        0x20000
    } else {
        0
    }
}

/// The word of an instruction in the A+B+C shape.
pub open spec fn word_abc(op: u8, a: u8, b: I9, c: I9) -> u32 {
    opcode_bits(op) | a_bits(a) | (operand_bits(b) << 9u32) | operand_bits(c)
}

/// The word of an instruction in the A+B shape.
pub open spec fn word_ab(op: u8, a: u8, b: I9) -> u32 {
    opcode_bits(op) | a_bits(a) | (operand_bits(b) << 9u32)
}

/// The word of an instruction in the A+Bx shape.
pub open spec fn word_abx(op: u8, a: u8, bx: u16) -> u32 {
    opcode_bits(op) | a_bits(a) | (bx as u32)
}

/// The word of an instruction in the A+sBx shape.
pub open spec fn word_asbx(op: u8, a: u8, bx: u16, neg: bool) -> u32 {
    opcode_bits(op) | a_bits(a) | (bx as u32) | sign_bit(neg)
}

/// The encoding of an instruction.
pub open spec fn encode(inst: Instruction) -> u32 {
    match inst {
        Instruction::Return => opcode_bits(OP_RETURN),
        Instruction::Move(a, b) => word_ab(OP_MOVE, a, b),
        Instruction::Load(a, bx) => word_abx(OP_LOAD, a, bx),
        Instruction::ForPrep(a, bx) => word_abx(OP_FORPREP, a, bx),
        Instruction::ForLoop(a, bx) => word_abx(OP_FORLOOP, a, bx),
        Instruction::Mul(a, b, c) => word_abc(OP_MUL, a, b, c),
        Instruction::Mod(a, b, c) => word_abc(OP_MOD, a, b, c),
        Instruction::LoadGlb(a, b) => word_ab(OP_LOADGLB, a, b),
    }
}

impl Word {
    pub open spec fn opcode(self) -> u8 {
        (self.0 >> 26u32) as u8
    }

    pub open spec fn a(self) -> u8 {
        ((self.0 >> 18u32) & 0xff) as u8
    }

    pub open spec fn b(self) -> I9 {
        operand_of(self.0 >> 9u32)
    }

    pub open spec fn c(self) -> I9 {
        operand_of(self.0)
    }

    pub open spec fn bx(self) -> u16 {
        self.0 as u16
    }

    pub open spec fn neg(self) -> bool {
        (self.0 >> 17u32) & 1 == 1
    }

    /// The instruction that a word decodes to, reading the fields of the shape
    /// that its opcode fixes; `None` for an opcode outside the instruction set.
    pub open spec fn decoded(self) -> Option<Instruction> {
        let op = self.opcode();
        if op == OP_RETURN {
            Some(Instruction::Return)
        } else if op == OP_MOVE {
            Some(Instruction::Move(self.a(), self.b()))
        } else if op == OP_LOAD {
            Some(Instruction::Load(self.a(), self.bx()))
        } else if op == OP_FORPREP {
            Some(Instruction::ForPrep(self.a(), self.bx()))
        } else if op == OP_FORLOOP {
            Some(Instruction::ForLoop(self.a(), self.bx()))
        } else if op == OP_MUL {
            Some(Instruction::Mul(self.a(), self.b(), self.c()))
        } else if op == OP_MOD {
            Some(Instruction::Mod(self.a(), self.b(), self.c()))
        } else if op == OP_LOADGLB {
            Some(Instruction::LoadGlb(self.a(), self.b()))
        } else {
            None
        }
    }
}


/// Only the low nine bits of a value take part in reading an operand.
proof fn lemma_operand_low_bits(v: u32)
    ensures
        operand_of(v) == operand_of(v & 0x1ff),
{
    assert(v & 0xff == (v & 0x1ff) & 0xff) by (bit_vector);
    assert((v >> 8u32) & 1 == ((v & 0x1ff) >> 8u32) & 1) by (bit_vector);
}

/// An operand's field fits in nine bits.
proof fn lemma_operand_bits_fit(x: I9)
    ensures
        operand_bits(x) < 0x200,
{
    match x {
        I9::Reg(i) => {
            let v = i as u32;
            assert(v < 0x100);
        },
        I9::Cst(i) => {
            let v = i as u32;
            assert(v < 0x100 ==> v | 0x100 < 0x200) by (bit_vector);
        },
    }
}

/// Encoding an operand and reading it back gives the same operand, for every
/// register index and every constant index.
pub proof fn lemma_operand_round_trip(x: I9)
    ensures
        operand_of(operand_bits(x)) == x,
{
    match x {
        I9::Reg(i) => {
            let v = i as u32;
            assert(v < 0x100 ==> v & 0xff == v && (v >> 8u32) & 1 == 0) by (bit_vector);
        },
        I9::Cst(i) => {
            let v = i as u32;
            assert(v < 0x100 ==> (v | 0x100) & 0xff == v && ((v | 0x100) >> 8u32) & 1 == 1)
                by (bit_vector);
        },
    }
}

proof fn lemma_fields_abc(op: u8, a: u8, b: I9, c: I9)
    requires
        op < 64,
    ensures
        Word(word_abc(op, a, b, c)).opcode() == op,
        Word(word_abc(op, a, b, c)).a() == a,
        Word(word_abc(op, a, b, c)).b() == b,
        Word(word_abc(op, a, b, c)).c() == c,
{
    lemma_operand_bits_fit(b);
    lemma_operand_bits_fit(c);
    lemma_operand_round_trip(b);
    lemma_operand_round_trip(c);
    let o = op as u32;
    let x = a as u32;
    let y = operand_bits(b);
    let z = operand_bits(c);
    let w = word_abc(op, a, b, c);
    assert(w == (o << 26u32) | (x << 18u32) | (y << 9u32) | z);
    assert(o < 64 && x < 256 && y < 512 && z < 512 ==> {
        let w = (o << 26u32) | (x << 18u32) | (y << 9u32) | z;
        &&& w >> 26u32 == o
        &&& (w >> 18u32) & 0xff == x
        &&& (w >> 9u32) & 0x1ff == y
        &&& w & 0x1ff == z
    }) by (bit_vector);
    lemma_operand_low_bits(w >> 9u32);
    lemma_operand_low_bits(w);
}

proof fn lemma_fields_ab(op: u8, a: u8, b: I9)
    requires
        op < 64,
    ensures
        Word(word_ab(op, a, b)).opcode() == op,
        Word(word_ab(op, a, b)).a() == a,
        Word(word_ab(op, a, b)).b() == b,
{
    lemma_operand_bits_fit(b);
    lemma_operand_round_trip(b);
    let o = op as u32;
    let x = a as u32;
    let y = operand_bits(b);
    let w = word_ab(op, a, b);
    assert(w == (o << 26u32) | (x << 18u32) | (y << 9u32));
    assert(o < 64 && x < 256 && y < 512 ==> {
        let w = (o << 26u32) | (x << 18u32) | (y << 9u32);
        &&& w >> 26u32 == o
        &&& (w >> 18u32) & 0xff == x
        &&& (w >> 9u32) & 0x1ff == y
    }) by (bit_vector);
    lemma_operand_low_bits(w >> 9u32);
}

proof fn lemma_fields_asbx(op: u8, a: u8, bx: u16, neg: bool)
    requires
        op < 64,
    ensures
        Word(word_asbx(op, a, bx, neg)).opcode() == op,
        Word(word_asbx(op, a, bx, neg)).a() == a,
        Word(word_asbx(op, a, bx, neg)).bx() == bx,
        Word(word_asbx(op, a, bx, neg)).neg() == neg,
        Word(word_abx(op, a, bx)).opcode() == op,
        Word(word_abx(op, a, bx)).a() == a,
        Word(word_abx(op, a, bx)).bx() == bx,
{
    let o = op as u32;
    let x = a as u32;
    let y = bx as u32;
    let s = sign_bit(neg);
    assert(word_asbx(op, a, bx, neg) == (o << 26u32) | (x << 18u32) | y | s);
    assert(word_abx(op, a, bx) == (o << 26u32) | (x << 18u32) | y);
    assert(o < 64 && x < 256 && y < 0x10000 && (s == 0 || s == 0x20000) ==> {
        let w = (o << 26u32) | (x << 18u32) | y | s;
        let v = (o << 26u32) | (x << 18u32) | y;
        &&& w >> 26u32 == o
        &&& (w >> 18u32) & 0xff == x
        &&& w & 0xffff == y
        &&& ((w >> 17u32) & 1 == 1) == (s == 0x20000)
        &&& v >> 26u32 == o
        &&& (v >> 18u32) & 0xff == x
        &&& v & 0xffff == y
    }) by (bit_vector);
    let w = word_asbx(op, a, bx, neg);
    let v = word_abx(op, a, bx);
    assert(w as u16 == (w & 0xffff) as u16) by (bit_vector);
    assert(v as u16 == (v & 0xffff) as u16) by (bit_vector);
}

/// Encoding an instruction and decoding the word with the shape of its opcode
/// gives back the same instruction.
pub proof fn lemma_round_trip(inst: Instruction)
    ensures
        Word(encode(inst)).decoded() == Some(inst),
{
    match inst {
        Instruction::Return => {
            assert((0u32 << 26u32) >> 26u32 == 0) by (bit_vector);
        },
        Instruction::Move(a, b) => lemma_fields_ab(OP_MOVE, a, b),
        Instruction::Load(a, bx) => lemma_fields_asbx(OP_LOAD, a, bx, false),
        Instruction::ForPrep(a, bx) => lemma_fields_asbx(OP_FORPREP, a, bx, false),
        Instruction::ForLoop(a, bx) => lemma_fields_asbx(OP_FORLOOP, a, bx, false),
        Instruction::Mul(a, b, c) => lemma_fields_abc(OP_MUL, a, b, c),
        Instruction::Mod(a, b, c) => lemma_fields_abc(OP_MOD, a, b, c),
        Instruction::LoadGlb(a, b) => lemma_fields_ab(OP_LOADGLB, a, b),
    }
}

impl From<I9> for u32 {
    fn from(value: I9) -> (r: u32) {
        match value {
            I9::Reg(x) => x as u32,
            I9::Cst(x) => x as u32 | 0x100,
        }
    }
}

impl vstd::std_specs::convert::FromSpecImpl<I9> for u32 {
    open spec fn obeys_from_spec() -> bool {
        true
    }

    open spec fn from_spec(v: I9) -> u32 {
        operand_bits(v)
    }
}

impl From<u32> for I9 {
    fn from(value: u32) -> (r: I9) {
        let flag = value >> 8u32 & 1;
        let x = (value & 0xff) as u8;
        if flag == 0 {
            I9::Reg(x)
        } else {
            I9::Cst(x)
        }
    }
}

impl vstd::std_specs::convert::FromSpecImpl<u32> for I9 {
    open spec fn obeys_from_spec() -> bool {
        true
    }

    open spec fn from_spec(v: u32) -> I9 {
        operand_of(v)
    }
}

impl From<Instruction> for Word {
    fn from(inst: Instruction) -> (r: Word) {
        match inst {
            Instruction::Return => Word::new(OP_RETURN),
            Instruction::Move(a, b) => Word::with_a_b(OP_MOVE, a, b),
            Instruction::Load(a, bx) => Word::with_a_bx(OP_LOAD, a, bx),
            Instruction::ForPrep(a, bx) => Word::with_a_bx(OP_FORPREP, a, bx),
            Instruction::ForLoop(a, bx) => Word::with_a_bx(OP_FORLOOP, a, bx),
            Instruction::Mul(a, b, c) => Word::with_a_b_c(OP_MUL, a, b, c),
            Instruction::Mod(a, b, c) => Word::with_a_b_c(OP_MOD, a, b, c),
            Instruction::LoadGlb(a, b) => Word::with_a_b(OP_LOADGLB, a, b),
        }
    }
}

impl vstd::std_specs::convert::FromSpecImpl<Instruction> for Word {
    open spec fn obeys_from_spec() -> bool {
        true
    }

    open spec fn from_spec(v: Instruction) -> Word {
        Word(encode(v))
    }
}

impl Word {
    /// A word holding only the opcode (its low six bits).
    pub fn new(opcode: u8) -> (r: Word)
        ensures
            r.0 == opcode_bits(opcode),
            opcode < 64 ==> r.opcode() == opcode,
    {
        proof {
            let o = opcode as u32;
            assert(o < 64 ==> (o << 26u32) >> 26u32 == o) by (bit_vector);
        }
        Word((opcode as u32) << 26u32)
    }

    /// ORs register index `a` into the A field.
    pub fn set_a(self, a: u8) -> (r: Word)
        ensures
            r.0 == self.0 | a_bits(a),
    {
        Word(self.0 | ((a as u32) << 18u32))
    }

    /// ORs operand `b` into the B field.
    pub fn set_b(self, b: I9) -> (r: Word)
        ensures
            r.0 == self.0 | (operand_bits(b) << 9u32),
    {
        Word(self.0 | u32::from(b) << 9u32)
    }

    /// ORs operand `c` into the C field.
    pub fn set_c(self, c: I9) -> (r: Word)
        ensures
            r.0 == self.0 | operand_bits(c),
    {
        Word(self.0 | u32::from(c))
    }

    /// ORs the immediate `bx` into the Bx field.
    pub fn set_bx(self, bx: u16) -> (r: Word)
        ensures
            r.0 == self.0 | (bx as u32),
    {
        Word(self.0 | u32::from(bx))
    }

    /// ORs the magnitude `bx` into the sBx field and, when `neg`, sets its sign bit.
    pub fn set_sbx(self, bx: u16, neg: bool) -> (r: Word)
        ensures
            r.0 == self.0 | (bx as u32) | sign_bit(neg),
    {
        let mut w = self.0 | u32::from(bx);
        if neg {
            w = w | 0x20000;
        }
        proof {
            let v = self.0 | (bx as u32);
            assert(v | 0 == v) by (bit_vector);
        }
        Word(w)
    }

    pub fn with_a(opcode: u8, a: u8) -> (r: Word)
        ensures
            r.0 == opcode_bits(opcode) | a_bits(a),
            opcode < 64 ==> r.opcode() == opcode && r.a() == a,
    {
        proof {
            lemma_fields_asbx(opcode % 64, a, 0, false);
            let o = opcode as u32;
            let x = a as u32;
            assert(o < 64 ==> ((o << 26u32) | (x << 18u32)) | 0 == (o << 26u32) | (x << 18u32))
                by (bit_vector);
        }
        Word::new(opcode).set_a(a)
    }

    pub fn with_a_b(opcode: u8, a: u8, b: I9) -> (r: Word)
        ensures
            r.0 == word_ab(opcode, a, b),
            opcode < 64 ==> r.opcode() == opcode && r.a() == a && r.b() == b,
    {
        proof {
            if opcode < 64 {
                lemma_fields_ab(opcode, a, b);
            }
        }
        Word::new(opcode).set_a(a).set_b(b)
    }

    pub fn with_a_b_c(opcode: u8, a: u8, b: I9, c: I9) -> (r: Word)
        ensures
            r.0 == word_abc(opcode, a, b, c),
            opcode < 64 ==> r.opcode() == opcode && r.a() == a && r.b() == b && r.c() == c,
    {
        proof {
            if opcode < 64 {
                lemma_fields_abc(opcode, a, b, c);
            }
        }
        Word::new(opcode).set_a(a).set_b(b).set_c(c)
    }

    pub fn with_a_bx(opcode: u8, a: u8, bx: u16) -> (r: Word)
        ensures
            r.0 == word_abx(opcode, a, bx),
            opcode < 64 ==> r.opcode() == opcode && r.a() == a && r.bx() == bx,
    {
        proof {
            if opcode < 64 {
                lemma_fields_asbx(opcode, a, bx, false);
            }
        }
        Word::new(opcode).set_a(a).set_bx(bx)
    }

    pub fn with_a_sbx(opcode: u8, a: u8, bx: u16, neg: bool) -> (r: Word)
        ensures
            r.0 == word_asbx(opcode, a, bx, neg),
            opcode < 64 ==> r.opcode() == opcode && r.a() == a && r.bx() == bx && r.neg() == neg,
    {
        proof {
            if opcode < 64 {
                lemma_fields_asbx(opcode, a, bx, neg);
            }
        }
        Word::new(opcode).set_a(a).set_sbx(bx, neg)
    }

    pub fn get_opcode(self) -> (r: u8)
        ensures
            r == self.opcode(),
    {
        (self.0 >> 26u32) as u8
    }

    pub fn parse_a(self) -> (r: u8)
        ensures
            r == self.a(),
    {
        (self.0 >> 18u32 & 0xff) as u8
    }

    pub fn parse_a_b(self) -> (r: (u8, I9))
        ensures
            r == (self.a(), self.b()),
    {
        (self.parse_a(), I9::from(self.0 >> 9u32))
    }

    pub fn parse_a_b_c(self) -> (r: (u8, I9, I9))
        ensures
            r == (self.a(), self.b(), self.c()),
    {
        let (a, b) = self.parse_a_b();
        (a, b, I9::from(self.0))
    }

    pub fn parse_a_bx(self) -> (r: (u8, u16))
        ensures
            r == (self.a(), self.bx()),
    {
        (self.parse_a(), self.0 as u16)
    }

    pub fn parse_a_sbx(self) -> (r: (u8, u16, bool))
        ensures
            r == (self.a(), self.bx(), self.neg()),
    {
        (self.parse_a(), self.0 as u16, (self.0 >> 17u32 & 1) == 1)
    }

    /// Reads the opcode, then the fields of the shape that the opcode fixes.
    pub fn decode(self) -> (r: Option<Instruction>)
        ensures
            r == self.decoded(),
    {
        let op = self.get_opcode();
        if op == OP_RETURN {
            Some(Instruction::Return)
        } else if op == OP_MOVE {
            let (a, b) = self.parse_a_b();
            Some(Instruction::Move(a, b))
        } else if op == OP_LOAD {
            let (a, bx) = self.parse_a_bx();
            Some(Instruction::Load(a, bx))
        } else if op == OP_FORPREP {
            let (a, bx) = self.parse_a_bx();
            Some(Instruction::ForPrep(a, bx))
        } else if op == OP_FORLOOP {
            let (a, bx) = self.parse_a_bx();
            Some(Instruction::ForLoop(a, bx))
        } else if op == OP_MUL {
            let (a, b, c) = self.parse_a_b_c();
            Some(Instruction::Mul(a, b, c))
        } else if op == OP_MOD {
            let (a, b, c) = self.parse_a_b_c();
            Some(Instruction::Mod(a, b, c))
        } else if op == OP_LOADGLB {
            let (a, b) = self.parse_a_b();
            Some(Instruction::LoadGlb(a, b))
        } else {
            None
        }
    }
}

} // verus!
