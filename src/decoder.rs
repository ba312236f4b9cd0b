//! The 8080 opcode table and the instruction decoder.
use vstd::prelude::*;

use crate::hex::{hex_fixed, hex_value, lemma_hex_fixed_value, pow16, push_hex_fixed};

verus! {

/// The operations that the decoder knows, one per mnemonic.
#[derive(Clone, Copy, Debug, PartialEq, Eq, Structural)]
pub enum Operation {
    Nop,
    Lxi,
    Stax,
    Ldax,
    Shld,
    /// Load H and L direct (0x2A); its mnemonic is written LXLD.
    Lhld,
    Inx,
    Inr,
    Dcr,
    Mvi,
    Rlc,
    Rrc,
    Ral,
    Rar,
    Daa,
    Cma,
    Dad,
    Dcx,
    Jmp,
    Push,
}

/// How the operand of an instruction is written, and which bytes it takes.
#[derive(Clone, Copy, Debug, PartialEq, Eq, Structural)]
pub enum OperandForm {
    /// No operand.
    Empty,
    /// A single register, by its index into B C D E H L M A.
    Reg(u8),
    /// A register pair, by its index into B D H SP.
    Pair(u8),
    /// A register pair as PUSH names it: B D H PSW.
    PushPair(u8),
    /// A register and an immediate byte: `R,$xx`.
    RegImm8(u8),
    /// A register pair and a little-endian 16-bit immediate: `P,$xxxx`.
    PairImm16(u8),
    /// A little-endian 16-bit address: `$xxxx`.
    Addr16,
}

/// One entry of the opcode table.
#[derive(Clone, Copy, Debug, PartialEq, Eq, Structural)]
pub struct Shape {
    pub op: Operation,
    pub form: OperandForm,
}

/// Why an instruction could not be decoded.
#[derive(Clone, Copy, Debug, PartialEq, Eq, Structural)]
pub enum DecodeError {
    /// The byte at `offset` is no opcode of the table.
    UnknownOpcode { opcode: u8, offset: usize },
    /// The instruction at `offset` needs `required` bytes; only `available` remain.
    Truncated { offset: usize, required: usize, available: usize },
}

/// A decoded instruction.
pub struct Instruction {
    /// Bytes taken, the opcode included: 1, 2 or 3.
    pub length: usize,
    pub mnemonic: &'static str,
    /// Empty where the instruction has no operand.
    pub operand: String,
}

/// The mathematical content of an [`Instruction`].
pub struct InstructionView {
    pub length: nat,
    pub mnemonic: Seq<char>,
    pub operand: Seq<char>,
}

impl View for Instruction {
    type V = InstructionView;

    open spec fn view(&self) -> InstructionView {
        InstructionView { length: self.length as nat, mnemonic: self.mnemonic@, operand: self.operand@ }
    }
}

impl Operation {
    /// The mnemonic of the operation.
    pub open spec fn name_spec(self) -> Seq<char> {
        match self {
            Operation::Nop => "NOP"@,
            Operation::Lxi => "LXI"@,
            Operation::Stax => "STAX"@,
            Operation::Ldax => "LDAX"@,
            Operation::Shld => "SHLD"@,
            Operation::Lhld => "LXLD"@,
            Operation::Inx => "INX"@,
            Operation::Inr => "INR"@,
            Operation::Dcr => "DCR"@,
            Operation::Mvi => "MVI"@,
            Operation::Rlc => "RLC"@,
            Operation::Rrc => "RRC"@,
            Operation::Ral => "RAL"@,
            Operation::Rar => "RAR"@,
            Operation::Daa => "DAA"@,
            Operation::Cma => "CMA"@,
            Operation::Dad => "DAD"@,
            Operation::Dcx => "DCX"@,
            Operation::Jmp => "JMP"@,
            Operation::Push => "PUSH"@,
        }
    }

    pub fn name(&self) -> (r: &'static str)
        ensures
            r@ == self.name_spec(),
    {
        match self {
            Operation::Nop => "NOP",
            Operation::Lxi => "LXI",
            Operation::Stax => "STAX",
            Operation::Ldax => "LDAX",
            Operation::Shld => "SHLD",
            Operation::Lhld => "LXLD",
            Operation::Inx => "INX",
            Operation::Inr => "INR",
            Operation::Dcr => "DCR",
            Operation::Mvi => "MVI",
            Operation::Rlc => "RLC",
            Operation::Rrc => "RRC",
            Operation::Ral => "RAL",
            Operation::Rar => "RAR",
            Operation::Daa => "DAA",
            Operation::Cma => "CMA",
            Operation::Dad => "DAD",
            Operation::Dcx => "DCX",
            Operation::Jmp => "JMP",
            Operation::Push => "PUSH",
        }
    }
}

/// The name of register `i` in the order B C D E H L M A.
pub open spec fn reg_name(i: u8) -> Seq<char> {
    if i == 0 { "B"@ }
    else if i == 1 { "C"@ }
    else if i == 2 { "D"@ }
    else if i == 3 { "E"@ }
    else if i == 4 { "H"@ }
    else if i == 5 { "L"@ }
    else if i == 6 { "M"@ }
    else { "A"@ }
}

/// The name of register pair `i` in the order B D H SP.
pub open spec fn pair_name(i: u8) -> Seq<char> {
    if i == 0 { "B"@ }
    else if i == 1 { "D"@ }
    else if i == 2 { "H"@ }
    else { "SP"@ }
}

/// The name of register pair `i` as PUSH writes it, in the order B D H PSW.
pub open spec fn push_pair_name(i: u8) -> Seq<char> {
    if i == 0 { "B"@ }
    else if i == 1 { "D"@ }
    else if i == 2 { "H"@ }
    else { "PSW"@ }
}

fn reg_str(i: u8) -> (r: &'static str)
    requires
        i < 8,
    ensures
        r@ == reg_name(i),
{
    if i == 0 { "B" }
    else if i == 1 { "C" }
    else if i == 2 { "D" }
    else if i == 3 { "E" }
    else if i == 4 { "H" }
    else if i == 5 { "L" }
    else if i == 6 { "M" }
    else { "A" }
}

fn pair_str(i: u8) -> (r: &'static str)
    requires
        i < 4,
    ensures
        r@ == pair_name(i),
{
    if i == 0 { "B" }
    else if i == 1 { "D" }
    else if i == 2 { "H" }
    else { "SP" }
}

fn push_pair_str(i: u8) -> (r: &'static str)
    requires
        i < 4,
    ensures
        r@ == push_pair_name(i),
{
    if i == 0 { "B" }
    else if i == 1 { "D" }
    else if i == 2 { "H" }
    else { "PSW" }
}

impl OperandForm {
    /// The register or pair index that the form carries is in range.
    pub open spec fn valid(self) -> bool {
        match self {
            OperandForm::Reg(r) | OperandForm::RegImm8(r) => r < 8,
            OperandForm::Pair(p) | OperandForm::PushPair(p) | OperandForm::PairImm16(p) => p < 4,
            _ => true,
        }
    }

    /// How many bytes after the opcode the operand takes.
    pub open spec fn extra_bytes(self) -> nat {
        match self {
            OperandForm::RegImm8(_) => 1,
            OperandForm::PairImm16(_) | OperandForm::Addr16 => 2,
            _ => 0,
        }
    }
}

impl Shape {
    /// The length of an instruction of this shape.
    pub open spec fn len(self) -> nat {
        1 + self.form.extra_bytes()
    }
}

/// The opcode table: the shape of each supported opcode byte, `None` for the rest.
/// Each byte has exactly one entry.
pub open spec fn table(b: u8) -> Option<Shape> {
    let s = |op: Operation, form: OperandForm| Some(Shape { op, form });
    match b {
        0x00 | 0x08 | 0x10 | 0x18 | 0x20 | 0x28 | 0x30 | 0x38 => s(Operation::Nop, OperandForm::Empty),
        0x01 => s(Operation::Lxi, OperandForm::PairImm16(0)),
        0x11 => s(Operation::Lxi, OperandForm::PairImm16(1)),
        0x21 => s(Operation::Lxi, OperandForm::PairImm16(2)),
        0x31 => s(Operation::Lxi, OperandForm::PairImm16(3)),
        0x02 => s(Operation::Stax, OperandForm::Pair(0)),
        0x12 => s(Operation::Stax, OperandForm::Pair(1)),
        0x0A => s(Operation::Ldax, OperandForm::Pair(0)),
        0x1A => s(Operation::Ldax, OperandForm::Pair(1)),
        0x22 => s(Operation::Shld, OperandForm::Addr16),
        0x2A => s(Operation::Lhld, OperandForm::Addr16),
        0x03 => s(Operation::Inx, OperandForm::Pair(0)),
        0x13 => s(Operation::Inx, OperandForm::Pair(1)),
        0x23 => s(Operation::Inx, OperandForm::Pair(2)),
        0x09 => s(Operation::Dad, OperandForm::Pair(0)),
        0x19 => s(Operation::Dad, OperandForm::Pair(1)),
        0x29 => s(Operation::Dad, OperandForm::Pair(2)),
        0x0B => s(Operation::Dcx, OperandForm::Pair(0)),
        0x1B => s(Operation::Dcx, OperandForm::Pair(1)),
        0x2B => s(Operation::Dcx, OperandForm::Pair(2)),
        0x04 => s(Operation::Inr, OperandForm::Reg(0)),
        0x0C => s(Operation::Inr, OperandForm::Reg(1)),
        0x14 => s(Operation::Inr, OperandForm::Reg(2)),
        0x1C => s(Operation::Inr, OperandForm::Reg(3)),
        0x24 => s(Operation::Inr, OperandForm::Reg(4)),
        0x2C => s(Operation::Inr, OperandForm::Reg(5)),
        0x05 => s(Operation::Dcr, OperandForm::Reg(0)),
        0x0D => s(Operation::Dcr, OperandForm::Reg(1)),
        0x15 => s(Operation::Dcr, OperandForm::Reg(2)),
        0x1D => s(Operation::Dcr, OperandForm::Reg(3)),
        0x25 => s(Operation::Dcr, OperandForm::Reg(4)),
        0x2D => s(Operation::Dcr, OperandForm::Reg(5)),
        0x06 => s(Operation::Mvi, OperandForm::RegImm8(0)),
        0x0E => s(Operation::Mvi, OperandForm::RegImm8(1)),
        0x16 => s(Operation::Mvi, OperandForm::RegImm8(2)),
        0x1E => s(Operation::Mvi, OperandForm::RegImm8(3)),
        0x26 => s(Operation::Mvi, OperandForm::RegImm8(4)),
        0x2E => s(Operation::Mvi, OperandForm::RegImm8(5)),
        0x07 => s(Operation::Rlc, OperandForm::Empty),
        0x0F => s(Operation::Rrc, OperandForm::Empty),
        0x17 => s(Operation::Ral, OperandForm::Empty),
        0x1F => s(Operation::Rar, OperandForm::Empty),
        0x27 => s(Operation::Daa, OperandForm::Empty),
        0x2F => s(Operation::Cma, OperandForm::Empty),
        0xC3 => s(Operation::Jmp, OperandForm::Addr16),
        0xC5 => s(Operation::Push, OperandForm::PushPair(0)),
        0xD5 => s(Operation::Push, OperandForm::PushPair(1)),
        0xF5 => s(Operation::Push, OperandForm::PushPair(3)),
        _ => None,
    }
}

/// The register field of an opcode: bits 3 to 5.
fn reg_field(b: u8) -> (r: u8)
    ensures
        r == (b / 8) % 8,
{
    assert((b >> 3u8) & 7u8 == (b / 8) % 8) by (bit_vector);
    (b >> 3u8) & 7u8
}

/// The register-pair field of an opcode: bits 4 and 5.
fn pair_field(b: u8) -> (r: u8)
    ensures
        r == (b / 16) % 4,
{
    assert((b >> 4u8) & 3u8 == (b / 16) % 4) by (bit_vector);
    (b >> 4u8) & 3u8
}

/// Looks `b` up in the opcode table; register and pair indices are read from the opcode's bits.
pub fn shape_of(b: u8) -> (r: Option<Shape>)
    ensures
        r == table(b),
        r matches Some(s) ==> s.form.valid(),
{
    let s = |op: Operation, form: OperandForm| -> (r: Option<Shape>)
        ensures
            r == Some(Shape { op, form }),
        { Some(Shape { op, form }) };
    match b {
        0x00 | 0x08 | 0x10 | 0x18 | 0x20 | 0x28 | 0x30 | 0x38 => s(Operation::Nop, OperandForm::Empty),
        0x01 | 0x11 | 0x21 | 0x31 => s(Operation::Lxi, OperandForm::PairImm16(pair_field(b))),
        0x02 | 0x12 => s(Operation::Stax, OperandForm::Pair(pair_field(b))),
        0x0A | 0x1A => s(Operation::Ldax, OperandForm::Pair(pair_field(b))),
        0x22 => s(Operation::Shld, OperandForm::Addr16),
        0x2A => s(Operation::Lhld, OperandForm::Addr16),
        0x03 | 0x13 | 0x23 => s(Operation::Inx, OperandForm::Pair(pair_field(b))),
        0x09 | 0x19 | 0x29 => s(Operation::Dad, OperandForm::Pair(pair_field(b))),
        0x0B | 0x1B | 0x2B => s(Operation::Dcx, OperandForm::Pair(pair_field(b))),
        0x04 | 0x0C | 0x14 | 0x1C | 0x24 | 0x2C => s(Operation::Inr, OperandForm::Reg(reg_field(b))),
        0x05 | 0x0D | 0x15 | 0x1D | 0x25 | 0x2D => s(Operation::Dcr, OperandForm::Reg(reg_field(b))),
        0x06 | 0x0E | 0x16 | 0x1E | 0x26 | 0x2E => s(Operation::Mvi, OperandForm::RegImm8(reg_field(b))),
        0x07 => s(Operation::Rlc, OperandForm::Empty),
        0x0F => s(Operation::Rrc, OperandForm::Empty),
        0x17 => s(Operation::Ral, OperandForm::Empty),
        0x1F => s(Operation::Rar, OperandForm::Empty),
        0x27 => s(Operation::Daa, OperandForm::Empty),
        0x2F => s(Operation::Cma, OperandForm::Empty),
        0xC3 => s(Operation::Jmp, OperandForm::Addr16),
        0xC5 | 0xD5 | 0xF5 => s(Operation::Push, OperandForm::PushPair(pair_field(b))),
        _ => None,
    }
}

/// The 16-bit little-endian value of the bytes `lo`, `hi`.
pub open spec fn addr_of(lo: u8, hi: u8) -> u16 {
    ((hi as u16) << 8u16) | (lo as u16)
}

/// The operand text of an instruction of form `form` whose opcode is at `pos`.
pub open spec fn operand_text(form: OperandForm, buf: Seq<u8>, pos: int) -> Seq<char> {
    match form {
        OperandForm::Empty => Seq::empty(),
        OperandForm::Reg(r) => reg_name(r),
        OperandForm::Pair(p) => pair_name(p),
        OperandForm::PushPair(p) => push_pair_name(p),
        OperandForm::RegImm8(r) => reg_name(r) + ",$"@ + hex_fixed(buf[pos + 1] as nat, 2),
        OperandForm::PairImm16(p) => pair_name(p) + ",$"@ + hex_fixed(
            addr_of(buf[pos + 1], buf[pos + 2]) as nat,
            4,
        ),
        OperandForm::Addr16 => "$"@ + hex_fixed(addr_of(buf[pos + 1], buf[pos + 2]) as nat, 4),
    }
}

/// What decoding the instruction at `pos` of `buf` gives.
pub open spec fn decode_spec(buf: Seq<u8>, pos: usize) -> Result<InstructionView, DecodeError> {
    match table(buf[pos as int]) {
        None => Err(DecodeError::UnknownOpcode { opcode: buf[pos as int], offset: pos }),
        Some(s) => if pos + s.len() > buf.len() {
            Err(
                DecodeError::Truncated {
                    offset: pos,
                    required: s.len() as usize,
                    available: (buf.len() - pos) as usize,
                },
            )
        } else {
            Ok(
                InstructionView {
                    length: s.len(),
                    mnemonic: s.op.name_spec(),
                    operand: operand_text(s.form, buf, pos as int),
                },
            )
        },
    }
}

/// The 16-bit little-endian operand that follows the opcode at `pc`.
pub fn get_addr(rom: &[u8], pc: usize) -> (r: u16)
    requires
        pc + 2 < rom.len(),
    ensures
        r == addr_of(rom@[pc + 1], rom@[pc + 2]),
{
    let lo = rom[pc + 1] as u16;
    let hi = rom[pc + 2] as u16;
    (hi << 8u16) | lo
}

fn operand_string(form: OperandForm, buf: &[u8], pos: usize) -> (r: String)
    requires
        form.valid(),
        pos + 1 + form.extra_bytes() <= buf.len(),
    ensures
        r@ == operand_text(form, buf@, pos as int),
{
    match form {
        OperandForm::Empty => String::new(),
        OperandForm::Reg(r) => String::from_str(reg_str(r)),
        OperandForm::Pair(p) => String::from_str(pair_str(p)),
        OperandForm::PushPair(p) => String::from_str(push_pair_str(p)),
        OperandForm::RegImm8(r) => {
            let mut s = String::from_str(reg_str(r));
            s.append(",$");
            push_hex_fixed(&mut s, buf[pos + 1] as u64, 2);
            s
        },
        OperandForm::PairImm16(p) => {
            let mut s = String::from_str(pair_str(p));
            s.append(",$");
            push_hex_fixed(&mut s, get_addr(buf, pos) as u64, 4);
            s
        },
        OperandForm::Addr16 => {
            let mut s = String::from_str("$");
            push_hex_fixed(&mut s, get_addr(buf, pos) as u64, 4);
            s
        },
    }
}

/// Decodes the instruction whose opcode is at `position` of `buffer`.
pub fn decode(buffer: &[u8], position: usize) -> (r: Result<Instruction, DecodeError>)
    requires
        position < buffer@.len(),
    ensures
        decode_spec(buffer@, position) == match r {
            Ok(i) => Ok(i@),
            Err(e) => Err::<InstructionView, DecodeError>(e),
        },
{
    let opcode = buffer[position];
    match shape_of(opcode) {
        None => Err(DecodeError::UnknownOpcode { opcode, offset: position }),
        Some(s) => {
            let length: usize = match s.form {
                OperandForm::RegImm8(_) => 2,
                OperandForm::PairImm16(_) | OperandForm::Addr16 => 3,
                _ => 1,
            };
            let available = buffer.len() - position;
            if length > available {
                Err(DecodeError::Truncated { offset: position, required: length, available })
            } else {
                let operand = operand_string(s.form, buffer, position);
                Ok(Instruction { length, mnemonic: s.op.name(), operand })
            }
        },
    }
}

/// A decoded instruction depends only on the bytes that it takes: two buffers
/// that agree on the opcode at `pos` and on the operand bytes that follow it
/// decode alike there.
pub proof fn lemma_decode_local(a: Seq<u8>, b: Seq<u8>, pos: usize)
    requires
        pos < a.len(),
        pos < b.len(),
        a[pos as int] == b[pos as int],
        table(a[pos as int]) matches Some(s) ==> {
            &&& pos + s.len() <= a.len()
            &&& pos + s.len() <= b.len()
            &&& forall|i: int| pos < i < pos + s.len() ==> a[i] == b[i]
        },
    ensures
        decode_spec(a, pos) == decode_spec(b, pos),
{
    if let Some(s) = table(a[pos as int]) {
        let p = pos as int;
        if s.len() >= 2 {
            assert(a[p + 1] == b[p + 1]);
        }
        if s.len() >= 3 {
            assert(a[p + 2] == b[p + 2]);
        }
        assert(operand_text(s.form, a, p) == operand_text(s.form, b, p));
    }
}

/// Decoding is a function of the buffer's contents and the position alone.
pub proof fn lemma_decode_deterministic(a: Seq<u8>, b: Seq<u8>, pos: usize)
    requires
        pos < a.len(),
        a =~= b,
    ensures
        decode_spec(a, pos) == decode_spec(b, pos),
{
}

/// A decoded instruction is 1, 2 or 3 bytes long: the opcode and the operand
/// bytes its form takes.
pub proof fn lemma_decode_length(buf: Seq<u8>, pos: usize)
    requires
        pos < buf.len(),
        decode_spec(buf, pos) is Ok,
    ensures
        table(buf[pos as int]) matches Some(s) && decode_spec(buf, pos)->Ok_0.length == 1
            + s.form.extra_bytes(),
        1 <= decode_spec(buf, pos)->Ok_0.length <= 3,
        pos + decode_spec(buf, pos)->Ok_0.length <= buf.len(),
{
}

/// The last four characters of a 16-bit operand read back, in hexadecimal, as
/// `(hi << 8) | lo` of the two bytes after the opcode.
pub proof fn lemma_addr_operand(buf: Seq<u8>, pos: usize)
    requires
        pos < buf.len(),
        decode_spec(buf, pos) is Ok,
        table(buf[pos as int]) matches Some(s) && (s.form is PairImm16 || s.form is Addr16),
    ensures
        ({
            let t = decode_spec(buf, pos)->Ok_0.operand;
            let lo = buf[pos + 1];
            let hi = buf[pos + 2];
            &&& t.len() >= 4
            &&& hex_value(t.subrange(t.len() - 4, t.len() as int)) == (((hi as u16) << 8u16) | (lo
                as u16)) as nat
        }),
{
    let p = pos as int;
    let n = addr_of(buf[p + 1], buf[p + 2]) as nat;
    let t = decode_spec(buf, pos)->Ok_0.operand;
    let h = hex_fixed(n, 4);
    lemma_hex_fixed_value(n, 4);
    reveal_with_fuel(pow16, 5);
    assert(pow16(4) == 65536);
    assert(hex_value(h) == n);
    let s = table(buf[p])->Some_0;
    let prefix = if s.form is Addr16 {
        "$"@
    } else {
        pair_name(s.form->PairImm16_0) + ",$"@
    };
    assert(t == prefix + h);
    assert(t.subrange(t.len() - 4, t.len() as int) =~= h);
}

/// The register and pair operands are read from the opcode's bits: the
/// register from bits 3 to 5 (B C D E H L M A), the pair from bits 4 and 5
/// (B D H SP, or B D H PSW for PUSH).
pub proof fn lemma_register_field(b: u8)
    requires
        table(b) is Some,
    ensures
        ({
            let form = table(b)->Some_0.form;
            &&& form matches OperandForm::Reg(r) ==> r == (b >> 3u8) & 7u8
            &&& form matches OperandForm::RegImm8(r) ==> r == (b >> 3u8) & 7u8
            &&& form matches OperandForm::Pair(p) ==> p == (b >> 4u8) & 3u8
            &&& form matches OperandForm::PairImm16(p) ==> p == (b >> 4u8) & 3u8
            &&& form matches OperandForm::PushPair(p) ==> p == (b >> 4u8) & 3u8
        }),
{
    assert((b >> 3u8) & 7u8 == (b / 8) % 8) by (bit_vector);
    assert((b >> 4u8) & 3u8 == (b / 16) % 4) by (bit_vector);
}

} // verus!
