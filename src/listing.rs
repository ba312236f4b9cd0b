//! A whole decoding pass over a byte image, and the text of a listing line.
use vstd::prelude::*;

use crate::decoder::{decode, decode_spec, DecodeError, Instruction, InstructionView};
use crate::hex::{hex_fixed, hex_padded, push_hex_fixed, push_hex_padded};

verus! {

/// One decoded instruction and the offset of its opcode.
pub struct Line {
    pub offset: usize,
    pub instruction: Instruction,
}

/// The mathematical content of a [`Line`].
pub struct LineView {
    pub offset: nat,
    pub instruction: InstructionView,
}

impl View for Line {
    type V = LineView;

    open spec fn view(&self) -> LineView {
        LineView { offset: self.offset as nat, instruction: self.instruction@ }
    }
}

/// The result of a pass: the instructions decoded from offset 0 on, in order,
/// and the error that stopped the pass before the end of the image, if any.
pub struct Listing {
    pub lines: Vec<Line>,
    pub error: Option<DecodeError>,
}

/// The lines of a pass that starts at `pos`, and the error that ends it early.
pub open spec fn pass_spec(buf: Seq<u8>, pos: nat) -> (Seq<LineView>, Option<DecodeError>)
    decreases buf.len() - pos,
{
    if pos >= buf.len() {
        (Seq::empty(), None)
    } else {
        match decode_spec(buf, #[verifier::truncate] (pos as usize)) {
            Err(e) => (Seq::empty(), Some(e)),
            // A decoded instruction always lies within the image; the guard
            // only makes the recursion's measure evident.
            Ok(v) => if 1 <= v.length && pos + v.length <= buf.len() {
                let rest = pass_spec(buf, pos + v.length);
                (seq![LineView { offset: pos, instruction: v }] + rest.0, rest.1)
            } else {
                (Seq::empty(), None)
            },
        }
    }
}

/// The view of a sequence of lines.
pub open spec fn lines_view(lines: Seq<Line>) -> Seq<LineView> {
    lines.map_values(|l: Line| l@)
}

/// Decodes `rom` from offset 0, each instruction starting where the previous
/// one ended, until the end of the image or the first error.
pub fn disassemble(rom: &[u8]) -> (r: Listing)
    ensures
        (lines_view(r.lines@), r.error) == pass_spec(rom@, 0),
{
    let mut lines: Vec<Line> = Vec::new();
    let mut pc: usize = 0;
    while pc < rom.len()
        invariant
            pc <= rom@.len(),
            pass_spec(rom@, 0) == (
                lines_view(lines@) + pass_spec(rom@, pc as nat).0,
                pass_spec(rom@, pc as nat).1,
            ),
        decreases rom@.len() - pc,
    {
        match decode(rom, pc) {
            Ok(instruction) => {
                let length = instruction.length;
                let ghost old_lines = lines@;
                let ghost v = instruction@;
                lines.push(Line { offset: pc, instruction });
                proof {
                    let rest = pass_spec(rom@, (pc + length) as nat);
                    assert(pass_spec(rom@, pc as nat).0 == seq![
                        LineView { offset: pc as nat, instruction: v },
                    ] + rest.0);
                    assert(lines_view(lines@) =~= lines_view(old_lines).push(
                        LineView { offset: pc as nat, instruction: v },
                    ));
                    assert(lines_view(old_lines) + pass_spec(rom@, pc as nat).0 =~= lines_view(
                        lines@,
                    ) + rest.0);
                }
                pc = pc + length;
            },
            Err(e) => {
                assert(lines_view(lines@) + Seq::empty() =~= lines_view(lines@));
                return Listing { lines, error: Some(e) };
            },
        }
    }
    assert(lines_view(lines@) + Seq::empty() =~= lines_view(lines@));
    Listing { lines, error: None }
}

/// Where the lines `lines` of a pass started at `pos` end.
pub open spec fn pass_end(lines: Seq<LineView>, pos: nat) -> nat {
    if lines.len() == 0 {
        pos
    } else {
        lines.last().offset + lines.last().instruction.length
    }
}

/// A pass from `pos` yields, in order, the instruction decoded at each offset,
/// each line starting where the one before it ended; it stops at the end of
/// the image, or at the first offset that fails to decode, with that error.
pub proof fn lemma_pass(buf: Seq<u8>, pos: nat)
    requires
        pos <= buf.len(),
        buf.len() <= usize::MAX,
    ensures
        ({
            let (lines, error) = pass_spec(buf, pos);
            let end = pass_end(lines, pos);
            &&& lines.len() > 0 ==> lines[0].offset == pos
            &&& forall|k: int|
                0 <= k < lines.len() ==> decode_spec(buf, lines[k].offset as usize) == Ok::<
                    InstructionView,
                    DecodeError,
                >(#[trigger] lines[k].instruction) && lines[k].offset < buf.len()
            &&& forall|k: int|
                0 < k < lines.len() ==> #[trigger] lines[k].offset == lines[k - 1].offset
                    + lines[k - 1].instruction.length
            &&& end <= buf.len()
            &&& error is None ==> end == buf.len()
            &&& error matches Some(e) ==> end < buf.len() && decode_spec(buf, end as usize) == Err::<
                InstructionView,
                DecodeError,
            >(e)
        }),
    decreases buf.len() - pos,
{
    if pos < buf.len() {
        if let Ok(v) = decode_spec(buf, pos as usize) {
            let next = pos + v.length;
            lemma_pass(buf, next);
            let rest = pass_spec(buf, next).0;
            let first = LineView { offset: pos, instruction: v };
            let lines = pass_spec(buf, pos).0;
            assert(lines =~= seq![first] + rest);
            assert forall|k: int| 0 < k < lines.len() implies #[trigger] lines[k].offset
                == lines[k - 1].offset + lines[k - 1].instruction.length by {
                assert(lines[k] == rest[k - 1]);
                if k > 1 {
                    assert(lines[k - 1] == rest[k - 2]);
                }
            }
            assert forall|k: int| 0 <= k < lines.len() implies decode_spec(
                buf,
                lines[k].offset as usize,
            ) == Ok::<InstructionView, DecodeError>(#[trigger] lines[k].instruction)
                && lines[k].offset < buf.len() by {
                if k > 0 {
                    assert(lines[k] == rest[k - 1]);
                }
            }
            if rest.len() > 0 {
                assert(lines.last() == rest.last());
            }
        }
    }
}

/// `s` followed by spaces up to width `w`; `s` itself where it is as wide.
pub open spec fn pad_right(s: Seq<char>, w: nat) -> Seq<char> {
    if s.len() >= w {
        s
    } else {
        s + Seq::new((w - s.len()) as nat, |_i: int| ' ')
    }
}

/// The `len` bytes at `pos`, each as two hexadecimal digits, separated by spaces.
pub open spec fn bytes_text(buf: Seq<u8>, pos: int, len: nat) -> Seq<char>
    decreases len,
{
    if len <= 1 {
        hex_fixed(buf[pos] as nat, 2)
    } else {
        bytes_text(buf, pos, (len - 1) as nat) + " "@ + hex_fixed(buf[pos + len - 1] as nat, 2)
    }
}

/// The listing line of an instruction of `buf` at `offset`: the offset in at
/// least four hexadecimal digits, the raw bytes in a column of eight, the
/// mnemonic in a column of six, then the operand.
pub open spec fn line_text(buf: Seq<u8>, offset: nat, v: InstructionView) -> Seq<char> {
    hex_padded(offset, 4) + " "@ + pad_right(bytes_text(buf, offset as int, v.length), 8) + " "@
        + pad_right(v.mnemonic, 6) + " "@ + v.operand
}

/// Appends `t` to `s`, then spaces up to width `w`.
fn push_padded(s: &mut String, t: &str, w: usize)
    ensures
        final(s)@ == old(s)@ + pad_right(t@, w as nat),
{
    let n = t.unicode_len();
    s.append(t);
    let mut k: usize = n;
    while k < w
        invariant
            n == t@.len(),
            n <= k,
            k <= w || k == n,
            s@ == old(s)@ + t@ + Seq::new((k - n) as nat, |_i: int| ' '),
        decreases w - k,
    {
        s.append(" ");
        proof {
            reveal_strlit(" ");
        }
        assert(s@ =~= old(s)@ + t@ + Seq::new((k + 1 - n) as nat, |_i: int| ' '));
        k = k + 1;
    }
    assert(s@ =~= old(s)@ + pad_right(t@, w as nat));
}

/// The text of `line`, whose bytes are those of `rom` at its offset.
pub fn render_line(rom: &[u8], line: &Line) -> (r: String)
    requires
        1 <= line.instruction.length <= 3,
        line.offset + line.instruction.length <= rom.len(),
    ensures
        r@ == line_text(rom@, line.offset as nat, line.instruction@),
{
    let pc = line.offset;
    let length = line.instruction.length;
    let mut bytes = String::new();
    push_hex_fixed(&mut bytes, rom[pc] as u64, 2);
    assert(bytes@ =~= bytes_text(rom@, pc as int, 1));
    let mut k: usize = 1;
    while k < length
        invariant
            1 <= k <= length,
            length <= 3,
            pc + length <= rom.len(),
            bytes@ == bytes_text(rom@, pc as int, k as nat),
        decreases length - k,
    {
        bytes.append(" ");
        push_hex_fixed(&mut bytes, rom[pc + k] as u64, 2);
        assert(bytes@ =~= bytes_text(rom@, pc as int, (k + 1) as nat));
        k = k + 1;
    }
    let mut r = String::new();
    push_hex_padded(&mut r, pc as u64, 4);
    r.append(" ");
    push_padded(&mut r, bytes.as_str(), 8);
    r.append(" ");
    push_padded(&mut r, line.instruction.mnemonic, 6);
    r.append(" ");
    r.append(line.instruction.operand.as_str());
    assert(r@ =~= line_text(rom@, pc as nat, line.instruction@));
    r
}

} // verus!
