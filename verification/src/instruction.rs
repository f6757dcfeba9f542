//! Instruction words: splitting a 16-bit word into its nibble fields and
//! naming the operation it encodes.

use vstd::prelude::*;

verus! {

/// The fields of one 16-bit instruction word.
///
/// `group` is the top nibble, `x` and `y` the second and third nibbles, `n`
/// the low nibble, `nn` the low byte and `nnn` the low twelve bits.
#[derive(Clone, Copy, Debug, PartialEq, Eq, Structural)]
pub struct Fields {
    pub group: u8,
    pub x: u8,
    pub y: u8,
    pub n: u8,
    pub nn: u8,
    pub nnn: u16,
}

impl Fields {
    /// The fields of `word`, stated arithmetically.
    pub open spec fn of(word: u16) -> Fields {
        Fields {
            group: (word / 0x1000) as u8,
            x: ((word / 0x100) % 0x10) as u8,
            y: ((word / 0x10) % 0x10) as u8,
            n: (word % 0x10) as u8,
            nn: (word % 0x100) as u8,
            nnn: (word % 0x1000) as u16,
        }
    }

    /// Every nibble is below 16 and the two wider fields are made of the
    /// nibbles they overlap.
    pub open spec fn wf(self) -> bool {
        &&& self.group < 0x10
        &&& self.x < 0x10
        &&& self.y < 0x10
        &&& self.n < 0x10
        &&& self.nn == self.y * 0x10 + self.n
        &&& self.nnn == self.x * 0x100 + self.y * 0x10 + self.n
    }

    /// The word that the four nibbles spell, most significant first.
    pub open spec fn word(self) -> int {
        self.group * 0x1000 + self.x * 0x100 + self.y * 0x10 + self.n
    }

    /// Splits `word` into its fields.
    pub fn split(word: u16) -> (f: Fields)
        ensures
            f == Fields::of(word),
            f.wf(),
            f.word() == word,
    {
        let group: u16 = (word & 0xF000) >> 12;
        let x: u16 = (word & 0x0F00) >> 8;
        let y: u16 = (word & 0x00F0) >> 4;
        let n: u16 = word & 0x000F;
        let nn: u16 = word & 0x00FF;
        let nnn: u16 = word & 0x0FFF;
        assert(group == word / 0x1000 && x == (word / 0x100) % 0x10 && y == (word / 0x10) % 0x10
            && n == word % 0x10 && nn == word % 0x100 && nnn == word % 0x1000 && nn == y * 0x10 + n
            && nnn == x * 0x100 + y * 0x10 + n && word == group * 0x1000 + x * 0x100 + y * 0x10
            + n) by (bit_vector)
            requires
                group == (word & 0xF000) >> 12,
                x == (word & 0x0F00) >> 8,
                y == (word & 0x00F0) >> 4,
                n == word & 0x000F,
                nn == word & 0x00FF,
                nnn == word & 0x0FFF,
        ;
        Fields { group: group as u8, x: x as u8, y: y as u8, n: n as u8, nn: nn as u8, nnn }
    }
}

/// One operation of the machine, with the operands its word carries.
///
/// `x` and `y` are register numbers, `nn` an immediate byte, `addr` a
/// twelve-bit address and `rows` a sprite height.
#[derive(Clone, Copy, Debug, PartialEq, Eq, Structural)]
pub enum Instruction {
    /// `0000`: does nothing.
    Nop,
    /// `00E0`: turns every display cell off.
    ClearScreen,
    /// `00EE`: pops the call stack into the program counter.
    Return,
    /// `1nnn`: jumps to `addr`.
    Jump { addr: u16 },
    /// `2nnn`: pushes the program counter and jumps to `addr`.
    Call { addr: u16 },
    /// `3xnn`: skips the next instruction if `V[x] == nn`.
    SkipEqByte { x: u8, nn: u8 },
    /// `4xnn`: skips the next instruction if `V[x] != nn`.
    SkipNeByte { x: u8, nn: u8 },
    /// `5xy0`: skips the next instruction if `V[x] == V[y]`.
    SkipEq { x: u8, y: u8 },
    /// `6xnn`: `V[x] := nn`.
    SetByte { x: u8, nn: u8 },
    /// `7xnn`: `V[x] := V[x] + nn`, wrapping, no flag.
    AddByte { x: u8, nn: u8 },
    /// `8xy0`: `V[x] := V[y]`.
    Copy { x: u8, y: u8 },
    /// `8xy1`: `V[x] := V[x] | V[y]`.
    Or { x: u8, y: u8 },
    /// `8xy2`: `V[x] := V[x] & V[y]`.
    And { x: u8, y: u8 },
    /// `8xy3`: `V[x] := V[x] ^ V[y]`.
    Xor { x: u8, y: u8 },
    /// `8xy4`: `V[x] := V[x] + V[y]`, wrapping; `VF` is the carry.
    Add { x: u8, y: u8 },
    /// `8xy5`: `V[x] := V[x] - V[y]`, wrapping; `VF` is 0 on borrow, else 1.
    Sub { x: u8, y: u8 },
    /// `8xy6`: `V[x] := V[x] >> 1`; `VF` is the bit shifted out.
    ShiftRight { x: u8 },
    /// `8xy7`: `V[y] := V[y] - V[x]`, wrapping; `VF` is 0 on borrow, else 1.
    SubInto { x: u8, y: u8 },
    /// `8xyE`: `V[x] := V[x] << 1`, wrapping; `VF` is the bit shifted out.
    ShiftLeft { x: u8 },
    /// `9xy0`: skips the next instruction if `V[x] != V[y]`.
    SkipNe { x: u8, y: u8 },
    /// `Annn`: `I := addr`.
    SetIndex { addr: u16 },
    /// `Bnnn`: jumps to `addr + V[0]`.
    JumpOffset { addr: u16 },
    /// `Cxnn`: `V[x] := random byte & nn`.
    Random { x: u8, nn: u8 },
    /// `Dxyn`: draws the `rows`-row sprite at `I` at `(V[x], V[y])`.
    Draw { x: u8, y: u8, rows: u8 },
    /// `Ex9E`: skips the next instruction if key `V[x]` is down.
    SkipKeyDown { x: u8 },
    /// `ExA1`: skips the next instruction if key `V[x]` is up.
    SkipKeyUp { x: u8 },
    /// `Fx07`: `V[x] := delay timer`.
    GetDelay { x: u8 },
    /// `Fx0A`: stores the number of the lowest key that is down in `V[x]`;
    /// with no key down, skips the next instruction instead.
    WaitKey { x: u8 },
    /// `Fx15`: `delay timer := V[x]`.
    SetDelay { x: u8 },
    /// `Fx18`: `sound timer := V[x]`.
    SetSound { x: u8 },
    /// `Fx1E`: `I := I + V[x]`, wrapping at sixteen bits.
    AddIndex { x: u8 },
    /// `Fx29`: `I := 5 * V[x]`, the address of a font glyph.
    Glyph { x: u8 },
    /// `Fx33`: writes the three decimal digits of `V[x]` at `I`.
    Bcd { x: u8 },
    /// `Fx55`: stores `V[0..=x]` at `I`.
    Store { x: u8 },
    /// `Fx65`: loads `V[0..=x]` from `I`.
    Load { x: u8 },
}

impl Instruction {
    /// The operation that a word with fields `f` encodes, or `None` where
    /// the instruction set defines none.
    pub open spec fn of_fields(f: Fields) -> Option<Instruction> {
        let Fields { group, x, y, n, nn, nnn } = f;
        if group == 0x0 {
            if x == 0 && y == 0 && n == 0 {
                Some(Instruction::Nop)
            } else if x == 0 && y == 0xE && n == 0 {
                Some(Instruction::ClearScreen)
            } else if x == 0 && y == 0xE && n == 0xE {
                Some(Instruction::Return)
            } else {
                None
            }
        } else if group == 0x1 {
            Some(Instruction::Jump { addr: nnn })
        } else if group == 0x2 {
            Some(Instruction::Call { addr: nnn })
        } else if group == 0x3 {
            Some(Instruction::SkipEqByte { x, nn })
        } else if group == 0x4 {
            Some(Instruction::SkipNeByte { x, nn })
        } else if group == 0x5 {
            if n == 0 {
                Some(Instruction::SkipEq { x, y })
            } else {
                None
            }
        } else if group == 0x6 {
            Some(Instruction::SetByte { x, nn })
        } else if group == 0x7 {
            Some(Instruction::AddByte { x, nn })
        } else if group == 0x8 {
            if n == 0x0 {
                Some(Instruction::Copy { x, y })
            } else if n == 0x1 {
                Some(Instruction::Or { x, y })
            } else if n == 0x2 {
                Some(Instruction::And { x, y })
            } else if n == 0x3 {
                Some(Instruction::Xor { x, y })
            } else if n == 0x4 {
                Some(Instruction::Add { x, y })
            } else if n == 0x5 {
                Some(Instruction::Sub { x, y })
            } else if n == 0x6 {
                Some(Instruction::ShiftRight { x })
            } else if n == 0x7 {
                Some(Instruction::SubInto { x, y })
            } else if n == 0xE {
                Some(Instruction::ShiftLeft { x })
            } else {
                None
            }
        } else if group == 0x9 {
            if n == 0 {
                Some(Instruction::SkipNe { x, y })
            } else {
                None
            }
        } else if group == 0xA {
            Some(Instruction::SetIndex { addr: nnn })
        } else if group == 0xB {
            Some(Instruction::JumpOffset { addr: nnn })
        } else if group == 0xC {
            Some(Instruction::Random { x, nn })
        } else if group == 0xD {
            Some(Instruction::Draw { x, y, rows: n })
        } else if group == 0xE {
            if nn == 0x9E {
                Some(Instruction::SkipKeyDown { x })
            } else if nn == 0xA1 {
                Some(Instruction::SkipKeyUp { x })
            } else {
                None
            }
        } else if group == 0xF {
            if nn == 0x07 {
                Some(Instruction::GetDelay { x })
            } else if nn == 0x0A {
                Some(Instruction::WaitKey { x })
            } else if nn == 0x15 {
                Some(Instruction::SetDelay { x })
            } else if nn == 0x18 {
                Some(Instruction::SetSound { x })
            } else if nn == 0x1E {
                Some(Instruction::AddIndex { x })
            } else if nn == 0x29 {
                Some(Instruction::Glyph { x })
            } else if nn == 0x33 {
                Some(Instruction::Bcd { x })
            } else if nn == 0x55 {
                Some(Instruction::Store { x })
            } else if nn == 0x65 {
                Some(Instruction::Load { x })
            } else {
                None
            }
        } else {
            None
        }
    }

    /// The operation that `word` encodes, or `None` where the instruction
    /// set defines none.
    pub open spec fn of(word: u16) -> Option<Instruction> {
        Instruction::of_fields(Fields::of(word))
    }

    /// Register numbers are below 16, a sprite has fewer than 16 rows and
    /// an address fits in twelve bits.
    pub open spec fn wf(self) -> bool {
        match self {
            Instruction::Nop | Instruction::ClearScreen | Instruction::Return => true,
            Instruction::Jump { addr }
            | Instruction::Call { addr }
            | Instruction::SetIndex { addr }
            | Instruction::JumpOffset { addr } => addr < 0x1000,
            Instruction::SkipEqByte { x, .. }
            | Instruction::SkipNeByte { x, .. }
            | Instruction::SetByte { x, .. }
            | Instruction::AddByte { x, .. }
            | Instruction::Random { x, .. } => x < 16,
            Instruction::SkipEq { x, y }
            | Instruction::Copy { x, y }
            | Instruction::Or { x, y }
            | Instruction::And { x, y }
            | Instruction::Xor { x, y }
            | Instruction::Add { x, y }
            | Instruction::Sub { x, y }
            | Instruction::SubInto { x, y }
            | Instruction::SkipNe { x, y } => x < 16 && y < 16,
            Instruction::Draw { x, y, rows } => x < 16 && y < 16 && rows < 16,
            Instruction::ShiftRight { x }
            | Instruction::ShiftLeft { x }
            | Instruction::SkipKeyDown { x }
            | Instruction::SkipKeyUp { x }
            | Instruction::GetDelay { x }
            | Instruction::WaitKey { x }
            | Instruction::SetDelay { x }
            | Instruction::SetSound { x }
            | Instruction::AddIndex { x }
            | Instruction::Glyph { x }
            | Instruction::Bcd { x }
            | Instruction::Store { x }
            | Instruction::Load { x } => x < 16,
        }
    }

    /// Decodes `word`: the operation it encodes, or `None` for a word that
    /// the instruction set leaves undefined.
    pub fn decode(word: u16) -> (r: Option<Instruction>)
        ensures
            r == Instruction::of(word),
            r matches Some(i) ==> i.wf(),
    {
        let f: Fields = Fields::split(word);
        let x: u8 = f.x;
        let y: u8 = f.y;
        let nn: u8 = f.nn;
        let addr: u16 = f.nnn;
        match (f.group, f.x, f.y, f.n) {
            (0x0, 0x0, 0x0, 0x0) => Some(Instruction::Nop),
            (0x0, 0x0, 0xE, 0x0) => Some(Instruction::ClearScreen),
            (0x0, 0x0, 0xE, 0xE) => Some(Instruction::Return),
            (0x1, _, _, _) => Some(Instruction::Jump { addr }),
            (0x2, _, _, _) => Some(Instruction::Call { addr }),
            (0x3, _, _, _) => Some(Instruction::SkipEqByte { x, nn }),
            (0x4, _, _, _) => Some(Instruction::SkipNeByte { x, nn }),
            (0x5, _, _, 0x0) => Some(Instruction::SkipEq { x, y }),
            (0x6, _, _, _) => Some(Instruction::SetByte { x, nn }),
            (0x7, _, _, _) => Some(Instruction::AddByte { x, nn }),
            (0x8, _, _, 0x0) => Some(Instruction::Copy { x, y }),
            (0x8, _, _, 0x1) => Some(Instruction::Or { x, y }),
            (0x8, _, _, 0x2) => Some(Instruction::And { x, y }),
            (0x8, _, _, 0x3) => Some(Instruction::Xor { x, y }),
            (0x8, _, _, 0x4) => Some(Instruction::Add { x, y }),
            (0x8, _, _, 0x5) => Some(Instruction::Sub { x, y }),
            (0x8, _, _, 0x6) => Some(Instruction::ShiftRight { x }),
            (0x8, _, _, 0x7) => Some(Instruction::SubInto { x, y }),
            (0x8, _, _, 0xE) => Some(Instruction::ShiftLeft { x }),
            (0x9, _, _, 0x0) => Some(Instruction::SkipNe { x, y }),
            (0xA, _, _, _) => Some(Instruction::SetIndex { addr }),
            (0xB, _, _, _) => Some(Instruction::JumpOffset { addr }),
            (0xC, _, _, _) => Some(Instruction::Random { x, nn }),
            (0xD, _, _, _) => Some(Instruction::Draw { x, y, rows: f.n }),
            (0xE, _, 0x9, 0xE) => Some(Instruction::SkipKeyDown { x }),
            (0xE, _, 0xA, 0x1) => Some(Instruction::SkipKeyUp { x }),
            (0xF, _, 0x0, 0x7) => Some(Instruction::GetDelay { x }),
            (0xF, _, 0x0, 0xA) => Some(Instruction::WaitKey { x }),
            (0xF, _, 0x1, 0x5) => Some(Instruction::SetDelay { x }),
            (0xF, _, 0x1, 0x8) => Some(Instruction::SetSound { x }),
            (0xF, _, 0x1, 0xE) => Some(Instruction::AddIndex { x }),
            (0xF, _, 0x2, 0x9) => Some(Instruction::Glyph { x }),
            (0xF, _, 0x3, 0x3) => Some(Instruction::Bcd { x }),
            (0xF, _, 0x5, 0x5) => Some(Instruction::Store { x }),
            (0xF, _, 0x6, 0x5) => Some(Instruction::Load { x }),
            (_, _, _, _) => None,
        }
    }
}

proof fn lemma_nibbles_of_word(w: u16)
    by (bit_vector)
    ensures
        w / 0x1000 < 0x10,
        w % 0x100 == ((w / 0x10) % 0x10) * 0x10 + w % 0x10,
        w % 0x1000 == ((w / 0x100) % 0x10) * 0x100 + ((w / 0x10) % 0x10) * 0x10 + w % 0x10,
        w == (w / 0x1000) * 0x1000 + ((w / 0x100) % 0x10) * 0x100 + ((w / 0x10) % 0x10) * 0x10 + w
            % 0x10,
{
}

proof fn lemma_word_of_nibbles(g: u16, x: u16, y: u16, n: u16, w: u16)
    by (bit_vector)
    requires
        g < 0x10,
        x < 0x10,
        y < 0x10,
        n < 0x10,
        w == g * 0x1000 + x * 0x100 + y * 0x10 + n,
    ensures
        w / 0x1000 == g,
        (w / 0x100) % 0x10 == x,
        (w / 0x10) % 0x10 == y,
        w % 0x10 == n,
        w % 0x100 == y * 0x10 + n,
        w % 0x1000 == x * 0x100 + y * 0x10 + n,
{
}

/// Splitting is lossless: the nibbles of a word spell that word again, and
/// splitting the word they spell gives the same fields, so splitting a
/// second time changes nothing.
pub proof fn lemma_split_roundtrip(word: u16)
    ensures
        Fields::of(word).wf(),
        Fields::of(word).word() == word,
        Fields::of(Fields::of(word).word() as u16) == Fields::of(word),
{
    lemma_nibbles_of_word(word);
}

/// Fields that are well formed are the fields of exactly one word, the one
/// their nibbles spell.
pub proof fn lemma_fields_determine_word(f: Fields)
    requires
        f.wf(),
    ensures
        0 <= f.word() <= u16::MAX,
        Fields::of(f.word() as u16) == f,
{
    let w: u16 = f.word() as u16;
    lemma_word_of_nibbles(f.group as u16, f.x as u16, f.y as u16, f.n as u16, w);
}

/// Two words with the same fields are the same word.
pub proof fn lemma_split_injective(a: u16, b: u16)
    requires
        Fields::of(a) == Fields::of(b),
    ensures
        a == b,
{
    lemma_split_roundtrip(a);
    lemma_split_roundtrip(b);
}

} // verus!
