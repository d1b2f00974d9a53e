//! The instruction decode table: 256 opcode bytes plus the two synthetic
//! interrupt entries, each mapping to a mnemonic, an addressing-mode tag
//! and a base cycle cost. The table index equals the opcode byte.

use vstd::prelude::*;

verus! {

/// Every documented and undocumented instruction mnemonic, plus the two
/// synthetic interrupt sequences and `UNI` for the few wholly
/// unimplemented encodings (executed as no-ops).
#[allow(clippy::upper_case_acronyms)]
#[derive(Clone, Copy, Debug, PartialEq, Eq, Structural)]
pub enum Mnemonic {
    ADC,
    ALR,
    ANC,
    AND,
    ARR,
    ASL,
    ASLA,
    AXS,
    BCC,
    BCS,
    BEQ,
    BIT,
    BMI,
    BNE,
    BPL,
    BRK,
    BVC,
    BVS,
    CLC,
    CLD,
    CLI,
    CLV,
    CMP,
    CPX,
    CPY,
    DCP,
    DEC,
    DEX,
    DEY,
    EOR,
    INC,
    INX,
    INY,
    IRQ,
    ISC,
    JMP,
    JSR,
    KIL,
    LAX,
    LDA,
    LDX,
    LDY,
    LSR,
    LSRA,
    NMI,
    NOP,
    ORA,
    PHA,
    PHP,
    PLA,
    PLP,
    RLA,
    ROL,
    ROLA,
    ROR,
    RORA,
    RRA,
    RTI,
    RTS,
    SAX,
    SBC,
    SEC,
    SED,
    SEI,
    SLO,
    SRE,
    STA,
    STX,
    STY,
    TAX,
    TAY,
    TSX,
    TXA,
    TXS,
    TYA,
    UNI,
}

/// The thirteen addressing modes; the `R` variants charge one extra
/// cycle when indexing crosses a page boundary, and the two interrupt
/// tags resolve no address at all.
#[allow(clippy::upper_case_acronyms)]
#[derive(Clone, Copy, Debug, PartialEq, Eq, Structural)]
pub enum AddrMode {
    IMP,
    IMM,
    ZP,
    ZPX,
    ZPY,
    IZX,
    IZY,
    IZYR,
    ABS,
    ABX,
    ABXR,
    ABY,
    ABYR,
    IND,
    REL,
    NMI,
    IRQ,
}

/// One decode-table entry.
#[derive(Clone, Copy, Debug, PartialEq, Eq, Structural)]
pub struct Opcode {
    pub op: Mnemonic,
    pub adm: AddrMode,
    pub cycle: u64,
}

/// Shorthand for a table entry.
pub open spec fn opc(op: Mnemonic, adm: AddrMode, cycle: u64) -> Opcode {
    Opcode { op, adm, cycle }
}

/// The decode-table entry for an opcode byte (bytes 256 and 257 are
/// the synthetic interrupt entries). Kept opaque: reveal it to evaluate
/// an entry.
#[verifier::opaque]
pub open spec fn opcode_spec(b: int) -> Opcode {
    if b == 0 {
        opc(Mnemonic::BRK, AddrMode::IMP, 7)
    } else if b == 1 {
        opc(Mnemonic::ORA, AddrMode::IZX, 6)
    } else if b == 2 {
        opc(Mnemonic::KIL, AddrMode::IMP, 2)
    } else if b == 3 {
        opc(Mnemonic::SLO, AddrMode::IZX, 8)
    } else if b == 4 {
        opc(Mnemonic::NOP, AddrMode::ZP, 3)
    } else if b == 5 {
        opc(Mnemonic::ORA, AddrMode::ZP, 3)
    } else if b == 6 {
        opc(Mnemonic::ASL, AddrMode::ZP, 5)
    } else if b == 7 {
        opc(Mnemonic::SLO, AddrMode::ZP, 5)
    } else if b == 8 {
        opc(Mnemonic::PHP, AddrMode::IMP, 3)
    } else if b == 9 {
        opc(Mnemonic::ORA, AddrMode::IMM, 2)
    } else if b == 10 {
        opc(Mnemonic::ASLA, AddrMode::IMP, 2)
    } else if b == 11 {
        opc(Mnemonic::ANC, AddrMode::IMM, 2)
    } else if b == 12 {
        opc(Mnemonic::NOP, AddrMode::ABS, 4)
    } else if b == 13 {
        opc(Mnemonic::ORA, AddrMode::ABS, 4)
    } else if b == 14 {
        opc(Mnemonic::ASL, AddrMode::ABS, 6)
    } else if b == 15 {
        opc(Mnemonic::SLO, AddrMode::ABS, 6)
    } else if b == 16 {
        opc(Mnemonic::BPL, AddrMode::REL, 2)
    } else if b == 17 {
        opc(Mnemonic::ORA, AddrMode::IZYR, 5)
    } else if b == 18 {
        opc(Mnemonic::KIL, AddrMode::IMP, 2)
    } else if b == 19 {
        opc(Mnemonic::SLO, AddrMode::IZY, 8)
    } else if b == 20 {
        opc(Mnemonic::NOP, AddrMode::ZPX, 4)
    } else if b == 21 {
        opc(Mnemonic::ORA, AddrMode::ZPX, 4)
    } else if b == 22 {
        opc(Mnemonic::ASL, AddrMode::ZPX, 6)
    } else if b == 23 {
        opc(Mnemonic::SLO, AddrMode::ZPX, 6)
    } else if b == 24 {
        opc(Mnemonic::CLC, AddrMode::IMP, 2)
    } else if b == 25 {
        opc(Mnemonic::ORA, AddrMode::ABYR, 4)
    } else if b == 26 {
        opc(Mnemonic::NOP, AddrMode::IMP, 2)
    } else if b == 27 {
        opc(Mnemonic::SLO, AddrMode::ABY, 7)
    } else if b == 28 {
        opc(Mnemonic::NOP, AddrMode::ABXR, 4)
    } else if b == 29 {
        opc(Mnemonic::ORA, AddrMode::ABXR, 4)
    } else if b == 30 {
        opc(Mnemonic::ASL, AddrMode::ABX, 7)
    } else if b == 31 {
        opc(Mnemonic::SLO, AddrMode::ABX, 7)
    } else if b == 32 {
        opc(Mnemonic::JSR, AddrMode::ABS, 6)
    } else if b == 33 {
        opc(Mnemonic::AND, AddrMode::IZX, 6)
    } else if b == 34 {
        opc(Mnemonic::KIL, AddrMode::IMP, 2)
    } else if b == 35 {
        opc(Mnemonic::RLA, AddrMode::IZX, 8)
    } else if b == 36 {
        opc(Mnemonic::BIT, AddrMode::ZP, 3)
    } else if b == 37 {
        opc(Mnemonic::AND, AddrMode::ZP, 3)
    } else if b == 38 {
        opc(Mnemonic::ROL, AddrMode::ZP, 5)
    } else if b == 39 {
        opc(Mnemonic::RLA, AddrMode::ZP, 5)
    } else if b == 40 {
        opc(Mnemonic::PLP, AddrMode::IMP, 4)
    } else if b == 41 {
        opc(Mnemonic::AND, AddrMode::IMM, 2)
    } else if b == 42 {
        opc(Mnemonic::ROLA, AddrMode::IMP, 2)
    } else if b == 43 {
        opc(Mnemonic::ANC, AddrMode::IMM, 2)
    } else if b == 44 {
        opc(Mnemonic::BIT, AddrMode::ABS, 4)
    } else if b == 45 {
        opc(Mnemonic::AND, AddrMode::ABS, 4)
    } else if b == 46 {
        opc(Mnemonic::ROL, AddrMode::ABS, 6)
    } else if b == 47 {
        opc(Mnemonic::RLA, AddrMode::ABS, 6)
    } else if b == 48 {
        opc(Mnemonic::BMI, AddrMode::REL, 2)
    } else if b == 49 {
        opc(Mnemonic::AND, AddrMode::IZYR, 5)
    } else if b == 50 {
        opc(Mnemonic::KIL, AddrMode::IMP, 2)
    } else if b == 51 {
        opc(Mnemonic::RLA, AddrMode::IZY, 8)
    } else if b == 52 {
        opc(Mnemonic::NOP, AddrMode::ZPX, 4)
    } else if b == 53 {
        opc(Mnemonic::AND, AddrMode::ZPX, 4)
    } else if b == 54 {
        opc(Mnemonic::ROL, AddrMode::ZPX, 6)
    } else if b == 55 {
        opc(Mnemonic::RLA, AddrMode::ZPX, 6)
    } else if b == 56 {
        opc(Mnemonic::SEC, AddrMode::IMP, 2)
    } else if b == 57 {
        opc(Mnemonic::AND, AddrMode::ABYR, 4)
    } else if b == 58 {
        opc(Mnemonic::NOP, AddrMode::IMP, 2)
    } else if b == 59 {
        opc(Mnemonic::RLA, AddrMode::ABY, 7)
    } else if b == 60 {
        opc(Mnemonic::NOP, AddrMode::ABXR, 4)
    } else if b == 61 {
        opc(Mnemonic::AND, AddrMode::ABXR, 4)
    } else if b == 62 {
        opc(Mnemonic::ROL, AddrMode::ABX, 7)
    } else if b == 63 {
        opc(Mnemonic::RLA, AddrMode::ABX, 7)
    } else if b == 64 {
        opc(Mnemonic::RTI, AddrMode::IMP, 6)
    } else if b == 65 {
        opc(Mnemonic::EOR, AddrMode::IZX, 6)
    } else if b == 66 {
        opc(Mnemonic::KIL, AddrMode::IMP, 2)
    } else if b == 67 {
        opc(Mnemonic::SRE, AddrMode::IZX, 8)
    } else if b == 68 {
        opc(Mnemonic::NOP, AddrMode::ZP, 3)
    } else if b == 69 {
        opc(Mnemonic::EOR, AddrMode::ZP, 3)
    } else if b == 70 {
        opc(Mnemonic::LSR, AddrMode::ZP, 5)
    } else if b == 71 {
        opc(Mnemonic::SRE, AddrMode::ZP, 5)
    } else if b == 72 {
        opc(Mnemonic::PHA, AddrMode::IMP, 3)
    } else if b == 73 {
        opc(Mnemonic::EOR, AddrMode::IMM, 2)
    } else if b == 74 {
        opc(Mnemonic::LSRA, AddrMode::IMP, 2)
    } else if b == 75 {
        opc(Mnemonic::ALR, AddrMode::IMM, 2)
    } else if b == 76 {
        opc(Mnemonic::JMP, AddrMode::ABS, 3)
    } else if b == 77 {
        opc(Mnemonic::EOR, AddrMode::ABS, 4)
    } else if b == 78 {
        opc(Mnemonic::LSR, AddrMode::ABS, 6)
    } else if b == 79 {
        opc(Mnemonic::SRE, AddrMode::ABS, 6)
    } else if b == 80 {
        opc(Mnemonic::BVC, AddrMode::REL, 2)
    } else if b == 81 {
        opc(Mnemonic::EOR, AddrMode::IZYR, 5)
    } else if b == 82 {
        opc(Mnemonic::KIL, AddrMode::IMP, 2)
    } else if b == 83 {
        opc(Mnemonic::SRE, AddrMode::IZY, 8)
    } else if b == 84 {
        opc(Mnemonic::NOP, AddrMode::ZPX, 4)
    } else if b == 85 {
        opc(Mnemonic::EOR, AddrMode::ZPX, 4)
    } else if b == 86 {
        opc(Mnemonic::LSR, AddrMode::ZPX, 6)
    } else if b == 87 {
        opc(Mnemonic::SRE, AddrMode::ZPX, 6)
    } else if b == 88 {
        opc(Mnemonic::CLI, AddrMode::IMP, 2)
    } else if b == 89 {
        opc(Mnemonic::EOR, AddrMode::ABYR, 4)
    } else if b == 90 {
        opc(Mnemonic::NOP, AddrMode::IMP, 2)
    } else if b == 91 {
        opc(Mnemonic::SRE, AddrMode::ABY, 7)
    } else if b == 92 {
        opc(Mnemonic::NOP, AddrMode::ABXR, 4)
    } else if b == 93 {
        opc(Mnemonic::EOR, AddrMode::ABXR, 4)
    } else if b == 94 {
        opc(Mnemonic::LSR, AddrMode::ABX, 7)
    } else if b == 95 {
        opc(Mnemonic::SRE, AddrMode::ABX, 7)
    } else if b == 96 {
        opc(Mnemonic::RTS, AddrMode::IMP, 6)
    } else if b == 97 {
        opc(Mnemonic::ADC, AddrMode::IZX, 6)
    } else if b == 98 {
        opc(Mnemonic::KIL, AddrMode::IMP, 2)
    } else if b == 99 {
        opc(Mnemonic::RRA, AddrMode::IZX, 8)
    } else if b == 100 {
        opc(Mnemonic::NOP, AddrMode::ZP, 3)
    } else if b == 101 {
        opc(Mnemonic::ADC, AddrMode::ZP, 3)
    } else if b == 102 {
        opc(Mnemonic::ROR, AddrMode::ZP, 5)
    } else if b == 103 {
        opc(Mnemonic::RRA, AddrMode::ZP, 5)
    } else if b == 104 {
        opc(Mnemonic::PLA, AddrMode::IMP, 4)
    } else if b == 105 {
        opc(Mnemonic::ADC, AddrMode::IMM, 2)
    } else if b == 106 {
        opc(Mnemonic::RORA, AddrMode::IMP, 2)
    } else if b == 107 {
        opc(Mnemonic::ARR, AddrMode::IMM, 2)
    } else if b == 108 {
        opc(Mnemonic::JMP, AddrMode::IND, 5)
    } else if b == 109 {
        opc(Mnemonic::ADC, AddrMode::ABS, 4)
    } else if b == 110 {
        opc(Mnemonic::ROR, AddrMode::ABS, 6)
    } else if b == 111 {
        opc(Mnemonic::RRA, AddrMode::ABS, 6)
    } else if b == 112 {
        opc(Mnemonic::BVS, AddrMode::REL, 2)
    } else if b == 113 {
        opc(Mnemonic::ADC, AddrMode::IZYR, 5)
    } else if b == 114 {
        opc(Mnemonic::KIL, AddrMode::IMP, 2)
    } else if b == 115 {
        opc(Mnemonic::RRA, AddrMode::IZY, 8)
    } else if b == 116 {
        opc(Mnemonic::NOP, AddrMode::ZPX, 4)
    } else if b == 117 {
        opc(Mnemonic::ADC, AddrMode::ZPX, 4)
    } else if b == 118 {
        opc(Mnemonic::ROR, AddrMode::ZPX, 6)
    } else if b == 119 {
        opc(Mnemonic::RRA, AddrMode::ZPX, 6)
    } else if b == 120 {
        opc(Mnemonic::SEI, AddrMode::IMP, 2)
    } else if b == 121 {
        opc(Mnemonic::ADC, AddrMode::ABYR, 4)
    } else if b == 122 {
        opc(Mnemonic::NOP, AddrMode::IMP, 2)
    } else if b == 123 {
        opc(Mnemonic::RRA, AddrMode::ABY, 7)
    } else if b == 124 {
        opc(Mnemonic::NOP, AddrMode::ABXR, 4)
    } else if b == 125 {
        opc(Mnemonic::ADC, AddrMode::ABXR, 4)
    } else if b == 126 {
        opc(Mnemonic::ROR, AddrMode::ABX, 7)
    } else if b == 127 {
        opc(Mnemonic::RRA, AddrMode::ABX, 7)
    } else if b == 128 {
        opc(Mnemonic::NOP, AddrMode::IMM, 2)
    } else if b == 129 {
        opc(Mnemonic::STA, AddrMode::IZX, 6)
    } else if b == 130 {
        opc(Mnemonic::NOP, AddrMode::IMM, 2)
    } else if b == 131 {
        opc(Mnemonic::SAX, AddrMode::IZX, 6)
    } else if b == 132 {
        opc(Mnemonic::STY, AddrMode::ZP, 3)
    } else if b == 133 {
        opc(Mnemonic::STA, AddrMode::ZP, 3)
    } else if b == 134 {
        opc(Mnemonic::STX, AddrMode::ZP, 3)
    } else if b == 135 {
        opc(Mnemonic::SAX, AddrMode::ZP, 3)
    } else if b == 136 {
        opc(Mnemonic::DEY, AddrMode::IMP, 2)
    } else if b == 137 {
        opc(Mnemonic::NOP, AddrMode::IMM, 2)
    } else if b == 138 {
        opc(Mnemonic::TXA, AddrMode::IMP, 2)
    } else if b == 139 {
        opc(Mnemonic::UNI, AddrMode::IMM, 2)
    } else if b == 140 {
        opc(Mnemonic::STY, AddrMode::ABS, 4)
    } else if b == 141 {
        opc(Mnemonic::STA, AddrMode::ABS, 4)
    } else if b == 142 {
        opc(Mnemonic::STX, AddrMode::ABS, 4)
    } else if b == 143 {
        opc(Mnemonic::SAX, AddrMode::ABS, 4)
    } else if b == 144 {
        opc(Mnemonic::BCC, AddrMode::REL, 2)
    } else if b == 145 {
        opc(Mnemonic::STA, AddrMode::IZY, 6)
    } else if b == 146 {
        opc(Mnemonic::KIL, AddrMode::IMP, 2)
    } else if b == 147 {
        opc(Mnemonic::UNI, AddrMode::IZY, 6)
    } else if b == 148 {
        opc(Mnemonic::STY, AddrMode::ZPX, 4)
    } else if b == 149 {
        opc(Mnemonic::STA, AddrMode::ZPX, 4)
    } else if b == 150 {
        opc(Mnemonic::STX, AddrMode::ZPY, 4)
    } else if b == 151 {
        opc(Mnemonic::SAX, AddrMode::ZPY, 4)
    } else if b == 152 {
        opc(Mnemonic::TYA, AddrMode::IMP, 2)
    } else if b == 153 {
        opc(Mnemonic::STA, AddrMode::ABY, 5)
    } else if b == 154 {
        opc(Mnemonic::TXS, AddrMode::IMP, 2)
    } else if b == 155 {
        opc(Mnemonic::UNI, AddrMode::ABY, 5)
    } else if b == 156 {
        opc(Mnemonic::UNI, AddrMode::ABX, 5)
    } else if b == 157 {
        opc(Mnemonic::STA, AddrMode::ABX, 5)
    } else if b == 158 {
        opc(Mnemonic::UNI, AddrMode::ABY, 5)
    } else if b == 159 {
        opc(Mnemonic::UNI, AddrMode::ABY, 5)
    } else if b == 160 {
        opc(Mnemonic::LDY, AddrMode::IMM, 2)
    } else if b == 161 {
        opc(Mnemonic::LDA, AddrMode::IZX, 6)
    } else if b == 162 {
        opc(Mnemonic::LDX, AddrMode::IMM, 2)
    } else if b == 163 {
        opc(Mnemonic::LAX, AddrMode::IZX, 6)
    } else if b == 164 {
        opc(Mnemonic::LDY, AddrMode::ZP, 3)
    } else if b == 165 {
        opc(Mnemonic::LDA, AddrMode::ZP, 3)
    } else if b == 166 {
        opc(Mnemonic::LDX, AddrMode::ZP, 3)
    } else if b == 167 {
        opc(Mnemonic::LAX, AddrMode::ZP, 3)
    } else if b == 168 {
        opc(Mnemonic::TAY, AddrMode::IMP, 2)
    } else if b == 169 {
        opc(Mnemonic::LDA, AddrMode::IMM, 2)
    } else if b == 170 {
        opc(Mnemonic::TAX, AddrMode::IMP, 2)
    } else if b == 171 {
        opc(Mnemonic::UNI, AddrMode::IMM, 2)
    } else if b == 172 {
        opc(Mnemonic::LDY, AddrMode::ABS, 4)
    } else if b == 173 {
        opc(Mnemonic::LDA, AddrMode::ABS, 4)
    } else if b == 174 {
        opc(Mnemonic::LDX, AddrMode::ABS, 4)
    } else if b == 175 {
        opc(Mnemonic::LAX, AddrMode::ABS, 4)
    } else if b == 176 {
        opc(Mnemonic::BCS, AddrMode::REL, 2)
    } else if b == 177 {
        opc(Mnemonic::LDA, AddrMode::IZYR, 5)
    } else if b == 178 {
        opc(Mnemonic::KIL, AddrMode::IMP, 2)
    } else if b == 179 {
        opc(Mnemonic::LAX, AddrMode::IZYR, 5)
    } else if b == 180 {
        opc(Mnemonic::LDY, AddrMode::ZPX, 4)
    } else if b == 181 {
        opc(Mnemonic::LDA, AddrMode::ZPX, 4)
    } else if b == 182 {
        opc(Mnemonic::LDX, AddrMode::ZPY, 4)
    } else if b == 183 {
        opc(Mnemonic::LAX, AddrMode::ZPY, 4)
    } else if b == 184 {
        opc(Mnemonic::CLV, AddrMode::IMP, 2)
    } else if b == 185 {
        opc(Mnemonic::LDA, AddrMode::ABYR, 4)
    } else if b == 186 {
        opc(Mnemonic::TSX, AddrMode::IMP, 2)
    } else if b == 187 {
        opc(Mnemonic::UNI, AddrMode::ABYR, 4)
    } else if b == 188 {
        opc(Mnemonic::LDY, AddrMode::ABXR, 4)
    } else if b == 189 {
        opc(Mnemonic::LDA, AddrMode::ABXR, 4)
    } else if b == 190 {
        opc(Mnemonic::LDX, AddrMode::ABYR, 4)
    } else if b == 191 {
        opc(Mnemonic::LAX, AddrMode::ABYR, 4)
    } else if b == 192 {
        opc(Mnemonic::CPY, AddrMode::IMM, 2)
    } else if b == 193 {
        opc(Mnemonic::CMP, AddrMode::IZX, 6)
    } else if b == 194 {
        opc(Mnemonic::NOP, AddrMode::IMM, 2)
    } else if b == 195 {
        opc(Mnemonic::DCP, AddrMode::IZX, 8)
    } else if b == 196 {
        opc(Mnemonic::CPY, AddrMode::ZP, 3)
    } else if b == 197 {
        opc(Mnemonic::CMP, AddrMode::ZP, 3)
    } else if b == 198 {
        opc(Mnemonic::DEC, AddrMode::ZP, 5)
    } else if b == 199 {
        opc(Mnemonic::DCP, AddrMode::ZP, 5)
    } else if b == 200 {
        opc(Mnemonic::INY, AddrMode::IMP, 2)
    } else if b == 201 {
        opc(Mnemonic::CMP, AddrMode::IMM, 2)
    } else if b == 202 {
        opc(Mnemonic::DEX, AddrMode::IMP, 2)
    } else if b == 203 {
        opc(Mnemonic::AXS, AddrMode::IMM, 2)
    } else if b == 204 {
        opc(Mnemonic::CPY, AddrMode::ABS, 4)
    } else if b == 205 {
        opc(Mnemonic::CMP, AddrMode::ABS, 4)
    } else if b == 206 {
        opc(Mnemonic::DEC, AddrMode::ABS, 6)
    } else if b == 207 {
        opc(Mnemonic::DCP, AddrMode::ABS, 6)
    } else if b == 208 {
        opc(Mnemonic::BNE, AddrMode::REL, 2)
    } else if b == 209 {
        opc(Mnemonic::CMP, AddrMode::IZYR, 5)
    } else if b == 210 {
        opc(Mnemonic::KIL, AddrMode::IMP, 2)
    } else if b == 211 {
        opc(Mnemonic::DCP, AddrMode::IZY, 8)
    } else if b == 212 {
        opc(Mnemonic::NOP, AddrMode::ZPX, 4)
    } else if b == 213 {
        opc(Mnemonic::CMP, AddrMode::ZPX, 4)
    } else if b == 214 {
        opc(Mnemonic::DEC, AddrMode::ZPX, 6)
    } else if b == 215 {
        opc(Mnemonic::DCP, AddrMode::ZPX, 6)
    } else if b == 216 {
        opc(Mnemonic::CLD, AddrMode::IMP, 2)
    } else if b == 217 {
        opc(Mnemonic::CMP, AddrMode::ABYR, 4)
    } else if b == 218 {
        opc(Mnemonic::NOP, AddrMode::IMP, 2)
    } else if b == 219 {
        opc(Mnemonic::DCP, AddrMode::ABY, 7)
    } else if b == 220 {
        opc(Mnemonic::NOP, AddrMode::ABXR, 4)
    } else if b == 221 {
        opc(Mnemonic::CMP, AddrMode::ABXR, 4)
    } else if b == 222 {
        opc(Mnemonic::DEC, AddrMode::ABX, 7)
    } else if b == 223 {
        opc(Mnemonic::DCP, AddrMode::ABX, 7)
    } else if b == 224 {
        opc(Mnemonic::CPX, AddrMode::IMM, 2)
    } else if b == 225 {
        opc(Mnemonic::SBC, AddrMode::IZX, 6)
    } else if b == 226 {
        opc(Mnemonic::NOP, AddrMode::IMM, 2)
    } else if b == 227 {
        opc(Mnemonic::ISC, AddrMode::IZX, 8)
    } else if b == 228 {
        opc(Mnemonic::CPX, AddrMode::ZP, 3)
    } else if b == 229 {
        opc(Mnemonic::SBC, AddrMode::ZP, 3)
    } else if b == 230 {
        opc(Mnemonic::INC, AddrMode::ZP, 5)
    } else if b == 231 {
        opc(Mnemonic::ISC, AddrMode::ZP, 5)
    } else if b == 232 {
        opc(Mnemonic::INX, AddrMode::IMP, 2)
    } else if b == 233 {
        opc(Mnemonic::SBC, AddrMode::IMM, 2)
    } else if b == 234 {
        opc(Mnemonic::NOP, AddrMode::IMP, 2)
    } else if b == 235 {
        opc(Mnemonic::SBC, AddrMode::IMM, 2)
    } else if b == 236 {
        opc(Mnemonic::CPX, AddrMode::ABS, 4)
    } else if b == 237 {
        opc(Mnemonic::SBC, AddrMode::ABS, 4)
    } else if b == 238 {
        opc(Mnemonic::INC, AddrMode::ABS, 6)
    } else if b == 239 {
        opc(Mnemonic::ISC, AddrMode::ABS, 6)
    } else if b == 240 {
        opc(Mnemonic::BEQ, AddrMode::REL, 2)
    } else if b == 241 {
        opc(Mnemonic::SBC, AddrMode::IZYR, 5)
    } else if b == 242 {
        opc(Mnemonic::KIL, AddrMode::IMP, 2)
    } else if b == 243 {
        opc(Mnemonic::ISC, AddrMode::IZY, 8)
    } else if b == 244 {
        opc(Mnemonic::NOP, AddrMode::ZPX, 4)
    } else if b == 245 {
        opc(Mnemonic::SBC, AddrMode::ZPX, 4)
    } else if b == 246 {
        opc(Mnemonic::INC, AddrMode::ZPX, 6)
    } else if b == 247 {
        opc(Mnemonic::ISC, AddrMode::ZPX, 6)
    } else if b == 248 {
        opc(Mnemonic::SED, AddrMode::IMP, 2)
    } else if b == 249 {
        opc(Mnemonic::SBC, AddrMode::ABYR, 4)
    } else if b == 250 {
        opc(Mnemonic::NOP, AddrMode::IMP, 2)
    } else if b == 251 {
        opc(Mnemonic::ISC, AddrMode::ABY, 7)
    } else if b == 252 {
        opc(Mnemonic::NOP, AddrMode::ABXR, 4)
    } else if b == 253 {
        opc(Mnemonic::SBC, AddrMode::ABXR, 4)
    } else if b == 254 {
        opc(Mnemonic::INC, AddrMode::ABX, 7)
    } else if b == 255 {
        opc(Mnemonic::ISC, AddrMode::ABX, 7)
    } else if b == 256 {
        opc(Mnemonic::NMI, AddrMode::NMI, 0)
    } else if b == 257 {
        opc(Mnemonic::IRQ, AddrMode::IRQ, 0)
    } else {
        opc(Mnemonic::IRQ, AddrMode::IRQ, 0)
    }
}

/// Every table entry's base cost is at most eight cycles.
#[verifier::rlimit(100)]
pub proof fn lemma_opcode_cycle(b: int)
    ensures
        opcode_spec(b).cycle <= 8,
{
    reveal(opcode_spec);
}

} // verus!
