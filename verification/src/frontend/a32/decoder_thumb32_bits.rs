//! The bits of each 32-bit Thumb instruction.

use vstd::prelude::*;
use crate::frontend::a32::decoder_bits::one;
use crate::frontend::a32::decoder_thumb32::{thumb32_encoding, Thumb32InstId};

verus! {

/// The patterns of 32-bit Thumb instructions, bit by bit.
#[verifier::rlimit(50)]
proof fn thumb32_patterns(raw: u32)
    ensures
        (raw & 0x0000_0F00 == 0x0000_0E00) <==> (one(raw, 11) && one(raw, 10) && one(raw, 9)
            && !one(raw, 8)),
        (raw & 0x000F_0000 == 0x000F_0000) <==> (one(raw, 19) && one(raw, 18) && one(raw, 17)
            && one(raw, 16)),
        (raw & 0xEE10_0000 == 0xEC00_0000) <==> (one(raw, 31) && one(raw, 30) && one(raw, 29)
            && one(raw, 27) && one(raw, 26)
            && !one(raw, 25) && !one(raw, 20)),
        (raw & 0xEE10_0000 == 0xEC10_0000) <==> (one(raw, 31) && one(raw, 30) && one(raw, 29)
            && one(raw, 27) && one(raw, 26)
            && !one(raw, 25) && one(raw, 20)),
        (raw & 0xEF00_0010 == 0xEE00_0000) <==> (one(raw, 31) && one(raw, 30) && one(raw, 29)
            && one(raw, 27) && one(raw, 26)
            && one(raw, 25) && !one(raw, 24) && !one(raw, 4)),
        (raw & 0xEF10_0010 == 0xEE00_0010) <==> (one(raw, 31) && one(raw, 30) && one(raw, 29)
            && one(raw, 27) && one(raw, 26)
            && one(raw, 25) && !one(raw, 24) && !one(raw, 20) && one(raw, 4)),
        (raw & 0xEF10_0010 == 0xEE10_0010) <==> (one(raw, 31) && one(raw, 30) && one(raw, 29)
            && one(raw, 27) && one(raw, 26)
            && one(raw, 25) && !one(raw, 24) && one(raw, 20) && one(raw, 4)),
        (raw & 0xEFF0_0000 == 0xEC40_0000) <==> (one(raw, 31) && one(raw, 30) && one(raw, 29)
            && one(raw, 27) && one(raw, 26)
            && !one(raw, 25) && !one(raw, 24) && !one(raw, 23) && one(raw, 22) && !one(raw, 21)
            && !one(raw, 20)),
        (raw & 0xEFF0_0000 == 0xEC50_0000) <==> (one(raw, 31) && one(raw, 30) && one(raw, 29)
            && one(raw, 27) && one(raw, 26)
            && !one(raw, 25) && !one(raw, 24) && !one(raw, 23) && one(raw, 22) && !one(raw, 21)
            && one(raw, 20)),
        (raw & 0xF800_D000 == 0xF000_8000) <==> (one(raw, 31) && one(raw, 30) && one(raw, 29)
            && one(raw, 28) && !one(raw, 27)
            && one(raw, 15) && !one(raw, 14) && !one(raw, 12)),
        (raw & 0xF800_D000 == 0xF000_9000) <==> (one(raw, 31) && one(raw, 30) && one(raw, 29)
            && one(raw, 28) && !one(raw, 27)
            && one(raw, 15) && !one(raw, 14) && one(raw, 12)),
        (raw & 0xF800_D000 == 0xF000_C000) <==> (one(raw, 31) && one(raw, 30) && one(raw, 29)
            && one(raw, 28) && !one(raw, 27)
            && one(raw, 15) && one(raw, 14) && !one(raw, 12)),
        (raw & 0xF800_D000 == 0xF000_D000) <==> (one(raw, 31) && one(raw, 30) && one(raw, 29)
            && one(raw, 28) && !one(raw, 27)
            && one(raw, 15) && one(raw, 14) && one(raw, 12)),
        (raw & 0xFB80_D000 == 0xF380_8000) <==> (one(raw, 31) && one(raw, 30) && one(raw, 29)
            && one(raw, 28) && !one(raw, 27)
            && one(raw, 25) && one(raw, 24) && one(raw, 23) && one(raw, 15) && !one(raw, 14)
            && !one(raw, 12)),
        (raw & 0xFBE0_8000 == 0xF000_0000) <==> (one(raw, 31) && one(raw, 30) && one(raw, 29)
            && one(raw, 28) && !one(raw, 27)
            && !one(raw, 25) && !one(raw, 24) && !one(raw, 23) && !one(raw, 22) && !one(raw, 21)
            && !one(raw, 15)),
        (raw & 0xFBE0_8000 == 0xF020_0000) <==> (one(raw, 31) && one(raw, 30) && one(raw, 29)
            && one(raw, 28) && !one(raw, 27)
            && !one(raw, 25) && !one(raw, 24) && !one(raw, 23) && !one(raw, 22) && one(raw, 21)
            && !one(raw, 15)),
        (raw & 0xFBE0_8000 == 0xF040_0000) <==> (one(raw, 31) && one(raw, 30) && one(raw, 29)
            && one(raw, 28) && !one(raw, 27)
            && !one(raw, 25) && !one(raw, 24) && !one(raw, 23) && one(raw, 22) && !one(raw, 21)
            && !one(raw, 15)),
        (raw & 0xFBE0_8000 == 0xF060_0000) <==> (one(raw, 31) && one(raw, 30) && one(raw, 29)
            && one(raw, 28) && !one(raw, 27)
            && !one(raw, 25) && !one(raw, 24) && !one(raw, 23) && one(raw, 22) && one(raw, 21)
            && !one(raw, 15)),
        (raw & 0xFBE0_8000 == 0xF080_0000) <==> (one(raw, 31) && one(raw, 30) && one(raw, 29)
            && one(raw, 28) && !one(raw, 27)
            && !one(raw, 25) && !one(raw, 24) && one(raw, 23) && !one(raw, 22) && !one(raw, 21)
            && !one(raw, 15)),
        (raw & 0xFBE0_8000 == 0xF100_0000) <==> (one(raw, 31) && one(raw, 30) && one(raw, 29)
            && one(raw, 28) && !one(raw, 27)
            && !one(raw, 25) && one(raw, 24) && !one(raw, 23) && !one(raw, 22) && !one(raw, 21)
            && !one(raw, 15)),
        (raw & 0xFBE0_8000 == 0xF140_0000) <==> (one(raw, 31) && one(raw, 30) && one(raw, 29)
            && one(raw, 28) && !one(raw, 27)
            && !one(raw, 25) && one(raw, 24) && !one(raw, 23) && one(raw, 22) && !one(raw, 21)
            && !one(raw, 15)),
        (raw & 0xFBE0_8000 == 0xF160_0000) <==> (one(raw, 31) && one(raw, 30) && one(raw, 29)
            && one(raw, 28) && !one(raw, 27)
            && !one(raw, 25) && one(raw, 24) && !one(raw, 23) && one(raw, 22) && one(raw, 21)
            && !one(raw, 15)),
        (raw & 0xFBE0_8000 == 0xF1A0_0000) <==> (one(raw, 31) && one(raw, 30) && one(raw, 29)
            && one(raw, 28) && !one(raw, 27)
            && !one(raw, 25) && one(raw, 24) && one(raw, 23) && !one(raw, 22) && one(raw, 21)
            && !one(raw, 15)),
        (raw & 0xFBE0_8000 == 0xF1C0_0000) <==> (one(raw, 31) && one(raw, 30) && one(raw, 29)
            && one(raw, 28) && !one(raw, 27)
            && !one(raw, 25) && one(raw, 24) && one(raw, 23) && one(raw, 22) && !one(raw, 21)
            && !one(raw, 15)),
        (raw & 0xFBEF_8000 == 0xF04F_0000) <==> (one(raw, 31) && one(raw, 30) && one(raw, 29)
            && one(raw, 28) && !one(raw, 27)
            && !one(raw, 25) && !one(raw, 24) && !one(raw, 23) && one(raw, 22) && !one(raw, 21)
            && one(raw, 19) && one(raw, 18) && one(raw, 17) && one(raw, 16) && !one(raw, 15)),
        (raw & 0xFBEF_8000 == 0xF06F_0000) <==> (one(raw, 31) && one(raw, 30) && one(raw, 29)
            && one(raw, 28) && !one(raw, 27)
            && !one(raw, 25) && !one(raw, 24) && !one(raw, 23) && one(raw, 22) && one(raw, 21)
            && one(raw, 19) && one(raw, 18) && one(raw, 17) && one(raw, 16) && !one(raw, 15)),
        (raw & 0xFBF0_8000 == 0xF200_0000) <==> (one(raw, 31) && one(raw, 30) && one(raw, 29)
            && one(raw, 28) && !one(raw, 27)
            && one(raw, 25) && !one(raw, 24) && !one(raw, 23) && !one(raw, 22) && !one(raw, 21)
            && !one(raw, 20) && !one(raw, 15)),
        (raw & 0xFBF0_8000 == 0xF240_0000) <==> (one(raw, 31) && one(raw, 30) && one(raw, 29)
            && one(raw, 28) && !one(raw, 27)
            && one(raw, 25) && !one(raw, 24) && !one(raw, 23) && one(raw, 22) && !one(raw, 21)
            && !one(raw, 20) && !one(raw, 15)),
        (raw & 0xFBF0_8000 == 0xF2A0_0000) <==> (one(raw, 31) && one(raw, 30) && one(raw, 29)
            && one(raw, 28) && !one(raw, 27)
            && one(raw, 25) && !one(raw, 24) && one(raw, 23) && !one(raw, 22) && one(raw, 21)
            && !one(raw, 20) && !one(raw, 15)),
        (raw & 0xFBF0_8000 == 0xF2C0_0000) <==> (one(raw, 31) && one(raw, 30) && one(raw, 29)
            && one(raw, 28) && !one(raw, 27)
            && one(raw, 25) && !one(raw, 24) && one(raw, 23) && one(raw, 22) && !one(raw, 21)
            && !one(raw, 20) && !one(raw, 15)),
        (raw & 0xFBF0_8F00 == 0xF010_0F00) <==> (one(raw, 31) && one(raw, 30) && one(raw, 29)
            && one(raw, 28) && !one(raw, 27)
            && !one(raw, 25) && !one(raw, 24) && !one(raw, 23) && !one(raw, 22) && !one(raw, 21)
            && one(raw, 20) && !one(raw, 15) && one(raw, 11) && one(raw, 10) && one(raw, 9)
            && one(raw, 8)),
        (raw & 0xFBF0_8F00 == 0xF090_0F00) <==> (one(raw, 31) && one(raw, 30) && one(raw, 29)
            && one(raw, 28) && !one(raw, 27)
            && !one(raw, 25) && !one(raw, 24) && one(raw, 23) && !one(raw, 22) && !one(raw, 21)
            && one(raw, 20) && !one(raw, 15) && one(raw, 11) && one(raw, 10) && one(raw, 9)
            && one(raw, 8)),
        (raw & 0xFBF0_8F00 == 0xF110_0F00) <==> (one(raw, 31) && one(raw, 30) && one(raw, 29)
            && one(raw, 28) && !one(raw, 27)
            && !one(raw, 25) && one(raw, 24) && !one(raw, 23) && !one(raw, 22) && !one(raw, 21)
            && one(raw, 20) && !one(raw, 15) && one(raw, 11) && one(raw, 10) && one(raw, 9)
            && one(raw, 8)),
        (raw & 0xFBF0_8F00 == 0xF1B0_0F00) <==> (one(raw, 31) && one(raw, 30) && one(raw, 29)
            && one(raw, 28) && !one(raw, 27)
            && !one(raw, 25) && one(raw, 24) && one(raw, 23) && !one(raw, 22) && one(raw, 21)
            && one(raw, 20) && !one(raw, 15) && one(raw, 11) && one(raw, 10) && one(raw, 9)
            && one(raw, 8)),
        (raw & 0xFBFF_8000 == 0xF20F_0000) <==> (one(raw, 31) && one(raw, 30) && one(raw, 29)
            && one(raw, 28) && !one(raw, 27)
            && one(raw, 25) && !one(raw, 24) && !one(raw, 23) && !one(raw, 22) && !one(raw, 21)
            && !one(raw, 20) && one(raw, 19) && one(raw, 18) && one(raw, 17) && one(raw, 16)
            && !one(raw, 15)),
        (raw & 0xFBFF_8000 == 0xF2AF_0000) <==> (one(raw, 31) && one(raw, 30) && one(raw, 29)
            && one(raw, 28) && !one(raw, 27)
            && one(raw, 25) && !one(raw, 24) && one(raw, 23) && !one(raw, 22) && one(raw, 21)
            && !one(raw, 20) && one(raw, 19) && one(raw, 18) && one(raw, 17) && one(raw, 16)
            && !one(raw, 15)),
        (raw & 0xFF50_0000 == 0xE940_0000) <==> (one(raw, 31) && one(raw, 30) && one(raw, 29)
            && !one(raw, 28) && one(raw, 27)
            && !one(raw, 26) && !one(raw, 25) && one(raw, 24) && one(raw, 22) && !one(raw, 20)),
        (raw & 0xFF50_0000 == 0xE950_0000) <==> (one(raw, 31) && one(raw, 30) && one(raw, 29)
            && !one(raw, 28) && one(raw, 27)
            && !one(raw, 26) && !one(raw, 25) && one(raw, 24) && one(raw, 22) && one(raw, 20)),
        (raw & 0xFF5F_0000 == 0xE95F_0000) <==> (one(raw, 31) && one(raw, 30) && one(raw, 29)
            && !one(raw, 28) && one(raw, 27)
            && !one(raw, 26) && !one(raw, 25) && one(raw, 24) && one(raw, 22) && one(raw, 20)
            && one(raw, 19) && one(raw, 18) && one(raw, 17) && one(raw, 16)),
        (raw & 0xFF70_0000 == 0xE860_0000) <==> (one(raw, 31) && one(raw, 30) && one(raw, 29)
            && !one(raw, 28) && one(raw, 27)
            && !one(raw, 26) && !one(raw, 25) && !one(raw, 24) && one(raw, 22) && one(raw, 21)
            && !one(raw, 20)),
        (raw & 0xFF70_0000 == 0xE870_0000) <==> (one(raw, 31) && one(raw, 30) && one(raw, 29)
            && !one(raw, 28) && one(raw, 27)
            && !one(raw, 26) && !one(raw, 25) && !one(raw, 24) && one(raw, 22) && one(raw, 21)
            && one(raw, 20)),
        (raw & 0xFF70_F0F0 == 0xF320_0010) <==> (one(raw, 31) && one(raw, 30) && one(raw, 29)
            && one(raw, 28) && !one(raw, 27)
            && !one(raw, 26) && one(raw, 25) && one(raw, 24) && !one(raw, 22) && one(raw, 21)
            && !one(raw, 20) && !one(raw, 15) && !one(raw, 14) && !one(raw, 13) && !one(raw, 12)
            && !one(raw, 7) && !one(raw, 6) && !one(raw, 5) && one(raw, 4)),
        (raw & 0xFF7F_0000 == 0xE87F_0000) <==> (one(raw, 31) && one(raw, 30) && one(raw, 29)
            && !one(raw, 28) && one(raw, 27)
            && !one(raw, 26) && !one(raw, 25) && !one(raw, 24) && one(raw, 22) && one(raw, 21)
            && one(raw, 20) && one(raw, 19) && one(raw, 18) && one(raw, 17) && one(raw, 16)),
        (raw & 0xFF7F_0000 == 0xF81F_0000) <==> (one(raw, 31) && one(raw, 30) && one(raw, 29)
            && one(raw, 28) && one(raw, 27)
            && !one(raw, 26) && !one(raw, 25) && !one(raw, 24) && !one(raw, 22) && !one(raw, 21)
            && one(raw, 20) && one(raw, 19) && one(raw, 18) && one(raw, 17) && one(raw, 16)),
        (raw & 0xFF7F_0000 == 0xF83F_0000) <==> (one(raw, 31) && one(raw, 30) && one(raw, 29)
            && one(raw, 28) && one(raw, 27)
            && !one(raw, 26) && !one(raw, 25) && !one(raw, 24) && !one(raw, 22) && one(raw, 21)
            && one(raw, 20) && one(raw, 19) && one(raw, 18) && one(raw, 17) && one(raw, 16)),
        (raw & 0xFF7F_0000 == 0xF85F_0000) <==> (one(raw, 31) && one(raw, 30) && one(raw, 29)
            && one(raw, 28) && one(raw, 27)
            && !one(raw, 26) && !one(raw, 25) && !one(raw, 24) && one(raw, 22) && !one(raw, 21)
            && one(raw, 20) && one(raw, 19) && one(raw, 18) && one(raw, 17) && one(raw, 16)),
        (raw & 0xFF7F_0000 == 0xF91F_0000) <==> (one(raw, 31) && one(raw, 30) && one(raw, 29)
            && one(raw, 28) && one(raw, 27)
            && !one(raw, 26) && !one(raw, 25) && one(raw, 24) && !one(raw, 22) && !one(raw, 21)
            && one(raw, 20) && one(raw, 19) && one(raw, 18) && one(raw, 17) && one(raw, 16)),
        (raw & 0xFF7F_0000 == 0xF93F_0000) <==> (one(raw, 31) && one(raw, 30) && one(raw, 29)
            && one(raw, 28) && one(raw, 27)
            && !one(raw, 26) && !one(raw, 25) && one(raw, 24) && !one(raw, 22) && one(raw, 21)
            && one(raw, 20) && one(raw, 19) && one(raw, 18) && one(raw, 17) && one(raw, 16)),
        (raw & 0xFF7F_F000 == 0xF81F_F000) <==> (one(raw, 31) && one(raw, 30) && one(raw, 29)
            && one(raw, 28) && one(raw, 27)
            && !one(raw, 26) && !one(raw, 25) && !one(raw, 24) && !one(raw, 22) && !one(raw, 21)
            && one(raw, 20) && one(raw, 19) && one(raw, 18) && one(raw, 17) && one(raw, 16)
            && one(raw, 15) && one(raw, 14) && one(raw, 13) && one(raw, 12)),
        (raw & 0xFF7F_F000 == 0xF83F_F000) <==> (one(raw, 31) && one(raw, 30) && one(raw, 29)
            && one(raw, 28) && one(raw, 27)
            && !one(raw, 26) && !one(raw, 25) && !one(raw, 24) && !one(raw, 22) && one(raw, 21)
            && one(raw, 20) && one(raw, 19) && one(raw, 18) && one(raw, 17) && one(raw, 16)
            && one(raw, 15) && one(raw, 14) && one(raw, 13) && one(raw, 12)),
        (raw & 0xFF7F_F000 == 0xF91F_F000) <==> (one(raw, 31) && one(raw, 30) && one(raw, 29)
            && one(raw, 28) && one(raw, 27)
            && !one(raw, 26) && !one(raw, 25) && one(raw, 24) && !one(raw, 22) && !one(raw, 21)
            && one(raw, 20) && one(raw, 19) && one(raw, 18) && one(raw, 17) && one(raw, 16)
            && one(raw, 15) && one(raw, 14) && one(raw, 13) && one(raw, 12)),
        (raw & 0xFF7F_F000 == 0xF93F_F000) <==> (one(raw, 31) && one(raw, 30) && one(raw, 29)
            && one(raw, 28) && one(raw, 27)
            && !one(raw, 26) && !one(raw, 25) && one(raw, 24) && !one(raw, 22) && one(raw, 21)
            && one(raw, 20) && one(raw, 19) && one(raw, 18) && one(raw, 17) && one(raw, 16)
            && one(raw, 15) && one(raw, 14) && one(raw, 13) && one(raw, 12)),
        (raw & 0xFF80_0000 == 0xFB00_0000) <==> (one(raw, 31) && one(raw, 30) && one(raw, 29)
            && one(raw, 28) && one(raw, 27)
            && !one(raw, 26) && one(raw, 25) && one(raw, 24) && !one(raw, 23)),
        (raw & 0xFF80_0000 == 0xFB80_0000) <==> (one(raw, 31) && one(raw, 30) && one(raw, 29)
            && one(raw, 28) && one(raw, 27)
            && !one(raw, 26) && one(raw, 25) && one(raw, 24) && one(raw, 23)),
        (raw & 0xFFD0_0000 == 0xE890_0000) <==> (one(raw, 31) && one(raw, 30) && one(raw, 29)
            && !one(raw, 28) && one(raw, 27)
            && !one(raw, 26) && !one(raw, 25) && !one(raw, 24) && one(raw, 23) && !one(raw, 22)
            && one(raw, 20)),
        (raw & 0xFFD0_0000 == 0xE910_0000) <==> (one(raw, 31) && one(raw, 30) && one(raw, 29)
            && !one(raw, 28) && one(raw, 27)
            && !one(raw, 26) && !one(raw, 25) && one(raw, 24) && !one(raw, 23) && !one(raw, 22)
            && one(raw, 20)),
        (raw & 0xFFD0_8000 == 0xE880_0000) <==> (one(raw, 31) && one(raw, 30) && one(raw, 29)
            && !one(raw, 28) && one(raw, 27)
            && !one(raw, 26) && !one(raw, 25) && !one(raw, 24) && one(raw, 23) && !one(raw, 22)
            && !one(raw, 20) && !one(raw, 15)),
        (raw & 0xFFD0_8000 == 0xE900_0000) <==> (one(raw, 31) && one(raw, 30) && one(raw, 29)
            && !one(raw, 28) && one(raw, 27)
            && !one(raw, 26) && !one(raw, 25) && one(raw, 24) && !one(raw, 23) && !one(raw, 22)
            && !one(raw, 20) && !one(raw, 15)),
        (raw & 0xFFD0_8020 == 0xF300_0000) <==> (one(raw, 31) && one(raw, 30) && one(raw, 29)
            && one(raw, 28) && !one(raw, 27)
            && !one(raw, 26) && one(raw, 25) && one(raw, 24) && !one(raw, 23) && !one(raw, 22)
            && !one(raw, 20) && !one(raw, 15) && !one(raw, 5)),
        (raw & 0xFFD0_8020 == 0xF380_0000) <==> (one(raw, 31) && one(raw, 30) && one(raw, 29)
            && one(raw, 28) && !one(raw, 27)
            && !one(raw, 26) && one(raw, 25) && one(raw, 24) && one(raw, 23) && !one(raw, 22)
            && !one(raw, 20) && !one(raw, 15) && !one(raw, 5)),
        (raw & 0xFFD0_F000 == 0xF890_F000) <==> (one(raw, 31) && one(raw, 30) && one(raw, 29)
            && one(raw, 28) && one(raw, 27)
            && !one(raw, 26) && !one(raw, 25) && !one(raw, 24) && one(raw, 23) && !one(raw, 22)
            && one(raw, 20) && one(raw, 15) && one(raw, 14) && one(raw, 13) && one(raw, 12)),
        (raw & 0xFFD0_FF00 == 0xF810_FC00) <==> (one(raw, 31) && one(raw, 30) && one(raw, 29)
            && one(raw, 28) && one(raw, 27)
            && !one(raw, 26) && !one(raw, 25) && !one(raw, 24) && !one(raw, 23) && !one(raw, 22)
            && one(raw, 20) && one(raw, 15) && one(raw, 14) && one(raw, 13) && one(raw, 12)
            && one(raw, 11) && one(raw, 10) && !one(raw, 9) && !one(raw, 8)),
        (raw & 0xFFD0_FFC0 == 0xF810_F000) <==> (one(raw, 31) && one(raw, 30) && one(raw, 29)
            && one(raw, 28) && one(raw, 27)
            && !one(raw, 26) && !one(raw, 25) && !one(raw, 24) && !one(raw, 23) && !one(raw, 22)
            && one(raw, 20) && one(raw, 15) && one(raw, 14) && one(raw, 13) && one(raw, 12)
            && !one(raw, 11) && !one(raw, 10) && !one(raw, 9) && !one(raw, 8) && !one(raw, 7)
            && !one(raw, 6)),
        (raw & 0xFFE0_8000 == 0xEA00_0000) <==> (one(raw, 31) && one(raw, 30) && one(raw, 29)
            && !one(raw, 28) && one(raw, 27)
            && !one(raw, 26) && one(raw, 25) && !one(raw, 24) && !one(raw, 23) && !one(raw, 22)
            && !one(raw, 21) && !one(raw, 15)),
        (raw & 0xFFE0_8000 == 0xEA20_0000) <==> (one(raw, 31) && one(raw, 30) && one(raw, 29)
            && !one(raw, 28) && one(raw, 27)
            && !one(raw, 26) && one(raw, 25) && !one(raw, 24) && !one(raw, 23) && !one(raw, 22)
            && one(raw, 21) && !one(raw, 15)),
        (raw & 0xFFE0_8000 == 0xEA40_0000) <==> (one(raw, 31) && one(raw, 30) && one(raw, 29)
            && !one(raw, 28) && one(raw, 27)
            && !one(raw, 26) && one(raw, 25) && !one(raw, 24) && !one(raw, 23) && one(raw, 22)
            && !one(raw, 21) && !one(raw, 15)),
        (raw & 0xFFE0_8000 == 0xEA60_0000) <==> (one(raw, 31) && one(raw, 30) && one(raw, 29)
            && !one(raw, 28) && one(raw, 27)
            && !one(raw, 26) && one(raw, 25) && !one(raw, 24) && !one(raw, 23) && one(raw, 22)
            && one(raw, 21) && !one(raw, 15)),
        (raw & 0xFFE0_8000 == 0xEA80_0000) <==> (one(raw, 31) && one(raw, 30) && one(raw, 29)
            && !one(raw, 28) && one(raw, 27)
            && !one(raw, 26) && one(raw, 25) && !one(raw, 24) && one(raw, 23) && !one(raw, 22)
            && !one(raw, 21) && !one(raw, 15)),
        (raw & 0xFFE0_8000 == 0xEB00_0000) <==> (one(raw, 31) && one(raw, 30) && one(raw, 29)
            && !one(raw, 28) && one(raw, 27)
            && !one(raw, 26) && one(raw, 25) && one(raw, 24) && !one(raw, 23) && !one(raw, 22)
            && !one(raw, 21) && !one(raw, 15)),
        (raw & 0xFFE0_8000 == 0xEB40_0000) <==> (one(raw, 31) && one(raw, 30) && one(raw, 29)
            && !one(raw, 28) && one(raw, 27)
            && !one(raw, 26) && one(raw, 25) && one(raw, 24) && !one(raw, 23) && one(raw, 22)
            && !one(raw, 21) && !one(raw, 15)),
        (raw & 0xFFE0_8000 == 0xEB60_0000) <==> (one(raw, 31) && one(raw, 30) && one(raw, 29)
            && !one(raw, 28) && one(raw, 27)
            && !one(raw, 26) && one(raw, 25) && one(raw, 24) && !one(raw, 23) && one(raw, 22)
            && one(raw, 21) && !one(raw, 15)),
        (raw & 0xFFE0_8000 == 0xEBA0_0000) <==> (one(raw, 31) && one(raw, 30) && one(raw, 29)
            && !one(raw, 28) && one(raw, 27)
            && !one(raw, 26) && one(raw, 25) && one(raw, 24) && one(raw, 23) && !one(raw, 22)
            && one(raw, 21) && !one(raw, 15)),
        (raw & 0xFFE0_8000 == 0xEBC0_0000) <==> (one(raw, 31) && one(raw, 30) && one(raw, 29)
            && !one(raw, 28) && one(raw, 27)
            && !one(raw, 26) && one(raw, 25) && one(raw, 24) && one(raw, 23) && one(raw, 22)
            && !one(raw, 21) && !one(raw, 15)),
        (raw & 0xFFE0_F0F0 == 0xFA00_F000) <==> (one(raw, 31) && one(raw, 30) && one(raw, 29)
            && one(raw, 28) && one(raw, 27)
            && !one(raw, 26) && one(raw, 25) && !one(raw, 24) && !one(raw, 23) && !one(raw, 22)
            && !one(raw, 21) && one(raw, 15) && one(raw, 14) && one(raw, 13) && one(raw, 12)
            && !one(raw, 7) && !one(raw, 6) && !one(raw, 5) && !one(raw, 4)),
        (raw & 0xFFE0_F0F0 == 0xFA20_F000) <==> (one(raw, 31) && one(raw, 30) && one(raw, 29)
            && one(raw, 28) && one(raw, 27)
            && !one(raw, 26) && one(raw, 25) && !one(raw, 24) && !one(raw, 23) && !one(raw, 22)
            && one(raw, 21) && one(raw, 15) && one(raw, 14) && one(raw, 13) && one(raw, 12)
            && !one(raw, 7) && !one(raw, 6) && !one(raw, 5) && !one(raw, 4)),
        (raw & 0xFFE0_F0F0 == 0xFA40_F000) <==> (one(raw, 31) && one(raw, 30) && one(raw, 29)
            && one(raw, 28) && one(raw, 27)
            && !one(raw, 26) && one(raw, 25) && !one(raw, 24) && !one(raw, 23) && one(raw, 22)
            && !one(raw, 21) && one(raw, 15) && one(raw, 14) && one(raw, 13) && one(raw, 12)
            && !one(raw, 7) && !one(raw, 6) && !one(raw, 5) && !one(raw, 4)),
        (raw & 0xFFE0_F0F0 == 0xFA60_F000) <==> (one(raw, 31) && one(raw, 30) && one(raw, 29)
            && one(raw, 28) && one(raw, 27)
            && !one(raw, 26) && one(raw, 25) && !one(raw, 24) && !one(raw, 23) && one(raw, 22)
            && one(raw, 21) && one(raw, 15) && one(raw, 14) && one(raw, 13) && one(raw, 12)
            && !one(raw, 7) && !one(raw, 6) && !one(raw, 5) && !one(raw, 4)),
        (raw & 0xFFE0_F0FF == 0xF380_8000) <==> (one(raw, 31) && one(raw, 30) && one(raw, 29)
            && one(raw, 28) && !one(raw, 27)
            && !one(raw, 26) && one(raw, 25) && one(raw, 24) && one(raw, 23) && !one(raw, 22)
            && !one(raw, 21) && one(raw, 15) && !one(raw, 14) && !one(raw, 13) && !one(raw, 12)
            && !one(raw, 7) && !one(raw, 6) && !one(raw, 5) && !one(raw, 4) && !one(raw, 3)
            && !one(raw, 2) && !one(raw, 1) && !one(raw, 0)),
        (raw & 0xFFEF_8000 == 0xEA4F_0000) <==> (one(raw, 31) && one(raw, 30) && one(raw, 29)
            && !one(raw, 28) && one(raw, 27)
            && !one(raw, 26) && one(raw, 25) && !one(raw, 24) && !one(raw, 23) && one(raw, 22)
            && !one(raw, 21) && one(raw, 19) && one(raw, 18) && one(raw, 17) && one(raw, 16)
            && !one(raw, 15)),
        (raw & 0xFFEF_8000 == 0xEA6F_0000) <==> (one(raw, 31) && one(raw, 30) && one(raw, 29)
            && !one(raw, 28) && one(raw, 27)
            && !one(raw, 26) && one(raw, 25) && !one(raw, 24) && !one(raw, 23) && one(raw, 22)
            && one(raw, 21) && one(raw, 19) && one(raw, 18) && one(raw, 17) && one(raw, 16)
            && !one(raw, 15)),
        (raw & 0xFFEF_F0FF == 0xF3EF_8000) <==> (one(raw, 31) && one(raw, 30) && one(raw, 29)
            && one(raw, 28) && !one(raw, 27)
            && !one(raw, 26) && one(raw, 25) && one(raw, 24) && one(raw, 23) && one(raw, 22)
            && one(raw, 21) && one(raw, 19) && one(raw, 18) && one(raw, 17) && one(raw, 16)
            && one(raw, 15) && !one(raw, 14) && !one(raw, 13) && !one(raw, 12) && !one(raw, 7)
            && !one(raw, 6) && !one(raw, 5) && !one(raw, 4) && !one(raw, 3) && !one(raw, 2)
            && !one(raw, 1) && !one(raw, 0)),
        (raw & 0xFFF0_0000 == 0xE840_0000) <==> (one(raw, 31) && one(raw, 30) && one(raw, 29)
            && !one(raw, 28) && one(raw, 27)
            && !one(raw, 26) && !one(raw, 25) && !one(raw, 24) && !one(raw, 23) && one(raw, 22)
            && !one(raw, 21) && !one(raw, 20)),
        (raw & 0xFFF0_0000 == 0xF880_0000) <==> (one(raw, 31) && one(raw, 30) && one(raw, 29)
            && one(raw, 28) && one(raw, 27)
            && !one(raw, 26) && !one(raw, 25) && !one(raw, 24) && one(raw, 23) && !one(raw, 22)
            && !one(raw, 21) && !one(raw, 20)),
        (raw & 0xFFF0_0000 == 0xF890_0000) <==> (one(raw, 31) && one(raw, 30) && one(raw, 29)
            && one(raw, 28) && one(raw, 27)
            && !one(raw, 26) && !one(raw, 25) && !one(raw, 24) && one(raw, 23) && !one(raw, 22)
            && !one(raw, 21) && one(raw, 20)),
        (raw & 0xFFF0_0000 == 0xF8A0_0000) <==> (one(raw, 31) && one(raw, 30) && one(raw, 29)
            && one(raw, 28) && one(raw, 27)
            && !one(raw, 26) && !one(raw, 25) && !one(raw, 24) && one(raw, 23) && !one(raw, 22)
            && one(raw, 21) && !one(raw, 20)),
        (raw & 0xFFF0_0000 == 0xF8B0_0000) <==> (one(raw, 31) && one(raw, 30) && one(raw, 29)
            && one(raw, 28) && one(raw, 27)
            && !one(raw, 26) && !one(raw, 25) && !one(raw, 24) && one(raw, 23) && !one(raw, 22)
            && one(raw, 21) && one(raw, 20)),
        (raw & 0xFFF0_0000 == 0xF8C0_0000) <==> (one(raw, 31) && one(raw, 30) && one(raw, 29)
            && one(raw, 28) && one(raw, 27)
            && !one(raw, 26) && !one(raw, 25) && !one(raw, 24) && one(raw, 23) && one(raw, 22)
            && !one(raw, 21) && !one(raw, 20)),
        (raw & 0xFFF0_0000 == 0xF8D0_0000) <==> (one(raw, 31) && one(raw, 30) && one(raw, 29)
            && one(raw, 28) && one(raw, 27)
            && !one(raw, 26) && !one(raw, 25) && !one(raw, 24) && one(raw, 23) && one(raw, 22)
            && !one(raw, 21) && one(raw, 20)),
        (raw & 0xFFF0_0000 == 0xF990_0000) <==> (one(raw, 31) && one(raw, 30) && one(raw, 29)
            && one(raw, 28) && one(raw, 27)
            && !one(raw, 26) && !one(raw, 25) && one(raw, 24) && one(raw, 23) && !one(raw, 22)
            && !one(raw, 21) && one(raw, 20)),
        (raw & 0xFFF0_0000 == 0xF9B0_0000) <==> (one(raw, 31) && one(raw, 30) && one(raw, 29)
            && one(raw, 28) && one(raw, 27)
            && !one(raw, 26) && !one(raw, 25) && one(raw, 24) && one(raw, 23) && !one(raw, 22)
            && one(raw, 21) && one(raw, 20)),
        (raw & 0xFFF0_00C0 == 0xFB10_0000) <==> (one(raw, 31) && one(raw, 30) && one(raw, 29)
            && one(raw, 28) && one(raw, 27)
            && !one(raw, 26) && one(raw, 25) && one(raw, 24) && !one(raw, 23) && !one(raw, 22)
            && !one(raw, 21) && one(raw, 20) && !one(raw, 7) && !one(raw, 6)),
        (raw & 0xFFF0_00C0 == 0xFBC0_0080) <==> (one(raw, 31) && one(raw, 30) && one(raw, 29)
            && one(raw, 28) && one(raw, 27)
            && !one(raw, 26) && one(raw, 25) && one(raw, 24) && one(raw, 23) && one(raw, 22)
            && !one(raw, 21) && !one(raw, 20) && one(raw, 7) && !one(raw, 6)),
        (raw & 0xFFF0_00E0 == 0xFB20_0000) <==> (one(raw, 31) && one(raw, 30) && one(raw, 29)
            && one(raw, 28) && one(raw, 27)
            && !one(raw, 26) && one(raw, 25) && one(raw, 24) && !one(raw, 23) && !one(raw, 22)
            && one(raw, 21) && !one(raw, 20) && !one(raw, 7) && !one(raw, 6) && !one(raw, 5)),
        (raw & 0xFFF0_00E0 == 0xFB30_0000) <==> (one(raw, 31) && one(raw, 30) && one(raw, 29)
            && one(raw, 28) && one(raw, 27)
            && !one(raw, 26) && one(raw, 25) && one(raw, 24) && !one(raw, 23) && !one(raw, 22)
            && one(raw, 21) && one(raw, 20) && !one(raw, 7) && !one(raw, 6) && !one(raw, 5)),
        (raw & 0xFFF0_00E0 == 0xFB40_0000) <==> (one(raw, 31) && one(raw, 30) && one(raw, 29)
            && one(raw, 28) && one(raw, 27)
            && !one(raw, 26) && one(raw, 25) && one(raw, 24) && !one(raw, 23) && one(raw, 22)
            && !one(raw, 21) && !one(raw, 20) && !one(raw, 7) && !one(raw, 6) && !one(raw, 5)),
        (raw & 0xFFF0_00E0 == 0xFB50_0000) <==> (one(raw, 31) && one(raw, 30) && one(raw, 29)
            && one(raw, 28) && one(raw, 27)
            && !one(raw, 26) && one(raw, 25) && one(raw, 24) && !one(raw, 23) && one(raw, 22)
            && !one(raw, 21) && one(raw, 20) && !one(raw, 7) && !one(raw, 6) && !one(raw, 5)),
        (raw & 0xFFF0_00E0 == 0xFB60_0000) <==> (one(raw, 31) && one(raw, 30) && one(raw, 29)
            && one(raw, 28) && one(raw, 27)
            && !one(raw, 26) && one(raw, 25) && one(raw, 24) && !one(raw, 23) && one(raw, 22)
            && one(raw, 21) && !one(raw, 20) && !one(raw, 7) && !one(raw, 6) && !one(raw, 5)),
        (raw & 0xFFF0_00E0 == 0xFBC0_00C0) <==> (one(raw, 31) && one(raw, 30) && one(raw, 29)
            && one(raw, 28) && one(raw, 27)
            && !one(raw, 26) && one(raw, 25) && one(raw, 24) && one(raw, 23) && one(raw, 22)
            && !one(raw, 21) && !one(raw, 20) && one(raw, 7) && one(raw, 6) && !one(raw, 5)),
        (raw & 0xFFF0_00E0 == 0xFBD0_00C0) <==> (one(raw, 31) && one(raw, 30) && one(raw, 29)
            && one(raw, 28) && one(raw, 27)
            && !one(raw, 26) && one(raw, 25) && one(raw, 24) && one(raw, 23) && one(raw, 22)
            && !one(raw, 21) && one(raw, 20) && one(raw, 7) && one(raw, 6) && !one(raw, 5)),
        (raw & 0xFFF0_00F0 == 0xE8C0_0070) <==> (one(raw, 31) && one(raw, 30) && one(raw, 29)
            && !one(raw, 28) && one(raw, 27)
            && !one(raw, 26) && !one(raw, 25) && !one(raw, 24) && one(raw, 23) && one(raw, 22)
            && !one(raw, 21) && !one(raw, 20) && !one(raw, 7) && one(raw, 6) && one(raw, 5)
            && one(raw, 4)),
        (raw & 0xFFF0_00F0 == 0xFB00_0000) <==> (one(raw, 31) && one(raw, 30) && one(raw, 29)
            && one(raw, 28) && one(raw, 27)
            && !one(raw, 26) && one(raw, 25) && one(raw, 24) && !one(raw, 23) && !one(raw, 22)
            && !one(raw, 21) && !one(raw, 20) && !one(raw, 7) && !one(raw, 6) && !one(raw, 5)
            && !one(raw, 4)),
        (raw & 0xFFF0_00F0 == 0xFB00_0010) <==> (one(raw, 31) && one(raw, 30) && one(raw, 29)
            && one(raw, 28) && one(raw, 27)
            && !one(raw, 26) && one(raw, 25) && one(raw, 24) && !one(raw, 23) && !one(raw, 22)
            && !one(raw, 21) && !one(raw, 20) && !one(raw, 7) && !one(raw, 6) && !one(raw, 5)
            && one(raw, 4)),
        (raw & 0xFFF0_00F0 == 0xFB70_0000) <==> (one(raw, 31) && one(raw, 30) && one(raw, 29)
            && one(raw, 28) && one(raw, 27)
            && !one(raw, 26) && one(raw, 25) && one(raw, 24) && !one(raw, 23) && one(raw, 22)
            && one(raw, 21) && one(raw, 20) && !one(raw, 7) && !one(raw, 6) && !one(raw, 5)
            && !one(raw, 4)),
        (raw & 0xFFF0_00F0 == 0xFB80_0000) <==> (one(raw, 31) && one(raw, 30) && one(raw, 29)
            && one(raw, 28) && one(raw, 27)
            && !one(raw, 26) && one(raw, 25) && one(raw, 24) && one(raw, 23) && !one(raw, 22)
            && !one(raw, 21) && !one(raw, 20) && !one(raw, 7) && !one(raw, 6) && !one(raw, 5)
            && !one(raw, 4)),
        (raw & 0xFFF0_00F0 == 0xFBA0_0000) <==> (one(raw, 31) && one(raw, 30) && one(raw, 29)
            && one(raw, 28) && one(raw, 27)
            && !one(raw, 26) && one(raw, 25) && one(raw, 24) && one(raw, 23) && !one(raw, 22)
            && one(raw, 21) && !one(raw, 20) && !one(raw, 7) && !one(raw, 6) && !one(raw, 5)
            && !one(raw, 4)),
        (raw & 0xFFF0_00F0 == 0xFBC0_0000) <==> (one(raw, 31) && one(raw, 30) && one(raw, 29)
            && one(raw, 28) && one(raw, 27)
            && !one(raw, 26) && one(raw, 25) && one(raw, 24) && one(raw, 23) && one(raw, 22)
            && !one(raw, 21) && !one(raw, 20) && !one(raw, 7) && !one(raw, 6) && !one(raw, 5)
            && !one(raw, 4)),
        (raw & 0xFFF0_00F0 == 0xFBE0_0000) <==> (one(raw, 31) && one(raw, 30) && one(raw, 29)
            && one(raw, 28) && one(raw, 27)
            && !one(raw, 26) && one(raw, 25) && one(raw, 24) && one(raw, 23) && one(raw, 22)
            && one(raw, 21) && !one(raw, 20) && !one(raw, 7) && !one(raw, 6) && !one(raw, 5)
            && !one(raw, 4)),
        (raw & 0xFFF0_00F0 == 0xFBE0_0060) <==> (one(raw, 31) && one(raw, 30) && one(raw, 29)
            && one(raw, 28) && one(raw, 27)
            && !one(raw, 26) && one(raw, 25) && one(raw, 24) && one(raw, 23) && one(raw, 22)
            && one(raw, 21) && !one(raw, 20) && !one(raw, 7) && one(raw, 6) && one(raw, 5)
            && !one(raw, 4)),
        (raw & 0xFFF0_00FF == 0xE8D0_007F) <==> (one(raw, 31) && one(raw, 30) && one(raw, 29)
            && !one(raw, 28) && one(raw, 27)
            && !one(raw, 26) && !one(raw, 25) && !one(raw, 24) && one(raw, 23) && one(raw, 22)
            && !one(raw, 21) && one(raw, 20) && !one(raw, 7) && one(raw, 6) && one(raw, 5)
            && one(raw, 4) && one(raw, 3) && one(raw, 2) && one(raw, 1) && one(raw, 0)),
        (raw & 0xFFF0_0800 == 0xF810_0000) <==> (one(raw, 31) && one(raw, 30) && one(raw, 29)
            && one(raw, 28) && one(raw, 27)
            && !one(raw, 26) && !one(raw, 25) && !one(raw, 24) && !one(raw, 23) && !one(raw, 22)
            && !one(raw, 21) && one(raw, 20) && !one(raw, 11)),
        (raw & 0xFFF0_0800 == 0xF810_0800) <==> (one(raw, 31) && one(raw, 30) && one(raw, 29)
            && one(raw, 28) && one(raw, 27)
            && !one(raw, 26) && !one(raw, 25) && !one(raw, 24) && !one(raw, 23) && !one(raw, 22)
            && !one(raw, 21) && one(raw, 20) && one(raw, 11)),
        (raw & 0xFFF0_0800 == 0xF830_0000) <==> (one(raw, 31) && one(raw, 30) && one(raw, 29)
            && one(raw, 28) && one(raw, 27)
            && !one(raw, 26) && !one(raw, 25) && !one(raw, 24) && !one(raw, 23) && !one(raw, 22)
            && one(raw, 21) && one(raw, 20) && !one(raw, 11)),
        (raw & 0xFFF0_0800 == 0xF830_0800) <==> (one(raw, 31) && one(raw, 30) && one(raw, 29)
            && one(raw, 28) && one(raw, 27)
            && !one(raw, 26) && !one(raw, 25) && !one(raw, 24) && !one(raw, 23) && !one(raw, 22)
            && one(raw, 21) && one(raw, 20) && one(raw, 11)),
        (raw & 0xFFF0_0800 == 0xF850_0000) <==> (one(raw, 31) && one(raw, 30) && one(raw, 29)
            && one(raw, 28) && one(raw, 27)
            && !one(raw, 26) && !one(raw, 25) && !one(raw, 24) && !one(raw, 23) && one(raw, 22)
            && !one(raw, 21) && one(raw, 20) && !one(raw, 11)),
        (raw & 0xFFF0_0800 == 0xF850_0800) <==> (one(raw, 31) && one(raw, 30) && one(raw, 29)
            && one(raw, 28) && one(raw, 27)
            && !one(raw, 26) && !one(raw, 25) && !one(raw, 24) && !one(raw, 23) && one(raw, 22)
            && !one(raw, 21) && one(raw, 20) && one(raw, 11)),
        (raw & 0xFFF0_0800 == 0xF910_0000) <==> (one(raw, 31) && one(raw, 30) && one(raw, 29)
            && one(raw, 28) && one(raw, 27)
            && !one(raw, 26) && !one(raw, 25) && one(raw, 24) && !one(raw, 23) && !one(raw, 22)
            && !one(raw, 21) && one(raw, 20) && !one(raw, 11)),
        (raw & 0xFFF0_0800 == 0xF910_0800) <==> (one(raw, 31) && one(raw, 30) && one(raw, 29)
            && one(raw, 28) && one(raw, 27)
            && !one(raw, 26) && !one(raw, 25) && one(raw, 24) && !one(raw, 23) && !one(raw, 22)
            && !one(raw, 21) && one(raw, 20) && one(raw, 11)),
        (raw & 0xFFF0_0800 == 0xF930_0000) <==> (one(raw, 31) && one(raw, 30) && one(raw, 29)
            && one(raw, 28) && one(raw, 27)
            && !one(raw, 26) && !one(raw, 25) && one(raw, 24) && !one(raw, 23) && !one(raw, 22)
            && one(raw, 21) && one(raw, 20) && !one(raw, 11)),
        (raw & 0xFFF0_0800 == 0xF930_0800) <==> (one(raw, 31) && one(raw, 30) && one(raw, 29)
            && one(raw, 28) && one(raw, 27)
            && !one(raw, 26) && !one(raw, 25) && one(raw, 24) && !one(raw, 23) && !one(raw, 22)
            && one(raw, 21) && one(raw, 20) && one(raw, 11)),
        (raw & 0xFFF0_0900 == 0xF800_0900) <==> (one(raw, 31) && one(raw, 30) && one(raw, 29)
            && one(raw, 28) && one(raw, 27)
            && !one(raw, 26) && !one(raw, 25) && !one(raw, 24) && !one(raw, 23) && !one(raw, 22)
            && !one(raw, 21) && !one(raw, 20) && one(raw, 11) && one(raw, 8)),
        (raw & 0xFFF0_0900 == 0xF820_0900) <==> (one(raw, 31) && one(raw, 30) && one(raw, 29)
            && one(raw, 28) && one(raw, 27)
            && !one(raw, 26) && !one(raw, 25) && !one(raw, 24) && !one(raw, 23) && !one(raw, 22)
            && one(raw, 21) && !one(raw, 20) && one(raw, 11) && one(raw, 8)),
        (raw & 0xFFF0_0900 == 0xF840_0900) <==> (one(raw, 31) && one(raw, 30) && one(raw, 29)
            && one(raw, 28) && one(raw, 27)
            && !one(raw, 26) && !one(raw, 25) && !one(raw, 24) && !one(raw, 23) && one(raw, 22)
            && !one(raw, 21) && !one(raw, 20) && one(raw, 11) && one(raw, 8)),
        (raw & 0xFFF0_0F00 == 0xE850_0F00) <==> (one(raw, 31) && one(raw, 30) && one(raw, 29)
            && !one(raw, 28) && one(raw, 27)
            && !one(raw, 26) && !one(raw, 25) && !one(raw, 24) && !one(raw, 23) && one(raw, 22)
            && !one(raw, 21) && one(raw, 20) && one(raw, 11) && one(raw, 10) && one(raw, 9)
            && one(raw, 8)),
        (raw & 0xFFF0_0F00 == 0xF800_0C00) <==> (one(raw, 31) && one(raw, 30) && one(raw, 29)
            && one(raw, 28) && one(raw, 27)
            && !one(raw, 26) && !one(raw, 25) && !one(raw, 24) && !one(raw, 23) && !one(raw, 22)
            && !one(raw, 21) && !one(raw, 20) && one(raw, 11) && one(raw, 10) && !one(raw, 9)
            && !one(raw, 8)),
        (raw & 0xFFF0_0F00 == 0xF800_0E00) <==> (one(raw, 31) && one(raw, 30) && one(raw, 29)
            && one(raw, 28) && one(raw, 27)
            && !one(raw, 26) && !one(raw, 25) && !one(raw, 24) && !one(raw, 23) && !one(raw, 22)
            && !one(raw, 21) && !one(raw, 20) && one(raw, 11) && one(raw, 10) && one(raw, 9)
            && !one(raw, 8)),
        (raw & 0xFFF0_0F00 == 0xF810_0E00) <==> (one(raw, 31) && one(raw, 30) && one(raw, 29)
            && one(raw, 28) && one(raw, 27)
            && !one(raw, 26) && !one(raw, 25) && !one(raw, 24) && !one(raw, 23) && !one(raw, 22)
            && !one(raw, 21) && one(raw, 20) && one(raw, 11) && one(raw, 10) && one(raw, 9)
            && !one(raw, 8)),
        (raw & 0xFFF0_0F00 == 0xF820_0C00) <==> (one(raw, 31) && one(raw, 30) && one(raw, 29)
            && one(raw, 28) && one(raw, 27)
            && !one(raw, 26) && !one(raw, 25) && !one(raw, 24) && !one(raw, 23) && !one(raw, 22)
            && one(raw, 21) && !one(raw, 20) && one(raw, 11) && one(raw, 10) && !one(raw, 9)
            && !one(raw, 8)),
        (raw & 0xFFF0_0F00 == 0xF820_0E00) <==> (one(raw, 31) && one(raw, 30) && one(raw, 29)
            && one(raw, 28) && one(raw, 27)
            && !one(raw, 26) && !one(raw, 25) && !one(raw, 24) && !one(raw, 23) && !one(raw, 22)
            && one(raw, 21) && !one(raw, 20) && one(raw, 11) && one(raw, 10) && one(raw, 9)
            && !one(raw, 8)),
        (raw & 0xFFF0_0F00 == 0xF830_0E00) <==> (one(raw, 31) && one(raw, 30) && one(raw, 29)
            && one(raw, 28) && one(raw, 27)
            && !one(raw, 26) && !one(raw, 25) && !one(raw, 24) && !one(raw, 23) && !one(raw, 22)
            && one(raw, 21) && one(raw, 20) && one(raw, 11) && one(raw, 10) && one(raw, 9)
            && !one(raw, 8)),
        (raw & 0xFFF0_0F00 == 0xF840_0C00) <==> (one(raw, 31) && one(raw, 30) && one(raw, 29)
            && one(raw, 28) && one(raw, 27)
            && !one(raw, 26) && !one(raw, 25) && !one(raw, 24) && !one(raw, 23) && one(raw, 22)
            && !one(raw, 21) && !one(raw, 20) && one(raw, 11) && one(raw, 10) && !one(raw, 9)
            && !one(raw, 8)),
        (raw & 0xFFF0_0F00 == 0xF840_0E00) <==> (one(raw, 31) && one(raw, 30) && one(raw, 29)
            && one(raw, 28) && one(raw, 27)
            && !one(raw, 26) && !one(raw, 25) && !one(raw, 24) && !one(raw, 23) && one(raw, 22)
            && !one(raw, 21) && !one(raw, 20) && one(raw, 11) && one(raw, 10) && one(raw, 9)
            && !one(raw, 8)),
        (raw & 0xFFF0_0F00 == 0xF850_0E00) <==> (one(raw, 31) && one(raw, 30) && one(raw, 29)
            && one(raw, 28) && one(raw, 27)
            && !one(raw, 26) && !one(raw, 25) && !one(raw, 24) && !one(raw, 23) && one(raw, 22)
            && !one(raw, 21) && one(raw, 20) && one(raw, 11) && one(raw, 10) && one(raw, 9)
            && !one(raw, 8)),
        (raw & 0xFFF0_0F00 == 0xF910_0E00) <==> (one(raw, 31) && one(raw, 30) && one(raw, 29)
            && one(raw, 28) && one(raw, 27)
            && !one(raw, 26) && !one(raw, 25) && one(raw, 24) && !one(raw, 23) && !one(raw, 22)
            && !one(raw, 21) && one(raw, 20) && one(raw, 11) && one(raw, 10) && one(raw, 9)
            && !one(raw, 8)),
        (raw & 0xFFF0_0F00 == 0xF930_0E00) <==> (one(raw, 31) && one(raw, 30) && one(raw, 29)
            && one(raw, 28) && one(raw, 27)
            && !one(raw, 26) && !one(raw, 25) && one(raw, 24) && !one(raw, 23) && !one(raw, 22)
            && one(raw, 21) && one(raw, 20) && one(raw, 11) && one(raw, 10) && one(raw, 9)
            && !one(raw, 8)),
        (raw & 0xFFF0_0FC0 == 0xF800_0000) <==> (one(raw, 31) && one(raw, 30) && one(raw, 29)
            && one(raw, 28) && one(raw, 27)
            && !one(raw, 26) && !one(raw, 25) && !one(raw, 24) && !one(raw, 23) && !one(raw, 22)
            && !one(raw, 21) && !one(raw, 20) && !one(raw, 11) && !one(raw, 10) && !one(raw, 9)
            && !one(raw, 8) && !one(raw, 7) && !one(raw, 6)),
        (raw & 0xFFF0_0FC0 == 0xF820_0000) <==> (one(raw, 31) && one(raw, 30) && one(raw, 29)
            && one(raw, 28) && one(raw, 27)
            && !one(raw, 26) && !one(raw, 25) && !one(raw, 24) && !one(raw, 23) && !one(raw, 22)
            && one(raw, 21) && !one(raw, 20) && !one(raw, 11) && !one(raw, 10) && !one(raw, 9)
            && !one(raw, 8) && !one(raw, 7) && !one(raw, 6)),
        (raw & 0xFFF0_0FC0 == 0xF840_0000) <==> (one(raw, 31) && one(raw, 30) && one(raw, 29)
            && one(raw, 28) && one(raw, 27)
            && !one(raw, 26) && !one(raw, 25) && !one(raw, 24) && !one(raw, 23) && one(raw, 22)
            && !one(raw, 21) && !one(raw, 20) && !one(raw, 11) && !one(raw, 10) && !one(raw, 9)
            && !one(raw, 8) && !one(raw, 7) && !one(raw, 6)),
        (raw & 0xFFF0_0FF0 == 0xE8C0_0F40) <==> (one(raw, 31) && one(raw, 30) && one(raw, 29)
            && !one(raw, 28) && one(raw, 27)
            && !one(raw, 26) && !one(raw, 25) && !one(raw, 24) && one(raw, 23) && one(raw, 22)
            && !one(raw, 21) && !one(raw, 20) && one(raw, 11) && one(raw, 10) && one(raw, 9)
            && one(raw, 8) && !one(raw, 7) && one(raw, 6) && !one(raw, 5) && !one(raw, 4)),
        (raw & 0xFFF0_0FF0 == 0xE8C0_0F50) <==> (one(raw, 31) && one(raw, 30) && one(raw, 29)
            && !one(raw, 28) && one(raw, 27)
            && !one(raw, 26) && !one(raw, 25) && !one(raw, 24) && one(raw, 23) && one(raw, 22)
            && !one(raw, 21) && !one(raw, 20) && one(raw, 11) && one(raw, 10) && one(raw, 9)
            && one(raw, 8) && !one(raw, 7) && one(raw, 6) && !one(raw, 5) && one(raw, 4)),
        (raw & 0xFFF0_0FFF == 0xE8C0_0FAF) <==> (one(raw, 31) && one(raw, 30) && one(raw, 29)
            && !one(raw, 28) && one(raw, 27)
            && !one(raw, 26) && !one(raw, 25) && !one(raw, 24) && one(raw, 23) && one(raw, 22)
            && !one(raw, 21) && !one(raw, 20) && one(raw, 11) && one(raw, 10) && one(raw, 9)
            && one(raw, 8) && one(raw, 7) && !one(raw, 6) && one(raw, 5) && !one(raw, 4)
            && one(raw, 3) && one(raw, 2) && one(raw, 1) && one(raw, 0)),
        (raw & 0xFFF0_0FFF == 0xE8D0_0F4F) <==> (one(raw, 31) && one(raw, 30) && one(raw, 29)
            && !one(raw, 28) && one(raw, 27)
            && !one(raw, 26) && !one(raw, 25) && !one(raw, 24) && one(raw, 23) && one(raw, 22)
            && !one(raw, 21) && one(raw, 20) && one(raw, 11) && one(raw, 10) && one(raw, 9)
            && one(raw, 8) && !one(raw, 7) && one(raw, 6) && !one(raw, 5) && !one(raw, 4)
            && one(raw, 3) && one(raw, 2) && one(raw, 1) && one(raw, 0)),
        (raw & 0xFFF0_0FFF == 0xE8D0_0F5F) <==> (one(raw, 31) && one(raw, 30) && one(raw, 29)
            && !one(raw, 28) && one(raw, 27)
            && !one(raw, 26) && !one(raw, 25) && !one(raw, 24) && one(raw, 23) && one(raw, 22)
            && !one(raw, 21) && one(raw, 20) && one(raw, 11) && one(raw, 10) && one(raw, 9)
            && one(raw, 8) && !one(raw, 7) && one(raw, 6) && !one(raw, 5) && one(raw, 4)
            && one(raw, 3) && one(raw, 2) && one(raw, 1) && one(raw, 0)),
        (raw & 0xFFF0_0FFF == 0xE8D0_0FAF) <==> (one(raw, 31) && one(raw, 30) && one(raw, 29)
            && !one(raw, 28) && one(raw, 27)
            && !one(raw, 26) && !one(raw, 25) && !one(raw, 24) && one(raw, 23) && one(raw, 22)
            && !one(raw, 21) && one(raw, 20) && one(raw, 11) && one(raw, 10) && one(raw, 9)
            && one(raw, 8) && one(raw, 7) && !one(raw, 6) && one(raw, 5) && !one(raw, 4)
            && one(raw, 3) && one(raw, 2) && one(raw, 1) && one(raw, 0)),
        (raw & 0xFFF0_8010 == 0xEAC0_0000) <==> (one(raw, 31) && one(raw, 30) && one(raw, 29)
            && !one(raw, 28) && one(raw, 27)
            && !one(raw, 26) && one(raw, 25) && !one(raw, 24) && one(raw, 23) && one(raw, 22)
            && !one(raw, 21) && !one(raw, 20) && !one(raw, 15) && !one(raw, 4)),
        (raw & 0xFFF0_8020 == 0xF340_0000) <==> (one(raw, 31) && one(raw, 30) && one(raw, 29)
            && one(raw, 28) && !one(raw, 27)
            && !one(raw, 26) && one(raw, 25) && one(raw, 24) && !one(raw, 23) && one(raw, 22)
            && !one(raw, 21) && !one(raw, 20) && !one(raw, 15) && !one(raw, 5)),
        (raw & 0xFFF0_8020 == 0xF360_0000) <==> (one(raw, 31) && one(raw, 30) && one(raw, 29)
            && one(raw, 28) && !one(raw, 27)
            && !one(raw, 26) && one(raw, 25) && one(raw, 24) && !one(raw, 23) && one(raw, 22)
            && one(raw, 21) && !one(raw, 20) && !one(raw, 15) && !one(raw, 5)),
        (raw & 0xFFF0_8020 == 0xF3C0_0000) <==> (one(raw, 31) && one(raw, 30) && one(raw, 29)
            && one(raw, 28) && !one(raw, 27)
            && !one(raw, 26) && one(raw, 25) && one(raw, 24) && one(raw, 23) && one(raw, 22)
            && !one(raw, 21) && !one(raw, 20) && !one(raw, 15) && !one(raw, 5)),
        (raw & 0xFFF0_8F00 == 0xEA10_0F00) <==> (one(raw, 31) && one(raw, 30) && one(raw, 29)
            && !one(raw, 28) && one(raw, 27)
            && !one(raw, 26) && one(raw, 25) && !one(raw, 24) && !one(raw, 23) && !one(raw, 22)
            && !one(raw, 21) && one(raw, 20) && !one(raw, 15) && one(raw, 11) && one(raw, 10)
            && one(raw, 9) && one(raw, 8)),
        (raw & 0xFFF0_8F00 == 0xEA90_0F00) <==> (one(raw, 31) && one(raw, 30) && one(raw, 29)
            && !one(raw, 28) && one(raw, 27)
            && !one(raw, 26) && one(raw, 25) && !one(raw, 24) && one(raw, 23) && !one(raw, 22)
            && !one(raw, 21) && one(raw, 20) && !one(raw, 15) && one(raw, 11) && one(raw, 10)
            && one(raw, 9) && one(raw, 8)),
        (raw & 0xFFF0_8F00 == 0xEB10_0F00) <==> (one(raw, 31) && one(raw, 30) && one(raw, 29)
            && !one(raw, 28) && one(raw, 27)
            && !one(raw, 26) && one(raw, 25) && one(raw, 24) && !one(raw, 23) && !one(raw, 22)
            && !one(raw, 21) && one(raw, 20) && !one(raw, 15) && one(raw, 11) && one(raw, 10)
            && one(raw, 9) && one(raw, 8)),
        (raw & 0xFFF0_8F00 == 0xEBB0_0F00) <==> (one(raw, 31) && one(raw, 30) && one(raw, 29)
            && !one(raw, 28) && one(raw, 27)
            && !one(raw, 26) && one(raw, 25) && one(raw, 24) && one(raw, 23) && !one(raw, 22)
            && one(raw, 21) && one(raw, 20) && !one(raw, 15) && one(raw, 11) && one(raw, 10)
            && one(raw, 9) && one(raw, 8)),
        (raw & 0xFFF0_F000 == 0xF7F0_A000) <==> (one(raw, 31) && one(raw, 30) && one(raw, 29)
            && one(raw, 28) && !one(raw, 27)
            && one(raw, 26) && one(raw, 25) && one(raw, 24) && one(raw, 23) && one(raw, 22)
            && one(raw, 21) && one(raw, 20) && one(raw, 15) && !one(raw, 14) && one(raw, 13)
            && !one(raw, 12)),
        (raw & 0xFFF0_F000 == 0xF990_F000) <==> (one(raw, 31) && one(raw, 30) && one(raw, 29)
            && one(raw, 28) && one(raw, 27)
            && !one(raw, 26) && !one(raw, 25) && one(raw, 24) && one(raw, 23) && !one(raw, 22)
            && !one(raw, 21) && one(raw, 20) && one(raw, 15) && one(raw, 14) && one(raw, 13)
            && one(raw, 12)),
        (raw & 0xFFF0_F000 == 0xF9B0_F000) <==> (one(raw, 31) && one(raw, 30) && one(raw, 29)
            && one(raw, 28) && one(raw, 27)
            && !one(raw, 26) && !one(raw, 25) && one(raw, 24) && one(raw, 23) && !one(raw, 22)
            && one(raw, 21) && one(raw, 20) && one(raw, 15) && one(raw, 14) && one(raw, 13)
            && one(raw, 12)),
        (raw & 0xFFF0_F0C0 == 0xFA00_F080) <==> (one(raw, 31) && one(raw, 30) && one(raw, 29)
            && one(raw, 28) && one(raw, 27)
            && !one(raw, 26) && one(raw, 25) && !one(raw, 24) && !one(raw, 23) && !one(raw, 22)
            && !one(raw, 21) && !one(raw, 20) && one(raw, 15) && one(raw, 14) && one(raw, 13)
            && one(raw, 12) && one(raw, 7) && !one(raw, 6)),
        (raw & 0xFFF0_F0C0 == 0xFA10_F080) <==> (one(raw, 31) && one(raw, 30) && one(raw, 29)
            && one(raw, 28) && one(raw, 27)
            && !one(raw, 26) && one(raw, 25) && !one(raw, 24) && !one(raw, 23) && !one(raw, 22)
            && !one(raw, 21) && one(raw, 20) && one(raw, 15) && one(raw, 14) && one(raw, 13)
            && one(raw, 12) && one(raw, 7) && !one(raw, 6)),
        (raw & 0xFFF0_F0C0 == 0xFA20_F080) <==> (one(raw, 31) && one(raw, 30) && one(raw, 29)
            && one(raw, 28) && one(raw, 27)
            && !one(raw, 26) && one(raw, 25) && !one(raw, 24) && !one(raw, 23) && !one(raw, 22)
            && one(raw, 21) && !one(raw, 20) && one(raw, 15) && one(raw, 14) && one(raw, 13)
            && one(raw, 12) && one(raw, 7) && !one(raw, 6)),
        (raw & 0xFFF0_F0C0 == 0xFA30_F080) <==> (one(raw, 31) && one(raw, 30) && one(raw, 29)
            && one(raw, 28) && one(raw, 27)
            && !one(raw, 26) && one(raw, 25) && !one(raw, 24) && !one(raw, 23) && !one(raw, 22)
            && one(raw, 21) && one(raw, 20) && one(raw, 15) && one(raw, 14) && one(raw, 13)
            && one(raw, 12) && one(raw, 7) && !one(raw, 6)),
        (raw & 0xFFF0_F0C0 == 0xFA40_F080) <==> (one(raw, 31) && one(raw, 30) && one(raw, 29)
            && one(raw, 28) && one(raw, 27)
            && !one(raw, 26) && one(raw, 25) && !one(raw, 24) && !one(raw, 23) && one(raw, 22)
            && !one(raw, 21) && !one(raw, 20) && one(raw, 15) && one(raw, 14) && one(raw, 13)
            && one(raw, 12) && one(raw, 7) && !one(raw, 6)),
        (raw & 0xFFF0_F0C0 == 0xFA50_F080) <==> (one(raw, 31) && one(raw, 30) && one(raw, 29)
            && one(raw, 28) && one(raw, 27)
            && !one(raw, 26) && one(raw, 25) && !one(raw, 24) && !one(raw, 23) && one(raw, 22)
            && !one(raw, 21) && one(raw, 20) && one(raw, 15) && one(raw, 14) && one(raw, 13)
            && one(raw, 12) && one(raw, 7) && !one(raw, 6)),
        (raw & 0xFFF0_F0C0 == 0xFB10_F000) <==> (one(raw, 31) && one(raw, 30) && one(raw, 29)
            && one(raw, 28) && one(raw, 27)
            && !one(raw, 26) && one(raw, 25) && one(raw, 24) && !one(raw, 23) && !one(raw, 22)
            && !one(raw, 21) && one(raw, 20) && one(raw, 15) && one(raw, 14) && one(raw, 13)
            && one(raw, 12) && !one(raw, 7) && !one(raw, 6)),
        (raw & 0xFFF0_F0E0 == 0xFB20_F000) <==> (one(raw, 31) && one(raw, 30) && one(raw, 29)
            && one(raw, 28) && one(raw, 27)
            && !one(raw, 26) && one(raw, 25) && one(raw, 24) && !one(raw, 23) && !one(raw, 22)
            && one(raw, 21) && !one(raw, 20) && one(raw, 15) && one(raw, 14) && one(raw, 13)
            && one(raw, 12) && !one(raw, 7) && !one(raw, 6) && !one(raw, 5)),
        (raw & 0xFFF0_F0E0 == 0xFB30_F000) <==> (one(raw, 31) && one(raw, 30) && one(raw, 29)
            && one(raw, 28) && one(raw, 27)
            && !one(raw, 26) && one(raw, 25) && one(raw, 24) && !one(raw, 23) && !one(raw, 22)
            && one(raw, 21) && one(raw, 20) && one(raw, 15) && one(raw, 14) && one(raw, 13)
            && one(raw, 12) && !one(raw, 7) && !one(raw, 6) && !one(raw, 5)),
        (raw & 0xFFF0_F0E0 == 0xFB40_F000) <==> (one(raw, 31) && one(raw, 30) && one(raw, 29)
            && one(raw, 28) && one(raw, 27)
            && !one(raw, 26) && one(raw, 25) && one(raw, 24) && !one(raw, 23) && one(raw, 22)
            && !one(raw, 21) && !one(raw, 20) && one(raw, 15) && one(raw, 14) && one(raw, 13)
            && one(raw, 12) && !one(raw, 7) && !one(raw, 6) && !one(raw, 5)),
        (raw & 0xFFF0_F0E0 == 0xFB50_F000) <==> (one(raw, 31) && one(raw, 30) && one(raw, 29)
            && one(raw, 28) && one(raw, 27)
            && !one(raw, 26) && one(raw, 25) && one(raw, 24) && !one(raw, 23) && one(raw, 22)
            && !one(raw, 21) && one(raw, 20) && one(raw, 15) && one(raw, 14) && one(raw, 13)
            && one(raw, 12) && !one(raw, 7) && !one(raw, 6) && !one(raw, 5)),
        (raw & 0xFFF0_F0F0 == 0xF320_0000) <==> (one(raw, 31) && one(raw, 30) && one(raw, 29)
            && one(raw, 28) && !one(raw, 27)
            && !one(raw, 26) && one(raw, 25) && one(raw, 24) && !one(raw, 23) && !one(raw, 22)
            && one(raw, 21) && !one(raw, 20) && !one(raw, 15) && !one(raw, 14) && !one(raw, 13)
            && !one(raw, 12) && !one(raw, 7) && !one(raw, 6) && !one(raw, 5) && !one(raw, 4)),
        (raw & 0xFFF0_F0F0 == 0xF3A0_0000) <==> (one(raw, 31) && one(raw, 30) && one(raw, 29)
            && one(raw, 28) && !one(raw, 27)
            && !one(raw, 26) && one(raw, 25) && one(raw, 24) && one(raw, 23) && !one(raw, 22)
            && one(raw, 21) && !one(raw, 20) && !one(raw, 15) && !one(raw, 14) && !one(raw, 13)
            && !one(raw, 12) && !one(raw, 7) && !one(raw, 6) && !one(raw, 5) && !one(raw, 4)),
        (raw & 0xFFF0_F0F0 == 0xFA80_F000) <==> (one(raw, 31) && one(raw, 30) && one(raw, 29)
            && one(raw, 28) && one(raw, 27)
            && !one(raw, 26) && one(raw, 25) && !one(raw, 24) && one(raw, 23) && !one(raw, 22)
            && !one(raw, 21) && !one(raw, 20) && one(raw, 15) && one(raw, 14) && one(raw, 13)
            && one(raw, 12) && !one(raw, 7) && !one(raw, 6) && !one(raw, 5) && !one(raw, 4)),
        (raw & 0xFFF0_F0F0 == 0xFA80_F010) <==> (one(raw, 31) && one(raw, 30) && one(raw, 29)
            && one(raw, 28) && one(raw, 27)
            && !one(raw, 26) && one(raw, 25) && !one(raw, 24) && one(raw, 23) && !one(raw, 22)
            && !one(raw, 21) && !one(raw, 20) && one(raw, 15) && one(raw, 14) && one(raw, 13)
            && one(raw, 12) && !one(raw, 7) && !one(raw, 6) && !one(raw, 5) && one(raw, 4)),
        (raw & 0xFFF0_F0F0 == 0xFA80_F020) <==> (one(raw, 31) && one(raw, 30) && one(raw, 29)
            && one(raw, 28) && one(raw, 27)
            && !one(raw, 26) && one(raw, 25) && !one(raw, 24) && one(raw, 23) && !one(raw, 22)
            && !one(raw, 21) && !one(raw, 20) && one(raw, 15) && one(raw, 14) && one(raw, 13)
            && one(raw, 12) && !one(raw, 7) && !one(raw, 6) && one(raw, 5) && !one(raw, 4)),
        (raw & 0xFFF0_F0F0 == 0xFA80_F040) <==> (one(raw, 31) && one(raw, 30) && one(raw, 29)
            && one(raw, 28) && one(raw, 27)
            && !one(raw, 26) && one(raw, 25) && !one(raw, 24) && one(raw, 23) && !one(raw, 22)
            && !one(raw, 21) && !one(raw, 20) && one(raw, 15) && one(raw, 14) && one(raw, 13)
            && one(raw, 12) && !one(raw, 7) && one(raw, 6) && !one(raw, 5) && !one(raw, 4)),
        (raw & 0xFFF0_F0F0 == 0xFA80_F050) <==> (one(raw, 31) && one(raw, 30) && one(raw, 29)
            && one(raw, 28) && one(raw, 27)
            && !one(raw, 26) && one(raw, 25) && !one(raw, 24) && one(raw, 23) && !one(raw, 22)
            && !one(raw, 21) && !one(raw, 20) && one(raw, 15) && one(raw, 14) && one(raw, 13)
            && one(raw, 12) && !one(raw, 7) && one(raw, 6) && !one(raw, 5) && one(raw, 4)),
        (raw & 0xFFF0_F0F0 == 0xFA80_F060) <==> (one(raw, 31) && one(raw, 30) && one(raw, 29)
            && one(raw, 28) && one(raw, 27)
            && !one(raw, 26) && one(raw, 25) && !one(raw, 24) && one(raw, 23) && !one(raw, 22)
            && !one(raw, 21) && !one(raw, 20) && one(raw, 15) && one(raw, 14) && one(raw, 13)
            && one(raw, 12) && !one(raw, 7) && one(raw, 6) && one(raw, 5) && !one(raw, 4)),
        (raw & 0xFFF0_F0F0 == 0xFA80_F080) <==> (one(raw, 31) && one(raw, 30) && one(raw, 29)
            && one(raw, 28) && one(raw, 27)
            && !one(raw, 26) && one(raw, 25) && !one(raw, 24) && one(raw, 23) && !one(raw, 22)
            && !one(raw, 21) && !one(raw, 20) && one(raw, 15) && one(raw, 14) && one(raw, 13)
            && one(raw, 12) && one(raw, 7) && !one(raw, 6) && !one(raw, 5) && !one(raw, 4)),
        (raw & 0xFFF0_F0F0 == 0xFA80_F090) <==> (one(raw, 31) && one(raw, 30) && one(raw, 29)
            && one(raw, 28) && one(raw, 27)
            && !one(raw, 26) && one(raw, 25) && !one(raw, 24) && one(raw, 23) && !one(raw, 22)
            && !one(raw, 21) && !one(raw, 20) && one(raw, 15) && one(raw, 14) && one(raw, 13)
            && one(raw, 12) && one(raw, 7) && !one(raw, 6) && !one(raw, 5) && one(raw, 4)),
        (raw & 0xFFF0_F0F0 == 0xFA80_F0A0) <==> (one(raw, 31) && one(raw, 30) && one(raw, 29)
            && one(raw, 28) && one(raw, 27)
            && !one(raw, 26) && one(raw, 25) && !one(raw, 24) && one(raw, 23) && !one(raw, 22)
            && !one(raw, 21) && !one(raw, 20) && one(raw, 15) && one(raw, 14) && one(raw, 13)
            && one(raw, 12) && one(raw, 7) && !one(raw, 6) && one(raw, 5) && !one(raw, 4)),
        (raw & 0xFFF0_F0F0 == 0xFA80_F0B0) <==> (one(raw, 31) && one(raw, 30) && one(raw, 29)
            && one(raw, 28) && one(raw, 27)
            && !one(raw, 26) && one(raw, 25) && !one(raw, 24) && one(raw, 23) && !one(raw, 22)
            && !one(raw, 21) && !one(raw, 20) && one(raw, 15) && one(raw, 14) && one(raw, 13)
            && one(raw, 12) && one(raw, 7) && !one(raw, 6) && one(raw, 5) && one(raw, 4)),
        (raw & 0xFFF0_F0F0 == 0xFA90_F000) <==> (one(raw, 31) && one(raw, 30) && one(raw, 29)
            && one(raw, 28) && one(raw, 27)
            && !one(raw, 26) && one(raw, 25) && !one(raw, 24) && one(raw, 23) && !one(raw, 22)
            && !one(raw, 21) && one(raw, 20) && one(raw, 15) && one(raw, 14) && one(raw, 13)
            && one(raw, 12) && !one(raw, 7) && !one(raw, 6) && !one(raw, 5) && !one(raw, 4)),
        (raw & 0xFFF0_F0F0 == 0xFA90_F010) <==> (one(raw, 31) && one(raw, 30) && one(raw, 29)
            && one(raw, 28) && one(raw, 27)
            && !one(raw, 26) && one(raw, 25) && !one(raw, 24) && one(raw, 23) && !one(raw, 22)
            && !one(raw, 21) && one(raw, 20) && one(raw, 15) && one(raw, 14) && one(raw, 13)
            && one(raw, 12) && !one(raw, 7) && !one(raw, 6) && !one(raw, 5) && one(raw, 4)),
        (raw & 0xFFF0_F0F0 == 0xFA90_F020) <==> (one(raw, 31) && one(raw, 30) && one(raw, 29)
            && one(raw, 28) && one(raw, 27)
            && !one(raw, 26) && one(raw, 25) && !one(raw, 24) && one(raw, 23) && !one(raw, 22)
            && !one(raw, 21) && one(raw, 20) && one(raw, 15) && one(raw, 14) && one(raw, 13)
            && one(raw, 12) && !one(raw, 7) && !one(raw, 6) && one(raw, 5) && !one(raw, 4)),
        (raw & 0xFFF0_F0F0 == 0xFA90_F040) <==> (one(raw, 31) && one(raw, 30) && one(raw, 29)
            && one(raw, 28) && one(raw, 27)
            && !one(raw, 26) && one(raw, 25) && !one(raw, 24) && one(raw, 23) && !one(raw, 22)
            && !one(raw, 21) && one(raw, 20) && one(raw, 15) && one(raw, 14) && one(raw, 13)
            && one(raw, 12) && !one(raw, 7) && one(raw, 6) && !one(raw, 5) && !one(raw, 4)),
        (raw & 0xFFF0_F0F0 == 0xFA90_F050) <==> (one(raw, 31) && one(raw, 30) && one(raw, 29)
            && one(raw, 28) && one(raw, 27)
            && !one(raw, 26) && one(raw, 25) && !one(raw, 24) && one(raw, 23) && !one(raw, 22)
            && !one(raw, 21) && one(raw, 20) && one(raw, 15) && one(raw, 14) && one(raw, 13)
            && one(raw, 12) && !one(raw, 7) && one(raw, 6) && !one(raw, 5) && one(raw, 4)),
        (raw & 0xFFF0_F0F0 == 0xFA90_F060) <==> (one(raw, 31) && one(raw, 30) && one(raw, 29)
            && one(raw, 28) && one(raw, 27)
            && !one(raw, 26) && one(raw, 25) && !one(raw, 24) && one(raw, 23) && !one(raw, 22)
            && !one(raw, 21) && one(raw, 20) && one(raw, 15) && one(raw, 14) && one(raw, 13)
            && one(raw, 12) && !one(raw, 7) && one(raw, 6) && one(raw, 5) && !one(raw, 4)),
        (raw & 0xFFF0_F0F0 == 0xFA90_F080) <==> (one(raw, 31) && one(raw, 30) && one(raw, 29)
            && one(raw, 28) && one(raw, 27)
            && !one(raw, 26) && one(raw, 25) && !one(raw, 24) && one(raw, 23) && !one(raw, 22)
            && !one(raw, 21) && one(raw, 20) && one(raw, 15) && one(raw, 14) && one(raw, 13)
            && one(raw, 12) && one(raw, 7) && !one(raw, 6) && !one(raw, 5) && !one(raw, 4)),
        (raw & 0xFFF0_F0F0 == 0xFA90_F090) <==> (one(raw, 31) && one(raw, 30) && one(raw, 29)
            && one(raw, 28) && one(raw, 27)
            && !one(raw, 26) && one(raw, 25) && !one(raw, 24) && one(raw, 23) && !one(raw, 22)
            && !one(raw, 21) && one(raw, 20) && one(raw, 15) && one(raw, 14) && one(raw, 13)
            && one(raw, 12) && one(raw, 7) && !one(raw, 6) && !one(raw, 5) && one(raw, 4)),
        (raw & 0xFFF0_F0F0 == 0xFA90_F0A0) <==> (one(raw, 31) && one(raw, 30) && one(raw, 29)
            && one(raw, 28) && one(raw, 27)
            && !one(raw, 26) && one(raw, 25) && !one(raw, 24) && one(raw, 23) && !one(raw, 22)
            && !one(raw, 21) && one(raw, 20) && one(raw, 15) && one(raw, 14) && one(raw, 13)
            && one(raw, 12) && one(raw, 7) && !one(raw, 6) && one(raw, 5) && !one(raw, 4)),
        (raw & 0xFFF0_F0F0 == 0xFA90_F0B0) <==> (one(raw, 31) && one(raw, 30) && one(raw, 29)
            && one(raw, 28) && one(raw, 27)
            && !one(raw, 26) && one(raw, 25) && !one(raw, 24) && one(raw, 23) && !one(raw, 22)
            && !one(raw, 21) && one(raw, 20) && one(raw, 15) && one(raw, 14) && one(raw, 13)
            && one(raw, 12) && one(raw, 7) && !one(raw, 6) && one(raw, 5) && one(raw, 4)),
        (raw & 0xFFF0_F0F0 == 0xFAA0_F000) <==> (one(raw, 31) && one(raw, 30) && one(raw, 29)
            && one(raw, 28) && one(raw, 27)
            && !one(raw, 26) && one(raw, 25) && !one(raw, 24) && one(raw, 23) && !one(raw, 22)
            && one(raw, 21) && !one(raw, 20) && one(raw, 15) && one(raw, 14) && one(raw, 13)
            && one(raw, 12) && !one(raw, 7) && !one(raw, 6) && !one(raw, 5) && !one(raw, 4)),
        (raw & 0xFFF0_F0F0 == 0xFAA0_F010) <==> (one(raw, 31) && one(raw, 30) && one(raw, 29)
            && one(raw, 28) && one(raw, 27)
            && !one(raw, 26) && one(raw, 25) && !one(raw, 24) && one(raw, 23) && !one(raw, 22)
            && one(raw, 21) && !one(raw, 20) && one(raw, 15) && one(raw, 14) && one(raw, 13)
            && one(raw, 12) && !one(raw, 7) && !one(raw, 6) && !one(raw, 5) && one(raw, 4)),
        (raw & 0xFFF0_F0F0 == 0xFAA0_F020) <==> (one(raw, 31) && one(raw, 30) && one(raw, 29)
            && one(raw, 28) && one(raw, 27)
            && !one(raw, 26) && one(raw, 25) && !one(raw, 24) && one(raw, 23) && !one(raw, 22)
            && one(raw, 21) && !one(raw, 20) && one(raw, 15) && one(raw, 14) && one(raw, 13)
            && one(raw, 12) && !one(raw, 7) && !one(raw, 6) && one(raw, 5) && !one(raw, 4)),
        (raw & 0xFFF0_F0F0 == 0xFAA0_F040) <==> (one(raw, 31) && one(raw, 30) && one(raw, 29)
            && one(raw, 28) && one(raw, 27)
            && !one(raw, 26) && one(raw, 25) && !one(raw, 24) && one(raw, 23) && !one(raw, 22)
            && one(raw, 21) && !one(raw, 20) && one(raw, 15) && one(raw, 14) && one(raw, 13)
            && one(raw, 12) && !one(raw, 7) && one(raw, 6) && !one(raw, 5) && !one(raw, 4)),
        (raw & 0xFFF0_F0F0 == 0xFAA0_F050) <==> (one(raw, 31) && one(raw, 30) && one(raw, 29)
            && one(raw, 28) && one(raw, 27)
            && !one(raw, 26) && one(raw, 25) && !one(raw, 24) && one(raw, 23) && !one(raw, 22)
            && one(raw, 21) && !one(raw, 20) && one(raw, 15) && one(raw, 14) && one(raw, 13)
            && one(raw, 12) && !one(raw, 7) && one(raw, 6) && !one(raw, 5) && one(raw, 4)),
        (raw & 0xFFF0_F0F0 == 0xFAA0_F060) <==> (one(raw, 31) && one(raw, 30) && one(raw, 29)
            && one(raw, 28) && one(raw, 27)
            && !one(raw, 26) && one(raw, 25) && !one(raw, 24) && one(raw, 23) && !one(raw, 22)
            && one(raw, 21) && !one(raw, 20) && one(raw, 15) && one(raw, 14) && one(raw, 13)
            && one(raw, 12) && !one(raw, 7) && one(raw, 6) && one(raw, 5) && !one(raw, 4)),
        (raw & 0xFFF0_F0F0 == 0xFAA0_F080) <==> (one(raw, 31) && one(raw, 30) && one(raw, 29)
            && one(raw, 28) && one(raw, 27)
            && !one(raw, 26) && one(raw, 25) && !one(raw, 24) && one(raw, 23) && !one(raw, 22)
            && one(raw, 21) && !one(raw, 20) && one(raw, 15) && one(raw, 14) && one(raw, 13)
            && one(raw, 12) && one(raw, 7) && !one(raw, 6) && !one(raw, 5) && !one(raw, 4)),
        (raw & 0xFFF0_F0F0 == 0xFAB0_F080) <==> (one(raw, 31) && one(raw, 30) && one(raw, 29)
            && one(raw, 28) && one(raw, 27)
            && !one(raw, 26) && one(raw, 25) && !one(raw, 24) && one(raw, 23) && !one(raw, 22)
            && one(raw, 21) && one(raw, 20) && one(raw, 15) && one(raw, 14) && one(raw, 13)
            && one(raw, 12) && one(raw, 7) && !one(raw, 6) && !one(raw, 5) && !one(raw, 4)),
        (raw & 0xFFF0_F0F0 == 0xFAC0_F000) <==> (one(raw, 31) && one(raw, 30) && one(raw, 29)
            && one(raw, 28) && one(raw, 27)
            && !one(raw, 26) && one(raw, 25) && !one(raw, 24) && one(raw, 23) && one(raw, 22)
            && !one(raw, 21) && !one(raw, 20) && one(raw, 15) && one(raw, 14) && one(raw, 13)
            && one(raw, 12) && !one(raw, 7) && !one(raw, 6) && !one(raw, 5) && !one(raw, 4)),
        (raw & 0xFFF0_F0F0 == 0xFAC0_F010) <==> (one(raw, 31) && one(raw, 30) && one(raw, 29)
            && one(raw, 28) && one(raw, 27)
            && !one(raw, 26) && one(raw, 25) && !one(raw, 24) && one(raw, 23) && one(raw, 22)
            && !one(raw, 21) && !one(raw, 20) && one(raw, 15) && one(raw, 14) && one(raw, 13)
            && one(raw, 12) && !one(raw, 7) && !one(raw, 6) && !one(raw, 5) && one(raw, 4)),
        (raw & 0xFFF0_F0F0 == 0xFAC0_F020) <==> (one(raw, 31) && one(raw, 30) && one(raw, 29)
            && one(raw, 28) && one(raw, 27)
            && !one(raw, 26) && one(raw, 25) && !one(raw, 24) && one(raw, 23) && one(raw, 22)
            && !one(raw, 21) && !one(raw, 20) && one(raw, 15) && one(raw, 14) && one(raw, 13)
            && one(raw, 12) && !one(raw, 7) && !one(raw, 6) && one(raw, 5) && !one(raw, 4)),
        (raw & 0xFFF0_F0F0 == 0xFAC0_F040) <==> (one(raw, 31) && one(raw, 30) && one(raw, 29)
            && one(raw, 28) && one(raw, 27)
            && !one(raw, 26) && one(raw, 25) && !one(raw, 24) && one(raw, 23) && one(raw, 22)
            && !one(raw, 21) && !one(raw, 20) && one(raw, 15) && one(raw, 14) && one(raw, 13)
            && one(raw, 12) && !one(raw, 7) && one(raw, 6) && !one(raw, 5) && !one(raw, 4)),
        (raw & 0xFFF0_F0F0 == 0xFAC0_F050) <==> (one(raw, 31) && one(raw, 30) && one(raw, 29)
            && one(raw, 28) && one(raw, 27)
            && !one(raw, 26) && one(raw, 25) && !one(raw, 24) && one(raw, 23) && one(raw, 22)
            && !one(raw, 21) && !one(raw, 20) && one(raw, 15) && one(raw, 14) && one(raw, 13)
            && one(raw, 12) && !one(raw, 7) && one(raw, 6) && !one(raw, 5) && one(raw, 4)),
        (raw & 0xFFF0_F0F0 == 0xFAC0_F060) <==> (one(raw, 31) && one(raw, 30) && one(raw, 29)
            && one(raw, 28) && one(raw, 27)
            && !one(raw, 26) && one(raw, 25) && !one(raw, 24) && one(raw, 23) && one(raw, 22)
            && !one(raw, 21) && !one(raw, 20) && one(raw, 15) && one(raw, 14) && one(raw, 13)
            && one(raw, 12) && !one(raw, 7) && one(raw, 6) && one(raw, 5) && !one(raw, 4)),
        (raw & 0xFFF0_F0F0 == 0xFAD0_F000) <==> (one(raw, 31) && one(raw, 30) && one(raw, 29)
            && one(raw, 28) && one(raw, 27)
            && !one(raw, 26) && one(raw, 25) && !one(raw, 24) && one(raw, 23) && one(raw, 22)
            && !one(raw, 21) && one(raw, 20) && one(raw, 15) && one(raw, 14) && one(raw, 13)
            && one(raw, 12) && !one(raw, 7) && !one(raw, 6) && !one(raw, 5) && !one(raw, 4)),
        (raw & 0xFFF0_F0F0 == 0xFAD0_F010) <==> (one(raw, 31) && one(raw, 30) && one(raw, 29)
            && one(raw, 28) && one(raw, 27)
            && !one(raw, 26) && one(raw, 25) && !one(raw, 24) && one(raw, 23) && one(raw, 22)
            && !one(raw, 21) && one(raw, 20) && one(raw, 15) && one(raw, 14) && one(raw, 13)
            && one(raw, 12) && !one(raw, 7) && !one(raw, 6) && !one(raw, 5) && one(raw, 4)),
        (raw & 0xFFF0_F0F0 == 0xFAD0_F020) <==> (one(raw, 31) && one(raw, 30) && one(raw, 29)
            && one(raw, 28) && one(raw, 27)
            && !one(raw, 26) && one(raw, 25) && !one(raw, 24) && one(raw, 23) && one(raw, 22)
            && !one(raw, 21) && one(raw, 20) && one(raw, 15) && one(raw, 14) && one(raw, 13)
            && one(raw, 12) && !one(raw, 7) && !one(raw, 6) && one(raw, 5) && !one(raw, 4)),
        (raw & 0xFFF0_F0F0 == 0xFAD0_F040) <==> (one(raw, 31) && one(raw, 30) && one(raw, 29)
            && one(raw, 28) && one(raw, 27)
            && !one(raw, 26) && one(raw, 25) && !one(raw, 24) && one(raw, 23) && one(raw, 22)
            && !one(raw, 21) && one(raw, 20) && one(raw, 15) && one(raw, 14) && one(raw, 13)
            && one(raw, 12) && !one(raw, 7) && one(raw, 6) && !one(raw, 5) && !one(raw, 4)),
        (raw & 0xFFF0_F0F0 == 0xFAD0_F050) <==> (one(raw, 31) && one(raw, 30) && one(raw, 29)
            && one(raw, 28) && one(raw, 27)
            && !one(raw, 26) && one(raw, 25) && !one(raw, 24) && one(raw, 23) && one(raw, 22)
            && !one(raw, 21) && one(raw, 20) && one(raw, 15) && one(raw, 14) && one(raw, 13)
            && one(raw, 12) && !one(raw, 7) && one(raw, 6) && !one(raw, 5) && one(raw, 4)),
        (raw & 0xFFF0_F0F0 == 0xFAD0_F060) <==> (one(raw, 31) && one(raw, 30) && one(raw, 29)
            && one(raw, 28) && one(raw, 27)
            && !one(raw, 26) && one(raw, 25) && !one(raw, 24) && one(raw, 23) && one(raw, 22)
            && !one(raw, 21) && one(raw, 20) && one(raw, 15) && one(raw, 14) && one(raw, 13)
            && one(raw, 12) && !one(raw, 7) && one(raw, 6) && one(raw, 5) && !one(raw, 4)),
        (raw & 0xFFF0_F0F0 == 0xFAE0_F000) <==> (one(raw, 31) && one(raw, 30) && one(raw, 29)
            && one(raw, 28) && one(raw, 27)
            && !one(raw, 26) && one(raw, 25) && !one(raw, 24) && one(raw, 23) && one(raw, 22)
            && one(raw, 21) && !one(raw, 20) && one(raw, 15) && one(raw, 14) && one(raw, 13)
            && one(raw, 12) && !one(raw, 7) && !one(raw, 6) && !one(raw, 5) && !one(raw, 4)),
        (raw & 0xFFF0_F0F0 == 0xFAE0_F010) <==> (one(raw, 31) && one(raw, 30) && one(raw, 29)
            && one(raw, 28) && one(raw, 27)
            && !one(raw, 26) && one(raw, 25) && !one(raw, 24) && one(raw, 23) && one(raw, 22)
            && one(raw, 21) && !one(raw, 20) && one(raw, 15) && one(raw, 14) && one(raw, 13)
            && one(raw, 12) && !one(raw, 7) && !one(raw, 6) && !one(raw, 5) && one(raw, 4)),
        (raw & 0xFFF0_F0F0 == 0xFAE0_F020) <==> (one(raw, 31) && one(raw, 30) && one(raw, 29)
            && one(raw, 28) && one(raw, 27)
            && !one(raw, 26) && one(raw, 25) && !one(raw, 24) && one(raw, 23) && one(raw, 22)
            && one(raw, 21) && !one(raw, 20) && one(raw, 15) && one(raw, 14) && one(raw, 13)
            && one(raw, 12) && !one(raw, 7) && !one(raw, 6) && one(raw, 5) && !one(raw, 4)),
        (raw & 0xFFF0_F0F0 == 0xFAE0_F040) <==> (one(raw, 31) && one(raw, 30) && one(raw, 29)
            && one(raw, 28) && one(raw, 27)
            && !one(raw, 26) && one(raw, 25) && !one(raw, 24) && one(raw, 23) && one(raw, 22)
            && one(raw, 21) && !one(raw, 20) && one(raw, 15) && one(raw, 14) && one(raw, 13)
            && one(raw, 12) && !one(raw, 7) && one(raw, 6) && !one(raw, 5) && !one(raw, 4)),
        (raw & 0xFFF0_F0F0 == 0xFAE0_F050) <==> (one(raw, 31) && one(raw, 30) && one(raw, 29)
            && one(raw, 28) && one(raw, 27)
            && !one(raw, 26) && one(raw, 25) && !one(raw, 24) && one(raw, 23) && one(raw, 22)
            && one(raw, 21) && !one(raw, 20) && one(raw, 15) && one(raw, 14) && one(raw, 13)
            && one(raw, 12) && !one(raw, 7) && one(raw, 6) && !one(raw, 5) && one(raw, 4)),
        (raw & 0xFFF0_F0F0 == 0xFAE0_F060) <==> (one(raw, 31) && one(raw, 30) && one(raw, 29)
            && one(raw, 28) && one(raw, 27)
            && !one(raw, 26) && one(raw, 25) && !one(raw, 24) && one(raw, 23) && one(raw, 22)
            && one(raw, 21) && !one(raw, 20) && one(raw, 15) && one(raw, 14) && one(raw, 13)
            && one(raw, 12) && !one(raw, 7) && one(raw, 6) && one(raw, 5) && !one(raw, 4)),
        (raw & 0xFFF0_F0F0 == 0xFB00_F000) <==> (one(raw, 31) && one(raw, 30) && one(raw, 29)
            && one(raw, 28) && one(raw, 27)
            && !one(raw, 26) && one(raw, 25) && one(raw, 24) && !one(raw, 23) && !one(raw, 22)
            && !one(raw, 21) && !one(raw, 20) && one(raw, 15) && one(raw, 14) && one(raw, 13)
            && one(raw, 12) && !one(raw, 7) && !one(raw, 6) && !one(raw, 5) && !one(raw, 4)),
        (raw & 0xFFF0_F0F0 == 0xFB70_F000) <==> (one(raw, 31) && one(raw, 30) && one(raw, 29)
            && one(raw, 28) && one(raw, 27)
            && !one(raw, 26) && one(raw, 25) && one(raw, 24) && !one(raw, 23) && one(raw, 22)
            && one(raw, 21) && one(raw, 20) && one(raw, 15) && one(raw, 14) && one(raw, 13)
            && one(raw, 12) && !one(raw, 7) && !one(raw, 6) && !one(raw, 5) && !one(raw, 4)),
        (raw & 0xFFF0_F0F0 == 0xFB90_F0F0) <==> (one(raw, 31) && one(raw, 30) && one(raw, 29)
            && one(raw, 28) && one(raw, 27)
            && !one(raw, 26) && one(raw, 25) && one(raw, 24) && one(raw, 23) && !one(raw, 22)
            && !one(raw, 21) && one(raw, 20) && one(raw, 15) && one(raw, 14) && one(raw, 13)
            && one(raw, 12) && one(raw, 7) && one(raw, 6) && one(raw, 5) && one(raw, 4)),
        (raw & 0xFFF0_F0F0 == 0xFBB0_F0F0) <==> (one(raw, 31) && one(raw, 30) && one(raw, 29)
            && one(raw, 28) && one(raw, 27)
            && !one(raw, 26) && one(raw, 25) && one(raw, 24) && one(raw, 23) && !one(raw, 22)
            && one(raw, 21) && one(raw, 20) && one(raw, 15) && one(raw, 14) && one(raw, 13)
            && one(raw, 12) && one(raw, 7) && one(raw, 6) && one(raw, 5) && one(raw, 4)),
        (raw & 0xFFF0_FF00 == 0xF910_FC00) <==> (one(raw, 31) && one(raw, 30) && one(raw, 29)
            && one(raw, 28) && one(raw, 27)
            && !one(raw, 26) && !one(raw, 25) && one(raw, 24) && !one(raw, 23) && !one(raw, 22)
            && !one(raw, 21) && one(raw, 20) && one(raw, 15) && one(raw, 14) && one(raw, 13)
            && one(raw, 12) && one(raw, 11) && one(raw, 10) && !one(raw, 9) && !one(raw, 8)),
        (raw & 0xFFF0_FF00 == 0xF930_FC00) <==> (one(raw, 31) && one(raw, 30) && one(raw, 29)
            && one(raw, 28) && one(raw, 27)
            && !one(raw, 26) && !one(raw, 25) && one(raw, 24) && !one(raw, 23) && !one(raw, 22)
            && one(raw, 21) && one(raw, 20) && one(raw, 15) && one(raw, 14) && one(raw, 13)
            && one(raw, 12) && one(raw, 11) && one(raw, 10) && !one(raw, 9) && !one(raw, 8)),
        (raw & 0xFFF0_FFC0 == 0xF910_F000) <==> (one(raw, 31) && one(raw, 30) && one(raw, 29)
            && one(raw, 28) && one(raw, 27)
            && !one(raw, 26) && !one(raw, 25) && one(raw, 24) && !one(raw, 23) && !one(raw, 22)
            && !one(raw, 21) && one(raw, 20) && one(raw, 15) && one(raw, 14) && one(raw, 13)
            && one(raw, 12) && !one(raw, 11) && !one(raw, 10) && !one(raw, 9) && !one(raw, 8)
            && !one(raw, 7) && !one(raw, 6)),
        (raw & 0xFFF0_FFC0 == 0xF930_F000) <==> (one(raw, 31) && one(raw, 30) && one(raw, 29)
            && one(raw, 28) && one(raw, 27)
            && !one(raw, 26) && !one(raw, 25) && one(raw, 24) && !one(raw, 23) && !one(raw, 22)
            && one(raw, 21) && one(raw, 20) && one(raw, 15) && one(raw, 14) && one(raw, 13)
            && one(raw, 12) && !one(raw, 11) && !one(raw, 10) && !one(raw, 9) && !one(raw, 8)
            && !one(raw, 7) && !one(raw, 6)),
        (raw & 0xFFF0_FFF0 == 0xE8D0_F000) <==> (one(raw, 31) && one(raw, 30) && one(raw, 29)
            && !one(raw, 28) && one(raw, 27)
            && !one(raw, 26) && !one(raw, 25) && !one(raw, 24) && one(raw, 23) && one(raw, 22)
            && !one(raw, 21) && one(raw, 20) && one(raw, 15) && one(raw, 14) && one(raw, 13)
            && one(raw, 12) && !one(raw, 11) && !one(raw, 10) && !one(raw, 9) && !one(raw, 8)
            && !one(raw, 7) && !one(raw, 6) && !one(raw, 5) && !one(raw, 4)),
        (raw & 0xFFF0_FFF0 == 0xE8D0_F010) <==> (one(raw, 31) && one(raw, 30) && one(raw, 29)
            && !one(raw, 28) && one(raw, 27)
            && !one(raw, 26) && !one(raw, 25) && !one(raw, 24) && one(raw, 23) && one(raw, 22)
            && !one(raw, 21) && one(raw, 20) && one(raw, 15) && one(raw, 14) && one(raw, 13)
            && one(raw, 12) && !one(raw, 11) && !one(raw, 10) && !one(raw, 9) && !one(raw, 8)
            && !one(raw, 7) && !one(raw, 6) && !one(raw, 5) && one(raw, 4)),
        (raw & 0xFFF0_FFFF == 0xF3C0_8F00) <==> (one(raw, 31) && one(raw, 30) && one(raw, 29)
            && one(raw, 28) && !one(raw, 27)
            && !one(raw, 26) && one(raw, 25) && one(raw, 24) && one(raw, 23) && one(raw, 22)
            && !one(raw, 21) && !one(raw, 20) && one(raw, 15) && !one(raw, 14) && !one(raw, 13)
            && !one(raw, 12) && one(raw, 11) && one(raw, 10) && one(raw, 9) && one(raw, 8)
            && !one(raw, 7) && !one(raw, 6) && !one(raw, 5) && !one(raw, 4) && !one(raw, 3)
            && !one(raw, 2) && !one(raw, 1) && !one(raw, 0)),
        (raw & 0xFFFF_0000 == 0xE8BD_0000) <==> (one(raw, 31) && one(raw, 30) && one(raw, 29)
            && !one(raw, 28) && one(raw, 27)
            && !one(raw, 26) && !one(raw, 25) && !one(raw, 24) && one(raw, 23) && !one(raw, 22)
            && one(raw, 21) && one(raw, 20) && one(raw, 19) && one(raw, 18) && !one(raw, 17)
            && one(raw, 16)),
        (raw & 0xFFFF_8000 == 0xE92D_0000) <==> (one(raw, 31) && one(raw, 30) && one(raw, 29)
            && !one(raw, 28) && one(raw, 27)
            && !one(raw, 26) && !one(raw, 25) && one(raw, 24) && !one(raw, 23) && !one(raw, 22)
            && one(raw, 21) && !one(raw, 20) && one(raw, 19) && one(raw, 18) && !one(raw, 17)
            && one(raw, 16) && !one(raw, 15)),
        (raw & 0xFFFF_8020 == 0xF36F_0000) <==> (one(raw, 31) && one(raw, 30) && one(raw, 29)
            && one(raw, 28) && !one(raw, 27)
            && !one(raw, 26) && one(raw, 25) && one(raw, 24) && !one(raw, 23) && one(raw, 22)
            && one(raw, 21) && !one(raw, 20) && one(raw, 19) && one(raw, 18) && one(raw, 17)
            && one(raw, 16) && !one(raw, 15) && !one(raw, 5)),
        (raw & 0xFFFF_F0C0 == 0xFA0F_F080) <==> (one(raw, 31) && one(raw, 30) && one(raw, 29)
            && one(raw, 28) && one(raw, 27)
            && !one(raw, 26) && one(raw, 25) && !one(raw, 24) && !one(raw, 23) && !one(raw, 22)
            && !one(raw, 21) && !one(raw, 20) && one(raw, 19) && one(raw, 18) && one(raw, 17)
            && one(raw, 16) && one(raw, 15) && one(raw, 14) && one(raw, 13) && one(raw, 12)
            && one(raw, 7) && !one(raw, 6)),
        (raw & 0xFFFF_F0C0 == 0xFA1F_F080) <==> (one(raw, 31) && one(raw, 30) && one(raw, 29)
            && one(raw, 28) && one(raw, 27)
            && !one(raw, 26) && one(raw, 25) && !one(raw, 24) && !one(raw, 23) && !one(raw, 22)
            && !one(raw, 21) && one(raw, 20) && one(raw, 19) && one(raw, 18) && one(raw, 17)
            && one(raw, 16) && one(raw, 15) && one(raw, 14) && one(raw, 13) && one(raw, 12)
            && one(raw, 7) && !one(raw, 6)),
        (raw & 0xFFFF_F0C0 == 0xFA2F_F080) <==> (one(raw, 31) && one(raw, 30) && one(raw, 29)
            && one(raw, 28) && one(raw, 27)
            && !one(raw, 26) && one(raw, 25) && !one(raw, 24) && !one(raw, 23) && !one(raw, 22)
            && one(raw, 21) && !one(raw, 20) && one(raw, 19) && one(raw, 18) && one(raw, 17)
            && one(raw, 16) && one(raw, 15) && one(raw, 14) && one(raw, 13) && one(raw, 12)
            && one(raw, 7) && !one(raw, 6)),
        (raw & 0xFFFF_F0C0 == 0xFA3F_F080) <==> (one(raw, 31) && one(raw, 30) && one(raw, 29)
            && one(raw, 28) && one(raw, 27)
            && !one(raw, 26) && one(raw, 25) && !one(raw, 24) && !one(raw, 23) && !one(raw, 22)
            && one(raw, 21) && one(raw, 20) && one(raw, 19) && one(raw, 18) && one(raw, 17)
            && one(raw, 16) && one(raw, 15) && one(raw, 14) && one(raw, 13) && one(raw, 12)
            && one(raw, 7) && !one(raw, 6)),
        (raw & 0xFFFF_F0C0 == 0xFA4F_F080) <==> (one(raw, 31) && one(raw, 30) && one(raw, 29)
            && one(raw, 28) && one(raw, 27)
            && !one(raw, 26) && one(raw, 25) && !one(raw, 24) && !one(raw, 23) && one(raw, 22)
            && !one(raw, 21) && !one(raw, 20) && one(raw, 19) && one(raw, 18) && one(raw, 17)
            && one(raw, 16) && one(raw, 15) && one(raw, 14) && one(raw, 13) && one(raw, 12)
            && one(raw, 7) && !one(raw, 6)),
        (raw & 0xFFFF_F0C0 == 0xFA5F_F080) <==> (one(raw, 31) && one(raw, 30) && one(raw, 29)
            && one(raw, 28) && one(raw, 27)
            && !one(raw, 26) && one(raw, 25) && !one(raw, 24) && !one(raw, 23) && one(raw, 22)
            && !one(raw, 21) && one(raw, 20) && one(raw, 19) && one(raw, 18) && one(raw, 17)
            && one(raw, 16) && one(raw, 15) && one(raw, 14) && one(raw, 13) && one(raw, 12)
            && one(raw, 7) && !one(raw, 6)),
        (raw & 0xFFFF_FFF0 == 0xF3BF_8F40) <==> (one(raw, 31) && one(raw, 30) && one(raw, 29)
            && one(raw, 28) && !one(raw, 27)
            && !one(raw, 26) && one(raw, 25) && one(raw, 24) && one(raw, 23) && !one(raw, 22)
            && one(raw, 21) && one(raw, 20) && one(raw, 19) && one(raw, 18) && one(raw, 17)
            && one(raw, 16) && one(raw, 15) && !one(raw, 14) && !one(raw, 13) && !one(raw, 12)
            && one(raw, 11) && one(raw, 10) && one(raw, 9) && one(raw, 8) && !one(raw, 7)
            && one(raw, 6) && !one(raw, 5) && !one(raw, 4)),
        (raw & 0xFFFF_FFF0 == 0xF3BF_8F50) <==> (one(raw, 31) && one(raw, 30) && one(raw, 29)
            && one(raw, 28) && !one(raw, 27)
            && !one(raw, 26) && one(raw, 25) && one(raw, 24) && one(raw, 23) && !one(raw, 22)
            && one(raw, 21) && one(raw, 20) && one(raw, 19) && one(raw, 18) && one(raw, 17)
            && one(raw, 16) && one(raw, 15) && !one(raw, 14) && !one(raw, 13) && !one(raw, 12)
            && one(raw, 11) && one(raw, 10) && one(raw, 9) && one(raw, 8) && !one(raw, 7)
            && one(raw, 6) && !one(raw, 5) && one(raw, 4)),
        (raw & 0xFFFF_FFF0 == 0xF3BF_8F60) <==> (one(raw, 31) && one(raw, 30) && one(raw, 29)
            && one(raw, 28) && !one(raw, 27)
            && !one(raw, 26) && one(raw, 25) && one(raw, 24) && one(raw, 23) && !one(raw, 22)
            && one(raw, 21) && one(raw, 20) && one(raw, 19) && one(raw, 18) && one(raw, 17)
            && one(raw, 16) && one(raw, 15) && !one(raw, 14) && !one(raw, 13) && !one(raw, 12)
            && one(raw, 11) && one(raw, 10) && one(raw, 9) && one(raw, 8) && !one(raw, 7)
            && one(raw, 6) && one(raw, 5) && !one(raw, 4)),
        (raw & 0xFFFF_FFFF == 0xF3AF_8000) <==> (one(raw, 31) && one(raw, 30) && one(raw, 29)
            && one(raw, 28) && !one(raw, 27)
            && !one(raw, 26) && one(raw, 25) && one(raw, 24) && one(raw, 23) && !one(raw, 22)
            && one(raw, 21) && !one(raw, 20) && one(raw, 19) && one(raw, 18) && one(raw, 17)
            && one(raw, 16) && one(raw, 15) && !one(raw, 14) && !one(raw, 13) && !one(raw, 12)
            && !one(raw, 11) && !one(raw, 10) && !one(raw, 9) && !one(raw, 8) && !one(raw, 7)
            && !one(raw, 6) && !one(raw, 5) && !one(raw, 4) && !one(raw, 3) && !one(raw, 2)
            && !one(raw, 1) && !one(raw, 0)),
        (raw & 0xFFFF_FFFF == 0xF3AF_8001) <==> (one(raw, 31) && one(raw, 30) && one(raw, 29)
            && one(raw, 28) && !one(raw, 27)
            && !one(raw, 26) && one(raw, 25) && one(raw, 24) && one(raw, 23) && !one(raw, 22)
            && one(raw, 21) && !one(raw, 20) && one(raw, 19) && one(raw, 18) && one(raw, 17)
            && one(raw, 16) && one(raw, 15) && !one(raw, 14) && !one(raw, 13) && !one(raw, 12)
            && !one(raw, 11) && !one(raw, 10) && !one(raw, 9) && !one(raw, 8) && !one(raw, 7)
            && !one(raw, 6) && !one(raw, 5) && !one(raw, 4) && !one(raw, 3) && !one(raw, 2)
            && !one(raw, 1) && one(raw, 0)),
        (raw & 0xFFFF_FFFF == 0xF3AF_8002) <==> (one(raw, 31) && one(raw, 30) && one(raw, 29)
            && one(raw, 28) && !one(raw, 27)
            && !one(raw, 26) && one(raw, 25) && one(raw, 24) && one(raw, 23) && !one(raw, 22)
            && one(raw, 21) && !one(raw, 20) && one(raw, 19) && one(raw, 18) && one(raw, 17)
            && one(raw, 16) && one(raw, 15) && !one(raw, 14) && !one(raw, 13) && !one(raw, 12)
            && !one(raw, 11) && !one(raw, 10) && !one(raw, 9) && !one(raw, 8) && !one(raw, 7)
            && !one(raw, 6) && !one(raw, 5) && !one(raw, 4) && !one(raw, 3) && !one(raw, 2)
            && one(raw, 1) && !one(raw, 0)),
        (raw & 0xFFFF_FFFF == 0xF3AF_8003) <==> (one(raw, 31) && one(raw, 30) && one(raw, 29)
            && one(raw, 28) && !one(raw, 27)
            && !one(raw, 26) && one(raw, 25) && one(raw, 24) && one(raw, 23) && !one(raw, 22)
            && one(raw, 21) && !one(raw, 20) && one(raw, 19) && one(raw, 18) && one(raw, 17)
            && one(raw, 16) && one(raw, 15) && !one(raw, 14) && !one(raw, 13) && !one(raw, 12)
            && !one(raw, 11) && !one(raw, 10) && !one(raw, 9) && !one(raw, 8) && !one(raw, 7)
            && !one(raw, 6) && !one(raw, 5) && !one(raw, 4) && !one(raw, 3) && !one(raw, 2)
            && one(raw, 1) && one(raw, 0)),
        (raw & 0xFFFF_FFFF == 0xF3AF_8004) <==> (one(raw, 31) && one(raw, 30) && one(raw, 29)
            && one(raw, 28) && !one(raw, 27)
            && !one(raw, 26) && one(raw, 25) && one(raw, 24) && one(raw, 23) && !one(raw, 22)
            && one(raw, 21) && !one(raw, 20) && one(raw, 19) && one(raw, 18) && one(raw, 17)
            && one(raw, 16) && one(raw, 15) && !one(raw, 14) && !one(raw, 13) && !one(raw, 12)
            && !one(raw, 11) && !one(raw, 10) && !one(raw, 9) && !one(raw, 8) && !one(raw, 7)
            && !one(raw, 6) && !one(raw, 5) && !one(raw, 4) && !one(raw, 3) && one(raw, 2)
            && !one(raw, 1) && !one(raw, 0)),
        (raw & 0xFFFF_FFFF == 0xF3AF_8005) <==> (one(raw, 31) && one(raw, 30) && one(raw, 29)
            && one(raw, 28) && !one(raw, 27)
            && !one(raw, 26) && one(raw, 25) && one(raw, 24) && one(raw, 23) && !one(raw, 22)
            && one(raw, 21) && !one(raw, 20) && one(raw, 19) && one(raw, 18) && one(raw, 17)
            && one(raw, 16) && one(raw, 15) && !one(raw, 14) && !one(raw, 13) && !one(raw, 12)
            && !one(raw, 11) && !one(raw, 10) && !one(raw, 9) && !one(raw, 8) && !one(raw, 7)
            && !one(raw, 6) && !one(raw, 5) && !one(raw, 4) && !one(raw, 3) && one(raw, 2)
            && !one(raw, 1) && one(raw, 0)),
        (raw & 0xFFFF_FFFF == 0xF3BF_8F2F) <==> (one(raw, 31) && one(raw, 30) && one(raw, 29)
            && one(raw, 28) && !one(raw, 27)
            && !one(raw, 26) && one(raw, 25) && one(raw, 24) && one(raw, 23) && !one(raw, 22)
            && one(raw, 21) && one(raw, 20) && one(raw, 19) && one(raw, 18) && one(raw, 17)
            && one(raw, 16) && one(raw, 15) && !one(raw, 14) && !one(raw, 13) && !one(raw, 12)
            && one(raw, 11) && one(raw, 10) && one(raw, 9) && one(raw, 8) && !one(raw, 7)
            && !one(raw, 6) && one(raw, 5) && !one(raw, 4) && one(raw, 3) && one(raw, 2)
            && one(raw, 1) && one(raw, 0)),
        (raw >> 24 == 0xFA) <==> (one(raw, 31) && one(raw, 30) && one(raw, 29) && one(raw, 28)
            && one(raw, 27) && !one(raw, 26) && one(raw, 25) && !one(raw, 24)),
        ((raw >> 27) & 3 == 0) <==> (!one(raw, 28) && !one(raw, 27)),
        ((raw >> 27) & 3 == 1) <==> (!one(raw, 28) && one(raw, 27)),
        ((raw >> 27) & 3 == 2) <==> (one(raw, 28) && !one(raw, 27)),
        ((raw >> 27) & 3 == 3) <==> (one(raw, 28) && one(raw, 27)),
        ((raw >> 15) & 1 == 1) <==> (one(raw, 15)),
        ((raw >> 25) & 1 == 0) <==> (!one(raw, 25)),
        ((raw >> 24) & 0xFF == 232) <==> (one(raw, 31) && one(raw, 30) && one(raw, 29)
            && !one(raw, 28) && one(raw, 27) && !one(raw, 26) && !one(raw, 25) && !one(raw, 24)),
        ((raw >> 24) & 0xFF == 233) <==> (one(raw, 31) && one(raw, 30) && one(raw, 29)
            && !one(raw, 28) && one(raw, 27) && !one(raw, 26) && !one(raw, 25) && one(raw, 24)),
        ((raw >> 24) & 0xFF == 234) <==> (one(raw, 31) && one(raw, 30) && one(raw, 29)
            && !one(raw, 28) && one(raw, 27) && !one(raw, 26) && one(raw, 25) && !one(raw, 24)),
        ((raw >> 24) & 0xFF == 235) <==> (one(raw, 31) && one(raw, 30) && one(raw, 29)
            && !one(raw, 28) && one(raw, 27) && !one(raw, 26) && one(raw, 25) && one(raw, 24)),
        ((raw >> 20) & 0x7F < 64) <==> !one(raw, 26),
        (8 <= (raw >> 20) & 0xF && (raw >> 20) & 0xF <= 11) <==> (one(raw, 23) && !one(raw, 22)),
        ((raw >> 20) & 0xF <= 3) <==> (!one(raw, 23) && !one(raw, 22)),
        ((raw >> 23) & 3 == 0) <==> (!one(raw, 24) && !one(raw, 23)),
        ((raw >> 23) & 3 == 1) <==> (!one(raw, 24) && one(raw, 23)),
        ((raw >> 23) & 3 == 2) <==> (one(raw, 24) && !one(raw, 23)),
        ((raw >> 23) & 3 == 3) <==> (one(raw, 24) && one(raw, 23)),
        ((raw >> 20) & 1 == 0) <==> (!one(raw, 20)),
        ((raw >> 21) & 1 == 0) <==> (!one(raw, 21)),
        ((raw >> 22) & 1 == 0) <==> (!one(raw, 22)),
        ((raw >> 16) & 0xF == 15) <==> (one(raw, 19) && one(raw, 18) && one(raw, 17)
            && one(raw, 16)),
        ((raw >> 8) & 0xF == 14) <==> (one(raw, 11) && one(raw, 10) && one(raw, 9) && !one(raw, 8)),
        ((raw >> 8) & 0xF == 12) <==> (one(raw, 11) && one(raw, 10) && !one(raw, 9)
            && !one(raw, 8)),
        ((raw >> 23) & 3 >= 2) <==> one(raw, 24),
        (((raw >> 8) & 0xF) & 0x9 == 0x9) <==> (one(raw, 11) && one(raw, 8)),
        (raw & 0x800 == 0) <==> !one(raw, 11),
        (raw & 0x0FC0 == 0) <==> (!one(raw, 11) && !one(raw, 10) && !one(raw, 9) && !one(raw, 8)
            && !one(raw, 7) && !one(raw, 6)),
{
    assert({
        &&& (raw & 0x0000_0F00 == 0x0000_0E00) <==> (one(raw, 11) && one(raw, 10) && one(raw, 9)
            && !one(raw, 8))
        &&& (raw & 0x000F_0000 == 0x000F_0000) <==> (one(raw, 19) && one(raw, 18) && one(raw, 17)
            && one(raw, 16))
        &&& (raw & 0xEE10_0000 == 0xEC00_0000) <==> (one(raw, 31) && one(raw, 30) && one(raw, 29)
            && one(raw, 27) && one(raw, 26)
            && !one(raw, 25) && !one(raw, 20))
        &&& (raw & 0xEE10_0000 == 0xEC10_0000) <==> (one(raw, 31) && one(raw, 30) && one(raw, 29)
            && one(raw, 27) && one(raw, 26)
            && !one(raw, 25) && one(raw, 20))
        &&& (raw & 0xEF00_0010 == 0xEE00_0000) <==> (one(raw, 31) && one(raw, 30) && one(raw, 29)
            && one(raw, 27) && one(raw, 26)
            && one(raw, 25) && !one(raw, 24) && !one(raw, 4))
        &&& (raw & 0xEF10_0010 == 0xEE00_0010) <==> (one(raw, 31) && one(raw, 30) && one(raw, 29)
            && one(raw, 27) && one(raw, 26)
            && one(raw, 25) && !one(raw, 24) && !one(raw, 20) && one(raw, 4))
        &&& (raw & 0xEF10_0010 == 0xEE10_0010) <==> (one(raw, 31) && one(raw, 30) && one(raw, 29)
            && one(raw, 27) && one(raw, 26)
            && one(raw, 25) && !one(raw, 24) && one(raw, 20) && one(raw, 4))
        &&& (raw & 0xEFF0_0000 == 0xEC40_0000) <==> (one(raw, 31) && one(raw, 30) && one(raw, 29)
            && one(raw, 27) && one(raw, 26)
            && !one(raw, 25) && !one(raw, 24) && !one(raw, 23) && one(raw, 22) && !one(raw, 21)
            && !one(raw, 20))
        &&& (raw & 0xEFF0_0000 == 0xEC50_0000) <==> (one(raw, 31) && one(raw, 30) && one(raw, 29)
            && one(raw, 27) && one(raw, 26)
            && !one(raw, 25) && !one(raw, 24) && !one(raw, 23) && one(raw, 22) && !one(raw, 21)
            && one(raw, 20))
        &&& (raw & 0xF800_D000 == 0xF000_8000) <==> (one(raw, 31) && one(raw, 30) && one(raw, 29)
            && one(raw, 28) && !one(raw, 27)
            && one(raw, 15) && !one(raw, 14) && !one(raw, 12))
        &&& (raw & 0xF800_D000 == 0xF000_9000) <==> (one(raw, 31) && one(raw, 30) && one(raw, 29)
            && one(raw, 28) && !one(raw, 27)
            && one(raw, 15) && !one(raw, 14) && one(raw, 12))
        &&& (raw & 0xF800_D000 == 0xF000_C000) <==> (one(raw, 31) && one(raw, 30) && one(raw, 29)
            && one(raw, 28) && !one(raw, 27)
            && one(raw, 15) && one(raw, 14) && !one(raw, 12))
        &&& (raw & 0xF800_D000 == 0xF000_D000) <==> (one(raw, 31) && one(raw, 30) && one(raw, 29)
            && one(raw, 28) && !one(raw, 27)
            && one(raw, 15) && one(raw, 14) && one(raw, 12))
        &&& (raw & 0xFB80_D000 == 0xF380_8000) <==> (one(raw, 31) && one(raw, 30) && one(raw, 29)
            && one(raw, 28) && !one(raw, 27)
            && one(raw, 25) && one(raw, 24) && one(raw, 23) && one(raw, 15) && !one(raw, 14)
            && !one(raw, 12))
        &&& (raw & 0xFBE0_8000 == 0xF000_0000) <==> (one(raw, 31) && one(raw, 30) && one(raw, 29)
            && one(raw, 28) && !one(raw, 27)
            && !one(raw, 25) && !one(raw, 24) && !one(raw, 23) && !one(raw, 22) && !one(raw, 21)
            && !one(raw, 15))
        &&& (raw & 0xFBE0_8000 == 0xF020_0000) <==> (one(raw, 31) && one(raw, 30) && one(raw, 29)
            && one(raw, 28) && !one(raw, 27)
            && !one(raw, 25) && !one(raw, 24) && !one(raw, 23) && !one(raw, 22) && one(raw, 21)
            && !one(raw, 15))
        &&& (raw & 0xFBE0_8000 == 0xF040_0000) <==> (one(raw, 31) && one(raw, 30) && one(raw, 29)
            && one(raw, 28) && !one(raw, 27)
            && !one(raw, 25) && !one(raw, 24) && !one(raw, 23) && one(raw, 22) && !one(raw, 21)
            && !one(raw, 15))
        &&& (raw & 0xFBE0_8000 == 0xF060_0000) <==> (one(raw, 31) && one(raw, 30) && one(raw, 29)
            && one(raw, 28) && !one(raw, 27)
            && !one(raw, 25) && !one(raw, 24) && !one(raw, 23) && one(raw, 22) && one(raw, 21)
            && !one(raw, 15))
        &&& (raw & 0xFBE0_8000 == 0xF080_0000) <==> (one(raw, 31) && one(raw, 30) && one(raw, 29)
            && one(raw, 28) && !one(raw, 27)
            && !one(raw, 25) && !one(raw, 24) && one(raw, 23) && !one(raw, 22) && !one(raw, 21)
            && !one(raw, 15))
        &&& (raw & 0xFBE0_8000 == 0xF100_0000) <==> (one(raw, 31) && one(raw, 30) && one(raw, 29)
            && one(raw, 28) && !one(raw, 27)
            && !one(raw, 25) && one(raw, 24) && !one(raw, 23) && !one(raw, 22) && !one(raw, 21)
            && !one(raw, 15))
        &&& (raw & 0xFBE0_8000 == 0xF140_0000) <==> (one(raw, 31) && one(raw, 30) && one(raw, 29)
            && one(raw, 28) && !one(raw, 27)
            && !one(raw, 25) && one(raw, 24) && !one(raw, 23) && one(raw, 22) && !one(raw, 21)
            && !one(raw, 15))
        &&& (raw & 0xFBE0_8000 == 0xF160_0000) <==> (one(raw, 31) && one(raw, 30) && one(raw, 29)
            && one(raw, 28) && !one(raw, 27)
            && !one(raw, 25) && one(raw, 24) && !one(raw, 23) && one(raw, 22) && one(raw, 21)
            && !one(raw, 15))
        &&& (raw & 0xFBE0_8000 == 0xF1A0_0000) <==> (one(raw, 31) && one(raw, 30) && one(raw, 29)
            && one(raw, 28) && !one(raw, 27)
            && !one(raw, 25) && one(raw, 24) && one(raw, 23) && !one(raw, 22) && one(raw, 21)
            && !one(raw, 15))
        &&& (raw & 0xFBE0_8000 == 0xF1C0_0000) <==> (one(raw, 31) && one(raw, 30) && one(raw, 29)
            && one(raw, 28) && !one(raw, 27)
            && !one(raw, 25) && one(raw, 24) && one(raw, 23) && one(raw, 22) && !one(raw, 21)
            && !one(raw, 15))
        &&& (raw & 0xFBEF_8000 == 0xF04F_0000) <==> (one(raw, 31) && one(raw, 30) && one(raw, 29)
            && one(raw, 28) && !one(raw, 27)
            && !one(raw, 25) && !one(raw, 24) && !one(raw, 23) && one(raw, 22) && !one(raw, 21)
            && one(raw, 19) && one(raw, 18) && one(raw, 17) && one(raw, 16) && !one(raw, 15))
        &&& (raw & 0xFBEF_8000 == 0xF06F_0000) <==> (one(raw, 31) && one(raw, 30) && one(raw, 29)
            && one(raw, 28) && !one(raw, 27)
            && !one(raw, 25) && !one(raw, 24) && !one(raw, 23) && one(raw, 22) && one(raw, 21)
            && one(raw, 19) && one(raw, 18) && one(raw, 17) && one(raw, 16) && !one(raw, 15))
        &&& (raw & 0xFBF0_8000 == 0xF200_0000) <==> (one(raw, 31) && one(raw, 30) && one(raw, 29)
            && one(raw, 28) && !one(raw, 27)
            && one(raw, 25) && !one(raw, 24) && !one(raw, 23) && !one(raw, 22) && !one(raw, 21)
            && !one(raw, 20) && !one(raw, 15))
        &&& (raw & 0xFBF0_8000 == 0xF240_0000) <==> (one(raw, 31) && one(raw, 30) && one(raw, 29)
            && one(raw, 28) && !one(raw, 27)
            && one(raw, 25) && !one(raw, 24) && !one(raw, 23) && one(raw, 22) && !one(raw, 21)
            && !one(raw, 20) && !one(raw, 15))
        &&& (raw & 0xFBF0_8000 == 0xF2A0_0000) <==> (one(raw, 31) && one(raw, 30) && one(raw, 29)
            && one(raw, 28) && !one(raw, 27)
            && one(raw, 25) && !one(raw, 24) && one(raw, 23) && !one(raw, 22) && one(raw, 21)
            && !one(raw, 20) && !one(raw, 15))
        &&& (raw & 0xFBF0_8000 == 0xF2C0_0000) <==> (one(raw, 31) && one(raw, 30) && one(raw, 29)
            && one(raw, 28) && !one(raw, 27)
            && one(raw, 25) && !one(raw, 24) && one(raw, 23) && one(raw, 22) && !one(raw, 21)
            && !one(raw, 20) && !one(raw, 15))
        &&& (raw & 0xFBF0_8F00 == 0xF010_0F00) <==> (one(raw, 31) && one(raw, 30) && one(raw, 29)
            && one(raw, 28) && !one(raw, 27)
            && !one(raw, 25) && !one(raw, 24) && !one(raw, 23) && !one(raw, 22) && !one(raw, 21)
            && one(raw, 20) && !one(raw, 15) && one(raw, 11) && one(raw, 10) && one(raw, 9)
            && one(raw, 8))
        &&& (raw & 0xFBF0_8F00 == 0xF090_0F00) <==> (one(raw, 31) && one(raw, 30) && one(raw, 29)
            && one(raw, 28) && !one(raw, 27)
            && !one(raw, 25) && !one(raw, 24) && one(raw, 23) && !one(raw, 22) && !one(raw, 21)
            && one(raw, 20) && !one(raw, 15) && one(raw, 11) && one(raw, 10) && one(raw, 9)
            && one(raw, 8))
        &&& (raw & 0xFBF0_8F00 == 0xF110_0F00) <==> (one(raw, 31) && one(raw, 30) && one(raw, 29)
            && one(raw, 28) && !one(raw, 27)
            && !one(raw, 25) && one(raw, 24) && !one(raw, 23) && !one(raw, 22) && !one(raw, 21)
            && one(raw, 20) && !one(raw, 15) && one(raw, 11) && one(raw, 10) && one(raw, 9)
            && one(raw, 8))
        &&& (raw & 0xFBF0_8F00 == 0xF1B0_0F00) <==> (one(raw, 31) && one(raw, 30) && one(raw, 29)
            && one(raw, 28) && !one(raw, 27)
            && !one(raw, 25) && one(raw, 24) && one(raw, 23) && !one(raw, 22) && one(raw, 21)
            && one(raw, 20) && !one(raw, 15) && one(raw, 11) && one(raw, 10) && one(raw, 9)
            && one(raw, 8))
        &&& (raw & 0xFBFF_8000 == 0xF20F_0000) <==> (one(raw, 31) && one(raw, 30) && one(raw, 29)
            && one(raw, 28) && !one(raw, 27)
            && one(raw, 25) && !one(raw, 24) && !one(raw, 23) && !one(raw, 22) && !one(raw, 21)
            && !one(raw, 20) && one(raw, 19) && one(raw, 18) && one(raw, 17) && one(raw, 16)
            && !one(raw, 15))
        &&& (raw & 0xFBFF_8000 == 0xF2AF_0000) <==> (one(raw, 31) && one(raw, 30) && one(raw, 29)
            && one(raw, 28) && !one(raw, 27)
            && one(raw, 25) && !one(raw, 24) && one(raw, 23) && !one(raw, 22) && one(raw, 21)
            && !one(raw, 20) && one(raw, 19) && one(raw, 18) && one(raw, 17) && one(raw, 16)
            && !one(raw, 15))
        &&& (raw & 0xFF50_0000 == 0xE940_0000) <==> (one(raw, 31) && one(raw, 30) && one(raw, 29)
            && !one(raw, 28) && one(raw, 27)
            && !one(raw, 26) && !one(raw, 25) && one(raw, 24) && one(raw, 22) && !one(raw, 20))
        &&& (raw & 0xFF50_0000 == 0xE950_0000) <==> (one(raw, 31) && one(raw, 30) && one(raw, 29)
            && !one(raw, 28) && one(raw, 27)
            && !one(raw, 26) && !one(raw, 25) && one(raw, 24) && one(raw, 22) && one(raw, 20))
        &&& (raw & 0xFF5F_0000 == 0xE95F_0000) <==> (one(raw, 31) && one(raw, 30) && one(raw, 29)
            && !one(raw, 28) && one(raw, 27)
            && !one(raw, 26) && !one(raw, 25) && one(raw, 24) && one(raw, 22) && one(raw, 20)
            && one(raw, 19) && one(raw, 18) && one(raw, 17) && one(raw, 16))
        &&& (raw & 0xFF70_0000 == 0xE860_0000) <==> (one(raw, 31) && one(raw, 30) && one(raw, 29)
            && !one(raw, 28) && one(raw, 27)
            && !one(raw, 26) && !one(raw, 25) && !one(raw, 24) && one(raw, 22) && one(raw, 21)
            && !one(raw, 20))
        &&& (raw & 0xFF70_0000 == 0xE870_0000) <==> (one(raw, 31) && one(raw, 30) && one(raw, 29)
            && !one(raw, 28) && one(raw, 27)
            && !one(raw, 26) && !one(raw, 25) && !one(raw, 24) && one(raw, 22) && one(raw, 21)
            && one(raw, 20))
        &&& (raw & 0xFF70_F0F0 == 0xF320_0010) <==> (one(raw, 31) && one(raw, 30) && one(raw, 29)
            && one(raw, 28) && !one(raw, 27)
            && !one(raw, 26) && one(raw, 25) && one(raw, 24) && !one(raw, 22) && one(raw, 21)
            && !one(raw, 20) && !one(raw, 15) && !one(raw, 14) && !one(raw, 13) && !one(raw, 12)
            && !one(raw, 7) && !one(raw, 6) && !one(raw, 5) && one(raw, 4))
        &&& (raw & 0xFF7F_0000 == 0xE87F_0000) <==> (one(raw, 31) && one(raw, 30) && one(raw, 29)
            && !one(raw, 28) && one(raw, 27)
            && !one(raw, 26) && !one(raw, 25) && !one(raw, 24) && one(raw, 22) && one(raw, 21)
            && one(raw, 20) && one(raw, 19) && one(raw, 18) && one(raw, 17) && one(raw, 16))
        &&& (raw & 0xFF7F_0000 == 0xF81F_0000) <==> (one(raw, 31) && one(raw, 30) && one(raw, 29)
            && one(raw, 28) && one(raw, 27)
            && !one(raw, 26) && !one(raw, 25) && !one(raw, 24) && !one(raw, 22) && !one(raw, 21)
            && one(raw, 20) && one(raw, 19) && one(raw, 18) && one(raw, 17) && one(raw, 16))
        &&& (raw & 0xFF7F_0000 == 0xF83F_0000) <==> (one(raw, 31) && one(raw, 30) && one(raw, 29)
            && one(raw, 28) && one(raw, 27)
            && !one(raw, 26) && !one(raw, 25) && !one(raw, 24) && !one(raw, 22) && one(raw, 21)
            && one(raw, 20) && one(raw, 19) && one(raw, 18) && one(raw, 17) && one(raw, 16))
        &&& (raw & 0xFF7F_0000 == 0xF85F_0000) <==> (one(raw, 31) && one(raw, 30) && one(raw, 29)
            && one(raw, 28) && one(raw, 27)
            && !one(raw, 26) && !one(raw, 25) && !one(raw, 24) && one(raw, 22) && !one(raw, 21)
            && one(raw, 20) && one(raw, 19) && one(raw, 18) && one(raw, 17) && one(raw, 16))
        &&& (raw & 0xFF7F_0000 == 0xF91F_0000) <==> (one(raw, 31) && one(raw, 30) && one(raw, 29)
            && one(raw, 28) && one(raw, 27)
            && !one(raw, 26) && !one(raw, 25) && one(raw, 24) && !one(raw, 22) && !one(raw, 21)
            && one(raw, 20) && one(raw, 19) && one(raw, 18) && one(raw, 17) && one(raw, 16))
        &&& (raw & 0xFF7F_0000 == 0xF93F_0000) <==> (one(raw, 31) && one(raw, 30) && one(raw, 29)
            && one(raw, 28) && one(raw, 27)
            && !one(raw, 26) && !one(raw, 25) && one(raw, 24) && !one(raw, 22) && one(raw, 21)
            && one(raw, 20) && one(raw, 19) && one(raw, 18) && one(raw, 17) && one(raw, 16))
        &&& (raw & 0xFF7F_F000 == 0xF81F_F000) <==> (one(raw, 31) && one(raw, 30) && one(raw, 29)
            && one(raw, 28) && one(raw, 27)
            && !one(raw, 26) && !one(raw, 25) && !one(raw, 24) && !one(raw, 22) && !one(raw, 21)
            && one(raw, 20) && one(raw, 19) && one(raw, 18) && one(raw, 17) && one(raw, 16)
            && one(raw, 15) && one(raw, 14) && one(raw, 13) && one(raw, 12))
        &&& (raw & 0xFF7F_F000 == 0xF83F_F000) <==> (one(raw, 31) && one(raw, 30) && one(raw, 29)
            && one(raw, 28) && one(raw, 27)
            && !one(raw, 26) && !one(raw, 25) && !one(raw, 24) && !one(raw, 22) && one(raw, 21)
            && one(raw, 20) && one(raw, 19) && one(raw, 18) && one(raw, 17) && one(raw, 16)
            && one(raw, 15) && one(raw, 14) && one(raw, 13) && one(raw, 12))
        &&& (raw & 0xFF7F_F000 == 0xF91F_F000) <==> (one(raw, 31) && one(raw, 30) && one(raw, 29)
            && one(raw, 28) && one(raw, 27)
            && !one(raw, 26) && !one(raw, 25) && one(raw, 24) && !one(raw, 22) && !one(raw, 21)
            && one(raw, 20) && one(raw, 19) && one(raw, 18) && one(raw, 17) && one(raw, 16)
            && one(raw, 15) && one(raw, 14) && one(raw, 13) && one(raw, 12))
        &&& (raw & 0xFF7F_F000 == 0xF93F_F000) <==> (one(raw, 31) && one(raw, 30) && one(raw, 29)
            && one(raw, 28) && one(raw, 27)
            && !one(raw, 26) && !one(raw, 25) && one(raw, 24) && !one(raw, 22) && one(raw, 21)
            && one(raw, 20) && one(raw, 19) && one(raw, 18) && one(raw, 17) && one(raw, 16)
            && one(raw, 15) && one(raw, 14) && one(raw, 13) && one(raw, 12))
        &&& (raw & 0xFF80_0000 == 0xFB00_0000) <==> (one(raw, 31) && one(raw, 30) && one(raw, 29)
            && one(raw, 28) && one(raw, 27)
            && !one(raw, 26) && one(raw, 25) && one(raw, 24) && !one(raw, 23))
        &&& (raw & 0xFF80_0000 == 0xFB80_0000) <==> (one(raw, 31) && one(raw, 30) && one(raw, 29)
            && one(raw, 28) && one(raw, 27)
            && !one(raw, 26) && one(raw, 25) && one(raw, 24) && one(raw, 23))
        &&& (raw & 0xFFD0_0000 == 0xE890_0000) <==> (one(raw, 31) && one(raw, 30) && one(raw, 29)
            && !one(raw, 28) && one(raw, 27)
            && !one(raw, 26) && !one(raw, 25) && !one(raw, 24) && one(raw, 23) && !one(raw, 22)
            && one(raw, 20))
        &&& (raw & 0xFFD0_0000 == 0xE910_0000) <==> (one(raw, 31) && one(raw, 30) && one(raw, 29)
            && !one(raw, 28) && one(raw, 27)
            && !one(raw, 26) && !one(raw, 25) && one(raw, 24) && !one(raw, 23) && !one(raw, 22)
            && one(raw, 20))
        &&& (raw & 0xFFD0_8000 == 0xE880_0000) <==> (one(raw, 31) && one(raw, 30) && one(raw, 29)
            && !one(raw, 28) && one(raw, 27)
            && !one(raw, 26) && !one(raw, 25) && !one(raw, 24) && one(raw, 23) && !one(raw, 22)
            && !one(raw, 20) && !one(raw, 15))
        &&& (raw & 0xFFD0_8000 == 0xE900_0000) <==> (one(raw, 31) && one(raw, 30) && one(raw, 29)
            && !one(raw, 28) && one(raw, 27)
            && !one(raw, 26) && !one(raw, 25) && one(raw, 24) && !one(raw, 23) && !one(raw, 22)
            && !one(raw, 20) && !one(raw, 15))
        &&& (raw & 0xFFD0_8020 == 0xF300_0000) <==> (one(raw, 31) && one(raw, 30) && one(raw, 29)
            && one(raw, 28) && !one(raw, 27)
            && !one(raw, 26) && one(raw, 25) && one(raw, 24) && !one(raw, 23) && !one(raw, 22)
            && !one(raw, 20) && !one(raw, 15) && !one(raw, 5))
        &&& (raw & 0xFFD0_8020 == 0xF380_0000) <==> (one(raw, 31) && one(raw, 30) && one(raw, 29)
            && one(raw, 28) && !one(raw, 27)
            && !one(raw, 26) && one(raw, 25) && one(raw, 24) && one(raw, 23) && !one(raw, 22)
            && !one(raw, 20) && !one(raw, 15) && !one(raw, 5))
        &&& (raw & 0xFFD0_F000 == 0xF890_F000) <==> (one(raw, 31) && one(raw, 30) && one(raw, 29)
            && one(raw, 28) && one(raw, 27)
            && !one(raw, 26) && !one(raw, 25) && !one(raw, 24) && one(raw, 23) && !one(raw, 22)
            && one(raw, 20) && one(raw, 15) && one(raw, 14) && one(raw, 13) && one(raw, 12))
        &&& (raw & 0xFFD0_FF00 == 0xF810_FC00) <==> (one(raw, 31) && one(raw, 30) && one(raw, 29)
            && one(raw, 28) && one(raw, 27)
            && !one(raw, 26) && !one(raw, 25) && !one(raw, 24) && !one(raw, 23) && !one(raw, 22)
            && one(raw, 20) && one(raw, 15) && one(raw, 14) && one(raw, 13) && one(raw, 12)
            && one(raw, 11) && one(raw, 10) && !one(raw, 9) && !one(raw, 8))
        &&& (raw & 0xFFD0_FFC0 == 0xF810_F000) <==> (one(raw, 31) && one(raw, 30) && one(raw, 29)
            && one(raw, 28) && one(raw, 27)
            && !one(raw, 26) && !one(raw, 25) && !one(raw, 24) && !one(raw, 23) && !one(raw, 22)
            && one(raw, 20) && one(raw, 15) && one(raw, 14) && one(raw, 13) && one(raw, 12)
            && !one(raw, 11) && !one(raw, 10) && !one(raw, 9) && !one(raw, 8) && !one(raw, 7)
            && !one(raw, 6))
        &&& (raw & 0xFFE0_8000 == 0xEA00_0000) <==> (one(raw, 31) && one(raw, 30) && one(raw, 29)
            && !one(raw, 28) && one(raw, 27)
            && !one(raw, 26) && one(raw, 25) && !one(raw, 24) && !one(raw, 23) && !one(raw, 22)
            && !one(raw, 21) && !one(raw, 15))
        &&& (raw & 0xFFE0_8000 == 0xEA20_0000) <==> (one(raw, 31) && one(raw, 30) && one(raw, 29)
            && !one(raw, 28) && one(raw, 27)
            && !one(raw, 26) && one(raw, 25) && !one(raw, 24) && !one(raw, 23) && !one(raw, 22)
            && one(raw, 21) && !one(raw, 15))
        &&& (raw & 0xFFE0_8000 == 0xEA40_0000) <==> (one(raw, 31) && one(raw, 30) && one(raw, 29)
            && !one(raw, 28) && one(raw, 27)
            && !one(raw, 26) && one(raw, 25) && !one(raw, 24) && !one(raw, 23) && one(raw, 22)
            && !one(raw, 21) && !one(raw, 15))
        &&& (raw & 0xFFE0_8000 == 0xEA60_0000) <==> (one(raw, 31) && one(raw, 30) && one(raw, 29)
            && !one(raw, 28) && one(raw, 27)
            && !one(raw, 26) && one(raw, 25) && !one(raw, 24) && !one(raw, 23) && one(raw, 22)
            && one(raw, 21) && !one(raw, 15))
        &&& (raw & 0xFFE0_8000 == 0xEA80_0000) <==> (one(raw, 31) && one(raw, 30) && one(raw, 29)
            && !one(raw, 28) && one(raw, 27)
            && !one(raw, 26) && one(raw, 25) && !one(raw, 24) && one(raw, 23) && !one(raw, 22)
            && !one(raw, 21) && !one(raw, 15))
        &&& (raw & 0xFFE0_8000 == 0xEB00_0000) <==> (one(raw, 31) && one(raw, 30) && one(raw, 29)
            && !one(raw, 28) && one(raw, 27)
            && !one(raw, 26) && one(raw, 25) && one(raw, 24) && !one(raw, 23) && !one(raw, 22)
            && !one(raw, 21) && !one(raw, 15))
        &&& (raw & 0xFFE0_8000 == 0xEB40_0000) <==> (one(raw, 31) && one(raw, 30) && one(raw, 29)
            && !one(raw, 28) && one(raw, 27)
            && !one(raw, 26) && one(raw, 25) && one(raw, 24) && !one(raw, 23) && one(raw, 22)
            && !one(raw, 21) && !one(raw, 15))
        &&& (raw & 0xFFE0_8000 == 0xEB60_0000) <==> (one(raw, 31) && one(raw, 30) && one(raw, 29)
            && !one(raw, 28) && one(raw, 27)
            && !one(raw, 26) && one(raw, 25) && one(raw, 24) && !one(raw, 23) && one(raw, 22)
            && one(raw, 21) && !one(raw, 15))
        &&& (raw & 0xFFE0_8000 == 0xEBA0_0000) <==> (one(raw, 31) && one(raw, 30) && one(raw, 29)
            && !one(raw, 28) && one(raw, 27)
            && !one(raw, 26) && one(raw, 25) && one(raw, 24) && one(raw, 23) && !one(raw, 22)
            && one(raw, 21) && !one(raw, 15))
        &&& (raw & 0xFFE0_8000 == 0xEBC0_0000) <==> (one(raw, 31) && one(raw, 30) && one(raw, 29)
            && !one(raw, 28) && one(raw, 27)
            && !one(raw, 26) && one(raw, 25) && one(raw, 24) && one(raw, 23) && one(raw, 22)
            && !one(raw, 21) && !one(raw, 15))
        &&& (raw & 0xFFE0_F0F0 == 0xFA00_F000) <==> (one(raw, 31) && one(raw, 30) && one(raw, 29)
            && one(raw, 28) && one(raw, 27)
            && !one(raw, 26) && one(raw, 25) && !one(raw, 24) && !one(raw, 23) && !one(raw, 22)
            && !one(raw, 21) && one(raw, 15) && one(raw, 14) && one(raw, 13) && one(raw, 12)
            && !one(raw, 7) && !one(raw, 6) && !one(raw, 5) && !one(raw, 4))
        &&& (raw & 0xFFE0_F0F0 == 0xFA20_F000) <==> (one(raw, 31) && one(raw, 30) && one(raw, 29)
            && one(raw, 28) && one(raw, 27)
            && !one(raw, 26) && one(raw, 25) && !one(raw, 24) && !one(raw, 23) && !one(raw, 22)
            && one(raw, 21) && one(raw, 15) && one(raw, 14) && one(raw, 13) && one(raw, 12)
            && !one(raw, 7) && !one(raw, 6) && !one(raw, 5) && !one(raw, 4))
        &&& (raw & 0xFFE0_F0F0 == 0xFA40_F000) <==> (one(raw, 31) && one(raw, 30) && one(raw, 29)
            && one(raw, 28) && one(raw, 27)
            && !one(raw, 26) && one(raw, 25) && !one(raw, 24) && !one(raw, 23) && one(raw, 22)
            && !one(raw, 21) && one(raw, 15) && one(raw, 14) && one(raw, 13) && one(raw, 12)
            && !one(raw, 7) && !one(raw, 6) && !one(raw, 5) && !one(raw, 4))
        &&& (raw & 0xFFE0_F0F0 == 0xFA60_F000) <==> (one(raw, 31) && one(raw, 30) && one(raw, 29)
            && one(raw, 28) && one(raw, 27)
            && !one(raw, 26) && one(raw, 25) && !one(raw, 24) && !one(raw, 23) && one(raw, 22)
            && one(raw, 21) && one(raw, 15) && one(raw, 14) && one(raw, 13) && one(raw, 12)
            && !one(raw, 7) && !one(raw, 6) && !one(raw, 5) && !one(raw, 4))
        &&& (raw & 0xFFE0_F0FF == 0xF380_8000) <==> (one(raw, 31) && one(raw, 30) && one(raw, 29)
            && one(raw, 28) && !one(raw, 27)
            && !one(raw, 26) && one(raw, 25) && one(raw, 24) && one(raw, 23) && !one(raw, 22)
            && !one(raw, 21) && one(raw, 15) && !one(raw, 14) && !one(raw, 13) && !one(raw, 12)
            && !one(raw, 7) && !one(raw, 6) && !one(raw, 5) && !one(raw, 4) && !one(raw, 3)
            && !one(raw, 2) && !one(raw, 1) && !one(raw, 0))
        &&& (raw & 0xFFEF_8000 == 0xEA4F_0000) <==> (one(raw, 31) && one(raw, 30) && one(raw, 29)
            && !one(raw, 28) && one(raw, 27)
            && !one(raw, 26) && one(raw, 25) && !one(raw, 24) && !one(raw, 23) && one(raw, 22)
            && !one(raw, 21) && one(raw, 19) && one(raw, 18) && one(raw, 17) && one(raw, 16)
            && !one(raw, 15))
        &&& (raw & 0xFFEF_8000 == 0xEA6F_0000) <==> (one(raw, 31) && one(raw, 30) && one(raw, 29)
            && !one(raw, 28) && one(raw, 27)
            && !one(raw, 26) && one(raw, 25) && !one(raw, 24) && !one(raw, 23) && one(raw, 22)
            && one(raw, 21) && one(raw, 19) && one(raw, 18) && one(raw, 17) && one(raw, 16)
            && !one(raw, 15))
        &&& (raw & 0xFFEF_F0FF == 0xF3EF_8000) <==> (one(raw, 31) && one(raw, 30) && one(raw, 29)
            && one(raw, 28) && !one(raw, 27)
            && !one(raw, 26) && one(raw, 25) && one(raw, 24) && one(raw, 23) && one(raw, 22)
            && one(raw, 21) && one(raw, 19) && one(raw, 18) && one(raw, 17) && one(raw, 16)
            && one(raw, 15) && !one(raw, 14) && !one(raw, 13) && !one(raw, 12) && !one(raw, 7)
            && !one(raw, 6) && !one(raw, 5) && !one(raw, 4) && !one(raw, 3) && !one(raw, 2)
            && !one(raw, 1) && !one(raw, 0))
        &&& (raw & 0xFFF0_0000 == 0xE840_0000) <==> (one(raw, 31) && one(raw, 30) && one(raw, 29)
            && !one(raw, 28) && one(raw, 27)
            && !one(raw, 26) && !one(raw, 25) && !one(raw, 24) && !one(raw, 23) && one(raw, 22)
            && !one(raw, 21) && !one(raw, 20))
        &&& (raw & 0xFFF0_0000 == 0xF880_0000) <==> (one(raw, 31) && one(raw, 30) && one(raw, 29)
            && one(raw, 28) && one(raw, 27)
            && !one(raw, 26) && !one(raw, 25) && !one(raw, 24) && one(raw, 23) && !one(raw, 22)
            && !one(raw, 21) && !one(raw, 20))
        &&& (raw & 0xFFF0_0000 == 0xF890_0000) <==> (one(raw, 31) && one(raw, 30) && one(raw, 29)
            && one(raw, 28) && one(raw, 27)
            && !one(raw, 26) && !one(raw, 25) && !one(raw, 24) && one(raw, 23) && !one(raw, 22)
            && !one(raw, 21) && one(raw, 20))
        &&& (raw & 0xFFF0_0000 == 0xF8A0_0000) <==> (one(raw, 31) && one(raw, 30) && one(raw, 29)
            && one(raw, 28) && one(raw, 27)
            && !one(raw, 26) && !one(raw, 25) && !one(raw, 24) && one(raw, 23) && !one(raw, 22)
            && one(raw, 21) && !one(raw, 20))
        &&& (raw & 0xFFF0_0000 == 0xF8B0_0000) <==> (one(raw, 31) && one(raw, 30) && one(raw, 29)
            && one(raw, 28) && one(raw, 27)
            && !one(raw, 26) && !one(raw, 25) && !one(raw, 24) && one(raw, 23) && !one(raw, 22)
            && one(raw, 21) && one(raw, 20))
        &&& (raw & 0xFFF0_0000 == 0xF8C0_0000) <==> (one(raw, 31) && one(raw, 30) && one(raw, 29)
            && one(raw, 28) && one(raw, 27)
            && !one(raw, 26) && !one(raw, 25) && !one(raw, 24) && one(raw, 23) && one(raw, 22)
            && !one(raw, 21) && !one(raw, 20))
        &&& (raw & 0xFFF0_0000 == 0xF8D0_0000) <==> (one(raw, 31) && one(raw, 30) && one(raw, 29)
            && one(raw, 28) && one(raw, 27)
            && !one(raw, 26) && !one(raw, 25) && !one(raw, 24) && one(raw, 23) && one(raw, 22)
            && !one(raw, 21) && one(raw, 20))
        &&& (raw & 0xFFF0_0000 == 0xF990_0000) <==> (one(raw, 31) && one(raw, 30) && one(raw, 29)
            && one(raw, 28) && one(raw, 27)
            && !one(raw, 26) && !one(raw, 25) && one(raw, 24) && one(raw, 23) && !one(raw, 22)
            && !one(raw, 21) && one(raw, 20))
        &&& (raw & 0xFFF0_0000 == 0xF9B0_0000) <==> (one(raw, 31) && one(raw, 30) && one(raw, 29)
            && one(raw, 28) && one(raw, 27)
            && !one(raw, 26) && !one(raw, 25) && one(raw, 24) && one(raw, 23) && !one(raw, 22)
            && one(raw, 21) && one(raw, 20))
        &&& (raw & 0xFFF0_00C0 == 0xFB10_0000) <==> (one(raw, 31) && one(raw, 30) && one(raw, 29)
            && one(raw, 28) && one(raw, 27)
            && !one(raw, 26) && one(raw, 25) && one(raw, 24) && !one(raw, 23) && !one(raw, 22)
            && !one(raw, 21) && one(raw, 20) && !one(raw, 7) && !one(raw, 6))
        &&& (raw & 0xFFF0_00C0 == 0xFBC0_0080) <==> (one(raw, 31) && one(raw, 30) && one(raw, 29)
            && one(raw, 28) && one(raw, 27)
            && !one(raw, 26) && one(raw, 25) && one(raw, 24) && one(raw, 23) && one(raw, 22)
            && !one(raw, 21) && !one(raw, 20) && one(raw, 7) && !one(raw, 6))
        &&& (raw & 0xFFF0_00E0 == 0xFB20_0000) <==> (one(raw, 31) && one(raw, 30) && one(raw, 29)
            && one(raw, 28) && one(raw, 27)
            && !one(raw, 26) && one(raw, 25) && one(raw, 24) && !one(raw, 23) && !one(raw, 22)
            && one(raw, 21) && !one(raw, 20) && !one(raw, 7) && !one(raw, 6) && !one(raw, 5))
        &&& (raw & 0xFFF0_00E0 == 0xFB30_0000) <==> (one(raw, 31) && one(raw, 30) && one(raw, 29)
            && one(raw, 28) && one(raw, 27)
            && !one(raw, 26) && one(raw, 25) && one(raw, 24) && !one(raw, 23) && !one(raw, 22)
            && one(raw, 21) && one(raw, 20) && !one(raw, 7) && !one(raw, 6) && !one(raw, 5))
        &&& (raw & 0xFFF0_00E0 == 0xFB40_0000) <==> (one(raw, 31) && one(raw, 30) && one(raw, 29)
            && one(raw, 28) && one(raw, 27)
            && !one(raw, 26) && one(raw, 25) && one(raw, 24) && !one(raw, 23) && one(raw, 22)
            && !one(raw, 21) && !one(raw, 20) && !one(raw, 7) && !one(raw, 6) && !one(raw, 5))
        &&& (raw & 0xFFF0_00E0 == 0xFB50_0000) <==> (one(raw, 31) && one(raw, 30) && one(raw, 29)
            && one(raw, 28) && one(raw, 27)
            && !one(raw, 26) && one(raw, 25) && one(raw, 24) && !one(raw, 23) && one(raw, 22)
            && !one(raw, 21) && one(raw, 20) && !one(raw, 7) && !one(raw, 6) && !one(raw, 5))
        &&& (raw & 0xFFF0_00E0 == 0xFB60_0000) <==> (one(raw, 31) && one(raw, 30) && one(raw, 29)
            && one(raw, 28) && one(raw, 27)
            && !one(raw, 26) && one(raw, 25) && one(raw, 24) && !one(raw, 23) && one(raw, 22)
            && one(raw, 21) && !one(raw, 20) && !one(raw, 7) && !one(raw, 6) && !one(raw, 5))
        &&& (raw & 0xFFF0_00E0 == 0xFBC0_00C0) <==> (one(raw, 31) && one(raw, 30) && one(raw, 29)
            && one(raw, 28) && one(raw, 27)
            && !one(raw, 26) && one(raw, 25) && one(raw, 24) && one(raw, 23) && one(raw, 22)
            && !one(raw, 21) && !one(raw, 20) && one(raw, 7) && one(raw, 6) && !one(raw, 5))
        &&& (raw & 0xFFF0_00E0 == 0xFBD0_00C0) <==> (one(raw, 31) && one(raw, 30) && one(raw, 29)
            && one(raw, 28) && one(raw, 27)
            && !one(raw, 26) && one(raw, 25) && one(raw, 24) && one(raw, 23) && one(raw, 22)
            && !one(raw, 21) && one(raw, 20) && one(raw, 7) && one(raw, 6) && !one(raw, 5))
        &&& (raw & 0xFFF0_00F0 == 0xE8C0_0070) <==> (one(raw, 31) && one(raw, 30) && one(raw, 29)
            && !one(raw, 28) && one(raw, 27)
            && !one(raw, 26) && !one(raw, 25) && !one(raw, 24) && one(raw, 23) && one(raw, 22)
            && !one(raw, 21) && !one(raw, 20) && !one(raw, 7) && one(raw, 6) && one(raw, 5)
            && one(raw, 4))
        &&& (raw & 0xFFF0_00F0 == 0xFB00_0000) <==> (one(raw, 31) && one(raw, 30) && one(raw, 29)
            && one(raw, 28) && one(raw, 27)
            && !one(raw, 26) && one(raw, 25) && one(raw, 24) && !one(raw, 23) && !one(raw, 22)
            && !one(raw, 21) && !one(raw, 20) && !one(raw, 7) && !one(raw, 6) && !one(raw, 5)
            && !one(raw, 4))
        &&& (raw & 0xFFF0_00F0 == 0xFB00_0010) <==> (one(raw, 31) && one(raw, 30) && one(raw, 29)
            && one(raw, 28) && one(raw, 27)
            && !one(raw, 26) && one(raw, 25) && one(raw, 24) && !one(raw, 23) && !one(raw, 22)
            && !one(raw, 21) && !one(raw, 20) && !one(raw, 7) && !one(raw, 6) && !one(raw, 5)
            && one(raw, 4))
        &&& (raw & 0xFFF0_00F0 == 0xFB70_0000) <==> (one(raw, 31) && one(raw, 30) && one(raw, 29)
            && one(raw, 28) && one(raw, 27)
            && !one(raw, 26) && one(raw, 25) && one(raw, 24) && !one(raw, 23) && one(raw, 22)
            && one(raw, 21) && one(raw, 20) && !one(raw, 7) && !one(raw, 6) && !one(raw, 5)
            && !one(raw, 4))
        &&& (raw & 0xFFF0_00F0 == 0xFB80_0000) <==> (one(raw, 31) && one(raw, 30) && one(raw, 29)
            && one(raw, 28) && one(raw, 27)
            && !one(raw, 26) && one(raw, 25) && one(raw, 24) && one(raw, 23) && !one(raw, 22)
            && !one(raw, 21) && !one(raw, 20) && !one(raw, 7) && !one(raw, 6) && !one(raw, 5)
            && !one(raw, 4))
        &&& (raw & 0xFFF0_00F0 == 0xFBA0_0000) <==> (one(raw, 31) && one(raw, 30) && one(raw, 29)
            && one(raw, 28) && one(raw, 27)
            && !one(raw, 26) && one(raw, 25) && one(raw, 24) && one(raw, 23) && !one(raw, 22)
            && one(raw, 21) && !one(raw, 20) && !one(raw, 7) && !one(raw, 6) && !one(raw, 5)
            && !one(raw, 4))
        &&& (raw & 0xFFF0_00F0 == 0xFBC0_0000) <==> (one(raw, 31) && one(raw, 30) && one(raw, 29)
            && one(raw, 28) && one(raw, 27)
            && !one(raw, 26) && one(raw, 25) && one(raw, 24) && one(raw, 23) && one(raw, 22)
            && !one(raw, 21) && !one(raw, 20) && !one(raw, 7) && !one(raw, 6) && !one(raw, 5)
            && !one(raw, 4))
        &&& (raw & 0xFFF0_00F0 == 0xFBE0_0000) <==> (one(raw, 31) && one(raw, 30) && one(raw, 29)
            && one(raw, 28) && one(raw, 27)
            && !one(raw, 26) && one(raw, 25) && one(raw, 24) && one(raw, 23) && one(raw, 22)
            && one(raw, 21) && !one(raw, 20) && !one(raw, 7) && !one(raw, 6) && !one(raw, 5)
            && !one(raw, 4))
        &&& (raw & 0xFFF0_00F0 == 0xFBE0_0060) <==> (one(raw, 31) && one(raw, 30) && one(raw, 29)
            && one(raw, 28) && one(raw, 27)
            && !one(raw, 26) && one(raw, 25) && one(raw, 24) && one(raw, 23) && one(raw, 22)
            && one(raw, 21) && !one(raw, 20) && !one(raw, 7) && one(raw, 6) && one(raw, 5)
            && !one(raw, 4))
        &&& (raw & 0xFFF0_00FF == 0xE8D0_007F) <==> (one(raw, 31) && one(raw, 30) && one(raw, 29)
            && !one(raw, 28) && one(raw, 27)
            && !one(raw, 26) && !one(raw, 25) && !one(raw, 24) && one(raw, 23) && one(raw, 22)
            && !one(raw, 21) && one(raw, 20) && !one(raw, 7) && one(raw, 6) && one(raw, 5)
            && one(raw, 4) && one(raw, 3) && one(raw, 2) && one(raw, 1) && one(raw, 0))
        &&& (raw & 0xFFF0_0800 == 0xF810_0000) <==> (one(raw, 31) && one(raw, 30) && one(raw, 29)
            && one(raw, 28) && one(raw, 27)
            && !one(raw, 26) && !one(raw, 25) && !one(raw, 24) && !one(raw, 23) && !one(raw, 22)
            && !one(raw, 21) && one(raw, 20) && !one(raw, 11))
        &&& (raw & 0xFFF0_0800 == 0xF810_0800) <==> (one(raw, 31) && one(raw, 30) && one(raw, 29)
            && one(raw, 28) && one(raw, 27)
            && !one(raw, 26) && !one(raw, 25) && !one(raw, 24) && !one(raw, 23) && !one(raw, 22)
            && !one(raw, 21) && one(raw, 20) && one(raw, 11))
        &&& (raw & 0xFFF0_0800 == 0xF830_0000) <==> (one(raw, 31) && one(raw, 30) && one(raw, 29)
            && one(raw, 28) && one(raw, 27)
            && !one(raw, 26) && !one(raw, 25) && !one(raw, 24) && !one(raw, 23) && !one(raw, 22)
            && one(raw, 21) && one(raw, 20) && !one(raw, 11))
        &&& (raw & 0xFFF0_0800 == 0xF830_0800) <==> (one(raw, 31) && one(raw, 30) && one(raw, 29)
            && one(raw, 28) && one(raw, 27)
            && !one(raw, 26) && !one(raw, 25) && !one(raw, 24) && !one(raw, 23) && !one(raw, 22)
            && one(raw, 21) && one(raw, 20) && one(raw, 11))
        &&& (raw & 0xFFF0_0800 == 0xF850_0000) <==> (one(raw, 31) && one(raw, 30) && one(raw, 29)
            && one(raw, 28) && one(raw, 27)
            && !one(raw, 26) && !one(raw, 25) && !one(raw, 24) && !one(raw, 23) && one(raw, 22)
            && !one(raw, 21) && one(raw, 20) && !one(raw, 11))
        &&& (raw & 0xFFF0_0800 == 0xF850_0800) <==> (one(raw, 31) && one(raw, 30) && one(raw, 29)
            && one(raw, 28) && one(raw, 27)
            && !one(raw, 26) && !one(raw, 25) && !one(raw, 24) && !one(raw, 23) && one(raw, 22)
            && !one(raw, 21) && one(raw, 20) && one(raw, 11))
        &&& (raw & 0xFFF0_0800 == 0xF910_0000) <==> (one(raw, 31) && one(raw, 30) && one(raw, 29)
            && one(raw, 28) && one(raw, 27)
            && !one(raw, 26) && !one(raw, 25) && one(raw, 24) && !one(raw, 23) && !one(raw, 22)
            && !one(raw, 21) && one(raw, 20) && !one(raw, 11))
        &&& (raw & 0xFFF0_0800 == 0xF910_0800) <==> (one(raw, 31) && one(raw, 30) && one(raw, 29)
            && one(raw, 28) && one(raw, 27)
            && !one(raw, 26) && !one(raw, 25) && one(raw, 24) && !one(raw, 23) && !one(raw, 22)
            && !one(raw, 21) && one(raw, 20) && one(raw, 11))
        &&& (raw & 0xFFF0_0800 == 0xF930_0000) <==> (one(raw, 31) && one(raw, 30) && one(raw, 29)
            && one(raw, 28) && one(raw, 27)
            && !one(raw, 26) && !one(raw, 25) && one(raw, 24) && !one(raw, 23) && !one(raw, 22)
            && one(raw, 21) && one(raw, 20) && !one(raw, 11))
        &&& (raw & 0xFFF0_0800 == 0xF930_0800) <==> (one(raw, 31) && one(raw, 30) && one(raw, 29)
            && one(raw, 28) && one(raw, 27)
            && !one(raw, 26) && !one(raw, 25) && one(raw, 24) && !one(raw, 23) && !one(raw, 22)
            && one(raw, 21) && one(raw, 20) && one(raw, 11))
        &&& (raw & 0xFFF0_0900 == 0xF800_0900) <==> (one(raw, 31) && one(raw, 30) && one(raw, 29)
            && one(raw, 28) && one(raw, 27)
            && !one(raw, 26) && !one(raw, 25) && !one(raw, 24) && !one(raw, 23) && !one(raw, 22)
            && !one(raw, 21) && !one(raw, 20) && one(raw, 11) && one(raw, 8))
        &&& (raw & 0xFFF0_0900 == 0xF820_0900) <==> (one(raw, 31) && one(raw, 30) && one(raw, 29)
            && one(raw, 28) && one(raw, 27)
            && !one(raw, 26) && !one(raw, 25) && !one(raw, 24) && !one(raw, 23) && !one(raw, 22)
            && one(raw, 21) && !one(raw, 20) && one(raw, 11) && one(raw, 8))
        &&& (raw & 0xFFF0_0900 == 0xF840_0900) <==> (one(raw, 31) && one(raw, 30) && one(raw, 29)
            && one(raw, 28) && one(raw, 27)
            && !one(raw, 26) && !one(raw, 25) && !one(raw, 24) && !one(raw, 23) && one(raw, 22)
            && !one(raw, 21) && !one(raw, 20) && one(raw, 11) && one(raw, 8))
        &&& (raw & 0xFFF0_0F00 == 0xE850_0F00) <==> (one(raw, 31) && one(raw, 30) && one(raw, 29)
            && !one(raw, 28) && one(raw, 27)
            && !one(raw, 26) && !one(raw, 25) && !one(raw, 24) && !one(raw, 23) && one(raw, 22)
            && !one(raw, 21) && one(raw, 20) && one(raw, 11) && one(raw, 10) && one(raw, 9)
            && one(raw, 8))
        &&& (raw & 0xFFF0_0F00 == 0xF800_0C00) <==> (one(raw, 31) && one(raw, 30) && one(raw, 29)
            && one(raw, 28) && one(raw, 27)
            && !one(raw, 26) && !one(raw, 25) && !one(raw, 24) && !one(raw, 23) && !one(raw, 22)
            && !one(raw, 21) && !one(raw, 20) && one(raw, 11) && one(raw, 10) && !one(raw, 9)
            && !one(raw, 8))
        &&& (raw & 0xFFF0_0F00 == 0xF800_0E00) <==> (one(raw, 31) && one(raw, 30) && one(raw, 29)
            && one(raw, 28) && one(raw, 27)
            && !one(raw, 26) && !one(raw, 25) && !one(raw, 24) && !one(raw, 23) && !one(raw, 22)
            && !one(raw, 21) && !one(raw, 20) && one(raw, 11) && one(raw, 10) && one(raw, 9)
            && !one(raw, 8))
        &&& (raw & 0xFFF0_0F00 == 0xF810_0E00) <==> (one(raw, 31) && one(raw, 30) && one(raw, 29)
            && one(raw, 28) && one(raw, 27)
            && !one(raw, 26) && !one(raw, 25) && !one(raw, 24) && !one(raw, 23) && !one(raw, 22)
            && !one(raw, 21) && one(raw, 20) && one(raw, 11) && one(raw, 10) && one(raw, 9)
            && !one(raw, 8))
        &&& (raw & 0xFFF0_0F00 == 0xF820_0C00) <==> (one(raw, 31) && one(raw, 30) && one(raw, 29)
            && one(raw, 28) && one(raw, 27)
            && !one(raw, 26) && !one(raw, 25) && !one(raw, 24) && !one(raw, 23) && !one(raw, 22)
            && one(raw, 21) && !one(raw, 20) && one(raw, 11) && one(raw, 10) && !one(raw, 9)
            && !one(raw, 8))
        &&& (raw & 0xFFF0_0F00 == 0xF820_0E00) <==> (one(raw, 31) && one(raw, 30) && one(raw, 29)
            && one(raw, 28) && one(raw, 27)
            && !one(raw, 26) && !one(raw, 25) && !one(raw, 24) && !one(raw, 23) && !one(raw, 22)
            && one(raw, 21) && !one(raw, 20) && one(raw, 11) && one(raw, 10) && one(raw, 9)
            && !one(raw, 8))
        &&& (raw & 0xFFF0_0F00 == 0xF830_0E00) <==> (one(raw, 31) && one(raw, 30) && one(raw, 29)
            && one(raw, 28) && one(raw, 27)
            && !one(raw, 26) && !one(raw, 25) && !one(raw, 24) && !one(raw, 23) && !one(raw, 22)
            && one(raw, 21) && one(raw, 20) && one(raw, 11) && one(raw, 10) && one(raw, 9)
            && !one(raw, 8))
        &&& (raw & 0xFFF0_0F00 == 0xF840_0C00) <==> (one(raw, 31) && one(raw, 30) && one(raw, 29)
            && one(raw, 28) && one(raw, 27)
            && !one(raw, 26) && !one(raw, 25) && !one(raw, 24) && !one(raw, 23) && one(raw, 22)
            && !one(raw, 21) && !one(raw, 20) && one(raw, 11) && one(raw, 10) && !one(raw, 9)
            && !one(raw, 8))
        &&& (raw & 0xFFF0_0F00 == 0xF840_0E00) <==> (one(raw, 31) && one(raw, 30) && one(raw, 29)
            && one(raw, 28) && one(raw, 27)
            && !one(raw, 26) && !one(raw, 25) && !one(raw, 24) && !one(raw, 23) && one(raw, 22)
            && !one(raw, 21) && !one(raw, 20) && one(raw, 11) && one(raw, 10) && one(raw, 9)
            && !one(raw, 8))
        &&& (raw & 0xFFF0_0F00 == 0xF850_0E00) <==> (one(raw, 31) && one(raw, 30) && one(raw, 29)
            && one(raw, 28) && one(raw, 27)
            && !one(raw, 26) && !one(raw, 25) && !one(raw, 24) && !one(raw, 23) && one(raw, 22)
            && !one(raw, 21) && one(raw, 20) && one(raw, 11) && one(raw, 10) && one(raw, 9)
            && !one(raw, 8))
        &&& (raw & 0xFFF0_0F00 == 0xF910_0E00) <==> (one(raw, 31) && one(raw, 30) && one(raw, 29)
            && one(raw, 28) && one(raw, 27)
            && !one(raw, 26) && !one(raw, 25) && one(raw, 24) && !one(raw, 23) && !one(raw, 22)
            && !one(raw, 21) && one(raw, 20) && one(raw, 11) && one(raw, 10) && one(raw, 9)
            && !one(raw, 8))
        &&& (raw & 0xFFF0_0F00 == 0xF930_0E00) <==> (one(raw, 31) && one(raw, 30) && one(raw, 29)
            && one(raw, 28) && one(raw, 27)
            && !one(raw, 26) && !one(raw, 25) && one(raw, 24) && !one(raw, 23) && !one(raw, 22)
            && one(raw, 21) && one(raw, 20) && one(raw, 11) && one(raw, 10) && one(raw, 9)
            && !one(raw, 8))
        &&& (raw & 0xFFF0_0FC0 == 0xF800_0000) <==> (one(raw, 31) && one(raw, 30) && one(raw, 29)
            && one(raw, 28) && one(raw, 27)
            && !one(raw, 26) && !one(raw, 25) && !one(raw, 24) && !one(raw, 23) && !one(raw, 22)
            && !one(raw, 21) && !one(raw, 20) && !one(raw, 11) && !one(raw, 10) && !one(raw, 9)
            && !one(raw, 8) && !one(raw, 7) && !one(raw, 6))
        &&& (raw & 0xFFF0_0FC0 == 0xF820_0000) <==> (one(raw, 31) && one(raw, 30) && one(raw, 29)
            && one(raw, 28) && one(raw, 27)
            && !one(raw, 26) && !one(raw, 25) && !one(raw, 24) && !one(raw, 23) && !one(raw, 22)
            && one(raw, 21) && !one(raw, 20) && !one(raw, 11) && !one(raw, 10) && !one(raw, 9)
            && !one(raw, 8) && !one(raw, 7) && !one(raw, 6))
        &&& (raw & 0xFFF0_0FC0 == 0xF840_0000) <==> (one(raw, 31) && one(raw, 30) && one(raw, 29)
            && one(raw, 28) && one(raw, 27)
            && !one(raw, 26) && !one(raw, 25) && !one(raw, 24) && !one(raw, 23) && one(raw, 22)
            && !one(raw, 21) && !one(raw, 20) && !one(raw, 11) && !one(raw, 10) && !one(raw, 9)
            && !one(raw, 8) && !one(raw, 7) && !one(raw, 6))
        &&& (raw & 0xFFF0_0FF0 == 0xE8C0_0F40) <==> (one(raw, 31) && one(raw, 30) && one(raw, 29)
            && !one(raw, 28) && one(raw, 27)
            && !one(raw, 26) && !one(raw, 25) && !one(raw, 24) && one(raw, 23) && one(raw, 22)
            && !one(raw, 21) && !one(raw, 20) && one(raw, 11) && one(raw, 10) && one(raw, 9)
            && one(raw, 8) && !one(raw, 7) && one(raw, 6) && !one(raw, 5) && !one(raw, 4))
        &&& (raw & 0xFFF0_0FF0 == 0xE8C0_0F50) <==> (one(raw, 31) && one(raw, 30) && one(raw, 29)
            && !one(raw, 28) && one(raw, 27)
            && !one(raw, 26) && !one(raw, 25) && !one(raw, 24) && one(raw, 23) && one(raw, 22)
            && !one(raw, 21) && !one(raw, 20) && one(raw, 11) && one(raw, 10) && one(raw, 9)
            && one(raw, 8) && !one(raw, 7) && one(raw, 6) && !one(raw, 5) && one(raw, 4))
        &&& (raw & 0xFFF0_0FFF == 0xE8C0_0FAF) <==> (one(raw, 31) && one(raw, 30) && one(raw, 29)
            && !one(raw, 28) && one(raw, 27)
            && !one(raw, 26) && !one(raw, 25) && !one(raw, 24) && one(raw, 23) && one(raw, 22)
            && !one(raw, 21) && !one(raw, 20) && one(raw, 11) && one(raw, 10) && one(raw, 9)
            && one(raw, 8) && one(raw, 7) && !one(raw, 6) && one(raw, 5) && !one(raw, 4)
            && one(raw, 3) && one(raw, 2) && one(raw, 1) && one(raw, 0))
        &&& (raw & 0xFFF0_0FFF == 0xE8D0_0F4F) <==> (one(raw, 31) && one(raw, 30) && one(raw, 29)
            && !one(raw, 28) && one(raw, 27)
            && !one(raw, 26) && !one(raw, 25) && !one(raw, 24) && one(raw, 23) && one(raw, 22)
            && !one(raw, 21) && one(raw, 20) && one(raw, 11) && one(raw, 10) && one(raw, 9)
            && one(raw, 8) && !one(raw, 7) && one(raw, 6) && !one(raw, 5) && !one(raw, 4)
            && one(raw, 3) && one(raw, 2) && one(raw, 1) && one(raw, 0))
        &&& (raw & 0xFFF0_0FFF == 0xE8D0_0F5F) <==> (one(raw, 31) && one(raw, 30) && one(raw, 29)
            && !one(raw, 28) && one(raw, 27)
            && !one(raw, 26) && !one(raw, 25) && !one(raw, 24) && one(raw, 23) && one(raw, 22)
            && !one(raw, 21) && one(raw, 20) && one(raw, 11) && one(raw, 10) && one(raw, 9)
            && one(raw, 8) && !one(raw, 7) && one(raw, 6) && !one(raw, 5) && one(raw, 4)
            && one(raw, 3) && one(raw, 2) && one(raw, 1) && one(raw, 0))
        &&& (raw & 0xFFF0_0FFF == 0xE8D0_0FAF) <==> (one(raw, 31) && one(raw, 30) && one(raw, 29)
            && !one(raw, 28) && one(raw, 27)
            && !one(raw, 26) && !one(raw, 25) && !one(raw, 24) && one(raw, 23) && one(raw, 22)
            && !one(raw, 21) && one(raw, 20) && one(raw, 11) && one(raw, 10) && one(raw, 9)
            && one(raw, 8) && one(raw, 7) && !one(raw, 6) && one(raw, 5) && !one(raw, 4)
            && one(raw, 3) && one(raw, 2) && one(raw, 1) && one(raw, 0))
        &&& (raw & 0xFFF0_8010 == 0xEAC0_0000) <==> (one(raw, 31) && one(raw, 30) && one(raw, 29)
            && !one(raw, 28) && one(raw, 27)
            && !one(raw, 26) && one(raw, 25) && !one(raw, 24) && one(raw, 23) && one(raw, 22)
            && !one(raw, 21) && !one(raw, 20) && !one(raw, 15) && !one(raw, 4))
        &&& (raw & 0xFFF0_8020 == 0xF340_0000) <==> (one(raw, 31) && one(raw, 30) && one(raw, 29)
            && one(raw, 28) && !one(raw, 27)
            && !one(raw, 26) && one(raw, 25) && one(raw, 24) && !one(raw, 23) && one(raw, 22)
            && !one(raw, 21) && !one(raw, 20) && !one(raw, 15) && !one(raw, 5))
        &&& (raw & 0xFFF0_8020 == 0xF360_0000) <==> (one(raw, 31) && one(raw, 30) && one(raw, 29)
            && one(raw, 28) && !one(raw, 27)
            && !one(raw, 26) && one(raw, 25) && one(raw, 24) && !one(raw, 23) && one(raw, 22)
            && one(raw, 21) && !one(raw, 20) && !one(raw, 15) && !one(raw, 5))
        &&& (raw & 0xFFF0_8020 == 0xF3C0_0000) <==> (one(raw, 31) && one(raw, 30) && one(raw, 29)
            && one(raw, 28) && !one(raw, 27)
            && !one(raw, 26) && one(raw, 25) && one(raw, 24) && one(raw, 23) && one(raw, 22)
            && !one(raw, 21) && !one(raw, 20) && !one(raw, 15) && !one(raw, 5))
        &&& (raw & 0xFFF0_8F00 == 0xEA10_0F00) <==> (one(raw, 31) && one(raw, 30) && one(raw, 29)
            && !one(raw, 28) && one(raw, 27)
            && !one(raw, 26) && one(raw, 25) && !one(raw, 24) && !one(raw, 23) && !one(raw, 22)
            && !one(raw, 21) && one(raw, 20) && !one(raw, 15) && one(raw, 11) && one(raw, 10)
            && one(raw, 9) && one(raw, 8))
        &&& (raw & 0xFFF0_8F00 == 0xEA90_0F00) <==> (one(raw, 31) && one(raw, 30) && one(raw, 29)
            && !one(raw, 28) && one(raw, 27)
            && !one(raw, 26) && one(raw, 25) && !one(raw, 24) && one(raw, 23) && !one(raw, 22)
            && !one(raw, 21) && one(raw, 20) && !one(raw, 15) && one(raw, 11) && one(raw, 10)
            && one(raw, 9) && one(raw, 8))
        &&& (raw & 0xFFF0_8F00 == 0xEB10_0F00) <==> (one(raw, 31) && one(raw, 30) && one(raw, 29)
            && !one(raw, 28) && one(raw, 27)
            && !one(raw, 26) && one(raw, 25) && one(raw, 24) && !one(raw, 23) && !one(raw, 22)
            && !one(raw, 21) && one(raw, 20) && !one(raw, 15) && one(raw, 11) && one(raw, 10)
            && one(raw, 9) && one(raw, 8))
        &&& (raw & 0xFFF0_8F00 == 0xEBB0_0F00) <==> (one(raw, 31) && one(raw, 30) && one(raw, 29)
            && !one(raw, 28) && one(raw, 27)
            && !one(raw, 26) && one(raw, 25) && one(raw, 24) && one(raw, 23) && !one(raw, 22)
            && one(raw, 21) && one(raw, 20) && !one(raw, 15) && one(raw, 11) && one(raw, 10)
            && one(raw, 9) && one(raw, 8))
        &&& (raw & 0xFFF0_F000 == 0xF7F0_A000) <==> (one(raw, 31) && one(raw, 30) && one(raw, 29)
            && one(raw, 28) && !one(raw, 27)
            && one(raw, 26) && one(raw, 25) && one(raw, 24) && one(raw, 23) && one(raw, 22)
            && one(raw, 21) && one(raw, 20) && one(raw, 15) && !one(raw, 14) && one(raw, 13)
            && !one(raw, 12))
        &&& (raw & 0xFFF0_F000 == 0xF990_F000) <==> (one(raw, 31) && one(raw, 30) && one(raw, 29)
            && one(raw, 28) && one(raw, 27)
            && !one(raw, 26) && !one(raw, 25) && one(raw, 24) && one(raw, 23) && !one(raw, 22)
            && !one(raw, 21) && one(raw, 20) && one(raw, 15) && one(raw, 14) && one(raw, 13)
            && one(raw, 12))
        &&& (raw & 0xFFF0_F000 == 0xF9B0_F000) <==> (one(raw, 31) && one(raw, 30) && one(raw, 29)
            && one(raw, 28) && one(raw, 27)
            && !one(raw, 26) && !one(raw, 25) && one(raw, 24) && one(raw, 23) && !one(raw, 22)
            && one(raw, 21) && one(raw, 20) && one(raw, 15) && one(raw, 14) && one(raw, 13)
            && one(raw, 12))
        &&& (raw & 0xFFF0_F0C0 == 0xFA00_F080) <==> (one(raw, 31) && one(raw, 30) && one(raw, 29)
            && one(raw, 28) && one(raw, 27)
            && !one(raw, 26) && one(raw, 25) && !one(raw, 24) && !one(raw, 23) && !one(raw, 22)
            && !one(raw, 21) && !one(raw, 20) && one(raw, 15) && one(raw, 14) && one(raw, 13)
            && one(raw, 12) && one(raw, 7) && !one(raw, 6))
        &&& (raw & 0xFFF0_F0C0 == 0xFA10_F080) <==> (one(raw, 31) && one(raw, 30) && one(raw, 29)
            && one(raw, 28) && one(raw, 27)
            && !one(raw, 26) && one(raw, 25) && !one(raw, 24) && !one(raw, 23) && !one(raw, 22)
            && !one(raw, 21) && one(raw, 20) && one(raw, 15) && one(raw, 14) && one(raw, 13)
            && one(raw, 12) && one(raw, 7) && !one(raw, 6))
        &&& (raw & 0xFFF0_F0C0 == 0xFA20_F080) <==> (one(raw, 31) && one(raw, 30) && one(raw, 29)
            && one(raw, 28) && one(raw, 27)
            && !one(raw, 26) && one(raw, 25) && !one(raw, 24) && !one(raw, 23) && !one(raw, 22)
            && one(raw, 21) && !one(raw, 20) && one(raw, 15) && one(raw, 14) && one(raw, 13)
            && one(raw, 12) && one(raw, 7) && !one(raw, 6))
        &&& (raw & 0xFFF0_F0C0 == 0xFA30_F080) <==> (one(raw, 31) && one(raw, 30) && one(raw, 29)
            && one(raw, 28) && one(raw, 27)
            && !one(raw, 26) && one(raw, 25) && !one(raw, 24) && !one(raw, 23) && !one(raw, 22)
            && one(raw, 21) && one(raw, 20) && one(raw, 15) && one(raw, 14) && one(raw, 13)
            && one(raw, 12) && one(raw, 7) && !one(raw, 6))
        &&& (raw & 0xFFF0_F0C0 == 0xFA40_F080) <==> (one(raw, 31) && one(raw, 30) && one(raw, 29)
            && one(raw, 28) && one(raw, 27)
            && !one(raw, 26) && one(raw, 25) && !one(raw, 24) && !one(raw, 23) && one(raw, 22)
            && !one(raw, 21) && !one(raw, 20) && one(raw, 15) && one(raw, 14) && one(raw, 13)
            && one(raw, 12) && one(raw, 7) && !one(raw, 6))
        &&& (raw & 0xFFF0_F0C0 == 0xFA50_F080) <==> (one(raw, 31) && one(raw, 30) && one(raw, 29)
            && one(raw, 28) && one(raw, 27)
            && !one(raw, 26) && one(raw, 25) && !one(raw, 24) && !one(raw, 23) && one(raw, 22)
            && !one(raw, 21) && one(raw, 20) && one(raw, 15) && one(raw, 14) && one(raw, 13)
            && one(raw, 12) && one(raw, 7) && !one(raw, 6))
        &&& (raw & 0xFFF0_F0C0 == 0xFB10_F000) <==> (one(raw, 31) && one(raw, 30) && one(raw, 29)
            && one(raw, 28) && one(raw, 27)
            && !one(raw, 26) && one(raw, 25) && one(raw, 24) && !one(raw, 23) && !one(raw, 22)
            && !one(raw, 21) && one(raw, 20) && one(raw, 15) && one(raw, 14) && one(raw, 13)
            && one(raw, 12) && !one(raw, 7) && !one(raw, 6))
        &&& (raw & 0xFFF0_F0E0 == 0xFB20_F000) <==> (one(raw, 31) && one(raw, 30) && one(raw, 29)
            && one(raw, 28) && one(raw, 27)
            && !one(raw, 26) && one(raw, 25) && one(raw, 24) && !one(raw, 23) && !one(raw, 22)
            && one(raw, 21) && !one(raw, 20) && one(raw, 15) && one(raw, 14) && one(raw, 13)
            && one(raw, 12) && !one(raw, 7) && !one(raw, 6) && !one(raw, 5))
        &&& (raw & 0xFFF0_F0E0 == 0xFB30_F000) <==> (one(raw, 31) && one(raw, 30) && one(raw, 29)
            && one(raw, 28) && one(raw, 27)
            && !one(raw, 26) && one(raw, 25) && one(raw, 24) && !one(raw, 23) && !one(raw, 22)
            && one(raw, 21) && one(raw, 20) && one(raw, 15) && one(raw, 14) && one(raw, 13)
            && one(raw, 12) && !one(raw, 7) && !one(raw, 6) && !one(raw, 5))
        &&& (raw & 0xFFF0_F0E0 == 0xFB40_F000) <==> (one(raw, 31) && one(raw, 30) && one(raw, 29)
            && one(raw, 28) && one(raw, 27)
            && !one(raw, 26) && one(raw, 25) && one(raw, 24) && !one(raw, 23) && one(raw, 22)
            && !one(raw, 21) && !one(raw, 20) && one(raw, 15) && one(raw, 14) && one(raw, 13)
            && one(raw, 12) && !one(raw, 7) && !one(raw, 6) && !one(raw, 5))
        &&& (raw & 0xFFF0_F0E0 == 0xFB50_F000) <==> (one(raw, 31) && one(raw, 30) && one(raw, 29)
            && one(raw, 28) && one(raw, 27)
            && !one(raw, 26) && one(raw, 25) && one(raw, 24) && !one(raw, 23) && one(raw, 22)
            && !one(raw, 21) && one(raw, 20) && one(raw, 15) && one(raw, 14) && one(raw, 13)
            && one(raw, 12) && !one(raw, 7) && !one(raw, 6) && !one(raw, 5))
        &&& (raw & 0xFFF0_F0F0 == 0xF320_0000) <==> (one(raw, 31) && one(raw, 30) && one(raw, 29)
            && one(raw, 28) && !one(raw, 27)
            && !one(raw, 26) && one(raw, 25) && one(raw, 24) && !one(raw, 23) && !one(raw, 22)
            && one(raw, 21) && !one(raw, 20) && !one(raw, 15) && !one(raw, 14) && !one(raw, 13)
            && !one(raw, 12) && !one(raw, 7) && !one(raw, 6) && !one(raw, 5) && !one(raw, 4))
        &&& (raw & 0xFFF0_F0F0 == 0xF3A0_0000) <==> (one(raw, 31) && one(raw, 30) && one(raw, 29)
            && one(raw, 28) && !one(raw, 27)
            && !one(raw, 26) && one(raw, 25) && one(raw, 24) && one(raw, 23) && !one(raw, 22)
            && one(raw, 21) && !one(raw, 20) && !one(raw, 15) && !one(raw, 14) && !one(raw, 13)
            && !one(raw, 12) && !one(raw, 7) && !one(raw, 6) && !one(raw, 5) && !one(raw, 4))
        &&& (raw & 0xFFF0_F0F0 == 0xFA80_F000) <==> (one(raw, 31) && one(raw, 30) && one(raw, 29)
            && one(raw, 28) && one(raw, 27)
            && !one(raw, 26) && one(raw, 25) && !one(raw, 24) && one(raw, 23) && !one(raw, 22)
            && !one(raw, 21) && !one(raw, 20) && one(raw, 15) && one(raw, 14) && one(raw, 13)
            && one(raw, 12) && !one(raw, 7) && !one(raw, 6) && !one(raw, 5) && !one(raw, 4))
        &&& (raw & 0xFFF0_F0F0 == 0xFA80_F010) <==> (one(raw, 31) && one(raw, 30) && one(raw, 29)
            && one(raw, 28) && one(raw, 27)
            && !one(raw, 26) && one(raw, 25) && !one(raw, 24) && one(raw, 23) && !one(raw, 22)
            && !one(raw, 21) && !one(raw, 20) && one(raw, 15) && one(raw, 14) && one(raw, 13)
            && one(raw, 12) && !one(raw, 7) && !one(raw, 6) && !one(raw, 5) && one(raw, 4))
        &&& (raw & 0xFFF0_F0F0 == 0xFA80_F020) <==> (one(raw, 31) && one(raw, 30) && one(raw, 29)
            && one(raw, 28) && one(raw, 27)
            && !one(raw, 26) && one(raw, 25) && !one(raw, 24) && one(raw, 23) && !one(raw, 22)
            && !one(raw, 21) && !one(raw, 20) && one(raw, 15) && one(raw, 14) && one(raw, 13)
            && one(raw, 12) && !one(raw, 7) && !one(raw, 6) && one(raw, 5) && !one(raw, 4))
        &&& (raw & 0xFFF0_F0F0 == 0xFA80_F040) <==> (one(raw, 31) && one(raw, 30) && one(raw, 29)
            && one(raw, 28) && one(raw, 27)
            && !one(raw, 26) && one(raw, 25) && !one(raw, 24) && one(raw, 23) && !one(raw, 22)
            && !one(raw, 21) && !one(raw, 20) && one(raw, 15) && one(raw, 14) && one(raw, 13)
            && one(raw, 12) && !one(raw, 7) && one(raw, 6) && !one(raw, 5) && !one(raw, 4))
        &&& (raw & 0xFFF0_F0F0 == 0xFA80_F050) <==> (one(raw, 31) && one(raw, 30) && one(raw, 29)
            && one(raw, 28) && one(raw, 27)
            && !one(raw, 26) && one(raw, 25) && !one(raw, 24) && one(raw, 23) && !one(raw, 22)
            && !one(raw, 21) && !one(raw, 20) && one(raw, 15) && one(raw, 14) && one(raw, 13)
            && one(raw, 12) && !one(raw, 7) && one(raw, 6) && !one(raw, 5) && one(raw, 4))
        &&& (raw & 0xFFF0_F0F0 == 0xFA80_F060) <==> (one(raw, 31) && one(raw, 30) && one(raw, 29)
            && one(raw, 28) && one(raw, 27)
            && !one(raw, 26) && one(raw, 25) && !one(raw, 24) && one(raw, 23) && !one(raw, 22)
            && !one(raw, 21) && !one(raw, 20) && one(raw, 15) && one(raw, 14) && one(raw, 13)
            && one(raw, 12) && !one(raw, 7) && one(raw, 6) && one(raw, 5) && !one(raw, 4))
        &&& (raw & 0xFFF0_F0F0 == 0xFA80_F080) <==> (one(raw, 31) && one(raw, 30) && one(raw, 29)
            && one(raw, 28) && one(raw, 27)
            && !one(raw, 26) && one(raw, 25) && !one(raw, 24) && one(raw, 23) && !one(raw, 22)
            && !one(raw, 21) && !one(raw, 20) && one(raw, 15) && one(raw, 14) && one(raw, 13)
            && one(raw, 12) && one(raw, 7) && !one(raw, 6) && !one(raw, 5) && !one(raw, 4))
        &&& (raw & 0xFFF0_F0F0 == 0xFA80_F090) <==> (one(raw, 31) && one(raw, 30) && one(raw, 29)
            && one(raw, 28) && one(raw, 27)
            && !one(raw, 26) && one(raw, 25) && !one(raw, 24) && one(raw, 23) && !one(raw, 22)
            && !one(raw, 21) && !one(raw, 20) && one(raw, 15) && one(raw, 14) && one(raw, 13)
            && one(raw, 12) && one(raw, 7) && !one(raw, 6) && !one(raw, 5) && one(raw, 4))
        &&& (raw & 0xFFF0_F0F0 == 0xFA80_F0A0) <==> (one(raw, 31) && one(raw, 30) && one(raw, 29)
            && one(raw, 28) && one(raw, 27)
            && !one(raw, 26) && one(raw, 25) && !one(raw, 24) && one(raw, 23) && !one(raw, 22)
            && !one(raw, 21) && !one(raw, 20) && one(raw, 15) && one(raw, 14) && one(raw, 13)
            && one(raw, 12) && one(raw, 7) && !one(raw, 6) && one(raw, 5) && !one(raw, 4))
        &&& (raw & 0xFFF0_F0F0 == 0xFA80_F0B0) <==> (one(raw, 31) && one(raw, 30) && one(raw, 29)
            && one(raw, 28) && one(raw, 27)
            && !one(raw, 26) && one(raw, 25) && !one(raw, 24) && one(raw, 23) && !one(raw, 22)
            && !one(raw, 21) && !one(raw, 20) && one(raw, 15) && one(raw, 14) && one(raw, 13)
            && one(raw, 12) && one(raw, 7) && !one(raw, 6) && one(raw, 5) && one(raw, 4))
        &&& (raw & 0xFFF0_F0F0 == 0xFA90_F000) <==> (one(raw, 31) && one(raw, 30) && one(raw, 29)
            && one(raw, 28) && one(raw, 27)
            && !one(raw, 26) && one(raw, 25) && !one(raw, 24) && one(raw, 23) && !one(raw, 22)
            && !one(raw, 21) && one(raw, 20) && one(raw, 15) && one(raw, 14) && one(raw, 13)
            && one(raw, 12) && !one(raw, 7) && !one(raw, 6) && !one(raw, 5) && !one(raw, 4))
        &&& (raw & 0xFFF0_F0F0 == 0xFA90_F010) <==> (one(raw, 31) && one(raw, 30) && one(raw, 29)
            && one(raw, 28) && one(raw, 27)
            && !one(raw, 26) && one(raw, 25) && !one(raw, 24) && one(raw, 23) && !one(raw, 22)
            && !one(raw, 21) && one(raw, 20) && one(raw, 15) && one(raw, 14) && one(raw, 13)
            && one(raw, 12) && !one(raw, 7) && !one(raw, 6) && !one(raw, 5) && one(raw, 4))
        &&& (raw & 0xFFF0_F0F0 == 0xFA90_F020) <==> (one(raw, 31) && one(raw, 30) && one(raw, 29)
            && one(raw, 28) && one(raw, 27)
            && !one(raw, 26) && one(raw, 25) && !one(raw, 24) && one(raw, 23) && !one(raw, 22)
            && !one(raw, 21) && one(raw, 20) && one(raw, 15) && one(raw, 14) && one(raw, 13)
            && one(raw, 12) && !one(raw, 7) && !one(raw, 6) && one(raw, 5) && !one(raw, 4))
        &&& (raw & 0xFFF0_F0F0 == 0xFA90_F040) <==> (one(raw, 31) && one(raw, 30) && one(raw, 29)
            && one(raw, 28) && one(raw, 27)
            && !one(raw, 26) && one(raw, 25) && !one(raw, 24) && one(raw, 23) && !one(raw, 22)
            && !one(raw, 21) && one(raw, 20) && one(raw, 15) && one(raw, 14) && one(raw, 13)
            && one(raw, 12) && !one(raw, 7) && one(raw, 6) && !one(raw, 5) && !one(raw, 4))
        &&& (raw & 0xFFF0_F0F0 == 0xFA90_F050) <==> (one(raw, 31) && one(raw, 30) && one(raw, 29)
            && one(raw, 28) && one(raw, 27)
            && !one(raw, 26) && one(raw, 25) && !one(raw, 24) && one(raw, 23) && !one(raw, 22)
            && !one(raw, 21) && one(raw, 20) && one(raw, 15) && one(raw, 14) && one(raw, 13)
            && one(raw, 12) && !one(raw, 7) && one(raw, 6) && !one(raw, 5) && one(raw, 4))
        &&& (raw & 0xFFF0_F0F0 == 0xFA90_F060) <==> (one(raw, 31) && one(raw, 30) && one(raw, 29)
            && one(raw, 28) && one(raw, 27)
            && !one(raw, 26) && one(raw, 25) && !one(raw, 24) && one(raw, 23) && !one(raw, 22)
            && !one(raw, 21) && one(raw, 20) && one(raw, 15) && one(raw, 14) && one(raw, 13)
            && one(raw, 12) && !one(raw, 7) && one(raw, 6) && one(raw, 5) && !one(raw, 4))
        &&& (raw & 0xFFF0_F0F0 == 0xFA90_F080) <==> (one(raw, 31) && one(raw, 30) && one(raw, 29)
            && one(raw, 28) && one(raw, 27)
            && !one(raw, 26) && one(raw, 25) && !one(raw, 24) && one(raw, 23) && !one(raw, 22)
            && !one(raw, 21) && one(raw, 20) && one(raw, 15) && one(raw, 14) && one(raw, 13)
            && one(raw, 12) && one(raw, 7) && !one(raw, 6) && !one(raw, 5) && !one(raw, 4))
        &&& (raw & 0xFFF0_F0F0 == 0xFA90_F090) <==> (one(raw, 31) && one(raw, 30) && one(raw, 29)
            && one(raw, 28) && one(raw, 27)
            && !one(raw, 26) && one(raw, 25) && !one(raw, 24) && one(raw, 23) && !one(raw, 22)
            && !one(raw, 21) && one(raw, 20) && one(raw, 15) && one(raw, 14) && one(raw, 13)
            && one(raw, 12) && one(raw, 7) && !one(raw, 6) && !one(raw, 5) && one(raw, 4))
        &&& (raw & 0xFFF0_F0F0 == 0xFA90_F0A0) <==> (one(raw, 31) && one(raw, 30) && one(raw, 29)
            && one(raw, 28) && one(raw, 27)
            && !one(raw, 26) && one(raw, 25) && !one(raw, 24) && one(raw, 23) && !one(raw, 22)
            && !one(raw, 21) && one(raw, 20) && one(raw, 15) && one(raw, 14) && one(raw, 13)
            && one(raw, 12) && one(raw, 7) && !one(raw, 6) && one(raw, 5) && !one(raw, 4))
        &&& (raw & 0xFFF0_F0F0 == 0xFA90_F0B0) <==> (one(raw, 31) && one(raw, 30) && one(raw, 29)
            && one(raw, 28) && one(raw, 27)
            && !one(raw, 26) && one(raw, 25) && !one(raw, 24) && one(raw, 23) && !one(raw, 22)
            && !one(raw, 21) && one(raw, 20) && one(raw, 15) && one(raw, 14) && one(raw, 13)
            && one(raw, 12) && one(raw, 7) && !one(raw, 6) && one(raw, 5) && one(raw, 4))
        &&& (raw & 0xFFF0_F0F0 == 0xFAA0_F000) <==> (one(raw, 31) && one(raw, 30) && one(raw, 29)
            && one(raw, 28) && one(raw, 27)
            && !one(raw, 26) && one(raw, 25) && !one(raw, 24) && one(raw, 23) && !one(raw, 22)
            && one(raw, 21) && !one(raw, 20) && one(raw, 15) && one(raw, 14) && one(raw, 13)
            && one(raw, 12) && !one(raw, 7) && !one(raw, 6) && !one(raw, 5) && !one(raw, 4))
        &&& (raw & 0xFFF0_F0F0 == 0xFAA0_F010) <==> (one(raw, 31) && one(raw, 30) && one(raw, 29)
            && one(raw, 28) && one(raw, 27)
            && !one(raw, 26) && one(raw, 25) && !one(raw, 24) && one(raw, 23) && !one(raw, 22)
            && one(raw, 21) && !one(raw, 20) && one(raw, 15) && one(raw, 14) && one(raw, 13)
            && one(raw, 12) && !one(raw, 7) && !one(raw, 6) && !one(raw, 5) && one(raw, 4))
        &&& (raw & 0xFFF0_F0F0 == 0xFAA0_F020) <==> (one(raw, 31) && one(raw, 30) && one(raw, 29)
            && one(raw, 28) && one(raw, 27)
            && !one(raw, 26) && one(raw, 25) && !one(raw, 24) && one(raw, 23) && !one(raw, 22)
            && one(raw, 21) && !one(raw, 20) && one(raw, 15) && one(raw, 14) && one(raw, 13)
            && one(raw, 12) && !one(raw, 7) && !one(raw, 6) && one(raw, 5) && !one(raw, 4))
        &&& (raw & 0xFFF0_F0F0 == 0xFAA0_F040) <==> (one(raw, 31) && one(raw, 30) && one(raw, 29)
            && one(raw, 28) && one(raw, 27)
            && !one(raw, 26) && one(raw, 25) && !one(raw, 24) && one(raw, 23) && !one(raw, 22)
            && one(raw, 21) && !one(raw, 20) && one(raw, 15) && one(raw, 14) && one(raw, 13)
            && one(raw, 12) && !one(raw, 7) && one(raw, 6) && !one(raw, 5) && !one(raw, 4))
        &&& (raw & 0xFFF0_F0F0 == 0xFAA0_F050) <==> (one(raw, 31) && one(raw, 30) && one(raw, 29)
            && one(raw, 28) && one(raw, 27)
            && !one(raw, 26) && one(raw, 25) && !one(raw, 24) && one(raw, 23) && !one(raw, 22)
            && one(raw, 21) && !one(raw, 20) && one(raw, 15) && one(raw, 14) && one(raw, 13)
            && one(raw, 12) && !one(raw, 7) && one(raw, 6) && !one(raw, 5) && one(raw, 4))
        &&& (raw & 0xFFF0_F0F0 == 0xFAA0_F060) <==> (one(raw, 31) && one(raw, 30) && one(raw, 29)
            && one(raw, 28) && one(raw, 27)
            && !one(raw, 26) && one(raw, 25) && !one(raw, 24) && one(raw, 23) && !one(raw, 22)
            && one(raw, 21) && !one(raw, 20) && one(raw, 15) && one(raw, 14) && one(raw, 13)
            && one(raw, 12) && !one(raw, 7) && one(raw, 6) && one(raw, 5) && !one(raw, 4))
        &&& (raw & 0xFFF0_F0F0 == 0xFAA0_F080) <==> (one(raw, 31) && one(raw, 30) && one(raw, 29)
            && one(raw, 28) && one(raw, 27)
            && !one(raw, 26) && one(raw, 25) && !one(raw, 24) && one(raw, 23) && !one(raw, 22)
            && one(raw, 21) && !one(raw, 20) && one(raw, 15) && one(raw, 14) && one(raw, 13)
            && one(raw, 12) && one(raw, 7) && !one(raw, 6) && !one(raw, 5) && !one(raw, 4))
        &&& (raw & 0xFFF0_F0F0 == 0xFAB0_F080) <==> (one(raw, 31) && one(raw, 30) && one(raw, 29)
            && one(raw, 28) && one(raw, 27)
            && !one(raw, 26) && one(raw, 25) && !one(raw, 24) && one(raw, 23) && !one(raw, 22)
            && one(raw, 21) && one(raw, 20) && one(raw, 15) && one(raw, 14) && one(raw, 13)
            && one(raw, 12) && one(raw, 7) && !one(raw, 6) && !one(raw, 5) && !one(raw, 4))
        &&& (raw & 0xFFF0_F0F0 == 0xFAC0_F000) <==> (one(raw, 31) && one(raw, 30) && one(raw, 29)
            && one(raw, 28) && one(raw, 27)
            && !one(raw, 26) && one(raw, 25) && !one(raw, 24) && one(raw, 23) && one(raw, 22)
            && !one(raw, 21) && !one(raw, 20) && one(raw, 15) && one(raw, 14) && one(raw, 13)
            && one(raw, 12) && !one(raw, 7) && !one(raw, 6) && !one(raw, 5) && !one(raw, 4))
        &&& (raw & 0xFFF0_F0F0 == 0xFAC0_F010) <==> (one(raw, 31) && one(raw, 30) && one(raw, 29)
            && one(raw, 28) && one(raw, 27)
            && !one(raw, 26) && one(raw, 25) && !one(raw, 24) && one(raw, 23) && one(raw, 22)
            && !one(raw, 21) && !one(raw, 20) && one(raw, 15) && one(raw, 14) && one(raw, 13)
            && one(raw, 12) && !one(raw, 7) && !one(raw, 6) && !one(raw, 5) && one(raw, 4))
        &&& (raw & 0xFFF0_F0F0 == 0xFAC0_F020) <==> (one(raw, 31) && one(raw, 30) && one(raw, 29)
            && one(raw, 28) && one(raw, 27)
            && !one(raw, 26) && one(raw, 25) && !one(raw, 24) && one(raw, 23) && one(raw, 22)
            && !one(raw, 21) && !one(raw, 20) && one(raw, 15) && one(raw, 14) && one(raw, 13)
            && one(raw, 12) && !one(raw, 7) && !one(raw, 6) && one(raw, 5) && !one(raw, 4))
        &&& (raw & 0xFFF0_F0F0 == 0xFAC0_F040) <==> (one(raw, 31) && one(raw, 30) && one(raw, 29)
            && one(raw, 28) && one(raw, 27)
            && !one(raw, 26) && one(raw, 25) && !one(raw, 24) && one(raw, 23) && one(raw, 22)
            && !one(raw, 21) && !one(raw, 20) && one(raw, 15) && one(raw, 14) && one(raw, 13)
            && one(raw, 12) && !one(raw, 7) && one(raw, 6) && !one(raw, 5) && !one(raw, 4))
        &&& (raw & 0xFFF0_F0F0 == 0xFAC0_F050) <==> (one(raw, 31) && one(raw, 30) && one(raw, 29)
            && one(raw, 28) && one(raw, 27)
            && !one(raw, 26) && one(raw, 25) && !one(raw, 24) && one(raw, 23) && one(raw, 22)
            && !one(raw, 21) && !one(raw, 20) && one(raw, 15) && one(raw, 14) && one(raw, 13)
            && one(raw, 12) && !one(raw, 7) && one(raw, 6) && !one(raw, 5) && one(raw, 4))
        &&& (raw & 0xFFF0_F0F0 == 0xFAC0_F060) <==> (one(raw, 31) && one(raw, 30) && one(raw, 29)
            && one(raw, 28) && one(raw, 27)
            && !one(raw, 26) && one(raw, 25) && !one(raw, 24) && one(raw, 23) && one(raw, 22)
            && !one(raw, 21) && !one(raw, 20) && one(raw, 15) && one(raw, 14) && one(raw, 13)
            && one(raw, 12) && !one(raw, 7) && one(raw, 6) && one(raw, 5) && !one(raw, 4))
        &&& (raw & 0xFFF0_F0F0 == 0xFAD0_F000) <==> (one(raw, 31) && one(raw, 30) && one(raw, 29)
            && one(raw, 28) && one(raw, 27)
            && !one(raw, 26) && one(raw, 25) && !one(raw, 24) && one(raw, 23) && one(raw, 22)
            && !one(raw, 21) && one(raw, 20) && one(raw, 15) && one(raw, 14) && one(raw, 13)
            && one(raw, 12) && !one(raw, 7) && !one(raw, 6) && !one(raw, 5) && !one(raw, 4))
        &&& (raw & 0xFFF0_F0F0 == 0xFAD0_F010) <==> (one(raw, 31) && one(raw, 30) && one(raw, 29)
            && one(raw, 28) && one(raw, 27)
            && !one(raw, 26) && one(raw, 25) && !one(raw, 24) && one(raw, 23) && one(raw, 22)
            && !one(raw, 21) && one(raw, 20) && one(raw, 15) && one(raw, 14) && one(raw, 13)
            && one(raw, 12) && !one(raw, 7) && !one(raw, 6) && !one(raw, 5) && one(raw, 4))
        &&& (raw & 0xFFF0_F0F0 == 0xFAD0_F020) <==> (one(raw, 31) && one(raw, 30) && one(raw, 29)
            && one(raw, 28) && one(raw, 27)
            && !one(raw, 26) && one(raw, 25) && !one(raw, 24) && one(raw, 23) && one(raw, 22)
            && !one(raw, 21) && one(raw, 20) && one(raw, 15) && one(raw, 14) && one(raw, 13)
            && one(raw, 12) && !one(raw, 7) && !one(raw, 6) && one(raw, 5) && !one(raw, 4))
        &&& (raw & 0xFFF0_F0F0 == 0xFAD0_F040) <==> (one(raw, 31) && one(raw, 30) && one(raw, 29)
            && one(raw, 28) && one(raw, 27)
            && !one(raw, 26) && one(raw, 25) && !one(raw, 24) && one(raw, 23) && one(raw, 22)
            && !one(raw, 21) && one(raw, 20) && one(raw, 15) && one(raw, 14) && one(raw, 13)
            && one(raw, 12) && !one(raw, 7) && one(raw, 6) && !one(raw, 5) && !one(raw, 4))
        &&& (raw & 0xFFF0_F0F0 == 0xFAD0_F050) <==> (one(raw, 31) && one(raw, 30) && one(raw, 29)
            && one(raw, 28) && one(raw, 27)
            && !one(raw, 26) && one(raw, 25) && !one(raw, 24) && one(raw, 23) && one(raw, 22)
            && !one(raw, 21) && one(raw, 20) && one(raw, 15) && one(raw, 14) && one(raw, 13)
            && one(raw, 12) && !one(raw, 7) && one(raw, 6) && !one(raw, 5) && one(raw, 4))
        &&& (raw & 0xFFF0_F0F0 == 0xFAD0_F060) <==> (one(raw, 31) && one(raw, 30) && one(raw, 29)
            && one(raw, 28) && one(raw, 27)
            && !one(raw, 26) && one(raw, 25) && !one(raw, 24) && one(raw, 23) && one(raw, 22)
            && !one(raw, 21) && one(raw, 20) && one(raw, 15) && one(raw, 14) && one(raw, 13)
            && one(raw, 12) && !one(raw, 7) && one(raw, 6) && one(raw, 5) && !one(raw, 4))
        &&& (raw & 0xFFF0_F0F0 == 0xFAE0_F000) <==> (one(raw, 31) && one(raw, 30) && one(raw, 29)
            && one(raw, 28) && one(raw, 27)
            && !one(raw, 26) && one(raw, 25) && !one(raw, 24) && one(raw, 23) && one(raw, 22)
            && one(raw, 21) && !one(raw, 20) && one(raw, 15) && one(raw, 14) && one(raw, 13)
            && one(raw, 12) && !one(raw, 7) && !one(raw, 6) && !one(raw, 5) && !one(raw, 4))
        &&& (raw & 0xFFF0_F0F0 == 0xFAE0_F010) <==> (one(raw, 31) && one(raw, 30) && one(raw, 29)
            && one(raw, 28) && one(raw, 27)
            && !one(raw, 26) && one(raw, 25) && !one(raw, 24) && one(raw, 23) && one(raw, 22)
            && one(raw, 21) && !one(raw, 20) && one(raw, 15) && one(raw, 14) && one(raw, 13)
            && one(raw, 12) && !one(raw, 7) && !one(raw, 6) && !one(raw, 5) && one(raw, 4))
        &&& (raw & 0xFFF0_F0F0 == 0xFAE0_F020) <==> (one(raw, 31) && one(raw, 30) && one(raw, 29)
            && one(raw, 28) && one(raw, 27)
            && !one(raw, 26) && one(raw, 25) && !one(raw, 24) && one(raw, 23) && one(raw, 22)
            && one(raw, 21) && !one(raw, 20) && one(raw, 15) && one(raw, 14) && one(raw, 13)
            && one(raw, 12) && !one(raw, 7) && !one(raw, 6) && one(raw, 5) && !one(raw, 4))
        &&& (raw & 0xFFF0_F0F0 == 0xFAE0_F040) <==> (one(raw, 31) && one(raw, 30) && one(raw, 29)
            && one(raw, 28) && one(raw, 27)
            && !one(raw, 26) && one(raw, 25) && !one(raw, 24) && one(raw, 23) && one(raw, 22)
            && one(raw, 21) && !one(raw, 20) && one(raw, 15) && one(raw, 14) && one(raw, 13)
            && one(raw, 12) && !one(raw, 7) && one(raw, 6) && !one(raw, 5) && !one(raw, 4))
        &&& (raw & 0xFFF0_F0F0 == 0xFAE0_F050) <==> (one(raw, 31) && one(raw, 30) && one(raw, 29)
            && one(raw, 28) && one(raw, 27)
            && !one(raw, 26) && one(raw, 25) && !one(raw, 24) && one(raw, 23) && one(raw, 22)
            && one(raw, 21) && !one(raw, 20) && one(raw, 15) && one(raw, 14) && one(raw, 13)
            && one(raw, 12) && !one(raw, 7) && one(raw, 6) && !one(raw, 5) && one(raw, 4))
        &&& (raw & 0xFFF0_F0F0 == 0xFAE0_F060) <==> (one(raw, 31) && one(raw, 30) && one(raw, 29)
            && one(raw, 28) && one(raw, 27)
            && !one(raw, 26) && one(raw, 25) && !one(raw, 24) && one(raw, 23) && one(raw, 22)
            && one(raw, 21) && !one(raw, 20) && one(raw, 15) && one(raw, 14) && one(raw, 13)
            && one(raw, 12) && !one(raw, 7) && one(raw, 6) && one(raw, 5) && !one(raw, 4))
        &&& (raw & 0xFFF0_F0F0 == 0xFB00_F000) <==> (one(raw, 31) && one(raw, 30) && one(raw, 29)
            && one(raw, 28) && one(raw, 27)
            && !one(raw, 26) && one(raw, 25) && one(raw, 24) && !one(raw, 23) && !one(raw, 22)
            && !one(raw, 21) && !one(raw, 20) && one(raw, 15) && one(raw, 14) && one(raw, 13)
            && one(raw, 12) && !one(raw, 7) && !one(raw, 6) && !one(raw, 5) && !one(raw, 4))
        &&& (raw & 0xFFF0_F0F0 == 0xFB70_F000) <==> (one(raw, 31) && one(raw, 30) && one(raw, 29)
            && one(raw, 28) && one(raw, 27)
            && !one(raw, 26) && one(raw, 25) && one(raw, 24) && !one(raw, 23) && one(raw, 22)
            && one(raw, 21) && one(raw, 20) && one(raw, 15) && one(raw, 14) && one(raw, 13)
            && one(raw, 12) && !one(raw, 7) && !one(raw, 6) && !one(raw, 5) && !one(raw, 4))
        &&& (raw & 0xFFF0_F0F0 == 0xFB90_F0F0) <==> (one(raw, 31) && one(raw, 30) && one(raw, 29)
            && one(raw, 28) && one(raw, 27)
            && !one(raw, 26) && one(raw, 25) && one(raw, 24) && one(raw, 23) && !one(raw, 22)
            && !one(raw, 21) && one(raw, 20) && one(raw, 15) && one(raw, 14) && one(raw, 13)
            && one(raw, 12) && one(raw, 7) && one(raw, 6) && one(raw, 5) && one(raw, 4))
        &&& (raw & 0xFFF0_F0F0 == 0xFBB0_F0F0) <==> (one(raw, 31) && one(raw, 30) && one(raw, 29)
            && one(raw, 28) && one(raw, 27)
            && !one(raw, 26) && one(raw, 25) && one(raw, 24) && one(raw, 23) && !one(raw, 22)
            && one(raw, 21) && one(raw, 20) && one(raw, 15) && one(raw, 14) && one(raw, 13)
            && one(raw, 12) && one(raw, 7) && one(raw, 6) && one(raw, 5) && one(raw, 4))
        &&& (raw & 0xFFF0_FF00 == 0xF910_FC00) <==> (one(raw, 31) && one(raw, 30) && one(raw, 29)
            && one(raw, 28) && one(raw, 27)
            && !one(raw, 26) && !one(raw, 25) && one(raw, 24) && !one(raw, 23) && !one(raw, 22)
            && !one(raw, 21) && one(raw, 20) && one(raw, 15) && one(raw, 14) && one(raw, 13)
            && one(raw, 12) && one(raw, 11) && one(raw, 10) && !one(raw, 9) && !one(raw, 8))
        &&& (raw & 0xFFF0_FF00 == 0xF930_FC00) <==> (one(raw, 31) && one(raw, 30) && one(raw, 29)
            && one(raw, 28) && one(raw, 27)
            && !one(raw, 26) && !one(raw, 25) && one(raw, 24) && !one(raw, 23) && !one(raw, 22)
            && one(raw, 21) && one(raw, 20) && one(raw, 15) && one(raw, 14) && one(raw, 13)
            && one(raw, 12) && one(raw, 11) && one(raw, 10) && !one(raw, 9) && !one(raw, 8))
        &&& (raw & 0xFFF0_FFC0 == 0xF910_F000) <==> (one(raw, 31) && one(raw, 30) && one(raw, 29)
            && one(raw, 28) && one(raw, 27)
            && !one(raw, 26) && !one(raw, 25) && one(raw, 24) && !one(raw, 23) && !one(raw, 22)
            && !one(raw, 21) && one(raw, 20) && one(raw, 15) && one(raw, 14) && one(raw, 13)
            && one(raw, 12) && !one(raw, 11) && !one(raw, 10) && !one(raw, 9) && !one(raw, 8)
            && !one(raw, 7) && !one(raw, 6))
        &&& (raw & 0xFFF0_FFC0 == 0xF930_F000) <==> (one(raw, 31) && one(raw, 30) && one(raw, 29)
            && one(raw, 28) && one(raw, 27)
            && !one(raw, 26) && !one(raw, 25) && one(raw, 24) && !one(raw, 23) && !one(raw, 22)
            && one(raw, 21) && one(raw, 20) && one(raw, 15) && one(raw, 14) && one(raw, 13)
            && one(raw, 12) && !one(raw, 11) && !one(raw, 10) && !one(raw, 9) && !one(raw, 8)
            && !one(raw, 7) && !one(raw, 6))
        &&& (raw & 0xFFF0_FFF0 == 0xE8D0_F000) <==> (one(raw, 31) && one(raw, 30) && one(raw, 29)
            && !one(raw, 28) && one(raw, 27)
            && !one(raw, 26) && !one(raw, 25) && !one(raw, 24) && one(raw, 23) && one(raw, 22)
            && !one(raw, 21) && one(raw, 20) && one(raw, 15) && one(raw, 14) && one(raw, 13)
            && one(raw, 12) && !one(raw, 11) && !one(raw, 10) && !one(raw, 9) && !one(raw, 8)
            && !one(raw, 7) && !one(raw, 6) && !one(raw, 5) && !one(raw, 4))
        &&& (raw & 0xFFF0_FFF0 == 0xE8D0_F010) <==> (one(raw, 31) && one(raw, 30) && one(raw, 29)
            && !one(raw, 28) && one(raw, 27)
            && !one(raw, 26) && !one(raw, 25) && !one(raw, 24) && one(raw, 23) && one(raw, 22)
            && !one(raw, 21) && one(raw, 20) && one(raw, 15) && one(raw, 14) && one(raw, 13)
            && one(raw, 12) && !one(raw, 11) && !one(raw, 10) && !one(raw, 9) && !one(raw, 8)
            && !one(raw, 7) && !one(raw, 6) && !one(raw, 5) && one(raw, 4))
        &&& (raw & 0xFFF0_FFFF == 0xF3C0_8F00) <==> (one(raw, 31) && one(raw, 30) && one(raw, 29)
            && one(raw, 28) && !one(raw, 27)
            && !one(raw, 26) && one(raw, 25) && one(raw, 24) && one(raw, 23) && one(raw, 22)
            && !one(raw, 21) && !one(raw, 20) && one(raw, 15) && !one(raw, 14) && !one(raw, 13)
            && !one(raw, 12) && one(raw, 11) && one(raw, 10) && one(raw, 9) && one(raw, 8)
            && !one(raw, 7) && !one(raw, 6) && !one(raw, 5) && !one(raw, 4) && !one(raw, 3)
            && !one(raw, 2) && !one(raw, 1) && !one(raw, 0))
        &&& (raw & 0xFFFF_0000 == 0xE8BD_0000) <==> (one(raw, 31) && one(raw, 30) && one(raw, 29)
            && !one(raw, 28) && one(raw, 27)
            && !one(raw, 26) && !one(raw, 25) && !one(raw, 24) && one(raw, 23) && !one(raw, 22)
            && one(raw, 21) && one(raw, 20) && one(raw, 19) && one(raw, 18) && !one(raw, 17)
            && one(raw, 16))
        &&& (raw & 0xFFFF_8000 == 0xE92D_0000) <==> (one(raw, 31) && one(raw, 30) && one(raw, 29)
            && !one(raw, 28) && one(raw, 27)
            && !one(raw, 26) && !one(raw, 25) && one(raw, 24) && !one(raw, 23) && !one(raw, 22)
            && one(raw, 21) && !one(raw, 20) && one(raw, 19) && one(raw, 18) && !one(raw, 17)
            && one(raw, 16) && !one(raw, 15))
        &&& (raw & 0xFFFF_8020 == 0xF36F_0000) <==> (one(raw, 31) && one(raw, 30) && one(raw, 29)
            && one(raw, 28) && !one(raw, 27)
            && !one(raw, 26) && one(raw, 25) && one(raw, 24) && !one(raw, 23) && one(raw, 22)
            && one(raw, 21) && !one(raw, 20) && one(raw, 19) && one(raw, 18) && one(raw, 17)
            && one(raw, 16) && !one(raw, 15) && !one(raw, 5))
        &&& (raw & 0xFFFF_F0C0 == 0xFA0F_F080) <==> (one(raw, 31) && one(raw, 30) && one(raw, 29)
            && one(raw, 28) && one(raw, 27)
            && !one(raw, 26) && one(raw, 25) && !one(raw, 24) && !one(raw, 23) && !one(raw, 22)
            && !one(raw, 21) && !one(raw, 20) && one(raw, 19) && one(raw, 18) && one(raw, 17)
            && one(raw, 16) && one(raw, 15) && one(raw, 14) && one(raw, 13) && one(raw, 12)
            && one(raw, 7) && !one(raw, 6))
        &&& (raw & 0xFFFF_F0C0 == 0xFA1F_F080) <==> (one(raw, 31) && one(raw, 30) && one(raw, 29)
            && one(raw, 28) && one(raw, 27)
            && !one(raw, 26) && one(raw, 25) && !one(raw, 24) && !one(raw, 23) && !one(raw, 22)
            && !one(raw, 21) && one(raw, 20) && one(raw, 19) && one(raw, 18) && one(raw, 17)
            && one(raw, 16) && one(raw, 15) && one(raw, 14) && one(raw, 13) && one(raw, 12)
            && one(raw, 7) && !one(raw, 6))
        &&& (raw & 0xFFFF_F0C0 == 0xFA2F_F080) <==> (one(raw, 31) && one(raw, 30) && one(raw, 29)
            && one(raw, 28) && one(raw, 27)
            && !one(raw, 26) && one(raw, 25) && !one(raw, 24) && !one(raw, 23) && !one(raw, 22)
            && one(raw, 21) && !one(raw, 20) && one(raw, 19) && one(raw, 18) && one(raw, 17)
            && one(raw, 16) && one(raw, 15) && one(raw, 14) && one(raw, 13) && one(raw, 12)
            && one(raw, 7) && !one(raw, 6))
        &&& (raw & 0xFFFF_F0C0 == 0xFA3F_F080) <==> (one(raw, 31) && one(raw, 30) && one(raw, 29)
            && one(raw, 28) && one(raw, 27)
            && !one(raw, 26) && one(raw, 25) && !one(raw, 24) && !one(raw, 23) && !one(raw, 22)
            && one(raw, 21) && one(raw, 20) && one(raw, 19) && one(raw, 18) && one(raw, 17)
            && one(raw, 16) && one(raw, 15) && one(raw, 14) && one(raw, 13) && one(raw, 12)
            && one(raw, 7) && !one(raw, 6))
        &&& (raw & 0xFFFF_F0C0 == 0xFA4F_F080) <==> (one(raw, 31) && one(raw, 30) && one(raw, 29)
            && one(raw, 28) && one(raw, 27)
            && !one(raw, 26) && one(raw, 25) && !one(raw, 24) && !one(raw, 23) && one(raw, 22)
            && !one(raw, 21) && !one(raw, 20) && one(raw, 19) && one(raw, 18) && one(raw, 17)
            && one(raw, 16) && one(raw, 15) && one(raw, 14) && one(raw, 13) && one(raw, 12)
            && one(raw, 7) && !one(raw, 6))
        &&& (raw & 0xFFFF_F0C0 == 0xFA5F_F080) <==> (one(raw, 31) && one(raw, 30) && one(raw, 29)
            && one(raw, 28) && one(raw, 27)
            && !one(raw, 26) && one(raw, 25) && !one(raw, 24) && !one(raw, 23) && one(raw, 22)
            && !one(raw, 21) && one(raw, 20) && one(raw, 19) && one(raw, 18) && one(raw, 17)
            && one(raw, 16) && one(raw, 15) && one(raw, 14) && one(raw, 13) && one(raw, 12)
            && one(raw, 7) && !one(raw, 6))
        &&& (raw & 0xFFFF_FFF0 == 0xF3BF_8F40) <==> (one(raw, 31) && one(raw, 30) && one(raw, 29)
            && one(raw, 28) && !one(raw, 27)
            && !one(raw, 26) && one(raw, 25) && one(raw, 24) && one(raw, 23) && !one(raw, 22)
            && one(raw, 21) && one(raw, 20) && one(raw, 19) && one(raw, 18) && one(raw, 17)
            && one(raw, 16) && one(raw, 15) && !one(raw, 14) && !one(raw, 13) && !one(raw, 12)
            && one(raw, 11) && one(raw, 10) && one(raw, 9) && one(raw, 8) && !one(raw, 7)
            && one(raw, 6) && !one(raw, 5) && !one(raw, 4))
        &&& (raw & 0xFFFF_FFF0 == 0xF3BF_8F50) <==> (one(raw, 31) && one(raw, 30) && one(raw, 29)
            && one(raw, 28) && !one(raw, 27)
            && !one(raw, 26) && one(raw, 25) && one(raw, 24) && one(raw, 23) && !one(raw, 22)
            && one(raw, 21) && one(raw, 20) && one(raw, 19) && one(raw, 18) && one(raw, 17)
            && one(raw, 16) && one(raw, 15) && !one(raw, 14) && !one(raw, 13) && !one(raw, 12)
            && one(raw, 11) && one(raw, 10) && one(raw, 9) && one(raw, 8) && !one(raw, 7)
            && one(raw, 6) && !one(raw, 5) && one(raw, 4))
        &&& (raw & 0xFFFF_FFF0 == 0xF3BF_8F60) <==> (one(raw, 31) && one(raw, 30) && one(raw, 29)
            && one(raw, 28) && !one(raw, 27)
            && !one(raw, 26) && one(raw, 25) && one(raw, 24) && one(raw, 23) && !one(raw, 22)
            && one(raw, 21) && one(raw, 20) && one(raw, 19) && one(raw, 18) && one(raw, 17)
            && one(raw, 16) && one(raw, 15) && !one(raw, 14) && !one(raw, 13) && !one(raw, 12)
            && one(raw, 11) && one(raw, 10) && one(raw, 9) && one(raw, 8) && !one(raw, 7)
            && one(raw, 6) && one(raw, 5) && !one(raw, 4))
        &&& (raw & 0xFFFF_FFFF == 0xF3AF_8000) <==> (one(raw, 31) && one(raw, 30) && one(raw, 29)
            && one(raw, 28) && !one(raw, 27)
            && !one(raw, 26) && one(raw, 25) && one(raw, 24) && one(raw, 23) && !one(raw, 22)
            && one(raw, 21) && !one(raw, 20) && one(raw, 19) && one(raw, 18) && one(raw, 17)
            && one(raw, 16) && one(raw, 15) && !one(raw, 14) && !one(raw, 13) && !one(raw, 12)
            && !one(raw, 11) && !one(raw, 10) && !one(raw, 9) && !one(raw, 8) && !one(raw, 7)
            && !one(raw, 6) && !one(raw, 5) && !one(raw, 4) && !one(raw, 3) && !one(raw, 2)
            && !one(raw, 1) && !one(raw, 0))
        &&& (raw & 0xFFFF_FFFF == 0xF3AF_8001) <==> (one(raw, 31) && one(raw, 30) && one(raw, 29)
            && one(raw, 28) && !one(raw, 27)
            && !one(raw, 26) && one(raw, 25) && one(raw, 24) && one(raw, 23) && !one(raw, 22)
            && one(raw, 21) && !one(raw, 20) && one(raw, 19) && one(raw, 18) && one(raw, 17)
            && one(raw, 16) && one(raw, 15) && !one(raw, 14) && !one(raw, 13) && !one(raw, 12)
            && !one(raw, 11) && !one(raw, 10) && !one(raw, 9) && !one(raw, 8) && !one(raw, 7)
            && !one(raw, 6) && !one(raw, 5) && !one(raw, 4) && !one(raw, 3) && !one(raw, 2)
            && !one(raw, 1) && one(raw, 0))
        &&& (raw & 0xFFFF_FFFF == 0xF3AF_8002) <==> (one(raw, 31) && one(raw, 30) && one(raw, 29)
            && one(raw, 28) && !one(raw, 27)
            && !one(raw, 26) && one(raw, 25) && one(raw, 24) && one(raw, 23) && !one(raw, 22)
            && one(raw, 21) && !one(raw, 20) && one(raw, 19) && one(raw, 18) && one(raw, 17)
            && one(raw, 16) && one(raw, 15) && !one(raw, 14) && !one(raw, 13) && !one(raw, 12)
            && !one(raw, 11) && !one(raw, 10) && !one(raw, 9) && !one(raw, 8) && !one(raw, 7)
            && !one(raw, 6) && !one(raw, 5) && !one(raw, 4) && !one(raw, 3) && !one(raw, 2)
            && one(raw, 1) && !one(raw, 0))
        &&& (raw & 0xFFFF_FFFF == 0xF3AF_8003) <==> (one(raw, 31) && one(raw, 30) && one(raw, 29)
            && one(raw, 28) && !one(raw, 27)
            && !one(raw, 26) && one(raw, 25) && one(raw, 24) && one(raw, 23) && !one(raw, 22)
            && one(raw, 21) && !one(raw, 20) && one(raw, 19) && one(raw, 18) && one(raw, 17)
            && one(raw, 16) && one(raw, 15) && !one(raw, 14) && !one(raw, 13) && !one(raw, 12)
            && !one(raw, 11) && !one(raw, 10) && !one(raw, 9) && !one(raw, 8) && !one(raw, 7)
            && !one(raw, 6) && !one(raw, 5) && !one(raw, 4) && !one(raw, 3) && !one(raw, 2)
            && one(raw, 1) && one(raw, 0))
        &&& (raw & 0xFFFF_FFFF == 0xF3AF_8004) <==> (one(raw, 31) && one(raw, 30) && one(raw, 29)
            && one(raw, 28) && !one(raw, 27)
            && !one(raw, 26) && one(raw, 25) && one(raw, 24) && one(raw, 23) && !one(raw, 22)
            && one(raw, 21) && !one(raw, 20) && one(raw, 19) && one(raw, 18) && one(raw, 17)
            && one(raw, 16) && one(raw, 15) && !one(raw, 14) && !one(raw, 13) && !one(raw, 12)
            && !one(raw, 11) && !one(raw, 10) && !one(raw, 9) && !one(raw, 8) && !one(raw, 7)
            && !one(raw, 6) && !one(raw, 5) && !one(raw, 4) && !one(raw, 3) && one(raw, 2)
            && !one(raw, 1) && !one(raw, 0))
        &&& (raw & 0xFFFF_FFFF == 0xF3AF_8005) <==> (one(raw, 31) && one(raw, 30) && one(raw, 29)
            && one(raw, 28) && !one(raw, 27)
            && !one(raw, 26) && one(raw, 25) && one(raw, 24) && one(raw, 23) && !one(raw, 22)
            && one(raw, 21) && !one(raw, 20) && one(raw, 19) && one(raw, 18) && one(raw, 17)
            && one(raw, 16) && one(raw, 15) && !one(raw, 14) && !one(raw, 13) && !one(raw, 12)
            && !one(raw, 11) && !one(raw, 10) && !one(raw, 9) && !one(raw, 8) && !one(raw, 7)
            && !one(raw, 6) && !one(raw, 5) && !one(raw, 4) && !one(raw, 3) && one(raw, 2)
            && !one(raw, 1) && one(raw, 0))
        &&& (raw & 0xFFFF_FFFF == 0xF3BF_8F2F) <==> (one(raw, 31) && one(raw, 30) && one(raw, 29)
            && one(raw, 28) && !one(raw, 27)
            && !one(raw, 26) && one(raw, 25) && one(raw, 24) && one(raw, 23) && !one(raw, 22)
            && one(raw, 21) && one(raw, 20) && one(raw, 19) && one(raw, 18) && one(raw, 17)
            && one(raw, 16) && one(raw, 15) && !one(raw, 14) && !one(raw, 13) && !one(raw, 12)
            && one(raw, 11) && one(raw, 10) && one(raw, 9) && one(raw, 8) && !one(raw, 7)
            && !one(raw, 6) && one(raw, 5) && !one(raw, 4) && one(raw, 3) && one(raw, 2)
            && one(raw, 1) && one(raw, 0))
        &&& (raw >> 24 == 0xFA) <==> (one(raw, 31) && one(raw, 30) && one(raw, 29) && one(raw, 28)
            && one(raw, 27) && !one(raw, 26) && one(raw, 25) && !one(raw, 24))
        &&& ((raw >> 27) & 3 == 0) <==> (!one(raw, 28) && !one(raw, 27))
        &&& ((raw >> 27) & 3 == 1) <==> (!one(raw, 28) && one(raw, 27))
        &&& ((raw >> 27) & 3 == 2) <==> (one(raw, 28) && !one(raw, 27))
        &&& ((raw >> 27) & 3 == 3) <==> (one(raw, 28) && one(raw, 27))
        &&& ((raw >> 15) & 1 == 1) <==> (one(raw, 15))
        &&& ((raw >> 25) & 1 == 0) <==> (!one(raw, 25))
        &&& ((raw >> 24) & 0xFF == 232) <==> (one(raw, 31) && one(raw, 30) && one(raw, 29)
            && !one(raw, 28) && one(raw, 27) && !one(raw, 26) && !one(raw, 25) && !one(raw, 24))
        &&& ((raw >> 24) & 0xFF == 233) <==> (one(raw, 31) && one(raw, 30) && one(raw, 29)
            && !one(raw, 28) && one(raw, 27) && !one(raw, 26) && !one(raw, 25) && one(raw, 24))
        &&& ((raw >> 24) & 0xFF == 234) <==> (one(raw, 31) && one(raw, 30) && one(raw, 29)
            && !one(raw, 28) && one(raw, 27) && !one(raw, 26) && one(raw, 25) && !one(raw, 24))
        &&& ((raw >> 24) & 0xFF == 235) <==> (one(raw, 31) && one(raw, 30) && one(raw, 29)
            && !one(raw, 28) && one(raw, 27) && !one(raw, 26) && one(raw, 25) && one(raw, 24))
        &&& ((raw >> 20) & 0x7F < 64) <==> !one(raw, 26)
        &&& (8 <= (raw >> 20) & 0xF && (raw >> 20) & 0xF <= 11) <==> (one(raw, 23) && !one(raw, 22))
        &&& ((raw >> 20) & 0xF <= 3) <==> (!one(raw, 23) && !one(raw, 22))
        &&& ((raw >> 23) & 3 == 0) <==> (!one(raw, 24) && !one(raw, 23))
        &&& ((raw >> 23) & 3 == 1) <==> (!one(raw, 24) && one(raw, 23))
        &&& ((raw >> 23) & 3 == 2) <==> (one(raw, 24) && !one(raw, 23))
        &&& ((raw >> 23) & 3 == 3) <==> (one(raw, 24) && one(raw, 23))
        &&& ((raw >> 20) & 1 == 0) <==> (!one(raw, 20))
        &&& ((raw >> 21) & 1 == 0) <==> (!one(raw, 21))
        &&& ((raw >> 22) & 1 == 0) <==> (!one(raw, 22))
        &&& ((raw >> 16) & 0xF == 15) <==> (one(raw, 19) && one(raw, 18) && one(raw, 17)
            && one(raw, 16))
        &&& ((raw >> 8) & 0xF == 14) <==> (one(raw, 11) && one(raw, 10) && one(raw, 9)
            && !one(raw, 8))
        &&& ((raw >> 8) & 0xF == 12) <==> (one(raw, 11) && one(raw, 10) && !one(raw, 9)
            && !one(raw, 8))
        &&& ((raw >> 23) & 3 >= 2) <==> one(raw, 24)
        &&& (((raw >> 8) & 0xF) & 0x9 == 0x9) <==> (one(raw, 11) && one(raw, 8))
        &&& (raw & 0x800 == 0) <==> !one(raw, 11)
        &&& (raw & 0x0FC0 == 0) <==> (!one(raw, 11) && !one(raw, 10) && !one(raw, 9) && !one(raw, 8)
            && !one(raw, 7) && !one(raw, 6))
    }) by (bit_vector);
}

/// The bits of 32-bit Thumb instructions: a word that fits the pattern of an
/// instruction is decoded as that instruction.
#[verifier::rlimit(60)]
pub proof fn thumb32_bits_1(raw: u32)
    ensures
        raw & 0xFF7F_F000 == 0xF81F_F000 ==> thumb32_encoding(raw)
            == Thumb32InstId::PLD_lit,
        raw & 0xFF7F_F000 == 0xF83F_F000 ==> thumb32_encoding(raw)
            == Thumb32InstId::PLD_lit,
        raw & 0xFFD0_FFC0 == 0xF810_F000 && raw & 0xFF7F_F000 != 0xF81F_F000
            && raw & 0xFF7F_F000 != 0xF83F_F000 ==> thumb32_encoding(raw)
            == Thumb32InstId::PLD_reg,
        raw & 0xFFD0_FF00 == 0xF810_FC00 && raw & 0xFF7F_F000 != 0xF81F_F000
            && raw & 0xFF7F_F000 != 0xF83F_F000 ==> thumb32_encoding(raw)
            == Thumb32InstId::PLD_imm8,
        raw & 0xFFD0_F000 == 0xF890_F000 && raw & 0xFF7F_F000 != 0xF81F_F000
            && raw & 0xFF7F_F000 != 0xF83F_F000 ==> thumb32_encoding(raw)
            == Thumb32InstId::PLD_imm12,
        raw & 0xFF7F_F000 == 0xF91F_F000 ==> thumb32_encoding(raw)
            == Thumb32InstId::PLI_lit,
        raw & 0xFFF0_FFC0 == 0xF910_F000 && raw & 0xFF7F_F000 != 0xF91F_F000
            ==> thumb32_encoding(raw)
            == Thumb32InstId::PLI_reg,
        raw & 0xFFF0_FF00 == 0xF910_FC00 && raw & 0xFF7F_F000 != 0xF91F_F000
            ==> thumb32_encoding(raw)
            == Thumb32InstId::PLI_imm8,
        raw & 0xFFF0_F000 == 0xF990_F000 && raw & 0xFF7F_F000 != 0xF91F_F000
            ==> thumb32_encoding(raw)
            == Thumb32InstId::PLI_imm12,
        raw & 0xFF7F_F000 == 0xF93F_F000 ==> thumb32_encoding(raw)
            == Thumb32InstId::NOP,
        raw & 0xFFF0_FFC0 == 0xF930_F000 ==> thumb32_encoding(raw)
            == Thumb32InstId::NOP,
        raw & 0xFFF0_FF00 == 0xF930_FC00 ==> thumb32_encoding(raw)
            == Thumb32InstId::NOP,
        raw & 0xFFF0_F000 == 0xF9B0_F000 ==> thumb32_encoding(raw)
            == Thumb32InstId::NOP,
        raw & 0xEFF0_0000 == 0xEC40_0000 ==> thumb32_encoding(raw)
            == Thumb32InstId::MCRR,
        raw & 0xEFF0_0000 == 0xEC50_0000 ==> thumb32_encoding(raw)
            == Thumb32InstId::MRRC,
        raw & 0xEF10_0010 == 0xEE00_0010 ==> thumb32_encoding(raw)
            == Thumb32InstId::MCR,
        raw & 0xEF10_0010 == 0xEE10_0010 ==> thumb32_encoding(raw)
            == Thumb32InstId::MRC,
        raw & 0xEF00_0010 == 0xEE00_0000 ==> thumb32_encoding(raw)
            == Thumb32InstId::CDP,
        raw & 0xEE10_0000 == 0xEC10_0000 && raw & 0xEFF0_0000 != 0xEC50_0000
            ==> thumb32_encoding(raw)
            == Thumb32InstId::LDC,
        raw & 0xEE10_0000 == 0xEC00_0000 && raw & 0xEFF0_0000 != 0xEC40_0000
            ==> thumb32_encoding(raw)
            == Thumb32InstId::STC,
        raw & 0xFFE0_F0F0 == 0xFA00_F000 ==> thumb32_encoding(raw)
            == Thumb32InstId::LSL_reg,
        raw & 0xFFE0_F0F0 == 0xFA20_F000 ==> thumb32_encoding(raw)
            == Thumb32InstId::LSR_reg,
        raw & 0xFFE0_F0F0 == 0xFA40_F000 ==> thumb32_encoding(raw)
            == Thumb32InstId::ASR_reg,
        raw & 0xFFE0_F0F0 == 0xFA60_F000 ==> thumb32_encoding(raw)
            == Thumb32InstId::ROR_reg,
{
    thumb32_patterns(raw);
}

/// The bits of 32-bit Thumb instructions: a word that fits the pattern of an
/// instruction is decoded as that instruction.
#[verifier::rlimit(60)]
pub proof fn thumb32_bits_2(raw: u32)
    ensures
        raw & 0xFFFF_F0C0 == 0xFA0F_F080 ==> thumb32_encoding(raw)
            == Thumb32InstId::SXTH,
        raw & 0xFFF0_F0C0 == 0xFA00_F080 && raw & 0xFFFF_F0C0 != 0xFA0F_F080
            ==> thumb32_encoding(raw)
            == Thumb32InstId::SXTAH,
        raw & 0xFFFF_F0C0 == 0xFA1F_F080 ==> thumb32_encoding(raw)
            == Thumb32InstId::UXTH,
        raw & 0xFFF0_F0C0 == 0xFA10_F080 && raw & 0xFFFF_F0C0 != 0xFA1F_F080
            ==> thumb32_encoding(raw)
            == Thumb32InstId::UXTAH,
        raw & 0xFFFF_F0C0 == 0xFA2F_F080 ==> thumb32_encoding(raw)
            == Thumb32InstId::SXTB16,
        raw & 0xFFF0_F0C0 == 0xFA20_F080 && raw & 0xFFFF_F0C0 != 0xFA2F_F080
            ==> thumb32_encoding(raw)
            == Thumb32InstId::SXTAB16,
        raw & 0xFFFF_F0C0 == 0xFA3F_F080 ==> thumb32_encoding(raw)
            == Thumb32InstId::UXTB16,
        raw & 0xFFF0_F0C0 == 0xFA30_F080 && raw & 0xFFFF_F0C0 != 0xFA3F_F080
            ==> thumb32_encoding(raw)
            == Thumb32InstId::UXTAB16,
        raw & 0xFFFF_F0C0 == 0xFA4F_F080 ==> thumb32_encoding(raw)
            == Thumb32InstId::SXTB,
        raw & 0xFFF0_F0C0 == 0xFA40_F080 && raw & 0xFFFF_F0C0 != 0xFA4F_F080
            ==> thumb32_encoding(raw)
            == Thumb32InstId::SXTAB,
        raw & 0xFFFF_F0C0 == 0xFA5F_F080 ==> thumb32_encoding(raw)
            == Thumb32InstId::UXTB,
        raw & 0xFFF0_F0C0 == 0xFA50_F080 && raw & 0xFFFF_F0C0 != 0xFA5F_F080
            ==> thumb32_encoding(raw)
            == Thumb32InstId::UXTAB,
        raw & 0xFFF0_F0F0 == 0xFA90_F000 ==> thumb32_encoding(raw)
            == Thumb32InstId::SADD16,
        raw & 0xFFF0_F0F0 == 0xFAA0_F000 ==> thumb32_encoding(raw)
            == Thumb32InstId::SASX,
        raw & 0xFFF0_F0F0 == 0xFAE0_F000 ==> thumb32_encoding(raw)
            == Thumb32InstId::SSAX,
        raw & 0xFFF0_F0F0 == 0xFAD0_F000 ==> thumb32_encoding(raw)
            == Thumb32InstId::SSUB16,
        raw & 0xFFF0_F0F0 == 0xFA80_F000 ==> thumb32_encoding(raw)
            == Thumb32InstId::SADD8,
        raw & 0xFFF0_F0F0 == 0xFAC0_F000 ==> thumb32_encoding(raw)
            == Thumb32InstId::SSUB8,
        raw & 0xFFF0_F0F0 == 0xFA90_F010 ==> thumb32_encoding(raw)
            == Thumb32InstId::QADD16,
        raw & 0xFFF0_F0F0 == 0xFAA0_F010 ==> thumb32_encoding(raw)
            == Thumb32InstId::QASX,
        raw & 0xFFF0_F0F0 == 0xFAE0_F010 ==> thumb32_encoding(raw)
            == Thumb32InstId::QSAX,
        raw & 0xFFF0_F0F0 == 0xFAD0_F010 ==> thumb32_encoding(raw)
            == Thumb32InstId::QSUB16,
        raw & 0xFFF0_F0F0 == 0xFA80_F010 ==> thumb32_encoding(raw)
            == Thumb32InstId::QADD8,
        raw & 0xFFF0_F0F0 == 0xFAC0_F010 ==> thumb32_encoding(raw)
            == Thumb32InstId::QSUB8,
{
    thumb32_patterns(raw);
}

/// The bits of 32-bit Thumb instructions: a word that fits the pattern of an
/// instruction is decoded as that instruction.
#[verifier::rlimit(60)]
pub proof fn thumb32_bits_3(raw: u32)
    ensures
        raw & 0xFFF0_F0F0 == 0xFA90_F020 ==> thumb32_encoding(raw)
            == Thumb32InstId::SHADD16,
        raw & 0xFFF0_F0F0 == 0xFAA0_F020 ==> thumb32_encoding(raw)
            == Thumb32InstId::SHASX,
        raw & 0xFFF0_F0F0 == 0xFAE0_F020 ==> thumb32_encoding(raw)
            == Thumb32InstId::SHSAX,
        raw & 0xFFF0_F0F0 == 0xFAD0_F020 ==> thumb32_encoding(raw)
            == Thumb32InstId::SHSUB16,
        raw & 0xFFF0_F0F0 == 0xFA80_F020 ==> thumb32_encoding(raw)
            == Thumb32InstId::SHADD8,
        raw & 0xFFF0_F0F0 == 0xFAC0_F020 ==> thumb32_encoding(raw)
            == Thumb32InstId::SHSUB8,
        raw & 0xFFF0_F0F0 == 0xFA90_F040 ==> thumb32_encoding(raw)
            == Thumb32InstId::UADD16,
        raw & 0xFFF0_F0F0 == 0xFAA0_F040 ==> thumb32_encoding(raw)
            == Thumb32InstId::UASX,
        raw & 0xFFF0_F0F0 == 0xFAE0_F040 ==> thumb32_encoding(raw)
            == Thumb32InstId::USAX,
        raw & 0xFFF0_F0F0 == 0xFAD0_F040 ==> thumb32_encoding(raw)
            == Thumb32InstId::USUB16,
        raw & 0xFFF0_F0F0 == 0xFA80_F040 ==> thumb32_encoding(raw)
            == Thumb32InstId::UADD8,
        raw & 0xFFF0_F0F0 == 0xFAC0_F040 ==> thumb32_encoding(raw)
            == Thumb32InstId::USUB8,
        raw & 0xFFF0_F0F0 == 0xFA90_F050 ==> thumb32_encoding(raw)
            == Thumb32InstId::UQADD16,
        raw & 0xFFF0_F0F0 == 0xFAA0_F050 ==> thumb32_encoding(raw)
            == Thumb32InstId::UQASX,
        raw & 0xFFF0_F0F0 == 0xFAE0_F050 ==> thumb32_encoding(raw)
            == Thumb32InstId::UQSAX,
        raw & 0xFFF0_F0F0 == 0xFAD0_F050 ==> thumb32_encoding(raw)
            == Thumb32InstId::UQSUB16,
        raw & 0xFFF0_F0F0 == 0xFA80_F050 ==> thumb32_encoding(raw)
            == Thumb32InstId::UQADD8,
        raw & 0xFFF0_F0F0 == 0xFAC0_F050 ==> thumb32_encoding(raw)
            == Thumb32InstId::UQSUB8,
        raw & 0xFFF0_F0F0 == 0xFA90_F060 ==> thumb32_encoding(raw)
            == Thumb32InstId::UHADD16,
        raw & 0xFFF0_F0F0 == 0xFAA0_F060 ==> thumb32_encoding(raw)
            == Thumb32InstId::UHASX,
        raw & 0xFFF0_F0F0 == 0xFAE0_F060 ==> thumb32_encoding(raw)
            == Thumb32InstId::UHSAX,
        raw & 0xFFF0_F0F0 == 0xFAD0_F060 ==> thumb32_encoding(raw)
            == Thumb32InstId::UHSUB16,
        raw & 0xFFF0_F0F0 == 0xFA80_F060 ==> thumb32_encoding(raw)
            == Thumb32InstId::UHADD8,
        raw & 0xFFF0_F0F0 == 0xFAC0_F060 ==> thumb32_encoding(raw)
            == Thumb32InstId::UHSUB8,
{
    thumb32_patterns(raw);
}

/// The bits of 32-bit Thumb instructions: a word that fits the pattern of an
/// instruction is decoded as that instruction.
#[verifier::rlimit(60)]
pub proof fn thumb32_bits_4(raw: u32)
    ensures
        raw & 0xFFF0_F0F0 == 0xFA80_F080 ==> thumb32_encoding(raw)
            == Thumb32InstId::QADD,
        raw & 0xFFF0_F0F0 == 0xFA80_F090 ==> thumb32_encoding(raw)
            == Thumb32InstId::QDADD,
        raw & 0xFFF0_F0F0 == 0xFA80_F0A0 ==> thumb32_encoding(raw)
            == Thumb32InstId::QSUB,
        raw & 0xFFF0_F0F0 == 0xFA80_F0B0 ==> thumb32_encoding(raw)
            == Thumb32InstId::QDSUB,
        raw & 0xFFF0_F0F0 == 0xFA90_F080 ==> thumb32_encoding(raw)
            == Thumb32InstId::REV,
        raw & 0xFFF0_F0F0 == 0xFA90_F090 ==> thumb32_encoding(raw)
            == Thumb32InstId::REV16,
        raw & 0xFFF0_F0F0 == 0xFA90_F0A0 ==> thumb32_encoding(raw)
            == Thumb32InstId::RBIT,
        raw & 0xFFF0_F0F0 == 0xFA90_F0B0 ==> thumb32_encoding(raw)
            == Thumb32InstId::REVSH,
        raw & 0xFFF0_F0F0 == 0xFAA0_F080 ==> thumb32_encoding(raw)
            == Thumb32InstId::SEL,
        raw & 0xFFF0_F0F0 == 0xFAB0_F080 ==> thumb32_encoding(raw)
            == Thumb32InstId::CLZ,
        raw & 0xFFF0_F0F0 == 0xFB00_F000 ==> thumb32_encoding(raw)
            == Thumb32InstId::MUL,
        raw & 0xFFF0_00F0 == 0xFB00_0000 && raw & 0xFFF0_F0F0 != 0xFB00_F000
            ==> thumb32_encoding(raw)
            == Thumb32InstId::MLA,
        raw & 0xFFF0_00F0 == 0xFB00_0010 ==> thumb32_encoding(raw)
            == Thumb32InstId::MLS,
        raw & 0xFFF0_F0C0 == 0xFB10_F000 ==> thumb32_encoding(raw)
            == Thumb32InstId::SMULXY,
        raw & 0xFFF0_00C0 == 0xFB10_0000 && raw & 0xFFF0_F0C0 != 0xFB10_F000
            ==> thumb32_encoding(raw)
            == Thumb32InstId::SMLAXY,
        raw & 0xFFF0_F0E0 == 0xFB20_F000 ==> thumb32_encoding(raw)
            == Thumb32InstId::SMUAD,
        raw & 0xFFF0_00E0 == 0xFB20_0000 && raw & 0xFFF0_F0E0 != 0xFB20_F000
            ==> thumb32_encoding(raw)
            == Thumb32InstId::SMLAD,
        raw & 0xFFF0_F0E0 == 0xFB30_F000 ==> thumb32_encoding(raw)
            == Thumb32InstId::SMULWY,
        raw & 0xFFF0_00E0 == 0xFB30_0000 && raw & 0xFFF0_F0E0 != 0xFB30_F000
            ==> thumb32_encoding(raw)
            == Thumb32InstId::SMLAWY,
        raw & 0xFFF0_F0E0 == 0xFB40_F000 ==> thumb32_encoding(raw)
            == Thumb32InstId::SMUSD,
        raw & 0xFFF0_00E0 == 0xFB40_0000 && raw & 0xFFF0_F0E0 != 0xFB40_F000
            ==> thumb32_encoding(raw)
            == Thumb32InstId::SMLSD,
        raw & 0xFFF0_F0E0 == 0xFB50_F000 ==> thumb32_encoding(raw)
            == Thumb32InstId::SMMUL,
        raw & 0xFFF0_00E0 == 0xFB50_0000 && raw & 0xFFF0_F0E0 != 0xFB50_F000
            ==> thumb32_encoding(raw)
            == Thumb32InstId::SMMLA,
        raw & 0xFFF0_00E0 == 0xFB60_0000 ==> thumb32_encoding(raw)
            == Thumb32InstId::SMMLS,
{
    thumb32_patterns(raw);
}

/// The bits of 32-bit Thumb instructions: a word that fits the pattern of an
/// instruction is decoded as that instruction.
#[verifier::rlimit(60)]
pub proof fn thumb32_bits_5(raw: u32)
    ensures
        raw & 0xFFF0_F0F0 == 0xFB70_F000 ==> thumb32_encoding(raw)
            == Thumb32InstId::USAD8,
        raw & 0xFFF0_00F0 == 0xFB70_0000 && raw & 0xFFF0_F0F0 != 0xFB70_F000
            ==> thumb32_encoding(raw)
            == Thumb32InstId::USADA8,
        raw & 0xFFF0_00F0 == 0xFB80_0000 ==> thumb32_encoding(raw)
            == Thumb32InstId::SMULL,
        raw & 0xFFF0_F0F0 == 0xFB90_F0F0 ==> thumb32_encoding(raw)
            == Thumb32InstId::SDIV,
        raw & 0xFFF0_00F0 == 0xFBA0_0000 ==> thumb32_encoding(raw)
            == Thumb32InstId::UMULL,
        raw & 0xFFF0_F0F0 == 0xFBB0_F0F0 ==> thumb32_encoding(raw)
            == Thumb32InstId::UDIV,
        raw & 0xFFF0_00F0 == 0xFBC0_0000 ==> thumb32_encoding(raw)
            == Thumb32InstId::SMLAL,
        raw & 0xFFF0_00C0 == 0xFBC0_0080 ==> thumb32_encoding(raw)
            == Thumb32InstId::SMLALXY,
        raw & 0xFFF0_00E0 == 0xFBC0_00C0 ==> thumb32_encoding(raw)
            == Thumb32InstId::SMLALD,
        raw & 0xFFF0_00E0 == 0xFBD0_00C0 ==> thumb32_encoding(raw)
            == Thumb32InstId::SMLSLD,
        raw & 0xFFF0_00F0 == 0xFBE0_0000 ==> thumb32_encoding(raw)
            == Thumb32InstId::UMLAL,
        raw & 0xFFF0_00F0 == 0xFBE0_0060 ==> thumb32_encoding(raw)
            == Thumb32InstId::UMAAL,
        raw & 0xFFF0_8F00 == 0xEA10_0F00 ==> thumb32_encoding(raw)
            == Thumb32InstId::TST_reg,
        raw & 0xFFE0_8000 == 0xEA00_0000 && raw & 0xFFF0_8F00 != 0xEA10_0F00
            ==> thumb32_encoding(raw)
            == Thumb32InstId::AND_reg,
        raw & 0xFFE0_8000 == 0xEA20_0000 ==> thumb32_encoding(raw)
            == Thumb32InstId::BIC_reg,
        raw & 0xFFEF_8000 == 0xEA4F_0000 ==> thumb32_encoding(raw)
            == Thumb32InstId::MOV_reg,
        raw & 0xFFE0_8000 == 0xEA40_0000 && raw & 0xFFEF_8000 != 0xEA4F_0000
            ==> thumb32_encoding(raw)
            == Thumb32InstId::ORR_reg,
        raw & 0xFFEF_8000 == 0xEA6F_0000 ==> thumb32_encoding(raw)
            == Thumb32InstId::MVN_reg,
        raw & 0xFFE0_8000 == 0xEA60_0000 && raw & 0xFFEF_8000 != 0xEA6F_0000
            ==> thumb32_encoding(raw)
            == Thumb32InstId::ORN_reg,
        raw & 0xFFF0_8F00 == 0xEA90_0F00 ==> thumb32_encoding(raw)
            == Thumb32InstId::TEQ_reg,
        raw & 0xFFE0_8000 == 0xEA80_0000 && raw & 0xFFF0_8F00 != 0xEA90_0F00
            ==> thumb32_encoding(raw)
            == Thumb32InstId::EOR_reg,
        raw & 0xFFF0_8010 == 0xEAC0_0000 ==> thumb32_encoding(raw)
            == Thumb32InstId::PKH,
        raw & 0xFFF0_8F00 == 0xEB10_0F00 ==> thumb32_encoding(raw)
            == Thumb32InstId::CMN_reg,
        raw & 0xFFE0_8000 == 0xEB00_0000 && raw & 0xFFF0_8F00 != 0xEB10_0F00
            ==> thumb32_encoding(raw)
            == Thumb32InstId::ADD_reg,
{
    thumb32_patterns(raw);
}

/// The bits of 32-bit Thumb instructions: a word that fits the pattern of an
/// instruction is decoded as that instruction.
#[verifier::rlimit(60)]
pub proof fn thumb32_bits_6(raw: u32)
    ensures
        raw & 0xFFE0_8000 == 0xEB40_0000 ==> thumb32_encoding(raw)
            == Thumb32InstId::ADC_reg,
        raw & 0xFFE0_8000 == 0xEB60_0000 ==> thumb32_encoding(raw)
            == Thumb32InstId::SBC_reg,
        raw & 0xFFF0_8F00 == 0xEBB0_0F00 ==> thumb32_encoding(raw)
            == Thumb32InstId::CMP_reg,
        raw & 0xFFE0_8000 == 0xEBA0_0000 && raw & 0xFFF0_8F00 != 0xEBB0_0F00
            ==> thumb32_encoding(raw)
            == Thumb32InstId::SUB_reg,
        raw & 0xFFE0_8000 == 0xEBC0_0000 ==> thumb32_encoding(raw)
            == Thumb32InstId::RSB_reg,
        raw & 0xFFD0_8000 == 0xE880_0000 ==> thumb32_encoding(raw)
            == Thumb32InstId::STMIA,
        raw & 0xFFFF_0000 == 0xE8BD_0000 ==> thumb32_encoding(raw)
            == Thumb32InstId::POP,
        raw & 0xFFD0_0000 == 0xE890_0000 && raw & 0xFFFF_0000 != 0xE8BD_0000
            ==> thumb32_encoding(raw)
            == Thumb32InstId::LDMIA,
        raw & 0xFFFF_8000 == 0xE92D_0000 ==> thumb32_encoding(raw)
            == Thumb32InstId::PUSH,
        raw & 0xFFD0_8000 == 0xE900_0000 && raw & 0xFFFF_8000 != 0xE92D_0000
            ==> thumb32_encoding(raw)
            == Thumb32InstId::STMDB,
        raw & 0xFFD0_0000 == 0xE910_0000 ==> thumb32_encoding(raw)
            == Thumb32InstId::LDMDB,
        raw & 0xFFF0_0000 == 0xE840_0000 ==> thumb32_encoding(raw)
            == Thumb32InstId::STREX,
        raw & 0xFFF0_0F00 == 0xE850_0F00 ==> thumb32_encoding(raw)
            == Thumb32InstId::LDREX,
        raw & 0xFF70_0000 == 0xE860_0000 ==> thumb32_encoding(raw)
            == Thumb32InstId::STRD_imm_1,
        raw & 0xFF50_0000 == 0xE940_0000 ==> thumb32_encoding(raw)
            == Thumb32InstId::STRD_imm_2,
        raw & 0xFF7F_0000 == 0xE87F_0000 ==> thumb32_encoding(raw)
            == Thumb32InstId::LDRD_lit_1,
        raw & 0xFF5F_0000 == 0xE95F_0000 ==> thumb32_encoding(raw)
            == Thumb32InstId::LDRD_lit_2,
        raw & 0xFF70_0000 == 0xE870_0000 && raw & 0xFF7F_0000 != 0xE87F_0000
            ==> thumb32_encoding(raw)
            == Thumb32InstId::LDRD_imm_1,
        raw & 0xFF50_0000 == 0xE950_0000 && raw & 0xFF5F_0000 != 0xE95F_0000
            ==> thumb32_encoding(raw)
            == Thumb32InstId::LDRD_imm_2,
        raw & 0xFFF0_0FFF == 0xE8C0_0FAF ==> thumb32_encoding(raw)
            == Thumb32InstId::STL,
        raw & 0xFFF0_0FFF == 0xE8D0_0FAF ==> thumb32_encoding(raw)
            == Thumb32InstId::LDA,
        raw & 0xFFF0_0FF0 == 0xE8C0_0F40 ==> thumb32_encoding(raw)
            == Thumb32InstId::STREXB,
        raw & 0xFFF0_0FF0 == 0xE8C0_0F50 ==> thumb32_encoding(raw)
            == Thumb32InstId::STREXH,
        raw & 0xFFF0_00F0 == 0xE8C0_0070 ==> thumb32_encoding(raw)
            == Thumb32InstId::STREXD,
{
    thumb32_patterns(raw);
}

/// The bits of 32-bit Thumb instructions: a word that fits the pattern of an
/// instruction is decoded as that instruction.
#[verifier::rlimit(60)]
pub proof fn thumb32_bits_7(raw: u32)
    ensures
        raw & 0xFFF0_FFF0 == 0xE8D0_F000 ==> thumb32_encoding(raw)
            == Thumb32InstId::TBB,
        raw & 0xFFF0_FFF0 == 0xE8D0_F010 ==> thumb32_encoding(raw)
            == Thumb32InstId::TBH,
        raw & 0xFFF0_0FFF == 0xE8D0_0F4F ==> thumb32_encoding(raw)
            == Thumb32InstId::LDREXB,
        raw & 0xFFF0_0FFF == 0xE8D0_0F5F ==> thumb32_encoding(raw)
            == Thumb32InstId::LDREXH,
        raw & 0xFFF0_00FF == 0xE8D0_007F ==> thumb32_encoding(raw)
            == Thumb32InstId::LDREXD,
        raw & 0xFFE0_F0FF == 0xF380_8000 ==> thumb32_encoding(raw)
            == Thumb32InstId::MSR_reg,
        raw & 0xFFFF_FFFF == 0xF3AF_8000 ==> thumb32_encoding(raw)
            == Thumb32InstId::NOP,
        raw & 0xFFFF_FFFF == 0xF3AF_8001 ==> thumb32_encoding(raw)
            == Thumb32InstId::YIELD,
        raw & 0xFFFF_FFFF == 0xF3AF_8002 ==> thumb32_encoding(raw)
            == Thumb32InstId::WFE,
        raw & 0xFFFF_FFFF == 0xF3AF_8003 ==> thumb32_encoding(raw)
            == Thumb32InstId::WFI,
        raw & 0xFFFF_FFFF == 0xF3AF_8004 ==> thumb32_encoding(raw)
            == Thumb32InstId::SEV,
        raw & 0xFFFF_FFFF == 0xF3AF_8005 ==> thumb32_encoding(raw)
            == Thumb32InstId::SEVL,
        raw & 0xFFFF_FFFF == 0xF3BF_8F2F ==> thumb32_encoding(raw)
            == Thumb32InstId::CLREX,
        raw & 0xFFFF_FFF0 == 0xF3BF_8F40 ==> thumb32_encoding(raw)
            == Thumb32InstId::DSB,
        raw & 0xFFFF_FFF0 == 0xF3BF_8F50 ==> thumb32_encoding(raw)
            == Thumb32InstId::DMB,
        raw & 0xFFFF_FFF0 == 0xF3BF_8F60 ==> thumb32_encoding(raw)
            == Thumb32InstId::ISB,
        raw & 0xFFF0_FFFF == 0xF3C0_8F00 ==> thumb32_encoding(raw)
            == Thumb32InstId::BXJ,
        raw & 0xFFEF_F0FF == 0xF3EF_8000 ==> thumb32_encoding(raw)
            == Thumb32InstId::MRS_reg,
        raw & 0xFFF0_F000 == 0xF7F0_A000 ==> thumb32_encoding(raw)
            == Thumb32InstId::UDF,
        raw & 0xF800_D000 == 0xF000_D000 ==> thumb32_encoding(raw)
            == Thumb32InstId::BL_imm,
        raw & 0xF800_D000 == 0xF000_C000 ==> thumb32_encoding(raw)
            == Thumb32InstId::BLX_imm,
        raw & 0xF800_D000 == 0xF000_9000 ==> thumb32_encoding(raw)
            == Thumb32InstId::B,
        raw & 0xFBF0_8F00 == 0xF010_0F00 ==> thumb32_encoding(raw)
            == Thumb32InstId::TST_imm,
        raw & 0xFBE0_8000 == 0xF000_0000 && raw & 0xFBF0_8F00 != 0xF010_0F00
            ==> thumb32_encoding(raw)
            == Thumb32InstId::AND_imm,
{
    thumb32_patterns(raw);
}

/// The bits of 32-bit Thumb instructions: a word that fits the pattern of an
/// instruction is decoded as that instruction.
#[verifier::rlimit(60)]
pub proof fn thumb32_bits_8(raw: u32)
    ensures
        raw & 0xFBE0_8000 == 0xF020_0000 ==> thumb32_encoding(raw)
            == Thumb32InstId::BIC_imm,
        raw & 0xFBEF_8000 == 0xF04F_0000 ==> thumb32_encoding(raw)
            == Thumb32InstId::MOV_imm,
        raw & 0xFBE0_8000 == 0xF040_0000 && raw & 0xFBEF_8000 != 0xF04F_0000
            ==> thumb32_encoding(raw)
            == Thumb32InstId::ORR_imm,
        raw & 0xFBEF_8000 == 0xF06F_0000 ==> thumb32_encoding(raw)
            == Thumb32InstId::MVN_imm,
        raw & 0xFBE0_8000 == 0xF060_0000 && raw & 0xFBEF_8000 != 0xF06F_0000
            ==> thumb32_encoding(raw)
            == Thumb32InstId::ORN_imm,
        raw & 0xFBF0_8F00 == 0xF090_0F00 ==> thumb32_encoding(raw)
            == Thumb32InstId::TEQ_imm,
        raw & 0xFBE0_8000 == 0xF080_0000 && raw & 0xFBF0_8F00 != 0xF090_0F00
            ==> thumb32_encoding(raw)
            == Thumb32InstId::EOR_imm,
        raw & 0xFBF0_8F00 == 0xF110_0F00 ==> thumb32_encoding(raw)
            == Thumb32InstId::CMN_imm,
        raw & 0xFBE0_8000 == 0xF100_0000 && raw & 0xFBF0_8F00 != 0xF110_0F00
            ==> thumb32_encoding(raw)
            == Thumb32InstId::ADD_imm_1,
        raw & 0xFBE0_8000 == 0xF140_0000 ==> thumb32_encoding(raw)
            == Thumb32InstId::ADC_imm,
        raw & 0xFBE0_8000 == 0xF160_0000 ==> thumb32_encoding(raw)
            == Thumb32InstId::SBC_imm,
        raw & 0xFBF0_8F00 == 0xF1B0_0F00 ==> thumb32_encoding(raw)
            == Thumb32InstId::CMP_imm,
        raw & 0xFBE0_8000 == 0xF1A0_0000 && raw & 0xFBF0_8F00 != 0xF1B0_0F00
            ==> thumb32_encoding(raw)
            == Thumb32InstId::SUB_imm_1,
        raw & 0xFBE0_8000 == 0xF1C0_0000 ==> thumb32_encoding(raw)
            == Thumb32InstId::RSB_imm,
        raw & 0xFBFF_8000 == 0xF20F_0000 ==> thumb32_encoding(raw)
            == Thumb32InstId::ADR_t3,
        raw & 0xFBF0_8000 == 0xF200_0000 && raw & 0xFBFF_8000 != 0xF20F_0000
            ==> thumb32_encoding(raw)
            == Thumb32InstId::ADD_imm_2,
        raw & 0xFBF0_8000 == 0xF240_0000 ==> thumb32_encoding(raw)
            == Thumb32InstId::MOVW_imm,
        raw & 0xFBFF_8000 == 0xF2AF_0000 ==> thumb32_encoding(raw)
            == Thumb32InstId::ADR_t2,
        raw & 0xFBF0_8000 == 0xF2A0_0000 && raw & 0xFBFF_8000 != 0xF2AF_0000
            ==> thumb32_encoding(raw)
            == Thumb32InstId::SUB_imm_2,
        raw & 0xFBF0_8000 == 0xF2C0_0000 ==> thumb32_encoding(raw)
            == Thumb32InstId::MOVT,
        raw & 0xFF70_F0F0 == 0xF320_0010 ==> thumb32_encoding(raw)
            == Thumb32InstId::UDF,
        raw & 0xFFF0_F0F0 == 0xF320_0000 ==> thumb32_encoding(raw)
            == Thumb32InstId::SSAT16,
        raw & 0xFFF0_F0F0 == 0xF3A0_0000 ==> thumb32_encoding(raw)
            == Thumb32InstId::USAT16,
        raw & 0xFFD0_8020 == 0xF300_0000 && raw & 0xFF70_F0F0 != 0xF320_0010
            && raw & 0xFFF0_F0F0 != 0xF320_0000 ==> thumb32_encoding(raw)
            == Thumb32InstId::SSAT,
{
    thumb32_patterns(raw);
}

/// The bits of 32-bit Thumb instructions: a word that fits the pattern of an
/// instruction is decoded as that instruction.
#[verifier::rlimit(60)]
pub proof fn thumb32_bits_9(raw: u32)
    ensures
        raw & 0xFFD0_8020 == 0xF380_0000 && raw & 0xFF70_F0F0 != 0xF320_0010
            && raw & 0xFFF0_F0F0 != 0xF3A0_0000 ==> thumb32_encoding(raw)
            == Thumb32InstId::USAT,
        raw & 0xFFF0_8020 == 0xF340_0000 ==> thumb32_encoding(raw)
            == Thumb32InstId::SBFX,
        raw & 0xFFFF_8020 == 0xF36F_0000 ==> thumb32_encoding(raw)
            == Thumb32InstId::BFC,
        raw & 0xFFF0_8020 == 0xF360_0000 && raw & 0xFFFF_8020 != 0xF36F_0000
            ==> thumb32_encoding(raw)
            == Thumb32InstId::BFI,
        raw & 0xFFF0_8020 == 0xF3C0_0000 ==> thumb32_encoding(raw)
            == Thumb32InstId::UBFX,
        raw & 0xFF7F_0000 == 0xF85F_0000 ==> thumb32_encoding(raw)
            == Thumb32InstId::LDR_lit,
        raw & 0xFFF0_0000 == 0xF8D0_0000 && raw & 0x000F_0000 != 0x000F_0000
            ==> thumb32_encoding(raw)
            == Thumb32InstId::LDR_imm_t3,
        raw & 0xFFF0_0800 == 0xF850_0000 && raw & 0x000F_0000 != 0x000F_0000
            ==> thumb32_encoding(raw)
            == Thumb32InstId::LDR_reg,
        raw & 0xFFF0_0F00 == 0xF850_0E00 && raw & 0x000F_0000 != 0x000F_0000
            ==> thumb32_encoding(raw)
            == Thumb32InstId::LDRT,
        raw & 0xFFF0_0800 == 0xF850_0800 && raw & 0x000F_0000 != 0x000F_0000
            && raw & 0x0000_0F00 != 0x0000_0E00 ==> thumb32_encoding(raw)
            == Thumb32InstId::LDR_imm_t4,
        raw & 0xFFF0_0F00 == 0xF840_0C00 ==> thumb32_encoding(raw)
            == Thumb32InstId::STR_imm_2,
        raw & 0xFFF0_0F00 == 0xF840_0E00 ==> thumb32_encoding(raw)
            == Thumb32InstId::STRT,
        raw & 0xFFF0_0900 == 0xF840_0900 ==> thumb32_encoding(raw)
            == Thumb32InstId::STR_imm_1,
        raw & 0xFFF0_0FC0 == 0xF840_0000 ==> thumb32_encoding(raw)
            == Thumb32InstId::STR_reg,
        raw & 0xFFF0_0000 == 0xF8C0_0000 ==> thumb32_encoding(raw)
            == Thumb32InstId::STR_imm_3,
        raw & 0xFF7F_0000 == 0xF83F_0000 && raw & 0xFF7F_F000 != 0xF83F_F000
            && raw & 0xFFD0_FFC0 != 0xF810_F000 && raw & 0xFFD0_FF00 != 0xF810_FC00
            && raw & 0xFFD0_F000 != 0xF890_F000 ==> thumb32_encoding(raw)
            == Thumb32InstId::LDRH_lit,
        raw & 0xFFF0_0000 == 0xF8B0_0000 && raw & 0x000F_0000 != 0x000F_0000
            && raw & 0xFF7F_F000 != 0xF83F_F000 && raw & 0xFFD0_F000 != 0xF890_F000
            ==> thumb32_encoding(raw)
            == Thumb32InstId::LDRH_imm_t2,
        raw & 0xFFF0_0800 == 0xF830_0000 && raw & 0x000F_0000 != 0x000F_0000
            && raw & 0xFF7F_F000 != 0xF83F_F000 && raw & 0xFFD0_FFC0 != 0xF810_F000
            ==> thumb32_encoding(raw)
            == Thumb32InstId::LDRH_reg,
        raw & 0xFFF0_0F00 == 0xF830_0E00 && raw & 0x000F_0000 != 0x000F_0000
            && raw & 0xFF7F_F000 != 0xF83F_F000 ==> thumb32_encoding(raw)
            == Thumb32InstId::LDRHT,
        raw & 0xFFF0_0800 == 0xF830_0800 && raw & 0x000F_0000 != 0x000F_0000
            && raw & 0x0000_0F00 != 0x0000_0E00 && raw & 0xFF7F_F000 != 0xF83F_F000
            && raw & 0xFFD0_FF00 != 0xF810_FC00 ==> thumb32_encoding(raw)
            == Thumb32InstId::LDRH_imm_t3,
        raw & 0xFFF0_0F00 == 0xF820_0C00 ==> thumb32_encoding(raw)
            == Thumb32InstId::STRH_imm_2,
        raw & 0xFFF0_0F00 == 0xF820_0E00 ==> thumb32_encoding(raw)
            == Thumb32InstId::STRHT,
        raw & 0xFFF0_0900 == 0xF820_0900 ==> thumb32_encoding(raw)
            == Thumb32InstId::STRH_imm_1,
        raw & 0xFFF0_0FC0 == 0xF820_0000 ==> thumb32_encoding(raw)
            == Thumb32InstId::STRH_reg,
{
    thumb32_patterns(raw);
}

/// The bits of 32-bit Thumb instructions: a word that fits the pattern of an
/// instruction is decoded as that instruction.
#[verifier::rlimit(60)]
pub proof fn thumb32_bits_10(raw: u32)
    ensures
        raw & 0xFFF0_0000 == 0xF8A0_0000 ==> thumb32_encoding(raw)
            == Thumb32InstId::STRH_imm_3,
        raw & 0xFF7F_0000 == 0xF81F_0000 && raw & 0xFF7F_F000 != 0xF81F_F000
            && raw & 0xFFD0_FFC0 != 0xF810_F000 && raw & 0xFFD0_FF00 != 0xF810_FC00
            && raw & 0xFFD0_F000 != 0xF890_F000 ==> thumb32_encoding(raw)
            == Thumb32InstId::LDRB_lit,
        raw & 0xFFF0_0000 == 0xF890_0000 && raw & 0x000F_0000 != 0x000F_0000
            && raw & 0xFF7F_F000 != 0xF81F_F000 && raw & 0xFFD0_F000 != 0xF890_F000
            ==> thumb32_encoding(raw)
            == Thumb32InstId::LDRB_imm_t2,
        raw & 0xFFF0_0800 == 0xF810_0000 && raw & 0x000F_0000 != 0x000F_0000
            && raw & 0xFF7F_F000 != 0xF81F_F000 && raw & 0xFFD0_FFC0 != 0xF810_F000
            ==> thumb32_encoding(raw)
            == Thumb32InstId::LDRB_reg,
        raw & 0xFFF0_0F00 == 0xF810_0E00 && raw & 0x000F_0000 != 0x000F_0000
            && raw & 0xFF7F_F000 != 0xF81F_F000 ==> thumb32_encoding(raw)
            == Thumb32InstId::LDRBT,
        raw & 0xFFF0_0800 == 0xF810_0800 && raw & 0x000F_0000 != 0x000F_0000
            && raw & 0x0000_0F00 != 0x0000_0E00 && raw & 0xFF7F_F000 != 0xF81F_F000
            && raw & 0xFFD0_FF00 != 0xF810_FC00 ==> thumb32_encoding(raw)
            == Thumb32InstId::LDRB_imm_t3,
        raw & 0xFFF0_0F00 == 0xF800_0C00 ==> thumb32_encoding(raw)
            == Thumb32InstId::STRB_imm_2,
        raw & 0xFFF0_0F00 == 0xF800_0E00 ==> thumb32_encoding(raw)
            == Thumb32InstId::STRBT,
        raw & 0xFFF0_0900 == 0xF800_0900 ==> thumb32_encoding(raw)
            == Thumb32InstId::STRB_imm_1,
        raw & 0xFFF0_0FC0 == 0xF800_0000 ==> thumb32_encoding(raw)
            == Thumb32InstId::STRB_reg,
        raw & 0xFFF0_0000 == 0xF880_0000 ==> thumb32_encoding(raw)
            == Thumb32InstId::STRB_imm_3,
        raw & 0xFF7F_0000 == 0xF93F_0000 && raw & 0xFF7F_F000 != 0xF93F_F000
            && raw & 0xFFF0_FFC0 != 0xF930_F000 && raw & 0xFFF0_FF00 != 0xF930_FC00
            && raw & 0xFFF0_F000 != 0xF9B0_F000 ==> thumb32_encoding(raw)
            == Thumb32InstId::LDRSH_lit,
        raw & 0xFFF0_0000 == 0xF9B0_0000 && raw & 0x000F_0000 != 0x000F_0000
            && raw & 0xFF7F_F000 != 0xF93F_F000 && raw & 0xFFF0_F000 != 0xF9B0_F000
            ==> thumb32_encoding(raw)
            == Thumb32InstId::LDRSH_imm_t1,
        raw & 0xFFF0_0800 == 0xF930_0000 && raw & 0x000F_0000 != 0x000F_0000
            && raw & 0xFF7F_F000 != 0xF93F_F000 && raw & 0xFFF0_FFC0 != 0xF930_F000
            ==> thumb32_encoding(raw)
            == Thumb32InstId::LDRSH_reg,
        raw & 0xFFF0_0F00 == 0xF930_0E00 && raw & 0x000F_0000 != 0x000F_0000
            && raw & 0xFF7F_F000 != 0xF93F_F000 ==> thumb32_encoding(raw)
            == Thumb32InstId::LDRSHT,
        raw & 0xFFF0_0800 == 0xF930_0800 && raw & 0x000F_0000 != 0x000F_0000
            && raw & 0x0000_0F00 != 0x0000_0E00 && raw & 0xFF7F_F000 != 0xF93F_F000
            && raw & 0xFFF0_FF00 != 0xF930_FC00 ==> thumb32_encoding(raw)
            == Thumb32InstId::LDRSH_imm_t2,
        raw & 0xFF7F_0000 == 0xF91F_0000 && raw & 0xFF7F_F000 != 0xF91F_F000
            && raw & 0xFFF0_FFC0 != 0xF910_F000 && raw & 0xFFF0_FF00 != 0xF910_FC00
            && raw & 0xFFF0_F000 != 0xF990_F000 ==> thumb32_encoding(raw)
            == Thumb32InstId::LDRSB_lit,
        raw & 0xFFF0_0000 == 0xF990_0000 && raw & 0x000F_0000 != 0x000F_0000
            && raw & 0xFF7F_F000 != 0xF91F_F000 && raw & 0xFFF0_F000 != 0xF990_F000
            ==> thumb32_encoding(raw)
            == Thumb32InstId::LDRSB_imm_t1,
        raw & 0xFFF0_0800 == 0xF910_0000 && raw & 0x000F_0000 != 0x000F_0000
            && raw & 0xFF7F_F000 != 0xF91F_F000 && raw & 0xFFF0_FFC0 != 0xF910_F000
            ==> thumb32_encoding(raw)
            == Thumb32InstId::LDRSB_reg,
        raw & 0xFFF0_0F00 == 0xF910_0E00 && raw & 0x000F_0000 != 0x000F_0000
            && raw & 0xFF7F_F000 != 0xF91F_F000 ==> thumb32_encoding(raw)
            == Thumb32InstId::LDRSBT,
        raw & 0xFFF0_0800 == 0xF910_0800 && raw & 0x000F_0000 != 0x000F_0000
            && raw & 0x0000_0F00 != 0x0000_0E00 && raw & 0xFF7F_F000 != 0xF91F_F000
            && raw & 0xFFF0_FF00 != 0xF910_FC00 ==> thumb32_encoding(raw)
            == Thumb32InstId::LDRSB_imm_t2,
{
    thumb32_patterns(raw);
}

} // verus!
