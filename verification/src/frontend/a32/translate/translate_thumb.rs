//! Translation of blocks of Thumb code.

use vstd::prelude::*;
use super::conditional_state::{
    can_continue, cond_can_continue, condition_step, is_condition_passed, ConditionalState,
};
use super::laws::extends;
use super::laws_thumb::{thumb16_extends, thumb32_extends};
use super::thumb16::{translate_thumb16, translate_thumb16_ir};
use super::thumb32::{decoded_thumb32_is_wf, translate_thumb32, translate_thumb32_ir};
use super::translate_arm::{
    advance, arm_visit, arm_visit_ir, decoded_visit_only_appends, end_here, finish, finish_block,
};
use super::translate_callbacks::TranslateCallbacks;
use super::{raise_exception_with_instruction_size, raise_ir, TranslationOptions};
use crate::frontend::a32::decoder::{arm_encoding, decode_arm, ArmInstId, DecodedArm};
use crate::frontend::a32::decoder_thumb16::{decode_thumb16, thumb16_encoding, DecodedThumb16};
use crate::frontend::a32::decoder_thumb32::{decode_thumb32, thumb32_encoding, DecodedThumb32};
use crate::frontend::a32::types::Exception;
use crate::ir::a32_emitter::{appends, A32IREmitter, EmitterState};

verus! {

broadcast use crate::bits::and_le_mask;

/// The number of halfwords in the address space. No block holds more
/// instructions.
pub const ADDRESS_SPACE_HALFWORDS: u32 = 0x8000_0000;

/// The size of a Thumb instruction.
#[derive(Clone, Copy, Debug, PartialEq, Eq, Structural)]
pub enum ThumbInstSize {
    Thumb16,
    Thumb32,
}

impl ThumbInstSize {
    /// The size in bytes.
    #[verifier::allow_in_spec]
    pub fn bytes(self) -> u32
        returns
            (match self {
                ThumbInstSize::Thumb16 => 2u32,
                ThumbInstSize::Thumb32 => 4u32,
            }),
    {
        match self {
            ThumbInstSize::Thumb16 => 2,
            ThumbInstSize::Thumb32 => 4,
        }
    }

    /// The size in bytes, as an offset.
    #[verifier::allow_in_spec]
    pub fn offset(self) -> i32
        returns
            (match self {
                ThumbInstSize::Thumb16 => 2i32,
                ThumbInstSize::Thumb32 => 4i32,
            }),
    {
        match self {
            ThumbInstSize::Thumb16 => 2,
            ThumbInstSize::Thumb32 => 4,
        }
    }
}

/// The halfword of code at an address: the lower half of the word around it,
/// or the upper half where bit 1 of the address is set.
pub open spec fn code_halfword<C: TranslateCallbacks>(callbacks: C, pc: u32) -> Option<u32> {
    match callbacks.code(pc & 0xFFFF_FFFC) {
        Some(word) => Some(
            if pc & 2 == 0 {
                word & 0xFFFF
            } else {
                word >> 16
            },
        ),
        None => None,
    }
}

fn read_halfword<C: TranslateCallbacks>(pc: u32, callbacks: &C) -> (r: Option<u32>)
    ensures
        r == code_halfword(*callbacks, pc),
{
    match callbacks.memory_read_code(pc & 0xFFFF_FFFC) {
        Some(word) => if pc & 2 == 0 {
            Some(word & 0xFFFF)
        } else {
            Some(word >> 16)
        },
        None => None,
    }
}

/// The Thumb instruction at an address: a halfword, or two halfwords of which
/// the first is the upper one, where the first starts with `0b11101`,
/// `0b11110` or `0b11111`.
pub open spec fn code_thumb<C: TranslateCallbacks>(callbacks: C, pc: u32) -> Option<
    (u32, ThumbInstSize),
> {
    match code_halfword(callbacks, pc) {
        Some(first) => if first < 0xE800 {
            Some((first, ThumbInstSize::Thumb16))
        } else {
            match code_halfword(callbacks, pc.wrapping_add(2)) {
                Some(second) => Some(((first << 16) | second, ThumbInstSize::Thumb32)),
                None => None,
            }
        },
        None => None,
    }
}

/// Reads the Thumb instruction at an address.
pub fn read_thumb_instruction<C: TranslateCallbacks>(pc: u32, callbacks: &C) -> (r: Option<
    (u32, ThumbInstSize),
>)
    ensures
        r == code_thumb(*callbacks, pc),
{
    match read_halfword(pc, callbacks) {
        Some(first) => {
            if first < 0xE800 {
                return Some((first, ThumbInstSize::Thumb16));
            }
            match read_halfword(pc.wrapping_add(2), callbacks) {
                Some(second) => Some(((first << 16) | second, ThumbInstSize::Thumb32)),
                None => None,
            }
        },
        None => None,
    }
}

/// The ARM encoding of a Thumb vector instruction. Data processing moves the
/// unsigned bit, loads and stores change their prefix, and anything else
/// becomes an undefined encoding.
#[verifier::allow_in_spec]
pub fn convert_asimd_instruction(thumb_instruction: u32) -> u32
    returns
        (if thumb_instruction & 0xEF00_0000 == 0xEF00_0000 {
            0xF200_0000u32 | (((thumb_instruction >> 28) & 1) << 24) | (thumb_instruction
                & 0x00FF_FFFF)
        } else if thumb_instruction & 0xFF00_0000 == 0xF900_0000 {
            0xF400_0000u32 | (thumb_instruction & 0x00FF_FFFF)
        } else {
            0xF7F0_A000u32
        }),
{
    if thumb_instruction & 0xEF00_0000 == 0xEF00_0000 {
        let u: u32 = (thumb_instruction >> 28) & 1;
        return 0xF200_0000 | (u << 24) | (thumb_instruction & 0x00FF_FFFF);
    }
    if thumb_instruction & 0xFF00_0000 == 0xF900_0000 {
        return 0xF400_0000 | (thumb_instruction & 0x00FF_FFFF);
    }
    0xF7F0_A000
}

/// Whether an instruction belongs to the floating-point unit.
pub open spec fn vfp_instruction(id: ArmInstId) -> bool {
    match id {
        ArmInstId::VPUSH | ArmInstId::VPOP | ArmInstId::VLDR_fp | ArmInstId::VSTR_fp
        | ArmInstId::VSTM | ArmInstId::VLDM | ArmInstId::VMLA_fp | ArmInstId::VMLS_fp
        | ArmInstId::VNMLS_fp | ArmInstId::VNMLA_fp | ArmInstId::VMUL_fp
        | ArmInstId::VNMUL_fp | ArmInstId::VADD_fp | ArmInstId::VSUB_fp | ArmInstId::VDIV_fp
        | ArmInstId::VFNMS_fp | ArmInstId::VFNMA_fp | ArmInstId::VFMA_fp
        | ArmInstId::VFMS_fp | ArmInstId::VSEL_fp | ArmInstId::VMAXNM_fp
        | ArmInstId::VMINNM_fp | ArmInstId::VMOV_fp_reg | ArmInstId::VMOV_fp_imm
        | ArmInstId::VABS_fp | ArmInstId::VNEG_fp | ArmInstId::VSQRT_fp | ArmInstId::VCMP_fp
        | ArmInstId::VCMP_zero_fp | ArmInstId::VCVT_f_to_f | ArmInstId::VCVT_from_int
        | ArmInstId::VCVT_to_u32 | ArmInstId::VCVT_to_s32 | ArmInstId::VMOV_u32_f64
        | ArmInstId::VMOV_f64_u32 | ArmInstId::VMOV_u32_f32 | ArmInstId::VMOV_f32_u32
        | ArmInstId::VMOV_2u32_2f32 | ArmInstId::VMOV_2f32_2u32 | ArmInstId::VMOV_2u32_f64
        | ArmInstId::VMOV_f64_2u32 | ArmInstId::VMOV_from_i32 | ArmInstId::VMOV_to_i32
        | ArmInstId::VMSR | ArmInstId::VMRS | ArmInstId::VFP_VDUP | ArmInstId::VFP_VRINT_rm
        | ArmInstId::VFP_VCVT_rm => true,
        _ => false,
    }
}

fn is_vfp(id: ArmInstId) -> (r: bool)
    ensures
        r == vfp_instruction(id),
{
    match id {
        ArmInstId::VPUSH | ArmInstId::VPOP | ArmInstId::VLDR_fp | ArmInstId::VSTR_fp
        | ArmInstId::VSTM | ArmInstId::VLDM | ArmInstId::VMLA_fp | ArmInstId::VMLS_fp
        | ArmInstId::VNMLS_fp | ArmInstId::VNMLA_fp | ArmInstId::VMUL_fp
        | ArmInstId::VNMUL_fp | ArmInstId::VADD_fp | ArmInstId::VSUB_fp | ArmInstId::VDIV_fp
        | ArmInstId::VFNMS_fp | ArmInstId::VFNMA_fp | ArmInstId::VFMA_fp
        | ArmInstId::VFMS_fp | ArmInstId::VSEL_fp | ArmInstId::VMAXNM_fp
        | ArmInstId::VMINNM_fp | ArmInstId::VMOV_fp_reg | ArmInstId::VMOV_fp_imm
        | ArmInstId::VABS_fp | ArmInstId::VNEG_fp | ArmInstId::VSQRT_fp | ArmInstId::VCMP_fp
        | ArmInstId::VCMP_zero_fp | ArmInstId::VCVT_f_to_f | ArmInstId::VCVT_from_int
        | ArmInstId::VCVT_to_u32 | ArmInstId::VCVT_to_s32 | ArmInstId::VMOV_u32_f64
        | ArmInstId::VMOV_f64_u32 | ArmInstId::VMOV_u32_f32 | ArmInstId::VMOV_f32_u32
        | ArmInstId::VMOV_2u32_2f32 | ArmInstId::VMOV_2f32_2u32 | ArmInstId::VMOV_2u32_f64
        | ArmInstId::VMOV_f64_2u32 | ArmInstId::VMOV_from_i32 | ArmInstId::VMOV_to_i32
        | ArmInstId::VMSR | ArmInstId::VMRS | ArmInstId::VFP_VDUP | ArmInstId::VFP_VRINT_rm
        | ArmInstId::VFP_VCVT_rm => true,
        _ => false,
    }
}

/// Whether an instruction belongs to the vector unit. Unallocated structure
/// accesses, which are undefined, count among them.
pub open spec fn asimd_instruction(id: ArmInstId) -> bool {
    match id {
        ArmInstId::ASIMD_VMOV_imm | ArmInstId::ASIMD_VMOVN | ArmInstId::ASIMD_VQMOVN
        | ArmInstId::ASIMD_VRHADD | ArmInstId::ASIMD_VQRDMULH | ArmInstId::ASIMD_VMUL_float
        | ArmInstId::ASIMD_VADD_float | ArmInstId::ASIMD_VSUB_float
        | ArmInstId::ASIMD_VMLA_float | ArmInstId::ASIMD_VMLS_float
        | ArmInstId::ASIMD_VPADD_float | ArmInstId::ASIMD_VORR_reg | ArmInstId::ASIMD_VBSL
        | ArmInstId::ASIMD_VRSQRTS | ArmInstId::ASIMD_VCGT_reg_float
        | ArmInstId::ASIMD_VMLA_scalar | ArmInstId::ASIMD_VMUL_scalar
        | ArmInstId::ASIMD_VDUP_scalar | ArmInstId::ASIMD_VCGT_zero
        | ArmInstId::ASIMD_VCGE_zero | ArmInstId::ASIMD_VCEQ_zero
        | ArmInstId::ASIMD_VCLE_zero | ArmInstId::ASIMD_VCLT_zero | ArmInstId::ASIMD_VRECPE
        | ArmInstId::ASIMD_VRSQRTE | ArmInstId::ASIMD_VCVT_integer
        | ArmInstId::ASIMD_VMAX_float | ArmInstId::ASIMD_VMIN_float | ArmInstId::ASIMD_VTRN
        | ArmInstId::ASIMD_VUZP | ArmInstId::ASIMD_VZIP | ArmInstId::ASIMD_VEXT
        | ArmInstId::ASIMD_VTBL | ArmInstId::ASIMD_VTBX | ArmInstId::ASIMD_VNEG_int
        | ArmInstId::ASIMD_VABS_int | ArmInstId::ASIMD_VHADD | ArmInstId::ASIMD_VQADD
        | ArmInstId::ASIMD_VHSUB | ArmInstId::ASIMD_VQSUB | ArmInstId::ASIMD_VSHL_reg
        | ArmInstId::ASIMD_VQSHL_reg | ArmInstId::ASIMD_VRSHL | ArmInstId::ASIMD_VADD_int
        | ArmInstId::ASIMD_VSUB_int | ArmInstId::ASIMD_VMUL_int | ArmInstId::ASIMD_VMLA_int
        | ArmInstId::ASIMD_VAND_reg | ArmInstId::ASIMD_VBIC_reg | ArmInstId::ASIMD_VORN_reg
        | ArmInstId::ASIMD_VEOR_reg | ArmInstId::ASIMD_VBIT | ArmInstId::ASIMD_VBIF
        | ArmInstId::ASIMD_VCGT_reg_int | ArmInstId::ASIMD_VCGE_reg_int
        | ArmInstId::ASIMD_VCEQ_reg_int | ArmInstId::ASIMD_VTST | ArmInstId::ASIMD_VABD_int
        | ArmInstId::ASIMD_VABA | ArmInstId::ASIMD_VMAX_int | ArmInstId::ASIMD_VMIN_int
        | ArmInstId::ASIMD_VPMAX_int | ArmInstId::ASIMD_VPADD_int | ArmInstId::ASIMD_VQDMULH
        | ArmInstId::ASIMD_VABD_float | ArmInstId::ASIMD_VCEQ_reg_float
        | ArmInstId::ASIMD_VCGE_reg_float | ArmInstId::ASIMD_VACGE | ArmInstId::ASIMD_VFMA
        | ArmInstId::ASIMD_VFMS | ArmInstId::ASIMD_VPMAX_float
        | ArmInstId::ASIMD_VPMIN_float | ArmInstId::ASIMD_VRECPS | ArmInstId::ASIMD_VADDL
        | ArmInstId::ASIMD_VSUBL | ArmInstId::ASIMD_VABAL | ArmInstId::ASIMD_VABDL
        | ArmInstId::ASIMD_VMLAL | ArmInstId::ASIMD_VMULL | ArmInstId::ASIMD_SHR
        | ArmInstId::ASIMD_SRA | ArmInstId::ASIMD_VSHRN | ArmInstId::ASIMD_VSHL_imm
        | ArmInstId::ASIMD_VSLI | ArmInstId::ASIMD_VSRI | ArmInstId::ASIMD_VQSHL_imm
        | ArmInstId::V8_VST_multiple | ArmInstId::V8_VLD_multiple | ArmInstId::V8_VST_single
        | ArmInstId::V8_VLD_single | ArmInstId::V8_VLD_all_lanes | ArmInstId::UDF => true,
        _ => false,
    }
}

fn is_asimd(id: ArmInstId) -> (r: bool)
    ensures
        r == asimd_instruction(id),
{
    match id {
        ArmInstId::ASIMD_VMOV_imm | ArmInstId::ASIMD_VMOVN | ArmInstId::ASIMD_VQMOVN
        | ArmInstId::ASIMD_VRHADD | ArmInstId::ASIMD_VQRDMULH | ArmInstId::ASIMD_VMUL_float
        | ArmInstId::ASIMD_VADD_float | ArmInstId::ASIMD_VSUB_float
        | ArmInstId::ASIMD_VMLA_float | ArmInstId::ASIMD_VMLS_float
        | ArmInstId::ASIMD_VPADD_float | ArmInstId::ASIMD_VORR_reg | ArmInstId::ASIMD_VBSL
        | ArmInstId::ASIMD_VRSQRTS | ArmInstId::ASIMD_VCGT_reg_float
        | ArmInstId::ASIMD_VMLA_scalar | ArmInstId::ASIMD_VMUL_scalar
        | ArmInstId::ASIMD_VDUP_scalar | ArmInstId::ASIMD_VCGT_zero
        | ArmInstId::ASIMD_VCGE_zero | ArmInstId::ASIMD_VCEQ_zero
        | ArmInstId::ASIMD_VCLE_zero | ArmInstId::ASIMD_VCLT_zero | ArmInstId::ASIMD_VRECPE
        | ArmInstId::ASIMD_VRSQRTE | ArmInstId::ASIMD_VCVT_integer
        | ArmInstId::ASIMD_VMAX_float | ArmInstId::ASIMD_VMIN_float | ArmInstId::ASIMD_VTRN
        | ArmInstId::ASIMD_VUZP | ArmInstId::ASIMD_VZIP | ArmInstId::ASIMD_VEXT
        | ArmInstId::ASIMD_VTBL | ArmInstId::ASIMD_VTBX | ArmInstId::ASIMD_VNEG_int
        | ArmInstId::ASIMD_VABS_int | ArmInstId::ASIMD_VHADD | ArmInstId::ASIMD_VQADD
        | ArmInstId::ASIMD_VHSUB | ArmInstId::ASIMD_VQSUB | ArmInstId::ASIMD_VSHL_reg
        | ArmInstId::ASIMD_VQSHL_reg | ArmInstId::ASIMD_VRSHL | ArmInstId::ASIMD_VADD_int
        | ArmInstId::ASIMD_VSUB_int | ArmInstId::ASIMD_VMUL_int | ArmInstId::ASIMD_VMLA_int
        | ArmInstId::ASIMD_VAND_reg | ArmInstId::ASIMD_VBIC_reg | ArmInstId::ASIMD_VORN_reg
        | ArmInstId::ASIMD_VEOR_reg | ArmInstId::ASIMD_VBIT | ArmInstId::ASIMD_VBIF
        | ArmInstId::ASIMD_VCGT_reg_int | ArmInstId::ASIMD_VCGE_reg_int
        | ArmInstId::ASIMD_VCEQ_reg_int | ArmInstId::ASIMD_VTST | ArmInstId::ASIMD_VABD_int
        | ArmInstId::ASIMD_VABA | ArmInstId::ASIMD_VMAX_int | ArmInstId::ASIMD_VMIN_int
        | ArmInstId::ASIMD_VPMAX_int | ArmInstId::ASIMD_VPADD_int | ArmInstId::ASIMD_VQDMULH
        | ArmInstId::ASIMD_VABD_float | ArmInstId::ASIMD_VCEQ_reg_float
        | ArmInstId::ASIMD_VCGE_reg_float | ArmInstId::ASIMD_VACGE | ArmInstId::ASIMD_VFMA
        | ArmInstId::ASIMD_VFMS | ArmInstId::ASIMD_VPMAX_float
        | ArmInstId::ASIMD_VPMIN_float | ArmInstId::ASIMD_VRECPS | ArmInstId::ASIMD_VADDL
        | ArmInstId::ASIMD_VSUBL | ArmInstId::ASIMD_VABAL | ArmInstId::ASIMD_VABDL
        | ArmInstId::ASIMD_VMLAL | ArmInstId::ASIMD_VMULL | ArmInstId::ASIMD_SHR
        | ArmInstId::ASIMD_SRA | ArmInstId::ASIMD_VSHRN | ArmInstId::ASIMD_VSHL_imm
        | ArmInstId::ASIMD_VSLI | ArmInstId::ASIMD_VSRI | ArmInstId::ASIMD_VQSHL_imm
        | ArmInstId::V8_VST_multiple | ArmInstId::V8_VLD_multiple | ArmInstId::V8_VST_single
        | ArmInstId::V8_VLD_single | ArmInstId::V8_VLD_all_lanes | ArmInstId::UDF => true,
        _ => false,
    }
}

/// Whether a 32-bit Thumb instruction is in the part of the encoding space
/// where floating-point and vector instructions are.
#[verifier::allow_in_spec]
pub fn maybe_vfp_or_asimd(thumb_instruction: u32) -> bool
    returns
        (thumb_instruction & 0xEC00_0000 == 0xEC00_0000 || thumb_instruction & 0xFF10_0000
            == 0xF900_0000),
{
    thumb_instruction & 0xEC00_0000 == 0xEC00_0000 || thumb_instruction & 0xFF10_0000
        == 0xF900_0000
}

/// The floating-point or vector instruction that a 32-bit Thumb instruction
/// encodes. Floating-point instructions are encoded as in ARM code, vector
/// instructions have their own encoding.
pub open spec fn thumb_vector_encoding(thumb_instruction: u32) -> Option<DecodedArm> {
    let converted = convert_asimd_instruction(thumb_instruction);
    if !maybe_vfp_or_asimd(thumb_instruction) {
        None
    } else if vfp_instruction(arm_encoding(thumb_instruction)) {
        Some(DecodedArm { raw: thumb_instruction, id: arm_encoding(thumb_instruction) })
    } else if asimd_instruction(arm_encoding(converted)) {
        Some(DecodedArm { raw: converted, id: arm_encoding(converted) })
    } else {
        None
    }
}

/// Decodes a 32-bit Thumb instruction as a floating-point or vector
/// instruction.
pub fn decode_thumb_vfp_or_asimd(thumb_instruction: u32) -> (r: Option<DecodedArm>)
    ensures
        r == thumb_vector_encoding(thumb_instruction),
{
    if !maybe_vfp_or_asimd(thumb_instruction) {
        return None;
    }
    let vfp = decode_arm(thumb_instruction);
    if is_vfp(vfp.id) {
        return Some(vfp);
    }
    let asimd = decode_arm(convert_asimd_instruction(thumb_instruction));
    if is_asimd(asimd.id) {
        return Some(asimd);
    }
    None
}

/// Whether an instruction is translated without regard to the condition of
/// the If-Then block around it: compare-and-branch and If-Then itself.
#[verifier::allow_in_spec]
pub fn is_unconditional_instruction(instruction: u32, size: ThumbInstSize) -> bool
    returns
        (size == ThumbInstSize::Thumb16 && (instruction & 0xF500 == 0xB100 || instruction & 0xFF00
            == 0xBF00)),
{
    match size {
        ThumbInstSize::Thumb16 => instruction & 0xF500 == 0xB100 || instruction & 0xFF00 == 0xBF00,
        ThumbInstSize::Thumb32 => false,
    }
}

/// The translation of a 16-bit Thumb instruction.
pub open spec fn thumb16_visit_ir(
    s: EmitterState,
    instruction: u16,
    options: TranslationOptions,
) -> (
    EmitterState,
    bool,
) {
    translate_thumb16_ir(
        s,
        DecodedThumb16 { raw: instruction, id: thumb16_encoding(instruction) },
        options,
    )
}

fn thumb16_visit(ir: &mut A32IREmitter, instruction: u16, options: TranslationOptions) -> (r: bool)
    ensures
        (final(ir)@, r) == thumb16_visit_ir(old(ir)@, instruction, options),
{
    let inst = decode_thumb16(instruction);
    translate_thumb16(ir, &inst, options)
}

/// The translation of a 32-bit Thumb instruction outside the floating-point
/// and vector units.
pub open spec fn thumb32_visit_ir(
    s: EmitterState,
    instruction: u32,
    options: TranslationOptions,
) -> (
    EmitterState,
    bool,
) {
    translate_thumb32_ir(
        s,
        DecodedThumb32 { raw: instruction, id: thumb32_encoding(instruction) },
        options,
    )
}

fn thumb32_visit(ir: &mut A32IREmitter, instruction: u32, options: TranslationOptions) -> (r: bool)
    ensures
        (final(ir)@, r) == thumb32_visit_ir(old(ir)@, instruction, options),
{
    let first: u16 = (instruction >> 16) as u16;
    let second: u16 = (instruction & 0xFFFF) as u16;
    assert(((((instruction >> 16) as u16) as u32) << 16) | (((instruction & 0xFFFF) as u16) as u32)
        == instruction) by (bit_vector);
    proof {
        decoded_thumb32_is_wf(instruction);
    }
    let inst = decode_thumb32(first, second);
    translate_thumb32(ir, &inst, options)
}

/// The translation of a Thumb instruction whose condition holds.
/// Floating-point and vector instructions are translated as in ARM code.
#[verifier::opaque]
pub open spec fn thumb_visit_ir(
    s: EmitterState,
    instruction: u32,
    size: ThumbInstSize,
    options: TranslationOptions,
) -> (EmitterState, bool) {
    match size {
        ThumbInstSize::Thumb16 => thumb16_visit_ir(s, instruction as u16, options),
        ThumbInstSize::Thumb32 => match thumb_vector_encoding(instruction) {
            Some(inst) => arm_visit_ir(s, inst, options),
            None => thumb32_visit_ir(s, instruction, options),
        },
    }
}

fn thumb_visit(
    ir: &mut A32IREmitter,
    instruction: u32,
    size: ThumbInstSize,
    options: TranslationOptions,
) -> (r: bool)
    requires
        size == ThumbInstSize::Thumb16 ==> instruction <= 0xFFFF,
    ensures
        (final(ir)@, r) == thumb_visit_ir(old(ir)@, instruction, size, options),
{
    proof {
        reveal(thumb_visit_ir);
    }
    match size {
        ThumbInstSize::Thumb16 => thumb16_visit(ir, instruction as u16, options),
        ThumbInstSize::Thumb32 => match decode_thumb_vfp_or_asimd(instruction) {
            Some(inst) => arm_visit(ir, &inst, options),
            None => thumb32_visit(ir, instruction, options),
        },
    }
}

/// The translation of a Thumb instruction whose condition holds only appends.
pub proof fn thumb_visit_only_appends(
    s: EmitterState,
    instruction: u32,
    size: ThumbInstSize,
    options: TranslationOptions,
)
    ensures
        extends(s, thumb_visit_ir(s, instruction, size, options)),
{
    reveal(thumb_visit_ir);
    let half = instruction as u16;
    let converted = convert_asimd_instruction(instruction);
    thumb16_extends(s, DecodedThumb16 { raw: half, id: thumb16_encoding(half) }, options);
    thumb32_extends(
        s,
        DecodedThumb32 { raw: instruction, id: thumb32_encoding(instruction) },
        options,
    );
    decoded_visit_only_appends(s, instruction, options);
    decoded_visit_only_appends(s, converted, options);
}

/// The step for one Thumb instruction: the If-Then state decides whether it
/// joins the block, then it is translated.
pub open spec fn thumb_step(
    cond_state: ConditionalState,
    s: EmitterState,
    instruction: u32,
    size: ThumbInstSize,
    options: TranslationOptions,
) -> (ConditionalState, EmitterState, bool) {
    if is_unconditional_instruction(instruction, size) {
        let (s, go_on) = thumb_visit_ir(s, instruction, size, options);
        (cond_state, s, go_on)
    } else {
        let (cond_state, s, passed) = condition_step(
            cond_state,
            s,
            size.bytes(),
            s.loc.it().cond(),
        );
        if passed {
            let (s, go_on) = thumb_visit_ir(s, instruction, size, options);
            (cond_state, s, go_on)
        } else {
            (cond_state, s, false)
        }
    }
}

fn thumb_one(
    ir: &mut A32IREmitter,
    cond_state: &mut ConditionalState,
    instruction: u32,
    size: ThumbInstSize,
    options: TranslationOptions,
) -> (r: bool)
    requires
        *old(cond_state) != ConditionalState::Break,
        old(ir).block.cycle_count < usize::MAX,
        *old(cond_state) == ConditionalState::Translating ==>
            old(ir).block.condition_failed_cycle_count < usize::MAX,
        size == ThumbInstSize::Thumb16 ==> instruction <= 0xFFFF,
    ensures
        (*final(cond_state), final(ir)@, r) == thumb_step(
            *old(cond_state),
            old(ir)@,
            instruction,
            size,
            options,
        ),
{
    if is_unconditional_instruction(instruction, size) {
        return thumb_visit(ir, instruction, size, options);
    }
    let location = ir.current_location;
    let cond = location.it().cond();
    if is_condition_passed(cond_state, &mut ir.block, location, size.bytes(), cond) {
        thumb_visit(ir, instruction, size, options)
    } else {
        false
    }
}

proof fn thumb_step_keeps_cycles(
    cond_state: ConditionalState,
    s: EmitterState,
    instruction: u32,
    size: ThumbInstSize,
    options: TranslationOptions,
)
    requires
        s.frame.condition_failed_cycle_count <= s.frame.cycle_count < usize::MAX,
    ensures
        ({
            let t = thumb_step(cond_state, s, instruction, size, options).1;
            &&& t.frame.cycle_count == s.frame.cycle_count
            &&& t.frame.condition_failed_cycle_count <= s.frame.cycle_count + 1
        }),
{
    let t = condition_step(cond_state, s, size.bytes(), s.loc.it().cond()).1;
    thumb_visit_only_appends(s, instruction, size, options);
    thumb_visit_only_appends(t, instruction, size, options);
    reveal(appends);
}

/// The translation of at most `n` Thumb instructions: one by one until an
/// instruction ends the block, the block breaks, its condition could change,
/// or after one instruction in a single step. Code that may not be executed
/// raises an exception.
pub open spec fn thumb_block_ir<C: TranslateCallbacks>(
    callbacks: C,
    cond_state: ConditionalState,
    s: EmitterState,
    options: TranslationOptions,
    single_step: bool,
    n: nat,
) -> EmitterState
    decreases n,
{
    let (next_state, next, go_on, size) = match code_thumb(callbacks, s.loc.pc()) {
        Some((instruction, size)) => {
            let (next_state, t, go_on) = thumb_step(cond_state, s, instruction, size, options);
            (next_state, t, go_on, size)
        },
        None => {
            let (t, go_on) = raise_ir(s, Exception::NoExecuteFault, 2);
            (cond_state, t, go_on, ThumbInstSize::Thumb16)
        },
    };
    if next_state == ConditionalState::Break {
        finish(next_state, next, go_on, single_step)
    } else {
        let t = advance(next, next.loc.advance_pc(size.offset()).advance_it());
        if go_on && can_continue(next_state, t) && !single_step && n > 1 {
            thumb_block_ir(callbacks, next_state, t, options, single_step, (n - 1) as nat)
        } else {
            finish(next_state, t, go_on, single_step)
        }
    }
}

/// Translates a block of Thumb code into the emitter's block, which is new.
pub fn translate_thumb<C: TranslateCallbacks>(
    ir: &mut A32IREmitter,
    callbacks: &C,
    options: TranslationOptions,
)
    requires
        old(ir).block.cycle_count == 0,
        old(ir).block.condition_failed_cycle_count == 0,
    ensures
        final(ir)@ == thumb_block_ir(
            *callbacks,
            ConditionalState::Unconditional,
            old(ir)@,
            options,
            old(ir).current_location.single_step,
            ADDRESS_SPACE_HALFWORDS as nat,
        ),
{
    let single_step = ir.current_location.single_stepping();
    let mut cond_state = ConditionalState::Unconditional;
    let mut left: u32 = ADDRESS_SPACE_HALFWORDS;
    let ghost result = thumb_block_ir(
        *callbacks,
        cond_state,
        ir@,
        options,
        single_step,
        ADDRESS_SPACE_HALFWORDS as nat,
    );
    loop
        invariant_except_break
            0 < left <= ADDRESS_SPACE_HALFWORDS,
            cond_state != ConditionalState::Break,
            ir.block.cycle_count == ADDRESS_SPACE_HALFWORDS - left,
            ir.block.condition_failed_cycle_count <= ADDRESS_SPACE_HALFWORDS - left,
            result == thumb_block_ir(
                *callbacks,
                cond_state,
                ir@,
                options,
                single_step,
                left as nat,
            ),
        ensures
            ir@ == result,
        decreases left,
    {
        let pc: u32 = ir.current_location.pc();
        let ghost s0 = ir@;
        let mut size = ThumbInstSize::Thumb16;
        let go_on = match read_thumb_instruction(pc, callbacks) {
            Some((instruction, inst_size)) => {
                proof {
                    thumb_step_keeps_cycles(cond_state, s0, instruction, inst_size, options);
                }
                size = inst_size;
                thumb_one(ir, &mut cond_state, instruction, inst_size, options)
            },
            None => raise_exception_with_instruction_size(ir, Exception::NoExecuteFault, 2),
        };
        if cond_state == ConditionalState::Break {
            finish_block(ir, cond_state, go_on, single_step);
            break;
        }
        ir.current_location = ir.current_location.advance_pc(size.offset()).advance_it();
        ir.block.cycle_count = ir.block.cycle_count + 1;
        let more = go_on && cond_can_continue(cond_state, &ir.block) && !single_step && left > 1;
        if !more {
            finish_block(ir, cond_state, go_on, single_step);
            break;
        }
        left = left - 1;
    }
}

/// The size of a Thumb instruction whose first halfword is the lower one.
#[verifier::allow_in_spec]
pub fn supplied_size(instruction: u32) -> ThumbInstSize
    returns
        (if instruction & 0xFFFF < 0xE800 {
            ThumbInstSize::Thumb16
        } else {
            ThumbInstSize::Thumb32
        }),
{
    if instruction & 0xFFFF < 0xE800 {
        ThumbInstSize::Thumb16
    } else {
        ThumbInstSize::Thumb32
    }
}

/// The translation of one supplied Thumb instruction, whose first halfword is
/// the lower one.
pub open spec fn single_thumb_ir(s: EmitterState, instruction: u32) -> (EmitterState, bool) {
    let options = TranslationOptions::plain();
    let size = supplied_size(instruction);
    let (t, go_on) = match size {
        ThumbInstSize::Thumb16 => thumb16_visit_ir(s, instruction as u16, options),
        ThumbInstSize::Thumb32 => thumb32_visit_ir(
            s,
            (instruction << 16) | (instruction >> 16),
            options,
        ),
    };
    (end_here(advance(t, t.loc.advance_pc(size.offset()))), go_on)
}

/// Translates one supplied Thumb instruction.
pub fn translate_single_thumb_instruction(ir: &mut A32IREmitter, instruction: u32) -> (r: bool)
    requires
        old(ir).block.cycle_count < usize::MAX,
    ensures
        (final(ir)@, r) == single_thumb_ir(old(ir)@, instruction),
{
    let options = TranslationOptions::default();
    let size = supplied_size(instruction);
    let ghost s0 = ir@;
    let go_on = match size {
        ThumbInstSize::Thumb16 => {
            let half: u16 = (instruction & 0xFFFF) as u16;
            assert((instruction & 0xFFFF) as u16 == instruction as u16) by (bit_vector);
            proof {
                thumb16_extends(
                    s0,
                    DecodedThumb16 { raw: half, id: thumb16_encoding(half) },
                    options,
                );
            }
            thumb16_visit(ir, half, options)
        },
        ThumbInstSize::Thumb32 => {
            let swapped: u32 = (instruction << 16) | (instruction >> 16);
            proof {
                thumb32_extends(
                    s0,
                    DecodedThumb32 { raw: swapped, id: thumb32_encoding(swapped) },
                    options,
                );
            }
            thumb32_visit(ir, swapped, options)
        },
    };
    proof {
        reveal(appends);
    }
    ir.current_location = ir.current_location.advance_pc(size.offset());
    ir.block.cycle_count = ir.block.cycle_count + 1;
    ir.block.end = ir.current_location.to_location();
    go_on
}

} // verus!
