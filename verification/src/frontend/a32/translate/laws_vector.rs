//! What the translation of every vector instruction keeps.

use vstd::prelude::*;
use crate::frontend::a32::decoder::DecodedArm;
use crate::ir::a32_emitter::{appends, appends_nothing, group_appends, EmitterState};
use crate::ir::opcode::Opcode;
use crate::ir::value::Value;
use super::arm_dispatch::arm_vector_ir;
use super::asimd::Layout;
use super::asimd::flag;
use super::asimd;
use super::asimd_three_regs::BitwiseOp;
use super::asimd_three_regs::FloatOp;
use super::asimd_three_regs;
use super::asimd_two_regs_misc;
use super::asimd_two_regs_shift::{no_lane_size, shift_imm6};
use super::asimd_two_regs_shift;
use super::laws::extends;
use super::laws::{extends_unless, lacks_lane_size};

verus! {

/// Storing a structure is appending.
pub broadcast proof fn store_structure_appends(
    s: EmitterState,
    t: EmitterState,
    address: Value,
    l: Layout,
    r: int,
    e: int,
    n: int,
)
    requires
        #[trigger] appends(s, t),
    ensures
        appends(s, (#[trigger] asimd::store_structure_ir(t, address, l, r, e, n)).0),
        asimd::store_structure_ir(t, address, l, r, e, n).0.terminal == t.terminal,
    decreases n,
{
    broadcast use group_appends;
    if n > 0 {
        store_structure_appends(s, t, address, l, r, e, n - 1);
    }
}

/// Storing the structures of a row is appending.
pub broadcast proof fn store_row_appends(
    s: EmitterState,
    t: EmitterState,
    address: Value,
    l: Layout,
    r: int,
    n: int,
)
    requires
        #[trigger] appends(s, t),
    ensures
        appends(s, (#[trigger] asimd::store_row_ir(t, address, l, r, n)).0),
        asimd::store_row_ir(t, address, l, r, n).0.terminal == t.terminal,
    decreases n,
{
    broadcast use {group_appends, store_structure_appends};
    if n > 0 {
        store_row_appends(s, t, address, l, r, n - 1);
    }
}

/// Storing rows is appending.
pub broadcast proof fn store_rows_appends(
    s: EmitterState,
    t: EmitterState,
    address: Value,
    l: Layout,
    n: int,
)
    requires
        #[trigger] appends(s, t),
    ensures
        appends(s, (#[trigger] asimd::store_rows_ir(t, address, l, n)).0),
        asimd::store_rows_ir(t, address, l, n).0.terminal == t.terminal,
    decreases n,
{
    broadcast use {group_appends, store_row_appends};
    if n > 0 {
        store_rows_appends(s, t, address, l, n - 1);
    }
}

/// Clearing a row is appending.
pub broadcast proof fn clear_row_appends(
    s: EmitterState,
    t: EmitterState,
    l: Layout,
    r: int,
    n: int,
)
    requires
        #[trigger] appends(s, t),
    ensures
        appends(s, #[trigger] asimd::clear_row_ir(t, l, r, n)),
        asimd::clear_row_ir(t, l, r, n).terminal == t.terminal,
    decreases n,
{
    broadcast use group_appends;
    if n > 0 {
        clear_row_appends(s, t, l, r, n - 1);
    }
}

/// Clearing rows is appending.
pub broadcast proof fn clear_rows_appends(s: EmitterState, t: EmitterState, l: Layout, n: int)
    requires
        #[trigger] appends(s, t),
    ensures
        appends(s, #[trigger] asimd::clear_rows_ir(t, l, n)),
        asimd::clear_rows_ir(t, l, n).terminal == t.terminal,
    decreases n,
{
    broadcast use {group_appends, clear_row_appends};
    if n > 0 {
        clear_rows_appends(s, t, l, n - 1);
    }
}

/// Loading a structure is appending.
pub broadcast proof fn load_structure_appends(
    s: EmitterState,
    t: EmitterState,
    address: Value,
    l: Layout,
    r: int,
    e: int,
    n: int,
)
    requires
        #[trigger] appends(s, t),
    ensures
        appends(s, (#[trigger] asimd::load_structure_ir(t, address, l, r, e, n)).0),
        asimd::load_structure_ir(t, address, l, r, e, n).0.terminal == t.terminal,
    decreases n,
{
    broadcast use group_appends;
    if n > 0 {
        load_structure_appends(s, t, address, l, r, e, n - 1);
    }
}

/// Loading the structures of a row is appending.
pub broadcast proof fn load_row_appends(
    s: EmitterState,
    t: EmitterState,
    address: Value,
    l: Layout,
    r: int,
    n: int,
)
    requires
        #[trigger] appends(s, t),
    ensures
        appends(s, (#[trigger] asimd::load_row_ir(t, address, l, r, n)).0),
        asimd::load_row_ir(t, address, l, r, n).0.terminal == t.terminal,
    decreases n,
{
    broadcast use {group_appends, load_structure_appends};
    if n > 0 {
        load_row_appends(s, t, address, l, r, n - 1);
    }
}

/// Loading rows is appending.
pub broadcast proof fn load_rows_appends(
    s: EmitterState,
    t: EmitterState,
    address: Value,
    l: Layout,
    n: int,
)
    requires
        #[trigger] appends(s, t),
    ensures
        appends(s, (#[trigger] asimd::load_rows_ir(t, address, l, n)).0),
        asimd::load_rows_ir(t, address, l, n).0.terminal == t.terminal,
    decreases n,
{
    broadcast use {group_appends, load_row_appends};
    if n > 0 {
        load_rows_appends(s, t, address, l, n - 1);
    }
}

/// Filling registers is appending.
pub broadcast proof fn fill_registers_appends(
    s: EmitterState,
    t: EmitterState,
    l: Layout,
    i: int,
    value: Value,
    n: int,
)
    requires
        #[trigger] appends(s, t),
    ensures
        appends(s, #[trigger] asimd::fill_registers_ir(t, l, i, value, n)),
        asimd::fill_registers_ir(t, l, i, value, n).terminal == t.terminal,
    decreases n,
{
    broadcast use group_appends;
    if n > 0 {
        fill_registers_appends(s, t, l, i, value, n - 1);
    }
}

/// Loading all lanes is appending.
pub broadcast proof fn load_all_lanes_appends(
    s: EmitterState,
    t: EmitterState,
    address: Value,
    l: Layout,
    n: int,
)
    requires
        #[trigger] appends(s, t),
    ensures
        appends(s, (#[trigger] asimd::load_all_lanes_ir(t, address, l, n)).0),
        asimd::load_all_lanes_ir(t, address, l, n).0.terminal == t.terminal,
    decreases n,
{
    broadcast use {group_appends, fill_registers_appends};
    if n > 0 {
        load_all_lanes_appends(s, t, address, l, n - 1);
    }
}

/// Storing single elements is appending.
pub broadcast proof fn store_single_appends(
    s: EmitterState,
    t: EmitterState,
    address: Value,
    l: Layout,
    index: u8,
    n: int,
)
    requires
        #[trigger] appends(s, t),
    ensures
        appends(s, (#[trigger] asimd::store_single_ir(t, address, l, index, n)).0),
        asimd::store_single_ir(t, address, l, index, n).0.terminal == t.terminal,
    decreases n,
{
    broadcast use group_appends;
    if n > 0 {
        store_single_appends(s, t, address, l, index, n - 1);
    }
}

/// Loading single elements is appending.
pub broadcast proof fn load_single_appends(
    s: EmitterState,
    t: EmitterState,
    address: Value,
    l: Layout,
    index: u8,
    n: int,
)
    requires
        #[trigger] appends(s, t),
    ensures
        appends(s, (#[trigger] asimd::load_single_ir(t, address, l, index, n)).0),
        asimd::load_single_ir(t, address, l, index, n).0.terminal == t.terminal,
    decreases n,
{
    broadcast use group_appends;
    if n > 0 {
        load_single_appends(s, t, address, l, index, n - 1);
    }
}

pub broadcast group group_structure_walks {
    store_structure_appends,
    store_row_appends,
    store_rows_appends,
    clear_row_appends,
    clear_rows_appends,
    load_structure_appends,
    load_row_appends,
    load_rows_appends,
    fill_registers_appends,
    load_all_lanes_appends,
    store_single_appends,
    load_single_appends,
}

/// What `asimd::arm_asimd_vabs_int_ir` keeps.
pub broadcast proof fn arm_asimd_vabs_int_extends(s: EmitterState, inst: DecodedArm)
    ensures
        extends(s, #[trigger] asimd::arm_asimd_vabs_int_ir(s, inst)),
{
    broadcast use group_appends;
    appends_nothing(s);
}

/// What `asimd::arm_asimd_vcvt_integer_ir` keeps.
pub broadcast proof fn arm_asimd_vcvt_integer_extends(s: EmitterState, inst: DecodedArm)
    ensures
        extends(s, #[trigger] asimd::arm_asimd_vcvt_integer_ir(s, inst)),
{
    broadcast use group_appends;
    appends_nothing(s);
}

/// What `asimd::arm_asimd_vdup_scalar_ir` keeps.
pub broadcast proof fn arm_asimd_vdup_scalar_extends(s: EmitterState, inst: DecodedArm)
    ensures
        extends(s, #[trigger] asimd::arm_asimd_vdup_scalar_ir(s, inst)),
{
    broadcast use group_appends;
    appends_nothing(s);
}

/// What `asimd::arm_asimd_vext_ir` keeps.
pub broadcast proof fn arm_asimd_vext_extends(s: EmitterState, inst: DecodedArm)
    ensures
        extends(s, #[trigger] asimd::arm_asimd_vext_ir(s, inst)),
{
    broadcast use group_appends;
    appends_nothing(s);
}

/// What `asimd::arm_asimd_vmla_scalar_ir` keeps.
pub broadcast proof fn arm_asimd_vmla_scalar_extends(s: EmitterState, inst: DecodedArm)
    ensures
        extends(s, #[trigger] asimd::arm_asimd_vmla_scalar_ir(s, inst)),
{
    broadcast use group_appends;
    appends_nothing(s);
}

/// What `asimd::arm_asimd_vmov_imm_ir` keeps.
pub broadcast proof fn arm_asimd_vmov_imm_extends(s: EmitterState, inst: DecodedArm)
    ensures
        extends(s, #[trigger] asimd::arm_asimd_vmov_imm_ir(s, inst)),
{
    broadcast use group_appends;
    appends_nothing(s);
}

/// What `asimd::arm_asimd_vmul_scalar_ir` keeps.
pub broadcast proof fn arm_asimd_vmul_scalar_extends(s: EmitterState, inst: DecodedArm)
    ensures
        extends(s, #[trigger] asimd::arm_asimd_vmul_scalar_ir(s, inst)),
{
    broadcast use group_appends;
    appends_nothing(s);
}

/// What `asimd::arm_asimd_vneg_int_ir` keeps.
pub broadcast proof fn arm_asimd_vneg_int_extends(s: EmitterState, inst: DecodedArm)
    ensures
        extends(s, #[trigger] asimd::arm_asimd_vneg_int_ir(s, inst)),
{
    broadcast use group_appends;
    appends_nothing(s);
}

/// What `asimd::arm_asimd_vrecpe_ir` keeps.
pub broadcast proof fn arm_asimd_vrecpe_extends(s: EmitterState, inst: DecodedArm)
    ensures
        extends(s, #[trigger] asimd::arm_asimd_vrecpe_ir(s, inst)),
{
    broadcast use group_appends;
    appends_nothing(s);
}

/// What `asimd::arm_asimd_vrsqrte_ir` keeps.
pub broadcast proof fn arm_asimd_vrsqrte_extends(s: EmitterState, inst: DecodedArm)
    ensures
        extends(s, #[trigger] asimd::arm_asimd_vrsqrte_ir(s, inst)),
{
    broadcast use group_appends;
    appends_nothing(s);
}

/// What `asimd::arm_asimd_vtrn_ir` keeps.
pub broadcast proof fn arm_asimd_vtrn_extends(s: EmitterState, inst: DecodedArm)
    ensures
        extends(s, #[trigger] asimd::arm_asimd_vtrn_ir(s, inst)),
{
    broadcast use group_appends;
    appends_nothing(s);
}

/// What `asimd::arm_asimd_vuzp_ir` keeps.
pub broadcast proof fn arm_asimd_vuzp_extends(s: EmitterState, inst: DecodedArm)
    ensures
        extends(s, #[trigger] asimd::arm_asimd_vuzp_ir(s, inst)),
{
    broadcast use group_appends;
    appends_nothing(s);
}

/// What `asimd::arm_asimd_vzip_ir` keeps.
pub broadcast proof fn arm_asimd_vzip_extends(s: EmitterState, inst: DecodedArm)
    ensures
        extends(s, #[trigger] asimd::arm_asimd_vzip_ir(s, inst)),
{
    broadcast use group_appends;
    appends_nothing(s);
}

/// What `asimd::arm_v8_vld_all_lanes_ir` keeps.
pub broadcast proof fn arm_v8_vld_all_lanes_extends(s: EmitterState, inst: DecodedArm)
    ensures
        extends(s, #[trigger] asimd::arm_v8_vld_all_lanes_ir(s, inst)),
{
    broadcast use {group_appends, group_structure_walks};
    appends_nothing(s);
}

/// What `asimd::arm_v8_vld_multiple_ir` keeps.
pub broadcast proof fn arm_v8_vld_multiple_extends(s: EmitterState, inst: DecodedArm)
    ensures
        extends(s, #[trigger] asimd::arm_v8_vld_multiple_ir(s, inst)),
{
    broadcast use {group_appends, group_structure_walks};
    appends_nothing(s);
}

/// What `asimd::arm_v8_vld_single_ir` keeps.
pub broadcast proof fn arm_v8_vld_single_extends(s: EmitterState, inst: DecodedArm)
    ensures
        extends(s, #[trigger] asimd::arm_v8_vld_single_ir(s, inst)),
{
    broadcast use {group_appends, group_structure_walks};
    appends_nothing(s);
}

/// What `asimd::arm_v8_vst_multiple_ir` keeps.
pub broadcast proof fn arm_v8_vst_multiple_extends(s: EmitterState, inst: DecodedArm)
    ensures
        extends(s, #[trigger] asimd::arm_v8_vst_multiple_ir(s, inst)),
{
    broadcast use {group_appends, group_structure_walks};
    appends_nothing(s);
}

/// What `asimd::arm_v8_vst_single_ir` keeps.
pub broadcast proof fn arm_v8_vst_single_extends(s: EmitterState, inst: DecodedArm)
    ensures
        extends(s, #[trigger] asimd::arm_v8_vst_single_ir(s, inst)),
{
    broadcast use {group_appends, group_structure_walks};
    appends_nothing(s);
}

/// What `asimd::compare_with_zero_ir` keeps.
pub broadcast proof fn compare_with_zero_extends(
    s: EmitterState,
    inst: DecodedArm,
    comparison: asimd::Comparison,
)
    ensures
        extends(s, #[trigger] asimd::compare_with_zero_ir(s, inst, comparison)),
{
    broadcast use group_appends;
    appends_nothing(s);
}

/// What `asimd::table_lookup_ir` keeps.
pub broadcast proof fn table_lookup_extends(s: EmitterState, inst: DecodedArm, is_vtbl: bool)
    ensures
        extends(s, #[trigger] asimd::table_lookup_ir(s, inst, is_vtbl)),
{
    broadcast use group_appends;
    appends_nothing(s);
}

/// What `asimd_three_regs::absolute_difference_ir` keeps.
pub broadcast proof fn absolute_difference_extends(
    s: EmitterState,
    inst: DecodedArm,
    accumulate: bool,
)
    ensures
        extends(s, #[trigger] asimd_three_regs::absolute_difference_ir(s, inst, accumulate)),
{
    broadcast use group_appends;
    appends_nothing(s);
}

/// What `asimd_three_regs::absolute_difference_long_ir` keeps.
pub broadcast proof fn absolute_difference_long_extends(
    s: EmitterState,
    inst: DecodedArm,
    accumulate: bool,
)
    ensures
        extends(s, #[trigger] asimd_three_regs::absolute_difference_long_ir(s, inst, accumulate)),
{
    broadcast use group_appends;
    appends_nothing(s);
}

/// What `asimd_three_regs::arm_asimd_vacge_ir` keeps.
pub broadcast proof fn arm_asimd_vacge_extends(s: EmitterState, inst: DecodedArm)
    ensures
        extends(s, #[trigger] asimd_three_regs::arm_asimd_vacge_ir(s, inst)),
{
    broadcast use group_appends;
    appends_nothing(s);
}

/// What `asimd_three_regs::arm_asimd_vand_reg_ir` keeps.
pub broadcast proof fn arm_asimd_vand_reg_extends(s: EmitterState, inst: DecodedArm)
    ensures
        extends(s, #[trigger] asimd_three_regs::arm_asimd_vand_reg_ir(s, inst)),
{
    broadcast use group_appends;
    appends_nothing(s);
}

/// What `asimd_three_regs::arm_asimd_vmla_int_ir` keeps.
pub broadcast proof fn arm_asimd_vmla_int_extends(s: EmitterState, inst: DecodedArm)
    ensures
        extends(s, #[trigger] asimd_three_regs::arm_asimd_vmla_int_ir(s, inst)),
{
    broadcast use group_appends;
    appends_nothing(s);
}

/// What `asimd_three_regs::arm_asimd_vmlal_ir` keeps.
pub broadcast proof fn arm_asimd_vmlal_extends(s: EmitterState, inst: DecodedArm)
    ensures
        extends(s, #[trigger] asimd_three_regs::arm_asimd_vmlal_ir(s, inst)),
{
    broadcast use group_appends;
    appends_nothing(s);
}

/// What `asimd_three_regs::arm_asimd_vmul_int_ir` keeps.
pub broadcast proof fn arm_asimd_vmul_int_extends(s: EmitterState, inst: DecodedArm)
    ensures
        extends(s, #[trigger] asimd_three_regs::arm_asimd_vmul_int_ir(s, inst)),
{
    broadcast use group_appends;
    appends_nothing(s);
}

/// What `asimd_three_regs::arm_asimd_vmull_ir` keeps.
pub broadcast proof fn arm_asimd_vmull_extends(s: EmitterState, inst: DecodedArm)
    ensures
        extends(s, #[trigger] asimd_three_regs::arm_asimd_vmull_ir(s, inst)),
{
    broadcast use group_appends;
    appends_nothing(s);
}

/// What `asimd_three_regs::arm_asimd_vpadd_int_ir` keeps.
pub broadcast proof fn arm_asimd_vpadd_int_extends(s: EmitterState, inst: DecodedArm)
    ensures
        extends(s, #[trigger] asimd_three_regs::arm_asimd_vpadd_int_ir(s, inst)),
{
    broadcast use group_appends;
    appends_nothing(s);
}

/// What `asimd_three_regs::arm_asimd_vpmax_int_ir` keeps.
pub broadcast proof fn arm_asimd_vpmax_int_extends(s: EmitterState, inst: DecodedArm)
    ensures
        extends(s, #[trigger] asimd_three_regs::arm_asimd_vpmax_int_ir(s, inst)),
{
    broadcast use group_appends;
    appends_nothing(s);
}

/// What `asimd_three_regs::arm_asimd_vtst_ir` keeps.
pub broadcast proof fn arm_asimd_vtst_extends(s: EmitterState, inst: DecodedArm)
    ensures
        extends(s, #[trigger] asimd_three_regs::arm_asimd_vtst_ir(s, inst)),
{
    broadcast use group_appends;
    appends_nothing(s);
}

/// What `asimd_three_regs::bitwise_ir` keeps.
pub broadcast proof fn bitwise_extends(
    s: EmitterState,
    inst: DecodedArm,
    with_dst: bool,
    op: BitwiseOp,
)
    ensures
        extends(s, #[trigger] asimd_three_regs::bitwise_ir(s, inst, with_dst, op)),
{
    broadcast use group_appends;
    appends_nothing(s);
}

/// What `asimd_three_regs::doubling_multiply_ir` keeps.
pub broadcast proof fn doubling_multiply_extends(
    s: EmitterState,
    inst: DecodedArm,
    operation: Opcode,
)
    ensures
        extends(s, #[trigger] asimd_three_regs::doubling_multiply_ir(s, inst, operation)),
{
    broadcast use group_appends;
    appends_nothing(s);
}

/// What `asimd_three_regs::float_instruction_ir` keeps.
pub broadcast proof fn float_instruction_extends(s: EmitterState, inst: DecodedArm, op: FloatOp)
    ensures
        extends(s, #[trigger] asimd_three_regs::float_instruction_ir(s, inst, op)),
{
    broadcast use group_appends;
    appends_nothing(s);
}

/// What `asimd_three_regs::int_binary_ir` keeps.
pub broadcast proof fn int_binary_extends(s: EmitterState, inst: DecodedArm, operation: Opcode)
    ensures
        extends(s, #[trigger] asimd_three_regs::int_binary_ir(s, inst, operation)),
{
    broadcast use group_appends;
    appends_nothing(s);
}

/// What `asimd_three_regs::int_shift_ir` keeps.
pub broadcast proof fn int_shift_extends(s: EmitterState, inst: DecodedArm, operation: Opcode)
    ensures
        extends(s, #[trigger] asimd_three_regs::int_shift_ir(s, inst, operation)),
{
    broadcast use group_appends;
    appends_nothing(s);
}

/// What `asimd_three_regs::integer_comparison_ir` keeps.
pub broadcast proof fn integer_comparison_extends(
    s: EmitterState,
    inst: DecodedArm,
    comparison: asimd_three_regs::Comparison,
)
    ensures
        extends(s, #[trigger] asimd_three_regs::integer_comparison_ir(s, inst, comparison)),
{
    broadcast use group_appends;
    appends_nothing(s);
}

/// What `asimd_three_regs::paired_float_ir` keeps.
pub broadcast proof fn paired_float_extends(s: EmitterState, inst: DecodedArm, op: FloatOp)
    ensures
        extends(s, #[trigger] asimd_three_regs::paired_float_ir(s, inst, op)),
{
    broadcast use group_appends;
    appends_nothing(s);
}

/// What `asimd_three_regs::wide_ir` keeps.
pub broadcast proof fn wide_extends(
    s: EmitterState,
    inst: DecodedArm,
    widen_first: bool,
    subtract: bool,
)
    ensures
        extends(s, #[trigger] asimd_three_regs::wide_ir(s, inst, widen_first, subtract)),
{
    broadcast use group_appends;
    appends_nothing(s);
}

/// What `asimd_two_regs_misc::arm_asimd_vmovn_ir` keeps.
pub broadcast proof fn arm_asimd_vmovn_extends(s: EmitterState, inst: DecodedArm)
    ensures
        extends(s, #[trigger] asimd_two_regs_misc::arm_asimd_vmovn_ir(s, inst)),
{
    broadcast use group_appends;
    appends_nothing(s);
}

/// What `asimd_two_regs_misc::arm_asimd_vqmovn_ir` keeps.
pub broadcast proof fn arm_asimd_vqmovn_extends(s: EmitterState, inst: DecodedArm)
    ensures
        extends(s, #[trigger] asimd_two_regs_misc::arm_asimd_vqmovn_ir(s, inst)),
{
    broadcast use group_appends;
    appends_nothing(s);
}

/// What `asimd_two_regs_shift::arm_asimd_shr_ir` keeps.
pub broadcast proof fn arm_asimd_shr_extends(s: EmitterState, inst: DecodedArm)
    ensures
        extends_unless(
            s,
            #[trigger] asimd_two_regs_shift::arm_asimd_shr_ir(s, inst),
            no_lane_size(flag(&inst, 7), shift_imm6(inst)),
        ),
{
    broadcast use group_appends;
    appends_nothing(s);
}

/// What `asimd_two_regs_shift::arm_asimd_sra_ir` keeps.
pub broadcast proof fn arm_asimd_sra_extends(s: EmitterState, inst: DecodedArm)
    ensures
        extends_unless(
            s,
            #[trigger] asimd_two_regs_shift::arm_asimd_sra_ir(s, inst),
            no_lane_size(flag(&inst, 7), shift_imm6(inst)),
        ),
{
    broadcast use group_appends;
    appends_nothing(s);
}

/// What `asimd_two_regs_shift::arm_asimd_vqshl_imm_ir` keeps.
pub broadcast proof fn arm_asimd_vqshl_imm_extends(s: EmitterState, inst: DecodedArm)
    ensures
        extends_unless(
            s,
            #[trigger] asimd_two_regs_shift::arm_asimd_vqshl_imm_ir(s, inst),
            no_lane_size(flag(&inst, 7), shift_imm6(inst)),
        ),
{
    broadcast use group_appends;
    appends_nothing(s);
}

/// What `asimd_two_regs_shift::arm_asimd_vshl_imm_ir` keeps.
pub broadcast proof fn arm_asimd_vshl_imm_extends(s: EmitterState, inst: DecodedArm)
    ensures
        extends_unless(
            s,
            #[trigger] asimd_two_regs_shift::arm_asimd_vshl_imm_ir(s, inst),
            no_lane_size(flag(&inst, 7), shift_imm6(inst)),
        ),
{
    broadcast use group_appends;
    appends_nothing(s);
}

/// What `asimd_two_regs_shift::arm_asimd_vshrn_ir` keeps.
pub broadcast proof fn arm_asimd_vshrn_extends(s: EmitterState, inst: DecodedArm)
    ensures
        extends_unless(
            s,
            #[trigger] asimd_two_regs_shift::arm_asimd_vshrn_ir(s, inst),
            no_lane_size(flag(&inst, 7), shift_imm6(inst)),
        ),
{
    broadcast use group_appends;
    appends_nothing(s);
}

/// What `asimd_two_regs_shift::arm_asimd_vsli_ir` keeps.
pub broadcast proof fn arm_asimd_vsli_extends(s: EmitterState, inst: DecodedArm)
    ensures
        extends_unless(
            s,
            #[trigger] asimd_two_regs_shift::arm_asimd_vsli_ir(s, inst),
            no_lane_size(flag(&inst, 7), shift_imm6(inst)),
        ),
{
    broadcast use group_appends;
    appends_nothing(s);
}

/// What `asimd_two_regs_shift::arm_asimd_vsri_ir` keeps.
pub broadcast proof fn arm_asimd_vsri_extends(s: EmitterState, inst: DecodedArm)
    ensures
        extends_unless(
            s,
            #[trigger] asimd_two_regs_shift::arm_asimd_vsri_ir(s, inst),
            no_lane_size(flag(&inst, 7), shift_imm6(inst)),
        ),
{
    broadcast use group_appends;
    appends_nothing(s);
}

pub broadcast group group_vector_extends {
    arm_asimd_vabs_int_extends,
    arm_asimd_vcvt_integer_extends,
    arm_asimd_vdup_scalar_extends,
    arm_asimd_vext_extends,
    arm_asimd_vmla_scalar_extends,
    arm_asimd_vmov_imm_extends,
    arm_asimd_vmul_scalar_extends,
    arm_asimd_vneg_int_extends,
    arm_asimd_vrecpe_extends,
    arm_asimd_vrsqrte_extends,
    arm_asimd_vtrn_extends,
    arm_asimd_vuzp_extends,
    arm_asimd_vzip_extends,
    arm_v8_vld_all_lanes_extends,
    arm_v8_vld_multiple_extends,
    arm_v8_vld_single_extends,
    arm_v8_vst_multiple_extends,
    arm_v8_vst_single_extends,
    compare_with_zero_extends,
    table_lookup_extends,
    absolute_difference_extends,
    absolute_difference_long_extends,
    arm_asimd_vacge_extends,
    arm_asimd_vand_reg_extends,
    arm_asimd_vmla_int_extends,
    arm_asimd_vmlal_extends,
    arm_asimd_vmul_int_extends,
    arm_asimd_vmull_extends,
    arm_asimd_vpadd_int_extends,
    arm_asimd_vpmax_int_extends,
    arm_asimd_vtst_extends,
    bitwise_extends,
    doubling_multiply_extends,
    float_instruction_extends,
    int_binary_extends,
    int_shift_extends,
    integer_comparison_extends,
    paired_float_extends,
    wide_extends,
    arm_asimd_vmovn_extends,
    arm_asimd_vqmovn_extends,
    arm_asimd_shr_extends,
    arm_asimd_sra_extends,
    arm_asimd_vqshl_imm_extends,
    arm_asimd_vshl_imm_extends,
    arm_asimd_vshrn_extends,
    arm_asimd_vsli_extends,
    arm_asimd_vsri_extends,
}

/// The translation of a vector instruction only appends.
#[verifier::rlimit(60)]
pub proof fn arm_vector_extends(s: EmitterState, inst: DecodedArm)
    ensures
        extends_unless(s, arm_vector_ir(s, inst), lacks_lane_size(inst)),
{
    broadcast use group_vector_extends;
    reveal(arm_vector_ir);
    appends_nothing(s);
    super::laws_arm::interpret_extends(s);
    super::laws_arm::undefined_extends(s);
}

} // verus!
