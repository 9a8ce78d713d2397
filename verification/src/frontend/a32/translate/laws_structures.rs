//! Stores and loads of several structures access memory alike.

use vstd::prelude::*;
use super::asimd::{
    arm_v8_vld_multiple_ir, arm_v8_vst_multiple_ir, clear_row_ir, clear_rows_ir, load_element_ir,
    load_row_ir, load_rows_ir, load_structure_ir, multiple_layout, multiple_refused,
    store_element_ir, store_row_ir, store_rows_ir, store_structure_ir, write_back_ir, Layout,
};
use super::laws_block::begins_with;
use super::laws_order::accesses_memory;
use crate::frontend::a32::decoder::DecodedArm;
use crate::frontend::a32::types::Reg;
use crate::ir::a32_emitter::EmitterState;
use crate::ir::block::Inst;
use crate::ir::opcode::Opcode;
use crate::ir::value::{InstRef, Value};

verus! {

/// The order in which lane `e` of the first `n` elements of row `r` is
/// accessed: registers and lanes.
pub open spec fn structure_order(l: Layout, r: int, e: int, n: int) -> Seq<(int, int)>
    decreases n,
{
    if n <= 0 {
        Seq::empty()
    } else {
        structure_order(l, r, e, n - 1).push((l.register(n - 1, r), e))
    }
}

/// The order in which the first `n` structures of row `r` are accessed.
pub open spec fn row_order(l: Layout, r: int, n: int) -> Seq<(int, int)>
    decreases n,
{
    if n <= 0 {
        Seq::empty()
    } else {
        row_order(l, r, n - 1) + structure_order(l, r, n - 1, l.nelem)
    }
}

/// The order in which the first `n` rows are accessed.
pub open spec fn rows_order(l: Layout, n: int) -> Seq<(int, int)>
    decreases n,
{
    if n <= 0 {
        Seq::empty()
    } else {
        rows_order(l, n - 1) + row_order(l, n - 1, l.lanes())
    }
}

/// Storing elements in the given order, one after the other in memory.
pub open spec fn store_elements_ir(
    s: EmitterState,
    address: Value,
    bits: int,
    order: Seq<(int, int)>,
) -> (EmitterState, Value)
    decreases order.len(),
{
    if order.len() == 0 {
        (s, address)
    } else {
        let (s, address) = store_elements_ir(s, address, bits, order.drop_last());
        store_element_ir(s, address, bits, order.last().0, order.last().1)
    }
}

/// Loading elements in the given order, one after the other in memory.
pub open spec fn load_elements_ir(
    s: EmitterState,
    address: Value,
    bits: int,
    order: Seq<(int, int)>,
) -> (EmitterState, Value)
    decreases order.len(),
{
    if order.len() == 0 {
        (s, address)
    } else {
        let (s, address) = load_elements_ir(s, address, bits, order.drop_last());
        load_element_ir(s, address, bits, order.last().0, order.last().1)
    }
}

proof fn store_in_two_parts(
    s: EmitterState,
    address: Value,
    bits: int,
    a: Seq<(int, int)>,
    b: Seq<(int, int)>,
)
    ensures
        ({
            let (t, next) = store_elements_ir(s, address, bits, a);
            store_elements_ir(s, address, bits, a + b) == store_elements_ir(t, next, bits, b)
        }),
    decreases b.len(),
{
    if b.len() == 0 {
        assert(a + b =~= a);
    } else {
        assert((a + b).drop_last() =~= a + b.drop_last());
        store_in_two_parts(s, address, bits, a, b.drop_last());
    }
}

proof fn load_in_two_parts(
    s: EmitterState,
    address: Value,
    bits: int,
    a: Seq<(int, int)>,
    b: Seq<(int, int)>,
)
    ensures
        ({
            let (t, next) = load_elements_ir(s, address, bits, a);
            load_elements_ir(s, address, bits, a + b) == load_elements_ir(t, next, bits, b)
        }),
    decreases b.len(),
{
    if b.len() == 0 {
        assert(a + b =~= a);
    } else {
        assert((a + b).drop_last() =~= a + b.drop_last());
        load_in_two_parts(s, address, bits, a, b.drop_last());
    }
}

proof fn structure_follows_order(s: EmitterState, address: Value, l: Layout, r: int, e: int, n: int)
    ensures
        store_structure_ir(s, address, l, r, e, n) == store_elements_ir(
            s,
            address,
            l.bits,
            structure_order(l, r, e, n),
        ),
        load_structure_ir(s, address, l, r, e, n) == load_elements_ir(
            s,
            address,
            l.bits,
            structure_order(l, r, e, n),
        ),
    decreases n,
{
    if n > 0 {
        structure_follows_order(s, address, l, r, e, n - 1);
        assert(structure_order(l, r, e, n).drop_last() =~= structure_order(l, r, e, n - 1));
    }
}

proof fn row_follows_order(s: EmitterState, address: Value, l: Layout, r: int, n: int)
    ensures
        store_row_ir(s, address, l, r, n) == store_elements_ir(
            s,
            address,
            l.bits,
            row_order(l, r, n),
        ),
        load_row_ir(s, address, l, r, n) == load_elements_ir(
            s,
            address,
            l.bits,
            row_order(l, r, n),
        ),
    decreases n,
{
    if n > 0 {
        let (a, b) = (row_order(l, r, n - 1), structure_order(l, r, n - 1, l.nelem));
        row_follows_order(s, address, l, r, n - 1);
        let (t, next) = store_row_ir(s, address, l, r, n - 1);
        structure_follows_order(t, next, l, r, n - 1, l.nelem);
        store_in_two_parts(s, address, l.bits, a, b);
        let (t, next) = load_row_ir(s, address, l, r, n - 1);
        structure_follows_order(t, next, l, r, n - 1, l.nelem);
        load_in_two_parts(s, address, l.bits, a, b);
    }
}

proof fn rows_follow_order(s: EmitterState, address: Value, l: Layout, n: int)
    ensures
        store_rows_ir(s, address, l, n) == store_elements_ir(
            s,
            address,
            l.bits,
            rows_order(l, n),
        ),
        load_rows_ir(s, address, l, n) == load_elements_ir(s, address, l.bits, rows_order(l, n)),
    decreases n,
{
    if n > 0 {
        let (a, b) = (rows_order(l, n - 1), row_order(l, n - 1, l.lanes()));
        rows_follow_order(s, address, l, n - 1);
        let (t, next) = store_rows_ir(s, address, l, n - 1);
        row_follows_order(t, next, l, n - 1, l.lanes());
        store_in_two_parts(s, address, l.bits, a, b);
        let (t, next) = load_rows_ir(s, address, l, n - 1);
        row_follows_order(t, next, l, n - 1, l.lanes());
        load_in_two_parts(s, address, l.bits, a, b);
    }
}

proof fn structure_order_len(l: Layout, r: int, e: int, n: int)
    requires
        n >= 0,
    ensures
        structure_order(l, r, e, n).len() == n,
    decreases n,
{
    if n > 0 {
        structure_order_len(l, r, e, n - 1);
    }
}

proof fn row_order_len(l: Layout, r: int, n: int)
    requires
        n >= 0,
        l.nelem >= 0,
    ensures
        row_order(l, r, n).len() == n * l.nelem,
    decreases n,
{
    if n > 0 {
        row_order_len(l, r, n - 1);
        structure_order_len(l, r, n - 1, l.nelem);
        assert((n - 1) * l.nelem + l.nelem == n * l.nelem) by (nonlinear_arith);
    }
}

proof fn rows_order_len(l: Layout, n: int)
    requires
        n >= 0,
        l.nelem >= 0,
        l.lanes() >= 0,
    ensures
        rows_order(l, n).len() == n * (l.lanes() * l.nelem),
    decreases n,
{
    if n > 0 {
        let row = l.lanes() * l.nelem;
        rows_order_len(l, n - 1);
        row_order_len(l, n - 1, l.lanes());
        assert((n - 1) * row + row == n * row) by (nonlinear_arith);
    }
}

/// How far an address lies behind `base`, if it was reached from there by
/// adding constants.
pub open spec fn displacement(code: Seq<Inst>, base: Value, address: Value) -> Option<int>
    decreases
            match address {
                Value::Inst(at) => at.0 as int,
                _ => 0,
            },
{
    if address == base {
        Some(0int)
    } else {
        match address {
            Value::Inst(at) => if at.0 < code.len() && code[at.0 as int].opcode == Opcode::Add32 {
                match (code[at.0 as int].args.0, code[at.0 as int].args.1) {
                    (Value::Inst(before), Value::ImmU32(step)) => if before.0 < at.0 {
                        match displacement(code, base, Value::Inst(before)) {
                            Some(d) => Some(d + step),
                            None => None,
                        }
                    } else {
                        None
                    },
                    _ => None,
                }
            } else {
                None
            },
            _ => None,
        }
    }
}

proof fn displacement_is_stable(a: Seq<Inst>, b: Seq<Inst>, base: Value, at: InstRef)
    requires
        begins_with(b, a),
        at.0 < a.len(),
    ensures
        displacement(b, base, Value::Inst(at)) == displacement(a, base, Value::Inst(at)),
    decreases at.0,
{
    let inst = a[at.0 as int];
    assert(b[at.0 as int] == inst);
    match inst.args.0 {
        Value::Inst(before) => {
            if before.0 < at.0 {
                displacement_is_stable(a, b, base, before);
            }
        },
        _ => {},
    }
}

/// The instructions from number `from` on that access memory.
#[verifier::opaque]
pub open spec fn memory_trace(s: EmitterState, from: nat) -> Seq<Inst> {
    s.code.skip(from as int).filter(|inst: Inst| accesses_memory(inst.opcode))
}

proof fn trace_starts_empty(s: EmitterState)
    ensures
        memory_trace(s, s.code.len()) == Seq::<Inst>::empty(),
{
    reveal(memory_trace);
    reveal(Seq::filter);
    assert(s.code.skip(s.code.len() as int) =~= Seq::<Inst>::empty());
}

broadcast proof fn emission_is_traced(s: EmitterState, inst: Inst, from: nat)
    requires
        from <= s.code.len(),
    ensures
        #[trigger] memory_trace(s.emit(inst).0, from) == if accesses_memory(inst.opcode) {
            memory_trace(s, from).push(inst)
        } else {
            memory_trace(s, from)
        },
{
    reveal(memory_trace);
    reveal(Seq::filter);
    let before = s.code.skip(from as int);
    let after = s.code.push(inst).skip(from as int);
    assert(after =~= before.push(inst));
    assert(after.drop_last() =~= before);
}

/// The operation that reads an element of the given size.
pub open spec fn element_read(bits: int) -> Opcode {
    if bits == 8 {
        Opcode::A32ReadMemory8
    } else if bits == 16 {
        Opcode::A32ReadMemory16
    } else if bits == 32 {
        Opcode::A32ReadMemory32
    } else {
        Opcode::A32ReadMemory64
    }
}

/// The operation that writes an element of the given size.
pub open spec fn element_write(bits: int) -> Opcode {
    if bits == 8 {
        Opcode::A32WriteMemory8
    } else if bits == 16 {
        Opcode::A32WriteMemory16
    } else if bits == 32 {
        Opcode::A32WriteMemory32
    } else {
        Opcode::A32WriteMemory64
    }
}

/// Whether `address` was reached from `base` by adding `d`.
pub open spec fn lies_at(s: EmitterState, base: Value, address: Value, d: int) -> bool {
    &&& address matches Value::Inst(at) && at.0 < s.code.len()
    &&& displacement(s.code, base, address) == Some(d)
}

/// What accessing one element does: one access of memory at the address, with
/// the given operation, after which the address has moved on.
pub open spec fn accesses_one_element(
    s: EmitterState,
    address: Value,
    t: EmitterState,
    next: Value,
    from: nat,
    opcode: Opcode,
    bits: int,
) -> bool {
    let trace = memory_trace(t, from);
    let end = t.code.len() - 1;
    &&& begins_with(t.code, s.code)
    &&& trace.len() == memory_trace(s, from).len() + 1
    &&& trace.drop_last() == memory_trace(s, from)
    &&& trace.last().opcode == opcode
    &&& trace.last().args.1 == address
    &&& s.code.len() <= end
    &&& next == Value::Inst(InstRef(end as usize))
    &&& t.code[end].opcode == Opcode::Add32
    &&& t.code[end].args.0 == address
    &&& t.code[end].args.1 == Value::ImmU32((bits / 8) as u32)
}

proof fn store_accesses_one_element(
    s: EmitterState,
    address: Value,
    bits: int,
    register: int,
    lane: int,
    from: nat,
)
    requires
        from <= s.code.len(),
    ensures
        ({
            let (t, next) = store_element_ir(s, address, bits, register, lane);
            accesses_one_element(s, address, t, next, from, element_write(bits), bits)
        }),
{
    broadcast use emission_is_traced;

    let t = store_element_ir(s, address, bits, register, lane).0;
    let inst = memory_trace(t, from).last();
    assert(memory_trace(t, from) == memory_trace(s, from).push(inst));
    assert(memory_trace(s, from).push(inst).drop_last() =~= memory_trace(s, from));
}

proof fn load_accesses_one_element(
    s: EmitterState,
    address: Value,
    bits: int,
    register: int,
    lane: int,
    from: nat,
)
    requires
        from <= s.code.len(),
    ensures
        ({
            let (t, next) = load_element_ir(s, address, bits, register, lane);
            accesses_one_element(s, address, t, next, from, element_read(bits), bits)
        }),
{
    broadcast use emission_is_traced;

    let t = load_element_ir(s, address, bits, register, lane).0;
    let inst = memory_trace(t, from).last();
    assert(memory_trace(t, from) == memory_trace(s, from).push(inst));
    assert(memory_trace(s, from).push(inst).drop_last() =~= memory_trace(s, from));
}

/// Whether the code from number `from` on accesses memory `n` times, always
/// with the given operation, at consecutive elements from `base` on.
pub open spec fn accesses_elements(
    s: EmitterState,
    from: nat,
    base: Value,
    opcode: Opcode,
    bits: int,
    n: int,
) -> bool {
    let trace = memory_trace(s, from);
    &&& trace.len() == n
    &&& forall|k: int|
        0 <= k < n ==> (#[trigger] trace[k]).opcode == opcode && lies_at(
            s,
            base,
            trace[k].args.1,
            k * (bits / 8),
        )
}

/// The state of a walk over elements after `n` of them.
spec fn walked(
    s: EmitterState,
    address: Value,
    from: nat,
    base: Value,
    opcode: Opcode,
    bits: int,
    n: int,
) -> bool {
    &&& from <= s.code.len()
    &&& base matches Value::Inst(at) && at.0 < s.code.len()
    &&& accesses_elements(s, from, base, opcode, bits, n)
    &&& lies_at(s, base, address, n * (bits / 8))
}

spec fn is_element_size(bits: int) -> bool {
    bits == 8 || bits == 16 || bits == 32 || bits == 64
}

proof fn later_code_keeps_accesses(
    s: EmitterState,
    t: EmitterState,
    from: nat,
    base: Value,
    opcode: Opcode,
    bits: int,
    n: int,
)
    requires
        accesses_elements(s, from, base, opcode, bits, n),
        begins_with(t.code, s.code),
        memory_trace(t, from) == memory_trace(s, from),
    ensures
        accesses_elements(t, from, base, opcode, bits, n),
{
    let trace = memory_trace(s, from);
    assert forall|k: int| 0 <= k < n implies (#[trigger] trace[k]).opcode == opcode && lies_at(
        t,
        base,
        trace[k].args.1,
        k * (bits / 8),
    ) by {
        displacement_is_stable(s.code, t.code, base, trace[k].args.1->Inst_0);
    }
}

proof fn one_more_element(
    s: EmitterState,
    address: Value,
    t: EmitterState,
    next: Value,
    from: nat,
    base: Value,
    opcode: Opcode,
    bits: int,
    n: int,
)
    requires
        is_element_size(bits),
        n >= 0,
        walked(s, address, from, base, opcode, bits, n),
        accesses_one_element(s, address, t, next, from, opcode, bits),
        t.code.len() <= usize::MAX,
    ensures
        walked(t, next, from, base, opcode, bits, n + 1),
{
    let (before, after) = (memory_trace(s, from), memory_trace(t, from));
    let bytes = bits / 8;
    displacement_is_stable(s.code, t.code, base, address->Inst_0);
    assert forall|k: int| 0 <= k < n + 1 implies (#[trigger] after[k]).opcode == opcode && lies_at(
        t,
        base,
        after[k].args.1,
        k * bytes,
    ) by {
        if k < n {
            assert(after.drop_last()[k] == before[k]);
            displacement_is_stable(s.code, t.code, base, before[k].args.1->Inst_0);
        }
    }
    assert(n * bytes + bytes == (n + 1) * bytes) by (nonlinear_arith);
}

proof fn stored_elements_are_walked(
    s: EmitterState,
    base: Value,
    bits: int,
    order: Seq<(int, int)>,
    from: nat,
)
    requires
        is_element_size(bits),
        walked(s, base, from, base, element_write(bits), bits, 0),
        store_elements_ir(s, base, bits, order).0.code.len() <= usize::MAX,
    ensures
        ({
            let (t, next) = store_elements_ir(s, base, bits, order);
            &&& begins_with(t.code, s.code)
            &&& walked(t, next, from, base, element_write(bits), bits, order.len() as int)
        }),
    decreases order.len(),
{
    if order.len() > 0 {
        let (t, next) = store_elements_ir(s, base, bits, order.drop_last());
        let (reg, lane) = order.last();
        let (u, last) = store_element_ir(t, next, bits, reg, lane);
        stored_prefix_is_shorter(s, base, bits, order);
        stored_elements_are_walked(s, base, bits, order.drop_last(), from);
        store_accesses_one_element(t, next, bits, reg, lane, from);
        one_more_element(t, next, u, last, from, base, element_write(bits), bits, order.len() - 1);
    }
}

proof fn stored_prefix_is_shorter(
    s: EmitterState,
    address: Value,
    bits: int,
    order: Seq<(int, int)>,
)
    requires
        order.len() > 0,
    ensures
        store_elements_ir(s, address, bits, order.drop_last()).0.code.len() <= store_elements_ir(
            s,
            address,
            bits,
            order,
        ).0.code.len(),
{
}

proof fn loaded_elements_are_walked(
    s: EmitterState,
    base: Value,
    bits: int,
    order: Seq<(int, int)>,
    from: nat,
)
    requires
        is_element_size(bits),
        walked(s, base, from, base, element_read(bits), bits, 0),
        load_elements_ir(s, base, bits, order).0.code.len() <= usize::MAX,
    ensures
        ({
            let (t, next) = load_elements_ir(s, base, bits, order);
            &&& begins_with(t.code, s.code)
            &&& walked(t, next, from, base, element_read(bits), bits, order.len() as int)
        }),
    decreases order.len(),
{
    if order.len() > 0 {
        let (t, next) = load_elements_ir(s, base, bits, order.drop_last());
        let (reg, lane) = order.last();
        let (u, last) = load_element_ir(t, next, bits, reg, lane);
        loaded_prefix_is_shorter(s, base, bits, order);
        loaded_elements_are_walked(s, base, bits, order.drop_last(), from);
        load_accesses_one_element(t, next, bits, reg, lane, from);
        one_more_element(t, next, u, last, from, base, element_read(bits), bits, order.len() - 1);
    }
}

proof fn loaded_prefix_is_shorter(
    s: EmitterState,
    address: Value,
    bits: int,
    order: Seq<(int, int)>,
)
    requires
        order.len() > 0,
    ensures
        load_elements_ir(s, address, bits, order.drop_last()).0.code.len() <= load_elements_ir(
            s,
            address,
            bits,
            order,
        ).0.code.len(),
{
}

proof fn clearing_a_row_is_not_traced(s: EmitterState, l: Layout, r: int, n: int, from: nat)
    requires
        from <= s.code.len(),
    ensures
        s.code.len() <= clear_row_ir(s, l, r, n).code.len(),
        memory_trace(clear_row_ir(s, l, r, n), from) == memory_trace(s, from),
    decreases n,
{
    broadcast use emission_is_traced;

    if n > 0 {
        clearing_a_row_is_not_traced(s, l, r, n - 1, from);
    }
}

proof fn clearing_rows_is_not_traced(s: EmitterState, l: Layout, n: int, from: nat)
    requires
        from <= s.code.len(),
    ensures
        s.code.len() <= clear_rows_ir(s, l, n).code.len(),
        memory_trace(clear_rows_ir(s, l, n), from) == memory_trace(s, from),
    decreases n,
{
    if n > 0 {
        clearing_rows_is_not_traced(s, l, n - 1, from);
        clearing_a_row_is_not_traced(clear_rows_ir(s, l, n - 1), l, n - 1, l.nelem, from);
    }
}

proof fn writing_back_is_not_traced(s: EmitterState, n: Reg, m: Reg, size: int, from: nat)
    requires
        from <= s.code.len(),
    ensures
        begins_with(write_back_ir(s, n, m, size).code, s.code),
        memory_trace(write_back_ir(s, n, m, size), from) == memory_trace(s, from),
{
    broadcast use emission_is_traced;

}

/// The registers and lanes that an access to several structures goes through,
/// in order.
pub open spec fn multiple_order(inst: DecodedArm) -> Seq<(int, int)> {
    let l = multiple_layout(inst)->0;
    rows_order(l, l.regs)
}

proof fn multiple_order_len(inst: DecodedArm)
    requires
        multiple_layout(inst) is Some,
    ensures
        ({
            let l = multiple_layout(inst)->0;
            &&& is_element_size(l.bits)
            &&& multiple_order(inst).len() == l.regs * (l.lanes() * l.nelem)
            &&& multiple_order(inst).len() * (l.bits / 8) == 8 * l.nelem * l.regs
        }),
{
    let l = multiple_layout(inst)->0;
    let (lanes, bytes) = (l.lanes(), l.bits / 8);
    rows_order_len(l, l.regs);
    assert(is_element_size(l.bits));
    assert((lanes == 8 && bytes == 1) || (lanes == 4 && bytes == 2) || (lanes == 2 && bytes == 4) || (
    lanes == 1 && bytes == 8));
    assert(lanes * bytes == 8);
    assert((l.regs * (lanes * l.nelem)) * bytes == 8 * l.nelem * l.regs) by (nonlinear_arith)
        requires
            lanes * bytes == 8,
    ;
}

/// A store of several structures that is not refused writes the elements of
/// the registers and lanes in order to consecutive addresses from `Rn` on, and
/// accesses no other memory.
pub proof fn structure_store_writes_elements_in_order(s: EmitterState, inst: DecodedArm)
    requires
        arm_v8_vst_multiple_ir(s, inst).1,
        arm_v8_vst_multiple_ir(s, inst).0.code.len() <= usize::MAX,
    ensures
        ({
            let l = multiple_layout(inst)->0;
            let order = multiple_order(inst);
            let (start, base) = s.get_register(inst.rn());
            let t = arm_v8_vst_multiple_ir(s, inst).0;
            &&& t == write_back_ir(
                store_elements_ir(start, base, l.bits, order).0,
                inst.rn(),
                inst.rm(),
                8 * l.nelem * l.regs,
            )
            &&& order.len() * (l.bits / 8) == 8 * l.nelem * l.regs
            &&& accesses_elements(
                t,
                s.code.len(),
                base,
                element_write(l.bits),
                l.bits,
                order.len() as int,
            )
        }),
{
    broadcast use emission_is_traced;

    let l = multiple_layout(inst)->0;
    let order = multiple_order(inst);
    let (start, base) = s.get_register(inst.rn());
    let from = s.code.len();
    multiple_order_len(inst);
    rows_follow_order(start, base, l, l.regs);
    let t = store_elements_ir(start, base, l.bits, order).0;
    let size = 8 * l.nelem * l.regs;
    trace_starts_empty(s);
    store_only_appends(start, base, l.bits, order);
    writing_back_is_not_traced(t, inst.rn(), inst.rm(), size, from);
    stored_elements_are_walked(start, base, l.bits, order, from);
    later_code_keeps_accesses(
        t,
        write_back_ir(t, inst.rn(), inst.rm(), size),
        from,
        base,
        element_write(l.bits),
        l.bits,
        order.len() as int,
    );
}

proof fn store_only_appends(s: EmitterState, address: Value, bits: int, order: Seq<(int, int)>)
    ensures
        s.code.len() <= store_elements_ir(s, address, bits, order).0.code.len(),
    decreases order.len(),
{
    if order.len() > 0 {
        store_only_appends(s, address, bits, order.drop_last());
    }
}

proof fn load_only_appends(s: EmitterState, address: Value, bits: int, order: Seq<(int, int)>)
    ensures
        s.code.len() <= load_elements_ir(s, address, bits, order).0.code.len(),
    decreases order.len(),
{
    if order.len() > 0 {
        load_only_appends(s, address, bits, order.drop_last());
    }
}

/// A load of several structures that is not refused reads the elements of the
/// registers and lanes in order from consecutive addresses from `Rn` on, and
/// accesses no other memory.
pub proof fn structure_load_reads_elements_in_order(s: EmitterState, inst: DecodedArm)
    requires
        arm_v8_vld_multiple_ir(s, inst).1,
        arm_v8_vld_multiple_ir(s, inst).0.code.len() <= usize::MAX,
    ensures
        ({
            let l = multiple_layout(inst)->0;
            let order = multiple_order(inst);
            let (start, base) = clear_rows_ir(s, l, l.regs).get_register(inst.rn());
            let t = arm_v8_vld_multiple_ir(s, inst).0;
            &&& t == write_back_ir(
                load_elements_ir(start, base, l.bits, order).0,
                inst.rn(),
                inst.rm(),
                8 * l.nelem * l.regs,
            )
            &&& order.len() * (l.bits / 8) == 8 * l.nelem * l.regs
            &&& accesses_elements(
                t,
                s.code.len(),
                base,
                element_read(l.bits),
                l.bits,
                order.len() as int,
            )
        }),
{
    broadcast use emission_is_traced;

    let l = multiple_layout(inst)->0;
    let order = multiple_order(inst);
    let cleared = clear_rows_ir(s, l, l.regs);
    let (start, base) = cleared.get_register(inst.rn());
    let from = s.code.len();
    multiple_order_len(inst);
    clearing_rows_is_not_traced(s, l, l.regs, from);
    rows_follow_order(start, base, l, l.regs);
    let t = load_elements_ir(start, base, l.bits, order).0;
    let size = 8 * l.nelem * l.regs;
    trace_starts_empty(s);
    load_only_appends(start, base, l.bits, order);
    writing_back_is_not_traced(t, inst.rn(), inst.rm(), size, from);
    loaded_elements_are_walked(start, base, l.bits, order, from);
    later_code_keeps_accesses(
        t,
        write_back_ir(t, inst.rn(), inst.rm(), size),
        from,
        base,
        element_read(l.bits),
        l.bits,
        order.len() as int,
    );
}

/// A store of several structures mirrors the load with the same fields: where
/// the load is not refused, neither is the store, both go through the same
/// registers and lanes in the same order, access elements of the same size at
/// the same offsets from `Rn`, equally often, and write `Rn` back by the same
/// amount.
pub proof fn structure_stores_and_loads_agree(
    s: EmitterState,
    store: DecodedArm,
    u: EmitterState,
    load: DecodedArm,
)
    requires
        store.raw & 0x20_0000 == 0,
        load.raw == store.raw | 0x20_0000,
        arm_v8_vld_multiple_ir(u, load).1,
        arm_v8_vst_multiple_ir(s, store).0.code.len() <= usize::MAX,
        arm_v8_vld_multiple_ir(u, load).0.code.len() <= usize::MAX,
    ensures
        arm_v8_vst_multiple_ir(s, store).1,
        multiple_layout(store) == multiple_layout(load),
        multiple_order(store) == multiple_order(load),
        ({
            let l = multiple_layout(store)->0;
            let order = multiple_order(store);
            let n = order.len() as int;
            let (rn, rm, size) = (store.rn(), store.rm(), 8 * l.nelem * l.regs);
            let (stored, base) = s.get_register(rn);
            let (loaded, load_base) = clear_rows_ir(u, l, l.regs).get_register(rn);
            let t = arm_v8_vst_multiple_ir(s, store).0;
            let v = arm_v8_vld_multiple_ir(u, load).0;
            &&& n * (l.bits / 8) == size
            &&& t == write_back_ir(store_elements_ir(stored, base, l.bits, order).0, rn, rm, size)
            &&& v == write_back_ir(
                load_elements_ir(loaded, load_base, l.bits, order).0,
                rn,
                rm,
                size,
            )
            &&& accesses_elements(t, s.code.len(), base, element_write(l.bits), l.bits, n)
            &&& accesses_elements(v, u.code.len(), load_base, element_read(l.bits), l.bits, n)
        }),
{
    let (a, b) = (store.raw, load.raw);
    assert({
        &&& (a >> 22) & 1 == (b >> 22) & 1
        &&& (a >> 16) & 0xF == (b >> 16) & 0xF
        &&& (a >> 12) & 0xF == (b >> 12) & 0xF
        &&& (a >> 8) & 0xF == (b >> 8) & 0xF
        &&& (a >> 6) & 3 == (b >> 6) & 3
        &&& (a >> 4) & 3 == (b >> 4) & 3
        &&& a & 0xF == b & 0xF
    }) by (bit_vector)
        requires
            b == a | 0x20_0000,
    ;
    assert(multiple_refused(u, load) is None <==> multiple_refused(s, store) is None);
    structure_store_writes_elements_in_order(s, store);
    structure_load_reads_elements_in_order(u, load);
}

} // verus!
