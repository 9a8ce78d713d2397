//! Locations of guest code.

use vstd::prelude::*;
use crate::frontend::a32::fpscr::FPSCR;
use crate::frontend::a32::it_state::ITState;
use crate::frontend::a32::psr::PSR;

verus! {

/// The part of the floating-point status and control register that selects
/// how code is translated.
pub const FPSCR_MODE_MASK: u32 = 0x07F7_0000;

/// A location of guest code in packed form.
#[derive(Clone, Copy, Debug, PartialEq, Eq, Structural)]
pub struct LocationDescriptor(pub u64);

/// A location of 32-bit guest code: an address and the processor state that
/// selects how the code there is translated.
#[derive(Clone, Copy, Debug, PartialEq, Eq, Structural)]
pub struct A32LocationDescriptor {
    pub arm_pc: u32,
    pub cpsr: PSR,
    pub fpscr: FPSCR,
    pub single_step: bool,
}

impl A32LocationDescriptor {
    /// The location at `pc` with the given processor state. Only the mode
    /// bits of `fpscr` are kept.
    #[verifier::allow_in_spec]
    pub fn new(pc: u32, cpsr: PSR, fpscr: FPSCR, single_step: bool) -> A32LocationDescriptor
        returns
            (A32LocationDescriptor {
                arm_pc: pc,
                cpsr,
                fpscr: FPSCR { value: fpscr.value & FPSCR_MODE_MASK },
                single_step,
            }),
    {
        A32LocationDescriptor {
            arm_pc: pc,
            cpsr,
            fpscr: FPSCR { value: fpscr.value & FPSCR_MODE_MASK },
            single_step,
        }
    }

    /// The location of ARM code at `pc` in the default processor state.
    #[verifier::allow_in_spec]
    pub fn at(pc: u32) -> A32LocationDescriptor
        returns
            (A32LocationDescriptor {
                arm_pc: pc,
                cpsr: PSR { t: false, e: false, it: ITState(0) },
                fpscr: FPSCR { value: 0 },
                single_step: false,
            }),
    {
        A32LocationDescriptor {
            arm_pc: pc,
            cpsr: PSR { t: false, e: false, it: ITState(0) },
            fpscr: FPSCR { value: 0 },
            single_step: false,
        }
    }

    /// The state of the descriptor: only the mode bits of the floating-point
    /// register are kept.
    pub open spec fn wf(self) -> bool {
        self.fpscr.value & FPSCR_MODE_MASK == self.fpscr.value
    }

    /// The address.
    #[verifier::allow_in_spec]
    pub fn pc(self) -> u32
        returns
            self.arm_pc,
    {
        self.arm_pc
    }

    /// Whether the code is Thumb code.
    #[verifier::allow_in_spec]
    pub fn t_flag(self) -> bool
        returns
            self.cpsr.t,
    {
        self.cpsr.t
    }

    /// Whether data is big-endian.
    #[verifier::allow_in_spec]
    pub fn e_flag(self) -> bool
        returns
            self.cpsr.e,
    {
        self.cpsr.e
    }

    /// The If-Then state.
    #[verifier::allow_in_spec]
    pub fn it(self) -> ITState
        returns
            self.cpsr.it,
    {
        self.cpsr.it
    }

    /// Whether a block ends after one instruction.
    #[verifier::allow_in_spec]
    pub fn single_stepping(self) -> bool
        returns
            self.single_step,
    {
        self.single_step
    }

    /// This location at another address.
    #[verifier::allow_in_spec]
    pub fn set_pc(self, pc: u32) -> A32LocationDescriptor
        returns
            (A32LocationDescriptor { arm_pc: pc, ..self }),
    {
        A32LocationDescriptor { arm_pc: pc, ..self }
    }

    /// This location moved by `offset` bytes, around the address space.
    #[verifier::allow_in_spec]
    pub fn advance_pc(self, offset: i32) -> A32LocationDescriptor
        returns
            (A32LocationDescriptor { arm_pc: self.arm_pc.wrapping_add_signed(offset), ..self }),
    {
        A32LocationDescriptor { arm_pc: self.arm_pc.wrapping_add_signed(offset), ..self }
    }

    /// This location with another instruction set.
    #[verifier::allow_in_spec]
    pub fn set_t_flag(self, t: bool) -> A32LocationDescriptor
        returns
            (A32LocationDescriptor { cpsr: PSR { t, ..self.cpsr }, ..self }),
    {
        A32LocationDescriptor { cpsr: PSR { t, ..self.cpsr }, ..self }
    }

    /// This location with another If-Then state.
    #[verifier::allow_in_spec]
    pub fn set_it(self, it: ITState) -> A32LocationDescriptor
        returns
            (A32LocationDescriptor { cpsr: PSR { it, ..self.cpsr }, ..self }),
    {
        A32LocationDescriptor { cpsr: PSR { it, ..self.cpsr }, ..self }
    }

    /// This location with the If-Then state of the next instruction.
    pub open spec fn spec_advance_it(self) -> A32LocationDescriptor {
        self.set_it(self.it().next())
    }

    /// This location with the If-Then state of the next instruction.
    #[verifier::when_used_as_spec(spec_advance_it)]
    pub fn advance_it(self) -> (r: A32LocationDescriptor)
        ensures
            r == self.spec_advance_it(),
    {
        let mut it = self.it();
        it.advance();
        self.set_it(it)
    }

    /// The processor state of the location in packed form: the two flags and
    /// the single-step mark in bits 0 to 2, the If-Then state in bits 8 to 15
    /// and the floating-point mode above.
    pub open spec fn upper(self) -> u64 {
        (self.fpscr.value as u64) | (if self.t_flag() { 1u64 } else { 0u64 }) | (if self.e_flag() {
            2u64
        } else {
            0u64
        }) | (if self.single_step { 4u64 } else { 0u64 }) | ((self.it().0 as u64) << 8)
    }

    /// The location in packed form: the address in the low word, the
    /// processor state in the high word.
    pub open spec fn spec_to_location(self) -> LocationDescriptor {
        LocationDescriptor((self.upper() << 32) | self.arm_pc as u64)
    }

    /// The location in packed form.
    #[verifier::when_used_as_spec(spec_to_location)]
    pub fn to_location(self) -> (r: LocationDescriptor)
        ensures
            r == self.spec_to_location(),
    {
        let t: u64 = if self.cpsr.t { 1 } else { 0 };
        let e: u64 = if self.cpsr.e { 2 } else { 0 };
        let single_step: u64 = if self.single_step { 4 } else { 0 };
        let it: u64 = (self.cpsr.it.0 as u64) << 8;
        let upper: u64 = (self.fpscr.value as u64) | t | e | single_step | it;
        LocationDescriptor((upper << 32) | self.arm_pc as u64)
    }

    /// The location that has the given packed form.
    pub open spec fn spec_from_location(location: LocationDescriptor) -> A32LocationDescriptor {
        let upper = (location.0 >> 32) as u32;
        A32LocationDescriptor {
            arm_pc: location.0 as u32,
            cpsr: PSR {
                t: upper & 1 != 0,
                e: upper & 2 != 0,
                it: ITState((upper >> 8) as u8),
            },
            fpscr: FPSCR { value: upper & FPSCR_MODE_MASK },
            single_step: upper & 4 != 0,
        }
    }

    /// The location that has the given packed form.
    #[verifier::when_used_as_spec(spec_from_location)]
    #[verifier::truncate]
    pub fn from_location(location: LocationDescriptor) -> (r: A32LocationDescriptor)
        ensures
            r == Self::spec_from_location(location),
    {
        let upper: u32 = (location.0 >> 32) as u32;
        A32LocationDescriptor {
            arm_pc: location.0 as u32,
            cpsr: PSR {
                t: upper & 1 != 0,
                e: upper & 2 != 0,
                it: ITState((upper >> 8) as u8),
            },
            fpscr: FPSCR { value: upper & FPSCR_MODE_MASK },
            single_step: upper & 4 != 0,
        }
    }
}

/// A location is found again from its packed form.
pub proof fn packed_location_unpacks(l: A32LocationDescriptor)
    requires
        l.wf(),
    ensures
        A32LocationDescriptor::from_location(l.to_location()) == l,
{
    let f = l.fpscr.value;
    let t = if l.t_flag() { 1u64 } else { 0u64 };
    let e = if l.e_flag() { 2u64 } else { 0u64 };
    let step = if l.single_step { 4u64 } else { 0u64 };
    let it = l.it().0;
    let pc = l.arm_pc;
    let packed = l.to_location().0;
    let upper = (packed >> 32) as u32;
    assert(packed as u32 == pc && (upper & 1 != 0 <==> t == 1) && (upper & 2 != 0 <==> e == 2) && (
    upper & 4 != 0 <==> step == 4) && (upper >> 8) as u8 == it && upper & 0x07F7_0000 == f)
        by (bit_vector)
        requires
            f & 0x07F7_0000 == f,
            t == 0 || t == 1,
            e == 0 || e == 2,
            step == 0 || step == 4,
            packed == (((f as u64) | t | e | step | ((it as u64) << 8)) << 32) | pc as u64,
            upper == (packed >> 32) as u32,
    ;
}

/// Distinct locations have distinct packed forms.
pub proof fn packed_location_is_unique(a: A32LocationDescriptor, b: A32LocationDescriptor)
    requires
        a.wf(),
        b.wf(),
        a.to_location() == b.to_location(),
    ensures
        a == b,
{
    let (fa, fb) = (a.fpscr.value, b.fpscr.value);
    let (ta, tb) = (
        if a.t_flag() { 1u64 } else { 0u64 },
        if b.t_flag() { 1u64 } else { 0u64 },
    );
    let (ea, eb) = (
        if a.e_flag() { 2u64 } else { 0u64 },
        if b.e_flag() { 2u64 } else { 0u64 },
    );
    let (sa, sb) = (
        if a.single_step { 4u64 } else { 0u64 },
        if b.single_step { 4u64 } else { 0u64 },
    );
    let (ia, ib) = (a.it().0, b.it().0);
    let (pa, pb) = (a.arm_pc, b.arm_pc);
    assert(fa == fb && ta == tb && ea == eb && sa == sb && ia == ib && pa == pb) by (bit_vector)
        requires
            fa & 0x07F7_0000 == fa,
            fb & 0x07F7_0000 == fb,
            ta == 0 || ta == 1,
            tb == 0 || tb == 1,
            ea == 0 || ea == 2,
            eb == 0 || eb == 2,
            sa == 0 || sa == 4,
            sb == 0 || sb == 4,
            (((fa as u64) | ta | ea | sa | ((ia as u64) << 8)) << 32) | pa as u64
                == (((fb as u64) | tb | eb | sb | ((ib as u64) << 8)) << 32) | pb as u64,
    ;
}

/// Every way of making or moving a location keeps its floating-point mode
/// within the mode bits.
pub proof fn locations_stay_well_formed(
    l: A32LocationDescriptor,
    pc: u32,
    cpsr: PSR,
    fpscr: FPSCR,
    step: bool,
    offset: i32,
    it: ITState,
)
    requires
        l.wf(),
    ensures
        A32LocationDescriptor::new(pc, cpsr, fpscr, step).wf(),
        A32LocationDescriptor::at(pc).wf(),
        l.set_pc(pc).wf(),
        l.advance_pc(offset).wf(),
        l.set_t_flag(step).wf(),
        l.set_it(it).wf(),
        l.advance_it().wf(),
{
    let v = fpscr.value;
    assert((v & 0x07F7_0000) & 0x07F7_0000 == v & 0x07F7_0000 && 0u32 & 0x07F7_0000 == 0)
        by (bit_vector);
}

} // verus!
