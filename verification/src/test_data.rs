//! Recorded single-step tests: the state before one instruction and the
//! state that the instruction has to leave.

use vstd::prelude::*;
use crate::cpu::CpuState;
use crate::registers::Registers;

verus! {

/// A recorded state: the registers, the program counter, the stack
/// pointer and some memory cells, each with its address and its byte.
#[derive(Debug, PartialEq, Eq)]
pub struct State {
    pub a: u8,
    pub b: u8,
    pub c: u8,
    pub d: u8,
    pub e: u8,
    pub f: u8,
    pub h: u8,
    pub l: u8,
    pub pc: u16,
    pub sp: u16,
    pub ram: Vec<(u16, u8)>,
}

/// What a recorded state holds.
pub struct StateView {
    pub a: u8,
    pub b: u8,
    pub c: u8,
    pub d: u8,
    pub e: u8,
    pub f: u8,
    pub h: u8,
    pub l: u8,
    pub pc: u16,
    pub sp: u16,
    pub ram: Seq<(u16, u8)>,
}

impl StateView {
    /// The processor state that is recorded, the stored interrupt flag
    /// taken as clear.
    pub open spec fn cpu(self) -> CpuState {
        CpuState {
            reg: Registers {
                a: self.a,
                b: self.b,
                c: self.c,
                d: self.d,
                e: self.e,
                f: self.f,
                h: self.h,
                l: self.l,
            },
            sp: self.sp,
            pc: self.pc,
            ime: false,
        }
    }
}

impl View for State {
    type V = StateView;

    open spec fn view(&self) -> StateView {
        StateView {
            a: self.a,
            b: self.b,
            c: self.c,
            d: self.d,
            e: self.e,
            f: self.f,
            h: self.h,
            l: self.l,
            pc: self.pc,
            sp: self.sp,
            ram: self.ram@,
        }
    }
}

/// One recorded test: its name, the state before the instruction and the
/// state after it.
#[derive(Debug, PartialEq, Eq)]
pub struct TestData {
    pub name: String,
    pub initial: State,
    pub final_name: State,
}

} // verus!
