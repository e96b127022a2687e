//! The register bank: sixteen general registers, two timers, and the
//! arithmetic primitives with their flag rules.

use vstd::prelude::*;
use crate::instruction::Varset;

verus! {

/// Number of the flag register, `VF`.
pub const FLAG: u8 = 0xf;

/// The low eight bits of an integer.
pub open spec fn low_byte(n: int) -> u8 {
    (n % 0x100) as u8
}

/// The register bank as a value: the sixteen registers and the two timers.
#[verifier::ext_equal]
pub struct RegisterView {
    pub v: Seq<u8>,
    pub delay: u8,
    pub sound: u8,
}

impl RegisterView {
    /// There are sixteen general registers.
    pub open spec fn wf(self) -> bool {
        self.v.len() == 16
    }

    /// What the reference resolves to. The keyboard latch is no storage of the
    /// bank and resolves to nothing meaningful here.
    pub open spec fn get(self, vs: Varset) -> u8
        recommends
            vs.is_storage(),
    {
        match vs {
            Varset::V(n) => self.v[n as int],
            Varset::Keyboard => 0,
            Varset::DelayTimer => self.delay,
            Varset::SoundTimer => self.sound,
        }
    }

    /// The bank after `val` is stored under the reference.
    pub open spec fn set(self, vs: Varset, val: u8) -> RegisterView
        recommends
            vs.is_storage(),
    {
        match vs {
            Varset::V(n) => RegisterView { v: self.v.update(n as int, val), ..self },
            Varset::Keyboard => self,
            Varset::DelayTimer => RegisterView { delay: val, ..self },
            Varset::SoundTimer => RegisterView { sound: val, ..self },
        }
    }

    /// Adds `val`, keeps the low eight bits, and leaves the flag alone.
    pub open spec fn inc_nocarry(self, vs: Varset, val: u8) -> RegisterView {
        self.set(vs, low_byte(self.get(vs) + val))
    }

    /// Adds `val`: the flag becomes 1 exactly when the sum exceeds 255, then
    /// the destination takes the low eight bits of the sum.
    pub open spec fn inc_withcarry(self, vs: Varset, val: u8) -> RegisterView {
        let sum = self.get(vs) + val;
        self.set(
            Varset::V(FLAG),
            if sum > 0xff {
                1
            } else {
                0
            },
        ).set(vs, low_byte(sum))
    }

    /// Copies the source into the destination.
    pub open spec fn set_to_var(self, vs: Varset, vi: Varset) -> RegisterView {
        self.set(vs, self.get(vi))
    }

    /// The destination becomes source minus destination, in eight bits. The
    /// flag is left alone.
    pub open spec fn decrement_and_flip(self, vs: Varset, vi: Varset) -> RegisterView {
        self.set(vs, low_byte(self.get(vi) - self.get(vs)))
    }

    /// Subtracts the source: the flag becomes 1 exactly when the source is the
    /// larger one (a borrow), then the destination takes the low eight bits of
    /// the difference.
    pub open spec fn decrement_with_borrow(self, vs: Varset, vi: Varset) -> RegisterView {
        let diff = self.get(vs) - self.get(vi);
        self.set(
            Varset::V(FLAG),
            if diff < 0 {
                1
            } else {
                0
            },
        ).set(vs, low_byte(diff))
    }

    /// The flag takes the lowest bit, then the destination is halved.
    pub open spec fn bitshift_and_store(self, vs: Varset) -> RegisterView {
        let val = self.get(vs);
        self.set(Varset::V(FLAG), val % 2).set(vs, val / 2)
    }

    /// Each timer that is not zero goes down by one.
    pub open spec fn tick(self) -> RegisterView {
        RegisterView {
            delay: if self.delay > 0 {
                (self.delay - 1) as u8
            } else {
                0
            },
            sound: if self.sound > 0 {
                (self.sound - 1) as u8
            } else {
                0
            },
            ..self
        }
    }
}

pub struct Register {
    /// The general registers `V0`..`VF`.
    pub v: [u8; 16],
    /// The delay timer.
    pub delay: u8,
    /// The sound timer.
    pub sound: u8,
}

impl View for Register {
    type V = RegisterView;

    open spec fn view(&self) -> RegisterView {
        RegisterView { v: self.v@, delay: self.delay, sound: self.sound }
    }
}

impl Register {
    /// A bank with every register and both timers at zero.
    pub fn new() -> (register: Self)
        ensures
            register@ == (RegisterView { v: Seq::new(16, |n: int| 0u8), delay: 0, sound: 0 }),
    {
        Self { v: [0;16], delay: 0, sound: 0 }
    }

    /// Reads a register or a timer.
    pub fn get(&self, vs: Varset) -> (val: u8)
        requires
            vs.is_storage(),
        ensures
            val == self@.get(vs),
    {
        match vs {
            Varset::V(vnum) => self.v[vnum as usize],
            Varset::Keyboard => 0,
            Varset::DelayTimer => self.delay,
            Varset::SoundTimer => self.sound,
        }
    }

    /// Writes a register or a timer.
    pub fn set(&mut self, vs: Varset, val: u8)
        requires
            vs.is_storage(),
        ensures
            final(self)@ == old(self)@.set(vs, val),
    {
        match vs {
            Varset::V(vnum) => {
                self.v[vnum as usize] = val;
            },
            Varset::Keyboard => {},
            Varset::DelayTimer => {
                self.delay = val;
            },
            Varset::SoundTimer => {
                self.sound = val;
            },
        }
    }

    /// Wrapping 8-bit addition; the flag register is not touched.
    pub fn inc_nocarry(&mut self, vs: Varset, val: u8)
        requires
            vs.is_storage(),
        ensures
            final(self)@ == old(self)@.inc_nocarry(vs, val),
    {
        let new_val = self.get(vs).wrapping_add(val);
        self.set(vs, new_val)
    }

    /// Addition with carry into the flag register.
    pub fn inc_withcarry(&mut self, vs: Varset, val: u8)
        requires
            vs.is_storage(),
        ensures
            final(self)@ == old(self)@.inc_withcarry(vs, val),
    {
        let new_val = self.get(vs) as u16 + val as u16;
        let carry = (new_val & 0xff00) > 0;
        assert(((new_val & 0xff00) > 0) == (new_val > 0xff)) by (bit_vector);
        assert((new_val & 0x00ff) == new_val % 0x100) by (bit_vector);
        self.set(
            Varset::V(FLAG),
            if carry {
                1
            } else {
                0
            },
        );
        self.set(vs, (new_val & 0x00ff) as u8)
    }

    /// Copies one register or timer into another.
    pub fn set_to_var(&mut self, vs: Varset, vi: Varset)
        requires
            vs.is_storage(),
            vi.is_storage(),
        ensures
            final(self)@ == old(self)@.set_to_var(vs, vi),
    {
        let val = self.get(vi);
        self.set(vs, val);
    }

    /// Reverse subtraction, source minus destination, wrapping in eight bits;
    /// the flag register is not touched.
    pub fn decrement_and_flip(&mut self, vs: Varset, vi: Varset)
        requires
            vs.is_storage(),
            vi.is_storage(),
        ensures
            final(self)@ == old(self)@.decrement_and_flip(vs, vi),
    {
        let x = self.get(vs);
        let y = self.get(vi);
        self.set(vs, y.wrapping_sub(x))
    }

    /// Subtraction with the borrow noted in the flag register.
    pub fn decrement_with_borrow(&mut self, vs: Varset, vi: Varset)
        requires
            vs.is_storage(),
            vi.is_storage(),
        ensures
            final(self)@ == old(self)@.decrement_with_borrow(vs, vi),
    {
        let val = (self.get(vs) as u16).wrapping_sub(self.get(vi) as u16);
        let borrow = (val & 0xff00) > 0;
        assert(val <= 0xff ==> (val & 0xff00) == 0 && (val & 0x00ff) == val) by (bit_vector);
        assert(val >= 0xff01 ==> (val & 0xff00) > 0 && (val & 0x00ff) == val - 0xff00)
            by (bit_vector);
        self.set(
            Varset::V(FLAG),
            if borrow {
                1
            } else {
                0
            },
        );
        self.set(vs, (val & 0x00ff) as u8)
    }

    /// Shifts right by one; the bit that falls out goes to the flag register.
    pub fn bitshift_and_store(&mut self, vs: Varset)
        requires
            vs.is_storage(),
        ensures
            final(self)@ == old(self)@.bitshift_and_store(vs),
    {
        let val = self.get(vs);
        assert(val & 0x01 == val % 2) by (bit_vector);
        assert(val >> 1 == val / 2) by (bit_vector);
        self.set(Varset::V(FLAG), val & 0x01);
        self.set(vs, val >> 1)
    }

    /// One tick of the timers.
    pub fn tick(&mut self)
        ensures
            final(self)@ == old(self)@.tick(),
    {
        if self.delay > 0 {
            self.delay = self.delay - 1;
        }
        if self.sound > 0 {
            self.sound = self.sound - 1;
        }
    }
}

} // verus!
