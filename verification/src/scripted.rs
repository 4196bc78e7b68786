//! A scripted processor-under-test: a deterministic stand-in whose
//! whole behaviour is driven by the bytes of the ROM it is constructed
//! from. It exists so that the runner and the orchestrator can be
//! exercised without a real CPU implementation.
//!
//! The ROM is read as a script. Its first byte says on which stepping
//! call (counted from one) the stepping engine reports a fault; zero
//! means it never does. The rest is a sequence of frames, each a count
//! byte followed by that many `(high, low, value)` memory writes. The
//! first frame is applied on construction, and each successful stepping
//! call applies the next frame, so memory can evolve between polling
//! increments exactly as a running test program's status record would.

use vstd::prelude::*;

use crate::TestableCpu;

verus! {

/// The size of the scripted processor's address space.
pub const MEMORY_SIZE: usize = 65536;

/// All-zero memory, the state every scripted processor starts from.
pub open spec fn zeroed_memory() -> Seq<u8> {
    Seq::new(MEMORY_SIZE as nat, |i: int| 0u8)
}

/// One script write applied to memory: the byte at `high * 256 + low`
/// becomes `value`; an address outside memory is ignored.
pub open spec fn write_applied(memory: Seq<u8>, high: u8, low: u8, value: u8) -> Seq<u8> {
    if high * 256 + low < memory.len() {
        memory.update(high * 256 + low, value)
    } else {
        memory
    }
}

/// Up to `remaining` further writes of one frame applied to memory
/// from script position `pos`: a truncated write ends both the frame
/// and the whole script. Yields the new memory and script position.
pub open spec fn frame_applied(memory: Seq<u8>, script: Seq<u8>, pos: int, remaining: int) -> (
    Seq<u8>,
    int,
)
    decreases remaining,
{
    if remaining <= 0 {
        (memory, pos)
    } else if script.len() - pos < 3 {
        (memory, script.len() as int)
    } else {
        frame_applied(
            write_applied(memory, script[pos], script[pos + 1], script[pos + 2]),
            script,
            pos + 3,
            remaining - 1,
        )
    }
}

/// The memory and script position after the next frame of the script:
/// a count byte at `pos` followed by that many writes; an exhausted
/// script changes nothing.
pub open spec fn next_frame(memory: Seq<u8>, script: Seq<u8>, pos: int) -> (Seq<u8>, int) {
    if pos < 0 || pos >= script.len() {
        (memory, pos)
    } else {
        frame_applied(memory, script, pos + 1, script[pos] as int)
    }
}

/// A processor whose stepping behaviour replays the script found in
/// its ROM.
pub struct ScriptedCpu {
    pub memory: Vec<u8>,
    pub script: Vec<u8>,
    pub script_pos: usize,
    pub steps_taken: u8,
    pub fail_on_step: u8,
    pub pc: u16,
}

impl ScriptedCpu {
    /// Applies the next frame of the script to memory, if any is left.
    fn apply_next_frame(&mut self)
        ensures
            final(self).memory@ == next_frame(
                old(self).memory@,
                old(self).script@,
                old(self).script_pos as int,
            ).0,
            final(self).script_pos as int == next_frame(
                old(self).memory@,
                old(self).script@,
                old(self).script_pos as int,
            ).1,
            final(self).script == old(self).script,
            final(self).steps_taken == old(self).steps_taken,
            final(self).fail_on_step == old(self).fail_on_step,
            final(self).pc == old(self).pc,
    {
        if self.script_pos >= self.script.len() {
            return ;
        }
        let writes = self.script[self.script_pos];
        self.script_pos = self.script_pos + 1;
        let mut k: u8 = 0;
        while k < writes
            invariant
                k <= writes,
                self.script_pos <= self.script@.len(),
                self.script == old(self).script,
                self.steps_taken == old(self).steps_taken,
                self.fail_on_step == old(self).fail_on_step,
                self.pc == old(self).pc,
                next_frame(old(self).memory@, old(self).script@, old(self).script_pos as int)
                    == frame_applied(
                    self.memory@,
                    self.script@,
                    self.script_pos as int,
                    writes - k,
                ),
            decreases writes - k,
        {
            if self.script.len() - self.script_pos < 3 {
                self.script_pos = self.script.len();
                return ;
            }
            let high = self.script[self.script_pos];
            let low = self.script[self.script_pos + 1];
            let value = self.script[self.script_pos + 2];
            self.script_pos = self.script_pos + 3;
            let address = (high as usize) * 256 + (low as usize);
            if address < self.memory.len() {
                self.memory[address] = value;
            }
            k = k + 1;
        }
    }
}

impl TestableCpu for ScriptedCpu {
    open spec fn mem(&self, address: u16) -> u8 {
        if address < self.memory@.len() {
            self.memory@[address as int]
        } else {
            0
        }
    }

    fn get_cpu(rom: &[u8]) -> (result: Result<Self, String>)
        ensures
            rom@.len() == 0 <==> result is Err,
            result is Err ==> result->Err_0@ == "empty rom"@,
            result is Ok ==> ({
                let cpu = result->Ok_0;
                &&& cpu.script@ == rom@.skip(1)
                &&& cpu.fail_on_step == rom@[0]
                &&& cpu.steps_taken == 0
                &&& cpu.pc == 0
                &&& cpu.memory@ == next_frame(zeroed_memory(), rom@.skip(1), 0).0
                &&& cpu.script_pos as int == next_frame(zeroed_memory(), rom@.skip(1), 0).1
            }),
    {
        if rom.len() == 0 {
            return Err("empty rom".to_owned());
        }
        let mut memory: Vec<u8> = Vec::new();
        let mut i: usize = 0;
        while i < MEMORY_SIZE
            invariant
                memory@.len() == i,
                i <= MEMORY_SIZE,
                forall|n: int| 0 <= n < i ==> memory@[n] == 0,
            decreases MEMORY_SIZE - i,
        {
            memory.push(0);
            i = i + 1;
        }
        proof {
            assert(memory@ =~= zeroed_memory());
        }
        let mut script: Vec<u8> = Vec::new();
        let mut j: usize = 1;
        while j < rom.len()
            invariant
                1 <= j <= rom@.len(),
                script@ == rom@.subrange(1, j as int),
            decreases rom.len() - j,
        {
            let byte = rom[j];
            script.push(byte);
            proof {
                assert(rom@.subrange(1, j + 1) =~= rom@.subrange(1, j as int).push(byte));
            }
            j = j + 1;
        }
        proof {
            assert(script@ =~= rom@.skip(1));
        }
        let mut cpu = ScriptedCpu {
            memory,
            script,
            script_pos: 0,
            steps_taken: 0,
            fail_on_step: rom[0],
            pc: 0,
        };
        cpu.apply_next_frame();
        Ok(cpu)
    }

    fn set_program_counter(&mut self, value: u16)
        ensures
            final(self).pc == value,
            final(self).memory == old(self).memory,
            final(self).script == old(self).script,
            final(self).script_pos == old(self).script_pos,
            final(self).steps_taken == old(self).steps_taken,
            final(self).fail_on_step == old(self).fail_on_step,
    {
        self.pc = value;
    }

    fn memory_read(&self, address: u16) -> (value: u8) {
        if (address as usize) < self.memory.len() {
            self.memory[address as usize]
        } else {
            0
        }
    }

    fn step(&mut self, _cycles: u32) -> (result: Result<(), String>)
        ensures
            final(self).pc == old(self).pc,
            final(self).script == old(self).script,
            final(self).fail_on_step == old(self).fail_on_step,
            final(self).steps_taken == (if old(self).steps_taken < 255 {
                old(self).steps_taken + 1
            } else {
                255int
            }),
            result is Err <==> old(self).fail_on_step != 0 && final(self).steps_taken == old(
                self,
            ).fail_on_step,
            result is Err ==> final(self).memory == old(self).memory && final(self).script_pos
                == old(self).script_pos && result->Err_0@ == "scripted cpu fault"@,
            result is Ok ==> final(self).memory@ == next_frame(
                old(self).memory@,
                old(self).script@,
                old(self).script_pos as int,
            ).0 && final(self).script_pos as int == next_frame(
                old(self).memory@,
                old(self).script@,
                old(self).script_pos as int,
            ).1,
    {
        if self.steps_taken < 255 {
            self.steps_taken = self.steps_taken + 1;
        }
        if self.fail_on_step != 0 && self.steps_taken == self.fail_on_step {
            return Err("scripted cpu fault".to_owned());
        }
        self.apply_next_frame();
        Ok(())
    }
}

} // verus!
