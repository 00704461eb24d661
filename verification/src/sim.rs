//! A register-file model of a bus device.
//!
//! [`RegisterDevice`] plays the physical side of the bus for boards without
//! hardware and for the test suite: it consumes the transaction that a
//! [`Mux`](crate::mux::Mux) reports in flight and produces the answer a real
//! register-addressed device would give. The first transaction byte selects
//! the starting register (its top bit, the auto-increment flag, is ignored
//! here because every multi-byte access walks consecutive registers); the
//! remaining written bytes land in consecutive registers, and a read returns
//! consecutive registers from the same starting point.
//!
//! A transaction is applied only when its bus outcome is a success: the
//! caller that injects a NACK or another failure simply does not call
//! [`RegisterDevice::transact`], which is exactly how a real device that
//! refused a transfer keeps its registers unmodified.

use vstd::prelude::*;

verus! {

use crate::mux::OpKind;

/// What a write of `data`'s first `write_len` bytes leaves in a register
/// file: `data[0]`'s low bits pick the starting register and each following
/// byte lands in the next register; everything else keeps its value.
pub open spec fn spec_apply_write(registers: Seq<u8>, data: Seq<u8>, write_len: int) -> Seq<u8>
    recommends
        1 <= write_len <= data.len(),
{
    let start = (data[0] & 0x7f) as int;
    Seq::new(
        registers.len(),
        |k: int|
            if start <= k < start + write_len - 1 {
                data[k - start + 1]
            } else {
                registers[k]
            },
    )
}

/// A bus device whose state is one file of byte-wide registers.
pub struct RegisterDevice {
    registers: Vec<u8>,
}

impl RegisterDevice {
    /// The register file's contents.
    pub closed spec fn registers(&self) -> Seq<u8> {
        self.registers@
    }

    /// A device with `count` registers, all zero after reset.
    pub fn new(count: usize) -> (device: RegisterDevice)
        ensures
            device.registers().len() == count,
            forall|k: int| 0 <= k < count ==> device.registers()[k] == 0u8,
    {
        let mut registers: Vec<u8> = Vec::new();
        let mut i: usize = 0;
        while i < count
            invariant
                i <= count,
                registers@.len() == i,
                forall|k: int| 0 <= k < i ==> registers@[k] == 0u8,
            decreases count - i,
        {
            registers.push(0);
            i += 1;
        }
        RegisterDevice { registers }
    }

    /// One register's current value.
    pub fn register(&self, index: usize) -> (value: u8)
        requires
            index < self.registers().len(),
        ensures
            value == self.registers()[index as int],
    {
        self.registers[index]
    }

    /// Performs one successful transaction against the register file: the
    /// written bytes land as [`spec_apply_write`] says, and the answer holds
    /// `read_len` consecutive registers from the selected starting register.
    pub fn transact(
        &mut self,
        kind: OpKind,
        data: &Vec<u8>,
        write_len: usize,
        read_len: usize,
    ) -> (answer: Vec<u8>)
        requires
            !(kind is Read),
            kind is Write ==> read_len == 0,
            1 <= write_len <= data.len(),
            (data[0] & 0x7f) + write_len - 1 <= old(self).registers().len(),
            (data[0] & 0x7f) + read_len <= old(self).registers().len(),
        ensures
            final(self).registers() == spec_apply_write(
                old(self).registers(),
                data@,
                write_len as int,
            ),
            answer@.len() == read_len,
            forall|k: int|
                0 <= k < read_len ==> answer@[k] == final(self).registers()[(data[0]
                    & 0x7f) + k],
    {
        let start = (data[0] & 0x7f) as usize;
        proof {
            assert(data@[0] == data[0]);
        }
        let mut i: usize = 1;
        while i < write_len
            invariant
                1 <= i <= write_len,
                write_len <= data.len(),
                start == data@[0] & 0x7f,
                start + write_len - 1 <= self.registers.len(),
                self.registers().len() == old(self).registers().len(),
                forall|k: int|
                    start <= k < start + i - 1 ==> self.registers()[k] == data@[k - start + 1],
                forall|k: int|
                    0 <= k < self.registers().len() && !(start <= k < start + i - 1)
                        ==> self.registers()[k] == old(self).registers()[k],
            decreases write_len - i,
        {
            self.registers[start + i - 1] = data[i];
            i += 1;
        }
        proof {
            assert(self.registers() =~= spec_apply_write(
                old(self).registers(),
                data@,
                write_len as int,
            ));
        }
        let mut answer: Vec<u8> = Vec::new();
        let mut j: usize = 0;
        while j < read_len
            invariant
                j <= read_len,
                1 <= write_len <= data.len(),
                start + read_len <= self.registers.len(),
                answer@.len() == j,
                forall|k: int| 0 <= k < j ==> answer@[k] == self.registers()[start + k],
                self.registers() == spec_apply_write(
                    old(self).registers(),
                    data@,
                    write_len as int,
                ),
                start == data@[0] & 0x7f,
            decreases read_len - j,
        {
            answer.push(self.registers[start + j]);
            j += 1;
        }
        answer
    }
}

/// Idempotence of configuration at the device: writing the same burst twice
/// leaves exactly the registers that writing it once leaves.
pub proof fn lemma_apply_write_idempotent(registers: Seq<u8>, data: Seq<u8>, write_len: int)
    requires
        1 <= write_len <= data.len(),
        (data[0] & 0x7f) + write_len - 1 <= registers.len(),
    ensures
        spec_apply_write(spec_apply_write(registers, data, write_len), data, write_len)
            == spec_apply_write(registers, data, write_len),
{
    assert(spec_apply_write(spec_apply_write(registers, data, write_len), data, write_len)
        =~= spec_apply_write(registers, data, write_len));
}

} // verus!
