//! Signals observed by the UI: a single value and a ring buffer of samples.
//!
//! "Everything is bits. Interpretation is the observer's burden." Samples are
//! 32-bit floats carried as their IEEE-754 bit patterns.

use vstd::prelude::*;

verus! {

/// A single-value signal (e.g., peak level, control value).
pub struct AtomicSignal {
    pub value: u32,
}

impl AtomicSignal {
    pub fn new(initial_bits: u32) -> (s: Self)
        ensures
            s.value == initial_bits,
    {
        AtomicSignal { value: initial_bits }
    }

    pub fn set(&mut self, bits: u32)
        ensures
            final(self).value == bits,
    {
        self.value = bits;
    }

    pub fn get(&self) -> (bits: u32)
        ensures
            bits == self.value,
    {
        self.value
    }
}

/// The write position after one more sample: the counter wraps around at `usize::MAX`.
pub open spec fn next_write_ptr(ptr: usize) -> usize {
    if ptr == usize::MAX {
        0
    } else {
        (ptr + 1) as usize
    }
}

/// A buffer of samples for waveform or spectrum display, written round-robin.
pub struct SignalBuffer {
    pub data: Vec<u32>,
    pub write_ptr: usize,
}

impl SignalBuffer {
    /// A buffer of `size` samples, all `0.0` (bit pattern 0).
    pub fn new(size: usize) -> (b: Self)
        ensures
            b.data@ == Seq::new(size as nat, |i: int| 0u32),
            b.write_ptr == 0,
    {
        let mut data: Vec<u32> = Vec::with_capacity(size);
        let mut i: usize = 0;
        while i < size
            invariant
                i <= size,
                data@ == Seq::new(i as nat, |j: int| 0u32),
            decreases size - i,
        {
            data.push(0u32);
            i = i + 1;
        }
        SignalBuffer { data, write_ptr: 0 }
    }

    /// Writes a sample at the write position modulo the buffer length and advances it.
    pub fn push(&mut self, sample_bits: u32)
        requires
            old(self).data@.len() > 0,
        ensures
            final(self).data@ == old(self).data@.update(
                old(self).write_ptr as int % old(self).data@.len() as int,
                sample_bits,
            ),
            final(self).write_ptr == next_write_ptr(old(self).write_ptr),
    {
        let ptr = self.write_ptr % self.data.len();
        self.write_ptr = if self.write_ptr == usize::MAX {
            0
        } else {
            self.write_ptr + 1
        };
        self.data.set(ptr, sample_bits);
    }

    /// All samples, in slot order.
    pub fn read_all(&self) -> (samples: Vec<u32>)
        ensures
            samples@ == self.data@,
    {
        let mut out: Vec<u32> = Vec::with_capacity(self.data.len());
        let mut i: usize = 0;
        while i < self.data.len()
            invariant
                i <= self.data@.len(),
                out@ == self.data@.take(i as int),
            decreases self.data@.len() - i,
        {
            out.push(self.data[i]);
            proof {
                assert(self.data@.take(i + 1) =~= self.data@.take(i as int).push(self.data@[i as int]));
            }
            i = i + 1;
        }
        proof {
            assert(self.data@.take(self.data@.len() as int) =~= self.data@);
        }
        out
    }
}

/// Law: starting from an empty write position, pushing `k <= len` samples one by one
/// lays them out in the first `k` slots in order and leaves the others untouched.
pub proof fn lemma_pushes_fill_in_order(data: Seq<u32>, samples: Seq<u32>)
    requires
        data.len() > 0,
        samples.len() <= data.len(),
    ensures
        fill(data, samples) == samples + data.skip(samples.len() as int),
    decreases samples.len(),
{
    if samples.len() > 0 {
        let init = samples.drop_last();
        let i = samples.len() - 1;
        lemma_pushes_fill_in_order(data, init);
        assert(i % data.len() as int == i) by (nonlinear_arith)
            requires
                0 <= i < data.len(),
        ;
        assert(fill(data, samples) == (init + data.skip(i)).update(i, samples.last()));
        assert(fill(data, samples) =~= samples + data.skip(samples.len() as int));
    } else {
        assert(data.skip(0) =~= data);
        assert(samples + data =~= data);
    }
}

/// The slots after pushing `samples` one by one from write position 0, as `push` states
/// each step (the position never reaches the wrap-around point here).
pub open spec fn fill(data: Seq<u32>, samples: Seq<u32>) -> Seq<u32>
    decreases samples.len(),
{
    if samples.len() == 0 {
        data
    } else {
        let i = samples.len() - 1;
        fill(data, samples.drop_last()).update(i % data.len() as int, samples.last())
    }
}

} // verus!
