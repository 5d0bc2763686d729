//! Diagnostic vascular system: observation data gathered on the audio thread.
//!
//! Samples are 32-bit floats carried as their IEEE-754 bit patterns; the waveform
//! collector only stores and forwards them.

use vstd::prelude::*;

verus! {

/// Number of spectrum bins (logarithmic buckets) in a spectrum frame.
pub const SPECTRUM_BINS: usize = 128;

/// Number of (decimated) samples in a waveform frame.
pub const WAVEFORM_SAMPLES: usize = 256;

/// Collects a waveform frame, keeping one sample out of every `decimation_interval`.
pub struct WaveformMonitor {
    buffer: [u32; WAVEFORM_SAMPLES],
    write_pos: usize,
    decimation_count: usize,
    decimation_interval: usize,
}

impl WaveformMonitor {
    pub closed spec fn frame(&self) -> Seq<u32> {
        self.buffer@
    }

    pub closed spec fn position(&self) -> int {
        self.write_pos as int
    }

    pub closed spec fn pending(&self) -> int {
        self.decimation_count as int
    }

    pub closed spec fn interval(&self) -> int {
        self.decimation_interval as int
    }

    /// The write position is inside the frame and the sample counter below the interval.
    pub closed spec fn wf(&self) -> bool {
        &&& self.write_pos < WAVEFORM_SAMPLES
        &&& (self.decimation_count < self.decimation_interval || self.decimation_count == 0)
    }

    pub fn new(decimation_interval: usize) -> (m: Self)
        ensures
            m.wf(),
            m.frame() == Seq::new(WAVEFORM_SAMPLES as nat, |i: int| 0u32),
            m.position() == 0,
            m.pending() == 0,
            m.interval() == decimation_interval,
    {
        let m = WaveformMonitor {
            buffer: [0u32; WAVEFORM_SAMPLES],
            write_pos: 0,
            decimation_count: 0,
            decimation_interval,
        };
        proof {
            assert(m.buffer@ =~= Seq::new(WAVEFORM_SAMPLES as nat, |i: int| 0u32));
        }
        m
    }

    /// Feeds one sample. Every `decimation_interval`-th sample (every sample when the
    /// interval is 0 or 1) is written at the write position; when the frame is full
    /// it is returned for emission and writing starts over.
    pub fn process(&mut self, sample_bits: u32) -> (emitted: Option<[u32; WAVEFORM_SAMPLES]>)
        requires
            old(self).wf(),
        ensures
            final(self).wf(),
            final(self).interval() == old(self).interval(),
            if old(self).pending() + 1 >= old(self).interval() {
                let frame = old(self).frame().update(old(self).position(), sample_bits);
                &&& final(self).pending() == 0
                &&& final(self).frame() == frame
                &&& if old(self).position() + 1 >= WAVEFORM_SAMPLES {
                    &&& final(self).position() == 0
                    &&& emitted is Some && emitted.unwrap()@ == frame
                } else {
                    &&& final(self).position() == old(self).position() + 1
                    &&& emitted is None
                }
            } else {
                &&& final(self).pending() == old(self).pending() + 1
                &&& final(self).frame() == old(self).frame()
                &&& final(self).position() == old(self).position()
                &&& emitted is None
            },
    {
        self.decimation_count = self.decimation_count + 1;
        if self.decimation_count >= self.decimation_interval {
            self.buffer[self.write_pos] = sample_bits;
            self.write_pos = self.write_pos + 1;
            self.decimation_count = 0;
            if self.write_pos >= WAVEFORM_SAMPLES {
                self.write_pos = 0;
                return Some(self.buffer);
            }
        }
        None
    }
}

} // verus!
