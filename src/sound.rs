use vstd::prelude::*;

verus! {

/// Base of the memory-mapped I/O registers.
pub const IO_BASE: u32 = 0x0400_0000;
pub const REG_SOUND1CNT_L: u32 = 0x0400_0060;
pub const REG_SOUND1CNT_H: u32 = 0x0400_0062;
pub const REG_SOUND1CNT_X: u32 = 0x0400_0064;
pub const REG_SOUND2CNT_L: u32 = 0x0400_0068;
pub const REG_SOUND2CNT_H: u32 = 0x0400_006C;
pub const REG_SOUNDCNT_L: u32 = 0x0400_0080;
pub const REG_SOUNDCNT_H: u32 = 0x0400_0082;
pub const REG_SOUNDCNT_X: u32 = 0x0400_0084;
pub const REG_SOUNDBIAS: u32 = 0x0400_0088;

/// Offset of a sound register within the I/O register block.
pub fn local(address: u32) -> (r: usize)
    requires
        address >= IO_BASE,
    ensures
        r == address - IO_BASE,
{
    (address - IO_BASE) as usize
}

/// Volume envelope of a tone or noise channel.
#[derive(Clone, Copy, Debug, PartialEq, Eq, Structural)]
pub struct VolumeEnvelope {
    /// step period loaded on reset
    pub time: u8,
    /// true: volume rises; false: it falls
    pub mode: bool,
    /// steps left until the next volume change
    pub step_time: u8,
    /// volume loaded on reset, 0..15
    pub initial: u8,
    /// current volume, 0..15
    pub volume: u8,
}

impl VolumeEnvelope {
    pub open spec fn wf(&self) -> bool {
        self.volume <= 15 && self.initial <= 15
    }

    /// Full volume, envelope stopped.
    pub fn create() -> (r: VolumeEnvelope)
        ensures
            r == (VolumeEnvelope { time: 0, mode: false, step_time: 0, initial: 15, volume: 15 }),
            r.wf(),
    {
        VolumeEnvelope { time: 0, mode: false, step_time: 0, initial: 15, volume: 15 }
    }

    /// A write to a channel's envelope register (0xFF12, 0xFF17, 0xFF21) loads
    /// period, direction and initial volume; a write with bit 7 set to a
    /// channel's control register (0xFF14, 0xFF19, 0xFF23) restarts the envelope.
    pub fn rw_reset(&mut self, address: u16, value: u8)
        requires
            old(self).wf(),
        ensures
            final(self).wf(),
            *final(self) == if address == 0xFF12 || address == 0xFF17 || address == 0xFF21 {
                VolumeEnvelope {
                    time: value % 8,
                    mode: (value / 8) % 2 == 1,
                    initial: value / 16,
                    volume: value / 16,
                    ..*old(self)
                }
            } else if (address == 0xFF14 || address == 0xFF19 || address == 0xFF23) && value >= 0x80 {
                VolumeEnvelope { step_time: old(self).time, volume: old(self).initial, ..*old(self) }
            } else {
                *old(self)
            },
    {
        if address == 0xFF12 || address == 0xFF17 || address == 0xFF21 {
            self.time = value % 8;
            self.mode = (value / 8) % 2 == 1;
            self.initial = value / 16;
            self.volume = self.initial;
        } else if (address == 0xFF14 || address == 0xFF19 || address == 0xFF23) && value >= 0x80 {
            self.step_time = self.time;
            self.volume = self.initial;
        }
    }

    /// One envelope tick: counts the period down; when it runs out the period
    /// reloads and the volume moves one step (up to 15 or down to 0).
    pub fn step(&mut self)
        requires
            old(self).wf(),
        ensures
            final(self).wf(),
            *final(self) == if old(self).step_time > 1 {
                VolumeEnvelope { step_time: (old(self).step_time - 1) as u8, ..*old(self) }
            } else if old(self).step_time == 1 {
                VolumeEnvelope {
                    step_time: old(self).time,
                    volume: if old(self).mode && old(self).volume < 15 {
                        (old(self).volume + 1) as u8
                    } else if !old(self).mode && old(self).volume > 0 {
                        (old(self).volume - 1) as u8
                    } else {
                        old(self).volume
                    },
                    ..*old(self)
                }
            } else {
                *old(self)
            },
    {
        if self.step_time > 1 {
            self.step_time = self.step_time - 1;
        } else if self.step_time == 1 {
            self.step_time = self.time;
            if self.mode && self.volume < 15 {
                self.volume = self.volume + 1;
            } else if !self.mode && self.volume > 0 {
                self.volume = self.volume - 1;
            }
        }
    }
}

/// Relies on `rand::random` (rand 0.8): one value drawn from the thread-local
/// generator. Nothing is promised of the value; the call panics only if the
/// operating system's entropy source cannot seed that generator.
pub assume_specification<T>[ rand::random::<T> ]() -> (r: T)
    where
        rand::distributions::Standard: rand::distributions::Distribution<T>,
;

/// White-noise samples: `samples` values drawn at random.
pub fn gen_noise(samples: u16) -> (r: Vec<i16>)
    ensures
        r@.len() == samples,
{
    let mut sample_noise: Vec<i16> = Vec::new();
    let mut i: u16 = 0;
    while i < samples
        invariant
            i <= samples,
            sample_noise@.len() == i,
        decreases samples - i,
    {
        sample_noise.push(rand::random::<i16>());
        i = i + 1;
    }
    sample_noise
}

} // verus!
