use vstd::prelude::*;
use vstd::arithmetic::div_mod::lemma_fundamental_div_mod_converse;

use crate::bits::lemma_byte_fields;

use vstd::array::{spec_array_fill_for_copy_type, spec_array_update};

use crate::ram::{apu_read_mask, apu_read_mask_exec};
use crate::state::{
    StateError, available, bool_byte, get_u16, get_u32, has_bytes, le16, le32, push_bytes, push_u16,
    push_u32, read_le16, read_le32,
};

verus! {

/// The CPU clock, in T-cycles per second.
pub const CPU_CLOCK: u32 = 4_194_304;

/// The audio sample rate, in samples per second.
pub const SAMPLE_RATE: u32 = 44_100;

/// The waveform of a square channel: whether step `position` (0-7) of duty
/// pattern `duty` (12.5%, 25%, 50%, 75%) is high.
pub open spec fn duty_high(duty: u8, position: u8) -> bool {
    if duty == 0 {
        position == 7
    } else if duty == 1 {
        position == 0 || position == 7
    } else if duty == 2 {
        position == 0 || 5 <= position
    } else {
        1 <= position <= 6
    }
}

fn duty_high_exec(duty: u8, position: u8) -> (r: bool)
    ensures
        r == duty_high(duty, position),
{
    if duty == 0 {
        position == 7
    } else if duty == 1 {
        position == 0 || position == 7
    } else if duty == 2 {
        position == 0 || 5 <= position
    } else {
        1 <= position && position <= 6
    }
}

/// The volume after one envelope step.
pub open spec fn envelope_step(volume: u8, increase: bool) -> u8 {
    if increase && volume < 15 {
        (volume + 1) as u8
    } else if !increase && volume > 0 {
        (volume - 1) as u8
    } else {
        volume
    }
}

/// A length counter loaded from the low six bits of a register: 64 minus them.
pub open spec fn length64(value: u8) -> u16 {
    (64 - (value & 0x3F)) as u16
}

proof fn lemma_register_fields(value: u8, frequency: u16)
    by (bit_vector)
    requires
        frequency <= 2047,
    ensures
        (value >> 4u8) & 0x07 <= 7,
        value & 0x07 <= 7,
        (value >> 6u8) & 0x03 <= 3,
        (value >> 4u8) & 0x0F <= 15,
        (value & 0x3F) <= 64,
        (frequency & 0x700) | (value as u16) <= 2047,
        (frequency & 0xFF) | (((value & 0x07) as u16) << 8u16) <= 2047,
{
}

/// A square-wave channel (channels 1 and 2; only channel 1 has a sweep unit).
#[derive(Clone, Copy)]
pub struct SquareChannel {
    pub enabled: bool,
    pub dac_enabled: bool,
    pub length_counter: u16,
    pub length_enabled: bool,
    pub volume: u8,
    pub envelope_period: u8,
    /// true = increase
    pub envelope_direction: bool,
    pub envelope_timer: u8,
    pub initial_volume: u8,
    pub frequency: u16,
    pub frequency_timer: u16,
    pub duty: u8,
    pub duty_position: u8,
    pub sweep_period: u8,
    /// true = subtract
    pub sweep_direction: bool,
    pub sweep_shift: u8,
    pub sweep_timer: u8,
    pub sweep_enabled: bool,
    pub shadow_frequency: u16,
    pub has_sweep: bool,
}

/// The number of bytes a square channel's saved state takes.
pub const SQUARE_STATE_LEN: usize = 24;

impl SquareChannel {
    /// The channel at power-on: everything zero.
    pub open spec fn powered_on(has_sweep: bool) -> SquareChannel {
        SquareChannel {
            enabled: false,
            dac_enabled: false,
            length_counter: 0,
            length_enabled: false,
            volume: 0,
            envelope_period: 0,
            envelope_direction: false,
            envelope_timer: 0,
            initial_volume: 0,
            frequency: 0,
            frequency_timer: 0,
            duty: 0,
            duty_position: 0,
            sweep_period: 0,
            sweep_direction: false,
            sweep_shift: 0,
            sweep_timer: 0,
            sweep_enabled: false,
            shadow_frequency: 0,
            has_sweep,
        }
    }

    /// The ranges the channel's registers stay in: an 11-bit frequency, a
    /// 2-bit duty, a 3-bit duty step and a 3-bit sweep shift.
    pub open spec fn wf(self) -> bool {
        &&& self.frequency <= 2047
        &&& self.shadow_frequency <= 2047
        &&& self.duty <= 3
        &&& self.duty_position <= 7
        &&& self.sweep_shift <= 7
    }

    /// The timer reload value: the period of one duty step.
    pub open spec fn period(self) -> u16 {
        ((2048 - self.frequency) * 4) as u16
    }

    pub fn new(has_sweep: bool) -> (c: SquareChannel)
        ensures
            c == SquareChannel::powered_on(has_sweep),
            c.wf(),
    {
        SquareChannel {
            enabled: false,
            dac_enabled: false,
            length_counter: 0,
            length_enabled: false,
            volume: 0,
            envelope_period: 0,
            envelope_direction: false,
            envelope_timer: 0,
            initial_volume: 0,
            frequency: 0,
            frequency_timer: 0,
            duty: 0,
            duty_position: 0,
            sweep_period: 0,
            sweep_direction: false,
            sweep_shift: 0,
            sweep_timer: 0,
            sweep_enabled: false,
            shadow_frequency: 0,
            has_sweep,
        }
    }

    /// One T-cycle of the frequency timer: when it runs out it reloads with
    /// the period and the duty step advances.
    pub open spec fn ticked(self) -> SquareChannel {
        if self.frequency_timer == 0 {
            SquareChannel {
                frequency_timer: (self.period() - 1) as u16,
                duty_position: ((self.duty_position + 1) % 8) as u8,
                ..self
            }
        } else {
            SquareChannel { frequency_timer: (self.frequency_timer - 1) as u16, ..self }
        }
    }

    pub fn tick(&mut self)
        requires
            old(self).wf(),
        ensures
            *final(self) == old(self).ticked(),
            final(self).wf(),
    {
        if self.frequency_timer == 0 {
            self.frequency_timer = (2048 - self.frequency) * 4;
            let p = self.duty_position + 1;
            proof {
                lemma_byte_fields(p);
            }
            self.duty_position = p & 7;
        }
        self.frequency_timer = self.frequency_timer - 1;
    }

    /// The level fed to the channel's DAC (0-15), or `None` while the channel
    /// or its DAC is off.
    pub open spec fn level(self) -> Option<u8> {
        if !self.enabled || !self.dac_enabled {
            None
        } else if duty_high(self.duty, self.duty_position) {
            Some(self.volume)
        } else {
            Some(0)
        }
    }

    pub fn output_level(&self) -> (r: Option<u8>)
        ensures
            r == self.level(),
    {
        if !self.enabled || !self.dac_enabled {
            return None;
        }
        if duty_high_exec(self.duty, self.duty_position) {
            Some(self.volume)
        } else {
            Some(0)
        }
    }

    /// One length step: the counter runs down and silences the channel at zero.
    pub open spec fn length_ticked(self) -> SquareChannel {
        if self.length_enabled && self.length_counter > 0 {
            SquareChannel {
                length_counter: (self.length_counter - 1) as u16,
                enabled: self.enabled && self.length_counter != 1,
                ..self
            }
        } else {
            self
        }
    }

    pub fn tick_length(&mut self)
        ensures
            *final(self) == old(self).length_ticked(),
    {
        if self.length_enabled && self.length_counter > 0 {
            self.length_counter = self.length_counter - 1;
            if self.length_counter == 0 {
                self.enabled = false;
            }
        }
    }

    /// One envelope step: every `envelope_period` steps the volume moves by
    /// one toward 15 or 0.
    pub open spec fn envelope_ticked(self) -> SquareChannel {
        if self.envelope_period == 0 {
            self
        } else {
            let timer = if self.envelope_timer > 0 {
                (self.envelope_timer - 1) as u8
            } else {
                0
            };
            if timer == 0 {
                SquareChannel {
                    envelope_timer: self.envelope_period,
                    volume: envelope_step(self.volume, self.envelope_direction),
                    ..self
                }
            } else {
                SquareChannel { envelope_timer: timer, ..self }
            }
        }
    }

    pub fn tick_envelope(&mut self)
        ensures
            *final(self) == old(self).envelope_ticked(),
    {
        if self.envelope_period == 0 {
            return;
        }
        if self.envelope_timer > 0 {
            self.envelope_timer = self.envelope_timer - 1;
        }
        if self.envelope_timer == 0 {
            self.envelope_timer = self.envelope_period;
            if self.envelope_direction && self.volume < 15 {
                self.volume = self.volume + 1;
            } else if !self.envelope_direction && self.volume > 0 {
                self.volume = self.volume - 1;
            }
        }
    }

    /// The frequency the sweep unit computes from the shadow frequency.
    pub open spec fn sweep_target(self) -> u16 {
        let offset = self.shadow_frequency >> self.sweep_shift;
        if self.sweep_direction {
            (self.shadow_frequency - offset) as u16
        } else {
            (self.shadow_frequency + offset) as u16
        }
    }

    /// The sweep calculation: its target, and the channel, which is
    /// silenced when the target leaves the 11-bit range.
    pub open spec fn sweep_calculated(self) -> (SquareChannel, u16) {
        let new_freq = self.sweep_target();
        (SquareChannel { enabled: self.enabled && new_freq <= 2047, ..self }, new_freq)
    }

    pub fn calculate_sweep(&mut self) -> (r: u16)
        requires
            old(self).wf(),
        ensures
            (*final(self), r) == old(self).sweep_calculated(),
            final(self).wf(),
    {
        let offset = self.shadow_frequency >> self.sweep_shift;
        let sf = self.shadow_frequency;
        let sh = self.sweep_shift;
        assert(sf >> sh <= sf) by (bit_vector);
        let new_freq = if self.sweep_direction {
            self.shadow_frequency.wrapping_sub(offset)
        } else {
            self.shadow_frequency + offset
        };
        if new_freq > 2047 {
            self.enabled = false;
        }
        new_freq
    }

    /// One sweep step: every `sweep_period` steps (8 when the period is 0)
    /// the frequency moves to the sweep target, if the sweep is on and the
    /// target stays in range; the target is then checked once more.
    pub open spec fn sweep_ticked(self) -> SquareChannel {
        if !self.has_sweep {
            self
        } else {
            let timer = if self.sweep_timer > 0 {
                (self.sweep_timer - 1) as u8
            } else {
                0
            };
            if timer != 0 {
                SquareChannel { sweep_timer: timer, ..self }
            } else {
                let s = SquareChannel {
                    sweep_timer: if self.sweep_period != 0 {
                        self.sweep_period
                    } else {
                        8
                    },
                    ..self
                };
                if s.sweep_enabled && s.sweep_period != 0 {
                    let (s1, new_freq) = s.sweep_calculated();
                    if new_freq <= 2047 && s.sweep_shift != 0 {
                        let s2 = SquareChannel {
                            frequency: new_freq,
                            shadow_frequency: new_freq,
                            ..s1
                        };
                        s2.sweep_calculated().0
                    } else {
                        s1
                    }
                } else {
                    s
                }
            }
        }
    }

    pub fn tick_sweep(&mut self)
        requires
            old(self).wf(),
        ensures
            *final(self) == old(self).sweep_ticked(),
            final(self).wf(),
    {
        if !self.has_sweep {
            return;
        }
        if self.sweep_timer > 0 {
            self.sweep_timer = self.sweep_timer - 1;
        }
        if self.sweep_timer == 0 {
            self.sweep_timer = if self.sweep_period != 0 {
                self.sweep_period
            } else {
                8
            };
            if self.sweep_enabled && self.sweep_period != 0 {
                let new_freq = self.calculate_sweep();
                if new_freq <= 2047 && self.sweep_shift != 0 {
                    self.frequency = new_freq;
                    self.shadow_frequency = new_freq;
                    // Overflow check again
                    self.calculate_sweep();
                }
            }
        }
    }

    /// A trigger: the channel restarts with a full length counter if it was
    /// empty, a reloaded timer, its initial volume and envelope period, and
    /// (channel 1) a fresh sweep; it stays off if its DAC is off.
    pub open spec fn triggered(self) -> SquareChannel {
        let s = SquareChannel {
            enabled: true,
            length_counter: if self.length_counter == 0 {
                64
            } else {
                self.length_counter
            },
            frequency_timer: self.period(),
            volume: self.initial_volume,
            envelope_timer: self.envelope_period,
            ..self
        };
        let s2 = if s.has_sweep {
            let s1 = SquareChannel {
                shadow_frequency: s.frequency,
                sweep_timer: if s.sweep_period != 0 {
                    s.sweep_period
                } else {
                    8
                },
                sweep_enabled: s.sweep_period != 0 || s.sweep_shift != 0,
                ..s
            };
            if s1.sweep_shift != 0 {
                s1.sweep_calculated().0
            } else {
                s1
            }
        } else {
            s
        };
        if !s2.dac_enabled {
            SquareChannel { enabled: false, ..s2 }
        } else {
            s2
        }
    }

    pub fn trigger(&mut self)
        requires
            old(self).wf(),
        ensures
            *final(self) == old(self).triggered(),
            final(self).wf(),
    {
        self.enabled = true;
        if self.length_counter == 0 {
            self.length_counter = 64;
        }
        self.frequency_timer = (2048 - self.frequency) * 4;
        self.volume = self.initial_volume;
        self.envelope_timer = self.envelope_period;

        // Sweep init (channel 1 only)
        if self.has_sweep {
            self.shadow_frequency = self.frequency;
            self.sweep_timer = if self.sweep_period != 0 {
                self.sweep_period
            } else {
                8
            };
            self.sweep_enabled = self.sweep_period != 0 || self.sweep_shift != 0;
            if self.sweep_shift != 0 {
                self.calculate_sweep();
            }
        }
        if !self.dac_enabled {
            self.enabled = false;
        }
    }

    /// The channel after `value` is written to its register NRx`index`
    /// (0 = sweep, 1 = duty and length, 2 = envelope, 3 = frequency low,
    /// 4 = frequency high, length enable and trigger).
    pub open spec fn register_written(self, index: u8, value: u8) -> SquareChannel {
        if index == 0 {
            SquareChannel {
                sweep_period: (value >> 4u8) & 0x07,
                sweep_direction: value & 0x08 != 0,
                sweep_shift: value & 0x07,
                ..self
            }
        } else if index == 1 {
            SquareChannel {
                duty: (value >> 6u8) & 0x03,
                length_counter: length64(value),
                ..self
            }
        } else if index == 2 {
            SquareChannel {
                initial_volume: (value >> 4u8) & 0x0F,
                envelope_direction: value & 0x08 != 0,
                envelope_period: value & 0x07,
                dac_enabled: value & 0xF8 != 0,
                enabled: self.enabled && value & 0xF8 != 0,
                ..self
            }
        } else if index == 3 {
            SquareChannel { frequency: (self.frequency & 0x700) | (value as u16), ..self }
        } else if index == 4 {
            let c = SquareChannel {
                frequency: (self.frequency & 0xFF) | (((value & 0x07) as u16) << 8u16),
                length_enabled: value & 0x40 != 0,
                ..self
            };
            if value & 0x80 != 0 {
                c.triggered()
            } else {
                c
            }
        } else {
            self
        }
    }

    pub fn write_register(&mut self, index: u8, value: u8)
        requires
            old(self).wf(),
        ensures
            *final(self) == old(self).register_written(index, value),
            final(self).wf(),
    {
        proof {
            lemma_register_fields(value, self.frequency);
        }
        if index == 0 {
            self.sweep_period = (value >> 4u8) & 0x07;
            self.sweep_direction = value & 0x08 != 0;
            self.sweep_shift = value & 0x07;
        } else if index == 1 {
            self.duty = (value >> 6u8) & 0x03;
            self.length_counter = 64 - (value & 0x3F) as u16;
        } else if index == 2 {
            self.initial_volume = (value >> 4u8) & 0x0F;
            self.envelope_direction = value & 0x08 != 0;
            self.envelope_period = value & 0x07;
            self.dac_enabled = value & 0xF8 != 0;
            if !self.dac_enabled {
                self.enabled = false;
            }
        } else if index == 3 {
            self.frequency = (self.frequency & 0x700) | value as u16;
        } else if index == 4 {
            self.frequency = (self.frequency & 0xFF) | (((value & 0x07) as u16) << 8u16);
            self.length_enabled = value & 0x40 != 0;
            if value & 0x80 != 0 {
                self.trigger();
            }
        }
    }

    /// The bytes the channel's state is saved as.
    pub open spec fn state_bytes(self) -> Seq<u8> {
        seq![
            bool_byte(self.enabled),
            bool_byte(self.dac_enabled),
            self.volume,
            self.envelope_period,
            bool_byte(self.envelope_direction),
            self.envelope_timer,
            self.initial_volume,
            self.duty,
            self.duty_position,
            self.sweep_period,
            bool_byte(self.sweep_direction),
            self.sweep_shift,
            self.sweep_timer,
            bool_byte(self.sweep_enabled),
            bool_byte(self.length_enabled),
            bool_byte(self.has_sweep),
        ] + le16(self.length_counter) + le16(self.frequency) + le16(self.frequency_timer) + le16(
            self.shadow_frequency,
        )
    }

    /// The channel after reading a saved state from `b` at `p`. Each part
    /// (the block of 16 single bytes, then each 16-bit value) is taken if
    /// the input holds all of it; reading stops at the first part it does not.
    pub open spec fn loaded(self, b: Seq<u8>, p: int) -> SquareChannel {
        if !has_bytes(b, p, 16) {
            self
        } else {
            let s1 = SquareChannel {
                enabled: b[p] != 0,
                dac_enabled: b[p + 1] != 0,
                volume: b[p + 2],
                envelope_period: b[p + 3],
                envelope_direction: b[p + 4] != 0,
                envelope_timer: b[p + 5],
                initial_volume: b[p + 6],
                duty: b[p + 7],
                duty_position: b[p + 8],
                sweep_period: b[p + 9],
                sweep_direction: b[p + 10] != 0,
                sweep_shift: b[p + 11],
                sweep_timer: b[p + 12],
                sweep_enabled: b[p + 13] != 0,
                length_enabled: b[p + 14] != 0,
                has_sweep: b[p + 15] != 0,
                ..self
            };
            if !has_bytes(b, p + 16, 2) {
                s1
            } else {
                let s2 = SquareChannel { length_counter: read_le16(b, p + 16), ..s1 };
                if !has_bytes(b, p + 18, 2) {
                    s2
                } else {
                    let s3 = SquareChannel { frequency: read_le16(b, p + 18), ..s2 };
                    if !has_bytes(b, p + 20, 2) {
                        s3
                    } else {
                        let s4 = SquareChannel { frequency_timer: read_le16(b, p + 20), ..s3 };
                        if !has_bytes(b, p + 22, 2) {
                            s4
                        } else {
                            SquareChannel { shadow_frequency: read_le16(b, p + 22), ..s4 }
                        }
                    }
                }
            }
        }
    }

    pub fn save_state(&self, out: &mut Vec<u8>)
        ensures
            final(out)@ == old(out)@ + self.state_bytes(),
    {
        let head: [u8; 16] = [
            self.enabled as u8,
            self.dac_enabled as u8,
            self.volume,
            self.envelope_period,
            self.envelope_direction as u8,
            self.envelope_timer,
            self.initial_volume,
            self.duty,
            self.duty_position,
            self.sweep_period,
            self.sweep_direction as u8,
            self.sweep_shift,
            self.sweep_timer,
            self.sweep_enabled as u8,
            self.length_enabled as u8,
            self.has_sweep as u8,
        ];
        push_bytes(out, head.as_slice());
        push_u16(out, self.length_counter);
        push_u16(out, self.frequency);
        push_u16(out, self.frequency_timer);
        push_u16(out, self.shadow_frequency);
        assert(out@ =~= old(out)@ + self.state_bytes());
    }

    pub fn load_state(&mut self, input: &[u8], pos: usize) -> (r: Result<usize, StateError>)
        ensures
            *final(self) == old(self).loaded(input@, pos as int),
            r == if has_bytes(input@, pos as int, SQUARE_STATE_LEN as int) {
                Ok::<usize, StateError>((pos + SQUARE_STATE_LEN) as usize)
            } else {
                Err(StateError::UnexpectedEof)
            },
    {
        let _len = input.len();
        if !available(input, pos, 16) {
            return Err(StateError::UnexpectedEof);
        }
        let head = SquareChannel {
            enabled: input[pos] != 0,
            dac_enabled: input[pos + 1] != 0,
            volume: input[pos + 2],
            envelope_period: input[pos + 3],
            envelope_direction: input[pos + 4] != 0,
            envelope_timer: input[pos + 5],
            initial_volume: input[pos + 6],
            duty: input[pos + 7],
            duty_position: input[pos + 8],
            sweep_period: input[pos + 9],
            sweep_direction: input[pos + 10] != 0,
            sweep_shift: input[pos + 11],
            sweep_timer: input[pos + 12],
            sweep_enabled: input[pos + 13] != 0,
            length_enabled: input[pos + 14] != 0,
            has_sweep: input[pos + 15] != 0,
            ..*self
        };
        *self = head;
        if !available(input, pos + 16, 2) {
            return Err(StateError::UnexpectedEof);
        }
        self.length_counter = get_u16(input, pos + 16);
        if !available(input, pos + 18, 2) {
            return Err(StateError::UnexpectedEof);
        }
        self.frequency = get_u16(input, pos + 18);
        if !available(input, pos + 20, 2) {
            return Err(StateError::UnexpectedEof);
        }
        self.frequency_timer = get_u16(input, pos + 20);
        if !available(input, pos + 22, 2) {
            return Err(StateError::UnexpectedEof);
        }
        self.shadow_frequency = get_u16(input, pos + 22);
        Ok(pos + 24)
    }
}


/// The wave channel (channel 3): plays 32 4-bit samples from wave RAM.
#[derive(Clone, Copy)]
pub struct WaveChannel {
    pub enabled: bool,
    pub dac_enabled: bool,
    pub length_counter: u16,
    pub length_enabled: bool,
    /// 0=mute, 1=100%, 2=50%, 3=25%
    pub volume_code: u8,
    pub frequency: u16,
    pub frequency_timer: u16,
    /// 0-31
    pub position: u8,
    pub wave_ram: [u8; 16],
}

/// The number of bytes the wave channel's saved state takes.
pub const WAVE_STATE_LEN: usize = 27;

/// The sample at `position` of wave RAM: the high nibble of a byte first.
pub open spec fn wave_sample(wave_ram: Seq<u8>, position: u8) -> u8 {
    let byte = wave_ram[(position / 2) as int];
    if position % 2 == 0 {
        (byte / 16) as u8
    } else {
        (byte % 16) as u8
    }
}

/// A sample scaled by the wave channel's volume code.
pub open spec fn wave_volume(sample: u8, volume_code: u8) -> u8 {
    if volume_code == 1 {
        sample
    } else if volume_code == 2 {
        sample / 2
    } else if volume_code == 3 {
        sample / 4
    } else {
        0
    }
}

/// `arr` with its first `n` entries replaced by the bytes of `b` from `p` on.
pub open spec fn copied_into(arr: [u8; 16], b: Seq<u8>, p: int, n: nat) -> [u8; 16]
    decreases n,
{
    if n == 0 {
        arr
    } else {
        spec_array_update(copied_into(arr, b, p, (n - 1) as nat), n - 1, b[p + n - 1])
    }
}

impl WaveChannel {
    /// The ranges the channel's registers stay in: an 11-bit frequency and
    /// a 5-bit sample position.
    pub open spec fn wf(self) -> bool {
        &&& self.frequency <= 2047
        &&& self.position <= 31
    }

    /// The timer reload value: the period of one sample.
    pub open spec fn period(self) -> u16 {
        ((2048 - self.frequency) * 2) as u16
    }

    /// The channel at power-on: everything zero.
    pub open spec fn powered_on() -> WaveChannel {
        WaveChannel {
            enabled: false,
            dac_enabled: false,
            length_counter: 0,
            length_enabled: false,
            volume_code: 0,
            frequency: 0,
            frequency_timer: 0,
            position: 0,
            wave_ram: spec_array_fill_for_copy_type::<u8, 16>(0u8),
        }
    }

    pub fn new() -> (c: WaveChannel)
        ensures
            c == WaveChannel::powered_on(),
            c.wf(),
    {
        WaveChannel {
            enabled: false,
            dac_enabled: false,
            length_counter: 0,
            length_enabled: false,
            volume_code: 0,
            frequency: 0,
            frequency_timer: 0,
            position: 0,
            wave_ram: [0u8; 16],
        }
    }

    /// One T-cycle of the frequency timer: when it runs out it reloads with
    /// the period and the sample position advances.
    pub open spec fn ticked(self) -> WaveChannel {
        if self.frequency_timer == 0 {
            WaveChannel {
                frequency_timer: (self.period() - 1) as u16,
                position: ((self.position + 1) % 32) as u8,
                ..self
            }
        } else {
            WaveChannel { frequency_timer: (self.frequency_timer - 1) as u16, ..self }
        }
    }

    pub fn tick(&mut self)
        requires
            old(self).wf(),
        ensures
            *final(self) == old(self).ticked(),
            final(self).wf(),
    {
        if self.frequency_timer == 0 {
            self.frequency_timer = (2048 - self.frequency) * 2;
            let p = self.position + 1;
            proof {
                lemma_byte_fields(p);
            }
            self.position = p & 31;
        }
        self.frequency_timer = self.frequency_timer - 1;
    }

    /// The level fed to the channel's DAC (0-15), or `None` while the channel
    /// or its DAC is off.
    pub open spec fn level(self) -> Option<u8> {
        if !self.enabled || !self.dac_enabled {
            None
        } else {
            Some(wave_volume(wave_sample(self.wave_ram@, self.position), self.volume_code))
        }
    }

    pub fn output_level(&self) -> (r: Option<u8>)
        requires
            self.wf(),
        ensures
            r == self.level(),
    {
        if !self.enabled || !self.dac_enabled {
            return None;
        }
        let byte = self.wave_ram[(self.position / 2) as usize];
        proof {
            lemma_byte_fields(byte);
        }
        let sample = if self.position % 2 == 0 {
            (byte >> 4) & 0x0F
        } else {
            byte & 0x0F
        };
        proof {
            lemma_byte_fields(sample);
        }
        let shifted = match self.volume_code {
            0 => 0,
            1 => sample,
            2 => sample >> 1,
            3 => sample >> 2,
            _ => 0,
        };
        Some(shifted)
    }

    /// One length step: the counter runs down and silences the channel at zero.
    pub open spec fn length_ticked(self) -> WaveChannel {
        if self.length_enabled && self.length_counter > 0 {
            WaveChannel {
                length_counter: (self.length_counter - 1) as u16,
                enabled: self.enabled && self.length_counter != 1,
                ..self
            }
        } else {
            self
        }
    }

    pub fn tick_length(&mut self)
        ensures
            *final(self) == old(self).length_ticked(),
    {
        if self.length_enabled && self.length_counter > 0 {
            self.length_counter = self.length_counter - 1;
            if self.length_counter == 0 {
                self.enabled = false;
            }
        }
    }

    /// A trigger: the channel restarts with a full length counter if it was
    /// empty, a reloaded timer and the first sample; it stays off if its DAC
    /// is off.
    pub open spec fn triggered(self) -> WaveChannel {
        WaveChannel {
            enabled: self.dac_enabled,
            length_counter: if self.length_counter == 0 {
                256
            } else {
                self.length_counter
            },
            frequency_timer: self.period(),
            position: 0,
            ..self
        }
    }

    pub fn trigger(&mut self)
        requires
            old(self).wf(),
        ensures
            *final(self) == old(self).triggered(),
            final(self).wf(),
    {
        self.enabled = true;
        if self.length_counter == 0 {
            self.length_counter = 256;
        }
        self.frequency_timer = (2048 - self.frequency) * 2;
        self.position = 0;
        if !self.dac_enabled {
            self.enabled = false;
        }
    }

    /// The channel after `value` is written to its register NR3`index`
    /// (0 = DAC enable, 1 = length, 2 = volume code, 3 = frequency low,
    /// 4 = frequency high, length enable and trigger).
    pub open spec fn register_written(self, index: u8, value: u8) -> WaveChannel {
        if index == 0 {
            WaveChannel {
                dac_enabled: value & 0x80 != 0,
                enabled: self.enabled && value & 0x80 != 0,
                ..self
            }
        } else if index == 1 {
            WaveChannel { length_counter: (256 - value) as u16, ..self }
        } else if index == 2 {
            WaveChannel { volume_code: (value >> 5u8) & 0x03, ..self }
        } else if index == 3 {
            WaveChannel { frequency: (self.frequency & 0x700) | (value as u16), ..self }
        } else if index == 4 {
            let c = WaveChannel {
                frequency: (self.frequency & 0xFF) | (((value & 0x07) as u16) << 8u16),
                length_enabled: value & 0x40 != 0,
                ..self
            };
            if value & 0x80 != 0 {
                c.triggered()
            } else {
                c
            }
        } else {
            self
        }
    }

    pub fn write_register(&mut self, index: u8, value: u8)
        requires
            old(self).wf(),
        ensures
            *final(self) == old(self).register_written(index, value),
            final(self).wf(),
    {
        proof {
            lemma_register_fields(value, self.frequency);
        }
        if index == 0 {
            self.dac_enabled = value & 0x80 != 0;
            if !self.dac_enabled {
                self.enabled = false;
            }
        } else if index == 1 {
            self.length_counter = 256 - value as u16;
        } else if index == 2 {
            self.volume_code = (value >> 5u8) & 0x03;
        } else if index == 3 {
            self.frequency = (self.frequency & 0x700) | value as u16;
        } else if index == 4 {
            self.frequency = (self.frequency & 0xFF) | (((value & 0x07) as u16) << 8u16);
            self.length_enabled = value & 0x40 != 0;
            if value & 0x80 != 0 {
                self.trigger();
            }
        }
    }

    /// The bytes the channel's state is saved as.
    pub open spec fn state_bytes(self) -> Seq<u8> {
        seq![
            bool_byte(self.enabled),
            bool_byte(self.dac_enabled),
            self.volume_code,
            self.position,
            bool_byte(self.length_enabled),
        ] + le16(self.length_counter) + le16(self.frequency) + le16(self.frequency_timer)
            + self.wave_ram@
    }

    /// The channel after reading a saved state from `b` at `p`; reading
    /// stops at the first part the input does not hold entirely.
    pub open spec fn loaded(self, b: Seq<u8>, p: int) -> WaveChannel {
        if !has_bytes(b, p, 5) {
            self
        } else {
            let s1 = WaveChannel {
                enabled: b[p] != 0,
                dac_enabled: b[p + 1] != 0,
                volume_code: b[p + 2],
                position: b[p + 3],
                length_enabled: b[p + 4] != 0,
                ..self
            };
            if !has_bytes(b, p + 5, 2) {
                s1
            } else {
                let s2 = WaveChannel { length_counter: read_le16(b, p + 5), ..s1 };
                if !has_bytes(b, p + 7, 2) {
                    s2
                } else {
                    let s3 = WaveChannel { frequency: read_le16(b, p + 7), ..s2 };
                    if !has_bytes(b, p + 9, 2) {
                        s3
                    } else {
                        let s4 = WaveChannel { frequency_timer: read_le16(b, p + 9), ..s3 };
                        if !has_bytes(b, p + 11, 16) {
                            s4
                        } else {
                            WaveChannel { wave_ram: copied_into(s4.wave_ram, b, p + 11, 16), ..s4 }
                        }
                    }
                }
            }
        }
    }

    pub fn save_state(&self, out: &mut Vec<u8>)
        ensures
            final(out)@ == old(out)@ + self.state_bytes(),
    {
        let head: [u8; 5] = [
            self.enabled as u8,
            self.dac_enabled as u8,
            self.volume_code,
            self.position,
            self.length_enabled as u8,
        ];
        push_bytes(out, head.as_slice());
        push_u16(out, self.length_counter);
        push_u16(out, self.frequency);
        push_u16(out, self.frequency_timer);
        push_bytes(out, self.wave_ram.as_slice());
        assert(out@ =~= old(out)@ + self.state_bytes());
    }

    pub fn load_state(&mut self, input: &[u8], pos: usize) -> (r: Result<usize, StateError>)
        ensures
            *final(self) == old(self).loaded(input@, pos as int),
            r == if has_bytes(input@, pos as int, WAVE_STATE_LEN as int) {
                Ok::<usize, StateError>((pos + WAVE_STATE_LEN) as usize)
            } else {
                Err(StateError::UnexpectedEof)
            },
    {
        let len = input.len();
        if !available(input, pos, 5) {
            return Err(StateError::UnexpectedEof);
        }
        let head = WaveChannel {
            enabled: input[pos] != 0,
            dac_enabled: input[pos + 1] != 0,
            volume_code: input[pos + 2],
            position: input[pos + 3],
            length_enabled: input[pos + 4] != 0,
            ..*self
        };
        *self = head;
        if !available(input, pos + 5, 2) {
            return Err(StateError::UnexpectedEof);
        }
        self.length_counter = get_u16(input, pos + 5);
        if !available(input, pos + 7, 2) {
            return Err(StateError::UnexpectedEof);
        }
        self.frequency = get_u16(input, pos + 7);
        if !available(input, pos + 9, 2) {
            return Err(StateError::UnexpectedEof);
        }
        self.frequency_timer = get_u16(input, pos + 9);
        if !available(input, pos + 11, 16) {
            return Err(StateError::UnexpectedEof);
        }
        let ghost start = *self;
        let mut i: usize = 0;
        while i < 16
            invariant
                i <= 16,
                len == input@.len(),
                has_bytes(input@, pos + 11, 16),
                *self == (WaveChannel {
                    wave_ram: copied_into(start.wave_ram, input@, pos + 11, i as nat),
                    ..start
                }),
            decreases 16 - i,
        {
            let ghost before = self.wave_ram;
            self.wave_ram[i] = input[pos + 11 + i];
            assert(self.wave_ram =~= spec_array_update(before, i as int, input@[pos + 11 + i]));
            i = i + 1;
        }
        Ok(pos + 27)
    }
}


/// The noise channel (channel 4): a linear-feedback shift register clocked
/// at a programmable rate.
#[derive(Clone, Copy)]
pub struct NoiseChannel {
    pub enabled: bool,
    pub dac_enabled: bool,
    pub length_counter: u16,
    pub length_enabled: bool,
    pub volume: u8,
    pub envelope_period: u8,
    pub envelope_direction: bool,
    pub envelope_timer: u8,
    pub initial_volume: u8,
    pub clock_shift: u8,
    /// true = 7-bit, false = 15-bit
    pub width_mode: bool,
    pub divisor_code: u8,
    pub frequency_timer: u16,
    pub lfsr: u16,
}

/// The number of bytes the noise channel's saved state takes.
pub const NOISE_STATE_LEN: usize = 17;

/// The shift register after one clock: bits 0 and 1 are XORed, the register
/// shifts right, and the result enters bit 14 (and bit 6 in 7-bit mode).
pub open spec fn lfsr_step(lfsr: u16, width_mode: bool) -> u16 {
    let xor_result = (lfsr & 1) ^ ((lfsr >> 1) & 1);
    let shifted = (lfsr >> 1) | (xor_result << 14u16);
    if width_mode {
        (shifted & !(1u16 << 6u16)) | (xor_result << 6u16)
    } else {
        shifted
    }
}

impl NoiseChannel {
    /// The range the clock shift stays in (4 bits).
    pub open spec fn wf(self) -> bool {
        self.clock_shift <= 15
    }

    /// The base divisor selected by the divisor code.
    pub open spec fn divisor(self) -> u16 {
        if self.divisor_code == 0 {
            8
        } else {
            (self.divisor_code as int * 16) as u16
        }
    }

    /// The timer reload value: the divisor shifted by the clock shift, in 16 bits.
    pub open spec fn period(self) -> u16 {
        self.divisor() << self.clock_shift
    }

    /// Whether one T-cycle can run: a timer that runs out must reload with
    /// a nonzero period (large shifts wrap the period to 0).
    pub open spec fn can_tick(self) -> bool {
        self.frequency_timer != 0 || self.period() != 0
    }

    /// The channel at power-on: everything zero, the shift register all ones.
    pub open spec fn powered_on() -> NoiseChannel {
        NoiseChannel {
            enabled: false,
            dac_enabled: false,
            length_counter: 0,
            length_enabled: false,
            volume: 0,
            envelope_period: 0,
            envelope_direction: false,
            envelope_timer: 0,
            initial_volume: 0,
            clock_shift: 0,
            width_mode: false,
            divisor_code: 0,
            frequency_timer: 0,
            lfsr: 0x7FFF,
        }
    }

    pub fn new() -> (c: NoiseChannel)
        ensures
            c == NoiseChannel::powered_on(),
            c.wf(),
    {
        NoiseChannel {
            enabled: false,
            dac_enabled: false,
            length_counter: 0,
            length_enabled: false,
            volume: 0,
            envelope_period: 0,
            envelope_direction: false,
            envelope_timer: 0,
            initial_volume: 0,
            clock_shift: 0,
            width_mode: false,
            divisor_code: 0,
            frequency_timer: 0,
            lfsr: 0x7FFF,
        }
    }

    pub fn get_divisor(&self) -> (r: u16)
        ensures
            r == self.divisor(),
    {
        match self.divisor_code {
            0 => 8,
            n => (n as u16) * 16,
        }
    }

    /// One T-cycle: when the timer runs out it reloads with the period and
    /// the shift register steps.
    pub open spec fn ticked(self) -> NoiseChannel {
        if self.frequency_timer == 0 {
            NoiseChannel {
                frequency_timer: (self.period() - 1) as u16,
                lfsr: lfsr_step(self.lfsr, self.width_mode),
                ..self
            }
        } else {
            NoiseChannel { frequency_timer: (self.frequency_timer - 1) as u16, ..self }
        }
    }

    pub fn tick(&mut self)
        requires
            old(self).wf(),
            old(self).can_tick(),
        ensures
            *final(self) == old(self).ticked(),
            final(self).wf(),
    {
        if self.frequency_timer == 0 {
            self.frequency_timer = self.get_divisor() << self.clock_shift;
            let xor_result = (self.lfsr & 1) ^ ((self.lfsr >> 1) & 1);
            self.lfsr = (self.lfsr >> 1) | (xor_result << 14u16);
            if self.width_mode {
                self.lfsr = self.lfsr & !(1u16 << 6u16);
                self.lfsr = self.lfsr | (xor_result << 6u16);
            }
        }
        self.frequency_timer = self.frequency_timer - 1;
    }

    /// The level fed to the channel's DAC (0-15), or `None` while the channel
    /// or its DAC is off: the volume while bit 0 of the register is clear.
    pub open spec fn level(self) -> Option<u8> {
        if !self.enabled || !self.dac_enabled {
            None
        } else if self.lfsr & 1 == 0 {
            Some(self.volume)
        } else {
            Some(0)
        }
    }

    pub fn output_level(&self) -> (r: Option<u8>)
        ensures
            r == self.level(),
    {
        if !self.enabled || !self.dac_enabled {
            return None;
        }
        let l = self.lfsr;
        assert(((!l) & 1 != 0) == (l & 1 == 0)) by (bit_vector);
        let bit = (!self.lfsr) & 1;
        if bit != 0 {
            Some(self.volume)
        } else {
            Some(0)
        }
    }

    /// One length step: the counter runs down and silences the channel at zero.
    pub open spec fn length_ticked(self) -> NoiseChannel {
        if self.length_enabled && self.length_counter > 0 {
            NoiseChannel {
                length_counter: (self.length_counter - 1) as u16,
                enabled: self.enabled && self.length_counter != 1,
                ..self
            }
        } else {
            self
        }
    }

    pub fn tick_length(&mut self)
        ensures
            *final(self) == old(self).length_ticked(),
    {
        if self.length_enabled && self.length_counter > 0 {
            self.length_counter = self.length_counter - 1;
            if self.length_counter == 0 {
                self.enabled = false;
            }
        }
    }

    /// One envelope step, as for the square channels.
    pub open spec fn envelope_ticked(self) -> NoiseChannel {
        if self.envelope_period == 0 {
            self
        } else {
            let timer = if self.envelope_timer > 0 {
                (self.envelope_timer - 1) as u8
            } else {
                0
            };
            if timer == 0 {
                NoiseChannel {
                    envelope_timer: self.envelope_period,
                    volume: envelope_step(self.volume, self.envelope_direction),
                    ..self
                }
            } else {
                NoiseChannel { envelope_timer: timer, ..self }
            }
        }
    }

    pub fn tick_envelope(&mut self)
        ensures
            *final(self) == old(self).envelope_ticked(),
    {
        if self.envelope_period == 0 {
            return;
        }
        if self.envelope_timer > 0 {
            self.envelope_timer = self.envelope_timer - 1;
        }
        if self.envelope_timer == 0 {
            self.envelope_timer = self.envelope_period;
            if self.envelope_direction && self.volume < 15 {
                self.volume = self.volume + 1;
            } else if !self.envelope_direction && self.volume > 0 {
                self.volume = self.volume - 1;
            }
        }
    }

    /// A trigger: the channel restarts with a full length counter if it was
    /// empty, a reloaded timer, its initial volume, envelope period and a
    /// shift register of all ones; it stays off if its DAC is off.
    pub open spec fn triggered(self) -> NoiseChannel {
        NoiseChannel {
            enabled: self.dac_enabled,
            length_counter: if self.length_counter == 0 {
                64
            } else {
                self.length_counter
            },
            frequency_timer: self.period(),
            volume: self.initial_volume,
            envelope_timer: self.envelope_period,
            lfsr: 0x7FFF,
            ..self
        }
    }

    pub fn trigger(&mut self)
        requires
            old(self).wf(),
        ensures
            *final(self) == old(self).triggered(),
            final(self).wf(),
    {
        self.enabled = true;
        if self.length_counter == 0 {
            self.length_counter = 64;
        }
        self.frequency_timer = self.get_divisor() << self.clock_shift;
        self.volume = self.initial_volume;
        self.envelope_timer = self.envelope_period;
        self.lfsr = 0x7FFF;
        if !self.dac_enabled {
            self.enabled = false;
        }
    }

    /// The channel after `value` is written to its register NR4`index`
    /// (1 = length, 2 = envelope, 3 = clock shift, width and divisor,
    /// 4 = length enable and trigger).
    pub open spec fn register_written(self, index: u8, value: u8) -> NoiseChannel {
        if index == 1 {
            NoiseChannel { length_counter: length64(value), ..self }
        } else if index == 2 {
            NoiseChannel {
                initial_volume: (value >> 4u8) & 0x0F,
                envelope_direction: value & 0x08 != 0,
                envelope_period: value & 0x07,
                dac_enabled: value & 0xF8 != 0,
                enabled: self.enabled && value & 0xF8 != 0,
                ..self
            }
        } else if index == 3 {
            NoiseChannel {
                clock_shift: (value >> 4u8) & 0x0F,
                width_mode: value & 0x08 != 0,
                divisor_code: value & 0x07,
                ..self
            }
        } else if index == 4 {
            let c = NoiseChannel { length_enabled: value & 0x40 != 0, ..self };
            if value & 0x80 != 0 {
                c.triggered()
            } else {
                c
            }
        } else {
            self
        }
    }

    pub fn write_register(&mut self, index: u8, value: u8)
        requires
            old(self).wf(),
        ensures
            *final(self) == old(self).register_written(index, value),
            final(self).wf(),
    {
        proof {
            lemma_register_fields(value, 0);
        }
        if index == 1 {
            self.length_counter = 64 - (value & 0x3F) as u16;
        } else if index == 2 {
            self.initial_volume = (value >> 4u8) & 0x0F;
            self.envelope_direction = value & 0x08 != 0;
            self.envelope_period = value & 0x07;
            self.dac_enabled = value & 0xF8 != 0;
            if !self.dac_enabled {
                self.enabled = false;
            }
        } else if index == 3 {
            self.clock_shift = (value >> 4u8) & 0x0F;
            self.width_mode = value & 0x08 != 0;
            self.divisor_code = value & 0x07;
        } else if index == 4 {
            self.length_enabled = value & 0x40 != 0;
            if value & 0x80 != 0 {
                self.trigger();
            }
        }
    }

    /// The bytes the channel's state is saved as.
    pub open spec fn state_bytes(self) -> Seq<u8> {
        seq![
            bool_byte(self.enabled),
            bool_byte(self.dac_enabled),
            self.volume,
            self.envelope_period,
            bool_byte(self.envelope_direction),
            self.envelope_timer,
            self.initial_volume,
            self.clock_shift,
            bool_byte(self.width_mode),
            self.divisor_code,
            bool_byte(self.length_enabled),
        ] + le16(self.length_counter) + le16(self.frequency_timer) + le16(self.lfsr)
    }

    /// The channel after reading a saved state from `b` at `p`; reading
    /// stops at the first part the input does not hold entirely.
    pub open spec fn loaded(self, b: Seq<u8>, p: int) -> NoiseChannel {
        if !has_bytes(b, p, 11) {
            self
        } else {
            let s1 = NoiseChannel {
                enabled: b[p] != 0,
                dac_enabled: b[p + 1] != 0,
                volume: b[p + 2],
                envelope_period: b[p + 3],
                envelope_direction: b[p + 4] != 0,
                envelope_timer: b[p + 5],
                initial_volume: b[p + 6],
                clock_shift: b[p + 7],
                width_mode: b[p + 8] != 0,
                divisor_code: b[p + 9],
                length_enabled: b[p + 10] != 0,
                ..self
            };
            if !has_bytes(b, p + 11, 2) {
                s1
            } else {
                let s2 = NoiseChannel { length_counter: read_le16(b, p + 11), ..s1 };
                if !has_bytes(b, p + 13, 2) {
                    s2
                } else {
                    let s3 = NoiseChannel { frequency_timer: read_le16(b, p + 13), ..s2 };
                    if !has_bytes(b, p + 15, 2) {
                        s3
                    } else {
                        NoiseChannel { lfsr: read_le16(b, p + 15), ..s3 }
                    }
                }
            }
        }
    }

    pub fn save_state(&self, out: &mut Vec<u8>)
        ensures
            final(out)@ == old(out)@ + self.state_bytes(),
    {
        let head: [u8; 11] = [
            self.enabled as u8,
            self.dac_enabled as u8,
            self.volume,
            self.envelope_period,
            self.envelope_direction as u8,
            self.envelope_timer,
            self.initial_volume,
            self.clock_shift,
            self.width_mode as u8,
            self.divisor_code,
            self.length_enabled as u8,
        ];
        push_bytes(out, head.as_slice());
        push_u16(out, self.length_counter);
        push_u16(out, self.frequency_timer);
        push_u16(out, self.lfsr);
        assert(out@ =~= old(out)@ + self.state_bytes());
    }

    pub fn load_state(&mut self, input: &[u8], pos: usize) -> (r: Result<usize, StateError>)
        ensures
            *final(self) == old(self).loaded(input@, pos as int),
            r == if has_bytes(input@, pos as int, NOISE_STATE_LEN as int) {
                Ok::<usize, StateError>((pos + NOISE_STATE_LEN) as usize)
            } else {
                Err(StateError::UnexpectedEof)
            },
    {
        let _len = input.len();
        if !available(input, pos, 11) {
            return Err(StateError::UnexpectedEof);
        }
        let head = NoiseChannel {
            enabled: input[pos] != 0,
            dac_enabled: input[pos + 1] != 0,
            volume: input[pos + 2],
            envelope_period: input[pos + 3],
            envelope_direction: input[pos + 4] != 0,
            envelope_timer: input[pos + 5],
            initial_volume: input[pos + 6],
            clock_shift: input[pos + 7],
            width_mode: input[pos + 8] != 0,
            divisor_code: input[pos + 9],
            length_enabled: input[pos + 10] != 0,
            ..*self
        };
        *self = head;
        if !available(input, pos + 11, 2) {
            return Err(StateError::UnexpectedEof);
        }
        self.length_counter = get_u16(input, pos + 11);
        if !available(input, pos + 13, 2) {
            return Err(StateError::UnexpectedEof);
        }
        self.frequency_timer = get_u16(input, pos + 13);
        if !available(input, pos + 15, 2) {
            return Err(StateError::UnexpectedEof);
        }
        self.lfsr = get_u16(input, pos + 15);
        Ok(pos + 17)
    }
}



/// What a T-cycle of the audio unit asks of the audio output.
#[derive(PartialEq, Eq, Structural, Clone, Copy, Debug)]
pub enum SampleEvent {
    /// No sample is due.
    Idle,
    /// A sample is due and the unit is off: a silent stereo pair.
    Silence,
    /// A sample is due: the channels' levels, panned by NR51 and scaled by
    /// NR50, make the stereo pair.
    Mix,
}

/// The audio processing unit: four channels, the frame sequencer that
/// clocks their length, envelope and sweep units at 512 Hz, and the master
/// volume and panning registers.
pub struct Apu {
    pub enabled: bool,
    pub ch1: SquareChannel,
    pub ch2: SquareChannel,
    pub ch3: WaveChannel,
    pub ch4: NoiseChannel,
    pub frame_sequencer_step: u8,
    pub frame_sequencer_counter: u16,
    /// Adds SAMPLE_RATE each T-cycle; a sample is due each time it reaches
    /// CPU_CLOCK, which keeps the long-term sample rate exact.
    pub sample_accumulator: u32,
    /// Master volume
    pub nr50: u8,
    /// Panning
    pub nr51: u8,
}

/// The number of bytes the audio unit's saved state takes.
pub const APU_STATE_LEN: usize = 102;

/// The byte of a register field: `b` as 0 or 1, shifted left by `shift`.
pub open spec fn flag_at(b: bool, shift: u8) -> u8 {
    bool_byte(b) << shift
}

impl Apu {
    /// The ranges the unit's counters stay in, and its channels' invariants.
    pub open spec fn wf(self) -> bool {
        &&& self.ch1.wf()
        &&& self.ch2.wf()
        &&& self.ch3.wf()
        &&& self.ch4.wf()
        &&& self.frame_sequencer_step <= 7
        &&& self.frame_sequencer_counter < 8192
        &&& self.sample_accumulator < CPU_CLOCK
    }

    /// Whether a T-cycle can run: the noise channel's timer must not reload
    /// with a zero period while the unit is on.
    pub open spec fn can_tick(self) -> bool {
        self.enabled ==> self.ch4.can_tick()
    }

    /// The unit at power-on: off, every channel zeroed.
    pub open spec fn powered_on() -> Apu {
        Apu {
            enabled: false,
            ch1: SquareChannel::powered_on(true),
            ch2: SquareChannel::powered_on(false),
            ch3: WaveChannel::powered_on(),
            ch4: NoiseChannel::powered_on(),
            frame_sequencer_step: 0,
            frame_sequencer_counter: 0,
            sample_accumulator: 0,
            nr50: 0,
            nr51: 0,
        }
    }

    pub fn new() -> (a: Apu)
        ensures
            a == Apu::powered_on(),
            a.wf(),
    {
        Apu {
            enabled: false,
            ch1: SquareChannel::new(true),
            ch2: SquareChannel::new(false),
            ch3: WaveChannel::new(),
            ch4: NoiseChannel::new(),
            frame_sequencer_step: 0,
            frame_sequencer_counter: 0,
            sample_accumulator: 0,
            nr50: 0,
            nr51: 0,
        }
    }

    /// Whether `can_tick` holds.
    pub fn tick_is_safe(&self) -> (r: bool)
        requires
            self.wf(),
        ensures
            r == self.can_tick(),
    {
        if !self.enabled || self.ch4.frequency_timer != 0 {
            true
        } else {
            self.ch4.get_divisor() << self.ch4.clock_shift != 0
        }
    }

    /// The value a read of sound register `address` returns.
    pub open spec fn register_value(self, address: u16) -> u8 {
        if address == 0xFF26 {
            (bool_byte(self.enabled) * 128 + 0x70 + bool_byte(self.ch4.enabled) * 8 + bool_byte(
                self.ch3.enabled,
            ) * 4 + bool_byte(self.ch2.enabled) * 2 + bool_byte(self.ch1.enabled)) as u8
        } else if 0xFF30 <= address <= 0xFF3F {
            self.ch3.wave_ram@[address - 0xFF30]
        } else if 0xFF26 < address < 0xFF30 {
            0xFF
        } else {
            let value: u8 = if address == 0xFF10 {
                (self.ch1.sweep_period << 4u8) | flag_at(self.ch1.sweep_direction, 3)
                    | self.ch1.sweep_shift
            } else if address == 0xFF11 {
                self.ch1.duty << 6u8
            } else if address == 0xFF12 {
                (self.ch1.initial_volume << 4u8) | flag_at(self.ch1.envelope_direction, 3)
                    | self.ch1.envelope_period
            } else if address == 0xFF14 {
                flag_at(self.ch1.length_enabled, 6)
            } else if address == 0xFF16 {
                self.ch2.duty << 6u8
            } else if address == 0xFF17 {
                (self.ch2.initial_volume << 4u8) | flag_at(self.ch2.envelope_direction, 3)
                    | self.ch2.envelope_period
            } else if address == 0xFF19 {
                flag_at(self.ch2.length_enabled, 6)
            } else if address == 0xFF1A {
                flag_at(self.ch3.dac_enabled, 7)
            } else if address == 0xFF1C {
                self.ch3.volume_code << 5u8
            } else if address == 0xFF1E {
                flag_at(self.ch3.length_enabled, 6)
            } else if address == 0xFF21 {
                (self.ch4.initial_volume << 4u8) | flag_at(self.ch4.envelope_direction, 3)
                    | self.ch4.envelope_period
            } else if address == 0xFF22 {
                (self.ch4.clock_shift << 4u8) | flag_at(self.ch4.width_mode, 3)
                    | self.ch4.divisor_code
            } else if address == 0xFF23 {
                flag_at(self.ch4.length_enabled, 6)
            } else if address == 0xFF24 {
                self.nr50
            } else if address == 0xFF25 {
                self.nr51
            } else {
                0x00
            };
            if address - 0xFF10 < 48 {
                value | apu_read_mask(address - 0xFF10)
            } else {
                value
            }
        }
    }

    pub fn read_register(&self, address: u16) -> (r: u8)
        requires
            address >= 0xFF10,
        ensures
            r == self.register_value(address),
    {
        let reg_index = (address - 0xFF10) as usize;

        // NR52 is special: returns master enable + channel status
        if address == 0xFF26 {
            let e: u8 = self.enabled as u8;
            let c4: u8 = self.ch4.enabled as u8;
            let c3: u8 = self.ch3.enabled as u8;
            let c2: u8 = self.ch2.enabled as u8;
            let c1: u8 = self.ch1.enabled as u8;
            assert(e <= 1 && c4 <= 1 && c3 <= 1 && c2 <= 1 && c1 <= 1 ==> (e << 7u8 | 0x70 | c4
                << 3u8 | c3 << 2u8 | c2 << 1u8 | c1) == e * 128 + 0x70 + c4 * 8 + c3 * 4 + c2 * 2
                + c1) by (bit_vector);
            let status = e << 7u8 | 0x70 | c4 << 3u8 | c3 << 2u8 | c2 << 1u8 | c1;
            return status;
        }
        // Wave RAM is fully readable

        if address >= 0xFF30 && address <= 0xFF3F {
            return self.ch3.wave_ram[(address - 0xFF30) as usize];
        }
        // Unused addresses in the APU range

        if address > 0xFF26 && address < 0xFF30 {
            return 0xFF;
        }
        // Return register value OR'd with write-only bit mask

        let value: u8 = match address {
            0xFF10 => {
                (self.ch1.sweep_period << 4u8) | ((self.ch1.sweep_direction as u8) << 3u8)
                    | self.ch1.sweep_shift
            },
            0xFF11 => self.ch1.duty << 6u8,
            0xFF12 => {
                (self.ch1.initial_volume << 4u8) | ((self.ch1.envelope_direction as u8) << 3u8)
                    | self.ch1.envelope_period
            },
            0xFF14 => (self.ch1.length_enabled as u8) << 6u8,
            0xFF16 => self.ch2.duty << 6u8,
            0xFF17 => {
                (self.ch2.initial_volume << 4u8) | ((self.ch2.envelope_direction as u8) << 3u8)
                    | self.ch2.envelope_period
            },
            0xFF19 => (self.ch2.length_enabled as u8) << 6u8,
            0xFF1A => (self.ch3.dac_enabled as u8) << 7u8,
            0xFF1C => self.ch3.volume_code << 5u8,
            0xFF1E => (self.ch3.length_enabled as u8) << 6u8,
            0xFF21 => {
                (self.ch4.initial_volume << 4u8) | ((self.ch4.envelope_direction as u8) << 3u8)
                    | self.ch4.envelope_period
            },
            0xFF22 => {
                (self.ch4.clock_shift << 4u8) | ((self.ch4.width_mode as u8) << 3u8)
                    | self.ch4.divisor_code
            },
            0xFF23 => (self.ch4.length_enabled as u8) << 6u8,
            0xFF24 => self.nr50,
            0xFF25 => self.nr51,
            _ => 0x00,
        };
        if reg_index < 48 {
            value | apu_read_mask_exec(reg_index as u16)
        } else {
            value
        }
    }

    /// The unit after `value` is written to sound register `address`.
    ///
    /// While the unit is off only NR52 and wave RAM take writes, except that
    /// the length counters can still be loaded. Turning the unit off resets
    /// every register but wave RAM and the sequencer's cycle counter.
    pub open spec fn written(self, address: u16, value: u8) -> Apu {
        if !self.enabled && address != 0xFF26 && !(0xFF30 <= address <= 0xFF3F) {
            self.written_while_off(address, value)
        } else if 0xFF10 <= address <= 0xFF14 {
            Apu { ch1: self.ch1.register_written((address - 0xFF10) as u8, value), ..self }
        } else if 0xFF16 <= address <= 0xFF19 {
            Apu { ch2: self.ch2.register_written((address - 0xFF15) as u8, value), ..self }
        } else if 0xFF1A <= address <= 0xFF1E {
            Apu { ch3: self.ch3.register_written((address - 0xFF1A) as u8, value), ..self }
        } else if 0xFF20 <= address <= 0xFF23 {
            Apu { ch4: self.ch4.register_written((address - 0xFF1F) as u8, value), ..self }
        } else if address == 0xFF24 {
            Apu { nr50: value, ..self }
        } else if address == 0xFF25 {
            Apu { nr51: value, ..self }
        } else if address == 0xFF26 {
            self.power_written(value)
        } else if 0xFF30 <= address <= 0xFF3F {
            Apu {
                ch3: WaveChannel {
                    wave_ram: spec_array_update(self.ch3.wave_ram, address - 0xFF30, value),
                    ..self.ch3
                },
                ..self
            }
        } else {
            self
        }
    }

    /// A write while the unit is off: only the length counters take it.
    pub open spec fn written_while_off(self, address: u16, value: u8) -> Apu {
        if address == 0xFF11 {
            Apu { ch1: SquareChannel { length_counter: length64(value), ..self.ch1 }, ..self }
        } else if address == 0xFF16 {
            Apu { ch2: SquareChannel { length_counter: length64(value), ..self.ch2 }, ..self }
        } else if address == 0xFF1B {
            Apu { ch3: WaveChannel { length_counter: (256 - value) as u16, ..self.ch3 }, ..self }
        } else if address == 0xFF20 {
            Apu { ch4: NoiseChannel { length_counter: length64(value), ..self.ch4 }, ..self }
        } else {
            self
        }
    }

    /// A write to NR52: bit 7 switches the unit; switching it off resets
    /// every register but wave RAM and the sequencer's cycle counter.
    pub open spec fn power_written(self, value: u8) -> Apu {
        let enabled = value & 0x80 != 0;
        if self.enabled && !enabled {
            Apu {
                enabled,
                ch1: SquareChannel::powered_on(true),
                ch2: SquareChannel::powered_on(false),
                ch3: WaveChannel {
                    enabled: false,
                    dac_enabled: false,
                    length_counter: 0,
                    length_enabled: false,
                    volume_code: 0,
                    frequency: 0,
                    frequency_timer: 0,
                    position: 0,
                    wave_ram: self.ch3.wave_ram,
                },
                ch4: NoiseChannel::powered_on(),
                nr50: 0,
                nr51: 0,
                frame_sequencer_step: 0,
                ..self
            }
        } else {
            Apu { enabled, ..self }
        }
    }

    fn write_register_while_off(&mut self, address: u16, value: u8)
        requires
            old(self).wf(),
        ensures
            *final(self) == old(self).written_while_off(address, value),
            final(self).wf(),
    {
        proof {
            lemma_byte_fields(value);
        }
        // Length counters can still be written on DMG
        match address {
            0xFF11 => self.ch1.length_counter = 64 - (value & 0x3F) as u16,
            0xFF16 => self.ch2.length_counter = 64 - (value & 0x3F) as u16,
            0xFF1B => self.ch3.length_counter = 256 - value as u16,
            0xFF20 => self.ch4.length_counter = 64 - (value & 0x3F) as u16,
            _ => {},
        }
    }

    fn write_power(&mut self, value: u8)
        requires
            old(self).wf(),
        ensures
            *final(self) == old(self).power_written(value),
            final(self).wf(),
    {
        let was_enabled = self.enabled;
        self.enabled = value & 0x80 != 0;
        if was_enabled && !self.enabled {
            // Power off: zero all registers
            self.ch1 = SquareChannel::new(true);
            self.ch2 = SquareChannel::new(false);
            self.ch3.enabled = false;
            self.ch3.dac_enabled = false;
            self.ch3.length_counter = 0;
            self.ch3.length_enabled = false;
            self.ch3.volume_code = 0;
            self.ch3.frequency = 0;
            self.ch3.frequency_timer = 0;
            self.ch3.position = 0;
            // Wave RAM is preserved on power off
            self.ch4 = NoiseChannel::new();
            self.nr50 = 0;
            self.nr51 = 0;
            self.frame_sequencer_step = 0;
        }
    }

    pub fn write_register(&mut self, address: u16, value: u8)
        requires
            old(self).wf(),
        ensures
            *final(self) == old(self).written(address, value),
            final(self).wf(),
    {
        // If APU is off, only NR52 and wave RAM can be written
        if !self.enabled && address != 0xFF26 && !(address >= 0xFF30 && address <= 0xFF3F) {
            self.write_register_while_off(address, value);
            return;
        }
        if 0xFF10 <= address && address <= 0xFF14 {
            // Channel 1 - Square with sweep
            self.ch1.write_register((address - 0xFF10) as u8, value);
        } else if 0xFF16 <= address && address <= 0xFF19 {
            // Channel 2 - Square
            self.ch2.write_register((address - 0xFF15) as u8, value);
        } else if 0xFF1A <= address && address <= 0xFF1E {
            // Channel 3 - Wave
            self.ch3.write_register((address - 0xFF1A) as u8, value);
        } else if 0xFF20 <= address && address <= 0xFF23 {
            // Channel 4 - Noise
            self.ch4.write_register((address - 0xFF1F) as u8, value);
        } else if address == 0xFF24 {
            // Master controls
            self.nr50 = value;
        } else if address == 0xFF25 {
            self.nr51 = value;
        } else if address == 0xFF26 {
            self.write_power(value);
        } else if 0xFF30 <= address && address <= 0xFF3F {
            // Wave RAM
            let ghost before = self.ch3.wave_ram;
            self.ch3.wave_ram[(address - 0xFF30) as usize] = value;
            assert(self.ch3.wave_ram =~= spec_array_update(before, address - 0xFF30, value));
        }
    }

    /// The frame sequencer's action for its current step: length counters
    /// on even steps, channel 1's sweep on steps 2 and 6, envelopes on step
    /// 7; then the step advances (modulo 8).
    pub open spec fn sequencer_stepped(self) -> Apu {
        let step = self.frame_sequencer_step;
        let s = if step == 0 || step == 4 {
            Apu {
                ch1: self.ch1.length_ticked(),
                ch2: self.ch2.length_ticked(),
                ch3: self.ch3.length_ticked(),
                ch4: self.ch4.length_ticked(),
                ..self
            }
        } else if step == 2 || step == 6 {
            Apu {
                ch1: self.ch1.length_ticked().sweep_ticked(),
                ch2: self.ch2.length_ticked(),
                ch3: self.ch3.length_ticked(),
                ch4: self.ch4.length_ticked(),
                ..self
            }
        } else if step == 7 {
            Apu {
                ch1: self.ch1.envelope_ticked(),
                ch2: self.ch2.envelope_ticked(),
                ch4: self.ch4.envelope_ticked(),
                ..self
            }
        } else {
            self
        };
        Apu { frame_sequencer_step: ((step + 1) % 8) as u8, ..s }
    }

    /// The sample accumulator advanced by one T-cycle, and whether a sample
    /// fell due.
    pub open spec fn accumulated(self) -> (Apu, bool) {
        let acc = self.sample_accumulator + SAMPLE_RATE;
        if acc >= CPU_CLOCK {
            (Apu { sample_accumulator: (acc - CPU_CLOCK) as u32, ..self }, true)
        } else {
            (Apu { sample_accumulator: acc as u32, ..self }, false)
        }
    }

    /// One T-cycle of the unit. While it is off only the sample clock runs
    /// (and due samples are silent); while it is on the frame sequencer
    /// steps every 8192 cycles and every channel's timer runs.
    pub open spec fn ticked(self) -> (Apu, SampleEvent) {
        if !self.enabled {
            let (s, due) = self.accumulated();
            (
                s,
                if due {
                    SampleEvent::Silence
                } else {
                    SampleEvent::Idle
                },
            )
        } else {
            let counter = self.frame_sequencer_counter + 1;
            let s1 = if counter >= 8192 {
                Apu { frame_sequencer_counter: 0, ..self }.sequencer_stepped()
            } else {
                Apu { frame_sequencer_counter: counter as u16, ..self }
            };
            let s2 = Apu {
                ch1: s1.ch1.ticked(),
                ch2: s1.ch2.ticked(),
                ch3: s1.ch3.ticked(),
                ch4: s1.ch4.ticked(),
                ..s1
            };
            let (s3, due) = s2.accumulated();
            (
                s3,
                if due {
                    SampleEvent::Mix
                } else {
                    SampleEvent::Idle
                },
            )
        }
    }

    fn step_frame_sequencer(&mut self)
        requires
            old(self).wf(),
        ensures
            *final(self) == old(self).sequencer_stepped(),
            final(self).wf(),
            final(self).ch4.frequency_timer == old(self).ch4.frequency_timer,
            final(self).ch4.clock_shift == old(self).ch4.clock_shift,
            final(self).ch4.divisor_code == old(self).ch4.divisor_code,
    {
        match self.frame_sequencer_step {
            0 | 4 => {
                self.ch1.tick_length();
                self.ch2.tick_length();
                self.ch3.tick_length();
                self.ch4.tick_length();
            },
            2 | 6 => {
                self.ch1.tick_length();
                self.ch2.tick_length();
                self.ch3.tick_length();
                self.ch4.tick_length();
                self.ch1.tick_sweep();
            },
            7 => {
                self.ch1.tick_envelope();
                self.ch2.tick_envelope();
                self.ch4.tick_envelope();
            },
            _ => {},
        }
        let step = self.frame_sequencer_step + 1;
        proof {
            lemma_byte_fields(step);
        }
        self.frame_sequencer_step = step & 7;
    }

    fn accumulate(&mut self) -> (due: bool)
        requires
            old(self).sample_accumulator < CPU_CLOCK,
        ensures
            (*final(self), due) == old(self).accumulated(),
            final(self).sample_accumulator < CPU_CLOCK,
    {
        self.sample_accumulator = self.sample_accumulator + SAMPLE_RATE;
        if self.sample_accumulator >= CPU_CLOCK {
            self.sample_accumulator = self.sample_accumulator - CPU_CLOCK;
            true
        } else {
            false
        }
    }

    /// Advance the unit by one T-cycle and say whether a sample is due.
    pub fn tick(&mut self) -> (e: SampleEvent)
        requires
            old(self).wf(),
            old(self).can_tick(),
        ensures
            (*final(self), e) == old(self).ticked(),
            final(self).wf(),
    {
        if !self.enabled {
            if self.accumulate() {
                return SampleEvent::Silence;
            }
            return SampleEvent::Idle;
        }
        // Tick frame sequencer (512 Hz = every 8192 T-cycles)

        self.frame_sequencer_counter = self.frame_sequencer_counter + 1;
        if self.frame_sequencer_counter >= 8192 {
            self.frame_sequencer_counter = 0;
            self.step_frame_sequencer();
        }
        // Tick channel frequency timers

        self.ch1.tick();
        self.ch2.tick();
        self.ch3.tick();
        self.ch4.tick();

        // A sample falls due each time the accumulator reaches CPU_CLOCK
        if self.accumulate() {
            SampleEvent::Mix
        } else {
            SampleEvent::Idle
        }
    }

    /// The bytes the unit's state is saved as.
    pub open spec fn state_bytes(self) -> Seq<u8> {
        seq![bool_byte(self.enabled), self.frame_sequencer_step, self.nr50, self.nr51] + le16(
            self.frame_sequencer_counter,
        ) + le32(self.sample_accumulator) + self.ch1.state_bytes() + self.ch2.state_bytes()
            + self.ch3.state_bytes() + self.ch4.state_bytes()
    }

    /// The unit after reading a saved state from `b` at `p`; reading stops
    /// at the first part the input does not hold entirely.
    pub open spec fn loaded(self, b: Seq<u8>, p: int) -> Apu {
        if !has_bytes(b, p, 4) {
            self
        } else {
            let s1 = Apu {
                enabled: b[p] != 0,
                frame_sequencer_step: b[p + 1],
                nr50: b[p + 2],
                nr51: b[p + 3],
                ..self
            };
            if !has_bytes(b, p + 4, 2) {
                s1
            } else {
                let s2 = Apu { frame_sequencer_counter: read_le16(b, p + 4), ..s1 };
                if !has_bytes(b, p + 6, 4) {
                    s2
                } else {
                    let s3 = Apu { sample_accumulator: read_le32(b, p + 6), ..s2 };
                    let s4 = Apu { ch1: s3.ch1.loaded(b, p + 10), ..s3 };
                    if !has_bytes(b, p + 10, SQUARE_STATE_LEN as int) {
                        s4
                    } else {
                        let s5 = Apu { ch2: s4.ch2.loaded(b, p + 34), ..s4 };
                        if !has_bytes(b, p + 34, SQUARE_STATE_LEN as int) {
                            s5
                        } else {
                            let s6 = Apu { ch3: s5.ch3.loaded(b, p + 58), ..s5 };
                            if !has_bytes(b, p + 58, WAVE_STATE_LEN as int) {
                                s6
                            } else {
                                Apu { ch4: s6.ch4.loaded(b, p + 85), ..s6 }
                            }
                        }
                    }
                }
            }
        }
    }

    pub fn save_state(&self, out: &mut Vec<u8>)
        ensures
            final(out)@ == old(out)@ + self.state_bytes(),
    {
        let head: [u8; 4] = [
            self.enabled as u8,
            self.frame_sequencer_step,
            self.nr50,
            self.nr51,
        ];
        push_bytes(out, head.as_slice());
        push_u16(out, self.frame_sequencer_counter);
        push_u32(out, self.sample_accumulator);
        self.ch1.save_state(out);
        self.ch2.save_state(out);
        self.ch3.save_state(out);
        self.ch4.save_state(out);
        assert(out@ =~= old(out)@ + self.state_bytes());
    }

    pub fn load_state(&mut self, input: &[u8], pos: usize) -> (r: Result<usize, StateError>)
        ensures
            *final(self) == old(self).loaded(input@, pos as int),
            r == if has_bytes(input@, pos as int, APU_STATE_LEN as int) {
                Ok::<usize, StateError>((pos + APU_STATE_LEN) as usize)
            } else {
                Err(StateError::UnexpectedEof)
            },
    {
        let _len = input.len();
        if !available(input, pos, 4) {
            return Err(StateError::UnexpectedEof);
        }
        self.enabled = input[pos] != 0;
        self.frame_sequencer_step = input[pos + 1];
        self.nr50 = input[pos + 2];
        self.nr51 = input[pos + 3];
        if !available(input, pos + 4, 2) {
            return Err(StateError::UnexpectedEof);
        }
        self.frame_sequencer_counter = get_u16(input, pos + 4);
        if !available(input, pos + 6, 4) {
            return Err(StateError::UnexpectedEof);
        }
        self.sample_accumulator = get_u32(input, pos + 6);
        let p = self.ch1.load_state(input, pos + 10);
        if p.is_err() {
            return Err(StateError::UnexpectedEof);
        }
        let p = self.ch2.load_state(input, pos + 34);
        if p.is_err() {
            return Err(StateError::UnexpectedEof);
        }
        let p = self.ch3.load_state(input, pos + 58);
        if p.is_err() {
            return Err(StateError::UnexpectedEof);
        }
        let p = self.ch4.load_state(input, pos + 85);
        if p.is_err() {
            return Err(StateError::UnexpectedEof);
        }
        Ok(pos + 102)
    }
}


proof fn lemma_bool_byte(b: bool)
    ensures
        (bool_byte(b) != 0) == b,
{
}

/// Reading back a saved square channel restores it exactly.
#[verifier::rlimit(40)]
pub proof fn law_square_state_roundtrip(
    c: SquareChannel,
    d: SquareChannel,
    prefix: Seq<u8>,
    suffix: Seq<u8>,
)
    ensures
        c.loaded(prefix + d.state_bytes() + suffix, prefix.len() as int) == d,
        has_bytes(prefix + d.state_bytes() + suffix, prefix.len() as int, SQUARE_STATE_LEN as int),
{
    let b = prefix + d.state_bytes() + suffix;
    let p = prefix.len() as int;
    let head = seq![
        bool_byte(d.enabled),
        bool_byte(d.dac_enabled),
        d.volume,
        d.envelope_period,
        bool_byte(d.envelope_direction),
        d.envelope_timer,
        d.initial_volume,
        d.duty,
        d.duty_position,
        d.sweep_period,
        bool_byte(d.sweep_direction),
        d.sweep_shift,
        d.sweep_timer,
        bool_byte(d.sweep_enabled),
        bool_byte(d.length_enabled),
        bool_byte(d.has_sweep),
    ];
    assert(b =~= prefix + head + (le16(d.length_counter) + le16(d.frequency) + le16(
        d.frequency_timer,
    ) + le16(d.shadow_frequency) + suffix));
    assert(b.subrange(p, p + 16) =~= head);
    crate::state::law_le16_roundtrip(
        prefix + head,
        d.length_counter,
        le16(d.frequency) + le16(d.frequency_timer) + le16(d.shadow_frequency) + suffix,
    );
    assert(b =~= (prefix + head) + le16(d.length_counter) + (le16(d.frequency) + le16(
        d.frequency_timer,
    ) + le16(d.shadow_frequency) + suffix));
    crate::state::law_le16_roundtrip(
        prefix + head + le16(d.length_counter),
        d.frequency,
        le16(d.frequency_timer) + le16(d.shadow_frequency) + suffix,
    );
    assert(b =~= (prefix + head + le16(d.length_counter)) + le16(d.frequency) + (le16(
        d.frequency_timer,
    ) + le16(d.shadow_frequency) + suffix));
    crate::state::law_le16_roundtrip(
        prefix + head + le16(d.length_counter) + le16(d.frequency),
        d.frequency_timer,
        le16(d.shadow_frequency) + suffix,
    );
    assert(b =~= (prefix + head + le16(d.length_counter) + le16(d.frequency)) + le16(
        d.frequency_timer,
    ) + (le16(d.shadow_frequency) + suffix));
    crate::state::law_le16_roundtrip(
        prefix + head + le16(d.length_counter) + le16(d.frequency) + le16(d.frequency_timer),
        d.shadow_frequency,
        suffix,
    );
    assert(b =~= (prefix + head + le16(d.length_counter) + le16(d.frequency) + le16(
        d.frequency_timer,
    )) + le16(d.shadow_frequency) + suffix);
    lemma_bool_byte(d.enabled);
    lemma_bool_byte(d.dac_enabled);
    lemma_bool_byte(d.envelope_direction);
    lemma_bool_byte(d.sweep_direction);
    lemma_bool_byte(d.sweep_enabled);
    lemma_bool_byte(d.length_enabled);
    lemma_bool_byte(d.has_sweep);
    assert(b[p] == head[0]);
    assert(b[p + 1] == head[1]);
    assert(b[p + 4] == head[4]);
    assert(b[p + 10] == head[10]);
    assert(b[p + 13] == head[13]);
    assert(b[p + 14] == head[14]);
    assert(b[p + 15] == head[15]);
}


proof fn lemma_copied_into(arr: [u8; 16], b: Seq<u8>, q: int, n: nat)
    requires
        n <= 16,
        0 <= q,
        q + n <= b.len(),
    ensures
        forall|j: int| 0 <= j < n ==> #[trigger] copied_into(arr, b, q, n)@[j] == b[q + j],
        forall|j: int| n <= j < 16 ==> #[trigger] copied_into(arr, b, q, n)@[j] == arr@[j],
    decreases n,
{
    if n > 0 {
        let prev = copied_into(arr, b, q, (n - 1) as nat);
        lemma_copied_into(arr, b, q, (n - 1) as nat);
        assert(copied_into(arr, b, q, n)@ == prev@.update(n - 1, b[q + n - 1]));
    }
}

/// Reading back a saved wave channel restores it exactly.
pub proof fn law_wave_state_roundtrip(
    c: WaveChannel,
    d: WaveChannel,
    prefix: Seq<u8>,
    suffix: Seq<u8>,
)
    ensures
        c.loaded(prefix + d.state_bytes() + suffix, prefix.len() as int) == d,
        has_bytes(prefix + d.state_bytes() + suffix, prefix.len() as int, WAVE_STATE_LEN as int),
{
    let b = prefix + d.state_bytes() + suffix;
    let p = prefix.len() as int;
    let head = seq![
        bool_byte(d.enabled),
        bool_byte(d.dac_enabled),
        d.volume_code,
        d.position,
        bool_byte(d.length_enabled),
    ];
    let w = d.wave_ram@;
    let l1 = le16(d.length_counter);
    let l2 = le16(d.frequency);
    let l3 = le16(d.frequency_timer);
    assert(b =~= prefix + head + (l1 + l2 + l3 + w + suffix));
    assert(b.subrange(p, p + 5) =~= head);
    crate::state::law_le16_roundtrip(prefix + head, d.length_counter, l2 + l3 + w + suffix);
    assert(b =~= (prefix + head) + l1 + (l2 + l3 + w + suffix));
    crate::state::law_le16_roundtrip(prefix + head + l1, d.frequency, l3 + w + suffix);
    assert(b =~= (prefix + head + l1) + l2 + (l3 + w + suffix));
    crate::state::law_le16_roundtrip(prefix + head + l1 + l2, d.frequency_timer, w + suffix);
    assert(b =~= (prefix + head + l1 + l2) + l3 + (w + suffix));
    assert(b.subrange(p + 11, p + 27) =~= w);
    lemma_copied_into(c.wave_ram, b, p + 11, 16);
    assert(copied_into(c.wave_ram, b, p + 11, 16) =~= d.wave_ram) by {
        assert forall|j: int| 0 <= j < 16 implies copied_into(c.wave_ram, b, p + 11, 16)@[j]
            == d.wave_ram@[j] by {
            assert(b.subrange(p + 11, p + 27)[j] == b[p + 11 + j]);
        }
    }
    lemma_bool_byte(d.enabled);
    lemma_bool_byte(d.dac_enabled);
    lemma_bool_byte(d.length_enabled);
    assert(b[p] == head[0]);
    assert(b[p + 1] == head[1]);
    assert(b[p + 4] == head[4]);
}

/// Reading back a saved noise channel restores it exactly.
pub proof fn law_noise_state_roundtrip(
    c: NoiseChannel,
    d: NoiseChannel,
    prefix: Seq<u8>,
    suffix: Seq<u8>,
)
    ensures
        c.loaded(prefix + d.state_bytes() + suffix, prefix.len() as int) == d,
        has_bytes(prefix + d.state_bytes() + suffix, prefix.len() as int, NOISE_STATE_LEN as int),
{
    let b = prefix + d.state_bytes() + suffix;
    let p = prefix.len() as int;
    let head = seq![
        bool_byte(d.enabled),
        bool_byte(d.dac_enabled),
        d.volume,
        d.envelope_period,
        bool_byte(d.envelope_direction),
        d.envelope_timer,
        d.initial_volume,
        d.clock_shift,
        bool_byte(d.width_mode),
        d.divisor_code,
        bool_byte(d.length_enabled),
    ];
    let l1 = le16(d.length_counter);
    let l2 = le16(d.frequency_timer);
    let l3 = le16(d.lfsr);
    assert(b =~= prefix + head + (l1 + l2 + l3 + suffix));
    assert(b.subrange(p, p + 11) =~= head);
    crate::state::law_le16_roundtrip(prefix + head, d.length_counter, l2 + l3 + suffix);
    assert(b =~= (prefix + head) + l1 + (l2 + l3 + suffix));
    crate::state::law_le16_roundtrip(prefix + head + l1, d.frequency_timer, l3 + suffix);
    assert(b =~= (prefix + head + l1) + l2 + (l3 + suffix));
    crate::state::law_le16_roundtrip(prefix + head + l1 + l2, d.lfsr, suffix);
    assert(b =~= (prefix + head + l1 + l2) + l3 + suffix);
    lemma_bool_byte(d.enabled);
    lemma_bool_byte(d.dac_enabled);
    lemma_bool_byte(d.envelope_direction);
    lemma_bool_byte(d.width_mode);
    lemma_bool_byte(d.length_enabled);
    assert(b[p] == head[0]);
    assert(b[p + 1] == head[1]);
    assert(b[p + 4] == head[4]);
    assert(b[p + 8] == head[8]);
    assert(b[p + 10] == head[10]);
}

/// Reading back a saved audio unit restores it exactly.
#[verifier::rlimit(100)]
pub proof fn law_apu_state_roundtrip(a: Apu, d: Apu, prefix: Seq<u8>, suffix: Seq<u8>)
    ensures
        a.loaded(prefix + d.state_bytes() + suffix, prefix.len() as int) == d,
        has_bytes(prefix + d.state_bytes() + suffix, prefix.len() as int, APU_STATE_LEN as int),
{
    let b = prefix + d.state_bytes() + suffix;
    let p = prefix.len() as int;
    let head = seq![bool_byte(d.enabled), d.frame_sequencer_step, d.nr50, d.nr51];
    let l1 = le16(d.frame_sequencer_counter);
    let l2 = le32(d.sample_accumulator);
    let c1 = d.ch1.state_bytes();
    let c2 = d.ch2.state_bytes();
    let c3 = d.ch3.state_bytes();
    let c4 = d.ch4.state_bytes();
    assert(c1.len() == 24 && c2.len() == 24 && c3.len() == 27 && c4.len() == 17);
    assert(b.len() == p + 102 + suffix.len()) by {
        assert(b =~= prefix + head + (l1 + l2 + c1 + c2 + c3 + c4 + suffix));
    }
    assert(b[p] == head[0] && b[p + 1] == head[1] && b[p + 2] == head[2] && b[p + 3]
        == head[3]) by {
        assert(b =~= prefix + head + (l1 + l2 + c1 + c2 + c3 + c4 + suffix));
    }
    assert(read_le16(b, p + 4) == d.frame_sequencer_counter) by {
        crate::state::law_le16_roundtrip(
            prefix + head,
            d.frame_sequencer_counter,
            l2 + c1 + c2 + c3 + c4 + suffix,
        );
        assert(b =~= (prefix + head) + l1 + (l2 + c1 + c2 + c3 + c4 + suffix));
    }
    assert(read_le32(b, p + 6) == d.sample_accumulator) by {
        crate::state::law_le32_roundtrip(
            prefix + head + l1,
            d.sample_accumulator,
            c1 + c2 + c3 + c4 + suffix,
        );
        assert(b =~= (prefix + head + l1) + l2 + (c1 + c2 + c3 + c4 + suffix));
    }
    assert(a.ch1.loaded(b, p + 10) == d.ch1) by {
        law_square_state_roundtrip(a.ch1, d.ch1, prefix + head + l1 + l2, c2 + c3 + c4 + suffix);
        assert(b =~= (prefix + head + l1 + l2) + c1 + (c2 + c3 + c4 + suffix));
    }
    assert(a.ch2.loaded(b, p + 34) == d.ch2) by {
        law_square_state_roundtrip(a.ch2, d.ch2, prefix + head + l1 + l2 + c1, c3 + c4 + suffix);
        assert(b =~= (prefix + head + l1 + l2 + c1) + c2 + (c3 + c4 + suffix));
    }
    assert(a.ch3.loaded(b, p + 58) == d.ch3) by {
        law_wave_state_roundtrip(a.ch3, d.ch3, prefix + head + l1 + l2 + c1 + c2, c4 + suffix);
        assert(b =~= (prefix + head + l1 + l2 + c1 + c2) + c3 + (c4 + suffix));
    }
    assert(a.ch4.loaded(b, p + 85) == d.ch4) by {
        law_noise_state_roundtrip(a.ch4, d.ch4, prefix + head + l1 + l2 + c1 + c2 + c3, suffix);
        assert(b =~= (prefix + head + l1 + l2 + c1 + c2 + c3) + c4 + suffix);
    }
    lemma_bool_byte(d.enabled);
}


/// A square channel after `n` length steps.
pub open spec fn length_steps(c: SquareChannel, n: nat) -> SquareChannel
    decreases n,
{
    if n == 0 {
        c
    } else {
        length_steps(c, (n - 1) as nat).length_ticked()
    }
}

/// With its length counter enabled, a channel whose counter holds `n`
/// falls silent after exactly `n` length steps, and not before.
pub proof fn law_length_counter_silences(c: SquareChannel, k: nat)
    requires
        c.length_enabled,
        c.length_counter > 0,
        k <= c.length_counter,
    ensures
        length_steps(c, k).length_enabled,
        length_steps(c, k).length_counter == c.length_counter - k,
        k < c.length_counter ==> length_steps(c, k).enabled == c.enabled,
        k == c.length_counter ==> !length_steps(c, k).enabled,
    decreases k,
{
    if k > 0 {
        law_length_counter_silences(c, (k - 1) as nat);
    }
}

/// The envelope keeps the volume within 0-15.
pub proof fn law_envelope_bounded(c: SquareChannel, d: NoiseChannel)
    requires
        c.volume <= 15,
        d.volume <= 15,
    ensures
        c.envelope_ticked().volume <= 15,
        d.envelope_ticked().volume <= 15,
{
}

/// A channel whose DAC is off stays off when triggered.
pub proof fn law_trigger_needs_dac(c: SquareChannel, w: WaveChannel, n: NoiseChannel)
    ensures
        !c.dac_enabled ==> !c.triggered().enabled,
        !w.dac_enabled ==> !w.triggered().enabled,
        !n.dac_enabled ==> !n.triggered().enabled,
        c.dac_enabled && !c.has_sweep ==> c.triggered().enabled,
        w.dac_enabled ==> w.triggered().enabled,
        n.dac_enabled ==> n.triggered().enabled,
{
}

/// While the unit is off, writes other than to NR52, wave RAM and the four
/// length registers change nothing.
pub proof fn law_writes_ignored_while_off(a: Apu, address: u16, value: u8)
    requires
        !a.enabled,
        address != 0xFF11 && address != 0xFF16 && address != 0xFF1B && address != 0xFF20,
        address != 0xFF26,
        !(0xFF30 <= address <= 0xFF3F),
    ensures
        a.written(address, value) == a,
{
}

/// Wave RAM reads back what was written to it, whether the unit is on or off.
pub proof fn law_wave_ram_read_after_write(a: Apu, i: u16, value: u8)
    requires
        i < 16,
    ensures
        a.written((0xFF30 + i) as u16, value).register_value((0xFF30 + i) as u16) == value,
{
}

/// Switching the unit off silences every channel: NR52 then reads 0x70.
pub proof fn law_power_off_status(a: Apu, value: u8)
    requires
        a.enabled,
        value & 0x80 == 0,
    ensures
        !a.written(0xFF26, value).enabled,
        a.written(0xFF26, value).register_value(0xFF26) == 0x70,
{
}

/// The unit after `n` T-cycles, and how many of those cycles made a
/// sample due (a mixed or a silent one).
pub open spec fn ticked_times(a: Apu, n: nat) -> (Apu, nat)
    decreases n,
{
    if n == 0 {
        (a, 0)
    } else {
        let (b, e) = a.ticked();
        let (c, k) = ticked_times(b, (n - 1) as nat);
        (
            c,
            if e is Idle {
                k
            } else {
                k + 1
            },
        )
    }
}

/// One T-cycle advances the sample clock as `accumulated` says, whether the
/// unit is on or off, and a sample is due exactly when that clock wraps.
proof fn lemma_tick_accumulates(a: Apu)
    ensures
        a.ticked().0.sample_accumulator == a.accumulated().0.sample_accumulator,
        (a.ticked().1 !is Idle) == a.accumulated().1,
{
}

/// After `n` T-cycles the sample clock has counted `SAMPLE_RATE` per cycle,
/// less `CPU_CLOCK` per due sample, and is still below `CPU_CLOCK`.
proof fn lemma_sample_clock(a: Apu, n: nat)
    requires
        a.sample_accumulator < CPU_CLOCK,
    ensures
        ticked_times(a, n).0.sample_accumulator < CPU_CLOCK,
        ticked_times(a, n).0.sample_accumulator + CPU_CLOCK * ticked_times(a, n).1
            == a.sample_accumulator + SAMPLE_RATE * n,
    decreases n,
{
    if n > 0 {
        let b = a.ticked().0;
        lemma_tick_accumulates(a);
        lemma_sample_clock(b, (n - 1) as nat);
    }
}

/// The sample rate is exact: over `n` T-cycles, starting from an
/// accumulator below `CPU_CLOCK`, the number of samples that fall due is
/// `(accumulator + 44_100 * n) / 4_194_304`, whether the unit is on or off,
/// and the accumulator stays below `CPU_CLOCK`. In particular any
/// 4,194,304 consecutive T-cycles (one second) yield exactly 44,100 samples.
pub proof fn law_sample_rate(a: Apu, n: nat)
    requires
        a.sample_accumulator < CPU_CLOCK,
    ensures
        ticked_times(a, n).1 == (a.sample_accumulator + SAMPLE_RATE * n) / (CPU_CLOCK as int),
        ticked_times(a, n).0.sample_accumulator < CPU_CLOCK,
        ticked_times(a, CPU_CLOCK as nat).1 == SAMPLE_RATE,
{
    lemma_sample_clock(a, n);
    let (t, k) = ticked_times(a, n);
    lemma_fundamental_div_mod_converse(
        a.sample_accumulator + SAMPLE_RATE * n,
        CPU_CLOCK as int,
        k as int,
        t.sample_accumulator as int,
    );
    lemma_sample_clock(a, CPU_CLOCK as nat);
    let (t2, k2) = ticked_times(a, CPU_CLOCK as nat);
    lemma_fundamental_div_mod_converse(
        a.sample_accumulator + SAMPLE_RATE * CPU_CLOCK,
        CPU_CLOCK as int,
        k2 as int,
        t2.sample_accumulator as int,
    );
    lemma_fundamental_div_mod_converse(
        a.sample_accumulator + SAMPLE_RATE * CPU_CLOCK,
        CPU_CLOCK as int,
        SAMPLE_RATE as int,
        a.sample_accumulator as int,
    );
}

} // verus!
