//! The tone generator's control state.
//!
//! Sound instructions choose a frequency, a duration, a waveform and an
//! ADSR envelope. This module keeps those settings as integers, derives the
//! envelope's stage lengths in samples, and records what the output device
//! has still to be told. Turning a setting into samples is floating-point
//! work and is done by whoever owns the device.

use vstd::prelude::*;

verus! {

/// Samples per second of the output stream.
pub const AUDIO_SAMPLE_RATE: u32 = 48_000;

/// Samples per millisecond of the output stream.
pub const SAMPLES_PER_MS: u32 = 48;

/// Attack times in milliseconds, by envelope index.
pub const ATTACK_DURATIONS: [u32; 16] = [
    2, 8, 16, 24, 38, 56, 68, 80, 100, 250, 500, 800, 1000, 3000, 5000, 8000,
];

/// Decay times in milliseconds, by envelope index.
pub const DECAY_DURATIONS: [u32; 16] = [
    6, 24, 48, 72, 114, 168, 204, 240, 300, 750, 1500, 2400, 3000, 9000, 15000, 24000,
];

/// Release times in milliseconds, by envelope index.
pub const RELEASE_DURATIONS: [u32; 16] = [
    6, 24, 48, 72, 114, 168, 204, 240, 300, 750, 1500, 2400, 3000, 9000, 15000, 24000,
];

/// The shape of one period of a tone.
#[derive(Clone, Copy, Debug, PartialEq, Eq, Structural)]
pub enum WaveForm {
    Triangle,
    Sawtooth,
    Square,
    Noise,
}

/// What the wave generator has to be told next.
#[derive(Clone, Copy, Debug, PartialEq, Eq, Structural)]
pub enum WaveRequest {
    /// Nothing: the generator holds the current settings.
    Idle,
    /// Take over `AudioState::wave` and start the envelope from sample zero.
    Load,
    /// Silence the generator and zero its state.
    Reset,
}

/// The stage of the envelope that a sample falls in.
#[derive(Clone, Copy, Debug, PartialEq, Eq, Structural)]
pub enum EnvelopeStage {
    /// Fixed tones have no envelope: unit volume throughout.
    Bypass,
    /// Linear rise from silence to the peak volume.
    Attack,
    /// Linear fall from the peak volume to the sustain level.
    Decay,
    /// Flat at the sustain level.
    Sustain,
    /// Linear fall from the sustain level to silence.
    Release,
    /// Past the end of the envelope: silence.
    Done,
}

/// Where a sample stands in the envelope: its stage, the samples elapsed in
/// that stage and the length of the stage. Outside the three sloped stages
/// `elapsed` and `length` are zero.
#[derive(Clone, Copy, Debug, PartialEq, Eq, Structural)]
pub struct EnvelopePoint {
    pub stage: EnvelopeStage,
    pub elapsed: u32,
    pub length: u32,
}

/// The generator's parameters, as far as they are integers. A level is
/// stored as its divisor: `d` stands for `1/d` of unit volume, and zero for
/// silence.
#[derive(Clone, Copy, Debug, PartialEq, Eq, Structural)]
pub struct WaveSettings {
    /// Tone frequency in Hz; phase advances by `frequency / 48000` a sample.
    pub frequency: i32,
    /// Whether the envelope shapes the volume.
    pub use_custom_params: bool,
    pub volume_divisor: u8,
    pub sustain_divisor: u8,
    pub attack_samples: u32,
    pub decay_samples: u32,
    pub sustain_samples: u32,
    pub release_samples: u32,
    /// How far sample progress moves with each sample: 1 while a tone
    /// plays, 0 when the generator was reset.
    pub sample_inc: u32,
    pub wave_form: WaveForm,
}

/// The tone generator as the interpreter sees it.
#[derive(Clone, Copy, Debug, PartialEq, Eq, Structural)]
pub struct AudioState {
    pub frequency: i32,
    /// The duration asked for by the last sound instruction.
    pub duration_ms: u16,
    /// The length of the whole envelope, release included.
    pub total_duration_ms: u32,
    pub playing: bool,
    pub use_custom_params: bool,
    pub attack: usize,
    pub decay: usize,
    pub release: usize,
    pub sustain_divisor: u8,
    pub volume_divisor: u8,
    pub wave_form: WaveForm,
    /// The parameters last derived for the generator.
    pub wave: WaveSettings,
    /// Whether the output device should be running.
    pub running: bool,
    /// What the generator has not yet been told.
    pub request: WaveRequest,
}

/// The waveform that an index selects, for indices 0 to 3.
pub open spec fn wave_form_of(index: u8) -> WaveForm {
    if index == 0 {
        WaveForm::Triangle
    } else if index == 1 {
        WaveForm::Sawtooth
    } else if index == 2 {
        WaveForm::Square
    } else {
        WaveForm::Noise
    }
}

/// The divisor of the level that a sustain or volume index selects: index
/// `s` stands for `1 / (2 * (16 - s))` of unit volume.
pub open spec fn level_divisor(index: u8) -> u8 {
    (2 * (16 - index)) as u8
}

/// The length of the sustain stage: what is left of the requested duration
/// after attack and decay, and nothing if they already fill it.
pub open spec fn sustain_ms(attack: int, decay: int, duration_ms: u16) -> int {
    if attack + decay < duration_ms {
        duration_ms - attack - decay
    } else {
        0
    }
}

/// The generator parameters before any tone was played.
pub open spec fn silent_wave() -> WaveSettings {
    WaveSettings {
        frequency: 0,
        use_custom_params: false,
        volume_divisor: 0,
        sustain_divisor: 0,
        attack_samples: 0,
        decay_samples: 0,
        sustain_samples: 0,
        release_samples: 0,
        sample_inc: 0,
        wave_form: WaveForm::Triangle,
    }
}

/// Where sample number `progress` stands in the envelope of `w`. The stages
/// follow one another; a sample on a boundary belongs to the earlier stage.
pub open spec fn envelope_point_of(w: WaveSettings, progress: u32) -> EnvelopePoint {
    let a = w.attack_samples as int;
    let d = w.decay_samples as int;
    let s = w.sustain_samples as int;
    let r = w.release_samples as int;
    if !w.use_custom_params {
        EnvelopePoint { stage: EnvelopeStage::Bypass, elapsed: 0, length: 0 }
    } else if progress <= a {
        EnvelopePoint { stage: EnvelopeStage::Attack, elapsed: progress, length: w.attack_samples }
    } else if progress <= a + d {
        EnvelopePoint {
            stage: EnvelopeStage::Decay,
            elapsed: (progress - a) as u32,
            length: w.decay_samples,
        }
    } else if progress <= a + d + s {
        EnvelopePoint { stage: EnvelopeStage::Sustain, elapsed: 0, length: 0 }
    } else if progress <= a + d + s + r {
        EnvelopePoint {
            stage: EnvelopeStage::Release,
            elapsed: (progress - a - d - s) as u32,
            length: w.release_samples,
        }
    } else {
        EnvelopePoint { stage: EnvelopeStage::Done, elapsed: 0, length: 0 }
    }
}

/// A volume as a fraction of unit volume. The fraction is not reduced; its
/// denominator is positive.
#[derive(Clone, Copy, Debug, PartialEq, Eq, Structural)]
pub struct Ratio {
    pub num: i64,
    pub den: i64,
}

/// The numerator of the level that a divisor stands for.
pub open spec fn level_num(divisor: u8) -> int {
    if divisor == 0 {
        0
    } else {
        1
    }
}

/// The denominator of the level that a divisor stands for.
pub open spec fn level_den(divisor: u8) -> int {
    if divisor == 0 {
        1
    } else {
        divisor as int
    }
}

/// The volume of sample number `progress`. With `peak` and `sustain` the
/// two levels of `w`, `e` the samples elapsed in the stage and `l` the
/// length of the stage:
///
/// - without envelope: unit volume;
/// - attack: `peak * e / l`, rising from silence to the peak;
/// - decay: `sustain + (peak - sustain) * (1 - e / l)`, falling from the
///   peak to the sustain level;
/// - sustain: `sustain`;
/// - release: `sustain * (1 - e / l)`, falling to silence;
/// - after the release: silence.
///
/// An attack of no length is at its peak at once.
pub open spec fn volume_of(w: WaveSettings, progress: u32) -> Ratio {
    let point = envelope_point_of(w, progress);
    let pn = level_num(w.volume_divisor);
    let pd = level_den(w.volume_divisor);
    let sn = level_num(w.sustain_divisor);
    let sd = level_den(w.sustain_divisor);
    let e = point.elapsed as int;
    let l = point.length as int;
    match point.stage {
        EnvelopeStage::Bypass => Ratio { num: 1, den: 1 },
        EnvelopeStage::Attack => if l == 0 {
            Ratio { num: pn as i64, den: pd as i64 }
        } else {
            Ratio { num: (pn * e) as i64, den: (pd * l) as i64 }
        },
        EnvelopeStage::Decay => Ratio {
            num: ((sn * pd) * l + (pn * sd - sn * pd) * (l - e)) as i64,
            den: ((sd * pd) * l) as i64,
        },
        EnvelopeStage::Sustain => Ratio { num: sn as i64, den: sd as i64 },
        EnvelopeStage::Release => Ratio { num: (sn * (l - e)) as i64, den: (sd * l) as i64 },
        EnvelopeStage::Done => Ratio { num: 0, den: 1 },
    }
}

/// Selects a waveform by its index in a sound instruction. Indices above 3
/// name no waveform and are an error.
pub fn wave_form_from_num(index: u8) -> (r: Result<WaveForm, String>)
    ensures
        index <= 3 ==> r == Ok::<WaveForm, String>(wave_form_of(index)),
        index > 3 ==> (r matches Err(e) && e@ == "Invalid wave type index"@),
{
    match index {
        0 => Ok(WaveForm::Triangle),
        1 => Ok(WaveForm::Sawtooth),
        2 => Ok(WaveForm::Square),
        3 => Ok(WaveForm::Noise),
        _ => Err("Invalid wave type index".to_owned()),
    }
}

impl WaveSettings {
    /// Where sample number `progress` stands in the envelope.
    pub fn envelope_point(&self, progress: u32) -> (r: EnvelopePoint)
        ensures
            r == envelope_point_of(*self, progress),
    {
        let p: u64 = progress as u64;
        let a: u64 = self.attack_samples as u64;
        let d: u64 = self.decay_samples as u64;
        let s: u64 = self.sustain_samples as u64;
        let r: u64 = self.release_samples as u64;
        if !self.use_custom_params {
            EnvelopePoint { stage: EnvelopeStage::Bypass, elapsed: 0, length: 0 }
        } else if p <= a {
            EnvelopePoint {
                stage: EnvelopeStage::Attack,
                elapsed: progress,
                length: self.attack_samples,
            }
        } else if p <= a + d {
            EnvelopePoint {
                stage: EnvelopeStage::Decay,
                elapsed: progress - self.attack_samples,
                length: self.decay_samples,
            }
        } else if p <= a + d + s {
            EnvelopePoint { stage: EnvelopeStage::Sustain, elapsed: 0, length: 0 }
        } else if p <= a + d + s + r {
            EnvelopePoint {
                stage: EnvelopeStage::Release,
                elapsed: (p - a - d - s) as u32,
                length: self.release_samples,
            }
        } else {
            EnvelopePoint { stage: EnvelopeStage::Done, elapsed: 0, length: 0 }
        }
    }
}

/// The product of a small factor and a sample count, which fits easily.
fn scaled(factor: i64, samples: i64) -> (r: i64)
    requires
        -0x10000 <= factor <= 0x10000,
        0 <= samples <= 0xFFFF_FFFF,
    ensures
        r == factor * samples,
        -0x10000 * 0xFFFF_FFFF <= r <= 0x10000 * 0xFFFF_FFFF,
{
    assert(-0x10000 * 0xFFFF_FFFF <= factor * samples <= 0x10000 * 0xFFFF_FFFF)
        by (nonlinear_arith)
        requires
            -0x10000 <= factor <= 0x10000,
            0 <= samples <= 0xFFFF_FFFF,
    ;
    factor * samples
}

impl WaveSettings {
    /// The volume of sample number `progress`, as an exact fraction of unit
    /// volume.
    pub fn volume(&self, progress: u32) -> (r: Ratio)
        ensures
            r == volume_of(*self, progress),
            r.den > 0,
    {
        let point = self.envelope_point(progress);
        let pn: i64 = if self.volume_divisor == 0 {
            0
        } else {
            1
        };
        let pd: i64 = if self.volume_divisor == 0 {
            1
        } else {
            self.volume_divisor as i64
        };
        let sn: i64 = if self.sustain_divisor == 0 {
            0
        } else {
            1
        };
        let sd: i64 = if self.sustain_divisor == 0 {
            1
        } else {
            self.sustain_divisor as i64
        };
        let e: i64 = point.elapsed as i64;
        let l: i64 = point.length as i64;
        assert(0 <= sn * pd <= 255 && 0 <= pn * sd <= 255 && 1 <= sd * pd <= 255 * 255)
            by (nonlinear_arith)
            requires
                0 <= sn <= 1,
                0 <= pn <= 1,
                1 <= pd <= 255,
                1 <= sd <= 255,
        ;
        match point.stage {
            EnvelopeStage::Bypass => Ratio { num: 1, den: 1 },
            EnvelopeStage::Attack => {
                if l == 0 {
                    Ratio { num: pn, den: pd }
                } else {
                    let den = scaled(pd, l);
                    assert(pd * l > 0) by (nonlinear_arith)
                        requires
                            pd >= 1,
                            l >= 1,
                    ;
                    Ratio { num: scaled(pn, e), den }
                }
            },
            EnvelopeStage::Decay => {
                assert((sd * pd) * l > 0) by (nonlinear_arith)
                    requires
                        sd * pd >= 1,
                        l >= 1,
                ;
                Ratio {
                    num: scaled(sn * pd, l) + scaled(pn * sd - sn * pd, l - e),
                    den: scaled(sd * pd, l),
                }
            },
            EnvelopeStage::Sustain => Ratio { num: sn, den: sd },
            EnvelopeStage::Release => {
                assert(sd * l > 0) by (nonlinear_arith)
                    requires
                        sd >= 1,
                        l >= 1,
                ;
                Ratio { num: scaled(sn, l - e), den: scaled(sd, l) }
            },
            EnvelopeStage::Done => Ratio { num: 0, den: 1 },
        }
    }
}

impl AudioState {
    /// The envelope indices name entries of the duration tables, and a
    /// playing envelope has a positive length.
    pub open spec fn wf(self) -> bool {
        &&& self.attack < 16
        &&& self.decay < 16
        &&& self.release < 16
        &&& (self.playing && self.use_custom_params ==> self.total_duration_ms > 0)
    }

    /// The generator at power-on: idle, square wave, unit levels.
    pub open spec fn initial() -> AudioState {
        AudioState {
            frequency: 0,
            duration_ms: 0,
            total_duration_ms: 0,
            playing: false,
            use_custom_params: false,
            attack: 0,
            decay: 0,
            release: 0,
            sustain_divisor: 1,
            volume_divisor: 1,
            wave_form: WaveForm::Square,
            wave: silent_wave(),
            running: false,
            request: WaveRequest::Idle,
        }
    }

    /// The generator parameters that the current settings give. With the
    /// envelope bypassed the levels and stage lengths of the last enveloped
    /// tone stay in place, unused.
    pub open spec fn derived_wave(self) -> WaveSettings {
        if self.use_custom_params {
            WaveSettings {
                frequency: self.frequency,
                use_custom_params: true,
                volume_divisor: self.volume_divisor,
                sustain_divisor: self.sustain_divisor,
                attack_samples: (SAMPLES_PER_MS * ATTACK_DURATIONS[self.attack as int]) as u32,
                decay_samples: (SAMPLES_PER_MS * DECAY_DURATIONS[self.decay as int]) as u32,
                sustain_samples: (SAMPLES_PER_MS * sustain_ms(
                    ATTACK_DURATIONS[self.attack as int] as int,
                    DECAY_DURATIONS[self.decay as int] as int,
                    self.duration_ms,
                )) as u32,
                release_samples: (SAMPLES_PER_MS * RELEASE_DURATIONS[self.release as int]) as u32,
                sample_inc: 1,
                wave_form: self.wave_form,
            }
        } else {
            WaveSettings {
                frequency: self.frequency,
                use_custom_params: false,
                sample_inc: 1,
                wave_form: self.wave_form,
                ..self.wave
            }
        }
    }

    /// The state after the generator parameters were derived anew: the tone
    /// counts as playing and the generator has to load the parameters.
    pub open spec fn after_update_wave(self) -> AudioState {
        AudioState { wave: self.derived_wave(), playing: true, request: WaveRequest::Load, ..self }
    }

    /// The state after a fixed tone was started: square wave at unit
    /// volume, no envelope, for exactly `duration` milliseconds.
    pub open spec fn after_play_sound(self, frequency: u16, duration: u16) -> AudioState {
        AudioState {
            running: true,
            ..(AudioState {
                use_custom_params: false,
                wave_form: WaveForm::Square,
                volume_divisor: 1,
                frequency: frequency as i32,
                duration_ms: duration,
                total_duration_ms: duration as u32,
                ..self
            }).after_update_wave()
        }
    }

    /// The length in milliseconds of the whole envelope of a tone of
    /// `duration` milliseconds: attack, decay, sustain and release.
    pub open spec fn envelope_ms(self, duration: u16) -> int {
        let a = ATTACK_DURATIONS[self.attack as int] as int;
        let d = DECAY_DURATIONS[self.decay as int] as int;
        a + d + sustain_ms(a, d, duration) + RELEASE_DURATIONS[self.release as int]
    }

    /// The state after an enveloped tone was started with the current ADSR
    /// settings and waveform.
    pub open spec fn after_play_custom_sound(self, frequency: u16, duration: u16) -> AudioState {
        AudioState {
            running: true,
            ..(AudioState {
                total_duration_ms: self.envelope_ms(duration) as u32,
                duration_ms: duration,
                frequency: frequency as i32,
                use_custom_params: true,
                ..self
            }).after_update_wave()
        }
    }

    /// The state after new envelope settings were stored. The five indices
    /// are stored first; the waveform changes only if its index names one.
    pub open spec fn after_set_params(
        self,
        attack: u8,
        decay: u8,
        sustain: u8,
        release: u8,
        volume: u8,
        wave_type: u8,
    ) -> AudioState {
        AudioState {
            attack: attack as usize,
            decay: decay as usize,
            release: release as usize,
            sustain_divisor: level_divisor(sustain),
            volume_divisor: level_divisor(volume),
            wave_form: if wave_type <= 3 {
                wave_form_of(wave_type)
            } else {
                self.wave_form
            },
            ..self
        }
    }

    /// The state after the generator was stopped: settings back to their
    /// power-on values, the device paused, the generator to be reset. The
    /// envelope length of the last tone and the generator's waveform stay.
    pub open spec fn after_clear(self) -> AudioState {
        AudioState {
            total_duration_ms: self.total_duration_ms,
            wave: WaveSettings { wave_form: self.wave.wave_form, ..silent_wave() },
            request: WaveRequest::Reset,
            ..AudioState::initial()
        }
    }

    /// Whether a playing tone has outlasted its envelope after
    /// `elapsed_nanos` nanoseconds.
    pub open spec fn finished_after(self, elapsed_nanos: u128) -> bool {
        self.playing && elapsed_nanos > self.total_duration_ms as int * 1_000_000
    }

    /// The generator at power-on.
    pub fn new() -> (r: AudioState)
        ensures
            r == AudioState::initial(),
            r.wf(),
    {
        AudioState {
            frequency: 0,
            duration_ms: 0,
            total_duration_ms: 0,
            playing: false,
            use_custom_params: false,
            attack: 0,
            decay: 0,
            release: 0,
            sustain_divisor: 1,
            volume_divisor: 1,
            wave_form: WaveForm::Square,
            wave: WaveSettings {
                frequency: 0,
                use_custom_params: false,
                volume_divisor: 0,
                sustain_divisor: 0,
                attack_samples: 0,
                decay_samples: 0,
                sustain_samples: 0,
                release_samples: 0,
                sample_inc: 0,
                wave_form: WaveForm::Triangle,
            },
            running: false,
            request: WaveRequest::Idle,
        }
    }

    /// Starts a fixed tone: a square wave at unit volume without envelope.
    pub fn play_sound(&mut self, frequency: u16, duration: u16)
        requires
            old(self).wf(),
        ensures
            *final(self) == old(self).after_play_sound(frequency, duration),
            final(self).wf(),
    {
        self.use_custom_params = false;
        self.wave_form = WaveForm::Square;
        self.volume_divisor = 1;
        self.frequency = frequency as i32;
        self.duration_ms = duration;
        self.total_duration_ms = duration as u32;
        self.update_wave();
        self.start();
    }

    /// Starts a tone shaped by the current ADSR settings. The sustain stage
    /// takes what attack and decay leave of `duration`; the release follows.
    pub fn play_custom_sound(&mut self, frequency: u16, duration: u16)
        requires
            old(self).wf(),
        ensures
            *final(self) == old(self).after_play_custom_sound(frequency, duration),
            final(self).wf(),
    {
        let attack_ms: u32 = ATTACK_DURATIONS[self.attack];
        let decay_ms: u32 = DECAY_DURATIONS[self.decay];
        let release_ms: u32 = RELEASE_DURATIONS[self.release];
        assert(attack_ms <= 8000 && decay_ms <= 24000 && release_ms <= 24000 && attack_ms >= 2);
        let sustain_duration: u32 = if attack_ms + decay_ms < duration as u32 {
            duration as u32 - attack_ms - decay_ms
        } else {
            0
        };
        let total_duration: u32 = attack_ms + decay_ms + sustain_duration + release_ms;
        self.total_duration_ms = total_duration;
        self.duration_ms = duration;
        self.frequency = frequency as i32;
        self.use_custom_params = true;
        self.update_wave();
        self.start();
    }

    /// Stores the envelope settings of a sound instruction: three duration
    /// indices, the sustain and volume levels, and the waveform. Fails on a
    /// waveform index above 3, after the other five were stored.
    pub fn set_params(
        &mut self,
        attack: u8,
        decay: u8,
        sustain: u8,
        release: u8,
        volume: u8,
        wave_type: u8,
    ) -> (r: Result<(), String>)
        requires
            old(self).wf(),
            attack < 16,
            decay < 16,
            sustain < 16,
            release < 16,
            volume < 16,
        ensures
            *final(self) == old(self).after_set_params(
                attack,
                decay,
                sustain,
                release,
                volume,
                wave_type,
            ),
            final(self).wf(),
            r is Ok <==> wave_type <= 3,
            r matches Err(e) ==> e@ == "Invalid wave type index"@,
    {
        self.attack = attack as usize;
        self.decay = decay as usize;
        self.release = release as usize;
        self.sustain_divisor = 2 * (16 - sustain);
        self.volume_divisor = 2 * (16 - volume);
        match wave_form_from_num(wave_type) {
            Ok(form) => {
                self.wave_form = form;
                Ok(())
            },
            Err(e) => Err(e),
        }
    }

    /// Derives the generator parameters from the current settings and marks
    /// the tone as playing. Stage lengths are the stage durations times 48
    /// samples per millisecond.
    pub fn update_wave(&mut self)
        requires
            old(self).attack < 16,
            old(self).decay < 16,
            old(self).release < 16,
        ensures
            *final(self) == old(self).after_update_wave(),
    {
        self.wave.frequency = self.frequency;
        self.wave.use_custom_params = self.use_custom_params;
        self.wave.sample_inc = 1;
        if self.use_custom_params {
            let attack_ms: u32 = ATTACK_DURATIONS[self.attack];
            let decay_ms: u32 = DECAY_DURATIONS[self.decay];
            let release_ms: u32 = RELEASE_DURATIONS[self.release];
            assert(attack_ms <= 8000 && decay_ms <= 24000 && release_ms <= 24000);
            self.wave.volume_divisor = self.volume_divisor;
            self.wave.sustain_divisor = self.sustain_divisor;
            self.wave.attack_samples = SAMPLES_PER_MS * attack_ms;
            self.wave.decay_samples = SAMPLES_PER_MS * decay_ms;
            self.wave.release_samples = SAMPLES_PER_MS * release_ms;
            let sustain_duration: u32 = if attack_ms + decay_ms < self.duration_ms as u32 {
                self.duration_ms as u32 - attack_ms - decay_ms
            } else {
                0
            };
            self.wave.sustain_samples = SAMPLES_PER_MS * sustain_duration;
        }
        self.wave.wave_form = self.wave_form;
        self.request = WaveRequest::Load;
        self.playing = true;
    }

    /// Whether the tone has played for longer than its envelope lasts.
    /// `elapsed_nanos` is the time since the tone was started.
    pub fn is_finished(&mut self, elapsed_nanos: u128) -> (r: bool)
        ensures
            *final(self) == *old(self),
            r == old(self).finished_after(elapsed_nanos),
    {
        self.playing && elapsed_nanos > self.total_duration_ms as u128 * 1_000_000
    }

    /// Stops the generator and puts the settings back to power-on values.
    pub fn clear(&mut self)
        ensures
            *final(self) == old(self).after_clear(),
            final(self).wf(),
    {
        self.frequency = 0;
        self.duration_ms = 0;
        self.playing = false;
        self.use_custom_params = false;
        self.attack = 0;
        self.decay = 0;
        self.release = 0;
        self.sustain_divisor = 1;
        self.volume_divisor = 1;
        self.wave_form = WaveForm::Square;
        self.running = false;
        self.wave.frequency = 0;
        self.wave.volume_divisor = 0;
        self.wave.sustain_divisor = 0;
        self.wave.use_custom_params = false;
        self.wave.attack_samples = 0;
        self.wave.decay_samples = 0;
        self.wave.sustain_samples = 0;
        self.wave.release_samples = 0;
        self.wave.sample_inc = 0;
        self.request = WaveRequest::Reset;
    }

    /// Asks for the output device to run.
    pub fn start(&mut self)
        ensures
            *final(self) == (AudioState { running: true, ..*old(self) }),
    {
        self.running = true;
    }

    /// Records that the generator has been told what `request` asked for.
    pub fn acknowledge(&mut self)
        ensures
            *final(self) == (AudioState { request: WaveRequest::Idle, ..*old(self) }),
    {
        self.request = WaveRequest::Idle;
    }
}

} // verus!
