use chip16::audio::{
    wave_form_from_num, AudioState, EnvelopePoint, EnvelopeStage, Ratio, WaveForm, WaveRequest,
    WaveSettings, ATTACK_DURATIONS, AUDIO_SAMPLE_RATE, DECAY_DURATIONS, RELEASE_DURATIONS,
    SAMPLES_PER_MS,
};

#[test]
fn waveform_indices() {
    assert_eq!(wave_form_from_num(0), Ok(WaveForm::Triangle));
    assert_eq!(wave_form_from_num(1), Ok(WaveForm::Sawtooth));
    assert_eq!(wave_form_from_num(2), Ok(WaveForm::Square));
    assert_eq!(wave_form_from_num(3), Ok(WaveForm::Noise));
    assert_eq!(wave_form_from_num(4), Err("Invalid wave type index".to_string()));
    assert_eq!(wave_form_from_num(255), Err("Invalid wave type index".to_string()));
}

#[test]
fn duration_tables() {
    assert_eq!(
        ATTACK_DURATIONS,
        [2, 8, 16, 24, 38, 56, 68, 80, 100, 250, 500, 800, 1000, 3000, 5000, 8000]
    );
    assert_eq!(
        DECAY_DURATIONS,
        [6, 24, 48, 72, 114, 168, 204, 240, 300, 750, 1500, 2400, 3000, 9000, 15000, 24000]
    );
    assert_eq!(RELEASE_DURATIONS, DECAY_DURATIONS);
    assert_eq!(AUDIO_SAMPLE_RATE, 48_000);
    assert_eq!(SAMPLES_PER_MS * 1000, AUDIO_SAMPLE_RATE);
}

#[test]
fn a_new_generator_is_quiet() {
    let audio = AudioState::new();
    assert!(!audio.playing);
    assert!(!audio.running);
    assert!(!audio.use_custom_params);
    assert_eq!(audio.request, WaveRequest::Idle);
    assert_eq!(audio.frequency, 0);
    assert_eq!(audio.total_duration_ms, 0);
    assert_eq!((audio.attack, audio.decay, audio.release), (0, 0, 0));
    assert_eq!(audio.wave.sample_inc, 0);
    assert_eq!(audio.wave.volume_divisor, 0);
}

#[test]
fn play_sound_is_a_square_wave_at_unit_volume() {
    let mut audio = AudioState::new();
    audio.set_params(3, 4, 5, 6, 7, 0).expect("the waveform exists");
    audio.play_sound(1000, 250);
    assert_eq!(audio.frequency, 1000);
    assert_eq!(audio.duration_ms, 250);
    assert_eq!(audio.total_duration_ms, 250);
    assert_eq!(audio.wave_form, WaveForm::Square);
    assert_eq!(audio.volume_divisor, 1);
    assert!(!audio.use_custom_params);
    assert!(audio.playing && audio.running);
    assert_eq!(audio.request, WaveRequest::Load);
    assert_eq!(audio.wave.wave_form, WaveForm::Square);
    assert!(!audio.wave.use_custom_params);
    assert_eq!(
        audio.wave.envelope_point(12345),
        EnvelopePoint { stage: EnvelopeStage::Bypass, elapsed: 0, length: 0 }
    );
}

#[test]
fn set_params_stores_levels_as_divisors() {
    let mut audio = AudioState::new();
    assert_eq!(audio.set_params(15, 14, 0, 13, 15, 3), Ok(()));
    assert_eq!((audio.attack, audio.decay, audio.release), (15, 14, 13));
    // sustain 0 is 1/32 of unit, volume 15 is 1/2
    assert_eq!(audio.sustain_divisor, 32);
    assert_eq!(audio.volume_divisor, 2);
    assert_eq!(audio.wave_form, WaveForm::Noise);
    assert!(!audio.playing);
    assert_eq!(audio.request, WaveRequest::Idle);
}

#[test]
fn set_params_fails_on_the_waveform_after_storing_the_rest() {
    let mut audio = AudioState::new();
    assert_eq!(audio.set_params(1, 2, 3, 4, 5, 9), Err("Invalid wave type index".to_string()));
    assert_eq!((audio.attack, audio.decay, audio.release), (1, 2, 4));
    assert_eq!(audio.sustain_divisor, 26);
    assert_eq!(audio.volume_divisor, 22);
    assert_eq!(audio.wave_form, WaveForm::Square);
}

#[test]
fn the_envelope_of_a_long_tone() {
    let mut audio = AudioState::new();
    audio.set_params(8, 8, 8, 8, 8, 0).expect("the waveform exists");
    audio.play_custom_sound(440, 1000);
    // attack 100, decay 300, sustain 1000 - 400, release 300
    assert_eq!(audio.total_duration_ms, 1300);
    assert_eq!(audio.wave.attack_samples, 4800);
    assert_eq!(audio.wave.decay_samples, 14400);
    assert_eq!(audio.wave.sustain_samples, 28800);
    assert_eq!(audio.wave.release_samples, 14400);
    assert_eq!(audio.wave.sample_inc, 1);
    assert_eq!(audio.wave.volume_divisor, 16);
    assert_eq!(audio.wave.sustain_divisor, 16);
    assert_eq!(audio.wave.wave_form, WaveForm::Triangle);
    assert!(audio.wave.use_custom_params);
    assert!(audio.playing && audio.running);
}

#[test]
fn a_tone_shorter_than_attack_and_decay_has_no_sustain() {
    let mut audio = AudioState::new();
    audio.set_params(8, 8, 8, 8, 8, 0).expect("the waveform exists");
    audio.play_custom_sound(440, 400);
    assert_eq!(audio.wave.sustain_samples, 0);
    assert_eq!(audio.total_duration_ms, 700);
    audio.play_custom_sound(440, 401);
    assert_eq!(audio.wave.sustain_samples, 48);
    assert_eq!(audio.total_duration_ms, 701);
    audio.play_custom_sound(440, 0);
    assert_eq!(audio.wave.sustain_samples, 0);
    assert_eq!(audio.total_duration_ms, 700);
}

#[test]
fn the_longest_envelope() {
    let mut audio = AudioState::new();
    audio.set_params(15, 15, 0, 15, 0, 2).expect("the waveform exists");
    audio.play_custom_sound(65535, 65535);
    assert_eq!(audio.frequency, 65535);
    // 8000 + 24000 + (65535 - 32000) + 24000
    assert_eq!(audio.total_duration_ms, 89535);
    assert_eq!(audio.wave.attack_samples, 384_000);
    assert_eq!(audio.wave.decay_samples, 1_152_000);
    assert_eq!(audio.wave.sustain_samples, 33535 * 48);
    assert_eq!(audio.wave.release_samples, 1_152_000);
}

#[test]
fn envelope_stages_follow_one_another() {
    let mut audio = AudioState::new();
    audio.set_params(0, 0, 8, 0, 8, 0).expect("the waveform exists");
    // attack 2 ms, decay 6 ms, sustain 2 ms, release 6 ms
    audio.play_custom_sound(440, 10);
    let wave = audio.wave;
    assert_eq!((wave.attack_samples, wave.decay_samples), (96, 288));
    assert_eq!((wave.sustain_samples, wave.release_samples), (96, 288));
    let point = |stage, elapsed, length| EnvelopePoint { stage, elapsed, length };
    assert_eq!(wave.envelope_point(0), point(EnvelopeStage::Attack, 0, 96));
    assert_eq!(wave.envelope_point(48), point(EnvelopeStage::Attack, 48, 96));
    assert_eq!(wave.envelope_point(96), point(EnvelopeStage::Attack, 96, 96));
    assert_eq!(wave.envelope_point(97), point(EnvelopeStage::Decay, 1, 288));
    assert_eq!(wave.envelope_point(384), point(EnvelopeStage::Decay, 288, 288));
    assert_eq!(wave.envelope_point(385), point(EnvelopeStage::Sustain, 0, 0));
    assert_eq!(wave.envelope_point(480), point(EnvelopeStage::Sustain, 0, 0));
    assert_eq!(wave.envelope_point(481), point(EnvelopeStage::Release, 1, 288));
    assert_eq!(wave.envelope_point(768), point(EnvelopeStage::Release, 288, 288));
    assert_eq!(wave.envelope_point(769), point(EnvelopeStage::Done, 0, 0));
    assert_eq!(wave.envelope_point(u32::MAX), point(EnvelopeStage::Done, 0, 0));
}

#[test]
fn a_tone_is_finished_once_its_envelope_has_passed() {
    let mut audio = AudioState::new();
    assert!(!audio.is_finished(u128::MAX));
    audio.play_sound(500, 100);
    assert!(!audio.is_finished(0));
    assert!(!audio.is_finished(100_000_000));
    assert!(audio.is_finished(100_000_001));
    audio.set_params(0, 0, 8, 0, 8, 0).expect("the waveform exists");
    audio.play_custom_sound(440, 10);
    assert!(!audio.is_finished(16_000_000));
    assert!(audio.is_finished(16_000_001));
}

#[test]
fn clear_goes_back_to_the_power_on_settings() {
    let mut audio = AudioState::new();
    audio.set_params(1, 2, 3, 4, 5, 1).expect("the waveform exists");
    audio.play_custom_sound(440, 100);
    let total = audio.total_duration_ms;
    audio.clear();
    assert!(!audio.playing && !audio.running && !audio.use_custom_params);
    assert_eq!((audio.attack, audio.decay, audio.release), (0, 0, 0));
    assert_eq!(audio.sustain_divisor, 1);
    assert_eq!(audio.volume_divisor, 1);
    assert_eq!(audio.wave_form, WaveForm::Square);
    assert_eq!(audio.frequency, 0);
    assert_eq!(audio.duration_ms, 0);
    assert_eq!(audio.total_duration_ms, total);
    assert_eq!(audio.request, WaveRequest::Reset);
    assert_eq!(audio.wave.sample_inc, 0);
    assert_eq!(audio.wave.frequency, 0);
    assert_eq!(audio.wave.wave_form, WaveForm::Sawtooth);
    assert!(!audio.is_finished(u128::MAX));
}

#[test]
fn start_and_acknowledge() {
    let mut audio = AudioState::new();
    audio.start();
    assert!(audio.running);
    audio.update_wave();
    assert!(audio.playing);
    assert_eq!(audio.request, WaveRequest::Load);
    audio.acknowledge();
    assert_eq!(audio.request, WaveRequest::Idle);
    assert!(audio.playing);
}

#[test]
fn the_volume_follows_the_envelope() {
    let mut audio = AudioState::new();
    // peak 1/2, sustain 1/8; attack 96 samples, decay 288, sustain 96, release 288
    audio.set_params(0, 0, 12, 0, 15, 0).expect("the waveform exists");
    audio.play_custom_sound(440, 10);
    let wave = audio.wave;
    let value = |r: Ratio| r.num as f64 / r.den as f64;
    assert_eq!(wave.volume(0), Ratio { num: 0, den: 192 });
    // half way up the attack: half the peak
    assert_eq!(wave.volume(48), Ratio { num: 48, den: 192 });
    assert_eq!(value(wave.volume(48)), 0.25);
    assert_eq!(value(wave.volume(96)), 0.5);
    // half way down the decay: between the peak and the sustain level
    assert_eq!(wave.volume(240), Ratio { num: 1440, den: 4608 });
    assert_eq!(value(wave.volume(240)), 0.3125);
    assert_eq!(value(wave.volume(384)), 0.125);
    assert_eq!(wave.volume(400), Ratio { num: 1, den: 8 });
    assert_eq!(wave.volume(480), Ratio { num: 1, den: 8 });
    // a quarter into the release: three quarters of the sustain level
    assert_eq!(wave.volume(552), Ratio { num: 216, den: 2304 });
    assert_eq!(value(wave.volume(552)), 0.09375);
    assert_eq!(value(wave.volume(768)), 0.0);
    assert_eq!(wave.volume(769), Ratio { num: 0, den: 1 });
}

#[test]
fn a_sustain_level_above_the_peak_makes_the_decay_rise() {
    let mut audio = AudioState::new();
    // peak 1/32, sustain 1/2
    audio.set_params(0, 0, 15, 0, 0, 0).expect("the waveform exists");
    audio.play_custom_sound(440, 10);
    let wave = audio.wave;
    assert_eq!(wave.volume(96), Ratio { num: 96, den: 32 * 96 });
    // 1/2 + (1/32 - 1/2) * 1/2 = 17/64
    let middle = wave.volume(240);
    assert_eq!(middle, Ratio { num: 32 * 288 - 30 * 144, den: 64 * 288 });
    assert_eq!(middle.num as f64 / middle.den as f64, 17.0 / 64.0);
}

#[test]
fn fixed_tones_play_at_unit_volume() {
    let mut audio = AudioState::new();
    audio.play_sound(500, 100);
    assert_eq!(audio.wave.volume(0), Ratio { num: 1, den: 1 });
    assert_eq!(audio.wave.volume(1_000_000), Ratio { num: 1, den: 1 });
}

#[test]
fn volume_at_the_edges_of_the_settings() {
    let mut wave = WaveSettings {
        frequency: 440,
        use_custom_params: true,
        volume_divisor: 0,
        sustain_divisor: 0,
        attack_samples: 0,
        decay_samples: 0,
        sustain_samples: 0,
        release_samples: 0,
        sample_inc: 1,
        wave_form: WaveForm::Noise,
    };
    // levels of zero are silence; an attack of no length has no slope
    assert_eq!(wave.volume(0), Ratio { num: 0, den: 1 });
    assert_eq!(wave.volume(1), Ratio { num: 0, den: 1 });
    wave.volume_divisor = 4;
    assert_eq!(wave.volume(0), Ratio { num: 1, den: 4 });
    // the largest settings do not overflow
    wave.volume_divisor = 255;
    wave.sustain_divisor = 255;
    wave.attack_samples = u32::MAX;
    assert_eq!(wave.volume(u32::MAX), Ratio { num: 0xFFFF_FFFF, den: 255 * 0xFFFF_FFFF });
    wave.attack_samples = 0;
    wave.decay_samples = u32::MAX;
    wave.sustain_divisor = 1;
    let r = wave.volume(u32::MAX);
    assert_eq!(r, Ratio { num: 255 * 0xFFFF_FFFF, den: 255 * 0xFFFF_FFFF });
}
