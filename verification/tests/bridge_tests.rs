use vhs_pipeline::bridge::{
    config_from_flat, flat_from_config, ChromaDemodFilter, ChromaLowpass, EffectConfig,
    FlatParams, HeadSwitchingSettings, LowPassType, LumaFilter, PhaseShift, RingingSettings,
    TapeSpeed, TrackingNoiseSettings, VhsEdgeWaveSettings, VhsSettings, VhsSharpenSettings,
    VhsTapeSpeed,
};
use vhs_pipeline::field::UseField;

fn flat_zero() -> FlatParams {
    FlatParams {
        random_seed: 0,
        bandwidth_scale: 0,
        use_field: UseField::Alternating,
        low_pass_type: LowPassType::ConstantK,
        input_luma_filter: LumaFilter::Notch,
        input_chroma_lowpass: ChromaLowpass::Full,
        composite_preemphasis: 0,
        composite_noise: 0,
        snow: 0,
        snow_anisotropy: 0,
        scanline_phase_shift: PhaseShift::Degrees0,
        scanline_phase_shift_offset: 0,
        chroma_demod_filter: ChromaDemodFilter::BoxFilter,
        luma_smear: 0,
        head_switching_enable: false,
        head_switching_height: 0,
        head_switching_offset: 0,
        head_switching_horizontal_shift: 0,
        tracking_noise_enable: false,
        tracking_noise_height: 0,
        tracking_noise_wave_intensity: 0,
        tracking_noise_snow_intensity: 0,
        tracking_noise_snow_anisotropy: 0,
        tracking_noise_noise_intensity: 0,
        ringing_enable: false,
        ringing_frequency: 0,
        ringing_power: 0,
        ringing_scale: 0,
        chroma_noise_enable: false,
        chroma_noise_intensity: 0,
        chroma_noise_frequency: 0,
        chroma_noise_detail: 0,
        chroma_phase_error: 0,
        chroma_phase_noise: 0,
        chroma_delay_horizontal: 0,
        chroma_delay_vertical: 0,
        vhs_enable: false,
        vhs_tape_speed: TapeSpeed::StandardPlay,
        vhs_chroma_loss: 0,
        vhs_sharpen_enable: false,
        vhs_sharpen_intensity: 0,
        vhs_sharpen_frequency: 0,
        vhs_edge_wav_enable: false,
        vhs_edge_wave_intensity: 0,
        vhs_edge_wave_speed: 0,
        vhs_edge_wave_frequency: 0,
        vhs_edge_wave_detail: 0,
        vertically_blend_chroma: false,
        chroma_low_pass_out: ChromaLowpass::Full,
    }
}

#[test]
fn disabled_group_stays_disabled_despite_nonsense_sub_settings() {
    let mut flat = flat_zero();
    flat.head_switching_enable = false;
    flat.head_switching_height = 999;
    flat.head_switching_offset = 123;
    flat.head_switching_horizontal_shift = 0xDEAD;
    flat.tracking_noise_enable = false;
    flat.tracking_noise_wave_intensity = 7;
    flat.ringing_enable = false;
    flat.ringing_power = 55;
    flat.chroma_noise_enable = false;
    flat.chroma_noise_detail = 4;
    flat.vhs_enable = false;
    flat.vhs_chroma_loss = 31;

    let config = config_from_flat(&flat);
    assert!(config.head_switching.is_none());
    assert!(config.tracking_noise.is_none());
    assert!(config.ringing.is_none());
    assert!(config.chroma_noise.is_none());
    assert!(config.vhs_settings.is_none());

    let back = flat_from_config(&config);
    assert!(!back.head_switching_enable);
    assert!(!back.tracking_noise_enable);
    assert!(!back.ringing_enable);
    assert!(!back.chroma_noise_enable);
    assert!(!back.vhs_enable);
    assert!(!back.vhs_sharpen_enable);
    assert!(!back.vhs_edge_wav_enable);
}

#[test]
fn enabled_groups_round_trip_every_sub_setting() {
    let mut flat = flat_zero();
    flat.random_seed = -77;
    flat.bandwidth_scale = 1000;
    flat.use_field = UseField::InterleavedLower;
    flat.low_pass_type = LowPassType::Butterworth;
    flat.input_luma_filter = LumaFilter::Off;
    flat.input_chroma_lowpass = ChromaLowpass::Light;
    flat.scanline_phase_shift = PhaseShift::Degrees270;
    flat.scanline_phase_shift_offset = 3;
    flat.chroma_demod_filter = ChromaDemodFilter::TwoLineComb;
    flat.head_switching_enable = true;
    flat.head_switching_height = 6;
    flat.head_switching_offset = 3;
    flat.head_switching_horizontal_shift = 72;
    flat.tracking_noise_enable = true;
    flat.tracking_noise_height = 12;
    flat.tracking_noise_wave_intensity = 5;
    flat.tracking_noise_snow_intensity = 3;
    flat.tracking_noise_snow_anisotropy = 9;
    flat.tracking_noise_noise_intensity = 2;
    flat.ringing_enable = true;
    flat.ringing_frequency = 45;
    flat.ringing_power = 4;
    flat.ringing_scale = 1;
    flat.chroma_noise_enable = true;
    flat.chroma_noise_intensity = 10;
    flat.chroma_noise_frequency = 40;
    flat.chroma_noise_detail = 1;
    flat.vhs_enable = true;
    flat.vhs_tape_speed = TapeSpeed::ExtendedPlay;
    flat.vhs_chroma_loss = 8;
    flat.vhs_sharpen_enable = true;
    flat.vhs_sharpen_intensity = 25;
    flat.vhs_sharpen_frequency = 100;
    flat.vhs_edge_wav_enable = true;
    flat.vhs_edge_wave_intensity = 50;
    flat.vhs_edge_wave_speed = 40;
    flat.vhs_edge_wave_frequency = 50;
    flat.vhs_edge_wave_detail = -2;
    flat.vertically_blend_chroma = true;
    flat.chroma_low_pass_out = ChromaLowpass::Off;

    let back = flat_from_config(&config_from_flat(&flat));
    assert_eq!(back, flat);
}

#[test]
fn nested_to_flat_to_nested_is_identity() {
    let config = EffectConfig {
        random_seed: 42,
        use_field: UseField::Upper,
        filter_type: LowPassType::Butterworth,
        input_luma_filter: LumaFilter::BoxFilter,
        chroma_lowpass_in: ChromaLowpass::Off,
        chroma_demodulation: ChromaDemodFilter::OneLineComb,
        luma_smear: 17,
        composite_preemphasis: 5,
        video_scanline_phase_shift: PhaseShift::Degrees90,
        video_scanline_phase_shift_offset: -1,
        head_switching: Some(HeadSwitchingSettings { height: 8, offset: 3, horiz_shift: 90 }),
        tracking_noise: None,
        composite_noise_intensity: 2,
        ringing: Some(RingingSettings { frequency: 450, power: 5, intensity: 2 }),
        chroma_noise: None,
        snow_intensity: 3,
        snow_anisotropy: 6,
        chroma_phase_noise_intensity: 1,
        chroma_phase_error: 9,
        chroma_delay_horizontal: 4,
        chroma_delay_vertical: -3,
        vhs_settings: Some(VhsSettings {
            tape_speed: None,
            chroma_loss: 12,
            sharpen: Some(VhsSharpenSettings { intensity: 30, frequency: 44 }),
            edge_wave: Some(VhsEdgeWaveSettings { intensity: 2, speed: 7, frequency: 9, detail: 3 }),
        }),
        chroma_vert_blend: true,
        chroma_lowpass_out: ChromaLowpass::Light,
        bandwidth_scale: 900,
    };
    let round = config_from_flat(&flat_from_config(&config));
    assert_eq!(round, config);
}

#[test]
fn tape_speed_off_maps_to_absent_and_back() {
    let mut flat = flat_zero();
    flat.vhs_enable = true;
    flat.vhs_tape_speed = TapeSpeed::Off;
    let config = config_from_flat(&flat);
    let vhs = config.vhs_settings.expect("group enabled");
    assert_eq!(vhs.tape_speed, None);
    let back = flat_from_config(&config);
    assert_eq!(back.vhs_tape_speed, TapeSpeed::Off);

    let mut flat2 = flat_zero();
    flat2.vhs_enable = true;
    flat2.vhs_tape_speed = TapeSpeed::LongPlay;
    let config2 = config_from_flat(&flat2);
    assert_eq!(config2.vhs_settings.unwrap().tape_speed, Some(VhsTapeSpeed::LP));
}
