use vstd::prelude::*;
use crate::field::UseField;

verus! {

// Numeric sliders are carried as raw 32-bit sample words throughout this
// module; their numeric reading belongs to the effect engine, while the
// bridge only routes them between the flat record and the nested
// configuration. The enable flags are the one thing the bridge interprets.

/// Low-pass filter family used by the composite signal path.
#[derive(Clone, Copy, Debug, PartialEq, Eq, Structural)]
pub enum LowPassType {
    ConstantK,
    Butterworth,
}

/// Luma low-pass applied to the input signal.
#[derive(Clone, Copy, Debug, PartialEq, Eq, Structural)]
pub enum LumaFilter {
    Notch,
    BoxFilter,
    Off,
}

/// Chroma low-pass strength.
#[derive(Clone, Copy, Debug, PartialEq, Eq, Structural)]
pub enum ChromaLowpass {
    Full,
    Light,
    Off,
}

/// Per-scanline chroma phase shift.
#[derive(Clone, Copy, Debug, PartialEq, Eq, Structural)]
pub enum PhaseShift {
    Degrees0,
    Degrees90,
    Degrees180,
    Degrees270,
}

/// Chroma demodulation filter.
#[derive(Clone, Copy, Debug, PartialEq, Eq, Structural)]
pub enum ChromaDemodFilter {
    BoxFilter,
    Notch,
    OneLineComb,
    TwoLineComb,
}

/// Tape speed selector of the flat record; `Off` stands for the nested
/// configuration's "no tape speed emulation".
#[derive(Clone, Copy, Debug, PartialEq, Eq, Structural)]
pub enum TapeSpeed {
    StandardPlay,
    LongPlay,
    ExtendedPlay,
    Off,
}

/// Tape speeds the nested configuration distinguishes.
#[derive(Clone, Copy, Debug, PartialEq, Eq, Structural)]
pub enum VhsTapeSpeed {
    SP,
    LP,
    EP,
}

/// Head-switching simulation settings.
#[derive(Clone, Copy, Debug, PartialEq, Eq, Structural)]
pub struct HeadSwitchingSettings {
    pub height: u32,
    pub offset: u32,
    pub horiz_shift: u32,
}

/// Tracking-noise simulation settings.
#[derive(Clone, Copy, Debug, PartialEq, Eq, Structural)]
pub struct TrackingNoiseSettings {
    pub height: u32,
    pub wave_intensity: u32,
    pub snow_intensity: u32,
    pub snow_anisotropy: u32,
    pub noise_intensity: u32,
}

/// Ringing simulation settings.
#[derive(Clone, Copy, Debug, PartialEq, Eq, Structural)]
pub struct RingingSettings {
    pub frequency: u32,
    pub power: u32,
    pub intensity: u32,
}

/// Chroma-noise simulation settings.
#[derive(Clone, Copy, Debug, PartialEq, Eq, Structural)]
pub struct ChromaNoiseSettings {
    pub frequency: u32,
    pub intensity: u32,
    pub detail: u32,
}

/// Sharpening applied by the tape emulation.
#[derive(Clone, Copy, Debug, PartialEq, Eq, Structural)]
pub struct VhsSharpenSettings {
    pub intensity: u32,
    pub frequency: u32,
}

/// Edge-wave distortion applied by the tape emulation.
#[derive(Clone, Copy, Debug, PartialEq, Eq, Structural)]
pub struct VhsEdgeWaveSettings {
    pub intensity: u32,
    pub speed: u32,
    pub frequency: u32,
    pub detail: i32,
}

/// Tape emulation settings, with two optional sub-features of their own.
#[derive(Clone, Copy, Debug, PartialEq, Eq, Structural)]
pub struct VhsSettings {
    pub tape_speed: Option<VhsTapeSpeed>,
    pub chroma_loss: u32,
    pub sharpen: Option<VhsSharpenSettings>,
    pub edge_wave: Option<VhsEdgeWaveSettings>,
}

/// The fully resolved effect configuration: every optional feature is either
/// present with its settings or absent.
#[derive(Clone, Copy, Debug, PartialEq, Eq, Structural)]
pub struct EffectConfig {
    pub random_seed: i32,
    pub use_field: UseField,
    pub filter_type: LowPassType,
    pub input_luma_filter: LumaFilter,
    pub chroma_lowpass_in: ChromaLowpass,
    pub chroma_demodulation: ChromaDemodFilter,
    pub luma_smear: u32,
    pub composite_preemphasis: u32,
    pub video_scanline_phase_shift: PhaseShift,
    pub video_scanline_phase_shift_offset: i32,
    pub head_switching: Option<HeadSwitchingSettings>,
    pub tracking_noise: Option<TrackingNoiseSettings>,
    pub composite_noise_intensity: u32,
    pub ringing: Option<RingingSettings>,
    pub chroma_noise: Option<ChromaNoiseSettings>,
    pub snow_intensity: u32,
    pub snow_anisotropy: u32,
    pub chroma_phase_noise_intensity: u32,
    pub chroma_phase_error: u32,
    pub chroma_delay_horizontal: u32,
    pub chroma_delay_vertical: i32,
    pub vhs_settings: Option<VhsSettings>,
    pub chroma_vert_blend: bool,
    pub chroma_lowpass_out: ChromaLowpass,
    pub bandwidth_scale: u32,
}

/// The flat, UI-editable parameter record: one enable flag per optional
/// feature group plus one field per sub-setting. Sub-settings of a disabled
/// group are carried but inert.
#[derive(Clone, Copy, Debug, PartialEq, Eq, Structural)]
pub struct FlatParams {
    pub random_seed: i32,
    pub bandwidth_scale: u32,
    pub use_field: UseField,
    pub low_pass_type: LowPassType,
    pub input_luma_filter: LumaFilter,
    pub input_chroma_lowpass: ChromaLowpass,
    pub composite_preemphasis: u32,
    pub composite_noise: u32,
    pub snow: u32,
    pub snow_anisotropy: u32,
    pub scanline_phase_shift: PhaseShift,
    pub scanline_phase_shift_offset: i32,
    pub chroma_demod_filter: ChromaDemodFilter,
    pub luma_smear: u32,
    pub head_switching_enable: bool,
    pub head_switching_height: u32,
    pub head_switching_offset: u32,
    pub head_switching_horizontal_shift: u32,
    pub tracking_noise_enable: bool,
    pub tracking_noise_height: u32,
    pub tracking_noise_wave_intensity: u32,
    pub tracking_noise_snow_intensity: u32,
    pub tracking_noise_snow_anisotropy: u32,
    pub tracking_noise_noise_intensity: u32,
    pub ringing_enable: bool,
    pub ringing_frequency: u32,
    pub ringing_power: u32,
    pub ringing_scale: u32,
    pub chroma_noise_enable: bool,
    pub chroma_noise_intensity: u32,
    pub chroma_noise_frequency: u32,
    pub chroma_noise_detail: u32,
    pub chroma_phase_error: u32,
    pub chroma_phase_noise: u32,
    pub chroma_delay_horizontal: u32,
    pub chroma_delay_vertical: i32,
    pub vhs_enable: bool,
    pub vhs_tape_speed: TapeSpeed,
    pub vhs_chroma_loss: u32,
    pub vhs_sharpen_enable: bool,
    pub vhs_sharpen_intensity: u32,
    pub vhs_sharpen_frequency: u32,
    pub vhs_edge_wav_enable: bool,
    pub vhs_edge_wave_intensity: u32,
    pub vhs_edge_wave_speed: u32,
    pub vhs_edge_wave_frequency: u32,
    pub vhs_edge_wave_detail: i32,
    pub vertically_blend_chroma: bool,
    pub chroma_low_pass_out: ChromaLowpass,
}

/// Flat tape-speed selector for a nested optional tape speed.
pub open spec fn spec_tape_speed_to_flat(t: Option<VhsTapeSpeed>) -> TapeSpeed {
    match t {
        Some(VhsTapeSpeed::SP) => TapeSpeed::StandardPlay,
        Some(VhsTapeSpeed::LP) => TapeSpeed::LongPlay,
        Some(VhsTapeSpeed::EP) => TapeSpeed::ExtendedPlay,
        None => TapeSpeed::Off,
    }
}

/// Nested optional tape speed for a flat selector.
pub open spec fn spec_tape_speed_to_nested(t: TapeSpeed) -> Option<VhsTapeSpeed> {
    match t {
        TapeSpeed::StandardPlay => Some(VhsTapeSpeed::SP),
        TapeSpeed::LongPlay => Some(VhsTapeSpeed::LP),
        TapeSpeed::ExtendedPlay => Some(VhsTapeSpeed::EP),
        TapeSpeed::Off => None,
    }
}

/// The nested configuration a flat record denotes. Each group's enable flag
/// is the sole discriminant: a disabled group is absent whatever its inert
/// sub-settings hold.
pub open spec fn spec_config_from_flat(p: FlatParams) -> EffectConfig {
    EffectConfig {
        random_seed: p.random_seed,
        use_field: p.use_field,
        filter_type: p.low_pass_type,
        input_luma_filter: p.input_luma_filter,
        chroma_lowpass_in: p.input_chroma_lowpass,
        chroma_demodulation: p.chroma_demod_filter,
        luma_smear: p.luma_smear,
        composite_preemphasis: p.composite_preemphasis,
        video_scanline_phase_shift: p.scanline_phase_shift,
        video_scanline_phase_shift_offset: p.scanline_phase_shift_offset,
        head_switching: if p.head_switching_enable {
            Some(
                HeadSwitchingSettings {
                    height: p.head_switching_height,
                    offset: p.head_switching_offset,
                    horiz_shift: p.head_switching_horizontal_shift,
                },
            )
        } else {
            None
        },
        tracking_noise: if p.tracking_noise_enable {
            Some(
                TrackingNoiseSettings {
                    height: p.tracking_noise_height,
                    wave_intensity: p.tracking_noise_wave_intensity,
                    snow_intensity: p.tracking_noise_snow_intensity,
                    snow_anisotropy: p.tracking_noise_snow_anisotropy,
                    noise_intensity: p.tracking_noise_noise_intensity,
                },
            )
        } else {
            None
        },
        composite_noise_intensity: p.composite_noise,
        ringing: if p.ringing_enable {
            Some(
                RingingSettings {
                    frequency: p.ringing_frequency,
                    power: p.ringing_power,
                    intensity: p.ringing_scale,
                },
            )
        } else {
            None
        },
        chroma_noise: if p.chroma_noise_enable {
            Some(
                ChromaNoiseSettings {
                    frequency: p.chroma_noise_frequency,
                    intensity: p.chroma_noise_intensity,
                    detail: p.chroma_noise_detail,
                },
            )
        } else {
            None
        },
        snow_intensity: p.snow,
        snow_anisotropy: p.snow_anisotropy,
        chroma_phase_noise_intensity: p.chroma_phase_noise,
        chroma_phase_error: p.chroma_phase_error,
        chroma_delay_horizontal: p.chroma_delay_horizontal,
        chroma_delay_vertical: p.chroma_delay_vertical,
        vhs_settings: if p.vhs_enable {
            Some(
                VhsSettings {
                    tape_speed: spec_tape_speed_to_nested(p.vhs_tape_speed),
                    chroma_loss: p.vhs_chroma_loss,
                    sharpen: if p.vhs_sharpen_enable {
                        Some(
                            VhsSharpenSettings {
                                intensity: p.vhs_sharpen_intensity,
                                frequency: p.vhs_sharpen_frequency,
                            },
                        )
                    } else {
                        None
                    },
                    edge_wave: if p.vhs_edge_wav_enable {
                        Some(
                            VhsEdgeWaveSettings {
                                intensity: p.vhs_edge_wave_intensity,
                                speed: p.vhs_edge_wave_speed,
                                frequency: p.vhs_edge_wave_frequency,
                                detail: p.vhs_edge_wave_detail,
                            },
                        )
                    } else {
                        None
                    },
                },
            )
        } else {
            None
        },
        chroma_vert_blend: p.vertically_blend_chroma,
        chroma_lowpass_out: p.chroma_low_pass_out,
        bandwidth_scale: p.bandwidth_scale,
    }
}

/// The flat record a nested configuration denotes: absent groups read back as
/// disabled with zeroed sub-settings (and the default tape speed).
pub open spec fn spec_flat_from_config(c: EffectConfig) -> FlatParams {
    FlatParams {
        random_seed: c.random_seed,
        bandwidth_scale: c.bandwidth_scale,
        use_field: c.use_field,
        low_pass_type: c.filter_type,
        input_luma_filter: c.input_luma_filter,
        input_chroma_lowpass: c.chroma_lowpass_in,
        composite_preemphasis: c.composite_preemphasis,
        composite_noise: c.composite_noise_intensity,
        snow: c.snow_intensity,
        snow_anisotropy: c.snow_anisotropy,
        scanline_phase_shift: c.video_scanline_phase_shift,
        scanline_phase_shift_offset: c.video_scanline_phase_shift_offset,
        chroma_demod_filter: c.chroma_demodulation,
        luma_smear: c.luma_smear,
        head_switching_enable: c.head_switching is Some,
        head_switching_height: match c.head_switching {
            Some(hs) => hs.height,
            None => 0,
        },
        head_switching_offset: match c.head_switching {
            Some(hs) => hs.offset,
            None => 0,
        },
        head_switching_horizontal_shift: match c.head_switching {
            Some(hs) => hs.horiz_shift,
            None => 0,
        },
        tracking_noise_enable: c.tracking_noise is Some,
        tracking_noise_height: match c.tracking_noise {
            Some(tn) => tn.height,
            None => 0,
        },
        tracking_noise_wave_intensity: match c.tracking_noise {
            Some(tn) => tn.wave_intensity,
            None => 0,
        },
        tracking_noise_snow_intensity: match c.tracking_noise {
            Some(tn) => tn.snow_intensity,
            None => 0,
        },
        tracking_noise_snow_anisotropy: match c.tracking_noise {
            Some(tn) => tn.snow_anisotropy,
            None => 0,
        },
        tracking_noise_noise_intensity: match c.tracking_noise {
            Some(tn) => tn.noise_intensity,
            None => 0,
        },
        ringing_enable: c.ringing is Some,
        ringing_frequency: match c.ringing {
            Some(r) => r.frequency,
            None => 0,
        },
        ringing_power: match c.ringing {
            Some(r) => r.power,
            None => 0,
        },
        ringing_scale: match c.ringing {
            Some(r) => r.intensity,
            None => 0,
        },
        chroma_noise_enable: c.chroma_noise is Some,
        chroma_noise_intensity: match c.chroma_noise {
            Some(cn) => cn.intensity,
            None => 0,
        },
        chroma_noise_frequency: match c.chroma_noise {
            Some(cn) => cn.frequency,
            None => 0,
        },
        chroma_noise_detail: match c.chroma_noise {
            Some(cn) => cn.detail,
            None => 0,
        },
        chroma_phase_error: c.chroma_phase_error,
        chroma_phase_noise: c.chroma_phase_noise_intensity,
        chroma_delay_horizontal: c.chroma_delay_horizontal,
        chroma_delay_vertical: c.chroma_delay_vertical,
        vhs_enable: c.vhs_settings is Some,
        vhs_tape_speed: match c.vhs_settings {
            Some(v) => spec_tape_speed_to_flat(v.tape_speed),
            None => TapeSpeed::StandardPlay,
        },
        vhs_chroma_loss: match c.vhs_settings {
            Some(v) => v.chroma_loss,
            None => 0,
        },
        vhs_sharpen_enable: match c.vhs_settings {
            Some(v) => v.sharpen is Some,
            None => false,
        },
        vhs_sharpen_intensity: match c.vhs_settings {
            Some(v) => match v.sharpen {
                Some(s) => s.intensity,
                None => 0,
            },
            None => 0,
        },
        vhs_sharpen_frequency: match c.vhs_settings {
            Some(v) => match v.sharpen {
                Some(s) => s.frequency,
                None => 0,
            },
            None => 0,
        },
        vhs_edge_wav_enable: match c.vhs_settings {
            Some(v) => v.edge_wave is Some,
            None => false,
        },
        vhs_edge_wave_intensity: match c.vhs_settings {
            Some(v) => match v.edge_wave {
                Some(e) => e.intensity,
                None => 0,
            },
            None => 0,
        },
        vhs_edge_wave_speed: match c.vhs_settings {
            Some(v) => match v.edge_wave {
                Some(e) => e.speed,
                None => 0,
            },
            None => 0,
        },
        vhs_edge_wave_frequency: match c.vhs_settings {
            Some(v) => match v.edge_wave {
                Some(e) => e.frequency,
                None => 0,
            },
            None => 0,
        },
        vhs_edge_wave_detail: match c.vhs_settings {
            Some(v) => match v.edge_wave {
                Some(e) => e.detail,
                None => 0,
            },
            None => 0,
        },
        vertically_blend_chroma: c.chroma_vert_blend,
        chroma_low_pass_out: c.chroma_lowpass_out,
    }
}

/// Resolve a flat record into the nested configuration the engine consumes.
/// Each group's enable flag alone decides presence.
pub fn config_from_flat(p: &FlatParams) -> (r: EffectConfig)
    ensures
        r == spec_config_from_flat(*p),
{
    EffectConfig {
        random_seed: p.random_seed,
        use_field: p.use_field,
        filter_type: p.low_pass_type,
        input_luma_filter: p.input_luma_filter,
        chroma_lowpass_in: p.input_chroma_lowpass,
        chroma_demodulation: p.chroma_demod_filter,
        luma_smear: p.luma_smear,
        composite_preemphasis: p.composite_preemphasis,
        video_scanline_phase_shift: p.scanline_phase_shift,
        video_scanline_phase_shift_offset: p.scanline_phase_shift_offset,
        head_switching: if p.head_switching_enable {
            Some(
                HeadSwitchingSettings {
                    height: p.head_switching_height,
                    offset: p.head_switching_offset,
                    horiz_shift: p.head_switching_horizontal_shift,
                },
            )
        } else {
            None
        },
        tracking_noise: if p.tracking_noise_enable {
            Some(
                TrackingNoiseSettings {
                    height: p.tracking_noise_height,
                    wave_intensity: p.tracking_noise_wave_intensity,
                    snow_intensity: p.tracking_noise_snow_intensity,
                    snow_anisotropy: p.tracking_noise_snow_anisotropy,
                    noise_intensity: p.tracking_noise_noise_intensity,
                },
            )
        } else {
            None
        },
        composite_noise_intensity: p.composite_noise,
        ringing: if p.ringing_enable {
            Some(
                RingingSettings {
                    frequency: p.ringing_frequency,
                    power: p.ringing_power,
                    intensity: p.ringing_scale,
                },
            )
        } else {
            None
        },
        chroma_noise: if p.chroma_noise_enable {
            Some(
                ChromaNoiseSettings {
                    frequency: p.chroma_noise_frequency,
                    intensity: p.chroma_noise_intensity,
                    detail: p.chroma_noise_detail,
                },
            )
        } else {
            None
        },
        snow_intensity: p.snow,
        snow_anisotropy: p.snow_anisotropy,
        chroma_phase_noise_intensity: p.chroma_phase_noise,
        chroma_phase_error: p.chroma_phase_error,
        chroma_delay_horizontal: p.chroma_delay_horizontal,
        chroma_delay_vertical: p.chroma_delay_vertical,
        vhs_settings: if p.vhs_enable {
            Some(
                VhsSettings {
                    tape_speed: match p.vhs_tape_speed {
                        TapeSpeed::StandardPlay => Some(VhsTapeSpeed::SP),
                        TapeSpeed::LongPlay => Some(VhsTapeSpeed::LP),
                        TapeSpeed::ExtendedPlay => Some(VhsTapeSpeed::EP),
                        TapeSpeed::Off => None,
                    },
                    chroma_loss: p.vhs_chroma_loss,
                    sharpen: if p.vhs_sharpen_enable {
                        Some(
                            VhsSharpenSettings {
                                intensity: p.vhs_sharpen_intensity,
                                frequency: p.vhs_sharpen_frequency,
                            },
                        )
                    } else {
                        None
                    },
                    edge_wave: if p.vhs_edge_wav_enable {
                        Some(
                            VhsEdgeWaveSettings {
                                intensity: p.vhs_edge_wave_intensity,
                                speed: p.vhs_edge_wave_speed,
                                frequency: p.vhs_edge_wave_frequency,
                                detail: p.vhs_edge_wave_detail,
                            },
                        )
                    } else {
                        None
                    },
                },
            )
        } else {
            None
        },
        chroma_vert_blend: p.vertically_blend_chroma,
        chroma_lowpass_out: p.chroma_low_pass_out,
        bandwidth_scale: p.bandwidth_scale,
    }
}

/// Read a nested configuration back into a flat record, synthesizing zeroed
/// defaults (and the default tape speed) for whatever is absent.
pub fn flat_from_config(c: &EffectConfig) -> (r: FlatParams)
    ensures
        r == spec_flat_from_config(*c),
{
    let (head_switching_enable, head_switching_height, head_switching_offset, head_switching_horizontal_shift):
        (bool, u32, u32, u32) = match c.head_switching {
        Some(hs) => (true, hs.height, hs.offset, hs.horiz_shift),
        None => (false, 0, 0, 0),
    };
    let (tracking_noise_enable, tracking_noise_height, tracking_noise_wave_intensity, tracking_noise_snow_intensity, tracking_noise_snow_anisotropy, tracking_noise_noise_intensity):
        (bool, u32, u32, u32, u32, u32) = match c.tracking_noise {
        Some(tn) => (
            true,
            tn.height,
            tn.wave_intensity,
            tn.snow_intensity,
            tn.snow_anisotropy,
            tn.noise_intensity,
        ),
        None => (false, 0, 0, 0, 0, 0),
    };
    let (ringing_enable, ringing_frequency, ringing_power, ringing_scale): (bool, u32, u32, u32) =
        match c.ringing {
        Some(r) => (true, r.frequency, r.power, r.intensity),
        None => (false, 0, 0, 0),
    };
    let (chroma_noise_enable, chroma_noise_intensity, chroma_noise_frequency, chroma_noise_detail):
        (bool, u32, u32, u32) = match c.chroma_noise {
        Some(cn) => (true, cn.intensity, cn.frequency, cn.detail),
        None => (false, 0, 0, 0),
    };
    let (vhs_enable, vhs_tape_speed, vhs_chroma_loss, vhs_sharpen_enable, vhs_sharpen_intensity, vhs_sharpen_frequency, vhs_edge_wav_enable, vhs_edge_wave_intensity, vhs_edge_wave_speed, vhs_edge_wave_frequency, vhs_edge_wave_detail):
        (bool, TapeSpeed, u32, bool, u32, u32, bool, u32, u32, u32, i32) = match c.vhs_settings {
        Some(v) => {
            let tape_speed = match v.tape_speed {
                Some(VhsTapeSpeed::SP) => TapeSpeed::StandardPlay,
                Some(VhsTapeSpeed::LP) => TapeSpeed::LongPlay,
                Some(VhsTapeSpeed::EP) => TapeSpeed::ExtendedPlay,
                None => TapeSpeed::Off,
            };
            let (sharpen_enable, sharpen_intensity, sharpen_frequency): (bool, u32, u32) =
                match v.sharpen {
                Some(s) => (true, s.intensity, s.frequency),
                None => (false, 0, 0),
            };
            let (ew_enable, ew_intensity, ew_speed, ew_frequency, ew_detail): (
                bool,
                u32,
                u32,
                u32,
                i32,
            ) = match v.edge_wave {
                Some(e) => (true, e.intensity, e.speed, e.frequency, e.detail),
                None => (false, 0, 0, 0, 0),
            };
            (
                true,
                tape_speed,
                v.chroma_loss,
                sharpen_enable,
                sharpen_intensity,
                sharpen_frequency,
                ew_enable,
                ew_intensity,
                ew_speed,
                ew_frequency,
                ew_detail,
            )
        },
        None => (false, TapeSpeed::StandardPlay, 0, false, 0, 0, false, 0, 0, 0, 0),
    };
    FlatParams {
        random_seed: c.random_seed,
        bandwidth_scale: c.bandwidth_scale,
        use_field: c.use_field,
        low_pass_type: c.filter_type,
        input_luma_filter: c.input_luma_filter,
        input_chroma_lowpass: c.chroma_lowpass_in,
        composite_preemphasis: c.composite_preemphasis,
        composite_noise: c.composite_noise_intensity,
        snow: c.snow_intensity,
        snow_anisotropy: c.snow_anisotropy,
        scanline_phase_shift: c.video_scanline_phase_shift,
        scanline_phase_shift_offset: c.video_scanline_phase_shift_offset,
        chroma_demod_filter: c.chroma_demodulation,
        luma_smear: c.luma_smear,
        head_switching_enable,
        head_switching_height,
        head_switching_offset,
        head_switching_horizontal_shift,
        tracking_noise_enable,
        tracking_noise_height,
        tracking_noise_wave_intensity,
        tracking_noise_snow_intensity,
        tracking_noise_snow_anisotropy,
        tracking_noise_noise_intensity,
        ringing_enable,
        ringing_frequency,
        ringing_power,
        ringing_scale,
        chroma_noise_enable,
        chroma_noise_intensity,
        chroma_noise_frequency,
        chroma_noise_detail,
        chroma_phase_error: c.chroma_phase_error,
        chroma_phase_noise: c.chroma_phase_noise_intensity,
        chroma_delay_horizontal: c.chroma_delay_horizontal,
        chroma_delay_vertical: c.chroma_delay_vertical,
        vhs_enable,
        vhs_tape_speed,
        vhs_chroma_loss,
        vhs_sharpen_enable,
        vhs_sharpen_intensity,
        vhs_sharpen_frequency,
        vhs_edge_wav_enable,
        vhs_edge_wave_intensity,
        vhs_edge_wave_speed,
        vhs_edge_wave_frequency,
        vhs_edge_wave_detail,
        vertically_blend_chroma: c.chroma_vert_blend,
        chroma_low_pass_out: c.chroma_lowpass_out,
    }
}

/// Bridging a nested configuration to the flat record and back is lossless:
/// every configuration survives the round trip exactly.
pub proof fn lemma_config_round_trip(c: EffectConfig)
    ensures
        spec_config_from_flat(spec_flat_from_config(c)) == c,
{
}

/// Every group's enable flag survives flat to nested and back, whatever the
/// group's inert sub-settings hold.
pub proof fn lemma_enable_flags_survive(p: FlatParams)
    ensures
        spec_flat_from_config(spec_config_from_flat(p)).head_switching_enable
            == p.head_switching_enable,
        spec_flat_from_config(spec_config_from_flat(p)).tracking_noise_enable
            == p.tracking_noise_enable,
        spec_flat_from_config(spec_config_from_flat(p)).ringing_enable == p.ringing_enable,
        spec_flat_from_config(spec_config_from_flat(p)).chroma_noise_enable
            == p.chroma_noise_enable,
        spec_flat_from_config(spec_config_from_flat(p)).vhs_enable == p.vhs_enable,
        p.vhs_enable ==> spec_flat_from_config(spec_config_from_flat(p)).vhs_sharpen_enable
            == p.vhs_sharpen_enable,
        p.vhs_enable ==> spec_flat_from_config(spec_config_from_flat(p)).vhs_edge_wav_enable
            == p.vhs_edge_wav_enable,
{
}

/// The sub-settings of every enabled group survive flat to nested and back
/// exactly; fields outside the optional groups always survive.
pub proof fn lemma_enabled_groups_round_trip(p: FlatParams)
    ensures
        ({
            let rt = spec_flat_from_config(spec_config_from_flat(p));
            &&& rt.random_seed == p.random_seed
            &&& rt.bandwidth_scale == p.bandwidth_scale
            &&& rt.use_field == p.use_field
            &&& rt.low_pass_type == p.low_pass_type
            &&& rt.input_luma_filter == p.input_luma_filter
            &&& rt.input_chroma_lowpass == p.input_chroma_lowpass
            &&& rt.composite_preemphasis == p.composite_preemphasis
            &&& rt.composite_noise == p.composite_noise
            &&& rt.snow == p.snow
            &&& rt.snow_anisotropy == p.snow_anisotropy
            &&& rt.scanline_phase_shift == p.scanline_phase_shift
            &&& rt.scanline_phase_shift_offset == p.scanline_phase_shift_offset
            &&& rt.chroma_demod_filter == p.chroma_demod_filter
            &&& rt.luma_smear == p.luma_smear
            &&& rt.chroma_phase_error == p.chroma_phase_error
            &&& rt.chroma_phase_noise == p.chroma_phase_noise
            &&& rt.chroma_delay_horizontal == p.chroma_delay_horizontal
            &&& rt.chroma_delay_vertical == p.chroma_delay_vertical
            &&& rt.vertically_blend_chroma == p.vertically_blend_chroma
            &&& rt.chroma_low_pass_out == p.chroma_low_pass_out
            &&& p.head_switching_enable ==> {
                &&& rt.head_switching_height == p.head_switching_height
                &&& rt.head_switching_offset == p.head_switching_offset
                &&& rt.head_switching_horizontal_shift == p.head_switching_horizontal_shift
            }
            &&& p.tracking_noise_enable ==> {
                &&& rt.tracking_noise_height == p.tracking_noise_height
                &&& rt.tracking_noise_wave_intensity == p.tracking_noise_wave_intensity
                &&& rt.tracking_noise_snow_intensity == p.tracking_noise_snow_intensity
                &&& rt.tracking_noise_snow_anisotropy == p.tracking_noise_snow_anisotropy
                &&& rt.tracking_noise_noise_intensity == p.tracking_noise_noise_intensity
            }
            &&& p.ringing_enable ==> {
                &&& rt.ringing_frequency == p.ringing_frequency
                &&& rt.ringing_power == p.ringing_power
                &&& rt.ringing_scale == p.ringing_scale
            }
            &&& p.chroma_noise_enable ==> {
                &&& rt.chroma_noise_intensity == p.chroma_noise_intensity
                &&& rt.chroma_noise_frequency == p.chroma_noise_frequency
                &&& rt.chroma_noise_detail == p.chroma_noise_detail
            }
            &&& p.vhs_enable ==> {
                &&& rt.vhs_tape_speed == p.vhs_tape_speed
                &&& rt.vhs_chroma_loss == p.vhs_chroma_loss
                &&& p.vhs_sharpen_enable ==> {
                    &&& rt.vhs_sharpen_intensity == p.vhs_sharpen_intensity
                    &&& rt.vhs_sharpen_frequency == p.vhs_sharpen_frequency
                }
                &&& p.vhs_edge_wav_enable ==> {
                    &&& rt.vhs_edge_wave_intensity == p.vhs_edge_wave_intensity
                    &&& rt.vhs_edge_wave_speed == p.vhs_edge_wave_speed
                    &&& rt.vhs_edge_wave_frequency == p.vhs_edge_wave_frequency
                    &&& rt.vhs_edge_wave_detail == p.vhs_edge_wave_detail
                }
            }
        }),
{
}

} // verus!
