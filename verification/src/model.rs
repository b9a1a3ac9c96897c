use vstd::prelude::*;

verus! {

/// Number of automatable controls of the plugin.
pub const CONTROL_COUNT: usize = 40;

/// Labels of the oversampling choice, in the order of its values.
pub const OVERSAMPLING_LABELS: [&'static str; 5] = ["Off", "2x", "4x", "6x", "8x"];

/// Labels of the compressor mode choice, in the order of its values.
pub const COMPRESSOR_MODE_LABELS: [&'static str; 3] = ["Down", "Up", "Boost"];

/// One automatable control of the plugin.
#[derive(Clone, Copy, Debug, PartialEq, Eq, Structural, Hash)]
pub enum ControlId {
    InputLevel,
    InputPan,
    OutputLevel,
    OutputPan,
    GlobalMix,
    Oversampling,
    GlobalPhase,
    FxBypass,
    DistortionEnabled,
    DistSaturation,
    Harmonic2,
    Harmonic3,
    Harmonic4,
    Harmonic5,
    Harmonic6,
    Harmonic7,
    DistMix,
    DistPhase,
    DistHpf,
    DistHpSlope,
    DistLpf,
    DistLpSlope,
    FilterEnabled,
    FilterHpf,
    FilterHpSlope,
    FilterHpRes,
    FilterLpf,
    FilterLpSlope,
    FilterLpRes,
    CompressorEnabled,
    CompMode,
    CompRatio,
    CompKnee,
    CompMakeup,
    CompBoost,
    CompAttackThreshold,
    CompAttackMs,
    CompReleaseThreshold,
    CompReleaseMs,
    CompHold,
}

/// Every control, in the order of its index.
pub const ALL_CONTROLS: [ControlId; CONTROL_COUNT] = [
    ControlId::InputLevel,
    ControlId::InputPan,
    ControlId::OutputLevel,
    ControlId::OutputPan,
    ControlId::GlobalMix,
    ControlId::Oversampling,
    ControlId::GlobalPhase,
    ControlId::FxBypass,
    ControlId::DistortionEnabled,
    ControlId::DistSaturation,
    ControlId::Harmonic2,
    ControlId::Harmonic3,
    ControlId::Harmonic4,
    ControlId::Harmonic5,
    ControlId::Harmonic6,
    ControlId::Harmonic7,
    ControlId::DistMix,
    ControlId::DistPhase,
    ControlId::DistHpf,
    ControlId::DistHpSlope,
    ControlId::DistLpf,
    ControlId::DistLpSlope,
    ControlId::FilterEnabled,
    ControlId::FilterHpf,
    ControlId::FilterHpSlope,
    ControlId::FilterHpRes,
    ControlId::FilterLpf,
    ControlId::FilterLpSlope,
    ControlId::FilterLpRes,
    ControlId::CompressorEnabled,
    ControlId::CompMode,
    ControlId::CompRatio,
    ControlId::CompKnee,
    ControlId::CompMakeup,
    ControlId::CompBoost,
    ControlId::CompAttackThreshold,
    ControlId::CompAttackMs,
    ControlId::CompReleaseThreshold,
    ControlId::CompReleaseMs,
    ControlId::CompHold,
];

/// How the value of a control is read, shown and typed in.
#[derive(Clone, Copy, Debug, PartialEq, Eq)]
pub enum ValueKind {
    Decibel,
    Pan,
    Percent,
    Hertz,
    DbPerOct,
    Milliseconds,
    Ratio,
    Boolean,
    Choice(&'static [&'static str]),
}

impl ControlId {
    /// The position of the control in `ALL_CONTROLS` and in a snapshot.
    pub open spec fn spec_index(self) -> int {
        match self {
            ControlId::InputLevel => 0,
            ControlId::InputPan => 1,
            ControlId::OutputLevel => 2,
            ControlId::OutputPan => 3,
            ControlId::GlobalMix => 4,
            ControlId::Oversampling => 5,
            ControlId::GlobalPhase => 6,
            ControlId::FxBypass => 7,
            ControlId::DistortionEnabled => 8,
            ControlId::DistSaturation => 9,
            ControlId::Harmonic2 => 10,
            ControlId::Harmonic3 => 11,
            ControlId::Harmonic4 => 12,
            ControlId::Harmonic5 => 13,
            ControlId::Harmonic6 => 14,
            ControlId::Harmonic7 => 15,
            ControlId::DistMix => 16,
            ControlId::DistPhase => 17,
            ControlId::DistHpf => 18,
            ControlId::DistHpSlope => 19,
            ControlId::DistLpf => 20,
            ControlId::DistLpSlope => 21,
            ControlId::FilterEnabled => 22,
            ControlId::FilterHpf => 23,
            ControlId::FilterHpSlope => 24,
            ControlId::FilterHpRes => 25,
            ControlId::FilterLpf => 26,
            ControlId::FilterLpSlope => 27,
            ControlId::FilterLpRes => 28,
            ControlId::CompressorEnabled => 29,
            ControlId::CompMode => 30,
            ControlId::CompRatio => 31,
            ControlId::CompKnee => 32,
            ControlId::CompMakeup => 33,
            ControlId::CompBoost => 34,
            ControlId::CompAttackThreshold => 35,
            ControlId::CompAttackMs => 36,
            ControlId::CompReleaseThreshold => 37,
            ControlId::CompReleaseMs => 38,
            ControlId::CompHold => 39,
        }
    }

    /// The control at a position, if the position is below `CONTROL_COUNT`.
    pub open spec fn spec_from_index(index: int) -> Option<ControlId> {
        if index == 0 {
            Some(ControlId::InputLevel)
        } else if index == 1 {
            Some(ControlId::InputPan)
        } else if index == 2 {
            Some(ControlId::OutputLevel)
        } else if index == 3 {
            Some(ControlId::OutputPan)
        } else if index == 4 {
            Some(ControlId::GlobalMix)
        } else if index == 5 {
            Some(ControlId::Oversampling)
        } else if index == 6 {
            Some(ControlId::GlobalPhase)
        } else if index == 7 {
            Some(ControlId::FxBypass)
        } else if index == 8 {
            Some(ControlId::DistortionEnabled)
        } else if index == 9 {
            Some(ControlId::DistSaturation)
        } else if index == 10 {
            Some(ControlId::Harmonic2)
        } else if index == 11 {
            Some(ControlId::Harmonic3)
        } else if index == 12 {
            Some(ControlId::Harmonic4)
        } else if index == 13 {
            Some(ControlId::Harmonic5)
        } else if index == 14 {
            Some(ControlId::Harmonic6)
        } else if index == 15 {
            Some(ControlId::Harmonic7)
        } else if index == 16 {
            Some(ControlId::DistMix)
        } else if index == 17 {
            Some(ControlId::DistPhase)
        } else if index == 18 {
            Some(ControlId::DistHpf)
        } else if index == 19 {
            Some(ControlId::DistHpSlope)
        } else if index == 20 {
            Some(ControlId::DistLpf)
        } else if index == 21 {
            Some(ControlId::DistLpSlope)
        } else if index == 22 {
            Some(ControlId::FilterEnabled)
        } else if index == 23 {
            Some(ControlId::FilterHpf)
        } else if index == 24 {
            Some(ControlId::FilterHpSlope)
        } else if index == 25 {
            Some(ControlId::FilterHpRes)
        } else if index == 26 {
            Some(ControlId::FilterLpf)
        } else if index == 27 {
            Some(ControlId::FilterLpSlope)
        } else if index == 28 {
            Some(ControlId::FilterLpRes)
        } else if index == 29 {
            Some(ControlId::CompressorEnabled)
        } else if index == 30 {
            Some(ControlId::CompMode)
        } else if index == 31 {
            Some(ControlId::CompRatio)
        } else if index == 32 {
            Some(ControlId::CompKnee)
        } else if index == 33 {
            Some(ControlId::CompMakeup)
        } else if index == 34 {
            Some(ControlId::CompBoost)
        } else if index == 35 {
            Some(ControlId::CompAttackThreshold)
        } else if index == 36 {
            Some(ControlId::CompAttackMs)
        } else if index == 37 {
            Some(ControlId::CompReleaseThreshold)
        } else if index == 38 {
            Some(ControlId::CompReleaseMs)
        } else if index == 39 {
            Some(ControlId::CompHold)
        } else {
            None
        }
    }

    /// The kind of value the control holds.
    pub open spec fn spec_kind(self) -> ValueKind {
        match self {
            ControlId::InputLevel => ValueKind::Decibel,
            ControlId::InputPan => ValueKind::Pan,
            ControlId::OutputLevel => ValueKind::Decibel,
            ControlId::OutputPan => ValueKind::Pan,
            ControlId::GlobalMix => ValueKind::Percent,
            ControlId::Oversampling => ValueKind::Choice(&OVERSAMPLING_LABELS),
            ControlId::GlobalPhase => ValueKind::Boolean,
            ControlId::FxBypass => ValueKind::Boolean,
            ControlId::DistortionEnabled => ValueKind::Boolean,
            ControlId::DistSaturation => ValueKind::Percent,
            ControlId::Harmonic2 => ValueKind::Percent,
            ControlId::Harmonic3 => ValueKind::Percent,
            ControlId::Harmonic4 => ValueKind::Percent,
            ControlId::Harmonic5 => ValueKind::Percent,
            ControlId::Harmonic6 => ValueKind::Percent,
            ControlId::Harmonic7 => ValueKind::Percent,
            ControlId::DistMix => ValueKind::Percent,
            ControlId::DistPhase => ValueKind::Boolean,
            ControlId::DistHpf => ValueKind::Hertz,
            ControlId::DistHpSlope => ValueKind::DbPerOct,
            ControlId::DistLpf => ValueKind::Hertz,
            ControlId::DistLpSlope => ValueKind::DbPerOct,
            ControlId::FilterEnabled => ValueKind::Boolean,
            ControlId::FilterHpf => ValueKind::Hertz,
            ControlId::FilterHpSlope => ValueKind::DbPerOct,
            ControlId::FilterHpRes => ValueKind::Percent,
            ControlId::FilterLpf => ValueKind::Hertz,
            ControlId::FilterLpSlope => ValueKind::DbPerOct,
            ControlId::FilterLpRes => ValueKind::Percent,
            ControlId::CompressorEnabled => ValueKind::Boolean,
            ControlId::CompMode => ValueKind::Choice(&COMPRESSOR_MODE_LABELS),
            ControlId::CompRatio => ValueKind::Ratio,
            ControlId::CompKnee => ValueKind::Decibel,
            ControlId::CompMakeup => ValueKind::Decibel,
            ControlId::CompBoost => ValueKind::Decibel,
            ControlId::CompAttackThreshold => ValueKind::Decibel,
            ControlId::CompAttackMs => ValueKind::Milliseconds,
            ControlId::CompReleaseThreshold => ValueKind::Decibel,
            ControlId::CompReleaseMs => ValueKind::Milliseconds,
            ControlId::CompHold => ValueKind::Milliseconds,
        }
    }

    pub fn index(self) -> (i: usize)
        ensures
            i == self.spec_index(),
            i < CONTROL_COUNT,
    {
        match self {
            ControlId::InputLevel => 0,
            ControlId::InputPan => 1,
            ControlId::OutputLevel => 2,
            ControlId::OutputPan => 3,
            ControlId::GlobalMix => 4,
            ControlId::Oversampling => 5,
            ControlId::GlobalPhase => 6,
            ControlId::FxBypass => 7,
            ControlId::DistortionEnabled => 8,
            ControlId::DistSaturation => 9,
            ControlId::Harmonic2 => 10,
            ControlId::Harmonic3 => 11,
            ControlId::Harmonic4 => 12,
            ControlId::Harmonic5 => 13,
            ControlId::Harmonic6 => 14,
            ControlId::Harmonic7 => 15,
            ControlId::DistMix => 16,
            ControlId::DistPhase => 17,
            ControlId::DistHpf => 18,
            ControlId::DistHpSlope => 19,
            ControlId::DistLpf => 20,
            ControlId::DistLpSlope => 21,
            ControlId::FilterEnabled => 22,
            ControlId::FilterHpf => 23,
            ControlId::FilterHpSlope => 24,
            ControlId::FilterHpRes => 25,
            ControlId::FilterLpf => 26,
            ControlId::FilterLpSlope => 27,
            ControlId::FilterLpRes => 28,
            ControlId::CompressorEnabled => 29,
            ControlId::CompMode => 30,
            ControlId::CompRatio => 31,
            ControlId::CompKnee => 32,
            ControlId::CompMakeup => 33,
            ControlId::CompBoost => 34,
            ControlId::CompAttackThreshold => 35,
            ControlId::CompAttackMs => 36,
            ControlId::CompReleaseThreshold => 37,
            ControlId::CompReleaseMs => 38,
            ControlId::CompHold => 39,
        }
    }

    pub fn from_index(index: usize) -> (id: Option<Self>)
        ensures
            id == Self::spec_from_index(index as int),
    {
        match index {
            0 => Some(ControlId::InputLevel),
            1 => Some(ControlId::InputPan),
            2 => Some(ControlId::OutputLevel),
            3 => Some(ControlId::OutputPan),
            4 => Some(ControlId::GlobalMix),
            5 => Some(ControlId::Oversampling),
            6 => Some(ControlId::GlobalPhase),
            7 => Some(ControlId::FxBypass),
            8 => Some(ControlId::DistortionEnabled),
            9 => Some(ControlId::DistSaturation),
            10 => Some(ControlId::Harmonic2),
            11 => Some(ControlId::Harmonic3),
            12 => Some(ControlId::Harmonic4),
            13 => Some(ControlId::Harmonic5),
            14 => Some(ControlId::Harmonic6),
            15 => Some(ControlId::Harmonic7),
            16 => Some(ControlId::DistMix),
            17 => Some(ControlId::DistPhase),
            18 => Some(ControlId::DistHpf),
            19 => Some(ControlId::DistHpSlope),
            20 => Some(ControlId::DistLpf),
            21 => Some(ControlId::DistLpSlope),
            22 => Some(ControlId::FilterEnabled),
            23 => Some(ControlId::FilterHpf),
            24 => Some(ControlId::FilterHpSlope),
            25 => Some(ControlId::FilterHpRes),
            26 => Some(ControlId::FilterLpf),
            27 => Some(ControlId::FilterLpSlope),
            28 => Some(ControlId::FilterLpRes),
            29 => Some(ControlId::CompressorEnabled),
            30 => Some(ControlId::CompMode),
            31 => Some(ControlId::CompRatio),
            32 => Some(ControlId::CompKnee),
            33 => Some(ControlId::CompMakeup),
            34 => Some(ControlId::CompBoost),
            35 => Some(ControlId::CompAttackThreshold),
            36 => Some(ControlId::CompAttackMs),
            37 => Some(ControlId::CompReleaseThreshold),
            38 => Some(ControlId::CompReleaseMs),
            39 => Some(ControlId::CompHold),
            _ => None,
        }
    }

    /// The kind of value the control holds.
    pub fn kind(self) -> (k: ValueKind)
        ensures
            k == self.spec_kind(),
    {
        match self {
            ControlId::InputLevel => ValueKind::Decibel,
            ControlId::InputPan => ValueKind::Pan,
            ControlId::OutputLevel => ValueKind::Decibel,
            ControlId::OutputPan => ValueKind::Pan,
            ControlId::GlobalMix => ValueKind::Percent,
            ControlId::Oversampling => ValueKind::Choice(&OVERSAMPLING_LABELS),
            ControlId::GlobalPhase => ValueKind::Boolean,
            ControlId::FxBypass => ValueKind::Boolean,
            ControlId::DistortionEnabled => ValueKind::Boolean,
            ControlId::DistSaturation => ValueKind::Percent,
            ControlId::Harmonic2 => ValueKind::Percent,
            ControlId::Harmonic3 => ValueKind::Percent,
            ControlId::Harmonic4 => ValueKind::Percent,
            ControlId::Harmonic5 => ValueKind::Percent,
            ControlId::Harmonic6 => ValueKind::Percent,
            ControlId::Harmonic7 => ValueKind::Percent,
            ControlId::DistMix => ValueKind::Percent,
            ControlId::DistPhase => ValueKind::Boolean,
            ControlId::DistHpf => ValueKind::Hertz,
            ControlId::DistHpSlope => ValueKind::DbPerOct,
            ControlId::DistLpf => ValueKind::Hertz,
            ControlId::DistLpSlope => ValueKind::DbPerOct,
            ControlId::FilterEnabled => ValueKind::Boolean,
            ControlId::FilterHpf => ValueKind::Hertz,
            ControlId::FilterHpSlope => ValueKind::DbPerOct,
            ControlId::FilterHpRes => ValueKind::Percent,
            ControlId::FilterLpf => ValueKind::Hertz,
            ControlId::FilterLpSlope => ValueKind::DbPerOct,
            ControlId::FilterLpRes => ValueKind::Percent,
            ControlId::CompressorEnabled => ValueKind::Boolean,
            ControlId::CompMode => ValueKind::Choice(&COMPRESSOR_MODE_LABELS),
            ControlId::CompRatio => ValueKind::Ratio,
            ControlId::CompKnee => ValueKind::Decibel,
            ControlId::CompMakeup => ValueKind::Decibel,
            ControlId::CompBoost => ValueKind::Decibel,
            ControlId::CompAttackThreshold => ValueKind::Decibel,
            ControlId::CompAttackMs => ValueKind::Milliseconds,
            ControlId::CompReleaseThreshold => ValueKind::Decibel,
            ControlId::CompReleaseMs => ValueKind::Milliseconds,
            ControlId::CompHold => ValueKind::Milliseconds,
        }
    }

    /// The name under which the control is shown and automated.
    pub open spec fn spec_name(self) -> &'static str {
        match self {
            ControlId::InputLevel => "Input Level",
            ControlId::InputPan => "Input Pan",
            ControlId::OutputLevel => "Output Level",
            ControlId::OutputPan => "Output Pan",
            ControlId::GlobalMix => "Mix",
            ControlId::Oversampling => "Oversampling",
            ControlId::GlobalPhase => "Phase",
            ControlId::FxBypass => "FX Bypass",
            ControlId::DistortionEnabled => "Distortion",
            ControlId::DistSaturation => "Saturation",
            ControlId::Harmonic2 => "2nd Order",
            ControlId::Harmonic3 => "3rd Order",
            ControlId::Harmonic4 => "4th Order",
            ControlId::Harmonic5 => "5th Order",
            ControlId::Harmonic6 => "6th Order",
            ControlId::Harmonic7 => "7th Order",
            ControlId::DistMix => "Dist Mix",
            ControlId::DistPhase => "Dist Phase",
            ControlId::DistHpf => "Dist HPF",
            ControlId::DistHpSlope => "Dist HPFS",
            ControlId::DistLpf => "Dist LPF",
            ControlId::DistLpSlope => "Dist LPFS",
            ControlId::FilterEnabled => "Filter",
            ControlId::FilterHpf => "HPF",
            ControlId::FilterHpSlope => "HPFS",
            ControlId::FilterHpRes => "HPFR",
            ControlId::FilterLpf => "LPF",
            ControlId::FilterLpSlope => "LPFS",
            ControlId::FilterLpRes => "LPFR",
            ControlId::CompressorEnabled => "Compressor",
            ControlId::CompMode => "Mode",
            ControlId::CompRatio => "Ratio",
            ControlId::CompKnee => "Knee",
            ControlId::CompMakeup => "Makeup",
            ControlId::CompBoost => "Boost",
            ControlId::CompAttackThreshold => "Attack Thresh",
            ControlId::CompAttackMs => "Attack",
            ControlId::CompReleaseThreshold => "Release Thresh",
            ControlId::CompReleaseMs => "Release",
            ControlId::CompHold => "Hold",
        }
    }

    /// The name under which the control is shown and automated.
    pub fn name(self) -> (n: &'static str)
        ensures
            n == self.spec_name(),
    {
        match self {
            ControlId::InputLevel => "Input Level",
            ControlId::InputPan => "Input Pan",
            ControlId::OutputLevel => "Output Level",
            ControlId::OutputPan => "Output Pan",
            ControlId::GlobalMix => "Mix",
            ControlId::Oversampling => "Oversampling",
            ControlId::GlobalPhase => "Phase",
            ControlId::FxBypass => "FX Bypass",
            ControlId::DistortionEnabled => "Distortion",
            ControlId::DistSaturation => "Saturation",
            ControlId::Harmonic2 => "2nd Order",
            ControlId::Harmonic3 => "3rd Order",
            ControlId::Harmonic4 => "4th Order",
            ControlId::Harmonic5 => "5th Order",
            ControlId::Harmonic6 => "6th Order",
            ControlId::Harmonic7 => "7th Order",
            ControlId::DistMix => "Dist Mix",
            ControlId::DistPhase => "Dist Phase",
            ControlId::DistHpf => "Dist HPF",
            ControlId::DistHpSlope => "Dist HPFS",
            ControlId::DistLpf => "Dist LPF",
            ControlId::DistLpSlope => "Dist LPFS",
            ControlId::FilterEnabled => "Filter",
            ControlId::FilterHpf => "HPF",
            ControlId::FilterHpSlope => "HPFS",
            ControlId::FilterHpRes => "HPFR",
            ControlId::FilterLpf => "LPF",
            ControlId::FilterLpSlope => "LPFS",
            ControlId::FilterLpRes => "LPFR",
            ControlId::CompressorEnabled => "Compressor",
            ControlId::CompMode => "Mode",
            ControlId::CompRatio => "Ratio",
            ControlId::CompKnee => "Knee",
            ControlId::CompMakeup => "Makeup",
            ControlId::CompBoost => "Boost",
            ControlId::CompAttackThreshold => "Attack Thresh",
            ControlId::CompAttackMs => "Attack",
            ControlId::CompReleaseThreshold => "Release Thresh",
            ControlId::CompReleaseMs => "Release",
            ControlId::CompHold => "Hold",
        }
    }
}

/// The label shown for position `index` of a choice; positions past the last label show
/// the last one.
pub fn choice_label(labels: &'static [&'static str], index: usize) -> (label: &'static str)
    requires
        labels@.len() > 0,
    ensures
        label == labels@[if index < labels@.len() {
            index as int
        } else {
            labels@.len() - 1
        }],
{
    if index < labels.len() {
        labels[index]
    } else {
        labels[labels.len() - 1]
    }
}

/// The label shown for a switch.
pub fn switch_label(on: bool) -> (label: &'static str)
    ensures
        label == if on {
            "On"
        } else {
            "Off"
        },
{
    if on {
        "On"
    } else {
        "Off"
    }
}

/// The value kind of every control: the on/off switches (phases, bypass and the three
/// section switches) hold switch values, the two pans hold pans, the four cutoffs are in
/// hertz, the four slopes in dB per octave, the compressor's times in milliseconds and its
/// ratio a ratio, the levels and compressor thresholds, knee, makeup and boost in decibels,
/// oversampling and the compressor mode are choices among their labels, and every other
/// control (mixes, saturation, harmonics, resonances) is a percentage.
pub proof fn lemma_control_kinds(id: ControlId)
    ensures
        id.spec_kind() == ValueKind::Boolean <==> (id == ControlId::GlobalPhase || id
            == ControlId::FxBypass || id == ControlId::DistortionEnabled || id == ControlId::DistPhase
            || id == ControlId::FilterEnabled || id == ControlId::CompressorEnabled),
        id.spec_kind() == ValueKind::Pan <==> (id == ControlId::InputPan || id == ControlId::OutputPan),
        id.spec_kind() == ValueKind::Hertz <==> (id == ControlId::DistHpf || id == ControlId::DistLpf
            || id == ControlId::FilterHpf || id == ControlId::FilterLpf),
        id.spec_kind() == ValueKind::DbPerOct <==> (id == ControlId::DistHpSlope || id
            == ControlId::DistLpSlope || id == ControlId::FilterHpSlope || id
            == ControlId::FilterLpSlope),
        id.spec_kind() == ValueKind::Milliseconds <==> (id == ControlId::CompAttackMs || id
            == ControlId::CompReleaseMs || id == ControlId::CompHold),
        id.spec_kind() == ValueKind::Ratio <==> id == ControlId::CompRatio,
        id.spec_kind() == ValueKind::Decibel <==> (id == ControlId::InputLevel || id
            == ControlId::OutputLevel || id == ControlId::CompKnee || id == ControlId::CompMakeup
            || id == ControlId::CompBoost || id == ControlId::CompAttackThreshold || id
            == ControlId::CompReleaseThreshold),
        id.spec_kind() == ValueKind::Percent <==> (id == ControlId::GlobalMix || id
            == ControlId::DistSaturation || id == ControlId::Harmonic2 || id == ControlId::Harmonic3
            || id == ControlId::Harmonic4 || id == ControlId::Harmonic5 || id == ControlId::Harmonic6
            || id == ControlId::Harmonic7 || id == ControlId::DistMix || id == ControlId::FilterHpRes
            || id == ControlId::FilterLpRes),
        id.spec_kind() is Choice <==> (id == ControlId::Oversampling || id == ControlId::CompMode),
        ControlId::Oversampling.spec_kind() matches ValueKind::Choice(labels) && labels@
            == seq!["Off", "2x", "4x", "6x", "8x"],
        ControlId::CompMode.spec_kind() matches ValueKind::Choice(labels) && labels@ == seq![
            "Down",
            "Up",
            "Boost",
        ],
{
    assert(OVERSAMPLING_LABELS@ =~= seq!["Off", "2x", "4x", "6x", "8x"]);
    assert(COMPRESSOR_MODE_LABELS@ =~= seq!["Down", "Up", "Boost"]);
}

/// The index of a control is its position in `ALL_CONTROLS`.
pub proof fn lemma_index_is_position(id: ControlId)
    ensures
        ALL_CONTROLS@.len() == CONTROL_COUNT,
        ALL_CONTROLS@[id.spec_index()] == id,
{
}

/// `from_index` undoes `index`, and `index` undoes `from_index` below `CONTROL_COUNT`.
pub proof fn lemma_index_round_trip(id: ControlId, index: int)
    ensures
        ControlId::spec_from_index(id.spec_index()) == Some(id),
        0 <= id.spec_index() < CONTROL_COUNT,
        0 <= index < CONTROL_COUNT <==> ControlId::spec_from_index(index) is Some,
        ControlId::spec_from_index(index) matches Some(found) ==> found.spec_index() == index,
{
}

} // verus!
