use nebula_cluster::dsp::{oversampling_factor, CompressorMode};
use nebula_cluster::model::{
    choice_label, switch_label, ControlId, ValueKind, ALL_CONTROLS, CONTROL_COUNT,
    COMPRESSOR_MODE_LABELS, OVERSAMPLING_LABELS,
};

#[test]
fn index_and_from_index_round_trip() {
    for (position, id) in ALL_CONTROLS.iter().enumerate() {
        assert_eq!(id.index(), position);
        assert_eq!(ControlId::from_index(position), Some(*id));
    }
    assert_eq!(ControlId::from_index(CONTROL_COUNT), None);
    assert_eq!(ControlId::from_index(usize::MAX), None);
    assert_eq!(ControlId::CompHold.index(), 39);
    assert_eq!(ControlId::Oversampling.index(), 5);
}

#[test]
fn kinds_and_names() {
    assert_eq!(ControlId::InputPan.kind(), ValueKind::Pan);
    assert_eq!(ControlId::DistHpf.kind(), ValueKind::Hertz);
    assert_eq!(ControlId::CompAttackMs.kind(), ValueKind::Milliseconds);
    assert_eq!(ControlId::FxBypass.kind(), ValueKind::Boolean);
    match ControlId::Oversampling.kind() {
        ValueKind::Choice(labels) => assert_eq!(labels, &OVERSAMPLING_LABELS[..]),
        _ => panic!("oversampling is a choice"),
    }
    match ControlId::CompMode.kind() {
        ValueKind::Choice(labels) => assert_eq!(labels, &COMPRESSOR_MODE_LABELS[..]),
        _ => panic!("compressor mode is a choice"),
    }
    assert_eq!(ControlId::GlobalMix.name(), "Mix");
    assert_eq!(ControlId::CompReleaseThreshold.name(), "Release Thresh");
}

#[test]
fn labels_clamp_to_the_last_choice() {
    assert_eq!(choice_label(&OVERSAMPLING_LABELS, 0), "Off");
    assert_eq!(choice_label(&OVERSAMPLING_LABELS, 4), "8x");
    assert_eq!(choice_label(&OVERSAMPLING_LABELS, 9), "8x");
    assert_eq!(switch_label(true), "On");
    assert_eq!(switch_label(false), "Off");
}

#[test]
fn oversampling_choices_give_factors() {
    assert_eq!(oversampling_factor(0), 1);
    assert_eq!(oversampling_factor(1), 2);
    assert_eq!(oversampling_factor(2), 4);
    assert_eq!(oversampling_factor(3), 6);
    assert_eq!(oversampling_factor(4), 8);
    assert_eq!(oversampling_factor(5), 1);
}

#[test]
fn compressor_mode_choices() {
    assert_eq!(CompressorMode::from_choice(0), CompressorMode::Downward);
    assert_eq!(CompressorMode::from_choice(1), CompressorMode::Upward);
    assert_eq!(CompressorMode::from_choice(2), CompressorMode::Boosting);
    assert_eq!(CompressorMode::from_choice(7), CompressorMode::Downward);
}
