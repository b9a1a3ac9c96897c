use nebula_cluster::model::ControlId;
use nebula_cluster::parse::{classify_input, NumberForm, ValueInput};

fn number(input: ValueInput) -> (String, NumberForm) {
    match input {
        ValueInput::Number(text, form) => (text, form),
        other => panic!("expected a number, got {other:?}"),
    }
}

#[test]
fn switch_words() {
    assert!(matches!(classify_input(ControlId::GlobalPhase, "  On "), ValueInput::Flag(true)));
    assert!(matches!(classify_input(ControlId::FxBypass, "TRUE"), ValueInput::Flag(true)));
    assert!(matches!(classify_input(ControlId::FxBypass, "1"), ValueInput::Flag(true)));
    assert!(matches!(classify_input(ControlId::FxBypass, "\toff\n"), ValueInput::Flag(false)));
    assert!(matches!(classify_input(ControlId::FxBypass, "False"), ValueInput::Flag(false)));
    assert!(matches!(classify_input(ControlId::FxBypass, "0"), ValueInput::Flag(false)));
    assert!(matches!(classify_input(ControlId::FxBypass, "maybe"), ValueInput::Unrecognised));
    assert!(matches!(classify_input(ControlId::FxBypass, "onn"), ValueInput::Unrecognised));
}

#[test]
fn choice_labels_ignore_case() {
    assert!(matches!(classify_input(ControlId::Oversampling, " 4X "), ValueInput::Label(2)));
    assert!(matches!(classify_input(ControlId::Oversampling, "off"), ValueInput::Label(0)));
    assert!(matches!(classify_input(ControlId::CompMode, "boost"), ValueInput::Label(2)));
    assert_eq!(
        number(classify_input(ControlId::CompMode, "mode 1")),
        (String::from("1"), NumberForm::Plain)
    );
}

#[test]
fn numbers_and_their_forms() {
    assert_eq!(
        number(classify_input(ControlId::GlobalMix, "50%")),
        (String::from("50"), NumberForm::Percent)
    );
    assert_eq!(
        number(classify_input(ControlId::FilterLpf, "1.5 kHz")),
        (String::from("1.5"), NumberForm::KiloHertz)
    );
    assert_eq!(
        number(classify_input(ControlId::FilterLpf, "440 Hz")),
        (String::from("440"), NumberForm::Hertz)
    );
    assert_eq!(
        number(classify_input(ControlId::InputPan, "L 30")),
        (String::from("30"), NumberForm::PanLeft)
    );
    assert_eq!(
        number(classify_input(ControlId::OutputPan, "20 right")),
        (String::from("20"), NumberForm::PanRight)
    );
    assert_eq!(
        number(classify_input(ControlId::InputPan, "-0.5")),
        (String::from("-0.5"), NumberForm::PanSigned)
    );
    assert_eq!(
        number(classify_input(ControlId::CompRatio, "4.00:1")),
        (String::from("4.00"), NumberForm::Plain)
    );
}

#[test]
fn numeric_prefix_is_the_first_run() {
    assert_eq!(
        number(classify_input(ControlId::InputLevel, "abc-12.5x7")),
        (String::from("-12.5"), NumberForm::Plain)
    );
    assert_eq!(
        number(classify_input(ControlId::InputLevel, "gain")),
        (String::new(), NumberForm::Plain)
    );
    assert_eq!(
        number(classify_input(ControlId::CompHold, "  +3 ms 4")),
        (String::from("+3"), NumberForm::Plain)
    );
}
