use frodo::MidiError;
use frodo::Note;

#[test]
fn test_valid_notes() {
    let c4 = Note::try_from("C4").unwrap();
    assert_eq!(c4.value(), 60);

    let dsharp3 = Note::try_from("D#3").unwrap();
    assert_eq!(dsharp3.value(), 51);

    let fsharp2 = Note::try_from("F#2").unwrap();
    assert_eq!(fsharp2.value(), 42);

    let bb1 = Note::try_from("Bb1").unwrap();
    assert_eq!(bb1.value(), 34);

    let a0 = Note::try_from("A0").unwrap();
    assert_eq!(a0.value(), 21);
}

#[test]
fn test_invalid_notes() {
    assert!(Note::try_from("H4").is_err());
    assert!(Note::try_from("C").is_err());
    assert!(Note::try_from("").is_err());
    assert!(Note::try_from("Cb4").is_err());
}

#[test]
fn note_name_errors_are_tagged() {
    assert_eq!(Note::try_from("Q7").unwrap_err(), MidiError::InvalidNote);
    assert_eq!(Note::try_from("C#x").unwrap_err(), MidiError::InvalidNote);
    // "B9" names note 131, past the top of the MIDI range.
    assert!(matches!(
        Note::try_from("B9").unwrap_err(),
        MidiError::InvalidMidiValue { value: 131, .. }
    ));
}
