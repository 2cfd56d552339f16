use frodo::Channel;
use frodo::MidiError;

#[test]
fn new_channel() {
    let value_err: u8 = 255;
    let value_ok: u8 = 0;
    assert_eq!(
        Channel::new(value_err).unwrap_err(),
        MidiError::InvalidChannel(value_err)
    );
    assert_eq!(Channel::new(value_ok).unwrap().value(), value_ok)
}

#[test]
fn channel_bound_is_exact() {
    for v in 0..=255u8 {
        assert_eq!(Channel::new(v).is_ok(), v <= 15);
    }
    assert!(Channel::new(15).is_ok());
    assert_eq!(
        Channel::new(16).unwrap_err(),
        MidiError::InvalidChannel(16)
    );
}
