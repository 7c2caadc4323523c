use acoustic_homing::common::ControlData;
use acoustic_homing::common::FrameError;

#[test]
fn empty_is_centered() {
    let d = ControlData::empty();
    assert_eq!(d.offset, 0);
}

#[test]
fn wire_size_is_eight() {
    assert_eq!(ControlData::size(), 8);
    assert_eq!(ControlData::empty().to_slice().len(), 8);
}

#[test]
fn known_little_endian_layout() {
    let d = ControlData { offset: 0x0102_0304_0506_0708 };
    let bytes = d.to_slice();
    assert_eq!(bytes, vec![0x08, 0x07, 0x06, 0x05, 0x04, 0x03, 0x02, 0x01]);
}

#[test]
fn minus_one_is_all_ones() {
    let d = ControlData { offset: -1 };
    assert_eq!(d.to_slice(), vec![0xff; 8]);
}

#[test]
fn round_trip_sample_values() {
    for offset in [0i64, 1, -1, 250, -250, 1_000_000_007, i64::MAX, i64::MIN] {
        let d = ControlData { offset };
        let bytes = d.to_slice();
        let back = ControlData::from_slice(bytes.as_slice());
        assert_eq!(back, d);
    }
}

#[test]
fn decode_known_bytes() {
    let bytes: Vec<u8> = vec![250, 0, 0, 0, 0, 0, 0, 0];
    let d = ControlData::from_slice(bytes.as_slice());
    assert_eq!(d.offset, 250);
}

#[test]
fn try_from_slice_accepts_exact_size() {
    let bytes: Vec<u8> = vec![0; 8];
    assert_eq!(ControlData::try_from_slice(bytes.as_slice()), Ok(ControlData { offset: 0 }));
}

#[test]
fn try_from_slice_rejects_wrong_lengths() {
    for len in [0usize, 1, 7, 9, 16] {
        let bytes: Vec<u8> = vec![0; len];
        assert_eq!(
            ControlData::try_from_slice(bytes.as_slice()),
            Err(FrameError::UnexpectedLength)
        );
    }
}
