use track::diff::Diff;
use track::error::ErrorKind;
use track::record::Record;
use track::serialization::bincode::{Bincode, BINCODE_MARK};
use track::serialization::rmp::{Rmp, RMP_MARK};
use track::serialization::{
    mark_payload, marked_payload, ModificationSerializer, SerializationStrategy,
};
use track::{Apply, TrackableMarker};

fn position(x: u32, y: u32) -> Record<2> {
    Record::from_fields(vec![x.to_le_bytes().to_vec(), y.to_le_bytes().to_vec()]).unwrap()
}

fn fields(record: &Record<2>) -> Vec<Vec<u8>> {
    vec![record.get(0).unwrap().clone(), record.get(1).unwrap().clone()]
}

fn sample_diff() -> Diff {
    Diff::from_entries(vec![(0, vec![42, 0, 0, 0])])
}

fn round_trip<S: SerializationStrategy>(strategy: S) {
    let snapshot = position(10, 20);
    let mutated = position(11, 20);
    let diff = <Record<2> as TrackableMarker>::compare(&snapshot, &mutated);
    let data = strategy.serialize(&diff).unwrap();

    let mut copy = snapshot.snapshot();
    Apply::apply_to(&mut copy, &data, strategy).unwrap();
    assert_eq!(fields(&copy), fields(&mutated));
}

#[test]
fn round_trip_with_bincode() {
    round_trip(Bincode);
}

#[test]
fn round_trip_with_rmp() {
    round_trip(Rmp);
}

#[test]
fn round_trip_when_every_field_changed() {
    let snapshot = position(1, 2);
    let mutated = position(3, 4);
    let diff = <Record<2> as TrackableMarker>::compare(&snapshot, &mutated);
    assert_eq!(diff.len(), 2);
    for data in [Bincode.serialize(&diff).unwrap(), Rmp.serialize(&diff).unwrap()] {
        let mut by_bincode = snapshot.snapshot();
        let mut by_rmp = snapshot.snapshot();
        let first = Apply::apply_to(&mut by_bincode, &data, Bincode);
        let second = Apply::apply_to(&mut by_rmp, &data, Rmp);
        assert!(first.is_ok() != second.is_ok());
        let restored = if first.is_ok() { by_bincode } else { by_rmp };
        assert_eq!(fields(&restored), fields(&mutated));
    }
}

#[test]
fn bincode_writes_its_mark_and_the_fixed_layout() {
    let data = Bincode.serialize(&sample_diff()).unwrap();
    assert_eq!(BINCODE_MARK, 0xB1);
    assert_eq!(
        data,
        vec![
            0xB1, // mark
            1, 0, 0, 0, 0, 0, 0, 0, // one change
            0, 0, // field 0
            4, 0, 0, 0, 0, 0, 0, 0, // four bytes
            42, 0, 0, 0,
        ]
    );
}

#[test]
fn rmp_writes_its_mark_and_messagepack() {
    let data = Rmp.serialize(&sample_diff()).unwrap();
    assert_eq!(RMP_MARK, 0xA7);
    assert_eq!(data, vec![0xA7, 0x91, 0x92, 0x00, 0x94, 0x2A, 0x00, 0x00, 0x00]);
}

#[test]
fn empty_diff_is_encoded_and_read_back() {
    let empty = Diff::new();
    let by_bincode = Bincode.serialize(&empty).unwrap();
    assert_eq!(by_bincode, vec![0xB1, 0, 0, 0, 0, 0, 0, 0, 0]);
    assert_eq!(Bincode.deserialize(&by_bincode).unwrap().len(), 0);
    let by_rmp = Rmp.serialize(&empty).unwrap();
    assert_eq!(by_rmp, vec![0xA7, 0x90]);
    assert_eq!(Rmp.deserialize(&by_rmp).unwrap().len(), 0);
}

#[test]
fn deserialize_gives_the_changes_back() {
    let diff = Diff::from_entries(vec![(0, vec![1, 2]), (7, vec![]), (65535, vec![255; 300])]);
    let by_bincode = Bincode.deserialize(&Bincode.serialize(&diff).unwrap()).unwrap();
    assert_eq!(by_bincode.entries(), diff.entries());
    let by_rmp = Rmp.deserialize(&Rmp.serialize(&diff).unwrap()).unwrap();
    assert_eq!(by_rmp.entries(), diff.entries());
}

#[test]
fn bincode_bytes_are_refused_by_rmp() {
    let data = Bincode.serialize(&sample_diff()).unwrap();
    assert!(matches!(Rmp.deserialize(&data), Err(ErrorKind::SerializationError(_))));
    let mut target = position(9, 9);
    let outcome = Apply::apply_to(&mut target, &data, Rmp);
    assert!(matches!(outcome, Err(ErrorKind::SerializationError(_))));
    assert_eq!(fields(&target), fields(&position(9, 9)));
}

#[test]
fn rmp_bytes_are_refused_by_bincode() {
    let data = Rmp.serialize(&sample_diff()).unwrap();
    assert!(matches!(Bincode.deserialize(&data), Err(ErrorKind::SerializationError(_))));
    let mut target = position(9, 9);
    let outcome = Apply::apply_to(&mut target, &data, Bincode);
    assert!(matches!(outcome, Err(ErrorKind::SerializationError(_))));
    assert_eq!(fields(&target), fields(&position(9, 9)));
}

#[test]
fn payload_of_the_other_format_behind_the_right_mark_is_refused_or_harmless() {
    let mut forged = Rmp.serialize(&sample_diff()).unwrap();
    forged[0] = BINCODE_MARK;
    let mut target = position(9, 9);
    let before = fields(&target);
    if Apply::apply_to(&mut target, &forged, Bincode).is_err() {
        assert_eq!(fields(&target), before);
    }
}

#[test]
fn empty_buffer_is_refused() {
    assert!(matches!(Bincode.deserialize(&[]), Err(ErrorKind::SerializationError(_))));
    assert!(matches!(Rmp.deserialize(&[]), Err(ErrorKind::SerializationError(_))));
    let mut target = position(9, 9);
    assert!(Apply::apply_to(&mut target, &[], Bincode).is_err());
    assert!(Apply::apply_to(&mut target, &[], Rmp).is_err());
    assert_eq!(fields(&target), fields(&position(9, 9)));
}

#[test]
fn mark_alone_is_refused() {
    assert!(Bincode.deserialize(&[BINCODE_MARK]).is_err());
    assert!(Rmp.deserialize(&[RMP_MARK]).is_err());
}

#[test]
fn truncated_buffer_is_refused() {
    let mut by_bincode = Bincode.serialize(&sample_diff()).unwrap();
    by_bincode.pop();
    let mut by_rmp = Rmp.serialize(&sample_diff()).unwrap();
    by_rmp.pop();
    let mut target = position(9, 9);
    assert!(Apply::apply_to(&mut target, &by_bincode, Bincode).is_err());
    assert!(Apply::apply_to(&mut target, &by_rmp, Rmp).is_err());
    assert_eq!(fields(&target), fields(&position(9, 9)));
}

#[test]
fn unknown_mark_is_refused() {
    let mut data = Bincode.serialize(&sample_diff()).unwrap();
    data[0] = 0;
    assert!(Bincode.deserialize(&data).is_err());
    assert!(Rmp.deserialize(&data).is_err());
}

#[test]
fn wrong_mark_message_names_the_format() {
    match Bincode.deserialize(&[0]) {
        Err(ErrorKind::SerializationError(text)) => {
            assert_eq!(text, "the buffer was not written by bincode")
        }
        Ok(_) => panic!("a buffer without the mark was accepted"),
    }
    match Rmp.deserialize(&[0]) {
        Err(ErrorKind::SerializationError(text)) => {
            assert_eq!(text, "the buffer was not written by rmp-serde")
        }
        Ok(_) => panic!("a buffer without the mark was accepted"),
    }
}

#[test]
fn codec_error_carries_the_codec_text() {
    match Bincode.deserialize(&[BINCODE_MARK, 1]) {
        Err(ErrorKind::SerializationError(text)) => assert!(!text.is_empty()),
        Ok(_) => panic!("a cut-off buffer was accepted"),
    }
    match Rmp.deserialize(&[RMP_MARK, 0xC0]) {
        Err(ErrorKind::SerializationError(text)) => assert!(!text.is_empty()),
        Ok(_) => panic!("nil was accepted as a diff"),
    }
}

#[test]
fn diff_that_names_a_missing_field_is_refused_as_a_whole() {
    let diff = Diff::from_entries(vec![(0, vec![1, 0, 0, 0]), (2, vec![5])]);
    for (data, by_bincode) in
        [(Bincode.serialize(&diff).unwrap(), true), (Rmp.serialize(&diff).unwrap(), false)]
    {
        let mut target = position(9, 9);
        let outcome = if by_bincode {
            Apply::apply_to(&mut target, &data, Bincode)
        } else {
            Apply::apply_to(&mut target, &data, Rmp)
        };
        match outcome {
            Err(ErrorKind::SerializationError(text)) => {
                assert_eq!(text, "the diff names a field that the value does not have")
            }
            Ok(()) => panic!("a diff for a missing field was applied"),
        }
        assert_eq!(fields(&target), fields(&position(9, 9)));
    }
}

#[test]
fn later_change_to_the_same_field_wins() {
    let diff = Diff::from_entries(vec![(1, vec![1]), (1, vec![2])]);
    let data = Bincode.serialize(&diff).unwrap();
    let mut target = position(9, 9);
    Apply::apply_to(&mut target, &data, Bincode).unwrap();
    assert_eq!(fields(&target), vec![9u32.to_le_bytes().to_vec(), vec![2]]);
}

#[test]
fn applying_twice_without_edits_changes_nothing_more() {
    let data = Bincode.serialize(&sample_diff()).unwrap();
    let mut target = position(9, 9);
    Apply::apply_to(&mut target, &data, Bincode).unwrap();
    let once = fields(&target);
    Apply::apply_to(&mut target, &data, Bincode).unwrap();
    assert_eq!(fields(&target), once);
}

#[test]
fn applying_again_after_an_edit_loses_the_edit() {
    let data = Rmp.serialize(&sample_diff()).unwrap();
    let mut target = position(9, 9);
    Apply::apply_to(&mut target, &data, Rmp).unwrap();
    assert!(target.set(0, 100u32.to_le_bytes().to_vec()));
    assert!(target.set(1, 200u32.to_le_bytes().to_vec()));
    let edited = fields(&target);
    Apply::apply_to(&mut target, &data, Rmp).unwrap();
    assert_ne!(fields(&target), edited);
    assert_eq!(fields(&target), fields(&position(42, 200)));
}

#[test]
fn serializer_wraps_its_strategy() {
    let serializer = ModificationSerializer::new(Rmp);
    let data = serializer.serialize(&sample_diff()).unwrap();
    assert_eq!(data, Rmp.serialize(&sample_diff()).unwrap());
    assert_eq!(serializer.deserialize(&data).unwrap().entries(), sample_diff().entries());
    assert!(serializer.deserialize(&Bincode.serialize(&sample_diff()).unwrap()).is_err());
}

#[test]
fn default_serializer_uses_the_default_strategy() {
    let serializer: ModificationSerializer<Bincode> = Default::default();
    let data = serializer.serialize(&sample_diff()).unwrap();
    assert_eq!(data, Bincode.serialize(&sample_diff()).unwrap());
    let copy = serializer.clone();
    assert_eq!(copy.deserialize(&data).unwrap().entries(), sample_diff().entries());
}

#[test]
fn marks_are_put_on_and_taken_off() {
    assert_eq!(mark_payload(7, &vec![1, 2, 3]), vec![7, 1, 2, 3]);
    assert_eq!(mark_payload(7, &vec![]), vec![7]);
    assert_eq!(marked_payload(7, &[7, 1, 2, 3]), Some(&[1u8, 2, 3][..]));
    assert_eq!(marked_payload(7, &[7]), Some(&[][..]));
    assert_eq!(marked_payload(7, &[8, 1, 2, 3]), None);
    assert_eq!(marked_payload(7, &[]), None);
}

#[test]
fn bincode_reads_the_list_that_the_bytes_begin_with() {
    let mut data = Bincode.serialize(&sample_diff()).unwrap();
    data.extend_from_slice(&[9, 9, 9]);
    assert_eq!(Bincode.deserialize(&data).unwrap().entries(), sample_diff().entries());
}

#[test]
fn bincode_encodes_every_diff() {
    for diff in [
        Diff::new(),
        sample_diff(),
        Diff::from_entries(vec![(65535, vec![0; 70000]), (0, vec![])]),
    ] {
        assert!(Bincode.serialize(&diff).is_ok());
    }
}

#[test]
fn apply_hands_on_the_text_of_the_codec() {
    let cut_off = [BINCODE_MARK, 1];
    let nil = [RMP_MARK, 0xC0];
    let by_bincode = match Bincode.deserialize(&cut_off) {
        Err(ErrorKind::SerializationError(text)) => text,
        Ok(_) => panic!("a cut-off buffer was accepted"),
    };
    let by_rmp = match Rmp.deserialize(&nil) {
        Err(ErrorKind::SerializationError(text)) => text,
        Ok(_) => panic!("nil was accepted as a diff"),
    };
    let mut target = position(9, 9);
    match Apply::apply_to(&mut target, &cut_off, Bincode) {
        Err(ErrorKind::SerializationError(text)) => assert_eq!(text, by_bincode),
        Ok(()) => panic!("a cut-off buffer was applied"),
    }
    match Apply::apply_to(&mut target, &nil, Rmp) {
        Err(ErrorKind::SerializationError(text)) => assert_eq!(text, by_rmp),
        Ok(()) => panic!("nil was applied"),
    }
    match Apply::apply_to(&mut target, &[], Bincode) {
        Err(ErrorKind::SerializationError(text)) => {
            assert_eq!(text, "the buffer was not written by bincode")
        }
        Ok(()) => panic!("an empty buffer was applied"),
    }
}

#[test]
fn same_bytes_give_the_same_error_text() {
    let cut_off = [BINCODE_MARK, 1, 0, 0];
    let first = Bincode.deserialize(&cut_off).unwrap_err();
    let second = Bincode.deserialize(&cut_off).unwrap_err();
    assert_eq!(first.to_string(), second.to_string());
    let odd = [RMP_MARK, 0x91, 0xC0];
    let first = Rmp.deserialize(&odd).unwrap_err();
    let second = Rmp.deserialize(&odd).unwrap_err();
    assert_eq!(first.to_string(), second.to_string());
}
