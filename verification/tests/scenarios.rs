use track::diff::Diff;
use track::record::Record;
use track::serialization::bincode::Bincode;
use track::serialization::rmp::Rmp;
use track::serialization::SerializationStrategy;
use track::{
    Apply, Finalization, Identifier, ModificationChannel, ModificationEvent, Trackable,
    TrackableMarker, Tracker,
};

#[derive(Clone, Copy, Debug, PartialEq)]
struct Identity {
    value: u8,
}

impl Identifier for Identity {}

fn position(x: u32, y: u32) -> Record<2> {
    Record::from_fields(vec![x.to_le_bytes().to_vec(), y.to_le_bytes().to_vec()]).unwrap()
}

fn coordinate(record: &Record<2>, index: u16) -> u32 {
    let bytes = record.get(index).unwrap();
    u32::from_le_bytes([bytes[0], bytes[1], bytes[2], bytes[3]])
}

fn coordinates(record: &Record<2>) -> (u32, u32) {
    (coordinate(record, 0), coordinate(record, 1))
}

fn add_one<S: SerializationStrategy>(
    tracker: &mut Tracker<'_, '_, Record<2>, S, Identity>,
    index: u16,
) {
    let next = coordinate(tracker.value(), index) + 1;
    assert!(tracker.value_mut().set(index, next.to_le_bytes().to_vec()));
}

#[test]
fn scenario_both_fields_changed_give_one_event() {
    let channel = ModificationChannel::<Identity>::new();
    let mut value = position(0, 0);
    let mut tracker = Tracker::new(&mut value, channel.sender(), Bincode, Identity { value: 1 });
    add_one(&mut tracker, 0);
    add_one(&mut tracker, 1);
    assert!(matches!(tracker.finish(), Finalization::Published));
    assert_eq!(coordinates(&value), (1, 1));

    let events: Vec<_> = channel.receiver().try_iter().collect();
    assert_eq!(events.len(), 1);
    assert_eq!(events[0].identifier, Identity { value: 1 });

    let mut fresh = position(0, 0);
    Apply::apply_to(&mut fresh, &events[0].modified_fields, Bincode).unwrap();
    assert_eq!(coordinates(&fresh), (1, 1));
}

#[test]
fn scenario_both_fields_changed_give_one_event_with_rmp() {
    let channel = ModificationChannel::<Identity>::new();
    let mut value = position(0, 0);
    let mut tracker = Tracker::new(&mut value, channel.sender(), Rmp, Identity { value: 1 });
    add_one(&mut tracker, 0);
    add_one(&mut tracker, 1);
    assert!(matches!(tracker.finish(), Finalization::Published));

    let events: Vec<_> = channel.receiver().try_iter().collect();
    assert_eq!(events.len(), 1);
    assert_eq!(events[0].identifier, Identity { value: 1 });

    let mut fresh = position(0, 0);
    Apply::apply_to(&mut fresh, &events[0].modified_fields, Rmp).unwrap();
    assert_eq!(coordinates(&fresh), (1, 1));
}

#[test]
fn scenario_no_mutation_gives_no_event() {
    let channel = ModificationChannel::<Identity>::new();
    let mut value = position(5, 5);
    let tracker = Tracker::new(&mut value, channel.sender(), Bincode, Identity { value: 1 });
    assert!(matches!(tracker.finish(), Finalization::Unchanged));
    assert_eq!(channel.receiver().try_iter().count(), 0);
    assert_eq!(coordinates(&value), (5, 5));
}

#[test]
fn scenario_value_written_back_to_itself_gives_no_event() {
    let channel = ModificationChannel::<Identity>::new();
    let mut value = position(5, 5);
    let mut tracker = Tracker::new(&mut value, channel.sender(), Bincode, Identity { value: 1 });
    add_one(&mut tracker, 0);
    assert!(tracker.value_mut().set(0, 5u32.to_le_bytes().to_vec()));
    assert!(matches!(tracker.finish(), Finalization::Unchanged));
    assert_eq!(channel.receiver().try_iter().count(), 0);
}

#[test]
fn scenario_two_entities_arrive_in_submission_order() {
    let channel = ModificationChannel::<Identity>::new();
    let a = Identity { value: b'A' };
    let b = Identity { value: b'B' };
    let mut first = position(0, 0);
    let mut second = position(0, 0);

    let mut tracker = Tracker::new(&mut first, channel.sender(), Bincode, a);
    add_one(&mut tracker, 0);
    assert!(matches!(tracker.finish(), Finalization::Published));

    let mut tracker = Tracker::new(&mut second, channel.sender(), Bincode, b);
    add_one(&mut tracker, 1);
    assert!(matches!(tracker.finish(), Finalization::Published));

    let events: Vec<_> = channel.receiver().try_iter().collect();
    assert_eq!(events.len(), 2);
    assert_eq!(events[0].identifier, a);
    assert_eq!(events[1].identifier, b);

    let mut stale_first = position(0, 0);
    let mut stale_second = position(0, 0);
    Apply::apply_to(&mut stale_first, &events[0].modified_fields, Bincode).unwrap();
    Apply::apply_to(&mut stale_second, &events[1].modified_fields, Bincode).unwrap();
    assert_eq!(coordinates(&stale_first), (1, 0));
    assert_eq!(coordinates(&stale_second), (0, 1));
}

#[test]
fn scenario_two_trackers_alive_at_once_share_one_sender() {
    let channel = ModificationChannel::<Identity>::new();
    let a = Identity { value: b'A' };
    let b = Identity { value: b'B' };
    let mut first = position(0, 0);
    let mut second = position(0, 0);
    let mut tracker_a = Tracker::new(&mut first, channel.sender(), Bincode, a);
    let mut tracker_b = Tracker::new(&mut second, channel.sender(), Bincode, b);
    add_one(&mut tracker_a, 0);
    add_one(&mut tracker_b, 0);
    assert!(matches!(tracker_b.finish(), Finalization::Published));
    assert!(matches!(tracker_a.finish(), Finalization::Published));

    let events: Vec<_> = channel.receiver().try_iter().collect();
    assert_eq!(events.len(), 2);
    assert_eq!(events[0].identifier, b);
    assert_eq!(events[1].identifier, a);
}

#[test]
fn scenario_diff_with_only_x_keeps_y() {
    let mut diff = Diff::new();
    diff.push(0, 42u32.to_le_bytes().to_vec());
    let data = Bincode.serialize(&diff).unwrap();

    let mut target = position(9, 9);
    Apply::apply_to(&mut target, &data, Bincode).unwrap();
    assert_eq!(coordinates(&target), (42, 9));
}

#[test]
fn scenario_diff_with_only_x_keeps_y_with_rmp() {
    let mut diff = Diff::new();
    diff.push(0, 42u32.to_le_bytes().to_vec());
    let data = Rmp.serialize(&diff).unwrap();

    let mut target = position(9, 9);
    Apply::apply_to(&mut target, &data, Rmp).unwrap();
    assert_eq!(coordinates(&target), (42, 9));
}

#[test]
fn scenario_track_method_uses_the_default_strategy() {
    let channel = ModificationChannel::<Identity>::new();
    let mut value = position(3, 4);
    let mut tracker =
        <Record<2> as Trackable<Rmp>>::track(&mut value, channel.sender(), Identity { value: 7 });
    add_one(&mut tracker, 1);
    assert!(matches!(tracker.finish(), Finalization::Published));

    let event = channel.receiver().recv().unwrap();
    assert_eq!(event.identifier, Identity { value: 7 });
    let mut stale = position(3, 4);
    Apply::apply_to(&mut stale, &event.modified_fields, Rmp).unwrap();
    assert_eq!(coordinates(&stale), (3, 5));
}

#[test]
fn scenario_stale_copy_keeps_its_own_unrelated_field() {
    let channel = ModificationChannel::<Identity>::new();
    let mut source = position(1, 1);
    let mut tracker = Tracker::new(&mut source, channel.sender(), Bincode, Identity { value: 1 });
    assert!(tracker.value_mut().set(0, 8u32.to_le_bytes().to_vec()));
    assert!(matches!(tracker.finish(), Finalization::Published));
    let event = channel.receiver().try_recv().unwrap();

    let mut stale = position(1, 77);
    Apply::apply_to(&mut stale, &event.modified_fields, Bincode).unwrap();
    assert_eq!(coordinates(&stale), (8, 77));
}

#[test]
fn scenario_with_the_names_of_the_preclude() {
    let channel = track::ModificationChannel::<Identity>::new();
    let sender: &track::preclude::Sender<track::preclude::ModificationEvent<Identity>> =
        channel.sender();
    let receiver: &track::re_exports::crossbeam_channel::Receiver<ModificationEvent<Identity>> =
        channel.receiver();
    let mut value = position(2, 2);
    let mut tracker = track::preclude::Tracker::new(
        &mut value,
        sender,
        track::preclude::Bincode,
        Identity { value: 1 },
    );
    add_one(&mut tracker, 0);
    assert!(matches!(tracker.finish(), Finalization::Published));
    assert_eq!(receiver.len(), 1);
}

#[test]
fn scenario_of_the_crate_documentation() {
    let channel = ModificationChannel::<Identity>::new();
    let mut position = Record::<2>::from_fields(vec![vec![0], vec![0]]).unwrap();
    let mut outdated = position.snapshot();

    let mut tracker =
        Tracker::new(&mut position, channel.sender(), Bincode, Identity { value: 1 });
    assert!(tracker.value_mut().set(0, vec![1]));
    assert!(matches!(tracker.finish(), Finalization::Published));

    for event in channel.receiver().try_iter() {
        Apply::apply_to(&mut outdated, &event.modified_fields, Bincode).unwrap();
    }
    assert_eq!(outdated.get(0), position.get(0));
    assert_eq!(outdated.get(0), Some(&vec![1u8]));
    assert_eq!(outdated.get(1), Some(&vec![0u8]));
}
