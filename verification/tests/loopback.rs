use midi_loopback::endpoints::{find_endpoint_with_unique_id, id_is_free, EndpointInfo};
use midi_loopback::errors::LoopbackError;
use midi_loopback::loopback::{unique_id_property, LoopbackAction, MIDILoopback, StepOutcome};

/// Reports success for every pending operation and returns what the last report answered.
fn finish_build(loopback: &mut MIDILoopback) -> Result<(), LoopbackError> {
    loop {
        assert!(loopback.next_action().is_some());
        if let Some(result) = loopback.report(StepOutcome::Done) {
            return result;
        }
    }
}

/// The pending operations, each reported as a success.
fn planned_actions(loopback: &mut MIDILoopback) -> Vec<LoopbackAction> {
    let mut actions = Vec::new();
    while let Some(action) = loopback.next_action() {
        actions.push(action);
        if loopback.report(StepOutcome::Done).is_some() {
            break;
        }
    }
    actions
}

#[test]
fn create_destination() {
    let midi_loopback = MIDILoopback::new("Instrument1", None, None, &vec![]);
    assert!(
        midi_loopback.is_ok(),
        "Failed to create MIDI loopback: {:?}",
        midi_loopback.as_ref().err()
    );
    let (mut loopback, source_id, _destination_id) = midi_loopback.unwrap();
    assert!(finish_build(&mut loopback).is_ok());

    assert_eq!(loopback.get_unique_id(), source_id);
    loopback.rename("new_name");
    assert!(finish_build(&mut loopback).is_ok());
    assert_eq!(loopback.get_unique_id(), source_id);
}

#[test]
fn make_unique_id_test() {
    assert!(MIDILoopback::make_unique_id(&vec![]).is_some())
}

#[test]
fn unique_id_avoids_taken_ids() {
    let taken = vec![Some(1), None, Some(2), Some(3)];
    for _ in 0..100 {
        let id = MIDILoopback::make_unique_id(&taken).unwrap();
        assert!(id != 1 && id != 2 && id != 3);
    }
}

#[test]
fn new_keeps_given_ids() {
    let (loopback, source_id, destination_id) =
        MIDILoopback::new("Synth", Some(5), Some(6), &vec![Some(5), Some(6)]).unwrap();
    assert_eq!(source_id, 5);
    assert_eq!(destination_id, 6);
    assert_eq!(loopback.get_unique_id(), 5);
    assert_eq!(loopback.get_name(), "Synth");
    assert_eq!(loopback.build_name(), "Synth");
}

#[test]
fn new_draws_missing_ids() {
    let taken = vec![Some(10), Some(11)];
    let (_, source_id, destination_id) = MIDILoopback::new("Synth", None, Some(11), &taken).unwrap();
    assert!(source_id != 10 && source_id != 11);
    assert_eq!(destination_id, 11);
}

#[test]
fn creation_plan() {
    let (mut loopback, _, _) = MIDILoopback::new("Pad", Some(0x8000_0001), Some(7), &vec![]).unwrap();
    assert_eq!(
        planned_actions(&mut loopback),
        vec![
            LoopbackAction::CreateSource,
            LoopbackAction::SetSourceUniqueId(-2147483647),
            LoopbackAction::CreateDestination,
            LoopbackAction::SetDestinationUniqueId(7),
        ]
    );
    assert_eq!(loopback.next_action(), None);
}

#[test]
fn rewire_plan_and_missing_destination() {
    let (mut loopback, _, _) = MIDILoopback::new("Pad", Some(1), Some(2), &vec![]).unwrap();
    assert!(finish_build(&mut loopback).is_ok());
    loopback.set_additional_destinations(Some(7), Some(9));
    let expected = vec![
        LoopbackAction::ReleaseDestination,
        LoopbackAction::CreateSource,
        LoopbackAction::SetSourceUniqueId(1),
        LoopbackAction::LocateDestination(7),
        LoopbackAction::CreateOutputPort,
        LoopbackAction::LocateDestination(9),
        LoopbackAction::CreateOutputPort,
        LoopbackAction::CreateDestination,
        LoopbackAction::SetDestinationUniqueId(2),
    ];
    assert_eq!(planned_actions(&mut loopback), expected);

    loopback.set_additional_destinations(None, Some(9));
    assert_eq!(loopback.next_action(), Some(LoopbackAction::ReleaseDestination));
    assert_eq!(loopback.report(StepOutcome::Done), None);
    assert_eq!(loopback.report(StepOutcome::Done), None);
    assert_eq!(loopback.report(StepOutcome::Done), None);
    assert_eq!(loopback.next_action(), Some(LoopbackAction::LocateDestination(9)));
    let failure = loopback.report(StepOutcome::NotFound).unwrap().unwrap_err();
    assert_eq!(failure, LoopbackError::DestinationNotFound(9));
    assert_eq!(failure.message(), "Additional destination with ID 9 not found");
    assert_eq!(loopback.next_action(), None);

    // Nothing is published any more, so the next build releases nothing.
    loopback.rename("Pad 2");
    assert_eq!(loopback.next_action(), Some(LoopbackAction::CreateSource));
}

#[test]
fn failed_rename_keeps_name() {
    let (mut loopback, source_id, _) = MIDILoopback::new("Lead", None, None, &vec![]).unwrap();
    assert!(finish_build(&mut loopback).is_ok());
    loopback.rename("Bass");
    assert_eq!(loopback.build_name(), "Bass");
    assert_eq!(loopback.get_name(), "Lead");
    assert_eq!(loopback.report(StepOutcome::Done), None);
    assert_eq!(
        loopback.report(StepOutcome::Failed(-10843)),
        Some(Err(LoopbackError::CoreMidi(-10843)))
    );
    assert_eq!(loopback.get_name(), "Lead");
    assert_eq!(loopback.get_unique_id(), source_id);
    assert_eq!(loopback.next_action(), None);

    loopback.rename("Bass");
    assert!(finish_build(&mut loopback).is_ok());
    assert_eq!(loopback.get_name(), "Bass");
    assert_eq!(loopback.get_unique_id(), source_id);
}

#[test]
fn unique_id_property_values() {
    assert_eq!(unique_id_property(5), 5);
    assert_eq!(unique_id_property(0x8000_0000), i32::MIN);
    assert_eq!(unique_id_property(u32::MAX), -1);
    assert_eq!(unique_id_property(0x7fff_ffff), i32::MAX);
}

fn endpoint(name: Option<&str>, id: Option<u32>) -> EndpointInfo {
    EndpointInfo { display_name: name.map(|n| n.to_string()), unique_id: id }
}

#[test]
fn find_destination_by_name() {
    let destinations = vec![
        endpoint(None, Some(1)),
        endpoint(Some("IAC Bus 1"), Some(2)),
        endpoint(Some("Synth"), None),
        endpoint(Some("Synth"), Some(4)),
        endpoint(Some("Drums"), Some(5)),
    ];
    assert_eq!(MIDILoopback::find_destination_id_by_name(&destinations, "IAC Bus 1"), Some(2));
    assert_eq!(MIDILoopback::find_destination_id_by_name(&destinations, "Drums"), Some(5));
    assert_eq!(MIDILoopback::find_destination_id_by_name(&destinations, "Synth"), None);
    assert_eq!(MIDILoopback::find_destination_id_by_name(&destinations, "Piano"), None);
    assert_eq!(MIDILoopback::find_destination_id_by_name(&vec![], "Piano"), None);
}

#[test]
fn find_endpoint_by_unique_id() {
    let destinations = vec![
        endpoint(Some("A"), None),
        endpoint(Some("B"), Some(7)),
        endpoint(Some("C"), Some(7)),
    ];
    assert_eq!(find_endpoint_with_unique_id(&destinations, 7), Some(1));
    assert_eq!(find_endpoint_with_unique_id(&destinations, 8), None);
}

#[test]
fn id_is_free_checks_every_endpoint() {
    let taken = vec![None, Some(3), Some(8)];
    assert!(!id_is_free(8, &taken));
    assert!(!id_is_free(3, &taken));
    assert!(id_is_free(0, &taken));
    assert!(id_is_free(4, &vec![]));
}

#[test]
fn report_without_build_changes_nothing() {
    let (mut loopback, _, _) = MIDILoopback::new("Keys", Some(3), Some(4), &vec![]).unwrap();
    assert!(finish_build(&mut loopback).is_ok());
    assert_eq!(loopback.next_action(), None);
    assert_eq!(loopback.report(StepOutcome::Done), None);
    assert_eq!(loopback.report(StepOutcome::Failed(-1)), None);
    assert_eq!(loopback.get_name(), "Keys");
    assert_eq!(loopback.build_name(), "Keys");
}

#[test]
fn rename_replaces_a_build_in_progress() {
    let (mut loopback, _, _) = MIDILoopback::new("Keys", Some(3), Some(4), &vec![]).unwrap();
    assert_eq!(loopback.report(StepOutcome::Done), None);
    loopback.rename("Organ");
    assert_eq!(loopback.next_action(), Some(LoopbackAction::CreateSource));
    assert!(finish_build(&mut loopback).is_ok());
    assert_eq!(loopback.get_name(), "Organ");
    assert_eq!(loopback.get_unique_id(), 3);
}

#[test]
fn start_with_draws_reports_the_failed_search() {
    let source_failed = MIDILoopback::start_with_draws("Lead", None, None, None, None);
    assert_eq!(source_failed.err(), Some(LoopbackError::NoUniqueSourceId));
    let source_failed = MIDILoopback::start_with_draws("Lead", None, None, None, Some(9));
    assert_eq!(source_failed.err(), Some(LoopbackError::NoUniqueSourceId));
    let destination_failed = MIDILoopback::start_with_draws("Lead", None, None, Some(8), None);
    assert_eq!(destination_failed.err(), Some(LoopbackError::NoUniqueDestinationId));
    let destination_failed = MIDILoopback::start_with_draws("Lead", Some(1), None, None, None);
    assert_eq!(destination_failed.err(), Some(LoopbackError::NoUniqueDestinationId));
    let (loopback, s, d) = MIDILoopback::start_with_draws("Lead", None, Some(4), Some(8), None).unwrap();
    assert_eq!((s, d), (8, 4));
    assert_eq!(loopback.get_unique_id(), 8);
    let (_, s, d) = MIDILoopback::start_with_draws("Lead", Some(1), Some(2), None, Some(7)).unwrap();
    assert_eq!((s, d), (1, 2));
}

#[test]
fn first_free_draw_picks_the_first_free_within_the_limit() {
    let taken = vec![Some(1), Some(2), None];
    assert_eq!(MIDILoopback::first_free_draw(&vec![1, 2, 5, 6], &taken), Some(5));
    assert_eq!(MIDILoopback::first_free_draw(&vec![7], &taken), Some(7));
    assert_eq!(MIDILoopback::first_free_draw(&vec![2, 1, 2], &taken), None);
    assert_eq!(MIDILoopback::first_free_draw(&vec![], &taken), None);
    let mut draws = vec![1u32; 10000];
    draws.push(5);
    assert_eq!(MIDILoopback::first_free_draw(&draws, &taken), None);
    draws[9999] = 6;
    assert_eq!(MIDILoopback::first_free_draw(&draws, &taken), Some(6));
}

#[test]
fn name_and_id_after_many_calls() {
    let (mut loopback, source_id, _) = MIDILoopback::new("A", None, None, &vec![]).unwrap();
    assert!(finish_build(&mut loopback).is_ok());
    loopback.rename("B");
    assert!(finish_build(&mut loopback).is_ok());
    loopback.set_additional_destinations(Some(3), None);
    assert_eq!(loopback.report(StepOutcome::Failed(-10842)), Some(Err(LoopbackError::CoreMidi(-10842))));
    loopback.rename("C");
    assert_eq!(loopback.report(StepOutcome::Done), None);
    assert_eq!(loopback.report(StepOutcome::Done), None);
    assert_eq!(loopback.report(StepOutcome::NotFound), Some(Err(LoopbackError::DestinationNotFound(3))));
    assert_eq!(loopback.get_name(), "B");
    loopback.set_additional_destinations(None, None);
    assert!(finish_build(&mut loopback).is_ok());
    assert_eq!(loopback.get_name(), "B");
    loopback.rename("D");
    assert!(finish_build(&mut loopback).is_ok());
    assert_eq!(loopback.get_name(), "D");
    assert_eq!(loopback.get_unique_id(), source_id);
}
