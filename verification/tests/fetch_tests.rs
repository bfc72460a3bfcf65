use openblas_build::fetch::{advance, start, Action, Event, Phase};

const PHASES: [Phase; 5] =
    [Phase::Probing, Phase::Requesting, Phase::Unpacking, Phase::Confirming, Phase::Finished];
const EVENTS: [Event; 4] = [Event::Present, Event::Absent, Event::Succeeded, Event::Failed];

fn is_final(action: Action) -> bool {
    matches!(action, Action::Return | Action::Fail | Action::Abort)
}

fn run(events: &[Event]) -> Option<(Phase, Vec<Action>)> {
    let mut phase = start();
    let mut actions = Vec::new();
    for event in events {
        let (next, action) = advance(phase, *event)?;
        phase = next;
        actions.push(action);
    }
    Some((phase, actions))
}

#[test]
fn fetch_starts_by_probing() {
    assert_eq!(start(), Phase::Probing);
}

#[test]
fn present_destination_is_returned_at_once() {
    assert_eq!(advance(Phase::Probing, Event::Present), Some((Phase::Finished, Action::Return)));
}

#[test]
fn absent_destination_is_requested() {
    assert_eq!(advance(Phase::Probing, Event::Absent), Some((Phase::Requesting, Action::Request)));
}

#[test]
fn reply_is_unpacked() {
    assert_eq!(
        advance(Phase::Requesting, Event::Succeeded),
        Some((Phase::Unpacking, Action::Unpack))
    );
}

#[test]
fn failed_request_is_handed_back() {
    assert_eq!(advance(Phase::Requesting, Event::Failed), Some((Phase::Finished, Action::Fail)));
}

#[test]
fn unpacked_archive_is_confirmed() {
    assert_eq!(
        advance(Phase::Unpacking, Event::Succeeded),
        Some((Phase::Confirming, Action::Confirm))
    );
}

#[test]
fn failed_unpacking_is_handed_back() {
    assert_eq!(advance(Phase::Unpacking, Event::Failed), Some((Phase::Finished, Action::Fail)));
}

#[test]
fn confirmed_destination_is_returned() {
    assert_eq!(advance(Phase::Confirming, Event::Present), Some((Phase::Finished, Action::Return)));
}

#[test]
fn missing_destination_after_unpacking_aborts() {
    assert_eq!(advance(Phase::Confirming, Event::Absent), Some((Phase::Finished, Action::Abort)));
}

#[test]
fn events_out_of_turn_are_refused() {
    assert_eq!(advance(Phase::Probing, Event::Succeeded), None);
    assert_eq!(advance(Phase::Probing, Event::Failed), None);
    assert_eq!(advance(Phase::Requesting, Event::Present), None);
    assert_eq!(advance(Phase::Requesting, Event::Absent), None);
    assert_eq!(advance(Phase::Unpacking, Event::Present), None);
    assert_eq!(advance(Phase::Unpacking, Event::Absent), None);
    assert_eq!(advance(Phase::Confirming, Event::Succeeded), None);
    assert_eq!(advance(Phase::Confirming, Event::Failed), None);
}

#[test]
fn finished_fetch_takes_no_event() {
    for event in EVENTS {
        assert_eq!(advance(Phase::Finished, event), None);
    }
}

#[test]
fn whole_fetch() {
    let events = [Event::Absent, Event::Succeeded, Event::Succeeded, Event::Present];
    assert_eq!(
        run(&events),
        Some((
            Phase::Finished,
            vec![Action::Request, Action::Unpack, Action::Confirm, Action::Return]
        ))
    );
}

#[test]
fn fetching_again_is_a_no_op() {
    let first = run(&[Event::Absent, Event::Succeeded, Event::Succeeded, Event::Present]);
    assert_eq!(first.map(|(_, actions)| actions.last().copied()), Some(Some(Action::Return)));
    let again = run(&[Event::Present]);
    assert_eq!(again, Some((Phase::Finished, vec![Action::Return])));
}

#[test]
fn request_only_after_absent_probe() {
    for phase in PHASES {
        for event in EVENTS {
            if let Some((_, Action::Request)) = advance(phase, event) {
                assert_eq!((phase, event), (Phase::Probing, Event::Absent));
            }
        }
    }
}

#[test]
fn return_only_on_present() {
    for phase in PHASES {
        for event in EVENTS {
            if let Some((_, Action::Return)) = advance(phase, event) {
                assert_eq!(event, Event::Present);
            }
        }
    }
}

#[test]
fn final_actions_finish_the_fetch() {
    for phase in PHASES {
        for event in EVENTS {
            if let Some((next, action)) = advance(phase, event) {
                assert_eq!(is_final(action), next == Phase::Finished);
            }
        }
    }
}

#[test]
fn no_fetch_takes_more_than_four_steps() {
    for a in EVENTS {
        for b in EVENTS {
            for c in EVENTS {
                for d in EVENTS {
                    for e in EVENTS {
                        assert_eq!(run(&[a, b, c, d, e]), None);
                    }
                }
            }
        }
    }
}
