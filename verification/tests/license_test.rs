use music_licensing_backend::domain::license::can_transition;
use music_licensing_backend::domain::license::LicenseStatus;
use music_licensing_backend::domain::license::LicenseStatus::{
    Approved, Draft, InNegotiation, Licensed, Rejected, Requested,
};

const ALL: [LicenseStatus; 6] = [Draft, Requested, InNegotiation, Approved, Licensed, Rejected];

#[test]
fn allows_the_happy_path_step_by_step() {
    assert!(can_transition(Draft, Requested));
    assert!(can_transition(Requested, InNegotiation));
    assert!(can_transition(InNegotiation, Approved));
    assert!(can_transition(Approved, Licensed));
}

#[test]
fn allows_rejection_from_requested_or_in_negotiation() {
    assert!(can_transition(Requested, Rejected));
    assert!(can_transition(InNegotiation, Rejected));
}

#[test]
fn rejects_skipping_steps() {
    assert!(!can_transition(Draft, Approved));
    assert!(!can_transition(Draft, Licensed));
    assert!(!can_transition(Requested, Licensed));
}

#[test]
fn rejects_moving_out_of_terminal_states() {
    assert!(!can_transition(Licensed, Draft));
    assert!(!can_transition(Rejected, Requested));
}

#[test]
fn rejects_moving_backwards() {
    assert!(!can_transition(InNegotiation, Requested));
    assert!(!can_transition(Approved, InNegotiation));
}

#[test]
fn rejects_staying_in_place() {
    assert!(!can_transition(Draft, Draft));
    assert!(!can_transition(Approved, Approved));
}

#[test]
fn exactly_six_steps_are_legal() {
    let mut legal = Vec::new();
    for from in ALL {
        for to in ALL {
            if can_transition(from, to) {
                legal.push((from, to));
            }
        }
    }
    assert_eq!(
        legal,
        vec![
            (Draft, Requested),
            (Requested, InNegotiation),
            (Requested, Rejected),
            (InNegotiation, Approved),
            (InNegotiation, Rejected),
            (Approved, Licensed),
        ]
    );
}

#[test]
fn terminal_statuses_lead_nowhere() {
    for to in ALL {
        assert!(!can_transition(Licensed, to));
        assert!(!can_transition(Rejected, to));
    }
}

#[test]
fn no_status_moves_to_itself() {
    for s in ALL {
        assert!(!can_transition(s, s));
    }
}

#[test]
fn rejection_is_reachable_only_from_open_negotiations() {
    let from: Vec<LicenseStatus> = ALL.into_iter().filter(|s| can_transition(*s, Rejected)).collect();
    assert_eq!(from, vec![Requested, InNegotiation]);
}

#[test]
fn following_legal_steps_from_draft_never_revisits_a_status() {
    // Walk every legal path from Draft; none is longer than five statuses
    // and none repeats one.
    let mut paths = vec![vec![Draft]];
    let mut finished = Vec::new();
    while let Some(path) = paths.pop() {
        let last = *path.last().unwrap();
        let next: Vec<LicenseStatus> = ALL.into_iter().filter(|s| can_transition(last, *s)).collect();
        if next.is_empty() {
            finished.push(path);
        } else {
            for s in next {
                let mut longer = path.clone();
                longer.push(s);
                paths.push(longer);
            }
        }
    }
    for path in &finished {
        assert!(path.len() <= 5);
        for i in 0..path.len() {
            for j in i + 1..path.len() {
                assert_ne!(path[i], path[j]);
            }
        }
    }
    let to_licensed: Vec<&Vec<LicenseStatus>> =
        finished.iter().filter(|p| *p.last().unwrap() == Licensed).collect();
    assert_eq!(to_licensed, vec![&vec![Draft, Requested, InNegotiation, Approved, Licensed]]);
}

#[test]
fn statuses_are_named_by_their_variant() {
    let names: Vec<&str> = ALL.into_iter().map(|s| s.name()).collect();
    assert_eq!(names, vec!["Draft", "Requested", "InNegotiation", "Approved", "Licensed", "Rejected"]);
}
