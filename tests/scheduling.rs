use mandel_explorer::tile_state::TileState;

type State = TileState<&'static str, Vec<u8>>;

#[test]
fn first_update_schedules_exactly_the_visible_tiles() {
    let in_view = [true, false, true, true, false];
    let mut states: Vec<State> = (0..5).map(|_| TileState::Idle).collect();
    let mut ticket = 0u64;
    for (s, &v) in states.iter_mut().zip(in_view.iter()) {
        let step = s.begin_update(v, true);
        assert!(matches!(step.displaced, TileState::Idle));
        assert_eq!(step.schedule, v);
        if step.schedule {
            ticket += 1;
            s.start("job", ticket);
        }
    }
    for (s, &v) in states.iter().zip(in_view.iter()) {
        assert_eq!(s.is_computing(), v);
        if !v {
            assert!(matches!(s, TileState::Idle));
        }
    }
}

#[test]
fn repeated_update_with_same_view_schedules_nothing() {
    let mut s: State = TileState::Idle;
    let step = s.begin_update(true, true);
    assert!(step.schedule);
    s.start("job", 1);
    let again = s.begin_update(true, false);
    assert!(!again.schedule);
    assert!(matches!(again.displaced, TileState::Idle));
    assert!(matches!(s, TileState::Computing { job: "job", ticket: 1 }));
    // the job finished meanwhile: still nothing to schedule
    assert_eq!(s.complete(1, vec![1, 2]), None);
    let third = s.begin_update(true, false);
    assert!(!third.schedule);
    assert!(s.is_waiting_upload());
}

#[test]
fn changed_frame_cancels_every_scheduled_tile() {
    let mut states: Vec<State> = (0..4).map(|_| TileState::Idle).collect();
    for (k, s) in states.iter_mut().enumerate() {
        assert!(s.begin_update(true, true).schedule);
        s.start("first", k as u64);
    }
    for (k, s) in states.iter_mut().enumerate() {
        let step = s.begin_update(true, true);
        assert!(step.schedule);
        match step.displaced {
            TileState::Computing { job, ticket } => {
                assert_eq!(job, "first");
                assert_eq!(ticket, k as u64);
            }
            _ => panic!("the first job was not handed back for cancelling"),
        }
        assert!(matches!(s, TileState::Idle));
        s.start("second", 10 + k as u64);
    }
    assert!(states.iter().all(|s| s.is_computing()));
}

#[test]
fn tile_leaving_view_is_cancelled() {
    let mut s: State = TileState::Computing { job: "job", ticket: 3 };
    let step = s.begin_update(false, false);
    assert!(!step.schedule);
    assert!(matches!(step.displaced, TileState::Computing { ticket: 3, .. }));
    assert!(matches!(s, TileState::Idle));

    let mut w: State = TileState::WaitForUpload { buffer: vec![7] };
    let step = w.begin_update(false, true);
    assert!(!step.schedule);
    assert!(matches!(step.displaced, TileState::WaitForUpload { .. }));
    assert!(matches!(w, TileState::Idle));
}

#[test]
fn stale_job_completion_is_rejected() {
    let mut s: State = TileState::Computing { job: "new", ticket: 2 };
    assert_eq!(s.complete(1, vec![1]), Some(vec![1]));
    assert!(s.is_computing());
    let mut idle: State = TileState::Idle;
    assert_eq!(idle.complete(1, vec![4]), Some(vec![4]));
    assert!(matches!(idle, TileState::Idle));
}

#[test]
fn upload_pickup_takes_the_buffer() {
    let mut s: State = TileState::Computing { job: "job", ticket: 5 };
    assert_eq!(s.take_ready(), None);
    assert!(s.is_computing());
    assert_eq!(s.complete(5, vec![1, 2, 3]), None);
    assert_eq!(s.take_ready(), Some(vec![1, 2, 3]));
    assert!(matches!(s, TileState::Idle));
    assert_eq!(s.take_ready(), None);
}

#[test]
fn cancel_hands_back_previous_state() {
    let mut s: State = TileState::Computing { job: "job", ticket: 9 };
    let prev = s.cancel();
    assert!(matches!(prev, TileState::Computing { job: "job", ticket: 9 }));
    assert!(matches!(s, TileState::Idle));
    assert!(matches!(s.cancel(), TileState::Idle));
}
