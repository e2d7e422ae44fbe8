use aichat::client::session::{
    dry_run_events, Session, SessionInput, SessionStep, ABORT_POLL_MILLIS, DRY_RUN_DELAY_MILLIS,
};
use aichat::client::TransportFailure;
use aichat::render::ReplyEvent;
use aichat::utils::abort_signal::{AbortSignal, AbortState};

fn text(fragment: &str) -> ReplyEvent {
    ReplyEvent::Text(fragment.to_string())
}

#[test]
fn the_timings_are_fixed() {
    assert_eq!(ABORT_POLL_MILLIS, 100);
    assert_eq!(DRY_RUN_DELAY_MILLIS, 25);
}

#[test]
fn dry_run_of_abc_is_one_text_and_done() {
    assert_eq!(dry_run_events("abc"), vec![text("abc"), ReplyEvent::Done]);
}

#[test]
fn dry_run_echoes_the_content_in_order_and_ends_once() {
    for content in ["", "abc", "one two  three\nfour ", "你好 世界"] {
        let events = dry_run_events(content);
        let mut echoed = String::new();
        for event in &events[..events.len() - 1] {
            match event {
                ReplyEvent::Text(fragment) => echoed.push_str(fragment),
                ReplyEvent::Done => panic!("done before the end"),
            }
        }
        assert_eq!(echoed, content);
        assert_eq!(events.last(), Some(&ReplyEvent::Done));
    }
    assert_eq!(
        dry_run_events("one two"),
        vec![text("one "), text("two"), ReplyEvent::Done]
    );
}

#[test]
fn fragments_are_passed_on_in_order() {
    let mut session = Session::new();
    let mut abort = AbortSignal::new();
    for fragment in ["Hel", "lo\nWor", "ld"] {
        let step = session.step(SessionInput::Fragment(fragment.to_string()), &mut abort);
        assert_eq!(step, SessionStep { event: Some(text(fragment)), outcome: None });
        assert!(!session.is_finished());
    }
    assert_eq!(abort.state(), AbortState::Running);
}

#[test]
fn the_end_of_the_exchange_notifies_the_renderer() {
    let mut session = Session::new();
    let mut abort = AbortSignal::new();
    let step = session.step(SessionInput::Retrieved(Ok(())), &mut abort);
    assert_eq!(step, SessionStep { event: Some(ReplyEvent::Done), outcome: Some(Ok(())) });
    assert!(session.is_finished());
}

#[test]
fn a_failed_exchange_is_reported_with_its_context() {
    let mut session = Session::new();
    let mut abort = AbortSignal::new();
    let step = session.step(SessionInput::Retrieved(Err("connection reset".to_string())), &mut abort);
    assert_eq!(step.event, Some(ReplyEvent::Done));
    assert_eq!(
        step.outcome,
        Some(Err(TransportFailure {
            context: "failed to get answer".to_string(),
            cause: "connection reset".to_string(),
        }))
    );
    assert!(session.is_finished());
}

#[test]
fn an_abort_seen_mid_stream_ends_well_and_notifies_once() {
    let mut session = Session::new();
    let mut abort = AbortSignal::new();
    let mut notices = 0;
    let mut outcome = None;

    let inputs = vec![
        SessionInput::Fragment("one ".to_string()),
        SessionInput::AbortPolled,
        SessionInput::Fragment("two ".to_string()),
    ];
    for input in inputs {
        let step = session.step(input, &mut abort);
        assert_ne!(step.event, Some(ReplyEvent::Done));
        assert_eq!(step.outcome, None);
    }
    assert!(!session.is_finished());

    abort.set_ctrld();
    let later = vec![
        SessionInput::AbortPolled,
        SessionInput::Fragment("three".to_string()),
        SessionInput::AbortPolled,
        SessionInput::Retrieved(Ok(())),
        SessionInput::Interrupted,
    ];
    for input in later {
        let step = session.step(input, &mut abort);
        if step.event == Some(ReplyEvent::Done) {
            notices += 1;
        } else {
            assert_eq!(step.event, None);
        }
        if step.outcome.is_some() {
            assert_eq!(outcome, None);
            outcome = step.outcome;
        }
    }
    assert_eq!(notices, 1);
    assert_eq!(outcome, Some(Ok(())));
    assert_eq!(abort.state(), AbortState::CtrlD);
}

#[test]
fn an_abort_by_ctrlc_is_seen_by_the_watch_too() {
    let mut session = Session::new();
    let mut abort = AbortSignal::new();
    abort.set_ctrlc();
    let step = session.step(SessionInput::AbortPolled, &mut abort);
    assert_eq!(step, SessionStep { event: Some(ReplyEvent::Done), outcome: Some(Ok(())) });
}

#[test]
fn an_interrupt_ends_well_without_notifying() {
    let mut session = Session::new();
    let mut abort = AbortSignal::new();
    session.step(SessionInput::Fragment("one ".to_string()), &mut abort);
    let step = session.step(SessionInput::Interrupted, &mut abort);
    assert_eq!(step, SessionStep { event: None, outcome: Some(Ok(())) });
    assert!(session.is_finished());
    assert_eq!(abort.state(), AbortState::CtrlC);

    // what comes after changes nothing
    for input in [
        SessionInput::AbortPolled,
        SessionInput::Retrieved(Ok(())),
        SessionInput::Fragment("late".to_string()),
        SessionInput::Interrupted,
    ] {
        let step = session.step(input, &mut abort);
        assert_eq!(step, SessionStep { event: None, outcome: None });
    }
    assert_eq!(abort.state(), AbortState::CtrlC);
}

#[test]
fn an_interrupt_leaves_an_earlier_abort_as_it_is() {
    let mut session = Session::new();
    let mut abort = AbortSignal::new();
    abort.set_ctrld();
    let step = session.step(SessionInput::Interrupted, &mut abort);
    assert_eq!(step.outcome, Some(Ok(())));
    assert_eq!(abort.state(), AbortState::CtrlD);
}

fn input_of(choice: usize) -> SessionInput {
    match choice {
        0 => SessionInput::Fragment("x ".to_string()),
        1 => SessionInput::Retrieved(Ok(())),
        2 => SessionInput::Retrieved(Err("lost".to_string())),
        3 => SessionInput::AbortPolled,
        _ => SessionInput::Interrupted,
    }
}

#[test]
fn every_run_hands_out_texts_and_then_at_most_one_done() {
    // every sequence of four inputs, with the signal set by someone else
    // before any one of them, or never
    for code in 0..(5 * 5 * 5 * 5) {
        for set_before in 0..5 {
            let mut session = Session::new();
            let mut abort = AbortSignal::new();
            let mut events = Vec::new();
            let mut outcomes = 0;
            let mut rest = code;
            for at in 0..4 {
                if at == set_before {
                    abort.set_ctrld();
                }
                let step = session.step(input_of(rest % 5), &mut abort);
                rest /= 5;
                if let Some(event) = step.event {
                    assert!(!events.contains(&ReplyEvent::Done));
                    events.push(event);
                }
                if step.outcome.is_some() {
                    outcomes += 1;
                    assert!(session.is_finished());
                }
            }
            assert!(outcomes <= 1);
            assert_eq!(outcomes == 1, session.is_finished());
            let done = events.iter().filter(|event| **event == ReplyEvent::Done).count();
            assert!(done <= 1);
            if !session.is_finished() {
                assert_eq!(done, 0);
            }
        }
    }
}
