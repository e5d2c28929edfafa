use tankovault_console::activity::{
    known_activity, tail, tail_line, ScanActivity, TailLine, TaskEnd, TaskEvent,
};
use tankovault_console::live::{
    attach_key, pill_class, Channel, ConsoleLive, Link, LinkEvent, LiveState, Push, Step,
    RECONNECT_BACKOFF_MAX_MS, RECONNECT_BACKOFF_START_MS,
};
use tankovault_console::keys::has_key;
use tankovault_console::wording::Label;

#[test]
fn failures_back_off_to_the_ceiling() {
    let mut link = Link::new();
    assert_eq!(
        link.take(LinkEvent::Started {
            signed_in: true,
            attached: true
        }),
        Some(Step::Ticket)
    );
    let mut waits = Vec::new();
    for event in [
        LinkEvent::Refused,
        LinkEvent::Unopened,
        LinkEvent::Ended { lasted_ms: 4_999 },
        LinkEvent::Refused,
        LinkEvent::Refused,
        LinkEvent::Refused,
    ] {
        match link.take(event) {
            Some(Step::Wait(ms)) => waits.push(ms),
            other => panic!("{other:?}"),
        }
        assert_eq!(link.state, LiveState::Reconnecting);
    }
    assert_eq!(waits, vec![1_000, 2_000, 4_000, 8_000, 15_000, 15_000]);
    assert_eq!(link.backoff_ms, RECONNECT_BACKOFF_MAX_MS);
}

#[test]
fn a_served_stream_starts_over() {
    let mut link = Link {
        state: LiveState::Live,
        backoff_ms: 15_000,
    };
    assert_eq!(
        link.take(LinkEvent::Ended { lasted_ms: 5_000 }),
        Some(Step::Wait(RECONNECT_BACKOFF_START_MS))
    );
    assert_eq!(link.backoff_ms, 2_000);
}

#[test]
fn detaching_closes_the_stream() {
    let mut link = Link::new();
    assert_eq!(
        link.take(LinkEvent::Started {
            signed_in: true,
            attached: false
        }),
        Some(Step::Rest)
    );
    assert_eq!(link.state, LiveState::Paused);
    assert_eq!(
        link.take(LinkEvent::Started {
            signed_in: false,
            attached: true
        }),
        Some(Step::Rest)
    );
    assert_eq!(link.state, LiveState::Connecting);
}

fn event(id: u128, end: TaskEnd) -> TaskEvent {
    TaskEvent {
        id,
        kind: "series".to_owned(),
        provider_slug: Some("kunmanga".to_owned()),
        target: serde_json::from_str("{\"path\":\"/manga/x\",\"page\":3}").unwrap(),
        end,
        state_key: "status.task.done".to_owned(),
        error: None,
        finished_at: Some("2026-08-09T00:00:00Z".to_owned()),
    }
}

fn activity(events: Vec<TaskEvent>) -> ScanActivity {
    ScanActivity { runs: Vec::new(), events }
}

#[test]
fn the_tail_says_what_settled_and_why_it_failed() {
    let done = tail_line(&event(1, TaskEnd::Done));
    assert_eq!(
        done,
        TailLine {
            dot: "background:var(--jade-bright);",
            settled_at: Some("2026-08-09T00:00:00Z".to_owned()),
            kind: "series".to_owned(),
            provider: "kunmanga".to_owned(),
            target: "/manga/x #3".to_owned(),
            failed: false,
            said: Label::Keyed("status.task.done".to_owned()),
        }
    );
    let failed = tail_line(&TaskEvent {
        provider_slug: None,
        ..event(2, TaskEnd::Failed)
    });
    assert_eq!(failed.said, Label::Worded("console.scan.failures.noError"));
    assert_eq!((failed.provider.as_str(), failed.failed), ("", true));
    assert_eq!(failed.dot, "background:var(--vermilion);");
    let told = tail_line(&TaskEvent {
        error: Some("no selector".to_owned()),
        ..event(3, TaskEnd::Failed)
    });
    assert_eq!(told.said, Label::Verbatim("no selector".to_owned()));
    let silent = tail_line(&TaskEvent {
        error: Some("ignored".to_owned()),
        ..event(4, TaskEnd::Other)
    });
    assert_eq!(silent.said, Label::Keyed("status.task.done".to_owned()));
}

#[test]
fn the_tail_keeps_the_order_it_is_given() {
    let pushed = activity(vec![event(1, TaskEnd::Failed), event(2, TaskEnd::Done)]);
    let seed = activity(vec![event(3, TaskEnd::Other)]);
    let failed: Vec<bool> = tail(Some(&pushed)).iter().map(|line| line.failed).collect();
    assert_eq!(failed, vec![true, false]);
    assert_eq!(tail(None), Vec::new());
    assert_eq!(known_activity(Some(&pushed), Some(&seed)), Some(&pushed));
    assert_eq!(known_activity(None, Some(&seed)), Some(&seed));
    assert_eq!(known_activity(None, None), None);
}

#[test]
fn the_bar_is_live_on_a_delivered_push_alone() {
    let mut live = ConsoleLive::new();
    assert!(live.pushed(Push::Unread));
    assert_eq!(live.link.state, LiveState::Live);
    assert!(!live.pushed(Push::Runs(Vec::new())));
    assert_eq!(live.runs, Some(Vec::new()));
    assert_eq!((live.stats, live.activity.is_none()), (None, true));
    assert!(!live.pushed(Push::Unread));
    assert_eq!(live.runs, Some(Vec::new()));
    let seen = activity(vec![event(1, TaskEnd::Done)]);
    assert!(!live.pushed(Push::Activity(seen)));
    assert!(!live.pushed(Push::Unread));
    assert_eq!(live.activity, Some(activity(vec![event(1, TaskEnd::Done)])));
    assert!(live.link.state.is_current());
    assert_eq!(pill_class(live.link.state), "ik-live on");
    assert_eq!(attach_key(true), "console.live.pause");
}

#[test]
fn every_channel_and_state_has_a_name() {
    for channel in Channel::ALL {
        assert_eq!(Channel::parse(channel.token()), Some(channel));
    }
    assert_eq!(Channel::parse("weather"), None);
    for state in [
        LiveState::Connecting,
        LiveState::Live,
        LiveState::Reconnecting,
        LiveState::Paused,
    ] {
        assert!(has_key(state.label_key()));
    }
    assert_eq!(LiveState::default(), LiveState::Connecting);
}
