//! The control loop, the command queue and the I/O dispatch on concrete
//! scenarios.

use russ::command::{CommandQueue, FeedId, IoCommand};
use russ::control::{control_step, LocalEffect};
use russ::dispatch::{begin_command, enqueue_delayed_clear, finish_refresh, io_step, IoStep};
use russ::keys::{KeyCode, KeyEvent, KeyModifiers};
use russ::modes::{Mode, Selected};
use russ::pipeline::{default_concurrency_limit, Pipeline};
use russ::state::AppState;
use russ::Event;

const EDIT_KEY: char = 'e';

fn key(code: KeyCode) -> Event<KeyEvent> {
    Event::Input(KeyEvent { code, modifiers: KeyModifiers::Plain })
}

fn feeds(ids: &[u64]) -> Vec<FeedId> {
    ids.iter().map(|&id| FeedId { id }).collect()
}

#[test]
fn queue_is_fifo() {
    let mut q = CommandQueue::new();
    q.send(IoCommand::RefreshFeed(FeedId { id: 7 }));
    q.send(IoCommand::ClearFlash);
    q.send(IoCommand::Break);
    assert_eq!(q.len(), 3);
    assert!(matches!(q.recv(), Some(IoCommand::RefreshFeed(FeedId { id: 7 }))));
    assert!(matches!(q.recv(), Some(IoCommand::ClearFlash)));
    assert!(matches!(q.recv(), Some(IoCommand::Break)));
    assert!(q.recv().is_none());
}

#[test]
fn delayed_clear_joins_queue_tail() {
    let mut q = CommandQueue::new();
    q.send(IoCommand::RefreshFeed(FeedId { id: 1 }));
    // The I/O thread handles the refresh, then schedules its own clear; a
    // command sent during the delay interleaves ahead of the clear.
    assert!(matches!(q.recv(), Some(IoCommand::RefreshFeed(_))));
    q.send(IoCommand::SubscribeToFeed(String::from("url"))); // sent during the delay
    enqueue_delayed_clear(&mut q);
    assert!(matches!(q.recv(), Some(IoCommand::SubscribeToFeed(_))));
    assert!(matches!(q.recv(), Some(IoCommand::ClearFlash)));
}

#[test]
fn edit_key_enters_editing() {
    let mut app = AppState::new();
    let mut q = CommandQueue::new();
    let (quit, effect) = control_step(&mut app, &mut q, &key(KeyCode::Char(EDIT_KEY)), EDIT_KEY);
    assert!(!quit);
    assert_eq!(effect, LocalEffect::NoEffect);
    assert_eq!(app.mode(), Mode::Editing);
    assert_eq!(q.len(), 0);
}

#[test]
fn escape_returns_to_normal_with_buffer_intact() {
    let mut app = AppState::new();
    let mut q = CommandQueue::new();
    app.set_mode(Mode::Editing);
    for c in "https://example.com/feed".chars() {
        let (quit, _) = control_step(&mut app, &mut q, &key(KeyCode::Char(c)), EDIT_KEY);
        assert!(!quit);
    }
    assert_eq!(app.feed_subscription_input(), "https://example.com/feed");
    control_step(&mut app, &mut q, &key(KeyCode::Esc), EDIT_KEY);
    assert_eq!(app.mode(), Mode::Normal);
    assert_eq!(app.feed_subscription_input(), "https://example.com/feed");
    assert_eq!(q.len(), 0);
}

#[test]
fn backspace_removes_last_character() {
    let mut app = AppState::new();
    let mut q = CommandQueue::new();
    app.set_mode(Mode::Editing);
    control_step(&mut app, &mut q, &key(KeyCode::Char('a')), EDIT_KEY);
    control_step(&mut app, &mut q, &key(KeyCode::Char('b')), EDIT_KEY);
    control_step(&mut app, &mut q, &key(KeyCode::Backspace), EDIT_KEY);
    assert_eq!(app.feed_subscription_input(), "a");
    // Backspace on an empty buffer is a no-op.
    control_step(&mut app, &mut q, &key(KeyCode::Backspace), EDIT_KEY);
    control_step(&mut app, &mut q, &key(KeyCode::Backspace), EDIT_KEY);
    assert_eq!(app.feed_subscription_input(), "");
}

#[test]
fn enter_dispatches_exactly_one_subscribe() {
    let mut app = AppState::new();
    let mut q = CommandQueue::new();
    app.set_mode(Mode::Editing);
    for c in "url".chars() {
        control_step(&mut app, &mut q, &key(KeyCode::Char(c)), EDIT_KEY);
    }
    let (quit, _) = control_step(&mut app, &mut q, &key(KeyCode::Enter), EDIT_KEY);
    assert!(!quit);
    assert_eq!(app.mode(), Mode::Editing);
    assert_eq!(q.len(), 1);
    match q.recv() {
        Some(IoCommand::SubscribeToFeed(text)) => assert_eq!(text, "url"),
        _ => panic!("expected a subscribe command"),
    }
}

#[test]
fn quit_key_clears_error_then_terminates() {
    let mut app = AppState::new();
    let mut q = CommandQueue::new();
    app.push_error_flash(String::from("fetch failed"));
    // First press: dismiss the error, keep running, send nothing.
    let (quit, _) = control_step(&mut app, &mut q, &key(KeyCode::Char('q')), EDIT_KEY);
    assert!(!quit);
    assert!(app.error_flash_is_empty());
    assert_eq!(q.len(), 0);
    // Second press: terminate, with exactly one Break command.
    let (quit, _) = control_step(&mut app, &mut q, &key(KeyCode::Char('q')), EDIT_KEY);
    assert!(quit);
    assert_eq!(q.len(), 1);
    assert!(matches!(q.recv(), Some(IoCommand::Break)));
    assert!(q.recv().is_none());
}

#[test]
fn ctrl_c_and_escape_also_quit_in_normal_mode() {
    for code_mods in [
        (KeyCode::Char('c'), KeyModifiers::Control),
        (KeyCode::Esc, KeyModifiers::Plain),
    ] {
        let mut app = AppState::new();
        let mut q = CommandQueue::new();
        let ev = Event::Input(KeyEvent { code: code_mods.0, modifiers: code_mods.1 });
        let (quit, _) = control_step(&mut app, &mut q, &ev, EDIT_KEY);
        assert!(quit);
        assert!(matches!(q.recv(), Some(IoCommand::Break)));
    }
}

#[test]
fn refresh_key_on_feed_pane_refreshes_selected_feed() {
    let mut app = AppState::new();
    let mut q = CommandQueue::new();
    app.set_feeds(feeds(&[10, 20, 30]));
    let (quit, effect) = control_step(&mut app, &mut q, &key(KeyCode::Char('r')), EDIT_KEY);
    assert!(!quit);
    assert_eq!(effect, LocalEffect::NoEffect);
    assert!(matches!(q.recv(), Some(IoCommand::RefreshFeed(FeedId { id: 10 }))));
}

#[test]
fn refresh_key_with_no_feeds_sends_nothing() {
    let mut app = AppState::new();
    let mut q = CommandQueue::new();
    let (quit, effect) = control_step(&mut app, &mut q, &key(KeyCode::Char('r')), EDIT_KEY);
    assert!(!quit);
    assert_eq!(effect, LocalEffect::NoEffect);
    assert_eq!(q.len(), 0);
}

#[test]
fn refresh_key_elsewhere_toggles_read_locally() {
    let mut app = AppState::new();
    let mut q = CommandQueue::new();
    app.set_feeds(feeds(&[10]));
    app.set_selected(Selected::Entries);
    let (_, effect) = control_step(&mut app, &mut q, &key(KeyCode::Char('r')), EDIT_KEY);
    assert_eq!(effect, LocalEffect::ToggleRead);
    assert_eq!(q.len(), 0);
}

#[test]
fn refresh_all_key_sends_every_feed() {
    let mut app = AppState::new();
    let mut q = CommandQueue::new();
    app.set_feeds(feeds(&[1, 2, 3]));
    control_step(&mut app, &mut q, &key(KeyCode::Char('x')), EDIT_KEY);
    match q.recv() {
        Some(IoCommand::RefreshFeeds(ids)) => {
            assert_eq!(ids, feeds(&[1, 2, 3]));
        },
        _ => panic!("expected a batch refresh command"),
    }
}

#[test]
fn unreserved_keys_are_delegated() {
    let mut app = AppState::new();
    let mut q = CommandQueue::new();
    let (_, effect) = control_step(&mut app, &mut q, &key(KeyCode::Char('j')), EDIT_KEY);
    assert_eq!(effect, LocalEffect::Delegate(KeyCode::Char('j'), KeyModifiers::Plain));
    // A failure of the delegated handler is captured as an error flash.
    app.push_error_flash(String::from("no such action"));
    assert!(!app.error_flash_is_empty());
}

#[test]
fn ticks_change_nothing() {
    let mut app = AppState::new();
    let mut q = CommandQueue::new();
    let (quit, effect) = control_step(&mut app, &mut q, &Event::Tick, EDIT_KEY);
    assert!(!quit);
    assert_eq!(effect, LocalEffect::NoEffect);
    assert_eq!(app.mode(), Mode::Normal);
    assert_eq!(q.len(), 0);
}

#[test]
fn notification_overwrite_then_unconditional_clear() {
    let mut app = AppState::new();
    app.set_flash(String::from("Refreshing feed..."));
    app.set_flash(String::from("Refreshed feed in 2ms"));
    // The newest set wins.
    assert_eq!(app.flash().as_deref(), Some("Refreshed feed in 2ms"));
    // The delayed clear scheduled for the first message fires: it blanks the
    // newer message too.
    app.clear_flash();
    assert_eq!(app.flash().as_deref(), None);
}

#[test]
fn begin_command_announces_each_kind_of_work() {
    let mut app = AppState::new();

    let step = begin_command(&mut app, IoCommand::RefreshFeed(FeedId { id: 4 }));
    assert_eq!(app.flash().as_deref(), Some("Refreshing feed..."));
    match step {
        IoStep::StartRefresh { ids, single } => {
            assert_eq!(ids, feeds(&[4]));
            assert!(single);
        },
        _ => panic!("expected refresh work"),
    }

    let step = begin_command(&mut app, IoCommand::RefreshFeeds(feeds(&[4, 5])));
    assert_eq!(app.flash().as_deref(), Some("Refreshing all feeds..."));
    match step {
        IoStep::StartRefresh { ids, single } => {
            assert_eq!(ids, feeds(&[4, 5]));
            assert!(!single);
        },
        _ => panic!("expected refresh work"),
    }

    let step = begin_command(&mut app, IoCommand::SubscribeToFeed(String::from("u")));
    assert_eq!(app.flash().as_deref(), Some("Subscribing to feed..."));
    assert!(matches!(step, IoStep::StartSubscribe { .. }));

    let step = begin_command(&mut app, IoCommand::ClearFlash);
    assert_eq!(app.flash().as_deref(), None);
    assert!(matches!(step, IoStep::ClearedFlash));

    let step = begin_command(&mut app, IoCommand::Break);
    assert!(matches!(step, IoStep::Stop));
}

#[test]
fn single_feed_refresh_summary() {
    let mut app = AppState::new();
    finish_refresh(&mut app, 1, 1, true, "12ms");
    assert_eq!(app.flash().as_deref(), Some("Refreshed feed in 12ms"));
}

#[test]
fn end_to_end_refresh_many_with_one_failing_feed() {
    let mut app = AppState::new();
    let mut q = CommandQueue::new();
    app.set_feeds(feeds(&[1, 2, 3]));

    // The user asks for a full refresh.
    control_step(&mut app, &mut q, &key(KeyCode::Char('x')), EDIT_KEY);

    // The I/O thread dequeues it and announces the work.
    let ids = match io_step(&mut app, &mut q) {
        Some(IoStep::StartRefresh { ids, single: false }) => ids,
        _ => panic!("expected a batch refresh to start"),
    };
    assert_eq!(app.flash().as_deref(), Some("Refreshing all feeds..."));

    // The bounded pipeline runs the three units; feed 2 always times out.
    let total = ids.len();
    let mut p = Pipeline::new(ids, default_concurrency_limit());
    while !p.is_done() {
        let mut in_flight = Vec::new();
        while p.can_launch() {
            in_flight.push(p.launch());
        }
        for id in in_flight {
            let outcome = if id.id == 2 {
                Err(String::from("network timeout"))
            } else {
                Ok(())
            };
            russ::dispatch::record_refresh_outcome(&mut app, &mut p, id, outcome);
        }
    }
    assert_eq!(p.completed_count(), 3);
    assert_eq!(p.success_count(), 2);

    // The unit failure was surfaced as an error flash, not as a stop.
    assert_eq!(app.error_flash().len(), 1);
    assert_eq!(app.error_flash()[0], "network timeout");

    // The summary reports successes out of total, and the delayed clear is
    // scheduled behind everything already in the queue.
    finish_refresh(&mut app, p.success_count(), total, false, "1.50s");
    assert_eq!(app.flash().as_deref(), Some("Refreshed 2/3 feeds in 1.50s"));
    enqueue_delayed_clear(&mut q);

    // When the delay elapses and its turn comes, the clear is unconditional.
    assert!(matches!(io_step(&mut app, &mut q), Some(IoStep::ClearedFlash)));
    assert_eq!(app.flash().as_deref(), None);
}
