//! The render/control thread's key dispatch: a total step function from
//! (shared state, unified event) to the next state, the commands sent to the
//! I/O thread, a local effect for the caller to perform, and whether the
//! render loop exits.
//!
//! [`step_spec`] is the transition relation; [`control_step`] is the
//! executable step and is proved to follow it exactly. The mode-transition
//! and quit-key laws are stated as proof functions over `step_spec` below.

use vstd::prelude::*;

use crate::command::CommandQueue;
use crate::command::CommandView;
use crate::command::IoCommand;
use crate::keys::KeyCode;
use crate::keys::KeyEvent;
use crate::keys::KeyModifiers;
use crate::modes::Mode;
use crate::modes::Selected;
use crate::state::AppState;
use crate::state::AppView;
use crate::Event;

verus! {

/// What the caller must do locally after a step: effects that touch state
/// outside this model (entry read-flags, feed deletion, the generic per-key
/// action handler).
#[derive(Clone, Copy, Debug, PartialEq, Eq, Structural)]
pub enum LocalEffect {
    /// Nothing beyond what the step already did.
    NoEffect,
    /// Toggle the read flag of the selected entry.
    ToggleRead,
    /// Delete the selected feed directly.
    DeleteFeed,
    /// Hand the key to the generic per-key action handler; if that fails, the
    /// caller records the error with `AppState::push_error_flash`.
    Delegate(KeyCode, KeyModifiers),
}

/// The complete result of one control step, at the specification level.
pub struct StepOutcome {
    pub app: AppView,
    pub sent: Seq<CommandView>,
    pub quit: bool,
    pub effect: LocalEffect,
}

/// The quit combinations: `q` with any modifiers, `Ctrl-C`, or `Escape`
/// (interpreted as quit only in Normal mode, where these are consulted).
pub open spec fn is_quit_key(k: KeyEvent) -> bool {
    ||| k.code == KeyCode::Char('q')
    ||| (k.code == KeyCode::Char('c') && k.modifiers == KeyModifiers::Control)
    ||| k.code == KeyCode::Esc
}

/// Transition for a key pressed in Normal mode.
pub open spec fn normal_step_spec(
    v: AppView,
    sent: Seq<CommandView>,
    k: KeyEvent,
    edit_key: char,
) -> StepOutcome {
    if is_quit_key(k) {
        if v.errors.len() > 0 {
            // First press: dismiss the error notification, keep running.
            StepOutcome {
                app: AppView { errors: Seq::empty(), ..v },
                sent,
                quit: false,
                effect: LocalEffect::NoEffect,
            }
        } else {
            // No error displayed: tear down, send exactly one terminate.
            StepOutcome {
                app: v,
                sent: sent.push(CommandView::Break),
                quit: true,
                effect: LocalEffect::NoEffect,
            }
        }
    } else if k.code == KeyCode::Char('r') && k.modifiers == KeyModifiers::Plain {
        if v.selected == Selected::Feeds {
            if v.feeds.len() > 0 {
                StepOutcome {
                    app: v,
                    sent: sent.push(CommandView::RefreshFeed(v.feeds[v.selected_feed])),
                    quit: false,
                    effect: LocalEffect::NoEffect,
                }
            } else {
                StepOutcome { app: v, sent, quit: false, effect: LocalEffect::NoEffect }
            }
        } else {
            StepOutcome { app: v, sent, quit: false, effect: LocalEffect::ToggleRead }
        }
    } else if k.code == KeyCode::Char('x') && k.modifiers == KeyModifiers::Plain {
        StepOutcome {
            app: v,
            sent: sent.push(CommandView::RefreshFeeds(v.feeds)),
            quit: false,
            effect: LocalEffect::NoEffect,
        }
    } else if k.code == KeyCode::Char(edit_key) && k.modifiers == KeyModifiers::Plain {
        StepOutcome {
            app: AppView { mode: Mode::Editing, ..v },
            sent,
            quit: false,
            effect: LocalEffect::NoEffect,
        }
    } else {
        StepOutcome {
            app: v,
            sent,
            quit: false,
            effect: LocalEffect::Delegate(k.code, k.modifiers),
        }
    }
}

/// Transition for a key pressed in Editing mode.
pub open spec fn editing_step_spec(v: AppView, sent: Seq<CommandView>, k: KeyEvent) -> StepOutcome {
    match k.code {
        KeyCode::Enter => StepOutcome {
            app: v,
            sent: sent.push(CommandView::SubscribeToFeed(v.input)),
            quit: false,
            effect: LocalEffect::NoEffect,
        },
        KeyCode::Char(c) => StepOutcome {
            app: AppView { input: v.input.push(c), ..v },
            sent,
            quit: false,
            effect: LocalEffect::NoEffect,
        },
        KeyCode::Backspace => StepOutcome {
            app: if v.input.len() > 0 {
                AppView { input: v.input.drop_last(), ..v }
            } else {
                v
            },
            sent,
            quit: false,
            effect: LocalEffect::NoEffect,
        },
        KeyCode::Delete => StepOutcome {
            app: v,
            sent,
            quit: false,
            effect: LocalEffect::DeleteFeed,
        },
        KeyCode::Esc => StepOutcome {
            app: AppView { mode: Mode::Normal, ..v },
            sent,
            quit: false,
            effect: LocalEffect::NoEffect,
        },
        _ => StepOutcome { app: v, sent, quit: false, effect: LocalEffect::NoEffect },
    }
}

/// The full transition relation of the control loop: total in the current
/// mode and the incoming event. Ticks change nothing; they only cause a
/// fresh draw.
pub open spec fn step_spec(
    v: AppView,
    sent: Seq<CommandView>,
    event: Event<KeyEvent>,
    edit_key: char,
) -> StepOutcome {
    match event {
        Event::Tick => StepOutcome { app: v, sent, quit: false, effect: LocalEffect::NoEffect },
        Event::Input(k) => match v.mode {
            Mode::Normal => normal_step_spec(v, sent, k, edit_key),
            Mode::Editing => editing_step_spec(v, sent, k),
        },
    }
}

/// One iteration of the control loop's event handling: reads the event,
/// mutates the shared state, sends commands to the I/O queue, and reports
/// whether to quit and which local effect remains for the caller. Follows
/// [`step_spec`] exactly.
pub fn control_step(
    app: &mut AppState,
    queue: &mut CommandQueue,
    event: &Event<KeyEvent>,
    edit_key: char,
) -> (r: (bool, LocalEffect))
    requires
        old(app).wf(),
        old(queue).wf(),
    ensures
        final(app).wf(),
        final(queue).wf(),
        final(queue).handled() == old(queue).handled(),
        ({
            let o = step_spec(old(app)@, old(queue).sent(), *event, edit_key);
            &&& final(app)@ == o.app
            &&& final(queue).sent() == o.sent
            &&& r.0 == o.quit
            &&& r.1 == o.effect
        }),
{
    match event {
        Event::Tick => (false, LocalEffect::NoEffect),
        Event::Input(k) => {
            let k = *k;
            match app.mode() {
                Mode::Normal => {
                    let quit_key = match (k.code, k.modifiers) {
                        (KeyCode::Char('q'), _) => true,
                        (KeyCode::Char('c'), KeyModifiers::Control) => true,
                        (KeyCode::Esc, _) => true,
                        _ => false,
                    };
                    if quit_key {
                        if !app.error_flash_is_empty() {
                            app.clear_error_flash();
                            (false, LocalEffect::NoEffect)
                        } else {
                            queue.send(IoCommand::Break);
                            (true, LocalEffect::NoEffect)
                        }
                    } else {
                        match (k.code, k.modifiers) {
                            (KeyCode::Char('r'), KeyModifiers::Plain) => {
                                match app.selected() {
                                    Selected::Feeds => {
                                        if app.feed_count() > 0 {
                                            let id = app.selected_feed_id();
                                            queue.send(IoCommand::RefreshFeed(id));
                                        }
                                        (false, LocalEffect::NoEffect)
                                    },
                                    _ => (false, LocalEffect::ToggleRead),
                                }
                            },
                            (KeyCode::Char('x'), KeyModifiers::Plain) => {
                                let ids = app.feed_ids();
                                queue.send(IoCommand::RefreshFeeds(ids));
                                (false, LocalEffect::NoEffect)
                            },
                            (code, mods) => {
                                let is_edit = match code {
                                    KeyCode::Char(c) => c == edit_key && match mods {
                                        KeyModifiers::Plain => true,
                                        _ => false,
                                    },
                                    _ => false,
                                };
                                if is_edit {
                                    app.set_mode(Mode::Editing);
                                    (false, LocalEffect::NoEffect)
                                } else {
                                    (false, LocalEffect::Delegate(code, mods))
                                }
                            },
                        }
                    }
                },
                Mode::Editing => {
                    match k.code {
                        KeyCode::Enter => {
                            let input = app.feed_subscription_input();
                            queue.send(IoCommand::SubscribeToFeed(input));
                            (false, LocalEffect::NoEffect)
                        },
                        KeyCode::Char(c) => {
                            app.push_feed_subscription_input(c);
                            (false, LocalEffect::NoEffect)
                        },
                        KeyCode::Backspace => {
                            app.pop_feed_subscription_input();
                            (false, LocalEffect::NoEffect)
                        },
                        KeyCode::Delete => (false, LocalEffect::DeleteFeed),
                        KeyCode::Esc => {
                            app.set_mode(Mode::Normal);
                            (false, LocalEffect::NoEffect)
                        },
                        _ => (false, LocalEffect::NoEffect),
                    }
                },
            }
        },
    }
}

/// Mode-transition law, entering the editor: in Normal mode the edit key
/// (any key not reserved for quit, refresh-one or refresh-all) switches to
/// Editing, and changes nothing else: no command is sent, the input buffer
/// and every other field stay as they were.
pub proof fn lemma_edit_key_enters_editing(
    v: AppView,
    sent: Seq<CommandView>,
    edit_key: char,
)
    requires
        v.mode == Mode::Normal,
        edit_key != 'q',
        edit_key != 'r',
        edit_key != 'x',
    ensures
        ({
            let k = KeyEvent { code: KeyCode::Char(edit_key), modifiers: KeyModifiers::Plain };
            let o = step_spec(v, sent, Event::Input(k), edit_key);
            &&& o.app == (AppView { mode: Mode::Editing, ..v })
            &&& o.sent == sent
            &&& !o.quit
            &&& o.effect == LocalEffect::NoEffect
        }),
{
}

/// Mode-transition law, leaving the editor: in Editing mode, Escape returns
/// to Normal with the input buffer unchanged and sends nothing.
pub proof fn lemma_escape_returns_to_normal(
    v: AppView,
    sent: Seq<CommandView>,
    modifiers: KeyModifiers,
    edit_key: char,
)
    requires
        v.mode == Mode::Editing,
    ensures
        ({
            let k = KeyEvent { code: KeyCode::Esc, modifiers };
            let o = step_spec(v, sent, Event::Input(k), edit_key);
            &&& o.app == (AppView { mode: Mode::Normal, ..v })
            &&& o.app.input == v.input
            &&& o.sent == sent
            &&& !o.quit
        }),
{
}

/// Mode-transition law, submitting the editor: in Editing mode, Enter keeps
/// the mode and the whole state as they are and sends exactly one
/// subscription command carrying the buffer's current contents.
pub proof fn lemma_enter_dispatches_subscribe(
    v: AppView,
    sent: Seq<CommandView>,
    modifiers: KeyModifiers,
    edit_key: char,
)
    requires
        v.mode == Mode::Editing,
    ensures
        ({
            let k = KeyEvent { code: KeyCode::Enter, modifiers };
            let o = step_spec(v, sent, Event::Input(k), edit_key);
            &&& o.app == v
            &&& o.app.mode == Mode::Editing
            &&& o.sent == sent.push(CommandView::SubscribeToFeed(v.input))
            &&& !o.quit
        }),
{
}

/// Quit-key law, first press: with an error notification active, a quit key
/// only dismisses the errors — no terminate command is sent and the process
/// keeps running, with everything else unchanged.
pub proof fn lemma_quit_key_dismisses_error(
    v: AppView,
    sent: Seq<CommandView>,
    k: KeyEvent,
    edit_key: char,
)
    requires
        v.mode == Mode::Normal,
        is_quit_key(k),
        v.errors.len() > 0,
    ensures
        ({
            let o = step_spec(v, sent, Event::Input(k), edit_key);
            &&& o.app == (AppView { errors: Seq::<Seq<char>>::empty(), ..v })
            &&& o.sent == sent
            &&& !o.quit
        }),
{
}

/// Quit-key law, second press: with no error notification active, a quit key
/// exits the render loop and sends exactly one terminate command.
pub proof fn lemma_quit_key_terminates(
    v: AppView,
    sent: Seq<CommandView>,
    k: KeyEvent,
    edit_key: char,
)
    requires
        v.mode == Mode::Normal,
        is_quit_key(k),
        v.errors.len() == 0,
    ensures
        ({
            let o = step_spec(v, sent, Event::Input(k), edit_key);
            &&& o.app == v
            &&& o.sent == sent.push(CommandView::Break)
            &&& o.quit
        }),
{
}

} // verus!
