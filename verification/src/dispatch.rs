//! The I/O thread's command dispatch: the decisions of the loop that
//! consumes the command queue strictly in order and runs one command to
//! completion before taking the next.
//!
//! The waiting itself — network fetches, the database, the delayed-clear
//! timer — happens outside this model; these functions decide what each
//! command does to the shared state, what work it starts, what the summary
//! notification says, and when a delayed clear is enqueued.

use vstd::prelude::*;

use crate::command::CommandQueue;
use crate::command::CommandView;
use crate::command::FeedId;
use crate::command::IoCommand;
use crate::modes::Selected;
use crate::pipeline::Pipeline;
use crate::state::spec_clear_flash;
use crate::state::spec_push_error;
use crate::state::spec_set_flash;
use crate::state::AppState;
use crate::state::AppView;
use crate::text::append_usize;
use crate::text::dec_digits;

verus! {

/// The work a dequeued command starts.
pub enum IoStep {
    /// Stop consuming the queue; the I/O thread can now be joined.
    Stop,
    /// Run the bounded pipeline over these feeds. `single` selects the
    /// one-feed summary wording over the batch wording.
    StartRefresh { ids: Vec<FeedId>, single: bool },
    /// Attempt to fetch, validate and persist this subscription input.
    StartSubscribe { input: String },
    /// The notification was cleared; nothing is left to do.
    ClearedFlash,
}

/// The mathematical value of an [`IoStep`].
pub enum StepView {
    Stop,
    StartRefresh(Seq<FeedId>, bool),
    StartSubscribe(Seq<char>),
    ClearedFlash,
}

impl View for IoStep {
    type V = StepView;

    open spec fn view(&self) -> StepView {
        match self {
            IoStep::Stop => StepView::Stop,
            IoStep::StartRefresh { ids, single } => StepView::StartRefresh(ids@, *single),
            IoStep::StartSubscribe { input } => StepView::StartSubscribe(input@),
            IoStep::ClearedFlash => StepView::ClearedFlash,
        }
    }
}

/// What beginning a command does to the shared state: refreshes and
/// subscriptions announce themselves in the notification before any work
/// runs, the clear command clears, and terminate touches nothing.
pub open spec fn begin_spec(v: AppView, c: CommandView) -> AppView {
    match c {
        CommandView::Break => v,
        CommandView::RefreshFeed(_) => spec_set_flash(v, "Refreshing feed..."@),
        CommandView::RefreshFeeds(_) => spec_set_flash(v, "Refreshing all feeds..."@),
        CommandView::SubscribeToFeed(_) => spec_set_flash(v, "Subscribing to feed..."@),
        CommandView::ClearFlash => spec_clear_flash(v),
    }
}

/// The work each command starts.
pub open spec fn step_of(c: CommandView) -> StepView {
    match c {
        CommandView::Break => StepView::Stop,
        CommandView::RefreshFeed(id) => StepView::StartRefresh(seq![id], true),
        CommandView::RefreshFeeds(ids) => StepView::StartRefresh(ids, false),
        CommandView::SubscribeToFeed(s) => StepView::StartSubscribe(s),
        CommandView::ClearFlash => StepView::ClearedFlash,
    }
}

/// Begin handling one command: set the in-progress notification (the caller
/// forces a redraw so it is visible before the work completes) and name the
/// work to run.
pub fn begin_command(app: &mut AppState, cmd: IoCommand) -> (r: IoStep)
    ensures
        final(app)@ == begin_spec(old(app)@, cmd@),
        final(app).wf() == old(app).wf(),
        r@ == step_of(cmd@),
{
    match cmd {
        IoCommand::Break => IoStep::Stop,
        IoCommand::RefreshFeed(id) => {
            app.set_flash(String::from_str("Refreshing feed..."));
            let mut ids: Vec<FeedId> = Vec::new();
            ids.push(id);
            proof {
                assert(ids@ =~= seq![id]);
            }
            IoStep::StartRefresh { ids, single: true }
        },
        IoCommand::RefreshFeeds(ids) => {
            app.set_flash(String::from_str("Refreshing all feeds..."));
            IoStep::StartRefresh { ids, single: false }
        },
        IoCommand::SubscribeToFeed(input) => {
            app.set_flash(String::from_str("Subscribing to feed..."));
            IoStep::StartSubscribe { input }
        },
        IoCommand::ClearFlash => {
            app.clear_flash();
            IoStep::ClearedFlash
        },
    }
}

/// One iteration of the I/O loop: take the next command in FIFO order, if
/// one waits, and begin handling it.
pub fn io_step(app: &mut AppState, queue: &mut CommandQueue) -> (r: Option<IoStep>)
    requires
        old(queue).wf(),
    ensures
        final(queue).wf(),
        final(app).wf() == old(app).wf(),
        final(queue).sent() == old(queue).sent(),
        old(queue).pending().len() == 0 ==> {
            &&& r is None
            &&& *final(queue) == *old(queue)
            &&& *final(app) == *old(app)
        },
        old(queue).pending().len() > 0 ==> {
            let c = old(queue).pending()[0];
            &&& final(queue).handled() == old(queue).handled().push(c)
            &&& final(app)@ == begin_spec(old(app)@, c)
            &&& (r matches Some(st) && st@ == step_of(c))
        },
{
    match queue.recv() {
        None => None,
        Some(cmd) => Some(begin_command(app, cmd)),
    }
}

/// The batch summary the user sees: how many units succeeded out of how
/// many, and how long the batch took; a single-feed refresh reports only the
/// elapsed time.
pub open spec fn spec_refresh_summary(
    successes: nat,
    total: nat,
    single: bool,
    elapsed: Seq<char>,
) -> Seq<char> {
    if single {
        "Refreshed feed in "@ + elapsed
    } else {
        "Refreshed "@ + dec_digits(successes) + "/"@ + dec_digits(total) + " feeds in "@
            + elapsed
    }
}

/// Finish a refresh command: set the summary notification. The caller has
/// already refreshed the displayed feed and entries from persisted state,
/// and afterwards forces a redraw and schedules the delayed clear.
pub fn finish_refresh(
    app: &mut AppState,
    successes: usize,
    total: usize,
    single: bool,
    elapsed: &str,
)
    ensures
        final(app)@ == spec_set_flash(
            old(app)@,
            spec_refresh_summary(successes as nat, total as nat, single, elapsed@),
        ),
        final(app).wf() == old(app).wf(),
{
    if single {
        let mut msg = String::from_str("Refreshed feed in ");
        msg.append(elapsed);
        app.set_flash(msg);
    } else {
        let mut msg = String::from_str("Refreshed ");
        append_usize(&mut msg, successes);
        msg.append("/");
        append_usize(&mut msg, total);
        msg.append(" feeds in ");
        msg.append(elapsed);
        proof {
            assert(msg@ =~= spec_refresh_summary(
                successes as nat,
                total as nat,
                single,
                elapsed@,
            ));
        }
        app.set_flash(msg);
    }
}

/// Record one unit's outcome from the pipeline's completion stream: count it
/// in the pipeline, and surface a failure as an error notification — never
/// by stopping the batch.
pub fn record_refresh_outcome(
    app: &mut AppState,
    p: &mut Pipeline,
    id: FeedId,
    outcome: Result<(), String>,
)
    requires
        old(p).wf(),
        old(p).in_flight_ids().contains(id),
    ensures
        final(p).wf(),
        final(p).batch() == old(p).batch(),
        final(p).limit_spec() == old(p).limit_spec(),
        final(p).pending_ids() == old(p).pending_ids(),
        final(p).in_flight_ids() == old(p).in_flight_ids().remove(id),
        final(p).done_ids() == old(p).done_ids().insert(id),
        final(p).succeeded_ids() == if outcome is Ok {
            old(p).succeeded_ids().insert(id)
        } else {
            old(p).succeeded_ids()
        },
        final(p).completed_spec() == old(p).completed_spec() + 1,
        final(p).successes_spec() == old(p).successes_spec() + if outcome is Ok {
            1int
        } else {
            0int
        },
        match outcome {
            Ok(_) => final(app)@ == old(app)@,
            Err(e) => final(app)@ == spec_push_error(old(app)@, e@),
        },
        final(app).wf() == old(app).wf(),
{
    match outcome {
        Ok(_) => {
            p.complete(id, true);
        },
        Err(e) => {
            p.complete(id, false);
            app.push_error_flash(e);
        },
    }
}

/// Finish a subscription command. On failure only an error notification is
/// recorded and nothing else changes. On success the input buffer is reset,
/// the feed working set is replaced wholesale with the freshly persisted
/// one, the feed pane is selected, and the success notification is set; the
/// caller then refreshes the displayed entries, redraws, and schedules the
/// delayed clear exactly when this returns true.
pub fn finish_subscribe(app: &mut AppState, outcome: Result<Vec<FeedId>, String>, elapsed: &str) -> (scheduled: bool)
    requires
        outcome matches Ok(feeds) ==> feeds@.no_duplicates(),
    ensures
        match outcome {
            Ok(feeds) => {
                &&& final(app)@ == spec_set_flash(
                    AppView {
                        input: Seq::<char>::empty(),
                        feeds: feeds@,
                        selected_feed: 0int,
                        selected: Selected::Feeds,
                        ..old(app)@
                    },
                    "Subscribed in "@ + elapsed@,
                )
                &&& final(app).wf()
                &&& scheduled
            },
            Err(e) => {
                &&& final(app)@ == spec_push_error(old(app)@, e@)
                &&& final(app).wf() == old(app).wf()
                &&& !scheduled
            },
        },
{
    match outcome {
        Ok(feeds) => {
            app.reset_feed_subscription_input();
            app.set_feeds(feeds);
            app.select_feeds();
            let mut msg = String::from_str("Subscribed in ");
            msg.append(elapsed);
            app.set_flash(msg);
            true
        },
        Err(e) => {
            app.push_error_flash(e);
            false
        },
    }
}

/// The sending half of the delayed clear: once the display duration has
/// elapsed, the I/O thread sends itself one `ClearFlash` through the same
/// queue, so the clear takes its place in FIFO order behind any command sent
/// meanwhile.
pub fn enqueue_delayed_clear(queue: &mut CommandQueue)
    requires
        old(queue).wf(),
    ensures
        final(queue).wf(),
        final(queue).sent() == old(queue).sent().push(CommandView::ClearFlash),
        final(queue).handled() == old(queue).handled(),
        final(queue).pending() == old(queue).pending().push(CommandView::ClearFlash),
{
    queue.send(IoCommand::ClearFlash);
}

} // verus!
