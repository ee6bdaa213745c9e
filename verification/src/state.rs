//! The shared application state: the container both threads read and write
//! through synchronized accessors. It holds the UI mode, the pane selection,
//! the feed working set, the subscription input line, the transient
//! notification ("flash") and the accumulated error notifications.
//!
//! Every accessor states exactly how the new state relates to the old one, so
//! the control loop and the I/O dispatch can be verified against this model.
//! The flash transitions are named spec functions, and
//! [`lemma_flash_overwrite`] states the overwrite law over them.

use vstd::prelude::*;

use crate::command::FeedId;
use crate::modes::Mode;
use crate::modes::Selected;

verus! {

/// The mathematical value of the shared state.
pub struct AppView {
    pub mode: Mode,
    pub selected: Selected,
    pub input: Seq<char>,
    pub flash: Option<Seq<char>>,
    pub errors: Seq<Seq<char>>,
    pub feeds: Seq<FeedId>,
    pub selected_feed: int,
}

/// Setting a notification overwrites whatever was displayed before.
pub open spec fn spec_set_flash(v: AppView, s: Seq<char>) -> AppView {
    AppView { flash: Some(s), ..v }
}

/// Clearing the notification is unconditional: it blanks whatever is
/// displayed, however recently it was set.
pub open spec fn spec_clear_flash(v: AppView) -> AppView {
    AppView { flash: None, ..v }
}

/// Error notifications accumulate until explicitly dismissed.
pub open spec fn spec_push_error(v: AppView, e: Seq<char>) -> AppView {
    AppView { errors: v.errors.push(e), ..v }
}

/// Relies on String::push: appends exactly the given character.
#[verifier::external_body]
fn push_char(s: &mut String, c: char)
    ensures
        final(s)@ == old(s)@.push(c),
{
    s.push(c);
}

/// Relies on String::pop: removes and returns the last character, or leaves
/// an empty string unchanged and returns nothing.
#[verifier::external_body]
fn pop_char(s: &mut String) -> (r: Option<char>)
    ensures
        old(s)@.len() == 0 ==> final(s)@ == old(s)@ && r is None,
        old(s)@.len() > 0 ==> final(s)@ == old(s)@.drop_last() && r == Some(old(s)@.last()),
{
    s.pop()
}

/// The shared application state. In the running program one value of this
/// sits behind a lock; here every method is an atomic read/modify/write of
/// one logical field.
pub struct AppState {
    mode: Mode,
    selected: Selected,
    feed_subscription_input: String,
    flash: Option<String>,
    error_flash: Vec<String>,
    feed_ids: Vec<FeedId>,
    selected_feed: usize,
}

impl View for AppState {
    type V = AppView;

    closed spec fn view(&self) -> AppView {
        AppView {
            mode: self.mode,
            selected: self.selected,
            input: self.feed_subscription_input@,
            flash: match self.flash {
                Some(s) => Some(s@),
                None => None,
            },
            errors: self.error_flash@.map_values(|s: String| s@),
            feeds: self.feed_ids@,
            selected_feed: self.selected_feed as int,
        }
    }
}

impl AppState {
    /// Feed identifiers are unique, and the feed selection is in range
    /// whenever there are feeds at all.
    pub open spec fn wf(&self) -> bool {
        &&& self@.feeds.no_duplicates()
        &&& self@.feeds.len() > 0 ==> 0 <= self@.selected_feed < self@.feeds.len()
    }

    pub fn new() -> (r: AppState)
        ensures
            r.wf(),
            r@ == (AppView {
                mode: Mode::Normal,
                selected: Selected::Feeds,
                input: Seq::<char>::empty(),
                flash: None,
                errors: Seq::<Seq<char>>::empty(),
                feeds: Seq::<FeedId>::empty(),
                selected_feed: 0int,
            }),
    {
        let r = AppState {
            mode: Mode::Normal,
            selected: Selected::Feeds,
            feed_subscription_input: String::new(),
            flash: None,
            error_flash: Vec::new(),
            feed_ids: Vec::new(),
            selected_feed: 0,
        };
        proof {
            assert(r.error_flash@.map_values(|s: String| s@) =~= Seq::<Seq<char>>::empty());
        }
        r
    }

    pub fn mode(&self) -> (m: Mode)
        ensures
            m == self@.mode,
    {
        self.mode
    }

    pub fn set_mode(&mut self, m: Mode)
        ensures
            final(self)@ == (AppView { mode: m, ..old(self)@ }),
            final(self).wf() == old(self).wf(),
    {
        self.mode = m;
    }

    pub fn selected(&self) -> (s: Selected)
        ensures
            s == self@.selected,
    {
        self.selected
    }

    pub fn set_selected(&mut self, s: Selected)
        ensures
            final(self)@ == (AppView { selected: s, ..old(self)@ }),
            final(self).wf() == old(self).wf(),
    {
        self.selected = s;
    }

    /// Make the feed list the active pane.
    pub fn select_feeds(&mut self)
        ensures
            final(self)@ == (AppView { selected: Selected::Feeds, ..old(self)@ }),
            final(self).wf() == old(self).wf(),
    {
        self.selected = Selected::Feeds;
    }

    /// Set the transient notification, overwriting any previous one.
    pub fn set_flash(&mut self, s: String)
        ensures
            final(self)@ == spec_set_flash(old(self)@, s@),
            final(self).wf() == old(self).wf(),
    {
        self.flash = Some(s);
    }

    /// Clear the transient notification unconditionally.
    pub fn clear_flash(&mut self)
        ensures
            final(self)@ == spec_clear_flash(old(self)@),
            final(self).wf() == old(self).wf(),
    {
        self.flash = None;
    }

    /// The currently displayed notification, if any.
    pub fn flash(&self) -> (r: &Option<String>)
        ensures
            match r {
                Some(s) => self@.flash == Some(s@),
                None => self@.flash is None,
            },
    {
        &self.flash
    }

    /// Record an error notification; errors accumulate until dismissed.
    pub fn push_error_flash(&mut self, e: String)
        ensures
            final(self)@ == spec_push_error(old(self)@, e@),
            final(self).wf() == old(self).wf(),
    {
        let ghost ev = e@;
        self.error_flash.push(e);
        proof {
            assert(final(self)@.errors =~= old(self)@.errors.push(ev));
        }
    }

    /// Dismiss all error notifications.
    pub fn clear_error_flash(&mut self)
        ensures
            final(self)@ == (AppView { errors: Seq::<Seq<char>>::empty(), ..old(self)@ }),
            final(self).wf() == old(self).wf(),
    {
        self.error_flash = Vec::new();
        proof {
            assert(final(self)@.errors =~= Seq::<Seq<char>>::empty());
        }
    }

    pub fn error_flash_is_empty(&self) -> (r: bool)
        ensures
            r == (self@.errors.len() == 0),
    {
        self.error_flash.len() == 0
    }

    /// The accumulated error notifications, oldest first.
    pub fn error_flash(&self) -> (r: &Vec<String>)
        ensures
            r@.map_values(|s: String| s@) == self@.errors,
    {
        &self.error_flash
    }

    /// Append one typed character to the subscription input line.
    pub fn push_feed_subscription_input(&mut self, c: char)
        ensures
            final(self)@ == (AppView { input: old(self)@.input.push(c), ..old(self)@ }),
            final(self).wf() == old(self).wf(),
    {
        push_char(&mut self.feed_subscription_input, c);
    }

    /// Remove the last typed character, if there is one.
    pub fn pop_feed_subscription_input(&mut self)
        ensures
            old(self)@.input.len() == 0 ==> final(self)@ == old(self)@,
            old(self)@.input.len() > 0 ==> final(self)@ == (AppView {
                input: old(self)@.input.drop_last(),
                ..old(self)@
            }),
            final(self).wf() == old(self).wf(),
    {
        let _ = pop_char(&mut self.feed_subscription_input);
    }

    /// Empty the subscription input line.
    pub fn reset_feed_subscription_input(&mut self)
        ensures
            final(self)@ == (AppView { input: Seq::<char>::empty(), ..old(self)@ }),
            final(self).wf() == old(self).wf(),
    {
        self.feed_subscription_input = String::new();
    }

    /// The current contents of the subscription input line.
    pub fn feed_subscription_input(&self) -> (r: String)
        ensures
            r@ == self@.input,
    {
        self.feed_subscription_input.clone()
    }

    /// Replace the feed working set wholesale, as the I/O thread does after a
    /// successful refresh or subscription; the selection returns to the first
    /// feed.
    pub fn set_feeds(&mut self, feeds: Vec<FeedId>)
        requires
            feeds@.no_duplicates(),
        ensures
            final(self).wf(),
            final(self)@ == (AppView { feeds: feeds@, selected_feed: 0int, ..old(self)@ }),
    {
        self.feed_ids = feeds;
        self.selected_feed = 0;
    }

    /// The identifiers of all subscribed feeds, in display order.
    pub fn feed_ids(&self) -> (r: Vec<FeedId>)
        ensures
            r@ == self@.feeds,
    {
        let mut r: Vec<FeedId> = Vec::new();
        let mut i: usize = 0;
        while i < self.feed_ids.len()
            invariant
                i <= self.feed_ids.len(),
                r@ == self@.feeds.take(i as int),
            decreases self.feed_ids.len() - i,
        {
            r.push(self.feed_ids[i]);
            i += 1;
            proof {
                assert(r@ =~= self@.feeds.take(i as int));
            }
        }
        proof {
            assert(r@ =~= self@.feeds);
        }
        r
    }

    /// The position the feed selection rests on.
    pub fn selected_feed_index(&self) -> (i: usize)
        ensures
            i == self@.selected_feed,
    {
        self.selected_feed
    }

    /// Move the feed selection to the given position.
    pub fn select_feed(&mut self, index: usize)
        requires
            index < old(self)@.feeds.len(),
        ensures
            final(self)@ == (AppView { selected_feed: index as int, ..old(self)@ }),
            old(self).wf() ==> final(self).wf(),
    {
        self.selected_feed = index;
    }

    /// Refresh the feed working set from freshly persisted state, as a
    /// completed refresh does: the selection keeps its position when that
    /// position still exists, and returns to the first feed otherwise.
    pub fn update_feeds(&mut self, feeds: Vec<FeedId>)
        requires
            feeds@.no_duplicates(),
        ensures
            final(self).wf(),
            final(self)@ == (AppView {
                feeds: feeds@,
                selected_feed: if old(self)@.selected_feed < feeds@.len() {
                    old(self)@.selected_feed
                } else {
                    0int
                },
                ..old(self)@
            }),
    {
        if self.selected_feed >= feeds.len() {
            self.selected_feed = 0;
        }
        self.feed_ids = feeds;
    }

    /// How many feeds are subscribed.
    pub fn feed_count(&self) -> (n: usize)
        ensures
            n == self@.feeds.len(),
    {
        self.feed_ids.len()
    }

    /// The identifier of the feed the selection rests on.
    pub fn selected_feed_id(&self) -> (r: FeedId)
        requires
            self.wf(),
            self@.feeds.len() > 0,
        ensures
            r == self@.feeds[self@.selected_feed],
    {
        self.feed_ids[self.selected_feed]
    }
}

/// Notification overwrite law: a newer notification replaces an older one,
/// and the delayed clear is unconditional — when the older notification's
/// timer fires, the clear blanks the newer text too.
pub proof fn lemma_flash_overwrite(v: AppView, a: Seq<char>, b: Seq<char>)
    ensures
        spec_set_flash(spec_set_flash(v, a), b).flash == Some(b),
        spec_clear_flash(spec_set_flash(spec_set_flash(v, a), b)).flash == Option::<Seq<char>>::None,
        spec_clear_flash(spec_set_flash(spec_set_flash(v, a), b)) == spec_clear_flash(
            spec_set_flash(v, b),
        ),
{
}

} // verus!
