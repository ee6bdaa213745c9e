//! The command protocol between the render/control thread and the I/O
//! thread, and a model of the channel that carries it.
//!
//! `CommandQueue` models the multi-producer single-consumer channel: sends
//! join the tail, the I/O thread receives from the head. Two ghost sequences
//! record every command ever sent and every command handed out so far; the
//! well-formedness invariant ties them together, and
//! [`lemma_handled_order_is_send_order`] turns it into the FIFO law: commands
//! are handled exactly in send order, never reordered or dropped. A delayed
//! clear that the I/O thread enqueues for itself goes through the same
//! `send`, so it takes its place after every command already sent and before
//! any command sent later.

use vstd::prelude::*;

verus! {

/// Opaque stable identifier of a subscribed feed; the unit of work for
/// refreshes.
#[derive(Clone, Copy, Debug, PartialEq, Eq, Hash, Structural)]
pub struct FeedId {
    pub id: u64,
}

/// A command from the control thread to the I/O thread. `ClearFlash` is also
/// produced by the I/O thread itself, as a delayed self-enqueue after a
/// completed refresh or subscription.
pub enum IoCommand {
    /// Stop consuming the queue and let the I/O thread be joined.
    Break,
    /// Refresh a single feed.
    RefreshFeed(FeedId),
    /// Refresh a batch of feeds through the bounded pipeline.
    RefreshFeeds(Vec<FeedId>),
    /// Fetch, validate and persist a new subscription from raw input text.
    SubscribeToFeed(String),
    /// Unconditionally clear the transient notification.
    ClearFlash,
}

/// The mathematical value of an [`IoCommand`].
pub enum CommandView {
    Break,
    RefreshFeed(FeedId),
    RefreshFeeds(Seq<FeedId>),
    SubscribeToFeed(Seq<char>),
    ClearFlash,
}

impl View for IoCommand {
    type V = CommandView;

    open spec fn view(&self) -> CommandView {
        match self {
            IoCommand::Break => CommandView::Break,
            IoCommand::RefreshFeed(id) => CommandView::RefreshFeed(*id),
            IoCommand::RefreshFeeds(ids) => CommandView::RefreshFeeds(ids@),
            IoCommand::SubscribeToFeed(s) => CommandView::SubscribeToFeed(s@),
            IoCommand::ClearFlash => CommandView::ClearFlash,
        }
    }
}

/// Model of the ordered command channel: pending commands plus a ghost record
/// of everything sent and everything handled.
pub struct CommandQueue {
    items: Vec<IoCommand>,
    history: Ghost<Seq<CommandView>>,
    handled: Ghost<Seq<CommandView>>,
}

impl CommandQueue {
    /// Every command ever sent, in send order.
    pub closed spec fn sent(&self) -> Seq<CommandView> {
        self.history@
    }

    /// Every command handed to the I/O thread so far, in handling order.
    pub closed spec fn handled(&self) -> Seq<CommandView> {
        self.handled@
    }

    /// The commands still waiting in the queue, head first.
    pub closed spec fn pending(&self) -> Seq<CommandView> {
        self.items@.map_values(|c: IoCommand| c@)
    }

    /// The channel never loses or invents commands: what was sent is what was
    /// handled followed by what still waits.
    pub closed spec fn wf(&self) -> bool {
        self.sent() == self.handled() + self.pending()
    }

    pub fn new() -> (q: CommandQueue)
        ensures
            q.wf(),
            q.sent() == Seq::<CommandView>::empty(),
            q.handled() == Seq::<CommandView>::empty(),
            q.pending() == Seq::<CommandView>::empty(),
    {
        let q = CommandQueue {
            items: Vec::new(),
            history: Ghost(Seq::empty()),
            handled: Ghost(Seq::empty()),
        };
        proof {
            assert(q.sent() =~= q.handled() + q.pending());
        }
        q
    }

    /// Send a command: it joins the tail of the queue.
    pub fn send(&mut self, c: IoCommand)
        requires
            old(self).wf(),
        ensures
            final(self).wf(),
            final(self).sent() == old(self).sent().push(c@),
            final(self).handled() == old(self).handled(),
            final(self).pending() == old(self).pending().push(c@),
    {
        let ghost cv = c@;
        self.items.push(c);
        proof {
            self.history@ = self.history@.push(cv);
            assert(self.pending() =~= old(self).pending().push(cv));
            assert(self.sent() =~= self.handled() + self.pending());
        }
    }

    /// Receive the next command, if one waits: always the head of the queue.
    pub fn recv(&mut self) -> (r: Option<IoCommand>)
        requires
            old(self).wf(),
        ensures
            final(self).wf(),
            final(self).sent() == old(self).sent(),
            old(self).pending().len() == 0 ==> {
                &&& r is None
                &&& *final(self) == *old(self)
            },
            old(self).pending().len() > 0 ==> {
                &&& r is Some
                &&& r->0@ == old(self).pending()[0]
                &&& final(self).handled() == old(self).handled().push(old(self).pending()[0])
                &&& final(self).pending() == old(self).pending().skip(1)
            },
    {
        if self.items.len() == 0 {
            proof {
                assert(self.pending() =~= old(self).pending());
            }
            None
        } else {
            let c = self.items.remove(0);
            proof {
                self.handled@ = self.handled@.push(c@);
                assert(final(self).pending() =~= old(self).pending().skip(1));
                assert(final(self).sent() =~= final(self).handled() + final(self).pending());
            }
            Some(c)
        }
    }

    /// How many commands wait in the queue.
    pub fn len(&self) -> (n: usize)
        ensures
            n == self.pending().len(),
    {
        self.items.len()
    }
}

/// FIFO law: the order in which commands are handled equals the order in
/// which they were sent — the handled record is always exactly a prefix of
/// the send record. A delayed `ClearFlash` enqueued while command N is being
/// handled was sent after N and before anything sent later, so it is handled
/// in exactly that position.
pub proof fn lemma_handled_order_is_send_order(q: &CommandQueue)
    requires
        q.wf(),
    ensures
        q.handled().len() <= q.sent().len(),
        q.handled() == q.sent().take(q.handled().len() as int),
        forall|i: int| 0 <= i < q.handled().len() ==> q.handled()[i] == q.sent()[i],
{
    assert(q.handled() =~= q.sent().take(q.handled().len() as int));
}

} // verus!
