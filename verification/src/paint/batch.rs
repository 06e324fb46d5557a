//! Messages are handled in batches, so that a painter hears of all new frames of a
//! batch at once.

use std::collections::VecDeque;

use vstd::prelude::*;

use super::commands::{views, PaintCommand, PainterOp};
use super::ids::PainterId;
use super::messages::{PaintMessage, ShutdownState};
use super::paint::Paint;
use super::routing::{handling, registered, PainterEntry};
use super::shutdown::ShutdownStates;
use crate::seqs::lemma_filter_take;

verus! {

/// The messages of a batch that are still to be handled, and the painters that have
/// new frames, each with whether one of them is to be painted.
pub struct MessageBatch<P> {
    messages: VecDeque<PaintMessage<P>>,
    ready: Vec<(PainterId, bool)>,
    handled_one: bool,
}

/// What is next in a batch.
#[derive(Debug, PartialEq, Eq)]
pub enum BatchStep<P> {
    /// One more message comes down to these commands.
    Handle(Vec<PaintCommand<P>>),
    /// No message is left, and the painters with new frames are told so.
    Finish(Vec<PaintCommand<P>>),
    /// The embedder has gone down, and the rest of the batch is dropped.
    Stop,
}

/// The message says that `painter` has a new frame.
pub open spec fn announces<P>(message: PaintMessage<P>, painter: PainterId) -> bool {
    message matches PaintMessage::NewWebRenderFrameReady(p, _, _) && p == painter
}

/// The message says that `painter` has a new frame that is to be painted.
pub open spec fn announces_repaint<P>(message: PaintMessage<P>, painter: PainterId) -> bool {
    message matches PaintMessage::NewWebRenderFrameReady(p, _, need) && p == painter && need
}

/// Some message says that `painter` has a new frame.
pub open spec fn some_announces<P>(messages: Seq<PaintMessage<P>>, painter: PainterId) -> bool {
    exists|i: int| 0 <= i < messages.len() && announces(#[trigger] messages[i], painter)
}

/// Some message says that `painter` has a new frame that is to be painted.
pub open spec fn some_announces_repaint<P>(
    messages: Seq<PaintMessage<P>>,
    painter: PainterId,
) -> bool {
    exists|i: int| 0 <= i < messages.len() && announces_repaint(#[trigger] messages[i], painter)
}

/// `painter` is among the painters that have new frames.
pub open spec fn is_ready(ready: Seq<(PainterId, bool)>, painter: PainterId) -> bool {
    exists|j: int| 0 <= j < ready.len() && (#[trigger] ready[j]).0 == painter
}

/// `ready` lists the painters that have new frames by `messages`, each known painter
/// once, and whether any of its frames is to be painted.
pub open spec fn summarises<P>(
    ready: Seq<(PainterId, bool)>,
    painters: Seq<PainterEntry>,
    messages: Seq<PaintMessage<P>>,
) -> bool {
    &&& forall|i: int, j: int|
        0 <= i < j < ready.len() ==> (#[trigger] ready[i]).0 != (#[trigger] ready[j]).0
    &&& forall|p: PainterId| #[trigger]
        is_ready(ready, p) <==> registered(painters, p) && some_announces(messages, p)
    &&& forall|j: int|
        0 <= j < ready.len() ==> ((#[trigger] ready[j]).1 <==> some_announces_repaint(
            messages,
            ready[j].0,
        ))
}

/// A message that is about a new frame of a known painter.
pub open spec fn counted<P>(painters: Seq<PainterEntry>) -> spec_fn(PaintMessage<P>) -> bool {
    |m: PaintMessage<P>|
        m matches PaintMessage::NewWebRenderFrameReady(p, _, _) && registered(painters, p)
}

/// A message that is not about a new frame.
pub open spec fn other_message<P>() -> spec_fn(PaintMessage<P>) -> bool {
    |m: PaintMessage<P>| !(m is NewWebRenderFrameReady)
}

/// The command that counts a new frame off.
pub open spec fn count_off<P>() -> spec_fn(PaintMessage<P>) -> PaintCommand<P> {
    |m: PaintMessage<P>|
        PaintCommand::Painter {
            painter: m->NewWebRenderFrameReady_0,
            op: PainterOp::DecrementPendingFrames,
        }
}

/// The command that tells a painter of its new frames.
pub open spec fn tell<P>() -> spec_fn((PainterId, bool)) -> PaintCommand<P> {
    |r: (PainterId, bool)|
        PaintCommand::Painter {
            painter: r.0,
            op: PainterOp::HandleNewWebRenderFrameReady { repaint_needed: r.1 },
        }
}

/// A painter with new frames that is still known.
pub open spec fn still_known(painters: Seq<PainterEntry>) -> spec_fn((PainterId, bool)) -> bool {
    |r: (PainterId, bool)| registered(painters, r.0)
}

impl<P> MessageBatch<P> {
    /// The messages that are still to be handled, in order.
    pub closed spec fn remaining(&self) -> Seq<PaintMessage<P>> {
        self.messages@
    }

    /// The painters that have new frames.
    pub closed spec fn ready(&self) -> Seq<(PainterId, bool)> {
        self.ready@
    }

    /// Whether a message of the batch has been handled.
    pub closed spec fn handled_one(&self) -> bool {
        self.handled_one
    }

    /// No message about a new frame is left.
    pub open spec fn wf(&self) -> bool {
        forall|i: int|
            0 <= i < self.remaining().len() ==> !(#[trigger] self.remaining()[i]
                is NewWebRenderFrameReady)
    }

    /// The message that is handled next.
    pub fn peek(&self) -> (r: Option<&PaintMessage<P>>)
        ensures
            r is Some <==> self.remaining().len() > 0,
            r matches Some(message) ==> *message == self.remaining()[0],
    {
        if self.messages.len() > 0 {
            Some(&self.messages[0])
        } else {
            None
        }
    }

    /// Takes note of a new frame of a known painter.
    fn note(&mut self, painter: PainterId, need_repaint: bool)
        ensures
            final(self).messages == old(self).messages,
            final(self).handled_one == old(self).handled_one,
            noted(old(self).ready@, final(self).ready@, painter, need_repaint),
    {
        let mut j: usize = 0;
        while j < self.ready.len()
            invariant
                j <= self.ready.len(),
                *self == *old(self),
                forall|k: int| 0 <= k < j ==> (#[trigger] self.ready@[k]).0 != painter,
            decreases self.ready.len() - j,
        {
            if self.ready[j].0 == painter {
                let repaint_needed = self.ready[j].1 || need_repaint;
                self.ready.set(j, (painter, repaint_needed));
                return;
            }
            j = j + 1;
        }
        self.ready.push((painter, need_repaint));
    }
}

/// `after` is `before` with one more frame of `painter` taken note of.
spec fn noted(
    before: Seq<(PainterId, bool)>,
    after: Seq<(PainterId, bool)>,
    painter: PainterId,
    need_repaint: bool,
) -> bool {
    ||| !is_ready(before, painter) && after == before.push((painter, need_repaint))
    ||| exists|j: int|
        0 <= j < before.len() && (#[trigger] before[j]).0 == painter && after == before.update(
            j,
            (painter, before[j].1 || need_repaint),
        )
}

/// Taking note of the next message keeps the summary.
proof fn lemma_summary_step<P>(
    before: Seq<(PainterId, bool)>,
    after: Seq<(PainterId, bool)>,
    painters: Seq<PainterEntry>,
    messages: Seq<PaintMessage<P>>,
    n: int,
)
    requires
        0 <= n < messages.len(),
        summarises(before, painters, messages.take(n)),
        match messages[n] {
            PaintMessage::NewWebRenderFrameReady(p, _, need) => if registered(painters, p) {
                noted(before, after, p, need)
            } else {
                after == before
            },
            _ => after == before,
        },
    ensures
        summarises(after, painters, messages.take(n + 1)),
{
    let old_messages = messages.take(n);
    let new_messages = messages.take(n + 1);
    assert forall|p: PainterId| #[trigger]
        some_announces(new_messages, p) <==> some_announces(old_messages, p) || announces(
            messages[n],
            p,
        ) by {
        if some_announces(old_messages, p) {
            let i = choose|i: int|
                0 <= i < old_messages.len() && announces(#[trigger] old_messages[i], p);
            assert(announces(new_messages[i], p));
        }
        if announces(messages[n], p) {
            assert(announces(new_messages[n], p));
        }
        if some_announces(new_messages, p) {
            let i = choose|i: int|
                0 <= i < new_messages.len() && announces(#[trigger] new_messages[i], p);
            if i < n {
                assert(announces(old_messages[i], p));
            }
        }
    }
    assert forall|p: PainterId| #[trigger]
        some_announces_repaint(new_messages, p) <==> some_announces_repaint(old_messages, p)
            || announces_repaint(messages[n], p) by {
        if some_announces_repaint(old_messages, p) {
            let i = choose|i: int|
                0 <= i < old_messages.len() && announces_repaint(#[trigger] old_messages[i], p);
            assert(announces_repaint(new_messages[i], p));
        }
        if announces_repaint(messages[n], p) {
            assert(announces_repaint(new_messages[n], p));
        }
        if some_announces_repaint(new_messages, p) {
            let i = choose|i: int|
                0 <= i < new_messages.len() && announces_repaint(#[trigger] new_messages[i], p);
            if i < n {
                assert(announces_repaint(old_messages[i], p));
            }
        }
    }
    match messages[n] {
        PaintMessage::NewWebRenderFrameReady(q, _, need) if registered(painters, q) => {
            assert forall|p: PainterId| #[trigger]
                is_ready(after, p) <==> is_ready(before, p) || p == q by {
                if is_ready(before, p) {
                    let j = choose|j: int| 0 <= j < before.len() && (#[trigger] before[j]).0 == p;
                    assert(after[j].0 == p);
                }
                if p == q {
                    if !is_ready(before, q) {
                        assert(after[before.len() as int].0 == q);
                    } else {
                        let j = choose|j: int|
                            0 <= j < before.len() && (#[trigger] before[j]).0 == q;
                        assert(after[j].0 == q);
                    }
                }
                if is_ready(after, p) {
                    let j = choose|j: int| 0 <= j < after.len() && (#[trigger] after[j]).0 == p;
                    if j < before.len() {
                        assert(before[j].0 == p);
                    }
                }
            }
            if !is_ready(before, q) {
                assert(!some_announces(old_messages, q));
                assert(!some_announces_repaint(old_messages, q)) by {
                    if some_announces_repaint(old_messages, q) {
                        let i = choose|i: int|
                            0 <= i < old_messages.len() && announces_repaint(
                                #[trigger] old_messages[i],
                                q,
                            );
                        assert(announces(old_messages[i], q));
                    }
                }
            }
            assert forall|j: int| 0 <= j < after.len() implies ((#[trigger] after[j]).1
                <==> some_announces_repaint(new_messages, after[j].0)) by {
                if j < before.len() {
                    assert(before[j].0 == after[j].0);
                    assert(before[j].1 <==> some_announces_repaint(old_messages, before[j].0));
                }
            }
        },
        PaintMessage::NewWebRenderFrameReady(q, _, need) => {
            assert forall|j: int| 0 <= j < after.len() implies ((#[trigger] after[j]).1
                <==> some_announces_repaint(new_messages, after[j].0)) by {
                assert(is_ready(before, before[j].0));
            }
        },
        _ => {},
    }
}

impl Paint {
    /// Takes in a batch of messages. Those about new frames are taken out and
    /// summarised, and each frame of a known painter is counted off at once; the
    /// others are handled one by one, by [`Self::next_message`].
    pub fn handle_messages<P>(&self, messages: Vec<PaintMessage<P>>) -> (r: (
        Vec<PaintCommand<P>>,
        MessageBatch<P>,
    ))
        ensures
            r.0@ == messages@.filter(counted(self.painters())).map_values(count_off()),
            r.1.wf(),
            r.1.remaining() == messages@.filter(other_message()),
            summarises(r.1.ready(), self.painters(), messages@),
            !r.1.handled_one(),
    {
        let mut commands: Vec<PaintCommand<P>> = Vec::new();
        let mut batch: MessageBatch<P> = MessageBatch {
            messages: VecDeque::new(),
            ready: Vec::new(),
            handled_one: false,
        };
        let ghost all = messages@;
        let ghost painters = self.painters();
        proof {
            assert(all.take(0) =~= Seq::empty());
            assert(commands@ =~= all.take(0).filter(counted(painters)).map_values(count_off::<P>()));
            assert(batch.messages@ =~= all.take(0).filter(other_message()));
            assert forall|p: PainterId| !(#[trigger] is_ready(batch.ready@, p)) by {}
            assert forall|p: PainterId| !(#[trigger] some_announces(all.take(0), p)) by {}
        }
        for message in iter: messages
            invariant
                iter.seq() == all,
                painters == self.painters(),
                commands@ == all.take(iter.index() as int).filter(counted(painters)).map_values(
                    count_off(),
                ),
                batch.messages@ == all.take(iter.index() as int).filter(other_message()),
                summarises(batch.ready@, painters, all.take(iter.index() as int)),
                !batch.handled_one,
        {
            let ghost n = iter.index() as int;
            let ghost before = batch.ready@;
            let ghost commands_before = commands@;
            let ghost kept = all.take(n).filter(counted(painters));
            proof {
                assert(message == all[n]);
                lemma_filter_take(all, counted(painters), n);
                lemma_filter_take(all, other_message(), n);
                assert(kept.push(message).map_values(count_off()) =~= kept.map_values(
                    count_off(),
                ).push(count_off()(message)));
            }
            match message {
                PaintMessage::NewWebRenderFrameReady(painter_id, _, need_repaint) => {
                    if self.maybe_painter(painter_id).is_some() {
                        commands.push(
                            PaintCommand::Painter {
                                painter: painter_id,
                                op: PainterOp::DecrementPendingFrames,
                            },
                        );
                        batch.note(painter_id, need_repaint);
                    }
                },
                other => {
                    batch.messages.push_back(other);
                },
            }
            proof {
                lemma_summary_step(before, batch.ready@, painters, all, n);
            }
        }
        proof {
            assert(all.take(all.len() as int) =~= all);
            assert forall|i: int| 0 <= i < batch.remaining().len() implies !(
            #[trigger] batch.remaining()[i] is NewWebRenderFrameReady) by {
                all.lemma_filter_pred(other_message(), i);
            }
        }
        (commands, batch)
    }

    /// What is next in a batch: its messages in order, and then its summary of new
    /// frames. The batch is dropped if, after one of its messages, the embedder has
    /// gone down.
    pub fn next_message<P>(
        &self,
        states: &ShutdownStates,
        batch: &mut MessageBatch<P>,
        image_key_batch_size: usize,
    ) -> (step: BatchStep<P>)
        requires
            self.shares(states@),
            old(batch).wf(),
        ensures
            final(batch).wf(),
            final(batch).ready() == old(batch).ready(),
            if old(batch).handled_one() && self.state(states@) == ShutdownState::FinishedShuttingDown {
                &&& step is Stop
                &&& final(batch).remaining() == old(batch).remaining()
                &&& final(batch).handled_one()
            } else if old(batch).remaining().len() > 0 {
                &&& step matches BatchStep::Handle(commands)
                &&& views(commands@) == handling(
                    self.painters(),
                    self.state(states@),
                    image_key_batch_size,
                    old(batch).remaining()[0],
                )
                &&& final(batch).remaining() == old(batch).remaining().drop_first()
                &&& final(batch).handled_one()
            } else {
                &&& step matches BatchStep::Finish(commands)
                &&& commands@ == old(batch).ready().filter(
                    still_known(self.painters()),
                ).map_values(tell::<P>())
                &&& final(batch).remaining() == old(batch).remaining()
                &&& final(batch).handled_one() == old(batch).handled_one()
            },
    {
        if batch.handled_one && self.shutdown_state(states) == ShutdownState::FinishedShuttingDown {
            return BatchStep::Stop;
        }
        match batch.messages.pop_front() {
            Some(message) => {
                batch.handled_one = true;
                proof {
                    assert(old(batch).remaining()[0] == message);
                    assert(batch.remaining() =~= old(batch).remaining().drop_first());
                    assert forall|i: int| 0 <= i < batch.remaining().len() implies !(
                    #[trigger] batch.remaining()[i] is NewWebRenderFrameReady) by {
                        assert(batch.remaining()[i] == old(batch).remaining()[i + 1]);
                    }
                }
                BatchStep::Handle(self.handle_browser_message(states, message, image_key_batch_size))
            },
            None => {
                let ghost known = still_known(self.painters());
                let mut commands: Vec<PaintCommand<P>> = Vec::new();
                let mut j: usize = 0;
                assert(commands@ =~= batch.ready@.take(0).filter(known).map_values(tell::<P>()));
                while j < batch.ready.len()
                    invariant
                        j <= batch.ready.len(),
                        known == still_known(self.painters()),
                        commands@ == batch.ready@.take(j as int).filter(known).map_values(tell::<P>()),
                    decreases batch.ready.len() - j,
                {
                    let (painter, repaint_needed) = batch.ready[j];
                    proof {
                        let kept = batch.ready@.take(j as int).filter(known);
                        let r = batch.ready@[j as int];
                        lemma_filter_take(batch.ready@, known, j as int);
                        assert(kept.push(r).map_values(tell::<P>()) =~= kept.map_values(
                            tell::<P>(),
                        ).push(tell::<P>()(r)));
                    }
                    if self.maybe_painter(painter).is_some() {
                        commands.push(
                            PaintCommand::Painter {
                                painter,
                                op: PainterOp::HandleNewWebRenderFrameReady { repaint_needed },
                            },
                        );
                    }
                    j = j + 1;
                }
                assert(batch.ready@.take(batch.ready@.len() as int) =~= batch.ready@);
                BatchStep::Finish(commands)
            },
        }
    }
}

} // verus!
