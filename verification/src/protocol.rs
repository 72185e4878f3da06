//! What holds of the render loop and the fetch worker together: the laws of
//! the coordination between the two, over the values of both.
//!
//! The two sides meet only in the channels. A channel hands over what it
//! accepted, in the order in which it accepted it, so the articles that the
//! worker's channel accepted since some moment are the deliveries that the
//! session receives after that moment.

use crate::article::ArticleView;
use crate::command::CommandView;
use crate::config::ConfigView;
use crate::session::{Phase, SessionView};
use crate::worker::{batch_of, FetchError, WorkerEvent, WorkerView};
use vstd::prelude::*;

verus! {

impl WorkerView {
    /// The worker after a sequence of events, oldest first.
    pub open spec fn run(self, events: Seq<WorkerEvent>) -> WorkerView
        decreases events.len(),
    {
        if events.len() == 0 {
            self
        } else {
            self.step(events.first()).run(events.drop_first())
        }
    }

    /// How many fetches the events start.
    pub open spec fn fetches_started(self, events: Seq<WorkerEvent>) -> nat
        decreases events.len(),
    {
        if events.len() == 0 {
            0
        } else {
            let next = self.step(events.first());
            let started: nat = if !self.fetching && next.fetching {
                1
            } else {
                0
            };
            started + next.fetches_started(events.drop_first())
        }
    }

    /// How many fetches the events end.
    pub open spec fn fetches_ended(self, events: Seq<WorkerEvent>) -> nat
        decreases events.len(),
    {
        if events.len() == 0 {
            0
        } else {
            let next = self.step(events.first());
            let ended: nat = if self.fetching && !next.fetching {
                1
            } else {
                0
            };
            ended + next.fetches_ended(events.drop_first())
        }
    }
}

/// Receiving a queue of deliveries one by one appends them to the display
/// list in their order, and changes nothing else.
pub proof fn lemma_drain_appends_in_order(session: SessionView, queue: Seq<ArticleView>)
    ensures
        session.drained(queue) == (SessionView {
            articles: session.articles + queue,
            ..session
        }),
    decreases queue.len(),
{
    if queue.len() == 0 {
        assert(session.articles + queue =~= session.articles);
    } else {
        let next = session.accepted(Some(queue.first()));
        lemma_drain_appends_in_order(next, queue.drop_first());
        assert(next.articles + queue.drop_first() =~= session.articles + queue);
    }
}

/// The articles of a response reach the display list complete and in the
/// order of the response: when the delivery channel accepts all of them and
/// the session receives what the channel accepted, the display list grows by
/// exactly the response, and an empty display list becomes the response.
pub proof fn lemma_response_is_displayed_in_order(
    worker: WorkerView,
    session: SessionView,
    batch: Seq<ArticleView>,
)
    ensures
        ({
            let done = worker.completed(batch, batch.len());
            let delivered = done.forwarded.skip(worker.forwarded.len() as int);
            &&& delivered == batch
            &&& session.drained(delivered).articles == session.articles + batch
            &&& session.articles.len() == 0 ==> session.drained(delivered).articles == batch
        }),
{
    let done = worker.completed(batch, batch.len());
    let delivered = done.forwarded.skip(worker.forwarded.len() as int);
    assert(batch.take(batch.len() as int) =~= batch);
    assert(delivered =~= batch);
    lemma_drain_appends_in_order(session, delivered);
    if session.articles.len() == 0 {
        assert(session.articles + batch =~= batch);
    }
}

/// A refresh shows no stale headline: whenever it issues its command the
/// display list is already empty, and what the display list holds afterwards
/// is exactly what was delivered after the refresh, in order of delivery.
pub proof fn lemma_refresh_clears_before_command(session: SessionView, later: Seq<ArticleView>)
    ensures
        session.refresh_command() is Some ==> session.cleared().articles.len() == 0,
        session.refresh_command() is Some ==> session.refreshed().articles.len() == 0,
        session.refresh_command() is Some ==> session.refreshed().posted
            == session.posted.push(CommandView::Refresh),
        session.refresh_command() is Some ==> session.refreshed().drained(later).articles
            == later,
        session.refresh_command() is None ==> session.refreshed() == session,
{
    lemma_drain_appends_in_order(session.refreshed(), later);
    if session.commanding {
        assert(Seq::<ArticleView>::empty() + later =~= later);
    }
}

/// The key that the user confirms is handed over once, and it is the key that
/// the worker fetches with: a waiting worker that takes the command of the
/// confirmation starts one fetch with the session's key, and a refresh after
/// that fetch starts one with the same key.
pub proof fn lemma_confirmed_key_is_fetched_with(session: SessionView, worker: WorkerView)
    requires
        session.commanding,
        !worker.fetching,
    ensures
        session.confirmed().api_key_initialized,
        session.confirmed().posted == session.posted.push(
            CommandView::ApiKeySet(session.config.api_key),
        ),
        ({
            let first = worker.step(WorkerEvent::Command(session.confirm_command()));
            let later = first.step(WorkerEvent::FetchEnded(Seq::empty(), 0)).step(
                WorkerEvent::Command(session.confirmed().refresh_command()),
            );
            &&& first.fetching
            &&& first.api_key == session.config.api_key
            &&& later.fetching
            &&& later.api_key == session.config.api_key
        }),
{
}

/// At most one fetch is in flight, whatever happens and in whatever order:
/// over any sequence of events the fetches started exceed the fetches ended
/// by the number in flight at its end, which is never more than one.
pub proof fn lemma_one_fetch_at_a_time(worker: WorkerView, events: Seq<WorkerEvent>)
    ensures
        worker.in_flight() + worker.fetches_started(events) == worker.fetches_ended(events)
            + worker.run(events).in_flight(),
        worker.run(events).in_flight() <= 1,
    decreases events.len(),
{
    if events.len() > 0 {
        lemma_one_fetch_at_a_time(worker.step(events.first()), events.drop_first());
    }
}

/// Nothing but a command starts a fetch: an event that takes the worker from
/// waiting to fetching is a command that the command channel yielded.
pub proof fn lemma_fetch_starts_from_waiting(worker: WorkerView, event: WorkerEvent)
    requires
        worker.step(event).fetching,
        !worker.fetching,
    ensures
        event matches WorkerEvent::Command(Some(_)),
{
}

/// A failed fetch shows nowhere: the worker hands nothing over, keeps its key
/// and waits for the next command, and the session, which receives what the
/// worker forwarded, stays as it is.
pub proof fn lemma_failed_fetch_changes_nothing(
    worker: WorkerView,
    session: SessionView,
    error: FetchError,
)
    ensures
        batch_of(Err(error)).len() == 0,
        ({
            let done = worker.completed(batch_of(Err(error)), 0);
            let delivered = done.forwarded.skip(worker.forwarded.len() as int);
            &&& done.offered == worker.offered
            &&& done.forwarded == worker.forwarded
            &&& done.api_key == worker.api_key
            &&& !done.fetching
            &&& session.drained(delivered) == session
        }),
{
    let done = worker.completed(batch_of(Err(error)), 0);
    assert(done.offered =~= worker.offered);
    assert(done.forwarded =~= worker.forwarded);
    let delivered = done.forwarded.skip(worker.forwarded.len() as int);
    assert(delivered =~= Seq::empty());
}

/// A receive that yields nothing leaves the session as it is, in a frame and
/// outside of one.
pub proof fn lemma_empty_receive_changes_nothing(session: SessionView)
    ensures
        session.accepted(None) == session,
        session.framed(None) == session,
        session.drained(Seq::empty()) == session,
{
}

/// The session moves between its three phases as follows. It starts at the
/// prompt unless a key was stored, and then loads. Confirming the key leaves
/// the prompt. The first article ends the loading. A refresh that issues its
/// command loads again. No frame and no refresh leads back to the prompt.
pub proof fn lemma_phase_moves(session: SessionView, config: ConfigView, article: ArticleView)
    ensures
        SessionView::launched(config).phase() == (if config.api_key.len() == 0 {
            Phase::AwaitingKey
        } else {
            Phase::Loading
        }),
        session.confirmed().phase() != Phase::AwaitingKey,
        session.phase() == Phase::AwaitingKey ==> session.framed(Some(article)) == session,
        session.phase() != Phase::AwaitingKey ==> session.framed(Some(article)).phase()
            == Phase::Populated,
        session.phase() != Phase::AwaitingKey && session.commanding ==> session.refreshed().phase()
            == Phase::Loading,
        session.phase() == Phase::AwaitingKey <==> session.refreshed().phase()
            == Phase::AwaitingKey,
{
}

} // verus!
