//! The fetch worker: one fetch at a time, started by the key found at launch
//! or by a command, its articles forwarded to the delivery channel in the
//! order of the response.
//!
//! The worker does not fetch by itself. A driver owns the loop: it performs the
//! fetch that a [`WorkerStep::Fetch`] asks for and hands back the outcome, and
//! it waits for the next command when a [`WorkerStep::AwaitCommand`] asks for
//! one. While a fetch is in flight the worker exists only as a
//! [`FetchInFlight`], which takes no command.

use crate::article::{article_views, ArticleView, NewsCardData};
use crate::command::{command_view, CommandView, Msg};
use std::sync::mpsc::Sender;
use vstd::prelude::*;

verus! {

/// A fetch that yielded no articles: the network failed, the response could not
/// be read, or the service refused.
#[derive(Debug, Clone, Copy, PartialEq, Eq)]
pub struct FetchError {}

/// The worker between fetches, waiting for a command.
pub struct FetchWorker {
    api_key: String,
    news_tx: Sender<NewsCardData>,
    offered: Ghost<Seq<ArticleView>>,
    forwarded: Ghost<Seq<ArticleView>>,
}

/// The worker while one fetch is in flight.
pub struct FetchInFlight {
    worker: FetchWorker,
}

/// What the driver does next.
pub enum WorkerStep {
    /// Wait for a command and hand it to [`FetchWorker::on_command`].
    AwaitCommand(FetchWorker),
    /// Fetch with [`FetchInFlight::api_key`] and hand the outcome to
    /// [`FetchInFlight::complete`].
    Fetch(FetchInFlight),
}

/// The mathematical value of the worker.
pub struct WorkerView {
    /// The key last set.
    pub api_key: Seq<char>,
    /// Whether a fetch is in flight.
    pub fetching: bool,
    /// Every article that was handed to the delivery channel, accepted or
    /// refused, oldest first.
    pub offered: Seq<ArticleView>,
    /// Every article that the delivery channel has accepted, oldest first.
    pub forwarded: Seq<ArticleView>,
}

/// The articles of a fetch outcome: those of the response, none after a failure.
pub open spec fn batch_of(outcome: Result<Vec<NewsCardData>, FetchError>) -> Seq<ArticleView> {
    match outcome {
        Ok(articles) => article_views(articles@),
        Err(_) => Seq::empty(),
    }
}

/// How many articles of a response of `total` are handed to the delivery
/// channel when it accepted the first `accepted`: those, and the one that it
/// refused, after which no further one is handed over.
pub open spec fn handed(total: nat, accepted: nat) -> nat {
    if accepted < total {
        accepted + 1
    } else {
        total
    }
}

/// Something that happens to the worker.
pub enum WorkerEvent {
    /// The command channel yielded this: a command, or `None` once its sender is gone.
    Command(Option<CommandView>),
    /// The fetch ended with these articles, of which the delivery channel
    /// accepted the first so many.
    FetchEnded(Seq<ArticleView>, nat),
}

impl WorkerView {
    /// The worker at launch: a key found at launch starts a fetch at once.
    pub open spec fn started(api_key: Seq<char>) -> WorkerView {
        WorkerView {
            api_key,
            fetching: api_key.len() > 0,
            offered: Seq::empty(),
            forwarded: Seq::empty(),
        }
    }

    /// The waiting worker after the command channel yielded `command`: a new
    /// key is remembered and fetched with, a refresh fetches with the key last
    /// set, and a closed channel leaves the worker waiting.
    pub open spec fn commanded(self, command: Option<CommandView>) -> WorkerView {
        match command {
            Some(CommandView::ApiKeySet(api_key)) => WorkerView { api_key, fetching: true, ..self },
            Some(CommandView::Refresh) => WorkerView { fetching: true, ..self },
            None => self,
        }
    }

    /// The worker after its fetch ended with the articles `batch`, of which the
    /// delivery channel accepted the first `accepted`: the articles were handed
    /// over in their order up to the first refusal, and no further.
    pub open spec fn completed(self, batch: Seq<ArticleView>, accepted: nat) -> WorkerView
        recommends
            accepted <= batch.len(),
    {
        WorkerView {
            fetching: false,
            offered: self.offered + batch.take(handed(batch.len(), accepted) as int),
            forwarded: self.forwarded + batch.take(accepted as int),
            ..self
        }
    }

    /// The number of fetches in flight.
    pub open spec fn in_flight(self) -> nat {
        if self.fetching {
            1
        } else {
            0
        }
    }

    /// The worker after one event. It takes a command only while it waits,
    /// and a fetch can only end while one is in flight: any other event finds
    /// nobody to take it and changes nothing.
    pub open spec fn step(self, event: WorkerEvent) -> WorkerView {
        match event {
            WorkerEvent::Command(command) => if self.fetching {
                self
            } else {
                self.commanded(command)
            },
            WorkerEvent::FetchEnded(batch, accepted) => if self.fetching {
                self.completed(batch, accepted)
            } else {
                self
            },
        }
    }
}

impl FetchWorker {
    /// The key last set.
    pub closed spec fn key(&self) -> Seq<char> {
        self.api_key@
    }

    /// Every article that was handed to the delivery channel, accepted or
    /// refused, oldest first.
    pub closed spec fn offered(&self) -> Seq<ArticleView> {
        self.offered@
    }

    /// Every article that the delivery channel has accepted, oldest first.
    pub closed spec fn forwarded(&self) -> Seq<ArticleView> {
        self.forwarded@
    }

    /// The worker at launch, forwarding to `news_tx`. With a key it starts a
    /// fetch at once; without one it waits for a command.
    pub fn start(api_key: String, news_tx: Sender<NewsCardData>) -> (step: WorkerStep)
        ensures
            step@ == WorkerView::started(api_key@),
    {
        let fetch_now = !api_key.as_str().is_empty();
        let worker = FetchWorker {
            api_key,
            news_tx,
            offered: Ghost(Seq::empty()),
            forwarded: Ghost(Seq::empty()),
        };
        if fetch_now {
            WorkerStep::Fetch(FetchInFlight { worker })
        } else {
            WorkerStep::AwaitCommand(worker)
        }
    }

    /// Takes what the command channel yielded. A new key is remembered and a
    /// fetch with it starts; a refresh starts a fetch with the key last set;
    /// `None`, for a channel that its sender has left, keeps the worker waiting.
    pub fn on_command(self, command: Option<Msg>) -> (step: WorkerStep)
        ensures
            step@ == self@.commanded(command_view(command)),
            step@ == self@.step(WorkerEvent::Command(command_view(command))),
    {
        match command {
            Some(Msg::ApiKeySet(api_key)) => {
                let worker = FetchWorker {
                    api_key,
                    news_tx: self.news_tx,
                    offered: self.offered,
                    forwarded: self.forwarded,
                };
                WorkerStep::Fetch(FetchInFlight { worker })
            },
            Some(Msg::Refresh) => WorkerStep::Fetch(FetchInFlight { worker: self }),
            None => WorkerStep::AwaitCommand(self),
        }
    }

    /// Hands the articles to the delivery channel one by one, in order, and
    /// stops at the first that the channel refuses because its receiver is
    /// gone: the articles after it are not handed over. Returns how many were
    /// accepted.
    fn forward(&mut self, batch: Vec<NewsCardData>) -> (accepted: usize)
        ensures
            accepted <= batch@.len(),
            final(self).key() == old(self).key(),
            final(self).offered() == old(self).offered() + article_views(batch@).take(
                handed(batch@.len(), accepted as nat) as int,
            ),
            final(self).forwarded() == old(self).forwarded() + article_views(batch@).take(
                accepted as int,
            ),
    {
        let total = batch.len();
        let mut accepted: usize = 0;
        let ghost mut refused = false;
        assert(article_views(batch@).take(0) =~= Seq::empty());
        for article in it: batch
            invariant_except_break
                accepted == it.index(),
                !refused,
            invariant
                it.seq() == batch@,
                total == batch@.len(),
                accepted <= total,
                refused ==> accepted < total,
                self.key() == old(self).key(),
                self.offered() == old(self).offered() + article_views(batch@).take(
                    if refused {
                        accepted + 1
                    } else {
                        accepted as int
                    },
                ),
                self.forwarded() == old(self).forwarded() + article_views(batch@).take(
                    accepted as int,
                ),
            ensures
                refused || accepted == total,
        {
            proof {
                assert(article_views(batch@).take(accepted + 1) =~= article_views(batch@).take(
                    accepted as int,
                ).push(article@));
                self.offered@ = self.offered@.push(article@);
            }
            match self.news_tx.send(article) {
                Ok(_) => {
                    proof {
                        self.forwarded@ = self.forwarded@.push(article@);
                    }
                    accepted += 1;
                },
                Err(_) => {
                    proof {
                        refused = true;
                    }
                    break ;
                },
            }
        }
        accepted
    }
}

impl View for FetchWorker {
    type V = WorkerView;

    open spec fn view(&self) -> WorkerView {
        WorkerView {
            api_key: self.key(),
            fetching: false,
            offered: self.offered(),
            forwarded: self.forwarded(),
        }
    }
}

impl FetchInFlight {
    /// The worker as it was when the fetch started.
    pub closed spec fn worker(&self) -> FetchWorker {
        self.worker
    }

    /// The key to fetch with.
    pub fn api_key(&self) -> (key: &str)
        ensures
            key@ == self@.api_key,
    {
        self.worker.api_key.as_str()
    }

    /// Ends the fetch. The articles of a response are forwarded to the
    /// delivery channel in the order of the response, up to the first that the
    /// channel refuses; a failed fetch forwards nothing. Either way the worker
    /// waits for a command again. Returns it with the number of articles that
    /// the channel accepted.
    pub fn complete(self, outcome: Result<Vec<NewsCardData>, FetchError>) -> (done: (
        FetchWorker,
        usize,
    ))
        ensures
            done.1 <= batch_of(outcome).len(),
            done.0@ == self@.completed(batch_of(outcome), done.1 as nat),
            done.0@ == self@.step(WorkerEvent::FetchEnded(batch_of(outcome), done.1 as nat)),
    {
        let mut worker = self.worker;
        let accepted = match outcome {
            Ok(articles) => worker.forward(articles),
            Err(_) => {
                assert(worker.forwarded() + batch_of(outcome).take(0) =~= worker.forwarded());
                assert(worker.offered() + batch_of(outcome).take(0) =~= worker.offered());
                0
            },
        };
        (worker, accepted)
    }
}

impl View for FetchInFlight {
    type V = WorkerView;

    open spec fn view(&self) -> WorkerView {
        WorkerView { fetching: true, ..self.worker()@ }
    }
}

impl View for WorkerStep {
    type V = WorkerView;

    open spec fn view(&self) -> WorkerView {
        match self {
            WorkerStep::AwaitCommand(worker) => worker@,
            WorkerStep::Fetch(fetch) => fetch@,
        }
    }
}

} // verus!
