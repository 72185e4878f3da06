//! The session state owned by the render loop, and what each frame and each
//! user action does to it.

use crate::article::{
    article_views, delivery_view, lemma_article_views_push, ArticleView, NewsCardData,
};
use crate::command::{command_view, CommandView, Msg};
use crate::config::{ConfigView, HeadlinesConfig};
use crate::worker::{FetchWorker, WorkerStep, WorkerView};
use crate::channel::{command_bound, command_channel};
use std::sync::mpsc::{channel, Receiver, SyncSender};
use vstd::prelude::*;

verus! {

/// How many commands the command channel holds before a sender has to wait.
pub const COMMAND_CAPACITY: usize = 1;

/// The state of one session: the headlines on display, the settings, and the
/// render loop's ends of the two channels once they are set up.
pub struct Headlines {
    /// The display list, in order of arrival.
    pub articles: Vec<NewsCardData>,
    pub config: HeadlinesConfig,
    /// Whether an API key has been confirmed.
    pub api_key_initialized: bool,
    /// Where the fetch worker's articles arrive.
    pub news_rx: Option<Receiver<NewsCardData>>,
    /// Where commands for the fetch worker leave.
    pub app_tx: Option<SyncSender<Msg>>,
    /// Every command handed to the command channel since it was set up, oldest first.
    pub posted: Ghost<Seq<CommandView>>,
}

/// What the session shows.
#[derive(Debug, Clone, Copy, PartialEq, Eq, Structural)]
pub enum Phase {
    /// No key is confirmed: the configuration prompt is up.
    AwaitingKey,
    /// A key is confirmed and the display list is empty.
    Loading,
    /// A key is confirmed and there are headlines to show.
    Populated,
}

/// The mathematical value of a [`Headlines`].
pub struct SessionView {
    pub config: ConfigView,
    pub api_key_initialized: bool,
    pub articles: Seq<ArticleView>,
    /// A delivery channel is attached.
    pub receiving: bool,
    /// A command channel is attached.
    pub commanding: bool,
    /// Every command handed to the command channel since it was set up, oldest first.
    pub posted: Seq<CommandView>,
}

impl SessionView {
    /// The session at launch, with the settings that were loaded.
    pub open spec fn launched(config: ConfigView) -> SessionView {
        SessionView {
            config,
            api_key_initialized: config.api_key.len() > 0,
            articles: Seq::empty(),
            receiving: false,
            commanding: false,
            posted: Seq::empty(),
        }
    }

    pub open spec fn phase(self) -> Phase {
        if !self.api_key_initialized {
            Phase::AwaitingKey
        } else if self.articles.len() == 0 {
            Phase::Loading
        } else {
            Phase::Populated
        }
    }

    /// The session after one non-blocking receive that yielded `delivery`:
    /// an article goes to the end of the display list, no article changes nothing.
    pub open spec fn accepted(self, delivery: Option<ArticleView>) -> SessionView {
        match delivery {
            Some(article) => SessionView { articles: self.articles.push(article), ..self },
            None => self,
        }
    }

    /// The session after the deliveries of `queue` were received one by one, oldest first.
    pub open spec fn drained(self, queue: Seq<ArticleView>) -> SessionView
        decreases queue.len(),
    {
        if queue.len() == 0 {
            self
        } else {
            self.accepted(Some(queue.first())).drained(queue.drop_first())
        }
    }

    /// The session after one redraw frame whose receive, if there was one,
    /// yielded `delivery`: nothing is received before a key is confirmed.
    pub open spec fn framed(self, delivery: Option<ArticleView>) -> SessionView {
        if self.api_key_initialized {
            self.accepted(delivery)
        } else {
            self
        }
    }

    /// The session with two new channels attached.
    pub open spec fn connected(self) -> SessionView {
        SessionView { receiving: true, commanding: true, posted: Seq::empty(), ..self }
    }

    /// The session after `command` was handed to the command channel: with no
    /// command, or no channel, nothing is handed over.
    pub open spec fn posting(self, command: Option<CommandView>) -> SessionView {
        match command {
            Some(msg) => if self.commanding {
                SessionView { posted: self.posted.push(msg), ..self }
            } else {
                self
            },
            None => self,
        }
    }

    /// The command that a refresh sends: none while no command channel is attached.
    pub open spec fn refresh_command(self) -> Option<CommandView> {
        if self.commanding {
            Some(CommandView::Refresh)
        } else {
            None
        }
    }

    /// The session with the display list emptied for a refresh: it keeps the
    /// list while no command channel is attached.
    pub open spec fn cleared(self) -> SessionView {
        if self.commanding {
            SessionView { articles: Seq::empty(), ..self }
        } else {
            self
        }
    }

    /// The session after the user asked for fresh headlines: the display list
    /// is emptied, then the refresh command is handed to the command channel.
    /// Without a command channel nothing changes.
    pub open spec fn refreshed(self) -> SessionView {
        self.cleared().posting(self.refresh_command())
    }

    /// The command that confirming the key sends: none while no command channel is attached.
    pub open spec fn confirm_command(self) -> Option<CommandView> {
        if self.commanding {
            Some(CommandView::ApiKeySet(self.config.api_key))
        } else {
            None
        }
    }

    /// The session with the key marked as confirmed.
    pub open spec fn key_marked(self) -> SessionView {
        SessionView { api_key_initialized: true, ..self }
    }

    /// The session after the user confirmed the key in the prompt: the key is
    /// marked as confirmed, then handed to the command channel, if there is one.
    pub open spec fn confirmed(self) -> SessionView {
        self.key_marked().posting(self.confirm_command())
    }

    /// The session after the user switched the colour theme.
    pub open spec fn theme_toggled(self) -> SessionView {
        SessionView {
            config: ConfigView { dark_mode: !self.config.dark_mode, ..self.config },
            ..self
        }
    }
}

impl View for Headlines {
    type V = SessionView;

    open spec fn view(&self) -> SessionView {
        SessionView {
            config: self.config@,
            api_key_initialized: self.api_key_initialized,
            articles: article_views(self.articles@),
            receiving: self.news_rx is Some,
            commanding: self.app_tx is Some,
            posted: self.posted@,
        }
    }
}

impl Headlines {
    /// Whether `other` holds the same channel ends as `self`.
    pub open spec fn same_channels(&self, other: &Headlines) -> bool {
        self.news_rx == other.news_rx && self.app_tx == other.app_tx
    }

    /// The session at launch: no headlines yet, no channels, and the key counts
    /// as confirmed exactly if the loaded settings hold one.
    pub fn new(config: HeadlinesConfig) -> (session: Headlines)
        ensures
            session@ == SessionView::launched(config@),
            session.config == config,
    {
        let api_key_initialized = !config.api_key.as_str().is_empty();
        let session = Headlines {
            api_key_initialized,
            articles: Vec::new(),
            config,
            news_rx: None,
            app_tx: None,
            posted: Ghost(Seq::empty()),
        };
        assert(article_views(session.articles@) =~= Seq::empty());
        session
    }

    /// What the session shows now.
    pub fn phase(&self) -> (phase: Phase)
        ensures
            phase == self@.phase(),
    {
        if !self.api_key_initialized {
            Phase::AwaitingKey
        } else if self.articles.len() == 0 {
            Phase::Loading
        } else {
            Phase::Populated
        }
    }

    /// Takes in what one non-blocking receive yielded: an article is appended to
    /// the display list, `None` leaves the session as it is.
    pub fn receive(&mut self, delivery: Option<NewsCardData>)
        ensures
            final(self)@ == old(self)@.accepted(delivery_view(delivery)),
            final(self).same_channels(old(self)),
    {
        match delivery {
            Some(article) => {
                proof {
                    lemma_article_views_push(self.articles@, article);
                }
                self.articles.push(article);
            },
            None => {},
        }
    }

    /// Moves at most one waiting article from the delivery channel to the end of
    /// the display list, without blocking. With no article waiting, or no
    /// delivery channel attached, the session stays as it is.
    pub fn preload_articles(&mut self)
        ensures
            exists|delivery: Option<ArticleView>| final(self)@ == old(self)@.accepted(delivery),
            !old(self)@.receiving ==> final(self)@ == old(self)@,
            final(self).same_channels(old(self)),
    {
        let delivery = match &self.news_rx {
            Some(rx) => match rx.try_recv() {
                Ok(article) => Some(article),
                Err(_) => None,
            },
            None => None,
        };
        let ghost taken = delivery_view(delivery);
        self.receive(delivery);
        assert(self@ == old(self)@.accepted(taken));
    }

    /// The session's share of one redraw frame. Before a key is confirmed
    /// nothing moves; afterwards at most one waiting article is taken from the
    /// delivery channel, without blocking. Returns what to show.
    pub fn update(&mut self) -> (phase: Phase)
        ensures
            exists|delivery: Option<ArticleView>| final(self)@ == old(self)@.framed(delivery),
            !(old(self)@.api_key_initialized && old(self)@.receiving) ==> final(self)@ == old(
                self,
            )@,
            phase == final(self)@.phase(),
            final(self).same_channels(old(self)),
    {
        if self.api_key_initialized {
            self.preload_articles();
            proof {
                let taken = choose|delivery: Option<ArticleView>|
                    self@ == old(self)@.accepted(delivery);
                assert(self@ == old(self)@.framed(taken));
            }
        } else {
            assert(self@ == old(self)@.framed(None));
        }
        self.phase()
    }

    /// Hands a command to the command channel, if there is a command and a
    /// channel. The send waits while the channel is full; that the worker has
    /// gone is not an error here.
    fn post(&mut self, command: Option<Msg>)
        ensures
            final(self)@ == old(self)@.posting(command_view(command)),
            final(self).same_channels(old(self)),
    {
        match command {
            Some(msg) => {
                let ghost handed = msg@;
                match &self.app_tx {
                    Some(tx) => {
                        let _ = tx.send(msg);
                        proof {
                            self.posted@ = self.posted@.push(handed);
                        }
                    },
                    None => {},
                }
            },
            None => {},
        }
    }

    /// The decision behind [`Headlines::refresh`]: empties the display list and
    /// returns the command to send. Without a command channel nothing changes
    /// and there is no command.
    pub fn request_refresh(&mut self) -> (command: Option<Msg>)
        ensures
            final(self)@ == old(self)@.cleared(),
            command_view(command) == old(self)@.refresh_command(),
            command is Some ==> final(self)@.articles.len() == 0,
            final(self).same_channels(old(self)),
    {
        if self.app_tx.is_some() {
            self.articles.clear();
            assert(article_views(self.articles@) =~= Seq::empty());
            Some(Msg::Refresh)
        } else {
            None
        }
    }

    /// The user asked for fresh headlines: the display list is emptied first,
    /// then the worker is told to fetch again. Without a command channel
    /// nothing changes.
    ///
    /// The command channel holds [`COMMAND_CAPACITY`] command. A refresh that
    /// finds it full waits until the worker has taken the command before it.
    pub fn refresh(&mut self)
        ensures
            final(self)@ == old(self)@.refreshed(),
            final(self).same_channels(old(self)),
    {
        let command = self.request_refresh();
        self.post(command);
    }

    /// The decision behind [`Headlines::confirm_api_key`]: marks the key as
    /// confirmed and returns the command that carries it. Without a command
    /// channel there is no command.
    pub fn announce_api_key(&mut self) -> (command: Option<Msg>)
        ensures
            final(self)@ == old(self)@.key_marked(),
            command_view(command) == old(self)@.confirm_command(),
            final(self).same_channels(old(self)),
    {
        self.api_key_initialized = true;
        if self.app_tx.is_some() {
            Some(Msg::ApiKeySet(self.config.api_key.clone()))
        } else {
            None
        }
    }

    /// The user confirmed the key in the prompt: the session leaves the prompt
    /// and the worker is told the key.
    pub fn confirm_api_key(&mut self)
        ensures
            final(self)@ == old(self)@.confirmed(),
            final(self).same_channels(old(self)),
    {
        let command = self.announce_api_key();
        self.post(command);
    }

    /// The user switched between the light and the dark theme.
    pub fn toggle_theme(&mut self)
        ensures
            final(self)@ == old(self)@.theme_toggled(),
            final(self).same_channels(old(self)),
    {
        self.config.dark_mode = !self.config.dark_mode;
    }

    /// Creates the two channels and the fetch worker. The session keeps the
    /// receiving end of the delivery channel and the sending end of the command
    /// channel, which holds [`COMMAND_CAPACITY`] command; the worker forwards
    /// to the delivery channel and starts with the session's key. Returns the
    /// worker's first step and the end at which its commands arrive, for the
    /// driver that runs it.
    pub fn setup(&mut self) -> (worker: (WorkerStep, Receiver<Msg>))
        ensures
            final(self)@ == old(self)@.connected(),
            final(self).app_tx matches Some(tx) && command_bound(tx) == COMMAND_CAPACITY,
            worker.0@ == WorkerView::started(old(self)@.config.api_key),
    {
        let (news_tx, news_rx) = channel::<NewsCardData>();
        let (app_tx, app_rx) = command_channel(COMMAND_CAPACITY);
        let api_key = self.config.api_key.clone();
        self.app_tx = Some(app_tx);
        self.news_rx = Some(news_rx);
        self.posted = Ghost(Seq::empty());
        (FetchWorker::start(api_key, news_tx), app_rx)
    }
}

} // verus!
