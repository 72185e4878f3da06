//! Headlines: the session state of a news reader and the coordination between
//! its render loop and its background fetch worker.
//!
//! The render loop owns a [`Headlines`]. Once per frame it calls
//! [`Headlines::update`], which takes at most one article from the delivery
//! channel without blocking; user actions go through
//! [`Headlines::confirm_api_key`], [`Headlines::refresh`] and
//! [`Headlines::toggle_theme`]. [`Headlines::setup`] creates the channels and
//! the fetch worker, which a driver runs on a thread of its own: the worker
//! says when to fetch and forwards what was fetched, the driver performs the
//! fetch. The module `protocol` states what holds of the two together.

pub mod article;
pub mod channel;
pub mod command;
pub mod config;
pub mod protocol;
pub mod session;
pub mod worker;

pub use crate::article::NewsCardData;
pub use crate::command::Msg;
pub use crate::config::HeadlinesConfig;
pub use crate::session::{Headlines, Phase};
pub use crate::worker::{FetchError, FetchInFlight, FetchWorker, WorkerStep};
