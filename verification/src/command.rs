//! The commands that the render loop sends to the fetch worker.

use vstd::prelude::*;

verus! {

/// A command for the fetch worker.
#[derive(Debug, PartialEq, Eq)]
pub enum Msg {
    /// The user confirmed this API key: fetch with it, and remember it.
    ApiKeySet(String),
    /// The user asked for fresh headlines: fetch with the key last set.
    Refresh,
}

/// The mathematical value of a [`Msg`].
pub enum CommandView {
    ApiKeySet(Seq<char>),
    Refresh,
}

impl View for Msg {
    type V = CommandView;

    open spec fn view(&self) -> CommandView {
        match self {
            Msg::ApiKeySet(key) => CommandView::ApiKeySet(key@),
            Msg::Refresh => CommandView::Refresh,
        }
    }
}

/// The value of a command that may be absent.
pub open spec fn command_view(command: Option<Msg>) -> Option<CommandView> {
    match command {
        Some(msg) => Some(msg@),
        None => None,
    }
}

} // verus!
