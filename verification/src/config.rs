//! The settings that outlive a session.

use vstd::prelude::*;

verus! {

/// The persisted settings: the colour theme and the news API key.
#[derive(Debug, PartialEq, Eq)]
pub struct HeadlinesConfig {
    pub dark_mode: bool,
    pub api_key: String,
}

/// The mathematical value of a [`HeadlinesConfig`].
pub struct ConfigView {
    pub dark_mode: bool,
    pub api_key: Seq<char>,
}

impl View for HeadlinesConfig {
    type V = ConfigView;

    open spec fn view(&self) -> ConfigView {
        ConfigView { dark_mode: self.dark_mode, api_key: self.api_key@ }
    }
}

impl ConfigView {
    /// The settings of a first launch: light theme, no key.
    pub open spec fn initial() -> ConfigView {
        ConfigView { dark_mode: false, api_key: Seq::empty() }
    }
}

impl Default for HeadlinesConfig {
    /// The settings used when none were stored.
    fn default() -> (config: HeadlinesConfig)
        ensures
            config@ == ConfigView::initial(),
    {
        HeadlinesConfig { dark_mode: false, api_key: String::new() }
    }
}

impl Clone for HeadlinesConfig {
    /// A copy of the settings, as handed to the store when the key is confirmed.
    fn clone(&self) -> (copy: HeadlinesConfig)
        ensures
            copy == *self,
    {
        HeadlinesConfig { dark_mode: self.dark_mode, api_key: self.api_key.clone() }
    }
}

} // verus!
