use headlines::{Headlines, HeadlinesConfig, Msg, NewsCardData, Phase, WorkerStep};
use std::sync::mpsc::{channel, sync_channel, TryRecvError};

fn card(title: &str, desc: &str, url: &str) -> NewsCardData {
    NewsCardData { title: title.to_string(), desc: desc.to_string(), url: url.to_string() }
}

fn config(api_key: &str) -> HeadlinesConfig {
    HeadlinesConfig { dark_mode: false, api_key: api_key.to_string() }
}

#[test]
fn default_config_is_light_and_has_no_key() {
    let config = HeadlinesConfig::default();
    assert_eq!(config, HeadlinesConfig { dark_mode: false, api_key: String::new() });
}

#[test]
fn clone_copies_both_settings() {
    let config = HeadlinesConfig { dark_mode: true, api_key: "xyz".to_string() };
    assert_eq!(config.clone(), HeadlinesConfig { dark_mode: true, api_key: "xyz".to_string() });
}

#[test]
fn session_without_key_starts_at_the_prompt() {
    let session = Headlines::new(HeadlinesConfig::default());
    assert!(!session.api_key_initialized);
    assert!(session.articles.is_empty());
    assert!(session.news_rx.is_none());
    assert!(session.app_tx.is_none());
    assert_eq!(session.phase(), Phase::AwaitingKey);
}

#[test]
fn session_with_stored_key_starts_loading() {
    let session = Headlines::new(config("abc123"));
    assert!(session.api_key_initialized);
    assert_eq!(session.config, config("abc123"));
    assert_eq!(session.phase(), Phase::Loading);
}

#[test]
fn receive_appends_at_the_end() {
    let mut session = Headlines::new(config("abc123"));
    session.receive(Some(card("A", "d1", "u1")));
    assert_eq!(session.phase(), Phase::Populated);
    session.receive(Some(card("B", "d2", "u2")));
    assert_eq!(session.articles, vec![card("A", "d1", "u1"), card("B", "d2", "u2")]);
}

#[test]
fn receive_of_nothing_changes_nothing() {
    let mut session = Headlines::new(config("abc123"));
    session.receive(Some(card("A", "d1", "u1")));
    session.receive(None);
    assert_eq!(session.articles, vec![card("A", "d1", "u1")]);
    assert!(session.api_key_initialized);
    assert_eq!(session.config, config("abc123"));
}

#[test]
fn preload_takes_one_article_per_call() {
    let mut session = Headlines::new(config("abc123"));
    let (tx, rx) = channel();
    session.news_rx = Some(rx);
    tx.send(card("A", "d1", "u1")).unwrap();
    tx.send(card("B", "d2", "u2")).unwrap();
    session.preload_articles();
    assert_eq!(session.articles, vec![card("A", "d1", "u1")]);
    session.preload_articles();
    assert_eq!(session.articles, vec![card("A", "d1", "u1"), card("B", "d2", "u2")]);
}

#[test]
fn preload_on_an_empty_channel_returns_with_nothing() {
    let mut session = Headlines::new(config("abc123"));
    let (tx, rx) = channel::<NewsCardData>();
    session.news_rx = Some(rx);
    session.receive(Some(card("A", "d1", "u1")));
    session.preload_articles();
    session.preload_articles();
    assert_eq!(session.articles, vec![card("A", "d1", "u1")]);
    tx.send(card("B", "d2", "u2")).unwrap();
    session.preload_articles();
    assert_eq!(session.articles.len(), 2);
}

#[test]
fn preload_without_a_channel_changes_nothing() {
    let mut session = Headlines::new(config("abc123"));
    session.preload_articles();
    assert!(session.articles.is_empty());
    assert!(session.news_rx.is_none());
}

#[test]
fn preload_after_the_worker_left_changes_nothing() {
    let mut session = Headlines::new(config("abc123"));
    let (tx, rx) = channel::<NewsCardData>();
    session.news_rx = Some(rx);
    tx.send(card("A", "d1", "u1")).unwrap();
    drop(tx);
    session.preload_articles();
    session.preload_articles();
    session.preload_articles();
    assert_eq!(session.articles, vec![card("A", "d1", "u1")]);
}

#[test]
fn update_receives_nothing_before_the_key_is_confirmed() {
    let mut session = Headlines::new(HeadlinesConfig::default());
    let (tx, rx) = channel();
    session.news_rx = Some(rx);
    tx.send(card("A", "d1", "u1")).unwrap();
    assert_eq!(session.update(), Phase::AwaitingKey);
    assert!(session.articles.is_empty());
    session.confirm_api_key();
    assert_eq!(session.update(), Phase::Populated);
    assert_eq!(session.articles, vec![card("A", "d1", "u1")]);
}

#[test]
fn update_takes_one_article_per_frame() {
    let mut session = Headlines::new(config("abc123"));
    let (tx, rx) = channel();
    session.news_rx = Some(rx);
    assert_eq!(session.update(), Phase::Loading);
    tx.send(card("A", "d1", "u1")).unwrap();
    tx.send(card("B", "d2", "u2")).unwrap();
    tx.send(card("C", "d3", "u3")).unwrap();
    assert_eq!(session.update(), Phase::Populated);
    assert_eq!(session.articles.len(), 1);
    assert_eq!(session.update(), Phase::Populated);
    assert_eq!(session.articles.len(), 2);
    assert_eq!(session.update(), Phase::Populated);
    assert_eq!(session.update(), Phase::Populated);
    assert_eq!(
        session.articles,
        vec![card("A", "d1", "u1"), card("B", "d2", "u2"), card("C", "d3", "u3")]
    );
}

#[test]
fn refresh_empties_the_list_and_sends_one_command() {
    let mut session = Headlines::new(config("abc123"));
    let (tx, rx) = sync_channel(1);
    session.app_tx = Some(tx);
    session.receive(Some(card("A", "d1", "u1")));
    session.receive(Some(card("B", "d2", "u2")));
    session.refresh();
    assert!(session.articles.is_empty());
    assert_eq!(session.phase(), Phase::Loading);
    assert_eq!(rx.try_recv(), Ok(Msg::Refresh));
    assert_eq!(rx.try_recv(), Err(TryRecvError::Empty));
    assert!(session.app_tx.is_some());
}

#[test]
fn refresh_without_a_channel_keeps_the_list() {
    let mut session = Headlines::new(config("abc123"));
    session.receive(Some(card("A", "d1", "u1")));
    session.refresh();
    assert_eq!(session.articles, vec![card("A", "d1", "u1")]);
    assert_eq!(session.request_refresh(), None);
    assert_eq!(session.articles, vec![card("A", "d1", "u1")]);
}

#[test]
fn refresh_after_the_worker_left_still_empties_the_list() {
    let mut session = Headlines::new(config("abc123"));
    let (tx, rx) = sync_channel::<Msg>(1);
    session.app_tx = Some(tx);
    drop(rx);
    session.receive(Some(card("A", "d1", "u1")));
    session.refresh();
    assert!(session.articles.is_empty());
}

#[test]
fn request_refresh_hands_out_the_command_with_the_list_empty() {
    let mut session = Headlines::new(config("abc123"));
    let (tx, _rx) = sync_channel(1);
    session.app_tx = Some(tx);
    session.receive(Some(card("A", "d1", "u1")));
    assert_eq!(session.request_refresh(), Some(Msg::Refresh));
    assert!(session.articles.is_empty());
}

#[test]
fn confirming_the_key_sends_it_once() {
    let mut session = Headlines::new(HeadlinesConfig::default());
    let (step, app_rx) = session.setup();
    assert!(matches!(step, WorkerStep::AwaitCommand(_)));
    assert_eq!(session.phase(), Phase::AwaitingKey);
    session.config.api_key = "xyz".to_string();
    let stored = session.config.clone();
    session.confirm_api_key();
    assert_eq!(stored, HeadlinesConfig { dark_mode: false, api_key: "xyz".to_string() });
    assert!(session.api_key_initialized);
    assert_eq!(session.phase(), Phase::Loading);
    assert_eq!(app_rx.try_recv(), Ok(Msg::ApiKeySet("xyz".to_string())));
    assert_eq!(app_rx.try_recv(), Err(TryRecvError::Empty));
}

#[test]
fn announcing_the_key_without_a_channel_still_confirms_it() {
    let mut session = Headlines::new(HeadlinesConfig::default());
    session.config.api_key = "xyz".to_string();
    assert_eq!(session.announce_api_key(), None);
    assert!(session.api_key_initialized);
    let (tx, _rx) = sync_channel(1);
    session.app_tx = Some(tx);
    assert_eq!(session.announce_api_key(), Some(Msg::ApiKeySet("xyz".to_string())));
}

#[test]
fn confirming_an_empty_key_leaves_the_prompt() {
    let mut session = Headlines::new(HeadlinesConfig::default());
    let (_step, app_rx) = session.setup();
    session.confirm_api_key();
    assert_eq!(session.phase(), Phase::Loading);
    assert_eq!(app_rx.try_recv(), Ok(Msg::ApiKeySet(String::new())));
}

#[test]
fn toggling_the_theme_twice_restores_it() {
    let mut session = Headlines::new(config("abc123"));
    session.receive(Some(card("A", "d1", "u1")));
    session.toggle_theme();
    assert!(session.config.dark_mode);
    assert_eq!(session.config.api_key, "abc123");
    assert_eq!(session.articles.len(), 1);
    session.toggle_theme();
    assert!(!session.config.dark_mode);
}

#[test]
fn setup_attaches_both_channels_and_keeps_the_state() {
    let mut session = Headlines::new(config("abc123"));
    session.receive(Some(card("A", "d1", "u1")));
    let (step, _app_rx) = session.setup();
    assert!(session.news_rx.is_some());
    assert!(session.app_tx.is_some());
    assert!(session.api_key_initialized);
    assert_eq!(session.config, config("abc123"));
    assert_eq!(session.articles, vec![card("A", "d1", "u1")]);
    match step {
        WorkerStep::Fetch(fetch) => assert_eq!(fetch.api_key(), "abc123"),
        WorkerStep::AwaitCommand(_) => panic!("a stored key starts a fetch"),
    }
}

#[test]
fn the_command_channel_holds_one_command() {
    let mut session = Headlines::new(config("abc123"));
    let (_step, app_rx) = session.setup();
    let extra = session.app_tx.clone().unwrap();
    session.refresh();
    assert!(extra.try_send(Msg::Refresh).is_err());
    assert_eq!(app_rx.try_recv(), Ok(Msg::Refresh));
    assert!(extra.try_send(Msg::Refresh).is_ok());
}
