use std::time::Duration;
use x52_spotify::spotify::window::{Fetched, SpotifyError, SpotifyWindow};
use x52_spotify::spotify::{Spotify, SpotifyStatus, Update, DEFAULT_INTERVAL_SECS};

fn poller() -> Spotify {
    Spotify::new(Duration::from_secs(1))
}

fn title(text: &str) -> Result<Option<String>, SpotifyError> {
    Ok(Some(String::from(text)))
}

fn not_utf8() -> SpotifyError {
    match SpotifyWindow::get_window_title(Fetched::Property(vec![0xff, 0xfe])) {
        Err(error) => error,
        Ok(text) => panic!("decoded {:?}", text),
    }
}

fn is_playing(update: &Update, artist: &str, name: &str) -> bool {
    match update {
        Update::Status(SpotifyStatus::Playing(track)) => {
            track.artist == artist && track.name == name
        }
        _ => false,
    }
}

fn is_tick(update: &Update) -> bool {
    matches!(update, Update::Tick)
}

fn is_not_playing(update: &Update) -> bool {
    matches!(update, Update::Status(SpotifyStatus::NotPlaying))
}

fn is_not_running(update: &Update) -> bool {
    matches!(update, Update::Status(SpotifyStatus::NotRunning))
}

#[test]
fn new_keeps_the_refresh_interval() {
    let spotify = Spotify::new(Duration::from_millis(250));
    assert_eq!(spotify.refresh_interval(), Duration::from_millis(250));
    assert_eq!(poller().refresh_interval(), Duration::from_secs(1));
}

#[test]
fn cycles_go_on_until_the_interrupt_is_seen() {
    let mut spotify = Spotify::new(Duration::from_millis(40));
    assert_eq!(spotify.next_cycle(false), Some(Duration::from_millis(40)));
    assert!(is_playing(&spotify.poll(title("A - B")).unwrap(), "A", "B"));
    assert!(spotify.poll(Err(SpotifyError::GetPropertyFailed)).is_err());
    assert_eq!(spotify.next_cycle(false), Some(Duration::from_millis(40)));
    assert_eq!(spotify.next_cycle(true), None);
}

#[test]
fn first_poll_without_a_window_is_a_tick() {
    let mut spotify = poller();
    assert!(is_tick(&spotify.poll(Ok(None)).unwrap()));
}

#[test]
fn first_poll_with_a_title_is_a_status() {
    let mut spotify = poller();
    assert!(is_playing(&spotify.poll(title("A - B")).unwrap(), "A", "B"));
}

#[test]
fn title_sequence_from_a_fresh_poller() {
    let mut spotify = poller();
    assert!(is_tick(&spotify.poll(Ok(None)).unwrap()));
    assert!(is_playing(&spotify.poll(title("spotify - Opening...")).unwrap(), "spotify", "Opening..."));
    assert!(is_playing(
        &spotify.poll(title("Rick Astley - Never Gonna Give You Up")).unwrap(),
        "Rick Astley",
        "Never Gonna Give You Up"
    ));
    assert!(is_tick(&spotify.poll(title("Rick Astley - Never Gonna Give You Up")).unwrap()));
    assert!(is_not_running(&spotify.poll(Ok(None)).unwrap()));
}

#[test]
fn title_sequence_after_the_player_was_seen() {
    let mut spotify = poller();
    assert!(is_not_playing(&spotify.poll(title("Spotify Premium")).unwrap()));
    assert!(is_not_running(&spotify.poll(Ok(None)).unwrap()));
    assert!(is_not_playing(&spotify.poll(title("Spotify")).unwrap()));
    assert!(is_playing(
        &spotify.poll(title("Rick Astley - Never Gonna Give You Up")).unwrap(),
        "Rick Astley",
        "Never Gonna Give You Up"
    ));
    assert!(is_tick(&spotify.poll(title("Rick Astley - Never Gonna Give You Up")).unwrap()));
    assert!(is_not_running(&spotify.poll(Ok(None)).unwrap()));
}

#[test]
fn unchanged_title_never_repeats_a_status() {
    let mut spotify = poller();
    assert!(is_playing(&spotify.poll(title("A - B")).unwrap(), "A", "B"));
    for _ in 0..5 {
        assert!(is_tick(&spotify.poll(title("A - B")).unwrap()));
    }
    assert!(is_not_playing(&spotify.poll(title("Advertisement")).unwrap()));
    for _ in 0..5 {
        assert!(is_tick(&spotify.poll(title("Advertisement")).unwrap()));
    }
    assert!(is_not_running(&spotify.poll(Ok(None)).unwrap()));
    for _ in 0..5 {
        assert!(is_tick(&spotify.poll(Ok(None)).unwrap()));
    }
}

#[test]
fn status_follows_every_change_of_title() {
    let mut spotify = poller();
    assert!(is_playing(&spotify.poll(title("A - B")).unwrap(), "A", "B"));
    assert!(is_playing(&spotify.poll(title("A - C")).unwrap(), "A", "C"));
    assert!(is_playing(&spotify.poll(title("A - B")).unwrap(), "A", "B"));
    assert!(is_not_playing(&spotify.poll(title("A-B")).unwrap()));
    assert!(is_playing(&spotify.poll(title("A - B")).unwrap(), "A", "B"));
}

#[test]
fn empty_title_is_not_playing() {
    let mut spotify = poller();
    assert!(is_not_playing(&spotify.poll(title("")).unwrap()));
    assert!(is_tick(&spotify.poll(title("")).unwrap()));
    assert!(is_not_running(&spotify.poll(Ok(None)).unwrap()));
}

#[test]
fn failed_fetch_is_handed_back_and_changes_nothing() {
    let mut spotify = poller();
    assert!(is_playing(&spotify.poll(title("A - B")).unwrap(), "A", "B"));
    assert!(matches!(
        spotify.poll(Err(SpotifyError::GetPropertyFailed)),
        Err(SpotifyError::GetPropertyFailed)
    ));
    assert!(matches!(spotify.poll(Err(not_utf8())), Err(SpotifyError::TitleNotUTF8 { .. })));
    assert!(is_tick(&spotify.poll(title("A - B")).unwrap()));
    assert_eq!(spotify.refresh_interval(), Duration::from_secs(1));
}

#[test]
fn failed_fetch_on_a_fresh_poller_leaves_it_fresh() {
    let mut spotify = poller();
    assert!(spotify.poll(Err(SpotifyError::GetPropertyFailed)).is_err());
    assert!(is_tick(&spotify.poll(Ok(None)).unwrap()));
}

fn kinds(updates: &[Result<Update, SpotifyError>]) -> Vec<&'static str> {
    updates
        .iter()
        .map(|update| match update {
            Ok(Update::Tick) => "tick",
            Ok(Update::Status(SpotifyStatus::Playing(_))) => "playing",
            Ok(Update::Status(SpotifyStatus::NotPlaying)) => "not playing",
            Ok(Update::Status(SpotifyStatus::NotRunning)) => "not running",
            Err(SpotifyError::GetPropertyFailed) => "get_property failed",
            Err(SpotifyError::TitleNotUTF8 { .. }) => "not utf-8",
        })
        .collect()
}

#[test]
fn default_poller_polls_once_a_second() {
    assert_eq!(DEFAULT_INTERVAL_SECS, 1);
    let mut spotify = Spotify::default();
    assert_eq!(spotify.refresh_interval(), Duration::from_secs(1));
    assert_eq!(spotify.next_cycle(false), Some(Duration::from_secs(1)));
    assert!(is_tick(&spotify.poll(Ok(None)).unwrap()));
}

#[test]
fn run_of_no_fetches_gives_nothing() {
    let mut spotify = poller();
    assert!(spotify.run(Vec::new()).is_empty());
    assert!(is_tick(&spotify.poll(Ok(None)).unwrap()));
}

#[test]
fn run_gives_one_update_for_each_fetch() {
    let mut spotify = poller();
    let updates = spotify.run(vec![
        Ok(None),
        title("spotify - Opening..."),
        title("Rick Astley - Never Gonna Give You Up"),
        title("Rick Astley - Never Gonna Give You Up"),
        Ok(None),
    ]);
    assert_eq!(kinds(&updates), vec!["tick", "playing", "playing", "tick", "not running"]);
    assert!(is_playing(updates[1].as_ref().unwrap(), "spotify", "Opening..."));
    assert!(is_playing(updates[2].as_ref().unwrap(), "Rick Astley", "Never Gonna Give You Up"));
}

#[test]
fn run_compares_with_the_last_fetch_that_succeeded() {
    let mut spotify = poller();
    let updates = spotify.run(vec![
        title("A - B"),
        Err(SpotifyError::GetPropertyFailed),
        Err(not_utf8()),
        title("A - B"),
        Err(SpotifyError::GetPropertyFailed),
        title("Spotify"),
        title("Spotify"),
        Err(SpotifyError::GetPropertyFailed),
        Ok(None),
        Ok(None),
        title("A - B"),
    ]);
    assert_eq!(
        kinds(&updates),
        vec![
            "playing",
            "get_property failed",
            "not utf-8",
            "tick",
            "get_property failed",
            "not playing",
            "tick",
            "get_property failed",
            "not running",
            "tick",
            "playing",
        ]
    );
}

#[test]
fn run_goes_on_from_what_was_seen_before_and_leaves_what_it_saw() {
    let mut spotify = poller();
    assert!(is_playing(&spotify.poll(title("A - B")).unwrap(), "A", "B"));
    let updates = spotify.run(vec![title("A - B"), title("C - D"), Err(SpotifyError::GetPropertyFailed)]);
    assert_eq!(kinds(&updates), vec!["tick", "playing", "get_property failed"]);
    assert!(is_tick(&spotify.poll(title("C - D")).unwrap()));
    assert_eq!(spotify.refresh_interval(), Duration::from_secs(1));
}

#[test]
fn run_agrees_with_polling_one_by_one() {
    let titles = ["A - B", "A - B", "", "x", "x", "A - B"];
    let mut batch = poller();
    let mut single = poller();
    let updates = batch.run(titles.iter().map(|t| title(t)).collect());
    let one_by_one: Vec<Result<Update, SpotifyError>> =
        titles.iter().map(|t| single.poll(title(t))).collect();
    assert_eq!(kinds(&updates), kinds(&one_by_one));
    assert_eq!(kinds(&updates), vec!["playing", "tick", "not playing", "not playing", "tick", "playing"]);
}
