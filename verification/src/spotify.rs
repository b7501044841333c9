//! Polling of the player's window title and the status updates derived from it.

pub mod class_hint;
pub mod search;
pub mod text;
pub mod track;
pub mod tree;
pub mod window;

use std::time::Duration;
use vstd::prelude::*;
use track::{parse, Track, TrackView};
use window::SpotifyError;

verus! {

/// What the player is doing, as far as its window title tells.
#[derive(Debug)]
pub enum SpotifyStatus {
    /// The title names a track.
    Playing(Track),
    /// The player's window exists but its title names no track.
    NotPlaying,
    /// The player's window cannot be found.
    NotRunning,
}

/// What one poll hands to the consumer.
#[derive(Debug)]
pub enum Update {
    /// The title is what it was at the previous poll.
    Tick,
    /// The title has changed, and this is the status it stands for.
    Status(SpotifyStatus),
}

/// A [`SpotifyStatus`] over sequences of characters.
pub enum StatusView {
    Playing(TrackView),
    NotPlaying,
    NotRunning,
}

/// An [`Update`] over sequences of characters.
pub enum UpdateView {
    Tick,
    Status(StatusView),
}

impl View for SpotifyStatus {
    type V = StatusView;

    open spec fn view(&self) -> StatusView {
        match self {
            SpotifyStatus::Playing(track) => StatusView::Playing(track@),
            SpotifyStatus::NotPlaying => StatusView::NotPlaying,
            SpotifyStatus::NotRunning => StatusView::NotRunning,
        }
    }
}

impl View for Update {
    type V = UpdateView;

    open spec fn view(&self) -> UpdateView {
        match self {
            Update::Tick => UpdateView::Tick,
            Update::Status(status) => UpdateView::Status(status@),
        }
    }
}

/// The characters of a title that may be absent.
pub open spec fn title_view(title: Option<String>) -> Option<Seq<char>> {
    match title {
        Some(t) => Some(t@),
        None => None,
    }
}

/// The status that a title stands for: no title means that the player is not
/// running, a title that parses names the track being played, and any other
/// title, the empty one included, means that nothing is playing.
pub open spec fn status_of(title: Option<Seq<char>>) -> StatusView {
    match title {
        None => StatusView::NotRunning,
        Some(t) => match parse(t) {
            Some(track) => StatusView::Playing(track),
            None => StatusView::NotPlaying,
        },
    }
}

/// What a poll emits when it fetches `fetched` after `previous`: a status
/// when the title has changed, a tick when it has not.
pub open spec fn update_for(previous: Option<Seq<char>>, fetched: Option<Seq<char>>) -> UpdateView {
    if fetched == previous {
        UpdateView::Tick
    } else {
        UpdateView::Status(status_of(fetched))
    }
}

/// What one fetch of the title gave, as the contracts see it.
pub enum FetchView {
    /// The fetch succeeded: this is the title, or there is no window.
    Title(Option<Seq<char>>),
    /// The fetch failed.
    Failed,
}

/// The view of what one fetch gave.
pub open spec fn fetch_view(fetched: Result<Option<String>, SpotifyError>) -> FetchView {
    match fetched {
        Ok(title) => FetchView::Title(title_view(title)),
        Err(_) => FetchView::Failed,
    }
}

/// The views of what fetches gave, one after another.
pub open spec fn fetch_views(fetched: Seq<Result<Option<String>, SpotifyError>>) -> Seq<
    FetchView,
> {
    Seq::new(fetched.len(), |k: int| fetch_view(fetched[k]))
}

/// The update that a poll hands on, if it hands one on.
pub open spec fn handed_on(update: Result<Update, SpotifyError>) -> Option<UpdateView> {
    match update {
        Ok(u) => Some(u@),
        Err(_) => None,
    }
}

/// The title that a poller has seen last after `fetches`, when it had seen
/// `previous` before them: the title of the last fetch that succeeded, or
/// `previous` where none did.
pub open spec fn previous_after(previous: Option<Seq<char>>, fetches: Seq<FetchView>) -> Option<
    Seq<char>,
>
    decreases fetches.len(),
{
    if fetches.len() == 0 {
        previous
    } else {
        match fetches.last() {
            FetchView::Title(title) => title,
            FetchView::Failed => previous_after(previous, fetches.drop_last()),
        }
    }
}

/// What the `k`-th of `fetches` makes a poller hand to the consumer, when it
/// had seen `previous` before them: nothing where the fetch failed, and else
/// the update for its title after the title seen last before it. There is at
/// most one per fetch.
pub open spec fn emitted_at(previous: Option<Seq<char>>, fetches: Seq<FetchView>, k: int) -> Option<
    UpdateView,
> {
    match fetches[k] {
        FetchView::Title(title) => Some(
            update_for(previous_after(previous, fetches.take(k)), title),
        ),
        FetchView::Failed => None,
    }
}

/// Over any sequence of fetches, a status is handed on for the `k`-th exactly
/// when that fetch succeeded with a title other than the one of the last
/// fetch that succeeded before it; the status is then the one that the new
/// title stands for, and the new title is the one seen last from then on.
pub proof fn lemma_status_only_on_change(
    previous: Option<Seq<char>>,
    fetches: Seq<FetchView>,
    k: int,
)
    requires
        0 <= k < fetches.len(),
    ensures
        emitted_at(previous, fetches, k) matches Some(UpdateView::Status(status)) <==> (
        fetches[k] matches FetchView::Title(title) && title != previous_after(
            previous,
            fetches.take(k),
        )),
        emitted_at(previous, fetches, k) matches Some(UpdateView::Status(status))
            ==> fetches[k] == FetchView::Title(previous_after(previous, fetches.take(k + 1)))
            && status == status_of(previous_after(previous, fetches.take(k + 1))),
{
    assert(fetches.take(k + 1).last() == fetches[k]);
}

/// A title that is fetched again after itself yields a tick and stays the
/// title seen last, whether the fetches follow each other at once or with
/// failed fetches between them: no status is handed on twice in a row for an
/// unchanged title.
pub proof fn lemma_repeated_title_ticks(
    previous: Option<Seq<char>>,
    fetches: Seq<FetchView>,
    k: int,
)
    requires
        0 <= k < fetches.len(),
        fetches[k] == FetchView::Title(previous_after(previous, fetches.take(k))),
    ensures
        emitted_at(previous, fetches, k) == Some(UpdateView::Tick),
        previous_after(previous, fetches.take(k + 1)) == previous_after(previous, fetches.take(k)),
{
    assert(fetches.take(k + 1).last() == fetches[k]);
}

/// Two fetches in a row that succeed with the same title, or both with none:
/// the second yields a tick.
pub proof fn lemma_same_title_twice_ticks(
    previous: Option<Seq<char>>,
    fetches: Seq<FetchView>,
    k: int,
)
    requires
        0 < k < fetches.len(),
        fetches[k - 1] is Title,
        fetches[k] == fetches[k - 1],
    ensures
        emitted_at(previous, fetches, k) == Some(UpdateView::Tick),
        previous_after(previous, fetches.take(k + 1)) == previous_after(previous, fetches.take(k)),
{
    assert(fetches.take(k).last() == fetches[k - 1]);
    lemma_repeated_title_ticks(previous, fetches, k);
}

/// A failed fetch hands nothing on and leaves the title seen last alone.
pub proof fn lemma_failed_fetch_is_skipped(
    previous: Option<Seq<char>>,
    fetches: Seq<FetchView>,
    k: int,
)
    requires
        0 <= k < fetches.len(),
        fetches[k] is Failed,
    ensures
        emitted_at(previous, fetches, k) is None,
        previous_after(previous, fetches.take(k + 1)) == previous_after(previous, fetches.take(k)),
{
    assert(fetches.take(k + 1).last() == fetches[k]);
    assert(fetches.take(k + 1).drop_last() =~= fetches.take(k));
}

/// Whether two titles that may be absent are the same text.
fn same_title(a: &Option<String>, b: &Option<String>) -> (same: bool)
    ensures
        same == (title_view(*a) == title_view(*b)),
{
    match (a, b) {
        (Some(x), Some(y)) => *x == *y,
        (None, None) => true,
        _ => false,
    }
}

/// The duration of `secs` whole seconds.
pub uninterp spec fn seconds(secs: u64) -> Duration;

/// [`Duration::from_secs`] makes the duration of that many whole seconds: the
/// same for the same number. Nothing more is claimed of it.
pub assume_specification[ Duration::from_secs ](secs: u64) -> (duration: Duration)
    ensures
        duration == seconds(secs),
;

/// The refresh interval of a poller that is given none, in seconds.
pub const DEFAULT_INTERVAL_SECS: u64 = 1;

/// The poller's state: the refresh interval it was made with and the title
/// seen at the last successful poll.
pub struct Spotify {
    refresh_interval: Duration,
    previous_title: Option<String>,
}

impl Default for Spotify {
    /// A poller that has seen no title yet and polls once a second.
    fn default() -> (poller: Spotify)
        ensures
            poller.previous() is None,
            poller.interval() == seconds(DEFAULT_INTERVAL_SECS),
    {
        Spotify::new(Duration::from_secs(DEFAULT_INTERVAL_SECS))
    }
}

impl Spotify {
    /// The title seen at the last successful poll.
    pub closed spec fn previous(&self) -> Option<Seq<char>> {
        title_view(self.previous_title)
    }

    /// The interval between two polls.
    pub closed spec fn interval(&self) -> Duration {
        self.refresh_interval
    }

    /// A poller that has seen no title yet.
    pub fn new(refresh_interval: Duration) -> (poller: Spotify)
        ensures
            poller.previous() is None,
            poller.interval() == refresh_interval,
    {
        Spotify { refresh_interval, previous_title: None }
    }

    /// The interval to sleep before each poll.
    pub fn refresh_interval(&self) -> (interval: Duration)
        ensures
            interval == self.interval(),
    {
        self.refresh_interval
    }

    /// Decides at the top of a polling cycle whether there is another one:
    /// once the interrupt flag is seen set, polling stops; until then the
    /// cycle begins with a sleep of the refresh interval.
    pub fn next_cycle(&self, interrupted: bool) -> (sleep: Option<Duration>)
        ensures
            sleep == if interrupted {
                None
            } else {
                Some(self.interval())
            },
    {
        if interrupted {
            None
        } else {
            Some(self.refresh_interval)
        }
    }

    /// Takes in what one fetch of the title gave and says what to hand to the
    /// consumer.
    ///
    /// A failed fetch changes nothing and hands the error back. A title, or
    /// its absence, is compared with the one seen before, becomes the one seen
    /// before, and yields the update that [`update_for`] describes.
    pub fn poll(&mut self, fetched: Result<Option<String>, SpotifyError>) -> (update: Result<
        Update,
        SpotifyError,
    >)
        ensures
            final(self).interval() == old(self).interval(),
            match fetched {
                Ok(title) => {
                    &&& update matches Ok(u) && u@ == update_for(
                        old(self).previous(),
                        title_view(title),
                    )
                    &&& final(self).previous() == title_view(title)
                },
                Err(e) => {
                    &&& update == Err::<Update, SpotifyError>(e)
                    &&& final(self).previous() == old(self).previous()
                },
            },
    {
        match fetched {
            Ok(title) => {
                if same_title(&title, &self.previous_title) {
                    Ok(Update::Tick)
                } else {
                    let status = match &title {
                        Some(t) => match Track::build(t.as_str()) {
                            Some(track) => SpotifyStatus::Playing(track),
                            None => SpotifyStatus::NotPlaying,
                        },
                        None => SpotifyStatus::NotRunning,
                    };
                    self.previous_title = title;
                    Ok(Update::Status(status))
                }
            },
            Err(e) => Err(e),
        }
    }

    /// Polls through the fetches of several cycles, one after another, and
    /// gives what each hands to the consumer: the update of
    /// [`emitted_at`] for a fetch that succeeded, the error back for one that
    /// failed.
    pub fn run(&mut self, fetched: Vec<Result<Option<String>, SpotifyError>>) -> (updates: Vec<
        Result<Update, SpotifyError>,
    >)
        ensures
            updates@.len() == fetched@.len(),
            forall|k: int|
                0 <= k < fetched@.len() ==> handed_on(#[trigger] updates@[k]) == emitted_at(
                    old(self).previous(),
                    fetch_views(fetched@),
                    k,
                ),
            forall|k: int|
                0 <= k < fetched@.len() ==> (fetched@[k] matches Err(e) ==> #[trigger] updates@[k]
                    == Err::<Update, SpotifyError>(e)),
            final(self).previous() == previous_after(
                old(self).previous(),
                fetch_views(fetched@),
            ),
            final(self).interval() == old(self).interval(),
    {
        let ghost before = self.previous();
        let ghost all = fetched@;
        let ghost fetches = fetch_views(fetched@);
        let mut updates: Vec<Result<Update, SpotifyError>> = Vec::new();
        assert(fetches.take(0) =~= Seq::empty());
        for fetch in it: fetched
            invariant
                it.seq() == all,
                fetches == fetch_views(all),
                updates@.len() == it.index(),
                self.interval() == old(self).interval(),
                self.previous() == previous_after(before, fetches.take(it.index() as int)),
                forall|k: int|
                    0 <= k < it.index() ==> handed_on(#[trigger] updates@[k]) == emitted_at(
                        before,
                        fetches,
                        k,
                    ),
                forall|k: int|
                    0 <= k < it.index() ==> (all[k] matches Err(e) ==> #[trigger] updates@[k]
                        == Err::<Update, SpotifyError>(e)),
        {
            let ghost k = it.index() as int;
            proof {
                assert(fetches.take(k + 1).last() == fetches[k]);
                assert(fetches.take(k + 1).drop_last() =~= fetches.take(k));
            }
            let update = self.poll(fetch);
            updates.push(update);
        }
        assert(fetches.take(all.len() as int) =~= fetches);
        updates
    }
}

} // verus!
