//! The player's window: where its title comes from, and how a lost window is
//! found again.

use super::search::{Probe, SearchResult, SearchView, WindowSearch};
use std::string::FromUtf8Error;
use vstd::prelude::*;
use vstd::utf8::*;

verus! {

/// Why a title could not be read from the player's window.
#[derive(Debug)]
pub enum SpotifyError {
    /// The window system could not deliver the title property: the window
    /// is taken to be gone.
    GetPropertyFailed,
    /// The title property was delivered but is not UTF-8 text.
    TitleNotUTF8 { source: FromUtf8Error },
}

impl SpotifyError {
    /// The text of [`SpotifyError::message`].
    pub open spec fn message_text(&self) -> Seq<char> {
        match self {
            SpotifyError::GetPropertyFailed => "get_property failed"@,
            SpotifyError::TitleNotUTF8 { .. } => "window title not UTF-8"@,
        }
    }

    /// A short description of the error for people to read.
    pub fn message(&self) -> (text: String)
        ensures
            text@ == self.message_text(),
    {
        match self {
            SpotifyError::GetPropertyFailed => "get_property failed".to_owned(),
            SpotifyError::TitleNotUTF8 { .. } => "window title not UTF-8".to_owned(),
        }
    }
}

/// What came of fetching the title property of the cached window.
#[derive(Debug)]
pub enum Fetched {
    /// The property's value.
    Property(Vec<u8>),
    /// The window system reported an error: the window no longer exists.
    Gone,
}

/// What to do to learn the player's title.
#[derive(Debug)]
pub enum Lookup {
    /// Fetch the title property of this window, which was found earlier.
    Fetch(u32),
    /// Search the window tree, beginning with this search.
    Search(WindowSearch),
}

/// What came of a [`Lookup`].
#[derive(Debug)]
pub enum LookupResult {
    /// The answer to [`Lookup::Fetch`].
    Fetched(Fetched),
    /// How the search of [`Lookup::Search`] ended.
    Searched(SearchResult),
}

/// The source of the player's title: the root of the window tree, and the
/// player's window once it has been found.
#[derive(Debug)]
pub struct SpotifyWindow {
    root_window: u32,
    window: Option<u32>,
}

/// The title that [`SpotifyWindow::get_window_title`] reads from a fetch,
/// where it reads one.
pub open spec fn fetched_title(fetched: Fetched) -> Option<Seq<char>> {
    match fetched {
        Fetched::Property(value) => if valid_utf8(value@) {
            Some(decode_utf8(value@))
        } else {
            None
        },
        Fetched::Gone => None,
    }
}

/// The window that is cached after a lookup that began with `cached`: a window
/// that is gone is forgotten, a window that was found is remembered, and
/// anything else leaves the cache as it was.
pub open spec fn cached_after(cached: Option<u32>, result: LookupResult) -> Option<u32> {
    match result {
        LookupResult::Fetched(Fetched::Gone) => None,
        LookupResult::Searched(SearchResult::Found(window, _)) => Some(window),
        _ => cached,
    }
}

/// A [`Lookup`] as the contracts see it.
pub enum LookupView {
    Fetch(u32),
    Search(SearchView),
}

impl View for Lookup {
    type V = LookupView;

    open spec fn view(&self) -> LookupView {
        match self {
            Lookup::Fetch(window) => LookupView::Fetch(*window),
            Lookup::Search(search) => LookupView::Search(search@),
        }
    }
}

/// What to do for the next title with `cached` in the cache: fetch the title
/// of the cached window, or, where none is cached, search the tree from
/// `root`, beginning with the class of `root` itself.
pub open spec fn lookup_for(root: u32, cached: Option<u32>) -> LookupView {
    match cached {
        Some(window) => LookupView::Fetch(window),
        None => LookupView::Search(
            SearchView { probe: Probe::ClassOf(root), pending: Seq::empty() },
        ),
    }
}

/// Once a fetch has reported the cached window gone, the next lookup is a
/// search from the root: the stale window is not asked again.
pub proof fn lemma_lost_window_is_searched_again(root: u32, cached: Option<u32>)
    ensures
        cached_after(cached, LookupResult::Fetched(Fetched::Gone)) is None,
        lookup_for(root, cached_after(cached, LookupResult::Fetched(Fetched::Gone)))
            is Search,
{
}

impl SpotifyWindow {
    /// The root of the window tree.
    pub closed spec fn root(&self) -> u32 {
        self.root_window
    }

    /// The player's window, where it is known.
    pub closed spec fn cached(&self) -> Option<u32> {
        self.window
    }

    /// A title source below `root_window` that has not found the player yet.
    pub fn new(root_window: u32) -> (source: SpotifyWindow)
        ensures
            source.root() == root_window,
            source.cached() is None,
    {
        SpotifyWindow { root_window, window: None }
    }

    /// What to do for the next title: fetch it from the cached window, or,
    /// where none is cached, search the tree from its root.
    pub fn lookup(&self) -> (lookup: Lookup)
        ensures
            lookup@ == lookup_for(self.root(), self.cached()),
    {
        match self.window {
            Some(window) => Lookup::Fetch(window),
            None => Lookup::Search(WindowSearch::new(self.root_window)),
        }
    }

    /// Reads the title out of a fetch of the title property.
    ///
    /// A window that is gone gives [`SpotifyError::GetPropertyFailed`], a value
    /// that is not UTF-8 gives [`SpotifyError::TitleNotUTF8`], and any other
    /// value gives the text that it encodes.
    pub fn get_window_title(fetched: Fetched) -> (title: Result<String, SpotifyError>)
        ensures
            match title {
                Ok(text) => fetched_title(fetched) == Some(text@),
                Err(SpotifyError::GetPropertyFailed) => fetched is Gone,
                Err(SpotifyError::TitleNotUTF8 { .. }) => fetched matches Fetched::Property(value)
                    && !valid_utf8(value@),
            },
    {
        match fetched {
            Fetched::Property(value) => match String::from_utf8(value) {
                Ok(text) => Ok(text),
                Err(source) => Err(SpotifyError::TitleNotUTF8 { source }),
            },
            Fetched::Gone => Err(SpotifyError::GetPropertyFailed),
        }
    }

    /// Takes in what came of the lookup and gives the player's title.
    ///
    /// - The cached window is gone: it is forgotten, and there is no title.
    /// - Its title was fetched: that is the title, unless it is not UTF-8,
    ///   which is an error that leaves the cache alone.
    /// - The search found the player: its window is cached, and the title
    ///   that the search read is the title.
    /// - The search found nothing: there is no title.
    /// - The search failed: that is an error, and the cache stays as it was.
    pub fn get_title(&mut self, result: LookupResult) -> (title: Result<
        Option<String>,
        SpotifyError,
    >)
        ensures
            final(self).root() == old(self).root(),
            final(self).cached() == cached_after(old(self).cached(), result),
            match result {
                LookupResult::Fetched(Fetched::Gone) => title matches Ok(None),
                LookupResult::Fetched(fetched) => match fetched_title(fetched) {
                    Some(text) => title matches Ok(Some(t)) && t@ == text,
                    None => title matches Err(SpotifyError::TitleNotUTF8 { .. }),
                },
                LookupResult::Searched(SearchResult::Found(_, text)) => title matches Ok(Some(t))
                    && t@ == text@,
                LookupResult::Searched(SearchResult::NotFound) => title matches Ok(None),
                LookupResult::Searched(SearchResult::Failed(error)) => title == Err::<
                    Option<String>,
                    SpotifyError,
                >(error),
            },
    {
        match result {
            LookupResult::Fetched(fetched) => match Self::get_window_title(fetched) {
                Ok(text) => Ok(Some(text)),
                Err(SpotifyError::GetPropertyFailed) => {
                    self.window = None;
                    Ok(None)
                },
                Err(error) => Err(error),
            },
            LookupResult::Searched(SearchResult::Found(window, text)) => {
                self.window = Some(window);
                Ok(Some(text))
            },
            LookupResult::Searched(SearchResult::NotFound) => Ok(None),
            LookupResult::Searched(SearchResult::Failed(error)) => Err(error),
        }
    }
}

} // verus!
