//! Tracks parsed from window titles of the form `<artist> - <title>`.

use vstd::prelude::*;
use vstd::string::*;

verus! {

/// A track as announced in the player's window title.
#[derive(Debug)]
pub struct Track {
    /// The track's title: everything after the first separator.
    pub name: String,
    /// The performing artist: everything before the first separator.
    pub artist: String,
}

/// What a [`Track`] holds, as sequences of characters.
pub struct TrackView {
    pub name: Seq<char>,
    pub artist: Seq<char>,
}

impl View for Track {
    type V = TrackView;

    open spec fn view(&self) -> TrackView {
        TrackView { name: self.name@, artist: self.artist@ }
    }
}

impl PartialEq for Track {
    fn eq(&self, other: &Track) -> (equal: bool) {
        self.name == other.name && self.artist == other.artist
    }
}

impl vstd::std_specs::cmp::PartialEqSpecImpl for Track {
    open spec fn obeys_eq_spec() -> bool {
        true
    }

    open spec fn eq_spec(&self, other: &Track) -> bool {
        self.name@ == other.name@ && self.artist@ == other.artist@
    }
}

/// The separator between artist and title.
pub const SEPARATOR: &'static str = " - ";

/// The characters of the separator: a space, a hyphen, a space.
pub open spec fn separator() -> Seq<char> {
    seq![' ', '-', ' ']
}

/// [`SEPARATOR`] holds the characters of the separator.
pub proof fn lemma_separator_text()
    ensures
        SEPARATOR@ == separator(),
{
    reveal_strlit(" - ");
}

/// Whether the separator occurs in `s` starting at index `i`.
pub open spec fn separator_at(s: Seq<char>, i: int) -> bool {
    &&& 0 <= i
    &&& i + 3 <= s.len()
    &&& s[i] == ' '
    &&& s[i + 1] == '-'
    &&& s[i + 2] == ' '
}

/// Whether `i` is where the separator occurs first in `s`.
pub open spec fn first_separator_at(s: Seq<char>, i: int) -> bool {
    &&& separator_at(s, i)
    &&& forall|j: int| j < i ==> !separator_at(s, j)
}

/// The track that a raw title stands for: the title is split at the first
/// separator, and a title without a separator stands for no track. Nothing is
/// trimmed, and either part may be empty.
pub open spec fn parse(s: Seq<char>) -> Option<TrackView> {
    if exists|i: int| separator_at(s, i) {
        let i = choose|i: int| first_separator_at(s, i);
        Some(TrackView { artist: s.subrange(0, i), name: s.subrange(i + 3, s.len() as int) })
    } else {
        None
    }
}

/// The view of a track that may be absent.
pub open spec fn track_view(track: Option<Track>) -> Option<TrackView> {
    match track {
        Some(t) => Some(t@),
        None => None,
    }
}

/// A title with its first separator at `i` parses into what lies before `i`
/// and what lies behind the separator.
pub proof fn lemma_parse_at(s: Seq<char>, i: int)
    requires
        first_separator_at(s, i),
    ensures
        parse(s) == Some(
            TrackView { artist: s.subrange(0, i), name: s.subrange(i + 3, s.len() as int) },
        ),
{
}

/// A parsed title is its artist, the separator and its name put together,
/// and the separator does not start inside the artist.
pub proof fn lemma_parse_splits_at_first(s: Seq<char>)
    requires
        parse(s) is Some,
    ensures
        parse(s)->0.artist + separator() + parse(s)->0.name == s,
        forall|j: int| 0 <= j < parse(s)->0.artist.len() ==> !separator_at(s, j),
{
    let w = choose|i: int| separator_at(s, i);
    lemma_first_separator_exists(s, w);
    let i = choose|i: int| first_separator_at(s, i);
    lemma_parse_at(s, i);
}

/// Where the separator occurs at all, it occurs somewhere first.
proof fn lemma_first_separator_exists(s: Seq<char>, w: int)
    requires
        separator_at(s, w),
    ensures
        exists|i: int| first_separator_at(s, i),
    decreases w,
{
    if forall|j: int| j < w ==> !separator_at(s, j) {
        assert(first_separator_at(s, w));
    } else {
        let j = choose|j: int| j < w && separator_at(s, j);
        lemma_first_separator_exists(s, j);
    }
}

/// The characters of `s`, in order.
fn chars_of(s: &str) -> (chars: Vec<char>)
    ensures
        chars@ == s@,
{
    let mut chars: Vec<char> = Vec::new();
    for c in it: s.chars()
        invariant
            chars@ == it.seq().subrange(0, it.index() as int),
    {
        chars.push(c);
    }
    chars
}

/// The index at which the separator occurs first, if it occurs.
fn find_separator(chars: &Vec<char>) -> (found: Option<usize>)
    ensures
        match found {
            Some(i) => first_separator_at(chars@, i as int),
            None => forall|i: int| !separator_at(chars@, i),
        },
{
    let n = chars.len();
    if n < 3 {
        return None;
    }
    let mut i: usize = 0;
    while i <= n - 3
        invariant
            n == chars.len(),
            3 <= n,
            forall|j: int| j < i ==> !separator_at(chars@, j),
        decreases n - i,
    {
        if chars[i] == ' ' && chars[i + 1] == '-' && chars[i + 2] == ' ' {
            return Some(i);
        }
        i += 1;
    }
    None
}

impl Track {
    /// Parses a raw window title of the form `<artist> - <title>`.
    ///
    /// The title is split at the first occurrence of `" - "`. A title without
    /// that separator is no track.
    pub fn build(s: &str) -> (track: Option<Track>)
        ensures
            track_view(track) == parse(s@),
    {
        let chars = chars_of(s);
        let n = chars.len();
        match find_separator(&chars) {
            Some(i) => {
                proof {
                    lemma_parse_at(s@, i as int);
                }
                let artist = s.substring_char(0, i).to_owned();
                let name = s.substring_char(i + 3, n).to_owned();
                Some(Track { name, artist })
            },
            None => None,
        }
    }
}

} // verus!
