//! The search for the player's window: a depth-first walk of the window tree
//! that asks the window system one question at a time.
//!
//! The search itself never talks to the window system. It says what it needs
//! to know next ([`WindowSearch::probe`]) and is told the answer
//! ([`WindowSearch::advance`]), until it has found the window, has run out of
//! windows, or has met a title that it cannot read.

use super::class_hint::{name_bytes, well_formed, ClassHint};
use super::window::SpotifyError;
use vstd::prelude::*;
use vstd::string::*;
use vstd::utf8::*;

verus! {

/// The instance name by which the player's windows are known.
pub const TARGET: &'static str = "spotify";

/// The characters of [`TARGET`].
pub open spec fn target() -> Seq<char> {
    TARGET@
}

/// A question to the window system about one window.
#[derive(Clone, Copy, Debug, PartialEq, Eq, Structural)]
pub enum Probe {
    /// What is the value of the window's class property?
    ClassOf(u32),
    /// What is the value of the window's name property?
    TitleOf(u32),
    /// Which children does the window have, in the window system's order?
    ChildrenOf(u32),
}

/// The window system's answer to a [`Probe`].
#[derive(Debug)]
pub enum Answer {
    /// The value of the class property; empty where the window has none.
    Class(Vec<u8>),
    /// The value of the name property.
    Title(Vec<u8>),
    /// The window's children.
    Children(Vec<u32>),
}

/// An [`Answer`] over sequences.
pub enum AnswerView {
    Class(Seq<u8>),
    Title(Seq<u8>),
    Children(Seq<u32>),
}

impl View for Answer {
    type V = AnswerView;

    open spec fn view(&self) -> AnswerView {
        match self {
            Answer::Class(bytes) => AnswerView::Class(bytes@),
            Answer::Title(bytes) => AnswerView::Title(bytes@),
            Answer::Children(children) => AnswerView::Children(children@),
        }
    }
}

/// A search under way: the question that is open, and the windows that are
/// still to be looked at once the window in question is dealt with.
#[derive(Debug)]
pub struct WindowSearch {
    probe: Probe,
    /// The windows still to be looked at; the last one comes first.
    stack: Vec<u32>,
}

/// A [`WindowSearch`] as the contracts see it.
pub struct SearchView {
    /// The open question.
    pub probe: Probe,
    /// The windows still to be looked at, the next one first.
    pub pending: Seq<u32>,
}

/// How a search ended.
#[derive(Debug)]
pub enum SearchResult {
    /// This window is the player's, and this is its title.
    Found(u32, String),
    /// No window is the player's.
    NotFound,
    /// A window of the player's has a title that cannot be read.
    Failed(SpotifyError),
}

/// A [`SearchResult`] as the contracts see it.
pub enum ResultView {
    Found(u32, Seq<char>),
    NotFound,
    Failed,
}

impl View for SearchResult {
    type V = ResultView;

    open spec fn view(&self) -> ResultView {
        match self {
            SearchResult::Found(window, title) => ResultView::Found(*window, title@),
            SearchResult::NotFound => ResultView::NotFound,
            SearchResult::Failed(_) => ResultView::Failed,
        }
    }
}

/// Where a search stands after an answer.
#[derive(Debug)]
pub enum SearchStep {
    /// The search goes on and has another question.
    Ask(WindowSearch),
    /// The search has ended.
    Done(SearchResult),
}

/// A [`SearchStep`] as the contracts see it.
pub enum StepView {
    Ask(SearchView),
    Done(ResultView),
}

impl View for SearchStep {
    type V = StepView;

    open spec fn view(&self) -> StepView {
        match self {
            SearchStep::Ask(search) => StepView::Ask(search@),
            SearchStep::Done(result) => StepView::Done(result@),
        }
    }
}

/// Whether the value of a class property names the player: it has the layout
/// of a class hint, and its instance name is exactly the target. The class
/// name has no say in this.
pub open spec fn is_candidate(class_value: Seq<u8>) -> bool {
    &&& well_formed(class_value)
    &&& valid_utf8(name_bytes(class_value))
    &&& decode_utf8(name_bytes(class_value)) == target()
}

/// The search turns to the windows that are still to be looked at: it asks
/// for the class of the first, or ends where there is none.
pub open spec fn turn_to(pending: Seq<u32>) -> StepView {
    if pending.len() == 0 {
        StepView::Done(ResultView::NotFound)
    } else {
        StepView::Ask(SearchView { probe: Probe::ClassOf(pending[0]), pending: pending.drop_first() })
    }
}

/// One step of the search.
///
/// - The class of a window decides whether its title is asked for (the class
///   names the player) or its children.
/// - The title of a window whose class names the player ends the search where
///   it differs from the target; a title equal to the target belongs to a
///   window that only stands in for the player, whose children are asked for
///   instead; a title that is not UTF-8 makes the search fail.
/// - The children of a window are looked at next, in their order, before the
///   windows that were already waiting.
/// - An answer to another question than the open one changes nothing.
pub open spec fn search_step(search: SearchView, answer: AnswerView) -> StepView {
    match (search.probe, answer) {
        (Probe::ClassOf(window), AnswerView::Class(value)) => {
            if is_candidate(value) {
                StepView::Ask(SearchView { probe: Probe::TitleOf(window), pending: search.pending })
            } else {
                StepView::Ask(
                    SearchView { probe: Probe::ChildrenOf(window), pending: search.pending },
                )
            }
        },
        (Probe::TitleOf(window), AnswerView::Title(value)) => {
            if !valid_utf8(value) {
                StepView::Done(ResultView::Failed)
            } else if decode_utf8(value) != target() {
                StepView::Done(ResultView::Found(window, decode_utf8(value)))
            } else {
                StepView::Ask(
                    SearchView { probe: Probe::ChildrenOf(window), pending: search.pending },
                )
            }
        },
        (Probe::ChildrenOf(_), AnswerView::Children(children)) => turn_to(
            children + search.pending,
        ),
        _ => StepView::Ask(search),
    }
}

/// The windows on a stack in the order in which they come off it.
pub open spec fn popping_order(stack: Seq<u32>) -> Seq<u32> {
    Seq::new(stack.len(), |i: int| stack[stack.len() - 1 - i])
}

/// Whether two texts are the same.
fn same_text(a: &str, b: &str) -> (same: bool)
    ensures
        same == (a@ == b@),
{
    a.to_owned() == b.to_owned()
}

/// Puts `children` on `stack` so that they come off it in their own order,
/// before what was on it.
fn push_children(stack: &mut Vec<u32>, children: &Vec<u32>)
    ensures
        popping_order(final(stack)@) == children@ + popping_order(old(stack)@),
{
    let mut i = children.len();
    while i > 0
        invariant
            i <= children.len(),
            popping_order(stack@) == children@.subrange(i as int, children.len() as int)
                + popping_order(old(stack)@),
        decreases i,
    {
        i -= 1;
        let ghost before = stack@;
        stack.push(children[i]);
        assert(popping_order(stack@) =~= seq![children@[i as int]] + popping_order(before));
        assert(children@.subrange(i as int, children.len() as int) =~= seq![children@[i as int]]
            + children@.subrange(i + 1, children.len() as int));
    }
}

impl View for WindowSearch {
    type V = SearchView;

    closed spec fn view(&self) -> SearchView {
        SearchView { probe: self.probe, pending: popping_order(self.stack@) }
    }
}

impl WindowSearch {
    /// A search of the tree below `root`: it begins by asking for the class
    /// of `root`, and no other window waits yet.
    pub fn new(root: u32) -> (search: WindowSearch)
        ensures
            search@ == (SearchView { probe: Probe::ClassOf(root), pending: Seq::empty() }),
    {
        let search = WindowSearch { probe: Probe::ClassOf(root), stack: Vec::new() };
        assert(popping_order(search.stack@) =~= Seq::empty());
        search
    }

    /// The question that the search needs answered next.
    pub fn probe(&self) -> (probe: Probe)
        ensures
            probe == self@.probe,
    {
        self.probe
    }

    /// Takes the answer to the open question and says where the search stands
    /// then, as [`search_step`] describes it.
    pub fn advance(self, answer: Answer) -> (step: SearchStep)
        ensures
            step@ == search_step(self@, answer@),
            step matches SearchStep::Done(SearchResult::Failed(error)) ==> error is TitleNotUTF8,
    {
        match (self.probe, answer) {
            (Probe::ClassOf(window), Answer::Class(value)) => {
                let candidate = match ClassHint::parse(value.as_slice()) {
                    Some(hint) => same_text(hint.name(), TARGET),
                    None => false,
                };
                let probe = if candidate {
                    Probe::TitleOf(window)
                } else {
                    Probe::ChildrenOf(window)
                };
                SearchStep::Ask(WindowSearch { probe, stack: self.stack })
            },
            (Probe::TitleOf(window), Answer::Title(value)) => {
                match String::from_utf8(value) {
                    Ok(title) => {
                        if same_text(title.as_str(), TARGET) {
                            SearchStep::Ask(
                                WindowSearch { probe: Probe::ChildrenOf(window), stack: self.stack },
                            )
                        } else {
                            SearchStep::Done(SearchResult::Found(window, title))
                        }
                    },
                    Err(source) => SearchStep::Done(
                        SearchResult::Failed(SpotifyError::TitleNotUTF8 { source }),
                    ),
                }
            },
            (Probe::ChildrenOf(_), Answer::Children(children)) => {
                let mut stack = self.stack;
                push_children(&mut stack, &children);
                let ghost pending = popping_order(stack@);
                match stack.pop() {
                    Some(next) => {
                        assert(popping_order(stack@) =~= pending.drop_first());
                        SearchStep::Ask(WindowSearch { probe: Probe::ClassOf(next), stack })
                    },
                    None => SearchStep::Done(SearchResult::NotFound),
                }
            },
            _ => SearchStep::Ask(self),
        }
    }
}

} // verus!
