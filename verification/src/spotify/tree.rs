//! The window tree as a mathematical object, and the proof that the search
//! walks it depth first: answered from a tree, the search ends with the first
//! window in pre-order that is the player's.

use super::search::{
    is_candidate, search_step, target, AnswerView, Probe, ResultView, SearchView, StepView,
};
use vstd::prelude::*;
use vstd::utf8::*;

verus! {

/// A window with what the window system knows of it, and the windows below it
/// in the window system's order.
pub struct WindowTree {
    /// The window's identifier.
    pub window: u32,
    /// The value of the window's class property.
    pub class: Seq<u8>,
    /// The value of the window's name property.
    pub title: Seq<u8>,
    /// The window's children.
    pub children: Seq<WindowTree>,
}

/// What a look at one window alone settles: the window is the player's where
/// its class names the player and its title differs from the target; the search
/// fails where the class names the player and the title is not UTF-8; else the
/// window settles nothing.
pub open spec fn inspect(tree: WindowTree) -> Option<ResultView> {
    if !is_candidate(tree.class) {
        None
    } else if !valid_utf8(tree.title) {
        Some(ResultView::Failed)
    } else if decode_utf8(tree.title) != target() {
        Some(ResultView::Found(tree.window, decode_utf8(tree.title)))
    } else {
        None
    }
}

/// The result of a depth-first search of `tree`: the window itself comes
/// before its children.
pub open spec fn find_in(tree: WindowTree) -> ResultView
    decreases tree, 1int,
{
    match inspect(tree) {
        Some(result) => result,
        None => find_among(tree.children),
    }
}

/// The result of a depth-first search of the trees of `forest`, one after
/// another: the first tree that settles the search settles it.
pub open spec fn find_among(forest: Seq<WindowTree>) -> ResultView
    decreases forest, 0int,
{
    if forest.len() == 0 {
        ResultView::NotFound
    } else {
        or_among(find_in(forest[0]), forest.drop_first())
    }
}

/// `first`, unless it found nothing: then the result of searching `rest`.
pub open spec fn or_among(first: ResultView, rest: Seq<WindowTree>) -> ResultView
    decreases rest, 1int,
{
    match first {
        ResultView::NotFound => find_among(rest),
        settled => settled,
    }
}

/// The identifiers of the roots of `forest`.
pub open spec fn windows(forest: Seq<WindowTree>) -> Seq<u32> {
    Seq::new(forest.len(), |i: int| forest[i].window)
}

/// The number of windows in `tree`.
pub open spec fn weight(tree: WindowTree) -> nat
    decreases tree, 1int,
{
    1 + weight_all(tree.children)
}

/// The number of windows in `forest`.
pub open spec fn weight_all(forest: Seq<WindowTree>) -> nat
    decreases forest, 0int,
{
    if forest.len() == 0 {
        0
    } else {
        weight(forest[0]) + weight_all(forest.drop_first())
    }
}

/// The window system's answer to `probe` where the window asked about is the
/// root of `tree`.
pub open spec fn answer_from(probe: Probe, tree: WindowTree) -> AnswerView {
    match probe {
        Probe::ClassOf(_) => AnswerView::Class(tree.class),
        Probe::TitleOf(_) => AnswerView::Title(tree.title),
        Probe::ChildrenOf(_) => AnswerView::Children(windows(tree.children)),
    }
}

/// How far a question is from the end of the look at its window.
pub open spec fn rank(probe: Probe) -> nat {
    match probe {
        Probe::ClassOf(_) => 2,
        Probe::TitleOf(_) => 1,
        Probe::ChildrenOf(_) => 0,
    }
}

/// Whether `search` may stand where it stands while it looks at the root of
/// `tree` with the roots of `rest` waiting: its question is about that root,
/// it asks for the title only of a window whose class names the player, and
/// for the children only of a window that settles nothing.
pub open spec fn looks_at(search: SearchView, tree: WindowTree, rest: Seq<WindowTree>) -> bool {
    &&& search.pending == windows(rest)
    &&& match search.probe {
        Probe::ClassOf(window) => window == tree.window,
        Probe::TitleOf(window) => window == tree.window && is_candidate(tree.class),
        Probe::ChildrenOf(window) => window == tree.window && inspect(tree) is None,
    }
}

/// The result with which `search` ends when every question is answered from
/// the trees: from `tree` while the search looks at its root, and from the
/// trees of its children and of `rest` after that.
pub open spec fn outcome(search: SearchView, tree: WindowTree, rest: Seq<WindowTree>) -> ResultView
    decreases weight(tree) + weight_all(rest), rank(search.probe),
    when looks_at(search, tree, rest)
    via outcome_decreases
{
    match search_step(search, answer_from(search.probe, tree)) {
        StepView::Done(result) => result,
        StepView::Ask(next) => match search.probe {
            Probe::ChildrenOf(_) => {
                let forest = tree.children + rest;
                outcome(next, forest[0], forest.drop_first())
            },
            _ => outcome(next, tree, rest),
        },
    }
}

#[via_fn]
proof fn outcome_decreases(search: SearchView, tree: WindowTree, rest: Seq<WindowTree>) {
    match search_step(search, answer_from(search.probe, tree)) {
        StepView::Done(_) => {},
        StepView::Ask(next) => match search.probe {
            Probe::ChildrenOf(_) => {
                let forest = tree.children + rest;
                lemma_children_wait_first(search, tree, rest);
                lemma_weight_all_add(tree.children, rest);
            },
            _ => {},
        },
    }
}

/// The windows of two forests put together weigh what they weigh apart.
pub proof fn lemma_weight_all_add(a: Seq<WindowTree>, b: Seq<WindowTree>)
    ensures
        weight_all(a + b) == weight_all(a) + weight_all(b),
    decreases a.len(),
{
    if a.len() > 0 {
        assert((a + b).drop_first() =~= a.drop_first() + b);
        lemma_weight_all_add(a.drop_first(), b);
    }
}

/// After the children of a window have been told, the search looks at the
/// first of them, or of the windows that waited, and the others wait.
proof fn lemma_children_wait_first(search: SearchView, tree: WindowTree, rest: Seq<WindowTree>)
    requires
        looks_at(search, tree, rest),
        search.probe is ChildrenOf,
    ensures
        ({
            let forest = tree.children + rest;
            match search_step(search, answer_from(search.probe, tree)) {
                StepView::Done(result) => forest.len() == 0 && result == ResultView::NotFound,
                StepView::Ask(next) => forest.len() > 0 && looks_at(
                    next,
                    forest[0],
                    forest.drop_first(),
                ),
            }
        }),
{
    let forest = tree.children + rest;
    assert(windows(tree.children) + search.pending =~= windows(forest));
    if forest.len() > 0 {
        assert(windows(forest).drop_first() =~= windows(forest.drop_first()));
    }
}

/// A search of two forests one after the other is a search of the first, and
/// of the second where the first holds nothing.
pub proof fn lemma_find_among_add(a: Seq<WindowTree>, b: Seq<WindowTree>)
    ensures
        find_among(a + b) == or_among(find_among(a), b),
    decreases a.len(),
{
    if a.len() > 0 {
        assert((a + b).drop_first() =~= a.drop_first() + b);
        lemma_find_among_add(a.drop_first(), b);
    }
}

/// Wherever the search stands, it ends as the depth-first search of the
/// window it looks at ends, or, where that finds nothing, as the depth-first
/// search of the windows that wait.
pub proof fn lemma_outcome_is_depth_first(search: SearchView, tree: WindowTree, rest: Seq<WindowTree>)
    requires
        looks_at(search, tree, rest),
    ensures
        outcome(search, tree, rest) == or_among(find_in(tree), rest),
    decreases weight(tree) + weight_all(rest), rank(search.probe),
{
    match search_step(search, answer_from(search.probe, tree)) {
        StepView::Done(_) => {
            if search.probe is ChildrenOf {
                lemma_children_wait_first(search, tree, rest);
            }
        },
        StepView::Ask(next) => match search.probe {
            Probe::ChildrenOf(_) => {
                let forest = tree.children + rest;
                lemma_children_wait_first(search, tree, rest);
                lemma_weight_all_add(tree.children, rest);
                lemma_outcome_is_depth_first(next, forest[0], forest.drop_first());
                lemma_find_among_add(tree.children, rest);
            },
            _ => {
                lemma_outcome_is_depth_first(next, tree, rest);
            },
        },
    }
}

/// A search that begins at the root of a window tree and is answered from
/// that tree ends with the result of the depth-first search of the tree: the
/// first window in pre-order that is the player's, a failure where a window
/// whose title cannot be read comes before any such, and nothing where
/// there is neither.
pub proof fn lemma_search_is_depth_first(root: WindowTree)
    ensures
        outcome(
            SearchView { probe: Probe::ClassOf(root.window), pending: Seq::empty() },
            root,
            Seq::empty(),
        ) == find_in(root),
{
    let start = SearchView { probe: Probe::ClassOf(root.window), pending: Seq::empty() };
    assert(windows(Seq::<WindowTree>::empty()) =~= Seq::<u32>::empty());
    lemma_outcome_is_depth_first(start, root, Seq::empty());
}

/// Whether no window of `tree` settles the search.
pub open spec fn settles_nothing(tree: WindowTree) -> bool
    decreases tree,
{
    &&& inspect(tree) is None
    &&& forall|i: int|
        0 <= i < tree.children.len() ==> settles_nothing(#[trigger] tree.children[i])
}

/// A search of `forest` finds nothing exactly when no window of any of its
/// trees settles the search.
pub proof fn lemma_nothing_among(forest: Seq<WindowTree>)
    ensures
        find_among(forest) == ResultView::NotFound <==> forall|i: int|
            0 <= i < forest.len() ==> settles_nothing(#[trigger] forest[i]),
    decreases forest, 0int,
{
    if forest.len() > 0 {
        let rest = forest.drop_first();
        lemma_nothing_in(forest[0]);
        lemma_nothing_among(rest);
        if find_among(forest) == ResultView::NotFound {
            assert forall|i: int| 0 <= i < forest.len() implies settles_nothing(
                #[trigger] forest[i],
            ) by {
                if i > 0 {
                    assert(forest[i] == rest[i - 1]);
                }
            }
        }
        if forall|i: int| 0 <= i < forest.len() ==> settles_nothing(#[trigger] forest[i]) {
            assert(settles_nothing(forest[0]));
            assert forall|i: int| 0 <= i < rest.len() implies settles_nothing(
                #[trigger] rest[i],
            ) by {
                assert(rest[i] == forest[i + 1]);
            }
        }
    }
}

/// The search of a window tree finds nothing exactly when the tree holds no
/// window that settles it: none whose class names the player and whose title
/// is unreadable or differs from the target. A window that settles nothing,
/// whatever its class and title, has its children searched.
pub proof fn lemma_nothing_in(tree: WindowTree)
    ensures
        find_in(tree) == ResultView::NotFound <==> settles_nothing(tree),
        inspect(tree) is None ==> find_in(tree) == find_among(tree.children),
    decreases tree, 1int,
{
    lemma_nothing_among(tree.children);
}

} // verus!
