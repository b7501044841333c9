//! One line of the display: a text of any length shown through a window of
//! fixed width that scrolls back and forth, pausing at either end.

use vstd::prelude::*;
use vstd::string::*;
use vstd::utf8::{encode_utf8, is_ascii_chars, is_ascii_chars_encode_utf8};

verus! {

/// The width of a display line, in characters.
pub const WIDTH: usize = 16;

/// The number of ticks for which a line rests after it has turned round.
pub const DWELL: usize = 1;

/// The way in which the visible window moves over the text.
#[derive(Clone, Copy, Debug, PartialEq, Eq, Structural)]
pub enum Direction {
    /// Towards the end of the text: the offset grows.
    Forward,
    /// Towards the start of the text: the offset shrinks.
    Backward,
}

/// A line of the display and the state of its scrolling.
#[derive(Debug)]
pub struct Line {
    content: String,
    /// The number of characters of `content`.
    length: usize,
    width: usize,
    offset: usize,
    direction: Direction,
    dwell_remaining: usize,
    dwell_duration: usize,
}

/// The state of a [`Line`] as the contracts see it.
pub struct LineView {
    /// The whole text of the line.
    pub content: Seq<char>,
    /// The number of characters that the display shows of it.
    pub width: nat,
    /// The index of the first character shown.
    pub offset: nat,
    /// The way in which the offset moves.
    pub direction: Direction,
    /// The ticks for which the line still rests.
    pub dwell_remaining: nat,
    /// The ticks for which the line rests after it has turned round.
    pub dwell_duration: nat,
}

impl LineView {
    /// A line that has just been given the text `content`.
    pub open spec fn fresh(content: Seq<char>, width: nat, dwell_duration: nat) -> LineView {
        LineView {
            content,
            width,
            offset: 0,
            direction: Direction::Forward,
            dwell_remaining: dwell_duration,
            dwell_duration,
        }
    }

    /// Whether the text is too long to be shown at once.
    pub open spec fn scrolls(self) -> bool {
        self.content.len() > self.width
    }

    /// The largest offset that still shows a full window of text.
    pub open spec fn max_offset(self) -> nat {
        if self.scrolls() {
            (self.content.len() - self.width) as nat
        } else {
            0
        }
    }

    /// The offset lies within the text.
    pub open spec fn well_formed(self) -> bool {
        self.offset <= self.max_offset()
    }

    /// What the display shows of the line: the whole text where it fits, else
    /// the `width` characters from `offset` on.
    pub open spec fn render(self) -> Seq<char> {
        if self.scrolls() {
            self.content.subrange(self.offset as int, (self.offset + self.width) as int)
        } else {
            self.content
        }
    }

    /// The line turned round at the given end, where it now rests.
    pub open spec fn turned(self, offset: nat, direction: Direction) -> LineView {
        LineView { offset, direction, dwell_remaining: self.dwell_duration, ..self }
    }

    /// The line one tick later.
    ///
    /// A text that fits does not move. A line that rests, rests one tick less.
    /// Otherwise the offset moves by one in the line's direction; where that
    /// would take it past an end of the text it stays at that end, and the
    /// line turns round and rests.
    pub open spec fn tick(self) -> LineView {
        if !self.scrolls() {
            self
        } else if self.dwell_remaining > 0 {
            LineView { dwell_remaining: (self.dwell_remaining - 1) as nat, ..self }
        } else {
            match self.direction {
                Direction::Forward => if self.offset + 1 > self.max_offset() {
                    self.turned(self.max_offset(), Direction::Backward)
                } else {
                    LineView { offset: self.offset + 1, ..self }
                },
                Direction::Backward => if self.offset < 1 {
                    self.turned(0, Direction::Forward)
                } else {
                    LineView { offset: (self.offset - 1) as nat, ..self }
                },
            }
        }
    }

    /// The line `n` ticks later.
    pub open spec fn ticks(self, n: nat) -> LineView
        decreases n,
    {
        if n == 0 {
            self
        } else {
            self.tick().ticks((n - 1) as nat)
        }
    }
}

impl View for Line {
    type V = LineView;

    closed spec fn view(&self) -> LineView {
        LineView {
            content: self.content@,
            width: self.width as nat,
            offset: self.offset as nat,
            direction: self.direction,
            dwell_remaining: self.dwell_remaining as nat,
            dwell_duration: self.dwell_duration as nat,
        }
    }
}

impl Clone for Line {
    fn clone(&self) -> (copy: Line)
        ensures
            copy@ == self@,
    {
        proof {
            use_type_invariant(self);
        }
        Line {
            content: self.content.clone(),
            length: self.length,
            width: self.width,
            offset: self.offset,
            direction: self.direction,
            dwell_remaining: self.dwell_remaining,
            dwell_duration: self.dwell_duration,
        }
    }
}

impl Line {
    #[verifier::type_invariant]
    spec fn valid(self) -> bool {
        &&& self.length == self.content@.len()
        &&& self@.well_formed()
    }

    /// A line of the display's width that shows `s` from its start and rests
    /// for one tick at either end.
    pub fn new(s: &str) -> (line: Line)
        ensures
            line@ == LineView::fresh(s@, WIDTH as nat, DWELL as nat),
            line@.well_formed(),
    {
        Line::with_width(s, WIDTH, DWELL)
    }

    /// A line that shows `width` characters of `s` at a time and rests for
    /// `dwell_duration` ticks at either end.
    pub fn with_width(s: &str, width: usize, dwell_duration: usize) -> (line: Line)
        ensures
            line@ == LineView::fresh(s@, width as nat, dwell_duration as nat),
            line@.well_formed(),
    {
        Line {
            content: s.to_owned(),
            length: s.unicode_len(),
            width,
            offset: 0,
            direction: Direction::Forward,
            dwell_remaining: dwell_duration,
            dwell_duration,
        }
    }

    /// Replaces the text of the line: the new text is shown from its start,
    /// heading forward, after a full rest. Width and length of the rest stay.
    pub fn set_content(&mut self, text: &str)
        ensures
            final(self)@ == LineView::fresh(
                text@,
                old(self)@.width,
                old(self)@.dwell_duration,
            ),
            final(self)@.well_formed(),
    {
        *self = Line::with_width(text, self.width, self.dwell_duration);
    }

    /// What the display shows of the line now.
    pub fn get(&self) -> (shown: &str)
        ensures
            shown@ == self@.render(),
            self@.well_formed(),
    {
        proof {
            use_type_invariant(self);
        }
        if self.length <= self.width {
            self.content.as_str()
        } else {
            self.content.as_str().substring_char(self.offset, self.offset + self.width)
        }
    }

    /// Moves the line on by one tick.
    pub fn tick(&mut self)
        ensures
            final(self)@ == old(self)@.tick(),
            final(self)@.well_formed(),
    {
        proof {
            use_type_invariant(&*self);
        }
        if self.length <= self.width {
            return ;
        }
        if self.dwell_remaining > 0 {
            self.dwell_remaining -= 1;
            return ;
        }
        let max_offset = self.length - self.width;
        match self.direction {
            Direction::Forward => {
                if self.offset >= max_offset {
                    self.direction = Direction::Backward;
                    self.dwell_remaining = self.dwell_duration;
                } else {
                    self.offset += 1;
                }
            },
            Direction::Backward => {
                if self.offset == 0 {
                    self.direction = Direction::Forward;
                    self.dwell_remaining = self.dwell_duration;
                } else {
                    self.offset -= 1;
                }
            },
        }
    }
}

} // verus!

verus! {

/// What a line shows is never wider than the line: it is the whole text
/// where that fits, and exactly `width` characters of it where it does not.
pub proof fn lemma_render_fits(line: LineView)
    requires
        line.well_formed(),
    ensures
        line.render().len() <= line.width,
        line.scrolls() ==> line.render().len() == line.width,
        !line.scrolls() ==> line.render() == line.content,
{
}

/// What a line of ASCII text shows takes one byte for each character when it
/// is written out as UTF-8, and so at most as many bytes as the line is wide.
pub proof fn lemma_ascii_text_fits_in_bytes(line: LineView)
    requires
        line.well_formed(),
        is_ascii_chars(line.content),
    ensures
        is_ascii_chars(line.render()),
        encode_utf8(line.render()).len() == line.render().len(),
        encode_utf8(line.render()).len() <= line.width,
{
    is_ascii_chars_encode_utf8(line.render());
}

/// A tick keeps the offset within the text and leaves the text, the width and
/// the length of the rest alone.
pub proof fn lemma_tick_keeps_bounds(line: LineView)
    requires
        line.well_formed(),
    ensures
        line.tick().well_formed(),
        line.tick().content == line.content,
        line.tick().width == line.width,
        line.tick().dwell_duration == line.dwell_duration,
{
}

/// However often a line ticks, its offset stays between zero and the
/// length of the text less the width, and what it shows is `width` characters
/// of the text, or all of it where it fits.
pub proof fn lemma_offset_bounded(line: LineView, n: nat)
    requires
        line.well_formed(),
    ensures
        line.ticks(n).well_formed(),
        line.ticks(n).content == line.content,
        line.ticks(n).width == line.width,
        line.ticks(n).dwell_duration == line.dwell_duration,
        line.scrolls() ==> line.ticks(n).offset + line.width <= line.content.len(),
        line.scrolls() ==> line.ticks(n).render().len() == line.width,
        !line.scrolls() ==> line.ticks(n).render() == line.content,
    decreases n,
{
    if n > 0 {
        lemma_tick_keeps_bounds(line);
        lemma_offset_bounded(line.tick(), (n - 1) as nat);
    }
}

/// A text that fits the display never moves: what is shown of it is the same
/// after any number of ticks.
pub proof fn lemma_short_text_is_still(line: LineView, n: nat)
    requires
        !line.scrolls(),
    ensures
        line.ticks(n) == line,
        line.ticks(n).render() == line.render(),
    decreases n,
{
    if n > 0 {
        lemma_short_text_is_still(line.tick(), (n - 1) as nat);
    }
}

/// A tick moves the offset by at most one, and never against the line's
/// direction.
pub proof fn lemma_tick_follows_direction(line: LineView)
    requires
        line.well_formed(),
    ensures
        match line.direction {
            Direction::Forward => line.offset <= line.tick().offset <= line.offset + 1,
            Direction::Backward => line.tick().offset <= line.offset <= line.tick().offset + 1,
        },
{
}

/// A line turns round exactly when it is due to move past an end of the text:
/// it scrolls, does not rest, and stands at the end that it is heading for.
/// It then stays at that end and rests for the full length of a rest.
pub proof fn lemma_turns_exactly_at_ends(line: LineView)
    requires
        line.well_formed(),
    ensures
        line.tick().direction != line.direction <==> {
            &&& line.scrolls()
            &&& line.dwell_remaining == 0
            &&& match line.direction {
                Direction::Forward => line.offset == line.max_offset(),
                Direction::Backward => line.offset == 0,
            }
        },
        line.tick().direction != line.direction ==> {
            &&& line.tick().offset == line.offset
            &&& line.tick().dwell_remaining == line.dwell_duration
        },
{
}

/// A scrolling line that rests keeps its offset and its direction until the
/// rest is over: after `k` ticks of a rest, `k` ticks less remain of it.
pub proof fn lemma_rest_holds_offset(line: LineView, k: nat)
    requires
        line.scrolls(),
        k <= line.dwell_remaining,
    ensures
        line.ticks(k) == (LineView {
            dwell_remaining: (line.dwell_remaining - k) as nat,
            ..line
        }),
    decreases k,
{
    if k > 0 {
        lemma_rest_holds_offset(line.tick(), (k - 1) as nat);
    }
}

/// Every turn is followed by a full rest: for `dwell_duration` ticks after the
/// tick that turned the line round, the offset does not change, and the tick
/// after those moves the line by one, away from the end.
pub proof fn lemma_turn_is_followed_by_rest(line: LineView, k: nat)
    requires
        line.well_formed(),
        line.tick().direction != line.direction,
        k <= line.dwell_duration,
    ensures
        line.tick().ticks(k).offset == line.tick().offset,
        line.tick().ticks(k).direction == line.tick().direction,
        match line.tick().direction {
            Direction::Forward => line.tick().ticks(line.dwell_duration + 1).offset == 1,
            Direction::Backward => line.tick().ticks(line.dwell_duration + 1).offset + 1
                == line.max_offset(),
        },
{
    let turned = line.tick();
    lemma_turns_exactly_at_ends(line);
    lemma_rest_holds_offset(turned, k);
    lemma_rest_holds_offset(turned, line.dwell_duration);
    lemma_ticks_compose(turned, line.dwell_duration, 1);
    let rested = turned.ticks(line.dwell_duration);
    assert(rested.ticks(1) == rested.tick()) by {
        assert(rested.tick().ticks(0) == rested.tick());
    }
}

/// Ticking `m` times and then `n` times is ticking `m + n` times.
pub proof fn lemma_ticks_compose(line: LineView, m: nat, n: nat)
    ensures
        line.ticks(m).ticks(n) == line.ticks(m + n),
    decreases m,
{
    if m > 0 {
        lemma_ticks_compose(line.tick(), (m - 1) as nat, n);
    }
}

/// While a line does not turn round, its offsets never move against its
/// direction: they do not fall while it heads forward and do not rise while it
/// heads backward.
pub proof fn lemma_run_is_monotone(line: LineView, n: nat)
    requires
        line.well_formed(),
        forall|i: nat| i <= n ==> (#[trigger] line.ticks(i)).direction == line.direction,
    ensures
        match line.direction {
            Direction::Forward => line.offset <= line.ticks(n).offset,
            Direction::Backward => line.ticks(n).offset <= line.offset,
        },
    decreases n,
{
    if n > 0 {
        let next = line.tick();
        assert(line.ticks(1) == next) by {
            assert(next.ticks(0) == next);
        }
        assert forall|i: nat| i <= n - 1 implies (#[trigger] next.ticks(i)).direction
            == next.direction by {
            assert(line.ticks(i + 1) == next.ticks(i));
        }
        lemma_tick_keeps_bounds(line);
        lemma_tick_follows_direction(line);
        lemma_run_is_monotone(next, (n - 1) as nat);
    }
}

} // verus!
