//! Aggregation of reasoning transcripts: the lines between an opening and a
//! closing marker are gathered into one text.

use crate::text::{
    after_first, before_first, contains, str_after_first, str_before_first, str_contains,
};
use vstd::prelude::*;

verus! {

/// The lines of a transcript joined by line breaks.
pub open spec fn joined(lines: Seq<Seq<char>>) -> Seq<char>
    decreases lines.len(),
{
    if lines.len() == 0 {
        Seq::empty()
    } else if lines.len() == 1 {
        lines[0]
    } else {
        joined(lines.drop_last()) + seq!['\n'] + lines.last()
    }
}

/// The contents of a list of strings, in order.
pub open spec fn line_views(lines: Seq<String>) -> Seq<Seq<char>> {
    lines.map_values(|line: String| line@)
}

/// The text on an opening line that belongs to the transcript: what follows
/// the first opening marker, up to the next one if the line holds another.
pub open spec fn seed_of(line: Seq<char>) -> Seq<char> {
    before_first(after_first(line, "<think>"@), "<think>"@)
}

/// The text on a closing line that belongs to the transcript: what precedes
/// the first closing marker.
pub open spec fn tail_of(line: Seq<char>) -> Seq<char> {
    before_first(line, "</think>"@)
}

/// `lines` with `text` added at the end, unless `text` is empty.
pub open spec fn with_text(lines: Seq<Seq<char>>, text: Seq<char>) -> Seq<Seq<char>> {
    if text.len() > 0 {
        lines.push(text)
    } else {
        lines
    }
}

/// What a line does to the aggregator.
#[derive(Debug, Clone, Copy, PartialEq, Eq, Structural)]
pub enum ThinkRoute {
    /// The line holds the opening marker and starts a transcript.
    Open,
    /// The line holds the closing marker, and no opening one, and ends the
    /// transcript.
    Close,
    /// The line holds no marker and falls inside a transcript.
    Inside,
    /// The line holds no marker and falls outside any transcript.
    Outside,
}

/// The route of a line, given whether a transcript is open.  The opening
/// marker is looked for first, so a line with both markers opens.
pub open spec fn route(thinking: bool, line: Seq<char>) -> ThinkRoute {
    if contains(line, "<think>"@) {
        ThinkRoute::Open
    } else if contains(line, "</think>"@) {
        ThinkRoute::Close
    } else if thinking {
        ThinkRoute::Inside
    } else {
        ThinkRoute::Outside
    }
}

/// The mathematical content of the aggregator.
pub ghost struct ThinkView {
    pub active: bool,
    pub lines: Seq<Seq<char>>,
}

/// The aggregator after a line.
pub open spec fn think_after(state: ThinkView, line: Seq<char>) -> ThinkView {
    match route(state.active, line) {
        ThinkRoute::Open => ThinkView {
            active: true,
            lines: with_text(Seq::empty(), seed_of(line)),
        },
        ThinkRoute::Close => ThinkView {
            active: false,
            lines: with_text(state.lines, tail_of(line)),
        },
        ThinkRoute::Inside => ThinkView { active: true, lines: state.lines.push(line) },
        ThinkRoute::Outside => state,
    }
}

/// The transcript that a line completes: the joined lines, on a closing line
/// only.
pub open spec fn emitted(state: ThinkView, line: Seq<char>) -> Option<Seq<char>> {
    match route(state.active, line) {
        ThinkRoute::Close => Some(joined(think_after(state, line).lines)),
        _ => None,
    }
}

/// The aggregator: whether a transcript is open, and its lines so far.  The
/// lines of a finished transcript stay until the next one opens.
#[derive(Debug)]
pub struct ThinkBlock {
    pub active: bool,
    pub lines: Vec<String>,
}

impl View for ThinkBlock {
    type V = ThinkView;

    open spec fn view(&self) -> ThinkView {
        ThinkView { active: self.active, lines: line_views(self.lines@) }
    }
}

/// What came of a line that was fed to the aggregator.
#[derive(Debug)]
pub enum ThinkOutcome {
    /// The line went into the transcript; nothing is to be logged.
    Absorbed,
    /// The line ended the transcript, which is handed out.
    Thought(String),
    /// The line is no part of a transcript.
    Passed,
}

impl ThinkBlock {
    /// An aggregator with no transcript.
    pub fn new() -> (block: ThinkBlock)
        ensures
            block@ == (ThinkView { active: false, lines: Seq::empty() }),
    {
        let block = ThinkBlock { active: false, lines: Vec::new() };
        assert(block@.lines =~= Seq::empty());
        block
    }

    /// Drops the transcript and closes it.
    pub fn clear(&mut self)
        ensures
            final(self)@ == (ThinkView { active: false, lines: Seq::empty() }),
    {
        self.active = false;
        self.lines = Vec::new();
        assert(self@.lines =~= Seq::empty());
    }

    /// The route that `line` would take.
    pub fn route_of(&self, line: &str) -> (r: ThinkRoute)
        ensures
            r == route(self@.active, line@),
    {
        if str_contains(line, "<think>") {
            ThinkRoute::Open
        } else if str_contains(line, "</think>") {
            ThinkRoute::Close
        } else if self.active {
            ThinkRoute::Inside
        } else {
            ThinkRoute::Outside
        }
    }

    /// The transcript so far, its lines joined by line breaks.
    pub fn text(&self) -> (text: String)
        ensures
            text@ == joined(self@.lines),
    {
        let mut text = String::new();
        let mut i: usize = 0;
        while i < self.lines.len()
            invariant
                i <= self.lines.len(),
                text@ == joined(self@.lines.take(i as int)),
            decreases self.lines.len() - i,
        {
            proof {
                let all = self@.lines;
                let before = all.take(i as int);
                let now = all.take(i + 1);
                assert(now.drop_last() =~= before);
                assert(now.last() == self.lines@[i as int]@);
                reveal_strlit("\n");
                assert("\n"@ =~= seq!['\n']);
                if i == 0 {
                    assert(Seq::<char>::empty() + self.lines@[0]@ =~= self.lines@[0]@);
                } else if i == 1 {
                    assert(before.drop_last() =~= Seq::<Seq<char>>::empty());
                }
            }
            if i > 0 {
                text.append("\n");
            }
            text.append(self.lines[i].as_str());
            i += 1;
        }
        assert(self@.lines.take(self.lines.len() as int) =~= self@.lines);
        text
    }

    /// Feeds a line to the aggregator.
    ///
    /// An opening line starts a new transcript with the text after the marker;
    /// a closing line adds the text before the marker and hands the whole
    /// transcript out; a line inside is added as it is.
    pub fn feed(&mut self, line: &str) -> (outcome: ThinkOutcome)
        ensures
            final(self)@ == think_after(old(self)@, line@),
            match outcome {
                ThinkOutcome::Absorbed => {
                    &&& emitted(old(self)@, line@) is None
                    &&& route(old(self)@.active, line@) != ThinkRoute::Outside
                },
                ThinkOutcome::Thought(text) => emitted(old(self)@, line@) == Some(text@),
                ThinkOutcome::Passed => route(old(self)@.active, line@) == ThinkRoute::Outside,
            },
    {
        match self.route_of(line) {
            ThinkRoute::Open => {
                let seed = str_before_first(str_after_first(line, "<think>"), "<think>");
                let mut lines: Vec<String> = Vec::new();
                if seed.unicode_len() > 0 {
                    lines.push(String::from_str(seed));
                }
                self.active = true;
                self.lines = lines;
                assert(self@.lines =~= with_text(Seq::empty(), seed_of(line@)));
                ThinkOutcome::Absorbed
            },
            ThinkRoute::Close => {
                let tail = str_before_first(line, "</think>");
                if tail.unicode_len() > 0 {
                    self.lines.push(String::from_str(tail));
                }
                self.active = false;
                assert(self@.lines =~= with_text(old(self)@.lines, tail_of(line@)));
                ThinkOutcome::Thought(self.text())
            },
            ThinkRoute::Inside => {
                self.lines.push(String::from_str(line));
                assert(self@.lines =~= old(self)@.lines.push(line@));
                ThinkOutcome::Absorbed
            },
            ThinkRoute::Outside => ThinkOutcome::Passed,
        }
    }
}

/// Between an opening and a closing line every line is absorbed: none is
/// handed on and none emits a transcript.
pub proof fn lemma_inside_is_absorbed(state: ThinkView, line: Seq<char>)
    requires
        state.active,
    ensures
        route(state.active, line) != ThinkRoute::Outside,
        emitted(state, line) is Some <==> route(state.active, line) == ThinkRoute::Close,
{
}

/// Only a closing line emits a transcript, and it closes the block; an
/// opening line always leaves the block open.
pub proof fn lemma_one_transcript_per_close(state: ThinkView, line: Seq<char>)
    ensures
        emitted(state, line) is Some ==> !think_after(state, line).active,
        contains(line, "<think>"@) ==> think_after(state, line).active && emitted(state, line)
            is None,
        !contains(line, "<think>"@) && !contains(line, "</think>"@) ==> think_after(
            state,
            line,
        ).active == state.active && emitted(state, line) is None,
{
}

/// Joining puts exactly one line break between neighbours: the joined text of
/// a transcript with one more line is the old text, a line break and the line.
pub proof fn lemma_joined_push(lines: Seq<Seq<char>>, line: Seq<char>)
    ensures
        joined(lines.push(line)) == if lines.len() == 0 {
            line
        } else {
            joined(lines) + seq!['\n'] + line
        },
{
    let grown = lines.push(line);
    assert(grown.drop_last() =~= lines);
    assert(grown.last() == line);
    if lines.len() == 0 {
        assert(grown[0] == line);
    }
}

/// The aggregator after a run of lines, fed in order.
pub open spec fn think_after_all(state: ThinkView, lines: Seq<Seq<char>>) -> ThinkView
    decreases lines.len(),
{
    if lines.len() == 0 {
        state
    } else {
        think_after(think_after_all(state, lines.drop_last()), lines.last())
    }
}

/// The line holds neither marker.
pub open spec fn is_plain(line: Seq<char>) -> bool {
    !contains(line, "<think>"@) && !contains(line, "</think>"@)
}

/// A block of an opening line, any number of lines without a marker and a
/// closing line yields exactly one transcript: no line before the closing one
/// emits anything, and the closing line emits the text of the opening line,
/// the lines between as they came and the text of the closing line, joined by
/// line breaks.  What the aggregator held before the block plays no part.
pub proof fn lemma_block_yields_one_transcript(
    state: ThinkView,
    opening: Seq<char>,
    inside: Seq<Seq<char>>,
    closing: Seq<char>,
)
    requires
        contains(opening, "<think>"@),
        forall|i: int| 0 <= i < inside.len() ==> is_plain(#[trigger] inside[i]),
        contains(closing, "</think>"@),
        !contains(closing, "<think>"@),
    ensures
        emitted(state, opening) is None,
        forall|i: int|
            0 <= i < inside.len() ==> emitted(
                think_after_all(think_after(state, opening), inside.take(i)),
                #[trigger] inside[i],
            ) is None,
        think_after_all(think_after(state, opening), inside) == (ThinkView {
            active: true,
            lines: with_text(Seq::empty(), seed_of(opening)) + inside,
        }),
        emitted(think_after_all(think_after(state, opening), inside), closing) == Some(
            joined(
                with_text(with_text(Seq::empty(), seed_of(opening)) + inside, tail_of(closing)),
            ),
        ),
    decreases inside.len(),
{
    let opened = think_after(state, opening);
    let seed = with_text(Seq::empty(), seed_of(opening));
    if inside.len() == 0 {
        assert(seed + inside =~= seed);
    } else {
        let before = inside.drop_last();
        lemma_block_yields_one_transcript(state, opening, before, closing);
        let last = inside.last();
        assert(is_plain(inside[inside.len() - 1]));
        assert((seed + before).push(last) =~= seed + inside);
        assert forall|i: int| 0 <= i < inside.len() implies emitted(
            think_after_all(opened, inside.take(i)),
            #[trigger] inside[i],
        ) is None by {
            assert(is_plain(inside[i]));
        }
    }
}

} // verus!
