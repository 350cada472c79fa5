//! The text being viewed: its lines, in order.

use crate::line::{graphemes_of, GraphemeView, Line};
use crate::text::push_char;
use vstd::prelude::*;

verus! {

/// The index of the first line feed in `text`, or its length if it has none.
pub open spec fn first_line_feed(text: Seq<char>) -> int
    decreases text.len(),
{
    if text.len() == 0 || text[0] == '\n' {
        0
    } else {
        1 + first_line_feed(text.drop_first())
    }
}

/// `line` without the carriage return at its end, if it has one there.
pub open spec fn without_carriage_return(line: Seq<char>) -> Seq<char> {
    if line.len() > 0 && line.last() == '\r' {
        line.drop_last()
    } else {
        line
    }
}

/// The lines of a text. A line ends at a line feed, or at a carriage return
/// followed at once by a line feed, and holds neither. What follows the last
/// line feed is a line too, unless it is empty; it keeps a carriage return at
/// its end.
pub open spec fn text_lines(text: Seq<char>) -> Seq<Seq<char>>
    decreases text.len(),
{
    let end = first_line_feed(text);
    if text.len() == 0 {
        Seq::empty()
    } else if 0 <= end < text.len() {
        seq![without_carriage_return(text.take(end))] + text_lines(text.skip(end + 1))
    } else {
        seq![text]
    }
}

/// Where the first line feed is: after a stretch without one.
pub proof fn lemma_first_line_feed(text: Seq<char>, end: int)
    requires
        0 <= end <= text.len(),
        forall|i: int| 0 <= i < end ==> text[i] != '\n',
        end < text.len() ==> text[end] == '\n',
    ensures
        first_line_feed(text) == end,
    decreases end,
{
    if end > 0 {
        lemma_first_line_feed(text.drop_first(), end - 1);
    }
}

/// The first line feed lies in the text, or just after its end if it has none.
pub proof fn lemma_first_line_feed_in_range(text: Seq<char>)
    ensures
        0 <= first_line_feed(text) <= text.len(),
    decreases text.len(),
{
    if text.len() > 0 && text[0] != '\n' {
        lemma_first_line_feed_in_range(text.drop_first());
    }
}

/// No line feed stands before the first one.
pub proof fn lemma_before_first_line_feed(text: Seq<char>, i: int)
    requires
        0 <= i < first_line_feed(text),
    ensures
        i < text.len(),
        text[i] != '\n',
    decreases text.len(),
{
    lemma_first_line_feed_in_range(text);
    if i > 0 {
        lemma_before_first_line_feed(text.drop_first(), i - 1);
    }
}

/// No line of a text holds a line feed.
pub proof fn lemma_lines_hold_no_line_feed(text: Seq<char>, line: int)
    requires
        0 <= line < text_lines(text).len(),
    ensures
        !text_lines(text)[line].contains('\n'),
    decreases text.len(),
{
    let end = first_line_feed(text);
    lemma_first_line_feed_in_range(text);
    if line > 0 {
        lemma_lines_hold_no_line_feed(text.skip(end + 1), line - 1);
    } else {
        let first = text_lines(text)[0];
        assert forall|i: int| 0 <= i < first.len() implies first[i] != '\n' by {
            lemma_before_first_line_feed(text, i);
        }
    }
}

/// Splits a text into its lines.
pub fn split_lines(text: &str) -> (lines: Vec<String>)
    ensures
        lines.deep_view() == text_lines(text@),
{
    let mut lines: Vec<String> = Vec::new();
    // The line being read, but for a carriage return at its end, which is
    // held back until the next character shows whether it ends the line.
    let mut current = String::new();
    let mut pending_return = false;
    let ghost mut start: int = 0;
    proof {
        assert(text@.skip(0) =~= text@);
        assert(lines.deep_view() + text_lines(text@) =~= text_lines(text@));
    }
    for c in it: text.chars()
        invariant
            it.seq() == text@,
            0 <= start <= it.index(),
            forall|i: int| start <= i < it.index() ==> text@[i] != '\n',
            text@.subrange(start, it.index()) == if pending_return {
                current@.push('\r')
            } else {
                current@
            },
            !pending_return ==> current@.len() == 0 || current@.last() != '\r',
            text_lines(text@) == lines.deep_view() + text_lines(text@.skip(start)),
    {
        let ghost at = it.index();
        if c == '\n' {
            proof {
                let rest = text@.skip(start);
                lemma_first_line_feed(rest, at - start);
                assert(rest.take(at - start) =~= text@.subrange(start, at));
                assert(rest.skip(at - start + 1) =~= text@.skip(at + 1));
                assert(without_carriage_return(text@.subrange(start, at)) =~= current@);
                start = at + 1;
                assert(text@.subrange(start, start) =~= Seq::<char>::empty());
            }
            let ghost before = lines.deep_view();
            let ghost line = current@;
            lines.push(current);
            proof {
                assert(lines.deep_view() =~= before + seq![line]);
            }
            current = String::new();
            pending_return = false;
        } else {
            proof {
                assert(text@.subrange(start, at + 1) =~= text@.subrange(start, at).push(c));
            }
            if pending_return {
                push_char(&mut current, '\r');
            }
            if c == '\r' {
                pending_return = true;
            } else {
                pending_return = false;
                push_char(&mut current, c);
            }
        }
    }
    if pending_return {
        push_char(&mut current, '\r');
    }
    proof {
        let rest = text@.skip(start);
        lemma_first_line_feed(rest, rest.len() as int);
        assert(rest =~= text@.subrange(start, text@.len() as int));
        assert(lines.deep_view() + Seq::<Seq<char>>::empty() =~= lines.deep_view());
    }
    if current.as_str().unicode_len() > 0 {
        let ghost before = lines.deep_view();
        let ghost line = current@;
        lines.push(current);
        proof {
            assert(lines.deep_view() =~= before + seq![line]);
        }
    }
    lines
}

/// The lines of a text, each as a line of graphemes.
pub open spec fn buffer_lines(text: Seq<char>) -> Seq<Seq<GraphemeView>> {
    text_lines(text).map_values(|line: Seq<char>| graphemes_of(line))
}

/// The error of std with which reading a file fails. Nothing is known of
/// its inside here; it is only handed on.
#[verifier::external_type_specification]
#[verifier::external_body]
pub struct ExIoError(std::io::Error);

/// The lines of the text, first to last. A buffer without lines is the state
/// before any text was loaded.
pub struct Buffer {
    pub lines: Vec<Line>,
}

impl View for Buffer {
    type V = Seq<Seq<GraphemeView>>;

    open spec fn view(&self) -> Seq<Seq<GraphemeView>> {
        self.lines@.map_values(|line: Line| line@)
    }
}

impl Default for Buffer {
    fn default() -> (buffer: Buffer)
        ensures
            buffer@ == Seq::<Seq<GraphemeView>>::empty(),
    {
        let buffer = Buffer { lines: Vec::new() };
        assert(buffer@ =~= Seq::<Seq<GraphemeView>>::empty());
        buffer
    }
}

impl Buffer {
    /// The buffer that holds the lines of a text.
    pub fn from_text(text: &str) -> (buffer: Buffer)
        ensures
            buffer@ == buffer_lines(text@),
    {
        let texts = split_lines(text);
        let mut lines: Vec<Line> = Vec::new();
        let mut i: usize = 0;
        while i < texts.len()
            invariant
                i <= texts@.len(),
                texts.deep_view() == text_lines(text@),
                lines@.len() == i,
                forall|k: int|
                    0 <= k < i ==> (#[trigger] lines@[k])@ == graphemes_of(text_lines(text@)[k]),
            decreases texts.len() - i,
        {
            lines.push(Line::from(texts[i].as_str()));
            i += 1;
        }
        let buffer = Buffer { lines };
        assert(buffer@ =~= buffer_lines(text@));
        buffer
    }

    /// Makes a buffer of what reading a file gave: of the text, the buffer
    /// of its lines; of the error, that error again.
    pub fn load(read: Result<String, std::io::Error>) -> (loaded: Result<Buffer, std::io::Error>)
        ensures
            match read {
                Ok(text) => loaded is Ok && loaded->Ok_0@ == buffer_lines(text@),
                Err(error) => loaded is Err && loaded->Err_0 == error,
            },
    {
        match read {
            Ok(text) => Ok(Buffer::from_text(text.as_str())),
            Err(error) => Err(error),
        }
    }

    /// Whether the buffer holds no line at all.
    pub fn is_empty(&self) -> (empty: bool)
        ensures
            empty == (self@.len() == 0),
    {
        self.lines.is_empty()
    }

    /// The number of lines.
    pub fn height(&self) -> (height: usize)
        ensures
            height == self@.len(),
    {
        self.lines.len()
    }
}

} // verus!
