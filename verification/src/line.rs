//! One line of text as a sequence of grapheme clusters, each with the number
//! of screen columns it takes up.

use crate::text::push_char;
use crate::unicode::{display_width, grapheme_clusters, measure_width, split_graphemes};
use std::ops::Range;
use vstd::prelude::*;

verus! {

/// The glyph shown in place of a cluster that would take up no column.
pub const PLACEHOLDER: char = '\u{b7}';

/// The glyph shown in place of a cluster that the edge of the visible range
/// cuts through.
pub const ELLIPSIS: char = '\u{22ef}';

/// How many screen columns a grapheme takes up: one or two.
#[derive(Clone, Copy, Debug, PartialEq, Eq, Structural)]
pub enum GraphemeWidth {
    Half,
    Full,
}

impl GraphemeWidth {
    pub open spec fn spec_columns(self) -> usize {
        match self {
            GraphemeWidth::Half => 1,
            GraphemeWidth::Full => 2,
        }
    }

    /// The number of columns: 1 for `Half`, 2 for `Full`.
    #[verifier::when_used_as_spec(spec_columns)]
    pub fn columns(self) -> (columns: usize)
        ensures
            columns == self.spec_columns(),
    {
        match self {
            GraphemeWidth::Half => 1,
            GraphemeWidth::Full => 2,
        }
    }
}

/// A grapheme as a mathematical value.
pub struct GraphemeView {
    /// The code points of the cluster.
    pub content: Seq<char>,
    /// The columns it takes up on screen.
    pub width: GraphemeWidth,
    /// The glyph drawn in place of the content, if any.
    pub replacement: Option<char>,
}

impl GraphemeView {
    /// The grapheme made of a cluster that measures `columns` columns: a
    /// cluster of no width takes one column and is drawn as the placeholder,
    /// one of two or more columns takes two, any other takes one.
    pub open spec fn measured(content: Seq<char>, columns: usize) -> GraphemeView {
        GraphemeView {
            content,
            width: if columns <= 1 { GraphemeWidth::Half } else { GraphemeWidth::Full },
            replacement: if columns == 0 { Some(PLACEHOLDER) } else { None },
        }
    }

    /// Whether the grapheme is one that a measured cluster can make: only a
    /// grapheme of one column is drawn as something else than its content,
    /// and then as the placeholder.
    pub open spec fn well_formed(self) -> bool {
        self.replacement is None || (self.replacement == Some(PLACEHOLDER) && self.width
            == GraphemeWidth::Half)
    }

    /// What is drawn for the grapheme when all of it is visible.
    pub open spec fn glyph(self) -> Seq<char> {
        match self.replacement {
            Some(c) => seq![c],
            None => self.content,
        }
    }
}

/// One user-perceived character: a grapheme cluster, the columns it takes up,
/// and the glyph that stands in for it where the cluster itself has no width.
pub struct Grapheme {
    content: String,
    width: GraphemeWidth,
    replacement: Option<char>,
}

impl View for Grapheme {
    type V = GraphemeView;

    closed spec fn view(&self) -> GraphemeView {
        GraphemeView { content: self.content@, width: self.width, replacement: self.replacement }
    }
}

impl Grapheme {
    #[verifier::type_invariant]
    spec fn well_formed(self) -> bool {
        self@.well_formed()
    }

    /// The grapheme for a cluster whose measured width is `columns`.
    pub fn new(content: String, columns: usize) -> (grapheme: Grapheme)
        ensures
            grapheme@ == GraphemeView::measured(content@, columns),
            grapheme@.well_formed(),
    {
        let width = if columns <= 1 { GraphemeWidth::Half } else { GraphemeWidth::Full };
        let replacement = if columns == 0 { Some(PLACEHOLDER) } else { None };
        Grapheme { content, width, replacement }
    }

    /// The code points of the cluster.
    pub fn content(&self) -> (content: &str)
        ensures
            content@ == self@.content,
    {
        self.content.as_str()
    }

    /// The columns the grapheme takes up on screen.
    pub fn width(&self) -> (width: GraphemeWidth)
        ensures
            width == self@.width,
    {
        self.width
    }

    /// The glyph drawn in place of the content, if any. Every grapheme is
    /// well formed: only one of a single column has such a glyph, and it is
    /// the placeholder.
    pub fn replacement(&self) -> (replacement: Option<char>)
        ensures
            replacement == self@.replacement,
            self@.well_formed(),
    {
        proof {
            use_type_invariant(self);
        }
        self.replacement
    }
}

/// The columns that all of `graphemes` take up, side by side.
pub open spec fn total_columns(graphemes: Seq<GraphemeView>) -> nat
    decreases graphemes.len(),
{
    if graphemes.len() == 0 {
        0
    } else {
        (total_columns(graphemes.drop_last()) + graphemes.last().width.columns()) as nat
    }
}

/// The column at which the grapheme of index `n` begins: the columns that the
/// first `n` graphemes take up. Past the end it is the width of the whole line.
pub open spec fn columns_before(graphemes: Seq<GraphemeView>, n: int) -> nat {
    if n <= 0 {
        0
    } else if n >= graphemes.len() {
        total_columns(graphemes)
    } else {
        total_columns(graphemes.take(n))
    }
}

/// `columns` as a `usize`, with `usize::MAX` standing for anything larger.
pub open spec fn saturated(columns: nat) -> usize {
    if columns <= usize::MAX {
        columns as usize
    } else {
        usize::MAX
    }
}

/// What is drawn for a grapheme that begins at column `at`, when the columns
/// from `start` up to, but not including, `end` are shown: nothing if it lies
/// outside them; the ellipsis if it reaches across either edge; else its glyph.
pub open spec fn drawn(grapheme: GraphemeView, at: nat, start: int, end: int) -> Seq<char> {
    let next = at + grapheme.width.columns();
    if next <= start || end <= at {
        Seq::empty()
    } else if at < start || end < next {
        seq![ELLIPSIS]
    } else {
        grapheme.glyph()
    }
}

/// What is drawn for `graphemes`, laid out from column 0 on, when the
/// columns from `start` up to, but not including, `end` are shown.
pub open spec fn drawn_all(graphemes: Seq<GraphemeView>, start: int, end: int) -> Seq<char>
    decreases graphemes.len(),
{
    if graphemes.len() == 0 {
        Seq::empty()
    } else {
        drawn_all(graphemes.drop_last(), start, end) + drawn(
            graphemes.last(),
            total_columns(graphemes.drop_last()),
            start,
            end,
        )
    }
}

/// The text shown of a line in the columns from `start` up to, but not
/// including, `end`: nothing where that range is empty.
pub open spec fn visible(graphemes: Seq<GraphemeView>, start: int, end: int) -> Seq<char> {
    if start >= end {
        Seq::empty()
    } else {
        drawn_all(graphemes, start, end)
    }
}

/// The graphemes of a text: one for each of its grapheme clusters, in
/// order, each with the width that the cluster measures.
pub open spec fn graphemes_of(text: Seq<char>) -> Seq<GraphemeView> {
    let clusters = grapheme_clusters(text);
    Seq::new(
        clusters.len(),
        |i: int| GraphemeView::measured(clusters[i], display_width(clusters[i])),
    )
}

/// The clusters that the graphemes hold, in order.
pub open spec fn contents(graphemes: Seq<GraphemeView>) -> Seq<Seq<char>> {
    graphemes.map_values(|grapheme: GraphemeView| grapheme.content)
}

/// One line of text, without its line terminator.
pub struct Line {
    graphemes: Vec<Grapheme>,
}

impl View for Line {
    type V = Seq<GraphemeView>;

    closed spec fn view(&self) -> Seq<GraphemeView> {
        self.graphemes@.map_values(|g: Grapheme| g@)
    }
}

impl Line {
    /// The line that a text makes: its grapheme clusters, each measured.
    /// The line has as many graphemes as the text has clusters; none of
    /// them is empty, and their contents joined give the text again.
    pub fn from(text: &str) -> (line: Line)
        ensures
            line@ == graphemes_of(text@),
            line@.len() == grapheme_clusters(text@).len(),
            contents(line@).flatten() == text@,
            forall|i: int| 0 <= i < line@.len() ==> (#[trigger] line@[i]).content.len() > 0,
    {
        let clusters = split_graphemes(text);
        let mut graphemes: Vec<Grapheme> = Vec::new();
        let mut i: usize = 0;
        while i < clusters.len()
            invariant
                i <= clusters@.len(),
                clusters.deep_view() == grapheme_clusters(text@),
                clusters.deep_view().flatten() == text@,
                forall|k: int| 0 <= k < clusters@.len() ==> (#[trigger] clusters@[k])@.len() > 0,
                graphemes@.len() == i,
                forall|k: int| 0 <= k < i ==> (#[trigger] graphemes@[k])@ == graphemes_of(text@)[k],
            decreases clusters.len() - i,
        {
            let columns = measure_width(clusters[i].as_str());
            graphemes.push(Grapheme::new(clusters[i].clone(), columns));
            i += 1;
        }
        let line = Line { graphemes };
        assert(line@ =~= graphemes_of(text@));
        assert(contents(line@) =~= clusters.deep_view());
        line
    }

    /// The line made of the given graphemes, in order.
    pub fn from_graphemes(graphemes: Vec<Grapheme>) -> (line: Line)
        ensures
            line@ == graphemes@.map_values(|g: Grapheme| g@),
    {
        Line { graphemes }
    }

    /// The grapheme of the given index, if the line has that many.
    pub fn grapheme(&self, index: usize) -> (grapheme: Option<&Grapheme>)
        ensures
            match grapheme {
                Some(grapheme) => index < self@.len() && grapheme@ == self@[index as int],
                None => index >= self@.len(),
            },
    {
        if index < self.graphemes.len() {
            Some(&self.graphemes[index])
        } else {
            None
        }
    }

    /// The number of graphemes in the line.
    pub fn grapheme_count(&self) -> (count: usize)
        ensures
            count == self@.len(),
    {
        self.graphemes.len()
    }

    pub open spec fn spec_width_until(&self, grapheme_index: usize) -> usize {
        saturated(columns_before(self@, grapheme_index as int))
    }

    /// The column at which the grapheme of index `grapheme_index` begins, and
    /// past the end of the line the width of the whole line. A width too
    /// large for `usize` comes back as `usize::MAX`.
    #[verifier::when_used_as_spec(spec_width_until)]
    pub fn width_until(&self, grapheme_index: usize) -> (columns: usize)
        ensures
            columns == self.spec_width_until(grapheme_index),
    {
        let count = if grapheme_index < self.graphemes.len() {
            grapheme_index
        } else {
            self.graphemes.len()
        };
        let mut columns: usize = 0;
        let mut i: usize = 0;
        while i < count
            invariant
                i <= count <= self.graphemes.len(),
                columns == saturated(total_columns(self@.take(i as int))),
            decreases count - i,
        {
            proof {
                lemma_total_columns_step(self@, i as int);
            }
            columns = columns.saturating_add(self.graphemes[i].width.columns());
            i += 1;
        }
        proof {
            assert(self@.take(self@.len() as int) =~= self@);
        }
        columns
    }

    /// The text of the line that shows in the columns from `range.start` up
    /// to, but not including, `range.end`. A grapheme that an edge of the
    /// range cuts through is drawn as the ellipsis, one column wide.
    pub fn get_visible_graphemes(&self, range: Range<usize>) -> (text: String)
        ensures
            text@ == visible(self@, range.start as int, range.end as int),
    {
        let mut text = String::new();
        if range.start >= range.end {
            return text;
        }
        let count = self.graphemes.len();
        let mut at: usize = 0;
        let mut i: usize = 0;
        while i < count && at < range.end
            invariant
                i <= count == self.graphemes.len(),
                range.start < range.end,
                at <= range.end,
                at < range.end ==> at == total_columns(self@.take(i as int)),
                at == range.end ==> range.end <= total_columns(self@.take(i as int)),
                text@ == drawn_all(self@.take(i as int), range.start as int, range.end as int),
            decreases count - i,
        {
            let grapheme = &self.graphemes[i];
            let width = grapheme.width.columns();
            let cut_right = width > range.end - at;
            proof {
                lemma_total_columns_step(self@, i as int);
                assert(self@.take(i + 1).drop_last() =~= self@.take(i as int));
                assert(self@.take(i + 1).last() == grapheme@);
            }
            if at >= range.start || width > range.start - at {
                if at < range.start || cut_right {
                    push_char(&mut text, ELLIPSIS);
                } else {
                    match grapheme.replacement {
                        Some(glyph) => push_char(&mut text, glyph),
                        None => text.append(grapheme.content.as_str()),
                    }
                }
            }
            at = if cut_right { range.end } else { at + width };
            i += 1;
        }
        proof {
            lemma_drawn_all_beyond(self@, i as int, range.start as int, range.end as int);
        }
        text
    }
}

/// Graphemes that begin at or after the end of the shown columns add nothing
/// to what is drawn.
pub proof fn lemma_drawn_all_beyond(graphemes: Seq<GraphemeView>, n: int, start: int, end: int)
    requires
        0 <= n <= graphemes.len(),
        n < graphemes.len() ==> end <= total_columns(graphemes.take(n)),
    ensures
        drawn_all(graphemes, start, end) == drawn_all(graphemes.take(n), start, end),
    decreases graphemes.len() - n,
{
    if n == graphemes.len() {
        assert(graphemes.take(n) =~= graphemes);
    } else {
        lemma_total_columns_step(graphemes, n);
        lemma_drawn_all_beyond(graphemes, n + 1, start, end);
        assert(graphemes.take(n + 1).drop_last() =~= graphemes.take(n));
    }
}

/// Taking one more grapheme adds its width.
pub proof fn lemma_total_columns_step(graphemes: Seq<GraphemeView>, n: int)
    requires
        0 <= n < graphemes.len(),
    ensures
        total_columns(graphemes.take(n + 1)) == total_columns(graphemes.take(n))
            + graphemes[n].width.columns(),
{
    assert(graphemes.take(n + 1).drop_last() =~= graphemes.take(n));
}

/// A longer stretch of graphemes takes up at least as many columns.
pub proof fn lemma_total_columns_monotonic(graphemes: Seq<GraphemeView>, m: int, n: int)
    requires
        0 <= m <= n <= graphemes.len(),
    ensures
        total_columns(graphemes.take(m)) <= total_columns(graphemes.take(n)),
    decreases n - m,
{
    if m < n {
        lemma_total_columns_monotonic(graphemes, m, n - 1);
        lemma_total_columns_step(graphemes, n - 1);
    }
}

/// The column at which a grapheme begins is never before the column at
/// which an earlier one begins.
pub proof fn lemma_columns_before_monotonic(graphemes: Seq<GraphemeView>, m: int, n: int)
    requires
        m <= n,
    ensures
        columns_before(graphemes, m) <= columns_before(graphemes, n),
{
    let len = graphemes.len() as int;
    let m_in = if m <= 0 { 0 } else if m >= len { len } else { m };
    let n_in = if n <= 0 { 0 } else if n >= len { len } else { n };
    lemma_total_columns_monotonic(graphemes, m_in, n_in);
    assert(graphemes.take(len) =~= graphemes);
    assert(graphemes.take(0) =~= Seq::<GraphemeView>::empty());
}

/// The width of a whole line is the column at which its last grapheme
/// begins and that grapheme's width together.
pub proof fn lemma_columns_before_end(graphemes: Seq<GraphemeView>)
    requires
        graphemes.len() > 0,
    ensures
        columns_before(graphemes, graphemes.len() as int) == columns_before(
            graphemes,
            graphemes.len() - 1,
        ) + graphemes.last().width.columns(),
{
    assert(graphemes.take(graphemes.len() - 1) =~= graphemes.drop_last());
    if graphemes.len() == 1 {
        assert(total_columns(graphemes.drop_last()) == 0);
    }
}

impl Line {
    /// A line has no more graphemes than a `usize` can count.
    pub proof fn lemma_grapheme_count_fits(&self)
        ensures
            self@.len() <= usize::MAX,
    {
        assert(self@.len() == self.graphemes.len());
    }

    /// What `width_until` returns never goes down as the index goes up.
    pub proof fn lemma_width_until_monotonic(&self, m: usize, n: usize)
        requires
            m <= n,
        ensures
            self.width_until(m) <= self.width_until(n),
    {
        lemma_columns_before_monotonic(self@, m as int, n as int);
    }

    /// What `width_until` returns for the whole line is what it returns for
    /// the line without its last grapheme, and that grapheme's width. This
    /// holds of every line whose width a `usize` can hold.
    pub proof fn lemma_width_until_end(&self)
        requires
            self@.len() > 0,
            total_columns(self@) <= usize::MAX,
        ensures
            self.width_until(self@.len() as usize) == self.width_until((self@.len() - 1) as usize)
                + self@.last().width.columns(),
    {
        self.lemma_grapheme_count_fits();
        lemma_columns_before_end(self@);
        lemma_columns_before_monotonic(self@, self@.len() - 1, self@.len() as int);
    }
}

/// Graphemes that end at or before the first shown column add nothing to
/// what is drawn.
pub proof fn lemma_drawn_all_before(graphemes: Seq<GraphemeView>, start: int, end: int)
    requires
        total_columns(graphemes) <= start,
    ensures
        drawn_all(graphemes, start, end) == Seq::<char>::empty(),
    decreases graphemes.len(),
{
    if graphemes.len() > 0 {
        lemma_drawn_all_before(graphemes.drop_last(), start, end);
    }
}

/// What is drawn for the first graphemes of a line is the beginning of what
/// is drawn for the line.
pub proof fn lemma_drawn_all_prefix(graphemes: Seq<GraphemeView>, n: int, start: int, end: int)
    requires
        0 <= n <= graphemes.len(),
    ensures
        drawn_all(graphemes.take(n), start, end).is_prefix_of(drawn_all(graphemes, start, end)),
    decreases graphemes.len() - n,
{
    if n == graphemes.len() {
        assert(graphemes.take(n) =~= graphemes);
    } else {
        lemma_drawn_all_prefix(graphemes, n + 1, start, end);
        assert(graphemes.take(n + 1).drop_last() =~= graphemes.take(n));
    }
}

/// A grapheme two columns wide that an edge of the shown columns cuts in
/// half is drawn as the ellipsis and as nothing else. Where the left edge
/// cuts it, the text shown begins with that ellipsis; where the right edge
/// cuts it, the text shown ends with it.
pub proof fn lemma_halved_grapheme_is_ellipsis(
    graphemes: Seq<GraphemeView>,
    i: int,
    start: int,
    end: int,
)
    requires
        0 <= i < graphemes.len(),
        graphemes[i].width == GraphemeWidth::Full,
        start < end,
        start == columns_before(graphemes, i) + 1 || end == columns_before(graphemes, i) + 1,
    ensures
        drawn(graphemes[i], columns_before(graphemes, i), start, end) == seq![ELLIPSIS],
        visible(graphemes, start, end).len() > 0,
        start == columns_before(graphemes, i) + 1 ==> visible(graphemes, start, end).first()
            == ELLIPSIS,
        end == columns_before(graphemes, i) + 1 ==> visible(graphemes, start, end).last()
            == ELLIPSIS,
{
    let at = columns_before(graphemes, i);
    assert(graphemes.take(0) =~= Seq::<GraphemeView>::empty());
    assert(at == total_columns(graphemes.take(i)));
    assert(graphemes.take(i + 1).drop_last() =~= graphemes.take(i));
    let upto = drawn_all(graphemes.take(i + 1), start, end);
    assert(upto == drawn_all(graphemes.take(i), start, end) + seq![ELLIPSIS]);
    lemma_drawn_all_prefix(graphemes, i + 1, start, end);
    if start == at + 1 {
        lemma_drawn_all_before(graphemes.take(i), start, end);
        assert(upto =~= seq![ELLIPSIS]);
        assert(drawn_all(graphemes, start, end).subrange(0, 1)[0] == ELLIPSIS);
    }
    if end == at + 1 {
        lemma_total_columns_step(graphemes, i);
        lemma_drawn_all_beyond(graphemes, i + 1, start, end);
    }
}

} // verus!
