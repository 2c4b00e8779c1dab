//! Laws of points, words and text.
use crate::index::Point;
use crate::word::{RenderLine, RenderableCell, Url, Word};
use vstd::prelude::*;

verus! {

/// Points are ordered as text is read, line by line and from left to right in each: any two are in
/// order, two that are in order both ways are the same, and a third one keeps the order.
pub proof fn law_reading_order(a: Point, b: Point, c: Point)
    ensures
        a.precedes_or_is(b) || b.precedes_or_is(a),
        a.precedes_or_is(b) && b.precedes_or_is(a) ==> a == b,
        a.precedes_or_is(b) && b.precedes_or_is(c) ==> a.precedes_or_is(c),
        a.line.0 < b.line.0 ==> a.precedes_or_is(b) && !b.precedes_or_is(a),
        a.line == b.line && a.col.0 < b.col.0 ==> a.precedes_or_is(b) && !b.precedes_or_is(a),
        a.spec_earlier(b) == a || a.spec_earlier(b) == b,
        a.spec_earlier(b).precedes_or_is(a) && a.spec_earlier(b).precedes_or_is(b),
{
}

/// A point that lies some cells before another one is that many cells away from it, counted over
/// whole lines. Where there are not that many cells it is the first one.
pub proof fn law_cells_are_counted_back(before: Point, start: Point, cols: int, count: int)
    requires
        before.is_before_by(start, cols, count),
        start.col.0 < cols,
        count >= 0,
    ensures
        before.col.0 < cols,
        before.line.0 * cols + before.col.0 + count == start.line.0 * cols + start.col.0 || (
        start.line.0 * cols + start.col.0 < count && before.line.0 == 0 && before.col.0 == 0),
{
    if start.line.0 * cols + start.col.0 < count {
        assert(before.line.0 == 0) by (nonlinear_arith)
            requires
                before.line.0 * cols + before.col.0 == 0,
                before.line.0 >= 0,
                before.col.0 >= 0,
                cols > 0,
        ;
        assert(before.line.0 * cols == 0) by (nonlinear_arith)
            requires
                before.line.0 == 0,
        ;
    }
}

/// An address covers its first and its last cell and all between them in reading order, and no
/// other.
pub proof fn law_address_covers(url: Url, point: Point)
    requires
        url.start.precedes_or_is(url.end),
    ensures
        url.covers(url.start),
        url.covers(url.end),
        url.covers(point) <==> url.start.precedes_or_is(point) && point.precedes_or_is(url.end),
        point.line.0 < url.start.line.0 || point.line.0 > url.end.line.0 ==> !url.covers(point),
        url.start.line.0 < point.line.0 < url.end.line.0 ==> url.covers(point),
{
}

/// A line that is drawn below a word begins where it did, and ends no later than the word.
pub proof fn law_line_ends_with_the_word(line: RenderLine, end: Point)
    ensures
        ({
            let cut = crate::word::clipped(line, end);
            &&& cut.start == line.start
            &&& cut.color == line.color
            &&& line.end.precedes_or_is(end) ==> cut.end == line.end
            &&& end.precedes_or_is(line.end) ==> cut.end == end
        }),
{
}

/// A word ends as many cells before the end of its last line as its offset says.
pub proof fn law_word_end(word: Word, end: Point)
    requires
        word.is_end(end),
        word.lines@.len() > 0,
        word.lines@.last().end.col.0 < word.num_cols.0,
        word.lines@.last().end.line.0 * word.num_cols.0 + word.lines@.last().end.col.0
            >= word.end_offset,
    ensures
        end.line.0 * word.num_cols.0 + end.col.0 + word.end_offset == word.lines@.last().end.line.0
            * word.num_cols.0 + word.lines@.last().end.col.0,
        end.col.0 < word.num_cols.0,
{
}

/// A cell stands for its character, and for a blank where it holds none. It is at a point where
/// both its line and its column are the point's.
pub proof fn law_cells(cell: RenderableCell, point: Point)
    ensures
        cell.content matches Some(c) ==> cell.character() == c,
        cell.content is None ==> cell.character() == ' ',
        cell.is_at(point) <==> cell.line == point.line && cell.column == point.col,
{
}

/// A point in the window is a line further up in the terminal, which the tab bar is above.
pub proof fn law_tab_bar_takes_a_line(point: Point)
    requires
        point.line.0 >= 1,
    ensures
        crate::word::below_tab_bar(point).line.0 + 1 == point.line.0,
        crate::word::below_tab_bar(point).col == point.col,
{
}

/// A word is parted from the cells before it by a blank and by a gap between their columns: cells
/// side by side that are not blank belong to one word, and a blank or a gap begins another.
pub proof fn law_words_part_at_blanks_and_gaps(
    cells: Seq<RenderableCell>,
    i: int,
    start: int,
    end: int,
)
    requires
        0 < i < cells.len(),
    ensures
        ({
            let parted = cells[i].column.0 != cells[i - 1].column.0 + 1 || cells[i].character()
                == ' ';
            let starts_before = crate::word::is_word_start(cells, i - 1, start);
            let starts = crate::word::is_word_start(cells, i, start);
            let ends_before = crate::word::is_word_end(cells, i - 1, end);
            let ends = crate::word::is_word_end(cells, i, end);
            &&& !parted && starts_before ==> starts
            &&& !parted && ends ==> ends_before
            &&& parted && starts ==> start == i
            &&& parted && ends_before ==> end == i
        }),
{
    let parted = cells[i].column.0 != cells[i - 1].column.0 + 1 || cells[i].character() == ' ';
    assert(crate::word::breaks_at(cells, i) <==> parted);
}

/// Every cell belongs to a word, or to the blank before one: there is a place where it starts, and
/// one where it ends.
pub proof fn law_every_cell_has_a_word(cells: Seq<RenderableCell>, at: int)
    requires
        0 <= at < cells.len(),
    ensures
        exists|start: int| #[trigger] crate::word::is_word_start(cells, at, start),
        exists|end: int| #[trigger] crate::word::is_word_end(cells, at, end),
{
    lemma_word_starts(cells, at);
    lemma_word_ends(cells, at);
}

proof fn lemma_word_starts(cells: Seq<RenderableCell>, at: int)
    requires
        0 <= at < cells.len(),
    ensures
        exists|start: int| #[trigger] crate::word::is_word_start(cells, at, start),
    decreases at,
{
    if at == 0 || crate::word::breaks_at(cells, at) {
        assert(crate::word::is_word_start(cells, at, at));
    } else {
        lemma_word_starts(cells, at - 1);
        let start = choose|start: int| #[trigger]
            crate::word::is_word_start(cells, at - 1, start);
        assert(crate::word::is_word_start(cells, at, start));
    }
}

proof fn lemma_word_ends(cells: Seq<RenderableCell>, at: int)
    requires
        0 <= at < cells.len(),
    ensures
        exists|end: int| #[trigger] crate::word::is_word_end(cells, at, end),
    decreases cells.len() - at,
{
    if at + 1 == cells.len() || crate::word::breaks_at(cells, at + 1) {
        assert(crate::word::is_word_end(cells, at, at + 1));
    } else {
        lemma_word_ends(cells, at + 1);
        let end = choose|end: int| #[trigger] crate::word::is_word_end(cells, at + 1, end);
        assert(crate::word::is_word_end(cells, at, end));
    }
}

/// A word has no blank in it.
pub proof fn law_word_has_no_blank(cells: Seq<RenderableCell>, at: int, start: int, end: int)
    requires
        crate::word::is_word_start(cells, at, start),
        crate::word::is_word_end(cells, at, end),
    ensures
        !crate::word::run_text(cells, start, end).contains(' '),
{
    let text = crate::word::run_text(cells, start, end);
    let first: int = if cells[start].character() == ' ' {
        start + 1
    } else {
        start
    };
    assert forall|k: int| 0 <= k < text.len() implies text[k] != ' ' by {
        let i = first + k;
        assert(text[k] == cells[i].character());
        if i > start {
            assert(!crate::word::breaks_at(cells, i));
        }
    }
}

/// The word at a cell that is not blank holds the character of this cell, with those of the cells
/// before and behind it around it, in order.
pub proof fn law_word_holds_its_cell(cells: Seq<RenderableCell>, at: int, start: int, end: int)
    requires
        crate::word::is_word_start(cells, at, start),
        crate::word::is_word_end(cells, at, end),
        cells[at].character() != ' ',
    ensures
        ({
            let text = crate::word::run_text(cells, start, end);
            let first: int = if cells[start].character() == ' ' {
                start + 1
            } else {
                start
            };
            &&& first <= at < end
            &&& text.len() == end - first
            &&& forall|i: int| first <= i < end ==> text[i - first] == (#[trigger] cells[i]).character()
        }),
{
}

/// Where no cell is at a point there is no word; otherwise the word is the one around the first
/// cell that is there.
pub proof fn law_word_at_a_point(cells: Seq<RenderableCell>, point: Point, text: Seq<char>)
    requires
        crate::word::is_word_at(cells, point, text),
    ensures
        (forall|i: int| 0 <= i < cells.len() ==> !(#[trigger] cells[i]).is_at(point)) ==> text.len()
            == 0,
        text.len() > 0 ==> exists|at: int, start: int, end: int|
            {
                &&& 0 <= at < cells.len()
                &&& cells[at].is_at(point)
                &&& #[trigger] crate::word::is_word_start(cells, at, start)
                &&& #[trigger] crate::word::is_word_end(cells, at, end)
                &&& text == crate::word::run_text(cells, start, end)
            },
        forall|at: int| #[trigger]
            crate::word::is_first_at(cells, point, at) ==> 0 <= at < cells.len()
                && cells[at].is_at(point) && forall|i: int|
                0 <= i < at ==> !(#[trigger] cells[i]).is_at(point),
{
}

/// The word at a cell that is not blank, where no cell before it is at the same point, is found: it
/// runs from the start of the word to its end and holds the character of the cell.
pub proof fn law_word_of_a_cell_is_found(
    cells: Seq<RenderableCell>,
    point: Point,
    at: int,
    text: Seq<char>,
)
    requires
        crate::word::is_word_at(cells, point, text),
        0 <= at < cells.len(),
        cells[at].is_at(point),
        forall|i: int| 0 <= i < at ==> !(#[trigger] cells[i]).is_at(point),
        cells[at].character() != ' ',
    ensures
        exists|start: int, end: int|
            {
                &&& #[trigger] crate::word::is_word_start(cells, at, start)
                &&& #[trigger] crate::word::is_word_end(cells, at, end)
                &&& text == crate::word::run_text(cells, start, end)
            },
        text.contains(cells[at].character()),
{
    assert(crate::word::is_first_at(cells, point, at));
    let (first, start, end) = choose|first: int, start: int, end: int|
        {
            &&& crate::word::is_first_at(cells, point, first)
            &&& #[trigger] crate::word::is_word_start(cells, first, start)
            &&& #[trigger] crate::word::is_word_end(cells, first, end)
            &&& text == crate::word::run_text(cells, start, end)
        };
    assert(first == at) by {
        if first < at {
            assert(!cells[first].is_at(point));
        } else if at < first {
            assert(!cells[at].is_at(point));
        }
    }
    law_word_holds_its_cell(cells, at, start, end);
    let from: int = if cells[start].character() == ' ' {
        start + 1
    } else {
        start
    };
    assert(text[at - from] == cells[at].character());
}

/// White space is what Unicode counts as such.
pub proof fn law_white_space(c: char)
    ensures
        crate::text::is_white_space(c) <==> {
            let code = c as int;
            ||| 9 <= code <= 13
            ||| code == 32
            ||| code == 133
            ||| code == 160
            ||| code == 5760
            ||| 8192 <= code <= 8202
            ||| code == 8232
            ||| code == 8233
            ||| code == 8239
            ||| code == 8287
            ||| code == 12288
        },
{
}

/// The last word of a text is removed together with the white space behind it, and what stands in
/// front of it stays as it is, up to the blank before the word.
pub proof fn law_last_word_is_removed(front: Seq<char>, word: Seq<char>, behind: Seq<char>)
    requires
        front.len() == 0 || front.last() == ' ',
        word.len() > 0,
        forall|i: int| 0 <= i < word.len() ==> #[trigger] word[i] != ' ',
        !crate::text::is_white_space(word.last()),
        forall|i: int| 0 <= i < behind.len() ==> crate::text::is_white_space(#[trigger] behind[i]),
    ensures
        crate::text::without_last_word(front + word + behind) == front,
{
    let kept = front + word;
    lemma_white_space_is_trimmed(kept, behind);
    assert(kept.last() == word.last());
    lemma_word_goes(front, word);
}

/// A text of white space alone has no word, and nothing of it stays.
pub proof fn law_white_space_is_removed(behind: Seq<char>)
    requires
        forall|i: int| 0 <= i < behind.len() ==> crate::text::is_white_space(#[trigger] behind[i]),
    ensures
        crate::text::without_last_word(behind).len() == 0,
{
    lemma_white_space_is_trimmed(Seq::empty(), behind);
    assert(Seq::empty() + behind =~= behind);
}

proof fn lemma_white_space_is_trimmed(front: Seq<char>, behind: Seq<char>)
    requires
        forall|i: int| 0 <= i < behind.len() ==> crate::text::is_white_space(#[trigger] behind[i]),
    ensures
        crate::text::trimmed_end(front + behind) == crate::text::trimmed_end(front),
    decreases behind.len(),
{
    if behind.len() == 0 {
        assert(front + behind =~= front);
    } else {
        lemma_white_space_is_trimmed(front, behind.drop_last());
        assert((front + behind).drop_last() =~= front + behind.drop_last());
        assert((front + behind).last() == behind[behind.len() - 1]);
    }
}

proof fn lemma_word_goes(front: Seq<char>, word: Seq<char>)
    requires
        front.len() == 0 || front.last() == ' ',
        forall|i: int| 0 <= i < word.len() ==> #[trigger] word[i] != ' ',
    ensures
        crate::text::up_to_last_space(front + word) == front,
    decreases word.len(),
{
    if word.len() == 0 {
        assert(front + word =~= front);
    } else {
        lemma_word_goes(front, word.drop_last());
        assert((front + word).drop_last() =~= front + word.drop_last());
        assert((front + word).last() == word[word.len() - 1]);
    }
}

/// The last character of a text is removed; an empty text stays empty.
pub proof fn law_last_character_is_removed(text: Seq<char>, c: char)
    ensures
        crate::context::shortened(text.push(c)) == text,
        crate::context::shortened(Seq::empty()) == Seq::<char>::empty(),
{
    assert(text.push(c).drop_last() =~= text);
}

} // verus!
