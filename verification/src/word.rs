//! Words and addresses in the grid.
use crate::index::{Column, Line, Point};
use vstd::prelude::*;

verus! {

/// An address in the terminal, by the first and the last cell of its text.
#[derive(Clone, Copy, PartialEq, Eq, Structural, Debug)]
pub struct Url {
    pub start: Point,
    pub end: Point,
}

impl Url {
    /// The cell is one of the address's.
    pub open spec fn covers(self, point: Point) -> bool {
        self.start.precedes_or_is(point) && point.precedes_or_is(self.end)
    }

    fn covers_point(&self, point: &Point) -> (r: bool)
        ensures
            r == self.covers(*point),
    {
        self.start.at_or_before(point) && point.at_or_before(&self.end)
    }
}

#[derive(Clone, Copy, PartialEq, Eq, Structural, Debug)]
pub struct Rgb {
    pub r: u8,
    pub g: u8,
    pub b: u8,
}

/// A run of cells that is drawn with one line.
#[derive(Clone, Copy, PartialEq, Eq, Structural, Debug)]
pub struct RenderLine {
    pub start: Point,
    pub end: Point,
    pub color: Rgb,
}

/// A piece of text that may span several lines.
#[derive(Debug)]
pub struct Word {
    pub lines: Vec<RenderLine>,
    /// The cells at the end of the last run that do not belong to the text.
    pub end_offset: u16,
    pub num_cols: Column,
    /// The addresses in the text.
    pub urls: Vec<Url>,
}

/// A line as it is drawn when nothing behind `end` is.
pub open spec fn clipped(line: RenderLine, end: Point) -> RenderLine {
    RenderLine { start: line.start, end: line.end.spec_earlier(end), color: line.color }
}

impl Word {
    /// The text has a run, and the last run ends inside of the grid.
    pub open spec fn wf(self) -> bool {
        self.lines@.len() > 0 && self.lines@.last().end.col.0 < self.num_cols.0
    }

    /// `end` is the last cell of the text: the last run without the offset.
    pub open spec fn is_end(self, end: Point) -> bool {
        end.is_before_by(
            self.lines@.last().end,
            self.num_cols.0 as int,
            self.end_offset as int,
        )
    }

    /// Find URL at location: the first one that covers the cell.
    pub fn find_at(&self, point: Point) -> (r: Option<Url>)
        ensures
            match r {
                Some(url) => exists|i: int|
                    {
                        &&& 0 <= i < self.urls@.len()
                        &&& #[trigger] self.urls@[i] == url
                        &&& url.covers(point)
                        &&& forall|j: int| 0 <= j < i ==> !(#[trigger] self.urls@[j]).covers(point)
                    },
                None => forall|i: int|
                    0 <= i < self.urls@.len() ==> !(#[trigger] self.urls@[i]).covers(point),
            },
    {
        let mut i: usize = 0;
        while i < self.urls.len()
            invariant
                i <= self.urls@.len(),
                forall|j: int| 0 <= j < i ==> !(#[trigger] self.urls@[j]).covers(point),
            decreases self.urls@.len() - i,
        {
            let url = self.urls[i];
            if url.covers_point(&point) {
                assert(self.urls@[i as int] == url);
                return Some(url);
            }
            i += 1;
        }
        None
    }

    /// The lines that underline the text: those that start in it, up to its end.
    pub fn rects(&self) -> (r: Vec<RenderLine>)
        requires
            self.wf(),
        ensures
            exists|end: Point|
                #[trigger] self.is_end(end) && r@ == self.lines@.filter(
                    |line: RenderLine| line.start.precedes_or_is(end),
                ).map_values(|line: RenderLine| clipped(line, end)),
    {
        let end = self.end();
        let ghost shown = |line: RenderLine| line.start.precedes_or_is(end);
        let ghost cut = |line: RenderLine| clipped(line, end);
        let mut r: Vec<RenderLine> = Vec::new();
        let mut i: usize = 0;
        assert(self.lines@.take(0).filter(shown) =~= Seq::empty()) by {
            reveal(Seq::filter);
        }
        while i < self.lines.len()
            invariant
                i <= self.lines@.len(),
                shown == (|line: RenderLine| line.start.precedes_or_is(end)),
                cut == (|line: RenderLine| clipped(line, end)),
                r@ == self.lines@.take(i as int).filter(shown).map_values(cut),
            decreases self.lines@.len() - i,
        {
            let line = self.lines[i];
            assert(self.lines@.take(i + 1).drop_last() =~= self.lines@.take(i as int));
            assert(self.lines@.take(i + 1).last() == line);
            proof {
                reveal(Seq::filter);
            }
            if line.start.at_or_before(&end) {
                r.push(RenderLine {
                    start: line.start,
                    end: line.end.earlier(end),
                    color: line.color,
                });
            }
            assert(r@ =~= self.lines@.take(i + 1).filter(shown).map_values(cut));
            i += 1;
        }
        assert(self.lines@.take(i as int) =~= self.lines@);
        r
    }

    /// The first cell.
    pub fn start(&self) -> (r: Point)
        requires
            self.lines@.len() > 0,
        ensures
            r == self.lines@[0].start,
    {
        self.lines[0].start
    }

    /// The last cell.
    pub fn end(&self) -> (r: Point)
        requires
            self.wf(),
        ensures
            self.is_end(r),
    {
        self.lines[self.lines.len() - 1].end.sub(self.num_cols, self.end_offset as usize)
    }
}

/// The end of a text is one cell and no other.
pub proof fn law_end_is_unique(word: Word, a: Point, b: Point)
    requires
        word.is_end(a),
        word.is_end(b),
    ensures
        a == b,
{
    let n = word.num_cols.0 as int;
    assert(a.line.0 == b.line.0 && a.col.0 == b.col.0) by (nonlinear_arith)
        requires
            a.line.0 * n + a.col.0 == b.line.0 * n + b.col.0,
            0 <= a.col.0 < n,
            0 <= b.col.0 < n,
    ;
}

/// A cell as it is shown; `content` is missing where the cell shows no character.
#[derive(Clone, Copy, PartialEq, Eq, Structural, Debug)]
pub struct RenderableCell {
    pub line: Line,
    pub column: Column,
    pub content: Option<char>,
}

impl RenderableCell {
    pub open spec fn character(self) -> char {
        match self.content {
            Some(c) => c,
            None => ' ',
        }
    }

    pub open spec fn is_at(self, point: Point) -> bool {
        self.column == point.col && self.line == point.line
    }
}

/// A word ends before this cell: it is blank, or not the one to the right of the cell before it.
pub open spec fn breaks_at(cells: Seq<RenderableCell>, i: int) -> bool {
    let before: int = if i == 0 {
        0
    } else {
        cells[i - 1].column.0 as int
    };
    before + 1 != cells[i].column.0 || cells[i].character() == ' '
}

/// The characters of the cells from `start` on, without a blank at the start itself.
pub open spec fn run_text(cells: Seq<RenderableCell>, start: int, end: int) -> Seq<char> {
    let all = cells.subrange(start, end).map_values(|c: RenderableCell| c.character());
    if breaks_at(cells, start) && cells[start].character() == ' ' {
        all.drop_first()
    } else {
        all
    }
}

/// `start` is where the word that holds the cell `at` begins: at the last break up to there, or
/// at the first cell.
pub open spec fn is_word_start(cells: Seq<RenderableCell>, at: int, start: int) -> bool {
    &&& 0 <= start <= at
    &&& start == 0 || breaks_at(cells, start)
    &&& forall|i: int| start < i <= at ==> !#[trigger] breaks_at(cells, i)
}

/// `end` is where the word that holds the cell `at` stops: before the next break.
pub open spec fn is_word_end(cells: Seq<RenderableCell>, at: int, end: int) -> bool {
    &&& at < end <= cells.len()
    &&& end == cells.len() || breaks_at(cells, end)
    &&& forall|i: int| at < i < end ==> !#[trigger] breaks_at(cells, i)
}

/// `at` is the first cell at the point.
pub open spec fn is_first_at(cells: Seq<RenderableCell>, point: Point, at: int) -> bool {
    &&& 0 <= at < cells.len()
    &&& cells[at].is_at(point)
    &&& forall|i: int| 0 <= i < at ==> !(#[trigger] cells[i]).is_at(point)
}

/// The text of the word that is shown at a point; empty where no cell is there.
pub open spec fn is_word_at(cells: Seq<RenderableCell>, point: Point, text: Seq<char>) -> bool {
    if exists|at: int| is_first_at(cells, point, at) {
        exists|at: int, start: int, end: int|
            {
                &&& is_first_at(cells, point, at)
                &&& #[trigger] is_word_start(cells, at, start)
                &&& #[trigger] is_word_end(cells, at, end)
                &&& text == run_text(cells, start, end)
            }
    } else {
        text == Seq::<char>::empty()
    }
}

/// The word at a point is determined by the cells that are shown.
pub proof fn law_word_is_unique(
    cells: Seq<RenderableCell>,
    point: Point,
    a: Seq<char>,
    b: Seq<char>,
)
    requires
        is_word_at(cells, point, a),
        is_word_at(cells, point, b),
    ensures
        a == b,
{
    if exists|at: int| is_first_at(cells, point, at) {
        let (at1, start1, end1) = choose|at: int, start: int, end: int|
            {
                &&& is_first_at(cells, point, at)
                &&& #[trigger] is_word_start(cells, at, start)
                &&& #[trigger] is_word_end(cells, at, end)
                &&& a == run_text(cells, start, end)
            };
        let (at2, start2, end2) = choose|at: int, start: int, end: int|
            {
                &&& is_first_at(cells, point, at)
                &&& #[trigger] is_word_start(cells, at, start)
                &&& #[trigger] is_word_end(cells, at, end)
                &&& b == run_text(cells, start, end)
            };
        assert(cells[at1].is_at(point) && cells[at2].is_at(point));
        assert(at1 == at2);
        if start1 < start2 {
            assert(breaks_at(cells, start2));
        }
        if start2 < start1 {
            assert(breaks_at(cells, start1));
        }
        if end1 < end2 {
            assert(breaks_at(cells, end1));
        }
        if end2 < end1 {
            assert(breaks_at(cells, end2));
        }
    }
}

/// The cell of the grid at a point of the window.
pub open spec fn below_tab_bar(point: Point) -> Point {
    Point { line: Line((point.line.0 - 1) as usize), col: point.col }
}

/// The word under the mouse, from the cells that are shown; the tab bar takes the first line of
/// the window, so the cells count from one line further down.
pub fn find_word(cells: &Vec<RenderableCell>, point_p: Point) -> (r: String)
    requires
        point_p.line.0 >= 1,
        forall|i: int| 0 <= i < cells@.len() ==> (#[trigger] cells@[i]).column.0 < usize::MAX,
    ensures
        is_word_at(cells@, below_tab_bar(point_p), r@),
{
    let point = Point::new(Line(point_p.line.0 - 1), point_p.col);
    let mut found_point = false;
    let mut found_end = false;
    let mut string = String::new();
    let mut last_column: usize = 0;
    let mut i: usize = 0;
    let ghost mut start: int = 0;
    let ghost mut at: int = 0;
    while !found_end && i < cells.len()
        invariant
            i <= cells@.len(),
            forall|j: int| 0 <= j < cells@.len() ==> (#[trigger] cells@[j]).column.0 < usize::MAX,
            last_column == (if i == 0 {
                0
            } else {
                cells@[i - 1].column.0
            }),
            0 <= start,
            start < i || (i == 0 && start == 0),
            start == 0 || breaks_at(cells@, start),
            !found_point ==> forall|j: int| 0 <= j < i ==> !(#[trigger] cells@[j]).is_at(point),
            !found_end ==> forall|j: int| start < j < i ==> !#[trigger] breaks_at(cells@, j),
            !found_end && i > 0 ==> string@ == run_text(cells@, start, i as int),
            i == 0 ==> string@ == Seq::<char>::empty() && !found_point && !found_end,
            found_end ==> found_point,
            found_point ==> is_first_at(cells@, point, at) && at < i && is_word_start(
                cells@,
                at,
                start,
            ),
            found_end ==> i >= 1 && is_word_end(cells@, at, i - 1) && string@ == run_text(
                cells@,
                start,
                i - 1,
            ),
        decreases cells@.len() - i,
    {
        let cell = cells[i];
        let c: char = match cell.content {
            Some(c) => c,
            None => ' ',
        };
        let ghost old_text = string@;
        if last_column + 1 != cell.column.0 || c == ' ' {
            assert(breaks_at(cells@, i as int));
            if found_point {
                found_end = true;
            } else {
                string = String::new();
                if c != ' ' {
                    string.push(c);
                }
                proof {
                    start = i as int;
                }
                assert(string@ =~= run_text(cells@, start, i + 1));
            }
        } else {
            assert(!breaks_at(cells@, i as int));
            string.push(c);
            assert(string@ =~= run_text(cells@, start, i + 1));
        }
        if cell.column == point.col && cell.line == point.line {
            proof {
                if !found_point {
                    at = i as int;
                }
            }
            found_point = true;
        }
        last_column = cell.column.0;
        i += 1;
    }
    if found_point {
        proof {
            let end: int = if found_end {
                i - 1
            } else {
                i as int
            };
            assert(is_word_end(cells@, at, end));
            assert(is_word_start(cells@, at, start));
        }
        string
    } else {
        String::new()
    }
}

} // verus!
