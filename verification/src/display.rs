//! The display: a stack of at most three pages of at most five lines each. Only the top page
//! is drawn. A line shows a label and, on its right, a value: a number or an on/off box.
use vstd::prelude::*;
use vstd::string::{StringExecFns, StringSliceAdditionalSpecFns};
use crate::messages::{label_text, Label, Measurements, Value, LABEL_CAPACITY, MAX_NUM_MEASUREMENTS};

verus! {

/// The number of pages the display can stack.
pub const MAX_PAGES: usize = 3;

/// The number of lines on a page.
pub const MAX_LINES: usize = 5;

/// A line of a page.
#[derive(Debug)]
pub struct Line {
    pub text: Label,
    pub value: Value,
}

/// The lines of a page, held in a `heapless::Vec<Line, 5>`.
#[verifier::external_body]
#[derive(Debug)]
pub struct Lines {
    lines: heapless::Vec<Line, 5>,
}

/// The lines that a page holds, in order.
pub uninterp spec fn lines_of(lines: Lines) -> Seq<Line>;

impl Lines {
    /// `heapless::Vec::<Line, 5>::new`: no lines.
    #[verifier::external_body]
    fn new() -> (lines: Lines)
        ensures
            lines_of(lines) == Seq::<Line>::empty(),
    {
        Lines { lines: heapless::Vec::new() }
    }

    /// `heapless::Vec::<Line, 5>::push`: appends the line when fewer than five are held, and
    /// hands it back otherwise.
    #[verifier::external_body]
    fn push(&mut self, line: Line) -> (result: Result<(), Line>)
        ensures
            lines_of(*old(self)).len() < MAX_LINES ==> {
                &&& result is Ok
                &&& lines_of(*final(self)) == lines_of(*old(self)).push(line)
            },
            lines_of(*old(self)).len() >= MAX_LINES ==> {
                &&& result == Err::<(), Line>(line)
                &&& lines_of(*final(self)) == lines_of(*old(self))
            },
            lines_of(*final(self)).len() <= MAX_LINES,
    {
        self.lines.push(line)
    }

    /// `heapless::Vec::<Line, 5>::clear`: no lines left.
    #[verifier::external_body]
    fn clear(&mut self)
        ensures
            lines_of(*final(self)) == Seq::<Line>::empty(),
    {
        self.lines.clear()
    }

    /// `heapless::Vec::<Line, 5>::as_slice`: the lines, in order; never more than five.
    #[verifier::external_body]
    fn as_slice(&self) -> (lines: &[Line])
        ensures
            lines@ == lines_of(*self),
            lines@.len() <= MAX_LINES,
    {
        self.lines.as_slice()
    }
}

/// A page of the display.
#[derive(Debug)]
pub struct Page {
    pub lines: Lines,
}

/// The pages of the display, held in a `heapless::Vec<Page, 3>`.
#[verifier::external_body]
#[derive(Debug)]
pub struct Pages {
    pages: heapless::Vec<Page, 3>,
}

/// The pages that the display stacks, the top one last.
pub uninterp spec fn pages_of(pages: Pages) -> Seq<Page>;

impl Pages {
    /// `heapless::Vec::<Page, 3>::new`: no pages.
    #[verifier::external_body]
    fn new() -> (pages: Pages)
        ensures
            pages_of(pages) == Seq::<Page>::empty(),
    {
        Pages { pages: heapless::Vec::new() }
    }

    /// `heapless::Vec::<Page, 3>::push`: puts the page on top when fewer than three are
    /// stacked, and hands it back otherwise.
    #[verifier::external_body]
    fn push(&mut self, page: Page) -> (result: Result<(), Page>)
        ensures
            pages_of(*old(self)).len() < MAX_PAGES ==> {
                &&& result is Ok
                &&& pages_of(*final(self)) == pages_of(*old(self)).push(page)
            },
            pages_of(*old(self)).len() >= MAX_PAGES ==> {
                &&& result == Err::<(), Page>(page)
                &&& pages_of(*final(self)) == pages_of(*old(self))
            },
            pages_of(*final(self)).len() <= MAX_PAGES,
    {
        self.pages.push(page)
    }

    /// `heapless::Vec::<Page, 3>::pop`: takes the top page off, if there is one.
    #[verifier::external_body]
    fn pop(&mut self) -> (page: Option<Page>)
        ensures
            pages_of(*old(self)).len() > 0 ==> {
                &&& page == Some(pages_of(*old(self)).last())
                &&& pages_of(*final(self)) == pages_of(*old(self)).drop_last()
            },
            pages_of(*old(self)).len() == 0 ==> {
                &&& page is None
                &&& pages_of(*final(self)) == pages_of(*old(self))
            },
    {
        self.pages.pop()
    }

    /// `heapless::Vec::<Page, 3>::as_slice`: the pages, the top one last; never more than
    /// three.
    #[verifier::external_body]
    fn as_slice(&self) -> (pages: &[Page])
        ensures
            pages@ == pages_of(*self),
            pages@.len() <= MAX_PAGES,
    {
        self.pages.as_slice()
    }
}

/// What the device draws for a line.
#[derive(Debug, PartialEq, Eq)]
pub enum Drawing {
    /// The label of row `row`.
    Text { row: i32, text: Label },
    /// An on/off box on the right of row `row`.
    OffOn { row: i32, on: bool },
    /// A percentage on the right of row `row`.
    Number { row: i32, number: u8 },
}

/// What the device draws: it clears the display, draws the drawings, and then sends the
/// picture to the display if `refresh` is set.
#[derive(Debug, PartialEq, Eq)]
pub struct Frame {
    pub drawings: Vec<Drawing>,
    pub refresh: bool,
}

/// Whether a value only reads measured pins.
pub open spec fn value_measured(value: Value) -> bool {
    match value {
        Value::OffOn(pin) | Value::OnOff(pin) | Value::Analog(pin) => pin < MAX_NUM_MEASUREMENTS,
        _ => true,
    }
}

/// Whether every value on a page reads a measured pin.
pub open spec fn page_measured(lines: Seq<Line>) -> bool {
    forall|l: int| 0 <= l < lines.len() ==> value_measured(#[trigger] lines[l].value)
}

/// What a value draws on row `row`.
pub open spec fn value_drawings(row: i32, value: Value, measurements: Measurements) -> Seq<
    Drawing,
> {
    match value {
        Value::Blank => Seq::empty(),
        Value::OffOn(pin) => seq![Drawing::OffOn { row, on: measurements@[pin as int] != 0 }],
        Value::OnOff(pin) => seq![Drawing::OffOn { row, on: measurements@[pin as int] == 0 }],
        Value::Analog(pin) => seq![Drawing::Number { row, number: measurements@[pin as int] }],
        Value::Number(number) => seq![Drawing::Number { row, number }],
        Value::Boolean(on) => seq![Drawing::OffOn { row, on }],
    }
}

/// What the lines of a page draw, row by row.
pub open spec fn page_drawings(lines: Seq<Line>, measurements: Measurements) -> Seq<Drawing>
    decreases lines.len(),
{
    if lines.len() == 0 {
        Seq::empty()
    } else {
        let row = (lines.len() - 1) as i32;
        page_drawings(lines.drop_last(), measurements) + seq![
            Drawing::Text { row, text: lines.last().text },
        ] + value_drawings(row, lines.last().value, measurements)
    }
}

/// The display: a stack of pages.
pub struct Screen {
    pub pages: Pages,
}

impl Screen {
    /// The pages, the top one last, each as its lines.
    pub open spec fn view(self) -> Seq<Seq<Line>> {
        pages_of(self.pages).map_values(|page: Page| lines_of(page.lines))
    }

    /// The display's invariant: at most three pages of at most five lines.
    pub open spec fn wf(self) -> bool {
        &&& self.view().len() <= MAX_PAGES
        &&& forall|p: int| 0 <= p < self.view().len() ==> (#[trigger] self.view()[p]).len() <= MAX_LINES
    }

    /// Whether the top page can be drawn: every value on it reads a measured pin.
    pub open spec fn drawable(self) -> bool {
        self.view().len() > 0 ==> page_measured(self.view().last())
    }

    /// A display with one empty page.
    pub fn new() -> (screen: Screen)
        ensures
            screen.view() == seq![Seq::<Line>::empty()],
            screen.wf(),
    {
        let mut screen = Screen { pages: Pages::new() };
        screen.push_page();
        assert(screen.view() =~= seq![Seq::<Line>::empty()]);
        screen
    }

    /// Puts an empty page on top, unless three pages are stacked.
    pub fn push_page(&mut self)
        requires
            old(self).wf(),
        ensures
            final(self).wf(),
            old(self).view().len() < MAX_PAGES ==> final(self).view() == old(self).view().push(
                Seq::<Line>::empty(),
            ),
            old(self).view().len() >= MAX_PAGES ==> final(self).view() == old(self).view(),
    {
        let page = Page { lines: Lines::new() };
        let _ = self.pages.push(page);
        assert(self.view() =~= if old(self).view().len() < MAX_PAGES {
            old(self).view().push(Seq::<Line>::empty())
        } else {
            old(self).view()
        });
    }

    /// Takes the top page off, if there is one.
    pub fn pop_page(&mut self)
        requires
            old(self).wf(),
        ensures
            final(self).wf(),
            final(self).view() == (if old(self).view().len() > 0 {
                old(self).view().drop_last()
            } else {
                old(self).view()
            }),
    {
        let _ = self.pages.pop();
        assert(self.view() =~= if old(self).view().len() > 0 {
            old(self).view().drop_last()
        } else {
            old(self).view()
        });
    }

    /// Adds a line at the bottom of the top page, unless it holds five lines or there is no
    /// page.
    pub fn add_line(&mut self, text: Label, value: Value)
        requires
            old(self).wf(),
        ensures
            final(self).wf(),
            old(self).view().len() > 0 && old(self).view().last().len() < MAX_LINES
                ==> final(self).view() == old(self).view().drop_last().push(
                old(self).view().last().push(Line { text, value }),
            ),
            !(old(self).view().len() > 0 && old(self).view().last().len() < MAX_LINES)
                ==> final(self).view() == old(self).view(),
    {
        let ghost before = self.view();
        let ghost line = Line { text, value };
        let ghost pages_before = pages_of(self.pages);
        match self.pages.pop() {
            None => {
                assert(self.view() =~= before);
            },
            Some(page) => {
                let mut page = page;
                let ghost lines_before = lines_of(page.lines);
                assert(lines_before == before.last());
                let _ = page.lines.push(Line { text, value });
                let ghost popped = pages_of(self.pages);
                let _ = self.pages.push(page);
                assert(pages_of(self.pages) == popped.push(page));
                assert(popped == pages_before.drop_last());
                proof {
                    if before.last().len() < MAX_LINES {
                        assert(lines_of(page.lines) == before.last().push(line));
                        assert(self.view() =~= before.drop_last().push(before.last().push(line)));
                    } else {
                        assert(lines_of(page.lines) == before.last());
                        assert(self.view() =~= before);
                    }
                }
            },
        }
    }

    /// Adds a line with a text label, unless the label is longer than sixteen bytes.
    pub fn add_text(&mut self, text: &str, value: Value)
        requires
            old(self).wf(),
        ensures
            final(self).wf(),
            text.spec_bytes().len() > LABEL_CAPACITY ==> final(self).view() == old(self).view(),
            !(old(self).view().len() > 0 && old(self).view().last().len() < MAX_LINES)
                ==> final(self).view() == old(self).view(),
            text.spec_bytes().len() <= LABEL_CAPACITY && old(self).view().len() > 0 && old(
                self,
            ).view().last().len() < MAX_LINES ==> {
                &&& final(self).view().len() == old(self).view().len()
                &&& final(self).view().drop_last() == old(self).view().drop_last()
                &&& final(self).view().last().drop_last() == old(self).view().last()
                &&& label_text(final(self).view().last().last().text) == text@
                &&& final(self).view().last().last().value == value
            },
    {
        if let Ok(label) = Label::try_from_str(text) {
            self.add_line(label, value);
            proof {
                let v = self.view();
                if text.spec_bytes().len() <= LABEL_CAPACITY && old(self).view().len() > 0 && old(
                    self,
                ).view().last().len() < MAX_LINES {
                    assert(v.last().drop_last() =~= old(self).view().last());
                }
            }
        }
    }

    /// Removes the lines of the top page.
    pub fn clear(&mut self)
        requires
            old(self).wf(),
        ensures
            final(self).wf(),
            old(self).view().len() > 0 ==> final(self).view() == old(self).view().drop_last().push(
                Seq::<Line>::empty(),
            ),
            old(self).view().len() == 0 ==> final(self).view() == old(self).view(),
    {
        let ghost before = self.view();
        let ghost pages_before = pages_of(self.pages);
        match self.pages.pop() {
            None => {
                assert(self.view() =~= before);
            },
            Some(page) => {
                let mut page = page;
                page.lines.clear();
                let ghost popped = pages_of(self.pages);
                let _ = self.pages.push(page);
                assert(pages_of(self.pages) == popped.push(page));
                assert(popped == pages_before.drop_last());
                assert(self.view() =~= before.drop_last().push(Seq::<Line>::empty()));
            },
        }
    }

    /// What the top page draws on the measurements. With no page, the display is cleared and
    /// not refreshed.
    pub fn draw(&self, measurements: &Measurements) -> (frame: Frame)
        requires
            self.wf(),
            self.drawable(),
        ensures
            self.view().len() == 0 ==> frame.drawings@ == Seq::<Drawing>::empty() && !frame.refresh,
            self.view().len() > 0 ==> frame.drawings@ == page_drawings(
                self.view().last(),
                *measurements,
            ) && frame.refresh,
    {
        let pages = self.pages.as_slice();
        let mut drawings: Vec<Drawing> = Vec::new();
        if pages.len() == 0 {
            return Frame { drawings, refresh: false };
        }
        let page = &pages[pages.len() - 1];
        let lines = page.lines.as_slice();
        let ghost top = self.view().last();
        assert(lines@ == top);
        let mut row: usize = 0;
        while row < lines.len()
            invariant
                lines@ == top,
                lines@.len() <= MAX_LINES,
                0 <= row <= lines@.len(),
                forall|l: int| 0 <= l < lines@.len() ==> value_measured(#[trigger] lines@[l].value),
                drawings@ == page_drawings(lines@.take(row as int), *measurements),
            decreases lines.len() - row,
        {
            assert(lines@.take(row + 1).drop_last() =~= lines@.take(row as int));
            let line = &lines[row];
            let r = row as i32;
            drawings.push(Drawing::Text { row: r, text: line.text.clone() });
            assert(value_measured(line.value));
            match line.value {
                Value::Blank => {},
                Value::OffOn(pin) => {
                    drawings.push(Drawing::OffOn { row: r, on: measurements[pin as usize] != 0 });
                },
                Value::OnOff(pin) => {
                    drawings.push(Drawing::OffOn { row: r, on: measurements[pin as usize] == 0 });
                },
                Value::Analog(pin) => {
                    drawings.push(Drawing::Number { row: r, number: measurements[pin as usize] });
                },
                Value::Number(number) => {
                    drawings.push(Drawing::Number { row: r, number });
                },
                Value::Boolean(on) => {
                    drawings.push(Drawing::OffOn { row: r, on });
                },
            }
            assert(drawings@ =~= page_drawings(lines@.take(row + 1), *measurements));
            row = row + 1;
        }
        assert(lines@.take(lines@.len() as int) =~= lines@);
        Frame { drawings, refresh: true }
    }
}

/// What the display task receives.
#[derive(Debug)]
pub enum Request {
    Measurements { measurements: Measurements },
    Clear,
    AddLine { label: Label, value: Value },
    Refresh,
    AddPage,
    RemovePage,
}

/// The pages after a request: the model of the display's stack.
pub open spec fn pages_after(pages: Seq<Seq<Line>>, request: Request) -> Seq<Seq<Line>> {
    match request {
        Request::Clear => if pages.len() > 0 {
            pages.drop_last().push(Seq::empty())
        } else {
            pages
        },
        Request::AddLine { label, value } => if pages.len() > 0 && pages.last().len() < MAX_LINES {
            pages.drop_last().push(pages.last().push(Line { text: label, value }))
        } else {
            pages
        },
        Request::AddPage => if pages.len() < MAX_PAGES {
            pages.push(Seq::empty())
        } else {
            pages
        },
        Request::RemovePage => if pages.len() > 0 {
            pages.drop_last()
        } else {
            pages
        },
        _ => pages,
    }
}

/// The display task: the screen and the last measurements it was told of.
pub struct DisplayTask {
    pub screen: Screen,
    pub measurements: Measurements,
}

impl DisplayTask {
    /// The task's invariant: the screen's invariant.
    pub open spec fn wf(self) -> bool {
        self.screen.wf()
    }

    /// Whether the top page can be drawn: a redraw reads the measurement of each pin that a
    /// value on the top page names, and faults on a pin past the measurements.
    pub fn can_draw(&self) -> (drawable: bool)
        requires
            self.wf(),
        ensures
            drawable == self.screen.drawable(),
    {
        let pages = self.screen.pages.as_slice();
        if pages.len() == 0 {
            return true;
        }
        let lines = pages[pages.len() - 1].lines.as_slice();
        let mut row: usize = 0;
        while row < lines.len()
            invariant
                lines@ == self.screen.view().last(),
                self.screen.view().len() > 0,
                0 <= row <= lines@.len(),
                forall|l: int| 0 <= l < row ==> value_measured(#[trigger] lines@[l].value),
            decreases lines.len() - row,
        {
            let measured = match lines[row].value {
                Value::OffOn(pin) | Value::OnOff(pin) | Value::Analog(pin) => (pin as usize)
                    < MAX_NUM_MEASUREMENTS,
                _ => true,
            };
            if !measured {
                return false;
            }
            row = row + 1;
        }
        true
    }

    /// A display with one empty page and no measurements.
    pub fn new() -> (task: DisplayTask)
        ensures
            task.wf(),
            task.screen.view() == seq![Seq::<Line>::empty()],
            forall|i: int| 0 <= i < MAX_NUM_MEASUREMENTS ==> task.measurements@[i] == 0,
    {
        DisplayTask { screen: Screen::new(), measurements: [0u8; 32] }
    }

    /// Handles a request. New measurements and refresh requests redraw the top page: the
    /// frame to draw is returned. A line may name any pin; only drawing it needs the pin to
    /// be measured.
    pub fn handle(&mut self, request: Request) -> (frame: Option<Frame>)
        requires
            old(self).wf(),
            request is Measurements || request is Refresh ==> old(self).screen.drawable(),
        ensures
            final(self).wf(),
            final(self).screen.view() == pages_after(old(self).screen.view(), request),
            final(self).measurements == (match request {
                Request::Measurements { measurements } => measurements,
                _ => old(self).measurements,
            }),
            (request is Measurements || request is Refresh) <==> frame is Some,
            frame matches Some(frame) ==> {
                &&& final(self).screen.view().len() == 0 ==> frame.drawings@ == Seq::<
                    Drawing,
                >::empty() && !frame.refresh
                &&& final(self).screen.view().len() > 0 ==> frame.drawings@ == page_drawings(
                    final(self).screen.view().last(),
                    final(self).measurements,
                ) && frame.refresh
            },
    {
        match request {
            Request::Measurements { measurements } => {
                self.measurements = measurements;
                Some(self.screen.draw(&self.measurements))
            },
            Request::Clear => {
                self.screen.clear();
                None
            },
            Request::AddLine { label, value } => {
                self.screen.add_line(label, value);
                None
            },
            Request::Refresh => Some(self.screen.draw(&self.measurements)),
            Request::AddPage => {
                self.screen.push_page();
                None
            },
            Request::RemovePage => {
                self.screen.pop_page();
                None
            },
        }
    }
}

/// Adding a page and removing it again leaves the display as it was, unless three pages were
/// stacked: then the page is not added and the top page is removed.
pub proof fn lemma_add_then_remove_page(pages: Seq<Seq<Line>>)
    requires
        pages.len() < MAX_PAGES,
    ensures
        pages_after(pages_after(pages, Request::AddPage), Request::RemovePage) == pages,
{
    assert(pages.push(Seq::empty()).drop_last() =~= pages);
}

/// A page holds at most five lines: adding a line to a full page changes nothing.
pub proof fn lemma_full_page_ignores_lines(pages: Seq<Seq<Line>>, label: Label, value: Value)
    requires
        pages.len() > 0,
        pages.last().len() >= MAX_LINES,
    ensures
        pages_after(pages, Request::AddLine { label, value }) == pages,
{
}

/// Only the top page changes when lines are added or cleared; the pages beneath keep their
/// lines.
pub proof fn lemma_lower_pages_untouched(pages: Seq<Seq<Line>>, request: Request)
    requires
        pages.len() > 0,
        request is Clear || request is AddLine,
    ensures
        pages_after(pages, request).len() == pages.len(),
        pages_after(pages, request).drop_last() == pages.drop_last(),
{
    assert(pages_after(pages, request).drop_last() =~= pages.drop_last());
}

/// Redrawing draws exactly the top page: the label of each of its lines on its own row, in
/// order, followed by what the line's value shows.
pub proof fn lemma_drawing_rows(lines: Seq<Line>, measurements: Measurements, k: int)
    requires
        0 <= k < lines.len(),
        lines.len() <= MAX_LINES,
    ensures
        page_drawings(lines.take(k + 1), measurements) == page_drawings(lines.take(k), measurements)
            + seq![Drawing::Text { row: k as i32, text: lines[k].text }] + value_drawings(
            k as i32,
            lines[k].value,
            measurements,
        ),
{
    assert(lines.take(k + 1).drop_last() =~= lines.take(k));
}

/// Each line of the top page draws, after the lines above it, its label on its own row and
/// then what its value shows: an `OffOn` line shows "on" exactly when its pin reads non-zero,
/// an `OnOff` line exactly when its pin reads zero, an `Analog` line the pin's measurement as
/// a percentage, a `Number` line the number, a `Boolean` line its flag, and a `Blank` line
/// nothing.
pub proof fn lemma_lines_draw_their_values(lines: Seq<Line>, measurements: Measurements, k: int)
    requires
        0 <= k < lines.len(),
        lines.len() <= MAX_LINES,
    ensures
        ({
            let row = k as i32;
            let before = page_drawings(lines.take(k), measurements);
            let label = seq![Drawing::Text { row, text: lines[k].text }];
            let after = page_drawings(lines.take(k + 1), measurements);
            match lines[k].value {
                Value::Blank => after == before + label,
                Value::OffOn(pin) => after == before + label + seq![
                    Drawing::OffOn { row, on: measurements@[pin as int] != 0 },
                ],
                Value::OnOff(pin) => after == before + label + seq![
                    Drawing::OffOn { row, on: measurements@[pin as int] == 0 },
                ],
                Value::Analog(pin) => after == before + label + seq![
                    Drawing::Number { row, number: measurements@[pin as int] },
                ],
                Value::Number(number) => after == before + label + seq![
                    Drawing::Number { row, number },
                ],
                Value::Boolean(on) => after == before + label + seq![Drawing::OffOn { row, on }],
            }
        }),
        page_drawings(lines.take(lines.len() as int), measurements) == page_drawings(
            lines,
            measurements,
        ),
{
    assert(lines.take(k + 1).drop_last() =~= lines.take(k));
    assert(lines.take(lines.len() as int) =~= lines);
    let before = page_drawings(lines.take(k), measurements);
    let label = seq![Drawing::Text { row: k as i32, text: lines[k].text }];
    if lines[k].value is Blank {
        assert(before + label + Seq::<Drawing>::empty() =~= before + label);
    }
}

/// What each request does to the stack of pages: clearing empties the top page; a line goes
/// at the bottom of the top page while it holds fewer than five lines; a page goes on top
/// while fewer than three are stacked; removing takes the top page off. New measurements and
/// redraws leave the pages alone, and nothing ever stacks more than three pages or puts more
/// than five lines on a page.
pub proof fn lemma_requests_on_pages(pages: Seq<Seq<Line>>, request: Request)
    requires
        pages.len() <= MAX_PAGES,
        forall|p: int| 0 <= p < pages.len() ==> (#[trigger] pages[p]).len() <= MAX_LINES,
    ensures
        ({
            let after = pages_after(pages, request);
            let n = pages.len() as int;
            &&& after.len() <= MAX_PAGES
            &&& forall|p: int| 0 <= p < after.len() ==> (#[trigger] after[p]).len() <= MAX_LINES
            &&& request is Measurements || request is Refresh ==> after == pages
            &&& request is Clear && n > 0 ==> after.len() == n && after[n - 1].len() == 0
                && forall|p: int| 0 <= p < n - 1 ==> #[trigger] after[p] == pages[p]
            &&& match request {
                Request::AddLine { label, value } => n > 0 && pages[n - 1].len() < MAX_LINES ==> {
                    &&& after.len() == n
                    &&& after[n - 1].len() == pages[n - 1].len() + 1
                    &&& after[n - 1][pages[n - 1].len() as int] == (Line { text: label, value })
                    &&& forall|l: int| 0 <= l < pages[n - 1].len() ==> #[trigger] after[n - 1][l]
                        == pages[n - 1][l]
                    &&& forall|p: int| 0 <= p < n - 1 ==> #[trigger] after[p] == pages[p]
                },
                _ => true,
            }
            &&& request is AddPage && n < MAX_PAGES ==> after.len() == n + 1 && after[n].len() == 0
                && forall|p: int| 0 <= p < n ==> #[trigger] after[p] == pages[p]
            &&& request is AddPage && n >= MAX_PAGES ==> after == pages
            &&& request is RemovePage && n > 0 ==> after.len() == n - 1 && forall|p: int|
                0 <= p < n - 1 ==> #[trigger] after[p] == pages[p]
            &&& request is RemovePage && n == 0 ==> after == pages
        }),
{
}

/// How a text is drawn: plain, inverted for "on", or plain for "off".
#[derive(Debug, PartialEq, Eq, Structural, Clone, Copy)]
pub enum TextStyle {
    Plain,
    On,
    Off,
}

/// How a box is drawn: outlined, or filled.
#[derive(Debug, PartialEq, Eq, Structural, Clone, Copy)]
pub enum BoxStyle {
    Empty,
    Full,
}

/// A shape that the device draws, in pixels of a 128 by 64 display; a text's position is
/// that of its baseline.
#[derive(Debug, PartialEq, Eq)]
pub enum Shape {
    Rectangle { x: i32, y: i32, width: u32, height: u32, style: BoxStyle },
    Text { text: String, x: i32, y: i32, style: TextStyle },
    Label { label: Label, x: i32, y: i32 },
}

/// The column where values are drawn.
pub const VALUE_COLUMN: i32 = 100;

/// The height of a row, in pixels.
pub const ROW_HEIGHT: i32 = 12;

/// The rows whose pixel positions fit in 32 bits.
pub open spec fn row_defined(row: i32) -> bool {
    i32::MIN <= 12 * row && 12 * (row + 1) <= i32::MAX
}

/// The character of a decimal digit.
pub open spec fn digit_char(digit: int) -> char {
    ('0' as int + digit) as char
}

/// A number as `{:3}%` writes it: its decimal digits, right-aligned in three columns, then a
/// percent sign.
pub open spec fn percent_text(number: u8) -> Seq<char> {
    let hundreds = number / 100;
    let tens = (number / 10) % 10;
    let ones = number % 10;
    if number >= 100 {
        seq![digit_char(hundreds as int), digit_char(tens as int), digit_char(ones as int), '%']
    } else if number >= 10 {
        seq![' ', digit_char(tens as int), digit_char(ones as int), '%']
    } else {
        seq![' ', ' ', digit_char(ones as int), '%']
    }
}

fn digit_text(digit: u8) -> (text: &'static str)
    requires
        digit < 10,
    ensures
        text@ == seq![digit_char(digit as int)],
{
    proof {
        reveal_strlit("0");
        reveal_strlit("1");
        reveal_strlit("2");
        reveal_strlit("3");
        reveal_strlit("4");
        reveal_strlit("5");
        reveal_strlit("6");
        reveal_strlit("7");
        reveal_strlit("8");
        reveal_strlit("9");
    }
    let text = match digit {
        0 => "0",
        1 => "1",
        2 => "2",
        3 => "3",
        4 => "4",
        5 => "5",
        6 => "6",
        7 => "7",
        8 => "8",
        _ => "9",
    };
    assert(text@ =~= seq![digit_char(digit as int)]);
    text
}

/// Writes a number as `{:3}%` does.
pub fn format_percent(number: u8) -> (text: String)
    ensures
        text@ == percent_text(number),
{
    proof {
        reveal_strlit(" ");
        reveal_strlit("%");
    }
    let mut text = String::new();
    if number >= 100 {
        text.append(digit_text(number / 100));
    } else {
        text.append(" ");
    }
    if number >= 10 {
        text.append(digit_text((number / 10) % 10));
    } else {
        text.append(" ");
    }
    text.append(digit_text(number % 10));
    text.append("%");
    assert(text@ =~= percent_text(number));
    text
}

/// The shapes that draw a drawing: a label at the left of its row; an on/off box, filled and
/// inverted when on, or a right-aligned percentage at the value column.
pub open spec fn shapes_of(drawing: Drawing, shapes: Seq<Shape>) -> bool {
    match drawing {
        Drawing::Text { row, text } => shapes == seq![
            Shape::Label { label: text, x: 0, y: (12 * (row + 1)) as i32 },
        ],
        Drawing::OffOn { row, on } => {
            &&& shapes.len() == 2
            &&& shapes[0] == Shape::Rectangle {
                x: 100,
                y: (12 * row + 4) as i32,
                width: 23,
                height: 11,
                style: if on {
                    BoxStyle::Full
                } else {
                    BoxStyle::Empty
                },
            }
            &&& shapes[1] matches Shape::Text { text, x, y, style } && x == (if on {
                106i32
            } else {
                103i32
            }) && y == 12 * (row + 1) && style == (if on {
                TextStyle::On
            } else {
                TextStyle::Off
            }) && text@ == (if on {
                "on"@
            } else {
                "off"@
            })
        },
        Drawing::Number { row, number } => {
            &&& shapes.len() == 1
            &&& shapes[0] matches Shape::Text { text, x, y, style } && x == 100 && y == 12 * (row
                + 1) && style == TextStyle::Plain && text@ == percent_text(number)
        },
    }
}

/// The row of a drawing.
pub open spec fn row_of(drawing: Drawing) -> i32 {
    match drawing {
        Drawing::Text { row, .. } | Drawing::OffOn { row, .. } | Drawing::Number { row, .. } => row,
    }
}

/// The shapes with which the device draws a drawing.
pub fn layout(drawing: Drawing) -> (shapes: Vec<Shape>)
    requires
        row_defined(row_of(drawing)),
    ensures
        shapes_of(drawing, shapes@),
{
    let mut shapes: Vec<Shape> = Vec::new();
    match drawing {
        Drawing::Text { row, text } => {
            shapes.push(Shape::Label { label: text, x: 0, y: ROW_HEIGHT * (row + 1) });
        },
        Drawing::OffOn { row, on } => {
            let (text, offset, text_style, box_style) = if on {
                ("on", 6, TextStyle::On, BoxStyle::Full)
            } else {
                ("off", 3, TextStyle::Off, BoxStyle::Empty)
            };
            shapes.push(
                Shape::Rectangle {
                    x: VALUE_COLUMN,
                    y: ROW_HEIGHT * row + 4,
                    width: 23,
                    height: 11,
                    style: box_style,
                },
            );
            shapes.push(
                Shape::Text {
                    text: String::from_str(text),
                    x: VALUE_COLUMN + offset,
                    y: ROW_HEIGHT * (row + 1),
                    style: text_style,
                },
            );
        },
        Drawing::Number { row, number } => {
            shapes.push(
                Shape::Text {
                    text: format_percent(number),
                    x: VALUE_COLUMN,
                    y: ROW_HEIGHT * (row + 1),
                    style: TextStyle::Plain,
                },
            );
        },
    }
    shapes
}

} // verus!
