//! The renderer's decisions: where to put the cursor, what to print and how
//! many rows the unfinished line takes, for each fragment of a reply.

use crate::utils::abort_signal::{state_after, AbortRequest, AbortSignal};
use crate::utils::text::{
    has_newline, lemma_line_split, line_head, line_tail, lines_of, split_line_tail, split_lines,
    views_of,
};
use crate::utils::width::{display_width, display_width_of};
use vstd::prelude::*;

verus! {

/// One instruction for the terminal.
#[derive(Debug, Clone, PartialEq, Eq)]
pub enum TermAction {
    /// Put the cursor at a column and a row.
    MoveTo(u16, u16),
    /// Scroll the viewport up by a number of rows.
    ScrollUp(u16),
    /// Clear from the cursor to the end of its line.
    ClearUntilNewLine,
    /// Write text at the cursor.
    Print(String),
    /// Move the cursor left by a number of columns.
    MoveLeft(u16),
    /// Hand everything queued so far to the terminal.
    Flush,
}

/// A terminal instruction with its text as a sequence of characters.
pub enum TermActionView {
    MoveTo(u16, u16),
    ScrollUp(u16),
    ClearUntilNewLine,
    Print(Seq<char>),
    MoveLeft(u16),
    Flush,
}

impl View for TermAction {
    type V = TermActionView;

    open spec fn view(&self) -> TermActionView {
        match self {
            TermAction::MoveTo(col, row) => TermActionView::MoveTo(*col, *row),
            TermAction::ScrollUp(rows) => TermActionView::ScrollUp(*rows),
            TermAction::ClearUntilNewLine => TermActionView::ClearUntilNewLine,
            TermAction::Print(text) => TermActionView::Print(text@),
            TermAction::MoveLeft(columns) => TermActionView::MoveLeft(*columns),
            TermAction::Flush => TermActionView::Flush,
        }
    }
}

/// The views of a sequence of terminal instructions, in order.
pub open spec fn actions_of(actions: Seq<TermAction>) -> Seq<TermActionView> {
    actions.map_values(|a: TermAction| a@)
}

/// Rows that text of the given display width takes on a terminal of
/// `columns` columns: the width divided by the columns, rounded up, and never
/// less than one.
pub open spec fn rows_needed(width: nat, columns: nat) -> nat
    recommends
        columns > 0,
{
    if width == 0 {
        1
    } else {
        ((width + columns - 1) / (columns as int)) as nat
    }
}

/// A row count as the renderer keeps it: no terminal has more than 65535
/// rows, so a larger count is held as 65535.
pub open spec fn capped_rows(rows: nat) -> u16 {
    if rows >= 0xffff {
        0xffffu16
    } else {
        rows as u16
    }
}

/// The instructions that print a block: for each line the line itself, a line
/// feed, and the cursor's return to the first column.
pub open spec fn block_actions(lines: Seq<Seq<char>>, columns: u16) -> Seq<TermActionView> {
    Seq::new(
        3 * lines.len(),
        |i: int|
            if i % 3 == 0 {
                TermActionView::Print(lines[i / 3])
            } else if i % 3 == 1 {
                TermActionView::Print(seq!['\n'])
            } else {
                TermActionView::MoveLeft(columns)
            },
    )
}

/// The cursor row to work from. Some terminals report the row below when a
/// line has filled the last column exactly: with the cursor in the first
/// column, below the top row, and a pending line as wide as the terminal,
/// the row above is meant.
pub open spec fn corrected_row(col: u16, row: u16, buffer_width: nat, columns: u16) -> u16 {
    if col == 0 && row > 0 && buffer_width == columns as nat {
        (row - 1) as u16
    } else {
        row
    }
}

/// The instructions that take the cursor to the first row of the pending
/// line and clear it. When that row lies above the top of the screen, the
/// viewport is scrolled up by what is missing and the cursor goes to the
/// origin.
pub open spec fn reposition_actions(row: u16, rows: u16) -> Seq<TermActionView> {
    if row + 1 >= rows {
        seq![
            TermActionView::MoveTo(0, (row + 1 - rows) as u16),
            TermActionView::ClearUntilNewLine,
        ]
    } else {
        seq![
            TermActionView::ScrollUp((rows - row - 1) as u16),
            TermActionView::MoveTo(0, 0),
            TermActionView::ClearUntilNewLine,
        ]
    }
}

/// Appends one instruction to the queue.
fn emit(out: &mut Vec<TermAction>, action: TermAction)
    ensures
        actions_of(final(out)@) == actions_of(old(out)@).push(action@),
{
    out.push(action);
    assert(actions_of(out@) =~= actions_of(old(out)@).push(action@));
}

/// Rows that the text takes on a terminal of `columns` columns.
pub fn need_rows(text: &str, columns: u16) -> (rows: usize)
    requires
        columns > 0,
    ensures
        rows == rows_needed(display_width_of(text@), columns as nat),
        rows >= 1,
{
    rows_for_width(display_width(text), columns)
}

/// Rows that text of the given display width takes on a terminal of
/// `columns` columns.
pub fn rows_for_width(width: usize, columns: u16) -> (rows: usize)
    requires
        columns > 0,
    ensures
        rows == rows_needed(width as nat, columns as nat),
        rows >= 1,
{
    if width == 0 {
        1
    } else {
        proof {
            vstd::arithmetic::div_mod::lemma_div_plus_one(width - 1, columns as int);
            vstd::arithmetic::div_mod::lemma_div_pos_is_pos(width - 1, columns as int);
        }
        (width - 1) / (columns as usize) + 1
    }
}

/// The cursor row to work from, given where the terminal reports the cursor
/// and the display width of the pending line.
pub fn correct_row(col: u16, row: u16, buffer_width: usize, columns: u16) -> (corrected: u16)
    ensures
        corrected == corrected_row(col, row, buffer_width as nat, columns),
{
    if col == 0 && row > 0 && buffer_width == columns as usize {
        row - 1
    } else {
        row
    }
}

/// Queues the instructions that take the cursor to the first row of a
/// pending line of `rows` rows that ends in row `row`, and clear it.
pub fn reposition(out: &mut Vec<TermAction>, row: u16, rows: u16)
    ensures
        actions_of(final(out)@) == actions_of(old(out)@) + reposition_actions(row, rows),
{
    let ghost queued = actions_of(out@);
    if row as u32 + 1 >= rows as u32 {
        emit(out, TermAction::MoveTo(0, (row as u32 + 1 - rows as u32) as u16));
    } else {
        emit(out, TermAction::ScrollUp(rows - row - 1));
        emit(out, TermAction::MoveTo(0, 0));
    }
    emit(out, TermAction::ClearUntilNewLine);
    assert(actions_of(out@) =~= queued + reposition_actions(row, rows));
}

/// Queues the instructions that print `text` as a block of finished lines,
/// and returns the number of lines.
pub fn print_block(out: &mut Vec<TermAction>, text: &str, columns: u16) -> (count: usize)
    ensures
        actions_of(final(out)@) == actions_of(old(out)@) + block_actions(lines_of(text@), columns),
        count == lines_of(text@).len(),
{
    let lines = split_lines(text);
    let count = lines.len();
    let ghost all = lines_of(text@);
    let mut i: usize = 0;
    while i < count
        invariant
            i <= count,
            count == lines.len(),
            views_of(lines@) == all,
            actions_of(out@) == actions_of(old(out)@) + block_actions(all.take(i as int), columns),
        decreases count - i,
    {
        emit(out, TermAction::Print(lines[i].clone()));
        emit(out, TermAction::Print("\n".to_owned()));
        emit(out, TermAction::MoveLeft(columns));
        proof {
            reveal_strlit("\n");
            assert("\n"@ =~= seq!['\n']);
            assert(all[i as int] == lines@[i as int]@);
            assert(actions_of(out@) =~= actions_of(old(out)@) + block_actions(
                all.take(i + 1),
                columns,
            ));
        }
        i = i + 1;
    }
    proof {
        assert(all.take(count as int) =~= all);
    }
    count
}

/// Which service of the markdown formatter a fragment calls for.
#[derive(Debug, Clone, Copy, PartialEq, Eq, Structural)]
pub enum RenderKind {
    /// Finished lines, to be formatted as a block.
    Block,
    /// The unfinished last line, to be formatted on its own.
    Line,
}

/// What the renderer asks of the markdown formatter for one fragment.
#[derive(Debug, Clone, PartialEq, Eq)]
pub struct RenderRequest {
    pub kind: RenderKind,
    pub source: String,
}

/// The renderer's state between fragments.
#[derive(Debug, Clone, PartialEq, Eq)]
pub struct RenderState {
    buffer: String,
    buffer_rows: u16,
    columns: u16,
}

/// The renderer's state as plain values.
pub struct RenderStateView {
    /// The pending line: text received and not yet finished by a line feed.
    pub buffer: Seq<char>,
    /// Terminal rows that the pending line takes as it was last drawn.
    pub rows: u16,
    /// Columns of the terminal.
    pub columns: u16,
}

impl View for RenderState {
    type V = RenderStateView;

    closed spec fn view(&self) -> RenderStateView {
        RenderStateView { buffer: self.buffer@, rows: self.buffer_rows, columns: self.columns }
    }
}

/// The row count after the formatter's output for a fragment was drawn. A
/// block leaves the pending line below it; a formatted line that broke into
/// several keeps all of them as rows of the pending line.
pub open spec fn rows_after(
    kind: RenderKind,
    buffer: Seq<char>,
    output: Seq<char>,
    columns: u16,
) -> u16 {
    match kind {
        RenderKind::Block => capped_rows(rows_needed(display_width_of(buffer), columns as nat)),
        RenderKind::Line => if output.contains('\n') {
            capped_rows(
                lines_of(line_head(output)).len() + rows_needed(
                    display_width_of(line_tail(output)),
                    columns as nat,
                ),
            )
        } else {
            capped_rows(rows_needed(display_width_of(output), columns as nat))
        },
    }
}

/// The instructions that draw the formatter's output for a fragment: a block
/// and the pending line verbatim below it, or the formatted pending line, in
/// place when it is one line, as a block and a last line when it broke.
pub open spec fn output_actions(
    kind: RenderKind,
    buffer: Seq<char>,
    output: Seq<char>,
    columns: u16,
) -> Seq<TermActionView> {
    match kind {
        RenderKind::Block => block_actions(lines_of(output), columns) + seq![
            TermActionView::Print(buffer),
            TermActionView::Flush,
        ],
        RenderKind::Line => if output.contains('\n') {
            block_actions(lines_of(line_head(output)), columns) + seq![
                TermActionView::Print(line_tail(output)),
                TermActionView::Flush,
            ]
        } else {
            seq![TermActionView::Print(output), TermActionView::Flush]
        },
    }
}

/// The instructions that close a reply: the line terminator, twice on
/// Windows, and a flush.
pub open spec fn closing_actions(windows: bool) -> Seq<TermActionView> {
    seq![
        TermActionView::Print(
            if windows {
                seq!['\n', '\n']
            } else {
                seq!['\n']
            },
        ),
        TermActionView::Flush,
    ]
}

/// A row count held to what the renderer keeps.
pub fn cap_rows(rows: usize) -> (capped: u16)
    ensures
        capped == capped_rows(rows as nat),
{
    if rows >= 0xffff {
        0xffff
    } else {
        rows as u16
    }
}

/// The rows of a block's lines and of the line below it together, held to
/// what the renderer keeps.
pub fn rows_with_block(lines: usize, tail_rows: usize) -> (rows: u16)
    ensures
        rows == capped_rows((lines + tail_rows) as nat),
{
    if lines >= 0xffff || tail_rows >= 0xffff {
        0xffff
    } else {
        cap_rows(lines + tail_rows)
    }
}

impl RenderState {
    /// Whether the state is one that the renderer can be in: the terminal has
    /// a column, the pending line takes a row, and it holds no line feed.
    pub open spec fn wf(&self) -> bool {
        &&& self@.columns > 0
        &&& self@.rows >= 1
        &&& !self@.buffer.contains('\n')
    }

    /// The state before the first fragment: nothing pending, one row.
    pub fn new(columns: u16) -> (state: Self)
        requires
            columns > 0,
        ensures
            state.wf(),
            state@.buffer == Seq::<char>::empty(),
            state@.rows == 1,
            state@.columns == columns,
    {
        let state = RenderState { buffer: String::new(), buffer_rows: 1, columns };
        assert(!state@.buffer.contains('\n'));
        state
    }

    /// The pending line.
    pub fn buffer(&self) -> (buffer: &str)
        ensures
            buffer@ == self@.buffer,
    {
        self.buffer.as_str()
    }

    /// Rows that the pending line takes as it was last drawn.
    pub fn buffer_rows(&self) -> (rows: u16)
        ensures
            rows == self@.rows,
    {
        self.buffer_rows
    }

    /// Columns of the terminal.
    pub fn columns(&self) -> (columns: u16)
        ensures
            columns == self@.columns,
    {
        self.columns
    }

    /// Takes another width of the terminal, as read before a fragment is
    /// rendered.
    pub fn set_columns(&mut self, columns: u16)
        requires
            old(self).wf(),
            columns > 0,
        ensures
            final(self).wf(),
            final(self)@.columns == columns,
            final(self)@.buffer == old(self)@.buffer,
            final(self)@.rows == old(self)@.rows,
    {
        self.columns = columns;
    }

    /// First half of a fragment's rendering, given the cursor's column and
    /// row. Queues the instructions that take the cursor back to where the
    /// pending line starts and clear it, takes the fragment into the pending
    /// line, and says what the markdown formatter is to format: with a line
    /// feed in the fragment, the finished lines of pending line and fragment
    /// together, the rest staying pending; without one, the grown pending
    /// line.
    pub fn begin_text(
        &mut self,
        text: &str,
        col: u16,
        row: u16,
        out: &mut Vec<TermAction>,
    ) -> (request: RenderRequest)
        requires
            old(self).wf(),
        ensures
            final(self).wf(),
            final(self)@.columns == old(self)@.columns,
            final(self)@.rows == old(self)@.rows,
            actions_of(final(out)@) == actions_of(old(out)@) + reposition_actions(
                corrected_row(
                    col,
                    row,
                    display_width_of(old(self)@.buffer),
                    old(self)@.columns,
                ),
                old(self)@.rows,
            ),
            text@.contains('\n') ==> {
                &&& request.kind == RenderKind::Block
                &&& request.source@ == line_head(old(self)@.buffer + text@)
                &&& final(self)@.buffer == line_tail(old(self)@.buffer + text@)
            },
            !text@.contains('\n') ==> {
                &&& request.kind == RenderKind::Line
                &&& request.source@ == old(self)@.buffer + text@
                &&& final(self)@.buffer == old(self)@.buffer + text@
            },
    {
        let width = display_width(self.buffer.as_str());
        let row = correct_row(col, row, width, self.columns);
        reposition(out, row, self.buffer_rows);
        let ghost whole = self.buffer@ + text@;
        if has_newline(text) {
            let mut full = self.buffer.clone();
            full.append(text);
            let (head, tail) = split_line_tail(full.as_str());
            proof {
                lemma_line_split(whole);
            }
            self.buffer = tail;
            RenderRequest { kind: RenderKind::Block, source: head }
        } else {
            self.buffer.append(text);
            proof {
                if whole.contains('\n') {
                    let k = choose|k: int| 0 <= k < whole.len() && whole[k] == '\n';
                    if k < old(self)@.buffer.len() {
                        assert(old(self)@.buffer[k] == '\n');
                    } else {
                        assert(text@[k - old(self)@.buffer.len()] == '\n');
                    }
                }
            }
            RenderRequest { kind: RenderKind::Line, source: self.buffer.clone() }
        }
    }

    /// Second half of a fragment's rendering, given what the markdown
    /// formatter made of the request. Queues the instructions that draw it
    /// and a flush, and counts anew the rows that the pending line takes.
    pub fn finish_text(&mut self, kind: RenderKind, output: &str, out: &mut Vec<TermAction>)
        requires
            old(self).wf(),
        ensures
            final(self).wf(),
            final(self)@.columns == old(self)@.columns,
            final(self)@.buffer == old(self)@.buffer,
            final(self)@.rows == rows_after(kind, old(self)@.buffer, output@, old(self)@.columns),
            actions_of(final(out)@) == actions_of(old(out)@) + output_actions(
                kind,
                old(self)@.buffer,
                output@,
                old(self)@.columns,
            ),
    {
        let ghost queued = actions_of(out@);
        match kind {
            RenderKind::Block => {
                print_block(out, output, self.columns);
                emit(out, TermAction::Print(self.buffer.clone()));
                self.buffer_rows = cap_rows(need_rows(self.buffer.as_str(), self.columns));
            },
            RenderKind::Line => {
                if has_newline(output) {
                    let (head, tail) = split_line_tail(output);
                    let count = print_block(out, head.as_str(), self.columns);
                    let tail_rows = need_rows(tail.as_str(), self.columns);
                    emit(out, TermAction::Print(tail));
                    self.buffer_rows = rows_with_block(count, tail_rows);
                } else {
                    self.buffer_rows = cap_rows(need_rows(output, self.columns));
                    emit(out, TermAction::Print(output.to_owned()));
                }
            },
        }
        emit(out, TermAction::Flush);
        proof {
            assert(actions_of(out@) =~= queued + output_actions(
                kind,
                old(self)@.buffer,
                output@,
                old(self)@.columns,
            ));
        }
    }
}

/// Queues the instructions that close a reply.
pub fn end_of_reply(windows: bool, out: &mut Vec<TermAction>)
    ensures
        actions_of(final(out)@) == actions_of(old(out)@) + closing_actions(windows),
{
    let ghost queued = actions_of(out@);
    let eol = if windows {
        "\n\n"
    } else {
        "\n"
    };
    proof {
        reveal_strlit("\n\n");
        reveal_strlit("\n");
        assert("\n\n"@ =~= seq!['\n', '\n']);
        assert("\n"@ =~= seq!['\n']);
    }
    emit(out, TermAction::Print(eol.to_owned()));
    emit(out, TermAction::Flush);
    assert(actions_of(out@) =~= queued + closing_actions(windows));
}

/// A key press as the renderer reads it.
#[derive(Debug, Clone, Copy, PartialEq, Eq, Structural)]
pub struct KeyInput {
    /// The character of the key, where it has one.
    pub ch: Option<char>,
    /// Whether the control key, and no other modifier, was held.
    pub control_only: bool,
}

/// The request that a key press makes: control with `c` interrupts, control
/// with `d` ends the input, any other key asks for nothing.
pub open spec fn key_request(key: KeyInput) -> Option<AbortRequest> {
    if key.control_only && key.ch == Some('c') {
        Some(AbortRequest::CtrlC)
    } else if key.control_only && key.ch == Some('d') {
        Some(AbortRequest::CtrlD)
    } else {
        None
    }
}

/// Handles a key press read while a reply is rendered. An abort key sets the
/// signal and stops the renderer at once; any other key changes nothing.
pub fn on_key(key: KeyInput, abort: &mut AbortSignal) -> (stop: bool)
    ensures
        stop == key_request(key) is Some,
        final(abort)@ == match key_request(key) {
            Some(request) => state_after(old(abort)@, request),
            None => old(abort)@,
        },
{
    if !key.control_only {
        return false;
    }
    match key.ch {
        Some(ch) => {
            if ch == 'c' {
                abort.set_ctrlc();
                true
            } else if ch == 'd' {
                abort.set_ctrld();
                true
            } else {
                false
            }
        },
        None => false,
    }
}

/// Nanoseconds between two rounds of keyboard polling.
pub const TICK_RATE_NANOS: u64 = 50_000_000;

/// How long to wait for a key, given the time since the last tick: what is
/// left of the tick, nothing when it is over.
pub fn poll_timeout(elapsed_nanos: u128) -> (timeout_nanos: u64)
    ensures
        timeout_nanos == if elapsed_nanos <= TICK_RATE_NANOS {
            TICK_RATE_NANOS - elapsed_nanos
        } else {
            0
        },
{
    if elapsed_nanos <= TICK_RATE_NANOS as u128 {
        TICK_RATE_NANOS - (elapsed_nanos as u64)
    } else {
        0
    }
}

/// Whether a tick is over, so that the next one starts now.
pub fn tick_over(elapsed_nanos: u128) -> (over: bool)
    ensures
        over == (elapsed_nanos >= TICK_RATE_NANOS),
{
    elapsed_nanos >= TICK_RATE_NANOS as u128
}

} // verus!
