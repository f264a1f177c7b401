//! The position-tracking writer: a small state machine over the persistent
//! emission log, with O(1) snapshot and restore.

use crate::collections::log_items;
use crate::collections::GraphNode;
use crate::print_write_items::print_items_by_ref;
use crate::print_write_items::spec_render;
use crate::print_write_items::PrintOptionsModel;
use crate::print_write_items::PrintWriteItemsOptions;
use crate::write_item::ItemModel;
use crate::write_item::view_of_items;
use crate::write_item::StringContainer;
use crate::write_item::WriteItem;
use std::rc::Rc;
use vstd::prelude::*;

verus! {

/// The writer's full mutable state. Cloning is O(1): the scalar cursor
/// fields are copied and the log handle is shared, not copied.
pub struct WriterState {
    current_line_column: u32,
    current_line_number: u32,
    last_line_indent_level: u8,
    indent_level: u8,
    expect_newline_next: bool,
    last_was_not_trailing_space: bool,
    ignore_indent_count: u8,
    items: Option<Rc<GraphNode>>,
}

/// The mathematical shape of a [`WriterState`]: unbounded counters and the
/// emission-ordered item sequence of the log.
pub ghost struct StateModel {
    pub column: nat,
    pub line: nat,
    pub line_start_indent: nat,
    pub indent: nat,
    pub expect_newline: bool,
    pub trailing_space: bool,
    pub ignore_indent: nat,
    pub items: Seq<ItemModel>,
}

impl View for WriterState {
    type V = StateModel;

    closed spec fn view(&self) -> StateModel {
        StateModel {
            column: self.current_line_column as nat,
            line: self.current_line_number as nat,
            line_start_indent: self.last_line_indent_level as nat,
            indent: self.indent_level as nat,
            expect_newline: self.expect_newline_next,
            trailing_space: self.last_was_not_trailing_space,
            ignore_indent: self.ignore_indent_count as nat,
            items: log_items(self.items),
        }
    }
}

impl Clone for WriterState {
    /// O(1): copies the scalars and shares the log handle.
    fn clone(&self) -> (r: WriterState)
        ensures
            r@ == self@,
    {
        WriterState {
            current_line_column: self.current_line_column,
            current_line_number: self.current_line_number,
            last_line_indent_level: self.last_line_indent_level,
            indent_level: self.indent_level,
            expect_newline_next: self.expect_newline_next,
            last_was_not_trailing_space: self.last_was_not_trailing_space,
            ignore_indent_count: self.ignore_indent_count,
            items: match &self.items {
                Some(rc) => Some(rc.clone()),
                None => None,
            },
        }
    }
}

/// Configuration for a [`Writer`].
pub struct WriterOptions {
    pub indent_width: u8,
}

/// The mutating façade: owns one live [`WriterState`] plus the configured
/// indent width.
pub struct Writer {
    state: WriterState,
    indent_width: u8,
}

/// The mathematical shape of a [`Writer`]: the configured width and the
/// state's model.
pub ghost struct WriterModel {
    pub width: nat,
    pub state: StateModel,
}

impl View for Writer {
    type V = WriterModel;

    closed spec fn view(&self) -> WriterModel {
        WriterModel { width: self.indent_width as nat, state: self.state@ }
    }
}

/// The state of a freshly constructed writer: everything zero, the log
/// empty.
pub open spec fn spec_initial_state() -> StateModel {
    StateModel {
        column: 0,
        line: 0,
        line_start_indent: 0,
        indent: 0,
        expect_newline: false,
        trailing_space: false,
        ignore_indent: 0,
        items: Seq::empty(),
    }
}

/// Removing the most recently appended item, if any.
pub open spec fn spec_pop(items: Seq<ItemModel>) -> Seq<ItemModel> {
    if items.len() > 0 {
        items.drop_last()
    } else {
        items
    }
}

/// Setting the nesting depth; a change made right at the start of a line is
/// visible to that line's recorded start-of-line indent level.
pub open spec fn spec_set_indent_level(s: StateModel, new_level: nat) -> StateModel {
    StateModel {
        indent: new_level,
        line_start_indent: if s.column == 0 {
            new_level
        } else {
            s.line_start_indent
        },
        ..s
    }
}

/// A line break: a trimmable pending space is removed from the log first,
/// the column resets, the line counter advances, the start-of-line indent
/// level becomes the current nesting depth, and a `NewLine` item is
/// appended.
pub open spec fn spec_new_line(s: StateModel) -> StateModel {
    StateModel {
        column: 0,
        line: s.line + 1,
        line_start_indent: s.indent,
        expect_newline: false,
        trailing_space: false,
        items: (if s.trailing_space {
            spec_pop(s.items)
        } else {
            s.items
        }).push(ItemModel::NewLine),
        ..s
    }
}

/// Line-start resolution, performed before every emitting call: a pending
/// newline is emitted first, the trimmable-space marker is cleared, and if
/// the cursor sits at column 0 with positive nesting depth and no active
/// suppression, one `Indent(depth)` item is materialized and the column
/// advances to depth times the configured width.
pub open spec fn spec_handle_first_column(s: StateModel, width: nat) -> StateModel {
    let s1 = if s.expect_newline {
        spec_new_line(s)
    } else {
        s
    };
    let s2 = StateModel { trailing_space: false, ..s1 };
    if s2.column == 0 && s2.indent > 0 && s2.ignore_indent == 0 {
        StateModel {
            line_start_indent: s2.indent,
            items: s2.items.push(ItemModel::Indent(s2.indent)),
            column: s2.indent * width,
            ..s2
        }
    } else {
        s2
    }
}

/// Emitting one `Indent(1)` item: the column advances by the configured
/// width.
pub open spec fn spec_single_indent(s: StateModel, width: nat) -> StateModel {
    let s1 = spec_handle_first_column(s, width);
    StateModel {
        column: s1.column + width,
        items: s1.items.push(ItemModel::Indent(1)),
        ..s1
    }
}

/// Emitting one `Tab` item: the column advances by the configured width.
pub open spec fn spec_tab(s: StateModel, width: nat) -> StateModel {
    let s1 = spec_handle_first_column(s, width);
    StateModel { column: s1.column + width, items: s1.items.push(ItemModel::Tab), ..s1 }
}

/// Emitting one `Space` item: the column advances by one.
pub open spec fn spec_space(s: StateModel, width: nat) -> StateModel {
    let s1 = spec_handle_first_column(s, width);
    StateModel { column: s1.column + 1, items: s1.items.push(ItemModel::Space), ..s1 }
}

/// Emitting a text fragment: the column advances by its character count.
pub open spec fn spec_write(s: StateModel, width: nat, text: Seq<char>) -> StateModel {
    let s1 = spec_handle_first_column(s, width);
    StateModel {
        column: s1.column + text.len(),
        items: s1.items.push(ItemModel::Text(text)),
        ..s1
    }
}

/// A space that is skipped when a newline is already pending and marked
/// trimmable when emitted.
pub open spec fn spec_space_if_not_trailing(s: StateModel, width: nat) -> StateModel {
    if s.expect_newline {
        s
    } else {
        StateModel { trailing_space: true, ..spec_space(s, width) }
    }
}

/// The column reported by [`Writer::get_line_column`]: at column 0 the
/// prospective column implied by pending indentation, otherwise the actual
/// column.
pub open spec fn spec_line_column(s: StateModel, width: nat) -> nat {
    if s.column == 0 {
        s.indent * width
    } else {
        s.column
    }
}

/// One state-changing writer operation, as a value, so that laws can
/// quantify over whole operation sequences.
pub ghost enum WriterOp {
    StartIndent,
    FinishIndent,
    StartIgnoringIndent,
    FinishIgnoringIndent,
    MarkExpectNewLine,
    SpaceIfNotTrailing,
    NewLine,
    SingleIndent,
    Tab,
    Space,
    Write(Seq<char>),
}

/// The operation's precondition: unbalanced finish calls are fatal
/// contract violations and excluded.
pub open spec fn spec_op_valid(s: StateModel, op: WriterOp) -> bool {
    match op {
        WriterOp::FinishIndent => s.indent > 0,
        WriterOp::FinishIgnoringIndent => s.ignore_indent > 0,
        _ => true,
    }
}

/// The state transition each operation performs.
pub open spec fn spec_apply(s: StateModel, op: WriterOp, width: nat) -> StateModel {
    match op {
        WriterOp::StartIndent => spec_set_indent_level(s, s.indent + 1),
        WriterOp::FinishIndent => spec_set_indent_level(s, (s.indent - 1) as nat),
        WriterOp::StartIgnoringIndent => StateModel {
            ignore_indent: s.ignore_indent + 1,
            ..s
        },
        WriterOp::FinishIgnoringIndent => StateModel {
            ignore_indent: (s.ignore_indent - 1) as nat,
            ..s
        },
        WriterOp::MarkExpectNewLine => StateModel { expect_newline: true, ..s },
        WriterOp::SpaceIfNotTrailing => spec_space_if_not_trailing(s, width),
        WriterOp::NewLine => spec_new_line(s),
        WriterOp::SingleIndent => spec_single_indent(s, width),
        WriterOp::Tab => spec_tab(s, width),
        WriterOp::Space => spec_space(s, width),
        WriterOp::Write(t) => spec_write(s, width, t),
    }
}

/// A whole operation sequence, applied in order.
pub open spec fn spec_apply_all(s: StateModel, ops: Seq<WriterOp>, width: nat) -> StateModel
    decreases ops.len(),
{
    if ops.len() == 0 {
        s
    } else {
        spec_apply_all(spec_apply(s, ops[0], width), ops.skip(1), width)
    }
}

/// Every operation of the sequence is valid in the state it runs in.
pub open spec fn spec_ops_valid(s: StateModel, ops: Seq<WriterOp>, width: nat) -> bool
    decreases ops.len(),
{
    ops.len() > 0 ==> {
        &&& spec_op_valid(s, ops[0])
        &&& spec_ops_valid(spec_apply(s, ops[0], width), ops.skip(1), width)
    }
}

/// Reverses an item vector.
fn reversed_items(v: Vec<WriteItem>) -> (r: Vec<WriteItem>)
    ensures
        view_of_items(r@) == view_of_items(v@).reverse(),
{
    let mut src = v;
    let mut out: Vec<WriteItem> = Vec::new();
    let ghost total: Seq<ItemModel> = view_of_items(src@);
    proof {
        assert(view_of_items(out@) =~= total.reverse().take(0));
        assert(view_of_items(src@) =~= total.take(src@.len() as int));
    }
    while src.len() > 0
        invariant
            view_of_items(out@) == total.reverse().take(out@.len() as int),
            view_of_items(src@) == total.take(src@.len() as int),
            out@.len() + src@.len() == total.len(),
        decreases src.len(),
    {
        let ghost src0 = src@;
        let ghost out0 = out@;
        let x = src.pop().unwrap();
        out.push(x);
        proof {
            assert(x@ == view_of_items(src0).last());
            assert(x@ == total[src0.len() - 1]);
            assert(view_of_items(src@) =~= total.take(src@.len() as int));
            assert forall|i: int| 0 <= i < out@.len() implies view_of_items(out@)[i]
                == total.reverse()[i] by {
                if i < out0.len() {
                    assert(view_of_items(out@)[i] == view_of_items(out0)[i]);
                    assert(view_of_items(out0)[i] == total.reverse().take(out0.len() as int)[i]);
                } else {
                    assert(view_of_items(out@)[i] == x@);
                    assert(total.reverse()[i] == total[total.len() - 1 - i]);
                }
            }
            assert(view_of_items(out@) =~= total.reverse().take(out@.len() as int));
        }
    }
    proof {
        assert(view_of_items(out@) =~= total.reverse());
    }
    out
}

/// The product of an indent level and a configured width is small.
proof fn lemma_level_times_width(l: nat, w: nat)
    requires
        l <= u8::MAX,
        w <= u8::MAX,
    ensures
        l * w <= 65025,
{
    assert(l * w <= 65025) by (nonlinear_arith)
        requires
            l <= 255,
            w <= 255,
    ;
}

/// Every scalar of a reachable state fits its machine representation; see
/// [`lemma_writer_state_bounded`].
pub open spec fn spec_state_fits(s: StateModel) -> bool {
    &&& s.column <= u32::MAX
    &&& s.line <= u32::MAX
    &&& s.line_start_indent <= u8::MAX
    &&& s.indent <= u8::MAX
    &&& s.ignore_indent <= u8::MAX
}

/// The scalars of a writer's state always fit their machine
/// representation, whatever was done to the writer.
pub proof fn lemma_writer_state_bounded(w: &Writer)
    ensures
        spec_state_fits(w@.state),
{
}

/// The scalars of a snapshot always fit their machine representation.
pub proof fn lemma_snapshot_bounded(s: &WriterState)
    ensures
        spec_state_fits(s@),
{
}

impl Writer {
    /// A fresh writer: zeroed state over an empty log.
    pub fn new(options: WriterOptions) -> (r: Writer)
        ensures
            r@.width == options.indent_width as nat,
            r@.state == spec_initial_state(),
    {
        Writer {
            indent_width: options.indent_width,
            state: WriterState {
                current_line_column: 0,
                current_line_number: 0,
                last_line_indent_level: 0,
                indent_level: 0,
                expect_newline_next: false,
                last_was_not_trailing_space: false,
                ignore_indent_count: 0,
                items: None,
            },
        }
    }

    /// An O(1) snapshot of the writer's full state.
    pub fn get_state(&self) -> (r: WriterState)
        ensures
            r@ == self@.state,
    {
        self.state.clone()
    }

    /// Restores a previously taken snapshot, replacing the live state
    /// wholesale.
    pub fn set_state(&mut self, state: WriterState)
        ensures
            final(self)@.width == old(self)@.width,
            final(self)@.state == state@,
    {
        self.state = state;
    }

    fn push_item(&mut self, item: WriteItem)
        ensures
            final(self)@.width == old(self)@.width,
            final(self)@.state == (StateModel { items: old(self)@.state.items.push(item@), ..old(self)@.state }),
    {
        let previous = self.state.items.take();
        self.state.items = Some(Rc::new(GraphNode::new(item, previous)));
    }

    fn pop_item(&mut self)
        ensures
            final(self)@.width == old(self)@.width,
            final(self)@.state == (StateModel { items: spec_pop(old(self)@.state.items), ..old(self)@.state }),
    {
        let previous: Option<Rc<GraphNode>> = match &self.state.items {
            Some(rc) => match &rc.previous {
                Some(p) => Some(p.clone()),
                None => None,
            },
            None => {
                return ;
            },
        };
        proof {
            assert(log_items(self.state.items).drop_last() =~= log_items(
                self.state.items->Some_0.previous,
            ));
        }
        self.state.items = previous;
    }

    fn set_indent_level(&mut self, new_level: u8)
        ensures
            final(self)@.width == old(self)@.width,
            final(self)@.state == spec_set_indent_level(old(self)@.state, new_level as nat),
    {
        self.state.indent_level = new_level;
        // A depth change right at the start of a line is visible to that
        // line's recorded start-of-line indent level.
        if self.state.current_line_column == 0 {
            self.state.last_line_indent_level = new_level;
        }
    }

    /// Enters one level of indentation.
    pub fn start_indent(&mut self)
        requires
            old(self)@.state.indent < u8::MAX,
        ensures
            final(self)@.width == old(self)@.width,
            final(self)@.state == spec_set_indent_level(
                old(self)@.state,
                old(self)@.state.indent + 1,
            ),
    {
        let level = self.state.indent_level;
        self.set_indent_level(level + 1);
    }

    /// Leaves one level of indentation. Calling it without a matching
    /// [`Writer::start_indent`] — that is, at nesting depth 0 — is a fatal
    /// contract violation, which the precondition rules out.
    pub fn finish_indent(&mut self)
        requires
            old(self)@.state.indent > 0,
        ensures
            final(self)@.width == old(self)@.width,
            final(self)@.state == spec_set_indent_level(
                old(self)@.state,
                (old(self)@.state.indent - 1) as nat,
            ),
    {
        let level = self.state.indent_level;
        self.set_indent_level(level - 1);
    }

    /// Enters a scope in which automatic line-start indentation is
    /// suppressed.
    pub fn start_ignoring_indent(&mut self)
        requires
            old(self)@.state.ignore_indent < u8::MAX,
        ensures
            final(self)@.width == old(self)@.width,
            final(self)@.state == (StateModel {
                ignore_indent: old(self)@.state.ignore_indent + 1,
                ..old(self)@.state
            }),
    {
        self.state.ignore_indent_count = self.state.ignore_indent_count + 1;
    }

    /// Leaves one suppression scope. Calling it without a matching
    /// [`Writer::start_ignoring_indent`] is a fatal contract violation,
    /// which the precondition rules out.
    pub fn finish_ignoring_indent(&mut self)
        requires
            old(self)@.state.ignore_indent > 0,
        ensures
            final(self)@.width == old(self)@.width,
            final(self)@.state == (StateModel {
                ignore_indent: (old(self)@.state.ignore_indent - 1) as nat,
                ..old(self)@.state
            }),
    {
        self.state.ignore_indent_count = self.state.ignore_indent_count - 1;
    }

    /// Records that the next emitting call must first break the line,
    /// without emitting the break now.
    pub fn mark_expect_new_line(&mut self)
        ensures
            final(self)@.width == old(self)@.width,
            final(self)@.state == (StateModel { expect_newline: true, ..old(self)@.state }),
    {
        self.state.expect_newline_next = true;
    }

    /// Emits a space unless a newline is already pending; an emitted space
    /// is marked trimmable, so an immediately following
    /// [`Writer::new_line`] removes it again.
    pub fn space_if_not_trailing(&mut self)
        requires
            spec_space_if_not_trailing(old(self)@.state, old(self)@.width).column <= u32::MAX,
            spec_space_if_not_trailing(old(self)@.state, old(self)@.width).line <= u32::MAX,
        ensures
            final(self)@.width == old(self)@.width,
            final(self)@.state == spec_space_if_not_trailing(old(self)@.state, old(self)@.width),
    {
        if !self.state.expect_newline_next {
            self.space();
            self.state.last_was_not_trailing_space = true;
        }
    }

    /// The indent level in effect at the start of the current line.
    pub fn get_line_start_indent_level(&self) -> (r: u8)
        ensures
            r as nat == self@.state.line_start_indent,
    {
        self.state.last_line_indent_level
    }

    /// The current indent nesting depth.
    pub fn get_indentation_level(&self) -> (r: u8)
        ensures
            r as nat == self@.state.indent,
    {
        self.state.indent_level
    }

    /// The current suppression depth (diagnostic).
    pub fn get_ignore_indent_count(&self) -> (r: u8)
        ensures
            r as nat == self@.state.ignore_indent,
    {
        self.state.ignore_indent_count
    }

    /// The column at which the current line started, in characters of
    /// configured width.
    pub fn get_line_start_column_number(&self) -> (r: u32)
        ensures
            r as nat == self@.state.line_start_indent * self@.width,
    {
        proof {
            lemma_level_times_width(
                self.state.last_line_indent_level as nat,
                self.indent_width as nat,
            );
        }
        (self.state.last_line_indent_level as u32) * (self.indent_width as u32)
    }

    /// The current column; at column 0 this is the prospective column
    /// implied by pending, not-yet-materialized indentation.
    pub fn get_line_column(&self) -> (r: u32)
        ensures
            r as nat == spec_line_column(self@.state, self@.width),
    {
        if self.state.current_line_column == 0 {
            proof {
                lemma_level_times_width(self.state.indent_level as nat, self.indent_width as nat);
            }
            (self.state.indent_level as u32) * (self.indent_width as u32)
        } else {
            self.state.current_line_column
        }
    }

    /// The current line number, starting at 0.
    pub fn get_line_number(&self) -> (r: u32)
        ensures
            r as nat == self@.state.line,
    {
        self.state.current_line_number
    }

    /// Breaks the line: removes a trimmable pending space from the log,
    /// resets the column, advances the line counter, records the
    /// start-of-line indent level and appends a `NewLine` item.
    pub fn new_line(&mut self)
        requires
            old(self)@.state.line + 1 <= u32::MAX,
        ensures
            final(self)@.width == old(self)@.width,
            final(self)@.state == spec_new_line(old(self)@.state),
    {
        if self.state.last_was_not_trailing_space {
            self.pop_item();
            self.state.last_was_not_trailing_space = false;
        }
        self.state.current_line_column = 0;
        self.state.current_line_number = self.state.current_line_number + 1;
        self.state.last_line_indent_level = self.state.indent_level;
        self.state.expect_newline_next = false;
        self.push_item(WriteItem::NewLine);
    }

    fn handle_first_column(&mut self)
        requires
            spec_handle_first_column(old(self)@.state, old(self)@.width).column <= u32::MAX,
            spec_handle_first_column(old(self)@.state, old(self)@.width).line <= u32::MAX,
        ensures
            final(self)@.width == old(self)@.width,
            final(self)@.state == spec_handle_first_column(old(self)@.state, old(self)@.width),
    {
        if self.state.expect_newline_next {
            self.new_line();
        }
        self.state.last_was_not_trailing_space = false;
        // Materialize the pending indentation lazily, now that real
        // content is about to land on this line.
        if self.state.current_line_column == 0 && self.state.indent_level > 0
            && self.state.ignore_indent_count == 0 {
            self.state.last_line_indent_level = self.state.indent_level;
            let level = self.state.indent_level;
            self.push_item(WriteItem::Indent(level));
            self.state.current_line_column = self.state.current_line_column + (level as u32) * (
            self.indent_width as u32);
        }
    }

    /// Emits one `Indent(1)` item, advancing the column by the configured
    /// width.
    pub fn single_indent(&mut self)
        requires
            spec_single_indent(old(self)@.state, old(self)@.width).column <= u32::MAX,
            spec_single_indent(old(self)@.state, old(self)@.width).line <= u32::MAX,
        ensures
            final(self)@.width == old(self)@.width,
            final(self)@.state == spec_single_indent(old(self)@.state, old(self)@.width),
    {
        self.handle_first_column();
        self.state.current_line_column = self.state.current_line_column + (self.indent_width
            as u32);
        self.push_item(WriteItem::Indent(1));
    }

    /// Emits a literal tab character, advancing the column by the
    /// configured width.
    pub fn tab(&mut self)
        requires
            spec_tab(old(self)@.state, old(self)@.width).column <= u32::MAX,
            spec_tab(old(self)@.state, old(self)@.width).line <= u32::MAX,
        ensures
            final(self)@.width == old(self)@.width,
            final(self)@.state == spec_tab(old(self)@.state, old(self)@.width),
    {
        self.handle_first_column();
        self.state.current_line_column = self.state.current_line_column + (self.indent_width
            as u32);
        self.push_item(WriteItem::Tab);
    }

    /// Emits a literal space character, advancing the column by one.
    pub fn space(&mut self)
        requires
            spec_space(old(self)@.state, old(self)@.width).column <= u32::MAX,
            spec_space(old(self)@.state, old(self)@.width).line <= u32::MAX,
        ensures
            final(self)@.width == old(self)@.width,
            final(self)@.state == spec_space(old(self)@.state, old(self)@.width),
    {
        self.handle_first_column();
        self.state.current_line_column = self.state.current_line_column + 1;
        self.push_item(WriteItem::Space);
    }

    /// Consumes the writer and returns the emission-ordered item sequence.
    /// Extraction requires the writer to hold the sole remaining handle to
    /// every log node; a node still aliased by a live snapshot is a
    /// contract violation — the snapshot should have been discarded first —
    /// and yields `None`. With an empty log there is no node whose
    /// ownership could be contested, so extraction always succeeds.
    pub fn get_items(self) -> (r: Option<Vec<WriteItem>>)
        ensures
            r matches Some(v) ==> view_of_items(v@) == self@.state.items,
            self@.state.items.len() == 0 ==> r is Some,
    {
        let mut rev: Vec<WriteItem> = Vec::new();
        let mut current: Option<Rc<GraphNode>> = self.state.items;
        let ghost goal: Seq<ItemModel> = log_items(current);
        proof {
            assert(log_items(current) + view_of_items(rev@).reverse() =~= goal);
        }
        while current.is_some()
            invariant
                log_items(current) + view_of_items(rev@).reverse() == goal,
                goal == self@.state.items,
            decreases log_items(current).len(),
        {
            let rc = current.take().unwrap();
            let ghost before = log_items(Some(rc));
            match Rc::try_unwrap(rc) {
                Ok(node) => {
                    rev.push(node.item);
                    current = node.previous;
                    proof {
                        assert(view_of_items(rev@).reverse() =~= seq![node.item@]
                            + view_of_items(rev@.drop_last()).reverse());
                        assert(view_of_items(rev@.drop_last()) =~= view_of_items(rev@).drop_last());
                        assert(log_items(current) + view_of_items(rev@).reverse() =~= goal);
                    }
                },
                Err(_) => {
                    proof {
                        assert(before.len() > 0);
                        assert(goal.len() >= before.len());
                        assert(goal == self@.state.items);
                    }
                    return None;
                },
            }
        }
        let out = reversed_items(rev);
        proof {
            assert(view_of_items(out@) =~= goal);
        }
        Some(out)
    }

    /// A copy of the emission-ordered item sequence; log nodes stay live
    /// and text fragments are shared, not copied.
    pub fn get_items_cloned(&self) -> (r: Vec<WriteItem>)
        ensures
            view_of_items(r@) == self@.state.items,
    {
        let mut rev: Vec<WriteItem> = Vec::new();
        let mut current: &Option<Rc<GraphNode>> = &self.state.items;
        let ghost goal: Seq<ItemModel> = log_items(self.state.items);
        proof {
            assert(log_items(*current) + view_of_items(rev@).reverse() =~= goal);
        }
        while current.is_some()
            invariant
                log_items(*current) + view_of_items(rev@).reverse() == goal,
            decreases log_items(*current).len(),
        {
            match current {
                Some(rc) => {
                    rev.push(rc.item.clone());
                    current = &rc.previous;
                    proof {
                        assert(view_of_items(rev@).reverse() =~= seq![rev@.last()@]
                            + view_of_items(rev@.drop_last()).reverse());
                        assert(view_of_items(rev@.drop_last()) =~= view_of_items(rev@).drop_last());
                        assert(log_items(*current) + view_of_items(rev@).reverse() =~= goal);
                    }
                },
                None => {
                    proof {
                        assert(false);
                    }
                },
            }
        }
        let out = reversed_items(rev);
        proof {
            assert(view_of_items(out@) =~= goal);
        }
        out
    }

    /// Renders the current item sequence with fixed diagnostic options:
    /// four-space indentation and `"\n"` line breaks.
    pub fn to_string_for_debugging(&self) -> (r: String)
        ensures
            r@ == spec_render(
                self@.state.items,
                (PrintOptionsModel { indent_width: 4, use_tabs: false, newline: "\n"@ }),
            ),
    {
        let items = self.get_items_cloned();
        let options = PrintWriteItemsOptions { indent_width: 4, use_tabs: false, newline_kind: "\n" };
        print_items_by_ref(&items, &options)
    }

    /// Emits a text fragment, advancing the column by its character count.
    /// The fragment is referenced, not copied.
    pub fn write(&mut self, text: Rc<StringContainer>)
        requires
            text.wf(),
            spec_write(old(self)@.state, old(self)@.width, text@).column <= u32::MAX,
            spec_write(old(self)@.state, old(self)@.width, text@).line <= u32::MAX,
        ensures
            final(self)@.width == old(self)@.width,
            final(self)@.state == spec_write(old(self)@.state, old(self)@.width, text@),
    {
        self.handle_first_column();
        self.state.current_line_column = self.state.current_line_column + text.char_count;
        self.push_item(WriteItem::Text(text));
    }
}

} // verus!
