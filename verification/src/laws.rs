//! Proved laws relating the writer's operations and the renderer.

use crate::print_write_items::spec_render_item;
use crate::print_write_items::PrintOptionsModel;
use crate::write_item::ItemModel;
use crate::writer::spec_apply;
use crate::writer::spec_apply_all;
use crate::writer::spec_handle_first_column;
use crate::writer::spec_initial_state;
use crate::writer::spec_line_column;
use crate::writer::spec_new_line;
use crate::writer::spec_op_valid;
use crate::writer::spec_ops_valid;
use crate::writer::spec_pop;
use crate::writer::spec_space_if_not_trailing;
use crate::writer::spec_write;
use crate::writer::StateModel;
use crate::writer::Writer;
use crate::writer::WriterOp;
use crate::writer::WriterState;
use vstd::prelude::*;

verus! {

/// The column width one item contributes to the line it sits on.
pub open spec fn spec_item_width(item: ItemModel, width: nat) -> nat {
    match item {
        ItemModel::Indent(n) => n * width,
        ItemModel::NewLine => 0,
        ItemModel::Tab => width,
        ItemModel::Space => 1,
        ItemModel::Text(t) => t.len(),
    }
}

/// The summed width of the items appended since the last newline.
pub open spec fn spec_line_width(items: Seq<ItemModel>, width: nat) -> nat
    decreases items.len(),
{
    if items.len() == 0 {
        0
    } else if items.last() == ItemModel::NewLine {
        0
    } else {
        spec_line_width(items.drop_last(), width) + spec_item_width(items.last(), width)
    }
}

/// The column counter agrees with the items on the log's current line.
pub open spec fn spec_column_tracks_items(s: StateModel, width: nat) -> bool {
    s.column == spec_line_width(s.items, width)
}

proof fn lemma_line_width_push(items: Seq<ItemModel>, x: ItemModel, width: nat)
    ensures
        spec_line_width(items.push(x), width) == if x == ItemModel::NewLine {
            0nat
        } else {
            spec_line_width(items, width) + spec_item_width(x, width)
        },
{
    assert(items.push(x).drop_last() =~= items);
    assert(items.push(x).last() == x);
}

proof fn lemma_new_line_keeps_column_tracking(s: StateModel, width: nat)
    requires
        spec_column_tracks_items(s, width),
    ensures
        spec_column_tracks_items(spec_new_line(s), width),
{
    let popped = if s.trailing_space {
        spec_pop(s.items)
    } else {
        s.items
    };
    lemma_line_width_push(popped, ItemModel::NewLine, width);
}

proof fn lemma_first_column_keeps_column_tracking(s: StateModel, width: nat)
    requires
        spec_column_tracks_items(s, width),
    ensures
        spec_column_tracks_items(spec_handle_first_column(s, width), width),
{
    let s1 = if s.expect_newline {
        spec_new_line(s)
    } else {
        s
    };
    if s.expect_newline {
        lemma_new_line_keeps_column_tracking(s, width);
    }
    let s2 = StateModel { trailing_space: false, ..s1 };
    if s2.column == 0 && s2.indent > 0 && s2.ignore_indent == 0 {
        lemma_line_width_push(s2.items, ItemModel::Indent(s2.indent), width);
    }
}

/// One valid operation keeps the column counter in step with the items on
/// the current line.
pub proof fn lemma_column_tracking_step(s: StateModel, op: WriterOp, width: nat)
    requires
        spec_column_tracks_items(s, width),
        spec_op_valid(s, op),
    ensures
        spec_column_tracks_items(spec_apply(s, op, width), width),
{
    match op {
        WriterOp::NewLine => {
            lemma_new_line_keeps_column_tracking(s, width);
        },
        WriterOp::SingleIndent => {
            lemma_first_column_keeps_column_tracking(s, width);
            let s1 = spec_handle_first_column(s, width);
            lemma_line_width_push(s1.items, ItemModel::Indent(1), width);
        },
        WriterOp::Tab => {
            lemma_first_column_keeps_column_tracking(s, width);
            let s1 = spec_handle_first_column(s, width);
            lemma_line_width_push(s1.items, ItemModel::Tab, width);
        },
        WriterOp::Space => {
            lemma_first_column_keeps_column_tracking(s, width);
            let s1 = spec_handle_first_column(s, width);
            lemma_line_width_push(s1.items, ItemModel::Space, width);
        },
        WriterOp::SpaceIfNotTrailing => {
            if !s.expect_newline {
                lemma_first_column_keeps_column_tracking(s, width);
                let s1 = spec_handle_first_column(s, width);
                lemma_line_width_push(s1.items, ItemModel::Space, width);
            }
        },
        WriterOp::Write(t) => {
            lemma_first_column_keeps_column_tracking(s, width);
            let s1 = spec_handle_first_column(s, width);
            lemma_line_width_push(s1.items, ItemModel::Text(t), width);
        },
        _ => {},
    }
}

/// A whole valid operation sequence keeps the column counter in step with
/// the items on the current line.
pub proof fn lemma_column_tracking_all(s: StateModel, ops: Seq<WriterOp>, width: nat)
    requires
        spec_column_tracks_items(s, width),
        spec_ops_valid(s, ops, width),
    ensures
        spec_column_tracks_items(spec_apply_all(s, ops, width), width),
    decreases ops.len(),
{
    if ops.len() > 0 {
        lemma_column_tracking_step(s, ops[0], width);
        lemma_column_tracking_all(spec_apply(s, ops[0], width), ops.skip(1), width);
    }
}

/// After any valid operation sequence from a fresh writer, the reported
/// column equals the summed widths of the items appended since the last
/// newline, plus the pending, not-yet-materialized indentation.
pub proof fn lemma_reported_column(ops: Seq<WriterOp>, width: nat)
    requires
        spec_ops_valid(spec_initial_state(), ops, width),
    ensures
        ({
            let s = spec_apply_all(spec_initial_state(), ops, width);
            spec_line_column(s, width) == spec_line_width(s.items, width) + (if s.column == 0 {
                s.indent * width
            } else {
                0nat
            })
        }),
{
    lemma_column_tracking_all(spec_initial_state(), ops, width);
}

/// Snapshot/restore round trip: a snapshot captures the writer's state
/// exactly, restoring it brings that state back unchanged, and emission
/// after the restore depends only on the restored state — the discarded
/// branch leaves no trace. The hypotheses are precisely the contracts of
/// [`Writer::get_state`] and [`Writer::set_state`].
pub proof fn lemma_snapshot_restore(
    before: Writer,
    snapshot: WriterState,
    after: Writer,
    rest: Seq<WriterOp>,
    width: nat,
)
    requires
        snapshot@ == before@.state,
        after@.state == snapshot@,
    ensures
        after@.state == before@.state,
        spec_apply_all(after@.state, rest, width) == spec_apply_all(before@.state, rest, width),
{
}

/// The operations that emit their own item onto the current line.
pub open spec fn spec_is_emitting(op: WriterOp) -> bool {
    match op {
        WriterOp::SingleIndent => true,
        WriterOp::Tab => true,
        WriterOp::Space => true,
        WriterOp::Write(_) => true,
        _ => false,
    }
}

/// The item an emitting operation appends.
pub open spec fn spec_content_item(op: WriterOp) -> ItemModel {
    match op {
        WriterOp::SingleIndent => ItemModel::Indent(1),
        WriterOp::Tab => ItemModel::Tab,
        WriterOp::Space => ItemModel::Space,
        WriterOp::Write(t) => ItemModel::Text(t),
        _ => arbitrary(),
    }
}

/// Lazy indentation: at column 0 with positive nesting depth, no pending
/// newline and no suppression, the first emitting call appends exactly one
/// `Indent(depth)` item before its own item, and a second emitting call on
/// the same line appends only its own item.
pub proof fn lemma_lazy_indentation(s: StateModel, e1: WriterOp, e2: WriterOp, width: nat)
    requires
        s.column == 0,
        s.indent > 0,
        s.ignore_indent == 0,
        !s.expect_newline,
        width > 0,
        spec_is_emitting(e1),
        spec_is_emitting(e2),
    ensures
        spec_apply(s, e1, width).items == s.items.push(ItemModel::Indent(s.indent)).push(
            spec_content_item(e1),
        ),
        spec_apply(spec_apply(s, e1, width), e2, width).items == spec_apply(
            s,
            e1,
            width,
        ).items.push(spec_content_item(e2)),
{
    assert(s.indent * width > 0) by (nonlinear_arith)
        requires
            s.indent > 0,
            width > 0,
    ;
}

/// Suppression: while the suppression counter is positive, an emitting
/// call appends no `Indent` item even at column 0 with positive nesting
/// depth; only the pending newline, if any, is resolved first.
pub proof fn lemma_suppression(s: StateModel, op: WriterOp, width: nat)
    requires
        s.ignore_indent > 0,
        spec_is_emitting(op),
    ensures
        spec_apply(s, op, width).items == (if s.expect_newline {
            spec_new_line(s).items
        } else {
            s.items
        }).push(spec_content_item(op)),
{
}

/// Nested suppression: after entering suppression twice and leaving it
/// once the counter is still positive, so indentation stays suppressed;
/// only when it has returned to zero does the next emitting call
/// materialize an `Indent` again.
pub proof fn lemma_nested_suppression(s: StateModel, op: WriterOp, width: nat)
    requires
        s.column == 0,
        s.indent > 0,
        s.ignore_indent == 0,
        !s.expect_newline,
        width > 0,
        spec_is_emitting(op),
    ensures
        spec_apply(
            spec_apply(
                spec_apply(
                    spec_apply(s, WriterOp::StartIgnoringIndent, width),
                    WriterOp::StartIgnoringIndent,
                    width,
                ),
                WriterOp::FinishIgnoringIndent,
                width,
            ),
            op,
            width,
        ).items == s.items.push(spec_content_item(op)),
        spec_apply(
            spec_apply(
                spec_apply(s, WriterOp::StartIgnoringIndent, width),
                WriterOp::FinishIgnoringIndent,
                width,
            ),
            op,
            width,
        ).items == s.items.push(ItemModel::Indent(s.indent)).push(spec_content_item(op)),
{
    lemma_lazy_indentation(s, op, op, width);
}

/// Trailing-space trimming: a trimmable space immediately followed by a
/// newline leaves no `Space` item behind — the log gains only the
/// `NewLine`, the trimmable marker is cleared and the line counter
/// advances — while the same space not followed by a newline stays in the
/// log.
pub proof fn lemma_trailing_space_trimmed(s: StateModel, width: nat)
    requires
        !s.expect_newline,
    ensures
        spec_new_line(spec_space_if_not_trailing(s, width)).items == spec_handle_first_column(
            s,
            width,
        ).items.push(ItemModel::NewLine),
        !spec_new_line(spec_space_if_not_trailing(s, width)).trailing_space,
        spec_new_line(spec_space_if_not_trailing(s, width)).line == s.line + 1,
        spec_space_if_not_trailing(s, width).items == spec_handle_first_column(s, width).items.push(
            ItemModel::Space,
        ),
{
    let s1 = spec_handle_first_column(s, width);
    assert(s1.items.push(ItemModel::Space).drop_last() =~= s1.items);
}

/// The space stays when no newline intervenes: after a trimmable space,
/// writing text leaves the `Space` item in the log, lands the `Text` item
/// after it, and clears the trimmable marker — so a later line break no
/// longer removes that space.
pub proof fn lemma_space_kept_without_newline(s: StateModel, t: Seq<char>, width: nat)
    requires
        !s.expect_newline,
    ensures
        ({
            let with_space = spec_space_if_not_trailing(s, width);
            let with_text = spec_write(with_space, width, t);
            &&& with_text.items == with_space.items.push(ItemModel::Text(t))
            &&& !with_text.trailing_space
            &&& spec_new_line(with_text).items == with_text.items.push(ItemModel::NewLine)
        }),
{
}

/// Line-start resolution at column 0 with positive nesting depth, no
/// pending newline and no suppression materializes exactly one
/// `Indent(depth)` item, advances the column to depth times the configured
/// width, and records the depth as the line's start-of-line indent level;
/// nothing else changes.
pub proof fn lemma_first_column_materializes_once(s: StateModel, width: nat)
    requires
        s.column == 0,
        s.indent > 0,
        s.ignore_indent == 0,
        !s.expect_newline,
    ensures
        spec_handle_first_column(s, width) == (StateModel {
            column: s.indent * width,
            line_start_indent: s.indent,
            trailing_space: false,
            items: s.items.push(ItemModel::Indent(s.indent)),
            ..s
        }),
{
}

/// Line-start resolution in the middle of a line — the column is already
/// positive — appends nothing and moves nothing: with no pending newline
/// it only clears the trimmable-space marker, so a second emitting call on
/// the same line adds no indentation.
pub proof fn lemma_first_column_midline_unchanged(s: StateModel, width: nat)
    requires
        s.column > 0,
        !s.expect_newline,
    ensures
        spec_handle_first_column(s, width) == (StateModel { trailing_space: false, ..s }),
{
}

/// Line-start resolution under suppression appends no `Indent` item and
/// adds no indent width to the column, whatever the nesting depth: apart
/// from resolving a pending newline, it only clears the trimmable-space
/// marker.
pub proof fn lemma_first_column_suppressed(s: StateModel, width: nat)
    requires
        s.ignore_indent > 0,
    ensures
        spec_handle_first_column(s, width) == (StateModel {
            trailing_space: false,
            ..(if s.expect_newline {
                spec_new_line(s)
            } else {
                s
            })
        }),
{
}

/// With tabs enabled, `Indent(n)` renders as `n` literal tab characters,
/// whatever indent width the options carry.
pub proof fn lemma_tabs_ignore_indent_width(n: nat, o1: PrintOptionsModel, o2: PrintOptionsModel)
    requires
        o1.use_tabs,
        o2.use_tabs,
    ensures
        spec_render_item(ItemModel::Indent(n), o1) == Seq::new(n, |i: int| '\t'),
        spec_render_item(ItemModel::Indent(n), o1) == spec_render_item(ItemModel::Indent(n), o2),
{
    assert(spec_render_item(ItemModel::Indent(n), o1) =~= Seq::new(n, |i: int| '\t'));
    assert(spec_render_item(ItemModel::Indent(n), o2) =~= Seq::new(n, |i: int| '\t'));
}

} // verus!
