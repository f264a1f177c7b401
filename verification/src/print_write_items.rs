//! One-shot rendering of a finalized item sequence into text.

use crate::write_item::view_of_items;
use crate::write_item::ItemModel;
use crate::write_item::WriteItem;
use std::rc::Rc;
use vstd::prelude::*;
use vstd::string::StringExecFns;

verus! {

/// Rendering configuration.
pub struct PrintWriteItemsOptions {
    /// The number of spaces per indentation level when `use_tabs` is false,
    /// otherwise the column width a tab counts for during layout search.
    pub indent_width: u8,
    /// Whether to render indentation with tabs.
    pub use_tabs: bool,
    /// The text emitted for each line break.
    pub newline_kind: &'static str,
}

/// The mathematical shape of the rendering configuration.
pub ghost struct PrintOptionsModel {
    pub indent_width: nat,
    pub use_tabs: bool,
    pub newline: Seq<char>,
}

impl View for PrintWriteItemsOptions {
    type V = PrintOptionsModel;

    open spec fn view(&self) -> PrintOptionsModel {
        PrintOptionsModel {
            indent_width: self.indent_width as nat,
            use_tabs: self.use_tabs,
            newline: self.newline_kind@,
        }
    }
}

/// The text one item renders to: `Indent(n)` expands to `n` indentation
/// units — `n` literal tabs, or `n` times `indent_width` spaces — a
/// `NewLine` to the configured newline text, `Tab` and `Space` to their
/// literal characters, and `Text` to the fragment's characters.
pub open spec fn spec_render_item(item: ItemModel, o: PrintOptionsModel) -> Seq<char> {
    match item {
        ItemModel::Indent(n) => if o.use_tabs {
            Seq::new(n, |i: int| '\t')
        } else {
            Seq::new(n * o.indent_width, |i: int| ' ')
        },
        ItemModel::NewLine => o.newline,
        ItemModel::Tab => Seq::new(1, |i: int| '\t'),
        ItemModel::Space => Seq::new(1, |i: int| ' '),
        ItemModel::Text(t) => t,
    }
}

/// The text a whole item sequence renders to, in order.
pub open spec fn spec_render(items: Seq<ItemModel>, o: PrintOptionsModel) -> Seq<char>
    decreases items.len(),
{
    if items.len() == 0 {
        Seq::empty()
    } else {
        spec_render(items.drop_last(), o) + spec_render_item(items.last(), o)
    }
}

/// Appends `count` copies of the single character of `unit` to `out`.
fn push_repeated(out: &mut String, unit: &str, count: u32)
    requires
        unit@.len() == 1,
    ensures
        final(out)@ == old(out)@ + Seq::new(count as nat, |i: int| unit@[0]),
{
    let mut j: u32 = 0;
    proof {
        assert(out@ =~= old(out)@ + Seq::new(0nat, |i: int| unit@[0]));
    }
    while j < count
        invariant
            j <= count,
            unit@.len() == 1,
            out@ == old(out)@ + Seq::new(j as nat, |i: int| unit@[0]),
        decreases count - j,
    {
        out.append(unit);
        j = j + 1;
        proof {
            assert(out@ =~= old(out)@ + Seq::new(j as nat, |i: int| unit@[0]));
        }
    }
}

/// Appends the rendering of one item to `out`; a text fragment's
/// characters are copied out of the shared fragment, which stays live.
fn push_rendered(out: &mut String, item: &WriteItem, options: &PrintWriteItemsOptions)
    ensures
        final(out)@ == old(out)@ + spec_render_item(item@, options@),
{
    match item {
        WriteItem::Indent(n) => {
            if options.use_tabs {
                proof {
                    reveal_strlit("\t");
                }
                push_repeated(out, "\t", *n as u32);
                proof {
                    assert(Seq::new(*n as nat, |i: int| "\t"@[0]) =~= Seq::new(
                        *n as nat,
                        |i: int| '\t',
                    ));
                }
            } else {
                proof {
                    reveal_strlit(" ");
                    assert((*n as u32) * (options.indent_width as u32) <= 65025)
                        by (nonlinear_arith)
                        requires
                            *n <= 255,
                            options.indent_width <= 255,
                    ;
                }
                let spaces: u32 = (*n as u32) * (options.indent_width as u32);
                push_repeated(out, " ", spaces);
                proof {
                    assert(Seq::new(spaces as nat, |i: int| " "@[0]) =~= Seq::new(
                        (*n as nat) * (options.indent_width as nat),
                        |i: int| ' ',
                    ));
                }
            }
        },
        WriteItem::NewLine => {
            out.append(options.newline_kind);
        },
        WriteItem::Tab => {
            proof {
                reveal_strlit("\t");
            }
            push_repeated(out, "\t", 1);
            proof {
                assert(Seq::new(1nat, |i: int| "\t"@[0]) =~= Seq::new(1nat, |i: int| '\t'));
            }
        },
        WriteItem::Space => {
            proof {
                reveal_strlit(" ");
            }
            push_repeated(out, " ", 1);
            proof {
                assert(Seq::new(1nat, |i: int| " "@[0]) =~= Seq::new(1nat, |i: int| ' '));
            }
        },
        WriteItem::Text(t) => {
            out.append(t.text.as_str());
        },
    }
}

/// Renders a cloned item sequence without consuming any fragment: the
/// diagnostic counterpart of [`print_write_items`].
pub(crate) fn print_items_by_ref(items: &Vec<WriteItem>, options: &PrintWriteItemsOptions) -> (r:
    String)
    ensures
        r@ == spec_render(view_of_items(items@), options@),
{
    let mut out = String::new();
    let mut idx: usize = 0;
    proof {
        assert(view_of_items(items@).take(0) =~= Seq::<ItemModel>::empty());
    }
    while idx < items.len()
        invariant
            idx <= items.len(),
            out@ == spec_render(view_of_items(items@).take(idx as int), options@),
        decreases items.len() - idx,
    {
        push_rendered(&mut out, &items[idx], options);
        idx = idx + 1;
        proof {
            let models = view_of_items(items@);
            assert(models.take(idx as int).drop_last() =~= models.take(idx as int - 1));
            assert(models.take(idx as int).last() == items@[idx as int - 1]@);
        }
    }
    proof {
        assert(view_of_items(items@).take(items@.len() as int) =~= view_of_items(items@));
    }
    out
}

/// Renders the finalized item sequence into text, consuming each text
/// fragment exactly once. Consuming a fragment that some still-live
/// snapshot aliases is a contract violation — it means the snapshot was
/// not discarded before finalization — and yields `None`; a sequence whose
/// fragments are all solely owned renders to `Some`. Only a `Text` item
/// carries a fragment, so a sequence without one always renders.
pub fn print_write_items(write_items: Vec<WriteItem>, options: PrintWriteItemsOptions) -> (r:
    Option<String>)
    ensures
        r matches Some(s) ==> s@ == spec_render(view_of_items(write_items@), options@),
        (forall|i: int|
            0 <= i < write_items@.len() ==> !((#[trigger] write_items@[i]@) matches ItemModel::Text(
                _,
            ))) ==> r is Some,
{
    let mut out = String::new();
    let mut items = write_items;
    let ghost total: Seq<ItemModel> = view_of_items(items@);
    let ghost mut consumed: Seq<ItemModel> = Seq::empty();
    proof {
        assert(consumed + view_of_items(items@) =~= total);
        assert(out@ =~= spec_render(consumed, options@));
    }
    while items.len() > 0
        invariant
            out@ == spec_render(consumed, options@),
            total == consumed + view_of_items(items@),
            total == view_of_items(write_items@),
        decreases items.len(),
    {
        let ghost items0 = items@;
        let item = items.remove(0);
        let ghost m = item@;
        match item {
            WriteItem::Text(t) => {
                match Rc::into_inner(t) {
                    Some(fragment) => {
                        out.append(fragment.text.as_str());
                    },
                    None => {
                        proof {
                            assert(total == view_of_items(write_items@));
                            assert(total.len() == write_items@.len());
                            assert(total.len() == consumed.len() + items0.len());
                            assert(view_of_items(items0)[0] == m);
                            assert(total[consumed.len() as int] == m);
                            assert(total[consumed.len() as int] == write_items@[consumed.len() as int]@);
                            assert((write_items@[consumed.len() as int]@)
                                matches ItemModel::Text(_));
                        }
                        return None;
                    },
                }
            },
            other => {
                push_rendered(&mut out, &other, &options);
            },
        }
        proof {
            let prev = consumed;
            consumed = consumed.push(m);
            assert(consumed.drop_last() =~= prev);
            assert(consumed.last() == m);
            assert(out@ =~= spec_render(consumed, options@));
            assert(total =~= consumed + view_of_items(items@));
        }
    }
    proof {
        assert(total =~= consumed);
    }
    Some(out)
}

} // verus!
