//! The lines printed for the items of a crate.

use vstd::prelude::*;
use crate::callback::CompilationDecision;
use crate::plugin::texts;

verus! {

/// One item of the crate, as the stable IR renders it: the item's debug
/// form and its type's display form.
#[derive(Debug, Clone)]
pub struct ItemDescription {
    pub item: String,
    pub ty: String,
}

/// The line printed for an item: `There is an item "<item>" of type "<ty>"`.
pub open spec fn item_line_of(item: Seq<char>, ty: Seq<char>) -> Seq<char> {
    "There is an item \""@ + item + "\" of type \""@ + ty + "\""@
}

/// The lines printed for `items`: one per item, in their order.
pub open spec fn item_lines_of(items: Seq<ItemDescription>) -> Seq<Seq<char>> {
    items.map_values(|d: ItemDescription| item_line_of(d.item@, d.ty@))
}

impl ItemDescription {
    pub fn new(item: String, ty: String) -> (r: Self)
        ensures
            r.item == item,
            r.ty == ty,
    {
        ItemDescription { item, ty }
    }
}

/// The line printed for an item with debug form `item` and type `ty`.
pub fn item_line(item: &str, ty: &str) -> (r: String)
    ensures
        r@ == item_line_of(item@, ty@),
{
    let r = String::from_str("There is an item \"").concat(item).concat("\" of type \"").concat(
        ty,
    ).concat("\"");
    r
}

/// Writes to `sink` one line for each item, in the order given, and lets
/// compilation go on.
pub fn print_all_items(items: &Vec<ItemDescription>, sink: &mut Vec<String>) -> (r:
    CompilationDecision)
    ensures
        r == CompilationDecision::Continue,
        texts(final(sink)@) == texts(old(sink)@) + item_lines_of(items@),
        final(sink)@.len() == old(sink)@.len() + items@.len(),
{
    let mut i: usize = 0;
    while i < items.len()
        invariant
            i <= items@.len(),
            texts(sink@) == texts(old(sink)@) + item_lines_of(items@.take(i as int)),
        decreases items@.len() - i,
    {
        let line = item_line(items[i].item.as_str(), items[i].ty.as_str());
        let ghost before = sink@;
        sink.push(line);
        assert(item_lines_of(items@.take(i + 1)) =~= item_lines_of(items@.take(i as int)).push(
            item_line_of(items@[i as int].item@, items@[i as int].ty@),
        ));
        assert(texts(sink@) =~= texts(before).push(line@));
        i = i + 1;
    }
    assert(items@.take(items@.len() as int) =~= items@);
    CompilationDecision::Continue
}

/// A crate with N items gets exactly N lines, the i-th of them in the fixed
/// format for the i-th item.
pub proof fn lemma_one_line_per_item(items: Seq<ItemDescription>)
    ensures
        item_lines_of(items).len() == items.len(),
        forall|i: int|
            0 <= i < items.len() ==> #[trigger] item_lines_of(items)[i] == item_line_of(
                items[i].item@,
                items[i].ty@,
            ),
{
}

/// The lines depend on the items' renderings alone: two runs over a crate
/// whose items render alike, in the same order, print the same lines.
pub proof fn lemma_enumeration_deterministic(a: Seq<ItemDescription>, b: Seq<ItemDescription>)
    requires
        a.len() == b.len(),
        forall|i: int| 0 <= i < a.len() ==> #[trigger] a[i].item@ == b[i].item@ && a[i].ty@ == b[i].ty@,
    ensures
        item_lines_of(a) == item_lines_of(b),
{
    assert(item_lines_of(a) =~= item_lines_of(b));
}

} // verus!
