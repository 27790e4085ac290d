//! A depth-first walk over nested modules.

use vstd::prelude::*;
use crate::tree::{lemma_module_view, SourceItem, SourceItemView};

verus! {

/// The items that a walk starting at `item` visits, in the order in which it
/// visits them: the items of a module's body come before the module itself.
pub open spec fn visit_order(item: SourceItemView) -> Seq<SourceItemView>
    decreases item,
{
    match item {
        SourceItemView::Module { items } => visit_order_of(items).push(item),
        _ => seq![item],
    }
}

/// The items that walking each of `items` in turn visits.
pub open spec fn visit_order_of(items: Seq<SourceItemView>) -> Seq<SourceItemView>
    decreases items,
{
    if items.len() == 0 {
        Seq::empty()
    } else {
        visit_order_of(items.drop_last()) + visit_order(items.last())
    }
}

/// Something that is shown the items of a tree one at a time.
pub trait ItemVisitor {
    /// What a visitor has gathered from the items it has seen.
    type Gathered;

    /// What this visitor has gathered so far.
    spec fn gathered(&self) -> Self::Gathered;

    /// What a visitor has gathered once it has seen one more item.
    spec fn after(gathered: Self::Gathered, item: SourceItemView) -> Self::Gathered;

    /// Shows the visitor one item.
    fn visit(&mut self, item: &SourceItem)
        ensures
            final(self).gathered() == Self::after(old(self).gathered(), item.deep_view()),
    ;
}

/// What a visitor has gathered once it has seen each of `items` in turn.
pub open spec fn after_all<V: ItemVisitor>(
    gathered: V::Gathered,
    items: Seq<SourceItemView>,
) -> V::Gathered {
    items.fold_left(gathered, |g: V::Gathered, item: SourceItemView| V::after(g, item))
}

/// Seeing the items of `first` and then those of `second` is seeing the items
/// of their concatenation.
pub proof fn lemma_after_all_concat<V: ItemVisitor>(
    gathered: V::Gathered,
    first: Seq<SourceItemView>,
    second: Seq<SourceItemView>,
)
    ensures
        after_all::<V>(after_all::<V>(gathered, first), second) == after_all::<V>(
            gathered,
            first + second,
        ),
{
    let whole = first + second;
    let f = |g: V::Gathered, item: SourceItemView| V::after(g, item);
    whole.lemma_fold_left_split(gathered, f, first.len() as int);
    assert(whole.subrange(0, first.len() as int) =~= first);
    assert(whole.subrange(first.len() as int, whole.len() as int) =~= second);
}

/// Walks `item` depth first and shows every item to the visitor: the items of
/// a module's body in source order, each walked in the same way, and then the
/// module itself. No item is left out.
pub fn call_recurse<V: ItemVisitor>(item: &SourceItem, visitor: &mut V)
    ensures
        final(visitor).gathered() == after_all::<V>(
            old(visitor).gathered(),
            visit_order(item.deep_view()),
        ),
    decreases item,
{
    let ghost start = visitor.gathered();
    match item {
        SourceItem::Module { items } => {
            let mut i: usize = 0;
            while i < items.len()
                invariant
                    i <= items.len(),
                    *item is Module,
                    item->items == *items,
                    visitor.gathered() == after_all::<V>(
                        start,
                        visit_order_of(items.deep_view().take(i as int)),
                    ),
                decreases items.len() - i,
            {
                proof {
                    assert(decreases_to!(*item => (item->items)[i as int]));
                }
                call_recurse(&items[i], visitor);
                proof {
                    let seen = items.deep_view().take(i as int);
                    let next = items.deep_view().take(i as int + 1);
                    assert(next.drop_last() =~= seen);
                    assert(next.last() == items[i as int].deep_view());
                    lemma_after_all_concat::<V>(
                        start,
                        visit_order_of(seen),
                        visit_order(items[i as int].deep_view()),
                    );
                }
                i += 1;
            }
            proof {
                lemma_module_view(*items);
                assert(items.deep_view().take(items.len() as int) =~= items.deep_view());
            }
        },
        _ => {},
    }
    visitor.visit(item);
    proof {
        let view = item.deep_view();
        match view {
            SourceItemView::Module { items } => {
                let order = visit_order(view);
                assert(order.drop_last() =~= visit_order_of(items));
                assert(order.last() == view);
            },
            _ => {
                let order = visit_order(view);
                assert(order.drop_last() =~= Seq::<SourceItemView>::empty());
                assert(order.last() == view);
                reveal_with_fuel(Seq::fold_left, 2);
            },
        }
    }
}

} // verus!
