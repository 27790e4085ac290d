//! Discovery of the functions declared in `extern "C"` blocks, and the
//! directives that require their symbols.

use vstd::prelude::*;
use crate::annotation::{override_name, rename_failure};
use crate::directive::{directive_lines, strict_link_symbol};
use crate::style::LinkerArgStyle;
use crate::symbol::{resolve_symbol, resolved_symbol};
use crate::text::same_text;
use crate::tree::{
    Declaration, DeclarationView, ForeignFunctionDeclView, SourceItem, SourceItemView,
};
use crate::walker::{
    after_all, call_recurse, lemma_after_all_concat, visit_order, visit_order_of, ItemVisitor,
};

verus! {

/// The symbol that the directive for a declaration names.
pub open spec fn declaration_symbol(
    declaration: ForeignFunctionDeclView,
    style: LinkerArgStyle,
) -> Seq<char> {
    resolved_symbol(declaration.identifier, override_name(declaration.attributes), style)
}

/// The notice that reports a rename annotation that could not be read.
pub open spec fn notice_text(message: Seq<char>) -> Seq<char> {
    "Error parsing meta for link_name "@ + message
}

/// The directives for one declaration of an `extern` block: the directive for
/// a function's symbol, and nothing for any other declaration.
pub open spec fn declaration_directives(
    declaration: DeclarationView,
    style: LinkerArgStyle,
) -> Seq<Seq<char>> {
    match declaration {
        DeclarationView::Function(function) => directive_lines(
            declaration_symbol(function, style),
            style,
        ),
        DeclarationView::Other => Seq::empty(),
    }
}

/// The notices for one declaration of an `extern` block: one if it is a
/// function whose rename annotation could not be read.
pub open spec fn declaration_notices(declaration: DeclarationView) -> Seq<Seq<char>> {
    match declaration {
        DeclarationView::Function(function) => match rename_failure(function.attributes) {
            Some(message) => seq![notice_text(message)],
            None => Seq::empty(),
        },
        DeclarationView::Other => Seq::empty(),
    }
}

/// The directives for the declarations of an `extern "C"` block, in the order
/// of the declarations.
pub open spec fn block_directives(
    declarations: Seq<DeclarationView>,
    style: LinkerArgStyle,
) -> Seq<Seq<char>> {
    declarations.flat_map(|d: DeclarationView| declaration_directives(d, style))
}

/// The notices for the declarations of an `extern "C"` block, in the order of
/// the declarations.
pub open spec fn block_notices(declarations: Seq<DeclarationView>) -> Seq<Seq<char>> {
    declarations.flat_map(|d: DeclarationView| declaration_notices(d))
}

/// Whether an ABI string is the one whose blocks are searched.
pub open spec fn is_c_abi(abi_tag: Option<Seq<char>>) -> bool {
    abi_tag == Some("C"@)
}

/// The directives that an item gives rise to by itself, whatever it contains:
/// those of its declarations if it is an `extern "C"` block, none otherwise.
pub open spec fn own_directives(item: SourceItemView, style: LinkerArgStyle) -> Seq<Seq<char>> {
    match item {
        SourceItemView::ExternBlock { abi_tag, declarations } => if is_c_abi(abi_tag) {
            block_directives(declarations, style)
        } else {
            Seq::empty()
        },
        _ => Seq::empty(),
    }
}

/// The notices that an item gives rise to by itself.
pub open spec fn own_notices(item: SourceItemView) -> Seq<Seq<char>> {
    match item {
        SourceItemView::ExternBlock { abi_tag, declarations } => if is_c_abi(abi_tag) {
            block_notices(declarations)
        } else {
            Seq::empty()
        },
        _ => Seq::empty(),
    }
}

/// The directives for an item and everything nested in it.
pub open spec fn item_directives(item: SourceItemView, style: LinkerArgStyle) -> Seq<Seq<char>>
    decreases item,
{
    match item {
        SourceItemView::Module { items } => directive_set(items, style),
        _ => own_directives(item, style),
    }
}

/// The directive set of a sequence of items: the directives for each item in
/// turn, modules taken depth first, so that directives stand in the order in
/// which the declarations stand in the source.
pub open spec fn directive_set(items: Seq<SourceItemView>, style: LinkerArgStyle) -> Seq<Seq<char>>
    decreases items,
{
    if items.len() == 0 {
        Seq::empty()
    } else {
        directive_set(items.drop_last(), style) + item_directives(items.last(), style)
    }
}

/// The notices for an item and everything nested in it.
pub open spec fn item_notices(item: SourceItemView) -> Seq<Seq<char>>
    decreases item,
{
    match item {
        SourceItemView::Module { items } => notices(items),
        _ => own_notices(item),
    }
}

/// The notices for a sequence of items, in source order.
pub open spec fn notices(items: Seq<SourceItemView>) -> Seq<Seq<char>>
    decreases items,
{
    if items.len() == 0 {
        Seq::empty()
    } else {
        notices(items.drop_last()) + item_notices(items.last())
    }
}

/// What discovery has found so far.
pub struct Findings {
    /// The linker family that directives are written for.
    pub style: LinkerArgStyle,
    /// The directives, in discovery order.
    pub directives: Seq<Seq<char>>,
    /// The notices about annotations that could not be read, in discovery
    /// order.
    pub notices: Seq<Seq<char>>,
}

impl Findings {
    /// The findings before any item has been seen.
    pub open spec fn none(style: LinkerArgStyle) -> Findings {
        Findings { style, directives: Seq::empty(), notices: Seq::empty() }
    }

    /// These findings followed by more directives and notices.
    pub open spec fn with(self, directives: Seq<Seq<char>>, notices: Seq<Seq<char>>) -> Findings {
        Findings {
            style: self.style,
            directives: self.directives + directives,
            notices: self.notices + notices,
        }
    }
}

/// The visitor that finds foreign functions and writes their directives as it
/// is shown the items of a tree.
#[derive(Debug, PartialEq, Eq)]
pub struct Extractor {
    /// The linker family that directives are written for.
    pub style: LinkerArgStyle,
    /// The directives found so far, in discovery order.
    pub directives: Vec<String>,
    /// The notices about annotations that could not be read, in discovery
    /// order.
    pub notices: Vec<String>,
}

impl DeepView for Extractor {
    type V = Findings;

    open spec fn deep_view(&self) -> Findings {
        Findings {
            style: self.style,
            directives: self.directives.deep_view(),
            notices: self.notices.deep_view(),
        }
    }
}

impl Extractor {
    /// An extractor that has seen nothing yet.
    pub fn new(style: LinkerArgStyle) -> (extractor: Extractor)
        ensures
            extractor.deep_view() == Findings::none(style),
    {
        let extractor = Extractor { style, directives: Vec::new(), notices: Vec::new() };
        assert(extractor.directives.deep_view() =~= Seq::empty());
        assert(extractor.notices.deep_view() =~= Seq::empty());
        extractor
    }

    /// Handles one declaration of an `extern "C"` block: resolves the symbol of
    /// a function and adds its directive, with a notice if its rename
    /// annotation could not be read.
    pub fn visit_declaration(&mut self, declaration: &Declaration)
        ensures
            final(self).deep_view() == old(self).deep_view().with(
                declaration_directives(declaration.deep_view(), old(self).style),
                declaration_notices(declaration.deep_view()),
            ),
    {
        match declaration {
            Declaration::Function(function) => {
                match function.rename_failure() {
                    Some(failure) => {
                        let notice = String::from_str("Error parsing meta for link_name ").concat(
                            failure.message.as_str(),
                        );
                        self.notices.push(notice);
                    },
                    None => {},
                }
                let symbol = resolve_symbol(
                    function.identifier.as_str(),
                    function.override_name(),
                    self.style,
                );
                strict_link_symbol(&mut self.directives, symbol, self.style);
                assert(self.notices.deep_view() =~= old(self).notices.deep_view()
                    + declaration_notices(declaration.deep_view()));
            },
            Declaration::Other => {
                assert(self.directives.deep_view() =~= old(self).directives.deep_view()
                    + Seq::<Seq<char>>::empty());
                assert(self.notices.deep_view() =~= old(self).notices.deep_view()
                    + Seq::<Seq<char>>::empty());
            },
        }
    }

    /// Handles the declarations of an `extern "C"` block, in order.
    pub fn visit_block(&mut self, declarations: &Vec<Declaration>)
        ensures
            final(self).deep_view() == old(self).deep_view().with(
                block_directives(declarations.deep_view(), old(self).style),
                block_notices(declarations.deep_view()),
            ),
    {
        let ghost start = self.deep_view();
        let ghost all = declarations.deep_view();
        let ghost directives_of = |d: DeclarationView| declaration_directives(d, start.style);
        let ghost notices_of = |d: DeclarationView| declaration_notices(d);
        let mut i: usize = 0;
        assert(self.deep_view() =~= start.with(
            all.take(0).flat_map(directives_of),
            all.take(0).flat_map(notices_of),
        ));
        while i < declarations.len()
            invariant
                i <= declarations.len(),
                all == declarations.deep_view(),
                directives_of == |d: DeclarationView| declaration_directives(d, start.style),
                notices_of == |d: DeclarationView| declaration_notices(d),
                self.deep_view() == start.with(
                    all.take(i as int).flat_map(directives_of),
                    all.take(i as int).flat_map(notices_of),
                ),
            decreases declarations.len() - i,
        {
            self.visit_declaration(&declarations[i]);
            proof {
                let declaration = all[i as int];
                assert(declaration == declarations[i as int].deep_view());
                all.lemma_flat_map_take_append(directives_of, i as int);
                all.lemma_flat_map_take_append(notices_of, i as int);
                assert(directives_of(declaration) == declaration_directives(
                    declaration,
                    start.style,
                ));
                assert(notices_of(declaration) == declaration_notices(declaration));
                let after = self.deep_view();
                assert(after.directives =~= start.directives + all.take(i as int + 1).flat_map(
                    directives_of,
                ));
                assert(after.notices =~= start.notices + all.take(i as int + 1).flat_map(
                    notices_of,
                ));
            }
            i += 1;
        }
        assert(all.take(declarations.len() as int) =~= all);
    }
}

impl ItemVisitor for Extractor {
    type Gathered = Findings;

    open spec fn gathered(&self) -> Findings {
        self.deep_view()
    }

    open spec fn after(gathered: Findings, item: SourceItemView) -> Findings {
        gathered.with(own_directives(item, gathered.style), own_notices(item))
    }

    /// Looks at one item: an `extern "C"` block has its declarations handled,
    /// any other item is passed over.
    fn visit(&mut self, item: &SourceItem) {
        match item {
            SourceItem::ExternBlock { abi_tag, declarations } => {
                let is_c = match abi_tag {
                    Some(tag) => same_text(tag.as_str(), "C"),
                    None => false,
                };
                if is_c {
                    self.visit_block(declarations);
                } else {
                    assert(self.deep_view() =~= old(self).deep_view().with(
                        Seq::empty(),
                        Seq::empty(),
                    ));
                }
            },
            _ => {
                assert(self.deep_view() =~= old(self).deep_view().with(Seq::empty(), Seq::empty()));
            },
        }
    }
}

/// Walking an item adds the directives and notices for the item and for
/// everything nested in it.
pub proof fn lemma_walk_item(found: Findings, item: SourceItemView)
    ensures
        after_all::<Extractor>(found, visit_order(item)) == found.with(
            item_directives(item, found.style),
            item_notices(item),
        ),
    decreases item,
{
    let order = visit_order(item);
    match item {
        SourceItemView::Module { items } => {
            lemma_walk_items(found, items);
            let inner = after_all::<Extractor>(found, visit_order_of(items));
            assert(order.drop_last() =~= visit_order_of(items));
            assert(order.last() == item);
            assert(after_all::<Extractor>(found, order) == Extractor::after(inner, item));
            assert(inner.with(Seq::empty(), Seq::empty()).directives =~= inner.directives);
            assert(inner.with(Seq::empty(), Seq::empty()).notices =~= inner.notices);
        },
        _ => {
            assert(order.drop_last() =~= Seq::<SourceItemView>::empty());
            assert(order.last() == item);
            reveal_with_fuel(Seq::fold_left, 2);
            assert(after_all::<Extractor>(found, order) == Extractor::after(found, item));
        },
    }
}

/// Walking each of a sequence of items in turn adds their directive set and
/// their notices.
pub proof fn lemma_walk_items(found: Findings, items: Seq<SourceItemView>)
    ensures
        after_all::<Extractor>(found, visit_order_of(items)) == found.with(
            directive_set(items, found.style),
            notices(items),
        ),
    decreases items,
{
    if items.len() == 0 {
        assert(found.with(Seq::empty(), Seq::empty()).directives =~= found.directives);
        assert(found.with(Seq::empty(), Seq::empty()).notices =~= found.notices);
    } else {
        let front = items.drop_last();
        let last = items.last();
        lemma_walk_items(found, front);
        let middle = after_all::<Extractor>(found, visit_order_of(front));
        lemma_walk_item(middle, last);
        lemma_after_all_concat::<Extractor>(found, visit_order_of(front), visit_order(last));
        let end = after_all::<Extractor>(found, visit_order_of(items));
        assert(end.directives =~= found.directives + directive_set(items, found.style));
        assert(end.notices =~= found.notices + notices(items));
    }
}

/// Finds every function declared in an `extern "C"` block of `items`, at any
/// depth, and returns the directives that require their symbols, in source
/// order, together with the notices about rename annotations that could not
/// be read.
pub fn discover(items: &Vec<SourceItem>, style: LinkerArgStyle) -> (found: Extractor)
    ensures
        found.style == style,
        found.directives.deep_view() == directive_set(items.deep_view(), style),
        found.notices.deep_view() == notices(items.deep_view()),
{
    let mut extractor = Extractor::new(style);
    let ghost start = extractor.deep_view();
    let ghost all = items.deep_view();
    let mut i: usize = 0;
    while i < items.len()
        invariant
            i <= items.len(),
            all == items.deep_view(),
            start == Findings::none(style),
            extractor.deep_view() == after_all::<Extractor>(
                start,
                visit_order_of(all.take(i as int)),
            ),
        decreases items.len() - i,
    {
        call_recurse(&items[i], &mut extractor);
        proof {
            let seen = all.take(i as int);
            let next = all.take(i as int + 1);
            assert(next.drop_last() =~= seen);
            assert(next.last() == items[i as int].deep_view());
            lemma_after_all_concat::<Extractor>(
                start,
                visit_order_of(seen),
                visit_order(items[i as int].deep_view()),
            );
        }
        i += 1;
    }
    proof {
        assert(all.take(items.len() as int) =~= all);
        lemma_walk_items(start, all);
        assert(extractor.directives.deep_view() =~= directive_set(all, style));
        assert(extractor.notices.deep_view() =~= notices(all));
    }
    extractor
}

} // verus!
