//! What holds of discovery, resolution and the pipeline as a whole.

use vstd::prelude::*;
use crate::directive::{directive_lines, directive_text};
use crate::extractor::{
    block_directives, declaration_directives, declaration_symbol, directive_set, is_c_abi,
    item_directives,
};
use crate::extractor::notices;
use crate::literal::unreadable_literal;
use crate::pipeline::{after_parsing, next_step, ActionView, EventView, StateView};
use crate::source::{lexed_literals, parsed_source};
use crate::style::{style_of_target, LinkerArgStyle};
use crate::symbol::{base_name, linker_format, resolved_symbol};
use crate::tree::{DeclarationView, ForeignFunctionDeclView, SourceItemView};

verus! {

/// The function that a declaration of an `extern` block declares, if it is a
/// function.
pub open spec fn declared_function(declaration: DeclarationView) -> Seq<ForeignFunctionDeclView> {
    match declaration {
        DeclarationView::Function(function) => seq![function],
        DeclarationView::Other => Seq::empty(),
    }
}

/// The functions among the declarations of an `extern` block, in order.
pub open spec fn block_functions(declarations: Seq<DeclarationView>) -> Seq<
    ForeignFunctionDeclView,
> {
    declarations.flat_map(|d: DeclarationView| declared_function(d))
}

/// The functions that an item declares for C, with everything nested in it:
/// those of an `extern "C"` block, and those of the items of a module.
pub open spec fn item_functions(item: SourceItemView) -> Seq<ForeignFunctionDeclView>
    decreases item,
{
    match item {
        SourceItemView::Module { items } => foreign_functions(items),
        SourceItemView::ExternBlock { abi_tag, declarations } => if is_c_abi(abi_tag) {
            block_functions(declarations)
        } else {
            Seq::empty()
        },
        SourceItemView::Other => Seq::empty(),
    }
}

/// Every function declared in an `extern "C"` block of `items`, at any depth,
/// in source order.
pub open spec fn foreign_functions(items: Seq<SourceItemView>) -> Seq<ForeignFunctionDeclView>
    decreases items,
{
    if items.len() == 0 {
        Seq::empty()
    } else {
        foreign_functions(items.drop_last()) + item_functions(items.last())
    }
}

/// The lines that a function adds to the directive set.
pub open spec fn function_lines(style: LinkerArgStyle) -> spec_fn(ForeignFunctionDeclView) -> Seq<
    Seq<char>,
> {
    |function: ForeignFunctionDeclView| directive_lines(declaration_symbol(function, style), style)
}

/// The directive that requires the symbol of a function.
pub open spec fn function_directive(style: LinkerArgStyle) -> spec_fn(
    ForeignFunctionDeclView,
) -> Seq<char> {
    |function: ForeignFunctionDeclView| directive_text(declaration_symbol(function, style), style)
}

proof fn lemma_flat_map_concat<A, B>(first: Seq<A>, second: Seq<A>, f: spec_fn(A) -> Seq<B>)
    ensures
        (first + second).flat_map(f) == first.flat_map(f) + second.flat_map(f),
    decreases second.len(),
{
    if second.len() == 0 {
        assert(first + second =~= first);
        assert(second.flat_map(f) =~= Seq::<B>::empty());
        assert(first.flat_map(f) + second.flat_map(f) =~= first.flat_map(f));
    } else {
        let front = second.drop_last();
        let last = second.last();
        lemma_flat_map_concat(first, front, f);
        assert(second =~= front.push(last));
        assert(first + second =~= (first + front).push(last));
        (first + front).lemma_flat_map_push(f, last);
        front.lemma_flat_map_push(f, last);
        assert((first + second).flat_map(f) =~= first.flat_map(f) + second.flat_map(f));
    }
}

proof fn lemma_block_lines(declarations: Seq<DeclarationView>, style: LinkerArgStyle)
    ensures
        block_directives(declarations, style) == block_functions(declarations).flat_map(
            function_lines(style),
        ),
    decreases declarations.len(),
{
    let directives_of = |d: DeclarationView| declaration_directives(d, style);
    let function_of = |d: DeclarationView| declared_function(d);
    if declarations.len() == 0 {
        assert(declarations.flat_map(directives_of) =~= Seq::<Seq<char>>::empty());
        assert(declarations.flat_map(function_of) =~= Seq::<ForeignFunctionDeclView>::empty());
        assert(Seq::<ForeignFunctionDeclView>::empty().flat_map(function_lines(style))
            =~= Seq::<Seq<char>>::empty());
    } else {
        let front = declarations.drop_last();
        let last = declarations.last();
        lemma_block_lines(front, style);
        assert(declarations =~= front.push(last));
        front.lemma_flat_map_push(directives_of, last);
        front.lemma_flat_map_push(function_of, last);
        lemma_flat_map_concat(
            block_functions(front),
            declared_function(last),
            function_lines(style),
        );
        match last {
            DeclarationView::Function(function) => {
                declared_function(last).lemma_flat_map_singleton(function_lines(style));
            },
            DeclarationView::Other => {
                assert(declared_function(last).flat_map(function_lines(style))
                    =~= Seq::<Seq<char>>::empty());
            },
        }
    }
}

proof fn lemma_item_lines(item: SourceItemView, style: LinkerArgStyle)
    ensures
        item_directives(item, style) == item_functions(item).flat_map(function_lines(style)),
    decreases item,
{
    match item {
        SourceItemView::Module { items } => {
            lemma_directive_per_function(items, style);
        },
        SourceItemView::ExternBlock { abi_tag, declarations } => {
            if is_c_abi(abi_tag) {
                lemma_block_lines(declarations, style);
            } else {
                assert(item_functions(item).flat_map(function_lines(style))
                    =~= Seq::<Seq<char>>::empty());
            }
        },
        SourceItemView::Other => {
            assert(item_functions(item).flat_map(function_lines(style))
                =~= Seq::<Seq<char>>::empty());
        },
    }
}

/// The directive set holds the lines of each function declared in an
/// `extern "C"` block, in source order, and nothing else: no line comes from a
/// block of another ABI or from any other item.
pub proof fn lemma_directive_per_function(items: Seq<SourceItemView>, style: LinkerArgStyle)
    ensures
        directive_set(items, style) == foreign_functions(items).flat_map(function_lines(style)),
    decreases items,
{
    if items.len() == 0 {
        assert(foreign_functions(items).flat_map(function_lines(style))
            =~= Seq::<Seq<char>>::empty());
    } else {
        lemma_directive_per_function(items.drop_last(), style);
        lemma_item_lines(items.last(), style);
        lemma_flat_map_concat(
            foreign_functions(items.drop_last()),
            item_functions(items.last()),
            function_lines(style),
        );
    }
}

/// Where no function resolves to the empty symbol, the directive set has
/// exactly one entry per function declared in an `extern "C"` block: entry `i`
/// is the directive for the `i`-th such function.
pub proof fn lemma_one_directive_per_function(items: Seq<SourceItemView>, style: LinkerArgStyle)
    requires
        forall|i: int|
            0 <= i < foreign_functions(items).len() ==> declaration_symbol(
                #[trigger] foreign_functions(items)[i],
                style,
            ).len() > 0,
    ensures
        directive_set(items, style) == foreign_functions(items).map_values(
            function_directive(style),
        ),
        directive_set(items, style).len() == foreign_functions(items).len(),
{
    lemma_directive_per_function(items, style);
    lemma_single_lines(foreign_functions(items), style);
}

proof fn lemma_single_lines(functions: Seq<ForeignFunctionDeclView>, style: LinkerArgStyle)
    requires
        forall|i: int|
            0 <= i < functions.len() ==> declaration_symbol(#[trigger] functions[i], style).len()
                > 0,
    ensures
        functions.flat_map(function_lines(style)) == functions.map_values(
            function_directive(style),
        ),
    decreases functions.len(),
{
    if functions.len() == 0 {
        assert(functions.flat_map(function_lines(style)) =~= Seq::<Seq<char>>::empty());
        assert(functions.map_values(function_directive(style)) =~= Seq::<Seq<char>>::empty());
    } else {
        let front = functions.drop_last();
        let last = functions.last();
        assert forall|i: int| 0 <= i < front.len() implies declaration_symbol(
            #[trigger] front[i],
            style,
        ).len() > 0 by {
            assert(front[i] == functions[i]);
        }
        lemma_single_lines(front, style);
        assert(functions =~= front.push(last));
        front.lemma_flat_map_push(function_lines(style), last);
        assert(function_lines(style)(last) =~= seq![function_directive(style)(last)]);
        assert(functions.map_values(function_directive(style)) =~= front.map_values(
            function_directive(style),
        ).push(function_directive(style)(last)));
        assert(functions.flat_map(function_lines(style)) =~= functions.map_values(
            function_directive(style),
        ));
    }
}

/// An `extern` block of another ABI than C, and an item that is neither a
/// module nor an `extern` block, add nothing to the directive set.
pub proof fn lemma_other_items_add_nothing(item: SourceItemView, style: LinkerArgStyle)
    requires
        match item {
            SourceItemView::Module { .. } => false,
            SourceItemView::ExternBlock { abi_tag, .. } => !is_c_abi(abi_tag),
            SourceItemView::Other => true,
        },
    ensures
        item_directives(item, style).len() == 0,
{
}

/// The directive set follows the order of the source: the directives of the
/// items of `first` come before those of `second`, each in its own order.
pub proof fn lemma_directive_set_concat(
    first: Seq<SourceItemView>,
    second: Seq<SourceItemView>,
    style: LinkerArgStyle,
)
    ensures
        directive_set(first + second, style) == directive_set(first, style) + directive_set(
            second,
            style,
        ),
    decreases second.len(),
{
    if second.len() == 0 {
        assert(first + second =~= first);
        assert(directive_set(first, style) + directive_set(second, style) =~= directive_set(
            first,
            style,
        ));
    } else {
        lemma_directive_set_concat(first, second.drop_last(), style);
        assert((first + second).drop_last() =~= first + second.drop_last());
        assert((first + second).last() == second.last());
        assert(directive_set(first + second, style) =~= directive_set(first, style)
            + directive_set(second, style));
    }
}

/// A module stands for the items of its body, depth first: where a module
/// stands between two runs of items, its directives stand between theirs.
pub proof fn lemma_module_is_walked_in_place(
    before: Seq<SourceItemView>,
    body: Seq<SourceItemView>,
    after: Seq<SourceItemView>,
    style: LinkerArgStyle,
)
    ensures
        directive_set(before + seq![SourceItemView::Module { items: body }] + after, style)
            == directive_set(before + body + after, style),
{
    let module = seq![SourceItemView::Module { items: body }];
    lemma_directive_set_concat(before + module, after, style);
    lemma_directive_set_concat(before, module, style);
    lemma_directive_set_concat(before + body, after, style);
    lemma_directive_set_concat(before, body, style);
    assert(module.drop_last() =~= Seq::<SourceItemView>::empty());
    assert(directive_set(module.drop_last(), style) =~= Seq::<Seq<char>>::empty());
    assert(item_directives(module.last(), style) == directive_set(body, style));
    assert(directive_set(module, style) =~= directive_set(body, style));
}

/// Discovery depends on the items and the linker family alone: two directive
/// sets found for the same input are the same, line for line.
pub proof fn lemma_discovery_is_deterministic(
    items: Seq<SourceItemView>,
    style: LinkerArgStyle,
    first: Seq<Seq<char>>,
    second: Seq<Seq<char>>,
)
    requires
        first == directive_set(items, style),
        second == directive_set(items, style),
    ensures
        first == second,
{
}

/// A rename annotation with a name takes precedence: the symbol is resolved
/// from that name, whatever the identifier is.
pub proof fn lemma_override_takes_precedence(
    identifier: Seq<char>,
    other_identifier: Seq<char>,
    name: Seq<char>,
    style: LinkerArgStyle,
)
    requires
        name.len() > 0,
    ensures
        base_name(identifier, Some(name)) == name,
        resolved_symbol(identifier, Some(name), style) == resolved_symbol(
            other_identifier,
            Some(name),
            style,
        ),
{
}

/// A target of the Apple vendor uses the BSD linker syntax, whatever its ABI
/// environment is.
pub proof fn lemma_apple_vendor_decides(abi_environment: Option<Seq<char>>)
    ensures
        style_of_target(Some("apple"@), abi_environment) == LinkerArgStyle::BsdLd,
{
}

/// Only Microsoft's linker has names corrected, and only names whose second
/// character is the mangling marker: those lose their first character.
pub proof fn lemma_decoration_rule(symbol: Seq<char>, style: LinkerArgStyle)
    ensures
        style != LinkerArgStyle::Msvc ==> linker_format(symbol, style) == symbol,
        symbol.len() < 2 || symbol[1] != '?' ==> linker_format(symbol, style) == symbol,
        style == LinkerArgStyle::Msvc && symbol.len() >= 2 && symbol[1] == '?' ==> {
            &&& linker_format(symbol, style).len() == symbol.len() - 1
            &&& forall|i: int|
                0 <= i < symbol.len() - 1 ==> linker_format(symbol, style)[i] == symbol[i + 1]
        },
{
}

/// The empty symbol adds no line to a directive set, and every other symbol
/// adds exactly one.
pub proof fn lemma_empty_symbol_adds_nothing(
    set: Seq<Seq<char>>,
    symbol: Seq<char>,
    style: LinkerArgStyle,
)
    ensures
        symbol.len() == 0 ==> set + directive_lines(symbol, style) == set,
        symbol.len() > 0 ==> (set + directive_lines(symbol, style)).len() == set.len() + 1,
{
}

/// The states and actions of a run: the state that a sequence of events leads
/// to from `state`, and the actions asked for on the way.
pub open spec fn run(state: StateView, events: Seq<EventView>, style: LinkerArgStyle) -> (
    StateView,
    Seq<ActionView>,
)
    decreases events.len(),
{
    if events.len() == 0 {
        (state, Seq::empty())
    } else {
        let (middle, actions) = run(state, events.drop_last(), style);
        let (next, action) = next_step(middle, events.last(), style);
        (next, actions.push(action))
    }
}

/// A run that has expanded text at hand ends within three steps. Where the
/// text is a Rust file that the parser can read, the run is done and has
/// handed over the directive set of the items of that file, whole and in
/// discovery order, in its last step; where it is not, the run has failed in
/// its first step and has handed over nothing.
pub proof fn lemma_run_emits_the_directive_set(text: Seq<char>, style: LinkerArgStyle)
    ensures
        run(
            StateView::Parsing { text },
            seq![EventView::Proceed, EventView::Proceed, EventView::Proceed],
            style,
        ) == match after_parsing(text).0 {
            StateView::Walking { items } => (
                StateView::Done,
                seq![
                    ActionView::Continue,
                    ActionView::Continue,
                    ActionView::Emit {
                        directives: directive_set(items, style),
                        notices: notices(items),
                    },
                ],
            ),
            _ => (
                after_parsing(text).0,
                seq![after_parsing(text).1, ActionView::Nothing, ActionView::Nothing],
            ),
        },
        after_parsing(text).0 is Walking || after_parsing(text).0 is Failed,
        after_parsing(text).0 is Walking <==> unreadable_literal(lexed_literals(text)) is None
            && parsed_source(text) is Ok,
        after_parsing(text).0 is Walking ==> after_parsing(text).0->items == parsed_source(
            text,
        )->Ok_0,
{
    let start = StateView::Parsing { text };
    let three = seq![EventView::Proceed, EventView::Proceed, EventView::Proceed];
    let two = seq![EventView::Proceed, EventView::Proceed];
    let one = seq![EventView::Proceed];
    assert(three.drop_last() =~= two);
    assert(two.drop_last() =~= one);
    assert(one.drop_last() =~= Seq::<EventView>::empty());
    assert(run(start, Seq::empty(), style) == (start, Seq::<ActionView>::empty()));
    let first = next_step(start, EventView::Proceed, style);
    assert(run(start, one, style).0 == first.0);
    assert(run(start, one, style).1 =~= seq![first.1]);
    let second = next_step(first.0, EventView::Proceed, style);
    assert(run(start, two, style).0 == second.0);
    assert(run(start, two, style).1 =~= seq![first.1, second.1]);
    let third = next_step(second.0, EventView::Proceed, style);
    assert(run(start, three, style).0 == third.0);
    assert(run(start, three, style).1 =~= seq![first.1, second.1, third.1]);
}

/// The directive set is handed over in one piece and only at the end: the one
/// step that asks for it to be written out leaves `Emitting` for `Done`, and a
/// step that fails asks for nothing to be written.
pub proof fn lemma_failure_emits_nothing(state: StateView, event: EventView, style: LinkerArgStyle)
    ensures
        next_step(state, event, style).1 is Emit ==> state is Emitting && next_step(
            state,
            event,
            style,
        ).0 is Done,
        next_step(state, event, style).0 is Failed ==> !(next_step(state, event, style).1 is Emit),
        state is Done || state is Failed ==> next_step(state, event, style) == (
            state,
            ActionView::Nothing,
        ),
{
}

/// A run in which the directive set was written out is done: no run that ends
/// in failure has written any of it.
pub proof fn lemma_failed_run_wrote_nothing(
    state: StateView,
    events: Seq<EventView>,
    style: LinkerArgStyle,
)
    ensures
        (exists|i: int|
            0 <= i < run(state, events, style).1.len() && run(state, events, style).1[i] is Emit)
            ==> run(state, events, style).0 is Done,
        run(state, events, style).0 is Failed ==> forall|i: int|
            0 <= i < run(state, events, style).1.len() ==> !(run(state, events, style).1[i]
                is Emit),
    decreases events.len(),
{
    if events.len() > 0 {
        lemma_failed_run_wrote_nothing(state, events.drop_last(), style);
        let (middle, actions) = run(state, events.drop_last(), style);
        lemma_failure_emits_nothing(middle, events.last(), style);
        let (next, action) = next_step(middle, events.last(), style);
        let all = run(state, events, style).1;
        assert(all == actions.push(action));
        if exists|i: int| 0 <= i < all.len() && all[i] is Emit {
            let i = choose|i: int| 0 <= i < all.len() && all[i] is Emit;
            if i < actions.len() {
                assert(actions[i] is Emit);
                assert(middle is Done);
            }
        }
    }
}

} // verus!
