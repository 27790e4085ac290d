use strict_linking::tree::{Declaration, SourceItem, SourceItemView};
use strict_linking::walker::{call_recurse, ItemVisitor};

/// Records a short name for every item it is shown.
struct Recorder {
    seen: Vec<String>,
}

impl ItemVisitor for Recorder {
    type Gathered = ();

    fn gathered(&self) {}

    fn after(_gathered: (), _item: SourceItemView) {}

    fn visit(&mut self, item: &SourceItem) {
        let name = match item {
            SourceItem::Module { items } => format!("module({})", items.len()),
            SourceItem::ExternBlock { abi_tag, .. } => format!("block({:?})", abi_tag),
            SourceItem::Other => String::from("other"),
        };
        self.seen.push(name);
    }
}

fn walk(item: &SourceItem) -> Vec<String> {
    let mut recorder = Recorder { seen: Vec::new() };
    call_recurse(item, &mut recorder);
    recorder.seen
}

fn block(abi: &str) -> SourceItem {
    SourceItem::ExternBlock { abi_tag: Some(abi.to_string()), declarations: vec![Declaration::Other] }
}

#[test]
fn plain_item_is_visited_once() {
    assert_eq!(walk(&SourceItem::Other), vec!["other"]);
    assert_eq!(walk(&block("C")), vec!["block(Some(\"C\"))"]);
}

#[test]
fn empty_module_is_visited_itself() {
    assert_eq!(walk(&SourceItem::Module { items: vec![] }), vec!["module(0)"]);
}

#[test]
fn children_come_before_their_module() {
    let module = SourceItem::Module { items: vec![block("a"), SourceItem::Other, block("b")] };
    assert_eq!(
        walk(&module),
        vec!["block(Some(\"a\"))", "other", "block(Some(\"b\"))", "module(3)"]
    );
}

#[test]
fn nested_modules_are_walked_depth_first() {
    let inner = SourceItem::Module { items: vec![block("x"), block("y")] };
    let deeper = SourceItem::Module {
        items: vec![SourceItem::Module { items: vec![block("z")] }],
    };
    let outer = SourceItem::Module { items: vec![block("w"), inner, SourceItem::Other, deeper] };
    assert_eq!(
        walk(&outer),
        vec![
            "block(Some(\"w\"))",
            "block(Some(\"x\"))",
            "block(Some(\"y\"))",
            "module(2)",
            "other",
            "block(Some(\"z\"))",
            "module(1)",
            "module(1)",
            "module(4)",
        ]
    );
}

#[test]
fn walking_twice_visits_the_same_items() {
    let module = SourceItem::Module {
        items: vec![block("a"), SourceItem::Module { items: vec![block("b")] }],
    };
    assert_eq!(walk(&module), walk(&module));
}
