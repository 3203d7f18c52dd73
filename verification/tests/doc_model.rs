use doc_model::item::{Item, ItemUtils};
use doc_model::model::{
    CrateDoc, Doc, EnumDoc, ImplDoc, Implementation, Index, IndexEntry, ItemDoc, ItemTag,
    MethodDoc, ModDoc, NmodDoc, Page, Section, SimpleItemDoc, StructDoc, TraitDoc, VariantDoc,
};
use doc_model::pages::PageUtils;

fn item(id: i64, name: &str) -> ItemDoc {
    ItemDoc {
        id,
        name: name.to_string(),
        path: Vec::new(),
        brief: None,
        desc: None,
        sections: Vec::new(),
        reexport: false,
    }
}

fn simple(id: i64, name: &str) -> SimpleItemDoc {
    SimpleItemDoc { item: item(id, name), sig: None }
}

fn module(id: i64, name: &str, items: Vec<ItemTag>) -> ModDoc {
    ModDoc { item: item(id, name), items, index: None }
}

fn struct_doc(id: i64, name: &str) -> StructDoc {
    StructDoc { item: item(id, name), fields: Vec::new(), sig: None }
}

#[test]
fn crate_doc_returns_the_crate_page_payload() {
    let root = module(1, "top", Vec::new());
    let d = Doc {
        pages: vec![
            Page::ItemPage(ItemTag::FnTag(simple(7, "f"))),
            Page::CratePage(CrateDoc { topmod: root }),
            Page::ItemPage(ItemTag::ModTag(module(2, "sub", Vec::new()))),
        ],
    };
    let c = d.CrateDoc();
    assert!(c.topmod.item == item(1, "top"));
    assert!(c.topmod.items.is_empty());
}

#[test]
fn cratemod_equals_crate_doc_root_module() {
    let inner = ItemTag::FnTag(simple(3, "f"));
    let root = module(1, "top", vec![inner]);
    let d = Doc { pages: vec![Page::CratePage(CrateDoc { topmod: root })] };
    let a = d.cratemod();
    let b = d.CrateDoc().topmod;
    assert!(a.item == b.item);
    assert_eq!(a.items.len(), b.items.len());
    assert!(a.items[0].item() == b.items[0].item());
    assert!(a.index.is_none() && b.index.is_none());
}

#[test]
fn scenario_crate_page_and_item_pages() {
    let a = module(10, "A", Vec::new());
    let f = simple(11, "f");
    let root = module(1, "top", vec![ItemTag::ModTag(module(10, "A", Vec::new()))]);
    let d = Doc {
        pages: vec![
            Page::CratePage(CrateDoc { topmod: root }),
            Page::ItemPage(ItemTag::ModTag(module(10, "A", Vec::new()))),
            Page::ItemPage(ItemTag::FnTag(simple(11, "f"))),
        ],
    };
    let mods = d.cratemod().mods();
    assert_eq!(mods.len(), 1);
    assert!(mods[0].item == a.item);
    let fns = d.pages.fns();
    assert_eq!(fns.len(), 1);
    assert!(fns[0] == f);
    assert_eq!(d.pages.traits().len(), 0);
}

#[test]
fn scenario_mixed_children_keep_order() {
    let f1 = simple(1, "f1");
    let s1 = struct_doc(2, "s1");
    let f2 = simple(3, "f2");
    let m = module(
        0,
        "m",
        vec![
            ItemTag::FnTag(simple(1, "f1")),
            ItemTag::StructTag(struct_doc(2, "s1")),
            ItemTag::FnTag(simple(3, "f2")),
        ],
    );
    let fns = m.fns();
    assert_eq!(fns.len(), 2);
    assert!(fns[0] == f1);
    assert!(fns[1] == f2);
    let structs = m.structs();
    assert_eq!(structs.len(), 1);
    assert!(structs[0] == s1);
}

#[test]
fn reexport_flag_participates_in_equality() {
    let a = item(5, "x");
    let mut b = item(5, "x");
    assert!(a == b);
    b.reexport = true;
    assert!(!(a == b));
    let sa = SimpleItemDoc { item: a, sig: Some("fn x()".to_string()) };
    let sb = SimpleItemDoc { item: b, sig: Some("fn x()".to_string()) };
    assert!(!(sa == sb));
}

#[test]
fn equality_covers_every_record_field() {
    let mut a = item(5, "x");
    a.path = vec!["top".to_string(), "x".to_string()];
    a.brief = Some("b".to_string());
    a.desc = Some("d".to_string());
    a.sections = vec![Section { header: "h".to_string(), body: "t".to_string() }];
    let mut b = item(5, "x");
    b.path = vec!["top".to_string(), "x".to_string()];
    b.brief = Some("b".to_string());
    b.desc = Some("d".to_string());
    b.sections = vec![Section { header: "h".to_string(), body: "t".to_string() }];
    assert!(a == b);
    b.sections = vec![Section { header: "h".to_string(), body: "u".to_string() }];
    assert!(!(a == b));
    b.sections = a.sections.clone();
    assert!(a == b);
    b.path = vec!["top".to_string()];
    assert!(!(a == b));
}

#[test]
fn accessors_agree_with_the_item_record() {
    let mut rec = item(42, "thing");
    rec.path = vec!["top".to_string(), "thing".to_string()];
    rec.brief = Some("short".to_string());
    rec.desc = Some("long".to_string());
    rec.sections = vec![Section { header: "H".to_string(), body: "B".to_string() }];
    let t = ItemTag::FnTag(SimpleItemDoc { item: rec, sig: None });
    assert_eq!(t.id(), t.item().id);
    assert!(t.name() == t.item().name);
    assert!(t.path() == t.item().path);
    assert!(t.brief() == t.item().brief);
    assert!(t.desc() == t.item().desc);
    let secs = t.sections();
    assert_eq!(secs.len(), 1);
    assert!(secs[0] == t.item().sections[0]);
    assert_eq!(t.id(), 42);
    assert_eq!(t.name(), "thing");
}

#[test]
fn accessors_dispatch_on_every_variant() {
    let tags = vec![
        ItemTag::ModTag(module(1, "m", Vec::new())),
        ItemTag::NmodTag(NmodDoc { item: item(2, "n"), fns: Vec::new(), index: None }),
        ItemTag::ConstTag(simple(3, "c")),
        ItemTag::FnTag(simple(4, "f")),
        ItemTag::EnumTag(EnumDoc { item: item(5, "e"), variants: Vec::new() }),
        ItemTag::TraitTag(TraitDoc { item: item(6, "t"), methods: Vec::new() }),
        ItemTag::ImplTag(ImplDoc {
            item: item(7, "i"),
            bounds_str: None,
            trait_types: Vec::new(),
            self_ty: None,
            methods: Vec::new(),
        }),
        ItemTag::TyTag(simple(8, "y")),
        ItemTag::StructTag(struct_doc(9, "s")),
    ];
    for (k, tag) in tags.iter().enumerate() {
        assert_eq!(tag.id(), (k + 1) as i64);
        assert!(tag.name() == tag.item().name);
    }
}

#[test]
fn empty_module_narrows_to_empty() {
    let m = module(1, "empty", Vec::new());
    assert_eq!(m.mods().len(), 0);
    assert_eq!(m.nmods().len(), 0);
    assert_eq!(m.fns().len(), 0);
    assert_eq!(m.consts().len(), 0);
    assert_eq!(m.enums().len(), 0);
    assert_eq!(m.traits().len(), 0);
    assert_eq!(m.impls().len(), 0);
    assert_eq!(m.types().len(), 0);
    assert_eq!(m.structs().len(), 0);
}

#[test]
fn one_child_of_each_variant_narrows_to_one() {
    let m = module(
        0,
        "m",
        vec![
            ItemTag::ModTag(module(1, "m1", Vec::new())),
            ItemTag::NmodTag(NmodDoc { item: item(2, "n1"), fns: Vec::new(), index: None }),
            ItemTag::ConstTag(simple(3, "c1")),
            ItemTag::FnTag(simple(4, "f1")),
            ItemTag::EnumTag(EnumDoc {
                item: item(5, "e1"),
                variants: vec![VariantDoc { name: "V".to_string(), desc: None, sig: None }],
            }),
            ItemTag::TraitTag(TraitDoc {
                item: item(6, "t1"),
                methods: vec![MethodDoc {
                    name: "meth".to_string(),
                    brief: None,
                    desc: None,
                    sections: Vec::new(),
                    sig: None,
                    implementation: Implementation::Required,
                }],
            }),
            ItemTag::ImplTag(ImplDoc {
                item: item(7, "i1"),
                bounds_str: None,
                trait_types: Vec::new(),
                self_ty: None,
                methods: Vec::new(),
            }),
            ItemTag::TyTag(simple(8, "y1")),
            ItemTag::StructTag(struct_doc(9, "s1")),
        ],
    );
    assert_eq!(m.mods().len(), 1);
    assert!(m.mods()[0].item == item(1, "m1"));
    assert_eq!(m.nmods().len(), 1);
    assert!(m.nmods()[0].item == item(2, "n1"));
    assert_eq!(m.consts().len(), 1);
    assert!(m.consts()[0] == simple(3, "c1"));
    assert_eq!(m.fns().len(), 1);
    assert!(m.fns()[0] == simple(4, "f1"));
    assert_eq!(m.enums().len(), 1);
    assert!(m.enums()[0].item == item(5, "e1"));
    assert_eq!(m.enums()[0].variants.len(), 1);
    assert_eq!(m.traits().len(), 1);
    assert!(m.traits()[0].item == item(6, "t1"));
    assert!(matches!(m.traits()[0].methods[0].implementation, Implementation::Required));
    assert_eq!(m.impls().len(), 1);
    assert!(m.impls()[0].item == item(7, "i1"));
    assert_eq!(m.types().len(), 1);
    assert!(m.types()[0] == simple(8, "y1"));
    assert_eq!(m.structs().len(), 1);
    assert!(m.structs()[0].item == item(9, "s1"));
}

#[test]
fn page_narrowing_covers_every_kind() {
    let pages = vec![
        Page::CratePage(CrateDoc { topmod: module(0, "top", Vec::new()) }),
        Page::ItemPage(ItemTag::ModTag(module(1, "m1", Vec::new()))),
        Page::ItemPage(ItemTag::NmodTag(NmodDoc {
            item: item(2, "n1"),
            fns: Vec::new(),
            index: None,
        })),
        Page::ItemPage(ItemTag::ConstTag(simple(3, "c1"))),
        Page::ItemPage(ItemTag::FnTag(simple(4, "f1"))),
        Page::ItemPage(ItemTag::EnumTag(EnumDoc { item: item(5, "e1"), variants: Vec::new() })),
        Page::ItemPage(ItemTag::TraitTag(TraitDoc { item: item(6, "t1"), methods: Vec::new() })),
        Page::ItemPage(ItemTag::ImplTag(ImplDoc {
            item: item(7, "i1"),
            bounds_str: None,
            trait_types: Vec::new(),
            self_ty: None,
            methods: Vec::new(),
        })),
        Page::ItemPage(ItemTag::TyTag(simple(8, "y1"))),
    ];
    assert_eq!(pages.mods().len(), 1);
    assert!(pages.mods()[0].item == item(1, "m1"));
    assert_eq!(pages.nmods().len(), 1);
    assert_eq!(pages.consts().len(), 1);
    assert!(pages.consts()[0] == simple(3, "c1"));
    assert_eq!(pages.fns().len(), 1);
    assert!(pages.fns()[0] == simple(4, "f1"));
    assert_eq!(pages.enums().len(), 1);
    assert_eq!(pages.traits().len(), 1);
    assert_eq!(pages.impls().len(), 1);
    assert_eq!(pages.types().len(), 1);
    assert!(pages.types()[0] == simple(8, "y1"));
}

#[test]
fn narrowing_an_already_narrowed_collection_changes_nothing() {
    let m = module(
        0,
        "m",
        vec![
            ItemTag::ModTag(module(1, "a", Vec::new())),
            ItemTag::FnTag(simple(2, "f")),
            ItemTag::ModTag(module(3, "b", Vec::new())),
        ],
    );
    let once = m.mods();
    let again = module(9, "wrap", once.iter().cloned().map(ItemTag::ModTag).collect()).mods();
    assert_eq!(once.len(), again.len());
    for (x, y) in once.iter().zip(again.iter()) {
        assert!(x.item == y.item);
        assert_eq!(x.items.len(), y.items.len());
    }
}

#[test]
fn index_rows_survive_a_module_copy() {
    let idx = Index {
        entries: vec![IndexEntry {
            kind: "Module".to_string(),
            name: "a".to_string(),
            brief: Some("short".to_string()),
            link: "#a".to_string(),
        }],
    };
    let m = ModDoc { item: item(1, "m"), items: Vec::new(), index: Some(idx) };
    let c = m.clone();
    let entries = &c.index.expect("index kept").entries;
    assert_eq!(entries.len(), 1);
    assert_eq!(entries[0].kind, "Module");
    assert_eq!(entries[0].name, "a");
    assert_eq!(entries[0].brief.as_deref(), Some("short"));
    assert_eq!(entries[0].link, "#a");
}

#[test]
fn a_crate_page_first_is_found_too() {
    let d = Doc {
        pages: vec![
            Page::CratePage(CrateDoc { topmod: module(0, "top", Vec::new()) }),
            Page::ItemPage(ItemTag::FnTag(simple(1, "f"))),
        ],
    };
    let c = d.CrateDoc();
    assert!(c.topmod.item == item(0, "top"));
}
