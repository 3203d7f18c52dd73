//! The entity records of the document model and their mathematical views.
//!
//! Every documentable entity embeds an [`ItemDoc`] record; the closed unions
//! [`ItemTag`] and [`Page`] make heterogeneous containers possible. Each
//! executable type has a ghost counterpart (`...View`) over `Seq`, `Option`
//! and `int`, reached through `View`/`DeepView`; all contracts in this crate
//! are stated over those views.

use vstd::prelude::*;

verus! {

/// Identity assigned by the producer; unique within one document.
pub type AstId = i64;

/// One markdown-derived block of prose: a header and its body.
pub struct Section {
    pub header: String,
    pub body: String,
}

/// Ghost counterpart of [`Section`].
#[verifier::ext_equal]
pub struct SectionView {
    pub header: Seq<char>,
    pub body: Seq<char>,
}

impl View for Section {
    type V = SectionView;

    open spec fn view(&self) -> SectionView {
        SectionView { header: self.header@, body: self.body@ }
    }
}

impl DeepView for Section {
    type V = SectionView;

    open spec fn deep_view(&self) -> SectionView {
        self.view()
    }
}

impl Clone for Section {
    fn clone(&self) -> (r: Self)
        ensures
            r@ == self@,
    {
        Section { header: self.header.clone(), body: self.body.clone() }
    }
}

/// The attribute bundle shared by every documentable entity: identity, name,
/// hierarchical path, optional brief and long description, ordered sections,
/// and the reexport flag marking an entity reachable via more than one path.
pub struct ItemDoc {
    pub id: AstId,
    pub name: String,
    pub path: Vec<String>,
    pub brief: Option<String>,
    pub desc: Option<String>,
    pub sections: Vec<Section>,
    pub reexport: bool,
}

/// Ghost counterpart of [`ItemDoc`].
#[verifier::ext_equal]
pub struct ItemDocView {
    pub id: int,
    pub name: Seq<char>,
    pub path: Seq<Seq<char>>,
    pub brief: Option<Seq<char>>,
    pub desc: Option<Seq<char>>,
    pub sections: Seq<SectionView>,
    pub reexport: bool,
}

impl View for ItemDoc {
    type V = ItemDocView;

    open spec fn view(&self) -> ItemDocView {
        ItemDocView {
            id: self.id as int,
            name: self.name@,
            path: self.path.deep_view(),
            brief: self.brief.deep_view(),
            desc: self.desc.deep_view(),
            sections: self.sections.deep_view(),
            reexport: self.reexport,
        }
    }
}

impl DeepView for ItemDoc {
    type V = ItemDocView;

    open spec fn deep_view(&self) -> ItemDocView {
        self.view()
    }
}

impl Clone for ItemDoc {
    fn clone(&self) -> (r: Self)
        ensures
            r@ == self@,
    {
        let r = ItemDoc {
            id: self.id,
            name: self.name.clone(),
            path: self.path.clone(),
            brief: self.brief.clone(),
            desc: self.desc.clone(),
            sections: self.sections.clone(),
            reexport: self.reexport,
        };
        proof {
            assert(r.path.deep_view() =~= self.path.deep_view());
            assert(r.sections.deep_view() =~= self.sections.deep_view());
        }
        r
    }
}

/// The reexport flag participates in structural equality: two item records
/// that agree on every other field but differ on that flag are unequal.
pub proof fn lemma_reexport_in_equality(a: ItemDocView, b: ItemDocView)
    requires
        a.id == b.id,
        a.name == b.name,
        a.path == b.path,
        a.brief == b.brief,
        a.desc == b.desc,
        a.sections == b.sections,
        a.reexport != b.reexport,
    ensures
        a != b,
{
}

/// Single-signature entities (constants, functions, type aliases): the shared
/// record plus an optional signature text.
pub struct SimpleItemDoc {
    pub item: ItemDoc,
    pub sig: Option<String>,
}

/// Ghost counterpart of [`SimpleItemDoc`].
#[verifier::ext_equal]
pub struct SimpleItemDocView {
    pub item: ItemDocView,
    pub sig: Option<Seq<char>>,
}

impl View for SimpleItemDoc {
    type V = SimpleItemDocView;

    open spec fn view(&self) -> SimpleItemDocView {
        SimpleItemDocView { item: self.item@, sig: self.sig.deep_view() }
    }
}

impl DeepView for SimpleItemDoc {
    type V = SimpleItemDocView;

    open spec fn deep_view(&self) -> SimpleItemDocView {
        self.view()
    }
}

impl Clone for SimpleItemDoc {
    fn clone(&self) -> (r: Self)
        ensures
            r@ == self@,
    {
        SimpleItemDoc { item: self.item.clone(), sig: self.sig.clone() }
    }
}

pub type ConstDoc = SimpleItemDoc;

pub type FnDoc = SimpleItemDoc;

pub type TyDoc = SimpleItemDoc;

/// Whether a trait method is required of implementors or comes with a
/// provided default.
#[derive(Clone, Copy, PartialEq, Eq, Structural, Debug)]
pub enum Implementation {
    Required,
    Provided,
}

/// One variant of a documented enum.
pub struct VariantDoc {
    pub name: String,
    pub desc: Option<String>,
    pub sig: Option<String>,
}

/// Ghost counterpart of [`VariantDoc`].
#[verifier::ext_equal]
pub struct VariantDocView {
    pub name: Seq<char>,
    pub desc: Option<Seq<char>>,
    pub sig: Option<Seq<char>>,
}

impl View for VariantDoc {
    type V = VariantDocView;

    open spec fn view(&self) -> VariantDocView {
        VariantDocView {
            name: self.name@,
            desc: self.desc.deep_view(),
            sig: self.sig.deep_view(),
        }
    }
}

impl DeepView for VariantDoc {
    type V = VariantDocView;

    open spec fn deep_view(&self) -> VariantDocView {
        self.view()
    }
}

impl Clone for VariantDoc {
    fn clone(&self) -> (r: Self)
        ensures
            r@ == self@,
    {
        VariantDoc { name: self.name.clone(), desc: self.desc.clone(), sig: self.sig.clone() }
    }
}

/// One method of a trait or of an implementation block.
pub struct MethodDoc {
    pub name: String,
    pub brief: Option<String>,
    pub desc: Option<String>,
    pub sections: Vec<Section>,
    pub sig: Option<String>,
    pub implementation: Implementation,
}

/// Ghost counterpart of [`MethodDoc`].
#[verifier::ext_equal]
pub struct MethodDocView {
    pub name: Seq<char>,
    pub brief: Option<Seq<char>>,
    pub desc: Option<Seq<char>>,
    pub sections: Seq<SectionView>,
    pub sig: Option<Seq<char>>,
    pub implementation: Implementation,
}

impl View for MethodDoc {
    type V = MethodDocView;

    open spec fn view(&self) -> MethodDocView {
        MethodDocView {
            name: self.name@,
            brief: self.brief.deep_view(),
            desc: self.desc.deep_view(),
            sections: self.sections.deep_view(),
            sig: self.sig.deep_view(),
            implementation: self.implementation,
        }
    }
}

impl DeepView for MethodDoc {
    type V = MethodDocView;

    open spec fn deep_view(&self) -> MethodDocView {
        self.view()
    }
}

impl Clone for MethodDoc {
    fn clone(&self) -> (r: Self)
        ensures
            r@ == self@,
    {
        let r = MethodDoc {
            name: self.name.clone(),
            brief: self.brief.clone(),
            desc: self.desc.clone(),
            sections: self.sections.clone(),
            sig: self.sig.clone(),
            implementation: self.implementation,
        };
        proof {
            assert(r.sections.deep_view() =~= self.sections.deep_view());
        }
        r
    }
}

/// One row of a link table: the kind label, the entity's name, its brief, and
/// a format-specific link target.
pub struct IndexEntry {
    pub kind: String,
    pub name: String,
    pub brief: Option<String>,
    pub link: String,
}

/// Ghost counterpart of [`IndexEntry`].
#[verifier::ext_equal]
pub struct IndexEntryView {
    pub kind: Seq<char>,
    pub name: Seq<char>,
    pub brief: Option<Seq<char>>,
    pub link: Seq<char>,
}

impl View for IndexEntry {
    type V = IndexEntryView;

    open spec fn view(&self) -> IndexEntryView {
        IndexEntryView {
            kind: self.kind@,
            name: self.name@,
            brief: self.brief.deep_view(),
            link: self.link@,
        }
    }
}

impl DeepView for IndexEntry {
    type V = IndexEntryView;

    open spec fn deep_view(&self) -> IndexEntryView {
        self.view()
    }
}

impl Clone for IndexEntry {
    fn clone(&self) -> (r: Self)
        ensures
            r@ == self@,
    {
        IndexEntry {
            kind: self.kind.clone(),
            name: self.name.clone(),
            brief: self.brief.clone(),
            link: self.link.clone(),
        }
    }
}

/// A flat, render-oriented link table attached to a container entity.
pub struct Index {
    pub entries: Vec<IndexEntry>,
}

/// Ghost counterpart of [`Index`].
#[verifier::ext_equal]
pub struct IndexView {
    pub entries: Seq<IndexEntryView>,
}

impl View for Index {
    type V = IndexView;

    open spec fn view(&self) -> IndexView {
        IndexView { entries: self.entries.deep_view() }
    }
}

impl DeepView for Index {
    type V = IndexView;

    open spec fn deep_view(&self) -> IndexView {
        self.view()
    }
}

impl Clone for Index {
    fn clone(&self) -> (r: Self)
        ensures
            r@ == self@,
    {
        let r = Index { entries: self.entries.clone() };
        proof {
            assert(r.entries.deep_view() =~= self.entries.deep_view());
        }
        r
    }
}

/// A documented enum: the shared record plus its variants, in order.
pub struct EnumDoc {
    pub item: ItemDoc,
    pub variants: Vec<VariantDoc>,
}

/// Ghost counterpart of [`EnumDoc`].
#[verifier::ext_equal]
pub struct EnumDocView {
    pub item: ItemDocView,
    pub variants: Seq<VariantDocView>,
}

impl View for EnumDoc {
    type V = EnumDocView;

    open spec fn view(&self) -> EnumDocView {
        EnumDocView { item: self.item@, variants: self.variants.deep_view() }
    }
}

impl DeepView for EnumDoc {
    type V = EnumDocView;

    open spec fn deep_view(&self) -> EnumDocView {
        self.view()
    }
}

impl Clone for EnumDoc {
    fn clone(&self) -> (r: Self)
        ensures
            r@ == self@,
    {
        let r = EnumDoc { item: self.item.clone(), variants: self.variants.clone() };
        proof {
            assert(r.variants.deep_view() =~= self.variants.deep_view());
        }
        r
    }
}

/// A documented trait: the shared record plus its methods, in order.
pub struct TraitDoc {
    pub item: ItemDoc,
    pub methods: Vec<MethodDoc>,
}

/// Ghost counterpart of [`TraitDoc`].
#[verifier::ext_equal]
pub struct TraitDocView {
    pub item: ItemDocView,
    pub methods: Seq<MethodDocView>,
}

impl View for TraitDoc {
    type V = TraitDocView;

    open spec fn view(&self) -> TraitDocView {
        TraitDocView { item: self.item@, methods: self.methods.deep_view() }
    }
}

impl DeepView for TraitDoc {
    type V = TraitDocView;

    open spec fn deep_view(&self) -> TraitDocView {
        self.view()
    }
}

impl Clone for TraitDoc {
    fn clone(&self) -> (r: Self)
        ensures
            r@ == self@,
    {
        let r = TraitDoc { item: self.item.clone(), methods: self.methods.clone() };
        proof {
            assert(r.methods.deep_view() =~= self.methods.deep_view());
        }
        r
    }
}

/// A documented implementation block: bounds, trait-type names, self type,
/// and its methods.
pub struct ImplDoc {
    pub item: ItemDoc,
    pub bounds_str: Option<String>,
    pub trait_types: Vec<String>,
    pub self_ty: Option<String>,
    pub methods: Vec<MethodDoc>,
}

/// Ghost counterpart of [`ImplDoc`].
#[verifier::ext_equal]
pub struct ImplDocView {
    pub item: ItemDocView,
    pub bounds_str: Option<Seq<char>>,
    pub trait_types: Seq<Seq<char>>,
    pub self_ty: Option<Seq<char>>,
    pub methods: Seq<MethodDocView>,
}

impl View for ImplDoc {
    type V = ImplDocView;

    open spec fn view(&self) -> ImplDocView {
        ImplDocView {
            item: self.item@,
            bounds_str: self.bounds_str.deep_view(),
            trait_types: self.trait_types.deep_view(),
            self_ty: self.self_ty.deep_view(),
            methods: self.methods.deep_view(),
        }
    }
}

impl DeepView for ImplDoc {
    type V = ImplDocView;

    open spec fn deep_view(&self) -> ImplDocView {
        self.view()
    }
}

impl Clone for ImplDoc {
    fn clone(&self) -> (r: Self)
        ensures
            r@ == self@,
    {
        let r = ImplDoc {
            item: self.item.clone(),
            bounds_str: self.bounds_str.clone(),
            trait_types: self.trait_types.clone(),
            self_ty: self.self_ty.clone(),
            methods: self.methods.clone(),
        };
        proof {
            assert(r.trait_types.deep_view() =~= self.trait_types.deep_view());
            assert(r.methods.deep_view() =~= self.methods.deep_view());
        }
        r
    }
}

/// A documented struct: the shared record plus its field names.
pub struct StructDoc {
    pub item: ItemDoc,
    pub fields: Vec<String>,
    pub sig: Option<String>,
}

/// Ghost counterpart of [`StructDoc`].
#[verifier::ext_equal]
pub struct StructDocView {
    pub item: ItemDocView,
    pub fields: Seq<Seq<char>>,
    pub sig: Option<Seq<char>>,
}

impl View for StructDoc {
    type V = StructDocView;

    open spec fn view(&self) -> StructDocView {
        StructDocView {
            item: self.item@,
            fields: self.fields.deep_view(),
            sig: self.sig.deep_view(),
        }
    }
}

impl DeepView for StructDoc {
    type V = StructDocView;

    open spec fn deep_view(&self) -> StructDocView {
        self.view()
    }
}

impl Clone for StructDoc {
    fn clone(&self) -> (r: Self)
        ensures
            r@ == self@,
    {
        let r = StructDoc {
            item: self.item.clone(),
            fields: self.fields.clone(),
            sig: self.sig.clone(),
        };
        proof {
            assert(r.fields.deep_view() =~= self.fields.deep_view());
        }
        r
    }
}

/// A foreign (`extern`) module: the shared record plus its functions.
pub struct NmodDoc {
    pub item: ItemDoc,
    pub fns: Vec<FnDoc>,
    pub index: Option<Index>,
}

/// Ghost counterpart of [`NmodDoc`].
#[verifier::ext_equal]
pub struct NmodDocView {
    pub item: ItemDocView,
    pub fns: Seq<SimpleItemDocView>,
    pub index: Option<IndexView>,
}

impl View for NmodDoc {
    type V = NmodDocView;

    open spec fn view(&self) -> NmodDocView {
        NmodDocView {
            item: self.item@,
            fns: self.fns.deep_view(),
            index: self.index.deep_view(),
        }
    }
}

impl DeepView for NmodDoc {
    type V = NmodDocView;

    open spec fn deep_view(&self) -> NmodDocView {
        self.view()
    }
}

impl Clone for NmodDoc {
    fn clone(&self) -> (r: Self)
        ensures
            r@ == self@,
    {
        let r = NmodDoc {
            item: self.item.clone(),
            fns: self.fns.clone(),
            index: self.index.clone(),
        };
        proof {
            assert(r.fns.deep_view() =~= self.fns.deep_view());
        }
        r
    }
}

/// A module: the shared record plus its children, which may themselves be
/// modules, and an optional link table.
pub struct ModDoc {
    pub item: ItemDoc,
    pub items: Vec<ItemTag>,
    pub index: Option<Index>,
}

/// The closed union over all entity variants; a module's children are a
/// sequence of these.
pub enum ItemTag {
    ModTag(ModDoc),
    NmodTag(NmodDoc),
    ConstTag(ConstDoc),
    FnTag(FnDoc),
    EnumTag(EnumDoc),
    TraitTag(TraitDoc),
    ImplTag(ImplDoc),
    TyTag(TyDoc),
    StructTag(StructDoc),
}

/// Ghost counterpart of [`ModDoc`].
#[verifier::ext_equal]
pub struct ModDocView {
    pub item: ItemDocView,
    pub items: Seq<ItemTagView>,
    pub index: Option<IndexView>,
}

/// Ghost counterpart of [`ItemTag`].
#[verifier::ext_equal]
pub enum ItemTagView {
    ModTag(ModDocView),
    NmodTag(NmodDocView),
    ConstTag(SimpleItemDocView),
    FnTag(SimpleItemDocView),
    EnumTag(EnumDocView),
    TraitTag(TraitDocView),
    ImplTag(ImplDocView),
    TyTag(SimpleItemDocView),
    StructTag(StructDocView),
}

/// View of one child tag; mutually recursive with [`mod_view`] through the
/// module tree.
pub open spec fn tag_view(t: ItemTag) -> ItemTagView
    decreases t,
{
    match t {
        ItemTag::ModTag(m) => ItemTagView::ModTag(mod_view(m)),
        ItemTag::NmodTag(n) => ItemTagView::NmodTag(n@),
        ItemTag::ConstTag(c) => ItemTagView::ConstTag(c@),
        ItemTag::FnTag(f) => ItemTagView::FnTag(f@),
        ItemTag::EnumTag(e) => ItemTagView::EnumTag(e@),
        ItemTag::TraitTag(t) => ItemTagView::TraitTag(t@),
        ItemTag::ImplTag(i) => ItemTagView::ImplTag(i@),
        ItemTag::TyTag(t) => ItemTagView::TyTag(t@),
        ItemTag::StructTag(s) => ItemTagView::StructTag(s@),
    }
}

/// Views of a sequence of child tags, elementwise.
pub open spec fn tags_view(s: Seq<ItemTag>) -> Seq<ItemTagView>
    decreases s,
{
    Seq::new(
        s.len(),
        |i: int|
            if 0 <= i < s.len() {
                tag_view(s[i])
            } else {
                vstd::pervasive::arbitrary()
            },
    )
}

/// View of a module; mutually recursive with [`tag_view`].
pub open spec fn mod_view(m: ModDoc) -> ModDocView
    decreases m,
{
    ModDocView { item: m.item@, items: tags_view(m.items@), index: m.index.deep_view() }
}

impl View for ModDoc {
    type V = ModDocView;

    open spec fn view(&self) -> ModDocView {
        mod_view(*self)
    }
}

impl DeepView for ModDoc {
    type V = ModDocView;

    open spec fn deep_view(&self) -> ModDocView {
        mod_view(*self)
    }
}

impl View for ItemTag {
    type V = ItemTagView;

    open spec fn view(&self) -> ItemTagView {
        tag_view(*self)
    }
}

impl DeepView for ItemTag {
    type V = ItemTagView;

    open spec fn deep_view(&self) -> ItemTagView {
        tag_view(*self)
    }
}

impl Clone for ModDoc {
    fn clone(&self) -> (r: Self)
        ensures
            r@ == self@,
        decreases *self,
    {
        let mut items2: Vec<ItemTag> = Vec::new();
        let mut i: usize = 0;
        while i < self.items.len()
            invariant
                i <= self.items@.len(),
                items2@.len() == i,
                forall|j: int|
                    0 <= j < i ==> tag_view(#[trigger] items2@[j]) == tag_view(self.items@[j]),
            decreases self.items@.len() - i,
        {
            let t = self.items[i].clone();
            items2.push(t);
            i += 1;
        }
        let r = ModDoc { item: self.item.clone(), items: items2, index: self.index.clone() };
        proof {
            assert(tags_view(r.items@) =~= tags_view(self.items@));
        }
        r
    }
}

impl Clone for ItemTag {
    fn clone(&self) -> (r: Self)
        ensures
            r@ == self@,
        decreases *self,
    {
        match self {
            ItemTag::ModTag(m) => ItemTag::ModTag(m.clone()),
            ItemTag::NmodTag(n) => ItemTag::NmodTag(n.clone()),
            ItemTag::ConstTag(c) => ItemTag::ConstTag(c.clone()),
            ItemTag::FnTag(f) => ItemTag::FnTag(f.clone()),
            ItemTag::EnumTag(e) => ItemTag::EnumTag(e.clone()),
            ItemTag::TraitTag(t) => ItemTag::TraitTag(t.clone()),
            ItemTag::ImplTag(i) => ItemTag::ImplTag(i.clone()),
            ItemTag::TyTag(t) => ItemTag::TyTag(t.clone()),
            ItemTag::StructTag(s) => ItemTag::StructTag(s.clone()),
        }
    }
}

/// The crate root: it owns the top module.
pub struct CrateDoc {
    pub topmod: ModDoc,
}

/// Ghost counterpart of [`CrateDoc`].
#[verifier::ext_equal]
pub struct CrateDocView {
    pub topmod: ModDocView,
}

impl View for CrateDoc {
    type V = CrateDocView;

    open spec fn view(&self) -> CrateDocView {
        CrateDocView { topmod: self.topmod@ }
    }
}

impl DeepView for CrateDoc {
    type V = CrateDocView;

    open spec fn deep_view(&self) -> CrateDocView {
        self.view()
    }
}

impl Clone for CrateDoc {
    fn clone(&self) -> (r: Self)
        ensures
            r@ == self@,
    {
        CrateDoc { topmod: self.topmod.clone() }
    }
}

/// A top-level page: either the single crate-root page or one item's page.
pub enum Page {
    CratePage(CrateDoc),
    ItemPage(ItemTag),
}

/// Ghost counterpart of [`Page`].
#[verifier::ext_equal]
pub enum PageView {
    CratePage(CrateDocView),
    ItemPage(ItemTagView),
}

impl View for Page {
    type V = PageView;

    open spec fn view(&self) -> PageView {
        match *self {
            Page::CratePage(c) => PageView::CratePage(c@),
            Page::ItemPage(t) => PageView::ItemPage(tag_view(t)),
        }
    }
}

impl DeepView for Page {
    type V = PageView;

    open spec fn deep_view(&self) -> PageView {
        self.view()
    }
}

impl Clone for Page {
    fn clone(&self) -> (r: Self)
        ensures
            r@ == self@,
    {
        match self {
            Page::CratePage(c) => Page::CratePage(c.clone()),
            Page::ItemPage(t) => Page::ItemPage(t.clone()),
        }
    }
}

/// The whole output of one documentation run: an ordered sequence of pages.
pub struct Doc {
    pub pages: Vec<Page>,
}

/// Ghost counterpart of [`Doc`].
#[verifier::ext_equal]
pub struct DocView {
    pub pages: Seq<PageView>,
}

impl View for Doc {
    type V = DocView;

    open spec fn view(&self) -> DocView {
        DocView { pages: self.pages.deep_view() }
    }
}

impl DeepView for Doc {
    type V = DocView;

    open spec fn deep_view(&self) -> DocView {
        self.view()
    }
}

impl Clone for Doc {
    fn clone(&self) -> (r: Self)
        ensures
            r@ == self@,
    {
        let r = Doc { pages: self.pages.clone() };
        proof {
            assert(r.pages.deep_view() =~= self.pages.deep_view());
        }
        r
    }
}

} // verus!
