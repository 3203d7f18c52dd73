//! Narrowing over a document's page sequence: the same operation set as on a
//! module's children, matching an item page whose inner tag equals the target
//! variant.

use vstd::prelude::*;

use crate::model::{
    ConstDoc, EnumDoc, EnumDocView, FnDoc, ImplDoc, ImplDocView, ItemTag, ItemTagView, ModDoc,
    ModDocView, NmodDoc, NmodDocView, Page, PageView, SimpleItemDocView, TraitDoc, TraitDocView,
    TyDoc,
};

verus! {

/// Selector for module item pages.
pub open spec fn page_mod_sel() -> spec_fn(PageView) -> Option<ModDocView> {
    |p: PageView|
        match p {
            PageView::ItemPage(ItemTagView::ModTag(d)) => Some(d),
            _ => None,
        }
}

/// The module payloads among a sequence of pages, in order.
pub open spec fn page_mods_of(s: Seq<PageView>) -> Seq<ModDocView> {
    s.filter_map(page_mod_sel())
}

/// Selector for foreign-module item pages.
pub open spec fn page_nmod_sel() -> spec_fn(PageView) -> Option<NmodDocView> {
    |p: PageView|
        match p {
            PageView::ItemPage(ItemTagView::NmodTag(d)) => Some(d),
            _ => None,
        }
}

/// The foreign-module payloads among a sequence of pages, in order.
pub open spec fn page_nmods_of(s: Seq<PageView>) -> Seq<NmodDocView> {
    s.filter_map(page_nmod_sel())
}

/// Selector for function item pages.
pub open spec fn page_fn_sel() -> spec_fn(PageView) -> Option<SimpleItemDocView> {
    |p: PageView|
        match p {
            PageView::ItemPage(ItemTagView::FnTag(d)) => Some(d),
            _ => None,
        }
}

/// The function payloads among a sequence of pages, in order.
pub open spec fn page_fns_of(s: Seq<PageView>) -> Seq<SimpleItemDocView> {
    s.filter_map(page_fn_sel())
}

/// Selector for constant item pages.
pub open spec fn page_const_sel() -> spec_fn(PageView) -> Option<SimpleItemDocView> {
    |p: PageView|
        match p {
            PageView::ItemPage(ItemTagView::ConstTag(d)) => Some(d),
            _ => None,
        }
}

/// The constant payloads among a sequence of pages, in order.
pub open spec fn page_consts_of(s: Seq<PageView>) -> Seq<SimpleItemDocView> {
    s.filter_map(page_const_sel())
}

/// Selector for enum item pages.
pub open spec fn page_enum_sel() -> spec_fn(PageView) -> Option<EnumDocView> {
    |p: PageView|
        match p {
            PageView::ItemPage(ItemTagView::EnumTag(d)) => Some(d),
            _ => None,
        }
}

/// The enum payloads among a sequence of pages, in order.
pub open spec fn page_enums_of(s: Seq<PageView>) -> Seq<EnumDocView> {
    s.filter_map(page_enum_sel())
}

/// Selector for trait item pages.
pub open spec fn page_trait_sel() -> spec_fn(PageView) -> Option<TraitDocView> {
    |p: PageView|
        match p {
            PageView::ItemPage(ItemTagView::TraitTag(d)) => Some(d),
            _ => None,
        }
}

/// The trait payloads among a sequence of pages, in order.
pub open spec fn page_traits_of(s: Seq<PageView>) -> Seq<TraitDocView> {
    s.filter_map(page_trait_sel())
}

/// Selector for implementation item pages.
pub open spec fn page_impl_sel() -> spec_fn(PageView) -> Option<ImplDocView> {
    |p: PageView|
        match p {
            PageView::ItemPage(ItemTagView::ImplTag(d)) => Some(d),
            _ => None,
        }
}

/// The implementation payloads among a sequence of pages, in order.
pub open spec fn page_impls_of(s: Seq<PageView>) -> Seq<ImplDocView> {
    s.filter_map(page_impl_sel())
}

/// Selector for type-alias item pages.
pub open spec fn page_ty_sel() -> spec_fn(PageView) -> Option<SimpleItemDocView> {
    |p: PageView|
        match p {
            PageView::ItemPage(ItemTagView::TyTag(d)) => Some(d),
            _ => None,
        }
}

/// The type-alias payloads among a sequence of pages, in order.
pub open spec fn page_tys_of(s: Seq<PageView>) -> Seq<SimpleItemDocView> {
    s.filter_map(page_ty_sel())
}

/// Typed projections out of a page sequence.
pub trait PageUtils {
    /// The views of the pages the projections run over.
    spec fn pages_view(&self) -> Seq<PageView>;

    /// The module item pages, in order.
    fn mods(&self) -> (r: Vec<ModDoc>)
        ensures
            r.deep_view() == page_mods_of(self.pages_view()),
    ;

    /// The foreign-module item pages, in order.
    fn nmods(&self) -> (r: Vec<NmodDoc>)
        ensures
            r.deep_view() == page_nmods_of(self.pages_view()),
    ;

    /// The function item pages, in order.
    fn fns(&self) -> (r: Vec<FnDoc>)
        ensures
            r.deep_view() == page_fns_of(self.pages_view()),
    ;

    /// The constant item pages, in order.
    fn consts(&self) -> (r: Vec<ConstDoc>)
        ensures
            r.deep_view() == page_consts_of(self.pages_view()),
    ;

    /// The enum item pages, in order.
    fn enums(&self) -> (r: Vec<EnumDoc>)
        ensures
            r.deep_view() == page_enums_of(self.pages_view()),
    ;

    /// The trait item pages, in order.
    fn traits(&self) -> (r: Vec<TraitDoc>)
        ensures
            r.deep_view() == page_traits_of(self.pages_view()),
    ;

    /// The implementation item pages, in order.
    fn impls(&self) -> (r: Vec<ImplDoc>)
        ensures
            r.deep_view() == page_impls_of(self.pages_view()),
    ;

    /// The type-alias item pages, in order.
    fn types(&self) -> (r: Vec<TyDoc>)
        ensures
            r.deep_view() == page_tys_of(self.pages_view()),
    ;
}

impl PageUtils for Vec<Page> {
    open spec fn pages_view(&self) -> Seq<PageView> {
        self.deep_view()
    }

    fn mods(&self) -> (r: Vec<ModDoc>) {
        let mut r: Vec<ModDoc> = Vec::new();
        let mut i: usize = 0;
        while i < self.len()
            invariant
                i <= self@.len(),
                r.deep_view() == page_mods_of(self.deep_view().take(i as int)),
            decreases self@.len() - i,
        {
            let ghost s = self.deep_view();
            let ghost prev = r.deep_view();
            match &self[i] {
                Page::ItemPage(ItemTag::ModTag(d)) => {
                    let c = d.clone();
                    let ghost cv = c@;
                    r.push(c);
                    proof {
                        assert(r.deep_view() =~= prev.push(cv));
                    }
                },
                _ => {},
            }
            proof {
                s.lemma_filter_map_take_succ(page_mod_sel(), i as int);
                assert(r.deep_view() =~= page_mods_of(s.take(i as int + 1)));
            }
            i += 1;
        }
        proof {
            assert(self.deep_view().take(self@.len() as int) =~= self.deep_view());
        }
        r
    }

    fn nmods(&self) -> (r: Vec<NmodDoc>) {
        let mut r: Vec<NmodDoc> = Vec::new();
        let mut i: usize = 0;
        while i < self.len()
            invariant
                i <= self@.len(),
                r.deep_view() == page_nmods_of(self.deep_view().take(i as int)),
            decreases self@.len() - i,
        {
            let ghost s = self.deep_view();
            let ghost prev = r.deep_view();
            match &self[i] {
                Page::ItemPage(ItemTag::NmodTag(d)) => {
                    let c = d.clone();
                    let ghost cv = c@;
                    r.push(c);
                    proof {
                        assert(r.deep_view() =~= prev.push(cv));
                    }
                },
                _ => {},
            }
            proof {
                s.lemma_filter_map_take_succ(page_nmod_sel(), i as int);
                assert(r.deep_view() =~= page_nmods_of(s.take(i as int + 1)));
            }
            i += 1;
        }
        proof {
            assert(self.deep_view().take(self@.len() as int) =~= self.deep_view());
        }
        r
    }

    fn fns(&self) -> (r: Vec<FnDoc>) {
        let mut r: Vec<FnDoc> = Vec::new();
        let mut i: usize = 0;
        while i < self.len()
            invariant
                i <= self@.len(),
                r.deep_view() == page_fns_of(self.deep_view().take(i as int)),
            decreases self@.len() - i,
        {
            let ghost s = self.deep_view();
            let ghost prev = r.deep_view();
            match &self[i] {
                Page::ItemPage(ItemTag::FnTag(d)) => {
                    let c = d.clone();
                    let ghost cv = c@;
                    r.push(c);
                    proof {
                        assert(r.deep_view() =~= prev.push(cv));
                    }
                },
                _ => {},
            }
            proof {
                s.lemma_filter_map_take_succ(page_fn_sel(), i as int);
                assert(r.deep_view() =~= page_fns_of(s.take(i as int + 1)));
            }
            i += 1;
        }
        proof {
            assert(self.deep_view().take(self@.len() as int) =~= self.deep_view());
        }
        r
    }

    fn consts(&self) -> (r: Vec<ConstDoc>) {
        let mut r: Vec<ConstDoc> = Vec::new();
        let mut i: usize = 0;
        while i < self.len()
            invariant
                i <= self@.len(),
                r.deep_view() == page_consts_of(self.deep_view().take(i as int)),
            decreases self@.len() - i,
        {
            let ghost s = self.deep_view();
            let ghost prev = r.deep_view();
            match &self[i] {
                Page::ItemPage(ItemTag::ConstTag(d)) => {
                    let c = d.clone();
                    let ghost cv = c@;
                    r.push(c);
                    proof {
                        assert(r.deep_view() =~= prev.push(cv));
                    }
                },
                _ => {},
            }
            proof {
                s.lemma_filter_map_take_succ(page_const_sel(), i as int);
                assert(r.deep_view() =~= page_consts_of(s.take(i as int + 1)));
            }
            i += 1;
        }
        proof {
            assert(self.deep_view().take(self@.len() as int) =~= self.deep_view());
        }
        r
    }

    fn enums(&self) -> (r: Vec<EnumDoc>) {
        let mut r: Vec<EnumDoc> = Vec::new();
        let mut i: usize = 0;
        while i < self.len()
            invariant
                i <= self@.len(),
                r.deep_view() == page_enums_of(self.deep_view().take(i as int)),
            decreases self@.len() - i,
        {
            let ghost s = self.deep_view();
            let ghost prev = r.deep_view();
            match &self[i] {
                Page::ItemPage(ItemTag::EnumTag(d)) => {
                    let c = d.clone();
                    let ghost cv = c@;
                    r.push(c);
                    proof {
                        assert(r.deep_view() =~= prev.push(cv));
                    }
                },
                _ => {},
            }
            proof {
                s.lemma_filter_map_take_succ(page_enum_sel(), i as int);
                assert(r.deep_view() =~= page_enums_of(s.take(i as int + 1)));
            }
            i += 1;
        }
        proof {
            assert(self.deep_view().take(self@.len() as int) =~= self.deep_view());
        }
        r
    }

    fn traits(&self) -> (r: Vec<TraitDoc>) {
        let mut r: Vec<TraitDoc> = Vec::new();
        let mut i: usize = 0;
        while i < self.len()
            invariant
                i <= self@.len(),
                r.deep_view() == page_traits_of(self.deep_view().take(i as int)),
            decreases self@.len() - i,
        {
            let ghost s = self.deep_view();
            let ghost prev = r.deep_view();
            match &self[i] {
                Page::ItemPage(ItemTag::TraitTag(d)) => {
                    let c = d.clone();
                    let ghost cv = c@;
                    r.push(c);
                    proof {
                        assert(r.deep_view() =~= prev.push(cv));
                    }
                },
                _ => {},
            }
            proof {
                s.lemma_filter_map_take_succ(page_trait_sel(), i as int);
                assert(r.deep_view() =~= page_traits_of(s.take(i as int + 1)));
            }
            i += 1;
        }
        proof {
            assert(self.deep_view().take(self@.len() as int) =~= self.deep_view());
        }
        r
    }

    fn impls(&self) -> (r: Vec<ImplDoc>) {
        let mut r: Vec<ImplDoc> = Vec::new();
        let mut i: usize = 0;
        while i < self.len()
            invariant
                i <= self@.len(),
                r.deep_view() == page_impls_of(self.deep_view().take(i as int)),
            decreases self@.len() - i,
        {
            let ghost s = self.deep_view();
            let ghost prev = r.deep_view();
            match &self[i] {
                Page::ItemPage(ItemTag::ImplTag(d)) => {
                    let c = d.clone();
                    let ghost cv = c@;
                    r.push(c);
                    proof {
                        assert(r.deep_view() =~= prev.push(cv));
                    }
                },
                _ => {},
            }
            proof {
                s.lemma_filter_map_take_succ(page_impl_sel(), i as int);
                assert(r.deep_view() =~= page_impls_of(s.take(i as int + 1)));
            }
            i += 1;
        }
        proof {
            assert(self.deep_view().take(self@.len() as int) =~= self.deep_view());
        }
        r
    }

    fn types(&self) -> (r: Vec<TyDoc>) {
        let mut r: Vec<TyDoc> = Vec::new();
        let mut i: usize = 0;
        while i < self.len()
            invariant
                i <= self@.len(),
                r.deep_view() == page_tys_of(self.deep_view().take(i as int)),
            decreases self@.len() - i,
        {
            let ghost s = self.deep_view();
            let ghost prev = r.deep_view();
            match &self[i] {
                Page::ItemPage(ItemTag::TyTag(d)) => {
                    let c = d.clone();
                    let ghost cv = c@;
                    r.push(c);
                    proof {
                        assert(r.deep_view() =~= prev.push(cv));
                    }
                },
                _ => {},
            }
            proof {
                s.lemma_filter_map_take_succ(page_ty_sel(), i as int);
                assert(r.deep_view() =~= page_tys_of(s.take(i as int + 1)));
            }
            i += 1;
        }
        proof {
            assert(self.deep_view().take(self@.len() as int) =~= self.deep_view());
        }
        r
    }
}

} // verus!
