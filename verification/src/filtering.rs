//! Variant narrowing: projecting a heterogeneous ordered collection down to
//! the ordered sub-sequence of one variant's payloads.
//!
//! The single generic primitive is `Seq::filter_map` applied to a selector;
//! each selector recognises one variant of [`ItemTagView`] and hands back its
//! payload. The laws of narrowing (exactness, emptiness, homogeneity) are
//! proved once, generically, at the bottom of this module.

use vstd::prelude::*;
use vstd::seq_lib::group_seq_properties;

use crate::model::{
    ConstDoc, EnumDoc, EnumDocView, FnDoc, ImplDoc, ImplDocView, ItemTag, ItemTagView, ModDoc,
    ModDocView, NmodDoc, NmodDocView, SimpleItemDocView, StructDoc, StructDocView, TraitDoc,
    TraitDocView, TyDoc, mod_view, tags_view,
};

verus! {

/// Selector for module children.
pub open spec fn mod_sel() -> spec_fn(ItemTagView) -> Option<ModDocView> {
    |t: ItemTagView|
        match t {
            ItemTagView::ModTag(d) => Some(d),
            _ => None,
        }
}

/// Selector for foreign-module children.
pub open spec fn nmod_sel() -> spec_fn(ItemTagView) -> Option<NmodDocView> {
    |t: ItemTagView|
        match t {
            ItemTagView::NmodTag(d) => Some(d),
            _ => None,
        }
}

/// Selector for constant children.
pub open spec fn const_sel() -> spec_fn(ItemTagView) -> Option<SimpleItemDocView> {
    |t: ItemTagView|
        match t {
            ItemTagView::ConstTag(d) => Some(d),
            _ => None,
        }
}

/// Selector for function children.
pub open spec fn fn_sel() -> spec_fn(ItemTagView) -> Option<SimpleItemDocView> {
    |t: ItemTagView|
        match t {
            ItemTagView::FnTag(d) => Some(d),
            _ => None,
        }
}

/// Selector for enum children.
pub open spec fn enum_sel() -> spec_fn(ItemTagView) -> Option<EnumDocView> {
    |t: ItemTagView|
        match t {
            ItemTagView::EnumTag(d) => Some(d),
            _ => None,
        }
}

/// Selector for trait children.
pub open spec fn trait_sel() -> spec_fn(ItemTagView) -> Option<TraitDocView> {
    |t: ItemTagView|
        match t {
            ItemTagView::TraitTag(d) => Some(d),
            _ => None,
        }
}

/// Selector for implementation children.
pub open spec fn impl_sel() -> spec_fn(ItemTagView) -> Option<ImplDocView> {
    |t: ItemTagView|
        match t {
            ItemTagView::ImplTag(d) => Some(d),
            _ => None,
        }
}

/// Selector for type-alias children.
pub open spec fn ty_sel() -> spec_fn(ItemTagView) -> Option<SimpleItemDocView> {
    |t: ItemTagView|
        match t {
            ItemTagView::TyTag(d) => Some(d),
            _ => None,
        }
}

/// Selector for struct children.
pub open spec fn struct_sel() -> spec_fn(ItemTagView) -> Option<StructDocView> {
    |t: ItemTagView|
        match t {
            ItemTagView::StructTag(d) => Some(d),
            _ => None,
        }
}

/// The module payloads among a sequence of children, in order.
pub open spec fn mods_of(s: Seq<ItemTagView>) -> Seq<ModDocView> {
    s.filter_map(mod_sel())
}

/// The foreign-module payloads among a sequence of children, in order.
pub open spec fn nmods_of(s: Seq<ItemTagView>) -> Seq<NmodDocView> {
    s.filter_map(nmod_sel())
}

/// The constant payloads among a sequence of children, in order.
pub open spec fn consts_of(s: Seq<ItemTagView>) -> Seq<SimpleItemDocView> {
    s.filter_map(const_sel())
}

/// The function payloads among a sequence of children, in order.
pub open spec fn fns_of(s: Seq<ItemTagView>) -> Seq<SimpleItemDocView> {
    s.filter_map(fn_sel())
}

/// The enum payloads among a sequence of children, in order.
pub open spec fn enums_of(s: Seq<ItemTagView>) -> Seq<EnumDocView> {
    s.filter_map(enum_sel())
}

/// The trait payloads among a sequence of children, in order.
pub open spec fn traits_of(s: Seq<ItemTagView>) -> Seq<TraitDocView> {
    s.filter_map(trait_sel())
}

/// The implementation payloads among a sequence of children, in order.
pub open spec fn impls_of(s: Seq<ItemTagView>) -> Seq<ImplDocView> {
    s.filter_map(impl_sel())
}

/// The type-alias payloads among a sequence of children, in order.
pub open spec fn tys_of(s: Seq<ItemTagView>) -> Seq<SimpleItemDocView> {
    s.filter_map(ty_sel())
}

/// The struct payloads among a sequence of children, in order.
pub open spec fn structs_of(s: Seq<ItemTagView>) -> Seq<StructDocView> {
    s.filter_map(struct_sel())
}

impl ModDoc {
    /// The module children, in order.
    pub fn mods(&self) -> (r: Vec<ModDoc>)
        ensures
            r.deep_view() == mods_of(self@.items),
    {
        let mut r: Vec<ModDoc> = Vec::new();
        let mut i: usize = 0;
        while i < self.items.len()
            invariant
                i <= self.items@.len(),
                r.deep_view() == mods_of(tags_view(self.items@).take(i as int)),
            decreases self.items@.len() - i,
        {
            let ghost s = tags_view(self.items@);
            let ghost prev = r.deep_view();
            match &self.items[i] {
                ItemTag::ModTag(m) => {
                    let c = m.clone();
                    let ghost cv = mod_view(c);
                    r.push(c);
                    proof {
                        assert(r.deep_view() =~= prev.push(cv));
                    }
                },
                _ => {},
            }
            proof {
                s.lemma_filter_map_take_succ(mod_sel(), i as int);
                assert(r.deep_view() =~= mods_of(s.take(i as int + 1)));
            }
            i += 1;
        }
        proof {
            assert(tags_view(self.items@).take(self.items@.len() as int) =~= tags_view(
                self.items@,
            ));
        }
        r
    }

    /// The foreign-module children, in order.
    pub fn nmods(&self) -> (r: Vec<NmodDoc>)
        ensures
            r.deep_view() == nmods_of(self@.items),
    {
        let mut r: Vec<NmodDoc> = Vec::new();
        let mut i: usize = 0;
        while i < self.items.len()
            invariant
                i <= self.items@.len(),
                r.deep_view() == nmods_of(tags_view(self.items@).take(i as int)),
            decreases self.items@.len() - i,
        {
            let ghost s = tags_view(self.items@);
            let ghost prev = r.deep_view();
            match &self.items[i] {
                ItemTag::NmodTag(d) => {
                    let c = d.clone();
                    let ghost cv = c@;
                    r.push(c);
                    proof {
                        assert(r.deep_view() =~= prev.push(cv));
                    }
                },
                _ => {},
            }
            proof {
                s.lemma_filter_map_take_succ(nmod_sel(), i as int);
                assert(r.deep_view() =~= nmods_of(s.take(i as int + 1)));
            }
            i += 1;
        }
        proof {
            assert(tags_view(self.items@).take(self.items@.len() as int) =~= tags_view(
                self.items@,
            ));
        }
        r
    }

    /// The function children, in order.
    pub fn fns(&self) -> (r: Vec<FnDoc>)
        ensures
            r.deep_view() == fns_of(self@.items),
    {
        let mut r: Vec<FnDoc> = Vec::new();
        let mut i: usize = 0;
        while i < self.items.len()
            invariant
                i <= self.items@.len(),
                r.deep_view() == fns_of(tags_view(self.items@).take(i as int)),
            decreases self.items@.len() - i,
        {
            let ghost s = tags_view(self.items@);
            let ghost prev = r.deep_view();
            match &self.items[i] {
                ItemTag::FnTag(d) => {
                    let c = d.clone();
                    let ghost cv = c@;
                    r.push(c);
                    proof {
                        assert(r.deep_view() =~= prev.push(cv));
                    }
                },
                _ => {},
            }
            proof {
                s.lemma_filter_map_take_succ(fn_sel(), i as int);
                assert(r.deep_view() =~= fns_of(s.take(i as int + 1)));
            }
            i += 1;
        }
        proof {
            assert(tags_view(self.items@).take(self.items@.len() as int) =~= tags_view(
                self.items@,
            ));
        }
        r
    }

    /// The constant children, in order.
    pub fn consts(&self) -> (r: Vec<ConstDoc>)
        ensures
            r.deep_view() == consts_of(self@.items),
    {
        let mut r: Vec<ConstDoc> = Vec::new();
        let mut i: usize = 0;
        while i < self.items.len()
            invariant
                i <= self.items@.len(),
                r.deep_view() == consts_of(tags_view(self.items@).take(i as int)),
            decreases self.items@.len() - i,
        {
            let ghost s = tags_view(self.items@);
            let ghost prev = r.deep_view();
            match &self.items[i] {
                ItemTag::ConstTag(d) => {
                    let c = d.clone();
                    let ghost cv = c@;
                    r.push(c);
                    proof {
                        assert(r.deep_view() =~= prev.push(cv));
                    }
                },
                _ => {},
            }
            proof {
                s.lemma_filter_map_take_succ(const_sel(), i as int);
                assert(r.deep_view() =~= consts_of(s.take(i as int + 1)));
            }
            i += 1;
        }
        proof {
            assert(tags_view(self.items@).take(self.items@.len() as int) =~= tags_view(
                self.items@,
            ));
        }
        r
    }

    /// The enum children, in order.
    pub fn enums(&self) -> (r: Vec<EnumDoc>)
        ensures
            r.deep_view() == enums_of(self@.items),
    {
        let mut r: Vec<EnumDoc> = Vec::new();
        let mut i: usize = 0;
        while i < self.items.len()
            invariant
                i <= self.items@.len(),
                r.deep_view() == enums_of(tags_view(self.items@).take(i as int)),
            decreases self.items@.len() - i,
        {
            let ghost s = tags_view(self.items@);
            let ghost prev = r.deep_view();
            match &self.items[i] {
                ItemTag::EnumTag(d) => {
                    let c = d.clone();
                    let ghost cv = c@;
                    r.push(c);
                    proof {
                        assert(r.deep_view() =~= prev.push(cv));
                    }
                },
                _ => {},
            }
            proof {
                s.lemma_filter_map_take_succ(enum_sel(), i as int);
                assert(r.deep_view() =~= enums_of(s.take(i as int + 1)));
            }
            i += 1;
        }
        proof {
            assert(tags_view(self.items@).take(self.items@.len() as int) =~= tags_view(
                self.items@,
            ));
        }
        r
    }

    /// The trait children, in order.
    pub fn traits(&self) -> (r: Vec<TraitDoc>)
        ensures
            r.deep_view() == traits_of(self@.items),
    {
        let mut r: Vec<TraitDoc> = Vec::new();
        let mut i: usize = 0;
        while i < self.items.len()
            invariant
                i <= self.items@.len(),
                r.deep_view() == traits_of(tags_view(self.items@).take(i as int)),
            decreases self.items@.len() - i,
        {
            let ghost s = tags_view(self.items@);
            let ghost prev = r.deep_view();
            match &self.items[i] {
                ItemTag::TraitTag(d) => {
                    let c = d.clone();
                    let ghost cv = c@;
                    r.push(c);
                    proof {
                        assert(r.deep_view() =~= prev.push(cv));
                    }
                },
                _ => {},
            }
            proof {
                s.lemma_filter_map_take_succ(trait_sel(), i as int);
                assert(r.deep_view() =~= traits_of(s.take(i as int + 1)));
            }
            i += 1;
        }
        proof {
            assert(tags_view(self.items@).take(self.items@.len() as int) =~= tags_view(
                self.items@,
            ));
        }
        r
    }

    /// The implementation children, in order.
    pub fn impls(&self) -> (r: Vec<ImplDoc>)
        ensures
            r.deep_view() == impls_of(self@.items),
    {
        let mut r: Vec<ImplDoc> = Vec::new();
        let mut i: usize = 0;
        while i < self.items.len()
            invariant
                i <= self.items@.len(),
                r.deep_view() == impls_of(tags_view(self.items@).take(i as int)),
            decreases self.items@.len() - i,
        {
            let ghost s = tags_view(self.items@);
            let ghost prev = r.deep_view();
            match &self.items[i] {
                ItemTag::ImplTag(d) => {
                    let c = d.clone();
                    let ghost cv = c@;
                    r.push(c);
                    proof {
                        assert(r.deep_view() =~= prev.push(cv));
                    }
                },
                _ => {},
            }
            proof {
                s.lemma_filter_map_take_succ(impl_sel(), i as int);
                assert(r.deep_view() =~= impls_of(s.take(i as int + 1)));
            }
            i += 1;
        }
        proof {
            assert(tags_view(self.items@).take(self.items@.len() as int) =~= tags_view(
                self.items@,
            ));
        }
        r
    }

    /// The type-alias children, in order.
    pub fn types(&self) -> (r: Vec<TyDoc>)
        ensures
            r.deep_view() == tys_of(self@.items),
    {
        let mut r: Vec<TyDoc> = Vec::new();
        let mut i: usize = 0;
        while i < self.items.len()
            invariant
                i <= self.items@.len(),
                r.deep_view() == tys_of(tags_view(self.items@).take(i as int)),
            decreases self.items@.len() - i,
        {
            let ghost s = tags_view(self.items@);
            let ghost prev = r.deep_view();
            match &self.items[i] {
                ItemTag::TyTag(d) => {
                    let c = d.clone();
                    let ghost cv = c@;
                    r.push(c);
                    proof {
                        assert(r.deep_view() =~= prev.push(cv));
                    }
                },
                _ => {},
            }
            proof {
                s.lemma_filter_map_take_succ(ty_sel(), i as int);
                assert(r.deep_view() =~= tys_of(s.take(i as int + 1)));
            }
            i += 1;
        }
        proof {
            assert(tags_view(self.items@).take(self.items@.len() as int) =~= tags_view(
                self.items@,
            ));
        }
        r
    }

    /// The struct children, in order.
    pub fn structs(&self) -> (r: Vec<StructDoc>)
        ensures
            r.deep_view() == structs_of(self@.items),
    {
        let mut r: Vec<StructDoc> = Vec::new();
        let mut i: usize = 0;
        while i < self.items.len()
            invariant
                i <= self.items@.len(),
                r.deep_view() == structs_of(tags_view(self.items@).take(i as int)),
            decreases self.items@.len() - i,
        {
            let ghost s = tags_view(self.items@);
            let ghost prev = r.deep_view();
            match &self.items[i] {
                ItemTag::StructTag(d) => {
                    let c = d.clone();
                    let ghost cv = c@;
                    r.push(c);
                    proof {
                        assert(r.deep_view() =~= prev.push(cv));
                    }
                },
                _ => {},
            }
            proof {
                s.lemma_filter_map_take_succ(struct_sel(), i as int);
                assert(r.deep_view() =~= structs_of(s.take(i as int + 1)));
            }
            i += 1;
        }
        proof {
            assert(tags_view(self.items@).take(self.items@.len() as int) =~= tags_view(
                self.items@,
            ));
        }
        r
    }
}

/// The predicate "the selector matches", for a given selector.
pub open spec fn matches_sel<A, B>(f: spec_fn(A) -> Option<B>) -> spec_fn(A) -> bool {
    |a: A| f(a) is Some
}

/// The payload a selector extracts, for a given selector.
pub open spec fn payload_sel<A, B>(f: spec_fn(A) -> Option<B>) -> spec_fn(A) -> B {
    |a: A| f(a).unwrap()
}

/// Law: a narrowing returns exactly the sub-sequence of matching elements,
/// in their original order, with each element replaced by its payload.
pub proof fn lemma_filter_map_matches_filter<A, B>(s: Seq<A>, f: spec_fn(A) -> Option<B>)
    ensures
        s.filter_map(f) == s.filter(matches_sel(f)).map_values(payload_sel(f)),
    decreases s.len(),
{
    broadcast use group_seq_properties;

    reveal(Seq::filter);
    let p = matches_sel(f);
    let g = payload_sel(f);
    if s.len() == 0 {
        assert(s.filter(p).map_values(g) =~= Seq::<B>::empty());
        assert(s.filter_map(f) =~= Seq::<B>::empty());
    } else {
        let r = s.drop_last();
        lemma_filter_map_matches_filter(r, f);
        if p(s.last()) {
            assert(s.filter(p) == r.filter(p).push(s.last()));
            assert(s.filter(p).map_values(g) =~= r.filter(p).map_values(g).push(g(s.last())));
            assert(s.filter_map(f) =~= r.filter_map(f) + seq![f(s.last()).unwrap()]);
            assert(s.filter_map(f) =~= s.filter(p).map_values(g));
        } else {
            assert(s.filter(p) == r.filter(p));
            assert(s.filter_map(f) == r.filter_map(f));
        }
    }
}

/// Law: a narrowing is empty exactly when no element matches the selector.
pub proof fn lemma_filter_map_empty_iff<A, B>(s: Seq<A>, f: spec_fn(A) -> Option<B>)
    ensures
        s.filter_map(f).len() == 0 <==> (forall|i: int| 0 <= i < s.len() ==> f(s[i]) is None),
    decreases s.len(),
{
    if s.len() == 0 {
    } else {
        let r = s.drop_last();
        lemma_filter_map_empty_iff(r, f);
        assert(forall|i: int| 0 <= i < s.len() - 1 ==> r[i] == s[i]);
        match f(s.last()) {
            Some(x) => {
                assert(f(s[s.len() - 1]) is Some);
            },
            None => {
                if forall|j: int| 0 <= j < r.len() ==> f(#[trigger] r[j]) is None {
                    assert forall|i: int| 0 <= i < s.len() implies f(#[trigger] s[i]) is None by {
                        if i < s.len() - 1 {
                            assert(f(r[i]) is None);
                        } else {
                            assert(s[i] == s.last());
                        }
                    }
                }
            },
        }
    }
}

/// Law: a narrowing is idempotent. Applied to an already-homogeneous
/// sequence, every element of which carries the target variant, it gives the
/// payloads back unchanged.
pub proof fn lemma_filter_map_of_mapped<A, B>(
    s: Seq<B>,
    w: spec_fn(B) -> A,
    f: spec_fn(A) -> Option<B>,
)
    requires
        forall|b: B| #[trigger] f(w(b)) == Some(b),
    ensures
        s.map_values(w).filter_map(f) == s,
    decreases s.len(),
{
    broadcast use group_seq_properties;

    let m = s.map_values(w);
    if s.len() == 0 {
        assert(m.filter_map(f) =~= s);
    } else {
        lemma_filter_map_of_mapped(s.drop_last(), w, f);
        assert(m.drop_last() =~= s.drop_last().map_values(w));
        assert(m.last() == w(s.last()));
        assert(f(m.last()) == Some(s.last()));
        assert(m.filter_map(f) =~= m.drop_last().filter_map(f) + seq![s.last()]);
        assert(m.filter_map(f) =~= s.drop_last() + seq![s.last()]);
        assert(m.filter_map(f) =~= s);
    }
}

/// Wrapping a module payload back into its child tag.
pub open spec fn mod_wrap() -> spec_fn(ModDocView) -> ItemTagView {
    |d: ModDocView| ItemTagView::ModTag(d)
}

/// The module narrowing, applied to a sequence of module children only,
/// gives the payloads back unchanged.
pub proof fn lemma_mods_of_homogeneous(ms: Seq<ModDocView>)
    ensures
        mods_of(ms.map_values(mod_wrap())) == ms,
{
    assert(forall|b: ModDocView| #[trigger] mod_sel()(mod_wrap()(b)) == Some(b));
    lemma_filter_map_of_mapped(ms, mod_wrap(), mod_sel());
}

/// Law: narrowing distributes over concatenation.
pub proof fn lemma_filter_map_app<A, B>(a: Seq<A>, b: Seq<A>, f: spec_fn(A) -> Option<B>)
    ensures
        (a + b).filter_map(f) == a.filter_map(f) + b.filter_map(f),
    decreases b.len(),
{
    broadcast use group_seq_properties;

    if b.len() == 0 {
        assert(a + b =~= a);
        assert(a.filter_map(f) + b.filter_map(f) =~= a.filter_map(f));
    } else {
        lemma_filter_map_app(a, b.drop_last(), f);
        assert((a + b).drop_last() =~= a + b.drop_last());
        assert((a + b).last() == b.last());
        match f(b.last()) {
            Some(x) => {
                assert((a + b).filter_map(f) =~= a.filter_map(f) + b.drop_last().filter_map(f)
                    + seq![x]);
                assert(a.filter_map(f) + b.filter_map(f) =~= a.filter_map(f)
                    + b.drop_last().filter_map(f) + seq![x]);
            },
            None => {},
        }
    }
}

} // verus!
