//! The document root: recovering the single crate page from the page
//! sequence. A well-formed document holds exactly one crate page; a document
//! with none or with several is a producer contract breach, and the lookups
//! demand well-formedness rather than guessing at recovery.

use vstd::prelude::*;

use crate::filtering::lemma_filter_map_app;
use crate::model::{CrateDoc, CrateDocView, Doc, DocView, ModDoc, ModDocView, Page, PageView};

verus! {

/// Selector for the crate page.
pub open spec fn crate_sel() -> spec_fn(PageView) -> Option<CrateDocView> {
    |p: PageView|
        match p {
            PageView::CratePage(c) => Some(c),
            _ => None,
        }
}

/// The crate-page payloads among a sequence of pages, in order.
pub open spec fn crates_of(s: Seq<PageView>) -> Seq<CrateDocView> {
    s.filter_map(crate_sel())
}

/// A well-formed document holds exactly one crate page.
pub open spec fn has_one_crate_page(d: DocView) -> bool {
    crates_of(d.pages).len() == 1
}

/// The payload of a well-formed document's single crate page.
pub open spec fn crate_doc_of(d: DocView) -> CrateDocView {
    crates_of(d.pages)[0]
}

/// The root module of a well-formed document's single crate page.
pub open spec fn cratemod_of(d: DocView) -> ModDocView {
    crate_doc_of(d).topmod
}

/// The crate module is, structurally, the crate doc's root module.
pub proof fn lemma_cratemod_is_crate_doc_topmod(d: DocView)
    requires
        has_one_crate_page(d),
    ensures
        cratemod_of(d) == crate_doc_of(d).topmod,
{
}

impl Doc {
    /// The payload of the document's single crate page.
    #[allow(non_snake_case)]
    pub fn CrateDoc(&self) -> (r: CrateDoc)
        requires
            has_one_crate_page(self@),
        ensures
            r@ == crate_doc_of(self@),
    {
        let ghost s = self.pages.deep_view();
        let mut i: usize = 0;
        while i < self.pages.len()
            invariant
                i <= self.pages@.len(),
                s == self.pages.deep_view(),
                has_one_crate_page(self@),
                crates_of(s.take(i as int)).len() == 0,
            decreases self.pages@.len() - i,
        {
            match &self.pages[i] {
                Page::CratePage(c) => {
                    proof {
                        s.lemma_filter_map_take_succ(crate_sel(), i as int);
                        assert(crates_of(s.take(i as int + 1)) =~= seq![c@]);
                        assert(s =~= s.take(i as int + 1) + s.skip(i as int + 1));
                        lemma_filter_map_app(
                            s.take(i as int + 1),
                            s.skip(i as int + 1),
                            crate_sel(),
                        );
                        assert(crates_of(s) =~= seq![c@] + crates_of(s.skip(i as int + 1)));
                        assert(crates_of(s)[0] == c@);
                    }
                    return c.clone();
                },
                _ => {
                    proof {
                        s.lemma_filter_map_take_succ(crate_sel(), i as int);
                        assert(crates_of(s.take(i as int + 1)) =~= crates_of(s.take(i as int)));
                    }
                },
            }
            i += 1;
        }
        proof {
            assert(s.take(self.pages@.len() as int) =~= s);
            assert(false);
        }
        vstd::pervasive::unreached()
    }

    /// The root module of the document's single crate page.
    pub fn cratemod(&self) -> (r: ModDoc)
        requires
            has_one_crate_page(self@),
        ensures
            r@ == cratemod_of(self@),
    {
        self.CrateDoc().topmod
    }
}

} // verus!
