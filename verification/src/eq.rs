//! Structural equality for the leaf records, stated over their views. Every
//! field takes part — in particular the reexport flag, so a reexported entity
//! compares unequal to an otherwise-identical original.

use vstd::prelude::*;

use crate::model::{ItemDoc, Section, SimpleItemDoc, StructDoc};

verus! {

/// Equality of two string vectors, by contents.
fn eq_str_vec(a: &Vec<String>, b: &Vec<String>) -> (r: bool)
    ensures
        r == (a.deep_view() == b.deep_view()),
{
    if a.len() != b.len() {
        proof {
            assert(a.deep_view().len() == a@.len());
            assert(b.deep_view().len() == b@.len());
        }
        return false;
    }
    let mut i: usize = 0;
    while i < a.len()
        invariant
            i <= a@.len(),
            a@.len() == b@.len(),
            forall|j: int| 0 <= j < i ==> a.deep_view()[j] == b.deep_view()[j],
        decreases a@.len() - i,
    {
        if !(a[i] == b[i]) {
            proof {
                assert(a.deep_view()[i as int] != b.deep_view()[i as int]);
            }
            return false;
        }
        i += 1;
    }
    proof {
        assert(a.deep_view() =~= b.deep_view());
    }
    true
}

/// Equality of two optional strings, by contents.
fn eq_opt_str(a: &Option<String>, b: &Option<String>) -> (r: bool)
    ensures
        r == (a.deep_view() == b.deep_view()),
{
    match (a, b) {
        (Some(x), Some(y)) => {
            let r = *x == *y;
            proof {
                assert(a.deep_view() == Some(x@));
                assert(b.deep_view() == Some(y@));
            }
            r
        },
        (None, None) => true,
        (Some(x), None) => {
            proof {
                assert(a.deep_view() == Some(x@));
            }
            false
        },
        (None, Some(y)) => {
            proof {
                assert(b.deep_view() == Some(y@));
            }
            false
        },
    }
}

/// Equality of two section vectors, by contents.
fn eq_sections(a: &Vec<Section>, b: &Vec<Section>) -> (r: bool)
    ensures
        r == (a.deep_view() == b.deep_view()),
{
    if a.len() != b.len() {
        proof {
            assert(a.deep_view().len() == a@.len());
            assert(b.deep_view().len() == b@.len());
        }
        return false;
    }
    let mut i: usize = 0;
    while i < a.len()
        invariant
            i <= a@.len(),
            a@.len() == b@.len(),
            forall|j: int| 0 <= j < i ==> a.deep_view()[j] == b.deep_view()[j],
        decreases a@.len() - i,
    {
        if !(a[i] == b[i]) {
            proof {
                assert(a.deep_view()[i as int] != b.deep_view()[i as int]);
            }
            return false;
        }
        i += 1;
    }
    proof {
        assert(a.deep_view() =~= b.deep_view());
    }
    true
}

impl PartialEq for Section {
    fn eq(&self, other: &Self) -> (r: bool) {
        self.header == other.header && self.body == other.body
    }
}

impl vstd::std_specs::cmp::PartialEqSpecImpl for Section {
    open spec fn obeys_eq_spec() -> bool {
        true
    }

    open spec fn eq_spec(&self, other: &Self) -> bool {
        self@ == other@
    }
}

impl PartialEq for ItemDoc {
    fn eq(&self, other: &Self) -> (r: bool) {
        self.id == other.id && self.name == other.name && eq_str_vec(&self.path, &other.path)
            && eq_opt_str(&self.brief, &other.brief) && eq_opt_str(&self.desc, &other.desc)
            && eq_sections(&self.sections, &other.sections) && self.reexport == other.reexport
    }
}

impl vstd::std_specs::cmp::PartialEqSpecImpl for ItemDoc {
    open spec fn obeys_eq_spec() -> bool {
        true
    }

    open spec fn eq_spec(&self, other: &Self) -> bool {
        self@ == other@
    }
}

impl PartialEq for SimpleItemDoc {
    fn eq(&self, other: &Self) -> (r: bool) {
        self.item == other.item && eq_opt_str(&self.sig, &other.sig)
    }
}

impl vstd::std_specs::cmp::PartialEqSpecImpl for SimpleItemDoc {
    open spec fn obeys_eq_spec() -> bool {
        true
    }

    open spec fn eq_spec(&self, other: &Self) -> bool {
        self@ == other@
    }
}

impl PartialEq for StructDoc {
    fn eq(&self, other: &Self) -> (r: bool) {
        self.item == other.item && eq_str_vec(&self.fields, &other.fields)
            && eq_opt_str(&self.sig, &other.sig)
    }
}

impl vstd::std_specs::cmp::PartialEqSpecImpl for StructDoc {
    open spec fn obeys_eq_spec() -> bool {
        true
    }

    open spec fn eq_spec(&self, other: &Self) -> bool {
        self@ == other@
    }
}

} // verus!
