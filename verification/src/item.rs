//! Capability-based access to the shared item record. Every entity variant
//! implements [`Item`] by exposing its embedded record; the accessor layer
//! [`ItemUtils`] is written once over that capability, so each accessor
//! agrees with the underlying record for every variant by contract.

use vstd::prelude::*;

use crate::model::{
    AstId, EnumDoc, ImplDoc, ItemDoc, ItemDocView, ItemTag, ItemTagView, ModDoc, NmodDoc, Section,
    SimpleItemDoc, StructDoc, TraitDoc,
};

verus! {

/// The item record embedded in a child tag, whichever variant is active.
pub open spec fn item_of_tag(t: ItemTagView) -> ItemDocView {
    match t {
        ItemTagView::ModTag(d) => d.item,
        ItemTagView::NmodTag(d) => d.item,
        ItemTagView::ConstTag(d) => d.item,
        ItemTagView::FnTag(d) => d.item,
        ItemTagView::EnumTag(d) => d.item,
        ItemTagView::TraitTag(d) => d.item,
        ItemTagView::ImplTag(d) => d.item,
        ItemTagView::TyTag(d) => d.item,
        ItemTagView::StructTag(d) => d.item,
    }
}

/// The capability of owning an item record.
pub trait Item {
    /// The view of the embedded item record.
    spec fn item_view(&self) -> ItemDocView;

    /// An independent copy of the embedded item record.
    fn item(&self) -> (r: ItemDoc)
        ensures
            r@ == self.item_view(),
    ;
}

impl Item for ItemTag {
    open spec fn item_view(&self) -> ItemDocView {
        item_of_tag(self@)
    }

    fn item(&self) -> (r: ItemDoc) {
        match self {
            ItemTag::ModTag(d) => d.item.clone(),
            ItemTag::NmodTag(d) => d.item.clone(),
            ItemTag::ConstTag(d) => d.item.clone(),
            ItemTag::FnTag(d) => d.item.clone(),
            ItemTag::EnumTag(d) => d.item.clone(),
            ItemTag::TraitTag(d) => d.item.clone(),
            ItemTag::ImplTag(d) => d.item.clone(),
            ItemTag::TyTag(d) => d.item.clone(),
            ItemTag::StructTag(d) => d.item.clone(),
        }
    }
}

impl Item for SimpleItemDoc {
    open spec fn item_view(&self) -> ItemDocView {
        self@.item
    }

    fn item(&self) -> (r: ItemDoc) {
        self.item.clone()
    }
}

impl Item for ModDoc {
    open spec fn item_view(&self) -> ItemDocView {
        self@.item
    }

    fn item(&self) -> (r: ItemDoc) {
        self.item.clone()
    }
}

impl Item for NmodDoc {
    open spec fn item_view(&self) -> ItemDocView {
        self@.item
    }

    fn item(&self) -> (r: ItemDoc) {
        self.item.clone()
    }
}

impl Item for EnumDoc {
    open spec fn item_view(&self) -> ItemDocView {
        self@.item
    }

    fn item(&self) -> (r: ItemDoc) {
        self.item.clone()
    }
}

impl Item for TraitDoc {
    open spec fn item_view(&self) -> ItemDocView {
        self@.item
    }

    fn item(&self) -> (r: ItemDoc) {
        self.item.clone()
    }
}

impl Item for ImplDoc {
    open spec fn item_view(&self) -> ItemDocView {
        self@.item
    }

    fn item(&self) -> (r: ItemDoc) {
        self.item.clone()
    }
}

impl Item for StructDoc {
    open spec fn item_view(&self) -> ItemDocView {
        self@.item
    }

    fn item(&self) -> (r: ItemDoc) {
        self.item.clone()
    }
}

/// Accessors written once over the [`Item`] capability: each one agrees with
/// the matching field of the underlying item record, for every implementor.
pub trait ItemUtils: Item {
    /// The record's identity.
    fn id(&self) -> (r: AstId)
        ensures
            r as int == self.item_view().id,
    ;

    /// The record's name.
    fn name(&self) -> (r: String)
        ensures
            r@ == self.item_view().name,
    ;

    /// The record's hierarchical path.
    fn path(&self) -> (r: Vec<String>)
        ensures
            r.deep_view() == self.item_view().path,
    ;

    /// The record's brief description.
    fn brief(&self) -> (r: Option<String>)
        ensures
            r.deep_view() == self.item_view().brief,
    ;

    /// The record's long description.
    fn desc(&self) -> (r: Option<String>)
        ensures
            r.deep_view() == self.item_view().desc,
    ;

    /// The record's sections.
    fn sections(&self) -> (r: Vec<Section>)
        ensures
            r.deep_view() == self.item_view().sections,
    ;
}

impl<A: Item> ItemUtils for A {
    fn id(&self) -> (r: AstId) {
        self.item().id
    }

    fn name(&self) -> (r: String) {
        self.item().name
    }

    fn path(&self) -> (r: Vec<String>) {
        self.item().path
    }

    fn brief(&self) -> (r: Option<String>) {
        self.item().brief
    }

    fn desc(&self) -> (r: Option<String>) {
        self.item().desc
    }

    fn sections(&self) -> (r: Vec<Section>) {
        self.item().sections
    }
}

} // verus!
