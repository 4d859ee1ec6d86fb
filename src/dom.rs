//! The form snapshot: an ordered list of observed form controls.
use vstd::prelude::*;

verus! {

/// The view of an optional string.
pub open spec fn opt_view(o: Option<String>) -> Option<Seq<char>> {
    match o {
        Some(s) => Some(s@),
        None => None,
    }
}

/// One form control as observed on a page.
#[derive(Clone, Debug)]
pub struct DomField {
    pub id: Option<String>,
    pub name: Option<String>,
    pub label: Option<String>,
    pub placeholder: Option<String>,
    pub kind: String,
}

pub struct FieldView {
    pub id: Option<Seq<char>>,
    pub name: Option<Seq<char>>,
    pub label: Option<Seq<char>>,
    pub placeholder: Option<Seq<char>>,
    pub kind: Seq<char>,
}

impl View for DomField {
    type V = FieldView;

    open spec fn view(&self) -> FieldView {
        FieldView {
            id: opt_view(self.id),
            name: opt_view(self.name),
            label: opt_view(self.label),
            placeholder: opt_view(self.placeholder),
            kind: self.kind@,
        }
    }
}

/// A page URL and the form controls found on it, in page order.
#[derive(Clone, Debug)]
pub struct DomSnapshot {
    pub url: String,
    pub fields: Vec<DomField>,
}

pub struct SnapshotView {
    pub url: Seq<char>,
    pub fields: Seq<FieldView>,
}

impl View for DomSnapshot {
    type V = SnapshotView;

    open spec fn view(&self) -> SnapshotView {
        SnapshotView { url: self.url@, fields: self.fields@.map_values(|f: DomField| f@) }
    }
}

} // verus!
