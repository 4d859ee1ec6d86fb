//! Deriving a target selector for a form field.
use vstd::prelude::*;
use crate::dom::{opt_view, DomField, FieldView};

verus! {

/// The selector for a field: by id when it has one, else by name, else none.
pub open spec fn selector_of(f: FieldView) -> Option<Seq<char>> {
    match f.id {
        Some(id) => Some("#"@ + id),
        None => match f.name {
            Some(name) => Some("[name=\""@ + name + "\"]"@),
            None => None,
        },
    }
}

/// A field with both an id and a name is targeted by its id.
pub proof fn lemma_id_preferred(f: FieldView)
    requires
        f.id is Some,
        f.name is Some,
    ensures
        selector_of(f) == Some("#"@ + f.id->0),
{
}

/// The selector that targets `field`, or `None` when it has neither id nor name.
pub fn resolve_selector(field: &DomField) -> (r: Option<String>)
    ensures
        opt_view(r) == selector_of(field@),
{
    match &field.id {
        Some(id) => {
            let mut s = String::from_str("#");
            s.append(id.as_str());
            Some(s)
        },
        None => match &field.name {
            Some(name) => {
                let mut s = String::from_str("[name=\"");
                s.append(name.as_str());
                s.append("\"]");
                Some(s)
            },
            None => None,
        },
    }
}

} // verus!
