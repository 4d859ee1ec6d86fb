//! Building fill actions for the fields of a snapshot.
use vstd::prelude::*;
use crate::classify::{
    admits, any_hit, classify_with_values, keyword_rules, lemma_first_rule_at, valued_classification,
};
use crate::dom::{DomField, DomSnapshot, FieldView, SnapshotView};
use crate::selector::{lemma_id_preferred, resolve_selector, selector_of};
use crate::state::{Action, ActionView, ProfileData, ProfileView};
use crate::text::{lower_of, lowercase};

verus! {

/// The control kinds that can receive a value.
pub open spec fn eligible_kind(k: Seq<char>) -> bool {
    k == "input"@ || k == "textarea"@ || k == "select"@
}

/// An optional string, with absence read as the empty string.
pub open spec fn or_empty(o: Option<Seq<char>>) -> Seq<char> {
    match o {
        Some(s) => s,
        None => Seq::empty(),
    }
}

/// The label and the placeholder, joined by one space.
pub open spec fn raw_text(f: FieldView) -> Seq<char> {
    or_empty(f.label) + " "@ + or_empty(f.placeholder)
}

/// The text that a field is classified by.
pub open spec fn normalized_text(f: FieldView) -> Seq<char> {
    lower_of(raw_text(f))
}

/// The action for field `f`, given its normalized text `t`: present when the
/// field's kind is eligible, some category with a profile value matches `t`,
/// and the field has a selector.
pub open spec fn text_action(f: FieldView, t: Seq<char>, p: ProfileView) -> Option<ActionView> {
    if !eligible_kind(f.kind) {
        None
    } else {
        match valued_classification(t, p) {
            None => None,
            Some(c) => match selector_of(f) {
                None => None,
                Some(sel) => Some(
                    ActionView { selector: sel, action: "set_value"@, payload: p.value(c)->0 },
                ),
            },
        }
    }
}

/// The action for field `f` under profile `p`.
pub open spec fn field_action(f: FieldView, p: ProfileView) -> Option<ActionView> {
    text_action(f, normalized_text(f), p)
}

/// The actions for fields `fs`, in field order.
pub open spec fn snapshot_actions(fs: Seq<FieldView>, p: ProfileView) -> Seq<ActionView>
    decreases fs.len(),
{
    if fs.len() == 0 {
        Seq::empty()
    } else {
        snapshot_actions(fs.drop_last(), p) + match field_action(fs.last(), p) {
            Some(a) => seq![a],
            None => Seq::empty(),
        }
    }
}

/// The positions of the fields in `fs` that produce an action, in order.
pub open spec fn action_sources(fs: Seq<FieldView>, p: ProfileView) -> Seq<int>
    decreases fs.len(),
{
    if fs.len() == 0 {
        Seq::empty()
    } else {
        action_sources(fs.drop_last(), p) + if field_action(fs.last(), p) is Some {
            seq![fs.len() - 1]
        } else {
            Seq::empty()
        }
    }
}

proof fn lemma_action_sources(fs: Seq<FieldView>, p: ProfileView)
    ensures
        ({
            let idx = action_sources(fs, p);
            let acts = snapshot_actions(fs, p);
            &&& idx.len() == acts.len()
            &&& forall|i: int, j: int| 0 <= i < j < idx.len() ==> idx[i] < idx[j]
            &&& forall|i: int|
                0 <= i < idx.len() ==> 0 <= #[trigger] idx[i] < fs.len() && field_action(
                    fs[idx[i]],
                    p,
                ) == Some(acts[i])
        }),
    decreases fs.len(),
{
    if fs.len() > 0 {
        let prev = fs.drop_last();
        lemma_action_sources(prev, p);
        let idx = action_sources(fs, p);
        let acts = snapshot_actions(fs, p);
        let pidx = action_sources(prev, p);
        let pacts = snapshot_actions(prev, p);
        assert forall|i: int| 0 <= i < pidx.len() implies idx[i] == pidx[i] && acts[i] == pacts[i]
            && fs[pidx[i]] == prev[pidx[i]] by {}
    }
}

/// `idx` gives, for each action of `fs` under `p`, the position of the field
/// it comes from; the positions strictly increase.
pub open spec fn sources_in_order(fs: Seq<FieldView>, p: ProfileView, idx: Seq<int>) -> bool {
    let acts = snapshot_actions(fs, p);
    &&& idx.len() == acts.len()
    &&& forall|i: int, j: int| 0 <= i < j < idx.len() ==> idx[i] < idx[j]
    &&& forall|i: int|
        0 <= i < idx.len() ==> 0 <= #[trigger] idx[i] < fs.len() && field_action(fs[idx[i]], p)
            == Some(acts[i])
}

/// The action list is a subsequence of the fields: each action is the one its
/// field produces, and the actions keep the order of their fields.
pub proof fn lemma_order_preserved(fs: Seq<FieldView>, p: ProfileView)
    ensures
        exists|idx: Seq<int>| sources_in_order(fs, p, idx),
{
    lemma_action_sources(fs, p);
    assert(sources_in_order(fs, p, action_sources(fs, p)));
}

/// Equal snapshots and equal profiles give equal action lists.
pub proof fn lemma_deterministic(d1: SnapshotView, d2: SnapshotView, p1: ProfileView, p2: ProfileView)
    requires
        d1 == d2,
        p1 == p2,
    ensures
        snapshot_actions(d1.fields, p1) == snapshot_actions(d2.fields, p2),
{
}

/// A field with both an id and a name that produces an action targets it by id.
pub proof fn lemma_action_prefers_id(f: FieldView, p: ProfileView)
    requires
        f.id is Some,
        f.name is Some,
    ensures
        field_action(f, p) matches Some(a) ==> a.selector == "#"@ + f.id->0,
{
    lemma_id_preferred(f);
}

/// A button never produces an action, whatever its text.
pub proof fn lemma_button_never_acts(f: FieldView, p: ProfileView)
    requires
        f.kind == "button"@,
    ensures
        field_action(f, p) is None,
{
    reveal_strlit("button");
    reveal_strlit("input");
    reveal_strlit("textarea");
    reveal_strlit("select");
    assert(f.kind[0] != "select"@[0]);
    assert(f.kind.len() != "input"@.len());
    assert(f.kind.len() != "textarea"@.len());
}

/// A field whose first matching category has no profile value, and whose next
/// matching category has one, produces the action for that next category.
pub proof fn lemma_value_gated_rescue(f: FieldView, p: ProfileView, first: int, second: int)
    requires
        eligible_kind(f.kind),
        selector_of(f) is Some,
        0 <= first < second < keyword_rules().len(),
        forall|i: int|
            0 <= i < second && i != first ==> !any_hit(
                normalized_text(f),
                #[trigger] keyword_rules()[i].1,
            ),
        any_hit(normalized_text(f), keyword_rules()[first].1),
        p.value(keyword_rules()[first].0) is None,
        any_hit(normalized_text(f), keyword_rules()[second].1),
        p.value(keyword_rules()[second].0) is Some,
    ensures
        field_action(f, p) == Some(
            ActionView {
                selector: selector_of(f)->0,
                action: "set_value"@,
                payload: p.value(keyword_rules()[second].0)->0,
            },
        ),
{
    let rules = keyword_rules();
    let t = normalized_text(f);
    assert forall|i: int| 0 <= i < second implies !(admits(Some(p), #[trigger] rules[i].0)
        && any_hit(t, rules[i].1)) by {}
    lemma_first_rule_at(t, rules, Some(p), second);
}

pub open spec fn opt_action_view(o: Option<Action>) -> Option<ActionView> {
    match o {
        Some(a) => Some(a@),
        None => None,
    }
}

/// Whether `kind` names a control that can receive a value.
pub fn is_eligible_kind(kind: &String) -> (r: bool)
    ensures
        r == eligible_kind(kind@),
{
    *kind == String::from_str("input") || *kind == String::from_str("textarea") || *kind
        == String::from_str("select")
}

/// The label and placeholder of `field`, joined by a space and lowercased.
pub fn normalize_text(field: &DomField) -> (r: String)
    ensures
        r@ == normalized_text(field@),
{
    let mut s = String::new();
    if let Some(label) = &field.label {
        s.append(label.as_str());
    }
    s.append(" ");
    if let Some(placeholder) = &field.placeholder {
        s.append(placeholder.as_str());
    }
    assert(s@ =~= raw_text(field@));
    lowercase(s.as_str())
}

/// The action for `field` when its normalized text is `text`.
pub fn action_for_text(field: &DomField, text: &str, profile: &ProfileData) -> (r: Option<Action>)
    ensures
        opt_action_view(r) == text_action(field@, text@, profile@),
{
    if !is_eligible_kind(&field.kind) {
        return None;
    }
    let category = match classify_with_values(text, profile) {
        Some(c) => c,
        None => return None,
    };
    let selector = match resolve_selector(field) {
        Some(s) => s,
        None => return None,
    };
    let payload = match profile.value_of(category) {
        Some(v) => v.clone(),
        None => return None,
    };
    Some(Action { selector, action: String::from_str("set_value"), payload })
}

/// The action for `field` under `profile`, if any.
pub fn build_action(field: &DomField, profile: &ProfileData) -> (r: Option<Action>)
    ensures
        opt_action_view(r) == field_action(field@, profile@),
{
    if !is_eligible_kind(&field.kind) {
        return None;
    }
    let text = normalize_text(field);
    action_for_text(field, text.as_str(), profile)
}

/// The fill actions for the fields of `dom`, in field order.
pub fn match_fields(dom: &DomSnapshot, profile: &ProfileData) -> (r: Vec<Action>)
    ensures
        r@.map_values(|a: Action| a@) == snapshot_actions(dom@.fields, profile@),
{
    let fields = &dom.fields;
    let ghost fs = dom@.fields;
    let mut actions: Vec<Action> = Vec::new();
    for i in 0..fields.len()
        invariant
            fs == fields@.map_values(|f: DomField| f@),
            actions@.map_values(|a: Action| a@) == snapshot_actions(
                fs.subrange(0, i as int),
                profile@,
            ),
    {
        assert(fs.subrange(0, i + 1).drop_last() =~= fs.subrange(0, i as int));
        let ghost before = actions@;
        if let Some(a) = build_action(&fields[i], profile) {
            actions.push(a);
            assert(actions@.map_values(|a: Action| a@) =~= before.map_values(|a: Action| a@).push(
                a@,
            ));
        }
    }
    assert(fs.subrange(0, fields@.len() as int) =~= fs);
    actions
}

/// The actions for a decoded snapshot and profile; when either could not be
/// decoded, no actions.
pub fn analyze(dom: Option<DomSnapshot>, profile: Option<ProfileData>) -> (r: Vec<Action>)
    ensures
        match (dom, profile) {
            (Some(d), Some(p)) => r@.map_values(|a: Action| a@) == snapshot_actions(
                d@.fields,
                p@,
            ),
            _ => r@.len() == 0,
        },
{
    match (dom, profile) {
        (Some(d), Some(p)) => match_fields(&d, &p),
        _ => Vec::new(),
    }
}

} // verus!
