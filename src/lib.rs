//! Form-field matching engine: classifies the fields of a form snapshot against
//! a fixed keyword table and emits fill actions from a personal-data profile.
mod classify;
mod distance;
mod dom;
mod matcher;
mod selector;
mod state;
mod text;

pub use classify::{
    admits, any_hit, classification, classify, classify_with_values, first_rule, keyword_hit,
    keyword_matches, keyword_rules, keyword_table, lemma_first_rule_admitted, lemma_first_rule_at,
    lemma_fuzzy_boundary, valued_classification, Rule, FUZZY_LIMIT,
};
pub use distance::{edit_distance, edit_distance_of, lemma_edit_distance_bound, prefix_distance};
pub use dom::{opt_view, DomField, DomSnapshot, FieldView, SnapshotView};
pub use matcher::{
    action_for_text, action_sources, analyze, build_action, eligible_kind, field_action,
    is_eligible_kind, lemma_action_prefers_id, lemma_button_never_acts, lemma_deterministic,
    lemma_order_preserved, lemma_value_gated_rescue, match_fields, normalize_text,
    normalized_text, opt_action_view, or_empty, raw_text, snapshot_actions, sources_in_order,
    text_action,
};
pub use selector::{lemma_id_preferred, resolve_selector, selector_of};
pub use state::{Action, ActionView, Category, ProfileData, ProfileView};
pub use text::{contains, contains_seq, lower_of};
