use engine::{
    analyze, build_action, classify, classify_with_values, contains, edit_distance_of,
    keyword_matches, keyword_table, match_fields, normalize_text, resolve_selector, Action,
    Category, DomField, DomSnapshot, ProfileData,
};

fn field(
    id: Option<&str>,
    name: Option<&str>,
    label: Option<&str>,
    placeholder: Option<&str>,
    kind: &str,
) -> DomField {
    DomField {
        id: id.map(|s| s.to_string()),
        name: name.map(|s| s.to_string()),
        label: label.map(|s| s.to_string()),
        placeholder: placeholder.map(|s| s.to_string()),
        kind: kind.to_string(),
    }
}

fn profile(full_name: Option<&str>, email: Option<&str>, phone: Option<&str>) -> ProfileData {
    ProfileData {
        full_name: full_name.map(|s| s.to_string()),
        email: email.map(|s| s.to_string()),
        phone: phone.map(|s| s.to_string()),
    }
}

fn snapshot(fields: Vec<DomField>) -> DomSnapshot {
    DomSnapshot { url: "https://example.com/form".to_string(), fields }
}

fn chars(s: &str) -> Vec<char> {
    s.chars().collect()
}

fn triple(a: &Action) -> (String, String, String) {
    (a.selector.clone(), a.action.clone(), a.payload.clone())
}

#[test]
fn email_field_by_id() {
    let dom = snapshot(vec![field(Some("email1"), None, Some("Email Address"), None, "input")]);
    let p = profile(None, Some("a@b.com"), None);
    let actions = match_fields(&dom, &p);
    assert_eq!(actions.len(), 1);
    assert_eq!(
        triple(&actions[0]),
        ("#email1".to_string(), "set_value".to_string(), "a@b.com".to_string())
    );
}

#[test]
fn name_field_by_name_attribute() {
    let dom = snapshot(vec![field(None, Some("fname"), None, Some("Your Name"), "input")]);
    let p = profile(Some("Jane Doe"), None, None);
    let actions = match_fields(&dom, &p);
    assert_eq!(actions.len(), 1);
    assert_eq!(
        triple(&actions[0]),
        ("[name=\"fname\"]".to_string(), "set_value".to_string(), "Jane Doe".to_string())
    );
}

#[test]
fn button_produces_no_action() {
    let dom = snapshot(vec![field(Some("btn1"), None, Some("Submit"), None, "button")]);
    let p = profile(Some("Jane"), Some("j@x.com"), Some("555"));
    assert!(match_fields(&dom, &p).is_empty());
    let labelled = field(Some("btn2"), Some("email"), Some("Email"), Some("Name"), "button");
    assert!(build_action(&labelled, &p).is_none());
}

#[test]
fn typo_text_recovered_by_fuzzy_match() {
    assert!(keyword_matches("emial", "email"));
    assert_eq!(classify("emial"), Some(Category::Email));
    assert_eq!(edit_distance_of(&chars("emial"), &chars("email")), 2);
}

#[test]
fn typo_label_keeps_separator_in_text() {
    let f = field(Some("e2"), None, Some("Emial"), None, "input");
    assert_eq!(normalize_text(&f), "emial ");
    assert_eq!(edit_distance_of(&chars("emial "), &chars("email")), 3);
    let p = profile(None, Some("x@y.com"), None);
    assert!(build_action(&f, &p).is_none());
}

#[test]
fn name_without_value_and_no_other_match() {
    let dom = snapshot(vec![field(Some("p1"), None, Some("Name"), None, "input")]);
    let p = profile(None, Some("z@z.com"), None);
    assert!(match_fields(&dom, &p).is_empty());
}

#[test]
fn repeated_calls_give_identical_output() {
    let dom = snapshot(vec![
        field(Some("n"), None, Some("Full Name"), None, "input"),
        field(Some("e"), None, Some("E-mail"), None, "input"),
        field(Some("t"), None, Some("Telephone"), None, "input"),
    ]);
    let p = profile(Some("Ann"), Some("ann@x.org"), Some("123"));
    let first: Vec<_> = match_fields(&dom, &p).iter().map(triple).collect();
    let second: Vec<_> = match_fields(&dom, &p).iter().map(triple).collect();
    assert_eq!(first, second);
    assert_eq!(first.len(), 3);
}

#[test]
fn actions_follow_field_order() {
    let dom = snapshot(vec![
        field(Some("t"), None, Some("Mobile"), None, "input"),
        field(Some("b"), None, Some("Email"), None, "button"),
        field(Some("x"), None, Some("Comments"), None, "textarea"),
        field(Some("n"), None, Some("Your name"), None, "select"),
        field(Some("e"), None, Some("Email"), None, "textarea"),
    ]);
    let p = profile(Some("Ann"), Some("ann@x.org"), Some("123"));
    let selectors: Vec<String> = match_fields(&dom, &p).iter().map(|a| a.selector.clone()).collect();
    assert_eq!(selectors, vec!["#t", "#n", "#e"]);
}

#[test]
fn id_selector_preferred_over_name() {
    let f = field(Some("x"), Some("y"), Some("Email"), None, "input");
    assert_eq!(resolve_selector(&f), Some("#x".to_string()));
    let p = profile(None, Some("a@b.com"), None);
    let a = build_action(&f, &p).unwrap();
    assert_eq!(a.selector, "#x");
}

#[test]
fn field_without_id_or_name_is_skipped() {
    let f = field(None, None, Some("Email"), None, "input");
    assert_eq!(resolve_selector(&f), None);
    let p = profile(None, Some("a@b.com"), None);
    assert!(build_action(&f, &p).is_none());
}

#[test]
fn later_category_with_value_rescues_field() {
    let f = field(Some("c"), None, Some("Name"), Some("Email"), "input");
    let p = profile(None, Some("q@r.com"), None);
    assert_eq!(classify("name email"), Some(Category::FullName));
    assert_eq!(classify_with_values("name email", &p), Some(Category::Email));
    let a = build_action(&f, &p).unwrap();
    assert_eq!(triple(&a), ("#c".to_string(), "set_value".to_string(), "q@r.com".to_string()));
}

#[test]
fn fuzzy_boundary_distance_two_and_three() {
    assert_eq!(edit_distance_of(&chars("eml"), &chars("email")), 2);
    assert!(keyword_matches("eml", "email"));
    assert_eq!(edit_distance_of(&chars("em"), &chars("email")), 3);
    assert!(!keyword_matches("em", "email"));
    assert_eq!(classify("celll"), Some(Category::Phone));
    assert_eq!(classify("zzzzzz"), None);
}

#[test]
fn malformed_payload_gives_no_actions() {
    let dom = snapshot(vec![field(Some("email1"), None, Some("Email"), None, "input")]);
    let p = profile(None, Some("a@b.com"), None);
    assert!(analyze(None, Some(p.clone())).is_empty());
    assert!(analyze(Some(dom.clone()), None).is_empty());
    assert!(analyze(None, None).is_empty());
    assert_eq!(analyze(Some(dom), Some(p)).len(), 1);
}

#[test]
fn edit_distance_exact_values() {
    assert_eq!(edit_distance_of(&chars("kitten"), &chars("sitting")), 3);
    assert_eq!(edit_distance_of(&chars(""), &chars("abc")), 3);
    assert_eq!(edit_distance_of(&chars("abc"), &chars("")), 3);
    assert_eq!(edit_distance_of(&chars("same"), &chars("same")), 0);
}

#[test]
fn substring_containment() {
    assert!(contains(&chars("email address"), &chars("address")));
    assert!(contains(&chars("abc"), &chars("")));
    assert!(!contains(&chars("ab"), &chars("abc")));
    assert!(!contains(&chars("phone"), &chars("phones")));
}

#[test]
fn normalized_text_lowercases_and_joins() {
    let f = field(None, None, Some("Full NAME"), Some("Jane DOE"), "input");
    assert_eq!(normalize_text(&f), "full name jane doe");
    let empty = field(None, None, None, None, "input");
    assert_eq!(normalize_text(&empty), " ");
}

#[test]
fn uppercase_label_matches_after_lowercasing() {
    let f = field(Some("m"), None, Some("EMAIL"), None, "input");
    let p = profile(None, Some("a@b.com"), None);
    assert_eq!(build_action(&f, &p).unwrap().payload, "a@b.com");
}

#[test]
fn eligible_kinds_only() {
    let p = profile(None, Some("a@b.com"), None);
    for kind in ["input", "textarea", "select"] {
        assert!(build_action(&field(Some("e"), None, Some("Email"), None, kind), &p).is_some());
    }
    for kind in ["checkbox", "Input", "", "button"] {
        assert!(build_action(&field(Some("e"), None, Some("Email"), None, kind), &p).is_none());
    }
}

#[test]
fn empty_snapshot_gives_no_actions() {
    let p = profile(Some("Ann"), Some("a@b.com"), Some("1"));
    assert!(match_fields(&snapshot(vec![]), &p).is_empty());
}

#[test]
fn keyword_table_in_priority_order() {
    let table = keyword_table();
    let cats: Vec<Category> = table.iter().map(|r| r.category).collect();
    assert_eq!(cats, vec![Category::FullName, Category::Email, Category::Phone]);
    assert_eq!(table[0].keywords, vec!["name", "full name", "first name", "last name", "your name"]);
    assert_eq!(table[1].keywords, vec!["email", "e-mail", "email address"]);
    assert_eq!(table[2].keywords, vec!["phone", "telephone", "mobile", "cell"]);
}
