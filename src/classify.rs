//! The keyword table and the classifier that maps a normalized field text to
//! a profile category.
//!
//! A keyword matches a text when the text contains it as a substring, or,
//! failing that, when the whole text is within edit distance 2 of it. Both
//! tests apply to each keyword in turn, so the table's order alone decides
//! which category wins.
use vstd::prelude::*;
use crate::distance::{edit_distance, edit_distance_of};
use crate::state::{Category, ProfileData, ProfileView};
use crate::text::{chars_of, contains, contains_seq};

verus! {

/// The largest edit distance at which a keyword still matches.
pub const FUZZY_LIMIT: usize = 2;

/// One row of the keyword table: a category and its keywords, in order.
pub struct Rule {
    pub category: Category,
    pub keywords: Vec<String>,
}

impl View for Rule {
    type V = (Category, Seq<Seq<char>>);

    open spec fn view(&self) -> (Category, Seq<Seq<char>>) {
        (self.category, self.keywords@.map_values(|k: String| k@))
    }
}

/// The keyword table, in priority order.
pub open spec fn keyword_rules() -> Seq<(Category, Seq<Seq<char>>)> {
    seq![
        (
            Category::FullName,
            seq!["name"@, "full name"@, "first name"@, "last name"@, "your name"@],
        ),
        (Category::Email, seq!["email"@, "e-mail"@, "email address"@]),
        (Category::Phone, seq!["phone"@, "telephone"@, "mobile"@, "cell"@]),
    ]
}

fn keyword_list(words: &[&str]) -> (r: Vec<String>)
    ensures
        r@.map_values(|k: String| k@) == words@.map_values(|w: &str| w@),
{
    let mut r: Vec<String> = Vec::new();
    for i in 0..words.len()
        invariant
            r@.len() == i,
            forall|m: int| 0 <= m < i ==> #[trigger] r@[m]@ == words@[m]@,
    {
        r.push(String::from_str(words[i]));
    }
    assert(r@.map_values(|k: String| k@) =~= words@.map_values(|w: &str| w@));
    r
}

/// Builds the keyword table.
pub fn keyword_table() -> (r: Vec<Rule>)
    ensures
        r@.map_values(|x: Rule| x@) == keyword_rules(),
{
    let names = ["name", "full name", "first name", "last name", "your name"];
    let emails = ["email", "e-mail", "email address"];
    let phones = ["phone", "telephone", "mobile", "cell"];
    let full_name = Rule { category: Category::FullName, keywords: keyword_list(&names) };
    let email = Rule { category: Category::Email, keywords: keyword_list(&emails) };
    let phone = Rule { category: Category::Phone, keywords: keyword_list(&phones) };
    let r = vec![full_name, email, phone];
    assert(names@.map_values(|w: &str| w@) =~= keyword_rules()[0].1);
    assert(emails@.map_values(|w: &str| w@) =~= keyword_rules()[1].1);
    assert(phones@.map_values(|w: &str| w@) =~= keyword_rules()[2].1);
    assert(r@.map_values(|x: Rule| x@) =~= keyword_rules());
    r
}

/// Keyword `k` matches text `t`: as a substring, or within the fuzzy limit.
pub open spec fn keyword_hit(t: Seq<char>, k: Seq<char>) -> bool {
    contains_seq(t, k) || edit_distance(t, k) <= FUZZY_LIMIT
}

/// Some keyword of `kws` matches `t`.
pub open spec fn any_hit(t: Seq<char>, kws: Seq<Seq<char>>) -> bool {
    exists|j: int| 0 <= j < kws.len() && keyword_hit(t, #[trigger] kws[j])
}

/// Category `c` may be chosen under `p`: always when there is no profile,
/// otherwise only when the profile holds a value for it.
pub open spec fn admits(p: Option<ProfileView>, c: Category) -> bool {
    match p {
        None => true,
        Some(p) => p.value(c) is Some,
    }
}

/// The category of the first row of `rules` that is admitted under `p` and
/// has a keyword matching `t`.
pub open spec fn first_rule(
    t: Seq<char>,
    rules: Seq<(Category, Seq<Seq<char>>)>,
    p: Option<ProfileView>,
) -> Option<Category>
    decreases rules.len(),
{
    if rules.len() == 0 {
        None
    } else if admits(p, rules[0].0) && any_hit(t, rules[0].1) {
        Some(rules[0].0)
    } else {
        first_rule(t, rules.drop_first(), p)
    }
}

/// A row chosen under a profile is one for which the profile has a value.
pub proof fn lemma_first_rule_admitted(
    t: Seq<char>,
    rules: Seq<(Category, Seq<Seq<char>>)>,
    p: Option<ProfileView>,
)
    ensures
        first_rule(t, rules, p) matches Some(c) ==> admits(p, c),
    decreases rules.len(),
{
    if rules.len() > 0 {
        lemma_first_rule_admitted(t, rules.drop_first(), p);
    }
}

/// The row at `k` is chosen when it is admitted and matches, and no earlier
/// row is both.
pub proof fn lemma_first_rule_at(
    t: Seq<char>,
    rules: Seq<(Category, Seq<Seq<char>>)>,
    p: Option<ProfileView>,
    k: int,
)
    requires
        0 <= k < rules.len(),
        admits(p, rules[k].0),
        any_hit(t, rules[k].1),
        forall|i: int| 0 <= i < k ==> !(admits(p, #[trigger] rules[i].0) && any_hit(t, rules[i].1)),
    ensures
        first_rule(t, rules, p) == Some(rules[k].0),
    decreases k,
{
    if k > 0 {
        let rest = rules.drop_first();
        assert(!(admits(p, rules[0].0) && any_hit(t, rules[0].1)));
        assert forall|i: int| 0 <= i < k - 1 implies !(admits(p, #[trigger] rest[i].0) && any_hit(
            t,
            rest[i].1,
        )) by {
            assert(rest[i] == rules[i + 1]);
        }
        lemma_first_rule_at(t, rest, p, k - 1);
    }
}

/// A text within edit distance 2 of a keyword matches it; a text at distance 3
/// that does not contain the keyword does not.
pub proof fn lemma_fuzzy_boundary(t: Seq<char>, k: Seq<char>)
    ensures
        edit_distance(t, k) == 2 ==> keyword_hit(t, k),
        edit_distance(t, k) == 3 && !contains_seq(t, k) ==> !keyword_hit(t, k),
{
}

/// The category that the text `t` denotes, whatever the profile holds.
pub open spec fn classification(t: Seq<char>) -> Option<Category> {
    first_rule(t, keyword_rules(), None)
}

/// The first category that the text `t` denotes and for which `p` has a value.
pub open spec fn valued_classification(t: Seq<char>, p: ProfileView) -> Option<Category> {
    first_rule(t, keyword_rules(), Some(p))
}

fn hits(t: &Vec<char>, k: &Vec<char>) -> (r: bool)
    ensures
        r == keyword_hit(t@, k@),
{
    contains(t, k) || edit_distance_of(t, k) <= FUZZY_LIMIT
}

/// Whether `keyword` matches the normalized text `text`.
pub fn keyword_matches(text: &str, keyword: &str) -> (r: bool)
    ensures
        r == keyword_hit(text@, keyword@),
{
    hits(&chars_of(text), &chars_of(keyword))
}

fn any_keyword_hits(t: &Vec<char>, keywords: &Vec<String>) -> (r: bool)
    ensures
        r == any_hit(t@, keywords@.map_values(|k: String| k@)),
{
    let ghost kws = keywords@.map_values(|k: String| k@);
    for j in 0..keywords.len()
        invariant
            kws == keywords@.map_values(|k: String| k@),
            forall|m: int| 0 <= m < j ==> !keyword_hit(t@, #[trigger] kws[m]),
    {
        let k = chars_of(keywords[j].as_str());
        if hits(t, &k) {
            assert(keyword_hit(t@, kws[j as int]));
            return true;
        }
    }
    false
}

fn scan_rules(t: &Vec<char>, profile: Option<&ProfileData>) -> (r: Option<Category>)
    ensures
        r == first_rule(
            t@,
            keyword_rules(),
            match profile {
                Some(p) => Some(p@),
                None => None,
            },
        ),
{
    let ghost p = match profile {
        Some(p) => Some(p@),
        None => None,
    };
    let table = keyword_table();
    let ghost rules = keyword_rules();
    let n = table.len();
    assert(rules.subrange(0, n as int) =~= rules);
    for i in 0..n
        invariant
            n == table@.len(),
            table@.map_values(|x: Rule| x@) == rules,
            rules == keyword_rules(),
            p == match profile {
                Some(p) => Some(p@),
                None => None,
            },
            first_rule(t@, rules, p) == first_rule(t@, rules.subrange(i as int, n as int), p),
    {
        let rule = &table[i];
        assert(rule@ == rules[i as int]);
        assert(rules.subrange(i as int, n as int).drop_first() =~= rules.subrange(i + 1, n as int));
        let admitted = match profile {
            Some(pd) => pd.value_of(rule.category).is_some(),
            None => true,
        };
        if admitted && any_keyword_hits(t, &rule.keywords) {
            return Some(rule.category);
        }
    }
    None
}

/// The category that `text` denotes, scanning the keyword table in order.
pub fn classify(text: &str) -> (r: Option<Category>)
    ensures
        r == classification(text@),
{
    scan_rules(&chars_of(text), None)
}

/// The first category that `text` denotes and for which `profile` has a value.
pub fn classify_with_values(text: &str, profile: &ProfileData) -> (r: Option<Category>)
    ensures
        r == valued_classification(text@, profile@),
        r matches Some(c) ==> profile@.value(c) is Some,
{
    proof {
        lemma_first_rule_admitted(text@, keyword_rules(), Some(profile@));
    }
    scan_rules(&chars_of(text), Some(profile))
}

} // verus!
