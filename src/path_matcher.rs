//! Which request paths need authentication.
use vstd::prelude::*;

verus! {

/// How a path is treated by the middleware.
#[derive(Clone, Copy, Debug, PartialEq, Eq, Structural)]
pub enum PathClass {
    /// Passed through without any authentication work.
    Exempt,
    /// Requires primary authentication (and the second factor, where one is configured).
    Protected,
}

/// How a rule's pattern is compared with a path.
#[derive(Clone, Copy, Debug, PartialEq, Eq, Structural)]
pub enum MatchKind {
    /// The path equals the pattern.
    Exact,
    /// The path starts with the pattern.
    Prefix,
}

/// One classification rule.
pub struct PathRule {
    pub pattern: String,
    pub kind: MatchKind,
    pub class: PathClass,
}

/// Mathematical model of a rule: pattern, kind and class.
pub type RuleModel = (Seq<char>, MatchKind, PathClass);

impl PathRule {
    pub open spec fn model(&self) -> RuleModel {
        (self.pattern@, self.kind, self.class)
    }

    pub fn new(pattern: &str, kind: MatchKind, class: PathClass) -> (r: PathRule)
        ensures
            r.model() == (pattern@, kind, class),
    {
        PathRule { pattern: pattern.to_owned(), kind, class }
    }
}

/// Whether `rule` applies to `path`.
pub open spec fn rule_matches(rule: RuleModel, path: Seq<char>) -> bool {
    match rule.1 {
        MatchKind::Exact => rule.0 == path,
        MatchKind::Prefix => rule.0.is_prefix_of(path),
    }
}

/// How specific a rule is: longer patterns are more specific, and an exact
/// rule beats a prefix rule of the same length.
pub open spec fn specificity(rule: RuleModel) -> int {
    2 * rule.0.len() + if rule.1 == MatchKind::Exact { 1int } else { 0int }
}

/// Index of the most specific rule among the first `n` that applies to
/// `path`; on equal specificity the earlier rule wins.
pub open spec fn best_rule(rules: Seq<RuleModel>, path: Seq<char>, n: nat) -> Option<nat>
    decreases n,
{
    if n == 0 {
        None
    } else {
        let prev = best_rule(rules, path, (n - 1) as nat);
        let i = (n - 1) as nat;
        if rule_matches(rules[i as int], path) && (prev is None || specificity(rules[i as int])
            > specificity(rules[prev->0 as int])) {
            Some(i)
        } else {
            prev
        }
    }
}

/// `best_rule` picks a rule that applies and that no other applying rule
/// among the first `n` outranks; an earlier rule only where it is strictly
/// less specific. It picks none only where no rule applies.
pub proof fn best_rule_is_most_specific(rules: Seq<RuleModel>, path: Seq<char>, n: nat)
    requires
        n <= rules.len(),
    ensures
        match best_rule(rules, path, n) {
            Some(i) => {
                &&& i < n
                &&& rule_matches(rules[i as int], path)
                &&& forall|j: int|
                    0 <= j < n && rule_matches(rules[j], path) ==> specificity(rules[j])
                        <= specificity(rules[i as int])
                &&& forall|j: int|
                    0 <= j < i && rule_matches(rules[j], path) ==> specificity(rules[j])
                        < specificity(rules[i as int])
            },
            None => forall|j: int| 0 <= j < n ==> !rule_matches(rules[j], path),
        },
    decreases n,
{
    if n > 0 {
        best_rule_is_most_specific(rules, path, (n - 1) as nat);
    }
}

/// The class of `path` under `rules`, `fallback` where no rule applies.
pub open spec fn classify_spec(rules: Seq<RuleModel>, fallback: PathClass, path: Seq<char>) -> PathClass {
    match best_rule(rules, path, rules.len()) {
        Some(i) => rules[i as int].2,
        None => fallback,
    }
}

/// Whether `prefix` is a prefix of `s`.
pub fn starts_with(s: &str, prefix: &str) -> (r: bool)
    ensures
        r == prefix@.is_prefix_of(s@),
{
    let n = prefix.unicode_len();
    let m = s.unicode_len();
    if n > m {
        return false;
    }
    let mut i: usize = 0;
    while i < n
        invariant
            n == prefix@.len(),
            m == s@.len(),
            n <= m,
            i <= n,
            forall|j: int| 0 <= j < i ==> prefix@[j] == s@[j],
        decreases n - i,
    {
        if prefix.get_char(i) != s.get_char(i) {
            return false;
        }
        i = i + 1;
    }
    true
}

/// Whether two strings hold the same characters.
pub fn same_text(a: &str, b: &str) -> (r: bool)
    ensures
        r == (a@ == b@),
{
    if a.unicode_len() != b.unicode_len() {
        return false;
    }
    let r = starts_with(a, b);
    proof {
        if r {
            assert(a@ =~= b@);
        }
    }
    r
}

/// Whether `rule` applies to `path`.
pub fn rule_applies(rule: &PathRule, path: &str) -> (r: bool)
    ensures
        r == rule_matches(rule.model(), path@),
{
    match rule.kind {
        MatchKind::Exact => same_text(path, rule.pattern.as_str()),
        MatchKind::Prefix => starts_with(path, rule.pattern.as_str()),
    }
}

/// Ordered rule set with a class for paths that no rule covers.
pub struct PathMatcher {
    rules: Vec<PathRule>,
    fallback: PathClass,
}

impl PathMatcher {
    pub closed spec fn rules(&self) -> Seq<RuleModel> {
        self.rules@.map_values(|r: PathRule| r.model())
    }

    pub closed spec fn fallback(&self) -> PathClass {
        self.fallback
    }

    /// The class that `classify` gives `path`.
    pub open spec fn class_of(&self, path: Seq<char>) -> PathClass {
        classify_spec(self.rules(), self.fallback(), path)
    }

    /// A matcher with no rules: every path gets `fallback`.
    pub fn new(fallback: PathClass) -> (r: PathMatcher)
        ensures
            r.rules() == Seq::<RuleModel>::empty(),
            r.fallback() == fallback,
    {
        let r = PathMatcher { rules: Vec::new(), fallback };
        assert(r.rules() =~= Seq::<RuleModel>::empty());
        r
    }

    /// Adds a rule after the existing ones.
    pub fn add_rule(&mut self, rule: PathRule)
        ensures
            final(self).rules() == old(self).rules().push(rule.model()),
            final(self).fallback() == old(self).fallback(),
    {
        let ghost m = rule.model();
        self.rules.push(rule);
        assert(self.rules() =~= old(self).rules().push(m));
    }

    /// The class of `path`: that of the most specific rule that applies
    /// (an exact rule beats a prefix rule, a longer pattern a shorter one,
    /// an earlier rule a later one of equal standing), else the fallback.
    pub fn classify(&self, path: &str) -> (r: PathClass)
        ensures
            r == self.class_of(path@),
    {
        let mut best: Option<usize> = None;
        let mut i: usize = 0;
        while i < self.rules.len()
            invariant
                i <= self.rules@.len(),
                self.rules() == self.rules@.map_values(|r: PathRule| r.model()),
                best_rule(self.rules(), path@, i as nat) == match best {
                    Some(b) => Some(b as nat),
                    None => None::<nat>,
                },
                best is Some ==> best->0 < i,
            decreases self.rules@.len() - i,
        {
            let rule = &self.rules[i];
            if rule_applies(rule, path) {
                let better = match best {
                    None => true,
                    Some(b) => self.more_specific(i, b),
                };
                if better {
                    best = Some(i);
                }
            }
            i = i + 1;
        }
        match best {
            Some(b) => self.rules[b].class,
            None => self.fallback,
        }
    }

    /// Whether the rule at `i` is strictly more specific than the rule at `j`.
    fn more_specific(&self, i: usize, j: usize) -> (r: bool)
        requires
            i < self.rules@.len(),
            j < self.rules@.len(),
        ensures
            r == (specificity(self.rules()[i as int]) > specificity(self.rules()[j as int])),
    {
        let a = &self.rules[i];
        let b = &self.rules[j];
        let la = a.pattern.as_str().unicode_len();
        let lb = b.pattern.as_str().unicode_len();
        la > lb || (la == lb && a.kind == MatchKind::Exact && b.kind == MatchKind::Prefix)
    }
}

impl Default for PathMatcher {
    /// Protects every path but the login and health-check endpoints.
    fn default() -> (r: PathMatcher)
        ensures
            r.rules() == seq![
                ("/login"@, MatchKind::Exact, PathClass::Exempt),
                ("/health"@, MatchKind::Exact, PathClass::Exempt),
            ],
            r.fallback() == PathClass::Protected,
    {
        let mut m = PathMatcher::new(PathClass::Protected);
        m.add_rule(PathRule::new("/login", MatchKind::Exact, PathClass::Exempt));
        m.add_rule(PathRule::new("/health", MatchKind::Exact, PathClass::Exempt));
        proof {
            assert(m.rules() =~= seq![
                ("/login"@, MatchKind::Exact, PathClass::Exempt),
                ("/health"@, MatchKind::Exact, PathClass::Exempt),
            ]);
        }
        m
    }
}

} // verus!
