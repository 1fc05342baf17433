//! Matchmaking rule sets and how they are matched against game attributes.
use vstd::prelude::*;
use crate::attrs::{AttrMap, pair_texts};
use crate::text::str_eq;

verus! {

/// A known matchmaking rule: the rule key sent by clients and the game
/// attribute that the rule is checked against.
#[derive(Clone, Copy)]
pub struct Rule {
    /// The rule key
    pub key: &'static str,
    /// Game attribute represented by the rule
    pub attr: &'static str,
}

impl Rule {
    pub fn new(key: &'static str, attr: &'static str) -> (r: Rule)
        ensures
            r.key == key,
            r.attr == attr,
    {
        Rule { key, attr }
    }
}

/// The general rules (map, enemy type, difficulty).
pub open spec fn spec_general_rules() -> Seq<Rule> {
    seq![
        Rule { key: "ME3_gameMapMatchRule", attr: "ME3map" },
        Rule { key: "ME3_gameEnemyTypeRule", attr: "ME3gameEnemyType" },
        Rule { key: "ME3_gameDifficultyRule", attr: "ME3gameDifficulty" },
    ]
}

/// The rules for downloadable content packs.
pub open spec fn spec_dlc_rules() -> Seq<Rule> {
    seq![
        Rule { key: "ME3_rule_dlc2300", attr: "ME3_dlc2300" },
        Rule { key: "ME3_rule_dlc2500", attr: "ME3_dlc2500" },
        Rule { key: "ME3_rule_dlc2700", attr: "ME3_dlc2700" },
        Rule { key: "ME3_rule_dlc3050", attr: "ME3_dlc3050" },
        Rule { key: "ME3_rule_dlc3225", attr: "ME3_dlc3225" },
    ]
}

/// Every known rule, general rules first.
pub open spec fn spec_known_rules() -> Seq<Rule> {
    spec_general_rules() + spec_dlc_rules()
}

/// Known general rules and the attribute they operate over.
pub fn general_rules() -> (r: Vec<Rule>)
    ensures
        r@ == spec_general_rules(),
{
    let r = vec![
        Rule::new("ME3_gameMapMatchRule", "ME3map"),
        Rule::new("ME3_gameEnemyTypeRule", "ME3gameEnemyType"),
        Rule::new("ME3_gameDifficultyRule", "ME3gameDifficulty"),
    ];
    assert(r@ =~= spec_general_rules());
    r
}

/// Rules for DLC that are present.
pub fn dlc_rules() -> (r: Vec<Rule>)
    ensures
        r@ == spec_dlc_rules(),
{
    let r = vec![
        Rule::new("ME3_rule_dlc2300", "ME3_dlc2300"),
        Rule::new("ME3_rule_dlc2500", "ME3_dlc2500"),
        Rule::new("ME3_rule_dlc2700", "ME3_dlc2700"),
        Rule::new("ME3_rule_dlc3050", "ME3_dlc3050"),
        Rule::new("ME3_rule_dlc3225", "ME3_dlc3225"),
    ];
    assert(r@ =~= spec_dlc_rules());
    r
}

/// The first rule of `rules` whose key is `key`.
pub open spec fn find_rule(rules: Seq<Rule>, key: Seq<char>) -> Option<Rule>
    decreases rules.len(),
{
    if rules.len() == 0 {
        None
    } else if rules[0].key@ == key {
        Some(rules[0])
    } else {
        find_rule(rules.drop_first(), key)
    }
}

/// Defines a rule to be matched and the value to match.
pub struct MatchRule {
    /// Rule being matched for
    pub rule: Rule,
    /// Value to match using
    pub value: String,
}

/// Set of rules to match.
pub struct RuleSet {
    /// The rules to match
    pub rules: Vec<MatchRule>,
}

/// The value a client sends for a rule it does not care about.
pub open spec fn spec_abstain() -> Seq<char> {
    "abstain"@
}

/// The rules built from requested rule/value pairs: pairs whose value is
/// `abstain` and pairs naming an unknown rule are left out, the rest keep
/// their order.
pub open spec fn build_rules(pairs: Seq<(Seq<char>, Seq<char>)>) -> Seq<(Rule, Seq<char>)>
    decreases pairs.len(),
{
    if pairs.len() == 0 {
        Seq::empty()
    } else {
        let rest = build_rules(pairs.drop_last());
        let (key, value) = pairs.last();
        if value == spec_abstain() {
            rest
        } else {
            match find_rule(spec_known_rules(), key) {
                Some(rule) => rest.push((rule, value)),
                None => rest,
            }
        }
    }
}

impl RuleSet {
    /// The rules of this set with their values.
    pub open spec fn view_rules(&self) -> Seq<(Rule, Seq<char>)> {
        self.rules@.map_values(|m: MatchRule| (m.rule, m.value@))
    }

    /// Whether some rule of this set has the key `key`.
    pub open spec fn has_rule_key(&self, key: Seq<char>) -> bool {
        exists|i: int| 0 <= i < self.rules@.len() && #[trigger] self.rules@[i].rule.key@ == key
    }

    /// Whether this rule set matches a game with the attributes `attrs`:
    /// the game is public (or says nothing of its privacy), each rule's
    /// attribute holds the rule's value, and the game requires no DLC for
    /// which this set has no rule.
    pub open spec fn spec_matches(&self, attrs: AttrMap) -> bool {
        &&& (attrs.lookup("ME3privacy"@) matches Some(p) ==> p == "PUBLIC"@)
        &&& forall|i: int| 0 <= i < self.rules@.len()
                ==> attrs.lookup(#[trigger] self.rules@[i].rule.attr@) == Some(self.rules@[i].value@)
        &&& forall|j: int| 0 <= j < spec_dlc_rules().len()
                ==> (#[trigger] attrs.lookup(spec_dlc_rules()[j].attr@) is Some
                    ==> self.has_rule_key(spec_dlc_rules()[j].key@))
    }

    /// Creates a new set of rule matches from the provided rule value pairs.
    pub fn new(pairs: Vec<(String, String)>) -> (r: RuleSet)
        ensures
            r.view_rules() == build_rules(pair_texts(pairs@)),
    {
        let mut known = general_rules();
        let mut dlc = dlc_rules();
        known.append(&mut dlc);
        assert(known@ =~= spec_known_rules());

        let mut rules: Vec<MatchRule> = Vec::new();
        let n = pairs.len();
        let mut i: usize = 0;
        while i < n
            invariant
                n == pairs@.len(),
                0 <= i <= n,
                known@ == spec_known_rules(),
                rules@.map_values(|m: MatchRule| (m.rule, m.value@)) == build_rules(pair_texts(pairs@.take(i as int))),
            decreases n - i,
        {
            let ghost prefix = pairs@.take(i + 1);
            proof {
                assert(prefix.drop_last() =~= pairs@.take(i as int));
                assert(prefix.last() == pairs@[i as int]);
                assert(pair_texts(prefix).drop_last() =~= pair_texts(pairs@.take(i as int)));
                assert(pair_texts(prefix).last() == (pairs@[i as int].0@, pairs@[i as int].1@));
            }
            let key = &pairs[i].0;
            let value = &pairs[i].1;
            if !str_eq(value.as_str(), "abstain") {
                let found = find_known_rule(&known, key.as_str());
                match found {
                    Some(rule) => {
                        let ghost before = rules@;
                        rules.push(MatchRule { rule, value: value.clone() });
                        proof {
                            assert(rules@.map_values(|m: MatchRule| (m.rule, m.value@))
                                =~= before.map_values(|m: MatchRule| (m.rule, m.value@)).push((rule, value@)));
                        }
                    },
                    None => {},
                }
            }
            i = i + 1;
        }
        proof {
            assert(pairs@.take(n as int) =~= pairs@);
        }
        RuleSet { rules }
    }

    /// Checks if the rules provided in this rule set match the values in
    /// the attributes map.
    pub fn matches(&self, attributes: &AttrMap) -> (r: bool)
        ensures
            r == self.spec_matches(*attributes),
    {
        // Non public matches are unable to be matched
        if let Some(privacy) = attributes.get("ME3privacy") {
            if !str_eq(privacy.as_str(), "PUBLIC") {
                return false;
            }
        }

        // Handle matching requested rules
        let n = self.rules.len();
        let mut i: usize = 0;
        while i < n
            invariant
                n == self.rules@.len(),
                0 <= i <= n,
                forall|k: int| 0 <= k < i
                    ==> attributes.lookup(#[trigger] self.rules@[k].rule.attr@) == Some(self.rules@[k].value@),
            decreases n - i,
        {
            let rule = &self.rules[i];
            match attributes.get(rule.rule.attr) {
                Some(value) => {
                    if !str_eq(value.as_str(), rule.value.as_str()) {
                        return false;
                    }
                },
                None => {
                    return false;
                },
            }
            i = i + 1;
        }

        // Handle the game requiring a DLC rule but the client not specifying it
        let dlc = dlc_rules();
        let m = dlc.len();
        let mut j: usize = 0;
        while j < m
            invariant
                m == dlc@.len(),
                dlc@ == spec_dlc_rules(),
                0 <= j <= m,
                forall|k: int| 0 <= k < self.rules@.len()
                    ==> attributes.lookup(#[trigger] self.rules@[k].rule.attr@) == Some(self.rules@[k].value@),
                forall|k: int| 0 <= k < j
                    ==> (#[trigger] attributes.lookup(spec_dlc_rules()[k].attr@) is Some
                        ==> self.has_rule_key(spec_dlc_rules()[k].key@)),
            decreases m - j,
        {
            let rule = dlc[j];
            let local = self.has_rule(rule.key);
            let present = attributes.get(rule.attr).is_some();
            if present && !local {
                return false;
            }
            j = j + 1;
        }
        true
    }

    /// Whether this set holds a rule with the key `key`.
    pub fn has_rule(&self, key: &str) -> (r: bool)
        ensures
            r == self.has_rule_key(key@),
    {
        let n = self.rules.len();
        let mut i: usize = 0;
        while i < n
            invariant
                n == self.rules@.len(),
                0 <= i <= n,
                forall|k: int| 0 <= k < i ==> #[trigger] self.rules@[k].rule.key@ != key@,
            decreases n - i,
        {
            if str_eq(self.rules[i].rule.key, key) {
                return true;
            }
            i = i + 1;
        }
        false
    }
}

/// Finds the first known rule with the key `key`.
fn find_known_rule(known: &Vec<Rule>, key: &str) -> (r: Option<Rule>)
    ensures
        r == find_rule(known@, key@),
{
    let n = known.len();
    let mut i: usize = 0;
    proof {
        assert(known@.skip(0) =~= known@);
    }
    while i < n
        invariant
            n == known@.len(),
            0 <= i <= n,
            find_rule(known@, key@) == find_rule(known@.skip(i as int), key@),
        decreases n - i,
    {
        proof {
            assert(known@.skip(i as int)[0] == known@[i as int]);
            assert(known@.skip(i as int).drop_first() =~= known@.skip(i + 1));
        }
        if str_eq(known[i].key, key) {
            return Some(known[i]);
        }
        i = i + 1;
    }
    proof {
        assert(known@.skip(n as int).len() == 0);
    }
    None
}

/// The requested pairs that a rule set keeps: those whose value is not
/// `abstain` and whose key names a known rule, in order.
pub open spec fn kept_pairs(pairs: Seq<(Seq<char>, Seq<char>)>) -> Seq<(Seq<char>, Seq<char>)>
    decreases pairs.len(),
{
    if pairs.len() == 0 {
        Seq::empty()
    } else {
        let rest = kept_pairs(pairs.drop_last());
        let (key, value) = pairs.last();
        if value != spec_abstain() && find_rule(spec_known_rules(), key) is Some {
            rest.push(pairs.last())
        } else {
            rest
        }
    }
}

proof fn lemma_build_rules_kept(pairs: Seq<(Seq<char>, Seq<char>)>)
    ensures
        build_rules(kept_pairs(pairs)) == build_rules(pairs),
    decreases pairs.len(),
{
    if pairs.len() > 0 {
        lemma_build_rules_kept(pairs.drop_last());
        let rest = kept_pairs(pairs.drop_last());
        let (key, value) = pairs.last();
        if value != spec_abstain() && find_rule(spec_known_rules(), key) is Some {
            assert(rest.push(pairs.last()).drop_last() =~= rest);
        }
    }
}

/// Abstained rules and rules whose key is unknown never change a match:
/// a rule set made from the requested pairs and one made from only the
/// pairs it keeps match the same games.
pub proof fn lemma_ignored_rules_match(
    pairs: Seq<(Seq<char>, Seq<char>)>,
    attributes: AttrMap,
    all: RuleSet,
    kept: RuleSet,
)
    requires
        all.view_rules() == build_rules(pairs),
        kept.view_rules() == build_rules(kept_pairs(pairs)),
    ensures
        all.spec_matches(attributes) == kept.spec_matches(attributes),
{
    lemma_build_rules_kept(pairs);
    let va = all.view_rules();
    let vk = kept.view_rules();
    assert(va == vk);
    assert(all.rules@.len() == va.len() && kept.rules@.len() == vk.len());
    assert forall|i: int| 0 <= i < all.rules@.len() implies #[trigger] all.rules@[i].rule == kept.rules@[i].rule
        && all.rules@[i].value@ == kept.rules@[i].value@ by {
        assert(va[i] == (all.rules@[i].rule, all.rules@[i].value@));
        assert(vk[i] == (kept.rules@[i].rule, kept.rules@[i].value@));
    }
    let n = all.rules@.len();
    if forall|i: int| 0 <= i < n
        ==> attributes.lookup(#[trigger] all.rules@[i].rule.attr@) == Some(all.rules@[i].value@) {
        assert forall|i: int| 0 <= i < n implies attributes.lookup(#[trigger] kept.rules@[i].rule.attr@)
            == Some(kept.rules@[i].value@) by {
            assert(all.rules@[i].rule == kept.rules@[i].rule);
        }
    }
    if forall|i: int| 0 <= i < n
        ==> attributes.lookup(#[trigger] kept.rules@[i].rule.attr@) == Some(kept.rules@[i].value@) {
        assert forall|i: int| 0 <= i < n implies attributes.lookup(#[trigger] all.rules@[i].rule.attr@)
            == Some(all.rules@[i].value@) by {
            assert(all.rules@[i].rule == kept.rules@[i].rule);
        }
    }
    assert forall|key: Seq<char>| all.has_rule_key(key) == kept.has_rule_key(key) by {
        if all.has_rule_key(key) {
            let i = choose|i: int| 0 <= i < all.rules@.len() && #[trigger] all.rules@[i].rule.key@ == key;
            assert(kept.rules@[i].rule.key@ == key);
        }
        if kept.has_rule_key(key) {
            let i = choose|i: int| 0 <= i < kept.rules@.len() && #[trigger] kept.rules@[i].rule.key@ == key;
            assert(all.rules@[i].rule.key@ == key);
        }
    }
}

} // verus!
