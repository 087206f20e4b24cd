//! A table of static rules: class names with fixed declarations.
use vstd::prelude::*;
use crate::css::{Decl, Rule, RuleView, clone_decls, decls_view, rules_view};
use crate::parsing::UtilityCandidate;
use crate::theme::{distinct_keys, pairs_map, lemma_pairs_map_absent, lemma_pairs_map_index, lemma_pairs_map_update};

verus! {

/// Declarations by class name, each name once.
pub struct StaticRuleStorage(pub Vec<(String, Vec<Decl>)>);

impl View for StaticRuleStorage {
    type V = Map<Seq<char>, Seq<Decl>>;

    open spec fn view(&self) -> Map<Seq<char>, Seq<Decl>> {
        pairs_map(self.0@).map_values(|d: Vec<Decl>| d@)
    }
}

impl StaticRuleStorage {
    pub open spec fn wf(&self) -> bool {
        distinct_keys(self.0@)
    }

    /// An empty table.
    pub fn new() -> (r: StaticRuleStorage)
        ensures
            r.wf(),
            r@ == Map::<Seq<char>, Seq<Decl>>::empty(),
    {
        let r = StaticRuleStorage(Vec::new());
        assert(r@ =~= Map::<Seq<char>, Seq<Decl>>::empty());
        r
    }

    fn find(&self, key: &str) -> (r: Option<usize>)
        ensures
            match r {
                Some(i) => i < self.0@.len() && self.0@[i as int].0@ == key@,
                None => forall|i: int| 0 <= i < self.0@.len() ==> self.0@[i].0@ != key@,
            },
    {
        let wanted: String = key.to_owned();
        let mut i: usize = 0;
        while i < self.0.len()
            invariant
                i <= self.0@.len(),
                wanted@ == key@,
                forall|j: int| 0 <= j < i ==> self.0@[j].0@ != key@,
            decreases self.0.len() - i,
        {
            if self.0[i].0 == wanted {
                return Some(i);
            }
            i = i + 1;
        }
        None
    }

    /// Stores `value` under `key`, replacing what was there.
    pub fn insert(&mut self, key: String, value: Vec<Decl>)
        requires
            old(self).wf(),
        ensures
            final(self).wf(),
            final(self)@ == old(self)@.insert(key@, value@),
    {
        let ghost k = key@;
        let ghost v = value@;
        match self.find(key.as_str()) {
            Some(i) => {
                proof {
                    lemma_pairs_map_update(self.0@, i as int, (key, value));
                }
                self.0.set(i, (key, value));
            },
            None => {
                let ghost before = self.0@;
                self.0.push((key, value));
                proof {
                    assert(self.0@.drop_last() =~= before);
                }
            },
        }
        assert(self@ =~= old(self)@.insert(k, v));
    }

    /// A copy of the declarations under `key`.
    pub fn get(&self, key: &str) -> (r: Option<Vec<Decl>>)
        requires
            self.wf(),
        ensures
            match r {
                Some(d) => self@.contains_key(key@) && self@[key@] == d@,
                None => !self@.contains_key(key@),
            },
    {
        match self.find(key) {
            Some(i) => {
                proof {
                    lemma_pairs_map_index(self.0@, i as int);
                }
                Some(clone_decls(&self.0[i].1))
            },
            None => {
                proof {
                    lemma_pairs_map_absent(self.0@, key@);
                }
                None
            },
        }
    }

    /// The rule `&` with the declarations stored under the candidate's key.
    pub fn try_apply(&self, candidate: &UtilityCandidate) -> (r: Option<Rule>)
        requires
            self.wf(),
        ensures
            match r {
                Some(rule) => self@.contains_key(candidate.key@) && rule@ == (RuleView {
                    selector: seq!['&'],
                    decls: decls_view(self@[candidate.key@]),
                    rules: Seq::empty(),
                }),
                None => !self@.contains_key(candidate.key@),
            },
    {
        match self.get(candidate.key.as_str()) {
            Some(d) => {
                let rule = Rule::new_with_decls("&", d);
                proof {
                    reveal_strlit("&");
                    assert(rule.selector@ =~= seq!['&']);
                    assert(rules_view(rule.rules.0@) =~= Seq::<RuleView>::empty());
                    assert(rule@.decls == decls_view(self@[candidate.key@]));
                }
                Some(rule)
            },
            None => None,
        }
    }
}

} // verus!
