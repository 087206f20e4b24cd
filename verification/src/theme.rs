//! Theme values: named tables of strings, and the theme that holds them by key.
use vstd::prelude::*;
use crate::css::{RuleList, RuleView};

verus! {

/// The map that a list of distinct-keyed pairs stands for.
pub open spec fn pairs_map<V>(s: Seq<(String, V)>) -> Map<Seq<char>, V>
    decreases s.len(),
{
    if s.len() == 0 {
        Map::empty()
    } else {
        pairs_map(s.drop_last()).insert(s.last().0@, s.last().1)
    }
}

/// The table of strings that a list of string pairs stands for.
pub open spec fn str_pairs_map(s: Seq<(String, String)>) -> Map<Seq<char>, Seq<char>> {
    pairs_map(s).map_values(|v: String| v@)
}

/// The table of rule lists that a list of pairs stands for.
pub open spec fn rule_pairs_map(s: Seq<(String, RuleList)>) -> Map<Seq<char>, Seq<RuleView>> {
    pairs_map(s).map_values(|v: RuleList| v@)
}

/// No key occurs twice.
pub open spec fn distinct_keys<V>(s: Seq<(String, V)>) -> bool {
    forall|i: int, j: int| 0 <= i < j < s.len() ==> s[i].0@ != s[j].0@
}

pub proof fn lemma_pairs_map_index<V>(s: Seq<(String, V)>, i: int)
    requires
        distinct_keys(s),
        0 <= i < s.len(),
    ensures
        pairs_map(s).contains_key(s[i].0@),
        pairs_map(s)[s[i].0@] == s[i].1,
    decreases s.len(),
{
    if i < s.len() - 1 {
        lemma_pairs_map_index(s.drop_last(), i);
    }
}

pub proof fn lemma_pairs_map_absent<V>(s: Seq<(String, V)>, k: Seq<char>)
    requires
        forall|i: int| 0 <= i < s.len() ==> s[i].0@ != k,
    ensures
        !pairs_map(s).contains_key(k),
    decreases s.len(),
{
    if s.len() > 0 {
        lemma_pairs_map_absent(s.drop_last(), k);
    }
}

pub proof fn lemma_pairs_map_dom<V>(s: Seq<(String, V)>, k: Seq<char>)
    requires
        pairs_map(s).contains_key(k),
    ensures
        exists|i: int| 0 <= i < s.len() && s[i].0@ == k,
    decreases s.len(),
{
    if s.len() > 0 && k != s.last().0@ {
        lemma_pairs_map_dom(s.drop_last(), k);
        let i = choose|i: int| 0 <= i < s.len() - 1 && s.drop_last()[i].0@ == k;
        assert(s[i].0@ == k);
    }
}

pub proof fn lemma_pairs_map_update<V>(s: Seq<(String, V)>, i: int, p: (String, V))
    requires
        distinct_keys(s),
        0 <= i < s.len(),
        p.0@ == s[i].0@,
    ensures
        distinct_keys(s.update(i, p)),
        pairs_map(s.update(i, p)) == pairs_map(s).insert(p.0@, p.1),
    decreases s.len(),
{
    let t = s.update(i, p);
    if i == s.len() - 1 {
        assert(t.drop_last() =~= s.drop_last());
        assert forall|k: Seq<char>| #[trigger] pairs_map(s.drop_last()).contains_key(k)
            implies k != p.0@ by {
            lemma_pairs_map_dom(s.drop_last(), k);
        }
        assert(pairs_map(t) =~= pairs_map(s).insert(p.0@, p.1));
    } else {
        assert(t.drop_last() =~= s.drop_last().update(i, p));
        lemma_pairs_map_update(s.drop_last(), i, p);
        assert(pairs_map(t) =~= pairs_map(s).insert(p.0@, p.1));
    }
}

/// A table from names to values, with distinct names.
pub struct StrMap {
    pub entries: Vec<(String, String)>,
}

impl View for StrMap {
    type V = Map<Seq<char>, Seq<char>>;

    open spec fn view(&self) -> Map<Seq<char>, Seq<char>> {
        str_pairs_map(self.entries@)
    }
}

impl StrMap {
    pub open spec fn wf(&self) -> bool {
        distinct_keys(self.entries@)
    }

    /// An empty table.
    pub fn new() -> (r: StrMap)
        ensures
            r.wf(),
            r@ == Map::<Seq<char>, Seq<char>>::empty(),
    {
        StrMap { entries: Vec::new() }
    }

    /// The number of names.
    pub fn len(&self) -> (r: usize)
        requires
            self.wf(),
        ensures
            r == self@.len(),
    {
        proof {
            self.lemma_len();
        }
        self.entries.len()
    }

    proof fn lemma_len(&self)
        requires
            self.wf(),
        ensures
            self@.dom().finite(),
            self@.len() == self.entries@.len(),
    {
        let s = self.entries@;
        lemma_prefix_len(s);
        assert(self@.dom() =~= pairs_map(s).dom());
    }

    /// The position of `key`, if present.
    fn find(&self, key: &str) -> (r: Option<usize>)
        requires
            self.wf(),
        ensures
            match r {
                Some(i) => i < self.entries@.len() && self.entries@[i as int].0@ == key@,
                None => forall|i: int| 0 <= i < self.entries@.len() ==> self.entries@[i].0@ != key@,
            },
    {
        let wanted: String = key.to_owned();
        let mut i: usize = 0;
        while i < self.entries.len()
            invariant
                i <= self.entries@.len(),
                wanted@ == key@,
                forall|j: int| 0 <= j < i ==> self.entries@[j].0@ != key@,
            decreases self.entries.len() - i,
        {
            if self.entries[i].0 == wanted {
                return Some(i);
            }
            i = i + 1;
        }
        None
    }

    /// The value stored under `key`.
    pub fn get(&self, key: &str) -> (r: Option<&String>)
        requires
            self.wf(),
        ensures
            match r {
                Some(v) => self@.contains_key(key@) && self@[key@] == v@,
                None => !self@.contains_key(key@),
            },
    {
        match self.find(key) {
            Some(i) => {
                proof {
                    lemma_pairs_map_index(self.entries@, i as int);
                }
                Some(&self.entries[i].1)
            },
            None => {
                proof {
                    lemma_pairs_map_absent(self.entries@, key@);
                }
                None
            },
        }
    }

    /// Stores `value` under `key`, replacing what was there.
    pub fn insert(&mut self, key: String, value: String)
        requires
            old(self).wf(),
        ensures
            final(self).wf(),
            final(self)@ == old(self)@.insert(key@, value@),
    {
        match self.find(key.as_str()) {
            Some(i) => {
                proof {
                    lemma_pairs_map_update(self.entries@, i as int, (key, value));
                }
                self.entries.set(i, (key, value));
            },
            None => {
                let ghost old_entries = self.entries@;
                self.entries.push((key, value));
                proof {
                    assert(self.entries@.drop_last() =~= old_entries);
                }
            },
        }
    }

    /// Stores every pair of `other`, the later one winning.
    pub fn extend(&mut self, other: StrMap)
        requires
            old(self).wf(),
            other.wf(),
        ensures
            final(self).wf(),
            final(self)@ == old(self)@.union_prefer_right(other@),
    {
        let ghost start = self@;
        let mut i: usize = 0;
        let entries = other.entries;
        while i < entries.len()
            invariant
                i <= entries@.len(),
                self.wf(),
                distinct_keys(entries@),
                self@ == start.union_prefer_right(str_pairs_map(entries@.take(i as int))),
            decreases entries.len() - i,
        {
            let k = entries[i].0.clone();
            let v = entries[i].1.clone();
            proof {
                assert(entries@.take(i as int + 1).drop_last() =~= entries@.take(i as int));
            }
            self.insert(k, v);
            proof {
                assert(entries@.take(i as int + 1).last() == entries@[i as int]);
                assert(self@ =~= start.union_prefer_right(str_pairs_map(entries@.take(i as int + 1))));
            }
            i = i + 1;
        }
        proof {
            assert(entries@.take(i as int) =~= entries@);
        }
    }
}

proof fn lemma_prefix_len<V>(s: Seq<(String, V)>)
    requires
        distinct_keys(s),
    ensures
        pairs_map(s).dom().finite(),
        pairs_map(s).len() == s.len(),
    decreases s.len(),
{
    if s.len() > 0 {
        lemma_prefix_len(s.drop_last());
        assert forall|i: int| 0 <= i < s.drop_last().len() implies s.drop_last()[i].0@ != s.last().0@ by {
        }
        lemma_pairs_map_absent(s.drop_last(), s.last().0@);
    }
}


/// A theme value: a table of strings given by the user or built in, or a
/// table of rule lists.
pub enum ThemeValue {
    Dynamic(StrMap),
    Static(StrMap),
    RuleList(Vec<(String, RuleList)>),
}

/// The abstract form of a [`ThemeValue`].
pub enum ThemeValueView {
    Dynamic(Map<Seq<char>, Seq<char>>),
    Static(Map<Seq<char>, Seq<char>>),
    RuleList(Map<Seq<char>, Seq<RuleView>>),
}

impl View for ThemeValue {
    type V = ThemeValueView;

    open spec fn view(&self) -> ThemeValueView {
        match self {
            ThemeValue::Dynamic(m) => ThemeValueView::Dynamic(m@),
            ThemeValue::Static(m) => ThemeValueView::Static(m@),
            ThemeValue::RuleList(r) => ThemeValueView::RuleList(rule_pairs_map(r@)),
        }
    }
}

impl ThemeValueView {
    /// What [`ThemeValue::get`] gives for `key`.
    pub open spec fn spec_get(self, key: Seq<char>) -> Option<Seq<char>> {
        match self {
            ThemeValueView::Dynamic(m) => if m.contains_key(key) { Some(m[key]) } else { None },
            ThemeValueView::Static(m) => if m.contains_key(key) { Some(m[key]) } else { None },
            ThemeValueView::RuleList(_) => None,
        }
    }
}

impl ThemeValue {
    pub open spec fn wf(&self) -> bool {
        match self {
            ThemeValue::Dynamic(m) => m.wf(),
            ThemeValue::Static(m) => m.wf(),
            ThemeValue::RuleList(r) => distinct_keys(r@),
        }
    }

    /// An empty built-in table.
    pub fn default() -> (r: ThemeValue)
        ensures
            r.wf(),
            r@ == ThemeValueView::Static(Map::empty()),
    {
        ThemeValue::Static(StrMap::new())
    }

    /// The string stored under `key`; rule-list tables hold none.
    pub fn get(&self, key: &str) -> (r: Option<String>)
        requires
            self.wf(),
        ensures
            match r {
                Some(v) => self@.spec_get(key@) == Some(v@),
                None => self@.spec_get(key@) is None,
            },
    {
        match self {
            ThemeValue::Static(m) => match m.get(key) {
                Some(v) => Some(v.clone()),
                None => None,
            },
            ThemeValue::Dynamic(m) => match m.get(key) {
                Some(v) => Some(v.clone()),
                None => None,
            },
            ThemeValue::RuleList(_) => None,
        }
    }

    /// The rule list stored under `key`, in a rule-list table.
    pub fn get_rule_list(&self, key: &str) -> (r: Option<&RuleList>)
        requires
            self.wf(),
        ensures
            match self@ {
                ThemeValueView::RuleList(m) => match r {
                    Some(l) => m.contains_key(key@) && m[key@] == l@,
                    None => !m.contains_key(key@),
                },
                _ => r is None,
            },
    {
        match self {
            ThemeValue::RuleList(entries) => {
                let wanted: String = key.to_owned();
                let mut i: usize = 0;
                while i < entries.len()
                    invariant
                        i <= entries@.len(),
                        wanted@ == key@,
                        distinct_keys(entries@),
                        self@ == ThemeValueView::RuleList(rule_pairs_map(entries@)),
                        forall|j: int| 0 <= j < i ==> entries@[j].0@ != key@,
                    decreases entries.len() - i,
                {
                    if entries[i].0 == wanted {
                        proof {
                            lemma_pairs_map_index(entries@, i as int);
                        }
                        return Some(&entries[i].1);
                    }
                    i = i + 1;
                }
                proof {
                    lemma_pairs_map_absent(entries@, key@);
                }
                None
            },
            _ => None,
        }
    }

    /// The name-value pairs of a string table; a rule-list table gives none.
    pub fn iter(&self) -> (r: Vec<(String, String)>)
        requires
            self.wf(),
        ensures
            match self@ {
                ThemeValueView::RuleList(_) => r@.len() == 0,
                ThemeValueView::Dynamic(m) => distinct_keys(r@) && str_pairs_map(r@) == m,
                ThemeValueView::Static(m) => distinct_keys(r@) && str_pairs_map(r@) == m,
            },
    {
        match self {
            ThemeValue::Static(m) => copy_pairs(&m.entries),
            ThemeValue::Dynamic(m) => copy_pairs(&m.entries),
            ThemeValue::RuleList(_) => Vec::new(),
        }
    }
}

/// A copy of a list of string pairs.
fn copy_pairs(v: &Vec<(String, String)>) -> (r: Vec<(String, String)>)
    ensures
        r@.len() == v@.len(),
        forall|i: int| 0 <= i < v@.len() ==> r@[i].0@ == v@[i].0@ && r@[i].1@ == v@[i].1@,
        distinct_keys(v@) ==> distinct_keys(r@),
        str_pairs_map(r@) == str_pairs_map(v@),
{
    let mut out: Vec<(String, String)> = Vec::new();
    let mut i: usize = 0;
    while i < v.len()
        invariant
            i <= v@.len(),
            out@.len() == i,
            forall|j: int| 0 <= j < i ==> out@[j].0@ == v@[j].0@ && out@[j].1@ == v@[j].1@,
        decreases v.len() - i,
    {
        out.push((v[i].0.clone(), v[i].1.clone()));
        i = i + 1;
    }
    proof {
        lemma_str_pairs_map_same(out@, v@);
    }
    out
}

proof fn lemma_str_pairs_map_same(a: Seq<(String, String)>, b: Seq<(String, String)>)
    requires
        a.len() == b.len(),
        forall|i: int| 0 <= i < b.len() ==> a[i].0@ == b[i].0@ && a[i].1@ == b[i].1@,
    ensures
        str_pairs_map(a) == str_pairs_map(b),
    decreases a.len(),
{
    if a.len() > 0 {
        lemma_str_pairs_map_same(a.drop_last(), b.drop_last());
        assert(str_pairs_map(a) =~= str_pairs_map(a.drop_last()).insert(a.last().0@, a.last().1@));
        assert(str_pairs_map(b) =~= str_pairs_map(b.drop_last()).insert(b.last().0@, b.last().1@));
    } else {
        assert(str_pairs_map(a) =~= str_pairs_map(b));
    }
}

/// The theme: theme values by name.
pub struct Theme {
    pub entries: Vec<(String, ThemeValue)>,
}

impl View for Theme {
    type V = Map<Seq<char>, ThemeValueView>;

    open spec fn view(&self) -> Map<Seq<char>, ThemeValueView> {
        pairs_map(self.entries@).map_values(|v: ThemeValue| v@)
    }
}

/// What [`Theme::merge`] leaves under a key that held `old`, given the user's table `user`.
pub open spec fn merged_value(old: Option<ThemeValueView>, user: Map<Seq<char>, Seq<char>>) -> ThemeValueView {
    match old {
        Some(ThemeValueView::Dynamic(d)) => ThemeValueView::Dynamic(d.union_prefer_right(user)),
        Some(ThemeValueView::Static(s)) => ThemeValueView::Dynamic(user.union_prefer_right(s)),
        _ => ThemeValueView::Dynamic(user),
    }
}

impl Theme {
    pub open spec fn wf(&self) -> bool {
        &&& distinct_keys(self.entries@)
        &&& forall|i: int| 0 <= i < self.entries@.len() ==> (#[trigger] self.entries@[i]).1.wf()
    }

    /// An empty theme.
    pub fn new() -> (r: Theme)
        ensures
            r.wf(),
            r@ == Map::<Seq<char>, ThemeValueView>::empty(),
    {
        let r = Theme { entries: Vec::new() };
        assert(r@ =~= Map::<Seq<char>, ThemeValueView>::empty());
        r
    }

    fn find(&self, key: &str) -> (r: Option<usize>)
        ensures
            match r {
                Some(i) => i < self.entries@.len() && self.entries@[i as int].0@ == key@,
                None => forall|i: int| 0 <= i < self.entries@.len() ==> self.entries@[i].0@ != key@,
            },
    {
        let wanted: String = key.to_owned();
        let mut i: usize = 0;
        while i < self.entries.len()
            invariant
                i <= self.entries@.len(),
                wanted@ == key@,
                forall|j: int| 0 <= j < i ==> self.entries@[j].0@ != key@,
            decreases self.entries.len() - i,
        {
            if self.entries[i].0 == wanted {
                return Some(i);
            }
            i = i + 1;
        }
        None
    }

    /// The theme value stored under `key`.
    pub fn get(&self, key: &str) -> (r: Option<&ThemeValue>)
        requires
            self.wf(),
        ensures
            match r {
                Some(v) => self@.contains_key(key@) && self@[key@] == v@ && v.wf(),
                None => !self@.contains_key(key@),
            },
    {
        match self.find(key) {
            Some(i) => {
                proof {
                    lemma_pairs_map_index(self.entries@, i as int);
                }
                Some(&self.entries[i].1)
            },
            None => {
                proof {
                    lemma_pairs_map_absent(self.entries@, key@);
                }
                None
            },
        }
    }

    /// Stores `value` under `key`, replacing what was there.
    pub fn insert(&mut self, key: String, value: ThemeValue)
        requires
            old(self).wf(),
            value.wf(),
        ensures
            final(self).wf(),
            final(self)@ == old(self)@.insert(key@, value@),
    {
        let ghost k = key@;
        let ghost vv = value@;
        match self.find(key.as_str()) {
            Some(i) => {
                proof {
                    lemma_pairs_map_update(self.entries@, i as int, (key, value));
                }
                self.entries.set(i, (key, value));
            },
            None => {
                let ghost old_entries = self.entries@;
                self.entries.push((key, value));
                proof {
                    assert(self.entries@.drop_last() =~= old_entries);
                }
            },
        }
        assert(self@ =~= old(self)@.insert(k, vv));
    }

    /// Merges the user's table `value` into the theme value under `key`.
    ///
    /// A user-given table is extended, the user's pairs winning; a built-in
    /// table becomes a user-given one in which the built-in pairs win; an absent
    /// key gets `value` itself.
    pub fn merge(&mut self, key: String, value: StrMap)
        requires
            old(self).wf(),
            value.wf(),
            !(old(self)@.contains_key(key@) && old(self)@[key@] is RuleList),
        ensures
            final(self).wf(),
            final(self)@ == old(self)@.insert(
                key@,
                merged_value(if old(self)@.contains_key(key@) { Some(old(self)@[key@]) } else { None }, value@),
            ),
    {
        let ghost k = key@;
        match self.find(key.as_str()) {
            Some(i) => {
                proof {
                    lemma_pairs_map_index(self.entries@, i as int);
                }
                let (name, current) = self.entries.remove(i);
                let merged = match current {
                    ThemeValue::Dynamic(mut d) => {
                        d.extend(value);
                        ThemeValue::Dynamic(d)
                    },
                    ThemeValue::Static(st) => {
                        let mut user = value;
                        user.extend(st);
                        ThemeValue::Dynamic(user)
                    },
                    ThemeValue::RuleList(r) => ThemeValue::RuleList(r),
                };
                self.entries.insert(i, (name, merged));
                proof {
                    assert(self.entries@ =~= old(self).entries@.update(i as int, (name, merged)));
                    lemma_pairs_map_update(old(self).entries@, i as int, (name, merged));
                    assert forall|j: int| 0 <= j < self.entries@.len() implies (#[trigger] self.entries@[j]).1.wf() by {
                        if j != i {
                            assert(self.entries@[j] == old(self).entries@[j]);
                        }
                    }
                    assert(self@ =~= old(self)@.insert(k, merged@));
                }
            },
            None => {
                proof {
                    lemma_pairs_map_absent(self.entries@, key@);
                }
                self.insert(key, ThemeValue::Dynamic(value));
            },
        }
    }
}

/// What merging the user's theme values `entries` in order into `t` gives;
/// keys holding rule-list tables, on either side, are left as they are.
pub open spec fn merged_theme(t: Map<Seq<char>, ThemeValueView>, entries: Seq<(String, ThemeValue)>) -> Map<Seq<char>, ThemeValueView>
    decreases entries.len(),
{
    if entries.len() == 0 {
        t
    } else {
        let m = merged_theme(t, entries.drop_last());
        let k = entries.last().0@;
        match entries.last().1@ {
            ThemeValueView::RuleList(_) => m,
            ThemeValueView::Dynamic(u) | ThemeValueView::Static(u) => {
                if m.contains_key(k) && m[k] is RuleList {
                    m
                } else {
                    m.insert(k, merged_value(if m.contains_key(k) { Some(m[k]) } else { None }, u))
                }
            },
        }
    }
}

/// Merging a user's theme never takes a theme value away.
pub proof fn law_merge_keeps_keys(t: Map<Seq<char>, ThemeValueView>, entries: Seq<(String, ThemeValue)>)
    ensures
        t.dom().subset_of(merged_theme(t, entries).dom()),
    decreases entries.len(),
{
    if entries.len() > 0 {
        law_merge_keeps_keys(t, entries.drop_last());
    }
}

impl Theme {
    /// Merges each theme value of `user` into this theme (see [`Theme::merge`]).
    pub fn merge_theme(&mut self, user: Theme)
        requires
            old(self).wf(),
            user.wf(),
        ensures
            final(self).wf(),
            final(self)@ == merged_theme(old(self)@, user.entries@),
    {
        let ghost all = user.entries@;
        let mut rest = user.entries;
        let ghost mut taken: int = 0;
        proof {
            assert(all.take(0) =~= Seq::<(String, ThemeValue)>::empty());
            assert(all.skip(0) =~= all);
        }
        while rest.len() > 0
            invariant
                0 <= taken <= all.len(),
                rest@ == all.skip(taken),
                forall|i: int| 0 <= i < all.len() ==> (#[trigger] all[i]).1.wf(),
                self.wf(),
                self@ == merged_theme(old(self)@, all.take(taken)),
            decreases rest.len(),
        {
            let ghost old_rest = rest@;
            let (key, value) = rest.remove(0);
            proof {
                assert(rest@ =~= all.skip(taken + 1));
                assert(all.take(taken + 1).drop_last() =~= all.take(taken));
                assert(all.take(taken + 1).last() == old_rest[0]);
                assert(old_rest[0] == all[taken]);
            }
            let blocked = match self.get(key.as_str()) {
                Some(ThemeValue::RuleList(_)) => true,
                _ => false,
            };
            if !blocked {
                match value {
                    ThemeValue::Dynamic(m) => {
                        self.merge(key, m);
                    },
                    ThemeValue::Static(m) => {
                        self.merge(key, m);
                    },
                    ThemeValue::RuleList(_) => {},
                }
            }
            proof {
                taken = taken + 1;
            }
        }
        proof {
            assert(all.take(taken) =~= all);
        }
    }
}

impl StrMap {
    /// A copy of the table.
    pub fn clone(&self) -> (r: StrMap)
        requires
            self.wf(),
        ensures
            r.wf(),
            r@ == self@,
    {
        StrMap { entries: copy_pairs(&self.entries) }
    }
}

impl ThemeValue {
    /// A copy of the value; a rule-list table is copied rule by rule.
    pub fn clone(&self) -> (r: ThemeValue)
        requires
            self.wf(),
        ensures
            r.wf(),
            r@ == self@,
    {
        match self {
            ThemeValue::Dynamic(m) => ThemeValue::Dynamic(m.clone()),
            ThemeValue::Static(m) => ThemeValue::Static(m.clone()),
            ThemeValue::RuleList(entries) => {
                let mut out: Vec<(String, RuleList)> = Vec::new();
                let mut i: usize = 0;
                while i < entries.len()
                    invariant
                        i <= entries@.len(),
                        out@.len() == i,
                        forall|j: int| 0 <= j < i ==> out@[j].0@ == entries@[j].0@ && out@[j].1@ == entries@[j].1@,
                    decreases entries.len() - i,
                {
                    let rules = crate::css::clone_rules(&entries[i].1.0);
                    out.push((entries[i].0.clone(), RuleList(rules)));
                    i = i + 1;
                }
                proof {
                    lemma_rule_pairs_map_same(out@, entries@);
                    assert forall|a: int, b: int| 0 <= a < b < out@.len() implies out@[a].0@ != out@[b].0@ by {
                        assert(entries@[a].0@ != entries@[b].0@);
                    }
                }
                ThemeValue::RuleList(out)
            },
        }
    }
}

proof fn lemma_rule_pairs_map_same(a: Seq<(String, RuleList)>, b: Seq<(String, RuleList)>)
    requires
        a.len() == b.len(),
        forall|i: int| 0 <= i < b.len() ==> a[i].0@ == b[i].0@ && a[i].1@ == b[i].1@,
    ensures
        rule_pairs_map(a) == rule_pairs_map(b),
    decreases a.len(),
{
    if a.len() > 0 {
        lemma_rule_pairs_map_same(a.drop_last(), b.drop_last());
        assert(rule_pairs_map(a) =~= rule_pairs_map(a.drop_last()).insert(a.last().0@, a.last().1@));
        assert(rule_pairs_map(b) =~= rule_pairs_map(b.drop_last()).insert(b.last().0@, b.last().1@));
    } else {
        assert(rule_pairs_map(a) =~= rule_pairs_map(b));
    }
}

/// A value inside a theme table of a configuration.
pub enum ThemeLeaf {
    /// a string
    Text(String),
    /// a nested table; `None` for a value that is not a string
    Table(Vec<(String, Option<String>)>),
    /// anything else
    Other,
}

/// A theme table of a configuration.
pub enum ThemeEntry {
    Object(Vec<(String, ThemeLeaf)>),
    /// a value that is not a table
    Other,
}

/// `key-nested` for the pairs of a nested color table that are strings.
pub open spec fn nested_colors(
    m: Map<Seq<char>, Seq<char>>,
    key: Seq<char>,
    nested: Seq<(String, Option<String>)>,
) -> Map<Seq<char>, Seq<char>>
    decreases nested.len(),
{
    if nested.len() == 0 {
        m
    } else {
        let prev = nested_colors(m, key, nested.drop_last());
        match nested.last().1 {
            Some(v) => prev.insert(key + seq!['-'] + nested.last().0@, v@),
            None => prev,
        }
    }
}

/// The flattened color table: strings as they are, nested tables as
/// `key-nested`; `None` for any other value.
pub open spec fn flatten_colors_spec(entries: Seq<(String, ThemeLeaf)>) -> Option<Map<Seq<char>, Seq<char>>>
    decreases entries.len(),
{
    if entries.len() == 0 {
        Some(Map::empty())
    } else {
        match flatten_colors_spec(entries.drop_last()) {
            None => None,
            Some(m) => match entries.last().1 {
                ThemeLeaf::Text(v) => Some(m.insert(entries.last().0@, v@)),
                ThemeLeaf::Table(nested) => Some(nested_colors(m, entries.last().0@, nested@)),
                ThemeLeaf::Other => None,
            },
        }
    }
}

/// The string values of a theme table; other values are left out.
pub open spec fn plain_values_spec(entries: Seq<(String, ThemeLeaf)>) -> Map<Seq<char>, Seq<char>>
    decreases entries.len(),
{
    if entries.len() == 0 {
        Map::empty()
    } else {
        let m = plain_values_spec(entries.drop_last());
        match entries.last().1 {
            ThemeLeaf::Text(v) => m.insert(entries.last().0@, v@),
            _ => m,
        }
    }
}

fn concat_key(key: &String, nested: &String) -> (r: String)
    ensures
        r@ == key@ + seq!['-'] + nested@,
{
    let mut out = key.clone();
    crate::text::push_str(&mut out, "-");
    crate::text::push_str(&mut out, nested.as_str());
    proof {
        reveal_strlit("-");
        assert(out@ =~= key@ + seq!['-'] + nested@);
    }
    out
}

/// The color table of a configuration, flattened: `{"blue": {"500": ..}}`
/// gives `blue-500`.
pub fn flatten_colors(entries: &Vec<(String, ThemeLeaf)>) -> (r: Result<StrMap, String>)
    ensures
        match flatten_colors_spec(entries@) {
            Some(m) => r matches Ok(t) && t.wf() && t@ == m,
            None => r matches Err(e) && e@ == "unexpected color format"@,
        },
{
    let mut out = StrMap::new();
    let mut i: usize = 0;
    while i < entries.len()
        invariant
            i <= entries@.len(),
            out.wf(),
            flatten_colors_spec(entries@.take(i as int)) == Some(out@),
        decreases entries.len() - i,
    {
        proof {
            assert(entries@.take(i + 1).drop_last() =~= entries@.take(i as int));
        }
        match &entries[i].1 {
            ThemeLeaf::Text(v) => {
                out.insert(entries[i].0.clone(), v.clone());
            },
            ThemeLeaf::Table(nested) => {
                let ghost start = out@;
                let key = entries[i].0.clone();
                let mut j: usize = 0;
                while j < nested.len()
                    invariant
                        j <= nested@.len(),
                        out.wf(),
                        out@ == nested_colors(start, key@, nested@.take(j as int)),
                    decreases nested.len() - j,
                {
                    proof {
                        assert(nested@.take(j + 1).drop_last() =~= nested@.take(j as int));
                    }
                    match &nested[j].1 {
                        Some(v) => {
                            let k = concat_key(&key, &nested[j].0);
                            out.insert(k, v.clone());
                        },
                        None => {},
                    }
                    j = j + 1;
                }
                proof {
                    assert(nested@.take(j as int) =~= nested@);
                }
            },
            ThemeLeaf::Other => {
                proof {
                    lemma_flatten_none_extends(entries@, i + 1);
                }
                return Err("unexpected color format".to_owned());
            },
        }
        i = i + 1;
    }
    proof {
        assert(entries@.take(i as int) =~= entries@);
    }
    Ok(out)
}

proof fn lemma_flatten_none_extends(entries: Seq<(String, ThemeLeaf)>, k: int)
    requires
        0 <= k <= entries.len(),
        flatten_colors_spec(entries.take(k)) is None,
    ensures
        flatten_colors_spec(entries) is None,
    decreases entries.len() - k,
{
    if k < entries.len() {
        assert(entries.take(k + 1).drop_last() =~= entries.take(k));
        lemma_flatten_none_extends(entries, k + 1);
    } else {
        assert(entries.take(k) =~= entries);
    }
}

/// The string values of a theme table.
pub fn plain_values(entries: &Vec<(String, ThemeLeaf)>) -> (r: StrMap)
    ensures
        r.wf(),
        r@ == plain_values_spec(entries@),
{
    let mut out = StrMap::new();
    let mut i: usize = 0;
    while i < entries.len()
        invariant
            i <= entries@.len(),
            out.wf(),
            plain_values_spec(entries@.take(i as int)) == out@,
        decreases entries.len() - i,
    {
        proof {
            assert(entries@.take(i + 1).drop_last() =~= entries@.take(i as int));
        }
        match &entries[i].1 {
            ThemeLeaf::Text(v) => {
                out.insert(entries[i].0.clone(), v.clone());
            },
            _ => {},
        }
        i = i + 1;
    }
    proof {
        assert(entries@.take(i as int) =~= entries@);
    }
    out
}

/// The theme a configuration's theme tables give: each table a user-given
/// value, the `colors` table flattened.
pub open spec fn theme_from_entries_spec(entries: Seq<(String, ThemeEntry)>) -> Result<Map<Seq<char>, ThemeValueView>, Seq<char>>
    decreases entries.len(),
{
    if entries.len() == 0 {
        Ok(Map::empty())
    } else {
        match theme_from_entries_spec(entries.drop_last()) {
            Err(e) => Err(e),
            Ok(m) => {
                let key = entries.last().0@;
                match entries.last().1 {
                    ThemeEntry::Other => Err("theme only accepts object value"@),
                    ThemeEntry::Object(leaves) => if key == "colors"@ {
                        match flatten_colors_spec(leaves@) {
                            Some(c) => Ok(m.insert(key, ThemeValueView::Dynamic(c))),
                            None => Err("unexpected color format"@),
                        }
                    } else {
                        Ok(m.insert(key, ThemeValueView::Dynamic(plain_values_spec(leaves@))))
                    },
                }
            },
        }
    }
}

proof fn lemma_theme_err_extends(entries: Seq<(String, ThemeEntry)>, k: int)
    requires
        0 <= k <= entries.len(),
        theme_from_entries_spec(entries.take(k)) is Err,
    ensures
        theme_from_entries_spec(entries) == theme_from_entries_spec(entries.take(k)),
    decreases entries.len() - k,
{
    if k < entries.len() {
        assert(entries.take(k + 1).drop_last() =~= entries.take(k));
        lemma_theme_err_extends(entries, k + 1);
    } else {
        assert(entries.take(k) =~= entries);
    }
}

/// The theme of a configuration's theme tables.
pub fn theme_from_entries(entries: &Vec<(String, ThemeEntry)>) -> (r: Result<Theme, String>)
    ensures
        match theme_from_entries_spec(entries@) {
            Ok(m) => r matches Ok(t) && t.wf() && t@ == m,
            Err(e) => r matches Err(x) && x@ == e,
        },
{
    let mut out = Theme::new();
    let mut i: usize = 0;
    while i < entries.len()
        invariant
            i <= entries@.len(),
            out.wf(),
            theme_from_entries_spec(entries@.take(i as int)) == Ok::<Map<Seq<char>, ThemeValueView>, Seq<char>>(out@),
        decreases entries.len() - i,
    {
        proof {
            assert(entries@.take(i + 1).drop_last() =~= entries@.take(i as int));
        }
        match &entries[i].1 {
            ThemeEntry::Other => {
                proof {
                    lemma_theme_err_extends(entries@, i + 1);
                }
                return Err("theme only accepts object value".to_owned());
            },
            ThemeEntry::Object(leaves) => {
                let key = entries[i].0.clone();
                let colors = key.as_str().to_owned() == "colors".to_owned();
                if colors {
                    match flatten_colors(leaves) {
                        Ok(c) => {
                            out.insert(key, ThemeValue::Dynamic(c));
                        },
                        Err(e) => {
                            proof {
                                lemma_theme_err_extends(entries@, i + 1);
                            }
                            return Err(e);
                        },
                    }
                } else {
                    let p = plain_values(leaves);
                    out.insert(key, ThemeValue::Dynamic(p));
                }
            },
        }
        i = i + 1;
    }
    proof {
        assert(entries@.take(i as int) =~= entries@);
    }
    Ok(out)
}
} // verus!
