//! The CSS model: declarations, rules and rule lists, and their serialization.
use vstd::prelude::*;
use crate::writer::{Writer, indent_fits, WriterState, spec_write_str, spec_write_char, spec_whitespace, spec_newline};

verus! {

/// A declaration `name: value;`.
pub struct Decl {
    pub name: String,
    pub value: String,
}

impl Decl {
    pub fn new(name: &str, value: &str) -> (r: Decl)
        ensures
            r.name@ == name@,
            r.value@ == value@,
    {
        Decl { name: name.to_owned(), value: value.to_owned() }
    }
}

impl Clone for Decl {
    fn clone(&self) -> (r: Decl)
        ensures
            r == *self,
    {
        Decl { name: self.name.clone(), value: self.value.clone() }
    }
}

/// A rule: a selector (or at-rule prelude), its declarations and nested rules.
pub struct Rule {
    pub selector: String,
    pub decls: Vec<Decl>,
    pub rules: RuleList,
}

/// A list of rules.
pub struct RuleList(pub Vec<Rule>);

// ------------------------------------------------------------------------
// Serialization, stated over the writer's operations.

pub open spec fn spec_decl_css(w: WriterState, d: Decl) -> WriterState {
    let w1 = spec_write_str(w, d.name@);
    let w2 = spec_write_str(w1, seq![':']);
    let w3 = spec_whitespace(w2);
    let w4 = spec_write_str(w3, d.value@);
    let w5 = spec_write_str(w4, seq![';']);
    spec_newline(w5)
}

pub open spec fn spec_decls_css(w: WriterState, ds: Seq<Decl>) -> WriterState
    decreases ds.len(),
{
    if ds.len() == 0 {
        w
    } else {
        spec_decl_css(spec_decls_css(w, ds.drop_last()), ds.last())
    }
}

/// What `Rule::to_css` writes: selector, ` {`, the declarations and nested
/// rules one level deeper, then `}` and a newline.
pub open spec fn spec_rule_css(w: WriterState, r: Rule) -> WriterState
    decreases r, 0nat,
{
    let w1 = spec_write_str(w, r.selector@);
    let w2 = spec_whitespace(w1);
    let w3 = spec_write_char(w2, '{');
    let w4 = WriterState { indent_level: (w3.indent_level + 1) as usize, ..w3 };
    let w5 = spec_newline(w4);
    let w6 = spec_decls_css(w5, r.decls@);
    let w7 = spec_rules_css(w6, r.rules.0@);
    let w8 = WriterState { indent_level: (w7.indent_level - 1) as usize, ..w7 };
    let w9 = spec_write_char(w8, '}');
    spec_newline(w9)
}

/// The nested rules of a rule, one after another.
pub open spec fn spec_rules_css(w: WriterState, rs: Seq<Rule>) -> WriterState
    decreases rs, 1nat,
{
    if rs.len() == 0 {
        w
    } else {
        spec_rule_css(spec_rules_css(w, rs.drop_last()), rs.last())
    }
}

} // verus!

verus! {

/// The number of nesting levels of a rule (a rule without nested rules has one).
pub open spec fn rule_height(r: Rule) -> nat
    decreases r, 0nat,
{
    1 + rules_height(r.rules.0@)
}

pub open spec fn rules_height(rs: Seq<Rule>) -> nat
    decreases rs, 1nat,
{
    if rs.len() == 0 {
        0
    } else {
        let a = rules_height(rs.drop_last());
        let b = rule_height(rs.last());
        if a >= b { a } else { b }
    }
}

/// Writing `h` more levels deep from `w` stays free of overflow.
pub open spec fn levels_fit(w: WriterState, h: nat) -> bool {
    &&& w.indent_level + h < usize::MAX
    &&& (w.indent_level + h) * w.indent_width <= usize::MAX
}

/// Whether two writer states agree on everything but the text and position.
pub open spec fn same_config(a: WriterState, b: WriterState) -> bool {
    &&& a.minify == b.minify
    &&& a.linefeed == b.linefeed
    &&& a.indent == b.indent
    &&& a.indent_width == b.indent_width
    &&& a.indent_level == b.indent_level
}

pub proof fn lemma_fit_lower(w: WriterState, h: nat, k: nat)
    requires
        levels_fit(w, h),
        k <= h,
    ensures
        levels_fit(w, k),
{
    vstd::arithmetic::mul::lemma_mul_inequality(
        (w.indent_level + k) as int,
        (w.indent_level + h) as int,
        w.indent_width as int,
    );
}

pub proof fn lemma_rules_height_bound(rs: Seq<Rule>, i: int)
    requires
        0 <= i < rs.len(),
    ensures
        rule_height(rs[i]) <= rules_height(rs),
        rules_height(rs.take(i)) <= rules_height(rs),
    decreases rs.len(),
{
    if i < rs.len() - 1 {
        lemma_rules_height_bound(rs.drop_last(), i);
        assert(rs.drop_last()[i] == rs[i]);
        assert(rs.drop_last().take(i) =~= rs.take(i));
    } else {
        assert(rs.take(i) =~= rs.drop_last());
    }
}

proof fn lemma_decls_css_config(w: WriterState, ds: Seq<Decl>)
    ensures
        same_config(spec_decls_css(w, ds), w),
    decreases ds.len(),
{
    if ds.len() > 0 {
        lemma_decls_css_config(w, ds.drop_last());
    }
}

pub proof fn lemma_rule_css_config(w: WriterState, r: Rule)
    requires
        w.indent_level + rule_height(r) < usize::MAX,
    ensures
        same_config(spec_rule_css(w, r), w),
    decreases r, 0nat,
{
    let w1 = spec_write_str(w, r.selector@);
    let w2 = spec_whitespace(w1);
    let w3 = spec_write_char(w2, '{');
    let w4 = WriterState { indent_level: (w3.indent_level + 1) as usize, ..w3 };
    let w5 = spec_newline(w4);
    let w6 = spec_decls_css(w5, r.decls@);
    lemma_decls_css_config(w5, r.decls@);
    lemma_rules_css_config(w6, r.rules.0@);
}

proof fn lemma_rules_css_config(w: WriterState, rs: Seq<Rule>)
    requires
        w.indent_level + rules_height(rs) < usize::MAX,
    ensures
        same_config(spec_rules_css(w, rs), w),
    decreases rs, 1nat,
{
    if rs.len() > 0 {
        lemma_rules_css_config(w, rs.drop_last());
        lemma_rule_css_config(spec_rules_css(w, rs.drop_last()), rs.last());
    }
}

impl Decl {
    pub fn to_css(&self, writer: &mut Writer)
        requires
            indent_fits(old(writer)@),
        ensures
            final(writer)@ == spec_decl_css(old(writer)@, *self),
    {
        writer.write_str(self.name.as_str());
        writer.write_str(":");
        writer.whitespace();
        writer.write_str(self.value.as_str());
        writer.write_str(";");
        writer.newline();
        proof {
            reveal_strlit(":");
            reveal_strlit(";");
            assert(":"@ =~= seq![':']);
            assert(";"@ =~= seq![';']);
        }
    }
}

impl Rule {
    pub fn to_css(&self, writer: &mut Writer)
        requires
            levels_fit(old(writer)@, rule_height(*self)),
        ensures
            final(writer)@ == spec_rule_css(old(writer)@, *self),
        decreases self,
    {
        let ghost w0 = writer@;
        proof {
            lemma_fit_lower(w0, rule_height(*self), 0);
        }
        writer.write_str(self.selector.as_str());
        writer.whitespace();
        writer.write_char('{');
        writer.indent();
        proof {
            lemma_fit_lower(w0, rule_height(*self), 1);
        }
        writer.newline();
        let ghost w5 = writer@;
        let mut i: usize = 0;
        while i < self.decls.len()
            invariant
                i <= self.decls.len(),
                writer@ == spec_decls_css(w5, self.decls@.take(i as int)),
                w5.indent_level == w0.indent_level + 1,
                indent_fits(w5),
            decreases self.decls.len() - i,
        {
            proof {
                lemma_decls_css_config(w5, self.decls@.take(i as int));
            }
            self.decls[i].to_css(writer);
            i = i + 1;
            proof {
                assert(self.decls@.take(i as int).drop_last() =~= self.decls@.take(i - 1));
            }
        }
        assert(self.decls@.take(self.decls.len() as int) =~= self.decls@);
        let ghost w6 = writer@;
        proof {
            lemma_decls_css_config(w5, self.decls@);
        }
        let mut j: usize = 0;
        while j < self.rules.0.len()
            invariant
                j <= self.rules.0.len(),
                writer@ == spec_rules_css(w6, self.rules.0@.take(j as int)),
                w6.indent_level == w0.indent_level + 1,
                w6.indent_width == w0.indent_width,
                levels_fit(w0, rule_height(*self)),
                rule_height(*self) == 1 + rules_height(self.rules.0@),
            decreases self.rules.0.len() - j,
        {
            proof {
                lemma_rules_height_bound(self.rules.0@, j as int);
                lemma_rules_css_config(w6, self.rules.0@.take(j as int));
                lemma_fit_lower(w0, rule_height(*self), 1 + rule_height(self.rules.0@[j as int]));
            }
            self.rules.0[j].to_css(writer);
            j = j + 1;
            proof {
                assert(self.rules.0@.take(j as int).drop_last() =~= self.rules.0@.take(j - 1));
            }
        }
        assert(self.rules.0@.take(self.rules.0.len() as int) =~= self.rules.0@);
        proof {
            lemma_rules_css_config(w6, self.rules.0@);
        }
        writer.dedent();
        writer.write_char('}');
        writer.newline();
    }
}

} // verus!

verus! {

/// What a rule list writes: its rules, a newline between each two of them.
pub open spec fn spec_rule_list_css(w: WriterState, rs: Seq<Rule>) -> WriterState
    decreases rs.len(),
{
    if rs.len() == 0 {
        w
    } else if rs.len() == 1 {
        spec_rule_css(w, rs[0])
    } else {
        spec_rule_css(spec_newline(spec_rule_list_css(w, rs.drop_last())), rs.last())
    }
}

/// The minified text of a declaration: `name:value;`.
pub open spec fn minified_decl(d: Decl) -> Seq<char> {
    d.name@ + seq![':'] + d.value@ + seq![';']
}

pub open spec fn minified_decls(ds: Seq<Decl>) -> Seq<char>
    decreases ds.len(),
{
    if ds.len() == 0 {
        Seq::empty()
    } else {
        minified_decls(ds.drop_last()) + minified_decl(ds.last())
    }
}

/// The minified text of a rule: `selector{decls rules}` with no whitespace.
pub open spec fn minified_rule(r: Rule) -> Seq<char>
    decreases r, 0nat,
{
    r.selector@ + seq!['{'] + minified_decls(r.decls@) + minified_rules(r.rules.0@) + seq!['}']
}

pub open spec fn minified_rules(rs: Seq<Rule>) -> Seq<char>
    decreases rs, 1nat,
{
    if rs.len() == 0 {
        Seq::empty()
    } else {
        minified_rules(rs.drop_last()) + minified_rule(rs.last())
    }
}

proof fn lemma_minified_decls(w: WriterState, ds: Seq<Decl>)
    requires
        w.minify,
    ensures
        spec_decls_css(w, ds).dest == w.dest + minified_decls(ds),
        spec_decls_css(w, ds).minify,
    decreases ds.len(),
{
    if ds.len() > 0 {
        lemma_minified_decls(w, ds.drop_last());
        let d = ds.last();
        assert(spec_decls_css(w, ds).dest =~= w.dest + minified_decls(ds.drop_last()) + minified_decl(d));
    }
}

proof fn lemma_minified_rule(w: WriterState, r: Rule)
    requires
        w.minify,
    ensures
        spec_rule_css(w, r).dest == w.dest + minified_rule(r),
        spec_rule_css(w, r).minify,
    decreases r, 0nat,
{
    let w1 = spec_write_str(w, r.selector@);
    let w2 = spec_whitespace(w1);
    let w3 = spec_write_char(w2, '{');
    let w4 = WriterState { indent_level: (w3.indent_level + 1) as usize, ..w3 };
    let w5 = spec_newline(w4);
    let w6 = spec_decls_css(w5, r.decls@);
    lemma_minified_decls(w5, r.decls@);
    lemma_minified_rules(w6, r.rules.0@);
    assert(spec_rule_css(w, r).dest =~= w.dest + minified_rule(r));
}

proof fn lemma_minified_rules(w: WriterState, rs: Seq<Rule>)
    requires
        w.minify,
    ensures
        spec_rules_css(w, rs).dest == w.dest + minified_rules(rs),
        spec_rules_css(w, rs).minify,
    decreases rs, 1nat,
{
    if rs.len() > 0 {
        lemma_minified_rules(w, rs.drop_last());
        lemma_minified_rule(spec_rules_css(w, rs.drop_last()), rs.last());
        assert(spec_rules_css(w, rs).dest =~= w.dest + minified_rules(rs));
    }
}

proof fn lemma_minified_list(w: WriterState, rs: Seq<Rule>)
    requires
        w.minify,
    ensures
        spec_rule_list_css(w, rs).dest == w.dest + minified_rules(rs),
        spec_rule_list_css(w, rs).minify,
    decreases rs.len(),
{
    if rs.len() == 1 {
        lemma_minified_rule(w, rs[0]);
        assert(rs.drop_last() =~= Seq::<Rule>::empty());
        assert(minified_rules(rs.drop_last()) =~= Seq::<char>::empty());
        assert(minified_rules(rs) =~= minified_rule(rs[0]));
    } else if rs.len() > 1 {
        lemma_minified_list(w, rs.drop_last());
        lemma_minified_rule(spec_newline(spec_rule_list_css(w, rs.drop_last())), rs.last());
        assert(spec_rule_list_css(w, rs).dest =~= w.dest + minified_rules(rs));
    }
}

/// Minified output is the rules' text with no whitespace at all: every rule
/// is `selector{name:value;...nested...}`, one after another.
pub proof fn law_minified_output(w: WriterState, rs: Seq<Rule>)
    requires
        w.minify,
    ensures
        spec_rule_list_css(w, rs).dest == w.dest + minified_rules(rs),
{
    lemma_minified_list(w, rs);
}

pub proof fn lemma_list_config(w: WriterState, rs: Seq<Rule>)
    requires
        levels_fit(w, rules_height(rs)),
    ensures
        same_config(spec_rule_list_css(w, rs), w),
    decreases rs.len(),
{
    if rs.len() == 1 {
        lemma_rules_height_bound(rs, 0);
        lemma_rule_css_config(w, rs[0]);
    } else if rs.len() > 1 {
        assert(rules_height(rs.drop_last()) <= rules_height(rs));
        lemma_fit_lower(w, rules_height(rs), rules_height(rs.drop_last()));
        lemma_list_config(w, rs.drop_last());
        lemma_rules_height_bound(rs, rs.len() - 1);
        lemma_rule_css_config(spec_newline(spec_rule_list_css(w, rs.drop_last())), rs.last());
    }
}

/// Something that can be written as CSS.
pub trait ToCss {
    /// Whether writing `self` from writer state `w` is free of overflow.
    spec fn css_fits(&self, w: WriterState) -> bool;

    /// The writer state after writing `self` from `w`.
    spec fn spec_to_css(&self, w: WriterState) -> WriterState;

    fn to_css(&self, writer: &mut Writer)
        requires
            self.css_fits(old(writer)@),
        ensures
            final(writer)@ == self.spec_to_css(old(writer)@),
    ;
}

impl ToCss for Decl {
    open spec fn css_fits(&self, w: WriterState) -> bool {
        indent_fits(w)
    }

    open spec fn spec_to_css(&self, w: WriterState) -> WriterState {
        spec_decl_css(w, *self)
    }

    fn to_css(&self, writer: &mut Writer) {
        Decl::to_css(self, writer)
    }
}

impl ToCss for Rule {
    open spec fn css_fits(&self, w: WriterState) -> bool {
        levels_fit(w, rule_height(*self))
    }

    open spec fn spec_to_css(&self, w: WriterState) -> WriterState {
        spec_rule_css(w, *self)
    }

    fn to_css(&self, writer: &mut Writer) {
        Rule::to_css(self, writer)
    }
}

impl ToCss for RuleList {
    open spec fn css_fits(&self, w: WriterState) -> bool {
        levels_fit(w, rules_height(self.0@))
    }

    open spec fn spec_to_css(&self, w: WriterState) -> WriterState {
        spec_rule_list_css(w, self.0@)
    }

    fn to_css(&self, writer: &mut Writer) {
        let ghost w0 = writer@;
        let n = self.0.len();
        let mut i: usize = 0;
        while i < n
            invariant
                n == self.0@.len(),
                i <= n,
                writer@ == spec_rule_list_css(w0, self.0@.take(i as int)),
                levels_fit(w0, rules_height(self.0@)),
            decreases n - i,
        {
            proof {
                lemma_rules_height_bound(self.0@, i as int);
                lemma_fit_lower(w0, rules_height(self.0@), rules_height(self.0@.take(i as int)));
                lemma_list_config(w0, self.0@.take(i as int));
                lemma_fit_lower(w0, rules_height(self.0@), rule_height(self.0@[i as int]));
                lemma_fit_lower(w0, rules_height(self.0@), 0);
            }
            if i > 0 {
                writer.newline();
            }
            self.0[i].to_css(writer);
            i = i + 1;
            proof {
                assert(self.0@.take(i as int).drop_last() =~= self.0@.take(i - 1));
            }
        }
        assert(self.0@.take(n as int) =~= self.0@);
    }
}

/// The state of a fresh default writer (see [`Writer::default`]) over an empty string.
pub open spec fn default_writer_state() -> WriterState {
    WriterState {
        dest: Seq::empty(),
        minify: false,
        line: 0,
        col: 0,
        linefeed: seq!['\n'],
        indent: seq![' '],
        indent_width: 2,
        indent_level: 0,
    }
}

/// The state of a fresh minifying writer over an empty string.
pub open spec fn minify_writer_state() -> WriterState {
    WriterState { minify: true, ..default_writer_state() }
}

/// Something that can be turned into a CSS string.
pub trait ToCssString: ToCss {
    fn to_css_string(&self) -> (r: String)
        requires
            self.css_fits(default_writer_state()),
        ensures
            r@ == self.spec_to_css(default_writer_state()).dest,
    ;

    fn to_css_minified(&self) -> (r: String)
        requires
            self.css_fits(minify_writer_state()),
        ensures
            r@ == self.spec_to_css(minify_writer_state()).dest,
    ;
}

impl<T: ToCss> ToCssString for T {
    fn to_css_string(&self) -> (r: String) {
        let mut writer = Writer::default(String::new());
        assert(writer@ == default_writer_state());
        self.to_css(&mut writer);
        writer.dest
    }

    fn to_css_minified(&self) -> (r: String) {
        let mut writer = Writer::minify(String::new());
        assert(writer@ == minify_writer_state());
        self.to_css(&mut writer);
        writer.dest
    }
}


/// The abstract form of a rule: its selector, its declarations as
/// name-value pairs, and its nested rules.
pub struct RuleView {
    pub selector: Seq<char>,
    pub decls: Seq<(Seq<char>, Seq<char>)>,
    pub rules: Seq<RuleView>,
}

pub open spec fn decl_view(d: Decl) -> (Seq<char>, Seq<char>) {
    (d.name@, d.value@)
}

pub open spec fn decls_view(ds: Seq<Decl>) -> Seq<(Seq<char>, Seq<char>)> {
    ds.map_values(|d: Decl| decl_view(d))
}

pub open spec fn rule_view(r: Rule) -> RuleView
    decreases r, 0nat,
{
    RuleView { selector: r.selector@, decls: decls_view(r.decls@), rules: rules_view(r.rules.0@) }
}

pub open spec fn rules_view(rs: Seq<Rule>) -> Seq<RuleView>
    decreases rs, 1nat,
{
    if rs.len() == 0 {
        Seq::empty()
    } else {
        rules_view(rs.drop_last()).push(rule_view(rs.last()))
    }
}

impl View for Rule {
    type V = RuleView;

    open spec fn view(&self) -> RuleView {
        rule_view(*self)
    }
}

impl View for RuleList {
    type V = Seq<RuleView>;

    open spec fn view(&self) -> Seq<RuleView> {
        rules_view(self.0@)
    }
}

pub proof fn lemma_rules_view_len(rs: Seq<Rule>)
    ensures
        rules_view(rs).len() == rs.len(),
        forall|i: int| 0 <= i < rs.len() ==> rules_view(rs)[i] == rule_view(rs[i]),
    decreases rs.len(),
{
    if rs.len() > 0 {
        lemma_rules_view_len(rs.drop_last());
    }
}

pub proof fn lemma_rules_view_concat(a: Seq<Rule>, b: Seq<Rule>)
    ensures
        rules_view(a + b) == rules_view(a) + rules_view(b),
{
    lemma_rules_view_len(a + b);
    lemma_rules_view_len(a);
    lemma_rules_view_len(b);
    assert(rules_view(a + b) =~= rules_view(a) + rules_view(b));
}

proof fn lemma_decls_css_view(w: WriterState, a: Seq<Decl>, b: Seq<Decl>)
    requires
        decls_view(a) == decls_view(b),
    ensures
        spec_decls_css(w, a) == spec_decls_css(w, b),
    decreases a.len(),
{
    assert(a.len() == decls_view(a).len());
    assert(b.len() == decls_view(b).len());
    if a.len() > 0 {
        assert(decls_view(a.drop_last()) =~= decls_view(a).drop_last());
        assert(decls_view(b.drop_last()) =~= decls_view(b).drop_last());
        lemma_decls_css_view(w, a.drop_last(), b.drop_last());
        assert(decl_view(a.last()) == decls_view(a)[a.len() - 1]);
        assert(decl_view(b.last()) == decls_view(b)[b.len() - 1]);
    }
}

/// Rules with equal views are written alike and nest alike.
pub proof fn lemma_rule_css_view(w: WriterState, a: Rule, b: Rule)
    requires
        rule_view(a) == rule_view(b),
    ensures
        spec_rule_css(w, a) == spec_rule_css(w, b),
        rule_height(a) == rule_height(b),
    decreases a, 0nat,
{
    let w1 = spec_write_str(w, a.selector@);
    let w2 = spec_whitespace(w1);
    let w3 = spec_write_char(w2, '{');
    let w4 = WriterState { indent_level: (w3.indent_level + 1) as usize, ..w3 };
    let w5 = spec_newline(w4);
    lemma_decls_css_view(w5, a.decls@, b.decls@);
    let w6 = spec_decls_css(w5, a.decls@);
    lemma_rules_css_view(w6, a.rules.0@, b.rules.0@);
}

proof fn lemma_rules_view_last(rs: Seq<Rule>)
    requires
        rs.len() > 0,
    ensures
        rules_view(rs.drop_last()) == rules_view(rs).drop_last(),
        rules_view(rs).last() == rule_view(rs.last()),
        rules_view(rs).len() == rs.len(),
{
    lemma_rules_view_len(rs);
    assert(rules_view(rs).drop_last() =~= rules_view(rs.drop_last()));
}

/// Rule lists with equal views are written alike and nest alike.
pub proof fn lemma_rules_css_view(w: WriterState, a: Seq<Rule>, b: Seq<Rule>)
    requires
        rules_view(a) == rules_view(b),
    ensures
        spec_rules_css(w, a) == spec_rules_css(w, b),
        rules_height(a) == rules_height(b),
    decreases a, 1nat,
{
    lemma_rules_view_len(a);
    lemma_rules_view_len(b);
    if a.len() > 0 {
        lemma_rules_view_last(a);
        lemma_rules_view_last(b);
        lemma_rules_css_view(w, a.drop_last(), b.drop_last());
        lemma_rule_css_view(spec_rules_css(w, a.drop_last()), a.last(), b.last());
    }
}

/// Rule lists with equal views are written alike as lists.
pub proof fn lemma_rule_list_css_view(w: WriterState, a: Seq<Rule>, b: Seq<Rule>)
    requires
        rules_view(a) == rules_view(b),
    ensures
        spec_rule_list_css(w, a) == spec_rule_list_css(w, b),
        rules_height(a) == rules_height(b),
    decreases a.len(),
{
    lemma_rules_view_len(a);
    lemma_rules_view_len(b);
    lemma_rules_css_view(w, a, b);
    if a.len() == 1 {
        assert(rule_view(a[0]) == rules_view(a)[0]);
        assert(rule_view(b[0]) == rules_view(b)[0]);
        lemma_rule_css_view(w, a[0], b[0]);
    } else if a.len() > 1 {
        lemma_rules_view_last(a);
        lemma_rules_view_last(b);
        lemma_rule_list_css_view(w, a.drop_last(), b.drop_last());
        lemma_rule_css_view(spec_newline(spec_rule_list_css(w, a.drop_last())), a.last(), b.last());
    }
}

/// A copy of a rule.
pub fn clone_rule(r: &Rule) -> (c: Rule)
    ensures
        c@ == r@,
    decreases rule_height(*r), 0nat,
{
    let decls = clone_decls(&r.decls);
    let rules = clone_rules(&r.rules.0);
    Rule { selector: r.selector.clone(), decls, rules: RuleList(rules) }
}

/// A copy of a list of rules.
pub fn clone_rules(rs: &Vec<Rule>) -> (c: Vec<Rule>)
    ensures
        rules_view(c@) == rules_view(rs@),
    decreases rules_height(rs@), 1nat,
{
    let mut out: Vec<Rule> = Vec::new();
    let mut i: usize = 0;
    while i < rs.len()
        invariant
            i <= rs@.len(),
            rules_view(out@) == rules_view(rs@.take(i as int)),
        decreases rs.len() - i,
    {
        proof {
            lemma_rules_height_bound(rs@, i as int);
        }
        let r = clone_rule(&rs[i]);
        let ghost before = out@;
        out.push(r);
        i = i + 1;
        proof {
            assert(out@.drop_last() =~= before);
            assert(rs@.take(i as int).drop_last() =~= rs@.take(i - 1));
        }
    }
    assert(rs@.take(i as int) =~= rs@);
    out
}

/// A copy of a list of declarations.
pub fn clone_decls(ds: &Vec<Decl>) -> (c: Vec<Decl>)
    ensures
        c@ == ds@,
{
    let mut out: Vec<Decl> = Vec::new();
    let mut i: usize = 0;
    while i < ds.len()
        invariant
            i <= ds@.len(),
            out@ == ds@.take(i as int),
        decreases ds.len() - i,
    {
        out.push(ds[i].clone());
        i = i + 1;
        proof {
            assert(out@ =~= ds@.take(i as int));
        }
    }
    assert(ds@.take(i as int) =~= ds@);
    out
}

impl Rule {
    /// A rule `&` with the given declarations.
    pub fn new_empty(decls: Vec<Decl>) -> (r: Rule)
        ensures
            r.selector@ == seq!['&'],
            r.decls == decls,
            r.rules.0@.len() == 0,
    {
        let sel = "&".to_owned();
        proof {
            reveal_strlit("&");
        }
        Rule { selector: sel, decls, rules: RuleList(Vec::new()) }
    }

    pub fn new_with_decls(selector: &str, decls: Vec<Decl>) -> (r: Rule)
        ensures
            r.selector@ == selector@,
            r.decls == decls,
            r.rules.0@.len() == 0,
    {
        Rule { selector: selector.to_owned(), decls, rules: RuleList(Vec::new()) }
    }

    pub fn new_with_rules(selector: &str, rules: RuleList) -> (r: Rule)
        ensures
            r.selector@ == selector@,
            r.decls@.len() == 0,
            r.rules == rules,
    {
        Rule { selector: selector.to_owned(), decls: Vec::new(), rules }
    }

    /// This rule nested in a rule `wrapper { .. }`.
    pub fn wrap(self, wrapper: String) -> (r: Rule)
        ensures
            r.selector == wrapper,
            r.decls@.len() == 0,
            r.rules.0@ == seq![self],
    {
        Rule { selector: wrapper, decls: Vec::new(), rules: RuleList::new(self) }
    }

    pub fn to_rule_list(self) -> (r: RuleList)
        ensures
            r.0@ == seq![self],
    {
        RuleList::new(self)
    }

    /// Whether the selector is an at-rule's (starts with `@`).
    pub fn is_at_rule(&self) -> (r: bool)
        ensures
            r == (self.selector@.len() > 0 && self.selector@[0] == '@'),
    {
        let cs = crate::text::str_chars(self.selector.as_str());
        cs.len() > 0 && cs[0] == '@'
    }

    /// Appends the declarations and nested rules of `other`.
    pub fn extend(&mut self, other: Rule)
        ensures
            final(self).selector == old(self).selector,
            final(self).decls@ == old(self).decls@ + other.decls@,
            final(self).rules.0@ == old(self).rules.0@ + other.rules.0@,
    {
        let mut ds = other.decls;
        self.decls.append(&mut ds);
        let mut rs = other.rules.0;
        self.rules.0.append(&mut rs);
    }
}

impl RuleList {
    pub fn new(rule: Rule) -> (r: RuleList)
        ensures
            r.0@ == seq![rule],
    {
        RuleList(vec![rule])
    }

    pub fn default() -> (r: RuleList)
        ensures
            r.0@.len() == 0,
    {
        RuleList(Vec::new())
    }

    /// These rules nested in a rule `wrapper { .. }`.
    pub fn wrap(self, wrapper: String) -> (r: Rule)
        ensures
            r.selector == wrapper,
            r.decls@.len() == 0,
            r.rules == self,
    {
        Rule { selector: wrapper, decls: Vec::new(), rules: self }
    }

    /// The first rule.
    pub fn as_single(self) -> (r: Option<Rule>)
        ensures
            self.0@.len() == 0 ==> r is None,
            self.0@.len() > 0 ==> r == Some(self.0@[0]),
    {
        let mut v = self.0;
        if v.len() == 0 {
            None
        } else {
            Some(v.remove(0))
        }
    }

    /// Appends the rules of `other`.
    pub fn extend(&mut self, other: RuleList)
        ensures
            final(self).0@ == old(self).0@ + other.0@,
    {
        let mut rs = other.0;
        self.0.append(&mut rs);
    }
}

} // verus!
