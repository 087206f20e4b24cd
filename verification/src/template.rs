//! Declaration templates of user-defined utilities: `"$0"` stands for the
//! value, `"$1"` for the modifier, and `"$0:color"` for the value as a color
//! mixed by the modifier's opacity.
use vstd::prelude::*;
use crate::text::{str_chars, push_str, chars_range};

verus! {

/// How a value placeholder is typed; only colors are.
#[derive(Clone, Copy, Debug, PartialEq, Eq, Structural)]
pub enum ModifierType {
    Color,
}

/// A placeholder of a template.
#[derive(Clone, Copy, Debug, PartialEq, Eq, Structural)]
pub enum Placeholder {
    /// `$0`, possibly typed
    Value(Option<ModifierType>),
    /// `$1`
    Modifier,
}

/// A piece of a template.
pub enum TemplatePart {
    Literal(String),
    Placeholder(Placeholder),
}

/// The abstract form of a [`TemplatePart`].
pub enum TemplatePartView {
    Literal(Seq<char>),
    Placeholder(Placeholder),
}

impl View for TemplatePart {
    type V = TemplatePartView;

    open spec fn view(&self) -> TemplatePartView {
        match self {
            TemplatePart::Literal(s) => TemplatePartView::Literal(s@),
            TemplatePart::Placeholder(p) => TemplatePartView::Placeholder(*p),
        }
    }
}

/// A parsed template.
pub struct Template {
    pub parts: Vec<TemplatePart>,
}

impl Template {
    pub open spec fn parts_view(&self) -> Seq<TemplatePartView> {
        self.parts@.map_values(|p: TemplatePart| p@)
    }
}

pub open spec fn is_placeholder_digit(c: char) -> bool {
    c == '0' || c == '1'
}

/// The first position at or after `p` of a `$` followed by `0` or `1`, or
/// the end of `s`.
pub open spec fn next_placeholder(s: Seq<char>, p: int) -> int
    decreases s.len() - p,
{
    if p >= s.len() {
        s.len() as int
    } else if s[p] == '$' && p + 1 < s.len() && is_placeholder_digit(s[p + 1]) {
        p
    } else {
        next_placeholder(s, p + 1)
    }
}

/// Whether `t` occurs in `s` at position `p`.
pub open spec fn occurs_at(s: Seq<char>, p: int, t: Seq<char>) -> bool {
    0 <= p && p + t.len() <= s.len() && s.subrange(p, p + t.len()) == t
}

pub open spec fn color_suffix() -> Seq<char> {
    seq![':', 'c', 'o', 'l', 'o', 'r']
}

/// The parts that parsing `s` from position `p` gives.
pub open spec fn template_parts(s: Seq<char>, p: int) -> Seq<TemplatePartView>
    decreases s.len() + 8 - p,
{
    if p < 0 || p >= s.len() {
        Seq::empty()
    } else {
        proof {
            lemma_next_placeholder(s, p);
        }
        let q = next_placeholder(s, p);
        let lit = s.subrange(p, q);
        let head = if lit.len() > 0 { seq![TemplatePartView::Literal(lit)] } else { Seq::empty() };
        if q >= s.len() || q < p {
            head
        } else if s[q + 1] == '0' {
            let typed = occurs_at(s, q + 2, color_suffix());
            let next = if typed { q + 8 } else { q + 2 };
            head.push(TemplatePartView::Placeholder(
                Placeholder::Value(if typed { Some(ModifierType::Color) } else { None }),
            )) + template_parts(s, next)
        } else {
            head.push(TemplatePartView::Placeholder(Placeholder::Modifier)) + template_parts(s, q + 2)
        }
    }
}

pub proof fn lemma_next_placeholder(s: Seq<char>, p: int)
    requires
        0 <= p <= s.len(),
    ensures
        p <= next_placeholder(s, p) <= s.len(),
        next_placeholder(s, p) < s.len() ==> s[next_placeholder(s, p)] == '$'
            && next_placeholder(s, p) + 1 < s.len()
            && is_placeholder_digit(s[next_placeholder(s, p) + 1]),
    decreases s.len() - p,
{
    if p < s.len() && !(s[p] == '$' && p + 1 < s.len() && is_placeholder_digit(s[p + 1])) {
        lemma_next_placeholder(s, p + 1);
    }
}

/// `color-mix(in srgb, {value} {percent}%, transparent)`.
pub open spec fn spec_color_mix(value: Seq<char>, percent: Seq<char>) -> Seq<char> {
    "color-mix(in srgb, "@ + value + seq![' '] + percent + "%, transparent)"@
}

/// The value as a color: mixed with transparency by `percent`, where the
/// modifier gave one, else the value itself.
pub open spec fn spec_as_color(value: Seq<char>, percent: Option<Seq<char>>) -> Seq<char> {
    match percent {
        Some(p) => spec_color_mix(value, p),
        None => value,
    }
}

/// What rendering `parts` writes, with `percent` the modifier as a
/// percentage (used by typed placeholders only).
pub open spec fn spec_render(
    parts: Seq<TemplatePartView>,
    value: Seq<char>,
    modifier: Option<Seq<char>>,
    percent: Option<Seq<char>>,
) -> Seq<char>
    decreases parts.len(),
{
    if parts.len() == 0 {
        Seq::empty()
    } else {
        spec_render(parts.drop_last(), value, modifier, percent) + match parts.last() {
            TemplatePartView::Literal(l) => l,
            TemplatePartView::Placeholder(Placeholder::Value(None)) => value,
            TemplatePartView::Placeholder(Placeholder::Value(Some(ModifierType::Color))) =>
                spec_as_color(value, if modifier is Some { percent } else { None }),
            TemplatePartView::Placeholder(Placeholder::Modifier) => match modifier {
                Some(m) => m,
                None => Seq::empty(),
            },
        }
    }
}

/// Whether `parts` has a typed placeholder.
pub open spec fn has_typed(parts: Seq<TemplatePartView>) -> bool {
    exists|i: int| 0 <= i < parts.len()
        && parts[i] == TemplatePartView::Placeholder(Placeholder::Value(Some(ModifierType::Color)))
}

/// The value as a color, given the modifier as a percentage.
pub fn color_mix(value: &str, percent: Option<String>) -> (r: String)
    ensures
        r@ == spec_as_color(value@, match percent { Some(p) => Some(p@), None => None }),
{
    match percent {
        Some(p) => {
            let mut out = String::new();
            push_str(&mut out, "color-mix(in srgb, ");
            push_str(&mut out, value);
            push_str(&mut out, " ");
            push_str(&mut out, p.as_str());
            push_str(&mut out, "%, transparent)");
            proof {
                reveal_strlit(" ");
                assert(out@ =~= spec_color_mix(value@, p@));
            }
            out
        },
        None => value.to_owned(),
    }
}

impl ModifierType {
    /// Renders the value by this type: a color mixed by `percent`, where
    /// `percent` is what the modifier gives as a percentage.
    pub fn render(&self, value: &str, percent: Option<String>) -> (r: String)
        ensures
            r@ == spec_as_color(value@, match percent { Some(p) => Some(p@), None => None }),
    {
        match self {
            ModifierType::Color => color_mix(value, percent),
        }
    }
}

/// The parser of templates.
pub struct TemplateParser {
    input: Vec<char>,
    pos: usize,
}

impl TemplateParser {
    pub closed spec fn text(&self) -> Seq<char> {
        self.input@
    }

    pub closed spec fn position(&self) -> int {
        self.pos as int
    }

    pub fn new(input: &str) -> (r: TemplateParser)
        ensures
            r.text() == input@,
            r.position() == 0,
    {
        TemplateParser { input: str_chars(input), pos: 0 }
    }

    fn is_eof(&self) -> (r: bool)
        ensures
            r == (self.pos >= self.input@.len()),
    {
        self.pos >= self.input.len()
    }

    /// The character after the current one, or `'\0'` past the end.
    fn second(&self) -> (r: char)
        requires
            self.pos <= self.input@.len(),
        ensures
            self.pos + 1 < self.input@.len() ==> r == self.input@[self.pos + 1],
            self.pos + 1 >= self.input@.len() ==> r == '\0',
    {
        if self.pos < self.input.len() && self.pos + 1 < self.input.len() {
            self.input[self.pos + 1]
        } else {
            '\0'
        }
    }

    /// The current character, moving past it; `'\0'` at the end.
    fn bump(&mut self) -> (r: char)
        requires
            old(self).pos <= old(self).input@.len(),
        ensures
            final(self).input == old(self).input,
            old(self).pos < old(self).input@.len() ==> r == old(self).input@[old(self).pos as int]
                && final(self).pos == old(self).pos + 1,
            old(self).pos >= old(self).input@.len() ==> r == '\0' && final(self).pos == old(self).pos,
    {
        if self.pos < self.input.len() {
            let c = self.input[self.pos];
            self.pos = self.pos + 1;
            c
        } else {
            '\0'
        }
    }

    /// Moves to the next `$`, or to the end.
    fn eat_until_dollar(&mut self)
        requires
            old(self).pos <= old(self).input@.len(),
        ensures
            final(self).input == old(self).input,
            old(self).pos <= final(self).pos <= final(self).input@.len(),
            final(self).pos < final(self).input@.len() ==> final(self).input@[final(self).pos as int] == '$',
            forall|j: int| old(self).pos <= j < final(self).pos ==> final(self).input@[j] != '$',
    {
        while self.pos < self.input.len() && self.input[self.pos] != '$'
            invariant
                self.input == old(self).input,
                old(self).pos <= self.pos <= self.input@.len(),
                forall|j: int| old(self).pos <= j < self.pos ==> self.input@[j] != '$',
            decreases self.input@.len() - self.pos,
        {
            self.pos = self.pos + 1;
        }
    }

    /// Moves past `:color` where it comes next.
    fn eat_color(&mut self) -> (r: bool)
        requires
            old(self).pos <= old(self).input@.len(),
        ensures
            final(self).input == old(self).input,
            r == occurs_at(old(self).input@, old(self).pos as int, color_suffix()),
            final(self).pos == if r { old(self).pos + 6 } else { old(self).pos as int },
    {
        let t = str_chars(":color");
        proof {
            reveal_strlit(":color");
            assert(t@ =~= color_suffix());
        }
        if self.input.len() - self.pos < 6 {
            return false;
        }
        let base: usize = self.pos;
        let mut k: usize = 0;
        while k < 6
            invariant
                base == self.pos,
                base + 6 <= self.input.len(),
                t@ == color_suffix(),
                k <= 6,
                forall|j: int| 0 <= j < k ==> self.input@[base + j] == t@[j],
            decreases 6 - k,
        {
            let at: usize = base + k;
            if self.input[at] != t[k] {
                assert(self.input@.subrange(self.pos as int, self.pos + 6)[k as int] != color_suffix()[k as int]);
                return false;
            }
            k = k + 1;
        }
        assert(self.input@.subrange(self.pos as int, self.pos + 6) =~= color_suffix());
        self.pos = self.pos + 6;
        true
    }

    /// The literal run up to the next placeholder (or the end), moving past it.
    fn consume_literal(&mut self) -> (r: String)
        requires
            old(self).pos <= old(self).input@.len(),
        ensures
            final(self).input == old(self).input,
            final(self).pos == next_placeholder(old(self).input@, old(self).pos as int),
            r@ == old(self).input@.subrange(old(self).pos as int, final(self).pos as int),
    {
        let start = self.pos;
        loop
            invariant
                self.input == old(self).input,
                start == old(self).pos,
                start <= self.pos <= self.input@.len(),
                next_placeholder(self.input@, start as int) == next_placeholder(self.input@, self.pos as int),
            ensures
                self.input == old(self).input,
                start <= self.pos <= self.input@.len(),
                self.pos == next_placeholder(self.input@, start as int),
            decreases self.input@.len() - self.pos,
        {
            let ghost before = self.pos;
            self.eat_until_dollar();
            proof {
                lemma_next_placeholder_skip(self.input@, before as int, self.pos as int);
            }
            if self.is_eof() || self.second() == '0' || self.second() == '1' {
                return chars_range(&self.input, start, self.pos);
            }
            self.bump();
        }
    }

    /// Parses the whole input.
    pub fn parse(&mut self) -> (r: Template)
        requires
            old(self).position() == 0,
        ensures
            r.parts_view() == template_parts(old(self).text(), 0),
    {
        let mut parts: Vec<TemplatePart> = Vec::new();
        while !self.is_eof()
            invariant
                self.pos <= self.input@.len(),
                self.input == old(self).input,
                parts@.map_values(|p: TemplatePart| p@) + template_parts(self.input@, self.pos as int)
                    == template_parts(self.input@, 0),
            decreases self.input@.len() - self.pos,
        {
            let ghost p = self.pos as int;
            let ghost s = self.input@;
            let ghost before = parts@.map_values(|p: TemplatePart| p@);
            let lit = self.consume_literal();
            let ghost q = self.pos as int;
            proof {
                lemma_next_placeholder(s, p);
            }
            self.bump();
            let has_lit = !lit.as_str().is_empty();
            if has_lit {
                parts.push(TemplatePart::Literal(lit));
            }
            let ghost head = if lit@.len() > 0 { seq![TemplatePartView::Literal(lit@)] } else { Seq::<TemplatePartView>::empty() };
            proof {
                assert(parts@.map_values(|p: TemplatePart| p@) =~= before + head);
            }
            let c = self.bump();
            if c == '0' {
                let typed = self.eat_color();
                parts.push(TemplatePart::Placeholder(Placeholder::Value(
                    if typed { Some(ModifierType::Color) } else { None },
                )));
                proof {
                    assert(parts@.map_values(|p: TemplatePart| p@) =~= before + head.push(
                        TemplatePartView::Placeholder(Placeholder::Value(if typed { Some(ModifierType::Color) } else { None })),
                    ));
                }
            } else if c == '1' {
                parts.push(TemplatePart::Placeholder(Placeholder::Modifier));
                proof {
                    assert(parts@.map_values(|p: TemplatePart| p@) =~= before + head.push(
                        TemplatePartView::Placeholder(Placeholder::Modifier),
                    ));
                }
            } else {
                proof {
                    assert(template_parts(s, p) == head);
                    assert(parts@.map_values(|p: TemplatePart| p@) + template_parts(s, q) =~= template_parts(s, 0));
                }
                return Template { parts };
            }
        }
        proof {
            assert(parts@.map_values(|p: TemplatePart| p@) =~= template_parts(self.input@, 0));
        }
        Template { parts }
    }
}

/// The view of an optional string.
pub open spec fn opt_str(o: Option<String>) -> Option<Seq<char>> {
    match o {
        Some(s) => Some(s@),
        None => None,
    }
}

impl Template {
    /// Renders the template with `value` and `modifier`; `percent` is the
    /// modifier as a percentage (`"0.5"` as `"50"`), used by typed placeholders.
    pub fn render(&self, value: &str, modifier: Option<&str>, percent: Option<&str>) -> (r: String)
        ensures
            r@ == spec_render(
                self.parts_view(),
                value@,
                match modifier { Some(m) => Some(m@), None => None },
                match percent { Some(p) => Some(p@), None => None },
            ),
    {
        let ghost mv: Option<Seq<char>> = match modifier {
            Some(m) => Some(m@),
            None => None,
        };
        let ghost pv: Option<Seq<char>> = match percent {
            Some(p) => Some(p@),
            None => None,
        };
        let mut out = String::new();
        let mut i: usize = 0;
        while i < self.parts.len()
            invariant
                i <= self.parts@.len(),
                out@ == spec_render(self.parts_view().take(i as int), value@, mv, pv),
                pv == (match percent { Some(p) => Some(p@), None => None::<Seq<char>> }),
                mv == (match modifier { Some(m) => Some(m@), None => None::<Seq<char>> }),
            decreases self.parts.len() - i,
        {
            proof {
                assert(self.parts_view().take(i as int + 1).drop_last() =~= self.parts_view().take(i as int));
            }
            match &self.parts[i] {
                TemplatePart::Literal(l) => push_str(&mut out, l.as_str()),
                TemplatePart::Placeholder(Placeholder::Value(None)) => push_str(&mut out, value),
                TemplatePart::Placeholder(Placeholder::Value(Some(t))) => {
                    let p = match modifier {
                        Some(_) => match percent {
                            Some(x) => Some(x.to_owned()),
                            None => None,
                        },
                        None => None,
                    };
                    let c = t.render(value, p);
                    push_str(&mut out, c.as_str());
                },
                TemplatePart::Placeholder(Placeholder::Modifier) => match modifier {
                    Some(m) => push_str(&mut out, m),
                    None => {},
                },
            }
            i = i + 1;
        }
        proof {
            assert(self.parts_view().take(i as int) =~= self.parts_view());
        }
        out
    }
}

proof fn lemma_next_placeholder_skip(s: Seq<char>, p: int, q: int)
    requires
        0 <= p <= q <= s.len(),
        forall|j: int| p <= j < q ==> s[j] != '$',
    ensures
        next_placeholder(s, p) == next_placeholder(s, q),
    decreases q - p,
{
    if p < q {
        lemma_next_placeholder_skip(s, p + 1, q);
    }
}


/// `s` holds no `$0` and no `$1`.
pub open spec fn has_no_placeholder(s: Seq<char>) -> bool {
    forall|i: int| 0 <= i < s.len() - 1 ==> !(s[i] == '$' && is_placeholder_digit(#[trigger] s[i + 1]))
}

proof fn lemma_no_placeholder_next(s: Seq<char>, p: int)
    requires
        has_no_placeholder(s),
        0 <= p <= s.len(),
    ensures
        next_placeholder(s, p) == s.len(),
    decreases s.len() - p,
{
    if p < s.len() {
        if p + 1 < s.len() {
            assert(!(s[p] == '$' && is_placeholder_digit(s[p + 1])));
        }
        lemma_no_placeholder_next(s, p + 1);
    }
}

/// A template without `$0` and `$1` is one literal, and renders as itself
/// whatever the value and modifier.
pub proof fn law_plain_template(
    s: Seq<char>,
    value: Seq<char>,
    modifier: Option<Seq<char>>,
    percent: Option<Seq<char>>,
)
    requires
        has_no_placeholder(s),
    ensures
        template_parts(s, 0) == (if s.len() == 0 { Seq::empty() } else { seq![TemplatePartView::Literal(s)] }),
        spec_render(template_parts(s, 0), value, modifier, percent) == s,
{
    if s.len() > 0 {
        lemma_no_placeholder_next(s, 0);
        assert(s.subrange(0, s.len() as int) =~= s);
        let parts = seq![TemplatePartView::Literal(s)];
        assert(parts.drop_last() =~= Seq::<TemplatePartView>::empty());
        assert(spec_render(Seq::<TemplatePartView>::empty(), value, modifier, percent) == Seq::<char>::empty());
        assert(spec_render(parts, value, modifier, percent) =~= s);
    }
}
} // verus!
