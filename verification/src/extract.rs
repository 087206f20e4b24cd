//! Extraction of utility candidates from source text.
use vstd::prelude::*;
use crate::text::{str_chars, chars_range};
use crate::common::strings_view;

verus! {

pub enum SourceType {
    Html,
    Ecma,
    Unknown,
}

impl SourceType {
    pub fn as_str(&self) -> (r: &'static str)
        ensures
            r@ == (match self {
                SourceType::Html => "html"@,
                SourceType::Ecma => "ecma"@,
                SourceType::Unknown => "unknown"@,
            }),
    {
        match self {
            SourceType::Html => "html",
            SourceType::Ecma => "ecma",
            SourceType::Unknown => "unknown",
        }
    }

    /// The kind of source a file extension names.
    pub fn from(s: &str) -> (r: SourceType)
        ensures
            r is Html <==> (s@ == "html"@ || s@ == "vue"@ || s@ == "svelte"@),
            r is Ecma <==> (s@ == "js"@ || s@ == "ts"@ || s@ == "jsx"@ || s@ == "tsx"@
                || s@ == "mjs"@ || s@ == "mts"@ || s@ == "cjs"@ || s@ == "cts"@),
    {
        let cs = str_chars(s);
        if eq_lit(&cs, "html") || eq_lit(&cs, "vue") || eq_lit(&cs, "svelte") {
            proof { lemma_distinct_exts(s@); }
            SourceType::Html
        } else if eq_lit(&cs, "js") || eq_lit(&cs, "ts") || eq_lit(&cs, "jsx") || eq_lit(&cs, "tsx")
            || eq_lit(&cs, "mjs") || eq_lit(&cs, "mts") || eq_lit(&cs, "cjs") || eq_lit(&cs, "cts") {
            proof { lemma_distinct_exts(s@); }
            SourceType::Ecma
        } else {
            SourceType::Unknown
        }
    }
}

proof fn lemma_distinct_exts(s: Seq<char>)
    ensures
        (s == "html"@ || s == "vue"@ || s == "svelte"@) ==> !(s == "js"@ || s == "ts"@ || s == "jsx"@
            || s == "tsx"@ || s == "mjs"@ || s == "mts"@ || s == "cjs"@ || s == "cts"@),
{
    reveal_strlit("html");
    reveal_strlit("vue");
    reveal_strlit("svelte");
    reveal_strlit("js");
    reveal_strlit("ts");
    reveal_strlit("jsx");
    reveal_strlit("tsx");
    reveal_strlit("mjs");
    reveal_strlit("mts");
    reveal_strlit("cjs");
    reveal_strlit("cts");
    assert("html"@.len() == 4);
    assert("svelte"@.len() == 6);
    assert("vue"@.len() == 3);
    assert("js"@.len() == 2);
    assert("ts"@.len() == 2);
    assert("jsx"@.len() == 3);
    assert("vue"@[0] == 'v');
    assert("jsx"@[0] == 'j');
    assert("tsx"@[0] == 't');
    assert("mjs"@[0] == 'm');
    assert("mts"@[0] == 'm');
    assert("cjs"@[0] == 'c');
    assert("cts"@[0] == 'c');
}

/// Whether the characters `cs` spell `lit`.
pub fn eq_lit(cs: &Vec<char>, lit: &str) -> (r: bool)
    ensures
        r == (cs@ == lit@),
{
    let ls = str_chars(lit);
    if cs.len() != ls.len() {
        return false;
    }
    let mut i: usize = 0;
    while i < cs.len()
        invariant
            cs.len() == ls.len(),
            ls@ == lit@,
            i <= cs.len(),
            forall|j: int| 0 <= j < i ==> cs@[j] == ls@[j],
        decreases cs.len() - i,
    {
        if cs[i] != ls[i] {
            return false;
        }
        i = i + 1;
    }
    assert(cs@ =~= ls@);
    true
}

/// A source text, tagged with the kind of file it came from.
pub enum SourceInput {
    Html(String),
    Ecma(String),
    Unknown(String),
}

impl SourceInput {
    pub open spec fn text(&self) -> Seq<char> {
        match self {
            SourceInput::Html(s) => s@,
            SourceInput::Ecma(s) => s@,
            SourceInput::Unknown(s) => s@,
        }
    }

    pub fn new(source: String, typ: SourceType) -> (r: SourceInput)
        ensures
            r.text() == source@,
            r is Html <==> typ is Html,
            r is Ecma <==> typ is Ecma,
            r is Unknown <==> typ is Unknown,
    {
        match typ {
            SourceType::Html => SourceInput::Html(source),
            SourceType::Ecma => SourceInput::Ecma(source),
            SourceType::Unknown => SourceInput::Unknown(source),
        }
    }

    pub fn as_str(&self) -> (r: &str)
        ensures
            r@ == self.text(),
    {
        match self {
            SourceInput::Html(s) => s.as_str(),
            SourceInput::Ecma(s) => s.as_str(),
            SourceInput::Unknown(s) => s.as_str(),
        }
    }

    /// The same text, to be read without knowing its kind.
    pub fn as_unknown(self) -> (r: SourceInput)
        ensures
            r is Unknown,
            r.text() == self.text(),
    {
        match self {
            SourceInput::Unknown(s) => SourceInput::Unknown(s),
            SourceInput::Html(s) => SourceInput::Unknown(s),
            SourceInput::Ecma(s) => SourceInput::Unknown(s),
        }
    }
}

} // verus!

verus! {

/// Characters that can begin a candidate.
pub open spec fn is_candidate_start(c: char) -> bool {
    c == '[' || c == '@' || c == '!' || c == '-' || c == '<' || c == '>' || c == '*'
        || ('0' <= c && c <= '9') || ('a' <= c && c <= 'z') || ('A' <= c && c <= 'Z')
}

/// Characters after which an arbitrary `[...]` part may follow.
pub open spec fn is_candidate_joint(c: char) -> bool {
    c == '@' || c == '-' || c == ':' || c == '/' || c == '!'
}

/// Plain characters inside a candidate.
pub open spec fn is_candidate_plain(c: char) -> bool {
    ('a' <= c && c <= 'z') || ('A' <= c && c <= 'Z') || ('0' <= c && c <= '9') || c == '.' || c == '-'
        || c == '_' || c == '@'
}

/// Skips to just past the next space (or to the end).
pub open spec fn spec_skip_until_candidate(s: Seq<char>, p: int) -> int
    decreases s.len() - p,
{
    if p < 0 || p >= s.len() {
        p
    } else if s[p] == ' ' {
        p + 1
    } else {
        spec_skip_until_candidate(s, p + 1)
    }
}

proof fn lemma_skip_advances(s: Seq<char>, p: int)
    requires
        0 <= p < s.len(),
    ensures
        p < spec_skip_until_candidate(s, p) <= s.len(),
    decreases s.len() - p,
{
    if s[p] != ' ' {
        if p + 1 < s.len() {
            lemma_skip_advances(s, p + 1);
        } else {
            assert(spec_skip_until_candidate(s, p + 1) == p + 1);
        }
    }
}

/// Moves to the start of the next candidate (or to the end).
pub open spec fn spec_consume_until_candidate(s: Seq<char>, p: int) -> int
    decreases s.len() - p,
{
    if p < 0 || p >= s.len() {
        p
    } else if is_candidate_start(s[p]) {
        p
    } else {
        let q = spec_skip_until_candidate(s, p);
        if q <= p || q > s.len() {
            p
        } else {
            spec_consume_until_candidate(s, q)
        }
    }
}

/// Reads a candidate from `p`: in plain mode, or inside an arbitrary
/// `[...]` part, where `\]` and `\ ` are escapes. `None` when a `\`
/// ends the text inside an arbitrary part.
pub open spec fn spec_consume_candidate(s: Seq<char>, p: int, arbitrary: bool) -> Option<int>
    decreases s.len() - p,
{
    if p < 0 || p >= s.len() {
        Some(p)
    } else if !arbitrary {
        let c = s[p];
        if is_candidate_joint(c) {
            if p + 1 < s.len() && s[p + 1] == '[' {
                spec_consume_candidate(s, p + 1, true)
            } else {
                spec_consume_candidate(s, p + 1, false)
            }
        } else if is_candidate_plain(c) {
            spec_consume_candidate(s, p + 1, false)
        } else {
            Some(p)
        }
    } else {
        let c = s[p];
        if c == ']' {
            spec_consume_candidate(s, p + 1, false)
        } else if c == '\\' {
            if p + 1 >= s.len() {
                None
            } else if s[p + 1] == ']' || s[p + 1] == ' ' {
                spec_consume_candidate(s, p + 2, true)
            } else {
                spec_consume_candidate(s, p + 1, true)
            }
        } else {
            spec_consume_candidate(s, p + 1, true)
        }
    }
}

/// One step of extraction from `p`: the candidate found (or none, at the
/// end) and the position after it; `None` where reading cannot go on.
pub open spec fn spec_next_candidate(s: Seq<char>, p: int) -> Option<(Option<Seq<char>>, int)> {
    let q = spec_consume_until_candidate(s, p);
    if q >= s.len() {
        Some((None, q))
    } else {
        match spec_consume_candidate(s, q, false) {
            None => None,
            Some(r) => Some((Some(s.subrange(q, r)), r)),
        }
    }
}

proof fn lemma_consume_bounds(s: Seq<char>, p: int, arbitrary: bool)
    requires
        0 <= p <= s.len(),
    ensures
        spec_consume_candidate(s, p, arbitrary) matches Some(r) ==> p <= r <= s.len(),
    decreases s.len() - p,
{
    if p < s.len() {
        if !arbitrary {
            let c = s[p];
            if is_candidate_joint(c) {
                if p + 1 < s.len() && s[p + 1] == '[' {
                    lemma_consume_bounds(s, p + 1, true);
                } else {
                    lemma_consume_bounds(s, p + 1, false);
                }
            } else if is_candidate_plain(c) {
                lemma_consume_bounds(s, p + 1, false);
            }
        } else {
            let c = s[p];
            if c == ']' {
                lemma_consume_bounds(s, p + 1, false);
            } else if c == '\\' {
                if p + 1 < s.len() {
                    if s[p + 1] == ']' || s[p + 1] == ' ' {
                        lemma_consume_bounds(s, p + 2, true);
                    } else {
                        lemma_consume_bounds(s, p + 1, true);
                    }
                }
            } else {
                lemma_consume_bounds(s, p + 1, true);
            }
        }
    }
}

proof fn lemma_until_bounds(s: Seq<char>, p: int)
    requires
        0 <= p <= s.len(),
    ensures
        p <= spec_consume_until_candidate(s, p) <= s.len(),
    decreases s.len() - p,
{
    if p < s.len() && !is_candidate_start(s[p]) {
        lemma_skip_advances(s, p);
        lemma_until_bounds(s, spec_skip_until_candidate(s, p));
    }
}

/// Reads candidates, such as `hover:text-[#123]`, out of arbitrary text.
pub struct StringExtractor {
    position: usize,
    input: Vec<char>,
}

impl StringExtractor {
    pub closed spec fn pos(&self) -> int {
        self.position as int
    }

    pub closed spec fn text(&self) -> Seq<char> {
        self.input@
    }

    pub fn new(input: &str) -> (r: StringExtractor)
        ensures
            r.pos() == 0,
            r.text() == input@,
    {
        StringExtractor { position: 0, input: str_chars(input) }
    }

    fn has_at_least(&self, n: usize) -> (r: bool)
        ensures
            r == (self.position + n < self.input.len()),
    {
        self.position as u128 + (n as u128) < self.input.len() as u128
    }

    fn is_eof(&self) -> (r: bool)
        ensures
            r == (self.position >= self.input.len()),
    {
        !self.has_at_least(0)
    }

    fn byte_at(&self, offset: usize) -> (r: char)
        requires
            self.position + offset < self.input.len(),
        ensures
            r == self.input@[self.position + offset],
    {
        self.input[self.position + offset]
    }

    fn next_byte(&self) -> (r: char)
        requires
            self.position < self.input.len(),
        ensures
            r == self.input@[self.pos()],
    {
        self.byte_at(0)
    }

    fn advance(&mut self, n: usize)
        requires
            old(self).position + n <= old(self).input.len(),
        ensures
            final(self).position == old(self).position + n,
            final(self).text() == old(self).text(),
    {
        self.position = self.position + n;
    }

    pub fn skip_until_candidate(&mut self)
        requires
            old(self).pos() <= old(self).text().len(),
        ensures
            final(self).pos() == spec_skip_until_candidate(old(self).text(), old(self).pos()),
            final(self).text() == old(self).text(),
    {
        while !self.is_eof()
            invariant
                self.text() == old(self).text(),
                old(self).pos() <= self.pos() <= self.input.len(),
                spec_skip_until_candidate(self.text(), self.pos())
                    == spec_skip_until_candidate(old(self).text(), old(self).pos()),
            decreases self.input.len() - self.position,
        {
            if self.next_byte() == ' ' {
                self.advance(1);
                return;
            }
            self.advance(1);
        }
    }

    pub fn consume_until_candidate(&mut self)
        requires
            old(self).pos() <= old(self).text().len(),
        ensures
            final(self).pos() == spec_consume_until_candidate(old(self).text(), old(self).pos()),
            final(self).text() == old(self).text(),
    {
        while !self.is_eof()
            invariant
                self.text() == old(self).text(),
                self.pos() <= self.input.len(),
                spec_consume_until_candidate(self.text(), self.pos())
                    == spec_consume_until_candidate(old(self).text(), old(self).pos()),
            decreases self.input.len() - self.position,
        {
            let c = self.next_byte();
            if is_candidate_start_exec(c) {
                return;
            }
            proof {
                lemma_skip_advances(self.text(), self.pos());
            }
            self.skip_until_candidate();
        }
    }

    /// Reads the rest of an arbitrary `[...]` part and what follows it.
    fn consume_arbitrary(&mut self)
        requires
            old(self).pos() <= old(self).text().len(),
            spec_consume_candidate(old(self).text(), old(self).pos(), true) is Some,
        ensures
            final(self).text() == old(self).text(),
            final(self).pos() <= final(self).text().len(),
            final(self).pos() >= old(self).pos(),
            spec_consume_candidate(final(self).text(), final(self).pos(), false)
                == spec_consume_candidate(old(self).text(), old(self).pos(), true),
    {
        while !self.is_eof()
            invariant
                self.text() == old(self).text(),
                self.pos() <= self.input.len(),
                self.pos() >= old(self).pos(),
                spec_consume_candidate(self.text(), self.pos(), true)
                    == spec_consume_candidate(old(self).text(), old(self).pos(), true),
                spec_consume_candidate(self.text(), self.pos(), true) is Some,
            decreases self.input.len() - self.position,
        {
            let c = self.next_byte();
            if c == ']' {
                self.advance(1);
                return;
            } else if c == '\\' {
                self.advance(1);
                let d = self.next_byte();
                if d == ']' || d == ' ' {
                    self.advance(1);
                }
            } else {
                self.advance(1);
            }
        }
    }

    pub fn consume_candidate(&mut self)
        requires
            old(self).pos() <= old(self).text().len(),
            spec_consume_candidate(old(self).text(), old(self).pos(), false) is Some,
        ensures
            final(self).text() == old(self).text(),
            spec_consume_candidate(old(self).text(), old(self).pos(), false) == Some(final(self).pos()),
    {
        while !self.is_eof()
            invariant
                self.text() == old(self).text(),
                self.pos() <= self.input.len(),
                spec_consume_candidate(self.text(), self.pos(), false)
                    == spec_consume_candidate(old(self).text(), old(self).pos(), false),
                spec_consume_candidate(self.text(), self.pos(), false) is Some,
            decreases self.input.len() - self.position,
        {
            let c = self.next_byte();
            if is_candidate_joint_exec(c) {
                self.advance(1);
                if !self.is_eof() && self.next_byte() == '[' {
                    self.consume_arbitrary();
                }
            } else if is_candidate_plain_exec(c) {
                self.advance(1);
            } else {
                return;
            }
        }
    }

    /// The next candidate, or `None` at the end of the text.
    pub fn next(&mut self) -> (r: Option<String>)
        requires
            old(self).pos() <= old(self).text().len(),
            spec_next_candidate(old(self).text(), old(self).pos()) is Some,
        ensures
            final(self).text() == old(self).text(),
            final(self).pos() <= final(self).text().len(),
            spec_next_candidate(old(self).text(), old(self).pos()) matches Some((c, p))
                && p == final(self).pos()
                && match c {
                    None => r is None,
                    Some(t) => r is Some && r->0@ == t,
                },
    {
        self.consume_until_candidate();
        proof {
            lemma_until_bounds(old(self).text(), old(self).pos());
        }
        if self.is_eof() {
            return None;
        }
        let start = self.position;
        self.consume_candidate();
        proof {
            lemma_consume_bounds(self.text(), start as int, false);
        }
        Some(chars_range(&self.input, start, self.position))
    }

    /// Whether reading to the end goes through: it does not when a `\`
    /// ends the text inside an arbitrary part.
    pub open spec fn extracts_from(&self) -> bool {
        spec_extract_from(self.text(), self.pos()) is Some
    }
}

fn is_candidate_start_exec(c: char) -> (r: bool)
    ensures
        r == is_candidate_start(c),
{
    c == '[' || c == '@' || c == '!' || c == '-' || c == '<' || c == '>' || c == '*'
        || ('0' <= c && c <= '9') || ('a' <= c && c <= 'z') || ('A' <= c && c <= 'Z')
}

fn is_candidate_joint_exec(c: char) -> (r: bool)
    ensures
        r == is_candidate_joint(c),
{
    c == '@' || c == '-' || c == ':' || c == '/' || c == '!'
}

fn is_candidate_plain_exec(c: char) -> (r: bool)
    ensures
        r == is_candidate_plain(c),
{
    ('a' <= c && c <= 'z') || ('A' <= c && c <= 'Z') || ('0' <= c && c <= '9') || c == '.' || c == '-'
        || c == '_' || c == '@'
}

/// All candidates from `p` to the end, in order; `None` where reading
/// cannot go on.
pub open spec fn spec_extract_from(s: Seq<char>, p: int) -> Option<Seq<Seq<char>>>
    decreases s.len() - p,
{
    if p < 0 || p > s.len() {
        None
    } else {
        match spec_next_candidate(s, p) {
            None => None,
            Some((None, _)) => Some(Seq::empty()),
            Some((Some(c), q)) => if q <= p || q > s.len() {
                None
            } else {
                match spec_extract_from(s, q) {
                    None => None,
                    Some(rest) => Some(seq![c] + rest),
                }
            },
        }
    }
}

impl StringExtractor {
    /// Where a candidate starting at `start` would end, read without moving.
    fn candidate_end(&self, start: usize) -> (r: Option<usize>)
        requires
            start <= self.input.len(),
        ensures
            match spec_consume_candidate(self.text(), start as int, false) {
                None => r is None,
                Some(e) => r == Some(e as usize),
            },
    {
        let n = self.input.len();
        let mut p = start;
        let mut arbitrary = false;
        proof {
            lemma_consume_bounds(self.text(), start as int, false);
        }
        while p < n
            invariant
                n == self.input.len(),
                p <= n,
                spec_consume_candidate(self.text(), p as int, arbitrary)
                    == spec_consume_candidate(self.text(), start as int, false),
            decreases n - p,
        {
            let c = self.input[p];
            if !arbitrary {
                if is_candidate_joint_exec(c) {
                    if p + 1 < n && self.input[p + 1] == '[' {
                        arbitrary = true;
                    }
                    p = p + 1;
                } else if is_candidate_plain_exec(c) {
                    p = p + 1;
                } else {
                    return Some(p);
                }
            } else {
                if c == ']' {
                    arbitrary = false;
                    p = p + 1;
                } else if c == '\\' {
                    if p + 1 >= n {
                        return None;
                    } else if self.input[p + 1] == ']' || self.input[p + 1] == ' ' {
                        p = p + 2;
                    } else {
                        p = p + 1;
                    }
                } else {
                    p = p + 1;
                }
            }
        }
        Some(p)
    }
}

/// Every candidate in `input`, in the order they appear; `None` when a `\`
/// ends the text inside an arbitrary `[...]` part, or when a step reads no
/// character (an empty candidate, as at `<`), where reading never ends.
pub fn extract_candidates(input: &str) -> (r: Option<Vec<String>>)
    ensures
        match spec_extract_from(input@, 0) {
            None => r is None,
            Some(cs) => r is Some && strings_view(r->0@) == cs,
        },
{
    let mut ex = StringExtractor::new(input);
    let mut out: Vec<String> = Vec::new();
    loop
        invariant
            ex.text() == input@,
            0 <= ex.pos() <= input@.len(),
            spec_extract_from(input@, 0) matches Some(all) ==> spec_extract_from(input@, ex.pos()) matches Some(rest)
                && all == strings_view(out@) + rest,
            spec_extract_from(input@, 0) is None ==> spec_extract_from(input@, ex.pos()) is None,
        decreases input@.len() - ex.pos(),
    {
        let ghost p = ex.pos();
        let p0 = ex.position;
        ex.consume_until_candidate();
        proof {
            lemma_until_bounds(input@, p);
        }
        if ex.is_eof() {
            proof {
                assert(strings_view(out@) + Seq::<Seq<char>>::empty() =~= strings_view(out@));
            }
            return Some(out);
        }
        let start = ex.position;
        match ex.candidate_end(start) {
            None => {
                return None;
            },
            Some(end) => {
                ex.consume_candidate();
                proof {
                    lemma_consume_bounds(input@, start as int, false);
                }
                let c = chars_range(&ex.input, start, ex.position);
                if ex.position <= p0 {
                    return None;
                }
                let ghost before = out@;
                out.push(c);
                proof {
                    assert(strings_view(out@) =~= strings_view(before).push(c@));
                    let rest = spec_extract_from(input@, ex.pos());
                    if let Some(r) = rest {
                        assert(strings_view(out@) + r =~= strings_view(before) + (seq![c@] + r));
                    }
                }
            },
        }
    }
}

} // verus!

verus! {

/// What `char::is_lowercase` returns for a character.
pub uninterp spec fn char_is_lowercase(c: char) -> bool;

/// `char::is_lowercase`: whether the character has the Unicode `Lowercase` property.
#[verifier::external_body]
fn is_lowercase(c: char) -> (r: bool)
    ensures
        r == char_is_lowercase(c),
{
    c.is_lowercase()
}

pub open spec fn is_separator(c: char) -> bool {
    c == '\n' || c == '\r' || c == '\t' || c == ' ' || c == '"' || c == '\'' || c == ';' || c == '{'
        || c == '}' || c == '`'
}

/// The pieces of `s` between separator characters (empty pieces included).
pub open spec fn split_tokens(s: Seq<char>) -> Seq<Seq<char>>
    decreases s.len(),
{
    if s.len() == 0 {
        seq![Seq::empty()]
    } else {
        let prev = split_tokens(s.drop_last());
        if is_separator(s.last()) {
            prev.push(Seq::empty())
        } else {
            prev.update(prev.len() - 1, prev.last().push(s.last()))
        }
    }
}

/// A token is kept when it starts with a lowercase letter or `-`.
pub open spec fn keeps_token(t: Seq<char>) -> bool {
    t.len() > 0 && (char_is_lowercase(t[0]) || t[0] == '-')
}

/// The items of `s` in order, each only at its first occurrence.
pub open spec fn dedup(s: Seq<Seq<char>>) -> Seq<Seq<char>>
    decreases s.len(),
{
    if s.len() == 0 {
        Seq::empty()
    } else {
        let prev = dedup(s.drop_last());
        if prev.contains(s.last()) { prev } else { prev.push(s.last()) }
    }
}

/// The tokens that are kept, in order.
pub open spec fn kept_tokens(s: Seq<Seq<char>>) -> Seq<Seq<char>>
    decreases s.len(),
{
    if s.len() == 0 {
        Seq::empty()
    } else if keeps_token(s.last()) {
        kept_tokens(s.drop_last()).push(s.last())
    } else {
        kept_tokens(s.drop_last())
    }
}

/// The candidates of a text read without knowing its kind.
pub open spec fn spec_basic_extract(s: Seq<char>) -> Seq<Seq<char>> {
    dedup(kept_tokens(split_tokens(s)))
}

proof fn lemma_split_tokens_nonempty(s: Seq<char>)
    ensures
        split_tokens(s).len() > 0,
    decreases s.len(),
{
    if s.len() > 0 {
        lemma_split_tokens_nonempty(s.drop_last());
    }
}

/// Reads whitespace- and punctuation-separated words out of any text.
pub struct BasicExtractor {
    pub haystack: String,
}

impl BasicExtractor {
    pub fn new(haystack: &str) -> (r: BasicExtractor)
        ensures
            r.haystack@ == haystack@,
    {
        BasicExtractor { haystack: haystack.to_owned() }
    }

    /// The words that start with a lowercase letter or `-`, each once, in the
    /// order of their first occurrence.
    pub fn extract(&self) -> (r: Vec<String>)
        ensures
            strings_view(r@) == spec_basic_extract(self.haystack@),
    {
        let cs = str_chars(self.haystack.as_str());
        let mut out: Vec<String> = Vec::new();
        let mut start: usize = 0;
        let mut i: usize = 0;
        let ghost mut done: Seq<Seq<char>> = Seq::empty();
        assert(cs@.take(0) =~= Seq::<char>::empty());
        assert(cs@.subrange(0, 0) =~= Seq::<char>::empty());
        while i < cs.len()
            invariant
                cs@ == self.haystack@,
                start <= i <= cs.len(),
                split_tokens(cs@.take(i as int)) == done.push(cs@.subrange(start as int, i as int)),
                strings_view(out@) == dedup(kept_tokens(done)),
            decreases cs.len() - i,
        {
            proof {
                assert(cs@.take(i + 1).drop_last() =~= cs@.take(i as int));
            }
            if is_separator_exec(cs[i]) {
                let tok = chars_range(&cs, start, i);
                add_token(&mut out, tok, Ghost(done));
                proof {
                    done = done.push(tok@);
                    assert(cs@.subrange(i + 1, i + 1) =~= Seq::<char>::empty());
                }
                start = i + 1;
            } else {
                proof {
                    lemma_split_tokens_nonempty(cs@.take(i as int));
                    assert(cs@.subrange(start as int, i + 1) =~= cs@.subrange(start as int, i as int).push(cs@[i as int]));
                }
            }
            i = i + 1;
        }
        let tok = chars_range(&cs, start, cs.len());
        add_token(&mut out, tok, Ghost(done));
        proof {
            assert(cs@.take(cs.len() as int) =~= cs@);
        }
        out
    }
}

/// Appends a kept token that is not there yet.
fn add_token(out: &mut Vec<String>, tok: String, Ghost(d0): Ghost<Seq<Seq<char>>>)
    requires
        strings_view(old(out)@) == dedup(kept_tokens(d0)),
    ensures
        strings_view(final(out)@) == dedup(kept_tokens(d0.push(tok@))),
{
    let ghost done = d0.push(tok@);
    assert(done.drop_last() =~= d0);
    if keeps_token_exec(&tok) {
        let mut found = false;
        let mut k: usize = 0;
        while k < out.len()
            invariant
                k <= out.len(),
                found == exists|j: int| 0 <= j < k && out@[j]@ == tok@,
            decreases out.len() - k,
        {
            if out[k] == tok {
                found = true;
            }
            k = k + 1;
        }
        proof {
            assert(kept_tokens(done) =~= kept_tokens(d0).push(tok@));
            assert(kept_tokens(done).drop_last() =~= kept_tokens(d0));
            let prev = dedup(kept_tokens(d0));
            if found {
                let j = choose|j: int| 0 <= j < out.len() && out@[j]@ == tok@;
                assert(strings_view(out@)[j] == tok@);
                assert(prev.contains(tok@));
            } else {
                assert(!prev.contains(tok@)) by {
                    if prev.contains(tok@) {
                        let j = choose|j: int| 0 <= j < prev.len() && prev[j] == tok@;
                        assert(out@[j]@ == tok@);
                    }
                }
            }
        }
        if !found {
            let ghost before = out@;
            out.push(tok);
            proof {
                assert(strings_view(out@) =~= strings_view(before).push(out@.last()@));
            }
        }
    } else {
        assert(kept_tokens(done) =~= kept_tokens(d0));
    }
}

fn is_separator_exec(c: char) -> (r: bool)
    ensures
        r == is_separator(c),
{
    c == '\n' || c == '\r' || c == '\t' || c == ' ' || c == '"' || c == '\'' || c == ';' || c == '{'
        || c == '}' || c == '`'
}

fn keeps_token_exec(t: &String) -> (r: bool)
    ensures
        r == keeps_token(t@),
{
    let cs = str_chars(t.as_str());
    if cs.len() == 0 {
        return false;
    }
    is_lowercase(cs[0]) || cs[0] == '-'
}


impl crate::common::BasicParser for StringExtractor {
    closed spec fn cursor(&self) -> int {
        self.position as int
    }

    closed spec fn text_len(&self) -> int {
        self.input@.len() as int
    }

    closed spec fn text_chars(&self) -> Seq<char> {
        self.input@
    }

    fn advance(&mut self, n: usize) {
        assert(self.input@.len() == self.input.len());
        assert(self.position + n <= self.input.len());
        self.position = self.position + n;
    }

    fn is_eof(&self) -> (r: bool) {
        self.position >= self.input.len()
    }

    fn next_byte(&self) -> (r: char) {
        self.input[self.position]
    }
}


proof fn lemma_kept_contains(x: Seq<Seq<char>>, t: Seq<char>)
    ensures
        kept_tokens(x).contains(t) == (x.contains(t) && keeps_token(t)),
    decreases x.len(),
{
    if x.len() > 0 {
        let init = x.drop_last();
        lemma_kept_contains(init, t);
        assert(x =~= init.push(x.last()));
        if x.contains(t) && t != x.last() {
            let j = choose|j: int| 0 <= j < x.len() && x[j] == t;
            assert(init[j] == t);
        }
        if init.contains(t) {
            let j = choose|j: int| 0 <= j < init.len() && init[j] == t;
            assert(x[j] == t);
        }
        if keeps_token(x.last()) {
            let k = kept_tokens(init);
            assert(kept_tokens(x) == k.push(x.last()));
            if k.contains(t) {
                let j = choose|j: int| 0 <= j < k.len() && k[j] == t;
                assert(k.push(x.last())[j] == t);
            }
            if kept_tokens(x).contains(t) && t != x.last() {
                let j = choose|j: int| 0 <= j < k.len() + 1 && k.push(x.last())[j] == t;
                assert(k[j] == t);
            }
            assert(k.push(x.last())[k.len() as int] == x.last());
            assert(x[x.len() - 1] == x.last());
        } else {
            if t == x.last() {
                assert(!keeps_token(t));
            }
        }
    }
}

proof fn lemma_dedup_contains(x: Seq<Seq<char>>, t: Seq<char>)
    ensures
        dedup(x).contains(t) == x.contains(t),
        forall|i: int, j: int| 0 <= i < j < dedup(x).len() ==> dedup(x)[i] != dedup(x)[j],
    decreases x.len(),
{
    if x.len() > 0 {
        let init = x.drop_last();
        lemma_dedup_contains(init, t);
        lemma_dedup_contains(init, x.last());
        let d = dedup(init);
        assert(x =~= init.push(x.last()));
        assert(x[x.len() - 1] == x.last());
        if x.contains(t) && t != x.last() {
            let j = choose|j: int| 0 <= j < x.len() && x[j] == t;
            assert(init[j] == t);
        }
        if init.contains(t) {
            let j = choose|j: int| 0 <= j < init.len() && init[j] == t;
            assert(x[j] == t);
        }
        if !d.contains(x.last()) {
            let e = d.push(x.last());
            assert(dedup(x) == e);
            assert(e[d.len() as int] == x.last());
            if d.contains(t) {
                let j = choose|j: int| 0 <= j < d.len() && d[j] == t;
                assert(e[j] == t);
            }
            if e.contains(t) && t != x.last() {
                let j = choose|j: int| 0 <= j < e.len() && e[j] == t;
                assert(d[j] == t);
            }
            assert forall|i: int, j: int| 0 <= i < j < e.len() implies e[i] != e[j] by {
                if j == d.len() {
                    assert(e[i] == d[i]);
                }
            }
        }
    } else {
        assert(dedup(x) =~= Seq::<Seq<char>>::empty());
    }
}

/// A word of the text is among the candidates exactly when it is not empty
/// and starts with a lowercase letter or `-` (so negative utilities such as
/// `-mt-4` are read too); no candidate comes twice.
pub proof fn law_basic_extract_members(s: Seq<char>, t: Seq<char>)
    ensures
        spec_basic_extract(s).contains(t) == (split_tokens(s).contains(t) && t.len() > 0
            && (char_is_lowercase(t[0]) || t[0] == '-')),
        forall|i: int, j: int| 0 <= i < j < spec_basic_extract(s).len()
            ==> spec_basic_extract(s)[i] != spec_basic_extract(s)[j],
{
    lemma_dedup_contains(kept_tokens(split_tokens(s)), t);
    lemma_kept_contains(split_tokens(s), t);
}

/// The words of a text are what lies between separator characters: none
/// holds a separator.
pub proof fn law_split_tokens_no_separator(s: Seq<char>)
    ensures
        forall|i: int, j: int| 0 <= i < split_tokens(s).len() && 0 <= j < split_tokens(s)[i].len()
            ==> !is_separator(#[trigger] split_tokens(s)[i][j]),
    decreases s.len(),
{
    if s.len() > 0 {
        law_split_tokens_no_separator(s.drop_last());
        lemma_split_tokens_nonempty(s.drop_last());
        let prev = split_tokens(s.drop_last());
        if !is_separator(s.last()) {
            let n = prev.len() - 1;
            assert forall|i: int, j: int| 0 <= i < split_tokens(s).len() && 0 <= j < split_tokens(s)[i].len()
                implies !is_separator(#[trigger] split_tokens(s)[i][j]) by {
                if i == n {
                    if j < prev[n].len() {
                        assert(split_tokens(s)[i][j] == prev[n][j]);
                    }
                } else {
                    assert(split_tokens(s)[i] == prev[i]);
                }
            }
        } else {
            assert forall|i: int, j: int| 0 <= i < split_tokens(s).len() && 0 <= j < split_tokens(s)[i].len()
                implies !is_separator(#[trigger] split_tokens(s)[i][j]) by {
                if i < prev.len() {
                    assert(split_tokens(s)[i] == prev[i]);
                }
            }
        }
    }
}
} // verus!
