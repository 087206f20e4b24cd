//! Parsing of candidates: the utility part (`-text-blue-500/50!`) and the
//! variant parts (`hover:`, `group-hover/sidebar:`) of a class name.
use vstd::prelude::*;
use crate::common::{MaybeArbitrary, MaybeArbitraryView, opt_maybe_view, first_index_of, find_char};
use crate::context::UtilityStorage;
use crate::variant::{
    Variant, VariantView, VariantKind, VariantHandlerView, VariantCandidate, VariantCandidateView, VariantStorage,
    StaticHandlerView, single_matcher_view, valid_matcher,
};
use crate::text::{
    push_str, str_chars, chars_range, string_from_chars, char_len, byte_len, char_at_byte, byte_get, bytes_len,
    byte_range, lemma_byte_len_split, lemma_byte_get_take, lemma_byte_len_ascii_char, lemma_take_all,
    lemma_byte_len_bounds,
};

verus! {

/// A window `start..end` of byte offsets into the input.
#[derive(Clone, Copy, Debug, PartialEq, Eq, Structural)]
pub struct ParserPosition {
    pub start: usize,
    pub end: usize,
}

impl ParserPosition {
    /// Moves the start `n` bytes on.
    pub fn advance(&mut self, n: usize)
        requires
            old(self).start + n <= usize::MAX,
        ensures
            final(self).start == old(self).start + n,
            final(self).end == old(self).end,
    {
        self.start = self.start + n;
    }

    /// Moves the end `n` bytes back.
    pub fn retreat(&mut self, n: usize)
        requires
            old(self).end >= n,
        ensures
            final(self).end == old(self).end - n,
            final(self).start == old(self).start,
    {
        self.end = self.end - n;
    }
}

/// A parsed utility: `key`, then value and modifier, e.g. `text-blue-500/50`.
pub struct UtilityCandidate {
    pub key: String,
    pub value: Option<MaybeArbitrary>,
    pub modifier: Option<MaybeArbitrary>,
    /// fully arbitrary, e.g. `[color:red]`
    pub arbitrary: bool,
    pub important: bool,
    pub negative: bool,
}

/// The abstract form of a [`UtilityCandidate`].
pub struct UtilityCandidateView {
    pub key: Seq<char>,
    pub value: Option<MaybeArbitraryView>,
    pub modifier: Option<MaybeArbitraryView>,
    pub arbitrary: bool,
    pub important: bool,
    pub negative: bool,
}

impl View for UtilityCandidate {
    type V = UtilityCandidateView;

    open spec fn view(&self) -> UtilityCandidateView {
        UtilityCandidateView {
            key: self.key@,
            value: opt_maybe_view(self.value),
            modifier: opt_maybe_view(self.modifier),
            arbitrary: self.arbitrary,
            important: self.important,
            negative: self.negative,
        }
    }
}

/// `value/modifier`, where both are named.
pub open spec fn spec_fraction(c: UtilityCandidateView) -> Option<Seq<char>> {
    match (c.value, c.modifier) {
        (Some(MaybeArbitraryView::Named(v)), Some(MaybeArbitraryView::Named(m))) => Some(v + seq!['/'] + m),
        _ => None,
    }
}

impl UtilityCandidate {
    /// A candidate of the key alone.
    pub fn with_key(key: &str) -> (r: UtilityCandidate)
        ensures
            r@ == (UtilityCandidateView {
                key: key@,
                value: None,
                modifier: None,
                arbitrary: false,
                important: false,
                negative: false,
            }),
    {
        UtilityCandidate {
            key: key.to_owned(),
            value: None,
            modifier: None,
            arbitrary: false,
            important: false,
            negative: false,
        }
    }

    /// Whether value and modifier are both named, as in `w-1/2`.
    pub fn is_fraction_like(&self) -> (r: bool)
        ensures
            r == spec_fraction(self@) is Some,
    {
        match (&self.value, &self.modifier) {
            (Some(MaybeArbitrary::Named(_)), Some(MaybeArbitrary::Named(_))) => true,
            _ => false,
        }
    }

    /// The fraction `value/modifier`, where both are named.
    pub fn take_fraction(&self) -> (r: Option<String>)
        ensures
            match r {
                Some(s) => spec_fraction(self@) == Some(s@),
                None => spec_fraction(self@) is None,
            },
    {
        match (&self.value, &self.modifier) {
            (Some(MaybeArbitrary::Named(v)), Some(MaybeArbitrary::Named(m))) => {
                let mut out = v.clone();
                push_str(&mut out, "/");
                push_str(&mut out, m.as_str());
                proof {
                    reveal_strlit("/");
                    assert(out@ =~= v@ + seq!['/'] + m@);
                }
                Some(out)
            },
            _ => None,
        }
    }
}


pub open spec fn starts_with_char(s: Seq<char>, c: char) -> bool {
    s.len() > 0 && s[0] == c
}

pub open spec fn ends_with_char(s: Seq<char>, c: char) -> bool {
    s.len() > 0 && s.last() == c
}

/// The state of the right-to-left scan for the value and the modifier,
/// in byte offsets of the input: the end of the current window, the modifier
/// found, where a `]` opened an arbitrary part, the arbitrary part just
/// closed, and whether no slicing failed.
pub struct ScanState {
    pub end: int,
    pub modifier: Option<MaybeArbitraryView>,
    pub arb_start: Option<int>,
    pub cur_arb: Option<Seq<char>>,
    pub ok: bool,
}

/// One step of the scan over `s` from byte `start`, at character `c` whose
/// byte offset is counted as `i` (characters from the right, as
/// [`UtilityParser::parse`] counts them).
pub open spec fn scan_step(s: Seq<char>, start: int, st: ScanState, c: char, i: int) -> ScanState {
    if !st.ok {
        st
    } else if c == '/' && st.arb_start is None {
        match st.cur_arb {
            Some(a) => ScanState {
                end: start + i,
                modifier: Some(MaybeArbitraryView::Arbitrary(a)),
                cur_arb: None,
                ..st
            },
            None => match byte_get(s, start, st.end) {
                Some(cur) => match byte_get(cur, i + 1, byte_len(cur)) {
                    Some(m) => ScanState { end: start + i, modifier: Some(MaybeArbitraryView::Named(m)), ..st },
                    None => ScanState { ok: false, ..st },
                },
                None => ScanState { ok: false, ..st },
            },
        }
    } else if c == ']' {
        ScanState { arb_start: Some(i), ..st }
    } else if c == '[' {
        match byte_get(s, start, st.end) {
            Some(cur) => ScanState {
                cur_arb: match st.arb_start {
                    Some(b) => byte_get(cur, i + 1, b),
                    None => None,
                },
                arb_start: None,
                ..st
            },
            None => ScanState { ok: false, ..st },
        }
    } else {
        st
    }
}

/// The state after the scan has seen the last `k` characters of `rest`,
/// the window `start..end` of `s` whose UTF-8 length is `len`.
pub open spec fn scan(s: Seq<char>, start: int, end: int, rest: Seq<char>, len: int, k: int) -> ScanState
    decreases k,
{
    if k <= 0 {
        ScanState { end, modifier: None, arb_start: None, cur_arb: None, ok: true }
    } else {
        scan_step(s, start, scan(s, start, end, rest, len, k - 1), rest[rest.len() - k], len - k)
    }
}

proof fn lemma_scan_ok_mono(s: Seq<char>, start: int, end: int, rest: Seq<char>, len: int, k: int, k2: int)
    requires
        0 <= k <= k2,
        scan(s, start, end, rest, len, k2).ok,
    ensures
        scan(s, start, end, rest, len, k).ok,
    decreases k2 - k,
{
    if k < k2 {
        lemma_scan_ok_mono(s, start, end, rest, len, k, k2 - 1);
    }
}

/// The rightmost `-` before position `upto` of `cur` whose prefix is a key.
pub open spec fn last_key_dash(cur: Seq<char>, keys: Set<Seq<char>>, upto: int) -> Option<int>
    decreases upto,
{
    if upto <= 0 {
        None
    } else if cur[upto - 1] == '-' && keys.contains(cur.take(upto - 1)) {
        Some(upto - 1)
    } else {
        last_key_dash(cur, keys, upto - 1)
    }
}

proof fn lemma_last_key_dash(cur: Seq<char>, keys: Set<Seq<char>>, upto: int)
    requires
        upto <= cur.len(),
    ensures
        last_key_dash(cur, keys, upto) matches Some(j) ==> 0 <= j < upto && cur[j] == '-' && keys.contains(cur.take(j)),
    decreases upto,
{
    if upto > 0 {
        lemma_last_key_dash(cur, keys, upto - 1);
    }
}

pub open spec fn candidate_view(
    key: Seq<char>,
    value: Option<MaybeArbitraryView>,
    modifier: Option<MaybeArbitraryView>,
    arbitrary: bool,
    important: bool,
    negative: bool,
) -> UtilityCandidateView {
    UtilityCandidateView { key, value, modifier, arbitrary, important, negative }
}

/// What parsing `s` as a utility does, given the registered keys: whether it
/// completes (rather than slicing the input off a character boundary), and
/// the candidate found.
///
/// A trailing `!` makes it important, a leading `-` negative. `[key:value]`
/// is fully arbitrary. Otherwise the key is the whole rest, if registered,
/// or its longest prefix before a `-` that is; what follows is scanned from
/// the right: a `/` outside brackets starts the modifier, `[..]` is an
/// arbitrary value or modifier, the rest is the named value.
/// Whether the input ends with `!`.
pub open spec fn is_important_input(s: Seq<char>) -> bool {
    ends_with_char(s, '!')
}

/// The input without a trailing `!`.
pub open spec fn body_of(s: Seq<char>) -> Seq<char> {
    if is_important_input(s) { s.drop_last() } else { s }
}

/// Whether the input, without a trailing `!`, starts with `-`.
pub open spec fn is_negative_input(s: Seq<char>) -> bool {
    starts_with_char(body_of(s), '-')
}

/// The character index at which the window starts (after a leading `-`).
pub open spec fn window_start(s: Seq<char>) -> int {
    if is_negative_input(s) { 1 } else { 0 }
}

/// The input without a trailing `!` and a leading `-`.
pub open spec fn window_of(s: Seq<char>) -> Seq<char> {
    body_of(s).subrange(window_start(s), body_of(s).len() as int)
}

pub open spec fn utility_parse_outcome(s: Seq<char>, keys: Set<Seq<char>>) -> (bool, Option<UtilityCandidateView>) {
    let important = is_important_input(s);
    let end = byte_len(body_of(s));
    let negative = is_negative_input(s);
    let cur = window_of(s);
    let start = window_start(s);
    if starts_with_char(cur, '[') && ends_with_char(cur, ']') {
        let inner = cur.subrange(1, cur.len() - 1);
        match first_index_of(inner, ':' as u32) {
            Some(p) => (true, Some(candidate_view(
                inner.take(p),
                Some(MaybeArbitraryView::Named(inner.skip(p + 1))),
                None,
                true,
                important,
                negative,
            ))),
            None => (true, None),
        }
    } else if keys.contains(cur) {
        (true, Some(candidate_view(cur, None, None, false, important, negative)))
    } else {
        match last_key_dash(cur, keys, cur.len() as int) {
            None => (true, None),
            Some(j) => {
                let start1 = start + byte_len(cur.take(j)) + 1;
                let (ok, value, modifier) = value_outcome(s, start1, end, cur.skip(j + 1));
                if ok {
                    (true, Some(candidate_view(cur.take(j), value, modifier, false, important, negative)))
                } else {
                    (false, None)
                }
            },
        }
    }
}

/// The scan for value and modifier over `rest`, the window `start..end` of
/// `s`: whether it completes, then the value and the modifier.
pub open spec fn value_outcome(s: Seq<char>, start: int, end: int, rest: Seq<char>)
    -> (bool, Option<MaybeArbitraryView>, Option<MaybeArbitraryView>)
{
    let st = scan(s, start, end, rest, byte_len(rest), rest.len() as int);
    if !st.ok {
        (false, None, None)
    } else {
        match st.cur_arb {
            Some(a) => (true, Some(MaybeArbitraryView::Arbitrary(a)), st.modifier),
            None => match byte_get(s, start, st.end) {
                Some(v) => (true, Some(MaybeArbitraryView::Named(v)), st.modifier),
                None => (false, None, None),
            },
        }
    }
}

pub open spec fn opt_candidate_view(c: Option<UtilityCandidate>) -> Option<UtilityCandidateView> {
    match c {
        Some(c) => Some(c@),
        None => None,
    }
}

pub open spec fn opt_string_view(o: Option<String>) -> Option<Seq<char>> {
    match o {
        Some(s) => Some(s@),
        None => None,
    }
}

/// The parser of the utility part of a class name.
pub struct UtilityParser {
    input: Vec<char>,
    key: Option<String>,
    value: Option<MaybeArbitrary>,
    modifier: Option<MaybeArbitrary>,
    pos: ParserPosition,
    /// where a `]` opened an arbitrary part, `usize::MAX` for none
    arbitrary_start: usize,
    /// the arbitrary part last closed by a `[`
    cur_arbitrary: Option<String>,
    is_negative: bool,
    is_important: bool,
}

pub proof fn lemma_byte_len_sub_le(s: Seq<char>, i: int, j: int)
    requires
        0 <= i <= j <= s.len(),
    ensures
        byte_len(s.subrange(i, j)) <= byte_len(s),
{
    lemma_byte_len_split(s, i, j);
    lemma_byte_len_split(s, j, s.len() as int);
    lemma_take_all(s);
    lemma_byte_len_bounds(s.take(i));
}

impl UtilityParser {
    pub closed spec fn text(&self) -> Seq<char> {
        self.input@
    }

    /// As [`UtilityParser::new`] leaves it.
    pub closed spec fn fresh(&self) -> bool {
        &&& self.pos.start == 0
        &&& self.pos.end == byte_len(self.input@)
        &&& byte_len(self.input@) < usize::MAX
        &&& self.key is None
        &&& self.value is None
        &&& self.modifier is None
        &&& self.arbitrary_start == usize::MAX
        &&& self.cur_arbitrary is None
        &&& !self.is_negative
        &&& !self.is_important
    }

    spec fn state(&self) -> ScanState {
        ScanState {
            end: self.pos.end as int,
            modifier: opt_maybe_view(self.modifier),
            arb_start: if self.arbitrary_start == usize::MAX { None } else { Some(self.arbitrary_start as int) },
            cur_arb: opt_string_view(self.cur_arbitrary),
            ok: true,
        }
    }

    pub fn new(input: &str) -> (r: UtilityParser)
        requires
            byte_len(input@) < usize::MAX,
        ensures
            r.fresh(),
            r.text() == input@,
    {
        let cs = str_chars(input);
        let end = bytes_len(&cs);
        UtilityParser {
            input: cs,
            key: None,
            value: None,
            modifier: None,
            pos: ParserPosition { start: 0, end },
            arbitrary_start: usize::MAX,
            cur_arbitrary: None,
            is_negative: false,
            is_important: false,
        }
    }

    /// The characters of the current window, where its ends are character
    /// boundaries.
    fn current(&self) -> (r: Option<Vec<char>>)
        ensures
            match byte_get(self.input@, self.pos.start as int, self.pos.end as int) {
                Some(t) => r is Some && r->0@ == t,
                None => r is None,
            },
    {
        match byte_range(&self.input, self.pos.start, self.pos.end) {
            Some((i, j)) => {
                let cs = chars_range(&self.input, i, j);
                Some(str_chars(cs.as_str()))
            },
            None => None,
        }
    }

    fn inside_arbitrary(&self) -> (r: bool)
        ensures
            r == (self.arbitrary_start != usize::MAX),
    {
        self.arbitrary_start != usize::MAX
    }

    fn arbitrary_start_at(&mut self, i: usize)
        ensures
            final(self).arbitrary_start == i,
            final(self).input == old(self).input,
            final(self).pos == old(self).pos,
            final(self).modifier == old(self).modifier,
            final(self).cur_arbitrary == old(self).cur_arbitrary,
            final(self).is_negative == old(self).is_negative,
            final(self).is_important == old(self).is_important,
    {
        self.arbitrary_start = i;
    }

    /// At a `/` at byte `pos` of the window: the modifier is the arbitrary
    /// part just closed, or else what follows the `/`; the window ends there.
    fn consume_modifier(&mut self, pos: usize) -> (ok: bool)
        requires
            pos < byte_len(old(self).input@),
            old(self).arbitrary_start == usize::MAX,
            old(self).pos.start + pos <= usize::MAX,
            byte_len(old(self).input@) < usize::MAX,
        ensures
            ok == scan_step(old(self).input@, old(self).pos.start as int, old(self).state(), '/', pos as int).ok,
            ok ==> final(self).state() == scan_step(old(self).input@, old(self).pos.start as int, old(self).state(), '/', pos as int),
            final(self).input == old(self).input,
            final(self).pos.start == old(self).pos.start,
            final(self).arbitrary_start == old(self).arbitrary_start,
            final(self).is_negative == old(self).is_negative,
            final(self).is_important == old(self).is_important,
    {
        match &self.cur_arbitrary {
            Some(a) => {
                self.modifier = Some(MaybeArbitrary::Arbitrary(a.clone()));
                self.cur_arbitrary = None;
            },
            None => {
                let cur = match self.current() {
                    Some(c) => c,
                    None => {
                        return false;
                    },
                };
                proof {
                    let (i, j) = choose|i: int, j: int| char_at_byte(self.input@, self.pos.start as int) == Some(i)
                        && char_at_byte(self.input@, self.pos.end as int) == Some(j);
                    crate::text::lemma_char_at_byte_range(self.input@, self.pos.start as int);
                    crate::text::lemma_char_at_byte_range(self.input@, self.pos.end as int);
                    crate::text::lemma_char_at_byte_monotone(self.input@, self.pos.start as int, self.pos.end as int);
                    lemma_byte_len_sub_le(self.input@, i, j);
                }
                let len = bytes_len(&cur);
                let (i, j) = match byte_range(&cur, pos + 1, len) {
                    Some(r) => r,
                    None => {
                        return false;
                    },
                };
                let m = chars_range(&cur, i, j);
                self.modifier = Some(MaybeArbitrary::Named(m));
            },
        }
        self.pos.end = self.pos.start + pos;
        true
    }

    /// At a `[` just before byte `pos` of the window: the arbitrary part is
    /// what lies between it and the `]` seen, if one was.
    fn consume_arbitrary(&mut self, pos: usize) -> (ok: bool)
        requires
            pos >= 1,
            byte_len(old(self).input@) < usize::MAX,
        ensures
            ok == scan_step(old(self).input@, old(self).pos.start as int, old(self).state(), '[', pos - 1).ok,
            ok ==> final(self).state() == scan_step(old(self).input@, old(self).pos.start as int, old(self).state(), '[', pos - 1),
            final(self).input == old(self).input,
            final(self).pos == old(self).pos,
            final(self).is_negative == old(self).is_negative,
            final(self).is_important == old(self).is_important,
    {
        let cur = match self.current() {
            Some(c) => c,
            None => {
                return false;
            },
        };
        if self.arbitrary_start == usize::MAX {
            self.cur_arbitrary = None;
        } else {
            self.cur_arbitrary = match byte_range(&cur, pos, self.arbitrary_start) {
                Some((i, j)) => Some(chars_range(&cur, i, j)),
                None => None,
            };
        }
        self.arbitrary_start = usize::MAX;
        true
    }

    /// A trailing `!` makes the utility important.
    fn parse_important(&mut self)
        requires
            old(self).fresh(),
        ensures
            final(self).input == old(self).input,
            final(self).is_important == ends_with_char(old(self).input@, '!'),
            final(self).pos.start == 0,
            final(self).pos.end == byte_len(if final(self).is_important { old(self).input@.drop_last() } else { old(self).input@ }),
            final(self).key is None && final(self).value is None && final(self).modifier is None,
            final(self).arbitrary_start == usize::MAX && final(self).cur_arbitrary is None,
            !final(self).is_negative,
    {
        let ghost s = self.input@;
        proof {
            lemma_take_all(s);
            lemma_byte_get_take(s, 0, s.len() as int);
            assert(s.take(0) =~= Seq::<char>::empty());
        }
        let cur = self.current().unwrap();
        if cur.len() > 0 && cur[cur.len() - 1] == '!' {
            proof {
                lemma_byte_len_split(s, s.len() - 1, s.len() as int);
                lemma_byte_len_ascii_char(s, s.len() - 1);
                assert(s.take(s.len() - 1) =~= s.drop_last());
            }
            self.pos.retreat(1);
            self.is_important = true;
        }
    }

    /// A leading `-` makes the utility negative.
    fn parse_negative(&mut self)
        requires
            old(self).pos.start == 0,
            old(self).pos.end == byte_len(if old(self).is_important { old(self).input@.drop_last() } else { old(self).input@ }),
            old(self).is_important ==> ends_with_char(old(self).input@, '!'),
            !old(self).is_negative,
        ensures
            final(self).input == old(self).input,
            final(self).is_important == old(self).is_important,
            final(self).key == old(self).key && final(self).value == old(self).value,
            final(self).modifier == old(self).modifier,
            final(self).arbitrary_start == old(self).arbitrary_start,
            final(self).cur_arbitrary == old(self).cur_arbitrary,
            final(self).pos.end == old(self).pos.end,
            ({
                let s1 = if old(self).is_important { old(self).input@.drop_last() } else { old(self).input@ };
                &&& final(self).is_negative == starts_with_char(s1, '-')
                &&& final(self).pos.start == (if final(self).is_negative { 1int } else { 0int })
            }),
    {
        let ghost s = self.input@;
        let ghost b: int = if self.is_important { s.len() - 1 } else { s.len() as int };
        proof {
            lemma_take_all(s);
            assert(s.take(0) =~= Seq::<char>::empty());
            if self.is_important {
                assert(s.take(s.len() - 1) =~= s.drop_last());
            }
            lemma_byte_get_take(s, 0, b);
        }
        let cur = self.current().unwrap();
        if cur.len() > 0 && cur[0] == '-' {
            self.pos.advance(1);
            self.is_negative = true;
        }
    }
}

/// The rightmost `-` of `cur` whose prefix is a registered utility key.
fn find_key_dash(cur: &Vec<char>, utilities: &UtilityStorage) -> (r: Option<usize>)
    requires
        utilities.wf(),
    ensures
        match r {
            Some(j) => last_key_dash(cur@, utilities.keys(), cur@.len() as int) == Some(j as int),
            None => last_key_dash(cur@, utilities.keys(), cur@.len() as int) is None,
        },
{
    let mut j: usize = cur.len();
    while j > 0
        invariant
            j <= cur@.len(),
            utilities.wf(),
            last_key_dash(cur@, utilities.keys(), cur@.len() as int) == last_key_dash(cur@, utilities.keys(), j as int),
        decreases j,
    {
        if cur[j - 1] == '-' {
            let key = chars_range(cur, 0, j - 1);
            proof {
                assert(key@ == cur@.take(j - 1));
            }
            if utilities.get(key.as_str()).is_some() {
                return Some(j - 1);
            }
        }
        j = j - 1;
    }
    None
}

impl UtilityParser {
    /// Reads a trailing `!` and a leading `-`; the window is then the rest.
    fn parse_flags(&mut self) -> (cur: Vec<char>)
        requires
            old(self).fresh(),
        ensures
            cur@ == window_of(old(self).text()),
            final(self).input == old(self).input,
            final(self).is_important == is_important_input(old(self).text()),
            final(self).is_negative == is_negative_input(old(self).text()),
            final(self).pos.start == window_start(old(self).text()),
            final(self).pos.start == byte_len(old(self).input@.take(window_start(old(self).text()))),
            final(self).pos.end == byte_len(body_of(old(self).text())),
            final(self).pos.end == byte_len(old(self).input@.take(body_of(old(self).text()).len() as int)),
            body_of(old(self).text()).len() <= old(self).input@.len(),
            window_start(old(self).text()) <= body_of(old(self).text()).len(),
            byte_len(old(self).input@) < usize::MAX,
            final(self).modifier is None,
            final(self).arbitrary_start == usize::MAX,
            final(self).cur_arbitrary is None,
    {
        let ghost s = self.input@;
        self.parse_important();
        self.parse_negative();
        let ghost a: int = window_start(s);
        let ghost b: int = body_of(s).len() as int;
        proof {
            lemma_take_all(s);
            assert(body_of(s) =~= s.take(b));
            assert(s.take(0) =~= Seq::<char>::empty());
            if is_negative_input(s) {
                assert(s[0] == '-');
                lemma_byte_len_ascii_char(s, 0);
                assert(s.take(1) =~= s.subrange(0, 1));
            }
            lemma_byte_get_take(s, a, b);
            assert(window_of(s) =~= s.subrange(a, b));
        }
        self.current().unwrap()
    }

    /// With the key ending before the `-` at `jk` of the window `cur`: moves
    /// past it and scans the value and the modifier.
    fn parse_after_key(&mut self, cur: &Vec<char>, jk: usize, Ghost(a): Ghost<int>, Ghost(b): Ghost<int>)
        -> (r: Option<(String, Option<MaybeArbitrary>, Option<MaybeArbitrary>)>)
        requires
            0 <= a <= b <= old(self).input@.len(),
            cur@ == old(self).input@.subrange(a, b),
            old(self).pos.start == byte_len(old(self).input@.take(a)),
            old(self).pos.end == byte_len(old(self).input@.take(b)),
            jk < cur@.len(),
            cur@[jk as int] == '-',
            byte_len(old(self).input@) < usize::MAX,
            old(self).modifier is None,
            old(self).arbitrary_start == usize::MAX,
            old(self).cur_arbitrary is None,
        ensures
            ({
                let o = value_outcome(
                    old(self).input@,
                    old(self).pos.start + byte_len(cur@.take(jk as int)) + 1,
                    old(self).pos.end as int,
                    cur@.skip(jk + 1),
                );
                match r {
                    Some((k, v, m)) => o.0 && k@ == cur@.take(jk as int) && opt_maybe_view(v) == o.1
                        && opt_maybe_view(m) == o.2,
                    None => !o.0,
                }
            }),
            final(self).is_important == old(self).is_important,
            final(self).is_negative == old(self).is_negative,
    {
        let ghost s = self.input@;
        let key = chars_range(cur, 0, jk);
        let key_cs = str_chars(key.as_str());
        proof {
            assert(key_cs@ =~= s.subrange(a, a + jk));
            lemma_byte_len_sub_le(s, a, a + jk);
            lemma_byte_len_split(s, a, a + jk);
            lemma_byte_len_split(s, a + jk, a + jk + 1);
            assert(s[a + jk] == '-');
            lemma_byte_len_ascii_char(s, a + jk);
            lemma_byte_len_split(s, a + jk + 1, s.len() as int);
            lemma_byte_len_bounds(s.subrange(a + jk + 1, s.len() as int));
            lemma_take_all(s);
        }
        let off = bytes_len(&key_cs);
        self.pos.advance(off + 1);
        self.key = Some(key.clone());
        proof {
            let c1 = a + jk + 1;
            assert(self.pos.start == byte_len(s.take(c1)));
            lemma_byte_get_take(s, c1, b);
            assert(cur@.skip(jk + 1) =~= s.subrange(c1, b));
            lemma_byte_len_split(s, c1, b);
            lemma_byte_len_split(s, b, s.len() as int);
            lemma_byte_len_bounds(s.subrange(b, s.len() as int));
        }
        match self.parse_value() {
            Some((value, modifier)) => Some((key, value, modifier)),
            None => None,
        }
    }

    /// Parses the input as a utility, the keys being those of `utilities`.
    pub fn parse_with(&mut self, utilities: &UtilityStorage) -> (r: Option<UtilityCandidate>)
        requires
            old(self).fresh(),
            utilities.wf(),
        ensures
            opt_candidate_view(r) == utility_parse_outcome(old(self).text(), utilities.keys()).1,
    {
        let ghost s = self.input@;
        let ghost keys = utilities.keys();
        let cur = self.parse_flags();
        let important_now = self.is_important;
        let negative_now = self.is_negative;
        let n = cur.len();
        if n > 0 && cur[0] == '[' && cur[n - 1] == ']' {
            let inner_s = chars_range(&cur, 1, n - 1);
            let inner = str_chars(inner_s.as_str());
            match find_char(&inner, ':') {
                Some(p) => {
                    proof {
                        crate::common::lemma_first_index_some_range(inner@, ':' as u32);
                    }
                    let key = chars_range(&inner, 0, p);
                    let value = chars_range(&inner, p + 1, inner.len());
                    proof {
                        assert(key@ =~= inner@.take(p as int));
                        assert(value@ =~= inner@.skip(p + 1));
                    }
                    return Some(UtilityCandidate {
                        key,
                        value: Some(MaybeArbitrary::Named(value)),
                        modifier: None,
                        arbitrary: true,
                        important: important_now,
                        negative: negative_now,
                    });
                },
                None => {
                    return None;
                },
            }
        }
        let cur_s = string_from_chars(cur.as_slice());
        if utilities.get(cur_s.as_str()).is_some() {
            self.key = Some(cur_s.clone());
            return Some(UtilityCandidate {
                key: cur_s,
                value: None,
                modifier: None,
                arbitrary: false,
                important: important_now,
                negative: negative_now,
            });
        }
        let jk = match find_key_dash(&cur, utilities) {
            Some(x) => x,
            None => {
                return None;
            },
        };
        proof {
            lemma_last_key_dash(cur@, keys, n as int);
            assert(window_of(s) =~= s.subrange(window_start(s), body_of(s).len() as int));
            assert(self.pos.start == byte_len(s.take(window_start(s))));
        }
        match self.parse_after_key(&cur, jk, Ghost(window_start(s)), Ghost(body_of(s).len() as int)) {
            Some((key, value, modifier)) => Some(
                UtilityCandidate { key, value, modifier, arbitrary: false, important: important_now, negative: negative_now },
            ),
            None => None,
        }
    }
}

impl UtilityParser {
    /// Scans the current window, right to left, for the value and the modifier.
    fn parse_value(&mut self) -> (r: Option<(Option<MaybeArbitrary>, Option<MaybeArbitrary>)>)
        requires
            byte_len(old(self).input@) < usize::MAX,
            old(self).pos.start <= old(self).pos.end <= byte_len(old(self).input@),
            old(self).modifier is None,
            old(self).arbitrary_start == usize::MAX,
            old(self).cur_arbitrary is None,
            byte_get(old(self).input@, old(self).pos.start as int, old(self).pos.end as int) is Some,
        ensures
            ({
                let o = value_outcome(
                    old(self).input@,
                    old(self).pos.start as int,
                    old(self).pos.end as int,
                    byte_get(old(self).input@, old(self).pos.start as int, old(self).pos.end as int).unwrap(),
                );
                match r {
                    Some((v, m)) => o.0 && opt_maybe_view(v) == o.1 && opt_maybe_view(m) == o.2,
                    None => !o.0,
                }
            }),
            final(self).input == old(self).input,
            final(self).is_important == old(self).is_important,
            final(self).is_negative == old(self).is_negative,
    {
        let ghost s = self.input@;
        let ghost start1: int = self.pos.start as int;
        let ghost end: int = self.pos.end as int;
        let rest = self.current().unwrap();
        proof {
            let (i, j) = choose|i: int, j: int| char_at_byte(s, start1) == Some(i) && char_at_byte(s, end) == Some(j);
            crate::text::lemma_char_at_byte_range(s, start1);
            crate::text::lemma_char_at_byte_range(s, end);
            crate::text::lemma_char_at_byte_monotone(s, start1, end);
            lemma_byte_len_sub_le(s, i, j);
            lemma_byte_len_bounds(rest@);
        }
        let len2 = bytes_len(&rest);
        let m = rest.len();
        proof {
            lemma_window_len(s, start1, end);
            assert(self.state() == scan(s, start1, end, rest@, len2 as int, 0));
        }
        let mut k: usize = 0;
        while k < m
            invariant
                k <= m,
                m == rest@.len(),
                m <= len2,
                len2 == byte_len(rest@),
                start1 + len2 == end,
                byte_len(s) < usize::MAX,
                end <= byte_len(s),
                self.input@ == s,
                self.input == old(self).input,
                self.pos.start == start1,
                self.is_important == old(self).is_important,
                self.is_negative == old(self).is_negative,
                self.state() == scan(s, start1, end, rest@, len2 as int, k as int),
                rest@ == byte_get(old(self).input@, old(self).pos.start as int, old(self).pos.end as int).unwrap(),
                start1 == old(self).pos.start,
                end == old(self).pos.end,
            decreases m - k,
        {
            let c = rest[m - 1 - k];
            let i = len2 - 1 - k;
            proof {
                assert(rest@[rest@.len() - (k + 1)] == c);
            }
            let mut ok = true;
            if c == '/' && !self.inside_arbitrary() {
                ok = self.consume_modifier(i);
            } else if c == ']' {
                self.arbitrary_start_at(i);
            } else if c == '[' {
                ok = self.consume_arbitrary(i + 1);
            }
            if !ok {
                proof {
                    assert(scan(s, start1, end, rest@, len2 as int, k + 1)
                        == scan_step(s, start1, scan(s, start1, end, rest@, len2 as int, k as int), c, i as int));
                    assert(!scan(s, start1, end, rest@, len2 as int, k + 1).ok);
                    if scan(s, start1, end, rest@, len2 as int, m as int).ok {
                        lemma_scan_ok_mono(s, start1, end, rest@, len2 as int, k + 1, m as int);
                    }
                }
                return None;
            }
            k = k + 1;
        }
        match &self.cur_arbitrary {
            Some(a) => {
                self.value = Some(MaybeArbitrary::Arbitrary(a.clone()));
            },
            None => {
                let v = match self.current() {
                    Some(v) => v,
                    None => {
                        return None;
                    },
                };
                self.value = Some(MaybeArbitrary::Named(string_from_chars(v.as_slice())));
            },
        }
        let value = match &self.value {
            Some(v) => Some(v.clone()),
            None => None,
        };
        let modifier = match &self.modifier {
            Some(v) => Some(v.clone()),
            None => None,
        };
        Some((value, modifier))
    }
}

/// The window `start..end` of `s`, where both are boundaries, has UTF-8
/// length `end - start`.
proof fn lemma_window_len(s: Seq<char>, start: int, end: int)
    requires
        byte_get(s, start, end) is Some,
    ensures
        byte_len(byte_get(s, start, end).unwrap()) == end - start,
{
    let (i, j) = choose|i: int, j: int| char_at_byte(s, start) == Some(i) && char_at_byte(s, end) == Some(j);
    crate::text::lemma_char_at_byte_range(s, start);
    crate::text::lemma_char_at_byte_range(s, end);
    crate::text::lemma_char_at_byte_monotone(s, start, end);
    lemma_byte_len_of_boundary(s, start);
    lemma_byte_len_of_boundary(s, end);
    lemma_byte_len_split(s, i, j);
}

/// A boundary is the UTF-8 length of the characters before it.
pub proof fn lemma_byte_len_of_boundary(s: Seq<char>, a: int)
    requires
        char_at_byte(s, a) is Some,
    ensures
        byte_len(s.take(char_at_byte(s, a).unwrap())) == a,
    decreases s.len(),
{
    if a != 0 {
        let j = char_at_byte(s, a).unwrap();
        lemma_byte_len_of_boundary(s.drop_first(), a - char_len(s[0]));
        let t = s.take(j);
        crate::text::lemma_char_at_byte_range(s.drop_first(), a - char_len(s[0]));
        assert(t[0] == s[0]);
        assert(t.drop_first() =~= s.drop_first().take(j - 1));
    } else {
        assert(s.take(0) =~= Seq::<char>::empty());
    }
}

/// The variant that an arbitrary matcher such as `[&:nth-child(3)]` makes.
pub open spec fn arbitrary_variant_view(m: Seq<char>) -> VariantView {
    VariantView {
        handler: VariantHandlerView::Static(single_matcher_view(m)),
        composable: true,
        kind: VariantKind::Arbitrary,
        ordering: None,
        nested: m[0] == '@',
    }
}

/// The variant that a composable variant wraps: the one its value names,
/// or an arbitrary matcher.
pub open spec fn composed_inner(value: Option<MaybeArbitraryView>, vars: Map<Seq<char>, VariantView>) -> Option<VariantView> {
    match value {
        Some(MaybeArbitraryView::Named(k)) => if vars.contains_key(k) { Some(vars[k]) } else { None },
        Some(MaybeArbitraryView::Arbitrary(m)) => if valid_matcher(m) { Some(arbitrary_variant_view(m)) } else { None },
        None => None,
    }
}

/// What parsing `s` as a variant does, given the registered variants:
/// whether it completes, and the candidate found.
///
/// `[matcher]` is an arbitrary variant; a registered key is that variant;
/// otherwise the key is the longest prefix before a `-` that is registered,
/// and value and modifier are scanned as for utilities. A composable
/// variant takes the variant its value names and becomes a layer over it.
pub open spec fn variant_parse_outcome(s: Seq<char>, vars: Map<Seq<char>, VariantView>) -> (bool, Option<VariantCandidateView>) {
    if starts_with_char(s, '[') && ends_with_char(s, ']') {
        let inner = s.subrange(1, s.len() - 1);
        if valid_matcher(inner) {
            (true, Some(VariantCandidateView {
                key: inner,
                value: None,
                modifier: None,
                arbitrary: true,
                processor: arbitrary_variant_view(inner),
                layers: Seq::empty(),
                ordering_key: None,
            }))
        } else {
            (true, None)
        }
    } else if vars.contains_key(s) {
        (true, Some(VariantCandidateView {
            key: s,
            value: None,
            modifier: None,
            arbitrary: false,
            processor: vars[s],
            layers: Seq::empty(),
            ordering_key: vars[s].ordering,
        }))
    } else {
        match last_key_dash(s, vars.dom(), s.len() as int) {
            None => (true, None),
            Some(j) => {
                let (ok, value, modifier) = value_outcome(s, byte_len(s.take(j)) + 1, byte_len(s), s.skip(j + 1));
                if !ok {
                    (false, None)
                } else {
                    let key = s.take(j);
                    let v = vars[key];
                    match v.handler {
                        VariantHandlerView::Composable(h) => match composed_inner(value, vars) {
                            Some(inner) => (true, Some(VariantCandidateView {
                                key,
                                value,
                                modifier,
                                arbitrary: false,
                                processor: inner,
                                layers: seq![h],
                                ordering_key: inner.ordering,
                            })),
                            None => (true, None),
                        },
                        _ => (true, Some(VariantCandidateView {
                            key,
                            value,
                            modifier,
                            arbitrary: false,
                            processor: v,
                            layers: Seq::empty(),
                            ordering_key: v.ordering,
                        })),
                    }
                }
            },
        }
    }
}

pub open spec fn opt_variant_candidate_view(c: Option<VariantCandidate>) -> Option<VariantCandidateView> {
    match c {
        Some(c) => Some(c@),
        None => None,
    }
}

/// The rightmost `-` of `cur` whose prefix is a registered variant key.
fn find_variant_dash(cur: &Vec<char>, variants: &VariantStorage) -> (r: Option<usize>)
    requires
        variants.wf(),
    ensures
        match r {
            Some(j) => last_key_dash(cur@, variants.spec_map().dom(), cur@.len() as int) == Some(j as int),
            None => last_key_dash(cur@, variants.spec_map().dom(), cur@.len() as int) is None,
        },
{
    let mut j: usize = cur.len();
    while j > 0
        invariant
            j <= cur@.len(),
            variants.wf(),
            last_key_dash(cur@, variants.spec_map().dom(), cur@.len() as int)
                == last_key_dash(cur@, variants.spec_map().dom(), j as int),
        decreases j,
    {
        if cur[j - 1] == '-' {
            let key = chars_range(cur, 0, j - 1);
            proof {
                assert(key@ == cur@.take(j - 1));
            }
            if variants.get(key.as_str()).is_some() {
                return Some(j - 1);
            }
        }
        j = j - 1;
    }
    None
}

/// The arbitrary variant of a matcher that starts with `&` or `@`.
fn arbitrary_variant(m: String) -> (r: Variant)
    requires
        valid_matcher(m@),
    ensures
        r@ == arbitrary_variant_view(m@),
{
    let cs = str_chars(m.as_str());
    let nested = cs[0] == '@';
    let v = Variant::new_static(vec![m]);
    Variant { kind: VariantKind::Arbitrary, nested, ..v }
}

/// The parser of a variant part of a class name.
pub struct VariantParser {
    input: String,
}

impl VariantParser {
    pub closed spec fn text(&self) -> Seq<char> {
        self.input@
    }

    pub fn new(input: &str) -> (r: VariantParser)
        ensures
            r.text() == input@,
    {
        VariantParser { input: input.to_owned() }
    }

    /// Parses the input as a variant of `variants`.
    pub fn parse_with(&self, variants: &VariantStorage) -> (r: Option<VariantCandidate>)
        requires
            variants.wf(),
            byte_len(self.text()) < usize::MAX,
        ensures
            opt_variant_candidate_view(r) == variant_parse_outcome(self.text(), variants.spec_map()).1,
    {
        let ghost s = self.input@;
        let ghost vars = variants.spec_map();
        let cs = str_chars(self.input.as_str());
        let n = cs.len();
        if n > 0 && cs[0] == '[' && cs[n - 1] == ']' {
            let inner = chars_range(&cs, 1, n - 1);
            let ics = str_chars(inner.as_str());
            if ics.len() > 0 && (ics[0] == '&' || ics[0] == '@') {
                let v = arbitrary_variant(inner.clone());
                let c = VariantCandidate::new(v, inner.as_str()).arbitrary();
                return Some(c);
            } else {
                return None;
            }
        }
        match variants.get(self.input.as_str()) {
            Some(v) => {
                return Some(VariantCandidate::new(v.clone(), self.input.as_str()));
            },
            None => {},
        }
        let jk = match find_variant_dash(&cs, variants) {
            Some(x) => x,
            None => {
                return None;
            },
        };
        proof {
            lemma_last_key_dash(cs@, vars.dom(), n as int);
            lemma_take_all(s);
            assert(s.take(0) =~= Seq::<char>::empty());
        }
        let mut p = UtilityParser::new(self.input.as_str());
        let (key, value, modifier) = match p.parse_after_key(&cs, jk, Ghost(0), Ghost(n as int)) {
            Some(t) => t,
            None => {
                return None;
            },
        };
        let v = variants.get(key.as_str()).unwrap();
        match v.take_composable() {
            Some(h) => {
                let inner = match &value {
                    Some(MaybeArbitrary::Named(k)) => match variants.get(k.as_str()) {
                        Some(iv) => iv.clone(),
                        None => {
                            return None;
                        },
                    },
                    Some(MaybeArbitrary::Arbitrary(m)) => {
                        let mcs = str_chars(m.as_str());
                        if mcs.len() > 0 && (mcs[0] == '&' || mcs[0] == '@') {
                            arbitrary_variant(m.clone())
                        } else {
                            return None;
                        }
                    },
                    None => {
                        return None;
                    },
                };
                let c = VariantCandidate::new(inner, key.as_str())
                    .with_value(value)
                    .with_modifier(modifier)
                    .with_layers(vec![h]);
                proof {
                    assert(c@.layers =~= seq![h]);
                }
                Some(c)
            },
            None => {
                let c = VariantCandidate::new(v.clone(), key.as_str()).with_value(value).with_modifier(modifier);
                Some(c)
            },
        }
    }
}

/// A token of a candidate.
pub enum Token {
    Ident(String),
    Arbitrary(String),
    Slash,
    Bang,
    Minus,
    At,
}

/// The state of a candidate's token sequence.
#[derive(Clone, Copy, Debug, PartialEq, Eq, Structural)]
pub enum State {
    /// Initial state; accepts an ident or an arbitrary part
    Initial,
    /// After at least one ident; accepts ident, arbitrary, slash
    AfterIdent,
    /// After an arbitrary part; accepts slash
    AfterArbitrary,
    /// After a slash; accepts ident or arbitrary
    AfterSlash,
    /// After a slash and an ident; accepts ident
    AfterSlashIdent,
    /// Done
    Eof,
}

/// The kind of a token, without its text.
pub enum TokenKind {
    Ident,
    Arbitrary,
    Slash,
    Bang,
    Minus,
    At,
}

pub open spec fn token_kind(t: Token) -> TokenKind {
    match t {
        Token::Ident(_) => TokenKind::Ident,
        Token::Arbitrary(_) => TokenKind::Arbitrary,
        Token::Slash => TokenKind::Slash,
        Token::Bang => TokenKind::Bang,
        Token::Minus => TokenKind::Minus,
        Token::At => TokenKind::At,
    }
}

/// A transition function over token states.
pub trait StateTransformer {
    /// The transition.
    spec fn step(state: State, token: TokenKind) -> Option<State>;

    fn transform(state: &State, token: &Token) -> (r: Option<State>)
        ensures
            r == Self::step(*state, token_kind(*token)),
    ;
}

/// The transitions of a utility's tokens: `!` and `-` first, idents,
/// an arbitrary part, a slash and its modifier, `!` last.
pub struct UtilityTransformer;

impl StateTransformer for UtilityTransformer {
    open spec fn step(state: State, token: TokenKind) -> Option<State> {
        match (state, token) {
            (State::Initial, TokenKind::Bang) => Some(State::Initial),
            (State::Initial, TokenKind::Minus) => Some(State::Initial),
            (State::Initial, TokenKind::Ident) => Some(State::AfterIdent),
            (State::Initial, TokenKind::Arbitrary) => Some(State::AfterArbitrary),
            (State::AfterIdent, TokenKind::Ident) => Some(State::AfterIdent),
            (State::AfterIdent, TokenKind::Arbitrary) => Some(State::AfterArbitrary),
            (State::AfterIdent, TokenKind::Slash) => Some(State::AfterSlash),
            (State::AfterIdent, TokenKind::Bang) => Some(State::Eof),
            (State::AfterArbitrary, TokenKind::Bang) => Some(State::Eof),
            (State::AfterArbitrary, TokenKind::Slash) => Some(State::AfterSlash),
            (State::AfterSlash, TokenKind::Ident) => Some(State::Eof),
            (State::AfterSlashIdent, TokenKind::Ident) => Some(State::AfterSlashIdent),
            (State::AfterSlash, TokenKind::Arbitrary) => Some(State::Eof),
            _ => None,
        }
    }

    fn transform(state: &State, token: &Token) -> (r: Option<State>) {
        match (state, token) {
            (State::Initial, Token::Bang) => Some(State::Initial),
            (State::Initial, Token::Minus) => Some(State::Initial),
            (State::Initial, Token::Ident(_)) => Some(State::AfterIdent),
            (State::Initial, Token::Arbitrary(_)) => Some(State::AfterArbitrary),
            (State::AfterIdent, Token::Ident(_)) => Some(State::AfterIdent),
            (State::AfterIdent, Token::Arbitrary(_)) => Some(State::AfterArbitrary),
            (State::AfterIdent, Token::Slash) => Some(State::AfterSlash),
            (State::AfterIdent, Token::Bang) => Some(State::Eof),
            (State::AfterArbitrary, Token::Bang) => Some(State::Eof),
            (State::AfterArbitrary, Token::Slash) => Some(State::AfterSlash),
            (State::AfterSlash, Token::Ident(_)) => Some(State::Eof),
            (State::AfterSlashIdent, Token::Ident(_)) => Some(State::AfterSlashIdent),
            (State::AfterSlash, Token::Arbitrary(_)) => Some(State::Eof),
            _ => None,
        }
    }
}

/// The transitions of a variant's tokens: an ident or `@` first, idents,
/// an arbitrary part, a slash and its modifier.
pub struct VariantTransformer;

impl StateTransformer for VariantTransformer {
    open spec fn step(state: State, token: TokenKind) -> Option<State> {
        match (state, token) {
            (State::Initial, TokenKind::Ident) => Some(State::AfterIdent),
            (State::Initial, TokenKind::At) => Some(State::AfterIdent),
            (State::Initial, TokenKind::Arbitrary) => Some(State::AfterArbitrary),
            (State::AfterIdent, TokenKind::Ident) => Some(State::AfterIdent),
            (State::AfterIdent, TokenKind::Arbitrary) => Some(State::AfterArbitrary),
            (State::AfterIdent, TokenKind::Slash) => Some(State::AfterSlash),
            (State::AfterArbitrary, TokenKind::Slash) => Some(State::AfterSlash),
            (State::AfterSlash, TokenKind::Ident) => Some(State::AfterSlashIdent),
            (State::AfterSlashIdent, TokenKind::Ident) => Some(State::AfterSlashIdent),
            (State::AfterSlash, TokenKind::Arbitrary) => Some(State::Eof),
            _ => None,
        }
    }

    fn transform(state: &State, token: &Token) -> (r: Option<State>) {
        match (state, token) {
            (State::Initial, Token::Ident(_)) => Some(State::AfterIdent),
            (State::Initial, Token::At) => Some(State::AfterIdent),
            (State::Initial, Token::Arbitrary(_)) => Some(State::AfterArbitrary),
            (State::AfterIdent, Token::Ident(_)) => Some(State::AfterIdent),
            (State::AfterIdent, Token::Arbitrary(_)) => Some(State::AfterArbitrary),
            (State::AfterIdent, Token::Slash) => Some(State::AfterSlash),
            (State::AfterArbitrary, Token::Slash) => Some(State::AfterSlash),
            (State::AfterSlash, Token::Ident(_)) => Some(State::AfterSlashIdent),
            (State::AfterSlashIdent, Token::Ident(_)) => Some(State::AfterSlashIdent),
            (State::AfterSlash, Token::Arbitrary(_)) => Some(State::Eof),
            _ => None,
        }
    }
}

/// A utility's token sequence never leaves the done state.
pub proof fn law_eof_is_final(token: TokenKind)
    ensures
        UtilityTransformer::step(State::Eof, token) is None,
        VariantTransformer::step(State::Eof, token) is None,
{
}

/// No `/`, `[` or `]` in `v`: the scan passes over it.
pub open spec fn plain_value(v: Seq<char>) -> bool {
    forall|i: int| 0 <= i < v.len() ==> #[trigger] v[i] != '/' && v[i] != '[' && v[i] != ']' && v[i] != '-' && v[i] != '!'
}

proof fn lemma_scan_plain(s: Seq<char>, start: int, end: int, rest: Seq<char>, len: int, k: int)
    requires
        plain_value(rest),
        0 <= k <= rest.len(),
    ensures
        scan(s, start, end, rest, len, k) == (ScanState { end, modifier: None, arb_start: None, cur_arb: None, ok: true }),
    decreases k,
{
    if k > 0 {
        lemma_scan_plain(s, start, end, rest, len, k - 1);
        let c = rest[rest.len() - k];
        assert(c != '/' && c != '[' && c != ']');
    }
}

proof fn lemma_last_key_dash_at(s: Seq<char>, keys: Set<Seq<char>>, j: int, upto: int)
    requires
        0 <= j < upto <= s.len(),
        s[j] == '-',
        keys.contains(s.take(j)),
        forall|i: int| j < i < upto ==> #[trigger] s[i] != '-',
    ensures
        last_key_dash(s, keys, upto) == Some(j),
    decreases upto,
{
    if upto - 1 > j {
        lemma_last_key_dash_at(s, keys, j, upto - 1);
    }
}

/// A registered key, `-` and a plain value parse into that key and a named
/// value (where the whole is not itself a key).
pub proof fn law_parse_key_value(k: Seq<char>, v: Seq<char>, keys: Set<Seq<char>>)
    requires
        keys.contains(k),
        !keys.contains(k + seq!['-'] + v),
        k.len() > 0,
        k[0] != '-',
        v.len() > 0,
        plain_value(v),
    ensures
        utility_parse_outcome(k + seq!['-'] + v, keys) == (true, Some(candidate_view(
            k,
            Some(MaybeArbitraryView::Named(v)),
            None,
            false,
            false,
            false,
        ))),
{
    let s = k + seq!['-'] + v;
    let n = s.len() as int;
    let j = k.len() as int;
    assert(s[n - 1] == v[v.len() - 1]);
    assert(!is_important_input(s));
    assert(body_of(s) == s);
    assert(s[0] == k[0]);
    assert(!is_negative_input(s));
    assert(window_of(s) =~= s);
    assert(s.take(j) =~= k);
    assert(s[j] == '-');
    assert forall|i: int| j < i < n implies #[trigger] s[i] != '-' by {
        assert(s[i] == v[i - j - 1]);
    }
    lemma_last_key_dash_at(s, keys, j, n);
    assert(s.skip(j + 1) =~= v);
    let start1 = byte_len(s.take(j)) + 1;
    lemma_byte_len_split(s, j, j + 1);
    lemma_byte_len_ascii_char(s, j);
    assert(start1 == byte_len(s.take(j + 1)));
    lemma_take_all(s);
    lemma_byte_get_take(s, j + 1, n);
    assert(s.subrange(j + 1, n) =~= v);
    lemma_scan_plain(s, start1, byte_len(s), v, byte_len(v), v.len() as int);
}

/// A registered key, with or without a leading `-` and a trailing `!`,
/// parses as that very key, with no value and no modifier, even where a
/// part of it before a `-` is registered too (`divide-x` beside `divide`).
pub proof fn law_whole_key_parses(k: Seq<char>, keys: Set<Seq<char>>, negative: bool, important: bool)
    requires
        keys.contains(k),
        k.len() > 0,
        k[0] != '-',
        k.last() != '!',
        !(k[0] == '[' && k.last() == ']'),
    ensures
        utility_parse_outcome(
            (if negative { seq!['-'] } else { Seq::empty() }) + k + (if important { seq!['!'] } else { Seq::empty() }),
            keys,
        ) == (true, Some(candidate_view(k, None, None, false, important, negative))),
{
    let pre: Seq<char> = if negative { seq!['-'] } else { Seq::empty() };
    let post: Seq<char> = if important { seq!['!'] } else { Seq::empty() };
    let s = pre + k + post;
    let b = pre + k;
    if important {
        assert(s.last() == '!');
        assert(s.drop_last() =~= b);
    } else {
        assert(s =~= b);
        assert(b.last() == k.last());
    }
    assert(is_important_input(s) == important);
    assert(body_of(s) == b);
    if negative {
        assert(b[0] == '-');
        assert(b.subrange(1, b.len() as int) =~= k);
    } else {
        assert(b =~= k);
        assert(b.subrange(0, b.len() as int) =~= k);
    }
    assert(is_negative_input(s) == negative);
    assert(window_of(s) == k);
}

/// A registered variant name that is not an arbitrary `[..]` matcher parses
/// as that very variant, with no value, no modifier and no layers, even
/// where a part of it before a `-` is registered too (`focus-within`
/// beside `focus`).
pub proof fn law_whole_variant_parses(s: Seq<char>, vars: Map<Seq<char>, VariantView>)
    requires
        vars.contains_key(s),
        !(starts_with_char(s, '[') && ends_with_char(s, ']')),
    ensures
        variant_parse_outcome(s, vars) == (true, Some(VariantCandidateView {
            key: s,
            value: None,
            modifier: None,
            arbitrary: false,
            processor: vars[s],
            layers: Seq::empty(),
            ordering_key: vars[s].ordering,
        })),
{
}

/// A registered variant key, `-` and a plain value parse into that key and a
/// named value (where the whole is not itself registered and the variant
/// does not compose over another).
pub proof fn law_variant_key_value(k: Seq<char>, v: Seq<char>, vars: Map<Seq<char>, VariantView>)
    requires
        vars.contains_key(k),
        !vars.contains_key(k + seq!['-'] + v),
        k.len() > 0,
        k[0] != '[',
        v.len() > 0,
        plain_value(v),
        !(vars[k].handler is Composable),
    ensures
        variant_parse_outcome(k + seq!['-'] + v, vars) == (true, Some(VariantCandidateView {
            key: k,
            value: Some(MaybeArbitraryView::Named(v)),
            modifier: None,
            arbitrary: false,
            processor: vars[k],
            layers: Seq::empty(),
            ordering_key: vars[k].ordering,
        })),
{
    let s = k + seq!['-'] + v;
    let n = s.len() as int;
    let j = k.len() as int;
    assert(s[0] == k[0]);
    assert(s.take(j) =~= k);
    assert(s[j] == '-');
    assert forall|i: int| j < i < n implies #[trigger] s[i] != '-' by {
        assert(s[i] == v[i - j - 1]);
    }
    lemma_last_key_dash_at(s, vars.dom(), j, n);
    assert(s.skip(j + 1) =~= v);
    let start1 = byte_len(s.take(j)) + 1;
    lemma_byte_len_split(s, j, j + 1);
    lemma_byte_len_ascii_char(s, j);
    assert(start1 == byte_len(s.take(j + 1)));
    lemma_take_all(s);
    lemma_byte_get_take(s, j + 1, n);
    assert(s.subrange(j + 1, n) =~= v);
    lemma_scan_plain(s, start1, byte_len(s), v, byte_len(v), v.len() as int);
}
} // verus!
