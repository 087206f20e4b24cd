//! Shared string operations and the value representation used by candidates.
use vstd::prelude::*;
use crate::text::{str_chars, string_from_chars, chars_range};
use vstd::utf8::encode_utf8;

verus! {

/// A value that is either arbitrary (`[#123456]`) or named (`blue-500`).
pub enum MaybeArbitrary {
    Arbitrary(String),
    Named(String),
}

impl Clone for MaybeArbitrary {
    fn clone(&self) -> (r: Self)
        ensures
            r@ == self@,
    {
        match self {
            MaybeArbitrary::Arbitrary(s) => MaybeArbitrary::Arbitrary(s.clone()),
            MaybeArbitrary::Named(s) => MaybeArbitrary::Named(s.clone()),
        }
    }
}

/// The abstract form of a [`MaybeArbitrary`].
pub enum MaybeArbitraryView {
    Arbitrary(Seq<char>),
    Named(Seq<char>),
}

impl MaybeArbitraryView {
    pub open spec fn text(self) -> Seq<char> {
        match self {
            MaybeArbitraryView::Arbitrary(s) => s,
            MaybeArbitraryView::Named(s) => s,
        }
    }
}

impl View for MaybeArbitrary {
    type V = MaybeArbitraryView;

    open spec fn view(&self) -> MaybeArbitraryView {
        match self {
            MaybeArbitrary::Arbitrary(s) => MaybeArbitraryView::Arbitrary(s@),
            MaybeArbitrary::Named(s) => MaybeArbitraryView::Named(s@),
        }
    }
}

pub open spec fn opt_maybe_view(m: Option<MaybeArbitrary>) -> Option<MaybeArbitraryView> {
    match m {
        Some(v) => Some(v@),
        None => None,
    }
}

impl MaybeArbitrary {
    pub fn take_arbitrary(&self) -> (r: Option<&str>)
        ensures
            match self@ {
                MaybeArbitraryView::Arbitrary(s) => r is Some && r->0@ == s,
                MaybeArbitraryView::Named(_) => r is None,
            },
    {
        match self {
            MaybeArbitrary::Arbitrary(s) => Some(s.as_str()),
            _ => None,
        }
    }

    pub fn take_named(&self) -> (r: Option<&str>)
        ensures
            match self@ {
                MaybeArbitraryView::Named(s) => r is Some && r->0@ == s,
                MaybeArbitraryView::Arbitrary(_) => r is None,
            },
    {
        match self {
            MaybeArbitrary::Named(s) => Some(s.as_str()),
            _ => None,
        }
    }

    pub fn as_str(&self) -> (r: &str)
        ensures
            r@ == self@.text(),
    {
        match self {
            MaybeArbitrary::Arbitrary(s) => s.as_str(),
            MaybeArbitrary::Named(s) => s.as_str(),
        }
    }

    /// The default value: an empty named value.
    pub fn default() -> (r: Self)
        ensures
            r@ == MaybeArbitraryView::Named(Seq::empty()),
    {
        MaybeArbitrary::Named(String::new())
    }
}

/// The byte that `chr as u8` keeps of a character.
pub open spec fn low_byte(chr: char) -> u8 {
    (chr as u32 % 256) as u8
}

/// The position of the first character of `s` whose code is `b`, if any.
pub open spec fn first_index_of(s: Seq<char>, b: u32) -> Option<int>
    decreases s.len(),
{
    if s.len() == 0 {
        None
    } else {
        match first_index_of(s.drop_last(), b) {
            Some(i) => Some(i),
            None => if s.last() as u32 == b { Some(s.len() - 1) } else { None },
        }
    }
}

/// `s` with its first character of code `b` replaced by `rep` (ASCII `b` only).
pub open spec fn spec_replace_char(s: Seq<char>, b: u8, rep: Seq<char>) -> Seq<char> {
    if b < 128 {
        match first_index_of(s, b as u32) {
            Some(i) => s.take(i) + rep + s.skip(i + 1),
            None => s,
        }
    } else {
        s
    }
}

pub proof fn lemma_first_index_of(s: Seq<char>, b: u32, k: int)
    requires
        0 <= k <= s.len(),
        forall|j: int| 0 <= j < k ==> s[j] as u32 != b,
    ensures
        first_index_of(s.take(k), b) is None,
        k < s.len() && s[k] as u32 == b ==> first_index_of(s.take(k + 1), b) == Some(k),
    decreases k,
{
    if k > 0 {
        lemma_first_index_of(s, b, k - 1);
        assert(s.take(k).drop_last() =~= s.take(k - 1));
    }
    if k < s.len() {
        assert(s.take(k + 1).drop_last() =~= s.take(k));
    }
}

pub proof fn lemma_first_index_extend(s: Seq<char>, b: u32, k: int, i: int)
    requires
        0 <= i < k <= s.len(),
        first_index_of(s.take(k), b) == Some(i),
    ensures
        first_index_of(s, b) == Some(i),
    decreases s.len() - k,
{
    if k < s.len() {
        assert(s.take(k + 1).drop_last() =~= s.take(k));
        lemma_first_index_extend(s, b, k + 1, i);
    } else {
        assert(s.take(k) =~= s);
    }
}

/// Replaces the first occurrence of `chr` in `s` with `replacement`.
///
/// The search is for the byte `chr as u8`; a character whose low byte is not
/// ASCII must not have that byte in the UTF-8 text, or slicing would split a
/// character.
pub fn replace_char(s: &str, chr: char, replacement: &str) -> (r: String)
    requires
        low_byte(chr) < 128 || !encode_utf8(s@).contains(low_byte(chr)),
    ensures
        r@ == spec_replace_char(s@, low_byte(chr), replacement@),
{
    // `chr as u8` keeps the low byte of the code point
    let b = (chr as u32 % 256) as u8;
    let cs = str_chars(s);
    if b >= 128 {
        return s.to_owned();
    }
    let mut i: usize = 0;
    while i < cs.len()
        invariant
            i <= cs.len(),
            cs@ == s@,
            b < 128,
            b == low_byte(chr),
            forall|j: int| 0 <= j < i ==> cs@[j] as u32 != b as u32,
        decreases cs.len() - i,
    {
        if cs[i] as u32 == b as u32 {
            let mut out: Vec<char> = Vec::new();
            let mut j: usize = 0;
            while j < i
                invariant
                    j <= i < cs.len(),
                    out@ == cs@.take(j as int),
                decreases i - j,
            {
                out.push(cs[j]);
                j = j + 1;
                assert(out@ =~= cs@.take(j as int));
            }
            let rep = str_chars(replacement);
            let mut k: usize = 0;
            while k < rep.len()
                invariant
                    k <= rep.len(),
                    out@ == cs@.take(i as int) + rep@.take(k as int),
                decreases rep.len() - k,
            {
                out.push(rep[k]);
                k = k + 1;
                assert(out@ =~= cs@.take(i as int) + rep@.take(k as int));
            }
            assert(rep@.take(rep.len() as int) =~= rep@);
            let mut m: usize = i + 1;
            while m < cs.len()
                invariant
                    i + 1 <= m <= cs.len(),
                    out@ == cs@.take(i as int) + rep@ + cs@.subrange(i + 1, m as int),
                decreases cs.len() - m,
            {
                out.push(cs[m]);
                m = m + 1;
                assert(out@ =~= cs@.take(i as int) + rep@ + cs@.subrange(i + 1, m as int));
            }
            proof {
                lemma_first_index_of(cs@, b as u32, i as int);
                lemma_first_index_extend(cs@, b as u32, i + 1, i as int);
                assert(cs@.subrange(i + 1, cs.len() as int) =~= cs@.skip(i + 1));
                assert(first_index_of(s@, b as u32) == Some(i as int));
                assert(out@ =~= cs@.take(i as int) + rep@ + cs@.skip(i + 1));
                assert(out@ == spec_replace_char(s@, low_byte(chr), replacement@));
            }
            let r = string_from_chars(out.as_slice());
            assert(r@ == out@);
            return r;
        }
        i = i + 1;
    }
    proof {
        lemma_first_index_of(cs@, b as u32, cs.len() as int);
        assert(cs@.take(cs.len() as int) =~= cs@);
    }
    s.to_owned()
}

} // verus!

verus! {

/// The state of a left-to-right scan for top-level delimiters: bracket
/// depth, the pieces already cut, and the piece being read.
pub struct SplitState {
    pub depth: nat,
    pub done: Seq<Seq<char>>,
    pub cur: Seq<char>,
}

/// Whether `c` is the byte `delimiter`; a byte that is not ASCII is never a
/// whole character.
pub open spec fn is_delimiter(c: char, delimiter: u8) -> bool {
    delimiter < 128 && c == delimiter as char
}

/// Scans `s`; `None` when a `]` closes more brackets than were opened.
/// A delimiter splits only where no bracket is open.
pub open spec fn split_scan(s: Seq<char>, delimiter: u8) -> Option<SplitState>
    decreases s.len(),
{
    if s.len() == 0 {
        Some(SplitState { depth: 0, done: Seq::empty(), cur: Seq::empty() })
    } else {
        match split_scan(s.drop_last(), delimiter) {
            None => None,
            Some(st) => {
                let c = s.last();
                if is_delimiter(c, delimiter) && st.depth == 0 {
                    Some(SplitState { depth: st.depth, done: st.done.push(st.cur), cur: Seq::empty() })
                } else if c == '[' {
                    Some(SplitState { depth: st.depth + 1, done: st.done, cur: st.cur.push(c) })
                } else if c == ']' {
                    if st.depth == 0 {
                        None
                    } else {
                        Some(SplitState { depth: (st.depth - 1) as nat, done: st.done, cur: st.cur.push(c) })
                    }
                } else {
                    Some(SplitState { depth: st.depth, done: st.done, cur: st.cur.push(c) })
                }
            },
        }
    }
}

proof fn lemma_split_scan_none(s: Seq<char>, delimiter: u8, k: int)
    requires
        0 <= k <= s.len(),
        split_scan(s.take(k), delimiter) is None,
    ensures
        split_scan(s, delimiter) is None,
    decreases s.len() - k,
{
    if k < s.len() {
        assert(s.take(k + 1).drop_last() =~= s.take(k));
        lemma_split_scan_none(s, delimiter, k + 1);
    } else {
        assert(s.take(k) =~= s);
    }
}

/// The pieces of `s` between top-level delimiters, brackets kept.
pub open spec fn spec_split_toplevel_raw(s: Seq<char>, delimiter: u8) -> Option<Seq<Seq<char>>> {
    match split_scan(s, delimiter) {
        None => None,
        Some(st) => Some(st.done.push(st.cur)),
    }
}

/// A piece without the square brackets that enclose it, if it has them.
pub open spec fn unwrap_brackets(p: Seq<char>) -> Seq<char> {
    if p.len() >= 2 && p[0] == '[' && p.last() == ']' {
        p.subrange(1, p.len() - 1)
    } else {
        p
    }
}

/// The pieces of `s` between top-level delimiters, each without its
/// enclosing brackets.
pub open spec fn spec_split_toplevel(s: Seq<char>, delimiter: u8) -> Option<Seq<Seq<char>>> {
    match spec_split_toplevel_raw(s, delimiter) {
        None => None,
        Some(pieces) => Some(pieces.map_values(|p: Seq<char>| unwrap_brackets(p))),
    }
}

pub open spec fn strings_view(v: Seq<String>) -> Seq<Seq<char>> {
    v.map_values(|s: String| s@)
}

/// Splits `s` at the delimiters that are not inside square brackets, keeping
/// the brackets: `[&:hover]:flex` at `:` gives `[&:hover]` and `flex`.
/// `None` when a `]` has no matching `[` before it.
pub fn split_toplevel_raw(s: &str, delimiter: u8) -> (r: Option<Vec<String>>)
    ensures
        match spec_split_toplevel_raw(s@, delimiter) {
            None => r is None,
            Some(pieces) => r is Some && strings_view(r->0@) == pieces,
        },
{
    let cs = str_chars(s);
    let mut result: Vec<String> = Vec::new();
    let mut start: usize = 0;
    let mut depth: usize = 0;
    let mut i: usize = 0;
    while i < cs.len()
        invariant
            cs@ == s@,
            i <= cs.len(),
            start <= i,
            depth <= i,
            split_scan(cs@.take(i as int), delimiter) matches Some(st) && st.depth == depth
                && st.done == strings_view(result@) && st.cur == cs@.subrange(start as int, i as int),
        decreases cs.len() - i,
    {
        let c = cs[i];
        proof {
            assert(cs@.take(i + 1).drop_last() =~= cs@.take(i as int));
            assert(cs@.take(i + 1).last() == c);
        }
        if delimiter < 128 && c == (delimiter as char) && depth == 0 {
            let piece = chars_range(&cs, start, i);
            let ghost before = result@;
            result.push(piece);
            start = i + 1;
            proof {
                assert(strings_view(result@) =~= strings_view(before).push(piece@));
            }
        } else if c == '[' {
            depth = depth + 1;
        } else if c == ']' {
            if depth == 0 {
                proof {
                    lemma_split_scan_none(cs@, delimiter, i + 1);
                }
                return None;
            }
            depth = depth - 1;
        }
        i = i + 1;
        proof {
            if start < i {
                assert(cs@.subrange(start as int, i as int) =~= cs@.subrange(start as int, i - 1).push(c));
            } else {
                assert(cs@.subrange(start as int, i as int) =~= Seq::<char>::empty());
            }
        }
    }
    assert(cs@.take(cs.len() as int) =~= cs@);
    let last = chars_range(&cs, start, cs.len());
    result.push(last);
    proof {
        assert(strings_view(result@) =~= strings_view(result@.drop_last()).push(last@));
    }
    Some(result)
}

/// `p` without the square brackets that enclose it, if it has them.
pub fn strip_brackets(p: &str) -> (r: String)
    ensures
        r@ == unwrap_brackets(p@),
{
    let cs = str_chars(p);
    let n = cs.len();
    if n >= 2 && cs[0] == '[' && cs[n - 1] == ']' {
        chars_range(&cs, 1, n - 1)
    } else {
        chars_range(&cs, 0, n)
    }
}

/// Splits `s` at the delimiters that are not inside square brackets, and
/// takes each piece out of the brackets that enclose it, e.g.
/// `[&:hover]:[color:red]` at `:` into `&:hover` and `color:red`.
/// `None` when a `]` has no matching `[` before it.
pub fn split_toplevel(s: &str, delimiter: u8) -> (r: Option<Vec<String>>)
    ensures
        match spec_split_toplevel(s@, delimiter) {
            None => r is None,
            Some(pieces) => r is Some && strings_view(r->0@) == pieces,
        },
{
    let raw = match split_toplevel_raw(s, delimiter) {
        Some(v) => v,
        None => return None,
    };
    let ghost pieces = strings_view(raw@);
    let mut out: Vec<String> = Vec::new();
    let mut i: usize = 0;
    while i < raw.len()
        invariant
            i <= raw@.len(),
            pieces == strings_view(raw@),
            strings_view(out@) == pieces.take(i as int).map_values(|p: Seq<char>| unwrap_brackets(p)),
        decreases raw.len() - i,
    {
        let piece = strip_brackets(raw[i].as_str());
        let ghost before = out@;
        out.push(piece);
        i = i + 1;
        proof {
            assert(strings_view(out@) =~= strings_view(before).push(piece@));
            assert(pieces.take(i as int).map_values(|p: Seq<char>| unwrap_brackets(p))
                =~= pieces.take(i - 1).map_values(|p: Seq<char>| unwrap_brackets(p)).push(unwrap_brackets(pieces[i - 1])));
        }
    }
    proof {
        assert(pieces.take(i as int) =~= pieces);
    }
    Some(out)
}


/// The position of the first `c` in `cs`.
pub fn find_char(cs: &Vec<char>, c: char) -> (r: Option<usize>)
    ensures
        match r {
            Some(i) => first_index_of(cs@, c as u32) == Some(i as int),
            None => first_index_of(cs@, c as u32) is None,
        },
{
    let mut i: usize = 0;
    while i < cs.len()
        invariant
            i <= cs@.len(),
            forall|j: int| 0 <= j < i ==> cs@[j] as u32 != c as u32,
        decreases cs.len() - i,
    {
        if cs[i] as u32 == c as u32 {
            proof {
                lemma_first_index_of(cs@, c as u32, i as int);
                lemma_first_index_extend(cs@, c as u32, i + 1, i as int);
            }
            return Some(i);
        }
        i = i + 1;
    }
    proof {
        lemma_first_index_of(cs@, c as u32, i as int);
        assert(cs@.take(i as int) =~= cs@);
    }
    None
}


pub proof fn lemma_first_index_some_range(s: Seq<char>, b: u32)
    ensures
        first_index_of(s, b) matches Some(i) ==> 0 <= i < s.len() && s[i] as u32 == b,
    decreases s.len(),
{
    if s.len() > 0 {
        lemma_first_index_some_range(s.drop_last(), b);
    }
}


/// What a character turns into when every `target` is replaced by `rep`.
pub open spec fn replace_piece(c: char, target: char, rep: Seq<char>) -> Seq<char> {
    if c == target { rep } else { seq![c] }
}

/// `s` with every `target` replaced by `rep` (`str::replace`).
pub open spec fn spec_replace_all(s: Seq<char>, target: char, rep: Seq<char>) -> Seq<char>
    decreases s.len(),
{
    if s.len() == 0 {
        Seq::empty()
    } else {
        spec_replace_all(s.drop_last(), target, rep) + replace_piece(s.last(), target, rep)
    }
}

/// `s` with every `target` replaced by `rep`.
pub fn replace_all(s: &str, target: char, rep: &str) -> (r: String)
    ensures
        r@ == spec_replace_all(s@, target, rep@),
{
    let cs = str_chars(s);
    let mut out = String::new();
    let mut i: usize = 0;
    while i < cs.len()
        invariant
            i <= cs@.len(),
            cs@ == s@,
            out@ == spec_replace_all(cs@.take(i as int), target, rep@),
        decreases cs.len() - i,
    {
        proof {
            assert(cs@.take(i as int + 1).drop_last() =~= cs@.take(i as int));
        }
        if cs[i] == target {
            crate::text::push_str(&mut out, rep);
        } else {
            crate::text::push_char(&mut out, cs[i]);
            proof {
                assert(out@ =~= spec_replace_all(cs@.take(i as int), target, rep@) + seq![cs@[i as int]]);
            }
        }
        i = i + 1;
    }
    proof {
        assert(cs@.take(i as int) =~= cs@);
    }
    out
}


/// A cursor over characters.
pub trait BasicParser {
    /// The cursor's position.
    spec fn cursor(&self) -> int;

    /// The length of the text.
    spec fn text_len(&self) -> int;

    /// The text.
    spec fn text_chars(&self) -> Seq<char>;

    fn advance(&mut self, n: usize)
        requires
            old(self).cursor() + n <= old(self).text_len(),
        ensures
            final(self).cursor() == old(self).cursor() + n,
            final(self).text_chars() == old(self).text_chars(),
            final(self).text_len() == old(self).text_len(),
    ;

    fn is_eof(&self) -> (r: bool)
        ensures
            r == (self.cursor() >= self.text_len()),
    ;

    fn next_byte(&self) -> (r: char)
        requires
            0 <= self.cursor() < self.text_len(),
        ensures
            r == self.text_chars()[self.cursor()],
    ;
}


/// The pieces joined with `sep` between them.
pub open spec fn join_with(pieces: Seq<Seq<char>>, sep: char) -> Seq<char>
    decreases pieces.len(),
{
    if pieces.len() == 0 {
        Seq::empty()
    } else if pieces.len() == 1 {
        pieces[0]
    } else {
        join_with(pieces.drop_last(), sep) + seq![sep] + pieces.last()
    }
}

proof fn lemma_join_push_char(done: Seq<Seq<char>>, cur: Seq<char>, c: char, sep: char)
    ensures
        join_with(done.push(cur.push(c)), sep) == join_with(done.push(cur), sep).push(c),
{
    assert(done.push(cur.push(c)).drop_last() =~= done);
    assert(done.push(cur).drop_last() =~= done);
    if done.len() == 0 {
        assert(done.push(cur.push(c))[0] == cur.push(c));
        assert(done.push(cur)[0] == cur);
    } else {
        assert(join_with(done, sep) + seq![sep] + cur.push(c) =~= (join_with(done, sep) + seq![sep] + cur).push(c));
    }
}

proof fn lemma_split_scan_join(s: Seq<char>, delimiter: u8, sep: char)
    requires
        split_scan(s, delimiter) is Some,
        delimiter < 128,
        sep == delimiter as char,
    ensures
        join_with(split_scan(s, delimiter).unwrap().done.push(split_scan(s, delimiter).unwrap().cur), sep) == s,
    decreases s.len(),
{
    if s.len() == 0 {
        let st = split_scan(s, delimiter).unwrap();
        assert(st.done.push(st.cur) =~= seq![Seq::<char>::empty()]);
        assert(s =~= Seq::<char>::empty());
    } else {
        let st = split_scan(s.drop_last(), delimiter).unwrap();
        lemma_split_scan_join(s.drop_last(), delimiter, sep);
        let c = s.last();
        assert(s =~= s.drop_last().push(c));
        if is_delimiter(c, delimiter) && st.depth == 0 {
            let d = st.done.push(st.cur);
            assert(d.push(Seq::<char>::empty()).drop_last() =~= d);
            assert(join_with(d.push(Seq::<char>::empty()), sep) =~= join_with(d, sep) + seq![sep]);
        } else {
            lemma_join_push_char(st.done, st.cur, c, sep);
        }
    }
}

/// Splitting at top-level delimiters, brackets kept, and joining the pieces
/// with the delimiter gives back the text.
pub proof fn law_split_join(s: Seq<char>, delimiter: u8)
    requires
        delimiter < 128,
        spec_split_toplevel_raw(s, delimiter) is Some,
    ensures
        join_with(spec_split_toplevel_raw(s, delimiter).unwrap(), delimiter as char) == s,
{
    lemma_split_scan_join(s, delimiter, delimiter as char);
}
} // verus!
