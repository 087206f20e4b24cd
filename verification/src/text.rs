//! Small string helpers over `std`, each holding one standard-library call.
use vstd::prelude::*;

verus! {

/// The characters of `s`, in order (`str::chars` collected into a `Vec`).
#[verifier::external_body]
pub(crate) fn str_chars(s: &str) -> (r: Vec<char>)
    ensures
        r@ == s@,
{
    s.chars().collect()
}

/// A `String` made of the given characters (collecting a `char` slice).
#[verifier::external_body]
pub(crate) fn string_from_chars(cs: &[char]) -> (r: String)
    ensures
        r@ == cs@,
{
    cs.iter().collect()
}

/// `String::push`: appends one character.
#[verifier::external_body]
pub(crate) fn push_char(s: &mut String, c: char)
    ensures
        final(s)@ == old(s)@.push(c),
{
    s.push(c)
}

/// `String::push_str`: appends a string slice.
#[verifier::external_body]
pub(crate) fn push_str(s: &mut String, t: &str)
    ensures
        final(s)@ == old(s)@ + t@,
{
    s.push_str(t)
}

} // verus!

verus! {

/// The characters `cs[from..to]` as a `String`.
pub fn chars_range(cs: &Vec<char>, from: usize, to: usize) -> (r: String)
    requires
        from <= to <= cs.len(),
    ensures
        r@ == cs@.subrange(from as int, to as int),
{
    let mut out: Vec<char> = Vec::new();
    let mut i = from;
    while i < to
        invariant
            from <= i <= to <= cs.len(),
            out@ == cs@.subrange(from as int, i as int),
        decreases to - i,
    {
        out.push(cs[i]);
        i = i + 1;
        assert(out@ =~= cs@.subrange(from as int, i as int));
    }
    string_from_chars(out.as_slice())
}

} // verus!

verus! {

/// The number of bytes that `c` takes in UTF-8.
pub open spec fn char_len(c: char) -> int {
    if (c as u32) < 0x80 {
        1
    } else if (c as u32) < 0x800 {
        2
    } else if (c as u32) < 0x10000 {
        3
    } else {
        4
    }
}

/// The number of bytes that `s` takes in UTF-8.
pub open spec fn byte_len(s: Seq<char>) -> int
    decreases s.len(),
{
    if s.len() == 0 {
        0
    } else {
        char_len(s[0]) + byte_len(s.drop_first())
    }
}

/// The index of the character of `s` that starts at byte offset `a`
/// (`s.len()` for the end), or `None` where `a` is no character boundary.
pub open spec fn char_at_byte(s: Seq<char>, a: int) -> Option<int>
    decreases s.len(),
{
    if a == 0 {
        Some(0)
    } else if a < 0 || s.len() == 0 {
        None
    } else {
        match char_at_byte(s.drop_first(), a - char_len(s[0])) {
            Some(j) => Some(j + 1),
            None => None,
        }
    }
}

/// `str::get(a..b)` on the UTF-8 form of `s`: the characters between the
/// byte offsets `a` and `b`, if both are boundaries and `a <= b`.
pub open spec fn byte_get(s: Seq<char>, a: int, b: int) -> Option<Seq<char>> {
    if a <= b {
        match (char_at_byte(s, a), char_at_byte(s, b)) {
            (Some(i), Some(j)) => Some(s.subrange(i, j)),
            _ => None,
        }
    } else {
        None
    }
}

pub proof fn lemma_byte_len_concat(a: Seq<char>, b: Seq<char>)
    ensures
        byte_len(a + b) == byte_len(a) + byte_len(b),
    decreases a.len(),
{
    if a.len() == 0 {
        assert(a + b =~= b);
    } else {
        assert((a + b).drop_first() =~= a.drop_first() + b);
        lemma_byte_len_concat(a.drop_first(), b);
    }
}

pub proof fn lemma_byte_len_bounds(s: Seq<char>)
    ensures
        s.len() <= byte_len(s) <= 4 * s.len(),
    decreases s.len(),
{
    if s.len() > 0 {
        lemma_byte_len_bounds(s.drop_first());
    }
}

pub proof fn lemma_char_at_byte_end(s: Seq<char>)
    ensures
        char_at_byte(s, byte_len(s)) == Some(s.len() as int),
    decreases s.len(),
{
    if s.len() > 0 {
        lemma_char_at_byte_end(s.drop_first());
        lemma_byte_len_bounds(s.drop_first());
    }
}

pub proof fn lemma_char_at_byte_ascii_prefix(s: Seq<char>, k: int)
    requires
        0 <= k <= s.len(),
        forall|j: int| 0 <= j < k ==> (s[j] as u32) < 0x80,
    ensures
        char_at_byte(s, k) == Some(k),
    decreases k,
{
    if k > 0 {
        assert forall|j: int| 0 <= j < k - 1 implies (s.drop_first()[j] as u32) < 0x80 by {
            assert(s.drop_first()[j] == s[j + 1]);
        }
        lemma_char_at_byte_ascii_prefix(s.drop_first(), k - 1);
    }
}

/// `char::len_utf8`.
pub fn char_len_of(c: char) -> (r: usize)
    ensures
        r == char_len(c),
{
    let n: u32 = c as u32;
    if n < 0x80 {
        1
    } else if n < 0x800 {
        2
    } else if n < 0x10000 {
        3
    } else {
        4
    }
}

/// The UTF-8 length of `cs` (`str::len`).
pub fn bytes_len(cs: &Vec<char>) -> (r: usize)
    requires
        byte_len(cs@) <= usize::MAX,
    ensures
        r == byte_len(cs@),
{
    let mut acc: usize = 0;
    let mut j: usize = 0;
    while j < cs.len()
        invariant
            j <= cs.len(),
            byte_len(cs@) <= usize::MAX,
            acc == byte_len(cs@.take(j as int)),
        decreases cs.len() - j,
    {
        proof {
            let one = seq![cs@[j as int]];
            assert(one.drop_first() =~= Seq::<char>::empty());
            assert(byte_len(Seq::<char>::empty()) == 0);
            assert(byte_len(one) == char_len(cs@[j as int]));
            assert(cs@.take(j as int + 1) =~= cs@.take(j as int) + one);
            lemma_byte_len_concat(cs@.take(j as int), one);
            assert(cs@ =~= cs@.take(j as int + 1) + cs@.skip(j as int + 1));
            lemma_byte_len_concat(cs@.take(j as int + 1), cs@.skip(j as int + 1));
            lemma_byte_len_bounds(cs@.skip(j as int + 1));
        }
        let n = char_len_of(cs[j]);
        acc = acc + n;
        j = j + 1;
    }
    assert(cs@.take(j as int) =~= cs@);
    acc
}

/// The character index at byte offset `a` of `cs`, as [`char_at_byte`].
pub fn char_index_at_byte(cs: &Vec<char>, a: usize) -> (r: Option<usize>)
    ensures
        match r {
            Some(j) => char_at_byte(cs@, a as int) == Some(j as int),
            None => char_at_byte(cs@, a as int) is None,
        },
{
    let mut j: usize = 0;
    let mut off: usize = 0;
    assert(cs@.subrange(0, cs@.len() as int) =~= cs@);
    while j < cs.len()
        invariant
            j <= cs.len(),
            off <= a,
            char_at_byte(cs@, a as int) == match char_at_byte(cs@.subrange(j as int, cs@.len() as int), a - off) {
                Some(x) => Some(x + j),
                None => None::<int>,
            },
        decreases cs.len() - j,
    {
        if off == a {
            return Some(j);
        }
        let ghost rest = cs@.subrange(j as int, cs@.len() as int);
        assert(rest.drop_first() =~= cs@.subrange(j as int + 1, cs@.len() as int));
        assert(rest[0] == cs@[j as int]);
        let n = char_len_of(cs[j]);
        match off.checked_add(n) {
            Some(next) => {
                if next > a {
                    assert(char_at_byte(rest.drop_first(), a - next) is None);
                    return None;
                }
                off = next;
            }
            None => {
                assert(char_at_byte(rest.drop_first(), a - off - n) is None);
                return None;
            }
        }
        j = j + 1;
    }
    if off == a {
        Some(j)
    } else {
        None
    }
}

/// `str::get(a..b)` on `cs`, as [`byte_get`]: the character range found.
pub fn byte_range(cs: &Vec<char>, a: usize, b: usize) -> (r: Option<(usize, usize)>)
    ensures
        match byte_get(cs@, a as int, b as int) {
            Some(t) => match r {
                Some((i, j)) => i <= j <= cs.len() && cs@.subrange(i as int, j as int) == t
                    && char_at_byte(cs@, a as int) == Some(i as int)
                    && char_at_byte(cs@, b as int) == Some(j as int),
                None => false,
            },
            None => r is None,
        },
{
    if a > b {
        return None;
    }
    let i = char_index_at_byte(cs, a);
    let j = char_index_at_byte(cs, b);
    match (i, j) {
        (Some(i), Some(j)) => {
            proof {
                lemma_char_at_byte_range(cs@, a as int);
                lemma_char_at_byte_range(cs@, b as int);
                lemma_char_at_byte_monotone(cs@, a as int, b as int);
                assert(byte_get(cs@, a as int, b as int) == Some(cs@.subrange(i as int, j as int)));
            }
            Some((i, j))
        },
        _ => {
            assert(byte_get(cs@, a as int, b as int) is None);
            None
        },
    }
}

pub proof fn lemma_char_at_byte_range(s: Seq<char>, a: int)
    ensures
        char_at_byte(s, a) matches Some(j) ==> 0 <= j <= s.len(),
    decreases s.len(),
{
    if a != 0 && a >= 0 && s.len() > 0 {
        lemma_char_at_byte_range(s.drop_first(), a - char_len(s[0]));
    }
}

pub proof fn lemma_char_at_byte_monotone(s: Seq<char>, a: int, b: int)
    requires
        a <= b,
    ensures
        match (char_at_byte(s, a), char_at_byte(s, b)) {
            (Some(i), Some(j)) => i <= j,
            _ => true,
        },
    decreases s.len(),
{
    lemma_char_at_byte_range(s, b);
    if a != 0 && a >= 0 && s.len() > 0 {
        lemma_char_at_byte_monotone(s.drop_first(), a - char_len(s[0]), b - char_len(s[0]));
    }
}


/// The byte offset of the character at index `k` is a boundary there.
pub proof fn lemma_char_at_byte_take(s: Seq<char>, k: int)
    requires
        0 <= k <= s.len(),
    ensures
        char_at_byte(s, byte_len(s.take(k))) == Some(k),
    decreases k,
{
    if k > 0 {
        let t = s.take(k);
        assert(t[0] == s[0]);
        assert(t.drop_first() =~= s.drop_first().take(k - 1));
        lemma_byte_len_bounds(t.drop_first());
        lemma_char_at_byte_take(s.drop_first(), k - 1);
        let a = byte_len(t);
        assert(a == char_len(s[0]) + byte_len(s.drop_first().take(k - 1)));
        assert(a > 0);
        assert(char_at_byte(s.drop_first(), a - char_len(s[0])) == Some(k - 1));
        assert(char_at_byte(s, a) == Some(k));
    } else {
        assert(s.take(0) =~= Seq::<char>::empty());
    }
}

/// Byte offsets of character indices split the UTF-8 length.
pub proof fn lemma_byte_len_split(s: Seq<char>, i: int, j: int)
    requires
        0 <= i <= j <= s.len(),
    ensures
        byte_len(s.take(j)) == byte_len(s.take(i)) + byte_len(s.subrange(i, j)),
        byte_len(s.subrange(i, j)) >= j - i,
{
    assert(s.take(j) =~= s.take(i) + s.subrange(i, j));
    lemma_byte_len_concat(s.take(i), s.subrange(i, j));
    lemma_byte_len_bounds(s.subrange(i, j));
}

/// `str::get` between the byte offsets of two character indices.
pub proof fn lemma_byte_get_take(s: Seq<char>, i: int, j: int)
    requires
        0 <= i <= j <= s.len(),
    ensures
        byte_get(s, byte_len(s.take(i)), byte_len(s.take(j))) == Some(s.subrange(i, j)),
{
    lemma_byte_len_split(s, i, j);
    lemma_char_at_byte_take(s, i);
    lemma_char_at_byte_take(s, j);
}

/// The UTF-8 length of a single ASCII character.
pub proof fn lemma_byte_len_ascii_char(s: Seq<char>, i: int)
    requires
        0 <= i < s.len(),
        (s[i] as u32) < 0x80,
    ensures
        byte_len(s.subrange(i, i + 1)) == 1,
{
    let t = s.subrange(i, i + 1);
    assert(t[0] == s[i]);
    assert(t.drop_first() =~= Seq::<char>::empty());
    assert(byte_len(t.drop_first()) == 0);
    assert(char_len(t[0]) == 1);
}

/// The whole of `s` is `s.take(s.len())`.
pub proof fn lemma_take_all(s: Seq<char>)
    ensures
        s.take(s.len() as int) == s,
        s.subrange(0, s.len() as int) == s,
{
    assert(s.take(s.len() as int) =~= s);
    assert(s.subrange(0, s.len() as int) =~= s);
}

} // verus!
