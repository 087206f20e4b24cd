//! Decoding of arbitrary values written inside square brackets.
use vstd::prelude::*;
use crate::text::{str_chars, string_from_chars};

verus! {

/// An arbitrary value as CSS reads it: `_` stands for a space and `\_` for
/// a literal underscore.
pub open spec fn spec_decode_arbitrary(s: Seq<char>) -> Seq<char>
    decreases s.len(),
{
    if s.len() == 0 {
        Seq::empty()
    } else if s[0] == '\\' && s.len() >= 2 && s[1] == '_' {
        seq!['_'] + spec_decode_arbitrary(s.skip(2))
    } else {
        seq![if s[0] == '_' { ' ' } else { s[0] }] + spec_decode_arbitrary(s.skip(1))
    }
}

pub fn decode_arbitrary_value(input: &str) -> (r: String)
    ensures
        r@ == spec_decode_arbitrary(input@),
{
    let cs = str_chars(input);
    let mut out: Vec<char> = Vec::new();
    let mut i: usize = 0;
    assert(cs@.skip(0) =~= cs@);
    while i < cs.len()
        invariant
            cs@ == input@,
            i <= cs.len(),
            out@ + spec_decode_arbitrary(cs@.skip(i as int)) == spec_decode_arbitrary(input@),
        decreases cs.len() - i,
    {
        let c = cs[i];
        let ghost rest = cs@.skip(i as int);
        if c == '\\' && i + 1 < cs.len() && cs[i + 1] == '_' {
            out.push('_');
            i = i + 2;
            assert(rest.skip(2) =~= cs@.skip(i as int));
            assert(out@ + spec_decode_arbitrary(cs@.skip(i as int)) =~= out@.drop_last() + spec_decode_arbitrary(rest));
        } else {
            out.push(if c == '_' { ' ' } else { c });
            i = i + 1;
            assert(rest.skip(1) =~= cs@.skip(i as int));
            assert(out@ + spec_decode_arbitrary(cs@.skip(i as int)) =~= out@.drop_last() + spec_decode_arbitrary(rest));
        }
    }
    assert(spec_decode_arbitrary(cs@.skip(i as int)) =~= Seq::<char>::empty());
    assert(out@ =~= out@ + Seq::<char>::empty());
    string_from_chars(out.as_slice())
}

} // verus!
