//! The pattern that a search binds for a needle.

use vstd::prelude::*;
use vstd::string::{StrSliceExecFns, StringExecFns};

verus! {

/// The character that takes a wildcard's meaning away in a pattern.
pub const ESCAPE: char = '\\';

/// Whether `c` means something other than itself in a pattern.
pub open spec fn is_special(c: char) -> bool {
    c == '%' || c == '_' || c == ESCAPE
}

/// One character as it stands in a pattern: a special one is preceded by
/// the escape character.
pub open spec fn escaped_char(c: char) -> Seq<char> {
    if is_special(c) {
        seq![ESCAPE, c]
    } else {
        seq![c]
    }
}

/// A text as it stands in a pattern: its characters in order, each special
/// one escaped.
pub open spec fn escaped(text: Seq<char>) -> Seq<char>
    decreases text.len(),
{
    if text.len() == 0 {
        Seq::empty()
    } else {
        escaped(text.drop_last()) + escaped_char(text.last())
    }
}

/// The pattern that is bound for `needle`: the escaped needle between two
/// `%`, which stand for any text before it and after it.
pub open spec fn like_pattern_of(needle: Seq<char>) -> Seq<char> {
    seq!['%'] + escaped(needle) + seq!['%']
}

/// A needle without wildcards stands in its pattern as it is, between the
/// two `%`.
pub proof fn lemma_plain_needle_is_kept(needle: Seq<char>)
    requires
        forall|i: int| 0 <= i < needle.len() ==> !is_special(#[trigger] needle[i]),
    ensures
        escaped(needle) == needle,
        like_pattern_of(needle) == seq!['%'] + needle + seq!['%'],
    decreases needle.len(),
{
    if needle.len() > 0 {
        lemma_plain_needle_is_kept(needle.drop_last());
        assert(needle.drop_last().push(needle.last()) =~= needle);
        assert(escaped(needle) =~= needle);
    } else {
        assert(escaped(needle) =~= needle);
    }
}

/// Builds the pattern that is bound in a search for `needle`: the needle
/// with its wildcards escaped, between two `%`.
pub fn like_pattern(needle: &str) -> (pattern: String)
    ensures
        pattern@ == like_pattern_of(needle@),
{
    let length: usize = needle.unicode_len();
    let mut pattern = String::from_str("%");
    proof {
        reveal_strlit("%");
        reveal_strlit("\\");
        assert("%"@ =~= seq!['%']);
        assert("\\"@ =~= seq![ESCAPE]);
        assert(needle@.take(0) =~= Seq::<char>::empty());
        assert(pattern@ =~= seq!['%'] + escaped(needle@.take(0)));
    }
    let mut index: usize = 0;
    while index < length
        invariant
            length == needle@.len(),
            index <= length,
            pattern@ == seq!['%'] + escaped(needle@.take(index as int)),
            "\\"@ == seq![ESCAPE],
        decreases length - index,
    {
        let c = needle.get_char(index);
        if c == '%' || c == '_' || c == ESCAPE {
            pattern.append("\\");
        }
        let one = needle.substring_char(index, index + 1);
        pattern.append(one);
        proof {
            let next = needle@.take(index + 1);
            assert(next.drop_last() =~= needle@.take(index as int));
            assert(next.last() == c);
            assert(one@ =~= seq![c]);
            assert(pattern@ =~= seq!['%'] + escaped(next));
        }
        index += 1;
    }
    pattern.append("%");
    proof {
        reveal_strlit("%");
        assert("%"@ =~= seq!['%']);
        assert(needle@.take(length as int) =~= needle@);
    }
    pattern
}

} // verus!
