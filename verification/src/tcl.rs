//! Splitting a Tcl list into its items.

use crate::chars::{chars_of, is_space, is_space_char, position_of, put, string_of};
use vstd::prelude::*;
use vstd::string::*;

verus! {

/// `cur`, if it holds anything, as a list of one word.
pub open spec fn word_if_any(cur: Seq<char>) -> Seq<Seq<char>> {
    if cur.len() > 0 {
        seq![cur]
    } else {
        seq![]
    }
}

/// The words of `cur` followed by `s`, where `cur` is a word, or the
/// start of one, that holds no white space: white space ends a word.
pub open spec fn words_from(s: Seq<char>, cur: Seq<char>) -> Seq<Seq<char>>
    decreases s.len(),
{
    if s.len() == 0 {
        word_if_any(cur)
    } else if is_space(s.first()) {
        word_if_any(cur) + words_from(s.drop_first(), seq![])
    } else {
        words_from(s.drop_first(), cur.push(s.first()))
    }
}

/// The words of `s`: its longest runs of characters that are not white
/// space, from left to right.
pub open spec fn words(s: Seq<char>) -> Seq<Seq<char>> {
    words_from(s, seq![])
}

/// The items of the Tcl list `s`. An item is a word, or what stands
/// between `{` and `}`, white space included. What precedes the first `{`
/// is words; the group ends at the first `}` of the text, and the items of
/// what follows it come after. Where that `}` is missing, or stands before
/// the `{`, the list ends with the words before the `{`.
pub open spec fn items(s: Seq<char>) -> Seq<Seq<char>>
    decreases s.len(),
{
    match s.index_of_first('{') {
        Some(open) => match s.index_of_first('}') {
            Some(close) => if 0 <= open < close < s.len() {
                words(s.take(open)).push(s.subrange(open + 1, close)) + items(s.skip(close + 1))
            } else {
                words(s.take(open))
            },
            None => words(s.take(open)),
        },
        None => words(s),
    }
}

/// Appends the words of `s` to `result`.
fn push_words(result: &mut Vec<String>, s: &[char])
    ensures
        final(result).deep_view() == old(result).deep_view() + words(s@),
{
    let ghost before = result.deep_view();
    let ghost mut emitted: Seq<Seq<char>> = seq![];
    let mut start: usize = 0;
    let mut i: usize = 0;
    proof {
        assert(s@.skip(0) == s@);
        assert(s@.subrange(0, 0) == Seq::<char>::empty());
        assert(emitted + words(s@) == words(s@));
        assert(before + emitted == before);
    }
    while i < s.len()
        invariant
            start <= i <= s.len(),
            result.deep_view() == before + emitted,
            emitted + words_from(s@.skip(i as int), s@.subrange(start as int, i as int)) == words(
                s@,
            ),
        decreases s.len() - i,
    {
        let ghost rest = s@.skip(i as int);
        let ghost cur = s@.subrange(start as int, i as int);
        assert(rest.first() == s@[i as int]);
        assert(rest.drop_first() == s@.skip(i + 1));
        if is_space_char(s[i]) {
            if start < i {
                put(result, string_of(&s[start..i]));
            }
            proof {
                let w = word_if_any(cur);
                let t = words_from(rest.drop_first(), seq![]);
                assert(result.deep_view() =~= before + (emitted + w));
                assert((emitted + w) + t =~= emitted + (w + t));
                emitted = emitted + w;
            }
            start = i + 1;
            assert(s@.subrange(start as int, i + 1) == Seq::<char>::empty());
        } else {
            assert(s@.subrange(start as int, i + 1) == cur.push(s@[i as int]));
        }
        i += 1;
    }
    assert(s@.skip(s.len() as int) == Seq::<char>::empty());
    if start < s.len() {
        put(result, string_of(&s[start..s.len()]));
    }
    assert(result.deep_view() =~= before + (emitted + word_if_any(
        s@.subrange(start as int, s.len() as int),
    )));
}

/// Splits a Tcl string where items can be single words or grouped in
/// `{..}`.
pub fn split_items(text: &str) -> (result: Vec<String>)
    ensures
        result.deep_view() == items(text@),
{
    let chars = chars_of(text);
    let mut rest: &[char] = chars.as_slice();
    let mut result: Vec<String> = Vec::new();
    assert(result.deep_view() + items(rest@) == items(text@));
    loop
        invariant
            result.deep_view() + items(rest@) == items(text@),
        decreases rest.len(),
    {
        let ghost sofar = result.deep_view();
        let ghost all = rest@;
        match position_of(rest, '{') {
            Some(open) => {
                push_words(&mut result, &rest[0..open]);
                assert(rest@.take(open as int) == rest@.subrange(0, open as int));
                match position_of(rest, '}') {
                    Some(close) => {
                        if open < close {
                            put(&mut result, string_of(&rest[open + 1..close]));
                            rest = &rest[close + 1..rest.len()];
                            assert(rest@ == all.skip(close + 1));
                            let ghost group = words(all.take(open as int)).push(
                                all.subrange(open + 1, close as int),
                            );
                            assert(result.deep_view() =~= sofar + group);
                            assert((sofar + group) + items(rest@) =~= sofar + (group + items(
                                rest@,
                            )));
                        } else {
                            return result;
                        }
                    },
                    None => {
                        return result;
                    },
                }
            },
            None => {
                push_words(&mut result, rest);
                return result;
            },
        }
    }
}

} // verus!
