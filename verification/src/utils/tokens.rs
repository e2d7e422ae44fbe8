//! The client-side estimate of how many tokens a text costs.
//!
//! A token is a run of characters up to and including the white space that
//! ends it. Every white-space character ends a token, so the tokens of a text
//! put together give the text again.

use crate::utils::text::{concat_all, views_of};
use vstd::prelude::*;
use vstd::string::StrSliceExecFns;

verus! {

/// Whether a character ends a token: space, tab, line feed, carriage return.
pub open spec fn is_break(c: char) -> bool {
    c == ' ' || c == '\t' || c == '\n' || c == '\r'
}

/// The tokens of `s`, in order.
pub open spec fn tokens_of(s: Seq<char>) -> Seq<Seq<char>>
    decreases s.len(),
{
    if s.len() == 0 {
        Seq::empty()
    } else {
        let front = s.drop_last();
        let before = tokens_of(front);
        if front.len() == 0 || is_break(front.last()) {
            before.push(seq![s.last()])
        } else {
            before.drop_last().push(before.last().push(s.last()))
        }
    }
}

/// Number of token-ending characters in `s`.
pub open spec fn break_count(s: Seq<char>) -> nat
    decreases s.len(),
{
    if s.len() == 0 {
        0
    } else {
        break_count(s.drop_last()) + if is_break(s.last()) {
            1nat
        } else {
            0nat
        }
    }
}

/// The estimate for `s`: one token for each token-ending character, and one
/// more for text that follows the last of them.
pub open spec fn token_count(s: Seq<char>) -> nat {
    break_count(s) + if s.len() > 0 && !is_break(s.last()) {
        1nat
    } else {
        0nat
    }
}

/// Whether `t` has the shape of a token: not empty, and with no token-ending
/// character before its last one.
pub open spec fn is_token(t: Seq<char>) -> bool {
    &&& t.len() > 0
    &&& forall|i: int| 0 <= i < t.len() - 1 ==> !is_break(#[trigger] t[i])
}

/// The tokens of `s` put together give `s`. Each has the shape of a token,
/// each but the last ends in a token-ending character, the last does so
/// exactly when `s` does, and their number is the estimate for `s`.
pub proof fn lemma_tokens_of(s: Seq<char>)
    ensures
        concat_all(tokens_of(s)) == s,
        tokens_of(s).len() == token_count(s),
        forall|k: int| 0 <= k < tokens_of(s).len() ==> is_token(#[trigger] tokens_of(s)[k]),
        forall|k: int|
            0 <= k < tokens_of(s).len() - 1 ==> is_break((#[trigger] tokens_of(s)[k]).last()),
        s.len() > 0 ==> tokens_of(s).len() > 0 && tokens_of(s).last().last() == s.last(),
        token_count(s) <= s.len(),
    decreases s.len(),
{
    let tokens = tokens_of(s);
    if s.len() == 0 {
        assert(concat_all(tokens) =~= s);
    } else {
        let front = s.drop_last();
        let before = tokens_of(front);
        lemma_tokens_of(front);
        if front.len() == 0 || is_break(front.last()) {
            assert(tokens.drop_last() =~= before);
            assert(concat_all(tokens) =~= s);
            assert forall|k: int| 0 <= k < tokens.len() implies is_token(#[trigger] tokens[k]) by {
                if k < before.len() {
                    assert(tokens[k] == before[k]);
                }
            }
            assert forall|k: int| 0 <= k < tokens.len() - 1 implies is_break(
                (#[trigger] tokens[k]).last(),
            ) by {
                assert(tokens[k] == before[k]);
                if k == before.len() - 1 {
                    assert(before.last().last() == front.last());
                }
            }
        } else {
            let grown = before.last().push(s.last());
            assert(tokens.drop_last() =~= before.drop_last());
            assert(concat_all(before) == concat_all(before.drop_last()) + before.last());
            assert(concat_all(tokens) == concat_all(before.drop_last()) + grown);
            assert(concat_all(before.drop_last()) + grown =~= (concat_all(before.drop_last())
                + before.last()).push(s.last()));
            assert(concat_all(tokens) =~= s);
            assert forall|k: int| 0 <= k < tokens.len() implies is_token(#[trigger] tokens[k]) by {
                if k < before.len() - 1 {
                    assert(tokens[k] == before[k]);
                } else {
                    assert(is_token(before.last()));
                    assert forall|i: int| 0 <= i < grown.len() - 1 implies !is_break(
                        #[trigger] grown[i],
                    ) by {
                        if i < before.last().len() - 1 {
                            assert(grown[i] == before.last()[i]);
                        } else {
                            assert(grown[i] == before.last().last());
                        }
                    }
                }
            }
            assert forall|k: int| 0 <= k < tokens.len() - 1 implies is_break(
                (#[trigger] tokens[k]).last(),
            ) by {
                assert(tokens[k] == before[k]);
            }
        }
    }
}

/// Splits the text into its tokens.
pub fn tokenize(text: &str) -> (tokens: Vec<String>)
    ensures
        views_of(tokens@) == tokens_of(text@),
        concat_all(views_of(tokens@)) == text@,
        tokens.len() == token_count(text@),
{
    let mut tokens: Vec<String> = Vec::new();
    let mut current = String::new();
    for c in it: text.chars()
        invariant
            it.seq() == text@,
            current@.len() == 0 ==> {
                &&& views_of(tokens@) == tokens_of(text@.take(it.index() as int))
                &&& (it.index() == 0 || is_break(text@[it.index() - 1]))
            },
            current@.len() > 0 ==> {
                &&& views_of(tokens@).push(current@) == tokens_of(text@.take(it.index() as int))
                &&& it.index() > 0
                &&& !is_break(text@[it.index() - 1])
            },
    {
        let ghost before = text@.take(it.index() as int);
        let ghost after = text@.take(it.index() + 1);
        let ghost done = views_of(tokens@);
        let ghost open = current@;
        proof {
            assert(after.drop_last() =~= before);
            assert(after.last() == c);
            if it.index() > 0 {
                assert(before.last() == text@[it.index() - 1]);
            }
            assert(done.push(open).drop_last() =~= done);
            assert(done.push(open).last() == open);
            assert(text@[it.index() as int] == c);
            if open.len() == 0 {
                assert(open =~= Seq::<char>::empty());
                assert(open.push(c) =~= seq![c]);
            }
            assert(tokens_of(after) == done.push(open.push(c)));
        }
        current.push(c);
        if c == ' ' || c == '\t' || c == '\n' || c == '\r' {
            tokens.push(current);
            current = String::new();
            proof {
                assert(views_of(tokens@) =~= done.push(open.push(c)));
            }
        }
    }
    proof {
        assert(text@.take(text@.len() as int) =~= text@);
        lemma_tokens_of(text@);
    }
    if current.as_str().unicode_len() > 0 {
        let ghost done = views_of(tokens@);
        tokens.push(current);
        proof {
            assert(views_of(tokens@) =~= done.push(current@));
        }
    }
    tokens
}

/// The estimate of how many tokens the text costs.
pub fn count_tokens(text: &str) -> (count: usize)
    ensures
        count == token_count(text@),
{
    let length = text.unicode_len();
    let mut breaks: usize = 0;
    let mut open = false;
    for c in it: text.chars()
        invariant
            it.seq() == text@,
            length == text@.len(),
            breaks == break_count(text@.take(it.index() as int)),
            breaks <= it.index(),
            open == (it.index() > 0 && !is_break(text@[it.index() - 1])),
    {
        proof {
            assert(text@.take(it.index() + 1).drop_last() =~= text@.take(it.index() as int));
        }
        if c == ' ' || c == '\t' || c == '\n' || c == '\r' {
            breaks = breaks + 1;
            open = false;
        } else {
            open = true;
        }
    }
    proof {
        assert(text@.take(text@.len() as int) =~= text@);
        lemma_tokens_of(text@);
    }
    if open {
        breaks + 1
    } else {
        breaks
    }
}

} // verus!
