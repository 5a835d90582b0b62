//! Counting model tokens and fitting conversation history into a budget.

use crate::text::{join, join_strings, views};
use vstd::prelude::*;

verus! {

/// The number of tokens of a text under the `cl100k_base` encoding, where the
/// tokenizer can encode it.
pub uninterp spec fn token_count(text: Seq<char>) -> Option<nat>;

/// `tiktoken_rs::CoreBPE::encode` on the tokenizer that
/// `tiktoken_rs::cl100k_base_singleton` gives, with every special token
/// allowed: the number of tokens depends on the text alone and is what
/// [`token_count`] names; `None` where the tokenizer reports an error.
#[verifier::external_body]
pub fn count_tokens(text: &str) -> (n: Option<usize>)
    ensures
        n matches Some(k) ==> token_count(text@) == Some(k as nat),
        n is None ==> token_count(text@) is None,
{
    let bpe = tiktoken_rs::cl100k_base_singleton();
    let allowed = bpe.special_tokens();
    bpe.encode(text, &allowed).ok().map(|r| r.0.len())
}

/// The tokens of a line; none for a line that cannot be counted.
pub open spec fn line_tokens(line: Seq<char>) -> nat {
    match token_count(line) {
        Some(k) => k,
        None => 0,
    }
}

/// The tokens of some lines together.
pub open spec fn total_tokens(lines: Seq<Seq<char>>) -> nat
    decreases lines.len(),
{
    if lines.len() == 0 {
        0
    } else {
        line_tokens(lines[0]) + total_tokens(lines.drop_first())
    }
}

/// Whether every one of the lines can be counted.
pub open spec fn countable(lines: Seq<Seq<char>>) -> bool {
    forall|k: int| 0 <= k < lines.len() ==> token_count(#[trigger] lines[k]) is Some
}

/// Whether the lines from position `i` on fit into a budget of tokens: each
/// of them can be counted, and together they have no more tokens than the
/// budget.
pub open spec fn suffix_fits(lines: Seq<Seq<char>>, budget: nat, i: int) -> bool {
    &&& 0 <= i <= lines.len()
    &&& countable(lines.skip(i))
    &&& total_tokens(lines.skip(i)) <= budget
}

/// Whether `i` is where history is cut: the lines from `i` on fit into the
/// budget, and no longer run of lines up to the newest does.
pub open spec fn is_cut(lines: Seq<Seq<char>>, budget: nat, i: int) -> bool {
    &&& suffix_fits(lines, budget, i)
    &&& forall|j: int| 0 <= j < i ==> !suffix_fits(lines, budget, j)
}

/// Where history is cut to a budget of tokens: the least position from
/// which on the lines fit.
pub open spec fn cut_index(lines: Seq<Seq<char>>, budget: nat) -> int {
    choose|i: int| is_cut(lines, budget, i)
}

/// The lines that stay when history is cut to a budget of tokens: the
/// longest run of lines up to the newest that fits. The oldest lines go
/// first, and a line that does not fit takes every older line with it.
pub open spec fn kept_lines(lines: Seq<Seq<char>>, budget: nat) -> Seq<Seq<char>> {
    lines.skip(cut_index(lines, budget))
}

/// A run of lines up to the newest has no fewer tokens than a shorter one.
pub proof fn lemma_total_grows(lines: Seq<Seq<char>>, j: int, k: int)
    requires
        0 <= j <= k <= lines.len(),
    ensures
        total_tokens(lines.skip(j)) >= total_tokens(lines.skip(k)),
    decreases k - j,
{
    if j < k {
        lemma_total_grows(lines, j + 1, k);
        assert(lines.skip(j).drop_first() == lines.skip(j + 1));
    }
}

/// History is cut at one place only.
pub proof fn lemma_cut_is_unique(lines: Seq<Seq<char>>, budget: nat, i: int, k: int)
    requires
        is_cut(lines, budget, i),
        is_cut(lines, budget, k),
    ensures
        i == k,
{
    if i < k {
        assert(!suffix_fits(lines, budget, i));
    }
    if k < i {
        assert(!suffix_fits(lines, budget, k));
    }
}

/// Below a place from which the lines fit, there is a place where history
/// is cut.
proof fn lemma_cut_below(lines: Seq<Seq<char>>, budget: nat, upper: int)
    requires
        suffix_fits(lines, budget, upper),
    ensures
        exists|i: int| is_cut(lines, budget, i),
    decreases upper,
{
    if exists|j: int| 0 <= j < upper && suffix_fits(lines, budget, j) {
        let j = choose|j: int| 0 <= j < upper && suffix_fits(lines, budget, j);
        lemma_cut_below(lines, budget, j);
    } else {
        assert(is_cut(lines, budget, upper));
    }
}

/// What stays of history is its longest run of lines up to the newest that
/// fits into the budget: it begins where history is cut, it fits, and no
/// longer run does.
pub proof fn law_kept_lines_fit(lines: Seq<Seq<char>>, budget: nat)
    ensures
        is_cut(lines, budget, cut_index(lines, budget)),
        kept_lines(lines, budget) == lines.skip(cut_index(lines, budget)),
        countable(kept_lines(lines, budget)),
        total_tokens(kept_lines(lines, budget)) <= budget,
        forall|j: int|
            0 <= j < cut_index(lines, budget) ==> !suffix_fits(lines, budget, j),
{
    assert(lines.skip(lines.len() as int).len() == 0);
    assert(suffix_fits(lines, budget, lines.len() as int));
    lemma_cut_below(lines, budget, lines.len() as int);
}

/// Whether the line before position `i` fits into what is left of a budget.
pub open spec fn fits_before(lines: Seq<Seq<char>>, i: int, left: nat) -> bool {
    token_count(lines[i - 1]) matches Some(k) && k <= left
}

/// Cuts conversation history to at most `limit` tokens, dropping lines from
/// the oldest end first, and joins what stays with line feeds: what stays
/// is the longest run of lines up to the newest of which each can be counted
/// and which together have no more than `limit` tokens.
pub fn cut_context_lines(lines: &Vec<String>, limit: usize) -> (out: String)
    ensures
        is_cut(views(lines@), limit as nat, cut_index(views(lines@), limit as nat)),
        out@ == join(
            views(lines@).skip(cut_index(views(lines@), limit as nat)),
            "\n"@,
        ),
{
    let ghost all = views(lines@);
    let mut left: usize = limit;
    let mut i: usize = lines.len();
    let mut blocked: bool = false;
    proof {
        assert(all.skip(i as int).len() == 0);
    }
    while i > 0 && !blocked
        invariant
            i <= lines.len(),
            all == views(lines@),
            left <= limit,
            countable(all.skip(i as int)),
            total_tokens(all.skip(i as int)) + left == limit,
            blocked ==> i > 0 && !fits_before(all, i as int, left as nat),
        decreases i + (if blocked { 0int } else { 1int }),
    {
        let line = &lines[i - 1];
        proof {
            assert(all.skip(i - 1).drop_first() == all.skip(i as int));
            assert(all.skip(i - 1)[0] == line@);
        }
        match count_tokens(line.as_str()) {
            Some(k) => {
                if k <= left {
                    proof {
                        let next = all.skip(i - 1);
                        assert forall|m: int| 0 <= m < next.len() implies token_count(
                            #[trigger] next[m],
                        ) is Some by {
                            if m > 0 {
                                assert(next[m] == all.skip(i as int)[m - 1]);
                            }
                        }
                    }
                    left -= k;
                    i -= 1;
                } else {
                    blocked = true;
                }
            },
            None => {
                blocked = true;
            },
        }
    }
    proof {
        assert(suffix_fits(all, limit as nat, i as int));
        assert forall|j: int| 0 <= j < i implies !suffix_fits(all, limit as nat, j) by {
            let line = all[i - 1];
            assert(all.skip(i - 1).drop_first() == all.skip(i as int));
            assert(all.skip(i - 1)[0] == line);
            if token_count(line) is None {
                assert(all.skip(j)[i - 1 - j] == line);
            } else {
                lemma_total_grows(all, j, i - 1);
            }
        }
        assert(is_cut(all, limit as nat, i as int));
        law_kept_lines_fit(all, limit as nat);
        lemma_cut_is_unique(all, limit as nat, i as int, cut_index(all, limit as nat));
    }
    let mut kept: Vec<String> = Vec::new();
    let mut k: usize = i;
    while k < lines.len()
        invariant
            i <= k <= lines.len(),
            all == views(lines@),
            views(kept@) == all.subrange(i as int, k as int),
        decreases lines.len() - k,
    {
        let ghost before = views(kept@);
        kept.push(lines[k].clone());
        proof {
            assert(all[k as int] == lines@[k as int]@);
            assert(views(kept@) =~= before.push(all[k as int]));
            assert(before.push(all[k as int]) =~= all.subrange(i as int, k + 1));
        }
        k += 1;
    }
    assert(all.subrange(i as int, lines.len() as int) == all.skip(i as int));
    join_strings(&kept, "\n")
}

} // verus!
