//! Error chains: the messages of an error and its causes, outermost first,
//! and the ways the adapters fold them into one description.

use vstd::prelude::*;
use crate::text::{trim_start_matches, trim_start_matches_spec};

verus! {

/// The views of a sequence of strings.
pub open spec fn views(v: Seq<String>) -> Seq<Seq<char>> {
    v.map_values(|s: String| s@)
}

/// `chain.fold(String::new(), |cause, e| format!("{cause} -> {e}"))`.
pub open spec fn arrow_fold(chain: Seq<Seq<char>>) -> Seq<char>
    decreases chain.len(),
{
    if chain.len() == 0 {
        Seq::empty()
    } else {
        arrow_fold(chain.drop_last()) + " -> "@ + chain.last()
    }
}

/// The fold above with its leading arrows removed
/// (`trim_start_matches(" -> ")`).
pub open spec fn arrow_stack(chain: Seq<Seq<char>>) -> Seq<char> {
    trim_start_matches_spec(arrow_fold(chain), " -> "@)
}

/// `chain.join(" -> ")`.
pub open spec fn arrow_join(chain: Seq<Seq<char>>) -> Seq<char>
    decreases chain.len(),
{
    if chain.len() == 0 {
        Seq::empty()
    } else if chain.len() == 1 {
        chain[0]
    } else {
        arrow_join(chain.drop_last()) + " -> "@ + chain.last()
    }
}

/// The chain folded with `" -> "` before each message, leading arrows
/// removed.
pub fn arrow_stack_of(chain: &Vec<String>) -> (r: String)
    ensures
        r@ == arrow_stack(views(chain@)),
{
    let mut acc = String::new();
    let n = chain.len();
    for i in 0..n
        invariant
            n == chain.len(),
            acc@ == arrow_fold(views(chain@).take(i as int)),
    {
        acc = acc.concat(" -> ");
        acc = acc.concat(chain[i].as_str());
        assert(views(chain@).take(i + 1).drop_last() =~= views(chain@).take(i as int));
    }
    assert(views(chain@).take(n as int) =~= views(chain@));
    trim_start_matches(acc.as_str(), " -> ")
}

/// The chain joined with `" -> "`.
pub fn arrow_join_of(chain: &Vec<String>) -> (r: String)
    ensures
        r@ == arrow_join(views(chain@)),
{
    let mut acc = String::new();
    let n = chain.len();
    for i in 0..n
        invariant
            n == chain.len(),
            acc@ == arrow_join(views(chain@).take(i as int)),
    {
        if i > 0 {
            acc = acc.concat(" -> ");
        }
        acc = acc.concat(chain[i].as_str());
        assert(views(chain@).take(i + 1).drop_last() =~= views(chain@).take(i as int));
    }
    assert(views(chain@).take(n as int) =~= views(chain@));
    acc
}

/// `format!("{outer}: {inner}")`.
pub fn colon_join(outer: &str, inner: &str) -> (r: String)
    ensures
        r@ == outer@ + ": "@ + inner@,
{
    let s = String::from_str(outer);
    let s = s.concat(": ");
    s.concat(inner)
}

/// The first message of a chain (what the error itself displays), or the
/// empty string for an empty chain.
pub open spec fn head_message(chain: Seq<Seq<char>>) -> Seq<char> {
    if chain.len() > 0 { chain[0] } else { Seq::empty() }
}

/// The first message of a chain, or the empty string.
pub fn head_message_of(chain: &Vec<String>) -> (r: String)
    ensures
        r@ == head_message(views(chain@)),
{
    if chain.len() > 0 {
        chain[0].clone()
    } else {
        String::new()
    }
}

} // verus!
