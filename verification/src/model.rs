//! The store as mathematics: the text it holds is a sequence of characters,
//! and each operation is a function on that text.

use vstd::prelude::*;

verus! {

/// The text of a store that nothing has been submitted to: no characters.
pub open spec fn initial() -> Seq<char> {
    Seq::empty()
}

/// The text of a store after `new_ip` was submitted to one that held
/// `stored`. The earlier text leaves no trace: nothing is merged, trimmed or
/// checked.
pub open spec fn submitted(stored: Seq<char>, new_ip: Seq<char>) -> Seq<char> {
    new_ip
}

/// The answer of a fetch from a store that holds `stored`: that text, whole.
pub open spec fn fetched(stored: Seq<char>) -> Seq<char> {
    stored
}

/// The text of a store after each text of `values` was submitted in turn,
/// the first one to a store that held `stored`.
pub open spec fn submitted_all(stored: Seq<char>, values: Seq<Seq<char>>) -> Seq<char>
    decreases values.len(),
{
    if values.len() == 0 {
        stored
    } else {
        submitted(submitted_all(stored, values.drop_last()), values.last())
    }
}

/// The line that reports a submission of `new_ip`: a fixed heading, then the
/// submitted text as it came.
pub open spec fn notice_text(new_ip: Seq<char>) -> Seq<char> {
    "New IP Submitted: "@ + new_ip
}

/// A fetch that follows a submission answers the submitted text, exactly and
/// for every text: the empty one, and one of any characters.
pub proof fn lemma_submit_then_fetch(stored: Seq<char>, new_ip: Seq<char>)
    ensures
        fetched(submitted(stored, new_ip)) == new_ip,
{
}

/// A fetch from a store that nothing was submitted to answers the empty
/// text.
pub proof fn lemma_fetch_before_submit()
    ensures
        fetched(initial()) == Seq::<char>::empty(),
{
}

/// Of two submissions the later one wins: a fetch answers the second text
/// and nothing of the first.
pub proof fn lemma_last_submit_wins(stored: Seq<char>, first: Seq<char>, second: Seq<char>)
    ensures
        fetched(submitted(submitted(stored, first), second)) == second,
        submitted(submitted(stored, first), second) == submitted(stored, second),
{
}

/// Fetching can be repeated: with no submission in between, any two answers
/// from one store are the same text.
pub proof fn lemma_fetch_repeats(stored: Seq<char>, first: Seq<char>, second: Seq<char>)
    requires
        first == fetched(stored),
        second == fetched(stored),
    ensures
        first == second,
{
}

/// Submitting a text a second time changes nothing: the store holds what it
/// held after the first time, and that is the submitted text.
pub proof fn lemma_submit_twice(stored: Seq<char>, new_ip: Seq<char>)
    ensures
        submitted(submitted(stored, new_ip), new_ip) == submitted(stored, new_ip),
        fetched(submitted(submitted(stored, new_ip), new_ip)) == new_ip,
{
}

/// After any run of submissions a fetch answers the text submitted last; after
/// none, what the store held before.
pub proof fn lemma_fetch_after_submissions(stored: Seq<char>, values: Seq<Seq<char>>)
    ensures
        values.len() > 0 ==> fetched(submitted_all(stored, values)) == values.last(),
        values.len() == 0 ==> fetched(submitted_all(stored, values)) == stored,
{
}

/// One more submission after a run of them is the run made one longer.
pub proof fn lemma_submitted_all_push(stored: Seq<char>, values: Seq<Seq<char>>, new_ip: Seq<char>)
    ensures
        submitted_all(stored, values.push(new_ip)) == submitted(
            submitted_all(stored, values),
            new_ip,
        ),
{
}

} // verus!
