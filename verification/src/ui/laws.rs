//! What holds of every state of the dashboard and of every search.

use vstd::prelude::*;
use crate::email::{Email, FetchError};
use crate::text::{
    folds_piecewise, lemma_infix_reflexive, lemma_piece_is_contained, lowercase_of,
};
use crate::ui::model::{
    all_indices, email_matches, matching_indices, search_result, AppView, InputMode, Key,
};

verus! {

/// The matching positions below `upto` are valid, ascending and no more
/// than `upto`.
pub proof fn lemma_matching_indices_ordered(emails: Seq<Email>, query: Seq<char>, upto: nat)
    requires
        upto <= usize::MAX,
    ensures
        matching_indices(emails, query, upto).len() <= upto,
        forall|i: int|
            0 <= i < matching_indices(emails, query, upto).len() ==> (#[trigger] matching_indices(
                emails,
                query,
                upto,
            )[i]) < upto,
        forall|i: int, j: int|
            0 <= i < j < matching_indices(emails, query, upto).len() ==> (#[trigger] matching_indices(
                emails,
                query,
                upto,
            )[i]) < (#[trigger] matching_indices(emails, query, upto)[j]),
    decreases upto,
{
    if upto > 0 {
        lemma_matching_indices_ordered(emails, query, (upto - 1) as nat);
    }
}

/// A position is among the matching positions below `upto` exactly when
/// it lies below `upto` and its message matches.
pub proof fn lemma_matching_indices_exact(
    emails: Seq<Email>,
    query: Seq<char>,
    upto: nat,
    position: usize,
)
    requires
        upto <= usize::MAX,
    ensures
        matching_indices(emails, query, upto).contains(position) <==> position < upto
            && email_matches(emails[position as int], query),
    decreases upto,
{
    if upto > 0 {
        let earlier = matching_indices(emails, query, (upto - 1) as nat);
        lemma_matching_indices_exact(emails, query, (upto - 1) as nat, position);
        if email_matches(emails[upto - 1], query) {
            let last = (upto - 1) as usize;
            let all = earlier.push(last);
            assert(all[earlier.len() as int] == last);
            if earlier.contains(position) {
                let i = choose|i: int| 0 <= i < earlier.len() && earlier[i] == position;
                assert(all[i] == position);
            }
        }
    }
}

/// The result of a search is a well-formed filtered list: no longer than
/// the message list, of valid positions, in ascending order.
pub proof fn lemma_search_result_ordered(emails: Seq<Email>, query: Seq<char>)
    requires
        emails.len() <= usize::MAX,
    ensures
        search_result(emails, query).len() <= emails.len(),
        forall|i: int|
            0 <= i < search_result(emails, query).len() ==> (#[trigger] search_result(
                emails,
                query,
            )[i]) < emails.len(),
        forall|i: int, j: int|
            0 <= i < j < search_result(emails, query).len() ==> (#[trigger] search_result(
                emails,
                query,
            )[i]) < (#[trigger] search_result(emails, query)[j]),
{
    lemma_matching_indices_ordered(emails, query, emails.len());
}

/// A step forward and a step backward undo each other, in either order:
/// the cursor, and with it the whole state, is as before.
pub proof fn lemma_next_previous_inverse(state: AppView)
    requires
        state.wf(),
    ensures
        state.moved_next().moved_previous() == state,
        state.moved_previous().moved_next() == state,
{
}

/// From the last entry a step forward leads to the first, and from the
/// first a step backward leads to the last.
pub proof fn lemma_navigation_wraps(state: AppView)
    requires
        state.wf(),
        state.filtered.len() > 0,
    ensures
        state.cursor == state.filtered.len() - 1 ==> state.moved_next().cursor == 0,
        state.cursor == 0 ==> state.moved_previous().cursor == state.filtered.len() - 1,
        state.moved_next().cursor < state.filtered.len(),
        state.moved_previous().cursor < state.filtered.len(),
{
}

/// Searching again for the same query changes nothing that the first
/// search decided: the filtered list and the cursor are the same, whenever
/// the second search is made, and at the same millisecond the whole state
/// is the same.
pub proof fn lemma_search_idempotent(state: AppView, query: Seq<char>, first: u128, second: u128)
    ensures
        state.searched(query, first).searched(query, second).filtered == state.searched(
            query,
            first,
        ).filtered,
        state.searched(query, first).searched(query, second).cursor == state.searched(
            query,
            first,
        ).cursor,
        state.searched(query, first).searched(query, first) == state.searched(query, first),
{
}

/// What a search shows depends on the messages and the query alone, not
/// on the time, the cursor, the mode or what was shown before.
pub proof fn lemma_search_deterministic(
    one: AppView,
    other: AppView,
    query: Seq<char>,
    first: u128,
    second: u128,
)
    requires
        one.emails == other.emails,
    ensures
        one.searched(query, first).filtered == other.searched(query, second).filtered,
{
}

/// The empty query shows every message in store order, and leaves the
/// status message as it was.
pub proof fn lemma_empty_query_restores_all(state: AppView, now: u128)
    requires
        state.wf(),
    ensures
        state.searched(Seq::empty(), now).filtered == all_indices(state.emails.len()),
        state.searched(Seq::empty(), now).filtered.len() == state.emails.len(),
        forall|i: int|
            0 <= i < state.emails.len() ==> #[trigger] state.searched(
                Seq::empty(),
                now,
            ).filtered[i] == i,
        state.searched(Seq::empty(), now).status == state.status,
{
}

/// A search shows exactly the messages that match: a position is in the
/// filtered list if and only if it is a position of the message list whose
/// message matches the query, or the query is empty.
pub proof fn lemma_search_shows_exactly_matches(
    state: AppView,
    query: Seq<char>,
    now: u128,
    position: usize,
)
    requires
        state.wf(),
    ensures
        state.searched(query, now).filtered.contains(position) <==> position < state.emails.len()
            && (query.len() == 0 || email_matches(state.emails[position as int], query)),
{
    if query.len() == 0 {
        let all = all_indices(state.emails.len());
        if position < state.emails.len() {
            assert(all[position as int] == position);
        }
    } else {
        lemma_matching_indices_exact(state.emails, query, state.emails.len(), position);
    }
}

/// Searching for the whole subject, sender or body of a message shows
/// that message.
pub proof fn lemma_search_by_whole_field_includes(
    state: AppView,
    query: Seq<char>,
    now: u128,
    position: usize,
)
    requires
        state.wf(),
        position < state.emails.len(),
        query == state.emails[position as int].subject@ || query
            == state.emails[position as int].sender@ || query
            == state.emails[position as int].body@,
    ensures
        state.searched(query, now).filtered.contains(position),
{
    lemma_infix_reflexive(lowercase_of(query));
    lemma_search_shows_exactly_matches(state, query, now, position);
}

/// Searching for a piece of the subject, sender or body of a message
/// shows that message, where the text lower-cases piece by piece: where
/// lower-casing what stands before the piece, the piece, and what stands
/// after it, each on its own, gives the lower-cased text.
///
/// Not every text does. Some letters are lower-cased by their place in
/// the word, so that a piece cut out of a word and lower-cased on its own
/// is no piece of the lower-cased word; of such a query the search
/// promises nothing.
pub proof fn lemma_search_by_substring_includes(
    state: AppView,
    before: Seq<char>,
    query: Seq<char>,
    after: Seq<char>,
    now: u128,
    position: usize,
)
    requires
        state.wf(),
        position < state.emails.len(),
        before + query + after == state.emails[position as int].subject@ || before + query + after
            == state.emails[position as int].sender@ || before + query + after
            == state.emails[position as int].body@,
        folds_piecewise(before, query, after),
    ensures
        state.searched(query, now).filtered.contains(position),
{
    lemma_piece_is_contained(before, query, after);
    lemma_search_shows_exactly_matches(state, query, now, position);
}

/// A search leaves a well-formed state well-formed.
pub proof fn lemma_search_preserves_wf(state: AppView, query: Seq<char>, now: u128)
    requires
        state.wf(),
    ensures
        state.searched(query, now).wf(),
{
    lemma_search_result_ordered(state.emails, query);
}

/// A new message list that fits in memory leaves the state well-formed,
/// whatever it was: the cursor is clamped into the new list.
pub proof fn lemma_replace_establishes_wf(state: AppView, emails: Seq<Email>)
    requires
        emails.len() <= usize::MAX,
    ensures
        state.replaced(emails).wf(),
        emails.len() > 0 ==> state.replaced(emails).cursor < emails.len(),
        emails.len() == 0 ==> state.replaced(emails).cursor == 0,
{
}

/// Taking in the outcome of a fetch leaves a well-formed state
/// well-formed. A failure changes nothing but the status message and the
/// loading flag.
pub proof fn lemma_fetch_preserves_wf(
    state: AppView,
    outcome: Result<Vec<Email>, FetchError>,
    now: u128,
)
    requires
        state.wf(),
    ensures
        state.fetched(outcome, now).wf(),
        outcome is Err ==> state.fetched(outcome, now) == (AppView {
            status: state.fetched(outcome, now).status,
            loading: false,
            ..state
        }),
        state.fetched(outcome, now).status is Some,
        !state.fetched(outcome, now).loading,
{
    match outcome {
        Ok(emails) => {
            assert(emails@.len() == emails.len());
            lemma_replace_establishes_wf(state, emails@);
        },
        Err(_) => {},
    }
}

/// Every key press leaves a well-formed state well-formed.
pub proof fn lemma_step_preserves_wf(state: AppView, key: Key, now: u128)
    requires
        state.wf(),
    ensures
        state.step(key, now).wf(),
{
    lemma_search_preserves_wf(
        state.with_mode(InputMode::Normal).with_search_input(Seq::empty()),
        Seq::empty(),
        now,
    );
    lemma_search_preserves_wf(state.with_mode(InputMode::Normal), state.search_input, now);
}

/// A tick leaves a well-formed state well-formed and touches nothing but
/// the tick time and the status message.
pub proof fn lemma_tick_preserves_wf(state: AppView, now: u128)
    requires
        state.wf(),
    ensures
        state.ticked(now).wf(),
        state.ticked(now) == (AppView {
            status: state.ticked(now).status,
            last_tick: state.ticked(now).last_tick,
            ..state
        }),
{
}

/// Clearing a stale status message twice is clearing it once.
pub proof fn lemma_expire_idempotent(state: AppView, now: u128, timeout: u128)
    ensures
        state.expire_status(now, timeout).expire_status(now, timeout) == state.expire_status(
            now,
            timeout,
        ),
{
}

/// A status message set at `set_at` is still there one millisecond before
/// its timeout has passed and gone once the timeout has passed.
pub proof fn lemma_status_lifetime(
    state: AppView,
    text: Seq<char>,
    set_at: u128,
    now: u128,
    timeout: u128,
)
    ensures
        now - set_at < timeout ==> state.with_status(text, set_at).expire_status(now, timeout).status
            == Some((text, set_at)),
        now - set_at >= timeout ==> state.with_status(text, set_at).expire_status(
            now,
            timeout,
        ).status is None,
{
}

} // verus!
