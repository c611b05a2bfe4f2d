//! Laws that relate several steps of the exchange.
use vstd::prelude::*;
use crate::exchange::{read_reply, toggle_reply_of};
use crate::light::{off_word, on_word, Action, Fragment};

verus! {

/// Two toggles in a row, against a backend that applies each action and is
/// left alone in between, end on the fragment that a read showed before them:
/// the first flips the light away from what was read, the second flips it
/// back, whatever statuses the two mutation calls answered with.
pub proof fn lemma_two_toggles_restore_fragment(initial: Seq<char>, first_status: u16, second_status: u16)
    ensures
        ({
            let first = Action::spec_flip(initial);
            let second = Action::spec_flip(first.spec_resulting_state());
            &&& first != second
            &&& toggle_reply_of(first, first_status).fragment != read_reply(initial).fragment
            &&& toggle_reply_of(second, second_status).fragment == read_reply(initial).fragment
        }),
{
    reveal_strlit("on");
    reveal_strlit("off");
    assert(off_word().len() != on_word().len());
}

/// The fragment that a toggle shows is the one that a later read of a backend
/// which applied the action shows.
pub proof fn lemma_toggle_fragment_matches_next_read(action: Action, status: u16)
    ensures
        toggle_reply_of(action, status).fragment == read_reply(action.spec_resulting_state()).fragment,
{
    reveal_strlit("on");
    reveal_strlit("off");
    assert(off_word().len() != on_word().len());
}

} // verus!
