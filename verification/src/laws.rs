//! What holds of the state across several commands, stated over the model
//! that the contracts of the commands speak of.

use crate::state::StateView;
use vstd::prelude::*;
use vstd::seq_lib::lemma_multiset_commutative;

verus! {

/// Recording `names` one after the other appends them to the greetings in
/// that order and leaves the theme as it was.
pub proof fn lemma_record_all_appends(s: StateView, names: Seq<Seq<char>>)
    ensures
        s.record_all(names).greetings == s.greetings + names,
        s.record_all(names).theme == s.theme,
    decreases names.len(),
{
    if names.len() == 0 {
        assert(s.greetings + names =~= s.greetings);
    } else {
        lemma_record_all_appends(s, names.drop_last());
        assert(s.greetings + names =~= (s.greetings + names.drop_last()).push(names.last()));
    }
}

/// Starting from the initial state, after any run of greetings the list
/// holds exactly the greeted names, in the order of the calls.
pub proof fn lemma_greetings_in_call_order(names: Seq<Seq<char>>)
    ensures
        StateView::initial().record_all(names).greetings == names,
{
    lemma_record_all_appends(StateView::initial(), names);
    assert(Seq::<Seq<char>>::empty() + names =~= names);
}

/// After a clear the list is empty, whatever the state was before, and the
/// theme is untouched.
pub proof fn lemma_clear_then_list_is_empty(s: StateView)
    ensures
        s.clear().greetings == Seq::<Seq<char>>::empty(),
        s.clear().theme == s.theme,
{
}

/// A theme that was set is the theme that is read, and setting the same
/// theme again changes nothing.
pub proof fn lemma_theme_set_then_read(s: StateView, v: Seq<char>)
    ensures
        s.with_theme(v).theme == v,
        s.with_theme(v).greetings == s.greetings,
        s.with_theme(v).with_theme(v) == s.with_theme(v),
{
}

/// Greetings that reach the state one at a time, in whatever order `order`
/// the callers happened to be served, are neither lost nor duplicated: the
/// list grows by exactly the number of names supplied, and what it holds,
/// order aside, is what it held plus the supplied names.
pub proof fn lemma_serialized_greetings_keep_every_name(
    s: StateView,
    supplied: Seq<Seq<char>>,
    order: Seq<Seq<char>>,
)
    requires
        order.to_multiset() == supplied.to_multiset(),
    ensures
        s.record_all(order).greetings.len() == s.greetings.len() + supplied.len(),
        s.record_all(order).greetings.to_multiset() == s.greetings.to_multiset().add(
            supplied.to_multiset(),
        ),
{
    lemma_record_all_appends(s, order);
    lemma_multiset_commutative(s.greetings, order);
    order.to_multiset_ensures();
    supplied.to_multiset_ensures();
}

} // verus!
