//! The state container: the record that every command handler reads or
//! changes, its mathematical model, and the operations on it.

use std::sync::Mutex;
use vstd::prelude::*;

verus! {

/// `std::sync::Mutex`, carried as an opaque value. Nothing is claimed of it:
/// the library never locks; whoever owns an [`AppState`] does.
#[verifier::external_type_specification]
#[verifier::external_body]
#[verifier::reject_recursive_types(T)]
pub struct ExMutex<T: ?Sized>(Mutex<T>);

/// The state shared across the whole application: one [`State`] behind one
/// lock. An access takes the lock, hands the `State` to one handler, and
/// releases it, so that no two accesses interleave.
pub struct AppState(pub Mutex<State>);

/// The record itself.
pub struct State {
    /// The recorded names, oldest first.
    pub greetings: Vec<String>,
    pub user_preferences: UserPreferences,
}

pub struct UserPreferences {
    /// The chosen theme; empty until one is set.
    pub theme: String,
}

/// What a [`State`] holds, as mathematical values.
pub ghost struct StateView {
    pub greetings: Seq<Seq<char>>,
    pub theme: Seq<char>,
}

/// The characters of each string of `names`, in the same order.
pub open spec fn names_of(names: Seq<String>) -> Seq<Seq<char>> {
    Seq::new(names.len(), |i: int| names[i]@)
}

impl StateView {
    /// The state at process start: no greeting and an empty theme.
    pub open spec fn initial() -> StateView {
        StateView { greetings: Seq::empty(), theme: Seq::empty() }
    }

    /// The state after `name` has been recorded.
    pub open spec fn record(self, name: Seq<char>) -> StateView {
        StateView { greetings: self.greetings.push(name), theme: self.theme }
    }

    /// The state after each of `names` has been recorded, first to last.
    pub open spec fn record_all(self, names: Seq<Seq<char>>) -> StateView
        decreases names.len(),
    {
        if names.len() == 0 {
            self
        } else {
            self.record_all(names.drop_last()).record(names.last())
        }
    }

    /// The state after the greetings have been cleared.
    pub open spec fn clear(self) -> StateView {
        StateView { greetings: Seq::empty(), theme: self.theme }
    }

    /// The state after the theme has been replaced by `theme`.
    pub open spec fn with_theme(self, theme: Seq<char>) -> StateView {
        StateView { greetings: self.greetings, theme }
    }
}

impl View for UserPreferences {
    type V = Seq<char>;

    open spec fn view(&self) -> Seq<char> {
        self.theme@
    }
}

impl View for State {
    type V = StateView;

    open spec fn view(&self) -> StateView {
        StateView { greetings: names_of(self.greetings@), theme: self.user_preferences@ }
    }
}

impl Default for UserPreferences {
    fn default() -> (r: UserPreferences)
        ensures
            r@ == Seq::<char>::empty(),
    {
        UserPreferences { theme: String::new() }
    }
}

impl Default for State {
    fn default() -> (r: State)
        ensures
            r@ == StateView::initial(),
    {
        let r = State { greetings: Vec::new(), user_preferences: UserPreferences::default() };
        assert(r@.greetings =~= Seq::empty());
        r
    }
}

impl State {
    /// Appends `name` to the greetings. Any name is taken: empty ones and
    /// ones already recorded too.
    pub fn record_greeting(&mut self, name: &str)
        ensures
            final(self)@ == old(self)@.record(name@),
    {
        self.greetings.push(name.to_string());
        assert(self@.greetings =~= old(self)@.greetings.push(name@));
    }

    /// A copy of the greetings, oldest first.
    pub fn list_greetings(&self) -> (r: Vec<String>)
        ensures
            names_of(r@) == self@.greetings,
    {
        let r = self.greetings.clone();
        assert(names_of(r@) =~= names_of(self.greetings@));
        r
    }

    /// Empties the greetings; the theme stays.
    pub fn clear_greetings(&mut self)
        ensures
            final(self)@ == old(self)@.clear(),
    {
        self.greetings.clear();
        assert(self@.greetings =~= Seq::empty());
    }

    /// Replaces the theme, whatever it was; the greetings stay.
    pub fn set_theme(&mut self, value: String)
        ensures
            final(self)@ == old(self)@.with_theme(value@),
    {
        self.user_preferences.theme = value;
    }

    /// A copy of the theme.
    pub fn get_theme(&self) -> (r: String)
        ensures
            r@ == self@.theme,
    {
        self.user_preferences.theme.clone()
    }
}

} // verus!
