//! The view state and its transitions.
//!
//! The state holds the text being searched for, the creatures found for it,
//! and the creature picked for the detail view, if any. [`update`] is the
//! only way the state changes: it takes one message, moves the state on, and
//! says whether a search has to be started. Whoever runs the search reports
//! back with a message tagged by the text it searched for, and a report for
//! a text that is no longer the current one is dropped.

use crate::pokemon::{Pokemon, PokemonView, Pokemons};
use vstd::prelude::*;

verus! {

/// What happened: the text was edited, a search reported back, or a row of
/// the list was pressed.
#[derive(Debug, PartialEq, Eq)]
pub enum Message {
    /// The search text is now this.
    NameChanged(String),
    /// The search for the given text ended: with the creatures found, or
    /// with `None` where there are none or the search failed.
    PokemonsFound(String, Option<Pokemons>),
    /// The row at this position of the list was pressed.
    PokemonSelected(usize),
}

/// What a [`Message`] stands for.
pub enum MessageView {
    NameChanged(Seq<char>),
    PokemonsFound(Seq<char>, Option<Seq<PokemonView>>),
    PokemonSelected(int),
}

/// The creatures that a search outcome holds: none where it is `None`.
pub open spec fn found_or_empty(found: Option<Seq<PokemonView>>) -> Seq<PokemonView> {
    match found {
        Some(pokemons) => pokemons,
        None => Seq::empty(),
    }
}

/// The view of a search outcome.
pub open spec fn outcome_view(found: Option<Pokemons>) -> Option<Seq<PokemonView>> {
    match found {
        Some(pokemons) => Some(pokemons@),
        None => None,
    }
}

impl View for Message {
    type V = MessageView;

    open spec fn view(&self) -> MessageView {
        match self {
            Message::NameChanged(name) => MessageView::NameChanged(name@),
            Message::PokemonsFound(name, found) => MessageView::PokemonsFound(
                name@,
                outcome_view(*found),
            ),
            Message::PokemonSelected(index) => MessageView::PokemonSelected(*index as int),
        }
    }
}

impl Clone for Message {
    fn clone(&self) -> (copy: Self)
        ensures
            copy@ == self@,
    {
        match self {
            Message::NameChanged(name) => Message::NameChanged(name.clone()),
            Message::PokemonsFound(name, found) => {
                let found = match found {
                    Some(pokemons) => Some(pokemons.clone()),
                    None => None,
                };
                Message::PokemonsFound(name.clone(), found)
            },
            Message::PokemonSelected(index) => Message::PokemonSelected(*index),
        }
    }
}

/// What has to be done after a transition.
#[derive(Debug, PartialEq, Eq)]
pub enum Command {
    /// Nothing.
    Idle,
    /// Start a search for this text, and report back with
    /// [`Message::PokemonsFound`] tagged with the same text.
    Search(String),
}

/// What a [`Command`] stands for.
pub enum CommandView {
    Idle,
    Search(Seq<char>),
}

impl View for Command {
    type V = CommandView;

    open spec fn view(&self) -> CommandView {
        match self {
            Command::Idle => CommandView::Idle,
            Command::Search(name) => CommandView::Search(name@),
        }
    }
}

/// The view state. While `selected_pokemon` is `None` the list alone is
/// shown; otherwise the detail view of that creature stands beside it.
#[derive(Debug, PartialEq, Eq)]
pub struct State {
    /// The text being searched for.
    pub name: String,
    /// The creatures found for it, or none while a search is under way.
    pub pokemons: Pokemons,
    /// The creature in the detail view: a copy of its own, which stays as it
    /// is when the list changes.
    pub selected_pokemon: Option<Pokemon>,
}

/// What a [`State`] stands for.
pub struct StateView {
    pub name: Seq<char>,
    pub pokemons: Seq<PokemonView>,
    pub selected_pokemon: Option<PokemonView>,
}

/// The view of the creature in the detail view, if there is one.
pub open spec fn selection_view(selected: Option<Pokemon>) -> Option<PokemonView> {
    match selected {
        Some(pokemon) => Some(pokemon@),
        None => None,
    }
}

impl View for State {
    type V = StateView;

    open spec fn view(&self) -> StateView {
        StateView {
            name: self.name@,
            pokemons: self.pokemons@,
            selected_pokemon: selection_view(self.selected_pokemon),
        }
    }
}

/// The state at the start: no text, no creatures, no detail view.
pub open spec fn initial_state() -> StateView {
    StateView { name: Seq::empty(), pokemons: Seq::empty(), selected_pokemon: None }
}

/// The state that follows `state` on `message`.
///
/// - A new text empties the list and closes the detail view.
/// - The outcome of a search replaces the list if it is tagged with the
///   current text, and is dropped otherwise.
/// - A press on a row opens the detail view of the creature at that
///   position, and does nothing where the list has no such position.
pub open spec fn next_state(state: StateView, message: MessageView) -> StateView {
    match message {
        MessageView::NameChanged(name) => StateView {
            name,
            pokemons: Seq::empty(),
            selected_pokemon: None,
        },
        MessageView::PokemonsFound(name, found) => if name == state.name {
            StateView { pokemons: found_or_empty(found), ..state }
        } else {
            state
        },
        MessageView::PokemonSelected(index) => if 0 <= index < state.pokemons.len() {
            StateView { selected_pokemon: Some(state.pokemons[index]), ..state }
        } else {
            state
        },
    }
}

/// What has to be done after `message`: a search for every new text that is
/// not empty, and nothing otherwise.
pub open spec fn next_command(message: MessageView) -> CommandView {
    match message {
        MessageView::NameChanged(name) => if name.len() > 0 {
            CommandView::Search(name)
        } else {
            CommandView::Idle
        },
        _ => CommandView::Idle,
    }
}

impl State {
    /// The state at the start.
    pub fn new() -> (state: State)
        ensures
            state@ == initial_state(),
    {
        State { name: String::new(), pokemons: Pokemons::default(), selected_pokemon: None }
    }
}

/// Moves the state on by one message and says what has to be done next.
pub fn update(state: &mut State, message: Message) -> (command: Command)
    ensures
        final(state)@ == next_state(old(state)@, message@),
        command@ == next_command(message@),
{
    match message {
        Message::NameChanged(name) => {
            let command = if name.as_str().is_empty() {
                Command::Idle
            } else {
                Command::Search(name.clone())
            };
            state.name = name;
            state.pokemons = Pokemons::default();
            state.selected_pokemon = None;
            command
        },
        Message::PokemonsFound(name, found) => {
            if name == state.name {
                state.pokemons = match found {
                    Some(pokemons) => pokemons,
                    None => Pokemons::default(),
                };
            }
            Command::Idle
        },
        Message::PokemonSelected(index) => {
            if index < state.pokemons.pokemons.len() {
                state.selected_pokemon = Some(state.pokemons.pokemons[index].clone());
            }
            Command::Idle
        },
    }
}

/// The outcome of a search for a text that is no longer the current one
/// leaves the state as it is.
pub proof fn stale_outcome_is_dropped(
    state: StateView,
    name: Seq<char>,
    found: Option<Seq<PokemonView>>,
)
    requires
        name != state.name,
    ensures
        next_state(state, MessageView::PokemonsFound(name, found)) == state,
{
}

/// The outcome of the search for the current text becomes the list, and
/// nothing else changes.
pub proof fn current_outcome_is_applied(
    state: StateView,
    found: Option<Seq<PokemonView>>,
)
    ensures
        next_state(state, MessageView::PokemonsFound(state.name, found)) == (StateView {
            pokemons: found_or_empty(found),
            ..state
        }),
{
}

/// Two texts are entered one after the other, and both searches report
/// back. In whichever order the two outcomes arrive, the state then shows
/// the second text with the outcome of its own search, never that of the
/// first.
pub proof fn later_search_wins(
    state: StateView,
    first: Seq<char>,
    second: Seq<char>,
    first_found: Option<Seq<PokemonView>>,
    second_found: Option<Seq<PokemonView>>,
)
    requires
        first != second,
    ensures
        ({
            let entered = next_state(
                next_state(state, MessageView::NameChanged(first)),
                MessageView::NameChanged(second),
            );
            let wanted = StateView {
                name: second,
                pokemons: found_or_empty(second_found),
                selected_pokemon: None,
            };
            &&& next_state(
                next_state(entered, MessageView::PokemonsFound(second, second_found)),
                MessageView::PokemonsFound(first, first_found),
            ) == wanted
            &&& next_state(
                next_state(entered, MessageView::PokemonsFound(first, first_found)),
                MessageView::PokemonsFound(second, second_found),
            ) == wanted
        }),
{
}

/// A press on a row that the list has opens the detail view of the creature
/// at that position and changes nothing else.
pub proof fn selection_opens_detail(state: StateView, index: int)
    requires
        0 <= index < state.pokemons.len(),
    ensures
        next_state(state, MessageView::PokemonSelected(index)) == (StateView {
            selected_pokemon: Some(state.pokemons[index]),
            ..state
        }),
{
}

/// A press on a position that the list does not have leaves the state as it
/// is.
pub proof fn selection_out_of_bounds_is_ignored(state: StateView, index: int)
    requires
        index >= state.pokemons.len(),
    ensures
        next_state(state, MessageView::PokemonSelected(index)) == state,
{
}

/// No transition ever asks for a search for the empty text.
pub proof fn empty_text_is_never_searched(message: MessageView)
    ensures
        next_command(message) != CommandView::Search(Seq::empty()),
{
}

/// The state after a run of messages, taken one after the other.
pub open spec fn run(state: StateView, messages: Seq<MessageView>) -> StateView
    decreases messages.len(),
{
    if messages.len() == 0 {
        state
    } else {
        next_state(run(state, messages.drop_last()), messages.last())
    }
}

/// `report` is the outcome of a search for `name` and holds `pokemons`.
pub open spec fn reports(report: MessageView, name: Seq<char>, pokemons: Seq<PokemonView>) -> bool {
    report matches MessageView::PokemonsFound(tag, found) && tag == name && found_or_empty(found)
        == pokemons
}

/// Once a text is entered, no report and no press can bring back the list
/// of another text. Whatever messages follow, in whatever order, as long as
/// the text is not edited again: the state still shows that text, and its
/// list is empty or is what a search for that very text reported.
pub proof fn list_belongs_to_the_current_text(
    state: StateView,
    name: Seq<char>,
    messages: Seq<MessageView>,
)
    requires
        forall|i: int| 0 <= i < messages.len() ==> !(#[trigger] messages[i] is NameChanged),
    ensures
        ({
            let end = run(next_state(state, MessageView::NameChanged(name)), messages);
            &&& end.name == name
            &&& end.pokemons.len() == 0 || exists|i: int|
                0 <= i < messages.len() && reports(#[trigger] messages[i], name, end.pokemons)
        }),
    decreases messages.len(),
{
    if messages.len() > 0 {
        let earlier = messages.drop_last();
        assert forall|i: int| 0 <= i < earlier.len() implies !(#[trigger] earlier[i]
            is NameChanged) by {
            assert(earlier[i] == messages[i]);
        }
        list_belongs_to_the_current_text(state, name, earlier);
        let before = run(next_state(state, MessageView::NameChanged(name)), earlier);
        let end = next_state(before, messages.last());
        let last = messages.len() - 1;
        assert(!(messages[last] is NameChanged));
        if end.pokemons.len() > 0 {
            if end.pokemons == before.pokemons {
                let i = choose|i: int|
                    0 <= i < earlier.len() && reports(#[trigger] earlier[i], name, before.pokemons);
                assert(reports(messages[i], name, end.pokemons));
            } else {
                assert(reports(messages[last], name, end.pokemons));
            }
        }
    }
}

} // verus!
