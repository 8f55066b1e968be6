//! Hydration: from the rows that the store returned to complete creatures.
//!
//! A search runs in two rounds. The first asks the store for the keys of the
//! creatures whose name holds the search text. The second fetches, for each
//! key, what belongs to that creature: its abilities, its moves and its six
//! base stats. [`hydrate`] takes the rows of both rounds and puts them
//! together, key by key. It does not trust the rows: the two rounds have to
//! agree in length and in the identifiers they carry, every creature has to
//! come with exactly six stats, and only creatures whose name really holds
//! the search text are kept. One fault fails the whole search, so that no
//! creature is ever shown with another one's data or with a part missing.

use crate::display::{Message, MessageView};
use crate::matching::{contains_ignoring_case, matches_at, name_matches};
use crate::pokemon::{
    ability_views, move_views, pokemon_views, Ability, AbilityView, Move, MoveView, Pokemon,
    PokemonView, Pokemons, Stats,
};
use vstd::prelude::*;

verus! {

/// Why a search came to nothing.
#[derive(Debug, PartialEq, Eq, Clone, Copy)]
pub enum SearchError {
    /// The store could not be reached, or refused the query.
    QueryError,
    /// The rows fetched for the creatures do not fit the keys.
    HydrationInconsistency,
}

/// One row of the first round: a creature's identifier and name.
#[derive(Debug, PartialEq, Eq)]
pub struct PokemonKey {
    pub id: i64,
    pub name: String,
}

/// What a [`PokemonKey`] stands for.
pub struct PokemonKeyView {
    pub id: int,
    pub name: Seq<char>,
}

impl View for PokemonKey {
    type V = PokemonKeyView;

    open spec fn view(&self) -> PokemonKeyView {
        PokemonKeyView { id: self.id as int, name: self.name@ }
    }
}

/// What the second round fetched for the creature with identifier `id`.
#[derive(Debug, PartialEq, Eq)]
pub struct Related {
    pub id: i64,
    pub abilities: Vec<Ability>,
    pub moves: Vec<Move>,
    pub stats: Vec<i64>,
}

/// What a [`Related`] stands for.
pub struct RelatedView {
    pub id: int,
    pub abilities: Seq<AbilityView>,
    pub moves: Seq<MoveView>,
    pub stats: Seq<int>,
}

impl View for Related {
    type V = RelatedView;

    open spec fn view(&self) -> RelatedView {
        RelatedView {
            id: self.id as int,
            abilities: ability_views(self.abilities@),
            moves: move_views(self.moves@),
            stats: self.stats@.map_values(|stat: i64| stat as int),
        }
    }
}

/// The rows of both rounds: `related[i]` is meant for `keys[i]`.
#[derive(Debug, PartialEq, Eq)]
pub struct Rows {
    pub keys: Vec<PokemonKey>,
    pub related: Vec<Related>,
}

/// What a [`Rows`] stands for.
pub struct RowsView {
    pub keys: Seq<PokemonKeyView>,
    pub related: Seq<RelatedView>,
}

impl View for Rows {
    type V = RowsView;

    open spec fn view(&self) -> RowsView {
        RowsView {
            keys: self.keys@.map_values(|key: PokemonKey| key@),
            related: self.related@.map_values(|related: Related| related@),
        }
    }
}

/// `related` is what was fetched for `key`, and it is complete.
pub open spec fn fits(key: PokemonKeyView, related: RelatedView) -> bool {
    related.id == key.id && related.stats.len() == 6
}

/// Every key has its own fetched rows at the same position, and nothing is
/// left over.
pub open spec fn consistent(rows: RowsView) -> bool {
    &&& rows.keys.len() == rows.related.len()
    &&& forall|i: int| 0 <= i < rows.keys.len() ==> fits(#[trigger] rows.keys[i], rows.related[i])
}

/// The creature made of a key and what was fetched for it.
pub open spec fn creature(key: PokemonKeyView, related: RelatedView) -> PokemonView {
    PokemonView {
        name: key.name,
        abilities: related.abilities,
        moves: related.moves,
        stats: related.stats,
    }
}

/// All creatures that the rows describe, in the order of the keys.
pub open spec fn assembled(rows: RowsView) -> Seq<PokemonView> {
    Seq::new(rows.keys.len(), |i: int| creature(rows.keys[i], rows.related[i]))
}

/// The test that a creature's name holds `query`, letter case aside.
pub open spec fn named_like(query: Seq<char>) -> spec_fn(PokemonView) -> bool {
    |pokemon: PokemonView| contains_ignoring_case(pokemon.name, query)
}

/// What hydration yields for a search text and the rows fetched for it.
///
/// - The empty text finds nothing, whatever the rows hold.
/// - Otherwise rows that are not consistent fail the search.
/// - Otherwise the result holds the creatures whose name holds the text, in
///   the order of the keys.
pub open spec fn hydrated(query: Seq<char>, rows: RowsView) -> Result<
    Seq<PokemonView>,
    SearchError,
> {
    if query.len() == 0 {
        Ok(Seq::empty())
    } else if !consistent(rows) {
        Err(SearchError::HydrationInconsistency)
    } else {
        Ok(assembled(rows).filter(named_like(query)))
    }
}

/// The view of what [`hydrate`] returns.
pub open spec fn hydration_view(result: Result<Pokemons, SearchError>) -> Result<
    Seq<PokemonView>,
    SearchError,
> {
    match result {
        Ok(pokemons) => Ok(pokemons@),
        Err(error) => Err(error),
    }
}

/// Filtering one element more either appends that element or changes
/// nothing, as the test decides.
proof fn filter_one_more<A>(items: Seq<A>, keep: spec_fn(A) -> bool, count: int)
    requires
        0 <= count < items.len(),
    ensures
        items.take(count + 1).filter(keep) == if keep(items[count]) {
            items.take(count).filter(keep).push(items[count])
        } else {
            items.take(count).filter(keep)
        },
{
    reveal(Seq::filter);
    assert(items.take(count + 1).drop_last() =~= items.take(count));
}

/// Whether `related` is what was fetched for `key`, and complete.
fn fits_key(key: &PokemonKey, related: &Related) -> (fit: bool)
    ensures
        fit == fits(key@, related@),
{
    related.id == key.id && related.stats.len() == 6
}

/// Whether every key has its own fetched rows at the same position.
fn is_consistent(rows: &Rows) -> (consistent: bool)
    ensures
        consistent == self::consistent(rows@),
{
    if rows.keys.len() != rows.related.len() {
        return false;
    }
    let mut i: usize = 0;
    while i < rows.keys.len()
        invariant
            i <= rows.keys.len(),
            rows.keys.len() == rows.related.len(),
            forall|j: int| 0 <= j < i ==> fits(#[trigger] rows@.keys[j], rows@.related[j]),
        decreases rows.keys.len() - i,
    {
        if !fits_key(&rows.keys[i], &rows.related[i]) {
            assert(!fits(rows@.keys[i as int], rows@.related[i as int]));
            return false;
        }
        i += 1;
    }
    true
}

/// Builds the creature of a key from what was fetched for it.
fn assemble(key: &PokemonKey, related: &Related) -> (pokemon: Pokemon)
    requires
        fits(key@, related@),
    ensures
        pokemon@ == creature(key@, related@),
{
    let stats = &related.stats;
    let abilities = related.abilities.clone();
    let moves = related.moves.clone();
    let pokemon = Pokemon {
        name: key.name.clone(),
        abilities,
        moves,
        stats: Stats { stats: [stats[0], stats[1], stats[2], stats[3], stats[4], stats[5]] },
    };
    assert(pokemon@.abilities =~= related@.abilities);
    assert(pokemon@.moves =~= related@.moves);
    assert(pokemon@.stats =~= related@.stats);
    pokemon
}

/// Puts the rows of a search together.
///
/// Returns the creatures whose name holds `name`, letter case aside, each
/// with its own abilities, moves and six stats, in the order of the keys.
/// The empty text finds nothing. Rows that are not consistent fail the
/// search as a whole.
pub fn hydrate(name: &str, rows: &Rows) -> (result: Result<Pokemons, SearchError>)
    ensures
        hydration_view(result) == hydrated(name@, rows@),
        name@.len() == 0 ==> result is Ok,
        result is Err <==> name@.len() > 0 && !consistent(rows@),
        result matches Ok(pokemons) ==> forall|i: int|
            0 <= i < pokemons@.len() ==> {
                &&& contains_ignoring_case((#[trigger] pokemons@[i]).name, name@)
                &&& pokemons@[i].name.len() > 0
                &&& pokemons@[i].stats.len() == 6
            },
{
    if name.is_empty() {
        return Ok(Pokemons::default());
    }
    if !is_consistent(rows) {
        return Err(SearchError::HydrationInconsistency);
    }
    let ghost all = assembled(rows@);
    let ghost keep = named_like(name@);
    let mut pokemons: Vec<Pokemon> = Vec::new();
    let mut i: usize = 0;
    proof {
        reveal(Seq::filter);
        assert(all.take(0).filter(keep) =~= Seq::empty());
    }
    while i < rows.keys.len()
        invariant
            i <= rows.keys.len(),
            consistent(rows@),
            all == assembled(rows@),
            keep == named_like(name@),
            pokemon_views(pokemons@) == all.take(i as int).filter(keep),
        decreases rows.keys.len() - i,
    {
        let key = &rows.keys[i];
        proof {
            filter_one_more(all, keep, i as int);
        }
        if name_matches(key.name.as_str(), name) {
            let pokemon = assemble(key, &rows.related[i]);
            pokemons.push(pokemon);
            assert(pokemon_views(pokemons@) =~= all.take(i as int).filter(keep).push(pokemon@));
        }
        i += 1;
    }
    assert(all.take(i as int) =~= all);
    let result = Pokemons { pokemons };
    proof {
        hydrated_creatures_match(name@, rows@);
    }
    Ok(result)
}

/// Every creature that hydration yields has a name that holds the search
/// text, letter case aside, and is therefore not empty; and it has exactly
/// six stats.
pub proof fn hydrated_creatures_match(query: Seq<char>, rows: RowsView)
    requires
        hydrated(query, rows) is Ok,
    ensures
        forall|i: int|
            0 <= i < hydrated(query, rows)->Ok_0.len() ==> {
                &&& contains_ignoring_case(
                    (#[trigger] hydrated(query, rows)->Ok_0[i]).name,
                    query,
                )
                &&& hydrated(query, rows)->Ok_0[i].name.len() > 0
                &&& hydrated(query, rows)->Ok_0[i].stats.len() == 6
            },
{
    if query.len() > 0 {
        let all = assembled(rows);
        let keep = named_like(query);
        let found = all.filter(keep);
        assert forall|i: int| 0 <= i < found.len() implies {
            &&& contains_ignoring_case((#[trigger] found[i]).name, query)
            &&& found[i].name.len() > 0
            &&& found[i].stats.len() == 6
        } by {
            all.lemma_filter_pred(keep, i);
            all.lemma_filter_contains_rev(keep, found[i]);
            let at = choose|at: int| matches_at(found[i].name, query, at);
            assert(matches_at(found[i].name, query, at));
            let j = choose|j: int| 0 <= j < all.len() && all[j] == found[i];
            assert(fits(rows.keys[j], rows.related[j]));
        }
    }
}

/// The empty text finds nothing, whatever the rows hold.
pub proof fn empty_text_finds_nothing(rows: RowsView)
    ensures
        hydrated(Seq::empty(), rows) == Ok::<Seq<PokemonView>, SearchError>(Seq::empty()),
{
}

/// Two results that both meet the contract of [`hydrate`] for the same text
/// and the same rows hold the same creatures in the same order, or are the
/// same failure.
pub proof fn hydration_is_repeatable(
    query: Seq<char>,
    rows: RowsView,
    first: Result<Pokemons, SearchError>,
    second: Result<Pokemons, SearchError>,
)
    requires
        hydration_view(first) == hydrated(query, rows),
        hydration_view(second) == hydrated(query, rows),
    ensures
        hydration_view(first) == hydration_view(second),
{
}

/// How often `item` occurs among the items that pass a test: as often as
/// among all items if it passes itself, and never otherwise.
proof fn filtered_count<A>(items: Seq<A>, keep: spec_fn(A) -> bool, item: A)
    ensures
        items.filter(keep).to_multiset().count(item) == if keep(item) {
            items.to_multiset().count(item)
        } else {
            0
        },
    decreases items.len(),
{
    reveal(Seq::filter);
    if items.len() == 0 {
        items.to_multiset_ensures();
        items.filter(keep).to_multiset_ensures();
    } else {
        let rest = items.drop_last();
        let last = items.last();
        filtered_count(rest, keep, item);
        assert(items =~= rest.push(last));
        rest.to_multiset_ensures();
        rest.filter(keep).to_multiset_ensures();
        if keep(last) {
            assert(rest.filter(keep).push(last).to_multiset() =~= rest.filter(keep).to_multiset().insert(
                last,
            ));
        }
    }
}

/// The order of the rows does not decide which creatures are found. Where
/// two consistent sets of rows describe the same creatures, each as often
/// as the other, hydration finds the same creatures in both, each as often
/// as in the other.
pub proof fn hydration_ignores_row_order(query: Seq<char>, first: RowsView, second: RowsView)
    requires
        consistent(first),
        consistent(second),
        assembled(first).to_multiset() == assembled(second).to_multiset(),
    ensures
        hydrated(query, first) is Ok,
        hydrated(query, second) is Ok,
        hydrated(query, first)->Ok_0.to_multiset() == hydrated(query, second)->Ok_0.to_multiset(),
{
    if query.len() > 0 {
        let keep = named_like(query);
        let found_first = assembled(first).filter(keep);
        let found_second = assembled(second).filter(keep);
        assert forall|pokemon: PokemonView|
            found_first.to_multiset().count(pokemon) == found_second.to_multiset().count(
                pokemon,
            ) by {
            filtered_count(assembled(first), keep, pokemon);
            filtered_count(assembled(second), keep, pokemon);
        }
    }
}

/// The view of what was fetched for a search, or of the failure to fetch.
pub open spec fn fetched_view(fetched: Result<Rows, SearchError>) -> Result<
    RowsView,
    SearchError,
> {
    match fetched {
        Ok(rows) => Ok(rows@),
        Err(error) => Err(error),
    }
}

/// What a search reports in the end: the creatures found if there are any,
/// and `None` where the fetch failed, the rows were not consistent, or no
/// creature matched.
pub open spec fn outcome(query: Seq<char>, fetched: Result<RowsView, SearchError>) -> Option<
    Seq<PokemonView>,
> {
    match fetched {
        Ok(rows) => match hydrated(query, rows) {
            Ok(found) => if found.len() > 0 {
                Some(found)
            } else {
                None
            },
            Err(_) => None,
        },
        Err(_) => None,
    }
}

/// Turns what was fetched for the text `name` into the outcome of the
/// search. No failure gets past this point: each one becomes `None`.
pub fn get_pokemons(name: &str, fetched: &Result<Rows, SearchError>) -> (found: Option<Pokemons>)
    ensures
        crate::display::outcome_view(found) == outcome(name@, fetched_view(*fetched)),
        found matches Some(pokemons) ==> pokemons@.len() > 0,
{
    match fetched {
        Ok(rows) => match hydrate(name, rows) {
            Ok(pokemons) => if pokemons.pokemons.len() > 0 {
                Some(pokemons)
            } else {
                None
            },
            Err(_) => None,
        },
        Err(_) => None,
    }
}

/// The message that reports the end of the search for `name`. It carries
/// `name` as its tag, so that the state can tell whether the search is
/// still the current one.
pub fn pokemons_found(name: String, fetched: &Result<Rows, SearchError>) -> (message: Message)
    ensures
        message@ == MessageView::PokemonsFound(name@, outcome(name@, fetched_view(*fetched))),
{
    let found = get_pokemons(name.as_str(), fetched);
    Message::PokemonsFound(name, found)
}

} // verus!
