//! The data model: a creature with its abilities, moves and base stats.
//!
//! Each executable type has a mathematical view, and the contracts of the
//! whole crate are stated over those views.

use vstd::prelude::*;

verus! {

/// How many base stats a creature has.
pub const STAT_COUNT: usize = 6;

/// What an [`Ability`] stands for.
pub struct AbilityView {
    pub name: Seq<char>,
}

/// What a [`Move`] stands for.
pub struct MoveView {
    pub name: Seq<char>,
    pub move_type: Seq<char>,
    pub base_power: Option<int>,
    pub pp: Option<int>,
    pub accuracy: Option<int>,
    pub generation: int,
}

/// What a [`Pokemon`] stands for. `stats` always has [`STAT_COUNT`] entries,
/// in the order HP, Attack, Defense, Special Attack, Special Defense, Speed.
pub struct PokemonView {
    pub name: Seq<char>,
    pub abilities: Seq<AbilityView>,
    pub moves: Seq<MoveView>,
    pub stats: Seq<int>,
}

/// The views of a run of abilities, in order.
pub open spec fn ability_views(abilities: Seq<Ability>) -> Seq<AbilityView> {
    abilities.map_values(|a: Ability| a@)
}

/// The views of a run of moves, in order.
pub open spec fn move_views(moves: Seq<Move>) -> Seq<MoveView> {
    moves.map_values(|m: Move| m@)
}

/// The views of a run of creatures, in order.
pub open spec fn pokemon_views(pokemons: Seq<Pokemon>) -> Seq<PokemonView> {
    pokemons.map_values(|p: Pokemon| p@)
}

/// An optional number as a mathematical integer.
pub open spec fn optional_int(value: Option<i64>) -> Option<int> {
    match value {
        Some(v) => Some(v as int),
        None => None,
    }
}

/// The sum of the six base stats.
pub open spec fn base_stat_total(stats: Seq<int>) -> int {
    stats[0] + stats[1] + stats[2] + stats[3] + stats[4] + stats[5]
}

/// A named ability of a creature.
#[derive(Debug, PartialEq, Eq)]
pub struct Ability {
    pub name: String,
}

impl View for Ability {
    type V = AbilityView;

    open spec fn view(&self) -> AbilityView {
        AbilityView { name: self.name@ }
    }
}

impl Clone for Ability {
    fn clone(&self) -> (copy: Self)
        ensures
            copy@ == self@,
    {
        Ability { name: self.name.clone() }
    }
}

/// A move a creature can learn. Power, PP and accuracy are absent for moves
/// that have none.
#[derive(Debug, PartialEq, Eq)]
pub struct Move {
    pub name: String,
    pub move_type: String,
    pub base_power: Option<i64>,
    pub pp: Option<i64>,
    pub accuracy: Option<i64>,
    pub generation: i64,
}

impl View for Move {
    type V = MoveView;

    open spec fn view(&self) -> MoveView {
        MoveView {
            name: self.name@,
            move_type: self.move_type@,
            base_power: optional_int(self.base_power),
            pp: optional_int(self.pp),
            accuracy: optional_int(self.accuracy),
            generation: self.generation as int,
        }
    }
}

impl Clone for Move {
    fn clone(&self) -> (copy: Self)
        ensures
            copy@ == self@,
    {
        Move {
            name: self.name.clone(),
            move_type: self.move_type.clone(),
            base_power: self.base_power,
            pp: self.pp,
            accuracy: self.accuracy,
            generation: self.generation,
        }
    }
}

/// The six base stats, by position: HP, Attack, Defense, Special Attack,
/// Special Defense, Speed.
#[derive(Debug, PartialEq, Eq)]
pub struct Stats {
    pub stats: [i64; 6],
}

impl View for Stats {
    type V = Seq<int>;

    open spec fn view(&self) -> Seq<int> {
        Seq::new(STAT_COUNT as nat, |i: int| self.stats[i] as int)
    }
}

impl Clone for Stats {
    fn clone(&self) -> (copy: Self)
        ensures
            copy@ == self@,
    {
        Stats { stats: self.stats }
    }
}

impl Stats {
    /// The base stat total. It is computed anew on every call and never
    /// stored.
    pub fn total(&self) -> (total: i128)
        ensures
            total == base_stat_total(self@),
    {
        let stats = &self.stats;
        stats[0] as i128 + stats[1] as i128 + stats[2] as i128 + stats[3] as i128
            + stats[4] as i128 + stats[5] as i128
    }
}

/// A creature with everything that belongs to it.
#[derive(Debug, PartialEq, Eq)]
pub struct Pokemon {
    pub name: String,
    pub abilities: Vec<Ability>,
    pub moves: Vec<Move>,
    pub stats: Stats,
}

impl View for Pokemon {
    type V = PokemonView;

    open spec fn view(&self) -> PokemonView {
        PokemonView {
            name: self.name@,
            abilities: ability_views(self.abilities@),
            moves: move_views(self.moves@),
            stats: self.stats@,
        }
    }
}

impl Clone for Pokemon {
    fn clone(&self) -> (copy: Self)
        ensures
            copy@ == self@,
    {
        let abilities = self.abilities.clone();
        let moves = self.moves.clone();
        assert(ability_views(abilities@) =~= ability_views(self.abilities@));
        assert(move_views(moves@) =~= move_views(self.moves@));
        Pokemon { name: self.name.clone(), abilities, moves, stats: self.stats.clone() }
    }
}

/// Every creature has exactly six base stats, and its abilities and moves
/// are sequences, which may be empty but are never missing.
pub proof fn creature_is_complete(pokemon: Pokemon)
    ensures
        pokemon@.stats.len() == STAT_COUNT,
        pokemon@.abilities.len() == pokemon.abilities@.len(),
        pokemon@.moves.len() == pokemon.moves@.len(),
{
}

/// The creatures a search found, in the order the store gave them.
#[derive(Debug, PartialEq, Eq)]
pub struct Pokemons {
    pub pokemons: Vec<Pokemon>,
}

impl View for Pokemons {
    type V = Seq<PokemonView>;

    open spec fn view(&self) -> Seq<PokemonView> {
        pokemon_views(self.pokemons@)
    }
}

impl Clone for Pokemons {
    fn clone(&self) -> (copy: Self)
        ensures
            copy@ == self@,
    {
        let pokemons = self.pokemons.clone();
        Pokemons { pokemons }
    }
}

impl Default for Pokemons {
    fn default() -> (empty: Self)
        ensures
            empty@ == Seq::<PokemonView>::empty(),
    {
        Pokemons { pokemons: Vec::new() }
    }
}

} // verus!
