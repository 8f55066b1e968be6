//! What the screen shows, as plain data.
//!
//! The functions here decide the content and the arrangement of the screen.
//! Turning that description into widgets, with their sizes and captions, is
//! left to whoever draws it.

use crate::display::{Message, MessageView, State, StateView};
use crate::matching::{characters, spells};
use crate::pokemon::{
    ability_views, base_stat_total, move_views, optional_int, Ability, AbilityView, Move,
    MoveView, Pokemon, PokemonView, Pokemons, Stats,
};
use crate::text::{lowercase, lowercased, trim, trimmed, uppercase, uppercased};
use vstd::prelude::*;

verus! {

/// The views of a run of texts, in order.
pub open spec fn texts(labels: Seq<String>) -> Seq<Seq<char>> {
    labels.map_values(|label: String| label@)
}

/// The coloured label of a move's type.
#[derive(Debug, PartialEq, Eq, Clone, Copy)]
pub struct TypeBadge {
    pub label: &'static str,
    pub red: u8,
    pub green: u8,
    pub blue: u8,
}

/// The badge of the type called `name`, where `name` is already in lower
/// case and trimmed; `None` for a name that is no type.
pub open spec fn badge_of(name: Seq<char>) -> Option<TypeBadge> {
    if name == "normal"@ {
        Some(TypeBadge { label: "NORMAL", red: 170, green: 170, blue: 153 })
    } else if name == "fire"@ {
        Some(TypeBadge { label: "FIRE", red: 255, green: 68, blue: 34 })
    } else if name == "water"@ {
        Some(TypeBadge { label: "WATER", red: 51, green: 153, blue: 255 })
    } else if name == "electric"@ {
        Some(TypeBadge { label: "ELECTRIC", red: 255, green: 204, blue: 51 })
    } else if name == "grass"@ {
        Some(TypeBadge { label: "GRASS", red: 119, green: 204, blue: 85 })
    } else if name == "ice"@ {
        Some(TypeBadge { label: "ICE", red: 102, green: 204, blue: 255 })
    } else if name == "fighting"@ {
        Some(TypeBadge { label: "FIGHTING", red: 187, green: 85, blue: 68 })
    } else if name == "poison"@ {
        Some(TypeBadge { label: "POISON", red: 170, green: 85, blue: 153 })
    } else if name == "ground"@ {
        Some(TypeBadge { label: "GROUND", red: 221, green: 187, blue: 85 })
    } else if name == "flying"@ {
        Some(TypeBadge { label: "FLYING", red: 136, green: 153, blue: 255 })
    } else if name == "psychic"@ {
        Some(TypeBadge { label: "PSYCHIC", red: 255, green: 85, blue: 153 })
    } else if name == "bug"@ {
        Some(TypeBadge { label: "BUG", red: 170, green: 187, blue: 34 })
    } else if name == "rock"@ {
        Some(TypeBadge { label: "ROCK", red: 187, green: 170, blue: 102 })
    } else if name == "ghost"@ {
        Some(TypeBadge { label: "GHOST", red: 102, green: 102, blue: 187 })
    } else if name == "dragon"@ {
        Some(TypeBadge { label: "DRAGON", red: 119, green: 102, blue: 238 })
    } else if name == "dark"@ {
        Some(TypeBadge { label: "DARK", red: 119, green: 85, blue: 68 })
    } else if name == "steel"@ {
        Some(TypeBadge { label: "STEEL", red: 170, green: 170, blue: 187 })
    } else if name == "fairy"@ {
        Some(TypeBadge { label: "FAIRY", red: 238, green: 153, blue: 238 })
    } else {
        None
    }
}

/// Looks up the badge of a type by its lower-case, trimmed name.
pub fn type_badge(name: &str) -> (badge: Option<TypeBadge>)
    ensures
        badge == badge_of(name@),
{
    let name = characters(name);
    if spells(&name, "normal") {
        Some(TypeBadge { label: "NORMAL", red: 170, green: 170, blue: 153 })
    } else if spells(&name, "fire") {
        Some(TypeBadge { label: "FIRE", red: 255, green: 68, blue: 34 })
    } else if spells(&name, "water") {
        Some(TypeBadge { label: "WATER", red: 51, green: 153, blue: 255 })
    } else if spells(&name, "electric") {
        Some(TypeBadge { label: "ELECTRIC", red: 255, green: 204, blue: 51 })
    } else if spells(&name, "grass") {
        Some(TypeBadge { label: "GRASS", red: 119, green: 204, blue: 85 })
    } else if spells(&name, "ice") {
        Some(TypeBadge { label: "ICE", red: 102, green: 204, blue: 255 })
    } else if spells(&name, "fighting") {
        Some(TypeBadge { label: "FIGHTING", red: 187, green: 85, blue: 68 })
    } else if spells(&name, "poison") {
        Some(TypeBadge { label: "POISON", red: 170, green: 85, blue: 153 })
    } else if spells(&name, "ground") {
        Some(TypeBadge { label: "GROUND", red: 221, green: 187, blue: 85 })
    } else if spells(&name, "flying") {
        Some(TypeBadge { label: "FLYING", red: 136, green: 153, blue: 255 })
    } else if spells(&name, "psychic") {
        Some(TypeBadge { label: "PSYCHIC", red: 255, green: 85, blue: 153 })
    } else if spells(&name, "bug") {
        Some(TypeBadge { label: "BUG", red: 170, green: 187, blue: 34 })
    } else if spells(&name, "rock") {
        Some(TypeBadge { label: "ROCK", red: 187, green: 170, blue: 102 })
    } else if spells(&name, "ghost") {
        Some(TypeBadge { label: "GHOST", red: 102, green: 102, blue: 187 })
    } else if spells(&name, "dragon") {
        Some(TypeBadge { label: "DRAGON", red: 119, green: 102, blue: 238 })
    } else if spells(&name, "dark") {
        Some(TypeBadge { label: "DARK", red: 119, green: 85, blue: 68 })
    } else if spells(&name, "steel") {
        Some(TypeBadge { label: "STEEL", red: 170, green: 170, blue: 187 })
    } else if spells(&name, "fairy") {
        Some(TypeBadge { label: "FAIRY", red: 238, green: 153, blue: 238 })
    } else {
        None
    }
}

/// The badge for a move's type as the store spells it: the name is put in
/// lower case and trimmed before it is looked up. A name that is no type has
/// no badge.
pub fn compose_type_container(typ: &str) -> (badge: Option<TypeBadge>)
    ensures
        badge == badge_of(trimmed(lowercased(typ@))),
{
    let lower = lowercase(typ);
    type_badge(trim(lower.as_str()))
}

/// How the abilities of a creature are laid out in a list row.
#[derive(Debug, PartialEq, Eq)]
pub enum AbilityLayout {
    /// Up to two abilities, side by side at full height.
    Row(Vec<String>),
    /// More than two: the first two stacked at half height, and beside them
    /// the others at full height.
    Split { top: Vec<String>, rest: Vec<String> },
}

/// What an [`AbilityLayout`] stands for.
pub enum AbilityLayoutView {
    Row(Seq<Seq<char>>),
    Split { top: Seq<Seq<char>>, rest: Seq<Seq<char>> },
}

impl View for AbilityLayout {
    type V = AbilityLayoutView;

    open spec fn view(&self) -> AbilityLayoutView {
        match self {
            AbilityLayout::Row(labels) => AbilityLayoutView::Row(texts(labels@)),
            AbilityLayout::Split { top, rest } => AbilityLayoutView::Split {
                top: texts(top@),
                rest: texts(rest@),
            },
        }
    }
}

/// The labels of a run of abilities: their names in upper case.
pub open spec fn ability_labels(abilities: Seq<AbilityView>) -> Seq<Seq<char>> {
    abilities.map_values(|a: AbilityView| uppercased(a.name))
}

/// The layout of a run of abilities in a list row.
pub open spec fn ability_layout(abilities: Seq<AbilityView>) -> AbilityLayoutView {
    let labels = ability_labels(abilities);
    if abilities.len() <= 2 {
        AbilityLayoutView::Row(labels)
    } else {
        AbilityLayoutView::Split { top: labels.take(2), rest: labels.skip(2) }
    }
}

/// Lays out the abilities of a creature for its list row: labels in upper
/// case, in the creature's order, split after the second where there are
/// more than two.
pub fn compose_ability_main_view(abilities: &Vec<Ability>) -> (layout: AbilityLayout)
    ensures
        layout@ == ability_layout(ability_views(abilities@)),
{
    let ghost views = ability_views(abilities@);
    let mut labels: Vec<String> = Vec::new();
    let mut i: usize = 0;
    while i < abilities.len()
        invariant
            i <= abilities.len(),
            views == ability_views(abilities@),
            texts(labels@) == ability_labels(views).take(i as int),
        decreases abilities.len() - i,
    {
        let label = uppercase(abilities[i].name.as_str());
        let ghost before = texts(labels@);
        labels.push(label);
        assert(texts(labels@) =~= before.push(label@));
        i += 1;
    }
    assert(texts(labels@) =~= ability_labels(views));
    if labels.len() <= 2 {
        AbilityLayout::Row(labels)
    } else {
        let rest = labels.split_off(2);
        assert(texts(labels@) =~= ability_labels(views).take(2));
        assert(texts(rest@) =~= ability_labels(views).skip(2));
        AbilityLayout::Split { top: labels, rest }
    }
}

/// One base stat with its caption.
#[derive(Debug, PartialEq, Eq, Clone, Copy)]
pub struct StatCell {
    pub label: &'static str,
    pub value: i128,
}

/// What a [`StatCell`] stands for.
pub struct StatCellView {
    pub label: Seq<char>,
    pub value: int,
}

impl View for StatCell {
    type V = StatCellView;

    open spec fn view(&self) -> StatCellView {
        StatCellView { label: self.label@, value: self.value as int }
    }
}

/// The views of a run of stat cells, in order.
pub open spec fn stat_cell_views(cells: Seq<StatCell>) -> Seq<StatCellView> {
    cells.map_values(|cell: StatCell| cell@)
}

/// The short caption of the stat at `position`.
pub open spec fn short_caption(position: int) -> Seq<char> {
    if position == 0 {
        "HP"@
    } else if position == 1 {
        "Atk"@
    } else if position == 2 {
        "Def"@
    } else if position == 3 {
        "SpA"@
    } else if position == 4 {
        "SpD"@
    } else {
        "Spe"@
    }
}

/// The long caption of the stat at `position`.
pub open spec fn long_caption(position: int) -> Seq<char> {
    if position == 0 {
        "HP:"@
    } else if position == 1 {
        "Attack:"@
    } else if position == 2 {
        "Defense:"@
    } else if position == 3 {
        "Sp. Atk:"@
    } else if position == 4 {
        "Sp. Def:"@
    } else {
        "Speed:"@
    }
}

/// The short caption of one of the six stats.
pub fn short_label(position: usize) -> (label: &'static str)
    requires
        position < 6,
    ensures
        label@ == short_caption(position as int),
{
    if position == 0 {
        "HP"
    } else if position == 1 {
        "Atk"
    } else if position == 2 {
        "Def"
    } else if position == 3 {
        "SpA"
    } else if position == 4 {
        "SpD"
    } else {
        "Spe"
    }
}

/// The long caption of one of the six stats.
pub fn long_label(position: usize) -> (label: &'static str)
    requires
        position < 6,
    ensures
        label@ == long_caption(position as int),
{
    if position == 0 {
        "HP:"
    } else if position == 1 {
        "Attack:"
    } else if position == 2 {
        "Defense:"
    } else if position == 3 {
        "Sp. Atk:"
    } else if position == 4 {
        "Sp. Def:"
    } else {
        "Speed:"
    }
}

/// The seven columns of a list row's stats: the six base stats in their
/// fixed order under short captions, then their total.
pub open spec fn stat_columns(stats: Seq<int>) -> Seq<StatCellView> {
    Seq::new(
        7,
        |i: int|
            if i < 6 {
                StatCellView { label: short_caption(i), value: stats[i] }
            } else {
                StatCellView { label: "BST"@, value: base_stat_total(stats) }
            },
    )
}

/// Lays out the stats of a creature for its list row.
pub fn compose_stats_main_view(stats: &Stats) -> (cells: Vec<StatCell>)
    ensures
        stat_cell_views(cells@) == stat_columns(stats@),
{
    let mut cells: Vec<StatCell> = Vec::new();
    let mut i: usize = 0;
    while i < 6
        invariant
            i <= 6,
            cells.len() == i,
            forall|j: int| 0 <= j < i ==> (#[trigger] cells[j])@ == stat_columns(stats@)[j],
        decreases 6 - i,
    {
        cells.push(StatCell { label: short_label(i), value: stats.stats[i] as i128 });
        i += 1;
    }
    cells.push(StatCell { label: "BST", value: stats.total() });
    cells
}

/// One move in the detail view. Power, accuracy and PP are shown only where
/// the move has them.
#[derive(Debug, PartialEq, Eq)]
pub struct MoveRow {
    pub name: String,
    pub badge: Option<TypeBadge>,
    pub base_power: Option<i64>,
    pub accuracy: Option<i64>,
    pub pp: Option<i64>,
}

/// What a [`MoveRow`] stands for.
pub struct MoveRowView {
    pub name: Seq<char>,
    pub badge: Option<TypeBadge>,
    pub base_power: Option<int>,
    pub accuracy: Option<int>,
    pub pp: Option<int>,
}

impl View for MoveRow {
    type V = MoveRowView;

    open spec fn view(&self) -> MoveRowView {
        MoveRowView {
            name: self.name@,
            badge: self.badge,
            base_power: optional_int(self.base_power),
            accuracy: optional_int(self.accuracy),
            pp: optional_int(self.pp),
        }
    }
}

/// The views of a run of move rows, in order.
pub open spec fn move_row_views(rows: Seq<MoveRow>) -> Seq<MoveRowView> {
    rows.map_values(|row: MoveRow| row@)
}

/// The detail view of one creature.
#[derive(Debug, PartialEq, Eq)]
pub struct Sidebar {
    /// The creature's name, as the heading.
    pub name: String,
    /// The ability names on one line, each but the last followed by a bar.
    pub abilities: Vec<String>,
    /// The six base stats under their long captions.
    pub stats: Vec<StatCell>,
    /// The base stat total.
    pub total: i128,
    /// The moves, in the creature's order.
    pub moves: Vec<MoveRow>,
}

/// What a [`Sidebar`] stands for.
pub struct SidebarView {
    pub name: Seq<char>,
    pub abilities: Seq<Seq<char>>,
    pub stats: Seq<StatCellView>,
    pub total: int,
    pub moves: Seq<MoveRowView>,
}

impl View for Sidebar {
    type V = SidebarView;

    open spec fn view(&self) -> SidebarView {
        SidebarView {
            name: self.name@,
            abilities: texts(self.abilities@),
            stats: stat_cell_views(self.stats@),
            total: self.total as int,
            moves: move_row_views(self.moves@),
        }
    }
}

/// The ability names of the detail view: every name but the last is
/// followed by a bar that parts it from the next.
pub open spec fn ability_line(abilities: Seq<AbilityView>) -> Seq<Seq<char>> {
    Seq::new(
        abilities.len(),
        |i: int|
            if i != abilities.len() - 1 {
                abilities[i].name + " | "@
            } else {
                abilities[i].name
            },
    )
}

/// The six stat lines of the detail view.
pub open spec fn stat_lines(stats: Seq<int>) -> Seq<StatCellView> {
    Seq::new(6, |i: int| StatCellView { label: long_caption(i), value: stats[i] })
}

/// The row of one move in the detail view.
pub open spec fn move_row(m: MoveView) -> MoveRowView {
    MoveRowView {
        name: m.name,
        badge: badge_of(trimmed(lowercased(m.move_type))),
        base_power: m.base_power,
        accuracy: m.accuracy,
        pp: m.pp,
    }
}

/// The detail view of a creature.
pub open spec fn sidebar_of(pokemon: PokemonView) -> SidebarView {
    SidebarView {
        name: pokemon.name,
        abilities: ability_line(pokemon.abilities),
        stats: stat_lines(pokemon.stats),
        total: base_stat_total(pokemon.stats),
        moves: pokemon.moves.map_values(|m: MoveView| move_row(m)),
    }
}

/// The ability names of the detail view.
fn sidebar_abilities(abilities: &Vec<Ability>) -> (line: Vec<String>)
    ensures
        texts(line@) == ability_line(ability_views(abilities@)),
{
    let ghost views = ability_views(abilities@);
    let count = abilities.len();
    let mut line: Vec<String> = Vec::new();
    let mut i: usize = 0;
    while i < count
        invariant
            i <= count,
            count == abilities.len(),
            views == ability_views(abilities@),
            texts(line@) == ability_line(views).take(i as int),
        decreases count - i,
    {
        let mut name = abilities[i].name.clone();
        if i != count - 1 {
            name.append(" | ");
        }
        let ghost before = texts(line@);
        line.push(name);
        assert(texts(line@) =~= before.push(name@));
        i += 1;
    }
    line
}

/// The six stat lines of the detail view.
fn sidebar_stats(stats: &Stats) -> (lines: Vec<StatCell>)
    ensures
        stat_cell_views(lines@) == stat_lines(stats@),
{
    let mut lines: Vec<StatCell> = Vec::new();
    let mut i: usize = 0;
    while i < 6
        invariant
            i <= 6,
            lines.len() == i,
            forall|j: int| 0 <= j < i ==> (#[trigger] lines[j])@ == stat_lines(stats@)[j],
        decreases 6 - i,
    {
        lines.push(StatCell { label: long_label(i), value: stats.stats[i] as i128 });
        i += 1;
    }
    lines
}

/// The rows of the moves in the detail view.
fn sidebar_moves(moves: &Vec<Move>) -> (rows: Vec<MoveRow>)
    ensures
        move_row_views(rows@) == move_views(moves@).map_values(|m: MoveView| move_row(m)),
{
    let ghost wanted = move_views(moves@).map_values(|m: MoveView| move_row(m));
    let mut rows: Vec<MoveRow> = Vec::new();
    let mut i: usize = 0;
    while i < moves.len()
        invariant
            i <= moves.len(),
            wanted == move_views(moves@).map_values(|m: MoveView| move_row(m)),
            move_row_views(rows@) == wanted.take(i as int),
        decreases moves.len() - i,
    {
        let m = &moves[i];
        let row = MoveRow {
            name: m.name.clone(),
            badge: compose_type_container(m.move_type.as_str()),
            base_power: m.base_power,
            accuracy: m.accuracy,
            pp: m.pp,
        };
        let ghost before = move_row_views(rows@);
        rows.push(row);
        assert(move_row_views(rows@) =~= before.push(row@));
        i += 1;
    }
    rows
}

/// Describes the detail view of a creature: its name, its abilities on one
/// line, the six base stats with their total, and one row for each move.
pub fn pokemon_sidebar_view(pokemon: &Pokemon) -> (sidebar: Sidebar)
    ensures
        sidebar@ == sidebar_of(pokemon@),
{
    Sidebar {
        name: pokemon.name.clone(),
        abilities: sidebar_abilities(&pokemon.abilities),
        stats: sidebar_stats(&pokemon.stats),
        total: pokemon.stats.total(),
        moves: sidebar_moves(&pokemon.moves),
    }
}

/// One row of the list: a creature with its abilities and stats, and the
/// message that a press on the row sends.
#[derive(Debug, PartialEq, Eq)]
pub struct ListRow {
    pub name: String,
    pub abilities: AbilityLayout,
    pub stats: Vec<StatCell>,
    pub on_press: Message,
}

/// What a [`ListRow`] stands for.
pub struct ListRowView {
    pub name: Seq<char>,
    pub abilities: AbilityLayoutView,
    pub stats: Seq<StatCellView>,
    pub on_press: MessageView,
}

impl View for ListRow {
    type V = ListRowView;

    open spec fn view(&self) -> ListRowView {
        ListRowView {
            name: self.name@,
            abilities: self.abilities@,
            stats: stat_cell_views(self.stats@),
            on_press: self.on_press@,
        }
    }
}

/// The views of a run of list rows, in order.
pub open spec fn list_row_views(rows: Seq<ListRow>) -> Seq<ListRowView> {
    rows.map_values(|row: ListRow| row@)
}

/// The row of the creature at position `index` of the list. A press on it
/// selects that position.
pub open spec fn list_row(pokemon: PokemonView, index: int) -> ListRowView {
    ListRowView {
        name: pokemon.name,
        abilities: ability_layout(pokemon.abilities),
        stats: stat_columns(pokemon.stats),
        on_press: MessageView::PokemonSelected(index),
    }
}

/// The list: one row for each creature, in the order of the creatures.
pub open spec fn list_rows(pokemons: Seq<PokemonView>) -> Seq<ListRowView> {
    Seq::new(pokemons.len(), |i: int| list_row(pokemons[i], i))
}

/// Describes the list of the creatures found.
pub fn default_app_render(pokemons: &Pokemons) -> (rows: Vec<ListRow>)
    ensures
        list_row_views(rows@) == list_rows(pokemons@),
{
    let mut rows: Vec<ListRow> = Vec::new();
    let mut index: usize = 0;
    while index < pokemons.pokemons.len()
        invariant
            index <= pokemons.pokemons.len(),
            list_row_views(rows@) == list_rows(pokemons@).take(index as int),
        decreases pokemons.pokemons.len() - index,
    {
        let pokemon = &pokemons.pokemons[index];
        let row = ListRow {
            name: pokemon.name.clone(),
            abilities: compose_ability_main_view(&pokemon.abilities),
            stats: compose_stats_main_view(&pokemon.stats),
            on_press: Message::PokemonSelected(index),
        };
        let ghost before = list_row_views(rows@);
        rows.push(row);
        assert(list_row_views(rows@) =~= before.push(row@));
        index += 1;
    }
    rows
}

/// The whole screen: the search text, the list, and beside it the detail
/// view where a creature is selected.
#[derive(Debug, PartialEq, Eq)]
pub struct Screen {
    pub name: String,
    pub list: Vec<ListRow>,
    pub sidebar: Option<Sidebar>,
}

/// What a [`Screen`] stands for.
pub struct ScreenView {
    pub name: Seq<char>,
    pub list: Seq<ListRowView>,
    pub sidebar: Option<SidebarView>,
}

/// The view of the detail view, if there is one.
pub open spec fn sidebar_view(sidebar: Option<Sidebar>) -> Option<SidebarView> {
    match sidebar {
        Some(sidebar) => Some(sidebar@),
        None => None,
    }
}

impl View for Screen {
    type V = ScreenView;

    open spec fn view(&self) -> ScreenView {
        ScreenView {
            name: self.name@,
            list: list_row_views(self.list@),
            sidebar: sidebar_view(self.sidebar),
        }
    }
}

/// The screen that shows `state`.
pub open spec fn screen_of(state: StateView) -> ScreenView {
    ScreenView {
        name: state.name,
        list: list_rows(state.pokemons),
        sidebar: match state.selected_pokemon {
            Some(pokemon) => Some(sidebar_of(pokemon)),
            None => None,
        },
    }
}

/// Describes the screen for a state. The state is only read.
pub fn view(state: &State) -> (screen: Screen)
    ensures
        screen@ == screen_of(state@),
{
    let sidebar = match &state.selected_pokemon {
        Some(pokemon) => Some(pokemon_sidebar_view(pokemon)),
        None => None,
    };
    Screen { name: state.name.clone(), list: default_app_render(&state.pokemons), sidebar }
}

} // verus!
