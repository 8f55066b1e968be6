use pokedex::display::{update, Message, State};
use pokedex::pokemon::{Ability, Move, Pokemon, Pokemons, Stats};
use pokedex::render::{
    compose_ability_main_view, compose_stats_main_view, compose_type_container,
    default_app_render, long_label, pokemon_sidebar_view, short_label, type_badge, view,
    AbilityLayout, ListRow, MoveRow, StatCell, TypeBadge,
};

fn abilities(names: &[&str]) -> Vec<Ability> {
    names.iter().map(|name| Ability { name: name.to_string() }).collect()
}

fn texts(labels: &[&str]) -> Vec<String> {
    labels.iter().map(|label| label.to_string()).collect()
}

fn pikachu() -> Pokemon {
    Pokemon {
        name: "pikachu".to_string(),
        abilities: abilities(&["static", "lightning-rod"]),
        moves: vec![
            Move {
                name: "thunder-shock".to_string(),
                move_type: "Electric".to_string(),
                base_power: Some(40),
                pp: Some(30),
                accuracy: Some(100),
                generation: 1,
            },
            Move {
                name: "growl".to_string(),
                move_type: "normal".to_string(),
                base_power: None,
                pp: Some(40),
                accuracy: Some(100),
                generation: 1,
            },
            Move {
                name: "swift".to_string(),
                move_type: " NORMAL ".to_string(),
                base_power: Some(60),
                pp: Some(20),
                accuracy: None,
                generation: 1,
            },
        ],
        stats: Stats { stats: [35, 55, 40, 50, 50, 90] },
    }
}

fn pidgey() -> Pokemon {
    Pokemon {
        name: "pidgey".to_string(),
        abilities: abilities(&["keen-eye", "tangled-feet", "big-pecks"]),
        moves: vec![],
        stats: Stats { stats: [40, 45, 40, 35, 35, 56] },
    }
}

const ELECTRIC: TypeBadge = TypeBadge { label: "ELECTRIC", red: 255, green: 204, blue: 51 };
const NORMAL: TypeBadge = TypeBadge { label: "NORMAL", red: 170, green: 170, blue: 153 };

#[test]
fn base_stat_total_is_the_sum() {
    assert_eq!(Stats { stats: [35, 55, 40, 50, 50, 90] }.total(), 320);
    assert_eq!(Stats { stats: [0; 6] }.total(), 0);
    assert_eq!(Stats { stats: [-1, 2, -3, 4, -5, 6] }.total(), 3);
}

#[test]
fn base_stat_total_does_not_overflow() {
    assert_eq!(Stats { stats: [i64::MAX; 6] }.total(), 6 * (i64::MAX as i128));
    assert_eq!(Stats { stats: [i64::MIN; 6] }.total(), 6 * (i64::MIN as i128));
}

#[test]
fn clones_are_equal() {
    assert_eq!(pikachu().clone(), pikachu());
    let both = Pokemons { pokemons: vec![pikachu(), pidgey()] };
    assert_eq!(both.clone(), both);
    assert_eq!(Pokemons::default(), Pokemons { pokemons: vec![] });
}

#[test]
fn type_badge_knows_every_type() {
    let table = [
        ("normal", "NORMAL", 170, 170, 153),
        ("fire", "FIRE", 255, 68, 34),
        ("water", "WATER", 51, 153, 255),
        ("electric", "ELECTRIC", 255, 204, 51),
        ("grass", "GRASS", 119, 204, 85),
        ("ice", "ICE", 102, 204, 255),
        ("fighting", "FIGHTING", 187, 85, 68),
        ("poison", "POISON", 170, 85, 153),
        ("ground", "GROUND", 221, 187, 85),
        ("flying", "FLYING", 136, 153, 255),
        ("psychic", "PSYCHIC", 255, 85, 153),
        ("bug", "BUG", 170, 187, 34),
        ("rock", "ROCK", 187, 170, 102),
        ("ghost", "GHOST", 102, 102, 187),
        ("dragon", "DRAGON", 119, 102, 238),
        ("dark", "DARK", 119, 85, 68),
        ("steel", "STEEL", 170, 170, 187),
        ("fairy", "FAIRY", 238, 153, 238),
    ];
    for (name, label, red, green, blue) in table {
        assert_eq!(type_badge(name), Some(TypeBadge { label, red, green, blue }));
    }
}

#[test]
fn type_badge_wants_the_exact_name() {
    assert_eq!(type_badge("Fire"), None);
    assert_eq!(type_badge(" fire"), None);
    assert_eq!(type_badge("fir"), None);
    assert_eq!(type_badge("fires"), None);
    assert_eq!(type_badge(""), None);
    assert_eq!(type_badge("shadow"), None);
}

#[test]
fn type_container_lowers_and_trims_the_name() {
    let fire = Some(TypeBadge { label: "FIRE", red: 255, green: 68, blue: 34 });
    assert_eq!(compose_type_container("fire"), fire);
    assert_eq!(compose_type_container("Fire"), fire);
    assert_eq!(compose_type_container("FIRE"), fire);
    assert_eq!(compose_type_container("  fire\n"), fire);
    assert_eq!(compose_type_container("\tFiRe "), fire);
}

#[test]
fn type_container_has_no_badge_for_an_unknown_type() {
    assert_eq!(compose_type_container("shadow"), None);
    assert_eq!(compose_type_container(""), None);
    assert_eq!(compose_type_container("fi re"), None);
}

#[test]
fn up_to_two_abilities_stand_in_one_row() {
    assert_eq!(compose_ability_main_view(&abilities(&[])), AbilityLayout::Row(vec![]));
    assert_eq!(
        compose_ability_main_view(&abilities(&["static"])),
        AbilityLayout::Row(texts(&["STATIC"]))
    );
    assert_eq!(
        compose_ability_main_view(&abilities(&["static", "lightning-rod"])),
        AbilityLayout::Row(texts(&["STATIC", "LIGHTNING-ROD"]))
    );
}

#[test]
fn more_than_two_abilities_are_split_after_the_second() {
    assert_eq!(
        compose_ability_main_view(&abilities(&["keen-eye", "tangled-feet", "big-pecks"])),
        AbilityLayout::Split {
            top: texts(&["KEEN-EYE", "TANGLED-FEET"]),
            rest: texts(&["BIG-PECKS"]),
        }
    );
    assert_eq!(
        compose_ability_main_view(&abilities(&["a", "b", "c", "d"])),
        AbilityLayout::Split { top: texts(&["A", "B"]), rest: texts(&["C", "D"]) }
    );
}

#[test]
fn stat_labels_follow_the_position() {
    let short: Vec<&str> = (0..6).map(short_label).collect();
    assert_eq!(short, vec!["HP", "Atk", "Def", "SpA", "SpD", "Spe"]);
    let long: Vec<&str> = (0..6).map(long_label).collect();
    assert_eq!(long, vec!["HP:", "Attack:", "Defense:", "Sp. Atk:", "Sp. Def:", "Speed:"]);
}

#[test]
fn stats_row_has_six_stats_and_the_total() {
    let cells = compose_stats_main_view(&Stats { stats: [35, 55, 40, 50, 50, 90] });
    assert_eq!(
        cells,
        vec![
            StatCell { label: "HP", value: 35 },
            StatCell { label: "Atk", value: 55 },
            StatCell { label: "Def", value: 40 },
            StatCell { label: "SpA", value: 50 },
            StatCell { label: "SpD", value: 50 },
            StatCell { label: "Spe", value: 90 },
            StatCell { label: "BST", value: 320 },
        ]
    );
}

#[test]
fn sidebar_shows_the_whole_creature() {
    let sidebar = pokemon_sidebar_view(&pikachu());
    assert_eq!(sidebar.name, "pikachu");
    assert_eq!(sidebar.abilities, texts(&["static | ", "lightning-rod"]));
    assert_eq!(
        sidebar.stats,
        vec![
            StatCell { label: "HP:", value: 35 },
            StatCell { label: "Attack:", value: 55 },
            StatCell { label: "Defense:", value: 40 },
            StatCell { label: "Sp. Atk:", value: 50 },
            StatCell { label: "Sp. Def:", value: 50 },
            StatCell { label: "Speed:", value: 90 },
        ]
    );
    assert_eq!(sidebar.total, 320);
    assert_eq!(
        sidebar.moves,
        vec![
            MoveRow {
                name: "thunder-shock".to_string(),
                badge: Some(ELECTRIC),
                base_power: Some(40),
                accuracy: Some(100),
                pp: Some(30),
            },
            MoveRow {
                name: "growl".to_string(),
                badge: Some(NORMAL),
                base_power: None,
                accuracy: Some(100),
                pp: Some(40),
            },
            MoveRow {
                name: "swift".to_string(),
                badge: Some(NORMAL),
                base_power: Some(60),
                accuracy: None,
                pp: Some(20),
            },
        ]
    );
}

#[test]
fn sidebar_of_a_creature_without_abilities_or_moves() {
    let bare = Pokemon {
        name: "missingno".to_string(),
        abilities: vec![],
        moves: vec![],
        stats: Stats { stats: [1, 2, 3, 4, 5, 6] },
    };
    let sidebar = pokemon_sidebar_view(&bare);
    assert!(sidebar.abilities.is_empty());
    assert!(sidebar.moves.is_empty());
    assert_eq!(sidebar.total, 21);
}

#[test]
fn sidebar_separates_all_but_the_last_ability() {
    let sidebar = pokemon_sidebar_view(&pidgey());
    assert_eq!(sidebar.abilities, texts(&["keen-eye | ", "tangled-feet | ", "big-pecks"]));
    let one = Pokemon { abilities: abilities(&["static"]), ..pikachu() };
    assert_eq!(pokemon_sidebar_view(&one).abilities, texts(&["static"]));
}

#[test]
fn sidebar_has_no_badge_for_an_unknown_type() {
    let odd = Pokemon {
        moves: vec![Move {
            name: "curse".to_string(),
            move_type: "???".to_string(),
            base_power: None,
            pp: None,
            accuracy: None,
            generation: 2,
        }],
        ..pikachu()
    };
    let sidebar = pokemon_sidebar_view(&odd);
    assert_eq!(
        sidebar.moves,
        vec![MoveRow {
            name: "curse".to_string(),
            badge: None,
            base_power: None,
            accuracy: None,
            pp: None,
        }]
    );
}

#[test]
fn list_has_one_row_per_creature_and_each_row_selects_itself() {
    let rows = default_app_render(&Pokemons { pokemons: vec![pikachu(), pidgey()] });
    assert_eq!(
        rows,
        vec![
            ListRow {
                name: "pikachu".to_string(),
                abilities: AbilityLayout::Row(texts(&["STATIC", "LIGHTNING-ROD"])),
                stats: compose_stats_main_view(&pikachu().stats),
                on_press: Message::PokemonSelected(0),
            },
            ListRow {
                name: "pidgey".to_string(),
                abilities: AbilityLayout::Split {
                    top: texts(&["KEEN-EYE", "TANGLED-FEET"]),
                    rest: texts(&["BIG-PECKS"]),
                },
                stats: compose_stats_main_view(&pidgey().stats),
                on_press: Message::PokemonSelected(1),
            },
        ]
    );
}

#[test]
fn list_of_nothing_is_empty() {
    assert!(default_app_render(&Pokemons::default()).is_empty());
}

#[test]
fn screen_without_selection_has_no_sidebar() {
    let mut state = State::new();
    update(&mut state, Message::NameChanged("pi".to_string()));
    update(
        &mut state,
        Message::PokemonsFound(
            "pi".to_string(),
            Some(Pokemons { pokemons: vec![pikachu(), pidgey()] }),
        ),
    );
    let screen = view(&state);
    assert_eq!(screen.name, "pi");
    assert_eq!(screen.list, default_app_render(&state.pokemons));
    assert_eq!(screen.list.len(), 2);
    assert_eq!(screen.sidebar, None);
}

#[test]
fn screen_with_selection_shows_list_and_sidebar() {
    let mut state = State::new();
    update(&mut state, Message::NameChanged("pi".to_string()));
    update(
        &mut state,
        Message::PokemonsFound(
            "pi".to_string(),
            Some(Pokemons { pokemons: vec![pikachu(), pidgey()] }),
        ),
    );
    update(&mut state, Message::PokemonSelected(1));
    let screen = view(&state);
    assert_eq!(screen.list.len(), 2);
    assert_eq!(screen.sidebar, Some(pokemon_sidebar_view(&pidgey())));
}

#[test]
fn pressing_a_row_of_the_screen_selects_that_creature() {
    let mut state = State::new();
    update(&mut state, Message::NameChanged("pi".to_string()));
    update(
        &mut state,
        Message::PokemonsFound(
            "pi".to_string(),
            Some(Pokemons { pokemons: vec![pikachu(), pidgey()] }),
        ),
    );
    let screen = view(&state);
    update(&mut state, screen.list[1].on_press.clone());
    assert_eq!(state.selected_pokemon, Some(pidgey()));
}

#[test]
fn initial_screen_is_empty() {
    let screen = view(&State::new());
    assert_eq!(screen.name, "");
    assert!(screen.list.is_empty());
    assert_eq!(screen.sidebar, None);
}
