use lead_into_wine::alchemy::{RecipesConfig, ResultTypes};
use lead_into_wine::level::{
    customer_count, customer_delay_secs, day_config_from_picks, day_duration_secs, get_day_config,
    init_level_loop, level_loop_system, order_for_recipe, queue_pnj_spawn, select_recipe,
    spawn_first_customer, spawn_pnj, write_customer_text, CurrentLevel, CurrentPnjIndex,
    CustomerArrived, DayEnded, LevelDay, PendingOutcome,
};
use lead_into_wine::persona::{
    wait_indicator_offset, Persona, PersonnaConfig, Preference, RaceProfile,
};
use lead_into_wine::table::Table;
use lead_into_wine::timer::Timer;

const SEC: u128 = 1_000_000_000;

fn persona(name: &str, race: &str, texture: Option<&str>, greeting: &str) -> Persona {
    Persona {
        race: race.to_string(),
        name: name.to_string(),
        texture: texture.map(|t| t.to_string()),
        greetings: vec![greeting.to_string()],
        preferences: vec![Preference {
            recipe: "Sangria".to_string(),
            tolerance_bonus: 0.5f32.to_bits(),
            add_effect: None,
        }],
    }
}

fn config_with(n: usize) -> PersonnaConfig {
    let mut race_profiles = Table::new();
    race_profiles.insert(
        "orc".to_string(),
        RaceProfile {
            tolerance: 1.0f32.to_bits(),
            mood_bias: 0.0f32.to_bits(),
            texture: Some("orc.aseprite".to_string()),
        },
    );
    race_profiles.insert(
        "elf".to_string(),
        RaceProfile { tolerance: 1.0f32.to_bits(), mood_bias: 0.0f32.to_bits(), texture: None },
    );
    let personas = (0..n)
        .map(|i| persona(&format!("Guest{i}"), "orc", None, "Hi, {name} wants {order}!"))
        .collect();
    PersonnaConfig { races: vec!["orc".to_string(), "elf".to_string()], race_profiles, personas }
}

fn recipes() -> RecipesConfig {
    let mut config = RecipesConfig::new();
    config.beverages.insert(
        "Sangria".to_string(),
        ResultTypes { name: "Royal Sangria".to_string(), texture: "mug_red".to_string() },
    );
    config.recipes.insert(("Unicorn Tear".to_string(), "Wine".to_string()), "Sangria".to_string());
    config
}

#[test]
fn schedule_values() {
    assert_eq!(customer_count(0), 3);
    assert_eq!(customer_count(1), 4);
    assert_eq!(customer_delay_secs(0), 35);
    assert_eq!(customer_delay_secs(1), 32);
    assert_eq!(customer_delay_secs(7), 14);
    assert_eq!(customer_delay_secs(8), 12);
    assert_eq!(customer_delay_secs(12), 12);
    assert_eq!(customer_delay_secs(u32::MAX), 12);
    assert_eq!(day_duration_secs(1), 32 * 4 + 10);
    assert_eq!(day_duration_secs(0), 35 * 3 + 10);
    assert_eq!(day_duration_secs(u32::MAX), 12 * (3 + u32::MAX as u64) + 10);
}

#[test]
fn schedule_never_slows_down() {
    let mut previous = customer_delay_secs(0);
    for day in 1..40 {
        let d = customer_delay_secs(day);
        assert!(d <= previous);
        assert!(d >= 12);
        assert_eq!(customer_count(day), customer_count(day - 1) + 1);
        assert!(day_duration_secs(day) >= d * customer_count(day));
        previous = d;
    }
}

#[test]
fn day_config_from_picks_copies_the_picked_customers() {
    let config = config_with(5);
    let level = day_config_from_picks(&config.personas, 2, &vec![3, 0]);
    assert_eq!(level.customer_list.len(), 2);
    assert_eq!(level.customer_list[0].name, "Guest3");
    assert_eq!(level.customer_list[1].name, "Guest0");
    assert_eq!(level.customer_timer.duration(), 29 * SEC);
    assert_eq!(level.level_timer.duration(), (29 * 5 + 10) * SEC);
    assert_eq!(level.customer_order, "");
}

#[test]
fn day_config_draws_distinct_customers() {
    let config = config_with(10);
    let level = get_day_config(&config, 1);
    assert_eq!(level.customer_list.len(), 4);
    let mut names: Vec<String> = level.customer_list.iter().map(|p| p.name.clone()).collect();
    names.sort();
    names.dedup();
    assert_eq!(names.len(), 4);
    assert!(!level.customer_timer.is_finished());
    assert_eq!(level.customer_timer.duration(), 32 * SEC);
}

#[test]
fn day_config_with_few_personas_takes_them_all() {
    let config = config_with(2);
    let level = get_day_config(&config, 5);
    assert_eq!(level.customer_list.len(), 2);
    let empty = config_with(0);
    assert_eq!(get_day_config(&empty, 5).customer_list.len(), 0);
}

#[test]
fn first_customer_comes_at_once() {
    let config = config_with(3);
    let (day, level, pnj, arrived) = init_level_loop(&config, None);
    assert_eq!(day.day, 1);
    assert_eq!(level.customer_list.len(), 3);
    assert_eq!(pnj.0, 1);
    assert_eq!(arrived, Some(CustomerArrived { index: 0 }));
    let (day, _, _, _) = init_level_loop(&config, Some(4));
    assert_eq!(day.day, 4);
}

#[test]
fn no_first_customer_on_an_empty_day() {
    let config = config_with(0);
    let level = get_day_config(&config, 1);
    let mut pnj = CurrentPnjIndex(5);
    assert_eq!(spawn_first_customer(&level, &mut pnj), None);
    assert_eq!(pnj.0, 0);
}

#[test]
fn customers_arrive_in_order_then_the_day_ends() {
    let config = config_with(10);
    let (mut day, mut level, mut pnj, _) = init_level_loop(&config, Some(1));
    // day 1: 4 customers, 32 s apart, day lasts 138 s.
    let delay = 32 * SEC;
    let (ended, arrived) = level_loop_system(delay - 1, &mut level, &config, &mut day, &mut pnj);
    assert_eq!((ended, arrived), (None, None));
    let (ended, arrived) = level_loop_system(1, &mut level, &config, &mut day, &mut pnj);
    assert_eq!(ended, None);
    assert_eq!(arrived, Some(CustomerArrived { index: 1 }));
    assert_eq!(pnj.0, 2);
    let (_, arrived) = level_loop_system(delay, &mut level, &config, &mut day, &mut pnj);
    assert_eq!(arrived, Some(CustomerArrived { index: 2 }));
    let (_, arrived) = level_loop_system(delay, &mut level, &config, &mut day, &mut pnj);
    assert_eq!(arrived, Some(CustomerArrived { index: 3 }));
    assert_eq!(pnj.0, 4);
    let (_, arrived) = level_loop_system(delay, &mut level, &config, &mut day, &mut pnj);
    assert_eq!(arrived, None);
    assert_eq!(pnj.0, 4);
    assert_eq!(day.day, 1);
    // 4 * 32 = 128 s so far; 10 s left.
    let (ended, arrived) = level_loop_system(10 * SEC, &mut level, &config, &mut day, &mut pnj);
    assert_eq!(ended, Some(DayEnded));
    assert_eq!(arrived, Some(CustomerArrived { index: 0 }));
    assert_eq!(day.day, 2);
    assert_eq!(level.customer_list.len(), 5);
    assert_eq!(level.customer_timer.duration(), 29 * SEC);
    assert_eq!(pnj.0, 1);
}

#[test]
fn finished_day_without_new_level_stays_idle() {
    let config = config_with(1);
    let mut level = CurrentLevel {
        customer_list: vec![],
        customer_timer: Timer::new(5),
        level_timer: Timer::new(10),
        customer_order: String::new(),
    };
    level.level_timer.tick(10);
    let mut day = LevelDay { day: 3 };
    let mut pnj = CurrentPnjIndex(0);
    let r = level_loop_system(1, &mut level, &config, &mut day, &mut pnj);
    assert_eq!(r, (None, None));
    assert_eq!(day.day, 3);
}

#[test]
fn order_is_a_recipe_result() {
    let config = recipes();
    assert_eq!(order_for_recipe(&config, 0), "Royal Sangria");
    let people = config_with(3);
    let mut level = get_day_config(&people, 1);
    select_recipe(&mut level, 0, &config);
    assert_eq!(level.customer_order, "");
    select_recipe(&mut level, 2, &config);
    assert_eq!(level.customer_order, "Royal Sangria");
}

#[test]
fn customer_text_fills_placeholders() {
    let config = config_with(1);
    let mut level = get_day_config(&config, 1);
    level.customer_order = "Royal Sangria".to_string();
    assert_eq!(
        write_customer_text(&level, 0).as_deref(),
        Some("Hi, Guest0 wants Royal Sangria!")
    );
    assert_eq!(write_customer_text(&level, 1), None);
}

#[test]
fn pending_customers_walk_in_after_the_cooldown() {
    let mut queue = queue_pnj_spawn(&vec![CustomerArrived { index: 0 }, CustomerArrived { index: 7 }]);
    assert_eq!(queue.len(), 2);
    assert_eq!(queue[1].index, 7);
    assert_eq!(queue[0].timer.duration(), 600_000_000);
    let config = config_with(2);
    let level = get_day_config(&config, 1);
    assert!(matches!(spawn_pnj(&mut queue[0], 599_999_999, &level, &config), PendingOutcome::Waiting));
    match spawn_pnj(&mut queue[0], 1, &level, &config) {
        PendingOutcome::Spawn(plan) => {
            assert_eq!(plan.texture, "orc.aseprite");
            assert_eq!(plan.indicator_offset, (0, 70));
            assert_eq!(plan.indicator_duration, 32 * SEC);
        }
        _ => panic!("expected a spawn"),
    }
    assert!(matches!(spawn_pnj(&mut queue[1], SEC, &level, &config), PendingOutcome::Dropped));
}

#[test]
fn texture_priority() {
    let config = config_with(0);
    let own = persona("A", "orc", Some("wizard.aseprite"), "hi");
    let raced = persona("B", "orc", None, "hi");
    let bare_race = persona("C", "elf", None, "hi");
    let unknown = persona("D", "dwarf", None, "hi");
    assert_eq!(config.texture_for(&own), "wizard.aseprite");
    assert_eq!(config.texture_for(&raced), "orc.aseprite");
    assert_eq!(config.texture_for(&bare_race), "knight.png");
    assert_eq!(config.texture_for(&unknown), "knight.png");
}

#[test]
fn wait_indicator_offsets() {
    assert_eq!(wait_indicator_offset("orc.aseprite"), (0, 70));
    assert_eq!(wait_indicator_offset("goblin.aseprite"), (0, 70));
    assert_eq!(wait_indicator_offset("wizard.aseprite"), (0, 60));
    assert_eq!(wait_indicator_offset("warrior.aseprite"), (-5, 60));
    assert_eq!(wait_indicator_offset("knight.png"), (0, 50));
}

#[test]
fn persona_duplicate_keeps_everything() {
    let p = persona("A", "orc", Some("x"), "hello {name}");
    let q = p.duplicate();
    assert_eq!(q.name, "A");
    assert_eq!(q.race, "orc");
    assert_eq!(q.texture.as_deref(), Some("x"));
    assert_eq!(q.greetings, vec!["hello {name}".to_string()]);
    assert_eq!(q.preferences.len(), 1);
    assert_eq!(q.preferences[0].tolerance_bonus, 0.5f32.to_bits());
}
