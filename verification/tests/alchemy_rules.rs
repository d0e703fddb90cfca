use lead_into_wine::alchemy::{
    alchemy_bottles, counter_glass, full_bottle, handle_pouring, liquid_visual_tag, pour_one_dose,
    pour_target, LiquidContainer, RecipesConfig, ResultTypes,
};

fn bottle(liquid: &str, level: usize) -> LiquidContainer {
    LiquidContainer {
        content: if level == 0 { None } else { Some(liquid.to_string()) },
        level,
        max_doses: 5,
        is_glass: false,
    }
}

fn glass(content: Option<&str>, level: usize) -> LiquidContainer {
    LiquidContainer {
        content: content.map(|c| c.to_string()),
        level,
        max_doses: 4,
        is_glass: true,
    }
}

fn tavern_recipes() -> RecipesConfig {
    let mut config = RecipesConfig::new();
    config.beverages.insert(
        "Sangria".to_string(),
        ResultTypes { name: "Royal Sangria".to_string(), texture: "mug_red".to_string() },
    );
    config.beverages.insert(
        "Wine".to_string(),
        ResultTypes { name: "House Wine".to_string(), texture: "mug_wine".to_string() },
    );
    config.recipes.insert(("Unicorn Tear".to_string(), "Wine".to_string()), "Sangria".to_string());
    config
}

#[test]
fn pour_into_empty_glass_takes_the_liquid() {
    let mut held = bottle("Wine", 5);
    let mut target = counter_glass();
    assert!(pour_one_dose(&mut held, &mut target, None));
    assert_eq!(held.level, 4);
    assert_eq!(held.content.as_deref(), Some("Wine"));
    assert_eq!(target.level, 1);
    assert_eq!(target.content.as_deref(), Some("Wine"));
}

#[test]
fn pouring_the_last_dose_empties_the_bottle() {
    let mut held = bottle("Wine", 1);
    let mut target = counter_glass();
    assert!(pour_one_dose(&mut held, &mut target, None));
    assert_eq!(held.level, 0);
    assert_eq!(held.content, None);
    assert_eq!(target.level, 1);
}

#[test]
fn pour_refused_from_an_empty_container() {
    let mut held = bottle("Wine", 0);
    let mut target = counter_glass();
    assert!(!pour_one_dose(&mut held, &mut target, None));
    assert_eq!(held.level, 0);
    assert_eq!(target.level, 0);
    assert_eq!(target.content, None);
}

#[test]
fn pour_refused_into_a_full_container() {
    let mut held = bottle("Wine", 3);
    let mut target = glass(Some("Wine"), 4);
    assert!(!pour_one_dose(&mut held, &mut target, None));
    assert_eq!(held.level, 3);
    assert_eq!(target.level, 4);
}

#[test]
fn pour_refused_when_held_level_has_no_liquid() {
    let mut held = LiquidContainer { content: None, level: 2, max_doses: 5, is_glass: false };
    let mut target = counter_glass();
    assert!(!pour_one_dose(&mut held, &mut target, None));
    assert_eq!(held.level, 2);
    assert_eq!(target.level, 0);
}

#[test]
fn mixing_follows_the_recipe_in_the_given_order() {
    let config = tavern_recipes();
    let mut held = bottle("Unicorn Tear", 5);
    let mut target = glass(Some("Wine"), 1);
    assert!(pour_one_dose(&mut held, &mut target, Some(&config)));
    assert_eq!(target.content.as_deref(), Some("Sangria"));
    assert_eq!(target.level, 2);
}

#[test]
fn mixing_follows_the_recipe_in_the_other_order() {
    let config = tavern_recipes();
    let mut held = bottle("Wine", 5);
    let mut target = glass(Some("Unicorn Tear"), 1);
    assert!(pour_one_dose(&mut held, &mut target, Some(&config)));
    assert_eq!(target.content.as_deref(), Some("Sangria"));
}

#[test]
fn mixing_without_recipe_keeps_the_content() {
    let config = tavern_recipes();
    let mut held = bottle("Mandrake Root", 5);
    let mut target = glass(Some("Wine"), 1);
    assert!(pour_one_dose(&mut held, &mut target, Some(&config)));
    assert_eq!(target.content.as_deref(), Some("Wine"));
    assert_eq!(target.level, 2);
}

#[test]
fn mixing_without_configuration_keeps_the_content() {
    let mut held = bottle("Unicorn Tear", 5);
    let mut target = glass(Some("Wine"), 1);
    assert!(pour_one_dose(&mut held, &mut target, None));
    assert_eq!(target.content.as_deref(), Some("Wine"));
}

#[test]
fn pours_conserve_doses() {
    let config = tavern_recipes();
    let mut a = bottle("Wine", 5);
    let mut b = counter_glass();
    for _ in 0..7 {
        let before = a.level + b.level;
        pour_one_dose(&mut a, &mut b, Some(&config));
        assert_eq!(a.level + b.level, before);
        assert!(b.level <= b.max_doses);
        assert_eq!(a.content.is_none(), a.level == 0);
        assert_eq!(b.content.is_none(), b.level == 0);
    }
    assert_eq!(b.level, 4);
    assert_eq!(a.level, 1);
}

#[test]
fn mixing_is_symmetric_with_one_recipe_orientation() {
    let config = tavern_recipes();
    let a = config.mix(&"Wine".to_string(), &"Unicorn Tear".to_string());
    let b = config.mix(&"Unicorn Tear".to_string(), &"Wine".to_string());
    assert_eq!(a, b);
    assert_eq!(a.as_deref(), Some("Sangria"));
    assert_eq!(config.mix(&"Wine".to_string(), &"Wine".to_string()), None);
}

#[test]
fn bottle_tags_follow_the_level() {
    let expected = ["Empty", "1/5", "2/5", "3/5", "4/5", "Full", "Full"];
    for (level, tag) in expected.iter().enumerate() {
        let b = bottle("Wine", level);
        assert_eq!(liquid_visual_tag(&b, None).as_deref(), Some(*tag));
    }
}

#[test]
fn glass_tag_is_texture_and_clamped_level() {
    let config = tavern_recipes();
    assert_eq!(
        liquid_visual_tag(&glass(Some("Wine"), 2), Some(&config)).as_deref(),
        Some("mug_wine2")
    );
    assert_eq!(
        liquid_visual_tag(&glass(Some("Sangria"), 4), Some(&config)).as_deref(),
        Some("mug_red4")
    );
    let mut overfull = glass(Some("Sangria"), 7);
    overfull.max_doses = 9;
    assert_eq!(liquid_visual_tag(&overfull, Some(&config)).as_deref(), Some("mug_red4"));
    assert_eq!(
        liquid_visual_tag(&glass(Some("Wine"), 0), Some(&config)).as_deref(),
        Some("mug_wine1")
    );
}

#[test]
fn empty_glass_tag() {
    let config = tavern_recipes();
    assert_eq!(liquid_visual_tag(&glass(None, 0), Some(&config)).as_deref(), Some("Empty"));
    assert_eq!(liquid_visual_tag(&glass(None, 0), None).as_deref(), Some("Empty"));
}

#[test]
fn glass_tag_unchanged_without_configuration() {
    assert_eq!(liquid_visual_tag(&glass(Some("Wine"), 2), None), None);
}

#[test]
fn pour_target_skips_the_held_entity_and_non_containers() {
    let under = vec![(7, true), (3, false), (9, true), (11, true)];
    assert_eq!(pour_target(7, &under), Some(9));
    assert_eq!(pour_target(9, &under), Some(7));
    assert_eq!(pour_target(1, &vec![(1, true), (2, false)]), None);
    assert_eq!(pour_target(1, &vec![]), None);
}

#[test]
fn handle_pouring_needs_a_press_and_a_held_container() {
    let under = vec![(7, true), (9, true)];
    assert_eq!(handle_pouring(true, Some(7), &under), Some((7, 9)));
    assert_eq!(handle_pouring(false, Some(7), &under), None);
    assert_eq!(handle_pouring(true, None, &under), None);
    assert_eq!(handle_pouring(true, Some(7), &vec![(7, true)]), None);
}

#[test]
fn starting_containers() {
    let g = counter_glass();
    assert!(g.is_glass);
    assert_eq!(g.level, 0);
    assert_eq!(g.max_doses, 4);
    assert_eq!(g.content, None);
    let bottles = alchemy_bottles();
    let names: Vec<&str> = bottles.iter().map(|b| b.content.as_deref().unwrap()).collect();
    assert_eq!(names, vec!["Wine", "Unicorn Tear", "Mandrake Root"]);
    for b in &bottles {
        assert_eq!(b.level, 5);
        assert_eq!(b.max_doses, 5);
        assert!(!b.is_glass);
    }
    let b = full_bottle("Ale", 2);
    assert_eq!(b.content.as_deref(), Some("Ale"));
    assert_eq!(b.level, 2);
}
