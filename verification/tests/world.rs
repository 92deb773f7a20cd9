use castiron::ability::aspect::{Aesthetics, Aspects, Method, Morality, School};
use castiron::ability::Ability;
use castiron::actor::Actor;
use castiron::context::{Context, ContextBuilder};
use castiron::coords::{CoordsError, Position};
use castiron::element::{Element, Elemental};
use castiron::hex_directions::Side;
use castiron::mechanics::resource::{Resource, State};
use castiron::mechanics::weather::Intensity;
use castiron::{Plottable, Randomizable};

#[test]
fn context_defaults_and_builder() {
    let ctx = Context::default();
    assert_eq!(ctx.grid_radius(), 10);
    assert_eq!(ctx.max_obstacle_len(), 10);
    assert_eq!(ctx.max_rand_attempts(), 10);
    assert_eq!(ctx.max_resource_radius(), 4);
    let mut builder = ContextBuilder::default();
    builder.grid_radius(7).max_obstacle_len(3).max_rand_attempts(2).max_resource_radius(1);
    let built = builder.build();
    assert_eq!(built.grid_radius(), 7);
    assert_eq!(built.max_obstacle_len(), 3);
    assert_eq!(built.max_rand_attempts(), 2);
    assert_eq!(built.max_resource_radius(), 1);
    builder.grid_radius(8);
    assert_eq!(builder.build().grid_radius(), 8);
    assert_eq!(built.grid_radius(), 7);
}

#[test]
fn element_values_and_names() {
    assert_eq!(Element::default(), Element::Unset);
    assert_eq!(Element::Unset.index(), 0);
    assert_eq!(Element::Dark.index(), 8);
    assert_eq!(Element::from_index(1), Element::Fire);
    assert_eq!(Element::from_index(5), Element::Electric);
    assert_eq!(Element::from_index(8), Element::Dark);
    assert_eq!(String::from(Element::Unset), "Unset");
    assert_eq!(String::from(Element::Water), "Water");
    assert_eq!(String::from(Element::Light), "Light");
    assert_eq!(Element::from_roll(0), Element::Fire);
    assert_eq!(Element::from_roll(7), Element::Dark);
    assert_eq!(Element::from_roll(8), Element::Fire);
    assert_eq!(Element::from_roll(usize::MAX), Element::from_index(usize::MAX % 8 + 1));
    let mut seen = std::collections::HashSet::new();
    for _ in 0..300 {
        let e = Element::sample();
        assert_ne!(e, Element::Unset);
        seen.insert(e);
    }
    assert!(seen.len() > 1);
}

#[test]
fn aspects_in_text() {
    let aspects = Aspects::new(
        Aesthetics::Impressive,
        Element::Electric,
        Method::Wand,
        Morality::Neutral,
        School::Destruction,
    );
    assert_eq!(aspects.to_code(), "25221");
    assert!(Aspects::is_valid_code("25221"));
    assert_eq!(Aspects::from_code("25221"), aspects);
    assert_eq!(Aspects::from_code("58437 and more"), Aspects::new(
        Aesthetics::Subtle,
        Element::Dark,
        Method::Vocal,
        Morality::Evil,
        School::Song,
    ));
    assert_eq!(Aspects::default().to_code(), "00000");
    assert!(!Aspects::is_valid_code("00000"));
    assert!(!Aspects::is_valid_code("2522"));
    assert!(!Aspects::is_valid_code("65221"));
    assert!(!Aspects::is_valid_code("29221"));
    assert!(!Aspects::is_valid_code("25521"));
    assert!(!Aspects::is_valid_code("25241"));
    assert!(!Aspects::is_valid_code("25228"));
    assert!(!Aspects::is_valid_code("2x221"));
}

#[test]
fn aspect_values() {
    assert_eq!(Aesthetics::from_index(0), Aesthetics::Unset);
    assert_eq!(Aesthetics::from_index(5), Aesthetics::Subtle);
    assert_eq!(Method::from_index(4), Method::Vocal);
    assert_eq!(Morality::from_index(3), Morality::Evil);
    assert_eq!(School::from_index(7), School::Song);
    assert_eq!(School::Illusion.index(), 5);
    assert_eq!(Aesthetics::default(), Aesthetics::Unset);
    let ctx = Context::default();
    for _ in 0..100 {
        assert!(Aesthetics::rand(&ctx).index() <= 5);
        assert!(Method::rand(&ctx).index() <= 4);
        assert!(Morality::rand(&ctx).index() <= 3);
        assert!(School::rand(&ctx).index() <= 7);
        assert_ne!(Aspects::rand(&ctx).element, Element::Unset);
    }
}

#[test]
fn ability_setters_and_getters() {
    let mut lightning_bolt = Ability::new_name_only("Lightning Bolt");
    assert_eq!(lightning_bolt.name(), "Lightning Bolt");
    assert_eq!(lightning_bolt.potency(), 0);
    assert_eq!(*lightning_bolt.aspects(), Aspects::default());
    let uid = *lightning_bolt.uid();
    lightning_bolt.set_potency(20);
    lightning_bolt.set_aesthetics(Aesthetics::Impressive);
    lightning_bolt.set_element(Element::Electric);
    lightning_bolt.set_method(Method::Wand);
    lightning_bolt.set_morality(Morality::Neutral);
    lightning_bolt.set_school(School::Destruction);
    assert_eq!(lightning_bolt.potency(), 20);
    assert_eq!(*lightning_bolt.aesthetics(), Aesthetics::Impressive);
    assert_eq!(*lightning_bolt.element(), Element::Electric);
    assert_eq!(*lightning_bolt.method(), Method::Wand);
    assert_eq!(*lightning_bolt.morality(), Morality::Neutral);
    assert_eq!(*lightning_bolt.school(), School::Destruction);
    lightning_bolt.set_name("Chain Lightning");
    assert_eq!(lightning_bolt.name(), "Chain Lightning");
    assert_eq!(*lightning_bolt.uid(), uid);
    lightning_bolt.set_aspects(Aspects::default());
    assert_eq!(*lightning_bolt.school(), School::Unset);
    assert_eq!(lightning_bolt.potency(), 20);
}

#[test]
fn abilities_are_equal_by_identity() {
    let a = Ability::new("Null", 3, Aspects::default());
    let b = Ability::new("Null", 3, Aspects::default());
    assert!(a == a);
    assert!(a != b);
    assert_eq!(a.uid()[6] >> 4, 4);
    assert_eq!(a.uid()[8] >> 6, 2);
}

#[test]
fn ability_line() {
    let mut bolt = Ability::new_name_only("Lightning Bolt");
    bolt.set_potency(20);
    bolt.set_element(Element::Electric);
    assert_eq!(bolt.line_with("id"), "id:Lightning Bolt:20:05000");
    let text = bolt.to_text();
    assert_eq!(text.len(), 36 + ":Lightning Bolt:20:05000".len());
    assert!(text.ends_with(":Lightning Bolt:20:05000"));
    assert_eq!(text.matches('-').count(), 4);
    assert_ne!(text, Ability::new_name_only("Lightning Bolt").to_text());
}

#[test]
fn random_abilities_and_actors() {
    let ctx = Context::default();
    let ability = Ability::rand(&ctx);
    assert_eq!(ability.name().len(), 10);
    assert!(ability.name().chars().all(|c| c.is_ascii_alphanumeric()));
    assert_ne!(*ability.element(), Element::Unset);
    let actor = Actor::rand(&ctx);
    assert_eq!(actor.name().len(), 10);
    assert!(actor.name().chars().all(|c| c.is_ascii_alphanumeric()));
    assert_eq!(*actor.cur_fatigue(), 0);
    assert_eq!(actor.abilities().len(), 5);
    let p = actor.pos();
    assert_eq!(p.x() + p.y() + p.z(), 0);
    assert!(p.x().abs() <= 10 && p.y().abs() <= 10 && p.z().abs() <= 10);
    assert_ne!(Actor::rand(&ctx).name(), actor.name());
}

#[test]
fn actor_moves_and_learns() {
    let ctx = Context::default();
    let mut player_one = Actor::new_name_only("CJ McAllister");
    assert_eq!(player_one.name(), "CJ McAllister");
    assert_eq!(*player_one.pos(), Position::default());
    assert_eq!(*player_one.origin(), Position::default());
    assert_eq!(*player_one.cur_fatigue(), 0);
    assert!(player_one.abilities().is_empty());
    player_one.move_one_cell(Side::South, &ctx).unwrap();
    assert_eq!((player_one.pos().x(), player_one.pos().y(), player_one.pos().z()), (0, -1, 1));
    for _ in 0..9 {
        player_one.move_one_cell(Side::South, &ctx).unwrap();
    }
    assert!(matches!(player_one.move_one_cell(Side::South, &ctx), Err(CoordsError::OutOfBounds)));
    assert_eq!(player_one.pos().y(), -10);
    player_one.add_ability(Ability::new_name_only("Null"));
    player_one.add_ability(Ability::new_name_only("Lightning Bolt"));
    assert_eq!(player_one.abilities().len(), 2);
    assert_eq!(player_one.abilities()[1].name(), "Lightning Bolt");
    player_one.set_name("John Public");
    assert_eq!(player_one.name(), "John Public");
    let placed = Actor::new("Jane", Position::new(1, 2, -3, &ctx).unwrap(), 7, Vec::new());
    assert_eq!(*placed.cur_fatigue(), 7);
    assert_eq!(placed.pos().z(), -3);
    assert_eq!(placed.uid().len(), 16);
}

#[test]
fn actor_line() {
    let ctx = Context::default();
    let mut actor = Actor::new("John Public", Position::new(1, 2, -3, &ctx).unwrap(), 7, Vec::new());
    assert_eq!(actor.line_with("id"), "id:John Public:(1,2,-3):7:|");
    let null = Ability::new_name_only("Null");
    let null_line = null.to_text();
    actor.add_ability(null);
    assert_eq!(actor.line_with("id"), format!("id:John Public:(1,2,-3):7:|{};", null_line));
    let bolt = Ability::new_name_only("Bolt");
    let bolt_line = bolt.to_text();
    actor.add_ability(bolt);
    assert_eq!(
        actor.line_with("id"),
        format!("id:John Public:(1,2,-3):7:|{}{};", null_line, bolt_line)
    );
    assert!(actor.to_text().ends_with(&format!(":John Public:(1,2,-3):7:|{}{};", null_line, bolt_line)));
}

#[test]
fn resource_states() {
    let ctx = Context::default();
    let mut resource = Resource::new(Element::Water, State::Partial, Position::default(), 2);
    assert_eq!(resource.element(), Element::Water);
    assert_eq!(resource.state(), State::Partial);
    assert_eq!(resource.radius(), 2);
    assert_eq!(*resource.origin(), Position::default());
    assert_eq!(resource.consume(), Some(2));
    assert_eq!(resource.state(), State::Low);
    assert_eq!(resource.consume(), Some(1));
    assert_eq!(resource.state(), State::Depleted);
    assert_eq!(resource.consume(), None);
    assert_eq!(resource.state(), State::Depleted);
    resource.replenish(3);
    assert_eq!(resource.state(), State::High);
    resource.replenish(0);
    assert_eq!(resource.state(), State::High);
    resource.replenish(1);
    assert_eq!(resource.state(), State::Full);
    resource.replenish(255);
    assert_eq!(resource.state(), State::Overflow);
    assert_eq!(resource.consume(), Some(5));
    assert_eq!(resource.state(), State::Full);
    resource.intensify(3);
    assert_eq!(resource.radius(), 5);
    resource.weaken(5);
    assert_eq!(resource.radius(), 0);
    let blank = Resource::default();
    assert_eq!(blank.state(), State::Depleted);
    assert_eq!(blank.element(), Element::Unset);
    assert_eq!(blank.radius(), 0);
    assert_ne!(blank.uid(), Resource::default().uid());
    assert_eq!(State::from_index(4), State::Full);
    assert_eq!(State::Overflow.index(), 5);
    assert_eq!(State::from_roll(0), State::Low);
    assert_eq!(State::from_roll(4), State::Overflow);
    assert_eq!(State::from_roll(5), State::Low);
    assert_eq!(State::from_roll(255), State::Low);
    for _ in 0..200 {
        let r = Resource::rand(&ctx);
        assert_ne!(r.state(), State::Depleted);
        assert_ne!(r.element(), Element::Unset);
        assert!(r.radius() < 4);
        let reach = (10 - r.radius()) as i32;
        let o = r.origin();
        assert!(o.x().abs() <= reach && o.y().abs() <= reach && o.z().abs() <= reach);
        assert_ne!(State::sample(), State::Depleted);
    }
}

#[test]
fn intensity_bands() {
    assert_eq!(Intensity::default(), Intensity::Calm);
    assert_eq!(Intensity::from(i64::MIN), Intensity::Calm);
    assert_eq!(Intensity::from(-1), Intensity::Calm);
    assert_eq!(Intensity::from(0), Intensity::Calm);
    assert_eq!(Intensity::from(63), Intensity::Calm);
    assert_eq!(Intensity::from(64), Intensity::Mild);
    assert_eq!(Intensity::from(127), Intensity::Mild);
    assert_eq!(Intensity::from(128), Intensity::Strong);
    assert_eq!(Intensity::from(191), Intensity::Strong);
    assert_eq!(Intensity::from(192), Intensity::Severe);
    assert_eq!(Intensity::from(255), Intensity::Severe);
    assert_eq!(Intensity::from(256), Intensity::Max);
    assert_eq!(Intensity::from(i64::MAX), Intensity::Max);
    assert_eq!(String::from(Intensity::Calm), "None");
    assert_eq!(String::from(Intensity::Severe), "Severe");
}
