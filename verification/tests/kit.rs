use castiron::ability::Ability;
use castiron::actor::Actor;
use castiron::context::Context;
use castiron::coords::{CoordsError, Position};
use castiron::environment::coords::{Coords, ParamError, ValidityError};
use castiron::environment::world_grid::{Direction, WorldGrid};
use castiron::fileops::{
    contains, find_mention, join_lines, put_ability, put_actor, read_actor, split_lines,
    starts_with, stands_at, template, write_ability, write_actor,
};
use castiron::hex_directions::Side;
use castiron::logger::{
    padded_message, Command, FilterLevel, Instance, LogReceiver, MsgTuple, OutputType,
};
use castiron::text::{decimal_text, digit_text, signed_decimal_text, value_of_digit};
use castiron::Disableable;

fn owned(lines: &[&str]) -> Vec<String> {
    lines.iter().map(|l| l.to_string()).collect()
}

#[test]
fn numbers_in_text() {
    assert_eq!(decimal_text(0), "0");
    assert_eq!(decimal_text(7), "7");
    assert_eq!(decimal_text(10), "10");
    assert_eq!(decimal_text(1905), "1905");
    assert_eq!(decimal_text(u64::MAX), u64::MAX.to_string());
    assert_eq!(signed_decimal_text(0), "0");
    assert_eq!(signed_decimal_text(-1), "-1");
    assert_eq!(signed_decimal_text(-120), "-120");
    assert_eq!(signed_decimal_text(i64::MIN), i64::MIN.to_string());
    assert_eq!(signed_decimal_text(i64::MAX), i64::MAX.to_string());
    assert_eq!(digit_text(4), "4");
    assert_eq!(value_of_digit('9'), 9);
    assert_eq!(value_of_digit('a'), 10);
}

#[test]
fn positions_and_errors_in_text() {
    let ctx = Context::default();
    assert_eq!(Position::default().to_text(), "(0,0,0)");
    assert_eq!(Position::new(3, -3, 0, &ctx).unwrap().to_text(), "(3,-3,0)");
    assert_eq!(Position::new(-10, 0, 10, &ctx).unwrap().to_text(), "(-10,0,10)");
    assert_eq!(
        CoordsError::SumNotZero(1, -2, 3).message(),
        "Position components (1, -2, 3) do not add up to 0."
    );
    assert_eq!(CoordsError::OutOfBounds.message(), "Position out of bounds");
    assert_eq!(
        CoordsError::InvalidParam("dist_from_edge".to_string()).message(),
        "Invalid Parameter: dist_from_edge"
    );
}

#[test]
fn first_interface_to_cells() {
    let ctx = Context::default();
    let mut actual = Coords::default();
    assert_eq!(actual, Coords::default());
    assert_eq!((actual.x(), actual.y(), actual.z()), (0, 0, 0));
    assert_eq!(Coords::new(1, 1, 1, &ctx), Err(ValidityError));
    assert_eq!(Coords::new(11, -11, 0, &ctx), Err(ValidityError));
    let expected = Coords::new(3, -3, 0, &ctx).unwrap();
    for _ in 0..3 {
        actual.move_one(Side::SouthEast, &ctx).unwrap();
    }
    assert_eq!(actual, expected);
    for _ in 0..7 {
        actual.move_one(Side::SouthEast, &ctx).unwrap();
    }
    assert_eq!(actual.move_one(Side::SouthEast, &ctx), Err(ValidityError));
    assert_eq!((actual.x(), actual.y(), actual.z()), (10, -10, 0));
    let sum = expected + Coords::new(-1, 5, -4, &ctx).unwrap();
    assert_eq!((sum.x(), sum.y(), sum.z()), (2, 2, -4));
    let difference = expected - Coords::new(-1, 5, -4, &ctx).unwrap();
    assert_eq!((difference.x(), difference.y(), difference.z()), (4, -8, 4));
    assert_eq!(Coords::rand_constrained(&ctx, 10), Ok(Coords::default()));
    assert_eq!(Coords::rand_constrained(&ctx, 11), Err(ParamError));
    for _ in 0..100 {
        let c = Coords::rand(&ctx);
        assert_eq!(c.x() + c.y() + c.z(), 0);
        assert!(Coords::new(c.x(), c.y(), c.z(), &ctx).is_ok());
        let inner = Coords::rand_constrained(&ctx, 9).unwrap();
        assert!(inner.x().abs() <= 1 && inner.y().abs() <= 1 && inner.z().abs() <= 1);
    }
}

#[test]
fn world_grid_and_compass() {
    assert_eq!(WorldGrid::new(12).get_size(), 12);
    assert_eq!(Direction::NorthEast.hex_side(), Some(30));
    assert_eq!(Direction::North.hex_side(), Some(90));
    assert_eq!(Direction::SouthEast.hex_side(), Some(330));
    assert_eq!(Direction::East.hex_side(), None);
    assert_eq!(Direction::West.hex_side(), None);
    assert_eq!(Direction::East.hex_vertex(), Some(0));
    assert_eq!(Direction::NorthEast.hex_vertex(), Some(60));
    assert_eq!(Direction::SouthEast.hex_vertex(), Some(300));
    assert_eq!(Direction::North.hex_vertex(), None);
    assert_eq!(Direction::South.hex_vertex(), None);
}

#[test]
fn logger_filters() {
    let (logger, first) = Instance::new(FilterLevel::Warning.value(), OutputType::File);
    assert!(matches!(first, Command::SetOutput(OutputType::File)));
    assert_eq!(logger.filter(), 0x08);
    assert!(logger.log_msg(FilterLevel::Info, "f".into(), 1, "low".into()).is_none());
    match logger.log_msg(FilterLevel::Warning, "f".into(), 12, "at the bar".into()) {
        Some(Command::LogMsg(MsgTuple { level, fn_name, line, msg })) => {
            assert_eq!(level, FilterLevel::Warning);
            assert_eq!(fn_name, "f");
            assert_eq!(line, 12);
            assert_eq!(msg, "at the bar");
        }
        other => panic!("unexpected {:?}", other),
    }
    assert!(logger.log_msg(FilterLevel::Fatal, "f".into(), 1, "high".into()).is_some());
    assert!(logger.log_cmd(Command::SetOutput(OutputType::Both)).is_some());
    let mut logger = logger;
    logger.set_filter(FilterLevel::Trace.value());
    assert!(logger.log_msg(FilterLevel::Trace, "f".into(), 1, "all".into()).is_some());
    logger.disable();
    assert!(logger.log_msg(FilterLevel::Fatal, "f".into(), 1, "none".into()).is_none());
    assert!(logger.log_cmd(Command::SetOutput(OutputType::Both)).is_none());
    assert_eq!(Instance::default().filter(), 0x04);
    let (debug, output) = Instance::debug_default();
    assert_eq!(debug.filter(), 0x02);
    assert!(matches!(output, Command::SetOutput(OutputType::Both)));
    let silent = Instance::disabled();
    assert_eq!(silent.filter(), 0x20);
    assert!(silent.log_msg(FilterLevel::Fatal, "f".into(), 1, "none".into()).is_none());
    assert_eq!(String::from(FilterLevel::Trace), "TRACE");
    assert_eq!(String::from(FilterLevel::Warning), "WARNING");
    let levels = [1, 2, 4, 8, 16, 32];
    let all = [
        FilterLevel::Trace,
        FilterLevel::Debug,
        FilterLevel::Info,
        FilterLevel::Warning,
        FilterLevel::Error,
        FilterLevel::Fatal,
    ];
    for (level, value) in all.iter().zip(levels.iter()) {
        assert_eq!(level.value(), *value);
    }
}

#[test]
fn receiver_routes_messages() {
    let message = |text: &str| {
        Command::LogMsg(MsgTuple {
            level: FilterLevel::Info,
            fn_name: "f".into(),
            line: 3,
            msg: text.into(),
        })
    };
    let mut receiver = LogReceiver::new(OutputType::Both);
    let both = receiver.receive(message("both")).unwrap();
    assert!(both.to_console && both.to_file);
    assert_eq!(both.msg.msg, "both");
    assert!(receiver.receive(Command::SetOutput(OutputType::Console)).is_none());
    let console = receiver.receive(message("console")).unwrap();
    assert!(console.to_console && !console.to_file);
    assert!(receiver.receive(Command::SetOutput(OutputType::File)).is_none());
    let file = receiver.receive(message("file")).unwrap();
    assert!(!file.to_console && file.to_file);
    assert!(receiver.receive(Command::SetOutput(OutputType::Neither)).is_none());
    let neither = receiver.receive(message("neither")).unwrap();
    assert!(!neither.to_console && !neither.to_file);
    assert_eq!(OutputType::Both.bits(), 3);
    assert_eq!(OutputType::File.bits(), 2);
    assert_eq!(padded_message("This is an INFO message."), "   This is an INFO message.");
}

#[test]
fn text_search() {
    assert!(starts_with("abc:rest", "abc"));
    assert!(starts_with("abc", ""));
    assert!(!starts_with("ab", "abc"));
    assert!(!starts_with("xabc", "abc"));
    assert!(contains("one _ABILITIES_ two", "_ABILITIES_"));
    assert!(contains("tail", "il"));
    assert!(contains("", ""));
    assert!(!contains("_ABILITIE_", "_ABILITIES_"));
    assert!(stands_at("hello", "llo", 2));
    assert!(!stands_at("hello", "llo", 3));
    assert!(!stands_at("hello", "llo", 9));
}

#[test]
fn lines_are_cut_and_joined() {
    assert_eq!(split_lines(""), owned(&[""]));
    assert_eq!(split_lines("one"), owned(&["one"]));
    assert_eq!(split_lines("one\ntwo"), owned(&["one", "two"]));
    assert_eq!(split_lines("one\n\ntwo\n"), owned(&["one", "", "two", ""]));
    assert_eq!(split_lines(&template()), owned(&["_ACTORS_", "_ABILITIES_"]));
    for text in ["", "one", "\n", "a\nb\n\nc", "_ACTORS_\n_ABILITIES_"] {
        assert_eq!(join_lines(&split_lines(text)), text);
    }
    assert_eq!(join_lines(&Vec::new()), "");
}

#[test]
fn lines_of_actors_and_abilities_are_put_in_place() {
    let mut lines = owned(&["_ACTORS_", "_ABILITIES_"]);
    put_actor(&mut lines, "u1", "u1:John".to_string());
    assert_eq!(lines, owned(&["_ACTORS_", "u1:John", "_ABILITIES_"]));
    put_actor(&mut lines, "u2", "u2:Jane".to_string());
    assert_eq!(lines, owned(&["_ACTORS_", "u1:John", "u2:Jane", "_ABILITIES_"]));
    put_actor(&mut lines, "u1", "u1:Johnny".to_string());
    assert_eq!(lines, owned(&["_ACTORS_", "u1:Johnny", "u2:Jane", "_ABILITIES_"]));
    put_ability(&mut lines, "a1", "a1:Bolt".to_string());
    assert_eq!(lines, owned(&["_ACTORS_", "u1:Johnny", "u2:Jane", "_ABILITIES_", "a1:Bolt"]));
    put_ability(&mut lines, "a1", "a1:Null".to_string());
    assert_eq!(lines, owned(&["_ACTORS_", "u1:Johnny", "u2:Jane", "_ABILITIES_", "a1:Null"]));
    assert_eq!(find_mention(&lines, "Jane", 0), 2);
    assert_eq!(find_mention(&lines, "Jane", 3), 5);
    assert_eq!(find_mention(&lines, "nobody", 0), 5);
    let mut headless = owned(&["u1:John"]);
    put_actor(&mut headless, "u9", "u9:New".to_string());
    assert_eq!(headless, owned(&["u1:John"]));
    let mut empty: Vec<String> = Vec::new();
    put_ability(&mut empty, "a1", "a1:Bolt".to_string());
    assert!(empty.is_empty());
}

#[test]
fn data_file_is_rewritten() {
    let mut player_one = Actor::new_name_only("John Public");
    let written = write_actor(&template(), &player_one);
    assert_eq!(written, format!("_ACTORS_\n{}\n_ABILITIES_", player_one.to_text()));
    assert_eq!(read_actor(&written, &player_one), Some(player_one.to_text()));
    let stranger = Actor::new_name_only("Nobody");
    assert_eq!(read_actor(&written, &stranger), None);
    player_one.set_name("CJ McAllister");
    let updated = write_actor(&written, &player_one);
    assert_eq!(updated, format!("_ACTORS_\n{}\n_ABILITIES_", player_one.to_text()));
    let null = Ability::new_name_only("Null");
    let with_null = write_ability(&updated, &null);
    assert_eq!(
        with_null,
        format!("_ACTORS_\n{}\n_ABILITIES_\n{}", player_one.to_text(), null.to_text())
    );
    let mut changed = null;
    changed.set_potency(20);
    let rewritten = write_ability(&with_null, &changed);
    assert_eq!(
        rewritten,
        format!("_ACTORS_\n{}\n_ABILITIES_\n{}", player_one.to_text(), changed.to_text())
    );
}
