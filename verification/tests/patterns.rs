//! The utility types beside the protocol: commands, the interpreter, the
//! strategy adder, the station mediator, the player and the small helpers.

use std::sync::Mutex;

use voting::command::{DrawCanvas, DrawCommand, MacroCommand};
use voting::config::MyConfiguration;
use voting::constructors::Second;
use voting::db::DatabaseError;
use voting::enums::{a_to_b, swizzle, MultiVariantEnum, MyEnum};
use voting::interpreter::Interpreter;
use voting::mediator::{FreightTrain, Mediator, PassengerTrain, Train, TrainStation};
use voting::player::Player;
use voting::singleton::{change, do_a_call};
use voting::strategy::Addr;
use voting::vowels::{say_hello, three_vowels};

#[test]
fn test_safe_singleton() {
    let mut global_state = 0u32;

    change(&mut global_state);

    println!("Final state: {}", global_state);
}

#[test]
fn test_lazy_singleton() {
    let array: Mutex<Vec<u8>> = Mutex::new(vec![]);

    do_a_call(&mut array.lock().unwrap());
    do_a_call(&mut array.lock().unwrap());
    do_a_call(&mut array.lock().unwrap());

    println!("Called {}", array.lock().unwrap().len());
}

#[test]
fn test_migration() {}

#[test]
fn test_draw() {
    let mut history = MacroCommand::new();
    let canvas = DrawCanvas::new();

    let cmd1 = DrawCommand::new(canvas, 1, 1);
    let cmd2 = DrawCommand::new(canvas, 2, 2);

    history.append(cmd1);
    history.append(cmd2);

    println!("-------------");
    for (x, y) in history.execute() {
        println!("draw(x: {}, y: {})", x, y);
    }
    println!();

    println!("-----undo----");
    history.undo();
    for (x, y) in history.execute() {
        println!("draw(x: {}, y: {})", x, y);
    }

    println!("-----clear---");
    history.clear();
    for (x, y) in history.execute() {
        println!("draw(x: {}, y: {})", x, y);
    }
}

#[test]
fn test_command_stack() {
    let mut history = MacroCommand::new();
    let canvas = DrawCanvas::new();
    history.append(DrawCommand::new(canvas, 1, 1));
    history.append(DrawCommand::new(canvas, 2, 2));
    assert_eq!(history.execute(), vec![(1, 1), (2, 2)]);
    history.undo();
    assert_eq!(history.execute(), vec![(1, 1)]);
    history.clear();
    assert_eq!(history.execute(), vec![]);
}

#[test]
fn test_interpreter() {
    let mut itr = Interpreter::new("2+3");
    let mut postfix = String::new();
    itr.interpret(&mut postfix);
    assert_eq!(postfix, "23+");

    itr = Interpreter::new("1-2+3-4");
    postfix.clear();
    itr.interpret(&mut postfix);
    assert_eq!(postfix, "12-3+4-");
}

#[test]
fn test_single_term() {
    let mut itr = Interpreter::new("7");
    let mut postfix = String::new();
    itr.interpret(&mut postfix);
    assert_eq!(postfix, "7");
}

#[test]
fn test_strategy_pattern2() {
    let arith_addr = |x: u8, y: u8| x + y;
    let bool_addr = |x: u8, y: u8| {
        if x == 1 || y == 1 {
            1
        } else {
            0
        }
    };

    let custom_adder = |x: u8, y: u8| 2 * x + y;

    assert_eq!(9, Addr::add(4, 5, arith_addr));
    assert_eq!(0, Addr::add(0, 0, bool_addr));
    assert_eq!(5, Addr::add(1, 3, custom_adder));
}

#[test]
fn test_station_mediator() {
    let mut station = TrainStation::default();
    let mut train1 = PassengerTrain::new("Train 1");
    let mut train2 = FreightTrain::new("Train 2");

    // the first train takes the platform, the second waits
    assert!(train1.arrive(&mut station));
    assert!(!train2.arrive(&mut station));

    // once the first departs, the queued train is promoted
    train1.depart(&mut station);
    train2.depart(&mut station);

    // the platform is free again, so a new arrival is accepted
    let mut train3 = PassengerTrain::new("Train 3");
    assert!(train3.arrive(&mut station));
}

#[test]
fn test_departure_of_absent_train() {
    let mut station = TrainStation::default();
    let mut train1 = PassengerTrain::new("Train 1");
    assert!(train1.arrive(&mut station));
    // a stranger's departure changes nothing
    let mut other = FreightTrain::new("Train 9");
    other.depart(&mut station);
    // the platform is still taken
    let mut train2 = FreightTrain::new("Train 2");
    assert!(!train2.arrive(&mut station));
}

#[test]
fn test_train_names() {
    let train1 = PassengerTrain::new("Train 1");
    let train2 = FreightTrain::new("Train 2");
    assert_eq!(train1.name(), "Train 1");
    assert_eq!(train2.name(), "Train 2");
}

#[test]
fn test_player_navigation() {
    let mut player = Player::default();
    assert_eq!(player.track().title, "Track 1");
    player.next_track();
    assert_eq!(player.track().title, "Track 2");
    player.prev_track();
    assert_eq!(player.track().title, "Track 1");
    // both directions wrap around
    player.prev_track();
    assert_eq!(player.track().title, "Track 4");
    player.next_track();
    assert_eq!(player.track().title, "Track 1");
}

#[test]
fn test_player_cursor() {
    let mut player = Player::default();
    assert_eq!(player.track().cursor, 0);
    player.play();
    assert_eq!(player.track().cursor, 10);
    player.pause();
    assert_eq!(player.track().cursor, 43);
    player.rewind();
    assert_eq!(player.track().cursor, 0);
    assert_eq!(player.track().duration, 180);
}

#[test]
fn test_second() {
    let s = Second::new(42);
    assert_eq!(42, s.value());
    let d = Second::default();
    assert_eq!(0, d.value());
}

#[test]
fn test_configuration_defaults() {
    let conf = MyConfiguration::default();
    assert_eq!(conf.output, None);
    assert!(conf.search_path.is_empty());
    assert_eq!(conf.timeout_ms, 0);
    assert!(!conf.check);

    let mut conf1 = MyConfiguration::default();
    conf1.check = true;
    assert_ne!(conf, conf1);
}

#[test]
fn test_database_error_codes() {
    assert_eq!(DatabaseError::IsReadOnly.code(), 1);
    assert_eq!(DatabaseError::IOError(String::from("broken pipe")).code(), 2);
    assert_eq!(
        DatabaseError::FileCorrupted(String::from("bad page")).code(),
        3
    );
}

#[test]
fn test_three_vowels() {
    assert!(!three_vowels("Ferris"));
    assert!(three_vowels("Curious"));
    assert!(three_vowels("aei"));
    assert!(!three_vowels("ab"));
    assert!(!three_vowels(""));
    // a broken run does not count
    assert!(!three_vowels("aebei"));
}

#[test]
fn test_say_hello() {
    assert_eq!(say_hello("Ichiro"), "Hello Ichiro!");
}

#[test]
fn test_a_to_b() {
    let mut e = MyEnum::A {
        name: String::from("flag"),
        x: 0,
    };
    a_to_b(&mut e);
    assert!(matches!(e, MyEnum::B { ref name } if name == "flag"));

    let mut kept = MyEnum::A {
        name: String::from("flag"),
        x: 5,
    };
    a_to_b(&mut kept);
    assert!(matches!(kept, MyEnum::A { ref name, x: 5 } if name == "flag"));
}

#[test]
fn test_swizzle() {
    let mut e = MultiVariantEnum::A {
        name: String::from("left"),
    };
    swizzle(&mut e);
    assert!(matches!(e, MultiVariantEnum::B { ref name } if name == "left"));
    swizzle(&mut e);
    assert!(matches!(e, MultiVariantEnum::A { ref name } if name == "left"));

    let mut c = MultiVariantEnum::C;
    swizzle(&mut c);
    assert!(matches!(c, MultiVariantEnum::D));
}

#[test]
fn test_singleton_counts() {
    let mut state = 7u32;
    change(&mut state);
    assert_eq!(state, 8);

    let mut array: Vec<u8> = Vec::new();
    do_a_call(&mut array);
    do_a_call(&mut array);
    assert_eq!(array, vec![1, 1]);
}
