use rust_examples::enums::{
    catch_patterns, control_flow, pattern_matching, pattern_matching_options, plus_one,
    value_in_cents, ChangeColorMessage, Coin, HatAction, IpAddr, Message, MoveMessage,
    QuitMessage, UsState, WriteMessage,
};

#[test]
fn loopback_addresses_and_message() {
    let (home, loopback, m) = pattern_matching();
    assert!(matches!(home, IpAddr::V4(127, 0, 0, 1)));
    match loopback {
        IpAddr::V6(s) => assert_eq!(s, "::1"),
        IpAddr::V4(..) => panic!("expected an IPv6 address"),
    }
    match m {
        Message::Write(s) => assert_eq!(s, "hello"),
        _ => panic!("expected a Write message"),
    }
}

#[test]
fn message_variants_and_structs() {
    Message::Quit.call();
    Message::Move { x: 1, y: 2 }.call();
    Message::ChangeColor(0, 0, 255).call();
    let _ = QuitMessage;
    assert_eq!(MoveMessage { x: 1, y: 2 }.y, 2);
    assert_eq!(WriteMessage(String::from("w")).0, "w");
    assert_eq!(ChangeColorMessage(1, 2, 3).2, 3);
}

#[test]
fn options_present_and_absent() {
    assert_eq!(pattern_matching_options(), (Some(5), Some("a"), None));
}

#[test]
fn coin_values() {
    assert_eq!(value_in_cents(Coin::Penny), 1);
    assert_eq!(value_in_cents(Coin::Nickel), 5);
    assert_eq!(value_in_cents(Coin::Dime), 10);
    assert_eq!(value_in_cents(Coin::Quarter(UsState::Alaska)), 25);
    assert_eq!(value_in_cents(Coin::Quarter(UsState::Alabama)), 25);
}

#[test]
fn plus_one_on_options() {
    assert_eq!(plus_one(Some(5)), Some(6));
    assert_eq!(plus_one(None), None);
    assert_eq!(plus_one(Some(-1)), Some(0));
    assert_eq!(plus_one(Some(i32::MAX - 1)), Some(i32::MAX));
}

#[test]
fn dice_catch_all() {
    assert_eq!(catch_patterns(3), HatAction::AddFancyHat);
    assert_eq!(catch_patterns(7), HatAction::RemoveFancyHat);
    assert_eq!(catch_patterns(9), HatAction::Nothing);
    assert_eq!(catch_patterns(0), HatAction::Nothing);
}

#[test]
fn if_let_finds_maximum() {
    assert_eq!(control_flow(), Some(3));
}
