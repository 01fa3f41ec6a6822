//! Enums, `Option`, `match` with bindings and catch-alls, and `if let`.
use vstd::prelude::*;

verus! {

/// An IP address: four octets, or a textual IPv6 address.
#[derive(Debug, Clone)]
pub enum IpAddr {
    V4(u8, u8, u8, u8),
    V6(String),
}

/// A message whose variants carry differently shaped data.
#[derive(Debug, Clone)]
pub enum Message {
    /// Carries no data.
    Quit,
    /// Carries named fields, like a struct.
    Move { x: i32, y: i32 },
    /// Carries one string.
    Write(String),
    /// Carries three integers.
    ChangeColor(i32, i32, i32),
}

/// `Message::Quit` as a unit struct.
#[derive(Debug, Clone, Copy, PartialEq, Eq, Structural)]
pub struct QuitMessage;

/// `Message::Move` as a struct.
#[derive(Debug, Clone, Copy, PartialEq, Eq, Structural)]
pub struct MoveMessage {
    pub x: i32,
    pub y: i32,
}

/// `Message::Write` as a tuple struct.
#[derive(Debug, Clone)]
pub struct WriteMessage(pub String);

/// `Message::ChangeColor` as a tuple struct.
#[derive(Debug, Clone, Copy, PartialEq, Eq, Structural)]
pub struct ChangeColorMessage(pub i32, pub i32, pub i32);

impl Message {
    /// Handles the message; there is nothing to do for any variant.
    pub fn call(&self) {
    }
}

/// Builds the loopback addresses in both forms and a `Write` message, and
/// calls the message. Returns `(home, loopback, message)`.
pub fn pattern_matching() -> (r: (IpAddr, IpAddr, Message))
    ensures
        r.0 matches IpAddr::V4(a, b, c, d) && a == 127 && b == 0 && c == 0 && d == 1,
        r.1 matches IpAddr::V6(s) && s@ == "::1"@,
        r.2 matches Message::Write(s) && s@ == "hello"@,
{
    let home = IpAddr::V4(127, 0, 0, 1);
    let loopback = IpAddr::V6(String::from_str("::1"));
    let m = Message::Write(String::from_str("hello"));
    m.call();
    (home, loopback, m)
}

/// A number that is present, a string that is present, and a number that
/// is absent.
pub fn pattern_matching_options() -> (r: (Option<i32>, Option<&'static str>, Option<i32>))
    ensures
        r.0 == Some(5i32),
        r.1 matches Some(s) && s@ == "a"@,
        r.2 is None,
{
    let some_number: Option<i32> = Some(5);
    let some_string: Option<&'static str> = Some("a");
    let absent_number: Option<i32> = None;
    (some_number, some_string, absent_number)
}

/// A US state, as stamped on a state quarter.
#[derive(Debug, Clone, Copy, PartialEq, Eq, Structural)]
pub enum UsState {
    Alabama,
    Alaska,
}

/// A US coin; a quarter carries the state it was minted for.
#[derive(Debug, Clone, Copy, PartialEq, Eq, Structural)]
pub enum Coin {
    Penny,
    Nickel,
    Dime,
    Quarter(UsState),
}

/// The value of a coin in cents.
pub open spec fn cents(coin: Coin) -> u8 {
    match coin {
        Coin::Penny => 1,
        Coin::Nickel => 5,
        Coin::Dime => 10,
        Coin::Quarter(_) => 25,
    }
}

/// The value of `coin` in cents, whatever state a quarter carries.
pub fn value_in_cents(coin: Coin) -> (r: u8)
    ensures
        r == cents(coin),
{
    match coin {
        Coin::Penny => 1,
        Coin::Nickel => 5,
        Coin::Dime => 10,
        Coin::Quarter(_state) => 25,
    }
}

/// Adds one to a present value and leaves an absent one absent.
pub fn plus_one(x: Option<i32>) -> (r: Option<i32>)
    requires
        x matches Some(i) ==> i < i32::MAX,
    ensures
        r == match x {
            None => None,
            Some(i) => Some((i + 1) as i32),
        },
{
    match x {
        None => None,
        Some(i) => Some(i + 1),
    }
}

/// What a dice roll makes the player do.
#[derive(Debug, Clone, Copy, PartialEq, Eq, Structural)]
pub enum HatAction {
    AddFancyHat,
    RemoveFancyHat,
    Nothing,
}

/// A 3 adds a fancy hat, a 7 removes it, and any other roll does nothing.
pub open spec fn hat_action(dice_roll: i32) -> HatAction {
    if dice_roll == 3 {
        HatAction::AddFancyHat
    } else if dice_roll == 7 {
        HatAction::RemoveFancyHat
    } else {
        HatAction::Nothing
    }
}

fn add_fancy_hat() {
}

fn remove_fancy_hat() {
}

/// Matches the roll against 3 and 7, with a catch-all that does nothing,
/// and returns which arm ran.
pub fn catch_patterns(dice_roll: i32) -> (r: HatAction)
    ensures
        r == hat_action(dice_roll),
{
    match dice_roll {
        3 => {
            add_fancy_hat();
            HatAction::AddFancyHat
        },
        7 => {
            remove_fancy_hat();
            HatAction::RemoveFancyHat
        },
        _ => HatAction::Nothing,
    }
}

/// The maximum that `if let` finds configured: 3.
pub fn control_flow() -> (r: Option<u8>)
    ensures
        r == Some(3u8),
{
    let config_max: Option<u8> = Some(3u8);
    if let Some(max) = config_max {
        Some(max)
    } else {
        None
    }
}

} // verus!
