//! Data shapes of the sample backend modules whose declarations the test
//! suite builds as syntax values and runs through the extraction pipeline.
//! They document, on the Rust side, the shapes those scenarios describe.

use vstd::prelude::*;

verus! {

/// A user record: the basic struct scenario.
pub struct User {
    pub id: u32,
    pub name: String,
    pub email: Option<String>,
}

/// A message with one variant of each shape: the enum scenario.
pub enum Message {
    Quit,
    Move { x: i32, y: i32 },
    Write(String),
    ChangeColor(i32, i32, i32),
}

/// The innermost record of the nesting scenario.
pub struct AppendEx {
    pub num: i32,
}

/// The middle record of the nesting scenario.
pub struct Append {
    pub num: i32,
    pub append_ex: AppendEx,
}

/// The outer record of the nesting scenario.
pub struct Data {
    pub msg: Message,
    pub append: Append,
}

/// The payload of the window-scoped event scenario.
pub struct EventPayload {
    pub message: String,
}

/// The payload sent to the main window in the many-events scenario.
pub struct MainPayload {
    pub message: String,
    pub value: u32,
}

/// The payload sent from a window handle in the many-events scenario.
pub struct SubPayload {
    pub data: String,
}

} // verus!
