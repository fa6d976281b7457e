use vstd::prelude::*;

verus! {

/// A worker as the dashboard lists it.
#[derive(Clone)]
pub struct Item {
    pub name: String,
    pub port: u16,
}

/// Whether the dashboard is browsing or adding a worker.
#[derive(Clone, Copy, Debug, PartialEq, Eq, Structural)]
pub enum AppMode {
    Normal,
    Adding,
}

/// The input field of the add-worker popup that has the focus.
#[derive(Clone, Copy, Debug, PartialEq, Eq, Structural)]
pub enum InputField {
    Name,
    Port,
}

} // verus!
