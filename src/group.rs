//! Model groups as shown on the desktop.

use vstd::prelude::*;

verus! {

/// A group as displayed: its id, its name and the models in it.
#[derive(Debug, Clone)]
pub struct DisplayGroup {
    pub id: String,
    pub name: String,
    pub models: Vec<String>,
}

} // verus!
