//! The playable levels.

use vstd::prelude::*;

verus! {

#[derive(Clone, Copy, Debug, PartialEq, Eq, Hash, Structural)]
pub enum Level {
    Test,
    Tutorial,
    Scenario1,
    Scenario2,
    Final,
}

} // verus!
