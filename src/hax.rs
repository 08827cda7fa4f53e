//! Names shared with the host's scripting runtime.
use vstd::prelude::*;

verus! {

/// The realm a scripting state belongs to.
#[derive(Clone, Copy, PartialEq, Eq, Structural, Debug)]
pub enum GmodLuaInterfaceRealm {
    Client,
    Server,
    Menu,
}

} // verus!
