//! External applications that the launcher can start.
use vstd::prelude::*;

verus! {

#[derive(Clone, Copy, Debug, PartialEq, Eq, Structural)]
pub enum ExternalAppKind {
    DlssSwapper,
    NvidiaApp,
}

} // verus!
