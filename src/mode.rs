use vstd::prelude::*;

verus! {

/// The hardware variant being emulated.
#[derive(Clone, Copy, Debug, PartialEq, Eq, Structural)]
pub enum EmulationMode {
    Dmg,
    Cgb,
}

} // verus!
