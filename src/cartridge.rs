use vstd::prelude::*;

verus! {

/// How the cartridge wires the four logical name tables onto the two
/// physical 1 KiB banks of video RAM.
#[derive(Clone, Copy, Debug, PartialEq, Eq, Structural)]
pub enum Mirroring {
    Vertical,
    Horizontal,
}

} // verus!
