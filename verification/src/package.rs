//! The closed classification vocabulary for installable packages:
//! what a package is for, and what form it takes. The archive and
//! manifest handling around these lives with the platform layer.

use vstd::prelude::*;

verus! {

/// What a package is for.
#[derive(Clone, Copy, Debug, PartialEq, Eq, Structural)]
pub enum PackageCategory {
    Tool,
    Media,
    Social,
    Web,
    Education,
    System,
    Test,
}

/// What form a package takes.
#[derive(Clone, Copy, Debug, PartialEq, Eq, Structural)]
pub enum PackageType {
    Theme,
    Application,
    Game,
    Dlc,
    Mod,
    Demo,
    Tool,
}

} // verus!
