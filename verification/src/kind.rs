//! The package-manager families the tool can drive.
use vstd::prelude::*;

verus! {

/// A system package manager: `apt` (Debian/Ubuntu), `pacman` (Arch) or `xbps` (Void).
#[derive(Clone, Copy, Debug, PartialEq, Eq, Structural)]
pub enum BackendKind {
    Apt,
    Pacman,
    Xbps,
}

impl BackendKind {
    /// The lower-case name of the backend, as written on the command line and in the config.
    pub open spec fn name(self) -> Seq<char> {
        match self {
            BackendKind::Apt => "apt"@,
            BackendKind::Pacman => "pacman"@,
            BackendKind::Xbps => "xbps"@,
        }
    }

    /// The lower-case name of the backend.
    pub fn as_str(self) -> (r: &'static str)
        ensures
            r@ == self.name(),
    {
        match self {
            BackendKind::Apt => "apt",
            BackendKind::Pacman => "pacman",
            BackendKind::Xbps => "xbps",
        }
    }
}

} // verus!
