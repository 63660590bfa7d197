//! The target platforms the sidecar tools are packaged for.

use vstd::prelude::*;

verus! {

#[derive(Debug, Clone, Copy, PartialEq, Eq, Structural)]
pub enum Platform {
    WindowsX64,
    LinuxX64,
    MacosX64,
    MacosArm64,
    /// Any other operating system or architecture.
    Other,
}

} // verus!
