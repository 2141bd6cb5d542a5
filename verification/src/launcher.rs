//! What the launcher needs to know before it can start the backend: how the
//! executable is named on each platform, which permissions it must carry, and
//! the ways a launch can fail.

use vstd::prelude::*;

verus! {

/// The kind of operating system the host runs on.
#[derive(Clone, Copy, Debug, PartialEq, Eq, Structural)]
pub enum Platform {
    /// Windows: executables end in `.exe` and carry no permission bits.
    Windows,
    /// Every other system: the executable must be marked runnable.
    Unix,
}

/// Why a launch was given up. Each of these ends application startup.
#[derive(Clone, Copy, Debug, PartialEq, Eq, Structural)]
pub enum LaunchError {
    /// The executable is not where it is expected.
    NotFound,
    /// The executable could not be marked runnable.
    PermissionError,
    /// The operating system refused to create the process.
    SpawnError,
}

/// Permission bits of the executable before it is started: read, write and
/// execute for the owner, read and execute for group and others.
pub const EXECUTABLE_MODE: u32 = 0o755;

/// The file name of the backend executable on `platform`.
pub open spec fn executable_name_of(platform: Platform) -> Seq<char> {
    match platform {
        Platform::Windows => seq!['s', 'e', 'r', 'v', 'e', 'r', '.', 'e', 'x', 'e'],
        Platform::Unix => seq!['s', 'e', 'r', 'v', 'e', 'r'],
    }
}

/// Whether the executable must be marked runnable before it is started.
pub open spec fn needs_permissions(platform: Platform) -> bool {
    platform is Unix
}

/// The file name of the backend executable inside the install directory.
pub fn executable_name(platform: Platform) -> (name: &'static str)
    ensures
        name@ == executable_name_of(platform),
{
    match platform {
        Platform::Windows => {
            let name = "server.exe";
            proof {
                reveal_strlit("server.exe");
                assert(name@ =~= executable_name_of(platform));
            }
            name
        },
        Platform::Unix => {
            let name = "server";
            proof {
                reveal_strlit("server");
                assert(name@ =~= executable_name_of(platform));
            }
            name
        },
    }
}

} // verus!
