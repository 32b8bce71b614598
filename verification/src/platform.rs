//! Names and paths that depend on the operating system.

use vstd::prelude::*;

verus! {

/// The family of operating system the service runs on.
#[derive(PartialEq, Eq, Structural, Clone, Copy, Debug)]
pub enum Platform {
    Unix,
    Windows,
}

/// The phrase a client must present to the IPC server.
pub const IPC_AUTH_EXPECT: &'static str =
    "Like as the waves make towards the pebbl'd shore, So do our minutes hasten to their end;";

/// The name under which the service is registered with the Windows service
/// control manager.
pub const SERVICE_NAME: &'static str = "celestial_service";

/// The file name of the PID file.
pub const PID_FILE_NAME: &'static str = "celestial-service.pid";

/// The endpoint of the IPC server: a Unix socket under `/tmp/verge`, or a
/// named pipe on Windows, which a test build names apart.
pub fn ipc_path(platform: Platform, test_build: bool) -> (r: &'static str)
    ensures
        r@ == (match platform {
            Platform::Unix => "/tmp/verge/celestial-service.sock"@,
            Platform::Windows => if test_build {
                "\\\\.\\pipe\\celestial-service-test"@
            } else {
                "\\\\.\\pipe\\celestial-service"@
            },
        }),
{
    match platform {
        Platform::Unix => "/tmp/verge/celestial-service.sock",
        Platform::Windows => if test_build {
            "\\\\.\\pipe\\celestial-service-test"
        } else {
            "\\\\.\\pipe\\celestial-service"
        },
    }
}

/// Where the PID file lives: a fixed path on Unix; on Windows `None`, meaning
/// the file `PID_FILE_NAME` in the system's temporary directory.
pub fn fixed_pid_file_path(platform: Platform) -> (r: Option<&'static str>)
    ensures
        r matches Some(p) ==> platform == Platform::Unix && p@ == "/tmp/verge/celestial-service.pid"@,
        r is None ==> platform == Platform::Windows,
{
    match platform {
        Platform::Unix => Some("/tmp/verge/celestial-service.pid"),
        Platform::Windows => None,
    }
}

/// The value `pid as i32` takes: the process id read as a two's-complement
/// 32-bit number.
pub open spec fn signed_pid(pid: u32) -> int {
    if pid <= i32::MAX {
        pid as int
    } else {
        pid - 0x1_0000_0000
    }
}

/// A liveness probe: `kill(target, signal)`.
#[derive(PartialEq, Eq, Structural, Clone, Copy, Debug)]
pub struct ProbeRequest {
    /// The process the probe is addressed to.
    pub target: i32,
    /// The signal sent: always 0, which delivers nothing and only checks that
    /// the process exists and may be signalled.
    pub signal: i32,
}

/// The liveness probe for a process id: on Unix `kill(pid as i32, 0)`, which
/// delivers no signal to any process; on Windows no probe is made.
pub fn liveness_probe(platform: Platform, pid: u32) -> (r: Option<ProbeRequest>)
    ensures
        r == (match platform {
            Platform::Unix => Some(ProbeRequest { target: signed_pid(pid) as i32, signal: 0 }),
            Platform::Windows => None::<ProbeRequest>,
        }),
        r matches Some(p) ==> p.signal == 0,
        r matches Some(p) ==> (pid as int - p.target as int) % 0x1_0000_0000 == 0,
        r matches Some(p) ==> (pid <= i32::MAX <==> p.target >= 0),
{
    match platform {
        Platform::Unix => {
            let target = if pid <= 2147483647u32 {
                pid as i32
            } else {
                ((pid - 2147483648u32) as i32) - 2147483647i32 - 1i32
            };
            Some(ProbeRequest { target, signal: 0 })
        },
        Platform::Windows => None,
    }
}

/// Whether the process is taken to be alive, given what the probe returned:
/// only a probe that returned 0 shows a live process; without a probe the
/// process is taken to be gone.
pub fn alive_after_probe(probe_result: Option<i32>) -> (r: bool)
    ensures
        r <==> probe_result == Some(0i32),
{
    match probe_result {
        Some(ret) => ret == 0,
        None => false,
    }
}

} // verus!
