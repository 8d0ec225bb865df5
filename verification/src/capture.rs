//! The microphone capture command line. The capture itself runs as an
//! outside subprocess; this module only decides which program and arguments
//! record one chunk of the requested length on a given backend.

use vstd::prelude::*;

use crate::encode::decimal_of;
use crate::encode::decimal_string;

verus! {

/// Which capture program the host offers.
#[derive(Clone, Copy, PartialEq, Eq, Structural, Debug)]
pub enum MicBackend {
    Mac,
    Linux,
}

/// The capture command line for a backend and chunk length: the program
/// name first, then its arguments, recording mono 16-bit audio as WAV on
/// standard output for the given number of seconds.
pub open spec fn mic_command_of(backend: MicBackend, seconds: nat) -> Seq<Seq<char>> {
    match backend {
        MicBackend::Mac => seq![
            "rec"@,
            "-q"@,
            "-c"@,
            "1"@,
            "-r"@,
            "16000"@,
            "-b"@,
            "16"@,
            "-e"@,
            "signed-integer"@,
            "-t"@,
            "wav"@,
            "-"@,
            "trim"@,
            "0"@,
            decimal_of(seconds),
        ],
        MicBackend::Linux => seq![
            "arecord"@,
            "-d"@,
            decimal_of(seconds),
            "-f"@,
            "cd"@,
            "-t"@,
            "wav"@,
            "-"@,
        ],
    }
}

/// Picks the backend for a configured name: `mac` selects the SoX recorder,
/// anything else the default Linux recorder.
pub fn backend_for(name: &str) -> (b: MicBackend)
    ensures
        b == (if name@ == "mac"@ {
            MicBackend::Mac
        } else {
            MicBackend::Linux
        }),
{
    let n = String::from_str(name);
    let m = String::from_str("mac");
    if n == m {
        MicBackend::Mac
    } else {
        MicBackend::Linux
    }
}

/// Builds the capture command line for one chunk.
pub fn mic_command(backend: MicBackend, seconds: u32) -> (cmd: Vec<String>)
    ensures
        cmd.deep_view() == mic_command_of(backend, seconds as nat),
{
    let mut cmd: Vec<String> = Vec::new();
    match backend {
        MicBackend::Mac => {
            cmd.push(String::from_str("rec"));
            cmd.push(String::from_str("-q"));
            cmd.push(String::from_str("-c"));
            cmd.push(String::from_str("1"));
            cmd.push(String::from_str("-r"));
            cmd.push(String::from_str("16000"));
            cmd.push(String::from_str("-b"));
            cmd.push(String::from_str("16"));
            cmd.push(String::from_str("-e"));
            cmd.push(String::from_str("signed-integer"));
            cmd.push(String::from_str("-t"));
            cmd.push(String::from_str("wav"));
            cmd.push(String::from_str("-"));
            cmd.push(String::from_str("trim"));
            cmd.push(String::from_str("0"));
            cmd.push(decimal_string(seconds));
        },
        MicBackend::Linux => {
            cmd.push(String::from_str("arecord"));
            cmd.push(String::from_str("-d"));
            cmd.push(decimal_string(seconds));
            cmd.push(String::from_str("-f"));
            cmd.push(String::from_str("cd"));
            cmd.push(String::from_str("-t"));
            cmd.push(String::from_str("wav"));
            cmd.push(String::from_str("-"));
        },
    }
    proof {
        assert(cmd.deep_view() =~= mic_command_of(backend, seconds as nat));
    }
    cmd
}

} // verus!
