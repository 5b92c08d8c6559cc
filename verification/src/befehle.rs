//! Running external programs: what is run, and how the outcome of a run is
//! judged.

use vstd::prelude::*;

verus! {

broadcast use vstd::string::group_string_axioms;

/// How a run of an external program ended.
#[derive(Debug)]
pub enum BefehlAusgang {
    /// The program ran and ended: its exit code, or `None` when a signal ended it.
    Beendet(Option<i32>),
    /// The program could not be started; the system's message.
    StartFehler(String),
    /// The background thread that ran it failed; its message.
    HintergrundFehler(String),
}

/// Why a run failed.
#[derive(Debug)]
pub enum BefehlFehler {
    /// The program ended unsuccessfully with this code (`-1` when a signal ended it).
    ExitCode { cmd: String, code: i32 },
    /// The program could not be started.
    Start { cmd: String, fehler: String },
    /// The background thread that ran the program failed.
    Hintergrund { fehler: String },
}

/// Judges the outcome of running `programm`: success exactly when it
/// ended with exit code 0.
pub fn befehl_auswerten(programm: &str, ausgang: BefehlAusgang) -> (r: Result<(), BefehlFehler>)
    ensures
        match ausgang {
            BefehlAusgang::Beendet(Some(0)) => r is Ok,
            BefehlAusgang::Beendet(c) => r matches Err(BefehlFehler::ExitCode { cmd, code }) && cmd@
                == programm@ && code == match c {
                Some(k) => k,
                None => -1i32,
            },
            BefehlAusgang::StartFehler(e) => r matches Err(BefehlFehler::Start { cmd, fehler }) && cmd@
                == programm@ && fehler == e,
            BefehlAusgang::HintergrundFehler(e) => r matches Err(BefehlFehler::Hintergrund { fehler })
                && fehler == e,
        },
{
    match ausgang {
        BefehlAusgang::Beendet(c) => {
            match c {
                Some(0) => Ok(()),
                Some(k) => Err(BefehlFehler::ExitCode { cmd: programm.to_string(), code: k }),
                None => Err(BefehlFehler::ExitCode { cmd: programm.to_string(), code: -1 }),
            }
        },
        BefehlAusgang::StartFehler(e) => Err(
            BefehlFehler::Start { cmd: programm.to_string(), fehler: e },
        ),
        BefehlAusgang::HintergrundFehler(e) => Err(BefehlFehler::Hintergrund { fehler: e }),
    }
}

/// The arguments that make `pkexec` run `command` in a shell with elevated
/// privileges.
pub fn pkexec_argumente(command: &str) -> (r: Vec<String>)
    ensures
        r.deep_view() == seq!["sh"@, "-c"@, command@],
{
    let r = vec!["sh".to_string(), "-c".to_string(), command.to_string()];
    assert(r.deep_view() =~= seq!["sh"@, "-c"@, command@]);
    r
}

} // verus!
