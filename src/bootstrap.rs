//! Startup: which plugins the application is built with, and how the
//! outcome of a run maps to the process exit.
use vstd::prelude::*;
use vstd::string::StringExecFns;

verus! {

/// A capability plugin registered on the application builder.
#[derive(Clone, Copy, Debug, PartialEq, Eq, Structural)]
pub enum Plugin {
    /// Exposes operating-system information to the web content.
    OsInfo,
}

/// The plugins to register, in order: the OS-information plugin when
/// `os_info` is set, and nothing else.
pub fn plugins(os_info: bool) -> (r: Vec<Plugin>)
    ensures
        r@ == (if os_info {
            seq![Plugin::OsInfo]
        } else {
            Seq::<Plugin>::empty()
        }),
{
    let mut r: Vec<Plugin> = Vec::new();
    if os_info {
        r.push(Plugin::OsInfo);
    }
    proof {
        if os_info {
            assert(r@ =~= seq![Plugin::OsInfo]);
        } else {
            assert(r@ =~= Seq::<Plugin>::empty());
        }
    }
    r
}

/// Exit status of a run that failed.
pub const FAILURE_CODE: i32 = 1;

/// Text that opens the diagnostic of a failed run.
pub open spec fn failure_prefix_spec() -> Seq<char> {
    "error while running OhMyBox application: "@
}

/// How the process ends: its exit status and, on failure, the diagnostic to
/// print.
#[derive(Clone, Debug, PartialEq, Eq)]
pub struct StartupExit {
    pub code: i32,
    pub diagnostic: Option<String>,
}

/// Maps the outcome of the application's run to the process exit. A run
/// that ended normally exits with status 0 and prints nothing; a failed one
/// exits with a non-zero status and a diagnostic that carries the error.
pub fn startup_exit(outcome: &Result<(), String>) -> (r: StartupExit)
    ensures
        outcome is Ok <==> r.code == 0,
        outcome is Ok ==> r.diagnostic is None,
        outcome matches Err(m) ==> r.code == FAILURE_CODE && (r.diagnostic matches Some(d) && d@
            == failure_prefix_spec() + m@),
{
    match outcome {
        Ok(()) => StartupExit { code: 0, diagnostic: None },
        Err(m) => {
            let d = String::from_str("error while running OhMyBox application: ").concat(
                m.as_str(),
            );
            StartupExit { code: FAILURE_CODE, diagnostic: Some(d) }
        },
    }
}

} // verus!
