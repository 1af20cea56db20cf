//! What the command line asks for, and the decisions of the two privileged
//! modes that grant or remove this program's file capabilities.
use vstd::prelude::*;
use crate::caps::{
    required_caps_spec, setcap_spec, setcap_spec_absent_iff_nothing_available, setcap_spec_text,
    unavailable_caps, unavailable_spec, BoundingSet,
};

verus! {

/// The mode selected by the command line.
pub enum Mode {
    /// No argument: run the update commands.
    Run,
    /// Show the help text.
    Help,
    /// Show the version.
    Version,
    /// Grant this binary the required capabilities.
    Setup,
    /// Remove the capabilities again.
    Teardown,
    /// Anything else: a usage error naming the argument.
    Unknown(String),
}

/// Whether `m` is the mode that the single argument `a` selects.
pub open spec fn selects(a: Seq<char>, m: Mode) -> bool {
    if a == "-h"@ || a == "--help"@ || a == "help"@ {
        m is Help
    } else if a == "-V"@ || a == "--version"@ || a == "version"@ {
        m is Version
    } else if a == "setup"@ || a == "--setup"@ {
        m is Setup
    } else if a == "teardown"@ || a == "--teardown"@ || a == "remove"@ || a == "--remove"@ {
        m is Teardown
    } else {
        m matches Mode::Unknown(s) && s@ == a
    }
}

fn is_one_of(a: &String, choices: &Vec<&str>) -> (r: bool)
    ensures
        r == exists|i: int| 0 <= i < choices@.len() && a@ == (#[trigger] choices@[i])@,
{
    let n = choices.len();
    let mut i: usize = 0;
    while i < n
        invariant
            n == choices@.len(),
            i <= n,
            forall|j: int| 0 <= j < i ==> a@ != (#[trigger] choices@[j])@,
        decreases n - i,
    {
        let c = String::from_str(choices[i]);
        if *a == c {
            return true;
        }
        i = i + 1;
    }
    false
}

/// The mode selected by the first command-line argument, if any. Only the
/// first argument is looked at.
pub fn parse_mode(arg: Option<&String>) -> (m: Mode)
    ensures
        arg is None ==> m is Run,
        arg matches Some(a) ==> selects(a@, m),
{
    match arg {
        None => Mode::Run,
        Some(a) => {
            let help = vec!["-h", "--help", "help"];
            let version = vec!["-V", "--version", "version"];
            let setup = vec!["setup", "--setup"];
            let teardown = vec!["teardown", "--teardown", "remove", "--remove"];
            if is_one_of(a, &help) {
                assert(a@ == "-h"@ || a@ == "--help"@ || a@ == "help"@);
                Mode::Help
            } else if is_one_of(a, &version) {
                assert(help@[0] == "-h" && help@[1] == "--help" && help@[2] == "help");
                Mode::Version
            } else if is_one_of(a, &setup) {
                assert(help@[0] == "-h" && help@[1] == "--help" && help@[2] == "help");
                assert(version@[0] == "-V" && version@[1] == "--version" && version@[2] == "version");
                Mode::Setup
            } else if is_one_of(a, &teardown) {
                assert(help@[0] == "-h" && help@[1] == "--help" && help@[2] == "help");
                assert(version@[0] == "-V" && version@[1] == "--version" && version@[2] == "version");
                assert(setup@[0] == "setup" && setup@[1] == "--setup");
                Mode::Teardown
            } else {
                assert(help@[0] == "-h" && help@[1] == "--help" && help@[2] == "help");
                assert(version@[0] == "-V" && version@[1] == "--version" && version@[2] == "version");
                assert(setup@[0] == "setup" && setup@[1] == "--setup");
                assert(teardown@[0] == "teardown" && teardown@[1] == "--teardown");
                assert(teardown@[2] == "remove" && teardown@[3] == "--remove");
                Mode::Unknown(a.clone())
            }
        },
    }
}

/// Which way a privileged mode changes this binary's file capabilities.
pub enum CapChange {
    /// `setup`: grant the available required capabilities.
    Grant,
    /// `teardown`: remove all file capabilities.
    Revoke,
}

/// Why a privileged mode stops before running `setcap`.
pub enum Refusal {
    /// Changing file capabilities needs root.
    NotRoot,
    /// The path of the running executable could not be determined.
    NoExecutable,
    /// None of the required capabilities is in the bounding set.
    NothingToGrant,
}

/// The `setcap` invocation a privileged mode makes: `setcap <argument> <exe>`,
/// and the required capabilities that `setup` skips, for the warning.
pub struct SetcapCall {
    pub argument: String,
    pub skipped: Vec<&'static str>,
}

/// Whether `r` is the decision of a privileged mode, checked in this order:
/// root, then the executable's path, then (for `setup`) that something can
/// be granted.
pub open spec fn decides(
    change: CapChange,
    is_root: bool,
    exe_found: bool,
    bset: BoundingSet,
    r: Result<SetcapCall, Refusal>,
) -> bool {
    if !is_root {
        r matches Err(Refusal::NotRoot)
    } else if !exe_found {
        r matches Err(Refusal::NoExecutable)
    } else {
        match change {
            CapChange::Grant => match setcap_spec_text(bset) {
                None => r matches Err(Refusal::NothingToGrant),
                Some(spec) => r matches Ok(call) && call.argument@ == spec && call.skipped@
                    == unavailable_spec(bset).map_values(|c: (&'static str, i32)| c.0),
            },
            CapChange::Revoke => r matches Ok(call) && call.argument@ == "-r"@
                && call.skipped@.len() == 0,
        }
    }
}

/// The decision of `setup` (grant) or `teardown` (revoke), given whether the
/// process runs as root, whether the path of the running executable is
/// known, and the bounding set.
pub fn plan_cap_change(change: CapChange, is_root: bool, exe_found: bool, bset: &BoundingSet) -> (r:
    Result<SetcapCall, Refusal>)
    ensures
        decides(change, is_root, exe_found, *bset, r),
{
    if !is_root {
        return Err(Refusal::NotRoot);
    }
    if !exe_found {
        return Err(Refusal::NoExecutable);
    }
    match change {
        CapChange::Grant => match setcap_spec(bset) {
            None => Err(Refusal::NothingToGrant),
            Some(spec) => Ok(SetcapCall { argument: spec, skipped: unavailable_caps(bset) }),
        },
        CapChange::Revoke => Ok(SetcapCall { argument: String::from_str("-r"), skipped: Vec::new() }),
    }
}

/// Without root, `setup` and `teardown` are both refused before anything
/// else; with root but no known executable, both are refused for that.
pub proof fn privileged_modes_need_root_then_executable(
    change: CapChange,
    exe_found: bool,
    bset: BoundingSet,
    r: Result<SetcapCall, Refusal>,
)
    ensures
        decides(change, false, exe_found, bset, r) ==> r matches Err(Refusal::NotRoot),
        decides(change, true, false, bset, r) ==> r matches Err(Refusal::NoExecutable),
        decides(change, true, true, bset, r) ==> !(r matches Err(Refusal::NotRoot)) && !(r matches Err(
            Refusal::NoExecutable,
        )),
{
}

/// As root with a known executable, `teardown` always runs `setcap -r`, and
/// `setup` runs `setcap` exactly when some required capability is in the
/// bounding set, granting only such capabilities.
pub proof fn allowed_modes_proceed(bset: BoundingSet, r: Result<SetcapCall, Refusal>)
    ensures
        decides(CapChange::Revoke, true, true, bset, r) ==> (r matches Ok(call) && call.argument@
            == "-r"@),
        decides(CapChange::Grant, true, true, bset, r) ==> (r is Ok <==> exists|i: int|
            0 <= i < required_caps_spec().len() && bset.has(#[trigger] required_caps_spec()[i].1)),
        decides(CapChange::Grant, true, true, bset, r) ==> (r is Err ==> r matches Err(
            Refusal::NothingToGrant,
        )),
{
    setcap_spec_absent_iff_nothing_available(bset);
}

} // verus!
