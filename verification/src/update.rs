//! The update commands run by the default mode, what each command's outcome
//! means for the run, and the run itself as a sequence of steps.
//!
//! The commands run in a fixed order. A command that is not installed is
//! skipped when it is optional (`snap`) and is a failure when it is required
//! (`apt`); any other unsuccessful outcome is a failure. The run as a whole
//! succeeds exactly when no command failed.
use vstd::prelude::*;
use crate::text::{join, joined, texts};

verus! {

/// One update command: the program, its arguments, and whether it must be
/// installed.
pub struct UpdateCommand {
    pub program: &'static str,
    pub args: Vec<&'static str>,
    pub required: bool,
}

impl View for UpdateCommand {
    type V = (&'static str, Seq<&'static str>, bool);

    open spec fn view(&self) -> (&'static str, Seq<&'static str>, bool) {
        (self.program, self.args@, self.required)
    }
}

/// The update commands, in the order they run.
pub open spec fn update_commands_spec() -> Seq<(&'static str, Seq<&'static str>, bool)> {
    seq![
        ("snap", seq!["refresh"], false),
        ("apt", seq!["update"], true),
        ("apt", seq!["upgrade", "-y"], true),
        ("apt", seq!["autoremove", "-y"], true),
    ]
}

/// How a command is shown to the user: the program, a space, and its
/// arguments separated by spaces.
pub open spec fn command_line_text(cmd: (&'static str, Seq<&'static str>, bool)) -> Seq<char> {
    cmd.0@ + " "@ + joined(texts(cmd.1), " "@)
}

fn command(program: &'static str, args: Vec<&'static str>, required: bool) -> (c: UpdateCommand)
    ensures
        c@ == (program, args@, required),
{
    UpdateCommand { program, args, required }
}

/// The update commands, in the order they run:
/// `snap refresh`, `apt update`, `apt upgrade -y`, `apt autoremove -y`.
pub fn update_commands() -> (cmds: Vec<UpdateCommand>)
    ensures
        cmds@.len() == update_commands_spec().len(),
        forall|i: int| 0 <= i < cmds@.len() ==> #[trigger] cmds@[i]@ == update_commands_spec()[i],
{
    let mut cmds: Vec<UpdateCommand> = Vec::new();
    let mut a: Vec<&'static str> = Vec::new();
    a.push("refresh");
    cmds.push(command("snap", a, false));
    let mut a: Vec<&'static str> = Vec::new();
    a.push("update");
    cmds.push(command("apt", a, true));
    let mut a: Vec<&'static str> = Vec::new();
    a.push("upgrade");
    a.push("-y");
    cmds.push(command("apt", a, true));
    let mut a: Vec<&'static str> = Vec::new();
    a.push("autoremove");
    a.push("-y");
    cmds.push(command("apt", a, true));
    proof {
        assert(cmds@[0]@.1 =~= seq!["refresh"]);
        assert(cmds@[1]@.1 =~= seq!["update"]);
        assert(cmds@[2]@.1 =~= seq!["upgrade", "-y"]);
        assert(cmds@[3]@.1 =~= seq!["autoremove", "-y"]);
    }
    cmds
}

impl UpdateCommand {
    /// The command as shown to the user, e.g. `apt upgrade -y`.
    pub fn command_line(&self) -> (s: String)
        ensures
            s@ == command_line_text(self@),
    {
        let mut s = String::new();
        s.append(self.program);
        s.append(" ");
        let rest = join(&self.args, " ");
        s.append(rest.as_str());
        s
    }
}

/// What happened when a command was started.
pub enum Outcome {
    /// It ran and exited successfully.
    Succeeded,
    /// It ran and exited with a failure status, or was killed by a signal.
    Unsuccessful,
    /// The program is not installed.
    NotInstalled,
    /// It could not be started for another reason.
    LaunchFailed,
}

/// What an outcome means for the run.
pub enum Verdict {
    /// The command succeeded.
    Passed,
    /// The command is optional and not installed; this is no error.
    Skipped,
    /// The command failed, and so does the run.
    Failed,
}

/// The verdict on a command, given whether it is required and its outcome.
pub open spec fn verdict_of(required: bool, outcome: Outcome) -> Verdict {
    match outcome {
        Outcome::Succeeded => Verdict::Passed,
        Outcome::NotInstalled => if required { Verdict::Failed } else { Verdict::Skipped },
        Outcome::Unsuccessful => Verdict::Failed,
        Outcome::LaunchFailed => Verdict::Failed,
    }
}

/// The verdict on a command, given whether it is required and its outcome.
pub fn judge(required: bool, outcome: &Outcome) -> (v: Verdict)
    ensures
        v == verdict_of(required, *outcome),
{
    match outcome {
        Outcome::Succeeded => Verdict::Passed,
        Outcome::NotInstalled => if required { Verdict::Failed } else { Verdict::Skipped },
        Outcome::Unsuccessful => Verdict::Failed,
        Outcome::LaunchFailed => Verdict::Failed,
    }
}

/// The command lines of the commands that failed, in order, when the first
/// `outcomes.len()` of `cmds` had these outcomes.
pub open spec fn failed_lines(
    cmds: Seq<(&'static str, Seq<&'static str>, bool)>,
    outcomes: Seq<Outcome>,
) -> Seq<Seq<char>>
    decreases outcomes.len(),
{
    if outcomes.len() == 0 {
        Seq::empty()
    } else {
        let k = outcomes.len() - 1;
        let earlier = failed_lines(cmds, outcomes.drop_last());
        if verdict_of(cmds[k].2, outcomes[k]) is Failed {
            earlier.push(command_line_text(cmds[k]))
        } else {
            earlier
        }
    }
}

/// A run of the update commands: the commands run one after another, each
/// outcome is recorded, and the command lines of the failed ones are kept
/// for the summary.
pub struct UpdateRun {
    commands: Vec<UpdateCommand>,
    next: usize,
    outcomes: Ghost<Seq<Outcome>>,
    failures: Vec<String>,
}

impl UpdateRun {
    /// The outcomes recorded so far, one per command already run.
    pub closed spec fn outcomes(&self) -> Seq<Outcome> {
        self.outcomes@
    }

    /// The command lines of the failed commands so far, in order.
    pub closed spec fn failure_lines(&self) -> Seq<Seq<char>> {
        self.failures@.map_values(|s: String| s@)
    }

    /// The run's own consistency: its commands are the update commands, at
    /// most one outcome per command was recorded, and the failures are
    /// exactly the failed commands' lines.
    pub closed spec fn wf(&self) -> bool {
        &&& self.commands@.len() == update_commands_spec().len()
        &&& forall|i: int|
            0 <= i < self.commands@.len() ==> #[trigger] self.commands@[i]@
                == update_commands_spec()[i]
        &&& self.next == self.outcomes@.len()
        &&& self.next <= self.commands@.len()
        &&& self.failure_lines() == failed_lines(update_commands_spec(), self.outcomes@)
    }

    /// A run that has not started any command yet.
    pub fn new() -> (run: UpdateRun)
        ensures
            run.wf(),
            run.outcomes() == Seq::<Outcome>::empty(),
            run.failure_lines() == Seq::<Seq<char>>::empty(),
    {
        let run = UpdateRun {
            commands: update_commands(),
            next: 0,
            outcomes: Ghost(Seq::empty()),
            failures: Vec::new(),
        };
        assert(run.failure_lines() =~= Seq::<Seq<char>>::empty());
        run
    }

    /// The command to run next, or `None` when every command has run.
    pub fn next_command(&self) -> (cmd: Option<&UpdateCommand>)
        requires
            self.wf(),
        ensures
            cmd is None <==> self.outcomes().len() == update_commands_spec().len(),
            cmd matches Some(c) ==> c@ == update_commands_spec()[self.outcomes().len() as int],
    {
        if self.next < self.commands.len() {
            Some(&self.commands[self.next])
        } else {
            None
        }
    }

    /// Records the outcome of the command returned by `next_command` and
    /// returns what it means for the run; a failed command's line is kept.
    pub fn record(&mut self, outcome: Outcome) -> (v: Verdict)
        requires
            old(self).wf(),
            old(self).outcomes().len() < update_commands_spec().len(),
        ensures
            final(self).wf(),
            final(self).outcomes() == old(self).outcomes().push(outcome),
            v == verdict_of(update_commands_spec()[old(self).outcomes().len() as int].2, outcome),
            v is Failed ==> final(self).failure_lines() == old(self).failure_lines().push(
                command_line_text(update_commands_spec()[old(self).outcomes().len() as int]),
            ),
            !(v is Failed) ==> final(self).failure_lines() == old(self).failure_lines(),
    {
        let k = self.next;
        assert(self.commands@[k as int]@ == update_commands_spec()[k as int]);
        let required = self.commands[k].required;
        let v = judge(required, &outcome);
        let ghost before = self.failure_lines();
        if let Verdict::Failed = v {
            let line = self.commands[k].command_line();
            self.failures.push(line);
        }
        self.outcomes = Ghost(self.outcomes@.push(outcome));
        self.next = k + 1;
        proof {
            assert(self.outcomes@.drop_last() =~= old(self).outcomes@);
            assert(self.outcomes@[k as int] == outcome);
            assert(failed_lines(update_commands_spec(), self.outcomes@) == (if verdict_of(
                update_commands_spec()[k as int].2,
                outcome,
            ) is Failed {
                before.push(command_line_text(update_commands_spec()[k as int]))
            } else {
                before
            }));
            if v is Failed {
                assert(self.failure_lines() =~= before.push(
                    command_line_text(update_commands_spec()[k as int]),
                ));
            } else {
                assert(self.failure_lines() =~= before);
            }
        }
        v
    }

    /// The command lines of the commands that failed so far, in order.
    pub fn failures(&self) -> (f: &Vec<String>)
        ensures
            f@.map_values(|s: String| s@) == self.failure_lines(),
    {
        &self.failures
    }

    /// Whether every command run so far passed or was skipped; the run exits
    /// successfully exactly when this holds once all commands have run.
    pub fn succeeded(&self) -> (ok: bool)
        requires
            self.wf(),
        ensures
            ok == (forall|i: int|
                0 <= i < self.outcomes().len() ==> !(verdict_of(
                    update_commands_spec()[i].2,
                    #[trigger] self.outcomes()[i],
                ) is Failed)),
    {
        proof {
            run_fails_iff_some_command_failed(update_commands_spec(), self.outcomes@);
        }
        self.failures.len() == 0
    }
}

/// The failures of a run are empty exactly when no command failed, and there
/// are never more failures than commands run.
pub proof fn run_fails_iff_some_command_failed(
    cmds: Seq<(&'static str, Seq<&'static str>, bool)>,
    outcomes: Seq<Outcome>,
)
    ensures
        failed_lines(cmds, outcomes).len() == 0 <==> (forall|i: int|
            0 <= i < outcomes.len() ==> !(verdict_of(cmds[i].2, #[trigger] outcomes[i]) is Failed)),
        failed_lines(cmds, outcomes).len() <= outcomes.len(),
    decreases outcomes.len(),
{
    if outcomes.len() > 0 {
        let init = outcomes.drop_last();
        run_fails_iff_some_command_failed(cmds, init);
        let k = outcomes.len() - 1;
        if failed_lines(cmds, outcomes).len() == 0 {
            assert forall|i: int|
                0 <= i < outcomes.len() implies !(verdict_of(
                cmds[i].2,
                #[trigger] outcomes[i],
            ) is Failed) by {
                if i < k {
                    assert(init[i] == outcomes[i]);
                }
            }
        } else if forall|i: int|
            0 <= i < outcomes.len() ==> !(verdict_of(cmds[i].2, #[trigger] outcomes[i]) is Failed) {
            assert forall|i: int|
                0 <= i < init.len() implies !(verdict_of(
                cmds[i].2,
                #[trigger] init[i],
            ) is Failed) by {
                assert(init[i] == outcomes[i]);
            }
            assert(!(verdict_of(cmds[k].2, outcomes[k]) is Failed));
        }
    }
}

/// An optional command that is not installed is skipped, never a failure;
/// a required one that is not installed fails; only success passes.
pub proof fn not_installed_is_skipped_only_when_optional(required: bool)
    ensures
        verdict_of(required, Outcome::NotInstalled) is Skipped <==> !required,
        verdict_of(required, Outcome::NotInstalled) is Failed <==> required,
        forall|o: Outcome| #[trigger] verdict_of(required, o) is Passed <==> o is Succeeded,
{
}

/// A command that ran and exited unsuccessfully, or could not be started,
/// fails whether or not it is required; only a missing optional command is
/// skipped, and only a successful one passes.
pub proof fn unsuccessful_or_unlaunched_always_fails()
    ensures
        forall|r: bool| #[trigger] verdict_of(r, Outcome::Unsuccessful) is Failed,
        forall|r: bool| #[trigger] verdict_of(r, Outcome::LaunchFailed) is Failed,
        verdict_of(true, Outcome::NotInstalled) is Failed,
        verdict_of(false, Outcome::NotInstalled) is Skipped,
        forall|r: bool| #[trigger] verdict_of(r, Outcome::Succeeded) is Passed,
        forall|r: bool, o: Outcome|
            #[trigger] verdict_of(r, o) is Skipped ==> (o is NotInstalled && !r),
{
}

/// The update commands and whether each is required: only `snap` is optional.
pub proof fn update_commands_table()
    ensures
        update_commands_spec().len() == 4,
        update_commands_spec()[0] == ("snap", seq!["refresh"], false),
        update_commands_spec()[1] == ("apt", seq!["update"], true),
        update_commands_spec()[2] == ("apt", seq!["upgrade", "-y"], true),
        update_commands_spec()[3] == ("apt", seq!["autoremove", "-y"], true),
{
}

/// A run in which some command ran and exited unsuccessfully, could not be
/// started, or was a required command that is not installed, has failures
/// and so does not succeed; the failed command's line is among them.
pub proof fn a_failed_command_fails_the_run(
    cmds: Seq<(&'static str, Seq<&'static str>, bool)>,
    outcomes: Seq<Outcome>,
    i: int,
)
    requires
        0 <= i < outcomes.len(),
        outcomes[i] is Unsuccessful || outcomes[i] is LaunchFailed || (outcomes[i] is NotInstalled
            && cmds[i].2),
    ensures
        failed_lines(cmds, outcomes).len() > 0,
        failed_lines(cmds, outcomes).contains(command_line_text(cmds[i])),
    decreases outcomes.len(),
{
    let k = outcomes.len() - 1;
    let init = outcomes.drop_last();
    if i < k {
        assert(init[i] == outcomes[i]);
        a_failed_command_fails_the_run(cmds, init, i);
        let earlier = failed_lines(cmds, init);
        let w = choose|w: int| 0 <= w < earlier.len() && earlier[w] == command_line_text(cmds[i]);
        if verdict_of(cmds[k].2, outcomes[k]) is Failed {
            assert(earlier.push(command_line_text(cmds[k]))[w] == earlier[w]);
        }
    } else {
        let earlier = failed_lines(cmds, init);
        assert(earlier.push(command_line_text(cmds[k]))[earlier.len() as int] == command_line_text(
            cmds[k],
        ));
    }
}

} // verus!
