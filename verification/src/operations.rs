//! Decisions of the catalog-confined operations on one application: which
//! outside work comes next (rendering, a child process, a file check, a
//! removal) and how the operation ends, given what the last piece of work
//! reported. The driver performs each action and reports the outcome.

use vstd::prelude::*;

use crate::input_catalog::ApplicationEntry;
use crate::runner::{
    cargo_release_build_command, embed_command, flash_command, join_path, path_join, CommandSpec,
};
use crate::resolve::string_views;
use crate::text::{concat2, concat3};

verus! {

/// Operation a command-line invocation selects.
#[derive(Clone, Copy, Debug, PartialEq, Eq, Structural)]
pub enum Operation {
    /// Resolve and render without writing.
    Check,
    /// Resolve, render, and write the working directory.
    Generate,
    /// Generate, then run the locked release build.
    Build,
    /// Remove the application's generated state.
    Clean,
    /// Build, then flash the binary with probe-rs.
    Flash,
    /// Build, then start a cargo-embed session.
    Embed,
}

/// Exit of a child process that started.
#[derive(Clone, Debug)]
pub struct CommandOutcome {
    /// The process exited successfully.
    pub success: bool,
    /// Exit status as the platform describes it.
    pub status: String,
    /// Captured standard output.
    pub stdout: String,
    /// Captured standard error.
    pub stderr: String,
}

/// Where an operation stands.
#[derive(Clone, Debug)]
pub enum OperationStage {
    /// Nothing has been done yet.
    Start,
    /// The application is being rendered.
    Rendering,
    /// The locked release build runs; it produces `binary`.
    Building {
        /// Path of the release binary the build produces.
        binary: String,
    },
    /// The build succeeded; the binary's presence is being checked.
    CheckingBinary {
        /// Path of the release binary.
        binary: String,
    },
    /// The probe command runs.
    Probing,
    /// Generated state is being removed.
    Cleaning,
    /// The operation has ended.
    Finished,
}

/// What the driver observed after the last action.
#[derive(Debug)]
pub enum OperationEvent {
    /// The operation starts.
    Begin,
    /// Rendering ended: the working directory, or the diagnostic.
    Rendered(Result<String, String>),
    /// The child process ran, or (`None`) could not be started.
    CommandRan(Option<CommandOutcome>),
    /// Whether the release binary exists.
    BinaryFound(bool),
    /// Removing generated state ended.
    Cleaned(Result<(), String>),
}

/// Outside work the driver performs next, or how the operation ends.
#[derive(Clone, Debug)]
pub enum OperationAction {
    /// Resolve and render the application without writing it.
    Render,
    /// Resolve, render, and write the working directory.
    Generate,
    /// Run this child process.
    Run(CommandSpec),
    /// Check that the release binary exists at this path.
    CheckBinary(String),
    /// Remove the application's generated state.
    Clean,
    /// The operation succeeded; print the message unless it is empty.
    Succeed(String),
    /// The operation failed with this diagnostic.
    Fail(String),
}

/// The event is one the stage waits for.
pub open spec fn expected_event(stage: OperationStage, event: OperationEvent) -> bool {
    match stage {
        OperationStage::Start => event is Begin,
        OperationStage::Rendering => event is Rendered,
        OperationStage::Building { .. } => event is CommandRan,
        OperationStage::CheckingBinary { .. } => event is BinaryFound,
        OperationStage::Probing => event is CommandRan,
        OperationStage::Cleaning => event is Cleaned,
        OperationStage::Finished => false,
    }
}

/// The stage is one the operation passes through.
pub open spec fn stage_fits(op: Operation, stage: OperationStage) -> bool {
    match stage {
        OperationStage::Start => true,
        OperationStage::Rendering => op != Operation::Clean,
        OperationStage::Building { .. } => builds(op),
        OperationStage::CheckingBinary { .. } => op == Operation::Flash || op == Operation::Embed,
        OperationStage::Probing => op == Operation::Flash || op == Operation::Embed,
        OperationStage::Cleaning => op == Operation::Clean,
        OperationStage::Finished => true,
    }
}

/// Whether `event` is what the driver reports at `stage`.
pub fn event_expected(stage: &OperationStage, event: &OperationEvent) -> (r: bool)
    ensures
        r == expected_event(*stage, *event),
{
    match stage {
        OperationStage::Start => matches!(event, OperationEvent::Begin),
        OperationStage::Rendering => matches!(event, OperationEvent::Rendered(_)),
        OperationStage::Building { .. } => matches!(event, OperationEvent::CommandRan(_)),
        OperationStage::CheckingBinary { .. } => matches!(event, OperationEvent::BinaryFound(_)),
        OperationStage::Probing => matches!(event, OperationEvent::CommandRan(_)),
        OperationStage::Cleaning => matches!(event, OperationEvent::Cleaned(_)),
        OperationStage::Finished => false,
    }
}

/// Whether `stage` is one that `op` passes through.
pub fn stage_in_operation(op: Operation, stage: &OperationStage) -> (r: bool)
    ensures
        r == stage_fits(op, *stage),
{
    let building = match op {
        Operation::Build | Operation::Flash | Operation::Embed => true,
        _ => false,
    };
    let probing = match op {
        Operation::Flash | Operation::Embed => true,
        _ => false,
    };
    match stage {
        OperationStage::Start => true,
        OperationStage::Rendering => !matches!(op, Operation::Clean),
        OperationStage::Building { .. } => building,
        OperationStage::CheckingBinary { .. } => probing,
        OperationStage::Probing => probing,
        OperationStage::Cleaning => matches!(op, Operation::Clean),
        OperationStage::Finished => true,
    }
}

/// Diagnostic of a child process that exited unsuccessfully.
pub open spec fn failure_message(label: Seq<char>, o: CommandOutcome) -> Seq<char> {
    label + " failed with "@ + o.status@ + "\nstdout:\n"@ + o.stdout@ + "\nstderr:\n"@ + o.stderr@
}

/// Directory holding the application's build products.
pub open spec fn target_dir(builder_root: Seq<char>, app: Seq<char>) -> Seq<char> {
    path_join(path_join(path_join(builder_root, "generated"@), app), "target"@)
}

/// Path of the application's release binary.
pub open spec fn release_binary(builder_root: Seq<char>, app: Seq<char>, entry: ApplicationEntry) -> Seq<
    char,
> {
    path_join(
        path_join(path_join(target_dir(builder_root, app), entry.rust_target@), "release"@),
        entry.binary_name@,
    )
}

/// Operations that build the application before anything else.
pub open spec fn builds(op: Operation) -> bool {
    op == Operation::Build || op == Operation::Flash || op == Operation::Embed
}

/// Next stage and action of an operation, as views: the stage, and the
/// action's kind with its text (a message, a binary path, or for `Run` the
/// program and arguments).
pub open spec fn stage_after(op: Operation, stage: OperationStage, event: OperationEvent) -> OperationStage {
    match (stage, event) {
        (OperationStage::Start, _) => if op == Operation::Check || op == Operation::Generate
            || builds(op) {
            OperationStage::Rendering
        } else {
            OperationStage::Cleaning
        },
        (OperationStage::Rendering, OperationEvent::Rendered(Ok(_))) => if builds(op) {
            OperationStage::Building { binary: arbitrary() }
        } else {
            OperationStage::Finished
        },
        (OperationStage::Building { .. }, OperationEvent::CommandRan(Some(o))) => if o.success && (op
            == Operation::Flash || op == Operation::Embed) {
            OperationStage::CheckingBinary { binary: arbitrary() }
        } else {
            OperationStage::Finished
        },
        (OperationStage::CheckingBinary { .. }, OperationEvent::BinaryFound(found)) => if found {
            OperationStage::Probing
        } else {
            OperationStage::Finished
        },
        _ => OperationStage::Finished,
    }
}

/// The stages have the same kind.
pub open spec fn same_stage_kind(a: OperationStage, b: OperationStage) -> bool {
    match (a, b) {
        (OperationStage::Start, OperationStage::Start) => true,
        (OperationStage::Rendering, OperationStage::Rendering) => true,
        (OperationStage::Building { .. }, OperationStage::Building { .. }) => true,
        (OperationStage::CheckingBinary { .. }, OperationStage::CheckingBinary { .. }) => true,
        (OperationStage::Probing, OperationStage::Probing) => true,
        (OperationStage::Cleaning, OperationStage::Cleaning) => true,
        (OperationStage::Finished, OperationStage::Finished) => true,
        _ => false,
    }
}

/// What an operation does next, given its stage and the event the stage
/// waits for.
pub open spec fn operation_step(
    op: Operation,
    app: Seq<char>,
    entry: ApplicationEntry,
    builder_root: Seq<char>,
    stage: OperationStage,
    event: OperationEvent,
    next: OperationStage,
    action: OperationAction,
) -> bool {
    let binary_path = release_binary(builder_root, app, entry);
    &&& same_stage_kind(next, stage_after(op, stage, event))
    &&& match (stage, event) {
        (OperationStage::Start, _) => match op {
            Operation::Check => action is Render,
            Operation::Clean => action is Clean,
            _ => action is Generate,
        },
        (OperationStage::Rendering, OperationEvent::Rendered(Err(m))) => action matches OperationAction::Fail(x)
            && x@ == m@,
        (OperationStage::Rendering, OperationEvent::Rendered(Ok(working))) => match op {
            Operation::Check => action matches OperationAction::Succeed(x) && x@ == "application `"@
                + app + "` resolves and renders successfully"@,
            Operation::Generate => action matches OperationAction::Succeed(x) && x@
                == "generated application `"@ + app + "` at "@ + working@,
            _ => action matches OperationAction::Run(c) && c.program@ == "cargo"@ && c.cwd@
                == working@ && string_views(c.args@) == seq![
                "build"@,
                "--manifest-path"@,
                path_join(working@, "Cargo.toml"@),
                "--target"@,
                entry.rust_target@,
                "--release"@,
                "--locked"@,
            ] && (next matches OperationStage::Building { binary } && binary@ == binary_path),
        },
        (OperationStage::Building { binary }, OperationEvent::CommandRan(None)) => action matches OperationAction::Fail(
            x,
        ) && x@ == "start locked release build for `"@ + app + "`"@,
        (OperationStage::Building { binary }, OperationEvent::CommandRan(Some(o))) => if !o.success {
            action matches OperationAction::Fail(x) && x@ == failure_message(
                "locked release build"@,
                o,
            )
        } else if op == Operation::Build {
            action matches OperationAction::Succeed(x) && x@ == "built application `"@ + app
                + "` at "@ + binary@
        } else {
            action matches OperationAction::CheckBinary(p) && p@ == binary@
                && (next matches OperationStage::CheckingBinary { binary: b } && b@ == binary@)
        },
        (OperationStage::CheckingBinary { binary }, OperationEvent::BinaryFound(found)) => if !found {
            action matches OperationAction::Fail(x) && x@
                == "release build succeeded but the expected ELF is missing at "@ + binary@
        } else if op == Operation::Flash {
            action matches OperationAction::Run(c) && c.program@ == "probe-rs"@ && c.cwd@
                == builder_root && string_views(c.args@) == seq![
                "download"@,
                "--chip"@,
                entry.probe_chip@,
                "--protocol"@,
                "swd"@,
                "--verify"@,
                "--reset"@,
                binary@,
            ]
        } else {
            action matches OperationAction::Run(c) && c.program@ == "cargo"@ && c.cwd@
                == builder_root && string_views(c.args@) == seq![
                "embed"@,
                "--chip"@,
                entry.probe_chip@,
                "--path"@,
                binary@,
            ]
        },
        (OperationStage::Probing, OperationEvent::CommandRan(None)) => action matches OperationAction::Fail(
            x,
        ) && x@ == if op == Operation::Flash {
            "start probe-rs; install probe-rs-tools or ensure probe-rs is on PATH"@
        } else {
            "start cargo embed; install probe-rs-tools or ensure cargo-embed is on PATH"@
        },
        (OperationStage::Probing, OperationEvent::CommandRan(Some(o))) => if !o.success {
            action matches OperationAction::Fail(x) && x@ == failure_message(
                if op == Operation::Flash {
                    "probe-rs flash"@
                } else {
                    "cargo embed"@
                },
                o,
            )
        } else {
            action matches OperationAction::Succeed(x) && x@.len() == 0
        },
        (OperationStage::Cleaning, OperationEvent::Cleaned(Err(m))) => action matches OperationAction::Fail(
            x,
        ) && x@ == m@,
        (OperationStage::Cleaning, OperationEvent::Cleaned(Ok(()))) => action matches OperationAction::Succeed(
            x,
        ) && x@ == "cleaned generated state for `"@ + app + "`"@,
        _ => true,
    }
}

fn failure_text(label: &str, o: &CommandOutcome) -> (r: String)
    ensures
        r@ == failure_message(label@, *o),
{
    let mut out = concat2(label, " failed with ");
    out.append(o.status.as_str());
    out.append("\nstdout:\n");
    out.append(o.stdout.as_str());
    out.append("\nstderr:\n");
    out.append(o.stderr.as_str());
    out
}

/// Decides what an operation on application `app` (catalog entry `entry`)
/// does next, given its stage and the event the stage waits for.
pub fn next_step(
    op: Operation,
    app: &str,
    entry: &ApplicationEntry,
    builder_root: &str,
    stage: OperationStage,
    event: OperationEvent,
) -> (r: (OperationStage, OperationAction))
    requires
        expected_event(stage, event),
        stage_fits(op, stage),
    ensures
        operation_step(op, app@, *entry, builder_root@, stage, event, r.0, r.1),
        stage_fits(op, r.0),
{
    match (stage, event) {
        (OperationStage::Start, _) => match op {
            Operation::Check => (OperationStage::Rendering, OperationAction::Render),
            Operation::Clean => (OperationStage::Cleaning, OperationAction::Clean),
            _ => (OperationStage::Rendering, OperationAction::Generate),
        },
        (OperationStage::Rendering, OperationEvent::Rendered(Err(m))) => (
            OperationStage::Finished,
            OperationAction::Fail(m),
        ),
        (OperationStage::Rendering, OperationEvent::Rendered(Ok(working))) => match op {
            Operation::Check => (
                OperationStage::Finished,
                OperationAction::Succeed(
                    concat3("application `", app, "` resolves and renders successfully"),
                ),
            ),
            Operation::Generate => (
                OperationStage::Finished,
                OperationAction::Succeed(
                    {
                        let mut m = concat3("generated application `", app, "` at ");
                        m.append(working.as_str());
                        m
                    },
                ),
            ),
            _ => {
                let generated = join_path(builder_root, "generated");
                let application_root = join_path(generated.as_str(), app);
                let target = join_path(application_root.as_str(), "target");
                let by_target = join_path(target.as_str(), entry.rust_target);
                let release = join_path(by_target.as_str(), "release");
                let binary = join_path(release.as_str(), entry.binary_name);
                let command = cargo_release_build_command(
                    working.as_str(),
                    entry.rust_target,
                    target.as_str(),
                );
                (OperationStage::Building { binary }, OperationAction::Run(command))
            },
        },
        (OperationStage::Building { binary: _ }, OperationEvent::CommandRan(None)) => (
            OperationStage::Finished,
            OperationAction::Fail(concat3("start locked release build for `", app, "`")),
        ),
        (OperationStage::Building { binary }, OperationEvent::CommandRan(Some(o))) => {
            if !o.success {
                (
                    OperationStage::Finished,
                    OperationAction::Fail(failure_text("locked release build", &o)),
                )
            } else if op == Operation::Build {
                let mut m = concat3("built application `", app, "` at ");
                m.append(binary.as_str());
                (OperationStage::Finished, OperationAction::Succeed(m))
            } else {
                let path = binary.clone();
                (OperationStage::CheckingBinary { binary }, OperationAction::CheckBinary(path))
            }
        },
        (OperationStage::CheckingBinary { binary }, OperationEvent::BinaryFound(found)) => {
            if !found {
                (
                    OperationStage::Finished,
                    OperationAction::Fail(
                        concat2(
                            "release build succeeded but the expected ELF is missing at ",
                            binary.as_str(),
                        ),
                    ),
                )
            } else if op == Operation::Flash {
                (
                    OperationStage::Probing,
                    OperationAction::Run(
                        flash_command(builder_root, entry.probe_chip, binary.as_str()),
                    ),
                )
            } else {
                (
                    OperationStage::Probing,
                    OperationAction::Run(
                        embed_command(builder_root, entry.probe_chip, binary.as_str()),
                    ),
                )
            }
        },
        (OperationStage::Probing, OperationEvent::CommandRan(None)) => (
            OperationStage::Finished,
            OperationAction::Fail(
                if op == Operation::Flash {
                    String::from_str(
                        "start probe-rs; install probe-rs-tools or ensure probe-rs is on PATH",
                    )
                } else {
                    String::from_str(
                        "start cargo embed; install probe-rs-tools or ensure cargo-embed is on PATH",
                    )
                },
            ),
        ),
        (OperationStage::Probing, OperationEvent::CommandRan(Some(o))) => {
            if !o.success {
                let label = if op == Operation::Flash {
                    "probe-rs flash"
                } else {
                    "cargo embed"
                };
                (OperationStage::Finished, OperationAction::Fail(failure_text(label, &o)))
            } else {
                (OperationStage::Finished, OperationAction::Succeed(String::new()))
            }
        },
        (OperationStage::Cleaning, OperationEvent::Cleaned(Err(m))) => (
            OperationStage::Finished,
            OperationAction::Fail(m),
        ),
        (OperationStage::Cleaning, OperationEvent::Cleaned(Ok(()))) => (
            OperationStage::Finished,
            OperationAction::Succeed(concat3("cleaned generated state for `", app, "`")),
        ),
        _ => {
            proof {
                assert(false);
            }
            (OperationStage::Finished, OperationAction::Fail(String::new()))
        },
    }
}

/// Stage an operation reaches after the first `n` events, from the start.
pub open spec fn stage_trace(op: Operation, events: Seq<OperationEvent>, n: nat) -> OperationStage
    decreases n,
{
    if n == 0 {
        OperationStage::Start
    } else {
        stage_after(op, stage_trace(op, events, (n - 1) as nat), events[n - 1])
    }
}

/// Whatever events an operation is given, it reaches the probing stage only
/// right after the release binary was found present, and that check only
/// follows a successful release build.
pub proof fn lemma_probe_follows_successful_build(op: Operation, events: Seq<OperationEvent>, n: nat)
    requires
        0 < n <= events.len(),
        stage_trace(op, events, n) is Probing,
    ensures
        n >= 2,
        stage_trace(op, events, (n - 1) as nat) is CheckingBinary,
        events[n - 1] matches OperationEvent::BinaryFound(found) && found,
        stage_trace(op, events, (n - 2) as nat) is Building,
        events[n - 2] matches OperationEvent::CommandRan(Some(o)) && o.success,
{
    let before = stage_trace(op, events, (n - 1) as nat);
    assert(before is CheckingBinary);
    assert(events[n - 1] matches OperationEvent::BinaryFound(found) && found);
    assert(n - 1 > 0);
    let earlier = stage_trace(op, events, (n - 2) as nat);
    assert(earlier is Building);
    assert(events[n - 2] matches OperationEvent::CommandRan(Some(o)) && o.success);
}

} // verus!
