use app_builder::dshot_bank::{
    DshotInterruptEvent, DshotMotor, DshotMotorBank, DshotServiceEvent,
};
use app_builder::input_catalog::application;
use app_builder::operations::{
    event_expected, next_step, stage_in_operation, CommandOutcome, Operation, OperationAction, OperationEvent, OperationStage,
};
use app_builder::rendered::RenderedApplication;

fn outcome(success: bool) -> CommandOutcome {
    CommandOutcome {
        success,
        status: if success { "exit status: 0" } else { "exit status: 101" }.to_owned(),
        stdout: "out".to_owned(),
        stderr: "err".to_owned(),
    }
}

#[test]
fn flash_builds_checks_the_binary_then_probes() {
    let entry = application("nucleo-f401re-blinky").unwrap();
    let app = "nucleo-f401re-blinky";
    let root = "/work/app-builder";
    let (stage, action) = next_step(Operation::Flash, app, &entry, root, OperationStage::Start, OperationEvent::Begin);
    assert!(matches!(action, OperationAction::Generate));
    let working = format!("{root}/generated/{app}/working");
    let (stage, action) = next_step(Operation::Flash, app, &entry, root, stage, OperationEvent::Rendered(Ok(working.clone())));
    let OperationAction::Run(build) = action else { panic!("expected the release build") };
    assert_eq!(build.program, "cargo");
    assert_eq!(build.cwd, working);
    assert_eq!(
        build.args,
        [
            "build",
            "--manifest-path",
            &format!("{working}/Cargo.toml"),
            "--target",
            "thumbv7em-none-eabihf",
            "--release",
            "--locked"
        ]
    );
    assert_eq!(
        build.env_overrides,
        [("CARGO_TARGET_DIR".to_owned(), format!("{root}/generated/{app}/target"))]
    );
    let (stage, action) = next_step(Operation::Flash, app, &entry, root, stage, OperationEvent::CommandRan(Some(outcome(true))));
    let binary = format!("{root}/generated/{app}/target/thumbv7em-none-eabihf/release/rtic-generated-app");
    let OperationAction::CheckBinary(path) = action else { panic!("expected the binary check") };
    assert_eq!(path, binary);
    let (stage, action) = next_step(Operation::Flash, app, &entry, root, stage, OperationEvent::BinaryFound(true));
    let OperationAction::Run(probe) = action else { panic!("expected the probe") };
    assert_eq!(probe.program, "probe-rs");
    assert_eq!(probe.cwd, root);
    assert_eq!(
        probe.args,
        ["download", "--chip", "STM32F401RE", "--protocol", "swd", "--verify", "--reset", &binary]
    );
    let (_, action) = next_step(Operation::Flash, app, &entry, root, stage, OperationEvent::CommandRan(Some(outcome(true))));
    assert!(matches!(action, OperationAction::Succeed(message) if message.is_empty()));
}

#[test]
fn failed_steps_end_the_operation_with_their_diagnostic() {
    let entry = application("nucleo-f401re-blinky").unwrap();
    let app = "nucleo-f401re-blinky";
    let root = "/w";
    let building = OperationStage::Building { binary: "/w/bin".to_owned() };
    let (stage, action) = next_step(Operation::Build, app, &entry, root, building, OperationEvent::CommandRan(Some(outcome(false))));
    assert!(matches!(stage, OperationStage::Finished));
    assert!(matches!(
        action,
        OperationAction::Fail(message)
            if message == "locked release build failed with exit status: 101\nstdout:\nout\nstderr:\nerr"
    ));
    let building = OperationStage::Building { binary: "/w/bin".to_owned() };
    let (_, action) = next_step(Operation::Build, app, &entry, root, building, OperationEvent::CommandRan(None));
    assert!(matches!(
        action,
        OperationAction::Fail(message) if message == "start locked release build for `nucleo-f401re-blinky`"
    ));
    let building = OperationStage::Building { binary: "/w/bin".to_owned() };
    let (_, action) = next_step(Operation::Build, app, &entry, root, building, OperationEvent::CommandRan(Some(outcome(true))));
    assert!(matches!(
        action,
        OperationAction::Succeed(message) if message == "built application `nucleo-f401re-blinky` at /w/bin"
    ));
    let checking = OperationStage::CheckingBinary { binary: "/w/bin".to_owned() };
    let (_, action) = next_step(Operation::Embed, app, &entry, root, checking, OperationEvent::BinaryFound(false));
    assert!(matches!(
        action,
        OperationAction::Fail(message)
            if message == "release build succeeded but the expected ELF is missing at /w/bin"
    ));
    let (_, action) = next_step(Operation::Embed, app, &entry, root, OperationStage::Probing, OperationEvent::CommandRan(None));
    assert!(matches!(
        action,
        OperationAction::Fail(message)
            if message == "start cargo embed; install probe-rs-tools or ensure cargo-embed is on PATH"
    ));
}

#[test]
fn check_generate_and_clean_report_their_outcome() {
    let entry = application("foxeer-f405-v2").unwrap();
    let app = "foxeer-f405-v2";
    let (stage, action) = next_step(Operation::Check, app, &entry, "/w", OperationStage::Start, OperationEvent::Begin);
    assert!(matches!(action, OperationAction::Render));
    let (_, action) = next_step(Operation::Check, app, &entry, "/w", stage, OperationEvent::Rendered(Ok(String::new())));
    assert!(matches!(
        action,
        OperationAction::Succeed(message) if message == "application `foxeer-f405-v2` resolves and renders successfully"
    ));
    let (_, action) = next_step(Operation::Generate, app, &entry, "/w", OperationStage::Rendering, OperationEvent::Rendered(Ok("/w/generated/foxeer-f405-v2/working".to_owned())));
    assert!(matches!(
        action,
        OperationAction::Succeed(message) if message == "generated application `foxeer-f405-v2` at /w/generated/foxeer-f405-v2/working"
    ));
    let (stage, action) = next_step(Operation::Clean, app, &entry, "/w", OperationStage::Start, OperationEvent::Begin);
    assert!(matches!(action, OperationAction::Clean));
    let (_, action) = next_step(Operation::Clean, app, &entry, "/w", stage, OperationEvent::Cleaned(Ok(())));
    assert!(matches!(
        action,
        OperationAction::Succeed(message) if message == "cleaned generated state for `foxeer-f405-v2`"
    ));
}

#[test]
fn rendered_text_reads_back_what_was_stored() {
    let mut rendered = RenderedApplication::new();
    assert_eq!(
        rendered.text("src/main.rs").unwrap_err(),
        "rendered application has no `src/main.rs`"
    );
    rendered.insert_text("src/main.rs", "fn main() {}\n".to_owned());
    rendered.insert_text("SAFETY_SPINE.md", "# Spine\n".to_owned());
    rendered.insert_text("src/main.rs", "fn main() { run() }\n".to_owned());
    assert_eq!(rendered.text("src/main.rs").unwrap(), "fn main() { run() }\n");
    assert_eq!(rendered.text("SAFETY_SPINE.md").unwrap(), "# Spine\n");
    assert_eq!(rendered.files.len(), 2);
    rendered.files.push(("memory.x".to_owned(), vec![0xff, 0xfe]));
    assert_eq!(rendered.text("memory.x").unwrap_err(), "rendered file `memory.x` is not UTF-8");
    let empty: RenderedApplication = Default::default();
    assert!(empty.files.is_empty());
}

#[test]
fn host_motor_bank_accepts_commands_quietly() {
    let mut bank = DshotMotorBank {};
    bank.command_stop();
    assert!(bank.command_throttles([48, 48, 48, 48], 10, 100).is_ok());
    assert!(bank.request_telemetry(DshotMotor::Motor2).is_ok());
    assert_eq!(bank.service(11), DshotServiceEvent::FrameStarted);
    assert_eq!(bank.take_telemetry_request_sent(), None);
    assert_eq!(bank.on_dma_interrupt(DshotMotor::Motor4), DshotInterruptEvent::Completed);
}

#[test]
fn driver_events_match_their_stages() {
    assert!(event_expected(&OperationStage::Start, &OperationEvent::Begin));
    assert!(!event_expected(&OperationStage::Start, &OperationEvent::BinaryFound(true)));
    assert!(event_expected(&OperationStage::Rendering, &OperationEvent::Rendered(Ok(String::new()))));
    assert!(!event_expected(&OperationStage::Finished, &OperationEvent::Begin));
}

#[test]
fn stages_belong_to_the_operations_that_pass_through_them() {
    assert!(stage_in_operation(Operation::Check, &OperationStage::Rendering));
    assert!(!stage_in_operation(Operation::Clean, &OperationStage::Rendering));
    assert!(stage_in_operation(Operation::Clean, &OperationStage::Cleaning));
    assert!(!stage_in_operation(Operation::Build, &OperationStage::Probing));
    assert!(stage_in_operation(Operation::Flash, &OperationStage::Probing));
    assert!(!stage_in_operation(Operation::Generate, &OperationStage::Building { binary: String::new() }));
}
