use app_builder::input_catalog::{
    application, application_names, applications, rust_inputs, validate, validate_application_entries,
    validate_applications, validate_entries, validate_relative_output, working_directory, ApplicationEntry,
    ApplicationInput, InputKind, RustInput,
};

#[test]
fn explicit_catalog_is_complete_unique_and_physically_partitioned() {
    let inputs = rust_inputs();
    let present = vec![true; inputs.len()];
    validate(&present).unwrap();

    let count = |kind| inputs.iter().filter(|input| input.kind == kind).count();
    assert_eq!(count(InputKind::Board), 1);
    assert_eq!(count(InputKind::App), 5);
    assert_eq!(count(InputKind::PortableTask), 4);
    assert_eq!(count(InputKind::AppTask), 5);
    assert_eq!(count(InputKind::BackendTask), 24);
}

#[test]
fn missing_and_duplicate_registrations_fail_clearly() {
    let inputs = rust_inputs();
    let duplicate_id = vec![inputs[0], inputs[0]];
    assert!(validate_entries(&duplicate_id, &vec![true, true])
        .unwrap_err()
        .to_string()
        .contains("ID"));

    let duplicate_path = vec![
        inputs[0],
        RustInput {
            id: "distinct_board_id",
            ..inputs[0]
        },
    ];
    assert!(validate_entries(&duplicate_path, &vec![true, true])
        .unwrap_err()
        .to_string()
        .contains("path"));

    let missing = vec![RustInput {
        id: "missing",
        kind: InputKind::App,
        path: "apps/foxeer-f405-v2/not-present.rs",
    }];
    assert!(validate_entries(&missing, &vec![false])
        .unwrap_err()
        .to_string()
        .contains("missing"));
}

#[test]
fn missing_registration_names_id_and_path() {
    let missing = vec![RustInput {
        id: "missing",
        kind: InputKind::App,
        path: "apps/foxeer-f405-v2/not-present.rs",
    }];
    assert_eq!(
        validate_entries(&missing, &vec![false]).unwrap_err(),
        "registered Rust input `missing` is missing at `apps/foxeer-f405-v2/not-present.rs`"
    );
}

#[test]
fn application_catalog_lookup() {
    assert_eq!(
        application_names(),
        vec!["foxeer-f405-v2", "nucleo-f401re-blinky", "nucleo-f401re-osd"]
    );
    assert!(matches!(
        application("foxeer-f405-v2").unwrap().input,
        ApplicationInput::RustComposition
    ));
    assert_eq!(application("nucleo-f401re-osd").unwrap().probe_chip, "STM32F401RE");
    assert_eq!(
        application("unknown").unwrap_err(),
        "unknown application `unknown`; expected one of: foxeer-f405-v2, nucleo-f401re-blinky, nucleo-f401re-osd"
    );
}

#[test]
fn manifests_must_be_confined_and_present() {
    let catalog = applications();
    validate_applications(&vec![(true, true); 3]).unwrap();
    validate_application_entries(&catalog, &vec![(true, true); 3]).unwrap();
    let escaping = ApplicationEntry {
        id: "escape",
        input: ApplicationInput::ValidationManifest {
            application_path: "../outside.toml",
            bsp_path: "bsp/nucleo-f401re.toml",
        },
        ..catalog[1]
    };
    assert_eq!(
        validate_application_entries(&vec![escaping], &vec![(true, true)]).unwrap_err(),
        "application input for `escape` is not confined: `../outside.toml`"
    );
    assert_eq!(
        validate_application_entries(&catalog, &vec![(true, true), (true, false), (true, true)])
            .unwrap_err(),
        "BSP input for `nucleo-f401re-blinky` is missing at `bsp/nucleo-f401re.toml`"
    );
    let duplicate = vec![catalog[0], catalog[0]];
    assert_eq!(
        validate_application_entries(&duplicate, &vec![(true, true); 2]).unwrap_err(),
        "application ID `foxeer-f405-v2` is registered more than once"
    );
}

#[test]
fn output_locations_are_safe() {
    assert_eq!(
        working_directory("foxeer-f405-v2").unwrap(),
        "generated/foxeer-f405-v2/working"
    );
    assert_eq!(
        working_directory("../x").unwrap_err(),
        "application ID is not a safe output component: `../x`"
    );
    assert!(working_directory("").is_err());
    assert!(working_directory("Foxeer").is_err());
    validate_relative_output("src/main.rs").unwrap();
    validate_relative_output("a/./b.rs").unwrap();
    assert!(validate_relative_output("/etc/passwd").is_err());
    assert!(validate_relative_output("./main.rs").is_err());
    assert_eq!(
        validate_relative_output("src/../../x").unwrap_err(),
        "renderer produced unsafe output path `src/../../x`"
    );
    validate_relative_output("src/..x/y").unwrap();
}

#[test]
fn application_catalog_is_explicit_complete_and_confined() {
    let catalog = applications();
    validate_application_entries(&catalog, &vec![(true, true); catalog.len()]).unwrap();
    assert_eq!(
        application_names(),
        vec!["foxeer-f405-v2", "nucleo-f401re-blinky", "nucleo-f401re-osd"]
    );
    assert!(matches!(
        application("foxeer-f405-v2").unwrap().input,
        ApplicationInput::RustComposition
    ));
    for id in ["nucleo-f401re-blinky", "nucleo-f401re-osd"] {
        assert!(matches!(
            application(id).unwrap().input,
            ApplicationInput::ValidationManifest { .. }
        ));
    }
}

#[test]
fn duplicate_and_unconfined_application_entries_fail() {
    let catalog = applications();
    let duplicate = vec![catalog[0], catalog[0]];
    assert!(validate_application_entries(&duplicate, &vec![(true, true); 2])
        .unwrap_err()
        .to_string()
        .contains("registered more than once"));

    let unconfined = vec![ApplicationEntry {
        id: "unconfined",
        input: ApplicationInput::ValidationManifest {
            application_path: "../outside.toml",
            bsp_path: "bsp/nucleo-f401re.toml",
        },
        rust_target: "thumbv7em-none-eabihf",
        probe_chip: "STM32F401RE",
        binary_name: "rtic-generated-app",
    }];
    assert!(validate_application_entries(&unconfined, &vec![(true, true)])
        .unwrap_err()
        .to_string()
        .contains("not confined"));

    let missing = vec![ApplicationEntry {
        id: "missing",
        input: ApplicationInput::ValidationManifest {
            application_path: "applications/not-present.toml",
            bsp_path: "bsp/nucleo-f401re.toml",
        },
        rust_target: "thumbv7em-none-eabihf",
        probe_chip: "STM32F401RE",
        binary_name: "rtic-generated-app",
    }];
    assert!(validate_application_entries(&missing, &vec![(false, true)])
        .unwrap_err()
        .to_string()
        .contains("missing"));
}
