use app_builder::runner::{
    cargo_check_command, cargo_fmt_check_command, cargo_release_build_command, embed_command,
    flash_command, join_path, CommandSpec,
};

fn strings(values: &[&str]) -> Vec<String> {
    values.iter().map(|value| value.to_string()).collect()
}

#[test]
fn release_build_is_locked_targeted_and_confined() {
    let working = "generated/foxeer-f405-v2/working";
    let target_dir = "generated/foxeer-f405-v2/target";
    let command = cargo_release_build_command(working, "thumbv7em-none-eabihf", target_dir);
    assert_eq!(command.program, "cargo");
    assert_eq!(
        command.args,
        strings(&[
            "build",
            "--manifest-path",
            "generated/foxeer-f405-v2/working/Cargo.toml",
            "--target",
            "thumbv7em-none-eabihf",
            "--release",
            "--locked"
        ])
    );
    assert_eq!(command.cwd, working);
    assert_eq!(
        command.env_overrides,
        vec![("CARGO_TARGET_DIR".to_string(), target_dir.to_string())]
    );
}

#[test]
fn formatting_and_check_commands_are_exact() {
    let working = "generated/app/staging";
    let target_dir = "generated/app/target";
    assert_eq!(
        cargo_fmt_check_command(working, target_dir).args,
        strings(&[
            "fmt",
            "--manifest-path",
            "generated/app/staging/Cargo.toml",
            "--",
            "--check"
        ])
    );
    assert_eq!(
        cargo_check_command(working, "thumbv7em-none-eabihf", target_dir).args,
        strings(&[
            "check",
            "--manifest-path",
            "generated/app/staging/Cargo.toml",
            "--target",
            "thumbv7em-none-eabihf",
            "--locked"
        ])
    );
}

#[test]
fn hardware_commands_are_exact_and_shell_free() {
    let root = "builder";
    let binary = "target/thumbv7em-none-eabihf/release/firmware";
    let flash = flash_command(root, "STM32F405RG", binary);
    assert_eq!(flash.program, "probe-rs");
    assert_eq!(
        flash.args,
        strings(&[
            "download",
            "--chip",
            "STM32F405RG",
            "--protocol",
            "swd",
            "--verify",
            "--reset",
            "target/thumbv7em-none-eabihf/release/firmware"
        ])
    );

    let embed = embed_command(root, "STM32F401RE", binary);
    assert_eq!(embed.program, "cargo");
    assert_eq!(
        embed.args,
        strings(&[
            "embed",
            "--chip",
            "STM32F401RE",
            "--path",
            "target/thumbv7em-none-eabihf/release/firmware"
        ])
    );
}

#[test]
fn argv_lists_program_then_arguments() {
    let command = CommandSpec::new("cargo", "w").arg("build").env("K", "V");
    assert_eq!(command.argv(), strings(&["cargo", "build"]));
    assert_eq!(command.env_overrides, vec![("K".to_string(), "V".to_string())]);
}

#[test]
fn paths_join_with_one_separator() {
    assert_eq!(join_path("a", "Cargo.toml"), "a/Cargo.toml");
    assert_eq!(join_path("a/", "Cargo.toml"), "a/Cargo.toml");
    assert_eq!(join_path("", "Cargo.toml"), "Cargo.toml");
}
