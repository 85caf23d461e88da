use calibrator::xtask::{
    captured, default_msi_path, ensure_modern_cargo_wix, ensure_wix_cli, help_text, output_checked,
    package_msi, require_windows_host, run, run_checked, Packaging, Phase, Task, ToolOutcome,
    CARGO_WIX_MAIN_REV,
};

fn read(arguments: &[&str]) -> Result<Task, String> {
    run(&arguments.iter().map(|text| (*text).to_owned()).collect())
}

fn target(arguments: &[&str]) -> Option<String> {
    match read(arguments) {
        Ok(Task::PackageMsi(target)) => target,
        other => panic!("{other:?}"),
    }
}

fn succeeded(output: &str) -> ToolOutcome {
    ToolOutcome::Succeeded {
        output: output.to_owned(),
    }
}

fn failed() -> ToolOutcome {
    ToolOutcome::Failed {
        status: "exit code: 101".to_owned(),
        output: "out".to_owned(),
        errors: "err".to_owned(),
    }
}

fn not_run() -> ToolOutcome {
    ToolOutcome::NotRun {
        reason: "not found".to_owned(),
    }
}

fn checked(target: Option<&str>) -> Packaging {
    let mut packaging = package_msi(target.map(str::to_owned), '\\', true);
    packaging.answer(&succeeded("--toolset <toolset> --migrate <migrate>"));
    packaging.answer(&succeeded("a --schema <schema> b"));
    packaging.answer(&succeeded("\r\n 5.0.2+abc \n"));
    packaging
}

#[test]
fn command_line_selects_the_task() {
    assert!(matches!(read(&[]), Ok(Task::Help)));
    for help in ["help", "-h", "--help"] {
        assert!(matches!(read(&[help, "package-msi"]), Ok(Task::Help)));
    }
    assert!(matches!(
        read(&["package-msi"]),
        Ok(Task::PackageMsi(None))
    ));
    assert_eq!(
        read(&["bulid"]).unwrap_err(),
        "unknown xtask command `bulid`. Run `cargo xtask help`."
    );
}

#[test]
fn last_named_target_counts() {
    assert_eq!(
        target(&["package-msi", "--target", "a"]).as_deref(),
        Some("a")
    );
    assert_eq!(
        target(&["package-msi", "--target=b"]).as_deref(),
        Some("b")
    );
    assert_eq!(
        target(&["package-msi", "--target=b", "x", "--target", "c", "--verbose"]).as_deref(),
        Some("c")
    );
    assert_eq!(target(&["package-msi", "--target="]).as_deref(), Some(""));
    assert_eq!(target(&["package-msi", "--target=b", "--target"]), None);
    assert_eq!(
        target(&["package-msi", "--target", "--target"]).as_deref(),
        Some("--target")
    );
}

#[test]
fn package_lies_below_the_target_directory() {
    assert_eq!(
        default_msi_path(None),
        ["target", "wix", "calibrator-0.1.0-x86_64.msi"]
    );
    assert_eq!(
        default_msi_path(Some("x86_64-pc-windows-msvc")),
        [
            "target",
            "wix",
            "calibrator-0.1.0-x86_64-pc-windows-msvc.msi"
        ]
    );
}

#[test]
fn package_needs_windows() {
    assert_eq!(require_windows_host(true), Ok(()));
    assert_eq!(
        require_windows_host(false).unwrap_err(),
        "this xtask command must be run on Windows"
    );
    let packaging = package_msi(None, '/', false);
    assert_eq!(packaging.phase(), Phase::Failed);
    assert_eq!(
        packaging.message(),
        "this xtask command must be run on Windows"
    );
    assert!(packaging.command().is_empty());
}

#[test]
fn old_cargo_wix_is_refused() {
    let help = "--toolset <toolset>\n--migrate <migrate>";
    let init_help = "--schema <schema>";
    assert_eq!(ensure_modern_cargo_wix(help, init_help), Ok(()));
    for (help, init_help) in [
        ("--toolset <toolset>", init_help),
        ("--migrate <migrate>", init_help),
        (help, ""),
        (help, "--schema"),
    ] {
        assert_eq!(
            ensure_modern_cargo_wix(help, init_help).unwrap_err(),
            format!(
                "installed cargo-wix does not expose modern WiX support. Install the pinned upstream build with: cargo install --git https://github.com/volks73/cargo-wix --rev {CARGO_WIX_MAIN_REV} cargo-wix --force"
            )
        );
    }
}

#[test]
fn wix_version_has_to_be_supported() {
    for version in ["4.0.0", "5", " 6.1\n", "\u{a0}7.0", "40"] {
        assert_eq!(ensure_wix_cli(version), Ok(()));
    }
    for (version, shown) in [("3.11\r\n", "3.11"), ("", ""), ("v4", "v4"), ("8.0 ", "8.0")] {
        assert_eq!(
            ensure_wix_cli(version).unwrap_err(),
            format!(
                "modern WiX CLI 4 or newer is required; `wix --version` returned `{shown}`"
            )
        );
    }
}

#[test]
fn tool_failures_name_the_tool() {
    assert_eq!(run_checked("cargo build", &succeeded("")), Ok(()));
    assert_eq!(
        run_checked("cargo build", &failed()).unwrap_err(),
        "`cargo build` failed with status exit code: 101"
    );
    assert_eq!(
        run_checked("cargo build", &not_run()).unwrap_err(),
        "failed to run `cargo build`: not found"
    );
    assert_eq!(
        output_checked("wix --version", &succeeded("5.0")).unwrap(),
        "5.0"
    );
    assert_eq!(
        output_checked("wix --version", &failed()).unwrap_err(),
        "`wix --version` failed with status exit code: 101:\nouterr"
    );
    assert_eq!(
        output_checked("wix --version", &not_run()).unwrap_err(),
        "failed to run `wix --version`: not found"
    );
}

#[test]
fn package_is_made_phase_by_phase() {
    let mut packaging = package_msi(None, '\\', true);
    assert_eq!(packaging.phase(), Phase::CargoWixHelp);
    assert_eq!(packaging.command(), ["cargo", "wix", "--help"]);
    packaging.answer(&succeeded("--migrate <migrate> --toolset <toolset>"));
    assert_eq!(packaging.command(), ["cargo", "wix", "init", "--help"]);
    packaging.answer(&succeeded("--schema <schema>"));
    assert_eq!(packaging.command(), ["wix", "--version"]);
    packaging.answer(&succeeded("4.0.5\n"));
    assert_eq!(packaging.phase(), Phase::Build);
    assert_eq!(
        packaging.command(),
        ["cargo", "build", "--release", "--locked", "--package", "calibrator"]
    );
    packaging.answer(&succeeded(""));
    assert_eq!(packaging.phase(), Phase::CreateDirectory);
    assert!(packaging.command().is_empty());
    packaging.answer(&succeeded(""));
    assert_eq!(packaging.phase(), Phase::Wix);
    assert_eq!(
        packaging.command().join(" "),
        "cargo wix --toolset modern --migrate none --no-build --target-bin-dir target\\release --package calibrator --nocapture --output target\\wix\\calibrator-0.1.0-x86_64.msi"
    );
    packaging.answer(&succeeded(""));
    assert_eq!(packaging.phase(), Phase::Done);
    assert_eq!(packaging.message(), "MSI written to target\\wix\\calibrator-0.1.0-x86_64.msi");
}

#[test]
fn target_is_handed_to_both_builds() {
    let mut packaging = checked(Some("arm"));
    assert_eq!(
        packaging.command(),
        [
            "cargo",
            "build",
            "--release",
            "--locked",
            "--package",
            "calibrator",
            "--target",
            "arm",
        ]
    );
    packaging.answer(&succeeded(""));
    packaging.answer(&succeeded(""));
    assert_eq!(packaging.command()[8], "target\\arm\\release");
    assert_eq!(
        packaging.command()[13],
        "target\\wix\\calibrator-0.1.0-arm.msi"
    );
    assert_eq!(packaging.msi(), "target\\wix\\calibrator-0.1.0-arm.msi");
    assert_eq!(
        package_msi(None, '/', true).msi(),
        "target/wix/calibrator-0.1.0-x86_64.msi"
    );
}

#[test]
fn failed_phase_ends_the_package() {
    let mut packaging = checked(None);
    packaging.answer(&failed());
    assert_eq!(packaging.phase(), Phase::Failed);
    let message = "`cargo build --release --locked --package calibrator` failed with status exit code: 101";
    assert_eq!(packaging.message(), message);
    packaging.answer(&succeeded(""));
    assert_eq!(packaging.message(), message);

    let mut packaging = checked(None);
    packaging.answer(&succeeded(""));
    packaging.answer(&ToolOutcome::NoDirectory {
        directory: "target\\wix".to_owned(),
        reason: "denied".to_owned(),
    });
    assert_eq!(packaging.message(), "failed to create `target\\wix`: denied");

    let mut packaging = package_msi(None, '/', true);
    packaging.answer(&failed());
    assert_eq!(
        packaging.message(),
        "`cargo wix --help` failed with status exit code: 101:\nouterr"
    );

    let mut packaging = package_msi(None, '/', true);
    packaging.answer(&succeeded(""));
    packaging.answer(&succeeded("--schema <schema>"));
    assert!(packaging.message().starts_with("installed cargo-wix"));
}

#[test]
fn help_names_the_pinned_revision() {
    let help = help_text();
    assert!(help.starts_with("calibrator xtask\n\nCommands:\n  package-msi [--target <TARGET>]"));
    assert!(help.contains("Build target\\wix\\calibrator-0.1.0-<TARGET>.msi"));
    assert!(help.ends_with(
        "--rev fde983c2e901970267e76b8fd68120fdd5457a57 cargo-wix --force"
    ));
}

#[test]
fn captured_bytes_are_read_as_text() {
    let outcome = captured(
        true,
        "exit code: 0".to_owned(),
        "5.0 \u{e9}".as_bytes().to_vec(),
        Vec::new(),
    );
    assert_eq!(output_checked("wix", &outcome).unwrap(), "5.0 \u{e9}");
    let outcome = captured(true, String::new(), vec![b'5', 0xff], Vec::new());
    assert_eq!(output_checked("wix", &outcome).unwrap(), "5\u{fffd}");
    let outcome = captured(
        false,
        "exit code: 2".to_owned(),
        b"out".to_vec(),
        b"err".to_vec(),
    );
    assert_eq!(
        output_checked("wix", &outcome).unwrap_err(),
        "`wix` failed with status exit code: 2:\nouterr"
    );
    assert_eq!(
        run_checked("wix", &outcome).unwrap_err(),
        "`wix` failed with status exit code: 2"
    );
}
