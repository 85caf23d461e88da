//! The maintenance tasks: what a task's command line asks for, and how the installer package is
//! built.

use vstd::prelude::*;
use vstd::utf8::{decode_utf8, valid_utf8};

use crate::text::{
    after_prefix, characters, contains, join, joined, occurs_in, same_text, strip_prefix, texts, trim, trimmed,
};

verus! {

/// The revision of `cargo-wix` that is known to work.
pub const CARGO_WIX_MAIN_REV: &'static str = "fde983c2e901970267e76b8fd68120fdd5457a57";

/// What a command line asks for.
#[derive(Debug)]
pub enum Task {
    /// Build the installer package, for a target if one is named.
    PackageMsi(Option<String>),
    Help,
}

/// What a command line asks for, as text.
pub enum TaskView {
    PackageMsi(Option<Seq<char>>),
    Help,
}

impl View for Task {
    type V = TaskView;

    open spec fn view(&self) -> TaskView {
        match *self {
            Task::PackageMsi(target) => TaskView::PackageMsi(optional_text(target)),
            Task::Help => TaskView::Help,
        }
    }
}

/// A text that may be missing.
pub open spec fn optional_text(text: Option<String>) -> Option<Seq<char>> {
    match text {
        Some(text) => Some(text@),
        None => None,
    }
}

/// The target that arguments name, where one may have been named before them. The last one counts,
/// and a flag without a value takes the target back. Other arguments are passed over.
pub open spec fn named_target(arguments: Seq<Seq<char>>, before: Option<Seq<char>>) -> Option<
    Seq<char>,
>
    decreases arguments.len(),
{
    if arguments.len() == 0 {
        before
    } else if arguments[0] == "--target"@ {
        if arguments.len() == 1 {
            None
        } else {
            named_target(arguments.skip(2), Some(arguments[1]))
        }
    } else {
        match after_prefix(arguments[0], "--target="@) {
            Some(target) => named_target(arguments.skip(1), Some(target)),
            None => named_target(arguments.skip(1), before),
        }
    }
}

/// What a command line asks for: a task, or one that there is not. A command line without a task
/// asks for help.
pub open spec fn requested(arguments: Seq<Seq<char>>) -> Result<TaskView, Seq<char>> {
    if arguments.len() == 0 {
        Ok(TaskView::Help)
    } else {
        let command = arguments[0];
        if command == "package-msi"@ {
            Ok(TaskView::PackageMsi(named_target(arguments.skip(1), None)))
        } else if command == "help"@ || command == "-h"@ || command == "--help"@ {
            Ok(TaskView::Help)
        } else {
            Err("unknown xtask command `"@ + command + "`. Run `cargo xtask help`."@)
        }
    }
}

/// Finds the target that the arguments after the command name.
fn find_target(arguments: &Vec<String>) -> (target: Option<String>)
    requires
        arguments.len() > 0,
    ensures
        optional_text(target) == named_target(texts(arguments@).skip(1), None),
{
    let ghost all = texts(arguments@);
    let mut target: Option<String> = None;
    let mut index: usize = 1;
    while index < arguments.len()
        invariant
            all == texts(arguments@),
            1 <= index <= arguments.len(),
            named_target(all.skip(index as int), optional_text(target)) == named_target(
                all.skip(1),
                None,
            ),
        decreases arguments.len() - index,
    {
        let ghost rest = all.skip(index as int);
        let argument: &str = arguments[index].as_str();
        assert(rest[0] == argument@);
        if same_text(argument, "--target") {
            if index + 1 < arguments.len() {
                let value: &str = arguments[index + 1].as_str();
                assert(rest[1] == value@);
                assert(rest.skip(2) =~= all.skip(index + 2));
                target = Some(value.to_owned());
                index = index + 2;
            } else {
                return None;
            }
        } else {
            assert(rest.skip(1) =~= all.skip(index + 1));
            if let Some(value) = strip_prefix(argument, "--target=") {
                target = Some(value.to_owned());
            }
            index = index + 1;
        }
    }
    assert(all.skip(index as int).len() == 0);
    target
}

/// Reads a command line, without the name of the program.
pub fn run(arguments: &Vec<String>) -> (task: Result<Task, String>)
    ensures
        match requested(texts(arguments@)) {
            Ok(expected) => task is Ok && task->Ok_0@ == expected,
            Err(message) => task is Err && task->Err_0@ == message,
        },
        arguments.len() == 0 ==> task == Ok::<Task, String>(Task::Help),
        arguments.len() > 0 ==> {
            let command = arguments@[0]@;
            if command == "package-msi"@ {
                task matches Ok(Task::PackageMsi(target)) && optional_text(target) == named_target(
                    texts(arguments@).skip(1),
                    None,
                )
            } else if command == "help"@ || command == "-h"@ || command == "--help"@ {
                task == Ok::<Task, String>(Task::Help)
            } else {
                task matches Err(message) && message@ == "unknown xtask command `"@ + command
                    + "`. Run `cargo xtask help`."@
            }
        },
{
    proof {
        reveal_strlit("package-msi");
        reveal_strlit("help");
        reveal_strlit("-h");
        reveal_strlit("--help");
    }
    if arguments.len() == 0 {
        return Ok(Task::Help);
    }
    let command: &str = arguments[0].as_str();
    assert(texts(arguments@)[0] == command@);
    if same_text(command, "package-msi") {
        return Ok(Task::PackageMsi(find_target(arguments)));
    }
    if same_text(command, "help") || same_text(command, "-h") || same_text(command, "--help") {
        return Ok(Task::Help);
    }
    let mut message: String = "unknown xtask command `".to_owned();
    message.append(command);
    message.append("`. Run `cargo xtask help`.");
    Err(message)
}

/// The help.
pub fn help_text() -> (text: String)
    ensures
        text@
            == "calibrator xtask\n\nCommands:\n  package-msi [--target <TARGET>]   Build target\\wix\\calibrator-0.1.0-<TARGET>.msi with cargo-wix and modern WiX\n\nPinned cargo-wix main install:\n  "@
            + pinned_install(),
{
    let mut text: String =
        "calibrator xtask\n\nCommands:\n  package-msi [--target <TARGET>]   Build target\\wix\\calibrator-0.1.0-<TARGET>.msi with cargo-wix and modern WiX\n\nPinned cargo-wix main install:\n  ".to_owned();
    push_pinned_install(&mut text);
    text
}

/// How the revision of `cargo-wix` that is known to work is installed.
pub open spec fn pinned_install() -> Seq<char> {
    "cargo install --git https://github.com/volks73/cargo-wix --rev "@ + CARGO_WIX_MAIN_REV@
        + " cargo-wix --force"@
}

fn push_pinned_install(text: &mut String)
    ensures
        final(text)@ == old(text)@ + pinned_install(),
{
    text.append("cargo install --git https://github.com/volks73/cargo-wix --rev ");
    text.append(CARGO_WIX_MAIN_REV);
    text.append(" cargo-wix --force");
    assert(text@ =~= old(text)@ + pinned_install());
}

/// What came of running a tool, or of creating a directory.
#[derive(Debug)]
pub enum ToolOutcome {
    /// The tool could not be run at all.
    NotRun { reason: String },
    /// The tool ran and failed.
    Failed { status: String, output: String, errors: String },
    /// The directory could not be created.
    NoDirectory { directory: String, reason: String },
    /// What the tool wrote.
    Succeeded { output: String },
}

/// The text that bytes stand for, with replacement characters for what is not UTF-8.
pub uninterp spec fn decoded(bytes: Seq<u8>) -> Seq<char>;

/// Calls `String::from_utf8_lossy` of the standard library.
///
/// Trusted: the text depends on the bytes alone and has a name, and bytes that are UTF-8 give the
/// text that they encode. What stands for bytes that are not is left unsaid.
#[verifier::external_body]
fn decode(bytes: &Vec<u8>) -> (text: String)
    ensures
        text@ == decoded(bytes@),
        valid_utf8(bytes@) ==> text@ == decode_utf8(bytes@),
{
    String::from_utf8_lossy(bytes).into_owned()
}

/// What came of running a tool, from whether it succeeded and what it wrote.
pub fn captured(success: bool, status: String, output: Vec<u8>, errors: Vec<u8>) -> (outcome:
    ToolOutcome)
    ensures
        success ==> (outcome matches ToolOutcome::Succeeded { output: text } && text@ == decoded(
            output@,
        ) && (valid_utf8(output@) ==> text@ == decode_utf8(output@))),
        !success ==> (outcome matches ToolOutcome::Failed {
            status: same,
            output: text,
            errors: more,
        } && same == status && text@ == decoded(output@) && more@ == decoded(errors@) && (
        valid_utf8(output@) ==> text@ == decode_utf8(output@)) && (valid_utf8(errors@) ==> more@
            == decode_utf8(errors@))),
{
    if success {
        ToolOutcome::Succeeded { output: decode(&output) }
    } else {
        ToolOutcome::Failed { status, output: decode(&output), errors: decode(&errors) }
    }
}

/// What a failed tool leads to, where its output was captured.
pub open spec fn captured_failure(label: Seq<char>, outcome: ToolOutcome) -> Option<Seq<char>> {
    match outcome {
        ToolOutcome::Failed { status, output, errors } => Some(
            "`"@ + label + "` failed with status "@ + status@ + ":\n"@ + output@ + errors@,
        ),
        _ => failure(label, outcome),
    }
}

/// What a failed tool leads to, where its output went to the console.
pub open spec fn failure(label: Seq<char>, outcome: ToolOutcome) -> Option<Seq<char>> {
    match outcome {
        ToolOutcome::NotRun { reason } => Some("failed to run `"@ + label + "`: "@ + reason@),
        ToolOutcome::Failed { status, .. } => Some(
            "`"@ + label + "` failed with status "@ + status@,
        ),
        ToolOutcome::NoDirectory { directory, reason } => Some(
            "failed to create `"@ + directory@ + "`: "@ + reason@,
        ),
        ToolOutcome::Succeeded { .. } => None,
    }
}

/// What a tool run with a label came to, where its output went to the console.
pub fn run_checked(label: &str, outcome: &ToolOutcome) -> (result: Result<(), String>)
    ensures
        match failure(label@, *outcome) {
            Some(message) => result is Err && result->Err_0@ == message,
            None => result is Ok,
        },
{
    let mut message: String = String::new();
    match outcome {
        ToolOutcome::NotRun { reason } => {
            message.append("failed to run `");
            message.append(label);
            message.append("`: ");
            message.append(reason.as_str());
        },
        ToolOutcome::Failed { status, .. } => {
            message.append("`");
            message.append(label);
            message.append("` failed with status ");
            message.append(status.as_str());
        },
        ToolOutcome::NoDirectory { directory, reason } => {
            message.append("failed to create `");
            message.append(directory.as_str());
            message.append("`: ");
            message.append(reason.as_str());
        },
        ToolOutcome::Succeeded { .. } => {
            return Ok(());
        },
    }
    assert(message@ =~= failure(label@, *outcome)->0);
    Err(message)
}

/// What a tool run with a label came to, where its output was captured: the output, or why there
/// is none.
pub fn output_checked(label: &str, outcome: &ToolOutcome) -> (result: Result<String, String>)
    ensures
        match captured_failure(label@, *outcome) {
            Some(message) => result is Err && result->Err_0@ == message,
            None => result is Ok && result->Ok_0@ == outcome->Succeeded_output@,
        },
{
    match run_checked(label, outcome) {
        Ok(()) => {
            if let ToolOutcome::Succeeded { output } = outcome {
                return Ok(output.as_str().to_owned());
            }
            Ok(String::new())
        },
        Err(message) => {
            let mut message: String = message;
            if let ToolOutcome::Failed { output, errors, .. } = outcome {
                message.append(":\n");
                message.append(output.as_str());
                message.append(errors.as_str());
            }
            assert(message@ =~= captured_failure(label@, *outcome)->0);
            Err(message)
        },
    }
}

/// The installer package can be built on Windows only.
pub fn require_windows_host(windows: bool) -> (result: Result<(), String>)
    ensures
        result is Ok <==> windows,
        result is Err ==> result->Err_0@ == "this xtask command must be run on Windows"@,
{
    if windows {
        Ok(())
    } else {
        Err("this xtask command must be run on Windows".to_owned())
    }
}

/// Whether the help of `cargo-wix` and of its `init` command speak of what is needed.
pub open spec fn is_modern(help: Seq<char>, init_help: Seq<char>) -> bool {
    &&& occurs_in(help, "--toolset <toolset>"@)
    &&& occurs_in(help, "--migrate <migrate>"@)
    &&& occurs_in(init_help, "--schema <schema>"@)
}

/// What is said of a `cargo-wix` that is too old.
pub open spec fn outdated_cargo_wix() -> Seq<char> {
    "installed cargo-wix does not expose modern WiX support. Install the pinned upstream build with: "@
        + pinned_install()
}

/// Checks what `cargo-wix` can do by its help.
pub fn ensure_modern_cargo_wix(help: &str, init_help: &str) -> (result: Result<(), String>)
    ensures
        result is Ok <==> is_modern(help@, init_help@),
        result is Err ==> result->Err_0@ == outdated_cargo_wix(),
        result is Ok <==> occurs_in(help@, "--toolset <toolset>"@) && occurs_in(
            help@,
            "--migrate <migrate>"@,
        ) && occurs_in(init_help@, "--schema <schema>"@),
{
    if contains(help, "--toolset <toolset>") && contains(help, "--migrate <migrate>") && contains(
        init_help,
        "--schema <schema>",
    ) {
        return Ok(());
    }
    let mut message: String =
        "installed cargo-wix does not expose modern WiX support. Install the pinned upstream build with: ".to_owned();
    push_pinned_install(&mut message);
    Err(message)
}

/// Whether a version is one that is supported: it begins with a digit from four to seven.
pub open spec fn is_supported_version(version: Seq<char>) -> bool {
    version.len() > 0 && (version[0] == '4' || version[0] == '5' || version[0] == '6' || version[0]
        == '7')
}

/// What is said of a WiX that is not supported.
pub open spec fn unsupported_wix(version: Seq<char>) -> Seq<char> {
    "modern WiX CLI 4 or newer is required; `wix --version` returned `"@ + version + "`"@
}

/// Checks what WiX says its version is.
pub fn ensure_wix_cli(version: &str) -> (result: Result<(), String>)
    ensures
        result is Ok <==> is_supported_version(trimmed(version@)),
        result is Err ==> result->Err_0@ == unsupported_wix(trimmed(version@)),
        result is Ok <==> trimmed(version@).len() > 0 && '4' as int <= trimmed(version@)[0] as int
            <= '7' as int,
{
    let version: &str = trim(version);
    let all: Vec<char> = characters(version);
    if all.len() > 0 && (all[0] == '4' || all[0] == '5' || all[0] == '6' || all[0] == '7') {
        return Ok(());
    }
    let mut message: String =
        "modern WiX CLI 4 or newer is required; `wix --version` returned `".to_owned();
    message.append(version);
    message.append("`");
    Err(message)
}

/// The name of the installer package.
pub open spec fn msi_name(target: Option<Seq<char>>) -> Seq<char> {
    match target {
        Some(target) => "calibrator-0.1.0-"@ + target + ".msi"@,
        None => "calibrator-0.1.0-x86_64.msi"@,
    }
}

/// The path of the installer package, from the outermost directory to the name.
pub open spec fn msi_path(target: Option<Seq<char>>) -> Seq<Seq<char>> {
    seq!["target"@, "wix"@, msi_name(target)]
}

/// The path of the installer package, from the outermost directory to the name.
pub fn default_msi_path(target: Option<&str>) -> (path: Vec<String>)
    ensures
        texts(path@) == msi_path(
            match target {
                Some(target) => Some(target@),
                None => None,
            },
        ),
{
    let name: String = match target {
        Some(target) => {
            let mut name: String = "calibrator-0.1.0-".to_owned();
            name.append(target);
            name.append(".msi");
            name
        },
        None => "calibrator-0.1.0-x86_64.msi".to_owned(),
    };
    let ghost text = name@;
    let mut path: Vec<String> = Vec::new();
    path.push("target".to_owned());
    path.push("wix".to_owned());
    path.push(name);
    assert(texts(path@) =~= seq!["target"@, "wix"@, text]);
    path
}

/// How far the installer package is.
#[derive(Clone, Copy, Debug, PartialEq, Eq, Structural)]
pub enum Phase {
    /// Ask `cargo-wix` for its help, and capture it.
    CargoWixHelp,
    /// Ask its `init` command for its help, and capture it.
    CargoWixInitHelp,
    /// Ask WiX for its version, and capture it.
    WixVersion,
    /// Build the program.
    Build,
    /// Create the directory of the package.
    CreateDirectory,
    /// Build the package.
    Wix,
    Done,
    Failed,
}

/// The arguments that name a target.
pub open spec fn target_arguments(target: Option<Seq<char>>) -> Seq<Seq<char>> {
    match target {
        Some(target) => seq!["--target"@, target],
        None => seq![],
    }
}

/// The directory of the program.
pub open spec fn binary_directory(target: Option<Seq<char>>) -> Seq<char> {
    match target {
        Some(target) => "target\\"@ + target + "\\release"@,
        None => "target\\release"@,
    }
}

/// The program and arguments of a phase; none where no program is run.
pub open spec fn command_line(
    phase: Phase,
    target: Option<Seq<char>>,
    msi: Seq<char>,
) -> Seq<Seq<char>> {
    match phase {
        Phase::CargoWixHelp => seq!["cargo"@, "wix"@, "--help"@],
        Phase::CargoWixInitHelp => seq!["cargo"@, "wix"@, "init"@, "--help"@],
        Phase::WixVersion => seq!["wix"@, "--version"@],
        Phase::Build => seq![
            "cargo"@,
            "build"@,
            "--release"@,
            "--locked"@,
            "--package"@,
            "calibrator"@,
        ] + target_arguments(target),
        Phase::Wix => seq![
            "cargo"@,
            "wix"@,
            "--toolset"@,
            "modern"@,
            "--migrate"@,
            "none"@,
            "--no-build"@,
            "--target-bin-dir"@,
            binary_directory(target),
            "--package"@,
            "calibrator"@,
            "--nocapture"@,
            "--output"@,
            msi,
        ],
        _ => seq![],
    }
}

/// The making of the installer package.
#[derive(Debug)]
pub struct Packaging {
    target: Option<String>,
    msi: String,
    help: String,
    phase: Phase,
    message: String,
}

/// The making of the installer package, as text.
pub struct PackagingView {
    pub target: Option<Seq<char>>,
    pub msi: Seq<char>,
    /// The help of `cargo-wix`.
    pub help: Seq<char>,
    pub phase: Phase,
    /// What is said in the end.
    pub message: Seq<char>,
}

impl View for Packaging {
    type V = PackagingView;

    closed spec fn view(&self) -> PackagingView {
        PackagingView {
            target: optional_text(self.target),
            msi: self.msi@,
            help: self.help@,
            phase: self.phase,
            message: self.message@,
        }
    }
}

impl PackagingView {
    /// The beginning. Nothing is done unless the host is Windows.
    pub open spec fn start(target: Option<Seq<char>>, msi: Seq<char>, windows: bool) -> Self {
        PackagingView {
            target,
            msi,
            help: seq![],
            phase: if windows {
                Phase::CargoWixHelp
            } else {
                Phase::Failed
            },
            message: if windows {
                seq![]
            } else {
                "this xtask command must be run on Windows"@
            },
        }
    }

    /// The program and arguments that the present phase runs.
    pub open spec fn command(self) -> Seq<Seq<char>> {
        command_line(self.phase, self.target, self.msi)
    }

    /// The making fails with a message.
    pub open spec fn fail(self, message: Seq<char>) -> Self {
        PackagingView { phase: Phase::Failed, message, ..self }
    }

    /// The making goes on.
    pub open spec fn go_on(self, phase: Phase) -> Self {
        PackagingView { phase, ..self }
    }

    /// What follows the present phase, by what came of it.
    pub open spec fn next(self, outcome: ToolOutcome) -> Self {
        let label = joined(self.command(), ' ');
        match self.phase {
            Phase::CargoWixHelp => match captured_failure(label, outcome) {
                Some(message) => self.fail(message),
                None => PackagingView {
                    help: outcome->Succeeded_output@,
                    phase: Phase::CargoWixInitHelp,
                    ..self
                },
            },
            Phase::CargoWixInitHelp => match captured_failure(label, outcome) {
                Some(message) => self.fail(message),
                None => if is_modern(self.help, outcome->Succeeded_output@) {
                    self.go_on(Phase::WixVersion)
                } else {
                    self.fail(outdated_cargo_wix())
                },
            },
            Phase::WixVersion => match captured_failure(label, outcome) {
                Some(message) => self.fail(message),
                None => {
                    let version = trimmed(outcome->Succeeded_output@);
                    if is_supported_version(version) {
                        self.go_on(Phase::Build)
                    } else {
                        self.fail(unsupported_wix(version))
                    }
                },
            },
            Phase::Build => match failure(label, outcome) {
                Some(message) => self.fail(message),
                None => self.go_on(Phase::CreateDirectory),
            },
            Phase::CreateDirectory => match failure(label, outcome) {
                Some(message) => self.fail(message),
                None => self.go_on(Phase::Wix),
            },
            Phase::Wix => match failure(label, outcome) {
                Some(message) => self.fail(message),
                None => PackagingView {
                    phase: Phase::Done,
                    message: "MSI written to "@ + self.msi,
                    ..self
                },
            },
            Phase::Done | Phase::Failed => self,
        }
    }

    /// What follows a number of phases.
    pub open spec fn after(self, outcomes: Seq<ToolOutcome>) -> Self
        decreases outcomes.len(),
    {
        if outcomes.len() == 0 {
            self
        } else {
            self.after(outcomes.drop_last()).next(outcomes.last())
        }
    }
}

/// Begins to make the installer package for a target. The parts of its path are joined with the
/// separator of the host.
pub fn package_msi(target: Option<String>, separator: char, windows: bool) -> (packaging: Packaging)
    ensures
        packaging@ == PackagingView::start(
            optional_text(target),
            joined(msi_path(optional_text(target)), separator),
            windows,
        ),
{
    let path: Vec<String> = match &target {
        Some(target) => default_msi_path(Some(target.as_str())),
        None => default_msi_path(None),
    };
    let msi: String = join(&path, separator);
    match require_windows_host(windows) {
        Ok(()) => {
            let packaging = Packaging {
                target,
                msi,
                help: String::new(),
                phase: Phase::CargoWixHelp,
                message: String::new(),
            };
            assert(packaging@.help =~= seq![]);
            assert(packaging@.message =~= seq![]);
            packaging
        },
        Err(message) => {
            let packaging = Packaging {
                target,
                msi,
                help: String::new(),
                phase: Phase::Failed,
                message,
            };
            assert(packaging@.help =~= seq![]);
            packaging
        },
    }
}

impl Packaging {
    /// How far the package is.
    pub fn phase(&self) -> (phase: Phase)
        ensures
            phase == self@.phase,
    {
        self.phase
    }

    /// Where the package is written.
    pub fn msi(&self) -> (msi: &str)
        ensures
            msi@ == self@.msi,
    {
        self.msi.as_str()
    }

    /// What is said in the end.
    pub fn message(&self) -> (message: &str)
        ensures
            message@ == self@.message,
    {
        self.message.as_str()
    }

    /// The program and arguments that the present phase runs; nothing where it runs no program.
    pub fn command(&self) -> (command: Vec<String>)
        ensures
            texts(command@) == self@.command(),
    {
        let mut command: Vec<String> = Vec::new();
        match self.phase {
            Phase::CargoWixHelp => {
                command.push("cargo".to_owned());
                command.push("wix".to_owned());
                command.push("--help".to_owned());
            },
            Phase::CargoWixInitHelp => {
                command.push("cargo".to_owned());
                command.push("wix".to_owned());
                command.push("init".to_owned());
                command.push("--help".to_owned());
            },
            Phase::WixVersion => {
                command.push("wix".to_owned());
                command.push("--version".to_owned());
            },
            Phase::Build => {
                command.push("cargo".to_owned());
                command.push("build".to_owned());
                command.push("--release".to_owned());
                command.push("--locked".to_owned());
                command.push("--package".to_owned());
                command.push("calibrator".to_owned());
                if let Some(target) = &self.target {
                    command.push("--target".to_owned());
                    command.push(target.as_str().to_owned());
                }
            },
            Phase::Wix => {
                let directory: String = match &self.target {
                    Some(target) => {
                        let mut directory: String = "target\\".to_owned();
                        directory.append(target.as_str());
                        directory.append("\\release");
                        directory
                    },
                    None => "target\\release".to_owned(),
                };
                command.push("cargo".to_owned());
                command.push("wix".to_owned());
                command.push("--toolset".to_owned());
                command.push("modern".to_owned());
                command.push("--migrate".to_owned());
                command.push("none".to_owned());
                command.push("--no-build".to_owned());
                command.push("--target-bin-dir".to_owned());
                command.push(directory);
                command.push("--package".to_owned());
                command.push("calibrator".to_owned());
                command.push("--nocapture".to_owned());
                command.push("--output".to_owned());
                command.push(self.msi.as_str().to_owned());
            },
            _ => {},
        }
        assert(texts(command@) =~= self@.command());
        command
    }

    fn fail(&mut self, message: String)
        ensures
            final(self)@ == old(self)@.fail(message@),
    {
        self.phase = Phase::Failed;
        self.message = message;
    }

    /// Goes on by what came of the present phase.
    pub fn answer(&mut self, outcome: &ToolOutcome)
        ensures
            final(self)@ == old(self)@.next(*outcome),
    {
        let command: Vec<String> = self.command();
        let label: String = join(&command, ' ');
        match self.phase {
            Phase::CargoWixHelp => match output_checked(label.as_str(), outcome) {
                Ok(output) => {
                    self.help = output;
                    self.phase = Phase::CargoWixInitHelp;
                },
                Err(message) => {
                    self.fail(message);
                },
            },
            Phase::CargoWixInitHelp => match output_checked(label.as_str(), outcome) {
                Ok(output) => match ensure_modern_cargo_wix(self.help.as_str(), output.as_str()) {
                    Ok(()) => {
                        self.phase = Phase::WixVersion;
                    },
                    Err(message) => {
                        self.fail(message);
                    },
                },
                Err(message) => {
                    self.fail(message);
                },
            },
            Phase::WixVersion => match output_checked(label.as_str(), outcome) {
                Ok(output) => match ensure_wix_cli(output.as_str()) {
                    Ok(()) => {
                        self.phase = Phase::Build;
                    },
                    Err(message) => {
                        self.fail(message);
                    },
                },
                Err(message) => {
                    self.fail(message);
                },
            },
            Phase::Build => match run_checked(label.as_str(), outcome) {
                Ok(()) => {
                    self.phase = Phase::CreateDirectory;
                },
                Err(message) => {
                    self.fail(message);
                },
            },
            Phase::CreateDirectory => match run_checked(label.as_str(), outcome) {
                Ok(()) => {
                    self.phase = Phase::Wix;
                },
                Err(message) => {
                    self.fail(message);
                },
            },
            Phase::Wix => match run_checked(label.as_str(), outcome) {
                Ok(()) => {
                    let mut message: String = "MSI written to ".to_owned();
                    message.append(self.msi.as_str());
                    self.message = message;
                    self.phase = Phase::Done;
                },
                Err(message) => {
                    self.fail(message);
                },
            },
            Phase::Done | Phase::Failed => {},
        }
    }
}

/// A target can be named with its flag and value apart or in one: both mean the same.
pub proof fn target_spellings_agree(
    target: Seq<char>,
    rest: Seq<Seq<char>>,
    before: Option<Seq<char>>,
)
    ensures
        named_target(seq!["--target"@, target] + rest, before) == named_target(
            seq!["--target="@ + target] + rest,
            before,
        ),
{
    let apart = seq!["--target"@, target] + rest;
    let together = seq!["--target="@ + target] + rest;
    assert(apart.skip(2) =~= rest);
    assert(together.skip(1) =~= rest);
    reveal_strlit("--target");
    reveal_strlit("--target=");
    let argument = together[0];
    assert(argument.len() >= 9);
    assert("--target="@.is_prefix_of(argument));
    assert(argument.skip(9) =~= target);
}

/// A target that is named later takes the place of one that was named before.
pub proof fn last_target_counts(
    target: Seq<char>,
    arguments: Seq<Seq<char>>,
    before: Option<Seq<char>>,
)
    requires
        forall|i: int| 0 <= i < arguments.len() ==> #[trigger] arguments[i] != "--target"@,
    ensures
        named_target(arguments + seq!["--target"@, target], before) == Some(target),
    decreases arguments.len(),
{
    let all = arguments + seq!["--target"@, target];
    if arguments.len() == 0 {
        reveal_with_fuel(named_target, 2);
        assert(all[0] == "--target"@ && all[1] == target);
        assert(all.skip(2).len() == 0);
    } else {
        let rest = arguments.skip(1);
        assert forall|i: int| 0 <= i < rest.len() implies #[trigger] rest[i] != "--target"@ by {
            assert(rest[i] == arguments[i + 1]);
        }
        assert(all[0] == arguments[0]);
        assert(all.skip(1) =~= rest + seq!["--target"@, target]);
        match after_prefix(all[0], "--target="@) {
            Some(named) => last_target_counts(target, rest, Some(named)),
            None => last_target_counts(target, rest, before),
        }
    }
}

/// The package is done exactly when the host is Windows, the checks passed, and every phase
/// succeeded.
pub proof fn package_needs_every_phase(
    target: Option<Seq<char>>,
    msi: Seq<char>,
    windows: bool,
    outcomes: Seq<ToolOutcome>,
)
    requires
        outcomes.len() == 6,
    ensures
        PackagingView::start(target, msi, windows).after(outcomes).phase is Done <==> {
            &&& windows
            &&& forall|i: int| 0 <= i < 6 ==> #[trigger] outcomes[i] is Succeeded
            &&& is_modern(outcomes[0]->Succeeded_output@, outcomes[1]->Succeeded_output@)
            &&& is_supported_version(trimmed(outcomes[2]->Succeeded_output@))
        },
{
    reveal_with_fuel(PackagingView::after, 7);
    let start = PackagingView::start(target, msi, windows);
    let o5 = outcomes.drop_last();
    let o4 = o5.drop_last();
    let o3 = o4.drop_last();
    let o2 = o3.drop_last();
    let o1 = o2.drop_last();
    assert(start.after(o1.drop_last()) == start);
    assert(o1.last() == outcomes[0] && o2.last() == outcomes[1] && o3.last() == outcomes[2]
        && o4.last() == outcomes[3] && o5.last() == outcomes[4]);
    assert(start.after(o1) == start.next(outcomes[0]));
    assert(start.after(o2) == start.after(o1).next(outcomes[1]));
    assert(start.after(o3) == start.after(o2).next(outcomes[2]));
    assert(start.after(o4) == start.after(o3).next(outcomes[3]));
    assert(start.after(o5) == start.after(o4).next(outcomes[4]));
    assert(start.after(outcomes) == start.after(o5).next(outcomes[5]));
}

/// What is said of a failure stays, whatever comes after it.
pub proof fn failed_package_stays_failed(packaging: PackagingView, outcomes: Seq<ToolOutcome>)
    requires
        packaging.phase is Failed,
    ensures
        packaging.after(outcomes) == packaging,
    decreases outcomes.len(),
{
    if outcomes.len() > 0 {
        failed_package_stays_failed(packaging, outcomes.drop_last());
    }
}

/// The command lines that build the package for two targets differ in two values only: the directory
/// of the program, and the package that is written. The toolset is the modern one for every target.
pub proof fn package_commands_differ_in_two_values(one: PackagingView, other: PackagingView)
    requires
        one.phase is Wix,
        other.phase is Wix,
    ensures
        one.command().len() == 14,
        other.command().len() == 14,
        forall|i: int|
            0 <= i < 14 && #[trigger] one.command()[i] != other.command()[i] ==> i == 8 || i == 13,
        one.command()[0] == "cargo"@,
        one.command()[1] == "wix"@,
        one.command()[2] == "--toolset"@,
        one.command()[3] == "modern"@,
        one.command()[4] == "--migrate"@,
        one.command()[5] == "none"@,
        one.command()[6] == "--no-build"@,
        one.command()[7] == "--target-bin-dir"@,
        one.target is None ==> one.command()[8] == "target\\release"@,
        one.target matches Some(target) ==> one.command()[8] == "target\\"@ + target
            + "\\release"@,
        one.command()[9] == "--package"@,
        one.command()[10] == "calibrator"@,
        one.command()[11] == "--nocapture"@,
        one.command()[12] == "--output"@,
        one.command()[13] == one.msi,
{
}

/// Building the program for a target takes the command line without one, and names the target behind
/// it.
pub proof fn build_names_the_target_last(
    packaging: PackagingView,
    plain: PackagingView,
    target: Seq<char>,
)
    requires
        packaging.phase is Build,
        packaging.target == Some(target),
        plain.phase is Build,
        plain.target is None,
    ensures
        packaging.command() == plain.command() + seq!["--target"@, target],
        plain.command() == seq![
            "cargo"@,
            "build"@,
            "--release"@,
            "--locked"@,
            "--package"@,
            "calibrator"@,
        ],
{
    assert(plain.command() =~= seq![
        "cargo"@,
        "build"@,
        "--release"@,
        "--locked"@,
        "--package"@,
        "calibrator"@,
    ]);
    assert(packaging.command() =~= plain.command() + seq!["--target"@, target]);
}

/// What is asked of the tools beforehand is the same for every target. Creating a directory, and the
/// end, run no program.
pub proof fn tools_are_asked_the_same_for_every_target(packaging: PackagingView)
    ensures
        packaging.phase is CargoWixHelp ==> packaging.command() == seq![
            "cargo"@,
            "wix"@,
            "--help"@,
        ],
        packaging.phase is CargoWixInitHelp ==> packaging.command() == seq![
            "cargo"@,
            "wix"@,
            "init"@,
            "--help"@,
        ],
        packaging.phase is WixVersion ==> packaging.command() == seq!["wix"@, "--version"@],
        packaging.command().len() == 0 <==> packaging.phase is CreateDirectory
            || packaging.phase is Done || packaging.phase is Failed,
{
}

/// The package is written below the target directory, under a name with its target in it.
pub proof fn package_is_named_after_its_target(target: Seq<char>, separator: char)
    ensures
        joined(msi_path(Some(target)), separator) == "target"@ + seq![separator] + "wix"@ + seq![
            separator,
        ] + ("calibrator-0.1.0-"@ + target + ".msi"@),
        joined(msi_path(None), separator) == "target"@ + seq![separator] + "wix"@ + seq![separator]
            + "calibrator-0.1.0-x86_64.msi"@,
{
    let start = seq!["target"@];
    crate::text::separator_stands_between_parts(seq![], "target"@, separator);
    crate::text::separator_stands_between_parts(start, "wix"@, separator);
    let (named, plain) = (msi_name(Some(target)), msi_name(None));
    crate::text::separator_stands_between_parts(start.push("wix"@), named, separator);
    crate::text::separator_stands_between_parts(start.push("wix"@), plain, separator);
    assert(msi_path(Some(target)) =~= start.push("wix"@).push(named));
    assert(msi_path(None) =~= start.push("wix"@).push(plain));
}

/// The making begins with nothing said and nothing known, or fails at once where the host is not
/// Windows.
pub proof fn package_is_made_on_windows_only(
    target: Option<Seq<char>>,
    msi: Seq<char>,
    windows: bool,
)
    ensures
        ({
            let start = PackagingView::start(target, msi, windows);
            &&& start.target == target
            &&& start.msi == msi
            &&& windows ==> start.phase is CargoWixHelp && start.message.len() == 0
                && start.help.len() == 0
            &&& !windows ==> start.phase is Failed && start.message
                == "this xtask command must be run on Windows"@
        }),
{
}

/// A phase that succeeds leads to the next one: the two helps, the version, the program, the
/// directory, the package. What a check does not like ends the making instead.
pub proof fn success_leads_to_the_next_phase(packaging: PackagingView, output: String)
    ensures
        ({
            let next = packaging.next(ToolOutcome::Succeeded { output });
            let version = trimmed(output@);
            let supported = version.len() > 0 && '4' as int <= version[0] as int <= '7' as int;
            let modern = occurs_in(packaging.help, "--toolset <toolset>"@) && occurs_in(
                packaging.help,
                "--migrate <migrate>"@,
            ) && occurs_in(output@, "--schema <schema>"@);
            &&& next.target == packaging.target
            &&& next.msi == packaging.msi
            &&& packaging.phase is CargoWixHelp ==> next.phase is CargoWixInitHelp && next.help
                == output@ && next.message == packaging.message
            &&& !(packaging.phase is CargoWixHelp) ==> next.help == packaging.help
            &&& packaging.phase is CargoWixInitHelp && modern ==> next.phase is WixVersion
                && next.message == packaging.message
            &&& packaging.phase is CargoWixInitHelp && !modern ==> next.phase is Failed
                && next.message
                == "installed cargo-wix does not expose modern WiX support. Install the pinned upstream build with: "@
                + ("cargo install --git https://github.com/volks73/cargo-wix --rev "@
                + "fde983c2e901970267e76b8fd68120fdd5457a57"@ + " cargo-wix --force"@)
            &&& packaging.phase is WixVersion && supported ==> next.phase is Build && next.message
                == packaging.message
            &&& packaging.phase is WixVersion && !supported ==> next.phase is Failed && next.message
                == "modern WiX CLI 4 or newer is required; `wix --version` returned `"@ + version
                + "`"@
            &&& packaging.phase is Build ==> next.phase is CreateDirectory && next.message
                == packaging.message
            &&& packaging.phase is CreateDirectory ==> next.phase is Wix && next.message
                == packaging.message
            &&& packaging.phase is Wix ==> next.phase is Done && next.message == "MSI written to "@
                + packaging.msi
        }),
{
}

/// A phase that does not succeed ends the making, whichever phase it is, and what is said names the
/// command line and the reason. What a tool wrote is said only where it was captured.
pub proof fn failed_phase_ends_the_making(
    packaging: PackagingView,
    reason: String,
    directory: String,
    output: String,
    errors: String,
)
    requires
        !(packaging.phase is Done),
        !(packaging.phase is Failed),
    ensures
        ({
            let label = joined(packaging.command(), ' ');
            let not_run = packaging.next(ToolOutcome::NotRun { reason });
            let none = packaging.next(ToolOutcome::NoDirectory { directory, reason });
            let failed = packaging.next(ToolOutcome::Failed { status: reason, output, errors });
            let captured = packaging.phase is CargoWixHelp || packaging.phase is CargoWixInitHelp
                || packaging.phase is WixVersion;
            let status = "`"@ + label + "` failed with status "@ + reason@;
            &&& not_run.phase is Failed && none.phase is Failed && failed.phase is Failed
            &&& not_run.message == "failed to run `"@ + label + "`: "@ + reason@
            &&& none.message == "failed to create `"@ + directory@ + "`: "@ + reason@
            &&& captured ==> failed.message == status + ":\n"@ + output@ + errors@
            &&& !captured ==> failed.message == status
            &&& not_run.msi == packaging.msi && none.msi == packaging.msi && failed.msi
                == packaging.msi
        }),
{
}

/// How arguments name a target: one that is neither flag is passed over, either spelling takes the
/// place of what was named before, and a flag without a value takes the target back.
pub proof fn arguments_name_a_target(
    argument: Seq<char>,
    target: Seq<char>,
    rest: Seq<Seq<char>>,
    before: Option<Seq<char>>,
)
    ensures
        named_target(seq![], before) == before,
        named_target(seq!["--target"@], before) is None,
        named_target(seq!["--target"@, target] + rest, before) == named_target(rest, Some(target)),
        named_target(seq!["--target="@ + target] + rest, before) == named_target(
            rest,
            Some(target),
        ),
        argument != "--target"@ && !"--target="@.is_prefix_of(argument) ==> named_target(
            seq![argument] + rest,
            before,
        ) == named_target(rest, before),
{
    target_spellings_agree(target, rest, before);
    let apart = seq!["--target"@, target] + rest;
    assert(apart.skip(2) =~= rest);
    let other = seq![argument] + rest;
    assert(other.skip(1) =~= rest);
    crate::text::prefix_is_taken_off("--target="@, target, argument);
}

} // verus!
