//! Platform command synthesis: from a configuration and a host platform,
//! derive the environment-manager executable path and the three shell
//! command strings (create, update, run). Building is pure: the commands
//! are a function of the configuration's contents and the platform alone.

use vstd::prelude::*;
use crate::config::{Config, ConfigModel};

verus! {

/// The family of the host operating system, which decides the executable
/// path syntax, the activation syntax and the command interpreter.
#[derive(Clone, Copy, PartialEq, Eq, Structural, Debug)]
pub enum Platform {
    Windows,
    Unix,
}

/// The three derived shell command strings, built once from a [`Config`]
/// and the detected platform and never re-derived.
pub struct CommandSpec {
    pub create: String,
    pub update: String,
    pub run: String,
}

/// The mathematical contents of a [`CommandSpec`].
#[verifier::ext_equal]
pub struct CommandModel {
    pub create: Seq<char>,
    pub update: Seq<char>,
    pub run: Seq<char>,
}

impl View for CommandSpec {
    type V = CommandModel;

    open spec fn view(&self) -> CommandModel {
        CommandModel { create: self.create@, update: self.update@, run: self.run@ }
    }
}

/// The path of the environment-manager executable: under the configured
/// installation root, `condabin\conda.bat` on Windows and `bin/conda` on
/// Unix-family platforms.
pub open spec fn spec_executable(c: ConfigModel, p: Platform) -> Seq<char> {
    match p {
        Platform::Windows => c.conda_path + "\\condabin\\conda.bat"@,
        Platform::Unix => c.conda_path + "/bin/conda"@,
    }
}

/// The command that creates the managed environment from the
/// environment-specification file.
pub open spec fn spec_create_command(c: ConfigModel, p: Platform) -> Seq<char> {
    spec_executable(c, p) + " env create -f "@ + c.env_file
}

/// The command that updates (and prunes) the managed environment from the
/// environment-specification file.
pub open spec fn spec_update_command(c: ConfigModel, p: Platform) -> Seq<char> {
    spec_executable(c, p) + " env update -f "@ + c.env_file + " --prune"@
}

/// The command that activates the managed environment and starts the
/// application. On Unix the manager's shell-integration script must be
/// sourced first, because activation is not a plain subcommand there; the
/// Windows batch launcher needs no such prefix.
pub open spec fn spec_run_command(c: ConfigModel, p: Platform) -> Seq<char> {
    match p {
        Platform::Windows => spec_executable(
            c,
            p,
        ) + " activate "@ + c.environment + " && streamlit run "@ + c.script,
        Platform::Unix => "source "@ + c.conda_path
            + "/etc/profile.d/conda.sh && conda activate "@ + c.environment
            + " && streamlit run "@ + c.script,
    }
}

/// All three commands of [`spec_build`] as one record.
pub open spec fn spec_build(c: ConfigModel, p: Platform) -> CommandModel {
    CommandModel {
        create: spec_create_command(c, p),
        update: spec_update_command(c, p),
        run: spec_run_command(c, p),
    }
}

/// The full path of the environment-manager executable for this
/// configuration and platform.
pub fn executable(config: &Config, platform: Platform) -> (r: String)
    ensures
        r@ == spec_executable(config@, platform),
{
    let mut s = config.conda_path.clone();
    match platform {
        Platform::Windows => s.append("\\condabin\\conda.bat"),
        Platform::Unix => s.append("/bin/conda"),
    }
    s
}

/// Build the three shell command strings for this configuration and
/// platform. Pure and deterministic: no side effects, no failure path;
/// malformed values surface only when the shell later rejects them.
pub fn build(config: &Config, platform: Platform) -> (r: CommandSpec)
    ensures
        r@ == spec_build(config@, platform),
{
    let exe = executable(config, platform);

    let mut create = exe.clone();
    create.append(" env create -f ");
    create.append(config.env_file.as_str());

    let mut update = exe.clone();
    update.append(" env update -f ");
    update.append(config.env_file.as_str());
    update.append(" --prune");

    let mut run: String;
    match platform {
        Platform::Windows => {
            run = exe.clone();
            run.append(" activate ");
            run.append(config.environment.as_str());
            run.append(" && streamlit run ");
            run.append(config.script.as_str());
        },
        Platform::Unix => {
            run = "source ".to_owned();
            run.append(config.conda_path.as_str());
            run.append("/etc/profile.d/conda.sh && conda activate ");
            run.append(config.environment.as_str());
            run.append(" && streamlit run ");
            run.append(config.script.as_str());
        },
    }

    let r = CommandSpec { create, update, run };
    proof {
        assert(r@ =~= spec_build(config@, platform));
    }
    r
}

/// How one shell command is dispatched: `program` is the host's command
/// interpreter, `flag` its run-this-string switch, and `command` the
/// command string handed over as the single argument, so interactive and
/// streaming output passes through the inherited standard streams.
pub struct ShellInvocation {
    pub program: String,
    pub flag: String,
    pub command: String,
}

/// The platform's command interpreter: `cmd` on Windows, `zsh` on
/// Unix-family hosts.
pub open spec fn spec_shell_program(p: Platform) -> Seq<char> {
    match p {
        Platform::Windows => "cmd"@,
        Platform::Unix => "zsh"@,
    }
}

/// The interpreter's switch that makes it run the next argument as a
/// command line: `/C` for `cmd`, `-c` for the POSIX-style shell.
pub open spec fn spec_shell_flag(p: Platform) -> Seq<char> {
    match p {
        Platform::Windows => "/C"@,
        Platform::Unix => "-c"@,
    }
}

/// How the given command string must be dispatched on this platform.
pub fn shell_invocation(platform: Platform, command: &str) -> (r: ShellInvocation)
    ensures
        r.program@ == spec_shell_program(platform),
        r.flag@ == spec_shell_flag(platform),
        r.command@ == command@,
{
    match platform {
        Platform::Windows => ShellInvocation {
            program: "cmd".to_owned(),
            flag: "/C".to_owned(),
            command: command.to_owned(),
        },
        Platform::Unix => ShellInvocation {
            program: "zsh".to_owned(),
            flag: "-c".to_owned(),
            command: command.to_owned(),
        },
    }
}

/// `build` is pure: the commands depend on the configuration's contents
/// and the platform alone, so two configurations with identical contents
/// yield identical command strings on the same platform.
pub proof fn lemma_build_deterministic(c1: Config, c2: Config, p: Platform)
    requires
        c1@ == c2@,
    ensures
        spec_build(c1@, p) == spec_build(c2@, p),
{
}

} // verus!
