//! Command lines of the `pulumi` binary.
//!
//! Each command is rendered to a program name, an argument list and a
//! working directory; launching the process and streaming its output is the
//! caller's part.

use crate::text::{decimal, render_i32};
use vstd::prelude::*;
use vstd::string::*;

verus! {

/// Options of `pulumi login`.
#[derive(Debug)]
pub struct LoginOptions {
    pub url: String,
}

/// Options of `pulumi up`. `refresh` and `show_full_output` count as set
/// when they are left out.
#[derive(Debug)]
pub struct UpOptions {
    pub config: Option<String>,
    pub config_file: Option<String>,
    pub debug: bool,
    pub diff: bool,
    pub expect_no_changes: bool,
    pub message: Option<String>,
    pub parallel: Option<i32>,
    pub refresh: Option<bool>,
    pub skip_preview: bool,
    pub stack: Option<String>,
    pub yes: bool,
    pub show_config: bool,
    pub show_full_output: Option<bool>,
    pub show_reads: bool,
    pub show_replacement_steps: bool,
    pub show_sames: bool,
}

/// Options of `pulumi destroy`.
#[derive(Debug)]
pub struct DestroyOptions {
    pub stack: Option<String>,
    pub yes: bool,
    pub skip_preview: bool,
}

/// Options of `pulumi cancel`.
#[derive(Debug)]
pub struct CancelOptions {
    pub stack: Option<String>,
}

/// A process to launch: program, arguments in order, working directory.
#[derive(Debug)]
pub struct CommandLine {
    pub program: String,
    pub args: Vec<String>,
    pub workdir: String,
}

/// Driver of the `pulumi` binary in one working directory.
#[derive(Debug)]
pub struct PulumiCLI {
    workdir: String,
}

impl Default for UpOptions {
    fn default() -> (options: UpOptions)
        ensures
            options.config is None,
            options.config_file is None,
            !options.debug,
            !options.diff,
            !options.expect_no_changes,
            options.message is None,
            options.parallel is None,
            options.refresh is None,
            !options.skip_preview,
            options.stack is None,
            options.yes,
            !options.show_config,
            options.show_full_output is None,
            !options.show_reads,
            !options.show_replacement_steps,
            !options.show_sames,
    {
        UpOptions {
            config: None,
            config_file: None,
            debug: false,
            diff: false,
            expect_no_changes: false,
            message: None,
            parallel: None,
            refresh: None,
            skip_preview: false,
            stack: None,
            yes: true,
            show_config: false,
            show_full_output: None,
            show_reads: false,
            show_replacement_steps: false,
            show_sames: false,
        }
    }
}

/// A flag followed by its value, when the value is present.
pub open spec fn valued_flag(flag: Seq<char>, value: Option<Seq<char>>) -> Seq<Seq<char>> {
    match value {
        Some(v) => seq![flag, v],
        None => Seq::empty(),
    }
}

/// A bare flag, when it is switched on.
pub open spec fn bare_flag(flag: Seq<char>, on: bool) -> Seq<Seq<char>> {
    if on {
        seq![flag]
    } else {
        Seq::empty()
    }
}

/// Whether a switch that defaults to on is on.
pub open spec fn on_unless_disabled(switch: Option<bool>) -> bool {
    switch != Some(false)
}

/// Decimal text of an optional number.
pub open spec fn optional_decimal(n: Option<i32>) -> Option<Seq<char>> {
    match n {
        Some(v) => Some(decimal(v as int)),
        None => None,
    }
}

/// Arguments of `pulumi login`.
pub open spec fn login_args(options: LoginOptions) -> Seq<Seq<char>> {
    seq!["login"@, options.url@]
}

/// Arguments of `pulumi up`, in the order in which the flags are given.
pub open spec fn up_args(options: UpOptions) -> Seq<Seq<char>> {
    seq!["up"@] + valued_flag("--config"@, options.config.deep_view()) + valued_flag(
        "--config-file"@,
        options.config_file.deep_view(),
    ) + bare_flag("--debug"@, options.debug) + bare_flag("--diff"@, options.diff) + bare_flag(
        "--expect-no-changes"@,
        options.expect_no_changes,
    ) + valued_flag("--message"@, options.message.deep_view()) + valued_flag(
        "--parallel"@,
        optional_decimal(options.parallel),
    ) + bare_flag("--refresh"@, on_unless_disabled(options.refresh)) + bare_flag(
        "--skip-preview"@,
        options.skip_preview,
    ) + valued_flag("--stack"@, options.stack.deep_view()) + bare_flag("--yes"@, options.yes)
        + bare_flag("--show-config"@, options.show_config) + bare_flag(
        "--show-full-output"@,
        on_unless_disabled(options.show_full_output),
    ) + bare_flag("--show-reads"@, options.show_reads) + bare_flag(
        "--show-replacement-steps"@,
        options.show_replacement_steps,
    ) + bare_flag("--show-sames"@, options.show_sames)
}

/// Arguments of `pulumi destroy`.
pub open spec fn destroy_args(options: DestroyOptions) -> Seq<Seq<char>> {
    seq!["destroy"@] + valued_flag("--stack"@, options.stack.deep_view()) + bare_flag(
        "--yes"@,
        options.yes,
    ) + bare_flag("--skip-preview"@, options.skip_preview)
}

/// Arguments of `pulumi cancel`.
pub open spec fn cancel_args(options: CancelOptions) -> Seq<Seq<char>> {
    seq!["cancel"@] + valued_flag("--stack"@, options.stack.deep_view())
}

fn push_text(args: &mut Vec<String>, text: &str)
    ensures
        final(args).deep_view() == old(args).deep_view().push(text@),
{
    let ghost before = args.deep_view();
    args.push(String::from_str(text));
    assert(args.deep_view() =~= before.push(text@));
}

fn push_bare(args: &mut Vec<String>, flag: &str, on: bool)
    ensures
        final(args).deep_view() == old(args).deep_view() + bare_flag(flag@, on),
{
    let ghost before = args.deep_view();
    if on {
        push_text(args, flag);
    }
    assert(args.deep_view() =~= before + bare_flag(flag@, on));
}

fn push_valued(args: &mut Vec<String>, flag: &str, value: &Option<String>)
    ensures
        final(args).deep_view() == old(args).deep_view() + valued_flag(flag@, value.deep_view()),
{
    let ghost before = args.deep_view();
    match value {
        Some(v) => {
            push_text(args, flag);
            push_text(args, v.as_str());
        },
        None => {},
    }
    assert(args.deep_view() =~= before + valued_flag(flag@, value.deep_view()));
}

fn first_arg(word: &str) -> (args: Vec<String>)
    ensures
        args.deep_view() == seq![word@],
{
    let mut args: Vec<String> = Vec::new();
    assert(args.deep_view() =~= Seq::<Seq<char>>::empty());
    push_text(&mut args, word);
    assert(args.deep_view() =~= seq![word@]);
    args
}

impl PulumiCLI {
    /// The working directory in which every command runs.
    pub closed spec fn view(&self) -> Seq<char> {
        self.workdir@
    }

    /// A driver that runs its commands in `workdir`.
    pub fn new(workdir: &str) -> (cli: PulumiCLI)
        ensures
            cli@ == workdir@,
    {
        PulumiCLI { workdir: String::from_str(workdir) }
    }

    /// Whether `line` runs `pulumi` with `args` in this driver's directory.
    pub open spec fn runs(&self, line: CommandLine, args: Seq<Seq<char>>) -> bool {
        &&& line.program@ == "pulumi"@
        &&& line.args.deep_view() == args
        &&& line.workdir@ == self@
    }

    fn command(&self, args: Vec<String>) -> (line: CommandLine)
        ensures
            self.runs(line, args.deep_view()),
    {
        CommandLine { program: String::from_str("pulumi"), args, workdir: self.workdir.clone() }
    }

    /// The command line of `pulumi login <url>`.
    pub fn login(&self, options: LoginOptions) -> (line: CommandLine)
        ensures
            self.runs(line, login_args(options)),
    {
        let mut args = first_arg("login");
        push_text(&mut args, options.url.as_str());
        assert(args.deep_view() =~= login_args(options));
        self.command(args)
    }

    /// The command line of `pulumi up` with the flags that `options` turn on.
    pub fn up(&self, options: UpOptions) -> (line: CommandLine)
        ensures
            self.runs(line, up_args(options)),
    {
        let mut args = first_arg("up");
        push_valued(&mut args, "--config", &options.config);
        push_valued(&mut args, "--config-file", &options.config_file);
        push_bare(&mut args, "--debug", options.debug);
        push_bare(&mut args, "--diff", options.diff);
        push_bare(&mut args, "--expect-no-changes", options.expect_no_changes);
        push_valued(&mut args, "--message", &options.message);
        let parallel: Option<String> = match options.parallel {
            Some(n) => Some(render_i32(n)),
            None => None,
        };
        push_valued(&mut args, "--parallel", &parallel);
        let refresh: bool = match options.refresh {
            Some(on) => on,
            None => true,
        };
        push_bare(&mut args, "--refresh", refresh);
        push_bare(&mut args, "--skip-preview", options.skip_preview);
        push_valued(&mut args, "--stack", &options.stack);
        push_bare(&mut args, "--yes", options.yes);
        push_bare(&mut args, "--show-config", options.show_config);
        let full: bool = match options.show_full_output {
            Some(on) => on,
            None => true,
        };
        push_bare(&mut args, "--show-full-output", full);
        push_bare(&mut args, "--show-reads", options.show_reads);
        push_bare(&mut args, "--show-replacement-steps", options.show_replacement_steps);
        push_bare(&mut args, "--show-sames", options.show_sames);
        self.command(args)
    }

    /// The command line of `pulumi destroy`.
    pub fn destroy(&self, options: DestroyOptions) -> (line: CommandLine)
        ensures
            self.runs(line, destroy_args(options)),
    {
        let mut args = first_arg("destroy");
        push_valued(&mut args, "--stack", &options.stack);
        push_bare(&mut args, "--yes", options.yes);
        push_bare(&mut args, "--skip-preview", options.skip_preview);
        self.command(args)
    }

    /// The command line of `pulumi cancel`.
    pub fn cancel(&self, options: CancelOptions) -> (line: CommandLine)
        ensures
            self.runs(line, cancel_args(options)),
    {
        let mut args = first_arg("cancel");
        push_valued(&mut args, "--stack", &options.stack);
        self.command(args)
    }

    /// The command line of a program other than `pulumi`, run in this
    /// driver's directory.
    pub fn spawn(&self, program: &str, args: Vec<String>) -> (line: CommandLine)
        ensures
            line.program@ == program@,
            line.args == args,
            line.workdir@ == self@,
    {
        CommandLine { program: String::from_str(program), args, workdir: self.workdir.clone() }
    }
}

} // verus!
