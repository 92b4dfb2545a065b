//! The process runner: what to execute, and what an attempt to execute it means.
//!
//! Nothing here starts a process. The host runs an [`Invocation`] once and
//! reports what it saw as an [`Attempt`]; the functions of this module turn
//! that report into the outcome the rest of the crate works with.

use crate::text::{
    decimal, join, join_strings, lossy_utf8, to_decimal, utf8_text, utf8_text_lossy,
};
use vstd::prelude::*;
use vstd::string::*;
use vstd::utf8::{decode_utf8, valid_utf8};

verus! {

/// A program and the arguments it is started with.
#[derive(Debug, Clone, PartialEq, Eq)]
pub struct Invocation {
    pub program: String,
    pub args: Vec<String>,
}

/// The mathematical content of an [`Invocation`].
pub ghost struct InvocationView {
    pub program: Seq<char>,
    pub args: Seq<Seq<char>>,
}

impl View for Invocation {
    type V = InvocationView;

    open spec fn view(&self) -> InvocationView {
        InvocationView { program: self.program@, args: self.args.deep_view() }
    }
}

impl InvocationView {
    /// The program followed by its arguments, separated by single spaces.
    pub open spec fn line(self) -> Seq<char> {
        self.program + " "@ + join(self.args, " "@)
    }
}

impl Invocation {
    /// `program` without arguments.
    pub fn new(program: &str) -> (r: Invocation)
        ensures
            r@ == (InvocationView { program: program@, args: Seq::empty() }),
    {
        let r = Invocation { program: String::from_str(program), args: Vec::new() };
        assert(r.args.deep_view() =~= Seq::<Seq<char>>::empty());
        r
    }

    /// The same invocation with `arg` added as its last argument.
    pub fn arg(self, arg: &str) -> (r: Invocation)
        ensures
            r@ == (InvocationView { program: self@.program, args: self@.args.push(arg@) }),
    {
        let Invocation { program, mut args } = self;
        args.push(String::from_str(arg));
        assert(args.deep_view() =~= self.args.deep_view().push(arg@));
        Invocation { program, args }
    }

    /// The program followed by its arguments, separated by single spaces.
    pub fn line(&self) -> (r: String)
        ensures
            r@ == self@.line(),
    {
        let mut out = self.program.clone();
        out.append(" ");
        let joined = join_strings(&self.args, " ");
        out.append(joined.as_str());
        out
    }
}

/// What the host observed when it tried once to run a command.
#[derive(Debug, Clone, PartialEq, Eq)]
pub enum Attempt {
    /// The program could not be started.
    SpawnFailed { error: String },
    /// The program was started, but its end could not be awaited.
    WaitFailed { error: String },
    /// The program ran to its end. `code` is `None` when a signal ended it;
    /// `stdout` and `stderr` hold what was captured, if anything was.
    Exited { code: Option<i32>, stdout: Vec<u8>, stderr: Vec<u8> },
}

/// The mathematical content of an [`Attempt`].
pub ghost enum AttemptView {
    SpawnFailed { error: Seq<char> },
    WaitFailed { error: Seq<char> },
    Exited { code: Option<i32>, stdout: Seq<u8>, stderr: Seq<u8> },
}

impl View for Attempt {
    type V = AttemptView;

    open spec fn view(&self) -> AttemptView {
        match self {
            Attempt::SpawnFailed { error } => AttemptView::SpawnFailed { error: error@ },
            Attempt::WaitFailed { error } => AttemptView::WaitFailed { error: error@ },
            Attempt::Exited { code, stdout, stderr } => AttemptView::Exited {
                code: *code,
                stdout: stdout@,
                stderr: stderr@,
            },
        }
    }
}

impl AttemptView {
    /// The program ran to its end and left with status 0.
    pub open spec fn succeeded(self) -> bool {
        self matches AttemptView::Exited { code, .. } && code == Some(0i32)
    }
}

/// What the host observed when it tried once to run a producer piped into a consumer.
#[derive(Debug, Clone, PartialEq, Eq)]
pub enum PipeAttempt {
    /// The producer could not be started; the consumer was never tried.
    ProducerSpawnFailed { error: String },
    /// The producer was started; this is what became of the consumer.
    Consumer(Attempt),
}

/// The mathematical content of a [`PipeAttempt`].
pub ghost enum PipeAttemptView {
    ProducerSpawnFailed { error: Seq<char> },
    Consumer(AttemptView),
}

impl View for PipeAttempt {
    type V = PipeAttemptView;

    open spec fn view(&self) -> PipeAttemptView {
        match self {
            PipeAttempt::ProducerSpawnFailed { error } => PipeAttemptView::ProducerSpawnFailed {
                error: error@,
            },
            PipeAttempt::Consumer(attempt) => PipeAttemptView::Consumer(attempt@),
        }
    }
}

/// Why a command failed.
#[derive(Debug, Clone, PartialEq, Eq)]
pub enum CmdError {
    /// The command was started but did not end with status 0.
    ErrRun { code: Option<i32>, stdout: Option<Vec<u8>>, stderr: Option<Vec<u8>> },
    /// The command could not be started.
    ErrSpawn { error: String },
}

/// The bytes of a captured stream, where one was captured.
pub open spec fn captured(stream: Option<Vec<u8>>) -> Option<Seq<u8>> {
    match stream {
        Some(bytes) => Some(bytes@),
        None => None,
    }
}

/// The mathematical content of a [`CmdError`].
pub ghost enum CmdErrorView {
    ErrRun { code: Option<i32>, stdout: Option<Seq<u8>>, stderr: Option<Seq<u8>> },
    ErrSpawn { error: Seq<char> },
}

impl View for CmdError {
    type V = CmdErrorView;

    open spec fn view(&self) -> CmdErrorView {
        match self {
            CmdError::ErrRun { code, stdout, stderr } => CmdErrorView::ErrRun {
                code: *code,
                stdout: captured(*stdout),
                stderr: captured(*stderr),
            },
            CmdError::ErrSpawn { error } => CmdErrorView::ErrSpawn { error: error@ },
        }
    }
}

/// A failed command: the kind of failure, and a sentence that says which command it was.
#[derive(Debug, Clone, PartialEq, Eq)]
pub struct CmdFailed {
    pub error: CmdError,
    pub context: String,
}

/// The mathematical content of a [`CmdFailed`].
pub ghost struct CmdFailedView {
    pub error: CmdErrorView,
    pub context: Seq<char>,
}

impl View for CmdFailed {
    type V = CmdFailedView;

    open spec fn view(&self) -> CmdFailedView {
        CmdFailedView { error: self.error@, context: self.context@ }
    }
}

/// A result with its error replaced by the error's mathematical content.
pub open spec fn outcome<T>(r: Result<T, CmdFailed>) -> Result<T, CmdFailedView> {
    match r {
        Ok(v) => Ok(v),
        Err(e) => Err(e@),
    }
}

/// The outcome of running `cmd` with its output left on the terminal.
pub open spec fn exec_outcome(cmd: InvocationView, attempt: AttemptView) -> Result<
    (),
    CmdFailedView,
> {
    match attempt {
        AttemptView::Exited { code: Some(code), .. } => if code == 0 {
            Ok(())
        } else {
            Err(
                CmdFailedView {
                    error: CmdErrorView::ErrRun { code: Some(code), stdout: None, stderr: None },
                    context: "command "@ + cmd.program + " exited with non-zero status "@ + decimal(
                        code as int,
                    ),
                },
            )
        },
        AttemptView::Exited { code: None, .. } => Err(
            CmdFailedView {
                error: CmdErrorView::ErrRun { code: None, stdout: None, stderr: None },
                context: "command "@ + cmd.program + " terminated by signal"@,
            },
        ),
        AttemptView::WaitFailed { error } => Err(
            CmdFailedView {
                error: CmdErrorView::ErrSpawn { error },
                context: "command "@ + cmd.program + " failed to run"@,
            },
        ),
        AttemptView::SpawnFailed { error } => Err(
            CmdFailedView {
                error: CmdErrorView::ErrSpawn { error },
                context: "command "@ + cmd.program + " failed to spawn"@,
            },
        ),
    }
}

/// Judges an attempt to run `cmd` whose output was not captured.
///
/// Succeeds exactly when the program was started and left with status 0.
/// Any other end of a started program is an `ErrRun` that carries the exit
/// code, or no code when a signal ended it, and no output. A program that
/// could not be started or awaited is an `ErrSpawn`.
pub fn exec(cmd: &Invocation, attempt: Attempt) -> (r: Result<(), CmdFailed>)
    ensures
        outcome(r) == exec_outcome(cmd@, attempt@),
        r is Ok <==> attempt@.succeeded(),
        attempt@ matches AttemptView::Exited { code, .. } ==> code != Some(0i32) ==> r is Err
            && r->Err_0@.error == (CmdErrorView::ErrRun { code, stdout: None, stderr: None }),
{
    match attempt {
        Attempt::Exited { code: Some(code), .. } => {
            if code == 0 {
                Ok(())
            } else {
                let mut context = String::from_str("command ");
                context.append(cmd.program.as_str());
                context.append(" exited with non-zero status ");
                let numeral = to_decimal(code);
                context.append(numeral.as_str());
                Err(
                    CmdFailed {
                        error: CmdError::ErrRun { code: Some(code), stdout: None, stderr: None },
                        context,
                    },
                )
            }
        },
        Attempt::Exited { code: None, .. } => {
            let mut context = String::from_str("command ");
            context.append(cmd.program.as_str());
            context.append(" terminated by signal");
            Err(
                CmdFailed {
                    error: CmdError::ErrRun { code: None, stdout: None, stderr: None },
                    context,
                },
            )
        },
        Attempt::WaitFailed { error } => {
            let mut context = String::from_str("command ");
            context.append(cmd.program.as_str());
            context.append(" failed to run");
            Err(CmdFailed { error: CmdError::ErrSpawn { error }, context })
        },
        Attempt::SpawnFailed { error } => {
            let mut context = String::from_str("command ");
            context.append(cmd.program.as_str());
            context.append(" failed to spawn");
            Err(CmdFailed { error: CmdError::ErrSpawn { error }, context })
        },
    }
}

/// The outcome of running `cmd` with its output captured.
pub open spec fn exec_with_output_outcome(cmd: InvocationView, attempt: AttemptView) -> Result<
    Seq<u8>,
    CmdFailedView,
> {
    match attempt {
        AttemptView::Exited { code, stdout, stderr } => if code == Some(0i32) {
            Ok(stdout)
        } else {
            Err(
                CmdFailedView {
                    error: CmdErrorView::ErrRun { code, stdout: Some(stdout), stderr: Some(stderr) },
                    context: "command "@ + cmd.line() + " exited with non-zero status"@,
                },
            )
        },
        AttemptView::WaitFailed { error } => Err(
            CmdFailedView {
                error: CmdErrorView::ErrSpawn { error },
                context: "command "@ + cmd.program + " failed to spawn"@,
            },
        ),
        AttemptView::SpawnFailed { error } => Err(
            CmdFailedView {
                error: CmdErrorView::ErrSpawn { error },
                context: "command "@ + cmd.program + " failed to spawn"@,
            },
        ),
    }
}

/// Judges an attempt to run `cmd` whose output was captured.
///
/// Succeeds with the captured standard output exactly when the program was
/// started and left with status 0. Any other end of a started program is an
/// `ErrRun` that carries the exit code and both captured streams. A program
/// that could not be started or awaited is an `ErrSpawn`.
pub fn exec_with_output(cmd: &Invocation, attempt: Attempt) -> (r: Result<Vec<u8>, CmdFailed>)
    ensures
        match r {
            Ok(stdout) => exec_with_output_outcome(cmd@, attempt@) == Ok::<Seq<u8>, CmdFailedView>(
                stdout@,
            ),
            Err(e) => exec_with_output_outcome(cmd@, attempt@) == Err::<Seq<u8>, CmdFailedView>(
                e@,
            ),
        },
        r is Ok <==> attempt@.succeeded(),
{
    match attempt {
        Attempt::Exited { code, stdout, stderr } => {
            let success = match code {
                Some(c) => c == 0,
                None => false,
            };
            if success {
                Ok(stdout)
            } else {
                let mut context = String::from_str("command ");
                let line = cmd.line();
                context.append(line.as_str());
                context.append(" exited with non-zero status");
                Err(
                    CmdFailed {
                        error: CmdError::ErrRun {
                            code,
                            stdout: Some(stdout),
                            stderr: Some(stderr),
                        },
                        context,
                    },
                )
            }
        },
        Attempt::WaitFailed { error } => {
            let mut context = String::from_str("command ");
            context.append(cmd.program.as_str());
            context.append(" failed to spawn");
            Err(CmdFailed { error: CmdError::ErrSpawn { error }, context })
        },
        Attempt::SpawnFailed { error } => {
            let mut context = String::from_str("command ");
            context.append(cmd.program.as_str());
            context.append(" failed to spawn");
            Err(CmdFailed { error: CmdError::ErrSpawn { error }, context })
        },
    }
}

/// The outcome of piping the output of `producer` into `consumer`.
pub open spec fn pipe_outcome(
    producer: InvocationView,
    consumer: InvocationView,
    attempt: PipeAttemptView,
) -> Result<(), CmdFailedView> {
    match attempt {
        PipeAttemptView::ProducerSpawnFailed { error } => Err(
            CmdFailedView {
                error: CmdErrorView::ErrSpawn { error },
                context: "failed to spawn producer "@ + producer.line(),
            },
        ),
        PipeAttemptView::Consumer(AttemptView::SpawnFailed { error }) => Err(
            CmdFailedView {
                error: CmdErrorView::ErrSpawn { error },
                context: "failed to spawn consumer "@ + consumer.line(),
            },
        ),
        PipeAttemptView::Consumer(AttemptView::WaitFailed { error }) => Err(
            CmdFailedView {
                error: CmdErrorView::ErrRun { code: None, stdout: None, stderr: None },
                context: "consumer "@ + consumer.program + " command failed to run: "@ + error,
            },
        ),
        PipeAttemptView::Consumer(AttemptView::Exited { code: Some(code), stderr, .. }) => if code
            == 0 {
            Ok(())
        } else {
            Err(
                CmdFailedView {
                    error: CmdErrorView::ErrRun {
                        code: Some(code),
                        stdout: None,
                        stderr: Some(stderr),
                    },
                    context: "consumer "@ + consumer.program + " command exited with bad status: "@
                        + decimal(code as int),
                },
            )
        },
        PipeAttemptView::Consumer(AttemptView::Exited { code: None, stderr, .. }) => Err(
            CmdFailedView {
                error: CmdErrorView::ErrRun { code: None, stdout: None, stderr: Some(stderr) },
                context: "consumer "@ + consumer.program + " command terminated by signal"@,
            },
        ),
    }
}

/// Judges an attempt to pipe the output of `producer_cmd` into `consumer_cmd`.
///
/// Succeeds exactly when both programs were started and the consumer left
/// with status 0; how the producer ended plays no part. A consumer that
/// ended otherwise is an `ErrRun` with its exit code and captured standard
/// error. A program that could not be started is an `ErrSpawn`.
pub fn pipe(producer_cmd: &Invocation, consumer_cmd: &Invocation, attempt: PipeAttempt) -> (r:
    Result<(), CmdFailed>)
    ensures
        outcome(r) == pipe_outcome(producer_cmd@, consumer_cmd@, attempt@),
        r is Ok <==> (attempt@ matches PipeAttemptView::Consumer(consumer)
            && consumer.succeeded()),
{
    match attempt {
        PipeAttempt::ProducerSpawnFailed { error } => {
            let mut context = String::from_str("failed to spawn producer ");
            let line = producer_cmd.line();
            context.append(line.as_str());
            Err(CmdFailed { error: CmdError::ErrSpawn { error }, context })
        },
        PipeAttempt::Consumer(Attempt::SpawnFailed { error }) => {
            let mut context = String::from_str("failed to spawn consumer ");
            let line = consumer_cmd.line();
            context.append(line.as_str());
            Err(CmdFailed { error: CmdError::ErrSpawn { error }, context })
        },
        PipeAttempt::Consumer(Attempt::WaitFailed { error }) => {
            let mut context = String::from_str("consumer ");
            context.append(consumer_cmd.program.as_str());
            context.append(" command failed to run: ");
            context.append(error.as_str());
            Err(
                CmdFailed {
                    error: CmdError::ErrRun { code: None, stdout: None, stderr: None },
                    context,
                },
            )
        },
        PipeAttempt::Consumer(Attempt::Exited { code: Some(code), stderr, .. }) => {
            if code == 0 {
                Ok(())
            } else {
                let mut context = String::from_str("consumer ");
                context.append(consumer_cmd.program.as_str());
                context.append(" command exited with bad status: ");
                let numeral = to_decimal(code);
                context.append(numeral.as_str());
                Err(
                    CmdFailed {
                        error: CmdError::ErrRun {
                            code: Some(code),
                            stdout: None,
                            stderr: Some(stderr),
                        },
                        context,
                    },
                )
            }
        },
        PipeAttempt::Consumer(Attempt::Exited { code: None, stderr, .. }) => {
            let mut context = String::from_str("consumer ");
            context.append(consumer_cmd.program.as_str());
            context.append(" command terminated by signal");
            Err(
                CmdFailed {
                    error: CmdError::ErrRun { code: None, stdout: None, stderr: Some(stderr) },
                    context,
                },
            )
        },
    }
}

/// The invocation that hands `cmd_str` to the system shell.
pub open spec fn sh_c_line(cmd_str: Seq<char>) -> InvocationView {
    InvocationView { program: "sh"@, args: seq!["-c"@, cmd_str] }
}

/// The command that has the system shell execute `cmd_str`: `sh -c <cmd_str>`.
///
/// `cmd_str` goes to the shell as one argument, so it must not be quoted beforehand.
pub fn sh_c_cmd(cmd_str: &str) -> (r: Invocation)
    ensures
        r@ == sh_c_line(cmd_str@),
{
    let r = Invocation::new("sh").arg("-c").arg(cmd_str);
    assert(r@.args =~= seq!["-c"@, cmd_str@]);
    r
}

/// Judges an attempt to run [`sh_c_cmd`] of `cmd_str`, as [`exec`] does.
pub fn sh_c(cmd_str: &str, attempt: Attempt) -> (r: Result<(), CmdFailed>)
    ensures
        outcome(r) == exec_outcome(sh_c_line(cmd_str@), attempt@),
        r is Ok <==> attempt@.succeeded(),
{
    exec(&sh_c_cmd(cmd_str), attempt)
}

/// The shell command line that runs `cmd` inside the system root at `location`.
pub open spec fn arch_chroot_line(location: Seq<char>, cmd: Seq<char>) -> Seq<char> {
    "arch-chroot "@ + location + " "@ + cmd
}

/// The command that runs `cmd` with `arch-chroot` at `location`, through the system shell.
pub fn arch_chroot_cmd(location: &str, cmd: &str) -> (r: Invocation)
    ensures
        r@ == sh_c_line(arch_chroot_line(location@, cmd@)),
{
    let mut line = String::from_str("arch-chroot ");
    line.append(location);
    line.append(" ");
    line.append(cmd);
    sh_c_cmd(line.as_str())
}

/// Judges an attempt to run [`arch_chroot_cmd`] of `location` and `cmd`, as [`exec`] does.
pub fn arch_chroot(location: &str, cmd: &str, attempt: Attempt) -> (r: Result<(), CmdFailed>)
    ensures
        outcome(r) == exec_outcome(sh_c_line(arch_chroot_line(location@, cmd@)), attempt@),
        r is Ok <==> attempt@.succeeded(),
{
    exec(&arch_chroot_cmd(location, cmd), attempt)
}

impl CmdErrorView {
    /// The report of the error, as [`CmdError::describe`] writes it.
    pub open spec fn describe(self) -> Seq<char> {
        match self {
            CmdErrorView::ErrRun { code, stdout, stderr } => "run error\nexit code: "@ + (match code {
                Some(c) => decimal(c as int),
                None => "non-zero"@,
            }) + "\nstdout: "@ + (match stdout {
                Some(bytes) => if valid_utf8(bytes) {
                    decode_utf8(bytes)
                } else {
                    "binary output"@
                },
                None => "ali-rs discarded stdout output"@,
            }) + "\nstderr: "@ + (match stderr {
                Some(bytes) => lossy_utf8(bytes),
                None => "ali-rs discarded stderr output"@,
            }),
            CmdErrorView::ErrSpawn { error } => "spawn error: "@ + error,
        }
    }
}

impl CmdError {
    /// A report of the error for a person to read.
    ///
    /// A run error is reported with its exit code and with what was captured
    /// of each stream; captured standard output that is not text is reported
    /// as binary. Captured standard error that is well-formed UTF-8 is
    /// reported as the text it encodes.
    pub fn describe(&self) -> (r: String)
        ensures
            r@ == self@.describe(),
            self@ matches CmdErrorView::ErrRun { stderr: Some(bytes), .. } ==> valid_utf8(bytes)
                ==> lossy_utf8(bytes) == decode_utf8(bytes),
    {
        match self {
            CmdError::ErrRun { code, stdout, stderr } => {
                let mut out = String::from_str("run error\nexit code: ");
                match code {
                    Some(c) => {
                        let numeral = to_decimal(*c);
                        out.append(numeral.as_str());
                    },
                    None => {
                        out.append("non-zero");
                    },
                }
                out.append("\nstdout: ");
                match stdout {
                    Some(bytes) => {
                        match utf8_text(bytes.as_slice()) {
                            Some(text) => {
                                out.append(text.as_str());
                            },
                            None => {
                                out.append("binary output");
                            },
                        }
                    },
                    None => {
                        out.append("ali-rs discarded stdout output");
                    },
                }
                out.append("\nstderr: ");
                match stderr {
                    Some(bytes) => {
                        let text = utf8_text_lossy(bytes.as_slice());
                        out.append(text.as_str());
                    },
                    None => {
                        out.append("ali-rs discarded stderr output");
                    },
                }
                out
            },
            CmdError::ErrSpawn { error } => {
                let mut out = String::from_str("spawn error: ");
                out.append(error.as_str());
                out
            },
        }
    }
}

} // verus!
