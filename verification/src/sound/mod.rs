//! The capabilities that every sound backend offers, and what they share:
//! percentages, mute directives and errors.
//!
//! A capability that needs the backend's tool comes in two parts. The
//! method whose name ends in `_cmd` builds the command; the host runs it
//! once and hands the attempt to the method without that ending, which
//! says what the attempt means.

pub mod alsa;
pub mod pipewire;
pub mod pulseaudio;


use crate::scan::capped;
use crate::sh::{
    exec, exec_outcome, exec_with_output, exec_with_output_outcome, Attempt, AttemptView,
    CmdFailed, CmdFailedView, Invocation, InvocationView,
};
use crate::text::{decimal, name_of, text_of, to_decimal};
use vstd::prelude::*;
use vstd::string::StringExecFns;

verus! {

/// The percentage nearest to `p` within 0 to 100.
pub open spec fn clamp(p: int) -> int {
    if p > 100 {
        100
    } else if p < 0 {
        0
    } else {
        p
    }
}

/// Brings a percentage into the range 0 to 100: what lies above 100
/// becomes 100, what lies below 0 becomes 0, and the rest stays.
pub fn floor(percent: i32) -> (r: u8)
    ensures
        r == clamp(percent as int),
        percent > 100 ==> r == 100,
        percent < 0 ==> r == 0,
        0 <= percent <= 100 ==> r == percent,
{
    if percent > 100 {
        return 100;
    }
    if percent < 0 {
        return 0;
    }
    percent as u8
}

/// What to do with the mute switch of a sink.
#[derive(Debug, Clone, Copy, PartialEq, Eq)]
pub enum Mute {
    Mute,
    Unmute,
    Toggle,
}

impl Mute {
    /// The word by which the backend tools know the directive.
    pub open spec fn token(self) -> Seq<char> {
        match self {
            Mute::Mute => "1"@,
            Mute::Unmute => "0"@,
            Mute::Toggle => "toggle"@,
        }
    }

    /// The word by which the backend tools know the directive.
    pub fn to_str(&self) -> (r: &'static str)
        ensures
            r@ == self.token(),
    {
        match self {
            Mute::Mute => "1",
            Mute::Unmute => "0",
            Mute::Toggle => "toggle",
        }
    }

    /// [`Mute::to_str`] as an owned string.
    pub fn to_string(&self) -> (r: String)
        ensures
            r@ == self.token(),
    {
        self.to_str().to_owned()
    }
}

/// A mute directive did not take effect.
#[derive(Debug, Clone, Copy, PartialEq, Eq)]
pub struct MuteError;

/// Why a backend could not answer.
#[derive(Debug, Clone, PartialEq, Eq)]
pub enum SoundError {
    /// The backend does not have the capability.
    Unsupported,
    /// The backend's tool failed; the process runner's error is passed on as it came.
    Cmd(CmdFailed),
    /// The tool ran, but what it printed could not be read.
    Unreadable,
}

/// The mathematical content of a [`SoundError`].
pub ghost enum SoundErrorView {
    Unsupported,
    Cmd(CmdFailedView),
    Unreadable,
}

impl View for SoundError {
    type V = SoundErrorView;

    open spec fn view(&self) -> SoundErrorView {
        match self {
            SoundError::Unsupported => SoundErrorView::Unsupported,
            SoundError::Cmd(e) => SoundErrorView::Cmd(e@),
            SoundError::Unreadable => SoundErrorView::Unreadable,
        }
    }
}

/// A result with its error replaced by the error's mathematical content.
pub open spec fn answer<T>(r: Result<T, SoundError>) -> Result<T, SoundErrorView> {
    match r {
        Ok(v) => Ok(v),
        Err(e) => Err(e@),
    }
}

/// The content of a command that may be absent.
pub open spec fn cmd_of(c: Option<Invocation>) -> Option<InvocationView> {
    match c {
        Some(t) => Some(t@),
        None => None,
    }
}

/// `program` with two arguments.
pub open spec fn line2(program: Seq<char>, a: Seq<char>, b: Seq<char>) -> InvocationView {
    InvocationView { program, args: seq![a, b] }
}

/// `program` with three arguments.
pub open spec fn line3(program: Seq<char>, a: Seq<char>, b: Seq<char>, c: Seq<char>) -> InvocationView {
    InvocationView { program, args: seq![a, b, c] }
}

/// The percentage `percent` as the backend tools take it: its decimal numeral and a percent sign.
pub open spec fn percent_word(percent: u8) -> Seq<char> {
    decimal(percent as int) + "%"@
}

/// Builds `program` with two arguments.
pub(crate) fn command2(program: &str, a: &str, b: &str) -> (r: Invocation)
    ensures
        r@ == line2(program@, a@, b@),
{
    let r = Invocation::new(program).arg(a).arg(b);
    assert(r@.args =~= seq![a@, b@]);
    r
}

/// Builds `program` with three arguments.
pub(crate) fn command3(program: &str, a: &str, b: &str, c: &str) -> (r: Invocation)
    ensures
        r@ == line3(program@, a@, b@, c@),
{
    let r = Invocation::new(program).arg(a).arg(b).arg(c);
    assert(r@.args =~= seq![a@, b@, c@]);
    r
}

/// Writes `percent` as the backend tools take it.
pub(crate) fn percent_string(percent: u8) -> (r: String)
    ensures
        r@ == percent_word(percent),
{
    let mut r = to_decimal(percent as i32);
    r.append("%");
    r
}

/// What became of an order to the backend.
pub open spec fn order_answer(order: Option<InvocationView>, attempt: AttemptView) -> Result<
    (),
    SoundErrorView,
> {
    match order {
        None => Err(SoundErrorView::Unsupported),
        Some(cmd) => match exec_outcome(cmd, attempt) {
            Ok(()) => Ok(()),
            Err(e) => Err(SoundErrorView::Cmd(e)),
        },
    }
}

/// What a query whose output is captured yields: the output of a query
/// that succeeded, or else the error. A backend without the query does not
/// support it.
pub open spec fn captured_answer(query: Option<InvocationView>, attempt: AttemptView) -> Result<
    Seq<u8>,
    SoundErrorView,
> {
    match query {
        None => Err(SoundErrorView::Unsupported),
        Some(cmd) => match exec_with_output_outcome(cmd, attempt) {
            Ok(output) => Ok(output),
            Err(e) => Err(SoundErrorView::Cmd(e)),
        },
    }
}

/// The volume that a reading of the output of a query stands for.
pub open spec fn volume_of(reading: Option<nat>) -> Result<u32, SoundErrorView> {
    match reading {
        Some(n) => Ok(capped(n)),
        None => Err(SoundErrorView::Unreadable),
    }
}

/// The capability set of a sound backend.
///
/// The spec functions say what is particular to a backend: its commands,
/// and how its output reads. The methods with a body are the same for
/// every backend.
pub trait SoundServer: Sized {
    /// The default sink, as far as it is known without asking the backend.
    spec fn known_sink(&self) -> Option<Seq<char>>;

    /// The command that the backend runs once before first use, if it needs one.
    spec fn setup(&self) -> Option<InvocationView>;

    /// The command that inspects `sink`, or the default sink where none is given.
    spec fn inspection(&self, sink: Option<Seq<char>>) -> Option<InvocationView>;

    /// The command that reports whether `sink` is muted.
    spec fn mute_query(&self, sink: Seq<char>) -> Option<InvocationView>;

    /// The output of the mute query says that the sink is muted.
    spec fn says_muted(&self, output: Seq<u8>) -> bool;

    /// The command that applies `mute` to `sink`.
    spec fn mute_order(&self, sink: Seq<char>, mute: Mute) -> Option<InvocationView>;

    /// The command that reports the volume of `sink`.
    spec fn volume_query(&self, sink: Seq<char>) -> Option<InvocationView>;

    /// The percentage that the output of the volume query reports.
    spec fn volume_reading(&self, output: Seq<u8>) -> Option<nat>;

    /// The command that sets the volume of `sink` to `percent`.
    spec fn volume_order(&self, sink: Seq<char>, percent: u8) -> Option<InvocationView>;

    /// The default sink, as far as it is known without asking the backend.
    fn default_sink(&self) -> (r: Option<String>)
        ensures
            name_of(r) == self.known_sink(),
    ;

    /// The command to run once after the backend was selected, or `None`
    /// where the backend is ready as it is.
    fn init_cmd(&self) -> (r: Option<Invocation>)
        ensures
            cmd_of(r) == self.setup(),
    ;

    /// Takes in the attempt to run [`SoundServer::init_cmd`]. A backend
    /// that needs no setup succeeds and stays as it is.
    fn init(&mut self, attempt: Attempt) -> (r: Result<(), SoundError>)
        ensures
            old(self).setup() is None ==> r is Ok && *final(self) == *old(self),
            r is Err ==> *final(self) == *old(self),
    ;

    /// The command whose success shows that `sink` exists, or the default
    /// sink where none is given.
    fn sink_exists_cmd(&self, sink: Option<&str>) -> (r: Option<Invocation>)
        ensures
            cmd_of(r) == self.inspection(text_of(sink)),
    ;

    /// The command that reports whether `sink` is muted.
    fn sink_is_muted_cmd(&self, sink: &str) -> (r: Option<Invocation>)
        ensures
            cmd_of(r) == self.mute_query(sink@),
    ;

    /// Whether the output of the mute query says that the sink is muted.
    fn muted(&self, output: &[u8]) -> (r: bool)
        ensures
            r == self.says_muted(output@),
    ;

    /// The one command that applies `mute` to `sink`.
    fn set_mute_cmd(&self, sink: &str, mute: Mute) -> (r: Option<Invocation>)
        ensures
            cmd_of(r) == self.mute_order(sink@, mute),
    ;

    /// The command that reports the volume of `sink`.
    fn get_vol_cmd(&self, sink: &str) -> (r: Option<Invocation>)
        ensures
            cmd_of(r) == self.volume_query(sink@),
    ;

    /// The percentage that the output of the volume query reports, or the
    /// largest `u32` where it reports more.
    fn read_vol(&self, output: &[u8]) -> (r: Option<u32>)
        ensures
            r == match self.volume_reading(output@) {
                Some(n) => Some(capped(n)),
                None => None,
            },
    ;

    /// The command that sets the volume of `sink` to `percent`.
    fn set_vol_cmd(&self, sink: &str, percent: u8) -> (r: Option<Invocation>)
        ensures
            cmd_of(r) == self.volume_order(sink@, percent),
    ;

    /// Whether `sink` exists, judged by the attempt to inspect it: it
    /// exists exactly when the backend has an inspection command and that
    /// command succeeded.
    fn sink_exists(&self, sink: Option<&str>, attempt: Attempt) -> (r: bool)
        ensures
            r <==> self.inspection(text_of(sink)) is Some && attempt@.succeeded(),
    {
        match self.sink_exists_cmd(sink) {
            Some(cmd) => exec(&cmd, attempt).is_ok(),
            None => false,
        }
    }

    /// Whether `sink` is muted, judged by the attempt to query it.
    ///
    /// After a query that succeeded, the answer is whether its captured
    /// output says muted. A query that failed is an error, the process
    /// runner's own, and never an answer.
    fn sink_is_muted(&self, sink: &str, attempt: Attempt) -> (r: Result<bool, SoundError>)
        ensures
            answer(r) == match captured_answer(self.mute_query(sink@), attempt@) {
                Ok(output) => Ok::<bool, SoundErrorView>(self.says_muted(output)),
                Err(e) => Err(e),
            },
            r is Ok ==> attempt@.succeeded(),
    {
        match self.sink_is_muted_cmd(sink) {
            Some(cmd) => match exec_with_output(&cmd, attempt) {
                Ok(output) => Ok(self.muted(output.as_slice())),
                Err(e) => Err(SoundError::Cmd(e)),
            },
            None => Err(SoundError::Unsupported),
        }
    }

    /// Judges the attempt to apply `mute` to `sink`: the directive took
    /// effect exactly when the backend has a command for it and that
    /// command succeeded.
    fn set_mute(&self, sink: &str, mute: Mute, attempt: Attempt) -> (r: Result<(), MuteError>)
        ensures
            r is Ok <==> self.mute_order(sink@, mute) is Some && attempt@.succeeded(),
    {
        match self.set_mute_cmd(sink, mute) {
            Some(cmd) => match exec(&cmd, attempt) {
                Ok(()) => Ok(()),
                Err(_) => Err(MuteError),
            },
            None => Err(MuteError),
        }
    }

    /// The one command that mutes `sink`.
    fn mute_sink_cmd(&self, sink: &str) -> (r: Option<Invocation>)
        ensures
            cmd_of(r) == self.mute_order(sink@, Mute::Mute),
    {
        self.set_mute_cmd(sink, Mute::Mute)
    }

    /// The one command that unmutes `sink`.
    fn unmute_sink_cmd(&self, sink: &str) -> (r: Option<Invocation>)
        ensures
            cmd_of(r) == self.mute_order(sink@, Mute::Unmute),
    {
        self.set_mute_cmd(sink, Mute::Unmute)
    }

    /// The one command that toggles the mute switch of `sink`.
    fn toggle_sink_cmd(&self, sink: &str) -> (r: Option<Invocation>)
        ensures
            cmd_of(r) == self.mute_order(sink@, Mute::Toggle),
    {
        self.set_mute_cmd(sink, Mute::Toggle)
    }

    /// Judges the attempt to mute `sink`.
    fn mute_sink(&self, sink: &str, attempt: Attempt) -> (r: Result<(), MuteError>)
        ensures
            r is Ok <==> self.mute_order(sink@, Mute::Mute) is Some && attempt@.succeeded(),
    {
        self.set_mute(sink, Mute::Mute, attempt)
    }

    /// Judges the attempt to unmute `sink`.
    fn unmute_sink(&self, sink: &str, attempt: Attempt) -> (r: Result<(), MuteError>)
        ensures
            r is Ok <==> self.mute_order(sink@, Mute::Unmute) is Some && attempt@.succeeded(),
    {
        self.set_mute(sink, Mute::Unmute, attempt)
    }

    /// Judges the attempt to toggle the mute switch of `sink`.
    fn toggle_sink(&self, sink: &str, attempt: Attempt) -> (r: Result<(), MuteError>)
        ensures
            r is Ok <==> self.mute_order(sink@, Mute::Toggle) is Some && attempt@.succeeded(),
    {
        self.set_mute(sink, Mute::Toggle, attempt)
    }

    /// The volume of `sink` as the backend reports it, judged by the
    /// attempt to query it. The reading is not brought into range here.
    fn get_vol(&self, sink: &str, attempt: Attempt) -> (r: Result<u32, SoundError>)
        ensures
            answer(r) == match captured_answer(self.volume_query(sink@), attempt@) {
                Ok(output) => volume_of(self.volume_reading(output)),
                Err(e) => Err(e),
            },
    {
        match self.get_vol_cmd(sink) {
            Some(cmd) => match exec_with_output(&cmd, attempt) {
                Ok(output) => match self.read_vol(output.as_slice()) {
                    Some(reading) => Ok(reading),
                    None => Err(SoundError::Unreadable),
                },
                Err(e) => Err(SoundError::Cmd(e)),
            },
            None => Err(SoundError::Unsupported),
        }
    }

    /// Judges the attempt to set the volume of `sink` to `percent`.
    fn set_vol(&self, sink: &str, percent: u8, attempt: Attempt) -> (r: Result<(), SoundError>)
        ensures
            answer(r) == order_answer(self.volume_order(sink@, percent), attempt@),
    {
        match self.set_vol_cmd(sink, percent) {
            Some(cmd) => match exec(&cmd, attempt) {
                Ok(()) => Ok(()),
                Err(e) => Err(SoundError::Cmd(e)),
            },
            None => Err(SoundError::Unsupported),
        }
    }
}

} // verus!
