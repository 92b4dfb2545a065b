//! The sound-server daemon backend, driven through `pactl`.

use super::{
    answer, command2, command3, line2, line3, percent_string, percent_word, Mute, SoundError,
    SoundErrorView, SoundServer,
};
use crate::scan::{contains, occurs, percent_reading, read_percent};
use crate::sh::{
    exec_with_output, exec_with_output_outcome, Attempt, AttemptView, Invocation, InvocationView,
};
use crate::text::utf8_text;
use vstd::prelude::*;
use vstd::utf8::{decode_utf8, encode_utf8, valid_utf8};

verus! {

/// The adapter of the daemon backend. It holds the name of the default
/// sink once [`SoundServer::init`] has learnt it, and an empty name until then.
#[derive(Debug, Clone, PartialEq, Eq)]
pub struct PulseServer(pub String);

impl Default for PulseServer {
    fn default() -> (r: PulseServer)
        ensures
            r.0@.len() == 0,
    {
        PulseServer(String::new())
    }
}

/// The words with which `pactl get-sink-muted` reports a muted sink.
pub const MUTED: &'static str = "Mute: yes";

/// The command that asks the daemon for the name of its default sink.
pub open spec fn default_sink_query() -> InvocationView {
    InvocationView { program: "pactl"@, args: seq!["get-default-sink"@] }
}

impl PulseServer {
    /// The name that a command is about: the given one, or the one held.
    pub open spec fn target(&self, sink: Option<Seq<char>>) -> Seq<char> {
        match sink {
            Some(name) => name,
            None => self.0@,
        }
    }

    /// The adapter after the attempt `attempt` to learn the default sink,
    /// and what the attempt came to. The name is the captured output as
    /// it stands, read as UTF-8.
    pub open spec fn learnt(&self, attempt: AttemptView) -> (Seq<char>, Result<(), SoundErrorView>) {
        match exec_with_output_outcome(default_sink_query(), attempt) {
            Ok(output) => if valid_utf8(output) {
                (decode_utf8(output), Ok(()))
            } else {
                (self.0@, Err(SoundErrorView::Unreadable))
            },
            Err(e) => (self.0@, Err(SoundErrorView::Cmd(e))),
        }
    }
}

impl SoundServer for PulseServer {
    open spec fn known_sink(&self) -> Option<Seq<char>> {
        if self.0@.len() > 0 {
            Some(self.0@)
        } else {
            None
        }
    }

    open spec fn setup(&self) -> Option<InvocationView> {
        if self.0@.len() > 0 {
            None
        } else {
            Some(default_sink_query())
        }
    }

    open spec fn inspection(&self, sink: Option<Seq<char>>) -> Option<InvocationView> {
        Some(line2("pactl"@, "get-sink-volume"@, self.target(sink)))
    }

    open spec fn mute_query(&self, sink: Seq<char>) -> Option<InvocationView> {
        Some(line2("pactl"@, "get-sink-muted"@, sink))
    }

    open spec fn says_muted(&self, output: Seq<u8>) -> bool {
        occurs(encode_utf8(MUTED@), output)
    }

    open spec fn mute_order(&self, sink: Seq<char>, mute: Mute) -> Option<InvocationView> {
        Some(line3("pactl"@, "set-sink-mute"@, sink, mute.token()))
    }

    open spec fn volume_query(&self, sink: Seq<char>) -> Option<InvocationView> {
        Some(line2("pactl"@, "get-sink-volume"@, sink))
    }

    open spec fn volume_reading(&self, output: Seq<u8>) -> Option<nat> {
        percent_reading(output)
    }

    open spec fn volume_order(&self, sink: Seq<char>, percent: u8) -> Option<InvocationView> {
        Some(line3("pactl"@, "set-sink-volume"@, sink, percent_word(percent)))
    }

    fn default_sink(&self) -> (r: Option<String>) {
        if !self.0.as_str().is_empty() {
            return Some(self.0.clone());
        }
        None
    }

    fn init_cmd(&self) -> (r: Option<Invocation>) {
        if !self.0.as_str().is_empty() {
            return None;
        }
        let r = Invocation::new("pactl").arg("get-default-sink");
        assert(r@.args =~= seq!["get-default-sink"@]);
        Some(r)
    }

    /// Takes in the attempt to ask for the default sink. A name that
    /// was learnt before is kept and the attempt passed over. Otherwise
    /// the captured output becomes the name; a failed attempt, or
    /// output that is not UTF-8, is an error and leaves the adapter as it was.
    fn init(&mut self, attempt: Attempt) -> (r: Result<(), SoundError>)
        ensures
            old(self).setup() is Some ==> final(self).0@ == old(self).learnt(attempt@).0
                && answer(r) == old(self).learnt(attempt@).1,
    {
        match self.init_cmd() {
            None => Ok(()),
            Some(cmd) => match exec_with_output(&cmd, attempt) {
                Ok(output) => match utf8_text(output.as_slice()) {
                    Some(name) => {
                        self.0 = name;
                        Ok(())
                    },
                    None => Err(SoundError::Unreadable),
                },
                Err(e) => Err(SoundError::Cmd(e)),
            },
        }
    }

    fn sink_exists_cmd(&self, sink: Option<&str>) -> (r: Option<Invocation>) {
        let name = match sink {
            Some(name) => name,
            None => self.0.as_str(),
        };
        Some(command2("pactl", "get-sink-volume", name))
    }

    fn sink_is_muted_cmd(&self, sink: &str) -> (r: Option<Invocation>) {
        Some(command2("pactl", "get-sink-muted", sink))
    }

    fn muted(&self, output: &[u8]) -> (r: bool) {
        contains(output, MUTED.as_bytes())
    }

    fn set_mute_cmd(&self, sink: &str, mute: Mute) -> (r: Option<Invocation>) {
        Some(command3("pactl", "set-sink-mute", sink, mute.to_str()))
    }

    fn get_vol_cmd(&self, sink: &str) -> (r: Option<Invocation>) {
        Some(command2("pactl", "get-sink-volume", sink))
    }

    fn read_vol(&self, output: &[u8]) -> (r: Option<u32>) {
        read_percent(output)
    }

    fn set_vol_cmd(&self, sink: &str, percent: u8) -> (r: Option<Invocation>) {
        let word = percent_string(percent);
        Some(command3("pactl", "set-sink-volume", sink, word.as_str()))
    }
}

} // verus!
