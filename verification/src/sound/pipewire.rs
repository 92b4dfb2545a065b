//! The multiplexer backend, driven through `wpctl`.

use super::{
    command2, command3, line2, line3, percent_string, percent_word, Mute, SoundError, SoundServer,
};
use crate::scan::{contains, fraction_reading, occurs, read_fraction};
use crate::sh::{Attempt, Invocation, InvocationView};
use vstd::prelude::*;
use vstd::utf8::encode_utf8;

verus! {

/// The adapter of the multiplexer backend. It keeps no state: its tool
/// takes a fixed word for the default sink.
#[derive(Debug, Clone, Copy, PartialEq, Eq)]
pub struct PipeWireServer();

impl Default for PipeWireServer {
    fn default() -> (r: PipeWireServer)
        ensures
            r == PipeWireServer(),
    {
        PipeWireServer()
    }
}

/// The word that `wpctl` takes for the default sink.
pub const DEFAULT_SINK: &'static str = "@DEFAULT_AUDIO_SINK@";

/// The mark that `wpctl get-volume` puts behind the volume of a muted sink.
pub const MUTED: &'static str = "[MUTED]";

/// The sink that a command is about: the given one, or the word for the default sink.
pub open spec fn target(sink: Option<Seq<char>>) -> Seq<char> {
    match sink {
        Some(name) => name,
        None => DEFAULT_SINK@,
    }
}

impl SoundServer for PipeWireServer {
    open spec fn known_sink(&self) -> Option<Seq<char>> {
        Some(DEFAULT_SINK@)
    }

    open spec fn setup(&self) -> Option<InvocationView> {
        None
    }

    open spec fn inspection(&self, sink: Option<Seq<char>>) -> Option<InvocationView> {
        Some(line2("wpctl"@, "inspect"@, target(sink)))
    }

    open spec fn mute_query(&self, sink: Seq<char>) -> Option<InvocationView> {
        Some(line2("wpctl"@, "get-volume"@, sink))
    }

    open spec fn says_muted(&self, output: Seq<u8>) -> bool {
        occurs(encode_utf8(MUTED@), output)
    }

    open spec fn mute_order(&self, sink: Seq<char>, mute: Mute) -> Option<InvocationView> {
        Some(line3("wpctl"@, "set-mute"@, sink, mute.token()))
    }

    open spec fn volume_query(&self, sink: Seq<char>) -> Option<InvocationView> {
        Some(line2("wpctl"@, "get-volume"@, sink))
    }

    open spec fn volume_reading(&self, output: Seq<u8>) -> Option<nat> {
        fraction_reading(output)
    }

    open spec fn volume_order(&self, sink: Seq<char>, percent: u8) -> Option<InvocationView> {
        Some(line3("wpctl"@, "set-volume"@, sink, percent_word(percent)))
    }

    fn default_sink(&self) -> (r: Option<String>) {
        Some(DEFAULT_SINK.to_owned())
    }

    fn init_cmd(&self) -> (r: Option<Invocation>) {
        None
    }

    fn init(&mut self, attempt: Attempt) -> (r: Result<(), SoundError>) {
        Ok(())
    }

    fn sink_exists_cmd(&self, sink: Option<&str>) -> (r: Option<Invocation>) {
        let name = match sink {
            Some(name) => name,
            None => DEFAULT_SINK,
        };
        Some(command2("wpctl", "inspect", name))
    }

    fn sink_is_muted_cmd(&self, sink: &str) -> (r: Option<Invocation>) {
        Some(command2("wpctl", "get-volume", sink))
    }

    fn muted(&self, output: &[u8]) -> (r: bool) {
        contains(output, MUTED.as_bytes())
    }

    fn set_mute_cmd(&self, sink: &str, mute: Mute) -> (r: Option<Invocation>) {
        Some(command3("wpctl", "set-mute", sink, mute.to_str()))
    }

    fn get_vol_cmd(&self, sink: &str) -> (r: Option<Invocation>) {
        Some(command2("wpctl", "get-volume", sink))
    }

    fn read_vol(&self, output: &[u8]) -> (r: Option<u32>) {
        read_fraction(output)
    }

    fn set_vol_cmd(&self, sink: &str, percent: u8) -> (r: Option<Invocation>) {
        let word = percent_string(percent);
        Some(command3("wpctl", "set-volume", sink, word.as_str()))
    }
}

} // verus!
