//! The low-level audio subsystem. It has no named sinks and no simple
//! command for any capability, so it reports each one as unsupported.

use super::{Mute, SoundError, SoundServer};
use crate::sh::{Attempt, Invocation, InvocationView};
use vstd::prelude::*;

verus! {

/// The adapter of the low-level audio subsystem.
#[derive(Debug, Clone, Copy, PartialEq, Eq)]
pub struct AlsaServer();

impl SoundServer for AlsaServer {
    open spec fn known_sink(&self) -> Option<Seq<char>> {
        None
    }

    open spec fn setup(&self) -> Option<InvocationView> {
        None
    }

    open spec fn inspection(&self, sink: Option<Seq<char>>) -> Option<InvocationView> {
        None
    }

    open spec fn mute_query(&self, sink: Seq<char>) -> Option<InvocationView> {
        None
    }

    open spec fn says_muted(&self, output: Seq<u8>) -> bool {
        false
    }

    open spec fn mute_order(&self, sink: Seq<char>, mute: Mute) -> Option<InvocationView> {
        None
    }

    open spec fn volume_query(&self, sink: Seq<char>) -> Option<InvocationView> {
        None
    }

    open spec fn volume_reading(&self, output: Seq<u8>) -> Option<nat> {
        None
    }

    open spec fn volume_order(&self, sink: Seq<char>, percent: u8) -> Option<InvocationView> {
        None
    }

    fn default_sink(&self) -> (r: Option<String>) {
        None
    }

    fn init_cmd(&self) -> (r: Option<Invocation>) {
        None
    }

    fn init(&mut self, attempt: Attempt) -> (r: Result<(), SoundError>) {
        Ok(())
    }

    fn sink_exists_cmd(&self, sink: Option<&str>) -> (r: Option<Invocation>) {
        None
    }

    fn sink_is_muted_cmd(&self, sink: &str) -> (r: Option<Invocation>) {
        None
    }

    fn muted(&self, output: &[u8]) -> (r: bool) {
        false
    }

    fn set_mute_cmd(&self, sink: &str, mute: Mute) -> (r: Option<Invocation>) {
        None
    }

    fn get_vol_cmd(&self, sink: &str) -> (r: Option<Invocation>) {
        None
    }

    fn read_vol(&self, output: &[u8]) -> (r: Option<u32>) {
        None
    }

    fn set_vol_cmd(&self, sink: &str, percent: u8) -> (r: Option<Invocation>) {
        None
    }
}

} // verus!
