//! The sound controller: which backend a host has, and the uniform
//! operations on whichever was found.

use crate::path::{
    candidate_files, candidates, file_in, on_path, search_dirs, PathSearch, SearchView,
};
use crate::sh::{Attempt, AttemptView, Invocation, InvocationView};
use crate::sound::alsa::AlsaServer;
use crate::sound::pipewire::PipeWireServer;
use crate::sound::pulseaudio::PulseServer;
use crate::sound::{
    answer, captured_answer, clamp, cmd_of, floor, order_answer, volume_of, Mute, MuteError,
    SoundError, SoundErrorView, SoundServer,
};
use crate::text::{name_of, text_of};
use vstd::prelude::*;

verus! {

/// The sound backends that the controller can drive.
#[derive(Debug, Clone, Copy, PartialEq, Eq)]
pub enum Kind {
    /// The low-level audio subsystem.
    ALSA,
    /// The sound-server daemon.
    PulseAudio,
    /// The multiplexer.
    Pipewire,
}

impl Kind {
    /// The program whose presence on the search path shows that the backend is there.
    pub open spec fn tool_name(self) -> Seq<char> {
        match self {
            Kind::ALSA => "amixer"@,
            Kind::PulseAudio => "pactl"@,
            Kind::Pipewire => "wpctl"@,
        }
    }

    /// The name under which the backend is known to people.
    pub open spec fn label(self) -> Seq<char> {
        match self {
            Kind::ALSA => "ALSA"@,
            Kind::PulseAudio => "PulseAudio"@,
            Kind::Pipewire => "PipeWire"@,
        }
    }

    /// The program whose presence on the search path shows that the backend is there.
    pub fn tool(&self) -> (r: &'static str)
        ensures
            r@ == self.tool_name(),
    {
        match self {
            Kind::ALSA => "amixer",
            Kind::PulseAudio => "pactl",
            Kind::Pipewire => "wpctl",
        }
    }

    /// The name under which the backend is known to people.
    pub fn name(&self) -> (r: &'static str)
        ensures
            r@ == self.label(),
    {
        match self {
            Kind::ALSA => "ALSA",
            Kind::PulseAudio => "PulseAudio",
            Kind::Pipewire => "PipeWire",
        }
    }
}

/// The files whose existence detection asks about, in order: the
/// multiplexer's tool in each directory of the search path, then the
/// daemon's, then that of the low-level subsystem.
pub open spec fn probes(path: Option<Seq<char>>) -> Seq<Seq<char>> {
    candidates(path, Kind::Pipewire.tool_name()) + candidates(path, Kind::PulseAudio.tool_name())
        + candidates(path, Kind::ALSA.tool_name())
}

/// The backend whose tool the probe at position `i` looks for, where the
/// search path has `dirs` directories.
pub open spec fn kind_at(dirs: nat, i: int) -> Kind {
    if i < dirs {
        Kind::Pipewire
    } else if i < 2 * dirs {
        Kind::PulseAudio
    } else {
        Kind::ALSA
    }
}

/// The backend that detection is to find on a host where `present` holds
/// the files that exist: the first one, in the order multiplexer, daemon,
/// low-level subsystem, whose tool is on the search path.
pub open spec fn detected(path: Option<Seq<char>>, present: Set<Seq<char>>) -> Option<Kind> {
    if on_path(path, Kind::Pipewire.tool_name(), present) {
        Some(Kind::Pipewire)
    } else if on_path(path, Kind::PulseAudio.tool_name(), present) {
        Some(Kind::PulseAudio)
    } else if on_path(path, Kind::ALSA.tool_name(), present) {
        Some(Kind::ALSA)
    } else {
        None
    }
}

/// The mathematical content of a [`Detect`]: the search through the
/// probes, and the number of directories on the search path.
pub ghost struct DetectView {
    pub search: SearchView,
    pub dirs: nat,
}

/// Where detection stands.
#[derive(Debug, Clone, Copy, PartialEq, Eq)]
pub enum Detection {
    /// A question is pending.
    Probing,
    /// No backend is usable on this host.
    NoBackend,
    /// The backend that was found.
    Found(Kind),
}

impl DetectView {
    /// Detection that has asked nothing yet.
    pub open spec fn start(path: Option<Seq<char>>) -> DetectView {
        DetectView { search: SearchView::start(probes(path)), dirs: search_dirs(path).len() }
    }

    /// The search is well formed and has three probes for each directory.
    pub open spec fn wf(self) -> bool {
        &&& self.search.wf()
        &&& self.search.files.len() == 3 * self.dirs
    }

    /// The file to ask about next, while detection is open.
    pub open spec fn pending(self) -> Option<Seq<char>> {
        self.search.pending()
    }

    /// Detection after the answer to its pending question.
    pub open spec fn answer(self, exists: bool) -> DetectView {
        DetectView { search: self.search.answer(exists), dirs: self.dirs }
    }

    /// Where detection stands.
    pub open spec fn verdict(self) -> Detection {
        match self.search.verdict() {
            None => Detection::Probing,
            Some(false) => Detection::NoBackend,
            Some(true) => Detection::Found(kind_at(self.dirs, self.search.asked - 1)),
        }
    }

    /// The backend that detection finds when every question is answered from `present`.
    pub open spec fn conclude(self, present: Set<Seq<char>>) -> Option<Kind>
        decreases self.search.files.len() - self.search.asked,
    {
        match self.pending() {
            Some(file) => self.answer(present.contains(file)).conclude(present),
            None => match self.verdict() {
                Detection::Found(kind) => Some(kind),
                _ => None,
            },
        }
    }
}

/// The first position at or after `from` whose file exists, or the number of files when none does.
pub open spec fn first_hit(files: Seq<Seq<char>>, from: int, present: Set<Seq<char>>) -> int
    decreases files.len() - from,
{
    if from >= files.len() {
        files.len() as int
    } else if from >= 0 && present.contains(files[from]) {
        from
    } else {
        first_hit(files, from + 1, present)
    }
}

proof fn lemma_first_hit(files: Seq<Seq<char>>, from: int, present: Set<Seq<char>>)
    requires
        0 <= from <= files.len(),
    ensures
        from <= first_hit(files, from, present) <= files.len(),
        first_hit(files, from, present) < files.len() ==> present.contains(
            files[first_hit(files, from, present)],
        ),
        forall|k: int| from <= k < first_hit(files, from, present) ==> !present.contains(#[trigger] files[k]),
    decreases files.len() - from,
{
    if from < files.len() && !present.contains(files[from]) {
        lemma_first_hit(files, from + 1, present);
    }
}

proof fn lemma_conclude_first_hit(d: DetectView, present: Set<Seq<char>>)
    requires
        d.search.wf(),
        !d.search.found,
    ensures
        d.conclude(present) == if first_hit(d.search.files, d.search.asked as int, present)
            < d.search.files.len() {
            Some(kind_at(d.dirs, first_hit(d.search.files, d.search.asked as int, present)))
        } else {
            None
        },
    decreases d.search.files.len() - d.search.asked,
{
    if d.search.asked < d.search.files.len() {
        let file = d.search.files[d.search.asked as int];
        let next = d.answer(present.contains(file));
        if present.contains(file) {
            assert(next.pending() is None);
            assert(next.conclude(present) == Some(kind_at(d.dirs, d.search.asked as int)));
        } else {
            lemma_conclude_first_hit(next, present);
        }
    }
}

/// Detection along `path`, answered from the files in `present`, finds the
/// first backend in priority order whose tool is on the path, and none
/// when no tool is.
pub proof fn lemma_detect(path: Option<Seq<char>>, present: Set<Seq<char>>)
    ensures
        DetectView::start(path).conclude(present) == detected(path, present),
{
    let d = DetectView::start(path);
    let dirs = search_dirs(path);
    let n = dirs.len() as int;
    let files = probes(path);
    let h = first_hit(files, 0, present);
    lemma_conclude_first_hit(d, present);
    lemma_first_hit(files, 0, present);
    let t0 = Kind::Pipewire.tool_name();
    let t1 = Kind::PulseAudio.tool_name();
    let t2 = Kind::ALSA.tool_name();
    assert(files.len() == 3 * n);
    assert forall|i: int| 0 <= i < n implies #[trigger] files[i] == file_in(dirs[i], t0) by {}
    assert forall|i: int| 0 <= i < n implies #[trigger] files[n + i] == file_in(dirs[i], t1) by {}
    assert forall|i: int| 0 <= i < n implies #[trigger] files[2 * n + i] == file_in(dirs[i], t2) by {}
    if on_path(path, t0, present) {
        let i = choose|i: int| 0 <= i < dirs.len() && present.contains(file_in(#[trigger] dirs[i], t0));
        assert(present.contains(files[i]));
        assert(h <= i);
    } else {
        assert forall|k: int| 0 <= k < n implies !present.contains(#[trigger] files[k]) by {
            if present.contains(files[k]) {
                assert(present.contains(file_in(dirs[k], t0)));
            }
        }
        assert(h >= n) by {
            if h < n {
                assert(present.contains(files[h]));
            }
        }
        if on_path(path, t1, present) {
            let i = choose|i: int|
                0 <= i < dirs.len() && present.contains(file_in(#[trigger] dirs[i], t1));
            assert(present.contains(files[n + i]));
            assert(h <= n + i);
        } else {
            assert forall|k: int| n <= k < 2 * n implies !present.contains(#[trigger] files[k]) by {
                if present.contains(files[k]) {
                    assert(files[n + (k - n)] == file_in(dirs[k - n], t1));
                    assert(present.contains(file_in(dirs[k - n], t1)));
                }
            }
            assert(h >= 2 * n) by {
                if h < 2 * n {
                    assert(present.contains(files[h]));
                }
            }
            if on_path(path, t2, present) {
                let i = choose|i: int|
                    0 <= i < dirs.len() && present.contains(file_in(#[trigger] dirs[i], t2));
                assert(present.contains(files[2 * n + i]));
                assert(h <= 2 * n + i);
            } else {
                assert(h == 3 * n) by {
                    if h < 3 * n {
                        assert(present.contains(files[h]));
                        assert(files[2 * n + (h - 2 * n)] == file_in(dirs[h - 2 * n], t2));
                        assert(present.contains(file_in(dirs[h - 2 * n], t2)));
                    }
                }
            }
        }
    }
}

/// The detection of the backend of a host, question by question.
///
/// It asks for the tool of each backend in each directory of the search
/// path, in priority order, and ends with the first file that exists.
pub struct Detect {
    search: PathSearch,
    dirs: usize,
}

impl View for Detect {
    type V = DetectView;

    closed spec fn view(&self) -> DetectView {
        DetectView { search: self.search@, dirs: self.dirs as nat }
    }
}

impl Detect {
    #[verifier::type_invariant]
    spec fn inv(self) -> bool {
        self.search@.files.len() == 3 * self.dirs
    }

    /// Begins detection along `path`, the value of the search path
    /// variable, `None` when it is unset.
    pub fn new(path: Option<&str>) -> (r: Detect)
        ensures
            r@ == DetectView::start(text_of(path)),
    {
        let mut files = candidate_files(Kind::Pipewire.tool(), path);
        let dirs = files.len();
        let mut second = candidate_files(Kind::PulseAudio.tool(), path);
        let mut third = candidate_files(Kind::ALSA.tool(), path);
        let ghost a = files.deep_view();
        let ghost b = second.deep_view();
        let ghost c = third.deep_view();
        files.append(&mut second);
        assert(files.deep_view() =~= a + b);
        files.append(&mut third);
        assert(files.deep_view() =~= a + b + c);
        Detect { search: PathSearch::over(files), dirs }
    }

    /// The file whose existence detection needs to know next, or `None` when it is over.
    pub fn wanted(&self) -> (r: Option<&str>)
        ensures
            self@.wf(),
            match r {
                Some(file) => self@.pending() == Some(file@),
                None => self@.pending() is None,
            },
    {
        proof {
            use_type_invariant(self);
        }
        self.search.wanted()
    }

    /// Takes the answer to the pending question: whether the wanted file
    /// exists. Detection that is over ignores it.
    pub fn answer(&mut self, exists: bool)
        ensures
            final(self)@ == old(self)@.answer(exists),
    {
        proof {
            use_type_invariant(&*self);
        }
        self.search.answer(exists);
    }

    /// Where detection stands: probing, over without a backend, or over
    /// with the backend whose tool was found.
    pub fn result(&self) -> (r: Detection)
        ensures
            r == self@.verdict(),
            r is Probing <==> self@.pending() is Some,
    {
        proof {
            use_type_invariant(self);
        }
        match self.search.result() {
            None => Detection::Probing,
            Some(false) => Detection::NoBackend,
            Some(true) => {
                let i = self.search.asked() - 1;
                if i < self.dirs {
                    Detection::Found(Kind::Pipewire)
                } else if i - self.dirs < self.dirs {
                    Detection::Found(Kind::PulseAudio)
                } else {
                    Detection::Found(Kind::ALSA)
                }
            },
        }
    }

    /// The controller of the backend that was found, with the
    /// configuration `ctrl` and before setup. There is none while
    /// detection is open, and none where it ended without a backend.
    pub fn server(&self, ctrl: Ctrl) -> (r: Option<Server>)
        ensures
            match self@.verdict() {
                Detection::Found(kind) => r matches Some(server) && server.kind_of() == kind
                    && server.config() == ctrl && (server matches Server::PulseAudio(_, adapter)
                    ==> adapter.0@.len() == 0),
                _ => r is None,
            },
    {
        match self.result() {
            Detection::Found(kind) => Some(Server::new(kind, ctrl)),
            _ => None,
        }
    }
}

/// What the user configured: the sink to act on, where one was named, and
/// the step of a change of volume, a percentage from 0 to 100.
#[derive(Debug, PartialEq, Eq)]
pub struct Ctrl {
    target_sink: Option<String>,
    step_size: u8,
}

impl Clone for Ctrl {
    fn clone(&self) -> (r: Ctrl)
        ensures
            r.target() == self.target(),
            r.step() == self.step(),
    {
        proof {
            use_type_invariant(self);
        }
        let target_sink = match &self.target_sink {
            Some(name) => Some(name.clone()),
            None => None,
        };
        Ctrl { target_sink, step_size: self.step_size }
    }
}

impl Ctrl {
    #[verifier::type_invariant]
    spec fn inv(self) -> bool {
        self.step_size <= 100
    }

    /// The sink to act on, where one was named.
    pub closed spec fn target(&self) -> Option<Seq<char>> {
        name_of(self.target_sink)
    }

    /// The step of a change of volume.
    pub closed spec fn step(&self) -> u8 {
        self.step_size
    }

    /// A configuration with `target_sink` and with `step_size` brought into range.
    pub fn new(target_sink: Option<String>, step_size: u8) -> (r: Ctrl)
        ensures
            r.target() == name_of(target_sink),
            r.step() == clamp(step_size as int),
    {
        Ctrl { target_sink, step_size: floor(step_size as i32) }
    }

    /// The sink to act on, where one was named.
    pub fn target_sink(&self) -> (r: Option<&str>)
        ensures
            text_of(r) == self.target(),
    {
        match &self.target_sink {
            Some(name) => Some(name.as_str()),
            None => None,
        }
    }

    /// The step of a change of volume, a percentage from 0 to 100.
    pub fn step_size(&self) -> (r: u8)
        ensures
            r == self.step(),
            r <= 100,
    {
        proof {
            use_type_invariant(self);
        }
        self.step_size
    }
}

/// The given sink, or the configured one where none is given.
pub open spec fn pick(sink: Option<Seq<char>>, target: Option<Seq<char>>) -> Option<Seq<char>> {
    match sink {
        Some(name) => Some(name),
        None => target,
    }
}

/// The volume `percent` above `current`, kept within 0 to 100.
pub open spec fn raised(current: u8, percent: u8) -> u8 {
    clamp(current + percent) as u8
}

/// The volume `percent` below `current`, kept within 0 to 100.
pub open spec fn lowered(current: u8, percent: u8) -> u8 {
    clamp(current - percent) as u8
}

/// The sound controller: the backend that was detected, with its adapter
/// and the user's configuration.
///
/// A controller exists only for a detected backend, and keeps that backend
/// for as long as it lives. As a [`SoundServer`] it hands each capability
/// to its adapter; where a capability takes an optional sink, the
/// configured sink stands in for one not given.
#[derive(Debug, Clone, PartialEq, Eq)]
pub enum Server {
    ALSA(Ctrl, AlsaServer),
    PulseAudio(Ctrl, PulseServer),
    Pipewire(Ctrl, PipeWireServer),
}

impl SoundServer for Server {
    open spec fn known_sink(&self) -> Option<Seq<char>> {
        match self {
            Server::ALSA(_, server) => server.known_sink(),
            Server::PulseAudio(_, server) => server.known_sink(),
            Server::Pipewire(_, server) => server.known_sink(),
        }
    }

    open spec fn setup(&self) -> Option<InvocationView> {
        match self {
            Server::ALSA(_, server) => server.setup(),
            Server::PulseAudio(_, server) => server.setup(),
            Server::Pipewire(_, server) => server.setup(),
        }
    }

    open spec fn inspection(&self, sink: Option<Seq<char>>) -> Option<InvocationView> {
        match self {
            Server::ALSA(ctrl, server) => server.inspection(pick(sink, ctrl.target())),
            Server::PulseAudio(ctrl, server) => server.inspection(pick(sink, ctrl.target())),
            Server::Pipewire(ctrl, server) => server.inspection(pick(sink, ctrl.target())),
        }
    }

    open spec fn mute_query(&self, sink: Seq<char>) -> Option<InvocationView> {
        match self {
            Server::ALSA(_, server) => server.mute_query(sink),
            Server::PulseAudio(_, server) => server.mute_query(sink),
            Server::Pipewire(_, server) => server.mute_query(sink),
        }
    }

    open spec fn says_muted(&self, output: Seq<u8>) -> bool {
        match self {
            Server::ALSA(_, server) => server.says_muted(output),
            Server::PulseAudio(_, server) => server.says_muted(output),
            Server::Pipewire(_, server) => server.says_muted(output),
        }
    }

    open spec fn mute_order(&self, sink: Seq<char>, mute: Mute) -> Option<InvocationView> {
        match self {
            Server::ALSA(_, server) => server.mute_order(sink, mute),
            Server::PulseAudio(_, server) => server.mute_order(sink, mute),
            Server::Pipewire(_, server) => server.mute_order(sink, mute),
        }
    }

    open spec fn volume_query(&self, sink: Seq<char>) -> Option<InvocationView> {
        match self {
            Server::ALSA(_, server) => server.volume_query(sink),
            Server::PulseAudio(_, server) => server.volume_query(sink),
            Server::Pipewire(_, server) => server.volume_query(sink),
        }
    }

    open spec fn volume_reading(&self, output: Seq<u8>) -> Option<nat> {
        match self {
            Server::ALSA(_, server) => server.volume_reading(output),
            Server::PulseAudio(_, server) => server.volume_reading(output),
            Server::Pipewire(_, server) => server.volume_reading(output),
        }
    }

    open spec fn volume_order(&self, sink: Seq<char>, percent: u8) -> Option<InvocationView> {
        match self {
            Server::ALSA(_, server) => server.volume_order(sink, percent),
            Server::PulseAudio(_, server) => server.volume_order(sink, percent),
            Server::Pipewire(_, server) => server.volume_order(sink, percent),
        }
    }

    fn default_sink(&self) -> (r: Option<String>) {
        match self {
            Server::ALSA(_, server) => server.default_sink(),
            Server::PulseAudio(_, server) => server.default_sink(),
            Server::Pipewire(_, server) => server.default_sink(),
        }
    }

    fn init_cmd(&self) -> (r: Option<Invocation>) {
        match self {
            Server::ALSA(_, server) => server.init_cmd(),
            Server::PulseAudio(_, server) => server.init_cmd(),
            Server::Pipewire(_, server) => server.init_cmd(),
        }
    }

    /// Makes the controller ready: hands the attempt to run
    /// [`SoundServer::init_cmd`] to the adapter. The backend and the
    /// configuration stay what they were.
    fn init(&mut self, attempt: Attempt) -> (r: Result<(), SoundError>)
        ensures
            final(self).kind_of() == old(self).kind_of(),
            final(self).config() == old(self).config(),
            *old(self) matches Server::PulseAudio(_, before) ==> before.setup() is Some ==> (
            *final(self) matches Server::PulseAudio(_, after) && after.0@ == before.learnt(
                attempt@,
            ).0 && answer(r) == before.learnt(attempt@).1),
    {
        match self {
            Server::ALSA(_, server) => server.init(attempt),
            Server::PulseAudio(_, server) => server.init(attempt),
            Server::Pipewire(_, server) => server.init(attempt),
        }
    }

    fn sink_exists_cmd(&self, sink: Option<&str>) -> (r: Option<Invocation>) {
        match self {
            Server::ALSA(ctrl, server) => server.sink_exists_cmd(choose_sink(sink, ctrl)),
            Server::PulseAudio(ctrl, server) => server.sink_exists_cmd(choose_sink(sink, ctrl)),
            Server::Pipewire(ctrl, server) => server.sink_exists_cmd(choose_sink(sink, ctrl)),
        }
    }

    fn sink_is_muted_cmd(&self, sink: &str) -> (r: Option<Invocation>) {
        match self {
            Server::ALSA(_, server) => server.sink_is_muted_cmd(sink),
            Server::PulseAudio(_, server) => server.sink_is_muted_cmd(sink),
            Server::Pipewire(_, server) => server.sink_is_muted_cmd(sink),
        }
    }

    fn muted(&self, output: &[u8]) -> (r: bool) {
        match self {
            Server::ALSA(_, server) => server.muted(output),
            Server::PulseAudio(_, server) => server.muted(output),
            Server::Pipewire(_, server) => server.muted(output),
        }
    }

    fn set_mute_cmd(&self, sink: &str, mute: Mute) -> (r: Option<Invocation>) {
        match self {
            Server::ALSA(_, server) => server.set_mute_cmd(sink, mute),
            Server::PulseAudio(_, server) => server.set_mute_cmd(sink, mute),
            Server::Pipewire(_, server) => server.set_mute_cmd(sink, mute),
        }
    }

    fn get_vol_cmd(&self, sink: &str) -> (r: Option<Invocation>) {
        match self {
            Server::ALSA(_, server) => server.get_vol_cmd(sink),
            Server::PulseAudio(_, server) => server.get_vol_cmd(sink),
            Server::Pipewire(_, server) => server.get_vol_cmd(sink),
        }
    }

    fn read_vol(&self, output: &[u8]) -> (r: Option<u32>) {
        match self {
            Server::ALSA(_, server) => server.read_vol(output),
            Server::PulseAudio(_, server) => server.read_vol(output),
            Server::Pipewire(_, server) => server.read_vol(output),
        }
    }

    fn set_vol_cmd(&self, sink: &str, percent: u8) -> (r: Option<Invocation>) {
        match self {
            Server::ALSA(_, server) => server.set_vol_cmd(sink, percent),
            Server::PulseAudio(_, server) => server.set_vol_cmd(sink, percent),
            Server::Pipewire(_, server) => server.set_vol_cmd(sink, percent),
        }
    }
}

fn choose_sink<'a>(sink: Option<&'a str>, ctrl: &'a Ctrl) -> (r: Option<&'a str>)
    ensures
        text_of(r) == pick(text_of(sink), ctrl.target()),
{
    match sink {
        Some(name) => Some(name),
        None => ctrl.target_sink(),
    }
}

impl Server {
    /// The backend that the controller drives.
    pub open spec fn kind_of(&self) -> Kind {
        match self {
            Server::ALSA(..) => Kind::ALSA,
            Server::PulseAudio(..) => Kind::PulseAudio,
            Server::Pipewire(..) => Kind::Pipewire,
        }
    }

    /// The user's configuration.
    pub open spec fn config(&self) -> Ctrl {
        match self {
            Server::ALSA(ctrl, _) => *ctrl,
            Server::PulseAudio(ctrl, _) => *ctrl,
            Server::Pipewire(ctrl, _) => *ctrl,
        }
    }

    /// The backend needs no setup, or has had it.
    pub open spec fn ready(&self) -> bool {
        self.setup() is None
    }

    /// The sink that an operation acts on: the given one, else the
    /// configured one, else the default sink as far as it is known.
    pub open spec fn chosen(&self, sink: Option<Seq<char>>) -> Option<Seq<char>> {
        match pick(sink, self.config().target()) {
            Some(name) => Some(name),
            None => self.known_sink(),
        }
    }

    /// The command that applies `mute` to the sink that `sink` stands for.
    pub open spec fn mute_plan(&self, sink: Option<Seq<char>>, mute: Mute) -> Option<
        InvocationView,
    > {
        match self.chosen(sink) {
            Some(name) => self.mute_order(name, mute),
            None => None,
        }
    }

    /// The command that reports the volume of the sink that `sink` stands for.
    pub open spec fn volume_plan(&self, sink: Option<Seq<char>>) -> Option<InvocationView> {
        match self.chosen(sink) {
            Some(name) => self.volume_query(name),
            None => None,
        }
    }

    /// The command that sets the volume of the sink that `sink` stands for.
    pub open spec fn set_volume_plan(&self, sink: Option<Seq<char>>, percent: u8) -> Option<
        InvocationView,
    > {
        match self.chosen(sink) {
            Some(name) => self.volume_order(name, percent),
            None => None,
        }
    }

    /// The volume that the attempt to query it shows, brought into the range 0 to 100.
    pub open spec fn volume_read(
        &self,
        sink: Option<Seq<char>>,
        attempt: AttemptView,
    ) -> Result<u8, SoundErrorView> {
        match captured_answer(self.volume_plan(sink), attempt) {
            Ok(output) => match volume_of(self.volume_reading(output)) {
                Ok(reading) => Ok(clamp(reading as int) as u8),
                Err(e) => Err(e),
            },
            Err(e) => Err(e),
        }
    }

    /// Begins the detection of the backend along `path`, the value of the
    /// search path variable, `None` when it is unset.
    ///
    /// Detection tries the multiplexer first, then the daemon, then the
    /// low-level subsystem, and settles on the first whose tool is found.
    pub fn auto_detect(path: Option<&str>) -> (r: Detect)
        ensures
            r@ == DetectView::start(text_of(path)),
    {
        Detect::new(path)
    }

    /// The controller of the backend `kind` with the configuration
    /// `ctrl`, before setup.
    pub fn new(kind: Kind, ctrl: Ctrl) -> (r: Server)
        ensures
            r.kind_of() == kind,
            r.config() == ctrl,
            r matches Server::PulseAudio(_, server) ==> server.0@.len() == 0,
    {
        match kind {
            Kind::ALSA => Server::ALSA(ctrl, AlsaServer()),
            Kind::PulseAudio => Server::PulseAudio(ctrl, PulseServer::default()),
            Kind::Pipewire => Server::Pipewire(ctrl, PipeWireServer::default()),
        }
    }

    /// The backend that the controller drives.
    pub fn kind(&self) -> (r: Kind)
        ensures
            r == self.kind_of(),
    {
        match self {
            Server::ALSA(..) => Kind::ALSA,
            Server::PulseAudio(..) => Kind::PulseAudio,
            Server::Pipewire(..) => Kind::Pipewire,
        }
    }

    /// The name of the backend: `ALSA`, `PulseAudio` or `PipeWire`.
    pub fn name(&self) -> (r: &'static str)
        ensures
            r@ == self.kind_of().label(),
    {
        self.kind().name()
    }

    /// The user's configuration.
    pub fn ctrl(&self) -> (r: &Ctrl)
        ensures
            *r == self.config(),
    {
        match self {
            Server::ALSA(ctrl, _) => ctrl,
            Server::PulseAudio(ctrl, _) => ctrl,
            Server::Pipewire(ctrl, _) => ctrl,
        }
    }

    /// Whether the backend needs no setup, or has had it.
    pub fn is_ready(&self) -> (r: bool)
        ensures
            r == self.ready(),
    {
        self.init_cmd().is_none()
    }

    /// The sink that an operation acts on: the given one, else the
    /// configured one, else the default sink as far as it is known.
    pub fn target_sink(&self, sink: Option<&str>) -> (r: Option<String>)
        ensures
            name_of(r) == self.chosen(text_of(sink)),
    {
        match choose_sink(sink, self.ctrl()) {
            Some(name) => Some(name.to_owned()),
            None => self.default_sink(),
        }
    }

    /// The command that reports the volume of `sink`.
    pub fn volume_cmd(&self, sink: Option<&str>) -> (r: Option<Invocation>)
        ensures
            cmd_of(r) == self.volume_plan(text_of(sink)),
    {
        match self.target_sink(sink) {
            Some(name) => self.get_vol_cmd(name.as_str()),
            None => None,
        }
    }

    /// The volume of `sink` as a percentage from 0 to 100, judged by the
    /// attempt to query it. A reading above 100 counts as 100.
    pub fn volume(&self, sink: Option<&str>, attempt: Attempt) -> (r: Result<u8, SoundError>)
        ensures
            answer(r) == self.volume_read(text_of(sink), attempt@),
            r matches Ok(percent) ==> percent <= 100,
    {
        match self.target_sink(sink) {
            Some(name) => match self.get_vol(name.as_str(), attempt) {
                Ok(reading) => Ok(
                    if reading > 100 {
                        100
                    } else {
                        floor(reading as i32)
                    },
                ),
                Err(e) => Err(e),
            },
            None => Err(SoundError::Unsupported),
        }
    }

    /// The command that raises the volume of `sink` by `percent` from
    /// `current`, to 100 at most.
    pub fn vol_incr_percent_cmd(&self, sink: Option<&str>, percent: u8, current: u8) -> (r: Option<
        Invocation,
    >)
        ensures
            cmd_of(r) == self.set_volume_plan(text_of(sink), raised(current, percent)),
    {
        let target = floor(current as i32 + percent as i32);
        match self.target_sink(sink) {
            Some(name) => self.set_vol_cmd(name.as_str(), target),
            None => None,
        }
    }

    /// Judges the attempt to raise the volume of `sink` by `percent` from `current`.
    pub fn vol_incr_percent(
        &self,
        sink: Option<&str>,
        percent: u8,
        current: u8,
        attempt: Attempt,
    ) -> (r: Result<(), SoundError>)
        ensures
            answer(r) == order_answer(
                self.set_volume_plan(text_of(sink), raised(current, percent)),
                attempt@,
            ),
    {
        let target = floor(current as i32 + percent as i32);
        match self.target_sink(sink) {
            Some(name) => self.set_vol(name.as_str(), target, attempt),
            None => Err(SoundError::Unsupported),
        }
    }

    /// The command that lowers the volume of `sink` by `percent` from
    /// `current`, to 0 at least.
    pub fn vol_decr_percent_cmd(&self, sink: Option<&str>, percent: u8, current: u8) -> (r: Option<
        Invocation,
    >)
        ensures
            cmd_of(r) == self.set_volume_plan(text_of(sink), lowered(current, percent)),
    {
        let target = floor(current as i32 - percent as i32);
        match self.target_sink(sink) {
            Some(name) => self.set_vol_cmd(name.as_str(), target),
            None => None,
        }
    }

    /// Judges the attempt to lower the volume of `sink` by `percent` from `current`.
    pub fn vol_decr_percent(
        &self,
        sink: Option<&str>,
        percent: u8,
        current: u8,
        attempt: Attempt,
    ) -> (r: Result<(), SoundError>)
        ensures
            answer(r) == order_answer(
                self.set_volume_plan(text_of(sink), lowered(current, percent)),
                attempt@,
            ),
    {
        let target = floor(current as i32 - percent as i32);
        match self.target_sink(sink) {
            Some(name) => self.set_vol(name.as_str(), target, attempt),
            None => Err(SoundError::Unsupported),
        }
    }

    /// The one command that applies `mute` to `sink`.
    pub fn mute_cmd_for(&self, sink: Option<&str>, mute: Mute) -> (r: Option<Invocation>)
        ensures
            cmd_of(r) == self.mute_plan(text_of(sink), mute),
    {
        match self.target_sink(sink) {
            Some(name) => self.set_mute_cmd(name.as_str(), mute),
            None => None,
        }
    }

    /// Judges the attempt to apply `mute` to `sink`: the directive took
    /// effect exactly when the backend has a command for it and that
    /// command succeeded.
    pub fn mute_with(&self, sink: Option<&str>, mute: Mute, attempt: Attempt) -> (r: Result<
        (),
        MuteError,
    >)
        ensures
            r is Ok <==> self.mute_plan(text_of(sink), mute) is Some && attempt@.succeeded(),
    {
        match self.target_sink(sink) {
            Some(name) => self.set_mute(name.as_str(), mute, attempt),
            None => Err(MuteError),
        }
    }

    /// The one command that mutes `sink`.
    pub fn mute_cmd(&self, sink: Option<&str>) -> (r: Option<Invocation>)
        ensures
            cmd_of(r) == self.mute_plan(text_of(sink), Mute::Mute),
    {
        self.mute_cmd_for(sink, Mute::Mute)
    }

    /// Judges the attempt to mute `sink`.
    pub fn mute(&self, sink: Option<&str>, attempt: Attempt) -> (r: Result<(), MuteError>)
        ensures
            r is Ok <==> self.mute_plan(text_of(sink), Mute::Mute) is Some && attempt@.succeeded(),
    {
        self.mute_with(sink, Mute::Mute, attempt)
    }

    /// The one command that unmutes `sink`.
    pub fn unmute_cmd(&self, sink: Option<&str>) -> (r: Option<Invocation>)
        ensures
            cmd_of(r) == self.mute_plan(text_of(sink), Mute::Unmute),
    {
        self.mute_cmd_for(sink, Mute::Unmute)
    }

    /// Judges the attempt to unmute `sink`.
    pub fn unmute(&self, sink: Option<&str>, attempt: Attempt) -> (r: Result<(), MuteError>)
        ensures
            r is Ok <==> self.mute_plan(text_of(sink), Mute::Unmute) is Some
                && attempt@.succeeded(),
    {
        self.mute_with(sink, Mute::Unmute, attempt)
    }

    /// The one command that toggles the mute switch of `sink`.
    pub fn toggle_mute_cmd(&self, sink: Option<&str>) -> (r: Option<Invocation>)
        ensures
            cmd_of(r) == self.mute_plan(text_of(sink), Mute::Toggle),
    {
        self.mute_cmd_for(sink, Mute::Toggle)
    }

    /// Judges the attempt to toggle the mute switch of `sink`.
    pub fn toggle_mute(&self, sink: Option<&str>, attempt: Attempt) -> (r: Result<(), MuteError>)
        ensures
            r is Ok <==> self.mute_plan(text_of(sink), Mute::Toggle) is Some
                && attempt@.succeeded(),
    {
        self.mute_with(sink, Mute::Toggle, attempt)
    }
}

} // verus!
