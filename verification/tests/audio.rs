use volctl::audio::{Ctrl, Detect, Detection, Kind, Server};
use volctl::cli::{Cli, DEFAULT_STEP};
use volctl::sh::{Attempt, CmdError, Invocation};
use volctl::sound::pulseaudio::PulseServer;
use volctl::sound::{MuteError, SoundError, SoundServer};

fn exited(code: Option<i32>, stdout: &[u8]) -> Attempt {
    Attempt::Exited { code, stdout: stdout.to_vec(), stderr: Vec::new() }
}

fn command(program: &str, args: &[&str]) -> Invocation {
    Invocation {
        program: program.to_string(),
        args: args.iter().map(|arg| arg.to_string()).collect(),
    }
}

fn detect(path: Option<&str>, present: &[&str]) -> (Detection, Vec<String>) {
    let mut detection = Server::auto_detect(path);
    let mut asked = Vec::new();
    loop {
        let file = match detection.wanted() {
            Some(file) => file.to_string(),
            None => break,
        };
        let exists = present.contains(&file.as_str());
        asked.push(file);
        detection.answer(exists);
    }
    (detection.result(), asked)
}

fn pipewire(target: Option<&str>) -> Server {
    Server::new(Kind::Pipewire, Ctrl::new(target.map(|name| name.to_string()), 5))
}

#[test]
fn a_host_with_the_multiplexer_only_has_the_multiplexer() {
    let (found, asked) = detect(Some("/usr/local/bin:/usr/bin"), &["/usr/bin/wpctl"]);
    assert_eq!(found, Detection::Found(Kind::Pipewire));
    assert_eq!(asked, vec!["/usr/local/bin/wpctl", "/usr/bin/wpctl"]);
}

#[test]
fn a_host_with_no_tool_has_no_backend() {
    let (found, asked) = detect(Some("/usr/local/bin:/usr/bin"), &["/usr/bin/ls", "/opt/wpctl"]);
    assert_eq!(found, Detection::NoBackend);
    assert_eq!(
        asked,
        vec![
            "/usr/local/bin/wpctl",
            "/usr/bin/wpctl",
            "/usr/local/bin/pactl",
            "/usr/bin/pactl",
            "/usr/local/bin/amixer",
            "/usr/bin/amixer"
        ]
    );
    assert_eq!(detect(Some(""), &["/wpctl"]), (Detection::NoBackend, Vec::new()));
    assert_eq!(detect(None, &["/usr/bin/wpctl"]), (Detection::NoBackend, Vec::new()));
}

#[test]
fn detection_prefers_the_multiplexer_then_the_daemon() {
    let path = Some("/a:/b:/c");
    assert_eq!(
        detect(path, &["/c/wpctl", "/a/pactl", "/a/amixer"]).0,
        Detection::Found(Kind::Pipewire)
    );
    assert_eq!(detect(path, &["/b/pactl", "/a/amixer"]).0, Detection::Found(Kind::PulseAudio));
    assert_eq!(detect(path, &["/a/pactl"]).0, Detection::Found(Kind::PulseAudio));
    assert_eq!(detect(path, &["/c/pactl"]).0, Detection::Found(Kind::PulseAudio));
    assert_eq!(detect(path, &["/a/amixer"]).0, Detection::Found(Kind::ALSA));
    assert_eq!(detect(path, &["/c/amixer"]).0, Detection::Found(Kind::ALSA));
}

#[test]
fn detection_is_open_until_it_is_answered() {
    let mut detection = Detect::new(Some("/bin"));
    assert_eq!(detection.result(), Detection::Probing);
    assert_eq!(detection.wanted(), Some("/bin/wpctl"));
    detection.answer(false);
    assert_eq!(detection.result(), Detection::Probing);
    assert_eq!(detection.wanted(), Some("/bin/pactl"));
    detection.answer(true);
    assert_eq!(detection.result(), Detection::Found(Kind::PulseAudio));
    assert_eq!(detection.wanted(), None);
    detection.answer(false);
    assert_eq!(detection.result(), Detection::Found(Kind::PulseAudio));
}

#[test]
fn a_controller_comes_of_a_detection_that_found_a_backend() {
    let mut detection = Detect::new(Some("/bin"));
    assert_eq!(detection.server(Ctrl::new(None, 5)), None);
    detection.answer(false);
    assert_eq!(detection.server(Ctrl::new(None, 5)), None);
    detection.answer(true);
    assert_eq!(
        detection.server(Ctrl::new(Some("sink0".to_string()), 7)),
        Some(Server::new(Kind::PulseAudio, Ctrl::new(Some("sink0".to_string()), 7)))
    );
    let server = detection.server(Ctrl::new(None, 200)).unwrap();
    assert_eq!(server.kind(), Kind::PulseAudio);
    assert_eq!(server.ctrl().step_size(), 100);
    assert!(!server.is_ready());
    let mut none = Detect::new(Some("/bin"));
    none.answer(false);
    none.answer(false);
    none.answer(false);
    assert_eq!(none.result(), Detection::NoBackend);
    assert_eq!(none.server(Ctrl::new(None, 5)), None);
    assert_eq!(Detect::new(None).server(Ctrl::new(None, 5)), None);
    let mut first = Detect::new(Some("/a:/b"));
    first.answer(false);
    first.answer(true);
    assert_eq!(first.server(Ctrl::new(None, 5)).map(|server| server.kind()), Some(Kind::Pipewire));
}

#[test]
fn backends_have_tools_and_names() {
    assert_eq!(Kind::ALSA.tool(), "amixer");
    assert_eq!(Kind::PulseAudio.tool(), "pactl");
    assert_eq!(Kind::Pipewire.tool(), "wpctl");
    assert_eq!(Kind::ALSA.name(), "ALSA");
    assert_eq!(Kind::PulseAudio.name(), "PulseAudio");
    assert_eq!(Kind::Pipewire.name(), "PipeWire");
    assert_eq!(pipewire(None).name(), "PipeWire");
    assert_eq!(Server::new(Kind::ALSA, Ctrl::new(None, 5)).name(), "ALSA");
    assert_eq!(Server::new(Kind::PulseAudio, Ctrl::new(None, 5)).name(), "PulseAudio");
}

#[test]
fn the_configuration_keeps_its_step_in_range() {
    assert_eq!(Ctrl::new(None, 10).step_size(), 10);
    assert_eq!(Ctrl::new(None, 100).step_size(), 100);
    assert_eq!(Ctrl::new(None, 101).step_size(), 100);
    assert_eq!(Ctrl::new(None, 255).step_size(), 100);
    assert_eq!(Ctrl::new(None, 0).target_sink(), None);
    assert_eq!(Ctrl::new(Some("sink0".to_string()), 0).target_sink(), Some("sink0"));
    let ctrl = Ctrl::new(Some("sink0".to_string()), 7);
    assert_eq!(ctrl.clone(), ctrl);
}

#[test]
fn the_command_line_yields_the_configuration() {
    assert_eq!(Cli::default(), Cli { once: true, step_size: None });
    assert_eq!(Cli::default().ctrl(None).step_size(), DEFAULT_STEP);
    assert_eq!(DEFAULT_STEP, 5);
    let cli = Cli { once: false, step_size: Some(200) };
    let ctrl = cli.ctrl(Some("sink0".to_string()));
    assert_eq!(ctrl.step_size(), 100);
    assert_eq!(ctrl.target_sink(), Some("sink0"));
    assert_eq!(Cli { once: true, step_size: Some(12) }.ctrl(None).step_size(), 12);
}

#[test]
fn a_new_controller_keeps_what_it_was_made_with() {
    let server = Server::new(Kind::PulseAudio, Ctrl::new(Some("sink0".to_string()), 9));
    assert_eq!(server.kind(), Kind::PulseAudio);
    assert_eq!(server.ctrl().step_size(), 9);
    assert_eq!(server.ctrl().target_sink(), Some("sink0"));
    assert_eq!(
        server,
        Server::PulseAudio(Ctrl::new(Some("sink0".to_string()), 9), PulseServer::default())
    );
    assert!(!server.is_ready());
    assert!(pipewire(None).is_ready());
    assert!(Server::new(Kind::ALSA, Ctrl::new(None, 5)).is_ready());
}

#[test]
fn setup_makes_the_daemon_ready_and_keeps_the_backend() {
    let mut server = Server::new(Kind::PulseAudio, Ctrl::new(None, 5));
    assert_eq!(server.init_cmd(), Some(command("pactl", &["get-default-sink"])));
    assert_eq!(server.default_sink(), None);
    assert_eq!(server.target_sink(None), None);
    assert!(matches!(server.init(exited(Some(1), b"")), Err(SoundError::Cmd(_))));
    assert!(!server.is_ready());
    assert_eq!(server.kind(), Kind::PulseAudio);
    assert_eq!(server.init(exited(Some(0), b"mysink")), Ok(()));
    assert!(server.is_ready());
    assert_eq!(server.kind(), Kind::PulseAudio);
    assert_eq!(server.ctrl().step_size(), 5);
    assert_eq!(server.init_cmd(), None);
    assert_eq!(server.default_sink(), Some("mysink".to_string()));
    assert_eq!(server.target_sink(None), Some("mysink".to_string()));
    let mut same = pipewire(None);
    assert_eq!(same.init(exited(Some(3), b"")), Ok(()));
    assert_eq!(same, pipewire(None));
}

#[test]
fn the_sink_is_the_given_one_then_the_configured_one_then_the_default() {
    assert_eq!(pipewire(None).target_sink(None), Some("@DEFAULT_AUDIO_SINK@".to_string()));
    assert_eq!(pipewire(Some("mine")).target_sink(None), Some("mine".to_string()));
    assert_eq!(pipewire(Some("mine")).target_sink(Some("given")), Some("given".to_string()));
    assert_eq!(pipewire(None).target_sink(Some("given")), Some("given".to_string()));
    assert_eq!(Server::new(Kind::ALSA, Ctrl::new(None, 5)).target_sink(None), None);
    assert_eq!(
        pipewire(Some("mine")).sink_exists_cmd(None),
        Some(command("wpctl", &["inspect", "mine"]))
    );
    assert_eq!(
        pipewire(None).sink_exists_cmd(None),
        Some(command("wpctl", &["inspect", "@DEFAULT_AUDIO_SINK@"]))
    );
    assert!(pipewire(Some("mine")).sink_exists(None, exited(Some(0), b"")));
}

#[test]
fn raising_the_volume_stops_at_full_volume() {
    let server = pipewire(None);
    assert_eq!(
        server.vol_incr_percent_cmd(None, 10, 95),
        Some(command("wpctl", &["set-volume", "@DEFAULT_AUDIO_SINK@", "100%"]))
    );
    assert_eq!(
        server.vol_incr_percent_cmd(None, 10, 40),
        Some(command("wpctl", &["set-volume", "@DEFAULT_AUDIO_SINK@", "50%"]))
    );
    assert_eq!(
        server.vol_incr_percent_cmd(Some("sink0"), 255, 255),
        Some(command("wpctl", &["set-volume", "sink0", "100%"]))
    );
    assert_eq!(server.vol_incr_percent(None, 10, 95, exited(Some(0), b"")), Ok(()));
    match server.vol_incr_percent(None, 10, 95, exited(Some(1), b"")) {
        Err(SoundError::Cmd(e)) => {
            assert_eq!(e.error, CmdError::ErrRun { code: Some(1), stdout: None, stderr: None })
        }
        other => panic!("{:?}", other),
    }
}

#[test]
fn lowering_the_volume_stops_at_silence() {
    let mut server = Server::new(Kind::PulseAudio, Ctrl::new(None, 5));
    assert_eq!(server.init(exited(Some(0), b"mysink")), Ok(()));
    assert_eq!(
        server.vol_decr_percent_cmd(None, 10, 5),
        Some(command("pactl", &["set-sink-volume", "mysink", "0%"]))
    );
    assert_eq!(
        server.vol_decr_percent_cmd(None, 10, 95),
        Some(command("pactl", &["set-sink-volume", "mysink", "85%"]))
    );
    assert_eq!(
        server.vol_decr_percent_cmd(None, 0, 200),
        Some(command("pactl", &["set-sink-volume", "mysink", "100%"]))
    );
    assert_eq!(server.vol_decr_percent(None, 10, 5, exited(Some(0), b"")), Ok(()));
    assert!(matches!(
        server.vol_decr_percent(None, 10, 5, Attempt::SpawnFailed { error: "x".to_string() }),
        Err(SoundError::Cmd(_))
    ));
}

#[test]
fn the_volume_is_a_percentage_in_range() {
    let server = pipewire(None);
    assert_eq!(
        server.volume_cmd(None),
        Some(command("wpctl", &["get-volume", "@DEFAULT_AUDIO_SINK@"]))
    );
    assert_eq!(server.volume(None, exited(Some(0), b"Volume: 0.95\n")), Ok(95));
    assert_eq!(server.volume(None, exited(Some(0), b"Volume: 1.00\n")), Ok(100));
    assert_eq!(server.volume(None, exited(Some(0), b"Volume: 1.50\n")), Ok(100));
    assert_eq!(server.volume(None, exited(Some(0), b"Volume: 99999999999.00\n")), Ok(100));
    assert_eq!(server.volume(None, exited(Some(0), b"Volume: 0.00\n")), Ok(0));
    assert_eq!(server.volume(None, exited(Some(0), b"?")), Err(SoundError::Unreadable));
    assert!(matches!(server.volume(None, exited(Some(1), b"Volume: 0.95\n")), Err(SoundError::Cmd(_))));
}

#[test]
fn toggling_issues_one_command_and_succeeds_with_it() {
    let server = pipewire(None);
    assert_eq!(
        server.toggle_mute_cmd(Some("sink0")),
        Some(command("wpctl", &["set-mute", "sink0", "toggle"]))
    );
    assert_eq!(server.toggle_mute(Some("sink0"), exited(Some(0), b"")), Ok(()));
    for code in [Some(1), Some(2), Some(-1), None] {
        assert_eq!(server.toggle_mute(Some("sink0"), exited(code, b"")), Err(MuteError));
    }
    assert_eq!(
        server.toggle_mute(Some("sink0"), Attempt::SpawnFailed { error: "x".to_string() }),
        Err(MuteError)
    );
}

#[test]
fn muting_and_unmuting_go_to_the_adapter() {
    let server = pipewire(Some("mine"));
    assert_eq!(server.mute_cmd(None), Some(command("wpctl", &["set-mute", "mine", "1"])));
    assert_eq!(server.unmute_cmd(None), Some(command("wpctl", &["set-mute", "mine", "0"])));
    assert_eq!(
        server.unmute_cmd(Some("other")),
        Some(command("wpctl", &["set-mute", "other", "0"]))
    );
    assert_eq!(server.mute(None, exited(Some(0), b"")), Ok(()));
    assert_eq!(server.mute(None, exited(Some(1), b"")), Err(MuteError));
    assert_eq!(server.unmute(None, exited(Some(0), b"")), Ok(()));
    assert_eq!(server.unmute(None, exited(None, b"")), Err(MuteError));
    assert_eq!(server.sink_is_muted("mine", exited(Some(0), b"Volume: 0.1 [MUTED]")), Ok(true));
}

#[test]
fn the_low_level_subsystem_reports_what_it_lacks() {
    let server = Server::new(Kind::ALSA, Ctrl::new(Some("Master".to_string()), 5));
    assert_eq!(server.volume_cmd(None), None);
    assert_eq!(server.volume(None, exited(Some(0), b"95%")), Err(SoundError::Unsupported));
    assert_eq!(server.vol_incr_percent_cmd(None, 10, 95), None);
    assert_eq!(
        server.vol_incr_percent(None, 10, 95, exited(Some(0), b"")),
        Err(SoundError::Unsupported)
    );
    assert_eq!(server.vol_decr_percent_cmd(None, 10, 95), None);
    assert_eq!(server.mute_cmd(None), None);
    assert_eq!(server.toggle_mute_cmd(Some("Master")), None);
    assert_eq!(server.mute(None, exited(Some(0), b"")), Err(MuteError));
    assert_eq!(server.toggle_mute(None, exited(Some(0), b"")), Err(MuteError));
    assert!(!server.sink_exists(None, exited(Some(0), b"")));
}

#[test]
fn an_operation_without_a_sink_to_act_on_is_unsupported() {
    let server = Server::new(Kind::PulseAudio, Ctrl::new(None, 5));
    assert_eq!(server.volume_cmd(None), None);
    assert_eq!(server.mute_cmd(None), None);
    assert_eq!(server.mute(None, exited(Some(0), b"")), Err(MuteError));
    assert_eq!(server.volume(None, exited(Some(0), b"40%")), Err(SoundError::Unsupported));
    assert_eq!(
        server.mute_cmd(Some("sink0")),
        Some(command("pactl", &["set-sink-mute", "sink0", "1"]))
    );
}
