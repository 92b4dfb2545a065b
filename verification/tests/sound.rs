use volctl::sh::{Attempt, CmdError, Invocation};
use volctl::sound::alsa::AlsaServer;
use volctl::sound::pipewire::PipeWireServer;
use volctl::sound::pulseaudio::PulseServer;
use volctl::sound::{floor, Mute, MuteError, SoundError, SoundServer};

fn exited(code: Option<i32>, stdout: &[u8]) -> Attempt {
    Attempt::Exited { code, stdout: stdout.to_vec(), stderr: Vec::new() }
}

fn command(program: &str, args: &[&str]) -> Invocation {
    Invocation {
        program: program.to_string(),
        args: args.iter().map(|arg| arg.to_string()).collect(),
    }
}

#[test]
fn test_pipewire() {
    let pipewire = PipeWireServer::default();
    println!("{}", pipewire.sink_exists(None, exited(Some(0), b"")));
}

#[test]
fn floor_keeps_percentages_in_range() {
    assert_eq!(floor(0), 0);
    assert_eq!(floor(1), 1);
    assert_eq!(floor(50), 50);
    assert_eq!(floor(99), 99);
    assert_eq!(floor(100), 100);
}

#[test]
fn floor_brings_percentages_into_range() {
    assert_eq!(floor(101), 100);
    assert_eq!(floor(105), 100);
    assert_eq!(floor(255), 100);
    assert_eq!(floor(i32::MAX), 100);
    assert_eq!(floor(-1), 0);
    assert_eq!(floor(-5), 0);
    assert_eq!(floor(i32::MIN), 0);
}

#[test]
fn mute_directives_have_their_words() {
    assert_eq!(Mute::Mute.to_str(), "1");
    assert_eq!(Mute::Unmute.to_str(), "0");
    assert_eq!(Mute::Toggle.to_str(), "toggle");
    assert_eq!(Mute::Mute.to_string(), "1");
    assert_eq!(Mute::Unmute.to_string(), "0");
    assert_eq!(Mute::Toggle.to_string(), "toggle");
}

#[test]
fn pipewire_takes_a_fixed_word_for_the_default_sink() {
    let pipewire = PipeWireServer::default();
    assert_eq!(pipewire.default_sink(), Some("@DEFAULT_AUDIO_SINK@".to_string()));
    assert_eq!(pipewire.init_cmd(), None);
    let mut same = PipeWireServer::default();
    assert_eq!(same.init(Attempt::SpawnFailed { error: "unused".to_string() }), Ok(()));
    assert_eq!(same, pipewire);
}

#[test]
fn pipewire_inspects_a_sink_to_see_whether_it_exists() {
    let pipewire = PipeWireServer::default();
    assert_eq!(
        pipewire.sink_exists_cmd(None),
        Some(command("wpctl", &["inspect", "@DEFAULT_AUDIO_SINK@"]))
    );
    assert_eq!(
        pipewire.sink_exists_cmd(Some("sink0")),
        Some(command("wpctl", &["inspect", "sink0"]))
    );
    assert!(pipewire.sink_exists(None, exited(Some(0), b"")));
    assert!(pipewire.sink_exists(Some("sink0"), exited(Some(0), b"id 42")));
    assert!(!pipewire.sink_exists(Some("sink0"), exited(Some(1), b"")));
    assert!(!pipewire.sink_exists(Some("sink0"), exited(None, b"")));
    assert!(!pipewire.sink_exists(None, Attempt::SpawnFailed { error: "no wpctl".to_string() }));
    assert!(!pipewire.sink_exists(None, Attempt::WaitFailed { error: "gone".to_string() }));
}

#[test]
fn pipewire_reads_the_mute_state_from_the_muted_mark() {
    let pipewire = PipeWireServer::default();
    assert_eq!(
        pipewire.sink_is_muted_cmd("sink0"),
        Some(command("wpctl", &["get-volume", "sink0"]))
    );
    assert_eq!(pipewire.sink_is_muted("sink0", exited(Some(0), b"Volume: 0.40 [MUTED]\n")), Ok(true));
    assert_eq!(pipewire.sink_is_muted("sink0", exited(Some(0), b"Volume: 0.40\n")), Ok(false));
    assert_eq!(pipewire.sink_is_muted("sink0", exited(Some(0), b"")), Ok(false));
    assert_eq!(pipewire.sink_is_muted("sink0", exited(Some(0), b"\xff[MUTED]\xfe")), Ok(true));
    assert!(pipewire.muted(b"[MUTED]"));
    assert!(!pipewire.muted(b"[muted]"));
}

#[test]
fn a_failed_mute_query_is_an_error_and_no_answer() {
    let pipewire = PipeWireServer::default();
    let failed = pipewire.sink_is_muted("sink0", exited(Some(1), b"Volume: 0.40 [MUTED]\n"));
    match failed {
        Err(SoundError::Cmd(e)) => {
            assert_eq!(
                e.error,
                CmdError::ErrRun {
                    code: Some(1),
                    stdout: Some(b"Volume: 0.40 [MUTED]\n".to_vec()),
                    stderr: Some(Vec::new()),
                }
            );
            assert_eq!(e.context, "command wpctl get-volume sink0 exited with non-zero status");
        }
        other => panic!("{:?}", other),
    }
    let missing =
        pipewire.sink_is_muted("sink0", Attempt::SpawnFailed { error: "no wpctl".to_string() });
    match missing {
        Err(SoundError::Cmd(e)) => {
            assert_eq!(e.error, CmdError::ErrSpawn { error: "no wpctl".to_string() })
        }
        other => panic!("{:?}", other),
    }
    let pulse = PulseServer("sink0".to_string());
    assert!(pulse.sink_is_muted("sink0", exited(Some(2), b"Mute: yes\n")).is_err());
    assert!(pulse.sink_is_muted("sink0", exited(None, b"Mute: no\n")).is_err());
}

#[test]
fn pipewire_mutes_with_one_command_each() {
    let pipewire = PipeWireServer::default();
    assert_eq!(
        pipewire.mute_sink_cmd("sink0"),
        Some(command("wpctl", &["set-mute", "sink0", "1"]))
    );
    assert_eq!(
        pipewire.unmute_sink_cmd("sink0"),
        Some(command("wpctl", &["set-mute", "sink0", "0"]))
    );
    assert_eq!(
        pipewire.toggle_sink_cmd("sink0"),
        Some(command("wpctl", &["set-mute", "sink0", "toggle"]))
    );
    assert_eq!(
        pipewire.set_mute_cmd("@DEFAULT_AUDIO_SINK@", Mute::Toggle),
        Some(command("wpctl", &["set-mute", "@DEFAULT_AUDIO_SINK@", "toggle"]))
    );
    assert_eq!(pipewire.mute_sink("sink0", exited(Some(0), b"")), Ok(()));
    assert_eq!(pipewire.unmute_sink("sink0", exited(Some(0), b"")), Ok(()));
    assert_eq!(pipewire.toggle_sink("sink0", exited(Some(0), b"")), Ok(()));
    assert_eq!(pipewire.mute_sink("sink0", exited(Some(1), b"")), Err(MuteError));
    assert_eq!(pipewire.unmute_sink("sink0", exited(None, b"")), Err(MuteError));
    assert_eq!(
        pipewire.toggle_sink("sink0", Attempt::SpawnFailed { error: "no wpctl".to_string() }),
        Err(MuteError)
    );
    assert_eq!(pipewire.set_mute("sink0", Mute::Mute, exited(Some(3), b"")), Err(MuteError));
}

#[test]
fn pipewire_reads_and_sets_the_volume() {
    let pipewire = PipeWireServer::default();
    assert_eq!(pipewire.get_vol_cmd("sink0"), Some(command("wpctl", &["get-volume", "sink0"])));
    assert_eq!(pipewire.get_vol("sink0", exited(Some(0), b"Volume: 0.95\n")), Ok(95));
    assert_eq!(pipewire.get_vol("sink0", exited(Some(0), b"Volume: 1.50 [MUTED]\n")), Ok(150));
    assert_eq!(pipewire.get_vol("sink0", exited(Some(0), b"nothing")), Err(SoundError::Unreadable));
    assert!(matches!(
        pipewire.get_vol("sink0", exited(Some(1), b"Volume: 0.95\n")),
        Err(SoundError::Cmd(_))
    ));
    assert_eq!(
        pipewire.set_vol_cmd("sink0", 100),
        Some(command("wpctl", &["set-volume", "sink0", "100%"]))
    );
    assert_eq!(
        pipewire.set_vol_cmd("sink0", 0),
        Some(command("wpctl", &["set-volume", "sink0", "0%"]))
    );
    assert_eq!(pipewire.set_vol("sink0", 45, exited(Some(0), b"")), Ok(()));
    match pipewire.set_vol("sink0", 45, exited(Some(4), b"")) {
        Err(SoundError::Cmd(e)) => {
            assert_eq!(e.error, CmdError::ErrRun { code: Some(4), stdout: None, stderr: None });
            assert_eq!(e.context, "command wpctl exited with non-zero status 4");
        }
        other => panic!("{:?}", other),
    }
}

#[test]
fn pulse_learns_its_default_sink_once() {
    let mut pulse = PulseServer::default();
    assert_eq!(pulse.default_sink(), None);
    assert_eq!(pulse.init_cmd(), Some(command("pactl", &["get-default-sink"])));
    assert_eq!(pulse.init(exited(Some(0), b"alsa_output.analog-stereo")), Ok(()));
    assert_eq!(pulse, PulseServer("alsa_output.analog-stereo".to_string()));
    assert_eq!(pulse.default_sink(), Some("alsa_output.analog-stereo".to_string()));
    assert_eq!(pulse.init_cmd(), None);
    assert_eq!(pulse.init(exited(Some(0), b"another")), Ok(()));
    assert_eq!(pulse.default_sink(), Some("alsa_output.analog-stereo".to_string()));
}

#[test]
fn pulse_takes_the_name_as_it_was_printed() {
    let mut pulse = PulseServer::default();
    assert_eq!(pulse.init(exited(Some(0), "sink \u{e4}\n".as_bytes())), Ok(()));
    assert_eq!(pulse.0, "sink \u{e4}\n");
}

#[test]
fn pulse_stays_as_it_was_when_the_query_fails() {
    let mut pulse = PulseServer::default();
    match pulse.init(exited(Some(1), b"name")) {
        Err(SoundError::Cmd(e)) => {
            assert_eq!(
                e.error,
                CmdError::ErrRun {
                    code: Some(1),
                    stdout: Some(b"name".to_vec()),
                    stderr: Some(Vec::new()),
                }
            );
            assert_eq!(e.context, "command pactl get-default-sink exited with non-zero status");
        }
        other => panic!("{:?}", other),
    }
    assert_eq!(pulse, PulseServer::default());
    assert_eq!(pulse.init(exited(Some(0), b"\xffname")), Err(SoundError::Unreadable));
    assert_eq!(pulse, PulseServer::default());
    assert!(matches!(
        pulse.init(Attempt::SpawnFailed { error: "no pactl".to_string() }),
        Err(SoundError::Cmd(_))
    ));
    assert_eq!(pulse.default_sink(), None);
}

#[test]
fn pulse_builds_its_commands_for_pactl() {
    let pulse = PulseServer("mysink".to_string());
    assert_eq!(
        pulse.sink_exists_cmd(None),
        Some(command("pactl", &["get-sink-volume", "mysink"]))
    );
    assert_eq!(
        pulse.sink_exists_cmd(Some("other")),
        Some(command("pactl", &["get-sink-volume", "other"]))
    );
    assert_eq!(
        PulseServer::default().sink_exists_cmd(None),
        Some(command("pactl", &["get-sink-volume", ""]))
    );
    assert_eq!(
        pulse.sink_is_muted_cmd("mysink"),
        Some(command("pactl", &["get-sink-muted", "mysink"]))
    );
    assert_eq!(
        pulse.mute_sink_cmd("mysink"),
        Some(command("pactl", &["set-sink-mute", "mysink", "1"]))
    );
    assert_eq!(
        pulse.unmute_sink_cmd("mysink"),
        Some(command("pactl", &["set-sink-mute", "mysink", "0"]))
    );
    assert_eq!(
        pulse.toggle_sink_cmd("mysink"),
        Some(command("pactl", &["set-sink-mute", "mysink", "toggle"]))
    );
    assert_eq!(
        pulse.get_vol_cmd("mysink"),
        Some(command("pactl", &["get-sink-volume", "mysink"]))
    );
    assert_eq!(
        pulse.set_vol_cmd("mysink", 7),
        Some(command("pactl", &["set-sink-volume", "mysink", "7%"]))
    );
}

#[test]
fn pulse_reads_mute_state_and_volume() {
    let pulse = PulseServer("mysink".to_string());
    assert!(pulse.sink_exists(None, exited(Some(0), b"")));
    assert!(!pulse.sink_exists(None, exited(Some(1), b"")));
    assert_eq!(pulse.sink_is_muted("mysink", exited(Some(0), b"Mute: yes\n")), Ok(true));
    assert_eq!(pulse.sink_is_muted("mysink", exited(Some(0), b"Mute: no\n")), Ok(false));
    let out = b"Volume: front-left: 26214 /  40% / -23.88 dB,   front-right: 26214 /  40% / -23.88 dB\n";
    assert_eq!(pulse.get_vol("mysink", exited(Some(0), out)), Ok(40));
    assert_eq!(pulse.get_vol("mysink", exited(Some(0), b"Volume: 0.40")), Err(SoundError::Unreadable));
    assert_eq!(pulse.toggle_sink("mysink", exited(Some(0), b"")), Ok(()));
    assert_eq!(pulse.toggle_sink("mysink", exited(Some(1), b"")), Err(MuteError));
}

#[test]
fn alsa_supports_no_capability() {
    let mut alsa = AlsaServer();
    assert_eq!(alsa.default_sink(), None);
    assert_eq!(alsa.init_cmd(), None);
    assert_eq!(alsa.init(exited(Some(0), b"")), Ok(()));
    assert_eq!(alsa.sink_exists_cmd(None), None);
    assert_eq!(alsa.sink_exists_cmd(Some("Master")), None);
    assert!(!alsa.sink_exists(Some("Master"), exited(Some(0), b"")));
    assert_eq!(alsa.sink_is_muted_cmd("Master"), None);
    assert_eq!(
        alsa.sink_is_muted("Master", exited(Some(0), b"[MUTED]")),
        Err(SoundError::Unsupported)
    );
    assert_eq!(alsa.mute_sink_cmd("Master"), None);
    assert_eq!(alsa.unmute_sink_cmd("Master"), None);
    assert_eq!(alsa.toggle_sink_cmd("Master"), None);
    assert_eq!(alsa.mute_sink("Master", exited(Some(0), b"")), Err(MuteError));
    assert_eq!(alsa.get_vol_cmd("Master"), None);
    assert_eq!(alsa.get_vol("Master", exited(Some(0), b"95%")), Err(SoundError::Unsupported));
    assert_eq!(alsa.set_vol_cmd("Master", 10), None);
    assert_eq!(alsa.set_vol("Master", 10, exited(Some(0), b"")), Err(SoundError::Unsupported));
}
