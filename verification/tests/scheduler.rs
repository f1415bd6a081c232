use rustylight::configuration::BaseConfig;
use rustylight::enttec_devices::{Dmxis, Error};
use rustylight::faders::Fader;
use rustylight::midi_ports::{merge_messages, new, parse_midi_message, MidiMessage};
use rustylight::scheduler::{frame_duration, plan_sleep, run_cycle, FramePlan};
use rustylight::shows::{Scene, Show, ShowUpdate, Song};
use rustylight::waveform::SineTable;

fn msg(status: u8, data1: u8, data2: Option<u8>) -> MidiMessage {
    MidiMessage { status, data1, data2 }
}

#[test]
fn overrun_drops_frames_and_resynchronizes() {
    assert_eq!(plan_sleep(130, 50), FramePlan { dropped: 2, sleep_ms: 30 });
}

#[test]
fn cycle_within_budget_sleeps_for_the_rest() {
    assert_eq!(plan_sleep(0, 50), FramePlan { dropped: 0, sleep_ms: 50 });
    assert_eq!(plan_sleep(49, 50), FramePlan { dropped: 0, sleep_ms: 1 });
    assert_eq!(plan_sleep(50, 50), FramePlan { dropped: 1, sleep_ms: 0 });
    assert_eq!(plan_sleep(51, 50), FramePlan { dropped: 1, sleep_ms: 1 });
    assert_eq!(plan_sleep(u64::MAX, 1), FramePlan { dropped: u64::MAX, sleep_ms: 0 });
}

#[test]
fn frame_duration_from_rate() {
    assert_eq!(frame_duration(20), Some(50));
    assert_eq!(frame_duration(40), Some(25));
    assert_eq!(frame_duration(30), Some(33));
    assert_eq!(frame_duration(1), Some(1000));
    assert_eq!(frame_duration(1000), Some(1));
    assert_eq!(frame_duration(0), None);
    assert_eq!(frame_duration(1001), None);
}

#[test]
fn parse_needs_two_bytes() {
    assert!(parse_midi_message(&[]).is_none());
    assert!(parse_midi_message(&[192]).is_none());
    let m = parse_midi_message(&[192, 5]).unwrap();
    assert_eq!((m.status, m.data1, m.data2), (192, 5, None));
    let m = parse_midi_message(&[144, 60, 100, 1]).unwrap();
    assert_eq!((m.status, m.data1, m.data2), (144, 60, Some(100)));
}

#[test]
fn empty_drain_is_an_empty_patch() {
    let u = merge_messages(&Vec::new(), 0);
    assert_eq!((u.song, u.scene, u.tempo, u.off), (None, None, None, None));
    assert_eq!(u.notes, [None; 128]);
}

#[test]
fn last_value_wins_per_field() {
    let messages = vec![
        msg(192, 1, None),
        msg(176, 0, Some(3)),
        msg(192, 4, None),
        msg(176, 0, Some(2)),
        msg(144, 60, Some(90)),
        msg(144, 61, Some(80)),
        msg(128, 60, Some(64)),
        msg(176, 123, None),
    ];
    let u = merge_messages(&messages, 0);
    assert_eq!(u.scene, Some(4));
    assert_eq!(u.song, Some(2));
    assert_eq!(u.off, Some(true));
    assert_eq!(u.tempo, None);
    assert_eq!(u.notes[60], Some(0));
    assert_eq!(u.notes[61], Some(80));
    assert_eq!(u.notes.iter().filter(|n| n.is_some()).count(), 2);
}

#[test]
fn tempo_needs_both_halves() {
    let u = merge_messages(&vec![msg(176, 12, Some(100))], 0);
    assert_eq!(u.tempo, None);
    let u = merge_messages(&vec![msg(176, 13, Some(100))], 0);
    assert_eq!(u.tempo, None);
    let u = merge_messages(&vec![msg(176, 12, Some(100)), msg(176, 13, Some(27))], 0);
    assert_eq!(u.tempo, Some(127));
    let u = merge_messages(
        &vec![msg(176, 12, Some(100)), msg(176, 13, Some(27)), msg(176, 12, Some(60))],
        0,
    );
    assert_eq!(u.tempo, Some(87));
    let u = merge_messages(&vec![msg(176, 12, Some(200)), msg(176, 13, Some(55))], 0);
    assert_eq!(u.tempo, Some(255));
    let u = merge_messages(&vec![msg(176, 12, Some(200)), msg(176, 13, Some(56))], 0);
    assert_eq!(u.tempo, None);
}

#[test]
fn other_channels_and_malformed_messages_are_ignored() {
    let messages = vec![
        msg(193, 1, None),
        msg(177, 0, Some(3)),
        msg(176, 0, None),
        msg(176, 12, None),
        msg(144, 60, None),
        msg(144, 200, Some(5)),
        msg(128, 128, None),
        msg(10, 10, Some(10)),
    ];
    let u = merge_messages(&messages, 0);
    assert_eq!((u.song, u.scene, u.tempo, u.off), (None, None, None, None));
    assert_eq!(u.notes, [None; 128]);
    let u = merge_messages(&messages, 1);
    assert_eq!((u.song, u.scene), (Some(3), Some(1)));
    let u = merge_messages(&vec![msg(255, 7, None)], 63);
    assert_eq!(u.scene, Some(7));
    let u = merge_messages(&vec![msg(0, 7, None), msg(192, 7, None)], 255);
    assert_eq!(u.scene, None);
}

#[test]
fn port_channel_counts_from_zero() {
    let mut c = BaseConfig::default();
    let p = new(&c).unwrap();
    assert_eq!(p.midi_channel, 0);
    assert_eq!(p.midi_port, "M-Audio MIDISPORT Uno");
    assert!(p.receiver.is_none());
    c.midi_channel = 16;
    assert_eq!(new(&c).unwrap().midi_channel, 15);
    c.midi_channel = 0;
    assert!(new(&c).is_none());
    c.midi_channel = 17;
    assert!(new(&c).is_none());
}

#[test]
fn port_without_queue_reads_nothing() {
    let p = new(&BaseConfig::default()).unwrap();
    assert!(p.pending().is_empty());
    let u = p.read_all();
    assert_eq!((u.song, u.scene, u.tempo, u.off), (None, None, None, None));
}

#[test]
fn port_drains_its_queue_in_order() {
    let (sender, receiver) = crossbeam_channel::unbounded();
    let mut p = new(&BaseConfig::default()).unwrap();
    p.receiver = Some(receiver);
    sender.send(msg(192, 1, None)).unwrap();
    sender.send(msg(192, 2, None)).unwrap();
    sender.send(msg(176, 0, Some(1))).unwrap();
    let u = p.read_all();
    assert_eq!((u.song, u.scene), (Some(1), Some(2)));
    let u = p.read_all();
    assert_eq!((u.song, u.scene), (None, None));
    sender.send(msg(144, 60, Some(9))).unwrap();
    sender.send(msg(144, 61, Some(8))).unwrap();
    let pending = p.pending();
    assert_eq!(pending.len(), 2);
    assert_eq!((pending[0].data1, pending[1].data1), (60, 61));
    assert!(p.pending().is_empty());
    drop(sender);
    assert!(p.pending().is_empty());
}

#[test]
fn cycle_renders_and_encodes() {
    let scene = Scene::new(String::from("a"), vec![Fader::new(0, 11), Fader::new(2, 33)]);
    let mut show = Show::new(String::from("s"), vec![Song::new(String::from("o"), vec![scene])]);
    let table = SineTable::new(vec![0, 65535]).unwrap();
    let config = BaseConfig::default();
    let patch = || ShowUpdate { song: None, scene: None, tempo: None, off: None, notes: [None; 128] };
    let mut dmx = Dmxis::new("x");
    assert_eq!(run_cycle(&mut show, &dmx, patch(), 0, &config, &table), Err(Error::PortClosed));
    assert_eq!(show.songs[0].scenes[0].faders[0].current_value, 11);
    dmx.open(Ok(())).unwrap();
    let bytes = run_cycle(&mut show, &dmx, patch(), 50, &config, &table).unwrap();
    assert_eq!(bytes.len(), 518);
    assert_eq!(&bytes[..9], &[0x7E, 6, 1, 2, 0, 11, 0, 33, 0]);
    assert_eq!(bytes[517], 0xE7);
    let mut off = patch();
    off.off = Some(true);
    let bytes = run_cycle(&mut show, &dmx, off, 100, &config, &table).unwrap();
    assert_eq!(&bytes[5..517], &[0u8; 512][..]);
}
