use rustylight::configuration::{BaseConfig, LogLevel};
use rustylight::udp_sockets::{read_all_from_udp_socket, read_byte, read_index};

fn texts(items: &[&str]) -> Vec<String> {
    items.iter().map(|s| String::from(*s)).collect()
}

#[test]
fn no_datagram_is_an_empty_patch() {
    let u = read_all_from_udp_socket(&Vec::new());
    assert_eq!((u.song, u.scene, u.tempo, u.off), (None, None, None, None));
    assert_eq!(u.notes, [None; 128]);
}

#[test]
fn datagrams_name_their_field() {
    let u = read_all_from_udp_socket(&texts(&["song_3", "scene_12", "off"]));
    assert_eq!((u.song, u.scene, u.tempo, u.off), (Some(3), Some(12), None, Some(true)));
    assert_eq!(u.notes, [None; 128]);
}

#[test]
fn last_datagram_wins() {
    let u = read_all_from_udp_socket(&texts(&["song_3", "scene_1", "song_4", "scene_0"]));
    assert_eq!((u.song, u.scene), (Some(4), Some(0)));
}

#[test]
fn tempo_halves_are_added() {
    let u = read_all_from_udp_socket(&texts(&["tempo1_100"]));
    assert_eq!(u.tempo, None);
    let u = read_all_from_udp_socket(&texts(&["tempo1_100", "tempo2_27"]));
    assert_eq!(u.tempo, Some(127));
    let u = read_all_from_udp_socket(&texts(&["tempo2_27", "tempo1_100", "tempo2_20"]));
    assert_eq!(u.tempo, Some(120));
    let u = read_all_from_udp_socket(&texts(&["tempo1_200", "tempo2_56"]));
    assert_eq!(u.tempo, None);
    let u = read_all_from_udp_socket(&texts(&["tempo1_200", "tempo2_55"]));
    assert_eq!(u.tempo, Some(255));
}

#[test]
fn what_is_no_number_is_ignored() {
    let u = read_all_from_udp_socket(&texts(&[
        "song_x",
        "scene_",
        "tempo1_256",
        "tempo2_-1",
        "offline",
        "Off",
        "",
        "song_7 ",
    ]));
    assert_eq!((u.song, u.scene, u.tempo, u.off), (None, None, None, None));
    let u = read_all_from_udp_socket(&texts(&["song_5", "song_x"]));
    assert_eq!(u.song, Some(5));
}

#[test]
fn prefix_is_taken_out_wherever_it_stands() {
    assert_eq!(read_index("song_42", "song_"), Some(42));
    assert_eq!(read_index("4song_2", "song_"), Some(42));
    assert_eq!(read_index("song_song_9", "song_"), Some(9));
    assert_eq!(read_index("scene_42", "song_"), None);
    assert_eq!(read_index("42", "song_"), None);
    assert_eq!(read_index("song_18446744073709551615", "song_"), Some(usize::MAX));
    assert_eq!(read_index("song_18446744073709551616", "song_"), None);
    assert_eq!(read_byte("tempo1_255", "tempo1_"), Some(255));
    assert_eq!(read_byte("tempo1_256", "tempo1_"), None);
    assert_eq!(read_byte("tempo1_+7", "tempo1_"), Some(7));
    assert_eq!(read_byte("tempo2_7", "tempo1_"), None);
}

#[test]
fn log_level_by_name() {
    let mut c = BaseConfig::default();
    assert_eq!(c.level(), Some(LogLevel::Info));
    for (name, level) in [
        ("warn", Some(LogLevel::Warn)),
        ("trace", Some(LogLevel::Trace)),
        ("debug", Some(LogLevel::Debug)),
        ("error", Some(LogLevel::Error)),
        ("INFO", None),
        ("", None),
    ] {
        c.log_level = String::from(name);
        assert_eq!(c.level(), level);
    }
}
