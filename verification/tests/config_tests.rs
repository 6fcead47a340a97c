use music_box::config::{decimal_string, get_config, join_path, Config};

#[test]
fn decimal_of_small_and_large_numbers() {
    assert_eq!(decimal_string(0), "0");
    assert_eq!(decimal_string(7), "7");
    assert_eq!(decimal_string(10), "10");
    assert_eq!(decimal_string(42), "42");
    assert_eq!(decimal_string(1234567890), "1234567890");
    assert_eq!(decimal_string(usize::MAX), usize::MAX.to_string());
}

#[test]
fn decimal_is_injective_on_a_range() {
    let names: Vec<String> = (0..200).map(decimal_string).collect();
    for i in 0..names.len() {
        for j in 0..names.len() {
            assert_eq!(names[i] == names[j], i == j);
        }
    }
}

#[test]
fn join_adds_a_separator_only_where_needed() {
    assert_eq!(join_path("/home/u/.local/share", "music_box/songs"), "/home/u/.local/share/music_box/songs");
    assert_eq!(join_path("/home/u/", "music_box/songs"), "/home/u/music_box/songs");
    assert_eq!(join_path("", "music_box/songs"), "music_box/songs");
}

#[test]
fn config_settings() {
    let c = Config::new();
    assert_eq!(c.volume_per_mille, 25);
    assert_eq!(c.audio_format, "mp3");
    let g = get_config();
    assert_eq!(g.volume_per_mille, 25);
    assert_eq!(g.audio_format, "mp3");
}

#[test]
fn data_and_file_paths() {
    let c = Config::new();
    let dir = c.data_path("/data", "pitch");
    assert_eq!(dir, "/data/music_box/pitch");
    assert_eq!(c.file_path(&dir, "11"), "/data/music_box/pitch/11.mp3");
    assert_eq!(c.data_path("/data/", "music_box.sqlite3"), "/data/music_box/music_box.sqlite3");
}

#[test]
fn paths_under_the_user_data_directory() {
    let c = get_config();
    if let Some(d) = c.song_dir() {
        assert!(d.ends_with("/music_box/songs"));
        assert_eq!(c.song_path("abc".to_owned()).unwrap(), format!("{}/abc.mp3", d));
    }
    if let Some(d) = c.loop_dir() {
        assert!(d.ends_with("/music_box/loops"));
        assert_eq!(c.loop_path("loop".to_owned()).unwrap(), format!("{}/loop.mp3", d));
    }
    if let Some(d) = c.speech_dir() {
        assert!(d.ends_with("/music_box/speech"));
        assert_eq!(c.speech_path("game".to_owned()).unwrap(), format!("{}/game.mp3", d));
    }
    if let Some(d) = c.pitch_dir() {
        assert!(d.ends_with("/music_box/pitch"));
        assert_eq!(c.pitch_path(3).unwrap(), format!("{}/3.mp3", d));
        assert_ne!(c.pitch_path(1).unwrap(), c.pitch_path(11).unwrap());
    }
    if let Some(p) = c.db_path() {
        assert!(p.ends_with("/music_box/music_box.sqlite3"));
    }
}
