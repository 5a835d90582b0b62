use ovsy::json::parse_json;
use ovsy::plugins::apps::{process_list, ActionMode};
use ovsy::plugins::music::{
    create_playlist, is_music_file, pick_playlists, MusicSettings, PlayData,
};
use ovsy::plugins::power::{countdown_notice, write_notice, Notice, PowerMode};
use ovsy::plugins::remote::{
    action_keys, Action, ArduinoSettings, Bind, IRController, Key, Reaction, Received,
};
use ovsy::plugins::volume::volume_message;
use ovsy::plugins::wait::{countdown, silent_seconds};

#[test]
fn power_request_is_read() {
    assert_eq!(ovsy::plugins::power::QueryData::timeout_default(), 3);
    let q = ovsy::plugins::power::QueryData::decode(&parse_json(r#"{"mode":"reboot"}"#).unwrap()).unwrap();
    assert_eq!(q, ovsy::plugins::power::QueryData { mode: PowerMode::Reboot, timeout: 3 });
    let q = ovsy::plugins::power::QueryData::decode(&parse_json(r#"{"mode":"turnoff","timeout":60}"#).unwrap()).unwrap();
    assert_eq!(q, ovsy::plugins::power::QueryData { mode: PowerMode::TurnOff, timeout: 60 });
    assert_eq!(q.planned().unwrap(), "Turn off is planned after 60 seconds");
    let q = ovsy::plugins::power::QueryData::decode(&parse_json(r#"{"mode":"cancel"}"#).unwrap()).unwrap();
    assert_eq!(q.mode, PowerMode::Cancel);
    assert!(q.planned().is_none());
    for bad in [r#"{"mode":"off"}"#, r#"{"timeout":1}"#, r#"{"mode":"sleep","timeout":-1}"#, r#"{"mode":"sleep","timeout":"1"}"#, "[]"] {
        assert!(ovsy::plugins::power::QueryData::decode(&parse_json(bad).unwrap()).is_none(), "{bad}");
    }
    assert_eq!(PowerMode::parse("lock"), Some(PowerMode::Lock));
    assert_eq!(PowerMode::parse("sleep"), Some(PowerMode::Sleep));
    assert_eq!(PowerMode::parse("Lock"), None);
    assert_eq!(PowerMode::Lock.name().unwrap(), "Lock session");
    assert_eq!(PowerMode::Lock.name_lower().unwrap(), "lock session");
    assert!(PowerMode::Cancel.name().is_none());
}

#[test]
fn power_notices_come_in_time() {
    assert_eq!(countdown_notice(100, false), None);
    assert_eq!(countdown_notice(32, false), None);
    assert_eq!(countdown_notice(31, false), Some(Notice::HalfMinute));
    assert_eq!(countdown_notice(31, true), None);
    assert_eq!(countdown_notice(7, false), Some(Notice::HalfMinute));
    assert_eq!(countdown_notice(7, true), None);
    assert_eq!(countdown_notice(6, true), Some(Notice::Soon(6)));
    assert_eq!(countdown_notice(6, false), Some(Notice::Soon(6)));
    assert_eq!(countdown_notice(0, true), Some(Notice::Soon(0)));
    assert_eq!(write_notice(PowerMode::Reboot, Notice::Soon(5)).unwrap(), "Reboot after 5 seconds..");
    assert_eq!(
        write_notice(PowerMode::TurnOff, Notice::HalfMinute).unwrap(),
        "Before turn off less than 30 seconds left!"
    );
    assert!(write_notice(PowerMode::Cancel, Notice::HalfMinute).is_none());
}

#[test]
fn volume_stays_within_bounds() {
    let q = |delta, force| ovsy::plugins::volume::QueryData { delta, force };
    assert_eq!(q(10, false).target_volume(50), 60);
    assert_eq!(q(-10, false).target_volume(5), 0);
    assert_eq!(q(70, false).target_volume(50), 100);
    assert_eq!(q(i32::MAX, false).target_volume(255), 100);
    assert_eq!(q(i32::MIN, false).target_volume(0), 0);
    assert_eq!(q(30, true).target_volume(90), 30);
    assert_eq!(q(130, true).target_volume(90), 100);
    assert_eq!(q(-1, true).target_volume(90), 0);
    assert_eq!(q(0, false).target_volume(200), 100);
    assert_eq!(volume_message(35), "Set volume to 35%");
    let read = ovsy::plugins::volume::QueryData::decode(&parse_json(r#"{"delta":-15}"#).unwrap()).unwrap();
    assert_eq!(read, q(-15, false));
    let read = ovsy::plugins::volume::QueryData::decode(&parse_json(r#"{"delta":2147483647,"force":true}"#).unwrap()).unwrap();
    assert_eq!(read, q(i32::MAX, true));
    let read = ovsy::plugins::volume::QueryData::decode(&parse_json(r#"{"delta":-2147483648}"#).unwrap()).unwrap();
    assert_eq!(read, q(i32::MIN, false));
    for bad in [r#"{"delta":2147483648}"#, r#"{"delta":1.5}"#, r#"{"force":true}"#, r#"{"delta":1,"force":1}"#] {
        assert!(ovsy::plugins::volume::QueryData::decode(&parse_json(bad).unwrap()).is_none(), "{bad}");
    }
}

#[test]
fn wait_is_summed_and_described() {
    let q = ovsy::plugins::wait::QueryData { hours: Some(1), mins: Some(2), secs: Some(3), millis: Some(4500) };
    assert_eq!(q.total_secs(), Some(3600 + 120 + 3 + 4));
    assert_eq!(q.describe(), "Total wait time: 1 hour, 2 minutes, 3 seconds, 4500 ms\n");
    let q = ovsy::plugins::wait::QueryData { hours: None, mins: Some(1), secs: Some(1), millis: None };
    assert_eq!(q.total_secs(), Some(61));
    assert_eq!(q.describe(), "Total wait time: 1 minute, 1 second\n");
    let q = ovsy::plugins::wait::QueryData { hours: None, mins: None, secs: None, millis: Some(999) };
    assert_eq!(q.total_secs(), Some(0));
    let q = ovsy::plugins::wait::QueryData { hours: None, mins: None, secs: None, millis: None };
    assert_eq!(q.total_secs(), Some(0));
    assert_eq!(q.describe(), "Total wait time: \n");
    let q = ovsy::plugins::wait::QueryData { hours: Some(u64::MAX), mins: None, secs: None, millis: None };
    assert_eq!(q.total_secs(), None);
    let q = ovsy::plugins::wait::QueryData { hours: None, mins: None, secs: Some(u64::MAX), millis: Some(999) };
    assert_eq!(q.total_secs(), Some(u64::MAX));
    let q = ovsy::plugins::wait::QueryData { hours: None, mins: None, secs: Some(u64::MAX), millis: Some(1000) };
    assert_eq!(q.total_secs(), None);
}

#[test]
fn wait_counts_down_its_last_seconds() {
    assert_eq!(silent_seconds(3), 0);
    assert_eq!(silent_seconds(10), 0);
    assert_eq!(silent_seconds(11), 1);
    assert_eq!(countdown(1), vec!["Wait completed."]);
    assert_eq!(
        countdown(3),
        vec!["2 seconds remaining\n", "1 seconds remaining\n", "Wait completed."]
    );
    let long = countdown(500);
    assert_eq!(long.len(), 10);
    assert_eq!(long[0], "9 seconds remaining\n");
    assert_eq!(long[9], "Wait completed.");
}

#[test]
fn buttons_react_by_their_action() {
    let bind = |action| Bind { codes: vec!["0x00FF30CF".to_string(), "0x00FF18E7".to_string()], action };
    assert_eq!(bind(Action::PlayPause).handle(false, 0), Reaction::Press(vec![Key::PlayPause], 1));
    assert_eq!(bind(Action::PlayPause).handle(true, 100), Reaction::Nothing);
    assert_eq!(bind(Action::VolumeUp).handle(false, 0), Reaction::Press(vec![Key::VolumeUp], 1));
    assert_eq!(bind(Action::VolumeUp).handle(true, 20), Reaction::Press(vec![Key::VolumeUp], 2));
    assert_eq!(bind(Action::VolumeUp).handle(true, 19), Reaction::Nothing);
    assert_eq!(bind(Action::VolumeUp).handle(false, 19), Reaction::Press(vec![Key::VolumeUp], 1));
    assert_eq!(
        bind(Action::WinPrevSpace).handle(true, 500),
        Reaction::Press(vec![Key::Ctrl, Key::Super, Key::Left], 2)
    );
    assert_eq!(
        bind(Action::TabPrev).handle(false, 500),
        Reaction::Press(vec![Key::Ctrl, Key::Shift, Key::Tab], 1)
    );
    assert_eq!(bind(Action::PowerOff).handle(false, 0), Reaction::PowerOff);
    assert_eq!(bind(Action::PowerOff).handle(true, 500), Reaction::Nothing);
    assert_eq!(bind(Action::Sleep).handle(false, -5), Reaction::Sleep);
    assert!(bind(Action::Mute).matches("0x00FF18E7"));
    assert!(!bind(Action::Mute).matches("0x00FF18E8"));
    assert_eq!(action_keys(Action::WinTabNext), vec![Key::Alt, Key::Tab]);
    assert_eq!(ArduinoSettings::default(), ArduinoSettings { port: 3, rate: 115200 });
}

#[test]
fn codes_are_told_apart() {
    let mut last = String::new();
    assert_eq!(IRController::listen(&mut last, "garbage!", 0), Received::Ignored);
    assert_eq!(IRController::listen(&mut last, "0x1234", 0), Received::Ignored);
    assert_eq!(IRController::listen(&mut last, "0xFFFFFFFF", 300), Received::Ignored);
    assert_eq!(last, "");
    assert_eq!(
        IRController::listen(&mut last, "0x00FF30CF", 0),
        Received::Pressed("0x00FF30CF".to_string())
    );
    assert_eq!(last, "0x00FF30CF");
    assert_eq!(IRController::listen(&mut last, "0xFFFFFFFF", 199), Received::Ignored);
    assert_eq!(IRController::listen(&mut last, "0xFFFFFFFF", 801), Received::Ignored);
    assert_eq!(
        IRController::listen(&mut last, "0xFFFFFFFF", 200),
        Received::Held("0x00FF30CF".to_string())
    );
    assert_eq!(
        IRController::listen(&mut last, "0xFFFFFFFF", 800),
        Received::Held("0x00FF30CF".to_string())
    );
    assert_eq!(last, "0x00FF30CF");
}

#[test]
fn every_button_with_the_code_reacts() {
    let binds = vec![
        Bind { codes: vec!["0x00000001".to_string()], action: Action::Mute },
        Bind { codes: vec!["0x00000002".to_string()], action: Action::Stop },
        Bind { codes: vec!["0x00000003".to_string(), "0x00000001".to_string()], action: Action::VolumeDown },
    ];
    assert_eq!(
        IRController::handle_code(&binds, "0x00000001", false, 0),
        vec![Reaction::Press(vec![Key::Mute], 1), Reaction::Press(vec![Key::VolumeDown], 1)]
    );
    assert_eq!(
        IRController::handle_code(&binds, "0x00000001", true, 50),
        vec![Reaction::Nothing, Reaction::Press(vec![Key::VolumeDown], 2)]
    );
    assert!(IRController::handle_code(&binds, "0x00000009", false, 0).is_empty());
}

#[test]
fn music_files_are_known_by_their_extension() {
    for path in ["a.mp3", "/m/x/b.FLAC", "c.Wav", "d.ogg", "e.M4a", "dir.d/f.mp3", "a.b.mp3", "..mp3"] {
        assert!(is_music_file(path), "{path}");
    }
    for path in ["", "mp3", ".mp3", "a.mp4", "a.mp3/", "a.mp3/b", "a.mp3.txt", "a.", "a.mp3 ", "dir.mp3/b", "a.ｍｐ３"] {
        assert!(!is_music_file(path), "{path}");
    }
    assert_eq!(MusicSettings::default().dirs, vec!["~/Music"]);
}

#[test]
fn playlist_lists_its_songs() {
    assert_eq!(create_playlist(&Vec::new()), "#EXTM3U\n");
    let songs = vec!["D:\\Music\\Band\\01 — Intro.mp3".to_string(), "/m/b – c.flac".to_string()];
    assert_eq!(
        create_playlist(&songs),
        "#EXTM3U\n#EXTINF:-1,01 - Intro.mp3\nD:/Music/Band/01 — Intro.mp3\n#EXTINF:-1,b - c.flac\n/m/b – c.flac\n"
    );
}

#[test]
fn music_request_has_a_name() {
    let q = ovsy::plugins::music::QueryData {
        genre: Some("rock".to_string()),
        artist: None,
        album: Some("live".to_string()),
        song: Some("one".to_string()),
        search: false,
    };
    assert_eq!(q.name(), "rock / live / one");
    let q = ovsy::plugins::music::QueryData { genre: None, artist: None, album: None, song: None, search: true };
    assert_eq!(q.name(), "");
}

#[test]
fn application_request_is_read() {
    let q = ovsy::plugins::apps::QueryData::decode(&parse_json(r#"{"mode":"open","app":"firefox"}"#).unwrap()).unwrap();
    assert_eq!(q.mode, ActionMode::Open);
    assert_eq!(q.app, "firefox");
    let q = ovsy::plugins::apps::QueryData::decode(&parse_json(r#"{"mode":"close","app":"/usr/bin/vlc"}"#).unwrap()).unwrap();
    assert_eq!(q.mode, ActionMode::Close);
    assert!(ovsy::plugins::apps::QueryData::decode(&parse_json(r#"{"mode":"kill","app":"x"}"#).unwrap()).is_none());
    assert!(ovsy::plugins::apps::QueryData::decode(&parse_json(r#"{"mode":"open"}"#).unwrap()).is_none());
}

#[test]
fn process_list_is_read() {
    assert_eq!(process_list("4242\n 77 \n\n1\n0\n-3\nabc\n2\n"), vec![4242, 77, 2]);
    assert_eq!(process_list(""), Vec::<i32>::new());
    assert_eq!(process_list("15"), vec![15]);
    assert_eq!(process_list("2147483647\n2147483648"), vec![2147483647]);
}

#[test]
fn button_is_read_from_its_description() {
    let doc = parse_json(r#"{"codes":["0x00FF30CF","0x00FF18E7"],"action":"WinTabPrev"}"#).unwrap();
    let bind = Bind::decode(&doc).unwrap();
    assert_eq!(bind.codes, vec!["0x00FF30CF", "0x00FF18E7"]);
    assert_eq!(bind.action, Action::WinTabPrev);
    assert_eq!(Action::parse("Sleep"), Some(Action::Sleep));
    assert_eq!(Action::parse("sleep"), None);
    for bad in [r#"{"codes":["a"],"action":"Jump"}"#, r#"{"codes":[1],"action":"Mute"}"#, r#"{"action":"Mute"}"#, "[]"] {
        assert!(Bind::decode(&parse_json(bad).unwrap()).is_none(), "{bad}");
    }
}

#[test]
fn finds_are_picked_by_what_was_asked_for() {
    let level = vec!["a".to_string(), "b".to_string(), "c".to_string()];
    assert_eq!(pick_playlists(&level, true, false), level);
    assert_eq!(pick_playlists(&level, true, true), vec!["a"]);
    assert_eq!(pick_playlists(&level, false, false), vec!["a"]);
    assert_eq!(pick_playlists(&level, false, true), vec!["a"]);
    assert!(pick_playlists(&Vec::new(), true, false).is_empty());
    assert!(pick_playlists(&Vec::new(), false, false).is_empty());
}

#[test]
fn music_and_play_requests_are_read() {
    let doc = parse_json(r#"{"genre":"rock","artist":null,"song":"one","search":true}"#).unwrap();
    let q = ovsy::plugins::music::QueryData::decode(&doc).unwrap();
    assert_eq!(q.genre.as_deref(), Some("rock"));
    assert!(q.artist.is_none());
    assert!(q.album.is_none());
    assert_eq!(q.song.as_deref(), Some("one"));
    assert!(q.search);
    let q = ovsy::plugins::music::QueryData::decode(&parse_json("{}").unwrap()).unwrap();
    assert!(q.genre.is_none() && !q.search);
    for bad in [r#"{"genre":1}"#, r#"{"search":"yes"}"#, "[]"] {
        assert!(ovsy::plugins::music::QueryData::decode(&parse_json(bad).unwrap()).is_none(), "{bad}");
    }
    let p = PlayData::decode(&parse_json(r#"{"author":"disturbed","album":"ten"}"#).unwrap()).unwrap();
    assert_eq!(p.author, "disturbed");
    assert_eq!(p.album.as_deref(), Some("ten"));
    let p = PlayData::decode(&parse_json(r#"{"author":"disturbed"}"#).unwrap()).unwrap();
    assert!(p.album.is_none());
    assert!(PlayData::decode(&parse_json(r#"{"album":"ten"}"#).unwrap()).is_none());
    assert!(PlayData::decode(&parse_json(r#"{"author":"a","album":3}"#).unwrap()).is_none());
}

#[test]
fn wait_request_is_read() {
    let doc = parse_json(r#"{"hours":1,"secs":30,"millis":null}"#).unwrap();
    let q = ovsy::plugins::wait::QueryData::decode(&doc).unwrap();
    assert_eq!(q, ovsy::plugins::wait::QueryData { hours: Some(1), mins: None, secs: Some(30), millis: None });
    let q = ovsy::plugins::wait::QueryData::decode(&parse_json("{}").unwrap()).unwrap();
    assert_eq!(q.total_secs(), Some(0));
    for bad in [r#"{"hours":-1}"#, r#"{"mins":1.5}"#, r#"{"secs":"3"}"#, "3"] {
        assert!(ovsy::plugins::wait::QueryData::decode(&parse_json(bad).unwrap()).is_none(), "{bad}");
    }
}
