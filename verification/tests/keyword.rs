use unm_core::types::{Artist, Song};

fn artist(id: &str, name: &str) -> Artist {
    Artist { id: id.to_string(), name: name.to_string() }
}

#[test]
fn test_keyword_with_no_artist() {
    let s = Song {
        id: "114514".to_string(),
        name: "Lost River".to_string(),
        artists: vec![],
        ..Default::default()
    };

    assert_eq!(s.keyword(), "Lost River");
}

#[test]
fn test_keyword_with_single_artist() {
    let s = Song {
        id: "123".to_string(),
        name: "TT".to_string(),
        artists: vec![Artist { id: "114".to_string(), name: "Twice".to_string() }],
        ..Default::default()
    };

    assert_eq!(s.keyword(), "TT - Twice");
}

#[test]
fn test_keyword_with_multiple_artist() {
    let s = Song {
        id: "123".to_string(),
        name: "Hope for Tomorrow - Melchi Remix".to_string(),
        artists: vec![
            Artist { id: "1".to_string(), name: "Alex H".to_string() },
            Artist { id: "2".to_string(), name: "Z8phyR".to_string() },
            Artist { id: "3".to_string(), name: "Melchi".to_string() },
        ],
        ..Default::default()
    };

    assert_eq!(s.keyword(), "Hope for Tomorrow - Melchi Remix - Alex H, Z8phyR, Melchi");
}

#[test]
fn keyword_of_two_artists_has_one_separator_between_them() {
    let s = Song {
        name: "Duet".to_string(),
        artists: vec![artist("1", "A"), artist("2", "B")],
        ..Default::default()
    };
    assert_eq!(s.keyword(), "Duet - A, B");
}

#[test]
fn keyword_keeps_empty_names() {
    let s = Song { artists: vec![artist("1", ""), artist("2", "")], ..Default::default() };
    assert_eq!(s.keyword(), " - , ");
}

#[test]
fn keyword_ignores_every_field_but_name_and_artists() {
    let plain = Song {
        name: "Song".to_string(),
        artists: vec![artist("7", "Ünïcode 名前")],
        ..Default::default()
    };
    let rich = Song {
        id: "other".to_string(),
        duration: Some(215_000),
        album: Some(unm_core::types::Album { id: "a".to_string(), name: "Album".to_string() }),
        ..plain.clone()
    };
    assert_eq!(plain.keyword(), "Song - Ünïcode 名前");
    assert_eq!(rich.keyword(), plain.keyword());
}

#[test]
fn defaults_are_empty() {
    let song = Song::default();
    assert_eq!(song.id, "");
    assert_eq!(song.name, "");
    assert!(song.duration.is_none());
    assert!(song.artists.is_empty());
    assert!(song.album.is_none());
    assert!(song.context.is_none());
    assert_eq!(song.keyword(), "");
    let artist = Artist::default();
    assert_eq!(artist.id, "");
    assert_eq!(artist.name, "");
    let ctx = unm_core::types::Context::default();
    assert!(ctx.proxy_uri.is_none());
    assert!(!ctx.enable_flac);
    assert!(ctx.config.is_none());
}
