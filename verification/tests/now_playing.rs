use rsphate::commands::{meta, normalize_artwork, show_snapshot, wipltrn, ACCENT_COLOR};
use rsphate::message::{AttachmentRef, Embed, EmbedField, OutgoingMessage};
use rsphate::player::{
    MetadataField, NowPlayingError, PlayerMetadata, PlayerQuery, PlayerSnapshot,
};

fn reported(identity: &str, art_url: &str) -> PlayerMetadata {
    PlayerMetadata {
        identity: identity.to_string(),
        artists: Some(vec!["Boards of Canada".to_string(), "Somebody Else".to_string()]),
        album: Some("Geogaddi".to_string()),
        title: Some("Dawn Chorus".to_string()),
        art_url: Some(art_url.to_string()),
    }
}

fn block(label: &str, body: &str) -> EmbedField {
    EmbedField { label: label.to_string(), body: body.to_string(), inline: false }
}

#[test]
fn local_player_artwork_becomes_a_path_with_suffix() {
    assert_eq!(
        normalize_artwork("Rhythmbox", "file:///x/y/z"),
        AttachmentRef::LocalFile("/x/y/z.jpg".to_string())
    );
}

#[test]
fn local_artwork_is_named_by_its_last_segment() {
    let artwork = normalize_artwork("Rhythmbox", "file:///x/y/z");
    assert_eq!(artwork.reference(), "attachment://z.jpg");
    let cached = normalize_artwork(
        "Rhythmbox",
        "file:///home/phate/.cache/rhythmbox/album-art/00000042",
    );
    assert_eq!(
        cached,
        AttachmentRef::LocalFile("/home/phate/.cache/rhythmbox/album-art/00000042.jpg".to_string())
    );
    assert_eq!(cached.reference(), "attachment://00000042.jpg");
}

#[test]
fn other_players_artwork_is_left_as_it_is() {
    let url = "https://i.scdn.co/image/ab67616d0000b273";
    for identity in ["Spotify", "rhythmbox", "Rhythmbox ", "", "VLC media player"] {
        let artwork = normalize_artwork(identity, url);
        assert_eq!(artwork, AttachmentRef::RemoteUrl(url.to_string()));
        assert_eq!(artwork.reference(), url);
    }
    assert_eq!(
        normalize_artwork("mpv", "file:///x/y/z"),
        AttachmentRef::RemoteUrl("file:///x/y/z".to_string())
    );
}

#[test]
fn seven_characters_are_stripped_whatever_they_are() {
    assert_eq!(
        normalize_artwork("Rhythmbox", "ééééééé/covers/ü"),
        AttachmentRef::LocalFile("/covers/ü.jpg".to_string())
    );
    assert_eq!(
        normalize_artwork("Rhythmbox", "file://"),
        AttachmentRef::LocalFile(".jpg".to_string())
    );
    assert_eq!(
        normalize_artwork("Rhythmbox", "file://cover"),
        AttachmentRef::LocalFile("cover.jpg".to_string())
    );
}

#[test]
fn an_address_shorter_than_the_scheme_leaves_only_the_suffix() {
    assert_eq!(normalize_artwork("Rhythmbox", ""), AttachmentRef::LocalFile(".jpg".to_string()));
    assert_eq!(
        normalize_artwork("Rhythmbox", "file:/"),
        AttachmentRef::LocalFile(".jpg".to_string())
    );
}

#[test]
fn remote_reference_is_the_address() {
    let remote = AttachmentRef::RemoteUrl("https://example.org/a/b.png".to_string());
    assert_eq!(remote.reference(), "https://example.org/a/b.png");
}

#[test]
fn local_reference_without_a_slash_names_the_whole_path() {
    let local = AttachmentRef::LocalFile("cover.jpg".to_string());
    assert_eq!(local.reference(), "attachment://cover.jpg");
    let directory = AttachmentRef::LocalFile("/x/y/".to_string());
    assert_eq!(directory.reference(), "attachment://");
}

#[test]
fn unreachable_bus_is_a_connection_error() {
    assert_eq!(meta(PlayerQuery::BusUnreachable), Err(NowPlayingError::Connection));
    assert_eq!(wipltrn(PlayerQuery::BusUnreachable), Err(NowPlayingError::Connection));
}

#[test]
fn no_active_player_is_an_error() {
    assert_eq!(meta(PlayerQuery::NoActivePlayer), Err(NowPlayingError::NoActivePlayer));
    assert_eq!(wipltrn(PlayerQuery::NoActivePlayer), Err(NowPlayingError::NoActivePlayer));
}

#[test]
fn each_missing_field_is_named() {
    let full = reported("Spotify", "https://example.org/cover");

    let mut no_artists = full.clone();
    no_artists.artists = None;
    assert_eq!(
        meta(PlayerQuery::Active(no_artists)),
        Err(NowPlayingError::MissingField(MetadataField::Artist))
    );

    let mut empty_artists = full.clone();
    empty_artists.artists = Some(vec![]);
    assert_eq!(
        meta(PlayerQuery::Active(empty_artists)),
        Err(NowPlayingError::MissingField(MetadataField::Artist))
    );

    let mut no_album = full.clone();
    no_album.album = None;
    assert_eq!(
        meta(PlayerQuery::Active(no_album)),
        Err(NowPlayingError::MissingField(MetadataField::Album))
    );

    let mut no_title = full.clone();
    no_title.title = None;
    assert_eq!(
        meta(PlayerQuery::Active(no_title)),
        Err(NowPlayingError::MissingField(MetadataField::Title))
    );

    let mut no_art = full.clone();
    no_art.art_url = None;
    assert_eq!(
        wipltrn(PlayerQuery::Active(no_art)),
        Err(NowPlayingError::MissingField(MetadataField::ArtUrl))
    );
}

#[test]
fn the_first_missing_field_is_the_one_named() {
    let nothing = PlayerMetadata {
        identity: "Spotify".to_string(),
        artists: None,
        album: None,
        title: None,
        art_url: None,
    };
    assert_eq!(
        meta(PlayerQuery::Active(nothing.clone())),
        Err(NowPlayingError::MissingField(MetadataField::Artist))
    );
    let mut with_artist = nothing.clone();
    with_artist.artists = Some(vec!["A".to_string()]);
    assert_eq!(
        meta(PlayerQuery::Active(with_artist.clone())),
        Err(NowPlayingError::MissingField(MetadataField::Album))
    );
    with_artist.album = Some("B".to_string());
    assert_eq!(
        meta(PlayerQuery::Active(with_artist)),
        Err(NowPlayingError::MissingField(MetadataField::Title))
    );
}

#[test]
fn snapshot_takes_the_first_artist() {
    let snapshot = meta(PlayerQuery::Active(reported("Spotify", "https://example.org/c"))).unwrap();
    assert_eq!(
        snapshot,
        PlayerSnapshot {
            player_name: "Spotify".to_string(),
            artist: "Boards of Canada".to_string(),
            album: "Geogaddi".to_string(),
            title: "Dawn Chorus".to_string(),
            artwork: AttachmentRef::RemoteUrl("https://example.org/c".to_string()),
        }
    );
}

#[test]
fn snapshot_artwork_is_local_for_the_local_player_only() {
    let local = meta(PlayerQuery::Active(reported("Rhythmbox", "file:///x/y/z"))).unwrap();
    assert_eq!(local.artwork, AttachmentRef::LocalFile("/x/y/z.jpg".to_string()));
    let remote = meta(PlayerQuery::Active(reported("Spotify", "file:///x/y/z"))).unwrap();
    assert_eq!(remote.artwork, AttachmentRef::RemoteUrl("file:///x/y/z".to_string()));
}

#[test]
fn now_playing_embed_of_a_remote_player() {
    let message = wipltrn(PlayerQuery::Active(reported("Spotify", "https://example.org/c")));
    assert_eq!(
        message,
        Ok(OutgoingMessage::Embed(Embed {
            title: "What Is Phate Listening To Right Now".to_string(),
            url: Some("https://libre.fm/user/phate6660".to_string()),
            color: Some(0x9B59B6),
            fields: vec![
                block("Player", "Spotify"),
                block("Title", "Dawn Chorus"),
                block("Album", "Geogaddi"),
                block("Artist", "Boards of Canada"),
            ],
            image: Some(AttachmentRef::RemoteUrl("https://example.org/c".to_string())),
        }))
    );
}

#[test]
fn now_playing_embed_of_the_local_player() {
    let message = wipltrn(PlayerQuery::Active(reported("Rhythmbox", "file:///x/y/z"))).unwrap();
    let embed = match message {
        OutgoingMessage::Embed(embed) => embed,
        other => panic!("expected an embed, got {:?}", other),
    };
    assert_eq!(embed.fields[0], block("Player", "Rhythmbox"));
    let image = embed.image.unwrap();
    assert_eq!(image, AttachmentRef::LocalFile("/x/y/z.jpg".to_string()));
    assert_eq!(image.reference(), "attachment://z.jpg");
}

#[test]
fn show_snapshot_lists_player_title_album_artist() {
    let embed = show_snapshot(PlayerSnapshot {
        player_name: "p".to_string(),
        artist: "a".to_string(),
        album: "b".to_string(),
        title: "t".to_string(),
        artwork: AttachmentRef::RemoteUrl("u".to_string()),
    });
    let rows: Vec<(String, String, bool)> =
        embed.fields.into_iter().map(|f| (f.label, f.body, f.inline)).collect();
    assert_eq!(
        rows,
        vec![
            ("Player".to_string(), "p".to_string(), false),
            ("Title".to_string(), "t".to_string(), false),
            ("Album".to_string(), "b".to_string(), false),
            ("Artist".to_string(), "a".to_string(), false),
        ]
    );
}

#[test]
fn accent_colour_is_the_purple_of_the_chat_client() {
    assert_eq!(ACCENT_COLOR, 0x9B59B6);
    assert_eq!(ACCENT_COLOR, serenity::utils::Colour::PURPLE.0);
    let embed = show_snapshot(PlayerSnapshot {
        player_name: String::new(),
        artist: String::new(),
        album: String::new(),
        title: String::new(),
        artwork: AttachmentRef::RemoteUrl(String::new()),
    });
    assert_eq!(embed.color, Some(10181046));
}
