//! The command handlers: each turns the arguments of one command into the
//! message that answers it.

use crate::catalog::{entry_of, find_topic, law_keywords_name_topics, topic_of, Topic};
use crate::discord::{build_text, new_builder, purple, push_text};
use crate::message::{
    block_field, field_views, AttachmentRef, AttachmentRefView, Embed, EmbedField, EmbedView,
    OutgoingMessage, OutgoingMessageView, ATTACHMENT_SCHEME,
};
use crate::player::{
    MetadataField, NowPlayingError, PlayerMetadata, PlayerQuery, PlayerQueryView, PlayerSnapshot,
    PlayerMetadataView, PlayerSnapshotView, COVER_SUFFIX, FILE_SCHEME, LOCAL_PLAYER,
    SCHEME_LENGTH,
};
use crate::text::{
    joined, drop_first_chars, last_segment, lemma_last_segment_append, lemma_segment_start,
    lemma_segment_start_unique, same_text, segment_start, without_first,
};
use vstd::prelude::*;

verus! {

/// Sent in place of a link when the site keyword is not a known one.
pub const LINK_FAILURE: &'static str = "Could not generate a full link, please try again.";

/// The address under which a code-hosting site lists its repositories, for
/// each site keyword that the link command knows.
pub open spec fn site_base(site: Seq<char>) -> Option<Seq<char>> {
    if site == "github"@ {
        Some("https://github.com/"@)
    } else if site == "gitlab"@ {
        Some("https://gitlab.com/"@)
    } else if site == "codeberg"@ {
        Some("https://codeberg.org/"@)
    } else if site == "sourcehut"@ {
        Some("https://sr.ht/~"@)
    } else {
        None
    }
}

/// The reply of the link command: the site's base address followed by the
/// repository shorthand as given, or the failure text for an unknown site.
pub open spec fn link_text(site: Seq<char>, repo: Seq<char>) -> Seq<char> {
    match site_base(site) {
        Some(base) => base + repo,
        None => LINK_FAILURE@,
    }
}

/// Looks up the base address of a site keyword.
fn base_of(site: &str) -> (base: Option<&'static str>)
    ensures
        match base {
            Some(text) => site_base(site@) == Some(text@),
            None => site_base(site@) is None,
        },
{
    if same_text(site, "github") {
        Some("https://github.com/")
    } else if same_text(site, "gitlab") {
        Some("https://gitlab.com/")
    } else if same_text(site, "codeberg") {
        Some("https://codeberg.org/")
    } else if same_text(site, "sourcehut") {
        Some("https://sr.ht/~")
    } else {
        None
    }
}

/// The link command: the full address of `repo` on `site`.
///
/// `repo` is neither checked nor encoded; it follows the base address
/// exactly as it was given.
pub fn git(site: &str, repo: &str) -> (message: String)
    ensures
        message@ == link_text(site@, repo@),
{
    match base_of(site) {
        Some(base) => {
            let mut builder = new_builder();
            push_text(&mut builder, base);
            push_text(&mut builder, repo);
            build_text(&mut builder)
        },
        None => String::from_str(LINK_FAILURE),
    }
}

/// For a known site the reply is the base address followed by the
/// repository shorthand, character for character.
pub proof fn law_known_site_keeps_repo(site: Seq<char>, repo: Seq<char>)
    requires
        site_base(site) is Some,
    ensures
        link_text(site, repo) == site_base(site)->0 + repo,
        link_text(site, repo).len() == site_base(site)->0.len() + repo.len(),
        link_text(site, repo).subrange(0, site_base(site)->0.len() as int) == site_base(site)->0,
        link_text(site, repo).skip(site_base(site)->0.len() as int) == repo,
{
    let base = site_base(site)->0;
    assert((base + repo).subrange(0, base.len() as int) =~= base);
    assert((base + repo).skip(base.len() as int) =~= repo);
}

/// For any other site the reply is the failure text, whatever the
/// repository shorthand.
pub proof fn law_unknown_site_fails(site: Seq<char>, repo: Seq<char>)
    requires
        site != "github"@,
        site != "gitlab"@,
        site != "codeberg"@,
        site != "sourcehut"@,
    ensures
        link_text(site, repo) == LINK_FAILURE@,
{
}

/// Each of the four site keywords has the base address that belongs to it.
pub proof fn law_site_keywords()
    ensures
        site_base("github"@) == Some("https://github.com/"@),
        site_base("gitlab"@) == Some("https://gitlab.com/"@),
        site_base("codeberg"@) == Some("https://codeberg.org/"@),
        site_base("sourcehut"@) == Some("https://sr.ht/~"@),
{
    reveal_strlit("github");
    reveal_strlit("gitlab");
    reveal_strlit("codeberg");
    reveal_strlit("sourcehut");
    assert("gitlab"@[3] != "github"@[3]);
    assert("codeberg"@.len() != "github"@.len());
    assert("codeberg"@.len() != "gitlab"@.len());
    assert("sourcehut"@.len() != "github"@.len());
    assert("sourcehut"@.len() != "gitlab"@.len());
    assert("sourcehut"@.len() != "codeberg"@.len());
}

/// What the topic command puts before a query that names no topic.
pub const UNKNOWN_QUERY: &'static str = "unknown query: ";

/// The answer of the topic command: the catalog entry of the topic that the
/// query names, or a reply that repeats the query when it names none.
pub open spec fn www_reply(query: Seq<char>) -> OutgoingMessageView {
    match topic_of(query) {
        Some(topic) => OutgoingMessageView::Embed(topic.entry()),
        None => OutgoingMessageView::Reply(UNKNOWN_QUERY@ + query),
    }
}

/// The topic command. `query` is everything that followed the command name,
/// taken as one keyword.
pub fn www(query: &str) -> (message: OutgoingMessage)
    ensures
        message@ == www_reply(query@),
{
    match find_topic(query) {
        Some(topic) => OutgoingMessage::Embed(entry_of(topic)),
        None => OutgoingMessage::Reply(joined(UNKNOWN_QUERY, query)),
    }
}

/// Asked for by its keyword, a topic is answered with an embed that holds
/// the sections of its catalog entry, as many and in the same order.
pub proof fn law_topic_answered_from_catalog(topic: Topic)
    ensures
        www_reply(topic.keyword()) == OutgoingMessageView::Embed(topic.entry()),
        www_reply(topic.keyword())->Embed_0.title == topic.title(),
        www_reply(topic.keyword())->Embed_0.fields == topic.sections(),
{
    law_keywords_name_topics(topic, topic.keyword());
}

/// Any query but the three keywords is answered by repeating it.
pub proof fn law_unknown_query_repeated(query: Seq<char>)
    requires
        query != Topic::Apple.keyword(),
        query != Topic::Steam.keyword(),
        query != Topic::Systemd.keyword(),
    ensures
        www_reply(query) == OutgoingMessageView::Reply(UNKNOWN_QUERY@ + query),
{
}

/// The artwork of a track, from the identity of the player and the
/// address it reported: for the local player the address without its
/// scheme and with the cover suffix, as a path on this machine; for any
/// other player the address itself.
pub open spec fn artwork_of(identity: Seq<char>, art_url: Seq<char>) -> AttachmentRefView {
    if identity == LOCAL_PLAYER@ {
        AttachmentRefView::LocalFile(
            without_first(art_url, SCHEME_LENGTH as nat) + COVER_SUFFIX@,
        )
    } else {
        AttachmentRefView::RemoteUrl(art_url)
    }
}

/// Turns the artwork address that a player reported into a reference that
/// a message can carry.
pub fn normalize_artwork(identity: &str, art_url: &str) -> (artwork: AttachmentRef)
    ensures
        artwork@ == artwork_of(identity@, art_url@),
{
    if same_text(identity, LOCAL_PLAYER) {
        let mut path = drop_first_chars(art_url, SCHEME_LENGTH);
        path.append(COVER_SUFFIX);
        AttachmentRef::LocalFile(path)
    } else {
        AttachmentRef::RemoteUrl(String::from_str(art_url))
    }
}

/// For the local player, an address made of the file scheme and a path
/// gives that path with the cover suffix, to be uploaded from there; the
/// embed names it by the last segment of the address with the suffix.
pub proof fn law_local_artwork(path: Seq<char>)
    ensures
        artwork_of(LOCAL_PLAYER@, FILE_SCHEME@ + path) == AttachmentRefView::LocalFile(
            path + COVER_SUFFIX@,
        ),
        artwork_of(LOCAL_PLAYER@, FILE_SCHEME@ + path).reference() == ATTACHMENT_SCHEME@
            + last_segment(FILE_SCHEME@ + path) + COVER_SUFFIX@,
        last_segment(FILE_SCHEME@ + path) == last_segment(path),
{
    reveal_strlit("file://");
    reveal_strlit(".jpg");
    let address = FILE_SCHEME@ + path;
    assert(without_first(address, SCHEME_LENGTH as nat) =~= path);
    lemma_last_segment_append(path, COVER_SUFFIX@);
    lemma_segment_start(path);
    let start = SCHEME_LENGTH + segment_start(path);
    assert forall|i: int| start <= i < address.len() implies #[trigger] address[i] != '/' by {
        assert(address[i] == path[i - SCHEME_LENGTH]);
    }
    assert(address[start - 1] == '/') by {
        if segment_start(path) > 0 {
            assert(address[start - 1] == path[segment_start(path) - 1]);
        }
    }
    lemma_segment_start_unique(address, start);
    assert(last_segment(address) =~= last_segment(path));
    assert(ATTACHMENT_SCHEME@ + (last_segment(path) + COVER_SUFFIX@) =~= ATTACHMENT_SCHEME@
        + last_segment(path) + COVER_SUFFIX@);
}

/// For any other player the address is the artwork, and the embed names it
/// unchanged.
pub proof fn law_remote_artwork_unchanged(identity: Seq<char>, art_url: Seq<char>)
    requires
        identity != LOCAL_PLAYER@,
    ensures
        artwork_of(identity, art_url) == AttachmentRefView::RemoteUrl(art_url),
        artwork_of(identity, art_url).reference() == art_url,
{
}

/// The snapshot that a query gives, or why it gives none. The artist is the
/// first of the reported list; the first field found missing, in the order
/// artist, album, title, artwork, is the one named.
pub open spec fn snapshot_of(query: PlayerQueryView) -> Result<PlayerSnapshotView, NowPlayingError> {
    match query {
        PlayerQueryView::BusUnreachable => Err(NowPlayingError::Connection),
        PlayerQueryView::NoActivePlayer => Err(NowPlayingError::NoActivePlayer),
        PlayerQueryView::Active(metadata) => {
            if metadata.artists is None || metadata.artists->0.len() == 0 {
                Err(NowPlayingError::MissingField(MetadataField::Artist))
            } else if metadata.album is None {
                Err(NowPlayingError::MissingField(MetadataField::Album))
            } else if metadata.title is None {
                Err(NowPlayingError::MissingField(MetadataField::Title))
            } else if metadata.art_url is None {
                Err(NowPlayingError::MissingField(MetadataField::ArtUrl))
            } else {
                Ok(
                    PlayerSnapshotView {
                        player_name: metadata.identity,
                        artist: metadata.artists->0[0],
                        album: metadata.album->0,
                        title: metadata.title->0,
                        artwork: artwork_of(metadata.identity, metadata.art_url->0),
                    },
                )
            }
        },
    }
}

/// Makes the snapshot of what the player reported.
pub fn meta(query: PlayerQuery) -> (outcome: Result<PlayerSnapshot, NowPlayingError>)
    ensures
        match outcome {
            Ok(snapshot) => snapshot_of(query@) == Ok::<PlayerSnapshotView, NowPlayingError>(
                snapshot@,
            ) && snapshot.wf(),
            Err(error) => snapshot_of(query@) == Err::<PlayerSnapshotView, NowPlayingError>(error),
        },
{
    let metadata = match query {
        PlayerQuery::BusUnreachable => { return Err(NowPlayingError::Connection); },
        PlayerQuery::NoActivePlayer => { return Err(NowPlayingError::NoActivePlayer); },
        PlayerQuery::Active(metadata) => metadata,
    };
    let PlayerMetadata { identity, artists, album, title, art_url } = metadata;
    let artist = match artists {
        Some(list) => {
            if list.len() == 0 {
                return Err(NowPlayingError::MissingField(MetadataField::Artist));
            }
            list[0].clone()
        },
        None => { return Err(NowPlayingError::MissingField(MetadataField::Artist)); },
    };
    let album = match album {
        Some(album) => album,
        None => { return Err(NowPlayingError::MissingField(MetadataField::Album)); },
    };
    let title = match title {
        Some(title) => title,
        None => { return Err(NowPlayingError::MissingField(MetadataField::Title)); },
    };
    let art_url = match art_url {
        Some(art_url) => art_url,
        None => { return Err(NowPlayingError::MissingField(MetadataField::ArtUrl)); },
    };
    let artwork = normalize_artwork(identity.as_str(), art_url.as_str());
    Ok(PlayerSnapshot { player_name: identity, artist, album, title, artwork })
}

/// Title of the now-playing embed.
pub const NOW_PLAYING_TITLE: &'static str = "What Is Phate Listening To Right Now";

/// The profile that the now-playing embed links to.
pub const PROFILE_URL: &'static str = "https://libre.fm/user/phate6660";

/// Accent colour of the now-playing embed.
pub const ACCENT_COLOR: u32 = 0x9B59B6;

pub const PLAYER_LABEL: &'static str = "Player";

pub const TITLE_LABEL: &'static str = "Title";

pub const ALBUM_LABEL: &'static str = "Album";

pub const ARTIST_LABEL: &'static str = "Artist";

/// The embed that shows a snapshot: player, title, album and artist, each
/// on a row of its own and in this order, with the track's artwork.
pub open spec fn now_playing_embed(snapshot: PlayerSnapshotView) -> EmbedView {
    EmbedView {
        title: NOW_PLAYING_TITLE@,
        url: Some(PROFILE_URL@),
        color: Some(ACCENT_COLOR),
        fields: seq![
            block_field(PLAYER_LABEL@, snapshot.player_name),
            block_field(TITLE_LABEL@, snapshot.title),
            block_field(ALBUM_LABEL@, snapshot.album),
            block_field(ARTIST_LABEL@, snapshot.artist),
        ],
        image: Some(snapshot.artwork),
    }
}

/// Builds the embed that shows `snapshot`.
pub fn show_snapshot(snapshot: PlayerSnapshot) -> (embed: Embed)
    ensures
        embed@ == now_playing_embed(snapshot@),
        embed.wf(),
{
    let PlayerSnapshot { player_name, artist, album, title, artwork } = snapshot;
    let mut fields: Vec<EmbedField> = Vec::new();
    fields.push(EmbedField::block(PLAYER_LABEL, player_name.as_str()));
    fields.push(EmbedField::block(TITLE_LABEL, title.as_str()));
    fields.push(EmbedField::block(ALBUM_LABEL, album.as_str()));
    fields.push(EmbedField::block(ARTIST_LABEL, artist.as_str()));
    assert(field_views(fields@) =~= now_playing_embed(snapshot@).fields);
    Embed {
        title: String::from_str(NOW_PLAYING_TITLE),
        url: Some(String::from_str(PROFILE_URL)),
        color: Some(purple()),
        fields,
        image: Some(artwork),
    }
}

/// The answer of the now-playing command to what the player reported: the
/// embed of the snapshot, or the reason why there is nothing to show.
pub open spec fn now_playing_reply(query: PlayerQueryView) -> Result<
    OutgoingMessageView,
    NowPlayingError,
> {
    match snapshot_of(query) {
        Ok(snapshot) => Ok(OutgoingMessageView::Embed(now_playing_embed(snapshot))),
        Err(error) => Err(error),
    }
}

/// The now-playing command, once the player has been asked. An error is
/// for the caller's log; nothing is sent then.
pub fn wipltrn(query: PlayerQuery) -> (outcome: Result<OutgoingMessage, NowPlayingError>)
    ensures
        match outcome {
            Ok(message) => now_playing_reply(query@) == Ok::<OutgoingMessageView, NowPlayingError>(
                message@,
            ),
            Err(error) => now_playing_reply(query@) == Err::<OutgoingMessageView, NowPlayingError>(
                error,
            ),
        },
{
    match meta(query) {
        Ok(snapshot) => Ok(OutgoingMessage::Embed(show_snapshot(snapshot))),
        Err(error) => Err(error),
    }
}

/// Every snapshot that a query gives keeps the rule of its artwork: a
/// local file for the local player, a remote address for any other.
pub proof fn law_snapshot_artwork(query: PlayerQueryView)
    requires
        snapshot_of(query) is Ok,
    ensures
        snapshot_of(query)->Ok_0.wf(),
        now_playing_reply(query) is Ok,
        now_playing_reply(query)->Ok_0 is Embed,
        now_playing_reply(query)->Ok_0->Embed_0.image == Some(snapshot_of(query)->Ok_0.artwork),
{
}

/// A player that reports all of its fields is shown with the first of its
/// artists; when it is not the local player, the image of the embed is
/// the reported address, unchanged.
pub proof fn law_remote_player_shown(metadata: PlayerMetadataView)
    requires
        metadata.identity != LOCAL_PLAYER@,
        metadata.artists is Some,
        metadata.artists->0.len() > 0,
        metadata.album is Some,
        metadata.title is Some,
        metadata.art_url is Some,
    ensures
        now_playing_reply(PlayerQueryView::Active(metadata)) is Ok,
        now_playing_reply(PlayerQueryView::Active(metadata))->Ok_0 is Embed,
        now_playing_reply(PlayerQueryView::Active(metadata))->Ok_0->Embed_0.image == Some(
            AttachmentRefView::RemoteUrl(metadata.art_url->0),
        ),
        now_playing_reply(PlayerQueryView::Active(metadata))->Ok_0->Embed_0.fields[3].body
            == metadata.artists->0[0],
{
}

} // verus!
