//! What is known of the media player: what the desktop bus reported, the
//! snapshot made of it, and the ways in which making one fails.

use crate::message::{AttachmentRef, AttachmentRefView};
use vstd::prelude::*;

verus! {

/// Identity of the one player whose artwork addresses are paths on this
/// machine.
pub const LOCAL_PLAYER: &'static str = "Rhythmbox";

/// The scheme at the front of such an address.
pub const FILE_SCHEME: &'static str = "file://";

/// How many characters the scheme takes.
pub const SCHEME_LENGTH: usize = 7;

/// What the cover files of the local player end in.
pub const COVER_SUFFIX: &'static str = ".jpg";

/// What the active player reported of itself and of the current track. A
/// field that the player did not report is `None`.
#[derive(Clone, Debug, PartialEq, Eq)]
pub struct PlayerMetadata {
    pub identity: String,
    pub artists: Option<Vec<String>>,
    pub album: Option<String>,
    pub title: Option<String>,
    pub art_url: Option<String>,
}

/// Mathematical model of a [`PlayerMetadata`].
pub struct PlayerMetadataView {
    pub identity: Seq<char>,
    pub artists: Option<Seq<Seq<char>>>,
    pub album: Option<Seq<char>>,
    pub title: Option<Seq<char>>,
    pub art_url: Option<Seq<char>>,
}

/// The model of a text that may be missing.
pub open spec fn optional_text(text: Option<String>) -> Option<Seq<char>> {
    match text {
        Some(text) => Some(text@),
        None => None,
    }
}

impl View for PlayerMetadata {
    type V = PlayerMetadataView;

    open spec fn view(&self) -> PlayerMetadataView {
        PlayerMetadataView {
            identity: self.identity@,
            artists: match self.artists {
                Some(list) => Some(list.deep_view()),
                None => None,
            },
            album: optional_text(self.album),
            title: optional_text(self.title),
            art_url: optional_text(self.art_url),
        }
    }
}

/// How asking the desktop bus for the active player ended.
#[derive(Clone, Debug, PartialEq, Eq)]
pub enum PlayerQuery {
    /// The bus could not be reached.
    BusUnreachable,
    /// The bus answered, but no player is active.
    NoActivePlayer,
    /// A player is active and reported this.
    Active(PlayerMetadata),
}

/// Mathematical model of a [`PlayerQuery`].
pub enum PlayerQueryView {
    BusUnreachable,
    NoActivePlayer,
    Active(PlayerMetadataView),
}

impl View for PlayerQuery {
    type V = PlayerQueryView;

    open spec fn view(&self) -> PlayerQueryView {
        match self {
            PlayerQuery::BusUnreachable => PlayerQueryView::BusUnreachable,
            PlayerQuery::NoActivePlayer => PlayerQueryView::NoActivePlayer,
            PlayerQuery::Active(metadata) => PlayerQueryView::Active(metadata@),
        }
    }
}

/// A field of the track's metadata that a snapshot cannot do without.
#[derive(Clone, Copy, Debug, PartialEq, Eq, Structural)]
pub enum MetadataField {
    Artist,
    Album,
    Title,
    ArtUrl,
}

/// Why no snapshot could be made.
#[derive(Clone, Copy, Debug, PartialEq, Eq, Structural)]
pub enum NowPlayingError {
    /// The desktop bus could not be reached.
    Connection,
    /// No player is active.
    NoActivePlayer,
    /// The player did not report this field.
    MissingField(MetadataField),
}

/// The player and the track it plays, at the moment of one request.
#[derive(Clone, Debug, PartialEq, Eq)]
pub struct PlayerSnapshot {
    pub player_name: String,
    pub artist: String,
    pub album: String,
    pub title: String,
    pub artwork: AttachmentRef,
}

/// Mathematical model of a [`PlayerSnapshot`].
pub struct PlayerSnapshotView {
    pub player_name: Seq<char>,
    pub artist: Seq<char>,
    pub album: Seq<char>,
    pub title: Seq<char>,
    pub artwork: AttachmentRefView,
}

impl PlayerSnapshotView {
    /// The artwork is a local file for the local player and for no other.
    pub open spec fn wf(self) -> bool {
        (self.artwork is LocalFile) <==> self.player_name == LOCAL_PLAYER@
    }
}

impl View for PlayerSnapshot {
    type V = PlayerSnapshotView;

    open spec fn view(&self) -> PlayerSnapshotView {
        PlayerSnapshotView {
            player_name: self.player_name@,
            artist: self.artist@,
            album: self.album@,
            title: self.title@,
            artwork: self.artwork@,
        }
    }
}

impl PlayerSnapshot {
    /// See [`PlayerSnapshotView::wf`].
    pub open spec fn wf(&self) -> bool {
        self@.wf()
    }
}

} // verus!
