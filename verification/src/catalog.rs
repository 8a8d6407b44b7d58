//! What the catalog of the streaming service is asked and what it answers,
//! as plain values. Asking is the caller's business: a command that needs
//! the catalog says what it needs and goes on when the answer is handed in.

use crate::track::{Track, TrackView};
use vstd::prelude::*;

verus! {

/// The catalog could not answer.
#[derive(Clone, Copy, Debug, PartialEq, Eq, Structural)]
pub struct CatalogError;

/// One playlist of the user.
#[derive(Debug, PartialEq, Eq)]
pub struct Playlist {
    pub id: String,
    pub name: String,
}

/// A `Playlist` as a mathematical value.
pub struct PlaylistView {
    pub id: Seq<char>,
    pub name: Seq<char>,
}

impl View for Playlist {
    type V = PlaylistView;

    open spec fn view(&self) -> PlaylistView {
        PlaylistView { id: self.id@, name: self.name@ }
    }
}

impl DeepView for Playlist {
    type V = PlaylistView;

    open spec fn deep_view(&self) -> PlaylistView {
        self@
    }
}

/// One entry of a playlist.
#[derive(Debug, PartialEq, Eq)]
pub enum PlaylistEntry {
    /// A track of the catalog.
    Track(Track),
    /// A file of the user's own, which the catalog cannot play.
    Local,
    /// An entry whose track the catalog no longer has.
    Unavailable,
}

/// A `PlaylistEntry` as a mathematical value.
pub enum PlaylistEntryView {
    Track(TrackView),
    Local,
    Unavailable,
}

impl View for PlaylistEntry {
    type V = PlaylistEntryView;

    open spec fn view(&self) -> PlaylistEntryView {
        match self {
            PlaylistEntry::Track(t) => PlaylistEntryView::Track(t@),
            PlaylistEntry::Local => PlaylistEntryView::Local,
            PlaylistEntry::Unavailable => PlaylistEntryView::Unavailable,
        }
    }
}

impl DeepView for PlaylistEntry {
    type V = PlaylistEntryView;

    open spec fn deep_view(&self) -> PlaylistEntryView {
        self@
    }
}

/// A question for the catalog.
#[derive(Debug, PartialEq, Eq)]
pub enum CatalogRequest {
    /// The track with this identifier.
    Track(String),
    /// The playlists of the user.
    Playlists,
    /// The identifier of the user.
    CurrentUser,
    /// The entries of a playlist of a user.
    PlaylistTracks { user_id: String, playlist_id: String },
}

/// A `CatalogRequest` as a mathematical value.
pub enum CatalogRequestView {
    Track(Seq<char>),
    Playlists,
    CurrentUser,
    PlaylistTracks { user_id: Seq<char>, playlist_id: Seq<char> },
}

impl View for CatalogRequest {
    type V = CatalogRequestView;

    open spec fn view(&self) -> CatalogRequestView {
        match self {
            CatalogRequest::Track(id) => CatalogRequestView::Track(id@),
            CatalogRequest::Playlists => CatalogRequestView::Playlists,
            CatalogRequest::CurrentUser => CatalogRequestView::CurrentUser,
            CatalogRequest::PlaylistTracks { user_id, playlist_id } => {
                CatalogRequestView::PlaylistTracks { user_id: user_id@, playlist_id: playlist_id@ }
            },
        }
    }
}

/// The catalog's answer to one question.
#[derive(Debug, PartialEq, Eq)]
pub enum CatalogReply {
    Track(Result<Track, CatalogError>),
    Playlists(Result<Vec<Playlist>, CatalogError>),
    CurrentUser(Result<String, CatalogError>),
    PlaylistTracks(Result<Vec<PlaylistEntry>, CatalogError>),
}

/// A `CatalogReply` as a mathematical value.
pub enum CatalogReplyView {
    Track(Result<TrackView, CatalogError>),
    Playlists(Result<Seq<PlaylistView>, CatalogError>),
    CurrentUser(Result<Seq<char>, CatalogError>),
    PlaylistTracks(Result<Seq<PlaylistEntryView>, CatalogError>),
}

impl View for CatalogReply {
    type V = CatalogReplyView;

    open spec fn view(&self) -> CatalogReplyView {
        match self {
            CatalogReply::Track(Ok(t)) => CatalogReplyView::Track(Ok(t@)),
            CatalogReply::Track(Err(e)) => CatalogReplyView::Track(Err(*e)),
            CatalogReply::Playlists(Ok(p)) => CatalogReplyView::Playlists(Ok(p.deep_view())),
            CatalogReply::Playlists(Err(e)) => CatalogReplyView::Playlists(Err(*e)),
            CatalogReply::CurrentUser(Ok(u)) => CatalogReplyView::CurrentUser(Ok(u@)),
            CatalogReply::CurrentUser(Err(e)) => CatalogReplyView::CurrentUser(Err(*e)),
            CatalogReply::PlaylistTracks(Ok(t)) => CatalogReplyView::PlaylistTracks(
                Ok(t.deep_view()),
            ),
            CatalogReply::PlaylistTracks(Err(e)) => CatalogReplyView::PlaylistTracks(Err(*e)),
        }
    }
}

} // verus!
