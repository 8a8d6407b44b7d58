//! One playable item and the lines that describe it to a client.

use crate::text::{decimal, join, joined, labelled, labelled_number};
use vstd::prelude::*;
use vstd::string::*;

verus! {

/// One playable item of the catalog.
#[derive(Debug, PartialEq, Eq)]
pub struct Track {
    /// The catalog's identifier of the track.
    pub id: String,
    pub title: String,
    pub album: String,
    pub artists: Vec<String>,
    pub album_artists: Vec<String>,
    /// Length in milliseconds.
    pub duration: u32,
    pub release_date: Option<String>,
}

/// A `Track` as a mathematical value.
pub struct TrackView {
    pub id: Seq<char>,
    pub title: Seq<char>,
    pub album: Seq<char>,
    pub artists: Seq<Seq<char>>,
    pub album_artists: Seq<Seq<char>>,
    pub duration: nat,
    pub release_date: Option<Seq<char>>,
}

impl TrackView {
    /// Length in whole seconds.
    pub open spec fn seconds(self) -> nat {
        self.duration / 1000
    }

    /// The line that gives the release date, where there is one.
    pub open spec fn date_lines(self) -> Seq<Seq<char>> {
        match self.release_date {
            Some(d) => seq!["Last-Modified: "@ + d],
            None => Seq::empty(),
        }
    }

    /// The lines that describe the track in a listing of a playlist.
    pub open spec fn lines(self) -> Seq<Seq<char>> {
        seq!["file: "@ + self.id] + self.date_lines() + seq![
            "Artist: "@ + joined(self.artists, ";"@),
            "AlbumArtist: "@ + joined(self.album_artists, ";"@),
            "Title: "@ + self.title,
            "Album: "@ + self.album,
            "Time: "@ + decimal(self.seconds()),
            "duration: "@ + decimal(self.seconds()),
        ]
    }

    /// The lines that describe the track at place `pos` of the queue.
    pub open spec fn mpd_format(self, pos: nat) -> Seq<Seq<char>> {
        self.lines() + seq!["Pos: "@ + decimal(pos), "Id: "@ + decimal(pos)]
    }
}

impl View for Track {
    type V = TrackView;

    open spec fn view(&self) -> TrackView {
        TrackView {
            id: self.id@,
            title: self.title@,
            album: self.album@,
            artists: self.artists.deep_view(),
            album_artists: self.album_artists.deep_view(),
            duration: self.duration as nat,
            release_date: self.release_date.deep_view(),
        }
    }
}

impl DeepView for Track {
    type V = TrackView;

    open spec fn deep_view(&self) -> TrackView {
        self@
    }
}

/// A copy of a list of strings.
pub fn clone_strings(v: &Vec<String>) -> (r: Vec<String>)
    ensures
        r.deep_view() == v.deep_view(),
{
    let mut r: Vec<String> = Vec::new();
    let mut i: usize = 0;
    while i < v.len()
        invariant
            i <= v.len(),
            r.len() == i,
            forall|k: int| 0 <= k < i ==> r@[k]@ == v@[k]@,
        decreases v.len() - i,
    {
        r.push(v[i].clone());
        i += 1;
    }
    assert(r.deep_view() =~= v.deep_view());
    r
}

impl Clone for Track {
    fn clone(&self) -> (r: Track)
        ensures
            r@ == self@,
    {
        let release_date = match &self.release_date {
            Some(d) => Some(d.clone()),
            None => None,
        };
        Track {
            id: self.id.clone(),
            title: self.title.clone(),
            album: self.album.clone(),
            artists: clone_strings(&self.artists),
            album_artists: clone_strings(&self.album_artists),
            duration: self.duration,
            release_date,
        }
    }
}

impl Track {
    /// Length in whole seconds.
    pub fn seconds(&self) -> (r: u32)
        ensures
            r == self@.seconds(),
    {
        self.duration / 1000
    }

    /// The lines that describe the track in a listing of a playlist.
    pub fn describe(&self) -> (r: Vec<String>)
        ensures
            r.deep_view() == self@.lines(),
    {
        let mut r: Vec<String> = Vec::new();
        r.push(labelled("file: ", self.id.as_str()));
        match &self.release_date {
            Some(d) => {
                r.push(labelled("Last-Modified: ", d.as_str()));
            },
            None => {},
        }
        let artists = join(&self.artists, ";");
        r.push(labelled("Artist: ", artists.as_str()));
        let album_artists = join(&self.album_artists, ";");
        r.push(labelled("AlbumArtist: ", album_artists.as_str()));
        r.push(labelled("Title: ", self.title.as_str()));
        r.push(labelled("Album: ", self.album.as_str()));
        let seconds = self.seconds();
        r.push(labelled_number("Time: ", seconds as u64));
        r.push(labelled_number("duration: ", seconds as u64));
        assert(r.deep_view() =~= self@.lines());
        r
    }

    /// The lines that describe the track at place `pos` of the queue.
    pub fn to_mpd_format(&self, pos: usize) -> (r: Vec<String>)
        ensures
            r.deep_view() == self@.mpd_format(pos as nat),
    {
        let mut r = self.describe();
        r.push(labelled_number("Pos: ", pos as u64));
        r.push(labelled_number("Id: ", pos as u64));
        assert(r.deep_view() =~= self@.mpd_format(pos as nat));
        r
    }
}

} // verus!
