//! The data model: songs, search results, retrieved results and the
//! per-request context.

use crate::proxy::{proxy_for_all_traffic, proxy_uri_accepted, ProxyError};
use std::collections::HashMap;
use vstd::prelude::*;
use vstd::string::StringExecFns;

verus! {

/// The serialized identifier handed from `search` to `retrieve`.
pub type SerializedIdentifier = String;

/// The metadata of the artist of a song.
#[derive(Debug, Clone)]
pub struct Artist {
    /// The identifier of this artist.
    pub id: String,
    /// The name of this artist.
    pub name: String,
}

/// The metadata of the album of a song.
#[derive(Debug, Clone)]
pub struct Album {
    /// The identifier of this album.
    pub id: String,
    /// The name of this album.
    pub name: String,
}

/// The metadata of a song.
#[derive(Debug, Clone)]
pub struct Song {
    /// The identifier of this song.
    pub id: String,
    /// The name of this song.
    pub name: String,
    /// The duration of this song (ms).
    pub duration: Option<i64>,
    /// The artists of this song, in order.
    pub artists: Vec<Artist>,
    /// The album of this song.
    pub album: Option<Album>,
    /// Free-form context of this song, for example its URI.
    pub context: Option<HashMap<String, String>>,
}

/// The song identifier together with the engine that issued it.
#[derive(Debug, Clone)]
pub struct SongSearchInformation {
    /// The engine that produced this result, for example `bilibili`.
    pub source: String,
    /// The serialized identifier, meaningful only to `source`.
    pub identifier: SerializedIdentifier,
    /// The details of this song, where the engine returned them.
    pub song: Option<Song>,
}

/// The information of the song retrieved with `retrieve()`.
#[derive(Debug, Clone)]
pub struct RetrievedSongInfo {
    /// The engine that resolved this song, for example `bilibili`.
    pub source: String,
    /// The URL of this song.
    pub url: String,
}

/// The per-request context.
#[derive(Debug, Clone)]
pub struct Context {
    /// The proxy URI.
    pub proxy_uri: Option<String>,
    /// Whether to enable FLAC support.
    pub enable_flac: bool,
    /// The config for engines.
    pub config: Option<HashMap<String, String>>,
}

impl Default for Artist {
    fn default() -> (artist: Self)
        ensures
            artist.id@ == Seq::<char>::empty(),
            artist.name@ == Seq::<char>::empty(),
    {
        Artist { id: String::new(), name: String::new() }
    }
}

impl Default for Album {
    fn default() -> (album: Self)
        ensures
            album.id@ == Seq::<char>::empty(),
            album.name@ == Seq::<char>::empty(),
    {
        Album { id: String::new(), name: String::new() }
    }
}

impl Default for Song {
    fn default() -> (song: Self)
        ensures
            song.id@ == Seq::<char>::empty(),
            song.name@ == Seq::<char>::empty(),
            song.duration is None,
            song.artists@ == Seq::<Artist>::empty(),
            song.album is None,
            song.context is None,
    {
        Song {
            id: String::new(),
            name: String::new(),
            duration: None,
            artists: Vec::new(),
            album: None,
            context: None,
        }
    }
}

impl Default for Context {
    fn default() -> (ctx: Self)
        ensures
            ctx.proxy_uri is None,
            !ctx.enable_flac,
            ctx.config is None,
    {
        Context { proxy_uri: None, enable_flac: false, config: None }
    }
}

/// The separator between the song name and the artist list: `" - "`.
pub open spec fn name_separator() -> Seq<char> {
    seq![' ', '-', ' ']
}

/// The separator between two artist names: `", "`.
pub open spec fn artist_separator() -> Seq<char> {
    seq![',', ' ']
}

/// The artist names joined by `", "`, with no separator before the first
/// or after the last.
pub open spec fn joined_names(artists: Seq<Artist>) -> Seq<char>
    decreases artists.len(),
{
    if artists.len() == 0 {
        Seq::empty()
    } else if artists.len() == 1 {
        artists[0].name@
    } else {
        joined_names(artists.drop_last()) + artist_separator() + artists.last().name@
    }
}

/// The keyword of a song called `name` by `artists`: the name alone when
/// there is no artist, else the name, `" - "` and the joined artist names.
pub open spec fn keyword_of(name: Seq<char>, artists: Seq<Artist>) -> Seq<char> {
    if artists.len() == 0 {
        name
    } else {
        name + name_separator() + joined_names(artists)
    }
}

/// How the keyword is derived: the name alone for a song without
/// artists; the name, `" - "` and the artist's name for a song with one
/// artist; and for each further artist `", "` and that artist's name, so
/// that no separator stands at the end.
pub proof fn law_keyword_derivation(name: Seq<char>, artists: Seq<Artist>)
    ensures
        artists.len() == 0 ==> keyword_of(name, artists) == name,
        artists.len() == 1 ==> keyword_of(name, artists) == name + name_separator()
            + artists[0].name@,
        artists.len() > 1 ==> keyword_of(name, artists) == keyword_of(name, artists.drop_last())
            + artist_separator() + artists.last().name@,
{
    if artists.len() > 1 {
        let front = artists.drop_last();
        assert(keyword_of(name, artists) =~= keyword_of(name, front) + artist_separator()
            + artists.last().name@);
    }
}

impl Context {
    /// The proxy that requests under this context go through: none where
    /// the context names none, else the one that `reqwest` builds from
    /// `proxy_uri` for all traffic. A URI that `reqwest` does not take is an
    /// error.
    pub fn try_get_proxy(&self) -> (proxy: Result<Option<reqwest::Proxy>, ProxyError>)
        ensures
            match self.proxy_uri {
                None => proxy matches Ok(None),
                Some(uri) => if proxy_uri_accepted(uri@) {
                    proxy matches Ok(Some(_))
                } else {
                    proxy matches Err(error) && error.uri@ == uri@
                },
            },
    {
        match &self.proxy_uri {
            None => Ok(None),
            Some(uri) => match proxy_for_all_traffic(uri.clone()) {
                Ok(proxy) => Ok(Some(proxy)),
                Err(source) => Err(ProxyError { uri: uri.clone(), source }),
            },
        }
    }
}

impl Song {
    /// The keyword of this song, for contracts to speak of.
    pub open spec fn spec_keyword(&self) -> Seq<char> {
        keyword_of(self.name@, self.artists@)
    }

    /// Generate the keyword of this song.
    pub fn keyword(&self) -> (keyword: String)
        ensures
            keyword@ == self.spec_keyword(),
    {
        let mut keyword = self.name.clone();
        if self.artists.len() == 0 {
            return keyword;
        }
        proof {
            reveal_strlit(" - ");
            reveal_strlit(", ");
        }
        keyword.append(" - ");
        keyword.append(self.artists[0].name.as_str());
        assert(self.artists@.take(1) =~= seq![self.artists@[0]]);
        let mut idx: usize = 1;
        while idx < self.artists.len()
            invariant
                1 <= idx <= self.artists.len(),
                ", "@ == artist_separator(),
                keyword@ == self.name@ + name_separator() + joined_names(
                    self.artists@.take(idx as int),
                ),
            decreases self.artists.len() - idx,
        {
            keyword.append(", ");
            keyword.append(self.artists[idx].name.as_str());
            proof {
                let next = self.artists@.take(idx + 1);
                assert(next.drop_last() =~= self.artists@.take(idx as int));
                assert(next.last() == self.artists@[idx as int]);
            }
            idx = idx + 1;
        }
        assert(self.artists@.take(idx as int) =~= self.artists@);
        keyword
    }
}

} // verus!
