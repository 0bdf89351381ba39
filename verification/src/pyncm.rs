//! The `pyncm` engine: audio from the unofficial Netease Cloud Music API.
//!
//! This module holds what the engine decides: the address it asks, what it
//! makes of a response, and what it retrieves. Sending the request is left
//! to the caller.

use crate::types::{Context, RetrievedSongInfo, SerializedIdentifier, Song, SongSearchInformation};
use vstd::prelude::*;
use vstd::string::StringExecFns;

verus! {

/// The id under which this engine is registered.
pub const ENGINE_ID: &'static str = "pyncm";

/// The response of the track audio endpoint.
#[derive(Debug, Clone)]
pub struct PyNCMResponse {
    /// The status code of this response.
    pub code: i32,
    /// One entry for each track that the service knows of.
    pub data: Vec<PyNCMResponseEntry>,
}

/// One track of a response.
#[derive(Debug, Clone)]
pub struct PyNCMResponseEntry {
    /// The NCM ID of this song.
    pub id: String,
    /// The URL of this song.
    pub url: Option<String>,
}

/// What keeps this engine from an answer.
#[derive(Debug)]
pub enum PyNCMError {
    /// The address of the request is no URL.
    InvalidUrl(url::ParseError),
    /// The service answered with a status code other than 200.
    RequestFailed { code: i32 },
}

/// `url::ParseError`, carried through as it is.
#[verifier::external_type_specification]
#[verifier::external_body]
pub struct ExParseError(url::ParseError);

/// The URL that `url::Url::parse` reads from `raw`, written out again;
/// `None` where it reads none.
pub uninterp spec fn parsed_url(raw: Seq<char>) -> Option<Seq<char>>;

/// Calls `url::Url::parse` and writes the URL out as a string. The parser
/// is a function of its input alone.
#[verifier::external_body]
fn parse_url(raw: &str) -> (url: Result<String, url::ParseError>)
    ensures
        match url {
            Ok(text) => parsed_url(raw@) == Some(text@),
            Err(_) => parsed_url(raw@) is None,
        },
{
    url::Url::parse(raw).map(String::from)
}

/// The track audio endpoint, up to the song id.
pub open spec fn endpoint() -> Seq<char> {
    "https://service-ghlrryee-1308098780.gz.apigw.tencentcs.com/release/pyncmd/track/GetTrackAudio?song_ids="@
}

/// The bitrate to ask for: lossless where FLAC is enabled.
pub open spec fn bitrate_of(enable_flac: bool) -> Seq<char> {
    if enable_flac {
        "999000"@
    } else {
        "320000"@
    }
}

/// The address to ask for the audio of the song `id`, before it is parsed.
pub open spec fn track_audio_address(id: Seq<char>, enable_flac: bool) -> Seq<char> {
    endpoint() + id + "&bitrate="@ + bitrate_of(enable_flac)
}

/// `entry` is the song `song_id` with a URL to it.
pub open spec fn is_match(entry: PyNCMResponseEntry, song_id: Seq<char>) -> bool {
    entry.id@ == song_id && entry.url is Some
}

/// The entry at `at` is the first of `data` that is a match for `song_id`.
pub open spec fn first_match_at(data: Seq<PyNCMResponseEntry>, song_id: Seq<char>, at: int) -> bool {
    &&& 0 <= at < data.len()
    &&& is_match(data[at], song_id)
    &&& forall|j: int| 0 <= j < at ==> !is_match(#[trigger] data[j], song_id)
}

/// No entry of `data` is a match for `song_id`.
pub open spec fn none_matches(data: Seq<PyNCMResponseEntry>, song_id: Seq<char>) -> bool {
    forall|j: int| 0 <= j < data.len() ==> !is_match(#[trigger] data[j], song_id)
}

/// What `find_match` returns: the URL of the first match; `None`, and no
/// error, where the entries hold no match.
pub open spec fn found_in(
    data: Seq<PyNCMResponseEntry>,
    song_id: Seq<char>,
    result: Result<Option<String>, PyNCMError>,
) -> bool {
    match result {
        Ok(Some(url)) => exists|at: int| #[trigger]
            first_match_at(data, song_id, at) && data[at].url == Some(url),
        Ok(None) => none_matches(data, song_id),
        Err(_) => false,
    }
}

/// Find the matched song in the entries of a response: the first entry
/// with the id `song_id` and a URL. That there is none is no failure: the
/// service was reached and has no matching content.
pub fn find_match(data: &[PyNCMResponseEntry], song_id: &String) -> (result: Result<
    Option<String>,
    PyNCMError,
>)
    ensures
        found_in(data@, song_id@, result),
{
    let mut at: usize = 0;
    while at < data.len()
        invariant
            at <= data@.len(),
            forall|j: int| 0 <= j < at ==> !is_match(#[trigger] data@[j], song_id@),
        decreases data@.len() - at,
    {
        let entry = &data[at];
        if entry.id == *song_id && entry.url.is_some() {
            assert(first_match_at(data@, song_id@, at as int));
            return Ok(entry.url.clone());
        }
        at = at + 1;
    }
    Ok(None)
}

/// What a search makes of `response`: a response with the code 200 yields
/// the first match under this engine's id, or no match; any other code is
/// an error.
pub open spec fn search_result(
    response: PyNCMResponse,
    song_id: Seq<char>,
    result: Result<Option<SongSearchInformation>, PyNCMError>,
) -> bool {
    if response.code == 200 {
        match result {
            Ok(Some(info)) => {
                &&& info.source@ == ENGINE_ID@
                &&& info.song is None
                &&& found_in(response.data@, song_id, Ok(Some(info.identifier)))
            },
            Ok(None) => none_matches(response.data@, song_id),
            Err(_) => false,
        }
    } else {
        result matches Err(PyNCMError::RequestFailed { code }) && code == response.code
    }
}

/// A response either holds a match for a song id or holds none, never
/// both: so a search that the service answers with the code 200 returns a
/// match exactly when the response holds one, and no match exactly when it
/// holds none.
pub proof fn law_match_or_none(data: Seq<PyNCMResponseEntry>, song_id: Seq<char>)
    ensures
        none_matches(data, song_id) <==> !exists|at: int| first_match_at(data, song_id, at),
    decreases data.len(),
{
    if !none_matches(data, song_id) {
        let j = choose|j: int| 0 <= j < data.len() && is_match(#[trigger] data[j], song_id);
        lemma_first_match_exists(data, song_id, j);
    }
    if exists|at: int| first_match_at(data, song_id, at) {
        let at = choose|at: int| first_match_at(data, song_id, at);
        assert(is_match(data[at], song_id));
    }
}

/// Where some entry is a match, some entry is the first match.
proof fn lemma_first_match_exists(data: Seq<PyNCMResponseEntry>, song_id: Seq<char>, at: int)
    requires
        0 <= at < data.len(),
        is_match(data[at], song_id),
    ensures
        exists|first: int| first_match_at(data, song_id, first),
    decreases at,
{
    if exists|j: int| 0 <= j < at && is_match(#[trigger] data[j], song_id) {
        let j = choose|j: int| 0 <= j < at && is_match(#[trigger] data[j], song_id);
        lemma_first_match_exists(data, song_id, j);
    } else {
        assert(first_match_at(data, song_id, at));
    }
}

/// The `pyncm` engine that can fetch audio from the unofficial Netease
/// Cloud Music API.
#[derive(Debug, Clone, Copy)]
pub struct PyNCMEngine;

impl PyNCMEngine {
    /// The address to ask for the audio of `song` under `ctx`, as a URL.
    pub fn request_url(&self, song: &Song, ctx: &Context) -> (url: Result<String, PyNCMError>)
        ensures
            match parsed_url(track_audio_address(song.id@, ctx.enable_flac)) {
                Some(text) => url matches Ok(address) && address@ == text,
                None => url matches Err(PyNCMError::InvalidUrl(_)),
            },
    {
        let mut address = String::from_str(
            "https://service-ghlrryee-1308098780.gz.apigw.tencentcs.com/release/pyncmd/track/GetTrackAudio?song_ids=",
        );
        address.append(song.id.as_str());
        address.append("&bitrate=");
        if ctx.enable_flac {
            address.append("999000");
        } else {
            address.append("320000");
        }
        match parse_url(address.as_str()) {
            Ok(url) => Ok(url),
            Err(error) => Err(PyNCMError::InvalidUrl(error)),
        }
    }

    /// The answer to a search for `song`, given what the service responded.
    /// The URL found is handed out as the identifier, so that `retrieve`
    /// has nothing to ask.
    pub fn search(&self, song: &Song, response: &PyNCMResponse) -> (result: Result<
        Option<SongSearchInformation>,
        PyNCMError,
    >)
        ensures
            search_result(*response, song.id@, result),
    {
        if response.code == 200 {
            match find_match(response.data.as_slice(), &song.id) {
                Ok(Some(url)) => Ok(
                    Some(
                        SongSearchInformation {
                            source: String::from_str(ENGINE_ID),
                            identifier: url,
                            song: None,
                        },
                    ),
                ),
                Ok(None) => Ok(None),
                Err(error) => Err(error),
            }
        } else {
            Err(PyNCMError::RequestFailed { code: response.code })
        }
    }

    /// Resolve an identifier that `search` issued: the identifier is the
    /// URL of the song.
    pub fn retrieve(&self, identifier: &SerializedIdentifier, ctx: &Context) -> (result: Result<
        RetrievedSongInfo,
        PyNCMError,
    >)
        ensures
            result matches Ok(info) && info.source@ == ENGINE_ID@ && info.url@ == identifier@,
    {
        Ok(RetrievedSongInfo { source: String::from_str(ENGINE_ID), url: identifier.clone() })
    }
}

} // verus!
