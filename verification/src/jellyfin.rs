//! Jellyfin items as the server describes them, and how they become tracks
//! and playlists: artwork URL, stream URL, audio quality and credentials.
use crate::models::{opt_view, Playlist, Source, Track};
use crate::providers::ProviderError;
use crate::text::{concat, eq_ignore_ascii_case, eq_ignore_ascii_case_spec, text_eq};
use vstd::prelude::*;
use vstd::string::*;

verus! {

/// One stream (audio, video, ...) of a Jellyfin media item.
#[derive(Debug, Clone)]
pub struct JellyfinMediaStream {
    pub stream_type: Option<String>,
    pub bit_rate: Option<u32>,
    pub sample_rate: Option<u32>,
}

/// One media source (file) of a Jellyfin item.
#[derive(Debug, Clone)]
pub struct JellyfinMediaSource {
    pub bitrate: Option<u32>,
    pub media_streams: Option<Vec<JellyfinMediaStream>>,
}

/// A Jellyfin library item (track, playlist, ...).
#[derive(Debug, Clone)]
pub struct JellyfinItem {
    pub id: String,
    pub name: String,
    pub item_type: String,
    pub album: Option<String>,
    pub album_id: Option<String>,
    pub artists: Option<Vec<String>>,
    pub runtime_ticks: Option<u64>,
    /// The "Primary" entry of the item's image tags, when it is a string.
    pub primary_image_tag: Option<String>,
    pub album_primary_image_tag: Option<String>,
    pub child_count: Option<u32>,
    pub recursive_item_count: Option<u32>,
    pub bitrate: Option<u32>,
    pub sample_rate: Option<u32>,
    pub media_streams: Option<Vec<JellyfinMediaStream>>,
    pub media_sources: Option<Vec<JellyfinMediaSource>>,
}

/// The stream is an audio stream (its type is "Audio", ignoring ASCII case).
pub open spec fn is_audio_stream(s: JellyfinMediaStream) -> bool {
    s.stream_type matches Some(t) && eq_ignore_ascii_case_spec(t@, "Audio"@)
}

/// `r` is the index of the first audio stream, or `None` when there is none.
pub open spec fn is_first_audio(streams: Seq<JellyfinMediaStream>, r: Option<usize>) -> bool {
    match r {
        Some(i) => i < streams.len() && is_audio_stream(streams[i as int]) && forall|j: int|
            0 <= j < i ==> !is_audio_stream(#[trigger] streams[j]),
        None => forall|j: int| 0 <= j < streams.len() ==> !is_audio_stream(#[trigger] streams[j]),
    }
}

/// The index of the first audio stream.
pub fn first_audio_stream(streams: &Vec<JellyfinMediaStream>) -> (r: Option<usize>)
    ensures
        is_first_audio(streams@, r),
{
    let mut i: usize = 0;
    while i < streams.len()
        invariant
            i <= streams@.len(),
            forall|j: int| 0 <= j < i ==> !is_audio_stream(#[trigger] streams@[j]),
        decreases streams@.len() - i,
    {
        let is_audio = match &streams[i].stream_type {
            Some(t) => eq_ignore_ascii_case(t.as_str(), "Audio"),
            None => false,
        };
        if is_audio {
            return Some(i);
        }
        i = i + 1;
    }
    None
}

/// A bit rate in kbit/s.
pub open spec fn kbps(rate: Option<u32>) -> Option<u32> {
    match rate {
        Some(v) => Some((v / 1000) as u32),
        None => None,
    }
}

fn to_kbps(rate: Option<u32>) -> (r: Option<u32>)
    ensures
        r == kbps(rate),
{
    match rate {
        Some(v) => Some(v / 1000),
        None => None,
    }
}

/// The bit rate (kbit/s) and sample rate (Hz) of an item: from the first
/// audio stream of its first media source (the source's bit rate when the
/// stream has none), else the source's bit rate alone, else the first audio
/// stream of the item, else the item's own fields.
pub open spec fn audio_quality_spec(item: JellyfinItem) -> (Option<u32>, Option<u32>) {
    let from_item = (kbps(item.bitrate), item.sample_rate);
    let from_item_streams = match item.media_streams {
        Some(streams) => if exists|i: usize| is_first_audio(streams@, Some(i)) {
            let i = choose|i: usize| is_first_audio(streams@, Some(i));
            (kbps(streams@[i as int].bit_rate), streams@[i as int].sample_rate)
        } else {
            from_item
        },
        None => from_item,
    };
    let expected = match item.media_sources {
        Some(sources) => if sources@.len() > 0 {
            let source = sources@[0];
            let after_source = if source.bitrate is Some {
                (kbps(source.bitrate), None)
            } else {
                from_item_streams
            };
            match source.media_streams {
                Some(streams) => if exists|i: usize| is_first_audio(streams@, Some(i)) {
                    let i = choose|i: usize| is_first_audio(streams@, Some(i));
                    (
                        match kbps(streams@[i as int].bit_rate) {
                            Some(b) => Some(b),
                            None => kbps(source.bitrate),
                        },
                        streams@[i as int].sample_rate,
                    )
                } else {
                    after_source
                },
                None => after_source,
            }
        } else {
            from_item_streams
        },
        None => from_item_streams,
    };
    expected
}

/// The bit rate (kbit/s) and sample rate (Hz) of an item, as
/// `audio_quality_spec` describes.
pub fn audio_quality(item: &JellyfinItem) -> (r: (Option<u32>, Option<u32>))
    ensures
        r == audio_quality_spec(*item),
{
    if let Some(sources) = &item.media_sources {
        if sources.len() > 0 {
            let source = &sources[0];
            if let Some(streams) = &source.media_streams {
                let found = first_audio_stream(streams);
                proof { lemma_first_audio_choice(streams@, found); }
                if let Some(i) = found {
                    let stream = &streams[i];
                    let bitrate_kbps = to_kbps(stream.bit_rate);
                    let fallback = to_kbps(source.bitrate);
                    let b = match bitrate_kbps {
                        Some(b) => Some(b),
                        None => fallback,
                    };
                    return (b, stream.sample_rate);
                }
            }
            if source.bitrate.is_some() {
                return (to_kbps(source.bitrate), None);
            }
        }
    }
    if let Some(streams) = &item.media_streams {
        let found = first_audio_stream(streams);
        proof { lemma_first_audio_choice(streams@, found); }
        if let Some(i) = found {
            let stream = &streams[i];
            return (to_kbps(stream.bit_rate), stream.sample_rate);
        }
    }
    (to_kbps(item.bitrate), item.sample_rate)
}

/// The first-audio-stream characterisation determines the index.
proof fn lemma_first_audio_choice(streams: Seq<JellyfinMediaStream>, found: Option<usize>)
    requires
        is_first_audio(streams, found),
    ensures
        found matches Some(i) ==> (exists|k: usize| is_first_audio(streams, Some(k))) && (choose|
            k: usize,
        | is_first_audio(streams, Some(k))) == i,
        found is None ==> !(exists|k: usize| is_first_audio(streams, Some(k))),
{
    match found {
        Some(i) => {
            assert(is_first_audio(streams, Some(i)));
            let c = choose|k: usize| is_first_audio(streams, Some(k));
            if c < i {
                assert(!is_audio_stream(streams[c as int]));
            } else if i < c {
                assert(!is_audio_stream(streams[i as int]));
            }
        },
        None => {
            assert forall|k: usize| !is_first_audio(streams, Some(k)) by {
                if is_first_audio(streams, Some(k)) {
                    assert(!is_audio_stream(streams[k as int]));
                }
            }
        },
    }
}

/// The artwork URL of an image of item `id` with tag `tag`.
pub open spec fn image_url_spec(base_url: Seq<char>, api_key: Seq<char>, id: Seq<char>, tag: Seq<char>) -> Seq<char> {
    base_url + "/Items/"@ + id + "/Images/Primary?tag="@ + tag + "&api_key="@ + api_key
}

fn primary_image_url(base_url: &str, api_key: &str, id: &str, tag: &str) -> (r: String)
    ensures
        r@ == image_url_spec(base_url@, api_key@, id@, tag@),
{
    let a = concat(base_url, "/Items/");
    let b = concat(a.as_str(), id);
    let c = concat(b.as_str(), "/Images/Primary?tag=");
    let d = concat(c.as_str(), tag);
    let e = concat(d.as_str(), "&api_key=");
    concat(e.as_str(), api_key)
}

/// The artwork of an item: for audio tracks the album's primary image, else
/// (or when the album has none) the item's own primary image.
pub open spec fn item_image_spec(base_url: Seq<char>, api_key: Seq<char>, item: JellyfinItem) -> Option<Seq<char>> {
    if item.item_type@ == "Audio"@ && item.album_id is Some && item.album_primary_image_tag is Some {
        Some(image_url_spec(base_url, api_key, item.album_id.unwrap()@, item.album_primary_image_tag.unwrap()@))
    } else {
        match item.primary_image_tag {
            Some(tag) => Some(image_url_spec(base_url, api_key, item.id@, tag@)),
            None => None,
        }
    }
}

/// The artwork URL of an item, if it has one.
pub fn image_url(base_url: &str, api_key: &str, item: &JellyfinItem) -> (r: Option<String>)
    ensures
        opt_view(r) == item_image_spec(base_url@, api_key@, *item),
{
    if text_eq(item.item_type.as_str(), "Audio") {
        if let (Some(album_id), Some(album_tag)) = (&item.album_id, &item.album_primary_image_tag) {
            return Some(primary_image_url(base_url, api_key, album_id.as_str(), album_tag.as_str()));
        }
    }
    match &item.primary_image_tag {
        Some(tag) => Some(primary_image_url(base_url, api_key, item.id.as_str(), tag.as_str())),
        None => None,
    }
}

/// The value of the Jellyfin authorization header for an API key.
pub open spec fn authorization_value(api_key: Seq<char>) -> Seq<char> {
    "MediaBrowser Token=\""@ + api_key
        + "\", Client=\"AnyPlayer\", Device=\"AnyPlayer\", DeviceId=\"AnyPlayer\", Version=\"1.0.0\""@
}

/// The headers a streaming request to the server needs.
pub fn auth_headers(api_key: &str) -> (r: Vec<(String, String)>)
    ensures
        r@.len() == 2,
        r@[0].0@ == "X-Emby-Token"@,
        r@[0].1@ == api_key@,
        r@[1].0@ == "X-Emby-Authorization"@,
        r@[1].1@ == authorization_value(api_key@),
{
    let mut v: Vec<(String, String)> = Vec::new();
    v.push((String::from_str("X-Emby-Token"), String::from_str(api_key)));
    let head = concat("MediaBrowser Token=\"", api_key);
    let value = concat(
        head.as_str(),
        "\", Client=\"AnyPlayer\", Device=\"AnyPlayer\", DeviceId=\"AnyPlayer\", Version=\"1.0.0\"",
    );
    v.push((String::from_str("X-Emby-Authorization"), value));
    v
}

/// The stream URL of a track on the server, for a user.
pub open spec fn stream_url_spec(base_url: Seq<char>, id: Seq<char>, user_id: Seq<char>) -> Seq<char> {
    base_url + "/Audio/"@ + id + "/universal?UserId="@ + user_id
        + "&Container=opus,mp3,aac,m4a,flac,webma,webm,wav,ogg&AudioCodec=aac,mp3,vorbis,opus"@
}

/// The track an audio item describes: first artist (or "Unknown Artist"),
/// album (or "Unknown Album"), run time in milliseconds (10,000 ticks each),
/// artwork, a stream URL for the user and the streaming credentials.
pub fn item_to_track(base_url: &str, api_key: &str, user_id: Option<&str>, item: &JellyfinItem) -> (r: Track)
    ensures
        r.id@ == item.id@,
        r.title@ == item.name@,
        r.artist@ == (match item.artists {
            Some(a) => if a@.len() > 0 {
                a@[0]@
            } else {
                "Unknown Artist"@
            },
            None => "Unknown Artist"@,
        }),
        r.album@ == (match item.album {
            Some(a) => a@,
            None => "Unknown Album"@,
        }),
        r.duration_ms == (match item.runtime_ticks {
            Some(t) => (t / 10000) as u64,
            None => 0u64,
        }),
        opt_view(r.image_url) == item_image_spec(base_url@, api_key@, *item),
        r.source == Source::Jellyfin,
        opt_view(r.url) == Some(stream_url_spec(
            base_url@,
            item.id@,
            match user_id {
                Some(u) => u@,
                None => Seq::<char>::empty(),
            },
        )),
        r.auth_headers matches Some(h) && h@.len() == 2 && h@[0].0@ == "X-Emby-Token"@ && h@[0].1@
            == api_key@ && h@[1].0@ == "X-Emby-Authorization"@ && h@[1].1@ == authorization_value(
            api_key@,
        ),
        (r.bitrate_kbps, r.sample_rate_hz) == audio_quality_spec(*item),
        !r.enriched,
{
    let duration_ms: u64 = match item.runtime_ticks {
        Some(ticks) => ticks / 10000,
        None => 0,
    };
    let artist = match &item.artists {
        Some(artists) => if artists.len() > 0 {
            artists[0].clone()
        } else {
            String::from_str("Unknown Artist")
        },
        None => String::from_str("Unknown Artist"),
    };
    let album = match &item.album {
        Some(a) => a.clone(),
        None => String::from_str("Unknown Album"),
    };
    let (bitrate_kbps, sample_rate_hz) = audio_quality(item);
    let user = match user_id {
        Some(u) => String::from_str(u),
        None => String::new(),
    };
    let a = concat(base_url, "/Audio/");
    let b = concat(a.as_str(), item.id.as_str());
    let c = concat(b.as_str(), "/universal?UserId=");
    let d = concat(c.as_str(), user.as_str());
    let stream_url = concat(
        d.as_str(),
        "&Container=opus,mp3,aac,m4a,flac,webma,webm,wav,ogg&AudioCodec=aac,mp3,vorbis,opus",
    );
    Track {
        id: item.id.clone(),
        title: item.name.clone(),
        artist,
        album,
        duration_ms,
        image_url: image_url(base_url, api_key, item),
        source: Source::Jellyfin,
        url: Some(stream_url),
        bitrate_kbps,
        sample_rate_hz,
        auth_headers: Some(auth_headers(api_key)),
        enriched: false,
    }
}

/// The playlist an item describes, without its tracks; its track count is
/// the item's child count, else its recursive item count, else 0.
pub fn item_to_playlist(base_url: &str, api_key: &str, item: &JellyfinItem) -> (r: Playlist)
    ensures
        r.id@ == item.id@,
        r.name@ == item.name@,
        r.description is None,
        r.owner@ == "Jellyfin"@,
        opt_view(r.image_url) == item_image_spec(base_url@, api_key@, *item),
        r.track_count == (match item.child_count {
            Some(c) => c as usize,
            None => match item.recursive_item_count {
                Some(c) => c as usize,
                None => 0usize,
            },
        }),
        r.tracks@.len() == 0,
        r.source == Source::Jellyfin,
{
    let track_count: usize = match item.child_count {
        Some(c) => c as usize,
        None => match item.recursive_item_count {
            Some(c) => c as usize,
            None => 0,
        },
    };
    Playlist {
        id: item.id.clone(),
        name: item.name.clone(),
        description: None,
        owner: String::from_str("Jellyfin"),
        image_url: image_url(base_url, api_key, item),
        track_count,
        tracks: Vec::new(),
        source: Source::Jellyfin,
    }
}

/// The server URL and API key of a Jellyfin sign-in request.
pub fn jellyfin_credentials(url: Option<&str>, api_key: Option<&str>) -> (r: Result<(String, String), ProviderError>)
    ensures
        url is None ==> (r matches Err(e) && e.0@ == "Missing Jellyfin url"@),
        url is Some && api_key is None ==> (r matches Err(e) && e.0@ == "Missing Jellyfin api_key"@),
        url is Some && api_key is Some ==> (r matches Ok(pair) && pair.0@ == url.unwrap()@ && pair.1@
            == api_key.unwrap()@),
{
    let url = match url {
        Some(u) => u,
        None => return Err(ProviderError(String::from_str("Missing Jellyfin url"))),
    };
    let api_key = match api_key {
        Some(k) => k,
        None => return Err(ProviderError(String::from_str("Missing Jellyfin api_key"))),
    };
    Ok((String::from_str(url), String::from_str(api_key)))
}

} // verus!
