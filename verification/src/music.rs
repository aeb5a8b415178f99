//! The music commands' decisions and replies: how a `/play` query is routed,
//! when a track is fetched, how the queue is listed, how many skips a `/skip`
//! makes, what `/volume` sets and what each command answers. The voice
//! connection, the track queue and the YouTube lookups are driven by the caller.

use vstd::prelude::*;
use crate::text::decimal;
use crate::text::nat_string;
use crate::text::int_string;
use crate::text::push_str;
use crate::text::seq_contains;
use crate::text::seq_join;
use crate::text::views;
use crate::text::str_contains;
use crate::text::str_eq;
use crate::text::join_strings;
use vstd::string::StringSliceAdditionalSpecFns;

verus! {

/// What `url::Url::parse` gives for a query, seen through `Url::host_str`
/// and the URL's serialization (`Url::as_str`, also what `to_string`
/// writes): `None` when the query does not parse as a URL, otherwise the host
/// (if any) and the serialized URL. The parse follows the WHATWG URL
/// standard and depends on the query alone.
pub uninterp spec fn parsed_url(query: Seq<char>) -> Option<(Option<Seq<char>>, Seq<char>)>;

/// The plain view of a parsed URL.
pub open spec fn url_view(parsed: Option<(Option<String>, String)>) -> Option<(Option<Seq<char>>, Seq<char>)> {
    match parsed {
        None => None,
        Some((None, u)) => Some((None, u@)),
        Some((Some(h), u)) => Some((Some(h@), u@)),
    }
}

/// Parses `query` with `url::Url::parse` and, where that succeeds, gives the
/// URL's `host_str` and its serialization. The result is the named
/// `parsed_url` of the query; nothing more of the URL parser is stated.
#[verifier::external_body]
fn parse_url(query: &str) -> (r: Option<(Option<String>, String)>)
    ensures
        url_view(r) == parsed_url(query@),
{
    match url::Url::parse(query) {
        Ok(url) => Some((url.host_str().map(|h| h.to_owned()), url.as_str().to_owned())),
        Err(_) => None,
    }
}

/// The hosts whose URLs the bot plays from.
pub open spec fn youtube_host(host: Seq<char>) -> bool {
    ||| host == "youtube.com"@
    ||| host == "youtu.be"@
    ||| host == "www.youtube.com"@
    ||| host == "m.youtube.com"@
    ||| host == "music.youtube.com"@
}

/// Whether `host` is one of the YouTube hosts.
pub fn is_youtube_host(host: &str) -> (b: bool)
    ensures
        b == youtube_host(host@),
{
    str_eq(host, "youtube.com") || str_eq(host, "youtu.be") || str_eq(host, "www.youtube.com")
        || str_eq(host, "m.youtube.com") || str_eq(host, "music.youtube.com")
}

/// The query parses as a URL that has no host (as `mailto:` and `data:` URLs
/// do): the player cannot take it.
pub open spec fn url_without_host(parsed: Option<(Option<Seq<char>>, Seq<char>)>) -> bool {
    parsed matches Some((None, _))
}

/// How `/play` handles its query (a URL or a search).
#[derive(Clone, Copy, Debug, PartialEq, Eq)]
pub enum PlayRoute {
    /// A YouTube URL that names a playlist: each of its entries is queued.
    Playlist,
    /// Another URL: it is queued as one track (if it is a YouTube one).
    Track,
    /// Not a URL: the query is searched for, and the first result queued.
    Search,
}

/// The route of a query, given what the URL parser made of it.
pub open spec fn play_route_spec(parsed: Option<(Option<Seq<char>>, Seq<char>)>, query: &str) -> PlayRoute {
    match parsed {
        Some((Some(host), _)) => if youtube_host(host) && seq_contains(query.spec_bytes(), "playlist".spec_bytes()) {
            PlayRoute::Playlist
        } else {
            PlayRoute::Track
        },
        Some((None, _)) => PlayRoute::Track,
        None => PlayRoute::Search,
    }
}

/// The route of `query`, given `parsed`, what the URL parser made of it
/// (which must not be a URL without a host).
pub fn play_route(parsed: &Option<(Option<String>, String)>, query: &str) -> (r: PlayRoute)
    requires
        !url_without_host(url_view(*parsed)),
    ensures
        r == play_route_spec(url_view(*parsed), query),
{
    match parsed {
        Some((Some(host), _)) => {
            if is_youtube_host(host.as_str()) && str_contains(query, "playlist") {
                PlayRoute::Playlist
            } else {
                PlayRoute::Track
            }
        },
        Some((None, _)) => PlayRoute::Track,
        None => PlayRoute::Search,
    }
}

/// The UTF-8 bytes of the word `playlist`.
pub open spec fn playlist_word() -> Seq<u8> {
    seq![112u8, 108u8, 97u8, 121u8, 108u8, 105u8, 115u8, 116u8]
}

proof fn lemma_playlist_literal_bytes()
    ensures
        "playlist".spec_bytes() == playlist_word(),
{
    reveal_strlit("playlist");
    let s = "playlist";
    assert(s@.len() == 8);
    assert(vstd::string::is_ascii(s));
    vstd::string::is_ascii_spec_bytes(s);
    assert(s.spec_bytes() =~= playlist_word());
}

/// For a URL on one of the five YouTube hosts, `/play` loads a playlist
/// exactly when the query's text holds the word `playlist`; otherwise it
/// plays the one track (so a watch link with only `v=` and `list=` plays the
/// one video).
pub proof fn youtube_playlist_exactly_when_named(host: Seq<char>, url: Seq<char>, query: &str)
    requires
        host == "youtube.com"@ || host == "youtu.be"@ || host == "www.youtube.com"@
            || host == "m.youtube.com"@ || host == "music.youtube.com"@,
    ensures
        (play_route_spec(Some((Some(host), url)), query) == PlayRoute::Playlist)
            <==> seq_contains(query.spec_bytes(), playlist_word()),
        !seq_contains(query.spec_bytes(), playlist_word())
            ==> play_route_spec(Some((Some(host), url)), query) == PlayRoute::Track,
{
    lemma_playlist_literal_bytes();
}

/// `/play` never loads a playlist from a host outside the five YouTube ones,
/// and a query that is no URL is searched for.
pub proof fn playlist_only_from_youtube(host: Seq<char>, url: Seq<char>, query: &str)
    requires
        host != "youtube.com"@ && host != "youtu.be"@ && host != "www.youtube.com"@
            && host != "m.youtube.com"@ && host != "music.youtube.com"@,
    ensures
        play_route_spec(Some((Some(host), url)), query) == PlayRoute::Track,
        play_route_spec(None, query) == PlayRoute::Search,
{
}

/// What `/play` does first: join the caller's voice channel when the bot has
/// no call in the guild yet, then follow the route of the query. `url` is the
/// serialized URL where the query is one.
#[derive(Debug, PartialEq, Eq)]
pub struct PlayPlan {
    pub join_first: bool,
    pub route: PlayRoute,
    pub url: Option<String>,
}

/// `p` is the plan of `/play` for a query that the URL parser made `parsed` of.
pub open spec fn play_plan_spec(p: PlayPlan, in_call: bool, parsed: Option<(Option<Seq<char>>, Seq<char>)>, query: &str) -> bool {
    &&& p.join_first == !in_call
    &&& p.route == play_route_spec(parsed, query)
    &&& match parsed {
        Some((_, u)) => p.url matches Some(x) && x@ == u,
        None => p.url is None,
    }
}

/// The plan of `/play` for `query`; `in_call` tells whether the bot already
/// has a call in the guild. The query must not be a URL without a host.
pub fn play(in_call: bool, query: &str) -> (p: PlayPlan)
    requires
        !url_without_host(parsed_url(query@)),
    ensures
        play_plan_spec(p, in_call, parsed_url(query@), query),
{
    let parsed = parse_url(query);
    let route = play_route(&parsed, query);
    let url = match parsed {
        Some((_, u)) => Some(u),
        None => None,
    };
    PlayPlan { join_first: !in_call, route, url }
}

/// Parses `query` and tells whether it is a URL without a host.
pub fn is_url_without_host(query: &str) -> (b: bool)
    ensures
        b == url_without_host(parsed_url(query@)),
{
    match parse_url(query) {
        Some((None, _)) => true,
        _ => false,
    }
}

/// `/play` for any query: the plan, or `None` for a URL without a host,
/// which the command cannot take.
pub fn try_play(in_call: bool, query: &str) -> (r: Option<PlayPlan>)
    ensures
        r is None <==> url_without_host(parsed_url(query@)),
        r matches Some(p) ==> play_plan_spec(p, in_call, parsed_url(query@), query),
{
    if is_url_without_host(query) {
        return None;
    }
    Some(play(in_call, query))
}

/// What happens to one query handed to the player.
#[derive(Debug, PartialEq, Eq)]
pub enum TrackRequest {
    /// Fetch the YouTube source at this (serialized) URL and queue it.
    Fetch(String),
    /// Search YouTube for this text and queue the first result.
    Search(String),
    /// Answer with this text and queue nothing.
    Refuse(String),
}

/// `r` is what the player does with `query`, given whether the bot has a
/// call and what the URL parser made of the query.
pub open spec fn track_request_spec(
    r: TrackRequest,
    in_call: bool,
    parsed: Option<(Option<Seq<char>>, Seq<char>)>,
    query: Seq<char>,
) -> bool {
    if !in_call {
        r matches TrackRequest::Refuse(m) && m@ == "Failed to get guild."@
    } else {
        match parsed {
            None => r matches TrackRequest::Search(q) && q@ == query,
            Some((None, _)) => false,
            Some((Some(host), url)) => if youtube_host(host) {
                r matches TrackRequest::Fetch(u) && u@ == url
            } else {
                r matches TrackRequest::Refuse(m) && m@ == "Support only YouTube URL"@
            },
        }
    }
}

/// With a call, a URL on one of the five YouTube hosts is fetched at its
/// serialized form, never refused.
pub proof fn youtube_urls_are_fetched(r: TrackRequest, host: Seq<char>, url: Seq<char>, query: Seq<char>)
    requires
        track_request_spec(r, true, Some((Some(host), url)), query),
        host == "youtube.com"@ || host == "youtu.be"@ || host == "www.youtube.com"@
            || host == "m.youtube.com"@ || host == "music.youtube.com"@,
    ensures
        r matches TrackRequest::Fetch(u) && u@ == url,
{
}

/// With a call, a URL on any other host is refused with `Support only
/// YouTube URL`, and a query that is no URL is searched for as it is.
pub proof fn other_queries_are_refused_or_searched(r: TrackRequest, host: Seq<char>, url: Seq<char>, query: Seq<char>, r2: TrackRequest)
    requires
        track_request_spec(r, true, Some((Some(host), url)), query),
        host != "youtube.com"@ && host != "youtu.be"@ && host != "www.youtube.com"@
            && host != "m.youtube.com"@ && host != "music.youtube.com"@,
        track_request_spec(r2, true, None, query),
    ensures
        r matches TrackRequest::Refuse(m) && m@ == "Support only YouTube URL"@,
        r2 matches TrackRequest::Search(q) && q@ == query,
{
}

/// What the player does with `query`, given `parsed`, what the URL parser
/// made of it (with a call, it must not be a URL without a host).
pub fn track_request(in_call: bool, parsed: Option<(Option<String>, String)>, query: &str) -> (r: TrackRequest)
    requires
        in_call ==> !url_without_host(url_view(parsed)),
    ensures
        track_request_spec(r, in_call, url_view(parsed), query@),
{
    if !in_call {
        return TrackRequest::Refuse("Failed to get guild.".to_owned());
    }
    match parsed {
        None => TrackRequest::Search(query.to_owned()),
        Some((None, _)) => {
            assert(false);
            TrackRequest::Refuse(String::new())
        },
        Some((Some(host), url)) => {
            if is_youtube_host(host.as_str()) {
                TrackRequest::Fetch(url)
            } else {
                TrackRequest::Refuse("Support only YouTube URL".to_owned())
            }
        },
    }
}

/// What the player does with `query`: a search text is searched for on
/// YouTube, a URL is fetched only if it is a YouTube one, and nothing happens
/// without a call in the guild. With a call, the query must not be a URL
/// without a host.
pub fn play_internal(in_call: bool, query: &str) -> (r: TrackRequest)
    requires
        in_call ==> !url_without_host(parsed_url(query@)),
    ensures
        track_request_spec(r, in_call, parsed_url(query@), query@),
{
    if !in_call {
        return track_request(false, None, query);
    }
    let parsed = parse_url(query);
    track_request(true, parsed, query)
}

/// The player for any query: what it does, or `None` when it has a call and
/// the query is a URL without a host, which it cannot take.
pub fn try_play_internal(in_call: bool, query: &str) -> (r: Option<TrackRequest>)
    ensures
        r is None <==> (in_call && url_without_host(parsed_url(query@))),
        r matches Some(t) ==> track_request_spec(t, in_call, parsed_url(query@), query@),
{
    if in_call && is_url_without_host(query) {
        return None;
    }
    Some(play_internal(in_call, query))
}

/// How a fetched track enters the queue.
#[derive(Clone, Copy, Debug, PartialEq, Eq)]
pub enum EnqueueMode {
    /// Nothing is playing: queue it and start it at once.
    PlayNow,
    /// Something is playing: queue it and preload it `PRELOAD_SECS` ahead.
    Preload,
}

/// How many seconds ahead a queued track behind a playing one is loaded.
pub const PRELOAD_SECS: u64 = 10;

/// How a fetched track enters the queue, given whether a track is current.
pub fn enqueue_mode(has_current: bool) -> (m: EnqueueMode)
    ensures
        m == (if has_current { EnqueueMode::Preload } else { EnqueueMode::PlayNow }),
{
    if has_current { EnqueueMode::Preload } else { EnqueueMode::PlayNow }
}

/// An optional text, or a default where it is absent.
pub open spec fn or_default(text: Option<String>, default: Seq<char>) -> Seq<char> {
    match text {
        Some(t) => t@,
        None => default,
    }
}

/// The label of a queued track: its title in backticks (or `Unknown Title`),
/// then `by` and its channel. Without a channel there is no label.
pub open spec fn track_label_spec(title: Option<String>, channel: Option<String>) -> Option<Seq<char>> {
    match channel {
        Some(c) => Some("`"@ + or_default(title, "Unknown Title"@) + "` by "@ + c@),
        None => None,
    }
}

/// The label of a queued track, from its metadata.
pub fn track_label(title: Option<String>, channel: Option<String>) -> (r: Option<String>)
    ensures
        match r {
            Some(l) => track_label_spec(title, channel) == Some(l@),
            None => track_label_spec(title, channel) is None,
        },
{
    match channel {
        Some(c) => {
            let mut l = "`".to_owned();
            match &title {
                Some(t) => push_str(&mut l, t.as_str()),
                None => push_str(&mut l, "Unknown Title"),
            }
            push_str(&mut l, "` by ");
            push_str(&mut l, c.as_str());
            Some(l)
        },
        None => None,
    }
}

/// The answer of `/play` for one queued track: `Playing ` and its label.
pub fn playing_reply(label: &str) -> (r: String)
    ensures
        r@ == "Playing "@ + label@,
{
    let mut r = "Playing ".to_owned();
    push_str(&mut r, label);
    r
}

/// The first answer of `/play` for a playlist, before any entry is queued.
pub fn playlist_loading() -> (r: String)
    ensures
        r@ == "Loading Playlist"@,
{
    "Loading Playlist".to_owned()
}

/// The answer of `/play` for a playlist once some entries are queued: what
/// the player answered for each entry so far, one per line.
pub fn playlist_progress(results: &Vec<String>) -> (r: String)
    ensures
        r@ == seq_join(views(results@), "\n"@),
{
    join_strings(results, "\n")
}

/// While a playlist loads, each answer extends the one before it by a new
/// line holding what the player answered for the next entry.
pub proof fn playlist_progress_extends(results: Seq<String>, next: String)
    requires
        results.len() > 0,
    ensures
        seq_join(views(results.push(next)), "\n"@) == seq_join(views(results), "\n"@) + "\n"@ + next@,
{
    assert(views(results.push(next)).drop_last() =~= views(results));
    assert(views(results.push(next)).last() == next@);
}

/// The answer of a music command when the bot has no call in the guild.
pub fn not_in_voice_channel() -> (r: String)
    ensures
        r@ == "Not in voice channel"@,
{
    "Not in voice channel".to_owned()
}

/// What the queue knows of a track: its title and channel, where known.
#[derive(Debug, PartialEq, Eq)]
pub struct TrackInfo {
    pub title: Option<String>,
    pub channel: Option<String>,
}

/// The line of one queued track: `title - channel`, with defaults for what is
/// unknown, or `unk` for a track without metadata.
pub open spec fn queue_line(track: Option<TrackInfo>) -> Seq<char> {
    match track {
        Some(t) => or_default(t.title, "Unknown Title"@) + " - "@ + or_default(t.channel, "Unknown Channel"@),
        None => "unk"@,
    }
}

/// The answer of `/queue`.
pub open spec fn queue_reply_spec(in_call: bool, tracks: Seq<Option<TrackInfo>>) -> Seq<char> {
    if !in_call {
        "Not in voice channel"@
    } else if tracks.len() == 0 {
        "Queue is empty"@
    } else {
        seq_join(tracks.map_values(|t: Option<TrackInfo>| queue_line(t)), "\n"@)
    }
}

/// With a call, an empty queue is answered `Queue is empty`.
pub proof fn queue_empty_reply()
    ensures
        queue_reply_spec(true, Seq::<Option<TrackInfo>>::empty()) == "Queue is empty"@,
{
}

/// With a call, a queue of one track is answered by that track's line alone:
/// `title - channel`, or `unk` for a track without metadata.
pub proof fn queue_of_one_track(title: String, channel: String)
    ensures
        queue_reply_spec(true, seq![Some((TrackInfo { title: Some(title), channel: Some(channel) }))])
            == title@ + " - "@ + channel@,
        queue_reply_spec(true, seq![None::<TrackInfo>]) == "unk"@,
{
    let one = seq![Some((TrackInfo { title: Some(title), channel: Some(channel) }))];
    assert(one.map_values(|t: Option<TrackInfo>| queue_line(t)) =~= seq![title@ + " - "@ + channel@]);
    let none = seq![None::<TrackInfo>];
    assert(none.map_values(|t: Option<TrackInfo>| queue_line(t)) =~= seq!["unk"@]);
}

/// With a call, one more track in a non-empty queue adds one line to the
/// answer: the answer for the shorter queue, a newline, the new track's line.
pub proof fn queue_grows_by_one_line(tracks: Seq<Option<TrackInfo>>, track: Option<TrackInfo>)
    requires
        tracks.len() >= 1,
    ensures
        queue_reply_spec(true, tracks.push(track))
            == queue_reply_spec(true, tracks) + "\n"@ + queue_line(track),
{
    let f = |t: Option<TrackInfo>| queue_line(t);
    let longer = tracks.push(track).map_values(f);
    assert(longer.drop_last() =~= tracks.map_values(f));
    assert(longer.last() == queue_line(track));
    assert(longer.len() >= 2);
}

fn queue_line_of(track: &Option<TrackInfo>) -> (r: String)
    ensures
        r@ == queue_line(*track),
{
    match track {
        Some(t) => {
            let mut r = String::new();
            match &t.title {
                Some(x) => push_str(&mut r, x.as_str()),
                None => push_str(&mut r, "Unknown Title"),
            }
            push_str(&mut r, " - ");
            match &t.channel {
                Some(x) => push_str(&mut r, x.as_str()),
                None => push_str(&mut r, "Unknown Channel"),
            }
            r
        },
        None => "unk".to_owned(),
    }
}

/// `/queue`: the tracks of the queue, current one first, one per line.
pub fn queue(in_call: bool, tracks: &Vec<Option<TrackInfo>>) -> (r: String)
    ensures
        r@ == queue_reply_spec(in_call, tracks@),
{
    if !in_call {
        return not_in_voice_channel();
    }
    if tracks.len() == 0 {
        return "Queue is empty".to_owned();
    }
    let mut lines: Vec<String> = Vec::new();
    let mut i: usize = 0;
    while i < tracks.len()
        invariant
            i <= tracks@.len(),
            lines@.len() == i,
            forall|j: int| 0 <= j < i ==> #[trigger] lines@[j]@ == queue_line(tracks@[j]),
        decreases tracks@.len() - i,
    {
        let line = queue_line_of(&tracks[i]);
        lines.push(line);
        i += 1;
    }
    assert(views(lines@) =~= tracks@.map_values(|t: Option<TrackInfo>| queue_line(t)));
    join_strings(&lines, "\n")
}

/// How many times `/skip` skips: the count asked for (one when none is
/// given), and none for a count below one.
pub open spec fn skip_times_spec(times: Option<i32>) -> int {
    let t: int = match times {
        Some(t) => t as int,
        None => 1,
    };
    if t < 0 { 0 } else { t }
}

/// How many times `/skip` skips.
pub fn skip_times(times: Option<i32>) -> (n: u32)
    ensures
        n as int == skip_times_spec(times),
{
    let t: i32 = match times {
        Some(t) => t,
        None => 1,
    };
    if t < 0 { 0 } else { t as u32 }
}

/// `/skip`: without a call in the guild it answers so; otherwise it skips
/// `skip_times_spec(times)` times.
pub fn skip(in_call: bool, times: Option<i32>) -> (r: Result<u32, String>)
    ensures
        !in_call ==> (r matches Err(m) && m@ == "Not in voice channel"@),
        in_call ==> (r matches Ok(n) && n as int == skip_times_spec(times)),
{
    if !in_call {
        return Err(not_in_voice_channel());
    }
    Ok(skip_times(times))
}

/// The answer of `/skip`, with the length of the queue after the skips.
pub fn skip_reply(queue_len: u64) -> (r: String)
    ensures
        r@ == "Song skipped: "@ + decimal(queue_len as int) + " in queue."@,
{
    let mut r = "Song skipped: ".to_owned();
    let n = nat_string(queue_len);
    push_str(&mut r, n.as_str());
    push_str(&mut r, " in queue.");
    r
}

/// The answer of `/stop`, which clears the queue when the bot has a call.
pub fn stop(in_call: bool) -> (r: String)
    ensures
        r@ == (if in_call { "Queue cleared."@ } else { "Not in voice channel"@ }),
{
    if in_call { "Queue cleared.".to_owned() } else { not_in_voice_channel() }
}

/// The answers of `/leave`: when the bot has a call it leaves it, and reports
/// the error of leaving (given in its debug form) before saying it left.
pub fn leave(in_call: bool, leave_error: Option<String>) -> (r: Vec<String>)
    ensures
        !in_call ==> r@.len() == 1 && r@[0]@ == "Not in voice channel"@,
        in_call ==> match leave_error {
            Some(e) => r@.len() == 2 && r@[0]@ == "Err: "@ + e@ && r@[1]@ == "Left voice channel"@,
            None => r@.len() == 1 && r@[0]@ == "Left voice channel"@,
        },
{
    let mut r: Vec<String> = Vec::new();
    if !in_call {
        r.push(not_in_voice_channel());
        return r;
    }
    match leave_error {
        Some(e) => {
            let mut m = "Err: ".to_owned();
            push_str(&mut m, e.as_str());
            r.push(m);
        },
        None => {},
    }
    r.push("Left voice channel".to_owned());
    r
}

/// Why the bot cannot join: the caller is in no voice channel.
#[derive(Clone, Copy, Debug, PartialEq, Eq)]
pub enum JoinRefusal {
    NoCall,
}

/// `/join`: the voice channel to join is the caller's own.
pub fn join(caller_channel: Option<u64>) -> (r: Result<u64, JoinRefusal>)
    ensures
        match caller_channel {
            Some(c) => r == Ok::<u64, JoinRefusal>(c),
            None => r == Err::<u64, JoinRefusal>(JoinRefusal::NoCall),
        },
{
    match caller_channel {
        Some(c) => Ok(c),
        None => Err(JoinRefusal::NoCall),
    }
}

/// The join that `/play` makes before queueing: the same choice as `/join`.
pub fn join_internal(caller_channel: Option<u64>) -> (r: Result<u64, JoinRefusal>)
    ensures
        match caller_channel {
            Some(c) => r == Ok::<u64, JoinRefusal>(c),
            None => r == Err::<u64, JoinRefusal>(JoinRefusal::NoCall),
        },
{
    join(caller_channel)
}

/// The loop setting asked of the current track.
#[derive(Clone, Copy, Debug, PartialEq, Eq)]
pub enum LoopMode {
    /// Repeat the current track without end.
    Infinite,
    /// Stop repeating the current track.
    Off,
}

/// `/loop`: `true` loops the current track, `false` stops its looping.
pub fn loop_mode(enable: bool) -> (m: LoopMode)
    ensures
        m == (if enable { LoopMode::Infinite } else { LoopMode::Off }),
{
    if enable { LoopMode::Infinite } else { LoopMode::Off }
}

/// `/loop`: without a call in the guild it answers so; otherwise it changes
/// the loop setting of the current track as `loop_mode` says.
pub fn loop_command(in_call: bool, enable: bool) -> (r: Result<LoopMode, String>)
    ensures
        !in_call ==> (r matches Err(m) && m@ == "Not in voice channel"@),
        in_call ==> (r matches Ok(m) && m == (if enable { LoopMode::Infinite } else { LoopMode::Off })),
{
    if !in_call {
        return Err(not_in_voice_channel());
    }
    Ok(loop_mode(enable))
}

/// A failure to change the loop setting: which way (`on` or `off`) and the
/// player's error, in its debug form.
#[derive(Debug, PartialEq, Eq)]
pub enum LoopError {
    LoopError { onoff: String, why: String },
}

/// The outcome of a loop change, given what the player answered.
pub fn loop_internal(mode: LoopMode, outcome: Result<(), String>) -> (r: Result<String, LoopError>)
    ensures
        match (mode, outcome) {
            (LoopMode::Infinite, Ok(())) => r matches Ok(m) && m@ == "loop on"@,
            (LoopMode::Off, Ok(())) => r matches Ok(m) && m@ == "loop off"@,
            (LoopMode::Infinite, Err(why)) => r matches Err(LoopError::LoopError { onoff, why: w })
                && onoff@ == "on"@ && w == why,
            (LoopMode::Off, Err(why)) => r matches Err(LoopError::LoopError { onoff, why: w })
                && onoff@ == "off"@ && w == why,
        },
{
    match mode {
        LoopMode::Infinite => match outcome {
            Ok(()) => Ok("loop on".to_owned()),
            Err(why) => Err(LoopError::LoopError { onoff: "on".to_owned(), why }),
        },
        LoopMode::Off => match outcome {
            Ok(()) => Ok("loop off".to_owned()),
            Err(why) => Err(LoopError::LoopError { onoff: "off".to_owned(), why }),
        },
    }
}

/// The volume that `/volume` sets: the value asked for, held to `0..=100`.
pub open spec fn clamp_volume_spec(v: int) -> int {
    if v < 0 { 0 } else if v > 100 { 100 } else { v }
}

/// The volume that `/volume` sets.
pub fn clamp_volume(requested: i8) -> (v: i8)
    ensures
        v as int == clamp_volume_spec(requested as int),
        0 <= v <= 100,
{
    if requested < 0 { 0 } else if requested > 100 { 100 } else { requested }
}

/// `/volume`: without a call in the guild it answers so; otherwise it sets
/// the volume asked for, held to `0..=100`.
pub fn volume(in_call: bool, requested: i8) -> (r: Result<i8, String>)
    ensures
        !in_call ==> (r matches Err(m) && m@ == "Not in voice channel"@),
        in_call ==> (r matches Ok(v) && v as int == clamp_volume_spec(requested as int) && 0 <= v <= 100),
{
    if !in_call {
        return Err(not_in_voice_channel());
    }
    Ok(clamp_volume(requested))
}

/// The answer of `/volume` once the volume is set.
pub fn volume_reply(volume: i8) -> (r: String)
    ensures
        r@ == "Set volume to "@ + decimal(volume as int),
{
    let mut r = "Set volume to ".to_owned();
    let n = int_string(volume as i64);
    push_str(&mut r, n.as_str());
    r
}

} // verus!
