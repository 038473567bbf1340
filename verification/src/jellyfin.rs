//! The data model of the remote track source, and the pure parts of its
//! client: the typed records the REST wrapper maps responses into, the
//! TTL-bounded response cache, the authorization header, and the URL
//! builders. The HTTP calls themselves live outside the verified core.

use vstd::prelude::*;
use vstd::string::StrSliceExecFns;
use vstd::string::StringExecFns;

verus! {

/// The connection settings of an authenticated session.
#[derive(Debug, Clone)]
pub struct JellyfinConfig {
    pub server_url: String,
    pub username: String,
    pub user_id: String,
    pub access_token: String,
    pub device_id: String,
}

/// Public information a server reports about itself.
#[derive(Debug, Clone)]
pub struct ServerInfo {
    pub server_name: String,
    pub version: String,
    pub product_name: String,
    pub operating_system: String,
    pub id: String,
}

/// The profile of the authenticated user.
#[derive(Debug, Clone)]
pub struct UserProfile {
    pub name: String,
    pub id: String,
    pub has_password: bool,
    pub has_configured_password: bool,
    pub enable_auto_login: bool,
}

/// Play-state bookkeeping a server attaches to an item.
#[derive(Debug, Clone)]
pub struct UserData {
    pub is_favorite: bool,
    pub play_count: Option<i32>,
    pub playback_position_ticks: Option<i64>,
    pub last_played_date: Option<String>,
}

/// A name together with its identifier.
#[derive(Debug, Clone)]
pub struct NameIdPair {
    pub name: String,
    pub id: String,
}

/// One item of the music library: a song, an album, an artist or a
/// playlist, with its metadata.
#[derive(Debug, Clone)]
pub struct MusicItem {
    pub id: String,
    pub name: String,
    pub item_type: String,
    pub user_data: Option<UserData>,
    pub runtime_ticks: Option<i64>,
    pub production_year: Option<i32>,
    pub track_number: Option<i32>,
    pub disc_number: Option<i32>,
    pub album: Option<String>,
    pub album_artist: Option<String>,
    pub artists: Option<Vec<String>>,
    pub album_id: Option<String>,
    pub artist_items: Option<Vec<NameIdPair>>,
    pub image_tags: Option<std::collections::HashMap<String, String>>,
    pub backdrop_image_tags: Option<Vec<String>>,
    pub child_count: Option<i32>,
}

/// One page of library items.
#[derive(Debug, Clone)]
pub struct ItemsResponse {
    pub items: Vec<MusicItem>,
    pub total_record_count: i32,
    pub start_index: i32,
}

/// What authentication returns: a token and the user it belongs to.
#[derive(Debug, Clone)]
pub struct AuthResponse {
    pub access_token: String,
    pub user: UserInfo,
}

/// The user record inside an authentication response.
#[derive(Debug, Clone)]
pub struct UserInfo {
    pub name: String,
    pub id: String,
    pub has_password: bool,
    pub has_configured_password: bool,
    pub enable_auto_login: bool,
}

/// The outcome of a connection attempt.
#[derive(Debug, Clone)]
pub struct ConnectResult {
    pub success: bool,
    pub message: String,
    pub user_name: Option<String>,
    pub server_name: Option<String>,
}

/// The outcome of a server-information request.
#[derive(Debug, Clone)]
pub struct ServerInfoResult {
    pub success: bool,
    pub message: String,
    pub server_info: Option<ServerInfo>,
}

/// The outcome of a user-profile request.
#[derive(Debug, Clone)]
pub struct UserProfileResult {
    pub success: bool,
    pub message: String,
    pub user_profile: Option<UserProfile>,
}

/// Whether stored credentials still authenticate, and with whom.
#[derive(Debug, Clone)]
pub struct AuthCheckResult {
    pub is_authenticated: bool,
    pub user_name: Option<String>,
    pub server_name: Option<String>,
    pub server_url: Option<String>,
}

/// The outcome of a library query: a page of items and the total count.
#[derive(Debug, Clone)]
pub struct MusicLibraryResult {
    pub success: bool,
    pub message: String,
    pub items: Option<Vec<MusicItem>>,
    pub total_count: Option<i32>,
}

/// The outcome of a single-item query.
#[derive(Debug, Clone)]
pub struct ItemResult {
    pub success: bool,
    pub message: String,
    pub item: Option<MusicItem>,
}

/// A library response remembered with the time it arrived.
#[derive(Debug)]
pub struct CachedResponse {
    pub response: ItemsResponse,
    pub timestamp: u64,
}

impl CachedResponse {
    /// Remembers `response` as of the clock reading `now`.
    pub fn new(response: ItemsResponse, now: u64) -> (r: CachedResponse)
        ensures
            r.response == response,
            r.timestamp == now,
    {
        CachedResponse { response, timestamp: now }
    }

    /// Whether more than `ttl_seconds` have passed since the response was
    /// remembered, as of the clock reading `now`.
    pub fn is_expired(&self, ttl_seconds: u64, now: u64) -> (r: bool)
        ensures
            r == (now > self.timestamp + ttl_seconds),
    {
        if now <= self.timestamp {
            false
        } else {
            now - self.timestamp > ttl_seconds
        }
    }
}

/// Whether the cache holds an entry under `key`.
pub open spec fn rc_contains(s: Seq<(String, CachedResponse)>, key: Seq<char>) -> bool {
    exists|i: int| 0 <= i < s.len() && s[i].0@ == key
}

/// The index of the entry under `key`; meaningful only when the cache
/// holds one and its keys are distinct.
pub open spec fn rc_idx_of(s: Seq<(String, CachedResponse)>, key: Seq<char>) -> int {
    choose|i: int| 0 <= i < s.len() && s[i].0@ == key
}

/// No two entries share a key.
pub open spec fn rc_distinct(s: Seq<(String, CachedResponse)>) -> bool {
    forall|i: int, j: int| 0 <= i < j < s.len() ==> s[i].0@ != s[j].0@
}

/// The client's response cache: library responses remembered under a
/// request key, each valid until its time-to-live passes.
#[derive(Debug)]
pub struct ResponseCache {
    pub entries: Vec<(String, CachedResponse)>,
}

impl ResponseCache {
    /// The invariant every operation preserves: one entry per key.
    pub open spec fn wf(&self) -> bool {
        rc_distinct(self.entries@)
    }

    /// An empty response cache.
    pub fn new() -> (c: ResponseCache)
        ensures
            c.wf(),
            c.entries@.len() == 0,
    {
        ResponseCache { entries: Vec::new() }
    }

    /// The position of the entry under `key`, if one exists.
    fn find(&self, key: &String) -> (r: Option<usize>)
        requires
            self.wf(),
        ensures
            match r {
                Some(i) => i < self.entries@.len() && self.entries@[i as int].0@ == key@
                    && i == rc_idx_of(self.entries@, key@),
                None => !rc_contains(self.entries@, key@),
            },
    {
        let n: usize = self.entries.len();
        let mut i: usize = 0;
        while i < n
            invariant
                self.wf(),
                n == self.entries@.len(),
                i <= n,
                forall|k: int| 0 <= k < i ==> self.entries@[k].0@ != key@,
            decreases n - i,
        {
            if self.entries[i].0 == *key {
                proof {
                    let w = rc_idx_of(self.entries@, key@);
                    assert(0 <= w < self.entries@.len() && self.entries@[w].0@ == key@);
                    assert(w == i);
                }
                return Some(i);
            }
            i = i + 1;
        }
        None
    }

    /// Drops the entry under `key` when its time-to-live has passed, and
    /// says whether a still-valid entry remains: true exactly when the
    /// cache held the key and fewer than `ttl_seconds` + 1 seconds have
    /// passed since it was remembered.
    pub fn lookup_fresh(&mut self, key: &String, ttl_seconds: u64, now: u64) -> (found: bool)
        requires
            old(self).wf(),
        ensures
            final(self).wf(),
            found == (rc_contains(old(self).entries@, key@)
                && now <= old(self).entries@[rc_idx_of(old(self).entries@, key@)].1.timestamp
                + ttl_seconds),
            found ==> *final(self) == *old(self) && rc_contains(final(self).entries@, key@),
            !found && rc_contains(old(self).entries@, key@) ==> final(self).entries@ == old(
                self).entries@.remove(rc_idx_of(old(self).entries@, key@)),
            !rc_contains(old(self).entries@, key@) ==> *final(self) == *old(self),
    {
        let found: Option<usize> = self.find(key);
        match found {
            Some(i) => {
                if self.entries[i].1.is_expired(ttl_seconds, now) {
                    let _dropped: (String, CachedResponse) = self.entries.remove(i);
                    proof {
                        let s = old(self).entries@;
                        let k = rc_idx_of(s, key@);
                        assert forall|p: int, q: int|
                            0 <= p < q < self.entries@.len() implies self.entries@[p].0@
                            != self.entries@[q].0@ by {
                            let p0 = if p < k { p } else { p + 1 };
                            let q0 = if q < k { q } else { q + 1 };
                            assert(self.entries@[p] == s[p0] && self.entries@[q] == s[q0]);
                        }
                    }
                    false
                } else {
                    true
                }
            }
            None => false,
        }
    }

    /// The still-remembered response under `key`, if any.
    pub fn get(&self, key: &String) -> (r: Option<&ItemsResponse>)
        requires
            self.wf(),
        ensures
            match r {
                Some(resp) => rc_contains(self.entries@, key@) && *resp == self.entries@[
                    rc_idx_of(self.entries@, key@)].1.response,
                None => !rc_contains(self.entries@, key@),
            },
    {
        let found: Option<usize> = self.find(key);
        match found {
            Some(i) => Some(&self.entries[i].1.response),
            None => None,
        }
    }

    /// Remembers `response` under `key` as of `now`, replacing any earlier
    /// entry under the same key.
    pub fn put(&mut self, key: String, response: ItemsResponse, now: u64)
        requires
            old(self).wf(),
        ensures
            final(self).wf(),
            rc_contains(final(self).entries@, key@),
            ({
                let kept = if rc_contains(old(self).entries@, key@) {
                    old(self).entries@.remove(rc_idx_of(old(self).entries@, key@))
                } else {
                    old(self).entries@
                };
                final(self).entries@ == kept.push((key, CachedResponse {
                    response: response,
                    timestamp: now,
                }))
            }),
    {
        let found: Option<usize> = self.find(&key);
        let ghost s = old(self).entries@;
        match found {
            Some(i) => {
                let _dropped: (String, CachedResponse) = self.entries.remove(i);
            }
            None => {}
        }
        let ghost kept = self.entries@;
        self.entries.push((key, CachedResponse { response, timestamp: now }));
        proof {
            let t = self.entries@;
            assert(t[t.len() - 1].0@ == t.last().0@);
            assert forall|p: int, q: int| 0 <= p < q < t.len() implies t[p].0@ != t[q].0@ by {
                if q == t.len() - 1 {
                    assert(t[p] == kept[p]);
                    if rc_contains(s, t[q].0@) {
                        let k = rc_idx_of(s, t[q].0@);
                        let p0 = if p < k { p } else { p + 1 };
                        assert(kept[p] == s[p0]);
                    }
                } else {
                    assert(t[p] == kept[p] && t[q] == kept[q]);
                }
            }
        }
    }
}


/// The character of one decimal digit.
pub open spec fn dec_digit(d: int) -> char {
    if d == 0 {
        '0'
    } else if d == 1 {
        '1'
    } else if d == 2 {
        '2'
    } else if d == 3 {
        '3'
    } else if d == 4 {
        '4'
    } else if d == 5 {
        '5'
    } else if d == 6 {
        '6'
    } else if d == 7 {
        '7'
    } else if d == 8 {
        '8'
    } else {
        '9'
    }
}

/// The decimal representation of a non-negative number, most significant
/// digit first.
pub open spec fn dec_rep_nat(n: int) -> Seq<char>
    decreases n,
{
    if n < 10 {
        seq![dec_digit(n)]
    } else {
        dec_rep_nat(n / 10).push(dec_digit(n % 10))
    }
}

/// The decimal representation of a number, with a sign for negatives.
pub open spec fn dec_rep(n: int) -> Seq<char> {
    if n < 0 {
        seq!['-'] + dec_rep_nat(-n)
    } else {
        dec_rep_nat(n)
    }
}

fn digit_str(d: u32) -> (r: &'static str)
    requires
        d < 10,
    ensures
        r@ == seq![dec_digit(d as int)],
{
    proof {
        broadcast use vstd::string::group_string_axioms;
        reveal_strlit("0");
        reveal_strlit("1");
        reveal_strlit("2");
        reveal_strlit("3");
        reveal_strlit("4");
        reveal_strlit("5");
        reveal_strlit("6");
        reveal_strlit("7");
        reveal_strlit("8");
        reveal_strlit("9");
        assert("0"@ =~= seq!['0']);
        assert("1"@ =~= seq!['1']);
        assert("2"@ =~= seq!['2']);
        assert("3"@ =~= seq!['3']);
        assert("4"@ =~= seq!['4']);
        assert("5"@ =~= seq!['5']);
        assert("6"@ =~= seq!['6']);
        assert("7"@ =~= seq!['7']);
        assert("8"@ =~= seq!['8']);
        assert("9"@ =~= seq!['9']);
    }
    if d == 0 {
        "0"
    } else if d == 1 {
        "1"
    } else if d == 2 {
        "2"
    } else if d == 3 {
        "3"
    } else if d == 4 {
        "4"
    } else if d == 5 {
        "5"
    } else if d == 6 {
        "6"
    } else if d == 7 {
        "7"
    } else if d == 8 {
        "8"
    } else {
        "9"
    }
}

fn dec_string_u32(n: u32) -> (r: String)
    ensures
        r@ == dec_rep_nat(n as int),
    decreases n,
{
    if n < 10 {
        digit_str(n).to_owned()
    } else {
        let mut r: String = dec_string_u32(n / 10);
        r.append(digit_str(n % 10));
        r
    }
}

/// The decimal text of a number, exactly the digits (and sign) of its
/// value.
pub fn dec_string(n: i32) -> (r: String)
    ensures
        r@ == dec_rep(n as int),
{
    if n < 0 {
        let mut r: String = "-".to_owned();
        let magnitude: u32 = if n == i32::MIN {
            0x8000_0000u32
        } else {
            (-n) as u32
        };
        r.append(dec_string_u32(magnitude).as_str());
        proof {
            broadcast use vstd::string::group_string_axioms;
            reveal_strlit("-");
            assert("-"@ =~= seq!['-']);
        }
        r
    } else {
        dec_string_u32(n as u32)
    }
}

/// The length of `s` without its trailing slashes.
pub open spec fn trimmed_len(s: Seq<char>) -> int
    decreases s.len(),
{
    if s.len() > 0 && s.last() == '/' {
        trimmed_len(s.drop_last())
    } else {
        s.len() as int
    }
}

/// The server URL without its trailing slashes, ready to have a path
/// appended.
fn trim_base<'a>(url: &'a str) -> (r: &'a str)
    ensures
        r@ == url@.take(trimmed_len(url@)),
{
    let len: usize = url.unicode_len();
    let mut end: usize = len;
    proof {
        assert(url@.take(len as int) =~= url@);
    }
    while end > 0 && url.get_char(end - 1) == '/'
        invariant
            end <= url@.len() == len,
            trimmed_len(url@) == trimmed_len(url@.take(end as int)),
        decreases end,
    {
        proof {
            let t = url@.take(end as int);
            assert(t.last() == url@[end - 1]);
            assert(t.drop_last() =~= url@.take(end - 1));
        }
        end = end - 1;
    }
    proof {
        let t = url@.take(end as int);
        if end > 0 {
            assert(t.last() == url@[end - 1]);
        }
        assert(trimmed_len(t) == t.len());
    }
    url.substring_char(0, end)
}

/// The authorization header of authenticated requests. It carries the
/// session's device identifier and access token.
pub fn get_auth_header(config: &JellyfinConfig) -> (r: String)
    ensures
        r@ == "MediaBrowser Client=\"Jelly Player\", Device=\"Desktop\", DeviceId=\""@
            + config.device_id@ + "\", Version=\"0.1.0\", Token=\""@ + config.access_token@
            + "\""@,
{
    let mut r: String = "MediaBrowser Client=\"Jelly Player\", Device=\"Desktop\", DeviceId=\""
        .to_owned();
    r.append(config.device_id.as_str());
    r.append("\", Version=\"0.1.0\", Token=\"");
    r.append(config.access_token.as_str());
    r.append("\"");
    r
}

/// The URL audio bytes of `item_id` stream from, under the session's
/// server and token.
pub fn get_stream_url(config: &JellyfinConfig, item_id: &String) -> (r: String)
    ensures
        r@ == config.server_url@.take(trimmed_len(config.server_url@)) + "/Audio/"@ + item_id@
            + "/stream?static=true&api_key="@ + config.access_token@,
{
    let mut r: String = trim_base(config.server_url.as_str()).to_owned();
    r.append("/Audio/");
    r.append(item_id.as_str());
    r.append("/stream?static=true&api_key=");
    r.append(config.access_token.as_str());
    r
}

/// The URL of the image of kind `image_type` attached to `item_id`, under
/// the session's server and token.
pub fn get_image_url(config: &JellyfinConfig, item_id: &String, image_type: &String) -> (r:
    String)
    ensures
        r@ == config.server_url@.take(trimmed_len(config.server_url@)) + "/Items/"@ + item_id@
            + "/Images/"@ + image_type@ + "?api_key="@ + config.access_token@,
{
    let mut r: String = trim_base(config.server_url.as_str()).to_owned();
    r.append("/Items/");
    r.append(item_id.as_str());
    r.append("/Images/");
    r.append(image_type.as_str());
    r.append("?api_key=");
    r.append(config.access_token.as_str());
    r
}

/// What the percent-encoder returns for a query; a function of the
/// characters alone.
pub uninterp spec fn url_encoded(s: Seq<char>) -> Seq<char>;

/// Relies on urlencoding::encode: percent-encodes every byte except
/// alphanumerics and `-`, `_`, `.`, `~`; the result depends on the input
/// characters alone, and an empty query stays empty.
#[verifier::external_body]
fn encode_query(s: &str) -> (r: String)
    ensures
        r@ == url_encoded(s@),
        s@.len() == 0 ==> r@.len() == 0,
{
    urlencoding::encode(s).into_owned()
}

/// The value a request key records for an absent paging parameter.
pub open spec fn opt_or_zero(o: Option<i32>) -> int {
    match o {
        Some(v) => v as int,
        None => 0,
    }
}

/// The key a library request is remembered under: every parameter that
/// shapes the response, joined with colons.
pub fn cache_key(
    item_type: &String,
    limit: Option<i32>,
    start_index: Option<i32>,
    sort_by: &String,
    sort_order: &String,
) -> (r: String)
    ensures
        r@ == item_type@ + ":"@ + dec_rep(opt_or_zero(limit)) + ":"@ + dec_rep(
            opt_or_zero(start_index)) + ":"@ + sort_by@ + ":"@ + sort_order@,
{
    let mut r: String = item_type.clone();
    r.append(":");
    r.append(dec_string(limit.unwrap_or(0)).as_str());
    r.append(":");
    r.append(dec_string(start_index.unwrap_or(0)).as_str());
    r.append(":");
    r.append(sort_by.as_str());
    r.append(":");
    r.append(sort_order.as_str());
    r
}

/// The paging suffix a limit adds to a request URL.
pub open spec fn limit_suffix(limit: Option<i32>) -> Seq<char> {
    match limit {
        Some(l) => "&Limit="@ + dec_rep(l as int),
        None => Seq::empty(),
    }
}

/// The paging suffix a start index adds to a request URL.
pub open spec fn start_index_suffix(start_index: Option<i32>) -> Seq<char> {
    match start_index {
        Some(i) => "&StartIndex="@ + dec_rep(i as int),
        None => Seq::empty(),
    }
}

/// The URL of a library query for `item_type`, sorted as asked and paged
/// by the optional limit and start index.
pub fn get_items_url(
    config: &JellyfinConfig,
    item_type: &String,
    limit: Option<i32>,
    start_index: Option<i32>,
    sort_by: &String,
    sort_order: &String,
) -> (r: String)
    ensures
        r@ == config.server_url@.take(trimmed_len(config.server_url@)) + "/Users/"@
            + config.user_id@ + "/Items?IncludeItemTypes="@ + item_type@
            + "&Recursive=true&Fields=BasicSyncInfo,CanDelete,PrimaryImageAspectRatio,ProductionYear&SortBy="@
            + sort_by@ + "&SortOrder="@ + sort_order@ + limit_suffix(limit)
            + start_index_suffix(start_index),
{
    let mut r: String = trim_base(config.server_url.as_str()).to_owned();
    r.append("/Users/");
    r.append(config.user_id.as_str());
    r.append("/Items?IncludeItemTypes=");
    r.append(item_type.as_str());
    r.append(
        "&Recursive=true&Fields=BasicSyncInfo,CanDelete,PrimaryImageAspectRatio,ProductionYear&SortBy=",
    );
    r.append(sort_by.as_str());
    r.append("&SortOrder=");
    r.append(sort_order.as_str());
    let ghost before_paging = r@;
    match limit {
        Some(l) => {
            r.append("&Limit=");
            r.append(dec_string(l).as_str());
        }
        None => {
            proof {
                assert(r@ =~= before_paging + limit_suffix(limit));
            }
        }
    }
    let ghost before_start = r@;
    match start_index {
        Some(i) => {
            r.append("&StartIndex=");
            r.append(dec_string(i).as_str());
        }
        None => {
            proof {
                assert(r@ =~= before_start + start_index_suffix(start_index));
            }
        }
    }
    proof {
        assert(r@ =~= before_paging + limit_suffix(limit) + start_index_suffix(start_index));
    }
    r
}

/// The URL of a search across every music item type, with the query
/// percent-encoded.
pub fn get_search_url(config: &JellyfinConfig, query: &String, limit: Option<i32>) -> (r: String)
    ensures
        r@ == config.server_url@.take(trimmed_len(config.server_url@)) + "/Users/"@
            + config.user_id@ + "/Items?SearchTerm="@ + url_encoded(query@)
            + "&IncludeItemTypes=Audio,MusicAlbum,MusicArtist,Playlist&Recursive=true&Fields=BasicSyncInfo,CanDelete,PrimaryImageAspectRatio,ProductionYear&SortBy=SortName&SortOrder=Ascending"@
            + limit_suffix(limit),
{
    let mut r: String = trim_base(config.server_url.as_str()).to_owned();
    r.append("/Users/");
    r.append(config.user_id.as_str());
    r.append("/Items?SearchTerm=");
    r.append(encode_query(query.as_str()).as_str());
    r.append(
        "&IncludeItemTypes=Audio,MusicAlbum,MusicArtist,Playlist&Recursive=true&Fields=BasicSyncInfo,CanDelete,PrimaryImageAspectRatio,ProductionYear&SortBy=SortName&SortOrder=Ascending",
    );
    let ghost before_paging = r@;
    match limit {
        Some(l) => {
            r.append("&Limit=");
            r.append(dec_string(l).as_str());
        }
        None => {
            proof {
                assert(r@ =~= before_paging + limit_suffix(limit));
            }
        }
    }
    r
}

/// The URL a single item's details are fetched from.
pub fn get_item_url(config: &JellyfinConfig, item_id: &String) -> (r: String)
    ensures
        r@ == config.server_url@.take(trimmed_len(config.server_url@)) + "/Users/"@
            + config.user_id@ + "/Items/"@ + item_id@
            + "?Fields=BasicSyncInfo,CanDelete,PrimaryImageAspectRatio,ProductionYear"@,
{
    let mut r: String = trim_base(config.server_url.as_str()).to_owned();
    r.append("/Users/");
    r.append(config.user_id.as_str());
    r.append("/Items/");
    r.append(item_id.as_str());
    r.append("?Fields=BasicSyncInfo,CanDelete,PrimaryImageAspectRatio,ProductionYear");
    r
}

/// What the fallback artist list holds when an item names no artists: the
/// album artist when one exists, a placeholder otherwise.
pub open spec fn artist_fallback(r: Seq<String>, album_artist: Option<String>) -> bool {
    match album_artist {
        Some(a) => r.len() == 1 && r[0] == a,
        None => r.len() == 1 && r[0]@ == "Unknown Artist"@,
    }
}

/// The artist names displayed for an item: its own artist list when
/// non-empty, else its album artist, else a placeholder.
pub fn artist_names(artists: &Option<Vec<String>>, album_artist: &Option<String>) -> (r: Vec<
    String>)
    ensures
        match *artists {
            Some(v) => if v@.len() > 0 {
                r@ == v@
            } else {
                artist_fallback(r@, *album_artist)
            },
            None => artist_fallback(r@, *album_artist),
        },
{
    match artists {
        Some(v) => {
            if v.len() > 0 {
                crate::clone_string_vec(v)
            } else {
                artist_fallback_vec(album_artist)
            }
        }
        None => artist_fallback_vec(album_artist),
    }
}

fn artist_fallback_vec(album_artist: &Option<String>) -> (r: Vec<String>)
    ensures
        artist_fallback(r@, *album_artist),
{
    let mut r: Vec<String> = Vec::new();
    match album_artist {
        Some(a) => {
            r.push(a.clone());
        }
        None => {
            r.push("Unknown Artist".to_owned());
        }
    }
    r
}

} // verus!
