use bloodin::jellyfin::artist_names;
use bloodin::jellyfin::cache_key;
use bloodin::jellyfin::dec_string;
use bloodin::jellyfin::get_auth_header;
use bloodin::jellyfin::get_items_url;
use bloodin::jellyfin::get_item_url;
use bloodin::jellyfin::get_search_url;
use bloodin::jellyfin::get_image_url;
use bloodin::jellyfin::get_stream_url;
use bloodin::jellyfin::CachedResponse;
use bloodin::jellyfin::ItemsResponse;
use bloodin::jellyfin::JellyfinConfig;
use bloodin::jellyfin::ResponseCache;

fn config(server_url: &str) -> JellyfinConfig {
    JellyfinConfig {
        server_url: server_url.to_string(),
        username: "alice".to_string(),
        user_id: "user-1".to_string(),
        access_token: "tok123".to_string(),
        device_id: "dev-9".to_string(),
    }
}

fn page(total: i32) -> ItemsResponse {
    ItemsResponse { items: vec![], total_record_count: total, start_index: 0 }
}

#[test]
fn cached_response_remembers_the_clock() {
    let cached = CachedResponse::new(page(7), 1234);
    assert_eq!(cached.timestamp, 1234);
    assert_eq!(cached.response.total_record_count, 7);
}

#[test]
fn cached_response_expires_strictly_after_the_ttl() {
    let cached = CachedResponse::new(page(1), 100);
    assert!(!cached.is_expired(600, 100));
    assert!(!cached.is_expired(600, 700));
    assert!(cached.is_expired(600, 701));
    // A clock that went backwards never counts as expiry.
    assert!(!cached.is_expired(600, 50));
}

#[test]
fn response_cache_serves_fresh_entries() {
    let mut cache = ResponseCache::new();
    cache.put("Audio:50:0".to_string(), page(42), 1000);
    assert!(cache.lookup_fresh(&"Audio:50:0".to_string(), 600, 1300));
    let hit = cache.get(&"Audio:50:0".to_string());
    assert!(matches!(hit, Some(r) if r.total_record_count == 42));
}

#[test]
fn response_cache_drops_expired_entries() {
    let mut cache = ResponseCache::new();
    cache.put("MusicAlbum:10:0".to_string(), page(5), 1000);
    assert!(!cache.lookup_fresh(&"MusicAlbum:10:0".to_string(), 600, 1601));
    assert!(cache.get(&"MusicAlbum:10:0".to_string()).is_none());
}

#[test]
fn response_cache_misses_unknown_keys() {
    let mut cache = ResponseCache::new();
    assert!(!cache.lookup_fresh(&"nothing".to_string(), 600, 10));
    assert!(cache.get(&"nothing".to_string()).is_none());
}

#[test]
fn response_cache_replaces_entries_under_the_same_key() {
    let mut cache = ResponseCache::new();
    cache.put("k".to_string(), page(1), 10);
    cache.put("k".to_string(), page(2), 20);
    assert_eq!(cache.entries.len(), 1);
    let hit = cache.get(&"k".to_string());
    assert!(matches!(hit, Some(r) if r.total_record_count == 2));
}

#[test]
fn auth_header_carries_device_and_token() {
    let header = get_auth_header(&config("http://srv"));
    assert_eq!(
        header,
        "MediaBrowser Client=\"Jelly Player\", Device=\"Desktop\", DeviceId=\"dev-9\", \
         Version=\"0.1.0\", Token=\"tok123\""
    );
}

#[test]
fn stream_url_targets_the_audio_endpoint() {
    let url = get_stream_url(&config("http://srv"), &"song-7".to_string());
    assert_eq!(url, "http://srv/Audio/song-7/stream?static=true&api_key=tok123");
}

#[test]
fn stream_url_trims_trailing_slashes() {
    let url = get_stream_url(&config("http://srv///"), &"song-8".to_string());
    assert_eq!(url, "http://srv/Audio/song-8/stream?static=true&api_key=tok123");
}

#[test]
fn image_url_targets_the_items_endpoint() {
    let url = get_image_url(&config("http://srv/"), &"alb-1".to_string(), &"Primary".to_string());
    assert_eq!(url, "http://srv/Items/alb-1/Images/Primary?api_key=tok123");
}

#[test]
fn artist_names_prefers_the_item_artists() {
    let names = artist_names(
        &Some(vec!["A".to_string(), "B".to_string()]),
        &Some("Album Artist".to_string()),
    );
    assert_eq!(names, vec!["A".to_string(), "B".to_string()]);
}

#[test]
fn artist_names_falls_back_to_the_album_artist() {
    let names = artist_names(&Some(vec![]), &Some("Album Artist".to_string()));
    assert_eq!(names, vec!["Album Artist".to_string()]);
    let names2 = artist_names(&None, &Some("Album Artist".to_string()));
    assert_eq!(names2, vec!["Album Artist".to_string()]);
}

#[test]
fn artist_names_defaults_to_a_placeholder() {
    let names = artist_names(&None, &None);
    assert_eq!(names, vec!["Unknown Artist".to_string()]);
}


#[test]
fn dec_string_prints_exact_decimals() {
    assert_eq!(dec_string(0), "0");
    assert_eq!(dec_string(7), "7");
    assert_eq!(dec_string(50), "50");
    assert_eq!(dec_string(40100), "40100");
    assert_eq!(dec_string(-3), "-3");
    assert_eq!(dec_string(i32::MAX), "2147483647");
    assert_eq!(dec_string(i32::MIN), "-2147483648");
}

#[test]
fn cache_key_joins_every_parameter() {
    let key = cache_key(
        &"Audio".to_string(),
        Some(50),
        Some(100),
        &"SortName".to_string(),
        &"Ascending".to_string(),
    );
    assert_eq!(key, "Audio:50:100:SortName:Ascending");
    let defaulted = cache_key(
        &"MusicAlbum".to_string(),
        None,
        None,
        &"DateCreated".to_string(),
        &"Descending".to_string(),
    );
    assert_eq!(defaulted, "MusicAlbum:0:0:DateCreated:Descending");
}

#[test]
fn items_url_carries_sort_and_paging() {
    let url = get_items_url(
        &config("http://srv/"),
        &"Audio".to_string(),
        Some(25),
        Some(50),
        &"SortName".to_string(),
        &"Ascending".to_string(),
    );
    assert_eq!(
        url,
        "http://srv/Users/user-1/Items?IncludeItemTypes=Audio&Recursive=true&\
         Fields=BasicSyncInfo,CanDelete,PrimaryImageAspectRatio,ProductionYear&\
         SortBy=SortName&SortOrder=Ascending&Limit=25&StartIndex=50"
    );
}

#[test]
fn items_url_omits_absent_paging() {
    let url = get_items_url(
        &config("http://srv"),
        &"Playlist".to_string(),
        None,
        None,
        &"SortName".to_string(),
        &"Ascending".to_string(),
    );
    assert!(url.ends_with("&SortBy=SortName&SortOrder=Ascending"));
    assert!(!url.contains("&Limit="));
    assert!(!url.contains("&StartIndex="));
}

#[test]
fn search_url_percent_encodes_the_query() {
    // A wrapper handing the query through unchanged would leave the space.
    let url = get_search_url(&config("http://srv"), &"hello world".to_string(), Some(10));
    assert!(url.starts_with("http://srv/Users/user-1/Items?SearchTerm=hello%20world&"));
    assert!(url.ends_with("&Limit=10"));
}

#[test]
fn item_url_targets_the_single_item_endpoint() {
    let url = get_item_url(&config("http://srv"), &"song-3".to_string());
    assert_eq!(
        url,
        "http://srv/Users/user-1/Items/song-3?Fields=BasicSyncInfo,CanDelete,\
         PrimaryImageAspectRatio,ProductionYear"
    );
}
