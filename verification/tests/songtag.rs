use lofty::picture::Picture;
use termusiclib::songtag::{
    search, search_requests, DownloadError, FetchError, Lookup, ServiceProvider, SongTag,
    SongtagSearchResult, TrackDLMsg, UrlTypes, ACQUISITION_DISABLED, DOWNLOAD_REMOVED,
    UNKNOWN_TITLE,
};

fn tag(provider: ServiceProvider, id: &str, title: Option<&str>) -> SongTag {
    SongTag::new(
        provider,
        id.to_string(),
        None,
        title.map(str::to_string),
        None,
        None,
        None,
        None,
        None,
        None,
    )
}

fn full_tag() -> SongTag {
    SongTag::new(
        ServiceProvider::Kugou,
        "id-1".to_string(),
        Some("Artist".to_string()),
        Some("Title".to_string()),
        Some("Album".to_string()),
        Some("chi".to_string()),
        Some("lyric-1".to_string()),
        Some(UrlTypes::FreeDownloadable("http://x/y.mp3".to_string())),
        Some("pic-1".to_string()),
        Some("album-1".to_string()),
    )
}

#[test]
fn accessors_return_what_was_given() {
    let t = full_tag();
    assert_eq!(t.service_provider(), ServiceProvider::Kugou);
    assert_eq!(t.id(), "id-1");
    assert_eq!(t.artist(), Some("Artist"));
    assert_eq!(t.title(), Some("Title"));
    assert_eq!(t.album(), Some("Album"));
    assert_eq!(t.lang_ext(), Some("chi"));
    assert_eq!(t.lyric_id(), Some("lyric-1"));
    assert_eq!(t.pic_id(), Some("pic-1"));
    assert_eq!(t.album_id(), Some("album-1"));
}

#[test]
fn absent_fields_stay_absent() {
    let t = tag(ServiceProvider::Migu, "m", None);
    assert_eq!(t.artist(), None);
    assert_eq!(t.title(), None);
    assert_eq!(t.album(), None);
    assert_eq!(t.lang_ext(), None);
    assert_eq!(t.url(), None);
    assert_eq!(t.lyric_id(), None);
    assert_eq!(t.pic_id(), None);
    assert_eq!(t.album_id(), None);
}

#[test]
fn an_empty_field_is_not_an_absent_field() {
    let t = tag(ServiceProvider::Migu, "", Some(""));
    assert_eq!(t.title(), Some(""));
    assert_eq!(t.id(), "");
}

#[test]
fn free_downloadable_round_trips() {
    let t = full_tag();
    assert_eq!(
        t.url(),
        Some(&UrlTypes::FreeDownloadable("http://x/y.mp3".to_string()))
    );
    match UrlTypes::FreeDownloadable("ü/ß?q=1 2".to_string()) {
        UrlTypes::FreeDownloadable(url) => assert_eq!(url, "ü/ß?q=1 2"),
        _ => panic!("another variant"),
    }
}

#[test]
fn other_url_types_round_trip() {
    for url in [UrlTypes::Protected, UrlTypes::AvailableRequiresFetching] {
        let t = SongTag::new(
            ServiceProvider::Netease,
            "n".to_string(),
            None,
            None,
            None,
            None,
            None,
            Some(url.clone()),
            None,
            None,
        );
        assert_eq!(t.url(), Some(&url));
    }
}

#[test]
fn provider_names() {
    assert_eq!(ServiceProvider::Netease.to_string(), "Netease");
    assert_eq!(ServiceProvider::Kugou.to_string(), "Kugou");
    assert_eq!(ServiceProvider::Migu.to_string(), "Migu");
}

#[test]
fn search_asks_every_provider_for_the_same_window() {
    let requests = search_requests("test song");
    assert_eq!(requests.len(), 3);
    let providers: Vec<ServiceProvider> = requests.iter().map(|r| r.provider).collect();
    assert_eq!(
        providers,
        vec![ServiceProvider::Netease, ServiceProvider::Migu, ServiceProvider::Kugou]
    );
    for request in &requests {
        assert_eq!(request.query, "test song");
        assert_eq!(request.offset, 0);
        assert_eq!(request.limit, 30);
    }
}

#[test]
fn search_with_every_provider_failing_finishes_empty_once() {
    let mut sink: Vec<SongtagSearchResult> = Vec::new();
    search::<String>(
        Err("netease down".to_string()),
        Err("migu down".to_string()),
        Err("kugou down".to_string()),
        &mut sink,
    );
    assert_eq!(sink, vec![SongtagSearchResult::Finish(vec![])]);
}

#[test]
fn search_partial_failure_keeps_provider_order() {
    // provider A returns 2 entities, provider B fails, provider C returns 1 entity
    let a0 = tag(ServiceProvider::Netease, "a0", Some("first"));
    let a1 = tag(ServiceProvider::Netease, "a1", Some("second"));
    let c0 = tag(ServiceProvider::Kugou, "c0", Some("third"));
    let mut sink: Vec<SongtagSearchResult> = Vec::new();
    search::<String>(
        Ok(vec![a0.clone(), a1.clone()]),
        Err("migu down".to_string()),
        Ok(vec![c0.clone()]),
        &mut sink,
    );
    assert_eq!(sink.len(), 1);
    let SongtagSearchResult::Finish(aggregate) = &sink[0];
    assert_eq!(aggregate.len(), 3);
    assert_eq!(aggregate, &vec![a0, a1, c0]);
}

#[test]
fn search_concatenates_all_three_in_priority_order() {
    let n = tag(ServiceProvider::Netease, "n", None);
    let m0 = tag(ServiceProvider::Migu, "m0", None);
    let m1 = tag(ServiceProvider::Migu, "m1", None);
    let k = tag(ServiceProvider::Kugou, "k", None);
    let mut sink: Vec<SongtagSearchResult> = Vec::new();
    search::<()>(
        Ok(vec![n.clone()]),
        Ok(vec![m0.clone(), m1.clone()]),
        Ok(vec![k.clone()]),
        &mut sink,
    );
    assert_eq!(sink, vec![SongtagSearchResult::Finish(vec![n, m0, m1, k])]);
}

#[test]
fn search_only_the_middle_provider_succeeds() {
    let m = tag(ServiceProvider::Migu, "m", None);
    let mut sink: Vec<SongtagSearchResult> = Vec::new();
    search::<u8>(Err(1), Ok(vec![m.clone()]), Err(3), &mut sink);
    assert_eq!(sink, vec![SongtagSearchResult::Finish(vec![m])]);
}

#[test]
fn search_appends_to_what_the_sink_holds() {
    let earlier = SongtagSearchResult::Finish(vec![tag(ServiceProvider::Migu, "old", None)]);
    let mut sink = vec![earlier.clone()];
    search::<()>(Ok(vec![]), Ok(vec![]), Ok(vec![]), &mut sink);
    assert_eq!(sink, vec![earlier, SongtagSearchResult::Finish(vec![])]);
}

#[test]
fn lookups_go_to_the_provider_of_the_entity() {
    for provider in [ServiceProvider::Netease, ServiceProvider::Kugou, ServiceProvider::Migu] {
        let t = tag(provider, "x", None);
        let lyric = t.lyric_request();
        assert_eq!(lyric.provider, provider);
        assert_eq!(lyric.lookup, Lookup::Lyrics);
        let photo = t.photo_request();
        assert_eq!(photo.provider, provider);
        assert_eq!(photo.lookup, Lookup::Picture);
    }
}

#[test]
fn fetch_lyric_wraps_the_text() {
    let t = tag(ServiceProvider::Kugou, "x", None);
    assert_eq!(
        t.fetch_lyric(Ok("[00:01.00] la".to_string())),
        Ok(Some("[00:01.00] la".to_string()))
    );
    assert_eq!(t.fetch_lyric(Ok(String::new())), Ok(Some(String::new())));
}

#[test]
fn fetch_lyric_surfaces_the_uniform_error() {
    let t = tag(ServiceProvider::Netease, "x", None);
    assert_eq!(
        t.fetch_lyric(Err("timeout".to_string())),
        Err(FetchError { message: "timeout".to_string() })
    );
}

#[test]
fn fetch_photo_hands_the_picture_on() {
    let t = tag(ServiceProvider::Migu, "x", None);
    let picture = Picture::unchecked(vec![1, 2, 3, 4]).build();
    let fetched = t.fetch_photo(Ok(picture.clone())).unwrap();
    assert_eq!(fetched, picture);
    assert_eq!(fetched.data(), &[1, 2, 3, 4]);
}

#[test]
fn fetch_photo_surfaces_the_uniform_error() {
    let t = tag(ServiceProvider::Migu, "x", None);
    assert_eq!(
        t.fetch_photo(Err("no picture".to_string())).unwrap_err(),
        FetchError { message: "no picture".to_string() }
    );
}

#[test]
fn download_emits_error_then_completed_and_fails() {
    let t = tag(ServiceProvider::Netease, "x", Some("Song"));
    let mut events: Vec<TrackDLMsg> = Vec::new();
    let result = t.download("http://x/y.mp3", &mut events);
    assert_eq!(result, Err(DownloadError::Removed));
    assert_eq!(
        events,
        vec![
            TrackDLMsg::Error(
                "http://x/y.mp3".into(),
                "Song".to_string(),
                ACQUISITION_DISABLED.to_string()
            ),
            TrackDLMsg::Completed("http://x/y.mp3".into(), None),
        ]
    );
    assert_eq!(ACQUISITION_DISABLED, "acquisition disabled");
}

#[test]
fn download_without_a_title_reports_the_unknown_title() {
    let t = tag(ServiceProvider::Kugou, "x", None);
    let mut events: Vec<TrackDLMsg> = Vec::new();
    assert!(t.download("", &mut events).is_err());
    assert_eq!(UNKNOWN_TITLE, "Unknown Title");
    assert_eq!(
        events,
        vec![
            TrackDLMsg::Error("".into(), "Unknown Title".to_string(), "acquisition disabled".to_string()),
            TrackDLMsg::Completed("".into(), None),
        ]
    );
}

#[test]
fn download_appends_to_what_the_sink_holds() {
    let t = tag(ServiceProvider::Kugou, "x", Some("T"));
    let start = TrackDLMsg::Start("u".into(), "T".to_string());
    let mut events = vec![start.clone()];
    let _ = t.download("u", &mut events);
    assert_eq!(events.len(), 3);
    assert_eq!(events[0], start);
    assert!(matches!(events[1], TrackDLMsg::Error(..)));
    assert!(matches!(events[2], TrackDLMsg::Completed(_, None)));
}

#[test]
fn download_error_in_words() {
    assert_eq!(DownloadError::Removed.to_string(), DOWNLOAD_REMOVED);
    assert_eq!(
        DOWNLOAD_REMOVED,
        "Download functionality has been removed in favor of user-uploaded content model"
    );
}
