//! Song metadata resolved from several independent catalog providers.
//!
//! A [`SongTag`] is one candidate match, tagged with the provider that
//! produced it. The module decides which provider is asked for what, how the
//! providers' answers are combined, and which events a download attempt
//! reports. Talking to a provider is the caller's business: every function
//! here takes the provider's answer as a value.

use crate::text::{share_again, shared_str};
use std::sync::Arc;
use vstd::prelude::*;

verus! {

/// Title reported for a record whose provider supplied none.
pub const UNKNOWN_TITLE: &'static str = "Unknown Title";

/// Error text carried by the `Error` event of a download attempt.
pub const ACQUISITION_DISABLED: &'static str = "acquisition disabled";

/// Message of the failure that a download attempt returns.
pub const DOWNLOAD_REMOVED: &'static str =
    "Download functionality has been removed in favor of user-uploaded content model";

/// First result that a search asks each provider for.
pub const SEARCH_OFFSET: u32 = 0;

/// Number of results that a search asks each provider for.
pub const SEARCH_LIMIT: u32 = 30;

/// The catalog provider that produced a record.
#[derive(Debug, PartialEq, Eq, Clone, Copy, Structural)]
pub enum ServiceProvider {
    Netease,
    Kugou,
    Migu,
}

impl ServiceProvider {
    /// The provider's display name as a sequence of characters.
    pub open spec fn name(self) -> Seq<char> {
        match self {
            ServiceProvider::Netease => "Netease"@,
            ServiceProvider::Kugou => "Kugou"@,
            ServiceProvider::Migu => "Migu"@,
        }
    }

    /// The provider's display name.
    pub fn to_string(&self) -> (text: String)
        ensures
            text@ == self.name(),
    {
        match self {
            ServiceProvider::Netease => "Netease".to_owned(),
            ServiceProvider::Kugou => "Kugou".to_owned(),
            ServiceProvider::Migu => "Migu".to_owned(),
        }
    }
}

/// In which way a song can be downloaded, if at all.
#[derive(Debug, PartialEq, Eq, Clone)]
pub enum UrlTypes {
    /// Download is protected by DRM or a fee.
    Protected,
    /// Download is available, but the URL has to be fetched from the provider first.
    AvailableRequiresFetching,
    /// A ready-to-use URL, carried verbatim.
    FreeDownloadable(String),
}

/// Mathematical value of a [`UrlTypes`].
pub enum UrlTypesView {
    Protected,
    AvailableRequiresFetching,
    FreeDownloadable(Seq<char>),
}

impl View for UrlTypes {
    type V = UrlTypesView;

    open spec fn view(&self) -> UrlTypesView {
        match self {
            UrlTypes::Protected => UrlTypesView::Protected,
            UrlTypes::AvailableRequiresFetching => UrlTypesView::AvailableRequiresFetching,
            UrlTypes::FreeDownloadable(url) => UrlTypesView::FreeDownloadable(url@),
        }
    }
}

impl DeepView for UrlTypes {
    type V = UrlTypesView;

    open spec fn deep_view(&self) -> UrlTypesView {
        self.view()
    }
}

/// A ready-to-use URL goes into a [`UrlTypes`] and comes out of it unchanged,
/// whatever the URL; two such values are the same exactly if their URLs are.
pub proof fn lemma_free_downloadable_round_trip(url: String, other: String)
    ensures
        UrlTypes::FreeDownloadable(url)->FreeDownloadable_0 == url,
        UrlTypes::FreeDownloadable(url)@ == UrlTypesView::FreeDownloadable(url@),
        UrlTypes::FreeDownloadable(url)@ == UrlTypes::FreeDownloadable(other)@ <==> url@ == other@,
{
}

/// One candidate match from one provider.
///
/// The pair of provider and song id is the only key by which later lookups
/// are routed; a song id means nothing without its provider.
#[derive(Debug, PartialEq, Eq, Clone)]
pub struct SongTag {
    service_provider: ServiceProvider,
    song_id: String,
    artist: Option<String>,
    title: Option<String>,
    album: Option<String>,
    lang_ext: Option<String>,
    lyric_id: Option<String>,
    url: Option<UrlTypes>,
    pic_id: Option<String>,
    album_id: Option<String>,
}

/// Mathematical value of a [`SongTag`]. `None` means that the provider did
/// not supply the field, not that the field is empty.
pub struct SongTagView {
    pub service_provider: ServiceProvider,
    pub song_id: Seq<char>,
    pub artist: Option<Seq<char>>,
    pub title: Option<Seq<char>>,
    pub album: Option<Seq<char>>,
    pub lang_ext: Option<Seq<char>>,
    pub lyric_id: Option<Seq<char>>,
    pub url: Option<UrlTypesView>,
    pub pic_id: Option<Seq<char>>,
    pub album_id: Option<Seq<char>>,
}

impl View for SongTag {
    type V = SongTagView;

    closed spec fn view(&self) -> SongTagView {
        SongTagView {
            service_provider: self.service_provider,
            song_id: self.song_id@,
            artist: self.artist.deep_view(),
            title: self.title.deep_view(),
            album: self.album.deep_view(),
            lang_ext: self.lang_ext.deep_view(),
            lyric_id: self.lyric_id.deep_view(),
            url: self.url.deep_view(),
            pic_id: self.pic_id.deep_view(),
            album_id: self.album_id.deep_view(),
        }
    }
}

impl DeepView for SongTag {
    type V = SongTagView;

    open spec fn deep_view(&self) -> SongTagView {
        self.view()
    }
}

impl SongTag {
    /// A record as a provider reports it.
    pub fn new(
        service_provider: ServiceProvider,
        song_id: String,
        artist: Option<String>,
        title: Option<String>,
        album: Option<String>,
        lang_ext: Option<String>,
        lyric_id: Option<String>,
        url: Option<UrlTypes>,
        pic_id: Option<String>,
        album_id: Option<String>,
    ) -> (tag: Self)
        ensures
            tag@ == (SongTagView {
                service_provider,
                song_id: song_id@,
                artist: artist.deep_view(),
                title: title.deep_view(),
                album: album.deep_view(),
                lang_ext: lang_ext.deep_view(),
                lyric_id: lyric_id.deep_view(),
                url: url.deep_view(),
                pic_id: pic_id.deep_view(),
                album_id: album_id.deep_view(),
            }),
    {
        SongTag {
            service_provider,
            song_id,
            artist,
            title,
            album,
            lang_ext,
            lyric_id,
            url,
            pic_id,
            album_id,
        }
    }

    #[must_use]
    pub fn artist(&self) -> (artist: Option<&str>)
        ensures
            artist.deep_view() == self@.artist,
    {
        match &self.artist {
            Some(text) => Some(text.as_str()),
            None => None,
        }
    }

    #[must_use]
    pub fn album(&self) -> (album: Option<&str>)
        ensures
            album.deep_view() == self@.album,
    {
        match &self.album {
            Some(text) => Some(text.as_str()),
            None => None,
        }
    }

    /// The title of the song, if the provider supplied one.
    #[must_use]
    pub fn title(&self) -> (title: Option<&str>)
        ensures
            title.deep_view() == self@.title,
    {
        match &self.title {
            Some(text) => Some(text.as_str()),
            None => None,
        }
    }

    #[must_use]
    pub fn lang_ext(&self) -> (lang_ext: Option<&str>)
        ensures
            lang_ext.deep_view() == self@.lang_ext,
    {
        match &self.lang_ext {
            Some(text) => Some(text.as_str()),
            None => None,
        }
    }

    #[must_use]
    pub fn service_provider(&self) -> (provider: ServiceProvider)
        ensures
            provider == self@.service_provider,
    {
        self.service_provider
    }

    #[must_use]
    pub fn url(&self) -> (url: Option<&UrlTypes>)
        ensures
            url.deep_view() == self@.url,
    {
        self.url.as_ref()
    }

    #[must_use]
    pub fn id(&self) -> (id: &str)
        ensures
            id@ == self@.song_id,
    {
        self.song_id.as_str()
    }

    /// The identifier under which the provider files the lyrics.
    #[must_use]
    pub fn lyric_id(&self) -> (lyric_id: Option<&str>)
        ensures
            lyric_id.deep_view() == self@.lyric_id,
    {
        match &self.lyric_id {
            Some(text) => Some(text.as_str()),
            None => None,
        }
    }

    /// The identifier under which the provider files the cover picture.
    #[must_use]
    pub fn pic_id(&self) -> (pic_id: Option<&str>)
        ensures
            pic_id.deep_view() == self@.pic_id,
    {
        match &self.pic_id {
            Some(text) => Some(text.as_str()),
            None => None,
        }
    }

    /// The identifier under which the provider files the album.
    #[must_use]
    pub fn album_id(&self) -> (album_id: Option<&str>)
        ensures
            album_id.deep_view() == self@.album_id,
    {
        match &self.album_id {
            Some(text) => Some(text.as_str()),
            None => None,
        }
    }
}

/// The one terminal event of a search: every entity that the providers returned.
#[derive(Debug, Clone, PartialEq, Eq)]
pub enum SongtagSearchResult {
    Finish(Vec<SongTag>),
}

impl View for SongtagSearchResult {
    type V = Seq<SongTag>;

    open spec fn view(&self) -> Seq<SongTag> {
        match self {
            SongtagSearchResult::Finish(entities) => entities@,
        }
    }
}

/// What one provider is asked when a search starts.
#[derive(Debug, Clone, PartialEq, Eq)]
pub struct SearchRequest {
    pub provider: ServiceProvider,
    pub query: String,
    pub offset: u32,
    pub limit: u32,
}

/// The providers that a search asks, in the order in which their entities
/// appear in the aggregate.
pub open spec fn search_order() -> Seq<ServiceProvider> {
    seq![ServiceProvider::Netease, ServiceProvider::Migu, ServiceProvider::Kugou]
}

/// The requests that start a search: one per provider, all for the same
/// query and the same window of results. The caller starts all of them
/// before it waits for any.
pub fn search_requests(search_str: &str) -> (requests: Vec<SearchRequest>)
    ensures
        requests@.len() == search_order().len(),
        forall|i: int|
            0 <= i < requests@.len() ==> {
                &&& (#[trigger] requests@[i]).provider == search_order()[i]
                &&& requests@[i].query@ == search_str@
                &&& requests@[i].offset == SEARCH_OFFSET
                &&& requests@[i].limit == SEARCH_LIMIT
            },
{
    let mut requests: Vec<SearchRequest> = Vec::new();
    requests.push(
        SearchRequest {
            provider: ServiceProvider::Netease,
            query: search_str.to_owned(),
            offset: SEARCH_OFFSET,
            limit: SEARCH_LIMIT,
        },
    );
    requests.push(
        SearchRequest {
            provider: ServiceProvider::Migu,
            query: search_str.to_owned(),
            offset: SEARCH_OFFSET,
            limit: SEARCH_LIMIT,
        },
    );
    requests.push(
        SearchRequest {
            provider: ServiceProvider::Kugou,
            query: search_str.to_owned(),
            offset: SEARCH_OFFSET,
            limit: SEARCH_LIMIT,
        },
    );
    requests
}

/// What one provider adds to the aggregate: its entities in the order in
/// which it returned them, or nothing if its call failed.
pub open spec fn contribution<E>(outcome: Result<Vec<SongTag>, E>) -> Seq<SongTag> {
    match outcome {
        Ok(entities) => entities@,
        Err(_) => Seq::empty(),
    }
}

/// The aggregate of a search whose three provider calls have settled.
pub open spec fn aggregate<E>(
    netease: Result<Vec<SongTag>, E>,
    migu: Result<Vec<SongTag>, E>,
    kugou: Result<Vec<SongTag>, E>,
) -> Seq<SongTag> {
    contribution(netease) + contribution(migu) + contribution(kugou)
}

/// Fan-in of a search. Takes the outcome of every provider call once all of
/// them have settled, and emits exactly one event to `tx_done`:
/// `Finish` with the entities of the providers that succeeded, provider by
/// provider in the order of [`search_order`]. A failed call adds nothing and
/// takes nothing away from the others.
pub fn search<E>(
    netease: Result<Vec<SongTag>, E>,
    migu: Result<Vec<SongTag>, E>,
    kugou: Result<Vec<SongTag>, E>,
    tx_done: &mut Vec<SongtagSearchResult>,
)
    ensures
        final(tx_done)@.len() == old(tx_done)@.len() + 1,
        final(tx_done)@.take(old(tx_done)@.len() as int) == old(tx_done)@,
        final(tx_done)@.last()@ == aggregate(netease, migu, kugou),
        netease is Err && migu is Err && kugou is Err ==> final(tx_done)@.last()@.len() == 0,
{
    let mut results: Vec<SongTag> = Vec::new();
    match netease {
        Ok(mut entities) => results.append(&mut entities),
        Err(_) => {},
    }
    match migu {
        Ok(mut entities) => results.append(&mut entities),
        Err(_) => {},
    }
    match kugou {
        Ok(mut entities) => results.append(&mut entities),
        Err(_) => {},
    }
    assert(results@ =~= aggregate(netease, migu, kugou));
    tx_done.push(SongtagSearchResult::Finish(results));
    assert(final(tx_done)@.take(old(tx_done)@.len() as int) =~= old(tx_done)@);
}

/// When every provider call fails, the aggregate is empty.
pub proof fn lemma_aggregate_all_failed<E>(
    netease: Result<Vec<SongTag>, E>,
    migu: Result<Vec<SongTag>, E>,
    kugou: Result<Vec<SongTag>, E>,
)
    requires
        netease is Err,
        migu is Err,
        kugou is Err,
    ensures
        aggregate(netease, migu, kugou) == Seq::<SongTag>::empty(),
{
    assert(aggregate(netease, migu, kugou) =~= Seq::<SongTag>::empty());
}

/// Whatever subset of the provider calls succeeds, the aggregate is as long
/// as the contributions together, and holds each contribution unbroken and
/// in its own order: first that of Netease, then that of Migu, then that of
/// Kugou.
pub proof fn lemma_aggregate_order<E>(
    netease: Result<Vec<SongTag>, E>,
    migu: Result<Vec<SongTag>, E>,
    kugou: Result<Vec<SongTag>, E>,
)
    ensures
        aggregate(netease, migu, kugou).len() == contribution(netease).len() + contribution(
            migu,
        ).len() + contribution(kugou).len(),
        forall|i: int|
            0 <= i < contribution(netease).len() ==> aggregate(netease, migu, kugou)[i]
                == contribution(netease)[i],
        forall|i: int|
            0 <= i < contribution(migu).len() ==> aggregate(netease, migu, kugou)[contribution(
                netease,
            ).len() + i] == contribution(migu)[i],
        forall|i: int|
            0 <= i < contribution(kugou).len() ==> aggregate(netease, migu, kugou)[contribution(
                netease,
            ).len() + contribution(migu).len() + i] == contribution(kugou)[i],
{
}

/// The secondary lookups that every provider offers for one of its entities.
#[derive(Debug, PartialEq, Eq, Clone, Copy, Structural)]
pub enum Lookup {
    Lyrics,
    Picture,
}

/// One call to one provider on behalf of one entity.
#[derive(Debug, PartialEq, Eq, Clone, Copy, Structural)]
pub struct LookupRequest {
    pub provider: ServiceProvider,
    pub lookup: Lookup,
}

/// The one error that a lookup surfaces, whichever provider failed.
#[derive(Debug, PartialEq, Eq, Clone)]
pub struct FetchError {
    pub message: String,
}

/// A cover picture as lofty holds it: the binary data and the MIME type that
/// the data implies. The library hands such a value on and never looks inside.
#[verifier::external_type_specification]
#[verifier::external_body]
pub struct ExPicture(lofty::picture::Picture);

impl SongTag {
    /// The call that resolves the lyrics of this entity: one call, to the
    /// provider that produced the entity and to no other.
    pub fn lyric_request(&self) -> (request: LookupRequest)
        ensures
            request.provider == self@.service_provider,
            request.lookup == Lookup::Lyrics,
    {
        LookupRequest { provider: self.service_provider, lookup: Lookup::Lyrics }
    }

    /// The lyrics of this entity, from the outcome of the call that
    /// [`lyric_request`](Self::lyric_request) names. A failure of the provider
    /// comes back as a [`FetchError`] with the provider's message; no other
    /// provider is tried.
    pub fn fetch_lyric(&self, outcome: Result<String, String>) -> (res: Result<
        Option<String>,
        FetchError,
    >)
        ensures
            res == match outcome {
                Ok(lyric) => Ok::<Option<String>, FetchError>(Some(lyric)),
                Err(message) => Err(FetchError { message }),
            },
    {
        match outcome {
            Ok(lyric) => Ok(Some(lyric)),
            Err(message) => Err(FetchError { message }),
        }
    }

    /// The call that resolves the cover picture of this entity: one call, to
    /// the provider that produced the entity and to no other.
    pub fn photo_request(&self) -> (request: LookupRequest)
        ensures
            request.provider == self@.service_provider,
            request.lookup == Lookup::Picture,
    {
        LookupRequest { provider: self.service_provider, lookup: Lookup::Picture }
    }

    /// The cover picture of this entity, from the outcome of the call that
    /// [`photo_request`](Self::photo_request) names. A failure of the provider
    /// comes back as a [`FetchError`] with the provider's message; no other
    /// provider is tried.
    pub fn fetch_photo(&self, outcome: Result<lofty::picture::Picture, String>) -> (res: Result<
        lofty::picture::Picture,
        FetchError,
    >)
        ensures
            res == match outcome {
                Ok(picture) => Ok::<lofty::picture::Picture, FetchError>(picture),
                Err(message) => Err(FetchError { message }),
            },
    {
        match outcome {
            Ok(picture) => Ok(picture),
            Err(message) => Err(FetchError { message }),
        }
    }
}

/// Shared, immutable handle to the URL that identifies a download task.
pub type TrackDLMsgURL = Arc<str>;

/// The events by which a download task reports its progress. A task is
/// nothing but the sequence of its events.
#[derive(Clone, PartialEq, Eq, Debug)]
pub enum TrackDLMsg {
    /// The attempt begins. Emitted by whoever starts the download.
    ///
    /// `(Url, Title)`
    Start(TrackDLMsgURL, String),
    /// The transfer succeeded; post-processing is not done yet.
    ///
    /// `(Url)`
    Success(TrackDLMsgURL),
    /// The task is over, after a success or after an error. Always the last
    /// event of its task.
    ///
    /// `(Url, Filename)`
    Completed(TrackDLMsgURL, Option<String>),
    /// The attempt failed and has been given up.
    ///
    /// `(Url, Title, ErrorAsString)`
    Error(TrackDLMsgURL, String, String),
    /// The transfer succeeded, but post-processing failed.
    ///
    /// `(Url, Title)`
    ErrEmbedData(TrackDLMsgURL, String),
}

/// Mathematical value of a [`TrackDLMsg`].
pub enum TrackDLMsgView {
    Start(Seq<char>, Seq<char>),
    Success(Seq<char>),
    Completed(Seq<char>, Option<Seq<char>>),
    Error(Seq<char>, Seq<char>, Seq<char>),
    ErrEmbedData(Seq<char>, Seq<char>),
}

impl TrackDLMsgView {
    /// The URL of the task that the event belongs to.
    pub open spec fn url(self) -> Seq<char> {
        match self {
            TrackDLMsgView::Start(url, _) => url,
            TrackDLMsgView::Success(url) => url,
            TrackDLMsgView::Completed(url, _) => url,
            TrackDLMsgView::Error(url, _, _) => url,
            TrackDLMsgView::ErrEmbedData(url, _) => url,
        }
    }
}

impl View for TrackDLMsg {
    type V = TrackDLMsgView;

    open spec fn view(&self) -> TrackDLMsgView {
        match self {
            TrackDLMsg::Start(url, title) => TrackDLMsgView::Start(url@, title@),
            TrackDLMsg::Success(url) => TrackDLMsgView::Success(url@),
            TrackDLMsg::Completed(url, filename) => TrackDLMsgView::Completed(
                url@,
                filename.deep_view(),
            ),
            TrackDLMsg::Error(url, title, error) => TrackDLMsgView::Error(url@, title@, error@),
            TrackDLMsg::ErrEmbedData(url, title) => TrackDLMsgView::ErrEmbedData(url@, title@),
        }
    }
}

impl DeepView for TrackDLMsg {
    type V = TrackDLMsgView;

    open spec fn deep_view(&self) -> TrackDLMsgView {
        self.view()
    }
}

/// Whether `events` is what a download pipeline may emit for the task `url`
/// after its `Start`: first `Success` or `Error`, then `ErrEmbedData` if and
/// only if post-processing failed after a `Success`, and last, exactly once,
/// `Completed`, with a file name only after a `Success`. Every event carries
/// the task's URL.
pub open spec fn is_pipeline_record(events: Seq<TrackDLMsgView>, url: Seq<char>) -> bool {
    &&& 2 <= events.len() <= 3
    &&& forall|i: int| 0 <= i < events.len() ==> (#[trigger] events[i]).url() == url
    &&& events[0] is Success || events[0] is Error
    &&& events.len() == 3 ==> events[0] is Success && events[1] is ErrEmbedData
    &&& events.last() is Completed
    &&& events[0] is Error ==> events.last()->Completed_1 is None
}

/// The failure that a download attempt returns.
#[derive(Debug, PartialEq, Eq, Clone, Copy, Structural)]
pub enum DownloadError {
    /// Downloads are switched off: music is uploaded, not fetched.
    Removed,
}

impl DownloadError {
    /// The failure in words.
    pub fn to_string(&self) -> (text: String)
        ensures
            text@ == DOWNLOAD_REMOVED@,
    {
        DOWNLOAD_REMOVED.to_owned()
    }
}

/// The title that the events of a download carry for a record with the
/// given title.
pub open spec fn title_or_unknown(title: Option<Seq<char>>) -> Seq<char> {
    match title {
        Some(title) => title,
        None => UNKNOWN_TITLE@,
    }
}

/// The events of a download attempt while downloads are switched off.
pub open spec fn removed_events(url: Seq<char>, title: Seq<char>) -> Seq<TrackDLMsgView> {
    seq![
        TrackDLMsgView::Error(url, title, ACQUISITION_DISABLED@),
        TrackDLMsgView::Completed(url, None),
    ]
}

impl SongTag {
    /// Attempts to download the song to `file`, reporting to `tx`.
    ///
    /// Downloads are switched off. Every attempt emits `Error` and then
    /// `Completed` without a file name, both for the URL `file` and with the
    /// title of the record, and returns the failure as well.
    pub fn download(&self, file: &str, tx: &mut Vec<TrackDLMsg>) -> (res: Result<
        (),
        DownloadError,
    >)
        ensures
            res == Err::<(), DownloadError>(DownloadError::Removed),
            final(tx).deep_view() == old(tx).deep_view() + removed_events(
                file@,
                title_or_unknown(self@.title),
            ),
    {
        let title = match &self.title {
            Some(title) => title.clone(),
            None => UNKNOWN_TITLE.to_owned(),
        };
        let url: TrackDLMsgURL = shared_str(file);
        tx.push(TrackDLMsg::Error(share_again(&url), title, ACQUISITION_DISABLED.to_owned()));
        tx.push(TrackDLMsg::Completed(url, None));
        assert(tx.deep_view() =~= old(tx).deep_view() + removed_events(
            file@,
            title_or_unknown(self@.title),
        ));
        Err(DownloadError::Removed)
    }
}

/// What a download attempt emits while downloads are switched off is a
/// complete pipeline record for its URL, whatever the URL and the title.
pub proof fn lemma_removed_events_are_a_record(url: Seq<char>, title: Seq<char>)
    ensures
        is_pipeline_record(removed_events(url, title), url),
        removed_events(url, title).len() == 2,
        removed_events(url, title)[0] == TrackDLMsgView::Error(url, title, ACQUISITION_DISABLED@),
        removed_events(url, title)[1] == TrackDLMsgView::Completed(url, None),
{
}

} // verus!
