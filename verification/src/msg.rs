//! The messages that the parts of the terminal interface send each other.

use crate::ids::{IdKey, IdKeyGlobal, IdKeyOther};
use crate::songtag::{SongtagSearchResult, TrackDLMsg};
use std::path::PathBuf;
use vstd::prelude::*;

verus! {

#[derive(Debug, Clone, Copy, PartialEq, Eq, Structural)]
pub enum MainLayoutMsg {
    /// Switch to the Music library view
    TreeView,
    /// Switch to the Database view
    DataBase,
    /// Switch to the Podcast view
    Podcast,
}

/// Player related messages
#[derive(Debug, Clone, Copy, PartialEq, Eq, Structural)]
pub enum PlayerMsg {
    ToggleGapless,
    TogglePause,
    VolumeUp,
    VolumeDown,
    SpeedUp,
    SpeedDown,
    SeekForward,
    SeekBackward,
}

/// Save Playlist Popup related messages
#[derive(Debug, Clone, PartialEq, Eq)]
pub enum SavePlaylistMsg {
    PopupShow,
    PopupCloseCancel,
    PopupUpdate(String),
    PopupCloseOk(String),
    ConfirmCloseCancel,
    ConfirmCloseOk(String),
}

#[derive(Debug, Clone, Copy, PartialEq, Eq, Structural)]
pub enum DeleteConfirmMsg {
    CloseCancel,
    CloseOk,
    Show,
}

#[derive(Debug, Clone, Copy, PartialEq, Eq, Structural)]
pub enum QuitPopupMsg {
    /// Closes the Quit Popup, if it was shown without quitting.
    CloseCancel,
    /// Always will directly quit.
    CloseOk,
    /// Either shows the Quit Dialog if enabled, or if dialog is disabled, directly quits
    Show,
}

#[derive(Debug, Clone, Copy, PartialEq, Eq, Structural)]
pub enum HelpPopupMsg {
    Show,
    Close,
}

#[derive(Debug, Clone, Copy, PartialEq, Eq, Structural)]
pub enum ErrorPopupMsg {
    Close,
}

#[derive(Clone, Copy, PartialEq, Eq, Debug, Structural)]
pub enum LyricMsg {
    Cycle,
    AdjustDelay(i64),
    TextAreaBlurUp,
    TextAreaBlurDown,
}

/// A tree node: an identifier, a value and the node's children.
#[derive(Debug, PartialEq, Eq)]
pub struct RecVec<T, V> {
    pub id: T,
    pub value: V,
    pub children: Vec<RecVec<T, V>>,
}

impl<T: Clone, V: Clone> Clone for RecVec<T, V> {
    fn clone(&self) -> Self
        decreases self,
    {
        let mut children: Vec<RecVec<T, V>> = Vec::new();
        let mut i: usize = 0;
        while i < self.children.len()
            invariant
                i <= self.children.len(),
            decreases self.children.len() - i,
        {
            children.push(self.children[i].clone());
            i += 1;
        }
        RecVec { id: self.id.clone(), value: self.value.clone(), children }
    }
}

#[derive(Clone, Debug, PartialEq, Eq)]
pub enum LIMsg {
    TreeStepInto(String),
    TreeStepOut,
    TreeBlur,
    Yank,
    Paste,
    SwitchRoot,
    AddRoot,
    RemoveRoot,
    /// A requested node is ready from loading.
    /// `(Tree, FocusNode)`
    TreeNodeReady(RecVec<PathBuf, String>, Option<String>),
}

/// Which way the focus moves through a list of key bindings.
#[derive(Clone, Copy, Debug, PartialEq, Eq, Structural)]
pub enum KFMsg {
    Next,
    Previous,
}

#[derive(Debug, Clone, Copy, PartialEq, Eq, Structural)]
pub enum SearchCriteria {
    Artist,
    Album,
    Genre,
    Directory,
    Playlist,
}

impl SearchCriteria {
    /// The criterion's name as a sequence of characters.
    pub open spec fn name(self) -> Seq<char> {
        match self {
            SearchCriteria::Artist => "artist"@,
            SearchCriteria::Album => "album"@,
            SearchCriteria::Genre => "genre"@,
            SearchCriteria::Directory => "directory"@,
            SearchCriteria::Playlist => "playlist"@,
        }
    }

    #[must_use]
    pub fn as_str(self) -> (name: &'static str)
        ensures
            name@ == self.name(),
    {
        match self {
            SearchCriteria::Artist => "artist",
            SearchCriteria::Album => "album",
            SearchCriteria::Genre => "genre",
            SearchCriteria::Directory => "directory",
            SearchCriteria::Playlist => "playlist",
        }
    }
}

#[derive(Clone, Copy, Debug, PartialEq, Eq, Structural)]
pub enum DBMsg {
    /// Add all Track Results (from view `Tracks`) to the playlist
    AddAllToPlaylist,
    /// Add a single Track Result (from view `Tracks`) to the playlist
    AddPlaylist(usize),
    /// Add all Results (from view `Result`) to the playlist
    AddAllResultsToPlaylist,
    /// Add a single result (from view `Result`) to the playlist
    AddResultToPlaylist(usize),
    CriteriaBlurDown,
    CriteriaBlurUp,
    /// Search Results (for view `Result`) from a `Database`(view) index
    SearchResult(SearchCriteria),
    SearchResultBlurDown,
    SearchResultBlurUp,
    /// Search Tracks (for view `Tracks`) from a `Result`(view) index
    SearchTrack(usize),
    SearchTracksBlurDown,
    SearchTracksBlurUp,
    AddAllResultsConfirmShow,
    AddAllResultsConfirmCancel,
}

/// Playlist Library View messages
#[derive(Clone, Debug, PartialEq, Eq)]
pub enum PLMsg {
    NextSong,
    PrevSong,
    /// Change focus to the next view
    PlaylistTableBlurDown,
    /// Change focus to the previous view
    PlaylistTableBlurUp,
    /// Add a directory / file to the playlist
    Add(PathBuf),
    /// Remove INDEX from playlist
    Delete(usize),
    /// Clear the Playlist
    DeleteAll,
    /// Select the next loop mode in the list
    LoopModeCycle,
    /// Play a specific index
    PlaySelected(usize),
    /// Shuffle the current items in the playlist
    Shuffle,
    /// Swap a entry at INDEX with +1 (down)
    SwapDown(usize),
    /// Swap a entry at INDEX with -1 (up)
    SwapUp(usize),
    /// Start choosing random albums to be added to the playlist
    AddRandomAlbum,
    /// Start choosing random tracks to be added to the playlist
    AddRandomTracks,
}

#[derive(Clone, Debug, PartialEq, Eq)]
pub enum GSMsg {
    PopupShowDatabase,
    PopupShowLibrary,
    PopupShowPlaylist,
    PopupShowEpisode,
    PopupShowPodcast,
    PopupCloseCancel,
    InputBlur,
    PopupUpdateDatabase(String),
    PopupUpdateLibrary(String),
    PopupUpdatePlaylist(String),
    PopupUpdateEpisode(String),
    PopupUpdatePodcast(String),
    TableBlur,
    PopupCloseEpisodeAddPlaylist,
    PopupCloseDatabaseAddPlaylist,
    PopupCloseLibraryAddPlaylist,
    PopupCloseOkLibraryLocate,
    PopupClosePlaylistPlaySelected,
    PopupCloseOkPlaylistLocate,
    PopupCloseOkEpisodeLocate,
    PopupCloseOkPodcastLocate,
}

#[derive(Clone, Debug, PartialEq, Eq)]
pub enum YSMsg {
    InputPopupShow,
    InputPopupCloseCancel,
    InputPopupCloseOk(String),
    TablePopupNext,
    TablePopupPrevious,
    TablePopupCloseCancel,
    TablePopupCloseOk(usize),
}

#[derive(Clone, Copy, Debug, PartialEq, Eq, Structural)]
pub enum TFMsg {
    CounterDeleteBlurDown,
    CounterDeleteBlurUp,
    InputArtistBlurDown,
    InputArtistBlurUp,
    InputTitleBlurDown,
    InputTitleBlurUp,
    InputAlbumBlurDown,
    InputAlbumBlurUp,
    InputGenreBlurDown,
    InputGenreBlurUp,
    SelectLyricBlurDown,
    SelectLyricBlurUp,
    TableLyricOptionsBlurDown,
    TableLyricOptionsBlurUp,
    TextareaLyricBlurDown,
    TextareaLyricBlurUp,
}

/// Tag editor messages
#[derive(Clone, Debug, PartialEq, Eq)]
pub enum TEMsg {
    Open(String),
    Close,
    CounterDeleteOk,
    Download(usize),
    Embed(usize),
    Focus(TFMsg),
    Save,
    Search,
    SelectLyricOk(usize),
    SearchLyricResult(SongtagSearchResult),
    TrackDownloadResult(TrackDLMsg),
}

#[derive(PartialEq, Eq, Debug)]
pub enum NotificationMsg {
    /// Show a status message.
    ///
    /// `((Title, Text))`
    MessageShow((String, String)),
    /// Hide a status message.
    ///
    /// `((Title, Text))`
    MessageHide((String, String)),
}

impl Clone for NotificationMsg {
    fn clone(&self) -> (copy: Self)
        ensures
            copy == *self,
    {
        match self {
            NotificationMsg::MessageShow((title, text)) => NotificationMsg::MessageShow(
                (title.clone(), text.clone()),
            ),
            NotificationMsg::MessageHide((title, text)) => NotificationMsg::MessageHide(
                (title.clone(), text.clone()),
            ),
        }
    }
}

/// The order in which the global key bindings are displayed and gain focus.
pub open spec fn kfglobal_focus_seq() -> Seq<IdKey> {
    seq![
        IdKey::Global(IdKeyGlobal::LayoutTreeview),
        IdKey::Global(IdKeyGlobal::LayoutDatabase),
        IdKey::Global(IdKeyGlobal::LayoutPodcast),
        IdKey::Global(IdKeyGlobal::Quit),
        IdKey::Global(IdKeyGlobal::Config),
        IdKey::Global(IdKeyGlobal::Help),
        IdKey::Global(IdKeyGlobal::SavePlaylist),
        IdKey::Global(IdKeyGlobal::Up),
        IdKey::Global(IdKeyGlobal::Down),
        IdKey::Global(IdKeyGlobal::Left),
        IdKey::Global(IdKeyGlobal::Right),
        IdKey::Global(IdKeyGlobal::GotoBottom),
        IdKey::Global(IdKeyGlobal::GotoTop),
        IdKey::Global(IdKeyGlobal::PlayerToggleGapless),
        IdKey::Global(IdKeyGlobal::PlayerTogglePause),
        IdKey::Global(IdKeyGlobal::PlayerNext),
        IdKey::Global(IdKeyGlobal::PlayerPrevious),
        IdKey::Global(IdKeyGlobal::PlayerSeekForward),
        IdKey::Global(IdKeyGlobal::PlayerSeekBackward),
        IdKey::Global(IdKeyGlobal::PlayerSpeedUp),
        IdKey::Global(IdKeyGlobal::PlayerSpeedDown),
        IdKey::Global(IdKeyGlobal::PlayerVolumeUp),
        IdKey::Global(IdKeyGlobal::PlayerVolumeDown),
        IdKey::Global(IdKeyGlobal::LyricAdjustForward),
        IdKey::Global(IdKeyGlobal::LyricAdjustBackward),
        IdKey::Global(IdKeyGlobal::LyricCycle),
        IdKey::Global(IdKeyGlobal::XywhMoveUp),
        IdKey::Global(IdKeyGlobal::XywhMoveDown),
        IdKey::Global(IdKeyGlobal::XywhMoveLeft),
        IdKey::Global(IdKeyGlobal::XywhMoveRight),
        IdKey::Global(IdKeyGlobal::XywhZoomIn),
        IdKey::Global(IdKeyGlobal::XywhZoomOut),
        IdKey::Global(IdKeyGlobal::XywhHide),
    ]
}

/// The order in which the global key bindings are displayed and gain focus:
/// never empty, and global key bindings only.
pub fn kfglobal_focus_order() -> (order: Vec<IdKey>)
    ensures
        order@ == kfglobal_focus_seq(),
        order@.len() == 33,
        forall|i: int| 0 <= i < order@.len() ==> order@[i] is Global,
{
    let order = vec![
        IdKey::Global(IdKeyGlobal::LayoutTreeview),
        IdKey::Global(IdKeyGlobal::LayoutDatabase),
        IdKey::Global(IdKeyGlobal::LayoutPodcast),
        IdKey::Global(IdKeyGlobal::Quit),
        IdKey::Global(IdKeyGlobal::Config),
        IdKey::Global(IdKeyGlobal::Help),
        IdKey::Global(IdKeyGlobal::SavePlaylist),
        IdKey::Global(IdKeyGlobal::Up),
        IdKey::Global(IdKeyGlobal::Down),
        IdKey::Global(IdKeyGlobal::Left),
        IdKey::Global(IdKeyGlobal::Right),
        IdKey::Global(IdKeyGlobal::GotoBottom),
        IdKey::Global(IdKeyGlobal::GotoTop),
        IdKey::Global(IdKeyGlobal::PlayerToggleGapless),
        IdKey::Global(IdKeyGlobal::PlayerTogglePause),
        IdKey::Global(IdKeyGlobal::PlayerNext),
        IdKey::Global(IdKeyGlobal::PlayerPrevious),
        IdKey::Global(IdKeyGlobal::PlayerSeekForward),
        IdKey::Global(IdKeyGlobal::PlayerSeekBackward),
        IdKey::Global(IdKeyGlobal::PlayerSpeedUp),
        IdKey::Global(IdKeyGlobal::PlayerSpeedDown),
        IdKey::Global(IdKeyGlobal::PlayerVolumeUp),
        IdKey::Global(IdKeyGlobal::PlayerVolumeDown),
        IdKey::Global(IdKeyGlobal::LyricAdjustForward),
        IdKey::Global(IdKeyGlobal::LyricAdjustBackward),
        IdKey::Global(IdKeyGlobal::LyricCycle),
        IdKey::Global(IdKeyGlobal::XywhMoveUp),
        IdKey::Global(IdKeyGlobal::XywhMoveDown),
        IdKey::Global(IdKeyGlobal::XywhMoveLeft),
        IdKey::Global(IdKeyGlobal::XywhMoveRight),
        IdKey::Global(IdKeyGlobal::XywhZoomIn),
        IdKey::Global(IdKeyGlobal::XywhZoomOut),
        IdKey::Global(IdKeyGlobal::XywhHide),
    ];
    assert(order@ =~= kfglobal_focus_seq());
    order
}

/// The order in which the key bindings of the single views are displayed and gain focus.
pub open spec fn kfother_focus_seq() -> Seq<IdKey> {
    seq![
        IdKey::Other(IdKeyOther::LibraryAddRoot),
        IdKey::Other(IdKeyOther::LibraryRemoveRoot),
        IdKey::Other(IdKeyOther::LibrarySwitchRoot),
        IdKey::Other(IdKeyOther::LibraryDelete),
        IdKey::Other(IdKeyOther::LibraryLoadDir),
        IdKey::Other(IdKeyOther::LibraryYank),
        IdKey::Other(IdKeyOther::LibraryPaste),
        IdKey::Other(IdKeyOther::LibrarySearch),
        IdKey::Other(IdKeyOther::LibraryTagEditor),
        IdKey::Other(IdKeyOther::PlaylistShuffle),
        IdKey::Other(IdKeyOther::PlaylistModeCycle),
        IdKey::Other(IdKeyOther::PlaylistPlaySelected),
        IdKey::Other(IdKeyOther::PlaylistSearch),
        IdKey::Other(IdKeyOther::PlaylistSwapUp),
        IdKey::Other(IdKeyOther::PlaylistSwapDown),
        IdKey::Other(IdKeyOther::PlaylistDelete),
        IdKey::Other(IdKeyOther::PlaylistDeleteAll),
        IdKey::Other(IdKeyOther::PlaylistAddRandomAlbum),
        IdKey::Other(IdKeyOther::PlaylistAddRandomTracks),
        IdKey::Other(IdKeyOther::DatabaseAddAll),
        IdKey::Other(IdKeyOther::DatabaseAddSelected),
        IdKey::Other(IdKeyOther::PodcastSearchAddFeed),
        IdKey::Other(IdKeyOther::PodcastMarkPlayed),
        IdKey::Other(IdKeyOther::PodcastMarkAllPlayed),
        IdKey::Other(IdKeyOther::PodcastEpDownload),
        IdKey::Other(IdKeyOther::PodcastEpDeleteFile),
        IdKey::Other(IdKeyOther::PodcastDeleteFeed),
        IdKey::Other(IdKeyOther::PodcastDeleteAllFeeds),
        IdKey::Other(IdKeyOther::PodcastRefreshFeed),
        IdKey::Other(IdKeyOther::PodcastRefreshAllFeeds),
    ]
}

/// The order in which the key bindings of the single views are displayed and
/// gain focus: never empty, and no global key binding.
pub fn kfother_focus_order() -> (order: Vec<IdKey>)
    ensures
        order@ == kfother_focus_seq(),
        order@.len() == 30,
        forall|i: int| 0 <= i < order@.len() ==> order@[i] is Other,
{
    let order = vec![
        IdKey::Other(IdKeyOther::LibraryAddRoot),
        IdKey::Other(IdKeyOther::LibraryRemoveRoot),
        IdKey::Other(IdKeyOther::LibrarySwitchRoot),
        IdKey::Other(IdKeyOther::LibraryDelete),
        IdKey::Other(IdKeyOther::LibraryLoadDir),
        IdKey::Other(IdKeyOther::LibraryYank),
        IdKey::Other(IdKeyOther::LibraryPaste),
        IdKey::Other(IdKeyOther::LibrarySearch),
        IdKey::Other(IdKeyOther::LibraryTagEditor),
        IdKey::Other(IdKeyOther::PlaylistShuffle),
        IdKey::Other(IdKeyOther::PlaylistModeCycle),
        IdKey::Other(IdKeyOther::PlaylistPlaySelected),
        IdKey::Other(IdKeyOther::PlaylistSearch),
        IdKey::Other(IdKeyOther::PlaylistSwapUp),
        IdKey::Other(IdKeyOther::PlaylistSwapDown),
        IdKey::Other(IdKeyOther::PlaylistDelete),
        IdKey::Other(IdKeyOther::PlaylistDeleteAll),
        IdKey::Other(IdKeyOther::PlaylistAddRandomAlbum),
        IdKey::Other(IdKeyOther::PlaylistAddRandomTracks),
        IdKey::Other(IdKeyOther::DatabaseAddAll),
        IdKey::Other(IdKeyOther::DatabaseAddSelected),
        IdKey::Other(IdKeyOther::PodcastSearchAddFeed),
        IdKey::Other(IdKeyOther::PodcastMarkPlayed),
        IdKey::Other(IdKeyOther::PodcastMarkAllPlayed),
        IdKey::Other(IdKeyOther::PodcastEpDownload),
        IdKey::Other(IdKeyOther::PodcastEpDeleteFile),
        IdKey::Other(IdKeyOther::PodcastDeleteFeed),
        IdKey::Other(IdKeyOther::PodcastDeleteAllFeeds),
        IdKey::Other(IdKeyOther::PodcastRefreshFeed),
        IdKey::Other(IdKeyOther::PodcastRefreshAllFeeds),
    ];
    assert(order@ =~= kfother_focus_seq());
    order
}

} // verus!
