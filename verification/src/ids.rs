//! Identifiers of the key bindings that the configuration editor lists.

use vstd::prelude::*;

verus! {

/// A key binding that works in every view.
#[derive(Debug, PartialEq, Eq, Clone, Copy, Hash, Structural)]
pub enum IdKeyGlobal {
    LayoutTreeview,
    LayoutDatabase,
    LayoutPodcast,
    Quit,
    Config,
    Help,
    SavePlaylist,
    Up,
    Down,
    Left,
    Right,
    GotoBottom,
    GotoTop,
    PlayerToggleGapless,
    PlayerTogglePause,
    PlayerNext,
    PlayerPrevious,
    PlayerSeekForward,
    PlayerSeekBackward,
    PlayerSpeedUp,
    PlayerSpeedDown,
    PlayerVolumeUp,
    PlayerVolumeDown,
    LyricAdjustForward,
    LyricAdjustBackward,
    LyricCycle,
    XywhMoveUp,
    XywhMoveDown,
    XywhMoveLeft,
    XywhMoveRight,
    XywhZoomIn,
    XywhZoomOut,
    XywhHide,
}

/// A key binding that works in one view only.
#[derive(Debug, PartialEq, Eq, Clone, Copy, Hash, Structural)]
pub enum IdKeyOther {
    LibraryAddRoot,
    LibraryRemoveRoot,
    LibrarySwitchRoot,
    LibraryDelete,
    LibraryLoadDir,
    LibraryYank,
    LibraryPaste,
    LibrarySearch,
    LibraryTagEditor,
    PlaylistShuffle,
    PlaylistModeCycle,
    PlaylistPlaySelected,
    PlaylistSearch,
    PlaylistSwapUp,
    PlaylistSwapDown,
    PlaylistDelete,
    PlaylistDeleteAll,
    PlaylistAddRandomAlbum,
    PlaylistAddRandomTracks,
    DatabaseAddAll,
    DatabaseAddSelected,
    PodcastSearchAddFeed,
    PodcastMarkPlayed,
    PodcastMarkAllPlayed,
    PodcastEpDownload,
    PodcastEpDeleteFile,
    PodcastDeleteFeed,
    PodcastDeleteAllFeeds,
    PodcastRefreshFeed,
    PodcastRefreshAllFeeds,
}

/// Any key binding of the configuration editor.
#[derive(Debug, PartialEq, Eq, Clone, Copy, Hash, Structural)]
pub enum IdKey {
    Global(IdKeyGlobal),
    Other(IdKeyOther),
}

} // verus!
