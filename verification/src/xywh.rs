//! The cover picture of what is playing: whether it is shown, what stands
//! in its way, and where it comes from.

use vstd::prelude::*;
use vstd::string::StringExecFns;

verus! {

/// Whether the cover is hidden: as configured, and as the command line
/// has it, where the command line says anything.
#[derive(Debug, Clone, Copy, PartialEq, Eq, Structural)]
pub struct CoverartVisibility {
    pub hidden_overwrite: Option<bool>,
    pub hidden: bool,
}

impl CoverartVisibility {
    /// Whether the cover is hidden: the command line wins over the configuration.
    pub open spec fn is_hidden(self) -> bool {
        match self.hidden_overwrite {
            Some(hidden) => hidden,
            None => self.hidden,
        }
    }

    /// Whether the cover is hidden.
    pub fn get_coverart_hidden(&self) -> (hidden: bool)
        ensures
            hidden == self.is_hidden(),
    {
        match self.hidden_overwrite {
            Some(hidden) => hidden,
            None => self.hidden,
        }
    }

    /// Hides a shown cover and shows a hidden one. Where the command line
    /// decides, only its value changes and the configured one stays as it
    /// is. Returns whether the configured value changed.
    pub fn xywh_toggle_hide(&mut self) -> (configured: bool)
        ensures
            final(self).is_hidden() == !old(self).is_hidden(),
            old(self).hidden_overwrite is Some ==> *final(self) == (CoverartVisibility {
                hidden_overwrite: Some(!old(self).hidden_overwrite->0),
                hidden: old(self).hidden,
            }) && !configured,
            old(self).hidden_overwrite is None ==> *final(self) == (CoverartVisibility {
                hidden_overwrite: None,
                hidden: !old(self).hidden,
            }) && configured,
    {
        match self.hidden_overwrite {
            Some(current) => {
                self.hidden_overwrite = Some(!current);
                false
            },
            None => {
                self.hidden = !self.hidden;
                true
            },
        }
    }
}

/// What can stand in the way of the cover.
#[derive(Debug, Clone, Copy, PartialEq, Eq, Structural)]
pub struct PhotoBlockers {
    pub help_popup: bool,
    pub podcast_search_popup: bool,
    pub tag_editor: bool,
    pub general_search: bool,
    pub playback_stopped: bool,
    pub config_editor: bool,
}

impl PhotoBlockers {
    /// Whether anything stands in the way of the cover.
    pub open spec fn any(self) -> bool {
        self.help_popup || self.podcast_search_popup || self.tag_editor || self.general_search
            || self.playback_stopped || self.config_editor
    }

    /// Whether the cover must not be shown.
    pub fn should_not_show_photo(&self) -> (blocked: bool)
        ensures
            blocked == self.any(),
    {
        if self.help_popup {
            return true;
        }
        if self.podcast_search_popup {
            return true;
        }
        if self.tag_editor {
            return true;
        }
        if self.general_search {
            return true;
        }
        if self.playback_stopped {
            return true;
        }
        if self.config_editor {
            return true;
        }
        false
    }
}

/// What is playing, as far as its cover goes.
#[derive(Debug, Clone, PartialEq, Eq)]
pub enum CurrentMedia {
    /// A track of the library: the cover is in its file.
    Track,
    /// A radio station: it has no cover.
    Radio,
    /// An episode of a podcast: the address of its own picture, and that of
    /// the podcast's picture.
    Podcast { episode_image: Option<String>, podcast_image: Option<String> },
}

/// What is done about the cover.
#[derive(Debug, Clone, PartialEq, Eq)]
pub enum PhotoAction {
    /// Nothing: the cover stays as it is.
    Keep,
    /// The cover is cleared.
    Clear,
    /// The cover is cleared, and the picture in the track's file is shown.
    ShowTrackPicture,
    /// The cover is cleared, and the picture at this address is fetched.
    FetchPodcastImage(String),
}

/// Mathematical value of a [`PhotoAction`].
pub enum PhotoActionView {
    Keep,
    Clear,
    ShowTrackPicture,
    FetchPodcastImage(Seq<char>),
}

impl View for PhotoAction {
    type V = PhotoActionView;

    open spec fn view(&self) -> PhotoActionView {
        match self {
            PhotoAction::Keep => PhotoActionView::Keep,
            PhotoAction::Clear => PhotoActionView::Clear,
            PhotoAction::ShowTrackPicture => PhotoActionView::ShowTrackPicture,
            PhotoAction::FetchPodcastImage(url) => PhotoActionView::FetchPodcastImage(url@),
        }
    }
}

/// The address of the picture of a podcast episode: its own, else that of the podcast.
pub open spec fn podcast_picture(
    episode_image: Option<String>,
    podcast_image: Option<String>,
) -> Option<Seq<char>> {
    match episode_image {
        Some(url) => Some(url@),
        None => match podcast_image {
            Some(url) => Some(url@),
            None => None,
        },
    }
}

/// What is done about the cover, given what is playing.
///
/// A hidden cover is left alone. Else the cover is cleared, and a new one
/// comes only where nothing stands in its way: for a track the picture in
/// its file, for a podcast the picture at its address unless that is
/// missing or empty, for a radio station none.
pub open spec fn photo_action(
    visibility: CoverartVisibility,
    blockers: PhotoBlockers,
    current: Option<CurrentMedia>,
) -> PhotoActionView {
    if visibility.is_hidden() {
        PhotoActionView::Keep
    } else if blockers.any() {
        PhotoActionView::Clear
    } else {
        match current {
            None => PhotoActionView::Clear,
            Some(CurrentMedia::Track) => PhotoActionView::ShowTrackPicture,
            Some(CurrentMedia::Radio) => PhotoActionView::Clear,
            Some(CurrentMedia::Podcast { episode_image, podcast_image }) => match podcast_picture(
                episode_image,
                podcast_image,
            ) {
                Some(url) => if url.len() == 0 {
                    PhotoActionView::Clear
                } else {
                    PhotoActionView::FetchPodcastImage(url)
                },
                None => PhotoActionView::Clear,
            },
        }
    }
}

/// Decides what is done about the cover.
pub fn update_photo(
    visibility: &CoverartVisibility,
    blockers: &PhotoBlockers,
    current: Option<CurrentMedia>,
) -> (action: PhotoAction)
    ensures
        action@ == photo_action(*visibility, *blockers, current),
{
    if visibility.get_coverart_hidden() {
        return PhotoAction::Keep;
    }
    if blockers.should_not_show_photo() {
        return PhotoAction::Clear;
    }
    match current {
        None => PhotoAction::Clear,
        Some(CurrentMedia::Track) => PhotoAction::ShowTrackPicture,
        Some(CurrentMedia::Radio) => PhotoAction::Clear,
        Some(CurrentMedia::Podcast { episode_image, podcast_image }) => {
            let url = match episode_image {
                Some(url) => url,
                None => match podcast_image {
                    Some(url) => url,
                    None => {
                        return PhotoAction::Clear;
                    },
                },
            };
            if url.as_str().is_empty() {
                PhotoAction::Clear
            } else {
                PhotoAction::FetchPodcastImage(url)
            }
        },
    }
}

/// The step at which fetching a podcast picture failed, with what went wrong.
#[derive(Debug, Clone, PartialEq, Eq)]
pub enum CoverFetchFailure {
    /// The request could not be made.
    Request(String),
    /// The server answered with another status than OK.
    Status(String),
    /// The body of the answer could not be read.
    Body(String),
    /// The body is no picture.
    Picture(String),
    /// The picture could not be decoded.
    Image(String),
}

impl CoverFetchFailure {
    /// The failure in words, as a sequence of characters.
    pub open spec fn message(self) -> Seq<char> {
        match self {
            CoverFetchFailure::Request(detail) => "Error in ureq get: "@ + detail@,
            CoverFetchFailure::Status(detail) => "Error non-OK Status code: "@ + detail@,
            CoverFetchFailure::Body(detail) => "Error in reqest::Response::bytes: "@ + detail@,
            CoverFetchFailure::Picture(detail) => "Error in picture from_reader: "@ + detail@,
            CoverFetchFailure::Image(detail) => "Error in load_from_memory: "@ + detail@,
        }
    }

    /// The failure in words.
    pub fn to_string(&self) -> (text: String)
        ensures
            text@ == self.message(),
    {
        let (mut text, detail) = match self {
            CoverFetchFailure::Request(detail) => ("Error in ureq get: ".to_owned(), detail),
            CoverFetchFailure::Status(detail) => ("Error non-OK Status code: ".to_owned(), detail),
            CoverFetchFailure::Body(detail) => (
                "Error in reqest::Response::bytes: ".to_owned(),
                detail,
            ),
            CoverFetchFailure::Picture(detail) => (
                "Error in picture from_reader: ".to_owned(),
                detail,
            ),
            CoverFetchFailure::Image(detail) => ("Error in load_from_memory: ".to_owned(), detail),
        };
        text.append(detail.as_str());
        text
    }
}

} // verus!
