//! Audio files of a directory: how a file is named and found, what is
//! reported of it, and which bytes of it a request is served.

use crate::cache::Cache;
use crate::text::{chars_of, lowercased, same_text, string_of, to_lowercase};
use std::path::PathBuf;
use vstd::prelude::*;
use vstd::string::StringExecFns;

verus! {

/// What is reported of an audio file.
#[derive(Debug, Clone)]
pub struct AudioMetadata {
    pub file_path: String,
    pub title: Option<String>,
    pub artist: Option<String>,
    pub album: Option<String>,
    pub duration_seconds: Option<u64>,
    pub file_size: u64,
    pub format: String,
    pub sample_rate: Option<u32>,
    pub channels: Option<u16>,
    pub bitrate: Option<u32>,
}

/// The bytes that answer a request for an audio file.
#[derive(Debug)]
pub struct AudioStream {
    pub content: Vec<u8>,
    pub content_type: String,
    pub content_length: u64,
    pub accept_ranges: bool,
}

/// The bytes that a request asks for: from `start` to `end`, both counted
/// from 0 and both included; to the end of the file where `end` is missing.
#[derive(Debug)]
pub struct RangeRequest {
    pub start: u64,
    pub end: Option<u64>,
}

/// Why a request for an audio file fails.
#[derive(Debug, Clone, PartialEq, Eq)]
pub enum AudioError {
    /// No file of a known format belongs to this file id.
    NotFound(String),
    /// Files of this format are not taken.
    UnsupportedFormat(String),
}

impl AudioError {
    /// The failure in words, as a sequence of characters.
    pub open spec fn message(self) -> Seq<char> {
        match self {
            AudioError::NotFound(file_id) => "Audio file not found: "@ + file_id@,
            AudioError::UnsupportedFormat(format) => "Unsupported audio format: "@ + format@,
        }
    }

    /// The failure in words.
    pub fn to_string(&self) -> (text: String)
        ensures
            text@ == self.message(),
    {
        match self {
            AudioError::NotFound(file_id) => {
                let mut text = "Audio file not found: ".to_owned();
                text.append(file_id.as_str());
                text
            },
            AudioError::UnsupportedFormat(format) => {
                let mut text = "Unsupported audio format: ".to_owned();
                text.append(format.as_str());
                text
            },
        }
    }
}

/// The formats of audio files, by their file extension, in the order in
/// which a file is looked for.
pub open spec fn supported_formats() -> Seq<Seq<char>> {
    seq!["mp3"@, "flac"@, "wav"@, "m4a"@, "ogg"@, "aiff"@]
}

/// The formats of audio files, by their file extension, in the order in
/// which a file is looked for.
pub fn formats() -> (formats: Vec<&'static str>)
    ensures
        formats.deep_view() == supported_formats(),
{
    let formats = vec!["mp3", "flac", "wav", "m4a", "ogg", "aiff"];
    assert(formats.deep_view() =~= supported_formats());
    formats
}

/// Whether `format` is, but for the case of its letters, the extension of a
/// supported format.
pub fn is_supported_format(format: &str) -> (supported: bool)
    ensures
        supported == supported_formats().contains(lowercased(format@)),
{
    let lower = to_lowercase(format);
    let formats = formats();
    let mut i: usize = 0;
    while i < formats.len()
        invariant
            i <= formats.len(),
            formats.deep_view() == supported_formats(),
            lower@ == lowercased(format@),
            forall|j: int| 0 <= j < i ==> supported_formats()[j] != lower@,
        decreases formats.len() - i,
    {
        assert(formats.deep_view()[i as int] == formats@[i as int]@);
        if same_text(formats[i], lower.as_str()) {
            assert(supported_formats()[i as int] == lower@);
            return true;
        }
        i += 1;
    }
    false
}

/// The MIME type of a file with the extension `extension`. The extension
/// counts as it is written: in another case it is unknown.
pub open spec fn content_type_of(extension: Option<Seq<char>>) -> Seq<char> {
    if extension == Some("mp3"@) {
        "audio/mpeg"@
    } else if extension == Some("flac"@) {
        "audio/flac"@
    } else if extension == Some("wav"@) {
        "audio/wav"@
    } else if extension == Some("m4a"@) {
        "audio/mp4"@
    } else if extension == Some("ogg"@) {
        "audio/ogg"@
    } else if extension == Some("aiff"@) {
        "audio/aiff"@
    } else {
        "application/octet-stream"@
    }
}

/// The title that the name of a file without its extension stands for:
/// the name with a space for each `_` and each `-`.
pub open spec fn title_of(stem: Seq<char>) -> Seq<char> {
    stem.map_values(
        |c: char|
            if c == '_' || c == '-' {
                ' '
            } else {
                c
            },
    )
}

/// `text` without `/` and `\`.
pub open spec fn without_separators(text: Seq<char>) -> Seq<char> {
    text.filter(|c: char| c != '/' && c != '\\')
}

/// `text` without `..`: from the left, each two dots in a row are taken out.
pub open spec fn without_dot_pairs(text: Seq<char>) -> Seq<char>
    decreases text.len(),
{
    if text.len() == 0 {
        text
    } else if text.len() >= 2 && text[0] == '.' && text[1] == '.' {
        without_dot_pairs(text.skip(2))
    } else {
        seq![text[0]] + without_dot_pairs(text.skip(1))
    }
}

/// The file id as it is used in a file name: without path separators, and
/// then without `..`.
pub open spec fn sanitized(file_id: Seq<char>) -> Seq<char> {
    without_dot_pairs(without_separators(file_id))
}

/// Whether `text` can be one name in a directory and nothing else: it holds
/// no path separator, and nowhere two dots in a row.
pub open spec fn is_plain_name(text: Seq<char>) -> bool {
    &&& forall|i: int| 0 <= i < text.len() ==> text[i] != '/' && text[i] != '\\'
    &&& forall|i: int| 0 <= i < text.len() - 1 ==> !(#[trigger] text[i] == '.' && text[i + 1] == '.')
}

/// Takes the path separators and then each `..` out of a file id, so that
/// the id cannot lead out of the audio directory.
pub fn sanitize_file_id(file_id: &str) -> (clean: String)
    ensures
        clean@ == sanitized(file_id@),
        is_plain_name(clean@),
{
    let chars = chars_of(file_id);
    let mut kept: Vec<char> = Vec::new();
    let mut i: usize = 0;
    proof {
        reveal(Seq::filter);
    }
    while i < chars.len()
        invariant
            i <= chars.len(),
            kept@ == without_separators(chars@.take(i as int)),
        decreases chars.len() - i,
    {
        proof {
            reveal(Seq::filter);
        }
        assert(chars@.take(i + 1).drop_last() =~= chars@.take(i as int));
        if chars[i] != '/' && chars[i] != '\\' {
            kept.push(chars[i]);
        }
        i += 1;
    }
    assert(chars@.take(i as int) =~= chars@);
    let mut clean: Vec<char> = Vec::new();
    let mut j: usize = 0;
    assert(kept@.skip(0) =~= kept@);
    while j < kept.len()
        invariant
            j <= kept.len(),
            clean@ + without_dot_pairs(kept@.skip(j as int)) == without_dot_pairs(kept@),
        decreases kept.len() - j,
    {
        let ghost remaining = kept@.skip(j as int);
        if j + 1 < kept.len() && kept[j] == '.' && kept[j + 1] == '.' {
            assert(remaining.skip(2) =~= kept@.skip(j + 2));
            j += 2;
        } else {
            assert(remaining.skip(1) =~= kept@.skip(j + 1));
            let ghost before = clean@;
            clean.push(kept[j]);
            assert(clean@ + without_dot_pairs(kept@.skip(j + 1)) =~= before + (seq![remaining[0]]
                + without_dot_pairs(remaining.skip(1))));
            j += 1;
        }
    }
    assert(kept@.skip(j as int) =~= Seq::<char>::empty());
    assert(clean@ =~= without_dot_pairs(kept@));
    proof {
        lemma_sanitized_is_plain(file_id@);
    }
    string_of(&clean)
}

/// Taking out each `..` leaves no `..` behind, and adds no character. A
/// first character that is no dot stays first.
pub proof fn lemma_without_dot_pairs(text: Seq<char>)
    ensures
        forall|i: int|
            0 <= i < without_dot_pairs(text).len() - 1 ==> !(#[trigger] without_dot_pairs(text)[i]
                == '.' && without_dot_pairs(text)[i + 1] == '.'),
        forall|i: int|
            0 <= i < without_dot_pairs(text).len() ==> text.contains(
                #[trigger] without_dot_pairs(text)[i],
            ),
        text.len() > 0 && text[0] != '.' ==> without_dot_pairs(text).len() > 0
            && without_dot_pairs(text)[0] == text[0],
    decreases text.len(),
{
    if text.len() == 0 {
    } else if text.len() >= 2 && text[0] == '.' && text[1] == '.' {
        let rest = text.skip(2);
        lemma_without_dot_pairs(rest);
        assert forall|i: int| 0 <= i < without_dot_pairs(text).len() implies text.contains(
            #[trigger] without_dot_pairs(text)[i],
        ) by {
            let c = without_dot_pairs(rest)[i];
            assert(rest.contains(c));
            let k = choose|k: int| 0 <= k < rest.len() && rest[k] == c;
            assert(text[k + 2] == c);
        }
    } else {
        let rest = text.skip(1);
        lemma_without_dot_pairs(rest);
        let out = without_dot_pairs(text);
        assert(out =~= seq![text[0]] + without_dot_pairs(rest));
        assert forall|i: int| 0 <= i < out.len() implies text.contains(#[trigger] out[i]) by {
            if i == 0 {
                assert(text[0] == out[0]);
            } else {
                let c = without_dot_pairs(rest)[i - 1];
                assert(rest.contains(c));
                let k = choose|k: int| 0 <= k < rest.len() && rest[k] == c;
                assert(text[k + 1] == c);
            }
        }
        assert forall|i: int| 0 <= i < out.len() - 1 implies !(#[trigger] out[i] == '.' && out[i
            + 1] == '.') by {
            if i == 0 {
                if text[0] == '.' {
                    // What stands behind this dot is no dot, so it stays where it is.
                    assert(rest.len() > 0);
                    assert(rest[0] == text[1]);
                    assert(out[1] == without_dot_pairs(rest)[0]);
                }
            } else {
                assert(out[i] == without_dot_pairs(rest)[i - 1]);
                assert(out[i + 1] == without_dot_pairs(rest)[i]);
            }
        }
    }
}

/// A sanitized file id holds no path separator, and nowhere two dots in a
/// row, whatever the file id.
pub proof fn lemma_sanitized_is_plain(file_id: Seq<char>)
    ensures
        is_plain_name(sanitized(file_id)),
{
    let kept = without_separators(file_id);
    lemma_without_dot_pairs(kept);
    let pred = |c: char| c != '/' && c != '\\';
    assert forall|i: int| 0 <= i < sanitized(file_id).len() implies sanitized(file_id)[i] != '/'
        && sanitized(file_id)[i] != '\\' by {
        let c = sanitized(file_id)[i];
        assert(kept.contains(c));
        let k = choose|k: int| 0 <= k < kept.len() && kept[k] == c;
        file_id.lemma_filter_pred(pred, k);
        assert(pred(kept[k]));
    }
}

/// The bytes of a file that a range request is served: where they start and
/// how many they are.
#[derive(Debug, PartialEq, Eq, Clone, Copy, Structural)]
pub struct ByteWindow {
    pub start: u64,
    pub length: u64,
}

/// The last byte that a range request is served from a file of `file_size`
/// bytes: the one it asks for, but none behind the last byte of the file.
pub open spec fn last_served(range: RangeRequest, file_size: u64) -> int {
    match range.end {
        Some(end) => if end <= file_size - 1 {
            end as int
        } else {
            file_size - 1
        },
        None => file_size - 1,
    }
}

/// Whether a file of `file_size` bytes can serve `range`: the file is not
/// empty, and the range does not start behind its last served byte.
pub open spec fn is_servable(range: RangeRequest, file_size: u64) -> bool {
    file_size > 0 && range.start <= last_served(range, file_size)
}

impl RangeRequest {
    /// Whether a file of `file_size` bytes can serve this range.
    pub fn servable(&self, file_size: u64) -> (servable: bool)
        ensures
            servable == is_servable(*self, file_size),
    {
        if file_size == 0 {
            return false;
        }
        let last = match self.end {
            Some(end) => if end <= file_size - 1 {
                end
            } else {
                file_size - 1
            },
            None => file_size - 1,
        };
        self.start <= last
    }

    /// The bytes that this range is served from a file of `file_size` bytes.
    pub fn window(&self, file_size: u64) -> (window: ByteWindow)
        requires
            is_servable(*self, file_size),
        ensures
            window.start == self.start,
            window.length == last_served(*self, file_size) - self.start + 1,
            window.start + window.length <= file_size,
    {
        let last = match self.end {
            Some(end) => if end <= file_size - 1 {
                end
            } else {
                file_size - 1
            },
            None => file_size - 1,
        };
        ByteWindow { start: self.start, length: last - self.start + 1 }
    }
}

impl AudioStream {
    /// The answer that carries `content`, all of a file or a window of it.
    pub fn new(content: Vec<u8>, content_type: String) -> (stream: Self)
        ensures
            stream.content == content,
            stream.content_type == content_type,
            stream.content_length == content@.len(),
            stream.accept_ranges,
    {
        let content_length = content.len() as u64;
        AudioStream { content, content_type, content_length, accept_ranges: true }
    }
}

/// The format that is reported of a file with the extension `extension`.
pub open spec fn format_of(extension: Option<Seq<char>>) -> Seq<char> {
    match extension {
        Some(extension) => lowercased(extension),
        None => lowercased("unknown"@),
    }
}

/// The name of the file that holds `file_id` in the format `format`.
pub open spec fn file_name_of(file_id: Seq<char>, format: Seq<char>) -> Seq<char> {
    file_id + "."@ + format
}

/// Audio files of one directory, with what has been found out of them so far.
#[derive(Debug, Clone)]
pub struct AudioService {
    audio_directory: PathBuf,
    metadata_cache: Cache<AudioMetadata>,
}

impl AudioService {
    /// The records are sound.
    pub closed spec fn well_formed(&self) -> bool {
        self.metadata_cache.well_formed()
    }

    /// The directory of the audio files.
    pub closed spec fn directory(&self) -> PathBuf {
        self.audio_directory
    }

    /// What has been found out so far, by file id.
    pub closed spec fn known(&self) -> Map<Seq<char>, AudioMetadata> {
        self.metadata_cache@
    }

    pub fn new(audio_directory: PathBuf) -> (service: Self)
        ensures
            service.well_formed(),
            service.directory() == audio_directory,
            service.known() == Map::<Seq<char>, AudioMetadata>::empty(),
    {
        AudioService { audio_directory, metadata_cache: Cache::new() }
    }

    /// The directory of the audio files.
    pub fn audio_directory(&self) -> (directory: &PathBuf)
        ensures
            *directory == self.directory(),
    {
        &self.audio_directory
    }

    /// A copy of what has been found out of `file_id`, if anything has.
    pub fn cached_metadata(&self, file_id: &str) -> (metadata: Option<AudioMetadata>)
        requires
            self.well_formed(),
        ensures
            match metadata {
                Some(metadata) => self.known().contains_key(file_id@) && cloned(
                    self.known()[file_id@],
                    metadata,
                ),
                None => !self.known().contains_key(file_id@),
            },
    {
        match self.metadata_cache.get(file_id) {
            Some(metadata) => Some(metadata.clone()),
            None => None,
        }
    }

    /// Keeps what has been found out of `file_id`.
    pub fn cache_metadata(&mut self, file_id: &str, metadata: AudioMetadata)
        requires
            old(self).well_formed(),
        ensures
            final(self).well_formed(),
            final(self).directory() == old(self).directory(),
            final(self).known() == old(self).known().insert(file_id@, metadata),
    {
        self.metadata_cache.insert(file_id.to_owned(), metadata);
    }

    /// What is reported of the file at `file_path`, given the name of the
    /// file without its extension, its extension, and its size. Only what
    /// the name and the size tell is filled in.
    pub fn extract_metadata(
        &self,
        file_path: &str,
        file_stem: Option<&str>,
        extension: Option<&str>,
        file_size: u64,
    ) -> (metadata: AudioMetadata)
        ensures
            metadata.file_path@ == file_path@,
            metadata.title.deep_view() == match file_stem.deep_view() {
                Some(stem) => Some(title_of(stem)),
                None => None,
            },
            metadata.artist is None,
            metadata.album is None,
            metadata.duration_seconds is None,
            metadata.file_size == file_size,
            metadata.format@ == format_of(extension.deep_view()),
            metadata.sample_rate is None,
            metadata.channels is None,
            metadata.bitrate is None,
    {
        let format = match extension {
            Some(extension) => to_lowercase(extension),
            None => to_lowercase("unknown"),
        };
        AudioMetadata {
            file_path: file_path.to_owned(),
            title: self.extract_title_from_filename(file_stem),
            artist: None,
            album: None,
            duration_seconds: None,
            file_size,
            format,
            sample_rate: None,
            channels: None,
            bitrate: None,
        }
    }

    /// The title that a file name stands for, given the name without its
    /// extension: the name with a space for each `_` and each `-`.
    pub fn extract_title_from_filename(&self, file_stem: Option<&str>) -> (title: Option<String>)
        ensures
            title.deep_view() == match file_stem.deep_view() {
                Some(stem) => Some(title_of(stem)),
                None => None,
            },
    {
        let stem = match file_stem {
            Some(stem) => chars_of(stem),
            None => {
                return None;
            },
        };
        let mut title: Vec<char> = Vec::new();
        let mut i: usize = 0;
        while i < stem.len()
            invariant
                i <= stem.len(),
                title@.len() == i,
                forall|j: int| 0 <= j < i ==> title@[j] == title_of(stem@)[j],
            decreases stem.len() - i,
        {
            if stem[i] == '_' || stem[i] == '-' {
                title.push(' ');
            } else {
                title.push(stem[i]);
            }
            i += 1;
        }
        assert(title@ =~= title_of(stem@));
        Some(string_of(&title))
    }

    /// The names under which the file of `file_id` is looked for in the
    /// audio directory: the sanitized id with the extension of each format,
    /// in the order of [`supported_formats`].
    pub fn file_candidates(&self, file_id: &str) -> (names: Vec<String>)
        ensures
            names@.len() == supported_formats().len(),
            forall|i: int|
                0 <= i < names@.len() ==> (#[trigger] names@[i])@ == file_name_of(
                    sanitized(file_id@),
                    supported_formats()[i],
                ),
    {
        let clean = sanitize_file_id(file_id);
        let formats = formats();
        let mut names: Vec<String> = Vec::new();
        let mut i: usize = 0;
        while i < formats.len()
            invariant
                i <= formats.len(),
                formats.deep_view() == supported_formats(),
                clean@ == sanitized(file_id@),
                names@.len() == i,
                forall|j: int|
                    0 <= j < i ==> (#[trigger] names@[j])@ == file_name_of(
                        sanitized(file_id@),
                        supported_formats()[j],
                    ),
            decreases formats.len() - i,
        {
            assert(formats.deep_view()[i as int] == formats@[i as int]@);
            let mut name = clean.clone();
            name.append(".");
            name.append(formats[i]);
            names.push(name);
            i += 1;
        }
        names
    }

    /// Which of the candidates of [`file_candidates`](Self::file_candidates)
    /// is the file of `file_id`, given of each candidate whether it exists:
    /// the first that does. Without one, the file is not found.
    pub fn get_file_path(&self, file_id: &str, exists: &Vec<bool>) -> (found: Result<
        usize,
        AudioError,
    >)
        ensures
            match found {
                Ok(place) => {
                    &&& place < exists@.len()
                    &&& exists@[place as int]
                    &&& forall|j: int| 0 <= j < place ==> !exists@[j]
                },
                Err(error) => {
                    &&& forall|j: int| 0 <= j < exists@.len() ==> !exists@[j]
                    &&& error matches AudioError::NotFound(id)
                    &&& id@ == file_id@
                },
            },
    {
        let mut i: usize = 0;
        while i < exists.len()
            invariant
                i <= exists.len(),
                forall|j: int| 0 <= j < i ==> !exists@[j],
            decreases exists.len() - i,
        {
            if exists[i] {
                return Ok(i);
            }
            i += 1;
        }
        Err(AudioError::NotFound(file_id.to_owned()))
    }

    /// The MIME type of a file with the extension `extension`.
    pub fn get_content_type(&self, extension: Option<&str>) -> (content_type: String)
        ensures
            content_type@ == content_type_of(extension.deep_view()),
    {
        let extension = match extension {
            Some(extension) => extension,
            None => {
                return "application/octet-stream".to_owned();
            },
        };
        if same_text(extension, "mp3") {
            "audio/mpeg".to_owned()
        } else if same_text(extension, "flac") {
            "audio/flac".to_owned()
        } else if same_text(extension, "wav") {
            "audio/wav".to_owned()
        } else if same_text(extension, "m4a") {
            "audio/mp4".to_owned()
        } else if same_text(extension, "ogg") {
            "audio/ogg".to_owned()
        } else if same_text(extension, "aiff") {
            "audio/aiff".to_owned()
        } else {
            "application/octet-stream".to_owned()
        }
    }

    /// The name of the file to which an upload of `file_id` in the format
    /// `format` is written. A format that is not supported is refused.
    pub fn upload_file_name(&self, file_id: &str, format: &str) -> (name: Result<
        String,
        AudioError,
    >)
        ensures
            match name {
                Ok(name) => {
                    &&& supported_formats().contains(lowercased(format@))
                    &&& name@ == file_name_of(file_id@, format@)
                },
                Err(error) => {
                    &&& !supported_formats().contains(lowercased(format@))
                    &&& error matches AudioError::UnsupportedFormat(refused)
                    &&& refused@ == format@
                },
            },
    {
        if !is_supported_format(format) {
            return Err(AudioError::UnsupportedFormat(format.to_owned()));
        }
        let mut name = file_id.to_owned();
        name.append(".");
        name.append(format);
        Ok(name)
    }
}

} // verus!
