//! Downloads through an external downloader: its command line, what its
//! output says about the file it wrote, and the events that report a download.

use crate::text::{chars_of, share_again, shared_str};
use std::sync::Arc;
use vstd::prelude::*;
use vstd::string::StringExecFns;

verus! {

/// One word of the extra downloader options, by its role.
#[derive(Debug, Clone, PartialEq, Eq)]
pub enum ArgOrVal {
    /// `--name=value`: a long option that brings its value along.
    ArgumentWithVal(String),
    /// `-x`: a short option.
    Flag(String),
    /// `--name`: a long option, which the next word may complete.
    Argument(String),
    /// Anything else: the value of the long option before it.
    Positional(String),
}

/// Mathematical value of an [`ArgOrVal`].
pub enum ArgOrValView {
    ArgumentWithVal(Seq<char>),
    Flag(Seq<char>),
    Argument(Seq<char>),
    Positional(Seq<char>),
}

impl View for ArgOrVal {
    type V = ArgOrValView;

    open spec fn view(&self) -> ArgOrValView {
        match self {
            ArgOrVal::ArgumentWithVal(word) => ArgOrValView::ArgumentWithVal(word@),
            ArgOrVal::Flag(word) => ArgOrValView::Flag(word@),
            ArgOrVal::Argument(word) => ArgOrValView::Argument(word@),
            ArgOrVal::Positional(word) => ArgOrValView::Positional(word@),
        }
    }
}

impl DeepView for ArgOrVal {
    type V = ArgOrValView;

    open spec fn deep_view(&self) -> ArgOrValView {
        self.view()
    }
}

/// The role of one word: a word that starts with `--` is a long option, with
/// its value if it holds a `=`; another word that starts with `-` is a short
/// option; every other word is a value.
pub open spec fn classify(word: Seq<char>) -> ArgOrValView {
    if word.len() >= 2 && word[0] == '-' && word[1] == '-' {
        if word.contains('=') {
            ArgOrValView::ArgumentWithVal(word)
        } else {
            ArgOrValView::Argument(word)
        }
    } else if word.len() >= 1 && word[0] == '-' {
        ArgOrValView::Flag(word)
    } else {
        ArgOrValView::Positional(word)
    }
}

/// Whether `c` occurs in `chars`.
fn has_char(chars: &Vec<char>, c: char) -> (found: bool)
    ensures
        found == chars@.contains(c),
{
    let mut i: usize = 0;
    while i < chars.len()
        invariant
            i <= chars.len(),
            forall|j: int| 0 <= j < i ==> chars@[j] != c,
        decreases chars.len() - i,
    {
        if chars[i] == c {
            return true;
        }
        i += 1;
    }
    false
}

/// Gives one word its role.
pub fn classify_word(word: String) -> (arg: ArgOrVal)
    ensures
        arg@ == classify(word@),
{
    let chars = chars_of(word.as_str());
    if chars.len() >= 2 && chars[0] == '-' && chars[1] == '-' {
        if has_char(&chars, '=') {
            ArgOrVal::ArgumentWithVal(word)
        } else {
            ArgOrVal::Argument(word)
        }
    } else if chars.len() >= 1 && chars[0] == '-' {
        ArgOrVal::Flag(word)
    } else {
        ArgOrVal::Positional(word)
    }
}

/// Gives each word its role, in order.
pub fn classify_words(words: Vec<String>) -> (args: Vec<ArgOrVal>)
    ensures
        args.deep_view() == words.deep_view().map_values(|word: Seq<char>| classify(word)),
{
    let mut args: Vec<ArgOrVal> = Vec::new();
    let mut i: usize = 0;
    while i < words.len()
        invariant
            i <= words.len(),
            args@.len() == i,
            forall|j: int| 0 <= j < i ==> (#[trigger] args@[j])@ == classify(words@[j]@),
        decreases words.len() - i,
    {
        args.push(classify_word(words[i].clone()));
        i += 1;
    }
    assert(args.deep_view() =~= words.deep_view().map_values(|word: Seq<char>| classify(word)));
    args
}

/// The words into which shell-words' `split` divides a command line, as a
/// Unix shell would; `None` where it reports a quote that is never closed.
pub uninterp spec fn shell_split(input: Seq<char>) -> Option<Seq<Seq<char>>>;

/// The error of shell-words' `split`.
#[verifier::external_type_specification]
#[verifier::external_body]
pub struct ExParseError(shell_words::ParseError);

/// shell-words' `split`: the words of `input`, or its error. The result is
/// [`shell_split`] of the input.
#[verifier::external_body]
fn split_words(input: &str) -> (words: Result<Vec<String>, shell_words::ParseError>)
    ensures
        match words {
            Ok(words) => shell_split(input@) == Some(words.deep_view()),
            Err(_) => shell_split(input@) is None,
        },
{
    shell_words::split(input)
}

/// Why a line of extra downloader options cannot be read.
#[derive(Debug, PartialEq, Eq, Clone, Copy, Structural)]
pub enum ArgsError {
    /// A quote is opened and never closed.
    MissingClosingQuote,
}

/// The roles of the words of a line of options, given the words.
pub open spec fn parsed_args(words: Option<Seq<Seq<char>>>) -> Result<
    Seq<ArgOrValView>,
    ArgsError,
> {
    match words {
        Some(words) => Ok(words.map_values(|word: Seq<char>| classify(word))),
        None => Err(ArgsError::MissingClosingQuote),
    }
}

/// Reads a line of options that is written as for a shell: splits it into
/// words and gives each word its role.
pub fn parse_args(input: &str) -> (args: Result<Vec<ArgOrVal>, ArgsError>)
    ensures
        match args {
            Ok(args) => parsed_args(shell_split(input@)) == Ok::<Seq<ArgOrValView>, ArgsError>(
                args.deep_view(),
            ),
            Err(error) => parsed_args(shell_split(input@)) == Err::<Seq<ArgOrValView>, ArgsError>(
                error,
            ),
        },
{
    match split_words(input) {
        Ok(words) => Ok(classify_words(words)),
        Err(_) => Err(ArgsError::MissingClosingQuote),
    }
}

/// One argument of the downloader's command line: an option alone, or an
/// option with its value.
#[derive(Debug, Clone, PartialEq, Eq)]
pub struct DownloaderArg {
    pub arg: String,
    pub input: Option<String>,
}

/// Mathematical value of a [`DownloaderArg`].
pub struct DownloaderArgView {
    pub arg: Seq<char>,
    pub input: Option<Seq<char>>,
}

impl View for DownloaderArg {
    type V = DownloaderArgView;

    open spec fn view(&self) -> DownloaderArgView {
        DownloaderArgView { arg: self.arg@, input: self.input.deep_view() }
    }
}

impl DeepView for DownloaderArg {
    type V = DownloaderArgView;

    open spec fn deep_view(&self) -> DownloaderArgView {
        self.view()
    }
}

impl DownloaderArg {
    /// An option alone.
    pub fn new(arg: &str) -> (made: Self)
        ensures
            made@ == bare(arg@),
    {
        DownloaderArg { arg: arg.to_owned(), input: None }
    }

    /// An option with its value.
    pub fn new_with_arg(arg: &str, input: &str) -> (made: Self)
        ensures
            made@ == with_value(arg@, input@),
    {
        DownloaderArg { arg: arg.to_owned(), input: Some(input.to_owned()) }
    }
}

/// The argument that is the option `arg` alone.
pub open spec fn bare(arg: Seq<char>) -> DownloaderArgView {
    DownloaderArgView { arg, input: None }
}

/// The argument that is the option `arg` with the value `input`.
pub open spec fn with_value(arg: Seq<char>, input: Seq<char>) -> DownloaderArgView {
    DownloaderArgView { arg, input: Some(input) }
}

/// A long option that still waits for its value, as an argument of its own.
pub open spec fn flushed(pending: Option<Seq<char>>) -> Seq<DownloaderArgView> {
    match pending {
        Some(arg) => seq![bare(arg)],
        None => Seq::empty(),
    }
}

/// The arguments that the words `args` make, when the long option `pending`
/// still waits for its value.
///
/// A long option takes the value that directly follows it. Every other option
/// stands alone, and so does a long option that no value follows. A value
/// that follows no long option is left out.
pub open spec fn converted(args: Seq<ArgOrValView>, pending: Option<Seq<char>>) -> Seq<
    DownloaderArgView,
>
    decreases args.len(),
{
    if args.len() == 0 {
        flushed(pending)
    } else {
        let rest = args.drop_first();
        match args[0] {
            ArgOrValView::ArgumentWithVal(word) => flushed(pending) + seq![bare(word)] + converted(
                rest,
                None,
            ),
            ArgOrValView::Flag(word) => flushed(pending) + seq![bare(word)] + converted(
                rest,
                None,
            ),
            ArgOrValView::Argument(word) => flushed(pending) + converted(rest, Some(word)),
            ArgOrValView::Positional(word) => match pending {
                Some(arg) => seq![with_value(arg, word)] + converted(rest, None),
                None => converted(rest, None),
            },
        }
    }
}

/// Turns the words of the extra options into arguments of the downloader.
pub fn convert_to_args(extra_args: Vec<ArgOrVal>) -> (made: Vec<DownloaderArg>)
    ensures
        made.deep_view() == converted(extra_args.deep_view(), None),
{
    let mut made: Vec<DownloaderArg> = Vec::new();
    let mut last_arg: Option<String> = None;
    let mut i: usize = 0;
    assert(extra_args.deep_view().skip(0) =~= extra_args.deep_view());
    assert(made.deep_view() + converted(extra_args.deep_view(), None) =~= converted(
        extra_args.deep_view(),
        None,
    ));
    while i < extra_args.len()
        invariant
            i <= extra_args.len(),
            made.deep_view() + converted(extra_args.deep_view().skip(i as int), last_arg.deep_view())
                == converted(extra_args.deep_view(), None),
        decreases extra_args.len() - i,
    {
        let ghost before = made.deep_view();
        let ghost pending = last_arg.deep_view();
        let ghost remaining = extra_args.deep_view().skip(i as int);
        assert(remaining[0] == extra_args@[i as int]@);
        assert(remaining.drop_first() =~= extra_args.deep_view().skip(i + 1));
        match &extra_args[i] {
            ArgOrVal::ArgumentWithVal(word) => {
                if let Some(arg) = last_arg.take() {
                    made.push(DownloaderArg::new(arg.as_str()));
                }
                made.push(DownloaderArg::new(word.as_str()));
                assert(made.deep_view() =~= before + flushed(pending) + seq![bare(word@)]);
            },
            ArgOrVal::Flag(word) => {
                if let Some(arg) = last_arg.take() {
                    made.push(DownloaderArg::new(arg.as_str()));
                }
                made.push(DownloaderArg::new(word.as_str()));
                assert(made.deep_view() =~= before + flushed(pending) + seq![bare(word@)]);
            },
            ArgOrVal::Argument(word) => {
                if let Some(arg) = last_arg.take() {
                    made.push(DownloaderArg::new(arg.as_str()));
                }
                last_arg = Some(word.clone());
                assert(made.deep_view() =~= before + flushed(pending));
            },
            ArgOrVal::Positional(word) => {
                if let Some(arg) = last_arg.take() {
                    made.push(DownloaderArg::new_with_arg(arg.as_str(), word.as_str()));
                    assert(made.deep_view() =~= before + seq![with_value(arg@, word@)]);
                } else {
                    assert(made.deep_view() =~= before);
                }
            },
        }
        i += 1;
        assert(made.deep_view() + converted(
            extra_args.deep_view().skip(i as int),
            last_arg.deep_view(),
        ) =~= before + converted(remaining, pending));
    }
    assert(extra_args.deep_view().skip(i as int) =~= Seq::<ArgOrValView>::empty());
    let ghost before = made.deep_view();
    if let Some(arg) = last_arg {
        made.push(DownloaderArg::new(arg.as_str()));
    }
    assert(made.deep_view() =~= before + flushed(last_arg.deep_view()));
    made
}

/// The pattern of the line in which the downloader names the audio file that
/// it wrote; the group `name` is the file's name without `.mp3`.
pub const DESTINATION_PATTERN: &'static str = r"\[ExtractAudio\] Destination: (?P<name>.*)\.mp3";

/// The group of [`DESTINATION_PATTERN`] that holds the file's name.
pub const DESTINATION_GROUP: &'static str = "name";

/// What the group `group` holds in the leftmost match of the regular
/// expression `pattern` in `haystack`, as the regex crate finds it; `None`
/// where `pattern` is no regular expression of that crate, where it matches
/// nowhere in `haystack`, or where the group has no part in the match.
pub uninterp spec fn regex_capture(
    pattern: Seq<char>,
    group: Seq<char>,
    haystack: Seq<char>,
) -> Option<Seq<char>>;

/// regex's `Regex::new`, `Regex::captures`, `Captures::name` and
/// `Match::as_str` in a row: the text of one named group of the leftmost
/// match. The result is [`regex_capture`] of the arguments.
#[verifier::external_body]
fn capture_group(pattern: &str, group: &str, haystack: &str) -> (text: Option<String>)
    ensures
        text.deep_view() == regex_capture(pattern@, group@, haystack@),
{
    let regex = regex::Regex::new(pattern).ok()?;
    let captures = regex.captures(haystack)?;
    Some(captures.name(group)?.as_str().to_owned())
}

/// The path of the audio file named `name` in the directory `dir`.
pub open spec fn filepath_of(name: Option<Seq<char>>, dir: Seq<char>) -> Option<Seq<char>> {
    match name {
        Some(name) => Some(dir + "/"@ + name + ".mp3"@),
        None => None,
    }
}

/// The path of the audio file in `dir`, given the name that the downloader
/// reported, if it reported one.
pub fn filepath_from_name(name: Option<String>, dir: &str) -> (path: Option<String>)
    ensures
        path.deep_view() == filepath_of(name.deep_view(), dir@),
{
    match name {
        Some(name) => {
            let mut path = dir.to_owned();
            path.append("/");
            path.append(name.as_str());
            path.append(".mp3");
            Some(path)
        },
        None => None,
    }
}

/// Finds in the downloader's output the audio file that it wrote, and gives
/// the file's path in `dir`, the directory that it wrote to.
pub fn extract_filepath(output: &str, dir: &str) -> (path: Option<String>)
    ensures
        path.deep_view() == filepath_of(
            regex_capture(DESTINATION_PATTERN@, DESTINATION_GROUP@, output@),
            dir@,
        ),
{
    filepath_from_name(capture_group(DESTINATION_PATTERN, DESTINATION_GROUP, output), dir)
}

/// Shared, immutable handle to the URL that identifies a download.
pub type YTDLMsgURL = Arc<str>;

/// The events by which a download reports its progress.
#[derive(Clone, PartialEq, Eq, Debug)]
pub enum YTDLMsg {
    /// The download begins.
    ///
    /// `(Url, Title)`
    Start(YTDLMsgURL, String),
    /// The download succeeded; post-processing is not done yet.
    ///
    /// `(Url)`
    Success(YTDLMsgURL),
    /// The download is over, after a success or after an error.
    ///
    /// `(Url, Filename)`
    Completed(YTDLMsgURL, Option<String>),
    /// The download failed and has been given up.
    ///
    /// `(Url, Title, ErrorAsString)`
    Error(YTDLMsgURL, String, String),
}

/// Mathematical value of a [`YTDLMsg`].
pub enum YTDLMsgView {
    Start(Seq<char>, Seq<char>),
    Success(Seq<char>),
    Completed(Seq<char>, Option<Seq<char>>),
    Error(Seq<char>, Seq<char>, Seq<char>),
}

impl View for YTDLMsg {
    type V = YTDLMsgView;

    open spec fn view(&self) -> YTDLMsgView {
        match self {
            YTDLMsg::Start(url, title) => YTDLMsgView::Start(url@, title@),
            YTDLMsg::Success(url) => YTDLMsgView::Success(url@),
            YTDLMsg::Completed(url, filename) => YTDLMsgView::Completed(url@, filename.deep_view()),
            YTDLMsg::Error(url, title, error) => YTDLMsgView::Error(url@, title@, error@),
        }
    }
}

impl DeepView for YTDLMsg {
    type V = YTDLMsgView;

    open spec fn deep_view(&self) -> YTDLMsgView {
        self.view()
    }
}

/// The title under which every download is reported.
pub const DOWNLOAD_TITLE: &'static str = "youtube music";

/// The event that opens the download of `url`.
pub fn download_started(url: &str) -> (msg: YTDLMsg)
    ensures
        msg@ == YTDLMsgView::Start(url@, DOWNLOAD_TITLE@),
{
    YTDLMsg::Start(shared_str(url), DOWNLOAD_TITLE.to_owned())
}

/// The events that close the download of `url`: after a success, `Success`
/// and `Completed` with the file that was written, if it is known; after a
/// failure, `Error` with the reason and `Completed` without a file.
pub open spec fn closing_events(
    url: Seq<char>,
    outcome: Result<Option<Seq<char>>, Seq<char>>,
) -> Seq<YTDLMsgView> {
    match outcome {
        Ok(file) => seq![YTDLMsgView::Success(url), YTDLMsgView::Completed(url, file)],
        Err(error) => seq![
            YTDLMsgView::Error(url, DOWNLOAD_TITLE@, error),
            YTDLMsgView::Completed(url, None),
        ],
    }
}

/// The outcome of a download as a mathematical value.
pub open spec fn outcome_view(outcome: Result<Option<String>, String>) -> Result<
    Option<Seq<char>>,
    Seq<char>,
> {
    match outcome {
        Ok(file) => Ok(file.deep_view()),
        Err(error) => Err(error@),
    }
}

/// The events that close the download of `url`, given the file that was
/// written or the reason of the failure.
pub fn download_closed(url: &str, outcome: Result<Option<String>, String>) -> (msgs: Vec<YTDLMsg>)
    ensures
        msgs.deep_view() == closing_events(url@, outcome_view(outcome)),
{
    let shared = shared_str(url);
    let mut msgs: Vec<YTDLMsg> = Vec::new();
    match outcome {
        Ok(file) => {
            msgs.push(YTDLMsg::Success(share_again(&shared)));
            msgs.push(YTDLMsg::Completed(shared, file));
        },
        Err(error) => {
            msgs.push(YTDLMsg::Error(share_again(&shared), DOWNLOAD_TITLE.to_owned(), error));
            msgs.push(YTDLMsg::Completed(shared, None));
        },
    }
    assert(msgs.deep_view() =~= closing_events(url@, outcome_view(outcome)));
    msgs
}

/// The events that close the download of `url` into `dir`, given what the
/// downloader printed or the reason of its failure.
pub fn download_finished(url: &str, outcome: Result<String, String>, dir: &str) -> (msgs: Vec<
    YTDLMsg,
>)
    ensures
        msgs.deep_view() == closing_events(
            url@,
            match outcome {
                Ok(output) => Ok(
                    filepath_of(
                        regex_capture(DESTINATION_PATTERN@, DESTINATION_GROUP@, output@),
                        dir@,
                    ),
                ),
                Err(error) => Err(error@),
            },
        ),
{
    match outcome {
        Ok(output) => download_closed(url, Ok(extract_filepath(output.as_str(), dir))),
        Err(error) => download_closed(url, Err(error)),
    }
}

/// The arguments with which every download starts: extract the audio as
/// mp3, embed metadata and thumbnail, fetch all subtitles as lrc files, and
/// name the file after the title.
pub open spec fn base_args() -> Seq<DownloaderArgView> {
    seq![
        bare("--extract-audio"@),
        with_value("--audio-format"@, "mp3"@),
        bare("--add-metadata"@),
        bare("--embed-thumbnail"@),
        with_value("--metadata-from-title"@, "%(artist) - %(title)s"@),
        bare("--write-sub"@),
        bare("--all-subs"@),
        with_value("--convert-subs"@, "lrc"@),
        with_value("--output"@, "%(title).90s.%(ext)s"@),
    ]
}

/// The downloader's arguments for one download, given the words of the extra options.
pub open spec fn download_args_of(words: Option<Seq<Seq<char>>>) -> Result<
    Seq<DownloaderArgView>,
    ArgsError,
> {
    match parsed_args(words) {
        Ok(extra) => Ok(base_args() + converted(extra, None)),
        Err(error) => Err(error),
    }
}

/// The downloader's arguments for one download: the fixed ones, then those
/// that the configured line of extra options adds.
pub fn download_args(extra_args: &str) -> (args: Result<Vec<DownloaderArg>, ArgsError>)
    ensures
        match args {
            Ok(args) => download_args_of(shell_split(extra_args@)) == Ok::<
                Seq<DownloaderArgView>,
                ArgsError,
            >(args.deep_view()),
            Err(error) => download_args_of(shell_split(extra_args@)) == Err::<
                Seq<DownloaderArgView>,
                ArgsError,
            >(error),
        },
{
    let extra = match parse_args(extra_args) {
        Ok(extra) => extra,
        Err(error) => {
            return Err(error);
        },
    };
    let mut args: Vec<DownloaderArg> = Vec::new();
    args.push(DownloaderArg::new("--extract-audio"));
    args.push(DownloaderArg::new_with_arg("--audio-format", "mp3"));
    args.push(DownloaderArg::new("--add-metadata"));
    args.push(DownloaderArg::new("--embed-thumbnail"));
    args.push(DownloaderArg::new_with_arg("--metadata-from-title", "%(artist) - %(title)s"));
    args.push(DownloaderArg::new("--write-sub"));
    args.push(DownloaderArg::new("--all-subs"));
    args.push(DownloaderArg::new_with_arg("--convert-subs", "lrc"));
    args.push(DownloaderArg::new_with_arg("--output", "%(title).90s.%(ext)s"));
    assert(args.deep_view() =~= base_args());
    let mut extra_args_parsed = convert_to_args(extra);
    let ghost added = extra_args_parsed.deep_view();
    args.append(&mut extra_args_parsed);
    assert(args.deep_view() =~= base_args() + added);
    Ok(args)
}

/// One video of a page of search results.
#[derive(Debug, Clone, PartialEq, Eq)]
pub struct YoutubeVideo {
    pub title: String,
    pub length_seconds: u64,
    pub video_id: String,
}

/// Why no video could be picked from a page of search results.
#[derive(Debug, PartialEq, Eq, Clone, Copy, Structural)]
pub enum YoutubeOptionsError {
    /// The page has no video at the index.
    IndexNotFound,
}

/// One page of search results, and which page it is. Pages count from 1.
#[derive(Debug, Clone, PartialEq, Eq)]
pub struct YoutubeOptions {
    pub items: Vec<YoutubeVideo>,
    pub page: u32,
}

/// The address under which the video `video_id` is watched.
pub open spec fn watch_url(video_id: Seq<char>) -> Seq<char> {
    "https://www.youtube.com/watch?v="@ + video_id
}

impl Default for YoutubeOptions {
    fn default() -> (options: Self)
        ensures
            options.items@.len() == 0,
            options.page == 1,
    {
        YoutubeOptions { items: Vec::new(), page: 1 }
    }
}

impl YoutubeOptions {
    /// The video at `index` of this page.
    pub fn get_by_index(&self, index: usize) -> (item: Result<&YoutubeVideo, YoutubeOptionsError>)
        ensures
            index < self.items@.len() ==> item == Ok::<&YoutubeVideo, YoutubeOptionsError>(
                &self.items@[index as int],
            ),
            index >= self.items@.len() ==> item == Err::<&YoutubeVideo, YoutubeOptionsError>(
                YoutubeOptionsError::IndexNotFound,
            ),
    {
        if index < self.items.len() {
            Ok(&self.items[index])
        } else {
            Err(YoutubeOptionsError::IndexNotFound)
        }
    }

    /// Steps back one page, unless this is the first. Returns the page whose
    /// results are to be fetched, if the page changed.
    pub fn prev_page(&mut self) -> (fetch: Option<u32>)
        ensures
            final(self).items == old(self).items,
            old(self).page > 1 ==> final(self).page == old(self).page - 1 && fetch == Some(
                final(self).page,
            ),
            old(self).page <= 1 ==> final(self).page == old(self).page && fetch is None,
    {
        if self.page > 1 {
            self.page -= 1;
            Some(self.page)
        } else {
            None
        }
    }

    /// Steps forward one page. Returns the page whose results are to be fetched.
    pub fn next_page(&mut self) -> (fetch: u32)
        requires
            old(self).page < u32::MAX,
        ensures
            final(self).items == old(self).items,
            final(self).page == old(self).page + 1,
            fetch == final(self).page,
    {
        self.page += 1;
        self.page
    }

    #[must_use]
    pub fn page(&self) -> (page: u32)
        ensures
            page == self.page,
    {
        self.page
    }

    /// The address from which the video at `index` of this page is
    /// downloaded; `None` where the page has no such video.
    pub fn download_url(&self, index: usize) -> (url: Option<String>)
        ensures
            index < self.items@.len() ==> url.deep_view() == Some(
                watch_url(self.items@[index as int].video_id@),
            ),
            index >= self.items@.len() ==> url is None,
    {
        match self.get_by_index(index) {
            Ok(item) => {
                let mut url = "https://www.youtube.com/watch?v=".to_owned();
                url.append(item.video_id.as_str());
                Some(url)
            },
            Err(_) => None,
        }
    }
}

} // verus!
