use termusiclib::youtube::{
    classify_word, classify_words, convert_to_args, download_args, download_closed,
    download_finished, download_started, extract_filepath, filepath_from_name, parse_args,
    ArgOrVal, ArgsError, DownloaderArg, YTDLMsg, YoutubeOptions, YoutubeOptionsError,
    YoutubeVideo, DESTINATION_PATTERN,
};

fn bare(arg: &str) -> DownloaderArg {
    DownloaderArg { arg: arg.to_string(), input: None }
}

fn with(arg: &str, input: &str) -> DownloaderArg {
    DownloaderArg { arg: arg.to_string(), input: Some(input.to_string()) }
}

#[test]
fn test_youtube_output_parsing() {
    assert_eq!(
        extract_filepath(
            r"sdflsdf [ExtractAudio] Destination: 观众说“小哥哥，到饭点了”《干饭人之歌》走，端起饭盆干饭去.mp3 sldflsdfj",
            "/tmp"
        )
        .unwrap(),
        "/tmp/观众说“小哥哥，到饭点了”《干饭人之歌》走，端起饭盆干饭去.mp3".to_string()
    );
}

#[test]
fn output_without_a_destination_gives_no_path() {
    assert_eq!(extract_filepath("[download] 100% of 3.2MiB", "/tmp"), None);
    assert_eq!(extract_filepath("", "/tmp"), None);
    assert_eq!(extract_filepath("[ExtractAudio] Destination: song.ogg", "/tmp"), None);
}

#[test]
fn the_destination_ends_at_the_last_mp3_of_its_line() {
    assert_eq!(
        extract_filepath("[ExtractAudio] Destination: a.mp3.mp3 tail\nnext.mp3", "d"),
        Some("d/a.mp3.mp3".to_string())
    );
}

#[test]
fn the_pattern_is_the_one_of_the_downloader() {
    assert_eq!(DESTINATION_PATTERN, r"\[ExtractAudio\] Destination: (?P<name>.*)\.mp3");
}

#[test]
fn path_from_a_reported_name() {
    assert_eq!(
        filepath_from_name(Some("song".to_string()), "/music"),
        Some("/music/song.mp3".to_string())
    );
    assert_eq!(filepath_from_name(Some(String::new()), ""), Some("/.mp3".to_string()));
    assert_eq!(filepath_from_name(None, "/music"), None);
}

#[test]
fn words_get_their_roles() {
    assert_eq!(
        classify_word("--proxy=socks5://x".to_string()),
        ArgOrVal::ArgumentWithVal("--proxy=socks5://x".to_string())
    );
    assert_eq!(classify_word("--proxy".to_string()), ArgOrVal::Argument("--proxy".to_string()));
    assert_eq!(classify_word("--".to_string()), ArgOrVal::Argument("--".to_string()));
    assert_eq!(classify_word("-x".to_string()), ArgOrVal::Flag("-x".to_string()));
    assert_eq!(classify_word("-".to_string()), ArgOrVal::Flag("-".to_string()));
    assert_eq!(classify_word("-a=b".to_string()), ArgOrVal::Flag("-a=b".to_string()));
    assert_eq!(classify_word("value".to_string()), ArgOrVal::Positional("value".to_string()));
    assert_eq!(classify_word("a=b".to_string()), ArgOrVal::Positional("a=b".to_string()));
    assert_eq!(classify_word(String::new()), ArgOrVal::Positional(String::new()));
}

#[test]
fn words_keep_their_order() {
    assert_eq!(
        classify_words(vec!["x".to_string(), "-y".to_string(), "--z".to_string()]),
        vec![
            ArgOrVal::Positional("x".to_string()),
            ArgOrVal::Flag("-y".to_string()),
            ArgOrVal::Argument("--z".to_string()),
        ]
    );
    assert_eq!(classify_words(vec![]), vec![]);
}

#[test]
fn a_line_of_options_is_split_as_by_a_shell() {
    assert_eq!(
        parse_args("--cookies 'my file.txt' -q --rate=1M"),
        Ok(vec![
            ArgOrVal::Argument("--cookies".to_string()),
            ArgOrVal::Positional("my file.txt".to_string()),
            ArgOrVal::Flag("-q".to_string()),
            ArgOrVal::ArgumentWithVal("--rate=1M".to_string()),
        ])
    );
    assert_eq!(parse_args(""), Ok(vec![]));
    assert_eq!(parse_args("   "), Ok(vec![]));
}

#[test]
fn an_open_quote_is_refused() {
    assert_eq!(parse_args("--name 'open"), Err(ArgsError::MissingClosingQuote));
    assert_eq!(parse_args("\"a"), Err(ArgsError::MissingClosingQuote));
}

#[test]
fn long_options_take_the_value_behind_them() {
    let args = vec![
        ArgOrVal::Argument("--cookies".to_string()),
        ArgOrVal::Positional("file.txt".to_string()),
        ArgOrVal::Flag("-q".to_string()),
        ArgOrVal::ArgumentWithVal("--rate=1M".to_string()),
        ArgOrVal::Argument("--verbose".to_string()),
    ];
    assert_eq!(
        convert_to_args(args),
        vec![with("--cookies", "file.txt"), bare("-q"), bare("--rate=1M"), bare("--verbose")]
    );
}

#[test]
fn values_without_an_option_are_left_out() {
    let args = vec![
        ArgOrVal::Positional("stray".to_string()),
        ArgOrVal::Argument("--a".to_string()),
        ArgOrVal::Positional("1".to_string()),
        ArgOrVal::Positional("2".to_string()),
        ArgOrVal::Flag("-f".to_string()),
        ArgOrVal::Positional("3".to_string()),
    ];
    assert_eq!(convert_to_args(args), vec![with("--a", "1"), bare("-f")]);
}

#[test]
fn a_long_option_before_another_option_stands_alone() {
    let args = vec![
        ArgOrVal::Argument("--a".to_string()),
        ArgOrVal::Argument("--b".to_string()),
        ArgOrVal::ArgumentWithVal("--c=1".to_string()),
    ];
    assert_eq!(convert_to_args(args), vec![bare("--a"), bare("--b"), bare("--c=1")]);
    assert_eq!(convert_to_args(vec![]), vec![]);
}

#[test]
fn downloader_arg_constructors() {
    assert_eq!(DownloaderArg::new("--x"), bare("--x"));
    assert_eq!(DownloaderArg::new_with_arg("--x", "y"), with("--x", "y"));
}

#[test]
fn every_download_starts_with_the_fixed_arguments() {
    let fixed = vec![
        bare("--extract-audio"),
        with("--audio-format", "mp3"),
        bare("--add-metadata"),
        bare("--embed-thumbnail"),
        with("--metadata-from-title", "%(artist) - %(title)s"),
        bare("--write-sub"),
        bare("--all-subs"),
        with("--convert-subs", "lrc"),
        with("--output", "%(title).90s.%(ext)s"),
    ];
    assert_eq!(download_args(""), Ok(fixed.clone()));
    let mut more = fixed;
    more.push(with("--proxy", "p"));
    more.push(bare("-q"));
    assert_eq!(download_args("--proxy p -q"), Ok(more));
    assert_eq!(download_args("'"), Err(ArgsError::MissingClosingQuote));
}

#[test]
fn a_download_opens_with_start() {
    assert_eq!(
        download_started("http://v"),
        YTDLMsg::Start("http://v".into(), "youtube music".to_string())
    );
}

#[test]
fn a_download_closes_after_success() {
    assert_eq!(
        download_closed("u", Ok(Some("/tmp/a.mp3".to_string()))),
        vec![
            YTDLMsg::Success("u".into()),
            YTDLMsg::Completed("u".into(), Some("/tmp/a.mp3".to_string())),
        ]
    );
    assert_eq!(
        download_closed("u", Ok(None)),
        vec![YTDLMsg::Success("u".into()), YTDLMsg::Completed("u".into(), None)]
    );
}

#[test]
fn a_download_closes_after_failure() {
    assert_eq!(
        download_closed("u", Err("exit 1".to_string())),
        vec![
            YTDLMsg::Error("u".into(), "youtube music".to_string(), "exit 1".to_string()),
            YTDLMsg::Completed("u".into(), None),
        ]
    );
}

#[test]
fn a_finished_download_names_the_file_from_the_output() {
    assert_eq!(
        download_finished("u", Ok("x [ExtractAudio] Destination: s.mp3".to_string()), "/m"),
        vec![
            YTDLMsg::Success("u".into()),
            YTDLMsg::Completed("u".into(), Some("/m/s.mp3".to_string())),
        ]
    );
    assert_eq!(
        download_finished("u", Ok("nothing written".to_string()), "/m"),
        vec![YTDLMsg::Success("u".into()), YTDLMsg::Completed("u".into(), None)]
    );
    assert_eq!(
        download_finished("u", Err("boom".to_string()), "/m"),
        vec![
            YTDLMsg::Error("u".into(), "youtube music".to_string(), "boom".to_string()),
            YTDLMsg::Completed("u".into(), None),
        ]
    );
}

fn video(id: &str) -> YoutubeVideo {
    YoutubeVideo { title: id.to_uppercase(), length_seconds: 60, video_id: id.to_string() }
}

#[test]
fn search_pages() {
    let mut options = YoutubeOptions::default();
    assert_eq!(options.page(), 1);
    assert!(options.items.is_empty());
    assert_eq!(options.prev_page(), None);
    assert_eq!(options.page(), 1);
    assert_eq!(options.next_page(), 2);
    assert_eq!(options.next_page(), 3);
    assert_eq!(options.prev_page(), Some(2));
    assert_eq!(options.page(), 2);
}

#[test]
fn videos_by_index() {
    let options = YoutubeOptions { items: vec![video("a"), video("b")], page: 1 };
    assert_eq!(options.get_by_index(1), Ok(&video("b")));
    assert_eq!(options.get_by_index(2), Err(YoutubeOptionsError::IndexNotFound));
    assert_eq!(
        options.download_url(0),
        Some("https://www.youtube.com/watch?v=a".to_string())
    );
    assert_eq!(options.download_url(2), None);
}
