use ebcapture::download::{
    categorize_download_error, decide_retry, describe_download_error, describe_fetch_error,
    download_single_video, extract_video_id, find_video_in_query, has_id_shape, output_file_name,
    parse_audio_codec, parse_audio_quality, parse_video_codec, parse_video_quality,
    plan_download, AttemptPlan,
    replace_reserved, same_text, sanitize_filename, validate_urls, video_id_from_parts,
    video_id_of, AudioCodec, DownloadResult, DownloadTrouble, Quality, RetryDecision, UrlParts,
    VideoCodec,
};
use ebcapture::error::EbCaptureError;
use ebcapture::pdf_generator::create_pdf;
use ebcapture::thumbnail::scaled_side;

fn some(text: &str) -> Option<String> {
    Some(text.to_string())
}

#[test]
fn video_id_from_watch_addresses() {
    assert_eq!(extract_video_id("https://www.youtube.com/watch?v=dQw4w9WgXcQ"), some("dQw4w9WgXcQ"));
    assert_eq!(extract_video_id("https://m.youtube.com/watch?v=abc&t=10"), some("abc"));
    assert_eq!(extract_video_id("https://www.youtube.com/watch?t=10&v=xyz_-1#top"), some("xyz_-1"));
    assert_eq!(extract_video_id("https://www.youtube.com/watch?list=1"), None);
    assert_eq!(extract_video_id("https://www.youtube.com/watch?v=a=b"), None);
    assert_eq!(extract_video_id("https://www.youtube.com/"), None);
    assert_eq!(extract_video_id("https://example.com/watch?v=abc"), None);
}

#[test]
fn video_id_from_short_links() {
    assert_eq!(extract_video_id("https://youtu.be/dQw4w9WgXcQ"), some("dQw4w9WgXcQ"));
    assert_eq!(extract_video_id("https://youtu.be/abc?t=3"), some("abc"));
    assert_eq!(extract_video_id("https://youtu.be/"), None);
}

#[test]
fn bare_identifier_is_taken_as_it_is() {
    assert_eq!(extract_video_id("dQw4w9WgXcQ"), some("dQw4w9WgXcQ"));
    assert_eq!(extract_video_id("a_b-c_d-e_f"), some("a_b-c_d-e_f"));
    assert_eq!(extract_video_id("dQw4w9WgXc"), None);
    assert_eq!(extract_video_id("dQw4w9WgXcQQ"), None);
    assert_eq!(extract_video_id("dQw4w9 gXcQ"), None);
    assert_eq!(extract_video_id(""), None);
    assert!(has_id_shape("01234567890"));
    assert!(!has_id_shape("0123456789!"));
    // eleven bytes, of which some make up letters of two bytes
    assert!(has_id_shape("ééééé1"));
}

#[test]
fn query_is_searched_pair_by_pair() {
    assert_eq!(find_video_in_query("v=abc"), some("abc"));
    assert_eq!(find_video_in_query("a=1&v=abc&b=2"), some("abc"));
    assert_eq!(find_video_in_query("v=&v=abc"), some(""));
    assert_eq!(find_video_in_query("v=a=b&v=second"), some("second"));
    assert_eq!(find_video_in_query("vv=abc&av=1"), None);
    assert_eq!(find_video_in_query(""), None);
    assert_eq!(find_video_in_query("&&"), None);
    assert_eq!(find_video_in_query("v"), None);
    assert_eq!(find_video_in_query("x=1&v=한글"), some("한글"));
}

#[test]
fn parts_of_an_address_decide() {
    let watch = UrlParts { host: some("www.youtube.com"), query: some("v=abc"), path: "/watch".to_string() };
    assert_eq!(video_id_from_parts(&watch), some("abc"));
    let short = UrlParts { host: some("youtu.be"), query: None, path: "/xyz".to_string() };
    assert_eq!(video_id_from_parts(&short), some("xyz"));
    let root = UrlParts { host: some("youtu.be"), query: None, path: "/".to_string() };
    assert_eq!(video_id_from_parts(&root), None);
    let other = UrlParts { host: some("example.com"), query: some("v=abc"), path: "/xyz".to_string() };
    assert_eq!(video_id_from_parts(&other), None);
    let hostless = UrlParts { host: None, query: some("v=abc"), path: "/xyz".to_string() };
    assert_eq!(video_id_from_parts(&hostless), None);
    assert_eq!(video_id_of("01234567890", &Some(other)), some("01234567890"));
    assert_eq!(video_id_of("0123", &None), None);
}

#[test]
fn valid_addresses_are_normalized_in_order() {
    let urls = vec![
        "https://youtu.be/first".to_string(),
        "not a video".to_string(),
        "dQw4w9WgXcQ".to_string(),
        "https://www.youtube.com/watch?v=third".to_string(),
    ];
    assert_eq!(
        validate_urls(&urls),
        vec![
            "https://www.youtube.com/watch?v=first",
            "https://www.youtube.com/watch?v=dQw4w9WgXcQ",
            "https://www.youtube.com/watch?v=third",
        ]
    );
    assert_eq!(validate_urls(&Vec::new()), Vec::<String>::new());
}

#[test]
fn reserved_characters_become_underscores() {
    assert_eq!(replace_reserved("a/b\\c:d*e?f\"g<h>i|j"), "a_b_c_d_e_f_g_h_i_j");
    assert_eq!(replace_reserved(" 한글 제목 "), " 한글 제목 ");
    assert_eq!(sanitize_filename("  What? A <Title>: part 1/2  "), "What_ A _Title__ part 1_2");
    assert_eq!(sanitize_filename(""), "");
    assert_eq!(output_file_name(" a|b ", true), "a_b.mp3");
    assert_eq!(output_file_name("film", false), "film.mp4");
}

#[test]
fn qualities_and_codecs_by_word() {
    assert_eq!(parse_video_quality("BEST"), Quality::Best);
    assert_eq!(parse_video_quality("high"), Quality::High);
    assert_eq!(parse_video_quality("Medium"), Quality::Medium);
    assert_eq!(parse_video_quality("low"), Quality::Low);
    assert_eq!(parse_video_quality("worst"), Quality::Worst);
    assert_eq!(parse_video_quality("ultra"), Quality::High);
    assert_eq!(parse_audio_quality("Worst"), Quality::Worst);
    assert_eq!(parse_audio_quality(""), Quality::High);
    assert_eq!(parse_video_codec("VP9"), VideoCodec::VP9);
    assert_eq!(parse_video_codec("avc1"), VideoCodec::AVC1);
    assert_eq!(parse_video_codec("H264"), VideoCodec::AVC1);
    assert_eq!(parse_video_codec("av1"), VideoCodec::AV1);
    assert_eq!(parse_video_codec("any"), VideoCodec::Any);
    assert_eq!(parse_video_codec("xvid"), VideoCodec::Any);
    assert_eq!(parse_audio_codec("Opus"), AudioCodec::Opus);
    assert_eq!(parse_audio_codec("aac"), AudioCodec::AAC);
    assert_eq!(parse_audio_codec("MP3"), AudioCodec::MP3);
    assert_eq!(parse_audio_codec("flac"), AudioCodec::Any);
    assert!(same_text("abc", "abc"));
    assert!(!same_text("abc", "abd"));
    assert!(!same_text("abc", "ab"));
}

#[test]
fn results_of_a_download() {
    let ok = DownloadResult::success("u".to_string(), "t".to_string(), "p".to_string());
    assert_eq!(
        ok,
        DownloadResult { url: "u".to_string(), title: some("t"), success: true, error: None, file_path: some("p") }
    );
    let failed = DownloadResult::failure("u".to_string(), "e".to_string());
    assert_eq!(
        failed,
        DownloadResult { url: "u".to_string(), title: None, success: false, error: some("e"), file_path: None }
    );
}

#[test]
fn failed_downloads_are_retried_up_to_three_times() {
    assert_eq!(download_single_video(1, "timeout"), RetryDecision::RetryAfter { millis: 2000 });
    assert_eq!(download_single_video(2, "timeout"), RetryDecision::RetryAfter { millis: 2000 });
    assert_eq!(
        download_single_video(3, "timeout"),
        RetryDecision::GiveUp { message: "failed for good after 3 attempts: timeout".to_string() }
    );
    assert_eq!(
        download_single_video(1, "Video is PRIVATE"),
        RetryDecision::GiveUp {
            message: "error that cannot be retried: Video is PRIVATE".to_string()
        }
    );
    for word in ["deleted", "unavailable", "copyright"] {
        assert!(matches!(download_single_video(1, word), RetryDecision::GiveUp { .. }));
    }
    assert_eq!(
        decide_retry(1, "X", "copyright"),
        RetryDecision::GiveUp { message: "error that cannot be retried: X".to_string() }
    );
}

#[test]
fn errors_are_put_down_to_a_kind_of_trouble() {
    assert_eq!(categorize_download_error("source empty"), DownloadTrouble::NoSource);
    assert_eq!(categorize_download_error("no formats found"), DownloadTrouble::NoSource);
    assert_eq!(categorize_download_error("connection reset"), DownloadTrouble::Network);
    assert_eq!(categorize_download_error("access denied"), DownloadTrouble::Permission);
    assert_eq!(categorize_download_error("no space left"), DownloadTrouble::DiskSpace);
    assert_eq!(categorize_download_error("video unavailable"), DownloadTrouble::Unavailable);
    assert_eq!(categorize_download_error("restricted"), DownloadTrouble::Restricted);
    assert_eq!(categorize_download_error("this is a live event"), DownloadTrouble::LiveStream);
    assert_eq!(categorize_download_error("premiere"), DownloadTrouble::Premiere);
    assert_eq!(categorize_download_error("boom"), DownloadTrouble::Unknown);
    // the first kind in the list decides
    assert_eq!(categorize_download_error("network disk"), DownloadTrouble::Network);
    assert_eq!(describe_download_error("Boom", "boom"), "download failed: Boom");
    assert_eq!(
        describe_download_error("Connection lost", "connection lost"),
        "network connection error: Connection lost"
    );
    assert_eq!(
        describe_fetch_error("E", "unknown variant `srt`, expected json3"),
        "the video has subtitles in a form that is not supported (SRT); try another video or skip subtitles: E"
    );
    assert_eq!(describe_fetch_error("E", "unknown variant srt"), "video information could not be loaded: E");
}

#[test]
fn thumbnail_sides_are_rounded_down() {
    assert_eq!(scaled_side(1920, 35), Some(672));
    assert_eq!(scaled_side(1080, 35), Some(378));
    assert_eq!(scaled_side(3, 35), Some(1));
    assert_eq!(scaled_side(2, 35), Some(0));
    assert_eq!(scaled_side(u32::MAX, 1), Some(42949672));
    assert_eq!(scaled_side(u32::MAX, 2), None);
}

#[test]
fn document_needs_a_page() {
    assert_eq!(create_pdf(3), Ok(()));
    assert_eq!(
        create_pdf(0),
        Err(EbCaptureError::PdfGenerationFailure { reason: "no images to assemble".to_string() })
    );
}

#[test]
fn existing_file_is_not_downloaded_again() {
    assert_eq!(
        plan_download("u", " a/b ", false, true),
        AttemptPlan::AlreadyThere {
            result: DownloadResult::failure(
                "u".to_string(),
                "the file exists already: a_b.mp4".to_string()
            )
        }
    );
    assert_eq!(
        plan_download("u", " a/b ", true, false),
        AttemptPlan::Download { title: "a_b".to_string(), file_name: "a_b.mp3".to_string() }
    );
}
