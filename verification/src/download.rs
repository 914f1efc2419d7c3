//! Rules of the video downloader: which addresses name a video, how a file
//! is named, and when a failed download is tried again.

use vstd::prelude::*;
use vstd::string::StringExecFns;
use crate::text::{
    any_occurs_in, byte_len, contains, contains_any, lowercased, occurs_in, to_lowercase, trim,
    trimmed, word_texts,
};

verus! {

/// The parts of an address that the downloader looks at.
#[derive(Debug, PartialEq, Eq)]
pub struct UrlParts {
    pub host: Option<String>,
    pub query: Option<String>,
    pub path: String,
}

/// The texts of an optional text.
pub open spec fn optional_text(text: Option<String>) -> Option<Seq<char>> {
    match text {
        Some(t) => Some(t@),
        None => None,
    }
}

impl UrlParts {
    /// Host, query and path as character sequences.
    pub open spec fn model(self) -> (Option<Seq<char>>, Option<Seq<char>>, Seq<char>) {
        (optional_text(self.host), optional_text(self.query), self.path@)
    }
}

/// Host, query and path of the address that `url::Url::parse` reads from a
/// text, as `Url::host_str`, `Url::query` and `Url::path` give them; `None`
/// where the text is not an absolute address.
pub uninterp spec fn parsed_url(text: Seq<char>) -> Option<
    (Option<Seq<char>>, Option<Seq<char>>, Seq<char>),
>;

/// `url::Url::parse` reads an address from a text; `Url::host_str`,
/// `Url::query` and `Url::path` then give its host, its query and its path.
#[verifier::external_body]
fn parse_url(text: &str) -> (r: Option<UrlParts>)
    ensures
        match parsed_url(text@) {
            Some(parts) => r matches Some(p) && p.model() == parts,
            None => r is None,
        },
{
    match url::Url::parse(text) {
        Ok(u) => Some(
            UrlParts {
                host: u.host_str().map(str::to_string),
                query: u.query().map(str::to_string),
                path: u.path().to_string(),
            },
        ),
        Err(_) => None,
    }
}

/// What `char::is_alphanumeric` tells of a character: whether Unicode
/// counts it as a letter or a number.
pub uninterp spec fn alphanumeric(c: char) -> bool;

/// `char::is_alphanumeric` tells whether a character is a letter or a
/// number.
#[verifier::external_body]
fn is_alphanumeric(c: char) -> (b: bool)
    ensures
        b == alphanumeric(c),
{
    c.is_alphanumeric()
}

/// Whether a character may stand in a video's identifier.
pub open spec fn id_char(c: char) -> bool {
    alphanumeric(c) || c == '_' || c == '-'
}

/// Whether a text has the shape of a video's identifier: eleven bytes, all
/// of them letters, numbers, underscores or hyphens.
pub open spec fn is_bare_id(text: Seq<char>) -> bool {
    byte_len(text) == 11 && forall|i: int| 0 <= i < text.len() ==> id_char(#[trigger] text[i])
}

/// Where the first `&` at or after `from` stands in a query, or its length
/// if there is none.
pub open spec fn pair_end(query: Seq<char>, from: int) -> int
    decreases query.len() - from,
{
    if from >= query.len() {
        query.len() as int
    } else if query[from] == '&' {
        from
    } else {
        pair_end(query, from + 1)
    }
}

/// The end of a pair lies between its start and the end of the query.
pub proof fn lemma_pair_end_bounds(query: Seq<char>, from: int)
    requires
        0 <= from <= query.len(),
    ensures
        from <= pair_end(query, from) <= query.len(),
    decreases query.len() - from,
{
    if from < query.len() && query[from] != '&' {
        lemma_pair_end_bounds(query, from + 1);
    }
}

/// Whether a pair of a query names the video: `v=` and a value without a
/// further `=`.
pub open spec fn is_video_pair(pair: Seq<char>) -> bool {
    pair.len() >= 2 && pair[0] == 'v' && pair[1] == '=' && forall|i: int|
        2 <= i < pair.len() ==> #[trigger] pair[i] != '='
}

/// The value of the first pair at or after `from` that names the video.
pub open spec fn video_in_query(query: Seq<char>, from: int) -> Option<Seq<char>>
    decreases query.len() - from + 1,
{
    if from > query.len() || from < 0 {
        None
    } else {
        let end = pair_end(query, from);
        let pair = query.subrange(from, end);
        if is_video_pair(pair) {
            Some(pair.skip(2))
        } else if end >= query.len() {
            None
        } else {
            proof {
                lemma_pair_end_bounds(query, from);
            }
            video_in_query(query, end + 1)
        }
    }
}

/// Whether a host belongs to the video site.
pub open spec fn is_watch_host(host: Seq<char>) -> bool {
    occurs_in("youtube.com"@, host) || occurs_in("m.youtube.com"@, host)
}

/// Whether a host is the site's short-link host.
pub open spec fn is_short_host(host: Seq<char>) -> bool {
    occurs_in("youtu.be"@, host)
}

/// The identifier that the parts of an address give: the `v` of the query
/// on the video site, the path without its first character on the
/// short-link host.
pub open spec fn id_in_parts(parts: (Option<Seq<char>>, Option<Seq<char>>, Seq<char>)) -> Option<
    Seq<char>,
> {
    match parts.0 {
        Some(host) => if is_watch_host(host) {
            match parts.1 {
                Some(query) => video_in_query(query, 0),
                None => None,
            }
        } else if is_short_host(host) {
            if byte_len(parts.2) > 1 && parts.2.len() > 0 {
                Some(parts.2.skip(1))
            } else {
                None
            }
        } else {
            None
        },
        None => None,
    }
}

/// The identifier of the video that a text names: what its address gives,
/// if it is one and gives any; else the text itself, if it has the shape of
/// an identifier.
pub open spec fn video_id(
    text: Seq<char>,
    parsed: Option<(Option<Seq<char>>, Option<Seq<char>>, Seq<char>)>,
) -> Option<Seq<char>> {
    let from_address = match parsed {
        Some(parts) => id_in_parts(parts),
        None => None,
    };
    if from_address is Some {
        from_address
    } else if is_bare_id(text) {
        Some(text)
    } else {
        None
    }
}

/// Finds the end of the pair that begins at `from`.
fn find_pair_end(query: &str, from: usize, len: usize) -> (end: usize)
    requires
        len == query@.len(),
        from <= len,
    ensures
        end == pair_end(query@, from as int),
        from <= end <= len,
{
    let mut i: usize = from;
    while i < len
        invariant
            from <= i <= len,
            len == query@.len(),
            pair_end(query@, from as int) == pair_end(query@, i as int),
        decreases len - i,
    {
        if query.get_char(i) == '&' {
            return i;
        }
        i = i + 1;
    }
    i
}

/// Tells whether the characters from `from` to `end` name the video.
fn check_video_pair(query: &str, from: usize, end: usize) -> (b: bool)
    requires
        from <= end <= query@.len(),
    ensures
        b == is_video_pair(query@.subrange(from as int, end as int)),
{
    let ghost pair = query@.subrange(from as int, end as int);
    if end - from < 2 {
        return false;
    }
    if query.get_char(from) != 'v' || query.get_char(from + 1) != '=' {
        assert(pair[0] == query@[from as int]);
        assert(pair[1] == query@[from + 1]);
        return false;
    }
    assert(pair[0] == query@[from as int]);
    assert(pair[1] == query@[from + 1]);
    let mut i: usize = from + 2;
    while i < end
        invariant
            from + 2 <= i <= end,
            end <= query@.len(),
            pair == query@.subrange(from as int, end as int),
            forall|j: int| 2 <= j < i - from ==> #[trigger] pair[j] != '=',
        decreases end - i,
    {
        if query.get_char(i) == '=' {
            assert(pair[i - from] == '=');
            return false;
        }
        i = i + 1;
    }
    true
}

/// The value of the first pair of a query that names the video.
pub fn find_video_in_query(query: &str) -> (id: Option<String>)
    ensures
        optional_text(id) == video_in_query(query@, 0),
{
    let len: usize = query.unicode_len();
    let mut from: usize = 0;
    loop
        invariant
            len == query@.len(),
            from <= len,
            video_in_query(query@, 0) == video_in_query(query@, from as int),
        decreases len - from,
    {
        let end: usize = find_pair_end(query, from, len);
        if check_video_pair(query, from, end) {
            let value: &str = query.substring_char(from + 2, end);
            assert(value@ =~= query@.subrange(from as int, end as int).skip(2));
            return Some(value.to_owned());
        }
        if end >= len {
            return None;
        }
        from = end + 1;
    }
}

/// Tells whether a text has the shape of a video's identifier.
pub fn has_id_shape(text: &str) -> (b: bool)
    ensures
        b == is_bare_id(text@),
{
    if text.len() != 11 {
        return false;
    }
    let len: usize = text.unicode_len();
    let mut i: usize = 0;
    while i < len
        invariant
            i <= len,
            len == text@.len(),
            forall|j: int| 0 <= j < i ==> id_char(#[trigger] text@[j]),
        decreases len - i,
    {
        let c: char = text.get_char(i);
        if !(is_alphanumeric(c) || c == '_' || c == '-') {
            return false;
        }
        i = i + 1;
    }
    true
}

/// The identifier that the parts of an address give.
pub fn video_id_from_parts(parts: &UrlParts) -> (id: Option<String>)
    ensures
        optional_text(id) == id_in_parts(parts.model()),
{
    match &parts.host {
        Some(host) => {
            if contains(host.as_str(), "youtube.com") || contains(host.as_str(), "m.youtube.com") {
                match &parts.query {
                    Some(query) => find_video_in_query(query.as_str()),
                    None => None,
                }
            } else if contains(host.as_str(), "youtu.be") {
                let chars: usize = parts.path.as_str().unicode_len();
                if parts.path.as_str().len() > 1 && chars > 0 {
                    let rest: &str = parts.path.as_str().substring_char(1, chars);
                    assert(rest@ =~= parts.path@.skip(1));
                    Some(rest.to_owned())
                } else {
                    None
                }
            } else {
                None
            }
        },
        None => None,
    }
}

/// The identifier of the video that a text names, given what the text
/// reads as when taken as an address.
pub fn video_id_of(text: &str, parsed: &Option<UrlParts>) -> (id: Option<String>)
    ensures
        optional_text(id) == video_id(
            text@,
            match *parsed {
                Some(parts) => Some(parts.model()),
                None => None,
            },
        ),
{
    let from_address: Option<String> = match parsed {
        Some(parts) => video_id_from_parts(parts),
        None => None,
    };
    match from_address {
        Some(id) => Some(id),
        None => {
            if has_id_shape(text) {
                Some(text.to_owned())
            } else {
                None
            }
        },
    }
}

/// The identifier of the video that a text names: from an address of the
/// video site or its short-link host, or the text itself if it is a bare
/// identifier.
pub fn extract_video_id(url: &str) -> (id: Option<String>)
    ensures
        optional_text(id) == video_id(url@, parsed_url(url@)),
{
    let parsed: Option<UrlParts> = parse_url(url);
    video_id_of(url, &parsed)
}

/// The address under which a video with the given identifier is watched.
pub open spec fn watch_address(id: Seq<char>) -> Seq<char> {
    "https://www.youtube.com/watch?v="@ + id
}

/// The address that a text is normalized to, if it names a video.
pub open spec fn normalized(text: Seq<char>) -> Option<Seq<char>> {
    match video_id(text, parsed_url(text)) {
        Some(id) => Some(watch_address(id)),
        None => None,
    }
}

/// The texts of a list.
pub open spec fn texts_of(list: Seq<String>) -> Seq<Seq<char>> {
    Seq::new(list.len(), |i: int| list[i]@)
}

/// Whether `valid` holds the normalized addresses of those of the first
/// `count` texts that name a video, in their order.
pub open spec fn validated(urls: Seq<Seq<char>>, count: int, valid: Seq<Seq<char>>) -> bool
    decreases count,
{
    if count <= 0 {
        valid.len() == 0
    } else {
        match normalized(urls[count - 1]) {
            Some(address) => valid.len() > 0 && valid.last() == address && validated(
                urls,
                count - 1,
                valid.drop_last(),
            ),
            None => validated(urls, count - 1, valid),
        }
    }
}

/// Keeps the texts that name a video, each as the address under which the
/// video is watched, in their order.
pub fn validate_urls(urls: &Vec<String>) -> (valid: Vec<String>)
    ensures
        validated(texts_of(urls@), urls@.len() as int, texts_of(valid@)),
{
    let mut valid: Vec<String> = Vec::new();
    let mut i: usize = 0;
    while i < urls.len()
        invariant
            i <= urls.len(),
            validated(texts_of(urls@), i as int, texts_of(valid@)),
        decreases urls.len() - i,
    {
        let ghost before = texts_of(valid@);
        match extract_video_id(urls[i].as_str()) {
            Some(id) => {
                let address: String = String::from_str("https://www.youtube.com/watch?v=").concat(
                    id.as_str(),
                );
                valid.push(address);
                assert(texts_of(valid@).drop_last() =~= before);
            },
            None => {},
        }
        i = i + 1;
    }
    valid
}

/// A character of a file name, with those that file systems reserve
/// replaced by an underscore.
pub open spec fn safe_char(c: char) -> char {
    if c == '/' || c == '\\' || c == ':' || c == '*' || c == '?' || c == '"' || c == '<' || c
        == '>' || c == '|' {
        '_'
    } else {
        c
    }
}

/// A text with every reserved character replaced.
pub open spec fn safe_text(text: Seq<char>) -> Seq<char> {
    Seq::new(text.len(), |i: int| safe_char(text[i]))
}

/// Replaces the characters that file systems reserve by underscores.
pub fn replace_reserved(text: &str) -> (safe: String)
    ensures
        safe@ == safe_text(text@),
{
    proof {
        reveal_strlit("_");
    }
    let len: usize = text.unicode_len();
    let mut safe: String = String::new();
    let mut i: usize = 0;
    while i < len
        invariant
            i <= len,
            len == text@.len(),
            safe@ == safe_text(text@.take(i as int)),
            "_"@ == seq!['_'],
        decreases len - i,
    {
        let c: char = text.get_char(i);
        if c == '/' || c == '\\' || c == ':' || c == '*' || c == '?' || c == '"' || c == '<' || c
            == '>' || c == '|' {
            safe.append("_");
        } else {
            let one: &str = text.substring_char(i, i + 1);
            safe.append(one);
        }
        i = i + 1;
        assert(safe@ =~= safe_text(text@.take(i as int)));
    }
    assert(text@.take(len as int) =~= text@);
    safe
}

/// Makes a title fit for a file name: reserved characters become
/// underscores, and white space at either end is dropped.
pub fn sanitize_filename(filename: &str) -> (safe: String)
    ensures
        safe@ == trimmed(safe_text(filename@)),
{
    let replaced: String = replace_reserved(filename);
    trim(replaced.as_str()).to_owned()
}

/// The name of the file that a video is saved to: its title made fit, and
/// the extension of sound or of film.
pub fn output_file_name(title: &str, audio_only: bool) -> (name: String)
    ensures
        name@ == trimmed(safe_text(title@)) + (if audio_only {
            ".mp3"@
        } else {
            ".mp4"@
        }),
{
    let name: String = sanitize_filename(title);
    if audio_only {
        name.concat(".mp3")
    } else {
        name.concat(".mp4")
    }
}

/// Tells whether two texts are the same.
pub fn same_text(a: &str, b: &str) -> (same: bool)
    ensures
        same == (a@ == b@),
{
    let len: usize = a.unicode_len();
    if len != b.unicode_len() {
        return false;
    }
    let mut i: usize = 0;
    while i < len
        invariant
            i <= len,
            len == a@.len(),
            len == b@.len(),
            forall|j: int| 0 <= j < i ==> a@[j] == b@[j],
        decreases len - i,
    {
        if a.get_char(i) != b.get_char(i) {
            return false;
        }
        i = i + 1;
    }
    assert(a@ =~= b@);
    true
}

/// How good a stream is to be.
#[derive(Debug, Clone, Copy, PartialEq, Eq, Structural)]
pub enum Quality {
    Best,
    High,
    Medium,
    Low,
    Worst,
}

/// The quality that a word in lower case asks for; any unknown word asks
/// for high quality.
pub open spec fn quality_of(word: Seq<char>) -> Quality {
    if word == "best"@ {
        Quality::Best
    } else if word == "high"@ {
        Quality::High
    } else if word == "medium"@ {
        Quality::Medium
    } else if word == "low"@ {
        Quality::Low
    } else if word == "worst"@ {
        Quality::Worst
    } else {
        Quality::High
    }
}

/// Reads a quality from a word in lower case.
pub fn quality_from_lowercase(word: &str) -> (quality: Quality)
    ensures
        quality == quality_of(word@),
{
    if same_text(word, "best") {
        Quality::Best
    } else if same_text(word, "high") {
        Quality::High
    } else if same_text(word, "medium") {
        Quality::Medium
    } else if same_text(word, "low") {
        Quality::Low
    } else if same_text(word, "worst") {
        Quality::Worst
    } else {
        Quality::High
    }
}

/// Reads the quality of the film from a word, without regard to case.
pub fn parse_video_quality(quality: &str) -> (r: Quality)
    ensures
        r == quality_of(lowercased(quality@)),
{
    let lower: String = to_lowercase(quality);
    quality_from_lowercase(lower.as_str())
}

/// Reads the quality of the sound from a word, without regard to case.
pub fn parse_audio_quality(quality: &str) -> (r: Quality)
    ensures
        r == quality_of(lowercased(quality@)),
{
    let lower: String = to_lowercase(quality);
    quality_from_lowercase(lower.as_str())
}

/// Which coding of the film is preferred.
#[derive(Debug, Clone, Copy, PartialEq, Eq, Structural)]
pub enum VideoCodec {
    VP9,
    AVC1,
    AV1,
    Any,
}

/// The film coding that a word in lower case asks for; any unknown word
/// asks for none in particular.
pub open spec fn video_codec_of(word: Seq<char>) -> VideoCodec {
    if word == "vp9"@ {
        VideoCodec::VP9
    } else if word == "avc1"@ || word == "h264"@ {
        VideoCodec::AVC1
    } else if word == "av1"@ {
        VideoCodec::AV1
    } else {
        VideoCodec::Any
    }
}

/// Reads a film coding from a word in lower case.
pub fn video_codec_from_lowercase(word: &str) -> (codec: VideoCodec)
    ensures
        codec == video_codec_of(word@),
{
    if same_text(word, "vp9") {
        VideoCodec::VP9
    } else if same_text(word, "avc1") || same_text(word, "h264") {
        VideoCodec::AVC1
    } else if same_text(word, "av1") {
        VideoCodec::AV1
    } else {
        VideoCodec::Any
    }
}

/// Reads the preferred film coding from a word, without regard to case.
pub fn parse_video_codec(codec: &str) -> (r: VideoCodec)
    ensures
        r == video_codec_of(lowercased(codec@)),
{
    let lower: String = to_lowercase(codec);
    video_codec_from_lowercase(lower.as_str())
}

/// Which coding of the sound is preferred.
#[derive(Debug, Clone, Copy, PartialEq, Eq, Structural)]
pub enum AudioCodec {
    Opus,
    AAC,
    MP3,
    Any,
}

/// The sound coding that a word in lower case asks for; any unknown word
/// asks for none in particular.
pub open spec fn audio_codec_of(word: Seq<char>) -> AudioCodec {
    if word == "opus"@ {
        AudioCodec::Opus
    } else if word == "aac"@ {
        AudioCodec::AAC
    } else if word == "mp3"@ {
        AudioCodec::MP3
    } else {
        AudioCodec::Any
    }
}

/// Reads a sound coding from a word in lower case.
pub fn audio_codec_from_lowercase(word: &str) -> (codec: AudioCodec)
    ensures
        codec == audio_codec_of(word@),
{
    if same_text(word, "opus") {
        AudioCodec::Opus
    } else if same_text(word, "aac") {
        AudioCodec::AAC
    } else if same_text(word, "mp3") {
        AudioCodec::MP3
    } else {
        AudioCodec::Any
    }
}

/// Reads the preferred sound coding from a word, without regard to case.
pub fn parse_audio_codec(codec: &str) -> (r: AudioCodec)
    ensures
        r == audio_codec_of(lowercased(codec@)),
{
    let lower: String = to_lowercase(codec);
    audio_codec_from_lowercase(lower.as_str())
}

/// How the download of one video ended.
#[derive(Debug, Clone, PartialEq, Eq)]
pub struct DownloadResult {
    pub url: String,
    pub title: Option<String>,
    pub success: bool,
    pub error: Option<String>,
    pub file_path: Option<String>,
}

impl DownloadResult {
    /// A download that went through.
    pub fn success(url: String, title: String, file_path: String) -> (r: DownloadResult)
        ensures
            r.url == url,
            r.title == Some(title),
            r.success,
            r.error is None,
            r.file_path == Some(file_path),
    {
        DownloadResult {
            url,
            title: Some(title),
            success: true,
            error: None,
            file_path: Some(file_path),
        }
    }

    /// A download that failed.
    pub fn failure(url: String, error: String) -> (r: DownloadResult)
        ensures
            r.url == url,
            r.title is None,
            !r.success,
            r.error == Some(error),
            r.file_path is None,
    {
        DownloadResult { url, title: None, success: false, error: Some(error), file_path: None }
    }
}

/// Reason given when the file of a video is there already.
pub open spec fn already_there(file_name: Seq<char>) -> Seq<char> {
    "the file exists already: "@ + file_name
}

/// What an attempt at a download does once the video's title is known.
#[derive(Debug, Clone, PartialEq, Eq)]
pub enum AttemptPlan {
    /// The file is there already: the attempt ends without a download.
    AlreadyThere { result: DownloadResult },
    /// The video is downloaded under this title into the file of this name.
    Download { title: String, file_name: String },
}

/// Plans an attempt at a download: the file's name comes from the title,
/// and a file that exists already is not downloaded again.
pub fn plan_download(url: &str, title: &str, audio_only: bool, exists: bool) -> (plan: AttemptPlan)
    ensures
        exists ==> (plan matches AttemptPlan::AlreadyThere { result } && !result.success
            && result.url@ == url@ && result.title is None && result.file_path is None
            && (result.error matches Some(text) && text@ == already_there(
            trimmed(safe_text(title@)) + (if audio_only {
                ".mp3"@
            } else {
                ".mp4"@
            }),
        ))),
        !exists ==> (plan matches AttemptPlan::Download { title: t, file_name } && t@ == trimmed(
            safe_text(title@),
        ) && file_name@ == trimmed(safe_text(title@)) + (if audio_only {
            ".mp3"@
        } else {
            ".mp4"@
        })),
{
    let file_name: String = output_file_name(title, audio_only);
    if exists {
        let error: String = String::from_str("the file exists already: ").concat(
            file_name.as_str(),
        );
        AttemptPlan::AlreadyThere { result: DownloadResult::failure(url.to_owned(), error) }
    } else {
        AttemptPlan::Download { title: sanitize_filename(title), file_name }
    }
}

/// Most attempts at one download.
pub const MAX_RETRIES: usize = 3;

/// Milliseconds to wait before a download is tried again.
pub const RETRY_DELAY_MS: u64 = 2000;

/// Words, in lower case, in the text of an error that no further attempt
/// can mend.
pub open spec fn fatal_words() -> Seq<Seq<char>> {
    seq!["private"@, "deleted"@, "unavailable"@, "copyright"@]
}

/// The words of [`fatal_words`].
pub fn fatal_word_list() -> (words: Vec<&'static str>)
    ensures
        word_texts(words@) == fatal_words(),
{
    let words: Vec<&'static str> = vec!["private", "deleted", "unavailable", "copyright"];
    assert(word_texts(words@) =~= fatal_words());
    words
}

/// What follows a failed attempt at a download.
#[derive(Debug, Clone, PartialEq, Eq)]
pub enum RetryDecision {
    /// The download is given up, with this text for the user.
    GiveUp { message: String },
    /// The download is tried again after a wait.
    RetryAfter { millis: u64 },
}

/// A decision without its text.
pub ghost enum RetryModel {
    GiveUp { message: Seq<char> },
    RetryAfter { millis: u64 },
}

impl View for RetryDecision {
    type V = RetryModel;

    open spec fn view(&self) -> RetryModel {
        match *self {
            RetryDecision::GiveUp { message } => RetryModel::GiveUp { message: message@ },
            RetryDecision::RetryAfter { millis } => RetryModel::RetryAfter { millis },
        }
    }
}

/// What follows the failure of attempt number `attempt`, by the error's
/// text and its form in lower case: an error that no attempt can mend ends
/// the download at once; any other is tried again until the last attempt
/// has failed.
pub open spec fn retry_rule(attempt: usize, error: Seq<char>, lower: Seq<char>) -> RetryModel {
    if any_occurs_in(fatal_words(), lower) {
        RetryModel::GiveUp { message: "error that cannot be retried: "@ + error }
    } else if attempt < MAX_RETRIES {
        RetryModel::RetryAfter { millis: RETRY_DELAY_MS }
    } else {
        RetryModel::GiveUp { message: "failed for good after 3 attempts: "@ + error }
    }
}

/// Decides what follows a failed attempt, given the error's text and its
/// form in lower case.
pub fn decide_retry(attempt: usize, error: &str, lower: &str) -> (r: RetryDecision)
    ensures
        r@ == retry_rule(attempt, error@, lower@),
{
    let fatal = fatal_word_list();
    if contains_any(lower, &fatal) {
        RetryDecision::GiveUp {
            message: String::from_str("error that cannot be retried: ").concat(error),
        }
    } else if attempt < MAX_RETRIES {
        RetryDecision::RetryAfter { millis: RETRY_DELAY_MS }
    } else {
        RetryDecision::GiveUp {
            message: String::from_str("failed for good after 3 attempts: ").concat(error),
        }
    }
}

/// Decides what follows the failure of attempt number `attempt` at a
/// download.
pub fn download_single_video(attempt: usize, error: &str) -> (r: RetryDecision)
    ensures
        r@ == retry_rule(attempt, error@, lowercased(error@)),
{
    let lower: String = to_lowercase(error);
    decide_retry(attempt, error, lower.as_str())
}

/// Whether the text of an error, in lower case, tells of subtitles in a
/// form that the video's description cannot be read with.
pub open spec fn is_subtitle_trouble(lower: Seq<char>) -> bool {
    occurs_in("unknown variant"@, lower) && occurs_in("srt"@, lower) && (occurs_in("json3"@, lower)
        || occurs_in("vtt"@, lower) || occurs_in("ttml"@, lower))
}

/// The text shown when a video's description cannot be had.
pub open spec fn fetch_error_text(error: Seq<char>, lower: Seq<char>) -> Seq<char> {
    if is_subtitle_trouble(lower) {
        "the video has subtitles in a form that is not supported (SRT); try another video or skip subtitles: "@
            + error
    } else {
        "video information could not be loaded: "@ + error
    }
}

/// Words the text shown when a video's description cannot be had, given the
/// error's text and its form in lower case.
pub fn describe_fetch_error(error: &str, lower: &str) -> (message: String)
    ensures
        message@ == fetch_error_text(error@, lower@),
{
    if contains(lower, "unknown variant") && contains(lower, "srt") && (contains(lower, "json3")
        || contains(lower, "vtt") || contains(lower, "ttml")) {
        String::from_str(
            "the video has subtitles in a form that is not supported (SRT); try another video or skip subtitles: ",
        ).concat(error)
    } else {
        String::from_str("video information could not be loaded: ").concat(error)
    }
}

/// The kinds of trouble that a failed download is put down to.
#[derive(Debug, Clone, Copy, PartialEq, Eq, Structural)]
pub enum DownloadTrouble {
    NoSource,
    Network,
    Permission,
    DiskSpace,
    Unavailable,
    Restricted,
    LiveStream,
    Premiere,
    Unknown,
}

/// The trouble that the text of an error, in lower case, tells of; the
/// first kind whose words occur decides.
pub open spec fn trouble_of(lower: Seq<char>) -> DownloadTrouble {
    if occurs_in("source empty"@, lower) || occurs_in("no formats"@, lower) {
        DownloadTrouble::NoSource
    } else if occurs_in("network"@, lower) || occurs_in("connection"@, lower) {
        DownloadTrouble::Network
    } else if occurs_in("permission"@, lower) || occurs_in("access"@, lower) {
        DownloadTrouble::Permission
    } else if occurs_in("space"@, lower) || occurs_in("disk"@, lower) {
        DownloadTrouble::DiskSpace
    } else if occurs_in("unavailable"@, lower) || occurs_in("private"@, lower) {
        DownloadTrouble::Unavailable
    } else if occurs_in("age"@, lower) || occurs_in("restricted"@, lower) {
        DownloadTrouble::Restricted
    } else if occurs_in("live"@, lower) {
        DownloadTrouble::LiveStream
    } else if occurs_in("premiere"@, lower) {
        DownloadTrouble::Premiere
    } else {
        DownloadTrouble::Unknown
    }
}

/// Puts a failed download down to a kind of trouble, by the text of its
/// error in lower case.
pub fn categorize_download_error(lower: &str) -> (trouble: DownloadTrouble)
    ensures
        trouble == trouble_of(lower@),
{
    if contains(lower, "source empty") || contains(lower, "no formats") {
        DownloadTrouble::NoSource
    } else if contains(lower, "network") || contains(lower, "connection") {
        DownloadTrouble::Network
    } else if contains(lower, "permission") || contains(lower, "access") {
        DownloadTrouble::Permission
    } else if contains(lower, "space") || contains(lower, "disk") {
        DownloadTrouble::DiskSpace
    } else if contains(lower, "unavailable") || contains(lower, "private") {
        DownloadTrouble::Unavailable
    } else if contains(lower, "age") || contains(lower, "restricted") {
        DownloadTrouble::Restricted
    } else if contains(lower, "live") {
        DownloadTrouble::LiveStream
    } else if contains(lower, "premiere") {
        DownloadTrouble::Premiere
    } else {
        DownloadTrouble::Unknown
    }
}

/// What the user is told of a kind of trouble, before the error's text.
pub open spec fn trouble_text(trouble: DownloadTrouble) -> Seq<char> {
    match trouble {
        DownloadTrouble::NoSource => "no source for the video was found (region, age or format): "@,
        DownloadTrouble::Network => "network connection error: "@,
        DownloadTrouble::Permission => "no permission to write the file: "@,
        DownloadTrouble::DiskSpace => "not enough disk space: "@,
        DownloadTrouble::Unavailable => "the video is not available (private or deleted): "@,
        DownloadTrouble::Restricted => "restricted by age or region: "@,
        DownloadTrouble::LiveStream => "live streams are not supported: "@,
        DownloadTrouble::Premiere => "premieres are not supported yet: "@,
        DownloadTrouble::Unknown => "download failed: "@,
    }
}

/// Words the text shown for a failed download.
pub fn describe_download_error(error: &str, lower: &str) -> (message: String)
    ensures
        message@ == trouble_text(trouble_of(lower@)) + error@,
{
    let lead: &'static str = match categorize_download_error(lower) {
        DownloadTrouble::NoSource => "no source for the video was found (region, age or format): ",
        DownloadTrouble::Network => "network connection error: ",
        DownloadTrouble::Permission => "no permission to write the file: ",
        DownloadTrouble::DiskSpace => "not enough disk space: ",
        DownloadTrouble::Unavailable => "the video is not available (private or deleted): ",
        DownloadTrouble::Restricted => "restricted by age or region: ",
        DownloadTrouble::LiveStream => "live streams are not supported: ",
        DownloadTrouble::Premiere => "premieres are not supported yet: ",
        DownloadTrouble::Unknown => "download failed: ",
    };
    String::from_str(lead).concat(error)
}

} // verus!
