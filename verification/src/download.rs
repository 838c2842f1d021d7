use vstd::prelude::*;

use crate::model::scraped_post::ScrapedPost;
use crate::strings::dec_str;
use crate::strings::u64_to_string;
use crate::strings::str_eq;

verus! {

/// Options of the download command.
#[derive(Clone, Debug)]
pub struct Options {
    /// The url of the post, or its bare id
    pub url: String,
    /// The directory to download to
    pub out_dir: String,
}

/// Why a post identifier was rejected.
#[derive(Clone, Copy, Debug, PartialEq, Eq, Structural)]
pub enum DownloadError {
    /// The input is neither a post URL nor a valid raw id
    InvalidPostId,
    /// The input is a URL, but not that of a post on the service
    NotAPostUrl,
}

#[verifier::external_type_specification]
#[verifier::external_body]
pub struct ExUrl(url::Url);

/// The URL a text denotes, when it denotes an absolute URL.
pub uninterp spec fn url_parse_of(s: Seq<char>) -> Option<url::Url>;

/// The host of a URL, when it has one.
pub uninterp spec fn url_host_of(parsed: url::Url) -> Option<Seq<char>>;

/// The '/'-separated path segments of a URL, when it can be a base.
pub uninterp spec fn url_segments_of(parsed: url::Url) -> Option<Seq<Seq<char>>>;

/// Relies on url::Url::parse: the parsed URL, or `None` when the text is not
/// an absolute URL; the result depends on the text alone. An absolute URL
/// starts with a scheme ended by ':', so a text without any ':' never parses.
#[verifier::external_body]
fn url_parse(value: &str) -> (r: Option<url::Url>)
    ensures
        match r {
            Some(parsed) => url_parse_of(value@) == Some(parsed),
            None => url_parse_of(value@) is None,
        },
        (forall|i: int| 0 <= i < value@.len() ==> value@[i] != ':') ==> r is None,
{
    match url::Url::parse(value) {
        Ok(parsed) => Some(parsed),
        Err(_) => None,
    }
}

/// Relies on url::Url::host_str: the host of the URL, when it has one; a
/// function of the URL value.
#[verifier::external_body]
fn url_host_str(parsed: &url::Url) -> (r: Option<String>)
    ensures
        match r {
            Some(host) => url_host_of(*parsed) == Some(host@),
            None => url_host_of(*parsed) is None,
        },
{
    match parsed.host_str() {
        Some(host) => Some(host.to_owned()),
        None => None,
    }
}

/// Relies on url::Url::path_segments: the '/'-separated segments of the
/// URL's path, when the URL can be a base; a function of the URL value.
#[verifier::external_body]
fn url_path_segments(parsed: &url::Url) -> (r: Option<Vec<String>>)
    ensures
        match r {
            Some(segments) => url_segments_of(*parsed) == Some(segments.deep_view()),
            None => url_segments_of(*parsed) is None,
        },
{
    match parsed.path_segments() {
        Some(segments) => Some(segments.map(str::to_owned).collect()),
        None => None,
    }
}

/// A lowercase ASCII letter or an ASCII digit.
pub open spec fn is_lower_alnum(c: char) -> bool {
    ('a' <= c && c <= 'z') || ('0' <= c && c <= '9')
}

/// A valid raw post id: exactly 11 lowercase alphanumeric characters.
pub open spec fn valid_id(s: Seq<char>) -> bool {
    s.len() == 11 && (forall|i: int| 0 <= i < s.len() ==> is_lower_alnum(#[trigger] s[i]))
}

/// Whether the character may stand in a post id.
pub fn is_ascii_alphanumeric_lowercase(ch: char) -> (r: bool)
    ensures
        r == is_lower_alnum(ch),
{
    ('a' <= ch && ch <= 'z') || ('0' <= ch && ch <= '9')
}

/// Ids are composed of 11 lowercase alphanumeric chars.
pub fn is_valid_id(value: &str) -> (r: bool)
    ensures
        r == valid_id(value@),
{
    let len = value.unicode_len();
    if len != 11 {
        return false;
    }
    let mut i: usize = 0;
    while i < len
        invariant
            len == value@.len(),
            i <= len,
            forall|j: int| 0 <= j < i ==> is_lower_alnum(#[trigger] value@[j]),
        decreases len - i,
    {
        if !is_ascii_alphanumeric_lowercase(value.get_char(i)) {
            return false;
        }
        i += 1;
    }
    true
}

/// Resolve a post id from what a URL parse handed back: the host must be
/// `imgchest.com` and the path exactly `p` and the id, two segments and no
/// more; any other shape is no post URL.
pub fn extract_id_from_url_parts(host: &Option<String>, segments: &Option<Vec<String>>) -> (r:
    Result<String, DownloadError>)
    ensures
        match (host, segments) {
            (Some(h), Some(segs)) => {
                if h@ == "imgchest.com"@ && segs@.len() == 2 && segs@[0]@ == "p"@ {
                    r matches Ok(id) && id@ == segs@[1]@
                } else {
                    r == Err::<String, DownloadError>(DownloadError::NotAPostUrl)
                }
            },
            _ => r == Err::<String, DownloadError>(DownloadError::NotAPostUrl),
        },
{
    match (host, segments) {
        (Some(h), Some(segs)) => {
            if !str_eq(h.as_str(), "imgchest.com") {
                return Err(DownloadError::NotAPostUrl);
            }
            if segs.len() != 2 {
                return Err(DownloadError::NotAPostUrl);
            }
            if !str_eq(segs[0].as_str(), "p") {
                return Err(DownloadError::NotAPostUrl);
            }
            Ok(segs[1].clone())
        },
        _ => Err(DownloadError::NotAPostUrl),
    }
}

/// No character of a valid id is a ':', so a valid id is never an absolute
/// URL.
proof fn lemma_valid_id_has_no_colon(s: Seq<char>)
    requires
        valid_id(s),
    ensures
        forall|i: int| 0 <= i < s.len() ==> s[i] != ':',
{
    assert forall|i: int| 0 <= i < s.len() implies s[i] != ':' by {
        assert(is_lower_alnum(s[i]));
    }
}

/// Resolve a post identifier: a post URL with host `imgchest.com` and path
/// exactly `/p/{id}` yields its id segment, and any other text must itself be
/// a valid raw id, returned unchanged; everything else fails.
pub fn extract_id(value: &str) -> (r: Result<String, DownloadError>)
    ensures
        match url_parse_of(value@) {
            Some(parsed) => match (url_host_of(parsed), url_segments_of(parsed)) {
                (Some(host), Some(segments)) => {
                    if host == "imgchest.com"@ && segments.len() == 2 && segments[0] == "p"@ {
                        r matches Ok(id) && id@ == segments[1]
                    } else {
                        r == Err::<String, DownloadError>(DownloadError::NotAPostUrl)
                    }
                },
                _ => r == Err::<String, DownloadError>(DownloadError::NotAPostUrl),
            },
            None => (if valid_id(value@) {
                r matches Ok(id) && id@ == value@
            } else {
                r == Err::<String, DownloadError>(DownloadError::InvalidPostId)
            }),
        },
        valid_id(value@) ==> (r matches Ok(id) && id@ == value@),
{
    proof {
        if valid_id(value@) {
            lemma_valid_id_has_no_colon(value@);
        }
    }
    match url_parse(value) {
        Some(parsed) => {
            let host = url_host_str(&parsed);
            let segments = url_path_segments(&parsed);
            extract_id_from_url_parts(&host, &segments)
        },
        None => {
            // This isn't a url, but it might be a raw id.
            if is_valid_id(value) {
                Ok(value.to_owned())
            } else {
                Err(DownloadError::InvalidPostId)
            }
        },
    }
}

/// The file name a link yields: what follows its last '/', or the whole link
/// when it holds none.
pub open spec fn file_name_spec(s: Seq<char>) -> Seq<char>
    decreases s.len(),
{
    if s.len() == 0 {
        s
    } else if s[s.len() - 1] == '/' {
        Seq::empty()
    } else {
        file_name_spec(s.drop_last()).push(s[s.len() - 1])
    }
}

proof fn lemma_file_name_no_slash(s: Seq<char>)
    requires
        forall|j: int| 0 <= j < s.len() ==> s[j] != '/',
    ensures
        file_name_spec(s) == s,
    decreases s.len(),
{
    if s.len() == 0 {
        assert(file_name_spec(s) =~= s);
    } else {
        lemma_file_name_no_slash(s.drop_last());
        assert(file_name_spec(s) =~= s);
    }
}

proof fn lemma_file_name_after_slash(s: Seq<char>, k: int)
    requires
        0 <= k < s.len(),
        s[k] == '/',
        forall|j: int| k < j < s.len() ==> s[j] != '/',
    ensures
        file_name_spec(s) == s.subrange(k + 1, s.len() as int),
    decreases s.len(),
{
    if k == s.len() - 1 {
        assert(file_name_spec(s) =~= s.subrange(k + 1, s.len() as int));
    } else {
        lemma_file_name_after_slash(s.drop_last(), k);
        assert(file_name_spec(s) =~= s.subrange(k + 1, s.len() as int));
    }
}

/// Derive the local file name from a link: its final path segment.
pub fn file_name_from_link(link: &str) -> (r: String)
    ensures
        r@ == file_name_spec(link@),
{
    let len = link.unicode_len();
    let mut i = len;
    while i > 0
        invariant
            len == link@.len(),
            i <= len,
            forall|j: int| i <= j < len ==> link@[j] != '/',
        decreases i,
    {
        if link.get_char(i - 1) == '/' {
            let name = link.substring_char(i, len);
            proof {
                lemma_file_name_after_slash(link@, i - 1);
            }
            return name.to_owned();
        }
        i -= 1;
    }
    proof {
        lemma_file_name_no_slash(link@);
    }
    link.to_owned()
}

/// One asset to fetch: its link, and the file name the link yields.
#[derive(Clone, Debug)]
pub struct DownloadAsset {
    /// The content URL
    pub link: String,
    /// The local file name, the link's final path segment
    pub file_name: String,
}

/// Plan the downloads of a scraped post: one asset per image, in post order,
/// each saved under its link's final path segment.
pub fn plan_downloads(post: &ScrapedPost) -> (r: Vec<DownloadAsset>)
    ensures
        r@.len() == post.images@.len(),
        forall|i: int|
            0 <= i < r@.len() ==> (#[trigger] r@[i]).link@ == post.images@[i].link@
                && r@[i].file_name@ == file_name_spec(post.images@[i].link@),
        post.wf() ==> r@.len() == post.image_count,
{
    let mut assets: Vec<DownloadAsset> = Vec::new();
    let mut i: usize = 0;
    let image_count = post.images.len();
    while i < image_count
        invariant
            image_count == post.images@.len(),
            i <= image_count,
            assets@.len() == i,
            forall|j: int|
                0 <= j < i ==> (#[trigger] assets@[j]).link@ == post.images@[j].link@
                    && assets@[j].file_name@ == file_name_spec(post.images@[j].link@),
        decreases image_count - i,
    {
        let link = post.images[i].link.clone();
        let file_name = file_name_from_link(link.as_str());
        assets.push(DownloadAsset { link, file_name });
        i += 1;
    }
    assets
}

/// Whether a planned asset is fetched at all: one whose target file already
/// exists is skipped and reported as not newly downloaded.
pub fn should_fetch(target_exists: bool) -> (r: bool)
    ensures
        r == !target_exists,
{
    !target_exists
}

/// The running progress line after another task finished.
pub open spec fn progress_line_spec(done: int, total: int) -> Seq<char> {
    dec_str(done) + "/"@ + dec_str(total) + "..."@
}

/// The running tally of a download: completions counted, failures kept, the
/// last error winning.
#[derive(Clone, Debug)]
pub struct DownloadReport {
    /// How many assets were planned
    pub total: u64,
    /// How many tasks finished without failing
    pub downloaded: u64,
    /// The most recent failure, when any task failed
    pub last_error: Option<String>,
}

impl DownloadReport {
    /// Start a tally over this many planned assets.
    pub fn new(total: u64) -> (r: Self)
        ensures
            r.total == total,
            r.downloaded == 0,
            r.last_error is None,
    {
        Self { total, downloaded: 0, last_error: None }
    }

    /// Count one finished task and give the progress line to print.
    pub fn record_completion(&mut self) -> (line: String)
        requires
            old(self).downloaded < old(self).total,
        ensures
            final(self).downloaded == old(self).downloaded + 1,
            final(self).total == old(self).total,
            final(self).last_error == old(self).last_error,
            line@ == progress_line_spec(old(self).downloaded + 1, old(self).total as int),
    {
        self.downloaded = self.downloaded + 1;
        let mut line = u64_to_string(self.downloaded);
        line.append("/");
        let total_text = u64_to_string(self.total);
        line.append(total_text.as_str());
        line.append("...");
        line
    }

    /// Keep one task's failure; a later failure replaces it, so the last
    /// error observed wins.
    pub fn record_failure(&mut self, message: String)
        ensures
            final(self).last_error matches Some(m) && m@ == message@,
            final(self).downloaded == old(self).downloaded,
            final(self).total == old(self).total,
    {
        self.last_error = Some(message);
    }

    /// The download's outcome: failed when any task failed, with the last
    /// error observed.
    pub fn outcome(self) -> (r: Result<(), String>)
        ensures
            self.last_error is None ==> r == Ok::<(), String>(()),
            self.last_error matches Some(m) ==> r == Err::<(), String>(m),
    {
        match self.last_error {
            Some(message) => Err(message),
            None => Ok(()),
        }
    }
}

} // verus!
