use vstd::prelude::*;

use crate::html::app_data_page;
use crate::html::app_payload_of;
use crate::json::json_as_array;
use crate::json::json_as_str;
use crate::json::json_as_u64;
use crate::json::json_array_of;
use crate::json::json_field_of;
use crate::json::json_get;
use crate::json::json_is_null;
use crate::json::json_of;
use crate::json::json_parse;
use crate::json::opt_str_field_of;
use crate::json::str_field_of;
use crate::json::u64_field_of;

verus! {

/// An error that may occur while parsing a post
#[derive(Debug)]
pub enum FromHtmlError {
    /// A needed element was not in the document
    MissingElement(&'static str),
    /// A needed attribute was not on the element
    MissingAttribute(&'static str),
    /// The embedded page payload is not valid JSON; carries the parse
    /// error's text
    InvalidDataPage(String),
    /// The embedded page payload lacks a field, or gives it the wrong shape
    MissingField(&'static str),
}

/// A post scraped from a public post page
#[derive(Clone, Debug)]
pub struct ScrapedPost {
    /// The id of the post
    pub id: String,
    /// The title of the post
    pub title: String,
    /// The author of the post
    pub username: String,
    /// The number of views
    pub views: u64,
    /// Whether this is nsfw
    pub nsfw: bool,
    /// The number of images
    pub image_count: u64,
    /// Post images
    pub images: Vec<File>,
}

/// A post file
#[derive(Clone, Debug)]
pub struct File {
    /// The file id
    pub id: String,
    /// The file description
    pub description: Option<String>,
    /// The file link
    pub link: String,
    /// The position of the image in the post.
    ///
    /// Starts at 1.
    pub position: u32,
}

/// The mathematical content of a scraped post file.
pub struct ScrapedPostFileView {
    /// The file id
    pub id: Seq<char>,
    /// The file description
    pub description: Option<Seq<char>>,
    /// The file link
    pub link: Seq<char>,
    /// The position of the image in the post
    pub position: u32,
}

impl View for File {
    type V = ScrapedPostFileView;

    open spec fn view(&self) -> ScrapedPostFileView {
        ScrapedPostFileView {
            id: self.id@,
            description: match self.description {
                Some(d) => Some(d@),
                None => None,
            },
            link: self.link@,
            position: self.position,
        }
    }
}

/// The mathematical content of a scraped post.
pub struct ScrapedPostView {
    /// The id of the post
    pub id: Seq<char>,
    /// The title of the post
    pub title: Seq<char>,
    /// The author of the post
    pub username: Seq<char>,
    /// The number of views
    pub views: u64,
    /// Whether this is nsfw
    pub nsfw: bool,
    /// The number of images
    pub image_count: u64,
    /// Post images
    pub images: Seq<ScrapedPostFileView>,
}

impl View for ScrapedPost {
    type V = ScrapedPostView;

    open spec fn view(&self) -> ScrapedPostView {
        ScrapedPostView {
            id: self.id@,
            title: self.title@,
            username: self.username@,
            views: self.views,
            nsfw: self.nsfw,
            image_count: self.image_count,
            images: Seq::new(self.images@.len(), |i: int| self.images@[i]@),
        }
    }
}

/// What one file entry of the page payload yields: its fields, or the name of
/// the first field that is absent, has the wrong shape, or is out of range.
/// Field order is id, description, link, position.
pub open spec fn scraped_file_of(entry: serde_json::Value) -> Result<
    ScrapedPostFileView,
    Seq<char>,
> {
    match str_field_of(entry, "id"@) {
        None => Err("id"@),
        Some(id) => match opt_str_field_of(entry, "description"@) {
            Err(_) => Err("description"@),
            Ok(description) => match str_field_of(entry, "link"@) {
                None => Err("link"@),
                Some(link) => match u64_field_of(entry, "position"@) {
                    None => Err("position"@),
                    Some(position) => if position > u32::MAX {
                        Err("position"@)
                    } else {
                        Ok(
                            ScrapedPostFileView {
                                id,
                                description,
                                link,
                                position: position as u32,
                            },
                        )
                    },
                },
            },
        },
    }
}

/// What the file list of the page payload yields: every entry's fields in
/// order, or the failing field of the first entry that fails.
pub open spec fn scraped_files_of(entries: Seq<serde_json::Value>) -> Result<
    Seq<ScrapedPostFileView>,
    Seq<char>,
>
    decreases entries.len(),
{
    if entries.len() == 0 {
        Ok(Seq::empty())
    } else {
        match scraped_file_of(entries[0]) {
            Err(key) => Err(key),
            Ok(file) => match scraped_files_of(entries.drop_first()) {
                Err(key) => Err(key),
                Ok(rest) => Ok(seq![file] + rest),
            },
        }
    }
}

proof fn lemma_scraped_files_of_ok(entries: Seq<serde_json::Value>, views: Seq<ScrapedPostFileView>)
    requires
        views.len() == entries.len(),
        forall|j: int|
            0 <= j < entries.len() ==> scraped_file_of(#[trigger] entries[j])
                == Ok::<ScrapedPostFileView, Seq<char>>(views[j]),
    ensures
        scraped_files_of(entries) == Ok::<Seq<ScrapedPostFileView>, Seq<char>>(views),
    decreases entries.len(),
{
    if entries.len() == 0 {
        assert(views =~= Seq::<ScrapedPostFileView>::empty());
    } else {
        assert forall|j: int| 0 <= j < entries.drop_first().len() implies scraped_file_of(
            #[trigger] entries.drop_first()[j],
        ) == Ok::<ScrapedPostFileView, Seq<char>>(views.drop_first()[j]) by {
            assert(entries.drop_first()[j] == entries[j + 1]);
            assert(views.drop_first()[j] == views[j + 1]);
        }
        lemma_scraped_files_of_ok(entries.drop_first(), views.drop_first());
        assert(seq![views[0]] + views.drop_first() =~= views);
    }
}

proof fn lemma_scraped_files_of_err(entries: Seq<serde_json::Value>, i: int, key: Seq<char>)
    requires
        0 <= i < entries.len(),
        forall|j: int| 0 <= j < i ==> scraped_file_of(#[trigger] entries[j]) is Ok,
        scraped_file_of(entries[i]) == Err::<ScrapedPostFileView, Seq<char>>(key),
    ensures
        scraped_files_of(entries) == Err::<Seq<ScrapedPostFileView>, Seq<char>>(key),
    decreases entries.len(),
{
    if i > 0 {
        assert forall|j: int| 0 <= j < i - 1 implies scraped_file_of(
            #[trigger] entries.drop_first()[j],
        ) is Ok by {
            assert(entries.drop_first()[j] == entries[j + 1]);
        }
        assert(entries.drop_first()[i - 1] == entries[i]);
        lemma_scraped_files_of_err(entries.drop_first(), i - 1, key);
    }
}

/// What the whole page payload yields: the post's fields, or the name of the
/// first field that is absent, has the wrong shape, or is out of range. The
/// payload carries every file, so the image count is the file count.
pub open spec fn scraped_post_of(page: serde_json::Value) -> Result<ScrapedPostView, Seq<char>> {
    match json_field_of(page, "props"@) {
        None => Err("props"@),
        Some(props) => match json_field_of(props, "post"@) {
            None => Err("post"@),
            Some(post) => match str_field_of(post, "slug"@) {
                None => Err("slug"@),
                Some(id) => match str_field_of(post, "title"@) {
                    None => Err("title"@),
                    Some(title) => match json_field_of(post, "user"@) {
                        None => Err("user"@),
                        Some(user) => match str_field_of(user, "username"@) {
                            None => Err("username"@),
                            Some(username) => match u64_field_of(post, "views"@) {
                                None => Err("views"@),
                                Some(views) => match u64_field_of(post, "nsfw"@) {
                                    None => Err("nsfw"@),
                                    Some(nsfw_raw) => if nsfw_raw > 255 {
                                        Err("nsfw"@)
                                    } else {
                                        match json_field_of(post, "files"@) {
                                            None => Err("files"@),
                                            Some(files_value) => match json_array_of(files_value) {
                                                None => Err("files"@),
                                                Some(entries) => match scraped_files_of(entries) {
                                                    Err(key) => Err(key),
                                                    Ok(images) => Ok(
                                                        ScrapedPostView {
                                                            id,
                                                            title,
                                                            username,
                                                            views,
                                                            nsfw: nsfw_raw != 0,
                                                            image_count: images.len() as u64,
                                                            images,
                                                        },
                                                    ),
                                                },
                                            },
                                        }
                                    },
                                },
                            },
                        },
                    },
                },
            },
        },
    }
}

impl ScrapedPost {
    /// The page payload carries every file of the post, so the image count is
    /// exactly the number of images.
    pub open spec fn wf(self) -> bool {
        self.image_count == self.images@.len()
    }

    /// Parse this from the text of a post page.
    ///
    /// The page embeds its data as a JSON payload in the `data-page`
    /// attribute of the `#app` container element. The result is a function of
    /// the document text: the post is exactly what the payload holds, and
    /// each error comes exactly when its condition does.
    pub fn from_html(html: &str) -> (r: Result<ScrapedPost, FromHtmlError>)
        ensures
            match app_payload_of(html@) {
                None => (r matches Err(FromHtmlError::MissingElement(what)) && what@
                    == "app div"@),
                Some(None) => (r matches Err(FromHtmlError::MissingAttribute(what)) && what@
                    == "data-page"@),
                Some(Some(payload)) => match json_of(payload) {
                    None => r matches Err(FromHtmlError::InvalidDataPage(_)),
                    Some(page) => match scraped_post_of(page) {
                        Ok(view) => (r matches Ok(post) && post@ == view),
                        Err(key) => (r matches Err(FromHtmlError::MissingField(k)) && k@ == key),
                    },
                },
            },
            r matches Ok(post) ==> post.wf(),
    {
        let data_page_attr = match app_data_page(html) {
            Some(Some(attr)) => attr,
            Some(None) => {
                return Err(FromHtmlError::MissingAttribute("data-page"));
            },
            None => {
                return Err(FromHtmlError::MissingElement("app div"));
            },
        };
        let page = match json_parse(data_page_attr.as_str()) {
            Ok(page) => page,
            Err(error) => {
                return Err(FromHtmlError::InvalidDataPage(error));
            },
        };
        Self::from_page_value(&page)
    }

    /// Build a post from the parsed page payload, shaped as
    /// `{props: {post: {files, nsfw, slug, title, user: {username}, views}}}`.
    /// The result is exactly what the payload holds.
    #[verifier::loop_isolation(false)]
    pub fn from_page_value(page: &serde_json::Value) -> (r: Result<ScrapedPost, FromHtmlError>)
        ensures
            match scraped_post_of(*page) {
                Ok(view) => (r matches Ok(post) && post@ == view),
                Err(key) => (r matches Err(FromHtmlError::MissingField(k)) && k@ == key),
            },
            r matches Ok(post) ==> post.wf(),
    {
        let props = match field(page, "props") {
            Ok(value) => value,
            Err(error) => {
                return Err(error);
            },
        };
        let post = match field(props, "post") {
            Ok(value) => value,
            Err(error) => {
                return Err(error);
            },
        };

        let id = match str_field(post, "slug") {
            Ok(value) => value,
            Err(error) => {
                return Err(error);
            },
        };
        let title = match str_field(post, "title") {
            Ok(value) => value,
            Err(error) => {
                return Err(error);
            },
        };
        let user = match field(post, "user") {
            Ok(value) => value,
            Err(error) => {
                return Err(error);
            },
        };
        let username = match str_field(user, "username") {
            Ok(value) => value,
            Err(error) => {
                return Err(error);
            },
        };
        let views = match u64_field(post, "views") {
            Ok(value) => value,
            Err(error) => {
                return Err(error);
            },
        };
        let nsfw_raw = match u64_field(post, "nsfw") {
            Ok(value) => value,
            Err(error) => {
                return Err(error);
            },
        };
        if nsfw_raw > 255 {
            return Err(FromHtmlError::MissingField("nsfw"));
        }
        let nsfw = nsfw_raw != 0;

        let files_value = match field(post, "files") {
            Ok(value) => value,
            Err(error) => {
                return Err(error);
            },
        };
        let files = match json_as_array(files_value) {
            Some(files) => files,
            None => {
                return Err(FromHtmlError::MissingField("files"));
            },
        };
        let mut images: Vec<File> = Vec::new();
        let mut i: usize = 0;
        let files_len = files.len();
        while i < files_len
            invariant
                files_len == files@.len(),
                i <= files_len,
                images@.len() == i,
                forall|j: int|
                    0 <= j < i ==> scraped_file_of(#[trigger] files@[j])
                        == Ok::<ScrapedPostFileView, Seq<char>>(images@[j]@),
            decreases files_len - i,
        {
            let image = match file_from_value(&files[i]) {
                Ok(image) => image,
                Err(error) => {
                    proof {
                        let key = scraped_file_of(files@[i as int])->Err_0;
                        lemma_scraped_files_of_err(files@, i as int, key);
                    }
                    return Err(error);
                },
            };
            images.push(image);
            i += 1;
        }
        let image_count = images.len() as u64;

        proof {
            lemma_scraped_files_of_ok(
                files@,
                Seq::new(images@.len(), |j: int| images@[j]@),
            );
        }
        Ok(ScrapedPost { id, title, username, views, nsfw, image_count, images })
    }
}

/// The value under the key, or the error naming the key.
fn field<'a>(v: &'a serde_json::Value, key: &'static str) -> (r: Result<
    &'a serde_json::Value,
    FromHtmlError,
>)
    ensures
        match r {
            Ok(f) => json_field_of(*v, key@) == Some(*f),
            Err(e) => json_field_of(*v, key@) is None && e == FromHtmlError::MissingField(key),
        },
{
    match json_get(v, key) {
        Some(value) => Ok(value),
        None => Err(FromHtmlError::MissingField(key)),
    }
}

/// The string under the key, or the error naming the key.
fn str_field(v: &serde_json::Value, key: &'static str) -> (r: Result<String, FromHtmlError>)
    ensures
        match r {
            Ok(s) => str_field_of(*v, key@) == Some(s@),
            Err(e) => str_field_of(*v, key@) is None && e == FromHtmlError::MissingField(key),
        },
{
    let value = match field(v, key) {
        Ok(value) => value,
        Err(error) => {
            return Err(error);
        },
    };
    match json_as_str(value) {
        Some(s) => Ok(s.to_owned()),
        None => Err(FromHtmlError::MissingField(key)),
    }
}

/// The unsigned number under the key, or the error naming the key.
fn u64_field(v: &serde_json::Value, key: &'static str) -> (r: Result<u64, FromHtmlError>)
    ensures
        match r {
            Ok(n) => u64_field_of(*v, key@) == Some(n),
            Err(e) => u64_field_of(*v, key@) is None && e == FromHtmlError::MissingField(key),
        },
{
    let value = match field(v, key) {
        Ok(value) => value,
        Err(error) => {
            return Err(error);
        },
    };
    match json_as_u64(value) {
        Some(n) => Ok(n),
        None => Err(FromHtmlError::MissingField(key)),
    }
}

/// The string under the key, `None` when the field is absent or null, or the
/// error naming the key when it has another shape.
fn opt_str_field(v: &serde_json::Value, key: &'static str) -> (r: Result<
    Option<String>,
    FromHtmlError,
>)
    ensures
        match r {
            Ok(Some(s)) => opt_str_field_of(*v, key@) == Ok::<Option<Seq<char>>, ()>(Some(s@)),
            Ok(None) => opt_str_field_of(*v, key@) == Ok::<Option<Seq<char>>, ()>(
                None::<Seq<char>>,
            ),
            Err(e) => opt_str_field_of(*v, key@) is Err && e == FromHtmlError::MissingField(key),
        },
{
    match json_get(v, key) {
        Some(value) => {
            if json_is_null(value) {
                Ok(None)
            } else {
                match json_as_str(value) {
                    Some(s) => Ok(Some(s.to_owned())),
                    None => Err(FromHtmlError::MissingField(key)),
                }
            }
        },
        None => Ok(None),
    }
}

/// Build one file record from its entry in the page payload; the record is
/// exactly what the entry holds.
fn file_from_value(v: &serde_json::Value) -> (r: Result<File, FromHtmlError>)
    ensures
        match r {
            Ok(file) => scraped_file_of(*v) == Ok::<ScrapedPostFileView, Seq<char>>(file@),
            Err(e) => (scraped_file_of(*v) matches Err(key) && e matches
                FromHtmlError::MissingField(k) && k@ == key),
        },
{
    let id = match str_field(v, "id") {
        Ok(value) => value,
        Err(error) => {
            return Err(error);
        },
    };
    let description = match opt_str_field(v, "description") {
        Ok(value) => value,
        Err(error) => {
            return Err(error);
        },
    };
    let link = match str_field(v, "link") {
        Ok(value) => value,
        Err(error) => {
            return Err(error);
        },
    };
    let position_raw = match u64_field(v, "position") {
        Ok(value) => value,
        Err(error) => {
            return Err(error);
        },
    };
    if position_raw > u32::MAX as u64 {
        return Err(FromHtmlError::MissingField("position"));
    }
    let position = position_raw as u32;
    Ok(File { id, description, link, position })
}

} // verus!
