use vstd::prelude::*;

use crate::json::i64_field_of;
use crate::json::json_array_of;
use crate::json::json_as_array;
use crate::json::json_as_i64;
use crate::json::json_as_str;
use crate::json::json_as_u64;
use crate::json::json_field_of;
use crate::json::json_get;
use crate::json::json_is_null;
use crate::json::json_of;
use crate::json::json_parse;
use crate::json::opt_str_field_of;
use crate::json::str_field_of;
use crate::json::u64_field_of;
use crate::model::bool_str_value;
use crate::model::post::positions_dense;
use crate::model::post::privacy_from_str;
use crate::model::post::privacy_from_str_spec;
use crate::model::post::File as PostFile;
use crate::model::post::Post;
use crate::model::post::PostFileView;
use crate::model::post::PostView;
use crate::model::user::User;
use crate::model::user::UserView;
use crate::model::ApiCompletedResponse;
use crate::Error;

verus! {

/// The reason an API response body could not be read as its typed shape.
#[derive(Debug)]
pub enum ApiResponseError {
    /// The body is not valid JSON; carries the parse error's text
    InvalidJson(String),
    /// A field is absent, or has the wrong shape or range
    MissingField(&'static str),
}

/// The unix timestamp an ISO 8601 text denotes, when it denotes one.
pub uninterp spec fn iso8601_unix_of(s: Seq<char>) -> Option<i64>;

/// Relies on time::OffsetDateTime::parse with the well-known ISO 8601
/// description: the instant the text denotes, as a unix timestamp, or `None`
/// when the text is not an ISO 8601 instant. The result depends on the text
/// alone.
#[verifier::external_body]
fn parse_iso8601_unix(s: &str) -> (r: Option<i64>)
    ensures
        r == iso8601_unix_of(s@),
{
    match time::OffsetDateTime::parse(s, &time::format_description::well_known::Iso8601::DEFAULT) {
        Ok(instant) => Some(instant.unix_timestamp()),
        Err(_) => None,
    }
}

/// A parsed file: its position is 1-based and its creation time is an
/// ISO 8601 instant.
pub open spec fn post_file_wf(file: PostFile) -> bool {
    &&& file.position >= 1
    &&& iso8601_unix_of(file.created@) is Some
}

/// A parsed post: its creation time is an ISO 8601 instant, each of its files
/// is well formed, and file positions are dense in array order.
pub open spec fn post_wf(post: Post) -> bool {
    &&& iso8601_unix_of(post.created@) is Some
    &&& forall|i: int| 0 <= i < post.images@.len() ==> post_file_wf(#[trigger] post.images@[i])
    &&& positions_dense(post.images@)
}

/// A parsed user: its creation time is an ISO 8601 instant.
pub open spec fn user_wf(user: User) -> bool {
    iso8601_unix_of(user.created@) is Some
}

/// The creation-time text under a key: the field is there, is a string, and
/// denotes an ISO 8601 instant.
pub open spec fn created_field_of(v: serde_json::Value, key: Seq<char>) -> Option<Seq<char>> {
    match str_field_of(v, key) {
        None => None,
        Some(created) => if iso8601_unix_of(created) is Some {
            Some(created)
        } else {
            None
        },
    }
}

/// What one file object of an API response yields: its fields, or the name of
/// the first field that is absent, has the wrong shape, or is out of range.
/// Field order is id, description, link, position, created, original_name.
pub open spec fn post_file_of(v: serde_json::Value) -> Result<PostFileView, Seq<char>> {
    match str_field_of(v, "id"@) {
        None => Err("id"@),
        Some(id) => match opt_str_field_of(v, "description"@) {
            Err(_) => Err("description"@),
            Ok(description) => match str_field_of(v, "link"@) {
                None => Err("link"@),
                Some(link) => match u64_field_of(v, "position"@) {
                    None => Err("position"@),
                    Some(position) => if position == 0 || position > u32::MAX {
                        Err("position"@)
                    } else {
                        match created_field_of(v, "created"@) {
                            None => Err("created"@),
                            Some(created) => match opt_str_field_of(v, "original_name"@) {
                                Err(_) => Err("original_name"@),
                                Ok(original_name) => Ok(
                                    PostFileView {
                                        id,
                                        description,
                                        link,
                                        position: position as u32,
                                        created,
                                        original_name,
                                    },
                                ),
                            },
                        }
                    },
                },
            },
        },
    }
}

/// What a file list of an API response yields: every entry's fields in order,
/// or the failing field of the first entry that fails. When a starting
/// position is given, each entry's position must be its index past it.
pub open spec fn post_files_of(entries: Seq<serde_json::Value>, position: Option<int>) -> Result<
    Seq<PostFileView>,
    Seq<char>,
>
    decreases entries.len(),
{
    if entries.len() == 0 {
        Ok(Seq::empty())
    } else {
        match post_file_of(entries[0]) {
            Err(key) => Err(key),
            Ok(file) => {
                let misplaced = match position {
                    Some(p) => file.position as int != p,
                    None => false,
                };
                if misplaced {
                    Err("position"@)
                } else {
                    let rest_position = match position {
                        Some(p) => Some(p + 1),
                        None => None,
                    };
                    match post_files_of(entries.drop_first(), rest_position) {
                        Err(key) => Err(key),
                        Ok(rest) => Ok(seq![file] + rest),
                    }
                }
            },
        }
    }
}

proof fn lemma_post_files_of_ok(
    entries: Seq<serde_json::Value>,
    views: Seq<PostFileView>,
    position: Option<int>,
)
    requires
        views.len() == entries.len(),
        forall|j: int|
            0 <= j < entries.len() ==> post_file_of(#[trigger] entries[j]) == Ok::<
                PostFileView,
                Seq<char>,
            >(views[j]),
        forall|j: int|
            0 <= j < entries.len() ==> match position {
                Some(p) => (#[trigger] views[j]).position as int == p + j,
                None => true,
            },
    ensures
        post_files_of(entries, position) == Ok::<Seq<PostFileView>, Seq<char>>(views),
    decreases entries.len(),
{
    if entries.len() == 0 {
        assert(views =~= Seq::<PostFileView>::empty());
    } else {
        let rest_position: Option<int> = match position {
            Some(p) => Some(p + 1),
            None => None,
        };
        assert forall|j: int| 0 <= j < entries.drop_first().len() implies post_file_of(
            #[trigger] entries.drop_first()[j],
        ) == Ok::<PostFileView, Seq<char>>(views.drop_first()[j]) by {
            assert(entries.drop_first()[j] == entries[j + 1]);
            assert(views.drop_first()[j] == views[j + 1]);
        }
        assert forall|j: int| 0 <= j < entries.drop_first().len() implies match rest_position {
            Some(p) => (#[trigger] views.drop_first()[j]).position as int == p + j,
            None => true,
        } by {
            assert(views.drop_first()[j] == views[j + 1]);
        }
        lemma_post_files_of_ok(entries.drop_first(), views.drop_first(), rest_position);
        assert(seq![views[0]] + views.drop_first() =~= views);
    }
}

proof fn lemma_post_files_of_err(
    entries: Seq<serde_json::Value>,
    views: Seq<PostFileView>,
    key: Seq<char>,
    position: Option<int>,
)
    requires
        views.len() < entries.len(),
        forall|j: int|
            0 <= j < views.len() ==> post_file_of(#[trigger] entries[j]) == Ok::<
                PostFileView,
                Seq<char>,
            >(views[j]),
        forall|j: int|
            0 <= j < views.len() ==> match position {
                Some(p) => (#[trigger] views[j]).position as int == p + j,
                None => true,
            },
        match post_file_of(entries[views.len() as int]) {
            Err(k) => k == key,
            Ok(file) => match position {
                Some(p) => file.position as int != p + views.len() && key == "position"@,
                None => false,
            },
        },
    ensures
        post_files_of(entries, position) == Err::<Seq<PostFileView>, Seq<char>>(key),
    decreases entries.len(),
{
    if views.len() > 0 {
        let rest_position: Option<int> = match position {
            Some(p) => Some(p + 1),
            None => None,
        };
        assert forall|j: int| 0 <= j < views.drop_first().len() implies post_file_of(
            #[trigger] entries.drop_first()[j],
        ) == Ok::<PostFileView, Seq<char>>(views.drop_first()[j]) by {
            assert(entries.drop_first()[j] == entries[j + 1]);
            assert(views.drop_first()[j] == views[j + 1]);
        }
        assert forall|j: int| 0 <= j < views.drop_first().len() implies match rest_position {
            Some(p) => (#[trigger] views.drop_first()[j]).position as int == p + j,
            None => true,
        } by {
            assert(views.drop_first()[j] == views[j + 1]);
        }
        assert(entries.drop_first()[views.len() - 1] == entries[views.len() as int]);
        lemma_post_files_of_err(entries.drop_first(), views.drop_first(), key, rest_position);
    }
}

/// What a post object of an API response yields: its fields, or the name of
/// the first field that is absent, has the wrong shape, or is out of range.
/// Positions of the files must be dense in array order, starting at 1.
pub open spec fn post_of(v: serde_json::Value) -> Result<PostView, Seq<char>> {
    match str_field_of(v, "id"@) {
        None => Err("id"@),
        Some(id) => match opt_str_field_of(v, "title"@) {
            Err(_) => Err("title"@),
            Ok(title) => match str_field_of(v, "username"@) {
                None => Err("username"@),
                Some(username) => match str_field_of(v, "privacy"@) {
                    None => Err("privacy"@),
                    Some(privacy_text) => match privacy_from_str_spec(privacy_text) {
                        None => Err("privacy"@),
                        Some(privacy) => match i64_field_of(v, "report_status"@) {
                            None => Err("report_status"@),
                            Some(report_status) => if report_status < i32::MIN as i64
                                || report_status > i32::MAX as i64 {
                                Err("report_status"@)
                            } else {
                                match u64_field_of(v, "views"@) {
                                    None => Err("views"@),
                                    Some(views) => match u64_field_of(v, "nsfw"@) {
                                        None => Err("nsfw"@),
                                        Some(nsfw_raw) => if nsfw_raw > 1 {
                                            Err("nsfw"@)
                                        } else {
                                            match u64_field_of(v, "image_count"@) {
                                                None => Err("image_count"@),
                                                Some(image_count) => match created_field_of(
                                                    v,
                                                    "created"@,
                                                ) {
                                                    None => Err("created"@),
                                                    Some(created) => match opt_str_field_of(
                                                        v,
                                                        "delete_url"@,
                                                    ) {
                                                        Err(_) => Err("delete_url"@),
                                                        Ok(delete_url) => match json_field_of(
                                                            v,
                                                            "images"@,
                                                        ) {
                                                            None => Err("images"@),
                                                            Some(images_value) => match json_array_of(
                                                                images_value,
                                                            ) {
                                                                None => Err("images"@),
                                                                Some(entries) => match post_files_of(
                                                                    entries,
                                                                    Some(1),
                                                                ) {
                                                                    Err(key) => Err(key),
                                                                    Ok(images) => Ok(
                                                                        PostView {
                                                                            id,
                                                                            title,
                                                                            username,
                                                                            privacy,
                                                                            report_status: report_status as i32,
                                                                            views,
                                                                            nsfw: nsfw_raw == 1,
                                                                            image_count,
                                                                            created,
                                                                            images,
                                                                            delete_url,
                                                                        },
                                                                    ),
                                                                },
                                                            },
                                                        },
                                                    },
                                                },
                                            }
                                        },
                                    },
                                }
                            },
                        },
                    },
                },
            },
        },
    }
}

/// What a user object of an API response yields: its fields, or the name of
/// the first field that is absent or has the wrong shape.
pub open spec fn user_of(v: serde_json::Value) -> Result<UserView, Seq<char>> {
    match str_field_of(v, "name"@) {
        None => Err("name"@),
        Some(name) => match u64_field_of(v, "posts"@) {
            None => Err("posts"@),
            Some(posts) => match u64_field_of(v, "comments"@) {
                None => Err("comments"@),
                Some(comments) => match created_field_of(v, "created"@) {
                    None => Err("created"@),
                    Some(created) => Ok(UserView { name, posts, comments, created }),
                },
            },
        },
    }
}

/// What a completed-operation envelope yields: the success flag, carried as
/// the text of a boolean, and the optional message; or the failing field.
pub open spec fn completed_of(root: serde_json::Value) -> Result<
    (bool, Option<Seq<char>>),
    Seq<char>,
> {
    match str_field_of(root, "success"@) {
        None => Err("success"@),
        Some(text) => match bool_str_value(text) {
            None => Err("success"@),
            Some(success) => match opt_str_field_of(root, "message"@) {
                Err(_) => Err("message"@),
                Ok(message) => Ok((success, message)),
            },
        },
    }
}

/// The value under the key, or the error naming the key.
fn field<'a>(v: &'a serde_json::Value, key: &'static str) -> (r: Result<
    &'a serde_json::Value,
    ApiResponseError,
>)
    ensures
        match r {
            Ok(f) => json_field_of(*v, key@) == Some(*f),
            Err(e) => json_field_of(*v, key@) is None && e == ApiResponseError::MissingField(key),
        },
{
    match json_get(v, key) {
        Some(value) => Ok(value),
        None => Err(ApiResponseError::MissingField(key)),
    }
}

/// The string under the key, or the error naming the key.
fn str_field(v: &serde_json::Value, key: &'static str) -> (r: Result<String, ApiResponseError>)
    ensures
        match r {
            Ok(s) => str_field_of(*v, key@) == Some(s@),
            Err(e) => str_field_of(*v, key@) is None && e == ApiResponseError::MissingField(key),
        },
{
    let value = match field(v, key) {
        Ok(value) => value,
        Err(error) => {
            return Err(error);
        },
    };
    match json_as_str(value) {
        Some(s) => Ok(s.to_owned()),
        None => Err(ApiResponseError::MissingField(key)),
    }
}

/// The unsigned number under the key, or the error naming the key.
fn u64_field(v: &serde_json::Value, key: &'static str) -> (r: Result<u64, ApiResponseError>)
    ensures
        match r {
            Ok(n) => u64_field_of(*v, key@) == Some(n),
            Err(e) => u64_field_of(*v, key@) is None && e == ApiResponseError::MissingField(key),
        },
{
    let value = match field(v, key) {
        Ok(value) => value,
        Err(error) => {
            return Err(error);
        },
    };
    match json_as_u64(value) {
        Some(n) => Ok(n),
        None => Err(ApiResponseError::MissingField(key)),
    }
}

/// The string under the key, `None` when the field is absent or null, or the
/// error naming the key when it has another shape.
fn opt_str_field(v: &serde_json::Value, key: &'static str) -> (r: Result<
    Option<String>,
    ApiResponseError,
>)
    ensures
        match r {
            Ok(Some(s)) => opt_str_field_of(*v, key@) == Ok::<Option<Seq<char>>, ()>(Some(s@)),
            Ok(None) => opt_str_field_of(*v, key@) == Ok::<Option<Seq<char>>, ()>(
                None::<Seq<char>>,
            ),
            Err(e) => opt_str_field_of(*v, key@) is Err && e == ApiResponseError::MissingField(
                key,
            ),
        },
{
    match json_get(v, key) {
        Some(value) => {
            if json_is_null(value) {
                Ok(None)
            } else {
                match json_as_str(value) {
                    Some(s) => Ok(Some(s.to_owned())),
                    None => Err(ApiResponseError::MissingField(key)),
                }
            }
        },
        None => Ok(None),
    }
}

/// The creation-time text under the key, checked to denote an ISO 8601
/// instant, or the error naming the key.
fn created_field(v: &serde_json::Value, key: &'static str) -> (r: Result<String, ApiResponseError>)
    ensures
        match r {
            Ok(created) => created_field_of(*v, key@) == Some(created@),
            Err(e) => created_field_of(*v, key@) is None && e == ApiResponseError::MissingField(
                key,
            ),
        },
{
    let created = match str_field(v, key) {
        Ok(created) => created,
        Err(error) => {
            return Err(error);
        },
    };
    match parse_iso8601_unix(created.as_str()) {
        Some(_) => Ok(created),
        None => Err(ApiResponseError::MissingField(key)),
    }
}

/// Build one file record from its object in an API response; the record is
/// exactly what the object holds.
pub fn post_file_from_value(v: &serde_json::Value) -> (r: Result<PostFile, ApiResponseError>)
    ensures
        match r {
            Ok(file) => post_file_of(*v) == Ok::<PostFileView, Seq<char>>(file@),
            Err(e) => (post_file_of(*v) matches Err(key) && e matches
                ApiResponseError::MissingField(k) && k@ == key),
        },
        r matches Ok(file) ==> post_file_wf(file),
{
    let id = match str_field(v, "id") {
        Ok(value) => value,
        Err(error) => {
            return Err(error);
        },
    };
    let description = match opt_str_field(v, "description") {
        Ok(value) => value,
        Err(error) => {
            return Err(error);
        },
    };
    let link = match str_field(v, "link") {
        Ok(value) => value,
        Err(error) => {
            return Err(error);
        },
    };
    let position_raw = match u64_field(v, "position") {
        Ok(value) => value,
        Err(error) => {
            return Err(error);
        },
    };
    if position_raw == 0 || position_raw > u32::MAX as u64 {
        return Err(ApiResponseError::MissingField("position"));
    }
    let position = position_raw as u32;
    let created = match created_field(v, "created") {
        Ok(value) => value,
        Err(error) => {
            return Err(error);
        },
    };
    let original_name = match opt_str_field(v, "original_name") {
        Ok(value) => value,
        Err(error) => {
            return Err(error);
        },
    };
    Ok(PostFile { id, description, link, position, created, original_name })
}

/// Build a post from its object in an API response; the post is exactly what
/// the object holds, and its file positions are dense in array order.
#[verifier::loop_isolation(false)]
pub fn post_from_value(v: &serde_json::Value) -> (r: Result<Post, ApiResponseError>)
    ensures
        match post_of(*v) {
            Ok(view) => (r matches Ok(post) && post@ == view),
            Err(key) => (r matches Err(ApiResponseError::MissingField(k)) && k@ == key),
        },
        r matches Ok(post) ==> post_wf(post),
{
    let id = match str_field(v, "id") {
        Ok(value) => value,
        Err(error) => {
            return Err(error);
        },
    };
    let title = match opt_str_field(v, "title") {
        Ok(value) => value,
        Err(error) => {
            return Err(error);
        },
    };
    let username = match str_field(v, "username") {
        Ok(value) => value,
        Err(error) => {
            return Err(error);
        },
    };
    let privacy_text = match str_field(v, "privacy") {
        Ok(value) => value,
        Err(error) => {
            return Err(error);
        },
    };
    let privacy = match privacy_from_str(privacy_text.as_str()) {
        Some(privacy) => privacy,
        None => {
            return Err(ApiResponseError::MissingField("privacy"));
        },
    };
    let report_status_value = match field(v, "report_status") {
        Ok(value) => value,
        Err(error) => {
            return Err(error);
        },
    };
    let report_status_raw = match json_as_i64(report_status_value) {
        Some(n) => n,
        None => {
            return Err(ApiResponseError::MissingField("report_status"));
        },
    };
    if report_status_raw < i32::MIN as i64 || report_status_raw > i32::MAX as i64 {
        return Err(ApiResponseError::MissingField("report_status"));
    }
    let report_status = report_status_raw as i32;
    let views = match u64_field(v, "views") {
        Ok(value) => value,
        Err(error) => {
            return Err(error);
        },
    };
    let nsfw_raw = match u64_field(v, "nsfw") {
        Ok(value) => value,
        Err(error) => {
            return Err(error);
        },
    };
    let nsfw = match nsfw_raw {
        0 => false,
        1 => true,
        _ => {
            return Err(ApiResponseError::MissingField("nsfw"));
        },
    };
    let image_count = match u64_field(v, "image_count") {
        Ok(value) => value,
        Err(error) => {
            return Err(error);
        },
    };
    let created = match created_field(v, "created") {
        Ok(value) => value,
        Err(error) => {
            return Err(error);
        },
    };
    let delete_url = match opt_str_field(v, "delete_url") {
        Ok(value) => value,
        Err(error) => {
            return Err(error);
        },
    };

    let images_value = match field(v, "images") {
        Ok(value) => value,
        Err(error) => {
            return Err(error);
        },
    };
    let images_array = match json_as_array(images_value) {
        Some(images) => images,
        None => {
            return Err(ApiResponseError::MissingField("images"));
        },
    };
    let mut images: Vec<PostFile> = Vec::new();
    let mut i: usize = 0;
    let images_len = images_array.len();
    while i < images_len
        invariant
            i <= images_len,
            images@.len() == i,
            forall|j: int|
                0 <= j < i ==> post_file_of(#[trigger] images_array@[j]) == Ok::<
                    PostFileView,
                    Seq<char>,
                >(images@[j]@),
            forall|j: int| 0 <= j < i ==> (#[trigger] images@[j]).position == j + 1,
            forall|j: int| 0 <= j < i ==> post_file_wf(#[trigger] images@[j]),
        decreases images_len - i,
    {
        let image = match post_file_from_value(&images_array[i]) {
            Ok(image) => image,
            Err(error) => {
                proof {
                    let key = post_file_of(images_array@[i as int])->Err_0;
                    lemma_post_files_of_err(
                        images_array@,
                        Seq::new(images@.len(), |j: int| images@[j]@),
                        key,
                        Some(1),
                    );
                }
                return Err(error);
            },
        };
        if image.position as u64 != (i as u64) + 1 {
            proof {
                lemma_post_files_of_err(
                    images_array@,
                    Seq::new(images@.len(), |j: int| images@[j]@),
                    "position"@,
                    Some(1),
                );
            }
            return Err(ApiResponseError::MissingField("position"));
        }
        images.push(image);
        i += 1;
    }

    proof {
        lemma_post_files_of_ok(
            images_array@,
            Seq::new(images@.len(), |j: int| images@[j]@),
            Some(1),
        );
    }
    Ok(
        Post {
            id,
            title,
            username,
            privacy,
            report_status,
            views,
            nsfw,
            image_count,
            created,
            images,
            delete_url,
        },
    )
}

/// Build a user from its object in an API response; the user is exactly what
/// the object holds.
pub fn user_from_value(v: &serde_json::Value) -> (r: Result<User, ApiResponseError>)
    ensures
        match user_of(*v) {
            Ok(view) => (r matches Ok(user) && user@ == view),
            Err(key) => (r matches Err(ApiResponseError::MissingField(k)) && k@ == key),
        },
        r matches Ok(user) ==> user_wf(user),
{
    let name = match str_field(v, "name") {
        Ok(value) => value,
        Err(error) => {
            return Err(error);
        },
    };
    let posts = match u64_field(v, "posts") {
        Ok(value) => value,
        Err(error) => {
            return Err(error);
        },
    };
    let comments = match u64_field(v, "comments") {
        Ok(value) => value,
        Err(error) => {
            return Err(error);
        },
    };
    let created = match created_field(v, "created") {
        Ok(value) => value,
        Err(error) => {
            return Err(error);
        },
    };
    Ok(User { name, posts, comments, created })
}

/// Read a response body as the `{data: ...}` envelope of a post; the post is
/// exactly what the envelope holds.
pub fn parse_post_response(body: &str) -> (r: Result<Post, Error>)
    ensures
        match json_of(body@) {
            None => r matches Err(Error::InvalidApiResponse(ApiResponseError::InvalidJson(_))),
            Some(root) => match json_field_of(root, "data"@) {
                None => (r matches Err(Error::InvalidApiResponse(ApiResponseError::MissingField(k)))
                    && k@ == "data"@),
                Some(data) => match post_of(data) {
                    Ok(view) => (r matches Ok(post) && post@ == view),
                    Err(key) => (r matches Err(
                        Error::InvalidApiResponse(ApiResponseError::MissingField(k)),
                    ) && k@ == key),
                },
            },
        },
        r matches Ok(post) ==> post_wf(post),
{
    let root = match json_parse(body) {
        Ok(root) => root,
        Err(text) => {
            return Err(Error::InvalidApiResponse(ApiResponseError::InvalidJson(text)));
        },
    };
    let data = match json_get(&root, "data") {
        Some(data) => data,
        None => {
            return Err(Error::InvalidApiResponse(ApiResponseError::MissingField("data")));
        },
    };
    match post_from_value(data) {
        Ok(post) => Ok(post),
        Err(error) => Err(Error::InvalidApiResponse(error)),
    }
}

/// Read a response body as the `{data: ...}` envelope of a user; the user is
/// exactly what the envelope holds.
pub fn parse_user_response(body: &str) -> (r: Result<User, Error>)
    ensures
        match json_of(body@) {
            None => r matches Err(Error::InvalidApiResponse(ApiResponseError::InvalidJson(_))),
            Some(root) => match json_field_of(root, "data"@) {
                None => (r matches Err(Error::InvalidApiResponse(ApiResponseError::MissingField(k)))
                    && k@ == "data"@),
                Some(data) => match user_of(data) {
                    Ok(view) => (r matches Ok(user) && user@ == view),
                    Err(key) => (r matches Err(
                        Error::InvalidApiResponse(ApiResponseError::MissingField(k)),
                    ) && k@ == key),
                },
            },
        },
        r matches Ok(user) ==> user_wf(user),
{
    let root = match json_parse(body) {
        Ok(root) => root,
        Err(text) => {
            return Err(Error::InvalidApiResponse(ApiResponseError::InvalidJson(text)));
        },
    };
    let data = match json_get(&root, "data") {
        Some(data) => data,
        None => {
            return Err(Error::InvalidApiResponse(ApiResponseError::MissingField("data")));
        },
    };
    match user_from_value(data) {
        Ok(user) => Ok(user),
        Err(error) => Err(Error::InvalidApiResponse(error)),
    }
}

/// Read a response body as the `{data: ...}` envelope of one file; the file
/// is exactly what the envelope holds.
pub fn parse_file_response(body: &str) -> (r: Result<PostFile, Error>)
    ensures
        match json_of(body@) {
            None => r matches Err(Error::InvalidApiResponse(ApiResponseError::InvalidJson(_))),
            Some(root) => match json_field_of(root, "data"@) {
                None => (r matches Err(Error::InvalidApiResponse(ApiResponseError::MissingField(k)))
                    && k@ == "data"@),
                Some(data) => match post_file_of(data) {
                    Ok(view) => (r matches Ok(file) && file@ == view),
                    Err(key) => (r matches Err(
                        Error::InvalidApiResponse(ApiResponseError::MissingField(k)),
                    ) && k@ == key),
                },
            },
        },
        r matches Ok(file) ==> post_file_wf(file),
{
    let root = match json_parse(body) {
        Ok(root) => root,
        Err(text) => {
            return Err(Error::InvalidApiResponse(ApiResponseError::InvalidJson(text)));
        },
    };
    let data = match json_get(&root, "data") {
        Some(data) => data,
        None => {
            return Err(Error::InvalidApiResponse(ApiResponseError::MissingField("data")));
        },
    };
    match post_file_from_value(data) {
        Ok(file) => Ok(file),
        Err(error) => Err(Error::InvalidApiResponse(error)),
    }
}

/// Read a response body as the `{data: [...]}` envelope of a file list, as
/// the bulk file update returns it; the files are exactly the envelope's
/// records, in order.
#[verifier::loop_isolation(false)]
pub fn parse_files_response(body: &str) -> (r: Result<Vec<PostFile>, Error>)
    ensures
        match json_of(body@) {
            None => r matches Err(Error::InvalidApiResponse(ApiResponseError::InvalidJson(_))),
            Some(root) => match json_field_of(root, "data"@) {
                None => (r matches Err(Error::InvalidApiResponse(ApiResponseError::MissingField(k)))
                    && k@ == "data"@),
                Some(data) => match json_array_of(data) {
                    None => (r matches Err(
                        Error::InvalidApiResponse(ApiResponseError::MissingField(k)),
                    ) && k@ == "data"@),
                    Some(entries) => match post_files_of(entries, None) {
                        Ok(views) => (r matches Ok(files) && files@.len() == views.len() && (forall|
                            i: int,
                        |
                            0 <= i < views.len() ==> (#[trigger] files@[i])@ == views[i])),
                        Err(key) => (r matches Err(
                            Error::InvalidApiResponse(ApiResponseError::MissingField(k)),
                        ) && k@ == key),
                    },
                },
            },
        },
        r matches Ok(files) ==> forall|i: int|
            0 <= i < files@.len() ==> post_file_wf(#[trigger] files@[i]),
{
    let root = match json_parse(body) {
        Ok(root) => root,
        Err(text) => {
            return Err(Error::InvalidApiResponse(ApiResponseError::InvalidJson(text)));
        },
    };
    let data = match json_get(&root, "data") {
        Some(data) => data,
        None => {
            return Err(Error::InvalidApiResponse(ApiResponseError::MissingField("data")));
        },
    };
    let files_array = match json_as_array(data) {
        Some(files) => files,
        None => {
            return Err(Error::InvalidApiResponse(ApiResponseError::MissingField("data")));
        },
    };
    let mut files: Vec<PostFile> = Vec::new();
    let mut i: usize = 0;
    let files_len = files_array.len();
    while i < files_len
        invariant
            i <= files_len,
            files@.len() == i,
            forall|j: int|
                0 <= j < i ==> post_file_of(#[trigger] files_array@[j]) == Ok::<
                    PostFileView,
                    Seq<char>,
                >(files@[j]@),
            forall|j: int| 0 <= j < i ==> post_file_wf(#[trigger] files@[j]),
        decreases files_len - i,
    {
        let file = match post_file_from_value(&files_array[i]) {
            Ok(file) => file,
            Err(error) => {
                proof {
                    let key = post_file_of(files_array@[i as int])->Err_0;
                    lemma_post_files_of_err(
                        files_array@,
                        Seq::new(files@.len(), |j: int| files@[j]@),
                        key,
                        None,
                    );
                }
                return Err(Error::InvalidApiResponse(error));
            },
        };
        files.push(file);
        i += 1;
    }
    proof {
        lemma_post_files_of_ok(files_array@, Seq::new(files@.len(), |j: int| files@[j]@), None);
    }
    Ok(files)
}

/// Read a response body as the `{success, message}` envelope of a completed
/// operation; the success flag is carried as the text of a boolean, and the
/// result is exactly what the envelope holds.
pub fn parse_completed_response(body: &str) -> (r: Result<ApiCompletedResponse, Error>)
    ensures
        match json_of(body@) {
            None => r matches Err(Error::InvalidApiResponse(ApiResponseError::InvalidJson(_))),
            Some(root) => match completed_of(root) {
                Err(key) => (r matches Err(
                    Error::InvalidApiResponse(ApiResponseError::MissingField(k)),
                ) && k@ == key),
                Ok(payload) => (r matches Ok(response) && response.success == payload.0 && (
                match (response.message, payload.1) {
                    (Some(sent), Some(held)) => sent@ == held,
                    (None, None) => true,
                    _ => false,
                })),
            },
        },
{
    let root = match json_parse(body) {
        Ok(root) => root,
        Err(text) => {
            return Err(Error::InvalidApiResponse(ApiResponseError::InvalidJson(text)));
        },
    };
    let success_text = match str_field(&root, "success") {
        Ok(text) => text,
        Err(error) => {
            return Err(Error::InvalidApiResponse(error));
        },
    };
    let success = match crate::model::parse_bool_str(success_text.as_str()) {
        Some(success) => success,
        None => {
            return Err(Error::InvalidApiResponse(ApiResponseError::MissingField("success")));
        },
    };
    let message = match opt_str_field(&root, "message") {
        Ok(message) => message,
        Err(error) => {
            return Err(Error::InvalidApiResponse(error));
        },
    };
    Ok(ApiCompletedResponse { success, message })
}

} // verus!
