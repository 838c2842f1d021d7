//! A typed client library for the imgchest.com image-hosting service.
//!
//! The library holds the verified core: identifier resolution, request
//! validation and form building, the rate-limiter state machine, response
//! interpretation, and the scraping of post pages. The network, filesystem
//! and task plumbing around it lives outside the library.
use vstd::prelude::*;

mod api;
mod client;
mod download;
mod encode;
mod html;
mod json;
mod model;
mod strings;

pub use api::ApiResponseError;
pub use api::completed_of;
pub use api::created_field_of;
pub use api::iso8601_unix_of;
pub use api::parse_completed_response;
pub use api::parse_file_response;
pub use api::parse_files_response;
pub use api::parse_post_response;
pub use api::parse_user_response;
pub use api::post_file_from_value;
pub use api::post_file_of;
pub use api::post_file_wf;
pub use api::post_files_of;
pub use api::post_from_value;
pub use api::post_of;
pub use api::post_wf;
pub use api::user_from_value;
pub use api::user_of;
pub use api::user_wf;
pub use client::ClientState;
pub use client::CreatePostBuilder;
pub use client::RatelimitAction;
pub use client::UpdatePostBuilder;
pub use client::UploadPostFile;
pub use client::ONE_MINUTE;
pub use client::REQUESTS_PER_MINUTE;
pub use client::bool_to_str;
pub use client::check_completed_response;
pub use client::create_post_fields;
pub use client::interpret_favorite_response;
pub use client::lemma_next_call_suspends;
pub use client::lemma_rollover_resets;
pub use client::lemma_window_never_suspends;
pub use client::ratelimit_action_spec;
pub use client::ratelimit_run_proceeds;
pub use client::ratelimit_run_state;
pub use client::ratelimit_state_spec;
pub use client::require_images;
pub use client::update_file_fields;
pub use client::update_post_fields;
pub use client::validate_file_updates;

pub use download::DownloadAsset;
pub use download::DownloadError;
pub use download::DownloadReport;
pub use download::Options;
pub use download::extract_id;
pub use download::extract_id_from_url_parts;
pub use download::file_name_from_link;
pub use download::file_name_spec;
pub use download::is_ascii_alphanumeric_lowercase;
pub use download::is_lower_alnum;
pub use download::is_valid_id;
pub use download::plan_downloads;
pub use download::progress_line_spec;
pub use download::should_fetch;
pub use download::url_host_of;
pub use download::url_parse_of;
pub use download::url_segments_of;
pub use download::valid_id;
pub use encode::bulk_update_body_spec;
pub use encode::bulk_update_request_body;
pub use encode::escape_json_string;
pub use encode::json_escaped;
pub use html::app_payload_of;
pub use json::json_array_of;
pub use json::json_field_of;
pub use json::json_i64_of;
pub use json::json_is_null_of;
pub use json::json_of;
pub use json::json_str_of;
pub use json::json_u64_of;
pub use json::i64_field_of;
pub use json::opt_str_field_of;
pub use json::str_field_of;
pub use json::u64_field_of;
pub use model::post::File as PostFile;
pub use model::post::Post;
pub use model::post::PostFileView;
pub use model::post::PostView;
pub use model::post::Privacy as PostPrivacy;
pub use model::post::lemma_positions_strictly_increasing;
pub use model::post::positions_dense;
pub use model::post::privacy_from_str;
pub use model::post::privacy_from_str_spec;
pub use model::scraped_post::File as ScrapedPostFile;
pub use model::scraped_post::FromHtmlError as InvalidScrapedPostError;
pub use model::scraped_post::ScrapedPost;
pub use model::scraped_post::ScrapedPostFileView;
pub use model::scraped_post::ScrapedPostView;
pub use model::scraped_post::scraped_file_of;
pub use model::scraped_post::scraped_files_of;
pub use model::scraped_post::scraped_post_of;
pub use model::user::User;
pub use model::user::UserView;
pub use model::ApiCompletedResponse;
pub use model::FileUpdate;
pub use model::bool_str_value;
pub use model::parse_bool_str;
pub use strings::str_eq;
pub use strings::u64_to_string;

verus! {

/// The error a client operation can end with.
#[derive(Debug)]
pub enum Error {
    /// Missing a token
    MissingToken,
    /// Missing images
    MissingImages,
    /// An api operation was not successful
    ApiOperationFailed,
    /// An api response is missing a message
    ApiResponseMissingMessage,
    /// An api response had an unknown message
    ApiResponseUnknownMessage { message: String },
    /// Missing description
    MissingDescription,
    /// The title is too short.
    TitleTooShort,
    /// Failed to parse post
    InvalidScrapedPost(InvalidScrapedPostError),
    /// An api response body did not have the promised shape
    InvalidApiResponse(ApiResponseError),
}

} // verus!
