use vstd::prelude::*;

use crate::model::post::Privacy as PostPrivacy;
use crate::model::ApiCompletedResponse;
use crate::model::FileUpdate;
use crate::strings::str_eq;
use crate::Error;

verus! {

/// The request budget of one rate-limit window.
pub const REQUESTS_PER_MINUTE: u8 = 60;

/// The length of one rate-limit window, in seconds.
pub const ONE_MINUTE: u64 = 60;

#[verifier::external_type_specification]
#[verifier::external_body]
pub struct ExBody(reqwest::Body);

/// Relies on reqwest::Body's conversion from a byte vector: a body holding
/// exactly those bytes.
#[verifier::external_body]
pub(crate) fn body_from_bytes(file_data: Vec<u8>) -> (r: reqwest::Body) {
    reqwest::Body::from(file_data)
}

/// A post file that is meant for uploading.
#[derive(Debug)]
pub struct UploadPostFile {
    /// The file name
    pub file_name: String,
    /// The file body
    pub body: reqwest::Body,
}

impl UploadPostFile {
    /// Create this from a raw body.
    pub fn from_body(file_name: &str, body: reqwest::Body) -> (r: Self)
        ensures
            r.file_name@ == file_name@,
            r.body == body,
    {
        Self { file_name: file_name.to_owned(), body }
    }

    /// Create this from bytes.
    pub fn from_bytes(file_name: &str, file_data: Vec<u8>) -> (r: Self)
        ensures
            r.file_name@ == file_name@,
    {
        Self::from_body(file_name, body_from_bytes(file_data))
    }
}

/// A builder for creating a post.
#[derive(Debug)]
pub struct CreatePostBuilder {
    /// The title of the post.
    ///
    /// If specified, it must be at least 3 bytes long.
    pub title: Option<String>,
    /// The post privacy.
    ///
    /// Defaults to hidden.
    pub privacy: Option<PostPrivacy>,
    /// Whether the post should be tied to the user.
    pub anonymous: Option<bool>,
    /// Whether this post is nsfw.
    pub nsfw: Option<bool>,
    /// The images of the post
    pub images: Vec<UploadPostFile>,
}

impl CreatePostBuilder {
    /// Create a new builder.
    pub fn new() -> (r: Self)
        ensures
            r.title is None,
            r.privacy is None,
            r.anonymous is None,
            r.nsfw is None,
            r.images@.len() == 0,
    {
        Self { title: None, privacy: None, anonymous: None, nsfw: None, images: Vec::new() }
    }

    /// Set the title.
    ///
    /// It must be at least 3 bytes long.
    pub fn title(&mut self, title: &str)
        ensures
            final(self).title matches Some(t) && t@ == title@,
            final(self).privacy == old(self).privacy,
            final(self).anonymous == old(self).anonymous,
            final(self).nsfw == old(self).nsfw,
            final(self).images == old(self).images,
    {
        self.title = Some(title.to_owned());
    }

    /// Set the post privacy.
    ///
    /// Defaults to hidden.
    pub fn privacy(&mut self, privacy: PostPrivacy)
        ensures
            *final(self) == (CreatePostBuilder { privacy: Some(privacy), ..*old(self) }),
    {
        self.privacy = Some(privacy);
    }

    /// Set whether this post should be anonymous.
    pub fn anonymous(&mut self, anonymous: bool)
        ensures
            *final(self) == (CreatePostBuilder { anonymous: Some(anonymous), ..*old(self) }),
    {
        self.anonymous = Some(anonymous);
    }

    /// Set whether this post is nsfw.
    pub fn nsfw(&mut self, nsfw: bool)
        ensures
            *final(self) == (CreatePostBuilder { nsfw: Some(nsfw), ..*old(self) }),
    {
        self.nsfw = Some(nsfw);
    }

    /// Add a new image to this post.
    pub fn image(&mut self, file: UploadPostFile)
        ensures
            final(self).images@ == old(self).images@.push(file),
            final(self).title == old(self).title,
            final(self).privacy == old(self).privacy,
            final(self).anonymous == old(self).anonymous,
            final(self).nsfw == old(self).nsfw,
    {
        self.images.push(file);
    }
}

impl Default for CreatePostBuilder {
    fn default() -> (r: Self)
        ensures
            r.title is None,
            r.privacy is None,
            r.anonymous is None,
            r.nsfw is None,
            r.images@.len() == 0,
    {
        Self::new()
    }
}

/// A builder for updating a post.
#[derive(Clone, Debug)]
pub struct UpdatePostBuilder {
    /// The title
    ///
    /// If specified, it must be at least 3 bytes long.
    pub title: Option<String>,
    /// The post privacy
    pub privacy: Option<PostPrivacy>,
    /// Whether the post is nsfw
    pub nsfw: Option<bool>,
}

impl UpdatePostBuilder {
    /// Create an empty post update.
    pub fn new() -> (r: Self)
        ensures
            r.title is None,
            r.privacy is None,
            r.nsfw is None,
    {
        Self { title: None, privacy: None, nsfw: None }
    }

    /// Update the title.
    ///
    /// It must be at least 3 bytes long.
    pub fn title(&mut self, title: &str)
        ensures
            final(self).title matches Some(t) && t@ == title@,
            final(self).privacy == old(self).privacy,
            final(self).nsfw == old(self).nsfw,
    {
        self.title = Some(title.to_owned());
    }

    /// Update the privacy.
    pub fn privacy(&mut self, privacy: PostPrivacy)
        ensures
            *final(self) == (UpdatePostBuilder { privacy: Some(privacy), ..*old(self) }),
    {
        self.privacy = Some(privacy);
    }

    /// Update the nsfw flag.
    pub fn nsfw(&mut self, nsfw: bool)
        ensures
            *final(self) == (UpdatePostBuilder { nsfw: Some(nsfw), ..*old(self) }),
    {
        self.nsfw = Some(nsfw);
    }
}

impl Default for UpdatePostBuilder {
    fn default() -> (r: Self)
        ensures
            r.title is None,
            r.privacy is None,
            r.nsfw is None,
    {
        Self::new()
    }
}

/// The wire form of a boolean form field.
pub open spec fn bool_str_spec(b: bool) -> Seq<char> {
    if b {
        "true"@
    } else {
        "false"@
    }
}

/// Render a boolean as the service's form values spell it.
pub fn bool_to_str(b: bool) -> (r: &'static str)
    ensures
        r@ == bool_str_spec(b),
{
    if b {
        "true"
    } else {
        "false"
    }
}

/// A title is rejected when it is shorter than 3 bytes.
pub open spec fn title_too_short(title: Option<String>) -> bool {
    match title {
        Some(t) => vstd::utf8::encode_utf8(t@).len() < 3,
        None => false,
    }
}

/// One optional form field: nothing when the value is absent, one pair
/// otherwise.
pub open spec fn opt_form_field(name: Seq<char>, value: Option<Seq<char>>) -> Seq<
    (Seq<char>, Seq<char>),
> {
    match value {
        Some(v) => seq![(name, v)],
        None => Seq::empty(),
    }
}

/// The text fields of a create-post request, in the order they are sent.
pub open spec fn create_post_fields_spec(
    title: Option<String>,
    privacy: Option<PostPrivacy>,
    anonymous: Option<bool>,
    nsfw: Option<bool>,
) -> Seq<(Seq<char>, Seq<char>)> {
    opt_form_field(
        "title"@,
        match title {
            Some(t) => Some(t@),
            None => None,
        },
    ) + opt_form_field(
        "privacy"@,
        match privacy {
            Some(p) => Some(p.as_str_spec()),
            None => None,
        },
    ) + opt_form_field(
        "anonymous"@,
        match anonymous {
            Some(b) => Some(bool_str_spec(b)),
            None => None,
        },
    ) + opt_form_field(
        "nsfw"@,
        match nsfw {
            Some(b) => Some(bool_str_spec(b)),
            None => None,
        },
    )
}

/// The form fields of an update-post request, in the order they are sent.
pub open spec fn update_post_fields_spec(
    title: Option<String>,
    privacy: Option<PostPrivacy>,
    nsfw: Option<bool>,
) -> Seq<(Seq<char>, Seq<char>)> {
    opt_form_field(
        "title"@,
        match title {
            Some(t) => Some(t@),
            None => None,
        },
    ) + opt_form_field(
        "privacy"@,
        match privacy {
            Some(p) => Some(p.as_str_spec()),
            None => None,
        },
    ) + opt_form_field(
        "nsfw"@,
        match nsfw {
            Some(b) => Some(bool_str_spec(b)),
            None => None,
        },
    )
}

/// Whether a title is too short to submit.
fn title_is_too_short(title: &String) -> (r: bool)
    ensures
        r == (vstd::utf8::encode_utf8(title@).len() < 3),
{
    title.as_str().as_bytes().len() < 3
}

/// Validate a create-post request and build its text form fields.
///
/// A title shorter than 3 bytes is rejected first; a request without images
/// is rejected next; nothing is sent in either case.
pub fn create_post_fields(data: &CreatePostBuilder) -> (r: Result<Vec<(String, String)>, Error>)
    ensures
        title_too_short(data.title) ==> r == Err::<Vec<(String, String)>, Error>(
            Error::TitleTooShort,
        ),
        !title_too_short(data.title) && data.images@.len() == 0 ==> r == Err::<
            Vec<(String, String)>,
            Error,
        >(Error::MissingImages),
        !title_too_short(data.title) && data.images@.len() > 0 ==> (r matches Ok(fields)
            && fields.deep_view() == create_post_fields_spec(
            data.title,
            data.privacy,
            data.anonymous,
            data.nsfw,
        )),
{
    let mut fields: Vec<(String, String)> = Vec::new();
    if let Some(title) = &data.title {
        if title_is_too_short(title) {
            return Err(Error::TitleTooShort);
        }
        fields.push(("title".to_owned(), title.clone()));
    }
    if let Some(privacy) = data.privacy {
        fields.push(("privacy".to_owned(), privacy.as_str().to_owned()));
    }
    if let Some(anonymous) = data.anonymous {
        fields.push(("anonymous".to_owned(), bool_to_str(anonymous).to_owned()));
    }
    if let Some(nsfw) = data.nsfw {
        fields.push(("nsfw".to_owned(), bool_to_str(nsfw).to_owned()));
    }
    if data.images.len() == 0 {
        return Err(Error::MissingImages);
    }
    proof {
        assert(fields.deep_view() =~~= create_post_fields_spec(
            data.title,
            data.privacy,
            data.anonymous,
            data.nsfw,
        ));
    }
    Ok(fields)
}

/// Validate an update-post request and build its form fields.
///
/// A title shorter than 3 bytes is rejected; nothing is sent in that case.
pub fn update_post_fields(data: &UpdatePostBuilder) -> (r: Result<Vec<(String, String)>, Error>)
    ensures
        title_too_short(data.title) ==> r == Err::<Vec<(String, String)>, Error>(
            Error::TitleTooShort,
        ),
        !title_too_short(data.title) ==> (r matches Ok(fields) && fields.deep_view()
            == update_post_fields_spec(data.title, data.privacy, data.nsfw)),
{
    let mut fields: Vec<(String, String)> = Vec::new();
    if let Some(title) = &data.title {
        if title_is_too_short(title) {
            return Err(Error::TitleTooShort);
        }
        fields.push(("title".to_owned(), title.clone()));
    }
    if let Some(privacy) = data.privacy {
        fields.push(("privacy".to_owned(), privacy.as_str().to_owned()));
    }
    if let Some(nsfw) = data.nsfw {
        fields.push(("nsfw".to_owned(), bool_to_str(nsfw).to_owned()));
    }
    proof {
        assert(fields.deep_view() =~~= update_post_fields_spec(
            data.title,
            data.privacy,
            data.nsfw,
        ));
    }
    Ok(fields)
}

/// Reject an image list that holds no image; a request with none is never
/// sent.
pub fn require_images(images: &Vec<UploadPostFile>) -> (r: Result<(), Error>)
    ensures
        images@.len() == 0 ==> r == Err::<(), Error>(Error::MissingImages),
        images@.len() > 0 ==> r == Ok::<(), Error>(()),
{
    if images.len() == 0 {
        Err(Error::MissingImages)
    } else {
        Ok(())
    }
}

/// Validate a file update and build its form fields.
///
/// An empty description is rejected; nothing is sent in that case.
pub fn update_file_fields(description: &str) -> (r: Result<Vec<(String, String)>, Error>)
    ensures
        description@.len() == 0 ==> r == Err::<Vec<(String, String)>, Error>(
            Error::MissingDescription,
        ),
        description@.len() > 0 ==> (r matches Ok(fields) && fields.deep_view() == seq![
            ("description"@, description@),
        ]),
{
    if description.is_empty() {
        return Err(Error::MissingDescription);
    }
    let mut fields: Vec<(String, String)> = Vec::new();
    fields.push(("description".to_owned(), description.to_owned()));
    proof {
        assert(fields.deep_view() =~~= seq![("description"@, description@)]);
    }
    Ok(fields)
}

/// Every entry of a bulk file update must carry a description.
pub open spec fn all_descriptions_present(files: Seq<FileUpdate>) -> bool {
    forall|i: int| 0 <= i < files.len() ==> (#[trigger] files[i].description)@.len() > 0
}

/// Validate a bulk file update: the first entry with an empty description is
/// rejected, and nothing is sent in that case.
pub fn validate_file_updates(files: &Vec<FileUpdate>) -> (r: Result<(), Error>)
    ensures
        r == Ok::<(), Error>(()) <==> all_descriptions_present(files@),
        r is Err ==> r == Err::<(), Error>(Error::MissingDescription),
{
    let mut i: usize = 0;
    let files_len = files.len();
    while i < files_len
        invariant
            files_len == files@.len(),
            i <= files_len,
            forall|j: int| 0 <= j < i ==> (#[trigger] files@[j].description)@.len() > 0,
        decreases files_len - i,
    {
        if files[i].description.as_str().is_empty() {
            return Err(Error::MissingDescription);
        }
        i += 1;
    }
    Ok(())
}

/// The mutable state of a client: the auth token and the rate limiter's
/// bucket counters. Callers share it behind their own lock and read the
/// clock for it; times are monotonic readings in seconds.
#[derive(Clone, Debug)]
pub struct ClientState {
    /// The bearer token, when one was set
    pub token: Option<String>,
    /// The time the request budget was last refilled
    pub last_refreshed: u64,
    /// The requests left in the current window
    pub remaining_requests: u8,
}

/// What a caller must do before sending a request: go ahead now, or sleep
/// this many seconds and ask again.
#[derive(Clone, Copy, Debug, PartialEq, Eq, Structural)]
pub enum RatelimitAction {
    /// The budget allows the request now.
    Proceed,
    /// The budget is spent; sleep this long, until the window rolls over,
    /// and ask again.
    Wait(u64),
}

/// The bucket after a possible refill: a full window has passed since the
/// last refill, so the budget is whole again and the window restarts now.
pub open spec fn refill_spec(last_refreshed: u64, remaining: u8, now: u64) -> (u64, u8) {
    if now >= last_refreshed + ONE_MINUTE {
        (now, REQUESTS_PER_MINUTE)
    } else {
        (last_refreshed, remaining)
    }
}

/// The bucket after one gate call.
pub open spec fn ratelimit_state_spec(last_refreshed: u64, remaining: u8, now: u64) -> (u64, u8) {
    let (refreshed, budget) = refill_spec(last_refreshed, remaining, now);
    if budget > 0 {
        (refreshed, (budget - 1) as u8)
    } else {
        (refreshed, budget)
    }
}

/// What one gate call tells the caller to do.
pub open spec fn ratelimit_action_spec(
    last_refreshed: u64,
    remaining: u8,
    now: u64,
) -> RatelimitAction {
    let (refreshed, budget) = refill_spec(last_refreshed, remaining, now);
    if budget > 0 {
        RatelimitAction::Proceed
    } else {
        RatelimitAction::Wait((refreshed + ONE_MINUTE - now) as u64)
    }
}

impl ClientState {
    /// Make the state of a fresh client: no token, and a full request budget
    /// whose window starts at time zero.
    pub fn new() -> (r: Self)
        ensures
            r.token is None,
            r.last_refreshed == 0,
            r.remaining_requests == REQUESTS_PER_MINUTE,
    {
        Self { token: None, last_refreshed: 0, remaining_requests: REQUESTS_PER_MINUTE }
    }

    /// Set the token to use for future requests.
    pub fn set_token(&mut self, token: &str)
        ensures
            final(self).token matches Some(t) && t@ == token@,
            final(self).last_refreshed == old(self).last_refreshed,
            final(self).remaining_requests == old(self).remaining_requests,
    {
        self.token = Some(token.to_owned());
    }

    /// Take a snapshot of the current token.
    pub fn get_token(&self) -> (r: Option<String>)
        ensures
            match (r, self.token) {
                (Some(a), Some(b)) => a@ == b@,
                (None, None) => true,
                _ => false,
            },
    {
        match &self.token {
            Some(token) => Some(token.clone()),
            None => None,
        }
    }

    /// The token, or the failure every authenticated call ends with when none
    /// was set; checked before any request is sent.
    pub fn require_token(&self) -> (r: Result<String, Error>)
        ensures
            self.token matches Some(t) ==> r matches Ok(s) && s@ == t@,
            self.token is None ==> r == Err::<String, Error>(Error::MissingToken),
    {
        match &self.token {
            Some(token) => Ok(token.clone()),
            None => Err(Error::MissingToken),
        }
    }

    /// One call of the rate-limit gate at time `now`: refill the budget when
    /// a full window has passed, then either take one request from it or tell
    /// the caller how long to sleep before asking again.
    pub fn ratelimit(&mut self, now: u64) -> (action: RatelimitAction)
        requires
            now >= old(self).last_refreshed,
        ensures
            final(self).token == old(self).token,
            (final(self).last_refreshed, final(self).remaining_requests) == ratelimit_state_spec(
                old(self).last_refreshed,
                old(self).remaining_requests,
                now,
            ),
            action == ratelimit_action_spec(
                old(self).last_refreshed,
                old(self).remaining_requests,
                now,
            ),
    {
        if now - self.last_refreshed >= ONE_MINUTE {
            self.last_refreshed = now;
            self.remaining_requests = REQUESTS_PER_MINUTE;
        }
        if self.remaining_requests > 0 {
            self.remaining_requests = self.remaining_requests - 1;
            RatelimitAction::Proceed
        } else {
            RatelimitAction::Wait(ONE_MINUTE - (now - self.last_refreshed))
        }
    }
}

/// The bucket after a run of gate calls, one per time in order.
pub open spec fn ratelimit_run_state(last_refreshed: u64, remaining: u8, times: Seq<u64>) -> (
    u64,
    u8,
)
    decreases times.len(),
{
    if times.len() == 0 {
        (last_refreshed, remaining)
    } else {
        let (refreshed, budget) = ratelimit_state_spec(last_refreshed, remaining, times[0]);
        ratelimit_run_state(refreshed, budget, times.drop_first())
    }
}

/// Whether every call of the run may proceed at once, none suspending.
pub open spec fn ratelimit_run_proceeds(last_refreshed: u64, remaining: u8, times: Seq<u64>) -> bool
    decreases times.len(),
{
    times.len() == 0 || {
        &&& ratelimit_action_spec(last_refreshed, remaining, times[0]) is Proceed
        &&& {
            let (refreshed, budget) = ratelimit_state_spec(last_refreshed, remaining, times[0]);
            ratelimit_run_proceeds(refreshed, budget, times.drop_first())
        }
    }
}

/// As many calls as the budget holds, all within the current window, never
/// suspend, and each takes exactly one request from the budget.
pub proof fn lemma_window_budget(window_start: u64, budget: u8, times: Seq<u64>)
    requires
        times.len() <= budget,
        forall|i: int|
            0 <= i < times.len() ==> window_start <= #[trigger] times[i] < window_start
                + ONE_MINUTE,
    ensures
        ratelimit_run_proceeds(window_start, budget, times),
        ratelimit_run_state(window_start, budget, times) == (
            window_start,
            (budget - times.len()) as u8,
        ),
    decreases times.len(),
{
    if times.len() > 0 {
        assert(window_start <= times[0] < window_start + ONE_MINUTE);
        lemma_window_budget(window_start, (budget - 1) as u8, times.drop_first());
    }
}

/// Up to a full budget of calls within one window never suspends.
pub proof fn lemma_window_never_suspends(window_start: u64, times: Seq<u64>)
    requires
        times.len() <= REQUESTS_PER_MINUTE,
        forall|i: int|
            0 <= i < times.len() ==> window_start <= #[trigger] times[i] < window_start
                + ONE_MINUTE,
    ensures
        ratelimit_run_proceeds(window_start, REQUESTS_PER_MINUTE, times),
{
    lemma_window_budget(window_start, REQUESTS_PER_MINUTE, times);
}

/// After a full budget of calls within one window, one more call in the same
/// window suspends until the window rolls over.
pub proof fn lemma_next_call_suspends(window_start: u64, times: Seq<u64>, now: u64)
    requires
        times.len() == REQUESTS_PER_MINUTE,
        forall|i: int|
            0 <= i < times.len() ==> window_start <= #[trigger] times[i] < window_start
                + ONE_MINUTE,
        window_start <= now < window_start + ONE_MINUTE,
    ensures
        ({
            let (refreshed, budget) = ratelimit_run_state(
                window_start,
                REQUESTS_PER_MINUTE,
                times,
            );
            ratelimit_action_spec(refreshed, budget, now) == RatelimitAction::Wait(
                (window_start + ONE_MINUTE - now) as u64,
            )
        }),
{
    lemma_window_budget(window_start, REQUESTS_PER_MINUTE, times);
}

/// Once a full window has passed since the last refill, the budget resets:
/// the next call proceeds and leaves a whole window's budget less one.
pub proof fn lemma_rollover_resets(last_refreshed: u64, remaining: u8, now: u64)
    requires
        now >= last_refreshed + ONE_MINUTE,
    ensures
        ratelimit_action_spec(last_refreshed, remaining, now) is Proceed,
        ratelimit_state_spec(last_refreshed, remaining, now) == (
            now,
            (REQUESTS_PER_MINUTE - 1) as u8,
        ),
{
}

/// Check the success flag of a completed-operation response.
pub fn check_completed_response(response: &ApiCompletedResponse) -> (r: Result<(), Error>)
    ensures
        response.success ==> r == Ok::<(), Error>(()),
        !response.success ==> r == Err::<(), Error>(Error::ApiOperationFailed),
{
    if response.success {
        Ok(())
    } else {
        Err(Error::ApiOperationFailed)
    }
}

/// Read a favorite-toggle response: true when the favorite was added, false
/// when it was removed; any other message is unknown, and a missing one is an
/// error of its own.
pub fn interpret_favorite_response(response: ApiCompletedResponse) -> (r: Result<bool, Error>)
    ensures
        !response.success ==> r == Err::<bool, Error>(Error::ApiOperationFailed),
        response.success ==> match response.message {
            None => r == Err::<bool, Error>(Error::ApiResponseMissingMessage),
            Some(m) => (if m@ == "Favorite added."@ {
                r == Ok::<bool, Error>(true)
            } else if m@ == "Favorite removed."@ {
                r == Ok::<bool, Error>(false)
            } else {
                r matches Err(Error::ApiResponseUnknownMessage { message }) && message@ == m@
            }),
        },
{
    if !response.success {
        return Err(Error::ApiOperationFailed);
    }
    match response.message {
        Some(message) => {
            if str_eq(message.as_str(), "Favorite added.") {
                Ok(true)
            } else if str_eq(message.as_str(), "Favorite removed.") {
                Ok(false)
            } else {
                Err(Error::ApiResponseUnknownMessage { message })
            }
        },
        None => Err(Error::ApiResponseMissingMessage),
    }
}

} // verus!
