use imgchest::ApiCompletedResponse;
use imgchest::ClientState;
use imgchest::CreatePostBuilder;
use imgchest::Error;
use imgchest::FileUpdate;
use imgchest::PostPrivacy;
use imgchest::RatelimitAction;
use imgchest::UpdatePostBuilder;
use imgchest::UploadPostFile;
use imgchest::bool_to_str;
use imgchest::check_completed_response;
use imgchest::create_post_fields;
use imgchest::interpret_favorite_response;
use imgchest::privacy_from_str;
use imgchest::require_images;
use imgchest::update_file_fields;
use imgchest::update_post_fields;
use imgchest::validate_file_updates;

#[test]
fn create_post_too_short_title() {
    let mut builder = CreatePostBuilder::new();
    builder.title("");
    builder.image(UploadPostFile::from_bytes("a.png", vec![1, 2, 3]));

    let err = create_post_fields(&builder).expect_err("title should have been too short");
    assert!(matches!(err, Error::TitleTooShort));
}

#[test]
fn update_post_too_short_title() {
    let mut builder = UpdatePostBuilder::new();
    builder.title("");

    let err = update_post_fields(&builder).expect_err("title should have been too short");
    assert!(matches!(err, Error::TitleTooShort));
}

#[test]
fn title_of_three_bytes_is_accepted() {
    let mut builder = CreatePostBuilder::new();
    builder.title("abc");
    builder.image(UploadPostFile::from_bytes("a.png", vec![1]));
    create_post_fields(&builder).expect("three bytes are enough");

    let mut builder = CreatePostBuilder::new();
    builder.title("ab");
    builder.image(UploadPostFile::from_bytes("a.png", vec![1]));
    let err = create_post_fields(&builder).expect_err("two bytes are too short");
    assert!(matches!(err, Error::TitleTooShort));
}

#[test]
fn untitled_create_post_is_accepted() {
    let mut builder = CreatePostBuilder::new();
    builder.image(UploadPostFile::from_bytes("a.png", vec![1]));
    let fields = create_post_fields(&builder).expect("a title is optional");
    assert!(fields.is_empty());
}

#[test]
fn create_post_missing_images() {
    let builder = CreatePostBuilder::new();

    let err = create_post_fields(&builder).expect_err("should be missing images");
    assert!(matches!(err, Error::MissingImages));
}

#[test]
fn add_post_images_missing_images() {
    let images: Vec<UploadPostFile> = Vec::new();

    let err = require_images(&images).expect_err("should be missing images");
    assert!(matches!(err, Error::MissingImages));
}

#[test]
fn update_file_missing_description() {
    let err = update_file_fields("").expect_err("should be missing description");
    assert!(matches!(err, Error::MissingDescription));
}

#[test]
fn update_files_bulk_missing_description() {
    let files = vec![FileUpdate { id: "pwl7lgepyx2".to_string(), description: "".to_string() }];

    let err = validate_file_updates(&files).expect_err("should be missing description");
    assert!(matches!(err, Error::MissingDescription));
}

#[test]
fn update_files_bulk_all_descriptions_present() {
    let files = vec![
        FileUpdate { id: "pwl7lgepyx2".to_string(), description: "first".to_string() },
        FileUpdate { id: "6yxkcz5ml7w".to_string(), description: "second".to_string() },
    ];
    validate_file_updates(&files).expect("all descriptions are present");
}

#[test]
fn get_post_no_token() {
    let state = ClientState::new();
    let err = state.require_token().expect_err("succeeded getting post with no token");
    assert!(matches!(err, Error::MissingToken));
}

#[test]
fn set_token_then_read_it() {
    let mut state = ClientState::new();
    assert!(state.get_token().is_none());
    state.set_token("an-api-token");
    assert_eq!(state.get_token().as_deref(), Some("an-api-token"));
    assert_eq!(state.require_token().ok().as_deref(), Some("an-api-token"));
}

#[test]
fn create_post_fields_in_order() {
    let mut builder = CreatePostBuilder::new();
    builder.title("A decent title");
    builder.privacy(PostPrivacy::Hidden);
    builder.anonymous(true);
    builder.nsfw(false);
    builder.image(UploadPostFile::from_bytes("a.png", vec![1, 2, 3]));

    let fields = create_post_fields(&builder).expect("a valid request");
    let as_pairs: Vec<(&str, &str)> =
        fields.iter().map(|(k, v)| (k.as_str(), v.as_str())).collect();
    assert_eq!(
        as_pairs,
        vec![
            ("title", "A decent title"),
            ("privacy", "hidden"),
            ("anonymous", "true"),
            ("nsfw", "false"),
        ]
    );
}

#[test]
fn update_post_fields_in_order() {
    let mut builder = UpdatePostBuilder::new();
    builder.title("New title");
    builder.privacy(PostPrivacy::Public);
    builder.nsfw(true);

    let fields = update_post_fields(&builder).expect("a valid request");
    let as_pairs: Vec<(&str, &str)> =
        fields.iter().map(|(k, v)| (k.as_str(), v.as_str())).collect();
    assert_eq!(as_pairs, vec![("title", "New title"), ("privacy", "public"), ("nsfw", "true")]);
}

#[test]
fn update_post_fields_empty_update() {
    let builder = UpdatePostBuilder::new();
    let fields = update_post_fields(&builder).expect("an empty update is valid");
    assert!(fields.is_empty());
}

#[test]
fn update_file_fields_present_description() {
    let fields = update_file_fields("a description").expect("a valid request");
    let as_pairs: Vec<(&str, &str)> =
        fields.iter().map(|(k, v)| (k.as_str(), v.as_str())).collect();
    assert_eq!(as_pairs, vec![("description", "a description")]);
}

#[test]
fn ratelimit_budget_never_suspends_within_window() {
    let mut state = ClientState::new();
    for call in 0..60u64 {
        // Spread the calls over the window; none may suspend.
        let action = state.ratelimit(call / 2);
        assert_eq!(action, RatelimitAction::Proceed);
    }
}

#[test]
fn ratelimit_61st_call_suspends_until_rollover() {
    let mut state = ClientState::new();
    for _ in 0..60u64 {
        assert_eq!(state.ratelimit(10), RatelimitAction::Proceed);
    }
    // The budget is spent; the window started at 0, so at time 45 the caller
    // must sleep the residual 15 until the boundary.
    assert_eq!(state.ratelimit(45), RatelimitAction::Wait(15));
    // Still spent after asking again inside the window.
    assert_eq!(state.ratelimit(59), RatelimitAction::Wait(1));
    // At the boundary the budget resets and the call proceeds.
    assert_eq!(state.ratelimit(60), RatelimitAction::Proceed);
}

#[test]
fn ratelimit_budget_resets_after_rollover() {
    let mut state = ClientState::new();
    for _ in 0..60u64 {
        assert_eq!(state.ratelimit(0), RatelimitAction::Proceed);
    }
    assert_eq!(state.ratelimit(60), RatelimitAction::Proceed);
    // The refill left a whole budget less the one just taken.
    for _ in 0..59u64 {
        assert_eq!(state.ratelimit(61), RatelimitAction::Proceed);
    }
    assert_eq!(state.ratelimit(119), RatelimitAction::Wait(1));
}

#[test]
fn check_completed_response_success_flag() {
    let ok = ApiCompletedResponse { success: true, message: None };
    check_completed_response(&ok).expect("a successful operation");

    let failed = ApiCompletedResponse { success: false, message: None };
    let err = check_completed_response(&failed).expect_err("a failed operation");
    assert!(matches!(err, Error::ApiOperationFailed));
}

#[test]
fn favorite_message_interpretation() {
    let added = ApiCompletedResponse {
        success: true,
        message: Some("Favorite added.".to_string()),
    };
    assert_eq!(interpret_favorite_response(added).expect("added"), true);

    let removed = ApiCompletedResponse {
        success: true,
        message: Some("Favorite removed.".to_string()),
    };
    assert_eq!(interpret_favorite_response(removed).expect("removed"), false);

    let unknown = ApiCompletedResponse {
        success: true,
        message: Some("Something else.".to_string()),
    };
    let err = interpret_favorite_response(unknown).expect_err("unknown message");
    match err {
        Error::ApiResponseUnknownMessage { message } => assert_eq!(message, "Something else."),
        _ => panic!("wrong error"),
    }

    let missing = ApiCompletedResponse { success: true, message: None };
    let err = interpret_favorite_response(missing).expect_err("missing message");
    assert!(matches!(err, Error::ApiResponseMissingMessage));

    let failed = ApiCompletedResponse { success: false, message: None };
    let err = interpret_favorite_response(failed).expect_err("failed operation");
    assert!(matches!(err, Error::ApiOperationFailed));
}

#[test]
fn bool_wire_form() {
    assert_eq!(bool_to_str(true), "true");
    assert_eq!(bool_to_str(false), "false");
}

#[test]
fn privacy_wire_names() {
    assert_eq!(PostPrivacy::Public.as_str(), "public");
    assert_eq!(PostPrivacy::Hidden.as_str(), "hidden");
    assert_eq!(PostPrivacy::Secret.as_str(), "secret");
    assert_eq!(privacy_from_str("public"), Some(PostPrivacy::Public));
    assert_eq!(privacy_from_str("hidden"), Some(PostPrivacy::Hidden));
    assert_eq!(privacy_from_str("secret"), Some(PostPrivacy::Secret));
    assert_eq!(privacy_from_str("Public"), None);
    assert_eq!(privacy_from_str(""), None);
}
