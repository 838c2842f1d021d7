use imgchest::DownloadError;
use imgchest::DownloadReport;
use imgchest::ScrapedPost;
use imgchest::ScrapedPostFile;
use imgchest::extract_id;
use imgchest::extract_id_from_url_parts;
use imgchest::file_name_from_link;
use imgchest::is_valid_id;
use imgchest::plan_downloads;
use imgchest::should_fetch;
use imgchest::u64_to_string;

#[test]
fn raw_id_resolves_unchanged() {
    assert_eq!(extract_id("3qe4gdvj4j2").expect("a valid id"), "3qe4gdvj4j2");
    assert_eq!(extract_id("pwl7lgepyx2").expect("a valid id"), "pwl7lgepyx2");
    assert_eq!(extract_id("00000000000").expect("a valid id"), "00000000000");
}

#[test]
fn post_url_resolves_to_its_id() {
    assert_eq!(
        extract_id("https://imgchest.com/p/3qe4gdvj4j2").expect("a post url"),
        "3qe4gdvj4j2"
    );
}

#[test]
fn other_inputs_fail_resolution() {
    // Too short, too long, or not lowercase alphanumeric.
    assert_eq!(extract_id("3qe4gdvj4j"), Err(DownloadError::InvalidPostId));
    assert_eq!(extract_id("3qe4gdvj4j22"), Err(DownloadError::InvalidPostId));
    assert_eq!(extract_id("3QE4GDVJ4J2"), Err(DownloadError::InvalidPostId));
    assert_eq!(extract_id(""), Err(DownloadError::InvalidPostId));
    // A URL, but not a post page of the service.
    assert_eq!(
        extract_id("https://example.com/p/3qe4gdvj4j2"),
        Err(DownloadError::NotAPostUrl)
    );
    assert_eq!(
        extract_id("https://imgchest.com/u/3qe4gdvj4j2"),
        Err(DownloadError::NotAPostUrl)
    );
    assert_eq!(extract_id("https://imgchest.com/"), Err(DownloadError::NotAPostUrl));
    assert_eq!(extract_id("mailto:someone"), Err(DownloadError::NotAPostUrl));
    // The path must be exactly /p/{id}: extra segments fail, a trailing
    // slash leaves an extra empty segment and fails too.
    assert_eq!(
        extract_id("https://imgchest.com/p/3qe4gdvj4j2/extra"),
        Err(DownloadError::NotAPostUrl)
    );
    assert_eq!(
        extract_id("https://imgchest.com/p/3qe4gdvj4j2/"),
        Err(DownloadError::NotAPostUrl)
    );
}

#[test]
fn url_parts_resolution_is_exact() {
    let host = Some("imgchest.com".to_string());
    let segments = Some(vec!["p".to_string(), "3qe4gdvj4j2".to_string()]);
    assert_eq!(extract_id_from_url_parts(&host, &segments).expect("a post url"), "3qe4gdvj4j2");

    let wrong_host = Some("example.com".to_string());
    assert_eq!(
        extract_id_from_url_parts(&wrong_host, &segments),
        Err(DownloadError::NotAPostUrl)
    );
    let no_segments: Option<Vec<String>> = None;
    assert_eq!(extract_id_from_url_parts(&host, &no_segments), Err(DownloadError::NotAPostUrl));
    let short = Some(vec!["p".to_string()]);
    assert_eq!(extract_id_from_url_parts(&host, &short), Err(DownloadError::NotAPostUrl));
    let long = Some(vec!["p".to_string(), "3qe4gdvj4j2".to_string(), "extra".to_string()]);
    assert_eq!(extract_id_from_url_parts(&host, &long), Err(DownloadError::NotAPostUrl));
}

#[test]
fn valid_id_shape() {
    assert!(is_valid_id("3qe4gdvj4j2"));
    assert!(!is_valid_id("3qe4gdvj4j"));
    assert!(!is_valid_id("3qe4gdvj4j2x"));
    assert!(!is_valid_id("3QE4GDVJ4J2"));
    assert!(!is_valid_id("3qe4gdv-4j2"));
}

#[test]
fn file_name_is_the_final_path_segment() {
    assert_eq!(
        file_name_from_link("https://cdn.imgchest.com/files/nw7w6cmlvye.png"),
        "nw7w6cmlvye.png"
    );
    assert_eq!(file_name_from_link("name.png"), "name.png");
    assert_eq!(file_name_from_link("https://cdn.imgchest.com/files/"), "");
    assert_eq!(file_name_from_link(""), "");
}

#[test]
fn decimal_rendering_is_exact() {
    assert_eq!(u64_to_string(0), "0");
    assert_eq!(u64_to_string(4), "4");
    assert_eq!(u64_to_string(9), "9");
    assert_eq!(u64_to_string(10), "10");
    assert_eq!(u64_to_string(60), "60");
    assert_eq!(u64_to_string(12345), "12345");
    assert_eq!(u64_to_string(u64::MAX), "18446744073709551615");
}

fn scraped_file(id: &str, extension: &str, position: u32) -> ScrapedPostFile {
    ScrapedPostFile {
        id: id.to_string(),
        description: None,
        link: format!("https://cdn.imgchest.com/files/{id}.{extension}"),
        position,
    }
}

fn four_image_post() -> ScrapedPost {
    let images = vec![
        scraped_file("nw7w6cmlvye", "png", 1),
        scraped_file("kwye3cpag4b", "png", 2),
        scraped_file("5g4z9c8ok72", "png", 3),
        scraped_file("we4gdcv5j4r", "jpg", 4),
    ];
    ScrapedPost {
        id: "3qe4gdvj4j2".to_string(),
        title: "Donkey Kong - Video Game From The Mid 80's".to_string(),
        username: "LunarLandr".to_string(),
        views: 198,
        nsfw: false,
        image_count: images.len() as u64,
        images,
    }
}

#[test]
fn four_image_post_downloads_four_assets() {
    let post = four_image_post();
    let assets = plan_downloads(&post);
    assert_eq!(assets.len(), 4);
    assert_eq!(assets[0].file_name, "nw7w6cmlvye.png");
    assert_eq!(assets[1].file_name, "kwye3cpag4b.png");
    assert_eq!(assets[2].file_name, "5g4z9c8ok72.png");
    assert_eq!(assets[3].file_name, "we4gdcv5j4r.jpg");
    assert_eq!(assets[0].link, "https://cdn.imgchest.com/files/nw7w6cmlvye.png");

    let mut report = DownloadReport::new(assets.len() as u64);
    let mut last_line = String::new();
    for _asset in &assets {
        last_line = report.record_completion();
    }
    assert_eq!(report.downloaded, 4);
    assert_eq!(last_line, "4/4...");
    report.outcome().expect("no task failed");
}

#[test]
fn progress_lines_count_up() {
    let mut report = DownloadReport::new(4);
    assert_eq!(report.record_completion(), "1/4...");
    assert_eq!(report.record_completion(), "2/4...");
    assert_eq!(report.record_completion(), "3/4...");
    assert_eq!(report.record_completion(), "4/4...");
}

#[test]
fn last_error_wins() {
    let mut report = DownloadReport::new(3);
    report.record_completion();
    report.record_failure("first failure".to_string());
    report.record_failure("second failure".to_string());
    report.record_completion();
    assert_eq!(report.downloaded, 2);
    let err = report.outcome().expect_err("a task failed");
    assert_eq!(err, "second failure");
}

#[test]
fn existing_target_is_not_fetched() {
    // A target that already exists is skipped without any transfer; a missing
    // one is fetched.
    assert!(!should_fetch(true));
    assert!(should_fetch(false));
}
