use imgchest::InvalidScrapedPostError;
use imgchest::ScrapedPost;

/// Wrap a data-page JSON payload in a minimal post page document, escaping it
/// as an attribute value.
fn page_with_data_page(json: &str) -> String {
    let escaped = json.replace('"', "&quot;");
    format!(
        "<!DOCTYPE html><html><head><title>x</title></head><body><div id=\"app\" data-page=\"{escaped}\"></div></body></html>"
    )
}

fn donkey_kong_page() -> String {
    let file0 = "{\"id\":\"nw7w6cmlvye\",\"description\":\"**Description**  \\nReleased in the arcades in 1981, Donkey Kong\",\"link\":\"https://cdn.imgchest.com/files/nw7w6cmlvye.png\",\"position\":1}";
    let file1 = "{\"id\":\"kwye3cpag4b\",\"description\":\"amstrad - apple ii - atari - colecovision - c64 - msx\\nnes - pc - vic-20 - spectrum - tI-99 4A - arcade\",\"link\":\"https://cdn.imgchest.com/files/kwye3cpag4b.png\",\"position\":2}";
    let file2 = "{\"id\":\"5g4z9c8ok72\",\"description\":\"\",\"link\":\"https://cdn.imgchest.com/files/5g4z9c8ok72.png\",\"position\":3}";
    let file3 = "{\"id\":\"we4gdcv5j4r\",\"description\":\"\",\"link\":\"https://cdn.imgchest.com/files/we4gdcv5j4r.jpg\",\"position\":4}";
    let json = format!(
        "{{\"props\":{{\"post\":{{\"files\":[{},{},{},{}],\"nsfw\":0,\"slug\":\"3qe4gdvj4j2\",\"title\":\"Donkey Kong - Video Game From The Mid 80's\",\"user\":{{\"username\":\"LunarLandr\"}},\"views\":198}}}}}}",
        file0, file1, file2, file3
    );
    page_with_data_page(&json)
}

#[test]
fn get_scraped_post() {
    let html = donkey_kong_page();
    let post = ScrapedPost::from_html(&html).expect("failed to get scraped post");
    assert!(&*post.id == "3qe4gdvj4j2");
    assert!(&*post.title == "Donkey Kong - Video Game From The Mid 80's");
    assert!(&*post.username == "LunarLandr");
    assert!(post.views >= 198);
    assert!(!post.nsfw);
    assert!(post.image_count == 4);

    assert!(&*post.images[0].id == "nw7w6cmlvye");
    assert!(post.images[0]
        .description
        .as_ref()
        .expect("missing description")
        .starts_with("**Description**  \nReleased in the arcades in 1981, Donkey Kong"));
    assert!(&*post.images[0].link == "https://cdn.imgchest.com/files/nw7w6cmlvye.png");

    assert!(&*post.images[1].id == "kwye3cpag4b");
    assert!(post.images[1].description.as_deref() == Some("amstrad - apple ii - atari - colecovision - c64 - msx\nnes - pc - vic-20 - spectrum - tI-99 4A - arcade"));
    assert!(&*post.images[1].link == "https://cdn.imgchest.com/files/kwye3cpag4b.png");

    assert!(&*post.images[2].id == "5g4z9c8ok72");
    assert!(post.images[2].description.as_deref() == Some(""));
    assert!(&*post.images[2].link == "https://cdn.imgchest.com/files/5g4z9c8ok72.png");

    assert!(&*post.images[3].id == "we4gdcv5j4r");
    assert!(post.images[3].description.as_deref() == Some(""));
    assert!(&*post.images[3].link == "https://cdn.imgchest.com/files/we4gdcv5j4r.jpg");

    // The data-page payload carries every file of the post.
    assert_eq!(post.image_count, post.images.len() as u64);
}

#[test]
fn get_scraped_gif_post() {
    let json = "{\"props\":{\"post\":{\"files\":[{\"id\":\"6yxkcz5ml7w\",\"description\":\"Notice how inserting an AGIF is now supported, but does not want to be moved from its initial position.\",\"link\":\"https://cdn.imgchest.com/files/6yxkcz5ml7w.gif\",\"position\":1}],\"nsfw\":0,\"slug\":\"pwl7lgepyx2\",\"title\":\"PDN AGIF Issue #1\",\"user\":{\"username\":\"Jacob\"},\"views\":2537}}}";
    let html = page_with_data_page(json);
    let post = ScrapedPost::from_html(&html).expect("failed to get post");

    assert!(&*post.id == "pwl7lgepyx2");
    assert!(&*post.title == "PDN AGIF Issue #1");
    assert!(&*post.username == "Jacob");
    assert!(post.views >= 2537);
    assert!(post.image_count == 1);

    assert!(&*post.images[0].id == "6yxkcz5ml7w");
    assert!(post.images[0].description.as_deref() == Some("Notice how inserting an AGIF is now supported, but does not want to be moved from its initial position."));
    assert!(&*post.images[0].link == "https://cdn.imgchest.com/files/6yxkcz5ml7w.gif");
}

#[test]
fn get_scraped_video_post() {
    let json = "{\"props\":{\"post\":{\"files\":[{\"id\":\"e4gdcbqe294\",\"description\":null,\"link\":\"https://cdn.imgchest.com/files/e4gdcbqe294.mp4\",\"position\":1}],\"nsfw\":0,\"slug\":\"ej7mko58jyd\",\"title\":\"Better with sound\",\"user\":{\"username\":\"moods\"},\"views\":336}}}";
    let html = page_with_data_page(json);
    let post = ScrapedPost::from_html(&html).expect("failed to get post");

    assert!(&*post.id == "ej7mko58jyd");
    assert!(&*post.title == "Better with sound");
    assert!(&*post.username == "moods");
    assert!(post.views >= 336);
    assert!(post.image_count == 1);

    assert!(&*post.images[0].id == "e4gdcbqe294");
    assert!(post.images[0].description.is_none());
    assert!(&*post.images[0].link == "https://cdn.imgchest.com/files/e4gdcbqe294.mp4");
}

#[test]
fn scraped_post_missing_app_element() {
    let html = "<!DOCTYPE html><html><body><div id=\"other\"></div></body></html>";
    let error = ScrapedPost::from_html(html).expect_err("parse should fail");
    assert!(matches!(error, InvalidScrapedPostError::MissingElement(_)));
}

#[test]
fn scraped_post_missing_data_page_attribute() {
    let html = "<!DOCTYPE html><html><body><div id=\"app\"></div></body></html>";
    let error = ScrapedPost::from_html(html).expect_err("parse should fail");
    assert!(matches!(error, InvalidScrapedPostError::MissingAttribute("data-page")));
}

#[test]
fn scraped_post_invalid_data_page() {
    let html = page_with_data_page("not json at all");
    let error = ScrapedPost::from_html(&html).expect_err("parse should fail");
    assert!(matches!(error, InvalidScrapedPostError::InvalidDataPage(_)));
}

#[test]
fn scraped_post_missing_field() {
    let json = "{\"props\":{\"post\":{\"files\":[],\"nsfw\":0,\"slug\":\"3qe4gdvj4j2\",\"user\":{\"username\":\"LunarLandr\"},\"views\":198}}}";
    let html = page_with_data_page(json);
    let error = ScrapedPost::from_html(&html).expect_err("parse should fail");
    assert!(matches!(error, InvalidScrapedPostError::MissingField("title")));
}

#[test]
fn scraped_post_counts_every_file() {
    let json = "{\"props\":{\"post\":{\"files\":[{\"id\":\"aaaaaaaaaaa\",\"link\":\"https://cdn.imgchest.com/files/a.png\",\"position\":1},{\"id\":\"bbbbbbbbbbb\",\"link\":\"https://cdn.imgchest.com/files/b.png\",\"position\":2}],\"nsfw\":1,\"slug\":\"3qe4gdvj4j2\",\"title\":\"A two image post\",\"user\":{\"username\":\"LunarLandr\"},\"views\":0}}}";
    let html = page_with_data_page(json);
    let post = ScrapedPost::from_html(&html).expect("failed to get post");
    assert_eq!(post.image_count, 2);
    assert_eq!(post.images.len(), 2);
    assert!(post.nsfw);
    // A file entry may omit its description entirely.
    assert!(post.images[0].description.is_none());
    assert_eq!(post.images[1].position, 2);
}
