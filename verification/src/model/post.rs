use vstd::prelude::*;

verus! {

/// An API post object
#[derive(Clone, Debug)]
pub struct Post {
    /// The post id
    pub id: String,
    /// The post title
    pub title: Option<String>,
    /// The post author's username
    pub username: String,
    /// The privacy of the post
    pub privacy: Privacy,
    /// An opaque report status value
    pub report_status: i32,
    /// The number of views
    pub views: u64,
    /// Whether the post is nsfw
    pub nsfw: bool,
    /// The number of images; the service may report more images than it
    /// returned, so this need not equal `images.len()`.
    pub image_count: u64,
    /// The time this was created, as the ISO 8601 text the service sent
    pub created: String,
    /// The files of this post
    pub images: Vec<File>,
    /// The url to delete this post.
    ///
    /// Only present if the current user owns this post.
    pub delete_url: Option<String>,
}

/// An API file of a post
#[derive(Clone, Debug)]
pub struct File {
    /// The id of the image
    pub id: String,
    /// The file description
    pub description: Option<String>,
    /// The link to the image file
    pub link: String,
    /// The position of the image in the post.
    ///
    /// Starts at 1.
    pub position: u32,
    /// The time this image was created, as the ISO 8601 text the service sent
    pub created: String,
    /// The original name of the image.
    ///
    /// Only present if the current user owns this image.
    pub original_name: Option<String>,
}

impl File {
    /// A file position is 1-based.
    pub open spec fn wf(self) -> bool {
        self.position >= 1
    }
}

/// The mathematical content of an API post file.
pub struct PostFileView {
    /// The id of the image
    pub id: Seq<char>,
    /// The file description
    pub description: Option<Seq<char>>,
    /// The link to the image file
    pub link: Seq<char>,
    /// The position of the image in the post
    pub position: u32,
    /// The creation time text
    pub created: Seq<char>,
    /// The original name of the image
    pub original_name: Option<Seq<char>>,
}

impl View for File {
    type V = PostFileView;

    open spec fn view(&self) -> PostFileView {
        PostFileView {
            id: self.id@,
            description: match self.description {
                Some(d) => Some(d@),
                None => None,
            },
            link: self.link@,
            position: self.position,
            created: self.created@,
            original_name: match self.original_name {
                Some(n) => Some(n@),
                None => None,
            },
        }
    }
}

/// The mathematical content of an API post.
pub struct PostView {
    /// The post id
    pub id: Seq<char>,
    /// The post title
    pub title: Option<Seq<char>>,
    /// The post author's username
    pub username: Seq<char>,
    /// The privacy of the post
    pub privacy: Privacy,
    /// An opaque report status value
    pub report_status: i32,
    /// The number of views
    pub views: u64,
    /// Whether the post is nsfw
    pub nsfw: bool,
    /// The number of images the service reports
    pub image_count: u64,
    /// The creation time text
    pub created: Seq<char>,
    /// The files of this post
    pub images: Seq<PostFileView>,
    /// The url to delete this post
    pub delete_url: Option<Seq<char>>,
}

impl View for Post {
    type V = PostView;

    open spec fn view(&self) -> PostView {
        PostView {
            id: self.id@,
            title: match self.title {
                Some(t) => Some(t@),
                None => None,
            },
            username: self.username@,
            privacy: self.privacy,
            report_status: self.report_status,
            views: self.views,
            nsfw: self.nsfw,
            image_count: self.image_count,
            created: self.created@,
            images: Seq::new(self.images@.len(), |i: int| self.images@[i]@),
            delete_url: match self.delete_url {
                Some(u) => Some(u@),
                None => None,
            },
        }
    }
}

/// Positions are dense: the file at index `i` carries position `i + 1`.
pub open spec fn positions_dense(files: Seq<File>) -> bool {
    forall|i: int| 0 <= i < files.len() ==> (#[trigger] files[i].position) == i + 1
}

/// File positions, being dense, are unique and strictly increasing in array
/// order, starting at 1.
pub proof fn lemma_positions_strictly_increasing(files: Seq<File>)
    requires
        positions_dense(files),
    ensures
        files.len() > 0 ==> files[0].position == 1,
        forall|i: int, j: int|
            0 <= i < j < files.len() ==> files[i].position < files[j].position,
        forall|i: int, j: int|
            0 <= i < files.len() && 0 <= j < files.len() && i != j
                ==> files[i].position != files[j].position,
{
}

/// The post privacy
#[derive(Debug, Copy, Clone, Eq, PartialEq, Hash, Structural)]
pub enum Privacy {
    Public,
    Hidden,
    Secret,
}

impl Privacy {
    /// The wire name of this privacy level.
    pub open spec fn as_str_spec(self) -> Seq<char> {
        match self {
            Privacy::Public => "public"@,
            Privacy::Hidden => "hidden"@,
            Privacy::Secret => "secret"@,
        }
    }

    /// Get this as a str.
    pub fn as_str(self) -> (r: &'static str)
        ensures
            r@ == self.as_str_spec(),
    {
        match self {
            Privacy::Public => "public",
            Privacy::Hidden => "hidden",
            Privacy::Secret => "secret",
        }
    }
}

/// The privacy level a wire name denotes; exactly the three wire names
/// denote one.
pub open spec fn privacy_from_str_spec(s: Seq<char>) -> Option<Privacy> {
    if s == "public"@ {
        Some(Privacy::Public)
    } else if s == "hidden"@ {
        Some(Privacy::Hidden)
    } else if s == "secret"@ {
        Some(Privacy::Secret)
    } else {
        None
    }
}

/// Map a wire name back to a privacy level; exactly the three wire names are
/// accepted.
pub fn privacy_from_str(s: &str) -> (r: Option<Privacy>)
    ensures
        r == privacy_from_str_spec(s@),
{
    if crate::strings::str_eq(s, "public") {
        Some(Privacy::Public)
    } else if crate::strings::str_eq(s, "hidden") {
        Some(Privacy::Hidden)
    } else if crate::strings::str_eq(s, "secret") {
        Some(Privacy::Secret)
    } else {
        None
    }
}

} // verus!
