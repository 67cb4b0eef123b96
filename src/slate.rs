use vstd::prelude::*;
use vstd::string::*;
use crate::text::copy_string;
use crate::urls::{extension_of, file_extension, has_prefix, listed, contains_text, starts_with};

verus! {

/// Width and height of a normalized frame, in pixels.
pub const SLATE_WIDTH: u32 = 213;
pub const SLATE_HEIGHT: u32 = 120;

/// A slate location as given in the configuration.
#[derive(Debug)]
pub struct Url {
    url: String,
}

/// Why a slate cannot be loaded from its URL.
#[derive(Clone, Copy, Debug, PartialEq, Eq, Structural)]
pub enum SlateError {
    /// The URL has no file extension.
    MissingExtension,
    /// The file extension is neither an image nor a video one.
    UnknownExtension,
}

/// How to obtain a slate's bytes.
#[derive(Debug)]
pub struct SlatePlan {
    /// Fetch over HTTP(S) from `location`; else open the local file at `location`.
    pub download: bool,
    pub location: String,
    /// The file extension of the asset.
    pub extension: String,
    /// Take the first frame of a video; else decode an image.
    pub is_video: bool,
}

pub open spec fn image_extensions() -> Seq<Seq<char>> {
    seq!["jpg"@, "jpeg"@, "png"@]
}

pub open spec fn video_extensions() -> Seq<Seq<char>> {
    seq!["mp4"@, "mkv"@]
}

/// The location of a local slate: the URL without a leading `file://`.
pub open spec fn local_location(u: Seq<char>) -> Seq<char> {
    if has_prefix(u, "file://"@) {
        u.subrange(7, u.len() as int)
    } else {
        u
    }
}

fn text_list(a: &str, b: &str, c: Option<&str>) -> (r: Vec<String>)
    ensures
        r@.map_values(|s: String| s@) == match c {
            Some(x) => seq![a@, b@, x@],
            None => seq![a@, b@],
        },
{
    let mut r: Vec<String> = Vec::new();
    r.push(a.to_owned());
    r.push(b.to_owned());
    if let Some(x) = c {
        r.push(x.to_owned());
        assert(r@.map_values(|s: String| s@) =~= seq![a@, b@, x@]);
    } else {
        assert(r@.map_values(|s: String| s@) =~= seq![a@, b@]);
    }
    r
}

proof fn lemma_listed_texts(v: Seq<String>, t: Seq<char>)
    ensures
        listed(v, t) == v.map_values(|s: String| s@).contains(t),
{
    let w = v.map_values(|s: String| s@);
    if listed(v, t) {
        let i = choose|i: int| 0 <= i < v.len() && v[i]@ == t;
        assert(w[i] == t);
    }
    if w.contains(t) {
        let i = choose|i: int| 0 <= i < w.len() && w[i] == t;
        assert(v[i]@ == t);
    }
}

impl Url {
    pub closed spec fn text(&self) -> Seq<char> {
        self.url@
    }

    pub fn new(url: &str) -> (r: Url)
        ensures
            r.text() == url@,
    {
        Url { url: url.to_owned() }
    }

    /// Whether the slate is fetched over HTTP or HTTPS.
    pub fn is_http(&self) -> (r: bool)
        ensures
            r == (has_prefix(self.text(), "http://"@) || has_prefix(self.text(), "https://"@)),
    {
        starts_with(self.url.as_str(), "http://") || starts_with(self.url.as_str(), "https://")
    }

    /// The URL as given.
    pub fn full_path(&self) -> (r: String)
        ensures
            r@ == self.text(),
    {
        copy_string(&self.url)
    }

    /// File extension of the URL.
    pub fn extension(&self) -> (r: Option<String>)
        ensures
            match extension_of(self.text()) {
                Some(e) => r is Some && r.unwrap()@ == e,
                None => r is None,
            },
    {
        file_extension(self.url.as_str())
    }

    /// Where a local slate lives on disk.
    pub fn local_path(&self) -> (r: String)
        ensures
            r@ == local_location(self.text()),
    {
        let s = self.url.as_str();
        if starts_with(s, "file://") {
            proof {
                reveal_strlit("file://");
            }
            s.substring_char(7, s.unicode_len()).to_owned()
        } else {
            s.to_owned()
        }
    }

    /// How to load this slate: download or open, then decode an image or
    /// take a video's first frame, by file extension.
    pub fn plan(&self) -> (r: Result<SlatePlan, SlateError>)
        ensures
            match extension_of(self.text()) {
                None => r == Err::<SlatePlan, SlateError>(SlateError::MissingExtension),
                Some(e) => if image_extensions().contains(e) || video_extensions().contains(e) {
                    r is Ok && r.unwrap().extension@ == e
                        && r.unwrap().is_video == video_extensions().contains(e)
                        && r.unwrap().download == (has_prefix(self.text(), "http://"@)
                            || has_prefix(self.text(), "https://"@))
                        && r.unwrap().location@ == if r.unwrap().download {
                            self.text()
                        } else {
                            local_location(self.text())
                        }
                } else {
                    r == Err::<SlatePlan, SlateError>(SlateError::UnknownExtension)
                },
            },
    {
        let ext = match self.extension() {
            None => return Err(SlateError::MissingExtension),
            Some(e) => e,
        };
        let images = text_list("jpg", "jpeg", Some("png"));
        let videos = text_list("mp4", "mkv", None);
        proof {
            lemma_listed_texts(images@, ext@);
            lemma_listed_texts(videos@, ext@);
        }
        let is_video = contains_text(&videos, ext.as_str());
        if !is_video && !contains_text(&images, ext.as_str()) {
            return Err(SlateError::UnknownExtension);
        }
        let download = self.is_http();
        let location = if download {
            self.full_path()
        } else {
            self.local_path()
        };
        Ok(SlatePlan { download, location, extension: ext, is_video })
    }
}

} // verus!
