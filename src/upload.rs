//! The rules of a media upload: which file names are accepted, where an
//! accepted file is stored, and the message that announces it.
use vstd::prelude::*;
use vstd::string::*;
use crate::message::{BroadcastMessage, GenericResponse, MessageType};
use crate::text::same_text;

verus! {

/// The kinds of media that can be uploaded.
#[derive(Clone, Copy, Debug, PartialEq, Eq, Structural)]
pub enum Media {
    Image,
    Video,
}

/// Why an uploaded field is refused.
#[derive(Clone, Copy, Debug, PartialEq, Eq, Structural)]
pub enum UploadError {
    /// The field names no file.
    NoFile,
    /// The file's extension is not one this kind of media accepts.
    UnsupportedMediaType,
}

/// The file name's extension, as `std::path::Path::extension` finds it.
pub uninterp spec fn extension_of(name: Seq<char>) -> Option<Seq<char>>;

/// Relies on `std::path::Path::extension`: the part of the last path
/// component after its last dot, if there is one that does not begin it.
#[verifier::external_body]
fn file_extension(name: &str) -> (r: Option<String>)
    ensures
        match r {
            Some(e) => extension_of(name@) == Some(e@),
            None => extension_of(name@) == None::<Seq<char>>,
        },
{
    match std::path::Path::new(name).extension() {
        Some(e) => e.to_str().map(String::from),
        None => None,
    }
}

/// Relies on `uuid::Uuid::new_v4` and its `Display`: a random identifier
/// written in the hyphenated form, 36 characters long.
#[verifier::external_body]
fn uuid_v4_string() -> (r: String)
    ensures
        r@.len() == 36,
{
    uuid::Uuid::new_v4().to_string()
}

pub open spec fn media_type(media: Media) -> MessageType {
    match media {
        Media::Image => MessageType::Image,
        Media::Video => MessageType::Video,
    }
}

/// Images may be .jpg, .png or .webp; videos only .mp4.
pub open spec fn extension_allowed(media: Media, ext: Option<Seq<char>>) -> bool {
    match ext {
        None => false,
        Some(e) => match media {
            Media::Image => e == "jpg"@ || e == "png"@ || e == "webp"@,
            Media::Video => e == "mp4"@,
        },
    }
}

/// The verdict on a field named `filename` whose extension is `ext`.
pub open spec fn upload_verdict(media: Media, filename: Seq<char>, ext: Option<Seq<char>>) -> Result<
    (),
    UploadError,
> {
    if filename.len() == 0 {
        Err(UploadError::NoFile)
    } else if !extension_allowed(media, ext) {
        Err(UploadError::UnsupportedMediaType)
    } else {
        Ok(())
    }
}

/// The directory, with its closing slash, where a kind of media is stored.
pub open spec fn media_dir(media: Media) -> Seq<char> {
    match media {
        Media::Image => "uploads/img/"@,
        Media::Video => "uploads/video/"@,
    }
}

/// Where an accepted file is stored: its directory, then the upload's id,
/// an underscore and the name the client gave.
pub open spec fn stored_path(media: Media, id: Seq<char>, filename: Seq<char>) -> Seq<char> {
    media_dir(media) + id + "_"@ + filename
}

pub open spec fn opt_text(o: Option<&str>) -> Option<Seq<char>> {
    match o {
        Some(s) => Some(s@),
        None => None,
    }
}

/// The name a field goes by: the one it gives, else "unknown".
pub open spec fn field_name(o: Option<&str>) -> Seq<char> {
    match o {
        Some(s) => s@,
        None => "unknown"@,
    }
}

/// Fails when no file was uploaded, that is when the name is empty.
pub fn check_file_is_uploaded(filename: &str) -> (r: Result<(), UploadError>)
    ensures
        r == (if filename@.len() == 0 { Err(UploadError::NoFile) } else { Ok(()) }),
{
    if filename.unicode_len() == 0 {
        Err(UploadError::NoFile)
    } else {
        Ok(())
    }
}

/// Whether `ext` is an extension this kind of media accepts.
pub fn is_allowed_extension(media: Media, ext: Option<&str>) -> (r: bool)
    ensures
        r == extension_allowed(media, opt_text(ext)),
{
    proof {
        reveal_strlit("jpg");
        reveal_strlit("png");
        reveal_strlit("webp");
        reveal_strlit("mp4");
    }
    match ext {
        None => false,
        Some(e) => match media {
            Media::Image => same_text(e, "jpg") || same_text(e, "png") || same_text(e, "webp"),
            Media::Video => same_text(e, "mp4"),
        },
    }
}

/// The verdict on a field named `filename`, given its extension.
pub fn validate_upload(media: Media, filename: &str, extension: Option<&str>) -> (r: Result<
    (),
    UploadError,
>)
    ensures
        r == upload_verdict(media, filename@, opt_text(extension)),
{
    check_file_is_uploaded(filename)?;
    if !is_allowed_extension(media, extension) {
        return Err(UploadError::UnsupportedMediaType);
    }
    Ok(())
}

impl UploadError {
    /// The HTTP status that goes with the refusal.
    pub fn http_status(&self) -> (r: u16)
        ensures
            r == match *self {
                UploadError::NoFile => 400u16,
                UploadError::UnsupportedMediaType => 415u16,
            },
    {
        match self {
            UploadError::NoFile => 400,
            UploadError::UnsupportedMediaType => 415,
        }
    }

    /// The reply that refuses an upload of `media`.
    pub fn response(&self, media: Media) -> (r: GenericResponse)
        ensures
            r.status@ == match *self {
                UploadError::NoFile => "Bad request"@,
                UploadError::UnsupportedMediaType => "Unsupported media type"@,
            },
            r.message@ == match (*self, media) {
                (UploadError::NoFile, _) => "No file found..."@,
                (UploadError::UnsupportedMediaType, Media::Image) =>
                    "Only .jpg, .png, or .webp files are allowed."@,
                (UploadError::UnsupportedMediaType, Media::Video) => "Only .mp4 files are allowed."@,
            },
    {
        match self {
            UploadError::NoFile => GenericResponse::rejection("Bad request", "No file found..."),
            UploadError::UnsupportedMediaType => match media {
                Media::Image => GenericResponse::rejection(
                    "Unsupported media type",
                    "Only .jpg, .png, or .webp files are allowed.",
                ),
                Media::Video => GenericResponse::rejection(
                    "Unsupported media type",
                    "Only .mp4 files are allowed.",
                ),
            },
        }
    }
}

/// One upload request in progress: every accepted field is stored under
/// the request's id, and the last one stored is what gets announced.
pub struct Upload {
    pub media: Media,
    pub id: String,
    pub file_path: String,
}

impl Upload {
    /// An upload of `media` under a fresh random id, with nothing stored yet.
    pub fn begin(media: Media) -> (r: Upload)
        ensures
            r.media == media,
            r.id@.len() == 36,
            r.file_path@.len() == 0,
    {
        Upload { media, id: uuid_v4_string(), file_path: String::new() }
    }

    /// An upload of `media` under the given id, with nothing stored yet.
    pub fn with_id(media: Media, id: String) -> (r: Upload)
        ensures
            r.media == media,
            r.id@ == id@,
            r.file_path@.len() == 0,
    {
        Upload { media, id, file_path: String::new() }
    }

    /// Takes a field whose name is `filename` and whose extension is
    /// `extension`. On success returns the path to store it at, which
    /// becomes the upload's path; on refusal nothing changes.
    pub fn accept_field_with(&mut self, filename: &str, extension: Option<&str>) -> (r: Result<
        String,
        UploadError,
    >)
        ensures
            final(self).media == old(self).media,
            final(self).id == old(self).id,
            match upload_verdict(old(self).media, filename@, opt_text(extension)) {
                Err(e) => r == Err::<String, UploadError>(e) && final(self).file_path
                    == old(self).file_path,
                Ok(_) => r is Ok && r->Ok_0@ == stored_path(old(self).media, old(self).id@, filename@)
                    && final(self).file_path@ == r->Ok_0@,
            },
    {
        validate_upload(self.media, filename, extension)?;
        let dir = match self.media {
            Media::Image => String::from_str("uploads/img/"),
            Media::Video => String::from_str("uploads/video/"),
        };
        proof {
            reveal_strlit("uploads/img/");
            reveal_strlit("uploads/video/");
            reveal_strlit("_");
        }
        let path = dir.concat(self.id.as_str()).concat("_").concat(filename);
        self.file_path = path.clone();
        Ok(path)
    }

    /// Takes a field that gives `filename` as its name (or none, which
    /// counts as "unknown"), judged by the extension that the standard
    /// library finds in that name.
    pub fn accept_field(&mut self, filename: Option<&str>) -> (r: Result<String, UploadError>)
        ensures
            final(self).media == old(self).media,
            final(self).id == old(self).id,
            match upload_verdict(old(self).media, field_name(filename), extension_of(field_name(filename))) {
                Err(e) => r == Err::<String, UploadError>(e) && final(self).file_path
                    == old(self).file_path,
                Ok(_) => r is Ok && r->Ok_0@ == stored_path(old(self).media, old(self).id@, field_name(filename))
                    && final(self).file_path@ == r->Ok_0@,
            },
    {
        proof {
            reveal_strlit("unknown");
        }
        let name: &str = match filename {
            Some(n) => n,
            None => "unknown",
        };
        let ext = file_extension(name);
        match ext {
            Some(e) => self.accept_field_with(name, Some(e.as_str())),
            None => self.accept_field_with(name, None),
        }
    }

    /// The message that announces the upload: the stored path, made
    /// absolute, with the kind of media, stamped with the current time.
    pub fn finish(&self) -> (r: BroadcastMessage)
        ensures
            r@.body == "/"@ + self.file_path@,
            r@.kind == media_type(self.media),
    {
        proof {
            reveal_strlit("/");
        }
        let body = String::from_str("/").concat(self.file_path.as_str());
        let kind = match self.media {
            Media::Image => MessageType::Image,
            Media::Video => MessageType::Video,
        };
        BroadcastMessage::stamped(body, kind)
    }
}

} // verus!
