//! Routing and assembly of the hosted-media upload request: which endpoint
//! a path is sent to, and the multipart form fields the application must
//! carry to it.

use vstd::prelude::*;
use vstd::string::*;
use crate::config::Config;
use crate::text::ends_with;

verus! {

/// The uploader's routing rule: only a path ending in `.mp4` counts as
/// video. A path with no extension, or with any other video extension,
/// does not — a deliberately kept, crude limitation.
pub open spec fn is_mp4_path(s: Seq<char>) -> bool {
    ends_with(s, ".mp4"@)
}

/// The media-type segment of the upload endpoint for a path.
pub open spec fn media_segment(path: Seq<char>) -> Seq<char> {
    if is_mp4_path(path) {
        "video"@
    } else {
        "image"@
    }
}

/// The full upload endpoint for an account and a media path.
pub open spec fn upload_url_spec(account_id: Seq<char>, path: Seq<char>) -> Seq<char> {
    "https://api.cloudinary.com/v1_1/"@ + account_id + "/"@ + media_segment(path) + "/upload"@
}

/// Paths ending in `.mp4` target the video endpoint segment; every other
/// path — extensionless ones and misleading non-mp4 video extensions
/// included — targets the image segment.
pub proof fn lemma_media_routing(path: Seq<char>)
    ensures
        ends_with(path, ".mp4"@) ==> media_segment(path) == "video"@,
        !ends_with(path, ".mp4"@) ==> media_segment(path) == "image"@,
{
}

/// Runtime test for [`is_mp4_path`].
pub fn path_is_mp4(s: &str) -> (b: bool)
    ensures
        b == is_mp4_path(s@),
{
    proof {
        reveal_strlit(".mp4");
    }
    let n = s.unicode_len();
    if n < 4 {
        return false;
    }
    let b = s.get_char(n - 4) == '.' && s.get_char(n - 3) == 'm' && s.get_char(n - 2) == 'p'
        && s.get_char(n - 1) == '4';
    proof {
        if b {
            assert(s@.subrange(n - 4, n as int) =~= ".mp4"@);
        } else {
            assert(s@.subrange(n - 4, n as int)[0] == s@[n - 4]);
            assert(s@.subrange(n - 4, n as int)[1] == s@[n - 3]);
            assert(s@.subrange(n - 4, n as int)[2] == s@[n - 2]);
            assert(s@.subrange(n - 4, n as int)[3] == s@[n - 1]);
        }
    }
    b
}

/// Everything the application needs to issue the upload POST: the endpoint
/// URL and the three multipart form fields — the API key, the upload
/// preset, and the contents of the file at the path.
pub struct UploadRequest {
    pub url: String,
    pub api_key: String,
    pub upload_preset: String,
    pub file_path: String,
}

/// Build the upload request for a configured account and a normalised
/// media path. The URL targets the video endpoint exactly for paths ending
/// in `.mp4`, the image endpoint for all others; the credentials are taken
/// from the configuration verbatim.
pub fn build_upload_request(config: &Config, file_path: String) -> (r: UploadRequest)
    ensures
        r.url@ == upload_url_spec(config.cloudinary_id@, file_path@),
        r.api_key@ == config.cloudinary_api_key@,
        r.upload_preset@ == config.cloudinary_preset@,
        r.file_path == file_path,
{
    let mut url = String::from_str("https://api.cloudinary.com/v1_1/");
    url.append(config.cloudinary_id.as_str());
    url.append("/");
    if path_is_mp4(file_path.as_str()) {
        url.append("video");
    } else {
        url.append("image");
    }
    url.append("/upload");
    UploadRequest {
        url,
        api_key: config.cloudinary_api_key.clone(),
        upload_preset: config.cloudinary_preset.clone(),
        file_path,
    }
}

} // verus!
