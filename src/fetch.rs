//! The checks that a fetch makes before any body is read.

use vstd::prelude::*;
use crate::error::{HeaderFault, WallpaperError};
use crate::text::{blank, has_prefix, header_text, is_blank, is_header_text, lower_text, lowered_text, starts_with};

verus! {

pub const IMAGE_PREFIX: &'static str = "image/";

/// The outcome of a fetch that passed every check.
#[derive(Clone, Debug, PartialEq, Eq)]
pub struct FetchResult {
    pub bytes: Vec<u8>,
    pub declared_media_type: String,
}

pub open spec fn is_success_status(status: u16) -> bool {
    200 <= status && status < 300
}

pub open spec fn is_image_type(media_type: Seq<char>) -> bool {
    starts_with(media_type, IMAGE_PREFIX@)
}

/// What the status and the Content-Type header of a response decide: the
/// lower-cased media type when the body may be read, or the failure.
pub open spec fn response_verdict(
    status: u16,
    content_type: Option<Vec<u8>>,
    r: Result<String, WallpaperError>,
) -> bool {
    if !is_success_status(status) {
        r == Err::<String, WallpaperError>(WallpaperError::RemoteError(status))
    } else {
        match content_type {
            None => r == Err::<String, WallpaperError>(
                WallpaperError::ProtocolViolation(HeaderFault::Missing),
            ),
            Some(raw) => if !is_header_text(raw@) {
                r == Err::<String, WallpaperError>(
                    WallpaperError::ProtocolViolation(HeaderFault::NotText),
                )
            } else if is_image_type(lowered_text(raw@)) {
                r matches Ok(t) && t@ == lowered_text(raw@)
            } else {
                r matches Err(WallpaperError::NotAnImage(t)) && t@ == lowered_text(raw@)
            },
        }
    }
}

/// A blank URL is refused before any request is made.
pub fn check_url(url: &str) -> (r: Result<(), WallpaperError>)
    ensures
        is_blank(url@) ==> r == Err::<(), WallpaperError>(WallpaperError::InvalidInput),
        !is_blank(url@) ==> r is Ok,
{
    if blank(url) {
        Err(WallpaperError::InvalidInput)
    } else {
        Ok(())
    }
}

/// Checks a response's status and its Content-Type header, in that order.
pub fn check_response(status: u16, content_type: &Option<Vec<u8>>) -> (r: Result<
    String,
    WallpaperError,
>)
    ensures
        response_verdict(status, *content_type, r),
{
    if !(200 <= status && status < 300) {
        return Err(WallpaperError::RemoteError(status));
    }
    match content_type {
        None => Err(WallpaperError::ProtocolViolation(HeaderFault::Missing)),
        Some(raw) => {
            if !header_text(raw.as_slice()) {
                return Err(WallpaperError::ProtocolViolation(HeaderFault::NotText));
            }
            let media_type = lower_text(raw.as_slice());
            if has_prefix(media_type.as_str(), IMAGE_PREFIX) {
                Ok(media_type)
            } else {
                Err(WallpaperError::NotAnImage(media_type))
            }
        },
    }
}

} // verus!
