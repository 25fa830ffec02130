//! Media downloads: what the answer's headers say about the file.
use vstd::prelude::*;
use vstd::utf8::encode_utf8;
use crate::numbers::{decimal, format_i64, format_u64, signed_decimal};
use crate::protocol::MediaDto;
use crate::text::{push_str, string_of};

verus! {

/// The bytes that a URL component keeps as they are: ASCII letters and digits, `-`, `.`,
/// `_` and `~`.
pub open spec fn is_unreserved(b: u8) -> bool {
    ('0' as u8 <= b <= '9' as u8) || ('A' as u8 <= b <= 'Z' as u8) || ('a' as u8 <= b <= 'z' as u8)
        || b == '-' as u8 || b == '.' as u8 || b == '_' as u8 || b == '~' as u8
}

/// An uppercase hexadecimal digit.
pub open spec fn hex_digit(d: u8) -> char {
    if d < 10 {
        (d + '0' as u8) as char
    } else {
        (d - 10 + 'A' as u8) as char
    }
}

/// Percent-encoding of bytes: unreserved bytes stay, any other becomes `%XX`.
pub open spec fn percent_encoded(bytes: Seq<u8>) -> Seq<char>
    decreases bytes.len(),
{
    if bytes.len() == 0 {
        Seq::empty()
    } else {
        let b = bytes[0];
        (if is_unreserved(b) {
            seq![b as char]
        } else {
            seq!['%', hex_digit(b / 16), hex_digit(b % 16)]
        }) + percent_encoded(bytes.drop_first())
    }
}

/// `urlencoding::encode`: the percent-encoding of the UTF-8 bytes of `s`.
///
/// The contract restates the crate's documentation and code: every byte except ASCII
/// alphanumerics and `-`, `_`, `.`, `~` becomes `%` and two uppercase hex digits.
#[verifier::external_body]
fn url_encode(s: &str) -> (res: String)
    ensures
        res@ == percent_encoded(encode_utf8(s@)),
{
    urlencoding::encode(s).into_owned()
}

/// The name under which a message's media is offered: its own name, or
/// `telegram-<message id>.bin`.
pub fn download_file_name(filename: Option<String>, message_id: i32) -> (res: String)
    ensures
        res@ == match filename {
            Some(f) => f@,
            None => "telegram-"@ + signed_decimal(message_id as int) + ".bin"@,
        },
{
    match filename {
        Some(f) => f,
        None => {
            let mut out = string_of("telegram-");
            let id = format_i64(message_id as i64);
            push_str(&mut out, id.as_str());
            push_str(&mut out, ".bin");
            assert(out@ =~= "telegram-"@ + signed_decimal(message_id as int) + ".bin"@);
            out
        },
    }
}

/// The content type under which a message's media is offered.
pub fn download_mime(mime: Option<String>) -> (res: String)
    ensures
        res@ == match mime {
            Some(m) => m@,
            None => "application/octet-stream"@,
        },
{
    match mime {
        Some(m) => m,
        None => string_of("application/octet-stream"),
    }
}

/// The `Content-Length` of a download: the size when it is known and positive.
pub fn content_length(size: Option<i64>) -> (res: Option<String>)
    ensures
        match size {
            Some(n) if n > 0 => res matches Some(s) && s@ == decimal(n as nat),
            _ => res is None,
        },
{
    match size {
        Some(n) => {
            if n > 0 {
                Some(format_u64(n as u64))
            } else {
                None
            }
        },
        None => None,
    }
}

/// The `Content-Disposition` of a download: an attachment with the file name
/// percent-encoded as UTF-8.
pub fn content_disposition(filename: &str) -> (res: String)
    ensures
        res@ == "attachment; filename*=UTF-8''"@ + percent_encoded(encode_utf8(filename@)),
{
    let mut out = string_of("attachment; filename*=UTF-8''");
    let encoded = url_encode(filename);
    push_str(&mut out, encoded.as_str());
    out
}

/// A downloaded message media: the file it was written to and what it is.
#[derive(Debug)]
pub struct DownloadedMedia {
    pub path: std::path::PathBuf,
    pub metadata: MediaDto,
}

/// `std::path::PathBuf`, carried through unread.
#[verifier::external_type_specification]
#[verifier::external_body]
pub struct ExPathBuf(std::path::PathBuf);

impl DownloadedMedia {
    /// The result of a download that wrote `total` bytes to `path`: the media's metadata,
    /// with its size set to what was written.
    pub fn finished(path: std::path::PathBuf, metadata: MediaDto, total: u64) -> (res: Self)
        ensures
            res.path == path,
            res.metadata.kind == metadata.kind,
            res.metadata.filename == metadata.filename,
            res.metadata.mime == metadata.mime,
            res.metadata.size == Some(total as i64),
    {
        let MediaDto { kind, filename, mime, .. } = metadata;
        DownloadedMedia { path, metadata: MediaDto { kind, filename, mime, size: Some(total as i64) } }
    }
}

} // verus!
