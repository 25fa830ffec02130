//! Media uploads: the size limit, the form fields, the temporary file name and the checks.
use vstd::prelude::*;
use crate::numbers::{decimal, parse_u64, parse_u64_spec, push_decimal};
use crate::text::{chars_of, is_blank, is_control, is_control_char, push_char, push_str, string_of, trim};

verus! {

/// One mebibyte.
pub const MIB: u64 = 1024 * 1024;

/// The media size limit when none is configured: 500 MiB.
pub const DEFAULT_MAX_MEDIA_BYTES: u64 = 500 * 1024 * 1024;

/// The longest temporary file name kept from an upload's name, in characters.
pub const MAX_SAFE_NAME_CHARS: usize = 240;

/// The media size limit for a configured number of MiB: a positive number of MiB counts
/// (saturating at `u64::MAX` bytes); anything else gives the default.
pub open spec fn media_limit(setting: Option<Seq<char>>) -> u64 {
    match setting {
        Some(s) => match parse_u64_spec(s) {
            Some(mb) => if mb > 0 {
                if mb * MIB > u64::MAX {
                    u64::MAX
                } else {
                    (mb * MIB) as u64
                }
            } else {
                DEFAULT_MAX_MEDIA_BYTES
            },
            None => DEFAULT_MAX_MEDIA_BYTES,
        },
        None => DEFAULT_MAX_MEDIA_BYTES,
    }
}

/// The media size limit in bytes for the setting `TELEMESH_MAX_MEDIA_MB`, if it is set.
pub fn max_media_bytes(setting: Option<&str>) -> (res: u64)
    ensures
        res == media_limit(
            match setting {
                Some(s) => Some(s@),
                None => None,
            },
        ),
        forall|mb: u64|
            setting is Some && parse_u64_spec(setting->0@) == Some(mb) && mb > 0 ==> res == (if mb
                * MIB > u64::MAX {
                u64::MAX
            } else {
                (mb * MIB) as u64
            }),
        (setting is None || parse_u64_spec(setting->0@) is None || parse_u64_spec(setting->0@)
            == Some(0u64)) ==> res == DEFAULT_MAX_MEDIA_BYTES,
{
    match setting {
        Some(s) => match parse_u64(s) {
            Some(mb) => {
                if mb > 0 {
                    match mb.checked_mul(MIB) {
                        Some(bytes) => bytes,
                        None => u64::MAX,
                    }
                } else {
                    DEFAULT_MAX_MEDIA_BYTES
                }
            },
            None => DEFAULT_MAX_MEDIA_BYTES,
        },
        None => DEFAULT_MAX_MEDIA_BYTES,
    }
}

/// A file-name character made safe: path separators and control characters become `_`.
pub open spec fn safe_char(c: char) -> char {
    if c == '/' || c == '\\' || is_control(c) {
        '_'
    } else {
        c
    }
}

/// The temporary-file form of an upload's name: each character made safe, at most 240 of them.
pub open spec fn safe_name(s: Seq<char>) -> Seq<char> {
    Seq::new(
        if s.len() < MAX_SAFE_NAME_CHARS {
            s.len()
        } else {
            MAX_SAFE_NAME_CHARS as nat
        },
        |i: int| safe_char(s[i]),
    )
}

/// The name under which an upload is kept while it is received.
pub fn safe_file_name(name: &str) -> (res: String)
    ensures
        res@ == safe_name(name@),
{
    let v = chars_of(name);
    let n = if v.len() < MAX_SAFE_NAME_CHARS {
        v.len()
    } else {
        MAX_SAFE_NAME_CHARS
    };
    let mut out = String::new();
    let mut i: usize = 0;
    while i < n
        invariant
            i <= n <= v.len(),
            out@ == Seq::new(i as nat, |k: int| safe_char(v@[k])),
        decreases n - i,
    {
        let c = v[i];
        let safe = if c == '/' || c == '\\' || is_control_char(c) {
            '_'
        } else {
            c
        };
        push_char(&mut out, safe);
        assert(out@ =~= Seq::new((i + 1) as nat, |k: int| safe_char(v@[k])));
        i += 1;
    }
    assert(out@ =~= safe_name(name@));
    out
}

/// A safe name holds no path separator and no control character, and is short.
pub proof fn lemma_safe_name_is_safe(s: Seq<char>)
    ensures
        safe_name(s).len() <= MAX_SAFE_NAME_CHARS,
        s.len() <= MAX_SAFE_NAME_CHARS ==> safe_name(s).len() == s.len(),
        s.len() > MAX_SAFE_NAME_CHARS ==> safe_name(s).len() == MAX_SAFE_NAME_CHARS,
        forall|i: int|
            0 <= i < safe_name(s).len() ==> {
                let c = #[trigger] safe_name(s)[i];
                c != '/' && c != '\\' && !is_control(c)
            },
        forall|i: int|
            0 <= i < safe_name(s).len() ==> (s[i] != '/' && s[i] != '\\' && !is_control(s[i])
                ==> #[trigger] safe_name(s)[i] == s[i]) && ((s[i] == '/' || s[i] == '\\'
                || is_control(s[i])) ==> safe_name(s)[i] == '_'),
{
    assert forall|i: int| 0 <= i < safe_name(s).len() implies {
        let c = #[trigger] safe_name(s)[i];
        c != '/' && c != '\\' && !is_control(c)
    } by {
        let c = s[i];
        if c == '/' || c == '\\' || is_control(c) {
            assert(!is_control('_'));
        }
    }
}

/// What a form field of an upload carries, by its name.
#[derive(Debug, Clone, Copy, PartialEq, Eq)]
pub enum FieldRole {
    Peer,
    Caption,
    File,
    /// A field that the upload ignores.
    Other,
}

impl FieldRole {
    /// Whether reading the form stops once this field is read: the first file field ends
    /// the form, and fields after it are not read.
    pub fn ends_form(&self) -> (res: bool)
        ensures
            res == (*self == FieldRole::File),
    {
        match self {
            FieldRole::File => true,
            _ => false,
        }
    }
}

/// The role of the form field called `name`.
pub fn field_role(name: &str) -> (res: FieldRole)
    ensures
        res == if name@ == "peer"@ {
            FieldRole::Peer
        } else if name@ == "caption"@ {
            FieldRole::Caption
        } else if name@ == "file"@ {
            FieldRole::File
        } else {
            FieldRole::Other
        },
{
    let n = string_of(name);
    if n == string_of("peer") {
        FieldRole::Peer
    } else if n == string_of("caption") {
        FieldRole::Caption
    } else if n == string_of("file") {
        FieldRole::File
    } else {
        FieldRole::Other
    }
}

/// The name of an upload whose file field gives none.
pub fn default_upload_name() -> (res: String)
    ensures
        res@ == "upload.bin"@,
{
    string_of("upload.bin")
}

/// The MIME type of a file whose type is not known.
pub fn default_mime() -> (res: String)
    ensures
        res@ == "application/octet-stream"@,
{
    string_of("application/octet-stream")
}

/// Why an upload is refused.
#[derive(Debug, Clone, Copy, PartialEq, Eq)]
pub enum UploadError {
    /// No file came, or the peer is blank.
    PeerAndFileRequired,
    /// The file is empty.
    EmptyFile,
    /// The file passed the size limit (in bytes).
    TooLarge { limit: u64 },
}

impl UploadError {
    /// The HTTP status of the refusal.
    pub fn status(&self) -> (res: u16)
        ensures
            res == match self {
                UploadError::TooLarge { .. } => 413u16,
                _ => 400u16,
            },
    {
        match self {
            UploadError::TooLarge { .. } => 413,
            _ => 400,
        }
    }

    /// The message of the refusal.
    pub fn message(&self) -> (res: String)
        ensures
            res@ == match self {
                UploadError::PeerAndFileRequired => "peer and file are required"@,
                UploadError::EmptyFile => "empty files are not allowed"@,
                UploadError::TooLarge { limit } => "file too large ("@ + decimal(
                    (limit / MIB) as nat,
                ) + " MiB limit)"@,
            },
    {
        match self {
            UploadError::PeerAndFileRequired => string_of("peer and file are required"),
            UploadError::EmptyFile => string_of("empty files are not allowed"),
            UploadError::TooLarge { limit } => {
                let mut out = string_of("file too large (");
                push_decimal(&mut out, *limit / MIB);
                push_str(&mut out, " MiB limit)");
                out
            },
        }
    }
}

/// The running size of an upload against its limit.
pub struct UploadMeter {
    pub total: u64,
    pub limit: u64,
}

impl UploadMeter {
    /// A meter for an upload that has received nothing yet.
    pub fn new(limit: u64) -> (res: Self)
        ensures
            res.total == 0,
            res.limit == limit,
    {
        UploadMeter { total: 0, limit }
    }

    /// Counts a received chunk of `len` bytes (saturating); refuses the upload once the
    /// total passes the limit.
    pub fn add_chunk(&mut self, len: usize) -> (res: Result<(), UploadError>)
        ensures
            final(self).limit == old(self).limit,
            final(self).total == if old(self).total + len > u64::MAX {
                u64::MAX
            } else {
                (old(self).total + len) as u64
            },
            res == if final(self).total > final(self).limit {
                Err::<(), UploadError>(UploadError::TooLarge { limit: final(self).limit })
            } else {
                Ok::<(), UploadError>(())
            },
    {
        let n = len as u64;
        self.total = self.total.saturating_add(n);
        if self.total > self.limit {
            Err(UploadError::TooLarge { limit: self.limit })
        } else {
            Ok(())
        }
    }
}

/// The checks made once the form is read: a file came, the peer is not blank, the file is
/// not empty — in that order.
pub fn check_upload(have_file: bool, peer: &str, total: u64) -> (res: Result<(), UploadError>)
    ensures
        res == if !have_file || trim(peer@).len() == 0 {
            Err::<(), UploadError>(UploadError::PeerAndFileRequired)
        } else if total == 0 {
            Err::<(), UploadError>(UploadError::EmptyFile)
        } else {
            Ok::<(), UploadError>(())
        },
{
    if !have_file {
        return Err(UploadError::PeerAndFileRequired);
    }
    if is_blank(peer) {
        return Err(UploadError::PeerAndFileRequired);
    }
    if total == 0 {
        return Err(UploadError::EmptyFile);
    }
    Ok(())
}

/// The total that a meter reports never falls as chunks arrive, and a refused upload
/// stays refused.
pub proof fn lemma_meter_refusal_sticks(total: u64, limit: u64, len: nat)
    requires
        total > limit,
    ensures
        (if total + len > u64::MAX {
            u64::MAX
        } else {
            (total + len) as u64
        }) > limit,
{
}

/// The configured limit counts whenever it is a positive number of MiB: the limit is that
/// many MiB (saturating), whatever the number; only an absent, unreadable or zero setting
/// gives the 500 MiB default. In particular a larger setting never gives a smaller limit.
pub proof fn lemma_media_limit_follows_setting(s: Seq<char>, t: Seq<char>)
    ensures
        forall|mb: u64|
            parse_u64_spec(s) == Some(mb) && mb > 0 ==> media_limit(Some(s)) as int == (if mb
                * MIB > u64::MAX {
                u64::MAX as int
            } else {
                mb * MIB
            }),
        forall|mb: u64|
            parse_u64_spec(s) == Some(mb) && mb > 0 && mb * MIB <= u64::MAX ==> media_limit(
                Some(s),
            ) / MIB == mb,
        parse_u64_spec(s) is None ==> media_limit(Some(s)) == DEFAULT_MAX_MEDIA_BYTES,
        parse_u64_spec(s) == Some(0u64) ==> media_limit(Some(s)) == DEFAULT_MAX_MEDIA_BYTES,
        media_limit(None) == DEFAULT_MAX_MEDIA_BYTES,
        forall|a: u64, b: u64|
            parse_u64_spec(s) == Some(a) && parse_u64_spec(t) == Some(b) && 0 < a <= b
                ==> media_limit(Some(s)) <= media_limit(Some(t)),
{
    if let Some(mb) = parse_u64_spec(s) {
        if mb > 0 && mb * MIB <= u64::MAX {
            assert((mb * MIB) / (MIB as int) == mb) by (nonlinear_arith)
                requires
                    MIB > 0,
            ;
        }
        if let Some(b) = parse_u64_spec(t) {
            if 0 < mb <= b {
                assert(mb * MIB <= b * MIB) by (nonlinear_arith)
                    requires
                        mb <= b,
                ;
            }
        }
    }
}

} // verus!
