use vstd::prelude::*;

verus! {

/// The modifier value that means "no explicit modifier"; only formats with it
/// are offered through this protocol.
pub const MODIFIER_INVALID: u64 = 0x00ff_ffff_ffff_ffff;

/// Whether a 32-bit code is one of the DRM fourcc formats that the fourcc
/// table knows.
pub uninterp spec fn fourcc_known(code: u32) -> bool;

/// Relies on `drm_fourcc::DrmFourcc::try_from(u32)`: it succeeds exactly on
/// the codes of the table, and the format's value is the code itself.
#[verifier::external_body]
fn fourcc_from_u32(code: u32) -> (r: Option<u32>)
    ensures
        r == (if fourcc_known(code) {
            Some(code)
        } else {
            None
        }),
{
    drm_fourcc::DrmFourcc::try_from(code).ok().map(|f| f as u32)
}

/// A format a buffer can be imported in: its fourcc code and modifier.
#[derive(Clone, Copy, Debug, PartialEq, Eq, Structural)]
pub struct Format {
    pub code: u32,
    pub modifier: u64,
}

pub open spec fn offered_codes(formats: Seq<Format>) -> Seq<u32>
    decreases formats.len(),
{
    if formats.len() == 0 {
        Seq::empty()
    } else {
        let rest = offered_codes(formats.drop_last());
        if formats.last().modifier == MODIFIER_INVALID {
            rest.push(formats.last().code)
        } else {
            rest
        }
    }
}

/// The codes offered by the protocol: those of the formats without an
/// explicit modifier, in order.
pub fn drm_formats(formats: &Vec<Format>) -> (r: Vec<u32>)
    ensures
        r@ == offered_codes(formats@),
{
    let mut codes: Vec<u32> = Vec::new();
    let mut i: usize = 0;
    while i < formats.len()
        invariant
            i <= formats@.len(),
            codes@ == offered_codes(formats@.take(i as int)),
        decreases formats@.len() - i,
    {
        let f = formats[i];
        assert(formats@.take(i + 1).drop_last() =~= formats@.take(i as int));
        if f.modifier == MODIFIER_INVALID {
            codes.push(f.code);
        }
        i = i + 1;
    }
    assert(formats@.take(i as int) =~= formats@);
    codes
}

/// Clients bound at version 2 or later are told that buffers can be shared
/// by file descriptor.
pub fn advertises_prime(version: u32) -> (r: bool)
    ensures
        r == (version >= 2),
{
    version >= 2
}

/// Why a request of the protocol is refused.
#[derive(Clone, Copy, Debug, PartialEq, Eq, Structural)]
pub enum DrmError {
    /// A buffer named by a global name: only file descriptors are taken.
    FlinkUnsupported,
    /// The code is no known format.
    UnknownFormat,
    /// The format is known but was not offered.
    FormatNotOffered,
    /// The width or the height is not positive.
    BadDimensions,
    /// The renderer refused the format and plane combination.
    ImportInvalidFormat,
    /// The renderer failed to import the buffer.
    ImportFailed,
    /// The buffer could not be assembled.
    BufferIncomplete,
}

/// The protocol's error codes.
pub const INVALID_FORMAT: u32 = 1;

pub const INVALID_NAME: u32 = 2;

pub open spec fn error_code_spec(e: DrmError) -> u32 {
    match e {
        DrmError::UnknownFormat => INVALID_FORMAT,
        DrmError::FormatNotOffered => INVALID_FORMAT,
        DrmError::BadDimensions => INVALID_FORMAT,
        DrmError::ImportInvalidFormat => INVALID_FORMAT,
        _ => INVALID_NAME,
    }
}

impl DrmError {
    /// The protocol error code the client receives.
    pub fn code(&self) -> (r: u32)
        ensures
            r == error_code_spec(*self),
    {
        match self {
            DrmError::UnknownFormat => INVALID_FORMAT,
            DrmError::FormatNotOffered => INVALID_FORMAT,
            DrmError::BadDimensions => INVALID_FORMAT,
            DrmError::ImportInvalidFormat => INVALID_FORMAT,
            _ => INVALID_NAME,
        }
    }
}

pub open spec fn prime_check_spec(
    format: Option<u32>,
    offered: Seq<u32>,
    width: i32,
    height: i32,
) -> Result<u32, DrmError> {
    match format {
        None => Err(DrmError::UnknownFormat),
        Some(code) => if !offered.contains(code) {
            Err(DrmError::FormatNotOffered)
        } else if width < 1 || height < 1 {
            Err(DrmError::BadDimensions)
        } else {
            Ok(code)
        },
    }
}

/// Checks a request for a buffer shared by file descriptor, given the format
/// the fourcc table made of its code (`None`: unknown): the format must have
/// been offered and both dimensions must be positive.
pub fn check_prime_buffer(format: Option<u32>, offered: &Vec<u32>, width: i32, height: i32) -> (r:
    Result<u32, DrmError>)
    ensures
        r == prime_check_spec(format, offered@, width, height),
{
    let code = match format {
        None => return Err(DrmError::UnknownFormat),
        Some(c) => c,
    };
    let mut found = false;
    let mut i: usize = 0;
    while i < offered.len()
        invariant
            i <= offered@.len(),
            found == exists|j: int| 0 <= j < i && offered@[j] == code,
        decreases offered@.len() - i,
    {
        if offered[i] == code {
            found = true;
        }
        i = i + 1;
    }
    if !found {
        Err(DrmError::FormatNotOffered)
    } else if width < 1 || height < 1 {
        Err(DrmError::BadDimensions)
    } else {
        Ok(code)
    }
}

/// Checks a request for a buffer shared by file descriptor with format code
/// `code`; `Ok` gives the format to import it in.
pub fn prime_buffer_request(code: u32, offered: &Vec<u32>, width: i32, height: i32) -> (r: Result<
    u32,
    DrmError,
>)
    ensures
        r == prime_check_spec(
            if fourcc_known(code) {
                Some(code)
            } else {
                None
            },
            offered@,
            width,
            height,
        ),
{
    let format = fourcc_from_u32(code);
    check_prime_buffer(format, offered, width, height)
}

/// How the renderer's import of an assembled buffer ended.
#[derive(Clone, Copy, Debug, PartialEq, Eq, Structural)]
pub enum ImportResult {
    Imported,
    InvalidFormat,
    Failed,
    /// The buffer could not be assembled from its plane.
    NotBuilt,
}

/// The outcome of the import: the buffer is created, or the client gets the
/// matching error.
pub fn import_outcome(r: ImportResult) -> (o: Result<(), DrmError>)
    ensures
        o == match r {
            ImportResult::Imported => Ok::<(), DrmError>(()),
            ImportResult::InvalidFormat => Err(DrmError::ImportInvalidFormat),
            ImportResult::Failed => Err(DrmError::ImportFailed),
            ImportResult::NotBuilt => Err(DrmError::BufferIncomplete),
        },
{
    match r {
        ImportResult::Imported => Ok(()),
        ImportResult::InvalidFormat => Err(DrmError::ImportInvalidFormat),
        ImportResult::Failed => Err(DrmError::ImportFailed),
        ImportResult::NotBuilt => Err(DrmError::BufferIncomplete),
    }
}

/// A request of the legacy buffer-sharing protocol.
#[derive(Clone, Copy, Debug, PartialEq, Eq, Structural)]
pub enum DrmRequest {
    Authenticate,
    /// A buffer named by a global (flink) name.
    CreateBuffer,
    /// A planar buffer named by a global (flink) name.
    CreatePlanarBuffer,
    /// A buffer shared by file descriptor.
    CreatePrimeBuffer { format: u32, width: i32, height: i32 },
}

/// What the compositor answers.
#[derive(Clone, Copy, Debug, PartialEq, Eq, Structural)]
pub enum DrmResponse {
    /// The client is told it is authenticated.
    Authenticated,
    /// The client gets a protocol error.
    Refuse(DrmError),
    /// The buffer is to be assembled in this format and imported.
    Import(u32),
}

pub open spec fn response_spec(req: DrmRequest, offered: Seq<u32>) -> DrmResponse {
    match req {
        DrmRequest::Authenticate => DrmResponse::Authenticated,
        DrmRequest::CreateBuffer => DrmResponse::Refuse(DrmError::FlinkUnsupported),
        DrmRequest::CreatePlanarBuffer => DrmResponse::Refuse(DrmError::FlinkUnsupported),
        DrmRequest::CreatePrimeBuffer { format, width, height } => match prime_check_spec(
            if fourcc_known(format) {
                Some(format)
            } else {
                None
            },
            offered,
            width,
            height,
        ) {
            Ok(code) => DrmResponse::Import(code),
            Err(e) => DrmResponse::Refuse(e),
        },
    }
}

/// Answers a request: authentication always succeeds, buffers named by global
/// names are refused, and buffers shared by file descriptor are checked.
pub fn handle_request(req: DrmRequest, offered: &Vec<u32>) -> (r: DrmResponse)
    ensures
        r == response_spec(req, offered@),
{
    match req {
        DrmRequest::Authenticate => DrmResponse::Authenticated,
        DrmRequest::CreateBuffer => DrmResponse::Refuse(DrmError::FlinkUnsupported),
        DrmRequest::CreatePlanarBuffer => DrmResponse::Refuse(DrmError::FlinkUnsupported),
        DrmRequest::CreatePrimeBuffer { format, width, height } => match prime_buffer_request(
            format,
            offered,
            width,
            height,
        ) {
            Ok(code) => DrmResponse::Import(code),
            Err(e) => DrmResponse::Refuse(e),
        },
    }
}

} // verus!
