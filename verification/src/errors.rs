use vstd::prelude::*;
use vstd::string::StringExecFns;

use crate::render::{
    contains_seq, dec_int, dec_nat, dec_string_i32, dec_string_u32, dec_string_usize,
    lemma_concat_contains,
};

verus! {

/// Severity of a condition reported by the native geospatial library,
/// mirroring its five-level scale from harmless to fatal.
#[derive(Debug, PartialEq, Eq, Clone, Copy, Structural)]
pub enum CplErrType {
    CeNone,
    CeDebug,
    CeWarning,
    CeFailure,
    CeFatal,
}

impl CplErrType {
    /// Position of this severity on the native scale.
    pub open spec fn ordinal(self) -> int {
        match self {
            CplErrType::CeNone => 0,
            CplErrType::CeDebug => 1,
            CplErrType::CeWarning => 2,
            CplErrType::CeFailure => 3,
            CplErrType::CeFatal => 4,
        }
    }

    /// The severity a raw native code denotes: codes 0 through 4 map to the
    /// severity of that ordinal; any other code falls back to `CeNone`.
    pub open spec fn from_raw_spec(raw: u32) -> CplErrType {
        if raw == 1 {
            CplErrType::CeDebug
        } else if raw == 2 {
            CplErrType::CeWarning
        } else if raw == 3 {
            CplErrType::CeFailure
        } else if raw == 4 {
            CplErrType::CeFatal
        } else {
            CplErrType::CeNone
        }
    }

    /// Total conversion from a raw severity code. The code comes from the
    /// native layer and is untrusted, so out-of-range values are mapped to
    /// the `CeNone` severity instead of being rejected.
    pub fn from_raw(raw: u32) -> (level: CplErrType)
        ensures
            level == CplErrType::from_raw_spec(raw),
            raw <= 4 ==> level.ordinal() == raw,
            raw > 4 ==> level == CplErrType::CeNone,
    {
        match raw {
            1 => CplErrType::CeDebug,
            2 => CplErrType::CeWarning,
            3 => CplErrType::CeFailure,
            4 => CplErrType::CeFatal,
            _ => CplErrType::CeNone,
        }
    }
}

impl From<u32> for CplErrType {
    fn from(error_type: u32) -> (level: CplErrType) {
        CplErrType::from_raw(error_type)
    }
}

impl vstd::std_specs::convert::FromSpecImpl<u32> for CplErrType {
    open spec fn obeys_from_spec() -> bool {
        true
    }

    open spec fn from_spec(error_type: u32) -> CplErrType {
        CplErrType::from_raw_spec(error_type)
    }
}

/// On the codes the native scale defines, the conversion returns the severity
/// of exactly that ordinal.
pub proof fn lemma_from_raw_ordinal(raw: u32)
    requires
        raw <= 4,
    ensures
        CplErrType::from_raw_spec(raw).ordinal() == raw,
{
}

/// On the native scale's range the conversion is injective: distinct codes
/// give distinct severities.
pub proof fn lemma_from_raw_injective(a: u32, b: u32)
    requires
        a <= 4,
        b <= 4,
        CplErrType::from_raw_spec(a) == CplErrType::from_raw_spec(b),
    ensures
        a == b,
{
}

/// Every severity is reached from some code in range, so together with
/// injectivity the conversion is a bijection between codes 0 through 4 and
/// the five severities.
pub proof fn lemma_from_raw_surjective(level: CplErrType)
    ensures
        exists|raw: u32| raw <= 4 && CplErrType::from_raw_spec(raw) == level,
{
    assert(CplErrType::from_raw_spec(level.ordinal() as u32) == level);
}

/// Codes outside the native scale never fail: they all fall back to the
/// `CeNone` severity.
pub proof fn lemma_from_raw_fallback(raw: u32)
    requires
        raw > 4,
    ensures
        CplErrType::from_raw_spec(raw) == CplErrType::CeNone,
{
}

impl CplErrType {
    /// The severity's name on the native scale.
    pub open spec fn name_spec(self) -> Seq<char> {
        match self {
            CplErrType::CeNone => "None"@,
            CplErrType::CeDebug => "Debug"@,
            CplErrType::CeWarning => "Warning"@,
            CplErrType::CeFailure => "Failure"@,
            CplErrType::CeFatal => "Fatal"@,
        }
    }

    /// Renders the severity's name.
    pub fn name(&self) -> (s: &'static str)
        ensures
            s@ == self.name_spec(),
    {
        match self {
            CplErrType::CeNone => "None",
            CplErrType::CeDebug => "Debug",
            CplErrType::CeWarning => "Warning",
            CplErrType::CeFailure => "Failure",
            CplErrType::CeFatal => "Fatal",
        }
    }
}

/// What the host side records of a failed byte-to-text conversion: the length
/// of the valid prefix, and the length of the offending byte sequence when
/// the input itself is malformed rather than merely truncated.
#[derive(Debug, PartialEq, Eq, Clone, Copy, Structural)]
pub struct Utf8ErrorInfo {
    pub valid_up_to: usize,
    pub error_len: Option<usize>,
}

/// What the host side records of an interior nul byte found while preparing
/// text for the native layer: its position in the input.
#[derive(Debug, PartialEq, Eq, Clone, Copy, Structural)]
pub struct NulErrorInfo {
    pub nul_position: usize,
}

/// What the host side records when a native string could not be turned back
/// into host text: the byte-to-text failure inside it.
#[derive(Debug, PartialEq, Eq, Clone, Copy, Structural)]
pub struct IntoStringErrorInfo {
    pub utf8_error: Utf8ErrorInfo,
}

/// Why a multi-dimensional array operation rejected a shape.
#[derive(Debug, PartialEq, Eq, Clone, Copy, Structural)]
pub enum ShapeErrorKind {
    IncompatibleShape,
    IncompatibleLayout,
    RangeLimited,
    OutOfBounds,
    Unsupported,
    Overflow,
}

impl ShapeErrorKind {
    /// The name of this shape-failure kind.
    pub open spec fn name_spec(self) -> Seq<char> {
        match self {
            ShapeErrorKind::IncompatibleShape => "IncompatibleShape"@,
            ShapeErrorKind::IncompatibleLayout => "IncompatibleLayout"@,
            ShapeErrorKind::RangeLimited => "RangeLimited"@,
            ShapeErrorKind::OutOfBounds => "OutOfBounds"@,
            ShapeErrorKind::Unsupported => "Unsupported"@,
            ShapeErrorKind::Overflow => "Overflow"@,
        }
    }

    /// Renders the name of this shape-failure kind.
    pub fn name(&self) -> (s: &'static str)
        ensures
            s@ == self.name_spec(),
    {
        match self {
            ShapeErrorKind::IncompatibleShape => "IncompatibleShape",
            ShapeErrorKind::IncompatibleLayout => "IncompatibleLayout",
            ShapeErrorKind::RangeLimited => "RangeLimited",
            ShapeErrorKind::OutOfBounds => "OutOfBounds",
            ShapeErrorKind::Unsupported => "Unsupported",
            ShapeErrorKind::Overflow => "Overflow",
        }
    }
}

/// What the host side records of a rejected array shape.
#[derive(Debug, PartialEq, Eq, Clone, Copy, Structural)]
pub struct ShapeErrorInfo {
    pub kind: ShapeErrorKind,
}

/// Every failure mode of the binding layer over the native geospatial
/// library. Exactly one variant is active at a time, and each carries the
/// context needed to diagnose the failure and to let callers dispatch on it.
#[derive(Clone, Debug)]
pub enum GdalError {
    FfiNulError(NulErrorInfo),
    FfiIntoStringError(IntoStringErrorInfo),
    StrUtf8Error(Utf8ErrorInfo),
    NdarrayShapeError(ShapeErrorInfo),
    CplError { class: CplErrType, number: i32, msg: String },
    NullPointer { method_name: &'static str, msg: String },
    CastToF64Error,
    OgrError { err: u32, method_name: &'static str },
    UnhandledFieldType { field_type: u32, method_name: &'static str },
    InvalidFieldName { field_name: String, method_name: &'static str },
    InvalidFieldIndex { index: usize, method_name: &'static str },
    UnlinkedGeometry { method_name: &'static str },
    InvalidCoordinateRange { from: String, to: String, msg: Option<String> },
    AxisNotFoundError { key: String, method_name: &'static str },
    UnsupportedGdalGeometryType(u32),
    UnlinkMemFile { file_name: String },
    BadArgument(String),
}

impl GdalError {
    /// The nul-byte failure wrapped in this error, when it wraps one.
    pub open spec fn nul_error_cause_spec(self) -> Option<NulErrorInfo> {
        match self {
            GdalError::FfiNulError(cause) => Some(cause),
            _ => None,
        }
    }

    /// The native-string conversion failure wrapped in this error, when it
    /// wraps one.
    pub open spec fn into_string_error_cause_spec(self) -> Option<IntoStringErrorInfo> {
        match self {
            GdalError::FfiIntoStringError(cause) => Some(cause),
            _ => None,
        }
    }

    /// The byte-to-text failure wrapped in this error, when it wraps one.
    pub open spec fn utf8_error_cause_spec(self) -> Option<Utf8ErrorInfo> {
        match self {
            GdalError::StrUtf8Error(cause) => Some(cause),
            _ => None,
        }
    }

    /// The array-shape failure wrapped in this error, when it wraps one.
    pub open spec fn shape_error_cause_spec(self) -> Option<ShapeErrorInfo> {
        match self {
            GdalError::NdarrayShapeError(cause) => Some(cause),
            _ => None,
        }
    }

    /// Wraps a nul-byte failure in the taxonomy, keeping the failure as the
    /// retrievable cause.
    pub fn from_nul_error(cause: NulErrorInfo) -> (e: GdalError)
        ensures
            e == GdalError::FfiNulError(cause),
    {
        GdalError::FfiNulError(cause)
    }

    /// Wraps a native-string conversion failure in the taxonomy, keeping the
    /// failure as the retrievable cause.
    pub fn from_into_string_error(cause: IntoStringErrorInfo) -> (e: GdalError)
        ensures
            e == GdalError::FfiIntoStringError(cause),
    {
        GdalError::FfiIntoStringError(cause)
    }

    /// Wraps a byte-to-text failure in the taxonomy, keeping the failure as
    /// the retrievable cause.
    pub fn from_utf8_error(cause: Utf8ErrorInfo) -> (e: GdalError)
        ensures
            e == GdalError::StrUtf8Error(cause),
    {
        GdalError::StrUtf8Error(cause)
    }

    /// Wraps an array-shape failure in the taxonomy, keeping the failure as
    /// the retrievable cause.
    pub fn from_shape_error(cause: ShapeErrorInfo) -> (e: GdalError)
        ensures
            e == GdalError::NdarrayShapeError(cause),
    {
        GdalError::NdarrayShapeError(cause)
    }

    /// Reads back the nul-byte failure this error wraps, if any.
    pub fn nul_error_cause(&self) -> (cause: Option<NulErrorInfo>)
        ensures
            cause == self.nul_error_cause_spec(),
    {
        match self {
            GdalError::FfiNulError(cause) => Some(*cause),
            _ => None,
        }
    }

    /// Reads back the native-string conversion failure this error wraps, if
    /// any.
    pub fn into_string_error_cause(&self) -> (cause: Option<IntoStringErrorInfo>)
        ensures
            cause == self.into_string_error_cause_spec(),
    {
        match self {
            GdalError::FfiIntoStringError(cause) => Some(*cause),
            _ => None,
        }
    }

    /// Reads back the byte-to-text failure this error wraps, if any.
    pub fn utf8_error_cause(&self) -> (cause: Option<Utf8ErrorInfo>)
        ensures
            cause == self.utf8_error_cause_spec(),
    {
        match self {
            GdalError::StrUtf8Error(cause) => Some(*cause),
            _ => None,
        }
    }

    /// Reads back the array-shape failure this error wraps, if any.
    pub fn shape_error_cause(&self) -> (cause: Option<ShapeErrorInfo>)
        ensures
            cause == self.shape_error_cause_spec(),
    {
        match self {
            GdalError::NdarrayShapeError(cause) => Some(*cause),
            _ => None,
        }
    }
}

/// Rendering of an optional byte count: the count inside `Some(..)` when
/// present, `None` otherwise.
pub open spec fn opt_len_spec(len: Option<usize>) -> Seq<char> {
    match len {
        Some(n) => "Some("@ + dec_nat(n as nat) + ")"@,
        None => "None"@,
    }
}

/// Rendering of a byte-to-text failure: the length of the valid prefix and
/// the length of the offending byte sequence.
pub open spec fn utf8_info_spec(cause: Utf8ErrorInfo) -> Seq<char> {
    "invalid utf-8: valid up to '"@ + dec_nat(cause.valid_up_to as nat) + "', error length: '"@
        + opt_len_spec(cause.error_len) + "'"@
}

/// Rendering of an optional detail message: the detail quoted inside
/// `Some(..)` when present, `None` otherwise.
pub open spec fn detail_spec(msg: Option<String>) -> Seq<char> {
    match msg {
        Some(detail) => "Some(\""@ + detail@ + "\")"@,
        None => "None"@,
    }
}

fn opt_len_string(len: Option<usize>) -> (s: String)
    ensures
        s@ == opt_len_spec(len),
{
    match len {
        Some(n) => {
            let mut s = "Some(".to_owned();
            s.append(dec_string_usize(n).as_str());
            s.append(")");
            proof {
                assert(s@ =~= opt_len_spec(len));
            }
            s
        },
        None => "None".to_owned(),
    }
}

fn utf8_info_string(cause: Utf8ErrorInfo) -> (s: String)
    ensures
        s@ == utf8_info_spec(cause),
{
    let mut s = "invalid utf-8: valid up to '".to_owned();
    s.append(dec_string_usize(cause.valid_up_to).as_str());
    s.append("', error length: '");
    s.append(opt_len_string(cause.error_len).as_str());
    s.append("'");
    proof {
        assert(s@ =~= utf8_info_spec(cause));
    }
    s
}

fn detail_string(msg: &Option<String>) -> (s: String)
    ensures
        s@ == detail_spec(*msg),
{
    match msg {
        Some(detail) => {
            let mut s = "Some(\"".to_owned();
            s.append(detail.as_str());
            s.append("\")");
            proof {
                assert(s@ =~= detail_spec(*msg));
            }
            s
        },
        None => "None".to_owned(),
    }
}

impl GdalError {
    /// The full diagnostic text of this error: the variant's message template
    /// with every payload field interpolated.
    pub open spec fn message_spec(self) -> Seq<char> {
        match self {
            GdalError::FfiNulError(cause) => "FfiNulError: nul byte found at position: "@
                + dec_nat(cause.nul_position as nat),
            GdalError::FfiIntoStringError(cause) => "FfiIntoStringError: "@ + utf8_info_spec(
                cause.utf8_error,
            ),
            GdalError::StrUtf8Error(cause) => "StrUtf8Error: "@ + utf8_info_spec(cause),
            GdalError::NdarrayShapeError(cause) => "NdarrayShapeError: '"@ + cause.kind.name_spec()
                + "'"@,
            GdalError::CplError { class, number, msg } => "CPL error class: '"@ + class.name_spec()
                + "', error number: '"@ + dec_int(number as int) + "', error msg: '"@ + msg@
                + "'"@,
            GdalError::NullPointer { method_name, msg } => "GDAL method '"@ + method_name@
                + "' returned a NULL pointer. Error msg: '"@ + msg@ + "'"@,
            GdalError::CastToF64Error => "Can't cast to f64"@,
            GdalError::OgrError { err, method_name } => "OGR method '"@ + method_name@
                + "' returned error: '"@ + dec_nat(err as nat) + "'"@,
            GdalError::UnhandledFieldType { field_type, method_name } => "Unhandled type '"@
                + dec_nat(field_type as nat) + "' on OGR method "@ + method_name@,
            GdalError::InvalidFieldName { field_name, method_name } => "Invalid field name '"@
                + field_name@ + "' used on method "@ + method_name@,
            GdalError::InvalidFieldIndex { index, method_name } => "Invalid field index '"@
                + dec_nat(index as nat) + "' used on method '"@ + method_name@ + "'"@,
            GdalError::UnlinkedGeometry { method_name } => "Unlinked Geometry on method '"@
                + method_name@ + "'"@,
            GdalError::InvalidCoordinateRange { from, to, msg } => (
            "Invalid coordinate range while transforming points from '"@ + from@ + "' to '"@ + to@
                + "': '"@ + detail_spec(msg) + "'"@),
            GdalError::AxisNotFoundError { key, method_name } => "Axis not found for key '"@ + key@
                + "' in method '"@ + method_name@ + "'"@,
            GdalError::UnsupportedGdalGeometryType(geometry_type) => (
            "Unsupported GDAL geometry type: '"@ + dec_nat(geometry_type as nat) + "'"@),
            GdalError::UnlinkMemFile { file_name } => "Unable to unlink mem file: "@ + file_name@,
            GdalError::BadArgument(msg) => "BadArgument: "@ + msg@,
        }
    }

    /// Renders the full diagnostic text of this error, suitable for display
    /// in logs or to an end user.
    pub fn message(&self) -> (s: String)
        ensures
            s@ == self.message_spec(),
    {
        match self {
            GdalError::FfiNulError(cause) => {
                let mut s = "FfiNulError: nul byte found at position: ".to_owned();
                s.append(dec_string_usize(cause.nul_position).as_str());
                proof {
                    assert(s@ =~= self.message_spec());
                }
                s
            },
            GdalError::FfiIntoStringError(cause) => {
                let mut s = "FfiIntoStringError: ".to_owned();
                s.append(utf8_info_string(cause.utf8_error).as_str());
                proof {
                    assert(s@ =~= self.message_spec());
                }
                s
            },
            GdalError::StrUtf8Error(cause) => {
                let mut s = "StrUtf8Error: ".to_owned();
                s.append(utf8_info_string(*cause).as_str());
                proof {
                    assert(s@ =~= self.message_spec());
                }
                s
            },
            GdalError::NdarrayShapeError(cause) => {
                let mut s = "NdarrayShapeError: '".to_owned();
                s.append(cause.kind.name());
                s.append("'");
                proof {
                    assert(s@ =~= self.message_spec());
                }
                s
            },
            GdalError::CplError { class, number, msg } => {
                let mut s = "CPL error class: '".to_owned();
                s.append(class.name());
                s.append("', error number: '");
                s.append(dec_string_i32(*number).as_str());
                s.append("', error msg: '");
                s.append(msg.as_str());
                s.append("'");
                proof {
                    assert(s@ =~= self.message_spec());
                }
                s
            },
            GdalError::NullPointer { method_name, msg } => {
                let mut s = "GDAL method '".to_owned();
                s.append(method_name);
                s.append("' returned a NULL pointer. Error msg: '");
                s.append(msg.as_str());
                s.append("'");
                proof {
                    assert(s@ =~= self.message_spec());
                }
                s
            },
            GdalError::CastToF64Error => "Can't cast to f64".to_owned(),
            GdalError::OgrError { err, method_name } => {
                let mut s = "OGR method '".to_owned();
                s.append(method_name);
                s.append("' returned error: '");
                s.append(dec_string_u32(*err).as_str());
                s.append("'");
                proof {
                    assert(s@ =~= self.message_spec());
                }
                s
            },
            GdalError::UnhandledFieldType { field_type, method_name } => {
                let mut s = "Unhandled type '".to_owned();
                s.append(dec_string_u32(*field_type).as_str());
                s.append("' on OGR method ");
                s.append(method_name);
                proof {
                    assert(s@ =~= self.message_spec());
                }
                s
            },
            GdalError::InvalidFieldName { field_name, method_name } => {
                let mut s = "Invalid field name '".to_owned();
                s.append(field_name.as_str());
                s.append("' used on method ");
                s.append(method_name);
                proof {
                    assert(s@ =~= self.message_spec());
                }
                s
            },
            GdalError::InvalidFieldIndex { index, method_name } => {
                let mut s = "Invalid field index '".to_owned();
                s.append(dec_string_usize(*index).as_str());
                s.append("' used on method '");
                s.append(method_name);
                s.append("'");
                proof {
                    assert(s@ =~= self.message_spec());
                }
                s
            },
            GdalError::UnlinkedGeometry { method_name } => {
                let mut s = "Unlinked Geometry on method '".to_owned();
                s.append(method_name);
                s.append("'");
                proof {
                    assert(s@ =~= self.message_spec());
                }
                s
            },
            GdalError::InvalidCoordinateRange { from, to, msg } => {
                let mut s = "Invalid coordinate range while transforming points from '".to_owned();
                s.append(from.as_str());
                s.append("' to '");
                s.append(to.as_str());
                s.append("': '");
                s.append(detail_string(msg).as_str());
                s.append("'");
                proof {
                    assert(s@ =~= self.message_spec());
                }
                s
            },
            GdalError::AxisNotFoundError { key, method_name } => {
                let mut s = "Axis not found for key '".to_owned();
                s.append(key.as_str());
                s.append("' in method '");
                s.append(method_name);
                s.append("'");
                proof {
                    assert(s@ =~= self.message_spec());
                }
                s
            },
            GdalError::UnsupportedGdalGeometryType(geometry_type) => {
                let mut s = "Unsupported GDAL geometry type: '".to_owned();
                s.append(dec_string_u32(*geometry_type).as_str());
                s.append("'");
                proof {
                    assert(s@ =~= self.message_spec());
                }
                s
            },
            GdalError::UnlinkMemFile { file_name } => {
                let mut s = "Unable to unlink mem file: ".to_owned();
                s.append(file_name.as_str());
                proof {
                    assert(s@ =~= self.message_spec());
                }
                s
            },
            GdalError::BadArgument(msg) => {
                let mut s = "BadArgument: ".to_owned();
                s.append(msg.as_str());
                proof {
                    assert(s@ =~= self.message_spec());
                }
                s
            },
        }
    }
}

impl GdalError {
    /// Two errors are the same failure when they are the same variant and
    /// their payload fields agree; text fields agree when they hold the same
    /// characters.
    pub open spec fn same_error(self, other: GdalError) -> bool {
        match (self, other) {
            (GdalError::FfiNulError(a), GdalError::FfiNulError(b)) => a == b,
            (GdalError::FfiIntoStringError(a), GdalError::FfiIntoStringError(b)) => a == b,
            (GdalError::StrUtf8Error(a), GdalError::StrUtf8Error(b)) => a == b,
            (GdalError::NdarrayShapeError(a), GdalError::NdarrayShapeError(b)) => a == b,
            (
                GdalError::CplError { class: class_a, number: number_a, msg: msg_a },
                GdalError::CplError { class: class_b, number: number_b, msg: msg_b },
            ) => class_a == class_b && number_a == number_b && msg_a@ == msg_b@,
            (
                GdalError::NullPointer { method_name: method_a, msg: msg_a },
                GdalError::NullPointer { method_name: method_b, msg: msg_b },
            ) => method_a@ == method_b@ && msg_a@ == msg_b@,
            (GdalError::CastToF64Error, GdalError::CastToF64Error) => true,
            (
                GdalError::OgrError { err: err_a, method_name: method_a },
                GdalError::OgrError { err: err_b, method_name: method_b },
            ) => err_a == err_b && method_a@ == method_b@,
            (
                GdalError::UnhandledFieldType { field_type: type_a, method_name: method_a },
                GdalError::UnhandledFieldType { field_type: type_b, method_name: method_b },
            ) => type_a == type_b && method_a@ == method_b@,
            (
                GdalError::InvalidFieldName { field_name: field_a, method_name: method_a },
                GdalError::InvalidFieldName { field_name: field_b, method_name: method_b },
            ) => field_a@ == field_b@ && method_a@ == method_b@,
            (
                GdalError::InvalidFieldIndex { index: index_a, method_name: method_a },
                GdalError::InvalidFieldIndex { index: index_b, method_name: method_b },
            ) => index_a == index_b && method_a@ == method_b@,
            (
                GdalError::UnlinkedGeometry { method_name: method_a },
                GdalError::UnlinkedGeometry { method_name: method_b },
            ) => method_a@ == method_b@,
            (
                GdalError::InvalidCoordinateRange { from: from_a, to: to_a, msg: msg_a },
                GdalError::InvalidCoordinateRange { from: from_b, to: to_b, msg: msg_b },
            ) => from_a@ == from_b@ && to_a@ == to_b@ && match (msg_a, msg_b) {
                (Some(detail_a), Some(detail_b)) => detail_a@ == detail_b@,
                (None, None) => true,
                _ => false,
            },
            (
                GdalError::AxisNotFoundError { key: key_a, method_name: method_a },
                GdalError::AxisNotFoundError { key: key_b, method_name: method_b },
            ) => key_a@ == key_b@ && method_a@ == method_b@,
            (
                GdalError::UnsupportedGdalGeometryType(a),
                GdalError::UnsupportedGdalGeometryType(b),
            ) => a == b,
            (
                GdalError::UnlinkMemFile { file_name: file_a },
                GdalError::UnlinkMemFile { file_name: file_b },
            ) => file_a@ == file_b@,
            (GdalError::BadArgument(a), GdalError::BadArgument(b)) => a@ == b@,
            _ => false,
        }
    }
}

impl PartialEq for GdalError {
    fn eq(&self, other: &GdalError) -> (r: bool) {
        match (self, other) {
            (GdalError::FfiNulError(a), GdalError::FfiNulError(b)) => *a == *b,
            (GdalError::FfiIntoStringError(a), GdalError::FfiIntoStringError(b)) => *a == *b,
            (GdalError::StrUtf8Error(a), GdalError::StrUtf8Error(b)) => *a == *b,
            (GdalError::NdarrayShapeError(a), GdalError::NdarrayShapeError(b)) => *a == *b,
            (
                GdalError::CplError { class: class_a, number: number_a, msg: msg_a },
                GdalError::CplError { class: class_b, number: number_b, msg: msg_b },
            ) => *class_a == *class_b && *number_a == *number_b && *msg_a == *msg_b,
            (
                GdalError::NullPointer { method_name: method_a, msg: msg_a },
                GdalError::NullPointer { method_name: method_b, msg: msg_b },
            ) => (*method_a).to_owned() == (*method_b).to_owned() && *msg_a == *msg_b,
            (GdalError::CastToF64Error, GdalError::CastToF64Error) => true,
            (
                GdalError::OgrError { err: err_a, method_name: method_a },
                GdalError::OgrError { err: err_b, method_name: method_b },
            ) => *err_a == *err_b && (*method_a).to_owned() == (*method_b).to_owned(),
            (
                GdalError::UnhandledFieldType { field_type: type_a, method_name: method_a },
                GdalError::UnhandledFieldType { field_type: type_b, method_name: method_b },
            ) => *type_a == *type_b && (*method_a).to_owned() == (*method_b).to_owned(),
            (
                GdalError::InvalidFieldName { field_name: field_a, method_name: method_a },
                GdalError::InvalidFieldName { field_name: field_b, method_name: method_b },
            ) => *field_a == *field_b && (*method_a).to_owned() == (*method_b).to_owned(),
            (
                GdalError::InvalidFieldIndex { index: index_a, method_name: method_a },
                GdalError::InvalidFieldIndex { index: index_b, method_name: method_b },
            ) => *index_a == *index_b && (*method_a).to_owned() == (*method_b).to_owned(),
            (
                GdalError::UnlinkedGeometry { method_name: method_a },
                GdalError::UnlinkedGeometry { method_name: method_b },
            ) => (*method_a).to_owned() == (*method_b).to_owned(),
            (
                GdalError::InvalidCoordinateRange { from: from_a, to: to_a, msg: msg_a },
                GdalError::InvalidCoordinateRange { from: from_b, to: to_b, msg: msg_b },
            ) => *from_a == *from_b && *to_a == *to_b && match (msg_a, msg_b) {
                (Some(detail_a), Some(detail_b)) => *detail_a == *detail_b,
                (None, None) => true,
                _ => false,
            },
            (
                GdalError::AxisNotFoundError { key: key_a, method_name: method_a },
                GdalError::AxisNotFoundError { key: key_b, method_name: method_b },
            ) => *key_a == *key_b && (*method_a).to_owned() == (*method_b).to_owned(),
            (
                GdalError::UnsupportedGdalGeometryType(a),
                GdalError::UnsupportedGdalGeometryType(b),
            ) => *a == *b,
            (
                GdalError::UnlinkMemFile { file_name: file_a },
                GdalError::UnlinkMemFile { file_name: file_b },
            ) => *file_a == *file_b,
            (GdalError::BadArgument(a), GdalError::BadArgument(b)) => *a == *b,
            _ => false,
        }
    }
}

impl vstd::std_specs::cmp::PartialEqSpecImpl for GdalError {
    open spec fn obeys_eq_spec() -> bool {
        true
    }

    open spec fn eq_spec(&self, other: &GdalError) -> bool {
        self.same_error(*other)
    }
}

/// Whatever the variant, the rendered message carries every payload field's
/// rendering verbatim: no interpolation is missing.
pub proof fn lemma_message_contains_payload(e: GdalError)
    ensures
        (match e {
            GdalError::FfiNulError(cause) => contains_seq(
                e.message_spec(),
                dec_nat(cause.nul_position as nat),
            ),
            GdalError::FfiIntoStringError(cause) => contains_seq(
                e.message_spec(),
                dec_nat(cause.utf8_error.valid_up_to as nat),
            ) && contains_seq(e.message_spec(), opt_len_spec(cause.utf8_error.error_len)),
            GdalError::StrUtf8Error(cause) => contains_seq(
                e.message_spec(),
                dec_nat(cause.valid_up_to as nat),
            ) && contains_seq(e.message_spec(), opt_len_spec(cause.error_len)),
            GdalError::NdarrayShapeError(cause) => contains_seq(
                e.message_spec(),
                cause.kind.name_spec(),
            ),
            GdalError::CplError { class, number, msg } => contains_seq(
                e.message_spec(),
                class.name_spec(),
            ) && contains_seq(e.message_spec(), dec_int(number as int)) && contains_seq(
                e.message_spec(),
                msg@,
            ),
            GdalError::NullPointer { method_name, msg } => contains_seq(
                e.message_spec(),
                method_name@,
            ) && contains_seq(e.message_spec(), msg@),
            GdalError::CastToF64Error => true,
            GdalError::OgrError { err, method_name } => contains_seq(
                e.message_spec(),
                dec_nat(err as nat),
            ) && contains_seq(e.message_spec(), method_name@),
            GdalError::UnhandledFieldType { field_type, method_name } => contains_seq(
                e.message_spec(),
                dec_nat(field_type as nat),
            ) && contains_seq(e.message_spec(), method_name@),
            GdalError::InvalidFieldName { field_name, method_name } => contains_seq(
                e.message_spec(),
                field_name@,
            ) && contains_seq(e.message_spec(), method_name@),
            GdalError::InvalidFieldIndex { index, method_name } => contains_seq(
                e.message_spec(),
                dec_nat(index as nat),
            ) && contains_seq(e.message_spec(), method_name@),
            GdalError::UnlinkedGeometry { method_name } => contains_seq(
                e.message_spec(),
                method_name@,
            ),
            GdalError::InvalidCoordinateRange { from, to, msg } => contains_seq(
                e.message_spec(),
                from@,
            ) && contains_seq(e.message_spec(), to@) && contains_seq(
                e.message_spec(),
                detail_spec(msg),
            ),
            GdalError::AxisNotFoundError { key, method_name } => contains_seq(
                e.message_spec(),
                key@,
            ) && contains_seq(e.message_spec(), method_name@),
            GdalError::UnsupportedGdalGeometryType(geometry_type) => contains_seq(
                e.message_spec(),
                dec_nat(geometry_type as nat),
            ),
            GdalError::UnlinkMemFile { file_name } => contains_seq(e.message_spec(), file_name@),
            GdalError::BadArgument(msg) => contains_seq(e.message_spec(), msg@),
        }),
{
    let hay = e.message_spec();
    let empty = Seq::<char>::empty();
    match e {
        GdalError::FfiNulError(cause) => {
            let needle = dec_nat(cause.nul_position as nat);
            let prefix = "FfiNulError: nul byte found at position: "@;
            assert(hay =~= prefix + needle + empty);
            lemma_concat_contains(prefix, needle, empty);
        },
        GdalError::FfiIntoStringError(cause) => {
            let lead = "FfiIntoStringError: "@;
            let valid = dec_nat(cause.utf8_error.valid_up_to as nat);
            let len = opt_len_spec(cause.utf8_error.error_len);
            assert(hay =~= (lead + "invalid utf-8: valid up to '"@) + valid + (
            "', error length: '"@ + len + "'"@));
            lemma_concat_contains(
                lead + "invalid utf-8: valid up to '"@,
                valid,
                "', error length: '"@ + len + "'"@,
            );
            assert(hay =~= (lead + "invalid utf-8: valid up to '"@ + valid
                + "', error length: '"@) + len + "'"@);
            lemma_concat_contains(
                lead + "invalid utf-8: valid up to '"@ + valid + "', error length: '"@,
                len,
                "'"@,
            );
        },
        GdalError::StrUtf8Error(cause) => {
            let lead = "StrUtf8Error: "@;
            let valid = dec_nat(cause.valid_up_to as nat);
            let len = opt_len_spec(cause.error_len);
            assert(hay =~= (lead + "invalid utf-8: valid up to '"@) + valid + (
            "', error length: '"@ + len + "'"@));
            lemma_concat_contains(
                lead + "invalid utf-8: valid up to '"@,
                valid,
                "', error length: '"@ + len + "'"@,
            );
            assert(hay =~= (lead + "invalid utf-8: valid up to '"@ + valid
                + "', error length: '"@) + len + "'"@);
            lemma_concat_contains(
                lead + "invalid utf-8: valid up to '"@ + valid + "', error length: '"@,
                len,
                "'"@,
            );
        },
        GdalError::NdarrayShapeError(cause) => {
            assert(hay =~= "NdarrayShapeError: '"@ + cause.kind.name_spec() + "'"@);
            lemma_concat_contains("NdarrayShapeError: '"@, cause.kind.name_spec(), "'"@);
        },
        GdalError::CplError { class, number, msg } => {
            let name = class.name_spec();
            let num = dec_int(number as int);
            assert(hay =~= "CPL error class: '"@ + name + ("', error number: '"@ + num
                + "', error msg: '"@ + msg@ + "'"@));
            lemma_concat_contains(
                "CPL error class: '"@,
                name,
                "', error number: '"@ + num + "', error msg: '"@ + msg@ + "'"@,
            );
            assert(hay =~= ("CPL error class: '"@ + name + "', error number: '"@) + num + (
            "', error msg: '"@ + msg@ + "'"@));
            lemma_concat_contains(
                "CPL error class: '"@ + name + "', error number: '"@,
                num,
                "', error msg: '"@ + msg@ + "'"@,
            );
            assert(hay =~= ("CPL error class: '"@ + name + "', error number: '"@ + num
                + "', error msg: '"@) + msg@ + "'"@);
            lemma_concat_contains(
                "CPL error class: '"@ + name + "', error number: '"@ + num + "', error msg: '"@,
                msg@,
                "'"@,
            );
        },
        GdalError::NullPointer { method_name, msg } => {
            assert(hay =~= "GDAL method '"@ + method_name@ + (
            "' returned a NULL pointer. Error msg: '"@ + msg@ + "'"@));
            lemma_concat_contains(
                "GDAL method '"@,
                method_name@,
                "' returned a NULL pointer. Error msg: '"@ + msg@ + "'"@,
            );
            assert(hay =~= ("GDAL method '"@ + method_name@
                + "' returned a NULL pointer. Error msg: '"@) + msg@ + "'"@);
            lemma_concat_contains(
                "GDAL method '"@ + method_name@ + "' returned a NULL pointer. Error msg: '"@,
                msg@,
                "'"@,
            );
        },
        GdalError::CastToF64Error => {},
        GdalError::OgrError { err, method_name } => {
            let num = dec_nat(err as nat);
            assert(hay =~= "OGR method '"@ + method_name@ + ("' returned error: '"@ + num
                + "'"@));
            lemma_concat_contains(
                "OGR method '"@,
                method_name@,
                "' returned error: '"@ + num + "'"@,
            );
            assert(hay =~= ("OGR method '"@ + method_name@ + "' returned error: '"@) + num
                + "'"@);
            lemma_concat_contains(
                "OGR method '"@ + method_name@ + "' returned error: '"@,
                num,
                "'"@,
            );
        },
        GdalError::UnhandledFieldType { field_type, method_name } => {
            let num = dec_nat(field_type as nat);
            assert(hay =~= "Unhandled type '"@ + num + ("' on OGR method "@ + method_name@));
            lemma_concat_contains("Unhandled type '"@, num, "' on OGR method "@ + method_name@);
            assert(hay =~= ("Unhandled type '"@ + num + "' on OGR method "@) + method_name@
                + empty);
            lemma_concat_contains(
                "Unhandled type '"@ + num + "' on OGR method "@,
                method_name@,
                empty,
            );
        },
        GdalError::InvalidFieldName { field_name, method_name } => {
            assert(hay =~= "Invalid field name '"@ + field_name@ + ("' used on method "@
                + method_name@));
            lemma_concat_contains(
                "Invalid field name '"@,
                field_name@,
                "' used on method "@ + method_name@,
            );
            assert(hay =~= ("Invalid field name '"@ + field_name@ + "' used on method "@)
                + method_name@ + empty);
            lemma_concat_contains(
                "Invalid field name '"@ + field_name@ + "' used on method "@,
                method_name@,
                empty,
            );
        },
        GdalError::InvalidFieldIndex { index, method_name } => {
            let num = dec_nat(index as nat);
            assert(hay =~= "Invalid field index '"@ + num + ("' used on method '"@ + method_name@
                + "'"@));
            lemma_concat_contains(
                "Invalid field index '"@,
                num,
                "' used on method '"@ + method_name@ + "'"@,
            );
            assert(hay =~= ("Invalid field index '"@ + num + "' used on method '"@) + method_name@
                + "'"@);
            lemma_concat_contains(
                "Invalid field index '"@ + num + "' used on method '"@,
                method_name@,
                "'"@,
            );
        },
        GdalError::UnlinkedGeometry { method_name } => {
            assert(hay =~= "Unlinked Geometry on method '"@ + method_name@ + "'"@);
            lemma_concat_contains("Unlinked Geometry on method '"@, method_name@, "'"@);
        },
        GdalError::InvalidCoordinateRange { from, to, msg } => {
            let lead = "Invalid coordinate range while transforming points from '"@;
            let detail = detail_spec(msg);
            assert(hay =~= lead + from@ + ("' to '"@ + to@ + "': '"@ + detail + "'"@));
            lemma_concat_contains(lead, from@, "' to '"@ + to@ + "': '"@ + detail + "'"@);
            assert(hay =~= (lead + from@ + "' to '"@) + to@ + ("': '"@ + detail + "'"@));
            lemma_concat_contains(lead + from@ + "' to '"@, to@, "': '"@ + detail + "'"@);
            assert(hay =~= (lead + from@ + "' to '"@ + to@ + "': '"@) + detail + "'"@);
            lemma_concat_contains(lead + from@ + "' to '"@ + to@ + "': '"@, detail, "'"@);
        },
        GdalError::AxisNotFoundError { key, method_name } => {
            assert(hay =~= "Axis not found for key '"@ + key@ + ("' in method '"@ + method_name@
                + "'"@));
            lemma_concat_contains(
                "Axis not found for key '"@,
                key@,
                "' in method '"@ + method_name@ + "'"@,
            );
            assert(hay =~= ("Axis not found for key '"@ + key@ + "' in method '"@) + method_name@
                + "'"@);
            lemma_concat_contains(
                "Axis not found for key '"@ + key@ + "' in method '"@,
                method_name@,
                "'"@,
            );
        },
        GdalError::UnsupportedGdalGeometryType(geometry_type) => {
            let num = dec_nat(geometry_type as nat);
            assert(hay =~= "Unsupported GDAL geometry type: '"@ + num + "'"@);
            lemma_concat_contains("Unsupported GDAL geometry type: '"@, num, "'"@);
        },
        GdalError::UnlinkMemFile { file_name } => {
            assert(hay =~= "Unable to unlink mem file: "@ + file_name@ + empty);
            lemma_concat_contains("Unable to unlink mem file: "@, file_name@, empty);
        },
        GdalError::BadArgument(msg) => {
            assert(hay =~= "BadArgument: "@ + msg@ + empty);
            lemma_concat_contains("BadArgument: "@, msg@, empty);
        },
    }
}

/// An error equals itself: in particular, two errors constructed from the
/// same variant with the same payload compare as the same failure.
pub proof fn lemma_same_error_reflexive(e: GdalError)
    ensures
        e.same_error(e),
{
}

/// Comparing errors is symmetric: dispatch on equality does not depend on
/// the order of the operands.
pub proof fn lemma_same_error_symmetric(a: GdalError, b: GdalError)
    ensures
        a.same_error(b) == b.same_error(a),
{
}

/// Wrapping a lower-level conversion failure and then reading the cause back
/// returns the original failure unchanged, and each failure lands in the
/// variant of its own kind.
pub proof fn lemma_wrap_preserves_cause(
    nul: NulErrorInfo,
    into_string: IntoStringErrorInfo,
    utf8: Utf8ErrorInfo,
    shape: ShapeErrorInfo,
)
    ensures
        GdalError::FfiNulError(nul).nul_error_cause_spec() == Some(nul),
        GdalError::FfiIntoStringError(into_string).into_string_error_cause_spec() == Some(
            into_string,
        ),
        GdalError::StrUtf8Error(utf8).utf8_error_cause_spec() == Some(utf8),
        GdalError::NdarrayShapeError(shape).shape_error_cause_spec() == Some(shape),
{
}

} // verus!
