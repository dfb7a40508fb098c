//! CRD type definitions for the Kubernetes operator.
//!
//! All user-supplied fields are validated so that a spec cannot carry
//! path traversal (`..` components), NUL bytes, shell metacharacters in
//! image references, or unbounded lengths.  Byte lengths and byte contents
//! are those of the UTF-8 encoding of the text; paths follow Unix
//! conventions (`/` separates components).

use std::collections::HashMap;
use vstd::prelude::*;
use vstd::string::*;
use crate::text::concat2;

verus! {

/// Validation error types.
#[derive(Debug, Clone, PartialEq)]
pub enum ValidationError {
    /// Path contains traversal sequences.
    PathTraversal(String),
    /// Path is not acceptable.
    InvalidPath(String),
    /// Image reference is invalid.
    InvalidImage(String),
    /// Model ID contains invalid characters.
    InvalidModelId(String),
    /// Socket path is invalid.
    InvalidSocketPath(String),
    /// Field exceeds maximum length.
    MaxLengthExceeded { field: String, max: usize },
    /// Field is empty but required.
    EmptyField(String),
}

/// The mathematical content of a [`ValidationError`]: the same variants
/// with the text of each payload.
pub ghost enum ValidationErrorView {
    PathTraversal(Seq<char>),
    InvalidPath(Seq<char>),
    InvalidImage(Seq<char>),
    InvalidModelId(Seq<char>),
    InvalidSocketPath(Seq<char>),
    MaxLengthExceeded { field: Seq<char>, max: usize },
    EmptyField(Seq<char>),
}

impl View for ValidationError {
    type V = ValidationErrorView;

    open spec fn view(&self) -> ValidationErrorView {
        match self {
            ValidationError::PathTraversal(s) => ValidationErrorView::PathTraversal(s@),
            ValidationError::InvalidPath(s) => ValidationErrorView::InvalidPath(s@),
            ValidationError::InvalidImage(s) => ValidationErrorView::InvalidImage(s@),
            ValidationError::InvalidModelId(s) => ValidationErrorView::InvalidModelId(s@),
            ValidationError::InvalidSocketPath(s) => ValidationErrorView::InvalidSocketPath(s@),
            ValidationError::MaxLengthExceeded { field, max } =>
                ValidationErrorView::MaxLengthExceeded { field: field@, max: *max },
            ValidationError::EmptyField(s) => ValidationErrorView::EmptyField(s@),
        }
    }
}

/// The view of a validation outcome.
pub open spec fn outcome_view(r: Result<(), ValidationError>) -> Result<(), ValidationErrorView> {
    match r {
        Ok(()) => Ok(()),
        Err(e) => Err(e@),
    }
}

impl ValidationError {
    /// Human-readable description of the error.
    pub fn message(&self) -> (r: String)
        ensures
            r@ == self.spec_message(),
    {
        match self {
            ValidationError::PathTraversal(p) => concat2("Path traversal detected: ", p.as_str()),
            ValidationError::InvalidPath(p) => concat2("Invalid path: ", p.as_str()),
            ValidationError::InvalidImage(p) => concat2("Invalid image reference: ", p.as_str()),
            ValidationError::InvalidModelId(p) => concat2("Invalid model ID: ", p.as_str()),
            ValidationError::InvalidSocketPath(p) => concat2("Invalid socket path: ", p.as_str()),
            ValidationError::MaxLengthExceeded { field, max } => {
                let mut s = concat2("Field '", field.as_str());
                s.append("' exceeds maximum length of ");
                crate::text::push_decimal(&mut s, *max as u64);
                s
            },
            ValidationError::EmptyField(f) => {
                let mut s = concat2("Field '", f.as_str());
                s.append("' cannot be empty");
                s
            },
        }
    }

    /// The text that [`ValidationError::message`] produces.
    pub open spec fn spec_message(&self) -> Seq<char> {
        match self {
            ValidationError::PathTraversal(p) => "Path traversal detected: "@ + p@,
            ValidationError::InvalidPath(p) => "Invalid path: "@ + p@,
            ValidationError::InvalidImage(p) => "Invalid image reference: "@ + p@,
            ValidationError::InvalidModelId(p) => "Invalid model ID: "@ + p@,
            ValidationError::InvalidSocketPath(p) => "Invalid socket path: "@ + p@,
            ValidationError::MaxLengthExceeded { field, max } =>
                "Field '"@ + field@ + "' exceeds maximum length of "@
                    + crate::text::decimal(*max as nat),
            ValidationError::EmptyField(f) => "Field '"@ + f@ + "' cannot be empty"@,
        }
    }
}

/// Maximum allowed byte length for string fields.
pub const MAX_FIELD_LENGTH: usize = 256;
/// Maximum allowed byte length for paths.
pub const MAX_PATH_LENGTH: usize = 1024;

/// Byte values used by the checks below.
pub const NUL: u8 = 0;
pub const SLASH: u8 = 0x2f;
pub const DOT: u8 = 0x2e;
pub const DASH: u8 = 0x2d;
pub const COLON: u8 = 0x3a;

/// A `..` component of a `/`-separated path starts at byte `i`.
pub open spec fn parent_component_at(b: Seq<u8>, i: int) -> bool {
    &&& 0 <= i
    &&& i + 2 <= b.len()
    &&& b[i] == DOT
    &&& b[i + 1] == DOT
    &&& (i == 0 || b[i - 1] == SLASH)
    &&& (i + 2 == b.len() || b[i + 2] == SLASH)
}

/// The path has a `..` component (what `Path::components` reports as `ParentDir`).
pub open spec fn has_parent_component(b: Seq<u8>) -> bool {
    exists|i: int| parent_component_at(b, i)
}

/// The bytes contain two consecutive dots anywhere.
pub open spec fn has_dot_dot(b: Seq<u8>) -> bool {
    exists|i: int| dot_dot_at(b, i)
}

/// Two consecutive dots start at byte `i`.
pub open spec fn dot_dot_at(b: Seq<u8>, i: int) -> bool {
    0 <= i && i + 1 < b.len() && b[i] == DOT && b[i + 1] == DOT
}

/// Expected outcome of [`validate_path`] on the UTF-8 bytes `b` of a path.
pub open spec fn spec_validate_path(b: Seq<u8>, field: Seq<char>) -> Result<(), ValidationErrorView> {
    if b.len() == 0 {
        Err(ValidationErrorView::EmptyField(field))
    } else if b.len() > MAX_PATH_LENGTH {
        Err(ValidationErrorView::MaxLengthExceeded { field, max: MAX_PATH_LENGTH })
    } else if b.contains(NUL) {
        Err(ValidationErrorView::InvalidPath(field + ": contains null byte"@))
    } else if has_parent_component(b) {
        Err(ValidationErrorView::PathTraversal(field + ": contains '..' sequence"@))
    } else {
        Ok(())
    }
}

/// Whether `x` occurs in `b`.
pub fn bytes_contain(b: &[u8], x: u8) -> (r: bool)
    ensures
        r == b@.contains(x),
{
    let mut i: usize = 0;
    while i < b.len()
        invariant
            i <= b.len(),
            forall|j: int| 0 <= j < i ==> b@[j] != x,
        decreases b.len() - i,
    {
        if b[i] == x {
            assert(b@[i as int] == x);
            return true;
        }
        i = i + 1;
    }
    false
}

/// Whether the `/`-separated path in `b` has a `..` component.
pub fn bytes_have_parent_component(b: &[u8]) -> (r: bool)
    ensures
        r == has_parent_component(b@),
{
    let n = b.len();
    let mut i: usize = 0;
    while i < n
        invariant
            n == b@.len(),
            i <= n,
            forall|j: int| 0 <= j < i ==> !parent_component_at(b@, j),
        decreases n - i,
    {
        if n - i >= 2 && b[i] == DOT && b[i + 1] == DOT && (i == 0 || b[i - 1] == SLASH) && (i + 2 == n
            || b[i + 2] == SLASH) {
            assert(parent_component_at(b@, i as int));
            return true;
        }
        i = i + 1;
    }
    assert forall|j: int| !parent_component_at(b@, j) by {

    }
    false
}

/// Whether two consecutive dots occur in `b`.
pub fn bytes_have_dot_dot(b: &[u8]) -> (r: bool)
    ensures
        r == has_dot_dot(b@),
{
    let n = b.len();
    let mut i: usize = 0;
    while i < n
        invariant
            n == b@.len(),
            i <= n,
            forall|j: int| 0 <= j < i ==> !dot_dot_at(b@, j),
        decreases n - i,
    {
        if i + 1 < n && b[i] == DOT && b[i + 1] == DOT {
            assert(dot_dot_at(b@, i as int));
            return true;
        }
        i = i + 1;
    }
    assert forall|j: int| !dot_dot_at(b@, j) by {

    }
    false
}

/// Validate a path: non-empty, at most [`MAX_PATH_LENGTH`] bytes, no NUL
/// byte and no `..` component. `field_name` names the field in the error.
pub fn validate_path(path: &str, field_name: &str) -> (r: Result<(), ValidationError>)
    ensures
        outcome_view(r) == spec_validate_path(path.spec_bytes(), field_name@),
{
    let b = path.as_bytes();
    if b.len() == 0 {
        return Err(ValidationError::EmptyField(field_name.to_owned()));
    }
    if path.len() > MAX_PATH_LENGTH {
        return Err(ValidationError::MaxLengthExceeded {
            field: field_name.to_owned(),
            max: MAX_PATH_LENGTH,
        });
    }
    if bytes_contain(b, NUL) {
        return Err(ValidationError::InvalidPath(concat2(field_name, ": contains null byte")));
    }
    if bytes_have_parent_component(b) {
        return Err(ValidationError::PathTraversal(concat2(field_name, ": contains '..' sequence")));
    }
    Ok(())
}

/// The byte values an image reference may not contain, in the order in
/// which they are checked: `; & | ` + "`" + ` $ ( ) { } < > \n \r \0`.
pub open spec fn image_forbidden() -> Seq<u8> {
    seq![0x3bu8, 0x26u8, 0x7cu8, 0x60u8, 0x24u8, 0x28u8, 0x29u8, 0x7bu8, 0x7du8, 0x3cu8, 0x3eu8, 0x0au8, 0x0du8, 0x00u8]
}

/// Number of forbidden image characters.
pub const IMAGE_FORBIDDEN_COUNT: usize = 14;

/// The first position `k' >= k` of the forbidden list whose byte occurs in `b`.
pub open spec fn first_forbidden_from(b: Seq<u8>, k: int) -> Option<int>
    decreases 14 - k,
{
    if k < 0 || k >= 14 {
        None
    } else if b.contains(image_forbidden()[k]) {
        Some(k)
    } else {
        first_forbidden_from(b, k + 1)
    }
}

/// The message for the forbidden character at position `k` of the list
/// (the character is shown as Rust's `Debug` shows a `char`).
pub open spec fn forbidden_message(k: int) -> Seq<char> {
    if k == 0 { "contains forbidden character: ';'"@ }
    else if k == 1 { "contains forbidden character: '&'"@ }
    else if k == 2 { "contains forbidden character: '|'"@ }
    else if k == 3 { "contains forbidden character: '`'"@ }
    else if k == 4 { "contains forbidden character: '$'"@ }
    else if k == 5 { "contains forbidden character: '('"@ }
    else if k == 6 { "contains forbidden character: ')'"@ }
    else if k == 7 { "contains forbidden character: '{'"@ }
    else if k == 8 { "contains forbidden character: '}'"@ }
    else if k == 9 { "contains forbidden character: '<'"@ }
    else if k == 10 { "contains forbidden character: '>'"@ }
    else if k == 11 { "contains forbidden character: '\\n'"@ }
    else if k == 12 { "contains forbidden character: '\\r'"@ }
    else { "contains forbidden character: '\\0'"@ }
}

/// The byte at position `k` of the forbidden list.
fn forbidden_byte(k: usize) -> (r: u8)
    requires
        k < 14,
    ensures
        r == image_forbidden()[k as int],
{
    let table: [u8; 14] = [0x3b, 0x26, 0x7c, 0x60, 0x24, 0x28, 0x29, 0x7b, 0x7d, 0x3c, 0x3e, 0x0a, 0x0d, 0x00];
    assert(table@ =~= image_forbidden());
    table[k]
}

/// The message text for the forbidden character at position `k`.
fn forbidden_message_text(k: usize) -> (r: String)
    requires
        k < 14,
    ensures
        r@ == forbidden_message(k as int),
{
    let s: &str = match k {
        0 => "contains forbidden character: ';'",
        1 => "contains forbidden character: '&'",
        2 => "contains forbidden character: '|'",
        3 => "contains forbidden character: '`'",
        4 => "contains forbidden character: '$'",
        5 => "contains forbidden character: '('",
        6 => "contains forbidden character: ')'",
        7 => "contains forbidden character: '{'",
        8 => "contains forbidden character: '}'",
        9 => "contains forbidden character: '<'",
        10 => "contains forbidden character: '>'",
        11 => "contains forbidden character: '\\n'",
        12 => "contains forbidden character: '\\r'",
        _ => "contains forbidden character: '\\0'",
    };
    s.to_owned()
}

/// Index of the last `:` in `b`, or -1.
pub open spec fn last_colon(b: Seq<u8>) -> int
    decreases b.len(),
{
    if b.len() == 0 {
        -1
    } else if b.last() == COLON {
        b.len() - 1
    } else {
        last_colon(b.drop_last())
    }
}

/// Byte length of the name part of an image reference: the text before
/// the last `:` (the whole reference when there is none).
pub open spec fn image_name_len(b: Seq<u8>) -> int {
    if last_colon(b) < 0 { b.len() as int } else { last_colon(b) }
}

/// The name part starts with `-` or `.`.
pub open spec fn image_name_malformed(b: Seq<u8>) -> bool {
    image_name_len(b) > 0 && (b[0] == DASH || b[0] == DOT)
}

/// Expected outcome of [`validate_image`] on the UTF-8 bytes `b` of an image reference.
pub open spec fn spec_validate_image(b: Seq<u8>) -> Result<(), ValidationErrorView> {
    if b.len() == 0 {
        Err(ValidationErrorView::EmptyField("image"@))
    } else if b.len() > MAX_FIELD_LENGTH {
        Err(ValidationErrorView::MaxLengthExceeded { field: "image"@, max: MAX_FIELD_LENGTH })
    } else if first_forbidden_from(b, 0) is Some {
        Err(ValidationErrorView::InvalidImage(forbidden_message(first_forbidden_from(b, 0)->0)))
    } else if image_name_malformed(b) {
        Err(ValidationErrorView::InvalidImage("name cannot start with dash or dot"@))
    } else {
        Ok(())
    }
}

proof fn lemma_last_colon_bounds(b: Seq<u8>)
    ensures
        -1 <= last_colon(b) < b.len(),
        last_colon(b) >= 0 ==> b[last_colon(b)] == COLON,
    decreases b.len(),
{
    if b.len() > 0 && b.last() != COLON {
        lemma_last_colon_bounds(b.drop_last());
    }
}

/// Byte length of the name part of the image reference in `b`.
fn image_name_length(b: &[u8]) -> (r: usize)
    ensures
        r == image_name_len(b@),
{
    let mut j = b.len();
    assert(b@.take(j as int) =~= b@);
    while j > 0
        invariant
            j <= b@.len(),
            last_colon(b@) == last_colon(b@.take(j as int)),
        decreases j,
    {
        assert(b@.take(j as int).drop_last() =~= b@.take(j - 1));
        if b[j - 1] == COLON {
            return j - 1;
        }
        j = j - 1;
    }
    b.len()
}

/// Validate a container image reference: non-empty, at most
/// [`MAX_FIELD_LENGTH`] bytes, no shell metacharacter, and a name part
/// (the text before the last `:`) that does not start with `-` or `.`.
pub fn validate_image(image: &str) -> (r: Result<(), ValidationError>)
    ensures
        outcome_view(r) == spec_validate_image(image.spec_bytes()),
{
    let b = image.as_bytes();
    if b.len() == 0 {
        return Err(ValidationError::EmptyField("image".to_owned()));
    }
    if b.len() > MAX_FIELD_LENGTH {
        return Err(ValidationError::MaxLengthExceeded { field: "image".to_owned(), max: MAX_FIELD_LENGTH });
    }
    let mut k: usize = 0;
    while k < IMAGE_FORBIDDEN_COUNT
        invariant
            k <= 14,
            b@ == image.spec_bytes(),
            0 < b@.len() <= MAX_FIELD_LENGTH,
            first_forbidden_from(b@, 0) == first_forbidden_from(b@, k as int),
        decreases 14 - k,
    {
        if bytes_contain(b, forbidden_byte(k)) {
            return Err(ValidationError::InvalidImage(forbidden_message_text(k)));
        }
        k = k + 1;
    }
    let name_len = image_name_length(b);
    if name_len > 0 && (b[0] == DASH || b[0] == DOT) {
        return Err(ValidationError::InvalidImage("name cannot start with dash or dot".to_owned()));
    }
    Ok(())
}

/// Whether a character is alphanumeric in Unicode's sense
/// (what `char::is_alphanumeric` reports).
pub uninterp spec fn unicode_alphanumeric(c: char) -> bool;

/// An ASCII letter or digit.
pub open spec fn ascii_alphanumeric(c: char) -> bool {
    ('a' <= c && c <= 'z') || ('A' <= c && c <= 'Z') || ('0' <= c && c <= '9')
}

/// Whether a character is alphanumeric: on ASCII exactly the letters and
/// digits, beyond it as the Unicode table says.
pub open spec fn alphanumeric_char(c: char) -> bool {
    if (c as u32) < 128 {
        ascii_alphanumeric(c)
    } else {
        unicode_alphanumeric(c)
    }
}

/// `char::is_alphanumeric` from std: the character is Alphabetic or
/// Numeric in Unicode. The contract names the result and states the ASCII
/// part of the table (exactly the letters and digits); the rest of the
/// Unicode table is left unstated.
#[verifier::external_body]
fn char_is_alphanumeric(c: char) -> (r: bool)
    ensures
        r == unicode_alphanumeric(c),
        r == alphanumeric_char(c),
{
    c.is_alphanumeric()
}

/// A character that may appear in a model ID.
pub open spec fn model_id_char(c: char) -> bool {
    alphanumeric_char(c) || c == '-' || c == '_' || c == '.'
}

/// A model ID made of ASCII letters, digits, dashes, underscores and dots,
/// non-empty and within [`MAX_FIELD_LENGTH`] bytes, is accepted.
pub proof fn lemma_ascii_model_id_accepted(s: Seq<char>, b: Seq<u8>)
    requires
        s.len() > 0,
        b.len() <= MAX_FIELD_LENGTH,
        forall|i: int|
            0 <= i < s.len() ==> ascii_alphanumeric(#[trigger] s[i]) || s[i] == '-' || s[i] == '_'
                || s[i] == '.',
    ensures
        spec_validate_model_id(s, b) == Ok::<(), ValidationErrorView>(()),
{
    assert forall|i: int| 0 <= i < s.len() implies #[trigger] model_id_char(s[i]) by {
        if ascii_alphanumeric(s[i]) {
            assert((s[i] as u32) < 128);
        }
    }
}

/// Expected outcome of [`validate_model_id`] on a model ID with characters
/// `s` and UTF-8 bytes `b`.
pub open spec fn spec_validate_model_id(s: Seq<char>, b: Seq<u8>) -> Result<(), ValidationErrorView> {
    if s.len() == 0 {
        Err(ValidationErrorView::EmptyField("model_id"@))
    } else if b.len() > MAX_FIELD_LENGTH {
        Err(ValidationErrorView::MaxLengthExceeded { field: "model_id"@, max: MAX_FIELD_LENGTH })
    } else if !(forall|i: int| 0 <= i < s.len() ==> #[trigger] model_id_char(s[i])) {
        Err(ValidationErrorView::InvalidModelId(
            "must contain only alphanumeric characters, dashes, underscores, and dots"@,
        ))
    } else {
        Ok(())
    }
}

/// Validate a model ID: non-empty, at most [`MAX_FIELD_LENGTH`] bytes, and
/// made only of alphanumeric characters, dashes, underscores and dots.
pub fn validate_model_id(model_id: &str) -> (r: Result<(), ValidationError>)
    ensures
        outcome_view(r) == spec_validate_model_id(model_id@, model_id.spec_bytes()),
        r is Ok ==> !model_id@.contains('/') && !model_id@.contains('\\'),
{
    if model_id.is_empty() {
        return Err(ValidationError::EmptyField("model_id".to_owned()));
    }
    if model_id.as_bytes().len() > MAX_FIELD_LENGTH {
        return Err(ValidationError::MaxLengthExceeded { field: "model_id".to_owned(), max: MAX_FIELD_LENGTH });
    }
    let n = model_id.unicode_len();
    let mut i: usize = 0;
    while i < n
        invariant
            n == model_id@.len(),
            n > 0,
            model_id.spec_bytes().len() <= MAX_FIELD_LENGTH,
            i <= n,
            forall|j: int| 0 <= j < i ==> #[trigger] model_id_char(model_id@[j]),
            forall|j: int| 0 <= j < i ==> model_id@[j] != '/' && model_id@[j] != '\\',
        decreases n - i,
    {
        let c = model_id.get_char(i);
        if !(char_is_alphanumeric(c) || c == '-' || c == '_' || c == '.') {
            assert(!model_id_char(model_id@[i as int]));
            return Err(ValidationError::InvalidModelId(
                "must contain only alphanumeric characters, dashes, underscores, and dots".to_owned(),
            ));
        }
        i = i + 1;
    }
    Ok(())
}

/// Expected outcome of [`validate_socket_path`] on a socket path with
/// characters `s` and UTF-8 bytes `b`.
pub open spec fn spec_validate_socket_path(s: Seq<char>, b: Seq<u8>) -> Result<(), ValidationErrorView> {
    if b.len() == 0 {
        Err(ValidationErrorView::EmptyField("socket_path"@))
    } else if b.len() > MAX_PATH_LENGTH {
        Err(ValidationErrorView::MaxLengthExceeded { field: "socket_path"@, max: MAX_PATH_LENGTH })
    } else if b.contains(NUL) {
        Err(ValidationErrorView::InvalidSocketPath("contains null byte"@))
    } else if has_dot_dot(b) {
        Err(ValidationErrorView::PathTraversal("socket_path: "@ + s))
    } else if b[0] != SLASH {
        Err(ValidationErrorView::InvalidSocketPath("must be an absolute path"@))
    } else {
        Ok(())
    }
}

/// Validate a Unix socket path: non-empty, at most [`MAX_PATH_LENGTH`]
/// bytes, no NUL byte, no `..` anywhere, and absolute.
pub fn validate_socket_path(socket_path: &str) -> (r: Result<(), ValidationError>)
    ensures
        outcome_view(r) == spec_validate_socket_path(socket_path@, socket_path.spec_bytes()),
{
    let b = socket_path.as_bytes();
    if b.len() == 0 {
        return Err(ValidationError::EmptyField("socket_path".to_owned()));
    }
    if b.len() > MAX_PATH_LENGTH {
        return Err(ValidationError::MaxLengthExceeded { field: "socket_path".to_owned(), max: MAX_PATH_LENGTH });
    }
    if bytes_contain(b, NUL) {
        return Err(ValidationError::InvalidSocketPath("contains null byte".to_owned()));
    }
    if bytes_have_dot_dot(b) {
        return Err(ValidationError::PathTraversal(concat2("socket_path: ", socket_path)));
    }
    if b[0] != SLASH {
        return Err(ValidationError::InvalidSocketPath("must be an absolute path".to_owned()));
    }
    Ok(())
}

/// Expected outcome of checking a required, length-bounded name field.
pub open spec fn spec_validate_name_field(
    value: Seq<char>,
    field: Seq<char>,
) -> Result<(), ValidationErrorView> {
    if value.len() == 0 {
        Err(ValidationErrorView::EmptyField(field))
    } else if vstd::utf8::encode_utf8(value).len() > MAX_FIELD_LENGTH {
        Err(ValidationErrorView::MaxLengthExceeded { field, max: MAX_FIELD_LENGTH })
    } else {
        Ok(())
    }
}

/// Check a required name field (non-empty, at most [`MAX_FIELD_LENGTH`] bytes).
fn validate_name_field(value: &String, field: &str) -> (r: Result<(), ValidationError>)
    ensures
        outcome_view(r) == spec_validate_name_field(value@, field@),
{
    if value.as_str().is_empty() {
        return Err(ValidationError::EmptyField(field.to_owned()));
    }
    if value.as_str().as_bytes().len() > MAX_FIELD_LENGTH {
        return Err(ValidationError::MaxLengthExceeded { field: field.to_owned(), max: MAX_FIELD_LENGTH });
    }
    Ok(())
}

/// GPU resource specification.
#[derive(Debug, Clone)]
pub struct GpuSpec {
    /// Number of GPUs.
    pub count: u32,
    /// GPU resource type (nvidia.com/gpu, etc).
    pub resource_type: String,
}

/// VeritasRuntime CRD spec.
#[derive(Debug, Clone)]
pub struct VeritasRuntimeSpec {
    /// Number of replicas.
    pub replicas: u32,
    /// Container image.
    pub image: String,
    /// Memory request/limit.
    pub memory: String,
    /// CPU request/limit.
    pub cpu: String,
    /// GPU resources (optional).
    pub gpu: Option<GpuSpec>,
    /// Model volume claim name.
    pub model_pvc: String,
    /// Socket path for IPC.
    pub socket_path: Option<String>,
}

impl VeritasRuntimeSpec {
    /// Expected outcome of [`VeritasRuntimeSpec::validate`]: the image, then
    /// the socket path when present, then the model volume claim name.
    pub open spec fn spec_validate(&self) -> Result<(), ValidationErrorView> {
        let image = spec_validate_image(vstd::utf8::encode_utf8(self.image@));
        if image is Err {
            image
        } else if self.socket_path is Some && spec_validate_socket_path(
            self.socket_path->0@,
            vstd::utf8::encode_utf8(self.socket_path->0@),
        ) is Err {
            spec_validate_socket_path(self.socket_path->0@, vstd::utf8::encode_utf8(self.socket_path->0@))
        } else {
            spec_validate_name_field(self.model_pvc@, "model_pvc"@)
        }
    }

    /// Validate all user-supplied fields of the spec.
    pub fn validate(&self) -> (r: Result<(), ValidationError>)
        ensures
            outcome_view(r) == self.spec_validate(),
    {
        let r = validate_image(self.image.as_str());
        if r.is_err() {
            return r;
        }
        match &self.socket_path {
            Some(p) => {
                let r = validate_socket_path(p.as_str());
                if r.is_err() {
                    return r;
                }
            },
            None => {},
        }
        validate_name_field(&self.model_pvc, "model_pvc")
    }
}

/// Common CRD metadata.
#[derive(Debug, Clone)]
pub struct CrdMetadata {
    pub name: String,
    pub namespace: Option<String>,
    pub labels: Option<HashMap<String, String>>,
}

/// Condition for status reporting.
#[derive(Debug, Clone)]
pub struct Condition {
    pub condition_type: String,
    pub status: String,
    pub reason: Option<String>,
    pub message: Option<String>,
}

/// Runtime status.
#[derive(Debug, Clone)]
pub struct VeritasRuntimeStatus {
    pub ready_replicas: u32,
    pub phase: String,
    pub conditions: Vec<Condition>,
}

/// VeritasRuntime CRD.
#[derive(Debug, Clone)]
pub struct VeritasRuntime {
    pub api_version: String,
    pub kind: String,
    pub metadata: CrdMetadata,
    pub spec: VeritasRuntimeSpec,
    pub status: Option<VeritasRuntimeStatus>,
}

/// Model source location.
#[derive(Debug, Clone)]
pub struct ModelSource {
    /// PVC name containing the model.
    pub pvc: String,
    /// Path within the PVC.
    pub path: String,
}

impl ModelSource {
    /// Expected outcome of [`ModelSource::validate`]: the claim name, then the path.
    pub open spec fn spec_validate(&self) -> Result<(), ValidationErrorView> {
        let pvc = spec_validate_name_field(self.pvc@, "pvc"@);
        if pvc is Err {
            pvc
        } else {
            spec_validate_path(vstd::utf8::encode_utf8(self.path@), "source.path"@)
        }
    }

    /// Validate the model source.
    pub fn validate(&self) -> (r: Result<(), ValidationError>)
        ensures
            outcome_view(r) == self.spec_validate(),
    {
        let r = validate_name_field(&self.pvc, "pvc");
        if r.is_err() {
            return r;
        }
        validate_path(self.path.as_str(), "source.path")
    }
}

/// VeritasModel CRD spec.
#[derive(Debug, Clone)]
pub struct VeritasModelSpec {
    /// Model identifier.
    pub model_id: String,
    /// Model version.
    pub version: String,
    /// Source configuration.
    pub source: ModelSource,
    /// A/B testing variant label.
    pub variant: Option<String>,
    /// Auto-load on startup.
    pub auto_load: bool,
}

impl VeritasModelSpec {
    /// Expected outcome of [`VeritasModelSpec::validate`]: the model ID, the
    /// version (non-empty), the source, then the variant label's length.
    pub open spec fn spec_validate(&self) -> Result<(), ValidationErrorView> {
        let id = spec_validate_model_id(self.model_id@, vstd::utf8::encode_utf8(self.model_id@));
        if id is Err {
            id
        } else if self.version@.len() == 0 {
            Err(ValidationErrorView::EmptyField("version"@))
        } else if self.source.spec_validate() is Err {
            self.source.spec_validate()
        } else if self.variant is Some && vstd::utf8::encode_utf8(self.variant->0@).len() > MAX_FIELD_LENGTH {
            Err(ValidationErrorView::MaxLengthExceeded { field: "variant"@, max: MAX_FIELD_LENGTH })
        } else {
            Ok(())
        }
    }

    /// Validate all user-supplied fields of the spec.
    pub fn validate(&self) -> (r: Result<(), ValidationError>)
        ensures
            outcome_view(r) == self.spec_validate(),
    {
        let r = validate_model_id(self.model_id.as_str());
        if r.is_err() {
            return r;
        }
        if self.version.as_str().is_empty() {
            return Err(ValidationError::EmptyField("version".to_owned()));
        }
        let r = self.source.validate();
        if r.is_err() {
            return r;
        }
        match &self.variant {
            Some(v) => {
                if v.as_str().as_bytes().len() > MAX_FIELD_LENGTH {
                    return Err(ValidationError::MaxLengthExceeded {
                        field: "variant".to_owned(),
                        max: MAX_FIELD_LENGTH,
                    });
                }
            },
            None => {},
        }
        Ok(())
    }
}

/// Model status.
#[derive(Debug, Clone)]
pub struct VeritasModelStatus {
    pub loaded: bool,
    pub phase: String,
    pub conditions: Vec<Condition>,
}

/// VeritasModel CRD.
#[derive(Debug, Clone)]
pub struct VeritasModel {
    pub api_version: String,
    pub kind: String,
    pub metadata: CrdMetadata,
    pub spec: VeritasModelSpec,
    pub status: Option<VeritasModelStatus>,
}

/// A path accepted by [`validate_path`] is non-empty, bounded, free of NUL
/// bytes and has no `..` component.
pub proof fn lemma_accepted_path_is_contained(b: Seq<u8>, field: Seq<char>)
    requires
        spec_validate_path(b, field) is Ok,
    ensures
        0 < b.len() <= MAX_PATH_LENGTH,
        !b.contains(NUL),
        forall|i: int| !parent_component_at(b, i),
{
}

/// A socket path accepted by [`validate_socket_path`] is absolute, free of
/// NUL bytes and has no `..` anywhere.
pub proof fn lemma_accepted_socket_path_is_absolute(s: Seq<char>, b: Seq<u8>)
    requires
        spec_validate_socket_path(s, b) is Ok,
    ensures
        0 < b.len() <= MAX_PATH_LENGTH,
        b[0] == SLASH,
        !b.contains(NUL),
        forall|i: int| !dot_dot_at(b, i),
{
}

/// An image reference accepted by [`validate_image`] contains none of the
/// shell metacharacters.
pub proof fn lemma_accepted_image_has_no_metacharacters(b: Seq<u8>)
    requires
        spec_validate_image(b) is Ok,
    ensures
        forall|k: int| 0 <= k < 14 ==> !b.contains(#[trigger] image_forbidden()[k]),
{
    assert forall|k: int| 0 <= k < 14 implies !b.contains(#[trigger] image_forbidden()[k]) by {
        lemma_first_forbidden_none(b, 0, k);
    }
}

proof fn lemma_first_forbidden_none(b: Seq<u8>, start: int, k: int)
    requires
        0 <= start <= k < 14,
        first_forbidden_from(b, start) is None,
    ensures
        !b.contains(image_forbidden()[k]),
    decreases k - start,
{
    if start < k {
        lemma_first_forbidden_none(b, start + 1, k);
    }
}

/// An accepted runtime spec has an image free of shell metacharacters; a
/// socket path, when it has one, that is non-empty, bounded, absolute, free
/// of NUL bytes and of `..`; and a non-empty model volume claim name.
pub proof fn lemma_accepted_runtime_spec(spec: VeritasRuntimeSpec)
    requires
        spec.spec_validate() is Ok,
    ensures
        forall|k: int|
            0 <= k < 14 ==> !vstd::utf8::encode_utf8(spec.image@).contains(#[trigger] image_forbidden()[k]),
        spec.socket_path matches Some(p) ==> {
            let b = vstd::utf8::encode_utf8(p@);
            &&& 0 < b.len() <= MAX_PATH_LENGTH
            &&& b[0] == SLASH
            &&& !b.contains(NUL)
            &&& forall|i: int| !dot_dot_at(b, i)
        },
        spec.model_pvc@.len() > 0,
{
    lemma_accepted_image_has_no_metacharacters(vstd::utf8::encode_utf8(spec.image@));
    if spec.socket_path is Some {
        let p = spec.socket_path->0;
        lemma_accepted_socket_path_is_absolute(p@, vstd::utf8::encode_utf8(p@));
    }
}

/// An accepted model spec has a valid model ID (non-empty, within the
/// field limit, only alphanumerics, dashes, underscores and dots), a
/// non-empty version, a non-empty claim name and a contained source path.
pub proof fn lemma_accepted_model_spec(spec: VeritasModelSpec)
    requires
        spec.spec_validate() is Ok,
    ensures
        spec.model_id@.len() > 0,
        vstd::utf8::encode_utf8(spec.model_id@).len() <= MAX_FIELD_LENGTH,
        forall|i: int| 0 <= i < spec.model_id@.len() ==> #[trigger] model_id_char(spec.model_id@[i]),
        spec.version@.len() > 0,
        spec.source.pvc@.len() > 0,
        ({
            let b = vstd::utf8::encode_utf8(spec.source.path@);
            &&& 0 < b.len() <= MAX_PATH_LENGTH
            &&& !b.contains(NUL)
            &&& forall|i: int| !parent_component_at(b, i)
        }),
{
    lemma_accepted_path_is_contained(vstd::utf8::encode_utf8(spec.source.path@), "source.path"@);
}

} // verus!
