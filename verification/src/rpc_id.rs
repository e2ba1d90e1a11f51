//! The correlation identifier of a call.

use vstd::prelude::*;
use vstd::string::*;
use crate::json::{get_json_type, json_type_name, json_type_of, Json, JsonNumber, JsonValue};
use crate::request_error::{ParsingErrorModel, RpcRequestParsingError};

verus! {

/// The identifier of a call: a string, a 64-bit signed integer, or null.
#[derive(Debug, Clone, PartialEq, Eq, Hash)]
pub enum RpcId {
    String(String),
    Number(i64),
    Null,
}

/// The mathematical value of an identifier.
pub enum IdModel {
    String(Seq<char>),
    Number(i64),
    Null,
}

impl View for RpcId {
    type V = IdModel;

    open spec fn view(&self) -> IdModel {
        match self {
            RpcId::String(s) => IdModel::String(s@),
            RpcId::Number(n) => IdModel::Number(*n),
            RpcId::Null => IdModel::Null,
        }
    }
}

/// The identifier that a JSON value stands for: a string, a null, or a number
/// that fits `i64`. Any other value stands for none.
pub open spec fn id_of_json(value: Json) -> Option<IdModel> {
    match value {
        Json::String(s) => Some(IdModel::String(s)),
        Json::Number(JsonNumber::Integer(n)) => Some(IdModel::Number(n)),
        Json::Number(JsonNumber::Unsigned(u)) => if u <= i64::MAX {
            Some(IdModel::Number(u as i64))
        } else {
            None
        },
        Json::Null => Some(IdModel::Null),
        _ => None,
    }
}

/// The JSON value that an identifier is written as.
pub open spec fn id_to_json(id: IdModel) -> Json {
    match id {
        IdModel::String(s) => Json::String(s),
        IdModel::Number(n) => Json::Number(JsonNumber::Integer(n)),
        IdModel::Null => Json::Null,
    }
}

/// Why a JSON value is refused as an identifier.
pub open spec fn id_invalid_cause(value: Json) -> Seq<char> {
    if value is Number {
        "Number is not a valid i64"@
    } else {
        "ID must be a String, Number, or Null"@
    }
}

/// The error that reports `value` as no identifier: it names the kind of the
/// value and the cause.
pub open spec fn id_invalid(value: Json) -> ParsingErrorModel {
    ParsingErrorModel::IdInvalid {
        actual: json_type_name(json_type_of(value)),
        cause: id_invalid_cause(value),
    }
}

/// The identifier read from a JSON value, or the error that refuses it.
pub open spec fn parse_id(value: Json) -> Result<IdModel, ParsingErrorModel> {
    match id_of_json(value) {
        Some(id) => Ok(id),
        None => Err(id_invalid(value)),
    }
}

/// The model of the outcome of reading an identifier.
pub open spec fn view_id_result(r: Result<RpcId, RpcRequestParsingError>) -> Result<
    IdModel,
    ParsingErrorModel,
> {
    match r {
        Ok(id) => Ok(id@),
        Err(e) => Err(e@),
    }
}

/// Writing an identifier as JSON and reading it back gives the identifier.
pub proof fn lemma_id_round_trip(id: IdModel)
    ensures
        parse_id(id_to_json(id)) == Ok::<IdModel, ParsingErrorModel>(id),
{
}

/// A boolean, a float, an array or an object is refused as an identifier, and
/// so is an integer above `i64::MAX`; the error is the id-validation error.
pub proof fn lemma_id_refused(value: Json)
    requires
        !(value is String),
        !(value is Null),
        !(value matches Json::Number(JsonNumber::Integer(_))),
        !(value matches Json::Number(JsonNumber::Unsigned(u)) && u <= i64::MAX),
    ensures
        parse_id(value) is Err,
        parse_id(value)->Err_0 is IdInvalid,
{
}

/// The decimal text of a signed integer, as `i64::to_string` writes it.
pub uninterp spec fn decimal_text(n: i64) -> Seq<char>;

/// The text that `data_encoding::BASE64` writes for a byte string.
pub uninterp spec fn base64_text(bytes: Seq<u8>) -> Seq<char>;

/// The text that `data_encoding::BASE64URL_NOPAD` writes for a byte string.
pub uninterp spec fn base64url_nopad_text(bytes: Seq<u8>) -> Seq<char>;

/// The text that `bs58::encode`, with its default alphabet, writes for a byte string.
pub uninterp spec fn base58_text(bytes: Seq<u8>) -> Seq<char>;

/// The lower-case hexadecimal digit of a value below sixteen.
pub open spec fn hex_digit(n: int) -> char {
    seq!['0', '1', '2', '3', '4', '5', '6', '7', '8', '9', 'a', 'b', 'c', 'd', 'e', 'f'][n]
}

/// The bytes of `bytes`, two lower-case hexadecimal digits each.
pub open spec fn hex_text(bytes: Seq<u8>) -> Seq<char>
    decreases bytes.len(),
{
    if bytes.len() == 0 {
        Seq::empty()
    } else {
        hex_text(bytes.drop_last()).push(hex_digit(bytes.last() as int / 16)).push(
            hex_digit(bytes.last() as int % 16),
        )
    }
}

/// The hyphenated text of a UUID of sixteen bytes, in groups of 8, 4, 4, 4 and
/// 12 digits; the empty text for any other length.
pub open spec fn uuid_text(bytes: Seq<u8>) -> Seq<char> {
    if bytes.len() == 16 {
        hex_text(bytes.subrange(0, 4)).push('-') + hex_text(bytes.subrange(4, 6)).push('-')
            + hex_text(bytes.subrange(6, 8)).push('-') + hex_text(bytes.subrange(8, 10)).push('-')
            + hex_text(bytes.subrange(10, 16))
    } else {
        Seq::empty()
    }
}

/// The hexadecimal text of a byte string has two characters for each byte.
pub proof fn lemma_hex_text_len(bytes: Seq<u8>)
    ensures
        hex_text(bytes).len() == 2 * bytes.len(),
    decreases bytes.len(),
{
    if bytes.len() > 0 {
        lemma_hex_text_len(bytes.drop_last());
    }
}

/// The text of a UUID of sixteen bytes has 36 characters, with a hyphen
/// behind the groups of 8, 4, 4 and 4 digits.
pub proof fn lemma_uuid_text_shape(bytes: Seq<u8>)
    requires
        bytes.len() == 16,
    ensures
        uuid_text(bytes).len() == 36,
        uuid_text(bytes)[8] == '-',
        uuid_text(bytes)[13] == '-',
        uuid_text(bytes)[18] == '-',
        uuid_text(bytes)[23] == '-',
{
    lemma_hex_text_len(bytes.subrange(0, 4));
    lemma_hex_text_len(bytes.subrange(4, 6));
    lemma_hex_text_len(bytes.subrange(6, 8));
    lemma_hex_text_len(bytes.subrange(8, 10));
    lemma_hex_text_len(bytes.subrange(10, 16));
}

/// Whether `bytes` has the shape of a UUID of the given version: sixteen
/// bytes, the version in the high half of byte 6, the RFC variant in byte 8.
pub open spec fn is_uuid_of_version(bytes: Seq<u8>, version: int) -> bool {
    &&& bytes.len() == 16
    &&& bytes[6] as int / 16 == version
    &&& bytes[8] as int / 64 == 2
}

/// Which generator an identifier comes from.
#[derive(Debug, Clone, Copy, PartialEq, Eq, Hash)]
pub enum IdSchemeKind {
    UuidV4,
    UuidV7,
}

/// How the generated bytes are written as text.
#[derive(Debug, Clone, Copy, PartialEq, Eq, Hash)]
pub enum IdSchemeEncoding {
    Standard,
    Base64,
    Base64UrlNoPad,
    Base58,
}

/// The text of `bytes` under an encoding.
pub open spec fn encoded_text(enc: IdSchemeEncoding, bytes: Seq<u8>) -> Seq<char> {
    match enc {
        IdSchemeEncoding::Standard => uuid_text(bytes),
        IdSchemeEncoding::Base64 => base64_text(bytes),
        IdSchemeEncoding::Base64UrlNoPad => base64url_nopad_text(bytes),
        IdSchemeEncoding::Base58 => base58_text(bytes),
    }
}

/// The UUID version that a generator produces.
pub open spec fn scheme_version(kind: IdSchemeKind) -> int {
    match kind {
        IdSchemeKind::UuidV4 => 4,
        IdSchemeKind::UuidV7 => 7,
    }
}

/// Calls `uuid::Uuid::new_v4` and hands out its sixteen bytes. The bytes are
/// random but for the version and variant bits, which the crate sets.
#[verifier::external_body]
fn uuid_v4_bytes() -> (r: Vec<u8>)
    ensures
        is_uuid_of_version(r@, 4),
{
    uuid::Uuid::new_v4().as_bytes().to_vec()
}

/// Calls `uuid::Uuid::now_v7` and hands out its sixteen bytes. They depend on
/// the clock and on chance but for the version and variant bits.
#[verifier::external_body]
fn uuid_v7_bytes() -> (r: Vec<u8>)
    ensures
        is_uuid_of_version(r@, 7),
{
    uuid::Uuid::now_v7().as_bytes().to_vec()
}

/// Calls `uuid::Uuid::from_slice` and writes the UUID with `to_string`, which
/// gives its hyphenated lower-case form; a slice of another length than
/// sixteen is refused there and gives the empty text here.
#[verifier::external_body]
fn uuid_hyphenated(bytes: &Vec<u8>) -> (r: String)
    ensures
        r@ == uuid_text(bytes@),
{
    match uuid::Uuid::from_slice(bytes) {
        Ok(u) => u.to_string(),
        Err(_) => String::new(),
    }
}

/// Calls `data_encoding::BASE64.encode`.
#[verifier::external_body]
fn base64_encode(bytes: &Vec<u8>) -> (r: String)
    ensures
        r@ == base64_text(bytes@),
{
    data_encoding::BASE64.encode(bytes)
}

/// Calls `data_encoding::BASE64URL_NOPAD.encode`.
#[verifier::external_body]
fn base64url_nopad_encode(bytes: &Vec<u8>) -> (r: String)
    ensures
        r@ == base64url_nopad_text(bytes@),
{
    data_encoding::BASE64URL_NOPAD.encode(bytes)
}

/// Calls `bs58::encode` and collects the text with `into_string`.
#[verifier::external_body]
fn base58_encode(bytes: &Vec<u8>) -> (r: String)
    ensures
        r@ == base58_text(bytes@),
{
    bs58::encode(bytes).into_string()
}

/// Calls `i64::to_string`.
#[verifier::external_body]
fn i64_to_text(n: i64) -> (r: String)
    ensures
        r@ == decimal_text(n),
{
    n.to_string()
}

impl IdSchemeKind {
    /// Generates the sixteen bytes of a fresh identifier.
    pub fn generate(&self) -> (r: Vec<u8>)
        ensures
            is_uuid_of_version(r@, scheme_version(*self)),
    {
        match self {
            IdSchemeKind::UuidV4 => uuid_v4_bytes(),
            IdSchemeKind::UuidV7 => uuid_v7_bytes(),
        }
    }
}

impl IdSchemeEncoding {
    /// Writes `bytes` as text.
    pub fn encode(&self, bytes: Vec<u8>) -> (r: String)
        ensures
            r@ == encoded_text(*self, bytes@),
    {
        match self {
            IdSchemeEncoding::Standard => uuid_hyphenated(&bytes),
            IdSchemeEncoding::Base64 => base64_encode(&bytes),
            IdSchemeEncoding::Base64UrlNoPad => base64url_nopad_encode(&bytes),
            IdSchemeEncoding::Base58 => base58_encode(&bytes),
        }
    }
}

/// Whether `id` is a string identifier that writes, under `enc`, some UUID of
/// the version that `kind` generates.
pub open spec fn is_generated(id: IdModel, kind: IdSchemeKind, enc: IdSchemeEncoding) -> bool {
    exists|bytes: Seq<u8>|
        #![trigger encoded_text(enc, bytes)]
        is_uuid_of_version(bytes, scheme_version(kind)) && id == IdModel::String(
            encoded_text(enc, bytes),
        )
}

impl RpcId {
    /// A fresh string identifier from a generator and an encoding.
    pub fn from_scheme(kind: IdSchemeKind, enc: IdSchemeEncoding) -> (r: Self)
        ensures
            is_generated(r@, kind, enc),
    {
        let bytes = kind.generate();
        let ghost b = bytes@;
        let s = enc.encode(bytes);
        assert(s@ == encoded_text(enc, b));
        RpcId::String(s)
    }

    /// A fresh version 4 UUID in its hyphenated form.
    pub fn new_uuid_v4() -> (r: Self)
        ensures
            is_generated(r@, IdSchemeKind::UuidV4, IdSchemeEncoding::Standard),
    {
        Self::from_scheme(IdSchemeKind::UuidV4, IdSchemeEncoding::Standard)
    }

    /// A fresh version 4 UUID in base64.
    pub fn new_uuid_v4_base64() -> (r: Self)
        ensures
            is_generated(r@, IdSchemeKind::UuidV4, IdSchemeEncoding::Base64),
    {
        Self::from_scheme(IdSchemeKind::UuidV4, IdSchemeEncoding::Base64)
    }

    /// A fresh version 4 UUID in base64url without padding.
    pub fn new_uuid_v4_base64url() -> (r: Self)
        ensures
            is_generated(r@, IdSchemeKind::UuidV4, IdSchemeEncoding::Base64UrlNoPad),
    {
        Self::from_scheme(IdSchemeKind::UuidV4, IdSchemeEncoding::Base64UrlNoPad)
    }

    /// A fresh version 4 UUID in base58.
    pub fn new_uuid_v4_base58() -> (r: Self)
        ensures
            is_generated(r@, IdSchemeKind::UuidV4, IdSchemeEncoding::Base58),
    {
        Self::from_scheme(IdSchemeKind::UuidV4, IdSchemeEncoding::Base58)
    }

    /// A fresh version 7 UUID in its hyphenated form.
    pub fn new_uuid_v7() -> (r: Self)
        ensures
            is_generated(r@, IdSchemeKind::UuidV7, IdSchemeEncoding::Standard),
    {
        Self::from_scheme(IdSchemeKind::UuidV7, IdSchemeEncoding::Standard)
    }

    /// A fresh version 7 UUID in base64.
    pub fn new_uuid_v7_base64() -> (r: Self)
        ensures
            is_generated(r@, IdSchemeKind::UuidV7, IdSchemeEncoding::Base64),
    {
        Self::from_scheme(IdSchemeKind::UuidV7, IdSchemeEncoding::Base64)
    }

    /// A fresh version 7 UUID in base64url without padding.
    pub fn new_uuid_v7_base64url() -> (r: Self)
        ensures
            is_generated(r@, IdSchemeKind::UuidV7, IdSchemeEncoding::Base64UrlNoPad),
    {
        Self::from_scheme(IdSchemeKind::UuidV7, IdSchemeEncoding::Base64UrlNoPad)
    }

    /// A fresh version 7 UUID in base58.
    pub fn new_uuid_v7_base58() -> (r: Self)
        ensures
            is_generated(r@, IdSchemeKind::UuidV7, IdSchemeEncoding::Base58),
    {
        Self::from_scheme(IdSchemeKind::UuidV7, IdSchemeEncoding::Base58)
    }

    /// Writes the identifier as a JSON value.
    pub fn to_value(&self) -> (r: JsonValue)
        ensures
            r@ == id_to_json(self@),
    {
        match self {
            RpcId::String(s) => JsonValue::String(s.clone()),
            RpcId::Number(n) => JsonValue::Number(JsonNumber::Integer(*n)),
            RpcId::Null => JsonValue::Null,
        }
    }

    /// Reads an identifier from a JSON value: a string, a null, or a number
    /// that fits `i64`. Anything else is refused with `IdInvalid`.
    pub fn from_value(value: JsonValue) -> (r: Result<Self, RpcRequestParsingError>)
        ensures
            view_id_result(r) == parse_id(value@),
    {
        let kind = get_json_type(&value);
        match value {
            JsonValue::String(s) => Ok(RpcId::String(s)),
            JsonValue::Number(JsonNumber::Integer(n)) => Ok(RpcId::Number(n)),
            JsonValue::Number(JsonNumber::Unsigned(u)) => {
                if u <= 0x7fff_ffff_ffff_ffffu64 {
                    Ok(RpcId::Number(u as i64))
                } else {
                    Err(
                        RpcRequestParsingError::IdInvalid {
                            actual: kind.name(),
                            cause: String::from_str("Number is not a valid i64"),
                        },
                    )
                }
            },
            JsonValue::Number(JsonNumber::Float(_)) => Err(
                RpcRequestParsingError::IdInvalid {
                    actual: kind.name(),
                    cause: String::from_str("Number is not a valid i64"),
                },
            ),
            JsonValue::Null => Ok(RpcId::Null),
            _ => Err(
                RpcRequestParsingError::IdInvalid {
                    actual: kind.name(),
                    cause: String::from_str("ID must be a String, Number, or Null"),
                },
            ),
        }
    }

    /// The text a reader sees for this identifier: the string itself, the
    /// number in decimal, or `null`.
    pub fn to_text(&self) -> (r: String)
        ensures
            r@ == id_text(self@),
    {
        match self {
            RpcId::String(s) => s.clone(),
            RpcId::Number(n) => i64_to_text(*n),
            RpcId::Null => String::from_str("null"),
        }
    }
}

/// The text a reader sees for an identifier.
pub open spec fn id_text(id: IdModel) -> Seq<char> {
    match id {
        IdModel::String(s) => s,
        IdModel::Number(n) => decimal_text(n),
        IdModel::Null => "null"@,
    }
}

impl Default for RpcId {
    fn default() -> (r: Self)
        ensures
            r@ == IdModel::Null,
    {
        RpcId::Null
    }
}

impl From<String> for RpcId {
    fn from(s: String) -> (r: Self) {
        RpcId::String(s)
    }
}

impl vstd::std_specs::convert::FromSpecImpl<String> for RpcId {
    open spec fn obeys_from_spec() -> bool {
        true
    }

    open spec fn from_spec(s: String) -> Self {
        RpcId::String(s)
    }
}

impl From<i64> for RpcId {
    fn from(n: i64) -> (r: Self) {
        RpcId::Number(n)
    }
}

impl vstd::std_specs::convert::FromSpecImpl<i64> for RpcId {
    open spec fn obeys_from_spec() -> bool {
        true
    }

    open spec fn from_spec(n: i64) -> Self {
        RpcId::Number(n)
    }
}

impl From<i32> for RpcId {
    fn from(n: i32) -> (r: Self) {
        RpcId::Number(n as i64)
    }
}

impl vstd::std_specs::convert::FromSpecImpl<i32> for RpcId {
    open spec fn obeys_from_spec() -> bool {
        true
    }

    open spec fn from_spec(n: i32) -> Self {
        RpcId::Number(n as i64)
    }
}

impl From<u32> for RpcId {
    fn from(n: u32) -> (r: Self) {
        RpcId::Number(n as i64)
    }
}

impl vstd::std_specs::convert::FromSpecImpl<u32> for RpcId {
    open spec fn obeys_from_spec() -> bool {
        true
    }

    open spec fn from_spec(n: u32) -> Self {
        RpcId::Number(n as i64)
    }
}

impl<'a> From<&'a str> for RpcId {
    fn from(s: &'a str) -> (r: Self)
        ensures
            r@ == IdModel::String(s@),
    {
        RpcId::String(String::from_str(s))
    }
}

impl<'a> vstd::std_specs::convert::FromSpecImpl<&'a str> for RpcId {
    /// The identifier is stated by its model, in the `ensures` of `from`: no
    /// spec function builds a `String`.
    open spec fn obeys_from_spec() -> bool {
        false
    }

    open spec fn from_spec(s: &'a str) -> Self {
        RpcId::String(choose|t: String| t@ == s@)
    }
}

impl RpcId {
    /// The string identifier with this text.
    pub fn from_text(s: &str) -> (r: Self)
        ensures
            r@ == IdModel::String(s@),
    {
        RpcId::String(String::from_str(s))
    }
}

} // verus!
