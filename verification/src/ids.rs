//! Strongly typed identifiers.
//!
//! Every domain identifier is a distinct type over a 128-bit ULID value, so
//! ids of different concepts (a device, a session, a workspace) cannot be
//! mixed up even though they share one representation. The text form is a
//! short prefix naming the concept, an underscore, and the ULID's 26
//! character Crockford base32 text.

use vstd::prelude::*;

use crate::crockford::{base32_digits, base32_value, lemma_digits_len, lemma_digits_round_trip, pow32};
use crate::text::{debug_quoted, str_debug_text, strip_prefix};

verus! {

/// The text of a 128-bit ULID value: its 26 Crockford base32 digits.
pub open spec fn ulid_text(value: u128) -> Seq<char> {
    base32_digits(value as nat, 26)
}

/// The low 128 bits of `n`.
pub open spec fn low_128_bits(n: nat) -> u128 {
    (n % 0x1_0000_0000_0000_0000_0000_0000_0000_0000nat) as u128
}

/// The ULID value a text stands for: 26 Crockford base32 digits, read in
/// either case and kept to their low 128 bits; `None` for any other text.
pub open spec fn ulid_decoded(text: Seq<char>) -> Option<u128> {
    if text.len() == 26 {
        match base32_value(text) {
            Some(n) => Some(low_128_bits(n)),
            None => None,
        }
    } else {
        None
    }
}

/// The text of a ULID value has 26 characters and reads back as that value.
pub proof fn lemma_ulid_round_trip(value: u128)
    ensures
        ulid_text(value).len() == 26,
        ulid_decoded(ulid_text(value)) == Some(value),
{
    reveal_with_fuel(pow32, 27);
    assert(pow32(26) == 0x4_0000_0000_0000_0000_0000_0000_0000_0000int);
    lemma_digits_len(value as nat, 26);
    lemma_digits_round_trip(value as nat, 26);
}

/// Calls `ulid::Ulid::new`: a fresh ULID from the current time and a random
/// source. Nothing is claimed of the value.
#[verifier::external_body]
fn ulid_generate() -> u128 {
    ulid::Ulid::new().0
}

/// Calls `ulid::Ulid::to_string`. Claimed: the text is the 26-digit
/// Crockford base32 text of `value` ([`ulid_text`]), as the crate's
/// `base32::encode_to_array` writes it.
#[verifier::external_body]
fn ulid_encode(value: u128) -> (text: String)
    ensures
        text@ == ulid_text(value),
{
    ulid::Ulid(value).to_string()
}

/// Calls `ulid::Ulid::from_string`. Claimed: it succeeds exactly where
/// [`ulid_decoded`] has a value, as the crate's `base32::decode` reads the
/// text, and then gives that value; its error text is one of the two
/// messages of `ulid::DecodeError`.
#[verifier::external_body]
fn ulid_decode(text: &str) -> (r: Result<u128, String>)
    ensures
        r is Ok <==> ulid_decoded(text@) is Some,
        r matches Ok(v) ==> ulid_decoded(text@) == Some(v),
        r matches Err(e) ==> (e@ == "invalid length"@ || e@ == "invalid character"@),
{
    match ulid::Ulid::from_string(text) {
        Ok(u) => Ok(u.0),
        Err(e) => Err(e.to_string()),
    }
}

/// Error returned when parsing a typed id from its text fails.
#[derive(Debug, Clone, PartialEq, Eq)]
pub enum IdParseError {
    /// The text does not start with the expected `"<prefix>_"`.
    MissingPrefix { expected_prefix: &'static str },
    /// The text after the prefix is not a ULID.
    InvalidUlid(String),
}

/// The `Debug` text of a parse error, as the derived `Debug` writes it.
pub open spec fn id_parse_error_debug(e: IdParseError) -> Seq<char> {
    match e {
        IdParseError::MissingPrefix { expected_prefix } => "MissingPrefix { expected_prefix: "@
            + str_debug_text(expected_prefix@) + " }"@,
        IdParseError::InvalidUlid(message) => "InvalidUlid("@ + str_debug_text(message@) + ")"@,
    }
}

impl IdParseError {
    /// The `Debug` text of this error.
    pub fn debug_text(&self) -> (text: String)
        ensures
            text@ == id_parse_error_debug(*self),
    {
        match self {
            IdParseError::MissingPrefix { expected_prefix } => String::from_str(
                "MissingPrefix { expected_prefix: ",
            ).concat(debug_quoted(expected_prefix).as_str()).concat(" }"),
            IdParseError::InvalidUlid(message) => String::from_str("InvalidUlid(").concat(
                debug_quoted(message.as_str()).as_str(),
            ).concat(")"),
        }
    }
}

/// The text form of an id: `prefix`, an underscore, the ULID text.
pub open spec fn id_text(prefix: Seq<char>, value: u128) -> Seq<char> {
    prefix + "_"@ + ulid_text(value)
}

/// Whether `text` begins with `prefix` followed by an underscore.
pub open spec fn has_id_prefix(prefix: Seq<char>, text: Seq<char>) -> bool {
    let p = prefix + "_"@;
    p.len() <= text.len() && text.subrange(0, p.len() as int) == p
}

/// The ULID part of `text` after `prefix` and the underscore.
pub open spec fn id_body(prefix: Seq<char>, text: Seq<char>) -> Seq<char> {
    text.subrange(prefix.len() as int + 1, text.len() as int)
}

/// What parsing `text` as an id with `prefix` yields, as a value: the ULID
/// value, or `None` with the reason given by [`IdParseError`].
pub open spec fn parsed_id_value(prefix: Seq<char>, text: Seq<char>) -> Option<u128> {
    if has_id_prefix(prefix, text) {
        ulid_decoded(id_body(prefix, text))
    } else {
        None
    }
}

/// Writes `prefix_<ulid>`.
fn format_id(prefix: &str, value: u128) -> (text: String)
    ensures
        text@ == id_text(prefix@, value),
        has_id_prefix(prefix@, text@),
        parsed_id_value(prefix@, text@) == Some(value),
{
    let text = String::from_str(prefix);
    let text = text.concat("_");
    let body = ulid_encode(value);
    let text = text.concat(body.as_str());
    proof {
        lemma_id_text_round_trip(prefix@, value);
    }
    text
}

/// Reads `prefix_<ulid>`.
fn parse_id(prefix: &'static str, text: &str) -> (r: Result<u128, IdParseError>)
    ensures
        !has_id_prefix(prefix@, text@) ==> r == Err::<u128, IdParseError>(
            IdParseError::MissingPrefix { expected_prefix: prefix },
        ),
        has_id_prefix(prefix@, text@) ==> (r is Ok <==> ulid_decoded(id_body(prefix@, text@)) is Some),
        r matches Ok(v) ==> parsed_id_value(prefix@, text@) == Some(v),
        has_id_prefix(prefix@, text@) && r is Err ==> r->Err_0 is InvalidUlid,
{
    let full = String::from_str(prefix).concat("_");
    proof {
        reveal_strlit("_");
        assert(full@ == prefix@ + "_"@);
    }
    match strip_prefix(text, full.as_str()) {
        None => Err(IdParseError::MissingPrefix { expected_prefix: prefix }),
        Some(body) => {
            proof {
                reveal_strlit("_");
                assert(id_body(prefix@, text@) == body@);
            }
            match ulid_decode(body) {
                Ok(v) => Ok(v),
                Err(e) => Err(IdParseError::InvalidUlid(e)),
            }
        },
    }
}

/// Reading back the text of an id gives the same value.
pub proof fn lemma_id_text_round_trip(prefix: Seq<char>, value: u128)
    ensures
        has_id_prefix(prefix, id_text(prefix, value)),
        id_body(prefix, id_text(prefix, value)) == ulid_text(value),
        parsed_id_value(prefix, id_text(prefix, value)) == Some(value),
{
    reveal_strlit("_");
    lemma_ulid_round_trip(value);
    let t = id_text(prefix, value);
    let p = prefix + "_"@;
    assert(t.subrange(0, p.len() as int) =~= p);
    assert(id_body(prefix, t) =~= ulid_text(value));
}

/// A `dev_`-prefixed identifier.
#[derive(Debug, Clone, Copy, PartialEq, Eq, Structural, PartialOrd, Ord, Hash)]
pub struct DeviceId {
    value: u128,
}

impl DeviceId {
    /// The text prefix of this kind of id.
    pub const PREFIX: &'static str = "dev";

    /// The ULID value of this id.
    pub closed spec fn value(self) -> u128 {
        self.value
    }

    /// Ids with the same value are the same id.
    pub proof fn lemma_value_determines(a: DeviceId, b: DeviceId)
        ensures
            a.value() == b.value() <==> a == b,
    {
    }

    /// Generates a new, time-sortable id.
    pub fn new() -> (id: DeviceId) {
        DeviceId { value: ulid_generate() }
    }

    /// The id whose ULID value is `value`.
    pub closed spec fn spec_from_value(value: u128) -> DeviceId {
        DeviceId { value }
    }

    /// The id built from a value has that value.
    pub proof fn lemma_from_value(value: u128)
        ensures
            DeviceId::spec_from_value(value).value() == value,
    {
    }

    /// Wraps an existing ULID value without generating a new one.
    pub fn from_ulid(value: u128) -> (id: DeviceId)
        ensures
            id.value() == value,
            id == DeviceId::spec_from_value(value),
    {
        DeviceId { value }
    }

    /// The ULID value of this id.
    pub fn as_ulid(&self) -> (value: u128)
        ensures
            value == self.value(),
    {
        self.value
    }

    /// The text form, `dev_<ulid>`.
    pub fn to_string(&self) -> (text: String)
        ensures
            text@ == id_text("dev"@, self.value()),
            has_id_prefix("dev"@, text@),
            parsed_id_value("dev"@, text@) == Some(self.value()),
    {
        format_id("dev", self.value)
    }

    /// Parses the text form `dev_<ulid>`.
    pub fn parse(text: &str) -> (r: Result<DeviceId, IdParseError>)
        ensures
            !has_id_prefix("dev"@, text@) ==> r == Err::<DeviceId, IdParseError>(
                IdParseError::MissingPrefix { expected_prefix: "dev" },
            ),
            has_id_prefix("dev"@, text@) ==> (r is Ok <==> ulid_decoded(
                id_body("dev"@, text@),
            ) is Some),
            r matches Ok(id) ==> parsed_id_value("dev"@, text@) == Some(id.value()),
            has_id_prefix("dev"@, text@) && r is Err ==> r->Err_0 is InvalidUlid,
    {
        match parse_id("dev", text) {
            Ok(value) => Ok(DeviceId { value }),
            Err(e) => Err(e),
        }
    }

}

impl Default for DeviceId {
    fn default() -> Self {
        DeviceId::new()
    }
}

impl std::str::FromStr for DeviceId {
    type Err = IdParseError;

    fn from_str(text: &str) -> (r: Result<DeviceId, IdParseError>)
        ensures
            !has_id_prefix("dev"@, text@) ==> r == Err::<DeviceId, IdParseError>(
                IdParseError::MissingPrefix { expected_prefix: "dev" },
            ),
            has_id_prefix("dev"@, text@) ==> (r is Ok <==> ulid_decoded(
                id_body("dev"@, text@),
            ) is Some),
            r matches Ok(id) ==> parsed_id_value("dev"@, text@) == Some(id.value()),
            has_id_prefix("dev"@, text@) && r is Err ==> r->Err_0 is InvalidUlid,
    {
        DeviceId::parse(text)
    }
}

/// A `acct_`-prefixed identifier.
#[derive(Debug, Clone, Copy, PartialEq, Eq, Structural, PartialOrd, Ord, Hash)]
pub struct AccountId {
    value: u128,
}

impl AccountId {
    /// The text prefix of this kind of id.
    pub const PREFIX: &'static str = "acct";

    /// The ULID value of this id.
    pub closed spec fn value(self) -> u128 {
        self.value
    }

    /// Ids with the same value are the same id.
    pub proof fn lemma_value_determines(a: AccountId, b: AccountId)
        ensures
            a.value() == b.value() <==> a == b,
    {
    }

    /// Generates a new, time-sortable id.
    pub fn new() -> (id: AccountId) {
        AccountId { value: ulid_generate() }
    }

    /// The id whose ULID value is `value`.
    pub closed spec fn spec_from_value(value: u128) -> AccountId {
        AccountId { value }
    }

    /// The id built from a value has that value.
    pub proof fn lemma_from_value(value: u128)
        ensures
            AccountId::spec_from_value(value).value() == value,
    {
    }

    /// Wraps an existing ULID value without generating a new one.
    pub fn from_ulid(value: u128) -> (id: AccountId)
        ensures
            id.value() == value,
            id == AccountId::spec_from_value(value),
    {
        AccountId { value }
    }

    /// The ULID value of this id.
    pub fn as_ulid(&self) -> (value: u128)
        ensures
            value == self.value(),
    {
        self.value
    }

    /// The text form, `acct_<ulid>`.
    pub fn to_string(&self) -> (text: String)
        ensures
            text@ == id_text("acct"@, self.value()),
            has_id_prefix("acct"@, text@),
            parsed_id_value("acct"@, text@) == Some(self.value()),
    {
        format_id("acct", self.value)
    }

    /// Parses the text form `acct_<ulid>`.
    pub fn parse(text: &str) -> (r: Result<AccountId, IdParseError>)
        ensures
            !has_id_prefix("acct"@, text@) ==> r == Err::<AccountId, IdParseError>(
                IdParseError::MissingPrefix { expected_prefix: "acct" },
            ),
            has_id_prefix("acct"@, text@) ==> (r is Ok <==> ulid_decoded(
                id_body("acct"@, text@),
            ) is Some),
            r matches Ok(id) ==> parsed_id_value("acct"@, text@) == Some(id.value()),
            has_id_prefix("acct"@, text@) && r is Err ==> r->Err_0 is InvalidUlid,
    {
        match parse_id("acct", text) {
            Ok(value) => Ok(AccountId { value }),
            Err(e) => Err(e),
        }
    }

}

impl Default for AccountId {
    fn default() -> Self {
        AccountId::new()
    }
}

impl std::str::FromStr for AccountId {
    type Err = IdParseError;

    fn from_str(text: &str) -> (r: Result<AccountId, IdParseError>)
        ensures
            !has_id_prefix("acct"@, text@) ==> r == Err::<AccountId, IdParseError>(
                IdParseError::MissingPrefix { expected_prefix: "acct" },
            ),
            has_id_prefix("acct"@, text@) ==> (r is Ok <==> ulid_decoded(
                id_body("acct"@, text@),
            ) is Some),
            r matches Ok(id) ==> parsed_id_value("acct"@, text@) == Some(id.value()),
            has_id_prefix("acct"@, text@) && r is Err ==> r->Err_0 is InvalidUlid,
    {
        AccountId::parse(text)
    }
}

/// A `ws_`-prefixed identifier.
#[derive(Debug, Clone, Copy, PartialEq, Eq, Structural, PartialOrd, Ord, Hash)]
pub struct WorkspaceId {
    value: u128,
}

impl WorkspaceId {
    /// The text prefix of this kind of id.
    pub const PREFIX: &'static str = "ws";

    /// The ULID value of this id.
    pub closed spec fn value(self) -> u128 {
        self.value
    }

    /// Ids with the same value are the same id.
    pub proof fn lemma_value_determines(a: WorkspaceId, b: WorkspaceId)
        ensures
            a.value() == b.value() <==> a == b,
    {
    }

    /// Generates a new, time-sortable id.
    pub fn new() -> (id: WorkspaceId) {
        WorkspaceId { value: ulid_generate() }
    }

    /// The id whose ULID value is `value`.
    pub closed spec fn spec_from_value(value: u128) -> WorkspaceId {
        WorkspaceId { value }
    }

    /// The id built from a value has that value.
    pub proof fn lemma_from_value(value: u128)
        ensures
            WorkspaceId::spec_from_value(value).value() == value,
    {
    }

    /// Wraps an existing ULID value without generating a new one.
    pub fn from_ulid(value: u128) -> (id: WorkspaceId)
        ensures
            id.value() == value,
            id == WorkspaceId::spec_from_value(value),
    {
        WorkspaceId { value }
    }

    /// The ULID value of this id.
    pub fn as_ulid(&self) -> (value: u128)
        ensures
            value == self.value(),
    {
        self.value
    }

    /// The text form, `ws_<ulid>`.
    pub fn to_string(&self) -> (text: String)
        ensures
            text@ == id_text("ws"@, self.value()),
            has_id_prefix("ws"@, text@),
            parsed_id_value("ws"@, text@) == Some(self.value()),
    {
        format_id("ws", self.value)
    }

    /// Parses the text form `ws_<ulid>`.
    pub fn parse(text: &str) -> (r: Result<WorkspaceId, IdParseError>)
        ensures
            !has_id_prefix("ws"@, text@) ==> r == Err::<WorkspaceId, IdParseError>(
                IdParseError::MissingPrefix { expected_prefix: "ws" },
            ),
            has_id_prefix("ws"@, text@) ==> (r is Ok <==> ulid_decoded(
                id_body("ws"@, text@),
            ) is Some),
            r matches Ok(id) ==> parsed_id_value("ws"@, text@) == Some(id.value()),
            has_id_prefix("ws"@, text@) && r is Err ==> r->Err_0 is InvalidUlid,
    {
        match parse_id("ws", text) {
            Ok(value) => Ok(WorkspaceId { value }),
            Err(e) => Err(e),
        }
    }

}

impl Default for WorkspaceId {
    fn default() -> Self {
        WorkspaceId::new()
    }
}

impl std::str::FromStr for WorkspaceId {
    type Err = IdParseError;

    fn from_str(text: &str) -> (r: Result<WorkspaceId, IdParseError>)
        ensures
            !has_id_prefix("ws"@, text@) ==> r == Err::<WorkspaceId, IdParseError>(
                IdParseError::MissingPrefix { expected_prefix: "ws" },
            ),
            has_id_prefix("ws"@, text@) ==> (r is Ok <==> ulid_decoded(
                id_body("ws"@, text@),
            ) is Some),
            r matches Ok(id) ==> parsed_id_value("ws"@, text@) == Some(id.value()),
            has_id_prefix("ws"@, text@) && r is Err ==> r->Err_0 is InvalidUlid,
    {
        WorkspaceId::parse(text)
    }
}

/// A `sess_`-prefixed identifier.
#[derive(Debug, Clone, Copy, PartialEq, Eq, Structural, PartialOrd, Ord, Hash)]
pub struct SessionId {
    value: u128,
}

impl SessionId {
    /// The text prefix of this kind of id.
    pub const PREFIX: &'static str = "sess";

    /// The ULID value of this id.
    pub closed spec fn value(self) -> u128 {
        self.value
    }

    /// Ids with the same value are the same id.
    pub proof fn lemma_value_determines(a: SessionId, b: SessionId)
        ensures
            a.value() == b.value() <==> a == b,
    {
    }

    /// Generates a new, time-sortable id.
    pub fn new() -> (id: SessionId) {
        SessionId { value: ulid_generate() }
    }

    /// The id whose ULID value is `value`.
    pub closed spec fn spec_from_value(value: u128) -> SessionId {
        SessionId { value }
    }

    /// The id built from a value has that value.
    pub proof fn lemma_from_value(value: u128)
        ensures
            SessionId::spec_from_value(value).value() == value,
    {
    }

    /// Wraps an existing ULID value without generating a new one.
    pub fn from_ulid(value: u128) -> (id: SessionId)
        ensures
            id.value() == value,
            id == SessionId::spec_from_value(value),
    {
        SessionId { value }
    }

    /// The ULID value of this id.
    pub fn as_ulid(&self) -> (value: u128)
        ensures
            value == self.value(),
    {
        self.value
    }

    /// The text form, `sess_<ulid>`.
    pub fn to_string(&self) -> (text: String)
        ensures
            text@ == id_text("sess"@, self.value()),
            has_id_prefix("sess"@, text@),
            parsed_id_value("sess"@, text@) == Some(self.value()),
    {
        format_id("sess", self.value)
    }

    /// Parses the text form `sess_<ulid>`.
    pub fn parse(text: &str) -> (r: Result<SessionId, IdParseError>)
        ensures
            !has_id_prefix("sess"@, text@) ==> r == Err::<SessionId, IdParseError>(
                IdParseError::MissingPrefix { expected_prefix: "sess" },
            ),
            has_id_prefix("sess"@, text@) ==> (r is Ok <==> ulid_decoded(
                id_body("sess"@, text@),
            ) is Some),
            r matches Ok(id) ==> parsed_id_value("sess"@, text@) == Some(id.value()),
            has_id_prefix("sess"@, text@) && r is Err ==> r->Err_0 is InvalidUlid,
    {
        match parse_id("sess", text) {
            Ok(value) => Ok(SessionId { value }),
            Err(e) => Err(e),
        }
    }

}

impl Default for SessionId {
    fn default() -> Self {
        SessionId::new()
    }
}

impl std::str::FromStr for SessionId {
    type Err = IdParseError;

    fn from_str(text: &str) -> (r: Result<SessionId, IdParseError>)
        ensures
            !has_id_prefix("sess"@, text@) ==> r == Err::<SessionId, IdParseError>(
                IdParseError::MissingPrefix { expected_prefix: "sess" },
            ),
            has_id_prefix("sess"@, text@) ==> (r is Ok <==> ulid_decoded(
                id_body("sess"@, text@),
            ) is Some),
            r matches Ok(id) ==> parsed_id_value("sess"@, text@) == Some(id.value()),
            has_id_prefix("sess"@, text@) && r is Err ==> r->Err_0 is InvalidUlid,
    {
        SessionId::parse(text)
    }
}

/// A `grant_`-prefixed identifier.
#[derive(Debug, Clone, Copy, PartialEq, Eq, Structural, PartialOrd, Ord, Hash)]
pub struct GrantId {
    value: u128,
}

impl GrantId {
    /// The text prefix of this kind of id.
    pub const PREFIX: &'static str = "grant";

    /// The ULID value of this id.
    pub closed spec fn value(self) -> u128 {
        self.value
    }

    /// Ids with the same value are the same id.
    pub proof fn lemma_value_determines(a: GrantId, b: GrantId)
        ensures
            a.value() == b.value() <==> a == b,
    {
    }

    /// Generates a new, time-sortable id.
    pub fn new() -> (id: GrantId) {
        GrantId { value: ulid_generate() }
    }

    /// The id whose ULID value is `value`.
    pub closed spec fn spec_from_value(value: u128) -> GrantId {
        GrantId { value }
    }

    /// The id built from a value has that value.
    pub proof fn lemma_from_value(value: u128)
        ensures
            GrantId::spec_from_value(value).value() == value,
    {
    }

    /// Wraps an existing ULID value without generating a new one.
    pub fn from_ulid(value: u128) -> (id: GrantId)
        ensures
            id.value() == value,
            id == GrantId::spec_from_value(value),
    {
        GrantId { value }
    }

    /// The ULID value of this id.
    pub fn as_ulid(&self) -> (value: u128)
        ensures
            value == self.value(),
    {
        self.value
    }

    /// The text form, `grant_<ulid>`.
    pub fn to_string(&self) -> (text: String)
        ensures
            text@ == id_text("grant"@, self.value()),
            has_id_prefix("grant"@, text@),
            parsed_id_value("grant"@, text@) == Some(self.value()),
    {
        format_id("grant", self.value)
    }

    /// Parses the text form `grant_<ulid>`.
    pub fn parse(text: &str) -> (r: Result<GrantId, IdParseError>)
        ensures
            !has_id_prefix("grant"@, text@) ==> r == Err::<GrantId, IdParseError>(
                IdParseError::MissingPrefix { expected_prefix: "grant" },
            ),
            has_id_prefix("grant"@, text@) ==> (r is Ok <==> ulid_decoded(
                id_body("grant"@, text@),
            ) is Some),
            r matches Ok(id) ==> parsed_id_value("grant"@, text@) == Some(id.value()),
            has_id_prefix("grant"@, text@) && r is Err ==> r->Err_0 is InvalidUlid,
    {
        match parse_id("grant", text) {
            Ok(value) => Ok(GrantId { value }),
            Err(e) => Err(e),
        }
    }

}

impl Default for GrantId {
    fn default() -> Self {
        GrantId::new()
    }
}

impl std::str::FromStr for GrantId {
    type Err = IdParseError;

    fn from_str(text: &str) -> (r: Result<GrantId, IdParseError>)
        ensures
            !has_id_prefix("grant"@, text@) ==> r == Err::<GrantId, IdParseError>(
                IdParseError::MissingPrefix { expected_prefix: "grant" },
            ),
            has_id_prefix("grant"@, text@) ==> (r is Ok <==> ulid_decoded(
                id_body("grant"@, text@),
            ) is Some),
            r matches Ok(id) ==> parsed_id_value("grant"@, text@) == Some(id.value()),
            has_id_prefix("grant"@, text@) && r is Err ==> r->Err_0 is InvalidUlid,
    {
        GrantId::parse(text)
    }
}

/// A `lease_`-prefixed identifier.
#[derive(Debug, Clone, Copy, PartialEq, Eq, Structural, PartialOrd, Ord, Hash)]
pub struct LeaseId {
    value: u128,
}

impl LeaseId {
    /// The text prefix of this kind of id.
    pub const PREFIX: &'static str = "lease";

    /// The ULID value of this id.
    pub closed spec fn value(self) -> u128 {
        self.value
    }

    /// Ids with the same value are the same id.
    pub proof fn lemma_value_determines(a: LeaseId, b: LeaseId)
        ensures
            a.value() == b.value() <==> a == b,
    {
    }

    /// Generates a new, time-sortable id.
    pub fn new() -> (id: LeaseId) {
        LeaseId { value: ulid_generate() }
    }

    /// The id whose ULID value is `value`.
    pub closed spec fn spec_from_value(value: u128) -> LeaseId {
        LeaseId { value }
    }

    /// The id built from a value has that value.
    pub proof fn lemma_from_value(value: u128)
        ensures
            LeaseId::spec_from_value(value).value() == value,
    {
    }

    /// Wraps an existing ULID value without generating a new one.
    pub fn from_ulid(value: u128) -> (id: LeaseId)
        ensures
            id.value() == value,
            id == LeaseId::spec_from_value(value),
    {
        LeaseId { value }
    }

    /// The ULID value of this id.
    pub fn as_ulid(&self) -> (value: u128)
        ensures
            value == self.value(),
    {
        self.value
    }

    /// The text form, `lease_<ulid>`.
    pub fn to_string(&self) -> (text: String)
        ensures
            text@ == id_text("lease"@, self.value()),
            has_id_prefix("lease"@, text@),
            parsed_id_value("lease"@, text@) == Some(self.value()),
    {
        format_id("lease", self.value)
    }

    /// Parses the text form `lease_<ulid>`.
    pub fn parse(text: &str) -> (r: Result<LeaseId, IdParseError>)
        ensures
            !has_id_prefix("lease"@, text@) ==> r == Err::<LeaseId, IdParseError>(
                IdParseError::MissingPrefix { expected_prefix: "lease" },
            ),
            has_id_prefix("lease"@, text@) ==> (r is Ok <==> ulid_decoded(
                id_body("lease"@, text@),
            ) is Some),
            r matches Ok(id) ==> parsed_id_value("lease"@, text@) == Some(id.value()),
            has_id_prefix("lease"@, text@) && r is Err ==> r->Err_0 is InvalidUlid,
    {
        match parse_id("lease", text) {
            Ok(value) => Ok(LeaseId { value }),
            Err(e) => Err(e),
        }
    }

}

impl Default for LeaseId {
    fn default() -> Self {
        LeaseId::new()
    }
}

impl std::str::FromStr for LeaseId {
    type Err = IdParseError;

    fn from_str(text: &str) -> (r: Result<LeaseId, IdParseError>)
        ensures
            !has_id_prefix("lease"@, text@) ==> r == Err::<LeaseId, IdParseError>(
                IdParseError::MissingPrefix { expected_prefix: "lease" },
            ),
            has_id_prefix("lease"@, text@) ==> (r is Ok <==> ulid_decoded(
                id_body("lease"@, text@),
            ) is Some),
            r matches Ok(id) ==> parsed_id_value("lease"@, text@) == Some(id.value()),
            has_id_prefix("lease"@, text@) && r is Err ==> r->Err_0 is InvalidUlid,
    {
        LeaseId::parse(text)
    }
}

/// A `task_`-prefixed identifier.
#[derive(Debug, Clone, Copy, PartialEq, Eq, Structural, PartialOrd, Ord, Hash)]
pub struct TaskId {
    value: u128,
}

impl TaskId {
    /// The text prefix of this kind of id.
    pub const PREFIX: &'static str = "task";

    /// The ULID value of this id.
    pub closed spec fn value(self) -> u128 {
        self.value
    }

    /// Ids with the same value are the same id.
    pub proof fn lemma_value_determines(a: TaskId, b: TaskId)
        ensures
            a.value() == b.value() <==> a == b,
    {
    }

    /// Generates a new, time-sortable id.
    pub fn new() -> (id: TaskId) {
        TaskId { value: ulid_generate() }
    }

    /// The id whose ULID value is `value`.
    pub closed spec fn spec_from_value(value: u128) -> TaskId {
        TaskId { value }
    }

    /// The id built from a value has that value.
    pub proof fn lemma_from_value(value: u128)
        ensures
            TaskId::spec_from_value(value).value() == value,
    {
    }

    /// Wraps an existing ULID value without generating a new one.
    pub fn from_ulid(value: u128) -> (id: TaskId)
        ensures
            id.value() == value,
            id == TaskId::spec_from_value(value),
    {
        TaskId { value }
    }

    /// The ULID value of this id.
    pub fn as_ulid(&self) -> (value: u128)
        ensures
            value == self.value(),
    {
        self.value
    }

    /// The text form, `task_<ulid>`.
    pub fn to_string(&self) -> (text: String)
        ensures
            text@ == id_text("task"@, self.value()),
            has_id_prefix("task"@, text@),
            parsed_id_value("task"@, text@) == Some(self.value()),
    {
        format_id("task", self.value)
    }

    /// Parses the text form `task_<ulid>`.
    pub fn parse(text: &str) -> (r: Result<TaskId, IdParseError>)
        ensures
            !has_id_prefix("task"@, text@) ==> r == Err::<TaskId, IdParseError>(
                IdParseError::MissingPrefix { expected_prefix: "task" },
            ),
            has_id_prefix("task"@, text@) ==> (r is Ok <==> ulid_decoded(
                id_body("task"@, text@),
            ) is Some),
            r matches Ok(id) ==> parsed_id_value("task"@, text@) == Some(id.value()),
            has_id_prefix("task"@, text@) && r is Err ==> r->Err_0 is InvalidUlid,
    {
        match parse_id("task", text) {
            Ok(value) => Ok(TaskId { value }),
            Err(e) => Err(e),
        }
    }

}

impl Default for TaskId {
    fn default() -> Self {
        TaskId::new()
    }
}

impl std::str::FromStr for TaskId {
    type Err = IdParseError;

    fn from_str(text: &str) -> (r: Result<TaskId, IdParseError>)
        ensures
            !has_id_prefix("task"@, text@) ==> r == Err::<TaskId, IdParseError>(
                IdParseError::MissingPrefix { expected_prefix: "task" },
            ),
            has_id_prefix("task"@, text@) ==> (r is Ok <==> ulid_decoded(
                id_body("task"@, text@),
            ) is Some),
            r matches Ok(id) ==> parsed_id_value("task"@, text@) == Some(id.value()),
            has_id_prefix("task"@, text@) && r is Err ==> r->Err_0 is InvalidUlid,
    {
        TaskId::parse(text)
    }
}

/// A `op_`-prefixed identifier.
#[derive(Debug, Clone, Copy, PartialEq, Eq, Structural, PartialOrd, Ord, Hash)]
pub struct OperationId {
    value: u128,
}

impl OperationId {
    /// The text prefix of this kind of id.
    pub const PREFIX: &'static str = "op";

    /// The ULID value of this id.
    pub closed spec fn value(self) -> u128 {
        self.value
    }

    /// Ids with the same value are the same id.
    pub proof fn lemma_value_determines(a: OperationId, b: OperationId)
        ensures
            a.value() == b.value() <==> a == b,
    {
    }

    /// Generates a new, time-sortable id.
    pub fn new() -> (id: OperationId) {
        OperationId { value: ulid_generate() }
    }

    /// The id whose ULID value is `value`.
    pub closed spec fn spec_from_value(value: u128) -> OperationId {
        OperationId { value }
    }

    /// The id built from a value has that value.
    pub proof fn lemma_from_value(value: u128)
        ensures
            OperationId::spec_from_value(value).value() == value,
    {
    }

    /// Wraps an existing ULID value without generating a new one.
    pub fn from_ulid(value: u128) -> (id: OperationId)
        ensures
            id.value() == value,
            id == OperationId::spec_from_value(value),
    {
        OperationId { value }
    }

    /// The ULID value of this id.
    pub fn as_ulid(&self) -> (value: u128)
        ensures
            value == self.value(),
    {
        self.value
    }

    /// The text form, `op_<ulid>`.
    pub fn to_string(&self) -> (text: String)
        ensures
            text@ == id_text("op"@, self.value()),
            has_id_prefix("op"@, text@),
            parsed_id_value("op"@, text@) == Some(self.value()),
    {
        format_id("op", self.value)
    }

    /// Parses the text form `op_<ulid>`.
    pub fn parse(text: &str) -> (r: Result<OperationId, IdParseError>)
        ensures
            !has_id_prefix("op"@, text@) ==> r == Err::<OperationId, IdParseError>(
                IdParseError::MissingPrefix { expected_prefix: "op" },
            ),
            has_id_prefix("op"@, text@) ==> (r is Ok <==> ulid_decoded(
                id_body("op"@, text@),
            ) is Some),
            r matches Ok(id) ==> parsed_id_value("op"@, text@) == Some(id.value()),
            has_id_prefix("op"@, text@) && r is Err ==> r->Err_0 is InvalidUlid,
    {
        match parse_id("op", text) {
            Ok(value) => Ok(OperationId { value }),
            Err(e) => Err(e),
        }
    }

}

impl Default for OperationId {
    fn default() -> Self {
        OperationId::new()
    }
}

impl std::str::FromStr for OperationId {
    type Err = IdParseError;

    fn from_str(text: &str) -> (r: Result<OperationId, IdParseError>)
        ensures
            !has_id_prefix("op"@, text@) ==> r == Err::<OperationId, IdParseError>(
                IdParseError::MissingPrefix { expected_prefix: "op" },
            ),
            has_id_prefix("op"@, text@) ==> (r is Ok <==> ulid_decoded(
                id_body("op"@, text@),
            ) is Some),
            r matches Ok(id) ==> parsed_id_value("op"@, text@) == Some(id.value()),
            has_id_prefix("op"@, text@) && r is Err ==> r->Err_0 is InvalidUlid,
    {
        OperationId::parse(text)
    }
}

/// A `chk_`-prefixed identifier.
#[derive(Debug, Clone, Copy, PartialEq, Eq, Structural, PartialOrd, Ord, Hash)]
pub struct CheckpointId {
    value: u128,
}

impl CheckpointId {
    /// The text prefix of this kind of id.
    pub const PREFIX: &'static str = "chk";

    /// The ULID value of this id.
    pub closed spec fn value(self) -> u128 {
        self.value
    }

    /// Ids with the same value are the same id.
    pub proof fn lemma_value_determines(a: CheckpointId, b: CheckpointId)
        ensures
            a.value() == b.value() <==> a == b,
    {
    }

    /// Generates a new, time-sortable id.
    pub fn new() -> (id: CheckpointId) {
        CheckpointId { value: ulid_generate() }
    }

    /// The id whose ULID value is `value`.
    pub closed spec fn spec_from_value(value: u128) -> CheckpointId {
        CheckpointId { value }
    }

    /// The id built from a value has that value.
    pub proof fn lemma_from_value(value: u128)
        ensures
            CheckpointId::spec_from_value(value).value() == value,
    {
    }

    /// Wraps an existing ULID value without generating a new one.
    pub fn from_ulid(value: u128) -> (id: CheckpointId)
        ensures
            id.value() == value,
            id == CheckpointId::spec_from_value(value),
    {
        CheckpointId { value }
    }

    /// The ULID value of this id.
    pub fn as_ulid(&self) -> (value: u128)
        ensures
            value == self.value(),
    {
        self.value
    }

    /// The text form, `chk_<ulid>`.
    pub fn to_string(&self) -> (text: String)
        ensures
            text@ == id_text("chk"@, self.value()),
            has_id_prefix("chk"@, text@),
            parsed_id_value("chk"@, text@) == Some(self.value()),
    {
        format_id("chk", self.value)
    }

    /// Parses the text form `chk_<ulid>`.
    pub fn parse(text: &str) -> (r: Result<CheckpointId, IdParseError>)
        ensures
            !has_id_prefix("chk"@, text@) ==> r == Err::<CheckpointId, IdParseError>(
                IdParseError::MissingPrefix { expected_prefix: "chk" },
            ),
            has_id_prefix("chk"@, text@) ==> (r is Ok <==> ulid_decoded(
                id_body("chk"@, text@),
            ) is Some),
            r matches Ok(id) ==> parsed_id_value("chk"@, text@) == Some(id.value()),
            has_id_prefix("chk"@, text@) && r is Err ==> r->Err_0 is InvalidUlid,
    {
        match parse_id("chk", text) {
            Ok(value) => Ok(CheckpointId { value }),
            Err(e) => Err(e),
        }
    }

}

impl Default for CheckpointId {
    fn default() -> Self {
        CheckpointId::new()
    }
}

impl std::str::FromStr for CheckpointId {
    type Err = IdParseError;

    fn from_str(text: &str) -> (r: Result<CheckpointId, IdParseError>)
        ensures
            !has_id_prefix("chk"@, text@) ==> r == Err::<CheckpointId, IdParseError>(
                IdParseError::MissingPrefix { expected_prefix: "chk" },
            ),
            has_id_prefix("chk"@, text@) ==> (r is Ok <==> ulid_decoded(
                id_body("chk"@, text@),
            ) is Some),
            r matches Ok(id) ==> parsed_id_value("chk"@, text@) == Some(id.value()),
            has_id_prefix("chk"@, text@) && r is Err ==> r->Err_0 is InvalidUlid,
    {
        CheckpointId::parse(text)
    }
}

} // verus!
