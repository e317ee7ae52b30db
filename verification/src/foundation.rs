//! Identifiers, timestamps and the shared error type of the domain layer.

use vstd::prelude::*;
use vstd::string::*;
use vstd::arithmetic::power::pow;

verus! {

/// The lower-case hexadecimal digit of a value below 16.
pub open spec fn hex_digit(d: nat) -> char {
    if d < 10 {
        (48 + d) as char
    } else {
        (87 + d) as char
    }
}

/// The `i`-th hexadecimal digit of a 128-bit value, the most significant
/// first.
pub open spec fn hex_digit_at(value: u128, i: int) -> char {
    hex_digit((((value as int) / pow(16, (31 - i) as nat)) % 16) as nat)
}

/// Text form of a UUID given as its 128-bit value: the hyphenated,
/// lower-case form (8-4-4-4-12 hexadecimal digits, most significant first).
#[verifier::opaque]
pub open spec fn uuid_text(value: u128) -> Seq<char> {
    Seq::new(36, |k: int|
        if k == 8 || k == 13 || k == 18 || k == 23 {
            '-'
        } else {
            let hyphens_before: int = if k < 8 { 0 } else if k < 13 { 1 } else if k < 18 { 2 } else if k < 23 { 3 } else { 4 };
            hex_digit_at(value, k - hyphens_before)
        })
}

/// Whether a 128-bit value is a random (version 4) UUID of the RFC 9562
/// variant: its version digit is 4 and the top bits of its variant byte
/// are `10`.
pub open spec fn is_random_uuid(value: u128) -> bool {
    &&& (value >> 76u128) & 0xfu128 == 4u128
    &&& (value >> 62u128) & 0x3u128 == 2u128
}

/// Draws a random (version 4) UUID with `uuid::Uuid::new_v4` and returns its
/// 128-bit value. Claimed: the version and variant bits are those of a
/// version 4 UUID (`new_v4` masks random bits and sets them); nothing is
/// claimed of the other bits, which are random.
#[verifier::external_body]
pub fn fresh_uuid() -> (value: u128)
    ensures
        is_random_uuid(value),
{
    uuid::Uuid::new_v4().as_u128()
}

/// Formats a 128-bit value as a UUID with `uuid::Uuid::from_u128` and its
/// `Display`. Claimed: the text is `uuid_text(value)`, the hyphenated
/// lower-case form, 36 characters long (`Hyphenated::LENGTH` in the crate).
#[verifier::external_body]
pub fn uuid_to_string(value: u128) -> (text: String)
    ensures
        text@ == uuid_text(value),
        text@.len() == 36,
{
    uuid::Uuid::from_u128(value).to_string()
}


/// Identifier of a decision session: the 128-bit value of a UUID.
#[derive(Clone, Copy, Debug, PartialEq, Eq, Hash, Structural)]
pub struct SessionId {
    pub value: u128,
}

impl SessionId {
    /// A fresh random identifier: a version 4 UUID.
    pub fn new() -> (id: Self)
        ensures
            is_random_uuid(id.value),
    {
        SessionId { value: fresh_uuid() }
    }

    /// The identifier with the given UUID value.
    pub fn from_value(value: u128) -> (id: Self)
        ensures
            id.value == value,
    {
        SessionId { value }
    }

    /// The identifier's text: its UUID in hyphenated form.
    pub fn to_string(&self) -> (text: String)
        ensures
            text@ == uuid_text(self.value),
    {
        uuid_to_string(self.value)
    }
}

/// Identifier of a PrOACT cycle: the 128-bit value of a UUID.
#[derive(Clone, Copy, Debug, PartialEq, Eq, Hash, Structural)]
pub struct CycleId {
    pub value: u128,
}

impl CycleId {
    /// A fresh random identifier: a version 4 UUID.
    pub fn new() -> (id: Self)
        ensures
            is_random_uuid(id.value),
    {
        CycleId { value: fresh_uuid() }
    }

    /// The identifier with the given UUID value.
    pub fn from_value(value: u128) -> (id: Self)
        ensures
            id.value == value,
    {
        CycleId { value }
    }

    /// The identifier's text: its UUID in hyphenated form.
    pub fn to_string(&self) -> (text: String)
        ensures
            text@ == uuid_text(self.value),
    {
        uuid_to_string(self.value)
    }
}

/// Identifier of a component of a cycle: the 128-bit value of a UUID.
#[derive(Clone, Copy, Debug, PartialEq, Eq, Hash, Structural)]
pub struct ComponentId {
    pub value: u128,
}

impl ComponentId {
    /// A fresh random identifier: a version 4 UUID.
    pub fn new() -> (id: Self)
        ensures
            is_random_uuid(id.value),
    {
        ComponentId { value: fresh_uuid() }
    }

    /// The identifier with the given UUID value.
    pub fn from_value(value: u128) -> (id: Self)
        ensures
            id.value == value,
    {
        ComponentId { value }
    }

    /// The identifier's text: its UUID in hyphenated form.
    pub fn to_string(&self) -> (text: String)
        ensures
            text@ == uuid_text(self.value),
    {
        uuid_to_string(self.value)
    }
}

/// Identifier of a published event: the 128-bit value of a UUID.
#[derive(Clone, Copy, Debug, PartialEq, Eq, Hash, Structural)]
pub struct EventId {
    pub value: u128,
}

impl EventId {
    /// A fresh random identifier: a version 4 UUID.
    pub fn new() -> (id: Self)
        ensures
            is_random_uuid(id.value),
    {
        EventId { value: fresh_uuid() }
    }

    /// The identifier with the given UUID value.
    pub fn from_value(value: u128) -> (id: Self)
        ensures
            id.value == value,
    {
        EventId { value }
    }

    /// The identifier's text: its UUID in hyphenated form.
    pub fn to_string(&self) -> (text: String)
        ensures
            text@ == uuid_text(self.value),
    {
        uuid_to_string(self.value)
    }
}

/// Identifier of a membership: the 128-bit value of a UUID.
#[derive(Clone, Copy, Debug, PartialEq, Eq, Hash, Structural)]
pub struct MembershipId {
    pub value: u128,
}

impl MembershipId {
    /// A fresh random identifier: a version 4 UUID.
    pub fn new() -> (id: Self)
        ensures
            is_random_uuid(id.value),
    {
        MembershipId { value: fresh_uuid() }
    }

    /// The identifier with the given UUID value.
    pub fn from_value(value: u128) -> (id: Self)
        ensures
            id.value == value,
    {
        MembershipId { value }
    }

    /// The identifier's text: its UUID in hyphenated form.
    pub fn to_string(&self) -> (text: String)
        ensures
            text@ == uuid_text(self.value),
    {
        uuid_to_string(self.value)
    }
}

/// Identifier of a conversation: the 128-bit value of a UUID.
#[derive(Clone, Copy, Debug, PartialEq, Eq, Hash, Structural)]
pub struct ConversationId {
    pub value: u128,
}

impl ConversationId {
    /// A fresh random identifier: a version 4 UUID.
    pub fn new() -> (id: Self)
        ensures
            is_random_uuid(id.value),
    {
        ConversationId { value: fresh_uuid() }
    }

    /// The identifier with the given UUID value.
    pub fn from_value(value: u128) -> (id: Self)
        ensures
            id.value == value,
    {
        ConversationId { value }
    }

    /// The identifier's text: its UUID in hyphenated form.
    pub fn to_string(&self) -> (text: String)
        ensures
            text@ == uuid_text(self.value),
    {
        uuid_to_string(self.value)
    }
}

/// Identifier of a decision document: the 128-bit value of a UUID.
#[derive(Clone, Copy, Debug, PartialEq, Eq, Hash, Structural)]
pub struct DecisionDocumentId {
    pub value: u128,
}

impl DecisionDocumentId {
    /// A fresh random identifier: a version 4 UUID.
    pub fn new() -> (id: Self)
        ensures
            is_random_uuid(id.value),
    {
        DecisionDocumentId { value: fresh_uuid() }
    }

    /// The identifier with the given UUID value.
    pub fn from_value(value: u128) -> (id: Self)
        ensures
            id.value == value,
    {
        DecisionDocumentId { value }
    }

    /// The identifier's text: its UUID in hyphenated form.
    pub fn to_string(&self) -> (text: String)
        ensures
            text@ == uuid_text(self.value),
    {
        uuid_to_string(self.value)
    }
}

/// Identifier of a decision profile: the 128-bit value of a UUID.
#[derive(Clone, Copy, Debug, PartialEq, Eq, Hash, Structural)]
pub struct DecisionProfileId {
    pub value: u128,
}

impl DecisionProfileId {
    /// A fresh random identifier: a version 4 UUID.
    pub fn new() -> (id: Self)
        ensures
            is_random_uuid(id.value),
    {
        DecisionProfileId { value: fresh_uuid() }
    }

    /// The identifier with the given UUID value.
    pub fn from_value(value: u128) -> (id: Self)
        ensures
            id.value == value,
    {
        DecisionProfileId { value }
    }

    /// The identifier's text: its UUID in hyphenated form.
    pub fn to_string(&self) -> (text: String)
        ensures
            text@ == uuid_text(self.value),
    {
        uuid_to_string(self.value)
    }
}


/// Decimal digits of a natural number, most significant first.
pub open spec fn decimal(n: nat) -> Seq<char>
    decreases n,
{
    if n < 10 {
        seq![digit_char(n)]
    } else {
        decimal(n / 10).push(digit_char(n % 10))
    }
}

/// The character of a decimal digit.
pub open spec fn digit_char(d: nat) -> char {
    (48 + d) as char
}

/// The text of one decimal digit.
fn digit_text(d: u64) -> (text: &'static str)
    requires
        d < 10,
    ensures
        text@ == seq![digit_char(d as nat)],
{
    match d {
        0 => {
            proof { reveal_strlit("0"); }
            "0"
        },
        1 => {
            proof { reveal_strlit("1"); }
            "1"
        },
        2 => {
            proof { reveal_strlit("2"); }
            "2"
        },
        3 => {
            proof { reveal_strlit("3"); }
            "3"
        },
        4 => {
            proof { reveal_strlit("4"); }
            "4"
        },
        5 => {
            proof { reveal_strlit("5"); }
            "5"
        },
        6 => {
            proof { reveal_strlit("6"); }
            "6"
        },
        7 => {
            proof { reveal_strlit("7"); }
            "7"
        },
        8 => {
            proof { reveal_strlit("8"); }
            "8"
        },
        _ => {
            proof { reveal_strlit("9"); }
            "9"
        },
    }
}

/// An unsigned integer in decimal: its digits, most significant first, with
/// no sign or padding.
pub fn u64_to_string(n: u64) -> (text: String)
    ensures
        text@ == decimal(n as nat),
    decreases n,
{
    if n < 10 {
        String::from_str(digit_text(n))
    } else {
        let mut text = u64_to_string(n / 10);
        text.append(digit_text(n % 10));
        text
    }
}

/// A point in time, in whole seconds since the Unix epoch.
#[derive(Clone, Copy, Debug, PartialEq, Eq, Hash, Structural)]
pub struct Timestamp {
    pub secs: i64,
}

/// Seconds in a day.
pub const SECONDS_PER_DAY: i64 = 86400;

/// Largest number of days by which a timestamp is moved.
pub const MAX_DAY_OFFSET: i64 = 4_294_967_295;

/// The system clock's reading, as std gives it.
#[verifier::external_type_specification]
#[verifier::external_body]
pub struct ExSystemTime(std::time::SystemTime);

/// The error of a reading taken before the epoch, as std gives it.
#[verifier::external_type_specification]
#[verifier::external_body]
pub struct ExSystemTimeError(std::time::SystemTimeError);

/// Reads the system clock with `std::time::SystemTime::now`. Nothing is
/// claimed of the reading: it is the time.
#[verifier::external_body]
fn system_clock() -> std::time::SystemTime {
    std::time::SystemTime::now()
}

/// The time elapsed from the Unix epoch to a clock reading, with
/// `SystemTime::duration_since`; an error for a reading before the epoch.
/// Nothing is claimed of the duration, which follows the clock.
#[verifier::external_body]
fn since_epoch(t: &std::time::SystemTime) -> Result<std::time::Duration, std::time::SystemTimeError> {
    t.duration_since(std::time::UNIX_EPOCH)
}

/// The whole seconds of a duration, with `Duration::as_secs`. Nothing is
/// claimed: the duration is opaque here.
#[verifier::external_body]
fn whole_seconds(d: &std::time::Duration) -> u64 {
    d.as_secs()
}

impl Timestamp {
    /// The current time: the whole seconds since the epoch on the system
    /// clock, 0 for a clock set before the epoch, and `i64::MAX` for one
    /// beyond what an `i64` counts. Nothing is claimed of the value: it is
    /// the time.
    pub fn now() -> (t: Self) {
        match since_epoch(&system_clock()) {
            Ok(d) => {
                let secs = whole_seconds(&d);
                if secs <= 9_223_372_036_854_775_807u64 {
                    Timestamp { secs: secs as i64 }
                } else {
                    Timestamp { secs: i64::MAX }
                }
            },
            Err(_) => Timestamp { secs: 0 },
        }
    }

    /// The timestamp with the given number of seconds since the epoch.
    pub fn from_secs(secs: i64) -> (t: Self)
        ensures
            t.secs == secs,
    {
        Timestamp { secs }
    }

    /// This timestamp moved by whole days.
    pub fn add_days(&self, days: i64) -> (t: Self)
        requires
            -9_000_000_000_000_000_000 <= self.secs <= 9_000_000_000_000_000_000,
            -MAX_DAY_OFFSET <= days <= MAX_DAY_OFFSET,
        ensures
            t.secs == self.secs + days * SECONDS_PER_DAY,
    {
        Timestamp { secs: self.secs + days * SECONDS_PER_DAY }
    }
}

/// Identifier of a user: the text the identity provider gave.
#[derive(Debug)]
pub struct UserId {
    pub value: String,
}

impl Clone for UserId {
    fn clone(&self) -> (r: Self)
        ensures
            r == *self,
    {
        UserId { value: self.value.clone() }
    }
}

impl PartialEq for UserId {
    fn eq(&self, other: &Self) -> (r: bool) {
        self.value == other.value
    }
}

impl vstd::std_specs::cmp::PartialEqSpecImpl for UserId {
    open spec fn obeys_eq_spec() -> bool {
        true
    }

    open spec fn eq_spec(&self, other: &Self) -> bool {
        self.value@ == other.value@
    }
}

impl UserId {
    /// A user identifier from its text; empty text is refused.
    pub fn new(value: &str) -> (r: Result<UserId, DomainError>)
        ensures
            match r {
                Ok(id) => value@.len() > 0 && id.value@ == value@,
                Err(e) => value@.len() == 0 && e.code == ErrorCode::ValidationFailed,
            },
    {
        if value.unicode_len() == 0 {
            Err(DomainError::validation("user_id", "User ID cannot be empty"))
        } else {
            Ok(UserId { value: value.to_owned() })
        }
    }

    /// The identifier's text.
    pub fn to_string(&self) -> (text: String)
        ensures
            text@ == self.value@,
    {
        self.value.clone()
    }

    /// Whether two identifiers name the same user.
    pub fn same_as(&self, other: &UserId) -> (r: bool)
        ensures
            r == (self.value@ == other.value@),
    {
        self.value == other.value
    }
}

/// Kinds of domain error.
#[derive(Clone, Copy, Debug, PartialEq, Eq, Structural)]
pub enum ErrorCode {
    ValidationFailed,
    NotFound,
    SessionNotFound,
    CycleNotFound,
    ComponentNotFound,
    ConversationNotFound,
    Conflict,
    Forbidden,
    DatabaseError,
    InternalError,
}

/// An error of the domain layer: a kind and a message.
#[derive(Debug)]
pub struct DomainError {
    pub code: ErrorCode,
    pub message: String,
}

impl Clone for DomainError {
    fn clone(&self) -> (r: Self)
        ensures
            r == *self,
    {
        DomainError { code: self.code, message: self.message.clone() }
    }
}

impl DomainError {
    /// An error of the given kind.
    pub fn new(code: ErrorCode, message: String) -> (e: Self)
        ensures
            e.code == code,
            e.message@ == message@,
    {
        DomainError { code, message }
    }

    /// A validation error on a field.
    pub fn validation(field: &str, message: &str) -> (e: Self)
        ensures
            e.code == ErrorCode::ValidationFailed,
            e.message@ == message@,
    {
        DomainError { code: ErrorCode::ValidationFailed, message: message.to_owned() }
    }

    /// The error's text: its message.
    pub fn to_string(&self) -> (text: String)
        ensures
            text@ == self.message@,
    {
        self.message.clone()
    }
}

/// Metadata that travels with a command.
#[derive(Clone, Debug)]
pub struct CommandMetadata {
    /// The user issuing the command.
    pub user_id: UserId,
    /// The correlation identifier of the request.
    pub correlation_id: String,
}

impl CommandMetadata {
    /// The correlation identifier of the request.
    pub fn correlation_id(&self) -> (id: String)
        ensures
            id@ == self.correlation_id@,
    {
        self.correlation_id.clone()
    }
}

/// The PrOACT components of a decision cycle, in their order.
#[derive(Clone, Copy, Debug, PartialEq, Eq, Hash, Structural)]
pub enum ComponentType {
    IssueRaising,
    ProblemFrame,
    Objectives,
    Alternatives,
    Consequences,
    Tradeoffs,
    Recommendation,
    DecisionQuality,
    NotesNextSteps,
}

impl ComponentType {
    /// Name of the component as shown to users.
    pub open spec fn spec_display_name(self) -> Seq<char> {
        match self {
            ComponentType::IssueRaising => "Issue Raising"@,
            ComponentType::ProblemFrame => "Problem Frame"@,
            ComponentType::Objectives => "Objectives"@,
            ComponentType::Alternatives => "Alternatives"@,
            ComponentType::Consequences => "Consequences"@,
            ComponentType::Tradeoffs => "Tradeoffs"@,
            ComponentType::Recommendation => "Recommendation"@,
            ComponentType::DecisionQuality => "Decision Quality"@,
            ComponentType::NotesNextSteps => "Notes & Next Steps"@,
        }
    }

    /// Name of the variant, as `{:?}` prints it.
    pub open spec fn spec_debug_name(self) -> Seq<char> {
        match self {
            ComponentType::IssueRaising => "IssueRaising"@,
            ComponentType::ProblemFrame => "ProblemFrame"@,
            ComponentType::Objectives => "Objectives"@,
            ComponentType::Alternatives => "Alternatives"@,
            ComponentType::Consequences => "Consequences"@,
            ComponentType::Tradeoffs => "Tradeoffs"@,
            ComponentType::Recommendation => "Recommendation"@,
            ComponentType::DecisionQuality => "DecisionQuality"@,
            ComponentType::NotesNextSteps => "NotesNextSteps"@,
        }
    }

    /// Name of the component as shown to users.
    pub fn display_name(&self) -> (name: String)
        ensures
            name@ == self.spec_display_name(),
    {
        match self {
            ComponentType::IssueRaising => String::from_str("Issue Raising"),
            ComponentType::ProblemFrame => String::from_str("Problem Frame"),
            ComponentType::Objectives => String::from_str("Objectives"),
            ComponentType::Alternatives => String::from_str("Alternatives"),
            ComponentType::Consequences => String::from_str("Consequences"),
            ComponentType::Tradeoffs => String::from_str("Tradeoffs"),
            ComponentType::Recommendation => String::from_str("Recommendation"),
            ComponentType::DecisionQuality => String::from_str("Decision Quality"),
            ComponentType::NotesNextSteps => String::from_str("Notes & Next Steps"),
        }
    }

    /// Name of the variant, as `{:?}` prints it.
    pub fn debug_name(&self) -> (name: String)
        ensures
            name@ == self.spec_debug_name(),
    {
        match self {
            ComponentType::IssueRaising => String::from_str("IssueRaising"),
            ComponentType::ProblemFrame => String::from_str("ProblemFrame"),
            ComponentType::Objectives => String::from_str("Objectives"),
            ComponentType::Alternatives => String::from_str("Alternatives"),
            ComponentType::Consequences => String::from_str("Consequences"),
            ComponentType::Tradeoffs => String::from_str("Tradeoffs"),
            ComponentType::Recommendation => String::from_str("Recommendation"),
            ComponentType::DecisionQuality => String::from_str("DecisionQuality"),
            ComponentType::NotesNextSteps => String::from_str("NotesNextSteps"),
        }
    }
}

/// Progress of a component within a cycle.
#[derive(Clone, Copy, Debug, PartialEq, Eq, Structural)]
pub enum ComponentStatus {
    NotStarted,
    InProgress,
    Completed,
    NeedsRevision,
}

/// Lifecycle status of a session.
#[derive(Clone, Copy, Debug, PartialEq, Eq, Structural)]
pub enum SessionStatus {
    Active,
    Archived,
}

/// An event ready to publish, with the envelope metadata the handler sets.
#[derive(Clone, Debug)]
pub struct Publication<E> {
    pub event: E,
    /// Correlation identifier of the request that caused the event.
    pub correlation_id: Option<String>,
    /// Identifier of the event that caused this one.
    pub causation_id: Option<String>,
    /// The user on whose behalf the event happened.
    pub user_id: Option<String>,
}

/// The view of an optional text.
pub open spec fn opt_str(o: Option<String>) -> Option<Seq<char>> {
    match o {
        Some(s) => Some(s@),
        None => None,
    }
}

/// A copy of an optional text.
pub fn clone_opt(o: &Option<String>) -> (r: Option<String>)
    ensures
        r == *o,
        opt_str(r) == opt_str(*o),
{
    match o {
        Some(s) => Some(s.clone()),
        None => None,
    }
}

impl<E> Publication<E> {
    /// An event of a command: correlated with the command's request and
    /// attributed to its user.
    pub fn for_command(event: E, metadata: &CommandMetadata) -> (p: Self)
        ensures
            p.event == event,
            opt_str(p.correlation_id) == Some(metadata.correlation_id@),
            opt_str(p.user_id) == Some(metadata.user_id.value@),
            p.causation_id is None,
    {
        Publication {
            event,
            correlation_id: Some(metadata.correlation_id()),
            causation_id: None,
            user_id: Some(metadata.user_id.to_string()),
        }
    }

    /// An event caused by another event.
    pub fn caused_by(event: E, causation_id: String) -> (p: Self)
        ensures
            p.event == event,
            opt_str(p.causation_id) == Some(causation_id@),
            p.correlation_id is None,
            p.user_id is None,
    {
        Publication { event, correlation_id: None, causation_id: Some(causation_id), user_id: None }
    }
}

} // verus!
