//! Error kinds of the four entity families, the translation of storage
//! failures into them, and the HTTP error body of each.

use crate::shared::text::{
    contains, same_text, second_piece, string_views, take_second_piece, text_contains,
};
use crate::shared::validation::{flatten, flatten_validation_errors, ValidationErrors};
use vstd::prelude::*;

verus! {

/// The code with which the store reports a reference to a row that does not
/// exist.
pub const FOREIGN_KEY_VIOLATION: &'static str = "23503";

/// The code with which the store reports a value that must be unique and is
/// already there.
pub const UNIQUE_VIOLATION: &'static str = "23505";

/// The code with which the store reports a row that breaks a check
/// constraint.
pub const CHECK_VIOLATION: &'static str = "23514";

/// What the store reported when a statement failed, as far as the
/// translation reads it. The messages are for the log, never for the caller.
#[derive(Debug)]
pub enum StoreError {
    /// A statement that must return a row returned none.
    RowNotFound,
    /// The database refused the statement, with or without a code.
    Database { code: Option<String>, message: String },
    /// Anything else: the connection, the protocol, the decoding of a row.
    Other { message: String },
}

/// The kinds of failure that every entity family tells apart.
#[derive(Debug, Clone, Copy, PartialEq, Eq, Structural)]
pub enum ErrorKind {
    NotFound,
    DuplicateEntry,
    InvalidReference,
    ConstraintViolation,
    InternalError,
}

/// The entity families.
#[derive(Debug, Clone, Copy, PartialEq, Eq, Structural)]
pub enum Family {
    Event,
    Packet,
    Ticket,
    Join,
}

/// The kind of a storage failure: by its code where the database gave one
/// of the three known codes, `NotFound` for a missing row, `InternalError`
/// for everything else.
pub open spec fn kind_of(err: StoreError) -> ErrorKind {
    match err {
        StoreError::RowNotFound => ErrorKind::NotFound,
        StoreError::Database { code: Some(c), .. } => {
            if c@ == FOREIGN_KEY_VIOLATION@ {
                ErrorKind::InvalidReference
            } else if c@ == UNIQUE_VIOLATION@ {
                ErrorKind::DuplicateEntry
            } else if c@ == CHECK_VIOLATION@ {
                ErrorKind::ConstraintViolation
            } else {
                ErrorKind::InternalError
            }
        },
        StoreError::Database { code: None, .. } => ErrorKind::InternalError,
        StoreError::Other { .. } => ErrorKind::InternalError,
    }
}

/// Decides the kind of a storage failure.
pub fn classify(err: &StoreError) -> (kind: ErrorKind)
    ensures
        kind == kind_of(*err),
{
    match err {
        StoreError::RowNotFound => ErrorKind::NotFound,
        StoreError::Database { code: Some(c), .. } => {
            if same_text(c.as_str(), FOREIGN_KEY_VIOLATION) {
                ErrorKind::InvalidReference
            } else if same_text(c.as_str(), UNIQUE_VIOLATION) {
                ErrorKind::DuplicateEntry
            } else if same_text(c.as_str(), CHECK_VIOLATION) {
                ErrorKind::ConstraintViolation
            } else {
                ErrorKind::InternalError
            }
        },
        StoreError::Database { code: None, .. } => ErrorKind::InternalError,
        StoreError::Other { .. } => ErrorKind::InternalError,
    }
}

/// What the answer to a removal means for the caller: nothing to report
/// when the store removed a row, `NotFound` when it removed none, and
/// `InternalError` when the statement failed.
pub open spec fn removal_kind(outcome: Result<u64, StoreError>) -> Option<ErrorKind> {
    match outcome {
        Ok(rows) => if rows == 0 {
            Some(ErrorKind::NotFound)
        } else {
            None
        },
        Err(_) => Some(ErrorKind::InternalError),
    }
}

/// What can go wrong with an event.
#[derive(Debug)]
pub enum EventRepoError {
    NotFound,
    InvalidReference,
    DuplicateEntry,
    ConstraintViolation,
    InternalError(StoreError),
}

/// What can go wrong with a packet.
#[derive(Debug)]
pub enum EventPacketRepoError {
    NotFound,
    DuplicateName,
    InvalidEventId,
    ConstraintViolation,
    InternalError(StoreError),
}

/// What can go wrong with a ticket.
#[derive(Debug)]
pub enum TicketRepoError {
    NotFound,
    DuplicateEntry,
    InvalidReference,
    ConstraintViolation,
    InternalError(StoreError),
}

/// What can go wrong with the link between a packet and an event.
#[derive(Debug)]
pub enum JoinPeRepoError {
    NotFound,
    DuplicateEntry,
    InvalidReference,
    ConstraintViolation,
    InternalError(StoreError),
}

/// The HTTP status of a kind.
pub open spec fn status_of(kind: ErrorKind) -> u16 {
    match kind {
        ErrorKind::NotFound => 404,
        ErrorKind::DuplicateEntry => 409,
        ErrorKind::InvalidReference => 400,
        ErrorKind::ConstraintViolation => 422,
        ErrorKind::InternalError => 500,
    }
}

/// The title under which a kind is reported.
pub open spec fn title_of(kind: ErrorKind) -> Seq<char> {
    match kind {
        ErrorKind::NotFound => "Resource Not Found"@,
        ErrorKind::DuplicateEntry => "Duplicate Entry"@,
        ErrorKind::InvalidReference => "Invalid Reference"@,
        ErrorKind::ConstraintViolation => "Constraint Violation"@,
        ErrorKind::InternalError => "Internal Server Error"@,
    }
}

/// The message with which a family reports a kind. The message of an
/// internal error is the same everywhere and says nothing of its cause.
pub open spec fn detail_of(family: Family, kind: ErrorKind) -> Seq<char> {
    match kind {
        ErrorKind::InternalError => "An internal server error occurred."@,
        ErrorKind::NotFound => match family {
            Family::Event => "The requested event was not found."@,
            Family::Packet => "The requested event packet was not found."@,
            Family::Ticket => "The requested ticket was not found."@,
            Family::Join => "The requested link between packet and event was not found."@,
        },
        ErrorKind::DuplicateEntry => match family {
            Family::Event => "An event with this name already exists."@,
            Family::Packet => "An event packet with this name already exists."@,
            Family::Ticket => "A ticket with this code already exists."@,
            Family::Join => "This event is already in this packet."@,
        },
        ErrorKind::InvalidReference => match family {
            Family::Event => "A provided reference, such as an owner ID, is invalid."@,
            Family::Packet => "A provided event ID is invalid."@,
            Family::Ticket => "Invalid packet or event ID provided."@,
            Family::Join => "Invalid packet or event ID provided."@,
        },
        ErrorKind::ConstraintViolation => match family {
            Family::Event => "The event breaks a rule that every event must keep."@,
            Family::Packet => "The event packet breaks a rule that every event packet must keep."@,
            Family::Ticket => "A ticket must belong to EITHER a packet OR an event, not both or neither."@,
            Family::Join => "The link breaks a rule that every link between packet and event must keep."@,
        },
    }
}

/// The body of an error response.
#[derive(Debug)]
pub struct ApiErrorResponse {
    pub error: String,
    pub details: Vec<String>,
}

/// An error response: the status and the body.
#[derive(Debug)]
pub struct ErrorResponse {
    pub status: u16,
    pub body: ApiErrorResponse,
}

/// The mathematical content of an [`ErrorResponse`].
pub struct ErrorResponseView {
    pub status: u16,
    pub error: Seq<char>,
    pub details: Seq<Seq<char>>,
}

impl View for ErrorResponse {
    type V = ErrorResponseView;

    open spec fn view(&self) -> ErrorResponseView {
        ErrorResponseView {
            status: self.status,
            error: self.body.error@,
            details: string_views(self.body.details@),
        }
    }
}

/// The response with which a family reports a kind: the status and title
/// of the kind, and the family's message as the only detail.
pub open spec fn family_response(family: Family, kind: ErrorKind) -> ErrorResponseView {
    ErrorResponseView {
        status: status_of(kind),
        error: title_of(kind),
        details: seq![detail_of(family, kind)],
    }
}

/// The HTTP status of a kind.
pub fn status(kind: ErrorKind) -> (r: u16)
    ensures
        r == status_of(kind),
{
    match kind {
        ErrorKind::NotFound => 404,
        ErrorKind::DuplicateEntry => 409,
        ErrorKind::InvalidReference => 400,
        ErrorKind::ConstraintViolation => 422,
        ErrorKind::InternalError => 500,
    }
}

/// The title under which a kind is reported.
pub fn title(kind: ErrorKind) -> (r: &'static str)
    ensures
        r@ == title_of(kind),
{
    match kind {
        ErrorKind::NotFound => "Resource Not Found",
        ErrorKind::DuplicateEntry => "Duplicate Entry",
        ErrorKind::InvalidReference => "Invalid Reference",
        ErrorKind::ConstraintViolation => "Constraint Violation",
        ErrorKind::InternalError => "Internal Server Error",
    }
}

/// The message with which a family reports a kind.
pub fn detail(family: Family, kind: ErrorKind) -> (r: &'static str)
    ensures
        r@ == detail_of(family, kind),
{
    match kind {
        ErrorKind::InternalError => "An internal server error occurred.",
        ErrorKind::NotFound => match family {
            Family::Event => "The requested event was not found.",
            Family::Packet => "The requested event packet was not found.",
            Family::Ticket => "The requested ticket was not found.",
            Family::Join => "The requested link between packet and event was not found.",
        },
        ErrorKind::DuplicateEntry => match family {
            Family::Event => "An event with this name already exists.",
            Family::Packet => "An event packet with this name already exists.",
            Family::Ticket => "A ticket with this code already exists.",
            Family::Join => "This event is already in this packet.",
        },
        ErrorKind::InvalidReference => match family {
            Family::Event => "A provided reference, such as an owner ID, is invalid.",
            Family::Packet => "A provided event ID is invalid.",
            Family::Ticket => "Invalid packet or event ID provided.",
            Family::Join => "Invalid packet or event ID provided.",
        },
        ErrorKind::ConstraintViolation => match family {
            Family::Event => "The event breaks a rule that every event must keep.",
            Family::Packet => "The event packet breaks a rule that every event packet must keep.",
            Family::Ticket => "A ticket must belong to EITHER a packet OR an event, not both or neither.",
            Family::Join => "The link breaks a rule that every link between packet and event must keep.",
        },
    }
}

/// A response with one detail.
pub fn single_detail(status: u16, error: &str, detail: &str) -> (r: ErrorResponse)
    ensures
        r@ == (ErrorResponseView { status, error: error@, details: seq![detail@] }),
{
    let mut details: Vec<String> = Vec::new();
    details.push(String::from_str(detail));
    let r = ErrorResponse {
        status,
        body: ApiErrorResponse { error: String::from_str(error), details },
    };
    assert(r@.details =~= seq![detail@]);
    r
}

/// The response with which a family reports a kind.
pub fn respond(family: Family, kind: ErrorKind) -> (r: ErrorResponse)
    ensures
        r@ == family_response(family, kind),
{
    single_detail(status(kind), title(kind), detail(family, kind))
}

impl EventRepoError {
    /// The kind of this error.
    pub open spec fn kind(self) -> ErrorKind {
        match self {
            EventRepoError::NotFound => ErrorKind::NotFound,
            EventRepoError::InvalidReference => ErrorKind::InvalidReference,
            EventRepoError::DuplicateEntry => ErrorKind::DuplicateEntry,
            EventRepoError::ConstraintViolation => ErrorKind::ConstraintViolation,
            EventRepoError::InternalError(_) => ErrorKind::InternalError,
        }
    }

    /// The kind of this error.
    pub fn error_kind(&self) -> (k: ErrorKind)
        ensures
            k == self.kind(),
    {
        match self {
            EventRepoError::NotFound => ErrorKind::NotFound,
            EventRepoError::InvalidReference => ErrorKind::InvalidReference,
            EventRepoError::DuplicateEntry => ErrorKind::DuplicateEntry,
            EventRepoError::ConstraintViolation => ErrorKind::ConstraintViolation,
            EventRepoError::InternalError(_) => ErrorKind::InternalError,
        }
    }

    /// The response for this error. The cause of an internal error stays
    /// behind.
    pub fn into_response(self) -> (r: ErrorResponse)
        ensures
            r@ == family_response(Family::Event, self.kind()),
    {
        respond(Family::Event, self.error_kind())
    }
}

impl EventPacketRepoError {
    /// The kind of this error.
    pub open spec fn kind(self) -> ErrorKind {
        match self {
            EventPacketRepoError::NotFound => ErrorKind::NotFound,
            EventPacketRepoError::DuplicateName => ErrorKind::DuplicateEntry,
            EventPacketRepoError::InvalidEventId => ErrorKind::InvalidReference,
            EventPacketRepoError::ConstraintViolation => ErrorKind::ConstraintViolation,
            EventPacketRepoError::InternalError(_) => ErrorKind::InternalError,
        }
    }

    /// The kind of this error.
    pub fn error_kind(&self) -> (k: ErrorKind)
        ensures
            k == self.kind(),
    {
        match self {
            EventPacketRepoError::NotFound => ErrorKind::NotFound,
            EventPacketRepoError::DuplicateName => ErrorKind::DuplicateEntry,
            EventPacketRepoError::InvalidEventId => ErrorKind::InvalidReference,
            EventPacketRepoError::ConstraintViolation => ErrorKind::ConstraintViolation,
            EventPacketRepoError::InternalError(_) => ErrorKind::InternalError,
        }
    }

    /// The response for this error. The cause of an internal error stays
    /// behind.
    pub fn into_response(self) -> (r: ErrorResponse)
        ensures
            r@ == family_response(Family::Packet, self.kind()),
    {
        respond(Family::Packet, self.error_kind())
    }
}

impl TicketRepoError {
    /// The kind of this error.
    pub open spec fn kind(self) -> ErrorKind {
        match self {
            TicketRepoError::NotFound => ErrorKind::NotFound,
            TicketRepoError::DuplicateEntry => ErrorKind::DuplicateEntry,
            TicketRepoError::InvalidReference => ErrorKind::InvalidReference,
            TicketRepoError::ConstraintViolation => ErrorKind::ConstraintViolation,
            TicketRepoError::InternalError(_) => ErrorKind::InternalError,
        }
    }

    /// The kind of this error.
    pub fn error_kind(&self) -> (k: ErrorKind)
        ensures
            k == self.kind(),
    {
        match self {
            TicketRepoError::NotFound => ErrorKind::NotFound,
            TicketRepoError::DuplicateEntry => ErrorKind::DuplicateEntry,
            TicketRepoError::InvalidReference => ErrorKind::InvalidReference,
            TicketRepoError::ConstraintViolation => ErrorKind::ConstraintViolation,
            TicketRepoError::InternalError(_) => ErrorKind::InternalError,
        }
    }

    /// The response for this error. The cause of an internal error stays
    /// behind.
    pub fn into_response(self) -> (r: ErrorResponse)
        ensures
            r@ == family_response(Family::Ticket, self.kind()),
    {
        respond(Family::Ticket, self.error_kind())
    }
}

impl JoinPeRepoError {
    /// The kind of this error.
    pub open spec fn kind(self) -> ErrorKind {
        match self {
            JoinPeRepoError::NotFound => ErrorKind::NotFound,
            JoinPeRepoError::DuplicateEntry => ErrorKind::DuplicateEntry,
            JoinPeRepoError::InvalidReference => ErrorKind::InvalidReference,
            JoinPeRepoError::ConstraintViolation => ErrorKind::ConstraintViolation,
            JoinPeRepoError::InternalError(_) => ErrorKind::InternalError,
        }
    }

    /// The kind of this error.
    pub fn error_kind(&self) -> (k: ErrorKind)
        ensures
            k == self.kind(),
    {
        match self {
            JoinPeRepoError::NotFound => ErrorKind::NotFound,
            JoinPeRepoError::DuplicateEntry => ErrorKind::DuplicateEntry,
            JoinPeRepoError::InvalidReference => ErrorKind::InvalidReference,
            JoinPeRepoError::ConstraintViolation => ErrorKind::ConstraintViolation,
            JoinPeRepoError::InternalError(_) => ErrorKind::InternalError,
        }
    }

    /// The response for this error. The cause of an internal error stays
    /// behind.
    pub fn into_response(self) -> (r: ErrorResponse)
        ensures
            r@ == family_response(Family::Join, self.kind()),
    {
        respond(Family::Join, self.error_kind())
    }
}

/// Translates a storage failure into the error of an event: the variant of
/// its kind, and the failure itself inside an internal error.
pub fn map_sqlx_event_error(err: StoreError) -> (r: EventRepoError)
    ensures
        r.kind() == kind_of(err),
        r matches EventRepoError::InternalError(cause) ==> cause == err,
{
    match classify(&err) {
        ErrorKind::NotFound => EventRepoError::NotFound,
        ErrorKind::DuplicateEntry => EventRepoError::DuplicateEntry,
        ErrorKind::InvalidReference => EventRepoError::InvalidReference,
        ErrorKind::ConstraintViolation => EventRepoError::ConstraintViolation,
        ErrorKind::InternalError => EventRepoError::InternalError(err),
    }
}

/// Translates a storage failure into the error of a packet: the variant of
/// its kind, and the failure itself inside an internal error.
pub fn map_sqlx_packet_error(err: StoreError) -> (r: EventPacketRepoError)
    ensures
        r.kind() == kind_of(err),
        r matches EventPacketRepoError::InternalError(cause) ==> cause == err,
{
    match classify(&err) {
        ErrorKind::NotFound => EventPacketRepoError::NotFound,
        ErrorKind::DuplicateEntry => EventPacketRepoError::DuplicateName,
        ErrorKind::InvalidReference => EventPacketRepoError::InvalidEventId,
        ErrorKind::ConstraintViolation => EventPacketRepoError::ConstraintViolation,
        ErrorKind::InternalError => EventPacketRepoError::InternalError(err),
    }
}

/// Translates a storage failure into the error of a ticket: the variant of
/// its kind, and the failure itself inside an internal error.
pub fn map_sqlx_ticket_error(err: StoreError) -> (r: TicketRepoError)
    ensures
        r.kind() == kind_of(err),
        r matches TicketRepoError::InternalError(cause) ==> cause == err,
{
    match classify(&err) {
        ErrorKind::NotFound => TicketRepoError::NotFound,
        ErrorKind::DuplicateEntry => TicketRepoError::DuplicateEntry,
        ErrorKind::InvalidReference => TicketRepoError::InvalidReference,
        ErrorKind::ConstraintViolation => TicketRepoError::ConstraintViolation,
        ErrorKind::InternalError => TicketRepoError::InternalError(err),
    }
}

/// Translates a storage failure into the error of a link between packet
/// and event: the variant of its kind, and the failure itself inside an
/// internal error.
pub fn map_sqlx_join_pe_error(err: StoreError) -> (r: JoinPeRepoError)
    ensures
        r.kind() == kind_of(err),
        r matches JoinPeRepoError::InternalError(cause) ==> cause == err,
{
    match classify(&err) {
        ErrorKind::NotFound => JoinPeRepoError::NotFound,
        ErrorKind::DuplicateEntry => JoinPeRepoError::DuplicateEntry,
        ErrorKind::InvalidReference => JoinPeRepoError::InvalidReference,
        ErrorKind::ConstraintViolation => JoinPeRepoError::ConstraintViolation,
        ErrorKind::InternalError => JoinPeRepoError::InternalError(err),
    }
}

/// Why the body of a request could not be read as JSON into its payload,
/// with the text in which the decoder said so.
#[derive(Debug)]
pub enum JsonRejection {
    /// The JSON was well formed and did not fit the payload.
    JsonDataError(String),
    /// The body was not well-formed JSON.
    JsonSyntaxError(String),
    /// The request did not announce JSON.
    MissingJsonContentType,
    /// The body could not be read for another reason.
    Other(String),
}

/// Everything that ends a request with an error.
#[derive(Debug)]
pub enum ApiError {
    Validation(ValidationErrors),
    Event(EventRepoError),
    BadRequest(String),
    Json(JsonRejection),
    Packet(EventPacketRepoError),
    Ticket(TicketRepoError),
    Join(JoinPeRepoError),
}

/// What the caller is told of a payload that did not fit: the name of the
/// field if the decoder complained of an unknown field and named it between
/// backquotes, a fixed sentence if it named none, else the decoder's own
/// words.
pub open spec fn data_error_detail(message: Seq<char>) -> Seq<char> {
    if contains(message, "unknown field"@) {
        match second_piece(message, '`') {
            Some(field) => "Unknown field `"@ + field + "`"@,
            None => "Invalid data format."@,
        }
    } else {
        message
    }
}

/// The response to a rejected body.
pub open spec fn rejection_response(rejection: JsonRejection) -> ErrorResponseView {
    match rejection {
        JsonRejection::JsonDataError(message) => ErrorResponseView {
            status: 422,
            error: "Invalid JSON Data"@,
            details: seq![data_error_detail(message@)],
        },
        JsonRejection::JsonSyntaxError(message) => ErrorResponseView {
            status: 400,
            error: "Invalid JSON Syntax"@,
            details: seq![message@],
        },
        JsonRejection::MissingJsonContentType => ErrorResponseView {
            status: 415,
            error: "Missing Content-Type"@,
            details: seq!["Expected 'application/json'."@],
        },
        JsonRejection::Other(message) => ErrorResponseView {
            status: 400,
            error: "Bad JSON Request"@,
            details: seq![message@],
        },
    }
}

/// The response to any error: one shape for all of them.
pub open spec fn api_response(error: ApiError) -> ErrorResponseView {
    match error {
        ApiError::Validation(report) => ErrorResponseView {
            status: 422,
            error: "Validation Failed"@,
            details: flatten(report),
        },
        ApiError::BadRequest(message) => ErrorResponseView {
            status: 400,
            error: "Bad Request"@,
            details: seq![message@],
        },
        ApiError::Json(rejection) => rejection_response(rejection),
        ApiError::Event(e) => family_response(Family::Event, e.kind()),
        ApiError::Packet(e) => family_response(Family::Packet, e.kind()),
        ApiError::Ticket(e) => family_response(Family::Ticket, e.kind()),
        ApiError::Join(e) => family_response(Family::Join, e.kind()),
    }
}

/// What the caller is told of a payload that did not fit.
pub fn describe_data_error(message: &str) -> (r: String)
    ensures
        r@ == data_error_detail(message@),
{
    if text_contains(message, "unknown field") {
        match take_second_piece(message, '`') {
            Some(field) => {
                let mut out = String::from_str("Unknown field `");
                out.append(field.as_str());
                out.append("`");
                out
            },
            None => String::from_str("Invalid data format."),
        }
    } else {
        String::from_str(message)
    }
}

impl JsonRejection {
    /// The response to this rejection.
    pub fn into_response(self) -> (r: ErrorResponse)
        ensures
            r@ == rejection_response(self),
    {
        match self {
            JsonRejection::JsonDataError(message) => {
                let detail = describe_data_error(message.as_str());
                single_detail(422, "Invalid JSON Data", detail.as_str())
            },
            JsonRejection::JsonSyntaxError(message) => single_detail(
                400,
                "Invalid JSON Syntax",
                message.as_str(),
            ),
            JsonRejection::MissingJsonContentType => single_detail(
                415,
                "Missing Content-Type",
                "Expected 'application/json'.",
            ),
            JsonRejection::Other(message) => single_detail(
                400,
                "Bad JSON Request",
                message.as_str(),
            ),
        }
    }
}

impl ApiError {
    /// The response to this error: the status, a title for the category, and
    /// the messages for the caller. The cause of an internal error is not
    /// among them.
    pub fn into_response(self) -> (r: ErrorResponse)
        ensures
            r@ == api_response(self),
    {
        match self {
            ApiError::Validation(report) => {
                let details = flatten_validation_errors(&report);
                ErrorResponse {
                    status: 422,
                    body: ApiErrorResponse { error: String::from_str("Validation Failed"), details },
                }
            },
            ApiError::BadRequest(message) => single_detail(400, "Bad Request", message.as_str()),
            ApiError::Json(rejection) => rejection.into_response(),
            ApiError::Event(e) => e.into_response(),
            ApiError::Packet(e) => e.into_response(),
            ApiError::Ticket(e) => e.into_response(),
            ApiError::Join(e) => e.into_response(),
        }
    }
}

impl From<String> for ApiError {
    fn from(value: String) -> (r: ApiError) {
        ApiError::BadRequest(value)
    }
}

impl vstd::std_specs::convert::FromSpecImpl<String> for ApiError {
    open spec fn obeys_from_spec() -> bool {
        true
    }

    open spec fn from_spec(value: String) -> ApiError {
        ApiError::BadRequest(value)
    }
}

impl From<JsonRejection> for ApiError {
    fn from(value: JsonRejection) -> (r: ApiError) {
        ApiError::Json(value)
    }
}

impl vstd::std_specs::convert::FromSpecImpl<JsonRejection> for ApiError {
    open spec fn obeys_from_spec() -> bool {
        true
    }

    open spec fn from_spec(value: JsonRejection) -> ApiError {
        ApiError::Json(value)
    }
}

impl From<ValidationErrors> for ApiError {
    fn from(value: ValidationErrors) -> (r: ApiError) {
        ApiError::Validation(value)
    }
}

impl vstd::std_specs::convert::FromSpecImpl<ValidationErrors> for ApiError {
    open spec fn obeys_from_spec() -> bool {
        true
    }

    open spec fn from_spec(value: ValidationErrors) -> ApiError {
        ApiError::Validation(value)
    }
}

impl From<EventRepoError> for ApiError {
    fn from(value: EventRepoError) -> (r: ApiError) {
        ApiError::Event(value)
    }
}

impl vstd::std_specs::convert::FromSpecImpl<EventRepoError> for ApiError {
    open spec fn obeys_from_spec() -> bool {
        true
    }

    open spec fn from_spec(value: EventRepoError) -> ApiError {
        ApiError::Event(value)
    }
}

impl From<EventPacketRepoError> for ApiError {
    fn from(value: EventPacketRepoError) -> (r: ApiError) {
        ApiError::Packet(value)
    }
}

impl vstd::std_specs::convert::FromSpecImpl<EventPacketRepoError> for ApiError {
    open spec fn obeys_from_spec() -> bool {
        true
    }

    open spec fn from_spec(value: EventPacketRepoError) -> ApiError {
        ApiError::Packet(value)
    }
}

impl From<TicketRepoError> for ApiError {
    fn from(value: TicketRepoError) -> (r: ApiError) {
        ApiError::Ticket(value)
    }
}

impl vstd::std_specs::convert::FromSpecImpl<TicketRepoError> for ApiError {
    open spec fn obeys_from_spec() -> bool {
        true
    }

    open spec fn from_spec(value: TicketRepoError) -> ApiError {
        ApiError::Ticket(value)
    }
}

impl From<JoinPeRepoError> for ApiError {
    fn from(value: JoinPeRepoError) -> (r: ApiError) {
        ApiError::Join(value)
    }
}

impl vstd::std_specs::convert::FromSpecImpl<JoinPeRepoError> for ApiError {
    open spec fn obeys_from_spec() -> bool {
        true
    }

    open spec fn from_spec(value: JoinPeRepoError) -> ApiError {
        ApiError::Join(value)
    }
}

} // verus!
