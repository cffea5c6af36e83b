use event_service::shared::error::{
    classify, describe_data_error, detail, map_sqlx_event_error, map_sqlx_join_pe_error,
    map_sqlx_packet_error, map_sqlx_ticket_error, respond, single_detail, status, title, ApiError,
    ErrorKind, ErrorResponse, EventPacketRepoError, EventRepoError, Family, JoinPeRepoError,
    JsonRejection, StoreError, TicketRepoError, CHECK_VIOLATION, FOREIGN_KEY_VIOLATION,
    UNIQUE_VIOLATION,
};
use event_service::shared::validation::{ValidationError, ValidationErrors};

const KINDS: [ErrorKind; 5] = [
    ErrorKind::NotFound,
    ErrorKind::DuplicateEntry,
    ErrorKind::InvalidReference,
    ErrorKind::ConstraintViolation,
    ErrorKind::InternalError,
];

const FAMILIES: [Family; 4] = [Family::Event, Family::Packet, Family::Ticket, Family::Join];

fn database(code: Option<&str>) -> StoreError {
    StoreError::Database {
        code: code.map(|c| c.to_string()),
        message: "relation \"secret_table\" says no".to_string(),
    }
}

fn other() -> StoreError {
    StoreError::Other { message: "connection reset by peer 10.0.0.7".to_string() }
}

fn check_response(r: &ErrorResponse, status: u16, error: &str, details: &[&str]) {
    assert_eq!(r.status, status);
    assert_eq!(r.body.error, error);
    let got: Vec<&str> = r.body.details.iter().map(|d| d.as_str()).collect();
    assert_eq!(got, details);
}

#[test]
fn codes_are_the_postgres_codes() {
    assert_eq!(FOREIGN_KEY_VIOLATION, "23503");
    assert_eq!(UNIQUE_VIOLATION, "23505");
    assert_eq!(CHECK_VIOLATION, "23514");
}

#[test]
fn classify_goes_by_the_code() {
    assert_eq!(classify(&database(Some("23503"))), ErrorKind::InvalidReference);
    assert_eq!(classify(&database(Some("23505"))), ErrorKind::DuplicateEntry);
    assert_eq!(classify(&database(Some("23514"))), ErrorKind::ConstraintViolation);
}

#[test]
fn classify_of_other_codes_is_internal() {
    assert_eq!(classify(&database(Some("23502"))), ErrorKind::InternalError);
    assert_eq!(classify(&database(Some("2350"))), ErrorKind::InternalError);
    assert_eq!(classify(&database(Some("235033"))), ErrorKind::InternalError);
    assert_eq!(classify(&database(Some(""))), ErrorKind::InternalError);
    assert_eq!(classify(&database(None)), ErrorKind::InternalError);
    assert_eq!(classify(&other()), ErrorKind::InternalError);
}

#[test]
fn classify_of_a_missing_row_is_not_found() {
    assert_eq!(classify(&StoreError::RowNotFound), ErrorKind::NotFound);
}

#[test]
fn event_errors_by_kind() {
    assert!(matches!(map_sqlx_event_error(StoreError::RowNotFound), EventRepoError::NotFound));
    assert!(matches!(
        map_sqlx_event_error(database(Some("23503"))),
        EventRepoError::InvalidReference
    ));
    assert!(matches!(
        map_sqlx_event_error(database(Some("23505"))),
        EventRepoError::DuplicateEntry
    ));
    assert!(matches!(
        map_sqlx_event_error(database(Some("23514"))),
        EventRepoError::ConstraintViolation
    ));
    assert!(matches!(
        map_sqlx_event_error(other()),
        EventRepoError::InternalError(StoreError::Other { .. })
    ));
}

#[test]
fn packet_errors_by_kind() {
    assert!(matches!(
        map_sqlx_packet_error(StoreError::RowNotFound),
        EventPacketRepoError::NotFound
    ));
    assert!(matches!(
        map_sqlx_packet_error(database(Some("23503"))),
        EventPacketRepoError::InvalidEventId
    ));
    assert!(matches!(
        map_sqlx_packet_error(database(Some("23505"))),
        EventPacketRepoError::DuplicateName
    ));
    assert!(matches!(
        map_sqlx_packet_error(database(Some("23514"))),
        EventPacketRepoError::ConstraintViolation
    ));
    assert!(matches!(
        map_sqlx_packet_error(database(None)),
        EventPacketRepoError::InternalError(StoreError::Database { code: None, .. })
    ));
}

#[test]
fn ticket_errors_by_kind() {
    assert!(matches!(map_sqlx_ticket_error(StoreError::RowNotFound), TicketRepoError::NotFound));
    assert!(matches!(
        map_sqlx_ticket_error(database(Some("23503"))),
        TicketRepoError::InvalidReference
    ));
    assert!(matches!(
        map_sqlx_ticket_error(database(Some("23505"))),
        TicketRepoError::DuplicateEntry
    ));
    assert!(matches!(
        map_sqlx_ticket_error(database(Some("23514"))),
        TicketRepoError::ConstraintViolation
    ));
    assert!(matches!(map_sqlx_ticket_error(other()), TicketRepoError::InternalError(_)));
}

#[test]
fn join_errors_by_kind() {
    assert!(matches!(map_sqlx_join_pe_error(StoreError::RowNotFound), JoinPeRepoError::NotFound));
    assert!(matches!(
        map_sqlx_join_pe_error(database(Some("23503"))),
        JoinPeRepoError::InvalidReference
    ));
    assert!(matches!(
        map_sqlx_join_pe_error(database(Some("23505"))),
        JoinPeRepoError::DuplicateEntry
    ));
    assert!(matches!(
        map_sqlx_join_pe_error(database(Some("23514"))),
        JoinPeRepoError::ConstraintViolation
    ));
    assert!(matches!(map_sqlx_join_pe_error(other()), JoinPeRepoError::InternalError(_)));
}

#[test]
fn internal_error_keeps_its_cause() {
    match map_sqlx_event_error(database(Some("40001"))) {
        EventRepoError::InternalError(StoreError::Database { code, message }) => {
            assert_eq!(code.as_deref(), Some("40001"));
            assert_eq!(message, "relation \"secret_table\" says no");
        }
        _ => panic!("expected an internal error with its cause"),
    }
}

#[test]
fn duplicate_link_is_duplicate_entry_every_time() {
    for _ in 0..3 {
        let error = map_sqlx_join_pe_error(database(Some("23505")));
        assert!(matches!(error, JoinPeRepoError::DuplicateEntry));
        assert_eq!(error.error_kind(), ErrorKind::DuplicateEntry);
        let r = ApiError::Join(error).into_response();
        check_response(&r, 409, "Duplicate Entry", &["This event is already in this packet."]);
    }
}

#[test]
fn kinds_of_the_family_errors() {
    assert_eq!(EventRepoError::NotFound.error_kind(), ErrorKind::NotFound);
    assert_eq!(EventRepoError::InvalidReference.error_kind(), ErrorKind::InvalidReference);
    assert_eq!(EventRepoError::DuplicateEntry.error_kind(), ErrorKind::DuplicateEntry);
    assert_eq!(EventRepoError::ConstraintViolation.error_kind(), ErrorKind::ConstraintViolation);
    assert_eq!(EventRepoError::InternalError(other()).error_kind(), ErrorKind::InternalError);
    assert_eq!(EventPacketRepoError::DuplicateName.error_kind(), ErrorKind::DuplicateEntry);
    assert_eq!(EventPacketRepoError::InvalidEventId.error_kind(), ErrorKind::InvalidReference);
    assert_eq!(EventPacketRepoError::NotFound.error_kind(), ErrorKind::NotFound);
    assert_eq!(TicketRepoError::ConstraintViolation.error_kind(), ErrorKind::ConstraintViolation);
    assert_eq!(JoinPeRepoError::InternalError(other()).error_kind(), ErrorKind::InternalError);
}

#[test]
fn status_of_each_kind() {
    assert_eq!(status(ErrorKind::NotFound), 404);
    assert_eq!(status(ErrorKind::InvalidReference), 400);
    assert_eq!(status(ErrorKind::DuplicateEntry), 409);
    assert_eq!(status(ErrorKind::ConstraintViolation), 422);
    assert_eq!(status(ErrorKind::InternalError), 500);
}

#[test]
fn title_of_each_kind() {
    assert_eq!(title(ErrorKind::NotFound), "Resource Not Found");
    assert_eq!(title(ErrorKind::InvalidReference), "Invalid Reference");
    assert_eq!(title(ErrorKind::DuplicateEntry), "Duplicate Entry");
    assert_eq!(title(ErrorKind::ConstraintViolation), "Constraint Violation");
    assert_eq!(title(ErrorKind::InternalError), "Internal Server Error");
}

#[test]
fn details_are_never_empty() {
    for family in FAMILIES {
        for kind in KINDS {
            assert!(!detail(family, kind).is_empty());
            let r = respond(family, kind);
            assert_eq!(r.status, status(kind));
            assert_eq!(r.body.error, title(kind));
            assert_eq!(r.body.details, vec![detail(family, kind).to_string()]);
        }
    }
}

#[test]
fn internal_detail_is_the_same_in_every_family() {
    for family in FAMILIES {
        assert_eq!(detail(family, ErrorKind::InternalError), "An internal server error occurred.");
    }
}

#[test]
fn single_detail_builds_the_body() {
    let r = single_detail(418, "Teapot", "short and stout");
    check_response(&r, 418, "Teapot", &["short and stout"]);
}

#[test]
fn event_error_responses() {
    check_response(
        &EventRepoError::NotFound.into_response(),
        404,
        "Resource Not Found",
        &["The requested event was not found."],
    );
    check_response(
        &EventRepoError::InvalidReference.into_response(),
        400,
        "Invalid Reference",
        &["A provided reference, such as an owner ID, is invalid."],
    );
    check_response(
        &EventRepoError::DuplicateEntry.into_response(),
        409,
        "Duplicate Entry",
        &["An event with this name already exists."],
    );
    check_response(
        &EventRepoError::InternalError(other()).into_response(),
        500,
        "Internal Server Error",
        &["An internal server error occurred."],
    );
    assert_eq!(EventRepoError::ConstraintViolation.into_response().status, 422);
}

#[test]
fn packet_error_responses() {
    check_response(
        &EventPacketRepoError::NotFound.into_response(),
        404,
        "Resource Not Found",
        &["The requested event packet was not found."],
    );
    check_response(
        &EventPacketRepoError::DuplicateName.into_response(),
        409,
        "Duplicate Entry",
        &["An event packet with this name already exists."],
    );
    check_response(
        &EventPacketRepoError::InvalidEventId.into_response(),
        400,
        "Invalid Reference",
        &["A provided event ID is invalid."],
    );
    check_response(
        &EventPacketRepoError::InternalError(other()).into_response(),
        500,
        "Internal Server Error",
        &["An internal server error occurred."],
    );
    assert_eq!(EventPacketRepoError::ConstraintViolation.into_response().status, 422);
}

#[test]
fn ticket_error_responses() {
    check_response(
        &TicketRepoError::NotFound.into_response(),
        404,
        "Resource Not Found",
        &["The requested ticket was not found."],
    );
    check_response(
        &TicketRepoError::DuplicateEntry.into_response(),
        409,
        "Duplicate Entry",
        &["A ticket with this code already exists."],
    );
    check_response(
        &TicketRepoError::InvalidReference.into_response(),
        400,
        "Invalid Reference",
        &["Invalid packet or event ID provided."],
    );
    check_response(
        &TicketRepoError::ConstraintViolation.into_response(),
        422,
        "Constraint Violation",
        &["A ticket must belong to EITHER a packet OR an event, not both or neither."],
    );
    check_response(
        &TicketRepoError::InternalError(other()).into_response(),
        500,
        "Internal Server Error",
        &["An internal server error occurred."],
    );
}

#[test]
fn join_error_responses() {
    check_response(
        &JoinPeRepoError::DuplicateEntry.into_response(),
        409,
        "Duplicate Entry",
        &["This event is already in this packet."],
    );
    check_response(
        &JoinPeRepoError::InvalidReference.into_response(),
        400,
        "Invalid Reference",
        &["Invalid packet or event ID provided."],
    );
    check_response(
        &JoinPeRepoError::InternalError(other()).into_response(),
        500,
        "Internal Server Error",
        &["An internal server error occurred."],
    );
    assert_eq!(JoinPeRepoError::NotFound.into_response().status, 404);
    assert_eq!(JoinPeRepoError::ConstraintViolation.into_response().status, 422);
}

#[test]
fn missing_row_is_answered_with_404_and_a_message() {
    let responses = [
        ApiError::Event(map_sqlx_event_error(StoreError::RowNotFound)).into_response(),
        ApiError::Packet(map_sqlx_packet_error(StoreError::RowNotFound)).into_response(),
        ApiError::Ticket(map_sqlx_ticket_error(StoreError::RowNotFound)).into_response(),
        ApiError::Join(map_sqlx_join_pe_error(StoreError::RowNotFound)).into_response(),
    ];
    for r in &responses {
        assert_eq!(r.status, 404);
        assert_eq!(r.body.details.len(), 1);
        assert!(!r.body.details[0].is_empty());
    }
}

#[test]
fn internal_cause_is_not_in_the_response() {
    let r = ApiError::Event(map_sqlx_event_error(database(Some("XX000")))).into_response();
    check_response(&r, 500, "Internal Server Error", &["An internal server error occurred."]);
    let r = ApiError::Ticket(map_sqlx_ticket_error(other())).into_response();
    check_response(&r, 500, "Internal Server Error", &["An internal server error occurred."]);
}

#[test]
fn api_error_of_a_family_is_the_family_response() {
    check_response(
        &ApiError::Event(EventRepoError::DuplicateEntry).into_response(),
        409,
        "Duplicate Entry",
        &["An event with this name already exists."],
    );
    check_response(
        &ApiError::Packet(EventPacketRepoError::InvalidEventId).into_response(),
        400,
        "Invalid Reference",
        &["A provided event ID is invalid."],
    );
    check_response(
        &ApiError::Ticket(TicketRepoError::NotFound).into_response(),
        404,
        "Resource Not Found",
        &["The requested ticket was not found."],
    );
    check_response(
        &ApiError::Join(JoinPeRepoError::InvalidReference).into_response(),
        400,
        "Invalid Reference",
        &["Invalid packet or event ID provided."],
    );
}

#[test]
fn bad_request_response() {
    let r = ApiError::BadRequest("ID cannot be negative".to_string()).into_response();
    check_response(&r, 400, "Bad Request", &["ID cannot be negative"]);
}

#[test]
fn validation_response_lists_the_messages() {
    let mut report = ValidationErrors::new();
    report.add("cod", ValidationError::new("length").with_message("too short"));
    report.add("x", ValidationError::new("silent"));
    report.add("__all__", ValidationError::new("exclusive_ids").with_message("pick one"));
    let r = ApiError::Validation(report).into_response();
    check_response(&r, 422, "Validation Failed", &["too short", "pick one"]);
}

#[test]
fn validation_response_of_an_empty_report_has_no_details() {
    let r = ApiError::Validation(ValidationErrors::new()).into_response();
    check_response(&r, 422, "Validation Failed", &[]);
}

#[test]
fn json_data_error_names_the_unknown_field() {
    let msg = "Failed to deserialize the JSON body into the target type: unknown field `culoare`, expected one of `cod`, `pachetid`, `evenimentid` at line 1 column 20";
    assert_eq!(describe_data_error(msg), "Unknown field `culoare`");
    let r = ApiError::Json(JsonRejection::JsonDataError(msg.to_string())).into_response();
    check_response(&r, 422, "Invalid JSON Data", &["Unknown field `culoare`"]);
}

#[test]
fn json_data_error_without_a_named_field() {
    assert_eq!(describe_data_error("unknown field somewhere"), "Invalid data format.");
    assert_eq!(describe_data_error("unknown field `x"), "Unknown field `x`");
    assert_eq!(describe_data_error("unknown field ``"), "Unknown field ``");
    assert_eq!(describe_data_error("`a` is an unknown field"), "Unknown field `a`");
}

#[test]
fn json_data_error_of_another_kind_is_told_as_it_is() {
    let msg = "invalid type: string \"x\", expected i32 at line 1 column 30";
    assert_eq!(describe_data_error(msg), msg);
    assert_eq!(describe_data_error(""), "");
    assert_eq!(describe_data_error("missing field `cod`"), "missing field `cod`");
    let r = JsonRejection::JsonDataError(msg.to_string()).into_response();
    check_response(&r, 422, "Invalid JSON Data", &[msg]);
}

#[test]
fn json_syntax_error_response() {
    let r = ApiError::Json(JsonRejection::JsonSyntaxError("expected value at line 1".to_string()))
        .into_response();
    check_response(&r, 400, "Invalid JSON Syntax", &["expected value at line 1"]);
}

#[test]
fn missing_content_type_response() {
    let r = ApiError::Json(JsonRejection::MissingJsonContentType).into_response();
    check_response(&r, 415, "Missing Content-Type", &["Expected 'application/json'."]);
}

#[test]
fn other_rejection_response() {
    let r = ApiError::Json(JsonRejection::Other("Failed to buffer the request body".to_string()))
        .into_response();
    check_response(&r, 400, "Bad JSON Request", &["Failed to buffer the request body"]);
}

#[test]
fn api_error_from_each_source() {
    assert!(matches!(ApiError::from("no".to_string()), ApiError::BadRequest(m) if m == "no"));
    assert!(matches!(
        ApiError::from(JsonRejection::MissingJsonContentType),
        ApiError::Json(JsonRejection::MissingJsonContentType)
    ));
    assert!(matches!(ApiError::from(ValidationErrors::new()), ApiError::Validation(_)));
    assert!(matches!(
        ApiError::from(EventRepoError::NotFound),
        ApiError::Event(EventRepoError::NotFound)
    ));
    assert!(matches!(
        ApiError::from(EventPacketRepoError::DuplicateName),
        ApiError::Packet(EventPacketRepoError::DuplicateName)
    ));
    assert!(matches!(
        ApiError::from(TicketRepoError::ConstraintViolation),
        ApiError::Ticket(TicketRepoError::ConstraintViolation)
    ));
    assert!(matches!(
        ApiError::from(JoinPeRepoError::InvalidReference),
        ApiError::Join(JoinPeRepoError::InvalidReference)
    ));
}
