use event_service::models::event::{CreateEvent, EventQuery, UpdateEvent};
use event_service::models::event_packets::{
    CreateEventPacket, EventPacketQuery, PaginationParams, UpdateEventPacket,
};
use event_service::models::rules::check_described;
use event_service::models::ticket::{
    validate_create_ticket, validate_exclusive_ids, validate_update_ticket, CreateTicket,
    ExclusiveTicketIds, UpdateTicket,
};
use event_service::shared::error::ApiError;
use event_service::shared::validation::{
    flatten_validation_errors, widened, ValidationError, ValidationErrors, ValidationErrorsKind,
};

fn messages(r: Result<(), ValidationErrors>) -> Vec<String> {
    match r {
        Ok(()) => Vec::new(),
        Err(report) => flatten_validation_errors(&report),
    }
}

fn fields(r: &Result<(), ValidationErrors>) -> Vec<String> {
    match r {
        Ok(()) => Vec::new(),
        Err(report) => report.errors.iter().map(|e| e.0.clone()).collect(),
    }
}

fn create_event(nume: &str, locatie: Option<&str>, descriere: Option<&str>, locuri: Option<i32>) -> CreateEvent {
    CreateEvent {
        id_owner: 1,
        nume: nume.to_string(),
        locatie: locatie.map(|s| s.to_string()),
        descriere: descriere.map(|s| s.to_string()),
        locuri,
    }
}

fn create_ticket(cod: &str, id_pachet: Option<i32>, id_event: Option<i32>) -> CreateTicket {
    CreateTicket { cod: cod.to_string(), id_pachet, id_event }
}

fn packet_query(
    descriere: Option<&str>,
    bilete: Option<i32>,
    page: Option<i64>,
    items_per_page: Option<i64>,
) -> EventPacketQuery {
    EventPacketQuery {
        descriere: descriere.map(|s| s.to_string()),
        bilete,
        paginare: PaginationParams { page, items_per_page },
    }
}

const NAME: &str = "Name must be between 3 and 100 characters";
const LOCATION: &str = "Location must be less than 255 characters";
const DESCRIPTION: &str = "Description must be between 10 and 500 characters";
const SEATS: &str = "Seats must be between 1 and 50,000";
const BOTH: &str = "A ticket can belong to EITHER a packet OR an event, not both.";
const NEITHER: &str = "A ticket must belong to a packet OR an event.";
const CODE: &str = "Code must be between 3 and 50 characters";

#[test]
fn validation_error_new_and_with_message() {
    let e = ValidationError::new("length");
    assert_eq!(e.code, "length");
    assert!(e.message.is_none());
    let e = e.with_message("too long");
    assert_eq!(e.code, "length");
    assert_eq!(e.message.as_deref(), Some("too long"));
}

#[test]
fn report_starts_empty_and_grows_in_order() {
    let mut report = ValidationErrors::new();
    assert!(report.is_empty());
    assert!(flatten_validation_errors(&report).is_empty());
    report.add("a", ValidationError::new("x").with_message("first"));
    report.add("b", ValidationError::new("y").with_message("second"));
    assert!(!report.is_empty());
    assert_eq!(report.errors.len(), 2);
    assert_eq!(report.errors[0].0, "a");
    assert_eq!(report.errors[1].0, "b");
    assert_eq!(flatten_validation_errors(&report), vec!["first", "second"]);
}

#[test]
fn report_into_result() {
    assert!(ValidationErrors::new().into_result().is_ok());
    let mut report = ValidationErrors::new();
    report.add("a", ValidationError::new("x"));
    let r = report.into_result();
    assert_eq!(fields(&r), vec!["a"]);
}

#[test]
fn flatten_leaves_out_rules_without_a_message() {
    let mut report = ValidationErrors::new();
    report.add("a", ValidationError::new("x"));
    report.add("b", ValidationError::new("y").with_message("told"));
    assert_eq!(flatten_validation_errors(&report), vec!["told"]);
}

#[test]
fn flatten_writes_nested_reports_out_in_place() {
    let mut inner = ValidationErrors::new();
    inner.add("page", ValidationError::new("range").with_message("inner one"));
    inner.add("items_per_page", ValidationError::new("range").with_message("inner two"));
    let mut report = ValidationErrors::new();
    report.add("a", ValidationError::new("x").with_message("before"));
    report.add_nested("paginare", inner);
    report.add("z", ValidationError::new("x").with_message("after"));
    assert_eq!(
        flatten_validation_errors(&report),
        vec!["before", "inner one", "inner two", "after"]
    );
}

#[test]
fn flatten_writes_lists_of_reports_out_by_position() {
    let mut first = ValidationErrors::new();
    first.add("n", ValidationError::new("x").with_message("item 0"));
    let mut second = ValidationErrors::new();
    second.add("n", ValidationError::new("x").with_message("item 3 a"));
    second.add("m", ValidationError::new("x").with_message("item 3 b"));
    let mut deep = ValidationErrors::new();
    deep.add_nested("inner", second);
    let report = ValidationErrors {
        errors: vec![
            (
                "field".to_string(),
                ValidationErrorsKind::Field(vec![
                    ValidationError::new("a").with_message("one"),
                    ValidationError::new("b"),
                    ValidationError::new("c").with_message("two"),
                ]),
            ),
            ("list".to_string(), ValidationErrorsKind::List(vec![(0, first), (3, deep)])),
            ("empty".to_string(), ValidationErrorsKind::List(Vec::new())),
            ("nothing".to_string(), ValidationErrorsKind::Field(Vec::new())),
            (
                "nested".to_string(),
                ValidationErrorsKind::Struct(Box::new(ValidationErrors::new())),
            ),
        ],
    };
    assert_eq!(
        flatten_validation_errors(&report),
        vec!["one", "two", "item 0", "item 3 a", "item 3 b"]
    );
}

#[test]
fn check_text_counts_characters_not_bytes() {
    let mut report = ValidationErrors::new();
    report.check_text("nume", "äöü", Some(3), Some(3), "bad");
    assert!(report.is_empty());
    report.check_text("nume", "äö", Some(3), Some(100), "short");
    assert_eq!(flatten_validation_errors(&report), vec!["short"]);
    let mut report = ValidationErrors::new();
    report.check_text("nume", &"é".repeat(100), Some(3), Some(100), "long");
    assert!(report.is_empty());
    report.check_text("nume", &"é".repeat(101), Some(3), Some(100), "long");
    assert_eq!(report.errors.len(), 1);
    assert_eq!(report.errors[0].0, "nume");
    match &report.errors[0].1 {
        ValidationErrorsKind::Field(rules) => {
            assert_eq!(rules.len(), 1);
            assert_eq!(rules[0].code, "length");
            assert_eq!(rules[0].message.as_deref(), Some("long"));
        }
        _ => panic!("expected the rules of a field"),
    }
}

#[test]
fn check_text_without_bounds_passes() {
    let mut report = ValidationErrors::new();
    report.check_text("x", "", None, None, "never");
    report.check_opt_text("x", &None, Some(5), Some(6), "never");
    report.check_opt_number("x", None, Some(5), Some(6), "never");
    report.check_opt_number("x", Some(i64::MIN), None, None, "never");
    assert!(report.is_empty());
}

#[test]
fn check_opt_number_bounds_are_inclusive() {
    let mut report = ValidationErrors::new();
    report.check_opt_number("n", Some(1), Some(1), Some(50000), "low");
    report.check_opt_number("n", Some(50000), Some(1), Some(50000), "high");
    assert!(report.is_empty());
    report.check_opt_number("n", Some(0), Some(1), Some(50000), "low");
    report.check_opt_number("n", Some(50001), Some(1), Some(50000), "high");
    assert_eq!(flatten_validation_errors(&report), vec!["low", "high"]);
    match &report.errors[0].1 {
        ValidationErrorsKind::Field(rules) => assert_eq!(rules[0].code, "range"),
        _ => panic!("expected the rules of a field"),
    }
}

#[test]
fn widened_keeps_the_number() {
    assert_eq!(widened(None), None);
    assert_eq!(widened(Some(i32::MIN)), Some(i32::MIN as i64));
    assert_eq!(widened(Some(7)), Some(7));
}

#[test]
fn create_event_in_order() {
    let p = create_event("Conf", Some("NY"), None, Some(100));
    assert!(p.validate().is_ok());
    let p = create_event("abc", None, Some("0123456789"), Some(1));
    assert!(p.validate().is_ok());
    let p = create_event(&"n".repeat(100), Some(&"l".repeat(255)), Some(&"d".repeat(500)), Some(50000));
    assert!(p.validate().is_ok());
    let p = create_event("abc", Some(""), None, None);
    assert!(p.validate().is_ok());
}

#[test]
fn create_event_breaks_each_rule() {
    assert_eq!(messages(create_event("ab", None, None, None).validate()), vec![NAME]);
    assert_eq!(messages(create_event(&"n".repeat(101), None, None, None).validate()), vec![NAME]);
    assert_eq!(
        messages(create_event("abc", Some(&"l".repeat(256)), None, None).validate()),
        vec![LOCATION]
    );
    assert_eq!(
        messages(create_event("abc", None, Some("too short"), None).validate()),
        vec![DESCRIPTION]
    );
    assert_eq!(
        messages(create_event("abc", None, Some(&"d".repeat(501)), None).validate()),
        vec![DESCRIPTION]
    );
    assert_eq!(messages(create_event("abc", None, None, Some(0)).validate()), vec![SEATS]);
    assert_eq!(messages(create_event("abc", None, None, Some(50001)).validate()), vec![SEATS]);
    assert_eq!(messages(create_event("abc", None, None, Some(-5)).validate()), vec![SEATS]);
}

#[test]
fn create_event_reports_every_broken_rule_in_field_order() {
    let r = create_event("", Some(&"l".repeat(300)), Some(""), Some(0)).validate();
    assert_eq!(fields(&r), vec!["nume", "locatie", "descriere", "locuri"]);
    assert_eq!(messages(r), vec![NAME, LOCATION, DESCRIPTION, SEATS]);
}

#[test]
fn update_event_keeps_the_same_rules() {
    let p = UpdateEvent {
        id_owner: None,
        nume: "ab".to_string(),
        locatie: None,
        descriere: None,
        locuri: Some(50001),
    };
    let r = p.validate();
    assert_eq!(fields(&r), vec!["nume", "locuri"]);
    assert_eq!(messages(r), vec![NAME, SEATS]);
    let p = UpdateEvent {
        id_owner: Some(3),
        nume: "abc".to_string(),
        locatie: None,
        descriere: None,
        locuri: None,
    };
    assert!(p.validate().is_ok());
}

#[test]
fn packets_keep_the_same_rules_under_their_own_field_name() {
    let p = CreateEventPacket {
        id_owner: 1,
        nume: "Weekend".to_string(),
        locatie: None,
        descriere: Some("short".to_string()),
        numarlocuri: Some(0),
    };
    let r = p.validate();
    assert_eq!(fields(&r), vec!["descriere", "numarlocuri"]);
    assert_eq!(messages(r), vec![DESCRIPTION, SEATS]);
    let p = UpdateEventPacket {
        id_owner: None,
        nume: "We".to_string(),
        locatie: Some("x".repeat(256)),
        descriere: None,
        numarlocuri: None,
    };
    let r = p.validate();
    assert_eq!(fields(&r), vec!["nume", "locatie"]);
    assert_eq!(messages(r), vec![NAME, LOCATION]);
    let p = UpdateEventPacket {
        id_owner: None,
        nume: "Weekend".to_string(),
        locatie: None,
        descriere: None,
        numarlocuri: Some(1),
    };
    assert!(p.validate().is_ok());
}

#[test]
fn check_described_takes_the_name_of_the_seats_field() {
    let r = check_described(&"abc".to_string(), &None, &None, "capacity", Some(0));
    assert_eq!(fields(&r), vec!["capacity"]);
    assert_eq!(messages(r), vec![SEATS]);
}

#[test]
fn event_query_rules() {
    let q = EventQuery { locatie: Some("x".repeat(50)), nume: Some(String::new()) };
    assert!(q.validate().is_ok());
    let q = EventQuery { locatie: None, nume: None };
    assert!(q.validate().is_ok());
    let q = EventQuery { locatie: Some("x".repeat(51)), nume: Some("y".repeat(51)) };
    let r = q.validate();
    assert_eq!(fields(&r), vec!["locatie", "nume"]);
    assert_eq!(
        messages(r),
        vec![
            "Location filter must be less than 50 characters",
            "Name filter must be less than 50 characters"
        ]
    );
}

#[test]
fn event_query_has_filters_when_a_key_is_given() {
    assert!(!EventQuery { locatie: None, nume: None }.has_filters());
    assert!(EventQuery { locatie: Some(String::new()), nume: None }.has_filters());
    assert!(EventQuery { locatie: None, nume: Some("a".to_string()) }.has_filters());
    let q = EventQuery { locatie: Some("Cluj".to_string()), nume: None };
    let copy = q.clone();
    assert_eq!(copy.locatie.as_deref(), Some("Cluj"));
    assert!(copy.nume.is_none());
}

#[test]
fn pagination_rules() {
    assert!(PaginationParams { page: None, items_per_page: None }.validate().is_ok());
    assert!(PaginationParams { page: Some(1), items_per_page: Some(100) }.validate().is_ok());
    assert!(PaginationParams { page: Some(i64::MAX), items_per_page: Some(1) }.validate().is_ok());
    let r = PaginationParams { page: Some(0), items_per_page: Some(101) }.validate();
    assert_eq!(fields(&r), vec!["page", "items_per_page"]);
    assert_eq!(
        messages(r),
        vec!["Page must be at least 1", "Items per page must be between 1 and 100"]
    );
    let r = PaginationParams { page: None, items_per_page: Some(0) }.validate();
    assert_eq!(messages(r), vec!["Items per page must be between 1 and 100"]);
}

#[test]
fn packet_query_rules_nest_the_pagination_findings() {
    assert!(packet_query(Some("foo"), Some(1), Some(2), Some(10)).validate().is_ok());
    assert!(packet_query(None, None, None, None).validate().is_ok());
    let r = packet_query(Some("fo"), Some(0), Some(0), Some(0)).validate();
    assert_eq!(fields(&r), vec!["descriere", "bilete", "paginare"]);
    match &r {
        Err(report) => match &report.errors[2].1 {
            ValidationErrorsKind::Struct(nested) => assert_eq!(nested.errors.len(), 2),
            _ => panic!("expected a nested report"),
        },
        Ok(()) => panic!("expected a report"),
    }
    assert_eq!(
        messages(r),
        vec![
            "Description filter must be less than 50 characters",
            "Available tickets must be at least 1",
            "Page must be at least 1",
            "Items per page must be between 1 and 100"
        ]
    );
    let r = packet_query(Some(&"t".repeat(51)), None, None, Some(1000)).validate();
    assert_eq!(fields(&r), vec!["descriere", "paginare"]);
}

#[test]
fn packet_query_has_filters_when_a_key_is_given() {
    assert!(!packet_query(None, None, None, None).has_filters());
    assert!(packet_query(Some("x"), None, None, None).has_filters());
    assert!(packet_query(None, Some(1), None, None).has_filters());
    assert!(packet_query(None, None, Some(1), None).has_filters());
    assert!(packet_query(None, None, None, Some(1)).has_filters());
    let copy = packet_query(Some("x"), Some(2), Some(3), Some(4)).clone();
    assert_eq!(copy.descriere.as_deref(), Some("x"));
    assert_eq!(copy.bilete, Some(2));
    assert_eq!(copy.paginare.page, Some(3));
    assert_eq!(copy.paginare.items_per_page, Some(4));
}

#[test]
fn exclusive_ids_accepts_exactly_one() {
    assert!(validate_create_ticket(&create_ticket("T", Some(1), None)).is_ok());
    assert!(validate_create_ticket(&create_ticket("T", None, Some(1))).is_ok());
    assert!(validate_update_ticket(&UpdateTicket { id_pachet: Some(1), id_event: None }).is_ok());
    assert!(validate_update_ticket(&UpdateTicket { id_pachet: None, id_event: Some(1) }).is_ok());
    assert!(validate_exclusive_ids(&create_ticket("T", Some(-1), None)).is_ok());
}

#[test]
fn exclusive_ids_refuses_both() {
    let e = validate_create_ticket(&create_ticket("T", Some(1), Some(2))).unwrap_err();
    assert_eq!(e.code, "exclusive_ids");
    assert_eq!(e.message.as_deref(), Some(BOTH));
    let e = validate_update_ticket(&UpdateTicket { id_pachet: Some(1), id_event: Some(2) })
        .unwrap_err();
    assert_eq!(e.code, "exclusive_ids");
    assert_eq!(e.message.as_deref(), Some(BOTH));
}

#[test]
fn exclusive_ids_refuses_neither() {
    let e = validate_create_ticket(&create_ticket("T", None, None)).unwrap_err();
    assert_eq!(e.code, "exclusive_ids");
    assert_eq!(e.message.as_deref(), Some(NEITHER));
    let e = validate_exclusive_ids(&UpdateTicket { id_pachet: None, id_event: None }).unwrap_err();
    assert_eq!(e.message.as_deref(), Some(NEITHER));
}

#[test]
fn exclusive_ids_getters() {
    let t = create_ticket("T", Some(3), None);
    assert_eq!(t.get_pachet_id(), Some(3));
    assert_eq!(t.get_event_id(), None);
    let u = UpdateTicket { id_pachet: None, id_event: Some(4) };
    assert_eq!(u.get_pachet_id(), None);
    assert_eq!(u.get_event_id(), Some(4));
}

#[test]
fn create_ticket_in_order() {
    assert!(create_ticket("ABC", Some(1), None).validate().is_ok());
    assert!(create_ticket(&"c".repeat(50), None, Some(1)).validate().is_ok());
}

#[test]
fn create_ticket_with_both_or_neither_is_refused_with_422() {
    for (pachet, event, message) in [(Some(1), Some(2), BOTH), (None, None, NEITHER)] {
        let r = create_ticket("ABC", pachet, event).validate();
        assert_eq!(fields(&r), vec!["__all__"]);
        let response = ApiError::Validation(r.unwrap_err()).into_response();
        assert_eq!(response.status, 422);
        assert_eq!(response.body.error, "Validation Failed");
        assert_eq!(response.body.details, vec![message]);
    }
}

#[test]
fn create_ticket_with_a_bad_code_reports_the_code_only() {
    let r = create_ticket("AB", Some(1), Some(2)).validate();
    assert_eq!(fields(&r), vec!["cod"]);
    assert_eq!(messages(r), vec![CODE]);
    let r = create_ticket(&"c".repeat(51), None, None).validate();
    assert_eq!(messages(r), vec![CODE]);
}

#[test]
fn update_ticket_rules() {
    assert!(UpdateTicket { id_pachet: Some(1), id_event: None }.validate().is_ok());
    let r = UpdateTicket { id_pachet: Some(1), id_event: Some(1) }.validate();
    assert_eq!(fields(&r), vec!["__all__"]);
    assert_eq!(messages(r), vec![BOTH]);
    let r = UpdateTicket { id_pachet: None, id_event: None }.validate();
    assert_eq!(messages(r), vec![NEITHER]);
}
