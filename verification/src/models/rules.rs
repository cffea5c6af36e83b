//! The rules on names, locations, descriptions and seats that events and
//! packets share.

use crate::shared::text::opt_view;
use crate::shared::validation::{
    fields_of, flatten, opt_number_ok, opt_text_ok, text_ok, unless, widen, widened,
    ValidationErrors,
};
use vstd::prelude::*;

verus! {

/// What a caller is told of a name that is too short or too long.
pub const NAME_MESSAGE: &'static str = "Name must be between 3 and 100 characters";

/// What a caller is told of a location that is too long.
pub const LOCATION_MESSAGE: &'static str = "Location must be less than 255 characters";

/// What a caller is told of a description that is too short or too long.
pub const DESCRIPTION_MESSAGE: &'static str = "Description must be between 10 and 500 characters";

/// What a caller is told of a number of seats out of range.
pub const SEATS_MESSAGE: &'static str = "Seats must be between 1 and 50,000";

/// The fields of an event or packet that the rules speak of.
pub struct Described {
    pub nume: Seq<char>,
    pub locatie: Option<Seq<char>>,
    pub descriere: Option<Seq<char>>,
    pub seats: Option<i32>,
}

/// The rules: a name of 3 to 100 characters; a location, if given, of at
/// most 255; a description, if given, of 10 to 500; seats, if given, from 1
/// to 50000.
pub open spec fn described_ok(d: Described) -> bool {
    &&& 3 <= d.nume.len() <= 100
    &&& d.locatie matches Some(l) ==> l.len() <= 255
    &&& d.descriere matches Some(t) ==> 10 <= t.len() <= 500
    &&& d.seats matches Some(n) ==> 1 <= n <= 50000
}

/// The messages of the rules that `d` breaks, in the order of the fields.
pub open spec fn described_violations(d: Described) -> Seq<Seq<char>> {
    unless(text_ok(d.nume, Some(3), Some(100)), NAME_MESSAGE@) + unless(
        opt_text_ok(d.locatie, None, Some(255)),
        LOCATION_MESSAGE@,
    ) + unless(opt_text_ok(d.descriere, Some(10), Some(500)), DESCRIPTION_MESSAGE@) + unless(
        opt_number_ok(widen(d.seats), Some(1), Some(50000)),
        SEATS_MESSAGE@,
    )
}

/// The fields whose rules `d` breaks, in order; `seats_field` is the name
/// under which the payload carries the seats.
pub open spec fn described_failures(d: Described, seats_field: Seq<char>) -> Seq<Seq<char>> {
    unless(text_ok(d.nume, Some(3), Some(100)), "nume"@) + unless(
        opt_text_ok(d.locatie, None, Some(255)),
        "locatie"@,
    ) + unless(opt_text_ok(d.descriere, Some(10), Some(500)), "descriere"@) + unless(
        opt_number_ok(widen(d.seats), Some(1), Some(50000)),
        seats_field,
    )
}

/// What a check of described fields returns: `Ok` exactly when the rules
/// hold, else a report with the message of every broken rule under the
/// field that broke it.
pub open spec fn described_outcome(
    r: Result<(), ValidationErrors>,
    d: Described,
    seats_field: Seq<char>,
) -> bool {
    match r {
        Ok(_) => described_ok(d),
        Err(report) => {
            &&& !described_ok(d)
            &&& flatten(report) == described_violations(d)
            &&& fields_of(report) == described_failures(d, seats_field)
        },
    }
}

/// Checks the shared rules on the fields of an event or packet.
pub fn check_described(
    nume: &String,
    locatie: &Option<String>,
    descriere: &Option<String>,
    seats_field: &str,
    seats: Option<i32>,
) -> (r: Result<(), ValidationErrors>)
    ensures
        described_outcome(
            r,
            Described {
                nume: nume@,
                locatie: opt_view(*locatie),
                descriere: opt_view(*descriere),
                seats,
            },
            seats_field@,
        ),
{
    let mut report = ValidationErrors::new();
    report.check_text("nume", nume.as_str(), Some(3), Some(100), NAME_MESSAGE);
    report.check_opt_text("locatie", locatie, None, Some(255), LOCATION_MESSAGE);
    report.check_opt_text("descriere", descriere, Some(10), Some(500), DESCRIPTION_MESSAGE);
    report.check_opt_number(seats_field, widened(seats), Some(1), Some(50000), SEATS_MESSAGE);
    report.into_result()
}

} // verus!
