//! What a payload check reports, and how the report becomes a flat list of
//! messages.

use crate::shared::text::{opt_view, string_views};
use validator::{ValidateLength, ValidateRange};
use vstd::prelude::*;

verus! {

/// One broken rule: the rule's code and the message for the caller, if the
/// rule has one.
#[derive(Debug)]
pub struct ValidationError {
    pub code: String,
    pub message: Option<String>,
}

/// What was found under one field: the report of a nested payload, the
/// reports of the items of a list by their position, or the broken rules of
/// the field itself.
#[derive(Debug)]
pub enum ValidationErrorsKind {
    Struct(Box<ValidationErrors>),
    List(Vec<(usize, ValidationErrors)>),
    Field(Vec<ValidationError>),
}

/// The report of one payload: its findings by field, in the order in which
/// the fields were checked.
#[derive(Debug)]
pub struct ValidationErrors {
    pub errors: Vec<(String, ValidationErrorsKind)>,
}

/// The messages of the first `n` broken rules, leaving out rules without a
/// message.
pub open spec fn field_messages(rules: Seq<ValidationError>, n: int) -> Seq<Seq<char>>
    decreases n,
{
    if n <= 0 || n > rules.len() {
        seq![]
    } else {
        match rules[n - 1].message {
            Some(m) => field_messages(rules, n - 1).push(m@),
            None => field_messages(rules, n - 1),
        }
    }
}

/// Every message of a report, nested reports written out in place.
pub open spec fn flatten(report: ValidationErrors) -> Seq<Seq<char>>
    decreases report,
{
    flatten_entries(report.errors@, report.errors@.len() as int)
}

/// The messages of the first `n` findings.
pub open spec fn flatten_entries(entries: Seq<(String, ValidationErrorsKind)>, n: int) -> Seq<
    Seq<char>,
>
    decreases entries, n,
{
    if n <= 0 || n > entries.len() {
        seq![]
    } else {
        flatten_entries(entries, n - 1) + flatten_kind(entries[n - 1].1)
    }
}

/// The messages of one finding.
pub open spec fn flatten_kind(kind: ValidationErrorsKind) -> Seq<Seq<char>>
    decreases kind,
{
    match kind {
        ValidationErrorsKind::Struct(nested) => flatten(*nested),
        ValidationErrorsKind::List(items) => flatten_items(items@, items@.len() as int),
        ValidationErrorsKind::Field(rules) => field_messages(rules@, rules@.len() as int),
    }
}

/// The messages of the first `n` reports of a list.
pub open spec fn flatten_items(items: Seq<(usize, ValidationErrors)>, n: int) -> Seq<Seq<char>>
    decreases items, n,
{
    if n <= 0 || n > items.len() {
        seq![]
    } else {
        flatten_items(items, n - 1) + flatten(items[n - 1].1)
    }
}

/// The names of the fields under which a report holds findings, in order.
pub open spec fn fields_of(report: ValidationErrors) -> Seq<Seq<char>> {
    Seq::new(report.errors@.len(), |i: int| report.errors@[i].0@)
}

/// Whether a length meets the bounds that are given.
pub open spec fn length_within(len: nat, min: Option<u64>, max: Option<u64>) -> bool {
    &&& min matches Some(least) ==> least <= len
    &&& max matches Some(most) ==> len <= most
}

/// Whether a number meets the bounds that are given.
pub open spec fn number_within(value: i64, min: Option<i64>, max: Option<i64>) -> bool {
    &&& min matches Some(least) ==> least <= value
    &&& max matches Some(most) ==> value <= most
}

/// Calls `validator::ValidateLength::validate_length` on a string slice,
/// with no exact length asked for.
///
/// Taken on trust, not proved: the crate counts the characters of the text
/// and answers whether the count is at least `min` and at most `max`, each
/// bound only where it is given.
#[verifier::external_body]
pub(crate) fn validate_length(text: &str, min: Option<u64>, max: Option<u64>) -> (ok: bool)
    ensures
        ok == length_within(text@.len(), min, max),
{
    text.validate_length(min, max, None)
}

/// Calls `validator::ValidateRange::validate_range` on an `i64`, with
/// inclusive bounds only.
///
/// Taken on trust, not proved: the crate answers whether the value is at
/// least `min` and at most `max`, each bound only where it is given.
#[verifier::external_body]
pub(crate) fn validate_range(value: i64, min: Option<i64>, max: Option<i64>) -> (ok: bool)
    ensures
        ok == number_within(value, min, max),
{
    value.validate_range(min, max, None, None)
}

impl ValidationError {
    /// A broken rule with the given code and no message.
    pub fn new(code: &str) -> (r: Self)
        ensures
            r.code@ == code@,
            r.message is None,
    {
        ValidationError { code: String::from_str(code), message: None }
    }

    /// The same broken rule with `message` for the caller.
    pub fn with_message(self, message: &str) -> (r: Self)
        ensures
            r.code == self.code,
            r.message matches Some(m) && m@ == message@,
    {
        ValidationError { code: self.code, message: Some(String::from_str(message)) }
    }
}

impl ValidationErrors {
    /// A report without findings.
    pub fn new() -> (r: Self)
        ensures
            r.errors@.len() == 0,
            flatten(r) == Seq::<Seq<char>>::empty(),
            fields_of(r) == Seq::<Seq<char>>::empty(),
    {
        let r = ValidationErrors { errors: Vec::new() };
        assert(fields_of(r) =~= Seq::<Seq<char>>::empty());
        r
    }

    /// Whether the report holds no finding.
    pub fn is_empty(&self) -> (r: bool)
        ensures
            r == (self.errors@.len() == 0),
    {
        self.errors.len() == 0
    }

    /// Adds one broken rule under `field`, after the findings already there.
    pub fn add(&mut self, field: &str, error: ValidationError)
        ensures
            final(self).errors@.len() == old(self).errors@.len() + 1,
            fields_of(*final(self)) == fields_of(*old(self)).push(field@),
            flatten(*final(self)) == flatten(*old(self)) + match error.message {
                Some(m) => seq![m@],
                None => seq![],
            },
    {
        let mut rules: Vec<ValidationError> = Vec::new();
        rules.push(error);
        let kind = ValidationErrorsKind::Field(rules);
        proof {
            assert(rules@.len() == 1);
            assert(field_messages(rules@, 0) =~= seq![]);
            assert(flatten_kind(kind) =~= match error.message {
                Some(m) => seq![m@],
                None => seq![],
            });
        }
        self.add_kind(field, kind);
    }

    /// Adds the report of a nested payload under `field`, after the findings
    /// already there.
    pub fn add_nested(&mut self, field: &str, nested: ValidationErrors)
        ensures
            final(self).errors@.len() == old(self).errors@.len() + 1,
            fields_of(*final(self)) == fields_of(*old(self)).push(field@),
            flatten(*final(self)) == flatten(*old(self)) + flatten(nested),
    {
        self.add_kind(field, ValidationErrorsKind::Struct(Box::new(nested)));
    }

    fn add_kind(&mut self, field: &str, kind: ValidationErrorsKind)
        ensures
            final(self).errors@.len() == old(self).errors@.len() + 1,
            fields_of(*final(self)) == fields_of(*old(self)).push(field@),
            flatten(*final(self)) == flatten(*old(self)) + flatten_kind(kind),
    {
        let ghost before = self.errors@;
        self.errors.push((String::from_str(field), kind));
        proof {
            let after = self.errors@;
            lemma_flatten_entries_prefix(after, before, before.len() as int);
            assert(fields_of(*self) =~= fields_of(*old(self)).push(field@));
        }
    }
}

/// The messages of the first `n` findings depend on those findings only.
pub proof fn lemma_flatten_entries_prefix(
    a: Seq<(String, ValidationErrorsKind)>,
    b: Seq<(String, ValidationErrorsKind)>,
    n: int,
)
    requires
        0 <= n <= a.len(),
        n <= b.len(),
        forall|i: int| 0 <= i < n ==> a[i] == b[i],
    ensures
        flatten_entries(a, n) == flatten_entries(b, n),
    decreases n,
{
    if n > 0 {
        lemma_flatten_entries_prefix(a, b, n - 1);
    }
}

fn collect_field_messages(rules: &Vec<ValidationError>, out: &mut Vec<String>)
    ensures
        string_views(final(out)@) == string_views(old(out)@) + field_messages(
            rules@,
            rules@.len() as int,
        ),
{
    let mut i: usize = 0;
    assert(string_views(out@) =~= string_views(old(out)@) + field_messages(rules@, 0));
    while i < rules.len()
        invariant
            i <= rules@.len(),
            string_views(out@) == string_views(old(out)@) + field_messages(rules@, i as int),
        decreases rules@.len() - i,
    {
        let ghost before = out@;
        match &rules[i].message {
            Some(m) => {
                out.push(m.clone());
                assert(string_views(out@) =~= string_views(before).push(m@));
            },
            None => {},
        }
        i = i + 1;
        assert(string_views(out@) =~= string_views(old(out)@) + field_messages(rules@, i as int));
    }
}

fn collect_kind(kind: &ValidationErrorsKind, out: &mut Vec<String>)
    ensures
        string_views(final(out)@) == string_views(old(out)@) + flatten_kind(*kind),
    decreases kind,
{
    match kind {
        ValidationErrorsKind::Struct(nested) => {
            collect(nested, out);
        },
        ValidationErrorsKind::List(items) => {
            collect_items(items, out);
        },
        ValidationErrorsKind::Field(rules) => {
            collect_field_messages(rules, out);
        },
    }
}

fn collect_items(items: &Vec<(usize, ValidationErrors)>, out: &mut Vec<String>)
    ensures
        string_views(final(out)@) == string_views(old(out)@) + flatten_items(
            items@,
            items@.len() as int,
        ),
    decreases items,
{
    let mut i: usize = 0;
    assert(string_views(out@) =~= string_views(old(out)@) + flatten_items(items@, 0));
    while i < items.len()
        invariant
            i <= items@.len(),
            string_views(out@) == string_views(old(out)@) + flatten_items(items@, i as int),
        decreases items@.len() - i,
    {
        collect(&items[i].1, out);
        i = i + 1;
        assert(string_views(out@) =~= string_views(old(out)@) + flatten_items(items@, i as int));
    }
}

fn collect(report: &ValidationErrors, out: &mut Vec<String>)
    ensures
        string_views(final(out)@) == string_views(old(out)@) + flatten(*report),
    decreases report,
{
    let mut i: usize = 0;
    assert(string_views(out@) =~= string_views(old(out)@) + flatten_entries(report.errors@, 0));
    while i < report.errors.len()
        invariant
            i <= report.errors@.len(),
            string_views(out@) == string_views(old(out)@) + flatten_entries(
                report.errors@,
                i as int,
            ),
        decreases report.errors@.len() - i,
    {
        collect_kind(&report.errors[i].1, out);
        i = i + 1;
        assert(string_views(out@) =~= string_views(old(out)@) + flatten_entries(
            report.errors@,
            i as int,
        ));
    }
}

/// Every message of a report as one flat list: the findings in their order,
/// a nested report or a list of reports written out where it stands, rules
/// without a message left out.
pub fn flatten_validation_errors(errors: &ValidationErrors) -> (r: Vec<String>)
    ensures
        string_views(r@) == flatten(*errors),
{
    let mut out: Vec<String> = Vec::new();
    assert(string_views(out@) =~= Seq::<Seq<char>>::empty());
    collect(errors, &mut out);
    assert(string_views(out@) =~= flatten(*errors));
    out
}

/// Nothing if the rule holds, else the one item.
pub open spec fn unless(holds: bool, item: Seq<char>) -> Seq<Seq<char>> {
    if holds {
        seq![]
    } else {
        seq![item]
    }
}

/// Whether a text keeps the bounds on its number of characters.
pub open spec fn text_ok(value: Seq<char>, min: Option<u64>, max: Option<u64>) -> bool {
    length_within(value.len(), min, max)
}

/// Whether an optional text keeps the bounds; an absent text does.
pub open spec fn opt_text_ok(value: Option<Seq<char>>, min: Option<u64>, max: Option<u64>) -> bool {
    match value {
        Some(v) => text_ok(v, min, max),
        None => true,
    }
}

/// Whether an optional number keeps the bounds; an absent number does.
pub open spec fn opt_number_ok(value: Option<i64>, min: Option<i64>, max: Option<i64>) -> bool {
    match value {
        Some(v) => number_within(v, min, max),
        None => true,
    }
}

/// An optional `i32` as an optional `i64`.
pub open spec fn widen(value: Option<i32>) -> Option<i64> {
    match value {
        Some(v) => Some(v as i64),
        None => None,
    }
}

impl ValidationErrors {
    fn note(&mut self, holds: bool, field: &str, code: &str, message: &str)
        ensures
            final(self).errors@.len() == old(self).errors@.len() + if holds {
                0int
            } else {
                1int
            },
            fields_of(*final(self)) == fields_of(*old(self)) + unless(holds, field@),
            flatten(*final(self)) == flatten(*old(self)) + unless(holds, message@),
    {
        if !holds {
            self.add(field, ValidationError::new(code).with_message(message));
            assert(fields_of(*self) =~= fields_of(*old(self)) + unless(holds, field@));
        } else {
            assert(fields_of(*self) =~= fields_of(*old(self)) + unless(holds, field@));
            assert(flatten(*self) =~= flatten(*old(self)) + unless(holds, message@));
        }
    }

    /// Checks the number of characters of `value` against the bounds and
    /// notes a failure under `field` with `message`.
    pub fn check_text(
        &mut self,
        field: &str,
        value: &str,
        min: Option<u64>,
        max: Option<u64>,
        message: &str,
    )
        ensures
            final(self).errors@.len() == old(self).errors@.len() + if text_ok(value@, min, max) {
                0int
            } else {
                1int
            },
            fields_of(*final(self)) == fields_of(*old(self)) + unless(
                text_ok(value@, min, max),
                field@,
            ),
            flatten(*final(self)) == flatten(*old(self)) + unless(
                text_ok(value@, min, max),
                message@,
            ),
    {
        let holds = validate_length(value, min, max);
        self.note(holds, field, "length", message);
    }

    /// Checks an optional text like [`ValidationErrors::check_text`]; an
    /// absent text passes.
    pub fn check_opt_text(
        &mut self,
        field: &str,
        value: &Option<String>,
        min: Option<u64>,
        max: Option<u64>,
        message: &str,
    )
        ensures
            final(self).errors@.len() == old(self).errors@.len() + if opt_text_ok(
                opt_view(*value),
                min,
                max,
            ) {
                0int
            } else {
                1int
            },
            fields_of(*final(self)) == fields_of(*old(self)) + unless(
                opt_text_ok(opt_view(*value), min, max),
                field@,
            ),
            flatten(*final(self)) == flatten(*old(self)) + unless(
                opt_text_ok(opt_view(*value), min, max),
                message@,
            ),
    {
        let holds = match value {
            Some(v) => validate_length(v.as_str(), min, max),
            None => true,
        };
        self.note(holds, field, "length", message);
    }

    /// Checks an optional number against the bounds and notes a failure
    /// under `field` with `message`; an absent number passes.
    pub fn check_opt_number(
        &mut self,
        field: &str,
        value: Option<i64>,
        min: Option<i64>,
        max: Option<i64>,
        message: &str,
    )
        ensures
            final(self).errors@.len() == old(self).errors@.len() + if opt_number_ok(
                value,
                min,
                max,
            ) {
                0int
            } else {
                1int
            },
            fields_of(*final(self)) == fields_of(*old(self)) + unless(
                opt_number_ok(value, min, max),
                field@,
            ),
            flatten(*final(self)) == flatten(*old(self)) + unless(
                opt_number_ok(value, min, max),
                message@,
            ),
    {
        let holds = match value {
            Some(v) => validate_range(v, min, max),
            None => true,
        };
        self.note(holds, field, "range", message);
    }

    /// The report as a result: `Ok` when nothing was noted.
    pub fn into_result(self) -> (r: Result<(), ValidationErrors>)
        ensures
            match r {
                Ok(_) => self.errors@.len() == 0,
                Err(report) => report == self && self.errors@.len() > 0,
            },
    {
        if self.errors.len() == 0 {
            Ok(())
        } else {
            Err(self)
        }
    }
}

/// An optional `i32` as an optional `i64`.
pub fn widened(value: Option<i32>) -> (r: Option<i64>)
    ensures
        r == widen(value),
{
    match value {
        Some(v) => Some(v as i64),
        None => None,
    }
}

} // verus!
