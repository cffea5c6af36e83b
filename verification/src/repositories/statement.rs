//! A statement for the store: its text, and the values bound to its
//! numbered placeholders.

use crate::shared::text::{decimal, decimal_of_u64, opt_view};
use vstd::prelude::*;

verus! {

/// A value bound to a placeholder.
#[derive(Debug)]
pub enum Bind {
    Int(i32),
    BigInt(i64),
    Text(String),
    OptInt(Option<i32>),
    OptText(Option<String>),
}

/// The mathematical content of a [`Bind`].
pub enum BindView {
    Int(i32),
    BigInt(i64),
    Text(Seq<char>),
    OptInt(Option<i32>),
    OptText(Option<Seq<char>>),
}

impl View for Bind {
    type V = BindView;

    open spec fn view(&self) -> BindView {
        match *self {
            Bind::Int(n) => BindView::Int(n),
            Bind::BigInt(n) => BindView::BigInt(n),
            Bind::Text(t) => BindView::Text(t@),
            Bind::OptInt(n) => BindView::OptInt(n),
            Bind::OptText(t) => BindView::OptText(opt_view(t)),
        }
    }
}

/// A statement: the text with placeholders `$1`, `$2`, ... and the values
/// for them, the first value for `$1`.
#[derive(Debug)]
pub struct Statement {
    pub sql: String,
    pub binds: Vec<Bind>,
}

/// The mathematical content of a [`Statement`].
pub struct StatementView {
    pub sql: Seq<char>,
    pub binds: Seq<BindView>,
}

/// The contents of a list of bound values.
pub open spec fn bind_views(binds: Seq<Bind>) -> Seq<BindView> {
    Seq::new(binds.len(), |i: int| binds[i]@)
}

impl View for Statement {
    type V = StatementView;

    open spec fn view(&self) -> StatementView {
        StatementView { sql: self.sql@, binds: bind_views(self.binds@) }
    }
}

/// The placeholder of the `n`-th value: a dollar sign and `n` in decimal.
pub open spec fn placeholder(n: int) -> Seq<char> {
    "$"@ + decimal(n)
}

impl Statement {
    /// A statement that starts with `sql` and binds nothing yet.
    pub fn new(sql: &str) -> (r: Self)
        ensures
            r@ == (StatementView { sql: sql@, binds: Seq::empty() }),
    {
        let r = Statement { sql: String::from_str(sql), binds: Vec::new() };
        assert(r@.binds =~= Seq::<BindView>::empty());
        r
    }

    /// Appends `text` to the statement.
    pub fn push(&mut self, text: &str)
        ensures
            final(self)@ == (StatementView {
                sql: old(self)@.sql + text@,
                binds: old(self)@.binds,
            }),
    {
        self.sql.append(text);
    }

    /// Binds `value` and appends its placeholder: the number of values bound
    /// so far, `value` counted.
    pub fn push_bind(&mut self, value: Bind)
        ensures
            final(self)@ == (StatementView {
                sql: old(self)@.sql + placeholder(old(self)@.binds.len() as int + 1),
                binds: old(self)@.binds.push(value@),
            }),
    {
        self.binds.push(value);
        let count: usize = self.binds.len();
        let number = decimal_of_u64(count as u64);
        self.sql.append("$");
        self.sql.append(number.as_str());
        assert(self@.binds =~= old(self)@.binds.push(value@));
        assert(self@.sql =~= old(self)@.sql + placeholder(old(self)@.binds.len() as int + 1));
    }

    /// A statement with the given text and values; the text names its
    /// placeholders itself.
    pub fn with(sql: &str, binds: Vec<Bind>) -> (r: Self)
        ensures
            r@ == (StatementView { sql: sql@, binds: bind_views(binds@) }),
    {
        Statement { sql: String::from_str(sql), binds }
    }
}

} // verus!
