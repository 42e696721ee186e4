//! Statements and their parameters, ready to be sent to the database.

use vstd::prelude::*;

use crate::time::Timestamp;

verus! {

/// A parameter of a statement.
#[derive(Debug, PartialEq, Eq)]
pub enum DbValue {
    Text(String),
    TextOpt(Option<String>),
    TextArray(Vec<String>),
    I32(i32),
    I32Opt(Option<i32>),
    I32Array(Vec<i32>),
    I64Array(Vec<i64>),
    TimestampTz(Timestamp),
    TimestampTzOpt(Option<Timestamp>),
}

/// What a parameter stands for.
pub ghost enum DbParam {
    Text(Seq<char>),
    TextOpt(Option<Seq<char>>),
    TextArray(Seq<Seq<char>>),
    I32(i32),
    I32Opt(Option<i32>),
    I32Array(Seq<i32>),
    I64Array(Seq<i64>),
    TimestampTz(Timestamp),
    TimestampTzOpt(Option<Timestamp>),
}

/// The texts that a sequence of strings holds.
pub open spec fn texts(strings: Seq<String>) -> Seq<Seq<char>> {
    strings.map_values(|string: String| string@)
}

/// The text that an optional string holds.
pub open spec fn text_opt(string: Option<String>) -> Option<Seq<char>> {
    match string {
        Some(text) => Some(text@),
        None => None,
    }
}

impl View for DbValue {
    type V = DbParam;

    open spec fn view(&self) -> DbParam {
        match *self {
            DbValue::Text(text) => DbParam::Text(text@),
            DbValue::TextOpt(text) => DbParam::TextOpt(text_opt(text)),
            DbValue::TextArray(array) => DbParam::TextArray(texts(array@)),
            DbValue::I32(number) => DbParam::I32(number),
            DbValue::I32Opt(number) => DbParam::I32Opt(number),
            DbValue::I32Array(array) => DbParam::I32Array(array@),
            DbValue::I64Array(array) => DbParam::I64Array(array@),
            DbValue::TimestampTz(time) => DbParam::TimestampTz(time),
            DbValue::TimestampTzOpt(time) => DbParam::TimestampTzOpt(time),
        }
    }
}

/// A statement with its parameters, in the order of their numbers.
#[derive(Debug, PartialEq, Eq)]
pub struct Query {
    pub sql: String,
    pub params: Vec<DbValue>,
}

/// What a statement says.
pub ghost struct QueryText {
    pub sql: Seq<char>,
    pub params: Seq<DbParam>,
}

impl View for Query {
    type V = QueryText;

    open spec fn view(&self) -> QueryText {
        QueryText { sql: self.sql@, params: self.params@.map_values(|value: DbValue| value@) }
    }
}

/// Law: a statement reads as it is. Its text is the text it holds, and each parameter
/// stands for just the value it holds, in its place: no text, number, time or absence
/// of one is changed or left out.
pub proof fn law_a_statement_reads_as_it_is(query: Query, index: int)
    requires
        0 <= index < query.params@.len(),
    ensures
        query@.sql == query.sql@,
        query@.params.len() == query.params@.len(),
        match query.params@[index] {
            DbValue::Text(text) => query@.params[index] == DbParam::Text(text@),
            DbValue::TextOpt(Some(text)) => query@.params[index] == DbParam::TextOpt(Some(text@)),
            DbValue::TextOpt(None) => query@.params[index] == DbParam::TextOpt(None),
            DbValue::TextArray(array) => query@.params[index] matches DbParam::TextArray(read)
                && read.len() == array@.len() && forall|i: int|
                0 <= i < read.len() ==> #[trigger] read[i] == array@[i]@,
            DbValue::I32(number) => query@.params[index] == DbParam::I32(number),
            DbValue::I32Opt(number) => query@.params[index] == DbParam::I32Opt(number),
            DbValue::I32Array(array) => query@.params[index] == DbParam::I32Array(array@),
            DbValue::I64Array(array) => query@.params[index] == DbParam::I64Array(array@),
            DbValue::TimestampTz(time) => query@.params[index] == DbParam::TimestampTz(time),
            DbValue::TimestampTzOpt(time) => query@.params[index] == DbParam::TimestampTzOpt(time),
        },
{
}

/// Law: strings and their texts go together one for one.
pub proof fn law_texts_are_those_of_the_strings(strings: Seq<String>, index: int)
    ensures
        texts(strings).len() == strings.len(),
        0 <= index < strings.len() ==> texts(strings)[index] == strings[index]@,
{
}

/// Copies a slice of strings.
pub fn copy_strings(strings: &[String]) -> (copy: Vec<String>)
    ensures
        copy@ == strings@,
{
    let mut copy: Vec<String> = Vec::with_capacity(strings.len());
    let mut i: usize = 0;
    while i < strings.len()
        invariant
            i <= strings@.len(),
            copy@ == strings@.take(i as int),
        decreases strings@.len() - i,
    {
        copy.push(strings[i].clone());
        i += 1;
        assert(copy@ =~= strings@.take(i as int));
    }
    assert(strings@.take(i as int) =~= strings@);
    copy
}

} // verus!
