//! Flat TOML documents: lists of names with a text or a whole number each.

use vstd::prelude::*;

use crate::text::is_white;

verus! {

/// A value that a configuration can hold.
#[derive(Debug)]
pub enum TomlItem {
    Text(String),
    Integer(i64),
}

pub enum TomlItemView {
    Text(Seq<char>),
    Integer(i64),
}

impl View for TomlItem {
    type V = TomlItemView;

    open spec fn view(&self) -> TomlItemView {
        match *self {
            TomlItem::Text(s) => TomlItemView::Text(s@),
            TomlItem::Integer(n) => TomlItemView::Integer(n),
        }
    }
}

pub open spec fn item_view(item: Option<TomlItem>) -> Option<TomlItemView> {
    match item {
        Some(item) => Some(item@),
        None => None,
    }
}

pub open spec fn table_view(entries: Seq<(String, TomlItem)>) -> Seq<(Seq<char>, TomlItemView)> {
    entries.map_values(|e: (String, TomlItem)| (e.0@, e.1@))
}

/// What a document holds: under each name a value, or `None` for a value of another type.
pub open spec fn read_view(
    entries: Seq<(String, Option<TomlItem>)>,
) -> Seq<(Seq<char>, Option<TomlItemView>)> {
    entries.map_values(
        |e: (String, Option<TomlItem>)| (e.0@, item_view(e.1)),
    )
}

/// The table that `toml::from_str` finds in a text, if it finds one.
pub uninterp spec fn toml_parse(text: Seq<char>) -> Option<
    Seq<(Seq<char>, Option<TomlItemView>)>,
>;

/// What `toml::to_string_pretty` writes for a table: a text, or the message of its error.
pub uninterp spec fn toml_print(entries: Seq<(Seq<char>, TomlItemView)>) -> Result<
    Seq<char>,
    Seq<char>,
>;

pub open spec fn parse_view(r: Option<Vec<(String, Option<TomlItem>)>>) -> Option<
    Seq<(Seq<char>, Option<TomlItemView>)>,
> {
    match r {
        Some(entries) => Some(read_view(entries@)),
        None => None,
    }
}

pub open spec fn print_view(r: Result<String, String>) -> Result<Seq<char>, Seq<char>> {
    match r {
        Ok(text) => Ok(text@),
        Err(message) => Err(message@),
    }
}

pub open spec fn is_bare(c: char) -> bool {
    'a' <= c <= 'z' || c == '_'
}

/// A table whose names differ and need no quotation marks, and whose texts hold no
/// white space.
pub open spec fn is_plain(entries: Seq<(Seq<char>, TomlItemView)>) -> bool {
    &&& forall|i: int, j: int|
        0 <= i < j < entries.len() ==> (#[trigger] entries[i]).0 != (#[trigger] entries[j]).0
    &&& forall|i: int|
        0 <= i < entries.len() ==> {
            &&& (#[trigger] entries[i]).0.len() > 0
            &&& forall|k: int| 0 <= k < entries[i].0.len() ==> is_bare(#[trigger] entries[i].0[k])
            &&& entries[i].1 matches TomlItemView::Text(s) ==> forall|k: int|
                0 <= k < s.len() ==> !is_white(#[trigger] s[k])
        }
}

/// A table as it is read: every value there.
pub open spec fn all_known(
    entries: Seq<(Seq<char>, TomlItemView)>,
) -> Seq<(Seq<char>, Option<TomlItemView>)> {
    entries.map_values(|e: (Seq<char>, TomlItemView)| (e.0, Some(e.1)))
}

/// Whether a plain table was written, to a text that is read as that table.
pub open spec fn written_well(
    r: Result<Seq<char>, Seq<char>>,
    entries: Seq<(Seq<char>, TomlItemView)>,
) -> bool {
    is_plain(entries) ==> (r matches Ok(text) && toml_parse(text) == Some(all_known(entries)))
}

/// `toml::from_str`, into the crate's own table, which keeps the order of the text. A
/// value that is neither a text nor a whole number is handed on as `None`. Which texts
/// are documents is not stated.
#[verifier::external_body]
pub(crate) fn read_table(text: &str) -> (r: Option<Vec<(String, Option<TomlItem>)>>)
    ensures
        parse_view(r) == toml_parse(text@),
{
    toml::from_str::<toml::Table>(text).ok().map(|table| table.into_iter().map(|(name, value)| match value {
        toml::Value::String(s) => (name, Some(TomlItem::Text(s))),
        toml::Value::Integer(n) => (name, Some(TomlItem::Integer(n))),
        toml::Value::Float(_) | toml::Value::Boolean(_) | toml::Value::Datetime(_) => (name, None),
        toml::Value::Array(_) | toml::Value::Table(_) => (name, None),
    }).collect())
}

/// `toml::to_string_pretty`, of a table with the given names and values in their order.
/// A plain table is always written, and reading it with `toml::from_str` gives the same
/// names and values in the same order. How the text looks is not stated.
#[verifier::external_body]
pub(crate) fn write_table(entries: Vec<(String, TomlItem)>) -> (r: Result<String, String>)
    ensures
        print_view(r) == toml_print(table_view(entries@)),
        written_well(print_view(r), table_view(entries@)),
{
    let table: toml::Table = entries.into_iter().map(|(name, item)| match item {
        TomlItem::Text(s) => (name, toml::Value::String(s)),
        TomlItem::Integer(n) => (name, toml::Value::Integer(n)),
    }).collect();
    toml::to_string_pretty(&table).map_err(|error| error.to_string())
}

} // verus!
