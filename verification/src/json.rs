//! JSON documents: as plain data, read from text and written to it.

use serde_json::Value;
use vstd::prelude::*;
use vstd::string::*;

use crate::double::Double;
use crate::text::{is_digit, same_text};

verus! {

/// A number as a JSON document gives it.
#[derive(Debug)]
pub struct JsonNumber {
    /// The number as an unsigned integer, where it is one.
    pub unsigned: Option<u64>,
    /// The number as a double.
    pub double: Option<Double>,
    /// The number as it is written.
    pub written: String,
}

/// A JSON document.
///
/// Where an object holds two members of one name, the later one counts.
#[derive(Debug)]
pub enum Json {
    Null,
    Bool(bool),
    Number(JsonNumber),
    Text(String),
    Array(Vec<Json>),
    Object(Vec<(String, Json)>),
}

pub struct NumberView {
    pub unsigned: Option<u64>,
    pub double: Option<Double>,
    pub written: Seq<char>,
}

/// What a JSON document says.
pub enum JsonView {
    Null,
    Bool(bool),
    Number(NumberView),
    Text(Seq<char>),
    Array(Seq<JsonView>),
    Object(Seq<(Seq<char>, JsonView)>),
}

/// The member of an object that has the given name.
pub open spec fn member(entries: Seq<(Seq<char>, JsonView)>, key: Seq<char>) -> Option<JsonView>
    decreases entries.len(),
{
    if entries.len() == 0 {
        None
    } else if entries.last().0 == key {
        Some(entries.last().1)
    } else {
        member(entries.drop_last(), key)
    }
}

impl JsonView {
    /// The member of that name, of an object that has one.
    pub open spec fn get(self, key: Seq<char>) -> Option<JsonView> {
        match self {
            JsonView::Object(entries) => member(entries, key),
            _ => None,
        }
    }

    /// The member `inner` of the member `outer`.
    pub open spec fn get2(self, outer: Seq<char>, inner: Seq<char>) -> Option<JsonView> {
        match self.get(outer) {
            Some(value) => value.get(inner),
            None => None,
        }
    }

    pub open spec fn text(self) -> Option<Seq<char>> {
        match self {
            JsonView::Text(s) => Some(s),
            _ => None,
        }
    }

    pub open spec fn flag(self) -> Option<bool> {
        match self {
            JsonView::Bool(b) => Some(b),
            _ => None,
        }
    }

    pub open spec fn unsigned(self) -> Option<u64> {
        match self {
            JsonView::Number(n) => n.unsigned,
            _ => None,
        }
    }

    pub open spec fn double(self) -> Option<Double> {
        match self {
            JsonView::Number(n) => n.double,
            _ => None,
        }
    }

    pub open spec fn items(self) -> Option<Seq<JsonView>> {
        match self {
            JsonView::Array(items) => Some(items),
            _ => None,
        }
    }

    /// The text of the member of that name, where it is a text.
    pub open spec fn text_at(self, key: Seq<char>) -> Option<Seq<char>> {
        text_in(self.get(key))
    }
}

/// The text that an optional document is.
pub open spec fn text_in(value: Option<JsonView>) -> Option<Seq<char>> {
    match value {
        Some(v) => v.text(),
        None => None,
    }
}

pub open spec fn flag_in(value: Option<JsonView>) -> Option<bool> {
    match value {
        Some(v) => v.flag(),
        None => None,
    }
}

pub open spec fn unsigned_in(value: Option<JsonView>) -> Option<u64> {
    match value {
        Some(v) => v.unsigned(),
        None => None,
    }
}

pub open spec fn double_in(value: Option<JsonView>) -> Option<Double> {
    match value {
        Some(v) => v.double(),
        None => None,
    }
}

pub open spec fn items_in(value: Option<JsonView>) -> Option<Seq<JsonView>> {
    match value {
        Some(v) => v.items(),
        None => None,
    }
}

/// An optional document, without one that is `null`.
pub open spec fn present(value: Option<JsonView>) -> Option<JsonView> {
    if value == Some(JsonView::Null) {
        None
    } else {
        value
    }
}

pub open spec fn opt_json(o: Option<&Json>) -> Option<JsonView> {
    match o {
        Some(j) => Some(j.view()),
        None => None,
    }
}

pub open spec fn opt_str(o: Option<&str>) -> Option<Seq<char>> {
    match o {
        Some(s) => Some(s@),
        None => None,
    }
}

pub open spec fn entry_views(entries: Seq<(String, Json)>) -> Seq<(Seq<char>, JsonView)> {
    Seq::new(entries.len(), |i: int| (entries[i].0@, entries[i].1.view()))
}

impl View for JsonNumber {
    type V = NumberView;

    open spec fn view(&self) -> NumberView {
        NumberView { unsigned: self.unsigned, double: self.double, written: self.written@ }
    }
}

impl Json {
    pub open spec fn view(&self) -> JsonView
        decreases self,
    {
        match self {
            Json::Null => JsonView::Null,
            Json::Bool(b) => JsonView::Bool(*b),
            Json::Number(n) => JsonView::Number(n@),
            Json::Text(s) => JsonView::Text(s@),
            Json::Array(items) => JsonView::Array(
                Seq::new(
                    items@.len(),
                    |i: int|
                        if 0 <= i < items@.len() {
                            items@[i].view()
                        } else {
                            JsonView::Null
                        },
                ),
            ),
            Json::Object(entries) => JsonView::Object(
                Seq::new(
                    entries@.len(),
                    |i: int|
                        if 0 <= i < entries@.len() {
                            (entries@[i].0@, entries@[i].1.view())
                        } else {
                            (Seq::empty(), JsonView::Null)
                        },
                ),
            ),
        }
    }

    /// The member of that name, of an object that has one.
    pub fn get(&self, key: &str) -> (r: Option<&Json>)
        ensures
            opt_json(r) == self.view().get(key@),
    {
        match self {
            Json::Object(entries) => {
                let ghost views = self.view()->Object_0;
                let mut i: usize = entries.len();
                assert(views.take(i as int) == views);
                while i > 0
                    invariant
                        i <= entries.len(),
                        *self == Json::Object(*entries),
                        self.view() == JsonView::Object(views),
                        views.len() == entries@.len(),
                        member(views, key@) == member(views.take(i as int), key@),
                    decreases i,
                {
                    assert(views[i - 1] == (entries@[i - 1].0@, entries@[i - 1].1.view()));
                    assert(views.take(i as int).drop_last() == views.take(i - 1));
                    if same_text(entries[i - 1].0.as_str(), key) {
                        return Some(&entries[i - 1].1);
                    }
                    i = i - 1;
                }
                None
            },
            _ => None,
        }
    }

    /// The member `inner` of the member `outer`.
    pub fn get2(&self, outer: &str, inner: &str) -> (r: Option<&Json>)
        ensures
            opt_json(r) == self.view().get2(outer@, inner@),
    {
        match self.get(outer) {
            Some(value) => value.get(inner),
            None => None,
        }
    }

    pub fn as_text(&self) -> (r: Option<&str>)
        ensures
            opt_str(r) == self.view().text(),
    {
        match self {
            Json::Text(s) => Some(s.as_str()),
            _ => None,
        }
    }

    pub fn as_flag(&self) -> (r: Option<bool>)
        ensures
            r == self.view().flag(),
    {
        match self {
            Json::Bool(b) => Some(*b),
            _ => None,
        }
    }

    pub fn as_unsigned(&self) -> (r: Option<u64>)
        ensures
            r == self.view().unsigned(),
    {
        match self {
            Json::Number(n) => n.unsigned,
            _ => None,
        }
    }

    pub fn as_double(&self) -> (r: Option<Double>)
        ensures
            r == self.view().double(),
    {
        match self {
            Json::Number(n) => n.double,
            _ => None,
        }
    }

    pub fn as_items(&self) -> (r: Option<&Vec<Json>>)
        ensures
            match r {
                Some(items) => self.view() == JsonView::Array(item_views(items@)),
                None => self.view().items() is None,
            },
    {
        match self {
            Json::Array(items) => {
                assert(self.view()->Array_0 == item_views(items@));
                Some(items)
            },
            _ => None,
        }
    }

    pub fn is_null(&self) -> (r: bool)
        ensures
            r == (self.view() is Null),
    {
        matches!(self, Json::Null)
    }
}

pub open spec fn item_views(items: Seq<Json>) -> Seq<JsonView> {
    items.map_values(|j: Json| j.view())
}

/// A digit of a hexadecimal number.
pub open spec fn hex_digit(n: int) -> char {
    if n < 10 {
        (48 + n) as char
    } else {
        (87 + n) as char
    }
}

/// How a character stands in a text of a JSON document.
pub open spec fn escaped(c: char) -> Seq<char> {
    let n = c as u32;
    if c == '"' || c == '\\' {
        seq!['\\', c]
    } else if n == 8 {
        seq!['\\', 'b']
    } else if n == 9 {
        seq!['\\', 't']
    } else if n == 10 {
        seq!['\\', 'n']
    } else if n == 12 {
        seq!['\\', 'f']
    } else if n == 13 {
        seq!['\\', 'r']
    } else if n < 32 {
        seq!['\\', 'u', '0', '0', hex_digit(n as int / 16), hex_digit(n as int % 16)]
    } else {
        seq![c]
    }
}

/// How the characters of a text stand in a JSON document.
pub open spec fn escaped_text(s: Seq<char>) -> Seq<char>
    decreases s.len(),
{
    if s.len() == 0 {
        Seq::empty()
    } else {
        escaped_text(s.drop_last()) + escaped(s.last())
    }
}

/// How a text stands in a JSON document: between quotation marks, escaped where that is
/// needed.
pub open spec fn quoted(s: Seq<char>) -> Seq<char> {
    seq!['"'] + escaped_text(s) + seq!['"']
}

/// A document without white space, as `serde_json` writes it.
pub open spec fn printed(v: JsonView) -> Seq<char>
    decreases v,
{
    match v {
        JsonView::Null => "null"@,
        JsonView::Bool(b) => if b {
            "true"@
        } else {
            "false"@
        },
        JsonView::Number(n) => n.written,
        JsonView::Text(s) => quoted(s),
        JsonView::Array(items) => "["@ + printed_items(items) + "]"@,
        JsonView::Object(entries) => "{"@ + printed_entries(entries) + "}"@,
    }
}

/// The elements of an array, with commas between them.
pub open spec fn printed_items(items: Seq<JsonView>) -> Seq<char>
    decreases items,
{
    if items.len() == 0 {
        Seq::empty()
    } else if items.len() == 1 {
        printed(items[0])
    } else {
        printed_items(items.drop_last()) + ","@ + printed(items.last())
    }
}

/// The members of an object, with commas between them.
pub open spec fn printed_entries(entries: Seq<(Seq<char>, JsonView)>) -> Seq<char>
    decreases entries,
{
    if entries.len() == 0 {
        Seq::empty()
    } else if entries.len() == 1 {
        quoted(entries[0].0) + ":"@ + printed(entries[0].1)
    } else {
        printed_entries(entries.drop_last()) + ","@ + quoted(entries.last().0) + ":"@ + printed(
            entries.last().1,
        )
    }
}

/// Adds a member to those of an object.
pub fn add_member(entries: &mut Vec<(String, Json)>, key: &str, value: Json)
    ensures
        entry_views(final(entries)@) == entry_views(old(entries)@).push((key@, value.view())),
{
    let ghost before = entries@;
    entries.push((key.to_owned(), value));
    assert(entry_views(entries@) == entry_views(before).push((key@, value.view())));
}

impl Json {
    /// The object with the given members.
    pub fn object(entries: Vec<(String, Json)>) -> (r: Json)
        ensures
            r.view() == JsonView::Object(entry_views(entries@)),
    {
        let r = Json::Object(entries);
        assert(r.view()->Object_0 == entry_views(entries@));
        r
    }

    /// A copy of the document.
    pub fn duplicate(&self) -> (r: Json)
        ensures
            r.view() == self.view(),
        decreases self,
    {
        match self {
            Json::Null => Json::Null,
            Json::Bool(b) => Json::Bool(*b),
            Json::Number(n) => Json::Number(
                JsonNumber { unsigned: n.unsigned, double: n.double, written: n.written.clone() },
            ),
            Json::Text(s) => Json::Text(s.clone()),
            Json::Array(items) => {
                let mut out: Vec<Json> = Vec::new();
                let mut i: usize = 0;
                while i < items.len()
                    invariant
                        i <= items.len(),
                        out@.len() == i,
                        *self == Json::Array(*items),
                        forall|j: int| 0 <= j < i ==> (#[trigger] out@[j]).view() == items@[j].view(),
                    decreases items.len() - i,
                {
                    assert(decreases_to!(*self => self->Array_0));
                    assert(decreases_to!(*items => items@));
                    assert(decreases_to!(items@ => items@[i as int]));
                    out.push(items[i].duplicate());
                    i = i + 1;
                }
                let r = Json::Array(out);
                assert(r.view()->Array_0 == self.view()->Array_0);
                r
            },
            Json::Object(entries) => {
                let mut out: Vec<(String, Json)> = Vec::new();
                let mut i: usize = 0;
                while i < entries.len()
                    invariant
                        i <= entries.len(),
                        out@.len() == i,
                        *self == Json::Object(*entries),
                        forall|j: int|
                            0 <= j < i ==> (#[trigger] out@[j]).0@ == entries@[j].0@
                                && out@[j].1.view() == entries@[j].1.view(),
                    decreases entries.len() - i,
                {
                    assert(decreases_to!(*self => self->Object_0));
                    assert(decreases_to!(*entries => entries@));
                    assert(decreases_to!(entries@ => entries@[i as int]));
                    assert(decreases_to!(entries@[i as int] => entries@[i as int].1));
                    out.push((entries[i].0.clone(), entries[i].1.duplicate()));
                    i = i + 1;
                }
                let r = Json::Object(out);
                assert(r.view()->Object_0 == self.view()->Object_0);
                r
            },
        }
    }

    /// The document as text, without white space.
    pub fn to_text(&self) -> (r: String)
        ensures
            r@ == printed(self.view()),
        decreases self,
    {
        match self {
            Json::Null => "null".to_owned(),
            Json::Bool(b) => if *b {
                "true".to_owned()
            } else {
                "false".to_owned()
            },
            Json::Number(n) => n.written.clone(),
            Json::Text(s) => quote(s.as_str()),
            Json::Array(items) => {
                let ghost views = self.view()->Array_0;
                let mut out = String::new();
                let mut i: usize = 0;
                while i < items.len()
                    invariant
                        i <= items.len(),
                        *self == Json::Array(*items),
                        self.view() == JsonView::Array(views),
                        views.len() == items@.len(),
                        out@ == printed_items(views.take(i as int)),
                    decreases items.len() - i,
                {
                    assert(decreases_to!(*self => self->Array_0));
                    assert(decreases_to!(*items => items@));
                    assert(decreases_to!(items@ => items@[i as int]));
                    assert(views[i as int] == items@[i as int].view());
                    if i > 0 {
                        out.append(",");
                    }
                    let item = items[i].to_text();
                    out.append(item.as_str());
                    assert(views.take(i + 1).drop_last() == views.take(i as int));
                    i = i + 1;
                }
                assert(views.take(i as int) == views);
                let r = "[".to_owned().concat(out.as_str()).concat("]");
                r
            },
            Json::Object(entries) => {
                let ghost views = self.view()->Object_0;
                let mut out = String::new();
                let mut i: usize = 0;
                while i < entries.len()
                    invariant
                        i <= entries.len(),
                        *self == Json::Object(*entries),
                        self.view() == JsonView::Object(views),
                        views.len() == entries@.len(),
                        out@ == printed_entries(views.take(i as int)),
                    decreases entries.len() - i,
                {
                    assert(decreases_to!(*self => self->Object_0));
                    assert(decreases_to!(*entries => entries@));
                    assert(decreases_to!(entries@ => entries@[i as int]));
                    assert(decreases_to!(entries@[i as int] => entries@[i as int].1));
                    assert(views[i as int] == (entries@[i as int].0@, entries@[i as int].1.view()));
                    if i > 0 {
                        out.append(",");
                    }
                    let key = quote(entries[i].0.as_str());
                    out.append(key.as_str());
                    out.append(":");
                    let value = entries[i].1.to_text();
                    out.append(value.as_str());
                    assert(views.take(i + 1).drop_last() == views.take(i as int));
                    assert(out@ == printed_entries(views.take(i + 1)));
                    i = i + 1;
                }
                assert(views.take(i as int) == views);
                let r = "{".to_owned().concat(out.as_str()).concat("}");
                r
            },
        }
    }
}

/// `serde_json::Value`, the outside crate's document.
#[verifier::external_type_specification]
#[verifier::external_body]
pub struct ExValue(serde_json::Value);

/// What a document of the outside crate holds.
pub uninterp spec fn value_tree(value: Value) -> JsonView;

/// What `serde_json::from_str` finds in a text: a document, or the message of its error.
pub uninterp spec fn json_parse(text: Seq<char>) -> Result<JsonView, Seq<char>>;

/// One level of a document of the outside crate.
pub enum ValueNode {
    Null,
    Bool(bool),
    Number(JsonNumber),
    Text(String),
    Array(Vec<Value>),
    Object(Vec<(String, Value)>),
}

/// What one level of a document says, with what the levels below it hold.
pub open spec fn node_tree(node: ValueNode) -> JsonView {
    match node {
        ValueNode::Null => JsonView::Null,
        ValueNode::Bool(b) => JsonView::Bool(b),
        ValueNode::Number(n) => JsonView::Number(n@),
        ValueNode::Text(s) => JsonView::Text(s@),
        ValueNode::Array(items) => JsonView::Array(items@.map_values(|v: Value| value_tree(v))),
        ValueNode::Object(entries) => JsonView::Object(
            entries@.map_values(|e: (String, Value)| (e.0@, value_tree(e.1))),
        ),
    }
}

pub open spec fn value_result(r: Result<Value, String>) -> Result<JsonView, Seq<char>> {
    match r {
        Ok(value) => Ok(value_tree(value)),
        Err(message) => Err(message@),
    }
}

/// Whether a flat object that the text was written from is what was read from it.
pub open spec fn reads_back(r: Result<JsonView, Seq<char>>, text: Seq<char>) -> bool {
    forall|v: JsonView|
        is_flat(v) && text == #[trigger] printed(v) ==> (r matches Ok(document) && same_members(
            document,
            v,
        ))
}

/// A number without a sign and without an exponent, with at most 100 characters.
pub open spec fn is_plain_number(s: Seq<char>) -> bool {
    &&& 1 <= s.len() <= 100
    &&& '1' <= s[0] <= '9'
    &&& forall|i: int|
        0 <= i < s.len() ==> is_digit(#[trigger] s[i]) || (s[i] == '.' && i < s.len() - 1)
    &&& forall|i: int, j: int|
        0 <= i < j < s.len() ==> !(#[trigger] s[i] == '.' && #[trigger] s[j] == '.')
}

/// An object of texts, flags, nulls and plain numbers, with no name twice.
pub open spec fn is_flat(v: JsonView) -> bool {
    match v {
        JsonView::Object(entries) => {
            &&& forall|i: int, j: int|
                0 <= i < j < entries.len() ==> (#[trigger] entries[i]).0 != (#[trigger] entries[j]).0
            &&& forall|i: int|
                0 <= i < entries.len() ==> {
                    let value = (#[trigger] entries[i]).1;
                    ||| value is Text
                    ||| value is Bool
                    ||| value is Null
                    ||| value matches JsonView::Number(n) && is_plain_number(n.written)
                }
        },
        _ => false,
    }
}

/// Whether a member that was found is the one that was written. Of a number only that
/// it is one.
pub open spec fn same_member(found: Option<JsonView>, written: Option<JsonView>) -> bool {
    if written matches Some(JsonView::Number(_)) {
        found matches Some(JsonView::Number(_))
    } else {
        found == written
    }
}

/// Whether the object that was found has the members of the one that was written.
pub open spec fn same_members(found: JsonView, written: JsonView) -> bool {
    found is Object && written is Object && forall|key: Seq<char>|
        same_member(#[trigger] found.get(key), written.get(key))
}

/// The text of `serde_json::Value::String`: the characters between quotation marks.
/// Quotation marks, backslashes and the characters below the space are escaped, by a
/// letter where JSON has one for them and else by their number; all others stand as they
/// are.
#[verifier::external_body]
fn quote(s: &str) -> (r: String)
    ensures
        r@ == quoted(s@),
{
    Value::String(s.to_owned()).to_string()
}

/// `serde_json::from_str`, into the crate's own `Value`; an error is handed on by its
/// message. Which texts are documents is not stated, but that a flat object, written
/// without white space, is read back with the members that it was written with. Which
/// number is read is not stated.
#[verifier::external_body]
fn parse_value(text: &str) -> (r: Result<Value, String>)
    ensures
        value_result(r) == json_parse(text@),
        reads_back(value_result(r), text@),
{
    serde_json::from_str::<Value>(text).map_err(|error| error.to_string())
}

/// The variants of `serde_json::Value`. A number is given by what `Number::as_u64`,
/// `Number::as_f64` and its text say of it.
#[verifier::external_body]
fn open_value(value: Value) -> (node: ValueNode)
    ensures
        node_tree(node) == value_tree(value),
{
    match value {
        Value::Null => ValueNode::Null,
        Value::Bool(b) => ValueNode::Bool(b),
        Value::Number(n) => ValueNode::Number(JsonNumber {
            unsigned: n.as_u64(),
            double: n.as_f64().map(|x| Double { bits: x.to_bits() }),
            written: n.to_string(),
        }),
        Value::String(s) => ValueNode::Text(s),
        Value::Array(items) => ValueNode::Array(items),
        Value::Object(map) => ValueNode::Object(map.into_iter().collect()),
    }
}

/// A document of the outside crate as plain data.
fn from_value(value: Value) -> (r: Json)
    ensures
        r.view() == value_tree(value),
    decreases value_tree(value),
{
    let ghost tree = value_tree(value);
    match open_value(value) {
        ValueNode::Null => Json::Null,
        ValueNode::Bool(b) => Json::Bool(b),
        ValueNode::Number(n) => Json::Number(n),
        ValueNode::Text(s) => Json::Text(s),
        ValueNode::Array(items) => {
            let ghost trees = tree->Array_0;
            let mut items = items;
            let mut out: Vec<Json> = Vec::new();
            while items.len() > 0
                invariant
                    tree == value_tree(value),
                    tree == JsonView::Array(trees),
                    items@.len() + out@.len() == trees.len(),
                    forall|j: int| 0 <= j < items@.len() ==> value_tree(#[trigger] items@[j]) == trees[j],
                    forall|j: int|
                        0 <= j < out@.len() ==> (#[trigger] out@[j]).view() == trees[trees.len() - 1 - j],
                decreases items.len(),
            {
                let ghost n = items@.len() - 1;
                match items.pop() {
                    Some(item) => {
                        assert(value_tree(item) == trees[n]);
                        assert(decreases_to!(tree => tree->Array_0));
                        assert(decreases_to!(trees => trees[n]));
                        out.push(from_value(item));
                    },
                    None => {},
                }
            }
            let r = Json::Array(reversed(out));
            assert(r.view()->Array_0 == trees);
            r
        },
        ValueNode::Object(entries) => {
            let ghost trees = tree->Object_0;
            let mut entries = entries;
            let mut out: Vec<(String, Json)> = Vec::new();
            while entries.len() > 0
                invariant
                    tree == value_tree(value),
                    tree == JsonView::Object(trees),
                    entries@.len() + out@.len() == trees.len(),
                    forall|j: int|
                        0 <= j < entries@.len() ==> ((#[trigger] entries@[j]).0@, value_tree(entries@[j].1))
                            == trees[j],
                    forall|j: int|
                        0 <= j < out@.len() ==> ((#[trigger] out@[j]).0@, out@[j].1.view())
                            == trees[trees.len() - 1 - j],
                decreases entries.len(),
            {
                let ghost n = entries@.len() - 1;
                match entries.pop() {
                    Some((key, item)) => {
                        assert((key@, value_tree(item)) == trees[n]);
                        assert(decreases_to!(tree => tree->Object_0));
                        assert(decreases_to!(trees => trees[n]));
                        assert(decreases_to!(trees[n] => trees[n].1));
                        out.push((key, from_value(item)));
                    },
                    None => {},
                }
            }
            let r = Json::Object(reversed(out));
            assert(r.view()->Object_0 == trees);
            r
        },
    }
}

/// A list in the opposite order.
fn reversed<T>(items: Vec<T>) -> (r: Vec<T>)
    ensures
        r@ == items@.reverse(),
{
    let ghost all = items@;
    let mut items = items;
    let mut r: Vec<T> = Vec::new();
    while items.len() > 0
        invariant
            items@.len() + r@.len() == all.len(),
            items@ == all.take(items@.len() as int),
            r@ == all.reverse().take(r@.len() as int),
        decreases items.len(),
    {
        match items.pop() {
            Some(item) => {
                r.push(item);
                assert(r@ == all.reverse().take(r@.len() as int));
            },
            None => {},
        }
    }
    assert(r@ == all.reverse());
    r
}

/// The view of what reading a text gives.
pub open spec fn parse_view(r: Result<Json, String>) -> Result<JsonView, Seq<char>> {
    match r {
        Ok(document) => Ok(document.view()),
        Err(message) => Err(message@),
    }
}

/// Reads a document from text; an error is given by its message.
pub fn parse_json(text: &str) -> (r: Result<Json, String>)
    ensures
        parse_view(r) == json_parse(text@),
        reads_back(parse_view(r), text@),
{
    match parse_value(text) {
        Ok(value) => Ok(from_value(value)),
        Err(message) => Err(message),
    }
}

/// A member is found by its name: of two with one name the later one, and none where
/// there is none. What is no object has no members.
pub proof fn law_members_are_found(
    entries: Seq<(Seq<char>, JsonView)>,
    key: Seq<char>,
    value: JsonView,
    other: Seq<char>,
    v: JsonView,
)
    ensures
        JsonView::Object(entries.push((key, value))).get(key) == Some(value),
        other != key ==> JsonView::Object(entries.push((key, value))).get(other)
            == JsonView::Object(entries).get(other),
        JsonView::Object(Seq::empty()).get(key) is None,
        !(v is Object) ==> v.get(key) is None,
        v.get(key) == Some(value) ==> v.get2(key, other) == value.get(other),
        v.get(key) is None ==> v.get2(key, other) is None,
{
    let more = entries.push((key, value));
    assert(more.last() == (key, value));
    assert(more.drop_last() == entries);
}

/// A value is read as what it is, and as nothing else.
pub proof fn law_values_are_read(v: JsonView, key: Seq<char>)
    ensures
        v.text() == (match v {
            JsonView::Text(s) => Some(s),
            _ => None,
        }),
        v.flag() == (match v {
            JsonView::Bool(b) => Some(b),
            _ => None,
        }),
        v.items() == (match v {
            JsonView::Array(items) => Some(items),
            _ => None,
        }),
        v.unsigned() == (match v {
            JsonView::Number(n) => n.unsigned,
            _ => None,
        }),
        v.double() == (match v {
            JsonView::Number(n) => n.double,
            _ => None,
        }),
        v.text_at(key) == (match v.get(key) {
            Some(JsonView::Text(s)) => Some(s),
            _ => None,
        }),
        present(Some(v)) == (match v {
            JsonView::Null => None,
            _ => Some(v),
        }),
        present(None) is None,
{
}

/// The written form of a document, piece by piece: words for what is no collection, a
/// number as it was read, a text between quotation marks; a list between brackets and an
/// object between braces, with commas between the elements and a colon behind each name.
pub proof fn law_documents_are_written(
    n: NumberView,
    s: Seq<char>,
    items: Seq<JsonView>,
    entries: Seq<(Seq<char>, JsonView)>,
    key: Seq<char>,
    v: JsonView,
)
    ensures
        printed(JsonView::Null) == "null"@,
        printed(JsonView::Bool(true)) == "true"@,
        printed(JsonView::Bool(false)) == "false"@,
        printed(JsonView::Number(n)) == n.written,
        printed(JsonView::Text(s)) == quoted(s),
        printed(JsonView::Array(Seq::empty())) == "[]"@,
        printed(JsonView::Object(Seq::empty())) == "{}"@,
        printed(JsonView::Array(items.push(v))) == printed(JsonView::Array(items)).drop_last() + (
        if items.len() > 0 {
            ","@
        } else {
            Seq::empty()
        }) + printed(v) + "]"@,
        printed(JsonView::Object(entries.push((key, v)))) == printed(
            JsonView::Object(entries),
        ).drop_last() + (if entries.len() > 0 {
            ","@
        } else {
            Seq::empty()
        }) + quoted(key) + ":"@ + printed(v) + "}"@,
{
    reveal_strlit("[]");
    reveal_strlit("{}");
    reveal_strlit("[");
    reveal_strlit("]");
    reveal_strlit("{");
    reveal_strlit("}");
    reveal_with_fuel(printed, 2);
    let none = Seq::<JsonView>::empty();
    assert(printed_items(none) == Seq::<char>::empty());
    assert(printed(JsonView::Array(none)) == "[]"@);
    let empty = Seq::<(Seq<char>, JsonView)>::empty();
    assert(printed_entries(empty) == Seq::<char>::empty());
    assert(printed(JsonView::Object(empty)) == "{}"@);
    let more = items.push(v);
    assert(more.drop_last() == items);
    assert(more.last() == v);
    let list = "["@ + printed_items(items);
    assert(printed(JsonView::Array(items)).drop_last() == list);
    if items.len() > 0 {
        assert(printed_items(more) == printed_items(items) + ","@ + printed(v));
        assert(list + ","@ + printed(v) + "]"@ == "["@ + printed_items(more) + "]"@);
    } else {
        assert(printed_items(more) == printed(v));
        assert(list + Seq::<char>::empty() + printed(v) + "]"@ == "["@ + printed_items(more)
            + "]"@);
    }
    let members = entries.push((key, v));
    assert(members.drop_last() == entries);
    assert(members.last() == (key, v));
    let object = "{"@ + printed_entries(entries);
    assert(printed(JsonView::Object(entries)).drop_last() == object);
    if entries.len() > 0 {
        assert(printed_entries(members) == printed_entries(entries) + ","@ + quoted(key) + ":"@
            + printed(v));
        assert(object + ","@ + quoted(key) + ":"@ + printed(v) + "}"@ == "{"@ + printed_entries(
            members,
        ) + "}"@);
    } else {
        assert(printed_entries(members) == quoted(key) + ":"@ + printed(v));
        assert(object + Seq::<char>::empty() + quoted(key) + ":"@ + printed(v) + "}"@ == "{"@
            + printed_entries(members) + "}"@);
    }
}

} // verus!
