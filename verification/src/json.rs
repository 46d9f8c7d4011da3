//! JSON values: the daemon's own type for them, and its two ways to text and back.

use ruma_common::serde::Raw;
use vstd::prelude::*;
use vstd::string::*;

use crate::text;

verus! {

/// `serde_json::Number`, carried through where a number is no 64-bit integer.
#[verifier::external_type_specification]
#[verifier::external_body]
pub struct ExNumber(serde_json::Number);

/// `serde_json::Value`, the form in which JSON enters and leaves the reader and the writer.
#[verifier::external_type_specification]
#[verifier::external_body]
pub struct ExValue(serde_json::Value);

/// `serde_json::Number::clone`: the copy is the same number.
pub assume_specification[ <serde_json::Number as Clone>::clone ](n: &serde_json::Number) -> (r:
    serde_json::Number)
    ensures
        r == *n,
;

/// A JSON value. An object keeps its members in order.
pub enum Json {
    Null,
    Bool(bool),
    Unsigned(u64),
    Signed(i64),
    Decimal(serde_json::Number),
    Text(String),
    Array(Vec<Json>),
    Object(Vec<(String, Json)>),
}

/// A JSON value as a mathematical value.
#[verifier::ext_equal]
pub enum JsonView {
    Null,
    Bool(bool),
    Unsigned(u64),
    Signed(i64),
    Decimal(serde_json::Number),
    Text(Seq<char>),
    Array(Seq<JsonView>),
    Object(Seq<(Seq<char>, JsonView)>),
}

/// The mathematical value of a JSON value.
pub open spec fn view_of(v: Json) -> JsonView
    decreases v,
{
    match v {
        Json::Null => JsonView::Null,
        Json::Bool(b) => JsonView::Bool(b),
        Json::Unsigned(n) => JsonView::Unsigned(n),
        Json::Signed(n) => JsonView::Signed(n),
        Json::Decimal(n) => JsonView::Decimal(n),
        Json::Text(s) => JsonView::Text(s@),
        Json::Array(items) => JsonView::Array(
            Seq::new(
                items@.len(),
                |i: int|
                    if 0 <= i < items@.len() {
                        view_of(items@[i])
                    } else {
                        JsonView::Null
                    },
            ),
        ),
        Json::Object(members) => JsonView::Object(
            Seq::new(
                members@.len(),
                |i: int|
                    if 0 <= i < members@.len() {
                        (members@[i].0@, view_of(members@[i].1))
                    } else {
                        (Seq::empty(), JsonView::Null)
                    },
            ),
        ),
    }
}

impl View for Json {
    type V = JsonView;

    open spec fn view(&self) -> JsonView {
        view_of(*self)
    }
}

/// The views of a list of values.
pub open spec fn views(items: Seq<Json>) -> Seq<JsonView> {
    items.map_values(|v: Json| v@)
}

/// The view of an optional value.
pub open spec fn opt_view(v: Option<Json>) -> Option<JsonView> {
    match v {
        Some(j) => Some(j@),
        None => None,
    }
}

/// The value of the first member with the given key.
pub open spec fn member(members: Seq<(Seq<char>, JsonView)>, key: Seq<char>) -> Option<JsonView>
    decreases members.len(),
{
    if members.len() == 0 {
        None
    } else if members[0].0 == key {
        Some(members[0].1)
    } else {
        member(members.drop_first(), key)
    }
}

impl JsonView {
    /// An object without members.
    pub open spec fn object() -> JsonView {
        JsonView::Object(Seq::empty())
    }

    /// The object with one more member at its end.
    pub open spec fn with(self, key: Seq<char>, value: JsonView) -> JsonView {
        JsonView::Object(self->Object_0.push((key, value)))
    }

    /// The member of an object with the given key; nothing of any other value.
    pub open spec fn get(self, key: Seq<char>) -> Option<JsonView> {
        match self {
            JsonView::Object(members) => member(members, key),
            _ => None,
        }
    }

    /// The member of an object with the given key, or null.
    pub open spec fn get_or_null(self, key: Seq<char>) -> JsonView {
        match self.get(key) {
            Some(v) => v,
            None => JsonView::Null,
        }
    }

    /// The text of a string.
    pub open spec fn as_text(self) -> Option<Seq<char>> {
        match self {
            JsonView::Text(s) => Some(s),
            _ => None,
        }
    }

    /// The items of an array.
    pub open spec fn as_items(self) -> Option<Seq<JsonView>> {
        match self {
            JsonView::Array(items) => Some(items),
            _ => None,
        }
    }

    /// The text of the string that an object holds under the given key.
    pub open spec fn text_at(self, key: Seq<char>) -> Option<Seq<char>> {
        match self.get(key) {
            Some(v) => v.as_text(),
            None => None,
        }
    }

    /// The truth value that an object holds under the given key.
    pub open spec fn bool_at(self, key: Seq<char>) -> Option<bool> {
        match self.get(key) {
            Some(JsonView::Bool(b)) => Some(b),
            _ => None,
        }
    }

    /// The items of the array that an object holds under the given key.
    pub open spec fn items_at(self, key: Seq<char>) -> Option<Seq<JsonView>> {
        match self.get(key) {
            Some(v) => v.as_items(),
            None => None,
        }
    }
}

/// An object with one more member has the members that it had, and that one where it had
/// none of that key.
pub proof fn lemma_get_with(v: JsonView, key: Seq<char>, value: JsonView, wanted: Seq<char>)
    requires
        v is Object,
    ensures
        v.with(key, value).get(wanted) == (if v.get(wanted) is Some {
            v.get(wanted)
        } else if key == wanted {
            Some(value)
        } else {
            None
        }),
    decreases v->Object_0.len(),
{
    let members = v->Object_0;
    let more = members.push((key, value));
    if members.len() > 0 {
        let rest = members.drop_first();
        assert(more.drop_first() =~= rest.push((key, value)));
        lemma_get_with(JsonView::Object(rest), key, value, wanted);
    } else {
        let none = Seq::<(Seq<char>, JsonView)>::empty();
        assert(more.drop_first() =~= none);
        assert(member(none, wanted) is None);
    }
}

/// Whether no two members have the same key.
pub open spec fn distinct_keys(members: Seq<(Seq<char>, JsonView)>) -> bool {
    forall|i: int, j: int|
        0 <= i < j < members.len() ==> (#[trigger] members[i]).0 != (#[trigger] members[j]).0
}

/// Whether a value is nested at most `room` deep, holds only integers in their usual
/// form, and has objects whose keys are distinct and do not begin with a dollar sign.
pub open spec fn plain(v: JsonView, room: nat) -> bool
    decreases room,
{
    match v {
        JsonView::Decimal(_) => false,
        JsonView::Signed(n) => n < 0,
        JsonView::Array(items) => room > 0 && forall|i: int|
            0 <= i < items.len() ==> #[trigger] plain(items[i], (room - 1) as nat),
        JsonView::Object(members) => {
            &&& room > 0
            &&& distinct_keys(members)
            &&& forall|i: int|
                0 <= i < members.len() ==> {
                    &&& (#[trigger] members[i]).0.len() > 0 ==> members[i].0[0] != '$'
                    &&& plain(members[i].1, (room - 1) as nat)
                }
        },
        _ => true,
    }
}

/// Whether a value survives being written as text and read again.
pub open spec fn survives_text(v: JsonView) -> bool {
    plain(v, 100)
}

/// What `serde_json::from_str` makes of a text: a value, or the words of its complaint.
pub uninterp spec fn json_read(source: Seq<char>) -> Result<JsonView, Seq<char>>;

/// What `serde_json::from_slice` makes of bytes: a value, or the words of its complaint.
pub uninterp spec fn json_read_bytes(source: Seq<u8>) -> Result<JsonView, Seq<char>>;

/// The string that `ruma_common::serde::Raw::get_field` finds under a key of a JSON text.
pub uninterp spec fn raw_text_field(source: Seq<char>, key: Seq<char>) -> Option<Seq<char>>;

/// The value that `ruma_common::serde::Raw::get_field` finds under a key of a JSON text.
pub uninterp spec fn raw_json_field(source: Seq<char>, key: Seq<char>) -> Option<JsonView>;

/// The compact text that `serde_json` writes for a value.
pub uninterp spec fn json_written(v: JsonView) -> Seq<char>;

/// What came of reading JSON, seen as a mathematical value.
pub open spec fn read_view(r: Result<Json, String>) -> Result<JsonView, Seq<char>> {
    match r {
        Ok(v) => Ok(v@),
        Err(e) => Err(e@),
    }
}

/// Whether reading a text gives the value.
pub open spec fn reads_as(source: Seq<char>, v: JsonView) -> bool {
    json_read(source) == Ok::<JsonView, Seq<char>>(v)
}

/// Whether a line carries a value: it is the text that is written for it, it is one line,
/// and it reads as the value again where that survives being written.
pub open spec fn carries(line: Seq<char>, v: JsonView) -> bool {
    &&& line == json_written(v)
    &&& !line.contains('\n')
    &&& survives_text(v) ==> reads_as(line, v)
}

/// Whether lines carry values, one each and in the same order.
pub open spec fn all_carry(lines: Seq<String>, values: Seq<JsonView>) -> bool {
    &&& lines.len() == values.len()
    &&& forall|i: int| 0 <= i < lines.len() ==> carries((#[trigger] lines[i])@, values[i])
}

/// Lines that carry values, and further ones that carry further values, together carry them
/// all.
pub proof fn lemma_all_carry(
    lines: Seq<String>,
    values: Seq<JsonView>,
    more: Seq<String>,
    further: Seq<JsonView>,
)
    requires
        all_carry(lines, values),
        all_carry(more, further),
    ensures
        all_carry(lines + more, values + further),
{
}

/// Moves a `serde_json::Value` into a [`Json`], member by member.
#[verifier::external_body]
pub(crate) fn from_value(value: serde_json::Value) -> Json {
    match value {
        serde_json::Value::Null => Json::Null,
        serde_json::Value::Bool(b) => Json::Bool(b),
        serde_json::Value::Number(n) => match (n.as_u64(), n.as_i64()) {
            (Some(u), _) => Json::Unsigned(u),
            (None, Some(i)) => Json::Signed(i),
            (None, None) => Json::Decimal(n),
        },
        serde_json::Value::String(s) => Json::Text(s),
        serde_json::Value::Array(v) => Json::Array(v.into_iter().map(from_value).collect()),
        serde_json::Value::Object(m) =>
            Json::Object(m.into_iter().map(|(k, v)| (k, from_value(v))).collect()),
    }
}

/// Copies a [`Json`] into a `serde_json::Value`, member by member.
#[verifier::external_body]
fn to_value(json: &Json) -> serde_json::Value {
    match json {
        Json::Null => serde_json::Value::Null,
        Json::Bool(b) => serde_json::Value::Bool(*b),
        Json::Unsigned(n) => serde_json::Value::from(*n),
        Json::Signed(n) => serde_json::Value::from(*n),
        Json::Decimal(n) => serde_json::Value::Number(n.clone()),
        Json::Text(s) => serde_json::Value::String(s.clone()),
        Json::Array(v) => serde_json::Value::Array(v.iter().map(to_value).collect()),
        Json::Object(m) =>
            serde_json::Value::Object(m.iter().map(|(k, v)| (k.clone(), to_value(v))).collect()),
    }
}

/// `serde_json::from_str`: reads a text as one JSON value. The outcome is named by
/// `json_read`: it depends on the text alone.
#[verifier::external_body]
fn read_text(source: &str) -> (r: Result<Json, String>)
    ensures
        read_view(r) == json_read(source@),
{
    match serde_json::from_str::<serde_json::Value>(source) {
        Ok(value) => Ok(from_value(value)),
        Err(err) => Err(err.to_string()),
    }
}

/// `serde_json::from_slice`: reads bytes as one JSON value. The outcome is named by
/// `json_read_bytes`: it depends on the bytes alone.
#[verifier::external_body]
fn read_bytes(source: &[u8]) -> (r: Result<Json, String>)
    ensures
        read_view(r) == json_read_bytes(source@),
{
    match serde_json::from_slice::<serde_json::Value>(source) {
        Ok(value) => Ok(from_value(value)),
        Err(err) => Err(err.to_string()),
    }
}

/// `ruma_common::serde::Raw::get_field` at a string, on the `Raw` of a text: what it finds
/// under a key, named by `raw_text_field`. A text that is no JSON, a value that is no object
/// and a member that is missing, null or no string all give nothing. The outcome depends on
/// the text and the key alone.
#[verifier::external_body]
fn read_text_field(source: &str, key: &str) -> (r: Option<String>)
    ensures
        text::opt_text(r) == raw_text_field(source@, key@),
{
    let raw = Raw::<serde_json::Value>::from_json_string(source.to_owned()).ok()?;
    raw.get_field::<String>(key).ok().flatten()
}

/// `ruma_common::serde::Raw::get_field` at any JSON value, on the `Raw` of a text: what it
/// finds under a key, named by `raw_json_field`. A text that is no JSON, a value that is no
/// object and a member that is missing or null all give nothing. The outcome depends on the
/// text and the key alone.
#[verifier::external_body]
fn read_json_field(source: &str, key: &str) -> (r: Option<Json>)
    ensures
        opt_view(r) == raw_json_field(source@, key@),
{
    let raw = Raw::<serde_json::Value>::from_json_string(source.to_owned()).ok()?;
    raw.get_field::<serde_json::Value>(key).ok().flatten().map(from_value)
}

/// The string under a key of the object that a text holds, where there is one.
pub fn text_field(source: &str, key: &str) -> (r: Option<String>)
    ensures
        text::opt_text(r) == raw_text_field(source@, key@),
{
    read_text_field(source, key)
}

/// The value under a key of the object that a text holds, where there is one.
pub fn json_field(source: &str, key: &str) -> (r: Option<Json>)
    ensures
        opt_view(r) == raw_json_field(source@, key@),
{
    read_json_field(source, key)
}

/// `serde_json::Value::to_string`: writes a value as compact text. The text is named by
/// `json_written`. It holds no line break, since control characters are escaped and
/// nothing is put between the tokens; and reading it gives the value back, for values that
/// the reader takes in the form in which they are written.
#[verifier::external_body]
fn write_text(json: &Json) -> (r: String)
    ensures
        r@ == json_written(json@),
        !r@.contains('\n'),
        survives_text(json@) ==> reads_as(r@, json@),
{
    to_value(json).to_string()
}

impl Json {
    /// Reads a text as one JSON value, or gives the reader's complaint.
    pub fn parse(source: &str) -> (r: Result<Json, String>)
        ensures
            read_view(r) == json_read(source@),
    {
        read_text(source)
    }

    /// Reads bytes as one JSON value, or gives the reader's complaint.
    pub fn parse_bytes(source: &[u8]) -> (r: Result<Json, String>)
        ensures
            read_view(r) == json_read_bytes(source@),
    {
        read_bytes(source)
    }

    /// The value as compact text, on one line.
    pub fn to_text(&self) -> (r: String)
        ensures
            carries(r@, self@),
    {
        write_text(self)
    }

    /// A string value.
    pub fn text(s: &str) -> (r: Json)
        ensures
            r@ == JsonView::Text(s@),
    {
        Json::Text(s.to_owned())
    }

    /// A string value, or null.
    pub fn opt_text(s: &Option<String>) -> (r: Json)
        ensures
            r@ == opt_text_view(text::opt_text(*s)),
    {
        match s {
            Some(v) => Json::text(v.as_str()),
            None => Json::Null,
        }
    }

    /// An array value.
    pub fn array(items: Vec<Json>) -> (r: Json)
        ensures
            r@ == JsonView::Array(views(items@)),
    {
        let r = Json::Array(items);
        assert(r@->Array_0 =~= views(items@));
        r
    }

    /// An object without members.
    pub fn object() -> (r: Json)
        ensures
            r@ == JsonView::object(),
    {
        let r = Json::Object(Vec::new());
        assert(r@->Object_0 =~= Seq::empty());
        r
    }

    /// The object with one more member at its end.
    pub fn with(self, key: &str, value: Json) -> (r: Json)
        requires
            self is Object,
        ensures
            r is Object,
            r@ == self@.with(key@, value@),
    {
        let ghost before = self@->Object_0;
        match self {
            Json::Object(members) => {
                let mut members = members;
                members.push((key.to_owned(), value));
                let r = Json::Object(members);
                assert(r@->Object_0 =~= before.push((key@, value@)));
                r
            },
            other => other,
        }
    }

    /// The member of an object with the given key; nothing of any other value.
    pub fn get(&self, key: &str) -> (r: Option<&Json>)
        ensures
            match r {
                Some(v) => self@.get(key@) == Some(v@),
                None => self@.get(key@) is None,
            },
    {
        match self {
            Json::Object(members) => {
                let mut i: usize = 0;
                let ghost all = self@->Object_0;
                assert(all.skip(0) =~= all);
                while i < members.len()
                    invariant
                        i <= members.len(),
                        self@ == JsonView::Object(all),
                        all.len() == members.len(),
                        forall|k: int|
                            0 <= k < members.len() ==> #[trigger] all[k] == (
                                members@[k].0@,
                                members@[k].1@,
                            ),
                        member(all, key@) == member(all.skip(i as int), key@),
                    decreases members.len() - i,
                {
                    let m: &(String, Json) = &members[i];
                    assert(all.skip(i as int)[0] == all[i as int]);
                    if text::str_eq(m.0.as_str(), key) {
                        return Some(&m.1);
                    }
                    assert(all.skip(i as int).drop_first() =~= all.skip(i + 1));
                    i = i + 1;
                }
                None
            },
            _ => None,
        }
    }

    /// The text of a string.
    pub fn as_text(&self) -> (r: Option<&str>)
        ensures
            match r {
                Some(s) => self@.as_text() == Some(s@),
                None => self@.as_text() is None,
            },
    {
        match self {
            Json::Text(s) => Some(s.as_str()),
            _ => None,
        }
    }

    /// The text of the string that an object holds under the given key.
    pub fn text_at(&self, key: &str) -> (r: Option<&str>)
        ensures
            match r {
                Some(s) => self@.text_at(key@) == Some(s@),
                None => self@.text_at(key@) is None,
            },
    {
        match self.get(key) {
            Some(v) => v.as_text(),
            None => None,
        }
    }

    /// The truth value that an object holds under the given key.
    pub fn bool_at(&self, key: &str) -> (r: Option<bool>)
        ensures
            r == self@.bool_at(key@),
    {
        match self.get(key) {
            Some(Json::Bool(b)) => Some(*b),
            _ => None,
        }
    }

    /// The items of an array.
    pub fn as_items(&self) -> (r: Option<&Vec<Json>>)
        ensures
            match r {
                Some(items) => self@.as_items() == Some(views(items@)),
                None => self@.as_items() is None,
            },
    {
        match self {
            Json::Array(items) => {
                assert(self@->Array_0 =~= views(items@));
                Some(items)
            },
            _ => None,
        }
    }

    /// The items of the array that an object holds under the given key.
    pub fn items_at(&self, key: &str) -> (r: Option<&Vec<Json>>)
        ensures
            match r {
                Some(items) => self@.items_at(key@) == Some(views(items@)),
                None => self@.items_at(key@) is None,
            },
    {
        match self.get(key) {
            Some(v) => v.as_items(),
            None => None,
        }
    }

    /// Whether the value is an object.
    pub fn is_object(&self) -> (r: bool)
        ensures
            r == (self@ is Object),
    {
        match self {
            Json::Object(_) => true,
            _ => false,
        }
    }

    /// A copy of the member of an object with the given key, or null.
    pub fn copy_at(&self, key: &str) -> (r: Json)
        ensures
            r@ == self@.get_or_null(key@),
    {
        match self.get(key) {
            Some(v) => v.copy(),
            None => Json::Null,
        }
    }

    /// A copy of the value.
    pub fn copy(&self) -> (r: Json)
        ensures
            r@ == self@,
        decreases self,
    {
        match self {
            Json::Null => Json::Null,
            Json::Bool(b) => Json::Bool(*b),
            Json::Unsigned(n) => Json::Unsigned(*n),
            Json::Signed(n) => Json::Signed(*n),
            Json::Decimal(n) => Json::Decimal(n.clone()),
            Json::Text(s) => Json::Text(s.clone()),
            Json::Array(items) => {
                let mut out: Vec<Json> = Vec::new();
                let mut i: usize = 0;
                while i < items.len()
                    invariant
                        i <= items.len(),
                        out.len() == i,
                        decreases_to!(self => items),
                        forall|k: int| 0 <= k < i ==> (#[trigger] out@[k])@ == items@[k]@,
                    decreases items.len() - i,
                {
                    let item: Json = items[i].copy();
                    out.push(item);
                    i = i + 1;
                }
                let r = Json::Array(out);
                assert(r@->Array_0 =~= self@->Array_0);
                r
            },
            Json::Object(members) => {
                let mut out: Vec<(String, Json)> = Vec::new();
                let mut i: usize = 0;
                while i < members.len()
                    invariant
                        i <= members.len(),
                        out.len() == i,
                        decreases_to!(self => members),
                        forall|k: int|
                            0 <= k < i ==> (#[trigger] out@[k]).0@ == members@[k].0@
                                && out@[k].1@ == members@[k].1@,
                    decreases members.len() - i,
                {
                    let ghost m = members@[i as int];
                    assert(decreases_to!(members => m));
                    assert(decreases_to!(m => m.1));
                    let value: Json = members[i].1.copy();
                    out.push((members[i].0.clone(), value));
                    i = i + 1;
                }
                let r = Json::Object(out);
                assert(r@->Object_0 =~= self@->Object_0);
                r
            },
        }
    }
}

/// A string value, or null, as a mathematical value.
pub open spec fn opt_text_view(s: Option<Seq<char>>) -> JsonView {
    match s {
        Some(t) => JsonView::Text(t),
        None => JsonView::Null,
    }
}

/// A copy of an optional value.
pub fn copy_opt(v: &Option<Json>) -> (r: Option<Json>)
    ensures
        opt_view(r) == opt_view(*v),
{
    match v {
        Some(j) => Some(j.copy()),
        None => None,
    }
}

} // verus!
