//! JSON documents as they arrive from the player plugin.
//!
//! Reading a line of text is left to `serde_json`. The rest of the library works on [`Json`],
//! which holds as plain values what can be asked of a document.
use vstd::prelude::*;

verus! {

/// A double-precision number, by the bits of its IEEE 754 form.
#[derive(Clone, Copy, Debug, PartialEq, Eq, Structural)]
pub struct Double {
    pub bits: u64,
}

/// A JSON number, by what it is as an integer and as a double-precision number.
#[derive(Clone, Copy, Debug, PartialEq, Eq, Structural)]
pub struct JsonNumber {
    pub integer: Option<i64>,
    pub double: Option<Double>,
}

/// A JSON document.
#[derive(Debug)]
pub enum Json {
    Null,
    Bool(bool),
    Number(JsonNumber),
    Text(String),
    List(Vec<Json>),
    Object(Vec<Entry>),
}

/// A member of a JSON object. Of two members with one name, the later one counts.
#[derive(Debug)]
pub struct Entry {
    pub name: String,
    pub value: Json,
}

/// What a JSON document holds.
pub enum JsonView {
    Null,
    Bool(bool),
    Number(JsonNumber),
    Text(Seq<char>),
    List(Seq<JsonView>),
    Object(Map<Seq<char>, JsonView>),
}

/// What the first `n` of `items` hold.
pub open spec fn items_view(items: Seq<Json>, n: nat) -> Seq<JsonView>
    decreases items, n,
{
    if n == 0 || n > items.len() {
        Seq::empty()
    } else {
        items_view(items, (n - 1) as nat).push(items[n - 1].view())
    }
}

/// What the first `n` of `entries` hold, by name.
pub open spec fn entries_view(entries: Seq<Entry>, n: nat) -> Map<Seq<char>, JsonView>
    decreases entries, n,
{
    if n == 0 || n > entries.len() {
        Map::empty()
    } else {
        entries_view(entries, (n - 1) as nat).insert(
            entries[n - 1].name@,
            entries[n - 1].value.view(),
        )
    }
}

/// The member of an object with the given name. Only objects have members.
pub open spec fn field(json: JsonView, name: Seq<char>) -> Option<JsonView> {
    match json {
        JsonView::Object(members) => if members.contains_key(name) {
            Some(members[name])
        } else {
            None
        },
        _ => None,
    }
}

/// The text of a JSON string.
pub open spec fn text(json: JsonView) -> Option<Seq<char>> {
    match json {
        JsonView::Text(text) => Some(text),
        _ => None,
    }
}

/// The value of a JSON number that is an integer in range.
pub open spec fn integer(json: JsonView) -> Option<i64> {
    match json {
        JsonView::Number(number) => number.integer,
        _ => None,
    }
}

/// The value of a JSON number as a double-precision number.
pub open spec fn double(json: JsonView) -> Option<Double> {
    match json {
        JsonView::Number(number) => number.double,
        _ => None,
    }
}

/// The value of a JSON boolean.
pub open spec fn flag(json: JsonView) -> Option<bool> {
    match json {
        JsonView::Bool(b) => Some(b),
        _ => None,
    }
}

/// The strings among `items`, in their order.
pub open spec fn strings_among(items: Seq<JsonView>) -> Seq<Seq<char>>
    decreases items.len(),
{
    if items.len() == 0 {
        Seq::empty()
    } else {
        match text(items.last()) {
            Some(t) => strings_among(items.drop_last()).push(t),
            None => strings_among(items.drop_last()),
        }
    }
}

/// The strings in a JSON array.
pub open spec fn strings(json: JsonView) -> Option<Seq<Seq<char>>> {
    match json {
        JsonView::List(items) => Some(strings_among(items)),
        _ => None,
    }
}

/// The text of a member.
pub open spec fn text_field(json: JsonView, name: Seq<char>) -> Option<Seq<char>> {
    match field(json, name) {
        Some(value) => text(value),
        None => None,
    }
}

/// The integer value of a member.
pub open spec fn integer_field(json: JsonView, name: Seq<char>) -> Option<i64> {
    match field(json, name) {
        Some(value) => integer(value),
        None => None,
    }
}

/// The double-precision value of a member.
pub open spec fn double_field(json: JsonView, name: Seq<char>) -> Option<Double> {
    match field(json, name) {
        Some(value) => double(value),
        None => None,
    }
}

/// The boolean value of a member.
pub open spec fn flag_field(json: JsonView, name: Seq<char>) -> Option<bool> {
    match field(json, name) {
        Some(value) => flag(value),
        None => None,
    }
}

/// The strings in a member that is an array.
pub open spec fn strings_field(json: JsonView, name: Seq<char>) -> Option<Seq<Seq<char>>> {
    match field(json, name) {
        Some(value) => strings(value),
        None => None,
    }
}

impl View for Json {
    type V = JsonView;

    open spec fn view(&self) -> JsonView
        decreases self, 0nat,
    {
        match self {
            Json::Null => JsonView::Null,
            Json::Bool(b) => JsonView::Bool(*b),
            Json::Number(number) => JsonView::Number(*number),
            Json::Text(text) => JsonView::Text(text@),
            Json::List(items) => JsonView::List(items_view(items@, items@.len())),
            Json::Object(entries) => JsonView::Object(entries_view(entries@, entries@.len())),
        }
    }
}

impl Json {
    /// The member with the given name, if this is an object that has one.
    pub fn get(&self, name: &str) -> (r: Option<&Json>)
        ensures
            match r {
                Some(value) => field(self@, name@) == Some(value@),
                None => field(self@, name@) is None,
            },
            match *self {
                Json::Object(entries) => match r {
                    Some(value) => exists|i: int|
                        {
                            &&& 0 <= i < entries@.len()
                            &&& (#[trigger] entries@[i]).name@ == name@
                            &&& entries@[i].value == *value
                            &&& forall|j: int|
                                i < j < entries@.len() ==> (#[trigger] entries@[j]).name@ != name@
                        },
                    None => forall|j: int|
                        0 <= j < entries@.len() ==> (#[trigger] entries@[j]).name@ != name@,
                },
                _ => r is None,
            },
    {
        match self {
            Json::Object(entries) => {
                let key = name.to_owned();
                let mut found: Option<&Json> = None;
                for i in 0..entries.len()
                    invariant
                        key@ == name@,
                        match found {
                            Some(value) => {
                                &&& entries_view(entries@, i as nat).contains_key(name@)
                                &&& entries_view(entries@, i as nat)[name@] == value@
                            },
                            None => !entries_view(entries@, i as nat).contains_key(name@),
                        },
                        match found {
                            Some(value) => exists|k: int|
                                {
                                    &&& 0 <= k < i
                                    &&& (#[trigger] entries@[k]).name@ == name@
                                    &&& entries@[k].value == *value
                                    &&& forall|j: int|
                                        k < j < i ==> (#[trigger] entries@[j]).name@ != name@
                                },
                            None => forall|j: int|
                                0 <= j < i ==> (#[trigger] entries@[j]).name@ != name@,
                        },
                {
                    assert(entries_view(entries@, (i + 1) as nat) == entries_view(
                        entries@,
                        i as nat,
                    ).insert(entries@[i as int].name@, entries@[i as int].value@));
                    if entries[i].name == key {
                        found = Some(&entries[i].value);
                    }
                }
                found
            },
            _ => None,
        }
    }

    /// The text, if this is a string.
    pub fn as_str(&self) -> (r: Option<&str>)
        ensures
            r.deep_view() == text(self@),
            match *self {
                Json::Text(t) => r matches Some(found) && found@ == t@,
                _ => r is None,
            },
    {
        match self {
            Json::Text(text) => Some(text.as_str()),
            _ => None,
        }
    }

    /// The integer value, if this is a number that has one.
    pub fn as_i64(&self) -> (r: Option<i64>)
        ensures
            r == integer(self@),
            match *self {
                Json::Number(number) => r == number.integer,
                _ => r is None,
            },
    {
        match self {
            Json::Number(number) => number.integer,
            _ => None,
        }
    }

    /// The double-precision value, if this is a number that has one.
    pub fn as_double(&self) -> (r: Option<Double>)
        ensures
            r == double(self@),
            match *self {
                Json::Number(number) => r == number.double,
                _ => r is None,
            },
    {
        match self {
            Json::Number(number) => number.double,
            _ => None,
        }
    }

    /// The boolean value, if this is one.
    pub fn as_bool(&self) -> (r: Option<bool>)
        ensures
            r == flag(self@),
            match *self {
                Json::Bool(b) => r == Some(b),
                _ => r is None,
            },
    {
        match self {
            Json::Bool(b) => Some(*b),
            _ => None,
        }
    }

    /// The strings in this array, if it is one. Items of another kind are left out.
    pub fn as_strings(&self) -> (r: Option<Vec<String>>)
        ensures
            r.deep_view() == strings(self@),
    {
        match self {
            Json::List(items) => {
                let mut found: Vec<String> = Vec::new();
                for i in 0..items.len()
                    invariant
                        found.deep_view() == strings_among(items_view(items@, i as nat)),
                {
                    let ghost before = items_view(items@, i as nat);
                    let ghost strings_before = found.deep_view();
                    assert(items_view(items@, (i + 1) as nat) == before.push(items@[i as int]@));
                    assert(items_view(items@, (i + 1) as nat).drop_last() == before);
                    match items[i].as_str() {
                        Some(text) => {
                            found.push(text.to_owned());
                            assert(found.deep_view() == strings_before.push(text@));
                        },
                        None => {},
                    }
                }
                Some(found)
            },
            _ => None,
        }
    }

    /// The text of a member.
    pub fn text_field(&self, name: &str) -> (r: Option<&str>)
        ensures
            r.deep_view() == text_field(self@, name@),
    {
        match self.get(name) {
            Some(value) => value.as_str(),
            None => None,
        }
    }

    /// The integer value of a member.
    pub fn integer_field(&self, name: &str) -> (r: Option<i64>)
        ensures
            r == integer_field(self@, name@),
    {
        match self.get(name) {
            Some(value) => value.as_i64(),
            None => None,
        }
    }

    /// The double-precision value of a member.
    pub fn double_field(&self, name: &str) -> (r: Option<Double>)
        ensures
            r == double_field(self@, name@),
    {
        match self.get(name) {
            Some(value) => value.as_double(),
            None => None,
        }
    }

    /// The boolean value of a member.
    pub fn flag_field(&self, name: &str) -> (r: Option<bool>)
        ensures
            r == flag_field(self@, name@),
    {
        match self.get(name) {
            Some(value) => value.as_bool(),
            None => None,
        }
    }

    /// The strings in a member that is an array.
    pub fn strings_field(&self, name: &str) -> (r: Option<Vec<String>>)
        ensures
            r.deep_view() == strings_field(self@, name@),
    {
        match self.get(name) {
            Some(value) => value.as_strings(),
            None => None,
        }
    }
}

/// `serde_json::Value`, a parsed document.
#[verifier::external_type_specification]
#[verifier::external_body]
pub struct ExValue(serde_json::Value);

/// `serde_json::Error`, the reason why a text is no document.
#[verifier::external_type_specification]
#[verifier::external_body]
pub struct ExError(serde_json::Error);

/// What a `serde_json::Value` holds. A number is taken by what `as_i64` and `as_f64` give.
pub uninterp spec fn value_view(value: serde_json::Value) -> JsonView;

/// What `serde_json` reads out of a text, or nothing where the text is not one JSON document.
pub uninterp spec fn parsed(line: Seq<char>) -> Option<JsonView>;

/// What the outcome of reading a document holds.
pub open spec fn outcome_view(outcome: Result<serde_json::Value, serde_json::Error>) -> Option<
    JsonView,
> {
    match outcome {
        Ok(value) => Some(value_view(value)),
        Err(_) => None,
    }
}

/// Calls `serde_json::from_str`. Which document comes out, or that none does, is a function of
/// the text alone; it is called [`parsed`], and nothing more is said of it here.
#[verifier::external_body]
fn read_value(line: &str) -> (r: Result<serde_json::Value, serde_json::Error>)
    ensures
        outcome_view(r) == parsed(line@),
{
    serde_json::from_str(line)
}

/// Takes a `serde_json::Value` apart, kind by kind, with `Number::as_i64` and `Number::as_f64`
/// for the numbers. What it holds stays the same.
#[verifier::external_body]
fn json_of(value: serde_json::Value) -> (r: Json)
    ensures
        r@ == value_view(value),
{
    match value {
        serde_json::Value::Null => Json::Null,
        serde_json::Value::Bool(b) => Json::Bool(b),
        serde_json::Value::Number(n) => Json::Number(JsonNumber {
            integer: n.as_i64(),
            double: n.as_f64().map(|x| Double { bits: x.to_bits() }),
        }),
        serde_json::Value::String(s) => Json::Text(s),
        serde_json::Value::Array(a) => Json::List(a.into_iter().map(json_of).collect()),
        serde_json::Value::Object(m) => Json::Object(
            m.into_iter().map(|(name, v)| Entry { name, value: json_of(v) }).collect()),
    }
}

/// Reads a line of text as a JSON document.
pub fn parse(line: &str) -> (r: Option<Json>)
    ensures
        match r {
            Some(json) => parsed(line@) == Some(json@),
            None => parsed(line@) is None,
        },
{
    match read_value(line) {
        Ok(value) => Some(json_of(value)),
        Err(_) => None,
    }
}

/// What a document holds is what it was made of: a plain value itself, a list its items one by
/// one.
pub proof fn law_view_of_plain_values(json: Json)
    ensures
        json is Null <==> json@ is Null,
        forall|b: bool| json == Json::Bool(b) <==> json@ == JsonView::Bool(b),
        forall|number: JsonNumber|
            json == Json::Number(number) <==> json@ == JsonView::Number(number),
        json is Text <==> json@ is Text,
        json is Text ==> json->Text_0@ == json@->Text_0,
        json is List <==> json@ is List,
        json is List ==> json->List_0@.len() == json@->List_0.len(),
        json is List ==> forall|i: int|
            0 <= i < json->List_0@.len() ==> #[trigger] json@->List_0[i] == json->List_0@[i]@,
        json is Object <==> json@ is Object,
{
    match json {
        Json::List(items) => {
            lemma_items_view(items@, items@.len());
        },
        _ => {},
    }
}

/// What the items of a list hold.
proof fn lemma_items_view(items: Seq<Json>, n: nat)
    requires
        n <= items.len(),
    ensures
        items_view(items, n).len() == n,
        forall|i: int| 0 <= i < n ==> #[trigger] items_view(items, n)[i] == items[i]@,
    decreases n,
{
    if n > 0 {
        lemma_items_view(items, (n - 1) as nat);
        assert(items_view(items, n) == items_view(items, (n - 1) as nat).push(items[n - 1]@));
    }
}

/// An object holds a member exactly under the names of its entries, and under each name the
/// value of the last entry of that name.
pub proof fn law_view_of_object(json: Json, name: Seq<char>)
    requires
        json is Object,
    ensures
        json@->Object_0.contains_key(name) <==> exists|i: int|
            0 <= i < json->Object_0@.len() && (#[trigger] json->Object_0@[i]).name@ == name,
        forall|i: int|
            0 <= i < json->Object_0@.len() && (#[trigger] json->Object_0@[i]).name@ == name && (
            forall|j: int|
                i < j < json->Object_0@.len() ==> (#[trigger] json->Object_0@[j]).name@ != name)
                ==> json@->Object_0[name] == json->Object_0@[i].value@,
{
    lemma_entries_view(json->Object_0@, json->Object_0@.len(), name);
}

/// What the entries of an object hold under a name.
proof fn lemma_entries_view(entries: Seq<Entry>, n: nat, name: Seq<char>)
    requires
        n <= entries.len(),
    ensures
        entries_view(entries, n).contains_key(name) <==> exists|i: int|
            0 <= i < n && (#[trigger] entries[i]).name@ == name,
        forall|i: int|
            0 <= i < n && (#[trigger] entries[i]).name@ == name && (forall|j: int|
                i < j < n ==> (#[trigger] entries[j]).name@ != name) ==> entries_view(
                entries,
                n,
            )[name] == entries[i].value@,
    decreases n,
{
    if n > 0 {
        let before = (n - 1) as nat;
        lemma_entries_view(entries, before, name);
        assert(entries_view(entries, n) == entries_view(entries, before).insert(
            entries[n - 1].name@,
            entries[n - 1].value@,
        ));
        assert(entries[n - 1].name@ == name ==> entries_view(entries, n).contains_key(name));
        if entries[n - 1].name@ != name && entries_view(entries, n).contains_key(name) {
            let i = choose|i: int| 0 <= i < before && (#[trigger] entries[i]).name@ == name;
            assert(0 <= i < n && entries[i].name@ == name);
        }
    }
}

/// A member of an object is found under its name, and read as what it is and as nothing else.
pub proof fn law_members_are_found(members: Map<Seq<char>, JsonView>, name: Seq<char>)
    ensures
        ({
            let json = JsonView::Object(members);
            let there = members.contains_key(name);
            &&& field(json, name) is Some <==> there
            &&& there ==> field(json, name)->0 == members[name]
            &&& forall|t: Seq<char>| #[trigger]
                text_field(json, name) == Some(t) <==> there && members[name] == JsonView::Text(t)
            &&& forall|b: bool| #[trigger]
                flag_field(json, name) == Some(b) <==> there && members[name] == JsonView::Bool(b)
            &&& integer_field(json, name) == if there && members[name] is Number {
                members[name]->Number_0.integer
            } else {
                None
            }
            &&& double_field(json, name) == if there && members[name] is Number {
                members[name]->Number_0.double
            } else {
                None
            }
        }),
{
}

/// What is not an object has no members.
pub proof fn law_only_objects_have_members(json: JsonView, name: Seq<char>)
    requires
        !(json is Object),
    ensures
        field(json, name) is None,
        text_field(json, name) is None,
        integer_field(json, name) is None,
        double_field(json, name) is None,
        flag_field(json, name) is None,
        strings_field(json, name) is None,
{
}

/// The strings in a list are its items that are strings, in their order, all of them.
pub proof fn law_strings_are_the_texts(items: Seq<JsonView>)
    ensures
        strings(JsonView::List(items)) == Some(
            items.filter(|item: JsonView| item is Text).map_values(
                |item: JsonView| item->Text_0,
            ),
        ),
    decreases items.len(),
{
    reveal(Seq::filter);
    let is_text = |item: JsonView| item is Text;
    let to_text = |item: JsonView| item->Text_0;
    if items.len() > 0 {
        law_strings_are_the_texts(items.drop_last());
        let before = items.drop_last().filter(is_text);
        if items.last() is Text {
            assert(before.push(items.last()).map_values(to_text) == before.map_values(to_text).push(
                items.last()->Text_0,
            ));
        }
    } else {
        assert(items.filter(is_text).map_values(to_text) == Seq::<Seq<char>>::empty());
    }
}

/// The strings in two lists, one behind the other, are those of the first and then those of the
/// second.
pub proof fn law_strings_concatenate(a: Seq<JsonView>, b: Seq<JsonView>)
    ensures
        strings(JsonView::List(a + b)) == Some(
            strings(JsonView::List(a))->0 + strings(JsonView::List(b))->0,
        ),
    decreases b.len(),
{
    if b.len() == 0 {
        assert(a + b == a);
    } else {
        law_strings_concatenate(a, b.drop_last());
        assert((a + b).drop_last() == a + b.drop_last());
    }
}

/// A list of one item holds one string where the item is one, and else none. What is not a list
/// holds no strings at all.
pub proof fn law_strings_of_one(item: JsonView, text: Seq<char>)
    ensures
        item == JsonView::Text(text) ==> strings(JsonView::List(seq![item])) == Some(seq![text]),
        !(item is Text) ==> strings(JsonView::List(seq![item])) == Some(Seq::<Seq<char>>::empty()),
        strings(JsonView::List(Seq::empty())) == Some(Seq::<Seq<char>>::empty()),
        !(item is List) ==> strings(item) is None,
{
    reveal_with_fuel(strings_among, 2);
    assert(seq![item].drop_last() == Seq::<JsonView>::empty());
    assert(seq![item].last() == item);
}

} // verus!
