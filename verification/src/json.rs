//! The JSON documents that the Dropbox API exchanges: a value type, the
//! exact text that a value serializes to, and the serializer itself.
use rustc_serialize::json::Json;
use vstd::prelude::*;
use vstd::string::StringExecFns;

verus! {

broadcast use vstd::seq::group_seq_axioms, vstd::std_specs::vec::group_vec_axioms;

/// A JSON document as the library handles it: numbers are restricted to the
/// non-negative integers the API uses (sizes, counts), and object members
/// keep the order in which they were built.
#[derive(Debug, PartialEq)]
pub enum JsonValue {
    Null,
    Boolean(bool),
    U64(u64),
    Str(String),
    Array(Vec<JsonValue>),
    Object(Vec<(String, JsonValue)>),
}

/// The mathematical shape of a `JsonValue`: the same tree over `Seq`.
#[verifier::ext_equal]
pub enum JsonView {
    Null,
    Boolean(bool),
    U64(u64),
    Str(Seq<char>),
    Array(Seq<JsonView>),
    Object(Seq<(Seq<char>, JsonView)>),
}

pub open spec fn json_view(v: JsonValue) -> JsonView
    decreases v,
{
    match v {
        JsonValue::Null => JsonView::Null,
        JsonValue::Boolean(b) => JsonView::Boolean(b),
        JsonValue::U64(n) => JsonView::U64(n),
        JsonValue::Str(s) => JsonView::Str(s@),
        JsonValue::Array(a) => JsonView::Array(
            Seq::new(
                a@.len(),
                |i: int|
                    if 0 <= i < a@.len() {
                        json_view(a@[i])
                    } else {
                        JsonView::Null
                    },
            ),
        ),
        JsonValue::Object(o) => JsonView::Object(
            Seq::new(
                o@.len(),
                |i: int|
                    if 0 <= i < o@.len() {
                        (o@[i].0@, json_view(o@[i].1))
                    } else {
                        (Seq::empty(), JsonView::Null)
                    },
            ),
        ),
    }
}

impl View for JsonValue {
    type V = JsonView;

    open spec fn view(&self) -> JsonView {
        json_view(*self)
    }
}

/// The character for one decimal or hexadecimal digit.
pub open spec fn digit_char(d: nat) -> char {
    if d == 0 {
        '0'
    } else if d == 1 {
        '1'
    } else if d == 2 {
        '2'
    } else if d == 3 {
        '3'
    } else if d == 4 {
        '4'
    } else if d == 5 {
        '5'
    } else if d == 6 {
        '6'
    } else if d == 7 {
        '7'
    } else if d == 8 {
        '8'
    } else if d == 9 {
        '9'
    } else if d == 10 {
        'a'
    } else if d == 11 {
        'b'
    } else if d == 12 {
        'c'
    } else if d == 13 {
        'd'
    } else if d == 14 {
        'e'
    } else {
        'f'
    }
}

/// The decimal digits of `n`, most significant first.
pub open spec fn dec_digits(n: nat) -> Seq<char>
    decreases n,
{
    if n < 10 {
        seq![digit_char(n)]
    } else {
        dec_digits(n / 10) + seq![digit_char(n % 10)]
    }
}

/// How one character comes out of JSON string escaping: the quote and the
/// backslash get a backslash, the short escapes stand for their control
/// characters, every other control character and delete become a
/// lowercase `\u00..` escape, and everything else stands for itself.
pub open spec fn escaped_char(c: char) -> Seq<char> {
    if c == '"' {
        seq!['\\', '"']
    } else if c == '\\' {
        seq!['\\', '\\']
    } else if c == '\u{8}' {
        seq!['\\', 'b']
    } else if c == '\t' {
        seq!['\\', 't']
    } else if c == '\n' {
        seq!['\\', 'n']
    } else if c == '\u{c}' {
        seq!['\\', 'f']
    } else if c == '\r' {
        seq!['\\', 'r']
    } else if (c as u32) < 0x20 || (c as u32) == 0x7f {
        seq!['\\', 'u', '0', '0', digit_char((c as u32 / 16) as nat), digit_char(
            (c as u32 % 16) as nat,
        )]
    } else {
        seq![c]
    }
}

/// A whole character sequence after JSON string escaping.
pub open spec fn escaped_text(s: Seq<char>) -> Seq<char>
    decreases s.len(),
{
    if s.len() == 0 {
        Seq::empty()
    } else {
        escaped_char(s[0]) + escaped_text(s.drop_first())
    }
}

/// A JSON string literal: the escaped text between double quotes.
pub open spec fn quoted_text(s: Seq<char>) -> Seq<char> {
    seq!['"'] + escaped_text(s) + seq!['"']
}

/// The compact JSON text of a value, as the API sends and receives it:
/// no whitespace, object members in the order the value holds them.
pub open spec fn json_text_of(v: JsonView) -> Seq<char>
    decreases v, 0int, 0int,
{
    match v {
        JsonView::Null => seq!['n', 'u', 'l', 'l'],
        JsonView::Boolean(b) => if b {
            seq!['t', 'r', 'u', 'e']
        } else {
            seq!['f', 'a', 'l', 's', 'e']
        },
        JsonView::U64(n) => dec_digits(n as nat),
        JsonView::Str(s) => quoted_text(s),
        JsonView::Array(a) => seq!['['] + array_items_text(a, a.len() as int) + seq![']'],
        JsonView::Object(o) => seq!['{'] + object_items_text(o, o.len() as int) + seq!['}'],
    }
}

/// The first `i` members of an array, comma-separated.
pub open spec fn array_items_text(a: Seq<JsonView>, i: int) -> Seq<char>
    decreases a, 1int, i,
{
    if i <= 0 || i > a.len() {
        Seq::empty()
    } else if i == 1 {
        json_text_of(a[0])
    } else {
        array_items_text(a, i - 1) + seq![','] + json_text_of(a[i - 1])
    }
}

/// The first `i` members of an object: quoted key, colon, value,
/// comma-separated.
pub open spec fn object_items_text(o: Seq<(Seq<char>, JsonView)>, i: int) -> Seq<char>
    decreases o, 1int, i,
{
    if i <= 0 || i > o.len() {
        Seq::empty()
    } else if i == 1 {
        quoted_text(o[0].0) + seq![':'] + json_text_of(o[0].1)
    } else {
        object_items_text(o, i - 1) + seq![','] + quoted_text(o[i - 1].0) + seq![':']
            + json_text_of(o[i - 1].1)
    }
}

/// Lookup among object members from index `i` on: the first member whose
/// key matches wins.
pub open spec fn obj_get_from(o: Seq<(Seq<char>, JsonView)>, key: Seq<char>, i: int) -> Option<
    JsonView,
>
    decreases o.len() - i,
{
    if i < 0 || i >= o.len() {
        None
    } else if o[i].0 == key {
        Some(o[i].1)
    } else {
        obj_get_from(o, key, i + 1)
    }
}

/// The member of an object named `key`, if the value is an object and has
/// one; the first match wins.
pub open spec fn json_get(v: JsonView, key: Seq<char>) -> Option<JsonView> {
    match v {
        JsonView::Object(o) => obj_get_from(o, key, 0),
        _ => None,
    }
}

/// One decimal digit as text.
fn digit_str(d: u64) -> (r: &'static str)
    requires
        d < 10,
    ensures
        r@ == seq![digit_char(d as nat)],
{
    let r: &'static str = match d {
        0 => "0",
        1 => "1",
        2 => "2",
        3 => "3",
        4 => "4",
        5 => "5",
        6 => "6",
        7 => "7",
        8 => "8",
        _ => "9",
    };
    proof {
        reveal_strlit("0");
        reveal_strlit("1");
        reveal_strlit("2");
        reveal_strlit("3");
        reveal_strlit("4");
        reveal_strlit("5");
        reveal_strlit("6");
        reveal_strlit("7");
        reveal_strlit("8");
        reveal_strlit("9");
        assert(r@ =~= seq![digit_char(d as nat)]);
    }
    r
}

/// `n` written in decimal.
pub fn u64_digits(n: u64) -> (r: String)
    ensures
        r@ == dec_digits(n as nat),
    decreases n,
{
    if n < 10 {
        digit_str(n).to_owned()
    } else {
        let mut s = u64_digits(n / 10);
        s.append(digit_str(n % 10));
        s
    }
}

/// Relies on rustc_serialize's `json::encode` for a `&str`: the escaped
/// text between double quotes, as `escape_str` in its `json` module
/// writes it.
#[verifier::external_body]
fn quote_string(s: &str) -> (r: String)
    ensures
        r@ == quoted_text(s@),
{
    rustc_serialize::json::encode(&s).unwrap()
}

impl JsonValue {
    /// The compact JSON text of this value.
    pub fn render(&self) -> (r: String)
        ensures
            r@ == json_text_of(self@),
        decreases *self,
    {
        match self {
            JsonValue::Null => {
                let r = "null".to_owned();
                proof {
                    reveal_strlit("null");
                    assert(r@ =~= json_text_of(self@));
                }
                r
            },
            JsonValue::Boolean(b) => {
                let r = if *b {
                    "true".to_owned()
                } else {
                    "false".to_owned()
                };
                proof {
                    reveal_strlit("true");
                    reveal_strlit("false");
                    assert(r@ =~= json_text_of(self@));
                }
                r
            },
            JsonValue::U64(n) => u64_digits(*n),
            JsonValue::Str(s) => quote_string(s.as_str()),
            JsonValue::Array(a) => {
                let ghost av = self@->Array_0;
                let mut s = "[".to_owned();
                proof {
                    reveal_strlit("[");
                    assert(s@ =~= seq!['['] + array_items_text(av, 0));
                }
                let mut i: usize = 0;
                while i < a.len()
                    invariant
                        i <= a.len(),
                        av.len() == a.len(),
                        forall|j: int| 0 <= j < a.len() ==> av[j] == json_view(a[j]),
                        s@ == seq!['['] + array_items_text(av, i as int),
                        *self == JsonValue::Array(*a),
                    decreases a.len() - i,
                {
                    if i > 0 {
                        s.append(",");
                        proof {
                            reveal_strlit(",");
                        }
                    }
                    proof {
                        assert(decreases_to!(*self => self->Array_0));
                        assert(self->Array_0 == *a);
                        assert(decreases_to!(*a => a[i as int]));
                    }
                    let item = a[i].render();
                    s.append(item.as_str());
                    proof {
                        assert(s@ =~= seq!['['] + array_items_text(av, i + 1 as int));
                    }
                    i = i + 1;
                }
                s.append("]");
                proof {
                    reveal_strlit("]");
                    assert(s@ =~= json_text_of(self@));
                }
                s
            },
            JsonValue::Object(o) => {
                let ghost ov = self@->Object_0;
                let mut s = "{".to_owned();
                proof {
                    reveal_strlit("{");
                    assert(s@ =~= seq!['{'] + object_items_text(ov, 0));
                }
                let mut i: usize = 0;
                while i < o.len()
                    invariant
                        i <= o.len(),
                        ov.len() == o.len(),
                        forall|j: int| 0 <= j < o.len() ==> ov[j] == (o[j].0@, json_view(o[j].1)),
                        s@ == seq!['{'] + object_items_text(ov, i as int),
                        *self == JsonValue::Object(*o),
                    decreases o.len() - i,
                {
                    if i > 0 {
                        s.append(",");
                        proof {
                            reveal_strlit(",");
                        }
                    }
                    let key = quote_string(o[i].0.as_str());
                    s.append(key.as_str());
                    s.append(":");
                    proof {
                        reveal_strlit(":");
                        assert(decreases_to!(*self => self->Object_0));
                        assert(self->Object_0 == *o);
                        assert(decreases_to!(*o => o[i as int]));
                    }
                    let item = o[i].1.render();
                    s.append(item.as_str());
                    proof {
                        assert(s@ =~= seq!['{'] + object_items_text(ov, i + 1 as int));
                    }
                    i = i + 1;
                }
                s.append("}");
                proof {
                    reveal_strlit("}");
                    assert(s@ =~= json_text_of(self@));
                }
                s
            },
        }
    }
}

impl JsonValue {
    /// The member of an object named `key`: a linear scan in which the
    /// first match wins.
    pub fn get<'a>(&'a self, key: &str) -> (r: Option<&'a JsonValue>)
        ensures
            (match r {
                Some(w) => json_get(self@, key@) == Some(w@),
                None => json_get(self@, key@) is None,
            }),
    {
        match self {
            JsonValue::Object(o) => {
                let ghost ov = self@->Object_0;
                proof {
                    assert(ov.len() == o.len());
                }
                let mut i: usize = 0;
                while i < o.len()
                    invariant
                        i <= o.len(),
                        ov == json_view(*self)->Object_0,
                        *self == JsonValue::Object(*o),
                        ov.len() == o.len(),
                        forall|j: int| 0 <= j < o.len() ==> ov[j] == (o[j].0@, json_view(o[j].1)),
                        obj_get_from(ov, key@, 0) == obj_get_from(ov, key@, i as int),
                    decreases o.len() - i,
                {
                    if o[i].0.eq(&key.to_owned()) {
                        proof {
                            assert(ov[i as int].0 == key@);
                            assert(obj_get_from(ov, key@, i as int) == Some(ov[i as int].1));
                        }
                        return Some(&o[i].1);
                    }
                    proof {
                        assert(ov[i as int].0 != key@);
                    }
                    i = i + 1;
                }
                None
            },
            _ => None,
        }
    }
}

/// Declares rustc_serialize's `Json` tree so that the translation below
/// can take it apart; the library holds no value of it otherwise.
#[verifier::external_type_specification]
#[verifier::external_body]
pub struct ExJson(Json);

/// What parsing a JSON text yields, named: the composition of
/// rustc_serialize's `Json::from_str` with the translation below into the
/// library's value type, a function of the text alone.
pub uninterp spec fn json_parse_of(s: Seq<char>) -> Option<JsonView>;

/// Relies on rustc_serialize's `Json` tree: translates it into the
/// library's value type, one variant to one variant with its fields
/// moved; a number that is not a `u64` has no counterpart here and
/// yields `None`.
#[verifier::external_body]
fn from_crate_tree(j: Json) -> Option<JsonValue> {
    match j {
        Json::Null => Some(JsonValue::Null),
        Json::Boolean(b) => Some(JsonValue::Boolean(b)),
        Json::U64(n) => Some(JsonValue::U64(n)),
        Json::I64(_) => None,
        Json::F64(_) => None,
        Json::String(s) => Some(JsonValue::Str(s)),
        Json::Array(a) => a.into_iter().map(from_crate_tree).collect::<Option<Vec<_>>>().map(
            JsonValue::Array,
        ),
        Json::Object(o) => o.into_iter().map(
            |kv| from_crate_tree(kv.1).map(|w| (kv.0, w)),
        ).collect::<Option<Vec<_>>>().map(JsonValue::Object),
    }
}

/// Relies on rustc_serialize's `Json::from_str`: parses JSON text, here
/// followed by the translation above; what the pair returns is named
/// `json_parse_of`. Object members arrive sorted by key and without
/// duplicates, numbers other than `u64` make the whole parse fail.
#[verifier::external_body]
pub fn parse_json(s: &str) -> (r: Option<JsonValue>)
    ensures
        (match r {
            Some(v) => json_parse_of(s@) == Some(v@),
            None => json_parse_of(s@) is None,
        }),
{
    match Json::from_str(s) {
        Ok(j) => from_crate_tree(j),
        Err(_) => None,
    }
}

} // verus!
