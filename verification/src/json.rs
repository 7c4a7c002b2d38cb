//! The library's JSON value type and its mathematical model.
//!
//! A document is held as a [`JsonValue`]; contracts speak of its view,
//! the ghost datatype [`Json`], whose strings are `Seq<char>`, whose
//! arrays are `Seq<Json>`, and whose objects are ordered sequences of
//! key/value pairs. A number is carried as its decimal text, so the
//! engine never computes with it; it only echoes it back.

use vstd::prelude::*;

verus! {

broadcast use
    vstd::std_specs::vec::axiom_vec_index_decreases,
    vstd::std_specs::vec::axiom_vec_decreases_to_view,
    vstd::seq::axiom_seq_index_decreases,
    vstd::seq::axiom_seq_subrange_decreases,
;

/// Mathematical model of a JSON document.
pub enum Json {
    Null,
    Bool(bool),
    Num(Seq<char>),
    Str(Seq<char>),
    Arr(Seq<Json>),
    Obj(Seq<(Seq<char>, Json)>),
}

/// A JSON document: the value type every component of the engine works on.
#[derive(Debug, PartialEq)]
pub enum JsonValue {
    Null,
    Bool(bool),
    Num(String),
    Str(String),
    Arr(Vec<JsonValue>),
    Obj(Vec<(String, JsonValue)>),
}

pub open spec fn json_view(v: &JsonValue) -> Json
    decreases v,
{
    match v {
        JsonValue::Null => Json::Null,
        JsonValue::Bool(b) => Json::Bool(*b),
        JsonValue::Num(t) => Json::Num(t@),
        JsonValue::Str(s) => Json::Str(s@),
        JsonValue::Arr(items) => Json::Arr(arr_view(items@)),
        JsonValue::Obj(entries) => Json::Obj(obj_view(entries@)),
    }
}

pub open spec fn arr_view(items: Seq<JsonValue>) -> Seq<Json>
    decreases items,
{
    if items.len() == 0 {
        Seq::empty()
    } else {
        arr_view(items.subrange(0, items.len() - 1)).push(json_view(&items[items.len() - 1]))
    }
}

pub open spec fn obj_view(entries: Seq<(String, JsonValue)>) -> Seq<(Seq<char>, Json)>
    decreases entries,
{
    if entries.len() == 0 {
        Seq::empty()
    } else {
        obj_view(entries.subrange(0, entries.len() - 1)).push(
            (entries[entries.len() - 1].0@, json_view(&entries[entries.len() - 1].1)),
        )
    }
}

impl View for JsonValue {
    type V = Json;

    open spec fn view(&self) -> Json {
        json_view(self)
    }
}

/// String equality on views; vstd gives the character-level view of `&str`
/// but no specification for its `==`, so the comparison is spelled out.
pub fn str_eq(a: &str, b: &str) -> (r: bool)
    ensures
        r == (a@ == b@),
{
    let alen = a.unicode_len();
    let blen = b.unicode_len();
    if alen != blen {
        return false;
    }
    let mut i: usize = 0;
    while i < alen
        invariant
            alen == a@.len(),
            blen == b@.len(),
            alen == blen,
            i <= alen,
            forall|j: int| 0 <= j < i ==> a@[j] == b@[j],
        decreases alen - i,
    {
        if a.get_char(i) != b.get_char(i) {
            return false;
        }
        i += 1;
    }
    proof {
        assert(a@ =~= b@);
    }
    true
}

/// The JSON kind of a value, as the engine names it in diagnostics.
pub open spec fn spec_kind_name(j: Json) -> Seq<char> {
    match j {
        Json::Str(_) => "string"@,
        Json::Num(_) => "number"@,
        Json::Bool(_) => "boolean"@,
        Json::Arr(_) => "array"@,
        Json::Obj(_) => "object"@,
        Json::Null => "null"@,
    }
}

pub fn kind_name(v: &JsonValue) -> (r: &'static str)
    ensures
        r@ == spec_kind_name(v@),
{
    match v {
        JsonValue::Str(_) => "string",
        JsonValue::Num(_) => "number",
        JsonValue::Bool(_) => "boolean",
        JsonValue::Arr(_) => "array",
        JsonValue::Obj(_) => "object",
        JsonValue::Null => "null",
    }
}

/// First entry of `entries` whose key is `key`, if any.
pub open spec fn entries_lookup(entries: Seq<(Seq<char>, Json)>, key: Seq<char>) -> Option<Json>
    decreases entries.len(),
{
    if entries.len() == 0 {
        None
    } else if entries[0].0 == key {
        Some(entries[0].1)
    } else {
        entries_lookup(entries.subrange(1, entries.len() as int), key)
    }
}

/// Some entry of `entries` has the key `key`.
pub open spec fn has_key(entries: Seq<(Seq<char>, Json)>, key: Seq<char>) -> bool {
    exists|i: int| 0 <= i < entries.len() && (#[trigger] entries[i]).0 == key
}

/// Member lookup: the named property of an object, `None` on any other kind.
pub open spec fn json_get(j: Json, key: Seq<char>) -> Option<Json> {
    match j {
        Json::Obj(entries) => entries_lookup(entries, key),
        _ => None,
    }
}

impl JsonValue {
    /// Member lookup on the held document.
    pub fn get<'a>(&'a self, key: &str) -> (r: Option<&'a JsonValue>)
        ensures
            match r {
                Some(w) => json_get(self@, key@) == Some(w@),
                None => json_get(self@, key@) is None,
            },
    {
        match self {
            JsonValue::Obj(entries) => {
                proof {
                    lemma_obj_view(entries@);
                    assert(obj_view(entries@).subrange(0, entries@.len() as int) =~= obj_view(
                        entries@,
                    ));
                }
                let mut i: usize = 0;
                while i < entries.len()
                    invariant
                        i <= entries@.len(),
                        obj_view(entries@).len() == entries@.len(),
                        forall|j: int|
                            0 <= j < entries@.len() ==> obj_view(entries@)[j] == (
                                entries@[j].0@,
                                entries@[j].1@,
                            ),
                        self@ == Json::Obj(obj_view(entries@)),
                        entries_lookup(obj_view(entries@), key@) == entries_lookup(
                            obj_view(entries@).subrange(i as int, entries@.len() as int),
                            key@,
                        ),
                    decreases entries@.len() - i,
                {
                    let pair = &entries[i];
                    proof {
                        lemma_entries_lookup_step(obj_view(entries@), key@, i as int);
                    }
                    if str_eq(pair.0.as_str(), key) {
                        return Some(&pair.1);
                    }
                    i += 1;
                }
                None
            },
            _ => None,
        }
    }
}

/// The decimal digit `d` (below ten) as a character.
pub open spec fn dec_digit(d: nat) -> char {
    if d == 0 {
        '0'
    } else if d == 1 {
        '1'
    } else if d == 2 {
        '2'
    } else if d == 3 {
        '3'
    } else if d == 4 {
        '4'
    } else if d == 5 {
        '5'
    } else if d == 6 {
        '6'
    } else if d == 7 {
        '7'
    } else if d == 8 {
        '8'
    } else {
        '9'
    }
}

/// The decimal text of `n`, most significant digit first.
pub open spec fn dec_str(n: nat) -> Seq<char>
    decreases n,
{
    if n < 10 {
        seq![dec_digit(n)]
    } else {
        dec_str(n / 10).push(dec_digit(n % 10))
    }
}

fn digit_literal(d: usize) -> (r: &'static str)
    requires
        d < 10,
    ensures
        r@ == seq![dec_digit(d as nat)],
{
    let r = match d {
        0 => "0",
        1 => "1",
        2 => "2",
        3 => "3",
        4 => "4",
        5 => "5",
        6 => "6",
        7 => "7",
        8 => "8",
        _ => "9",
    };
    proof {
        reveal_strlit("0");
        reveal_strlit("1");
        reveal_strlit("2");
        reveal_strlit("3");
        reveal_strlit("4");
        reveal_strlit("5");
        reveal_strlit("6");
        reveal_strlit("7");
        reveal_strlit("8");
        reveal_strlit("9");
        assert(r@ =~= seq![dec_digit(d as nat)]);
    }
    r
}

/// Renders a length or count in decimal.
pub fn usize_to_string(n: usize) -> (r: String)
    ensures
        r@ == dec_str(n as nat),
    decreases n,
{
    if n < 10 {
        digit_literal(n).to_owned()
    } else {
        let mut s = usize_to_string(n / 10);
        s.append(digit_literal(n % 10));
        proof {
            assert(s@ =~= dec_str(n as nat));
        }
        s
    }
}

impl JsonValue {
    /// Structure-preserving copy: the result has the same model.
    #[verifier::loop_isolation(false)]
    pub fn deep_copy(&self) -> (r: JsonValue)
        ensures
            r@ == self@,
        decreases self,
    {
        match self {
            JsonValue::Null => JsonValue::Null,
            JsonValue::Bool(b) => JsonValue::Bool(*b),
            JsonValue::Num(t) => JsonValue::Num(t.clone()),
            JsonValue::Str(s) => JsonValue::Str(s.clone()),
            JsonValue::Arr(items) => {
                let mut out: Vec<JsonValue> = Vec::new();
                let mut i: usize = 0;
                while i < items.len()
                    invariant
                        i <= items@.len(),
                        out@.len() == i,
                        forall|j: int| 0 <= j < i ==> out@[j]@ == items@[j]@,
                    decreases items@.len() - i,
                {
                    out.push(items[i].deep_copy());
                    i += 1;
                }
                proof {
                    lemma_arr_view(out@);
                    lemma_arr_view(items@);
                    assert(arr_view(out@) =~= arr_view(items@));
                }
                JsonValue::Arr(out)
            },
            JsonValue::Obj(entries) => {
                let mut out: Vec<(String, JsonValue)> = Vec::new();
                let mut i: usize = 0;
                while i < entries.len()
                    invariant
                        i <= entries@.len(),
                        out@.len() == i,
                        forall|j: int|
                            0 <= j < i ==> out@[j].0@ == entries@[j].0@ && out@[j].1@
                                == entries@[j].1@,
                    decreases entries@.len() - i,
                {
                    let pair = &entries[i];
                    out.push((pair.0.clone(), pair.1.deep_copy()));
                    i += 1;
                }
                proof {
                    lemma_obj_view(out@);
                    lemma_obj_view(entries@);
                    assert(obj_view(out@) =~= obj_view(entries@));
                }
                JsonValue::Obj(out)
            },
        }
    }
}

/// The lowercase hexadecimal digit for `d` (below sixteen).
pub open spec fn hex_digit(d: nat) -> char {
    if d == 0 {
        '0'
    } else if d == 1 {
        '1'
    } else if d == 2 {
        '2'
    } else if d == 3 {
        '3'
    } else if d == 4 {
        '4'
    } else if d == 5 {
        '5'
    } else if d == 6 {
        '6'
    } else if d == 7 {
        '7'
    } else if d == 8 {
        '8'
    } else if d == 9 {
        '9'
    } else if d == 10 {
        'a'
    } else if d == 11 {
        'b'
    } else if d == 12 {
        'c'
    } else if d == 13 {
        'd'
    } else if d == 14 {
        'e'
    } else {
        'f'
    }
}

/// How one character appears inside a rendered JSON string literal:
/// the named short escapes, a `\u00` escape for every other control
/// character, and the character itself otherwise.
pub open spec fn escape_char(c: char) -> Seq<char> {
    if c == '"' {
        seq!['\\', '"']
    } else if c == '\\' {
        seq!['\\', '\\']
    } else if c == '\u{0008}' {
        seq!['\\', 'b']
    } else if c == '\u{000C}' {
        seq!['\\', 'f']
    } else if c == '\n' {
        seq!['\\', 'n']
    } else if c == '\r' {
        seq!['\\', 'r']
    } else if c == '\t' {
        seq!['\\', 't']
    } else if (c as u32) < 32 {
        seq!['\\', 'u', '0', '0', hex_digit(((c as u32) / 16) as nat), hex_digit(
            ((c as u32) % 16) as nat,
        )]
    } else {
        seq![c]
    }
}

pub open spec fn escape_str(s: Seq<char>) -> Seq<char>
    decreases s.len(),
{
    if s.len() == 0 {
        Seq::empty()
    } else {
        escape_str(s.subrange(0, s.len() - 1)) + escape_char(s[s.len() - 1])
    }
}

/// A JSON string literal: quoted and escaped.
pub open spec fn quote_str(s: Seq<char>) -> Seq<char> {
    seq!['"'] + escape_str(s) + seq!['"']
}

/// Compact JSON text of a value; numbers render as their held text.
pub open spec fn render_json(j: Json) -> Seq<char>
    decreases j,
{
    match j {
        Json::Null => "null"@,
        Json::Bool(b) => if b {
            "true"@
        } else {
            "false"@
        },
        Json::Num(t) => t,
        Json::Str(s) => quote_str(s),
        Json::Arr(items) => seq!['['] + render_items(items) + seq![']'],
        Json::Obj(entries) => seq!['{'] + render_entries(entries) + seq!['}'],
    }
}

pub open spec fn render_items(items: Seq<Json>) -> Seq<char>
    decreases items,
{
    if items.len() == 0 {
        Seq::empty()
    } else if items.len() == 1 {
        render_json(items[0])
    } else {
        render_items(items.subrange(0, items.len() - 1)) + seq![','] + render_json(
            items[items.len() - 1],
        )
    }
}

pub open spec fn render_entries(entries: Seq<(Seq<char>, Json)>) -> Seq<char>
    decreases entries,
{
    if entries.len() == 0 {
        Seq::empty()
    } else {
        let one = quote_str(entries[entries.len() - 1].0) + seq![':'] + render_json(
            entries[entries.len() - 1].1,
        );
        if entries.len() == 1 {
            one
        } else {
            render_entries(entries.subrange(0, entries.len() - 1)) + seq![','] + one
        }
    }
}

proof fn lemma_escape_push(s: Seq<char>, c: char)
    ensures
        escape_str(s.push(c)) == escape_str(s) + escape_char(c),
{
    assert(s.push(c).subrange(0, s.push(c).len() - 1) =~= s);
    assert(s.push(c)[s.push(c).len() - 1] == c);
}

proof fn lemma_render_items_push(items: Seq<Json>, j: Json)
    ensures
        render_items(items.push(j)) == (if items.len() == 0 {
            render_json(j)
        } else {
            render_items(items) + seq![','] + render_json(j)
        }),
{
    assert(items.push(j).subrange(0, items.push(j).len() - 1) =~= items);
    assert(items.push(j)[items.push(j).len() - 1] == j);
}

proof fn lemma_render_entries_push(entries: Seq<(Seq<char>, Json)>, k: Seq<char>, j: Json)
    ensures
        render_entries(entries.push((k, j))) == (if entries.len() == 0 {
            quote_str(k) + seq![':'] + render_json(j)
        } else {
            render_entries(entries) + seq![','] + quote_str(k) + seq![':'] + render_json(j)
        }),
{
    let pushed = entries.push((k, j));
    assert(pushed.subrange(0, pushed.len() - 1) =~= entries);
    assert(pushed[pushed.len() - 1] == (k, j));
    if entries.len() > 0 {
        assert(render_entries(entries) + seq![','] + (quote_str(k) + seq![':'] + render_json(j))
            =~= render_entries(entries) + seq![','] + quote_str(k) + seq![':'] + render_json(j));
    }
}


fn hex_digit_literal(d: u32) -> (r: &'static str)
    requires
        d < 16,
    ensures
        r@ == seq![hex_digit(d as nat)],
{
    let r = match d {
        0 => "0",
        1 => "1",
        2 => "2",
        3 => "3",
        4 => "4",
        5 => "5",
        6 => "6",
        7 => "7",
        8 => "8",
        9 => "9",
        10 => "a",
        11 => "b",
        12 => "c",
        13 => "d",
        14 => "e",
        _ => "f",
    };
    proof {
        reveal_strlit("0");
        reveal_strlit("1");
        reveal_strlit("2");
        reveal_strlit("3");
        reveal_strlit("4");
        reveal_strlit("5");
        reveal_strlit("6");
        reveal_strlit("7");
        reveal_strlit("8");
        reveal_strlit("9");
        reveal_strlit("a");
        reveal_strlit("b");
        reveal_strlit("c");
        reveal_strlit("d");
        reveal_strlit("e");
        reveal_strlit("f");
        assert(r@ =~= seq![hex_digit(d as nat)]);
    }
    r
}

/// Renders the contents of a string as a quoted, escaped JSON literal.
#[verifier::loop_isolation(false)]
fn render_quoted(s: &str) -> (r: String)
    ensures
        r@ == quote_str(s@),
{
    let mut out = String::from_str("\"");
    proof {
        reveal_strlit("\"");
        assert(out@ =~= seq!['"']);
        assert(s@.subrange(0, 0) =~= Seq::<char>::empty());
    }
    let n = s.unicode_len();
    let mut i: usize = 0;
    while i < n
        invariant
            i <= n,
            out@ == seq!['"'] + escape_str(s@.subrange(0, i as int)),
        decreases n - i,
    {
        let c = s.get_char(i);
        proof {
            assert(s@.subrange(0, i as int).push(c) =~= s@.subrange(0, i + 1 as int));
            lemma_escape_push(s@.subrange(0, i as int), c);
        }
        if c == '"' {
            out.append("\\\"");
            proof {
                reveal_strlit("\\\"");
                assert("\\\""@ =~= escape_char(c));
            }
        } else if c == '\\' {
            out.append("\\\\");
            proof {
                reveal_strlit("\\\\");
                assert("\\\\"@ =~= escape_char(c));
            }
        } else if c == '\u{0008}' {
            out.append("\\b");
            proof {
                reveal_strlit("\\b");
                assert("\\b"@ =~= escape_char(c));
            }
        } else if c == '\u{000C}' {
            out.append("\\f");
            proof {
                reveal_strlit("\\f");
                assert("\\f"@ =~= escape_char(c));
            }
        } else if c == '\n' {
            out.append("\\n");
            proof {
                reveal_strlit("\\n");
                assert("\\n"@ =~= escape_char(c));
            }
        } else if c == '\r' {
            out.append("\\r");
            proof {
                reveal_strlit("\\r");
                assert("\\r"@ =~= escape_char(c));
            }
        } else if c == '\t' {
            out.append("\\t");
            proof {
                reveal_strlit("\\t");
                assert("\\t"@ =~= escape_char(c));
            }
        } else if (c as u32) < 32 {
            let code: u32 = c as u32;
            let hi = hex_digit_literal(code / 16);
            let lo = hex_digit_literal(code % 16);
            out.append("\\u00");
            out.append(hi);
            out.append(lo);
            proof {
                reveal_strlit("\\u00");
                assert("\\u00"@ + hi@ + lo@ =~= escape_char(c));
                assert(out@ =~= seq!['"'] + escape_str(s@.subrange(0, i + 1 as int)));
            }
        } else {
            let piece = s.substring_char(i, i + 1);
            out.append(piece);
            proof {
                assert(piece@ =~= escape_char(c));
            }
        }
        i += 1;
    }
    out.append("\"");
    proof {
        assert(s@.subrange(0, n as int) =~= s@);
        assert(out@ =~= quote_str(s@));
    }
    out
}

impl JsonValue {
    /// Compact JSON text of the held document.
    #[verifier::loop_isolation(false)]
    pub fn render(&self) -> (r: String)
        ensures
            r@ == render_json(self@),
        decreases self,
    {
        match self {
            JsonValue::Null => "null".to_owned(),
            JsonValue::Bool(b) => if *b {
                "true".to_owned()
            } else {
                "false".to_owned()
            },
            JsonValue::Num(t) => t.clone(),
            JsonValue::Str(s) => render_quoted(s.as_str()),
            JsonValue::Arr(items) => {
                proof {
                    lemma_arr_view(items@);
                }
                let mut out = String::from_str("[");
                proof {
                    reveal_strlit("[");
                    assert(out@ =~= seq!['[']);
                }
                let mut i: usize = 0;
                while i < items.len()
                    invariant
                        i <= items@.len(),
                        out@ == seq!['['] + render_items(arr_view(items@).subrange(0, i as int)),
                    decreases items@.len() - i,
                {
                    if i > 0 {
                        out.append(",");
                        proof {
                            reveal_strlit(",");
                        }
                    }
                    let piece = items[i].render();
                    out.append(piece.as_str());
                    proof {
                        assert(arr_view(items@).subrange(0, i as int).push(arr_view(items@)[i as int])
                            =~= arr_view(items@).subrange(0, i + 1 as int));
                        lemma_render_items_push(
                            arr_view(items@).subrange(0, i as int),
                            arr_view(items@)[i as int],
                        );
                        assert(out@ =~= seq!['['] + render_items(
                            arr_view(items@).subrange(0, i + 1 as int),
                        ));
                    }
                    i += 1;
                }
                out.append("]");
                proof {
                    reveal_strlit("]");
                    assert(arr_view(items@).subrange(0, items@.len() as int) =~= arr_view(items@));
                    assert(out@ =~= render_json(self@));
                }
                out
            },
            JsonValue::Obj(entries) => {
                proof {
                    lemma_obj_view(entries@);
                }
                let mut out = String::from_str("{");
                proof {
                    reveal_strlit("{");
                    assert(out@ =~= seq!['{']);
                }
                let mut i: usize = 0;
                while i < entries.len()
                    invariant
                        i <= entries@.len(),
                        out@ == seq!['{'] + render_entries(obj_view(entries@).subrange(0, i as int)),
                    decreases entries@.len() - i,
                {
                    if i > 0 {
                        out.append(",");
                        proof {
                            reveal_strlit(",");
                        }
                    }
                    let pair = &entries[i];
                    let key_piece = render_quoted(pair.0.as_str());
                    out.append(key_piece.as_str());
                    out.append(":");
                    let val_piece = pair.1.render();
                    out.append(val_piece.as_str());
                    proof {
                        reveal_strlit(":");
                        assert(obj_view(entries@).subrange(0, i as int).push(
                            obj_view(entries@)[i as int],
                        ) =~= obj_view(entries@).subrange(0, i + 1 as int));
                        lemma_render_entries_push(
                            obj_view(entries@).subrange(0, i as int),
                            obj_view(entries@)[i as int].0,
                            obj_view(entries@)[i as int].1,
                        );
                        assert(out@ =~= seq!['{'] + render_entries(
                            obj_view(entries@).subrange(0, i + 1 as int),
                        ));
                    }
                    i += 1;
                }
                out.append("}");
                proof {
                    reveal_strlit("}");
                    assert(obj_view(entries@).subrange(0, entries@.len() as int) =~= obj_view(
                        entries@,
                    ));
                    assert(out@ =~= render_json(self@));
                }
                out
            },
        }
    }
}

/// Unrolls `entries_lookup` one step at position `i` of a suffix.
proof fn lemma_entries_lookup_step(entries: Seq<(Seq<char>, Json)>, key: Seq<char>, i: int)
    requires
        0 <= i < entries.len(),
    ensures
        entries_lookup(entries.subrange(i, entries.len() as int), key) == (
            if entries[i].0 == key {
                Some(entries[i].1)
            } else {
                entries_lookup(entries.subrange(i + 1, entries.len() as int), key)
            }
        ),
{
    let suffix = entries.subrange(i, entries.len() as int);
    assert(suffix[0] == entries[i]);
    if entries[i].0 != key {
        assert(suffix.subrange(1, suffix.len() as int) =~= entries.subrange(
            i + 1,
            entries.len() as int,
        ));
    }
}

pub broadcast proof fn lemma_obj_view_push(entries: Seq<(String, JsonValue)>, x: (String, JsonValue))
    ensures
        #[trigger] obj_view(entries.push(x)) == obj_view(entries).push((x.0@, x.1@)),
{
    let pushed = entries.push(x);
    assert(pushed.subrange(0, pushed.len() - 1) =~= entries);
    assert(pushed[pushed.len() - 1] == x);
}

pub broadcast proof fn lemma_arr_view(items: Seq<JsonValue>)
    ensures
        #[trigger] arr_view(items).len() == items.len(),
        forall|i: int| 0 <= i < items.len() ==> arr_view(items)[i] == items[i]@,
    decreases items.len(),
{
    if items.len() > 0 {
        lemma_arr_view(items.subrange(0, items.len() - 1));
    }
}

pub broadcast proof fn lemma_obj_view(entries: Seq<(String, JsonValue)>)
    ensures
        #[trigger] obj_view(entries).len() == entries.len(),
        forall|i: int|
            0 <= i < entries.len() ==> obj_view(entries)[i] == (
                entries[i].0@,
                entries[i].1@,
            ),
    decreases entries.len(),
{
    if entries.len() > 0 {
        lemma_obj_view(entries.subrange(0, entries.len() - 1));
    }
}

} // verus!
