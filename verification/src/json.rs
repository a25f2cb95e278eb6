//! A typed model of the JSON documents the panel API returns.
//!
//! The transport layer decodes an HTTP body into this tree before any
//! logic looks at it. Numbers are held in thousandths (`Num(1500)` is
//! the JSON number `1.5`), which keeps the panel's fractional readings
//! exact integers; see the `units` module. Text rendering is pretty
//! printed with two-space indentation, string contents escaped, so a
//! payload embeds readably in an error reply.

use vstd::prelude::*;

use crate::numfmt::spec_decimal;
use crate::numfmt::spec_digit_char;
use crate::numfmt::u64_to_decimal;

verus! {

/// A JSON value. `Num` carries thousandths of the written number.
#[derive(Debug)]
pub enum Json {
    Null,
    Bool(bool),
    Num(u64),
    Str(String),
    Arr(Vec<Json>),
    Obj(Vec<(String, Json)>),
}

/// The whole number a `Num` stands for, when it is whole: the model of
/// reading a JSON number as an unsigned integer.
pub open spec fn spec_as_u64(v: Json) -> Option<u64> {
    match v {
        Json::Num(m) => if m % 1000 == 0 {
            Some((m / 1000) as u64)
        } else {
            None
        },
        _ => None,
    }
}

/// The thousandths a `Num` carries: the model of reading a JSON number
/// as a fractional reading.
pub open spec fn spec_as_milli(v: Json) -> Option<u64> {
    match v {
        Json::Num(m) => Some(m),
        _ => None,
    }
}

/// The characters of a `Str` value.
pub open spec fn spec_as_str(v: Json) -> Option<Seq<char>> {
    match v {
        Json::Str(s) => Some(s@),
        _ => None,
    }
}

/// The first binding of `key` among an object's entries.
pub open spec fn spec_assoc(pairs: Seq<(String, Json)>, key: Seq<char>) -> Option<Json>
    decreases pairs.len(),
{
    if pairs.len() == 0 {
        None
    } else if pairs[0].0@ == key {
        Some(pairs[0].1)
    } else {
        spec_assoc(pairs.drop_first(), key)
    }
}

/// Field lookup: the value bound to `key` when `v` is an object that
/// binds it, and nothing otherwise.
pub open spec fn spec_get(v: Json, key: Seq<char>) -> Option<Json> {
    match v {
        Json::Obj(pairs) => spec_assoc(pairs@, key),
        _ => None,
    }
}

/// Element lookup: the `i`th element when `v` is an array of more than
/// `i` elements, and nothing otherwise.
pub open spec fn spec_at(v: Json, i: int) -> Option<Json> {
    match v {
        Json::Arr(items) => if 0 <= i < items@.len() {
            Some(items@[i])
        } else {
            None
        },
        _ => None,
    }
}

/// Character-for-character equality of two strings.
pub fn str_eq(a: &str, b: &str) -> (r: bool)
    ensures
        r == (a@ == b@),
{
    let alen = a.unicode_len();
    let blen = b.unicode_len();
    if alen != blen {
        return false;
    }
    let mut i: usize = 0;
    while i < alen
        invariant
            alen == a@.len(),
            alen == b@.len(),
            i <= alen,
            forall|j: int| 0 <= j < i ==> a@[j] == b@[j],
        decreases alen - i,
    {
        if a.get_char(i) != b.get_char(i) {
            return false;
        }
        i = i + 1;
    }
    proof {
        assert(a@ =~= b@);
    }
    true
}

impl Json {
    /// The value bound to `key`, when this value is an object binding it.
    pub fn get<'a>(&'a self, key: &str) -> (r: Option<&'a Json>)
        ensures
            match r {
                Some(j) => spec_get(*self, key@) == Some(*j),
                None => spec_get(*self, key@) is None,
            },
    {
        match self {
            Json::Obj(pairs) => {
                let n = pairs.len();
                let mut i: usize = 0;
                proof {
                    assert(pairs@.skip(0) =~= pairs@);
                }
                while i < n
                    invariant
                        n == pairs@.len(),
                        i <= n,
                        *self == Json::Obj(*pairs),
                        spec_assoc(pairs@, key@) == spec_assoc(pairs@.skip(i as int), key@),
                    decreases n - i,
                {
                    proof {
                        assert(pairs@.skip(i as int)[0] == pairs@[i as int]);
                    }
                    if str_eq(pairs[i].0.as_str(), key) {
                        proof {
                            assert(spec_assoc(pairs@.skip(i as int), key@) == Some(
                                pairs@[i as int].1,
                            ));
                            assert(*self == Json::Obj(*pairs));
                            assert(spec_get(*self, key@) == spec_assoc(pairs@, key@));
                        }
                        return Some(&pairs[i].1);
                    }
                    proof {
                        assert(pairs@.skip(i as int).drop_first() =~= pairs@.skip(i as int + 1));
                    }
                    i = i + 1;
                }
                proof {
                    assert(pairs@.skip(n as int) =~= Seq::<(String, Json)>::empty());
                }
                None
            },
            _ => None,
        }
    }

    /// The `i`th element, when this value is an array of more than `i` elements.
    pub fn at(&self, i: usize) -> (r: Option<&Json>)
        ensures
            match r {
                Some(j) => spec_at(*self, i as int) == Some(*j),
                None => spec_at(*self, i as int) is None,
            },
    {
        match self {
            Json::Arr(items) => {
                if i < items.len() {
                    Some(&items[i])
                } else {
                    None
                }
            },
            _ => None,
        }
    }

    /// The number read as a whole unsigned integer, when it is whole.
    pub fn as_u64(&self) -> (r: Option<u64>)
        ensures
            r == spec_as_u64(*self),
    {
        match self {
            Json::Num(m) => {
                if m % 1000 == 0 {
                    Some(m / 1000)
                } else {
                    None
                }
            },
            _ => None,
        }
    }

    /// The number in thousandths, when this value is a number at all.
    pub fn as_milli(&self) -> (r: Option<u64>)
        ensures
            r == spec_as_milli(*self),
    {
        match self {
            Json::Num(m) => Some(*m),
            _ => None,
        }
    }

    /// The string contents, when this value is a string.
    pub fn as_str<'a>(&'a self) -> (r: Option<&'a String>)
        ensures
            match r {
                Some(s) => spec_as_str(*self) == Some(s@),
                None => spec_as_str(*self) is None,
            },
    {
        match self {
            Json::Str(s) => Some(s),
            _ => None,
        }
    }
}

/// The text of a JSON number held in thousandths: the whole part in
/// decimal, then three fraction digits when the number is not whole.
pub open spec fn spec_num_text(milli: int) -> Seq<char> {
    let f = milli % 1000;
    if f == 0 {
        spec_decimal(milli / 1000)
    } else {
        spec_decimal(milli / 1000) + seq![
            '.',
            spec_digit_char(f / 100),
            spec_digit_char(f / 10 % 10),
            spec_digit_char(f % 10),
        ]
    }
}

/// A character as written inside a JSON string: quotes and backslashes
/// get a backslash escape, everything else stands as it is.
pub open spec fn spec_escaped_char(c: char) -> Seq<char> {
    if c == '"' {
        seq!['\\', '"']
    } else if c == '\\' {
        seq!['\\', '\\']
    } else {
        seq![c]
    }
}

/// The escaped text of the first `i` characters of a string.
pub open spec fn spec_escape_prefix(s: Seq<char>, i: int) -> Seq<char>
    decreases i,
{
    if i <= 0 || i > s.len() {
        Seq::empty()
    } else {
        spec_escape_prefix(s, i - 1) + spec_escaped_char(s[i - 1])
    }
}

/// The text of a string as written between JSON quotes.
pub open spec fn spec_escape(s: Seq<char>) -> Seq<char> {
    spec_escape_prefix(s, s.len() as int)
}

fn escape_str(s: &str) -> (r: String)
    ensures
        r@ == spec_escape(s@),
{
    let len = s.unicode_len();
    let mut out = String::new();
    let mut i: usize = 0;
    while i < len
        invariant
            len == s@.len(),
            i <= len,
            out@ == spec_escape_prefix(s@, i as int),
        decreases len - i,
    {
        let c = s.get_char(i);
        if c == '"' {
            out.append("\\\"");
            proof {
                reveal_strlit("\\\"");
                assert(out@ =~= spec_escape_prefix(s@, i as int + 1));
            }
        } else if c == '\\' {
            out.append("\\\\");
            proof {
                reveal_strlit("\\\\");
                assert(out@ =~= spec_escape_prefix(s@, i as int + 1));
            }
        } else {
            let one = s.substring_char(i, i + 1);
            out.append(one);
            proof {
                assert(one@ =~= seq![c]);
                assert(out@ =~= spec_escape_prefix(s@, i as int + 1));
            }
        }
        i = i + 1;
    }
    out
}

/// The text of a JSON value written at an indentation: scalars stand
/// where they start; a non-empty array or object opens its bracket
/// there, writes each member on its own line two spaces deeper, and
/// closes the bracket on a fresh line at the given indentation.
pub open spec fn spec_json_text_at(v: Json, ind: Seq<char>) -> Seq<char>
    decreases v,
{
    match v {
        Json::Null => "null"@,
        Json::Bool(b) => if b {
            "true"@
        } else {
            "false"@
        },
        Json::Num(m) => spec_num_text(m as int),
        Json::Str(s) => seq!['"'] + spec_escape(s@) + seq!['"'],
        Json::Arr(items) => if items@.len() == 0 {
            "[]"@
        } else {
            seq!['['] + spec_arr_text_at(items@, items@.len() as int, ind + "  "@) + seq!['\n']
                + ind + seq![']']
        },
        Json::Obj(pairs) => if pairs@.len() == 0 {
            "{}"@
        } else {
            seq!['{'] + spec_obj_text_at(pairs@, pairs@.len() as int, ind + "  "@) + seq!['\n']
                + ind + seq!['}']
        },
    }
}

/// The first `i` elements of an array body: each on its own line at the
/// member indentation, comma separated.
pub open spec fn spec_arr_text_at(items: Seq<Json>, i: int, mind: Seq<char>) -> Seq<char>
    decreases items, i,
{
    if i <= 0 || i > items.len() {
        Seq::empty()
    } else {
        let entry = seq!['\n'] + mind + spec_json_text_at(items[i - 1], mind);
        if i == 1 {
            entry
        } else {
            spec_arr_text_at(items, i - 1, mind) + seq![','] + entry
        }
    }
}

/// The first `i` entries of an object body: each on its own line at the
/// member indentation as a quoted key, a colon, a space and the value,
/// comma separated.
pub open spec fn spec_obj_text_at(pairs: Seq<(String, Json)>, i: int, mind: Seq<char>) -> Seq<
    char,
>
    decreases pairs, i,
{
    if i <= 0 || i > pairs.len() {
        Seq::empty()
    } else {
        let entry = seq!['\n'] + mind + seq!['"'] + spec_escape(pairs[i - 1].0@) + seq![
            '"',
            ':',
            ' ',
        ] + spec_json_text_at(pairs[i - 1].1, mind);
        if i == 1 {
            entry
        } else {
            spec_obj_text_at(pairs, i - 1, mind) + seq![','] + entry
        }
    }
}

/// The pretty-printed text of a JSON value.
pub open spec fn spec_json_text(v: Json) -> Seq<char> {
    spec_json_text_at(v, Seq::empty())
}

fn num_text(milli: u64) -> (s: String)
    ensures
        s@ == spec_num_text(milli as int),
{
    let mut s = u64_to_decimal(milli / 1000);
    let f: u64 = milli % 1000;
    if f == 0 {
        s
    } else {
        s.append(".");
        s.append(crate::numfmt::digit_str(f / 100));
        s.append(crate::numfmt::digit_str(f / 10 % 10));
        s.append(crate::numfmt::digit_str(f % 10));
        proof {
            reveal_strlit(".");
            assert(s@ =~= spec_num_text(milli as int));
        }
        s
    }
}

impl Json {
    fn to_text_at(&self, ind: &str) -> (s: String)
        ensures
            s@ == spec_json_text_at(*self, ind@),
        decreases *self,
    {
        match self {
            Json::Null => {
                let s = String::from_str("null");
                s
            },
            Json::Bool(b) => {
                if *b {
                    String::from_str("true")
                } else {
                    String::from_str("false")
                }
            },
            Json::Num(m) => num_text(*m),
            Json::Str(st) => {
                let mut s = String::from_str("\"");
                let esc = escape_str(st.as_str());
                s.append(esc.as_str());
                s.append("\"");
                proof {
                    reveal_strlit("\"");
                    assert(s@ =~= spec_json_text_at(*self, ind@));
                }
                s
            },
            Json::Arr(items) => {
                if items.len() == 0 {
                    String::from_str("[]")
                } else {
                    let mut mind = String::from_str(ind);
                    mind.append("  ");
                    let mut s = String::from_str("[");
                    proof {
                        reveal_strlit("[");
                        assert(s@ =~= seq!['['] + spec_arr_text_at(items@, 0, mind@));
                    }
                    let n = items.len();
                    let mut i: usize = 0;
                    while i < n
                        invariant
                            n == items@.len(),
                            i <= n,
                            mind@ == ind@ + "  "@,
                            s@ == seq!['['] + spec_arr_text_at(items@, i as int, mind@),
                            *self == Json::Arr(*items),
                        decreases n - i,
                    {
                        if i > 0 {
                            s.append(",");
                            proof {
                                reveal_strlit(",");
                            }
                        }
                        s.append("\n");
                        s.append(mind.as_str());
                        proof {
                            reveal_strlit("\n");
                            assert(*items == (*self)->Arr_0);
                            assert(decreases_to!(*self => (*self)->Arr_0));
                            assert(decreases_to!(*items => items@));
                            assert(decreases_to!(items@ => items@[i as int]));
                        }
                        let t = (&items[i]).to_text_at(mind.as_str());
                        s.append(t.as_str());
                        proof {
                            assert(s@ =~= seq!['['] + spec_arr_text_at(
                                items@,
                                i as int + 1,
                                mind@,
                            ));
                        }
                        i = i + 1;
                    }
                    s.append("\n");
                    s.append(ind);
                    s.append("]");
                    proof {
                        reveal_strlit("\n");
                        reveal_strlit("]");
                        assert(s@ =~= spec_json_text_at(*self, ind@));
                    }
                    s
                }
            },
            Json::Obj(pairs) => {
                if pairs.len() == 0 {
                    String::from_str("{}")
                } else {
                    let mut mind = String::from_str(ind);
                    mind.append("  ");
                    let mut s = String::from_str("{");
                    proof {
                        reveal_strlit("{");
                        assert(s@ =~= seq!['{'] + spec_obj_text_at(pairs@, 0, mind@));
                    }
                    let n = pairs.len();
                    let mut i: usize = 0;
                    while i < n
                        invariant
                            n == pairs@.len(),
                            i <= n,
                            mind@ == ind@ + "  "@,
                            s@ == seq!['{'] + spec_obj_text_at(pairs@, i as int, mind@),
                            *self == Json::Obj(*pairs),
                        decreases n - i,
                    {
                        if i > 0 {
                            s.append(",");
                            proof {
                                reveal_strlit(",");
                            }
                        }
                        s.append("\n");
                        s.append(mind.as_str());
                        s.append("\"");
                        let key = escape_str(pairs[i].0.as_str());
                        s.append(key.as_str());
                        s.append("\": ");
                        proof {
                            reveal_strlit("\n");
                            reveal_strlit("\"");
                            reveal_strlit("\": ");
                            assert(*pairs == (*self)->Obj_0);
                            assert(decreases_to!(*self => (*self)->Obj_0));
                            assert(decreases_to!(*pairs => pairs@));
                            assert(decreases_to!(pairs@ => pairs@[i as int]));
                            assert(decreases_to!(pairs@[i as int] => pairs@[i as int].1));
                        }
                        let t = (&pairs[i].1).to_text_at(mind.as_str());
                        s.append(t.as_str());
                        proof {
                            assert(s@ =~= seq!['{'] + spec_obj_text_at(
                                pairs@,
                                i as int + 1,
                                mind@,
                            ));
                        }
                        i = i + 1;
                    }
                    s.append("\n");
                    s.append(ind);
                    s.append("}");
                    proof {
                        reveal_strlit("\n");
                        reveal_strlit("}");
                        assert(s@ =~= spec_json_text_at(*self, ind@));
                    }
                    s
                }
            },
        }
    }

    /// Renders the value as pretty-printed JSON text: members on their
    /// own lines, nested two spaces deeper per level, string contents
    /// escaped.
    pub fn to_text(&self) -> (s: String)
        ensures
            s@ == spec_json_text(*self),
    {
        let s = self.to_text_at("");
        proof {
            reveal_strlit("");
            assert(""@ =~= Seq::<char>::empty());
        }
        s
    }
}

} // verus!
