use vstd::prelude::*;

verus! {

/// `serde_json::Value`, a parsed JSON document. It is moved into a
/// `JsonValue` as soon as it is there.
#[verifier::external_type_specification]
#[verifier::external_body]
pub struct ExJsonDocument(serde_json::Value);

/// A JSON document held as plain values. An object keeps its members as
/// name/value pairs in the order in which the parser hands them out.
#[derive(Debug)]
pub enum JsonValue {
    Null,
    Bool(bool),
    /// A number, kept as its decimal text.
    Number(String),
    String(String),
    Array(Vec<JsonValue>),
    Object(Vec<(String, JsonValue)>),
}

/// The document that a JSON text denotes, `None` where the text is no JSON.
pub uninterp spec fn json_document(text: Seq<char>) -> Option<JsonValue>;

/// The hexadecimal digit, in lower case, of a value below 16.
pub open spec fn hex_digit(v: int) -> char {
    if v < 10 {
        (48 + v) as u8 as char
    } else {
        (87 + v) as u8 as char
    }
}

/// How one character stands in a JSON string literal. The quote and the
/// backslash get a backslash in front; backspace, tab, line feed, form feed
/// and carriage return have their short escapes; every other character
/// below U+0020 is written as `\u00` and two hexadecimal digits; every
/// other character stands for itself.
pub open spec fn json_escape_char(c: char) -> Seq<char> {
    if c == '"' {
        seq!['\\', '"']
    } else if c == '\\' {
        seq!['\\', '\\']
    } else if c as u32 == 8 {
        seq!['\\', 'b']
    } else if c as u32 == 9 {
        seq!['\\', 't']
    } else if c as u32 == 10 {
        seq!['\\', 'n']
    } else if c as u32 == 12 {
        seq!['\\', 'f']
    } else if c as u32 == 13 {
        seq!['\\', 'r']
    } else if (c as u32) < 32 {
        seq!['\\', 'u', '0', '0', hex_digit(c as u32 as int / 16), hex_digit(c as u32 as int % 16)]
    } else {
        seq![c]
    }
}

/// The characters of `s` as they stand between the quotes of a JSON string
/// literal.
pub open spec fn json_escape(s: Seq<char>) -> Seq<char>
    decreases s.len(),
{
    if s.len() == 0 {
        Seq::empty()
    } else {
        json_escape_char(s[0]) + json_escape(s.skip(1))
    }
}

/// The JSON string literal, quotes and escapes included, that denotes `s`.
pub open spec fn json_string(s: Seq<char>) -> Seq<char> {
    seq!['"'] + json_escape(s) + seq!['"']
}

/// What follows the opening quote of a text that begins with the literal
/// of `s` and goes on with `rest`.
pub open spec fn json_string_tail(s: Seq<char>, rest: Seq<char>) -> Seq<char> {
    json_escape(s) + seq!['"'] + rest
}

/// Two values below 16 with the same hexadecimal digit are equal.
pub proof fn lemma_hex_digit_injective(v: int, w: int)
    requires
        0 <= v < 16,
        0 <= w < 16,
        hex_digit(v) == hex_digit(w),
    ensures
        v == w,
{
    assert(hex_digit(v) as u32 == hex_digit(w) as u32);
    assert(v < 10 ==> hex_digit(v) as u32 == 48 + v);
    assert(v >= 10 ==> hex_digit(v) as u32 == 87 + v);
    assert(w < 10 ==> hex_digit(w) as u32 == 48 + w);
    assert(w >= 10 ==> hex_digit(w) as u32 == 87 + w);
}

/// An escaped character begins with a backslash if it is escaped at all,
/// and never with a quote; two characters that are written alike are the
/// same character.
pub proof fn lemma_json_escape_char(c: char, d: char)
    ensures
        json_escape_char(c).len() == 1 || json_escape_char(c).len() == 2 || json_escape_char(
            c,
        ).len() == 6,
        json_escape_char(c)[0] != '"',
        json_escape_char(c).len() == 1 ==> json_escape_char(c)[0] != '\\',
        json_escape_char(c).len() > 1 ==> json_escape_char(c)[0] == '\\',
        json_escape_char(c).len() == 6 <==> json_escape_char(c).len() > 1 && json_escape_char(
            c,
        )[1] == 'u',
        json_escape_char(c).len() == json_escape_char(d).len() && (forall|i: int|
            0 <= i < json_escape_char(c).len() ==> json_escape_char(c)[i] == json_escape_char(
                d,
            )[i]) ==> c == d,
{
    assert('"' as u32 == 34 && '\\' as u32 == 92);
    assert('b' as u32 == 98 && 't' as u32 == 116 && 'n' as u32 == 110 && 'f' as u32 == 102 && 'r' as u32
        == 114 && 'u' as u32 == 117);
    let ec = json_escape_char(c);
    let ed = json_escape_char(d);
    if ec.len() == ed.len() && (forall|i: int| 0 <= i < ec.len() ==> ec[i] == ed[i]) {
        if ec.len() == 6 {
            assert(ec[4] == ed[4]);
            assert(ec[5] == ed[5]);
            lemma_hex_digit_injective(c as u32 as int / 16, d as u32 as int / 16);
            lemma_hex_digit_injective(c as u32 as int % 16, d as u32 as int % 16);
            assert(c as u32 == d as u32);
        } else if ec.len() == 2 {
            assert(ec[1] == ed[1]);
            assert(c as u32 == d as u32);
        } else {
            assert(ec[0] == ed[0]);
        }
    }
}

/// A text that begins with a string literal begins with one literal only:
/// where two literals, each followed by some rest, make the same text, they
/// are the literals of the same string, and the rests are the same.
pub proof fn lemma_json_string_tail_unique(a: Seq<char>, ra: Seq<char>, b: Seq<char>, rb: Seq<char>)
    requires
        json_string_tail(a, ra) == json_string_tail(b, rb),
    ensures
        a == b,
        ra == rb,
    decreases a.len(),
{
    let ta = json_string_tail(a, ra);
    let tb = json_string_tail(b, rb);
    if a.len() == 0 {
        assert(ta[0] == '"');
        if b.len() > 0 {
            lemma_json_escape_char(b[0], b[0]);
            assert(tb[0] == json_escape_char(b[0])[0]);
            assert(false);
        }
        assert(ra =~= ta.skip(1));
        assert(rb =~= tb.skip(1));
        assert(a =~= b);
    } else if b.len() == 0 {
        lemma_json_escape_char(a[0], a[0]);
        assert(tb[0] == '"');
        assert(ta[0] == json_escape_char(a[0])[0]);
        assert(false);
    } else {
        let ea = json_escape_char(a[0]);
        let eb = json_escape_char(b[0]);
        let na = json_string_tail(a.skip(1), ra);
        let nb = json_string_tail(b.skip(1), rb);
        assert(ta =~= ea + na);
        assert(tb =~= eb + nb);
        lemma_json_escape_char(a[0], b[0]);
        lemma_json_escape_char(b[0], a[0]);
        assert(ta[0] == ea[0]);
        assert(tb[0] == eb[0]);
        if ea.len() > 1 {
            assert(ta[1] == ea[1]);
        }
        if eb.len() > 1 {
            assert(tb[1] == eb[1]);
        }
        assert(ea.len() == eb.len());
        assert forall|i: int| 0 <= i < ea.len() implies ea[i] == eb[i] by {
            assert(ta[i] == ea[i]);
            assert(tb[i] == eb[i]);
        }
        assert(a[0] == b[0]);
        assert(na =~= ta.skip(ea.len() as int));
        assert(nb =~= tb.skip(eb.len() as int));
        lemma_json_string_tail_unique(a.skip(1), ra, b.skip(1), rb);
        assert(a =~= seq![a[0]] + a.skip(1));
        assert(b =~= seq![b[0]] + b.skip(1));
    }
}

/// The same for whole literals, each behind the same label.
pub proof fn lemma_json_string_unique(
    label: Seq<char>,
    a: Seq<char>,
    ra: Seq<char>,
    b: Seq<char>,
    rb: Seq<char>,
)
    requires
        label + (json_string(a) + ra) == label + (json_string(b) + rb),
    ensures
        a == b,
        ra == rb,
{
    let ta = label + (json_string(a) + ra);
    let tb = label + (json_string(b) + rb);
    assert(json_string_tail(a, ra) =~= ta.skip(label.len() as int + 1));
    assert(json_string_tail(b, rb) =~= tb.skip(label.len() as int + 1));
    lemma_json_string_tail_unique(a, ra, b, rb);
}

/// The first value filed under `key` among `members`.
pub open spec fn lookup(members: Seq<(String, JsonValue)>, key: Seq<char>) -> Option<JsonValue>
    decreases members.len(),
{
    if members.len() == 0 {
        None
    } else if members[0].0@ == key {
        Some(members[0].1)
    } else {
        lookup(members.skip(1), key)
    }
}

/// Moves a parsed `serde_json::Value` into a `JsonValue`, variant by variant.
///
/// Trusted: tells the variants of `serde_json::Value` apart and moves their
/// fields; a number is kept as the text that `serde_json::Number` displays.
/// Nothing is claimed of the result.
#[verifier::external_body]
fn json_from_value(value: serde_json::Value) -> JsonValue {
    match value {
        serde_json::Value::Null => JsonValue::Null,
        serde_json::Value::Bool(b) => JsonValue::Bool(b),
        serde_json::Value::Number(n) => JsonValue::Number(n.to_string()),
        serde_json::Value::String(s) => JsonValue::String(s),
        serde_json::Value::Array(a) => JsonValue::Array(
            a.into_iter().map(json_from_value).collect(),
        ),
        serde_json::Value::Object(m) => JsonValue::Object(
            m.into_iter().map(|(k, v)| (k, json_from_value(v))).collect(),
        ),
    }
}

/// Parses a JSON text.
///
/// Trusted: calls `serde_json::from_str` for a `serde_json::Value`. The
/// contract claims only that the outcome is a function of the text: the
/// document on success, nothing on failure. A failure carries the parser's
/// message.
#[verifier::external_body]
pub(crate) fn parse_json(text: &str) -> (r: Result<JsonValue, String>)
    ensures
        r.ok() == json_document(text@),
{
    match serde_json::from_str::<serde_json::Value>(text) {
        Ok(value) => Ok(json_from_value(value)),
        Err(e) => Err(e.to_string()),
    }
}

/// Writes `s` as a JSON string literal.
///
/// Trusted: calls `serde_json::to_string` on a `str`. The serializer writes
/// a string into a buffer in memory, which cannot fail: the contract claims
/// that the call succeeds and that the text is the literal that
/// `json_string` gives.
#[verifier::external_body]
pub(crate) fn json_quote(s: &str) -> (r: Result<String, String>)
    ensures
        r is Ok,
        r matches Ok(text) ==> text@ == json_string(s@),
{
    match serde_json::to_string(s) {
        Ok(text) => Ok(text),
        Err(e) => Err(e.to_string()),
    }
}

/// The texts of a row of strings.
pub open spec fn string_views(strings: Seq<String>) -> Seq<Seq<char>> {
    Seq::new(strings.len(), |i: int| strings[i]@)
}

/// Outcome of reading one member of an object that may be left out.
pub enum Member<T> {
    /// The member is absent, or `null`.
    Absent,
    /// The member is there and has the expected shape.
    Present(T),
    /// The member is there and has another shape.
    Malformed,
}

impl JsonValue {
    /// The member `key` of an object; `None` for any other value.
    pub open spec fn spec_member(&self, key: Seq<char>) -> Option<JsonValue> {
        match self {
            JsonValue::Object(members) => lookup(members@, key),
            _ => None,
        }
    }

    /// The text of a JSON string; `None` for any other value.
    pub open spec fn spec_text(&self) -> Option<Seq<char>> {
        match self {
            JsonValue::String(s) => Some(s@),
            _ => None,
        }
    }

    /// Whether the value is a JSON object.
    pub open spec fn spec_is_object(&self) -> bool {
        self is Object
    }

    /// The texts of an array of JSON strings; `None` where an item is no
    /// string.
    pub open spec fn all_texts(items: Seq<JsonValue>) -> Option<Seq<Seq<char>>> {
        if forall|i: int| 0 <= i < items.len() ==> (#[trigger] items[i].spec_text()).is_some() {
            Some(Seq::new(items.len(), |i: int| items[i].spec_text().unwrap()))
        } else {
            None
        }
    }

    /// The texts of the member `key`, an array of strings that may be left
    /// out.
    pub open spec fn spec_optional_texts(&self, key: Seq<char>) -> Member<Seq<Seq<char>>> {
        match self.spec_member(key) {
            None => Member::Absent,
            Some(JsonValue::Null) => Member::Absent,
            Some(JsonValue::Array(items)) => match Self::all_texts(items@) {
                Some(texts) => Member::Present(texts),
                None => Member::Malformed,
            },
            Some(_) => Member::Malformed,
        }
    }

    /// The text of the string member `key`, which must be there.
    pub open spec fn spec_required_text(&self, key: Seq<char>) -> Option<Seq<char>> {
        match self.spec_member(key) {
            Some(v) => v.spec_text(),
            None => None,
        }
    }

    /// The text of the string member `key`, which may be left out.
    pub open spec fn spec_optional_text(&self, key: Seq<char>) -> Member<Seq<char>> {
        match self.spec_member(key) {
            None => Member::Absent,
            Some(JsonValue::Null) => Member::Absent,
            Some(JsonValue::String(s)) => Member::Present(s@),
            Some(_) => Member::Malformed,
        }
    }

    /// The truth value of the boolean member `key`, which may be left out.
    pub open spec fn spec_optional_bool(&self, key: Seq<char>) -> Member<bool> {
        match self.spec_member(key) {
            None => Member::Absent,
            Some(JsonValue::Null) => Member::Absent,
            Some(JsonValue::Bool(b)) => Member::Present(b),
            Some(_) => Member::Malformed,
        }
    }

    pub fn is_object(&self) -> (r: bool)
        ensures
            r == self.spec_is_object(),
    {
        match self {
            JsonValue::Object(_) => true,
            _ => false,
        }
    }

    pub fn optional_texts(&self, key: &str) -> (r: Member<Vec<String>>)
        ensures
            match r {
                Member::Present(list) => self.spec_optional_texts(key@) == Member::Present(
                    string_views(list@),
                ),
                Member::Absent => self.spec_optional_texts(key@) == Member::<
                    Seq<Seq<char>>,
                >::Absent,
                Member::Malformed => self.spec_optional_texts(key@) == Member::<
                    Seq<Seq<char>>,
                >::Malformed,
            },
    {
        match self.member(key) {
            None => Member::Absent,
            Some(JsonValue::Null) => Member::Absent,
            Some(JsonValue::Array(items)) => {
                let mut list: Vec<String> = Vec::new();
                let mut i: usize = 0;
                while i < items.len()
                    invariant
                        i <= items.len(),
                        list@.len() == i,
                        forall|j: int|
                            0 <= j < i ==> (#[trigger] items@[j].spec_text()) == Some(list@[j]@),
                        self.spec_member(key@) == Some(JsonValue::Array(*items)),
                    decreases items.len() - i,
                {
                    match items[i].text() {
                        Some(s) => {
                            list.push(s);
                        },
                        None => {
                            return Member::Malformed;
                        },
                    }
                    i += 1;
                }
                proof {
                    let all = Self::all_texts(items@);
                    assert(all.is_some());
                    assert(all.unwrap() =~= string_views(list@));
                }
                Member::Present(list)
            },
            Some(_) => Member::Malformed,
        }
    }

    pub fn member(&self, key: &str) -> (r: Option<&JsonValue>)
        ensures
            match r {
                Some(v) => self.spec_member(key@) == Some(*v),
                None => self.spec_member(key@).is_none(),
            },
    {
        match self {
            JsonValue::Object(members) => {
                let mut i: usize = 0;
                proof {
                    assert(members@.skip(0) =~= members@);
                }
                while i < members.len()
                    invariant
                        i <= members.len(),
                        self.spec_member(key@) == lookup(members@, key@),
                        lookup(members@, key@) == lookup(members@.skip(i as int), key@),
                    decreases members.len() - i,
                {
                    proof {
                        assert(members@.skip(i as int).skip(1) =~= members@.skip(i as int + 1));
                        assert(members@.skip(i as int)[0] == members@[i as int]);
                    }
                    if crate::util::str_eq(members[i].0.as_str(), key) {
                        return Some(&members[i].1);
                    }
                    i += 1;
                }
                None
            },
            _ => None,
        }
    }

    pub fn text(&self) -> (r: Option<String>)
        ensures
            match r {
                Some(s) => self.spec_text() == Some(s@),
                None => self.spec_text().is_none(),
            },
    {
        match self {
            JsonValue::String(s) => Some(s.clone()),
            _ => None,
        }
    }

    pub fn required_text(&self, key: &str) -> (r: Option<String>)
        ensures
            match r {
                Some(s) => self.spec_required_text(key@) == Some(s@),
                None => self.spec_required_text(key@).is_none(),
            },
    {
        match self.member(key) {
            Some(v) => v.text(),
            None => None,
        }
    }

    pub fn optional_text(&self, key: &str) -> (r: Member<String>)
        ensures
            match r {
                Member::Present(s) => self.spec_optional_text(key@) == Member::Present(s@),
                Member::Absent => self.spec_optional_text(key@) == Member::<Seq<char>>::Absent,
                Member::Malformed => self.spec_optional_text(key@) == Member::<
                    Seq<char>,
                >::Malformed,
            },
    {
        match self.member(key) {
            None => Member::Absent,
            Some(JsonValue::Null) => Member::Absent,
            Some(JsonValue::String(s)) => Member::Present(s.clone()),
            Some(_) => Member::Malformed,
        }
    }

    pub fn optional_bool(&self, key: &str) -> (r: Member<bool>)
        ensures
            r == self.spec_optional_bool(key@),
    {
        match self.member(key) {
            None => Member::Absent,
            Some(JsonValue::Null) => Member::Absent,
            Some(JsonValue::Bool(b)) => Member::Present(*b),
            Some(_) => Member::Malformed,
        }
    }
}

} // verus!
