//! The validated `Sheep` (a CloudEvents v1.0.2 event) and its pure validator.

use vstd::prelude::*;

use crate::instant::{parse_rfc3339, rfc3339_instant, utc_representable, END_UTC_NANOS, MIN_UTC_NANOS};
use crate::json::{find_entry, get, lookup, JsonValue};
use crate::text::{
    before_first, chars_of, first_index, is_first_index, lemma_first_index_unique, trim_end, trim_start, contains_char, copy_range, find_char, is_control_char, is_unicode_control,
    is_unicode_whitespace, is_whitespace_char, split_once, str_eq, trim, trim_bounds,
};

verus! {

/// A usage event that has passed validation.
///
/// `time` is the client's event time as an instant on the UTC time line, in
/// nanoseconds since the Unix epoch.
#[derive(Debug, PartialEq)]
pub struct Sheep {
    pub id: String,
    pub source: String,
    pub event_type: String,
    pub specversion: String,
    pub subject: String,
    pub time: Option<i128>,
    pub data: Option<JsonValue>,
    pub datacontenttype: Option<String>,
    pub dataschema: Option<String>,
}

/// A `Sheep` with its text fields taken as character sequences.
pub struct SheepView {
    pub id: Seq<char>,
    pub source: Seq<char>,
    pub event_type: Seq<char>,
    pub specversion: Seq<char>,
    pub subject: Seq<char>,
    pub time: Option<i128>,
    pub data: Option<JsonValue>,
    pub datacontenttype: Option<Seq<char>>,
    pub dataschema: Option<Seq<char>>,
}

/// An optional string as an optional character sequence.
pub open spec fn opt_view(o: Option<String>) -> Option<Seq<char>> {
    match o {
        Some(s) => Some(s@),
        None => None,
    }
}

/// The character sequences of a list of strings.
pub open spec fn strings_view(v: Seq<String>) -> Seq<Seq<char>> {
    v.map_values(|s: String| s@)
}

impl View for Sheep {
    type V = SheepView;

    open spec fn view(&self) -> SheepView {
        SheepView {
            id: self.id@,
            source: self.source@,
            event_type: self.event_type@,
            specversion: self.specversion@,
            subject: self.subject@,
            time: self.time,
            data: self.data,
            datacontenttype: opt_view(self.datacontenttype),
            dataschema: opt_view(self.dataschema),
        }
    }
}

/// A checked field: its accepted value, and the failures it adds.
pub type Checked<T> = (Option<T>, Seq<Seq<char>>);

/// A present, non-empty string is required.
pub open spec fn check_required_string(obj: Seq<(String, JsonValue)>, key: Seq<char>) -> Checked<Seq<char>> {
    match lookup(obj, key) {
        None => (None, seq![key + " is required"@]),
        Some(JsonValue::Null) => (None, seq![key + " is required"@]),
        Some(JsonValue::Str(s)) => if s@.len() > 0 {
            (Some(s@), seq![])
        } else {
            (None, seq![key + " must not be empty"@])
        },
        Some(_) => (None, seq![key + " must be a string"@]),
    }
}

/// If present and non-null, the value must be a non-empty string.
pub open spec fn check_optional_string(obj: Seq<(String, JsonValue)>, key: Seq<char>) -> Checked<Seq<char>> {
    match lookup(obj, key) {
        None => (None, seq![]),
        Some(JsonValue::Null) => (None, seq![]),
        Some(JsonValue::Str(s)) => if s@.len() > 0 {
            (Some(s@), seq![])
        } else {
            (None, seq![key + " must not be empty"@])
        },
        Some(_) => (None, seq![key + " must be a string"@]),
    }
}

/// `char::is_ascii_alphabetic`.
pub open spec fn is_ascii_alpha(c: char) -> bool {
    let n = c as u32;
    (0x41 <= n <= 0x5A) || (0x61 <= n <= 0x7A)
}

/// `char::is_ascii_alphanumeric`.
pub open spec fn is_ascii_alnum(c: char) -> bool {
    is_ascii_alpha(c) || (0x30 <= c as u32 <= 0x39)
}

/// An RFC 3986 scheme: a letter, then letters, digits, `+`, `-` or `.`.
pub open spec fn is_scheme(s: Seq<char>) -> bool {
    &&& s.len() > 0
    &&& is_ascii_alpha(s[0])
    &&& forall|i: int|
        1 <= i < s.len() ==> is_ascii_alnum(s[i]) || s[i] == '+' || s[i] == '-' || s[i] == '.'
}

/// An absolute URI per RFC 3986 §4.3: a valid scheme followed by `:`, no
/// fragment, and no white space or control characters.
pub open spec fn is_absolute_uri(s: Seq<char>) -> bool {
    match split_once(s, ':') {
        Some((scheme, _rest)) => {
            &&& is_scheme(scheme)
            &&& !s.contains('#')
            &&& forall|i: int|
                0 <= i < s.len() ==> !is_unicode_whitespace(s[i]) && !is_unicode_control(s[i])
        },
        None => false,
    }
}

/// RFC 2045 `tspecials`.
pub open spec fn is_tspecial(c: char) -> bool {
    c == '(' || c == ')' || c == '<' || c == '>' || c == '@' || c == ',' || c == ';' || c == ':'
        || c == '\\' || c == '"' || c == '/' || c == '[' || c == ']' || c == '?' || c == '='
}

/// A character allowed in an RFC 2045 token: printable ASCII, not a tspecial.
pub open spec fn is_token_char(c: char) -> bool {
    0x21 <= c as u32 <= 0x7E && !is_tspecial(c)
}

/// An RFC 2045 token: non-empty printable ASCII without tspecials.
pub open spec fn is_token(s: Seq<char>) -> bool {
    s.len() > 0 && forall|i: int| 0 <= i < s.len() ==> is_token_char(s[i])
}

/// An RFC 2046 media type: `type "/" subtype`, optionally followed by
/// `;`-separated parameters, which are not inspected.
pub open spec fn is_media_type(s: Seq<char>) -> bool {
    let essence = trim(before_first(s, ';'));
    match split_once(essence, '/') {
        Some((kind, subtype)) => is_token(kind) && is_token(subtype),
        None => false,
    }
}

/// If present and non-null, the value must be a non-empty media type.
pub open spec fn check_media_type(obj: Seq<(String, JsonValue)>, key: Seq<char>) -> Checked<Seq<char>> {
    let (value, errors) = check_optional_string(obj, key);
    match value {
        Some(t) => if is_media_type(t) {
            (Some(t), errors)
        } else {
            (None, errors.push(key + " must be a media type"@))
        },
        None => (None, errors),
    }
}

/// If present and non-null, the value must be a non-empty absolute URI.
pub open spec fn check_uri(obj: Seq<(String, JsonValue)>, key: Seq<char>) -> Checked<Seq<char>> {
    let (value, errors) = check_optional_string(obj, key);
    match value {
        Some(t) => if is_absolute_uri(t) {
            (Some(t), errors)
        } else {
            (None, errors.push(key + " must be an absolute URI"@))
        },
        None => (None, errors),
    }
}

/// If present and non-null, `time` must be an RFC 3339 timestamp; it is kept
/// as its instant.
pub open spec fn check_time(obj: Seq<(String, JsonValue)>) -> Checked<i128> {
    let (value, errors) = check_optional_string(obj, "time"@);
    match value {
        Some(t) => match rfc3339_instant(t) {
            Some(n) => (Some(n), errors),
            None => (None, errors.push("time must be RFC 3339, got \""@ + t + "\""@)),
        },
        None => (None, errors),
    }
}

/// The failure added when `specversion` is present but not `1.0`.
pub open spec fn check_specversion_value(sv: Option<Seq<char>>) -> Seq<Seq<char>> {
    match sv {
        Some(s) => if s != "1.0"@ {
            seq!["specversion must be \"1.0\", got \""@ + s + "\""@]
        } else {
            seq![]
        },
        None => seq![],
    }
}

/// Every failure of a JSON object, in the order the fields are checked:
/// `id`, `source`, `type`, `specversion`, `subject`, `datacontenttype`,
/// `dataschema`, `time`.
pub open spec fn object_errors(obj: Seq<(String, JsonValue)>) -> Seq<Seq<char>> {
    check_required_string(obj, "id"@).1 + check_required_string(obj, "source"@).1
        + check_required_string(obj, "type"@).1 + check_required_string(obj, "specversion"@).1
        + check_specversion_value(check_required_string(obj, "specversion"@).0)
        + check_required_string(obj, "subject"@).1 + check_media_type(obj, "datacontenttype"@).1
        + check_uri(obj, "dataschema"@).1 + check_time(obj).1
}

/// `data`, unless absent or null.
pub open spec fn data_of(obj: Seq<(String, JsonValue)>) -> Option<JsonValue> {
    match lookup(obj, "data"@) {
        Some(JsonValue::Null) => None,
        other => other,
    }
}

/// The validated event of an object that has no failures.
pub open spec fn object_sheep(obj: Seq<(String, JsonValue)>) -> SheepView {
    SheepView {
        id: check_required_string(obj, "id"@).0.unwrap(),
        source: check_required_string(obj, "source"@).0.unwrap(),
        event_type: check_required_string(obj, "type"@).0.unwrap(),
        specversion: check_required_string(obj, "specversion"@).0.unwrap(),
        subject: check_required_string(obj, "subject"@).0.unwrap(),
        time: check_time(obj).0,
        data: data_of(obj),
        datacontenttype: check_media_type(obj, "datacontenttype"@).0,
        dataschema: check_uri(obj, "dataschema"@).0,
    }
}

/// The CloudEvents v1.0.2 contract: a JSON object is accepted exactly when it
/// has no failure, and every failure is reported, not only the first.
pub open spec fn spec_validate(value: JsonValue) -> Result<SheepView, Seq<Seq<char>>> {
    match value {
        JsonValue::Object(entries) => {
            let errors = object_errors(entries@);
            if errors.len() == 0 {
                Ok(object_sheep(entries@))
            } else {
                Err(errors)
            }
        },
        _ => Err(seq!["body must be a JSON object"@]),
    }
}

/// A character RFC 2045 allows in a token: printable ASCII other than
/// `( ) < > @ , ; : \ " / [ ] ? =`.
pub open spec fn rfc2045_token_char(c: char) -> bool {
    &&& 0x21 <= c as u32 <= 0x7E
    &&& c != '(' && c != ')' && c != '<' && c != '>' && c != '@' && c != ',' && c != ';'
    &&& c != ':' && c != '\\' && c != '"' && c != '/' && c != '[' && c != ']' && c != '?'
    &&& c != '='
}

/// Every `type/subtype` whose parts are non-empty runs of RFC 2045 token
/// characters is a media type, so `application/octet-stream` and
/// `application/x-www-form-urlencoded` are among them.
pub proof fn lemma_token_pair_is_media_type(kind: Seq<char>, subtype: Seq<char>)
    requires
        kind.len() > 0,
        subtype.len() > 0,
        forall|i: int| 0 <= i < kind.len() ==> rfc2045_token_char(#[trigger] kind[i]),
        forall|i: int| 0 <= i < subtype.len() ==> rfc2045_token_char(#[trigger] subtype[i]),
    ensures
        is_media_type(kind + "/"@ + subtype),
{
    reveal_strlit("/");
    let s = kind + "/"@ + subtype;
    let k = kind.len() as int;
    assert(s.len() == k + 1 + subtype.len());
    assert forall|i: int| 0 <= i < s.len() implies s[i] != ';' && !is_unicode_whitespace(#[trigger] s[i])
        && (i != k ==> rfc2045_token_char(s[i])) by {
        if i < k {
            assert(s[i] == kind[i]);
        } else if i > k {
            assert(s[i] == subtype[i - k - 1]);
        }
    }
    assert(!exists|j: int| is_first_index(s, ';', j));
    assert(before_first(s, ';') == s);
    assert(trim_start(s) == s);
    assert(trim_end(s) == s);
    assert(is_first_index(s, '/', k));
    lemma_first_index_unique(s, '/', k);
    assert(s.take(k) =~= kind);
    assert(s.skip(k + 1) =~= subtype);
    assert(split_once(s, '/') == Some((kind, subtype)));
    assert forall|i: int| 0 <= i < kind.len() implies is_token_char(#[trigger] kind[i]) by {
        assert(rfc2045_token_char(kind[i]));
    }
    assert forall|i: int| 0 <= i < subtype.len() implies is_token_char(#[trigger] subtype[i]) by {
        assert(rfc2045_token_char(subtype[i]));
    }
}

/// No text holding `#` is an absolute URI: an absolute URI has no fragment.
pub proof fn lemma_fragment_is_not_absolute_uri(s: Seq<char>)
    requires
        s.contains('#'),
    ensures
        !is_absolute_uri(s),
{
}

proof fn lemma_contains_in_sum(a: Seq<Seq<char>>, b: Seq<Seq<char>>, x: Seq<char>)
    ensures
        a.contains(x) ==> (a + b).contains(x),
        b.contains(x) ==> (a + b).contains(x),
{
    if a.contains(x) {
        let i = choose|i: int| 0 <= i < a.len() && a[i] == x;
        assert((a + b)[i] == x);
    }
    if b.contains(x) {
        let i = choose|i: int| 0 <= i < b.len() && b[i] == x;
        assert((a + b)[a.len() + i] == x);
    }
}

/// An event whose `dataschema` is a string holding `#` is refused, and one
/// of its failures is that `dataschema` must be an absolute URI.
pub proof fn lemma_fragment_dataschema_is_refused(entries: Vec<(String, JsonValue)>, schema: String)
    requires
        lookup(entries@, "dataschema"@) == Some(JsonValue::Str(schema)),
        schema@.contains('#'),
    ensures
        spec_validate(JsonValue::Object(entries)) matches Err(errors) && errors.contains(
            "dataschema must be an absolute URI"@,
        ),
{
    let obj = entries@;
    let x = "dataschema must be an absolute URI"@;
    reveal_strlit("dataschema");
    reveal_strlit(" must be an absolute URI");
    reveal_strlit("dataschema must be an absolute URI");
    assert("dataschema"@ + " must be an absolute URI"@ =~= x);
    assert(schema@.len() > 0);
    lemma_fragment_is_not_absolute_uri(schema@);
    let uri = check_uri(obj, "dataschema"@).1;
    assert(uri == seq![x]);
    assert(uri[0] == x);
    let before = check_required_string(obj, "id"@).1 + check_required_string(obj, "source"@).1
        + check_required_string(obj, "type"@).1 + check_required_string(obj, "specversion"@).1
        + check_specversion_value(check_required_string(obj, "specversion"@).0)
        + check_required_string(obj, "subject"@).1 + check_media_type(obj, "datacontenttype"@).1;
    lemma_contains_in_sum(before, uri, x);
    lemma_contains_in_sum(before + uri, check_time(obj).1, x);
    assert(object_errors(obj) == before + uri + check_time(obj).1);
    assert(object_errors(obj).contains(x));
}

/// An event whose `datacontenttype` is `type/subtype` made of RFC 2045 token
/// characters keeps it as its content type: it adds no failure.
pub proof fn lemma_token_pair_content_type_is_kept(
    obj: Seq<(String, JsonValue)>,
    value: String,
    kind: Seq<char>,
    subtype: Seq<char>,
)
    requires
        lookup(obj, "datacontenttype"@) == Some(JsonValue::Str(value)),
        value@ == kind + "/"@ + subtype,
        kind.len() > 0,
        subtype.len() > 0,
        forall|i: int| 0 <= i < kind.len() ==> rfc2045_token_char(#[trigger] kind[i]),
        forall|i: int| 0 <= i < subtype.len() ==> rfc2045_token_char(#[trigger] subtype[i]),
    ensures
        check_media_type(obj, "datacontenttype"@) == (Some(value@), Seq::<Seq<char>>::empty()),
{
    lemma_token_pair_is_media_type(kind, subtype);
    assert(check_optional_string(obj, "datacontenttype"@).1 =~= Seq::<Seq<char>>::empty());
}

/// The instant of a present, non-empty `time` string, if it parses.
pub open spec fn time_instant(value: JsonValue) -> Option<i128> {
    match value {
        JsonValue::Object(entries) => match check_optional_string(entries@, "time"@).0 {
            Some(t) => rfc3339_instant(t),
            None => None,
        },
        _ => None,
    }
}

/// The event time, if any, can be moved to UTC; the `time` crate panics
/// when the UTC date falls outside the years it holds.
pub open spec fn time_converts_to_utc(value: JsonValue) -> bool {
    match time_instant(value) {
        Some(n) => utc_representable(n as int),
        None => true,
    }
}

/// An event time, if any, whose UTC date the `time` crate can hold.
pub open spec fn time_in_utc_range(time: Option<i128>) -> bool {
    match time {
        Some(t) => utc_representable(t as int),
        None => true,
    }
}

/// `key` followed by `suffix`.
fn message(key: &str, suffix: &str) -> (r: String)
    ensures
        r@ == key@ + suffix@,
{
    let mut m = key.to_owned();
    m.append(suffix);
    m
}

fn push_error(errors: &mut Vec<String>, e: String)
    ensures
        strings_view(final(errors)@) == strings_view(old(errors)@).push(e@),
{
    errors.push(e);
    assert(strings_view(errors@) =~= strings_view(old(errors)@).push(e@));
}

/// A present, non-empty string is required.
fn required_string(obj: &Vec<(String, JsonValue)>, key: &str, errors: &mut Vec<String>) -> (r: Option<String>)
    ensures
        opt_view(r) == check_required_string(obj@, key@).0,
        strings_view(final(errors)@) == strings_view(old(errors)@) + check_required_string(obj@, key@).1,
{
    match get(obj, key) {
        None | Some(JsonValue::Null) => {
            push_error(errors, message(key, " is required"));
            None
        },
        Some(JsonValue::Str(s)) => {
            if s.unicode_len() > 0 {
                Some(s.clone())
            } else {
                push_error(errors, message(key, " must not be empty"));
                None
            }
        },
        Some(_) => {
            push_error(errors, message(key, " must be a string"));
            None
        },
    }
}

/// If present and non-null, must be a non-empty string.
fn optional_string(obj: &Vec<(String, JsonValue)>, key: &str, errors: &mut Vec<String>) -> (r: Option<String>)
    ensures
        opt_view(r) == check_optional_string(obj@, key@).0,
        strings_view(final(errors)@) == strings_view(old(errors)@) + check_optional_string(obj@, key@).1,
{
    match get(obj, key) {
        None | Some(JsonValue::Null) => {
            assert(strings_view(errors@) + seq![] =~= strings_view(errors@));
            None
        },
        Some(JsonValue::Str(s)) => {
            if s.unicode_len() > 0 {
                assert(strings_view(errors@) + seq![] =~= strings_view(errors@));
                Some(s.clone())
            } else {
                push_error(errors, message(key, " must not be empty"));
                None
            }
        },
        Some(_) => {
            push_error(errors, message(key, " must be a string"));
            None
        },
    }
}

fn is_ascii_alpha_char(c: char) -> (r: bool)
    ensures
        r == is_ascii_alpha(c),
{
    let n = c as u32;
    (0x41 <= n && n <= 0x5A) || (0x61 <= n && n <= 0x7A)
}

fn is_ascii_alnum_char(c: char) -> (r: bool)
    ensures
        r == is_ascii_alnum(c),
{
    let n = c as u32;
    is_ascii_alpha_char(c) || (0x30 <= n && n <= 0x39)
}

/// True for an absolute URI per RFC 3986 §4.3: a valid `scheme` followed by
/// `:`, no fragment, and no raw white space or control characters. Keyed on
/// the scheme, not on an authority, so `urn:` and `mailto:` URIs pass.
pub fn is_absolute_uri_str(s: &str) -> (r: bool)
    ensures
        r == is_absolute_uri(s@),
{
    let v = chars_of(s);
    let k = match find_char(&v, ':') {
        Some(k) => k,
        None => {
            return false;
        },
    };
    let ghost scheme = v@.take(k as int);
    assert(split_once(s@, ':') == Some((scheme, v@.skip(k + 1))));
    if k == 0 || !is_ascii_alpha_char(v[0]) {
        assert(k > 0 ==> scheme[0] == v@[0]);
        return false;
    }
    let mut i: usize = 1;
    while i < k
        invariant
            1 <= i <= k < v@.len(),
            v@ == s@,
            scheme == v@.take(k as int),
            split_once(s@, ':') == Some((scheme, v@.skip(k + 1))),
            forall|j: int|
                1 <= j < i ==> is_ascii_alnum(scheme[j]) || scheme[j] == '+' || scheme[j] == '-'
                    || scheme[j] == '.',
        decreases k - i,
    {
        let c = v[i];
        if !(is_ascii_alnum_char(c) || c == '+' || c == '-' || c == '.') {
            assert(scheme[i as int] == c);
            return false;
        }
        i = i + 1;
    }
    assert(is_scheme(scheme));
    if contains_char(&v, '#') {
        assert(s@.contains('#'));
        return false;
    }
    let mut i: usize = 0;
    while i < v.len()
        invariant
            i <= v@.len(),
            v@ == s@,
            is_scheme(scheme),
            !s@.contains('#'),
            split_once(s@, ':') == Some((scheme, v@.skip(k + 1))),
            forall|j: int|
                0 <= j < i ==> !is_unicode_whitespace(v@[j]) && !is_unicode_control(v@[j]),
        decreases v@.len() - i,
    {
        if is_whitespace_char(v[i]) || is_control_char(v[i]) {
            return false;
        }
        i = i + 1;
    }
    true
}

/// Whether the characters `lo..hi` of `v` form an RFC 2045 token.
fn is_token_range(v: &Vec<char>, lo: usize, hi: usize) -> (r: bool)
    requires
        lo <= hi <= v@.len(),
    ensures
        r == is_token(v@.subrange(lo as int, hi as int)),
{
    let ghost t = v@.subrange(lo as int, hi as int);
    if lo == hi {
        return false;
    }
    let mut i = lo;
    while i < hi
        invariant
            lo <= i <= hi <= v@.len(),
            t == v@.subrange(lo as int, hi as int),
            forall|j: int| 0 <= j < i - lo ==> is_token_char(t[j]),
        decreases hi - i,
    {
        let c = v[i];
        let n = c as u32;
        let special = c == '(' || c == ')' || c == '<' || c == '>' || c == '@' || c == ',' || c
            == ';' || c == ':' || c == '\\' || c == '"' || c == '/' || c == '[' || c == ']' || c
            == '?' || c == '=';
        if !(0x21 <= n && n <= 0x7E) || special {
            assert(t[i - lo] == c);
            return false;
        }
        i = i + 1;
    }
    true
}

/// True for an RFC 2046 media type: `type "/" subtype` optionally followed by
/// `;`-separated parameters (which are not inspected). Both `type` and
/// `subtype` must be non-empty RFC 2045 tokens.
pub fn is_media_type_str(s: &str) -> (r: bool)
    ensures
        r == is_media_type(s@),
{
    let v = chars_of(s);
    let end = match find_char(&v, ';') {
        Some(k) => k,
        None => v.len(),
    };
    let before = copy_range(&v, 0, end);
    assert(before@ == before_first(s@, ';')) by {
        assert(v@.subrange(0, v@.len() as int) =~= v@);
        assert(v@.take(end as int) =~= v@.subrange(0, end as int));
    }
    let (lo, hi) = trim_bounds(&before);
    let essence = copy_range(&before, lo, hi);
    match find_char(&essence, '/') {
        Some(k) => {
            assert(essence@.take(k as int) =~= essence@.subrange(0, k as int));
            assert(essence@.skip(k + 1) =~= essence@.subrange(k + 1, essence@.len() as int));
            is_token_range(&essence, 0, k) && is_token_range(&essence, k + 1, essence.len())
        },
        None => false,
    }
}

/// If present and non-null, must be a non-empty RFC 2046 media type.
fn optional_media_type(obj: &Vec<(String, JsonValue)>, key: &str, errors: &mut Vec<String>) -> (r: Option<String>)
    ensures
        opt_view(r) == check_media_type(obj@, key@).0,
        strings_view(final(errors)@) == strings_view(old(errors)@) + check_media_type(obj@, key@).1,
{
    let value = optional_string(obj, key, errors);
    match value {
        Some(t) => {
            if is_media_type_str(t.as_str()) {
                Some(t)
            } else {
                let ghost before = strings_view(errors@);
                push_error(errors, message(key, " must be a media type"));
                assert(strings_view(errors@) =~= strings_view(old(errors)@) + check_media_type(obj@, key@).1);
                None
            }
        },
        None => None,
    }
}

/// If present and non-null, must be a non-empty absolute URI.
fn optional_uri(obj: &Vec<(String, JsonValue)>, key: &str, errors: &mut Vec<String>) -> (r: Option<String>)
    ensures
        opt_view(r) == check_uri(obj@, key@).0,
        strings_view(final(errors)@) == strings_view(old(errors)@) + check_uri(obj@, key@).1,
{
    let value = optional_string(obj, key, errors);
    match value {
        Some(t) => {
            if is_absolute_uri_str(t.as_str()) {
                Some(t)
            } else {
                push_error(errors, message(key, " must be an absolute URI"));
                assert(strings_view(errors@) =~= strings_view(old(errors)@) + check_uri(obj@, key@).1);
                None
            }
        },
        None => None,
    }
}

/// If present and non-null, `time` must parse as RFC 3339; the parsed
/// date-time is kept as its instant.
fn optional_time(obj: &Vec<(String, JsonValue)>, errors: &mut Vec<String>) -> (r: Option<i128>)
    ensures
        r == check_time(obj@).0,
        strings_view(final(errors)@) == strings_view(old(errors)@) + check_time(obj@).1,
{
    let value = optional_string(obj, "time", errors);
    match value {
        Some(t) => match parse_rfc3339(t.as_str()) {
            Some(n) => Some(n),
            None => {
                let mut m = "time must be RFC 3339, got \"".to_owned();
                m.append(t.as_str());
                m.append("\"");
                push_error(errors, m);
                assert(strings_view(errors@) =~= strings_view(old(errors)@) + check_time(obj@).1);
                None
            },
        },
        None => None,
    }
}

/// Validate a raw JSON value against the CloudEvents v1.0.2 contract.
/// Collects every failure rather than stopping at the first.
pub fn validate(value: JsonValue) -> (r: Result<Sheep, Vec<String>>)
    requires
        time_converts_to_utc(value),
    ensures
        match r {
            Ok(sheep) => spec_validate(value) == Ok::<SheepView, Seq<Seq<char>>>(sheep@),
            Err(errors) => spec_validate(value) == Err::<SheepView, Seq<Seq<char>>>(
                strings_view(errors@),
            ),
        },
{
    let mut entries = match value {
        JsonValue::Object(entries) => entries,
        _ => {
            let mut errors: Vec<String> = Vec::new();
            push_error(&mut errors, "body must be a JSON object".to_owned());
            assert(strings_view(errors@) =~= seq!["body must be a JSON object"@]);
            return Err(errors);
        },
    };
    let ghost obj = entries@;
    let mut errors: Vec<String> = Vec::new();
    assert(strings_view(errors@) =~= Seq::<Seq<char>>::empty());
    let id = required_string(&entries, "id", &mut errors);
    let source = required_string(&entries, "source", &mut errors);
    let kind = required_string(&entries, "type", &mut errors);
    let specversion = required_string(&entries, "specversion", &mut errors);
    let ghost before_version = strings_view(errors@);
    match &specversion {
        Some(sv) => {
            if !str_eq(sv.as_str(), "1.0") {
                let mut m = "specversion must be \"1.0\", got \"".to_owned();
                m.append(sv.as_str());
                m.append("\"");
                push_error(&mut errors, m);
            } else {
                assert(before_version + check_specversion_value(opt_view(specversion)) =~= before_version);
            }
        },
        None => {
            assert(before_version + check_specversion_value(opt_view(specversion)) =~= before_version);
        },
    }
    assert(strings_view(errors@) == before_version + check_specversion_value(opt_view(specversion)));
    let subject = required_string(&entries, "subject", &mut errors);
    let datacontenttype = optional_media_type(&entries, "datacontenttype", &mut errors);
    let dataschema = optional_uri(&entries, "dataschema", &mut errors);
    let time = optional_time(&entries, &mut errors);
    assert(strings_view(errors@) =~= object_errors(obj));
    if errors.len() > 0 {
        return Err(errors);
    }
    let data = match find_entry(&entries, "data") {
        Some(k) => {
            let entry = entries.remove(k);
            match entry.1 {
                JsonValue::Null => None,
                other => Some(other),
            }
        },
        None => None,
    };
    let sheep = Sheep {
        id: id.unwrap(),
        source: source.unwrap(),
        event_type: kind.unwrap(),
        specversion: specversion.unwrap(),
        subject: subject.unwrap(),
        time,
        data,
        datacontenttype,
        dataschema,
    };
    assert(sheep@ == object_sheep(obj));
    Ok(sheep)
}

/// Whether the event time of `value`, if any, can be moved to UTC.
fn time_converts(value: &JsonValue) -> (r: bool)
    ensures
        r == time_converts_to_utc(*value),
{
    match value {
        JsonValue::Object(entries) => match get(entries, "time") {
            Some(JsonValue::Str(t)) => {
                if t.unicode_len() == 0 {
                    return true;
                }
                match parse_rfc3339(t.as_str()) {
                    Some(n) => MIN_UTC_NANOS <= n && n < END_UTC_NANOS,
                    None => true,
                }
            },
            _ => true,
        },
        _ => true,
    }
}

/// `validate`, for every JSON value: `None` when the event time is a valid
/// RFC 3339 timestamp whose UTC date lies past the years the `time` crate
/// holds, where normalizing it to UTC panics.
pub fn validate_checked(value: JsonValue) -> (r: Option<Result<Sheep, Vec<String>>>)
    ensures
        r is None <==> !time_converts_to_utc(value),
        match r {
            Some(Ok(sheep)) => spec_validate(value) == Ok::<SheepView, Seq<Seq<char>>>(sheep@),
            Some(Err(errors)) => spec_validate(value) == Err::<SheepView, Seq<Seq<char>>>(
                strings_view(errors@),
            ),
            None => true,
        },
        r matches Some(Ok(sheep)) ==> time_in_utc_range(sheep.time),
{
    if time_converts(&value) {
        Some(validate(value))
    } else {
        None
    }
}

} // verus!
