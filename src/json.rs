//! A JSON document as plain values, and the decoding of the API's envelopes from it:
//! the version envelopes and the generic list envelope, whose count and payload may
//! stand under any of several keys.

use vstd::prelude::*;

use crate::text::text_eq;

verus! {

/// A JSON value. Numbers that are neither a `u64` nor an `i64` are kept as their text.
#[derive(Debug)]
pub enum JsonValue {
    Null,
    Bool(bool),
    /// A non-negative integer.
    UInt(u64),
    /// A negative integer.
    Int(i64),
    /// Any other number, as written.
    Real(String),
    String(String),
    Array(Vec<JsonValue>),
    /// The members of an object, in document order.
    Object(Vec<(String, JsonValue)>),
}

/// Why a JSON value is not of the expected shape.
#[derive(Clone, Copy, Debug, PartialEq, Eq, Structural)]
pub enum DecodeError {
    /// A required member is absent.
    MissingField,
    /// A member is given more than once, under one key or under two of its aliases.
    DuplicateField,
    /// A value is of another JSON type than expected.
    WrongType,
}

/// The indices of the members of `fs` whose key is one of `names`.
pub open spec fn matching(fs: Seq<(String, JsonValue)>, names: Seq<Seq<char>>) -> Seq<int>
    decreases fs.len(),
{
    if fs.len() == 0 {
        Seq::empty()
    } else {
        let rest = matching(fs.drop_last(), names);
        if names.contains(fs.last().0@) {
            rest.push(fs.len() - 1)
        } else {
            rest
        }
    }
}

/// The member of `fs` under one of `names`, which must be given exactly once.
pub open spec fn spec_member(fs: Seq<(String, JsonValue)>, names: Seq<Seq<char>>) -> Result<JsonValue, DecodeError> {
    let m = matching(fs, names);
    if m.len() == 0 {
        Err(DecodeError::MissingField)
    } else if m.len() == 1 {
        Ok(fs[m[0]].1)
    } else {
        Err(DecodeError::DuplicateField)
    }
}

/// The texts of some keys.
pub open spec fn key_texts(names: Seq<&str>) -> Seq<Seq<char>> {
    names.map_values(|n: &str| n@)
}

proof fn lemma_matching_bounds(fs: Seq<(String, JsonValue)>, names: Seq<Seq<char>>)
    ensures
        forall|j: int| 0 <= j < matching(fs, names).len() ==> 0 <= #[trigger] matching(fs, names)[j] < fs.len(),
        forall|j: int|
            0 <= j < matching(fs, names).len() ==> names.contains(fs[#[trigger] matching(fs, names)[j]].0@),
    decreases fs.len(),
{
    if fs.len() > 0 {
        let init = fs.drop_last();
        lemma_matching_bounds(init, names);
        let m0 = matching(init, names);
        let m = matching(fs, names);
        assert forall|j: int| 0 <= j < m.len() implies 0 <= #[trigger] m[j] < fs.len() && names.contains(
            fs[m[j]].0@,
        ) by {
            if j < m0.len() {
                assert(m[j] == m0[j]);
                assert(init[m0[j]] == fs[m0[j]]);
            }
        }
    }
}

/// Whether `k` is one of `names`.
fn is_one_of(k: &str, names: &Vec<&str>) -> (r: bool)
    ensures
        r == key_texts(names@).contains(k@),
{
    let ghost ns = key_texts(names@);
    let mut i: usize = 0;
    while i < names.len()
        invariant
            ns == key_texts(names@),
            i <= names.len(),
            forall|j: int| 0 <= j < i ==> ns[j] != k@,
        decreases names.len() - i,
    {
        if text_eq(k, names[i]) {
            assert(ns[i as int] == k@);
            return true;
        }
        i = i + 1;
    }
    false
}

/// How many members of `fields` stand under one of `names`, and the index of the first.
fn find_member(fields: &Vec<(String, JsonValue)>, names: &Vec<&str>) -> (r: (usize, usize))
    ensures
        r.0 == matching(fields@, key_texts(names@)).len(),
        r.0 > 0 ==> r.1 == matching(fields@, key_texts(names@))[0] && r.1 < fields@.len(),
{
    let ghost ns = key_texts(names@);
    let ghost fs = fields@;
    let mut found: usize = 0;
    let mut count: usize = 0;
    let mut i: usize = 0;
    while i < fields.len()
        invariant
            fs == fields@,
            ns == key_texts(names@),
            i <= fields.len(),
            count == matching(fs.take(i as int), ns).len(),
            count <= i,
            count > 0 ==> found == matching(fs.take(i as int), ns)[0],
        decreases fields.len() - i,
    {
        assert(fs.take(i + 1).drop_last() =~= fs.take(i as int));
        if is_one_of(fields[i].0.as_str(), names) {
            if count == 0 {
                found = i;
            }
            count = count + 1;
        }
        i = i + 1;
    }
    assert(fs.take(fields.len() as int) =~= fs);
    proof {
        lemma_matching_bounds(fs, ns);
    }
    (count, found)
}

/// Takes the member under one of `names` out of `fields`; it must be given exactly once.
pub fn take_member(fields: Vec<(String, JsonValue)>, names: &Vec<&str>) -> (r: Result<JsonValue, DecodeError>)
    ensures
        r == spec_member(fields@, key_texts(names@)),
{
    let (count, found) = find_member(&fields, names);
    if count == 0 {
        Err(DecodeError::MissingField)
    } else if count == 1 {
        let mut fields = fields;
        let (_, v) = fields.remove(found);
        Ok(v)
    } else {
        Err(DecodeError::DuplicateField)
    }
}

/// The keys under which the list envelope gives its count.
pub open spec fn count_keys() -> Seq<Seq<char>> {
    seq!["count"@, "total"@, "batteryCount"@]
}

/// The keys under which the list envelope gives its items.
pub open spec fn list_keys() -> Seq<Seq<char>> {
    seq!["list"@, "data"@, "site"@, "siteEnergyList"@, "timeFrameEnergyList"@, "telemetries"@, "batteries"@]
}

fn count_names() -> (r: Vec<&'static str>)
    ensures
        key_texts(r@) == count_keys(),
{
    let mut v: Vec<&'static str> = Vec::new();
    v.push("count");
    v.push("total");
    v.push("batteryCount");
    assert(key_texts(v@) =~= count_keys());
    v
}

fn list_names() -> (r: Vec<&'static str>)
    ensures
        key_texts(r@) == list_keys(),
{
    let mut v: Vec<&'static str> = Vec::new();
    v.push("list");
    v.push("data");
    v.push("site");
    v.push("siteEnergyList");
    v.push("timeFrameEnergyList");
    v.push("telemetries");
    v.push("batteries");
    assert(key_texts(v@) =~= list_keys());
    v
}

/// The optional count of a list envelope: absent or `null` is none; otherwise a
/// non-negative integer that fits a `usize`, given once.
pub open spec fn spec_count(fs: Seq<(String, JsonValue)>) -> Result<Option<usize>, DecodeError> {
    match spec_member(fs, count_keys()) {
        Err(DecodeError::MissingField) => Ok(None),
        Err(e) => Err(e),
        Ok(JsonValue::Null) => Ok(None),
        Ok(JsonValue::UInt(n)) => if n <= usize::MAX {
            Ok(Some(n as usize))
        } else {
            Err(DecodeError::WrongType)
        },
        Ok(_) => Err(DecodeError::WrongType),
    }
}

/// What a list envelope holds: its count, if given, and its items.
pub open spec fn spec_decode_list(v: JsonValue) -> Result<(Option<usize>, Seq<JsonValue>), DecodeError> {
    match v {
        JsonValue::Object(fields) => match spec_count(fields@) {
            Err(e) => Err(e),
            Ok(c) => match spec_member(fields@, list_keys()) {
                Err(e) => Err(e),
                Ok(JsonValue::Array(items)) => Ok((c, items@)),
                Ok(_) => Err(DecodeError::WrongType),
            },
        },
        _ => Err(DecodeError::WrongType),
    }
}

/// The list envelope: an optional count and the items, under whichever of their keys
/// the endpoint uses.
#[derive(Debug)]
pub struct List<T> {
    pub count: Option<usize>,
    pub list: Vec<T>,
}

impl List<JsonValue> {
    /// Reads a list envelope, leaving its items undecoded.
    pub fn decode(v: JsonValue) -> (r: Result<List<JsonValue>, DecodeError>)
        ensures
            match spec_decode_list(v) {
                Ok((c, items)) => r is Ok && r->Ok_0.count == c && r->Ok_0.list@ == items,
                Err(e) => r is Err && r->Err_0 == e,
            },
    {
        match v {
            JsonValue::Object(fields) => {
                let count_keys = count_names();
                let (n, at) = find_member(&fields, &count_keys);
                let count: Option<usize> = if n == 0 {
                    None
                } else if n > 1 {
                    return Err(DecodeError::DuplicateField);
                } else {
                    match &fields[at].1 {
                        JsonValue::Null => None,
                        JsonValue::UInt(c) => {
                            if *c <= usize::MAX as u64 {
                                Some(*c as usize)
                            } else {
                                return Err(DecodeError::WrongType);
                            }
                        },
                        _ => {
                            return Err(DecodeError::WrongType);
                        },
                    }
                };
                match take_member(fields, &list_names()) {
                    Err(e) => Err(e),
                    Ok(JsonValue::Array(items)) => Ok(List { count, list: items }),
                    Ok(_) => Err(DecodeError::WrongType),
                }
            },
            _ => Err(DecodeError::WrongType),
        }
    }
}

/// A list envelope that gives a count and its items, under the count key and under
/// any one of the item keys, reads as that count and those items, whichever item key
/// it uses.
pub proof fn lemma_list_alias(v: JsonValue, n: u64, k: Seq<char>)
    requires
        v is Object,
        v->Object_0@.len() == 2,
        v->Object_0@[0].0@ == "count"@,
        v->Object_0@[0].1 == JsonValue::UInt(n),
        n <= usize::MAX,
        v->Object_0@[1].0@ == k,
        list_keys().contains(k),
        v->Object_0@[1].1 is Array,
    ensures
        spec_decode_list(v) == Ok::<(Option<usize>, Seq<JsonValue>), DecodeError>(
            (Some(n as usize), v->Object_0@[1].1->Array_0@),
        ),
{
    let fs = v->Object_0@;
    reveal_with_fuel(matching, 3);
    reveal_strlit("count");
    reveal_strlit("total");
    reveal_strlit("batteryCount");
    reveal_strlit("list");
    reveal_strlit("data");
    reveal_strlit("site");
    reveal_strlit("siteEnergyList");
    reveal_strlit("timeFrameEnergyList");
    reveal_strlit("telemetries");
    reveal_strlit("batteries");
    assert("count"@.len() == 5);
    assert("total"@.len() == 5);
    assert("batteryCount"@.len() == 12);
    assert("list"@.len() == 4);
    assert("data"@.len() == 4);
    assert("site"@.len() == 4);
    assert("siteEnergyList"@.len() == 14);
    assert("timeFrameEnergyList"@.len() == 19);
    assert("telemetries"@.len() == 11);
    assert("batteries"@.len() == 9);
    assert(count_keys().contains("count"@)) by {
        assert(count_keys()[0] == "count"@);
    }
    assert(!count_keys().contains(k)) by {
        let j = choose|j: int| 0 <= j < list_keys().len() && list_keys()[j] == k;
        assert(k.len() != 5 && k.len() != 12);
    }
    assert(!list_keys().contains("count"@));
    assert(fs.drop_last().drop_last() =~= Seq::<(String, JsonValue)>::empty());
    assert(fs.drop_last().last() == fs[0]);
    assert(matching(fs, count_keys()) =~= seq![0int]);
    assert(matching(fs, list_keys()) =~= seq![1int]);
}

/// A release of the API, in `<major.minor.revision>` form.
#[derive(Debug)]
pub struct Spec {
    pub release: String,
}

/// The envelope of the current version.
#[derive(Debug)]
pub struct CurrentTop {
    pub version: Spec,
}

/// The envelope of the supported versions.
#[derive(Debug)]
pub struct SupportedTop {
    pub supported: Vec<Spec>,
}

fn one_name(n: &'static str) -> (r: Vec<&'static str>)
    ensures
        key_texts(r@) == seq![n@],
{
    let mut v: Vec<&'static str> = Vec::new();
    v.push(n);
    assert(key_texts(v@) =~= seq![n@]);
    v
}

/// The release that a version object gives under `release`.
pub open spec fn spec_decode_release(v: JsonValue) -> Result<Seq<char>, DecodeError> {
    match v {
        JsonValue::Object(fields) => match spec_member(fields@, seq!["release"@]) {
            Ok(JsonValue::String(s)) => Ok(s@),
            Ok(_) => Err(DecodeError::WrongType),
            Err(e) => Err(e),
        },
        _ => Err(DecodeError::WrongType),
    }
}

/// The release inside the current-version envelope `{"version": {"release": ...}}`.
pub open spec fn spec_decode_version_current(v: JsonValue) -> Result<Seq<char>, DecodeError> {
    match v {
        JsonValue::Object(fields) => match spec_member(fields@, seq!["version"@]) {
            Ok(inner) => spec_decode_release(inner),
            Err(e) => Err(e),
        },
        _ => Err(DecodeError::WrongType),
    }
}

/// The releases of version objects, or the first error among them.
pub open spec fn spec_decode_releases(items: Seq<JsonValue>) -> Result<Seq<Seq<char>>, DecodeError>
    decreases items.len(),
{
    if items.len() == 0 {
        Ok(Seq::empty())
    } else {
        match spec_decode_releases(items.drop_last()) {
            Err(e) => Err(e),
            Ok(rs) => match spec_decode_release(items.last()) {
                Err(e) => Err(e),
                Ok(r) => Ok(rs.push(r)),
            },
        }
    }
}

/// The releases inside the supported-versions envelope `{"supported": [...]}`.
pub open spec fn spec_decode_version_supported(v: JsonValue) -> Result<Seq<Seq<char>>, DecodeError> {
    match v {
        JsonValue::Object(fields) => match spec_member(fields@, seq!["supported"@]) {
            Ok(JsonValue::Array(items)) => spec_decode_releases(items@),
            Ok(_) => Err(DecodeError::WrongType),
            Err(e) => Err(e),
        },
        _ => Err(DecodeError::WrongType),
    }
}

impl Spec {
    /// Reads a version object.
    pub fn decode(v: JsonValue) -> (r: Result<Spec, DecodeError>)
        ensures
            match spec_decode_release(v) {
                Ok(s) => r is Ok && r->Ok_0.release@ == s,
                Err(e) => r is Err && r->Err_0 == e,
            },
    {
        match v {
            JsonValue::Object(fields) => match take_member(fields, &one_name("release")) {
                Ok(JsonValue::String(release)) => Ok(Spec { release }),
                Ok(_) => Err(DecodeError::WrongType),
                Err(e) => Err(e),
            },
            _ => Err(DecodeError::WrongType),
        }
    }
}

impl CurrentTop {
    /// Reads the current-version envelope.
    pub fn decode(v: JsonValue) -> (r: Result<CurrentTop, DecodeError>)
        ensures
            match spec_decode_version_current(v) {
                Ok(s) => r is Ok && r->Ok_0.version.release@ == s,
                Err(e) => r is Err && r->Err_0 == e,
            },
    {
        match v {
            JsonValue::Object(fields) => match take_member(fields, &one_name("version")) {
                Ok(inner) => match Spec::decode(inner) {
                    Ok(version) => Ok(CurrentTop { version }),
                    Err(e) => Err(e),
                },
                Err(e) => Err(e),
            },
            _ => Err(DecodeError::WrongType),
        }
    }
}

impl SupportedTop {
    /// Reads the supported-versions envelope.
    pub fn decode(v: JsonValue) -> (r: Result<SupportedTop, DecodeError>)
        ensures
            match spec_decode_version_supported(v) {
                Ok(rs) => r is Ok && r->Ok_0.supported@.map_values(|s: Spec| s.release@) == rs,
                Err(e) => r is Err && r->Err_0 == e,
            },
    {
        let ghost target = spec_decode_version_supported(v);
        match v {
            JsonValue::Object(fields) => match take_member(fields, &one_name("supported")) {
                Ok(JsonValue::Array(items)) => {
                    let ghost all = items@;
                    let mut rest = items;
                    let mut out: Vec<Spec> = Vec::new();
                    let n = rest.len();
                    let mut i: usize = 0;
                    while i < n
                        invariant
                            target == spec_decode_releases(all),
                            target == spec_decode_version_supported(v),
                            n == all.len(),
                            i <= n,
                            rest@ == all.skip(i as int),
                            spec_decode_releases(all.take(i as int)) is Ok,
                            out@.map_values(|s: Spec| s.release@) == spec_decode_releases(
                                all.take(i as int),
                            )->Ok_0,
                        decreases n - i,
                    {
                        assert(all.take(i + 1).drop_last() =~= all.take(i as int));
                        assert(rest@[0] == all[i as int]);
                        let item = rest.remove(0);
                        assert(rest@ =~= all.skip(i + 1));
                        match Spec::decode(item) {
                            Ok(s) => {
                                let ghost before = out@.map_values(|s: Spec| s.release@);
                                out.push(s);
                                assert(out@.map_values(|s: Spec| s.release@) =~= before.push(
                                    s.release@,
                                ));
                            },
                            Err(e) => {
                                proof {
                                    assert(all.take(i + 1).last() == all[i as int]);
                                    assert(spec_decode_releases(all.take(i + 1)) == Err::<
                                        Seq<Seq<char>>,
                                        DecodeError,
                                    >(e));
                                    lemma_releases_error_prefix(all, i as int + 1);
                                }
                                return Err(e);
                            },
                        }
                        i = i + 1;
                    }
                    assert(all.take(n as int) =~= all);
                    Ok(SupportedTop { supported: out })
                },
                Ok(_) => Err(DecodeError::WrongType),
                Err(e) => Err(e),
            },
            _ => Err(DecodeError::WrongType),
        }
    }
}

proof fn lemma_releases_error_prefix(all: Seq<JsonValue>, k: int)
    requires
        0 <= k <= all.len(),
        spec_decode_releases(all.take(k)) is Err,
    ensures
        spec_decode_releases(all) == spec_decode_releases(all.take(k)),
    decreases all.len() - k,
{
    if k < all.len() {
        assert(all.take(k + 1).drop_last() =~= all.take(k));
        lemma_releases_error_prefix(all, k + 1);
    } else {
        assert(all.take(k) =~= all);
    }
}

/// The release that the current-version envelope gives.
pub fn decode_version_current(v: JsonValue) -> (r: Result<String, DecodeError>)
    ensures
        match spec_decode_version_current(v) {
            Ok(s) => r is Ok && r->Ok_0@ == s,
            Err(e) => r is Err && r->Err_0 == e,
        },
{
    match CurrentTop::decode(v) {
        Ok(top) => Ok(top.version.release),
        Err(e) => Err(e),
    }
}

/// The versions that the supported-versions envelope gives.
pub fn decode_version_supported(v: JsonValue) -> (r: Result<Vec<Spec>, DecodeError>)
    ensures
        match spec_decode_version_supported(v) {
            Ok(rs) => r is Ok && r->Ok_0@.map_values(|s: Spec| s.release@) == rs,
            Err(e) => r is Err && r->Err_0 == e,
        },
{
    match SupportedTop::decode(v) {
        Ok(top) => Ok(top.supported),
        Err(e) => Err(e),
    }
}

} // verus!
