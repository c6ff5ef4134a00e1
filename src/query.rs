//! Query strings. A request's parameters are a sequence of fields, each a key and an
//! optional value; a value is one or more parts, which the query string joins with
//! literal commas. Absent fields are left out; present ones become `key=value` pairs,
//! joined with `&`, each key and part form-urlencoded.

use vstd::prelude::*;
use vstd::utf8::{encode_utf8, is_ascii_chars, is_ascii_chars_encode_utf8};

verus! {

/// A field of a parameter record: its key, and its value's parts when present.
pub type FieldView = (Seq<char>, Option<Seq<Seq<char>>>);

/// A pair of a query string: its key and its value's parts.
pub type PairView = (Seq<char>, Seq<Seq<char>>);

/// A field of a parameter record.
#[derive(Clone, Debug)]
pub struct QueryField {
    pub key: String,
    /// The value's parts, or `None` when the field is absent.
    pub parts: Option<Vec<String>>,
}

/// A `key=value` pair of a query string; a list value has several parts.
#[derive(Clone, Debug)]
pub struct QueryPair {
    pub key: String,
    pub parts: Vec<String>,
}

impl DeepView for QueryField {
    type V = FieldView;

    open spec fn deep_view(&self) -> FieldView {
        (self.key@, self.parts.deep_view())
    }
}

impl DeepView for QueryPair {
    type V = PairView;

    open spec fn deep_view(&self) -> PairView {
        (self.key@, self.parts.deep_view())
    }
}

/// `ps` with the pair of field `f` added when the field is present.
pub open spec fn push_present(ps: Seq<PairView>, f: FieldView) -> Seq<PairView> {
    match f.1 {
        Some(v) => ps.push((f.0, v)),
        None => ps,
    }
}

/// The pairs of the present fields of `fs`, in order.
pub open spec fn present_pairs(fs: Seq<FieldView>) -> Seq<PairView>
    decreases fs.len(),
{
    if fs.len() == 0 {
        Seq::empty()
    } else {
        push_present(present_pairs(fs.drop_last()), fs.last())
    }
}

/// How many pairs of `ps` have the key `k`.
pub open spec fn key_count(ps: Seq<PairView>, k: Seq<char>) -> nat
    decreases ps.len(),
{
    if ps.len() == 0 {
        0
    } else {
        key_count(ps.drop_last(), k) + if ps.last().0 == k {
            1nat
        } else {
            0nat
        }
    }
}

/// No two fields of `fs` share a key.
pub open spec fn keys_distinct(fs: Seq<FieldView>) -> bool {
    forall|i: int, j: int| 0 <= i < j < fs.len() ==> fs[i].0 != fs[j].0
}

/// Some field of `fs` has the key `k`.
pub open spec fn has_key(fs: Seq<FieldView>, k: Seq<char>) -> bool {
    exists|i: int| 0 <= i < fs.len() && fs[i].0 == k
}

/// Every field's key appears in the pairs once when the field is present, with the
/// field's value, and never when it is absent; no other key appears.
pub open spec fn fields_appear_once(fs: Seq<FieldView>) -> bool {
    let ps = present_pairs(fs);
    &&& forall|i: int|
        0 <= i < fs.len() ==> #[trigger] key_count(ps, fs[i].0) == if fs[i].1 is Some {
            1nat
        } else {
            0nat
        }
    &&& forall|i: int|
        0 <= i < fs.len() && fs[i].1 is Some ==> ps.contains((fs[i].0, #[trigger] fs[i].1->Some_0))
    &&& forall|k: Seq<char>| !has_key(fs, k) ==> #[trigger] key_count(ps, k) == 0
}

proof fn lemma_key_count_push_present(ps: Seq<PairView>, f: FieldView, k: Seq<char>)
    ensures
        key_count(push_present(ps, f), k) == key_count(ps, k) + if f.1 is Some && f.0 == k {
            1nat
        } else {
            0nat
        },
{
    if f.1 is Some {
        assert(ps.push((f.0, f.1->Some_0)).drop_last() =~= ps);
    }
}

/// Of a record whose fields have distinct keys, each present field appears in the
/// query pairs exactly once, with its value, and no absent field appears.
pub proof fn lemma_fields_appear_once(fs: Seq<FieldView>)
    requires
        keys_distinct(fs),
    ensures
        fields_appear_once(fs),
    decreases fs.len(),
{
    if fs.len() > 0 {
        let init = fs.drop_last();
        let f = fs.last();
        assert(keys_distinct(init));
        lemma_fields_appear_once(init);
        let ps0 = present_pairs(init);
        let ps = present_pairs(fs);
        assert(ps == push_present(ps0, f));
        assert forall|i: int| 0 <= i < fs.len() implies #[trigger] key_count(ps, fs[i].0) == if fs[i].1 is Some {
            1nat
        } else {
            0nat
        } by {
            lemma_key_count_push_present(ps0, f, fs[i].0);
            if i < fs.len() - 1 {
                assert(init[i] == fs[i]);
                assert(fs[i].0 != f.0);
            } else {
                assert(!has_key(init, f.0)) by {
                    if has_key(init, f.0) {
                        let j = choose|j: int| 0 <= j < init.len() && init[j].0 == f.0;
                        assert(fs[j].0 == fs[fs.len() - 1].0);
                    }
                }
            }
        }
        assert forall|i: int| 0 <= i < fs.len() && fs[i].1 is Some implies ps.contains(
            (fs[i].0, #[trigger] fs[i].1->Some_0),
        ) by {
            if i < fs.len() - 1 {
                assert(init[i] == fs[i]);
                let j = choose|j: int| 0 <= j < ps0.len() && ps0[j] == (init[i].0, init[i].1->Some_0);
                if f.1 is Some {
                    assert(ps[j] == ps0[j]);
                }
            } else {
                assert(ps[ps.len() - 1] == (f.0, f.1->Some_0));
            }
        }
        assert forall|k: Seq<char>| !has_key(fs, k) implies #[trigger] key_count(ps, k) == 0 by {
            lemma_key_count_push_present(ps0, f, k);
            assert(f.0 != k) by {
                if f.0 == k {
                    assert(fs[fs.len() - 1].0 == k);
                }
            }
            assert(!has_key(init, k)) by {
                if has_key(init, k) {
                    let j = choose|j: int| 0 <= j < init.len() && init[j].0 == k;
                    assert(fs[j].0 == k);
                }
            }
        }
    }
}

/// The pairs of the present fields, in order.
pub fn present_pairs_of(fields: Vec<QueryField>) -> (r: Vec<QueryPair>)
    ensures
        r.deep_view() == present_pairs(fields.deep_view()),
{
    let ghost fs = fields.deep_view();
    let mut rest = fields;
    let mut out: Vec<QueryPair> = Vec::new();
    let n = rest.len();
    let mut i: usize = 0;
    while i < n
        invariant
            n == fs.len(),
            i <= n,
            rest.deep_view() == fs.skip(i as int),
            out.deep_view() == present_pairs(fs.take(i as int)),
        decreases n - i,
    {
        let ghost before = rest@;
        let ghost before_dv = rest.deep_view();
        assert(rest@.len() == rest.deep_view().len());
        let f = rest.remove(0);
        proof {
            assert(before[0] == f);
            assert(before_dv[0] == fs.skip(i as int)[0]);
            assert(fs[i as int] == f.deep_view());
            assert forall|j: int| 0 <= j < rest@.len() implies rest.deep_view()[j] == fs.skip(i + 1)[j] by {
                assert(rest@[j] == before[j + 1]);
                assert(before_dv[j + 1] == fs.skip(i as int)[j + 1]);
            }
            assert(rest.deep_view() =~= fs.skip(i + 1));
            assert(fs.take(i + 1).drop_last() =~= fs.take(i as int));
            assert(fs.take(i + 1).last() == fs[i as int]);
        }
        match f.parts {
            Some(parts) => {
                let ghost old_out = out.deep_view();
                out.push(QueryPair { key: f.key, parts });
                assert(out.deep_view() =~= old_out.push((fs[i as int].0, fs[i as int].1->Some_0)));
            },
            None => {},
        }
        i = i + 1;
    }
    assert(fs.take(n as int) =~= fs);
    out
}

/// The upper-case hexadecimal digit of `d` (0 to 15).
pub open spec fn hex_digit(d: nat) -> char {
    if d < 10 {
        ((d + 48) as u8) as char
    } else {
        ((d + 55) as u8) as char
    }
}

/// `%XX`: a byte as a percent sign and two upper-case hexadecimal digits.
pub open spec fn percent_byte(b: u8) -> Seq<char> {
    seq!['%', hex_digit(b as nat / 16), hex_digit(b as nat % 16)]
}

/// Bytes that form-urlencoding leaves as they are.
pub open spec fn form_unchanged(b: u8) -> bool {
    ||| 48 <= b <= 57
    ||| 65 <= b <= 90
    ||| 97 <= b <= 122
    ||| b == 42 || b == 45 || b == 46 || b == 95
}

/// The form-urlencoding of the bytes `bs`.
pub open spec fn form_bytes(bs: Seq<u8>) -> Seq<char>
    decreases bs.len(),
{
    if bs.len() == 0 {
        Seq::empty()
    } else {
        let b = bs.last();
        form_bytes(bs.drop_last()) + if form_unchanged(b) {
            seq![b as char]
        } else if b == 32 {
            seq!['+']
        } else {
            percent_byte(b)
        }
    }
}

/// The form-urlencoding of the text `s`, taken byte by byte in UTF-8.
pub open spec fn form_encoded(s: Seq<char>) -> Seq<char> {
    form_bytes(encode_utf8(s))
}

/// Characters that form-urlencoding leaves as they are: ASCII letters, digits and `*-._`.
pub open spec fn is_form_plain(c: char) -> bool {
    ||| '0' <= c <= '9'
    ||| 'A' <= c <= 'Z'
    ||| 'a' <= c <= 'z'
    ||| c == '*' || c == '-' || c == '.' || c == '_'
}

/// Every character of `s` is left as it is by form-urlencoding.
pub open spec fn is_form_plain_text(s: Seq<char>) -> bool {
    forall|i: int| 0 <= i < s.len() ==> is_form_plain(#[trigger] s[i])
}

spec fn byte_chars(bs: Seq<u8>) -> Seq<char> {
    bs.map_values(|b: u8| b as char)
}

proof fn lemma_form_bytes_plain(bs: Seq<u8>)
    requires
        forall|i: int| 0 <= i < bs.len() ==> form_unchanged(#[trigger] bs[i]),
    ensures
        form_bytes(bs) == byte_chars(bs),
    decreases bs.len(),
{
    if bs.len() > 0 {
        lemma_form_bytes_plain(bs.drop_last());
        assert(byte_chars(bs) =~= byte_chars(bs.drop_last()).push(bs.last() as char));
    }
}

/// Text of ASCII letters, digits and `*-._` is form-urlencoded as itself.
pub proof fn lemma_form_encoded_plain(s: Seq<char>)
    requires
        is_form_plain_text(s),
    ensures
        form_encoded(s) == s,
{
    assert(is_ascii_chars(s));
    is_ascii_chars_encode_utf8(s);
    let bs = encode_utf8(s);
    assert forall|i: int| 0 <= i < bs.len() implies form_unchanged(#[trigger] bs[i]) by {
        assert(s[i] as u8 == bs[i]);
    }
    lemma_form_bytes_plain(bs);
    assert forall|i: int| 0 <= i < s.len() implies byte_chars(bs)[i] == #[trigger] s[i] by {
        assert(s[i] as u8 == bs[i]);
    }
    assert(byte_chars(bs) =~= s);
}

/// A list value whose parts are all plain text appears in a query string as the parts
/// joined by literal commas: neither the parts nor the commas are encoded.
pub proof fn lemma_plain_value_text(parts: Seq<Seq<char>>)
    requires
        forall|i: int| 0 <= i < parts.len() ==> is_form_plain_text(#[trigger] parts[i]),
    ensures
        value_text(parts) == comma_joined(parts),
    decreases parts.len(),
{
    if parts.len() > 0 {
        lemma_form_encoded_plain(parts.last());
        if parts.len() > 1 {
            lemma_plain_value_text(parts.drop_last());
        } else {
            lemma_form_encoded_plain(parts[0]);
        }
    }
}

/// Relies on url's `form_urlencoded::byte_serialize`: ASCII letters, digits and
/// `*-._` stay, a space becomes `+`, every other byte of the UTF-8 form becomes `%XX`.
#[verifier::external_body]
fn form_encode(s: &str) -> (r: String)
    ensures
        r@ == form_encoded(s@),
{
    url::form_urlencoded::byte_serialize(s.as_bytes()).collect()
}

/// A value's text in a query string: its parts encoded and joined by literal commas.
pub open spec fn value_text(parts: Seq<Seq<char>>) -> Seq<char>
    decreases parts.len(),
{
    if parts.len() == 0 {
        Seq::empty()
    } else if parts.len() == 1 {
        form_encoded(parts[0])
    } else {
        value_text(parts.drop_last()) + seq![','] + form_encoded(parts.last())
    }
}

/// A pair's text in a query string: `key=value`.
pub open spec fn pair_text(p: PairView) -> Seq<char> {
    form_encoded(p.0) + seq!['='] + value_text(p.1)
}

/// The query string of the pairs `ps`, joined by `&`.
pub open spec fn query_text(ps: Seq<PairView>) -> Seq<char>
    decreases ps.len(),
{
    if ps.len() == 0 {
        Seq::empty()
    } else if ps.len() == 1 {
        pair_text(ps[0])
    } else {
        query_text(ps.drop_last()) + seq!['&'] + pair_text(ps.last())
    }
}

/// Joins the parts of a list value with commas, as the list appears before encoding.
pub open spec fn comma_joined(parts: Seq<Seq<char>>) -> Seq<char>
    decreases parts.len(),
{
    if parts.len() == 0 {
        Seq::empty()
    } else if parts.len() == 1 {
        parts[0]
    } else {
        comma_joined(parts.drop_last()) + seq![','] + parts.last()
    }
}

/// Encodes a value: its parts, each form-urlencoded, joined by literal commas.
pub fn encode_value(parts: &Vec<String>) -> (r: String)
    ensures
        r@ == value_text(parts.deep_view()),
{
    let ghost ps = parts.deep_view();
    let mut out = String::new();
    let mut i: usize = 0;
    while i < parts.len()
        invariant
            ps == parts.deep_view(),
            i <= parts.len(),
            out@ == value_text(ps.take(i as int)),
        decreases parts.len() - i,
    {
        let enc = form_encode(parts[i].as_str());
        proof {
            assert(ps.take(i + 1).drop_last() =~= ps.take(i as int));
            assert(ps[i as int] == parts@[i as int]@);
        }
        if i > 0 {
            out.append(",");
            proof {
                reveal_strlit(",");
            }
        } else {
            assert(ps.take(1) =~= seq![ps[0]]);
        }
        out.append(enc.as_str());
        i = i + 1;
    }
    assert(ps.take(parts.len() as int) =~= ps);
    out
}

/// Joins a list value's parts with commas.
pub fn join_commas(parts: &Vec<String>) -> (r: String)
    ensures
        r@ == comma_joined(parts.deep_view()),
{
    let ghost ps = parts.deep_view();
    let mut out = String::new();
    let mut i: usize = 0;
    while i < parts.len()
        invariant
            ps == parts.deep_view(),
            i <= parts.len(),
            out@ == comma_joined(ps.take(i as int)),
        decreases parts.len() - i,
    {
        proof {
            assert(ps.take(i + 1).drop_last() =~= ps.take(i as int));
            assert(ps[i as int] == parts@[i as int]@);
        }
        if i > 0 {
            out.append(",");
            proof {
                reveal_strlit(",");
            }
        } else {
            assert(ps.take(1) =~= seq![ps[0]]);
        }
        out.append(parts[i].as_str());
        i = i + 1;
    }
    assert(ps.take(parts.len() as int) =~= ps);
    out
}

/// Encodes pairs as a query string: `key=value` joined by `&`, empty for no pairs.
pub fn encode_query(pairs: &Vec<QueryPair>) -> (r: String)
    ensures
        r@ == query_text(pairs.deep_view()),
{
    let ghost ps = pairs.deep_view();
    let mut out = String::new();
    let mut i: usize = 0;
    while i < pairs.len()
        invariant
            ps == pairs.deep_view(),
            i <= pairs.len(),
            out@ == query_text(ps.take(i as int)),
        decreases pairs.len() - i,
    {
        let key = form_encode(pairs[i].key.as_str());
        let value = encode_value(&pairs[i].parts);
        proof {
            assert(ps.take(i + 1).drop_last() =~= ps.take(i as int));
            assert(ps[i as int] == pairs@[i as int].deep_view());
            reveal_strlit("=");
        }
        if i > 0 {
            out.append("&");
            proof {
                reveal_strlit("&");
            }
        } else {
            assert(ps.take(1) =~= seq![ps[0]]);
        }
        let ghost before = out@;
        out.append(key.as_str());
        out.append("=");
        out.append(value.as_str());
        assert(out@ =~= before + pair_text(ps[i as int]));
        i = i + 1;
    }
    assert(ps.take(pairs.len() as int) =~= ps);
    out
}

/// A field with the given key and value parts.
pub fn field(key: &str, parts: Option<Vec<String>>) -> (r: QueryField)
    ensures
        r.deep_view() == (key@, parts.deep_view()),
{
    QueryField { key: String::from_str(key), parts }
}

/// A value of one part.
pub fn single(s: String) -> (r: Vec<String>)
    ensures
        r.deep_view() == seq![s@],
{
    let mut v: Vec<String> = Vec::new();
    v.push(s);
    assert(v.deep_view() =~= seq![s@]);
    v
}

} // verus!
