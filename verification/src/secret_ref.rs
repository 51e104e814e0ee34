//! Claim-time resolution of `{"$secret_ref": ...}` placeholders in queued payloads.
//!
//! Wire shape of a placeholder:
//! `{"$secret_ref": {"id": "neutrino_secret:…", "version": 1}, "field": "password"}`.
//! At claim every placeholder is replaced with a JSON string: the named field of the sealed
//! secret. Resolution runs in two verified steps around the resolver calls: [`scan_secret_refs`]
//! lists the placeholders in document order (stopping at the first malformed one), the caller
//! resolves each, and [`substitute_secret_refs`] puts the resolved strings in place.
use vstd::prelude::*;

use crate::json::{json_as_i64, json_as_str, json_get, member_index, JsonValue};
use crate::text::{push_signed_decimal, push_str};

verus! {

/// Key that marks a placeholder object.
pub const SECRET_REF_WRAPPER_KEY: &'static str = "$secret_ref";

/// One placeholder: which secret, which version, which field of its JSON.
#[derive(Debug, Clone)]
pub struct SecretRef {
    /// Secret row id.
    pub id: String,
    /// Secret version.
    pub version: i64,
    /// String key in the decrypted JSON.
    pub field: String,
}

/// Mathematical model of a [`SecretRef`].
pub struct SecretRefModel {
    pub id: Seq<char>,
    pub version: i64,
    pub field: Seq<char>,
}

impl View for SecretRef {
    type V = SecretRefModel;

    open spec fn view(&self) -> SecretRefModel {
        SecretRefModel { id: self.id@, version: self.version, field: self.field@ }
    }
}

/// How a placeholder object is malformed.
#[derive(Debug, Clone, Copy, PartialEq, Eq, Structural)]
pub enum SecretRefError {
    /// `field` is missing or not a string.
    MissingField,
    /// `$secret_ref.id` is missing or not a string.
    MissingId,
    /// `$secret_ref.version` is missing or not an integer.
    MissingVersion,
}

/// The message of each malformation.
pub open spec fn secret_ref_error_text(e: SecretRefError) -> Seq<char> {
    match e {
        SecretRefError::MissingField => "secret ref missing string field 'field'"@,
        SecretRefError::MissingId => "$secret_ref.id missing or not a string"@,
        SecretRefError::MissingVersion => "$secret_ref.version missing or not an integer"@,
    }
}

impl SecretRefError {
    /// The operator-facing message.
    pub fn to_string(&self) -> (r: String)
        ensures
            r@ == secret_ref_error_text(*self),
    {
        let mut s = String::new();
        match self {
            SecretRefError::MissingField => push_str(
                &mut s,
                "secret ref missing string field 'field'",
            ),
            SecretRefError::MissingId => push_str(&mut s, "$secret_ref.id missing or not a string"),
            SecretRefError::MissingVersion => push_str(
                &mut s,
                "$secret_ref.version missing or not an integer",
            ),
        }
        assert(s@ =~= secret_ref_error_text(*self));
        s
    }
}

/// The text of an optional string value.
pub open spec fn opt_str(o: Option<JsonValue>) -> Option<Seq<char>> {
    match o {
        Some(x) => json_as_str(x),
        None => None,
    }
}

/// The integer of an optional value that fits `i64`.
pub open spec fn opt_i64(o: Option<JsonValue>) -> Option<i64> {
    match o {
        Some(x) => json_as_i64(x),
        None => None,
    }
}

/// A placeholder object `v` whose `$secret_ref` member is `refv`, checked in the order
/// `field`, `id`, `version`.
pub open spec fn classify_ref(v: JsonValue, refv: JsonValue) -> Result<SecretRefModel, SecretRefError> {
    match opt_str(json_get(v, "field"@)) {
        None => Err(SecretRefError::MissingField),
        Some(field) => match opt_str(json_get(refv, "id"@)) {
            None => Err(SecretRefError::MissingId),
            Some(id) => match opt_i64(json_get(refv, "version"@)) {
                None => Err(SecretRefError::MissingVersion),
                Some(version) => Ok(SecretRefModel { id, version, field }),
            },
        },
    }
}

/// How one value reads as a placeholder: `None` unless it is an object with a `$secret_ref`
/// member; otherwise the reference, or why it is malformed.
pub open spec fn classify(v: JsonValue) -> Option<Result<SecretRefModel, SecretRefError>> {
    match v {
        JsonValue::Object(_) => match json_get(v, "$secret_ref"@) {
            None => None,
            Some(refv) => Some(classify_ref(v, refv)),
        },
        _ => None,
    }
}

fn str_member(v: &JsonValue, key: &str) -> (r: Option<String>)
    ensures
        match r {
            Some(s) => opt_str(json_get(*v, key@)) == Some(s@),
            None => opt_str(json_get(*v, key@)) is None,
        },
{
    match v.get(key) {
        Some(x) => match x.as_str() {
            Some(t) => {
                let mut s = String::new();
                push_str(&mut s, t);
                assert(s@ =~= t@);
                Some(s)
            },
            None => None,
        },
        None => None,
    }
}

fn i64_member(v: &JsonValue, key: &str) -> (r: Option<i64>)
    ensures
        r == opt_i64(json_get(*v, key@)),
{
    match v.get(key) {
        Some(x) => x.as_i64(),
        None => None,
    }
}

fn parse_ref_fields(v: &JsonValue, refv: &JsonValue) -> (r: Result<SecretRef, SecretRefError>)
    ensures
        match (r, classify_ref(*v, *refv)) {
            (Ok(x), Ok(m)) => x@ == m,
            (Err(e), Err(k)) => e == k,
            _ => false,
        },
{
    let field = match str_member(v, "field") {
        Some(f) => f,
        None => {
            return Err(SecretRefError::MissingField);
        },
    };
    let id = match str_member(refv, "id") {
        Some(i) => i,
        None => {
            return Err(SecretRefError::MissingId);
        },
    };
    let version = match i64_member(refv, "version") {
        Some(n) => n,
        None => {
            return Err(SecretRefError::MissingVersion);
        },
    };
    Ok(SecretRef { id, version, field })
}

/// Reads one value as a placeholder (see [`classify`]).
pub fn parse_secret_ref(v: &JsonValue) -> (r: Result<Option<SecretRef>, SecretRefError>)
    ensures
        match (r, classify(*v)) {
            (Ok(None), None) => true,
            (Ok(Some(x)), Some(Ok(m))) => x@ == m,
            (Err(e), Some(Err(k))) => e == k,
            _ => false,
        },
{
    match v {
        JsonValue::Object(_) => {},
        _ => {
            return Ok(None);
        },
    }
    match v.get(SECRET_REF_WRAPPER_KEY) {
        Some(refv) => match parse_ref_fields(v, refv) {
            Ok(x) => Ok(Some(x)),
            Err(e) => Err(e),
        },
        None => Ok(None),
    }
}

/// Context line attached to a resolver failure for `r`.
pub open spec fn resolution_context_text(r: SecretRefModel) -> Seq<char> {
    "resolve secret ref field '"@ + r.field + "' from secret "@ + r.id + " v"@
        + crate::text::signed_decimal_seq(r.version as int)
}

/// The context line attached to a resolver failure for `r`.
pub fn resolution_context(r: &SecretRef) -> (s: String)
    ensures
        s@ == resolution_context_text(r@),
{
    let mut s = String::new();
    push_str(&mut s, "resolve secret ref field '");
    push_str(&mut s, r.field.as_str());
    push_str(&mut s, "' from secret ");
    push_str(&mut s, r.id.as_str());
    push_str(&mut s, " v");
    push_signed_decimal(&mut s, r.version);
    assert(s@ =~= resolution_context_text(r@));
    s
}

/// An object with both a `$secret_ref` and a `field` member.
pub open spec fn is_placeholder_object(v: JsonValue) -> bool {
    v is Object && json_get(v, "$secret_ref"@) is Some && json_get(v, "field"@) is Some
}

/// `v`, or some value nested in it, is a placeholder object.
pub open spec fn contains_placeholder(v: JsonValue) -> bool
    decreases v,
{
    match v {
        JsonValue::Array(items) => any_contains_placeholder(items@),
        JsonValue::Object(members) => is_placeholder_object(v) || members_contain_placeholder(
            members@,
        ),
        _ => false,
    }
}

/// Some element of `items` contains a placeholder.
pub open spec fn any_contains_placeholder(items: Seq<JsonValue>) -> bool
    decreases items,
{
    if items.len() == 0 {
        false
    } else {
        any_contains_placeholder(items.subrange(0, items.len() - 1)) || contains_placeholder(
            items[items.len() - 1],
        )
    }
}

/// Some member value of `members` contains a placeholder.
pub open spec fn members_contain_placeholder(members: Seq<(String, JsonValue)>) -> bool
    decreases members,
{
    if members.len() == 0 {
        false
    } else {
        members_contain_placeholder(members.subrange(0, members.len() - 1))
            || contains_placeholder(members[members.len() - 1].1)
    }
}

/// Whether `v`, or some value nested in it, is a placeholder object (an object with both a
/// `$secret_ref` and a `field` member).
pub fn value_contains_secret_ref_placeholder(v: &JsonValue) -> (r: bool)
    ensures
        r == contains_placeholder(*v),
    decreases *v, 1nat,
{
    match v {
        JsonValue::Array(items) => {
            proof {
                assert(decreases_to!(*v => (*v)->Array_0));
            }
            items_contain_placeholder(items)
        },
        JsonValue::Object(members) => {
            if v.get(SECRET_REF_WRAPPER_KEY).is_some() && v.get("field").is_some() {
                return true;
            }
            proof {
                assert(decreases_to!(*v => (*v)->Object_0));
            }
            members_hold_placeholder(members)
        },
        _ => false,
    }
}

fn items_contain_placeholder(items: &Vec<JsonValue>) -> (r: bool)
    ensures
        r == any_contains_placeholder(items@),
    decreases *items, 0nat,
{
    let mut i: usize = 0;
    while i < items.len()
        invariant
            i <= items@.len(),
            !any_contains_placeholder(items@.subrange(0, i as int)),
        decreases items@.len() - i,
    {
        proof {
            let post = items@.subrange(0, i + 1);
            assert(post.subrange(0, i as int) =~= items@.subrange(0, i as int));
            assert(post[i as int] == items@[i as int]);
            assert(decreases_to!(*items => items[i as int]));
        }
        if value_contains_secret_ref_placeholder(&items[i]) {
            proof {
                lemma_any_contains_extends(items@, i as int);
            }
            return true;
        }
        i = i + 1;
    }
    assert(items@.subrange(0, items@.len() as int) =~= items@);
    false
}

fn members_hold_placeholder(members: &Vec<(String, JsonValue)>) -> (r: bool)
    ensures
        r == members_contain_placeholder(members@),
    decreases *members, 0nat,
{
    let mut i: usize = 0;
    while i < members.len()
        invariant
            i <= members@.len(),
            !members_contain_placeholder(members@.subrange(0, i as int)),
        decreases members@.len() - i,
    {
        proof {
            let post = members@.subrange(0, i + 1);
            assert(post.subrange(0, i as int) =~= members@.subrange(0, i as int));
            assert(post[i as int] == members@[i as int]);
            assert(decreases_to!(*members => members[i as int]));
            assert(decreases_to!(members[i as int] => members[i as int].1));
        }
        if value_contains_secret_ref_placeholder(&members[i].1) {
            proof {
                lemma_members_contain_extends(members@, i as int);
            }
            return true;
        }
        i = i + 1;
    }
    assert(members@.subrange(0, members@.len() as int) =~= members@);
    false
}

proof fn lemma_any_contains_extends(items: Seq<JsonValue>, i: int)
    requires
        0 <= i < items.len(),
        contains_placeholder(items[i]),
    ensures
        any_contains_placeholder(items),
    decreases items.len() - i,
{
    if i < items.len() - 1 {
        let pre = items.subrange(0, items.len() - 1);
        assert(pre[i] == items[i]);
        lemma_any_contains_extends(pre, i);
    }
}

proof fn lemma_members_contain_extends(members: Seq<(String, JsonValue)>, i: int)
    requires
        0 <= i < members.len(),
        contains_placeholder(members[i].1),
    ensures
        members_contain_placeholder(members),
    decreases members.len() - i,
{
    if i < members.len() - 1 {
        let pre = members.subrange(0, members.len() - 1);
        assert(pre[i] == members[i]);
        lemma_members_contain_extends(pre, i);
    }
}

/// Placeholders of `v` in document order, and the malformation that stopped the walk, if any.
/// A placeholder is not searched inside; any other array or object is searched member by member.
pub open spec fn scan(v: JsonValue) -> (Seq<SecretRefModel>, Option<SecretRefError>)
    decreases v,
{
    match classify(v) {
        Some(Ok(r)) => (seq![r], None),
        Some(Err(e)) => (seq![], Some(e)),
        None => match v {
            JsonValue::Array(items) => scan_items(items@),
            JsonValue::Object(members) => scan_members(members@),
            _ => (seq![], None),
        },
    }
}

/// [`scan`] over the elements of an array, in order, stopping at the first malformation.
pub open spec fn scan_items(items: Seq<JsonValue>) -> (Seq<SecretRefModel>, Option<SecretRefError>)
    decreases items,
{
    if items.len() == 0 {
        (seq![], None)
    } else {
        let first = scan_items(items.subrange(0, items.len() - 1));
        if first.1 is Some {
            first
        } else {
            let last = scan(items[items.len() - 1]);
            (first.0 + last.0, last.1)
        }
    }
}

/// [`scan`] over the member values of an object, in order, stopping at the first malformation.
pub open spec fn scan_members(members: Seq<(String, JsonValue)>) -> (
    Seq<SecretRefModel>,
    Option<SecretRefError>,
)
    decreases members,
{
    if members.len() == 0 {
        (seq![], None)
    } else {
        let first = scan_members(members.subrange(0, members.len() - 1));
        if first.1 is Some {
            first
        } else {
            let last = scan(members[members.len() - 1].1);
            (first.0 + last.0, last.1)
        }
    }
}

/// Views of a list of references.
pub open spec fn refs_view(v: Seq<SecretRef>) -> Seq<SecretRefModel> {
    v.map_values(|r: SecretRef| r@)
}

fn scan_into(v: &JsonValue, out: &mut Vec<SecretRef>) -> (r: Option<SecretRefError>)
    ensures
        refs_view(final(out)@) == refs_view(old(out)@) + scan(*v).0,
        r == scan(*v).1,
    decreases *v, 1nat,
{
    match parse_secret_ref(v) {
        Ok(Some(x)) => {
            let ghost before = out@;
            out.push(x);
            assert(refs_view(out@) =~= refs_view(before) + seq![x@]);
            None
        },
        Err(e) => {
            assert(refs_view(out@) =~= refs_view(out@) + Seq::<SecretRefModel>::empty());
            Some(e)
        },
        Ok(None) => match v {
            JsonValue::Array(items) => {
                proof {
                    assert(decreases_to!(*v => (*v)->Array_0));
                }
                scan_items_into(items, out)
            },
            JsonValue::Object(members) => {
                proof {
                    assert(decreases_to!(*v => (*v)->Object_0));
                }
                scan_members_into(members, out)
            },
            _ => {
                assert(refs_view(out@) =~= refs_view(out@) + Seq::<SecretRefModel>::empty());
                None
            },
        },
    }
}

fn scan_items_into(items: &Vec<JsonValue>, out: &mut Vec<SecretRef>) -> (r: Option<SecretRefError>)
    ensures
        refs_view(final(out)@) == refs_view(old(out)@) + scan_items(items@).0,
        r == scan_items(items@).1,
    decreases *items, 0nat,
{
    let mut i: usize = 0;
    assert(items@.subrange(0, 0) =~= Seq::<JsonValue>::empty());
    assert(refs_view(out@) =~= refs_view(old(out)@) + Seq::<SecretRefModel>::empty());
    while i < items.len()
        invariant
            i <= items@.len(),
            scan_items(items@.subrange(0, i as int)).1 is None,
            refs_view(out@) == refs_view(old(out)@) + scan_items(items@.subrange(0, i as int)).0,
        decreases items@.len() - i,
    {
        let ghost before = out@;
        proof {
            let post = items@.subrange(0, i + 1);
            assert(post.subrange(0, i as int) =~= items@.subrange(0, i as int));
            assert(post[i as int] == items@[i as int]);
            assert(decreases_to!(*items => items[i as int]));
        }
        let e = scan_into(&items[i], out);
        proof {
            let post = items@.subrange(0, i + 1);
            assert(refs_view(out@) =~= refs_view(old(out)@) + scan_items(post).0);
        }
        if e.is_some() {
            proof {
                lemma_scan_items_error_sticks(items@, i + 1);
            }
            return e;
        }
        i = i + 1;
    }
    assert(items@.subrange(0, items@.len() as int) =~= items@);
    None
}

fn scan_members_into(members: &Vec<(String, JsonValue)>, out: &mut Vec<SecretRef>) -> (r: Option<
    SecretRefError,
>)
    ensures
        refs_view(final(out)@) == refs_view(old(out)@) + scan_members(members@).0,
        r == scan_members(members@).1,
    decreases *members, 0nat,
{
    let mut i: usize = 0;
    assert(members@.subrange(0, 0) =~= Seq::<(String, JsonValue)>::empty());
    assert(refs_view(out@) =~= refs_view(old(out)@) + Seq::<SecretRefModel>::empty());
    while i < members.len()
        invariant
            i <= members@.len(),
            scan_members(members@.subrange(0, i as int)).1 is None,
            refs_view(out@) == refs_view(old(out)@) + scan_members(
                members@.subrange(0, i as int),
            ).0,
        decreases members@.len() - i,
    {
        proof {
            let post = members@.subrange(0, i + 1);
            assert(post.subrange(0, i as int) =~= members@.subrange(0, i as int));
            assert(post[i as int] == members@[i as int]);
            assert(decreases_to!(*members => members[i as int]));
            assert(decreases_to!(members[i as int] => members[i as int].1));
        }
        let e = scan_into(&members[i].1, out);
        proof {
            let post = members@.subrange(0, i + 1);
            assert(refs_view(out@) =~= refs_view(old(out)@) + scan_members(post).0);
        }
        if e.is_some() {
            proof {
                lemma_scan_members_error_sticks(members@, i + 1);
            }
            return e;
        }
        i = i + 1;
    }
    assert(members@.subrange(0, members@.len() as int) =~= members@);
    None
}

proof fn lemma_scan_items_error_sticks(items: Seq<JsonValue>, k: int)
    requires
        0 <= k <= items.len(),
        scan_items(items.subrange(0, k)).1 is Some,
    ensures
        scan_items(items) == scan_items(items.subrange(0, k)),
    decreases items.len() - k,
{
    if k < items.len() {
        let post = items.subrange(0, k + 1);
        assert(post.subrange(0, k) =~= items.subrange(0, k));
        lemma_scan_items_error_sticks(items, k + 1);
    } else {
        assert(items.subrange(0, k) =~= items);
    }
}

proof fn lemma_scan_members_error_sticks(members: Seq<(String, JsonValue)>, k: int)
    requires
        0 <= k <= members.len(),
        scan_members(members.subrange(0, k)).1 is Some,
    ensures
        scan_members(members) == scan_members(members.subrange(0, k)),
    decreases members.len() - k,
{
    if k < members.len() {
        let post = members.subrange(0, k + 1);
        assert(post.subrange(0, k) =~= members.subrange(0, k));
        lemma_scan_members_error_sticks(members, k + 1);
    } else {
        assert(members.subrange(0, k) =~= members);
    }
}

/// Lists the placeholders of `v` in document order, each to be resolved in that order; the
/// error is the malformation the walk stopped at (placeholders after it are not listed).
pub fn scan_secret_refs(v: &JsonValue) -> (r: (Vec<SecretRef>, Option<SecretRefError>))
    ensures
        refs_view(r.0@) == scan(*v).0,
        r.1 == scan(*v).1,
{
    let mut out: Vec<SecretRef> = Vec::new();
    let e = scan_into(v, &mut out);
    assert(refs_view(out@) =~= scan(*v).0);
    (out, e)
}

/// `new` is `old` with its placeholders, in document order, replaced by the JSON strings
/// `vals` (one per placeholder); everything else is kept as it was.
pub open spec fn subst_ok(old: JsonValue, new: JsonValue, vals: Seq<Seq<char>>) -> bool
    decreases old,
{
    match classify(old) {
        Some(Ok(_)) => vals.len() == 1 && match new {
            JsonValue::String(s) => s@ == vals[0],
            _ => false,
        },
        Some(Err(_)) => false,
        None => match old {
            JsonValue::Array(a) => match new {
                JsonValue::Array(b) => subst_items_ok(a@, b@, vals),
                _ => false,
            },
            JsonValue::Object(m) => match new {
                JsonValue::Object(n) => subst_members_ok(m@, n@, vals),
                _ => false,
            },
            _ => new == old && vals.len() == 0,
        },
    }
}

/// [`subst_ok`] element by element, each element taking its own share of `vals`.
pub open spec fn subst_items_ok(a: Seq<JsonValue>, b: Seq<JsonValue>, vals: Seq<Seq<char>>) -> bool
    decreases a,
{
    if a.len() == 0 {
        b.len() == 0 && vals.len() == 0
    } else {
        let c = scan_items(a.subrange(0, a.len() - 1)).0.len();
        &&& b.len() == a.len()
        &&& c <= vals.len()
        &&& subst_items_ok(
            a.subrange(0, a.len() - 1),
            b.subrange(0, b.len() - 1),
            vals.subrange(0, c as int),
        )
        &&& subst_ok(a[a.len() - 1], b[b.len() - 1], vals.subrange(c as int, vals.len() as int))
    }
}

/// [`subst_ok`] member by member: keys are kept, values take their own share of `vals`.
pub open spec fn subst_members_ok(
    m: Seq<(String, JsonValue)>,
    n: Seq<(String, JsonValue)>,
    vals: Seq<Seq<char>>,
) -> bool
    decreases m,
{
    if m.len() == 0 {
        n.len() == 0 && vals.len() == 0
    } else {
        let c = scan_members(m.subrange(0, m.len() - 1)).0.len();
        &&& n.len() == m.len()
        &&& c <= vals.len()
        &&& n[n.len() - 1].0 == m[m.len() - 1].0
        &&& subst_members_ok(
            m.subrange(0, m.len() - 1),
            n.subrange(0, n.len() - 1),
            vals.subrange(0, c as int),
        )
        &&& subst_ok(
            m[m.len() - 1].1,
            n[n.len() - 1].1,
            vals.subrange(c as int, vals.len() as int),
        )
    }
}

proof fn lemma_scan_items_prefix(a: Seq<JsonValue>, k: int)
    requires
        scan_items(a).1 is None,
        0 <= k <= a.len(),
    ensures
        scan_items(a.subrange(0, k)).1 is None,
        scan_items(a.subrange(0, k)).0.len() <= scan_items(a).0.len(),
        k < a.len() ==> scan(a[k]).1 is None,
        k < a.len() ==> scan_items(a.subrange(0, k + 1)).0 == scan_items(a.subrange(0, k)).0 + scan(
            a[k],
        ).0,
    decreases a.len() - k,
{
    if k == a.len() {
        assert(a.subrange(0, k) =~= a);
    } else {
        lemma_scan_items_prefix(a, k + 1);
        let post = a.subrange(0, k + 1);
        assert(post.subrange(0, k) =~= a.subrange(0, k));
        assert(post[k] == a[k]);
    }
}

proof fn lemma_scan_members_prefix(m: Seq<(String, JsonValue)>, k: int)
    requires
        scan_members(m).1 is None,
        0 <= k <= m.len(),
    ensures
        scan_members(m.subrange(0, k)).1 is None,
        scan_members(m.subrange(0, k)).0.len() <= scan_members(m).0.len(),
        k < m.len() ==> scan(m[k].1).1 is None,
        k < m.len() ==> scan_members(m.subrange(0, k + 1)).0 == scan_members(m.subrange(0, k)).0
            + scan(m[k].1).0,
    decreases m.len() - k,
{
    if k == m.len() {
        assert(m.subrange(0, k) =~= m);
    } else {
        lemma_scan_members_prefix(m, k + 1);
        let post = m.subrange(0, k + 1);
        assert(post.subrange(0, k) =~= m.subrange(0, k));
        assert(post[k] == m[k]);
    }
}

proof fn lemma_items_step(
    pre: Seq<JsonValue>,
    x: JsonValue,
    before: Seq<JsonValue>,
    y: JsonValue,
    w: Seq<Seq<char>>,
    c: int,
)
    requires
        0 <= c <= w.len(),
        before.len() == pre.len(),
        scan_items(pre).0.len() == c,
        subst_items_ok(pre, before, w.subrange(0, c)),
        subst_ok(x, y, w.subrange(c, w.len() as int)),
    ensures
        subst_items_ok(pre.push(x), before.push(y), w),
{
    let a = pre.push(x);
    let b = before.push(y);
    assert(a.subrange(0, a.len() - 1) =~= pre);
    assert(b.subrange(0, b.len() - 1) =~= before);
}

proof fn lemma_members_step(
    pre: Seq<(String, JsonValue)>,
    kv: (String, JsonValue),
    before: Seq<(String, JsonValue)>,
    y: JsonValue,
    w: Seq<Seq<char>>,
    c: int,
)
    requires
        0 <= c <= w.len(),
        before.len() == pre.len(),
        scan_members(pre).0.len() == c,
        subst_members_ok(pre, before, w.subrange(0, c)),
        subst_ok(kv.1, y, w.subrange(c, w.len() as int)),
    ensures
        subst_members_ok(pre.push(kv), before.push((kv.0, y)), w),
{
    let a = pre.push(kv);
    let b = before.push((kv.0, y));
    assert(a.subrange(0, a.len() - 1) =~= pre);
    assert(b.subrange(0, b.len() - 1) =~= before);
}

#[verifier::rlimit(40)]
fn subst_value(v: JsonValue, vals: &Vec<String>, pos: usize) -> (r: (JsonValue, usize))
    requires
        scan(v).1 is None,
        pos + scan(v).0.len() <= vals@.len(),
    ensures
        r.1 == pos + scan(v).0.len(),
        subst_ok(v, r.0, crate::text::strings_view(vals@).subrange(pos as int, r.1 as int)),
    decreases v, 1nat,
{
    let ghost g = v;
    let ghost sv = crate::text::strings_view(vals@);
    match parse_secret_ref(&v) {
        Ok(Some(_)) => {
            assert(scan(v).0.len() == 1);
            assert(vals@.len() == vals.len());
            let s = vals[pos].clone();
            proof {
                assert(sv.subrange(pos as int, pos + 1) =~= seq![vals@[pos as int]@]);
            }
            (JsonValue::String(s), pos + 1)
        },
        Err(_) => {
            proof {
                assert(false);
            }
            (v, pos)
        },
        Ok(None) => match v {
            JsonValue::Array(items) => {
                proof {
                    assert(decreases_to!(g => g->Array_0));
                }
                let (out, p) = subst_items(items, vals, pos);
                (JsonValue::Array(out), p)
            },
            JsonValue::Object(members) => {
                proof {
                    assert(decreases_to!(g => g->Object_0));
                }
                let (out, p) = subst_members(members, vals, pos);
                (JsonValue::Object(out), p)
            },
            other => {
                assert(sv.subrange(pos as int, pos as int) =~= Seq::<Seq<char>>::empty());
                (other, pos)
            },
        },
    }
}

#[verifier::rlimit(40)]
#[verifier::loop_isolation(false)]
fn subst_items(items: Vec<JsonValue>, vals: &Vec<String>, pos: usize) -> (r: (Vec<JsonValue>, usize))
    requires
        scan_items(items@).1 is None,
        pos + scan_items(items@).0.len() <= vals@.len(),
    ensures
        r.1 == pos + scan_items(items@).0.len(),
        subst_items_ok(
            items@,
            r.0@,
            crate::text::strings_view(vals@).subrange(pos as int, r.1 as int),
        ),
    decreases items, 0nat,
{
    let ghost g = items;
    let ghost a = items@;
    let ghost sv = crate::text::strings_view(vals@);
    assert(items@.len() == items.len());
    let mut rest = items;
    let mut out: Vec<JsonValue> = Vec::new();
    let mut p: usize = pos;
    let mut i: usize = 0;
    proof {
        assert(a.subrange(0, 0) =~= Seq::<JsonValue>::empty());
        assert(rest@ =~= a.subrange(0, a.len() as int));
        assert(sv.subrange(pos as int, pos as int) =~= Seq::<Seq<char>>::empty());
    }
    while rest.len() > 0
        invariant
            a == g@,
            a.len() <= usize::MAX,
            sv == crate::text::strings_view(vals@),
            scan_items(a).1 is None,
            pos + scan_items(a).0.len() <= vals@.len(),
            i <= a.len(),
            rest@ == a.subrange(i as int, a.len() as int),
            out@.len() == i,
            p == pos + scan_items(a.subrange(0, i as int)).0.len(),
            scan_items(a.subrange(0, i as int)).1 is None,
            subst_items_ok(a.subrange(0, i as int), out@, sv.subrange(pos as int, p as int)),
        decreases rest@.len(),
    {
        proof {
            lemma_scan_items_prefix(a, i as int);
            lemma_scan_items_prefix(a, i + 1);
            assert(rest@[0] == a[i as int]);
            assert(decreases_to!(g => g[i as int]));
        }
        let x = rest.remove(0);
        let ghost before = out@;
        let ghost p0 = p;
        let (y, p2) = subst_value(x, vals, p);
        out.push(y);
        p = p2;
        proof {
            let pre = a.subrange(0, i as int);
            assert(a.subrange(0, i + 1) =~= pre.push(a[i as int]));
            assert(out@ =~= before.push(y));
            let w = sv.subrange(pos as int, p as int);
            let c = p0 - pos;
            assert(w.subrange(0, c as int) =~= sv.subrange(pos as int, p0 as int));
            assert(w.subrange(c as int, w.len() as int) =~= sv.subrange(p0 as int, p as int));
            lemma_items_step(pre, a[i as int], before, y, w, c as int);
            assert(rest@ =~= a.subrange(i + 1, a.len() as int));
        }
        i = i + 1;
    }
    proof {
        assert(a.subrange(0, i as int) =~= a);
    }
    (out, p)
}

#[verifier::rlimit(40)]
#[verifier::loop_isolation(false)]
fn subst_members(members: Vec<(String, JsonValue)>, vals: &Vec<String>, pos: usize) -> (r: (
    Vec<(String, JsonValue)>,
    usize,
))
    requires
        scan_members(members@).1 is None,
        pos + scan_members(members@).0.len() <= vals@.len(),
    ensures
        r.1 == pos + scan_members(members@).0.len(),
        subst_members_ok(
            members@,
            r.0@,
            crate::text::strings_view(vals@).subrange(pos as int, r.1 as int),
        ),
    decreases members, 0nat,
{
    let ghost g = members;
    let ghost m = members@;
    let ghost sv = crate::text::strings_view(vals@);
    assert(members@.len() == members.len());
    let mut rest = members;
    let mut out: Vec<(String, JsonValue)> = Vec::new();
    let mut p: usize = pos;
    let mut i: usize = 0;
    proof {
        assert(m.subrange(0, 0) =~= Seq::<(String, JsonValue)>::empty());
        assert(rest@ =~= m.subrange(0, m.len() as int));
        assert(sv.subrange(pos as int, pos as int) =~= Seq::<Seq<char>>::empty());
    }
    while rest.len() > 0
        invariant
            m == g@,
            m.len() <= usize::MAX,
            sv == crate::text::strings_view(vals@),
            scan_members(m).1 is None,
            pos + scan_members(m).0.len() <= vals@.len(),
            i <= m.len(),
            rest@ == m.subrange(i as int, m.len() as int),
            out@.len() == i,
            p == pos + scan_members(m.subrange(0, i as int)).0.len(),
            scan_members(m.subrange(0, i as int)).1 is None,
            subst_members_ok(m.subrange(0, i as int), out@, sv.subrange(pos as int, p as int)),
        decreases rest@.len(),
    {
        proof {
            lemma_scan_members_prefix(m, i as int);
            lemma_scan_members_prefix(m, i + 1);
            assert(rest@[0] == m[i as int]);
            assert(decreases_to!(g => g[i as int]));
            assert(decreases_to!(g[i as int] => g[i as int].1));
        }
        let pair = rest.remove(0);
        let key = pair.0;
        let x = pair.1;
        proof {
            assert(x == g@[i as int].1);
            assert(decreases_to!(g => x));
        }
        let ghost before = out@;
        let ghost p0 = p;
        let (y, p2) = subst_value(x, vals, p);
        out.push((key, y));
        p = p2;
        proof {
            let pre = m.subrange(0, i as int);
            assert(m.subrange(0, i + 1) =~= pre.push(m[i as int]));
            assert(out@ =~= before.push((m[i as int].0, y)));
            let w = sv.subrange(pos as int, p as int);
            let c = p0 - pos;
            assert(w.subrange(0, c as int) =~= sv.subrange(pos as int, p0 as int));
            assert(w.subrange(c as int, w.len() as int) =~= sv.subrange(p0 as int, p as int));
            lemma_members_step(pre, m[i as int], before, y, w, c as int);
            assert(rest@ =~= m.subrange(i + 1, m.len() as int));
        }
        i = i + 1;
    }
    proof {
        assert(m.subrange(0, i as int) =~= m);
    }
    (out, p)
}

/// Puts the resolved strings in place of the placeholders of `v`: `resolved[i]` replaces the
/// `i`-th placeholder that [`scan_secret_refs`] listed.
pub fn substitute_secret_refs(v: JsonValue, resolved: &Vec<String>) -> (r: JsonValue)
    requires
        scan(v).1 is None,
        resolved@.len() == scan(v).0.len(),
    ensures
        subst_ok(v, r, crate::text::strings_view(resolved@)),
{
    let ghost sv = crate::text::strings_view(resolved@);
    let (r, _) = subst_value(v, resolved, 0);
    assert(sv.subrange(0, resolved@.len() as int) =~= sv);
    r
}

/// Once every placeholder has been replaced, none is left: whatever strings were put in
/// place of the placeholders, the result holds no placeholder object at any depth.
pub proof fn lemma_substitution_leaves_no_placeholder(v: JsonValue, r: JsonValue, vals: Seq<Seq<char>>)
    requires
        subst_ok(v, r, vals),
    ensures
        !contains_placeholder(r),
    decreases v, 1nat,
{
    match classify(v) {
        Some(Ok(_)) => {},
        Some(Err(_)) => {},
        None => match v {
            JsonValue::Array(a) => {
                match r {
                    JsonValue::Array(b) => {
                        assert(decreases_to!(v => v->Array_0));
                        assert(decreases_to!(v->Array_0 => a@));
                        lemma_items_leave_no_placeholder(a@, b@, vals);
                    },
                    _ => {},
                }
            },
            JsonValue::Object(m) => {
                match r {
                    JsonValue::Object(n) => {
                        assert(decreases_to!(v => v->Object_0));
                        assert(decreases_to!(v->Object_0 => m@));
                        lemma_members_leave_no_placeholder(m@, n@, vals);
                        let k = "$secret_ref"@;
                        assert(member_index(m@, k) is None);
                        assert forall|i: int| 0 <= i < n@.len() implies n@[i].0@ != k by {
                            assert(m@[i].0@ != k);
                        }
                        assert(member_index(n@, k) is None);
                    },
                    _ => {},
                }
            },
            _ => {},
        },
    }
}

proof fn lemma_items_leave_no_placeholder(a: Seq<JsonValue>, b: Seq<JsonValue>, vals: Seq<Seq<char>>)
    requires
        subst_items_ok(a, b, vals),
    ensures
        !any_contains_placeholder(b),
    decreases a, 0nat,
{
    if a.len() > 0 {
        let c = scan_items(a.subrange(0, a.len() - 1)).0.len();
        assert(decreases_to!(a => a.subrange(0, a.len() - 1)));
        lemma_items_leave_no_placeholder(
            a.subrange(0, a.len() - 1),
            b.subrange(0, b.len() - 1),
            vals.subrange(0, c as int),
        );
        assert(decreases_to!(a => a[a.len() - 1]));
        lemma_substitution_leaves_no_placeholder(
            a[a.len() - 1],
            b[b.len() - 1],
            vals.subrange(c as int, vals.len() as int),
        );
    }
}

proof fn lemma_members_leave_no_placeholder(
    m: Seq<(String, JsonValue)>,
    n: Seq<(String, JsonValue)>,
    vals: Seq<Seq<char>>,
)
    requires
        subst_members_ok(m, n, vals),
    ensures
        !members_contain_placeholder(n),
        n.len() == m.len(),
        forall|i: int| 0 <= i < n.len() ==> #[trigger] n[i].0 == m[i].0,
    decreases m, 0nat,
{
    if m.len() > 0 {
        let c = scan_members(m.subrange(0, m.len() - 1)).0.len();
        let mp = m.subrange(0, m.len() - 1);
        let np = n.subrange(0, n.len() - 1);
        assert(decreases_to!(m => mp));
        lemma_members_leave_no_placeholder(mp, np, vals.subrange(0, c as int));
        assert(decreases_to!(m => m[m.len() - 1]));
        assert(decreases_to!(m[m.len() - 1] => m[m.len() - 1].1));
        lemma_substitution_leaves_no_placeholder(
            m[m.len() - 1].1,
            n[n.len() - 1].1,
            vals.subrange(c as int, vals.len() as int),
        );
        assert forall|i: int| 0 <= i < n.len() implies #[trigger] n[i].0 == m[i].0 by {
            if i < n.len() - 1 {
                assert(np[i] == n[i]);
                assert(mp[i] == m[i]);
            }
        }
    }
}

} // verus!
