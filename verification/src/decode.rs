//! Decoding of the hardware requirement documents stored on pool rows.
//!
//! Shape (object form; the positional array form `[arch, min_cpu_logical, min_memory_bytes]`
//! is accepted too):
//!
//! ```json
//! { "arch": ["aarch64"], "min_cpu_logical": 4, "min_memory_bytes": 8589934592 }
//! ```
//!
//! `arch` accepts a single string or an array of strings and `architectures` is accepted as a
//! long-form spelling of the same key. Blank entries are dropped. Keys other than the three
//! fields are ignored. A malformed field is refused rather than dropped, so a typo cannot
//! quietly widen a pool.
use vstd::prelude::*;

use crate::hardware::{archs_view, parse_arch, ArchModel, CpuArchitecture, RequirementsModel,
    NodeHardwareRequirements};
use crate::json::{JsonNumber, JsonValue};
use crate::text::{
    decimal_seq, push_decimal, push_signed_decimal, push_str, signed_decimal_seq, str_equal, trim_seq,
    trim_to_string,
};

verus! {

/// Why a document could not be decoded.
#[derive(Debug, Clone, Copy, PartialEq, Eq)]
pub enum DecodeErrorKind {
    /// A value of the wrong JSON type.
    InvalidType,
    /// A number out of the field's range.
    InvalidValue,
    /// A positional (array) form with too many elements.
    InvalidLength,
    /// A string naming no known variant.
    UnknownVariant,
    /// The same field given twice.
    DuplicateField,
    /// An `arch` value that is neither a string nor an array of strings.
    NoMatchingVariant,
}

/// A decoding failure: its kind and an operator-facing message.
#[derive(Debug, Clone)]
pub struct JsonDecodeError {
    pub kind: DecodeErrorKind,
    pub message: String,
}

impl JsonDecodeError {
    /// The operator-facing message.
    pub fn to_string(&self) -> (r: String)
        ensures
            r@ == self.message@,
    {
        self.message.clone()
    }
}

/// The message prefix that names an error kind.
pub open spec fn kind_prefix(k: DecodeErrorKind) -> Seq<char> {
    match k {
        DecodeErrorKind::InvalidType => "invalid type: "@,
        DecodeErrorKind::InvalidValue => "invalid value: "@,
        DecodeErrorKind::InvalidLength => "invalid length "@,
        DecodeErrorKind::UnknownVariant => "unknown variant "@,
        DecodeErrorKind::DuplicateField => "duplicate field "@,
        DecodeErrorKind::NoMatchingVariant => "data did not match any variant"@,
    }
}

/// A decoding failure as the specifications see it: its kind and its full message.
pub type DecodeFailure = (DecodeErrorKind, Seq<char>);

impl View for JsonDecodeError {
    type V = DecodeFailure;

    open spec fn view(&self) -> DecodeFailure {
        (self.kind, self.message@)
    }
}

/// A failure of `kind` whose message is the kind's prefix followed by `detail`.
pub open spec fn failure_with(kind: DecodeErrorKind, detail: Seq<char>) -> DecodeFailure {
    (kind, kind_prefix(kind) + detail)
}

/// `v` has the wrong JSON type for a field that expects `expected`.
pub open spec fn invalid_type_failure(v: JsonValue, expected: Seq<char>) -> DecodeFailure {
    (DecodeErrorKind::InvalidType, "invalid type: "@ + value_description(v) + ", expected "@ + expected)
}

/// `v` has the right JSON type but is out of the range of `expected`.
pub open spec fn invalid_value_failure(v: JsonValue, expected: Seq<char>) -> DecodeFailure {
    (DecodeErrorKind::InvalidValue, "invalid value: "@ + value_description(v) + ", expected "@ + expected)
}

/// A positional form of `len` elements where `expected` were allowed.
pub open spec fn invalid_length_failure(len: nat, expected: Seq<char>) -> DecodeFailure {
    (DecodeErrorKind::InvalidLength, "invalid length "@ + decimal_seq(len) + ", expected "@ + expected)
}

/// The field `name` given twice.
pub open spec fn duplicate_failure(name: Seq<char>) -> DecodeFailure {
    failure_with(DecodeErrorKind::DuplicateField, "`"@ + name + "`"@)
}

/// An `arch` value that is neither a string nor an array of strings.
pub open spec fn arch_variant_failure() -> DecodeFailure {
    failure_with(DecodeErrorKind::NoMatchingVariant, " of untagged enum OneOrMany"@)
}

/// How an error message describes a JSON value that has the wrong type: its kind, and for a
/// scalar its value (a float is described by kind alone).
pub open spec fn value_description(v: JsonValue) -> Seq<char> {
    match v {
        JsonValue::Null => "null"@,
        JsonValue::Bool(b) => if b {
            "boolean `true`"@
        } else {
            "boolean `false`"@
        },
        JsonValue::Number(JsonNumber::PosInt(n)) => "integer `"@ + decimal_seq(n as nat) + "`"@,
        JsonValue::Number(JsonNumber::NegInt(n)) => "integer `"@ + signed_decimal_seq(n as int)
            + "`"@,
        JsonValue::Number(JsonNumber::Float(_)) => "floating point number"@,
        JsonValue::String(t) => "string \""@ + t@ + "\""@,
        JsonValue::Array(_) => "sequence"@,
        JsonValue::Object(_) => "map"@,
    }
}

fn push_value_description(s: &mut String, v: &JsonValue)
    ensures
        final(s)@ == old(s)@ + value_description(*v),
{
    let ghost before = s@;
    match v {
        JsonValue::Null => push_str(s, "null"),
        JsonValue::Bool(b) => {
            if *b {
                push_str(s, "boolean `true`");
            } else {
                push_str(s, "boolean `false`");
            }
        },
        JsonValue::Number(JsonNumber::PosInt(n)) => {
            push_str(s, "integer `");
            push_decimal(s, *n);
            push_str(s, "`");
        },
        JsonValue::Number(JsonNumber::NegInt(n)) => {
            push_str(s, "integer `");
            push_signed_decimal(s, *n);
            push_str(s, "`");
        },
        JsonValue::Number(JsonNumber::Float(_)) => push_str(s, "floating point number"),
        JsonValue::String(t) => {
            push_str(s, "string \"");
            push_str(s, t.as_str());
            push_str(s, "\"");
        },
        JsonValue::Array(_) => push_str(s, "sequence"),
        JsonValue::Object(_) => push_str(s, "map"),
    }
    assert(s@ =~= before + value_description(*v));
}

/// An error of `kind`: the kind's prefix followed by `detail`.
pub fn error_with(kind: DecodeErrorKind, detail: &str) -> (e: JsonDecodeError)
    ensures
        e@ == failure_with(kind, detail@),
{
    let mut s = String::new();
    match kind {
        DecodeErrorKind::InvalidType => push_str(&mut s, "invalid type: "),
        DecodeErrorKind::InvalidValue => push_str(&mut s, "invalid value: "),
        DecodeErrorKind::InvalidLength => push_str(&mut s, "invalid length "),
        DecodeErrorKind::UnknownVariant => push_str(&mut s, "unknown variant "),
        DecodeErrorKind::DuplicateField => push_str(&mut s, "duplicate field "),
        DecodeErrorKind::NoMatchingVariant => push_str(&mut s, "data did not match any variant"),
    }
    assert(s@ =~= kind_prefix(kind));
    push_str(&mut s, detail);
    JsonDecodeError { kind, message: s }
}

fn invalid_type(v: &JsonValue, expected: &str) -> (e: JsonDecodeError)
    ensures
        e@ == invalid_type_failure(*v, expected@),
{
    let mut s = String::new();
    push_str(&mut s, "invalid type: ");
    push_value_description(&mut s, v);
    push_str(&mut s, ", expected ");
    push_str(&mut s, expected);
    JsonDecodeError { kind: DecodeErrorKind::InvalidType, message: s }
}

fn invalid_value(v: &JsonValue, expected: &str) -> (e: JsonDecodeError)
    ensures
        e@ == invalid_value_failure(*v, expected@),
{
    let mut s = String::new();
    push_str(&mut s, "invalid value: ");
    push_value_description(&mut s, v);
    push_str(&mut s, ", expected ");
    push_str(&mut s, expected);
    JsonDecodeError { kind: DecodeErrorKind::InvalidValue, message: s }
}

pub(crate) fn invalid_length(len: usize, expected: &str) -> (e: JsonDecodeError)
    ensures
        e@ == invalid_length_failure(len as nat, expected@),
{
    let mut s = String::new();
    push_str(&mut s, "invalid length ");
    push_decimal(&mut s, len as u64);
    push_str(&mut s, ", expected ");
    push_str(&mut s, expected);
    JsonDecodeError { kind: DecodeErrorKind::InvalidLength, message: s }
}

/// An optional `u32` field: absent and `null` read as `None`.
pub open spec fn spec_opt_u32(v: Option<JsonValue>) -> Result<Option<u32>, DecodeFailure> {
    match v {
        None => Ok(None),
        Some(x) => match x {
            JsonValue::Null => Ok(None),
            JsonValue::Number(JsonNumber::PosInt(n)) => if n <= u32::MAX {
                Ok(Some(n as u32))
            } else {
                Err(invalid_value_failure(x, "u32"@))
            },
            JsonValue::Number(JsonNumber::NegInt(_)) => Err(invalid_value_failure(x, "u32"@)),
            _ => Err(invalid_type_failure(x, "u32"@)),
        },
    }
}

/// An optional `u64` field: absent and `null` read as `None`.
pub open spec fn spec_opt_u64(v: Option<JsonValue>) -> Result<Option<u64>, DecodeFailure> {
    match v {
        None => Ok(None),
        Some(x) => match x {
            JsonValue::Null => Ok(None),
            JsonValue::Number(JsonNumber::PosInt(n)) => Ok(Some(n)),
            JsonValue::Number(JsonNumber::NegInt(_)) => Err(invalid_value_failure(x, "u64"@)),
            _ => Err(invalid_type_failure(x, "u64"@)),
        },
    }
}

fn decode_opt_u32(v: &JsonValue) -> (r: Result<Option<u32>, JsonDecodeError>)
    ensures
        match (r, spec_opt_u32(Some(*v))) {
            (Ok(x), Ok(m)) => x == m,
            (Err(e), Err(k)) => e@ == k,
            _ => false,
        },
{
    match v {
        JsonValue::Null => Ok(None),
        JsonValue::Number(JsonNumber::PosInt(n)) => {
            if *n <= 4294967295u64 {
                Ok(Some(*n as u32))
            } else {
                Err(invalid_value(v, "u32"))
            }
        },
        JsonValue::Number(JsonNumber::NegInt(_)) => Err(invalid_value(v, "u32")),
        _ => Err(invalid_type(v, "u32")),
    }
}

fn decode_opt_u64(v: &JsonValue) -> (r: Result<Option<u64>, JsonDecodeError>)
    ensures
        match (r, spec_opt_u64(Some(*v))) {
            (Ok(x), Ok(m)) => x == m,
            (Err(e), Err(k)) => e@ == k,
            _ => false,
        },
{
    match v {
        JsonValue::Null => Ok(None),
        JsonValue::Number(JsonNumber::PosInt(n)) => Ok(Some(*n)),
        JsonValue::Number(JsonNumber::NegInt(_)) => Err(invalid_value(v, "u64")),
        _ => Err(invalid_type(v, "u64")),
    }
}

/// The text of a JSON string element (empty for any other element).
pub open spec fn string_text(v: JsonValue) -> Seq<char> {
    match v {
        JsonValue::String(s) => s@,
        _ => seq![],
    }
}

/// Trim each entry, drop the blank ones, parse the rest.
pub open spec fn clean_arch_list(raw: Seq<Seq<char>>) -> Seq<ArchModel>
    decreases raw.len(),
{
    if raw.len() == 0 {
        seq![]
    } else {
        let rest = clean_arch_list(raw.drop_last());
        if trim_seq(raw.last()).len() > 0 {
            rest.push(parse_arch(trim_seq(raw.last())))
        } else {
            rest
        }
    }
}

/// The `arch` field: `null`, one string, or an array of strings.
pub open spec fn spec_arch_list(v: JsonValue) -> Result<Seq<ArchModel>, DecodeFailure> {
    match v {
        JsonValue::Null => Ok(seq![]),
        JsonValue::String(s) => Ok(clean_arch_list(seq![s@])),
        JsonValue::Array(items) => if forall|i: int|
            0 <= i < items@.len() ==> #[trigger] items@[i] is String {
            Ok(clean_arch_list(items@.map_values(|x: JsonValue| string_text(x))))
        } else {
            Err(arch_variant_failure())
        },
        _ => Err(arch_variant_failure()),
    }
}

fn push_clean_arch(out: &mut Vec<CpuArchitecture>, raw: &str)
    ensures
        archs_view(final(out)@) == (if trim_seq(raw@).len() > 0 {
            archs_view(old(out)@).push(parse_arch(trim_seq(raw@)))
        } else {
            archs_view(old(out)@)
        }),
{
    let t = trim_to_string(raw);
    if t.as_str().unicode_len() > 0 {
        let a = CpuArchitecture::parse(t.as_str());
        let ghost before = out@;
        out.push(a);
        assert(archs_view(out@) =~= archs_view(before).push(a@));
    }
}

fn decode_arch_list(v: &JsonValue) -> (r: Result<Vec<CpuArchitecture>, JsonDecodeError>)
    ensures
        match (r, spec_arch_list(*v)) {
            (Ok(x), Ok(m)) => archs_view(x@) == m,
            (Err(e), Err(k)) => e@ == k,
            _ => false,
        },
{
    match v {
        JsonValue::Null => {
            let out: Vec<CpuArchitecture> = Vec::new();
            assert(archs_view(out@) =~= Seq::<ArchModel>::empty());
            assert(spec_arch_list(*v) == Ok::<Seq<ArchModel>, DecodeFailure>(seq![]));
            Ok(out)
        },
        JsonValue::String(s) => {
            let mut out: Vec<CpuArchitecture> = Vec::new();
            assert(archs_view(out@) =~= Seq::<ArchModel>::empty());
            push_clean_arch(&mut out, s.as_str());
            proof {
                let raw = seq![s@];
                assert(raw.drop_last() =~= Seq::<Seq<char>>::empty());
                assert(clean_arch_list(raw.drop_last()) =~= Seq::<ArchModel>::empty());
                assert(raw.last() == s@);
            }
            Ok(out)
        },
        JsonValue::Array(items) => {
            let mut out: Vec<CpuArchitecture> = Vec::new();
            let ghost texts = items@.map_values(|x: JsonValue| string_text(x));
            assert(archs_view(out@) =~= Seq::<ArchModel>::empty());
            assert(texts.subrange(0, 0) =~= Seq::<Seq<char>>::empty());
            let mut i: usize = 0;
            while i < items.len()
                invariant
                    *v == JsonValue::Array(*items),
                    texts == items@.map_values(|x: JsonValue| string_text(x)),
                    i <= items@.len(),
                    forall|j: int| 0 <= j < i ==> #[trigger] items@[j] is String,
                    archs_view(out@) == clean_arch_list(texts.subrange(0, i as int)),
                decreases items@.len() - i,
            {
                match &items[i] {
                    JsonValue::String(s) => {
                        push_clean_arch(&mut out, s.as_str());
                        proof {
                            let pre = texts.subrange(0, i as int);
                            let post = texts.subrange(0, i + 1);
                            assert(post.drop_last() =~= pre);
                            assert(post.last() == s@);
                        }
                    },
                    _ => {
                        assert(!(items@[i as int] is String));
                        return Err(
                            error_with(
                                DecodeErrorKind::NoMatchingVariant,
                                " of untagged enum OneOrMany",
                            ),
                        );
                    },
                }
                i = i + 1;
            }
            assert(texts.subrange(0, items@.len() as int) =~= texts);
            assert(spec_arch_list(*v) == Ok::<Seq<ArchModel>, DecodeFailure>(clean_arch_list(texts)));
            Ok(out)
        },
        _ => Err(error_with(DecodeErrorKind::NoMatchingVariant, " of untagged enum OneOrMany")),
    }
}

/// Fields seen so far while reading a requirements object.
pub struct RequirementsFields {
    pub arch: Option<Seq<ArchModel>>,
    pub min_cpu_logical: Option<Option<u32>>,
    pub min_memory_bytes: Option<Option<u64>>,
}

/// One member of a requirements object, applied to the fields seen so far.
pub open spec fn requirements_step(acc: RequirementsFields, key: Seq<char>, v: JsonValue) -> Result<
    RequirementsFields,
    DecodeFailure,
> {
    if key == "arch"@ || key == "architectures"@ {
        if acc.arch is Some {
            Err(duplicate_failure("arch"@))
        } else {
            match spec_arch_list(v) {
                Ok(l) => Ok(RequirementsFields { arch: Some(l), ..acc }),
                Err(e) => Err(e),
            }
        }
    } else if key == "min_cpu_logical"@ {
        if acc.min_cpu_logical is Some {
            Err(duplicate_failure("min_cpu_logical"@))
        } else {
            match spec_opt_u32(Some(v)) {
                Ok(n) => Ok(RequirementsFields { min_cpu_logical: Some(n), ..acc }),
                Err(e) => Err(e),
            }
        }
    } else if key == "min_memory_bytes"@ {
        if acc.min_memory_bytes is Some {
            Err(duplicate_failure("min_memory_bytes"@))
        } else {
            match spec_opt_u64(Some(v)) {
                Ok(n) => Ok(RequirementsFields { min_memory_bytes: Some(n), ..acc }),
                Err(e) => Err(e),
            }
        }
    } else {
        Ok(acc)
    }
}

/// Reads the members of a JSON object in order, from `init`, with `step` applied to each key
/// and value; the first failing member's error is the result.
pub open spec fn fold_members<A>(
    members: Seq<(String, JsonValue)>,
    init: A,
    step: spec_fn(A, Seq<char>, JsonValue) -> Result<A, DecodeFailure>,
) -> Result<A, DecodeFailure>
    decreases members.len(),
{
    if members.len() == 0 {
        Ok(init)
    } else {
        match fold_members(members.drop_last(), init, step) {
            Ok(acc) => step(acc, members.last().0@, members.last().1),
            Err(e) => Err(e),
        }
    }
}

/// Once reading a member fails, the whole object fails with that error.
pub proof fn lemma_fold_members_error_sticks<A>(
    members: Seq<(String, JsonValue)>,
    init: A,
    step: spec_fn(A, Seq<char>, JsonValue) -> Result<A, DecodeFailure>,
    k: int,
    e: DecodeFailure,
)
    requires
        0 <= k <= members.len(),
        fold_members(members.subrange(0, k), init, step) == Err::<A, DecodeFailure>(e),
    ensures
        fold_members(members, init, step) == Err::<A, DecodeFailure>(e),
    decreases members.len() - k,
{
    if k < members.len() {
        let post = members.subrange(0, k + 1);
        assert(post.drop_last() =~= members.subrange(0, k));
        lemma_fold_members_error_sticks(members, init, step, k + 1, e);
    } else {
        assert(members.subrange(0, k) =~= members);
    }
}

/// Nothing seen yet.
pub open spec fn requirements_init() -> RequirementsFields {
    RequirementsFields { arch: None, min_cpu_logical: None, min_memory_bytes: None }
}

/// `requirements_step` as a function value.
pub open spec fn requirements_step_fn() -> spec_fn(RequirementsFields, Seq<char>, JsonValue) -> Result<
    RequirementsFields,
    DecodeFailure,
> {
    |acc: RequirementsFields, key: Seq<char>, v: JsonValue| requirements_step(acc, key, v)
}

/// Reads the members of a requirements object in order.
pub open spec fn requirements_fold(members: Seq<(String, JsonValue)>) -> Result<
    RequirementsFields,
    DecodeFailure,
> {
    fold_members(members, requirements_init(), requirements_step_fn())
}

/// Missing fields take their defaults.
pub open spec fn requirements_finish(acc: RequirementsFields) -> RequirementsModel {
    RequirementsModel {
        architectures: match acc.arch {
            Some(l) => l,
            None => seq![],
        },
        min_cpu_logical: match acc.min_cpu_logical {
            Some(n) => n,
            None => None,
        },
        min_memory_bytes: match acc.min_memory_bytes {
            Some(n) => n,
            None => None,
        },
    }
}

/// A requirements document.
pub open spec fn spec_requirements(v: JsonValue) -> Result<RequirementsModel, DecodeFailure> {
    match v {
        JsonValue::Object(m) => match requirements_fold(m@) {
            Ok(acc) => Ok(requirements_finish(acc)),
            Err(e) => Err(e),
        },
        JsonValue::Array(items) => {
            let n = items@.len();
            let arch = if n >= 1 {
                spec_arch_list(items@[0])
            } else {
                Ok(seq![])
            };
            let cpu = if n >= 2 {
                spec_opt_u32(Some(items@[1]))
            } else {
                Ok(None)
            };
            let mem = if n >= 3 {
                spec_opt_u64(Some(items@[2]))
            } else {
                Ok(None)
            };
            match (arch, cpu, mem) {
                (Err(e), _, _) => Err(e),
                (Ok(_), Err(e), _) => Err(e),
                (Ok(_), Ok(_), Err(e)) => Err(e),
                (Ok(a), Ok(c), Ok(m)) => if n > 3 {
                    Err(invalid_length_failure(n, "fewer elements in array"@))
                } else {
                    Ok(RequirementsModel { architectures: a, min_cpu_logical: c, min_memory_bytes: m })
                },
            }
        },
        _ => Err(invalid_type_failure(v, "struct NodeHardwareRequirements"@)),
    }
}

fn duplicate_field(name: &str) -> (e: JsonDecodeError)
    ensures
        e@ == duplicate_failure(name@),
{
    let mut d = String::new();
    push_str(&mut d, "`");
    push_str(&mut d, name);
    push_str(&mut d, "`");
    error_with(DecodeErrorKind::DuplicateField, d.as_str())
}

impl NodeHardwareRequirements {
    /// Decodes a requirements document (see the module documentation for its shape).
    pub fn from_json(v: &JsonValue) -> (r: Result<Self, JsonDecodeError>)
        ensures
            match (r, spec_requirements(*v)) {
                (Ok(x), Ok(m)) => x@ == m,
                (Err(e), Err(k)) => e@ == k,
                _ => false,
            },
    {
        match v {
            JsonValue::Object(members) => {
                let mut arch: Option<Vec<CpuArchitecture>> = None;
                let mut cpu: Option<Option<u32>> = None;
                let mut mem: Option<Option<u64>> = None;
                let mut i: usize = 0;
                while i < members.len()
                    invariant
                        *v == JsonValue::Object(*members),
                        i <= members@.len(),
                        requirements_fold(members@.subrange(0, i as int)) == Ok::<
                            RequirementsFields,
                            DecodeFailure,
                        >(
                            RequirementsFields {
                                arch: match arch {
                                    Some(l) => Some(archs_view(l@)),
                                    None => None,
                                },
                                min_cpu_logical: cpu,
                                min_memory_bytes: mem,
                            },
                        ),
                    decreases members@.len() - i,
                {
                    let key = members[i].0.as_str();
                    let value = &members[i].1;
                    proof {
                        let post = members@.subrange(0, i + 1);
                        assert(post.drop_last() =~= members@.subrange(0, i as int));
                        assert(post.last() == members@[i as int]);
                    }
                    if str_equal(key, "arch") || str_equal(key, "architectures") {
                        if arch.is_some() {
                            proof {
                                lemma_fold_members_error_sticks(
                                    members@,
                                    requirements_init(),
                                    requirements_step_fn(),
                                    i + 1,
                                    duplicate_failure("arch"@),
                                );
                            }
                            return Err(duplicate_field("arch"));
                        }
                        match decode_arch_list(value) {
                            Ok(l) => {
                                arch = Some(l);
                            },
                            Err(e) => {
                                proof {
                                    lemma_fold_members_error_sticks(
                                        members@,
                                        requirements_init(),
                                        requirements_step_fn(),
                                        i + 1,
                                        e@,
                                    );
                                }
                                return Err(e);
                            },
                        }
                    } else if str_equal(key, "min_cpu_logical") {
                        if cpu.is_some() {
                            proof {
                                lemma_fold_members_error_sticks(
                                    members@,
                                    requirements_init(),
                                    requirements_step_fn(),
                                    i + 1,
                                    duplicate_failure("min_cpu_logical"@),
                                );
                            }
                            return Err(duplicate_field("min_cpu_logical"));
                        }
                        match decode_opt_u32(value) {
                            Ok(n) => {
                                cpu = Some(n);
                            },
                            Err(e) => {
                                proof {
                                    lemma_fold_members_error_sticks(
                                        members@,
                                        requirements_init(),
                                        requirements_step_fn(),
                                        i + 1,
                                        e@,
                                    );
                                }
                                return Err(e);
                            },
                        }
                    } else if str_equal(key, "min_memory_bytes") {
                        if mem.is_some() {
                            proof {
                                lemma_fold_members_error_sticks(
                                    members@,
                                    requirements_init(),
                                    requirements_step_fn(),
                                    i + 1,
                                    duplicate_failure("min_memory_bytes"@),
                                );
                            }
                            return Err(duplicate_field("min_memory_bytes"));
                        }
                        match decode_opt_u64(value) {
                            Ok(n) => {
                                mem = Some(n);
                            },
                            Err(e) => {
                                proof {
                                    lemma_fold_members_error_sticks(
                                        members@,
                                        requirements_init(),
                                        requirements_step_fn(),
                                        i + 1,
                                        e@,
                                    );
                                }
                                return Err(e);
                            },
                        }
                    }
                    i = i + 1;
                }
                assert(members@.subrange(0, members@.len() as int) =~= members@);
                let architectures = match arch {
                    Some(l) => l,
                    None => {
                        let e: Vec<CpuArchitecture> = Vec::new();
                        assert(archs_view(e@) =~= Seq::<ArchModel>::empty());
                        e
                    },
                };
                let min_cpu_logical = match cpu {
                    Some(n) => n,
                    None => None,
                };
                let min_memory_bytes = match mem {
                    Some(n) => n,
                    None => None,
                };
                Ok(NodeHardwareRequirements { architectures, min_cpu_logical, min_memory_bytes })
            },
            JsonValue::Array(items) => {
                let n = items.len();
                let architectures = if n >= 1 {
                    match decode_arch_list(&items[0]) {
                        Ok(l) => l,
                        Err(e) => {
                            return Err(e);
                        },
                    }
                } else {
                    let e: Vec<CpuArchitecture> = Vec::new();
                    assert(archs_view(e@) =~= Seq::<ArchModel>::empty());
                    e
                };
                let min_cpu_logical = if n >= 2 {
                    match decode_opt_u32(&items[1]) {
                        Ok(x) => x,
                        Err(e) => {
                            return Err(e);
                        },
                    }
                } else {
                    None
                };
                let min_memory_bytes = if n >= 3 {
                    match decode_opt_u64(&items[2]) {
                        Ok(x) => x,
                        Err(e) => {
                            return Err(e);
                        },
                    }
                } else {
                    None
                };
                if n > 3 {
                    return Err(invalid_length(n, "fewer elements in array"));
                }
                Ok(NodeHardwareRequirements { architectures, min_cpu_logical, min_memory_bytes })
            },
            _ => Err(invalid_type(v, "struct NodeHardwareRequirements")),
        }
    }
}

/// `v` is the JSON of the floor `r`: an object holding, in order, `arch` (the wire values, when
/// any architecture is listed), `min_cpu_logical` and `min_memory_bytes` (when set).
pub open spec fn requirements_json_ok(v: JsonValue, r: RequirementsModel) -> bool {
    match v {
        JsonValue::Object(m) => {
            let a: int = if r.architectures.len() > 0 { 1 } else { 0 };
            let c: int = if r.min_cpu_logical is Some { 1 } else { 0 };
            let k: int = if r.min_memory_bytes is Some { 1 } else { 0 };
            &&& m@.len() == a + c + k
            &&& a == 1 ==> m@[0].0@ == "arch"@ && match m@[0].1 {
                JsonValue::Array(items) => items@.len() == r.architectures.len() && forall|i: int|
                    0 <= i < items@.len() ==> #[trigger] items@[i] is String && string_text(
                        items@[i],
                    ) == crate::hardware::arch_wire(r.architectures[i]),
                _ => false,
            }
            &&& c == 1 ==> m@[a].0@ == "min_cpu_logical"@ && m@[a].1 == JsonValue::Number(
                JsonNumber::PosInt(r.min_cpu_logical->0 as u64),
            )
            &&& k == 1 ==> m@[a + c].0@ == "min_memory_bytes"@ && m@[a + c].1 == JsonValue::Number(
                JsonNumber::PosInt(r.min_memory_bytes->0),
            )
        },
        _ => false,
    }
}

impl NodeHardwareRequirements {
    /// The JSON of this floor (see [`requirements_json_ok`]); an unconstrained floor is `{}`.
    pub fn to_json(&self) -> (r: JsonValue)
        ensures
            requirements_json_ok(r, self@),
    {
        let mut m: Vec<(String, JsonValue)> = Vec::new();
        if self.architectures.len() > 0 {
            let mut items: Vec<JsonValue> = Vec::new();
            let mut i: usize = 0;
            while i < self.architectures.len()
                invariant
                    i <= self.architectures@.len(),
                    items@.len() == i,
                    forall|j: int|
                        0 <= j < i ==> #[trigger] items@[j] is String && string_text(items@[j])
                            == crate::hardware::arch_wire(self.architectures@[j]@),
                decreases self.architectures@.len() - i,
            {
                items.push(JsonValue::String(self.architectures[i].to_wire_string()));
                i = i + 1;
            }
            m.push(("arch".to_owned(), JsonValue::Array(items)));
        }
        if let Some(n) = self.min_cpu_logical {
            m.push(("min_cpu_logical".to_owned(), JsonValue::Number(JsonNumber::PosInt(n as u64))));
        }
        if let Some(n) = self.min_memory_bytes {
            m.push(("min_memory_bytes".to_owned(), JsonValue::Number(JsonNumber::PosInt(n))));
        }
        JsonValue::Object(m)
    }
}

/// An architecture whose wire value reads back as itself (every parsed architecture is one).
pub open spec fn arch_canonical(a: ArchModel) -> bool {
    trim_seq(crate::hardware::arch_wire(a)).len() > 0 && parse_arch(
        trim_seq(crate::hardware::arch_wire(a)),
    ) == a
}

proof fn lemma_clean_wires(archs: Seq<ArchModel>, texts: Seq<Seq<char>>)
    requires
        texts.len() == archs.len(),
        forall|i: int| 0 <= i < archs.len() ==> arch_canonical(#[trigger] archs[i]),
        forall|i: int| 0 <= i < archs.len() ==> texts[i] == crate::hardware::arch_wire(#[trigger] archs[i]),
    ensures
        clean_arch_list(texts) == archs,
    decreases archs.len(),
{
    if archs.len() > 0 {
        let n = archs.len() - 1;
        assert(arch_canonical(archs[n]));
        lemma_clean_wires(archs.drop_last(), texts.drop_last());
        assert(archs.drop_last().push(archs[n]) =~= archs);
    }
}

/// Reading back the JSON of a floor gives the floor, when its architectures are canonical.
pub proof fn lemma_requirements_json_roundtrip(v: JsonValue, r: RequirementsModel)
    requires
        requirements_json_ok(v, r),
        forall|i: int| 0 <= i < r.architectures.len() ==> arch_canonical(#[trigger] r.architectures[i]),
    ensures
        spec_requirements(v) == Ok::<RequirementsModel, DecodeFailure>(r),
{
    reveal_strlit("arch");
    reveal_strlit("architectures");
    reveal_strlit("min_cpu_logical");
    reveal_strlit("min_memory_bytes");
    assert("arch"@.len() == 4 && "architectures"@.len() == 13 && "min_cpu_logical"@.len() == 15
        && "min_memory_bytes"@.len() == 16);
    match v {
        JsonValue::Object(m) => {
            let ms = m@;
            let a: int = if r.architectures.len() > 0 { 1 } else { 0 };
            let c: int = if r.min_cpu_logical is Some { 1 } else { 0 };
            let k: int = if r.min_memory_bytes is Some { 1 } else { 0 };
            let empty = RequirementsFields { arch: None, min_cpu_logical: None, min_memory_bytes: None };
            assert(requirements_fold(ms.subrange(0, 0)) == Ok::<RequirementsFields, DecodeFailure>(empty));
            let f1 = if a == 1 {
                RequirementsFields { arch: Some(r.architectures), ..empty }
            } else {
                empty
            };
            if a == 1 {
                match ms[0].1 {
                    JsonValue::Array(items) => {
                        let texts = items@.map_values(|x: JsonValue| string_text(x));
                        lemma_clean_wires(r.architectures, texts);
                        assert(spec_arch_list(ms[0].1) == Ok::<Seq<ArchModel>, DecodeFailure>(r.architectures));
                    },
                    _ => {},
                }
                let p = ms.subrange(0, 1);
                assert(p.drop_last() =~= ms.subrange(0, 0));
                assert(requirements_fold(p) == Ok::<RequirementsFields, DecodeFailure>(f1));
            }
            assert(requirements_fold(ms.subrange(0, a)) == Ok::<RequirementsFields, DecodeFailure>(f1));
            let f2 = if c == 1 {
                RequirementsFields { min_cpu_logical: Some(r.min_cpu_logical), ..f1 }
            } else {
                f1
            };
            if c == 1 {
                let p = ms.subrange(0, a + 1);
                assert(p.drop_last() =~= ms.subrange(0, a));
                assert(p.last() == ms[a]);
                assert(requirements_fold(p) == Ok::<RequirementsFields, DecodeFailure>(f2));
            }
            assert(requirements_fold(ms.subrange(0, a + c)) == Ok::<RequirementsFields, DecodeFailure>(f2));
            let f3 = if k == 1 {
                RequirementsFields { min_memory_bytes: Some(r.min_memory_bytes), ..f2 }
            } else {
                f2
            };
            if k == 1 {
                let p = ms.subrange(0, a + c + 1);
                assert(p.drop_last() =~= ms.subrange(0, a + c));
                assert(p.last() == ms[a + c]);
                assert(requirements_fold(p) == Ok::<RequirementsFields, DecodeFailure>(f3));
            }
            assert(ms.subrange(0, a + c + k) =~= ms);
            if a == 0 {
                assert(r.architectures =~= Seq::<ArchModel>::empty());
            }
            assert(requirements_finish(f3) == r);
        },
        _ => {},
    }
}

proof fn lemma_clean_list_canonical(raw: Seq<Seq<char>>)
    ensures
        forall|i: int|
            0 <= i < clean_arch_list(raw).len() ==> arch_canonical(#[trigger] clean_arch_list(raw)[i]),
    decreases raw.len(),
{
    if raw.len() > 0 {
        lemma_clean_list_canonical(raw.drop_last());
        let t = trim_seq(raw.last());
        if t.len() > 0 {
            crate::hardware::lemma_trim_idempotent(raw.last());
            crate::hardware::lemma_parsed_arch_canonical(t);
            let a = parse_arch(t);
            let rest = clean_arch_list(raw.drop_last());
            assert forall|i: int| 0 <= i < rest.push(a).len() implies arch_canonical(#[trigger] rest.push(a)[i]) by {
                if i < rest.len() {
                    assert(rest.push(a)[i] == rest[i]);
                }
            }
        }
    }
}

proof fn lemma_arch_list_canonical(v: JsonValue)
    ensures
        spec_arch_list(v) matches Ok(l) ==> forall|i: int| 0 <= i < l.len() ==> arch_canonical(#[trigger] l[i]),
{
    match v {
        JsonValue::String(s) => lemma_clean_list_canonical(seq![s@]),
        JsonValue::Array(items) => lemma_clean_list_canonical(items@.map_values(|x: JsonValue| string_text(x))),
        _ => {},
    }
}

proof fn lemma_fold_canonical(members: Seq<(String, JsonValue)>)
    ensures
        requirements_fold(members) matches Ok(acc) ==> (acc.arch matches Some(l) ==> forall|i: int|
            0 <= i < l.len() ==> arch_canonical(#[trigger] l[i])),
    decreases members.len(),
{
    if members.len() > 0 {
        lemma_fold_canonical(members.drop_last());
        lemma_arch_list_canonical(members.last().1);
    }
}

/// A decoded floor written back as JSON reads back as itself.
pub proof fn lemma_decoded_requirements_roundtrip(v: JsonValue, r: RequirementsModel, w: JsonValue)
    requires
        spec_requirements(v) == Ok::<RequirementsModel, DecodeFailure>(r),
        requirements_json_ok(w, r),
    ensures
        spec_requirements(w) == Ok::<RequirementsModel, DecodeFailure>(r),
{
    match v {
        JsonValue::Object(m) => {
            lemma_fold_canonical(m@);
        },
        JsonValue::Array(items) => {
            if items@.len() >= 1 {
                lemma_arch_list_canonical(items@[0]);
            }
        },
        _ => {},
    }
    lemma_requirements_json_roundtrip(w, r);
}

} // verus!
