//! The dynamically-typed value graph handed over by the document engine,
//! and the single choke point through which every field of every node is
//! read: extraction of a scalar with default-on-absence semantics.

use vstd::prelude::*;
use vstd::string::StringExecFns;
use crate::error::{UnlatexError, UnlatexErrorV, rv};

verus! {

/// A dynamically-typed value, as handed over by the document engine.
///
/// Absent fields and null/undefined values are both modelled as `Null`.
/// `Float` carries, as its lexeme, a number this layer has no integral
/// reading for (a fraction, an exponent, or more than eighteen digits): it
/// is transported untouched, and only reading it as a field value is a
/// conversion error.
#[derive(Debug)]
pub enum Dyn {
    Null,
    Bool(bool),
    Int(i64),
    Float(String),
    Str(String),
    Arr(Vec<Dyn>),
    Obj(Vec<(String, Dyn)>),
}

/// The mathematical model of a [`Dyn`] value.
pub enum DynV {
    Null,
    Bool(bool),
    Int(int),
    Float(Seq<char>),
    Str(Seq<char>),
    Arr(Seq<DynV>),
    Obj(Seq<(Seq<char>, DynV)>),
}

impl View for Dyn {
    type V = DynV;

    open spec fn view(&self) -> DynV
        decreases self,
    {
        match self {
            Dyn::Null => DynV::Null,
            Dyn::Bool(b) => DynV::Bool(*b),
            Dyn::Int(i) => DynV::Int(*i as int),
            Dyn::Float(s) => DynV::Float(s@),
            Dyn::Str(s) => DynV::Str(s@),
            Dyn::Arr(xs) => DynV::Arr(seq_view(xs@)),
            Dyn::Obj(fs) => DynV::Obj(fields_view(fs@)),
        }
    }
}

/// The models of the elements of an array value.
pub open spec fn seq_view(xs: Seq<Dyn>) -> Seq<DynV>
    decreases xs,
{
    Seq::new(
        xs.len(),
        |i: int|
            if 0 <= i < xs.len() {
                xs[i]@
            } else {
                DynV::Null
            },
    )
}

/// The models of the fields of an object value.
pub open spec fn fields_view(fs: Seq<(String, Dyn)>) -> Seq<(Seq<char>, DynV)>
    decreases fs,
{
    Seq::new(
        fs.len(),
        |i: int|
            if 0 <= i < fs.len() {
                (fs[i].0@, fs[i].1@)
            } else {
                (Seq::empty(), DynV::Null)
            },
    )
}

/// The index of the first field named `k`, or the length of the field list
/// when no field is so named.
pub open spec fn key_index(fs: Seq<(Seq<char>, DynV)>, k: Seq<char>) -> nat
    decreases fs.len(),
{
    if fs.len() == 0 {
        0
    } else if fs[0].0 == k {
        0
    } else {
        1 + key_index(fs.drop_first(), k)
    }
}

/// The value of the field named `k`, if the object has one.
pub open spec fn fld(fs: Seq<(Seq<char>, DynV)>, k: Seq<char>) -> Option<DynV> {
    let i = key_index(fs, k);
    if i < fs.len() {
        Some(fs[i as int].1)
    } else {
        None
    }
}

/// `key_index` points at the first field named `k`; when the first `j`
/// fields are named otherwise and field `j` is named `k`, it is `j`, and
/// when no field is named `k` it is the length of the field list.
pub proof fn lemma_key_index(fs: Seq<(Seq<char>, DynV)>, k: Seq<char>, j: int)
    requires
        0 <= j <= fs.len(),
        forall|t: int| 0 <= t < j ==> #[trigger] fs[t].0 != k,
        j < fs.len() ==> fs[j].0 == k,
    ensures
        j < fs.len() ==> key_index(fs, k) == j,
        j == fs.len() ==> key_index(fs, k) == fs.len(),
    decreases fs.len(),
{
    if fs.len() == 0 {
    } else if fs[0].0 == k {
        assert(j == 0);
    } else {
        assert(fs[0].0 != k);
        assert(j >= 1) by {
            if j == 0 {
                assert(fs[0].0 == k);
            }
        }
        let rest = fs.drop_first();
        assert(forall|t: int| 0 <= t < j - 1 ==> #[trigger] rest[t].0 != k) by {
            assert(forall|t: int| 0 <= t < j - 1 ==> rest[t] == #[trigger] fs[t + 1]);
        }
        lemma_key_index(rest, k, j - 1);
    }
}

/// The name of a dynamic value's kind, as reported in conversion errors.
pub open spec fn kind_name(d: DynV) -> Seq<char> {
    match d {
        DynV::Null => "null"@,
        DynV::Bool(_) => "bool"@,
        DynV::Int(_) => "int"@,
        DynV::Float(_) => "float"@,
        DynV::Str(_) => "string"@,
        DynV::Arr(_) => "array"@,
        DynV::Obj(_) => "object"@,
    }
}

/// The error reported when a value of kind `d` stood where a `to` was needed.
pub open spec fn conv_err(d: DynV, to: Seq<char>) -> UnlatexErrorV {
    UnlatexErrorV::FromJs { from: kind_name(d), to: to, message: None }
}

/// A boolean field: absent or null is `false`.
pub open spec fn bool_of(d: DynV) -> Result<bool, UnlatexErrorV> {
    match d {
        DynV::Null => Ok(false),
        DynV::Bool(b) => Ok(b),
        _ => Err(conv_err(d, "bool"@)),
    }
}

/// An unsigned integer field: absent or null is `0`; a negative or oversized
/// number does not convert.
pub open spec fn usize_of(d: DynV) -> Result<usize, UnlatexErrorV> {
    match d {
        DynV::Null => Ok(0),
        DynV::Int(i) => if 0 <= i <= usize::MAX {
            Ok(i as usize)
        } else {
            Err(conv_err(d, "int"@))
        },
        _ => Err(conv_err(d, "int"@)),
    }
}

/// A string field: absent or null is the empty string.
pub open spec fn string_of(d: DynV) -> Result<Seq<char>, UnlatexErrorV> {
    match d {
        DynV::Null => Ok(Seq::empty()),
        DynV::Str(s) => Ok(s),
        _ => Err(conv_err(d, "string"@)),
    }
}

/// An optional string field: absent or null is `None`.
pub open spec fn opt_string_of(d: DynV) -> Result<Option<Seq<char>>, UnlatexErrorV> {
    match d {
        DynV::Null => Ok(None),
        DynV::Str(s) => Ok(Some(s)),
        _ => Err(conv_err(d, "string"@)),
    }
}

pub open spec fn get_bool_v(fs: Seq<(Seq<char>, DynV)>, k: Seq<char>) -> Result<bool, UnlatexErrorV> {
    match fld(fs, k) {
        None => Ok(false),
        Some(d) => bool_of(d),
    }
}

pub open spec fn get_usize_v(fs: Seq<(Seq<char>, DynV)>, k: Seq<char>) -> Result<usize, UnlatexErrorV> {
    match fld(fs, k) {
        None => Ok(0),
        Some(d) => usize_of(d),
    }
}

pub open spec fn get_string_v(fs: Seq<(Seq<char>, DynV)>, k: Seq<char>) -> Result<
    Seq<char>,
    UnlatexErrorV,
> {
    match fld(fs, k) {
        None => Ok(Seq::empty()),
        Some(d) => string_of(d),
    }
}

pub open spec fn get_opt_string_v(fs: Seq<(Seq<char>, DynV)>, k: Seq<char>) -> Result<
    Option<Seq<char>>,
    UnlatexErrorV,
> {
    match fld(fs, k) {
        None => Ok(None),
        Some(d) => opt_string_of(d),
    }
}

/// Law: absence of a field is not distinguished from an explicit null.
/// Every scalar field type yields its default in both cases, never an error.
pub proof fn lemma_default_on_absence(fs: Seq<(Seq<char>, DynV)>, k: Seq<char>)
    requires
        fld(fs, k) == Option::<DynV>::None || fld(fs, k) == Some(DynV::Null),
    ensures
        get_bool_v(fs, k) == Ok::<bool, UnlatexErrorV>(false),
        get_usize_v(fs, k) == Ok::<usize, UnlatexErrorV>(0),
        get_string_v(fs, k) == Ok::<Seq<char>, UnlatexErrorV>(Seq::<char>::empty()),
        get_opt_string_v(fs, k) == Ok::<Option<Seq<char>>, UnlatexErrorV>(None),
{
}

/// The first field named `key`, if the object has one.
pub fn find_field<'a>(fs: &'a Vec<(String, Dyn)>, key: &String) -> (r: Option<&'a Dyn>)
    ensures
        ({
            let fv = fields_view(fs@);
            let i = key_index(fv, key@);
            match r {
                Some(d) => i < fv.len() && d@ == fv[i as int].1,
                None => i == fv.len(),
            }
        }),
{
    let ghost fv = fields_view(fs@);
    let mut j: usize = 0;
    while j < fs.len()
        invariant
            j <= fs.len(),
            fv == fields_view(fs@),
            forall|t: int| 0 <= t < j ==> #[trigger] fv[t].0 != key@,
        decreases fs.len() - j,
    {
        if fs[j].0 == *key {
            proof {
                lemma_key_index(fv, key@, j as int);
            }
            return Some(&fs[j].1);
        }
        j += 1;
    }
    proof {
        lemma_key_index(fv, key@, fs@.len() as int);
    }
    None
}

/// The name of a dynamic value's kind, for error reports.
pub fn kind_name_of(d: &Dyn) -> (r: String)
    ensures
        r@ == kind_name(d@),
{
    match d {
        Dyn::Null => String::from_str("null"),
        Dyn::Bool(_) => String::from_str("bool"),
        Dyn::Int(_) => String::from_str("int"),
        Dyn::Float(_) => String::from_str("float"),
        Dyn::Str(_) => String::from_str("string"),
        Dyn::Arr(_) => String::from_str("array"),
        Dyn::Obj(_) => String::from_str("object"),
    }
}

/// The conversion error for a value of `d`'s kind standing where a `to` was
/// needed.
pub fn conv_error(d: &Dyn, to: &str) -> (r: UnlatexError)
    ensures
        r@ == conv_err(d@, to@),
{
    UnlatexError::FromJs { from: kind_name_of(d), to: String::from_str(to), message: None }
}

/// Read a boolean field of an object.
pub fn get_bool(fs: &Vec<(String, Dyn)>, key: &String) -> (r: Result<bool, UnlatexError>)
    ensures
        rv(r) == get_bool_v(fields_view(fs@), key@),
{
    match find_field(fs, key) {
        None => Ok(false),
        Some(d) => match d {
            Dyn::Null => Ok(false),
            Dyn::Bool(b) => Ok(*b),
            _ => Err(conv_error(d, "bool")),
        },
    }
}

/// Read an unsigned integer field of an object.
pub fn get_usize(fs: &Vec<(String, Dyn)>, key: &String) -> (r: Result<usize, UnlatexError>)
    ensures
        rv(r) == get_usize_v(fields_view(fs@), key@),
{
    match find_field(fs, key) {
        None => Ok(0),
        Some(d) => match d {
            Dyn::Null => Ok(0),
            Dyn::Int(i) => {
                if *i >= 0 && *i as u128 <= usize::MAX as u128 {
                    Ok(*i as usize)
                } else {
                    Err(conv_error(d, "int"))
                }
            },
            _ => Err(conv_error(d, "int")),
        },
    }
}

/// Read a string field of an object.
pub fn get_string(fs: &Vec<(String, Dyn)>, key: &String) -> (r: Result<String, UnlatexError>)
    ensures
        rv(r) == get_string_v(fields_view(fs@), key@),
{
    match find_field(fs, key) {
        None => Ok(String::new()),
        Some(d) => match d {
            Dyn::Null => Ok(String::new()),
            Dyn::Str(s) => Ok(s.clone()),
            _ => Err(conv_error(d, "string")),
        },
    }
}

/// Read an optional string field of an object.
pub fn get_opt_string(fs: &Vec<(String, Dyn)>, key: &String) -> (r: Result<Option<String>, UnlatexError>)
    ensures
        ({
            let s = get_opt_string_v(fields_view(fs@), key@);
            match r {
                Ok(None) => s == Ok::<Option<Seq<char>>, UnlatexErrorV>(None),
                Ok(Some(x)) => s == Ok::<Option<Seq<char>>, UnlatexErrorV>(Some(x@)),
                Err(e) => s == Err::<Option<Seq<char>>, UnlatexErrorV>(e@),
            }
        }),
{
    match find_field(fs, key) {
        None => Ok(None),
        Some(d) => match d {
            Dyn::Null => Ok(None),
            Dyn::Str(s) => Ok(Some(s.clone())),
            _ => Err(conv_error(d, "string")),
        },
    }
}


/// Relies on String::push: appends one character to the string.
#[verifier::external_body]
pub(crate) fn push_char(s: &mut String, c: char)
    ensures
        final(s)@ == old(s)@.push(c),
{
    s.push(c)
}

} // verus!
