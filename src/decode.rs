use vstd::prelude::*;

use crate::json::{Json, JsonView};

verus! {

/// Why a document does not decode into a record.
#[derive(Debug, PartialEq, Eq)]
pub enum DecodeError {
    /// The body is not one JSON text.
    Syntax,
    /// A value, or an item of a list, has the wrong JSON type for the place
    /// it stands in, as a body that is not an object; the member that holds
    /// it is not known at that level.
    Mismatch,
    /// A required member is absent; it carries the member's name.
    Missing(String),
    /// A member's value has the wrong shape; it carries the member's name.
    Invalid(String),
}

/// A record that is decoded from a JSON document.
pub trait Record: Sized {
    /// The documents that decode into a record of this type.
    spec fn accepts(j: JsonView) -> bool;

    /// This record holds exactly what `j` says.
    spec fn describes(&self, j: JsonView) -> bool;

    /// The documents that this type turns away as a whole, with `Mismatch`,
    /// rather than by naming a member of theirs.
    spec fn mismatch(j: JsonView) -> bool;

    fn from_json(j: &Json) -> (r: Result<Self, DecodeError>)
        ensures
            r is Ok <==> Self::accepts(j@),
            r matches Ok(x) ==> x.describes(j@),
            r matches Err(e) ==> !(e is Syntax),
            r matches Err(e) ==> (e is Mismatch <==> Self::mismatch(j@)),
    ;
}

/// `j` has a member `key` that decodes as a `T`.
pub open spec fn has<T: Record>(j: JsonView, key: Seq<char>) -> bool {
    match j.field(key) {
        Some(v) => T::accepts(v),
        None => false,
    }
}

/// `x` holds exactly what the member `key` of `j` says.
pub open spec fn holds<T: Record>(j: JsonView, key: Seq<char>, x: T) -> bool {
    match j.field(key) {
        Some(v) => x.describes(v),
        None => false,
    }
}

/// The member `key` of `j` is absent, `null`, or decodes as a `T`.
pub open spec fn may_have<T: Record>(j: JsonView, key: Seq<char>) -> bool {
    j.lacks(key) || has::<T>(j, key)
}

/// `x` is `None` where the member `key` of `j` is absent or `null`, and
/// otherwise holds exactly what it says.
pub open spec fn may_hold<T: Record>(j: JsonView, key: Seq<char>, x: Option<T>) -> bool {
    match x {
        None => j.lacks(key),
        Some(y) => !j.lacks(key) && holds(j, key, y),
    }
}

/// `e` is the error for the member `key` of `j`: `Missing(key)` where it is
/// absent, `Invalid(key)` where `T` turns its value away as a whole, and
/// otherwise the error that names the member inside it at fault.
pub open spec fn member_error<T: Record>(e: DecodeError, j: JsonView, key: Seq<char>) -> bool {
    match j.field(key) {
        None => e matches DecodeError::Missing(name) && name@ == key,
        Some(v) => if T::mismatch(v) {
            e matches DecodeError::Invalid(name) && name@ == key
        } else {
            e is Missing || e is Invalid
        },
    }
}

/// Decodes the required member `key` of `j`.
pub fn required<T: Record>(j: &Json, key: &str) -> (r: Result<T, DecodeError>)
    ensures
        r is Ok <==> has::<T>(j@, key@),
        r matches Ok(x) ==> holds(j@, key@, x),
        r matches Err(e) ==> member_error::<T>(e, j@, key@),
{
    match j.get(key) {
        None => Err(DecodeError::Missing(key.to_owned())),
        Some(v) => match T::from_json(v) {
            Ok(x) => Ok(x),
            Err(DecodeError::Mismatch) => Err(DecodeError::Invalid(key.to_owned())),
            Err(e) => Err(e),
        },
    }
}

/// Decodes the member `key` of `j`, which may be absent or `null`.
pub fn optional<T: Record>(j: &Json, key: &str) -> (r: Result<Option<T>, DecodeError>)
    ensures
        r is Ok <==> may_have::<T>(j@, key@),
        r matches Ok(x) ==> may_hold(j@, key@, x),
        r matches Err(e) ==> member_error::<T>(e, j@, key@),
{
    match j.get(key) {
        None => Ok(None),
        Some(Json::Null) => Ok(None),
        Some(v) => match T::from_json(v) {
            Ok(x) => Ok(Some(x)),
            Err(DecodeError::Mismatch) => Err(DecodeError::Invalid(key.to_owned())),
            Err(e) => Err(e),
        },
    }
}

impl Record for String {
    open spec fn accepts(j: JsonView) -> bool {
        j is Str
    }

    open spec fn describes(&self, j: JsonView) -> bool {
        j == JsonView::Str(self@)
    }

    open spec fn mismatch(j: JsonView) -> bool {
        !(j is Str)
    }

    fn from_json(j: &Json) -> (r: Result<String, DecodeError>) {
        match j {
            Json::Str(s) => Ok(s.clone()),
            _ => Err(DecodeError::Mismatch),
        }
    }
}

impl Record for i64 {
    open spec fn accepts(j: JsonView) -> bool {
        j is Int
    }

    open spec fn describes(&self, j: JsonView) -> bool {
        j == JsonView::Int(*self)
    }

    open spec fn mismatch(j: JsonView) -> bool {
        !(j is Int)
    }

    fn from_json(j: &Json) -> (r: Result<i64, DecodeError>) {
        match j {
            Json::Int(n) => Ok(*n),
            _ => Err(DecodeError::Mismatch),
        }
    }
}

impl Record for bool {
    open spec fn accepts(j: JsonView) -> bool {
        j is Bool
    }

    open spec fn describes(&self, j: JsonView) -> bool {
        j == JsonView::Bool(*self)
    }

    open spec fn mismatch(j: JsonView) -> bool {
        !(j is Bool)
    }

    fn from_json(j: &Json) -> (r: Result<bool, DecodeError>) {
        match j {
            Json::Bool(b) => Ok(*b),
            _ => Err(DecodeError::Mismatch),
        }
    }
}

/// A free-form JSON object, kept as it came.
impl Record for Json {
    open spec fn accepts(j: JsonView) -> bool {
        j is Object
    }

    open spec fn describes(&self, j: JsonView) -> bool {
        self@ == j
    }

    open spec fn mismatch(j: JsonView) -> bool {
        !(j is Object)
    }

    fn from_json(j: &Json) -> (r: Result<Json, DecodeError>) {
        match j {
            Json::Object(_) => Ok(j.copy()),
            _ => Err(DecodeError::Mismatch),
        }
    }
}

impl<T: Record> Record for Vec<T> {
    open spec fn accepts(j: JsonView) -> bool {
        match j {
            JsonView::Array(items) => forall|i: int| 0 <= i < items.len() ==> T::accepts(#[trigger] items[i]),
            _ => false,
        }
    }

    open spec fn describes(&self, j: JsonView) -> bool {
        match j {
            JsonView::Array(items) => self@.len() == items.len() && forall|i: int|
                0 <= i < items.len() ==> (#[trigger] self@[i]).describes(items[i]),
            _ => false,
        }
    }

    /// A list is turned away as a whole, whichever of its items is at fault.
    open spec fn mismatch(j: JsonView) -> bool {
        !Self::accepts(j)
    }

    fn from_json(j: &Json) -> (r: Result<Vec<T>, DecodeError>) {
        match j {
            Json::Array(items) => {
                let ghost vs = j@->Array_0;
                let mut out: Vec<T> = Vec::new();
                let mut i: usize = 0;
                while i < items.len()
                    invariant
                        i <= items@.len(),
                        *j == Json::Array(*items),
                        vs == j@->Array_0,
                        vs.len() == items@.len(),
                        forall|k: int| 0 <= k < items@.len() ==> #[trigger] vs[k] == items@[k]@,
                        out@.len() == i,
                        forall|k: int| 0 <= k < i ==> T::accepts(#[trigger] vs[k]),
                        forall|k: int| 0 <= k < i ==> (#[trigger] out@[k]).describes(vs[k]),
                    decreases items@.len() - i,
                {
                    match T::from_json(&items[i]) {
                        Ok(x) => out.push(x),
                        Err(_) => {
                            assert(vs[i as int] == items@[i as int]@);
                            return Err(DecodeError::Mismatch);
                        },
                    }
                    i = i + 1;
                }
                Ok(out)
            },
            _ => Err(DecodeError::Mismatch),
        }
    }
}

} // verus!
