//! Decoding of the query string of an addition request.
//!
//! A query string is first split into its key/value pairs. The caller reads
//! each value as a number, and the pairs are then walked in order: the keys
//! `x` and `y` must each occur exactly once, with a value that is a number;
//! every other key is ignored.

use vstd::prelude::*;
use crate::number::Real;
use crate::text::same_text;

verus! {

/// One of the two operands of an addition.
#[derive(Clone, Copy, Debug, PartialEq, Eq, Structural)]
pub enum Name {
    X,
    Y,
}

/// Why a query string does not describe an addition.
#[derive(Clone, Copy, Debug, PartialEq, Eq, Structural)]
pub enum DecodeError {
    /// The query string could not be split into pairs.
    Malformed,
    /// The operand does not occur.
    Missing(Name),
    /// The operand occurs a second time.
    Duplicate(Name),
    /// The first occurrence of the operand has a value that is no number.
    NotANumber(Name),
}

/// One pair of a query string: its key, and its value read as a number
/// (`None` where the value is not the text of a number).
#[derive(Clone, Debug, PartialEq, Eq)]
pub struct Field {
    pub key: String,
    pub number: Option<Real>,
}

/// The operands of one addition request.
#[derive(Clone, Copy, Debug, PartialEq, Eq, Structural)]
pub struct AddRequest {
    pub x: Real,
    pub y: Real,
}

/// The error of `serde_urlencoded`. Nothing is read from it.
#[verifier::external_type_specification]
#[verifier::external_body]
pub struct ExFormError(serde_urlencoded::de::Error);

/// The key/value pairs that a query string in the form
/// `application/x-www-form-urlencoded` holds, in the order in which they
/// stand, with escapes undone; `None` for a text that is refused.
pub uninterp spec fn form_pairs(query: Seq<char>) -> Option<Seq<(Seq<char>, Seq<char>)>>;

/// Calls `serde_urlencoded::from_str` for a vector of pairs of strings.
///
/// Not proved: that what comes back depends on the characters of `query`
/// alone. The pairs, or the refusal, are what `form_pairs` names; nothing is
/// claimed of which texts are refused or of what the pairs hold.
#[verifier::external_body]
fn parse_form(query: &str) -> (r: Result<Vec<(String, String)>, serde_urlencoded::de::Error>)
    ensures
        match r {
            Ok(pairs) => form_pairs(query@) == Some(pairs.deep_view()),
            Err(_) => form_pairs(query@) is None,
        },
{
    serde_urlencoded::from_str::<Vec<(String, String)>>(query)
}

/// Splits a query string into its key/value pairs.
pub fn split_query(query: &str) -> (r: Result<Vec<(String, String)>, DecodeError>)
    ensures
        match r {
            Ok(pairs) => form_pairs(query@) == Some(pairs.deep_view()),
            Err(e) => form_pairs(query@) is None && e == DecodeError::Malformed,
        },
{
    match parse_form(query) {
        Ok(pairs) => Ok(pairs),
        Err(_) => Err(DecodeError::Malformed),
    }
}

/// The operand that a key stands for, if any.
pub open spec fn name_of(key: Seq<char>) -> Option<Name> {
    if key == seq!['x'] {
        Some(Name::X)
    } else if key == seq!['y'] {
        Some(Name::Y)
    } else {
        None
    }
}

/// Field `i` exists and carries operand `name`.
pub open spec fn named(fields: Seq<Field>, i: int, name: Name) -> bool {
    0 <= i < fields.len() && name_of(fields[i].key@) == Some(name)
}

/// Some field before `i` carries operand `name`.
pub open spec fn seen_before(fields: Seq<Field>, i: int, name: Name) -> bool {
    exists|j: int| 0 <= j < i && named(fields, j, name)
}

/// What is wrong with field `i` given the fields before it: it repeats an
/// operand, or it is the first to carry one and its value is no number.
pub open spec fn fault_at(fields: Seq<Field>, i: int) -> Option<DecodeError> {
    match name_of(fields[i].key@) {
        None => None,
        Some(name) => if seen_before(fields, i, name) {
            Some(DecodeError::Duplicate(name))
        } else if fields[i].number is None {
            Some(DecodeError::NotANumber(name))
        } else {
            None
        },
    }
}

/// Field `i` is faulty and no field before it is.
pub open spec fn first_fault(fields: Seq<Field>, i: int) -> bool {
    &&& 0 <= i < fields.len()
    &&& fault_at(fields, i) is Some
    &&& forall|j: int| 0 <= j < i ==> fault_at(fields, j) is None
}

/// Some field carries operand `name`.
pub open spec fn present(fields: Seq<Field>, name: Name) -> bool {
    exists|i: int| named(fields, i, name)
}

/// The number of a field that carries operand `name`.
pub open spec fn value_of(fields: Seq<Field>, name: Name) -> Real {
    fields[choose|i: int| named(fields, i, name)].number.unwrap()
}

/// The addition that a sequence of fields describes.
///
/// The first faulty field decides the error. Where no field is faulty, each
/// operand occurs at most once and with a number; the request is then made of
/// the two, and a missing `x` is reported before a missing `y`.
pub open spec fn decoded(fields: Seq<Field>) -> Result<AddRequest, DecodeError> {
    if exists|i: int| first_fault(fields, i) {
        Err(fault_at(fields, choose|i: int| first_fault(fields, i)).unwrap())
    } else if !present(fields, Name::X) {
        Err(DecodeError::Missing(Name::X))
    } else if !present(fields, Name::Y) {
        Err(DecodeError::Missing(Name::Y))
    } else {
        Ok(AddRequest { x: value_of(fields, Name::X), y: value_of(fields, Name::Y) })
    }
}

/// The operand that `key` stands for.
pub fn operand(key: &str) -> (r: Option<Name>)
    ensures
        r == name_of(key@),
{
    proof {
        reveal_strlit("x");
        reveal_strlit("y");
        assert("x"@ =~= seq!['x']);
        assert("y"@ =~= seq!['y']);
    }
    if same_text(key, "x") {
        Some(Name::X)
    } else if same_text(key, "y") {
        Some(Name::Y)
    } else {
        None
    }
}

/// Takes the value of a field into the place of its operand: refused where
/// the place is taken, or where the value is no number.
fn fill(slot: Option<Real>, name: Name, number: Option<Real>) -> (r: Result<Real, DecodeError>)
    ensures
        r == (if slot is Some {
            Err::<Real, DecodeError>(DecodeError::Duplicate(name))
        } else {
            match number {
                None => Err(DecodeError::NotANumber(name)),
                Some(v) => Ok(v),
            }
        }),
{
    if slot.is_some() {
        return Err(DecodeError::Duplicate(name));
    }
    match number {
        None => Err(DecodeError::NotANumber(name)),
        Some(v) => Ok(v),
    }
}

impl AddRequest {
    /// Decodes the fields of a query string, in the order in which they stand.
    pub fn from_fields(fields: &Vec<Field>) -> (r: Result<AddRequest, DecodeError>)
        ensures
            r == decoded(fields@),
    {
        let mut x: Option<Real> = None;
        let mut y: Option<Real> = None;
        let ghost mut xi: int = 0;
        let ghost mut yi: int = 0;
        let mut i: usize = 0;
        while i < fields.len()
            invariant
                i <= fields.len(),
                forall|j: int| 0 <= j < i ==> fault_at(fields@, j) is None,
                x is Some <==> seen_before(fields@, i as int, Name::X),
                y is Some <==> seen_before(fields@, i as int, Name::Y),
                x is Some ==> 0 <= xi < i && named(fields@, xi, Name::X) && fields@[xi].number == x,
                y is Some ==> 0 <= yi < i && named(fields@, yi, Name::Y) && fields@[yi].number == y,
            decreases fields.len() - i,
        {
            let field = &fields[i];
            match operand(field.key.as_str()) {
                None => {},
                Some(Name::X) => {
                    match fill(x, Name::X, field.number) {
                        Err(e) => {
                            proof {
                                assert(first_fault(fields@, i as int));
                            }
                            return Err(e);
                        },
                        Ok(v) => {
                            x = Some(v);
                            proof {
                                xi = i as int;
                            }
                        },
                    }
                },
                Some(Name::Y) => {
                    match fill(y, Name::Y, field.number) {
                        Err(e) => {
                            proof {
                                assert(first_fault(fields@, i as int));
                            }
                            return Err(e);
                        },
                        Ok(v) => {
                            y = Some(v);
                            proof {
                                yi = i as int;
                            }
                        },
                    }
                },
            }
            proof {
                // The field just read is the witness for the operand it carries.
                assert(named(fields@, i as int, Name::X) ==> seen_before(fields@, i + 1, Name::X));
                assert(named(fields@, i as int, Name::Y) ==> seen_before(fields@, i + 1, Name::Y));
            }
            i += 1;
        }
        match (x, y) {
            (None, _) => Err(DecodeError::Missing(Name::X)),
            (Some(_), None) => Err(DecodeError::Missing(Name::Y)),
            (Some(a), Some(b)) => {
                proof {
                    only_occurrence(fields@, xi, Name::X);
                    only_occurrence(fields@, yi, Name::Y);
                }
                Ok(AddRequest { x: a, y: b })
            },
        }
    }
}

/// Where no field is faulty, the field that carries an operand is the only
/// one that does, so `value_of` is its number.
proof fn only_occurrence(fields: Seq<Field>, at: int, name: Name)
    requires
        named(fields, at, name),
        forall|j: int| 0 <= j < fields.len() ==> fault_at(fields, j) is None,
    ensures
        value_of(fields, name) == fields[at].number.unwrap(),
{
    let k = choose|i: int| named(fields, i, name);
    assert(named(fields, k, name));
    if k < at {
        assert(seen_before(fields, at, name));
        assert(fault_at(fields, at) is Some);
    } else if at < k {
        assert(seen_before(fields, k, name));
        assert(fault_at(fields, k) is Some);
    }
}

/// A query that lacks an operand, or gives an operand a value that is no
/// number, is refused.
pub proof fn incomplete_query_is_refused(fields: Seq<Field>)
    requires
        !present(fields, Name::X) || !present(fields, Name::Y) || exists|i: int, name: Name|
            named(fields, i, name) && fields[i].number is None,
    ensures
        decoded(fields) is Err,
{
    if present(fields, Name::X) && present(fields, Name::Y) {
        let (i, name) = choose|i: int, name: Name|
            named(fields, i, name) && fields[i].number is None;
        assert(fault_at(fields, i) is Some);
        some_fault_is_first(fields, i);
    }
}

/// Where some field is faulty, some field is the first to be.
proof fn some_fault_is_first(fields: Seq<Field>, i: int)
    requires
        0 <= i < fields.len(),
        fault_at(fields, i) is Some,
    ensures
        exists|k: int| first_fault(fields, k),
    decreases i,
{
    if exists|j: int| 0 <= j < i && fault_at(fields, j) is Some {
        let j = choose|j: int| 0 <= j < i && fault_at(fields, j) is Some;
        some_fault_is_first(fields, j);
    } else {
        assert(first_fault(fields, i));
    }
}

/// A query in which each operand occurs exactly once, with a number, is
/// decoded to those two numbers, whatever else it holds.
pub proof fn complete_query_is_decoded(fields: Seq<Field>, xi: int, yi: int)
    requires
        named(fields, xi, Name::X),
        named(fields, yi, Name::Y),
        fields[xi].number is Some,
        fields[yi].number is Some,
        forall|j: int| named(fields, j, Name::X) ==> j == xi,
        forall|j: int| named(fields, j, Name::Y) ==> j == yi,
    ensures
        decoded(fields) == Ok::<AddRequest, DecodeError>(
            AddRequest { x: fields[xi].number.unwrap(), y: fields[yi].number.unwrap() },
        ),
{
    assert forall|j: int| 0 <= j < fields.len() implies fault_at(fields, j) is None by {
        if name_of(fields[j].key@) == Some(Name::X) {
            assert(named(fields, j, Name::X));
            assert(!seen_before(fields, j, Name::X));
        } else if name_of(fields[j].key@) == Some(Name::Y) {
            assert(named(fields, j, Name::Y));
            assert(!seen_before(fields, j, Name::Y));
        }
    }
    only_occurrence(fields, xi, Name::X);
    only_occurrence(fields, yi, Name::Y);
}

} // verus!
