//! The part of a PHC string that says how many lanes Argon2 runs in.
//!
//! A PHC string has fields, each after a dollar sign: the algorithm, perhaps a
//! version, perhaps parameters, the salt and the hash.

use vstd::prelude::*;

use crate::text::{chars_of, fields_of, split_fields};

verus! {

/// The most characters that a number of lanes can have. Nine digits or more are
/// beyond what Argon2 takes.
pub const MAX_LANE_DIGITS: usize = 8;

/// Whether a field holds the version: `v=`, and no list after it.
pub open spec fn is_version(field: Seq<char>) -> bool {
    &&& field.len() >= 2
    &&& field[0] == 'v'
    &&& field[1] == '='
    &&& !field.contains(',')
}

/// Where the parameters stand, if there are any.
pub open spec fn parameters_place(fields: Seq<Seq<char>>) -> int {
    if fields.len() > 2 && is_version(fields[2]) {
        3
    } else {
        2
    }
}

/// The field with the parameters; empty if there is none.
pub open spec fn parameters(fields: Seq<Seq<char>>) -> Seq<char> {
    let place = parameters_place(fields);
    if fields.len() > place && fields[place].contains('=') {
        fields[place]
    } else {
        Seq::empty()
    }
}

/// Whether a parameter is the number of lanes.
pub open spec fn names_lanes(parameter: Seq<char>) -> bool {
    &&& parameter.len() >= 2
    &&& parameter[0] == 'p'
    &&& parameter[1] == '='
}

/// Whether the last of the parameters that is a number of lanes has few enough
/// digits; the number is one where none is named.
pub open spec fn last_lanes_fit(parameters: Seq<Seq<char>>) -> bool
    decreases parameters.len(),
{
    if parameters.len() == 0 {
        true
    } else if names_lanes(parameters.last()) {
        parameters.last().len() - 2 <= MAX_LANE_DIGITS
    } else {
        last_lanes_fit(parameters.drop_last())
    }
}

/// Whether the number of lanes in a PHC string has few enough digits.
pub open spec fn lanes_fit(phc: Seq<char>) -> bool {
    last_lanes_fit(fields_of(parameters(fields_of(phc, '$')), ','))
}

/// Whether `c` occurs in `text`.
fn holds(text: &Vec<char>, c: char) -> (found: bool)
    ensures
        found == text@.contains(c),
{
    let mut i: usize = 0;
    while i < text.len()
        invariant
            i <= text.len(),
            forall|j: int| 0 <= j < i ==> text@[j] != c,
        decreases text.len() - i,
    {
        if text[i] == c {
            return true;
        }
        i = i + 1;
    }
    false
}

/// The field with the parameters; empty if there is none.
fn find_parameters(fields: &Vec<Vec<char>>) -> (found: Vec<char>)
    ensures
        found@ == parameters(fields@.map_values(|field: Vec<char>| field@)),
{
    let ghost shown = fields@.map_values(|field: Vec<char>| field@);
    let mut place: usize = 2;
    if fields.len() > 2 {
        let field = &fields[2];
        assert(shown[2] == field@);
        if field.len() >= 2 && field[0] == 'v' && field[1] == '=' && !holds(field, ',') {
            place = 3;
        }
    }
    if fields.len() > place {
        assert(shown[place as int] == fields@[place as int]@);
        if holds(&fields[place], '=') {
            return fields[place].clone();
        }
    }
    Vec::new()
}

/// Whether the number of lanes in a PHC string has few enough digits.
pub fn check_lanes(phc: &str) -> (fit: bool)
    ensures
        fit == lanes_fit(phc@),
{
    let chars = chars_of(phc);
    let fields = split_fields(&chars, '$');
    let parameters = split_fields(&find_parameters(&fields), ',');
    let ghost shown = parameters@.map_values(|field: Vec<char>| field@);
    let mut left: usize = parameters.len();
    assert(shown.take(left as int) =~= shown);
    while left > 0
        invariant
            left <= parameters.len(),
            shown == parameters@.map_values(|field: Vec<char>| field@),
            last_lanes_fit(shown.take(left as int)) == lanes_fit(phc@),
        decreases left,
    {
        let parameter = &parameters[left - 1];
        assert(shown.take(left as int).last() == parameter@);
        assert(shown.take(left as int).drop_last() =~= shown.take(left - 1));
        if parameter.len() >= 2 && parameter[0] == 'p' && parameter[1] == '=' {
            return parameter.len() - 2 <= MAX_LANE_DIGITS;
        }
        left = left - 1;
    }
    true
}

} // verus!
