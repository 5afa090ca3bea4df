//! Values of a row that is about to be written.

use vstd::prelude::*;

verus! {

#[derive(Debug, PartialEq, Eq)]
/// A column of a row to write: either set to a value or left alone.
pub enum ActiveValue<T> {
    Value(T),
    NotSet,
}

/// The column for an optional value: set to it, or left alone when there is none.
pub open spec fn option_value<T>(value: Option<T>) -> ActiveValue<T> {
    match value {
        Some(v) => ActiveValue::Value(v),
        None => ActiveValue::NotSet,
    }
}

/// A column set to the given value, or left alone when there is none.
pub fn set_option<T>(value: Option<T>) -> (res: ActiveValue<T>)
    ensures
        res == option_value(value),
{
    match value {
        Some(v) => ActiveValue::Value(v),
        None => ActiveValue::NotSet,
    }
}

} // verus!
