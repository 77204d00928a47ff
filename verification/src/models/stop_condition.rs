//! Where generation stops.

use vstd::prelude::*;

verus! {

/// The sequences at which generation stops: one, or a list.
#[derive(Clone, Debug, PartialEq, Eq)]
pub enum StopCondition {
    String(String),
    Array(Vec<String>),
}

/// How a list of stop sequences goes into a request: a list of one as that
/// one sequence, any other list as it is, and no list as nothing.
pub open spec fn is_stop_of(condition: Option<StopCondition>, stop: Option<Seq<String>>) -> bool {
    match stop {
        None => condition is None,
        Some(sequences) => if sequences.len() == 1 {
            condition == Some(StopCondition::String(sequences[0]))
        } else {
            &&& condition matches Some(StopCondition::Array(list))
            &&& list@ == sequences
        },
    }
}

/// Puts a list of stop sequences in the form that a request holds.
pub fn stop_condition(stop: Option<Vec<String>>) -> (r: Option<StopCondition>)
    ensures
        is_stop_of(
            r,
            match stop {
                Some(list) => Some(list@),
                None => None,
            },
        ),
{
    match stop {
        None => None,
        Some(list) => {
            if list.len() == 1 {
                let mut list = list;
                match list.pop() {
                    Some(only) => Some(StopCondition::String(only)),
                    None => Some(StopCondition::Array(list)),
                }
            } else {
                Some(StopCondition::Array(list))
            }
        },
    }
}

} // verus!
