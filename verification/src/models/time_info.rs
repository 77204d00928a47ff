//! How long the API took over a request.

use crate::models::scalar::Scalar;
use vstd::prelude::*;

verus! {

/// How long the API took over a request. The times are in seconds.
#[derive(Clone, Copy, Debug, PartialEq, Eq)]
pub struct TimeInfo {
    /// The time spent in the queue.
    pub queue_time: Option<Scalar>,
    /// The time spent on the prompt.
    pub prompt_time: Option<Scalar>,
    /// The time spent on generating the completion.
    pub completion_time: Option<Scalar>,
    /// The time spent in all.
    pub total_time: Option<Scalar>,
    /// When the response was created, in seconds since the Unix epoch.
    pub created: Option<i32>,
}

impl TimeInfo {
    /// A record with nothing set.
    pub fn new() -> (r: TimeInfo)
        ensures
            r == (TimeInfo {
                queue_time: None,
                prompt_time: None,
                completion_time: None,
                total_time: None,
                created: None,
            }),
    {
        TimeInfo {
            queue_time: None,
            prompt_time: None,
            completion_time: None,
            total_time: None,
            created: None,
        }
    }
}

impl Default for TimeInfo {
    fn default() -> (r: TimeInfo)
        ensures
            r == (TimeInfo {
                queue_time: None,
                prompt_time: None,
                completion_time: None,
                total_time: None,
                created: None,
            }),
    {
        TimeInfo::new()
    }
}

} // verus!
