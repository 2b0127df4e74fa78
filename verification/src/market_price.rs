use vstd::prelude::*;

use crate::duration::Duration;

verus! {

/// The price-feed acceptance rules of the oracle: how long a feed stays
/// valid and how many feeders must have reported.
#[derive(Clone, Copy, Debug, PartialEq, Eq, Structural)]
pub struct Config {
    pub feed_validity: Duration,
    pub required_feeders_cnt: usize,
}

impl Config {
    pub fn new(price_feed_period: Duration, required_feeders_cnt: usize) -> (r: Self)
        ensures
            r.feed_validity == price_feed_period,
            r.required_feeders_cnt == required_feeders_cnt,
    {
        Config { feed_validity: price_feed_period, required_feeders_cnt }
    }

    pub fn feeders(&self) -> (r: usize)
        ensures
            r == self.required_feeders_cnt,
    {
        self.required_feeders_cnt
    }

    pub fn feed_validity(&self) -> (r: Duration)
        ensures
            r == self.feed_validity,
    {
        self.feed_validity
    }
}

} // verus!
