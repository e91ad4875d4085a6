//! Method numbers of the reward actor.

use vstd::prelude::*;

verus! {

/// Method number of the query for the reward of this epoch.
pub const THIS_EPOCH_REWARD_METHOD: u64 = 3;

/// Method number of the update of the network's power figures.
pub const UPDATE_NETWORK_KPI: u64 = 4;

/// The methods of the reward actor.
#[derive(Clone, Copy, Debug, PartialEq, Eq, Structural)]
pub enum Method {
    Constructor,
    AwardBlockReward,
    ThisEpochReward,
    UpdateNetworkKPI,
}

impl Method {
    /// The number by which the method is dispatched.
    pub open spec fn spec_number(self) -> u64 {
        match self {
            Method::Constructor => 1,
            Method::AwardBlockReward => 2,
            Method::ThisEpochReward => 3,
            Method::UpdateNetworkKPI => 4,
        }
    }

    /// The number by which the method is dispatched.
    #[verifier::when_used_as_spec(spec_number)]
    pub fn number(self) -> (n: u64)
        ensures
            n == self.spec_number(),
    {
        match self {
            Method::Constructor => 1,
            Method::AwardBlockReward => 2,
            Method::ThisEpochReward => 3,
            Method::UpdateNetworkKPI => 4,
        }
    }

    /// The method that a number dispatches to, if there is one.
    pub fn from_u64(n: u64) -> (m: Option<Method>)
        ensures
            m is Some <==> 1 <= n <= 4,
            m matches Some(method) ==> method.spec_number() == n,
    {
        if n == 1 {
            Some(Method::Constructor)
        } else if n == 2 {
            Some(Method::AwardBlockReward)
        } else if n == 3 {
            Some(Method::ThisEpochReward)
        } else if n == 4 {
            Some(Method::UpdateNetworkKPI)
        } else {
            None
        }
    }
}

/// A number identifies one method: two methods with the same number are the
/// same method.
pub proof fn lemma_method_numbers_are_distinct(a: Method, b: Method)
    requires
        a.spec_number() == b.spec_number(),
    ensures
        a == b,
{
}

} // verus!
