use crate::platform::{build_service_url, service_url};
use vstd::prelude::*;

verus! {

/// A routing cluster of the game service, which serves several shards.
#[derive(Debug, Clone, Copy, PartialEq, Eq, Structural)]
pub enum Region {
    AMERICAS,
    ASIA,
    EUROPE,
    SEA,
}

impl Region {
    /// The label of the cluster in its host name.
    pub open spec fn label(self) -> Seq<char> {
        match self {
            Region::AMERICAS => "americas"@,
            Region::ASIA => "asia"@,
            Region::EUROPE => "europe"@,
            Region::SEA => "sea"@,
        }
    }
}

/// The base address of a cluster: `https://`, the cluster's label, `.api.riotgames.com`.
pub fn get_region_url(region: &Region) -> (url: String)
    ensures
        url@ == service_url(region.label()),
{
    let label = match region {
        Region::AMERICAS => "americas",
        Region::ASIA => "asia",
        Region::EUROPE => "europe",
        Region::SEA => "sea",
    };
    build_service_url(label)
}

} // verus!
