//! The names under which a run is registered with the ingestion service.
use vstd::prelude::*;
use crate::decimal::dec;
use crate::decimal::push_decimal;

verus! {

pub open spec fn flow_prefix() -> Seq<char> {
    seq!['b', 'e', 'h', 'e', 'm', 'o', 't', 'h', '.']
}

/// The flow's name: `behemoth.<components>.<channels per component>.<frequency>`.
pub open spec fn flow_name_of(num_components: nat, channels_per_component: nat, frequency: nat) -> Seq<
    char,
> {
    flow_prefix() + dec(num_components) + seq!['.'] + dec(channels_per_component) + seq!['.'] + dec(
        frequency,
    )
}

/// The run's name: the asset's name, a dot, and the start time in
/// milliseconds since the Unix epoch.
pub open spec fn run_name_of(asset: Seq<char>, start_millis: nat) -> Seq<char> {
    asset + seq!['.'] + dec(start_millis)
}

/// Builds the flow's name from the run's configuration.
pub fn flow_name(num_components: usize, channels_per_component: usize, frequency: u64) -> (r: String)
    ensures
        r@ == flow_name_of(num_components as nat, channels_per_component as nat, frequency as nat),
{
    proof {
        reveal_strlit("behemoth.");
        reveal_strlit(".");
    }
    let mut s = String::new();
    s.append("behemoth.");
    push_decimal(&mut s, num_components as u128);
    s.append(".");
    push_decimal(&mut s, channels_per_component as u128);
    s.append(".");
    push_decimal(&mut s, frequency as u128);
    assert(s@ =~= flow_name_of(
        num_components as nat,
        channels_per_component as nat,
        frequency as nat,
    ));
    s
}

/// Builds the run's name from the asset's name and the start time.
pub fn run_name(asset: &str, start_millis: u128) -> (r: String)
    ensures
        r@ == run_name_of(asset@, start_millis as nat),
{
    proof {
        reveal_strlit(".");
    }
    let mut s = String::new();
    s.append(asset);
    s.append(".");
    push_decimal(&mut s, start_millis);
    assert(s@ =~= run_name_of(asset@, start_millis as nat));
    s
}

} // verus!
