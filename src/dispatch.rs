//! Which application sent a report is not declared: the adapters are tried
//! in a fixed order and the first that gives events wins.
use vstd::prelude::*;

use crate::beaconscanner::{beacon_json_outcome, Beacons};
use crate::event::{Error, Event, ToRuuvariEvent};
use crate::ruuvistation::{tag_json_outcome, Tags};

verus! {

/// An application whose reports the library reads.
#[derive(Clone, Copy, Debug, PartialEq, Eq)]
pub enum Adapter {
    RuuviStation,
    BeaconScanner,
}

/// What reading `input` with adapter `a` may give.
pub open spec fn adapter_outcome(a: Adapter, input: Seq<char>, r: Result<Vec<Event>, Error>) -> bool {
    match a {
        Adapter::RuuviStation => tag_json_outcome(input, r),
        Adapter::BeaconScanner => beacon_json_outcome(input, r),
    }
}

/// The first adapter of `order` whose outcome in `outcomes` is a success,
/// with its events; `None` where there is none.
pub open spec fn first_ok(order: Seq<Adapter>, outcomes: Seq<Result<Vec<Event>, Error>>) -> Option<
    (Adapter, Vec<Event>),
>
    decreases order.len(),
{
    if order.len() == 0 || outcomes.len() == 0 {
        None
    } else {
        match outcomes[0] {
            Ok(v) => Some((order[0], v)),
            Err(_) => first_ok(order.drop_first(), outcomes.drop_first()),
        }
    }
}

/// The order the adapters are tried in by default: Ruuvi Station, the more
/// common sender, first.
pub fn default_order() -> (r: Vec<Adapter>)
    ensures
        r@ == seq![Adapter::RuuviStation, Adapter::BeaconScanner],
{
    let r = vec![Adapter::RuuviStation, Adapter::BeaconScanner];
    assert(r@ =~= seq![Adapter::RuuviStation, Adapter::BeaconScanner]);
    r
}

/// Reads `input` as a report of the application `a`.
pub fn convert_with(a: Adapter, input: &str) -> (r: Result<Vec<Event>, Error>)
    ensures
        adapter_outcome(a, input@, r),
        r matches Ok(v) ==> v@.len() > 0,
{
    match a {
        Adapter::RuuviStation => Tags::from_json(input),
        Adapter::BeaconScanner => Beacons::from_json(input),
    }
}

/// Picks, from the outcomes of the adapters of `order` (one each, in the
/// same order), the first success.
pub fn first_success(order: &Vec<Adapter>, outcomes: Vec<Result<Vec<Event>, Error>>) -> (r: Option<
    (Adapter, Vec<Event>),
>)
    requires
        outcomes@.len() == order@.len(),
    ensures
        r == first_ok(order@, outcomes@),
{
    let mut pending = outcomes;
    let n: usize = order.len();
    let mut i: usize = 0;
    assert(order@.subrange(0, order@.len() as int) =~= order@);
    while pending.len() > 0
        invariant
            n == order@.len(),
            i + pending@.len() == order@.len(),
            first_ok(order@, outcomes@) == first_ok(
                order@.subrange(i as int, order@.len() as int),
                pending@,
            ),
        decreases pending@.len(),
    {
        let ghost so = order@.subrange(i as int, order@.len() as int);
        let ghost before = pending@;
        let a = order[i];
        assert(so[0] == a);
        match pending.remove(0) {
            Ok(v) => {
                return Some((a, v));
            },
            Err(_) => {},
        }
        assert(pending@ =~= before.drop_first());
        assert(order@.subrange(i as int + 1, order@.len() as int) =~= so.drop_first());
        i += 1;
    }
    None
}

/// Tries the adapters of `order` on `input`, in order, and gives the first
/// that succeeds with its events; `None` where all fail.
pub fn dispatch(order: &Vec<Adapter>, input: &str) -> (r: Option<(Adapter, Vec<Event>)>)
    ensures
        exists|outcomes: Seq<Result<Vec<Event>, Error>>|
            {
                &&& outcomes.len() == order@.len()
                &&& forall|k: int|
                    0 <= k < order@.len() ==> adapter_outcome(
                        order@[k],
                        input@,
                        #[trigger] outcomes[k],
                    )
                &&& r == first_ok(order@, outcomes)
            },
{
    let mut outcomes: Vec<Result<Vec<Event>, Error>> = Vec::with_capacity(order.len());
    let mut i: usize = 0;
    while i < order.len()
        invariant
            i <= order@.len(),
            outcomes@.len() == i,
            forall|k: int|
                0 <= k < i ==> adapter_outcome(order@[k], input@, #[trigger] outcomes@[k]),
        decreases order@.len() - i,
    {
        outcomes.push(convert_with(order[i], input));
        i += 1;
    }
    let ghost seen = outcomes@;
    let r = first_success(order, outcomes);
    assert(seen.len() == order@.len() && r == first_ok(order@, seen));
    r
}

} // verus!
