//! What one fetch of a feed reports: the number of trip updates among the
//! entities of the decoded message.
use vstd::prelude::*;

verus! {

/// The number of entities that carry a trip update, where `carries` says
/// of each entity of the message, in order, whether it does.
pub open spec fn trip_updates(carries: Seq<bool>) -> nat
    decreases carries.len(),
{
    if carries.len() == 0 {
        0
    } else {
        trip_updates(carries.drop_last()) + if carries.last() {
            1nat
        } else {
            0nat
        }
    }
}

/// Counts the entities that carry a trip update.
pub fn count_trip_updates(carries: &Vec<bool>) -> (count: usize)
    ensures
        count == trip_updates(carries@),
{
    let mut count: usize = 0;
    let mut at: usize = 0;
    while at < carries.len()
        invariant
            at <= carries.len(),
            count <= at,
            count == trip_updates(carries@.take(at as int)),
        decreases carries.len() - at,
    {
        proof {
            assert(carries@.take(at + 1).drop_last() =~= carries@.take(at as int));
        }
        if carries[at] {
            count += 1;
        }
        at += 1;
    }
    proof {
        assert(carries@.take(carries.len() as int) =~= carries@);
    }
    count
}

} // verus!
