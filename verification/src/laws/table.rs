use crate::error::OpError;
use crate::table::{Handle, TableModel};
use vstd::prelude::*;

verus! {

/// One change to a resource table.
pub enum TableStep<R> {
    Register(R),
    Remove(Handle),
}

/// Whether `step` removes `rid`.
pub open spec fn removes<R>(step: TableStep<R>, rid: Handle) -> bool {
    step matches TableStep::Remove(gone) && gone == rid
}

/// The number of registrations among `steps`.
pub open spec fn registrations<R>(steps: Seq<TableStep<R>>) -> nat
    decreases steps.len(),
{
    if steps.len() == 0 {
        0
    } else {
        registrations(steps.drop_last()) + if steps.last() is Register {
            1nat
        } else {
            0nat
        }
    }
}

/// The table that `steps` make of the empty table.
pub open spec fn run<R>(steps: Seq<TableStep<R>>) -> TableModel<R>
    decreases steps.len(),
{
    if steps.len() == 0 {
        TableModel::fresh()
    } else {
        let before = run(steps.drop_last());
        match steps.last() {
            TableStep::Register(resource) => before.register(resource).0,
            TableStep::Remove(rid) => before.remove(rid).0,
        }
    }
}

/// Step `i` registers a resource, the handle it is given is `rid`, and no
/// later step removes `rid`.
pub open spec fn registered_at<R>(steps: Seq<TableStep<R>>, i: int, rid: Handle) -> bool {
    &&& 0 <= i < steps.len()
    &&& steps[i] is Register
    &&& registrations(steps.take(i)) == rid
    &&& forall|j: int| i < j < steps.len() ==> !removes(#[trigger] steps[j], rid)
}

/// Registering and then looking up gives the resource back; looking up what
/// was removed fails; and neither touches another handle.
pub proof fn lemma_table_round_trip<R>(table: TableModel<R>, resource: R, rid: Handle, other: Handle)
    requires
        table.wf(),
        other != rid,
    ensures
        table.register(resource).0.get(table.register(resource).1) == Ok::<R, OpError>(resource),
        !table.has(table.register(resource).1),
        table.remove(rid).0.get(rid) == Err::<R, OpError>(OpError::InvalidHandle),
        table.remove(rid).0.get(other) == table.get(other),
        table.register(resource).0.get(rid) == if rid == table.register(resource).1 {
            Ok(resource)
        } else {
            table.get(rid)
        },
{
}

/// After any sequence of registrations and removals on an empty table, a
/// lookup succeeds exactly for the handles that are registered at that
/// moment, and then gives the resource that was registered under it.
pub proof fn lemma_get_succeeds_iff_registered<R>(steps: Seq<TableStep<R>>, rid: Handle)
    requires
        registrations(steps) <= u32::MAX,
    ensures
        run(steps).wf(),
        run(steps).next_handle == registrations(steps),
        run(steps).get(rid) is Ok <==> exists|i: int| registered_at(steps, i, rid),
        forall|i: int|
            registered_at(steps, i, rid) ==> run(steps).get(rid) == Ok::<R, OpError>(
                steps[i]->Register_0,
            ),
    decreases steps.len(),
{
    if steps.len() == 0 {
        return ;
    }
    // The last step is taken apart from those before it.
    let n = steps.len() - 1;
    let prefix = steps.drop_last();
    let before = run(prefix);
    lemma_get_succeeds_iff_registered(prefix, rid);
    assert(steps.take(n) =~= prefix);
    assert forall|i: int| 0 <= i < n implies #[trigger] prefix.take(i) == steps.take(i) by {
        assert(prefix.take(i) =~= steps.take(i));
    }
    // An earlier registration still counts exactly if the last step does
    // not remove its handle.
    assert forall|i: int| 0 <= i < n implies ((registered_at(prefix, i, rid) && !removes(
        steps[n],
        rid,
    )) <==> registered_at(steps, i, rid)) by {
        assert(prefix.take(i) == steps.take(i));
        if registered_at(prefix, i, rid) && !removes(steps[n], rid) {
            assert forall|j: int| i < j < steps.len() implies !removes(
                #[trigger] steps[j],
                rid,
            ) by {
                if j < n {
                    assert(steps[j] == prefix[j]);
                }
            }
        }
        if registered_at(steps, i, rid) {
            assert(!removes(steps[n], rid));
            assert forall|j: int| i < j < prefix.len() implies !removes(
                #[trigger] prefix[j],
                rid,
            ) by {
                assert(prefix[j] == steps[j]);
            }
        }
    }
    match steps.last() {
        TableStep::Register(resource) => {
            // The last step registers under the handle that comes next.
            let fresh = before.next_handle;
            assert(registered_at(steps, n, fresh));
            if rid != fresh && before.get(rid) is Ok {
                let i = choose|i: int| registered_at(prefix, i, rid);
                assert(registered_at(steps, i, rid));
            }
            assert forall|i: int| registered_at(steps, i, rid) implies run(steps).get(rid) == Ok::<
                R,
                OpError,
            >(steps[i]->Register_0) by {
                if i < n {
                    assert(registered_at(prefix, i, rid));
                }
            }
        },
        TableStep::Remove(gone) => {
            if rid != gone && before.get(rid) is Ok {
                let i = choose|i: int| registered_at(prefix, i, rid);
                assert(registered_at(steps, i, rid));
            }
            assert forall|i: int| registered_at(steps, i, rid) implies run(steps).get(rid) == Ok::<
                R,
                OpError,
            >(steps[i]->Register_0) by {
                assert(i < n);
                assert(registered_at(prefix, i, rid));
            }
        },
    }
}

} // verus!
