use vstd::prelude::*;

use crate::config::{lists, manages, owner, resolve_address, resolve_machine, Device};
use crate::directory::{device_at, device_named};
use crate::error::ErrorView;
use crate::exchange::{
    begin_spec, issued, run, step_spec, ExchangeView, Operation, OutcomeView, StageView, StepView,
};
use crate::models::{port_of, PoeMode};
use crate::protocol::{is_success, listing_call, listing_of, override_call, reply_failure, Event};
use crate::search::{first_match, lemma_first_match};

verus! {

/// The switch `devices[k]` is the first one that lists `id` where it lists
/// `id` and no other switch does.
proof fn lemma_single_owner(devices: Seq<Device>, id: Seq<char>, k: int, j: int)
    requires
        0 <= k < devices.len(),
        0 <= j < devices[k].machines@.len(),
        devices[k].machines@[j].maas_id@ == id,
        forall|k2: int, j2: int|
            0 <= k2 < devices.len() && 0 <= j2 < devices[k2].machines@.len()
                && #[trigger] devices[k2].machines@[j2].maas_id@ == id ==> k2 == k,
    ensures
        first_match(devices, lists(id), 0) == Some(k),
        owner(devices, id) == Some(devices[k]),
{
    lemma_first_match(devices, lists(id), 0);
    assert(manages(devices[k], id));
    match first_match(devices, lists(id), 0) {
        Some(k2) => {
            assert(manages(devices[k2], id));
            let j2 = choose|j2: int|
                0 <= j2 < devices[k2].machines@.len() && #[trigger] devices[k2].machines@[j2].maas_id@
                    == id;
            assert(k2 == k);
        },
        None => {
            assert(lists(id)(devices[k]));
        },
    }
}

/// A machine that the fleet lists exactly once is served by the switch that
/// lists it, on the port that the fleet gives for it, whichever the request;
/// this holds where that port is also the one given for the first machine of
/// that switch, the entry that stands for every machine of the switch.
pub proof fn lemma_resolves_declared_target(
    devices: Seq<Device>,
    operation: Operation,
    id: Seq<char>,
    k: int,
    j: int,
)
    requires
        0 <= k < devices.len(),
        0 <= j < devices[k].machines@.len(),
        devices[k].machines@[j].maas_id@ == id,
        forall|k2: int, j2: int|
            0 <= k2 < devices.len() && 0 <= j2 < devices[k2].machines@.len()
                && #[trigger] devices[k2].machines@[j2].maas_id@ == id ==> k2 == k && j2 == j,
        devices[k].machines@[0].port_id == devices[k].machines@[j].port_id,
    ensures
        begin_spec(devices, operation, id) == StepView::Call(
            ExchangeView {
                operation,
                address: devices[k].mac,
                port_id: devices[k].machines@[j].port_id,
                stage: StageView::FindHandle,
            },
            listing_call(),
        ),
{
    lemma_single_owner(devices, id, k, j);
}

/// A request on a machine that no switch lists fails with `MachineNotFound`
/// and makes no call to the controller, whatever the controller would reply:
/// in particular no write.
pub proof fn lemma_unknown_machine_makes_no_call(
    devices: Seq<Device>,
    operation: Operation,
    id: Seq<char>,
    events: Seq<Event>,
)
    requires
        forall|k: int, j: int|
            0 <= k < devices.len() && 0 <= j < devices[k].machines@.len()
                ==> #[trigger] devices[k].machines@[j].maas_id@ != id,
    ensures
        begin_spec(devices, operation, id) == StepView::Done(Err(ErrorView::MachineNotFound(id))),
        issued(begin_spec(devices, operation, id), events) == Seq::<crate::protocol::CallView>::empty(),
{
    lemma_first_match(devices, lists(id), 0);
    if let Some(k) = first_match(devices, lists(id), 0) {
        assert(lists(id)(devices[k]));
        assert(manages(devices[k], id));
    }
}

/// The two replies of a status request, in order, settle it.
proof fn lemma_status_run(devices: Seq<Device>, id: Seq<char>, e1: Event, e2: Event)
    requires
        begin_spec(devices, Operation::PowerStatus, id) is Call,
    ensures
        ({
            let x1 = begin_spec(devices, Operation::PowerStatus, id)->Call_0;
            run(begin_spec(devices, Operation::PowerStatus, id), seq![e1, e2]) == match step_spec(x1, e1) {
                StepView::Call(x2, _) => step_spec(x2, e2),
                StepView::Done(r) => StepView::Done(r),
            }
        }),
{
    let s1 = begin_spec(devices, Operation::PowerStatus, id);
    let x1 = s1->Call_0;
    assert(seq![e1, e2].drop_first() =~= seq![e2]);
    assert(seq![e2].drop_first() =~= Seq::<Event>::empty());
    assert(run(s1, seq![e1, e2]) == run(step_spec(x1, e1), seq![e2]));
    match step_spec(x1, e1) {
        StepView::Call(x2, _) => {
            assert(run(step_spec(x1, e1), seq![e2]) == run(step_spec(x2, e2), Seq::<Event>::empty()));
        },
        StepView::Done(_) => {},
    }
}

/// A status request reports `running` where the controller gives the
/// machine's port the PoE setting `auto`, and `stopped` where it gives `off`.
pub proof fn lemma_status_follows_poe_mode(
    devices: Seq<Device>,
    id: Seq<char>,
    e1: Event,
    e2: Event,
)
    requires
        resolve_machine(devices, id) is Some,
        resolve_address(devices, id) is Some,
        listing_of(e1) is Ok,
        device_at(listing_of(e1)->Ok_0, resolve_address(devices, id)->0) is Some,
        listing_of(e2) is Ok,
        device_named(
            listing_of(e2)->Ok_0,
            device_at(listing_of(e1)->Ok_0, resolve_address(devices, id)->0)->0.device_id@,
        ) is Some,
    ensures
        ({
            let d = device_named(
                listing_of(e2)->Ok_0,
                device_at(listing_of(e1)->Ok_0, resolve_address(devices, id)->0)->0.device_id@,
            )->0;
            let mode = match port_of(d.port_table@, resolve_machine(devices, id)->0.port_id) {
                Some(p) => p.poe_mode,
                None => None,
            };
            let result = run(begin_spec(devices, Operation::PowerStatus, id), seq![e1, e2]);
            &&& mode == Some(PoeMode::Auto) ==> result == StepView::Done(
                Ok(OutcomeView::Status("running"@)),
            )
            &&& mode == Some(PoeMode::Off) ==> result == StepView::Done(
                Ok(OutcomeView::Status("stopped"@)),
            )
        }),
{
    lemma_status_run(devices, id, e1, e2);
}

/// A status request fails with `MachinePortIdIncorrect` and the port index
/// where the switch that the controller lists has no port with the index that
/// the fleet gives.
pub proof fn lemma_missing_port_is_reported(devices: Seq<Device>, id: Seq<char>, e1: Event, e2: Event)
    requires
        resolve_machine(devices, id) is Some,
        resolve_address(devices, id) is Some,
        listing_of(e1) is Ok,
        device_at(listing_of(e1)->Ok_0, resolve_address(devices, id)->0) is Some,
        listing_of(e2) is Ok,
        device_named(
            listing_of(e2)->Ok_0,
            device_at(listing_of(e1)->Ok_0, resolve_address(devices, id)->0)->0.device_id@,
        ) is Some,
        port_of(
            device_named(
                listing_of(e2)->Ok_0,
                device_at(listing_of(e1)->Ok_0, resolve_address(devices, id)->0)->0.device_id@,
            )->0.port_table@,
            resolve_machine(devices, id)->0.port_id,
        ) is None,
    ensures
        run(begin_spec(devices, Operation::PowerStatus, id), seq![e1, e2]) == StepView::Done(
            Err::<OutcomeView, ErrorView>(
                ErrorView::MachinePortIdIncorrect(resolve_machine(devices, id)->0.port_id),
            ),
        ),
{
    lemma_status_run(devices, id, e1, e2);
}

/// A power-on request whose switch the controller lists makes exactly two
/// calls, whatever comes after: the listing, then one write that sets the
/// machine's port to `auto` on that switch; it succeeds exactly where the
/// controller answers the write with success (a 2xx status).
pub proof fn lemma_power_on_writes_once(
    devices: Seq<Device>,
    id: Seq<char>,
    e1: Event,
    e2: Event,
    rest: Seq<Event>,
)
    requires
        resolve_machine(devices, id) is Some,
        resolve_address(devices, id) is Some,
        listing_of(e1) is Ok,
        device_at(listing_of(e1)->Ok_0, resolve_address(devices, id)->0) is Some,
    ensures
        ({
            let handle = device_at(listing_of(e1)->Ok_0, resolve_address(devices, id)->0)->0.device_id@;
            let port = resolve_machine(devices, id)->0.port_id;
            let start = begin_spec(devices, Operation::PowerOn, id);
            &&& issued(start, seq![e1, e2] + rest) == seq![
                listing_call(),
                override_call(handle, port, PoeMode::Auto),
            ]
            &&& (run(start, seq![e1, e2]) == StepView::Done(Ok(OutcomeView::PoweredOn)))
                == (reply_failure(e2) is None)
            &&& run(start, seq![e1, e2]) is Done
            &&& forall|s: u16|
                e2 == Event::Answered(s) ==> ((run(start, seq![e1, e2]) == StepView::Done(
                    Ok(OutcomeView::PoweredOn),
                )) == is_success(s))
        }),
{
    let start = begin_spec(devices, Operation::PowerOn, id);
    let x1 = start->Call_0;
    let s2 = step_spec(x1, e1);
    let x2 = s2->Call_0;
    let all = seq![e1, e2] + rest;
    assert(all[0] == e1);
    assert(all.drop_first() =~= seq![e2] + rest);
    assert((seq![e2] + rest)[0] == e2);
    assert((seq![e2] + rest).drop_first() =~= rest);
    assert(issued(step_spec(x2, e2), rest) == Seq::<crate::protocol::CallView>::empty());
    assert(issued(s2, seq![e2] + rest) == seq![s2->Call_1]);
    assert(issued(start, all) =~= seq![start->Call_1, s2->Call_1]);
    assert(seq![e1, e2].drop_first() =~= seq![e2]);
    assert(seq![e2].drop_first() =~= Seq::<Event>::empty());
    assert(run(start, seq![e1, e2]) == run(s2, seq![e2]));
    assert(run(s2, seq![e2]) == run(step_spec(x2, e2), Seq::<Event>::empty()));
}

/// A status request reads the port table of the switch that the first listing
/// gives for the machine's address: `running` where the machine's port there
/// has the PoE setting `auto`, `stopped` where it has `off`, and
/// `MachinePortIdIncorrect` where no port has the machine's index. This holds
/// where the second listing reports what the first did and no earlier listed
/// device shares that switch's controller handle, so that the lookup by handle
/// finds the same switch.
pub proof fn lemma_status_of_listed_switch(devices: Seq<Device>, id: Seq<char>, e1: Event, e2: Event)
    requires
        resolve_machine(devices, id) is Some,
        resolve_address(devices, id) is Some,
        listing_of(e1) is Ok,
        device_at(listing_of(e1)->Ok_0, resolve_address(devices, id)->0) is Some,
        listing_of(e2) == listing_of(e1),
        device_named(
            listing_of(e1)->Ok_0,
            device_at(listing_of(e1)->Ok_0, resolve_address(devices, id)->0)->0.device_id@,
        ) == device_at(listing_of(e1)->Ok_0, resolve_address(devices, id)->0),
    ensures
        ({
            let r = device_at(listing_of(e1)->Ok_0, resolve_address(devices, id)->0)->0;
            let port = resolve_machine(devices, id)->0.port_id;
            let result = run(begin_spec(devices, Operation::PowerStatus, id), seq![e1, e2]);
            &&& port_of(r.port_table@, port) matches Some(q) ==> (q.poe_mode == Some(PoeMode::Auto)
                ==> result == StepView::Done(Ok(OutcomeView::Status("running"@))))
            &&& port_of(r.port_table@, port) matches Some(q) ==> (q.poe_mode == Some(PoeMode::Off)
                ==> result == StepView::Done(Ok(OutcomeView::Status("stopped"@))))
            &&& port_of(r.port_table@, port) is None ==> result == StepView::Done(
                Err::<OutcomeView, ErrorView>(ErrorView::MachinePortIdIncorrect(port)),
            )
        }),
{
    lemma_status_run(devices, id, e1, e2);
}

} // verus!
