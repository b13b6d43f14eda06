use vstd::prelude::*;

use crate::config::{resolve_address, resolve_machine, Config};
use crate::directory::{device, device_id, device_named, device_status, handle_at, power_state};
use crate::error::{ErrorView, UnifiError};
use crate::models::{DeviceId, MacAddr, PoeMode, PowerStatus};
use crate::protocol::{
    devices_call, failure_of, listing, listing_call, listing_of, override_call,
    port_override_call, reply_failure, CallView, Event, HttpCall,
};

verus! {

/// What a request asks of a machine.
#[derive(Clone, Copy, Debug, PartialEq, Eq, Structural)]
pub enum Operation {
    /// Report whether the machine's port supplies power.
    PowerStatus,
    /// Make the machine's port supply power.
    PowerOn,
}

/// Which reply a request waits for.
#[derive(Debug)]
pub enum Stage {
    /// The listing that gives the controller handle of the switch.
    FindHandle,
    /// The listing that gives the port table of the switch with this handle.
    FetchDevice(DeviceId),
    /// The answer to the port override.
    AwaitOverride,
}

pub enum StageView {
    FindHandle,
    FetchDevice(Seq<char>),
    AwaitOverride,
}

/// A request in flight: the switch and port that it resolved to, and the
/// reply that it waits for.
#[derive(Debug)]
pub struct Exchange {
    operation: Operation,
    address: MacAddr,
    port_id: usize,
    stage: Stage,
}

pub struct ExchangeView {
    pub operation: Operation,
    pub address: MacAddr,
    pub port_id: usize,
    pub stage: StageView,
}

impl View for Exchange {
    type V = ExchangeView;

    closed spec fn view(&self) -> ExchangeView {
        ExchangeView {
            operation: self.operation,
            address: self.address,
            port_id: self.port_id,
            stage: match self.stage {
                Stage::FindHandle => StageView::FindHandle,
                Stage::FetchDevice(h) => StageView::FetchDevice(h@),
                Stage::AwaitOverride => StageView::AwaitOverride,
            },
        }
    }
}

/// What a request that completed gives back.
#[derive(Debug)]
pub enum Outcome {
    /// The power state of the machine (`running` or `stopped`).
    Status(PowerStatus),
    /// The controller accepted the override that powers the machine.
    PoweredOn,
}

pub enum OutcomeView {
    Status(Seq<char>),
    PoweredOn,
}

impl View for Outcome {
    type V = OutcomeView;

    open spec fn view(&self) -> OutcomeView {
        match self {
            Outcome::Status(s) => OutcomeView::Status(s@),
            Outcome::PoweredOn => OutcomeView::PoweredOn,
        }
    }
}

/// The next move of a request: a call to make, whose reply goes to the
/// exchange, or the request's result.
#[derive(Debug)]
pub enum Step {
    Call(Exchange, HttpCall),
    Done(Result<Outcome, UnifiError>),
}

pub enum StepView {
    Call(ExchangeView, CallView),
    Done(Result<OutcomeView, ErrorView>),
}

impl View for Step {
    type V = StepView;

    open spec fn view(&self) -> StepView {
        match self {
            Step::Call(x, c) => StepView::Call(x@, c@),
            Step::Done(Ok(o)) => StepView::Done(Ok(o@)),
            Step::Done(Err(e)) => StepView::Done(Err(e@)),
        }
    }
}

/// The first move of a request for `operation` on the machine `id` of the
/// fleet `devices`: `MachineNotFound` where no switch lists `id`; else the
/// listing call, to find the switch that the fleet gives for `id`.
pub open spec fn begin_spec(
    devices: Seq<crate::config::Device>,
    operation: Operation,
    id: Seq<char>,
) -> StepView {
    match resolve_machine(devices, id) {
        None => StepView::Done(Err(ErrorView::MachineNotFound(id))),
        Some(m) => match resolve_address(devices, id) {
            None => StepView::Done(Err(ErrorView::DeviceNotFound(id))),
            Some(mac) => StepView::Call(
                ExchangeView {
                    operation,
                    address: mac,
                    port_id: m.port_id,
                    stage: StageView::FindHandle,
                },
                listing_call(),
            ),
        },
    }
}

/// The move of the request `x` once the reply `e` has come.
pub open spec fn step_spec(x: ExchangeView, e: Event) -> StepView {
    match x.stage {
        StageView::FindHandle => match listing_of(e) {
            Err(err) => StepView::Done(Err(err)),
            Ok(devs) => match handle_at(devs, x.address) {
                Err(err) => StepView::Done(Err(err)),
                Ok(h) => match x.operation {
                    Operation::PowerStatus => StepView::Call(
                        ExchangeView { stage: StageView::FetchDevice(h), ..x },
                        listing_call(),
                    ),
                    Operation::PowerOn => StepView::Call(
                        ExchangeView { stage: StageView::AwaitOverride, ..x },
                        override_call(h, x.port_id, PoeMode::Auto),
                    ),
                },
            },
        },
        StageView::FetchDevice(h) => match listing_of(e) {
            Err(err) => StepView::Done(Err(err)),
            Ok(devs) => match device_named(devs, h) {
                None => StepView::Done(Err(ErrorView::DeviceNotFound(h))),
                Some(d) => match device_status(d, x.port_id) {
                    Ok(s) => StepView::Done(Ok(OutcomeView::Status(s))),
                    Err(err) => StepView::Done(Err(err)),
                },
            },
        },
        StageView::AwaitOverride => match reply_failure(e) {
            None => StepView::Done(Ok(OutcomeView::PoweredOn)),
            Some(d) => StepView::Done(Err(ErrorView::FailedToPowerOn(d))),
        },
    }
}

impl Exchange {
    /// Starts a request for `operation` on the machine `system_id`.
    pub fn begin(config: &Config, operation: Operation, system_id: &str) -> (r: Step)
        ensures
            r@ == begin_spec(config.devices@, operation, system_id@),
    {
        let machine = match config.machine(system_id) {
            Some(m) => m,
            None => {
                return Step::Done(Err(UnifiError::MachineNotFound(String::from_str(system_id))));
            },
        };
        let address = match config.owning_device_mac(system_id) {
            Some(a) => a,
            None => {
                return Step::Done(Err(UnifiError::DeviceNotFound(String::from_str(system_id))));
            },
        };
        let x = Exchange { operation, address, port_id: machine.port_id, stage: Stage::FindHandle };
        Step::Call(x, devices_call())
    }

    /// The request's next move, once the reply `event` to its last call has come.
    pub fn step(self, event: Event) -> (r: Step)
        ensures
            r@ == step_spec(self@, event),
    {
        match self.stage {
            Stage::FindHandle => {
                let devs = match listing(event) {
                    Ok(v) => v,
                    Err(err) => {
                        return Step::Done(Err(err));
                    },
                };
                let h = match device_id(&devs, &self.address) {
                    Ok(h) => h,
                    Err(err) => {
                        return Step::Done(Err(err));
                    },
                };
                match self.operation {
                    Operation::PowerStatus => {
                        let call = devices_call();
                        Step::Call(
                            Exchange {
                                operation: self.operation,
                                address: self.address,
                                port_id: self.port_id,
                                stage: Stage::FetchDevice(h),
                            },
                            call,
                        )
                    },
                    Operation::PowerOn => {
                        let call = port_override_call(h.as_str(), self.port_id, PoeMode::Auto);
                        Step::Call(
                            Exchange {
                                operation: self.operation,
                                address: self.address,
                                port_id: self.port_id,
                                stage: Stage::AwaitOverride,
                            },
                            call,
                        )
                    },
                }
            },
            Stage::FetchDevice(h) => {
                let devs = match listing(event) {
                    Ok(v) => v,
                    Err(err) => {
                        return Step::Done(Err(err));
                    },
                };
                let d = match device(devs, &h) {
                    Ok(d) => d,
                    Err(err) => {
                        return Step::Done(Err(err));
                    },
                };
                match power_state(&d, self.port_id) {
                    Ok(s) => Step::Done(Ok(Outcome::Status(s))),
                    Err(err) => Step::Done(Err(err)),
                }
            },
            Stage::AwaitOverride => match failure_of(&event) {
                None => Step::Done(Ok(Outcome::PoweredOn)),
                Some(d) => Step::Done(Err(UnifiError::FailedToPowerOn(d))),
            },
        }
    }
}

} // verus!

verus! {

/// Where a request stands after the replies `events`, in order, starting from `s`.
pub open spec fn run(s: StepView, events: Seq<Event>) -> StepView
    decreases events.len(),
{
    match s {
        StepView::Call(x, _) => if events.len() == 0 {
            s
        } else {
            run(step_spec(x, events[0]), events.drop_first())
        },
        StepView::Done(_) => s,
    }
}

/// The calls that a request makes, starting from `s`, when the replies to them
/// are `events`, in order.
pub open spec fn issued(s: StepView, events: Seq<Event>) -> Seq<CallView>
    decreases events.len(),
{
    match s {
        StepView::Call(x, c) => if events.len() == 0 {
            seq![c]
        } else {
            seq![c] + issued(step_spec(x, events[0]), events.drop_first())
        },
        StepView::Done(_) => Seq::empty(),
    }
}

} // verus!
