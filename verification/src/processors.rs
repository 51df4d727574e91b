//! One processor per command namespace: each turns its command into
//! the request it stands for and submits it to the engine. What that
//! must achieve is the trait's `process_ok` predicate, which every
//! processor defines by composing its command-to-request mapping with
//! the engine handler's whole contract — so the functions the host
//! binary drives carry the engine's guarantees end to end.

use vstd::prelude::*;
use crate::commands::{
    consumer_request_for, gathered_filters, marketmaker_request_for, marketmaker_request_spec,
    supplier_request_for, supplier_request_spec, ConsumerCommands, MarketMakerCommands,
    SupplierCommands,
};
use crate::errors::MarketError;
use crate::protocol::{
    ConsumerRequest, ConsumerResponse, Request, Response, SysStateRequest,
};
use crate::registry::{device_views, filtered_pred};
use crate::sysstate::{
    consumer_response_ok, marketmaker_response_ok, supplier_response_ok, system_response_ok,
    SysState,
};

verus! {

/// Something that can carry a command of its namespace to the engine.
pub trait Processable<T> {
    /// What processing this command must achieve: which response comes
    /// back and how the node changed, stated through the engine
    /// handler that serves the command's request.
    spec fn process_ok(command: T, pre: SysState, post: SysState, r: Response) -> bool;

    /// Submit `command` to the engine and hand its response back.
    fn process(command: T, state: &mut SysState) -> (r: Response)
        requires
            old(state).wf(),
        ensures
            final(state).wf(),
            final(state).peer_id == old(state).peer_id,
            Self::process_ok(command, *old(state), *final(state), r),
    ;
}

/// Carries MarketMaker commands.
pub struct MarketMakerProcessor {}

impl Processable<MarketMakerCommands> for MarketMakerProcessor {
    open spec fn process_ok(
        command: MarketMakerCommands,
        pre: SysState,
        post: SysState,
        r: Response,
    ) -> bool {
        match marketmaker_request_spec(command) {
            Request::System(q) => system_response_ok(q, pre, post, r),
            Request::MarketMaker(q) => marketmaker_response_ok(q, pre, post, r),
            _ => false,
        }
    }

    fn process(command: MarketMakerCommands, state: &mut SysState) -> (r: Response) {
        let request = marketmaker_request_for(command);
        state.send_request(request)
    }
}

/// Carries Supplier commands.
pub struct SupplierProcessor {}

impl Processable<SupplierCommands> for SupplierProcessor {
    open spec fn process_ok(
        command: SupplierCommands,
        pre: SysState,
        post: SysState,
        r: Response,
    ) -> bool {
        match supplier_request_spec(command) {
            Request::System(q) => system_response_ok(q, pre, post, r),
            Request::Supplier(q) => supplier_response_ok(q, pre, post, r),
            _ => false,
        }
    }

    fn process(command: SupplierCommands, state: &mut SysState) -> (r: Response) {
        let request = supplier_request_for(command);
        state.send_request(request)
    }
}

/// Carries Consumer commands; the one purely local command is answered
/// without the engine, with the state untouched.
pub struct ConsumerProcessor {}

impl Processable<ConsumerCommands> for ConsumerProcessor {
    open spec fn process_ok(
        command: ConsumerCommands,
        pre: SysState,
        post: SysState,
        r: Response,
    ) -> bool {
        match command {
            ConsumerCommands::Status => consumer_response_ok(ConsumerRequest::Status, pre, post, r),
            ConsumerCommands::Start { remote, port, user } => system_response_ok(
                SysStateRequest::StartConsumer { mm_host: remote, mm_port: port, name: user },
                pre,
                post,
                r,
            ),
            ConsumerCommands::Stop => system_response_ok(SysStateRequest::StopConsumer, pre, post, r),
            ConsumerCommands::Reserve { device, no_default } => consumer_response_ok(
                ConsumerRequest::ReserveDevice { device_id: device, no_use: no_default },
                pre,
                post,
                r,
            ),
            ConsumerCommands::Release { device } => (match device {
                Some(d) => consumer_response_ok(
                    ConsumerRequest::ReleaseDevice { device_id: d },
                    pre,
                    post,
                    r,
                ),
                None => consumer_response_ok(ConsumerRequest::ReleaseAllDevices, pre, post, r),
            }),
            ConsumerCommands::ListAvailable => consumer_response_ok(
                ConsumerRequest::GetAvailableDevices,
                pre,
                post,
                r,
            ),
            ConsumerCommands::GetDevices {
                is_available,
                device_ids,
                device_names,
                device_models,
                supplied_by,
                reserved_by,
            } => {
                let fs = gathered_filters(
                    is_available,
                    (match device_ids {
                        Some(v) => Some(v@),
                        None => None,
                    }),
                    (match device_names {
                        Some(v) => Some(v@),
                        None => None,
                    }),
                    (match device_models {
                        Some(v) => Some(v@),
                        None => None,
                    }),
                    (match supplied_by {
                        Some(v) => Some(v@),
                        None => None,
                    }),
                    (match reserved_by {
                        Some(v) => Some(v@),
                        None => None,
                    }),
                );
                &&& post.same_node(pre)
                &&& post.supplier == pre.supplier
                &&& (pre.consumer is None ==> post == pre && (r matches Response::Consumer(
                    ConsumerResponse::Error { kind, .. },
                ) && kind == MarketError::NotRunning))
                &&& (pre.consumer is Some ==> post == pre && (match pre.market_maker {
                    None => r matches Response::Consumer(ConsumerResponse::Error { kind, .. })
                        && kind == MarketError::PeerNotConnected,
                    Some(m0) => r matches Response::Consumer(
                        ConsumerResponse::Devices { devices },
                    ) && device_views(devices@) == m0.registry@.filter(filtered_pred(fs)),
                }))
            },
            ConsumerCommands::ListReserved => consumer_response_ok(
                ConsumerRequest::Status,
                pre,
                post,
                r,
            ),
            ConsumerCommands::SetDefault { device } => consumer_response_ok(
                ConsumerRequest::UseDevice { device_id: device },
                pre,
                post,
                r,
            ),
            ConsumerCommands::Scrcpy { device, args } => consumer_response_ok(
                ConsumerRequest::StartScrCpy { device_id: device, args },
                pre,
                post,
                r,
            ),
            ConsumerCommands::StopScrcpy { device } => consumer_response_ok(
                ConsumerRequest::StopScrCpy { device_id: device },
                pre,
                post,
                r,
            ),
            ConsumerCommands::SetScrcpyArgs(args) => consumer_response_ok(
                ConsumerRequest::SetScrCpyDefaults { args },
                pre,
                post,
                r,
            ),
            ConsumerCommands::GetScrcpyArgs => consumer_response_ok(
                ConsumerRequest::GetScrCpyDefaults,
                pre,
                post,
                r,
            ),
            ConsumerCommands::ScrcpyShortcuts => post == pre && (r matches Response::Consumer(
                ConsumerResponse::ScrCpyShortcutHelp { .. },
            )),
        }
    }

    fn process(command: ConsumerCommands, state: &mut SysState) -> (r: Response) {
        let ghost cmd = command;
        match consumer_request_for(command) {
            Some(request) => {
                let ghost req = request;
                let r = state.send_request(request);
                proof {
                    if cmd matches ConsumerCommands::GetDevices { .. } {
                        assert(req matches Request::Consumer(
                            ConsumerRequest::GetDevicesByFilter { .. },
                        ));
                    }
                }
                r
            },
            None => Response::Consumer(
                ConsumerResponse::ScrCpyShortcutHelp {
                    help: "MOD+f fullscreen, MOD+h home, MOD+b back, MOD+s app switch, MOD+p power".to_owned(),
                },
            ),
        }
    }
}

} // verus!
