//! What crosses the bridge, stated of the calls themselves.

use crate::bridge::{WebExtStorageBridgedEngine, WebExtStorageStore};
use crate::engine::{BridgedEngine, SyncEngine};
use crate::error::{Error, Failure};
use crate::host::SyncHost;
use crate::session::Step;
use anyhow::Error as AnyhowError;
use std::sync::Arc;
use vstd::prelude::*;

verus! {

/// The engine behind a bridge is the one that was put there, and answers every
/// operation but one as it stands: with the same arguments, whatever they are.
pub proof fn law_bridge_forwards<B: SyncEngine>(
    bridge_impl: B,
    bridge: WebExtStorageBridgedEngine<B>,
)
    requires
        call_ensures(WebExtStorageBridgedEngine::<B>::new, (bridge_impl,), bridge),
    ensures
        forall|step: Step<B::Host>|
            #[trigger] call_ensures(
                WebExtStorageBridgedEngine::<B>::last_sync,
                (&bridge,),
                step,
            ) ==> call_ensures(B::last_sync, (&bridge_impl,), step),
        forall|millis: i64, step: Step<B::Host>|
            #[trigger] call_ensures(
                WebExtStorageBridgedEngine::<B>::set_last_sync,
                (&bridge, millis),
                step,
            ) ==> call_ensures(B::set_last_sync, (&bridge_impl, millis), step),
        forall|step: Step<B::Host>|
            #[trigger] call_ensures(
                WebExtStorageBridgedEngine::<B>::sync_id,
                (&bridge,),
                step,
            ) ==> call_ensures(B::sync_id, (&bridge_impl,), step),
        forall|step: Step<B::Host>|
            #[trigger] call_ensures(
                WebExtStorageBridgedEngine::<B>::reset_sync_id,
                (&bridge,),
                step,
            ) ==> call_ensures(B::reset_sync_id, (&bridge_impl,), step),
        forall|sync_id: &str, step: Step<B::Host>|
            #[trigger] call_ensures(
                WebExtStorageBridgedEngine::<B>::ensure_current_sync_id,
                (&bridge, sync_id),
                step,
            ) ==> call_ensures(B::ensure_current_sync_id, (&bridge_impl, sync_id), step),
        forall|client_data: &str, step: Step<B::Host>|
            #[trigger] call_ensures(
                WebExtStorageBridgedEngine::<B>::prepare_for_sync,
                (&bridge, client_data),
                step,
            ) ==> call_ensures(B::prepare_for_sync, (&bridge_impl, client_data), step),
        forall|step: Step<B::Host>|
            #[trigger] call_ensures(
                WebExtStorageBridgedEngine::<B>::apply,
                (&bridge,),
                step,
            ) ==> call_ensures(B::apply, (&bridge_impl,), step),
        forall|millis: i64, guids: Vec<<B::Host as SyncHost>::Guid>, step: Step<B::Host>|
            #[trigger] call_ensures(
                WebExtStorageBridgedEngine::<B>::set_uploaded,
                (&bridge, millis, guids),
                step,
            ) ==> call_ensures(B::set_uploaded, (&bridge_impl, millis, guids), step),
        forall|step: Step<B::Host>|
            #[trigger] call_ensures(
                WebExtStorageBridgedEngine::<B>::sync_started,
                (&bridge,),
                step,
            ) ==> call_ensures(B::sync_started, (&bridge_impl,), step),
        forall|step: Step<B::Host>|
            #[trigger] call_ensures(
                WebExtStorageBridgedEngine::<B>::sync_finished,
                (&bridge,),
                step,
            ) ==> call_ensures(B::sync_finished, (&bridge_impl,), step),
        forall|step: Step<B::Host>|
            #[trigger] call_ensures(
                WebExtStorageBridgedEngine::<B>::reset,
                (&bridge,),
                step,
            ) ==> call_ensures(B::reset, (&bridge_impl,), step),
        forall|step: Step<B::Host>|
            #[trigger] call_ensures(
                WebExtStorageBridgedEngine::<B>::wipe,
                (&bridge,),
                step,
            ) ==> call_ensures(B::wipe, (&bridge_impl,), step),
{
}

/// A bridge over a store opens that store's database and no other.
pub proof fn law_bridged_engine<H: SyncHost>(
    store: Arc<WebExtStorageStore<H>>,
    bridge: Arc<WebExtStorageBridgedEngine<BridgedEngine<H>>>,
    db: Arc<H::Store>,
)
    requires
        call_ensures(WebExtStorageStore::<H>::bridged_engine, (store,), bridge),
        call_ensures(BridgedEngine::<H>::upgraded, (&bridge.bridge_impl(),), Some(db)),
    ensures
        db == store.db,
{
}

/// All the texts become records: as many records as texts, the i-th being what the
/// i-th text parses as. If a text is refused, the first refusal is answered.
pub proof fn law_convert_incoming_bsos<B: SyncEngine>(
    bridge: WebExtStorageBridgedEngine<B>,
    texts: Vec<String>,
    result: Result<Vec<<B::Host as SyncHost>::IncomingBso>, <B::Host as SyncHost>::Cause>,
)
    requires
        call_ensures(
            WebExtStorageBridgedEngine::<B>::convert_incoming_bsos,
            (&bridge, texts),
            result,
        ),
    ensures
        match result {
            Ok(bsos) => {
                &&& bsos@.len() == texts@.len()
                &&& forall|i: int|
                    0 <= i < texts@.len() ==> call_ensures(
                        B::Host::parse_incoming,
                        (texts@[i],),
                        Ok(#[trigger] bsos@[i]),
                    )
            },
            Err(cause) => exists|bsos: Seq<<B::Host as SyncHost>::IncomingBso>|
                {
                    &&& bsos.len() < texts@.len()
                    &&& forall|i: int|
                        0 <= i < bsos.len() ==> call_ensures(
                            B::Host::parse_incoming,
                            (texts@[i],),
                            Ok(#[trigger] bsos[i]),
                        )
                    &&& #[trigger] call_ensures(
                        B::Host::parse_incoming,
                        (texts@[bsos.len() as int],),
                        Err(cause),
                    )
                },
        },
{
}

/// All the records become texts: as many texts as records, the i-th being what the
/// i-th record is written as. If a record is refused, the first refusal is answered.
pub proof fn law_convert_outgoing_bsos<B: SyncEngine>(
    bridge: WebExtStorageBridgedEngine<B>,
    records: Vec<<B::Host as SyncHost>::OutgoingBso>,
    result: Result<Vec<String>, <B::Host as SyncHost>::Cause>,
)
    requires
        call_ensures(
            WebExtStorageBridgedEngine::<B>::convert_outgoing_bsos,
            (&bridge, records),
            result,
        ),
    ensures
        match result {
            Ok(texts) => {
                &&& texts@.len() == records@.len()
                &&& forall|i: int|
                    0 <= i < records@.len() ==> call_ensures(
                        B::Host::serialize_outgoing,
                        (records@[i],),
                        Ok(#[trigger] texts@[i]),
                    )
            },
            Err(cause) => exists|texts: Seq<String>|
                {
                    &&& texts.len() < records@.len()
                    &&& forall|i: int|
                        0 <= i < texts.len() ==> call_ensures(
                            B::Host::serialize_outgoing,
                            (records@[i],),
                            Ok(#[trigger] texts[i]),
                        )
                    &&& #[trigger] call_ensures(
                        B::Host::serialize_outgoing,
                        (records@[texts.len() as int],),
                        Err(cause),
                    )
                },
        },
{
}

/// An `apply` that ended with records is answered with all of them as texts, or
/// with the first refusal. One that failed is answered with its failure.
pub proof fn law_applied<B: SyncEngine>(
    bridge: WebExtStorageBridgedEngine<B>,
    outcome: Result<
        Vec<<B::Host as SyncHost>::OutgoingBso>,
        Failure<<B::Host as SyncHost>::Cause>,
    >,
    result: Result<Vec<String>, Failure<<B::Host as SyncHost>::Cause>>,
)
    requires
        call_ensures(WebExtStorageBridgedEngine::<B>::applied, (&bridge, outcome), result),
    ensures
        match (outcome, result) {
            (Ok(records), Ok(texts)) => {
                &&& texts@.len() == records@.len()
                &&& forall|i: int|
                    0 <= i < records@.len() ==> call_ensures(
                        B::Host::serialize_outgoing,
                        (records@[i],),
                        Ok(#[trigger] texts@[i]),
                    )
            },
            (Ok(records), Err(Failure::Step(cause))) => exists|texts: Seq<String>|
                {
                    &&& texts.len() < records@.len()
                    &&& forall|i: int|
                        0 <= i < texts.len() ==> call_ensures(
                            B::Host::serialize_outgoing,
                            (records@[i],),
                            Ok(#[trigger] texts[i]),
                        )
                    &&& #[trigger] call_ensures(
                        B::Host::serialize_outgoing,
                        (records@[texts.len() as int],),
                        Err(cause),
                    )
                },
            (Err(failure), Err(answer)) => answer == failure,
            _ => false,
        },
{
}

/// The engine is asked to stage all the records that the texts parse as: as many as
/// texts, the i-th from the i-th. If a text is refused, the first refusal is
/// answered, and the engine is not asked.
pub proof fn law_bridge_store_incoming<B: SyncEngine>(
    bridge: WebExtStorageBridgedEngine<B>,
    texts: Vec<String>,
    step: Step<B::Host>,
)
    requires
        call_ensures(WebExtStorageBridgedEngine::<B>::store_incoming, (&bridge, texts), step),
    ensures
        ({
            ||| exists|bsos: Vec<<B::Host as SyncHost>::IncomingBso>|
                {
                    &&& bsos@.len() == texts@.len()
                    &&& forall|i: int|
                        0 <= i < texts@.len() ==> call_ensures(
                            B::Host::parse_incoming,
                            (texts@[i],),
                            Ok(#[trigger] bsos@[i]),
                        )
                    &&& #[trigger] call_ensures(
                        B::store_incoming,
                        (&bridge.bridge_impl(), bsos),
                        step,
                    )
                }
            ||| exists|bsos: Seq<<B::Host as SyncHost>::IncomingBso>, cause|
                {
                    &&& bsos.len() < texts@.len()
                    &&& forall|i: int|
                        0 <= i < bsos.len() ==> call_ensures(
                            B::Host::parse_incoming,
                            (texts@[i],),
                            Ok(#[trigger] bsos[i]),
                        )
                    &&& #[trigger] call_ensures(
                        B::Host::parse_incoming,
                        (texts@[bsos.len() as int],),
                        Err(cause),
                    )
                    &&& step == Step::<B::Host>::Done(Err(Failure::Step(cause)))
                }
        }),
{
}

/// An error of the sync engine keeps the message that it displays.
pub proof fn law_error_keeps_message(value: AnyhowError, error: Error)
    requires
        call_ensures(<Error as From<AnyhowError>>::from, (value,), error),
    ensures
        error matches Error::SyncError(message) && vstd::string::to_string_from_display_ensures(
            &value,
            message,
        ),
{
}

} // verus!
