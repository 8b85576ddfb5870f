//! The bridge between the application's sync service and an engine: records
//! cross it as JSON text.

use crate::engine::{BridgedEngine, Request, SyncEngine};
use crate::error::Failure;
use crate::host::SyncHost;
use crate::session::{Step, StepView};
use std::sync::Arc;
use vstd::prelude::*;

verus! {

/// The `storage.sync` store.
pub struct WebExtStorageStore<H: SyncHost> {
    pub db: Arc<H::Store>,
}

impl<H: SyncHost> WebExtStorageStore<H> {
    /// A bridged sync engine for this store: its operations open this store's
    /// database, or are refused once that is gone.
    pub fn bridged_engine(self: Arc<Self>) -> (engine: Arc<
        WebExtStorageBridgedEngine<BridgedEngine<H>>,
    >)
        ensures
            engine.bridge_impl().store() == self.db,
    {
        let engine = BridgedEngine::new(&self.db);
        Arc::new(WebExtStorageBridgedEngine::new(engine))
    }
}

/// Whether parsing these texts in order, up to the first that is refused, gives
/// `result`: all the records, or the first refusal.
pub open spec fn parses<H: SyncHost>(
    texts: Seq<String>,
    result: Result<Seq<H::IncomingBso>, H::Cause>,
) -> bool {
    match result {
        Ok(bsos) => {
            &&& bsos.len() == texts.len()
            &&& parses_each::<H>(texts, bsos)
        },
        Err(cause) => exists|bsos: Seq<H::IncomingBso>|
            {
                &&& bsos.len() < texts.len()
                &&& #[trigger] parses_each::<H>(texts, bsos)
                &&& call_ensures(
                    H::parse_incoming,
                    (texts[bsos.len() as int],),
                    Err::<H::IncomingBso, H::Cause>(cause),
                )
            },
    }
}

/// Whether the first texts parse as these records.
pub open spec fn parses_each<H: SyncHost>(texts: Seq<String>, bsos: Seq<H::IncomingBso>) -> bool {
    forall|i: int|
        0 <= i < bsos.len() ==> call_ensures(
            H::parse_incoming,
            (texts[i],),
            Ok::<H::IncomingBso, H::Cause>(#[trigger] bsos[i]),
        )
}

/// Whether serializing these records in order, up to the first that is refused,
/// gives `result`: all the texts, or the first refusal.
pub open spec fn serializes<H: SyncHost>(
    records: Seq<H::OutgoingBso>,
    result: Result<Seq<String>, H::Cause>,
) -> bool {
    match result {
        Ok(texts) => {
            &&& texts.len() == records.len()
            &&& serializes_each::<H>(records, texts)
        },
        Err(cause) => exists|texts: Seq<String>|
            {
                &&& texts.len() < records.len()
                &&& #[trigger] serializes_each::<H>(records, texts)
                &&& call_ensures(
                    H::serialize_outgoing,
                    (records[texts.len() as int],),
                    Err::<String, H::Cause>(cause),
                )
            },
    }
}

/// Whether the first records serialize as these texts.
pub open spec fn serializes_each<H: SyncHost>(
    records: Seq<H::OutgoingBso>,
    texts: Seq<String>,
) -> bool {
    forall|i: int|
        0 <= i < texts.len() ==> call_ensures(
            H::serialize_outgoing,
            (records[i],),
            Ok::<String, H::Cause>(#[trigger] texts[i]),
        )
}

/// The items of a successful conversion.
pub open spec fn items_view<A, C>(result: Result<Vec<A>, C>) -> Result<Seq<A>, C> {
    match result {
        Ok(items) => Ok(items@),
        Err(cause) => Err(cause),
    }
}

/// Whether `result` is how the bridge answers an `apply` that ended with
/// `outcome`: with the records as texts, or with the first failure.
pub open spec fn texts_of<H: SyncHost>(
    outcome: Result<Seq<H::OutgoingBso>, Failure<H::Cause>>,
    result: Result<Seq<String>, Failure<H::Cause>>,
) -> bool {
    match (outcome, result) {
        (Ok(records), Ok(texts)) => serializes::<H>(records, Ok(texts)),
        (Ok(records), Err(Failure::Step(cause))) => serializes::<H>(records, Err(cause)),
        (Ok(_), Err(Failure::Storage(_))) => false,
        (Err(failure), Ok(_)) => false,
        (Err(failure), Err(answer)) => answer == failure,
    }
}

/// A sync engine behind the bridge.
pub struct WebExtStorageBridgedEngine<B: SyncEngine> {
    bridge_impl: B,
}

impl<B: SyncEngine> WebExtStorageBridgedEngine<B> {
    /// The engine behind the bridge.
    pub closed spec fn bridge_impl(&self) -> B {
        self.bridge_impl
    }

    /// Puts an engine behind a bridge.
    pub fn new(bridge_impl: B) -> (engine: Self)
        ensures
            engine.bridge_impl() == bridge_impl,
    {
        WebExtStorageBridgedEngine { bridge_impl }
    }

    /// The time of the last sync, in milliseconds.
    pub fn last_sync(&self) -> (step: Step<B::Host>)
        ensures
            self.bridge_impl().starts(Request::LastSync, step@),
            call_ensures(B::last_sync, (&self.bridge_impl(),), step),
    {
        self.bridge_impl.last_sync()
    }

    /// Sets the time of the last sync.
    pub fn set_last_sync(&self, last_sync: i64) -> (step: Step<B::Host>)
        ensures
            self.bridge_impl().starts(Request::SetLastSync(last_sync), step@),
            call_ensures(B::set_last_sync, (&self.bridge_impl(), last_sync), step),
    {
        self.bridge_impl.set_last_sync(last_sync)
    }

    /// The sync ID, if there is one.
    pub fn sync_id(&self) -> (step: Step<B::Host>)
        ensures
            self.bridge_impl().starts(Request::SyncId, step@),
            call_ensures(B::sync_id, (&self.bridge_impl(),), step),
    {
        self.bridge_impl.sync_id()
    }

    /// Resets the engine under a new sync ID, and answers that ID.
    pub fn reset_sync_id(&self) -> (step: Step<B::Host>)
        ensures
            self.bridge_impl().starts(Request::ResetSyncId, step@),
            call_ensures(B::reset_sync_id, (&self.bridge_impl(),), step),
    {
        self.bridge_impl.reset_sync_id()
    }

    /// Makes sure that this is the sync ID.
    pub fn ensure_current_sync_id(&self, sync_id: &str) -> (step: Step<B::Host>)
        ensures
            self.bridge_impl().starts(Request::EnsureCurrentSyncId(sync_id@), step@),
            call_ensures(B::ensure_current_sync_id, (&self.bridge_impl(), sync_id), step),
    {
        self.bridge_impl.ensure_current_sync_id(sync_id)
    }

    /// Tells the engine about the clients that take part in the sync.
    pub fn prepare_for_sync(&self, client_data: &str) -> (step: Step<B::Host>)
        ensures
            self.bridge_impl().starts(Request::PrepareForSync(client_data@), step@),
            call_ensures(B::prepare_for_sync, (&self.bridge_impl(), client_data), step),
    {
        self.bridge_impl.prepare_for_sync(client_data)
    }

    /// Stages incoming records. If one does not parse, the engine is not asked.
    pub fn store_incoming(&self, incoming: Vec<String>) -> (step: Step<B::Host>)
        ensures
            exists|parsed: Result<
                Seq<<B::Host as SyncHost>::IncomingBso>,
                <B::Host as SyncHost>::Cause,
            >|
                {
                    &&& #[trigger] parses::<B::Host>(incoming@, parsed)
                    &&& match parsed {
                        Ok(bsos) => {
                            &&& self.bridge_impl().starts(Request::StoreIncoming(bsos), step@)
                            &&& exists|list: Vec<<B::Host as SyncHost>::IncomingBso>|
                                list@ == bsos && #[trigger] call_ensures(
                                    B::store_incoming,
                                    (&self.bridge_impl(), list),
                                    step,
                                )
                        },
                        Err(cause) => step@ == StepView::<B::Host>::failed(cause),
                    }
                },
    {
        let parsed = self.convert_incoming_bsos(incoming);
        assert(parses::<B::Host>(incoming@, items_view(parsed)));
        match parsed {
            Ok(bsos) => self.bridge_impl.store_incoming(bsos),
            Err(cause) => Step::Done(Err(Failure::Step(cause))),
        }
    }

    /// Applies the staged records. [`Self::applied`] turns the records that the
    /// engine answers into text.
    pub fn apply(&self) -> (step: Step<B::Host>)
        ensures
            self.bridge_impl().starts(Request::Apply, step@),
            call_ensures(B::apply, (&self.bridge_impl(),), step),
    {
        self.bridge_impl.apply()
    }

    /// The end of `apply`: the records to upload, each as JSON text, or the first
    /// failure.
    pub fn applied(
        &self,
        outcome: Result<
            Vec<<B::Host as SyncHost>::OutgoingBso>,
            Failure<<B::Host as SyncHost>::Cause>,
        >,
    ) -> (result: Result<Vec<String>, Failure<<B::Host as SyncHost>::Cause>>)
        ensures
            texts_of::<B::Host>(items_view(outcome), items_view(result)),
    {
        match outcome {
            Ok(records) => match self.convert_outgoing_bsos(records) {
                Ok(texts) => Ok(texts),
                Err(cause) => Err(Failure::Step(cause)),
            },
            Err(failure) => Err(failure),
        }
    }

    /// Notes that these records were uploaded.
    pub fn set_uploaded(
        &self,
        server_modified_millis: i64,
        guids: Vec<<B::Host as SyncHost>::Guid>,
    ) -> (step: Step<B::Host>)
        ensures
            self.bridge_impl().starts(Request::SetUploaded(server_modified_millis, guids@), step@),
            call_ensures(
                B::set_uploaded,
                (&self.bridge_impl(), server_modified_millis, guids),
                step,
            ),
    {
        self.bridge_impl.set_uploaded(server_modified_millis, guids)
    }

    /// Tells the engine that a sync starts.
    pub fn sync_started(&self) -> (step: Step<B::Host>)
        ensures
            self.bridge_impl().starts(Request::SyncStarted, step@),
            call_ensures(B::sync_started, (&self.bridge_impl(),), step),
    {
        self.bridge_impl.sync_started()
    }

    /// Tells the engine that the sync is over.
    pub fn sync_finished(&self) -> (step: Step<B::Host>)
        ensures
            self.bridge_impl().starts(Request::SyncFinished, step@),
            call_ensures(B::sync_finished, (&self.bridge_impl(),), step),
    {
        self.bridge_impl.sync_finished()
    }

    /// Resets all sync state, and keeps the data.
    pub fn reset(&self) -> (step: Step<B::Host>)
        ensures
            self.bridge_impl().starts(Request::Reset, step@),
            call_ensures(B::reset, (&self.bridge_impl(),), step),
    {
        self.bridge_impl.reset()
    }

    /// Wipes all data.
    pub fn wipe(&self) -> (step: Step<B::Host>)
        ensures
            self.bridge_impl().starts(Request::Wipe, step@),
            call_ensures(B::wipe, (&self.bridge_impl(),), step),
    {
        self.bridge_impl.wipe()
    }

    /// Reads each record from its JSON text, up to the first that is refused.
    pub fn convert_incoming_bsos(&self, incoming: Vec<String>) -> (result: Result<
        Vec<<B::Host as SyncHost>::IncomingBso>,
        <B::Host as SyncHost>::Cause,
    >)
        ensures
            parses::<B::Host>(incoming@, items_view(result)),
    {
        let mut bsos: Vec<<B::Host as SyncHost>::IncomingBso> = Vec::with_capacity(incoming.len());
        for inc in texts: incoming
            invariant
                texts.seq() == incoming@,
                bsos@.len() == texts.index(),
                parses_each::<B::Host>(incoming@, bsos@),
        {
            match B::Host::parse_incoming(inc) {
                Ok(bso) => {
                    bsos.push(bso);
                },
                Err(cause) => {
                    return Err(cause);
                },
            }
        }
        Ok(bsos)
    }

    /// Writes each record as JSON text, up to the first that is refused.
    pub fn convert_outgoing_bsos(&self, outgoing: Vec<<B::Host as SyncHost>::OutgoingBso>) -> (result:
        Result<Vec<String>, <B::Host as SyncHost>::Cause>)
        ensures
            serializes::<B::Host>(outgoing@, items_view(result)),
    {
        let mut bsos: Vec<String> = Vec::with_capacity(outgoing.len());
        for e in records: outgoing
            invariant
                records.seq() == outgoing@,
                bsos@.len() == records.index(),
                serializes_each::<B::Host>(outgoing@, bsos@),
        {
            match B::Host::serialize_outgoing(e) {
                Ok(bso) => {
                    bsos.push(bso);
                },
                Err(cause) => {
                    return Err(cause);
                },
            }
        }
        Ok(bsos)
    }
}

} // verus!
