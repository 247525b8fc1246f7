//! Runs in faithful surroundings: what the pipeline does, start to
//! end, when every action succeeds and is answered truthfully. The cache
//! laws are stated and proved here.

use crate::cache::{read_if_valid, written};
use crate::config::Config;
use crate::error::Failure;
use crate::link::resolve_model;
use crate::pipeline::{opening, transition, ActionView, EventView, StateView};
use vstd::prelude::*;

verus! {

/// Everything a run can observe of its surroundings.
pub struct World {
    /// Markup of the listing page.
    pub page: Seq<char>,
    /// Length that the document's metadata advertises, if any.
    pub advertised: Option<u64>,
    /// Bytes that a download of the document delivers.
    pub document: Seq<u8>,
    /// Bytes that the cache slot holds.
    pub slot: Seq<u8>,
}

impl World {
    /// The slot and the document have lengths that a byte count can hold.
    pub open spec fn wf(self) -> bool {
        &&& self.slot.len() <= u64::MAX
        &&& self.document.len() <= u64::MAX
    }

    /// The remote is what it says it is: the advertised length is the
    /// length of what a download delivers.
    pub open spec fn remote_is_honest(self) -> bool {
        self.advertised == Some(self.document.len() as u64)
    }

    /// The same surroundings with the slot holding `slot`.
    pub open spec fn with_slot(self, slot: Seq<u8>) -> World {
        World { slot, ..self }
    }
}

/// What carrying out `action` in `world` brings back, and the world it
/// leaves; nothing where there is nothing to carry out. Only a write
/// changes the world.
pub open spec fn answer(world: World, action: ActionView) -> Option<(EventView, World)> {
    match action {
        ActionView::FetchPage { .. } => Some((EventView::PageLoaded { html: world.page }, world)),
        ActionView::ProbeLength { .. } => Some(
            (EventView::LengthProbed { advertised: world.advertised }, world),
        ),
        ActionView::InspectCache => Some(
            (EventView::CacheInspected { stored_length: world.slot.len() as u64 }, world),
        ),
        ActionView::ReadCache => Some((EventView::CacheRead { bytes: world.slot }, world)),
        ActionView::Download { .. } => Some(
            (EventView::Downloaded { bytes: world.document }, world),
        ),
        ActionView::WriteCache { bytes } => Some(
            (EventView::CacheWritten, world.with_slot(written(world.slot, bytes))),
        ),
        ActionView::Stop => None,
    }
}

/// A run that has come to rest.
pub struct Run {
    /// Where the run ended.
    pub state: StateView,
    /// The world it left behind.
    pub world: World,
    /// The actions it carried out, oldest first.
    pub actions: Seq<ActionView>,
}

/// How many actions a run that awaits an answer in `state` can still ask
/// for, at most.
pub open spec fn steps_left(state: StateView) -> nat {
    match state {
        StateView::ResolvingLink => 4,
        StateView::ProbingLength { .. } => 3,
        StateView::CheckingCache { .. } => 2,
        StateView::Fetching { .. } => 1,
        StateView::ServingFromCache => 0,
        StateView::Storing { .. } => 0,
        StateView::Done { .. } => 0,
        StateView::Failed { .. } => 0,
    }
}

/// Carries out `action` and every action after it, until the pipeline asks
/// for nothing more.
pub open spec fn drive(
    config: Config,
    state: StateView,
    action: ActionView,
    world: World,
    actions: Seq<ActionView>,
) -> Run
    decreases steps_left(state), (if action is Stop { 0nat } else { 1nat }),
{
    match answer(world, action) {
        None => Run { state, world, actions },
        Some((event, world_after)) => {
            let (next_state, next_action) = transition(config, state, event);
            drive(config, next_state, next_action, world_after, actions.push(action))
        },
    }
}

/// One whole run in `world`, from the request for the listing page on.
pub open spec fn run(config: Config, world: World) -> Run {
    drive(config, opening(config).0, opening(config).1, world, Seq::empty())
}

/// The address of the document that `world`'s listing page links to, where
/// the configured pattern finds it.
pub open spec fn document_of(config: Config, world: World) -> Seq<char> {
    config.document_address(resolve_model(world.page, config.pattern_text())->Ok_0)
}

/// The actions of a run that is served from the cache.
pub open spec fn served_actions(config: Config, world: World) -> Seq<ActionView> {
    seq![
        ActionView::FetchPage { url: config.page_address() },
        ActionView::ProbeLength { url: document_of(config, world) },
        ActionView::InspectCache,
        ActionView::ReadCache,
    ]
}

/// The actions of a run that fetches the document and stores it.
pub open spec fn fetched_actions(config: Config, world: World) -> Seq<ActionView> {
    seq![
        ActionView::FetchPage { url: config.page_address() },
        ActionView::ProbeLength { url: document_of(config, world) },
        ActionView::InspectCache,
        ActionView::Download {
            url: document_of(config, world),
            expected_length: world.advertised->0,
        },
        ActionView::WriteCache { bytes: world.document },
    ]
}

/// A slot as long as the document is expected to be is a hit: the run hands
/// out the slot's contents, fetches nothing and leaves the world as it was.
pub proof fn lemma_valid_slot_is_served(config: Config, world: World)
    requires
        world.wf(),
        resolve_model(world.page, config.pattern_text()) is Ok,
        world.advertised is Some,
        world.slot.len() == world.advertised->0,
    ensures
        read_if_valid(world.slot, world.advertised->0) == Some(world.slot),
        run(config, world).state == (StateView::Done { bytes: world.slot }),
        run(config, world).world == world,
        run(config, world).actions == served_actions(config, world),
{
    reveal_with_fuel(drive, 6);
    assert(run(config, world).actions =~= served_actions(config, world));
}

/// A slot whose length differs from the length the document now has is a
/// miss: the run fetches the document, and the slot ends up holding the new
/// bytes in full, with nothing left of the old ones.
pub proof fn lemma_stale_slot_is_replaced(config: Config, world: World)
    requires
        world.wf(),
        resolve_model(world.page, config.pattern_text()) is Ok,
        world.advertised is Some,
        world.slot.len() != world.advertised->0,
    ensures
        read_if_valid(world.slot, world.advertised->0) is None,
        run(config, world).state == (StateView::Done { bytes: world.document }),
        run(config, world).world == world.with_slot(world.document),
        run(config, world).actions == fetched_actions(config, world),
{
    reveal_with_fuel(drive, 6);
    assert(run(config, world).actions =~= fetched_actions(config, world));
}

/// Two runs in a row against a remote that does not change and is what it
/// says it is: the second is served from the cache, with the very bytes the
/// first run returned, and fetches nothing.
pub proof fn lemma_second_run_is_served(config: Config, world: World)
    requires
        world.wf(),
        resolve_model(world.page, config.pattern_text()) is Ok,
        world.remote_is_honest(),
    ensures
        ({
            let first = run(config, world);
            let second = run(config, first.world);
            &&& first.state is Done
            &&& read_if_valid(first.world.slot, world.advertised->0) == Some(first.state->Done_bytes)
            &&& second.state == first.state
            &&& second.world == first.world
            &&& second.actions == served_actions(config, world)
        }),
{
    if world.slot.len() == world.advertised->0 {
        lemma_valid_slot_is_served(config, world);
    } else {
        lemma_stale_slot_is_replaced(config, world);
        lemma_valid_slot_is_served(config, world.with_slot(world.document));
    }
}

/// Without a link there is no run: a page in which the pattern finds no
/// document ends the run after the page request, with the resolver's
/// failure, and the slot is never touched.
pub proof fn lemma_unresolved_page_stops_the_run(config: Config, world: World)
    requires
        resolve_model(world.page, config.pattern_text()) is Err,
    ensures
        run(config, world).state == (StateView::Failed {
            error: resolve_model(world.page, config.pattern_text())->Err_0,
        }),
        run(config, world).world == world,
        run(config, world).actions == seq![ActionView::FetchPage { url: config.page_address() }],
{
    reveal_with_fuel(drive, 3);
    assert(run(config, world).actions =~= seq![
        ActionView::FetchPage { url: config.page_address() },
    ]);
}

/// Without a definite length there is no cache decision: the run ends after
/// the probe with `MissingLength`, and neither a fetch nor a cache
/// operation is attempted.
pub proof fn lemma_missing_length_stops_the_run(config: Config, world: World)
    requires
        resolve_model(world.page, config.pattern_text()) is Ok,
        world.advertised is None,
    ensures
        run(config, world).state == (StateView::Failed {
            error: Failure::MissingLength { url: document_of(config, world) },
        }),
        run(config, world).world == world,
        run(config, world).actions == seq![
            ActionView::FetchPage { url: config.page_address() },
            ActionView::ProbeLength { url: document_of(config, world) },
        ],
{
    reveal_with_fuel(drive, 4);
    assert(run(config, world).actions =~= seq![
        ActionView::FetchPage { url: config.page_address() },
        ActionView::ProbeLength { url: document_of(config, world) },
    ]);
}

} // verus!
