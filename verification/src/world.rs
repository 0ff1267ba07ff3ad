//! What surrounds a cycle, as a model: the feed, the network, the store and
//! the desktop. The model answers each request as a faithful caller would and
//! records what the request changed, so that whole cycles can be reasoned
//! about, not only single steps.

use vstd::prelude::*;
use crate::artifact::{wallpaper_path, LocalPathView, WallpaperInfoView};
use crate::cycle::{
    ensured, next, start, CacheError, CycleView, OutcomeView, RequestView, ResponseView, StepView,
};
use crate::mode::RefreshMode;

verus! {

/// The surroundings at one moment.
pub ghost struct World {
    /// What each feed announces; a mode without an entry fails to resolve.
    pub feed: Map<RefreshMode, WallpaperInfoView>,
    /// The bytes behind each address; an address without an entry fails to
    /// download.
    pub images: Map<Seq<char>, Seq<u8>>,
    /// The artifacts that exist.
    pub store: Set<LocalPathView>,
    /// Whether the store takes a write.
    pub writable: bool,
    /// Whether the desktop takes a wallpaper.
    pub appliable: bool,
    /// How many downloads of image bytes were asked for so far.
    pub downloads: nat,
    /// The artifact that the desktop shows, if one was applied.
    pub desktop: Option<LocalPathView>,
}

/// The answer that the surroundings give to a request.
pub open spec fn answer(world: World, request: RequestView) -> ResponseView {
    match request {
        RequestView::Resolve { mode } => ResponseView::Resolved(
            if world.feed.contains_key(mode) {
                Some(world.feed[mode])
            } else {
                None
            },
        ),
        RequestView::Probe { path } => ResponseView::Probed(world.store.contains(path)),
        RequestView::Download { url } => ResponseView::Downloaded(
            if world.images.contains_key(url) {
                Some(world.images[url])
            } else {
                None
            },
        ),
        RequestView::Persist { path, bytes } => ResponseView::Persisted(world.writable),
        RequestView::Apply { path } => ResponseView::Applied(world.appliable),
    }
}

/// The surroundings after a request was carried out.
pub open spec fn after(world: World, request: RequestView) -> World {
    match request {
        RequestView::Resolve { mode } => world,
        RequestView::Probe { path } => world,
        RequestView::Download { url } => World { downloads: world.downloads + 1, ..world },
        RequestView::Persist { path, bytes } => if world.writable {
            World { store: world.store.insert(path), ..world }
        } else {
            world
        },
        RequestView::Apply { path } => if world.appliable {
            World { desktop: Some(path), ..world }
        } else {
            world
        },
    }
}

/// How many requests a step may still lead to.
pub open spec fn requests_left(step: StepView) -> nat {
    match step {
        StepView::Finish(_) => 0,
        StepView::Ask(CycleView::Resolving { .. }, _) => 5,
        StepView::Ask(CycleView::Probing { .. }, _) => 4,
        StepView::Ask(CycleView::Downloading { .. }, _) => 3,
        StepView::Ask(CycleView::Persisting { .. }, _) => 2,
        StepView::Ask(CycleView::Applying { .. }, _) => 1,
    }
}

/// A cycle that ran to its end: how it ended and what it left behind.
pub ghost struct Run {
    pub outcome: OutcomeView,
    pub world: World,
}

/// Runs a cycle from `step` to its end, each request answered by the
/// surroundings as they are when it is made.
pub open spec fn run_from(step: StepView, world: World) -> Run
    decreases requests_left(step),
{
    match step {
        StepView::Finish(outcome) => Run { outcome, world },
        StepView::Ask(cycle, request) => run_from(
            next(cycle, answer(world, request)),
            after(world, request),
        ),
    }
}

/// A whole cycle for `mode` over the store directory `dir`.
pub open spec fn run(force: bool, mode: RefreshMode, dir: Seq<char>, world: World) -> Run {
    run_from(start(force, mode, Some(dir)), world)
}

/// What a whole cycle comes to, said at once. The feed is asked first; an
/// unforced cycle stops at an artifact that is there; the download is counted
/// when it is asked for, whether or not it succeeds; the write adds the
/// artifact to the store; the desktop changes only when it takes the image.
pub open spec fn cycle_result(force: bool, mode: RefreshMode, dir: Seq<char>, world: World) -> Run {
    if mode == RefreshMode::Off || !world.feed.contains_key(mode) {
        Run { outcome: OutcomeView::Failed(CacheError::IdentityResolutionFailed), world }
    } else {
        let info = world.feed[mode];
        let path = wallpaper_path(dir, info.identity);
        let asked = World { downloads: world.downloads + 1, ..world };
        let stored = World { store: world.store.insert(path), ..asked };
        if !force && world.store.contains(path) {
            Run { outcome: OutcomeView::CacheHit(path), world }
        } else if !world.images.contains_key(info.url) {
            Run { outcome: OutcomeView::Failed(CacheError::DownloadFailed), world: asked }
        } else if !world.writable {
            Run { outcome: OutcomeView::Failed(CacheError::PersistFailed), world: asked }
        } else if !world.appliable {
            Run { outcome: OutcomeView::ApplyFailed(path), world: stored }
        } else {
            Run { outcome: OutcomeView::Refreshed(path), world: World { desktop: Some(path), ..stored } }
        }
    }
}

/// Step by step, a cycle comes to what `cycle_result` says.
pub proof fn lemma_run_is_cycle_result(force: bool, mode: RefreshMode, dir: Seq<char>, world: World)
    ensures
        run(force, mode, dir, world) == cycle_result(force, mode, dir, world),
{
    reveal_with_fuel(run_from, 6);
}

/// An unforced cycle that finds the artifact of the announced identity in the
/// store ends as a cache hit and changes nothing: no download, no write, no
/// new wallpaper.
pub proof fn lemma_unforced_cycle_hits(mode: RefreshMode, dir: Seq<char>, world: World)
    requires
        mode != RefreshMode::Off,
        world.feed.contains_key(mode),
        world.store.contains(wallpaper_path(dir, world.feed[mode].identity)),
    ensures
        run(false, mode, dir, world) == (Run {
            outcome: OutcomeView::CacheHit(wallpaper_path(dir, world.feed[mode].identity)),
            world,
        }),
{
    lemma_run_is_cycle_result(false, mode, dir, world);
}

/// Two unforced cycles in a row, the feed announcing the same identity to
/// both: when the first one brought the artifact into the store, the second
/// is a cache hit and downloads nothing, whatever else has changed in between.
/// Together they download once where the artifact was missing at first, and
/// not at all where it was there.
pub proof fn lemma_unforced_cycles_download_once(
    mode: RefreshMode,
    dir: Seq<char>,
    first: World,
    second: World,
)
    requires
        mode != RefreshMode::Off,
        first.feed.contains_key(mode),
        ensured(run(false, mode, dir, first).outcome) is Ok,
        second.feed.contains_key(mode),
        second.feed[mode].identity == first.feed[mode].identity,
        second.store == run(false, mode, dir, first).world.store,
        second.downloads == run(false, mode, dir, first).world.downloads,
    ensures
        run(false, mode, dir, second).outcome == OutcomeView::CacheHit(
            wallpaper_path(dir, first.feed[mode].identity),
        ),
        run(false, mode, dir, second).world == second,
        run(false, mode, dir, second).world.downloads == first.downloads + (if first.store.contains(
            wallpaper_path(dir, first.feed[mode].identity),
        ) {
            0nat
        } else {
            1nat
        }),
{
    lemma_run_is_cycle_result(false, mode, dir, first);
    lemma_run_is_cycle_result(false, mode, dir, second);
}

/// A forced cycle asks for the image bytes exactly once as soon as the feed
/// announces a wallpaper, also where its artifact is in the store already,
/// and never ends as a cache hit.
pub proof fn lemma_forced_cycle_downloads(mode: RefreshMode, dir: Seq<char>, world: World)
    requires
        mode != RefreshMode::Off,
        world.feed.contains_key(mode),
    ensures
        run(true, mode, dir, world).world.downloads == world.downloads + 1,
        !(run(true, mode, dir, world).outcome is CacheHit),
{
    lemma_run_is_cycle_result(true, mode, dir, world);
}

/// A cycle downloads at most once, and only an unforced one that finds the
/// artifact, or one that the feed leaves without an answer, downloads nothing.
pub proof fn lemma_cycle_downloads_at_most_once(
    force: bool,
    mode: RefreshMode,
    dir: Seq<char>,
    world: World,
)
    ensures
        world.downloads <= run(force, mode, dir, world).world.downloads <= world.downloads + 1,
        run(force, mode, dir, world).world.downloads == world.downloads <==> (mode
            == RefreshMode::Off || !world.feed.contains_key(mode) || (!force
            && world.store.contains(wallpaper_path(dir, world.feed[mode].identity)))),
{
    lemma_run_is_cycle_result(force, mode, dir, world);
}

/// Where feed, network, store and desktop all do their part, a forced cycle
/// ends with the artifact of the announced identity written and shown.
pub proof fn lemma_forced_cycle_refreshes(mode: RefreshMode, dir: Seq<char>, world: World)
    requires
        mode != RefreshMode::Off,
        world.feed.contains_key(mode),
        world.images.contains_key(world.feed[mode].url),
        world.writable,
        world.appliable,
    ensures
        ({
            let path = wallpaper_path(dir, world.feed[mode].identity);
            let end = run(true, mode, dir, world);
            &&& end.outcome == OutcomeView::Refreshed(path)
            &&& end.world.store == world.store.insert(path)
            &&& end.world.desktop == Some(path)
            &&& end.world.downloads == world.downloads + 1
        }),
{
    lemma_run_is_cycle_result(true, mode, dir, world);
}

/// A cycle never takes an artifact out of the store, and what it adds is the
/// artifact of the identity that the feed announced.
pub proof fn lemma_cycle_only_adds_its_artifact(
    force: bool,
    mode: RefreshMode,
    dir: Seq<char>,
    world: World,
)
    ensures
        ({
            let end = run(force, mode, dir, world);
            &&& world.store.subset_of(end.world.store)
            &&& end.world.store != world.store ==> world.feed.contains_key(mode)
                && end.world.store == world.store.insert(
                wallpaper_path(dir, world.feed[mode].identity),
            )
            &&& ensured(end.outcome) is Ok ==> world.feed.contains_key(mode) && ensured(end.outcome)
                == Ok::<LocalPathView, CacheError>(wallpaper_path(dir, world.feed[mode].identity))
                && end.world.store.contains(wallpaper_path(dir, world.feed[mode].identity))
        }),
{
    lemma_run_is_cycle_result(force, mode, dir, world);
}

} // verus!
