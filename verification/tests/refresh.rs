use std::collections::{BTreeMap, BTreeSet};

use wallpaper_refresh::artifact::{LocalPath, WallpaperInfo};
use wallpaper_refresh::controller::{
    ControllerError, ControllerState, Effect, PollerHandle, Transition,
};
use wallpaper_refresh::cycle::{CacheError, Cycle, CycleError, Outcome, Request, Response, Step};
use wallpaper_refresh::mode::RefreshMode;

const DIR: &str = "/home/user/.bing-wallpaper-client";

/// A feed, a network, a store and a desktop in memory.
struct Desk {
    identity: Option<String>,
    url: String,
    image: Option<Vec<u8>>,
    store: BTreeMap<(String, String), Vec<u8>>,
    writable: bool,
    appliable: bool,
    downloads: usize,
    probes: usize,
    resolutions: usize,
    applied: Vec<LocalPath>,
}

impl Desk {
    fn healthy(identity: &str) -> Desk {
        Desk {
            identity: Some(identity.to_string()),
            url: format!("https://img.example/{identity}"),
            image: Some(vec![0xff, 0xd8, 0xff, 0xe0]),
            store: BTreeMap::new(),
            writable: true,
            appliable: true,
            downloads: 0,
            probes: 0,
            resolutions: 0,
            applied: Vec::new(),
        }
    }

    fn answer(&mut self, request: Request) -> Response {
        match request {
            Request::Resolve { .. } => {
                self.resolutions += 1;
                Response::Resolved(self.identity.clone().map(|file_name| WallpaperInfo {
                    file_name,
                    url: self.url.clone(),
                }))
            }
            Request::Probe { path } => {
                self.probes += 1;
                Response::Probed(self.store.contains_key(&(path.dir, path.file_name)))
            }
            Request::Download { url } => {
                self.downloads += 1;
                assert_eq!(url, self.url);
                Response::Downloaded(self.image.clone())
            }
            Request::Persist { path, bytes } => {
                if self.writable {
                    self.store.insert((path.dir, path.file_name), bytes);
                }
                Response::Persisted(self.writable)
            }
            Request::Apply { path } => {
                if self.appliable {
                    self.applied.push(path);
                }
                Response::Applied(self.appliable)
            }
        }
    }

    fn cycle(&mut self, force: bool, mode: RefreshMode) -> Outcome {
        let mut step = Cycle::begin(force, mode, Some(DIR));
        loop {
            match step {
                Step::Finish(outcome) => return outcome,
                Step::Ask(cycle, request) => {
                    let response = self.answer(request);
                    step = cycle.advance(response);
                }
            }
        }
    }

    fn has(&self, file_name: &str) -> bool {
        self.store.contains_key(&(DIR.to_string(), file_name.to_string()))
    }
}

/// The workers and reports that the effects of toggles leave behind.
struct Workers {
    live: BTreeSet<u64>,
    log: Vec<Effect>,
    reports: Vec<CycleError>,
}

impl Workers {
    fn none() -> Workers {
        Workers { live: BTreeSet::new(), log: Vec::new(), reports: Vec::new() }
    }

    fn carry_out(&mut self, transition: &Transition, desk: &mut Desk) {
        for effect in transition.effects.iter() {
            self.log.push(*effect);
            match *effect {
                Effect::StopPoller(handle) => {
                    assert!(self.live.remove(&handle.serial));
                }
                Effect::ForcedCycle(mode) => {
                    if let Some(error) = desk.cycle(true, mode).failure() {
                        self.reports.push(error);
                    }
                }
                Effect::StartPoller(handle) => {
                    assert!(self.live.insert(handle.serial));
                }
            }
        }
    }
}

fn path(file_name: &str) -> LocalPath {
    LocalPath { dir: DIR.to_string(), file_name: file_name.to_string() }
}

#[test]
fn unforced_cycles_download_once() {
    let mut desk = Desk::healthy("2024-01-01");
    let first = desk.cycle(false, RefreshMode::RegionA);
    assert_eq!(first, Outcome::Refreshed(path("2024-01-01.jpg")));
    assert_eq!(desk.downloads, 1);
    let second = desk.cycle(false, RefreshMode::RegionA);
    assert_eq!(second, Outcome::CacheHit(path("2024-01-01.jpg")));
    assert_eq!(desk.downloads, 1);
    assert_eq!(desk.resolutions, 2);
    assert_eq!(desk.applied, vec![path("2024-01-01.jpg")]);
}

#[test]
fn unforced_cycle_downloads_a_new_identity() {
    let mut desk = Desk::healthy("2024-01-01");
    desk.cycle(false, RefreshMode::RegionB);
    desk.identity = Some("2024-01-02".to_string());
    let outcome = desk.cycle(false, RefreshMode::RegionB);
    assert_eq!(outcome, Outcome::Refreshed(path("2024-01-02.jpg")));
    assert_eq!(desk.downloads, 2);
    assert!(desk.has("2024-01-01.jpg"));
    assert!(desk.has("2024-01-02.jpg"));
}

#[test]
fn cache_hit_still_asks_the_feed() {
    let mut desk = Desk::healthy("2024-01-01");
    desk.store.insert((DIR.to_string(), "2024-01-01.jpg".to_string()), vec![1]);
    let outcome = desk.cycle(false, RefreshMode::RegionA);
    assert_eq!(outcome, Outcome::CacheHit(path("2024-01-01.jpg")));
    assert_eq!(desk.resolutions, 1);
    assert_eq!(desk.probes, 1);
    assert_eq!(desk.downloads, 0);
    assert!(desk.applied.is_empty());
    assert_eq!(desk.store[&(DIR.to_string(), "2024-01-01.jpg".to_string())], vec![1]);
}

#[test]
fn forced_cycle_downloads_again() {
    let mut desk = Desk::healthy("2024-01-01");
    desk.store.insert((DIR.to_string(), "2024-01-01.jpg".to_string()), vec![1]);
    let outcome = desk.cycle(true, RefreshMode::RegionA);
    assert_eq!(outcome, Outcome::Refreshed(path("2024-01-01.jpg")));
    assert_eq!(desk.downloads, 1);
    assert_eq!(desk.probes, 0);
    assert_eq!(
        desk.store[&(DIR.to_string(), "2024-01-01.jpg".to_string())],
        vec![0xff, 0xd8, 0xff, 0xe0]
    );
    let again = desk.cycle(true, RefreshMode::RegionA);
    assert_eq!(again, Outcome::Refreshed(path("2024-01-01.jpg")));
    assert_eq!(desk.downloads, 2);
}

#[test]
fn cycle_reports_each_failure() {
    let mut desk = Desk::healthy("2024-01-01");
    desk.identity = None;
    let outcome = desk.cycle(false, RefreshMode::RegionA);
    assert_eq!(outcome, Outcome::Failed(CacheError::IdentityResolutionFailed));
    assert_eq!(outcome.failure(), Some(CycleError::Cache(CacheError::IdentityResolutionFailed)));
    assert_eq!(outcome.wallpaper(), Err(CacheError::IdentityResolutionFailed));
    assert_eq!(desk.downloads, 0);

    let mut desk = Desk::healthy("2024-01-01");
    desk.image = None;
    let outcome = desk.cycle(false, RefreshMode::RegionA);
    assert_eq!(outcome, Outcome::Failed(CacheError::DownloadFailed));
    assert_eq!(outcome.failure(), Some(CycleError::Cache(CacheError::DownloadFailed)));
    assert_eq!(desk.downloads, 1);
    assert!(!desk.has("2024-01-01.jpg"));

    let mut desk = Desk::healthy("2024-01-01");
    desk.writable = false;
    let outcome = desk.cycle(true, RefreshMode::RegionB);
    assert_eq!(outcome, Outcome::Failed(CacheError::PersistFailed));
    assert_eq!(outcome.failure(), Some(CycleError::Cache(CacheError::PersistFailed)));
    assert!(desk.applied.is_empty());

    let mut desk = Desk::healthy("2024-01-01");
    desk.appliable = false;
    let outcome = desk.cycle(true, RefreshMode::RegionB);
    assert_eq!(outcome, Outcome::ApplyFailed(path("2024-01-01.jpg")));
    assert_eq!(outcome.failure(), Some(CycleError::ApplyFailed));
    assert_eq!(outcome.wallpaper(), Ok(path("2024-01-01.jpg")));
    assert!(desk.has("2024-01-01.jpg"));
}

#[test]
fn failed_download_is_tried_again_next_time() {
    let mut desk = Desk::healthy("2024-01-01");
    desk.image = None;
    assert_eq!(
        desk.cycle(false, RefreshMode::RegionA),
        Outcome::Failed(CacheError::DownloadFailed)
    );
    desk.image = Some(vec![7]);
    assert_eq!(
        desk.cycle(false, RefreshMode::RegionA),
        Outcome::Refreshed(path("2024-01-01.jpg"))
    );
    assert_eq!(desk.downloads, 2);
}

#[test]
fn cycle_for_off_fails_without_asking() {
    let mut desk = Desk::healthy("2024-01-01");
    let outcome = desk.cycle(true, RefreshMode::Off);
    assert_eq!(outcome, Outcome::Failed(CacheError::IdentityResolutionFailed));
    assert_eq!(desk.resolutions, 0);
    assert_eq!(desk.downloads, 0);
}

#[test]
fn cycle_without_a_store_directory_fails_without_asking() {
    assert_eq!(
        Cycle::begin(false, RefreshMode::RegionA, None),
        Step::Finish(Outcome::Failed(CacheError::IdentityResolutionFailed))
    );
    assert_eq!(
        Cycle::begin(true, RefreshMode::RegionB, None),
        Step::Finish(Outcome::Failed(CacheError::IdentityResolutionFailed))
    );
    assert_eq!(
        Cycle::begin(true, RefreshMode::RegionB, Some("")),
        Step::Ask(
            Cycle::Resolving { force: true, dir: String::new() },
            Request::Resolve { mode: RefreshMode::RegionB }
        )
    );
}

#[test]
fn answer_of_the_wrong_kind_fails_the_open_request() {
    let cycle = match Cycle::begin(false, RefreshMode::RegionA, Some(DIR)) {
        Step::Ask(cycle, Request::Resolve { mode: RefreshMode::RegionA }) => cycle,
        other => panic!("unexpected step {other:?}"),
    };
    assert_eq!(
        cycle.advance(Response::Probed(true)),
        Step::Finish(Outcome::Failed(CacheError::IdentityResolutionFailed))
    );
    let info = WallpaperInfo { file_name: "a".to_string(), url: "u".to_string() };
    let probing = Cycle::Probing { dir: DIR.to_string(), info };
    let info = WallpaperInfo { file_name: "a".to_string(), url: "u".to_string() };
    assert_eq!(
        probing.advance(Response::Persisted(true)),
        Step::Ask(
            Cycle::Downloading { dir: DIR.to_string(), info },
            Request::Download { url: "u".to_string() }
        )
    );
}

#[test]
fn toggle_end_to_end() {
    let mut desk = Desk::healthy("2024-01-01");
    let mut workers = Workers::none();
    let mut state = ControllerState::new();
    assert_eq!(state.mode(), RefreshMode::Off);
    assert_eq!(state.poller(), None);

    let transition = state.toggle(false, RefreshMode::RegionA).unwrap();
    workers.carry_out(&transition, &mut desk);

    assert_eq!(transition.mode, RefreshMode::RegionA);
    assert!(desk.has("2024-01-01.jpg"));
    assert_eq!(desk.downloads, 1);
    assert_eq!(desk.applied, vec![path("2024-01-01.jpg")]);
    assert_eq!(state.mode(), RefreshMode::RegionA);
    let handle = PollerHandle { mode: RefreshMode::RegionA, serial: 0 };
    assert_eq!(state.poller(), Some(handle));
    assert_eq!(workers.live.len(), 1);
    assert!(workers.reports.is_empty());
    assert_eq!(
        transition.effects,
        vec![Effect::ForcedCycle(RefreshMode::RegionA), Effect::StartPoller(handle)]
    );
}

#[test]
fn toggle_same_mode_twice_is_off() {
    let mut desk = Desk::healthy("2024-01-01");
    let mut workers = Workers::none();
    let mut state = ControllerState::new();
    let on = state.toggle(false, RefreshMode::RegionA).unwrap();
    workers.carry_out(&on, &mut desk);
    let off = state.toggle(false, RefreshMode::RegionA).unwrap();
    workers.carry_out(&off, &mut desk);
    assert_eq!(off.mode, RefreshMode::Off);
    assert_eq!(state.mode(), RefreshMode::Off);
    assert_eq!(state.poller(), None);
    assert!(workers.live.is_empty());
    assert_eq!(
        off.effects,
        vec![Effect::StopPoller(PollerHandle { mode: RefreshMode::RegionA, serial: 0 })]
    );
    assert_eq!(desk.downloads, 1);
}

#[test]
fn toggle_switches_directly() {
    let mut desk = Desk::healthy("2024-01-01");
    let mut workers = Workers::none();
    let mut state = ControllerState::new();
    let first = state.toggle(false, RefreshMode::RegionA).unwrap();
    workers.carry_out(&first, &mut desk);
    let second = state.toggle(false, RefreshMode::RegionB).unwrap();
    workers.carry_out(&second, &mut desk);
    let a = PollerHandle { mode: RefreshMode::RegionA, serial: 0 };
    let b = PollerHandle { mode: RefreshMode::RegionB, serial: 1 };
    assert_eq!(second.mode, RefreshMode::RegionB);
    assert_eq!(state.mode(), RefreshMode::RegionB);
    assert_eq!(state.poller(), Some(b));
    assert_eq!(
        second.effects,
        vec![Effect::StopPoller(a), Effect::ForcedCycle(RefreshMode::RegionB), Effect::StartPoller(b)]
    );
    let stop = workers.log.iter().position(|e| *e == Effect::StopPoller(a)).unwrap();
    let start = workers.log.iter().position(|e| *e == Effect::StartPoller(b)).unwrap();
    assert!(stop < start);
    assert_eq!(workers.live.iter().copied().collect::<Vec<u64>>(), vec![1]);
    assert_eq!(desk.downloads, 2);
}

#[test]
fn failed_forced_cycle_does_not_block_toggle() {
    let mut desk = Desk::healthy("2024-01-01");
    desk.identity = None;
    let mut workers = Workers::none();
    let mut state = ControllerState::new();
    let transition = state.toggle(false, RefreshMode::RegionB).unwrap();
    workers.carry_out(&transition, &mut desk);
    assert_eq!(transition.mode, RefreshMode::RegionB);
    assert_eq!(state.mode(), RefreshMode::RegionB);
    assert_eq!(state.poller(), Some(PollerHandle { mode: RefreshMode::RegionB, serial: 0 }));
    assert_eq!(workers.live.len(), 1);
    assert_eq!(workers.reports, vec![CycleError::Cache(CacheError::IdentityResolutionFailed)]);

    let mut desk = Desk::healthy("2024-01-01");
    desk.image = None;
    let mut workers = Workers::none();
    let mut state = ControllerState::new();
    let transition = state.toggle(false, RefreshMode::RegionA).unwrap();
    workers.carry_out(&transition, &mut desk);
    assert_eq!(state.mode(), RefreshMode::RegionA);
    assert!(state.poller().is_some());
    assert_eq!(workers.reports, vec![CycleError::Cache(CacheError::DownloadFailed)]);
}

#[test]
fn poisoned_lock_fails_the_toggle() {
    let mut state = ControllerState::new();
    state.toggle(false, RefreshMode::RegionA).unwrap();
    let result = state.toggle(true, RefreshMode::RegionB);
    assert_eq!(result, Err(ControllerError::LockPoisoned));
    assert_eq!(state.mode(), RefreshMode::RegionA);
    assert_eq!(state.poller(), Some(PollerHandle { mode: RefreshMode::RegionA, serial: 0 }));
}

#[test]
fn poller_is_stored_exactly_when_a_mode_is_active() {
    let requests = [
        RefreshMode::RegionA,
        RefreshMode::RegionB,
        RefreshMode::RegionB,
        RefreshMode::Off,
        RefreshMode::RegionA,
        RefreshMode::RegionA,
        RefreshMode::RegionB,
        RefreshMode::Off,
        RefreshMode::Off,
        RefreshMode::RegionA,
    ];
    let expected = [
        RefreshMode::RegionA,
        RefreshMode::RegionB,
        RefreshMode::Off,
        RefreshMode::Off,
        RefreshMode::RegionA,
        RefreshMode::Off,
        RefreshMode::RegionB,
        RefreshMode::Off,
        RefreshMode::Off,
        RefreshMode::RegionA,
    ];
    let mut desk = Desk::healthy("2024-01-01");
    let mut workers = Workers::none();
    let mut state = ControllerState::new();
    for (requested, mode) in requests.iter().zip(expected.iter()) {
        let transition = state.switch(*requested);
        workers.carry_out(&transition, &mut desk);
        assert_eq!(transition.mode, *mode);
        assert_eq!(state.mode(), *mode);
        assert_eq!(state.poller().is_some(), *mode != RefreshMode::Off);
        assert!(workers.live.len() <= 1);
        match state.poller() {
            Some(handle) => {
                assert_eq!(handle.mode, *mode);
                assert!(workers.live.contains(&handle.serial));
            }
            None => assert!(workers.live.is_empty()),
        }
    }
    assert_eq!(state.poller(), Some(PollerHandle { mode: RefreshMode::RegionA, serial: 4 }));
}

#[test]
fn shutdown_hands_back_the_poller() {
    let mut state = ControllerState::new();
    assert_eq!(state.shutdown(), None);
    assert_eq!(state.mode(), RefreshMode::Off);
    state.switch(RefreshMode::RegionB);
    let handle = PollerHandle { mode: RefreshMode::RegionB, serial: 0 };
    assert_eq!(state.shutdown(), Some(handle));
    assert_eq!(state.mode(), RefreshMode::Off);
    assert_eq!(state.poller(), None);
    assert_eq!(state.shutdown(), None);
    let again = state.switch(RefreshMode::RegionB);
    assert_eq!(again.mode, RefreshMode::RegionB);
    assert_eq!(state.poller(), Some(PollerHandle { mode: RefreshMode::RegionB, serial: 1 }));
}
