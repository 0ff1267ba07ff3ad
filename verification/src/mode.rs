//! The refresh mode and the feed that each mode reads.

use vstd::prelude::*;

verus! {

/// Seconds between two background refresh cycles.
pub const REFRESH_INTERVAL: u64 = 600;

/// Where the wallpaper of the day is announced for region A (China).
pub const CHINA_API_URL: &'static str = "https://bing.wdbyte.com/zh-cn/today";

/// Where the wallpaper of the day is announced for region B (the rest of the world).
pub const GLOBAL_API_URL: &'static str = "https://bing.wdbyte.com/today";

/// Which background refresh, if any, is active. `Off` is the initial mode and
/// the one in which no poller runs.
#[derive(Clone, Copy, Debug, PartialEq, Eq, Structural)]
pub enum RefreshMode {
    Off,
    RegionA,
    RegionB,
}

/// The mode that a request for `requested` leads to from `current`: asking
/// for the active mode again switches it off, asking for another one switches
/// to it directly.
pub open spec fn toggled(current: RefreshMode, requested: RefreshMode) -> RefreshMode {
    if current == requested {
        RefreshMode::Off
    } else {
        requested
    }
}

/// The feed address of a mode; `Off` reads no feed.
pub open spec fn feed_of(mode: RefreshMode) -> Option<Seq<char>> {
    match mode {
        RefreshMode::Off => None,
        RefreshMode::RegionA => Some(CHINA_API_URL@),
        RefreshMode::RegionB => Some(GLOBAL_API_URL@),
    }
}

impl RefreshMode {
    /// Whether a poller runs in this mode.
    pub fn is_active(self) -> (active: bool)
        ensures
            active == (self != RefreshMode::Off),
    {
        match self {
            RefreshMode::Off => false,
            _ => true,
        }
    }

    /// The mode after a request for `requested`.
    pub fn toggle(self, requested: RefreshMode) -> (next: RefreshMode)
        ensures
            next == toggled(self, requested),
    {
        if self == requested {
            RefreshMode::Off
        } else {
            requested
        }
    }

    /// The address at which this mode's feed announces the current wallpaper.
    pub fn feed_url(self) -> (url: Option<&'static str>)
        ensures
            url is Some == (self != RefreshMode::Off),
            match url {
                Some(u) => feed_of(self) == Some(u@),
                None => feed_of(self) is None,
            },
    {
        match self {
            RefreshMode::Off => None,
            RefreshMode::RegionA => Some(CHINA_API_URL),
            RefreshMode::RegionB => Some(GLOBAL_API_URL),
        }
    }
}

} // verus!
