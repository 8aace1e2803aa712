//! The fetch, render and input cycle as a state machine: the caller performs
//! each step that this module decides and hands back what came of it.

use vstd::prelude::*;
use crate::feed::{AppSettings, DDOSAttack, FeedError, log_line_text, log_lines};
use crate::layout::{Area, DashboardLayout, compute, panels_of};
use crate::projection::{Segment, country_for, kept_indices, known_flags, project_lines};
use crate::region::{
    RegionBounds, RegionSelector, REGION_COUNT, catalog_bounds, catalog_label, next_index,
    previous_index, region_labels,
};

verus! {

/// One input event, as far as the dashboard tells them apart.
#[derive(Clone, Copy, Debug, PartialEq, Eq, Structural)]
pub enum InputEvent {
    NavigatePrevious,
    NavigateNext,
    Quit,
    Other,
}

/// Whether the cache still waits for data.
#[derive(Clone, Copy, Debug, PartialEq, Eq, Structural)]
pub enum LoopState {
    NeedsData,
    HasData,
}

/// What an iteration does before it renders.
#[derive(Clone, Copy, Debug, PartialEq, Eq, Structural)]
pub enum IterationStart {
    /// Fetch once, hand the outcome to `accept_feed`, then render.
    Fetch,
    /// Render at once.
    Render,
}

/// What the loop does after an input event.
#[derive(Clone, Copy, Debug, PartialEq, Eq, Structural)]
pub enum AfterInput {
    Continue,
    Exit,
}

/// The index after an input event.
pub open spec fn index_after(i: int, e: InputEvent) -> int {
    match e {
        InputEvent::NavigatePrevious => previous_index(i),
        InputEvent::NavigateNext => next_index(i),
        _ => i,
    }
}

/// The cache after a fetch outcome: a refill replaces an empty cache
/// wholesale, a failure leaves it empty, and a cache that holds attacks is
/// never refilled.
pub open spec fn cache_after(cache: Seq<DDOSAttack>, outcome: Result<Vec<DDOSAttack>, FeedError>) -> Seq<DDOSAttack> {
    if cache.len() > 0 {
        cache
    } else {
        match outcome {
            Ok(v) => v@,
            Err(_) => Seq::empty(),
        }
    }
}

/// Everything one frame shows.
pub struct FrameContent {
    pub layout: DashboardLayout,
    pub labels: Vec<&'static str>,
    pub selected: usize,
    pub bounds: RegionBounds,
    pub log: Vec<String>,
    pub segments: Vec<Segment>,
    pub lookback_minutes: i64,
}

/// The state that the loop owns: region focus, attack cache and settings.
pub struct App {
    selector: RegionSelector,
    cache: Vec<DDOSAttack>,
    settings: AppSettings,
}

impl App {
    pub closed spec fn wf(&self) -> bool {
        self.selector.wf()
    }

    /// The focused region's index.
    pub closed spec fn index(&self) -> int {
        self.selector@
    }

    /// The cached attacks, in the order the feed ranked them.
    pub closed spec fn cached(&self) -> Seq<DDOSAttack> {
        self.cache@
    }

    pub closed spec fn lookback(&self) -> int {
        self.settings.lookback_minutes as int
    }

    /// A loop with an empty cache, focused on the first region.
    pub fn new(settings: AppSettings) -> (r: Self)
        ensures
            r.wf(),
            r.index() == 0,
            r.cached().len() == 0,
            r.lookback() == settings.lookback_minutes,
    {
        App { selector: RegionSelector::new(), cache: Vec::new(), settings }
    }

    pub fn state(&self) -> (r: LoopState)
        ensures
            r == LoopState::NeedsData <==> self.cached().len() == 0,
    {
        if self.cache.len() == 0 {
            LoopState::NeedsData
        } else {
            LoopState::HasData
        }
    }

    /// How an iteration begins: with exactly one fetch when the cache is
    /// empty, with none when it holds attacks.
    pub fn start_iteration(&self) -> (r: IterationStart)
        ensures
            r == IterationStart::Fetch <==> self.cached().len() == 0,
            r == IterationStart::Render <==> self.cached().len() > 0,
    {
        if self.cache.len() == 0 {
            IterationStart::Fetch
        } else {
            IterationStart::Render
        }
    }

    /// The cached attacks.
    pub fn cache(&self) -> (r: &Vec<DDOSAttack>)
        ensures
            r@ == self.cached(),
    {
        &self.cache
    }

    /// The focused region's index.
    pub fn selected_index(&self) -> (r: usize)
        requires
            self.wf(),
        ensures
            r == self.index(),
            r < REGION_COUNT,
    {
        self.selector.index()
    }

    /// The look-back to ask the feed for.
    pub fn lookback_minutes(&self) -> (r: i64)
        ensures
            r == self.lookback(),
    {
        self.settings.lookback_minutes
    }

    /// Takes the outcome of a fetch. An empty cache becomes the fetched
    /// attacks, or stays empty on failure or on an empty answer, so that the
    /// next iteration fetches again; a cache that holds attacks is kept.
    pub fn accept_feed(&mut self, outcome: Result<Vec<DDOSAttack>, FeedError>)
        requires
            old(self).wf(),
        ensures
            final(self).wf(),
            final(self).cached() == cache_after(old(self).cached(), outcome),
            final(self).index() == old(self).index(),
            final(self).lookback() == old(self).lookback(),
    {
        if self.cache.len() == 0 {
            match outcome {
                Ok(v) => {
                    self.cache = v;
                },
                Err(_) => {
                    self.cache = Vec::new();
                },
            }
        }
    }

    /// Routes an input event: the navigation keys move the region focus,
    /// the quit key ends the loop, and anything else is ignored.
    pub fn handle_input(&mut self, event: InputEvent) -> (r: AfterInput)
        requires
            old(self).wf(),
        ensures
            final(self).wf(),
            final(self).index() == index_after(old(self).index(), event),
            final(self).cached() == old(self).cached(),
            final(self).lookback() == old(self).lookback(),
            r == AfterInput::Exit <==> event == InputEvent::Quit,
    {
        match event {
            InputEvent::NavigatePrevious => {
                self.selector.navigate_previous();
                AfterInput::Continue
            },
            InputEvent::NavigateNext => {
                self.selector.navigate_next();
                AfterInput::Continue
            },
            InputEvent::Quit => AfterInput::Exit,
            InputEvent::Other => AfterInput::Continue,
        }
    }

    /// What a frame drawn on `area` shows; the state is left as it is.
    pub fn frame(&self, area: Area) -> (r: FrameContent)
        requires
            self.wf(),
        ensures
            (r.layout.navbar@, r.layout.request_log@, r.layout.map@, r.layout.settings@)
                == panels_of(area@),
            r.labels@.len() == REGION_COUNT,
            forall|i: int| 0 <= i < REGION_COUNT ==> (#[trigger] r.labels@[i])@ == catalog_label(i),
            r.selected == self.index(),
            r.bounds@ == catalog_bounds(self.index()),
            r.log@.len() == self.cached().len(),
            forall|i: int|
                0 <= i < self.cached().len() ==> (#[trigger] r.log@[i])@ == log_line_text(
                    self.cached()[i]@,
                ),
            r.segments@.len() == kept_indices(known_flags(self.cached())).len(),
            forall|k: int|
                0 <= k < r.segments@.len() ==> {
                    let i = kept_indices(known_flags(self.cached()))[k];
                    &&& (#[trigger] r.segments@[k]).record == i
                    &&& Some(r.segments@[k].origin) == country_for(self.cached()[i]@.origin_code)
                    &&& Some(r.segments@[k].target) == country_for(self.cached()[i]@.target_code)
                },
            r.lookback_minutes == self.lookback(),
    {
        FrameContent {
            layout: compute(area),
            labels: region_labels(),
            selected: self.selector.index(),
            bounds: self.selector.bounds(),
            log: log_lines(&self.cache),
            segments: project_lines(&self.cache),
            lookback_minutes: self.settings.lookback_minutes,
        }
    }
}

} // verus!
