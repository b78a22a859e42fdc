//! The bootstrap state machine. Startup is a linear sequence —
//! register the three capability plugins, build the one window, paint
//! it where the build calls for that, enter the run loop — with a
//! single fallible point before the handoff: window construction. The
//! machine decides; a host program performs each `Action` against the
//! GUI runtime and reports what happened back as an `Event`.

use vstd::prelude::*;

use crate::config::Platform;
use crate::config::ChromeVariant;
use crate::config::Rgba;
use crate::config::WindowConfig;
use crate::config::background_patch;
use crate::config::background_patch_spec;
use crate::config::is_main_config;
use crate::config::main_window_config;

verus! {

/// The three capability plugins the application registers before any
/// window exists: filesystem access, native dialogs, HTTP.
#[derive(Clone, Copy, Debug, PartialEq, Eq)]
pub enum Plugin {
    Fs,
    Dialog,
    Http,
}

/// Where the bootstrap stands.
#[derive(Clone, Copy, Debug, PartialEq, Eq)]
pub enum Phase {
    /// Nothing registered yet.
    Start,
    /// One plugin registered.
    OnePlugin,
    /// Two plugins registered.
    TwoPlugins,
    /// All three plugins registered; the window may be built.
    PluginsReady,
    /// The window exists.
    WindowLive,
    /// The background patch has been applied.
    ChromeDone,
    /// Control has been handed to the run loop.
    Looping,
    /// A fatal failure: the process must exit without recovery.
    Aborted,
}

/// What the host must do next.
#[derive(Clone, Copy, Debug, PartialEq, Eq)]
pub enum Action {
    /// Register the named capability plugin.
    RegisterPlugin(Plugin),
    /// Construct the window from this descriptor.
    BuildWindow(WindowConfig),
    /// Paint the finished window's background with this color.
    SetBackground(Rgba),
    /// Hand control to the run loop; it blocks for the process's life.
    EnterRunLoop,
    /// The run loop owns control; there is nothing to do.
    Wait,
    /// Exit the process with a nonzero status and a diagnostic.
    ExitFailure,
}

/// What the host reports back after performing an action.
#[derive(Clone, Copy, Debug, PartialEq, Eq)]
pub enum Event {
    /// A plugin registration completed.
    PluginRegistered,
    /// Window construction succeeded.
    WindowBuilt,
    /// Window construction failed.
    WindowFailed,
    /// The background color was applied.
    BackgroundSet,
    /// Control was handed to the run loop.
    RunLoopEntered,
    /// The run loop failed to start.
    RunLoopFailed,
}

/// The bootstrap's whole state: the build identity it was started
/// with, the phase it stands in, and what it has done so far.
#[derive(Clone, Copy, Debug, PartialEq, Eq)]
pub struct Bootstrap {
    pub platform: Platform,
    pub variant: ChromeVariant,
    pub phase: Phase,
    /// How many windows have been built during this run.
    pub windows_built: u32,
    /// Whether control was ever handed to the run loop.
    pub run_loop_entered: bool,
}

impl Bootstrap {
    /// The state of a bootstrap that has done nothing yet.
    pub open spec fn init_spec(p: Platform, v: ChromeVariant) -> Bootstrap {
        Bootstrap {
            platform: p,
            variant: v,
            phase: Phase::Start,
            windows_built: 0,
            run_loop_entered: false,
        }
    }

    /// The state invariant: what has been done always agrees with the
    /// phase. In particular no state ever counts a second window, and
    /// the run loop is only ever entered with exactly one window up.
    pub open spec fn wf(self) -> bool {
        &&& self.windows_built <= 1
        &&& (self.phase is Start || self.phase is OnePlugin || self.phase is TwoPlugins
            || self.phase is PluginsReady ==> self.windows_built == 0 && !self.run_loop_entered)
        &&& (self.phase is WindowLive || self.phase is ChromeDone ==> self.windows_built == 1
            && !self.run_loop_entered)
        &&& (self.phase is Looping ==> self.windows_built == 1 && self.run_loop_entered)
        &&& (self.run_loop_entered ==> self.windows_built == 1)
    }

    /// How one event moves the state on. Plugin registrations walk the
    /// three plugin phases; a built window is counted once; a failed
    /// window build aborts; the aborted phase absorbs everything; an
    /// event that does not belong to the phase changes nothing.
    pub open spec fn step_spec(self, ev: Event) -> Bootstrap {
        match (self.phase, ev) {
            (Phase::Start, Event::PluginRegistered) => Bootstrap {
                phase: Phase::OnePlugin,
                ..self
            },
            (Phase::OnePlugin, Event::PluginRegistered) => Bootstrap {
                phase: Phase::TwoPlugins,
                ..self
            },
            (Phase::TwoPlugins, Event::PluginRegistered) => Bootstrap {
                phase: Phase::PluginsReady,
                ..self
            },
            (Phase::PluginsReady, Event::WindowBuilt) => Bootstrap {
                phase: Phase::WindowLive,
                windows_built: (self.windows_built + 1) as u32,
                ..self
            },
            (Phase::PluginsReady, Event::WindowFailed) => Bootstrap { phase: Phase::Aborted, ..self },
            (Phase::WindowLive, Event::BackgroundSet) => Bootstrap { phase: Phase::ChromeDone, ..self },
            (Phase::WindowLive, Event::RunLoopEntered) => Bootstrap {
                phase: Phase::Looping,
                run_loop_entered: true,
                ..self
            },
            (Phase::ChromeDone, Event::RunLoopEntered) => Bootstrap {
                phase: Phase::Looping,
                run_loop_entered: true,
                ..self
            },
            (Phase::Looping, Event::RunLoopFailed) => Bootstrap { phase: Phase::Aborted, ..self },
            _ => self,
        }
    }

    /// The state after a whole sequence of events.
    pub open spec fn run_spec(self, evs: Seq<Event>) -> Bootstrap
        decreases evs.len(),
    {
        if evs.len() == 0 {
            self
        } else {
            self.step_spec(evs[0]).run_spec(evs.subrange(1, evs.len() as int))
        }
    }

    /// A fresh bootstrap for the given build identity.
    pub fn new(p: Platform, v: ChromeVariant) -> (s: Self)
        ensures
            s == Self::init_spec(p, v),
            s.wf(),
    {
        Bootstrap {
            platform: p,
            variant: v,
            phase: Phase::Start,
            windows_built: 0,
            run_loop_entered: false,
        }
    }

    /// The action owed in the current phase: the three plugins in
    /// turn, then the one window from its descriptor, then the
    /// background patch exactly where the build calls for one, then
    /// the handoff; after a fatal failure, exit.
    pub fn next_action(&self) -> (a: Action)
        ensures
            self.phase is Start ==> a == Action::RegisterPlugin(Plugin::Fs),
            self.phase is OnePlugin ==> a == Action::RegisterPlugin(Plugin::Dialog),
            self.phase is TwoPlugins ==> a == Action::RegisterPlugin(Plugin::Http),
            self.phase is PluginsReady ==> (a matches Action::BuildWindow(c)
                && is_main_config(c, self.platform, self.variant)),
            self.phase is WindowLive ==> (background_patch_spec(self.platform, self.variant)
                matches Some(color) ==> a == Action::SetBackground(color)),
            self.phase is WindowLive && background_patch_spec(self.platform, self.variant) is None
                ==> a == Action::EnterRunLoop,
            self.phase is ChromeDone ==> a == Action::EnterRunLoop,
            self.phase is Looping ==> a == Action::Wait,
            self.phase is Aborted ==> a == Action::ExitFailure,
    {
        match self.phase {
            Phase::Start => Action::RegisterPlugin(Plugin::Fs),
            Phase::OnePlugin => Action::RegisterPlugin(Plugin::Dialog),
            Phase::TwoPlugins => Action::RegisterPlugin(Plugin::Http),
            Phase::PluginsReady => Action::BuildWindow(
                main_window_config(self.platform, self.variant),
            ),
            Phase::WindowLive => match background_patch(self.platform, self.variant) {
                Some(color) => Action::SetBackground(color),
                None => Action::EnterRunLoop,
            },
            Phase::ChromeDone => Action::EnterRunLoop,
            Phase::Looping => Action::Wait,
            Phase::Aborted => Action::ExitFailure,
        }
    }

    /// Moves the state on by one reported event, exactly as
    /// `step_spec` says.
    pub fn step(&mut self, ev: Event)
        requires
            old(self).wf(),
        ensures
            *final(self) == old(self).step_spec(ev),
            final(self).wf(),
    {
        match (self.phase, ev) {
            (Phase::Start, Event::PluginRegistered) => {
                self.phase = Phase::OnePlugin;
            },
            (Phase::OnePlugin, Event::PluginRegistered) => {
                self.phase = Phase::TwoPlugins;
            },
            (Phase::TwoPlugins, Event::PluginRegistered) => {
                self.phase = Phase::PluginsReady;
            },
            (Phase::PluginsReady, Event::WindowBuilt) => {
                self.phase = Phase::WindowLive;
                self.windows_built = self.windows_built + 1;
            },
            (Phase::PluginsReady, Event::WindowFailed) => {
                self.phase = Phase::Aborted;
            },
            (Phase::WindowLive, Event::BackgroundSet) => {
                self.phase = Phase::ChromeDone;
            },
            (Phase::WindowLive, Event::RunLoopEntered) => {
                self.phase = Phase::Looping;
                self.run_loop_entered = true;
            },
            (Phase::ChromeDone, Event::RunLoopEntered) => {
                self.phase = Phase::Looping;
                self.run_loop_entered = true;
            },
            (Phase::Looping, Event::RunLoopFailed) => {
                self.phase = Phase::Aborted;
            },
            _ => {},
        }
    }
}

/// One step keeps the state invariant.
proof fn lemma_step_preserves_wf(s: Bootstrap, ev: Event)
    requires
        s.wf(),
    ensures
        s.step_spec(ev).wf(),
{
}

/// Any sequence of events keeps the state invariant.
proof fn lemma_run_preserves_wf(s: Bootstrap, evs: Seq<Event>)
    requires
        s.wf(),
    ensures
        s.run_spec(evs).wf(),
    decreases evs.len(),
{
    if evs.len() > 0 {
        lemma_step_preserves_wf(s, evs[0]);
        lemma_run_preserves_wf(s.step_spec(evs[0]), evs.subrange(1, evs.len() as int));
    }
}

/// The aborted phase is final: whatever events still arrive, the state
/// no longer changes at all — no window is built, no run loop entered.
pub proof fn lemma_abort_is_final(s: Bootstrap, evs: Seq<Event>)
    requires
        s.phase is Aborted,
    ensures
        s.run_spec(evs) == s,
    decreases evs.len(),
{
    if evs.len() > 0 {
        lemma_abort_is_final(s, evs.subrange(1, evs.len() as int));
    }
}

/// Exactly one window per run: along every event sequence from a fresh
/// bootstrap, at most one window is ever built, and whenever control
/// stands in the run loop — or was ever handed to it — exactly one is.
pub proof fn lemma_exactly_one_window(p: Platform, v: ChromeVariant, evs: Seq<Event>)
    ensures
        Bootstrap::init_spec(p, v).run_spec(evs).windows_built <= 1,
        Bootstrap::init_spec(p, v).run_spec(evs).phase is Looping
            ==> Bootstrap::init_spec(p, v).run_spec(evs).windows_built == 1,
        Bootstrap::init_spec(p, v).run_spec(evs).run_loop_entered
            ==> Bootstrap::init_spec(p, v).run_spec(evs).windows_built == 1,
{
    lemma_run_preserves_wf(Bootstrap::init_spec(p, v), evs);
}

/// A window-construction failure ends the run before the handoff:
/// whatever events follow it, the bootstrap stays aborted, the run
/// loop is never entered, and no window was left behind.
pub proof fn lemma_window_failure_blocks_run_loop(s: Bootstrap, evs: Seq<Event>)
    requires
        s.wf(),
        s.phase is PluginsReady,
    ensures
        s.step_spec(Event::WindowFailed).run_spec(evs).phase is Aborted,
        !s.step_spec(Event::WindowFailed).run_spec(evs).run_loop_entered,
        s.step_spec(Event::WindowFailed).run_spec(evs).windows_built == 0,
{
    lemma_abort_is_final(s.step_spec(Event::WindowFailed), evs);
}

} // verus!
