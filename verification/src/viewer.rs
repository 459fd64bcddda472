//! The viewer's decisions: what an input action does to the viewer's
//! state, how navigation starts transitions, how each frame advances the
//! slideshow and which texts the overlay shows. Window, GPU and clipboard
//! work is handed back to the caller as a [`Command`].

use vstd::prelude::*;
use crate::config::{FitMode, PlaybackMode, TransitionMode, fit_toggled};
use crate::image_loader::{TextureManager, next_step, previous_step};
use crate::input::{InputAction, InputContext, KeyCode, Modifiers, WheelDirection, key_action, lemma_navigation_keys, wheel_action};
use crate::osc::OscAction;
use crate::overlay::{OverlayKind, OverlayState, panel_toggled};
use crate::textfmt::push_str;
use crate::timer::{SlideshowTimer, TimerBase, elapsed, sanitized};
use crate::transition::random_mode;
use crate::viewtext::{on_off_message, on_off_text, seconds_spec, seconds_text, timer_message,
    timer_message_spec, counted_message, counted_spec, rejected_suffix, rejected_suffix_spec,
    filename_bar_text, filename_bar_spec};

verus! {

broadcast use vstd::string::group_string_axioms;

/// How long an OSD message stays on screen.
pub const OSD_DURATION_MS: u64 = 1500;

/// How long a temporarily shown filename bar or info panel stays.
pub const TEMPORARY_DISPLAY_MS: u64 = 1500;

/// A transition between two images that is playing.
#[derive(Debug, Clone, Copy, PartialEq, Eq, Structural)]
pub struct ActiveTransition {
    pub start_ms: u64,
    pub duration_ms: u64,
    pub mode: i32,
    pub from_index: usize,
    pub to_index: usize,
}

/// How transitions are played.
#[derive(Debug, Clone, Copy, PartialEq, Eq, Structural)]
pub struct TransitionSettings {
    /// Length of a transition; 0 cuts straight to the next image.
    pub time_ms: u64,
    /// Pick a random effect for each transition.
    pub random: bool,
    /// The effect used when not random.
    pub mode: TransitionMode,
}

/// The viewer settings that input can change.
#[derive(Debug, Clone, Copy, PartialEq, Eq, Structural)]
pub struct ViewerSettings {
    pub playback_mode: PlaybackMode,
    pub pause_at_last: bool,
    pub shuffle: bool,
    pub fit_mode: FitMode,
    pub fullscreen: bool,
    pub always_on_top: bool,
    /// The slideshow interval as configured, in milliseconds.
    pub timer_ms: i64,
    pub transition: TransitionSettings,
}

/// What the caller knows about the window and background work when an
/// action arrives.
#[derive(Debug, Clone, Copy, PartialEq, Eq, Structural)]
pub struct WindowFacts {
    pub fullscreen: bool,
    pub decorated: bool,
    /// An image copy to the clipboard is still running.
    pub clipboard_busy: bool,
}

/// Work an action leaves to the caller.
#[derive(Debug, Clone, Copy, PartialEq, Eq, Structural)]
pub enum Command {
    Nothing,
    Exit,
    ApplyFullscreen(bool),
    ApplyDecorations(bool),
    ApplyAlwaysOnTop(bool),
    MoveWindow { x: i32, y: i32 },
    ResizeWindow { width: u32, height: u32 },
    /// Pause or resume the image-sequence clock, then report it with
    /// [`ViewerState::show_pause_state`].
    ToggleSequencePause,
    /// Change a colour parameter for the given key.
    AdjustColor(KeyCode),
    ResetColors,
    /// Start copying the current image to the clipboard.
    StartImageCopy,
    /// Copy the current image's path to the clipboard.
    CopyPath,
    OpenInExplorer,
    /// Build the info text of the current image and pass it to
    /// [`ViewerState::show_info_temporarily`].
    BuildTemporaryInfo,
    Zoom { zoom_in: bool },
    ResetZoom,
}

/// What a drop of files produced.
#[derive(Debug)]
pub enum DropScan {
    /// Only rejected paths were dropped.
    NoPaths,
    /// The dropped paths held no supported image.
    Failed,
    /// The images found in the dropped paths, in scan order.
    Found(Vec<String>),
}

/// The viewer's state.
pub struct ViewerState<T> {
    pub textures: TextureManager<T>,
    pub overlay: OverlayState,
    pub slideshow: SlideshowTimer,
    pub settings: ViewerSettings,
    /// The interval the slideshow started with, restored by a timer reset.
    pub initial_timer_ms: i64,
    pub transition: Option<ActiveTransition>,
    /// The image shown when no transition plays.
    pub current_texture_index: Option<usize>,
    pub show_filename_text: bool,
    pub filename_bar_temp_expiry: Option<u64>,
    pub info_temp_expiry: Option<u64>,
    /// The OSD message and the time it expires.
    pub osd_message: Option<(String, u64)>,
    pub screenshot_requested: bool,
    /// The info text of the current image, once built.
    pub cached_info: Option<String>,
    /// The renderer must rebuild its bindings (the shown images changed).
    pub bind_group_stale: bool,
    /// The current image changed since the caller last looked.
    pub image_changed: bool,
}

/// The position after `n` forward steps, whether any step moved, and the
/// position the last moving step started from.
pub open spec fn forward_steps(cur: int, len: int, pause_at_last: bool, n: nat) -> (bool, int, int)
    decreases n,
{
    if n == 0 {
        (false, cur, cur)
    } else {
        let prev = forward_steps(cur, len, pause_at_last, (n - 1) as nat);
        let step = next_step(prev.1, len, pause_at_last);
        if step.0 {
            (true, step.1, prev.1)
        } else {
            prev
        }
    }
}

/// The position after `n` backward steps, whether any step moved, and the
/// position the last moving step started from.
pub open spec fn backward_steps(cur: int, len: int, pause_at_last: bool, n: nat) -> (bool, int, int)
    decreases n,
{
    if n == 0 {
        (false, cur, cur)
    } else {
        let prev = backward_steps(cur, len, pause_at_last, (n - 1) as nat);
        let step = previous_step(prev.1, len, pause_at_last);
        if step.0 {
            (true, step.1, prev.1)
        } else {
            prev
        }
    }
}

/// The OSD holds `text` until `now` plus the OSD duration.
pub open spec fn osd_shows(osd: Option<(String, u64)>, text: Seq<char>, now: u64) -> bool {
    osd matches Some((s, e)) && s@ == text && e == now + OSD_DURATION_MS
}

/// `"Paused"` or `"Resumed"`.
pub open spec fn pause_text(paused: bool) -> Seq<char> {
    if paused {
        "Paused"@
    } else {
        "Resumed"@
    }
}

/// The new timer after a timer key that moves it by `delta` seconds (the
/// plain keys by one second, with Shift by a minute): the current interval
/// rounded to whole seconds, plus `delta`, never below zero. In
/// milliseconds, at most `i64::MAX`.
pub open spec fn adjusted_timer_spec(current_ms: u64, delta: i32) -> int {
    let rounded = (current_ms + 500) / 1000;
    if rounded + delta <= 0 {
        0
    } else if (rounded + delta) * 1000 > i64::MAX {
        i64::MAX as int
    } else {
        (rounded + delta) * 1000
    }
}

/// The new timer after a timer key, in milliseconds.
pub fn adjusted_timer(current_ms: u64, delta: i32) -> (ms: u64)
    ensures
        ms == adjusted_timer_spec(current_ms, delta),
{
    let rounded: i128 = ((current_ms as u128 + 500) / 1000) as i128;
    let step: i128 = delta as i128;
    if rounded + step <= 0 {
        0
    } else if (rounded + step) * 1000 > i64::MAX as i128 {
        i64::MAX as u64
    } else {
        ((rounded + step) * 1000) as u64
    }
}

/// The state after the current image moved from position `from` to the
/// position `after.textures` holds: only the position of the image list
/// changed; the new image is shown (a cut for sequences and for instant
/// transitions, else a transition from `from` starting at `now_ms`); the
/// slideshow interval restarts at `now_ms`; the cached info text is dropped;
/// everything else is as in `before`.
pub open spec fn shown_after_move<T>(before: ViewerState<T>, after: ViewerState<T>, from: int, now_ms: u64) -> bool {
    let to = after.textures.index_spec();
    let s = before.settings;
    &&& before.textures.only_position_changed(&after.textures)
    &&& after.overlay == before.overlay
    &&& after.settings == s
    &&& after.slideshow == (SlideshowTimer {
        base: TimerBase { last_tick_ms: now_ms, ..before.slideshow.base },
        ..before.slideshow
    })
    &&& after.cached_info is None
    &&& after.image_changed
    &&& after.bind_group_stale
    &&& (if s.playback_mode == PlaybackMode::Sequence || s.transition.time_ms == 0 {
        after.current_texture_index == Some(to as usize) && after.transition is None
    } else {
        &&& after.current_texture_index == before.current_texture_index
        &&& after.transition matches Some(t)
        &&& t.start_ms == now_ms
        &&& t.duration_ms == s.transition.time_ms
        &&& t.from_index == from
        &&& t.to_index == to
        &&& if s.transition.random {
            0 <= t.mode < 20
        } else {
            t.mode == s.transition.mode.index()
        }
    })
    &&& after.initial_timer_ms == before.initial_timer_ms
    &&& after.show_filename_text == before.show_filename_text
    &&& after.filename_bar_temp_expiry == before.filename_bar_temp_expiry
    &&& after.info_temp_expiry == before.info_temp_expiry
    &&& after.osd_message == before.osd_message
    &&& after.screenshot_requested == before.screenshot_requested
}

/// Two moves in a row amount to one move from the position the second one
/// started at.
proof fn lemma_moves_compose<T>(
    s0: ViewerState<T>,
    s1: ViewerState<T>,
    s2: ViewerState<T>,
    f1: int,
    f2: int,
    now_ms: u64,
)
    requires
        shown_after_move(s0, s1, f1, now_ms),
        shown_after_move(s1, s2, f2, now_ms),
    ensures
        shown_after_move(s0, s2, f2, now_ms),
{
}

impl<T> ViewerState<T> {
    /// The state's invariant: those of its parts, and a valid slideshow
    /// interval.
    pub open spec fn wf(&self) -> bool {
        &&& self.textures.wf()
        &&& self.overlay.wf()
        &&& self.slideshow.user_pause_respected()
        &&& self.slideshow.interval_ms <= i64::MAX
    }

    /// A viewer over the given images, with the settings of the
    /// configuration and nothing shown yet; the first image is current.
    pub fn new(textures: TextureManager<T>, settings: ViewerSettings, show_filename: bool, now_ms: u64) -> (v: Self)
        requires
            textures.wf(),
        ensures
            v.wf(),
            v.textures == textures,
            v.settings == settings,
            v.initial_timer_ms == settings.timer_ms,
            v.transition is None,
            v.current_texture_index == (if textures.paths_spec().len() > 0 {
                Some(0usize)
            } else {
                None
            }),
            v.show_filename_text == show_filename,
            v.slideshow.base.paused == (sanitized(settings.timer_ms as int) == 0),
            v.osd_message is None,
            !v.image_changed,
    {
        let current = if textures.len() > 0 {
            Some(0usize)
        } else {
            None
        };
        ViewerState {
            textures,
            overlay: OverlayState::new(now_ms),
            slideshow: SlideshowTimer::new(settings.timer_ms, now_ms),
            settings,
            initial_timer_ms: settings.timer_ms,
            transition: None,
            current_texture_index: current,
            show_filename_text: show_filename,
            filename_bar_temp_expiry: None,
            info_temp_expiry: None,
            osd_message: None,
            screenshot_requested: false,
            cached_info: None,
            bind_group_stale: false,
            image_changed: false,
        }
    }

    /// Show `text` on the OSD until `now_ms` plus the OSD duration.
    pub fn show_osd(&mut self, text: String, now_ms: u64)
        requires
            now_ms <= u64::MAX - OSD_DURATION_MS,
        ensures
            osd_shows(final(self).osd_message, text@, now_ms),
            *final(self) == (ViewerState::<T> { osd_message: final(self).osd_message, ..*old(self) }),
    {
        self.osd_message = Some((text, now_ms + OSD_DURATION_MS));
    }

    /// Start the transition from image `from` to image `to`, or cut to `to`
    /// when transitions take no time.
    fn start_transition(&mut self, from: usize, to: usize, now_ms: u64)
        ensures
            old(self).settings.transition.time_ms == 0 ==> final(self).current_texture_index == Some(to)
                && final(self).transition is None,
            old(self).settings.transition.time_ms > 0 ==> final(self).current_texture_index
                == old(self).current_texture_index && (final(self).transition matches Some(t) && t.start_ms
                == now_ms && t.duration_ms == old(self).settings.transition.time_ms && t.from_index == from
                && t.to_index == to && (if old(self).settings.transition.random {
                0 <= t.mode < 20
            } else {
                t.mode == old(self).settings.transition.mode.index()
            })),
            *final(self) == (ViewerState::<T> {
                transition: final(self).transition,
                current_texture_index: final(self).current_texture_index,
                bind_group_stale: true,
                ..*old(self)
            }),
    {
        if self.settings.transition.time_ms == 0 {
            self.current_texture_index = Some(to);
            self.transition = None;
            self.bind_group_stale = true;
            return;
        }
        let mode = if self.settings.transition.random {
            random_mode().value()
        } else {
            self.settings.transition.mode.value()
        };
        self.transition = Some(
            ActiveTransition {
                start_ms: now_ms,
                duration_ms: self.settings.transition.time_ms,
                mode,
                from_index: from,
                to_index: to,
            },
        );
        self.bind_group_stale = true;
    }

    /// After the current image changed from `old_index`: show the new image
    /// (a cut for sequences, else a transition), restart the slideshow
    /// interval, and forget the cached info text.
    fn finish_navigation(&mut self, old_index: usize, now_ms: u64)
        requires
            old(self).wf(),
        ensures
            final(self).wf(),
            final(self).textures == old(self).textures,
            shown_after_move(*old(self), *final(self), old_index as int, now_ms),
    {
        let cur = self.textures.current_index();
        if self.settings.playback_mode == PlaybackMode::Sequence {
            self.current_texture_index = Some(cur);
            self.transition = None;
            self.bind_group_stale = true;
        } else {
            self.start_transition(old_index, cur, now_ms);
        }
        self.slideshow.reset(now_ms);
        self.cached_info = None;
        self.image_changed = true;
    }

    /// Move to the next image (wrapping unless the slideshow pauses at the
    /// last image). Returns whether the image changed.
    pub fn next_image(&mut self, now_ms: u64) -> (moved: bool)
        requires
            old(self).wf(),
        ensures
            final(self).wf(),
            (moved, final(self).textures.index_spec()) == next_step(
                old(self).textures.index_spec(),
                old(self).textures.paths_spec().len() as int,
                old(self).settings.pause_at_last,
            ),
            moved ==> shown_after_move(
                *old(self),
                *final(self),
                old(self).textures.index_spec(),
                now_ms,
            ),
            !moved ==> *final(self) == *old(self),
    {
        let old_index = self.textures.current_index();
        let moved = self.textures.next(self.settings.pause_at_last);
        if moved {
            self.finish_navigation(old_index, now_ms);
        }
        moved
    }

    /// Move to the previous image (wrapping unless the slideshow pauses at
    /// the last image). Returns whether the image changed.
    pub fn prev_image(&mut self, now_ms: u64) -> (moved: bool)
        requires
            old(self).wf(),
        ensures
            final(self).wf(),
            (moved, final(self).textures.index_spec()) == previous_step(
                old(self).textures.index_spec(),
                old(self).textures.paths_spec().len() as int,
                old(self).settings.pause_at_last,
            ),
            moved ==> shown_after_move(
                *old(self),
                *final(self),
                old(self).textures.index_spec(),
                now_ms,
            ),
            !moved ==> *final(self) == *old(self),
    {
        let old_index = self.textures.current_index();
        let moved = self.textures.previous(self.settings.pause_at_last);
        if moved {
            self.finish_navigation(old_index, now_ms);
        }
        moved
    }

    /// Move to image `index` when it lies in the list and is not the
    /// current one. Returns whether the image changed.
    pub fn jump_to(&mut self, index: usize, now_ms: u64) -> (moved: bool)
        requires
            old(self).wf(),
        ensures
            final(self).wf(),
            moved == (index < old(self).textures.paths_spec().len() && index
                != old(self).textures.index_spec()),
            moved ==> final(self).textures.index_spec() == index && shown_after_move(
                *old(self),
                *final(self),
                old(self).textures.index_spec(),
                now_ms,
            ),
            !moved ==> *final(self) == *old(self),
    {
        let old_index = self.textures.current_index();
        if index < self.textures.len() && index != old_index {
            self.textures.jump_to(index);
            self.finish_navigation(old_index, now_ms);
            true
        } else {
            false
        }
    }

    /// Take `steps` steps forward. Returns whether the image changed.
    pub fn step_forward(&mut self, steps: usize, now_ms: u64) -> (moved: bool)
        requires
            old(self).wf(),
        ensures
            final(self).wf(),
            ({
                let r = forward_steps(
                    old(self).textures.index_spec(),
                    old(self).textures.paths_spec().len() as int,
                    old(self).settings.pause_at_last,
                    steps as nat,
                );
                &&& moved == r.0
                &&& final(self).textures.index_spec() == r.1
                &&& r.0 ==> shown_after_move(*old(self), *final(self), r.2, now_ms)
            }),
            final(self).textures.paths_spec() == old(self).textures.paths_spec(),
            final(self).settings == old(self).settings,
            !moved ==> *final(self) == *old(self),
    {
        let ghost cur0 = self.textures.index_spec();
        let ghost len = self.textures.paths_spec().len() as int;
        let ghost start = *self;
        let mut moved = false;
        let mut i: usize = 0;
        while i < steps
            invariant
                self.wf(),
                i <= steps,
                self.textures.paths_spec().len() == len,
                self.textures.paths_spec() == start.textures.paths_spec(),
                self.settings == start.settings,
                ({
                    let r = forward_steps(cur0, len, start.settings.pause_at_last, i as nat);
                    &&& moved == r.0
                    &&& self.textures.index_spec() == r.1
                    &&& r.0 ==> shown_after_move(start, *self, r.2, now_ms)
                }),
                !moved ==> *self == start,
            decreases steps - i,
        {
            let ghost before = *self;
            let ghost r_before = forward_steps(cur0, len, start.settings.pause_at_last, i as nat);
            if self.next_image(now_ms) {
                proof {
                    if moved {
                        lemma_moves_compose(start, before, *self, r_before.2, before.textures.index_spec(), now_ms);
                    }
                }
                moved = true;
            }
            i = i + 1;
        }
        moved
    }

    /// Take `steps` steps back. Returns whether the image changed.
    pub fn step_backward(&mut self, steps: usize, now_ms: u64) -> (moved: bool)
        requires
            old(self).wf(),
        ensures
            final(self).wf(),
            ({
                let r = backward_steps(
                    old(self).textures.index_spec(),
                    old(self).textures.paths_spec().len() as int,
                    old(self).settings.pause_at_last,
                    steps as nat,
                );
                &&& moved == r.0
                &&& final(self).textures.index_spec() == r.1
                &&& r.0 ==> shown_after_move(*old(self), *final(self), r.2, now_ms)
            }),
            final(self).textures.paths_spec() == old(self).textures.paths_spec(),
            final(self).settings == old(self).settings,
            !moved ==> *final(self) == *old(self),
    {
        let ghost cur0 = self.textures.index_spec();
        let ghost len = self.textures.paths_spec().len() as int;
        let ghost start = *self;
        let mut moved = false;
        let mut i: usize = 0;
        while i < steps
            invariant
                self.wf(),
                i <= steps,
                self.textures.paths_spec().len() == len,
                self.textures.paths_spec() == start.textures.paths_spec(),
                self.settings == start.settings,
                ({
                    let r = backward_steps(cur0, len, start.settings.pause_at_last, i as nat);
                    &&& moved == r.0
                    &&& self.textures.index_spec() == r.1
                    &&& r.0 ==> shown_after_move(start, *self, r.2, now_ms)
                }),
                !moved ==> *self == start,
            decreases steps - i,
        {
            let ghost before = *self;
            let ghost r_before = backward_steps(cur0, len, start.settings.pause_at_last, i as nat);
            if self.prev_image(now_ms) {
                proof {
                    if moved {
                        lemma_moves_compose(start, before, *self, r_before.2, before.textures.index_spec(), now_ms);
                    }
                }
                moved = true;
            }
            i = i + 1;
        }
        moved
    }
}


/// The message after a timer reset to `ms`.
pub open spec fn reset_message_spec(ms: i64) -> Seq<char> {
    "Timer Reset: "@ + seconds_spec(ms) + "s"@
}

/// The message after the fit mode changed to `m`.
pub open spec fn fit_message_spec(m: FitMode) -> Seq<char> {
    match m {
        FitMode::Fit => "Fit: Normal"@,
        FitMode::AmbientFit => "Fit: Ambient"@,
    }
}

/// The slideshow after its interval was set to `ms` at `now`.
pub open spec fn timer_set(old_t: SlideshowTimer, new_t: SlideshowTimer, ms: u64, now: u64) -> bool {
    &&& ms == 0 ==> new_t.base.paused && !new_t.paused_by_user && new_t.interval_ms == old_t.interval_ms
        && new_t.base.last_tick_ms == old_t.base.last_tick_ms
    &&& ms > 0 ==> new_t.interval_ms == sanitized(ms as int) && new_t.base.last_tick_ms == now
        && new_t.base.paused == (old_t.paused_by_user && old_t.base.paused) && new_t.paused_by_user
        == old_t.paused_by_user
}

/// What an input action does: the state after it and the work left to the
/// caller, given the state before, the time and the window facts.
pub open spec fn action_ok<T>(
    old: ViewerState<T>,
    new: ViewerState<T>,
    action: InputAction,
    now_ms: u64,
    facts: WindowFacts,
    cmd: Command,
) -> bool {
    match action {
        InputAction::NextImage { steps } => cmd == Command::Nothing && ({
            let r = forward_steps(
                old.textures.index_spec(),
                old.textures.paths_spec().len() as int,
                old.settings.pause_at_last,
                steps as nat,
            );
            &&& new.textures.index_spec() == r.1
            &&& r.0 ==> shown_after_move(old, new, r.2, now_ms)
            &&& !r.0 ==> new == old
        }),
        InputAction::PrevImage { steps } => cmd == Command::Nothing && ({
            let r = backward_steps(
                old.textures.index_spec(),
                old.textures.paths_spec().len() as int,
                old.settings.pause_at_last,
                steps as nat,
            );
            &&& new.textures.index_spec() == r.1
            &&& r.0 ==> shown_after_move(old, new, r.2, now_ms)
            &&& !r.0 ==> new == old
        }),
        InputAction::JumpTo(index) => cmd == Command::Nothing && (if index
            < old.textures.paths_spec().len() && index != old.textures.index_spec() {
            new.textures.index_spec() == index && shown_after_move(
                old,
                new,
                old.textures.index_spec(),
                now_ms,
            )
        } else {
            new == old
        }),
        InputAction::TogglePause => if old.settings.playback_mode == PlaybackMode::Sequence {
            cmd == Command::ToggleSequencePause && new == old
        } else {
            &&& cmd == Command::Nothing
            &&& new.slideshow.base.paused == !old.slideshow.base.paused
            &&& new.slideshow.paused_by_user == new.slideshow.base.paused
            &&& new.slideshow.interval_ms == old.slideshow.interval_ms
            &&& osd_shows(new.osd_message, pause_text(new.slideshow.base.paused), now_ms)
            &&& new == (ViewerState::<T> {
                slideshow: new.slideshow,
                osd_message: new.osd_message,
                ..old
            })
        },
        InputAction::ToggleFullscreen => {
            &&& cmd == Command::ApplyFullscreen(!facts.fullscreen)
            &&& osd_shows(new.osd_message, on_off_text("Fullscreen"@, !facts.fullscreen), now_ms)
            &&& new == (ViewerState::<T> {
                settings: ViewerSettings { fullscreen: !facts.fullscreen, ..old.settings },
                osd_message: new.osd_message,
                ..old
            })
        },
        InputAction::SetFullscreen(on) => {
            &&& cmd == Command::ApplyFullscreen(on)
            &&& osd_shows(new.osd_message, on_off_text("Fullscreen"@, on), now_ms)
            &&& new == (ViewerState::<T> {
                settings: ViewerSettings { fullscreen: on, ..old.settings },
                osd_message: new.osd_message,
                ..old
            })
        },
        InputAction::ToggleDecorations => {
            &&& cmd == Command::ApplyDecorations(!facts.decorated)
            &&& osd_shows(new.osd_message, on_off_text("Decorations"@, !facts.decorated), now_ms)
            &&& new == (ViewerState::<T> { osd_message: new.osd_message, ..old })
        },
        InputAction::ToggleAlwaysOnTop => {
            &&& cmd == Command::ApplyAlwaysOnTop(!old.settings.always_on_top)
            &&& osd_shows(
                new.osd_message,
                on_off_text("Always On Top"@, !old.settings.always_on_top),
                now_ms,
            )
            &&& new == (ViewerState::<T> {
                settings: ViewerSettings {
                    always_on_top: !old.settings.always_on_top,
                    ..old.settings
                },
                osd_message: new.osd_message,
                ..old
            })
        },
        InputAction::AdjustTimer(delta) => {
            let ms = adjusted_timer_spec(old.slideshow.interval_ms, delta);
            &&& cmd == Command::Nothing
            &&& timer_set(old.slideshow, new.slideshow, ms as u64, now_ms)
            &&& osd_shows(new.osd_message, timer_message_spec(ms as u64), now_ms)
            &&& new == (ViewerState::<T> {
                slideshow: new.slideshow,
                settings: ViewerSettings { timer_ms: ms as i64, ..old.settings },
                osd_message: new.osd_message,
                ..old
            })
        },
        InputAction::ResetTimer => {
            let ms = old.initial_timer_ms;
            &&& cmd == Command::Nothing
            &&& ms >= 0 ==> timer_set(old.slideshow, new.slideshow, ms as u64, now_ms)
            &&& ms < 0 ==> timer_set(old.slideshow, new.slideshow, 0, now_ms)
            &&& osd_shows(new.osd_message, reset_message_spec(ms), now_ms)
            &&& new == (ViewerState::<T> {
                slideshow: new.slideshow,
                settings: ViewerSettings { timer_ms: ms, ..old.settings },
                osd_message: new.osd_message,
                ..old
            })
        },
        InputAction::Screenshot => cmd == Command::Nothing && new == (ViewerState::<T> {
            screenshot_requested: true,
            ..old
        }),
        InputAction::ColorAdjust { key } => cmd == Command::AdjustColor(key) && new
            == old,
        InputAction::ResetColorAdjustments => {
            &&& cmd == Command::ResetColors
            &&& osd_shows(new.osd_message, "Color Reset"@, now_ms)
            &&& new == (ViewerState::<T> { osd_message: new.osd_message, ..old })
        },
        InputAction::ToggleInfoOverlay => {
            let shown = !old.overlay.info_spec();
            let t = old.overlay.texts_spec();
            &&& cmd == Command::Nothing
            &&& new.overlay.info_spec() == shown
            &&& new.overlay.texts_spec() == (if shown {
                t
            } else {
                (t.0, t.1, Seq::<char>::empty(), t.3)
            })
            &&& new.overlay.stack_spec() == old.overlay.stack_spec()
            &&& osd_shows(new.osd_message, on_off_text("Info"@, shown), now_ms)
            &&& new == (ViewerState::<T> {
                overlay: new.overlay,
                info_temp_expiry: None,
                osd_message: new.osd_message,
                ..old
            })
        },
        InputAction::ShowInfoTemporary => new == old && cmd == (if old.overlay.info_spec() {
            Command::Nothing
        } else {
            Command::BuildTemporaryInfo
        }),
        InputAction::ToggleFilenameDisplay => {
            &&& cmd == Command::Nothing
            &&& osd_shows(
                new.osd_message,
                on_off_text("Filename"@, !old.show_filename_text),
                now_ms,
            )
            &&& new == (ViewerState::<T> {
                show_filename_text: !old.show_filename_text,
                filename_bar_temp_expiry: None,
                osd_message: new.osd_message,
                ..old
            })
        },
        InputAction::ShowFilenameTemporary => cmd == Command::Nothing && new == (if old.show_filename_text {
            old
        } else {
            ViewerState::<T> {
                filename_bar_temp_expiry: Some((now_ms + TEMPORARY_DISPLAY_MS) as u64),
                ..old
            }
        }),
        InputAction::ToggleLoop => {
            &&& cmd == Command::Nothing
            &&& osd_shows(
                new.osd_message,
                if old.settings.pause_at_last {
                    "Loop: ON"@
                } else {
                    "Loop: OFF"@
                },
                now_ms,
            )
            &&& new == (ViewerState::<T> {
                settings: ViewerSettings {
                    pause_at_last: !old.settings.pause_at_last,
                    ..old.settings
                },
                osd_message: new.osd_message,
                ..old
            })
        },
        InputAction::ToggleFitMode => {
            &&& cmd == Command::Nothing
            &&& osd_shows(
                new.osd_message,
                fit_message_spec(fit_toggled(old.settings.fit_mode)),
                now_ms,
            )
            &&& new == (ViewerState::<T> {
                settings: ViewerSettings {
                    fit_mode: fit_toggled(old.settings.fit_mode),
                    ..old.settings
                },
                osd_message: new.osd_message,
                ..old
            })
        },
        InputAction::SetWindowPosition { x, y } => cmd == (Command::MoveWindow { x, y })
            && new == old,
        InputAction::CopyImageToClipboard => if old.textures.paths_spec().len() == 0 {
            &&& cmd == Command::Nothing
            &&& osd_shows(new.osd_message, "No Image Loaded"@, now_ms)
            &&& new == (ViewerState::<T> { osd_message: new.osd_message, ..old })
        } else if facts.clipboard_busy {
            &&& cmd == Command::Nothing
            &&& osd_shows(new.osd_message, "Copying..."@, now_ms)
            &&& new == (ViewerState::<T> { osd_message: new.osd_message, ..old })
        } else {
            &&& cmd == Command::StartImageCopy
            &&& osd_shows(new.osd_message, "Copying to Clipboard..."@, now_ms)
            &&& new == (ViewerState::<T> { osd_message: new.osd_message, ..old })
        },
        InputAction::ToggleHelpOverlay => {
            &&& cmd == Command::Nothing
            &&& panel_toggled(old.overlay, new.overlay, OverlayKind::Help)
            &&& new == (ViewerState::<T> { overlay: new.overlay, ..old })
        },
        InputAction::ToggleSettings => {
            &&& cmd == Command::Nothing
            &&& panel_toggled(old.overlay, new.overlay, OverlayKind::Settings)
            &&& new == (ViewerState::<T> { overlay: new.overlay, ..old })
        },
        InputAction::ToggleGallery => {
            &&& cmd == Command::Nothing
            &&& panel_toggled(old.overlay, new.overlay, OverlayKind::Gallery)
            &&& new == (ViewerState::<T> { overlay: new.overlay, ..old })
        },
        InputAction::Exit => cmd == Command::Exit && new == old,
        InputAction::ResizeWindow { width, height } => {
            &&& cmd == (Command::ResizeWindow { width, height })
            &&& osd_shows(
                new.osd_message,
                "Resize: "@ + crate::textfmt::decimal(width as int) + "x"@ + crate::textfmt::decimal(
                    height as int,
                ),
                now_ms,
            )
            &&& new == (ViewerState::<T> { osd_message: new.osd_message, ..old })
        },
        InputAction::CopyPathToClipboard => new == old && cmd == (if old.textures.paths_spec().len() > 0 {
            Command::CopyPath
        } else {
            Command::Nothing
        }),
        InputAction::OpenInExplorer => if old.textures.paths_spec().len() == 0 {
            &&& cmd == Command::Nothing
            &&& osd_shows(new.osd_message, "No image loaded"@, now_ms)
            &&& new == (ViewerState::<T> { osd_message: new.osd_message, ..old })
        } else {
            cmd == Command::OpenInExplorer && new == old
        },
        InputAction::Zoom { zoom_in } => cmd == (Command::Zoom { zoom_in }) && new
            == old,
        InputAction::ResetZoom => {
            &&& cmd == Command::ResetZoom
            &&& osd_shows(new.osd_message, "Zoom: Reset"@, now_ms)
            &&& new == (ViewerState::<T> { osd_message: new.osd_message, ..old })
        },
    }
}

impl<T> ViewerState<T> {
    /// Report the sequence clock's new pause state on the OSD.
    pub fn show_pause_state(&mut self, paused: bool, now_ms: u64)
        requires
            now_ms <= u64::MAX - OSD_DURATION_MS,
        ensures
            osd_shows(final(self).osd_message, pause_text(paused), now_ms),
            *final(self) == (ViewerState::<T> { osd_message: final(self).osd_message, ..*old(self) }),
    {
        let text = if paused {
            String::from_str("Paused")
        } else {
            String::from_str("Resumed")
        };
        self.show_osd(text, now_ms);
    }

    /// Show the given info text in the info panel for a short while.
    pub fn show_info_temporarily(&mut self, text: &str, now_ms: u64)
        requires
            old(self).wf(),
            now_ms <= u64::MAX - TEMPORARY_DISPLAY_MS,
        ensures
            final(self).wf(),
            final(self).info_temp_expiry == Some((now_ms + TEMPORARY_DISPLAY_MS) as u64),
            final(self).overlay.texts_spec() == (
                old(self).overlay.texts_spec().0,
                old(self).overlay.texts_spec().1,
                text@,
                old(self).overlay.texts_spec().3,
            ),
            final(self).overlay.info_spec() == old(self).overlay.info_spec(),
            final(self).overlay.stack_spec() == old(self).overlay.stack_spec(),
            *final(self) == (ViewerState::<T> {
                overlay: final(self).overlay,
                info_temp_expiry: final(self).info_temp_expiry,
                ..*old(self)
            }),
    {
        self.overlay.set_info_text(text);
        self.info_temp_expiry = Some(now_ms + TEMPORARY_DISPLAY_MS);
    }

    /// Carry out an input action: change the viewer's state, set the OSD
    /// message the action reports, and return the work left to the caller.
    pub fn execute_action(&mut self, action: InputAction, now_ms: u64, facts: WindowFacts) -> (cmd: Command)
        requires
            old(self).wf(),
            now_ms <= u64::MAX - OSD_DURATION_MS,
        ensures
            final(self).wf(),
            action_ok(*old(self), *final(self), action, now_ms, facts, cmd),

    {
        match action {
            InputAction::NextImage { .. } | InputAction::PrevImage { .. } | InputAction::JumpTo(_) => self.execute_navigation_action(action, now_ms, facts),
            InputAction::TogglePause | InputAction::AdjustTimer(_) | InputAction::ResetTimer => self.execute_timer_action(action, now_ms, facts),
            InputAction::ToggleFullscreen | InputAction::SetFullscreen(_) | InputAction::ToggleDecorations | InputAction::ToggleAlwaysOnTop | InputAction::SetWindowPosition { .. } | InputAction::ResizeWindow { .. } | InputAction::Exit => self.execute_window_action(action, now_ms, facts),
            _ => self.execute_display_action(action, now_ms, facts),
        }
    }

    /// Carry out a navigation action.
    #[verifier::spinoff_prover]
    fn execute_navigation_action(&mut self, action: InputAction, now_ms: u64, facts: WindowFacts) -> (cmd: Command)
        requires
            old(self).wf(),
            now_ms <= u64::MAX - OSD_DURATION_MS,
            action matches InputAction::NextImage { .. } || action matches InputAction::PrevImage { .. } || action matches InputAction::JumpTo(_),
        ensures
            final(self).wf(),
            action_ok(*old(self), *final(self), action, now_ms, facts, cmd),
    {
        match action {
            InputAction::NextImage { steps } => {
                self.step_forward(steps, now_ms);
                Command::Nothing
            },
            InputAction::PrevImage { steps } => {
                self.step_backward(steps, now_ms);
                Command::Nothing
            },
            InputAction::JumpTo(index) => {
                self.jump_to(index, now_ms);
                Command::Nothing
            },
            _ => {
                proof {
                    assert(false);
                }
                Command::Nothing
            },
        }
    }

    /// Carry out a pause or timer action.
    #[verifier::spinoff_prover]
    fn execute_timer_action(&mut self, action: InputAction, now_ms: u64, facts: WindowFacts) -> (cmd: Command)
        requires
            old(self).wf(),
            now_ms <= u64::MAX - OSD_DURATION_MS,
            action matches InputAction::TogglePause || action matches InputAction::AdjustTimer(_) || action matches InputAction::ResetTimer,
        ensures
            final(self).wf(),
            action_ok(*old(self), *final(self), action, now_ms, facts, cmd),
    {
        match action {
            InputAction::TogglePause => {
                if self.settings.playback_mode == PlaybackMode::Sequence {
                    Command::ToggleSequencePause
                } else {
                    let paused = self.slideshow.toggle_pause(now_ms);
                    self.show_pause_state(paused, now_ms);
                    Command::Nothing
                }
            },
            InputAction::AdjustTimer(delta) => {
                let ms = adjusted_timer(self.slideshow.interval_ms, delta);
                self.slideshow.set_duration(ms as i64, now_ms);
                self.settings.timer_ms = ms as i64;
                self.show_osd(timer_message(ms), now_ms);
                Command::Nothing
            },
            InputAction::ResetTimer => {
                let ms = self.initial_timer_ms;
                self.slideshow.set_duration(ms, now_ms);
                self.settings.timer_ms = ms;
                let mut text = String::new();
                push_str(&mut text, "Timer Reset: ");
                let secs = seconds_text(ms);
                push_str(&mut text, secs.as_str());
                push_str(&mut text, "s");
                assert(text@ =~= reset_message_spec(ms));
                self.show_osd(text, now_ms);
                Command::Nothing
            },
            _ => {
                proof {
                    assert(false);
                }
                Command::Nothing
            },
        }
    }

    /// Carry out a window action.
    #[verifier::spinoff_prover]
    fn execute_window_action(&mut self, action: InputAction, now_ms: u64, facts: WindowFacts) -> (cmd: Command)
        requires
            old(self).wf(),
            now_ms <= u64::MAX - OSD_DURATION_MS,
            action matches InputAction::ToggleFullscreen || action matches InputAction::SetFullscreen(_) || action matches InputAction::ToggleDecorations || action matches InputAction::ToggleAlwaysOnTop || action matches InputAction::SetWindowPosition { .. } || action matches InputAction::ResizeWindow { .. } || action matches InputAction::Exit,
        ensures
            final(self).wf(),
            action_ok(*old(self), *final(self), action, now_ms, facts, cmd),
    {
        match action {
            InputAction::ToggleFullscreen => {
                let on = !facts.fullscreen;
                self.settings.fullscreen = on;
                self.show_osd(on_off_message("Fullscreen", on), now_ms);
                Command::ApplyFullscreen(on)
            },
            InputAction::SetFullscreen(on) => {
                self.settings.fullscreen = on;
                self.show_osd(on_off_message("Fullscreen", on), now_ms);
                Command::ApplyFullscreen(on)
            },
            InputAction::ToggleDecorations => {
                let on = !facts.decorated;
                self.show_osd(on_off_message("Decorations", on), now_ms);
                Command::ApplyDecorations(on)
            },
            InputAction::ToggleAlwaysOnTop => {
                let on = !self.settings.always_on_top;
                self.settings.always_on_top = on;
                self.show_osd(on_off_message("Always On Top", on), now_ms);
                Command::ApplyAlwaysOnTop(on)
            },
            InputAction::SetWindowPosition { x, y } => Command::MoveWindow { x, y },
            InputAction::Exit => Command::Exit,
            InputAction::ResizeWindow { width, height } => {
                let mut text = String::new();
                push_str(&mut text, "Resize: ");
                crate::textfmt::push_digits(&mut text, width as u64);
                push_str(&mut text, "x");
                crate::textfmt::push_digits(&mut text, height as u64);
                assert(text@ =~= "Resize: "@ + crate::textfmt::decimal(width as int) + "x"@
                    + crate::textfmt::decimal(height as int));
                self.show_osd(text, now_ms);
                Command::ResizeWindow { width, height }
            },
            _ => {
                proof {
                    assert(false);
                }
                Command::Nothing
            },
        }
    }

    /// Carry out an action on what is displayed or copied.
    #[verifier::spinoff_prover]
    fn execute_display_action(&mut self, action: InputAction, now_ms: u64, facts: WindowFacts) -> (cmd: Command)
        requires
            old(self).wf(),
            now_ms <= u64::MAX - OSD_DURATION_MS,
            action matches InputAction::Screenshot || action matches InputAction::ColorAdjust { .. } || action matches InputAction::ResetColorAdjustments || action matches InputAction::ToggleInfoOverlay || action matches InputAction::ShowInfoTemporary || action matches InputAction::ToggleFilenameDisplay || action matches InputAction::ShowFilenameTemporary || action matches InputAction::ToggleLoop || action matches InputAction::ToggleFitMode || action matches InputAction::CopyImageToClipboard || action matches InputAction::ToggleHelpOverlay || action matches InputAction::ToggleSettings || action matches InputAction::ToggleGallery || action matches InputAction::CopyPathToClipboard || action matches InputAction::OpenInExplorer || action matches InputAction::Zoom { .. } || action matches InputAction::ResetZoom,
        ensures
            final(self).wf(),
            action_ok(*old(self), *final(self), action, now_ms, facts, cmd),
    {
        match action {
            InputAction::Screenshot => {
                self.screenshot_requested = true;
                Command::Nothing
            },
            InputAction::ColorAdjust { key } => Command::AdjustColor(key),
            InputAction::ResetColorAdjustments => {
                self.show_osd(String::from_str("Color Reset"), now_ms);
                Command::ResetColors
            },
            InputAction::ToggleInfoOverlay => {
                let shown = self.overlay.toggle_info_overlay();
                self.info_temp_expiry = None;
                if !shown {
                    self.overlay.set_info_text("");
                    proof {
                        reveal_strlit("");
                        assert(""@ =~= Seq::<char>::empty());
                        let t = old(self).overlay.texts_spec();
                        assert(self.overlay.texts_spec() == (t.0, t.1, Seq::<char>::empty(), t.3));
                    }
                }
                self.show_osd(on_off_message("Info", shown), now_ms);
                Command::Nothing
            },
            InputAction::ShowInfoTemporary => {
                if self.overlay.info_overlay_visible() {
                    Command::Nothing
                } else {
                    Command::BuildTemporaryInfo
                }
            },
            InputAction::ToggleFilenameDisplay => {
                let on = !self.show_filename_text;
                self.show_filename_text = on;
                self.filename_bar_temp_expiry = None;
                self.show_osd(on_off_message("Filename", on), now_ms);
                Command::Nothing
            },
            InputAction::ShowFilenameTemporary => {
                if !self.show_filename_text {
                    self.filename_bar_temp_expiry = Some(now_ms + TEMPORARY_DISPLAY_MS);
                }
                Command::Nothing
            },
            InputAction::ToggleLoop => {
                let pause_at_last = !self.settings.pause_at_last;
                self.settings.pause_at_last = pause_at_last;
                let text = if pause_at_last {
                    String::from_str("Loop: OFF")
                } else {
                    String::from_str("Loop: ON")
                };
                self.show_osd(text, now_ms);
                Command::Nothing
            },
            InputAction::ToggleFitMode => {
                let mut fit = self.settings.fit_mode;
                fit.toggle();
                self.settings.fit_mode = fit;
                let text = match fit {
                    FitMode::Fit => String::from_str("Fit: Normal"),
                    FitMode::AmbientFit => String::from_str("Fit: Ambient"),
                };
                self.show_osd(text, now_ms);
                Command::Nothing
            },
            InputAction::CopyImageToClipboard => {
                if self.textures.len() == 0 {
                    self.show_osd(String::from_str("No Image Loaded"), now_ms);
                    Command::Nothing
                } else if facts.clipboard_busy {
                    self.show_osd(String::from_str("Copying..."), now_ms);
                    Command::Nothing
                } else {
                    self.show_osd(String::from_str("Copying to Clipboard..."), now_ms);
                    Command::StartImageCopy
                }
            },
            InputAction::ToggleHelpOverlay => {
                self.overlay.toggle_help_overlay();
                Command::Nothing
            },
            InputAction::ToggleSettings => {
                self.overlay.toggle_settings();
                Command::Nothing
            },
            InputAction::ToggleGallery => {
                self.overlay.toggle_gallery();
                Command::Nothing
            },
            InputAction::CopyPathToClipboard => {
                if self.textures.len() > 0 {
                    Command::CopyPath
                } else {
                    Command::Nothing
                }
            },
            InputAction::OpenInExplorer => {
                if self.textures.len() == 0 {
                    self.show_osd(String::from_str("No image loaded"), now_ms);
                    Command::Nothing
                } else {
                    Command::OpenInExplorer
                }
            },
            InputAction::Zoom { zoom_in } => Command::Zoom { zoom_in },
            InputAction::ResetZoom => {
                self.show_osd(String::from_str("Zoom: Reset"), now_ms);
                Command::ResetZoom
            },
            _ => {
                proof {
                    assert(false);
                }
                Command::Nothing
            },
        }
    }
}


/// What the OSD shows at `now`: its message until the message expires.
pub open spec fn osd_text_at(osd: Option<(String, u64)>, now: u64) -> Seq<char> {
    match osd {
        Some((t, e)) => if now > e {
            Seq::empty()
        } else {
            t@
        },
        None => Seq::empty(),
    }
}

/// The centre error text for the current image of a viewer.
pub open spec fn error_text_spec<T>(v: ViewerState<T>) -> Seq<char> {
    let idx = v.textures.index_spec() as usize;
    if v.textures.paths_spec().len() > 0 && v.textures.errors_spec().contains_key(idx) {
        "Failed to load:\n"@ + v.textures.errors_spec()[idx]@
    } else {
        Seq::empty()
    }
}

/// The current path of a viewer, if it has images.
pub open spec fn current_path_spec<T>(v: ViewerState<T>) -> Option<Seq<char>> {
    if 0 <= v.textures.index_spec() < v.textures.paths_spec().len() {
        Some(v.textures.paths_spec()[v.textures.index_spec()]@)
    } else {
        None
    }
}

/// The info panel text of a viewer after a refresh.
pub open spec fn info_text_spec<T>(v: ViewerState<T>) -> Seq<char> {
    if v.overlay.info_spec() {
        match v.cached_info {
            Some(c) => c@,
            None => Seq::empty(),
        }
    } else if v.info_temp_expiry is Some {
        v.overlay.texts_spec().2
    } else {
        Seq::empty()
    }
}

/// A temporary display deadline after time `now`: gone once reached.
pub open spec fn expired(expiry: Option<u64>, now: u64) -> Option<u64> {
    match expiry {
        Some(t) => if now >= t {
            None
        } else {
            Some(t)
        },
        None => None,
    }
}

impl<T> ViewerState<T> {
    /// Switch shuffle on or off, keeping the current image shown (without a
    /// transition) and forgetting the cached info text.
    pub fn set_shuffle(&mut self, enabled: bool)
        requires
            old(self).wf(),
        ensures
            final(self).wf(),
            final(self).settings == (ViewerSettings { shuffle: enabled, ..old(self).settings }),
            final(self).current_texture_index == Some(final(self).textures.index_spec() as usize),
            final(self).transition is None,
            final(self).bind_group_stale,
            final(self).cached_info is None,
            old(self).textures.paths_spec().len() > 0 ==> final(self).textures.paths_spec()[final(
                self).textures.index_spec()]@ == old(self).textures.paths_spec()[old(self).textures.index_spec()]@,
            final(self).overlay == old(self).overlay,
            final(self).slideshow == old(self).slideshow,
            final(self).osd_message == old(self).osd_message,
    {
        self.settings.shuffle = enabled;
        let new_index = self.textures.set_shuffle_enabled(enabled);
        self.current_texture_index = Some(new_index);
        self.transition = None;
        self.bind_group_stale = true;
        self.cached_info = None;
    }

    /// Carry out a button of the on-screen controller.
    pub fn execute_osc_action(&mut self, action: OscAction, now_ms: u64, facts: WindowFacts) -> (cmd: Command)
        requires
            old(self).wf(),
            now_ms <= u64::MAX - OSD_DURATION_MS,
        ensures
            final(self).wf(),
            match action {
                OscAction::PlayPause => action_ok(
                    *old(self),
                    *final(self),
                    InputAction::TogglePause,
                    now_ms,
                    facts,
                    cmd,
                ),
                OscAction::Previous => cmd == Command::Nothing && ({
                    let r = previous_step(
                        old(self).textures.index_spec(),
                        old(self).textures.paths_spec().len() as int,
                        old(self).settings.pause_at_last,
                    );
                    &&& final(self).textures.index_spec() == r.1
                    &&& r.0 ==> shown_after_move(
                        *old(self),
                        *final(self),
                        old(self).textures.index_spec(),
                        now_ms,
                    )
                    &&& !r.0 ==> *final(self) == *old(self)
                }),
                OscAction::Next => cmd == Command::Nothing && ({
                    let r = next_step(
                        old(self).textures.index_spec(),
                        old(self).textures.paths_spec().len() as int,
                        old(self).settings.pause_at_last,
                    );
                    &&& final(self).textures.index_spec() == r.1
                    &&& r.0 ==> shown_after_move(
                        *old(self),
                        *final(self),
                        old(self).textures.index_spec(),
                        now_ms,
                    )
                    &&& !r.0 ==> *final(self) == *old(self)
                }),
                OscAction::ToggleShuffle => {
                    &&& cmd == Command::Nothing
                    &&& *final(self) == (ViewerState::<T> {
                        textures: final(self).textures,
                        settings: ViewerSettings { shuffle: !old(self).settings.shuffle, ..old(self).settings },
                        current_texture_index: Some(final(self).textures.index_spec() as usize),
                        transition: None,
                        bind_group_stale: true,
                        osd_message: final(self).osd_message,
                        ..*old(self)
                    })
                    &&& old(self).textures.paths_spec().len() > 0 && !old(self).settings.shuffle
                        ==> final(self).textures.paths_spec().to_multiset()
                        == old(self).textures.paths_spec().to_multiset()
                    &&& old(self).textures.paths_spec().len() > 0 && old(self).settings.shuffle
                        ==> final(self).textures.paths_spec() == old(self).textures.original_spec()
                    &&& old(self).textures.paths_spec().len() > 0 ==> final(self).textures.paths_spec()[final(
                        self).textures.index_spec()]@ == old(self).textures.paths_spec()[old(self).textures.index_spec()]@
                    &&& osd_shows(final(self).osd_message, on_off_text("Shuffle"@, !old(self).settings.shuffle), now_ms)
                },
                OscAction::OpenSettings => {
                    &&& cmd == Command::Nothing
                    &&& panel_toggled(old(self).overlay, final(self).overlay, OverlayKind::Settings)
                    &&& *final(self) == (ViewerState::<T> { overlay: final(self).overlay, ..*old(self) })
                },
                OscAction::Seek(index) => action_ok(
                    *old(self),
                    *final(self),
                    InputAction::JumpTo(index),
                    now_ms,
                    facts,
                    cmd,
                ),
            },
    {
        match action {
            OscAction::PlayPause => self.execute_action(InputAction::TogglePause, now_ms, facts),
            OscAction::Previous => {
                self.prev_image(now_ms);
                Command::Nothing
            },
            OscAction::Next => {
                self.next_image(now_ms);
                Command::Nothing
            },
            OscAction::ToggleShuffle => {
                let on = !self.settings.shuffle;
                self.settings.shuffle = on;
                let new_index = self.textures.set_shuffle_enabled(on);
                self.current_texture_index = Some(new_index);
                self.transition = None;
                self.bind_group_stale = true;
                self.show_osd(on_off_message("Shuffle", on), now_ms);
                Command::Nothing
            },
            OscAction::OpenSettings => {
                self.overlay.toggle_settings();
                Command::Nothing
            },
            OscAction::Seek(index) => {
                self.jump_to(index, now_ms);
                Command::Nothing
            },
        }
    }

    /// Set the slideshow interval chosen in the settings panel and report it.
    pub fn set_timer_from_settings(&mut self, ms: i64, now_ms: u64)
        requires
            old(self).wf(),
            now_ms <= u64::MAX - OSD_DURATION_MS,
        ensures
            final(self).wf(),
            timer_set(old(self).slideshow, final(self).slideshow, sanitized(ms as int) as u64, now_ms),
            osd_shows(final(self).osd_message, "Timer: "@ + seconds_spec(ms) + "s"@, now_ms),
            *final(self) == (ViewerState::<T> {
                slideshow: final(self).slideshow,
                osd_message: final(self).osd_message,
                ..*old(self)
            }),
    {
        self.slideshow.set_duration(ms, now_ms);
        let mut text = String::new();
        push_str(&mut text, "Timer: ");
        let secs = seconds_text(ms);
        push_str(&mut text, secs.as_str());
        push_str(&mut text, "s");
        assert(text@ =~= "Timer: "@ + seconds_spec(ms) + "s"@);
        self.show_osd(text, now_ms);
    }

    /// End a transition whose time is up: its destination becomes the shown
    /// image.
    pub fn finish_transition_if_due(&mut self, now_ms: u64)
        ensures
            match old(self).transition {
                Some(t) => if elapsed(now_ms, t.start_ms) >= t.duration_ms {
                    *final(self) == (ViewerState::<T> {
                        current_texture_index: Some(t.to_index),
                        transition: None,
                        bind_group_stale: true,
                        ..*old(self)
                    })
                } else {
                    *final(self) == *old(self)
                },
                None => *final(self) == *old(self),
            },
    {
        match self.transition {
            Some(t) => {
                let since: u64 = if now_ms >= t.start_ms {
                    now_ms - t.start_ms
                } else {
                    0
                };
                if since >= t.duration_ms {
                    self.current_texture_index = Some(t.to_index);
                    self.transition = None;
                    self.bind_group_stale = true;
                }
            },
            None => {},
        }
    }

    /// Whether the slideshow or sequence may advance on its own now: no
    /// transition plays and there are images.
    pub fn auto_advance_due(&self) -> (b: bool)
        ensures
            b == (self.transition is None && self.textures.paths_spec().len() > 0),
    {
        self.transition.is_none() && self.textures.len() > 0
    }

    /// Advance to the next image when the slideshow interval has passed.
    /// Returns whether the image changed.
    pub fn slideshow_tick(&mut self, now_ms: u64) -> (moved: bool)
        requires
            old(self).wf(),
        ensures
            final(self).wf(),
            ({
                let fired = !old(self).slideshow.base.paused && elapsed(
                    now_ms,
                    old(self).slideshow.base.last_tick_ms,
                ) >= old(self).slideshow.interval_ms;
                let r = next_step(
                    old(self).textures.index_spec(),
                    old(self).textures.paths_spec().len() as int,
                    old(self).settings.pause_at_last,
                );
                &&& !fired ==> *final(self) == *old(self) && !moved
                &&& fired ==> moved == r.0 && final(self).textures.index_spec() == r.1
                &&& fired && r.0 ==> shown_after_move(
                    *old(self),
                    *final(self),
                    old(self).textures.index_spec(),
                    now_ms,
                )
                &&& fired && !r.0 ==> *final(self) == (ViewerState::<T> {
                    slideshow: SlideshowTimer {
                        base: TimerBase { last_tick_ms: now_ms, ..old(self).slideshow.base },
                        ..old(self).slideshow
                    },
                    ..*old(self)
                })
            }),
    {
        if self.slideshow.update(now_ms) {
            self.next_image(now_ms)
        } else {
            false
        }
    }

    /// Drop temporary displays whose time is up.
    pub fn expire_temporary(&mut self, now_ms: u64)
        ensures
            *final(self) == (ViewerState::<T> {
                filename_bar_temp_expiry: expired(old(self).filename_bar_temp_expiry, now_ms),
                info_temp_expiry: expired(old(self).info_temp_expiry, now_ms),
                ..*old(self)
            }),
    {
        match self.filename_bar_temp_expiry {
            Some(t) => if now_ms >= t {
                self.filename_bar_temp_expiry = None;
            },
            None => {},
        }
        match self.info_temp_expiry {
            Some(t) => if now_ms >= t {
                self.info_temp_expiry = None;
            },
            None => {},
        }
    }

    /// Whether the info panel needs the current image's info text built.
    pub fn needs_info_text(&self) -> (b: bool)
        ensures
            b == (self.overlay.info_spec() && self.cached_info is None),
    {
        self.overlay.info_overlay_visible() && self.cached_info.is_none()
    }

    /// Bring the overlay texts up to date: the centre error of the current
    /// image, the filename bar, the OSD (dropping an expired message) and
    /// the info panel.
    pub fn refresh_texts(&mut self, now_ms: u64)
        requires
            old(self).wf(),
        ensures
            final(self).wf(),
            final(self).overlay.texts_spec() == (
                filename_bar_spec(
                    old(self).textures.paths_spec().len() as usize,
                    old(self).show_filename_text || old(self).filename_bar_temp_expiry is Some,
                    current_path_spec(*old(self)),
                    old(self).textures.index_spec() as usize,
                ),
                osd_text_at(old(self).osd_message, now_ms),
                info_text_spec(*old(self)),
                error_text_spec(*old(self)),
            ),
            final(self).overlay.info_spec() == old(self).overlay.info_spec(),
            final(self).overlay.stack_spec() == old(self).overlay.stack_spec(),
            final(self).osd_message == (match old(self).osd_message {
                Some((t, e)) => if now_ms > e {
                    None
                } else {
                    old(self).osd_message
                },
                None => None,
            }),
            forall|k: OverlayKind| final(self).overlay.shown_spec(k) == old(self).overlay.shown_spec(k),
            final(self).overlay.osc_spec() == old(self).overlay.osc_spec(),
            *final(self) == (ViewerState::<T> {
                overlay: final(self).overlay,
                osd_message: final(self).osd_message,
                ..*old(self)
            }),
    {
        let len = self.textures.len();
        let idx = self.textures.current_index();
        proof {
            self.textures.lemma_index_in_range();
        }
        let err = if len > 0 {
            match self.textures.get_error(idx) {
                Some(e) => {
                    let mut text = String::new();
                    push_str(&mut text, "Failed to load:\n");
                    push_str(&mut text, e.as_str());
                    Some(text)
                },
                None => None,
            }
        } else {
            None
        };
        match err {
            Some(text) => self.overlay.set_center_error(text.as_str()),
            None => {
                self.overlay.clear_center_error();
            },
        }
        let show_bar = self.show_filename_text || self.filename_bar_temp_expiry.is_some();
        let bar = match self.textures.current_path() {
            Some(p) => filename_bar_text(len, show_bar, Some(p.as_str()), idx),
            None => filename_bar_text(len, show_bar, None, idx),
        };
        self.overlay.set_text(bar.as_str());
        let osd = match &self.osd_message {
            Some((text, expiry)) => if now_ms > *expiry {
                None
            } else {
                Some(text.clone())
            },
            None => None,
        };
        match osd {
            Some(text) => self.overlay.set_osd_text(text.as_str()),
            None => {
                self.osd_message = None;
                self.overlay.set_osd_text("");
            },
        }
        if self.overlay.info_overlay_visible() {
            match &self.cached_info {
                Some(c) => {
                    let c2 = c.clone();
                    self.overlay.set_info_text(c2.as_str());
                },
                None => self.overlay.set_info_text(""),
            }
        } else if self.info_temp_expiry.is_some() {
        } else {
            self.overlay.set_info_text("");
        }
        proof {
            reveal_strlit("");
            assert(""@ =~= Seq::<char>::empty());
        }
    }

    /// Take in a drop of files: report rejected paths, then append the
    /// images found (holding Shift) or replace the list with them, shuffled
    /// when shuffle is on, and report how many were taken.
    pub fn apply_drop(&mut self, rejected: usize, scan: DropScan, append: bool, now_ms: u64)
        requires
            old(self).wf(),
            now_ms <= u64::MAX - OSD_DURATION_MS,
        ensures
            final(self).wf(),
            match scan {
                DropScan::NoPaths => if rejected > 0 {
                    &&& osd_shows(
                        final(self).osd_message,
                        counted_spec("Rejected "@, rejected as int, " non-UTF-8 path(s)"@),
                        now_ms,
                    )
                    &&& *final(self) == (ViewerState::<T> { osd_message: final(self).osd_message, ..*old(self) })
                } else {
                    *final(self) == *old(self)
                },
                DropScan::Failed => {
                    &&& osd_shows(
                        final(self).osd_message,
                        "No supported images found"@ + rejected_suffix_spec(rejected),
                        now_ms,
                    )
                    &&& *final(self) == (ViewerState::<T> { osd_message: final(self).osd_message, ..*old(self) })
                },
                DropScan::Found(found) => exists|taken: Seq<String>|
                    #![trigger taken.to_multiset()]
                    {
                        &&& taken.to_multiset() == found@.to_multiset()
                        &&& taken.len() == found@.len()
                        &&& !old(self).settings.shuffle ==> taken == found@
                        &&& final(self).cached_info is None
                        &&& if append {
                            &&& final(self).textures.paths_spec() == old(self).textures.paths_spec() + taken
                            &&& old(self).textures.paths_spec().len() > 0 ==> {
                                &&& final(self).textures.index_spec() == old(self).textures.index_spec()
                                &&& final(self).textures.textures_spec() == old(self).textures.textures_spec()
                                &&& final(self).textures.errors_spec() == old(self).textures.errors_spec()
                                &&& final(self).textures.loading_spec() == old(self).textures.loading_spec()
                                &&& final(self).textures.epoch_spec() == old(self).textures.epoch_spec()
                            }
                            &&& final(self).textures.settings_spec() == old(self).textures.settings_spec()
                            &&& *final(self) == (ViewerState::<T> {
                                textures: final(self).textures,
                                osd_message: final(self).osd_message,
                                cached_info: None,
                                ..*old(self)
                            })
                            &&& osd_shows(
                                final(self).osd_message,
                                counted_spec("Appended "@, found@.len() as int, " images"@ + rejected_suffix_spec(rejected)),
                                now_ms,
                            )
                        } else {
                            &&& final(self).textures.paths_spec() == taken
                            &&& final(self).textures.index_spec() == 0
                            &&& final(self).transition is None
                            &&& final(self).current_texture_index == (if found@.len() > 0 {
                                Some(0usize)
                            } else {
                                None
                            })
                            &&& final(self).slideshow == (SlideshowTimer {
                                base: TimerBase { last_tick_ms: now_ms, ..old(self).slideshow.base },
                                ..old(self).slideshow
                            })
                            &&& final(self).textures.textures_spec() == Map::<usize, T>::empty()
                            &&& final(self).textures.errors_spec() == Map::<usize, String>::empty()
                            &&& final(self).textures.loading_spec() == Map::<usize, u64>::empty()
                            &&& final(self).textures.settings_spec() == old(self).textures.settings_spec()
                            &&& *final(self) == (ViewerState::<T> {
                                textures: final(self).textures,
                                transition: None,
                                bind_group_stale: true,
                                current_texture_index: final(self).current_texture_index,
                                slideshow: final(self).slideshow,
                                osd_message: final(self).osd_message,
                                cached_info: None,
                                ..*old(self)
                            })
                            &&& osd_shows(
                                final(self).osd_message,
                                counted_spec("Loaded "@, found@.len() as int, " images"@ + rejected_suffix_spec(rejected)),
                                now_ms,
                            )
                        }
                    },
            },
    {
        match scan {
            DropScan::NoPaths => {
                if rejected > 0 {
                    let text = counted_message("Rejected ", rejected as u64, " non-UTF-8 path(s)");
                    self.show_osd(text, now_ms);
                }
            },
            DropScan::Failed => {
                let mut text = String::new();
                push_str(&mut text, "No supported images found");
                let suffix = rejected_suffix(rejected);
                push_str(&mut text, suffix.as_str());
                self.show_osd(text, now_ms);
            },
            DropScan::Found(found) => {
                let ghost found_v = found@;
                let mut new_paths = found;
                if self.settings.shuffle {
                    crate::image_loader::shuffle_strings(&mut new_paths);
                }
                let ghost taken = new_paths@;
                let count = new_paths.len();
                let suffix = rejected_suffix(rejected);
                let mut rest = String::new();
                push_str(&mut rest, " images");
                push_str(&mut rest, suffix.as_str());
                assert(rest@ =~= " images"@ + rejected_suffix_spec(rejected));
                if append {
                    self.textures.append_paths(new_paths);
                    let text = counted_message("Appended ", count as u64, rest.as_str());
                    self.show_osd(text, now_ms);
                } else {
                    self.textures.replace_paths(new_paths);
                    self.transition = None;
                    self.bind_group_stale = true;
                    self.current_texture_index = if count > 0 {
                        Some(0)
                    } else {
                        None
                    };
                    self.slideshow.reset(now_ms);
                    let text = counted_message("Loaded ", count as u64, rest.as_str());
                    self.show_osd(text, now_ms);
                }
                self.cached_info = None;
                proof {
                    broadcast use vstd::seq_lib::group_to_multiset_ensures;
                    if !self.settings.shuffle {
                        assert(taken == found_v);
                    }
                    assert(taken.to_multiset() == found_v.to_multiset());
                    assert(taken.len() == found_v.len());
                }
            },
        }
    }

    /// Whether something on screen changes by itself, so that frames must
    /// keep being drawn: a transition, a running slideshow or sequence, an
    /// OSD message or temporary display, a panel or the controller, loads in
    /// flight, or a visible cursor that will hide itself.
    pub fn is_animating(&self, sequence_running: bool, cursor_visible: bool) -> (b: bool)
        ensures
            b == (self.transition is Some || !self.slideshow.base.paused || (
            self.settings.playback_mode == PlaybackMode::Sequence && sequence_running)
                || self.osd_message is Some || self.filename_bar_temp_expiry is Some
                || self.info_temp_expiry is Some || self.overlay.shown_spec(OverlayKind::Settings)
                || self.overlay.shown_spec(OverlayKind::Help) || self.overlay.shown_spec(
                OverlayKind::Gallery,
            ) || self.overlay.osc_visible_spec() || !self.textures.loading_spec().is_empty()
                || cursor_visible),
    {
        self.transition.is_some() || !self.slideshow.paused() || (self.settings.playback_mode
            == PlaybackMode::Sequence && sequence_running) || self.osd_message.is_some()
            || self.filename_bar_temp_expiry.is_some() || self.info_temp_expiry.is_some()
            || self.overlay.is_active() || self.textures.is_loading() || cursor_visible
    }
}

/// Pressing the loop key twice restores the settings (and the OSD reports
/// the opposite states on the two presses).
pub proof fn lemma_toggle_loop_twice<T>(
    s0: ViewerState<T>,
    s1: ViewerState<T>,
    s2: ViewerState<T>,
    t1: u64,
    t2: u64,
    facts: WindowFacts,
    c1: Command,
    c2: Command,
)
    requires
        action_ok(s0, s1, InputAction::ToggleLoop, t1, facts, c1),
        action_ok(s1, s2, InputAction::ToggleLoop, t2, facts, c2),
    ensures
        s2.settings == s0.settings,
        s1.settings.pause_at_last == !s0.settings.pause_at_last,
{
}

/// Pressing the fit-mode key twice restores the fit mode.
pub proof fn lemma_toggle_fit_twice<T>(
    s0: ViewerState<T>,
    s1: ViewerState<T>,
    s2: ViewerState<T>,
    t1: u64,
    t2: u64,
    facts: WindowFacts,
    c1: Command,
    c2: Command,
)
    requires
        action_ok(s0, s1, InputAction::ToggleFitMode, t1, facts, c1),
        action_ok(s1, s2, InputAction::ToggleFitMode, t2, facts, c2),
    ensures
        s2.settings == s0.settings,
        s1.settings.fit_mode != s0.settings.fit_mode,
{
    crate::config::lemma_fit_toggle_involution(s0.settings.fit_mode);
}

/// Pressing the filename key twice restores whether the filename bar is
/// shown, and leaves no temporary display pending.
pub proof fn lemma_toggle_filename_twice<T>(
    s0: ViewerState<T>,
    s1: ViewerState<T>,
    s2: ViewerState<T>,
    t1: u64,
    t2: u64,
    facts: WindowFacts,
    c1: Command,
    c2: Command,
)
    requires
        action_ok(s0, s1, InputAction::ToggleFilenameDisplay, t1, facts, c1),
        action_ok(s1, s2, InputAction::ToggleFilenameDisplay, t2, facts, c2),
    ensures
        s2.show_filename_text == s0.show_filename_text,
        s2.filename_bar_temp_expiry is None,
        s2.settings == s0.settings,
        s2.textures == s0.textures,
{
}

/// A pause the user asked for is never lifted by changing the timer: after
/// the timer key, a timer reset or a new interval from the settings, a
/// slideshow the user paused is still paused.
pub proof fn lemma_timer_change_keeps_user_pause<T>(
    s0: ViewerState<T>,
    s1: ViewerState<T>,
    action: InputAction,
    now: u64,
    facts: WindowFacts,
    cmd: Command,
)
    requires
        s0.slideshow.paused_by_user,
        s0.slideshow.base.paused,
        action is AdjustTimer || action is ResetTimer,
        action_ok(s0, s1, action, now, facts, cmd),
    ensures
        s1.slideshow.base.paused,
        s1.slideshow.paused_by_user || s1.slideshow.base.paused,
{
}

/// Every navigation by steps lands inside a non-empty image list.
pub proof fn lemma_steps_stay_in_list(cur: int, len: int, pause_at_last: bool, n: nat)
    requires
        0 <= cur < len,
    ensures
        0 <= forward_steps(cur, len, pause_at_last, n).1 < len,
        0 <= backward_steps(cur, len, pause_at_last, n).1 < len,
    decreases n,
{
    if n > 0 {
        lemma_steps_stay_in_list(cur, len, pause_at_last, (n - 1) as nat);
    }
}

/// With wrap-around, `n` steps forward and then `n` steps back return to
/// the starting image.
pub proof fn lemma_steps_forward_then_back(cur: int, len: int, n: nat)
    requires
        0 <= cur < len,
    ensures
        backward_steps(forward_steps(cur, len, false, n).1, len, false, n).1 == cur,
    decreases n,
{
    if n > 0 {
        let m = (n - 1) as nat;
        lemma_steps_forward_then_back(cur, len, m);
        lemma_steps_stay_in_list(cur, len, false, m);
        let mid = forward_steps(cur, len, false, m).1;
        let after = next_step(mid, len, false).1;
        crate::image_loader::lemma_next_previous_inverse(mid, len);
        lemma_backward_first_step(after, len, m);
        assert(forward_steps(cur, len, false, n).1 == after);
    }
}

/// `n + 1` steps back are one step back followed by `n` more.
proof fn lemma_backward_first_step(start: int, len: int, n: nat)
    requires
        0 <= start < len,
    ensures
        backward_steps(start, len, false, n + 1).1 == backward_steps(
            previous_step(start, len, false).1,
            len,
            false,
            n,
        ).1,
    decreases n,
{
    let p = previous_step(start, len, false).1;
    if n > 0 {
        lemma_backward_first_step(start, len, (n - 1) as nat);
        let b = backward_steps(start, len, false, n);
        assert(backward_steps(start, len, false, n + 1).1 == previous_step(b.1, len, false).1);
        let c = backward_steps(p, len, false, (n - 1) as nat);
        assert(backward_steps(p, len, false, n).1 == previous_step(c.1, len, false).1);
    } else {
        assert(backward_steps(start, len, false, 0).1 == start);
        assert(backward_steps(start, len, false, 1).1 == p);
    }
}

/// A zoom action changes nothing in the viewer and hands the zoom to the
/// caller in the direction asked for: in stays in, out stays out.
pub proof fn lemma_zoom_is_handed_over<T>(
    old: ViewerState<T>,
    new: ViewerState<T>,
    zoom_in: bool,
    now_ms: u64,
    facts: WindowFacts,
    cmd: Command,
)
    requires
        action_ok(old, new, InputAction::Zoom { zoom_in }, now_ms, facts, cmd),
    ensures
        cmd == (Command::Zoom { zoom_in }),
        new == old,
{
}

/// Ctrl with the mouse wheel zooms: scrolling up makes the caller zoom in,
/// scrolling down makes it zoom out, and the viewer state is unchanged.
pub proof fn lemma_ctrl_wheel_zooms<T>(
    old: ViewerState<T>,
    new: ViewerState<T>,
    dir: WheelDirection,
    m: Modifiers,
    a: InputAction,
    now_ms: u64,
    facts: WindowFacts,
    cmd: Command,
)
    requires
        m.control,
        wheel_action(dir, m) == (true, Some(a)),
        action_ok(old, new, a, now_ms, facts, cmd),
    ensures
        dir != WheelDirection::Still,
        cmd == (Command::Zoom { zoom_in: dir == WheelDirection::Up }),
        new == old,
{
}

/// With wrap-around, Space followed by the left arrow (with the same
/// modifiers) comes back to the image one started on: Space goes forward by
/// exactly the steps the left arrow goes back.
pub proof fn lemma_space_then_left_returns<T>(
    s0: ViewerState<T>,
    s1: ViewerState<T>,
    s2: ViewerState<T>,
    m: Modifiers,
    ctx: InputContext,
    a1: InputAction,
    a2: InputAction,
    t1: u64,
    t2: u64,
    facts: WindowFacts,
    c1: Command,
    c2: Command,
)
    requires
        s0.wf(),
        !s0.settings.pause_at_last,
        key_action(KeyCode::Space, m, ctx) == Some(a1),
        key_action(KeyCode::ArrowLeft, m, ctx) == Some(a2),
        action_ok(s0, s1, a1, t1, facts, c1),
        action_ok(s1, s2, a2, t2, facts, c2),
    ensures
        s2.textures.index_spec() == s0.textures.index_spec(),
        c1 == Command::Nothing && c2 == Command::Nothing,
{
    lemma_navigation_keys(m, ctx);
    let n: nat = if m.shift { 10 } else { 1 };
    let len = s0.textures.paths_spec().len() as int;
    let cur = s0.textures.index_spec();
    s0.textures.lemma_index_in_range();
    if len > 0 {
        lemma_steps_forward_then_back(cur, len, n);
    } else {
        assert(forward_steps(cur, len, false, n).0 == false) by {
            lemma_no_steps_on_empty(cur, n);
        }
        assert(backward_steps(cur, len, false, n).0 == false) by {
            lemma_no_steps_on_empty(cur, n);
        }
    }
}

/// On an empty list no step moves.
proof fn lemma_no_steps_on_empty(cur: int, n: nat)
    ensures
        forward_steps(cur, 0, false, n).0 == false,
        forward_steps(cur, 0, false, n).1 == cur,
        backward_steps(cur, 0, false, n).0 == false,
        backward_steps(cur, 0, false, n).1 == cur,
    decreases n,
{
    if n > 0 {
        lemma_no_steps_on_empty(cur, (n - 1) as nat);
    }
}

/// On a whole number of seconds the timer keys undo each other: `]` adds
/// exactly one second (a minute with Shift), `[` takes off the same amount,
/// and never goes below zero.
pub proof fn lemma_timer_keys_inverse(secs: int, d: i32)
    requires
        0 <= secs,
        d == 1 || d == 60,
        (secs + 60) * 1000 <= i64::MAX,
    ensures
        adjusted_timer_spec((secs * 1000) as u64, d) == (secs + d) * 1000,
        adjusted_timer_spec(((secs + d) * 1000) as u64, (-d) as i32) == secs * 1000,
        adjusted_timer_spec((secs * 1000) as u64, (-d) as i32) == (if secs > d { (secs - d) * 1000 } else { 0 }),
{
    assert((secs * 1000 + 500) / 1000 == secs);
    assert(((secs + d) * 1000 + 500) / 1000 == secs + d);
}

/// Pressing the always-on-top key twice restores the setting; the two
/// presses ask the caller for opposite window levels, the first one for the
/// level opposite to the setting it found.
pub proof fn lemma_toggle_always_on_top_twice<T>(
    s0: ViewerState<T>,
    s1: ViewerState<T>,
    s2: ViewerState<T>,
    t1: u64,
    t2: u64,
    facts: WindowFacts,
    c1: Command,
    c2: Command,
)
    requires
        action_ok(s0, s1, InputAction::ToggleAlwaysOnTop, t1, facts, c1),
        action_ok(s1, s2, InputAction::ToggleAlwaysOnTop, t2, facts, c2),
    ensures
        s2.settings == s0.settings,
        c1 == Command::ApplyAlwaysOnTop(!s0.settings.always_on_top),
        c2 == Command::ApplyAlwaysOnTop(s0.settings.always_on_top),
{
}

/// The fullscreen key asks for the opposite of the window's current state,
/// and pressing it again (once the window followed) asks for the state one
/// started with.
pub proof fn lemma_toggle_fullscreen_twice<T>(
    s0: ViewerState<T>,
    s1: ViewerState<T>,
    s2: ViewerState<T>,
    t1: u64,
    t2: u64,
    f1: WindowFacts,
    f2: WindowFacts,
    c1: Command,
    c2: Command,
)
    requires
        action_ok(s0, s1, InputAction::ToggleFullscreen, t1, f1, c1),
        f2.fullscreen == !f1.fullscreen,
        action_ok(s1, s2, InputAction::ToggleFullscreen, t2, f2, c2),
    ensures
        c1 == Command::ApplyFullscreen(!f1.fullscreen),
        c2 == Command::ApplyFullscreen(f1.fullscreen),
        s1.settings.fullscreen == !f1.fullscreen,
        s2.settings.fullscreen == f1.fullscreen,
{
}

/// In slideshow mode the pause key flips the pause and records it as the
/// user's; pressing it twice resumes a running slideshow (and vice versa).
pub proof fn lemma_toggle_pause_twice<T>(
    s0: ViewerState<T>,
    s1: ViewerState<T>,
    s2: ViewerState<T>,
    t1: u64,
    t2: u64,
    facts: WindowFacts,
    c1: Command,
    c2: Command,
)
    requires
        s0.settings.playback_mode == PlaybackMode::Slideshow,
        action_ok(s0, s1, InputAction::TogglePause, t1, facts, c1),
        action_ok(s1, s2, InputAction::TogglePause, t2, facts, c2),
    ensures
        s1.slideshow.base.paused == !s0.slideshow.base.paused,
        s1.slideshow.paused_by_user == s1.slideshow.base.paused,
        s2.slideshow.base.paused == s0.slideshow.base.paused,
        s2.slideshow.interval_ms == s0.slideshow.interval_ms,
        c1 == Command::Nothing && c2 == Command::Nothing,
{
}

/// Actions whose work is the caller's leave the viewer as it was and name
/// that work: exit, a colour key (the same key), and pausing a sequence.
pub proof fn lemma_actions_for_the_caller<T>(
    old: ViewerState<T>,
    new: ViewerState<T>,
    action: InputAction,
    now_ms: u64,
    facts: WindowFacts,
    cmd: Command,
)
    requires
        action_ok(old, new, action, now_ms, facts, cmd),
    ensures
        action == InputAction::Exit ==> cmd == Command::Exit && new == old,
        action matches InputAction::ColorAdjust { key } ==> cmd == Command::AdjustColor(key) && new == old,
        action == InputAction::TogglePause && old.settings.playback_mode == PlaybackMode::Sequence
            ==> cmd == Command::ToggleSequencePause && new == old,
{
}

} // verus!
