//! Keyboard and mouse decisions: which action a key, click or wheel step
//! asks for. Reading events and tracking pointer positions is left to the
//! caller, which describes events with the plain values below.

use vstd::prelude::*;

use crate::overlay::OverlayKind;

verus! {

/// The physical keys the viewer reacts to; every other key is `Other`.
#[derive(Debug, Clone, Copy, PartialEq, Eq, Structural)]
pub enum KeyCode {
    Escape,
    KeyQ,
    ArrowRight,
    ArrowLeft,
    Space,
    Home,
    End,
    KeyP,
    KeyF,
    KeyD,
    KeyT,
    BracketLeft,
    BracketRight,
    Backspace,
    KeyS,
    Digit0,
    Digit1,
    Digit2,
    Digit3,
    Digit4,
    Digit5,
    Digit6,
    Digit7,
    Digit8,
    Digit9,
    KeyI,
    KeyO,
    KeyL,
    KeyA,
    KeyC,
    KeyE,
    Slash,
    KeyG,
    KeyZ,
    Other,
}

/// Modifier keys held during an event.
#[derive(Debug, Clone, Copy, PartialEq, Eq, Structural)]
pub struct Modifiers {
    pub shift: bool,
    pub control: bool,
    pub alt: bool,
}

/// Mouse buttons.
#[derive(Debug, Clone, Copy, PartialEq, Eq, Structural)]
pub enum MouseButton {
    Left,
    Right,
    Other,
}

/// Direction of a wheel step.
#[derive(Debug, Clone, Copy, PartialEq, Eq, Structural)]
pub enum WheelDirection {
    /// Away from the user (positive delta).
    Up,
    /// Towards the user (negative delta).
    Down,
    /// No vertical movement.
    Still,
}

/// What the viewer knows when it interprets a key.
#[derive(Debug, Clone, Copy)]
pub struct InputContext {
    pub fullscreen: bool,
    pub image_count: usize,
    /// The frontmost open panel, which Escape closes first.
    pub front_overlay: Option<OverlayKind>,
    /// Size of the displayed image in pixels, if any.
    pub current_image_size: Option<(u32, u32)>,
}

/// Actions that input can trigger.
#[derive(Debug, Clone, Copy, PartialEq, Eq, Structural)]
pub enum InputAction {
    NextImage { steps: usize },
    PrevImage { steps: usize },
    JumpTo(usize),
    TogglePause,
    ToggleFullscreen,
    SetFullscreen(bool),
    ToggleDecorations,
    ToggleAlwaysOnTop,
    /// Change the timer by this many seconds: `+1`/`-1` for the plain
    /// keys, `+60`/`-60` with Shift.
    AdjustTimer(i32),
    ResetTimer,
    Screenshot,
    ColorAdjust { key: KeyCode },
    ResetColorAdjustments,
    ToggleInfoOverlay,
    ShowInfoTemporary,
    ToggleFilenameDisplay,
    ShowFilenameTemporary,
    ToggleLoop,
    ToggleFitMode,
    SetWindowPosition { x: i32, y: i32 },
    CopyImageToClipboard,
    ToggleHelpOverlay,
    ToggleSettings,
    ToggleGallery,
    Exit,
    ResizeWindow { width: u32, height: u32 },
    CopyPathToClipboard,
    OpenInExplorer,
    /// Zoom one step in (`true`) or out.
    Zoom { zoom_in: bool },
    ResetZoom,
}

/// Navigation step: ten with Shift, else one.
pub open spec fn step_count(m: Modifiers) -> usize {
    if m.shift {
        10
    } else {
        1
    }
}

/// The window size for an Alt+digit resize, from the image size.
pub open spec fn resize_to(size: Option<(u32, u32)>, num: int, den: int) -> Option<InputAction> {
    match size {
        Some((w, h)) => Some(
            InputAction::ResizeWindow {
                width: if den == 2 {
                    if w / 2 >= 1 {
                        (w / 2) as u32
                    } else {
                        1
                    }
                } else {
                    (w * num) as u32
                },
                height: if den == 2 {
                    if h / 2 >= 1 {
                        (h / 2) as u32
                    } else {
                        1
                    }
                } else {
                    (h * num) as u32
                },
            },
        ),
        None => None,
    }
}

/// The keyboard map.
pub open spec fn key_action(key: KeyCode, m: Modifiers, ctx: InputContext) -> Option<InputAction> {
    match key {
        KeyCode::Escape => Some(
            match ctx.front_overlay {
                Some(OverlayKind::Gallery) => InputAction::ToggleGallery,
                Some(OverlayKind::Help) => InputAction::ToggleHelpOverlay,
                Some(OverlayKind::Settings) => InputAction::ToggleSettings,
                None => InputAction::Exit,
            },
        ),
        KeyCode::KeyQ => Some(InputAction::Exit),
        KeyCode::ArrowRight | KeyCode::Space => Some(InputAction::NextImage { steps: step_count(m) }),
        KeyCode::ArrowLeft => Some(InputAction::PrevImage { steps: step_count(m) }),
        KeyCode::Home => Some(InputAction::JumpTo(0)),
        KeyCode::End => Some(
            InputAction::JumpTo(
                if ctx.image_count > 0 {
                    (ctx.image_count - 1) as usize
                } else {
                    0
                },
            ),
        ),
        KeyCode::KeyP => Some(InputAction::TogglePause),
        KeyCode::KeyF => Some(InputAction::ToggleFullscreen),
        KeyCode::KeyD => Some(InputAction::ToggleDecorations),
        KeyCode::KeyT => Some(InputAction::ToggleAlwaysOnTop),
        KeyCode::BracketLeft => Some(
            InputAction::AdjustTimer(
                if m.shift {
                    -60i32
                } else {
                    -1i32
                },
            ),
        ),
        KeyCode::BracketRight => Some(
            InputAction::AdjustTimer(
                if m.shift {
                    60i32
                } else {
                    1i32
                },
            ),
        ),
        KeyCode::Backspace => Some(
            if m.shift {
                InputAction::ResetColorAdjustments
            } else {
                InputAction::ResetTimer
            },
        ),
        KeyCode::KeyS => Some(InputAction::Screenshot),
        KeyCode::KeyI => Some(
            if m.shift {
                InputAction::ToggleInfoOverlay
            } else {
                InputAction::ShowInfoTemporary
            },
        ),
        KeyCode::KeyO => Some(
            if m.shift {
                InputAction::ToggleFilenameDisplay
            } else {
                InputAction::ShowFilenameTemporary
            },
        ),
        KeyCode::KeyL => Some(InputAction::ToggleLoop),
        KeyCode::KeyA => Some(InputAction::ToggleFitMode),
        KeyCode::KeyC => if m.control && m.shift {
            Some(InputAction::CopyImageToClipboard)
        } else if m.control {
            Some(InputAction::CopyPathToClipboard)
        } else {
            None
        },
        KeyCode::KeyE => if m.alt {
            Some(InputAction::OpenInExplorer)
        } else {
            None
        },
        KeyCode::Slash => if m.shift {
            Some(InputAction::ToggleHelpOverlay)
        } else {
            None
        },
        KeyCode::KeyG => Some(InputAction::ToggleGallery),
        KeyCode::KeyZ => Some(InputAction::ResetZoom),
        KeyCode::Digit0 => if m.alt {
            resize_to(ctx.current_image_size, 1, 2)
        } else {
            None
        },
        KeyCode::Digit1 | KeyCode::Digit2 => if !m.alt && !m.shift && !m.control {
            Some(InputAction::ColorAdjust { key })
        } else if m.alt {
            resize_to(
                ctx.current_image_size,
                if key == KeyCode::Digit1 {
                    1
                } else {
                    2
                },
                1,
            )
        } else {
            None
        },
        KeyCode::Digit3 | KeyCode::Digit4 | KeyCode::Digit5 | KeyCode::Digit6 | KeyCode::Digit7
        | KeyCode::Digit8 => if !m.alt && !m.shift && !m.control {
            Some(InputAction::ColorAdjust { key })
        } else {
            None
        },
        KeyCode::Digit9 | KeyCode::Other => None,
    }
}

/// Doubling the image size for Alt+2 stays within `u32`.
pub open spec fn doubling_fits(key: KeyCode, m: Modifiers, ctx: InputContext) -> bool {
    key == KeyCode::Digit2 && m.alt ==> match ctx.current_image_size {
        Some((w, h)) => w <= u32::MAX / 2 && h <= u32::MAX / 2,
        None => true,
    }
}

/// The action for a key press, if the key means anything. The caller treats
/// the event as consumed exactly when an action comes back.
pub fn map_key(key: KeyCode, m: Modifiers, ctx: &InputContext) -> (a: Option<InputAction>)
    requires
        doubling_fits(key, m, *ctx),
    ensures
        a == key_action(key, m, *ctx),
{
    let steps: usize = if m.shift {
        10
    } else {
        1
    };
    match key {
        KeyCode::Escape => Some(
            match ctx.front_overlay {
                Some(OverlayKind::Gallery) => InputAction::ToggleGallery,
                Some(OverlayKind::Help) => InputAction::ToggleHelpOverlay,
                Some(OverlayKind::Settings) => InputAction::ToggleSettings,
                None => InputAction::Exit,
            },
        ),
        KeyCode::KeyQ => Some(InputAction::Exit),
        KeyCode::ArrowRight | KeyCode::Space => Some(InputAction::NextImage { steps }),
        KeyCode::ArrowLeft => Some(InputAction::PrevImage { steps }),
        KeyCode::Home => Some(InputAction::JumpTo(0)),
        KeyCode::End => Some(
            InputAction::JumpTo(
                if ctx.image_count > 0 {
                    ctx.image_count - 1
                } else {
                    0
                },
            ),
        ),
        KeyCode::KeyP => Some(InputAction::TogglePause),
        KeyCode::KeyF => Some(InputAction::ToggleFullscreen),
        KeyCode::KeyD => Some(InputAction::ToggleDecorations),
        KeyCode::KeyT => Some(InputAction::ToggleAlwaysOnTop),
        KeyCode::BracketLeft => Some(
            InputAction::AdjustTimer(
                if m.shift {
                    -60
                } else {
                    -1
                },
            ),
        ),
        KeyCode::BracketRight => Some(
            InputAction::AdjustTimer(
                if m.shift {
                    60
                } else {
                    1
                },
            ),
        ),
        KeyCode::Backspace => Some(
            if m.shift {
                InputAction::ResetColorAdjustments
            } else {
                InputAction::ResetTimer
            },
        ),
        KeyCode::KeyS => Some(InputAction::Screenshot),
        KeyCode::KeyI => Some(
            if m.shift {
                InputAction::ToggleInfoOverlay
            } else {
                InputAction::ShowInfoTemporary
            },
        ),
        KeyCode::KeyO => Some(
            if m.shift {
                InputAction::ToggleFilenameDisplay
            } else {
                InputAction::ShowFilenameTemporary
            },
        ),
        KeyCode::KeyL => Some(InputAction::ToggleLoop),
        KeyCode::KeyA => Some(InputAction::ToggleFitMode),
        KeyCode::KeyC => {
            if m.control && m.shift {
                Some(InputAction::CopyImageToClipboard)
            } else if m.control {
                Some(InputAction::CopyPathToClipboard)
            } else {
                None
            }
        },
        KeyCode::KeyE => {
            if m.alt {
                Some(InputAction::OpenInExplorer)
            } else {
                None
            }
        },
        KeyCode::Slash => {
            if m.shift {
                Some(InputAction::ToggleHelpOverlay)
            } else {
                None
            }
        },
        KeyCode::KeyG => Some(InputAction::ToggleGallery),
        KeyCode::KeyZ => Some(InputAction::ResetZoom),
        KeyCode::Digit0 => {
            if m.alt {
                match ctx.current_image_size {
                    Some((w, h)) => Some(
                        InputAction::ResizeWindow {
                            width: if w / 2 >= 1 {
                                w / 2
                            } else {
                                1
                            },
                            height: if h / 2 >= 1 {
                                h / 2
                            } else {
                                1
                            },
                        },
                    ),
                    None => None,
                }
            } else {
                None
            }
        },
        KeyCode::Digit1 | KeyCode::Digit2 => {
            if !m.alt && !m.shift && !m.control {
                Some(InputAction::ColorAdjust { key })
            } else if m.alt {
                let factor: u32 = if key == KeyCode::Digit1 {
                    1
                } else {
                    2
                };
                match ctx.current_image_size {
                    Some((w, h)) => Some(
                        InputAction::ResizeWindow { width: w * factor, height: h * factor },
                    ),
                    None => None,
                }
            } else {
                None
            }
        },
        KeyCode::Digit3 | KeyCode::Digit4 | KeyCode::Digit5 | KeyCode::Digit6 | KeyCode::Digit7
        | KeyCode::Digit8 => {
            if !m.alt && !m.shift && !m.control {
                Some(InputAction::ColorAdjust { key })
            } else {
                None
            }
        },
        KeyCode::Digit9 | KeyCode::Other => None,
    }
}

/// Two left clicks closer together than this (milliseconds) are a double click.
pub const DOUBLE_CLICK_MS: u64 = 300;

/// Click and drag state of the pointer. Positions are tracked by the caller.
pub struct PointerState {
    /// Time of the last left click that was not part of a double click.
    pub last_click_ms: Option<u64>,
    /// Whether the current left press turned into a drag.
    pub is_dragging: bool,
    /// Whether the next left release belongs to a double click.
    pub ignore_next_release: bool,
}

/// Whether a press at `now` completes a double click started at `last`.
pub open spec fn is_double_click(last: Option<u64>, now: u64) -> bool {
    match last {
        Some(t) => crate::timer::elapsed(now, t) < DOUBLE_CLICK_MS,
        None => false,
    }
}

impl PointerState {
    /// No click seen, no drag.
    pub fn new() -> (p: PointerState)
        ensures
            p.last_click_ms is None,
            !p.is_dragging,
            !p.ignore_next_release,
    {
        PointerState { last_click_ms: None, is_dragging: false, ignore_next_release: false }
    }

    /// A button press at `now_ms`. A left press within the double-click
    /// time of the previous one toggles fullscreen and swallows the coming
    /// release; any other left press starts a possible drag. A right press
    /// goes back one image. Returns whether the event was consumed and the
    /// action, if any. The caller remembers the drag start position on a
    /// left press that returns no action.
    pub fn press(&mut self, button: MouseButton, now_ms: u64) -> (r: (bool, Option<InputAction>))
        ensures
            button == MouseButton::Left && is_double_click(old(self).last_click_ms, now_ms) ==> {
                &&& r == (true, Some(InputAction::ToggleFullscreen))
                &&& final(self).last_click_ms is None
                &&& final(self).ignore_next_release
                &&& final(self).is_dragging == old(self).is_dragging
            },
            button == MouseButton::Left && !is_double_click(old(self).last_click_ms, now_ms) ==> {
                &&& r == (true, None::<InputAction>)
                &&& final(self).last_click_ms == Some(now_ms)
                &&& !final(self).ignore_next_release
                &&& !final(self).is_dragging
            },
            button == MouseButton::Right ==> r == (true, Some(InputAction::PrevImage { steps: 1 }))
                && *final(self) == *old(self),
            button == MouseButton::Other ==> r == (false, None::<InputAction>) && *final(self)
                == *old(self),
    {
        match button {
            MouseButton::Left => {
                let double = match self.last_click_ms {
                    Some(last) => {
                        let since: u64 = if now_ms >= last {
                            now_ms - last
                        } else {
                            0
                        };
                        since < DOUBLE_CLICK_MS
                    },
                    None => false,
                };
                if double {
                    self.last_click_ms = None;
                    self.ignore_next_release = true;
                    return (true, Some(InputAction::ToggleFullscreen));
                }
                self.last_click_ms = Some(now_ms);
                self.is_dragging = false;
                self.ignore_next_release = false;
                (true, None)
            },
            MouseButton::Right => (true, Some(InputAction::PrevImage { steps: 1 })),
            MouseButton::Other => (false, None),
        }
    }

    /// The caller saw the pointer move far enough from the press point.
    pub fn begin_drag(&mut self)
        ensures
            final(self).is_dragging,
            final(self).last_click_ms == old(self).last_click_ms,
            final(self).ignore_next_release == old(self).ignore_next_release,
    {
        self.is_dragging = true;
    }

    /// Release of the left button: ends a drag, or (unless it closes a
    /// double click) advances one image.
    pub fn release(&mut self) -> (r: (bool, Option<InputAction>))
        ensures
            old(self).is_dragging ==> r == (true, None::<InputAction>),
            !old(self).is_dragging && !old(self).ignore_next_release ==> r == (true, Some(
                InputAction::NextImage { steps: 1 },
            )),
            !old(self).is_dragging && old(self).ignore_next_release ==> r == (true, None::<
                InputAction,
            >),
            !final(self).is_dragging,
            final(self).last_click_ms == old(self).last_click_ms,
            final(self).ignore_next_release == old(self).ignore_next_release,
    {
        if self.is_dragging {
            self.is_dragging = false;
            (true, None)
        } else if !self.ignore_next_release {
            (true, Some(InputAction::NextImage { steps: 1 }))
        } else {
            (true, None)
        }
    }
}

/// The wheel map: with Control a step zooms; otherwise up goes back and
/// down goes forward, ten images at a time with Shift.
pub open spec fn wheel_action(dir: WheelDirection, m: Modifiers) -> (bool, Option<InputAction>) {
    if m.control {
        match dir {
            WheelDirection::Up => (true, Some(InputAction::Zoom { zoom_in: true })),
            WheelDirection::Down => (true, Some(InputAction::Zoom { zoom_in: false })),
            WheelDirection::Still => (false, None),
        }
    } else {
        match dir {
            WheelDirection::Up => (true, Some(InputAction::PrevImage { steps: step_count(m) })),
            WheelDirection::Down => (true, Some(InputAction::NextImage { steps: step_count(m) })),
            WheelDirection::Still => (false, None),
        }
    }
}

/// The action of one wheel step. Returns whether the event was consumed
/// and the action, if any.
pub fn map_wheel(dir: WheelDirection, m: Modifiers) -> (r: (bool, Option<InputAction>))
    ensures
        r == wheel_action(dir, m),
{
    if m.control {
        return match dir {
            WheelDirection::Up => (true, Some(InputAction::Zoom { zoom_in: true })),
            WheelDirection::Down => (true, Some(InputAction::Zoom { zoom_in: false })),
            WheelDirection::Still => (false, None),
        };
    }
    let steps: usize = if m.shift {
        10
    } else {
        1
    };
    match dir {
        WheelDirection::Up => (true, Some(InputAction::PrevImage { steps })),
        WheelDirection::Down => (true, Some(InputAction::NextImage { steps })),
        WheelDirection::Still => (false, None),
    }
}

/// Space and the right arrow both step forward, the left arrow steps back by
/// the same amount: one image, ten with Shift, whatever else is held.
pub proof fn lemma_navigation_keys(m: Modifiers, ctx: InputContext)
    ensures
        key_action(KeyCode::Space, m, ctx) == key_action(KeyCode::ArrowRight, m, ctx),
        key_action(KeyCode::ArrowRight, m, ctx) == Some(
            InputAction::NextImage { steps: if m.shift { 10usize } else { 1usize } },
        ),
        key_action(KeyCode::ArrowLeft, m, ctx) == Some(
            InputAction::PrevImage { steps: if m.shift { 10usize } else { 1usize } },
        ),
{
}

/// Without Ctrl the wheel navigates like the arrow keys: down like the right
/// arrow (forward), up like the left arrow (back). With Ctrl it zooms: up
/// zooms in, down zooms out. A wheel event without vertical movement does
/// nothing and is not consumed.
pub proof fn lemma_wheel_directions(m: Modifiers, ctx: InputContext)
    ensures
        !m.control ==> wheel_action(WheelDirection::Down, m) == (true, key_action(KeyCode::ArrowRight, m, ctx)),
        !m.control ==> wheel_action(WheelDirection::Up, m) == (true, key_action(KeyCode::ArrowLeft, m, ctx)),
        m.control ==> wheel_action(WheelDirection::Up, m) == (true, Some(InputAction::Zoom { zoom_in: true })),
        m.control ==> wheel_action(WheelDirection::Down, m) == (true, Some(InputAction::Zoom { zoom_in: false })),
        wheel_action(WheelDirection::Still, m) == (false, None::<InputAction>),
{
}

/// The two timer keys move the timer in opposite directions by the same
/// amount: one second, a minute with Shift; `]` lengthens it.
pub proof fn lemma_timer_keys_opposite(m: Modifiers, ctx: InputContext)
    ensures
        key_action(KeyCode::BracketRight, m, ctx) == Some(
            InputAction::AdjustTimer(if m.shift { 60i32 } else { 1i32 }),
        ),
        key_action(KeyCode::BracketLeft, m, ctx) == Some(
            InputAction::AdjustTimer(if m.shift { -60i32 } else { -1i32 }),
        ),
{
}

/// Home goes to the first image and End to the last one.
pub proof fn lemma_home_end(m: Modifiers, ctx: InputContext)
    requires
        ctx.image_count > 0,
    ensures
        key_action(KeyCode::Home, m, ctx) == Some(InputAction::JumpTo(0)),
        key_action(KeyCode::End, m, ctx) == Some(InputAction::JumpTo((ctx.image_count - 1) as usize)),
{
}

/// Escape closes the frontmost panel (toggling exactly that one), and exits
/// only when no panel is open; Q always exits.
pub proof fn lemma_escape_closes_front_panel(m: Modifiers, ctx: InputContext)
    ensures
        ctx.front_overlay == Some(OverlayKind::Gallery) ==> key_action(KeyCode::Escape, m, ctx)
            == Some(InputAction::ToggleGallery),
        ctx.front_overlay == Some(OverlayKind::Help) ==> key_action(KeyCode::Escape, m, ctx)
            == Some(InputAction::ToggleHelpOverlay),
        ctx.front_overlay == Some(OverlayKind::Settings) ==> key_action(KeyCode::Escape, m, ctx)
            == Some(InputAction::ToggleSettings),
        ctx.front_overlay is None ==> key_action(KeyCode::Escape, m, ctx) == Some(InputAction::Exit),
        key_action(KeyCode::KeyQ, m, ctx) == Some(InputAction::Exit),
{
}

/// The shortcuts that the help panel lists, each with the action it names.
pub proof fn lemma_help_shortcuts(ctx: InputContext)
    ensures
        ({
            let none = Modifiers { shift: false, control: false, alt: false };
            let shift = Modifiers { shift: true, control: false, alt: false };
            let ctrl = Modifiers { shift: false, control: true, alt: false };
            let ctrl_shift = Modifiers { shift: true, control: true, alt: false };
            let alt = Modifiers { shift: false, control: false, alt: true };
            &&& key_action(KeyCode::KeyP, none, ctx) == Some(InputAction::TogglePause)
            &&& key_action(KeyCode::KeyF, none, ctx) == Some(InputAction::ToggleFullscreen)
            &&& key_action(KeyCode::KeyD, none, ctx) == Some(InputAction::ToggleDecorations)
            &&& key_action(KeyCode::KeyT, none, ctx) == Some(InputAction::ToggleAlwaysOnTop)
            &&& key_action(KeyCode::Backspace, none, ctx) == Some(InputAction::ResetTimer)
            &&& key_action(KeyCode::Backspace, shift, ctx) == Some(InputAction::ResetColorAdjustments)
            &&& key_action(KeyCode::KeyS, none, ctx) == Some(InputAction::Screenshot)
            &&& key_action(KeyCode::KeyI, none, ctx) == Some(InputAction::ShowInfoTemporary)
            &&& key_action(KeyCode::KeyI, shift, ctx) == Some(InputAction::ToggleInfoOverlay)
            &&& key_action(KeyCode::KeyO, none, ctx) == Some(InputAction::ShowFilenameTemporary)
            &&& key_action(KeyCode::KeyO, shift, ctx) == Some(InputAction::ToggleFilenameDisplay)
            &&& key_action(KeyCode::KeyL, none, ctx) == Some(InputAction::ToggleLoop)
            &&& key_action(KeyCode::KeyA, none, ctx) == Some(InputAction::ToggleFitMode)
            &&& key_action(KeyCode::KeyC, ctrl, ctx) == Some(InputAction::CopyPathToClipboard)
            &&& key_action(KeyCode::KeyC, ctrl_shift, ctx) == Some(InputAction::CopyImageToClipboard)
            &&& key_action(KeyCode::KeyC, none, ctx) is None
            &&& key_action(KeyCode::KeyE, alt, ctx) == Some(InputAction::OpenInExplorer)
            &&& key_action(KeyCode::KeyE, none, ctx) is None
            &&& key_action(KeyCode::Slash, shift, ctx) == Some(InputAction::ToggleHelpOverlay)
            &&& key_action(KeyCode::KeyG, none, ctx) == Some(InputAction::ToggleGallery)
            &&& key_action(KeyCode::KeyZ, none, ctx) == Some(InputAction::ResetZoom)
            &&& key_action(KeyCode::Digit1, none, ctx) == Some(InputAction::ColorAdjust { key: KeyCode::Digit1 })
            &&& key_action(KeyCode::Digit8, none, ctx) == Some(InputAction::ColorAdjust { key: KeyCode::Digit8 })
            &&& key_action(KeyCode::Digit9, none, ctx) is None
            &&& key_action(KeyCode::Other, none, ctx) is None
        }),
{
}

/// Alt+1 sizes the window to the image, Alt+2 to twice it and Alt+0 to half
/// of it (at least one pixel); without an image these keys do nothing.
pub proof fn lemma_window_size_keys(ctx: InputContext)
    requires
        ctx.current_image_size matches Some((w, h)) ==> w <= u32::MAX / 2 && h <= u32::MAX / 2,
    ensures
        ({
            let alt = Modifiers { shift: false, control: false, alt: true };
            match ctx.current_image_size {
                Some((w, h)) => {
                    &&& key_action(KeyCode::Digit1, alt, ctx) == Some(InputAction::ResizeWindow { width: w, height: h })
                    &&& key_action(KeyCode::Digit2, alt, ctx) == Some(
                        InputAction::ResizeWindow { width: (2 * w) as u32, height: (2 * h) as u32 },
                    )
                    &&& key_action(KeyCode::Digit0, alt, ctx) == Some(
                        InputAction::ResizeWindow {
                            width: if w >= 2 { (w / 2) as u32 } else { 1u32 },
                            height: if h >= 2 { (h / 2) as u32 } else { 1u32 },
                        },
                    )
                },
                None => {
                    &&& key_action(KeyCode::Digit1, alt, ctx) is None
                    &&& key_action(KeyCode::Digit2, alt, ctx) is None
                    &&& key_action(KeyCode::Digit0, alt, ctx) is None
                },
            }
        }),
{
}

} // verus!
