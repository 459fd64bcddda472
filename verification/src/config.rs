//! Configuration values and the validation rules that apply to them.

use vstd::prelude::*;

verus! {

/// Minimum valid slideshow interval, in milliseconds. `0` is the
/// "paused" sentinel; values strictly between `0` and this minimum are
/// rejected by validation and clamped up by the runtime timer.
pub const TIMER_MIN_MS: u64 = 100;

/// Texture filtering mode.
#[derive(Debug, Clone, Copy, PartialEq, Eq, Structural)]
pub enum FilterMode {
    /// Nearest-neighbour filtering (pixelated, sharp).
    Nearest,
    /// Linear filtering (smooth).
    Linear,
}

impl FilterMode {
    /// The default filter mode.
    pub fn default_mode() -> (m: FilterMode)
        ensures
            m == FilterMode::Linear,
    {
        FilterMode::Linear
    }
}

/// Display fit mode.
#[derive(Debug, Clone, Copy, PartialEq, Eq, Structural)]
pub enum FitMode {
    /// Fit the image, leaving black bars.
    Fit,
    /// Fill the letterbox with a blurred copy of the image.
    AmbientFit,
}

/// The integer the shader receives for a fit mode.
pub open spec fn fit_uniform(m: FitMode) -> i32 {
    match m {
        FitMode::Fit => 0,
        FitMode::AmbientFit => 1,
    }
}

/// The other fit mode.
pub open spec fn fit_toggled(m: FitMode) -> FitMode {
    match m {
        FitMode::Fit => FitMode::AmbientFit,
        FitMode::AmbientFit => FitMode::Fit,
    }
}

impl FitMode {
    /// Convert to the shader uniform value.
    pub fn to_uniform_value(self) -> (v: i32)
        ensures
            v == fit_uniform(self),
    {
        match self {
            FitMode::Fit => 0,
            FitMode::AmbientFit => 1,
        }
    }

    /// Toggle between `Fit` and `AmbientFit`.
    pub fn toggle(&mut self)
        ensures
            *final(self) == fit_toggled(*old(self)),
    {
        *self = match *self {
            FitMode::Fit => FitMode::AmbientFit,
            FitMode::AmbientFit => FitMode::Fit,
        };
    }
}

/// Toggling the fit mode twice gives back the mode one started with, and a
/// toggle always changes the uniform value.
pub proof fn lemma_fit_toggle_involution(m: FitMode)
    ensures
        fit_toggled(fit_toggled(m)) == m,
        fit_uniform(fit_toggled(m)) != fit_uniform(m),
{
}

/// Window configuration.
#[derive(Debug, Clone, Copy, PartialEq, Eq, Structural)]
pub struct WindowConfig {
    pub width: u32,
    pub height: u32,
    pub fullscreen: bool,
    pub always_on_top: bool,
    pub decorations: bool,
    pub resizable: bool,
}

/// Smallest and largest accepted window width.
pub const WINDOW_WIDTH_MIN: u32 = 320;
pub const WINDOW_WIDTH_MAX: u32 = 7680;
/// Smallest and largest accepted window height.
pub const WINDOW_HEIGHT_MIN: u32 = 240;
pub const WINDOW_HEIGHT_MAX: u32 = 4320;
/// Accepted range of the texture cache extent.
pub const CACHE_EXTENT_MIN: usize = 1;
pub const CACHE_EXTENT_MAX: usize = 100;

/// A configuration field that failed validation, with the offending value.
#[derive(Debug, Clone, Copy, PartialEq, Eq, Structural)]
pub enum ValidationIssue {
    WindowWidth(u32),
    WindowHeight(u32),
    CacheExtent(usize),
}

/// The issues a window configuration has, in field order.
pub open spec fn window_issues(w: WindowConfig) -> Seq<ValidationIssue> {
    let a: Seq<ValidationIssue> = if WINDOW_WIDTH_MIN <= w.width <= WINDOW_WIDTH_MAX {
        seq![]
    } else {
        seq![ValidationIssue::WindowWidth(w.width)]
    };
    let b: Seq<ValidationIssue> = if WINDOW_HEIGHT_MIN <= w.height <= WINDOW_HEIGHT_MAX {
        seq![]
    } else {
        seq![ValidationIssue::WindowHeight(w.height)]
    };
    a + b
}

impl Default for WindowConfig {
    fn default() -> (w: WindowConfig)
        ensures
            w.width == 1280,
            w.height == 720,
            !w.fullscreen,
            !w.always_on_top,
            w.decorations,
            !w.resizable,
    {
        WindowConfig {
            width: 1280,
            height: 720,
            fullscreen: false,
            always_on_top: false,
            decorations: true,
            resizable: false,
        }
    }
}

impl WindowConfig {
    /// Check the window size against its accepted ranges. Returns every
    /// failing field, or `Ok` when there is none.
    pub fn validate(&self) -> (r: Result<(), Vec<ValidationIssue>>)
        ensures
            r is Ok <==> window_issues(*self).len() == 0,
            r matches Err(v) ==> v@ == window_issues(*self),
    {
        let mut issues: Vec<ValidationIssue> = Vec::new();
        if !(WINDOW_WIDTH_MIN <= self.width && self.width <= WINDOW_WIDTH_MAX) {
            issues.push(ValidationIssue::WindowWidth(self.width));
        }
        if !(WINDOW_HEIGHT_MIN <= self.height && self.height <= WINDOW_HEIGHT_MAX) {
            issues.push(ValidationIssue::WindowHeight(self.height));
        }
        if issues.len() == 0 {
            Ok(())
        } else {
            Err(issues)
        }
    }
}

/// Check the texture cache extent against its accepted range.
pub fn validate_cache_extent(extent: usize) -> (r: Result<(), ValidationIssue>)
    ensures
        r is Ok <==> CACHE_EXTENT_MIN <= extent <= CACHE_EXTENT_MAX,
        r matches Err(e) ==> e == ValidationIssue::CacheExtent(extent),
{
    if CACHE_EXTENT_MIN <= extent && extent <= CACHE_EXTENT_MAX {
        Ok(())
    } else {
        Err(ValidationIssue::CacheExtent(extent))
    }
}

/// Playback mode.
#[derive(Debug, Clone, Copy, PartialEq, Eq, Structural)]
pub enum PlaybackMode {
    Slideshow,
    Sequence,
}

/// Errors that configuration values can produce.
#[derive(Debug, Clone, Copy, PartialEq, Eq, Structural)]
pub enum ConfigError {
    /// A transition mode index outside `0..=19`.
    InvalidTransitionMode(i32),
}

/// The smallest and largest valid transition mode index.
pub const TRANSITION_MODE_MIN: i32 = 0;
pub const TRANSITION_MODE_MAX: i32 = 19;

/// Whether an index names a transition mode.
pub open spec fn valid_mode_index(v: int) -> bool {
    TRANSITION_MODE_MIN <= v <= TRANSITION_MODE_MAX
}

/// The human-readable name of a transition mode index.
pub open spec fn mode_name(v: int) -> Seq<char> {
    if v == 0 {
        "Crossfade"@
    } else if v == 1 {
        "Smooth Crossfade"@
    } else if v == 2 {
        "Roll from Top"@
    } else if v == 3 {
        "Roll from Bottom"@
    } else if v == 4 {
        "Roll from Left"@
    } else if v == 5 {
        "Roll from Right"@
    } else if v == 6 {
        "Roll from Top-Left"@
    } else if v == 7 {
        "Roll from Top-Right"@
    } else if v == 8 {
        "Roll from Bottom-Left"@
    } else if v == 9 {
        "Roll from Bottom-Right"@
    } else if v == 10 {
        "Sliding Door Open"@
    } else if v == 11 {
        "Sliding Door Close"@
    } else if v == 12 {
        "Blinds H Open"@
    } else if v == 13 {
        "Blinds H Close"@
    } else if v == 14 {
        "Blinds V Open"@
    } else if v == 15 {
        "Blinds V Close"@
    } else if v == 16 {
        "Box Expand"@
    } else if v == 17 {
        "Box Contract"@
    } else if v == 18 {
        "Random Squares"@
    } else if v == 19 {
        "Angular Wipe"@
    } else {
        "Unknown"@
    }
}

/// A validated transition mode index in the range `0..=19`.
#[derive(Debug, Clone, Copy, PartialEq, Eq, Structural)]
pub struct TransitionMode {
    index: i32,
}

impl TransitionMode {
    #[verifier::type_invariant]
    spec fn in_range(self) -> bool {
        valid_mode_index(self.index as int)
    }

    /// The mode index this value holds.
    pub closed spec fn index(self) -> int {
        self.index as int
    }

    /// The minimum valid mode index.
    pub const MIN: i32 = 0;
    /// The maximum valid mode index.
    pub const MAX: i32 = 19;

    /// Returns the inner index.
    pub fn value(self) -> (v: i32)
        ensures
            v == self.index(),
            valid_mode_index(v as int),
    {
        proof {
            use_type_invariant(&self);
        }
        self.index
    }

    /// Human-readable name for this transition mode.
    pub fn name(self) -> (s: &'static str)
        ensures
            s@ == mode_name(self.index()),
    {
        match self.index {
            0 => "Crossfade",
            1 => "Smooth Crossfade",
            2 => "Roll from Top",
            3 => "Roll from Bottom",
            4 => "Roll from Left",
            5 => "Roll from Right",
            6 => "Roll from Top-Left",
            7 => "Roll from Top-Right",
            8 => "Roll from Bottom-Left",
            9 => "Roll from Bottom-Right",
            10 => "Sliding Door Open",
            11 => "Sliding Door Close",
            12 => "Blinds H Open",
            13 => "Blinds H Close",
            14 => "Blinds V Open",
            15 => "Blinds V Close",
            16 => "Box Expand",
            17 => "Box Contract",
            18 => "Random Squares",
            19 => "Angular Wipe",
            _ => "Unknown",
        }
    }
}

impl Default for TransitionMode {
    fn default() -> (m: TransitionMode)
        ensures
            m.index() == 0,
    {
        TransitionMode { index: 0 }
    }
}

impl TryFrom<i32> for TransitionMode {
    type Error = ConfigError;

    fn try_from(value: i32) -> (r: Result<TransitionMode, ConfigError>) {
        if TRANSITION_MODE_MIN <= value && value <= TRANSITION_MODE_MAX {
            Ok(TransitionMode { index: value })
        } else {
            Err(ConfigError::InvalidTransitionMode(value))
        }
    }
}

impl vstd::std_specs::convert::TryFromSpecImpl<i32> for TransitionMode {
    open spec fn obeys_try_from_spec() -> bool {
        true
    }

    open spec fn try_from_spec(v: i32) -> Result<TransitionMode, ConfigError> {
        if valid_mode_index(v as int) {
            Ok(mode_with_index(v))
        } else {
            Err(ConfigError::InvalidTransitionMode(v))
        }
    }
}

/// The transition mode that holds index `v`.
pub closed spec fn mode_with_index(v: i32) -> TransitionMode {
    TransitionMode { index: v }
}

/// The mode built from an index holds that index.
pub broadcast proof fn lemma_mode_with_index(v: i32)
    ensures
        #[trigger] mode_with_index(v).index() == v as int,
{
}

impl From<TransitionMode> for i32 {
    fn from(m: TransitionMode) -> (v: i32) {
        m.value()
    }
}

impl vstd::std_specs::convert::FromSpecImpl<TransitionMode> for i32 {
    open spec fn obeys_from_spec() -> bool {
        true
    }

    open spec fn from_spec(m: TransitionMode) -> i32 {
        m.index() as i32
    }
}

/// Converting an integer to a transition mode succeeds exactly on `0..=19`,
/// fails with `InvalidTransitionMode` carrying the integer otherwise, and a
/// mode converted back to an integer gives the integer it was made from.
pub proof fn lemma_transition_mode_roundtrip(v: i32)
    ensures
        <TransitionMode as vstd::std_specs::convert::TryFromSpec<i32>>::try_from_spec(v) is Ok
            <==> 0 <= v <= 19,
        !(0 <= v <= 19) ==> <TransitionMode as vstd::std_specs::convert::TryFromSpec<i32>>::try_from_spec(v)
            == Err::<TransitionMode, ConfigError>(ConfigError::InvalidTransitionMode(v)),
        <TransitionMode as vstd::std_specs::convert::TryFromSpec<i32>>::try_from_spec(v) matches Ok(m)
            ==> m.index() == v && <i32 as vstd::std_specs::convert::FromSpec<TransitionMode>>::from_spec(m) == v,
{
    lemma_mode_with_index(v);
}

/// Every valid transition mode index has a known name.
pub proof fn lemma_mode_names_known(v: int)
    requires
        valid_mode_index(v),
    ensures
        mode_name(v) != "Unknown"@,
{
    reveal_strlit("Unknown");
    reveal_strlit("Crossfade");
    reveal_strlit("Smooth Crossfade");
    reveal_strlit("Roll from Top");
    reveal_strlit("Roll from Bottom");
    reveal_strlit("Roll from Left");
    reveal_strlit("Roll from Right");
    reveal_strlit("Roll from Top-Left");
    reveal_strlit("Roll from Top-Right");
    reveal_strlit("Roll from Bottom-Left");
    reveal_strlit("Roll from Bottom-Right");
    reveal_strlit("Sliding Door Open");
    reveal_strlit("Sliding Door Close");
    reveal_strlit("Blinds H Open");
    reveal_strlit("Blinds H Close");
    reveal_strlit("Blinds V Open");
    reveal_strlit("Blinds V Close");
    reveal_strlit("Box Expand");
    reveal_strlit("Box Contract");
    reveal_strlit("Random Squares");
    reveal_strlit("Angular Wipe");
    assert(mode_name(v).len() != "Unknown"@.len());
}

/// Two different transition modes have different names.
pub proof fn lemma_mode_names_distinct(a: int, b: int)
    requires
        valid_mode_index(a),
        valid_mode_index(b),
        a != b,
    ensures
        mode_name(a) != mode_name(b),
{
    reveal_strlit("Unknown");
    reveal_strlit("Crossfade");
    reveal_strlit("Smooth Crossfade");
    reveal_strlit("Roll from Top");
    reveal_strlit("Roll from Bottom");
    reveal_strlit("Roll from Left");
    reveal_strlit("Roll from Right");
    reveal_strlit("Roll from Top-Left");
    reveal_strlit("Roll from Top-Right");
    reveal_strlit("Roll from Bottom-Left");
    reveal_strlit("Roll from Bottom-Right");
    reveal_strlit("Sliding Door Open");
    reveal_strlit("Sliding Door Close");
    reveal_strlit("Blinds H Open");
    reveal_strlit("Blinds H Close");
    reveal_strlit("Blinds V Open");
    reveal_strlit("Blinds V Close");
    reveal_strlit("Box Expand");
    reveal_strlit("Box Contract");
    reveal_strlit("Random Squares");
    reveal_strlit("Angular Wipe");
    let na = mode_name(a);
    let nb = mode_name(b);
    assert(na.len() != nb.len() || na[1] != nb[1] || na[7] != nb[7]);
}

} // verus!
