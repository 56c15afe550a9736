//! The decisions of the click loop: how a run is planned from the form's
//! values, and a state machine that says, reading by reading, what the loop
//! does next (click, wait, check the cursor, stop).
use vstd::prelude::*;
use crate::rng::{FastRng, range_value, xoshiro_output, xoshiro_next, lemma_range_value_within};
use crate::timing::{get_nanoseconds_since, nanoseconds_between};

verus! {

/// Spin while the interval is below this many milliseconds.
pub const ULTRA_PRECISION_LIMIT_MS: i64 = 15;
/// Sleep a little, then spin, while the interval is below this many milliseconds.
pub const HIGH_PRECISION_LIMIT_MS: i64 = 50;
/// The pause between the two inputs of a double click, in nanoseconds.
pub const DOUBLE_CLICK_DELAY_NS: u64 = 50_000_000;
/// How often the cursor is looked at for the corner check, in nanoseconds.
pub const CORNER_CHECK_INTERVAL_NS: u64 = 100_000_000;
/// How many consecutive readings in a corner stop the clicking.
pub const CORNER_THRESHOLD: i32 = 10;
/// How close to a screen corner, in pixels, counts as in the corner.
pub const CORNER_TOLERANCE: i32 = 5;

/// The mouse button that is clicked.
#[derive(Clone, Copy, PartialEq, Eq, Structural, Debug)]
pub enum MouseButton {
    Left,
    Right,
    Middle,
}

/// How the wait between clicks is carried out.
#[derive(Clone, Copy, PartialEq, Eq, Structural, Debug)]
pub enum TimingMode {
    /// Spin on the counter only.
    UltraPrecision,
    /// Sleep while more than 2 ms remain, then spin.
    HighPrecision,
    /// Sleep until half a millisecond remains, then spin.
    Standard,
}

/// The button that the combo box's selection names: 0 left, 1 right, any
/// other middle.
pub open spec fn button_for(btn_idx: i32) -> MouseButton {
    if btn_idx == 0 {
        MouseButton::Left
    } else if btn_idx == 1 {
        MouseButton::Right
    } else {
        MouseButton::Middle
    }
}

/// The click interval in milliseconds: hours, minutes, seconds and
/// milliseconds added up, and zero when the sum is negative.
pub open spec fn interval_millis(h: i32, m: i32, s: i32, ms: i32) -> int {
    let t = h * 3600000 + m * 60000 + s * 1000 + ms;
    if t < 0 {
        0
    } else {
        t
    }
}

/// The timing mode for an interval of `millis` milliseconds.
pub open spec fn mode_for(millis: int) -> TimingMode {
    if millis < ULTRA_PRECISION_LIMIT_MS {
        TimingMode::UltraPrecision
    } else if millis < HIGH_PRECISION_LIMIT_MS {
        TimingMode::HighPrecision
    } else {
        TimingMode::Standard
    }
}

/// Integer division rounding toward zero, as Rust's `/` on signed integers.
pub open spec fn div_toward_zero(a: int, b: int) -> int {
    if a >= 0 {
        a / b
    } else {
        -((-a) / b)
    }
}

/// A coordinate scaled to the 0..=65535 range of absolute mouse input.
pub open spec fn normalized(v: i32, extent: i32) -> int {
    div_toward_zero(v * 65535, extent as int)
}

/// The values from which a run is planned fit the arithmetic that planning
/// does: the interval in nanoseconds fits a `u64`, and where a fixed
/// position is scaled, the scaled coordinates fit an `i32`.
pub open spec fn plan_in_range(
    h: i32,
    m: i32,
    s: i32,
    ms: i32,
    use_fixed_pos: bool,
    fixed_x: i32,
    fixed_y: i32,
    screen_width: i32,
    screen_height: i32,
) -> bool {
    &&& interval_millis(h, m, s, ms) * 1_000_000 <= u64::MAX
    &&& (use_fixed_pos && screen_width > 0 && screen_height > 0) ==> {
        &&& i32::MIN <= fixed_x * 65535 <= i32::MAX
        &&& i32::MIN <= fixed_y * 65535 <= i32::MAX
    }
}

/// Everything about a run that is fixed when it starts.
#[derive(Clone, Copy, Debug)]
pub struct ClickerPlan {
    pub button: MouseButton,
    pub double_click: bool,
    pub use_fixed_pos: bool,
    pub fixed_x: i32,
    pub fixed_y: i32,
    /// The fixed position scaled to absolute input coordinates.
    pub norm_x: i32,
    pub norm_y: i32,
    pub repeat_finite: bool,
    pub repeat_count: i32,
    pub repeat_time: bool,
    pub repeat_duration_nanos: u128,
    pub repeat_while_held: bool,
    pub mode: TimingMode,
    /// The interval between clicks, in nanoseconds.
    pub target_delay_ns: u64,
    /// Whether a random offset is added to each wait.
    pub randomize: bool,
    /// The largest random offset, in nanoseconds.
    pub random_range_ns: u64,
    /// Whether an RNG is drawn up for the run (the random box is ticked).
    pub use_random: bool,
    /// The interval is zero and no random offset is asked for: clicks
    /// follow each other with no wait.
    pub instant: bool,
}

impl ClickerPlan {
    /// Clicks follow each other with no wait.
    pub open spec fn is_instant(self) -> bool {
        self.instant
    }

    /// The invariant of a plan: the random range is what an `i32` number of
    /// milliseconds gives, and is zero unless a random offset is used.
    pub open spec fn wf(self) -> bool {
        &&& self.random_range_ns <= i32::MAX as int * 1_000_000
        &&& self.randomize ==> self.use_random
        &&& self.instant ==> self.target_delay_ns == 0 && !self.randomize
    }
}

/// Plans a run from the values of the form. `repeat_duration_nanos` is the
/// length of a timed run in nanoseconds (`u128::MAX` when the run is not
/// timed); the screen size is read only for a fixed position.
pub fn plan_clicker(
    h: i32,
    m: i32,
    s: i32,
    ms: i32,
    use_random: bool,
    random_offset: i32,
    repeat_finite: bool,
    repeat_count: i32,
    repeat_time: bool,
    repeat_duration_nanos: u128,
    repeat_while_held: bool,
    btn_idx: i32,
    type_idx: i32,
    use_fixed_pos: bool,
    fixed_x: i32,
    fixed_y: i32,
    screen_width: i32,
    screen_height: i32,
) -> (p: ClickerPlan)
    requires
        plan_in_range(h, m, s, ms, use_fixed_pos, fixed_x, fixed_y, screen_width, screen_height),
    ensures
        p.wf(),
        p.button == button_for(btn_idx),
        p.double_click == (type_idx == 1),
        p.use_fixed_pos == use_fixed_pos,
        p.fixed_x == fixed_x,
        p.fixed_y == fixed_y,
        (use_fixed_pos && screen_width > 0 && screen_height > 0) ==> {
            &&& p.norm_x == normalized(fixed_x, screen_width)
            &&& p.norm_y == normalized(fixed_y, screen_height)
        },
        !(use_fixed_pos && screen_width > 0 && screen_height > 0) ==> p.norm_x == 0 && p.norm_y
            == 0,
        p.repeat_finite == repeat_finite,
        p.repeat_count == repeat_count,
        p.repeat_time == repeat_time,
        p.repeat_duration_nanos == repeat_duration_nanos,
        p.repeat_while_held == repeat_while_held,
        p.mode == mode_for(interval_millis(h, m, s, ms)),
        p.target_delay_ns == interval_millis(h, m, s, ms) * 1_000_000,
        p.use_random == use_random,
        p.randomize == (use_random && random_offset > 0),
        p.instant == (interval_millis(h, m, s, ms) == 0 && (!use_random || random_offset == 0)),
        p.random_range_ns == (if use_random && random_offset > 0 {
            random_offset * 1_000_000
        } else {
            0
        }),
{
    let total: i64 = (h as i64 * 3600000) + (m as i64 * 60000) + (s as i64 * 1000) + ms as i64;
    let total: i64 = if total < 0 {
        0
    } else {
        total
    };
    let button = if btn_idx == 0 {
        MouseButton::Left
    } else if btn_idx == 1 {
        MouseButton::Right
    } else {
        MouseButton::Middle
    };
    let scale = use_fixed_pos && screen_width > 0 && screen_height > 0;
    let (norm_x, norm_y) = if scale {
        ((fixed_x * 65535) / screen_width, (fixed_y * 65535) / screen_height)
    } else {
        (0, 0)
    };
    let mode = if total < ULTRA_PRECISION_LIMIT_MS {
        TimingMode::UltraPrecision
    } else if total < HIGH_PRECISION_LIMIT_MS {
        TimingMode::HighPrecision
    } else {
        TimingMode::Standard
    };
    let randomize = use_random && random_offset > 0;
    let random_range_ns: u64 = if randomize {
        random_offset as u64 * 1_000_000
    } else {
        0
    };
    ClickerPlan {
        button,
        double_click: type_idx == 1,
        use_fixed_pos,
        fixed_x,
        fixed_y,
        norm_x,
        norm_y,
        repeat_finite,
        repeat_count,
        repeat_time,
        repeat_duration_nanos,
        repeat_while_held,
        mode,
        target_delay_ns: total as u64 * 1_000_000,
        randomize,
        random_range_ns,
        use_random,
        instant: total == 0 && (!use_random || random_offset == 0),
    }
}

/// Tells whether `plan_clicker` can plan a run from these values (see
/// `plan_in_range`).
pub fn plan_is_computable(
    h: i32,
    m: i32,
    s: i32,
    ms: i32,
    use_fixed_pos: bool,
    fixed_x: i32,
    fixed_y: i32,
    screen_width: i32,
    screen_height: i32,
) -> (b: bool)
    ensures
        b == plan_in_range(h, m, s, ms, use_fixed_pos, fixed_x, fixed_y, screen_width, screen_height),
{
    let total: i64 = (h as i64 * 3600000) + (m as i64 * 60000) + (s as i64 * 1000) + ms as i64;
    let total: i64 = if total < 0 {
        0
    } else {
        total
    };
    let interval_fits = total <= 18_446_744_073_709;
    let coords_fit = if use_fixed_pos && screen_width > 0 && screen_height > 0 {
        let x = fixed_x as i64 * 65535;
        let y = fixed_y as i64 * 65535;
        i32::MIN as i64 <= x && x <= i32::MAX as i64 && i32::MIN as i64 <= y && y
            <= i32::MAX as i64
    } else {
        true
    };
    interval_fits && coords_fit
}

/// A reading of the cursor and the screen, taken for the corner check.
#[derive(Clone, Copy, Debug)]
pub struct CursorSample {
    pub x: i32,
    pub y: i32,
    pub screen_width: i32,
    pub screen_height: i32,
}

/// The cursor lies within the corner tolerance of a screen corner.
pub open spec fn in_corner(c: CursorSample) -> bool {
    let t = CORNER_TOLERANCE as int;
    ||| (c.x <= t && c.y <= t)
    ||| (c.x >= c.screen_width - t && c.y <= t)
    ||| (c.x <= t && c.y >= c.screen_height - t)
    ||| (c.x >= c.screen_width - t && c.y >= c.screen_height - t)
}

/// Whether the cursor reading lies in a corner of the screen.
pub fn is_in_corner(c: &CursorSample) -> (b: bool)
    requires
        c.screen_width >= i32::MIN + CORNER_TOLERANCE,
        c.screen_height >= i32::MIN + CORNER_TOLERANCE,
    ensures
        b == in_corner(*c),
{
    let t = CORNER_TOLERANCE;
    (c.x <= t && c.y <= t) || (c.x >= c.screen_width - t && c.y <= t) || (c.x <= t && c.y
        >= c.screen_height - t) || (c.x >= c.screen_width - t && c.y >= c.screen_height - t)
}

/// What the loop reads from the outside before each decision.
#[derive(Clone, Copy, Debug)]
pub struct Observation {
    /// The time-stamp counter.
    pub tsc: u64,
    /// The shared running flag.
    pub running: bool,
    /// Whether the hotkey is held down.
    pub hotkey_held: bool,
    /// Nanoseconds since the run started.
    pub elapsed_nanos: u128,
    /// Whether the corner check is switched on.
    pub safety_enabled: bool,
    /// The cursor reading, after a `ProbeCursor` action; `None` where the
    /// cursor could not be read.
    pub cursor: Option<CursorSample>,
}

/// Why a run stopped on its own.
#[derive(Clone, Copy, PartialEq, Eq, Structural, Debug)]
pub enum StopReason {
    /// The cursor stayed in a screen corner.
    Safety,
    /// In repeat-while-held mode, the hotkey was let go.
    HotkeyReleased,
    /// The requested number of clicks was made.
    CountReached,
    /// The requested time has passed.
    DurationElapsed,
}

impl StopReason {
    /// Whether the stop button is disabled when the run stops this way
    /// (in repeat-while-held mode it is left as it is).
    pub fn disables_stop_button(&self) -> (b: bool)
        ensures
            b == (*self != StopReason::HotkeyReleased),
    {
        match self {
            StopReason::HotkeyReleased => false,
            _ => true,
        }
    }

    /// Whether the user is warned with a message box.
    pub fn shows_warning(&self) -> (b: bool)
        ensures
            b == (*self == StopReason::Safety),
    {
        match self {
            StopReason::Safety => true,
            _ => false,
        }
    }
}

/// What the loop does next.
#[derive(Clone, Copy, PartialEq, Eq, Structural, Debug)]
pub enum Action {
    /// Nothing outside: decide again.
    Proceed,
    /// Send one click input (moving the cursor first for a fixed position).
    SendClick,
    /// Pause the processor for a moment inside a spin.
    Relax,
    /// Give the rest of the time slice to other threads.
    Yield,
    /// Sleep this many nanoseconds.
    Sleep { nanos: u64 },
    /// Publish the click counter.
    PublishClickCount { count: u64 },
    /// Read the cursor and the screen size for the corner check.
    ProbeCursor,
    /// Publish the counter reading of the latest performance checkpoint.
    PublishPerformanceCheck { tsc: u64 },
    /// Clear the running flag, update the window, and end the loop.
    Stop { reason: StopReason },
    /// End the loop with nothing more to do.
    Finish,
    /// An arithmetic overflow: the loop cannot go on.
    Overflow,
}

/// Where the loop stands.
#[derive(Clone, Copy, PartialEq, Eq, Structural, Debug)]
pub enum Phase {
    /// The head of the loop, which runs while the running flag is set.
    Top,
    /// The first input of a click was sent.
    FirstInputSent,
    /// Waiting between the two inputs of a double click.
    DoubleGap { start_tsc: u64 },
    /// The click is to be counted.
    Count,
    /// The corner check is due: the cursor is to be read.
    CornerDue,
    /// The cursor was read for the corner check.
    CornerProbe,
    /// The stop conditions are to be checked.
    Checks,
    /// A zero interval: stamp the counter and click again.
    Restamp,
    /// A wait of `sleep_ns` nanoseconds (`tsc_ticks` counter ticks) is due.
    Pace { sleep_ns: u64, tsc_ticks: u64 },
    /// The coarse sleep of a wait is over.
    Slept { tsc_ticks: u64 },
    /// Spinning until the counter reaches `target_tsc`.
    Spin { target_tsc: u64, period: u64 },
    /// The wait is over.
    AfterWait,
    /// The loop has ended.
    Done,
}

/// The mathematical state of the loop.
pub struct ClickerView {
    pub phase: Phase,
    pub is_running: bool,
    pub pending_reload: bool,
    pub current_clicks: i32,
    pub click_count: u64,
    pub last_tsc: u64,
    pub corner_counter: i32,
    pub last_corner_check_tsc: u64,
    pub rng: Option<Seq<u64>>,
}

/// The click loop's state.
pub struct Clicker {
    plan: ClickerPlan,
    rng: Option<FastRng>,
    phase: Phase,
    is_running: bool,
    pending_reload: bool,
    current_clicks: i32,
    click_count: u64,
    last_tsc: u64,
    corner_counter: i32,
    last_corner_check_tsc: u64,
}

/// The counter ticks of a wait of `ns` nanoseconds, if they fit a `u64`.
pub open spec fn ticks_for(ns: u64) -> Option<u64> {
    if ns * 3 <= u64::MAX {
        Some((ns * 3) as u64)
    } else {
        None
    }
}

/// The spin period of a timing mode: how many clicks apart the running flag
/// is re-read while spinning (it is re-read only when the click count is a
/// multiple of it).
pub open spec fn spin_period(mode: TimingMode) -> u64 {
    match mode {
        TimingMode::UltraPrecision => 50,
        TimingMode::HighPrecision => 100,
        TimingMode::Standard => 200,
    }
}

/// The flag as the loop knows it after a pending re-read.
pub open spec fn reloaded(v: ClickerView, obs: Observation) -> bool {
    if v.pending_reload {
        obs.running
    } else {
        v.is_running
    }
}

/// The wait that a run draws at the `Checks` phase: the interval plus, when
/// randomized, the drawn offset; `None` where the arithmetic overflows.
pub open spec fn drawn_sleep(plan: ClickerPlan, rng: Option<Seq<u64>>) -> Option<u64> {
    if plan.randomize {
        let r = plan.random_range_ns as i64;
        let draw = range_value((-r) as i64, r, xoshiro_output(rng->0));
        let sum = plan.target_delay_ns as i64 + draw;
        if i64::MIN <= sum <= i64::MAX {
            Some((sum as i64) as u64)
        } else {
            None
        }
    } else {
        Some(plan.target_delay_ns)
    }
}

/// The generator state after the `Checks` phase.
pub open spec fn rng_after_draw(plan: ClickerPlan, rng: Option<Seq<u64>>) -> Option<Seq<u64>> {
    if plan.randomize {
        Some(xoshiro_next(rng->0))
    } else {
        rng
    }
}

/// One decision of the loop: from the plan, the state and what was just
/// read, the next state and what to do.
pub open spec fn spec_step(plan: ClickerPlan, v: ClickerView, obs: Observation) -> (
    ClickerView,
    Action,
) {
    match v.phase {
        Phase::Top => {
            if !v.is_running {
                (ClickerView { phase: Phase::Done, ..v }, Action::Finish)
            } else {
                (ClickerView { phase: Phase::FirstInputSent, ..v }, Action::SendClick)
            }
        },
        Phase::FirstInputSent => {
            if plan.double_click {
                (ClickerView { phase: Phase::DoubleGap { start_tsc: obs.tsc }, ..v }, Action::Proceed)
            } else {
                (ClickerView { phase: Phase::Count, ..v }, Action::Proceed)
            }
        },
        Phase::DoubleGap { start_tsc } => {
            let running = reloaded(v, obs);
            if nanoseconds_between(start_tsc, obs.tsc) < DOUBLE_CLICK_DELAY_NS && running {
                (
                    ClickerView {
                        is_running: running,
                        pending_reload: v.click_count % 10 == 0,
                        ..v
                    },
                    Action::Relax,
                )
            } else if running {
                (
                    ClickerView {
                        phase: Phase::Count,
                        is_running: running,
                        pending_reload: false,
                        ..v
                    },
                    Action::SendClick,
                )
            } else {
                (
                    ClickerView {
                        phase: Phase::Count,
                        is_running: running,
                        pending_reload: false,
                        ..v
                    },
                    Action::Proceed,
                )
            }
        },
        Phase::Count => {
            if v.current_clicks == i32::MAX || v.click_count == u64::MAX {
                (ClickerView { phase: Phase::Done, ..v }, Action::Overflow)
            } else {
                let counted = ClickerView {
                    current_clicks: (v.current_clicks + 1) as i32,
                    click_count: (v.click_count + 1) as u64,
                    ..v
                };
                let act = Action::PublishClickCount { count: (v.click_count + 1) as u64 };
                if obs.safety_enabled && nanoseconds_between(v.last_corner_check_tsc, obs.tsc)
                    >= CORNER_CHECK_INTERVAL_NS {
                    (
                        ClickerView {
                            phase: Phase::CornerDue,
                            last_corner_check_tsc: obs.tsc,
                            ..counted
                        },
                        act,
                    )
                } else {
                    (ClickerView { phase: Phase::Checks, ..counted }, act)
                }
            }
        },
        Phase::CornerDue => (ClickerView { phase: Phase::CornerProbe, ..v }, Action::ProbeCursor),
        Phase::CornerProbe => {
            match obs.cursor {
                None => (ClickerView { phase: Phase::Checks, ..v }, Action::Proceed),
                Some(c) => {
                    if c.screen_width < i32::MIN + CORNER_TOLERANCE || c.screen_height < i32::MIN
                        + CORNER_TOLERANCE {
                        (ClickerView { phase: Phase::Done, ..v }, Action::Overflow)
                    } else if in_corner(c) {
                        if v.corner_counter + 1 >= CORNER_THRESHOLD {
                            (
                                ClickerView {
                                    phase: Phase::Done,
                                    corner_counter: (v.corner_counter + 1) as i32,
                                    ..v
                                },
                                Action::Stop { reason: StopReason::Safety },
                            )
                        } else {
                            (
                                ClickerView {
                                    phase: Phase::Checks,
                                    corner_counter: (v.corner_counter + 1) as i32,
                                    ..v
                                },
                                Action::Proceed,
                            )
                        }
                    } else {
                        (
                            ClickerView { phase: Phase::Checks, corner_counter: 0, ..v },
                            Action::Proceed,
                        )
                    }
                },
            }
        },
        Phase::Checks => {
            let w = ClickerView { is_running: obs.running, ..v };
            if !obs.running {
                (ClickerView { phase: Phase::Done, ..w }, Action::Finish)
            } else if plan.repeat_while_held && !obs.hotkey_held {
                (
                    ClickerView { phase: Phase::Done, ..w },
                    Action::Stop { reason: StopReason::HotkeyReleased },
                )
            } else if plan.repeat_finite && v.current_clicks >= plan.repeat_count {
                (
                    ClickerView { phase: Phase::Done, ..w },
                    Action::Stop { reason: StopReason::CountReached },
                )
            } else if plan.repeat_time && obs.elapsed_nanos >= plan.repeat_duration_nanos {
                (
                    ClickerView { phase: Phase::Done, ..w },
                    Action::Stop { reason: StopReason::DurationElapsed },
                )
            } else if plan.is_instant() {
                (
                    ClickerView { phase: Phase::Restamp, ..w },
                    if v.click_count % 100 == 0 {
                        Action::Yield
                    } else {
                        Action::Proceed
                    },
                )
            } else {
                let w2 = ClickerView { rng: rng_after_draw(plan, v.rng), ..w };
                match drawn_sleep(plan, v.rng) {
                    None => (ClickerView { phase: Phase::Done, ..w2 }, Action::Overflow),
                    Some(sleep_ns) => match ticks_for(sleep_ns) {
                        None => (ClickerView { phase: Phase::Done, ..w2 }, Action::Overflow),
                        Some(t) => (
                            ClickerView { phase: Phase::Pace { sleep_ns, tsc_ticks: t }, ..w2 },
                            Action::Proceed,
                        ),
                    },
                }
            }
        },
        Phase::Restamp => (ClickerView { phase: Phase::Top, last_tsc: obs.tsc, ..v }, Action::Proceed),
        Phase::Pace { sleep_ns, tsc_ticks } => {
            let sleep = match plan.mode {
                TimingMode::UltraPrecision => 0,
                TimingMode::HighPrecision => {
                    let elapsed = if obs.tsc >= v.last_tsc {
                        obs.tsc - v.last_tsc
                    } else {
                        0
                    };
                    let remaining = if tsc_ticks >= elapsed {
                        tsc_ticks - elapsed
                    } else {
                        0
                    };
                    if remaining > 6_000_000 {
                        remaining / 3
                    } else {
                        0
                    }
                },
                TimingMode::Standard => {
                    let done = nanoseconds_between(v.last_tsc, obs.tsc);
                    let remaining = if sleep_ns >= done {
                        sleep_ns - done
                    } else {
                        0
                    };
                    if remaining > 500_000 {
                        remaining - 500_000
                    } else {
                        0
                    }
                },
            };
            if sleep > 0 {
                (
                    ClickerView { phase: Phase::Slept { tsc_ticks }, ..v },
                    Action::Sleep { nanos: sleep as u64 },
                )
            } else {
                (ClickerView { phase: Phase::Slept { tsc_ticks }, ..v }, Action::Proceed)
            }
        },
        Phase::Slept { tsc_ticks } => {
            if v.last_tsc + tsc_ticks > u64::MAX {
                (ClickerView { phase: Phase::Done, ..v }, Action::Overflow)
            } else {
                (
                    ClickerView {
                        phase: Phase::Spin {
                            target_tsc: (v.last_tsc + tsc_ticks) as u64,
                            period: spin_period(plan.mode),
                        },
                        ..v
                    },
                    Action::Proceed,
                )
            }
        },
        Phase::Spin { target_tsc, period } => {
            let running = reloaded(v, obs);
            if obs.tsc < target_tsc && running {
                (
                    ClickerView {
                        is_running: running,
                        pending_reload: v.click_count % period == 0,
                        ..v
                    },
                    Action::Relax,
                )
            } else {
                (
                    ClickerView {
                        phase: Phase::AfterWait,
                        is_running: running,
                        pending_reload: false,
                        ..v
                    },
                    Action::Proceed,
                )
            }
        },
        Phase::AfterWait => {
            let w = ClickerView { phase: Phase::Top, last_tsc: obs.tsc, ..v };
            if v.click_count % 10000 == 0 {
                (w, Action::PublishPerformanceCheck { tsc: obs.tsc })
            } else {
                (w, Action::Proceed)
            }
        },
        Phase::Done => (v, Action::Finish),
    }
}

impl Clicker {
    pub closed spec fn view(&self) -> ClickerView {
        ClickerView {
            phase: self.phase,
            is_running: self.is_running,
            pending_reload: self.pending_reload,
            current_clicks: self.current_clicks,
            click_count: self.click_count,
            last_tsc: self.last_tsc,
            corner_counter: self.corner_counter,
            last_corner_check_tsc: self.last_corner_check_tsc,
            rng: match self.rng {
                Some(g) => Some(g.state()),
                None => None,
            },
        }
    }

    pub closed spec fn plan(&self) -> ClickerPlan {
        self.plan
    }

    /// The invariant of the loop's state.
    pub open spec fn wf(&self) -> bool {
        &&& self.plan().wf()
        &&& self.plan().randomize ==> self.view().rng is Some
        &&& 0 <= self.view().corner_counter <= CORNER_THRESHOLD
        &&& self.view().phase != Phase::Done ==> self.view().corner_counter < CORNER_THRESHOLD
        &&& self.view().current_clicks >= 0
        &&& self.view().phase matches Phase::Spin { period, .. } ==> period > 0
    }

    /// Starts a run: `running` is the running flag and `tsc` the counter
    /// when the loop starts; `rng` is drawn up when the random box is ticked.
    pub fn start(plan: ClickerPlan, rng: Option<FastRng>, running: bool, tsc: u64) -> (c: Clicker)
        requires
            plan.wf(),
            plan.use_random ==> rng is Some,
        ensures
            c.wf(),
            c.plan() == plan,
            c.view() == (ClickerView {
                phase: Phase::Top,
                is_running: running,
                pending_reload: false,
                current_clicks: 0,
                click_count: 0,
                last_tsc: tsc,
                corner_counter: 0,
                last_corner_check_tsc: tsc,
                rng: match rng {
                    Some(g) => Some(g.state()),
                    None => None,
                },
            }),
    {
        Clicker {
            plan,
            rng,
            phase: Phase::Top,
            is_running: running,
            pending_reload: false,
            current_clicks: 0,
            click_count: 0,
            last_tsc: tsc,
            corner_counter: 0,
            last_corner_check_tsc: tsc,
        }
    }

    /// The plan of the run.
    pub fn plan_of(&self) -> (p: ClickerPlan)
        ensures
            p == self.plan(),
    {
        self.plan
    }

    /// Decides what the loop does next from what was just read.
    #[verifier::rlimit(50)]
    pub fn step(&mut self, obs: &Observation) -> (act: Action)
        requires
            old(self).wf(),
        ensures
            final(self).wf(),
            final(self).plan() == old(self).plan(),
            (final(self).view(), act) == spec_step(old(self).plan(), old(self).view(), *obs),
    {
        let ghost v = self.view();
        match self.phase {
            Phase::Top => {
                if !self.is_running {
                    self.phase = Phase::Done;
                    Action::Finish
                } else {
                    self.phase = Phase::FirstInputSent;
                    Action::SendClick
                }
            },
            Phase::FirstInputSent => {
                if self.plan.double_click {
                    self.phase = Phase::DoubleGap { start_tsc: obs.tsc };
                } else {
                    self.phase = Phase::Count;
                }
                Action::Proceed
            },
            Phase::DoubleGap { start_tsc } => {
                if self.pending_reload {
                    self.is_running = obs.running;
                }
                if get_nanoseconds_since(start_tsc, obs.tsc) < DOUBLE_CLICK_DELAY_NS
                    && self.is_running {
                    self.pending_reload = self.click_count % 10 == 0;
                    Action::Relax
                } else {
                    self.pending_reload = false;
                    self.phase = Phase::Count;
                    if self.is_running {
                        Action::SendClick
                    } else {
                        Action::Proceed
                    }
                }
            },
            Phase::Count => {
                if self.current_clicks == i32::MAX || self.click_count == u64::MAX {
                    self.phase = Phase::Done;
                    Action::Overflow
                } else {
                    self.current_clicks = self.current_clicks + 1;
                    self.click_count = self.click_count + 1;
                    if obs.safety_enabled && get_nanoseconds_since(
                        self.last_corner_check_tsc,
                        obs.tsc,
                    ) >= CORNER_CHECK_INTERVAL_NS {
                        self.last_corner_check_tsc = obs.tsc;
                        self.phase = Phase::CornerDue;
                    } else {
                        self.phase = Phase::Checks;
                    }
                    Action::PublishClickCount { count: self.click_count }
                }
            },
            Phase::CornerDue => {
                self.phase = Phase::CornerProbe;
                Action::ProbeCursor
            },
            Phase::CornerProbe => {
                match obs.cursor {
                    None => {
                        self.phase = Phase::Checks;
                        Action::Proceed
                    },
                    Some(c) => {
                        if c.screen_width < i32::MIN + CORNER_TOLERANCE || c.screen_height
                            < i32::MIN + CORNER_TOLERANCE {
                            self.phase = Phase::Done;
                            Action::Overflow
                        } else if is_in_corner(&c) {
                            self.corner_counter = self.corner_counter + 1;
                            if self.corner_counter >= CORNER_THRESHOLD {
                                self.phase = Phase::Done;
                                Action::Stop { reason: StopReason::Safety }
                            } else {
                                self.phase = Phase::Checks;
                                Action::Proceed
                            }
                        } else {
                            self.corner_counter = 0;
                            self.phase = Phase::Checks;
                            Action::Proceed
                        }
                    },
                }
            },
            Phase::Checks => self.step_checks(obs),
            Phase::Restamp => {
                self.last_tsc = obs.tsc;
                self.phase = Phase::Top;
                Action::Proceed
            },
            Phase::Pace { sleep_ns, tsc_ticks } => {
                let sleep: u64 = match self.plan.mode {
                    TimingMode::UltraPrecision => 0,
                    TimingMode::HighPrecision => {
                        let remaining = tsc_ticks.saturating_sub(
                            obs.tsc.saturating_sub(self.last_tsc),
                        );
                        if remaining > 6_000_000 {
                            remaining / 3
                        } else {
                            0
                        }
                    },
                    TimingMode::Standard => {
                        let remaining = sleep_ns.saturating_sub(
                            get_nanoseconds_since(self.last_tsc, obs.tsc),
                        );
                        if remaining > 500_000 {
                            remaining - 500_000
                        } else {
                            0
                        }
                    },
                };
                self.phase = Phase::Slept { tsc_ticks };
                if sleep > 0 {
                    Action::Sleep { nanos: sleep }
                } else {
                    Action::Proceed
                }
            },
            Phase::Slept { tsc_ticks } => {
                if self.last_tsc > u64::MAX - tsc_ticks {
                    self.phase = Phase::Done;
                    Action::Overflow
                } else {
                    let period: u64 = match self.plan.mode {
                        TimingMode::UltraPrecision => 50,
                        TimingMode::HighPrecision => 100,
                        TimingMode::Standard => 200,
                    };
                    self.phase = Phase::Spin { target_tsc: self.last_tsc + tsc_ticks, period };
                    Action::Proceed
                }
            },
            Phase::Spin { target_tsc, period } => {
                if self.pending_reload {
                    self.is_running = obs.running;
                }
                if obs.tsc < target_tsc && self.is_running {
                    self.pending_reload = self.click_count % period == 0;
                    Action::Relax
                } else {
                    self.pending_reload = false;
                    self.phase = Phase::AfterWait;
                    Action::Proceed
                }
            },
            Phase::AfterWait => {
                self.last_tsc = obs.tsc;
                self.phase = Phase::Top;
                if self.click_count % 10000 == 0 {
                    Action::PublishPerformanceCheck { tsc: obs.tsc }
                } else {
                    Action::Proceed
                }
            },
            Phase::Done => Action::Finish,
        }
    }

    /// The `Checks` phase of `step`.
    fn step_checks(&mut self, obs: &Observation) -> (act: Action)
        requires
            old(self).wf(),
            old(self).view().phase == Phase::Checks,
        ensures
            final(self).wf(),
            final(self).plan() == old(self).plan(),
            (final(self).view(), act) == spec_step(old(self).plan(), old(self).view(), *obs),
    {
        self.is_running = obs.running;
        if !obs.running {
            self.phase = Phase::Done;
            return Action::Finish;
        }
        if self.plan.repeat_while_held && !obs.hotkey_held {
            self.phase = Phase::Done;
            return Action::Stop { reason: StopReason::HotkeyReleased };
        }
        if self.plan.repeat_finite && self.current_clicks >= self.plan.repeat_count {
            self.phase = Phase::Done;
            return Action::Stop { reason: StopReason::CountReached };
        }
        if self.plan.repeat_time && obs.elapsed_nanos >= self.plan.repeat_duration_nanos {
            self.phase = Phase::Done;
            return Action::Stop { reason: StopReason::DurationElapsed };
        }
        if self.plan.instant {
            self.phase = Phase::Restamp;
            return if self.click_count % 100 == 0 {
                Action::Yield
            } else {
                Action::Proceed
            };
        }
        let mut sleep_ns = self.plan.target_delay_ns;
        if self.plan.randomize {
            let r = self.plan.random_range_ns as i64;
            let mut rng = self.rng.take().unwrap();
            let draw = rng.gen_range(-r, r);
            self.rng = Some(rng);
            let base = self.plan.target_delay_ns as i64;
            match base.checked_add(draw) {
                Some(sum) => {
                    sleep_ns = sum as u64;
                },
                None => {
                    self.phase = Phase::Done;
                    return Action::Overflow;
                },
            }
        }
        match sleep_ns.checked_mul(3) {
            Some(t) => {
                self.phase = Phase::Pace { sleep_ns, tsc_ticks: t };
                Action::Proceed
            },
            None => {
                self.phase = Phase::Done;
                Action::Overflow
            },
        }
    }
}

/// In a run limited to a number of clicks, the clicks made so far stay
/// within the limit (one click is always made, even for a limit below one).
pub open spec fn clicks_within_count(plan: ClickerPlan, v: ClickerView) -> bool {
    plan.repeat_finite ==> match v.phase {
        Phase::Done => true,
        Phase::CornerDue | Phase::CornerProbe | Phase::Checks => v.current_clicks >= 1 && (
        v.current_clicks == 1 || v.current_clicks <= plan.repeat_count),
        _ => v.current_clicks >= 0 && (v.current_clicks == 0 || v.current_clicks
            < plan.repeat_count),
    }
}

/// A run limited to `repeat_count` clicks that stops because the count was
/// reached has made exactly `max(1, repeat_count)` clicks.
pub proof fn lemma_count_stop_is_exact(plan: ClickerPlan, v: ClickerView, obs: Observation)
    requires
        clicks_within_count(plan, v),
    ensures
        spec_step(plan, v, obs).1 == (Action::Stop { reason: StopReason::CountReached }) ==> v.current_clicks
            == (if plan.repeat_count >= 1 {
            plan.repeat_count as int
        } else {
            1
        }),
{
}

/// A run limited to `repeat_count` clicks makes at most `max(1, repeat_count)`
/// of them: a run starts within the limit, every decision keeps it there,
/// and a new click begins only while fewer clicks than the limit were made
/// (or none at all).
pub proof fn lemma_finite_run_click_bound(plan: ClickerPlan, v: ClickerView, obs: Observation)
    requires
        clicks_within_count(plan, v),
    ensures
        clicks_within_count(plan, spec_step(plan, v, obs).0),
        plan.repeat_finite && v.phase == Phase::Top && spec_step(plan, v, obs).1
            == Action::SendClick ==> v.current_clicks == 0 || v.current_clicks < plan.repeat_count,
{
}

/// A run starts within its click limit.
pub proof fn lemma_start_within_count(plan: ClickerPlan, v: ClickerView)
    requires
        v.phase == Phase::Top,
        v.current_clicks == 0,
    ensures
        clicks_within_count(plan, v),
{
}

/// The corner check: the cursor is read only when the check is on and at
/// least 100 ms passed since the last reading, and the run stops with a safety warning exactly at the
/// tenth consecutive reading in a corner, and for no other reason.
pub proof fn lemma_corner_check(plan: ClickerPlan, v: ClickerView, obs: Observation)
    requires
        0 <= v.corner_counter < CORNER_THRESHOLD,
    ensures
        ({
            let (w, act) = spec_step(plan, v, obs);
            &&& act == Action::ProbeCursor ==> v.phase == Phase::CornerDue && w.phase
                == Phase::CornerProbe
            &&& (w.phase == Phase::CornerDue && v.phase != Phase::CornerDue) ==> {
                &&& v.phase == Phase::Count
                &&& obs.safety_enabled
                &&& nanoseconds_between(v.last_corner_check_tsc, obs.tsc)
                    >= CORNER_CHECK_INTERVAL_NS
                &&& w.last_corner_check_tsc == obs.tsc
            }
            &&& act == (Action::Stop { reason: StopReason::Safety }) <==> {
                &&& v.phase == Phase::CornerProbe
                &&& obs.cursor matches Some(c) && c.screen_width >= i32::MIN + CORNER_TOLERANCE
                    && c.screen_height >= i32::MIN + CORNER_TOLERANCE && in_corner(c)
                &&& v.corner_counter == CORNER_THRESHOLD - 1
            }
        }),
{
}

/// A cursor reading in a corner adds one to the count of consecutive corner
/// readings; any other reading sets the count back to zero.
pub proof fn lemma_corner_count(plan: ClickerPlan, v: ClickerView, obs: Observation, c: CursorSample)
    requires
        v.phase == Phase::CornerProbe,
        0 <= v.corner_counter < CORNER_THRESHOLD,
        obs.cursor == Some(c),
        c.screen_width >= i32::MIN + CORNER_TOLERANCE,
        c.screen_height >= i32::MIN + CORNER_TOLERANCE,
    ensures
        in_corner(c) ==> spec_step(plan, v, obs).0.corner_counter == v.corner_counter + 1,
        !in_corner(c) ==> spec_step(plan, v, obs).0.corner_counter == 0,
{
}

/// An ended run stays ended: stopping, finishing or overflowing ends the
/// loop, and an ended loop only ever finishes again, with its state unchanged.
pub proof fn lemma_end_is_final(plan: ClickerPlan, v: ClickerView, obs: Observation)
    ensures
        ({
            let (w, act) = spec_step(plan, v, obs);
            &&& (act is Stop || act is Finish || act is Overflow) ==> w.phase == Phase::Done
            &&& v.phase == Phase::Done ==> w == v && act == Action::Finish
        }),
{
}

/// A click input is sent only while the run is known to be running.
pub proof fn lemma_click_only_while_running(plan: ClickerPlan, v: ClickerView, obs: Observation)
    ensures
        spec_step(plan, v, obs).1 == Action::SendClick ==> spec_step(plan, v, obs).0.is_running,
{
}

/// With a zero interval and no random offset, clicks follow each other with
/// no wait: the loop never sleeps and never spins toward a target.
pub proof fn lemma_instant_never_waits(plan: ClickerPlan, v: ClickerView, obs: Observation)
    requires
        plan.is_instant(),
        !(v.phase is Pace || v.phase is Slept || v.phase is Spin),
    ensures
        ({
            let (w, act) = spec_step(plan, v, obs);
            &&& !(w.phase is Pace || w.phase is Slept || w.phase is Spin)
            &&& !(act is Sleep)
        }),
{
}

/// A randomized wait lies within the random range around the interval:
/// whenever the loop goes on to wait, the wait is between
/// `interval - range` and `interval + range` nanoseconds.
pub proof fn lemma_random_wait_within_range(plan: ClickerPlan, v: ClickerView, obs: Observation)
    requires
        plan.wf(),
        plan.randomize,
        v.rng is Some,
        v.phase == Phase::Checks,
        plan.target_delay_ns + plan.random_range_ns <= i64::MAX,
    ensures
        spec_step(plan, v, obs).0.phase matches Phase::Pace { sleep_ns, tsc_ticks } ==> {
            &&& plan.target_delay_ns - plan.random_range_ns <= sleep_ns
            &&& sleep_ns <= plan.target_delay_ns + plan.random_range_ns
            &&& tsc_ticks == sleep_ns * 3
        },
{
    let r = plan.random_range_ns as i64;
    assert(r as int == plan.random_range_ns);
    let x = xoshiro_output(v.rng->0);
    lemma_range_value_within((-r) as i64, r, x);
    let draw = range_value((-r) as i64, r, x);
    let base = plan.target_delay_ns as i64;
    assert(base as int == plan.target_delay_ns as int);
    let sum = base + draw;
    if i64::MIN <= sum <= i64::MAX {
        let si = sum as i64;
        if si < 0 {
            assert((si as u64) as int == si as int + 0x1_0000_0000_0000_0000) by (bit_vector)
                requires
                    si < 0,
            ;
        } else {
            assert((si as u64) as int == si as int) by (bit_vector)
                requires
                    si >= 0,
            ;
        }
    }
}

/// No requested sleep runs past the deadline of the wait: where the loop
/// asks to sleep `nanos` nanoseconds in a wait of `sleep_ns` nanoseconds,
/// the nanoseconds already gone since the last click plus `nanos` are at
/// most `sleep_ns` (at most `sleep_ns - 500_000` in the standard mode, which
/// leaves half a millisecond to spin); the rest of the wait is spun. The
/// ultra-precision mode never sleeps, and the high-precision mode sleeps
/// only while more than 2 ms remain, and then for at least 2 ms.
pub proof fn lemma_sleep_never_passes_deadline(plan: ClickerPlan, v: ClickerView, obs: Observation)
    requires
        v.phase matches Phase::Pace { sleep_ns, tsc_ticks } && tsc_ticks == sleep_ns * 3,
    ensures
        ({
            let (w, act) = spec_step(plan, v, obs);
            let sleep_ns = v.phase->Pace_sleep_ns;
            let gone = nanoseconds_between(v.last_tsc, obs.tsc);
            &&& act matches Action::Sleep { nanos } ==> {
                &&& gone + nanos <= sleep_ns
                &&& plan.mode == TimingMode::Standard ==> gone + nanos + 500_000 <= sleep_ns
                &&& plan.mode == TimingMode::HighPrecision ==> nanos >= 2_000_000
            }
            &&& plan.mode == TimingMode::UltraPrecision ==> !(act is Sleep)
            &&& w.phase == (Phase::Slept { tsc_ticks: v.phase->Pace_tsc_ticks })
        }),
{
    let sleep_ns = v.phase->Pace_sleep_ns;
    let ticks = v.phase->Pace_tsc_ticks;
    if plan.mode == TimingMode::HighPrecision {
        if obs.tsc >= v.last_tsc {
            let e = obs.tsc - v.last_tsc;
            assert(nanoseconds_between(v.last_tsc, obs.tsc) == e / 3);
            if ticks >= e {
                let r = ticks - e;
                assert(e / 3 + r / 3 <= (e + r) / 3) by (nonlinear_arith)
                    requires
                        e >= 0,
                        r >= 0,
                ;
                assert((e + r) / 3 == sleep_ns);
                assert(r > 6_000_000 ==> r / 3 >= 2_000_000);
            }
        } else {
            assert(ticks / 3 == sleep_ns);
            assert(ticks > 6_000_000 ==> ticks / 3 >= 2_000_000);
        }
    }
}

/// The spin of a wait aims at the last click's counter reading plus the
/// wait's ticks: after the coarse sleep, the loop spins toward
/// `last_tsc + tsc_ticks`, with the last click's reading kept.
pub proof fn lemma_spin_target_after_sleep(plan: ClickerPlan, v: ClickerView, obs: Observation)
    requires
        v.phase matches Phase::Slept { tsc_ticks } && v.last_tsc + tsc_ticks <= u64::MAX,
    ensures
        ({
            let (w, act) = spec_step(plan, v, obs);
            &&& w.phase matches Phase::Spin { target_tsc, .. } && target_tsc == v.last_tsc
                + v.phase->Slept_tsc_ticks
            &&& w.last_tsc == v.last_tsc
            &&& act == Action::Proceed
        }),
{
}

/// A wait lasts its full length: while the counter is short of the spin's
/// target and the run goes on, the loop only relaxes and stays in the spin;
/// and where the target is the last click's reading plus the ticks of a
/// wait of `sleep_ns` nanoseconds, the spin ends with the run going on only
/// once `sleep_ns` nanoseconds have passed since that reading.
pub proof fn lemma_spin_waits_full_interval(
    plan: ClickerPlan,
    v: ClickerView,
    obs: Observation,
    sleep_ns: u64,
)
    requires
        v.phase is Spin,
        v.phase->Spin_target_tsc == v.last_tsc + sleep_ns * 3,
    ensures
        ({
            let (w, act) = spec_step(plan, v, obs);
            &&& (obs.tsc < v.phase->Spin_target_tsc && reloaded(v, obs)) ==> act == Action::Relax
                && w.phase == v.phase && w.last_tsc == v.last_tsc
            &&& (w.phase != v.phase && w.is_running) ==> w.phase == Phase::AfterWait
                && nanoseconds_between(v.last_tsc, obs.tsc) >= sleep_ns
            &&& act != Action::SendClick
        }),
{
}

/// Without a random offset, every wait of a run that is not instant is the
/// set interval: the stop checks, when they let the run go on, move to a
/// wait of `target_delay_ns` nanoseconds, that is three times as many ticks.
pub proof fn lemma_wait_is_interval(plan: ClickerPlan, v: ClickerView, obs: Observation)
    requires
        v.phase == Phase::Checks,
        !plan.randomize,
        !plan.is_instant(),
        plan.target_delay_ns * 3 <= u64::MAX,
    ensures
        spec_step(plan, v, obs).0.phase is Pace ==> spec_step(plan, v, obs).0.phase == (Phase::Pace {
            sleep_ns: plan.target_delay_ns,
            tsc_ticks: (plan.target_delay_ns * 3) as u64,
        }),
{
}

/// The plan's mouse button follows the combo box's entries "Left",
/// "Right", "Middle": index 0 is the left button, 1 the right button, and
/// any other index the middle button.
pub proof fn lemma_button_for_entries(btn_idx: i32)
    ensures
        button_for(0) == MouseButton::Left,
        button_for(1) == MouseButton::Right,
        btn_idx != 0 && btn_idx != 1 ==> button_for(btn_idx) == MouseButton::Middle,
{
}

/// The timing mode follows the interval: below 15 ms the wait is spun,
/// from 15 ms to below 50 ms it is the high-precision mode, and from 50 ms
/// on the standard mode.
pub proof fn lemma_mode_thresholds(millis: int)
    ensures
        millis < 15 ==> mode_for(millis) == TimingMode::UltraPrecision,
        15 <= millis < 50 ==> mode_for(millis) == TimingMode::HighPrecision,
        50 <= millis ==> mode_for(millis) == TimingMode::Standard,
{
}

/// The interval is the hours, minutes, seconds and milliseconds of the
/// form counted in milliseconds (an hour being 60 minutes of 60 seconds of
/// 1000 ms), and a negative total counts as no wait at all.
pub proof fn lemma_interval_in_millis(h: i32, m: i32, s: i32, ms: i32)
    ensures
        interval_millis(h, m, s, ms) >= 0,
        ((h * 60 + m) * 60 + s) * 1000 + ms >= 0 ==> interval_millis(h, m, s, ms) == ((h * 60 + m)
            * 60 + s) * 1000 + ms,
        ((h * 60 + m) * 60 + s) * 1000 + ms < 0 ==> interval_millis(h, m, s, ms) == 0,
{
    assert(((h * 60 + m) * 60 + s) * 1000 + ms == h * 3600000 + m * 60000 + s * 1000 + ms)
        by (nonlinear_arith);
}

/// The safety check and the double click use the documented figures: the
/// cursor is looked at every 100 ms, ten consecutive readings within 5
/// pixels of a corner stop the run, and the two inputs of a double click
/// are 50 ms apart. A reading counts as in a corner exactly when it is
/// within 5 pixels of both edges that meet there.
pub proof fn lemma_documented_figures(c: CursorSample)
    ensures
        CORNER_CHECK_INTERVAL_NS == 100_000_000,
        CORNER_THRESHOLD == 10,
        DOUBLE_CLICK_DELAY_NS == 50_000_000,
        in_corner(c) <==> ((c.x <= 5 || c.x >= c.screen_width - 5) && (c.y <= 5 || c.y
            >= c.screen_height - 5)),
{
}

/// A double click waits 50 ms between its two inputs: while less than
/// 50 ms have passed since the first input and the run goes on, the loop
/// only relaxes; the second input is sent only once they have passed.
pub proof fn lemma_double_click_gap(plan: ClickerPlan, v: ClickerView, obs: Observation)
    requires
        v.phase is DoubleGap,
    ensures
        ({
            let (w, act) = spec_step(plan, v, obs);
            let gone = nanoseconds_between(v.phase->start_tsc, obs.tsc);
            &&& (gone < 50_000_000 && reloaded(v, obs)) ==> act == Action::Relax && w.phase == v.phase
            &&& act == Action::SendClick ==> gone >= 50_000_000
        }),
{
}

/// With a zero interval the loop clicks again at once and gives up its
/// time slice once every 100 clicks: at the stop checks of a run that goes
/// on, it yields exactly when the click count is a multiple of 100.
pub proof fn lemma_instant_yields_every_hundred(plan: ClickerPlan, v: ClickerView, obs: Observation)
    requires
        v.phase == Phase::Checks,
        plan.is_instant(),
        !(end_condition_holds(plan, v, obs)),
    ensures
        (spec_step(plan, v, obs).1 == Action::Yield) == (v.click_count % 100 == 0),
        spec_step(plan, v, obs).0.phase == Phase::Restamp,
{
}

/// One of the end conditions of the stop checks holds.
pub open spec fn end_condition_holds(plan: ClickerPlan, v: ClickerView, obs: Observation) -> bool {
    ||| !obs.running
    ||| (plan.repeat_while_held && !obs.hotkey_held)
    ||| (plan.repeat_finite && v.current_clicks >= plan.repeat_count)
    ||| (plan.repeat_time && obs.elapsed_nanos >= plan.repeat_duration_nanos)
}

/// At the stop checks the run ends as soon as one of its end conditions
/// holds: the running flag is cleared, the hotkey of a repeat-while-held
/// run is let go, the requested clicks were made, or the requested time has
/// passed; the hotkey's release stops a held run with its own reason.
pub proof fn lemma_stop_conditions_end_run(plan: ClickerPlan, v: ClickerView, obs: Observation)
    requires
        v.phase == Phase::Checks,
    ensures
        ({
            let (w, act) = spec_step(plan, v, obs);
            &&& (!obs.running || (plan.repeat_while_held && !obs.hotkey_held) || (plan.repeat_finite
                && v.current_clicks >= plan.repeat_count) || (plan.repeat_time && obs.elapsed_nanos
                >= plan.repeat_duration_nanos)) <==> (act is Stop || act is Finish)
            &&& (obs.running && plan.repeat_while_held && !obs.hotkey_held) ==> act == (Action::Stop {
                reason: StopReason::HotkeyReleased,
            })
            &&& (act is Stop || act is Finish) ==> w.phase == Phase::Done
        }),
{
}

} // verus!
