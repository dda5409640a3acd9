//! A Cargo-style terminal progress bar: its style, its state, the redraw
//! throttle and the text of one bar line.
//!
//! The bar line is drawn by the caller: the methods that move the bar say whether
//! a redraw is due, and `render` gives the line to print.

use vstd::prelude::*;

use crate::text::{concat, decimal_text, push_char, push_decimal};

verus! {

// ── Clock ─────────────────────────────────────────────────────────────

/// `std::time::Instant`, a reading of the monotonic clock.
#[verifier::external_type_specification]
#[verifier::external_body]
pub struct ExInstant(std::time::Instant);

/// `Instant::now`: the current reading of the monotonic clock. Nothing is known of
/// the value.
#[verifier::external_body]
fn instant_now() -> std::time::Instant {
    std::time::Instant::now()
}

/// `Instant::duration_since` in whole milliseconds (zero when `earlier` is the
/// later reading). Nothing is known of the value.
#[verifier::external_body]
fn millis_since(later: &std::time::Instant, earlier: &std::time::Instant) -> u128 {
    later.duration_since(*earlier).as_millis()
}

// ── Number formatting ─────────────────────────────────────────────────

/// The text of an ETA of `secs` seconds: `5s`, `1m 5s` or `1h 1m`.
pub open spec fn duration_text(secs: nat) -> Seq<char> {
    if secs < 60 {
        decimal_text(secs) + "s"@
    } else if secs < 3600 {
        decimal_text(secs / 60) + "m "@ + decimal_text(secs % 60) + "s"@
    } else {
        decimal_text(secs / 3600) + "h "@ + decimal_text((secs % 3600) / 60) + "m"@
    }
}

/// Formats a duration of `secs` whole seconds as an ETA.
pub fn format_duration(secs: u64) -> (r: String)
    ensures
        r@ == duration_text(secs as nat),
{
    let mut s = String::new();
    if secs < 60 {
        push_decimal(&mut s, secs);
        s.append("s");
    } else if secs < 3600 {
        push_decimal(&mut s, secs / 60);
        s.append("m ");
        push_decimal(&mut s, secs % 60);
        s.append("s");
    } else {
        push_decimal(&mut s, secs / 3600);
        s.append("h ");
        push_decimal(&mut s, (secs % 3600) / 60);
        s.append("m");
    }
    s
}

/// `2^e`.
pub open spec fn two_pow(e: nat) -> nat
    decreases e,
{
    if e == 0 {
        1
    } else {
        2 * two_pow((e - 1) as nat)
    }
}

/// `1024^k`.
pub open spec fn kib_pow(k: nat) -> nat
    decreases k,
{
    if k == 0 {
        1
    } else {
        1024 * kib_pow((k - 1) as nat)
    }
}

/// How many low bits of `n` do not fit in the 53-bit significand of an `f64`.
pub open spec fn f64_shift(n: nat) -> nat
    decreases n,
{
    if n < 9007199254740992 {
        0
    } else {
        1 + f64_shift(n / 2)
    }
}

/// `q` rounded up when the remainder `r` of a division by `d` is more than half
/// of `d`, or exactly half and `q` is odd (round half to even).
pub open spec fn round_half_even(q: nat, r: nat, d: nat) -> nat {
    if r * 2 > d || (r * 2 == d && q % 2 == 1) {
        q + 1
    } else {
        q
    }
}

/// The value of `n as f64`: `n` rounded to the nearest number with a 53-bit
/// significand, ties to even.
pub open spec fn f64_nearest(n: nat) -> nat {
    let p = two_pow(f64_shift(n));
    round_half_even(n / p, n % p, p) * p
}

/// The unit of a size of `f` bytes: the largest `k <= 4` with `f >= 1024^k`,
/// counted from `k`.
pub open spec fn unit_index_from(f: nat, k: nat) -> nat
    decreases 4 - k,
{
    if k < 4 && f >= kib_pow(k + 1) {
        unit_index_from(f, k + 1)
    } else {
        k
    }
}

/// The name of the `k`-th size unit.
pub open spec fn unit_name(k: nat) -> Seq<char> {
    if k == 0 {
        "B"@
    } else if k == 1 {
        "KiB"@
    } else if k == 2 {
        "MiB"@
    } else if k == 3 {
        "GiB"@
    } else {
        "TiB"@
    }
}

/// The text of a byte count: below 1 KiB the exact count (`500 B`); above, the
/// size in the largest binary unit up to TiB with one decimal, as `{:.1}` prints
/// the `f64` quotient (`1.5 KiB`).
pub open spec fn bytes_text(bytes: nat) -> Seq<char> {
    let f = f64_nearest(bytes);
    let k = unit_index_from(f, 0);
    if k == 0 {
        decimal_text(bytes) + " B"@
    } else {
        let d = kib_pow(k);
        let t = round_half_even((f * 10) / d, (f * 10) % d, d);
        decimal_text(t / 10) + "."@ + decimal_text(t % 10) + " "@ + unit_name(k)
    }
}

/// `n as f64` as an integer.
fn f64_nearest_exec(n: u64) -> (r: u128)
    ensures
        r == f64_nearest(n as nat),
        r <= 2 * (n as nat) + 1,
{
    let mut m: u64 = n;
    let mut p: u128 = 1;
    let ghost mut e: nat = 0;
    while m >= 9007199254740992
        invariant
            p == two_pow(e),
            m == n as nat / (p as nat),
            1 <= p <= n as nat + 1,
            f64_shift(n as nat) == e + f64_shift(m as nat),
        decreases m,
    {
        proof {
            assert(p * 2 <= n) by (nonlinear_arith)
                requires
                    m == n as nat / (p as nat),
                    m >= 2,
                    p >= 1,
            ;
            vstd::arithmetic::div_mod::lemma_div_denominator(n as int, p as int, 2);
        }
        m = m / 2;
        p = p * 2;
        proof {
            e = e + 1;
        }
    }
    let q: u128 = (n as u128) / p;
    let rem: u128 = (n as u128) % p;
    let q2: u128 = if rem * 2 > p || (rem * 2 == p && q % 2 == 1) {
        q + 1
    } else {
        q
    };
    assert(q2 * p <= 2 * (n as nat) + 1) by (nonlinear_arith)
        requires
            q == n as nat / (p as nat),
            rem == n as nat % (p as nat),
            p >= 1,
            p <= n as nat + 1,
            q2 <= q + 1,
    {
        assert(q * p + rem == n);
    }
    q2 * p
}

/// Formats a byte count as a human readable size (`500 B`, `1.5 KiB`).
pub fn format_bytes(bytes: u64) -> (r: String)
    ensures
        r@ == bytes_text(bytes as nat),
{
    let f = f64_nearest_exec(bytes);
    let mut k: usize = 0;
    let mut unit: u128 = 1;
    while k < 4 && f >= unit * 1024
        invariant
            k <= 4,
            unit == kib_pow(k as nat),
            unit <= 1099511627776,
            unit_index_from(f as nat, 0) == unit_index_from(f as nat, k as nat),
            k > 0 ==> f >= unit,
        decreases 4 - k,
    {
        proof {
            reveal_with_fuel(kib_pow, 2);
        }
        unit = unit * 1024;
        k = k + 1;
    }
    proof {
        reveal_with_fuel(kib_pow, 2);
    }
    assert(unit_index_from(f as nat, 0) == k);
    let mut s = String::new();
    if k == 0 {
        push_decimal(&mut s, bytes);
        s.append(" B");
        return s;
    }
    assert(unit >= 1024) by {
        reveal_with_fuel(kib_pow, 5);
    }
    let n: u128 = f * 10;
    let t: u128 = n / unit;
    let rem: u128 = n % unit;
    proof {
        vstd::arithmetic::div_mod::lemma_div_is_ordered_by_denominator(n as int, 1024, unit as int);
    }
    let t2: u128 = if rem * 2 > unit || (rem * 2 == unit && t % 2 == 1) {
        t + 1
    } else {
        t
    };
    push_decimal(&mut s, (t2 / 10) as u64);
    s.append(".");
    push_decimal(&mut s, (t2 % 10) as u64);
    s.append(" ");
    let name: &str = if k == 1 {
        "KiB"
    } else if k == 2 {
        "MiB"
    } else if k == 3 {
        "GiB"
    } else {
        "TiB"
    };
    s.append(name);
    s
}

// ── Style ─────────────────────────────────────────────────────────────

/// The look of a progress bar.
#[derive(Debug, Clone)]
pub struct ProgressStyle {
    /// Width of the bar portion in characters.
    pub bar_width: usize,
    /// Character for the completed portion.
    pub filled_char: char,
    /// Character for the current position tip.
    pub tip_char: char,
    /// Character for the remaining portion.
    pub unfilled_char: char,
    /// Left bracket.
    pub left_bracket: char,
    /// Right bracket.
    pub right_bracket: char,
    /// Whether to show the percentage.
    pub show_percent: bool,
    /// Whether to show the ETA.
    pub show_eta: bool,
    /// Whether to show the throughput.
    pub show_speed: bool,
    /// Whether the position counts bytes (speed shown as `12.3 MiB/s`) rather than
    /// items (`it/s`).
    pub bytes_mode: bool,
    /// Minimum interval between redraws, in milliseconds.
    pub draw_interval_ms: u64,
}

/// The default style: `[====>     ]`, 30 cells, percentage, speed and ETA shown,
/// items mode, at most one redraw every 100 ms.
pub open spec fn is_default_style(s: ProgressStyle) -> bool {
    &&& s.bar_width == 30
    &&& s.filled_char == '='
    &&& s.tip_char == '>'
    &&& s.unfilled_char == ' '
    &&& s.left_bracket == '['
    &&& s.right_bracket == ']'
    &&& s.show_percent
    &&& s.show_eta
    &&& s.show_speed
    &&& !s.bytes_mode
    &&& s.draw_interval_ms == 100
}

impl Default for ProgressStyle {
    fn default() -> (r: ProgressStyle)
        ensures
            is_default_style(r),
    {
        ProgressStyle {
            bar_width: 30,
            filled_char: '=',
            tip_char: '>',
            unfilled_char: ' ',
            left_bracket: '[',
            right_bracket: ']',
            show_percent: true,
            show_eta: true,
            show_speed: true,
            bytes_mode: false,
            draw_interval_ms: 100,
        }
    }
}

impl ProgressStyle {
    /// Cargo-style bar: `[====>     ]`, the default.
    pub fn cargo() -> (r: ProgressStyle)
        ensures
            is_default_style(r),
    {
        ProgressStyle::default()
    }

    /// Block characters with a smooth tip: `████▌░░░░`; otherwise the default.
    pub fn blocks() -> (r: ProgressStyle)
        ensures
            r.filled_char == '█',
            r.tip_char == '▌',
            r.unfilled_char == '░',
            is_default_style(ProgressStyle { filled_char: '=', tip_char: '>', unfilled_char: ' ', ..r }),
    {
        ProgressStyle { filled_char: '█', tip_char: '▌', unfilled_char: '░', ..ProgressStyle::default() }
    }

    /// Byte-tracking mode: speed is shown as a byte rate.
    pub fn with_bytes(self) -> (r: ProgressStyle)
        ensures
            r == (ProgressStyle { bytes_mode: true, ..self }),
    {
        ProgressStyle { bytes_mode: true, ..self }
    }

    /// Sets the bar width.
    pub fn bar_width(self, width: usize) -> (r: ProgressStyle)
        ensures
            r == (ProgressStyle { bar_width: width, ..self }),
    {
        ProgressStyle { bar_width: width, ..self }
    }
}

// ── State ─────────────────────────────────────────────────────────────

/// Where a progress bar stands.
pub struct ProgressState {
    /// Current position.
    pub pos: u64,
    /// Total length; 0 when unknown.
    pub len: u64,
    /// The message shown before the bar.
    pub message: String,
    /// When the bar was started (or last reset).
    pub started: std::time::Instant,
    /// When the bar was last drawn.
    pub last_draw: std::time::Instant,
    /// Whether the bar is finished.
    pub finished: bool,
}

impl ProgressState {
    /// A fresh state at position 0 with an empty message.
    pub fn new(len: u64) -> (r: ProgressState)
        ensures
            r.pos == 0,
            r.len == len,
            r.message@ == Seq::<char>::empty(),
            !r.finished,
            r.last_draw == r.started,
    {
        let now = instant_now();
        ProgressState { pos: 0, len, message: String::new(), started: now, last_draw: now, finished: false }
    }

    /// Whether an ETA can be estimated: some progress was made and the end is not
    /// reached yet.
    pub fn eta_known(&self) -> (r: bool)
        ensures
            r == (self.pos != 0 && self.pos < self.len),
    {
        self.pos != 0 && self.pos < self.len
    }
}

// ── Bar ───────────────────────────────────────────────────────────────

/// `n` copies of `c`.
pub open spec fn repeat(c: char, n: int) -> Seq<char> {
    Seq::new(if n < 0 { 0 } else { n as nat }, |i: int| c)
}

/// The cells of an indeterminate bar (length 0) at position `pos`: the tip moves
/// one cell per step through the unfilled cells, starting over at the left end.
pub open spec fn spinner_body(style: ProgressStyle, pos: u64) -> Seq<char> {
    let w = style.bar_width as int;
    if w == 0 {
        Seq::empty()
    } else {
        let k = (pos % (w as u64)) as int;
        repeat(style.unfilled_char, k) + seq![style.tip_char] + repeat(style.unfilled_char, w - k - 1)
    }
}

/// The cells between the brackets when `filled` of the `w` cells are filled; for
/// an indeterminate bar, the spinner.
pub open spec fn bar_body(style: ProgressStyle, pos: u64, len: u64, filled: int) -> Seq<char> {
    let w = style.bar_width as int;
    if len == 0 {
        spinner_body(style, pos)
    } else if pos >= len {
        repeat(style.filled_char, w)
    } else if filled > 0 {
        repeat(style.filled_char, filled - 1) + seq![style.tip_char] + repeat(style.unfilled_char, w - filled)
    } else {
        repeat(style.unfilled_char, w)
    }
}

/// A bar is as wide as its style says: for any filled count from 0 to the width,
/// exactly `bar_width` characters stand between the brackets.
pub proof fn law_bar_has_its_width(style: ProgressStyle, pos: u64, len: u64, filled: int)
    requires
        0 <= filled <= style.bar_width,
    ensures
        bar_body(style, pos, len, filled).len() == style.bar_width,
{
}

/// An indeterminate bar moves: on a bar at least two cells wide, one step forward
/// changes what is drawn.
pub proof fn law_indeterminate_bar_moves(style: ProgressStyle, pos: u64)
    requires
        style.bar_width >= 2,
        pos < u64::MAX,
        style.tip_char != style.unfilled_char,
    ensures
        bar_body(style, pos, 0, 0) != bar_body(style, (pos + 1) as u64, 0, 0),
{
    let w = style.bar_width as int;
    let k = (pos % (style.bar_width as u64)) as int;
    let k2 = (((pos + 1) as u64) % (style.bar_width as u64)) as int;
    let p = pos as int;
    assert(k == p % w && k2 == (p + 1) % w);
    assert(k2 != k) by {
        vstd::arithmetic::div_mod::lemma_fundamental_div_mod(p, w);
        let q = p / w;
        assert(p == w * q + k);
        assert(p == q * w + k) by (nonlinear_arith)
            requires
                p == w * q + k,
        ;
        assert(0 <= k < w);
        if k + 1 < w {
            vstd::arithmetic::div_mod::lemma_fundamental_div_mod_converse(p + 1, w, q, k + 1);
        } else {
            assert(p + 1 == (q + 1) * w + 0) by (nonlinear_arith)
                requires
                    p == q * w + k,
                    k + 1 == w,
            ;
            vstd::arithmetic::div_mod::lemma_fundamental_div_mod_converse(p + 1, w, q + 1, 0);
        }
    }
    let a = bar_body(style, pos, 0, 0);
    let b = bar_body(style, (pos + 1) as u64, 0, 0);
    assert(a[k] == style.tip_char);
    assert(b[k] == style.unfilled_char);
}

/// Whether a throttled bar is redrawn: always when unthrottled, else once the
/// draw interval has passed since the last draw.
pub open spec fn redraw_due(throttle: bool, elapsed_ms: int, interval_ms: int) -> bool {
    !throttle || elapsed_ms >= interval_ms
}

/// A terminal progress bar.
pub struct ProgressBar {
    /// Where the bar stands.
    pub state: ProgressState,
    /// How the bar looks.
    pub style: ProgressStyle,
    /// When set, moves redraw only once the draw interval has passed.
    pub throttle: bool,
}

impl ProgressBar {
    /// A bar of total length `len` (0 for an indeterminate bar), in the default
    /// style, throttled.
    pub fn new(len: u64) -> (r: ProgressBar)
        ensures
            r.state.pos == 0,
            r.state.len == len,
            r.state.message@ == Seq::<char>::empty(),
            !r.state.finished,
            is_default_style(r.style),
            r.throttle,
    {
        ProgressBar { state: ProgressState::new(len), style: ProgressStyle::default(), throttle: true }
    }

    /// A bar of total length `len` in the given style, throttled.
    pub fn with_style(len: u64, style: ProgressStyle) -> (r: ProgressBar)
        ensures
            r.state.pos == 0,
            r.state.len == len,
            r.state.message@ == Seq::<char>::empty(),
            !r.state.finished,
            r.style == style,
            r.throttle,
    {
        ProgressBar { state: ProgressState::new(len), style, throttle: true }
    }

    /// Sets the total length.
    pub fn set_length(&mut self, len: u64)
        ensures
            final(self).state == (ProgressState { len, ..old(self).state }),
            final(self).style == old(self).style,
            final(self).throttle == old(self).throttle,
    {
        self.state.len = len;
    }

    /// Sets the message shown before the bar.
    pub fn set_message(&mut self, msg: &str)
        ensures
            final(self).state.message@ == msg@,
            final(self).state.pos == old(self).state.pos,
            final(self).state.len == old(self).state.len,
            final(self).state.started == old(self).state.started,
            final(self).state.last_draw == old(self).state.last_draw,
            final(self).state.finished == old(self).state.finished,
            final(self).style == old(self).style,
            final(self).throttle == old(self).throttle,
    {
        self.state.message = String::from_str(msg);
    }

    /// Records a redraw at the clock reading `now`, taken `elapsed_ms` after the
    /// last draw, when one is due; returns whether the bar is to be drawn.
    fn draw_if_needed(&mut self, now: std::time::Instant, elapsed_ms: u128) -> (r: bool)
        ensures
            r == redraw_due(old(self).throttle, elapsed_ms as int, old(self).style.draw_interval_ms as int),
            r ==> final(self).state.last_draw == now,
            !r ==> final(self).state.last_draw == old(self).state.last_draw,
            final(self).state.pos == old(self).state.pos,
            final(self).state.len == old(self).state.len,
            final(self).state.message == old(self).state.message,
            final(self).state.started == old(self).state.started,
            final(self).state.finished == old(self).state.finished,
            final(self).style == old(self).style,
            final(self).throttle == old(self).throttle,
    {
        let due = self.redraw_due(elapsed_ms);
        if due {
            self.state.last_draw = now;
        }
        due
    }

    /// Moves to position `pos`; returns whether the bar is to be redrawn (always
    /// when unthrottled, else when the draw interval has passed).
    pub fn set_position(&mut self, pos: u64) -> (r: bool)
        ensures
            final(self).state.pos == pos,
            final(self).state.len == old(self).state.len,
            final(self).state.message == old(self).state.message,
            final(self).state.started == old(self).state.started,
            final(self).state.finished == old(self).state.finished,
            final(self).style == old(self).style,
            final(self).throttle == old(self).throttle,
            !old(self).throttle ==> r,
            !r ==> final(self).state.last_draw == old(self).state.last_draw,
    {
        self.state.pos = pos;
        let now = instant_now();
        let elapsed = millis_since(&now, &self.state.last_draw);
        self.draw_if_needed(now, elapsed)
    }

    /// Advances the position by `delta`; returns whether the bar is to be redrawn.
    pub fn inc(&mut self, delta: u64) -> (r: bool)
        requires
            old(self).state.pos + delta <= u64::MAX,
        ensures
            final(self).state.pos == old(self).state.pos + delta,
            final(self).state.len == old(self).state.len,
            final(self).state.message == old(self).state.message,
            final(self).state.started == old(self).state.started,
            final(self).state.finished == old(self).state.finished,
            final(self).style == old(self).style,
            final(self).throttle == old(self).throttle,
            !old(self).throttle ==> r,
            !r ==> final(self).state.last_draw == old(self).state.last_draw,
    {
        self.state.pos = self.state.pos + delta;
        let now = instant_now();
        let elapsed = millis_since(&now, &self.state.last_draw);
        self.draw_if_needed(now, elapsed)
    }

    /// Advances the position by one; returns whether the bar is to be redrawn.
    pub fn tick(&mut self) -> (r: bool)
        requires
            old(self).state.pos < u64::MAX,
        ensures
            final(self).state.pos == old(self).state.pos + 1,
            final(self).state.len == old(self).state.len,
            final(self).state.message == old(self).state.message,
            final(self).state.started == old(self).state.started,
            final(self).state.finished == old(self).state.finished,
            final(self).style == old(self).style,
            final(self).throttle == old(self).throttle,
            !old(self).throttle ==> r,
            !r ==> final(self).state.last_draw == old(self).state.last_draw,
    {
        self.inc(1)
    }

    /// Records a forced redraw, whatever the throttle says.
    pub fn draw(&mut self)
        ensures
            final(self).state.pos == old(self).state.pos,
            final(self).state.len == old(self).state.len,
            final(self).state.message == old(self).state.message,
            final(self).state.started == old(self).state.started,
            final(self).state.finished == old(self).state.finished,
            final(self).style == old(self).style,
            final(self).throttle == old(self).throttle,
    {
        self.state.last_draw = instant_now();
    }

    /// Finishes the bar at its full length. Returns whether it was still running,
    /// in which case the full bar is to be drawn once more, followed by a newline.
    pub fn finish(&mut self) -> (r: bool)
        ensures
            r == !old(self).state.finished,
            final(self).state.finished,
            r ==> final(self).state.pos == old(self).state.len,
            !r ==> final(self).state.pos == old(self).state.pos,
            final(self).state.len == old(self).state.len,
            final(self).state.message == old(self).state.message,
            final(self).state.started == old(self).state.started,
            final(self).state.last_draw == old(self).state.last_draw,
            final(self).style == old(self).style,
            final(self).throttle == old(self).throttle,
    {
        if !self.state.finished {
            self.state.finished = true;
            self.state.pos = self.state.len;
            true
        } else {
            false
        }
    }

    /// Finishes the bar at its full length, to be replaced by `msg`. Returns the
    /// line that replaces the bar (`\r`, the message, two spaces and a newline), or
    /// `None` when the bar was already finished.
    pub fn finish_with_message(&mut self, msg: &str) -> (r: Option<String>)
        ensures
            final(self).state.finished,
            match r {
                Some(line) => !old(self).state.finished && line@ == "\r"@ + msg@ + "  \n"@
                    && final(self).state.pos == old(self).state.len,
                None => old(self).state.finished && final(self).state.pos == old(self).state.pos,
            },
            final(self).state.len == old(self).state.len,
            final(self).state.message == old(self).state.message,
            final(self).state.started == old(self).state.started,
            final(self).state.last_draw == old(self).state.last_draw,
            final(self).style == old(self).style,
            final(self).throttle == old(self).throttle,
    {
        if self.finish() {
            let a = concat("\r", msg);
            Some(concat(a.as_str(), "  \n"))
        } else {
            None
        }
    }

    /// Resets the bar for reuse: position 0, clock restarted, not finished, no
    /// message.
    pub fn reset(&mut self)
        ensures
            final(self).state.pos == 0,
            !final(self).state.finished,
            final(self).state.message@ == Seq::<char>::empty(),
            final(self).state.len == old(self).state.len,
            final(self).state.last_draw == old(self).state.last_draw,
            final(self).style == old(self).style,
            final(self).throttle == old(self).throttle,
    {
        self.state.pos = 0;
        self.state.started = instant_now();
        self.state.finished = false;
        self.state.message = String::new();
    }

    /// Sets the style in builder fashion.
    pub fn with(self, style: ProgressStyle) -> (r: ProgressBar)
        ensures
            r.state == self.state,
            r.style == style,
            r.throttle == self.throttle,
    {
        ProgressBar { style, ..self }
    }

    /// Turns redraw throttling on or off.
    pub fn throttle(self, throttle: bool) -> (r: ProgressBar)
        ensures
            r.state == self.state,
            r.style == self.style,
            r.throttle == throttle,
    {
        ProgressBar { throttle, ..self }
    }

    /// Whether a redraw `elapsed_ms` after the last one is due.
    pub fn redraw_due(&self, elapsed_ms: u128) -> (r: bool)
        ensures
            r == redraw_due(self.throttle, elapsed_ms as int, self.style.draw_interval_ms as int),
    {
        !self.throttle || elapsed_ms >= self.style.draw_interval_ms as u128
    }

    /// The bar `[====>     ]` with `filled` of its cells filled.
    pub fn render_bar(&self, filled: usize) -> (r: String)
        requires
            filled <= self.style.bar_width,
            self.style.bar_width + 3 <= usize::MAX,
        ensures
            r@ == seq![self.style.left_bracket] + bar_body(
                self.style,
                self.state.pos,
                self.state.len,
                filled as int,
            ) + seq![self.style.right_bracket],
    {
        let st = &self.state;
        let style = &self.style;
        let w = style.bar_width;
        let mut bar = String::new();
        push_char(&mut bar, style.left_bracket);
        if st.len == 0 {
            if w > 0 {
                let k = (st.pos % (w as u64)) as usize;
                push_repeat(&mut bar, style.unfilled_char, k);
                push_char(&mut bar, style.tip_char);
                push_repeat(&mut bar, style.unfilled_char, w - k - 1);
            }
            push_char(&mut bar, style.right_bracket);
            proof {
                let body = bar_body(*style, st.pos, st.len, filled as int);
                if w > 0 {
                    let kk = (st.pos % (w as u64)) as int;
                    assert(repeat(style.unfilled_char, w - kk - 1) =~= repeat(style.unfilled_char, (w - kk - 1) as int));
                }
                assert(bar@ =~= seq![style.left_bracket] + body + seq![style.right_bracket]);
            }
            return bar;
        }
        if st.pos >= st.len {
            push_repeat(&mut bar, style.filled_char, w);
        } else if filled > 0 {
            push_repeat(&mut bar, style.filled_char, filled - 1);
            push_char(&mut bar, style.tip_char);
            push_repeat(&mut bar, style.unfilled_char, w - filled);
        } else {
            push_repeat(&mut bar, style.unfilled_char, w);
        }
        push_char(&mut bar, style.right_bracket);
        proof {
            let body = bar_body(*style, st.pos, st.len, filled as int);
            assert(bar@ =~= seq![style.left_bracket] + body + seq![style.right_bracket]);
        }
        bar
    }

    /// The line drawn for the bar: the message, the bar with `filled` cells filled,
    /// the percentage (`percent_text`, already padded to its width), the speed
    /// (`speed_text`) once there is progress, and the ETA of `eta_secs` seconds
    /// while one can be estimated, each as the style asks.
    #[verifier::rlimit(40)]
    pub fn render(&self, filled: usize, percent_text: &str, speed_text: &str, eta_secs: Option<u64>) -> (r: String)
        requires
            filled <= self.style.bar_width,
            self.style.bar_width + 3 <= usize::MAX,
        ensures
            r@ == (if self.state.message@.len() > 0 { self.state.message@ + "  "@ } else { Seq::empty() })
                + seq![self.style.left_bracket] + bar_body(self.style, self.state.pos, self.state.len, filled as int)
                + seq![self.style.right_bracket]
                + (if self.style.show_percent { " "@ + percent_text@ + "%"@ } else { Seq::empty() })
                + (if self.style.show_speed && self.state.pos > 0 { "  "@ + speed_text@ } else { Seq::empty() })
                + (if self.style.show_eta && self.state.pos != 0 && self.state.pos < self.state.len && eta_secs is Some {
                    "  ETA: "@ + duration_text(eta_secs->0 as nat)
                } else {
                    Seq::empty()
                }),
    {
        let mut out = String::new();
        if !self.state.message.as_str().is_empty() {
            out.append(self.state.message.as_str());
            out.append("  ");
        }
        let bar = self.render_bar(filled);
        out.append(bar.as_str());
        if self.style.show_percent {
            out.append(" ");
            out.append(percent_text);
            out.append("%");
        }
        if self.style.show_speed && self.state.pos > 0 {
            out.append("  ");
            out.append(speed_text);
        }
        if self.style.show_eta && self.state.eta_known() {
            if let Some(secs) = eta_secs {
                out.append("  ETA: ");
                let d = format_duration(secs);
                out.append(d.as_str());
            }
        }
        out
    }
}

/// Appends `n` copies of `c`.
fn push_repeat(s: &mut String, c: char, n: usize)
    ensures
        final(s)@ == old(s)@ + repeat(c, n as int),
{
    let mut i: usize = 0;
    while i < n
        invariant
            i <= n,
            s@ == old(s)@ + repeat(c, i as int),
        decreases n - i,
    {
        push_char(s, c);
        assert(old(s)@ + repeat(c, i as int + 1) =~= old(s)@ + repeat(c, i as int) + seq![c]);
        i = i + 1;
    }
}

} // verus!
