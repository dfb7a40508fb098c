//! Status command: health and model states, and the formatting helpers of
//! the status report.

use vstd::prelude::*;
use vstd::string::*;
use crate::cli::ipc_client::CliError;
use crate::text::{concat2, decimal, push_decimal, same_text};

verus! {

/// Health state enumeration.
#[derive(Debug, Clone, Copy, PartialEq, Eq, Structural)]
pub enum HealthState {
    Healthy,
    Degraded,
    Unhealthy,
}

impl HealthState {
    /// The name the state displays.
    pub open spec fn spec_name(&self) -> Seq<char> {
        match self {
            HealthState::Healthy => "healthy"@,
            HealthState::Degraded => "degraded"@,
            HealthState::Unhealthy => "unhealthy"@,
        }
    }

    /// The name the state displays.
    pub fn to_display_string(&self) -> (r: String)
        ensures
            r@ == self.spec_name(),
    {
        match self {
            HealthState::Healthy => "healthy".to_owned(),
            HealthState::Degraded => "degraded".to_owned(),
            HealthState::Unhealthy => "unhealthy".to_owned(),
        }
    }

    /// The state reported for a health response: healthy when the runtime
    /// answered `ok`, unhealthy otherwise.
    pub fn from_health_ok(ok: bool) -> (r: HealthState)
        ensures
            r == (if ok { HealthState::Healthy } else { HealthState::Unhealthy }),
    {
        if ok {
            HealthState::Healthy
        } else {
            HealthState::Unhealthy
        }
    }
}

/// Version information.
#[derive(Debug, Clone)]
pub struct VersionInfo {
    pub version: String,
    pub commit: String,
    pub build_date: String,
    pub rust_version: String,
}

/// Model loading state.
#[derive(Debug, Clone, Copy, PartialEq, Eq, Structural)]
pub enum ModelState {
    Loading,
    Ready,
    Unloading,
    Error,
}

impl ModelState {
    /// The name the state displays.
    pub open spec fn spec_name(&self) -> Seq<char> {
        match self {
            ModelState::Loading => "loading"@,
            ModelState::Ready => "ready"@,
            ModelState::Unloading => "unloading"@,
            ModelState::Error => "error"@,
        }
    }

    /// The name the state displays.
    pub fn to_display_string(&self) -> (r: String)
        ensures
            r@ == self.spec_name(),
    {
        match self {
            ModelState::Loading => "loading".to_owned(),
            ModelState::Ready => "ready".to_owned(),
            ModelState::Unloading => "unloading".to_owned(),
            ModelState::Error => "error".to_owned(),
        }
    }

    /// The state a runtime's state name stands for; an unknown name counts
    /// as ready.
    pub open spec fn spec_from_name(name: Seq<char>) -> ModelState {
        if name == "loading"@ {
            ModelState::Loading
        } else if name == "ready"@ {
            ModelState::Ready
        } else if name == "unloading"@ {
            ModelState::Unloading
        } else if name == "error"@ {
            ModelState::Error
        } else {
            ModelState::Ready
        }
    }

    /// The state a runtime's state name stands for; an unknown name counts
    /// as ready.
    pub fn from_name(name: &str) -> (r: ModelState)
        ensures
            r == Self::spec_from_name(name@),
    {
        if same_text(name, "loading") {
            ModelState::Loading
        } else if same_text(name, "ready") {
            ModelState::Ready
        } else if same_text(name, "unloading") {
            ModelState::Unloading
        } else if same_text(name, "error") {
            ModelState::Error
        } else {
            ModelState::Ready
        }
    }
}

/// Reading back a displayed state name gives the state again.
pub proof fn lemma_model_state_name_roundtrip(s: ModelState)
    ensures
        ModelState::spec_from_name(s.spec_name()) == s,
{
    reveal_strlit("loading");
    reveal_strlit("ready");
    reveal_strlit("unloading");
    reveal_strlit("error");
    assert("loading"@ != "ready"@ && "loading"@ != "unloading"@ && "loading"@ != "error"@) by {
        assert("loading"@[0] != "ready"@[0]);
        assert("loading"@[0] != "unloading"@[0]);
        assert("loading"@[0] != "error"@[0]);
    }
    assert("ready"@ != "unloading"@ && "ready"@ != "error"@) by {
        assert("ready"@[0] != "unloading"@[0]);
        assert("ready"@[0] != "error"@[0]);
    }
    assert("unloading"@ != "error"@) by {
        assert("unloading"@[0] != "error"@[0]);
    }
}

/// Event record.
#[derive(Debug, Clone)]
pub struct Event {
    pub timestamp: String,
    pub event_type: String,
    pub message: String,
    pub severity: EventSeverity,
}

/// Event severity.
#[derive(Debug, Clone, Copy, PartialEq, Eq, Structural)]
pub enum EventSeverity {
    Info,
    Warning,
    Error,
}

/// Exit code of the status command when fetching the status failed: 3 when
/// the runtime could not be reached in time, 1 otherwise.
pub fn status_exit_code(err: &CliError) -> (r: i32)
    ensures
        r == (if err is ConnectionFailed || err is Timeout { 3i32 } else { 1i32 }),
{
    match err {
        CliError::ConnectionFailed(_) => 3,
        CliError::Timeout => 3,
        CliError::Protocol(_) => 1,
        _ => 1,
    }
}

/// Uptime used for rates: the reported uptime, 1 second when none was
/// reported, and never less than 1 second.
pub fn effective_uptime(reported: Option<u64>) -> (r: u64)
    ensures
        r == (match reported {
            Some(u) => if u >= 1 { u } else { 1 },
            None => 1,
        }),
        r >= 1,
{
    match reported {
        Some(u) => if u >= 1 { u } else { 1 },
        None => 1,
    }
}

/// Uptime in days, hours and minutes: `"{d}d {h}h {m}m"` from one day on,
/// `"{h}h {m}m"` from one hour on, `"{m}m"` below.
pub open spec fn spec_format_uptime(secs: nat) -> Seq<char> {
    let days = secs / 86400;
    let hours = (secs % 86400) / 3600;
    let minutes = (secs % 3600) / 60;
    if days > 0 {
        decimal(days) + "d "@ + decimal(hours) + "h "@ + decimal(minutes) + "m"@
    } else if hours > 0 {
        decimal(hours) + "h "@ + decimal(minutes) + "m"@
    } else {
        decimal(minutes) + "m"@
    }
}

/// Format uptime in human-readable form.
pub fn format_uptime(secs: u64) -> (r: String)
    ensures
        r@ == spec_format_uptime(secs as nat),
{
    let days = secs / 86400;
    let hours = (secs % 86400) / 3600;
    let minutes = (secs % 3600) / 60;
    let mut r = String::new();
    if days > 0 {
        push_decimal(&mut r, days);
        r.append("d ");
        push_decimal(&mut r, hours);
        r.append("h ");
        push_decimal(&mut r, minutes);
        r.append("m");
    } else if hours > 0 {
        push_decimal(&mut r, hours);
        r.append("h ");
        push_decimal(&mut r, minutes);
        r.append("m");
    } else {
        push_decimal(&mut r, minutes);
        r.append("m");
    }
    assert(r@ =~= spec_format_uptime(secs as nat));
    r
}

/// Number of bytes kept before the ellipsis when a text of more than
/// `max_len` bytes is truncated.
pub open spec fn kept_bytes(max_len: usize) -> int {
    if max_len >= 3 { max_len - 3 } else { 0 }
}

/// Truncate a string to a maximum length: a text longer than `max_len`
/// bytes keeps its first `max_len - 3` bytes (none when `max_len < 3`),
/// followed by `...`. The cut must fall between characters.
pub fn truncate(s: &str, max_len: usize) -> (r: String)
    requires
        s.spec_bytes().len() > max_len ==> vstd::utf8::is_char_boundary(
            s.spec_bytes(),
            kept_bytes(max_len),
        ),
    ensures
        s.spec_bytes().len() <= max_len ==> r@ == s@,
        s.spec_bytes().len() > max_len ==> r@ == vstd::utf8::decode_utf8(
            s.spec_bytes().subrange(0, kept_bytes(max_len)),
        ) + "..."@,
{
    if s.as_bytes().len() <= max_len {
        s.to_owned()
    } else {
        let keep: usize = if max_len >= 3 { max_len - 3 } else { 0 };
        let (head, _) = s.split_at(keep);
        proof {
            vstd::utf8::encode_utf8_decode_utf8(head@);
            assert(head.spec_bytes() == s.spec_bytes().subrange(0, kept_bytes(max_len)));
            assert(head@ == vstd::utf8::decode_utf8(s.spec_bytes().subrange(0, kept_bytes(max_len))));
        }
        let r = concat2(head, "...");
        assert(r@ == head@ + "..."@);
        assert(s.spec_bytes().len() > max_len);
        r
    }
}

/// Number of binary digits of `n` (0 for 0).
pub open spec fn bit_len(n: nat) -> nat
    decreases n,
{
    if n == 0 {
        0
    } else {
        1 + bit_len(n / 2)
    }
}

/// `2` to the power `e`.
pub open spec fn pow2(e: nat) -> nat
    decreases e,
{
    if e == 0 {
        1
    } else {
        2 * pow2((e - 1) as nat)
    }
}

/// `n / d` rounded to the nearest whole number, ties to the even one.
pub open spec fn round_half_even(n: nat, d: nat) -> nat {
    let q = n / d;
    let rem = n % d;
    if 2 * rem > d || (2 * rem == d && q % 2 == 1) {
        q + 1
    } else {
        q
    }
}

/// The value a count of bytes takes as a 64-bit float: exact up to 53
/// binary digits, otherwise rounded to 53 significant digits, ties to even.
pub open spec fn float_value(n: nat) -> nat {
    if bit_len(n) <= 53 {
        n
    } else {
        let d = pow2((bit_len(n) - 53) as nat);
        round_half_even(n, d) * d
    }
}

/// Tenths of `bytes / 2^unit_exp`, rounded ties to even (how a float
/// quotient prints with one decimal).
pub open spec fn tenths(bytes: nat, unit_exp: nat) -> nat {
    round_half_even(10 * float_value(bytes), pow2(unit_exp))
}

/// A number of tenths written with one decimal.
pub open spec fn one_decimal(t: nat) -> Seq<char> {
    decimal(t / 10) + "."@ + decimal(t % 10)
}

/// Bytes in human-readable form: GB, MB or KB (powers of 1024) with one
/// decimal from 1 KB on, plain bytes below.
pub open spec fn spec_format_bytes(b: nat) -> Seq<char> {
    if b >= pow2(30) {
        one_decimal(tenths(b, 30)) + " GB"@
    } else if b >= pow2(20) {
        one_decimal(tenths(b, 20)) + " MB"@
    } else if b >= pow2(10) {
        one_decimal(tenths(b, 10)) + " KB"@
    } else {
        decimal(b) + " B"@
    }
}

proof fn lemma_pow2_facts(e: nat)
    ensures
        pow2(e) >= 1,
        pow2(e + 1) == 2 * pow2(e),
    decreases e,
{
    if e > 0 {
        lemma_pow2_facts((e - 1) as nat);
    }
}

proof fn lemma_pow2_mono(a: nat, b: nat)
    requires
        a <= b,
    ensures
        pow2(a) <= pow2(b),
    decreases b,
{
    lemma_pow2_facts(b);
    if a < b {
        lemma_pow2_mono(a, (b - 1) as nat);
        lemma_pow2_facts((b - 1) as nat);
    }
}

/// `n` has at most `bit_len(n)` binary digits: `n < 2^bit_len(n)`, and
/// `2^(bit_len(n) - 1) <= n` for positive `n`.
proof fn lemma_bit_len_bounds(n: nat)
    ensures
        n < pow2(bit_len(n)),
        n > 0 ==> pow2((bit_len(n) - 1) as nat) <= n,
    decreases n,
{
    if n > 0 {
        lemma_bit_len_bounds(n / 2);
        lemma_pow2_facts(bit_len(n / 2));
        if n / 2 > 0 {
            lemma_pow2_facts((bit_len(n / 2) - 1) as nat);
        }
    }
}

/// `2^64`.
proof fn lemma_pow2_64()
    ensures
        pow2(64) == 0x1_0000_0000_0000_0000,
{
    reveal_with_fuel(pow2, 65);
}

/// `2^e` as a 128-bit number, for `e <= 64`.
fn pow2_u128(e: u32) -> (r: u128)
    requires
        e <= 64,
    ensures
        r == pow2(e as nat),
{
    let mut r: u128 = 1;
    let mut i: u32 = 0;
    while i < e
        invariant
            i <= e,
            e <= 64,
            r == pow2(i as nat),
        decreases e - i,
    {
        proof {
            lemma_pow2_facts(i as nat);
            lemma_pow2_mono((i + 1) as nat, 64);
            lemma_pow2_64();
        }
        r = r * 2;
        i = i + 1;
    }
    r
}

/// A number below `2^k` has at most `k` binary digits.
proof fn lemma_bit_len_le(n: nat, k: nat)
    requires
        n < pow2(k),
    ensures
        bit_len(n) <= k,
    decreases k,
{
    if n > 0 {
        if k == 0 {
            assert(pow2(0) == 1);
        } else {
            lemma_pow2_facts((k - 1) as nat);
            assert(n / 2 < pow2((k - 1) as nat));
            lemma_bit_len_le(n / 2, (k - 1) as nat);
        }
    }
}

/// `n / d` rounded to the nearest whole number, ties to even.
fn round_half_even_u128(n: u128, d: u128) -> (r: u128)
    requires
        d > 0,
        n / d < u128::MAX,
    ensures
        r == round_half_even(n as nat, d as nat),
{
    let q = n / d;
    let rem = n % d;
    if rem > d - rem || (rem == d - rem && q % 2 == 1) {
        q + 1
    } else {
        q
    }
}

/// The value of `bytes` as a 64-bit float.
fn float_value_u128(bytes: u64) -> (r: u128)
    ensures
        r == float_value(bytes as nat),
        r <= 0x1_0000_0000_0000_0000,
{
    let mut len: u32 = 0;
    let mut m: u64 = bytes;
    proof {
        lemma_pow2_64();
        lemma_bit_len_le(bytes as nat, 64);
    }
    while m > 0
        invariant
            len <= 64,
            len + bit_len(m as nat) == bit_len(bytes as nat),
            bit_len(m as nat) <= 64 - len,
        decreases m,
    {
        proof {
            assert(bit_len(m as nat) == 1 + bit_len((m / 2) as nat));
        }
        m = m / 2;
        len = len + 1;
    }
    proof {
        lemma_bit_len_bounds(bytes as nat);
    }
    if len <= 53 {
        return bytes as u128;
    }
    let d = pow2_u128(len - 53);
    proof {
        lemma_pow2_facts((len - 53) as nat);
        lemma_pow2_mono((len - 53) as nat, 11);
        assert(pow2(11) == 2048) by {
            reveal_with_fuel(pow2, 12);
        }
    }
    let q = round_half_even_u128(bytes as u128, d);
    proof {
        lemma_pow2_facts((len - 53) as nat);
        lemma_pow2_64();
        lemma_pow2_mono(len as nat, 64);
        assert(pow2(len as nat) == pow2(53) * pow2((len - 53) as nat)) by {
            lemma_pow2_split(53, (len - 53) as nat);
        }
        assert(pow2(53) == 0x20_0000_0000_0000) by {
            reveal_with_fuel(pow2, 54);
        }
        assert((bytes as nat) < pow2(len as nat));
        assert(q <= pow2(53)) by (nonlinear_arith)
            requires
                q == round_half_even(bytes as nat, d as nat),
                (bytes as nat) < pow2(53) * (d as nat),
                d > 0,
        ;
        assert(q * d <= pow2(53) * pow2((len - 53) as nat)) by (nonlinear_arith)
            requires
                q <= pow2(53),
                d == pow2((len - 53) as nat),
        ;
    }
    q * d
}

proof fn lemma_pow2_split(a: nat, b: nat)
    ensures
        pow2(a + b) == pow2(a) * pow2(b),
    decreases a,
{
    if a > 0 {
        let a1 = (a - 1) as nat;
        lemma_pow2_split(a1, b);
        lemma_pow2_facts(a1 + b);
        lemma_pow2_facts(a1);
        assert(a1 + b + 1 == a + b);
        assert(a1 + 1 == a);
        let x = pow2(a1);
        let y = pow2(b);
        assert(2 * (x * y) == (2 * x) * y) by (nonlinear_arith);
        assert(pow2(a) == 2 * x);
        assert(pow2(a + b) == 2 * pow2(a1 + b));
        assert(pow2(a1 + b) == x * y);
    } else {
        assert(pow2(0) == 1);
        assert(a + b == b);
    }
}

/// Appends `t` tenths with one decimal.
fn push_one_decimal(s: &mut String, t: u128)
    requires
        t / 10 <= u64::MAX,
    ensures
        final(s)@ == old(s)@ + one_decimal(t as nat),
{
    push_decimal(s, (t / 10) as u64);
    s.append(".");
    push_decimal(s, (t % 10) as u64);
}

/// Format bytes in human-readable form (see [`spec_format_bytes`]).
pub fn format_bytes(bytes: u64) -> (r: String)
    ensures
        r@ == spec_format_bytes(bytes as nat),
{
    proof {
        assert(pow2(10) == 1024) by {
            reveal_with_fuel(pow2, 11);
        }
        assert(pow2(20) == 1048576) by {
            reveal_with_fuel(pow2, 21);
        }
        assert(pow2(30) == 1073741824) by {
            reveal_with_fuel(pow2, 31);
        }
    }
    let mut r = String::new();
    if bytes < 1024 {
        push_decimal(&mut r, bytes);
        r.append(" B");
        return r;
    }
    let f = float_value_u128(bytes);
    let (exp, unit): (u32, &str) = if bytes >= 1073741824 {
        (30, " GB")
    } else if bytes >= 1048576 {
        (20, " MB")
    } else {
        (10, " KB")
    };
    let d = pow2_u128(exp);
    proof {
        lemma_pow2_facts(exp as nat);
        assert((10 * f) as nat / (d as nat) <= (10 * f) as nat) by (nonlinear_arith)
            requires
                d >= 1,
        ;
    }
    let t = round_half_even_u128(10 * f, d);
    proof {
        lemma_pow2_mono(10, exp as nat);
        assert(t as nat <= (10 * f) as nat / (d as nat) + 1);
        assert(t / 10 <= u64::MAX) by (nonlinear_arith)
            requires
                t as nat <= (10 * f) as nat / (d as nat) + 1,
                f <= 0x1_0000_0000_0000_0000,
                d >= 1024,
        ;
    }
    push_one_decimal(&mut r, t);
    r.append(unit);
    r
}

} // verus!
