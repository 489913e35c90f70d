//! What the screen shows: the `mm:ss` clock face, the status line and the
//! buttons, and the name of the recording that announces a number.
use vstd::prelude::*;

use crate::timer::TimerState;

verus! {

/// The ten decimal digits.
pub open spec fn digit_chars() -> Seq<char> {
    seq!['0', '1', '2', '3', '4', '5', '6', '7', '8', '9']
}

/// The decimal writing of `n`, without leading zeros.
pub open spec fn decimal(n: nat) -> Seq<char>
    decreases n,
{
    if n < 10 {
        seq![digit_chars()[n as int]]
    } else {
        decimal(n / 10).push(digit_chars()[(n % 10) as int])
    }
}

/// The decimal writing of `n` on at least two digits (`{:02}`).
pub open spec fn two_digits(n: nat) -> Seq<char> {
    if n < 10 {
        seq!['0'] + decimal(n)
    } else {
        decimal(n)
    }
}

/// The clock face for `secs` seconds: minutes and seconds, each on at least
/// two digits, separated by a colon.
pub open spec fn clock_face(secs: nat) -> Seq<char> {
    two_digits(secs / 60) + seq![':'] + two_digits(secs % 60)
}

/// The status line for each state.
pub open spec fn status_text(s: TimerState) -> Seq<char> {
    match s {
        TimerState::Running => "⏲ EN COURS"@,
        TimerState::Paused => "⏸ EN PAUSE"@,
        TimerState::Stopped => "⏹ ARRÊTÉ"@,
        TimerState::OnBreak => "☕ PAUSE"@,
    }
}

/// The file name of the recording that announces `n`.
pub open spec fn number_clip(n: nat) -> Seq<char> {
    decimal(n) + ".wav"@
}

/// The number a digit stands for.
pub open spec fn digit_value(c: char) -> nat {
    if c == '1' {
        1
    } else if c == '2' {
        2
    } else if c == '3' {
        3
    } else if c == '4' {
        4
    } else if c == '5' {
        5
    } else if c == '6' {
        6
    } else if c == '7' {
        7
    } else if c == '8' {
        8
    } else if c == '9' {
        9
    } else {
        0
    }
}

/// The number that a string of digits stands for.
pub open spec fn digits_value(s: Seq<char>) -> nat
    decreases s.len(),
{
    if s.len() == 0 {
        0
    } else {
        digits_value(s.drop_last()) * 10 + digit_value(s.last())
    }
}

proof fn lemma_digit_char_value(d: nat)
    requires
        d < 10,
    ensures
        digit_value(digit_chars()[d as int]) == d,
{
    assert(d == 0 || d == 1 || d == 2 || d == 3 || d == 4 || d == 5 || d == 6 || d == 7 || d == 8 || d == 9);
}

/// Reading back the decimal writing of `n` gives `n`.
pub proof fn lemma_decimal_reads_back(n: nat)
    ensures
        digits_value(decimal(n)) == n,
        decimal(n).len() >= 1,
        n >= 10 ==> decimal(n).len() >= 2,
        n < 100 ==> decimal(n).len() <= 2,
    decreases n,
{
    if n < 10 {
        lemma_digit_char_value(n);
        assert(decimal(n).drop_last() =~= Seq::<char>::empty());
        assert(digits_value(Seq::<char>::empty()) == 0);
        assert(decimal(n).last() == digit_chars()[n as int]);
    } else {
        lemma_decimal_reads_back(n / 10);
        lemma_digit_char_value(n % 10);
        let s = decimal(n / 10);
        assert(decimal(n).drop_last() =~= s);
        assert(decimal(n).last() == digit_chars()[(n % 10) as int]);
        assert(digits_value(decimal(n)) == digits_value(s) * 10 + digit_value(digit_chars()[(n % 10) as int]));
        assert((n / 10) * 10 + n % 10 == n) by (nonlinear_arith);
        if n < 100 {
            assert(n / 10 < 10);
        }
    }
}

/// Reading back a two-digit field gives its number.
pub proof fn lemma_two_digits_reads_back(n: nat)
    requires
        n < 100,
    ensures
        two_digits(n).len() == 2,
        digits_value(two_digits(n)) == n,
{
    lemma_decimal_reads_back(n);
    if n < 10 {
        let s = two_digits(n);
        assert(s =~= seq!['0', digit_chars()[n as int]]);
        assert(s.drop_last() =~= seq!['0']);
        assert(seq!['0'].drop_last() =~= Seq::<char>::empty());
        assert(digits_value(Seq::<char>::empty()) == 0);
        assert(digits_value(seq!['0']) == 0);
        lemma_digit_char_value(n);
    }
}

/// Below 100 minutes the clock face reads `mm:ss`: two digits of minutes, a
/// colon and two digits of seconds, which together give back the time.
pub proof fn lemma_clock_face_reads_back(secs: nat)
    requires
        secs < 6000,
    ensures
        clock_face(secs).len() == 5,
        clock_face(secs)[2] == ':',
        digits_value(clock_face(secs).subrange(3, 5)) < 60,
        digits_value(clock_face(secs).subrange(0, 2)) * 60 + digits_value(clock_face(secs).subrange(3, 5))
            == secs,
{
    let m = secs / 60;
    let r = secs % 60;
    assert(m < 100);
    lemma_two_digits_reads_back(m);
    lemma_two_digits_reads_back(r);
    let f = clock_face(secs);
    assert(f.subrange(0, 2) =~= two_digits(m));
    assert(f.subrange(3, 5) =~= two_digits(r));
    assert(m * 60 + r == secs);
}

/// The one-character text of digit `d`.
fn digit_str(d: u32) -> (s: &'static str)
    requires
        d < 10,
    ensures
        s@ == seq![digit_chars()[d as int]],
{
    proof {
        reveal_strlit("0");
        reveal_strlit("1");
        reveal_strlit("2");
        reveal_strlit("3");
        reveal_strlit("4");
        reveal_strlit("5");
        reveal_strlit("6");
        reveal_strlit("7");
        reveal_strlit("8");
        reveal_strlit("9");
    }
    let s = if d == 0 {
        "0"
    } else if d == 1 {
        "1"
    } else if d == 2 {
        "2"
    } else if d == 3 {
        "3"
    } else if d == 4 {
        "4"
    } else if d == 5 {
        "5"
    } else if d == 6 {
        "6"
    } else if d == 7 {
        "7"
    } else if d == 8 {
        "8"
    } else {
        "9"
    };
    assert(s@ =~= seq![digit_chars()[d as int]]);
    s
}

/// Appends the decimal writing of `n` to `out`.
fn push_decimal(out: &mut String, n: u32)
    ensures
        final(out)@ == old(out)@ + decimal(n as nat),
    decreases n,
{
    if n >= 10 {
        push_decimal(out, n / 10);
    }
    let d = digit_str(n % 10);
    out.append(d);
    proof {
        if n >= 10 {
            assert(old(out)@ + decimal((n / 10) as nat) + d@ =~= old(out)@ + decimal(n as nat));
        } else {
            assert(old(out)@ + d@ =~= old(out)@ + decimal(n as nat));
        }
    }
}

/// Appends `n` on at least two digits to `out`.
fn push_two_digits(out: &mut String, n: u32)
    ensures
        final(out)@ == old(out)@ + two_digits(n as nat),
{
    proof {
        reveal_strlit("0");
    }
    if n < 10 {
        out.append("0");
    }
    push_decimal(out, n);
    proof {
        if n < 10 {
            assert(old(out)@ + seq!['0'] + decimal(n as nat) =~= old(out)@ + two_digits(n as nat));
        }
    }
}

/// The clock face for `secs` seconds, as `format!("{:02}:{:02}", secs / 60, secs % 60)`.
pub fn clock_text(secs: u32) -> (s: String)
    ensures
        s@ == clock_face(secs as nat),
{
    proof {
        reveal_strlit(":");
    }
    let mut s = String::new();
    push_two_digits(&mut s, secs / 60);
    s.append(":");
    push_two_digits(&mut s, secs % 60);
    assert(s@ =~= clock_face(secs as nat));
    s
}

/// The status line shown above the clock face.
pub fn status_label(state: TimerState) -> (s: &'static str)
    ensures
        s@ == status_text(state),
{
    match state {
        TimerState::Running => "⏲ EN COURS",
        TimerState::Paused => "⏸ EN PAUSE",
        TimerState::Stopped => "⏹ ARRÊTÉ",
        TimerState::OnBreak => "☕ PAUSE",
    }
}

/// The text of the start/pause button.
pub fn toggle_label(state: TimerState) -> (s: &'static str)
    ensures
        s@ == (if state == TimerState::Running {
            "⏸ Pause"@
        } else {
            "▶ Démarrer"@
        }),
{
    match state {
        TimerState::Running => "⏸ Pause",
        _ => "▶ Démarrer",
    }
}

/// The style class of the start/pause button.
pub fn toggle_class(state: TimerState) -> (s: &'static str)
    ensures
        s@ == (if state == TimerState::Running {
            "btn btn-yellow"@
        } else {
            "btn btn-green"@
        }),
{
    match state {
        TimerState::Running => "btn btn-yellow",
        _ => "btn btn-green",
    }
}

/// Whether the reset button is greyed out: only when the timer is stopped
/// with zero shown.
pub fn reset_disabled(state: TimerState, shown_time: u32) -> (b: bool)
    ensures
        b == (state == TimerState::Stopped && shown_time == 0),
{
    match state {
        TimerState::Stopped => shown_time == 0,
        _ => false,
    }
}

/// The file name of the recording that announces `n`, as `format!("{}.wav", n)`.
pub fn number_clip_name(n: u32) -> (s: String)
    ensures
        s@ == number_clip(n as nat),
{
    let mut s = String::new();
    push_decimal(&mut s, n);
    s.append(".wav");
    assert(s@ =~= number_clip(n as nat));
    s
}

} // verus!
