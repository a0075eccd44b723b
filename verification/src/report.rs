//! The summary of a run's durations as lines of text.

use vstd::prelude::*;
use vstd::string::*;
use crate::timings::{mean, FibonacciTimings};

verus! {

/// `String::push`: the text with one more character at its end.
#[verifier::external_body]
fn push_char(text: &mut String, c: char)
    ensures
        final(text)@ == old(text)@.push(c),
{
    text.push(c)
}

/// The character of a decimal digit.
pub open spec fn digit(d: nat) -> char
    recommends
        d < 10,
{
    (('0' as u8 + d) as u8) as char
}

/// A number in decimal, without leading zeros.
pub open spec fn decimal(n: nat) -> Seq<char>
    decreases n,
{
    if n < 10 {
        seq![digit(n)]
    } else {
        decimal(n / 10).push(digit(n % 10))
    }
}

/// A duration in hundredths of a millisecond, rounded to the nearest, a
/// half upwards.
pub open spec fn hundredths(nanos: u64) -> nat {
    ((nanos + 5_000) / 10_000) as nat
}

/// A duration in milliseconds with two decimals.
pub open spec fn millis(nanos: u64) -> Seq<char> {
    decimal(hundredths(nanos) / 100).push('.').push(digit(hundredths(nanos) / 10 % 10)).push(
        digit(hundredths(nanos) % 10),
    )
}

/// A row of the table of phases: how it begins, which names the phase, then
/// the duration.
pub open spec fn phase_row(label: Seq<char>, nanos: u64) -> Seq<char> {
    label + millis(nanos) + " ms    |"@
}

/// The row of a phase where it has a duration, and no row where it has none.
pub open spec fn optional_row(label: Seq<char>, duration: Option<u64>) -> Seq<Seq<char>> {
    match duration {
        Some(nanos) => seq![phase_row(label, nanos)],
        None => Seq::empty(),
    }
}

/// The rows of the phases that have a duration, in the order of a run.
pub open spec fn phase_rows(timings: FibonacciTimings) -> Seq<Seq<char>> {
    optional_row("| Key Generation      | "@, timings.key_generation) + optional_row(
        "| Server Key Setup    | "@,
        timings.server_key_setup,
    ) + optional_row("| Initial Encryption  | "@, timings.encryption) + optional_row(
        "| FHE Computation     | "@,
        timings.computation,
    ) + optional_row("| Decryption          | "@, timings.decryption)
}

/// The row of a step: the `i`-th step computes the term after the two seeds
/// and the `i` terms before it.
pub open spec fn step_row(i: nat, nanos: u64) -> Seq<char> {
    "| F("@ + decimal(i + 2) + ")  | "@ + millis(nanos) + " ms    |"@
}

/// The rows of the steps in their order.
pub open spec fn step_rows(steps: Seq<u64>) -> Seq<Seq<char>> {
    Seq::new(steps.len(), |i: int| step_row(i as nat, steps[i]))
}

/// The table of the steps with the mean of their durations below it, and
/// nothing at all where there was no step.
pub open spec fn step_details(steps: Seq<u64>) -> Seq<Seq<char>> {
    match mean(steps) {
        Some(average) => seq![
            ""@,
            "=== Computation Step Details ==="@,
            "| Step | Time (ms)     |"@,
            "|------|---------------|"@,
        ] + step_rows(steps) + seq![
            ""@,
            "Average time per computation step: "@ + millis(average) + " ms"@,
        ],
        None => Seq::empty(),
    }
}

/// The whole summary: the heading, the description of the parameters, the
/// table of the phases and the details of the steps.
pub open spec fn summary(description: Seq<char>, timings: FibonacciTimings) -> Seq<Seq<char>> {
    seq![
        ""@,
        "=== TFHE Timing Summary ==="@,
        "Configuration: "@ + description,
        "| Phase                | Time (ms)     |"@,
        "|----------------------|---------------|"@,
    ] + phase_rows(timings) + step_details(timings.computation_steps@)
}

/// What each of a sequence of lines holds.
pub open spec fn texts(lines: Seq<String>) -> Seq<Seq<char>> {
    Seq::new(lines.len(), |i: int| lines[i]@)
}

/// Writes a number in decimal at the end of a text.
pub fn push_decimal(text: &mut String, n: u128)
    ensures
        final(text)@ == old(text)@ + decimal(n as nat),
    decreases n,
{
    if n >= 10 {
        push_decimal(text, n / 10);
    }
    let last: u8 = (n % 10) as u8;
    push_char(text, ('0' as u8 + last) as char);
    assert(final(text)@ =~= old(text)@ + decimal(n as nat));
}

/// Writes a duration in milliseconds with two decimals at the end of a text.
pub fn push_millis(text: &mut String, nanos: u64)
    ensures
        final(text)@ == old(text)@ + millis(nanos),
{
    let rounded: u64 = nanos / 10_000 + (if nanos % 10_000 >= 5_000 {
        1u64
    } else {
        0u64
    });
    assert(rounded == hundredths(nanos));
    push_decimal(text, (rounded / 100) as u128);
    push_char(text, '.');
    let tenths: u8 = (rounded / 10 % 10) as u8;
    let last: u8 = (rounded % 10) as u8;
    push_char(text, ('0' as u8 + tenths) as char);
    push_char(text, ('0' as u8 + last) as char);
    assert(final(text)@ =~= old(text)@ + millis(nanos));
}

/// Puts a line at the end of the lines.
fn push_row(lines: &mut Vec<String>, row: String)
    ensures
        texts(final(lines)@) == texts(old(lines)@).push(row@),
{
    lines.push(row);
    assert(texts(final(lines)@) =~= texts(old(lines)@).push(row@));
}

/// Puts a line of the given text at the end of the lines.
fn push_line(lines: &mut Vec<String>, text: &str)
    ensures
        texts(final(lines)@) == texts(old(lines)@).push(text@),
{
    push_row(lines, String::from_str(text));
}

/// Puts the row of a phase at the end of the lines where the phase has a
/// duration.
fn push_phase(lines: &mut Vec<String>, label: &str, duration: Option<u64>)
    ensures
        texts(final(lines)@) == texts(old(lines)@) + optional_row(label@, duration),
{
    match duration {
        Some(nanos) => {
            let mut row = String::from_str(label);
            push_millis(&mut row, nanos);
            row.append(" ms    |");
            assert(row@ =~= phase_row(label@, nanos));
            push_row(lines, row);
            assert(texts(final(lines)@) =~= texts(old(lines)@) + optional_row(label@, duration));
        },
        None => {
            assert(texts(final(lines)@) =~= texts(old(lines)@) + optional_row(label@, duration));
        },
    }
}

/// Puts the rows of the phases that have a duration at the end of the lines.
fn push_phases(lines: &mut Vec<String>, timings: &FibonacciTimings)
    ensures
        texts(final(lines)@) == texts(old(lines)@) + phase_rows(*timings),
{
    push_phase(lines, "| Key Generation      | ", timings.key_generation);
    push_phase(lines, "| Server Key Setup    | ", timings.server_key_setup);
    push_phase(lines, "| Initial Encryption  | ", timings.encryption);
    push_phase(lines, "| FHE Computation     | ", timings.computation);
    push_phase(lines, "| Decryption          | ", timings.decryption);
    assert(texts(final(lines)@) =~= texts(old(lines)@) + phase_rows(*timings));
}

/// Puts the rows of the steps at the end of the lines.
fn push_steps(lines: &mut Vec<String>, steps: &Vec<u64>)
    ensures
        texts(final(lines)@) == texts(old(lines)@) + step_rows(steps@),
{
    let count: usize = steps.len();
    let mut i: usize = 0;
    assert(texts(lines@) =~= texts(old(lines)@) + step_rows(steps@.take(0)));
    while i < count
        invariant
            count == steps.len(),
            i <= count,
            texts(lines@) == texts(old(lines)@) + step_rows(steps@.take(i as int)),
        decreases count - i,
    {
        let mut row = String::from_str("| F(");
        push_decimal(&mut row, i as u128 + 2);
        row.append(")  | ");
        push_millis(&mut row, steps[i]);
        row.append(" ms    |");
        assert(row@ =~= step_row(i as nat, steps@[i as int]));
        push_row(lines, row);
        assert(step_rows(steps@.take(i + 1)) =~= step_rows(steps@.take(i as int)).push(
            step_row(i as nat, steps@[i as int]),
        ));
        assert(texts(lines@) =~= texts(old(lines)@) + step_rows(steps@.take(i + 1)));
        i = i + 1;
    }
    assert(steps@.take(count as int) =~= steps@);
}

/// Puts the table of the steps and their mean at the end of the lines where
/// there was a step.
fn push_step_details(lines: &mut Vec<String>, timings: &FibonacciTimings)
    ensures
        texts(final(lines)@) == texts(old(lines)@) + step_details(timings.computation_steps@),
{
    match timings.mean_step() {
        Some(average) => {
            push_line(lines, "");
            push_line(lines, "=== Computation Step Details ===");
            push_line(lines, "| Step | Time (ms)     |");
            push_line(lines, "|------|---------------|");
            let ghost heading = texts(lines@);
            push_steps(lines, &timings.computation_steps);
            let mut closing = String::from_str("Average time per computation step: ");
            push_millis(&mut closing, average);
            closing.append(" ms");
            assert(closing@ =~= "Average time per computation step: "@ + millis(average)
                + " ms"@);
            push_line(lines, "");
            push_row(lines, closing);
            assert(texts(final(lines)@) =~= texts(old(lines)@) + step_details(
                timings.computation_steps@,
            ));
        },
        None => {
            assert(texts(final(lines)@) =~= texts(old(lines)@) + step_details(
                timings.computation_steps@,
            ));
        },
    }
}

/// The summary of a run's durations, line by line.
pub fn timing_summary(description: &str, timings: &FibonacciTimings) -> (lines: Vec<String>)
    ensures
        texts(lines@) == summary(description@, *timings),
{
    let mut lines: Vec<String> = Vec::new();
    assert(texts(lines@) =~= Seq::<Seq<char>>::empty());
    push_line(&mut lines, "");
    push_line(&mut lines, "=== TFHE Timing Summary ===");
    let mut configuration = String::from_str("Configuration: ");
    configuration.append(description);
    push_row(&mut lines, configuration);
    push_line(&mut lines, "| Phase                | Time (ms)     |");
    push_line(&mut lines, "|----------------------|---------------|");
    assert(texts(lines@) =~= seq![
        ""@,
        "=== TFHE Timing Summary ==="@,
        "Configuration: "@ + description@,
        "| Phase                | Time (ms)     |"@,
        "|----------------------|---------------|"@,
    ]);
    push_phases(&mut lines, timings);
    push_step_details(&mut lines, timings);
    lines
}

} // verus!
