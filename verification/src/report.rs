//! Per-file summary blocks and the final report.
//!
//! A probe of one media container yields plain values: the file's display
//! name, the container's raw duration in microseconds, its bit rate, and
//! the rendered rates of the best video and audio streams, when present.
//! This module turns those values into the file's textual block, and joins
//! the blocks of all successfully probed files into the report. Failed
//! probes contribute nothing and never abort the rest.

use vstd::prelude::*;

use crate::bitrate::{bit_rate_chars, format_bit_rate};
use crate::duration::{duration_chars, format_duration};

verus! {

/// The plain values extracted from one successfully opened media
/// container.
pub struct ProbeData {
    /// Display name of the file (its path rendered as text).
    pub file_name: String,
    /// Container duration in microseconds as the container declares it; a
    /// negative count means unknown and degrades to the zero span.
    pub duration_micros: i64,
    /// Container bit rate in bits per second.
    pub bit_rate: i64,
    /// Rendered rate of the best video stream, when the container has one.
    pub video_rate: Option<String>,
    /// Rendered rate of the best audio stream, when the container has one.
    pub audio_rate: Option<String>,
}

/// Whole seconds of the span a raw microsecond count denotes; negative
/// (unknown) counts degrade to zero.
pub open spec fn span_secs(micros: int) -> nat {
    if micros < 0 {
        0
    } else {
        (micros / 1_000_000) as nat
    }
}

/// Subsecond nanoseconds of the span a raw microsecond count denotes.
pub open spec fn span_nanos(micros: int) -> nat {
    if micros < 0 {
        0
    } else {
        ((micros % 1_000_000) * 1_000) as nat
    }
}

/// Converts a container's raw microsecond duration into a span of whole
/// seconds and subsecond nanoseconds, degrading negative counts to zero.
pub fn micros_to_span(micros: i64) -> (r: (u64, u32))
    ensures
        r.0 as nat == span_secs(micros as int),
        r.1 as nat == span_nanos(micros as int),
        r.1 < 1_000_000_000,
{
    if micros < 0 {
        (0, 0)
    } else {
        let m: u64 = micros as u64;
        (m / 1_000_000, ((m % 1_000_000) * 1_000) as u32)
    }
}

/// The fragment describing one best stream: the kind label, the rendered
/// rate, and the unit.
pub open spec fn stream_frag_chars(label: Seq<char>, rate: Seq<char>) -> Seq<char> {
    label + rate + " kb/s"@
}

/// The best-stream fragments of a summary, video before audio, each kind
/// present exactly when the probe found such a stream.
pub open spec fn fragment_seqs(d: ProbeData) -> Seq<Seq<char>> {
    (match d.video_rate {
        Some(r) => seq![stream_frag_chars("Video: "@, r@)],
        None => Seq::<Seq<char>>::empty(),
    }) + (match d.audio_rate {
        Some(r) => seq![stream_frag_chars("Audio: "@, r@)],
        None => Seq::<Seq<char>>::empty(),
    })
}

/// `parts` joined with `sep` between consecutive parts.
pub open spec fn join_chars(parts: Seq<Seq<char>>, sep: Seq<char>) -> Seq<char>
    decreases parts.len(),
{
    if parts.len() == 0 {
        Seq::<char>::empty()
    } else if parts.len() == 1 {
        parts[0]
    } else {
        parts[0] + sep + join_chars(parts.drop_first(), sep)
    }
}

/// Appending one part to a join appends a separator (when anything
/// precedes) and the part.
proof fn lemma_join_push(parts: Seq<Seq<char>>, sep: Seq<char>, x: Seq<char>)
    ensures
        parts.len() == 0 ==> join_chars(parts.push(x), sep) == x,
        parts.len() > 0 ==> join_chars(parts.push(x), sep) == join_chars(parts, sep) + sep + x,
    decreases parts.len(),
{
    if parts.len() == 0 {
        assert(join_chars(parts.push(x), sep) == parts.push(x)[0]);
        assert(parts.push(x)[0] == x);
    } else {
        assert(parts.push(x).drop_first() =~= parts.drop_first().push(x));
        lemma_join_push(parts.drop_first(), sep, x);
        if parts.len() == 1 {
            assert(join_chars(parts.push(x), sep) == parts[0] + sep + x);
        } else {
            assert(join_chars(parts.push(x), sep) =~= join_chars(parts, sep) + sep + x);
        }
    }
}

/// Joins the parts with the separator between consecutive parts.
pub fn join_with(parts: &Vec<String>, sep: &str) -> (r: String)
    ensures
        r@ == join_chars(parts.deep_view(), sep@),
{
    let mut r = String::new();
    let mut i: usize = 0;
    while i < parts.len()
        invariant
            i <= parts@.len(),
            r@ == join_chars(parts.deep_view().take(i as int), sep@),
        decreases parts@.len() - i,
    {
        if i > 0 {
            r.append(sep);
        }
        r.append(parts[i].as_str());
        proof {
            let dv = parts.deep_view();
            assert(dv.take(i + 1 as int) =~= dv.take(i as int).push(dv[i as int]));
            lemma_join_push(dv.take(i as int), sep@, dv[i as int]);
            assert(r@ =~= join_chars(dv.take(i + 1 as int), sep@));
        }
        i += 1;
    }
    proof {
        assert(parts.deep_view().take(parts@.len() as int) =~= parts.deep_view());
    }
    r
}

/// The full textual block of one probed file: name, duration line, bit-rate
/// line, and the best-stream fragments joined by a newline and a tab.
pub open spec fn summary_chars(d: ProbeData) -> Seq<char> {
    d.file_name@ + "\n\tDuration: "@ + duration_chars(
        span_secs(d.duration_micros as int),
        span_nanos(d.duration_micros as int),
    ) + "\n\tBit rate: "@ + bit_rate_chars(d.bit_rate as int) + "\n\t"@ + join_chars(
        fragment_seqs(d),
        "\n\t"@,
    )
}

/// Builds the textual block for one successfully probed file.
pub fn summary_block(d: &ProbeData) -> (r: String)
    ensures
        r@ == summary_chars(*d),
{
    let span: (u64, u32) = micros_to_span(d.duration_micros);
    let mut r = String::from_str(d.file_name.as_str());
    r.append("\n\tDuration: ");
    r.append(format_duration(span.0, span.1).as_str());
    r.append("\n\tBit rate: ");
    r.append(format_bit_rate(d.bit_rate).as_str());
    r.append("\n\t");
    let mut frags: Vec<String> = Vec::new();
    match &d.video_rate {
        Some(rate) => {
            let mut f = String::from_str("Video: ");
            f.append(rate.as_str());
            f.append(" kb/s");
            frags.push(f);
        },
        None => {},
    }
    match &d.audio_rate {
        Some(rate) => {
            let mut f = String::from_str("Audio: ");
            f.append(rate.as_str());
            f.append(" kb/s");
            frags.push(f);
        },
        None => {},
    }
    proof {
        assert(frags.deep_view() =~= fragment_seqs(*d));
    }
    r.append(join_with(&frags, "\n\t").as_str());
    proof {
        assert(r@ =~= summary_chars(*d));
    }
    r
}

/// The blocks one probe outcome contributes to the report: its block on
/// success, nothing on failure.
pub open spec fn outcome_blocks(outcome: Option<String>) -> Seq<Seq<char>> {
    match outcome {
        Some(block) => seq![block@],
        None => Seq::<Seq<char>>::empty(),
    }
}

/// The blocks of all successful outcomes, in collection order, failures
/// dropped.
pub open spec fn success_blocks(outcomes: Seq<Option<String>>) -> Seq<Seq<char>>
    decreases outcomes.len(),
{
    if outcomes.len() == 0 {
        Seq::<Seq<char>>::empty()
    } else {
        outcome_blocks(outcomes[0]) + success_blocks(outcomes.drop_first())
    }
}

/// The number of successful outcomes.
pub open spec fn success_count(outcomes: Seq<Option<String>>) -> nat
    decreases outcomes.len(),
{
    if outcomes.len() == 0 {
        0
    } else {
        (if outcomes[0] is Some {
            1nat
        } else {
            0nat
        }) + success_count(outcomes.drop_first())
    }
}

proof fn lemma_success_push(outcomes: Seq<Option<String>>, x: Option<String>)
    ensures
        success_blocks(outcomes.push(x)) == success_blocks(outcomes) + outcome_blocks(x),
        success_count(outcomes.push(x)) == success_count(outcomes) + (if x is Some {
            1nat
        } else {
            0nat
        }),
    decreases outcomes.len(),
{
    if outcomes.len() == 0 {
        assert(outcomes.push(x).drop_first() =~= outcomes);
        assert(outcomes.push(x)[0] == x);
        assert(success_blocks(outcomes) =~= Seq::<Seq<char>>::empty());
        assert(success_count(outcomes) == 0);
        assert(success_blocks(outcomes.push(x)) =~= success_blocks(outcomes) + outcome_blocks(x));
    } else {
        assert(outcomes.push(x).drop_first() =~= outcomes.drop_first().push(x));
        lemma_success_push(outcomes.drop_first(), x);
        assert(success_blocks(outcomes.push(x)) =~= success_blocks(outcomes) + outcome_blocks(x));
    }
}

/// The report holds exactly one block per successful probe, whatever order
/// the concurrent probes completed in: failures contribute nothing and
/// never displace a success.
pub proof fn lemma_aggregation_completeness(outcomes: Seq<Option<String>>)
    ensures
        success_blocks(outcomes).len() == success_count(outcomes),
    decreases outcomes.len(),
{
    if outcomes.len() > 0 {
        lemma_aggregation_completeness(outcomes.drop_first());
    }
}

/// Keeps the blocks of the successful probe outcomes, in order, dropping
/// the failures.
pub fn collect_successes(outcomes: &Vec<Option<String>>) -> (r: Vec<String>)
    ensures
        r.deep_view() == success_blocks(outcomes@),
        r@.len() == success_count(outcomes@),
{
    let mut r: Vec<String> = Vec::new();
    let mut i: usize = 0;
    while i < outcomes.len()
        invariant
            i <= outcomes@.len(),
            r.deep_view() == success_blocks(outcomes@.take(i as int)),
            r@.len() == success_count(outcomes@.take(i as int)),
        decreases outcomes@.len() - i,
    {
        match &outcomes[i] {
            Some(block) => {
                r.push(block.clone());
            },
            None => {},
        }
        proof {
            assert(outcomes@.take(i + 1 as int) =~= outcomes@.take(i as int).push(
                outcomes@[i as int],
            ));
            lemma_success_push(outcomes@.take(i as int), outcomes@[i as int]);
            assert(r.deep_view() =~= success_blocks(outcomes@.take(i + 1 as int)));
        }
        i += 1;
    }
    proof {
        assert(outcomes@.take(outcomes@.len() as int) =~= outcomes@);
    }
    r
}

/// Assembles the final report from the probe outcomes: the successful
/// blocks, in collection order, joined by single newlines.
pub fn assemble_report(outcomes: &Vec<Option<String>>) -> (r: String)
    ensures
        r@ == join_chars(success_blocks(outcomes@), "\n"@),
{
    let blocks = collect_successes(outcomes);
    join_with(&blocks, "\n")
}

} // verus!
