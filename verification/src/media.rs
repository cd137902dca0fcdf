//! The video track: what it is called, how it is paced, and what its receiver reports say.
use vstd::prelude::*;

verus! {

/// The time that one video frame is shown, in milliseconds: about 24 frames per second.
pub const H26X_FRAME_DURATION_MS: u64 = 41;

/// The video track of a connection.
#[derive(Clone, Debug, PartialEq, Eq)]
pub struct VideoTrack {
    pub stream_id: String,
    pub track_id: String,
    pub label: String,
    pub ssrc: u32,
}

/// Calls `rand::random`. Nothing is said of the number: it is random. The call fails where the
/// operating system has no random bytes to give.
#[verifier::external_body]
fn random_number() -> (number: u32) {
    rand::random::<u32>()
}

/// The name of the stream with the given number.
pub open spec fn stream_name(number: u32) -> Seq<char> {
    "video-stream-"@ + crate::text::decimal(number as nat)
}

/// The name of the track with the given number.
pub open spec fn track_name(number: u32) -> Seq<char> {
    "video-track-"@ + crate::text::decimal(number as nat)
}

/// The video track with the given numbers.
pub fn video_track(stream_number: u32, track_number: u32, ssrc: u32) -> (track: VideoTrack)
    ensures
        track.stream_id@ == "video-stream-"@ + crate::text::decimal(stream_number as nat),
        track.track_id@ == "video-track-"@ + crate::text::decimal(track_number as nat),
        track.stream_id@ == stream_name(stream_number),
        track.track_id@ == track_name(track_number),
        track.label@ == "Video track"@,
        track.ssrc == ssrc,
{
    VideoTrack {
        stream_id: "video-stream-".to_owned().concat(
            crate::text::decimal_text(stream_number).as_str(),
        ),
        track_id: "video-track-".to_owned().concat(
            crate::text::decimal_text(track_number).as_str(),
        ),
        label: "Video track".to_owned(),
        ssrc,
    }
}

/// A video track with random numbers for the stream and the track.
pub fn new_video_track(ssrc: u32) -> (track: VideoTrack)
    ensures
        exists|stream_number: u32|
            track.stream_id@ == "video-stream-"@ + #[trigger] crate::text::decimal(
                stream_number as nat,
            ),
        exists|track_number: u32|
            track.track_id@ == "video-track-"@ + #[trigger] crate::text::decimal(
                track_number as nat,
            ),
        exists|stream_number: u32| track.stream_id@ == #[trigger] stream_name(stream_number),
        exists|track_number: u32| track.track_id@ == #[trigger] track_name(track_number),
        track.label@ == "Video track"@,
        track.ssrc == ssrc,
{
    let stream_number: u32 = random_number();
    let track_number: u32 = random_number();
    video_track(stream_number, track_number, ssrc)
}

/// No codec came out of the negotiation.
#[derive(Clone, Copy, Debug, PartialEq, Eq, Structural)]
pub struct NoNegotiatedCodec;

/// The payload type to send with, where these were negotiated.
pub open spec fn chosen_payload_type(payload_types: Seq<u8>) -> Result<u8, NoNegotiatedCodec> {
    if payload_types.len() == 0 {
        Err(NoNegotiatedCodec)
    } else {
        Ok(payload_types[0])
    }
}

/// The payload type to send with: that of the first codec that was negotiated.
pub fn negotiated_payload_type(payload_types: &Vec<u8>) -> (payload_type: Result<
    u8,
    NoNegotiatedCodec,
>)
    ensures
        payload_type == if payload_types.len() == 0 {
            Err(NoNegotiatedCodec)
        } else {
            Ok(payload_types[0])
        },
        payload_type == chosen_payload_type(payload_types@),
{
    if payload_types.len() == 0 {
        Err(NoNegotiatedCodec)
    } else {
        Ok(payload_types[0])
    }
}

/// What to do with the next sample of a video.
#[derive(Clone, Copy, Debug, PartialEq, Eq, Structural)]
pub enum SampleStep {
    /// Send it with this duration, then wait for the next tick of the frame clock if `wait`.
    Write { duration_ms: u64, wait: bool },
    /// There is none: the whole video is sent.
    Finished,
}

/// What to do with the next sample.
pub open spec fn sample_step(timed: Option<bool>) -> SampleStep {
    match timed {
        Some(true) => SampleStep::Write { duration_ms: H26X_FRAME_DURATION_MS, wait: true },
        Some(false) => SampleStep::Write { duration_ms: 0, wait: false },
        None => SampleStep::Finished,
    }
}

/// What to do with the next sample: `timed` says whether it is shown for a time of its own, and
/// is nothing at the end of the video.
pub fn next_sample(timed: Option<bool>) -> (step: SampleStep)
    ensures
        step == match timed {
            Some(true) => SampleStep::Write { duration_ms: H26X_FRAME_DURATION_MS, wait: true },
            Some(false) => SampleStep::Write { duration_ms: 0, wait: false },
            None => SampleStep::Finished,
        },
        step == sample_step(timed),
{
    match timed {
        Some(true) => SampleStep::Write { duration_ms: H26X_FRAME_DURATION_MS, wait: true },
        Some(false) => SampleStep::Write { duration_ms: 0, wait: false },
        None => SampleStep::Finished,
    }
}

/// What a receiver says about the last sender report that it got: the middle 32 bits of its NTP
/// timestamp, and how long ago it came, in units of 1/65536 seconds.
#[derive(Clone, Copy, Debug, PartialEq, Eq, Structural)]
pub struct ReceptionReport {
    pub last_sender_report: u32,
    pub delay: u32,
}

impl ReceptionReport {
    /// Whether the receiver has had a sender report.
    pub open spec fn is_answer(self) -> bool {
        self.last_sender_report != 0 || self.delay != 0
    }

    /// Whether the report can be as old as it says at the time `now`.
    pub open spec fn is_past(self, now: u32) -> bool {
        self.last_sender_report + self.delay <= now
    }
}

/// Calls `rtc::shared::time::SystemInstant::now` and `ntp` at `Instant::now`. Nothing is said of
/// the timestamp: it is read from the clock.
#[verifier::external_body]
fn ntp_now() -> (ntp: u64) {
    rtc::shared::time::SystemInstant::now().ntp(std::time::Instant::now())
}

/// The middle 32 bits of an NTP timestamp.
pub open spec fn middle_bits(ntp: u64) -> u32 {
    ((ntp / 0x1_0000) % 0x1_0000_0000) as u32
}

/// The middle 32 bits of an NTP timestamp: seconds and a fraction, 16 bits each.
pub fn middle_ntp(ntp: u64) -> (middle: u32)
    ensures
        middle == (ntp / 0x1_0000) % 0x1_0000_0000,
        middle == middle_bits(ntp),
{
    let shifted: u64 = ntp / 0x1_0000;
    (shifted % 0x1_0000_0000) as u32
}

/// The round trip time that a receiver's reports give at the time `now`.
pub open spec fn round_trip_spec(now: u32, reports: Seq<ReceptionReport>) -> Option<u32> {
    if reports.len() == 0 || !reports[0].is_answer() {
        None
    } else {
        Some((now - reports[0].delay - reports[0].last_sender_report) as u32)
    }
}

/// The round trip time that a receiver's reports give at the time `now`, in units of 1/65536
/// seconds (RFC 3550, section 6.4.1). Only the first report counts, and only once the receiver
/// has had a sender report.
pub fn round_trip(now: u32, reports: &Vec<ReceptionReport>) -> (rtt: Option<u32>)
    requires
        reports.len() > 0 && reports[0].is_answer() ==> reports[0].is_past(now),
    ensures
        rtt == round_trip_spec(now, reports@),
{
    if reports.len() == 0 {
        return None;
    }
    let report: ReceptionReport = reports[0];
    if report.last_sender_report == 0 && report.delay == 0 {
        return None;
    }
    Some(now - report.delay - report.last_sender_report)
}

/// A report that says it is older than the clock allows.
#[derive(Clone, Copy, Debug, PartialEq, Eq, Structural)]
pub struct ReportAhead;

/// The round trip time that a receiver's reports give at the NTP timestamp `ntp`.
pub open spec fn round_trip_at_spec(ntp: u64, reports: Seq<ReceptionReport>) -> Result<
    Option<u32>,
    ReportAhead,
> {
    let now = ((ntp / 0x1_0000) % 0x1_0000_0000) as u32;
    if reports.len() == 0 || !reports[0].is_answer() {
        Ok(None)
    } else if reports[0].is_past(now) {
        Ok(round_trip_spec(now, reports))
    } else {
        Err(ReportAhead)
    }
}

/// The round trip time that a receiver's reports give at the NTP timestamp `ntp`.
pub fn round_trip_at(ntp: u64, reports: &Vec<ReceptionReport>) -> (rtt: Result<
    Option<u32>,
    ReportAhead,
>)
    ensures
        rtt == round_trip_at_spec(ntp, reports@),
{
    let now: u32 = middle_ntp(ntp);
    if reports.len() > 0 {
        let report: ReceptionReport = reports[0];
        let answer: bool = report.last_sender_report != 0 || report.delay != 0;
        let past: bool = report.delay <= now && report.last_sender_report <= now - report.delay;
        if answer && !past {
            return Err(ReportAhead);
        }
    }
    Ok(round_trip(now, reports))
}

/// The round trip time that a receiver's reports give at this moment.
pub fn round_trip_now(reports: &Vec<ReceptionReport>) -> (rtt: Result<Option<u32>, ReportAhead>)
    ensures
        reports.len() == 0 || !reports[0].is_answer() ==> rtt == Ok::<
            Option<u32>,
            ReportAhead,
        >(None),
        exists|ntp: u64| rtt == #[trigger] round_trip_at_spec(ntp, reports@),
{
    round_trip_at(ntp_now(), reports)
}

/// The whole seconds of a time in units of 1/65536 seconds, and the units that remain.
pub open spec fn time_parts(time: u32) -> (u32, u32) {
    (time / 0x1_0000, time % 0x1_0000)
}

/// The whole seconds of a time in units of 1/65536 seconds, and the units that remain.
pub fn split_time(time: u32) -> (parts: (u32, u32))
    ensures
        parts.0 == time / 0x1_0000,
        parts.1 == time % 0x1_0000,
        time == parts.0 * 0x1_0000 + parts.1,
        parts == time_parts(time),
{
    (time / 0x1_0000, time % 0x1_0000)
}

/// The round trip time is the time that the reports spent on the network: what passed since the
/// sender report was sent, without what the receiver kept it for.
pub proof fn law_round_trip_is_network_time(
    sent: u32,
    kept: u32,
    network: u32,
    rest: Seq<ReceptionReport>,
)
    requires
        sent != 0 || kept != 0,
        sent + kept + network <= u32::MAX,
    ensures
        round_trip_spec(
            (sent + kept + network) as u32,
            seq![ReceptionReport { last_sender_report: sent, delay: kept }] + rest,
        ) == Some(network),
{
}

/// What is measured at a timestamp is the time that the reports spent on the network. The timestamp
/// counts seconds in its high 32 bits and their fraction in the others; its middle 32 bits are the
/// time at which the sender report was sent, the time that the receiver kept it, and the time on
/// the network, taken together. Only the first report counts.
#[verifier::spinoff_prover]
pub proof fn law_round_trip_at_is_network_time(
    ntp: u64,
    high: int,
    low: int,
    sent: u32,
    kept: u32,
    network: u32,
    reports: Seq<ReceptionReport>,
)
    requires
        sent != 0 || kept != 0,
        sent + kept + network <= u32::MAX,
        0 <= low < 0x1_0000,
        ntp == high * 0x1_0000_0000_0000 + (sent + kept + network) * 0x1_0000 + low,
        reports.len() > 0,
        reports[0].last_sender_report == sent,
        reports[0].delay == kept,
    ensures
        round_trip_at_spec(ntp, reports) == Ok::<Option<u32>, ReportAhead>(Some(network)),
{
    law_middle_of_a_timestamp(ntp, high, (sent + kept + network) as u32, low);
}

/// A report is ahead of the clock where the time that it was sent at and the time that it was kept
/// come to more than the middle 32 bits of the timestamp; no round trip time is measured then.
pub proof fn law_report_ahead_of_the_clock_is_refused(
    ntp: u64,
    high: int,
    middle: u32,
    low: int,
    reports: Seq<ReceptionReport>,
)
    requires
        0 <= low < 0x1_0000,
        ntp == high * 0x1_0000_0000_0000 + middle * 0x1_0000 + low,
        reports.len() > 0,
        reports[0].last_sender_report + reports[0].delay > middle,
    ensures
        round_trip_at_spec(ntp, reports) == Err::<Option<u32>, ReportAhead>(ReportAhead),
{
    law_middle_of_a_timestamp(ntp, high, middle, low);
}

/// Nothing is measured, at any time, where there is no report, or where the first one is from a
/// receiver that has had no sender report.
pub proof fn law_nothing_is_measured_before_a_sender_report(
    ntp: u64,
    now: u32,
    reports: Seq<ReceptionReport>,
)
    requires
        reports.len() == 0 || (reports[0].last_sender_report == 0 && reports[0].delay == 0),
    ensures
        round_trip_at_spec(ntp, reports) == Ok::<Option<u32>, ReportAhead>(None),
        round_trip_spec(now, reports) is None,
{
}

/// Where a round trip time is measured, adding it to the two times of the first report gives the
/// time of the measurement.
pub proof fn law_round_trip_adds_up(now: u32, reports: Seq<ReceptionReport>)
    requires
        reports.len() > 0,
        reports[0].last_sender_report != 0 || reports[0].delay != 0,
        reports[0].last_sender_report + reports[0].delay <= now,
    ensures
        round_trip_spec(now, reports) matches Some(rtt) && reports[0].last_sender_report
            + reports[0].delay + rtt == now,
        reports[0].is_answer(),
        reports[0].is_past(now),
{
}

/// The middle of a timestamp is what is left between its 16 high and its 16 low bits.
#[verifier::spinoff_prover]
pub proof fn law_middle_of_a_timestamp(ntp: u64, high: int, middle: u32, low: int)
    requires
        0 <= low < 0x1_0000,
        ntp == high * 0x1_0000_0000_0000 + middle * 0x1_0000 + low,
    ensures
        middle_bits(ntp) == middle,
{
    let upper = high * 0x1_0000_0000 + middle;
    vstd::arithmetic::div_mod::lemma_fundamental_div_mod_converse(
        ntp as int,
        0x1_0000,
        upper,
        low,
    );
    vstd::arithmetic::div_mod::lemma_fundamental_div_mod_converse(
        upper,
        0x1_0000_0000,
        high,
        middle as int,
    );
}

/// A time of some seconds and fewer units than a second has is split into just these.
pub proof fn law_time_splits_into_seconds_and_units(time: u32, seconds: u32, units: u32)
    requires
        units < 0x1_0000,
        time == seconds * 0x1_0000 + units,
    ensures
        time_parts(time) == (seconds, units),
{
}

/// A stream and a track are named by their numbers: the number reads back from the name.
pub proof fn law_names_hold_their_numbers(number: u32)
    ensures
        stream_name(number).take(13) == seq![
            'v',
            'i',
            'd',
            'e',
            'o',
            '-',
            's',
            't',
            'r',
            'e',
            'a',
            'm',
            '-',
        ],
        crate::text::read_number(stream_name(number).skip(13), 10) == number,
        track_name(number).take(12) == seq![
            'v',
            'i',
            'd',
            'e',
            'o',
            '-',
            't',
            'r',
            'a',
            'c',
            'k',
            '-',
        ],
        track_name(number).skip(12) == stream_name(number).skip(13),
{
    reveal_strlit("video-stream-");
    reveal_strlit("video-track-");
    let digits = crate::text::decimal(number as nat);
    crate::text::law_decimal_reads_back(number as nat);
    assert(stream_name(number).take(13) =~= "video-stream-"@);
    assert(track_name(number).take(12) =~= "video-track-"@);
    assert(stream_name(number).skip(13) =~= digits);
    assert(track_name(number).skip(12) =~= digits);
}

/// The first codec is the one that is used, whatever others there are; without any, none is.
pub proof fn law_first_codec_is_used(first: u8, others: Seq<u8>)
    ensures
        chosen_payload_type(seq![first] + others) == Ok::<u8, NoNegotiatedCodec>(first),
        chosen_payload_type(Seq::empty()) is Err,
{
}

/// Samples are sent until the video ends. Those that are shown for a time of their own are paced:
/// the wait for the next one is as long as the one is shown, 41 milliseconds. The others take no
/// time.
pub proof fn law_timed_samples_are_paced(timed: Option<bool>)
    ensures
        timed is None <==> sample_step(timed) is Finished,
        timed matches Some(paced) ==> (sample_step(timed) matches SampleStep::Write {
            duration_ms,
            wait,
        } && wait == paced && duration_ms == if paced {
            41u64
        } else {
            0u64
        }),
{
}

} // verus!
