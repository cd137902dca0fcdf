use mesh_signal::ids::{
    default_save_file_name, id_text, save_file_name, server_url, stats_file_name, stats_row,
};
use mesh_signal::media::{
    middle_ntp, negotiated_payload_type, new_video_track, next_sample, round_trip, round_trip_at,
    round_trip_now, split_time, video_track, NoNegotiatedCodec, ReceptionReport, ReportAhead, SampleStep,
    H26X_FRAME_DURATION_MS,
};
use mesh_signal::text::decimal_text;
use std::time::{SystemTime, UNIX_EPOCH};

const ID: u128 = 0xa1a2a3a4_b1b2_c1c2_d1d2_d3d4d5d6d7d8;
const ID_TEXT: &str = "a1a2a3a4-b1b2-c1c2-d1d2-d3d4d5d6d7d8";

fn report(last_sender_report: u32, delay: u32) -> ReceptionReport {
    ReceptionReport { last_sender_report, delay }
}

#[test]
fn identifiers_are_hyphenated() {
    assert_eq!(id_text(ID), ID_TEXT);
    assert_eq!(id_text(0), "00000000-0000-0000-0000-000000000000");
    assert_eq!(id_text(u128::MAX), "ffffffff-ffff-ffff-ffff-ffffffffffff");
    assert_eq!(id_text(1), "00000000-0000-0000-0000-000000000001");
}

#[test]
fn files_are_named_after_the_peer() {
    assert_eq!(stats_file_name(ID), format!("stats-{ID_TEXT}.csv"));
    assert_eq!(save_file_name(ID), format!("save-video-{ID_TEXT}.h264"));
    assert_ne!(stats_file_name(ID), stats_file_name(ID + 1));
}

#[test]
fn default_save_files_differ() {
    let first = default_save_file_name();
    let second = default_save_file_name();
    assert_ne!(first, second);
    assert_eq!(first.len(), "save-video-".len() + 36 + ".h264".len());
    assert_eq!(first.as_bytes()["save-video-".len() + 14], b'4');
}

#[test]
fn urls_of_servers() {
    assert_eq!(server_url("127.0.0.1:6969"), "ws://127.0.0.1:6969");
}

#[test]
fn rows_hold_the_peer_and_the_delay() {
    assert_eq!(stats_row(ID, "12.500"), format!("{ID_TEXT},12.500\n"));
    assert_ne!(stats_row(ID, "12.500"), stats_row(ID, "12.501"));
    assert_ne!(stats_row(ID, "12.500"), stats_row(ID + 1, "12.500"));
}

#[test]
fn numbers_in_decimal() {
    for n in [0u32, 9, 10, 99, 100, 1234567890, u32::MAX] {
        assert_eq!(decimal_text(n), format!("{n}"));
    }
}

#[test]
fn video_tracks_are_numbered() {
    let track = video_track(0, u32::MAX, 42);
    assert_eq!(track.stream_id, "video-stream-0");
    assert_eq!(track.track_id, "video-track-4294967295");
    assert_eq!(track.label, "Video track");
    assert_eq!(track.ssrc, 42);
}

#[test]
fn new_video_tracks_are_numbered_at_random() {
    let tracks = [new_video_track(1), new_video_track(1), new_video_track(1)];
    for track in &tracks {
        assert!(track.stream_id["video-stream-".len()..].parse::<u32>().is_ok());
        assert!(track.track_id["video-track-".len()..].parse::<u32>().is_ok());
        assert_eq!(track.ssrc, 1);
    }
    assert!(tracks[0] != tracks[1] || tracks[1] != tracks[2]);
}

#[test]
fn the_first_codec_is_used() {
    assert_eq!(negotiated_payload_type(&vec![102, 120]), Ok(102));
    assert_eq!(negotiated_payload_type(&vec![]), Err(NoNegotiatedCodec));
}

#[test]
fn timed_samples_are_paced() {
    assert_eq!(H26X_FRAME_DURATION_MS, 41);
    assert_eq!(next_sample(Some(true)), SampleStep::Write { duration_ms: 41, wait: true });
    assert_eq!(next_sample(Some(false)), SampleStep::Write { duration_ms: 0, wait: false });
    assert_eq!(next_sample(None), SampleStep::Finished);
}

#[test]
fn middle_of_a_timestamp() {
    assert_eq!(middle_ntp(0x1111_2222_3333_4444), 0x2222_3333);
    assert_eq!(middle_ntp(0), 0);
    assert_eq!(middle_ntp(u64::MAX), u32::MAX);
}

#[test]
fn round_trips_are_computed() {
    // The example of RFC 3550: A = 0xb710:8000, DLSR = 5.25 s, LSR = 0xb705:2000.
    let reports = vec![report(0xb705_2000, 0x0005_4000)];
    assert_eq!(round_trip(0xb710_8000, &reports), Some(0x0006_2000));
    assert_eq!(split_time(0x0006_2000), (6, 0x2000));
    assert_eq!(split_time(u32::MAX), (65535, 65535));
}

#[test]
fn only_the_first_report_counts() {
    let reports = vec![report(100, 20), report(1, 1)];
    assert_eq!(round_trip(150, &reports), Some(30));
    assert_eq!(round_trip(120, &reports), Some(0));
}

#[test]
fn reports_before_any_sender_report_are_ignored() {
    assert_eq!(round_trip(5, &vec![]), None);
    assert_eq!(round_trip(5, &vec![report(0, 0), report(1, 1)]), None);
    assert_eq!(round_trip(5, &vec![report(0, 2)]), Some(3));
    assert_eq!(round_trip(5, &vec![report(2, 0)]), Some(3));
    assert_eq!(round_trip_now(&vec![]), Ok(None));
    assert_eq!(round_trip_now(&vec![report(0, 0)]), Ok(None));
}

#[test]
fn reports_from_the_future_are_told_apart() {
    assert_eq!(round_trip_now(&vec![report(u32::MAX, u32::MAX)]), Err(ReportAhead));
}

#[test]
fn the_time_is_that_of_the_clock() {
    let since_1970 = SystemTime::now().duration_since(UNIX_EPOCH).unwrap().as_secs();
    let expected = (since_1970 + 2_208_988_800) % 65536;
    let rtt = round_trip_now(&vec![report(1, 0)]).unwrap().unwrap();
    let (seconds, _) = split_time(rtt + 1);
    let late = (u64::from(seconds) + 65536 - expected) % 65536;
    assert!(late < 10);
}

#[test]
fn round_trips_at_a_timestamp() {
    // The middle of this timestamp is 0x0002_8000, two and a half seconds.
    let ntp: u64 = 0xdead_0002_8000_beef;
    assert_eq!(round_trip_at(ntp, &vec![report(0x1_0000, 0x8000)]), Ok(Some(0x1_0000)));
    assert_eq!(round_trip_at(ntp, &vec![report(0x2_8000, 0)]), Ok(Some(0)));
    assert_eq!(round_trip_at(ntp, &vec![report(0x2_8001, 0)]), Err(ReportAhead));
    assert_eq!(round_trip_at(ntp, &vec![report(0x2_8000, 1)]), Err(ReportAhead));
    assert_eq!(round_trip_at(ntp, &vec![report(u32::MAX, u32::MAX)]), Err(ReportAhead));
    assert_eq!(round_trip_at(ntp, &vec![]), Ok(None));
    assert_eq!(round_trip_at(ntp, &vec![report(0, 0), report(1, 1)]), Ok(None));
}
