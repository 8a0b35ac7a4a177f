//! Talking to mpv.

use aquafin::video::{
    build_get_property, get_property_command, match_reply, mpv_args, parse_property_response,
    seek_command, socket_name_for, toggle_pause_command, ReplyScan, TrackChoice, VideoError,
    VideoOptions, REPLY_LINE_LIMIT,
};

#[test]
fn get_property_command_is_newline_terminated_json() {
    let line = build_get_property("time-pos", 1);
    assert!(line.ends_with('\n'));
    let parsed: serde_json::Value = serde_json::from_str(line.trim()).unwrap();
    assert_eq!(parsed["command"][0], "get_property");
    assert_eq!(parsed["command"][1], "time-pos");
    assert_eq!(parsed["request_id"], 1);
}

#[test]
fn parses_matching_reply_with_value() {
    let line = r#"{"request_id":1,"error":"success","data":42.5}"#;
    assert_eq!(parse_property_response(line, 1), Some(Some(42.5f64.to_bits())));
}

#[test]
fn parses_matching_reply_without_value() {
    // Property not available yet: success but data is null.
    let line = r#"{"request_id":1,"error":"property unavailable","data":null}"#;
    assert_eq!(parse_property_response(line, 1), Some(None));
}

#[test]
fn ignores_events_and_other_request_ids() {
    assert_eq!(
        parse_property_response(r#"{"event":"playback-restart"}"#, 1),
        None
    );
    assert_eq!(
        parse_property_response(r#"{"request_id":2,"data":1.0}"#, 1),
        None
    );
    assert_eq!(parse_property_response("not json", 1), None);
}

#[test]
fn socket_path_sanitizes_item_id() {
    let name = socket_name_for("ab/cd ef", 4242);
    assert!(name.starts_with("aquafin-mpv-"));
    assert!(name.ends_with("-ab-cd-ef.sock"));
    assert!(!name.contains('/'));
}

#[test]
fn property_names_are_quoted() {
    let line = build_get_property("say \"hi\"\n", 7);
    let parsed: serde_json::Value = serde_json::from_str(line.trim()).unwrap();
    assert_eq!(parsed["command"][1], "say \"hi\"\n");
    assert_eq!(parsed["request_id"], 7);
    assert_eq!(line.matches('\n').count(), 1);
    assert_eq!(
        get_property_command("\"pause\"", 3),
        "{\"command\":[\"get_property\",\"pause\"],\"request_id\":3}\n"
    );
}

#[test]
fn seeking_and_pausing_send_one_line_each() {
    let seek: serde_json::Value = serde_json::from_str(seek_command(-10).trim()).unwrap();
    assert_eq!(seek["command"][0], "seek");
    assert_eq!(seek["command"][1], -10);
    assert_eq!(seek["command"][2], "relative");
    let pause: serde_json::Value = serde_json::from_str(toggle_pause_command().trim()).unwrap();
    assert_eq!(pause["command"][0], "cycle");
    assert_eq!(pause["command"][1], "pause");
    assert!(seek_command(5).ends_with('\n'));
    assert!(toggle_pause_command().ends_with('\n'));
}

#[test]
fn replies_are_matched_by_request() {
    assert_eq!(match_reply(Some(1), Some(9), 1), Some(Some(9)));
    assert_eq!(match_reply(Some(1), None, 1), Some(None));
    assert_eq!(match_reply(Some(2), Some(9), 1), None);
    assert_eq!(match_reply(None, Some(9), 1), None);
}

#[test]
fn a_silent_mpv_is_given_up_on() {
    let mut scan = ReplyScan::new(1);
    for _ in 1..REPLY_LINE_LIMIT {
        assert_eq!(scan.feed(None), None);
    }
    assert_eq!(scan.feed(None), Some(None));
    let mut scan = ReplyScan::new(1);
    assert_eq!(scan.feed(None), None);
    assert_eq!(scan.feed(Some(Some(5))), Some(Some(5)));
}

#[test]
fn chosen_tracks_become_arguments() {
    assert_eq!(TrackChoice::Auto.as_arg(), None);
    assert_eq!(TrackChoice::Off.as_arg().as_deref(), Some("no"));
    assert_eq!(TrackChoice::Pick(2).as_arg().as_deref(), Some("2"));
}

#[test]
fn launch_failures_are_told_apart() {
    let missing = VideoError::from_launch(true, "gone".to_string());
    assert!(matches!(missing, VideoError::MpvNotInstalled));
    let other = VideoError::from_launch(false, "denied".to_string());
    assert!(!matches!(other, VideoError::MpvNotInstalled));
    assert!(other.message().contains("denied"));
}

#[test]
fn mpv_is_launched_on_the_stream_with_the_chosen_tracks() {
    let options = VideoOptions {
        audio: Some(TrackChoice::Pick(2)),
        subtitle: Some(TrackChoice::Off),
        start_secs: Some("12.500".to_string()),
        extra_args: vec!["--hwdec=auto".to_string()],
    };
    assert_eq!(
        mpv_args("/tmp/s.sock", "http://host/stream", "The Matrix", &options),
        vec![
            "--input-ipc-server=/tmp/s.sock",
            "--force-window=yes",
            "--osc=yes",
            "--no-terminal",
            "--force-media-title=The Matrix",
            "--aid=2",
            "--sid=no",
            "--start=12.500",
            "--hwdec=auto",
            "http://host/stream",
        ]
    );
}
