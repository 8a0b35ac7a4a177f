//! Launching and driving mpv.

use vstd::prelude::*;
use vstd::string::*;

use crate::text;
use crate::video;
use crate::video::{ReplyScan, TrackChoice, VideoError, VideoErrorModel, VideoOptions};

verus! {

/// mpv is launched on the stream that was asked for, with the title that was asked for and
/// its socket where it is expected; the user's own flags come right before the stream.
pub proof fn mpv_plays_what_was_asked_for(
    socket: &str,
    url: &str,
    title: &str,
    options: VideoOptions,
    args: Vec<String>,
)
    requires
        call_ensures(video::mpv_args, (socket, url, title, &options), args),
    ensures
        ({
            let given = args.deep_view();
            let extra = options.extra_args.deep_view();
            let n = given.len();
            &&& n >= 6 + extra.len()
            &&& given[0] == "--input-ipc-server="@ + socket@
            &&& given[4] == "--force-media-title="@ + title@
            &&& given.contains("--force-window=yes"@)
            &&& given.contains("--osc=yes"@)
            &&& given.contains("--no-terminal"@)
            &&& given.last() == url@
            &&& given.subrange(n - 1 - extra.len(), n - 1) == extra
        }),
{
    let given = args.deep_view();
    let extra = options@.extra_args;
    let n = given.len();
    assert(given[1] == "--force-window=yes"@);
    assert(given[2] == "--osc=yes"@);
    assert(given[3] == "--no-terminal"@);
    assert(given.subrange(n - 1 - extra.len(), n - 1) =~= extra);
}

/// A picked track is named to mpv by its number, one that is off is switched off, and one
/// that is left to mpv gets no flag at all. The start position is named where there is
/// one.
pub proof fn mpv_is_told_the_picked_tracks(
    socket: &str,
    url: &str,
    title: &str,
    options: VideoOptions,
    args: Vec<String>,
)
    requires
        call_ensures(video::mpv_args, (socket, url, title, &options), args),
    ensures
        ({
            let given = args.deep_view();
            let audio = options.audio is Some && !(options.audio->0 is Auto);
            let subtitle = options.subtitle is Some && !(options.subtitle->0 is Auto);
            let start = options.start_secs is Some;
            let flags = (if audio {
                1int
            } else {
                0int
            }) + (if subtitle {
                1int
            } else {
                0int
            }) + (if start {
                1int
            } else {
                0int
            });
            &&& given.len() == 6 + flags + options.extra_args@.len()
            &&& audio ==> given[5] == "--aid="@ + (match options.audio->0 {
                TrackChoice::Pick(n) => text::signed_decimal(n as int),
                _ => "no"@,
            })
            &&& subtitle ==> given[if audio {
                6
            } else {
                5
            }] == "--sid="@ + (match options.subtitle->0 {
                TrackChoice::Pick(n) => text::signed_decimal(n as int),
                _ => "no"@,
            })
            &&& options.start_secs matches Some(secs) ==> given[4 + flags] == "--start="@ + secs@
        }),
{
    assert(options@.extra_args.len() == options.extra_args@.len());
    assert(options@.start_secs == match options.start_secs {
        Some(secs) => Some(secs@),
        None => None,
    });
}

/// The socket of a video is named after the client and the video, and the name of one
/// keeps every letter and digit of its id.
pub proof fn sockets_are_named_after_the_video(id: &str, pid: u32, name: String)
    requires
        call_ensures(video::socket_name_for, (id, pid), name),
    ensures
        ({
            let head = "aquafin-mpv-"@ + text::decimal(pid as nat) + "-"@;
            &&& name@.len() == head.len() + id@.len() + ".sock"@.len()
            &&& name@.take(head.len() as int) == head
            &&& name@.skip((head.len() + id@.len()) as int) == ".sock"@
            &&& forall|i: int|
                0 <= i < id@.len() ==> {
                    let c = id@[i];
                    let kept = ('0' <= c <= '9') || ('a' <= c <= 'z') || ('A' <= c <= 'Z');
                    #[trigger] name@[head.len() + i] == if kept {
                        c
                    } else {
                        '-'
                    }
                }
        }),
{
    let head = "aquafin-mpv-"@ + text::decimal(pid as nat) + "-"@;
    assert(name@.take(head.len() as int) =~= head);
    assert(name@.skip((head.len() + id@.len()) as int) =~= ".sock"@);
}

/// A seek command moves by the seconds that were asked for.
pub proof fn seeks_move_by_what_was_asked_for(delta: i32, line: String)
    requires
        call_ensures(video::seek_command, (delta,), line),
    ensures
        line@ == "{\"command\":[\"seek\","@ + text::signed_decimal(delta as int)
            + ",\"relative\"]}\n"@,
{
}

/// The pause command cycles mpv's pause.
pub proof fn the_pause_command_cycles(line: String)
    requires
        call_ensures(video::toggle_pause_command, (), line),
    ensures
        line@ == "{\"command\":[\"cycle\",\"pause\"]}\n"@,
{
}

/// A property is asked for by name and under its request's own number.
pub proof fn properties_are_asked_for_by_number(quoted: &str, id: u64, line: String)
    requires
        call_ensures(video::get_property_command, (quoted, id), line),
    ensures
        line@ == "{\"command\":[\"get_property\","@ + quoted@ + "],\"request_id\":"@
            + text::decimal(id as nat) + "}\n"@,
{
}

/// A reply counts for the request whose number it carries, with the value it carries, and
/// for no other.
pub proof fn replies_answer_their_request(
    id: Option<u64>,
    data: Option<u64>,
    request: u64,
    reply: Option<Option<u64>>,
)
    requires
        call_ensures(video::match_reply, (id, data, request), reply),
    ensures
        id == Some(request) ==> reply == Some(data),
        id != Some(request) ==> reply is None,
{
}

/// The wait for a reply ends with the reply, or without a value once fifty lines were
/// read.
pub proof fn the_wait_ends_with_the_reply(
    begun: ReplyScan,
    request: u64,
    scan: &mut ReplyScan,
    reply: Option<Option<u64>>,
    outcome: Option<Option<u64>>,
)
    requires
        call_ensures(ReplyScan::new, (request,), begun),
        call_ensures(ReplyScan::feed, (scan, reply), outcome),
        old(scan).lines_left > 0,
    ensures
        begun.request_id == request,
        begun.lines_left == 50,
        final(scan).request_id == old(scan).request_id,
        final(scan).lines_left == old(scan).lines_left - 1,
        reply is Some ==> outcome == reply,
        reply is None && old(scan).lines_left > 1 ==> outcome is None,
        reply is None && old(scan).lines_left == 1 ==> outcome == Some(None::<u64>),
{
}

/// A launch that failed says so: mpv is missing, or it did not start and why.
pub proof fn failed_launches_say_why(missing: bool, reason: String, error: VideoError, said: String)
    requires
        call_ensures(VideoError::from_launch, (missing, reason), error),
        call_ensures(VideoError::message, (&error,), said),
    ensures
        missing ==> error is MpvNotInstalled && said@
            == "mpv is not installed or not on PATH. Install mpv to play video."@,
        !missing ==> error@ == VideoErrorModel::Spawn(reason@) && said@ == "failed to launch mpv: "@
            + reason@,
{
}

/// A track choice is told to mpv by number, as off, or not at all.
pub proof fn choices_are_told_by_number(choice: TrackChoice, arg: Option<String>)
    requires
        call_ensures(TrackChoice::as_arg, (choice,), arg),
    ensures
        choice is Auto ==> arg is None,
        choice is Off ==> arg.deep_view() == Some("no"@),
        choice matches TrackChoice::Pick(n) ==> arg.deep_view() == Some(
            text::signed_decimal(n as int),
        ),
{
    assert(arg is None <==> arg.deep_view() is None);
}

} // verus!
