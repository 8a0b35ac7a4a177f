//! External video playback: the command line that launches mpv and the JSON
//! lines spoken over its IPC socket.

use vstd::prelude::*;
use vstd::string::*;

use crate::sequences;
use crate::sequences::push_deep;
use crate::text;
use crate::text::{chars_of, concat2, decimal_text, signed_decimal_text};

verus! {

/// Why a video failed to start.
#[derive(Debug, PartialEq, Eq)]
pub enum VideoError {
    /// mpv could not be found.
    MpvNotInstalled,
    /// mpv was found but did not start; holds the system's reason.
    Spawn(String),
}

/// The characters of an error.
pub enum VideoErrorModel {
    MpvNotInstalled,
    Spawn(Seq<char>),
}

impl View for VideoError {
    type V = VideoErrorModel;

    open spec fn view(&self) -> VideoErrorModel {
        match self {
            VideoError::MpvNotInstalled => VideoErrorModel::MpvNotInstalled,
            VideoError::Spawn(reason) => VideoErrorModel::Spawn(reason@),
        }
    }
}

impl VideoErrorModel {
    /// What the user is told.
    pub open spec fn message(self) -> Seq<char> {
        match self {
            VideoErrorModel::MpvNotInstalled =>
                "mpv is not installed or not on PATH. Install mpv to play video."@,
            VideoErrorModel::Spawn(reason) => "failed to launch mpv: "@ + reason,
        }
    }
}

impl VideoError {
    /// The error for a launch that failed with `reason`; `not_found` says that
    /// the executable itself was missing.
    pub fn from_launch(not_found: bool, reason: String) -> (error: VideoError)
        ensures
            error@ == if not_found {
                VideoErrorModel::MpvNotInstalled
            } else {
                VideoErrorModel::Spawn(reason@)
            },
    {
        if not_found {
            VideoError::MpvNotInstalled
        } else {
            VideoError::Spawn(reason)
        }
    }

    /// What the user is told.
    pub fn message(&self) -> (text: String)
        ensures
            text@ == self@.message(),
    {
        match self {
            VideoError::MpvNotInstalled =>
                "mpv is not installed or not on PATH. Install mpv to play video.".to_owned(),
            VideoError::Spawn(reason) => concat2("failed to launch mpv: ", reason.as_str()),
        }
    }
}

/// Which track of a kind mpv should play.
#[derive(Debug, Clone, Copy, PartialEq, Eq, Structural)]
pub enum TrackChoice {
    /// Let mpv pick the default (no `--aid` / `--sid` flag).
    Auto,
    /// Disable the track (`--sid=no`; only meaningful for subtitles).
    Off,
    /// Explicit 1-based per-type track index.
    Pick(i32),
}

impl DeepView for TrackChoice {
    type V = TrackChoice;

    open spec fn deep_view(&self) -> TrackChoice {
        *self
    }
}

impl TrackChoice {
    /// The value of mpv's track flag, if the flag is given at all.
    pub open spec fn arg(self) -> Option<Seq<char>> {
        match self {
            TrackChoice::Auto => None,
            TrackChoice::Off => Some("no"@),
            TrackChoice::Pick(n) => Some(text::signed_decimal(n as int)),
        }
    }

    /// The value of mpv's track flag, if the flag is given at all.
    pub fn as_arg(self) -> (arg: Option<String>)
        ensures
            arg.deep_view() == self.arg(),
    {
        match self {
            TrackChoice::Auto => None,
            TrackChoice::Off => Some("no".to_owned()),
            TrackChoice::Pick(n) => Some(signed_decimal_text(n as i64)),
        }
    }
}

/// Per-launch overrides for mpv: audio track + subtitle track. `None` lets mpv
/// pick its default.
#[derive(Debug, Clone, PartialEq, Eq)]
pub struct VideoOptions {
    pub audio: Option<TrackChoice>,
    pub subtitle: Option<TrackChoice>,
    /// Start position in seconds, in decimal with three digits after the point
    /// (mpv `--start=<secs>`). Set only for a position past the beginning.
    pub start_secs: Option<String>,
    /// Extra args spliced after aquafin's own flags (from `[video] mpv_args`).
    pub extra_args: Vec<String>,
}

/// The contents of a [`VideoOptions`].
#[verifier::ext_equal]
pub struct VideoOptionsModel {
    pub audio: Option<TrackChoice>,
    pub subtitle: Option<TrackChoice>,
    pub start_secs: Option<Seq<char>>,
    pub extra_args: Seq<Seq<char>>,
}

impl View for VideoOptions {
    type V = VideoOptionsModel;

    open spec fn view(&self) -> VideoOptionsModel {
        VideoOptionsModel {
            audio: self.audio,
            subtitle: self.subtitle,
            start_secs: self.start_secs.deep_view(),
            extra_args: self.extra_args.deep_view(),
        }
    }
}

impl Default for VideoOptions {
    fn default() -> (options: VideoOptions)
        ensures
            options@ =~= (VideoOptionsModel {
                audio: None,
                subtitle: None,
                start_secs: None,
                extra_args: Seq::empty(),
            }),
    {
        VideoOptions { audio: None, subtitle: None, start_secs: None, extra_args: Vec::new() }
    }
}

/// `flag` with its value, or no argument at all without one.
pub open spec fn flag_args(flag: Seq<char>, value: Option<Seq<char>>) -> Seq<Seq<char>> {
    match value {
        Some(text) => seq![flag + text],
        None => Seq::empty(),
    }
}

/// The flag value of an optional track choice.
pub open spec fn choice_arg(choice: Option<TrackChoice>) -> Option<Seq<char>> {
    match choice {
        Some(picked) => picked.arg(),
        None => None,
    }
}

/// mpv's whole argument list for one launch.
pub open spec fn launch_args(
    socket_path: Seq<char>,
    stream_url: Seq<char>,
    title: Seq<char>,
    options: VideoOptionsModel,
) -> Seq<Seq<char>> {
    seq![
        "--input-ipc-server="@ + socket_path,
        "--force-window=yes"@,
        "--osc=yes"@,
        "--no-terminal"@,
        "--force-media-title="@ + title,
    ] + flag_args("--aid="@, choice_arg(options.audio)) + flag_args(
        "--sid="@,
        choice_arg(options.subtitle),
    ) + flag_args("--start="@, options.start_secs) + options.extra_args + seq![stream_url]
}

fn push_flag(args: &mut Vec<String>, flag: &str, value: Option<String>)
    ensures
        final(args).deep_view() =~= old(args).deep_view() + flag_args(flag@, value.deep_view()),
{
    match value {
        Some(text) => push_deep(args, concat2(flag, text.as_str())),
        None => {},
    }
}

fn choice_value(choice: Option<TrackChoice>) -> (value: Option<String>)
    ensures
        value.deep_view() == choice_arg(choice),
{
    match choice {
        Some(picked) => picked.as_arg(),
        None => None,
    }
}

/// The arguments that launch mpv on `stream_url`: its IPC socket, its window
/// title, the chosen tracks, the start position, the user's own flags, and last
/// the stream itself.
pub fn mpv_args(
    socket_path: &str,
    stream_url: &str,
    title: &str,
    options: &VideoOptions,
) -> (args: Vec<String>)
    ensures
        args.deep_view() == launch_args(socket_path@, stream_url@, title@, options@),
{
    let mut args: Vec<String> = Vec::new();
    push_deep(&mut args, concat2("--input-ipc-server=", socket_path));
    push_deep(&mut args, "--force-window=yes".to_owned());
    push_deep(&mut args, "--osc=yes".to_owned());
    push_deep(&mut args, "--no-terminal".to_owned());
    push_deep(&mut args, concat2("--force-media-title=", title));
    let ghost fixed = seq![
        "--input-ipc-server="@ + socket_path@,
        "--force-window=yes"@,
        "--osc=yes"@,
        "--no-terminal"@,
        "--force-media-title="@ + title@,
    ];
    assert(args.deep_view() =~= fixed);
    push_flag(&mut args, "--aid=", choice_value(options.audio));
    push_flag(&mut args, "--sid=", choice_value(options.subtitle));
    push_flag(&mut args, "--start=", options.start_secs.clone());
    let ghost flags = args.deep_view();
    let ghost extra = options.extra_args.deep_view();
    assert(flags + extra.take(0) =~= flags);
    let mut i: usize = 0;
    while i < options.extra_args.len()
        invariant
            i <= options.extra_args@.len(),
            extra == options.extra_args.deep_view(),
            args.deep_view() == flags + extra.take(i as int),
        decreases options.extra_args@.len() - i,
    {
        push_deep(&mut args, options.extra_args[i].clone());
        proof {
            sequences::lemma_take_push(extra, i as int);
            assert(flags + extra.take(i as int).push(extra[i as int]) =~= (flags + extra.take(
                i as int,
            )).push(extra[i as int]));
        }
        i = i + 1;
    }
    proof {
        sequences::lemma_take_all(extra);
    }
    push_deep(&mut args, stream_url.to_owned());
    args
}

/// A character that is safe in a file name; everything else becomes a dash.
pub open spec fn file_safe(c: char) -> char {
    if ('0' <= c <= '9') || ('a' <= c <= 'z') || ('A' <= c <= 'Z') {
        c
    } else {
        '-'
    }
}

/// The IPC socket's file name for a video, private to one running client.
pub open spec fn socket_name(item_id: Seq<char>, pid: u32) -> Seq<char> {
    "aquafin-mpv-"@ + text::decimal(pid as nat) + "-"@ + item_id.map_values(|c: char| file_safe(c))
        + ".sock"@
}

/// The file name of the IPC socket for `item_id`: the id keeps it readable, the
/// process id keeps concurrent clients from colliding.
pub fn socket_name_for(item_id: &str, pid: u32) -> (name: String)
    ensures
        name@ == socket_name(item_id@, pid),
{
    let mut name = "aquafin-mpv-".to_owned();
    name.append(decimal_text(pid as u64).as_str());
    name.append("-");
    let ghost prefix = name@;
    let chars = chars_of(item_id);
    let mut i: usize = 0;
    while i < chars.len()
        invariant
            i <= chars@.len(),
            chars@ == item_id@,
            name@ =~= prefix + item_id@.take(i as int).map_values(|c: char| file_safe(c)),
        decreases chars@.len() - i,
    {
        let c = chars[i];
        let safe = ('0' <= c && c <= '9') || ('a' <= c && c <= 'z') || ('A' <= c && c <= 'Z');
        name.push(
            if safe {
                c
            } else {
                '-'
            },
        );
        i = i + 1;
    }
    assert(item_id@.take(i as int) =~= item_id@);
    name.append(".sock");
    name
}

/// A socket's file name holds no path separator: it names a file in the
/// directory it is joined to, whatever the item id.
pub proof fn socket_names_have_no_separator(item_id: Seq<char>, pid: u32)
    ensures
        !socket_name(item_id, pid).contains('/'),
{
    reveal_strlit("aquafin-mpv-");
    reveal_strlit("-");
    reveal_strlit(".sock");
    lemma_decimal_digits(pid as nat);
    let head = "aquafin-mpv-"@;
    let digits = text::decimal(pid as nat);
    let dash = "-"@;
    let safe = item_id.map_values(|c: char| file_safe(c));
    let tail = ".sock"@;
    let name = socket_name(item_id, pid);
    assert forall|i: int| 0 <= i < name.len() implies name[i] != '/' by {
        if i < head.len() {
            assert(name[i] == head[i]);
        } else if i < head.len() + digits.len() {
            assert(name[i] == digits[i - head.len()]);
        } else if i < head.len() + digits.len() + dash.len() {
            assert(name[i] == dash[i - head.len() - digits.len()]);
        } else if i < head.len() + digits.len() + dash.len() + safe.len() {
            assert(name[i] == safe[i - head.len() - digits.len() - dash.len()]);
        } else {
            assert(name[i] == tail[i - head.len() - digits.len() - dash.len() - safe.len()]);
        }
    }
}

proof fn lemma_decimal_digits(n: nat)
    ensures
        forall|i: int| 0 <= i < text::decimal(n).len() ==> '0' <= #[trigger] text::decimal(n)[i] <= '9',
    decreases n,
{
    assert forall|i: int| 0 <= i < text::decimal(n).len() implies '0' <= #[trigger] text::decimal(n)[i]
        <= '9' by {
        if n >= 10 {
            lemma_decimal_digits(n / 10);
            if i < text::decimal(n / 10).len() {
                assert(text::decimal(n)[i] == text::decimal(n / 10)[i]);
            }
        }
    }
}

/// A text as a JSON string, quotes and escapes included.
pub uninterp spec fn json_quoted(s: Seq<char>) -> Seq<char>;

/// `serde_json`'s `Display` of a string `Value`: the compact JSON text of the
/// string, a function of the string alone. Its escaping rules stay unspecified.
#[verifier::external_body]
fn json_string(text: &str) -> (json: String)
    ensures
        json@ == json_quoted(text@),
{
    serde_json::Value::from(text).to_string()
}

/// The unsigned integer that a JSON text holds under a top-level key.
pub uninterp spec fn json_u64_at(line: Seq<char>, key: Seq<char>) -> Option<u64>;

/// `serde_json::from_str` followed by `Value::get` and `Value::as_u64`: `None`
/// when the text is no JSON, is no object, lacks the key, or holds something else
/// than an unsigned integer there. A function of the two texts; JSON's grammar
/// stays unspecified.
#[verifier::external_body]
fn json_u64(line: &str, key: &str) -> (number: Option<u64>)
    ensures
        number == json_u64_at(line@, key@),
{
    serde_json::from_str::<serde_json::Value>(line).ok()?.get(key)?.as_u64()
}

/// The number that a JSON text holds under a top-level key, as the bit pattern of
/// a double.
pub uninterp spec fn json_number_at(line: Seq<char>, key: Seq<char>) -> Option<u64>;

/// `serde_json::from_str` followed by `Value::get` and `Value::as_f64`, the double
/// handed out as its bit pattern: `None` when the text is no JSON, is no object,
/// lacks the key, or holds no number there. A function of the two texts; JSON's
/// grammar stays unspecified.
#[verifier::external_body]
fn json_number(line: &str, key: &str) -> (bits: Option<u64>)
    ensures
        bits == json_number_at(line@, key@),
{
    serde_json::from_str::<serde_json::Value>(line).ok()?.get(key)?.as_f64().map(|x| x.to_bits())
}

/// A `get_property` IPC command line around the quoted property name.
pub open spec fn get_property_line(quoted: Seq<char>, request_id: u64) -> Seq<char> {
    "{\"command\":[\"get_property\","@ + quoted + "],\"request_id\":"@ + text::decimal(
        request_id as nat,
    ) + "}\n"@
}

/// Assembles a `get_property` command line from a property name that is already
/// a JSON string.
pub fn get_property_command(quoted: &str, request_id: u64) -> (line: String)
    ensures
        line@ == get_property_line(quoted@, request_id),
{
    let mut line = "{\"command\":[\"get_property\",".to_owned();
    line.append(quoted);
    line.append("],\"request_id\":");
    line.append(decimal_text(request_id).as_str());
    line.append("}\n");
    line
}

/// Serialize a `get_property` IPC command line (newline-terminated, as mpv wants).
pub fn build_get_property(property: &str, request_id: u64) -> (line: String)
    ensures
        line@ == get_property_line(json_quoted(property@), request_id),
{
    let quoted = json_string(property);
    get_property_command(quoted.as_str(), request_id)
}

/// The IPC command line for a relative seek (positive = forward, negative =
/// backward, in seconds).
pub fn seek_command(delta_secs: i32) -> (line: String)
    ensures
        line@ == "{\"command\":[\"seek\","@ + text::signed_decimal(delta_secs as int)
            + ",\"relative\"]}\n"@,
{
    let mut line = "{\"command\":[\"seek\",".to_owned();
    line.append(signed_decimal_text(delta_secs as i64).as_str());
    line.append(",\"relative\"]}\n");
    line
}

/// The IPC command line that toggles mpv's pause property.
pub fn toggle_pause_command() -> (line: String)
    ensures
        line@ == "{\"command\":[\"cycle\",\"pause\"]}\n"@,
{
    "{\"command\":[\"cycle\",\"pause\"]}\n".to_owned()
}

/// What a reply with request id `id` and value `data` means to whoever waits for
/// `request_id`: nothing unless the ids agree, else the value.
pub open spec fn reply_for(id: Option<u64>, data: Option<u64>, request_id: u64) -> Option<
    Option<u64>,
> {
    if id == Some(request_id) {
        Some(data)
    } else {
        None
    }
}

/// Decides [`reply_for`].
pub fn match_reply(id: Option<u64>, data: Option<u64>, request_id: u64) -> (reply: Option<
    Option<u64>,
>)
    ensures
        reply == reply_for(id, data, request_id),
{
    match id {
        Some(got) => if got == request_id {
            Some(data)
        } else {
            None
        },
        None => None,
    }
}

/// Parse one IPC reply line. Returns:
/// - `Some(Some(v))` — the matching reply with a numeric value (a double's bits),
/// - `Some(None)` — the matching reply but with no value (property unavailable),
/// - `None` — not the reply we're waiting for (an event or another request).
pub fn parse_property_response(line: &str, request_id: u64) -> (reply: Option<Option<u64>>)
    ensures
        reply == reply_for(
            json_u64_at(line@, "request_id"@),
            json_number_at(line@, "data"@),
            request_id,
        ),
{
    let id = json_u64(line, "request_id");
    let data = json_number(line, "data");
    match_reply(id, data, request_id)
}

/// How many lines are read while waiting for one reply: mpv interleaves event
/// lines with command replies.
pub const REPLY_LINE_LIMIT: usize = 50;

/// The wait for one reply, line by line.
#[derive(Debug, Clone, Copy, PartialEq, Eq, Structural)]
pub struct ReplyScan {
    pub request_id: u64,
    /// Lines that may still be read.
    pub lines_left: usize,
}

impl ReplyScan {
    /// Waits for the reply to `request_id`.
    pub fn new(request_id: u64) -> (scan: ReplyScan)
        ensures
            scan.request_id == request_id,
            scan.lines_left == REPLY_LINE_LIMIT,
    {
        ReplyScan { request_id, lines_left: REPLY_LINE_LIMIT }
    }

    /// Takes in what one line meant. `Some` ends the wait: with the value of the
    /// matching reply, or without one once the lines are used up.
    pub fn feed(&mut self, reply: Option<Option<u64>>) -> (outcome: Option<Option<u64>>)
        requires
            old(self).lines_left > 0,
        ensures
            final(self).request_id == old(self).request_id,
            final(self).lines_left == old(self).lines_left - 1,
            outcome == match reply {
                Some(value) => Some(value),
                None => if old(self).lines_left == 1 {
                    Some(None::<u64>)
                } else {
                    None
                },
            },
    {
        self.lines_left = self.lines_left - 1;
        match reply {
            Some(value) => Some(value),
            None => if self.lines_left == 0 {
                Some(None)
            } else {
                None
            },
        }
    }
}

} // verus!
