//! The snapshot of a track: what the host reported of it, and the reply
//! that is assembled from the report.

use crate::numeral::{decimal, decimal_text};
use crate::osc::message::{arg_views, text, ArgView, Message, MessageView, OscArg};
use crate::reaper::command::{Command, CommandView};
use vstd::prelude::*;
use vstd::utf8::encode_utf8;

verus! {

/// The tag of an integer item: the letter `i`.
pub const TAG_INT: u8 = 0x69;

/// The tag of a float item: the letter `f`.
pub const TAG_FLOAT: u8 = 0x66;

/// The tag of a text item: the letter `s`.
pub const TAG_TEXT: u8 = 0x73;

/// The tag of a truth value: the letter `b`.
pub const TAG_BOOL: u8 = 0x62;

/// The tag of an item of any other kind: the letter `n`.
pub const TAG_NONE: u8 = 0x6e;

/// The four bytes of `value`, most significant first.
pub open spec fn be_bytes(value: u32) -> Seq<u8> {
    seq![
        (value / 0x100_0000) as u8,
        (value / 0x1_0000 % 0x100) as u8,
        (value / 0x100 % 0x100) as u8,
        (value % 0x100) as u8,
    ]
}

/// A length as the 32-bit word that is written for it: its low 32 bits.
pub open spec fn length_word(len: nat) -> u32 {
    (len % 0x1_0000_0000) as u32
}

/// An integer as the 32-bit word that is written for it, in two's
/// complement.
pub open spec fn int_word(value: i32) -> u32 {
    if value >= 0 {
        value as u32
    } else {
        (value + 0x1_0000_0000) as u32
    }
}

/// The bytes of one item: a tag, then the value. An integer and a float are
/// four bytes, most significant first; a text is the length of its UTF-8
/// form as such a word, then that form; a truth value is one byte, 1 or 0.
/// An item of another kind is the tag `n` alone.
pub open spec fn item_bytes(item: ArgView) -> Seq<u8> {
    match item {
        ArgView::Int(i) => seq![TAG_INT] + be_bytes(int_word(i)),
        ArgView::Float(bits) => seq![TAG_FLOAT] + be_bytes(bits),
        ArgView::String(s) => seq![TAG_TEXT] + be_bytes(length_word(encode_utf8(s).len()))
            + encode_utf8(s),
        ArgView::Bool(b) => seq![
            TAG_BOOL,
            if b {
                1u8
            } else {
                0u8
            },
        ],
        _ => seq![TAG_NONE],
    }
}

/// The bytes of the items, one after the other.
pub open spec fn items_bytes(items: Seq<ArgView>) -> Seq<u8>
    decreases items.len(),
{
    if items.len() == 0 {
        Seq::empty()
    } else {
        items_bytes(items.drop_last()) + item_bytes(items.last())
    }
}

/// A list of items as bytes: the number of items as a 32-bit word, then the
/// bytes of each item.
pub open spec fn serialized(items: Seq<ArgView>) -> Seq<u8> {
    be_bytes(length_word(items.len())) + items_bytes(items)
}

fn push_word(bytes: &mut Vec<u8>, value: u32)
    ensures
        final(bytes)@ == old(bytes)@ + be_bytes(value),
{
    bytes.push((value / 0x100_0000) as u8);
    bytes.push((value / 0x1_0000 % 0x100) as u8);
    bytes.push((value / 0x100 % 0x100) as u8);
    bytes.push((value % 0x100) as u8);
}

fn word_of_length(len: usize) -> (word: u32)
    ensures
        word == length_word(len as nat),
{
    (len as u64 % 0x1_0000_0000) as u32
}

fn word_of_int(value: i32) -> (word: u32)
    ensures
        word == int_word(value),
{
    if value >= 0 {
        value as u32
    } else {
        (value as i64 + 0x1_0000_0000) as u32
    }
}

fn push_item(bytes: &mut Vec<u8>, item: &OscArg)
    ensures
        final(bytes)@ == old(bytes)@ + item_bytes(item@),
{
    match item {
        OscArg::Int(i) => {
            bytes.push(TAG_INT);
            push_word(bytes, word_of_int(*i));
        },
        OscArg::Float(bits) => {
            bytes.push(TAG_FLOAT);
            push_word(bytes, *bits);
        },
        OscArg::String(s) => {
            bytes.push(TAG_TEXT);
            let utf8 = s.as_str().as_bytes();
            push_word(bytes, word_of_length(utf8.len()));
            bytes.extend_from_slice(utf8);
        },
        OscArg::Bool(b) => {
            bytes.push(TAG_BOOL);
            bytes.push(
                if *b {
                    1
                } else {
                    0
                },
            );
        },
        _ => {
            bytes.push(TAG_NONE);
        },
    }
}

/// Writes a list of items as bytes: see [`serialized`].
pub fn serialize_osc_array(items: &Vec<OscArg>) -> (bytes: Vec<u8>)
    ensures
        bytes@ == serialized(arg_views(items@)),
{
    let mut bytes: Vec<u8> = Vec::new();
    push_word(&mut bytes, word_of_length(items.len()));
    let ghost views = arg_views(items@);
    let mut i: usize = 0;
    while i < items.len()
        invariant
            i <= items.len(),
            views == arg_views(items@),
            bytes@ == be_bytes(length_word(items.len() as nat)) + items_bytes(views.take(i as int)),
        decreases items.len() - i,
    {
        push_item(&mut bytes, &items[i]);
        proof {
            let next = views.take(i + 1);
            assert(next.drop_last() =~= views.take(i as int));
        }
        i += 1;
    }
    assert(views.take(i as int) =~= views);
    bytes
}

/// The most parameters that are reported of one effect.
pub const MAX_SCANNED_PARAMS: usize = 20;

/// What asking the host for a text came to.
#[derive(Debug, PartialEq, Eq)]
pub enum Probe<T> {
    /// The host does not offer the accessor.
    Absent,
    /// The accessor reported that it has no value.
    Failed,
    /// The value.
    Got(T),
}

/// Value, lower and upper bound of an effect parameter, each as the bits of
/// a 32-bit float.
#[derive(Clone, Copy, Debug, PartialEq, Eq, Structural)]
pub struct ParamRange {
    pub value: u32,
    pub min: u32,
    pub max: u32,
}

/// One parameter of an effect, as the host reported it.
#[derive(Debug, PartialEq, Eq)]
pub struct ParamScan {
    pub name: Probe<String>,
    /// `None` where the host does not offer the accessor.
    pub range: Option<ParamRange>,
    /// The value as the host words it.
    pub formatted: Probe<String>,
}

/// One effect slot, as the host reported it.
#[derive(Debug, PartialEq, Eq)]
pub struct FxScan {
    pub name: Probe<String>,
    /// `None` where the host does not offer the accessor.
    pub enabled: Option<bool>,
    pub preset: Probe<String>,
    /// The number of parameters that the effect has; `None` where the host
    /// does not offer the accessor.
    pub param_count: Option<i32>,
    /// The leading parameters, in order, as far as they were read.
    pub params: Vec<ParamScan>,
}

/// Where a send leads.
#[derive(Debug, PartialEq, Eq)]
pub enum SendDest {
    /// The send has no destination track.
    Nowhere,
    /// The send leads to a track. `index` is its place in the track list,
    /// or -1 if it is not in the list; `None` where the host does not offer
    /// the accessors that walk the list.
    Track { name: Probe<String>, index: Option<i32> },
}

/// One output send, as the host reported it. Volume and pan are the bits of
/// 32-bit floats.
#[derive(Debug, PartialEq, Eq)]
pub struct SendInfo {
    pub dest: SendDest,
    pub volume: u32,
    pub pan: u32,
    pub mute: bool,
}

/// The numeric properties of a track. Volume and pan are the bits of 32-bit
/// floats; the others are as the host stores them.
#[derive(Clone, Copy, Debug, PartialEq, Eq, Structural)]
pub struct TrackProperties {
    pub volume: u32,
    pub pan: u32,
    pub mute: bool,
    pub solo: i32,
    pub rec_arm: i32,
    pub rec_input: i32,
    pub rec_mode: i32,
    pub rec_monitor: i32,
}

/// Everything that the host reported of one track. A part is `None`, or
/// `Probe::Absent`, where the host does not offer the accessor for it.
#[derive(Debug, PartialEq, Eq)]
pub struct TrackScan {
    pub name: Probe<String>,
    pub properties: Option<TrackProperties>,
    pub color: Option<i32>,
    /// The effect slots, in order.
    pub fx: Option<Vec<FxScan>>,
    /// The output sends, in order; `None` inside for a send of which
    /// nothing could be read, because the host does not offer the accessor.
    pub sends: Option<Vec<Option<SendInfo>>>,
}

/// The text that is reported for a probe: the empty text where the accessor
/// is absent, `on_failure` where it failed, else the text it gave.
pub open spec fn probe_text(probe: Probe<String>, on_failure: Seq<char>) -> Seq<char> {
    match probe {
        Probe::Absent => Seq::empty(),
        Probe::Failed => on_failure,
        Probe::Got(s) => s@,
    }
}

/// The five items of the parameter at place `index` of its effect: name
/// (`Param ` and the place, where the host has none), value, lower bound,
/// upper bound, and the value in words.
pub open spec fn param_items(param: ParamScan, index: nat) -> Seq<ArgView> {
    let range = match param.range {
        Some(r) => r,
        None => ParamRange { value: 0, min: 0, max: 0 },
    };
    seq![
        ArgView::String(probe_text(param.name, "Param "@ + decimal(index))),
        ArgView::Float(range.value),
        ArgView::Float(range.min),
        ArgView::Float(range.max),
        ArgView::String(probe_text(param.formatted, Seq::empty())),
    ]
}

/// The number of parameter records that are reported of an effect with
/// `param_count` parameters: one for each, but none for a count that is
/// negative or unknown, and no more than [`MAX_SCANNED_PARAMS`].
pub open spec fn record_count(param_count: Option<i32>) -> int {
    match param_count {
        Some(n) if n > MAX_SCANNED_PARAMS => MAX_SCANNED_PARAMS as int,
        Some(n) if n > 0 => n as int,
        _ => 0,
    }
}

/// The parameter at place `index`, or one of which nothing is known where
/// the report does not reach that far.
pub open spec fn param_or_unknown(params: Seq<ParamScan>, index: int) -> ParamScan {
    if 0 <= index < params.len() {
        params[index]
    } else {
        ParamScan { name: Probe::Absent, range: None, formatted: Probe::Absent }
    }
}

/// The items of the first `n` parameters.
pub open spec fn params_items(params: Seq<ParamScan>, n: int) -> Seq<ArgView>
    decreases n,
{
    if n <= 0 {
        Seq::empty()
    } else {
        params_items(params, n - 1) + param_items(
            param_or_unknown(params, n - 1),
            (n - 1) as nat,
        )
    }
}

/// The items of one effect: name (`Unknown` where the host has none),
/// whether it is enabled, preset name, number of parameters, then one
/// record for each of the first [`record_count`] parameters. The number of
/// records follows from the announced number of parameters alone: a
/// parameter that the report lacks is a record of defaults, and what the
/// report holds beyond is left out.
pub open spec fn fx_items(fx: FxScan) -> Seq<ArgView> {
    seq![
        ArgView::String(probe_text(fx.name, "Unknown"@)),
        ArgView::Bool(
            match fx.enabled {
                Some(b) => b,
                None => false,
            },
        ),
        ArgView::String(probe_text(fx.preset, Seq::empty())),
        ArgView::Int(
            match fx.param_count {
                Some(n) => n,
                None => 0,
            },
        ),
    ] + params_items(fx.params@, record_count(fx.param_count))
}

/// The items of the first `n` effects.
pub open spec fn fxs_items(items: Seq<FxScan>, n: int) -> Seq<ArgView>
    decreases n,
{
    if n <= 0 {
        Seq::empty()
    } else {
        fxs_items(items, n - 1) + fx_items(items[n - 1])
    }
}

/// The number that is announced for a list of `len` records, which is the
/// number of records that follow: `len`, as far as a 32-bit integer goes.
pub open spec fn announced(len: nat) -> i32 {
    if len > i32::MAX {
        i32::MAX
    } else {
        len as i32
    }
}

/// The items of the effect list: the number of effects, then each effect. A
/// list that could not be read is the number 0 alone.
pub open spec fn fx_list_items(list: Option<Vec<FxScan>>) -> Seq<ArgView> {
    match list {
        Some(items) => seq![ArgView::Int(announced(items@.len()))] + fxs_items(
            items@,
            announced(items@.len()) as int,
        ),
        None => seq![ArgView::Int(0)],
    }
}

/// The five items of one send: name and place of the destination (`None`
/// and -1 where there is none, `Unknown` where the host has no name),
/// volume, pan, and whether it is muted.
pub open spec fn send_items(send: Option<SendInfo>) -> Seq<ArgView> {
    match send {
        Some(info) => seq![
            ArgView::String(
                match info.dest {
                    SendDest::Nowhere => "None"@,
                    SendDest::Track { name, index } => probe_text(name, "Unknown"@),
                },
            ),
            ArgView::Int(
                match info.dest {
                    SendDest::Nowhere => -1i32,
                    SendDest::Track { name, index } => match index {
                        Some(i) => i,
                        None => 0,
                    },
                },
            ),
            ArgView::Float(info.volume),
            ArgView::Float(info.pan),
            ArgView::Bool(info.mute),
        ],
        None => seq![
            ArgView::String(Seq::empty()),
            ArgView::Int(0),
            ArgView::Float(0),
            ArgView::Float(0),
            ArgView::Bool(false),
        ],
    }
}

/// The items of the first `n` sends.
pub open spec fn sends_items(items: Seq<Option<SendInfo>>, n: int) -> Seq<ArgView>
    decreases n,
{
    if n <= 0 {
        Seq::empty()
    } else {
        sends_items(items, n - 1) + send_items(items[n - 1])
    }
}

/// The items of the send list: the number of sends, then each send. A list
/// that could not be read is the number 0 alone.
pub open spec fn send_list_items(list: Option<Vec<Option<SendInfo>>>) -> Seq<ArgView> {
    match list {
        Some(items) => seq![ArgView::Int(announced(items@.len()))] + sends_items(
            items@,
            announced(items@.len()) as int,
        ),
        None => seq![ArgView::Int(0)],
    }
}

/// The eight items of the numeric properties: volume, pan, mute, solo,
/// record arm, record input, record mode, record monitor. Solo and record
/// arm are reported as set when the host stores a positive number.
pub open spec fn property_items(properties: Option<TrackProperties>) -> Seq<ArgView> {
    let p = match properties {
        Some(p) => p,
        None => TrackProperties {
            volume: 0,
            pan: 0,
            mute: false,
            solo: 0,
            rec_arm: 0,
            rec_input: 0,
            rec_mode: 0,
            rec_monitor: 0,
        },
    };
    seq![
        ArgView::Float(p.volume),
        ArgView::Float(p.pan),
        ArgView::Bool(p.mute),
        ArgView::Bool(p.solo > 0),
        ArgView::Bool(p.rec_arm > 0),
        ArgView::Int(p.rec_input),
        ArgView::Int(p.rec_mode),
        ArgView::Int(p.rec_monitor),
    ]
}

/// The reply to a scan of the track at `index` that the host reported as
/// `scan`: the word `success`, the index, the name, the numeric properties,
/// the color, and the effect list and the send list as two blobs. Where the
/// host lacks an accessor, the part it would have given is the empty text,
/// zero or false.
pub open spec fn scan_success(index: i32, scan: TrackScan) -> MessageView {
    MessageView {
        addr: "/track/scan/response"@,
        args: seq![
            ArgView::String("success"@),
            ArgView::Int(index),
            ArgView::String(probe_text(scan.name, Seq::empty())),
        ] + property_items(scan.properties) + seq![
            ArgView::Int(
                match scan.color {
                    Some(c) => c,
                    None => 0,
                },
            ),
            ArgView::Blob(serialized(fx_list_items(scan.fx))),
            ArgView::Blob(serialized(send_list_items(scan.sends))),
        ],
    }
}

/// The reply that reports `reason` as the failure of a scan.
pub open spec fn scan_failure(reason: Seq<char>) -> MessageView {
    MessageView {
        addr: "/track/scan/response"@,
        args: seq![ArgView::String("error"@), ArgView::String(reason)],
    }
}

fn push_arg(items: &mut Vec<OscArg>, arg: OscArg)
    ensures
        arg_views(final(items)@) == arg_views(old(items)@).push(arg@),
{
    items.push(arg);
}

fn probe_arg(probe: &Probe<String>, on_failure: &str) -> (arg: OscArg)
    ensures
        arg@ == ArgView::String(probe_text(*probe, on_failure@)),
{
    match probe {
        Probe::Absent => OscArg::String(String::new()),
        Probe::Failed => text(on_failure),
        Probe::Got(s) => OscArg::String(s.clone()),
    }
}

fn push_param(items: &mut Vec<OscArg>, param: &ParamScan, index: u32)
    ensures
        arg_views(final(items)@) == arg_views(old(items)@) + param_items(*param, index as nat),
{
    let fallback = "Param ".to_owned().concat(decimal_text(index).as_str());
    let range = match param.range {
        Some(r) => r,
        None => ParamRange { value: 0, min: 0, max: 0 },
    };
    push_arg(items, probe_arg(&param.name, fallback.as_str()));
    push_arg(items, OscArg::Float(range.value));
    push_arg(items, OscArg::Float(range.min));
    push_arg(items, OscArg::Float(range.max));
    push_arg(items, probe_arg(&param.formatted, ""));
    proof {
        reveal_strlit("");
        assert(""@ =~= Seq::<char>::empty());
    }
}

/// The number of parameters to read of an effect that has `param_count` of
/// them: see [`record_count`].
pub fn params_to_scan(param_count: i32) -> (n: usize)
    ensures
        n == record_count(Some(param_count)),
{
    if param_count < 0 {
        0
    } else if param_count as usize > MAX_SCANNED_PARAMS {
        MAX_SCANNED_PARAMS
    } else {
        param_count as usize
    }
}

fn announce(len: usize) -> (count: i32)
    ensures
        count == announced(len as nat),
{
    if len > i32::MAX as usize {
        i32::MAX
    } else {
        len as i32
    }
}

fn push_fx(items: &mut Vec<OscArg>, fx: &FxScan)
    ensures
        arg_views(final(items)@) == arg_views(old(items)@) + fx_items(*fx),
{
    push_arg(items, probe_arg(&fx.name, "Unknown"));
    push_arg(
        items,
        OscArg::Bool(
            match fx.enabled {
                Some(b) => b,
                None => false,
            },
        ),
    );
    push_arg(items, probe_arg(&fx.preset, ""));
    push_arg(
        items,
        OscArg::Int(
            match fx.param_count {
                Some(n) => n,
                None => 0,
            },
        ),
    );
    let n: usize = match fx.param_count {
        Some(count) => params_to_scan(count),
        None => 0,
    };
    let unknown = ParamScan { name: Probe::Absent, range: None, formatted: Probe::Absent };
    let ghost head = arg_views(items@);
    proof {
        reveal_strlit("");
        assert(""@ =~= Seq::<char>::empty());
    }
    let mut i: usize = 0;
    while i < n
        invariant
            i <= n <= MAX_SCANNED_PARAMS,
            n == record_count(fx.param_count),
            unknown == (ParamScan { name: Probe::Absent, range: None, formatted: Probe::Absent }),
            arg_views(items@) == head + params_items(fx.params@, i as int),
        decreases n - i,
    {
        if i < fx.params.len() {
            push_param(items, &fx.params[i], i as u32);
        } else {
            push_param(items, &unknown, i as u32);
        }
        i += 1;
    }
}

fn fx_blob(list: &Option<Vec<FxScan>>) -> (blob: Vec<u8>)
    ensures
        blob@ == serialized(fx_list_items(*list)),
{
    let mut items: Vec<OscArg> = Vec::new();
    match list {
        Some(effects) => {
            let count = announce(effects.len());
            push_arg(&mut items, OscArg::Int(count));
            let ghost head = arg_views(items@);
            assert(head =~= seq![ArgView::Int(count)]);
            let mut i: usize = 0;
            while i < count as usize
                invariant
                    i <= count <= effects.len(),
                    arg_views(items@) == head + fxs_items(effects@, i as int),
                decreases count - i,
            {
                push_fx(&mut items, &effects[i]);
                i += 1;
            }
        },
        None => {
            push_arg(&mut items, OscArg::Int(0));
            assert(arg_views(items@) =~= seq![ArgView::Int(0)]);
        },
    }
    serialize_osc_array(&items)
}

fn push_send(items: &mut Vec<OscArg>, send: &Option<SendInfo>)
    ensures
        arg_views(final(items)@) == arg_views(old(items)@) + send_items(*send),
{
    match send {
        Some(info) => {
            match &info.dest {
                SendDest::Nowhere => {
                    push_arg(items, text("None"));
                    push_arg(items, OscArg::Int(-1));
                },
                SendDest::Track { name, index } => {
                    push_arg(items, probe_arg(name, "Unknown"));
                    push_arg(
                        items,
                        OscArg::Int(
                            match index {
                                Some(i) => *i,
                                None => 0,
                            },
                        ),
                    );
                },
            }
            push_arg(items, OscArg::Float(info.volume));
            push_arg(items, OscArg::Float(info.pan));
            push_arg(items, OscArg::Bool(info.mute));
        },
        None => {
            push_arg(items, OscArg::String(String::new()));
            push_arg(items, OscArg::Int(0));
            push_arg(items, OscArg::Float(0));
            push_arg(items, OscArg::Float(0));
            push_arg(items, OscArg::Bool(false));
        },
    }
}

fn send_blob(list: &Option<Vec<Option<SendInfo>>>) -> (blob: Vec<u8>)
    ensures
        blob@ == serialized(send_list_items(*list)),
{
    let mut items: Vec<OscArg> = Vec::new();
    match list {
        Some(sends) => {
            let count = announce(sends.len());
            push_arg(&mut items, OscArg::Int(count));
            let ghost head = arg_views(items@);
            assert(head =~= seq![ArgView::Int(count)]);
            let mut i: usize = 0;
            while i < count as usize
                invariant
                    i <= count <= sends.len(),
                    arg_views(items@) == head + sends_items(sends@, i as int),
                decreases count - i,
            {
                push_send(&mut items, &sends[i]);
                i += 1;
            }
        },
        None => {
            push_arg(&mut items, OscArg::Int(0));
            assert(arg_views(items@) =~= seq![ArgView::Int(0)]);
        },
    }
    serialize_osc_array(&items)
}

/// The place of the track with handle `dest` in the list of track handles:
/// the first place that holds it, or -1 if none does.
pub fn destination_index(tracks: &Vec<u64>, dest: u64) -> (index: i32)
    requires
        tracks.len() <= i32::MAX,
    ensures
        index == -1 ==> !tracks@.contains(dest),
        index != -1 ==> 0 <= index < tracks.len() && tracks[index as int] == dest && forall|j: int|
            0 <= j < index ==> tracks[j] != dest,
{
    let mut i: usize = 0;
    while i < tracks.len()
        invariant
            i <= tracks.len(),
            tracks.len() <= i32::MAX,
            forall|j: int| 0 <= j < i ==> tracks[j] != dest,
        decreases tracks.len() - i,
    {
        if tracks[i] == dest {
            return i as i32;
        }
        i += 1;
    }
    -1
}

/// The reply that reports `reason` as the failure of a scan.
pub fn error_response(reason: &str) -> (reply: Message)
    ensures
        reply@ == scan_failure(reason@),
{
    let mut args: Vec<OscArg> = Vec::new();
    push_arg(&mut args, text("error"));
    push_arg(&mut args, text(reason));
    let reply = Message { addr: "/track/scan/response".to_owned(), args };
    assert(reply@.args =~= scan_failure(reason@).args);
    reply
}

/// What a request to scan a track asks for. The track is the integer at
/// place 0; a request without one, or with a negative one, is answered at
/// once with the failure `Invalid track index`.
pub open spec fn scan_track_command(msg: MessageView) -> CommandView {
    match msg.int_at(0) {
        Some(index) if index >= 0 => CommandView::ScanTrack { index },
        _ => CommandView::Reply(scan_failure("Invalid track index"@)),
    }
}

/// Reads a request to scan a track: see [`scan_track_command`].
pub fn handle_scan_track(msg: &Message) -> (command: Command)
    ensures
        command@ == scan_track_command(msg@),
{
    match msg.int_arg(0) {
        Some(index) => {
            if index >= 0 {
                Command::ScanTrack { index }
            } else {
                Command::Reply(error_response("Invalid track index"))
            }
        },
        None => Command::Reply(error_response("Invalid track index")),
    }
}

/// The reply to a scan of the track at `index`. `scan` is what the host
/// reported of the track, or `None` if the host has no track there. A reply
/// is built in either case: `Track not found` for a missing track, else the
/// full report of [`scan_success`].
pub fn scan_response(index: i32, scan: Option<&TrackScan>) -> (reply: Message)
    ensures
        reply@ == match scan {
            Some(found) => scan_success(index, *found),
            None => scan_failure("Track not found"@),
        },
{
    match scan {
        None => error_response("Track not found"),
        Some(found) => {
            let p = match found.properties {
                Some(p) => p,
                None => TrackProperties {
                    volume: 0,
                    pan: 0,
                    mute: false,
                    solo: 0,
                    rec_arm: 0,
                    rec_input: 0,
                    rec_mode: 0,
                    rec_monitor: 0,
                },
            };
            let mut args: Vec<OscArg> = Vec::new();
            push_arg(&mut args, text("success"));
            push_arg(&mut args, OscArg::Int(index));
            push_arg(&mut args, probe_arg(&found.name, ""));
            push_arg(&mut args, OscArg::Float(p.volume));
            push_arg(&mut args, OscArg::Float(p.pan));
            push_arg(&mut args, OscArg::Bool(p.mute));
            push_arg(&mut args, OscArg::Bool(p.solo > 0));
            push_arg(&mut args, OscArg::Bool(p.rec_arm > 0));
            push_arg(&mut args, OscArg::Int(p.rec_input));
            push_arg(&mut args, OscArg::Int(p.rec_mode));
            push_arg(&mut args, OscArg::Int(p.rec_monitor));
            push_arg(
                &mut args,
                OscArg::Int(
                    match found.color {
                        Some(c) => c,
                        None => 0,
                    },
                ),
            );
            push_arg(&mut args, OscArg::Blob(fx_blob(&found.fx)));
            push_arg(&mut args, OscArg::Blob(send_blob(&found.sends)));
            let reply = Message { addr: "/track/scan/response".to_owned(), args };
            proof {
                reveal_strlit("");
                assert(""@ =~= Seq::<char>::empty());
                assert(reply@.args =~= scan_success(index, *found).args);
            }
            reply
        },
    }
}

} // verus!
