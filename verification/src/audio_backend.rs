//! Capture devices: how the sources of a sound server, or the endpoints of
//! a host without one, become the list offered to the user, and how the
//! application's own stream is found and routed to the selected source.

use vstd::prelude::*;
use crate::messages::{DeviceListItem, DeviceListItemView, device_views, option_text};
use crate::text::{
    append_decimal, chars_of, contains_chars, decimal, decimal_text, is_substring,
};

verus! {

/// What the sound server tells of one capture source.
#[derive(Clone, Debug)]
pub struct SourceInfo {
    /// Identifier of the source.
    pub name: Option<String>,
    /// Label of the source.
    pub description: Option<String>,
    /// The output that the source mirrors, where it mirrors one.
    pub monitor: Option<u32>,
}

/// Mathematical value of a [`SourceInfo`].
pub struct SourceInfoView {
    pub name: Option<Seq<char>>,
    pub description: Option<Seq<char>>,
    pub monitor: Option<u32>,
}

impl View for SourceInfo {
    type V = SourceInfoView;

    open spec fn view(&self) -> SourceInfoView {
        SourceInfoView {
            name: option_text(self.name),
            description: option_text(self.description),
            monitor: self.monitor,
        }
    }
}

/// Values of a sequence of sources, in the same order.
pub open spec fn source_views(sources: Seq<SourceInfo>) -> Seq<SourceInfoView> {
    sources.map_values(|source: SourceInfo| source@)
}

/// What the sound server reports when it is asked for its sources.
#[derive(Clone, Debug)]
pub struct ServerState {
    /// Identifier of the source that the server uses by default.
    pub default_source_name: Option<String>,
    /// The sources, in the server's order.
    pub sources: Vec<SourceInfo>,
}

/// A source can be listed: it has an identifier and a label.
pub open spec fn is_listable(source: SourceInfoView) -> bool {
    source.name is Some && source.description is Some
}

/// A listable source is the server's default.
pub open spec fn is_default_source(source: SourceInfoView, default: Option<Seq<char>>) -> bool {
    is_listable(source) && source.name == default
}

/// A listable source, not the default, that mirrors an output.
pub open spec fn is_monitor_source(source: SourceInfoView, default: Option<Seq<char>>) -> bool {
    is_listable(source) && source.name != default && source.monitor is Some
}

/// A listable source, not the default, that mirrors no output.
pub open spec fn is_regular_source(source: SourceInfoView, default: Option<Seq<char>>) -> bool {
    is_listable(source) && source.name != default && source.monitor is None
}

/// The list entry of a listable source.
pub open spec fn list_item(source: SourceInfoView) -> DeviceListItemView {
    DeviceListItemView {
        inner_name: source.name->0,
        display_name: source.description->0,
        is_monitor: source.monitor is Some,
    }
}

/// The entries of the default sources among `sources`, in the server's
/// order.
pub open spec fn default_items(sources: Seq<SourceInfoView>, default: Option<Seq<char>>) -> Seq<
    DeviceListItemView,
> {
    sources.filter(|source: SourceInfoView| is_default_source(source, default)).map_values(
        |source: SourceInfoView| list_item(source),
    )
}

/// The entries of the regular sources among `sources`, in the server's
/// order.
pub open spec fn regular_items(sources: Seq<SourceInfoView>, default: Option<Seq<char>>) -> Seq<
    DeviceListItemView,
> {
    sources.filter(|source: SourceInfoView| is_regular_source(source, default)).map_values(
        |source: SourceInfoView| list_item(source),
    )
}

/// The entries of the monitor sources among `sources`, in the server's
/// order.
pub open spec fn monitor_items(sources: Seq<SourceInfoView>, default: Option<Seq<char>>) -> Seq<
    DeviceListItemView,
> {
    sources.filter(|source: SourceInfoView| is_monitor_source(source, default)).map_values(
        |source: SourceInfoView| list_item(source),
    )
}

/// The device list made of `sources`: the default source first, then the
/// regular sources, then the monitors, each group in the server's order.
/// Should the server name several sources as its default, the one it
/// reported last comes first.
pub open spec fn device_list(sources: Seq<SourceInfoView>, default: Option<Seq<char>>) -> Seq<
    DeviceListItemView,
> {
    default_items(sources, default).reverse() + regular_items(sources, default) + monitor_items(
        sources,
        default,
    )
}

proof fn lemma_items_step(
    sources: Seq<SourceInfoView>,
    next: SourceInfoView,
    default: Option<Seq<char>>,
)
    ensures
        default_items(sources.push(next), default) == if is_default_source(next, default) {
            default_items(sources, default).push(list_item(next))
        } else {
            default_items(sources, default)
        },
        regular_items(sources.push(next), default) == if is_regular_source(next, default) {
            regular_items(sources, default).push(list_item(next))
        } else {
            regular_items(sources, default)
        },
        monitor_items(sources.push(next), default) == if is_monitor_source(next, default) {
            monitor_items(sources, default).push(list_item(next))
        } else {
            monitor_items(sources, default)
        },
{
    let item = |source: SourceInfoView| list_item(source);
    let is_default = |source: SourceInfoView| is_default_source(source, default);
    let is_regular = |source: SourceInfoView| is_regular_source(source, default);
    let is_monitor = |source: SourceInfoView| is_monitor_source(source, default);
    sources.lemma_filter_push(next, is_default);
    sources.lemma_filter_push(next, is_regular);
    sources.lemma_filter_push(next, is_monitor);
    assert(sources.filter(is_default).push(next).map_values(item) =~= sources.filter(
        is_default,
    ).map_values(item).push(list_item(next)));
    assert(sources.filter(is_regular).push(next).map_values(item) =~= sources.filter(
        is_regular,
    ).map_values(item).push(list_item(next)));
    assert(sources.filter(is_monitor).push(next).map_values(item) =~= sources.filter(
        is_monitor,
    ).map_values(item).push(list_item(next)));
}

fn same_name(name: &String, default: &Option<String>) -> (same: bool)
    ensures
        same == (Some(name@) == option_text(*default)),
{
    match default {
        Some(other) => *name == *other,
        None => false,
    }
}

/// Orders the sources that the server reported into the device list.
///
/// Sources without identifier or label are left out. The server's default
/// source comes first, the regular sources follow, the monitors come last.
pub fn order_devices(sources: &Vec<SourceInfo>, default: &Option<String>) -> (devices: Vec<
    DeviceListItem,
>)
    ensures
        device_views(devices@) == device_list(source_views(sources@), option_text(*default)),
{
    let mut device_names: Vec<DeviceListItem> = Vec::new();
    let mut monitor_device_names: Vec<DeviceListItem> = Vec::new();
    let ghost all = source_views(sources@);
    let ghost wanted = option_text(*default);
    let mut i: usize = 0;
    assert(all.take(0) =~= Seq::<SourceInfoView>::empty());
    assert(device_views(device_names@) =~= default_items(all.take(0), wanted).reverse()
        + regular_items(all.take(0), wanted));
    assert(device_views(monitor_device_names@) =~= monitor_items(all.take(0), wanted));
    while i < sources.len()
        invariant
            i <= sources.len(),
            all == source_views(sources@),
            wanted == option_text(*default),
            device_views(device_names@) == default_items(all.take(i as int), wanted).reverse()
                + regular_items(all.take(i as int), wanted),
            device_views(monitor_device_names@) == monitor_items(all.take(i as int), wanted),
        decreases sources.len() - i,
    {
        let source = &sources[i];
        let ghost seen = all.take(i as int);
        let ghost before = device_names@;
        let ghost monitors_before = monitor_device_names@;
        proof {
            assert(all.take(i as int + 1) =~= seen.push(source@));
            lemma_items_step(seen, source@, wanted);
        }
        match (&source.description, &source.name) {
            (Some(description), Some(name)) => {
                if same_name(name, default) {
                    let item = DeviceListItem {
                        inner_name: name.clone(),
                        display_name: description.clone(),
                        is_monitor: source.monitor.is_some(),
                    };
                    assert(item@ == list_item(source@));
                    device_names.insert(0, item);
                    assert(device_views(device_names@) =~= seq![item@] + device_views(before));
                    assert(default_items(seen, wanted).push(item@).reverse() =~= seq![item@]
                        + default_items(seen, wanted).reverse());
                    assert(device_views(device_names@) =~= default_items(
                        all.take(i as int + 1),
                        wanted,
                    ).reverse() + regular_items(all.take(i as int + 1), wanted));
                } else if source.monitor.is_some() {
                    let item = DeviceListItem {
                        inner_name: name.clone(),
                        display_name: description.clone(),
                        is_monitor: true,
                    };
                    assert(item@ == list_item(source@));
                    monitor_device_names.push(item);
                    assert(device_views(monitor_device_names@) =~= device_views(
                        monitors_before,
                    ).push(item@));
                } else {
                    let item = DeviceListItem {
                        inner_name: name.clone(),
                        display_name: description.clone(),
                        is_monitor: false,
                    };
                    assert(item@ == list_item(source@));
                    device_names.push(item);
                    assert(device_views(device_names@) =~= device_views(before).push(item@));
                    assert(device_views(device_names@) =~= default_items(
                        all.take(i as int + 1),
                        wanted,
                    ).reverse() + regular_items(all.take(i as int + 1), wanted));
                }
            },
            _ => {
                assert(!is_listable(source@));
            },
        }
        i += 1;
    }
    assert(all.take(sources.len() as int) =~= all);
    let ghost front = device_names@;
    let ghost back = monitor_device_names@;
    device_names.append(&mut monitor_device_names);
    assert(device_views(device_names@) =~= device_views(front) + device_views(back));
    device_names
}

/// The device list of a sound server: its sources in order where it
/// reported them, and no device where it did not.
pub fn list_devices(state: &Option<ServerState>) -> (devices: Vec<DeviceListItem>)
    ensures
        device_views(devices@) == match *state {
            Some(reported) => device_list(
                source_views(reported.sources@),
                option_text(reported.default_source_name),
            ),
            None => Seq::<DeviceListItemView>::empty(),
        },
{
    match state {
        Some(reported) => order_devices(&reported.sources, &reported.default_source_name),
        None => {
            let devices: Vec<DeviceListItem> = Vec::new();
            assert(device_views(devices@) =~= Seq::<DeviceListItemView>::empty());
            devices
        },
    }
}

/// One stream that an application has open on the sound server.
#[derive(Clone, Debug)]
pub struct StreamInfo {
    /// Index by which the server knows the stream.
    pub index: u32,
    /// The stream's properties, written out as text.
    pub proplist: String,
}

/// Mathematical value of a [`StreamInfo`].
pub struct StreamInfoView {
    pub index: u32,
    pub proplist: Seq<char>,
}

impl View for StreamInfo {
    type V = StreamInfoView;

    open spec fn view(&self) -> StreamInfoView {
        StreamInfoView { index: self.index, proplist: self.proplist@ }
    }
}

/// Values of a sequence of streams, in the same order.
pub open spec fn stream_views(streams: Seq<StreamInfo>) -> Seq<StreamInfoView> {
    streams.map_values(|stream: StreamInfo| stream@)
}

/// Characters of a sequence of texts, in the same order.
pub open spec fn text_views(texts: Seq<String>) -> Seq<Seq<char>> {
    texts.map_values(|text: String| text@)
}

/// The properties of `stream` hold the text `criterion`.
pub open spec fn stream_matches(stream: StreamInfoView, criterion: Seq<char>) -> bool {
    is_substring(stream.proplist, criterion)
}

/// Stream `s` is the one that the criteria single out: it meets criterion
/// `c`, no stream before it does, and no stream at all meets an earlier
/// criterion.
pub open spec fn is_first_match(
    streams: Seq<StreamInfoView>,
    criteria: Seq<Seq<char>>,
    c: int,
    s: int,
) -> bool {
    &&& 0 <= c < criteria.len()
    &&& 0 <= s < streams.len()
    &&& stream_matches(streams[s], criteria[c])
    &&& forall|t: int| 0 <= t < s ==> !stream_matches(#[trigger] streams[t], criteria[c])
    &&& forall|d: int, t: int|
        0 <= d < c && 0 <= t < streams.len() ==> !stream_matches(
            #[trigger] streams[t],
            #[trigger] criteria[d],
        )
}

/// No stream meets any of the criteria.
pub open spec fn nothing_matches(streams: Seq<StreamInfoView>, criteria: Seq<Seq<char>>) -> bool {
    forall|d: int, t: int|
        0 <= d < criteria.len() && 0 <= t < streams.len() ==> !stream_matches(
            #[trigger] streams[t],
            #[trigger] criteria[d],
        )
}

/// `found` is the index of the stream that the criteria single out among
/// `streams`, or nothing where no stream meets any criterion.
pub open spec fn is_singled_out(
    found: Option<u32>,
    streams: Seq<StreamInfoView>,
    criteria: Seq<Seq<char>>,
) -> bool {
    match found {
        Some(index) => exists|c: int, s: int|
            #[trigger] is_first_match(streams, criteria, c, s) && streams[s].index == index,
        None => nothing_matches(streams, criteria),
    }
}

/// Finds the stream whose properties hold one of `criteria`.
///
/// The criteria are tried in order, each on every stream in order, until
/// one is found in a stream's properties: that stream's index is the
/// answer. The properties are compared as they are.
pub fn find_stream(streams: &Vec<StreamInfo>, criteria: &Vec<String>) -> (found: Option<u32>)
    ensures
        is_singled_out(found, stream_views(streams@), text_views(criteria@)),
{
    let mut properties: Vec<Vec<char>> = Vec::new();
    let mut k: usize = 0;
    while k < streams.len()
        invariant
            k <= streams.len(),
            properties.len() == k,
            forall|t: int| 0 <= t < k ==> (#[trigger] properties[t])@ == streams[t].proplist@,
        decreases streams.len() - k,
    {
        properties.push(chars_of(streams[k].proplist.as_str()));
        k += 1;
    }
    let ghost all = stream_views(streams@);
    let ghost wanted = text_views(criteria@);
    let mut c: usize = 0;
    while c < criteria.len()
        invariant
            c <= criteria.len(),
            properties.len() == streams.len(),
            all == stream_views(streams@),
            wanted == text_views(criteria@),
            forall|t: int|
                0 <= t < streams.len() ==> (#[trigger] properties[t])@ == streams[t].proplist@,
            forall|d: int, t: int|
                0 <= d < c && 0 <= t < all.len() ==> !stream_matches(
                    #[trigger] all[t],
                    #[trigger] wanted[d],
                ),
        decreases criteria.len() - c,
    {
        let needle = chars_of(criteria[c].as_str());
        let mut s: usize = 0;
        while s < streams.len()
            invariant
                s <= streams.len(),
                c < criteria.len(),
                properties.len() == streams.len(),
                all == stream_views(streams@),
                wanted == text_views(criteria@),
                needle@ == wanted[c as int],
                forall|t: int|
                    0 <= t < streams.len() ==> (#[trigger] properties[t])@
                        == streams[t].proplist@,
                forall|t: int| 0 <= t < s ==> !stream_matches(#[trigger] all[t], wanted[c as int]),
                forall|d: int, t: int|
                    0 <= d < c && 0 <= t < all.len() ==> !stream_matches(
                        #[trigger] all[t],
                        #[trigger] wanted[d],
                    ),
            decreases streams.len() - s,
        {
            if contains_chars(&properties[s], &needle) {
                assert(all[s as int].proplist == properties[s as int]@);
                assert(is_first_match(all, wanted, c as int, s as int));
                return Some(streams[s].index);
            }
            assert(all[s as int].proplist == properties[s as int]@);
            s += 1;
        }
        c += 1;
    }
    None
}

/// The text by which a stream's properties name the process `process_id`.
pub open spec fn process_tag(process_id: u32) -> Seq<char> {
    "process.id = \""@ + decimal_text(process_id as nat) + "\""@
}

/// What is looked for in a stream's properties to tell that the stream
/// belongs to the process `process_id`, most telling first: the tag of the
/// process, the names under which this application opens a stream, and the
/// bare number of the process.
pub open spec fn stream_criteria_of(process_id: u32) -> Seq<Seq<char>> {
    seq![
        process_tag(process_id),
        "alsa plug-in [songrec]"@,
        "songrec"@,
        decimal_text(process_id as nat),
    ]
}

/// The criteria by which the stream of the process `process_id` is told
/// from the others, in the order in which they are tried.
pub fn stream_criteria(process_id: u32) -> (criteria: Vec<String>)
    ensures
        text_views(criteria@) == stream_criteria_of(process_id),
{
    let mut tag = String::new();
    tag.append("process.id = \"");
    append_decimal(&mut tag, process_id as u64);
    tag.append("\"");
    assert(tag@ =~= process_tag(process_id));
    let mut criteria: Vec<String> = Vec::new();
    criteria.push(tag);
    criteria.push("alsa plug-in [songrec]".to_owned());
    criteria.push("songrec".to_owned());
    criteria.push(decimal(process_id as u64));
    assert(text_views(criteria@) =~= stream_criteria_of(process_id));
    criteria
}

/// The lower-case form of `text`, as Unicode defines it.
pub uninterp spec fn lowercase_text(text: Seq<char>) -> Seq<char>;

/// std's `str::to_lowercase`. Believed of it: the result depends on the
/// characters of `text` alone; it is named [`lowercase_text`].
#[verifier::external_body]
fn lowercase(text: &str) -> (lower: String)
    ensures
        lower@ == lowercase_text(text@),
{
    text.to_lowercase()
}

/// `streams` with their properties in lower case.
pub open spec fn lowered_streams(streams: Seq<StreamInfoView>) -> Seq<StreamInfoView> {
    streams.map_values(
        |stream: StreamInfoView|
            StreamInfoView { index: stream.index, proplist: lowercase_text(stream.proplist) },
    )
}

/// Finds this application's own stream among those open on the server.
///
/// The criteria of [`stream_criteria`] for `process_id` are looked for in
/// the streams' properties, taken in lower case, as [`find_stream`] does.
pub fn get_app_idx(applications: &Vec<StreamInfo>, process_id: u32) -> (found: Option<u32>)
    ensures
        is_singled_out(
            found,
            lowered_streams(stream_views(applications@)),
            stream_criteria_of(process_id),
        ),
{
    let mut lowered: Vec<StreamInfo> = Vec::new();
    let mut k: usize = 0;
    while k < applications.len()
        invariant
            k <= applications.len(),
            lowered.len() == k,
            stream_views(lowered@) == lowered_streams(stream_views(applications@).take(k as int)),
        decreases applications.len() - k,
    {
        let ghost before = lowered@;
        lowered.push(
            StreamInfo {
                index: applications[k].index,
                proplist: lowercase(applications[k].proplist.as_str()),
            },
        );
        proof {
            let all = stream_views(applications@);
            let wanted = lowered_streams(all.take(k as int + 1));
            assert(all.len() == applications.len());
            assert(stream_views(lowered@).len() == wanted.len());
            assert forall|j: int| 0 <= j < wanted.len() implies stream_views(lowered@)[j]
                == wanted[j] by {
                if j < k {
                    assert(stream_views(before)[j] == lowered_streams(all.take(k as int))[j]);
                }
            }
            assert(stream_views(lowered@) =~= wanted);
        }
        k += 1;
    }
    assert(stream_views(applications@).take(applications.len() as int) =~= stream_views(
        applications@,
    ));
    let criteria = stream_criteria(process_id);
    find_stream(&lowered, &criteria)
}

/// One of `sources` has the identifier `name`.
pub open spec fn source_named(sources: Seq<SourceInfoView>, name: Seq<char>) -> bool {
    exists|i: int| 0 <= i < sources.len() && (#[trigger] sources[i]).name == Some(name)
}

/// The order to route a stream to a source.
#[derive(Clone, Debug)]
pub struct StreamMove {
    /// Index of the stream that is moved.
    pub stream: u32,
    /// Identifier of the source that it is moved to.
    pub source: String,
}

/// Mathematical value of a [`StreamMove`].
pub struct StreamMoveView {
    pub stream: u32,
    pub source: Seq<char>,
}

impl View for StreamMove {
    type V = StreamMoveView;

    open spec fn view(&self) -> StreamMoveView {
        StreamMoveView { stream: self.stream, source: self.source@ }
    }
}

/// What the server is asked to do when the device `inner_name` is
/// selected: this application's stream, where it was found, is moved to the
/// source of that name, where the server has one. Nothing is asked else.
pub open spec fn stream_move_of(
    sources: Seq<SourceInfoView>,
    own_stream: Option<u32>,
    inner_name: Seq<char>,
) -> Option<StreamMoveView> {
    match own_stream {
        Some(stream) => if source_named(sources, inner_name) {
            Some(StreamMoveView { stream, source: inner_name })
        } else {
            None
        },
        None => None,
    }
}

/// Decides what the server is asked to do when the device `inner_name` is
/// selected.
pub fn plan_stream_move(sources: &Vec<SourceInfo>, own_stream: Option<u32>, inner_name: &str) -> (order:
    Option<StreamMove>)
    ensures
        match stream_move_of(source_views(sources@), own_stream, inner_name@) {
            Some(wanted) => order matches Some(given) && given@ == wanted,
            None => order is None,
        },
{
    let stream = match own_stream {
        Some(stream) => stream,
        None => {
            return None;
        },
    };
    let wanted = inner_name.to_owned();
    let mut i: usize = 0;
    while i < sources.len()
        invariant
            i <= sources.len(),
            own_stream == Some(stream),
            wanted@ == inner_name@,
            forall|j: int|
                0 <= j < i ==> (#[trigger] source_views(sources@)[j]).name != Some(inner_name@),
        decreases sources.len() - i,
    {
        let named = match &sources[i].name {
            Some(name) => *name == wanted,
            None => false,
        };
        if named {
            assert(source_views(sources@)[i as int].name == Some(inner_name@));
            assert(source_named(source_views(sources@), inner_name@));
            return Some(StreamMove { stream, source: wanted });
        }
        assert(source_views(sources@)[i as int].name != Some(inner_name@));
        i += 1;
    }
    None
}

/// The first backend, in the order of preference, that came up: `ready`
/// says of each candidate whether its initialization succeeded.
pub fn choose_backend(ready: &Vec<bool>) -> (chosen: Option<usize>)
    ensures
        match chosen {
            Some(first) => first < ready.len() && ready[first as int] && forall|j: int|
                0 <= j < first ==> !ready[j],
            None => forall|j: int| 0 <= j < ready.len() ==> !ready[j],
        },
{
    let mut i: usize = 0;
    while i < ready.len()
        invariant
            i <= ready.len(),
            forall|j: int| 0 <= j < i ==> !ready[j],
        decreases ready.len() - i,
    {
        if ready[i] {
            return Some(i);
        }
        i += 1;
    }
    None
}

/// Where the server reports one default source, the device list is that
/// source, then the regular sources, then the monitors, the last two in the
/// order in which the server reported them.
pub proof fn lemma_default_regular_monitor(
    sources: Seq<SourceInfoView>,
    default: Option<Seq<char>>,
)
    requires
        default_items(sources, default).len() == 1,
    ensures
        device_list(sources, default) == seq![default_items(sources, default)[0]] + regular_items(
            sources,
            default,
        ) + monitor_items(sources, default),
        device_list(sources, default)[0].inner_name == default->0,
        forall|i: int|
            1 <= i < 1 + regular_items(sources, default).len() ==> !(#[trigger] device_list(
                sources,
                default,
            )[i]).is_monitor,
        forall|i: int|
            1 + regular_items(sources, default).len() <= i < device_list(sources, default).len()
                ==> (#[trigger] device_list(sources, default)[i]).is_monitor,
{
    let is_default = |source: SourceInfoView| is_default_source(source, default);
    let is_regular = |source: SourceInfoView| is_regular_source(source, default);
    let is_monitor = |source: SourceInfoView| is_monitor_source(source, default);
    let defaults = default_items(sources, default);
    let regulars = regular_items(sources, default);
    let monitors = monitor_items(sources, default);
    assert(defaults.reverse() =~= seq![defaults[0]]);
    sources.lemma_filter_pred(is_default, 0);
    assert forall|i: int| 0 <= i < regulars.len() implies !(#[trigger] regulars[i]).is_monitor by {
        sources.lemma_filter_pred(is_regular, i);
    }
    assert forall|i: int| 0 <= i < monitors.len() implies (#[trigger] monitors[i]).is_monitor by {
        sources.lemma_filter_pred(is_monitor, i);
    }
    let list = device_list(sources, default);
    assert forall|i: int| 1 <= i < 1 + regulars.len() implies !(#[trigger] list[i]).is_monitor by {
        assert(list[i] == regulars[i - 1]);
    }
    assert forall|i: int| 1 + regulars.len() <= i < list.len() implies (
    #[trigger] list[i]).is_monitor by {
        assert(list[i] == monitors[i - 1 - regulars.len()]);
    }
}

/// Every listable source stands in the device list once: the list is as
/// long as there are listable sources.
pub proof fn lemma_every_listable_source_is_listed(
    sources: Seq<SourceInfoView>,
    default: Option<Seq<char>>,
)
    ensures
        device_list(sources, default).len() == sources.filter(
            |source: SourceInfoView| is_listable(source),
        ).len(),
    decreases sources.len(),
{
    let listable = |source: SourceInfoView| is_listable(source);
    if sources.len() == 0 {
        assert(sources.filter(listable).len() == 0) by {
            sources.lemma_filter_len(listable);
        }
        assert(default_items(sources, default).len() == 0) by {
            sources.lemma_filter_len(
                |source: SourceInfoView| is_default_source(source, default),
            );
        }
        assert(regular_items(sources, default).len() == 0) by {
            sources.lemma_filter_len(
                |source: SourceInfoView| is_regular_source(source, default),
            );
        }
        assert(monitor_items(sources, default).len() == 0) by {
            sources.lemma_filter_len(
                |source: SourceInfoView| is_monitor_source(source, default),
            );
        }
    } else {
        let earlier = sources.drop_last();
        let last = sources.last();
        lemma_every_listable_source_is_listed(earlier, default);
        assert(sources =~= earlier.push(last));
        lemma_items_step(earlier, last, default);
        earlier.lemma_filter_push(last, listable);
    }
}

/// The sources that stand for the endpoints `names` of a host without a
/// sound server: each is labelled by its name and mirrors nothing.
pub open spec fn endpoint_sources(names: Seq<Seq<char>>) -> Seq<SourceInfoView> {
    names.map_values(
        |name: Seq<char>| SourceInfoView { name: Some(name), description: Some(name), monitor: None },
    )
}

/// The device list of a host without a sound server, from the names of its
/// capture endpoints: the default endpoint first, the others in the host's
/// order.
pub fn list_endpoints(names: &Vec<String>, default: &Option<String>) -> (devices: Vec<
    DeviceListItem,
>)
    ensures
        device_views(devices@) == device_list(
            endpoint_sources(text_views(names@)),
            option_text(*default),
        ),
{
    let mut sources: Vec<SourceInfo> = Vec::new();
    let mut i: usize = 0;
    while i < names.len()
        invariant
            i <= names.len(),
            sources.len() == i,
            source_views(sources@) == endpoint_sources(text_views(names@).take(i as int)),
        decreases names.len() - i,
    {
        let ghost before = sources@;
        sources.push(
            SourceInfo {
                name: Some(names[i].clone()),
                description: Some(names[i].clone()),
                monitor: None,
            },
        );
        proof {
            let all = text_views(names@);
            let wanted = endpoint_sources(all.take(i as int + 1));
            assert(all.len() == names.len());
            assert(source_views(sources@).len() == wanted.len());
            assert forall|j: int| 0 <= j < wanted.len() implies source_views(sources@)[j]
                == wanted[j] by {
                if j < i {
                    assert(source_views(before)[j] == endpoint_sources(all.take(i as int))[j]);
                }
            }
            assert(source_views(sources@) =~= wanted);
        }
        i += 1;
    }
    assert(text_views(names@).take(names.len() as int) =~= text_views(names@));
    order_devices(&sources, default)
}

/// The criteria single out at most one stream: two first matches are the
/// same.
pub proof fn lemma_first_match_is_unique(
    streams: Seq<StreamInfoView>,
    criteria: Seq<Seq<char>>,
    c1: int,
    s1: int,
    c2: int,
    s2: int,
)
    requires
        is_first_match(streams, criteria, c1, s1),
        is_first_match(streams, criteria, c2, s2),
    ensures
        c1 == c2,
        s1 == s2,
{
}

} // verus!
