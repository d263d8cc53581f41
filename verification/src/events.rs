//! The command queues between the host and the update loop.
//!
//! The host submits tool selections and label toggles at any time. Once per
//! tick the loop drains both queues, each in the order of submission, and
//! applies what it found.

use vstd::prelude::*;
use crate::tags::{tag_of_name, AssetTag};

verus! {

/// A tool selection: the name of the tag to paint with from now on.
#[derive(Clone, Debug, PartialEq, Eq)]
pub struct HexSelectedEvent(pub String);

/// A request to flip the visibility of the cell labels.
#[derive(Clone, Copy, Debug, PartialEq, Eq)]
pub struct ToggleTileLabelsEvent;

/// The tag that painting applies.
#[derive(Clone, Copy, Debug, PartialEq, Eq)]
pub struct SelectedHex(pub AssetTag);

/// Whether the cell labels are shown.
#[derive(Clone, Copy, Debug, PartialEq, Eq)]
pub struct ShowTileLabels(pub bool);

impl Default for ShowTileLabels {
    /// The labels start hidden.
    fn default() -> (show_labels: ShowTileLabels)
        ensures
            !show_labels.0,
    {
        ShowTileLabels(false)
    }
}

/// How a label is to be drawn.
#[derive(Clone, Copy, Debug, PartialEq, Eq, Structural)]
pub enum LabelVisibility {
    Visible,
    Hidden,
}

/// What waits in the queues: the names of the selected tools, oldest first,
/// and the number of label toggles.
pub struct Pending {
    pub tools: Seq<Seq<char>>,
    pub toggles: nat,
}

/// The names that a sequence of tool selections carries.
pub open spec fn names(events: Seq<HexSelectedEvent>) -> Seq<Seq<char>> {
    events.map_values(|e: HexSelectedEvent| e.0@)
}

/// The tag in force after the tool named `tool` was selected while `tag`
/// was in force: the one that the name selects, whatever was there.
pub open spec fn select(tag: AssetTag, tool: Seq<char>) -> AssetTag {
    tag_of_name(tool)
}

/// The tag in force after the tools named by `tools` were selected in turn,
/// starting from `tag`.
pub open spec fn select_all(tag: AssetTag, tools: Seq<Seq<char>>) -> AssetTag
    decreases tools.len(),
{
    if tools.len() == 0 {
        tag
    } else {
        select(select_all(tag, tools.drop_last()), tools.last())
    }
}

/// The flag after it was flipped `toggles` times.
pub open spec fn toggled(flag: bool, toggles: nat) -> bool {
    if toggles % 2 == 0 {
        flag
    } else {
        !flag
    }
}

/// Of several tools selected in turn the last one stays in force; with none
/// selected the tag stays as it was.
pub proof fn last_selection_wins(tag: AssetTag, tools: Seq<Seq<char>>)
    ensures
        select_all(tag, tools) == if tools.len() == 0 {
            tag
        } else {
            tag_of_name(tools.last())
        },
{
}

/// Flipping once more than `toggles` times gives the opposite flag.
pub proof fn one_more_toggle(flag: bool, toggles: nat)
    ensures
        toggled(flag, toggles + 1) == !toggled(flag, toggles),
        toggled(flag, 0) == flag,
{
}

/// The two queues: tool selections and label toggles.
#[derive(Debug)]
pub struct EventBridge {
    tool_queue: Vec<HexSelectedEvent>,
    label_queue: Vec<()>,
}

impl View for EventBridge {
    type V = Pending;

    closed spec fn view(&self) -> Pending {
        Pending { tools: names(self.tool_queue@), toggles: self.label_queue@.len() }
    }
}

impl EventBridge {
    /// A bridge with nothing waiting.
    pub fn new() -> (bridge: EventBridge)
        ensures
            bridge@.tools == Seq::<Seq<char>>::empty(),
            bridge@.toggles == 0,
    {
        let bridge = EventBridge { tool_queue: Vec::new(), label_queue: Vec::new() };
        assert(names(bridge.tool_queue@) =~= Seq::<Seq<char>>::empty());
        bridge
    }
}

/// Submits a tool selection: `tool` joins the end of its queue.
pub fn set_tool(bridge: &mut EventBridge, tool: &str)
    ensures
        final(bridge)@.tools == old(bridge)@.tools.push(tool@),
        final(bridge)@.toggles == old(bridge)@.toggles,
{
    let event = HexSelectedEvent(tool.to_owned());
    bridge.tool_queue.push(event);
    assert(names(bridge.tool_queue@) =~= names(old(bridge).tool_queue@).push(tool@));
}

/// Submits a label toggle. Each submission flips the labels once; `value`
/// is not looked at.
pub fn set_show_tile_labels(bridge: &mut EventBridge, value: bool)
    ensures
        final(bridge)@.tools == old(bridge)@.tools,
        final(bridge)@.toggles == old(bridge)@.toggles + 1,
{
    bridge.label_queue.push(());
}

/// Takes the waiting tool selections out of the bridge, oldest first.
pub fn flush_click_events_system(bridge: &mut EventBridge) -> (events: Vec<HexSelectedEvent>)
    ensures
        names(events@) == old(bridge)@.tools,
        final(bridge)@.tools == Seq::<Seq<char>>::empty(),
        final(bridge)@.toggles == old(bridge)@.toggles,
{
    let mut events: Vec<HexSelectedEvent> = Vec::new();
    std::mem::swap(&mut events, &mut bridge.tool_queue);
    assert(names(bridge.tool_queue@) =~= Seq::<Seq<char>>::empty());
    events
}

/// Takes the waiting label toggles out of the bridge: one event for each.
pub fn flush_tile_label_toggle_queue(bridge: &mut EventBridge) -> (events: Vec<ToggleTileLabelsEvent>)
    ensures
        events@.len() == old(bridge)@.toggles,
        final(bridge)@.toggles == 0,
        final(bridge)@.tools == old(bridge)@.tools,
{
    let mut waiting: Vec<()> = Vec::new();
    std::mem::swap(&mut waiting, &mut bridge.label_queue);
    let mut events: Vec<ToggleTileLabelsEvent> = Vec::new();
    let mut i: usize = 0;
    while i < waiting.len()
        invariant
            i <= waiting.len(),
            events@.len() == i,
        decreases waiting.len() - i,
    {
        events.push(ToggleTileLabelsEvent);
        i += 1;
    }
    events
}

/// Applies tool selections in turn: each names the tag to paint with, and a
/// name that the catalog does not know selects `Unresolved`.
pub fn on_hex_selected(events: &Vec<HexSelectedEvent>, selected: &mut SelectedHex)
    ensures
        final(selected).0 == select_all(old(selected).0, names(events@)),
{
    let mut i: usize = 0;
    while i < events.len()
        invariant
            i <= events.len(),
            selected.0 == select_all(old(selected).0, names(events@).take(i as int)),
        decreases events.len() - i,
    {
        selected.0 = AssetTag::from_str(events[i].0.as_str());
        proof {
            let seen = names(events@).take(i + 1);
            assert(seen.last() == events@[i as int].0@);
        }
        i += 1;
    }
    assert(names(events@).take(events.len() as int) =~= names(events@));
}

/// Applies label toggles: each flips the flag.
pub fn handle_toggle_tile_labels_event(events: &Vec<ToggleTileLabelsEvent>, show_labels: &mut ShowTileLabels)
    ensures
        final(show_labels).0 == toggled(old(show_labels).0, events@.len()),
{
    let mut i: usize = 0;
    while i < events.len()
        invariant
            i <= events.len(),
            show_labels.0 == toggled(old(show_labels).0, i as nat),
        decreases events.len() - i,
    {
        show_labels.0 = !show_labels.0;
        i += 1;
    }
}

/// How the labels are to be drawn under the flag.
pub fn toggle_tile_labels_system(show_labels: &ShowTileLabels) -> (visibility: LabelVisibility)
    ensures
        visibility == if show_labels.0 {
            LabelVisibility::Visible
        } else {
            LabelVisibility::Hidden
        },
{
    if show_labels.0 {
        LabelVisibility::Visible
    } else {
        LabelVisibility::Hidden
    }
}

/// One tick's drain: empties both queues and applies what waited, each
/// queue in the order of submission.
pub fn drain_events(bridge: &mut EventBridge, selected: &mut SelectedHex, show_labels: &mut ShowTileLabels)
    ensures
        final(bridge)@.tools == Seq::<Seq<char>>::empty(),
        final(bridge)@.toggles == 0,
        final(selected).0 == select_all(old(selected).0, old(bridge)@.tools),
        final(show_labels).0 == toggled(old(show_labels).0, old(bridge)@.toggles),
{
    let tools = flush_click_events_system(bridge);
    on_hex_selected(&tools, selected);
    let toggles = flush_tile_label_toggle_queue(bridge);
    handle_toggle_tile_labels_event(&toggles, show_labels);
}

} // verus!
