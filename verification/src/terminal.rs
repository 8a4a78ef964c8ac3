//! What the commands print: profiles, plans, events, and the state of the machine.

use crate::actions;
use crate::actions::RuntimeActionExecution;
use crate::device_info;
use crate::device_info::DeviceInfo;
use crate::labels;
use crate::report;
use crate::runtime_plan;
use crate::runtime_plan::{
    LocalRuntimePlan, Master3sRuntimeEvent, ResolvedRuntimeAction, RuntimeActionSource,
};
use crate::settings;
use crate::settings::Master3sButton;
use crate::text;
use vstd::prelude::*;

verus! {

/// How many bytes a character takes.
pub open spec fn char_bytes(c: char) -> nat {
    if c <= '\u{7f}' {
        1
    } else if c <= '\u{7ff}' {
        2
    } else if c <= '\u{ffff}' {
        3
    } else {
        4
    }
}

/// How many bytes the first `n` characters of a text take.
pub open spec fn bytes_of(s: Seq<char>, n: nat) -> nat
    decreases n,
{
    if n == 0 || n > s.len() {
        0
    } else {
        bytes_of(s, (n - 1) as nat) + char_bytes(s[n - 1])
    }
}

/// How many characters of a text, looked at from the `n`-th on, take `width` bytes at
/// least.
pub open spec fn cut_at(s: Seq<char>, n: nat, width: nat) -> nat
    decreases s.len() - n,
{
    if n < s.len() && bytes_of(s, n) < width {
        cut_at(s, n + 1, width)
    } else {
        n
    }
}

/// Whether a text that is too long for a width can be cut so that a mark fits: no
/// character crosses the place.
pub open spec fn is_cut_cleanly(s: Seq<char>, width: nat) -> bool {
    s.len() > width && width > 1 ==> bytes_of(s, cut_at(s, 0, (width - 1) as nat)) == width - 1
}

/// A text, cut to a width and marked where it was longer.
pub open spec fn truncated(s: Seq<char>, width: nat) -> Seq<char> {
    if s.len() <= width {
        s
    } else if width > 1 {
        s.take(cut_at(s, 0, (width - 1) as nat) as int).push('~')
    } else {
        s.take(width as int)
    }
}

proof fn lemma_bytes(s: Seq<char>, n: nat)
    requires
        n <= s.len(),
    ensures
        n <= bytes_of(s, n) <= 4 * n,
    decreases n,
{
    if n > 0 {
        lemma_bytes(s, (n - 1) as nat);
    }
}

/// Where a text is cut, and how many bytes stand before.
fn find_cut(chars: &Vec<char>, width: usize) -> (r: (usize, u128))
    requires
        width < chars@.len(),
    ensures
        r.0 == cut_at(chars@, 0, width as nat),
        r.0 <= chars@.len(),
        r.1 == bytes_of(chars@, r.0 as nat),
{
    let mut n: usize = 0;
    let mut bytes: u128 = 0;
    while n < chars.len() && bytes < width as u128
        invariant
            width < chars@.len(),
            n <= width,
            bytes == bytes_of(chars@, n as nat),
            bytes < width + 4,
            cut_at(chars@, 0, width as nat) == cut_at(chars@, n as nat, width as nat),
        decreases chars@.len() - n,
    {
        let c = chars[n];
        let size: u128 = if c <= '\u{7f}' {
            1
        } else if c <= '\u{7ff}' {
            2
        } else if c <= '\u{ffff}' {
            3
        } else {
            4
        };
        proof {
            lemma_bytes(chars@, n as nat);
        }
        bytes = bytes + size;
        n += 1;
        proof {
            lemma_bytes(chars@, n as nat);
        }
    }
    (n, bytes)
}

/// Whether a text that is too long for a width can be cut so that a mark fits.
pub fn cuts_cleanly(value: &str, width: usize) -> (r: bool)
    ensures
        r == is_cut_cleanly(value@, width as nat),
{
    let chars = text::chars_of(value);
    if chars.len() > width && width > 1 {
        let (_, bytes) = find_cut(&chars, width - 1);
        bytes == (width - 1) as u128
    } else {
        true
    }
}

/// A text, cut to a width and marked where it was longer.
pub fn truncate(value: &str, width: usize) -> (r: String)
    requires
        is_cut_cleanly(value@, width as nat),
    ensures
        r@ == truncated(value@, width as nat),
{
    let chars = text::chars_of(value);
    if chars.len() <= width {
        return value.to_owned();
    }
    if width > 1 {
        let (n, _) = find_cut(&chars, width - 1);
        let mut output = text::text_of(&chars, 0, n);
        output.push('~');
        assert(output@ =~= truncated(value@, width as nat));
        output
    } else {
        let output = text::text_of(&chars, 0, width);
        assert(output@ =~= value@.take(width as int));
        output
    }
}

/// A text of characters that take one byte each is cut to the width, mark and all.
pub proof fn law_plain_texts_fit(s: Seq<char>, width: nat)
    requires
        forall|i: int| 0 <= i < s.len() ==> #[trigger] s[i] <= '\u{7f}',
        width > 1,
    ensures
        is_cut_cleanly(s, width),
        truncated(s, width).len() <= width,
        s.len() > width ==> truncated(s, width) == s.take(width - 1).push('~'),
{
    if s.len() > width {
        lemma_plain_cut(s, 0, (width - 1) as nat);
    }
}

proof fn lemma_plain_cut(s: Seq<char>, n: nat, width: nat)
    requires
        forall|i: int| 0 <= i < s.len() ==> #[trigger] s[i] <= '\u{7f}',
        n <= width < s.len(),
    ensures
        cut_at(s, n, width) == width,
        bytes_of(s, width) == width,
    decreases width - n,
{
    lemma_plain_bytes(s, n);
    lemma_plain_bytes(s, width);
    if n < width {
        lemma_plain_cut(s, n + 1, width);
    }
}

proof fn lemma_plain_bytes(s: Seq<char>, n: nat)
    requires
        forall|i: int| 0 <= i < s.len() ==> #[trigger] s[i] <= '\u{7f}',
        n <= s.len(),
    ensures
        bytes_of(s, n) == n,
    decreases n,
{
    if n > 0 {
        lemma_plain_bytes(s, (n - 1) as nat);
        assert(s[n - 1] <= '\u{7f}');
    }
}

/// The line of a device in the table.
pub open spec fn device_row(d: DeviceInfo) -> Seq<char> {
    text::padded(truncated(d.id@, 27), 27) + "  "@ + text::padded(
        truncated(device_info::shown_name(d), 28),
        28,
    ) + "  "@ + text::padded(device_info::product_numbers(d), 9) + "  "@ + text::padded(
        device_info::connection_label(d.connection),
        11,
    ) + "  "@ + text::padded(device_info::capability_label(d.capabilities.hidpp), 7) + "  "@
        + d.path@
}

/// The heading of the table.
pub open spec fn table_heading() -> Seq<char> {
    text::padded("ID"@, 27) + "  "@ + text::padded("NAME"@, 28) + "  "@ + text::padded(
        "VID:PID"@,
        9,
    ) + "  "@ + text::padded("CONNECTION"@, 11) + "  "@ + text::padded("HID++"@, 7) + "  PATH"@
}

/// Whether the texts of a device can be cut to fit the table.
pub open spec fn fits_table(d: DeviceInfo) -> bool {
    is_cut_cleanly(d.id@, 27) && is_cut_cleanly(device_info::shown_name(d), 28)
}

/// The table of devices.
pub open spec fn table_lines(devices: Seq<DeviceInfo>, includes_all_hid: bool) -> Seq<Seq<char>> {
    if devices.len() == 0 {
        seq![
            if includes_all_hid {
                "no HID devices found"@
            } else {
                "no Logitech HID devices found"@
            },
        ]
    } else {
        seq![table_heading()] + devices.map_values(|d: DeviceInfo| device_row(d))
    }
}

/// Whether the texts of a device can be cut to fit the table.
pub fn device_fits_table(d: &DeviceInfo) -> (r: bool)
    ensures
        r == fits_table(*d),
{
    cuts_cleanly(d.id.as_str(), 27) && cuts_cleanly(device_info::display_device_name(d), 28)
}

/// Adds a column to a line.
fn add_column(line: &mut String, value: &str, width: usize)
    ensures
        final(line)@ == old(line)@ + text::padded(value@, width as nat) + "  "@,
{
    text::push_padded(line, value, width);
    line.append("  ");
}

/// The line of a device in the table.
fn row_of(d: &DeviceInfo) -> (r: String)
    requires
        fits_table(*d),
    ensures
        r@ == device_row(*d),
{
    let mut line = String::new();
    add_column(&mut line, truncate(d.id.as_str(), 27).as_str(), 27);
    add_column(&mut line, truncate(device_info::display_device_name(d), 28).as_str(), 28);
    add_column(&mut line, d.product_key().as_str(), 9);
    add_column(&mut line, d.connection.label(), 11);
    add_column(&mut line, d.capabilities.hidpp.label(), 7);
    line.append(d.path.as_str());
    assert(line@ =~= device_row(*d));
    line
}

/// The table of devices.
pub fn device_table(devices: &Vec<DeviceInfo>, includes_all_hid: bool) -> (r: Vec<String>)
    requires
        forall|i: int| 0 <= i < devices@.len() ==> fits_table(#[trigger] devices@[i]),
    ensures
        text::texts(r@) == table_lines(devices@, includes_all_hid),
{
    let mut lines: Vec<String> = Vec::new();
    assert(text::texts(lines@) =~= Seq::<Seq<char>>::empty());
    if devices.len() == 0 {
        if includes_all_hid {
            report::add_text(&mut lines, "no HID devices found");
        } else {
            report::add_text(&mut lines, "no Logitech HID devices found");
        }
        assert(text::texts(lines@) =~= table_lines(devices@, includes_all_hid));
        return lines;
    }
    let mut heading = String::new();
    add_column(&mut heading, "ID", 27);
    add_column(&mut heading, "NAME", 28);
    add_column(&mut heading, "VID:PID", 9);
    add_column(&mut heading, "CONNECTION", 11);
    text::push_padded(&mut heading, "HID++", 7);
    heading.append("  PATH");
    assert(heading@ =~= table_heading());
    report::add_text(&mut lines, heading.as_str());
    let ghost rows = devices@.map_values(|d: DeviceInfo| device_row(d));
    let mut i: usize = 0;
    assert(text::texts(lines@) =~= seq![table_heading()] + rows.take(0));
    while i < devices.len()
        invariant
            forall|k: int| 0 <= k < devices@.len() ==> fits_table(#[trigger] devices@[k]),
            i <= devices@.len(),
            rows == devices@.map_values(|d: DeviceInfo| device_row(d)),
            text::texts(lines@) == seq![table_heading()] + rows.take(i as int),
        decreases devices@.len() - i,
    {
        let row = row_of(&devices[i]);
        report::add_text(&mut lines, row.as_str());
        i += 1;
        assert(seq![table_heading()] + rows.take(i as int) =~= (seq![table_heading()] + rows.take(
            i as int - 1,
        )).push(rows[i as int - 1]));
    }
    assert(rows.take(i as int) =~= rows);
    lines
}

/// A number of a control in words.
pub open spec fn control_text(control_id: u16) -> Seq<char> {
    "0x"@ + text::hex_digits(control_id as nat, 4, true)
}

/// A number of a control in words.
fn control_name(control_id: u16) -> (r: String)
    ensures
        r@ == control_text(control_id),
{
    let mut r = "0x".to_owned();
    text::push_hex(&mut r, control_id as u32, 4, true);
    r
}

/// The names of some buttons.
pub open spec fn button_texts(buttons: Seq<Master3sButton>) -> Seq<Seq<char>> {
    buttons.map_values(|button: Master3sButton| settings::button_label(button))
}

/// The numbers of some controls.
pub open spec fn control_texts(ids: Seq<u16>) -> Seq<Seq<char>> {
    ids.map_values(|id: u16| control_text(id))
}

/// The names of some buttons, in one line.
fn list_buttons(buttons: &Vec<Master3sButton>) -> (r: String)
    ensures
        r@ == text::joined(button_texts(buttons@), ", "@),
{
    let mut names: Vec<String> = Vec::new();
    let mut i: usize = 0;
    assert(text::texts(names@) =~= button_texts(buttons@).take(0));
    while i < buttons.len()
        invariant
            i <= buttons@.len(),
            text::texts(names@) == button_texts(buttons@).take(i as int),
        decreases buttons@.len() - i,
    {
        report::add_text(&mut names, buttons[i].label());
        i += 1;
        assert(button_texts(buttons@).take(i as int) =~= button_texts(buttons@).take(
            i as int - 1,
        ).push(button_texts(buttons@)[i as int - 1]));
    }
    assert(button_texts(buttons@).take(i as int) =~= button_texts(buttons@));
    text::join(&names, ", ")
}

/// The numbers of some controls, in one line.
fn list_controls(ids: &Vec<u16>) -> (r: String)
    ensures
        r@ == text::joined(control_texts(ids@), ", "@),
{
    let mut names: Vec<String> = Vec::new();
    let mut i: usize = 0;
    assert(text::texts(names@) =~= control_texts(ids@).take(0));
    while i < ids.len()
        invariant
            i <= ids@.len(),
            text::texts(names@) == control_texts(ids@).take(i as int),
        decreases ids@.len() - i,
    {
        let name = control_name(ids[i]);
        report::add_text(&mut names, name.as_str());
        i += 1;
        assert(control_texts(ids@).take(i as int) =~= control_texts(ids@).take(i as int - 1).push(
            control_texts(ids@)[i as int - 1],
        ));
    }
    assert(control_texts(ids@).take(i as int) =~= control_texts(ids@));
    text::join(&names, ", ")
}

/// An event in words.
pub open spec fn event_text(event: runtime_plan::EventView) -> Seq<char> {
    match event {
        runtime_plan::EventView::ThumbWheel { delta, phase, resolution, direction } =>
            "thumb wheel delta "@ + text::signed_decimal(delta as int) + (match phase {
                Some(phase) => ", phase "@ + text::decimal(phase as nat),
                None => Seq::empty(),
            }) + ", resolution "@ + text::decimal(resolution as nat) + ", direction "@
                + text::signed_decimal(direction as int),
        runtime_plan::EventView::DivertedButtons { buttons, unknown_control_ids } => {
            let known = text::joined(button_texts(buttons), ", "@);
            let unknown = text::joined(control_texts(unknown_control_ids), ", "@);
            if known.len() > 0 && unknown.len() > 0 {
                "diverted buttons "@ + known + "; unknown "@ + unknown
            } else if known.len() > 0 {
                "diverted buttons "@ + known
            } else if unknown.len() > 0 {
                "diverted buttons unknown "@ + unknown
            } else {
                "diverted buttons none"@
            }
        },
        runtime_plan::EventView::RawMovement { x, y } => "gesture movement x "@
            + text::signed_decimal(x as int) + ", y "@ + text::signed_decimal(y as int),
    }
}

/// An event in words.
pub fn format_runtime_event(event: &Master3sRuntimeEvent) -> (r: String)
    ensures
        r@ == event_text(event@),
{
    match event {
        Master3sRuntimeEvent::ThumbWheel { delta, phase, resolution, direction } => {
            let mut r = "thumb wheel delta ".to_owned();
            text::push_signed(&mut r, *delta as i64);
            if let Some(phase) = phase {
                r.append(", phase ");
                text::push_decimal(&mut r, *phase as u64);
            }
            r.append(", resolution ");
            text::push_decimal(&mut r, *resolution as u64);
            r.append(", direction ");
            text::push_signed(&mut r, *direction as i64);
            assert(r@ =~= event_text(event@));
            r
        },
        Master3sRuntimeEvent::DivertedButtons { buttons, unknown_control_ids } => {
            let known = list_buttons(buttons);
            let unknown = list_controls(unknown_control_ids);
            if !known.as_str().is_empty() && !unknown.as_str().is_empty() {
                let mut r = text::concat3("diverted buttons ", known.as_str(), "; unknown ");
                r.append(unknown.as_str());
                r
            } else if !known.as_str().is_empty() {
                text::concat2("diverted buttons ", known.as_str())
            } else if !unknown.as_str().is_empty() {
                text::concat2("diverted buttons unknown ", unknown.as_str())
            } else {
                "diverted buttons none".to_owned()
            }
        },
        Master3sRuntimeEvent::RawMovement { x, y } => {
            let mut r = "gesture movement x ".to_owned();
            text::push_signed(&mut r, *x as i64);
            r.append(", y ");
            text::push_signed(&mut r, *y as i64);
            r
        },
    }
}

/// What an action answers to, in words.
pub open spec fn source_text(source: RuntimeActionSource) -> Seq<char> {
    match source {
        RuntimeActionSource::ThumbWheel => "thumb wheel"@,
        RuntimeActionSource::Button(button) => settings::button_label(button),
        RuntimeActionSource::Gesture { button, direction } => settings::button_label(button)
            + " gesture "@ + labels::direction_label(direction),
        RuntimeActionSource::UnknownControlId(control_id) => "unknown control "@ + control_text(
            control_id,
        ),
    }
}

/// What an action answers to, in words.
pub fn format_runtime_action_source(source: &RuntimeActionSource) -> (r: String)
    ensures
        r@ == source_text(*source),
{
    match source {
        RuntimeActionSource::ThumbWheel => "thumb wheel".to_owned(),
        RuntimeActionSource::Button(button) => button.label().to_owned(),
        RuntimeActionSource::Gesture { button, direction } => text::concat3(
            button.label(),
            " gesture ",
            direction.label(),
        ),
        RuntimeActionSource::UnknownControlId(control_id) => text::concat2(
            "unknown control ",
            control_name(*control_id).as_str(),
        ),
    }
}

/// An action in words.
pub open spec fn action_text(action: runtime_plan::ActionView) -> Seq<char> {
    source_text(action.source) + " -> "@ + labels::command_label(action.command)
}

/// An action in words.
pub fn format_resolved_runtime_action(action: &ResolvedRuntimeAction) -> (r: String)
    ensures
        r@ == action_text(action@),
{
    text::concat3(
        format_runtime_action_source(&action.source).as_str(),
        " -> ",
        action.command.label().as_str(),
    )
}

/// What became of an action, in words.
pub open spec fn execution_text(execution: actions::ExecutionView) -> Seq<char> {
    action_text(execution.action) + " ["@ + execution.status.label_spec() + "]"@ + (match execution.detail {
        Some(detail) => ": "@ + detail,
        None => Seq::empty(),
    })
}

/// What became of an action, in words.
pub fn format_runtime_action_execution(execution: &RuntimeActionExecution) -> (r: String)
    ensures
        r@ == execution_text(execution@),
{
    let mut r = text::concat3(
        format_resolved_runtime_action(&execution.action).as_str(),
        " [",
        execution.status.label(),
    );
    r.append("]");
    if let Some(detail) = &execution.detail {
        r.append(": ");
        r.append(detail.as_str());
    }
    assert(r@ =~= execution_text(execution@));
    r
}

/// The lines of some events behind an indentation.
pub open spec fn event_lines(indent: Seq<char>, events: Seq<Master3sRuntimeEvent>) -> Seq<Seq<char>> {
    events.map_values(|event: Master3sRuntimeEvent| indent + event_text(event@))
}

/// The lines of some actions behind an indentation.
pub open spec fn action_lines(indent: Seq<char>, all: Seq<ResolvedRuntimeAction>) -> Seq<Seq<char>> {
    all.map_values(|action: ResolvedRuntimeAction| indent + action_text(action@))
}

/// The lines of what became of some actions behind an indentation.
pub open spec fn execution_lines(indent: Seq<char>, all: Seq<RuntimeActionExecution>) -> Seq<
    Seq<char>,
> {
    all.map_values(|execution: RuntimeActionExecution| indent + execution_text(execution@))
}

fn add_events(lines: &mut Vec<String>, indent: &str, events: &Vec<Master3sRuntimeEvent>)
    ensures
        text::texts(final(lines)@) == text::texts(old(lines)@) + event_lines(indent@, events@),
{
    let ghost before = text::texts(lines@);
    let ghost all = event_lines(indent@, events@);
    let mut i: usize = 0;
    assert(before =~= before + all.take(0));
    while i < events.len()
        invariant
            i <= events@.len(),
            all == event_lines(indent@, events@),
            text::texts(lines@) == before + all.take(i as int),
        decreases events@.len() - i,
    {
        report::add_line(lines, indent, format_runtime_event(&events[i]).as_str());
        i += 1;
        assert(before + all.take(i as int) =~= (before + all.take(i as int - 1)).push(
            all[i as int - 1],
        ));
    }
    assert(all.take(i as int) =~= all);
}

fn add_actions(lines: &mut Vec<String>, indent: &str, actions: &Vec<ResolvedRuntimeAction>)
    ensures
        text::texts(final(lines)@) == text::texts(old(lines)@) + action_lines(indent@, actions@),
{
    let ghost before = text::texts(lines@);
    let ghost all = action_lines(indent@, actions@);
    let mut i: usize = 0;
    assert(before =~= before + all.take(0));
    while i < actions.len()
        invariant
            i <= actions@.len(),
            all == action_lines(indent@, actions@),
            text::texts(lines@) == before + all.take(i as int),
        decreases actions@.len() - i,
    {
        report::add_line(lines, indent, format_resolved_runtime_action(&actions[i]).as_str());
        i += 1;
        assert(before + all.take(i as int) =~= (before + all.take(i as int - 1)).push(
            all[i as int - 1],
        ));
    }
    assert(all.take(i as int) =~= all);
}

fn add_executions(lines: &mut Vec<String>, indent: &str, executions: &Vec<RuntimeActionExecution>)
    ensures
        text::texts(final(lines)@) == text::texts(old(lines)@) + execution_lines(
            indent@,
            executions@,
        ),
{
    let ghost before = text::texts(lines@);
    let ghost all = execution_lines(indent@, executions@);
    let mut i: usize = 0;
    assert(before =~= before + all.take(0));
    while i < executions.len()
        invariant
            i <= executions@.len(),
            all == execution_lines(indent@, executions@),
            text::texts(lines@) == before + all.take(i as int),
        decreases executions@.len() - i,
    {
        report::add_line(lines, indent, format_runtime_action_execution(&executions[i]).as_str());
        i += 1;
        assert(before + all.take(i as int) =~= (before + all.take(i as int - 1)).push(
            all[i as int - 1],
        ));
    }
    assert(all.take(i as int) =~= all);
}

/// What was listened to, and what it led to.
#[derive(Debug, PartialEq, Eq)]
pub struct RuntimeListenReport {
    pub device_id: String,
    pub runtime_plan: LocalRuntimePlan,
    pub events: Vec<Master3sRuntimeEvent>,
    pub actions: Vec<ResolvedRuntimeAction>,
    pub executions: Vec<RuntimeActionExecution>,
    pub execute_actions: bool,
}

/// What is printed of a listening session.
pub open spec fn listen_lines(r: RuntimeListenReport) -> Seq<Seq<char>> {
    seq![
        "Runtime listener for "@ + r.device_id@,
        "  mode: "@ + (if r.execute_actions {
            "execute local actions"@
        } else {
            "dry-run"@
        }),
        "  plan: "@ + text::joined(runtime_plan::summary_parts(r.runtime_plan@), ", "@),
        "  events: "@ + text::decimal(r.events@.len()),
    ] + event_lines("  - "@, r.events@) + seq!["  actions: "@ + text::decimal(r.actions@.len())]
        + action_lines("  - "@, r.actions@) + (if r.execute_actions {
        seq!["  executions: "@ + text::decimal(r.executions@.len())] + execution_lines(
            "  - "@,
            r.executions@,
        )
    } else {
        Seq::empty()
    })
}

fn add_count(lines: &mut Vec<String>, label: &str, count: usize)
    ensures
        text::texts(final(lines)@) == text::texts(old(lines)@).push(
            label@ + text::decimal(count as nat),
        ),
{
    report::add_line(lines, label, text::decimal_text(count as u64).as_str());
}

/// What is printed of a listening session.
pub fn listen_report(r: &RuntimeListenReport) -> (lines: Vec<String>)
    ensures
        text::texts(lines@) == listen_lines(*r),
{
    let mut lines: Vec<String> = Vec::new();
    assert(text::texts(lines@) =~= Seq::<Seq<char>>::empty());
    report::add_line(&mut lines, "Runtime listener for ", r.device_id.as_str());
    let mode: &str = if r.execute_actions {
        "execute local actions"
    } else {
        "dry-run"
    };
    report::add_line(&mut lines, "  mode: ", mode);
    report::add_line(&mut lines, "  plan: ", r.runtime_plan.summary().as_str());
    add_count(&mut lines, "  events: ", r.events.len());
    add_events(&mut lines, "  - ", &r.events);
    add_count(&mut lines, "  actions: ", r.actions.len());
    add_actions(&mut lines, "  - ", &r.actions);
    if r.execute_actions {
        add_count(&mut lines, "  executions: ", r.executions.len());
        add_executions(&mut lines, "  - ", &r.executions);
    }
    assert(text::texts(lines@) =~= listen_lines(*r));
    lines
}

/// What is printed of an event while the runtime runs.
pub open spec fn loop_event_lines(
    event: Master3sRuntimeEvent,
    all: Seq<ResolvedRuntimeAction>,
    executions: Seq<RuntimeActionExecution>,
    execute_actions: bool,
) -> Seq<Seq<char>> {
    seq!["  event: "@ + event_text(event@)] + (if all.len() == 0 {
        seq!["    actions: none"@]
    } else {
        seq!["    actions:"@] + action_lines("      "@, all)
    }) + (if !execute_actions {
        Seq::empty()
    } else if executions.len() == 0 {
        seq!["    executions: none"@]
    } else {
        seq!["    executions:"@] + execution_lines("      "@, executions)
    })
}

/// What is printed of an event while the runtime runs.
pub fn loop_event_report(
    event: &Master3sRuntimeEvent,
    actions: &Vec<ResolvedRuntimeAction>,
    executions: &Vec<RuntimeActionExecution>,
    execute_actions: bool,
) -> (lines: Vec<String>)
    ensures
        text::texts(lines@) == loop_event_lines(*event, actions@, executions@, execute_actions),
{
    let mut lines: Vec<String> = Vec::new();
    assert(text::texts(lines@) =~= Seq::<Seq<char>>::empty());
    report::add_line(&mut lines, "  event: ", format_runtime_event(event).as_str());
    if actions.len() == 0 {
        report::add_text(&mut lines, "    actions: none");
    } else {
        report::add_text(&mut lines, "    actions:");
        add_actions(&mut lines, "      ", actions);
    }
    if execute_actions {
        if executions.len() == 0 {
            report::add_text(&mut lines, "    executions: none");
        } else {
            report::add_text(&mut lines, "    executions:");
            add_executions(&mut lines, "      ", executions);
        }
    }
    assert(text::texts(lines@) =~= loop_event_lines(*event, actions@, executions@, execute_actions));
    lines
}

/// A text that is too wide is cut before the last column, which shows that it was.
pub proof fn law_wide_texts_are_cut(s: Seq<char>, width: nat)
    ensures
        s.len() <= width ==> truncated(s, width) == s,
        s.len() > width && width > 1 ==> truncated(s, width).len() > 0 && truncated(s, width).last()
            == '~',
        char_bytes('~') == 1 && char_bytes('é') == 2 && char_bytes('中') == 3,
{
}

/// A device is a row of its identifier, its name, its numbers, how it is connected and whether
/// it can be asked, each in its column, and where it is found.
pub proof fn law_devices_are_rows(d: DeviceInfo)
    requires
        d.id@.len() <= 27,
        device_info::shown_name(d).len() <= 28,
    ensures
        device_row(d) == text::padded(d.id@, 27) + "  "@ + text::padded(
            device_info::shown_name(d),
            28,
        ) + "  "@ + text::padded(device_info::product_numbers(d), 9) + "  "@ + text::padded(
            device_info::connection_label(d.connection),
            11,
        ) + "  "@ + text::padded(device_info::capability_label(d.capabilities.hidpp), 7) + "  "@
            + d.path@,
{
}

/// A table has a heading and a row for each device, in order; without devices it says so.
pub proof fn law_tables_have_a_row_per_device(devices: Seq<DeviceInfo>, all: bool, i: int)
    ensures
        devices.len() > 0 ==> table_lines(devices, all).len() == devices.len() + 1,
        0 <= i < devices.len() ==> table_lines(devices, all)[i + 1] == device_row(devices[i]),
        devices.len() == 0 && all ==> table_lines(devices, all) == seq!["no HID devices found"@],
        devices.len() == 0 && !all ==> table_lines(devices, all) == seq![
            "no Logitech HID devices found"@,
        ],
{
}

/// What a mouse reported is told with all of its numbers.
pub proof fn law_events_are_told(
    delta: i16,
    phase: u8,
    resolution: u16,
    direction: i8,
    x: i16,
    y: i16,
    button: Master3sButton,
    control: u16,
)
    ensures
        event_text(runtime_plan::EventView::RawMovement { x, y }) == "gesture movement x "@
            + text::signed_decimal(x as int) + ", y "@ + text::signed_decimal(y as int),
        event_text(
            runtime_plan::EventView::DivertedButtons {
                buttons: Seq::empty(),
                unknown_control_ids: Seq::empty(),
            },
        ) == "diverted buttons none"@,
        settings::button_label(button).len() > 0 ==> event_text(
            runtime_plan::EventView::DivertedButtons {
                buttons: seq![button],
                unknown_control_ids: Seq::empty(),
            },
        ) == "diverted buttons "@ + settings::button_label(button),
        event_text(
            runtime_plan::EventView::DivertedButtons {
                buttons: Seq::empty(),
                unknown_control_ids: seq![control],
            },
        ) == "diverted buttons unknown "@ + ("0x"@ + text::hex_digits(control as nat, 4, true)),
{
    reveal_with_fuel(text::joined, 2);
    reveal_strlit("0x");
    assert(button_texts(Seq::empty()) =~= Seq::empty());
    assert(control_texts(Seq::empty()) =~= Seq::empty());
    assert(button_texts(seq![button]) =~= seq![settings::button_label(button)]);
    assert(control_texts(seq![control]) =~= seq![control_text(control)]);
    assert("0x"@.len() == 2);
}

/// What is done is told with what it comes from, what it is, and what became of it.
pub proof fn law_actions_are_told(
    action: runtime_plan::ActionView,
    execution: actions::ExecutionView,
    button: Master3sButton,
    direction: settings::GestureDirection,
    control: u16,
)
    ensures
        source_text(RuntimeActionSource::ThumbWheel) == "thumb wheel"@,
        source_text(RuntimeActionSource::Button(button)) == settings::button_label(button),
        source_text(RuntimeActionSource::Gesture { button, direction }) == settings::button_label(
            button,
        ) + " gesture "@ + labels::direction_label(direction),
        source_text(RuntimeActionSource::UnknownControlId(control)) == "unknown control "@ + ("0x"@
            + text::hex_digits(control as nat, 4, true)),
        action_text(action) == source_text(action.source) + " -> "@ + labels::command_label(
            action.command,
        ),
        execution.detail is None ==> execution_text(execution) == action_text(execution.action)
            + " ["@ + execution.status.label_spec() + "]"@,
        execution.detail matches Some(detail) ==> execution_text(execution) == action_text(
            execution.action,
        ) + " ["@ + execution.status.label_spec() + "]"@ + (": "@ + detail),
{
    if execution.detail is None {
        let said = action_text(execution.action) + " ["@ + execution.status.label_spec() + "]"@;
        assert(said + Seq::<char>::empty() =~= said);
    }
}

/// A report lists each event and each action, and what became of them where they were carried
/// out.
pub proof fn law_reports_list_everything(r: RuntimeListenReport, i: int)
    ensures
        listen_lines(r)[0] == "Runtime listener for "@ + r.device_id@,
        r.execute_actions ==> listen_lines(r)[1] == "  mode: "@ + "execute local actions"@,
        !r.execute_actions ==> listen_lines(r)[1] == "  mode: "@ + "dry-run"@,
        listen_lines(r)[3] == "  events: "@ + text::decimal(r.events@.len()),
        0 <= i < r.events@.len() ==> listen_lines(r)[4 + i] == "  - "@ + event_text(r.events@[i]@),
        listen_lines(r)[4 + r.events@.len() as int] == "  actions: "@ + text::decimal(r.actions@.len()),
        0 <= i < r.actions@.len() ==> listen_lines(r)[5 + r.events@.len() + i] == "  - "@
            + action_text(r.actions@[i]@),
        !r.execute_actions ==> listen_lines(r).len() == 5 + r.events@.len() + r.actions@.len(),
        r.execute_actions ==> listen_lines(r).len() == 6 + r.events@.len() + r.actions@.len()
            + r.executions@.len(),
        r.execute_actions && 0 <= i < r.executions@.len() ==> listen_lines(r)[6 + r.events@.len()
            + r.actions@.len() + i] == "  - "@ + execution_text(r.executions@[i]@),
{
}

/// An event is printed with its actions and, where they are carried out, what became of them.
pub proof fn law_events_are_printed(
    event: Master3sRuntimeEvent,
    all: Seq<ResolvedRuntimeAction>,
    done: Seq<RuntimeActionExecution>,
    i: int,
)
    ensures
        loop_event_lines(event, all, done, false)[0] == "  event: "@ + event_text(event@),
        all.len() == 0 ==> loop_event_lines(event, all, done, false) == seq![
            "  event: "@ + event_text(event@),
            "    actions: none"@,
        ],
        0 <= i < all.len() ==> loop_event_lines(event, all, done, true)[2 + i] == "      "@
            + action_text(all[i]@),
        all.len() > 0 && 0 <= i < done.len() ==> loop_event_lines(event, all, done, true)[3
            + all.len() + i] == "      "@ + execution_text(done[i]@),
        all.len() > 0 ==> loop_event_lines(event, all, done, false).len() == 2 + all.len(),
        done.len() == 0 ==> loop_event_lines(event, all, done, true).last()
            == "    executions: none"@,
{
    if all.len() == 0 {
        assert(loop_event_lines(event, all, done, false) =~= seq![
            "  event: "@ + event_text(event@),
            "    actions: none"@,
        ]);
    }
}

}
