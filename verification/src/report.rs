//! Reports for the terminal, as lines of text.

use crate::device_info::{DeviceInfo, HidppFeatureInfo, PairedDeviceInfo};
use crate::device_info;
use crate::text;
use vstd::prelude::*;

verus! {

/// A truth value in words.
pub open spec fn truth(value: bool) -> Seq<char> {
    if value {
        "true"@
    } else {
        "false"@
    }
}

/// Whether something is switched on, in words.
pub open spec fn switched(value: bool) -> Seq<char> {
    if value {
        "enabled"@
    } else {
        "disabled"@
    }
}

/// A truth value in words.
pub fn truth_text(value: bool) -> (r: &'static str)
    ensures
        r@ == truth(value),
{
    if value {
        "true"
    } else {
        "false"
    }
}

/// Whether something is switched on, in words.
pub fn enabled_text(value: bool) -> (r: &'static str)
    ensures
        r@ == switched(value),
{
    if value {
        "enabled"
    } else {
        "disabled"
    }
}

/// The ending of a noun that is counted.
pub open spec fn plural_ending(count: nat) -> Seq<char> {
    if count == 1 {
        ""@
    } else {
        "s"@
    }
}

/// The ending of a noun that is counted.
pub fn plural(count: usize) -> (r: &'static str)
    ensures
        r@ == plural_ending(count as nat),
{
    if count == 1 {
        ""
    } else {
        "s"
    }
}

/// The line of a value that may be missing.
pub open spec fn optional_line(label: Seq<char>, value: Option<Seq<char>>) -> Seq<Seq<char>> {
    match value {
        Some(value) => seq![label + value],
        None => Seq::empty(),
    }
}

/// Adds a line.
pub fn add_text(lines: &mut Vec<String>, line: &str)
    ensures
        text::texts(final(lines)@) == text::texts(old(lines)@).push(line@),
{
    lines.push(line.to_owned());
    assert(text::texts(lines@) =~= text::texts(old(lines)@).push(line@));
}

/// Adds a line that consists of a label and a value.
pub fn add_line(lines: &mut Vec<String>, label: &str, value: &str)
    ensures
        text::texts(final(lines)@) == text::texts(old(lines)@).push(label@ + value@),
{
    lines.push(text::concat2(label, value));
    assert(text::texts(lines@) =~= text::texts(old(lines)@).push(label@ + value@));
}

/// Adds the line of a value that may be missing.
pub fn add_optional(lines: &mut Vec<String>, label: &str, value: &Option<String>)
    ensures
        text::texts(final(lines)@) == text::texts(old(lines)@) + optional_line(
            label@,
            text::optional(*value),
        ),
{
    if let Some(value) = value {
        add_line(lines, label, value.as_str());
    }
    assert(text::texts(lines@) =~= text::texts(old(lines)@) + optional_line(
        label@,
        text::optional(*value),
    ));
}

/// Adds lines.
pub fn add_all(lines: &mut Vec<String>, more: Vec<String>)
    ensures
        text::texts(final(lines)@) == text::texts(old(lines)@) + text::texts(more@),
{
    let ghost added = text::texts(more@);
    let mut more = more;
    lines.append(&mut more);
    assert(text::texts(lines@) =~= text::texts(old(lines)@) + added);
}

/// A number in hexadecimal, four digits wide.
pub open spec fn word_text(n: u16) -> Seq<char> {
    "0x"@ + text::hex_digits(n as nat, 4, false)
}

/// A number in hexadecimal, four digits wide.
pub fn hex_word(n: u16) -> (r: String)
    ensures
        r@ == word_text(n),
{
    let mut r = "0x".to_owned();
    text::push_hex(&mut r, n as u32, 4, false);
    r
}

/// An optional number in hexadecimal.
pub open spec fn optional_word(n: Option<u16>) -> Option<Seq<char>> {
    match n {
        Some(n) => Some(word_text(n)),
        None => None,
    }
}

fn hex_word_or_none(n: Option<u16>) -> (r: Option<String>)
    ensures
        text::optional(r) == optional_word(n),
{
    match n {
        Some(n) => Some(hex_word(n)),
        None => None,
    }
}

/// The features of a device in words, the first `n` of them.
pub open spec fn feature_texts(features: Seq<HidppFeatureInfo>, n: nat) -> Seq<Seq<char>>
    decreases n,
{
    if n == 0 || n > features.len() {
        Seq::empty()
    } else {
        let f = features[n - 1];
        feature_texts(features, (n - 1) as nat).push(
            f.name@ + "@"@ + text::decimal(f.index as nat) + " v"@ + text::decimal(
                f.version as nat,
            ),
        )
    }
}

/// The features of a device in words.
pub open spec fn feature_list(features: Seq<HidppFeatureInfo>) -> Seq<char> {
    if features.len() == 0 {
        "none"@
    } else {
        text::joined(feature_texts(features, features.len()), ", "@)
    }
}

/// The features of a device in words.
pub fn format_hidpp_features(features: &Vec<HidppFeatureInfo>) -> (r: String)
    ensures
        r@ == feature_list(features@),
{
    if features.len() == 0 {
        return "none".to_owned();
    }
    let mut parts: Vec<String> = Vec::new();
    let mut i: usize = 0;
    assert(text::texts(parts@) =~= feature_texts(features@, 0));
    while i < features.len()
        invariant
            i <= features@.len(),
            text::texts(parts@) == feature_texts(features@, i as nat),
        decreases features@.len() - i,
    {
        let f = &features[i];
        let mut part = text::concat2(f.name.as_str(), "@");
        text::push_decimal(&mut part, f.index as u64);
        part.append(" v");
        text::push_decimal(&mut part, f.version as u64);
        parts.push(part);
        i += 1;
        assert(text::texts(parts@) =~= feature_texts(features@, i as nat));
    }
    text::join(&parts, ", ")
}

/// The numbers of reports in words, the first `n` of them.
pub open spec fn report_id_texts(ids: Seq<u8>, n: nat) -> Seq<Seq<char>>
    decreases n,
{
    if n == 0 || n > ids.len() {
        Seq::empty()
    } else {
        report_id_texts(ids, (n - 1) as nat).push(
            "0x"@ + text::hex_digits(ids[n - 1] as nat, 2, false),
        )
    }
}

/// The numbers of reports in words.
pub open spec fn report_id_list(ids: Seq<u8>) -> Seq<char> {
    if ids.len() == 0 {
        "none"@
    } else {
        text::joined(report_id_texts(ids, ids.len()), ", "@)
    }
}

/// The numbers of the reports of a device in words.
pub fn format_report_ids(device: &DeviceInfo) -> (r: String)
    ensures
        r@ == report_id_list(device.report_descriptor.report_ids@),
{
    let ids = &device.report_descriptor.report_ids;
    if ids.len() == 0 {
        return "none".to_owned();
    }
    let mut parts: Vec<String> = Vec::new();
    let mut i: usize = 0;
    assert(text::texts(parts@) =~= report_id_texts(ids@, 0));
    while i < ids.len()
        invariant
            i <= ids@.len(),
            text::texts(parts@) == report_id_texts(ids@, i as nat),
        decreases ids@.len() - i,
    {
        let mut part = "0x".to_owned();
        text::push_hex(&mut part, ids[i] as u32, 2, false);
        parts.push(part);
        i += 1;
        assert(text::texts(parts@) =~= report_id_texts(ids@, i as nat));
    }
    text::join(&parts, ", ")
}

/// Pages of usages in words, the first `n` of them.
pub open spec fn usage_page_texts(pages: Seq<u16>, n: nat) -> Seq<Seq<char>>
    decreases n,
{
    if n == 0 || n > pages.len() {
        Seq::empty()
    } else {
        usage_page_texts(pages, (n - 1) as nat).push(word_text(pages[n - 1]))
    }
}

/// Pages of usages in words.
pub open spec fn usage_page_list(pages: Seq<u16>) -> Seq<char> {
    if pages.len() == 0 {
        "none"@
    } else {
        text::joined(usage_page_texts(pages, pages.len()), ", "@)
    }
}

/// Pages of usages in words.
pub fn format_usage_pages(pages: &Vec<u16>) -> (r: String)
    ensures
        r@ == usage_page_list(pages@),
{
    if pages.len() == 0 {
        return "none".to_owned();
    }
    let mut parts: Vec<String> = Vec::new();
    let mut i: usize = 0;
    assert(text::texts(parts@) =~= usage_page_texts(pages@, 0));
    while i < pages.len()
        invariant
            i <= pages@.len(),
            text::texts(parts@) == usage_page_texts(pages@, i as nat),
        decreases pages@.len() - i,
    {
        parts.push(hex_word(pages[i]));
        i += 1;
        assert(text::texts(parts@) =~= usage_page_texts(pages@, i as nat));
    }
    text::join(&parts, ", ")
}

/// An optional number in words.
pub open spec fn optional_decimal(n: Option<u16>) -> Option<Seq<char>> {
    match n {
        Some(n) => Some(text::decimal(n as nat)),
        None => None,
    }
}

fn decimal_or_none(n: Option<u16>) -> (r: Option<String>)
    ensures
        text::optional(r) == optional_decimal(n),
{
    match n {
        Some(n) => Some(text::decimal_text(n as u64)),
        None => None,
    }
}

/// What a device is and how it is connected.
pub open spec fn identity_lines(d: DeviceInfo) -> Seq<Seq<char>> {
    seq![
        device_info::shown_name(d),
        "  id: "@ + d.id@,
        "  endpoint name: "@ + d.name@,
        "  vendor/product: "@ + device_info::product_numbers(d),
        "  bus: "@ + device_info::bus_label(d.bus),
    ] + optional_line("  bus id: "@, optional_word(d.bus_id)) + seq![
        "  connection: "@ + device_info::connection_label(d.connection),
    ] + optional_line(
        "  receiver: "@,
        match d.receiver_kind {
            Some(kind) => Some(device_info::receiver_label(kind)),
            None => None,
        },
    )
}

/// What a device says of itself and where it is found.
pub open spec fn origin_lines(d: DeviceInfo) -> Seq<Seq<char>> {
    optional_line("  manufacturer: "@, text::optional(d.manufacturer)) + optional_line(
        "  serial: "@,
        text::optional(d.serial_number),
    ) + optional_line("  release: "@, optional_decimal(d.release_number)) + optional_line(
        "  interface: "@,
        match d.interface_number {
            Some(n) => Some(text::signed_decimal(n as int)),
            None => None,
        },
    ) + optional_line("  usage page: "@, optional_word(d.usage_page)) + optional_line(
        "  usage: "@,
        optional_word(d.usage),
    ) + seq!["  path: "@ + d.path@, "  sysfs: "@ + d.sysfs_path@] + optional_line(
        "  physical: "@,
        text::optional(d.physical_path),
    ) + optional_line("  driver: "@, text::optional(d.driver))
}

/// What is known of a device that is paired with a receiver.
pub open spec fn paired_lines(p: PairedDeviceInfo) -> Seq<Seq<char>> {
    seq!["  paired device:"@, "    slot: "@ + text::decimal(p.slot as nat)] + optional_line(
        "    name: "@,
        text::optional(p.name),
    ) + optional_line("    kind: "@, text::optional(p.kind)) + optional_line(
        "    WPID: "@,
        text::optional(p.wpid),
    ) + optional_line(
        "    HID++ protocol: "@,
        match p.protocol {
            Some(v) => Some(text::decimal(v.major as nat) + "."@ + text::decimal(v.minor as nat)),
            None => None,
        },
    ) + optional_line("    unit id: "@, text::optional(p.unit_id)) + optional_line(
        "    model id: "@,
        text::optional(p.model_id),
    ) + seq![
        "    features: "@ + text::decimal(p.feature_count as nat),
        "    feature list: "@ + feature_list(p.features@),
    ]
}

/// What may be done with a device, and how its battery is.
pub open spec fn access_lines(d: DeviceInfo) -> Seq<Seq<char>> {
    seq![
        "  access:"@,
        "    sysfs readable: "@ + truth(d.access.sysfs_readable),
        "    hidraw readable: "@ + truth(d.access.hidraw_readable),
        "    hidraw read/write: "@ + truth(d.access.hidraw_readwrite),
        "    write policy: "@ + device_info::policy_label(d.access.write_policy),
        "  battery:"@,
        "    level: "@ + device_info::battery_summary(d.battery.level_percent, d.battery.status),
        "    source: "@ + device_info::source_label(d.battery.source),
    ]
}

/// What the reports of a device look like.
pub open spec fn descriptor_lines(d: DeviceInfo) -> Seq<Seq<char>> {
    seq![
        "  report descriptor:"@,
        "    bytes: "@ + text::decimal(d.report_descriptor.byte_len as nat),
        "    report ids: "@ + report_id_list(d.report_descriptor.report_ids@),
        "    input/output/feature: "@ + (truth(d.report_descriptor.has_input_reports) + "/"@ + truth(
            d.report_descriptor.has_output_reports,
        ) + "/"@ + truth(d.report_descriptor.has_feature_reports)),
        "    vendor usage pages: "@ + usage_page_list(d.report_descriptor.vendor_usage_pages@),
    ]
}

/// What a device can do.
pub open spec fn capability_lines(d: DeviceInfo) -> Seq<Seq<char>> {
    seq![
        "  capabilities:"@,
        "    HID++: "@ + device_info::capability_label(d.capabilities.hidpp),
        "    battery: "@ + device_info::capability_label(d.capabilities.battery),
        "    DPI: "@ + device_info::capability_label(d.capabilities.dpi),
        "    button mapping: "@ + device_info::capability_label(d.capabilities.button_mapping),
        "    onboard profiles: "@ + device_info::capability_label(d.capabilities.onboard_profiles),
        "    wheel mode: "@ + device_info::capability_label(d.capabilities.wheel_mode),
    ]
}

/// Everything that is known of a device.
pub open spec fn device_lines(d: DeviceInfo) -> Seq<Seq<char>> {
    identity_lines(d) + origin_lines(d) + (match d.paired_device {
        Some(paired) => paired_lines(paired),
        None => Seq::empty(),
    }) + access_lines(d) + descriptor_lines(d) + capability_lines(d)
}

fn identity_report(d: &DeviceInfo) -> (r: Vec<String>)
    ensures
        text::texts(r@) == identity_lines(*d),
{
    let mut lines: Vec<String> = Vec::new();
    lines.push(device_info::display_device_name(d).to_owned());
    assert(text::texts(lines@) =~= seq![device_info::shown_name(*d)]);
    add_line(&mut lines, "  id: ", d.id.as_str());
    add_line(&mut lines, "  endpoint name: ", d.name.as_str());
    add_line(&mut lines, "  vendor/product: ", d.product_key().as_str());
    add_line(&mut lines, "  bus: ", d.bus.label());
    add_optional(&mut lines, "  bus id: ", &hex_word_or_none(d.bus_id));
    add_line(&mut lines, "  connection: ", d.connection.label());
    let receiver = match d.receiver_kind {
        Some(kind) => Some(kind.label().to_owned()),
        None => None,
    };
    add_optional(&mut lines, "  receiver: ", &receiver);
    assert(text::texts(lines@) =~= identity_lines(*d));
    lines
}

fn origin_report(d: &DeviceInfo) -> (r: Vec<String>)
    ensures
        text::texts(r@) == origin_lines(*d),
{
    let mut lines: Vec<String> = Vec::new();
    assert(text::texts(lines@) =~= Seq::<Seq<char>>::empty());
    add_optional(&mut lines, "  manufacturer: ", &d.manufacturer);
    add_optional(&mut lines, "  serial: ", &d.serial_number);
    add_optional(&mut lines, "  release: ", &decimal_or_none(d.release_number));
    let interface = match d.interface_number {
        Some(n) => {
            let mut s = String::new();
            text::push_signed(&mut s, n as i64);
            assert(s@ =~= text::signed_decimal(n as int));
            Some(s)
        },
        None => None,
    };
    add_optional(&mut lines, "  interface: ", &interface);
    add_optional(&mut lines, "  usage page: ", &hex_word_or_none(d.usage_page));
    add_optional(&mut lines, "  usage: ", &hex_word_or_none(d.usage));
    add_line(&mut lines, "  path: ", d.path.as_str());
    add_line(&mut lines, "  sysfs: ", d.sysfs_path.as_str());
    add_optional(&mut lines, "  physical: ", &d.physical_path);
    add_optional(&mut lines, "  driver: ", &d.driver);
    assert(text::texts(lines@) =~= origin_lines(*d));
    lines
}

fn paired_report(p: &PairedDeviceInfo) -> (r: Vec<String>)
    ensures
        text::texts(r@) == paired_lines(*p),
{
    let mut lines: Vec<String> = Vec::new();
    lines.push("  paired device:".to_owned());
    assert(text::texts(lines@) =~= seq!["  paired device:"@]);
    add_line(&mut lines, "    slot: ", text::decimal_text(p.slot as u64).as_str());
    add_optional(&mut lines, "    name: ", &p.name);
    add_optional(&mut lines, "    kind: ", &p.kind);
    add_optional(&mut lines, "    WPID: ", &p.wpid);
    let protocol = match p.protocol {
        Some(v) => {
            let mut s = text::decimal_text(v.major as u64);
            s.append(".");
            text::push_decimal(&mut s, v.minor as u64);
            Some(s)
        },
        None => None,
    };
    add_optional(&mut lines, "    HID++ protocol: ", &protocol);
    add_optional(&mut lines, "    unit id: ", &p.unit_id);
    add_optional(&mut lines, "    model id: ", &p.model_id);
    add_line(&mut lines, "    features: ", text::decimal_text(p.feature_count as u64).as_str());
    add_line(&mut lines, "    feature list: ", format_hidpp_features(&p.features).as_str());
    assert(text::texts(lines@) =~= paired_lines(*p));
    lines
}

fn access_report(d: &DeviceInfo) -> (r: Vec<String>)
    ensures
        text::texts(r@) == access_lines(*d),
{
    let mut lines: Vec<String> = Vec::new();
    lines.push("  access:".to_owned());
    assert(text::texts(lines@) =~= seq!["  access:"@]);
    add_line(&mut lines, "    sysfs readable: ", truth_text(d.access.sysfs_readable));
    add_line(&mut lines, "    hidraw readable: ", truth_text(d.access.hidraw_readable));
    add_line(&mut lines, "    hidraw read/write: ", truth_text(d.access.hidraw_readwrite));
    add_line(&mut lines, "    write policy: ", d.access.write_policy.label());
    add_text(&mut lines, "  battery:");
    add_line(&mut lines, "    level: ", d.battery.summary().as_str());
    add_line(&mut lines, "    source: ", d.battery.source.label());
    assert(text::texts(lines@) =~= access_lines(*d));
    lines
}

fn descriptor_report(d: &DeviceInfo) -> (r: Vec<String>)
    ensures
        text::texts(r@) == descriptor_lines(*d),
{
    let mut lines: Vec<String> = Vec::new();
    lines.push("  report descriptor:".to_owned());
    assert(text::texts(lines@) =~= seq!["  report descriptor:"@]);
    add_line(&mut lines, "    bytes: ", text::decimal_text(d.report_descriptor.byte_len as u64).as_str());
    add_line(&mut lines, "    report ids: ", format_report_ids(d).as_str());
    let mut kinds = text::concat3(
        truth_text(d.report_descriptor.has_input_reports),
        "/",
        truth_text(d.report_descriptor.has_output_reports),
    );
    kinds.append("/");
    kinds.append(truth_text(d.report_descriptor.has_feature_reports));
    add_line(&mut lines, "    input/output/feature: ", kinds.as_str());
    add_line(
        &mut lines,
        "    vendor usage pages: ",
        format_usage_pages(&d.report_descriptor.vendor_usage_pages).as_str(),
    );
    assert(text::texts(lines@) =~= descriptor_lines(*d));
    lines
}

fn capability_report(d: &DeviceInfo) -> (r: Vec<String>)
    ensures
        text::texts(r@) == capability_lines(*d),
{
    let mut lines: Vec<String> = Vec::new();
    lines.push("  capabilities:".to_owned());
    assert(text::texts(lines@) =~= seq!["  capabilities:"@]);
    add_line(&mut lines, "    HID++: ", d.capabilities.hidpp.label());
    add_line(&mut lines, "    battery: ", d.capabilities.battery.label());
    add_line(&mut lines, "    DPI: ", d.capabilities.dpi.label());
    add_line(&mut lines, "    button mapping: ", d.capabilities.button_mapping.label());
    add_line(&mut lines, "    onboard profiles: ", d.capabilities.onboard_profiles.label());
    add_line(&mut lines, "    wheel mode: ", d.capabilities.wheel_mode.label());
    assert(text::texts(lines@) =~= capability_lines(*d));
    lines
}

/// Everything that is known of a device.
pub fn device_report(d: &DeviceInfo) -> (r: Vec<String>)
    ensures
        text::texts(r@) == device_lines(*d),
{
    let mut lines = identity_report(d);
    add_all(&mut lines, origin_report(d));
    if let Some(paired) = &d.paired_device {
        add_all(&mut lines, paired_report(paired));
    }
    assert(text::texts(lines@) =~= identity_lines(*d) + origin_lines(*d) + (match d.paired_device {
        Some(paired) => paired_lines(paired),
        None => Seq::empty(),
    }));
    add_all(&mut lines, access_report(d));
    add_all(&mut lines, descriptor_report(d));
    add_all(&mut lines, capability_report(d));
    lines
}

/// The words for what is on or off, true or false, and more than one.
pub proof fn law_words_for_answers(n: nat)
    ensures
        truth(true) == "true"@ && truth(false) == "false"@,
        switched(true) == "enabled"@ && switched(false) == "disabled"@,
        plural_ending(1).len() == 0,
        n != 1 ==> plural_ending(n) == "s"@,
        feature_list(Seq::empty()) == "none"@ && report_id_list(Seq::empty()) == "none"@
            && usage_page_list(Seq::empty()) == "none"@,
{
    reveal_strlit("");
}

/// What is known of a device is printed, each on a line of its own, and nothing is printed of
/// what is not known.
pub proof fn law_devices_are_printed(d: DeviceInfo, label: Seq<char>, value: Seq<char>, n: u16)
    ensures
        optional_line(label, Some(value)) == seq![label + value],
        optional_line(label, None).len() == 0,
        word_text(n) == "0x"@ + text::hex_digits(n as nat, 4, false),
        identity_lines(d)[0] == device_info::shown_name(d),
        identity_lines(d)[1] == "  id: "@ + d.id@,
        identity_lines(d)[2] == "  endpoint name: "@ + d.name@,
        identity_lines(d)[3] == "  vendor/product: "@ + device_info::product_numbers(d),
        identity_lines(d)[4] == "  bus: "@ + device_info::bus_label(d.bus),
        d.bus_id is None ==> identity_lines(d)[5] == "  connection: "@
            + device_info::connection_label(d.connection),
        d.bus_id == Some(n) ==> identity_lines(d)[5] == "  bus id: "@ + word_text(n)
            && identity_lines(d)[6] == "  connection: "@ + device_info::connection_label(
            d.connection,
        ),
        access_lines(d)[1] == "    sysfs readable: "@ + truth(d.access.sysfs_readable),
        access_lines(d)[2] == "    hidraw readable: "@ + truth(d.access.hidraw_readable),
        access_lines(d)[3] == "    hidraw read/write: "@ + truth(d.access.hidraw_readwrite),
        access_lines(d)[4] == "    write policy: "@ + device_info::policy_label(
            d.access.write_policy,
        ),
        access_lines(d)[6] == "    level: "@ + device_info::battery_summary(
            d.battery.level_percent,
            d.battery.status,
        ),
        access_lines(d)[7] == "    source: "@ + device_info::source_label(d.battery.source),
        descriptor_lines(d)[1] == "    bytes: "@ + text::decimal(d.report_descriptor.byte_len as nat),
        capability_lines(d)[1] == "    HID++: "@ + device_info::capability_label(
            d.capabilities.hidpp,
        ),
        capability_lines(d)[2] == "    battery: "@ + device_info::capability_label(
            d.capabilities.battery,
        ),
        capability_lines(d)[3] == "    DPI: "@ + device_info::capability_label(d.capabilities.dpi),
        capability_lines(d)[4] == "    button mapping: "@ + device_info::capability_label(
            d.capabilities.button_mapping,
        ),
        capability_lines(d)[5] == "    onboard profiles: "@ + device_info::capability_label(
            d.capabilities.onboard_profiles,
        ),
        capability_lines(d)[6] == "    wheel mode: "@ + device_info::capability_label(
            d.capabilities.wheel_mode,
        ),
        device_lines(d).len() >= identity_lines(d).len() && device_lines(d).take(
            identity_lines(d).len() as int,
        ) == identity_lines(d),
        device_lines(d).skip(device_lines(d).len() - 7) == capability_lines(d),
{
    assert(device_lines(d).take(identity_lines(d).len() as int) =~= identity_lines(d));
    assert(device_lines(d).skip(device_lines(d).len() - 7) =~= capability_lines(d));
}

/// Lists of features, reports and pages name each member, in order.
pub proof fn law_lists_name_each_member(f: HidppFeatureInfo, id: u8, page: u16)
    ensures
        feature_list(seq![f]) == f.name@ + "@"@ + text::decimal(f.index as nat) + " v"@
            + text::decimal(f.version as nat),
        report_id_list(seq![id]) == "0x"@ + text::hex_digits(id as nat, 2, false),
        usage_page_list(seq![page]) == word_text(page),
        forall|features: Seq<HidppFeatureInfo>|
            #[trigger] feature_texts(features.push(f), features.len() + 1).len()
                == features.len() + 1,
{
    reveal_with_fuel(feature_texts, 2);
    reveal_with_fuel(report_id_texts, 2);
    reveal_with_fuel(usage_page_texts, 2);
    assert forall|features: Seq<HidppFeatureInfo>|
        #[trigger] feature_texts(features.push(f), features.len() + 1).len()
            == features.len() + 1 by {
        lemma_feature_count(features.push(f), features.len() + 1);
    }
}

proof fn lemma_feature_count(features: Seq<HidppFeatureInfo>, n: nat)
    requires
        n <= features.len(),
    ensures
        feature_texts(features, n).len() == n,
    decreases n,
{
    if n > 0 {
        lemma_feature_count(features, (n - 1) as nat);
    }
}

}
