//! What the desktop notifications say.

use crate::app_config::ApplicationLanguage;
use crate::error::{DogiError, ErrorKind};
use crate::text;
use vstd::prelude::*;

verus! {

pub const APPLICATION_ID: &'static str = "io.github.oksyd.dogi";

pub const APPLICATION_NAME: &'static str = "Dogi";

pub const NOTIFICATION_SERVICE: &'static str = "org.freedesktop.Notifications";

pub const NOTIFICATION_PATH: &'static str = "/org/freedesktop/Notifications";

/// How low a battery is.
#[derive(Clone, Copy, Debug, PartialEq, Eq, Structural)]
pub enum BatteryNotificationLevel {
    Low,
    Critical,
}

/// How pressing a notification is.
#[derive(Clone, Copy, Debug, PartialEq, Eq, Structural)]
pub enum NotificationUrgency {
    Normal,
    Critical,
}

/// The number of an urgency on the bus.
pub open spec fn urgency_level(urgency: NotificationUrgency) -> u8 {
    match urgency {
        NotificationUrgency::Normal => 1,
        NotificationUrgency::Critical => 2,
    }
}

impl NotificationUrgency {
    /// The number of the urgency on the bus.
    pub fn level(self) -> (r: u8)
        ensures
            r == urgency_level(self),
    {
        match self {
            NotificationUrgency::Normal => 1,
            NotificationUrgency::Critical => 2,
        }
    }
}

/// A notification that the desktop is asked to show.
#[derive(Debug, PartialEq, Eq)]
pub struct DesktopNotification {
    pub replaces_id: u32,
    pub title: String,
    pub body: String,
    pub urgency: NotificationUrgency,
}

/// The mathematical value of [`DesktopNotification`].
#[verifier::ext_equal]
pub struct NotificationView {
    pub replaces_id: u32,
    pub title: Seq<char>,
    pub body: Seq<char>,
    pub urgency: NotificationUrgency,
}

impl View for DesktopNotification {
    type V = NotificationView;

    open spec fn view(&self) -> NotificationView {
        NotificationView {
            replaces_id: self.replaces_id,
            title: self.title@,
            body: self.body@,
            urgency: self.urgency,
        }
    }
}

/// Whether the texts are Chinese. `locale` is the language of the desktop.
pub open spec fn speaks_chinese(language: ApplicationLanguage, locale: Seq<char>) -> bool {
    match language {
        ApplicationLanguage::System => text::has_prefix(locale, "zh"@),
        ApplicationLanguage::English => false,
        ApplicationLanguage::SimplifiedChinese => true,
    }
}

/// Whether the texts are Chinese. `locale` is the language of the desktop.
pub fn in_chinese(language: ApplicationLanguage, locale: &str) -> (r: bool)
    ensures
        r == speaks_chinese(language, locale@),
{
    match language {
        ApplicationLanguage::System => text::starts_with(locale, "zh"),
        ApplicationLanguage::English => false,
        ApplicationLanguage::SimplifiedChinese => true,
    }
}

/// The title of a notification of a low battery.
pub open spec fn low_title(
    chinese: bool,
    device: Seq<char>,
    level: BatteryNotificationLevel,
) -> Seq<char> {
    device + (match (chinese, level) {
        (true, BatteryNotificationLevel::Critical) => " 电量严重不足"@,
        (true, BatteryNotificationLevel::Low) => " 电量低"@,
        (false, BatteryNotificationLevel::Critical) => " battery is critically low"@,
        (false, BatteryNotificationLevel::Low) => " battery is low"@,
    })
}

/// The body of a notification of a low battery.
pub open spec fn low_body(chinese: bool, percent: u8, level: BatteryNotificationLevel) -> Seq<
    char,
> {
    match (chinese, level) {
        (true, BatteryNotificationLevel::Critical) => "仅剩 "@ + text::decimal(percent as nat)
            + "%，请连接充电线。"@,
        (true, BatteryNotificationLevel::Low) => "剩余 "@ + text::decimal(percent as nat)
            + "%，请及时充电。"@,
        (false, BatteryNotificationLevel::Critical) => "Only "@ + text::decimal(percent as nat)
            + "% remains. Connect a charging cable."@,
        (false, BatteryNotificationLevel::Low) => text::decimal(percent as nat)
            + "% remains. Charge the device soon."@,
    }
}

/// The title of a notification of a full battery.
pub open spec fn full_title(chinese: bool, device: Seq<char>) -> Seq<char> {
    device + (if chinese {
        " 已充满"@
    } else {
        " is fully charged"@
    })
}

/// The body of a notification of a full battery.
pub open spec fn full_body(chinese: bool) -> Seq<char> {
    if chinese {
        "充电已完成，可以拔下充电线。"@
    } else {
        "Charging is complete. You can disconnect the cable."@
    }
}

/// A percentage between two texts.
fn percent_between(before: &str, percent: u8, after: &str) -> (r: String)
    ensures
        r@ == before@ + text::decimal(percent as nat) + after@,
{
    let mut body = before.to_owned();
    text::push_decimal(&mut body, percent as u64);
    body.append(after);
    body
}

/// The title and the body of a notification of a low battery.
pub fn low_battery_content(
    language: ApplicationLanguage,
    locale: &str,
    device_name: &str,
    percent: u8,
    level: BatteryNotificationLevel,
) -> (r: (String, String))
    ensures
        r.0@ == low_title(speaks_chinese(language, locale@), device_name@, level),
        r.1@ == low_body(speaks_chinese(language, locale@), percent, level),
{
    let chinese = in_chinese(language, locale);
    let critical = level == BatteryNotificationLevel::Critical;
    if chinese {
        if critical {
            (
                text::concat2(device_name, " 电量严重不足"),
                percent_between("仅剩 ", percent, "%，请连接充电线。"),
            )
        } else {
            (
                text::concat2(device_name, " 电量低"),
                percent_between("剩余 ", percent, "%，请及时充电。"),
            )
        }
    } else if critical {
        (
            text::concat2(device_name, " battery is critically low"),
            percent_between("Only ", percent, "% remains. Connect a charging cable."),
        )
    } else {
        let body = percent_between("", percent, "% remains. Charge the device soon.");
        proof {
            reveal_strlit("");
        }
        assert(body@ =~= low_body(chinese, percent, level));
        (text::concat2(device_name, " battery is low"), body)
    }
}

/// The title and the body of a notification of a full battery.
pub fn fully_charged_content(
    language: ApplicationLanguage,
    locale: &str,
    device_name: &str,
) -> (r: (String, String))
    ensures
        r.0@ == full_title(speaks_chinese(language, locale@), device_name@),
        r.1@ == full_body(speaks_chinese(language, locale@)),
{
    if in_chinese(language, locale) {
        (
            text::concat2(device_name, " 已充满"),
            "充电已完成，可以拔下充电线。".to_owned(),
        )
    } else {
        (
            text::concat2(device_name, " is fully charged"),
            "Charging is complete. You can disconnect the cable.".to_owned(),
        )
    }
}

/// The number of the notification that a new one takes the place of; 0 where it takes
/// none.
pub open spec fn replaced(id: Option<u32>) -> u32 {
    match id {
        Some(id) => id,
        None => 0,
    }
}

/// The notification of a low battery.
pub fn show_low_battery(
    language: ApplicationLanguage,
    locale: &str,
    device_name: &str,
    percent: u8,
    level: BatteryNotificationLevel,
    replaces_id: Option<u32>,
) -> (r: DesktopNotification)
    ensures
        r@ == (NotificationView {
            replaces_id: replaced(replaces_id),
            title: low_title(speaks_chinese(language, locale@), device_name@, level),
            body: low_body(speaks_chinese(language, locale@), percent, level),
            urgency: match level {
                BatteryNotificationLevel::Low => NotificationUrgency::Normal,
                BatteryNotificationLevel::Critical => NotificationUrgency::Critical,
            },
        }),
{
    let (title, body) = low_battery_content(language, locale, device_name, percent, level);
    DesktopNotification {
        replaces_id: replaces_id.unwrap_or(0),
        title,
        body,
        urgency: match level {
            BatteryNotificationLevel::Low => NotificationUrgency::Normal,
            BatteryNotificationLevel::Critical => NotificationUrgency::Critical,
        },
    }
}

/// The notification of a full battery.
pub fn show_fully_charged(
    language: ApplicationLanguage,
    locale: &str,
    device_name: &str,
    replaces_id: Option<u32>,
) -> (r: DesktopNotification)
    ensures
        r@ == (NotificationView {
            replaces_id: replaced(replaces_id),
            title: full_title(speaks_chinese(language, locale@), device_name@),
            body: full_body(speaks_chinese(language, locale@)),
            urgency: NotificationUrgency::Normal,
        }),
{
    let (title, body) = fully_charged_content(language, locale, device_name);
    DesktopNotification {
        replaces_id: replaces_id.unwrap_or(0),
        title,
        body,
        urgency: NotificationUrgency::Normal,
    }
}

/// The notification that an update can be installed.
pub fn show_update_ready(title: String, body: String) -> (r: DesktopNotification)
    ensures
        r@ == (NotificationView {
            replaces_id: 0,
            title: title@,
            body: body@,
            urgency: NotificationUrgency::Normal,
        }),
{
    DesktopNotification { replaces_id: 0, title, body, urgency: NotificationUrgency::Normal }
}

/// The failure to show a notification.
pub fn notification_error(detail: &str) -> (r: DogiError)
    ensures
        r@ == (
            ErrorKind::BackendUnavailable,
            "desktop notifications are unavailable: "@ + detail@,
        ),
{
    DogiError::BackendUnavailable(
        text::concat2("desktop notifications are unavailable: ", detail),
    )
}

/// Notifications speak Chinese where the user chose it, or left the choice to a system that does,
/// and English otherwise.
pub proof fn law_language_of_notifications(locale: Seq<char>)
    ensures
        speaks_chinese(ApplicationLanguage::SimplifiedChinese, locale),
        !speaks_chinese(ApplicationLanguage::English, locale),
        speaks_chinese(ApplicationLanguage::System, locale) <==> locale.len() >= 2 && locale[0]
            == 'z' && locale[1] == 'h',
{
    reveal_strlit("zh");
    assert("zh"@.len() == 2 && "zh"@[0] == 'z' && "zh"@[1] == 'h');
    if locale.len() >= 2 && locale[0] == 'z' && locale[1] == 'h' {
        assert(locale.take(2) =~= "zh"@);
    }
    if text::has_prefix(locale, "zh"@) {
        assert(locale.take(2)[0] == 'z' && locale.take(2)[1] == 'h');
    }
}

/// A low battery is shown with the device and the percentage, more urgent where it is critical,
/// and in the place of the notification that is to be replaced.
pub proof fn law_low_batteries_are_shown(
    language: ApplicationLanguage,
    locale: &str,
    device: &str,
    percent: u8,
    level: BatteryNotificationLevel,
    replaces: Option<u32>,
)
    ensures
        urgency_level(NotificationUrgency::Normal) == 1,
        urgency_level(NotificationUrgency::Critical) == 2,
        forall|r: DesktopNotification|
            #![trigger call_ensures(show_low_battery, (language, locale, device, percent, level, replaces), r)]
            call_ensures(
                show_low_battery,
                (language, locale, device, percent, level, replaces),
                r,
            ) ==> {
                &&& level is Critical <==> r@.urgency is Critical
                &&& replaces matches Some(id) ==> r@.replaces_id == id
                &&& replaces is None ==> r@.replaces_id == 0
                &&& language is English && level is Low ==> r@.title == device@ + " battery is low"@
                    && r@.body == text::decimal(percent as nat)
                    + "% remains. Charge the device soon."@
                &&& language is English && level is Critical ==> r@.title == device@
                    + " battery is critically low"@ && r@.body == "Only "@ + text::decimal(
                    percent as nat,
                ) + "% remains. Connect a charging cable."@
                &&& language is SimplifiedChinese && level is Low ==> r@.title == device@
                    + " 电量低"@ && r@.body == "剩余 "@ + text::decimal(percent as nat)
                    + "%，请及时充电。"@
                &&& language is SimplifiedChinese && level is Critical ==> r@.title == device@
                    + " 电量严重不足"@ && r@.body == "仅剩 "@ + text::decimal(percent as nat)
                    + "%，请连接充电线。"@
            },
{
}

/// A full battery is shown with the device, in the place of the notification that is to be
/// replaced.
pub proof fn law_full_batteries_are_shown(
    language: ApplicationLanguage,
    locale: &str,
    device: &str,
    replaces: Option<u32>,
    title: String,
    body: String,
)
    ensures
        forall|r: DesktopNotification|
            #![trigger call_ensures(show_fully_charged, (language, locale, device, replaces), r)]
            call_ensures(show_fully_charged, (language, locale, device, replaces), r) ==> {
                &&& r@.urgency is Normal
                &&& replaces matches Some(id) ==> r@.replaces_id == id
                &&& replaces is None ==> r@.replaces_id == 0
                &&& language is English ==> r@.title == device@ + " is fully charged"@ && r@.body
                    == "Charging is complete. You can disconnect the cable."@
                &&& language is SimplifiedChinese ==> r@.title == device@ + " 已充满"@ && r@.body
                    == "充电已完成，可以拔下充电线。"@
            },
        forall|r: DesktopNotification|
            #![trigger call_ensures(show_update_ready, (title, body), r)]
            call_ensures(show_update_ready, (title, body), r) ==> r@.title == title@ && r@.body
                == body@ && r@.replaces_id == 0 && r@.urgency is Normal,
{
}

}
