//! Notifications of the mouse, from the bytes of their reports.

use crate::device_info::HidppFeatureInfo;
use crate::runtime_plan::{EventView, Master3sRuntimeEvent};
use crate::settings::Master3sButton;
use crate::settings;
use vstd::prelude::*;

verus! {

pub const HIDPP_SHORT_REPORT_ID: u8 = 0x10;

pub const HIDPP_LONG_REPORT_ID: u8 = 0x11;

pub const HIDPP_FEATURE_REPROG_CONTROLS_V4: u16 = 0x1b04;

pub const HIDPP_FEATURE_THUMB_WHEEL: u16 = 0x2150;

/// The number that two bytes stand for, the higher one first.
pub open spec fn word(high: u8, low: u8) -> u16 {
    (high * 256 + low) as u16
}

/// The number that two bytes stand for.
pub fn word_of(high: u8, low: u8) -> (r: u16)
    ensures
        r == word(high, low),
{
    (high as u16) * 256 + (low as u16)
}

/// The number that sixteen bits stand for where it may be negative.
pub open spec fn signed(n: u16) -> i16 {
    if n < 0x8000 {
        n as i16
    } else {
        (n - 0x10000) as i16
    }
}

fn signed_of(n: u16) -> (r: i16)
    ensures
        r == signed(n),
{
    if n < 0x8000 {
        n as i16
    } else {
        (n as i32 - 0x10000) as i16
    }
}

/// The feature that a device has at an index, of those from `i` on.
pub open spec fn feature_at(features: Seq<HidppFeatureInfo>, index: u8, i: int) -> Option<u16>
    decreases features.len() - i,
{
    if i < 0 || i >= features.len() {
        None
    } else if features[i].index == index {
        Some(features[i].feature_id)
    } else {
        feature_at(features, index, i + 1)
    }
}

fn find_feature(features: &[HidppFeatureInfo], index: u8) -> (r: Option<u16>)
    ensures
        r == feature_at(features@, index, 0),
{
    let mut i: usize = 0;
    while i < features.len()
        invariant
            i <= features@.len(),
            feature_at(features@, index, 0) == feature_at(features@, index, i as int),
        decreases features@.len() - i,
    {
        if features[i].index == index {
            return Some(features[i].feature_id);
        }
        i += 1;
    }
    None
}

/// The buttons among the first `n` controls that are held down.
pub open spec fn held_buttons(data: Seq<u8>, n: nat) -> Seq<Master3sButton>
    decreases n,
{
    if n == 0 {
        Seq::empty()
    } else {
        let before = held_buttons(data, (n - 1) as nat);
        let id = word(data[2 * (n - 1)], data[2 * (n - 1) + 1]);
        match settings::button_of_control(id) {
            Some(button) => if id == 0 {
                before
            } else {
                before.push(button)
            },
            None => before,
        }
    }
}

/// Those among the first `n` controls that are held down and are no known button.
pub open spec fn unknown_controls(data: Seq<u8>, n: nat) -> Seq<u16>
    decreases n,
{
    if n == 0 {
        Seq::empty()
    } else {
        let before = unknown_controls(data, (n - 1) as nat);
        let id = word(data[2 * (n - 1)], data[2 * (n - 1) + 1]);
        if id == 0 || settings::button_of_control(id) is Some {
            before
        } else {
            before.push(id)
        }
    }
}

/// What the thumb wheel reports.
pub open spec fn thumb_wheel_event(data: Seq<u8>) -> Option<EventView> {
    if data.len() < 2 {
        None
    } else {
        Some(
            EventView::ThumbWheel {
                delta: signed(word(data[0], data[1])),
                phase: if data.len() > 4 {
                    Some(data[4])
                } else {
                    None
                },
                resolution: 1,
                direction: 1,
            },
        )
    }
}

/// What the buttons report: four controls, of which those that are zero are none.
pub open spec fn button_event(data: Seq<u8>) -> Option<EventView> {
    if data.len() < 8 {
        None
    } else {
        Some(
            EventView::DivertedButtons {
                buttons: held_buttons(data, 4),
                unknown_control_ids: unknown_controls(data, 4),
            },
        )
    }
}

/// What a movement during a gesture reports.
pub open spec fn movement_event(data: Seq<u8>) -> Option<EventView> {
    if data.len() < 4 {
        None
    } else {
        Some(
            EventView::RawMovement {
                x: signed(word(data[0], data[1])),
                y: signed(word(data[2], data[3])),
            },
        )
    }
}

/// What a report tells the runtime. Of the byte at index 3, the higher half is the
/// function, and the lower half is zero in a notification.
pub open spec fn event_of(report: Seq<u8>, features: Seq<HidppFeatureInfo>) -> Option<EventView> {
    if report.len() < 4 || (report[0] != HIDPP_SHORT_REPORT_ID && report[0]
        != HIDPP_LONG_REPORT_ID) || report[2] == 0 || report[3] % 16 != 0 {
        None
    } else {
        let data = report.skip(4);
        let function = report[3] / 16;
        let feature = feature_at(features, report[2], 0);
        if feature == Some(HIDPP_FEATURE_THUMB_WHEEL) && function == 0 {
            thumb_wheel_event(data)
        } else if feature == Some(HIDPP_FEATURE_REPROG_CONTROLS_V4) && function == 0 {
            button_event(data)
        } else if feature == Some(HIDPP_FEATURE_REPROG_CONTROLS_V4) && function == 1 {
            movement_event(data)
        } else {
            None
        }
    }
}

/// The value of an optional event.
pub open spec fn optional_event(event: Option<Master3sRuntimeEvent>) -> Option<EventView> {
    match event {
        Some(event) => Some(event@),
        None => None,
    }
}

/// Reads what a report tells the runtime.
pub fn parse_notification(report: &[u8], features: &[HidppFeatureInfo]) -> (r: Option<
    Master3sRuntimeEvent,
>)
    ensures
        optional_event(r) == event_of(report@, features@),
{
    if report.len() < 4 {
        return None;
    }
    let report_id: u8 = report[0];
    if report_id != HIDPP_SHORT_REPORT_ID && report_id != HIDPP_LONG_REPORT_ID {
        return None;
    }
    let feature_index: u8 = report[2];
    let address: u8 = report[3];
    assert(address & 0x0f == address % 16 && address >> 4 == address / 16) by (bit_vector);
    if feature_index == 0 || address & 0x0f != 0 {
        return None;
    }
    let function: u8 = address >> 4;
    let feature_id: u16 = match find_feature(features, feature_index) {
        Some(id) => id,
        None => {
            return None;
        },
    };
    if feature_id == HIDPP_FEATURE_THUMB_WHEEL && function == 0 {
        parse_thumb_wheel(report)
    } else if feature_id == HIDPP_FEATURE_REPROG_CONTROLS_V4 && function == 0 {
        parse_diverted_buttons(report)
    } else if feature_id == HIDPP_FEATURE_REPROG_CONTROLS_V4 && function == 1 {
        parse_raw_movement(report)
    } else {
        None
    }
}

fn parse_thumb_wheel(report: &[u8]) -> (r: Option<Master3sRuntimeEvent>)
    requires
        report@.len() >= 4,
    ensures
        optional_event(r) == thumb_wheel_event(report@.skip(4)),
{
    if report.len() < 6 {
        return None;
    }
    let phase = if report.len() > 8 {
        Some(report[8])
    } else {
        None
    };
    Some(
        Master3sRuntimeEvent::ThumbWheel {
            delta: signed_of(word_of(report[4], report[5])),
            phase,
            resolution: 1,
            direction: 1,
        },
    )
}

fn parse_diverted_buttons(report: &[u8]) -> (r: Option<Master3sRuntimeEvent>)
    requires
        report@.len() >= 4,
    ensures
        optional_event(r) == button_event(report@.skip(4)),
{
    if report.len() < 12 {
        return None;
    }
    let ghost data = report@.skip(4);
    let mut buttons: Vec<Master3sButton> = Vec::new();
    let mut unknown_control_ids: Vec<u16> = Vec::new();
    let mut i: usize = 0;
    while i < 4
        invariant
            i <= 4,
            report@.len() >= 12,
            data == report@.skip(4),
            buttons@ == held_buttons(data, i as nat),
            unknown_control_ids@ == unknown_controls(data, i as nat),
        decreases 4 - i,
    {
        let control_id: u16 = word_of(report[4 + 2 * i], report[5 + 2 * i]);
        assert(control_id == word(data[2 * i], data[2 * i + 1]));
        if control_id != 0 {
            match settings::master3s_button_from_control_id(control_id) {
                Some(button) => buttons.push(button),
                None => unknown_control_ids.push(control_id),
            }
        }
        i += 1;
    }
    Some(Master3sRuntimeEvent::DivertedButtons { buttons, unknown_control_ids })
}

fn parse_raw_movement(report: &[u8]) -> (r: Option<Master3sRuntimeEvent>)
    requires
        report@.len() >= 4,
    ensures
        optional_event(r) == movement_event(report@.skip(4)),
{
    if report.len() < 8 {
        return None;
    }
    Some(
        Master3sRuntimeEvent::RawMovement {
            x: signed_of(word_of(report[4], report[5])),
            y: signed_of(word_of(report[6], report[7])),
        },
    )
}

/// What answers a request of the application is no event, whatever it holds.
pub proof fn law_replies_are_no_events(report: Seq<u8>, features: Seq<HidppFeatureInfo>)
    requires
        report.len() > 3,
        report[3] % 16 != 0,
    ensures
        event_of(report, features) is None,
{
}

/// Whether a report is a notification of a feature of the mouse: a short or a long one,
/// from an index that the mouse has under that feature first, with a number of the event
/// and no number of a program.
pub open spec fn notifies(
    report: Seq<u8>,
    features: Seq<HidppFeatureInfo>,
    i: int,
    feature_id: u16,
    function: int,
) -> bool {
    &&& report.len() >= 4
    &&& report[0] == 0x10 || report[0] == 0x11
    &&& report[2] != 0
    &&& report[3] == function * 16
    &&& 0 <= i < features.len()
    &&& features[i].index == report[2] && features[i].feature_id == feature_id
    &&& forall|k: int| 0 <= k < i ==> (#[trigger] features[k]).index != report[2]
}

/// A turn of the thumb wheel is reported with how far it went, as a number of two bytes
/// with a sign.
pub proof fn law_thumb_wheel_turns_are_events(
    report: Seq<u8>,
    features: Seq<HidppFeatureInfo>,
    i: int,
)
    requires
        notifies(report, features, i, 0x2150, 0),
        report.len() >= 6,
    ensures
        event_of(report, features) is Some,
        ({
            let event = event_of(report, features)->0;
            let n = report[4] * 256 + report[5];
            &&& event is ThumbWheel
            &&& event->delta == (if n < 32768 {
                n
            } else {
                n - 65536
            })
            &&& event->resolution == 1 && event->direction == 1
            &&& event->phase == (if report.len() > 8 {
                Some(report[8])
            } else {
                None
            })
        }),
{
    lemma_feature_at(features, report[2], 0, i);
    let data = report.skip(4);
    assert(data[0] == report[4] && data[1] == report[5]);
}

proof fn lemma_feature_at(features: Seq<HidppFeatureInfo>, index: u8, from: int, i: int)
    requires
        0 <= from <= i < features.len(),
        features[i].index == index,
        forall|k: int| 0 <= k < i ==> (#[trigger] features[k]).index != index,
    ensures
        feature_at(features, index, from) == Some(features[i].feature_id),
    decreases i - from,
{
    if from < i {
        lemma_feature_at(features, index, from + 1, i);
    }
}

/// The buttons that are held are those whose numbers stand in the first four words of a
/// report; any other number but zero is handed on as it is.
pub proof fn law_held_buttons_are_events(
    report: Seq<u8>,
    features: Seq<HidppFeatureInfo>,
    i: int,
    button: Master3sButton,
    id: u16,
)
    requires
        notifies(report, features, i, 0x1b04, 0),
        report.len() >= 12,
    ensures
        event_of(report, features) is Some,
        ({
            let event = event_of(report, features)->0;
            let reported = |n: int|
                report[4] * 256 + report[5] == n || report[6] * 256 + report[7] == n || report[8]
                    * 256 + report[9] == n || report[10] * 256 + report[11] == n;
            &&& event is DivertedButtons
            &&& event->buttons.contains(button) <==> reported(
                match button {
                    Master3sButton::Middle => 0x52,
                    Master3sButton::Back => 0x53,
                    Master3sButton::Forward => 0x56,
                    Master3sButton::Gesture => 0xc3,
                    Master3sButton::ModeShift => 0xc4,
                },
            )
            &&& event->unknown_control_ids.contains(id) <==> reported(id as int) && id != 0 && id
                != 0x52 && id != 0x53 && id != 0x56 && id != 0xc3 && id != 0xc4
        }),
{
    lemma_feature_at(features, report[2], 0, i);
    let data = report.skip(4);
    assert(data[0] == report[4] && data[1] == report[5] && data[2] == report[6] && data[3]
        == report[7] && data[4] == report[8] && data[5] == report[9] && data[6] == report[10]
        && data[7] == report[11]);
    lemma_held(data, button, id, 4);
}

/// The word of a number in a report.
pub open spec fn word_number(data: Seq<u8>, k: int) -> u16 {
    word(data[2 * k], data[2 * k + 1])
}

proof fn lemma_held(data: Seq<u8>, button: Master3sButton, id: u16, n: nat)
    requires
        n <= 4,
        data.len() >= 8,
    ensures
        held_buttons(data, n).contains(button) <==> exists|k: int|
            0 <= k < n && #[trigger] word_number(data, k) == settings::control_id_of(
                button,
            ),
        unknown_controls(data, n).contains(id) <==> id != 0 && settings::button_of_control(id)
            is None && exists|k: int|
            0 <= k < n && #[trigger] word_number(data, k) == id,
        n == 4 ==> {
            &&& held_buttons(data, n).contains(button) <==> {
                let c = settings::control_id_of(button);
                word(data[0], data[1]) == c || word(data[2], data[3]) == c || word(
                    data[4],
                    data[5],
                ) == c || word(data[6], data[7]) == c
            }
            &&& unknown_controls(data, n).contains(id) <==> id != 0 && settings::button_of_control(
                id,
            ) is None && (word(data[0], data[1]) == id || word(data[2], data[3]) == id || word(
                data[4],
                data[5],
            ) == id || word(data[6], data[7]) == id)
        },
    decreases n,
{
    if n > 0 {
        lemma_held(data, button, id, (n - 1) as nat);
        let m = n - 1;
        let w = word_number(data, m);
        settings::law_control_ids_identify_buttons(button, w);
        let before = held_buttons(data, (n - 1) as nat);
        let after = held_buttons(data, n);
        let known = settings::button_of_control(w);
        if known is Some && w != 0 {
            assert(after == before.push(known->0));
            assert(after[before.len() as int] == known->0);
            assert(forall|x: Master3sButton| before.contains(x) ==> after.contains(x)) by {
                assert forall|x: Master3sButton| before.contains(x) implies after.contains(x) by {
                    assert(after[before.index_of(x)] == x);
                }
            }
        }
        let rest = unknown_controls(data, (n - 1) as nat);
        let all = unknown_controls(data, n);
        if !(w == 0 || known is Some) {
            assert(all[rest.len() as int] == w);
            assert forall|x: u16| rest.contains(x) implies all.contains(x) by {
                assert(all[rest.index_of(x)] == x);
            }
        }
        if n == 4 {
            assert(word_number(data, 0) == word(data[0], data[1]));
            assert(word_number(data, 1) == word(data[2], data[3]));
            assert(word_number(data, 2) == word(data[4], data[5]));
            assert(word_number(data, 3) == word(data[6], data[7]));
        }
    }
}

/// A movement while a button is held is reported with how far it went on either axis.
pub proof fn law_movements_are_events(report: Seq<u8>, features: Seq<HidppFeatureInfo>, i: int)
    requires
        notifies(report, features, i, 0x1b04, 1),
        report.len() >= 8,
    ensures
        event_of(report, features) is Some,
        ({
            let event = event_of(report, features)->0;
            let x = report[4] * 256 + report[5];
            let y = report[6] * 256 + report[7];
            &&& event is RawMovement
            &&& event->x == (if x < 32768 {
                x
            } else {
                x - 65536
            })
            &&& event->y == (if y < 32768 {
                y
            } else {
                y - 65536
            })
        }),
{
    lemma_feature_at(features, report[2], 0, i);
    let data = report.skip(4);
    assert(data[0] == report[4] && data[1] == report[5] && data[2] == report[6] && data[3]
        == report[7]);
}

}
