//! The change of the pointer speed on a device: what is read from it, and what is
//! written. To prepare a change only reads the device.

use crate::device_info::HidppFeatureInfo;
use crate::error::{DogiError, ErrorKind};
use crate::plan::{HidppFeature, SettingsApplyOperation};
use crate::reader::{DeviceReader, Exchange};
use crate::reader;
use crate::runtime_events;
use crate::settings;
use crate::text;
use vstd::prelude::*;

verus! {

pub const POINTER_SPEED: u16 = 0x2205;

pub const ADJUSTABLE_DPI: u16 = 0x2201;

/// A setting as the device holds it.
#[derive(Clone, Copy, Debug, PartialEq, Eq, Structural)]
pub enum DeviceSettingValue {
    PointerSpeed { percent: u8 },
    PointerDpi { dpi: u16 },
}

/// A byte of a reply by which it is told whether a change took effect.
#[derive(Clone, Copy, Debug, PartialEq, Eq, Structural)]
pub struct VerificationByte {
    pub response_index: usize,
    pub mask: u8,
    pub before: u8,
    pub after: u8,
}

/// A change that is ready to be written, and to be taken back.
#[derive(Debug, PartialEq, Eq)]
pub struct PreparedHidChange {
    pub title: String,
    pub operation: SettingsApplyOperation,
    pub feature: HidppFeature,
    pub feature_id: u16,
    pub read_function: u8,
    pub read_payload: Vec<u8>,
    pub write_function: u8,
    pub before_write: Vec<u8>,
    pub after_write: Vec<u8>,
    pub verification: Vec<VerificationByte>,
    pub before_value: DeviceSettingValue,
    pub after_value: DeviceSettingValue,
}

/// The mathematical value of [`PreparedHidChange`].
#[verifier::ext_equal]
pub struct ChangeView {
    pub title: Seq<char>,
    pub operation: SettingsApplyOperation,
    pub feature: HidppFeature,
    pub feature_id: u16,
    pub read_function: u8,
    pub read_payload: Seq<u8>,
    pub write_function: u8,
    pub before_write: Seq<u8>,
    pub after_write: Seq<u8>,
    pub verification: Seq<VerificationByte>,
    pub before_value: DeviceSettingValue,
    pub after_value: DeviceSettingValue,
}

impl View for PreparedHidChange {
    type V = ChangeView;

    open spec fn view(&self) -> ChangeView {
        ChangeView {
            title: self.title@,
            operation: self.operation,
            feature: self.feature,
            feature_id: self.feature_id,
            read_function: self.read_function,
            read_payload: self.read_payload@,
            write_function: self.write_function,
            before_write: self.before_write@,
            after_write: self.after_write@,
            verification: self.verification@,
            before_value: self.before_value,
            after_value: self.after_value,
        }
    }
}

/// What is wrong with a reply.
pub open spec fn malformed_error(detail: Seq<char>) -> (ErrorKind, Seq<char>) {
    (ErrorKind::Protocol, "pointer sensitivity: "@ + detail)
}

fn malformed(detail: &str) -> (r: DogiError)
    ensures
        r@ == malformed_error(detail@),
{
    DogiError::Protocol(text::concat2("pointer sensitivity: ", detail))
}

/// The index of a feature, of those from `i` on.
pub open spec fn index_of(features: Seq<HidppFeatureInfo>, id: u16, i: int) -> Option<u8>
    decreases features.len() - i,
{
    if i < 0 || i >= features.len() {
        None
    } else if features[i].feature_id == id {
        Some(features[i].index)
    } else {
        index_of(features, id, i + 1)
    }
}

fn find_index(features: &[HidppFeatureInfo], id: u16) -> (r: Option<u8>)
    ensures
        r == index_of(features@, id, 0),
{
    let mut i: usize = 0;
    while i < features.len()
        invariant
            i <= features@.len(),
            index_of(features@, id, 0) == index_of(features@, id, i as int),
        decreases features@.len() - i,
    {
        if features[i].feature_id == id {
            return Some(features[i].index);
        }
        i += 1;
    }
    None
}

/// The bytes by which it is told whether a change took effect.
pub open spec fn verification_of(before: Seq<u8>, after: Seq<u8>) -> Seq<VerificationByte> {
    Seq::new(
        if before.len() < after.len() {
            before.len()
        } else {
            after.len()
        },
        |i: int|
            VerificationByte {
                response_index: i as usize,
                mask: 0xff,
                before: before[i],
                after: after[i],
            },
    )
}

/// A change from one value to another.
pub open spec fn change_of(
    percent: u8,
    feature_id: u16,
    before: Seq<u8>,
    after: Seq<u8>,
    before_value: DeviceSettingValue,
    after_value: DeviceSettingValue,
) -> ChangeView {
    ChangeView {
        title: "Set pointer speed to "@ + text::decimal(percent as nat) + "%"@,
        operation: SettingsApplyOperation::PointerSpeed { percent },
        feature: HidppFeature::PointerSpeed,
        feature_id,
        read_function: if feature_id == ADJUSTABLE_DPI {
            0x20
        } else {
            0x00
        },
        read_payload: if feature_id == ADJUSTABLE_DPI {
            seq![0u8]
        } else {
            Seq::empty()
        },
        write_function: if feature_id == ADJUSTABLE_DPI {
            0x30
        } else {
            0x10
        },
        before_write: before,
        after_write: after,
        verification: verification_of(before, after),
        before_value,
        after_value,
    }
}

fn change(
    percent: u8,
    feature_id: u16,
    before: Vec<u8>,
    after: Vec<u8>,
    before_value: DeviceSettingValue,
    after_value: DeviceSettingValue,
) -> (r: PreparedHidChange)
    ensures
        r@ == change_of(percent, feature_id, before@, after@, before_value, after_value),
{
    let mut title = "Set pointer speed to ".to_owned();
    text::push_decimal(&mut title, percent as u64);
    title.append("%");
    let mut read_payload: Vec<u8> = Vec::new();
    let mut read_function: u8 = 0x00;
    let mut write_function: u8 = 0x10;
    if feature_id == ADJUSTABLE_DPI {
        read_payload.push(0);
        read_function = 0x20;
        write_function = 0x30;
    }
    let mut verification: Vec<VerificationByte> = Vec::new();
    let mut i: usize = 0;
    while i < before.len() && i < after.len()
        invariant
            i <= before@.len(),
            i <= after@.len(),
            verification@ == verification_of(before@, after@).take(i as int),
        decreases before@.len() - i,
    {
        verification.push(
            VerificationByte {
                response_index: i,
                mask: 0xff,
                before: before[i],
                after: after[i],
            },
        );
        i += 1;
        assert(verification@ =~= verification_of(before@, after@).take(i as int));
    }
    assert(verification@ =~= verification_of(before@, after@));
    let r = PreparedHidChange {
        title,
        operation: SettingsApplyOperation::PointerSpeed { percent },
        feature: HidppFeature::PointerSpeed,
        feature_id,
        read_function,
        read_payload,
        write_function,
        before_write: before,
        after_write: after,
        verification,
        before_value,
        after_value,
    };
    assert(r@ =~= change_of(percent, feature_id, before@, after@, before_value, after_value));
    r
}

/// The percentage that is written: between 50 and 200.
pub open spec fn allowed_percent(percent: u8) -> u8 {
    settings::clamped(percent as int, 50, 200) as u8
}

fn allow_percent(percent: u8) -> (r: u8)
    ensures
        r == allowed_percent(percent),
{
    if percent < 50 {
        50
    } else if percent > 200 {
        200
    } else {
        percent
    }
}

/// The multiplier for a percentage, in 256ths.
pub open spec fn multiplier_of(percent: u8) -> u16 {
    settings::clamped((percent * 256 + 50) / 100, 0x80, 0x1ff) as u16
}

/// The percentage of a multiplier.
pub open spec fn percent_of(multiplier: u16) -> u8 {
    settings::clamped((multiplier * 100 + 128) / 256, 1, 255) as u8
}

/// The change of a multiplier, from what the device replied.
pub open spec fn multiplier_change(percent: u8, current: Seq<u8>) -> Result<
    ChangeView,
    (ErrorKind, Seq<char>),
> {
    let p = allowed_percent(percent);
    let after = multiplier_of(p);
    if current.len() < 2 {
        Err(malformed_error("missing pointer multiplier"@))
    } else {
        Ok(
            change_of(
                p,
                POINTER_SPEED,
                seq![current[0], current[1]],
                seq![(after / 256) as u8, (after % 256) as u8],
                DeviceSettingValue::PointerSpeed {
                    percent: percent_of(runtime_events::word(current[0], current[1])),
                },
                DeviceSettingValue::PointerSpeed { percent: p },
            ),
        )
    }
}

/// The value of an outcome.
pub open spec fn outcome_of(r: Result<PreparedHidChange, DogiError>) -> Result<
    ChangeView,
    (ErrorKind, Seq<char>),
> {
    match r {
        Ok(change) => Ok(change@),
        Err(error) => Err(error@),
    }
}

/// Prepares the change of a multiplier.
pub fn prepare_multiplier(percent: u8, current: &Vec<u8>) -> (r: Result<
    PreparedHidChange,
    DogiError,
>)
    ensures
        outcome_of(r) == multiplier_change(percent, current@),
{
    let percent = allow_percent(percent);
    if current.len() < 2 {
        return Err(malformed("missing pointer multiplier"));
    }
    let raw: u16 = runtime_events::word_of(current[0], current[1]);
    let wanted: u16 = (percent as u16 * 256 + 50) / 100;
    let multiplier: u16 = settings::clamp_u16(wanted, 0x80, 0x1ff);
    let read_back: u32 = (raw as u32 * 100 + 128) / 256;
    let before_percent: u8 = if read_back < 1 {
        1
    } else if read_back > 255 {
        255
    } else {
        read_back as u8
    };
    let before: Vec<u8> = vec![current[0], current[1]];
    let after: Vec<u8> = vec![(multiplier / 256) as u8, (multiplier % 256) as u8];
    assert(before@ =~= seq![current@[0], current@[1]]);
    assert(after@ =~= seq![(multiplier / 256) as u8, (multiplier % 256) as u8]);
    Ok(
        change(
            percent,
            POINTER_SPEED,
            before,
            after,
            DeviceSettingValue::PointerSpeed { percent: before_percent },
            DeviceSettingValue::PointerSpeed { percent },
        ),
    )
}

/// The word at position `i` behind the first byte of a reply.
pub open spec fn word_at(reply: Seq<u8>, i: int) -> u16 {
    runtime_events::word(reply[1 + 2 * i], reply[2 + 2 * i])
}

/// How many whole words there are behind the first byte of a reply.
pub open spec fn word_count(reply: Seq<u8>) -> int {
    (reply.len() - 1) / 2
}

/// Where the first zero is among the words from `i` on, or the number of words.
pub open spec fn end_of_list(reply: Seq<u8>, i: int) -> int
    decreases word_count(reply) - i,
{
    if 0 <= i < word_count(reply) && word_at(reply, i) != 0 {
        end_of_list(reply, i + 1)
    } else {
        i
    }
}

/// The words before the first zero.
pub open spec fn listed(reply: Seq<u8>) -> Seq<u16> {
    Seq::new(end_of_list(reply, 0) as nat, |i: int| word_at(reply, i))
}

/// Whether a list stands for a range: lowest, step and highest, with the three
/// highest bits of the step set.
pub open spec fn is_range(values: Seq<u16>) -> bool {
    values.len() == 3 && values[1] >= 0xe000
}

/// Whether a range makes sense.
pub open spec fn sound_range(values: Seq<u16>) -> bool {
    let step = values[1] - 0xe000;
    &&& step > 0
    &&& values[0] <= values[2] < 0xe000
    &&& (values[2] - values[0]) % step == 0
}

/// The values of a range.
pub open spec fn range_values(values: Seq<u16>) -> Seq<u16> {
    let step = values[1] - 0xe000;
    Seq::new(
        ((values[2] - values[0]) / step + 1) as nat,
        |i: int| (values[0] + i * step) as u16,
    )
}

/// Whether a list of single values makes sense.
pub open spec fn sound_list(values: Seq<u16>) -> bool {
    &&& forall|i: int| 0 <= i < values.len() ==> #[trigger] values[i] < 0xe000
    &&& forall|i: int| 0 <= i < values.len() - 1 ==> #[trigger] values[i] < values[i + 1]
}

/// The resolutions that a device offers, from what it replied.
pub open spec fn offered(reply: Seq<u8>) -> Result<Seq<u16>, (ErrorKind, Seq<char>)> {
    let values = listed(reply);
    if reply.len() == 0 || reply[0] != 0 {
        Err(malformed_error("invalid DPI list sensor"@))
    } else if end_of_list(reply, 0) >= word_count(reply) || values.len() == 0 {
        Err(malformed_error("unterminated or empty DPI list"@))
    } else if is_range(values) {
        if sound_range(values) {
            Ok(range_values(values))
        } else {
            Err(malformed_error("invalid DPI range"@))
        }
    } else if sound_list(values) {
        Ok(values)
    } else {
        Err(malformed_error("invalid discrete DPI list"@))
    }
}

proof fn lemma_end_of_list(reply: Seq<u8>, i: int)
    requires
        0 <= i,
    ensures
        i <= end_of_list(reply, i),
        i <= word_count(reply) ==> end_of_list(reply, i) <= word_count(reply),
    decreases word_count(reply) - i,
{
    if i < word_count(reply) && word_at(reply, i) != 0 {
        lemma_end_of_list(reply, i + 1);
    }
}

fn list_values(reply: &[u8]) -> (r: Option<Vec<u16>>)
    requires
        reply@.len() > 0,
    ensures
        match r {
            Some(values) => end_of_list(reply@, 0) < word_count(reply@) && values@ == listed(
                reply@,
            ),
            None => end_of_list(reply@, 0) >= word_count(reply@),
        },
{
    let length: usize = reply.len();
    let count: usize = (length - 1) / 2;
    let mut values: Vec<u16> = Vec::new();
    let mut i: usize = 0;
    while i < count
        invariant
            length == reply@.len(),
            count == word_count(reply@),
            2 * count < length,
            i <= count,
            end_of_list(reply@, 0) == end_of_list(reply@, i as int),
            values@ == Seq::new(i as nat, |k: int| word_at(reply@, k)),
        decreases count - i,
    {
        let value: u16 = runtime_events::word_of(reply[1 + 2 * i], reply[2 + 2 * i]);
        if value == 0 {
            assert(values@ =~= listed(reply@));
            return Some(values);
        }
        values.push(value);
        i += 1;
        assert(values@ =~= Seq::new(i as nat, |k: int| word_at(reply@, k)));
    }
    None
}

fn expand_range(low: u16, step: u16, high: u16) -> (r: Vec<u16>)
    requires
        0 < step,
        low <= high < 0xe000,
        (high - low) % (step as int) == 0,
    ensures
        r@ == Seq::new(
            ((high - low) / (step as int) + 1) as nat,
            |i: int| (low + i * step) as u16,
        ),
{
    let last: u16 = (high - low) / step;
    proof {
        assert(last * step == high - low) by (nonlinear_arith)
            requires
                0 < step,
                last == (high - low) / (step as int),
                (high - low) % (step as int) == 0,
        ;
    }
    let ghost all = Seq::new((last + 1) as nat, |i: int| (low + i * step) as u16);
    let mut r: Vec<u16> = Vec::new();
    let mut i: u16 = 0;
    let mut value: u16 = low;
    while i < last
        invariant
            i <= last,
            0 < step,
            last * step == high - low,
            high < 0xe000,
            low <= high,
            value == low + i * step,
            all == Seq::new((last + 1) as nat, |k: int| (low + k * step) as u16),
            r@ == all.take(i as int),
        decreases last - i,
    {
        r.push(value);
        proof {
            assert(low + (i + 1) * step <= high) by (nonlinear_arith)
                requires
                    i + 1 <= last,
                    last * step == high - low,
                    0 < step,
            ;
            assert((i + 1) * step == i * step + step) by (nonlinear_arith);
        }
        value = value + step;
        i += 1;
        assert(r@ =~= all.take(i as int));
    }
    r.push(value);
    assert(r@ =~= all);
    r
}

fn check_list(values: &Vec<u16>) -> (r: bool)
    ensures
        r == sound_list(values@),
{
    let mut i: usize = 0;
    while i < values.len()
        invariant
            i <= values@.len(),
            forall|k: int| 0 <= k < i ==> #[trigger] values@[k] < 0xe000,
            forall|k: int| 0 <= k < i - 1 ==> #[trigger] values@[k] < values@[k + 1],
        decreases values@.len() - i,
    {
        if values[i] >= 0xe000 {
            return false;
        }
        if i > 0 && values[i - 1] >= values[i] {
            assert(!(values@[i - 1] < values@[i - 1 + 1]));
            return false;
        }
        i += 1;
    }
    true
}

/// Reads the resolutions that a device offers.
pub fn supported_dpi(reply: &[u8]) -> (r: Result<Vec<u16>, DogiError>)
    ensures
        match offered(reply@) {
            Ok(values) => r is Ok && r->Ok_0@ == values,
            Err(error) => r is Err && r->Err_0@ == error,
        },
{
    if reply.len() == 0 || reply[0] != 0 {
        return Err(malformed("invalid DPI list sensor"));
    }
    proof {
        lemma_end_of_list(reply@, 0);
    }
    let values = match list_values(reply) {
        Some(values) => values,
        None => {
            return Err(malformed("unterminated or empty DPI list"));
        },
    };
    if values.len() == 0 {
        return Err(malformed("unterminated or empty DPI list"));
    }
    if values.len() == 3 && values[1] >= 0xe000 {
        let low: u16 = values[0];
        let step: u16 = values[1] - 0xe000;
        let high: u16 = values[2];
        if step == 0 || low > high || high >= 0xe000 || (high - low) % step != 0 {
            return Err(malformed("invalid DPI range"));
        }
        let range = expand_range(low, step, high);
        assert(range@ =~= range_values(values@));
        return Ok(range);
    }
    if !check_list(&values) {
        return Err(malformed("invalid discrete DPI list"));
    }
    Ok(values)
}

/// How far a resolution is from what is asked for, in hundredths.
pub open spec fn distance(dpi: u16, requested: int) -> int {
    if dpi * 100 >= requested {
        dpi * 100 - requested
    } else {
        requested - dpi * 100
    }
}

/// Whether one resolution is chosen rather than another: it is nearer, or as near
/// and smaller.
pub open spec fn better(a: u16, b: u16, requested: int) -> bool {
    distance(a, requested) < distance(b, requested) || (distance(a, requested) == distance(
        b,
        requested,
    ) && a < b)
}

/// The best of the first `n` resolutions.
pub open spec fn best_of(supported: Seq<u16>, requested: int, n: nat) -> u16
    decreases n,
{
    if n <= 1 || n > supported.len() {
        supported[0]
    } else {
        let before = best_of(supported, requested, (n - 1) as nat);
        if better(supported[n - 1], before, requested) {
            supported[n - 1]
        } else {
            before
        }
    }
}

/// The resolution that is chosen is one that the device offers, and none that it
/// offers is better.
pub proof fn law_chosen_resolution_is_nearest(supported: Seq<u16>, requested: int, n: nat)
    requires
        0 < n <= supported.len(),
    ensures
        supported.take(n as int).contains(best_of(supported, requested, n)),
        forall|i: int|
            0 <= i < n ==> !better(
                #[trigger] supported[i],
                best_of(supported, requested, n),
                requested,
            ),
    decreases n,
{
    let best = best_of(supported, requested, n);
    if n == 1 {
        assert(supported.take(1)[0] == best);
    } else {
        law_chosen_resolution_is_nearest(supported, requested, (n - 1) as nat);
        let before = best_of(supported, requested, (n - 1) as nat);
        if best == supported[n - 1] {
            assert(supported.take(n as int)[n - 1] == best);
        } else {
            let earlier = supported.take(n - 1);
            let k = choose|k: int| 0 <= k < earlier.len() && #[trigger] earlier[k] == before;
            assert(supported.take(n as int)[k] == before);
        }
    }
}

/// Where the resolution that is asked for is offered, it is chosen: at 100 per
/// cent a device goes back to its default.
pub proof fn law_full_percentage_is_the_default(supported: Seq<u16>, default_dpi: u16)
    requires
        supported.contains(default_dpi),
    ensures
        best_of(supported, default_dpi * 100, supported.len()) == default_dpi,
{
    let n = supported.len();
    law_chosen_resolution_is_nearest(supported, default_dpi * 100, n);
    let i = choose|i: int| 0 <= i < supported.len() && supported[i] == default_dpi;
    assert(!better(supported[i], best_of(supported, default_dpi * 100, n), default_dpi * 100));
}

/// The change of a resolution, from what the device replied.
pub open spec fn dpi_change(percent: u8, supported: Seq<u16>, current: Seq<u8>) -> Result<
    ChangeView,
    (ErrorKind, Seq<char>),
> {
    let p = allowed_percent(percent);
    if current.len() < 5 || current[0] != 0 {
        Err(malformed_error("invalid sensor DPI response"@))
    } else {
        let before = runtime_events::word(current[1], current[2]);
        let base = runtime_events::word(current[3], current[4]);
        let after = best_of(supported, base * p, supported.len());
        if base == 0 {
            Err(
                (
                    ErrorKind::UnsupportedFeature,
                    "this mouse does not report the default DPI required for percentage-based sensitivity"@,
                ),
            )
        } else if !supported.contains(before) || !supported.contains(base) {
            Err(malformed_error("current or default DPI is outside the supported values"@))
        } else {
            Ok(
                change_of(
                    p,
                    ADJUSTABLE_DPI,
                    seq![current[0], current[1], current[2]],
                    seq![0u8, (after / 256) as u8, (after % 256) as u8],
                    DeviceSettingValue::PointerDpi { dpi: before },
                    DeviceSettingValue::PointerDpi { dpi: after },
                ),
            )
        }
    }
}

/// What is written depends on the default of the device and not on what it holds,
/// so that to apply a percentage again changes nothing.
pub proof fn law_percentage_does_not_compound(
    percent: u8,
    supported: Seq<u16>,
    current: Seq<u8>,
    later: Seq<u8>,
)
    requires
        current.len() >= 5,
        later.len() >= 5,
        current[3] == later[3],
        current[4] == later[4],
        dpi_change(percent, supported, current) is Ok,
        dpi_change(percent, supported, later) is Ok,
    ensures
        dpi_change(percent, supported, current)->Ok_0.after_write == dpi_change(
            percent,
            supported,
            later,
        )->Ok_0.after_write,
        later.take(3) == dpi_change(percent, supported, current)->Ok_0.after_write ==> dpi_change(
            percent,
            supported,
            later,
        )->Ok_0.before_write == dpi_change(percent, supported, later)->Ok_0.after_write,
{
    let change = dpi_change(percent, supported, later)->Ok_0;
    assert(later.take(3) =~= seq![later[0], later[1], later[2]]);
}

fn contains_dpi(supported: &Vec<u16>, dpi: u16) -> (r: bool)
    ensures
        r == supported@.contains(dpi),
{
    let mut i: usize = 0;
    while i < supported.len()
        invariant
            i <= supported@.len(),
            forall|k: int| 0 <= k < i ==> supported@[k] != dpi,
        decreases supported@.len() - i,
    {
        if supported[i] == dpi {
            return true;
        }
        i += 1;
    }
    false
}

fn hundredths_between(dpi: u16, requested: u32) -> (r: u32)
    ensures
        r == distance(dpi, requested as int),
{
    let n: u32 = dpi as u32 * 100;
    if n >= requested {
        n - requested
    } else {
        requested - n
    }
}

fn nearest(supported: &Vec<u16>, requested: u32) -> (r: u16)
    requires
        supported@.len() > 0,
    ensures
        r == best_of(supported@, requested as int, supported@.len()),
{
    let mut best: u16 = supported[0];
    let mut i: usize = 1;
    while i < supported.len()
        invariant
            1 <= i <= supported@.len(),
            best == best_of(supported@, requested as int, i as nat),
        decreases supported@.len() - i,
    {
        let dpi: u16 = supported[i];
        let there: u32 = hundredths_between(dpi, requested);
        let here: u32 = hundredths_between(best, requested);
        if there < here || (there == here && dpi < best) {
            best = dpi;
        }
        i += 1;
    }
    best
}

/// Prepares the change of a resolution.
pub fn prepare_dpi(percent: u8, supported: &Vec<u16>, current: &Vec<u8>) -> (r: Result<
    PreparedHidChange,
    DogiError,
>)
    ensures
        outcome_of(r) == dpi_change(percent, supported@, current@),
{
    let percent = allow_percent(percent);
    if current.len() < 5 || current[0] != 0 {
        return Err(malformed("invalid sensor DPI response"));
    }
    let before_dpi: u16 = runtime_events::word_of(current[1], current[2]);
    let default_dpi: u16 = runtime_events::word_of(current[3], current[4]);
    if default_dpi == 0 {
        return Err(
            DogiError::UnsupportedFeature(
                "this mouse does not report the default DPI required for percentage-based sensitivity".to_owned(),
            ),
        );
    }
    if !contains_dpi(supported, before_dpi) || !contains_dpi(supported, default_dpi) {
        return Err(malformed("current or default DPI is outside the supported values"));
    }
    assert(default_dpi * percent <= 65535 * 200) by (nonlinear_arith)
        requires
            default_dpi <= 65535,
            percent <= 200,
    ;
    let requested: u32 = default_dpi as u32 * percent as u32;
    let after_dpi: u16 = nearest(supported, requested);
    let before: Vec<u8> = vec![current[0], current[1], current[2]];
    let after: Vec<u8> = vec![0, (after_dpi / 256) as u8, (after_dpi % 256) as u8];
    assert(before@ =~= seq![current@[0], current@[1], current@[2]]);
    assert(after@ =~= seq![0u8, (after_dpi / 256) as u8, (after_dpi % 256) as u8]);
    Ok(
        change(
            percent,
            ADJUSTABLE_DPI,
            before,
            after,
            DeviceSettingValue::PointerDpi { dpi: before_dpi },
            DeviceSettingValue::PointerDpi { dpi: after_dpi },
        ),
    )
}

/// What is wrong with the number of sensors of a device, if anything is.
pub open spec fn sensor_fault(reply: Seq<u8>) -> Option<(ErrorKind, Seq<char>)> {
    if reply.len() == 0 {
        Some(malformed_error("missing sensor count"@))
    } else if reply[0] != 1 {
        Some((ErrorKind::UnsupportedFeature, "pointer sensitivity requires one motion sensor"@))
    } else {
        None
    }
}

/// Checks the number of sensors of a device.
pub fn check_sensor_count(reply: &Vec<u8>) -> (r: Result<(), DogiError>)
    ensures
        match sensor_fault(reply@) {
            Some(error) => r is Err && r->Err_0@ == error,
            None => r is Ok,
        },
{
    if reply.len() == 0 {
        return Err(malformed("missing sensor count"));
    }
    if reply[0] != 1 {
        return Err(
            DogiError::UnsupportedFeature(
                "pointer sensitivity requires one motion sensor".to_owned(),
            ),
        );
    }
    Ok(())
}

/// How the pointer speed of a device is changed.
#[derive(Clone, Copy, Debug, PartialEq, Eq, Structural)]
pub enum PointerAccess {
    Multiplier { index: u8 },
    Resolution { index: u8 },
    Unsupported,
}

/// How the pointer speed of a device is changed: by a multiplier where it has one,
/// else by the resolution.
pub open spec fn access_of(features: Seq<HidppFeatureInfo>) -> PointerAccess {
    match index_of(features, POINTER_SPEED, 0) {
        Some(index) => PointerAccess::Multiplier { index },
        None => match index_of(features, ADJUSTABLE_DPI, 0) {
            Some(index) => PointerAccess::Resolution { index },
            None => PointerAccess::Unsupported,
        },
    }
}

/// What comes of the change of a multiplier: the device is asked for it once.
pub open spec fn multiplier_exchange(
    index: u8,
    percent: u8,
    asked: Seq<Exchange>,
    outcome: Result<ChangeView, (ErrorKind, Seq<char>)>,
) -> bool {
    &&& asked.len() == 1
    &&& asked[0].asks(index, 0x00, Seq::empty())
    &&& outcome == match asked[0].reply {
        Err(error) => Err::<ChangeView, _>(error),
        Ok(current) => multiplier_change(percent, current),
    }
}

/// What comes of the change of a resolution: the device is asked for the number of its
/// sensors, for the resolutions that it offers and for the one it has, each once and
/// only where the answer before was a good one.
pub open spec fn resolution_exchange(
    index: u8,
    percent: u8,
    asked: Seq<Exchange>,
    outcome: Result<ChangeView, (ErrorKind, Seq<char>)>,
) -> bool {
    &&& 1 <= asked.len() <= 3
    &&& asked[0].asks(index, 0x00, Seq::empty())
    &&& asked.len() > 1 ==> asked[1].asks(index, 0x10, seq![0u8])
    &&& asked.len() > 2 ==> asked[2].asks(index, 0x20, seq![0u8])
    &&& match asked[0].reply {
        Err(error) => asked.len() == 1 && outcome == Err::<ChangeView, _>(error),
        Ok(count) => match sensor_fault(count) {
            Some(error) => asked.len() == 1 && outcome == Err::<ChangeView, _>(error),
            None => asked.len() > 1 && match asked[1].reply {
                Err(error) => asked.len() == 2 && outcome == Err::<ChangeView, _>(error),
                Ok(list) => match offered(list) {
                    Err(error) => asked.len() == 2 && outcome == Err::<ChangeView, _>(error),
                    Ok(supported) => asked.len() == 3 && outcome == match asked[2].reply {
                        Err(error) => Err::<ChangeView, _>(error),
                        Ok(current) => dpi_change(percent, supported, current),
                    },
                },
            },
        },
    }
}

/// What a device is asked to prepare a change, what it answers, and what comes of it.
pub open spec fn preparation(
    access: PointerAccess,
    percent: u8,
    asked: Seq<Exchange>,
    outcome: Result<ChangeView, (ErrorKind, Seq<char>)>,
) -> bool {
    match access {
        PointerAccess::Unsupported => {
            &&& asked.len() == 0
            &&& outcome == Err::<ChangeView, _>(
                (
                    ErrorKind::UnsupportedFeature,
                    "pointer sensitivity requires POINTER_SPEED or ADJUSTABLE_DPI"@,
                ),
            )
        },
        PointerAccess::Multiplier { index } => multiplier_exchange(index, percent, asked, outcome),
        PointerAccess::Resolution { index } => resolution_exchange(index, percent, asked, outcome),
    }
}

/// To prepare a change, a device is only read, at the index of the feature by which its
/// speed is changed: neither the function that writes the multiplier nor the one that
/// writes the resolution is ever requested.
pub proof fn law_preparing_only_reads(
    access: PointerAccess,
    percent: u8,
    asked: Seq<Exchange>,
    outcome: Result<ChangeView, (ErrorKind, Seq<char>)>,
    i: int,
)
    requires
        preparation(access, percent, asked, outcome),
        0 <= i < asked.len(),
    ensures
        match access {
            PointerAccess::Unsupported => false,
            PointerAccess::Multiplier { index } => asked[i].index == index && asked[i].function
                == 0x00,
            PointerAccess::Resolution { index } => asked[i].index == index && asked[i].function
                == 0x10 * i,
        },
        outcome matches Ok(change) ==> asked[i].function != change.write_function,
{
}

/// A device that fails to answer is asked nothing more, and its failure is handed on.
pub proof fn law_a_failed_read_ends_the_preparation(
    access: PointerAccess,
    percent: u8,
    asked: Seq<Exchange>,
    outcome: Result<ChangeView, (ErrorKind, Seq<char>)>,
    i: int,
)
    requires
        preparation(access, percent, asked, outcome),
        0 <= i < asked.len(),
        asked[i].reply is Err,
    ensures
        i == asked.len() - 1,
        outcome == Err::<ChangeView, _>(asked[i].reply->Err_0),
{
}

/// Prepares a change of the pointer speed.
///
/// A device is only read, at the index of the feature by which its speed is changed; one
/// without such a feature is not asked anything.
/// A device with a multiplier is asked for the multiplier alone. Another one is
/// asked for the number of its sensors, for the resolutions that it offers and for
/// the one it has, each where the one before was answered well.
///
/// `states` are what the reader is before the first question and after each of them, and
/// `asked` are the questions with their answers: from one state to the next there is one
/// call of the reader.
pub fn prepare<R: DeviceReader>(features: &[HidppFeatureInfo], percent: u8, device: &mut R) -> (r:
    Result<PreparedHidChange, DogiError>)
    ensures
        exists|states: Seq<R>, asked: Seq<Exchange>|
            states.len() == asked.len() + 1 && #[trigger] states[0] == *old(device)
                && states.last() == *final(device) && #[trigger] preparation(
                access_of(features@),
                percent,
                asked,
                outcome_of(r),
            ) && forall|i: int|
                0 <= i < asked.len() ==> exists|
                    call: &mut R,
                    bytes: &[u8],
                    reply: Result<Vec<u8>, DogiError>,
                |
                    *call == states[i] && *final(call) == states[i + 1] && bytes@ == (
                    #[trigger] asked[i]).payload && reader::reply_view(reply) == asked[i].reply
                        && #[trigger] call_ensures(
                        R::read,
                        (call, asked[i].index, asked[i].function, bytes),
                        reply,
                    ),
{
    let ghost start = *device;
    if let Some(index) = find_index(features, POINTER_SPEED) {
        let none: Vec<u8> = Vec::new();
        assert(none@ =~= Seq::<u8>::empty());
        let reply = device.read(index, 0x00, none.as_slice());
        let ghost one = Exchange {
            index,
            function: 0x00,
            payload: Seq::empty(),
            reply: reader::reply_view(reply),
        };
        let ghost states = seq![start, *device];
        let ghost asked = seq![one];
        let r = match reply {
            Ok(current) => prepare_multiplier(percent, &current),
            Err(error) => Err(error),
        };
        assert(states[0] == start);
        assert(preparation(access_of(features@), percent, asked, outcome_of(r)));
        return r;
    }
    match find_index(features, ADJUSTABLE_DPI) {
        Some(index) => prepare_resolution(index, percent, device),
        None => {
            let ghost states = seq![start];
            let ghost asked = Seq::<Exchange>::empty();
            let r = Err(
                DogiError::UnsupportedFeature(
                    "pointer sensitivity requires POINTER_SPEED or ADJUSTABLE_DPI".to_owned(),
                ),
            );
            assert(states[0] == start);
            assert(preparation(access_of(features@), percent, asked, outcome_of(r)));
            r
        },
    }
}

/// Prepares the change of a resolution, as [`prepare`] does.
fn prepare_resolution<R: DeviceReader>(index: u8, percent: u8, device: &mut R) -> (r: Result<
    PreparedHidChange,
    DogiError,
>)
    ensures
        exists|states: Seq<R>, asked: Seq<Exchange>|
            states.len() == asked.len() + 1 && #[trigger] states[0] == *old(device)
                && states.last() == *final(device) && #[trigger] preparation(
                PointerAccess::Resolution { index },
                percent,
                asked,
                outcome_of(r),
            ) && forall|i: int|
                0 <= i < asked.len() ==> exists|
                    call: &mut R,
                    bytes: &[u8],
                    reply: Result<Vec<u8>, DogiError>,
                |
                    *call == states[i] && *final(call) == states[i + 1] && bytes@ == (
                    #[trigger] asked[i]).payload && reader::reply_view(reply) == asked[i].reply
                        && #[trigger] call_ensures(
                        R::read,
                        (call, asked[i].index, asked[i].function, bytes),
                        reply,
                    ),
{
    let none: Vec<u8> = Vec::new();
    let first: Vec<u8> = vec![0];
    assert(none@ =~= Seq::<u8>::empty());
    assert(first@ =~= seq![0u8]);
    let ghost access = PointerAccess::Resolution { index };
    let ghost start = *device;
    let count = device.read(index, 0x00, none.as_slice());
    let ghost one = Exchange {
        index,
        function: 0x00,
        payload: Seq::empty(),
        reply: reader::reply_view(count),
    };
    let ghost states = seq![start, *device];
    let ghost asked = seq![one];
    assert(states[0] == start);
    let count = match count {
        Ok(count) => count,
        Err(error) => {
            assert(preparation(access, percent, asked, Err::<ChangeView, _>(error@)));
            return Err(error);
        },
    };
    if let Err(error) = check_sensor_count(&count) {
        assert(preparation(access, percent, asked, Err::<ChangeView, _>(error@)));
        return Err(error);
    }
    let list = device.read(index, 0x10, first.as_slice());
    let ghost two = Exchange {
        index,
        function: 0x10,
        payload: seq![0u8],
        reply: reader::reply_view(list),
    };
    let ghost states = seq![start, states[1], *device];
    let ghost asked = seq![one, two];
    assert(states[0] == start);
    let list = match list {
        Ok(list) => list,
        Err(error) => {
            assert(preparation(access, percent, asked, Err::<ChangeView, _>(error@)));
            return Err(error);
        },
    };
    let supported = match supported_dpi(list.as_slice()) {
        Ok(supported) => supported,
        Err(error) => {
            assert(preparation(access, percent, asked, Err::<ChangeView, _>(error@)));
            return Err(error);
        },
    };
    let current = device.read(index, 0x20, first.as_slice());
    let ghost three = Exchange {
        index,
        function: 0x20,
        payload: seq![0u8],
        reply: reader::reply_view(current),
    };
    let ghost states = seq![start, states[1], states[2], *device];
    let ghost asked = seq![one, two, three];
    assert(states[0] == start);
    let r = match current {
        Ok(current) => prepare_dpi(percent, &supported, &current),
        Err(error) => Err(error),
    };
    assert(preparation(access, percent, asked, outcome_of(r)));
    r
}

/// How far two numbers are apart.
pub open spec fn apart(a: int, b: int) -> int {
    if a >= b {
        a - b
    } else {
        b - a
    }
}

/// The resolution that is written for a percentage from 50 to 200 is the one, of those
/// that the mouse offers, that is nearest to that percentage of its default, and of two
/// as near the smaller one. It is written as two bytes behind the number of the sensor,
/// and the change says that it sets just that percentage. A mouse that answers well is
/// never refused.
pub proof fn law_resolution_is_nearest_to_the_percentage(
    percent: u8,
    supported: Seq<u16>,
    current: Seq<u8>,
    i: int,
)
    requires
        50 <= percent <= 200,
        current.len() >= 5,
        current[0] == 0,
        current[3] != 0 || current[4] != 0,
        supported.contains((current[1] * 256 + current[2]) as u16),
        supported.contains((current[3] * 256 + current[4]) as u16),
        0 <= i < supported.len(),
    ensures
        dpi_change(percent, supported, current) is Ok,
        ({
            let change = dpi_change(percent, supported, current)->Ok_0;
            let wanted = (current[3] * 256 + current[4]) * percent;
            let dpi = change.after_value->dpi;
            &&& change.operation == (SettingsApplyOperation::PointerSpeed { percent })
            &&& change.title == "Set pointer speed to "@ + text::decimal(percent as nat) + "%"@
            &&& change.feature == HidppFeature::PointerSpeed && change.feature_id == 0x2201
            &&& change.read_function == 0x20 && change.read_payload == seq![0u8]
            &&& change.write_function == 0x30
            &&& change.before_write == seq![0u8, current[1], current[2]]
            &&& change.before_value == (DeviceSettingValue::PointerDpi {
                dpi: (current[1] * 256 + current[2]) as u16,
            })
            &&& change.after_value is PointerDpi
            &&& supported.contains(dpi)
            &&& apart(dpi * 100, wanted) <= apart(supported[i] * 100, wanted)
            &&& apart(dpi * 100, wanted) == apart(supported[i] * 100, wanted) ==> dpi
                <= supported[i]
            &&& change.after_write.len() == 3 && change.after_write[0] == 0
            &&& change.after_write[1] * 256 + change.after_write[2] == dpi
        }),
{
    let wanted = (current[3] * 256 + current[4]) * percent;
    let n = supported.len();
    let dpi = best_of(supported, wanted, n);
    law_chosen_resolution_is_nearest(supported, wanted, n);
    assert(!better(supported[i], dpi, wanted));
    let k = choose|k: int| 0 <= k < n && supported.take(n as int)[k] == dpi;
    assert(supported[k] == dpi);
    lemma_word_bytes(dpi);
}

proof fn lemma_word_bytes(n: u16)
    ensures
        ((n / 256) as u8) * 256 + ((n % 256) as u8) == n,
{
    assert(n / 256 < 256);
    assert(n == (n / 256) * 256 + n % 256) by (nonlinear_arith);
}

/// The multiplier that is written for a percentage from 50 to 199 is that percentage, in
/// 256ths, to the nearest; that for 200 is the highest that the mouse takes. The change
/// says that it sets just that percentage, and takes back what the mouse held.
pub proof fn law_multiplier_is_the_percentage(percent: u8, current: Seq<u8>)
    requires
        50 <= percent <= 200,
        current.len() >= 2,
    ensures
        multiplier_change(percent, current) is Ok,
        ({
            let change = multiplier_change(percent, current)->Ok_0;
            let written = change.after_write[0] * 256 + change.after_write[1];
            let held = current[0] * 256 + current[1];
            &&& change.operation == (SettingsApplyOperation::PointerSpeed { percent })
            &&& change.after_value == (DeviceSettingValue::PointerSpeed { percent })
            &&& change.title == "Set pointer speed to "@ + text::decimal(percent as nat) + "%"@
            &&& change.feature == HidppFeature::PointerSpeed && change.feature_id == 0x2205
            &&& change.read_function == 0x00 && change.read_payload.len() == 0
            &&& change.write_function == 0x10
            &&& change.before_write == seq![current[0], current[1]]
            &&& change.after_write.len() == 2
            &&& percent < 200 ==> apart(written * 100, percent * 256) <= 50
            &&& percent == 200 ==> written == 511
            &&& change.before_value is PointerSpeed
            &&& 3 <= held <= 654 ==> apart(
                (change.before_value->PointerSpeed_percent) * 256,
                held * 100,
            ) <= 128
        }),
{
    let after = multiplier_of(percent);
    lemma_word_bytes(after);
    assert(multiplier_of(percent) == after);
    let change = multiplier_change(percent, current)->Ok_0;
    assert(change.after_write[0] * 256 + change.after_write[1] == after);
}

/// A percentage below 50 is written as 50, and one above 200 as 200.
pub proof fn law_percentages_are_kept_in_range(
    percent: u8,
    supported: Seq<u16>,
    current: Seq<u8>,
)
    ensures
        percent < 50 ==> dpi_change(percent, supported, current) == dpi_change(
            50,
            supported,
            current,
        ) && multiplier_change(percent, current) == multiplier_change(50, current),
        percent > 200 ==> dpi_change(percent, supported, current) == dpi_change(
            200,
            supported,
            current,
        ) && multiplier_change(percent, current) == multiplier_change(200, current),
{
}

/// Each byte that is written is read back and compared as a whole, with what it was and
/// with what it is to be.
pub proof fn law_changes_are_verified_byte_by_byte(
    percent: u8,
    feature_id: u16,
    before: Seq<u8>,
    after: Seq<u8>,
    before_value: DeviceSettingValue,
    after_value: DeviceSettingValue,
    i: int,
)
    requires
        before.len() == after.len(),
        0 <= i < after.len() <= usize::MAX,
    ensures
        ({
            let v = change_of(percent, feature_id, before, after, before_value, after_value);
            &&& v.verification.len() == after.len()
            &&& v.verification[i] == (VerificationByte {
                response_index: i as usize,
                mask: 0xff,
                before: before[i],
                after: after[i],
            })
            &&& v.before_write == before && v.after_write == after
            &&& v.before_value == before_value && v.after_value == after_value
        }),
{
}

/// A mouse with the feature 0x2205 is changed by it, at the index of its first occurrence;
/// one that has only 0x2201, by that; any other not at all.
pub proof fn law_multiplier_goes_before_resolution(features: Seq<HidppFeatureInfo>, i: int)
    requires
        0 <= i < features.len(),
    ensures
        features[i].feature_id == 0x2205 && (forall|k: int|
            0 <= k < i ==> (#[trigger] features[k]).feature_id != 0x2205) ==> access_of(features)
            == (PointerAccess::Multiplier { index: features[i].index }),
        features[i].feature_id == 0x2201 && (forall|k: int|
            0 <= k < i ==> (#[trigger] features[k]).feature_id != 0x2201) && (forall|k: int|
            0 <= k < features.len() ==> (#[trigger] features[k]).feature_id != 0x2205) ==> access_of(
            features,
        ) == (PointerAccess::Resolution { index: features[i].index }),
        (forall|k: int|
            0 <= k < features.len() ==> (#[trigger] features[k]).feature_id != 0x2205
                && features[k].feature_id != 0x2201) ==> access_of(features)
            == PointerAccess::Unsupported,
{
    if forall|k: int| 0 <= k < i ==> (#[trigger] features[k]).feature_id != 0x2205 {
        lemma_index_of(features, 0x2205, 0, i);
    }
    if forall|k: int| 0 <= k < i ==> (#[trigger] features[k]).feature_id != 0x2201 {
        lemma_index_of(features, 0x2201, 0, i);
    }
    lemma_index_of(features, 0x2205, 0, features.len() as int);
    lemma_index_of(features, 0x2201, 0, features.len() as int);
}

proof fn lemma_index_of(features: Seq<HidppFeatureInfo>, id: u16, from: int, to: int)
    requires
        0 <= from <= to <= features.len(),
    ensures
        (forall|k: int| from <= k < to ==> (#[trigger] features[k]).feature_id != id) ==> index_of(
            features,
            id,
            from,
        ) == index_of(features, id, to),
        to < features.len() && features[to].feature_id == id ==> index_of(features, id, to) == Some(
            features[to].index,
        ),
        to == features.len() ==> index_of(features, id, to) is None,
    decreases to - from,
{
    if from < to {
        lemma_index_of(features, id, from + 1, to);
    }
}

/// A reply that lists resolutions one by one, in rising order and closed by a zero, offers
/// just these. One that names a lowest, a step and a highest resolution offers those from
/// the lowest to the highest that are a number of whole steps away.
pub proof fn law_offered_resolutions_are_those_of_the_reply(
    reply: Seq<u8>,
    values: Seq<u16>,
    dpi: u16,
)
    requires
        values.len() > 0,
        reply.len() >= 2 * values.len() + 3,
        reply[0] == 0,
        forall|i: int|
            0 <= i < values.len() ==> #[trigger] values[i] != 0 && reply[1 + 2 * i] * 256 + reply[2
                + 2 * i] == values[i],
        reply[1 + 2 * values.len() as int] == 0,
        reply[2 + 2 * values.len() as int] == 0,
    ensures
        (forall|i: int| 0 <= i < values.len() ==> #[trigger] values[i] < 0xe000) && (forall|
            i: int,
            j: int,
        |
            0 <= i < j < values.len() ==> #[trigger] values[i] < #[trigger] values[j]) ==> offered(
            reply,
        ) == Ok::<Seq<u16>, (ErrorKind, Seq<char>)>(values),
        values.len() == 3 && values[1] > 0xe000 && values[0] <= values[2] < 0xe000 && (values[2]
            - values[0]) % (values[1] - 0xe000) == 0 ==> offered(reply) is Ok && (offered(
            reply,
        )->Ok_0.contains(dpi) <==> values[0] <= dpi <= values[2] && (dpi - values[0]) % (values[1]
            - 0xe000) == 0),
{
    let n = values.len() as int;
    assert(word_at(reply, n) == 0);
    lemma_list_is_read(reply, values, 0);
    assert(listed(reply) =~= values);
    assert(word_count(reply) > n);
    if forall|i: int, j: int|
        0 <= i < j < values.len() ==> #[trigger] values[i] < #[trigger] values[j] {
        assert forall|i: int| 0 <= i < values.len() - 1 implies #[trigger] values[i] < values[i
            + 1] by {
            let j = i + 1;
            assert(values[i] < values[j]);
        }
    }
    if n == 3 && values[1] > 0xe000 && values[0] <= values[2] < 0xe000 && (values[2] - values[0])
        % (values[1] - 0xe000) == 0 {
        let step = values[1] - 0xe000;
        let low = values[0] as int;
        let high = values[2] as int;
        let all = range_values(values);
        if all.contains(dpi) {
            let k = choose|k: int| 0 <= k < all.len() && all[k] == dpi;
            assert(0 <= k * step && low + k * step <= high && (k * step) % step == 0)
                by (nonlinear_arith)
                requires
                    step > 0,
                    0 <= k <= (high - low) / step,
            ;
            assert(dpi == low + k * step);
        }
        if low <= dpi <= high && (dpi - low) % step == 0 {
            let k = (dpi - low) / step;
            assert(k * step == dpi - low && 0 <= k <= (high - low) / step) by (nonlinear_arith)
                requires
                    step > 0,
                    low <= dpi <= high,
                    (dpi - low) % step == 0,
                    k == (dpi - low) / step,
            ;
            assert(all[k] == dpi);
        }
    }
}

proof fn lemma_list_is_read(reply: Seq<u8>, values: Seq<u16>, i: int)
    requires
        0 <= i <= values.len(),
        reply.len() >= 2 * values.len() + 3,
        forall|k: int|
            0 <= k < values.len() ==> #[trigger] values[k] != 0 && reply[1 + 2 * k] * 256 + reply[2
                + 2 * k] == values[k],
        reply[1 + 2 * values.len() as int] == 0,
        reply[2 + 2 * values.len() as int] == 0,
    ensures
        end_of_list(reply, i) == values.len(),
        forall|k: int| 0 <= k < values.len() ==> word_at(reply, k) == #[trigger] values[k],
    decreases values.len() - i,
{
    assert forall|k: int| 0 <= k < values.len() implies word_at(reply, k) == #[trigger] values[k] by {
        assert(values[k] != 0);
    }
    if i < values.len() {
        assert(values[i] != 0);
        lemma_list_is_read(reply, values, i + 1);
    } else {
        assert(word_at(reply, i) == 0);
    }
}

/// The mouse has to have one sensor: any other number, and a reply without one, is an
/// error.
pub proof fn law_one_sensor_is_needed(reply: Seq<u8>)
    ensures
        sensor_fault(reply) is None <==> reply.len() > 0 && reply[0] == 1,
        sensor_fault(reply) matches Some((kind, _)) ==> kind == (if reply.len() == 0 {
            ErrorKind::Protocol
        } else {
            ErrorKind::UnsupportedFeature
        }),
{
}

/// A list of three values is a range exactly where the step in its middle is marked by its
/// three highest bits.
pub proof fn law_ranges_are_marked(values: Seq<u16>)
    ensures
        is_range(values) <==> values.len() == 3 && values[1] >= 57_344,
{
}

/// The percentage of a multiplier is the nearest one.
pub proof fn law_percentage_is_nearest_to_the_multiplier(multiplier: u16)
    requires
        2 <= multiplier <= 652,
    ensures
        256 * percent_of(multiplier) <= 100 * multiplier + 128,
        100 * multiplier + 128 < 256 * (percent_of(multiplier) + 1),
{
}

}
