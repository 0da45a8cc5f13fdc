//! What holds of the licensing operations taken together.
//!
//! Each law is stated over the spec functions by which the operations state
//! their own results, and proved from them.

use crate::license::guard::{check_result, flag_after_check};
use crate::license::remote::{
    ActivationReplyView, RenewalReplyView, ValidationReply, NEW_EXPIRATION_MEMBER,
};
use crate::license::storage::{
    after_delete, after_save, delete_succeeds, loaded, occupied, SlotView,
};
use crate::license::types::{
    ActivationRequestView, LicenseErrorView, LicenseInfoView, LicenseStatus,
};
use crate::license::validator::{
    activation, concluded, expiry_status, first_step, offline_status, renewal, validation,
    ValidationStepView,
};
use crate::time::{parsed_instant, whole_days, NANOS_PER_DAY};
use vstd::prelude::*;

verus! {

/// The length of one day in nanoseconds.
pub open spec fn day() -> int {
    NANOS_PER_DAY as int
}

/// A span of a whole number of days holds exactly that many.
pub proof fn law_whole_days_of_days(days: int)
    ensures
        whole_days(days * day()) == days,
{
    if days >= 0 {
        assert((days * 86_400_000_000_000) / 86_400_000_000_000 == days) by (nonlinear_arith);
    } else {
        assert(((-days) * 86_400_000_000_000) / 86_400_000_000_000 == -days) by (nonlinear_arith);
        assert(-(days * 86_400_000_000_000) == (-days) * 86_400_000_000_000) by (nonlinear_arith);
    }
}

/// The whole days in a span never fall as the span grows.
pub proof fn law_whole_days_monotone(shorter: int, longer: int)
    requires
        shorter <= longer,
    ensures
        whole_days(shorter) <= whole_days(longer),
{
}

/// After an activation that succeeded, the product is activated and a load
/// returns the record that the activation returned. Its key is the key that
/// was asked for and its machine code the one that was named with it,
/// whatever the authority repeated in its grant.
pub proof fn law_activation_is_kept(
    slot: SlotView,
    request: ActivationRequestView,
    reply: ActivationReplyView,
    now: int,
    written: bool,
)
    requires
        activation(slot, request, reply, now, written).1 is Ok,
    ensures
        occupied(activation(slot, request, reply, now, written).0),
        loaded(activation(slot, request, reply, now, written).0) == activation(
            slot,
            request,
            reply,
            now,
            written,
        ).1,
        activation(slot, request, reply, now, written).1->Ok_0.key == request.key,
        activation(slot, request, reply, now, written).1->Ok_0.machine_code
            == request.machine_code,
        activation(slot, request, reply, now, written).1->Ok_0.last_activation == Some(now),
        activation(slot, request, reply, now, written).1->Ok_0.cached_at == now,
{
}

/// What an activation stores beside the key and the machine code is what
/// the authority granted: expiry, product, tier and days of grace.
pub proof fn law_activation_stores_the_grant(
    slot: SlotView,
    request: ActivationRequestView,
    reply: ActivationReplyView,
    now: int,
    written: bool,
)
    requires
        activation(slot, request, reply, now, written).1 is Ok,
    ensures
        reply matches ActivationReplyView::Answer(answer) && answer.license matches Some(data) && ({
            let record = activation(slot, request, reply, now, written).1->Ok_0;
            &&& record.expires == data.expires
            &&& record.product_id == data.product_id
            &&& record.premium == data.premium
            &&& record.max_offline_days == data.max_offline_days
        }),
{
}

/// An activation that fails leaves the slot as it was, whatever it held.
pub proof fn law_failed_activation_stores_nothing(
    slot: SlotView,
    request: ActivationRequestView,
    reply: ActivationReplyView,
    now: int,
    written: bool,
)
    requires
        activation(slot, request, reply, now, written).1 is Err,
    ensures
        activation(slot, request, reply, now, written).0 == slot,
{
}

/// A validation over a slot in which nothing is stored returns
/// `NotActivated`, and the authority is not asked.
pub proof fn law_validation_without_record(
    now: int,
    reply: ValidationReply,
    ended: int,
    written: bool,
)
    ensures
        first_step(SlotView::Empty, now) == ValidationStepView::Done(
            Err(LicenseErrorView::NotActivated),
        ),
        validation(SlotView::Empty, now, reply, ended, written) == (
            SlotView::Empty,
            Err::<LicenseStatus, LicenseErrorView>(LicenseErrorView::NotActivated),
        ),
{
}

/// A validation of a stored record that has expired returns `Expired`, and
/// the authority is not asked: the answer is the same however a call would
/// have ended, and the slot stays as it was.
pub proof fn law_expired_without_call(
    license: LicenseInfoView,
    now: int,
    reply: ValidationReply,
    ended: int,
    written: bool,
)
    requires
        license.expires < now,
    ensures
        first_step(SlotView::Holding(license), now) == ValidationStepView::Done(
            Ok(LicenseStatus::Expired),
        ),
        validation(SlotView::Holding(license), now, reply, ended, written) == (
            SlotView::Holding(license),
            Ok::<LicenseStatus, LicenseErrorView>(LicenseStatus::Expired),
        ),
{
}

/// The authority is asked exactly where a record is stored that has not
/// expired, and is then asked about that record's key and machine code.
pub proof fn law_when_the_authority_is_asked(slot: SlotView, now: int)
    ensures
        first_step(slot, now) is Ask <==> (slot matches SlotView::Holding(license)
            && license.expires >= now),
        first_step(slot, now) matches ValidationStepView::Ask { license, request } ==> slot
            == SlotView::Holding(license) && request.key == license.key && request.machine_code
            == license.machine_code,
{
}

/// Without an answer from the authority, a record that has not expired and
/// whose last contact lies exactly as many days back as it allows is still
/// usable.
pub proof fn law_offline_on_the_last_day(
    license: LicenseInfoView,
    last: int,
    now: int,
    reply: ValidationReply,
)
    requires
        reply !is Confirmed,
        license.last_activation == Some(last),
        now - last == license.max_offline_days * day(),
        license.expires >= now,
    ensures
        offline_status(license, now).permits_use(),
        concluded(license, reply, now).status == Ok::<LicenseStatus, LicenseErrorView>(
            offline_status(license, now),
        ),
        concluded(license, reply, now).refreshed is None,
{
    law_whole_days_of_days(license.max_offline_days);
}

/// Without an answer from the authority, a record that has not expired and
/// whose last contact lies one day further back than it allows is
/// offline-expired.
pub proof fn law_offline_one_day_late(
    license: LicenseInfoView,
    last: int,
    now: int,
    reply: ValidationReply,
)
    requires
        reply !is Confirmed,
        license.last_activation == Some(last),
        now - last == (license.max_offline_days + 1) * day(),
        license.expires >= now,
    ensures
        offline_status(license, now) == LicenseStatus::OfflineExpired,
        concluded(license, reply, now).status == Ok::<LicenseStatus, LicenseErrorView>(
            LicenseStatus::OfflineExpired,
        ),
{
    law_whole_days_of_days(license.max_offline_days + 1);
}

/// Seven days before its expiry a license is near expiration with seven days
/// left; eight days before, it is valid.
pub proof fn law_expiry_threshold(expires: int, now: int)
    ensures
        expires - now == 7 * day() ==> expiry_status(expires, now) == LicenseStatus::NearExpiration(
            7,
        ),
        expires - now == 8 * day() ==> expiry_status(expires, now) == LicenseStatus::Valid,
{
    law_whole_days_of_days(7);
    law_whole_days_of_days(8);
}

/// The threshold of seven days holds of a validation that the authority
/// confirms, and of one that it does not answer while the grace period runs.
pub proof fn law_expiry_threshold_of_validation(
    license: LicenseInfoView,
    reply: ValidationReply,
    now: int,
)
    requires
        reply is Confirmed || offline_status(license, now) != LicenseStatus::OfflineExpired,
    ensures
        license.expires - now == 7 * day() ==> concluded(license, reply, now).status == Ok::<
            LicenseStatus,
            LicenseErrorView,
        >(LicenseStatus::NearExpiration(7)),
        license.expires - now == 8 * day() ==> concluded(license, reply, now).status == Ok::<
            LicenseStatus,
            LicenseErrorView,
        >(LicenseStatus::Valid),
{
    law_expiry_threshold(license.expires, now);
}

/// After a deactivation that succeeded, nothing is stored: the product is
/// not activated, and a validation returns `NotActivated` without asking the
/// authority.
pub proof fn law_deactivation_forgets(
    slot: SlotView,
    removed: bool,
    now: int,
    reply: ValidationReply,
    ended: int,
    written: bool,
)
    requires
        delete_succeeds(slot, removed),
    ensures
        !occupied(after_delete(slot, removed)),
        after_delete(slot, removed) == SlotView::Empty,
        validation(after_delete(slot, removed), now, reply, ended, written).1 == Err::<
            LicenseStatus,
            LicenseErrorView,
        >(LicenseErrorView::NotActivated),
{
}

/// A validation changes neither the expiry nor the grace period, nor
/// anything that the authority granted: where it stores a record at all, it
/// stores the old one with the two dates of contact and of writing set to
/// the instant of the reply.
pub proof fn law_validation_keeps_the_grant(
    license: LicenseInfoView,
    begun: int,
    reply: ValidationReply,
    ended: int,
    written: bool,
)
    ensures
        ({
            let after = validation(SlotView::Holding(license), begun, reply, ended, written).0;
            after == SlotView::Holding(license) || after == SlotView::Holding(
                LicenseInfoView { last_activation: Some(ended), cached_at: ended, ..license },
            )
        }),
{
}

/// A renewal that succeeds stores the old record with the expiry that the
/// authority named, dated `now`; one that fails leaves the slot as it was.
pub proof fn law_renewal_moves_the_expiry_alone(
    slot: SlotView,
    reply: RenewalReplyView,
    now: int,
    written: bool,
)
    ensures
        renewal(slot, reply, now, written).1 is Err ==> renewal(slot, reply, now, written).0
            == slot,
        renewal(slot, reply, now, written).1 matches Ok(record) ==> {
            &&& slot matches SlotView::Holding(license)
            &&& reply matches RenewalReplyView::Answer(members)
            &&& members.contains_key(NEW_EXPIRATION_MEMBER@)
            &&& parsed_instant(members[NEW_EXPIRATION_MEMBER@]) == Some(record.expires)
            &&& renewal(slot, reply, now, written).0 == SlotView::Holding(record)
            &&& record == LicenseInfoView {
                expires: record.expires,
                last_activation: Some(now),
                cached_at: now,
                ..license
            }
        },
{
}

/// Time alone never revives a record: once expired it stays expired, and
/// once offline-expired it is never usable again, however late it is looked
/// at without word from the authority.
pub proof fn law_no_recovery_by_waiting(license: LicenseInfoView, now: int, later: int)
    requires
        now <= later,
        !offline_status(license, now).permits_use(),
    ensures
        !offline_status(license, later).permits_use(),
        offline_status(license, now) == LicenseStatus::Expired ==> offline_status(license, later)
            == LicenseStatus::Expired,
{
    if let Some(last) = license.last_activation {
        law_whole_days_monotone(now - last, later - last);
    }
}

/// Where nothing is stored, only an activation stores something: a
/// validation, a renewal and a deactivation all leave the slot empty and,
/// but for the deactivation, fail with `NotActivated`.
pub proof fn law_only_activation_activates(
    now: int,
    validation_reply: ValidationReply,
    renewal_reply: RenewalReplyView,
    ended: int,
    written: bool,
    removed: bool,
)
    ensures
        validation(SlotView::Empty, now, validation_reply, ended, written).0 == SlotView::Empty,
        renewal(SlotView::Empty, renewal_reply, now, written) == (
            SlotView::Empty,
            Err::<LicenseInfoView, LicenseErrorView>(LicenseErrorView::NotActivated),
        ),
        after_delete(SlotView::Empty, removed) == SlotView::Empty,
{
}

/// A contact with the authority clears the risk of offline expiry: the
/// record that a confirmed validation stores is not offline-expired at the
/// instant of the contact, nor within the days of grace that follow, as long
/// as the grace is not negative.
pub proof fn law_contact_restarts_the_grace(
    license: LicenseInfoView,
    contact: int,
    later: int,
)
    requires
        license.max_offline_days >= 0,
        contact <= later,
        later - contact <= license.max_offline_days * day(),
    ensures
        concluded(license, ValidationReply::Confirmed, contact).refreshed matches Some(stored)
            && offline_status(stored, later) != LicenseStatus::OfflineExpired,
{
    law_whole_days_of_days(license.max_offline_days);
    law_whole_days_monotone(later - contact, license.max_offline_days * day());
}

/// A renewal that succeeds revives an expired license: judged at the
/// instant of the renewal from the record alone, the renewed record is
/// usable where the new expiry lies ahead and the grace is not negative.
pub proof fn law_renewal_recovers(
    slot: SlotView,
    reply: RenewalReplyView,
    now: int,
    written: bool,
)
    requires
        renewal(slot, reply, now, written).1 matches Ok(record) && record.expires >= now
            && record.max_offline_days >= 0,
    ensures
        renewal(slot, reply, now, written).0 matches SlotView::Holding(record) && offline_status(
            record,
            now,
        ).permits_use(),
{
}

/// A check that fails forbids use, and a check that passes permits it: after
/// a check the flag says whether the check passed, whatever it said before.
pub proof fn law_check_decides_the_flag(
    slot: SlotView,
    outcome: Result<LicenseStatus, LicenseErrorView>,
)
    ensures
        flag_after_check(slot, outcome) == (check_result(slot, outcome) is Ok),
        flag_after_check(slot, outcome) ==> (outcome matches Ok(status) && (status
            == LicenseStatus::Valid || status is NearExpiration)),
{
}

/// The slot never holds more than what was last written: a write replaces
/// the whole record.
pub proof fn law_write_replaces_the_record(
    slot: SlotView,
    first: LicenseInfoView,
    second: LicenseInfoView,
)
    ensures
        after_save(after_save(slot, first, true), second, true) == SlotView::Holding(second),
        loaded(after_save(slot, second, true)) == Ok::<LicenseInfoView, LicenseErrorView>(second),
{
}

} // verus!
