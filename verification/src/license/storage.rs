//! The single slot in which a machine keeps its license record.
//!
//! The slot lies on a medium that the host reads and writes. The library
//! holds what the host found there and follows every write and removal that
//! the host reports, so that at any moment it can say what a load would
//! return. A write replaces the whole record; there is never more than one.

use crate::license::types::{
    result_view, LicenseError, LicenseErrorView, LicenseInfo, LicenseInfoView,
};
use vstd::prelude::*;

verus! {

/// What the medium holds in the license slot.
#[derive(Debug, PartialEq, Eq)]
pub enum Slot {
    /// The place of the slot cannot be had at all.
    Unavailable,
    /// Nothing is stored.
    Empty,
    /// Something is stored that cannot be read as a record.
    Unreadable,
    /// A record is stored.
    Holding(LicenseInfo),
}

/// A slot as plain values.
pub enum SlotView {
    Unavailable,
    Empty,
    Unreadable,
    Holding(LicenseInfoView),
}

impl View for Slot {
    type V = SlotView;

    open spec fn view(&self) -> SlotView {
        match self {
            Slot::Unavailable => SlotView::Unavailable,
            Slot::Empty => SlotView::Empty,
            Slot::Unreadable => SlotView::Unreadable,
            Slot::Holding(record) => SlotView::Holding(record@),
        }
    }
}

/// What loading from a slot returns: the record, `NotActivated` where nothing
/// is stored, `StorageError` where the slot cannot be reached or read.
pub open spec fn loaded(slot: SlotView) -> Result<LicenseInfoView, LicenseErrorView> {
    match slot {
        SlotView::Unavailable => Err(LicenseErrorView::StorageError),
        SlotView::Empty => Err(LicenseErrorView::NotActivated),
        SlotView::Unreadable => Err(LicenseErrorView::StorageError),
        SlotView::Holding(record) => Ok(record),
    }
}

/// Whether anything is stored in a slot, readable or not.
pub open spec fn occupied(slot: SlotView) -> bool {
    slot is Unreadable || slot is Holding
}

/// The slot after an attempt to write `record`: the record alone where the
/// medium took the write, the slot as it was where it did not.
pub open spec fn after_save(slot: SlotView, record: LicenseInfoView, written: bool) -> SlotView {
    if written {
        SlotView::Holding(record)
    } else {
        slot
    }
}

/// What becomes of a slot and of a decision to store a record, once the host
/// has tried to write that record: where the write was taken, the slot holds
/// the record; where it was not, the decision turns into `StorageError`. A
/// decision against storing is passed on, and nothing is written for it.
pub open spec fn persisted(
    slot: SlotView,
    decided: Result<LicenseInfoView, LicenseErrorView>,
    written: bool,
) -> (SlotView, Result<LicenseInfoView, LicenseErrorView>) {
    match decided {
        Ok(record) => if written {
            (SlotView::Holding(record), Ok(record))
        } else {
            (slot, Err(LicenseErrorView::StorageError))
        },
        Err(error) => (slot, Err(error)),
    }
}

/// Whether a removal from a slot succeeds: always where nothing is stored,
/// never where the slot cannot be reached, else as the medium decides.
pub open spec fn delete_succeeds(slot: SlotView, removed: bool) -> bool {
    match slot {
        SlotView::Unavailable => false,
        SlotView::Empty => true,
        _ => removed,
    }
}

/// The slot after an attempt to remove what it holds.
pub open spec fn after_delete(slot: SlotView, removed: bool) -> SlotView {
    if occupied(slot) && removed {
        SlotView::Empty
    } else {
        slot
    }
}

/// The license slot of one machine, as far as the library has followed it.
#[derive(Debug, PartialEq, Eq)]
pub struct LicenseStorage {
    slot: Slot,
}

impl View for LicenseStorage {
    type V = SlotView;

    closed spec fn view(&self) -> SlotView {
        self.slot@
    }
}

impl LicenseStorage {
    /// A storage over a slot that the host found in the given state.
    pub fn new(found: Slot) -> (storage: Self)
        ensures
            storage@ == found@,
    {
        LicenseStorage { slot: found }
    }

    /// Takes note of the outcome of writing `license` to the medium.
    /// `written` says whether the medium took the whole record. Fails with
    /// `StorageError` exactly where it did not, and then leaves the slot as
    /// it was.
    pub fn save_license(&mut self, license: &LicenseInfo, written: bool) -> (saved: Result<
        (),
        LicenseError,
    >)
        ensures
            final(self)@ == after_save(old(self)@, license@, written),
            saved is Ok <==> written,
            saved matches Err(error) ==> error@ == LicenseErrorView::StorageError,
    {
        if written {
            self.slot = Slot::Holding(license.clone());
            Ok(())
        } else {
            Err(LicenseError::StorageError)
        }
    }

    /// Ends an operation that decided what to store. Where it decided on a
    /// record, `written` says whether the medium took it: the record is then
    /// returned, and `StorageError` otherwise. Where it decided on a
    /// failure, that failure is returned and the slot stays as it was.
    pub fn persist(&mut self, decided: Result<LicenseInfo, LicenseError>, written: bool) -> (stored:
        Result<LicenseInfo, LicenseError>)
        ensures
            (final(self)@, result_view(stored)) == persisted(
                old(self)@,
                result_view(decided),
                written,
            ),
    {
        match decided {
            Ok(record) => match self.save_license(&record, written) {
                Ok(()) => Ok(record),
                Err(error) => Err(error),
            },
            Err(error) => Err(error),
        }
    }

    /// The stored record.
    pub fn load_license(&self) -> (found: Result<LicenseInfo, LicenseError>)
        ensures
            result_view(found) == loaded(self@),
    {
        match &self.slot {
            Slot::Unavailable => Err(LicenseError::StorageError),
            Slot::Empty => Err(LicenseError::NotActivated),
            Slot::Unreadable => Err(LicenseError::StorageError),
            Slot::Holding(record) => Ok(record.clone()),
        }
    }

    /// Takes note of the outcome of removing what the slot holds. `removed`
    /// says whether the medium removed it; where nothing is stored the host
    /// attempts nothing and the value is not looked at.
    pub fn delete_license(&mut self, removed: bool) -> (deleted: Result<(), LicenseError>)
        ensures
            final(self)@ == after_delete(old(self)@, removed),
            deleted is Ok <==> delete_succeeds(old(self)@, removed),
            deleted matches Err(error) ==> error@ == LicenseErrorView::StorageError,
    {
        match &self.slot {
            Slot::Unavailable => Err(LicenseError::StorageError),
            Slot::Empty => Ok(()),
            _ => {
                if removed {
                    self.slot = Slot::Empty;
                    Ok(())
                } else {
                    Err(LicenseError::StorageError)
                }
            },
        }
    }

    /// Whether anything is stored, readable or not.
    pub fn license_exists(&self) -> (exists: bool)
        ensures
            exists == occupied(self@),
    {
        match &self.slot {
            Slot::Unreadable => true,
            Slot::Holding(_) => true,
            _ => false,
        }
    }
}

} // verus!
