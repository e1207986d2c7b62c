//! The device enumeration protocol of the generic-tracker extension, as a
//! state machine. The driver performs each requested runtime call and hands
//! the outcome back; the machine decides what comes next.
//!
//! The protocol: create a device list, enumerate its ids, fetch each
//! device's properties and, for devices that can have one, create a space,
//! then destroy the list. The list is destroyed once it exists, whatever
//! happened in between, and the result is either every device or an error.
use vstd::prelude::*;

use crate::xdev::{Xdev, XdevProperties};

verus! {

#[verifier::external_type_specification]
#[verifier::external_body]
pub struct ExXrResult(openxr::sys::Result);

/// Where the protocol stands.
#[derive(Clone, Copy, Debug, PartialEq, Eq, Structural)]
pub enum Phase {
    CreatingList,
    Enumerating,
    FetchingProperties,
    CreatingSpace,
    DestroyingList,
    Done,
}

/// The runtime call the driver is to make next.
#[derive(Clone, Copy, Debug, PartialEq, Eq, Structural)]
pub enum Action {
    /// Create the device list.
    CreateList,
    /// Enumerate the list's device ids into a buffer of this many entries.
    EnumerateDevices { capacity: u32 },
    /// Fetch the properties of the device with this id.
    GetProperties { id: u64 },
    /// Create a space for the device with this id, at the identity pose.
    CreateSpace { id: u64 },
    /// Destroy the device list.
    DestroyList,
    /// Nothing is left to call: take the result.
    Finish,
}

/// One run of the enumeration protocol. `S` is the owned space handle.
pub struct XdevEnumeration<S> {
    phase: Phase,
    max_devices: u32,
    ids: Vec<u64>,
    records: Vec<Xdev<S>>,
    pending: Option<XdevProperties>,
    failure: Option<openxr::sys::Result>,
}

impl<S> XdevEnumeration<S> {
    pub closed spec fn phase(&self) -> Phase {
        self.phase
    }

    pub closed spec fn max_devices(&self) -> u32 {
        self.max_devices
    }

    /// The ids the runtime enumerated, truncated to the count it reported.
    pub closed spec fn ids(&self) -> Seq<u64> {
        self.ids@
    }

    /// The records made so far, in enumeration order.
    pub closed spec fn records(&self) -> Seq<Xdev<S>> {
        self.records@
    }

    /// The properties of the device whose space is being created.
    pub closed spec fn pending(&self) -> Option<XdevProperties> {
        self.pending
    }

    /// The first error the protocol met, if any.
    pub closed spec fn failure(&self) -> Option<openxr::sys::Result> {
        self.failure
    }

    pub closed spec fn wf(&self) -> bool {
        &&& self.records@.len() <= self.ids@.len()
        &&& forall|i: int|
            0 <= i < self.records@.len() ==> (#[trigger] self.records@[i]).id == self.ids@[i]
                && self.records@[i].wf()
        &&& (self.pending is Some) == (self.phase == Phase::CreatingSpace)
        &&& match self.phase {
            Phase::CreatingList | Phase::Enumerating => {
                &&& self.ids@.len() == 0
                &&& self.failure is None
            },
            Phase::FetchingProperties => {
                &&& self.records@.len() < self.ids@.len()
                &&& self.failure is None
            },
            Phase::CreatingSpace => {
                &&& self.records@.len() < self.ids@.len()
                &&& self.failure is None
                &&& self.pending.unwrap().can_create_space
            },
            Phase::DestroyingList | Phase::Done => {
                &&& self.failure is Some ==> self.records@.len() == 0
                &&& self.failure is None ==> self.records@.len() == self.ids@.len()
            },
        }
    }

    /// The phase that follows once `n` of the ids have a record.
    pub open spec fn phase_after_record(&self, n: int) -> Phase {
        if n == self.ids().len() {
            Phase::DestroyingList
        } else {
            Phase::FetchingProperties
        }
    }

    /// The call that the current phase asks for.
    pub open spec fn spec_action(&self) -> Action {
        match self.phase() {
            Phase::CreatingList => Action::CreateList,
            Phase::Enumerating => Action::EnumerateDevices { capacity: self.max_devices() },
            Phase::FetchingProperties => Action::GetProperties {
                id: self.ids()[self.records().len() as int],
            },
            Phase::CreatingSpace => Action::CreateSpace {
                id: self.ids()[self.records().len() as int],
            },
            Phase::DestroyingList => Action::DestroyList,
            Phase::Done => Action::Finish,
        }
    }

    /// Starts a run that enumerates at most `max_devices` devices.
    pub fn new(max_devices: u32) -> (r: Self)
        ensures
            r.wf(),
            r.phase() == Phase::CreatingList,
            r.max_devices() == max_devices,
            r.ids().len() == 0,
            r.records().len() == 0,
            r.failure() is None,
    {
        XdevEnumeration {
            phase: Phase::CreatingList,
            max_devices,
            ids: Vec::new(),
            records: Vec::new(),
            pending: None,
            failure: None,
        }
    }

    pub fn next_action(&self) -> (r: Action)
        requires
            self.wf(),
        ensures
            r == self.spec_action(),
    {
        match self.phase {
            Phase::CreatingList => Action::CreateList,
            Phase::Enumerating => Action::EnumerateDevices { capacity: self.max_devices },
            Phase::FetchingProperties => Action::GetProperties {
                id: self.ids[self.records.len()],
            },
            Phase::CreatingSpace => Action::CreateSpace { id: self.ids[self.records.len()] },
            Phase::DestroyingList => Action::DestroyList,
            Phase::Done => Action::Finish,
        }
    }

    /// The device list was created, or could not be. A failure here ends the
    /// run: there is no list to destroy.
    pub fn on_list_created(&mut self, r: Result<(), openxr::sys::Result>)
        requires
            old(self).wf(),
            old(self).phase() == Phase::CreatingList,
        ensures
            final(self).wf(),
            final(self).max_devices() == old(self).max_devices(),
            final(self).ids().len() == 0,
            final(self).records().len() == 0,
            match r {
                Ok(_) => final(self).phase() == Phase::Enumerating && final(self).failure() is None,
                Err(e) => final(self).phase() == Phase::Done && final(self).failure() == Some(e),
            },
    {
        match r {
            Ok(()) => {
                self.phase = Phase::Enumerating;
            },
            Err(e) => {
                self.failure = Some(e);
                self.phase = Phase::Done;
            },
        }
    }

    /// The runtime filled `buffer` and reported `count` devices, or failed.
    /// Only the first `count` entries are ids; a count beyond the buffer is
    /// cut to the buffer.
    pub fn on_devices_enumerated(&mut self, r: Result<(Vec<u64>, u32), openxr::sys::Result>)
        requires
            old(self).wf(),
            old(self).phase() == Phase::Enumerating,
        ensures
            final(self).wf(),
            final(self).max_devices() == old(self).max_devices(),
            final(self).records().len() == 0,
            match r {
                Ok((buffer, count)) => {
                    &&& final(self).ids() == buffer@.take(
                        if count <= buffer@.len() { count as int } else { buffer@.len() as int },
                    )
                    &&& final(self).failure() is None
                    &&& final(self).phase() == if final(self).ids().len() == 0 {
                        Phase::DestroyingList
                    } else {
                        Phase::FetchingProperties
                    }
                },
                Err(e) => {
                    &&& final(self).ids().len() == 0
                    &&& final(self).failure() == Some(e)
                    &&& final(self).phase() == Phase::DestroyingList
                },
            },
    {
        match r {
            Ok((buffer, count)) => {
                let mut ids = buffer;
                ids.truncate(count as usize);
                self.ids = ids;
                if self.ids.len() == 0 {
                    self.phase = Phase::DestroyingList;
                } else {
                    self.phase = Phase::FetchingProperties;
                }
            },
            Err(e) => {
                self.failure = Some(e);
                self.phase = Phase::DestroyingList;
            },
        }
    }

    /// Records the device in hand and moves on to the next id.
    fn push_record(&mut self, properties: XdevProperties, space: Option<S>)
        requires
            old(self).wf(),
            old(self).phase() == Phase::FetchingProperties || old(self).phase()
                == Phase::CreatingSpace,
            (space is Some) == properties.can_create_space,
        ensures
            final(self).wf(),
            final(self).max_devices() == old(self).max_devices(),
            final(self).ids() == old(self).ids(),
            final(self).failure() is None,
            final(self).pending() is None,
            final(self).records().len() == old(self).records().len() + 1,
            final(self).records().take(old(self).records().len() as int) == old(self).records(),
            final(self).records().last().id == old(self).ids()[old(self).records().len() as int],
            final(self).records().last().properties == properties,
            final(self).records().last().space == space,
            final(self).phase() == old(self).phase_after_record(final(self).records().len() as int),
    {
        let id = self.ids[self.records.len()];
        let record = Xdev::new(id, properties, space);
        self.records.push(record);
        self.pending = None;
        if self.records.len() == self.ids.len() {
            self.phase = Phase::DestroyingList;
        } else {
            self.phase = Phase::FetchingProperties;
        }
        assert(self.records@.take(old(self).records@.len() as int) =~= old(self).records@);
    }

    /// Aborts the materialization: every record made so far is dropped and
    /// the list is to be destroyed.
    fn abort(&mut self, e: openxr::sys::Result)
        requires
            old(self).wf(),
            old(self).phase() == Phase::FetchingProperties || old(self).phase()
                == Phase::CreatingSpace,
        ensures
            final(self).wf(),
            final(self).max_devices() == old(self).max_devices(),
            final(self).ids() == old(self).ids(),
            final(self).records().len() == 0,
            final(self).failure() == Some(e),
            final(self).phase() == Phase::DestroyingList,
    {
        self.records = Vec::new();
        self.pending = None;
        self.failure = Some(e);
        self.phase = Phase::DestroyingList;
    }

    /// The properties of the device asked for, or the runtime's error.
    pub fn on_properties(&mut self, r: Result<XdevProperties, openxr::sys::Result>)
        requires
            old(self).wf(),
            old(self).phase() == Phase::FetchingProperties,
        ensures
            final(self).wf(),
            final(self).max_devices() == old(self).max_devices(),
            final(self).ids() == old(self).ids(),
            match r {
                Ok(p) => if p.can_create_space {
                    &&& final(self).phase() == Phase::CreatingSpace
                    &&& final(self).pending() == Some(p)
                    &&& final(self).records() == old(self).records()
                    &&& final(self).failure() is None
                } else {
                    &&& final(self).records().len() == old(self).records().len() + 1
                    &&& final(self).records().take(old(self).records().len() as int) == old(
                        self,
                    ).records()
                    &&& final(self).records().last().id == old(self).ids()[old(
                        self,
                    ).records().len() as int]
                    &&& final(self).records().last().properties == p
                    &&& final(self).records().last().space is None
                    &&& final(self).phase() == old(self).phase_after_record(
                        final(self).records().len() as int,
                    )
                    &&& final(self).failure() is None
                },
                Err(e) => {
                    &&& final(self).records().len() == 0
                    &&& final(self).failure() == Some(e)
                    &&& final(self).phase() == Phase::DestroyingList
                },
            },
    {
        match r {
            Ok(p) => {
                if p.can_create_space {
                    self.pending = Some(p);
                    self.phase = Phase::CreatingSpace;
                } else {
                    self.push_record(p, None);
                }
            },
            Err(e) => {
                self.abort(e);
            },
        }
    }

    /// The space created for the device asked for, or the runtime's error.
    /// The record takes ownership of the space.
    pub fn on_space_created(&mut self, r: Result<S, openxr::sys::Result>)
        requires
            old(self).wf(),
            old(self).phase() == Phase::CreatingSpace,
        ensures
            final(self).wf(),
            final(self).max_devices() == old(self).max_devices(),
            final(self).ids() == old(self).ids(),
            match r {
                Ok(s) => {
                    &&& final(self).records().len() == old(self).records().len() + 1
                    &&& final(self).records().take(old(self).records().len() as int) == old(
                        self,
                    ).records()
                    &&& final(self).records().last().id == old(self).ids()[old(
                        self,
                    ).records().len() as int]
                    &&& old(self).pending() == Some(final(self).records().last().properties)
                    &&& final(self).records().last().space == Some(s)
                    &&& final(self).phase() == old(self).phase_after_record(
                        final(self).records().len() as int,
                    )
                    &&& final(self).failure() is None
                },
                Err(e) => {
                    &&& final(self).records().len() == 0
                    &&& final(self).failure() == Some(e)
                    &&& final(self).phase() == Phase::DestroyingList
                },
            },
    {
        match r {
            Ok(s) => {
                let p = self.pending.unwrap();
                self.push_record(p, Some(s));
            },
            Err(e) => {
                self.abort(e);
            },
        }
    }

    /// The device list was destroyed, or destroying it failed. An earlier
    /// failure is kept: a teardown error is reported only when everything
    /// before it succeeded.
    pub fn on_list_destroyed(&mut self, r: Result<(), openxr::sys::Result>)
        requires
            old(self).wf(),
            old(self).phase() == Phase::DestroyingList,
        ensures
            final(self).wf(),
            final(self).phase() == Phase::Done,
            final(self).max_devices() == old(self).max_devices(),
            final(self).ids() == old(self).ids(),
            final(self).failure() == match old(self).failure() {
                Some(e) => Some(e),
                None => match r {
                    Ok(_) => None,
                    Err(e) => Some(e),
                },
            },
            final(self).failure() is None ==> final(self).records() == old(self).records(),
    {
        if self.failure.is_none() {
            if let Err(e) = r {
                self.failure = Some(e);
                self.records = Vec::new();
            }
        }
        self.phase = Phase::Done;
    }

    /// The outcome of a finished run: every device, in enumeration order,
    /// or the first error met.
    pub fn finish(self) -> (r: Result<Vec<Xdev<S>>, openxr::sys::Result>)
        requires
            self.wf(),
            self.phase() == Phase::Done,
        ensures
            match self.failure() {
                Some(e) => r == Err::<Vec<Xdev<S>>, openxr::sys::Result>(e),
                None => r is Ok && r->Ok_0@ == self.records(),
            },
            r is Ok ==> {
                let v = r->Ok_0@;
                &&& v.len() == self.ids().len()
                &&& forall|i: int|
                    0 <= i < v.len() ==> (#[trigger] v[i]).id == self.ids()[i] && v[i].wf()
            },
    {
        match self.failure {
            Some(e) => Err(e),
            None => Ok(self.records),
        }
    }
} // impl

} // verus!
