//! The report status code handler.
//!
//! Callbacks at or below TPL_HIGH_LEVEL get an event when they register;
//! a reported status code is added to their buffer and their event is
//! signalled, so that the buffered codes are processed when the event runs.
//! Callbacks above TPL_HIGH_LEVEL get each status code directly. The boot
//! services that create, close and signal events, and the callbacks
//! themselves, are handed in as closures.

use crate::status_code::callback::RscHandlerCallback;
use crate::status_code::error::RscHandlerError;
use crate::status_code::service::{Guid, StatusCodeData, StatusCodeType, StatusCodeValue};
use crate::status_code::protocol::EfiStatusCodeHeader;
use vstd::prelude::*;

verus! {

/// A task priority level.
pub type Tpl = usize;

/// TPL_APPLICATION.
pub const TPL_APPLICATION: Tpl = 4;

/// TPL_CALLBACK.
pub const TPL_CALLBACK: Tpl = 8;

/// TPL_NOTIFY.
pub const TPL_NOTIFY: Tpl = 16;

/// TPL_HIGH_LEVEL.
pub const TPL_HIGH_LEVEL: Tpl = 31;

/// Extended data seen as its header and its bytes.
pub type StatusCodeDataView = (EfiStatusCodeHeader, Seq<u8>);

/// The view of optional extended data.
pub open spec fn data_view(d: Option<StatusCodeData>) -> Option<StatusCodeDataView> {
    match d {
        Some(x) => Some(x@),
        None => None,
    }
}

/// A reported status code.
pub struct RscDataEntry {
    /// Type of the status code.
    pub code_type: StatusCodeType,
    /// Value of the status code.
    pub value: StatusCodeValue,
    /// Instance that reported it.
    pub instance: u32,
    /// Reserved, zero.
    pub reserved: u32,
    /// Caller that reported it, if known.
    pub caller_id: Option<Guid>,
    /// Extended data, if any.
    pub status_code_data: Option<StatusCodeData>,
}

/// A status code seen as its type, value, instance, reserved field, caller
/// and extended data.
pub type RscDataView = (u32, u32, u32, u32, Option<Guid>, Option<StatusCodeDataView>);

impl View for RscDataEntry {
    type V = RscDataView;

    open spec fn view(&self) -> RscDataView {
        (
            self.code_type,
            self.value,
            self.instance,
            self.reserved,
            self.caller_id,
            data_view(self.status_code_data),
        )
    }
}

fn clone_data(d: &Option<StatusCodeData>) -> (r: Option<StatusCodeData>)
    ensures
        data_view(r) == data_view(*d),
{
    match d {
        Some(x) => Some(x.clone()),
        None => None,
    }
}

impl Clone for RscDataEntry {
    fn clone(&self) -> (r: Self)
        ensures
            r@ == self@,
    {
        RscDataEntry {
            code_type: self.code_type,
            value: self.value,
            instance: self.instance,
            reserved: self.reserved,
            caller_id: self.caller_id,
            status_code_data: clone_data(&self.status_code_data),
        }
    }
}

/// A registered callback: its TPL, the status codes buffered for it and its
/// event.
pub struct RscHandlerCallbackEntry {
    /// The callback.
    pub callback: RscHandlerCallback,
    /// Its task priority level.
    pub tpl: Tpl,
    /// Status codes waiting for its event.
    pub status_code_buffer: Vec<RscDataEntry>,
    /// Its event, for a callback at or below TPL_HIGH_LEVEL.
    pub event_handle: Option<usize>,
}

/// A registered callback seen as its callback, TPL, buffered codes and
/// event.
pub type EntryView = (RscHandlerCallback, Tpl, Seq<RscDataView>, Option<usize>);

/// The views of buffered status codes.
pub open spec fn buffer_view(b: Seq<RscDataEntry>) -> Seq<RscDataView> {
    b.map_values(|d: RscDataEntry| d@)
}

impl View for RscHandlerCallbackEntry {
    type V = EntryView;

    open spec fn view(&self) -> EntryView {
        (self.callback, self.tpl, buffer_view(self.status_code_buffer@), self.event_handle)
    }
}

impl RscHandlerCallbackEntry {
    /// A registered callback with nothing buffered and no event.
    pub fn new(callback: RscHandlerCallback, tpl: Tpl) -> (r: Self)
        ensures
            r@ == (callback, tpl, Seq::<RscDataView>::empty(), None::<usize>),
    {
        let r = Self { callback, tpl, status_code_buffer: Vec::new(), event_handle: None };
        assert(buffer_view(r.status_code_buffer@) =~= Seq::<RscDataView>::empty());
        r
    }

    /// Hands each buffered status code, oldest first, to `invoke` with the
    /// callback, then empties the buffer.
    pub fn process_all<F: Fn(RscHandlerCallback, &RscDataEntry)>(&mut self, invoke: F)
        requires
            forall|cb: RscHandlerCallback, d: &RscDataEntry| invoke.requires((cb, d)),
        ensures
            final(self)@ == (old(self)@.0, old(self)@.1, Seq::<RscDataView>::empty(), old(self)@.3),
            forall|i: int|
                0 <= i < old(self).status_code_buffer@.len() ==> #[trigger] invoke.ensures(
                    (old(self).callback, &old(self).status_code_buffer@[i]),
                    (),
                ),
    {
        let mut i: usize = 0;
        while i < self.status_code_buffer.len()
            invariant
                forall|cb: RscHandlerCallback, d: &RscDataEntry| invoke.requires((cb, d)),
                *self == *old(self),
                i <= self.status_code_buffer@.len(),
                forall|j: int|
                    0 <= j < i ==> #[trigger] invoke.ensures((self.callback, &self.status_code_buffer@[j]), ()),
            decreases self.status_code_buffer@.len() - i,
        {
            invoke(self.callback, &self.status_code_buffer[i]);
            i += 1;
        }
        self.status_code_buffer.clear();
        assert(buffer_view(self.status_code_buffer@) =~= Seq::<RscDataView>::empty());
    }
}

/// The report status code handler.
pub struct StandardRscHandler {
    /// The registered callbacks, oldest first.
    pub callback_list: Vec<RscHandlerCallbackEntry>,
    /// Whether the boot services have been handed over.
    pub initialized: bool,
    /// Whether a report is in progress.
    pub report_status_code_entry: bool,
}

/// Position of the first entry registered for `cb`, or `entries.len()`.
pub open spec fn callback_position(entries: Seq<EntryView>, cb: RscHandlerCallback) -> int
    decreases entries.len(),
{
    if entries.len() == 0 {
        0
    } else if entries[0].0 == cb {
        0
    } else {
        1 + callback_position(entries.drop_first(), cb)
    }
}

proof fn lemma_callback_position(entries: Seq<EntryView>, cb: RscHandlerCallback, k: int)
    requires
        0 <= k <= entries.len(),
        forall|j: int| 0 <= j < k ==> entries[j].0 != cb,
        k == entries.len() || entries[k].0 == cb,
    ensures
        callback_position(entries, cb) == k,
    decreases k,
{
    if k > 0 {
        lemma_callback_position(entries.drop_first(), cb, k - 1);
    }
}

/// An entry after a status code `rec` was reported: buffered when its TPL
/// is at or below TPL_HIGH_LEVEL.
pub open spec fn buffered(e: EntryView, rec: RscDataView) -> EntryView {
    if e.1 <= TPL_HIGH_LEVEL {
        (e.0, e.1, e.2.push(rec), e.3)
    } else {
        e
    }
}

/// Entries after a status code `rec` was reported to all of them.
pub open spec fn buffered_all(es: Seq<EntryView>, rec: RscDataView) -> Seq<EntryView> {
    es.map_values(|e: EntryView| buffered(e, rec))
}

/// A report of `rec` reached the callback of entry `e`: through its event,
/// signalled with `signal_event`, for a callback at or below TPL_HIGH_LEVEL
/// that has one; through `invoke`, handed a copy of the status code, for a
/// callback above.
pub open spec fn delivered_to<S: Fn(usize) -> Result<(), usize>, I: Fn(RscHandlerCallback, &RscDataEntry)>(
    e: EntryView,
    rec: RscDataView,
    signal_event: S,
    invoke: I,
) -> bool {
    if e.1 <= TPL_HIGH_LEVEL {
        e.3 is Some ==> exists|s: Result<(), usize>| #[trigger] signal_event.ensures((e.3->0,), s)
    } else {
        exists|d: RscDataEntry| d@ == rec && #[trigger] invoke.ensures((e.0, &d), ())
    }
}

/// A report of `rec` reached the callback of entry `e` and nothing failed:
/// its event, if it has one, was signalled successfully.
pub open spec fn delivered_ok_to<S: Fn(usize) -> Result<(), usize>, I: Fn(RscHandlerCallback, &RscDataEntry)>(
    e: EntryView,
    rec: RscDataView,
    signal_event: S,
    invoke: I,
) -> bool {
    &&& delivered_to(e, rec, signal_event, invoke)
    &&& (e.1 <= TPL_HIGH_LEVEL && e.3 is Some ==> signal_event.ensures((e.3->0,), Ok(())))
}

/// A report of `rec` reached the callbacks of the first `upto` entries.
pub open spec fn delivered_upto<S: Fn(usize) -> Result<(), usize>, I: Fn(RscHandlerCallback, &RscDataEntry)>(
    es: Seq<EntryView>,
    upto: int,
    rec: RscDataView,
    signal_event: S,
    invoke: I,
) -> bool {
    forall|j: int| 0 <= j < upto ==> #[trigger] delivered_ok_to(es[j], rec, signal_event, invoke)
}

impl StandardRscHandler {
    /// The registered callbacks.
    pub open spec fn entries(&self) -> Seq<EntryView> {
        self.callback_list@.map_values(|e: RscHandlerCallbackEntry| e@)
    }

    /// A handler with no callback, not initialized.
    pub fn new_uninit() -> (r: Self)
        ensures
            r.entries() == Seq::<EntryView>::empty(),
            !r.initialized,
            !r.report_status_code_entry,
    {
        let r = Self { callback_list: Vec::new(), initialized: false, report_status_code_entry: false };
        assert(r.entries() =~= Seq::<EntryView>::empty());
        r
    }

    /// Records that the boot services were handed over; fails with
    /// `AlreadyInitialized` the second time.
    pub fn initialize(&mut self) -> (r: Result<(), RscHandlerError>)
        ensures
            old(self).initialized ==> r == Err::<(), RscHandlerError>(RscHandlerError::AlreadyInitialized),
            !old(self).initialized ==> r is Ok,
            final(self).initialized,
            final(self).entries() == old(self).entries(),
            final(self).report_status_code_entry == old(self).report_status_code_entry,
    {
        if self.initialized {
            return Err(RscHandlerError::AlreadyInitialized);
        }
        self.initialized = true;
        Ok(())
    }

    fn find_callback(&self, callback: RscHandlerCallback) -> (r: usize)
        ensures
            r == callback_position(self.entries(), callback),
            r <= self.entries().len(),
    {
        let mut i: usize = 0;
        while i < self.callback_list.len() && self.callback_list[i].callback != callback
            invariant
                i <= self.callback_list@.len(),
                forall|j: int| 0 <= j < i ==> self.callback_list@[j].callback != callback,
            decreases self.callback_list@.len() - i,
        {
            i += 1;
        }
        proof {
            assert forall|j: int| 0 <= j < i implies self.entries()[j].0 != callback by {
                assert(self.entries()[j] == self.callback_list@[j]@);
            }
            if i < self.callback_list@.len() {
                assert(self.entries()[i as int] == self.callback_list@[i as int]@);
            }
            lemma_callback_position(self.entries(), callback, i as int);
        }
        i
    }

    /// Registers `callback` at `tpl`. Fails with `CallbackAlreadyRegistered`
    /// when it is registered already. At or below TPL_HIGH_LEVEL the
    /// callback needs an event: the handler must be initialized
    /// (`NotInitialized` otherwise) and `create_event` is called with the
    /// TPL; its failure status is returned as `EventCreationFailed`.
    pub fn register_callback<F: FnOnce(Tpl) -> Result<usize, usize>>(
        &mut self,
        callback: RscHandlerCallback,
        tpl: Tpl,
        create_event: F,
    ) -> (r: Result<(), RscHandlerError>)
        requires
            create_event.requires((tpl,)),
        ensures
            final(self).initialized == old(self).initialized,
            final(self).report_status_code_entry == old(self).report_status_code_entry,
            ({
                let old_entries = old(self).entries();
                let k = callback_position(old_entries, callback);
                let new_entry = |ev: Option<usize>| (callback, tpl, Seq::<RscDataView>::empty(), ev);
                if k < old_entries.len() {
                    r == Err::<(), RscHandlerError>(RscHandlerError::CallbackAlreadyRegistered)
                        && final(self).entries() == old_entries
                } else if tpl > TPL_HIGH_LEVEL {
                    r is Ok && final(self).entries() == old_entries.push(new_entry(None))
                } else if !old(self).initialized {
                    r == Err::<(), RscHandlerError>(RscHandlerError::NotInitialized) && final(self).entries()
                        == old_entries
                } else {
                    exists|res: Result<usize, usize>|
                        #![trigger create_event.ensures((tpl,), res)]
                        create_event.ensures((tpl,), res) && match res {
                            Ok(ev) => r is Ok && final(self).entries() == old_entries.push(new_entry(Some(ev))),
                            Err(s) => r == Err::<(), RscHandlerError>(RscHandlerError::EventCreationFailed(s))
                                && final(self).entries() == old_entries,
                        }
                }
            }),
    {
        let k = self.find_callback(callback);
        if k < self.callback_list.len() {
            return Err(RscHandlerError::CallbackAlreadyRegistered);
        }
        let mut new_entry = RscHandlerCallbackEntry::new(callback, tpl);
        if tpl <= TPL_HIGH_LEVEL {
            if !self.initialized {
                return Err(RscHandlerError::NotInitialized);
            }
            let res = create_event(tpl);
            match res {
                Ok(event) => {
                    new_entry.event_handle = Some(event);
                },
                Err(status) => {
                    return Err(RscHandlerError::EventCreationFailed(status));
                },
            }
        }
        let ghost before = self.entries();
        self.callback_list.push(new_entry);
        assert(self.entries() =~= before.push(new_entry@));
        Ok(())
    }

    /// Unregisters `callback`; fails with `UnregisterNotFound` when it is
    /// not registered. The entry is removed; then, at or below
    /// TPL_HIGH_LEVEL, its event is closed with `close_event`: that fails
    /// with `NotInitialized` when the handler is not initialized, with
    /// `MissingEvent` when the entry has no event, and with
    /// `EventCreationFailed` when `close_event` fails.
    pub fn unregister_callback<F: FnOnce(usize) -> Result<(), usize>>(
        &mut self,
        callback: RscHandlerCallback,
        close_event: F,
    ) -> (r: Result<(), RscHandlerError>)
        requires
            forall|ev: usize| close_event.requires((ev,)),
        ensures
            final(self).initialized == old(self).initialized,
            final(self).report_status_code_entry == old(self).report_status_code_entry,
            ({
                let old_entries = old(self).entries();
                let k = callback_position(old_entries, callback);
                if k == old_entries.len() {
                    r == Err::<(), RscHandlerError>(RscHandlerError::UnregisterNotFound) && final(self).entries()
                        == old_entries
                } else {
                    let e = old_entries[k];
                    &&& final(self).entries() == old_entries.remove(k)
                    &&& if e.1 > TPL_HIGH_LEVEL {
                        r is Ok
                    } else if !old(self).initialized {
                        r == Err::<(), RscHandlerError>(RscHandlerError::NotInitialized)
                    } else if e.3 is None {
                        r == Err::<(), RscHandlerError>(RscHandlerError::MissingEvent)
                    } else {
                        exists|res: Result<(), usize>|
                            #![trigger close_event.ensures((e.3->0,), res)]
                            close_event.ensures((e.3->0,), res) && match res {
                                Ok(()) => r is Ok,
                                Err(s) => r == Err::<(), RscHandlerError>(RscHandlerError::EventCreationFailed(s)),
                            }
                    }
                }
            }),
    {
        let k = self.find_callback(callback);
        if k == self.callback_list.len() {
            return Err(RscHandlerError::UnregisterNotFound);
        }
        let ghost before = self.entries();
        let entry = self.callback_list.remove(k);
        assert(self.entries() =~= before.remove(k as int));
        assert(entry@ == before[k as int]);
        if entry.tpl <= TPL_HIGH_LEVEL {
            if !self.initialized {
                return Err(RscHandlerError::NotInitialized);
            }
            let event = match entry.event_handle {
                Some(event) => event,
                None => {
                    return Err(RscHandlerError::MissingEvent);
                },
            };
            match close_event(event) {
                Ok(()) => {},
                Err(status) => {
                    return Err(RscHandlerError::EventCreationFailed(status));
                },
            }
        }
        Ok(())
    }

    /// Reports a status code. Fails with `ReentrantReportStatusCode`,
    /// changing nothing, while another report is in progress. Otherwise,
    /// in registration order, each callback at or below TPL_HIGH_LEVEL gets
    /// the code in its buffer and its event signalled with `signal_event`,
    /// and each callback above gets it through `invoke`. A failure to
    /// signal (or a handler that is not initialized) stops the report with
    /// the later callbacks untouched. The report is no longer in progress
    /// once it returns, whatever the outcome.
    pub fn report_status_code<S: Fn(usize) -> Result<(), usize>, I: Fn(RscHandlerCallback, &RscDataEntry)>(
        &mut self,
        code_type: StatusCodeType,
        value: StatusCodeValue,
        instance: u32,
        caller_id: Option<Guid>,
        status_code_data: Option<StatusCodeData>,
        signal_event: S,
        invoke: I,
    ) -> (r: Result<(), RscHandlerError>)
        requires
            forall|ev: usize| signal_event.requires((ev,)),
            forall|cb: RscHandlerCallback, d: &RscDataEntry| invoke.requires((cb, d)),
        ensures
            final(self).initialized == old(self).initialized,
            ({
                let rec: RscDataView = (code_type, value, instance, 0u32, caller_id, data_view(status_code_data));
                let old_entries = old(self).entries();
                let n = old_entries.len();
                if old(self).report_status_code_entry {
                    r == Err::<(), RscHandlerError>(RscHandlerError::ReentrantReportStatusCode)
                        && final(self).entries() == old_entries && final(self).report_status_code_entry
                } else if r is Ok {
                    &&& !final(self).report_status_code_entry
                    &&& final(self).entries() == buffered_all(old_entries, rec)
                    &&& delivered_upto(old_entries, n as int, rec, signal_event, invoke)
                } else {
                    &&& !final(self).report_status_code_entry
                    &&& exists|k: int|
                        0 <= k < n && #[trigger] old_entries[k].1 <= TPL_HIGH_LEVEL && old_entries[k].3 is Some
                            && final(self).entries() == buffered_all(old_entries.take(k + 1), rec) + old_entries.skip(k + 1)
                            && delivered_upto(old_entries, k, rec, signal_event, invoke) && ({
                            ||| !old(self).initialized && r == Err::<(), RscHandlerError>(
                                RscHandlerError::NotInitialized,
                            )
                            ||| exists|s: usize|
                                #![trigger signal_event.ensures((old_entries[k].3->0,), Err(s))]
                                signal_event.ensures((old_entries[k].3->0,), Err(s)) && r == Err::<
                                    (),
                                    RscHandlerError,
                                >(RscHandlerError::EventCreationFailed(s))
                        })
                }
            }),
    {
        if self.report_status_code_entry {
            return Err(RscHandlerError::ReentrantReportStatusCode);
        }
        self.report_status_code_entry = true;
        let record = RscDataEntry { code_type, value, instance, reserved: 0, caller_id, status_code_data };
        let ghost rec = record@;
        let ghost old_entries = self.entries();
        assert(old_entries == old(self).entries());
        assert(rec == (code_type, value, instance, 0u32, caller_id, data_view(status_code_data)));
        let n = self.callback_list.len();
        let mut i: usize = 0;
        while i < n
            invariant
                forall|ev: usize| signal_event.requires((ev,)),
                forall|cb: RscHandlerCallback, d: &RscDataEntry| invoke.requires((cb, d)),
                n == old_entries.len(),
                old_entries == old(self).entries(),
                !old(self).report_status_code_entry,
                rec == (code_type, value, instance, 0u32, caller_id, data_view(status_code_data)),
                i <= n,
                record@ == rec,
                self.initialized == old(self).initialized,
                self.report_status_code_entry,
                self.callback_list@.len() == n,
                self.entries() == buffered_all(old_entries.take(i as int), rec)
                    + old_entries.skip(i as int),
                delivered_upto(old_entries, i as int, rec, signal_event, invoke),
            decreases n - i,
        {
            let ghost cur = self.entries();
            let ghost list_before = self.callback_list@;
            assert(cur[i as int] == old_entries[i as int]);
            let mut entry = self.callback_list.remove(i);
            assert(entry@ == old_entries[i as int]);
            if entry.tpl <= TPL_HIGH_LEVEL {
                let ghost eb = entry.status_code_buffer@;
                entry.status_code_buffer.push(record.clone());
                assert(buffer_view(entry.status_code_buffer@) =~= buffer_view(eb).push(rec));
                let event = entry.event_handle;
                let ghost upd = entry@;
                let ghost moved = entry;
                self.callback_list.insert(i, entry);
                proof {
                    assert(upd == buffered(old_entries[i as int], rec));
                    assert(self.callback_list@ =~= list_before.update(i as int, moved));
                    assert(self.entries() =~= cur.update(i as int, upd));
                    assert(buffered_all(old_entries.take(i + 1), rec) =~= buffered_all(old_entries.take(
                        i as int,
                    ), rec).push(upd));
                    assert(cur.update(i as int, upd) =~= buffered_all(old_entries.take(i + 1), rec) + old_entries.skip(i + 1));
                }
                match event {
                    Some(ev) => {
                        assert(old_entries[i as int].1 <= TPL_HIGH_LEVEL && old_entries[i as int].3 == Some(ev));
                        if !self.initialized {
                            self.report_status_code_entry = false;
                            return Err(RscHandlerError::NotInitialized);
                        }
                        let signalled = signal_event(ev);
                        assert(signal_event.ensures((old_entries[i as int].3->0,), signalled));
                        assert(delivered_to(old_entries[i as int], rec, signal_event, invoke));
                        match signalled {
                            Ok(u) => {
                                assert(u == ());
                                assert(signal_event.ensures((old_entries[i as int].3->0,), Ok(())));
                                assert(delivered_ok_to(old_entries[i as int], rec, signal_event, invoke));
                            },
                            Err(status) => {
                                self.report_status_code_entry = false;
                                return Err(RscHandlerError::EventCreationFailed(status));
                            },
                        }
                    },
                    None => {},
                }
            } else {
                invoke(entry.callback, &record);
                assert(invoke.ensures((old_entries[i as int].0, &record), ()));
                assert(delivered_ok_to(old_entries[i as int], rec, signal_event, invoke));
                assert(delivered_to(old_entries[i as int], rec, signal_event, invoke));
                let ghost upd = entry@;
                let ghost moved = entry;
                self.callback_list.insert(i, entry);
                proof {
                    assert(upd == buffered(old_entries[i as int], rec));
                    assert(self.callback_list@ =~= list_before.update(i as int, moved));
                    assert(self.entries() =~= cur.update(i as int, upd));
                    assert(buffered_all(old_entries.take(i + 1), rec) =~= buffered_all(old_entries.take(
                        i as int,
                    ), rec).push(upd));
                    assert(cur.update(i as int, upd) =~= buffered_all(old_entries.take(i + 1), rec) + old_entries.skip(i + 1));
                }
            }
            proof {
                assert(delivered_ok_to(old_entries[i as int], rec, signal_event, invoke));
            }
            i += 1;
        }
        self.report_status_code_entry = false;
        proof {
            assert(old_entries.take(n as int) =~= old_entries);
            assert(self.entries() =~= buffered_all(old_entries, rec));
        }
        Ok(())
    }
}

proof fn lemma_position_bound(es: Seq<EntryView>, cb: RscHandlerCallback)
    ensures
        0 <= callback_position(es, cb) <= es.len(),
    decreases es.len(),
{
    if es.len() > 0 && es[0].0 != cb {
        lemma_position_bound(es.drop_first(), cb);
    }
}

proof fn lemma_position_absent(es: Seq<EntryView>, cb: RscHandlerCallback, j: int)
    requires
        callback_position(es, cb) == es.len(),
        0 <= j < es.len(),
    ensures
        es[j].0 != cb,
    decreases es.len(),
{
    if j > 0 {
        lemma_position_absent(es.drop_first(), cb, j - 1);
    }
}

/// Once a callback is registered, registering it again is refused: it is
/// found among the entries.
pub proof fn law_second_registration_found(es: Seq<EntryView>, e: EntryView)
    ensures
        callback_position(es.push(e), e.0) < es.push(e).len(),
    decreases es.len(),
{
    let s = es.push(e);
    lemma_position_bound(es, e.0);
    if callback_position(es, e.0) < es.len() {
        lemma_position_prefix(es, e);
    } else {
        assert forall|j: int| 0 <= j < es.len() implies s[j].0 != e.0 by {
            lemma_position_absent(es, e.0, j);
        }
        lemma_callback_position(s, e.0, es.len() as int);
    }
}

proof fn lemma_position_prefix(es: Seq<EntryView>, e: EntryView)
    requires
        callback_position(es, e.0) < es.len(),
    ensures
        callback_position(es.push(e), e.0) == callback_position(es, e.0),
    decreases es.len(),
{
    if es[0].0 != e.0 {
        assert(es.push(e).drop_first() =~= es.drop_first().push(e));
        lemma_position_prefix(es.drop_first(), e);
    }
}

/// Unregistering a callback that was just registered, where it was not
/// registered before, gives the registered callbacks back as they were.
pub proof fn law_unregister_undoes_register(es: Seq<EntryView>, e: EntryView)
    requires
        callback_position(es, e.0) == es.len(),
    ensures
        callback_position(es.push(e), e.0) == es.len(),
        es.push(e).remove(es.len() as int) == es,
{
    let s = es.push(e);
    assert forall|j: int| 0 <= j < es.len() implies s[j].0 != e.0 by {
        lemma_position_absent(es, e.0, j);
    }
    lemma_callback_position(s, e.0, es.len() as int);
    assert(s.remove(es.len() as int) =~= es);
}

/// A report adds the status code to the buffer of each callback at or
/// below TPL_HIGH_LEVEL, and of no other, and keeps the callbacks, their
/// levels and their events.
pub proof fn law_report_buffers_low_levels(es: Seq<EntryView>, rec: RscDataView, k: int)
    requires
        0 <= k < es.len(),
    ensures
        buffered_all(es, rec).len() == es.len(),
        buffered_all(es, rec)[k].0 == es[k].0,
        buffered_all(es, rec)[k].1 == es[k].1,
        buffered_all(es, rec)[k].3 == es[k].3,
        es[k].1 <= TPL_HIGH_LEVEL ==> buffered_all(es, rec)[k].2 == es[k].2.push(rec),
        es[k].1 > TPL_HIGH_LEVEL ==> buffered_all(es, rec)[k].2 == es[k].2,
{
}

/// A status code that a report buffered for a callback reaches it when the
/// callback's notification runs: once the buffered codes `before` (the
/// buffer after the report, the code last) have been handed to `invoke`,
/// as `process_all` does before emptying the buffer, `invoke` got the
/// reported code for that callback.
pub proof fn law_notification_delivers_report<I: Fn(RscHandlerCallback, &RscDataEntry)>(
    before: RscHandlerCallbackEntry,
    prior: Seq<RscDataView>,
    rec: RscDataView,
    invoke: I,
)
    requires
        before@.2 == prior.push(rec),
        forall|i: int|
            0 <= i < before.status_code_buffer@.len() ==> #[trigger] invoke.ensures(
                (before.callback, &before.status_code_buffer@[i]),
                (),
            ),
    ensures
        exists|d: RscDataEntry| d@ == rec && #[trigger] invoke.ensures((before.callback, &d), ()),
{
    let n = before.status_code_buffer@.len();
    assert(buffer_view(before.status_code_buffer@).len() == n);
    let d = before.status_code_buffer@[n - 1];
    assert(buffer_view(before.status_code_buffer@)[n - 1] == d@);
    assert(invoke.ensures((before.callback, &before.status_code_buffer@[n - 1]), ()));
}

} // verus!
