//! The handles that a host holds: numbers that are given out once, for
//! whatever the host asked to be kept.
use crate::host_error::{AiMuxFfiError, FfiError, FfiErrorView, HostErrorView};
use std::collections::HashMap;
use vstd::prelude::*;

verus! {

/// What a handle stands for.
#[derive(Clone, Copy, PartialEq, Eq, Structural, Debug)]
pub enum HandleKind {
    Language,
    Provider,
    Embedding,
    Speech,
    Image,
    Transcription,
    Reranking,
    Video,
    Search,
    Files,
    TranscriptionSession,
    Abort,
    Operation,
}

impl HandleKind {
    /// What a handle of this kind is called when another one was given.
    pub open spec fn word(self) -> Seq<char> {
        match self {
            HandleKind::Language => "model"@,
            HandleKind::Provider => "provider"@,
            HandleKind::Embedding => "embedding"@,
            HandleKind::Speech => "speech"@,
            HandleKind::Image => "image"@,
            HandleKind::Transcription => "transcription"@,
            HandleKind::Reranking => "reranking"@,
            HandleKind::Video => "video"@,
            HandleKind::Search => "search"@,
            HandleKind::Files => "files"@,
            HandleKind::TranscriptionSession => "transcription session"@,
            HandleKind::Abort => "abort"@,
            HandleKind::Operation => "operation"@,
        }
    }

    pub fn word_text(self) -> (r: &'static str)
        ensures
            r@ == self.word(),
    {
        match self {
            HandleKind::Language => "model",
            HandleKind::Provider => "provider",
            HandleKind::Embedding => "embedding",
            HandleKind::Speech => "speech",
            HandleKind::Image => "image",
            HandleKind::Transcription => "transcription",
            HandleKind::Reranking => "reranking",
            HandleKind::Video => "video",
            HandleKind::Search => "search",
            HandleKind::Files => "files",
            HandleKind::TranscriptionSession => "transcription session",
            HandleKind::Abort => "abort",
            HandleKind::Operation => "operation",
        }
    }

    /// What has to happen to what was kept when its handle is dropped: a
    /// session's task and an operation's driver do not outlive their handle.
    pub open spec fn released(self) -> Release {
        match self {
            HandleKind::TranscriptionSession => Release::Terminate,
            HandleKind::Operation => Release::CancelAndClose,
            _ => Release::Forget,
        }
    }

    /// What has to happen to what was kept when its handle is dropped.
    pub fn release(self) -> (r: Release)
        ensures
            r == self.released(),
    {
        match self {
            HandleKind::TranscriptionSession => Release::Terminate,
            HandleKind::Operation => Release::CancelAndClose,
            _ => Release::Forget,
        }
    }
}

/// What a dropped handle asks for.
#[derive(Clone, Copy, PartialEq, Eq, Structural, Debug)]
pub enum Release {
    /// Nothing but to let go.
    Forget,
    /// End the session's task.
    Terminate,
    /// Cancel the operation, which wakes its readers, and wait for its driver.
    CancelAndClose,
}

/// What is kept under a handle.
pub struct HandleEntry<T> {
    pub kind: HandleKind,
    pub value: T,
}

/// The live handles, and the trace stores of those that are traced.
pub struct Registry<T, S> {
    entries: HashMap<u64, HandleEntry<T>>,
    traces: HashMap<u64, S>,
    next: u64,
}

#[verifier::ext_equal]
pub struct RegistryView<T, S> {
    pub entries: Map<u64, HandleEntry<T>>,
    pub traces: Map<u64, S>,
    pub next: u64,
}

impl<T, S> View for Registry<T, S> {
    type V = RegistryView<T, S>;

    closed spec fn view(&self) -> RegistryView<T, S> {
        RegistryView { entries: self.entries@, traces: self.traces@, next: self.next }
    }
}

impl<T, S> RegistryView<T, S> {
    /// Handles were given out below the next one; 0 is none.
    pub open spec fn wf(self) -> bool {
        &&& self.next >= 1
        &&& forall|h: u64| #[trigger] self.entries.dom().contains(h) ==> 1 <= h < self.next
        &&& forall|h: u64| #[trigger] self.traces.dom().contains(h) ==> 1 <= h < self.next
    }

    pub open spec fn holds(self, handle: u64, kind: HandleKind) -> bool {
        self.entries.dom().contains(handle) && self.entries[handle].kind == kind
    }

    /// Whether these are handles of models.
    pub open spec fn all_models(self, handles: Seq<u64>) -> bool {
        forall|i: int| 0 <= i < handles.len() ==> self.holds(#[trigger] handles[i], HandleKind::Language)
    }

    /// Keep an entry under the next number; 0 once the numbers have run out.
    pub open spec fn interned(self, entry: HandleEntry<T>) -> (RegistryView<T, S>, u64) {
        if self.next == u64::MAX {
            (self, 0)
        } else {
            (
                RegistryView {
                    entries: self.entries.insert(self.next, entry),
                    next: (self.next + 1) as u64,
                    ..self
                },
                self.next,
            )
        }
    }

    pub open spec fn released(self, handle: u64) -> RegistryView<T, S> {
        RegistryView { entries: self.entries.remove(handle), traces: self.traces.remove(handle), ..self }
    }
}

pub open spec fn wrong_handle(expected: Seq<char>) -> FfiErrorView {
    FfiErrorView::InvalidHandle { expected }
}

impl<T, S> Registry<T, S> {
    pub fn new() -> (r: Registry<T, S>)
        ensures
            r@ == (RegistryView::<T, S> { entries: Map::empty(), traces: Map::empty(), next: 1 }),
            r@.wf(),
    {
        broadcast use vstd::std_specs::hash::group_hash_axioms;

        Registry { entries: HashMap::new(), traces: HashMap::new(), next: 1 }
    }

    /// Keep a value; its handle, or 0 once the numbers have run out.
    pub fn intern_handle(&mut self, kind: HandleKind, value: T) -> (r: u64)
        requires
            old(self)@.wf(),
        ensures
            final(self)@.wf(),
            (final(self)@, r) == old(self)@.interned(HandleEntry { kind, value }),
    {
        broadcast use vstd::std_specs::hash::group_hash_axioms;

        if self.next == u64::MAX {
            return 0;
        }
        let ghost before = self@;
        let handle: u64 = self.next;
        self.entries.insert(handle, HandleEntry { kind, value });
        self.next = handle + 1;
        proof {
            let now = self@;
            assert forall|h: u64| #[trigger] now.entries.dom().contains(h) implies 1 <= h < now.next by {
                assert(h == handle || before.entries.dom().contains(h));
            }
            assert forall|h: u64| #[trigger] now.traces.dom().contains(h) implies 1 <= h < now.next by {
                assert(before.traces.dom().contains(h));
            }
        }
        handle
    }

    /// Whatever is kept under a handle.
    pub fn get_handle(&self, handle: u64) -> (r: Option<&HandleEntry<T>>)
        ensures
            match r {
                Some(entry) => self@.entries.dom().contains(handle) && *entry == self@.entries[handle],
                None => !self@.entries.dom().contains(handle),
            },
    {
        broadcast use vstd::std_specs::hash::group_hash_axioms;

        self.entries.get(&handle)
    }

    /// What is kept under a handle of one kind; any other handle is called by
    /// what was expected.
    pub fn entry_of(&self, handle: u64, kind: HandleKind, expected: &str) -> (r: Result<&T, FfiError>)
        ensures
            match r {
                Ok(value) => self@.holds(handle, kind) && *value == self@.entries[handle].value,
                Err(error) => !self@.holds(handle, kind) && error@ == wrong_handle(expected@),
            },
    {
        match self.get_handle(handle) {
            Some(entry) => if entry.kind == kind {
                Ok(&entry.value)
            } else {
                Err(FfiError::invalid_handle(expected))
            },
            None => Err(FfiError::invalid_handle(expected)),
        }
    }

    /// What is kept under a handle of one kind.
    pub fn of(&self, handle: u64, kind: HandleKind) -> (r: Result<&T, FfiError>)
        ensures
            match r {
                Ok(value) => self@.holds(handle, kind) && *value == self@.entries[handle].value,
                Err(error) => !self@.holds(handle, kind) && error@ == wrong_handle(kind.word()),
            },
    {
        self.entry_of(handle, kind, kind.word_text())
    }

    /// The model under a handle.
    pub fn model_of(&self, handle: u64) -> (r: Result<&T, FfiError>)
        ensures
            match r {
                Ok(value) => self@.holds(handle, HandleKind::Language) && *value == self@.entries[handle].value,
                Err(error) => !self@.holds(handle, HandleKind::Language) && error@ == wrong_handle("model"@),
            },
    {
        self.of(handle, HandleKind::Language)
    }

    /// Release a handle of any kind, and its trace store; what it held, if it
    /// was live.
    pub fn drop_handle(&mut self, handle: u64) -> (r: Option<HandleEntry<T>>)
        requires
            old(self)@.wf(),
        ensures
            final(self)@.wf(),
            final(self)@ == old(self)@.released(handle),
            match r {
                Some(entry) => old(self)@.entries.dom().contains(handle) && entry
                    == old(self)@.entries[handle],
                None => !old(self)@.entries.dom().contains(handle),
            },
    {
        broadcast use vstd::std_specs::hash::group_hash_axioms;

        let ghost before = self@;
        let removed = self.entries.remove(&handle);
        self.traces.remove(&handle);
        proof {
            let now = self@;
            assert forall|h: u64| #[trigger] now.entries.dom().contains(h) implies 1 <= h < now.next by {
                assert(before.entries.dom().contains(h));
            }
            assert forall|h: u64| #[trigger] now.traces.dom().contains(h) implies 1 <= h < now.next by {
                assert(before.traces.dom().contains(h));
            }
        }
        removed
    }

    /// Release a handle only if it is of this kind, so that a handle of
    /// another kind survives a mistaken release.
    pub fn drop_handle_of(&mut self, handle: u64, kind: HandleKind) -> (r: Option<HandleEntry<T>>)
        requires
            old(self)@.wf(),
        ensures
            final(self)@.wf(),
            if old(self)@.holds(handle, kind) {
                &&& final(self)@ == (RegistryView {
                    entries: old(self)@.entries.remove(handle),
                    ..old(self)@
                })
                &&& r == Some(old(self)@.entries[handle])
            } else {
                final(self)@ == old(self)@ && r is None
            },
    {
        broadcast use vstd::std_specs::hash::group_hash_axioms;

        let matching: bool = match self.get_handle(handle) {
            Some(entry) => entry.kind == kind,
            None => false,
        };
        if matching {
            self.entries.remove(&handle)
        } else {
            None
        }
    }

    /// Release a handle of any kind, but not its trace store.
    pub fn drop_entry(&mut self, handle: u64) -> (r: Option<HandleEntry<T>>)
        requires
            old(self)@.wf(),
        ensures
            final(self)@.wf(),
            final(self)@ == (RegistryView { entries: old(self)@.entries.remove(handle), ..old(self)@ }),
            match r {
                Some(entry) => old(self)@.entries.dom().contains(handle) && entry
                    == old(self)@.entries[handle],
                None => !old(self)@.entries.dom().contains(handle),
            },
    {
        broadcast use vstd::std_specs::hash::group_hash_axioms;

        self.entries.remove(&handle)
    }

    /// Keep a traced model and its trace store under one new handle.
    pub fn intern_traced(&mut self, value: T, store: S) -> (r: u64)
        requires
            old(self)@.wf(),
        ensures
            final(self)@.wf(),
            ({
                let (kept, handle) = old(self)@.interned(HandleEntry { kind: HandleKind::Language, value });
                &&& r == handle
                &&& final(self)@ == (if handle == 0 {
                    kept
                } else {
                    RegistryView { traces: kept.traces.insert(handle, store), ..kept }
                })
            }),
    {
        broadcast use vstd::std_specs::hash::group_hash_axioms;

        let handle: u64 = self.intern_handle(HandleKind::Language, value);
        if handle != 0 {
            self.traces.insert(handle, store);
        }
        handle
    }

    /// The trace store of a handle.
    pub fn trace_store_of(&self, handle: u64) -> (r: Result<&S, FfiError>)
        ensures
            match r {
                Ok(store) => self@.traces.dom().contains(handle) && *store == self@.traces[handle],
                Err(error) => !self@.traces.dom().contains(handle) && error@ == wrong_handle("trace"@),
            },
    {
        broadcast use vstd::std_specs::hash::group_hash_axioms;

        match self.traces.get(&handle) {
            Some(store) => Ok(store),
            None => Err(FfiError::invalid_handle("trace")),
        }
    }

    /// Check that an array of handles holds models only. An absent array is
    /// empty when it is said to be; no dead member is passed over.
    pub fn model_handles(
        &self,
        handles: Option<&[u64]>,
        len: usize,
        argument: &str,
        expected: &str,
    ) -> (r: Result<Vec<u64>, AiMuxFfiError>)
        requires
            handles matches Some(list) ==> list@.len() == len,
        ensures
            match handles {
                None => if len == 0 {
                    r matches Ok(list) && list@.len() == 0
                } else {
                    r matches Err(error) && error@ == HostErrorView::Ffi(
                        FfiErrorView::NullPointer { argument: argument@ },
                    )
                },
                Some(given) => if self@.all_models(given@) {
                    r matches Ok(list) && list@ == given@
                } else {
                    r matches Err(error) && error@ == HostErrorView::Ffi(wrong_handle(expected@))
                },
            },
    {
        let given: &[u64] = match handles {
            Some(given) => given,
            None => {
                if len != 0 {
                    return Err(AiMuxFfiError::Ffi(FfiError::null_pointer(argument)));
                }
                return Ok(Vec::new());
            },
        };
        let mut out: Vec<u64> = Vec::new();
        let mut i: usize = 0;
        while i < given.len()
            invariant
                i <= given@.len(),
                handles == Some(given),
                out@ == given@.take(i as int),
                forall|k: int| 0 <= k < i ==> self@.holds(#[trigger] given@[k], HandleKind::Language),
            decreases given.len() - i,
        {
            match self.entry_of(given[i], HandleKind::Language, expected) {
                Ok(_) => out.push(given[i]),
                Err(error) => {
                    assert(!self@.holds(given@[i as int], HandleKind::Language));
                    assert(!self@.all_models(given@));
                    return Err(AiMuxFfiError::Ffi(error));
                },
            }
            i = i + 1;
        }
        assert(given@.take(i as int) =~= given@);
        Ok(out)
    }
}

/// Whether a call is under way on this thread.
pub struct CallGuard {
    busy: bool,
}

impl CallGuard {
    pub closed spec fn busy(self) -> bool {
        self.busy
    }

    pub fn new() -> (r: CallGuard)
        ensures
            !r.busy(),
    {
        CallGuard { busy: false }
    }

    /// Enter a call. A call from inside another one is refused, and leaves
    /// that one under way.
    pub fn enter(&mut self) -> (r: Result<(), FfiError>)
        ensures
            final(self).busy(),
            match r {
                Ok(()) => !old(self).busy(),
                Err(error) => old(self).busy() && error@ == FfiErrorView::ReentrantCall,
            },
    {
        if self.busy {
            return Err(FfiError::ReentrantCall);
        }
        self.busy = true;
        Ok(())
    }

    /// Leave the call that was entered.
    pub fn leave(&mut self)
        ensures
            !final(self).busy(),
    {
        self.busy = false;
    }
}

// Laws.

/// A handle is never 0 and never one that was given out before: releasing a
/// handle does not free its number.
pub proof fn law_handles_are_never_reused<T, S>(
    s: RegistryView<T, S>,
    a: HandleEntry<T>,
    b: HandleEntry<T>,
    released: u64,
)
    requires
        s.wf(),
        s.interned(a).1 != 0,
        s.interned(a).0.interned(b).1 != 0,
    ensures
        !s.entries.dom().contains(s.interned(a).1),
        s.interned(a).0.released(released).interned(b).1 > s.interned(a).1,
        s.interned(a).0.wf(),
        s.released(released).wf(),
{
}

/// A new handle finds what was kept under it, and every other handle what it
/// found before.
pub proof fn law_interning_keeps_the_rest<T, S>(s: RegistryView<T, S>, entry: HandleEntry<T>, other: u64)
    requires
        s.wf(),
        s.interned(entry).1 != 0,
    ensures
        s.interned(entry).0.entries.dom().contains(s.interned(entry).1),
        s.interned(entry).0.entries[s.interned(entry).1] == entry,
        other != s.interned(entry).1 ==> {
            &&& s.interned(entry).0.entries.dom().contains(other) <==> s.entries.dom().contains(other)
            &&& s.entries.dom().contains(other) ==> s.interned(entry).0.entries[other] == s.entries[other]
        },
{
}

/// A released handle is dead, releasing it again changes nothing, and every
/// other handle stays.
pub proof fn law_release_is_final<T, S>(s: RegistryView<T, S>, handle: u64, other: u64, kind: HandleKind)
    requires
        other != handle,
    ensures
        !s.released(handle).holds(handle, kind),
        !s.released(handle).traces.dom().contains(handle),
        s.released(handle).released(handle) == s.released(handle),
        s.released(handle).holds(other, kind) <==> s.holds(other, kind),
{
    assert(s.released(handle).released(handle).entries =~= s.released(handle).entries);
    assert(s.released(handle).released(handle).traces =~= s.released(handle).traces);
}

} // verus!
