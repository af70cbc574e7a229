//! A process-confinement library: directory capabilities, per-OS confinement
//! backends, and the decision logic that orchestrates fork-and-confine.
//!
//! The security-critical logic — which key maps to which capability, what
//! policy text is handed to the OS, how a fork result or an exit status is
//! classified — lives here and is verified. The native syscalls themselves
//! (opening directories, forking, waiting, the confinement primitives) are
//! injected by the embedding program through the provider traits declared
//! here, so none of the verified logic depends on how they are bound.

use vstd::prelude::*;

pub mod fs;
pub mod platform;

use crate::fs::{CapabilityProvider, DirModel, Directory};
use crate::platform::{enter_sandbox, NativeConfinement, PlatformConfinement};

verus! {

/// The error taxonomy of the library.
///
/// `SetupError` covers channel-pair creation and fork failure, detected
/// before any process split. `ConfinementError` means the platform
/// confinement call reported failure and the process must be treated as
/// still unconfined. `ProcessFailure` means a confined child exited with
/// non-zero status. `OsError` means a directory-relative open returned an
/// invalid descriptor. `CapabilityAcquisitionFailure` means a requested
/// path does not currently name a directory.
#[derive(PartialEq, Eq, Structural, Clone, Copy, Debug)]
pub enum SandboxError {
    SetupError,
    ConfinementError,
    ProcessFailure,
    OsError,
    CapabilityAcquisitionFailure,
}

impl SandboxError {
    /// A human-readable description of the error.
    pub fn message(&self) -> (r: &'static str)
        ensures
            r@ == self.message_spec(),
    {
        match self {
            SandboxError::SetupError => "fork() failed",
            SandboxError::ConfinementError => "entering the sandbox failed",
            SandboxError::ProcessFailure => "Sandboxed child process exited with non-zero status",
            SandboxError::OsError => "openat() failed",
            SandboxError::CapabilityAcquisitionFailure => "path is not a directory",
        }
    }

    pub open spec fn message_spec(&self) -> Seq<char> {
        match self {
            SandboxError::SetupError => "fork() failed"@,
            SandboxError::ConfinementError => "entering the sandbox failed"@,
            SandboxError::ProcessFailure => "Sandboxed child process exited with non-zero status"@,
            SandboxError::OsError => "openat() failed"@,
            SandboxError::CapabilityAcquisitionFailure => "path is not a directory"@,
        }
    }
}

/// Which branch of a fork the current process is on, as decided from the
/// value the process-duplication primitive returned.
#[derive(PartialEq, Eq, Structural, Clone, Copy, Debug)]
pub enum ForkDisposition {
    /// The duplication call itself failed; no child exists.
    Failed,
    /// This is the original process; `child_pid` identifies the child.
    Parent { child_pid: i32 },
    /// This is the newly created child process.
    Child,
}

/// Classifies the return value of the process-duplication primitive:
/// negative means the call failed, zero means this is the child, and a
/// positive value is the child's process identifier seen by the parent.
pub fn fork_disposition(pid: i32) -> (r: ForkDisposition)
    ensures
        pid < 0 ==> r == ForkDisposition::Failed,
        pid == 0 ==> r == ForkDisposition::Child,
        pid > 0 ==> r == (ForkDisposition::Parent { child_pid: pid }),
{
    if pid < 0 {
        ForkDisposition::Failed
    } else if pid == 0 {
        ForkDisposition::Child
    } else {
        ForkDisposition::Parent { child_pid: pid }
    }
}

/// Classifies the exit status of an awaited child: the wait succeeds if and
/// only if the child terminated with status zero.
pub fn wait_disposition(status: i32) -> (r: Result<(), SandboxError>)
    ensures
        r == Ok::<(), SandboxError>(()) <==> status == 0,
        status != 0 ==> r == Err::<(), SandboxError>(SandboxError::ProcessFailure),
{
    if status == 0 {
        Ok(())
    } else {
        Err(SandboxError::ProcessFailure)
    }
}

/// The key-to-capability mapping that a sequence of registry entries
/// denotes: later entries win, and lookups are by key view.
spec fn map_of(entries: Seq<(String, Directory)>) -> Map<Seq<char>, DirModel>
    decreases entries.len(),
{
    if entries.len() == 0 {
        Map::empty()
    } else {
        map_of(entries.drop_last()).insert(entries.last().0@, entries.last().1@)
    }
}

/// No two entries share a key.
spec fn keys_unique(entries: Seq<(String, Directory)>) -> bool {
    forall|i: int, j: int|
        0 <= i < j < entries.len() ==> entries[i].0@ != entries[j].0@
}

proof fn lemma_map_of_index(entries: Seq<(String, Directory)>, i: int)
    requires
        keys_unique(entries),
        0 <= i < entries.len(),
    ensures
        map_of(entries).contains_key(entries[i].0@),
        map_of(entries)[entries[i].0@] == entries[i].1@,
    decreases entries.len(),
{
    if i == entries.len() - 1 {
    } else {
        assert(keys_unique(entries.drop_last()));
        assert(entries.drop_last()[i] == entries[i]);
        lemma_map_of_index(entries.drop_last(), i);
        assert(entries.last().0@ != entries[i].0@);
    }
}

proof fn lemma_map_of_absent(entries: Seq<(String, Directory)>, key: Seq<char>)
    requires
        forall|j: int| 0 <= j < entries.len() ==> entries[j].0@ != key,
    ensures
        !map_of(entries).contains_key(key),
    decreases entries.len(),
{
    if entries.len() > 0 {
        assert(forall|j: int|
            0 <= j < entries.drop_last().len() ==> entries.drop_last()[j] == entries[j]);
        lemma_map_of_absent(entries.drop_last(), key);
    }
}

proof fn lemma_map_of_update(entries: Seq<(String, Directory)>, i: int, e: (String, Directory))
    requires
        keys_unique(entries),
        0 <= i < entries.len(),
        e.0@ == entries[i].0@,
    ensures
        map_of(entries.update(i, e)) == map_of(entries).insert(e.0@, e.1@),
        keys_unique(entries.update(i, e)),
    decreases entries.len(),
{
    let updated = entries.update(i, e);
    assert(keys_unique(updated));
    if i == entries.len() - 1 {
        assert(updated.drop_last() =~= entries.drop_last());
        assert(map_of(updated) == map_of(entries.drop_last()).insert(e.0@, e.1@));
        assert(map_of(entries).insert(e.0@, e.1@) =~= map_of(entries.drop_last()).insert(
            e.0@,
            e.1@,
        ));
    } else {
        let last = entries.last();
        assert(updated.drop_last() =~= entries.drop_last().update(i, e));
        assert(keys_unique(entries.drop_last())) by {
            assert(forall|a: int|
                0 <= a < entries.drop_last().len() ==> entries.drop_last()[a] == entries[a]);
        }
        assert(entries.drop_last()[i] == entries[i]);
        lemma_map_of_update(entries.drop_last(), i, e);
        assert(updated.last() == last);
        assert(map_of(updated) == map_of(entries.drop_last()).insert(e.0@, e.1@).insert(
            last.0@,
            last.1@,
        ));
        assert(last.0@ != e.0@);
        assert(map_of(entries.drop_last()).insert(e.0@, e.1@).insert(last.0@, last.1@)
            =~= map_of(entries.drop_last()).insert(last.0@, last.1@).insert(e.0@, e.1@));
    }
}

/// Looks up `key` among the entries, returning the index of its entry.
fn find_key(entries: &Vec<(String, Directory)>, key: &str) -> (r: Option<usize>)
    ensures
        match r {
            Some(i) => i < entries@.len() && entries@[i as int].0@ == key@,
            None => forall|j: int| 0 <= j < entries@.len() ==> entries@[j].0@ != key@,
        },
{
    let k: String = key.to_owned();
    let n = entries.len();
    for i in 0..n
        invariant
            k@ == key@,
            n == entries@.len(),
            forall|j: int| 0 <= j < i ==> entries@[j].0@ != key@,
    {
        let entry = &entries[i];
        if entry.0 == k {
            return Some(i);
        }
    }
    None
}

/// The effect of one registration attempt on the registry's mapping: a
/// successful acquisition stores the capability under the key, a failed one
/// leaves the mapping exactly as it was.
pub open spec fn spec_register(
    m: Map<Seq<char>, DirModel>,
    key: Seq<char>,
    dir: Option<DirModel>,
) -> Map<Seq<char>, DirModel> {
    match dir {
        Some(d) => m.insert(key, d),
        None => m,
    }
}

/// A failed acquisition never creates an entry: if `key` was absent from
/// the registry before a registration whose acquisition yielded no
/// capability, it is still absent afterwards — no entry, no error.
pub proof fn lemma_failed_registration_key_absent(m: Map<Seq<char>, DirModel>, key: Seq<char>)
    requires
        !m.contains_key(key),
    ensures
        spec_register(m, key, None) == m,
        !spec_register(m, key, None).contains_key(key),
{
}

/// An immutable snapshot of a registry's key-to-capability mapping, handed
/// to confined code. Lookup by key returns the capability or nothing;
/// confined code can never add to it.
pub struct SandboxContext {
    entries: Vec<(String, Directory)>,
}

impl View for SandboxContext {
    type V = Map<Seq<char>, DirModel>;

    closed spec fn view(&self) -> Map<Seq<char>, DirModel> {
        map_of(self.entries@)
    }
}

impl SandboxContext {
    /// The snapshot's entries have pairwise-distinct keys.
    pub closed spec fn wf(&self) -> bool {
        keys_unique(self.entries@)
    }

    /// The capability registered under `key`, or nothing if no directory
    /// was granted under that key.
    pub fn directory(&self, key: &str) -> (r: Option<&Directory>)
        requires
            self.wf(),
        ensures
            match r {
                Some(d) => self@.contains_key(key@) && d@ == self@[key@],
                None => !self@.contains_key(key@),
            },
    {
        match find_key(&self.entries, key) {
            Some(i) => {
                proof {
                    lemma_map_of_index(self.entries@, i as int);
                }
                Some(&self.entries[i].1)
            },
            None => {
                proof {
                    lemma_map_of_absent(self.entries@, key@);
                }
                None
            },
        }
    }
}

/// A capability registry: an ordered mapping from string keys to directory
/// capabilities, with unique keys, built by the owning caller before any
/// confinement. There is no removal operation: once granted, a capability
/// cannot be revoked within a running registry.
pub struct Sandbox {
    entries: Vec<(String, Directory)>,
}

impl View for Sandbox {
    type V = Map<Seq<char>, DirModel>;

    closed spec fn view(&self) -> Map<Seq<char>, DirModel> {
        map_of(self.entries@)
    }
}

impl Sandbox {
    /// The registry's entries have pairwise-distinct keys.
    pub closed spec fn wf(&self) -> bool {
        keys_unique(self.entries@)
    }

    /// The granted capabilities, in registration order.
    pub closed spec fn grants(&self) -> Seq<DirModel> {
        self.entries@.map_values(|e: (String, Directory)| e.1@)
    }

    /// An empty registry: no key is granted.
    pub fn new() -> (r: Sandbox)
        ensures
            r.wf(),
            r@ == Map::<Seq<char>, DirModel>::empty(),
            r.grants() == Seq::<DirModel>::empty(),
    {
        let r = Sandbox { entries: Vec::new() };
        proof {
            assert(r.grants() =~= Seq::<DirModel>::empty());
        }
        r
    }

    /// Records one acquisition attempt: a capability is stored under `key`
    /// (replacing any earlier grant under the same key), an attempt that
    /// yielded no capability changes nothing.
    pub fn register(&mut self, key: &str, dir: Option<Directory>)
        requires
            old(self).wf(),
        ensures
            final(self).wf(),
            final(self)@ == spec_register(
                old(self)@,
                key@,
                match dir {
                    Some(d) => Some(d@),
                    None => None,
                },
            ),
    {
        let d = match dir {
            Some(d) => d,
            None => {
                return;
            },
        };
        let k: String = key.to_owned();
        match find_key(&self.entries, key) {
            Some(i) => {
                proof {
                    lemma_map_of_update(self.entries@, i as int, (k, d));
                }
                self.entries[i] = (k, d);
            },
            None => {
                proof {
                    let pushed = self.entries@.push((k, d));
                    assert(pushed.drop_last() =~= self.entries@);
                    assert(keys_unique(pushed));
                }
                self.entries.push((k, d));
            },
        }
    }

    /// Resolves `path` to a directory capability through the injected
    /// provider and, on success, grants it under `key`; on failure the key
    /// is silently omitted — no entry, no error. Returns whether a
    /// capability was granted.
    pub fn add_directory<P: CapabilityProvider>(
        &mut self,
        key: &str,
        path: &str,
        provider: &mut P,
    ) -> (added: bool)
        requires
            old(self).wf(),
        ensures
            final(self).wf(),
            added ==> final(self)@.contains_key(key@) && final(self)@[key@].path == path@
                && final(self)@ == old(self)@.insert(key@, final(self)@[key@]),
            !added ==> final(self)@ == old(self)@,
    {
        let dir = Directory::new(path, provider);
        let added = dir.is_some();
        self.register(key, dir);
        added
    }

    /// Like [`Sandbox::add_directory`], but failure to acquire the
    /// directory is reported instead of silently omitting the key.
    pub fn add_directory_strict<P: CapabilityProvider>(
        &mut self,
        key: &str,
        path: &str,
        provider: &mut P,
    ) -> (r: Result<(), SandboxError>)
        requires
            old(self).wf(),
        ensures
            final(self).wf(),
            r is Ok ==> final(self)@.contains_key(key@) && final(self)@[key@].path == path@
                && final(self)@ == old(self)@.insert(key@, final(self)@[key@]),
            r is Err ==> final(self)@ == old(self)@ && r == Err::<(), SandboxError>(
                SandboxError::CapabilityAcquisitionFailure,
            ),
    {
        if self.add_directory(key, path, provider) {
            Ok(())
        } else {
            Err(SandboxError::CapabilityAcquisitionFailure)
        }
    }

    /// An immutable snapshot of the current key-to-capability mapping. Each
    /// capability is duplicated shallowly: the snapshot carries the same
    /// descriptor values, not new descriptors.
    pub fn context(&self) -> (r: SandboxContext)
        requires
            self.wf(),
        ensures
            r.wf(),
            r@ == self@,
    {
        let mut entries: Vec<(String, Directory)> = Vec::new();
        let n = self.entries.len();
        for i in 0..n
            invariant
                n == self.entries@.len(),
                entries@.len() == i,
                forall|j: int| 0 <= j < i ==> entries@[j] == self.entries@[j],
        {
            let entry = &self.entries[i];
            entries.push((entry.0.clone(), entry.1.duplicate()));
        }
        let r = SandboxContext { entries };
        proof {
            assert(r.entries@ =~= self.entries@);
        }
        r
    }

    /// The granted capabilities in registration order, each duplicated
    /// shallowly, for handing to the confinement backend.
    pub fn capabilities(&self) -> (r: Vec<Directory>)
        ensures
            r@.len() == self.grants().len(),
            forall|i: int| 0 <= i < r@.len() ==> r@[i]@ == self.grants()[i],
    {
        let mut r: Vec<Directory> = Vec::new();
        let n = self.entries.len();
        for i in 0..n
            invariant
                n == self.entries@.len(),
                r@.len() == i,
                forall|j: int| 0 <= j < i ==> r@[j]@ == self.grants()[j],
        {
            let entry = &self.entries[i];
            r.push(entry.1.duplicate());
        }
        r
    }

    /// The child branch of fork-and-confine: applies the platform's
    /// confinement primitive first and only then builds the context
    /// snapshot, so a body that receives the returned context can only run
    /// after confinement entry was attempted. Unlike
    /// [`Sandbox::sandbox_this_process`] this is lenient: the confinement
    /// result is returned alongside the context rather than withholding it,
    /// and the caller decides whether an unconfined run is acceptable — the
    /// body's only way to report anything is its channel.
    pub fn confine_child<N: NativeConfinement>(
        &self,
        platform: &PlatformConfinement,
        native: &mut N,
    ) -> (r: (SandboxContext, bool))
        requires
            self.wf(),
        ensures
            r.0.wf(),
            r.0@ == self@,
            platform is Unsupported ==> !r.1,
    {
        let grants = self.capabilities();
        let confined = enter_sandbox(platform, &grants, native);
        (self.context(), confined)
    }

    /// Applies the platform's confinement primitive to the calling process,
    /// using all registered capabilities, strictly before handing out the
    /// context the confined code will run with. On success the caller gets
    /// the snapshot; on failure it gets a confinement error and must treat
    /// the process as still unconfined. On an unsupported platform the
    /// result is always the error.
    pub fn sandbox_this_process<N: NativeConfinement>(
        &self,
        platform: &PlatformConfinement,
        native: &mut N,
    ) -> (r: Result<SandboxContext, SandboxError>)
        requires
            self.wf(),
        ensures
            r matches Ok(ctx) ==> ctx.wf() && ctx@ == self@,
            r matches Err(e) ==> e == SandboxError::ConfinementError,
            platform is Unsupported ==> r is Err,
    {
        let grants = self.capabilities();
        if enter_sandbox(platform, &grants, native) {
            Ok(self.context())
        } else {
            Err(SandboxError::ConfinementError)
        }
    }
}

} // verus!
