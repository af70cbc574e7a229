//! Directory capabilities and directory-relative file opening.
//!
//! A [`Directory`] wraps one pre-opened directory descriptor together with
//! the filesystem path it was opened from. Once the surrounding process is
//! confined, a path can no longer be turned into a new descriptor, so these
//! pre-opened handles are the only filesystem access a confined body has.
//!
//! The syscalls themselves (checking that a path is a directory, opening it,
//! and the directory-relative open) are performed by a provider the caller
//! injects, so the decision logic here is verified independently of how the
//! native primitives are bound.

use vstd::prelude::*;

use crate::SandboxError;

verus! {

/// Performs the native work of turning a filesystem path into a pre-opened
/// directory descriptor.
///
/// An implementation must return `Some(fd)` only when `path` currently names
/// a directory, where `fd` is the descriptor produced by opening that
/// directory with close-on-exec semantics, and `None` when the path does not
/// name a directory. Nothing is promised about the returned value here: what
/// the filesystem holds is outside the verified model, so every caller is
/// verified for every possible outcome.
pub trait CapabilityProvider {
    fn open_directory(&mut self, path: &str) -> Option<i32>;
}

/// Performs the native directory-relative open.
///
/// An implementation must resolve `path` relative to the directory
/// descriptor `request.dir_fd`, honouring the access and creation fields of
/// `request` plus close-on-exec, and return the raw descriptor the syscall
/// produced (a negative value when the open failed). Nothing is promised
/// about the returned value.
pub trait FileProvider {
    fn open_relative(&mut self, request: &OpenOptions, path: &str) -> i32;
}

/// The specification-level value of a [`Directory`]: the raw descriptor and
/// the origin path it was opened from.
pub struct DirModel {
    pub fd: i32,
    pub path: Seq<char>,
}

/// An unforgeable directory capability: a pre-opened directory descriptor
/// plus its origin path.
///
/// The descriptor referred to a directory that existed at open time; the
/// capability carries no guarantee that the directory still exists or is
/// unchanged later. There is no close operation: the descriptor lives until
/// the process exits.
pub struct Directory {
    fd: i32,
    path: String,
}

impl View for Directory {
    type V = DirModel;

    closed spec fn view(&self) -> DirModel {
        DirModel { fd: self.fd, path: self.path@ }
    }
}

impl Directory {
    /// Builds the capability for an acquisition attempt that yielded `fd`:
    /// a capability carrying the descriptor and the origin path when the
    /// attempt produced a valid (non-negative) descriptor, nothing when it
    /// failed. Refusing a negative descriptor keeps the invariant that a
    /// capability's descriptor referred to a directory that existed at open
    /// time, even when the directory vanishes between the directory check
    /// and the open.
    pub fn from_acquired(path: &str, fd: Option<i32>) -> (r: Option<Directory>)
        ensures
            match fd {
                Some(f) => {
                    if f >= 0 {
                        r matches Some(d) && d@ == (DirModel { fd: f, path: path@ })
                    } else {
                        r is None
                    }
                },
                None => r is None,
            },
    {
        match fd {
            Some(f) => {
                if f >= 0 {
                    Some(Directory { fd: f, path: path.to_owned() })
                } else {
                    None
                }
            },
            None => None,
        }
    }

    /// Attempts to acquire a capability for `path`: succeeds only if the
    /// path currently names a directory, which the injected provider
    /// decides. On failure the caller simply ends up without the
    /// capability; no error is raised.
    pub fn new<P: CapabilityProvider>(path: &str, provider: &mut P) -> (r: Option<Directory>)
        ensures
            r matches Some(d) ==> d@.path == path@,
    {
        let fd = provider.open_directory(path);
        Directory::from_acquired(path, fd)
    }

    /// The raw descriptor, for handing to a native primitive.
    pub fn raw_fd(&self) -> (r: i32)
        ensures
            r == self@.fd,
    {
        self.fd
    }

    /// The filesystem path this capability was opened from.
    pub fn origin_path(&self) -> (r: &str)
        ensures
            r@ == self@.path,
    {
        self.path.as_str()
    }

    /// A shallow copy: the same descriptor value (not a new descriptor) and
    /// the same origin path. Used when a context snapshot is taken.
    pub fn duplicate(&self) -> (r: Directory)
        ensures
            r == *self,
    {
        Directory { fd: self.fd, path: self.path.clone() }
    }

    /// An open request bound to this capability, initially with no access
    /// requested, no creation flags, and default creation mode bits.
    pub fn open_options(&self) -> (r: OpenOptions)
        ensures
            r == (OpenOptions {
                dir_fd: self@.fd,
                read: false,
                write: false,
                append: false,
                truncate: false,
                create: false,
                mode: 0o666,
            }),
    {
        OpenOptions {
            dir_fd: self.fd,
            read: false,
            write: false,
            append: false,
            truncate: false,
            create: false,
            mode: 0o666,
        }
    }
}

/// The access mode a request resolves to: write-only when only write access
/// is requested, read-write when both are, and read-only otherwise.
#[derive(PartialEq, Eq, Structural, Clone, Copy, Debug)]
pub enum AccessMode {
    ReadOnly,
    WriteOnly,
    ReadWrite,
}

/// The access mode that a request with the given read and write fields
/// resolves to.
pub open spec fn access_mode_spec(read: bool, write: bool) -> AccessMode {
    if read && write {
        AccessMode::ReadWrite
    } else if write {
        AccessMode::WriteOnly
    } else {
        AccessMode::ReadOnly
    }
}

/// An open request scoped to one directory capability: intended read/write
/// access, append/truncate/create flags, and creation mode bits.
///
/// Directory-relative resolution by itself does not prevent a relative path
/// containing upward-traversal segments from escaping the directory;
/// containment is only as strong as the surrounding OS confinement layer.
#[derive(PartialEq, Eq, Structural, Clone, Copy, Debug)]
pub struct OpenOptions {
    pub dir_fd: i32,
    pub read: bool,
    pub write: bool,
    pub append: bool,
    pub truncate: bool,
    pub create: bool,
    pub mode: u32,
}

impl OpenOptions {
    /// Requests or withdraws read access.
    pub fn read(self, read: bool) -> (r: OpenOptions)
        ensures
            r == (OpenOptions { read: read, ..self }),
    {
        OpenOptions { read: read, ..self }
    }

    /// Requests or withdraws write access.
    pub fn write(self, write: bool) -> (r: OpenOptions)
        ensures
            r == (OpenOptions { write: write, ..self }),
    {
        OpenOptions { write: write, ..self }
    }

    /// Sets or clears the append flag.
    pub fn append(self, append: bool) -> (r: OpenOptions)
        ensures
            r == (OpenOptions { append: append, ..self }),
    {
        OpenOptions { append: append, ..self }
    }

    /// Sets or clears the truncate flag.
    pub fn truncate(self, truncate: bool) -> (r: OpenOptions)
        ensures
            r == (OpenOptions { truncate: truncate, ..self }),
    {
        OpenOptions { truncate: truncate, ..self }
    }

    /// Sets or clears the create flag.
    pub fn create(self, create: bool) -> (r: OpenOptions)
        ensures
            r == (OpenOptions { create: create, ..self }),
    {
        OpenOptions { create: create, ..self }
    }

    /// Sets the creation mode bits used when a file is created.
    pub fn mode(self, mode: u32) -> (r: OpenOptions)
        ensures
            r == (OpenOptions { mode: mode, ..self }),
    {
        OpenOptions { mode: mode, ..self }
    }

    /// The access mode this request resolves to.
    pub fn access_mode(&self) -> (r: AccessMode)
        ensures
            r == access_mode_spec(self.read, self.write),
    {
        if self.read && self.write {
            AccessMode::ReadWrite
        } else if self.write {
            AccessMode::WriteOnly
        } else {
            AccessMode::ReadOnly
        }
    }

    /// Resolves `path` relative to this request's directory descriptor via
    /// the injected provider and classifies the outcome: the descriptor on
    /// success, an `OsError` when the syscall returned an invalid
    /// descriptor.
    pub fn open<P: FileProvider>(&self, path: &str, provider: &mut P) -> (r: Result<
        i32,
        SandboxError,
    >)
        ensures
            r matches Ok(fd) ==> fd >= 0,
            r matches Err(e) ==> e == SandboxError::OsError,
    {
        let fd = provider.open_relative(self, path);
        open_outcome(fd)
    }
}

/// Classifies the raw result of a directory-relative open: a non-negative
/// value is a valid descriptor (zero included, when descriptor zero was
/// free), a negative value is a failed open.
pub fn open_outcome(fd: i32) -> (r: Result<i32, SandboxError>)
    ensures
        fd >= 0 ==> r == Ok::<i32, SandboxError>(fd),
        fd < 0 ==> r == Err::<i32, SandboxError>(SandboxError::OsError),
{
    if fd >= 0 {
        Ok(fd)
    } else {
        Err(SandboxError::OsError)
    }
}

} // verus!
