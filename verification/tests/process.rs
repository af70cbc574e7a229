//! Fork/wait decisions, directory-relative open requests, and the
//! inter-process channel.

use std::io::{BufRead, BufReader, Read, Write};

use unix_socket::UnixStream;

use rusty_sandbox::fs::{open_outcome, AccessMode, Directory, FileProvider, OpenOptions};
use rusty_sandbox::{fork_disposition, wait_disposition, ForkDisposition, Sandbox,
    SandboxError};

/// Records every directory-relative open request and answers with a fixed
/// descriptor.
struct FakeOpens {
    fd: i32,
    requests: Vec<(OpenOptions, String)>,
}

impl FileProvider for FakeOpens {
    fn open_relative(&mut self, request: &OpenOptions, path: &str) -> i32 {
        self.requests.push((*request, path.to_string()));
        self.fd
    }
}

#[test]
fn test_fork_disposition() {
    assert_eq!(fork_disposition(-1), ForkDisposition::Failed);
    assert_eq!(fork_disposition(0), ForkDisposition::Child);
    assert_eq!(fork_disposition(12345), ForkDisposition::Parent { child_pid: 12345 });
}

#[test]
fn test_wait_disposition() {
    assert_eq!(wait_disposition(0), Ok(()));
    assert_eq!(wait_disposition(1), Err(SandboxError::ProcessFailure));
    assert_eq!(wait_disposition(-1), Err(SandboxError::ProcessFailure));
    assert_eq!(wait_disposition(256), Err(SandboxError::ProcessFailure));
}

#[test]
fn test_open_outcome() {
    assert_eq!(open_outcome(5), Ok(5));
    // Descriptor zero is a valid descriptor: only a negative value is a
    // failed open.
    assert_eq!(open_outcome(0), Ok(0));
    assert_eq!(open_outcome(-1), Err(SandboxError::OsError));
}

#[test]
fn test_open_options_defaults() {
    let d = Directory::from_acquired("/tmp", Some(9)).unwrap();
    let opts = d.open_options();
    assert_eq!(opts.dir_fd, 9);
    assert!(!opts.read);
    assert!(!opts.write);
    assert!(!opts.append);
    assert!(!opts.truncate);
    assert!(!opts.create);
    assert_eq!(opts.mode, 0o666);
    assert_eq!(opts.access_mode(), AccessMode::ReadOnly);
}

#[test]
fn test_open_options_builders_and_access_mode() {
    let d = Directory::from_acquired("/tmp", Some(9)).unwrap();
    let opts = d.open_options().write(true).create(true).mode(0o600);
    assert!(opts.write);
    assert!(opts.create);
    assert_eq!(opts.mode, 0o600);
    assert_eq!(opts.access_mode(), AccessMode::WriteOnly);
    assert_eq!(d.open_options().read(true).access_mode(), AccessMode::ReadOnly);
    assert_eq!(d.open_options().read(true).write(true).access_mode(), AccessMode::ReadWrite);
    let cleared = opts.create(false).write(false);
    assert!(!cleared.create);
    assert_eq!(cleared.access_mode(), AccessMode::ReadOnly);
    let appending = d.open_options().append(true).truncate(true);
    assert!(appending.append);
    assert!(appending.truncate);
    assert!(!appending.append(false).append);
    assert!(!appending.truncate(false).truncate);
}

#[test]
fn test_open_resolves_through_provider() {
    let d = Directory::from_acquired("/tmp", Some(9)).unwrap();
    let mut provider = FakeOpens { fd: 42, requests: Vec::new() };
    let opts = d.open_options().write(true).create(true);
    let fd = opts.open("hello_rusty_sandbox", &mut provider).expect("open succeeds");
    assert_eq!(fd, 42);
    assert_eq!(provider.requests.len(), 1);
    let (request, path) = &provider.requests[0];
    assert_eq!(*path, "hello_rusty_sandbox");
    assert_eq!(request.dir_fd, 9);
    assert!(request.write);
    assert!(request.create);
}

#[test]
fn test_open_failure_is_os_error() {
    let d = Directory::from_acquired("/tmp", Some(9)).unwrap();
    let mut provider = FakeOpens { fd: -1, requests: Vec::new() };
    let r = d.open_options().read(true).open("missing", &mut provider);
    assert_eq!(r, Err(SandboxError::OsError));
    assert_eq!(SandboxError::OsError.message(), "openat() failed");
}

#[test]
fn test_channel_delivers_bytes_exactly_in_order() {
    let (mut ours, mut theirs) = UnixStream::pair().expect("channel pair");
    let sent: Vec<u8> = (0u8..=255).collect();
    theirs.write_all(&sent).expect("write");
    theirs.flush().expect("flush");
    drop(theirs);
    let mut received = Vec::new();
    ours.read_to_end(&mut received).expect("read");
    assert_eq!(received, sent);
}

#[test]
fn test_channel_duplex_exchange() {
    let (mut parent_end, child_end) = UnixStream::pair().expect("channel pair");
    parent_end.write_all(b"from parent\n").expect("write");
    parent_end.flush().expect("flush");
    // The other side reads a line, decorates it, and answers.
    let mut child_reader = BufReader::new(child_end.try_clone().expect("clone"));
    let mut line = String::new();
    child_reader.read_line(&mut line).expect("read line");
    let reply = line.trim_end().to_string() + " > from sandbox\n";
    let mut child_end = child_end;
    child_end.write_all(reply.as_bytes()).expect("write");
    child_end.flush().expect("flush");
    drop(child_end);
    drop(child_reader);
    let msg = BufReader::new(parent_end)
        .lines()
        .next()
        .expect("one line")
        .expect("valid utf-8");
    assert_eq!(msg, "from parent > from sandbox");
}

#[test]
fn test_channel_hello_world_with_empty_registry() {
    let sandbox = Sandbox::new();
    assert_eq!(sandbox.capabilities().len(), 0);
    let (mut parent_end, mut child_end) = UnixStream::pair().expect("channel pair");
    // The confined body's half: write the greeting and hang up.
    let ctx = sandbox.context();
    assert!(ctx.directory("anything").is_none());
    child_end.write_all(b"Hello World").expect("write");
    drop(child_end);
    // The parent's half: read back exactly what the body wrote.
    let mut got = String::new();
    parent_end.read_to_string(&mut got).expect("read");
    assert_eq!(got, "Hello World");
}

#[test]
fn test_channel_body_reports_err_for_unregistered_key() {
    let sandbox = Sandbox::new();
    let (parent_end, mut child_end) = UnixStream::pair().expect("channel pair");
    let ctx = sandbox.context();
    // No capability was registered for ".", so the body can only report the
    // failure over the channel.
    let report: &[u8] = match ctx.directory(".") {
        Some(_) => b"ok",
        None => b"err",
    };
    child_end.write_all(report).expect("write");
    child_end.write_all(b"\n").expect("write");
    child_end.flush().expect("flush");
    let msg = BufReader::new(parent_end)
        .lines()
        .next()
        .expect("one line")
        .expect("valid utf-8");
    assert_eq!(msg, "err");
}
