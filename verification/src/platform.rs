//! Per-OS confinement backends.
//!
//! One variant per target OS, behind a single `enter_sandbox` operation with
//! a fixed contract, so shared logic never branches on OS identity. The
//! native primitives (the capability-mode switch, the profile initializer,
//! the promise-restriction call) are injected through [`NativeConfinement`];
//! what this module verifies is the request handed to them — in particular
//! the exact text of the synthesized sandbox profile, where an escaping bug
//! would be a policy bypass, not a cosmetic defect.

use vstd::prelude::*;

use crate::fs::Directory;

verus! {

/// Performs the native confinement primitives.
///
/// Each call switches the current process into an OS-enforced
/// restricted-execution mode and returns the native call's status code,
/// zero on success. Confinement is irreversible and nothing is promised
/// about the returned code: whether the OS grants the switch is outside the
/// verified model, so every caller is verified for every possible outcome.
pub trait NativeConfinement {
    /// The capability-mode switch: after it succeeds the process can no
    /// longer resolve any new filesystem path by name; only descriptors
    /// already open remain usable.
    fn cap_enter(&mut self) -> i32;

    /// The declarative profile initializer: submits the given policy text.
    fn sandbox_init(&mut self, profile: &str) -> i32;

    /// The promise-restriction call: limits the process (`promises`), and
    /// any program it later executes (`execpromises`), to the named subset
    /// of syscall classes.
    fn pledge(&mut self, promises: &str, execpromises: &str) -> i32;
}

/// The confinement backend of the target OS: a capability-mode switch, a
/// declarative profile initializer, a promise-restriction call, or no
/// backend at all on an unrecognized platform.
#[derive(PartialEq, Eq, Structural, Clone, Copy, Debug)]
pub enum PlatformConfinement {
    CapabilityMode,
    ProfileInit,
    PromiseRestriction,
    Unsupported,
}

/// What a backend asks of the native layer: which primitive to invoke and,
/// where the primitive takes one, the exact argument text.
pub enum ConfinementRequest {
    /// Invoke the capability-mode switch; the granted capabilities need not
    /// be named, since only already-open descriptors survive the switch.
    CapabilityModeSwitch,
    /// Submit this policy text to the profile initializer.
    InitializeProfile { profile: String },
    /// Restrict the process, and anything it executes (so that executing a
    /// program cannot drop confinement), to these promised syscall classes.
    RestrictPromises { promises: String },
    /// No confinement exists on this platform; report failure so the caller
    /// can distinguish an unconfined run from a confined one.
    NoConfinement,
}

/// The promise set granted under the promise-restriction backend: basic
/// I/O only, with `error` so that violations return an error code instead
/// of terminating the process.
pub open spec fn promises_spec() -> Seq<char> {
    "stdio error"@
}

/// `s` with every double-quote turned into backslash double-quote.
pub open spec fn escape_seq(s: Seq<char>) -> Seq<char>
    decreases s.len(),
{
    if s.len() == 0 {
        Seq::empty()
    } else {
        escape_seq(s.drop_last()) + (if s.last() == '"' {
            seq!['\\', '"']
        } else {
            seq![s.last()]
        })
    }
}

/// Escaping loses nothing: two distinct paths never escape to the same
/// text, so no path can masquerade as another inside the quoted profile
/// string.
pub proof fn lemma_escape_seq_injective(s1: Seq<char>, s2: Seq<char>)
    requires
        escape_seq(s1) == escape_seq(s2),
    ensures
        s1 == s2,
    decreases s1.len() + s2.len(),
{
    if s1.len() == 0 && s2.len() == 0 {
        assert(s1 =~= s2);
    } else if s1.len() == 0 {
        assert(escape_seq(s2).len() > 0);
        assert(false);
    } else if s2.len() == 0 {
        assert(escape_seq(s1).len() > 0);
        assert(false);
    } else {
        let e1 = escape_seq(s1.drop_last());
        let e2 = escape_seq(s2.drop_last());
        let t1: Seq<char> = if s1.last() == '"' {
            seq!['\\', '"']
        } else {
            seq![s1.last()]
        };
        let t2: Seq<char> = if s2.last() == '"' {
            seq!['\\', '"']
        } else {
            seq![s2.last()]
        };
        assert(escape_seq(s1) == e1 + t1);
        assert(escape_seq(s2) == e2 + t2);
        assert((e1 + t1).last() == t1.last());
        assert((e2 + t2).last() == t2.last());
        if s1.last() == '"' && s2.last() == '"' {
            assert(t1.len() == 2 && t2.len() == 2);
            assert(e1.len() == e2.len());
            assert forall|i: int| 0 <= i < e1.len() implies e1[i] == e2[i] by {
                assert((e1 + t1)[i] == e1[i]);
                assert((e2 + t2)[i] == e2[i]);
            }
            assert(e1 =~= e2);
            lemma_escape_seq_injective(s1.drop_last(), s2.drop_last());
            assert(s1 =~= s1.drop_last().push(s1.last()));
            assert(s2 =~= s2.drop_last().push(s2.last()));
            assert(s1 == s2);
        } else if s1.last() != '"' && s2.last() != '"' {
            assert(t1.len() == 1 && t2.len() == 1);
            assert(e1.len() == e2.len());
            assert(s1.last() == t1.last() && s2.last() == t2.last());
            assert(s1.last() == s2.last());
            assert forall|i: int| 0 <= i < e1.len() implies e1[i] == e2[i] by {
                assert((e1 + t1)[i] == e1[i]);
                assert((e2 + t2)[i] == e2[i]);
            }
            assert(e1 =~= e2);
            lemma_escape_seq_injective(s1.drop_last(), s2.drop_last());
            assert(s1 =~= s1.drop_last().push(s1.last()));
            assert(s2 =~= s2.drop_last().push(s2.last()));
            assert(s1 == s2);
        } else if s1.last() == '"' {
            // The escaped texts would end in '"' and in a non-quote.
            assert(t1.last() == '"');
            assert(t2.last() == s2.last());
            assert(false);
        } else {
            assert(t1.last() == s1.last());
            assert(t2.last() == '"');
            assert(false);
        }
    }
}

/// The policy line allowing read and write anywhere under `path`, with the
/// path quoted and quote-escaped.
pub open spec fn allow_rule_spec(path: Seq<char>) -> Seq<char> {
    "(allow file-write* file-read* (subpath \""@ + escape_seq(path) + "\"))\n"@
}

/// One allow-rule per granted origin path, in order.
pub open spec fn allow_rules_spec(paths: Seq<Seq<char>>) -> Seq<char>
    decreases paths.len(),
{
    if paths.len() == 0 {
        Seq::empty()
    } else {
        allow_rules_spec(paths.drop_last()) + allow_rule_spec(paths.last())
    }
}

/// The full declarative sandbox profile: a version header, a default-deny
/// line, one allow-rule per granted capability, then the import of the
/// baseline policy providing minimal OS services.
pub open spec fn profile_spec(paths: Seq<Seq<char>>) -> Seq<char> {
    "(version 1)\n"@ + "(deny default)\n"@ + allow_rules_spec(paths) + "(import \"bsd.sb\")\n"@
}

/// The origin paths of a sequence of capabilities, in order.
pub open spec fn paths_of(grants: Seq<Directory>) -> Seq<Seq<char>> {
    grants.map_values(|d: Directory| d@.path)
}

/// Escapes a path for embedding in a quoted profile string: every
/// double-quote in `s` becomes backslash double-quote.
pub fn escape_path(s: &str) -> (r: String)
    ensures
        r@ == escape_seq(s@),
{
    let n = s.unicode_len();
    let mut out = String::new();
    for i in 0..n
        invariant
            n == s@.len(),
            out@ == escape_seq(s@.take(i as int)),
    {
        let c = s.get_char(i);
        proof {
            assert(s@.take(i + 1).drop_last() =~= s@.take(i as int));
            assert(s@.take(i + 1).last() == s@[i as int]);
        }
        if c == '"' {
            out.append("\\\"");
            proof {
                reveal_strlit("\\\"");
                assert(out@ =~= escape_seq(s@.take(i + 1)));
            }
        } else {
            let piece = s.substring_char(i, i + 1);
            out.append(piece);
            proof {
                assert(piece@ =~= seq![s@[i as int]]);
                assert(out@ =~= escape_seq(s@.take(i + 1)));
            }
        }
    }
    proof {
        assert(s@.take(n as int) =~= s@);
    }
    out
}

/// Synthesizes the declarative sandbox profile for the given capabilities:
/// exactly the text of [`profile_spec`] over their origin paths.
pub fn sandbox_profile(grants: &Vec<Directory>) -> (r: String)
    ensures
        r@ == profile_spec(paths_of(grants@)),
{
    let mut out = String::new();
    out.append("(version 1)\n");
    out.append("(deny default)\n");
    for i in 0..grants.len()
        invariant
            out@ == "(version 1)\n"@ + "(deny default)\n"@ + allow_rules_spec(
                paths_of(grants@).take(i as int),
            ),
    {
        out.append("(allow file-write* file-read* (subpath \"");
        let escaped = escape_path(grants[i].origin_path());
        out.append(escaped.as_str());
        out.append("\"))\n");
        proof {
            assert(paths_of(grants@).take(i + 1).drop_last() =~= paths_of(grants@).take(i as int));
            assert(paths_of(grants@).take(i + 1).last() == grants@[i as int]@.path);
            assert(out@ =~= "(version 1)\n"@ + "(deny default)\n"@ + allow_rules_spec(
                paths_of(grants@).take(i + 1),
            ));
        }
    }
    out.append("(import \"bsd.sb\")\n");
    proof {
        assert(paths_of(grants@).take(grants@.len() as int) =~= paths_of(grants@));
    }
    out
}

/// The request the given backend makes of the native layer for the given
/// granted capabilities: the capability-mode switch takes no argument, the
/// profile initializer takes exactly the synthesized profile, the
/// promise-restriction call takes exactly the fixed promise set, and an
/// unsupported platform asks nothing.
pub fn confinement_request(platform: &PlatformConfinement, grants: &Vec<Directory>) -> (r:
    ConfinementRequest)
    ensures
        platform is CapabilityMode ==> r is CapabilityModeSwitch,
        platform is ProfileInit ==> (r matches ConfinementRequest::InitializeProfile { profile }
            && profile@ == profile_spec(paths_of(grants@))),
        platform is PromiseRestriction ==> (r matches ConfinementRequest::RestrictPromises {
            promises } && promises@ == promises_spec()),
        platform is Unsupported ==> r is NoConfinement,
{
    match platform {
        PlatformConfinement::CapabilityMode => ConfinementRequest::CapabilityModeSwitch,
        PlatformConfinement::ProfileInit => ConfinementRequest::InitializeProfile {
            profile: sandbox_profile(grants),
        },
        PlatformConfinement::PromiseRestriction => ConfinementRequest::RestrictPromises {
            promises: String::from_str("stdio error"),
        },
        PlatformConfinement::Unsupported => ConfinementRequest::NoConfinement,
    }
}

/// Applies the platform's confinement primitive to the calling process,
/// using the granted capabilities where the primitive takes them. Must be
/// invoked at most once per process, strictly after every capability the
/// process will ever need is already open, and strictly before any
/// caller-supplied code runs; it is irreversible.
///
/// Returns the native call's success; on an unsupported platform no
/// confinement is performed and the result is failure, so callers can
/// distinguish "ran unconfined" from "ran confined".
pub fn enter_sandbox<N: NativeConfinement>(
    platform: &PlatformConfinement,
    grants: &Vec<Directory>,
    native: &mut N,
) -> (r: bool)
    ensures
        platform is Unsupported ==> r == false,
{
    match confinement_request(platform, grants) {
        ConfinementRequest::CapabilityModeSwitch => native.cap_enter() == 0,
        ConfinementRequest::InitializeProfile { profile } => native.sandbox_init(profile.as_str())
            == 0,
        ConfinementRequest::RestrictPromises { promises } => native.pledge(
            promises.as_str(),
            promises.as_str(),
        ) == 0,
        ConfinementRequest::NoConfinement => false,
    }
}

} // verus!
