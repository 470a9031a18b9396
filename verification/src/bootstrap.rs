//! What to do at start-up, given what was found on the machine.
//!
//! Probing for programs and reading the lock file are the caller's part; the
//! decisions are made here.

use vstd::prelude::*;
use vstd::string::StringSliceAdditionalSpecFns;

verus! {

/// How the program goes on after probing the machine.
#[derive(Clone, Copy, Debug, PartialEq, Eq, Structural)]
pub enum Startup {
    /// Bring in the missing dependencies, then serve the user.
    Install,
    /// Stop with a hint at the installer.
    Abort,
}

/// The program goes on exactly when the build tool was found. The PDF
/// rewriter is probed too, but its absence stops nothing at this point: a PDF
/// request then fails when the rewriter is launched.
pub open spec fn startup_for(rewriter_found: bool, build_tool_found: bool) -> Startup {
    if build_tool_found {
        Startup::Install
    } else {
        Startup::Abort
    }
}

/// Whether `word` stands in `text` at the position `at`.
pub open spec fn occurs_at(text: Seq<u8>, word: Seq<u8>, at: int) -> bool {
    &&& 0 <= at
    &&& at + word.len() <= text.len()
    &&& text.subrange(at, at + word.len()) == word
}

/// Whether `word` stands anywhere in `text`.
pub open spec fn mentions(text: Seq<u8>, word: Seq<u8>) -> bool {
    exists|at: int| occurs_at(text, word, at)
}

/// Whether a dependency is to be added: the lock file could be read and does
/// not mention its name.
pub open spec fn install_needed(lock: Option<Seq<u8>>, dependency: Seq<u8>) -> bool {
    match lock {
        Some(text) => !mentions(text, dependency),
        None => false,
    }
}

/// Decides how to go on after probing the machine.
pub fn startup(rewriter_found: bool, build_tool_found: bool) -> (decision: Startup)
    ensures
        decision == startup_for(rewriter_found, build_tool_found),
{
    if build_tool_found {
        Startup::Install
    } else {
        Startup::Abort
    }
}

/// Compares `word` with what stands in `text` at `at`.
fn matches_at(text: &[u8], word: &[u8], at: usize) -> (same: bool)
    requires
        at + word.len() <= text.len(),
    ensures
        same == occurs_at(text@, word@, at as int),
{
    let mut offset: usize = 0;
    while offset < word.len()
        invariant
            offset <= word.len(),
            at + word.len() <= text.len(),
            forall|before: int| 0 <= before < offset ==> text@[at + before] == word@[before],
        decreases word@.len() - offset,
    {
        if text[at + offset] != word[offset] {
            proof {
                assert(text@.subrange(at as int, at + word@.len())[offset as int] == text@[at
                    + offset]);
            }
            return false;
        }
        offset = offset + 1;
    }
    proof {
        assert(text@.subrange(at as int, at + word@.len()) =~= word@);
    }
    true
}

/// Searches `text` for `word`.
pub fn contains_bytes(text: &[u8], word: &[u8]) -> (found: bool)
    ensures
        found == mentions(text@, word@),
{
    if word.len() > text.len() {
        return false;
    }
    let last = text.len() - word.len();
    let mut at: usize = 0;
    loop
        invariant
            at <= last,
            last == text.len() - word.len(),
            forall|before: int| 0 <= before < at ==> !occurs_at(text@, word@, before),
        decreases last - at,
    {
        if matches_at(text, word, at) {
            return true;
        }
        if at == last {
            return false;
        }
        at = at + 1;
    }
}

/// Decides whether a dependency is to be added, from the content of the lock
/// file, if it could be read, and the dependency's name.
pub fn needs_install(lock: Option<&str>, dependency: &str) -> (needed: bool)
    ensures
        needed == install_needed(
            match lock {
                Some(text) => Some(text.spec_bytes()),
                None => None,
            },
            dependency.spec_bytes(),
        ),
{
    match lock {
        Some(text) => !contains_bytes(text.as_bytes(), dependency.as_bytes()),
        None => false,
    }
}

} // verus!
