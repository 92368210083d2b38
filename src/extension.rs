//! The extension: resolves the command that starts the Typedown language
//! server for a workspace.
use vstd::prelude::*;

use crate::descriptor::{LaunchDescriptor, LaunchView};

verus! {

/// Where the Typedown executable is installed.
pub const TYPEDOWN_BINARY: &'static str = "/Users/indenscale/Documents/Projects/Monoco/Typedown/.venv/bin/typedown";

/// The argument that puts the Typedown executable in language server mode.
pub const LSP_ARG: &'static str = "lsp";

/// The launch that every resolution yields: the Typedown executable, the
/// single argument `lsp`, and no environment variables.
pub open spec fn typedown_launch() -> LaunchView {
    LaunchView { command: TYPEDOWN_BINARY@, args: seq![LSP_ARG@], env: Seq::empty() }
}

/// Why a resolution failed.
#[derive(Debug, PartialEq, Eq)]
pub enum ResolveError {
    /// No executable stands at `path`.
    BinaryNotFound { path: String },
}

/// The text that opens the message of a missing executable.
pub const NOT_FOUND_PREFIX: &'static str = "language server binary not found: ";

impl ResolveError {
    /// A message for the user that names the missing executable.
    pub fn message(&self) -> (r: String)
        ensures
            match self {
                ResolveError::BinaryNotFound { path } => r@ == NOT_FOUND_PREFIX@ + path@,
            },
    {
        match self {
            ResolveError::BinaryNotFound { path } => {
                let mut r = String::from_str(NOT_FOUND_PREFIX);
                r.append(path.as_str());
                r
            },
        }
    }
}

/// A fresh descriptor of the Typedown launch.
fn typedown_descriptor() -> (r: LaunchDescriptor)
    ensures
        r@ == typedown_launch(),
{
    let args: Vec<String> = vec![String::from_str(LSP_ARG)];
    let env: Vec<(String, String)> = Vec::new();
    let r = LaunchDescriptor { command: String::from_str(TYPEDOWN_BINARY), args, env };
    assert(r@.args =~= seq![LSP_ARG@]);
    assert(r@.env =~= Seq::<(Seq<char>, Seq<char>)>::empty());
    r
}

/// The extension holds no state: one instance serves every request.
#[derive(Debug, PartialEq, Eq)]
pub struct TypedownExtension;

impl TypedownExtension {
    /// The extension as the editor loads it, once per session.
    pub fn new() -> TypedownExtension {
        TypedownExtension
    }

    /// The command that starts the language server named `_language_server_id`
    /// for the workspace rooted at `_worktree_root`. Neither input is read:
    /// every call yields the same descriptor, and no call fails.
    pub fn language_server_command(
        &mut self,
        _language_server_id: &str,
        _worktree_root: &str,
    ) -> (r: Result<LaunchDescriptor, String>)
        ensures
            r is Ok,
            r->Ok_0@ == typedown_launch(),
            *final(self) == *old(self),
    {
        Ok(typedown_descriptor())
    }

    /// Like `language_server_command`, but refuses to hand back a descriptor
    /// whose executable is missing. `binary_found` tells whether an
    /// executable stands at `TYPEDOWN_BINARY`; finding that out is the
    /// caller's part.
    pub fn language_server_command_checked(
        &mut self,
        _language_server_id: &str,
        _worktree_root: &str,
        binary_found: bool,
    ) -> (r: Result<LaunchDescriptor, ResolveError>)
        ensures
            r is Ok <==> binary_found,
            r matches Ok(d) ==> d@ == typedown_launch(),
            r matches Err(e) ==> e matches ResolveError::BinaryNotFound { path }
                && path@ == TYPEDOWN_BINARY@,
            *final(self) == *old(self),
    {
        if binary_found {
            Ok(typedown_descriptor())
        } else {
            Err(ResolveError::BinaryNotFound { path: String::from_str(TYPEDOWN_BINARY) })
        }
    }
}

} // verus!
