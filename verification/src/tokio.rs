//! The asynchronous capability: the same six operations as
//! [`crate::request::FileFlex`], producing the same requests.  The shell
//! executes an asynchronous request through its runtime's own open call,
//! which is the only suspension point; nothing here differs from the
//! synchronous surface but the name of each operation.

use crate::fs_model::spec_after_open;
use crate::fs_model::spec_open_ok;
use crate::open_mode::OpenMode;
use crate::policy::ErrorClass;
use crate::policy::ErrorPolicy;
use crate::policy::spec_failure_action;
use crate::request::OpenRequest;
use crate::request::RequestView;
use crate::request::sync_request;
use vstd::prelude::*;

verus! {

/// The request the asynchronous surface produces for a given path, mode
/// and policy.
pub open spec fn async_request(path: Seq<char>, mode: OpenMode, policy: ErrorPolicy) -> RequestView {
    RequestView { path, mode, policy }
}

/// The asynchronous file-open capability: six operations, three modes
/// each in a fail-fast and a recoverable flavour, on any value that names
/// a path.
pub trait FileFlexAsync {
    /// The path this value names.
    spec fn path_view(&self) -> Seq<char>;

    /// An owned copy of the path.
    fn path_text(&self) -> (p: String)
        ensures
            p@ == self.path_view(),
    ;

    /// Open for writing, discarding existing content, creating the file
    /// when absent; failure ends the process once the open resolves.
    fn tokio_truncatable(&self) -> (r: OpenRequest)
        ensures
            r@ == async_request(self.path_view(), OpenMode::Truncatable, ErrorPolicy::FailFast),
    {
        OpenRequest {
            path: self.path_text(),
            mode: OpenMode::Truncatable,
            policy: ErrorPolicy::FailFast,
        }
    }

    /// As `tokio_truncatable`, but failure is handed back to the caller.
    fn tokio_try_truncatable(&self) -> (r: OpenRequest)
        ensures
            r@ == async_request(self.path_view(), OpenMode::Truncatable, ErrorPolicy::Recover),
    {
        OpenRequest {
            path: self.path_text(),
            mode: OpenMode::Truncatable,
            policy: ErrorPolicy::Recover,
        }
    }

    /// Open for writing at end-of-file, creating the file when absent;
    /// failure ends the process once the open resolves.
    fn tokio_appendable(&self) -> (r: OpenRequest)
        ensures
            r@ == async_request(self.path_view(), OpenMode::Appendable, ErrorPolicy::FailFast),
    {
        OpenRequest {
            path: self.path_text(),
            mode: OpenMode::Appendable,
            policy: ErrorPolicy::FailFast,
        }
    }

    /// As `tokio_appendable`, but failure is handed back to the caller.
    fn tokio_try_appendable(&self) -> (r: OpenRequest)
        ensures
            r@ == async_request(self.path_view(), OpenMode::Appendable, ErrorPolicy::Recover),
    {
        OpenRequest {
            path: self.path_text(),
            mode: OpenMode::Appendable,
            policy: ErrorPolicy::Recover,
        }
    }

    /// Open for reading only, never creating the file; failure ends the
    /// process once the open resolves.
    fn tokio_readable(&self) -> (r: OpenRequest)
        ensures
            r@ == async_request(self.path_view(), OpenMode::Readable, ErrorPolicy::FailFast),
    {
        OpenRequest {
            path: self.path_text(),
            mode: OpenMode::Readable,
            policy: ErrorPolicy::FailFast,
        }
    }

    /// As `tokio_readable`, but failure is handed back to the caller.
    fn tokio_try_readable(&self) -> (r: OpenRequest)
        ensures
            r@ == async_request(self.path_view(), OpenMode::Readable, ErrorPolicy::Recover),
    {
        OpenRequest {
            path: self.path_text(),
            mode: OpenMode::Readable,
            policy: ErrorPolicy::Recover,
        }
    }
}

impl FileFlexAsync for str {
    open spec fn path_view(&self) -> Seq<char> {
        self@
    }

    fn path_text(&self) -> (p: String) {
        self.to_owned()
    }
}

impl FileFlexAsync for String {
    open spec fn path_view(&self) -> Seq<char> {
        self@
    }

    fn path_text(&self) -> (p: String) {
        self.clone()
    }
}

impl<F: FileFlexAsync + ?Sized> FileFlexAsync for &F {
    open spec fn path_view(&self) -> Seq<char> {
        F::path_view(*self)
    }

    fn path_text(&self) -> (p: String) {
        F::path_text(*self)
    }
}

/// The two surfaces agree: for every path, mode and policy, the
/// asynchronous operation requests exactly what the synchronous one
/// requests, so against the same filesystem the two opens succeed or
/// fail alike, leave the same contents behind, and decide a failure the
/// same way.  Equivalent call sequences against equivalent paths thus
/// end in the same contents and the same error classification on both
/// surfaces.
pub proof fn lemma_surfaces_agree(
    fs: Map<Seq<char>, Seq<u8>>,
    path: Seq<char>,
    mode: OpenMode,
    policy: ErrorPolicy,
    class: ErrorClass,
)
    ensures
        async_request(path, mode, policy) == sync_request(path, mode, policy),
        ({
            let a = async_request(path, mode, policy);
            let s = sync_request(path, mode, policy);
            &&& spec_open_ok(fs, a.path, a.mode) == spec_open_ok(fs, s.path, s.mode)
            &&& spec_after_open(fs, a.path, a.mode) == spec_after_open(fs, s.path, s.mode)
            &&& spec_failure_action(a.policy, a.mode, class) == spec_failure_action(
                s.policy,
                s.mode,
                class,
            )
        }),
{
}

} // verus!
