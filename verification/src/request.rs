//! The synchronous capability: any path-like value can describe each of
//! the six open operations as an [`OpenRequest`], the complete instruction
//! for one platform open call.

use crate::open_mode::OpenMode;
use crate::policy::ErrorPolicy;
use vstd::prelude::*;

verus! {

/// Everything one open call needs: the path, the flag set (through the
/// mode) and what to do on failure.  Executing a request is the shell's
/// business; building it is verified here.
#[derive(Debug)]
pub struct OpenRequest {
    pub path: String,
    pub mode: OpenMode,
    pub policy: ErrorPolicy,
}

/// The mathematical content of a request.
pub struct RequestView {
    pub path: Seq<char>,
    pub mode: OpenMode,
    pub policy: ErrorPolicy,
}

impl View for OpenRequest {
    type V = RequestView;

    open spec fn view(&self) -> RequestView {
        RequestView { path: self.path@, mode: self.mode, policy: self.policy }
    }
}

/// The request the synchronous surface produces for a given path, mode
/// and policy.
pub open spec fn sync_request(path: Seq<char>, mode: OpenMode, policy: ErrorPolicy) -> RequestView {
    RequestView { path, mode, policy }
}

/// The synchronous file-open capability: six operations, three modes each
/// in a fail-fast and a recoverable flavour, on any value that names a
/// path.
pub trait FileFlex {
    /// The path this value names.
    spec fn path_view(&self) -> Seq<char>;

    /// An owned copy of the path.
    fn path_text(&self) -> (p: String)
        ensures
            p@ == self.path_view(),
    ;

    /// Open for writing, discarding existing content, creating the file
    /// when absent; failure ends the process.
    fn truncatable(&self) -> (r: OpenRequest)
        ensures
            r@ == sync_request(self.path_view(), OpenMode::Truncatable, ErrorPolicy::FailFast),
    {
        OpenRequest {
            path: self.path_text(),
            mode: OpenMode::Truncatable,
            policy: ErrorPolicy::FailFast,
        }
    }

    /// As `truncatable`, but failure is handed back to the caller.
    fn try_truncatable(&self) -> (r: OpenRequest)
        ensures
            r@ == sync_request(self.path_view(), OpenMode::Truncatable, ErrorPolicy::Recover),
    {
        OpenRequest {
            path: self.path_text(),
            mode: OpenMode::Truncatable,
            policy: ErrorPolicy::Recover,
        }
    }

    /// Open for writing at end-of-file, creating the file when absent;
    /// failure ends the process.
    fn appendable(&self) -> (r: OpenRequest)
        ensures
            r@ == sync_request(self.path_view(), OpenMode::Appendable, ErrorPolicy::FailFast),
    {
        OpenRequest {
            path: self.path_text(),
            mode: OpenMode::Appendable,
            policy: ErrorPolicy::FailFast,
        }
    }

    /// As `appendable`, but failure is handed back to the caller.
    fn try_appendable(&self) -> (r: OpenRequest)
        ensures
            r@ == sync_request(self.path_view(), OpenMode::Appendable, ErrorPolicy::Recover),
    {
        OpenRequest {
            path: self.path_text(),
            mode: OpenMode::Appendable,
            policy: ErrorPolicy::Recover,
        }
    }

    /// Open for reading only, never creating the file; failure ends the
    /// process.
    fn readable(&self) -> (r: OpenRequest)
        ensures
            r@ == sync_request(self.path_view(), OpenMode::Readable, ErrorPolicy::FailFast),
    {
        OpenRequest {
            path: self.path_text(),
            mode: OpenMode::Readable,
            policy: ErrorPolicy::FailFast,
        }
    }

    /// As `readable`, but failure is handed back to the caller.
    fn try_readable(&self) -> (r: OpenRequest)
        ensures
            r@ == sync_request(self.path_view(), OpenMode::Readable, ErrorPolicy::Recover),
    {
        OpenRequest {
            path: self.path_text(),
            mode: OpenMode::Readable,
            policy: ErrorPolicy::Recover,
        }
    }
}

impl FileFlex for str {
    open spec fn path_view(&self) -> Seq<char> {
        self@
    }

    fn path_text(&self) -> (p: String) {
        self.to_owned()
    }
}

impl FileFlex for String {
    open spec fn path_view(&self) -> Seq<char> {
        self@
    }

    fn path_text(&self) -> (p: String) {
        self.clone()
    }
}

impl<F: FileFlex + ?Sized> FileFlex for &F {
    open spec fn path_view(&self) -> Seq<char> {
        F::path_view(*self)
    }

    fn path_text(&self) -> (p: String) {
        F::path_text(*self)
    }
}

} // verus!
