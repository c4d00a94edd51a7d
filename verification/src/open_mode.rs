//! The three fixed ways a path may be opened, and the flag set each one
//! hands to the platform's open call.

use vstd::prelude::*;

verus! {

/// One of the three open modes the library offers.
#[derive(Clone, Copy, Debug, PartialEq, Eq, Structural)]
pub enum OpenMode {
    /// Open for writing, discarding any existing content; the file is
    /// created when absent.
    Truncatable,
    /// Open for writing at end-of-file; the file is created when absent.
    Appendable,
    /// Open for reading only; an absent file is never created.
    Readable,
}

/// The flag set a mode hands to the platform's open call.
#[derive(Clone, Copy, Debug, PartialEq, Eq, Structural)]
pub struct OpenConfig {
    pub read: bool,
    pub write: bool,
    pub append: bool,
    pub truncate: bool,
    pub create: bool,
}

impl OpenMode {
    /// The flag table: each mode maps to exactly one configuration.
    pub open spec fn spec_config(self) -> OpenConfig {
        match self {
            OpenMode::Truncatable => OpenConfig {
                read: false,
                write: true,
                append: false,
                truncate: true,
                create: true,
            },
            OpenMode::Appendable => OpenConfig {
                read: false,
                write: true,
                append: true,
                truncate: false,
                create: true,
            },
            OpenMode::Readable => OpenConfig {
                read: true,
                write: false,
                append: false,
                truncate: false,
                create: false,
            },
        }
    }

    /// Whether an open in this mode creates the file when it is absent.
    pub open spec fn spec_creates(self) -> bool {
        self.spec_config().create
    }

    /// Whether a handle opened in this mode accepts writes.
    pub open spec fn spec_writable(self) -> bool {
        self.spec_config().write
    }

    /// Build the configuration for this mode.
    pub fn config(self) -> (c: OpenConfig)
        ensures
            c == self.spec_config(),
    {
        match self {
            OpenMode::Truncatable => OpenConfig {
                read: false,
                write: true,
                append: false,
                truncate: true,
                create: true,
            },
            OpenMode::Appendable => OpenConfig {
                read: false,
                write: true,
                append: true,
                truncate: false,
                create: true,
            },
            OpenMode::Readable => OpenConfig {
                read: true,
                write: false,
                append: false,
                truncate: false,
                create: false,
            },
        }
    }
}

} // verus!
