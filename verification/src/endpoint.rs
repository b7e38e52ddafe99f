//! The local endpoint that the control channel listens on.
//!
//! The configured path names either an entry in the file system or, where
//! it begins with `@`, a name in the abstract namespace. An entry in the
//! file system may be left over from an earlier run and is removed before
//! the endpoint is bound; an abstract name leaves nothing behind.

use vstd::prelude::*;
use vstd::string::*;

verus! {

/// Where the control channel listens.
#[derive(Debug, PartialEq, Eq)]
pub enum Endpoint {
    /// A name in the abstract namespace; `name` begins with a NUL character.
    Abstract { name: String },
    /// An entry in the file system.
    Path { path: String },
}

/// What an `Endpoint` holds.
pub enum EndpointView {
    Abstract { name: Seq<char> },
    Path { path: Seq<char> },
}

impl View for Endpoint {
    type V = EndpointView;

    open spec fn view(&self) -> EndpointView {
        match self {
            Endpoint::Abstract { name } => EndpointView::Abstract { name: name@ },
            Endpoint::Path { path } => EndpointView::Path { path: path@ },
        }
    }
}

/// The endpoint that a configured path names: with a leading `@`, the
/// abstract name that has a NUL character in place of the `@`; else the path
/// itself.
pub open spec fn endpoint_of(path: Seq<char>) -> EndpointView {
    if path.len() > 0 && path[0] == '@' {
        EndpointView::Abstract { name: seq!['\0'] + path.skip(1) }
    } else {
        EndpointView::Path { path }
    }
}

impl Endpoint {
    /// Reads a configured path.
    pub fn from_path(path: String) -> (endpoint: Endpoint)
        ensures
            endpoint@ == endpoint_of(path@),
    {
        let text = path.as_str();
        let len = text.unicode_len();
        if len > 0 && text.get_char(0) == '@' {
            let mut name = "\0".to_owned();
            proof {
                reveal_strlit("\0");
                assert("\0"@ =~= seq!['\0']);
            }
            name.append(text.substring_char(1, len));
            assert(name@ =~= seq!['\0'] + path@.skip(1));
            Endpoint::Abstract { name }
        } else {
            Endpoint::Path { path }
        }
    }

    /// Whether a stale entry is to be removed before the endpoint is bound.
    pub fn needs_cleanup(&self) -> (cleanup: bool)
        ensures
            cleanup == (self@ is Path),
    {
        match self {
            Endpoint::Abstract { .. } => false,
            Endpoint::Path { .. } => true,
        }
    }

    /// The address to bind.
    pub fn address(&self) -> (address: &str)
        ensures
            address@ == match self@ {
                EndpointView::Abstract { name } => name,
                EndpointView::Path { path } => path,
            },
    {
        match self {
            Endpoint::Abstract { name } => name.as_str(),
            Endpoint::Path { path } => path.as_str(),
        }
    }
}

} // verus!
