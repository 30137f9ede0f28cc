//! Paths of the host system, as far as the library decides by them.
use vstd::prelude::*;

use crate::text::chars_of;

verus! {

/// The kind of system that the daemon runs on.
#[derive(Clone, Copy, Debug, PartialEq, Eq, Structural)]
pub enum Platform {
    MacOs,
    Linux,
    /// Another Unix system, whose service manager is not supported.
    OtherUnix,
    Windows,
    /// A system on which the daemon is not supported.
    Other,
}

impl Platform {
    /// Whether the daemon can be started.
    pub open spec fn starts_daemons(self) -> bool {
        !(self is Other)
    }

    /// Whether the daemon can be started.
    pub fn supports_daemon(self) -> (r: bool)
        ensures
            r == self.starts_daemons(),
    {
        self != Platform::Other
    }
}

/// A component of a path.
#[derive(Debug, PartialEq, Eq)]
pub enum PathComponent {
    Prefix,
    Root,
    Current,
    Parent,
    Normal(String),
}

/// A path of the host system, as far as the decisions read it.
#[derive(Debug, PartialEq, Eq)]
pub struct HostPath {
    /// The path, where it is valid Unicode.
    pub unicode: Option<String>,
    /// The path as messages show it.
    pub display: String,
    pub absolute: bool,
    pub components: Vec<PathComponent>,
    /// The path without its last component.
    pub parent: Option<String>,
    /// The last component.
    pub file_name: Option<String>,
}

/// Whether `c` separates path components.
pub open spec fn separates(platform: Platform, c: char) -> bool {
    c == '/' || (platform == Platform::Windows && c == '\\')
}

/// A drive letter and a colon, without a root.
pub open spec fn bare_drive(platform: Platform, base: Seq<char>) -> bool {
    platform == Platform::Windows && base.len() == 2 && base[1] == ':' && ('a' <= base[0] <= 'z'
        || 'A' <= base[0] <= 'Z')
}

/// A plain name below a directory: one separator stands between them, unless
/// the directory is empty, ends with a separator, or is a bare drive.
pub open spec fn below(platform: Platform, base: Seq<char>, leaf: Seq<char>) -> Seq<char> {
    if base.len() == 0 || separates(platform, base.last()) || bare_drive(platform, base) {
        base + leaf
    } else {
        base.push(
            if platform == Platform::Windows {
                '\\'
            } else {
                '/'
            },
        ) + leaf
    }
}

/// The path of a plain name below a directory.
pub fn join_leaf(platform: Platform, base: &str, leaf: &str) -> (r: String)
    ensures
        r@ == below(platform, base@, leaf@),
{
    let chars = chars_of(base);
    let mut out = base.to_owned();
    let windows = platform == Platform::Windows;
    let n: usize = chars.len();
    let bare = n == 0 || {
        let last = chars[n - 1];
        last == '/' || (windows && last == '\\')
    } || (windows && n == 2 && chars[1] == ':' && (('a' <= chars[0] && chars[0] <= 'z') || ('A'
        <= chars[0] && chars[0] <= 'Z')));
    if !bare {
        if windows {
            out.push('\\');
        } else {
            out.push('/');
        }
    }
    out.append(leaf);
    out
}

} // verus!
