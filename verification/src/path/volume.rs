//! The name of the volume that a path begins with, for display.

use vstd::prelude::*;
use vstd::string::StringExecFns;

verus! {

/// The prefix of a path under Windows.
pub enum VolumePrefix {
    /// `\\?\name`
    Verbatim(String),
    /// `\\?\UNC\server\share`
    VerbatimUNC(String, String),
    /// `\\?\C:`, with the letter of the disk
    VerbatimDisk(u8),
    /// `\\.\namespace`
    DeviceNS(String),
    /// `\\server\share`
    UNC(String, String),
    /// `C:`, with the letter of the disk
    Disk(u8),
}

/// The first component of a path.
pub enum FirstComponent {
    Prefix(VolumePrefix),
    /// The root directory.
    RootDir,
    /// `.`
    CurDir,
    /// `..`
    ParentDir,
    /// A name.
    Normal(String),
}

/// The text shown for a disk: its letter, a colon and a backslash.
pub open spec fn disk_text(disk: u8) -> Seq<char> {
    seq![disk as char] + ":\\"@
}

/// The text shown for a prefix.
pub open spec fn prefix_text(prefix: VolumePrefix) -> Seq<char> {
    match prefix {
        VolumePrefix::Verbatim(name) => name@,
        VolumePrefix::VerbatimUNC(server, share) => server@ + "\\"@ + share@,
        VolumePrefix::VerbatimDisk(disk) => disk_text(disk),
        VolumePrefix::DeviceNS(namespace) => namespace@,
        VolumePrefix::UNC(server, share) => server@ + "\\"@ + share@ + "\\"@,
        VolumePrefix::Disk(disk) => disk_text(disk),
    }
}

/// The text shown for the first component of a path.
pub open spec fn volume_text(first: FirstComponent) -> Seq<char> {
    match first {
        FirstComponent::Prefix(prefix) => prefix_text(prefix),
        FirstComponent::RootDir => "/"@,
        FirstComponent::CurDir => "."@,
        FirstComponent::ParentDir => ".."@,
        FirstComponent::Normal(name) => name@,
    }
}

fn disk_name(disk: u8) -> (r: String)
    ensures
        r@ == disk_text(disk),
{
    let mut out = String::new();
    out.push(disk as char);
    out.append(":\\");
    assert(out@ =~= disk_text(disk));
    out
}

/// Returns the volume name for some path, intended for display, from the
/// path's first component. A path without components has none.
pub fn volume_name(first: Option<FirstComponent>) -> (r: Option<String>)
    ensures
        first is None ==> r is None,
        first is Some ==> r is Some && r.unwrap()@ == volume_text(first.unwrap()),
{
    if let Some(component) = first {
        let volume = match component {
            FirstComponent::Prefix(prefix) => match prefix {
                VolumePrefix::Verbatim(name) => name,
                VolumePrefix::VerbatimUNC(server, share) => {
                    let mut out = server;
                    out.append("\\");
                    out.append(share.as_str());
                    out
                },
                VolumePrefix::VerbatimDisk(disk) => disk_name(disk),
                VolumePrefix::DeviceNS(namespace) => namespace,
                VolumePrefix::UNC(server, share) => {
                    let mut out = server;
                    out.append("\\");
                    out.append(share.as_str());
                    out.append("\\");
                    out
                },
                VolumePrefix::Disk(disk) => disk_name(disk),
            },
            FirstComponent::RootDir => String::from_str("/"),
            FirstComponent::CurDir => String::from_str("."),
            FirstComponent::ParentDir => String::from_str(".."),
            FirstComponent::Normal(x) => x,
        };

        Some(volume)
    } else {
        None
    }
}

} // verus!
