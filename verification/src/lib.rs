//! A Windows executable that permanently changes its own icon, and the battery
//! monitor of the Havit MS966WB mouse that uses it.
//!
//! The icon model is borrowed from iOS alternate icons: a closed set of icons,
//! declared at build time, switched by name at runtime. What is *not* borrowed is
//! where the icon lives: here it is the executable file itself, so the new icon is
//! what Explorer shows for the `.exe`, and it survives a reboot.
//!
//! This crate holds the parts that decide: parsing `.ico` files and building the
//! `RT_GROUP_ICON` directory ([`ico`]), the plan of a swap ([`swap`]), the names and
//! hashes the Win32 side needs ([`win`]), the build-time generation of the icon enum
//! ([`icon_set`]), and the battery query and tray rendering of the monitor
//! ([`battery`], [`battery_icon`]). The calls into Windows, the HID device and the
//! UI toolkit are made by the program around it.

use vstd::prelude::*;

pub mod battery;
pub mod battery_icon;
pub mod ico;
pub mod monitor;
pub mod icon_set;
pub mod stubs;
pub mod swap;
pub mod text;
pub mod win;

pub use stubs::{current_icon, init, set_icon};

use crate::text::{decimal, push_decimal};

verus! {

#[verifier::external_type_specification]
#[verifier::external_body]
pub struct ExPathBuf(std::path::PathBuf);

#[verifier::external_type_specification]
#[verifier::external_body]
pub struct ExPath(std::path::Path);

#[verifier::external_type_specification]
#[verifier::external_body]
pub struct ExIoError(std::io::Error);

/// One icon in the set. Implemented by the `AppIcon` enum that [`icon_set::generate`]
/// writes; there is no reason to implement it by hand.
pub trait Icon {
    /// The variant's name, stored in the binary so [`current_icon`] can report it.
    fn name(&self) -> &'static str;

    /// The raw `.ico` bytes, embedded at build time.
    fn bytes(&self) -> &'static [u8];
}

/// Everything that can go wrong during a swap.
#[derive(Debug)]
pub enum Error {
    /// Another process is mid-swap on this same executable.
    SwapInProgress,
    /// The directory holding the executable cannot be written to.
    ///
    /// The crate deliberately stops here rather than copying itself somewhere
    /// writable or prompting for elevation: a binary that clones itself around the
    /// disk to change a cosmetic detail is exactly the behaviour that gets it
    /// flagged, and a UAC prompt in the middle of an icon change is worse than the
    /// icon not changing.
    PathNotWritable(std::path::PathBuf),
    /// The `.ico` could not be parsed. Nothing was written.
    MalformedIcon(&'static str),
    /// A Win32 call failed, named along with its `GetLastError` code.
    Windows(&'static str, u32),
    /// A filesystem operation failed.
    Io(std::io::Error),
    /// The crate only does anything on Windows.
    UnsupportedPlatform,
}

impl From<std::io::Error> for Error {
    fn from(err: std::io::Error) -> (r: Self) {
        Error::Io(err)
    }
}

impl vstd::std_specs::convert::FromSpecImpl<std::io::Error> for Error {
    open spec fn obeys_from_spec() -> bool {
        true
    }

    open spec fn from_spec(err: std::io::Error) -> Error {
        Error::Io(err)
    }
}

/// The text of an error, for every kind whose text this crate writes itself; `None`
/// for the two that carry a path or an I/O error, whose text comes from std.
pub open spec fn error_text(e: Error) -> Option<Seq<char>> {
    match e {
        Error::SwapInProgress => Some(
            "another process is already changing this executable's icon"@,
        ),
        Error::MalformedIcon(why) => Some("malformed icon: "@ + why@),
        Error::Windows(call, code) => Some(call@ + " failed with error "@ + decimal(code as nat)),
        Error::UnsupportedPlatform => Some("alt-icons only works on Windows"@),
        _ => None,
    }
}

#[verifier::external_type_specification]
#[verifier::external_body]
pub struct ExPathDisplay<'a>(std::path::Display<'a>);

/// Calls `Path::display` on `path`. What it shows depends on how the platform
/// encodes paths; nothing is stated of it.
#[verifier::external_body]
fn path_display(path: &std::path::PathBuf) -> std::path::Display<'_> {
    path.display()
}

impl Error {
    /// The message the error is reported with.
    pub fn message(&self) -> (m: String)
        ensures
            error_text(*self) matches Some(text) ==> m@ == text,
            self matches Error::PathNotWritable(_) ==> m@.len() >= 16 && m@.subrange(0, 16)
                == "cannot write to "@,
            self matches Error::Io(err) ==> vstd::string::to_string_from_display_ensures::<
                std::io::Error,
            >(err, m),
    {
        match self {
            Error::SwapInProgress => String::from_str(
                "another process is already changing this executable's icon",
            ),
            Error::PathNotWritable(dir) => {
                proof {
                    reveal_strlit("cannot write to ");
                }
                let mut m = String::from_str("cannot write to ");
                let shown = path_display(dir).to_string();
                m.append(shown.as_str());
                assert(m@.subrange(0, 16) =~= "cannot write to "@);
                m
            },
            Error::MalformedIcon(why) => {
                let mut m = String::from_str("malformed icon: ");
                m.append(why);
                m
            },
            Error::Windows(call, code) => {
                let mut m = String::from_str(call);
                m.append(" failed with error ");
                push_decimal(&mut m, *code as u64);
                m
            },
            Error::Io(err) => err.to_string(),
            Error::UnsupportedPlatform => String::from_str("alt-icons only works on Windows"),
        }
    }
}

} // verus!
