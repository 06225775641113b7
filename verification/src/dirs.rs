//! Where the application keeps its data by default.
//!
//! Desktop platforms have a conventional place for the data of each
//! application. Other platforms have none: there the user of the library has
//! to name a directory, and asking for the default is a configuration error.

use crate::error::{Error, IoErrorKind, R};
use directories::ProjectDirs;
use vstd::prelude::*;

verus! {

/// `directories::ProjectDirs`, the directories that a platform sets aside for
/// one application. The library hands such a value on and never looks inside
/// it, so nothing is claimed of it.
#[verifier::external_type_specification]
#[verifier::external_body]
pub struct ExProjectDirs(directories::ProjectDirs);

/// `directories::ProjectDirs::from` looks up the directories of the
/// application with the given names. Whether it finds any depends on the
/// user's environment, so nothing is claimed of what it returns.
pub assume_specification[ directories::ProjectDirs::from ](
    qualifier: &str,
    organization: &str,
    application: &str,
) -> (found: Option<ProjectDirs>)
;

/// The first part of the application's reverse domain name.
pub const QUALIFIER: &'static str = "net";

/// The organization that the application belongs to.
pub const ORGANIZATION: &'static str = "MaidSafe";

/// The application's name.
pub const APPLICATION: &'static str = "quic-p2p";

/// What the caller is told where there is no default directory.
pub const NO_DEFAULT_DIR: &'static str =
    "No default project dir on non-desktop platforms. User must provide an override path.";

/// The operating system of a build target, as far as it matters here.
#[derive(Clone, Copy, Debug, PartialEq, Eq, Structural)]
pub enum TargetOs {
    Android,
    AndroidEabi,
    Ios,
    Other,
}

/// What decides the class of a build target: whether it is of the Unix
/// family, whether it is of the Windows family, and its operating system.
#[derive(Clone, Copy, Debug, PartialEq, Eq, Structural)]
pub struct Target {
    pub unix: bool,
    pub windows: bool,
    pub os: TargetOs,
}

/// The two classes of platform. A build is for one of them, for good.
#[derive(Clone, Copy, Debug, PartialEq, Eq, Structural)]
pub enum Platform {
    /// A platform with a conventional per-application data directory.
    Desktop,
    /// A platform without one, such as a phone.
    NonDesktop,
}

/// The application's directories.
#[derive(Debug)]
pub enum Dirs {
    /// The directories that a desktop platform sets aside for the
    /// application.
    Desktop(ProjectDirs),
}

/// Whether a target is a desktop: every Windows target is, and every Unix
/// target but those for Android and iOS.
pub open spec fn is_desktop(target: Target) -> bool {
    ||| target.windows
    ||| target.unix && target.os is Other
}

impl Platform {
    /// The class of a build target.
    pub fn of(target: Target) -> (platform: Platform)
        ensures
            platform == if is_desktop(target) {
                Platform::Desktop
            } else {
                Platform::NonDesktop
            },
    {
        let mobile = match target.os {
            TargetOs::Android | TargetOs::AndroidEabi | TargetOs::Ios => true,
            TargetOs::Other => false,
        };
        if (target.unix && !mobile) || target.windows {
            Platform::Desktop
        } else {
            Platform::NonDesktop
        }
    }
}

/// What a desktop's answer to the lookup means for the caller.
pub open spec fn desktop_result(found: Option<ProjectDirs>) -> R<Dirs> {
    match found {
        Some(dirs) => Ok(Dirs::Desktop(dirs)),
        None => Err(Error::Io(IoErrorKind::NotFound)),
    }
}

/// Turns a desktop's answer to the lookup into the caller's result: the
/// directories that were found, or an I/O error that says that none were.
pub fn desktop_dir(found: Option<ProjectDirs>) -> (res: R<Dirs>)
    ensures
        res == desktop_result(found),
{
    match found {
        Some(dirs) => Ok(Dirs::Desktop(dirs)),
        None => Err(Error::from(IoErrorKind::NotFound)),
    }
}

/// The default directories of the application on a platform of the given
/// class.
///
/// On a desktop the platform is asked for the directories of the application
/// `APPLICATION` of `ORGANIZATION`; where it knows none, the result is an I/O
/// error of kind `NotFound`. Anywhere else the result is a configuration
/// error with the text `NO_DEFAULT_DIR`, whatever the file system holds.
pub fn project_dir(platform: Platform) -> (res: R<Dirs>)
    ensures
        platform is NonDesktop ==> (res matches Err(Error::Configuration(reason)) && reason@
            == NO_DEFAULT_DIR@),
        platform is Desktop ==> (res matches Ok(Dirs::Desktop(_)) || res == Err::<Dirs, Error>(
            Error::Io(IoErrorKind::NotFound),
        )),
{
    match platform {
        Platform::Desktop => desktop_dir(ProjectDirs::from(QUALIFIER, ORGANIZATION, APPLICATION)),
        Platform::NonDesktop => Err(Error::Configuration(NO_DEFAULT_DIR.to_owned())),
    }
}

} // verus!
