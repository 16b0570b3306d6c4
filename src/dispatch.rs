//! Choosing how a downloaded file is installed, and the error kinds of an
//! installation.
use vstd::prelude::*;
use vstd::string::*;
use crate::text::concat_strs;

verus! {

/// Names what `std::path::Path::extension` gives for a path.
pub uninterp spec fn extension_of(p: Seq<char>) -> Option<Seq<char>>;

/// Names what `str::to_lowercase` gives for a string.
pub uninterp spec fn lower_of(s: Seq<char>) -> Seq<char>;

/// Relies on `std::path::Path::extension`: the text after the last dot of the
/// file name, if the name has one that does not start it. The result depends
/// on the path alone.
#[verifier::external_body]
pub(crate) fn path_extension(p: &str) -> (r: Option<String>)
    ensures
        r matches Some(e) ==> extension_of(p@) == Some(e@),
        r is None ==> extension_of(p@) is None,
{
    std::path::Path::new(p).extension().and_then(|e| e.to_str()).map(|e| e.to_string())
}

/// Relies on `str::to_lowercase`: the lowercase mapping of each character,
/// which depends on the characters alone; the empty string stays empty.
#[verifier::external_body]
pub(crate) fn lowercase(s: &str) -> (r: String)
    ensures
        r@ == lower_of(s@),
        s@.len() == 0 ==> r@.len() == 0,
{
    s.to_lowercase()
}

/// How a file is installed.
pub enum InstallFormat {
    /// A disk image, mounted and searched for an application bundle.
    DiskImage,
    /// A package, handed to the system installer.
    Package,
    /// Neither; the (lowercased) extension is kept for the message.
    Unsupported(String),
}

/// Why an installation failed.
pub enum InstallError {
    /// The home directory was needed and could not be read.
    HomeUnknown(String),
    /// No file at the given path.
    FileNotFound(String),
    /// The extension names no supported format.
    UnsupportedFormat(String),
    /// The mount tool failed; what it printed on its error stream.
    MountFailed(String),
    /// The mount tool's output named no mount point.
    MountPointNotFound,
    /// The mounted volume could not be listed.
    ReadFailed(String),
    /// The volume holds no application bundle.
    NoBundleFound,
    /// There is no applications directory.
    ApplicationsMissing,
    /// An earlier copy of the bundle could not be removed.
    RemoveFailed(String),
    /// The bundle could not be copied.
    CopyFailed(String),
    /// The package installer could not be started.
    LaunchError(String),
    /// The package installer reported a failure; what it printed on its error stream.
    LaunchFailed(String),
}

/// The format that a lowercased extension names.
pub fn install_format(ext: &str) -> (r: InstallFormat)
    ensures
        ext@ == "dmg"@ ==> r is DiskImage,
        ext@ == "pkg"@ ==> r is Package,
        ext@ != "dmg"@ && ext@ != "pkg"@ ==> (r matches InstallFormat::Unsupported(e) && e@ == ext@),
{
    let e = String::from_str(ext);
    proof {
        reveal_strlit("dmg");
        reveal_strlit("pkg");
        assert("dmg"@[0] != "pkg"@[0]);
    }
    if e.eq(&String::from_str("dmg")) {
        InstallFormat::DiskImage
    } else if e.eq(&String::from_str("pkg")) {
        InstallFormat::Package
    } else {
        InstallFormat::Unsupported(e)
    }
}

/// The extension of `path`, lowercased; empty where it has none.
pub open spec fn lowered_extension(path: Seq<char>) -> Seq<char> {
    match extension_of(path) {
        Some(e) => lower_of(e),
        None => lower_of(Seq::empty()),
    }
}

/// The format of the file at `path`, by its lowercased extension.
pub fn file_format(path: &str) -> (r: InstallFormat)
    ensures
        lowered_extension(path@) == "dmg"@ ==> r is DiskImage,
        lowered_extension(path@) == "pkg"@ ==> r is Package,
        lowered_extension(path@) != "dmg"@ && lowered_extension(path@) != "pkg"@
            ==> (r matches InstallFormat::Unsupported(e) && e@ == lowered_extension(path@)),
{
    let ext = match path_extension(path) {
        Some(e) => e,
        None => String::new(),
    };
    let lowered = lowercase(ext.as_str());
    install_format(lowered.as_str())
}

pub open spec fn error_message(e: InstallError) -> Seq<char> {
    match e {
        InstallError::HomeUnknown(d) => "Failed to get HOME: "@ + d@,
        InstallError::FileNotFound(p) => "File not found: "@ + p@
            + ". Make sure the file was downloaded successfully."@,
        InstallError::UnsupportedFormat(x) => "Unsupported file format: "@ + x@,
        InstallError::MountFailed(d) => "Failed to mount DMG: "@ + d@,
        InstallError::MountPointNotFound => "Failed to determine mount point"@,
        InstallError::ReadFailed(d) => "Failed to read DMG contents: "@ + d@,
        InstallError::NoBundleFound => "No .app bundle found in DMG"@,
        InstallError::ApplicationsMissing => "Applications directory not found"@,
        InstallError::RemoveFailed(d) => "Failed to remove existing app: "@ + d@,
        InstallError::CopyFailed(d) => "Failed to copy app: "@ + d@,
        InstallError::LaunchError(d) => "Failed to open PKG installer: "@ + d@,
        InstallError::LaunchFailed(d) => "Failed to install PKG: "@ + d@,
    }
}

impl InstallError {
    /// The message shown to the user.
    pub fn message(&self) -> (r: String)
        ensures
            r@ == error_message(*self),
    {
        proof {
            reveal_strlit("Failed to get HOME: ");
            reveal_strlit("File not found: ");
            reveal_strlit(". Make sure the file was downloaded successfully.");
            reveal_strlit("Unsupported file format: ");
            reveal_strlit("Failed to mount DMG: ");
            reveal_strlit("Failed to determine mount point");
            reveal_strlit("Failed to read DMG contents: ");
            reveal_strlit("No .app bundle found in DMG");
            reveal_strlit("Applications directory not found");
            reveal_strlit("Failed to remove existing app: ");
            reveal_strlit("Failed to copy app: ");
            reveal_strlit("Failed to open PKG installer: ");
            reveal_strlit("Failed to install PKG: ");
        }
        match self {
            InstallError::HomeUnknown(d) => concat_strs("Failed to get HOME: ", d.as_str()),
            InstallError::FileNotFound(p) => concat_strs("File not found: ", p.as_str()).concat(
                ". Make sure the file was downloaded successfully.",
            ),
            InstallError::UnsupportedFormat(x) => concat_strs("Unsupported file format: ", x.as_str()),
            InstallError::MountFailed(d) => concat_strs("Failed to mount DMG: ", d.as_str()),
            InstallError::MountPointNotFound => String::from_str("Failed to determine mount point"),
            InstallError::ReadFailed(d) => concat_strs("Failed to read DMG contents: ", d.as_str()),
            InstallError::NoBundleFound => String::from_str("No .app bundle found in DMG"),
            InstallError::ApplicationsMissing => String::from_str("Applications directory not found"),
            InstallError::RemoveFailed(d) => concat_strs("Failed to remove existing app: ", d.as_str()),
            InstallError::CopyFailed(d) => concat_strs("Failed to copy app: ", d.as_str()),
            InstallError::LaunchError(d) => concat_strs("Failed to open PKG installer: ", d.as_str()),
            InstallError::LaunchFailed(d) => concat_strs("Failed to install PKG: ", d.as_str()),
        }
    }
}

/// `path` with a leading `~` replaced by the home directory. `home` is what
/// reading the home directory gave; it is needed only for such a path.
pub fn expand_home(path: &String, home: &Result<String, String>) -> (r: Result<String, InstallError>)
    ensures
        !(path@.len() > 0 && path@[0] == '~') ==> (r matches Ok(p) && p@ == path@),
        path@.len() > 0 && path@[0] == '~' ==> match home {
            Ok(h) => (r matches Ok(p) && p@ == h@ + path@.skip(1)),
            Err(e) => (r matches Err(InstallError::HomeUnknown(d)) && d@ == e@),
        },
{
    let s = path.as_str();
    let n = s.unicode_len();
    if n > 0 && s.get_char(0) == '~' {
        match home {
            Ok(h) => {
                let rest = s.substring_char(1, n);
                assert(rest@ =~= path@.skip(1));
                Ok(concat_strs(h.as_str(), rest))
            },
            Err(e) => Err(InstallError::HomeUnknown(e.clone())),
        }
    } else {
        Ok(path.clone())
    }
}

} // verus!
