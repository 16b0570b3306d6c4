//! The decisions of an installation.
//!
//! An [`Installer`] is a state machine. The caller performs each operation
//! that it asks for (a file check, a run of the disk-image tool, a listing,
//! a copy) and hands back what came of it. Once a disk image is mounted every
//! path out of the machine goes through an eject, so the image is never left
//! mounted by a failure; a failed eject is followed by a forced unmount, and
//! neither failing changes the outcome.
use vstd::prelude::*;
use vstd::string::*;
use crate::dispatch::{
    error_message, extension_of, file_format, lowered_extension, path_extension, expand_home,
    InstallError, InstallFormat,
};
use crate::mount::{mount_point_of, parse_mount_point};
use crate::text::{concat_strs, join_path, join_spec};

verus! {

/// A progress report of an installation; `progress` is a percentage.
pub struct InstallProgress {
    pub app_id: String,
    pub progress: u64,
    pub status: String,
}

/// The terminal report of an installation.
pub struct InstallComplete {
    pub app_id: String,
    pub success: bool,
    pub error: Option<String>,
}

/// Where an installation stands.
pub enum InstallStage {
    /// Waiting to learn whether the file exists.
    CheckingFile { path: String },
    /// Waiting for the disk-image tool to mount the file.
    Mounting { path: String },
    /// Waiting for the system installer to be started on the package.
    Launching { path: String },
    /// Waiting for the listing of the mounted volume.
    Locating { mount_point: String },
    /// Waiting to learn whether the applications directory exists.
    CheckingApplications { mount_point: String, bundle: String },
    /// Waiting to learn whether the bundle is installed already.
    CheckingDestination { mount_point: String, bundle: String, destination: String },
    /// Waiting for the earlier copy to be removed.
    Removing { mount_point: String, bundle: String, destination: String },
    /// Waiting for the copy.
    Copying { mount_point: String, bundle: String, destination: String },
    /// Waiting for the eject; the outcome is decided already.
    Ejecting { mount_point: String, outcome: Result<String, InstallError> },
    /// Waiting for the forced unmount after a failed eject.
    Unmounting { mount_point: String, outcome: Result<String, InstallError> },
    /// Finished.
    Over,
}

/// An operation for the caller to perform.
pub enum InstallOp {
    /// Report whether a file exists at the path (`Exists`).
    CheckFile(String),
    /// Mount the disk image with property-list output (`ToolRan` or `ToolError`).
    Mount(String),
    /// Open the package with the system's default handler (`ToolRan` or `ToolError`).
    Launch(String),
    /// List the names in the directory (`Listed` or `ListError`).
    ListVolume(String),
    /// Report whether the directory exists (`Exists`).
    CheckApplications(String),
    /// Report whether something exists at the path (`Exists`).
    CheckDestination(String),
    /// Remove the directory tree (`Done`).
    RemoveTree(String),
    /// Copy the directory tree, keeping symbolic links (`Done`).
    CopyTree { from: String, to: String },
    /// Eject the volume by force (`ToolRan` or `ToolError`).
    Eject(String),
    /// Unmount the volume by force (`ToolRan` or `ToolError`).
    ForceUnmount(String),
    /// Report the end and return the result.
    Finish { complete: InstallComplete, result: Result<String, InstallError> },
    /// Nothing to do.
    Nothing,
}

/// The reports to make, in order, and then the operation to perform.
pub struct InstallAction {
    pub reports: Vec<InstallProgress>,
    pub op: InstallOp,
}

/// What came of the last operation.
pub enum InstallEvent {
    Exists(bool),
    ToolRan { success: bool, stdout: String, stderr: String },
    ToolError(String),
    Listed(Vec<String>),
    ListError(String),
    Done(Result<(), String>),
}

/// The directory that applications are installed into.
pub open spec fn applications_dir() -> Seq<char> {
    "/Applications"@
}

/// The applications directory, where it exists.
pub fn get_applications_directory(exists: bool) -> (r: Result<String, String>)
    ensures
        exists ==> (r matches Ok(d) && d@ == applications_dir()),
        !exists ==> (r matches Err(e) && e@ == "Applications directory not found"@),
{
    if exists {
        Ok(String::from_str("/Applications"))
    } else {
        Err(String::from_str("Applications directory not found"))
    }
}

/// The status text of each progress milestone.
pub open spec fn milestone_status(percent: u64, bundle: Seq<char>) -> Seq<char> {
    if percent == 10 {
        "Starting installation..."@
    } else if percent == 20 {
        "Mounting DMG..."@
    } else if percent == 30 {
        "Running installer..."@
    } else if percent == 40 {
        "Finding app bundle..."@
    } else if percent == 60 {
        "Copying "@ + bundle + " to Applications..."@
    } else if percent == 80 {
        "Unmounting DMG..."@
    } else {
        "Installer launched - follow the prompts"@
    }
}

/// The reports are the milestones `percents`, in order, for `app_id`.
pub open spec fn reports_are(
    reports: Seq<InstallProgress>,
    app_id: Seq<char>,
    percents: Seq<u64>,
    bundle: Seq<char>,
) -> bool {
    &&& reports.len() == percents.len()
    &&& forall|i: int|
        0 <= i < reports.len() ==> {
            &&& (#[trigger] reports[i]).app_id@ == app_id
            &&& reports[i].progress == percents[i]
            &&& reports[i].status@ == milestone_status(percents[i], bundle)
        }
}

/// The terminal report agrees with the result.
pub open spec fn reports_outcome(
    c: InstallComplete,
    app_id: Seq<char>,
    result: Result<String, InstallError>,
) -> bool {
    &&& c.app_id@ == app_id
    &&& c.success == result is Ok
    &&& match result {
        Ok(_) => c.error is None,
        Err(e) => (c.error matches Some(m) && m@ == error_message(e)),
    }
}

/// The action finishes with `result` and no other report.
pub open spec fn finishes(a: InstallAction, app_id: Seq<char>, result: Result<String, InstallError>) -> bool {
    &&& a.reports@.len() == 0
    &&& a.op matches InstallOp::Finish { complete, result: r }
    &&& r == result
    &&& reports_outcome(complete, app_id, result)
}

/// The action reports the start of the unmount and ejects `mount_point`.
pub open spec fn ejects(a: InstallAction, app_id: Seq<char>, mount_point: String) -> bool {
    &&& reports_are(a.reports@, app_id, seq![80u64], Seq::empty())
    &&& a.op == InstallOp::Eject(mount_point)
}

/// The next stage is the eject of `mount_point` with `outcome` decided.
pub open spec fn to_eject(t: InstallStage, mount_point: String, outcome: Result<String, InstallError>) -> bool {
    t == InstallStage::Ejecting { mount_point, outcome }
}

/// The index of the first name whose extension is `app`.
pub open spec fn bundle_index(names: Seq<String>) -> Option<int> {
    if exists|i: int| 0 <= i < names.len() && extension_of((#[trigger] names[i])@) == Some("app"@) {
        Some(
            choose|i: int|
                0 <= i < names.len() && extension_of((#[trigger] names[i])@) == Some("app"@)
                    && forall|j: int|
                    0 <= j < i ==> extension_of((#[trigger] names[j])@) != Some("app"@),
        )
    } else {
        None
    }
}

pub open spec fn install_success_message(bundle: Seq<char>) -> Seq<char> {
    "Successfully installed "@ + bundle + " to Applications"@
}

/// The stages at which a disk image is mounted and not yet being ejected.
pub open spec fn is_mounted(s: InstallStage) -> bool {
    s is Locating || s is CheckingApplications || s is CheckingDestination || s is Removing
        || s is Copying
}

/// One step of the machine for `app_id`: from stage `s`, on event `e`, to
/// stage `t`, with action `a`.
pub open spec fn transition(
    app_id: Seq<char>,
    s: InstallStage,
    e: InstallEvent,
    t: InstallStage,
    a: InstallAction,
) -> bool {
    match (s, e) {
        (InstallStage::CheckingFile { path }, InstallEvent::Exists(found)) => if !found {
            &&& t is Over
            &&& finishes(a, app_id, Err(InstallError::FileNotFound(path)))
        } else {
            let ext = lowered_extension(path@);
            if ext == "dmg"@ {
                &&& t == InstallStage::Mounting { path }
                &&& reports_are(a.reports@, app_id, seq![10u64, 20u64], Seq::empty())
                &&& a.op == InstallOp::Mount(path)
            } else if ext == "pkg"@ {
                &&& t == InstallStage::Launching { path }
                &&& reports_are(a.reports@, app_id, seq![10u64, 30u64], Seq::empty())
                &&& a.op == InstallOp::Launch(path)
            } else {
                &&& t is Over
                &&& reports_are(a.reports@, app_id, seq![10u64], Seq::empty())
                &&& a.op matches InstallOp::Finish { complete, result }
                &&& result matches Err(InstallError::UnsupportedFormat(x))
                &&& x@ == ext
                &&& reports_outcome(complete, app_id, result)
            }
        },
        (InstallStage::Mounting { path }, InstallEvent::ToolRan { success, stdout, stderr }) => {
            &&& !success ==> t is Over && finishes(a, app_id, Err(InstallError::MountFailed(stderr)))
            &&& success ==> match mount_point_of(stdout@) {
                None => t is Over && finishes(a, app_id, Err(InstallError::MountPointNotFound)),
                Some(m) => {
                    &&& t matches InstallStage::Locating { mount_point }
                    &&& mount_point@ == m
                    &&& reports_are(a.reports@, app_id, seq![40u64], Seq::empty())
                    &&& a.op == InstallOp::ListVolume(mount_point)
                },
            }
        },
        (InstallStage::Mounting { path }, InstallEvent::ToolError(d)) => {
            &&& t is Over
            &&& finishes(a, app_id, Err(InstallError::MountFailed(d)))
        },
        (InstallStage::Launching { path }, InstallEvent::ToolRan { success, stdout, stderr }) => {
            &&& t is Over
            &&& !success ==> finishes(a, app_id, Err(InstallError::LaunchFailed(stderr)))
            &&& success ==> {
                &&& reports_are(a.reports@, app_id, seq![100u64], Seq::empty())
                &&& a.op matches InstallOp::Finish { complete, result }
                &&& result matches Ok(m)
                &&& m@ == "PKG installer opened for: "@ + app_id
                &&& reports_outcome(complete, app_id, result)
            }
        },
        (InstallStage::Launching { path }, InstallEvent::ToolError(d)) => {
            &&& t is Over
            &&& finishes(a, app_id, Err(InstallError::LaunchError(d)))
        },
        (InstallStage::Locating { mount_point }, InstallEvent::Listed(names)) => match bundle_index(names@) {
            None => {
                &&& to_eject(t, mount_point, Err(InstallError::NoBundleFound))
                &&& ejects(a, app_id, mount_point)
            },
            Some(i) => {
                &&& t == InstallStage::CheckingApplications { mount_point, bundle: names@[i] }
                &&& reports_are(a.reports@, app_id, seq![60u64], names@[i]@)
                &&& a.op matches InstallOp::CheckApplications(d)
                &&& d@ == applications_dir()
            },
        },
        (InstallStage::Locating { mount_point }, InstallEvent::ListError(d)) => {
            &&& to_eject(t, mount_point, Err(InstallError::ReadFailed(d)))
            &&& ejects(a, app_id, mount_point)
        },
        (InstallStage::CheckingApplications { mount_point, bundle }, InstallEvent::Exists(found)) => if found {
            &&& t matches InstallStage::CheckingDestination { mount_point: mp, bundle: b, destination }
            &&& mp == mount_point
            &&& b == bundle
            &&& destination@ == join_spec(applications_dir(), bundle@)
            &&& a.reports@.len() == 0
            &&& a.op == InstallOp::CheckDestination(destination)
        } else {
            &&& to_eject(t, mount_point, Err(InstallError::ApplicationsMissing))
            &&& ejects(a, app_id, mount_point)
        },
        (InstallStage::CheckingDestination { mount_point, bundle, destination }, InstallEvent::Exists(found)) => {
            &&& a.reports@.len() == 0
            &&& found ==> {
                &&& t == InstallStage::Removing { mount_point, bundle, destination }
                &&& a.op == InstallOp::RemoveTree(destination)
            }
            &&& !found ==> {
                &&& t == InstallStage::Copying { mount_point, bundle, destination }
                &&& a.op matches InstallOp::CopyTree { from, to }
                &&& from@ == join_spec(mount_point@, bundle@)
                &&& to == destination
            }
        },
        (InstallStage::Removing { mount_point, bundle, destination }, InstallEvent::Done(done)) => match done {
            Ok(_) => {
                &&& t == InstallStage::Copying { mount_point, bundle, destination }
                &&& a.reports@.len() == 0
                &&& a.op matches InstallOp::CopyTree { from, to }
                &&& from@ == join_spec(mount_point@, bundle@)
                &&& to == destination
            },
            Err(d) => {
                &&& to_eject(t, mount_point, Err(InstallError::RemoveFailed(d)))
                &&& ejects(a, app_id, mount_point)
            },
        },
        (InstallStage::Copying { mount_point, bundle, destination }, InstallEvent::Done(done)) => {
            &&& ejects(a, app_id, mount_point)
            &&& match done {
                Ok(_) => {
                    &&& t matches InstallStage::Ejecting { mount_point: mp, outcome: Ok(m) }
                    &&& mp == mount_point
                    &&& m@ == install_success_message(bundle@)
                },
                Err(d) => to_eject(t, mount_point, Err(InstallError::CopyFailed(d))),
            }
        },
        (InstallStage::Ejecting { mount_point, outcome }, InstallEvent::ToolRan { success, stdout, stderr }) => if success {
            t is Over && finishes(a, app_id, outcome)
        } else {
            &&& t == InstallStage::Unmounting { mount_point, outcome }
            &&& a.reports@.len() == 0
            &&& a.op == InstallOp::ForceUnmount(mount_point)
        },
        (InstallStage::Ejecting { mount_point, outcome }, InstallEvent::ToolError(_)) => {
            &&& t == InstallStage::Unmounting { mount_point, outcome }
            &&& a.reports@.len() == 0
            &&& a.op == InstallOp::ForceUnmount(mount_point)
        },
        (InstallStage::Unmounting { mount_point, outcome }, InstallEvent::ToolRan { .. }) => {
            t is Over && finishes(a, app_id, outcome)
        },
        (InstallStage::Unmounting { mount_point, outcome }, InstallEvent::ToolError(_)) => {
            t is Over && finishes(a, app_id, outcome)
        },
        // An event that does not answer the pending operation changes nothing.
        _ => {
            &&& t == s
            &&& a.reports@.len() == 0
            &&& a.op is Nothing
        },
    }
}

fn milestone(app_id: &String, percent: u64, bundle: &String) -> (r: InstallProgress)
    requires
        percent == 10 || percent == 20 || percent == 30 || percent == 40 || percent == 60
            || percent == 80 || percent == 100,
    ensures
        r.app_id@ == app_id@,
        r.progress == percent,
        r.status@ == milestone_status(percent, bundle@),
{
    proof {
        reveal_strlit("Starting installation...");
        reveal_strlit("Mounting DMG...");
        reveal_strlit("Running installer...");
        reveal_strlit("Finding app bundle...");
        reveal_strlit("Copying ");
        reveal_strlit(" to Applications...");
        reveal_strlit("Unmounting DMG...");
        reveal_strlit("Installer launched - follow the prompts");
    }
    let status = if percent == 10 {
        String::from_str("Starting installation...")
    } else if percent == 20 {
        String::from_str("Mounting DMG...")
    } else if percent == 30 {
        String::from_str("Running installer...")
    } else if percent == 40 {
        String::from_str("Finding app bundle...")
    } else if percent == 60 {
        concat_strs("Copying ", bundle.as_str()).concat(" to Applications...")
    } else if percent == 80 {
        String::from_str("Unmounting DMG...")
    } else {
        String::from_str("Installer launched - follow the prompts")
    };
    InstallProgress { app_id: app_id.clone(), progress: percent, status }
}

fn one_report(app_id: &String, percent: u64, bundle: &String) -> (r: Vec<InstallProgress>)
    requires
        percent == 10 || percent == 30 || percent == 40 || percent == 60 || percent == 80
            || percent == 100,
    ensures
        reports_are(r@, app_id@, seq![percent], bundle@),
{
    let mut v: Vec<InstallProgress> = Vec::new();
    v.push(milestone(app_id, percent, bundle));
    v
}

fn two_reports(app_id: &String, first: u64, second: u64) -> (r: Vec<InstallProgress>)
    requires
        first == 10,
        second == 20 || second == 30,
    ensures
        reports_are(r@, app_id@, seq![first, second], Seq::empty()),
{
    let none = String::new();
    let mut v: Vec<InstallProgress> = Vec::new();
    v.push(milestone(app_id, first, &none));
    v.push(milestone(app_id, second, &none));
    v
}

fn finish_with(app_id: &String, result: Result<String, InstallError>) -> (r: InstallAction)
    ensures
        finishes(r, app_id@, result),
{
    let complete = complete_of(app_id, &result);
    InstallAction { reports: Vec::new(), op: InstallOp::Finish { complete, result } }
}

fn complete_of(app_id: &String, result: &Result<String, InstallError>) -> (r: InstallComplete)
    ensures
        reports_outcome(r, app_id@, *result),
{
    match result {
        Ok(_) => InstallComplete { app_id: app_id.clone(), success: true, error: None },
        Err(e) => InstallComplete { app_id: app_id.clone(), success: false, error: Some(e.message()) },
    }
}

fn eject(app_id: &String, mount_point: String) -> (r: InstallAction)
    ensures
        ejects(r, app_id@, mount_point),
{
    let none = String::new();
    InstallAction { reports: one_report(app_id, 80, &none), op: InstallOp::Eject(mount_point) }
}

/// The index of the first name whose extension is `app`.
pub fn find_bundle(names: &Vec<String>) -> (r: Option<usize>)
    ensures
        r matches Some(i) ==> bundle_index(names@) == Some(i as int) && i < names.len(),
        r is None ==> bundle_index(names@) is None,
{
    proof {
        reveal_strlit("app");
    }
    let app = String::from_str("app");
    let mut i: usize = 0;
    while i < names.len()
        invariant
            i <= names.len(),
            app@ == "app"@,
            forall|j: int| 0 <= j < i ==> extension_of((#[trigger] names@[j])@) != Some("app"@),
        decreases names.len() - i,
    {
        let is_app = match path_extension(names[i].as_str()) {
            Some(e) => e.eq(&app),
            None => false,
        };
        if is_app {
            proof {
                let c = choose|c: int|
                    0 <= c < names@.len() && extension_of((#[trigger] names@[c])@) == Some("app"@)
                        && forall|j: int|
                        0 <= j < c ==> extension_of((#[trigger] names@[j])@) != Some("app"@);
                if c < i {
                } else if c > i {
                    assert(extension_of(names@[i as int]@) != Some("app"@));
                }
            }
            return Some(i);
        }
        i += 1;
    }
    None
}

/// One installation of `app_id`.
pub struct Installer {
    app_id: String,
    stage: InstallStage,
}

impl Installer {
    pub closed spec fn app_id(&self) -> Seq<char> {
        self.app_id@
    }

    pub closed spec fn stage(&self) -> InstallStage {
        self.stage
    }

    /// Starts the installation of the file at `file_path`; a leading `~`
    /// stands for the home directory, which `home` gives. The first action
    /// checks that the file exists.
    pub fn new(app_id: &String, file_path: &String, home: &Result<String, String>) -> (r: (
        Installer,
        InstallAction,
    ))
        ensures
            r.0.app_id() == app_id@,
            !(file_path@.len() > 0 && file_path@[0] == '~') ==> {
                &&& r.0.stage() matches InstallStage::CheckingFile { path }
                &&& path@ == file_path@
                &&& r.1.reports@.len() == 0
                &&& r.1.op == InstallOp::CheckFile(path)
            },
            file_path@.len() > 0 && file_path@[0] == '~' ==> match home {
                Ok(h) => {
                    &&& r.0.stage() matches InstallStage::CheckingFile { path }
                    &&& path@ == h@ + file_path@.skip(1)
                    &&& r.1.reports@.len() == 0
                    &&& r.1.op == InstallOp::CheckFile(path)
                },
                Err(e) => {
                    &&& r.0.stage() is Over
                    &&& r.1.op matches InstallOp::Finish { complete, result }
                    &&& result matches Err(InstallError::HomeUnknown(d))
                    &&& d@ == e@
                    &&& reports_outcome(complete, app_id@, result)
                    &&& r.1.reports@.len() == 0
                },
            },
    {
        match expand_home(file_path, home) {
            Ok(path) => {
                let op = InstallOp::CheckFile(path.clone());
                (
                    Installer { app_id: app_id.clone(), stage: InstallStage::CheckingFile { path } },
                    InstallAction { reports: Vec::new(), op },
                )
            },
            Err(e) => (
                Installer { app_id: app_id.clone(), stage: InstallStage::Over },
                finish_with(app_id, Err(e)),
            ),
        }
    }

    /// Takes the outcome of the pending operation and decides the next one.
    pub fn step(&mut self, event: InstallEvent) -> (r: InstallAction)
        ensures
            final(self).app_id() == old(self).app_id(),
            transition(old(self).app_id(), old(self).stage(), event, final(self).stage(), r),
    {
        let mut stage = InstallStage::Over;
        std::mem::swap(&mut stage, &mut self.stage);
        let id = &self.app_id;
        let none = String::new();
        match (stage, event) {
            (InstallStage::CheckingFile { path }, InstallEvent::Exists(found)) => {
                if !found {
                    return finish_with(id, Err(InstallError::FileNotFound(path)));
                }
                match file_format(path.as_str()) {
                    InstallFormat::DiskImage => {
                        self.stage = InstallStage::Mounting { path: path.clone() };
                        InstallAction { reports: two_reports(id, 10, 20), op: InstallOp::Mount(path) }
                    },
                    InstallFormat::Package => {
                        self.stage = InstallStage::Launching { path: path.clone() };
                        InstallAction { reports: two_reports(id, 10, 30), op: InstallOp::Launch(path) }
                    },
                    InstallFormat::Unsupported(x) => {
                        let result = Err(InstallError::UnsupportedFormat(x));
                        let complete = complete_of(id, &result);
                        InstallAction {
                            reports: one_report(id, 10, &none),
                            op: InstallOp::Finish { complete, result },
                        }
                    },
                }
            },
            (InstallStage::Mounting { path }, InstallEvent::ToolRan { success, stdout, stderr }) => {
                if !success {
                    return finish_with(id, Err(InstallError::MountFailed(stderr)));
                }
                match parse_mount_point(stdout.as_str()) {
                    None => finish_with(id, Err(InstallError::MountPointNotFound)),
                    Some(mount_point) => {
                        self.stage = InstallStage::Locating { mount_point: mount_point.clone() };
                        InstallAction {
                            reports: one_report(id, 40, &none),
                            op: InstallOp::ListVolume(mount_point),
                        }
                    },
                }
            },
            (InstallStage::Mounting { path }, InstallEvent::ToolError(d)) => {
                finish_with(id, Err(InstallError::MountFailed(d)))
            },
            (InstallStage::Launching { path }, InstallEvent::ToolRan { success, stdout, stderr }) => {
                if !success {
                    return finish_with(id, Err(InstallError::LaunchFailed(stderr)));
                }
                proof {
                    reveal_strlit("PKG installer opened for: ");
                }
                let result = Ok(concat_strs("PKG installer opened for: ", id.as_str()));
                let complete = complete_of(id, &result);
                InstallAction {
                    reports: one_report(id, 100, &none),
                    op: InstallOp::Finish { complete, result },
                }
            },
            (InstallStage::Launching { path }, InstallEvent::ToolError(d)) => {
                finish_with(id, Err(InstallError::LaunchError(d)))
            },
            (InstallStage::Locating { mount_point }, InstallEvent::Listed(names)) => {
                match find_bundle(&names) {
                    None => {
                        self.stage = InstallStage::Ejecting {
                            mount_point: mount_point.clone(),
                            outcome: Err(InstallError::NoBundleFound),
                        };
                        eject(id, mount_point)
                    },
                    Some(i) => {
                        let bundle = names[i].clone();
                        let reports = one_report(id, 60, &bundle);
                        self.stage = InstallStage::CheckingApplications { mount_point, bundle };
                        InstallAction {
                            reports,
                            op: InstallOp::CheckApplications(String::from_str("/Applications")),
                        }
                    },
                }
            },
            (InstallStage::Locating { mount_point }, InstallEvent::ListError(d)) => {
                self.stage = InstallStage::Ejecting {
                    mount_point: mount_point.clone(),
                    outcome: Err(InstallError::ReadFailed(d)),
                };
                eject(id, mount_point)
            },
            (InstallStage::CheckingApplications { mount_point, bundle }, InstallEvent::Exists(found)) => {
                match get_applications_directory(found) {
                    Ok(dir) => {
                        let destination = join_path(dir.as_str(), bundle.as_str());
                        let op = InstallOp::CheckDestination(destination.clone());
                        self.stage = InstallStage::CheckingDestination { mount_point, bundle, destination };
                        InstallAction { reports: Vec::new(), op }
                    },
                    Err(_) => {
                        self.stage = InstallStage::Ejecting {
                            mount_point: mount_point.clone(),
                            outcome: Err(InstallError::ApplicationsMissing),
                        };
                        eject(id, mount_point)
                    },
                }
            },
            (
                InstallStage::CheckingDestination { mount_point, bundle, destination },
                InstallEvent::Exists(found),
            ) => {
                if found {
                    let op = InstallOp::RemoveTree(destination.clone());
                    self.stage = InstallStage::Removing { mount_point, bundle, destination };
                    InstallAction { reports: Vec::new(), op }
                } else {
                    let from = join_path(mount_point.as_str(), bundle.as_str());
                    let op = InstallOp::CopyTree { from, to: destination.clone() };
                    self.stage = InstallStage::Copying { mount_point, bundle, destination };
                    InstallAction { reports: Vec::new(), op }
                }
            },
            (InstallStage::Removing { mount_point, bundle, destination }, InstallEvent::Done(done)) => {
                match done {
                    Ok(_) => {
                        let from = join_path(mount_point.as_str(), bundle.as_str());
                        let op = InstallOp::CopyTree { from, to: destination.clone() };
                        self.stage = InstallStage::Copying { mount_point, bundle, destination };
                        InstallAction { reports: Vec::new(), op }
                    },
                    Err(d) => {
                        self.stage = InstallStage::Ejecting {
                            mount_point: mount_point.clone(),
                            outcome: Err(InstallError::RemoveFailed(d)),
                        };
                        eject(id, mount_point)
                    },
                }
            },
            (InstallStage::Copying { mount_point, bundle, destination }, InstallEvent::Done(done)) => {
                let outcome = match done {
                    Ok(_) => {
                        proof {
                            reveal_strlit("Successfully installed ");
                            reveal_strlit(" to Applications");
                        }
                        Ok(concat_strs("Successfully installed ", bundle.as_str()).concat(" to Applications"))
                    },
                    Err(d) => Err(InstallError::CopyFailed(d)),
                };
                self.stage = InstallStage::Ejecting { mount_point: mount_point.clone(), outcome };
                eject(id, mount_point)
            },
            (InstallStage::Ejecting { mount_point, outcome }, InstallEvent::ToolRan { success, stdout, stderr }) => {
                if success {
                    finish_with(id, outcome)
                } else {
                    let op = InstallOp::ForceUnmount(mount_point.clone());
                    self.stage = InstallStage::Unmounting { mount_point, outcome };
                    InstallAction { reports: Vec::new(), op }
                }
            },
            (InstallStage::Ejecting { mount_point, outcome }, InstallEvent::ToolError(_)) => {
                let op = InstallOp::ForceUnmount(mount_point.clone());
                self.stage = InstallStage::Unmounting { mount_point, outcome };
                InstallAction { reports: Vec::new(), op }
            },
            (InstallStage::Unmounting { mount_point, outcome }, InstallEvent::ToolRan { .. }) => {
                finish_with(id, outcome)
            },
            (InstallStage::Unmounting { mount_point, outcome }, InstallEvent::ToolError(_)) => {
                finish_with(id, outcome)
            },
            (other, _) => {
                self.stage = other;
                InstallAction { reports: Vec::new(), op: InstallOp::Nothing }
            },
        }
    }
}

/// Once a disk image is mounted, no step finishes the installation: each
/// either keeps the image mounted for the next operation or moves on to
/// ejecting it, whatever failed.
pub proof fn lemma_mounted_exits_through_eject(
    app_id: Seq<char>,
    s: InstallStage,
    e: InstallEvent,
    t: InstallStage,
    a: InstallAction,
)
    requires
        transition(app_id, s, e, t, a),
        is_mounted(s),
    ensures
        !(a.op is Finish),
        is_mounted(t) || t is Ejecting,
        t is Ejecting ==> (a.op matches InstallOp::Eject(m) && t->Ejecting_mount_point == m),
{
}

/// The outcome decided before the eject is the one returned, whether the
/// eject, or the forced unmount after it, succeeds or not.
pub proof fn lemma_unmount_failure_keeps_outcome(
    app_id: Seq<char>,
    s: InstallStage,
    e: InstallEvent,
    t: InstallStage,
    a: InstallAction,
)
    requires
        transition(app_id, s, e, t, a),
        s is Ejecting || s is Unmounting,
        a.op is Finish,
    ensures
        s is Ejecting ==> a.op->Finish_result == s->Ejecting_outcome,
        s is Unmounting ==> a.op->Finish_result == s->Unmounting_outcome,
{
}

} // verus!
