use fossintosh::dispatch::{expand_home, file_format, install_format, InstallError, InstallFormat};
use fossintosh::install::{
    find_bundle, get_applications_directory, InstallAction, InstallEvent, InstallOp, Installer,
};

fn s(x: &str) -> String {
    x.to_string()
}

/// A pretend machine: which paths exist, what the tools do, what the volume holds.
struct World {
    files: Vec<String>,
    mount_ok: bool,
    mount_stdout: String,
    volume: Vec<String>,
    eject_ok: bool,
    unmount_ok: bool,
    copy_ok: bool,
    launch_ok: bool,
    ops: Vec<String>,
    reports: Vec<(u64, String)>,
}

impl World {
    fn new() -> World {
        World {
            files: vec![s("/Applications")],
            mount_ok: true,
            mount_stdout: s("<plist>\n<string>/Volumes/Foo</string>\n</plist>\n"),
            volume: vec![s("Foo.app"), s("Applications")],
            eject_ok: true,
            unmount_ok: true,
            copy_ok: true,
            launch_ok: true,
            ops: Vec::new(),
            reports: Vec::new(),
        }
    }

    fn ran(&self, ok: bool) -> InstallEvent {
        InstallEvent::ToolRan {
            success: ok,
            stdout: if ok { self.mount_stdout.clone() } else { String::new() },
            stderr: if ok { String::new() } else { s("tool failed") },
        }
    }

    /// Runs the installer to its end; returns the result.
    fn run(&mut self, app_id: &str, path: &str) -> Result<String, String> {
        let (mut inst, mut action) = Installer::new(&s(app_id), &s(path), &Ok(s("/Users/me")));
        loop {
            let InstallAction { reports, op } = action;
            for r in reports {
                assert_eq!(r.app_id, app_id);
                self.reports.push((r.progress, r.status));
            }
            let event = match op {
                InstallOp::CheckFile(p) => {
                    self.ops.push(format!("check {}", p));
                    InstallEvent::Exists(self.files.contains(&p))
                }
                InstallOp::Mount(p) => {
                    self.ops.push(format!("mount {}", p));
                    self.ran(self.mount_ok)
                }
                InstallOp::Launch(p) => {
                    self.ops.push(format!("open {}", p));
                    self.ran(self.launch_ok)
                }
                InstallOp::ListVolume(p) => {
                    self.ops.push(format!("list {}", p));
                    InstallEvent::Listed(self.volume.clone())
                }
                InstallOp::CheckApplications(p) | InstallOp::CheckDestination(p) => {
                    self.ops.push(format!("exists {}", p));
                    InstallEvent::Exists(self.files.contains(&p))
                }
                InstallOp::RemoveTree(p) => {
                    self.ops.push(format!("remove {}", p));
                    self.files.retain(|f| f != &p);
                    InstallEvent::Done(Ok(()))
                }
                InstallOp::CopyTree { from, to } => {
                    self.ops.push(format!("copy {} {}", from, to));
                    if self.copy_ok {
                        self.files.push(to);
                        InstallEvent::Done(Ok(()))
                    } else {
                        InstallEvent::Done(Err(s("disk full")))
                    }
                }
                InstallOp::Eject(p) => {
                    self.ops.push(format!("eject {}", p));
                    self.ran(self.eject_ok)
                }
                InstallOp::ForceUnmount(p) => {
                    self.ops.push(format!("unmount {}", p));
                    self.ran(self.unmount_ok)
                }
                InstallOp::Finish { complete, result } => {
                    assert_eq!(complete.app_id, app_id);
                    assert_eq!(complete.success, result.is_ok());
                    return match result {
                        Ok(m) => {
                            assert!(complete.error.is_none());
                            Ok(m)
                        }
                        Err(e) => {
                            let m = e.message();
                            assert_eq!(complete.error.as_deref(), Some(m.as_str()));
                            Err(m)
                        }
                    };
                }
                InstallOp::Nothing => panic!("the machine stalled"),
            };
            action = inst.step(event);
        }
    }
}

#[test]
fn disk_image_with_one_bundle_installs_and_reinstalls() {
    let mut w = World::new();
    w.files.push(s("installer.dmg"));
    let r = w.run("foo", "installer.dmg");
    assert_eq!(r, Ok(s("Successfully installed Foo.app to Applications")));
    assert!(w.files.contains(&s("/Applications/Foo.app")));
    assert_eq!(
        w.ops,
        vec![
            s("check installer.dmg"),
            s("mount installer.dmg"),
            s("list /Volumes/Foo"),
            s("exists /Applications"),
            s("exists /Applications/Foo.app"),
            s("copy /Volumes/Foo/Foo.app /Applications/Foo.app"),
            s("eject /Volumes/Foo"),
        ]
    );
    let percents: Vec<u64> = w.reports.iter().map(|r| r.0).collect();
    assert_eq!(percents, vec![10, 20, 40, 60, 80]);
    assert_eq!(w.reports[3].1, "Copying Foo.app to Applications...");

    // the same install again finds the earlier copy and removes it first
    w.ops.clear();
    let r = w.run("foo", "installer.dmg");
    assert_eq!(r, Ok(s("Successfully installed Foo.app to Applications")));
    assert_eq!(
        w.ops[4..],
        [
            s("exists /Applications/Foo.app"),
            s("remove /Applications/Foo.app"),
            s("copy /Volumes/Foo/Foo.app /Applications/Foo.app"),
            s("eject /Volumes/Foo"),
        ]
    );
    assert!(w.files.contains(&s("/Applications/Foo.app")));
}

#[test]
fn disk_image_without_bundle_is_still_ejected() {
    let mut w = World::new();
    w.files.push(s("empty.dmg"));
    w.volume = vec![s("README.txt"), s(".background")];
    let r = w.run("foo", "empty.dmg");
    assert_eq!(r, Err(s("No .app bundle found in DMG")));
    assert_eq!(w.ops.last(), Some(&s("eject /Volumes/Foo")));
    assert!(!w.ops.iter().any(|o| o.starts_with("copy")));
}

#[test]
fn zip_archive_is_unsupported_without_tool_calls() {
    let mut w = World::new();
    w.files.push(s("archive.zip"));
    let r = w.run("foo", "archive.zip");
    assert_eq!(r, Err(s("Unsupported file format: zip")));
    assert_eq!(w.ops, vec![s("check archive.zip")]);
    match file_format("archive.zip") {
        InstallFormat::Unsupported(x) => assert_eq!(x, "zip"),
        _ => panic!("zip must be unsupported"),
    }
}

#[test]
fn failed_eject_falls_back_to_unmount_and_still_succeeds() {
    let mut w = World::new();
    w.files.push(s("a.dmg"));
    w.eject_ok = false;
    w.unmount_ok = false;
    let r = w.run("foo", "a.dmg");
    assert_eq!(r, Ok(s("Successfully installed Foo.app to Applications")));
    assert_eq!(w.ops[w.ops.len() - 2..], [s("eject /Volumes/Foo"), s("unmount /Volumes/Foo")]);
}

#[test]
fn copy_failure_is_reported_after_the_eject() {
    let mut w = World::new();
    w.files.push(s("a.dmg"));
    w.copy_ok = false;
    let r = w.run("foo", "a.dmg");
    assert_eq!(r, Err(s("Failed to copy app: disk full")));
    assert_eq!(w.ops.last(), Some(&s("eject /Volumes/Foo")));
}

#[test]
fn mount_failure_and_missing_mount_point() {
    let mut w = World::new();
    w.files.push(s("a.dmg"));
    w.mount_ok = false;
    assert_eq!(w.run("foo", "a.dmg"), Err(s("Failed to mount DMG: tool failed")));
    let mut w = World::new();
    w.files.push(s("a.dmg"));
    w.mount_stdout = s("no volumes here");
    assert_eq!(w.run("foo", "a.dmg"), Err(s("Failed to determine mount point")));
    assert!(!w.ops.iter().any(|o| o.starts_with("eject")));
}

#[test]
fn missing_file_and_missing_applications_directory() {
    let mut w = World::new();
    let r = w.run("foo", "gone.dmg");
    assert_eq!(
        r,
        Err(s("File not found: gone.dmg. Make sure the file was downloaded successfully."))
    );
    let mut w = World::new();
    w.files = vec![s("a.dmg")];
    assert_eq!(w.run("foo", "a.dmg"), Err(s("Applications directory not found")));
    assert_eq!(w.ops.last(), Some(&s("eject /Volumes/Foo")));
}

#[test]
fn package_is_handed_to_the_system_installer() {
    let mut w = World::new();
    w.files.push(s("/Users/me/Downloads/tool.PKG"));
    let r = w.run("tool", "~/Downloads/tool.PKG");
    assert_eq!(r, Ok(s("PKG installer opened for: tool")));
    assert_eq!(
        w.ops,
        vec![s("check /Users/me/Downloads/tool.PKG"), s("open /Users/me/Downloads/tool.PKG")]
    );
    let percents: Vec<u64> = w.reports.iter().map(|r| r.0).collect();
    assert_eq!(percents, vec![10, 30, 100]);
    let mut w = World::new();
    w.files.push(s("t.pkg"));
    w.launch_ok = false;
    assert_eq!(w.run("tool", "t.pkg"), Err(s("Failed to install PKG: tool failed")));
}

#[test]
fn home_is_needed_only_for_a_tilde_path() {
    assert_eq!(expand_home(&s("~/x.dmg"), &Ok(s("/home/u"))).ok(), Some(s("/home/u/x.dmg")));
    assert_eq!(expand_home(&s("/a/x.dmg"), &Err(s("unset"))).ok(), Some(s("/a/x.dmg")));
    match expand_home(&s("~/x.dmg"), &Err(s("not present"))) {
        Err(e) => assert_eq!(e.message(), "Failed to get HOME: not present"),
        Ok(_) => panic!("expected an error"),
    }
    let (_, action) = Installer::new(&s("a"), &s("~/x.dmg"), &Err(s("unset")));
    match action.op {
        InstallOp::Finish { complete, result } => {
            assert!(result.is_err());
            assert!(!complete.success);
        }
        _ => panic!("expected the end"),
    }
}

#[test]
fn formats_by_lowercased_extension() {
    assert!(matches!(install_format("dmg"), InstallFormat::DiskImage));
    assert!(matches!(install_format("pkg"), InstallFormat::Package));
    assert!(matches!(file_format("/x/App.DMG"), InstallFormat::DiskImage));
    assert!(matches!(file_format("/x/App.Pkg"), InstallFormat::Package));
    match file_format("/x/noext") {
        InstallFormat::Unsupported(x) => assert_eq!(x, ""),
        _ => panic!("expected unsupported"),
    }
}

#[test]
fn first_bundle_in_listing_order_is_chosen() {
    let names = vec![s("a.txt"), s("B.app"), s("C.app")];
    assert_eq!(find_bundle(&names), Some(1));
    assert_eq!(find_bundle(&vec![s("x.APP"), s("app")]), None);
}

#[test]
fn applications_directory_must_exist() {
    assert_eq!(get_applications_directory(true), Ok(s("/Applications")));
    assert_eq!(get_applications_directory(false), Err(s("Applications directory not found")));
}

#[test]
fn every_error_has_its_message() {
    let cases = vec![
        (InstallError::MountPointNotFound, "Failed to determine mount point"),
        (InstallError::ReadFailed(s("io")), "Failed to read DMG contents: io"),
        (InstallError::RemoveFailed(s("busy")), "Failed to remove existing app: busy"),
        (InstallError::LaunchError(s("no open")), "Failed to open PKG installer: no open"),
        (InstallError::UnsupportedFormat(s("zip")), "Unsupported file format: zip"),
    ];
    for (e, m) in cases {
        assert_eq!(e.message(), m);
    }
}
