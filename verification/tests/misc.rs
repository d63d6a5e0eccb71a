use amect::error::AmectError;
use amect::job::{is_answer, Action, Awaiting, DirEntry, Event};
use amect::misc::lockscreen::{is_lockscreen_cache_entry, LockscreenJob, LockscreenStage};
use amect::misc::profile::{profile_size_at, ProfileJob, ProfileStage, PROFILE_SIZE_COUNT};
use amect::misc::{
    disable_autologon_plan, elevation_command, elevation_outcome, enable_autologon_plan,
    lockscreen_blur_edit, username_login_requirement_edit,
};
use amect::registry::{Hive, RegistryEdit};
use amect::winutils::{env_var_command, parse_env_var};

fn args(v: &[&str]) -> Vec<String> {
    v.iter().map(|s| s.to_string()).collect()
}

fn ok_exit() -> Event {
    Event::Exited { success: true, status: "exit code: 0".to_string() }
}

fn failed_exit() -> Event {
    Event::Exited { success: false, status: "exit code: 1".to_string() }
}

fn run_of(a: &Action) -> (String, Vec<String>) {
    match a {
        Action::Run(c) => (c.program.clone(), c.args.clone()),
        other => panic!("expected a command, got {:?}", other),
    }
}

#[test]
fn elevation_adds_or_removes() {
    let c = elevation_command(true, "bob");
    assert_eq!(c.program, "NET");
    assert_eq!(c.args, args(&["localgroup", "administrators", "bob", "/add"]));
    let c = elevation_command(false, "bob");
    assert_eq!(c.args, args(&["localgroup", "administrators", "bob", "/delete"]));
    assert_eq!(elevation_outcome(true, "bob", "exit code: 0"), Ok(()));
    let e = elevation_outcome(false, "bob", "exit code: 2").unwrap_err();
    assert_eq!(e.message(), "failed to set permissions for bob; exit code: 2");
}

#[test]
fn login_requirement_policy() {
    assert_eq!(
        username_login_requirement_edit(true),
        RegistryEdit::SetDword {
            hive: Hive::LocalMachine,
            key: "SOFTWARE\\Microsoft\\Windows\\CurrentVersion\\Policies\\System".to_string(),
            name: "dontdisplaylastusername".to_string(),
            value: 1,
        }
    );
    assert_eq!(
        username_login_requirement_edit(false),
        RegistryEdit::DeleteValue {
            hive: Hive::LocalMachine,
            key: "SOFTWARE\\Microsoft\\Windows\\CurrentVersion\\Policies\\System".to_string(),
            name: "dontdisplaylastusername".to_string(),
        }
    );
}

#[test]
fn lockscreen_blur_policy() {
    // Blur off: the policy that disables the acrylic background is set.
    assert_eq!(
        lockscreen_blur_edit(false),
        RegistryEdit::SetDword {
            hive: Hive::LocalMachine,
            key: "SOFTWARE\\Policies\\Microsoft\\Windows\\System".to_string(),
            name: "DisableAcrylicBackgroundOnLogon".to_string(),
            value: 1,
        }
    );
    // Blur on: that policy is deleted.
    assert_eq!(
        lockscreen_blur_edit(true),
        RegistryEdit::DeleteValue {
            hive: Hive::LocalMachine,
            key: "SOFTWARE\\Policies\\Microsoft\\Windows\\System".to_string(),
            name: "DisableAcrylicBackgroundOnLogon".to_string(),
        }
    );
}

#[test]
fn autologon_plans() {
    let e = enable_autologon_plan("bob", "pw");
    assert_eq!(e.runs, vec![args(&["/del"]), args(&["bob", "pw", "/DISABLECAD"])]);
    assert_eq!(e.failure, AmectError::EnableAutologon);
    let d = disable_autologon_plan();
    assert_eq!(d.runs, vec![args(&["/del"])]);
    assert_eq!(d.failure.message(), "failed to disable autologon");
    assert_eq!(e.runs[0], d.runs[0]);
    assert_eq!(e.after_run(0, true), None);
    assert_eq!(e.after_run(1, true), Some(Ok(())));
    assert_eq!(e.after_run(0, false), Some(Err(AmectError::EnableAutologon)));
    assert_eq!(d.after_run(0, true), Some(Ok(())));
    assert_eq!(d.after_run(0, false), Some(Err(AmectError::DisableAutologon)));
}

#[test]
fn env_var_reading() {
    let c = env_var_command("windir");
    assert_eq!(c.program, "powershell");
    assert_eq!(
        c.args,
        args(&["-NoP", "-C", "[System.Environment]::GetEnvironmentVariable('windir')"])
    );
    assert_eq!(parse_env_var(b"C:\\Windows\r\n"), Ok("C:\\Windows".to_string()));
    assert_eq!(parse_env_var(b"\r\n"), Ok(String::new()));
    let e = parse_env_var(&[0xff]).unwrap_err();
    assert_eq!(e, AmectError::NotUtf8("invalid utf-8 sequence of 1 bytes from index 0".to_string()));
    let e = parse_env_var(b"C:\\Win\xe2\x82").unwrap_err();
    assert_eq!(
        e.message(),
        std::str::from_utf8(b"C:\\Win\xe2\x82").unwrap_err().to_string()
    );
}

#[test]
fn lockscreen_cache_entries() {
    let d = |p: &str, is_dir: bool| DirEntry { path: p.to_string(), is_dir };
    assert!(is_lockscreen_cache_entry(&d("LockScreen_X", true)));
    assert!(!is_lockscreen_cache_entry(&d("LockScreen_X", false)));
    assert!(is_lockscreen_cache_entry(&d("C:\\d\\ReadOnly\\LockScreen_X", true)));
    assert!(is_lockscreen_cache_entry(&d("C:/d/ReadOnly/LockScreen_", true)));
    assert!(!is_lockscreen_cache_entry(&d("C:\\d\\ReadOnly\\LockScreen_X", false)));
    assert!(!is_lockscreen_cache_entry(&d("C:\\LockScreen_X\\ReadOnly\\other", true)));
    assert!(!is_lockscreen_cache_entry(&d("C:\\d\\xLockScreen_X", true)));
    assert!(!is_lockscreen_cache_entry(&d("LockScreen", true)));
    assert!(!is_lockscreen_cache_entry(&d("Lockscreen_X", true)));
}

#[test]
fn lockscreen_replacement_runs_every_step() {
    let (mut job, a) = LockscreenJob::start("S-1-5-21-7");
    assert_eq!(
        a,
        Action::Edit(RegistryEdit::SetDword {
            hive: Hive::LocalMachine,
            key: "SOFTWARE\\Microsoft\\Windows\\CurrentVersion\\Authentication\\LogonUI\\Creative\\S-1-5-21-7"
                .to_string(),
            name: "RotatingLockScreenEnabled".to_string(),
            value: 0,
        })
    );
    let a = job.step(Event::Done);
    assert_eq!(
        a,
        Action::Edit(RegistryEdit::SetDword {
            hive: Hive::Users,
            key: "S-1-5-21-7\\SOFTWARE\\Microsoft\\Windows\\CurrentVersion\\ContentDeliveryManager"
                .to_string(),
            name: "RotatingLockScreenEnabled".to_string(),
            value: 0,
        })
    );
    let a = job.step(Event::Done);
    assert_eq!(a, Action::Capture(env_var_command("windir")));
    assert_eq!(job.waits_for(), Awaiting::Output);
    let a = job.step(Event::Output(b"C:\\Windows\r\n".to_vec()));
    assert_eq!(a, Action::Capture(env_var_command("programdata")));
    let a = job.step(Event::Output(b"C:\\ProgramData\r\n".to_vec()));
    let names = ["img100.jpg", "img103.png", "img0.jpg"];
    let mut a = a;
    for name in names {
        let path = format!("C:\\Windows\\Web\\Screen\\{}", name);
        assert_eq!(run_of(&a), ("takeown".to_string(), args(&["/f", &path])));
        a = job.step(ok_exit());
        assert_eq!(run_of(&a), ("icacls".to_string(), args(&[&path, "/reset"])));
        a = job.step(ok_exit());
        assert_eq!(a, Action::CopySourceImage { to: path.clone() });
        a = job.step(Event::Done);
    }
    let data = "C:\\ProgramData\\Microsoft\\Windows\\SystemData";
    assert_eq!(run_of(&a), ("takeown".to_string(), args(&["/r", "/d", "y", "/f", data])));
    let a = job.step(ok_exit());
    assert_eq!(run_of(&a), ("icacls".to_string(), args(&[data, "/reset"])));
    let a = job.step(ok_exit());
    assert_eq!(a, Action::ListDir { path: data.to_string() });
    let s1 = format!("{}\\S-1", data);
    let s2 = format!("{}\\S-2", data);
    let a = job.step(Event::Listing(vec![
        DirEntry { path: format!("{}\\notes.txt", data), is_dir: false },
        DirEntry { path: s1.clone(), is_dir: true },
        DirEntry { path: s2.clone(), is_dir: true },
    ]));
    assert_eq!(a, Action::ListDir { path: format!("{}\\ReadOnly", s1) });
    let cache_a = format!("{}\\ReadOnly\\LockScreen_A", s1);
    let cache_b = format!("{}\\ReadOnly\\LockScreen_B", s1);
    let a = job.step(Event::Listing(vec![
        DirEntry { path: cache_a.clone(), is_dir: true },
        DirEntry { path: format!("{}\\ReadOnly\\Other", s1), is_dir: true },
        DirEntry { path: format!("{}\\ReadOnly\\LockScreen_file", s1), is_dir: false },
        DirEntry { path: cache_b.clone(), is_dir: true },
    ]));
    assert_eq!(a, Action::RemoveDirAll { path: cache_a });
    let a = job.step(Event::Done);
    assert_eq!(a, Action::RemoveDirAll { path: cache_b });
    let a = job.step(Event::Done);
    assert_eq!(a, Action::ListDir { path: format!("{}\\ReadOnly", s2) });
    let a = job.step(Event::Listing(vec![]));
    assert_eq!(a, Action::Finish(Ok(())));
    assert_eq!(job.stage, LockscreenStage::Finished);
    assert_eq!(job.waits_for(), Awaiting::Nothing);
}

#[test]
fn lockscreen_ownership_failures() {
    let (mut job, _) = LockscreenJob::start("S");
    job.step(Event::Done);
    job.step(Event::Done);
    job.step(Event::Output(b"W".to_vec()));
    job.step(Event::Output(b"P".to_vec()));
    let a = job.step(failed_exit());
    assert_eq!(a, Action::Finish(Err(AmectError::ImageOwnership)));
    assert_eq!(
        AmectError::ImageOwnership.message(),
        "failed to take ownership of old images"
    );

    let (mut job, _) = LockscreenJob::start("S");
    job.step(Event::Done);
    job.step(Event::Done);
    job.step(Event::Output(b"W".to_vec()));
    job.step(Event::Output(b"P".to_vec()));
    for _ in 0..3 {
        job.step(ok_exit());
        job.step(ok_exit());
        job.step(Event::Done);
    }
    job.step(ok_exit());
    let a = job.step(failed_exit());
    assert_eq!(a, Action::Finish(Err(AmectError::DirectoryOwnership)));
}

#[test]
fn lockscreen_stops_on_failures() {
    let (mut job, _) = LockscreenJob::start("S");
    let a = job.step(Event::Failed("access denied".to_string()));
    assert_eq!(a, Action::Finish(Err(AmectError::Io("access denied".to_string()))));
    assert_eq!(job.stage, LockscreenStage::Finished);

    let (mut job, _) = LockscreenJob::start("S");
    job.step(Event::Done);
    job.step(Event::Done);
    let a = job.step(Event::Output(vec![b'C', 0xff, 0xfe]));
    assert_eq!(
        a,
        Action::Finish(Err(AmectError::NotUtf8(
            "invalid utf-8 sequence of 1 bytes from index 1".to_string()
        )))
    );
}

#[test]
fn profile_sizes() {
    let sizes: Vec<u32> = (0..PROFILE_SIZE_COUNT).map(profile_size_at).collect();
    assert_eq!(sizes, vec![32, 40, 48, 64, 96, 192, 208, 240, 424, 448, 1080]);
}

/// A small RGB picture, 5 by 3 pixels, as a PNG file.
fn sample_png() -> Vec<u8> {
    let img = image::RgbImage::from_fn(5, 3, |x, y| image::Rgb([(x * 40) as u8, (y * 80) as u8, 7]));
    let mut out = std::io::Cursor::new(Vec::new());
    image::DynamicImage::ImageRgb8(img)
        .write_to(&mut out, image::ImageOutputFormat::Png)
        .unwrap();
    out.into_inner()
}

/// What the `image` crate itself makes of `src` scaled to `size` pixels.
fn scaled_with_the_image_crate(src: &[u8], size: u32) -> Vec<u8> {
    let img = image::load_from_memory_with_format(src, image::ImageFormat::Png).unwrap();
    let mut out = std::io::Cursor::new(Vec::new());
    img.resize_exact(size, size, image::imageops::FilterType::Lanczos3)
        .write_to(&mut out, image::ImageOutputFormat::Png)
        .unwrap();
    out.into_inner()
}

/// Runs a job for `S` with public profile `P` up to the first picture.
fn profile_job_up_to_saving(ext: Option<&str>, image: Vec<u8>) -> (ProfileJob, Action) {
    let (mut job, _) = ProfileJob::start("S", ext.map(str::to_owned));
    job.step(Event::Contents(image));
    job.step(Event::Output(b"P".to_vec()));
    job.step(Event::Done);
    job.step(ok_exit());
    job.step(ok_exit());
    let a = job.step(Event::Listing(vec![]));
    (job, a)
}

#[test]
fn profile_picture_replacement_runs_every_step() {
    let source = sample_png();
    let (mut job, a) = ProfileJob::start("S-9", Some("png".to_string()));
    assert_eq!(a, Action::ReadSourceImage);
    assert_eq!(job.waits_for(), Awaiting::Contents);
    let a = job.step(Event::Contents(source.clone()));
    assert_eq!(a, Action::Capture(env_var_command("public")));
    let a = job.step(Event::Output(b"C:\\Users\\Public\r\n".to_vec()));
    let dir = "C:\\Users\\Public\\AccountPictures\\S-9";
    assert_eq!(a, Action::CreateDirAll { path: dir.to_string() });
    let a = job.step(Event::Done);
    assert_eq!(run_of(&a), ("takeown".to_string(), args(&["/r", "/d", "y", "/f", dir])));
    let a = job.step(ok_exit());
    assert_eq!(run_of(&a), ("icacls".to_string(), args(&[dir, "/reset", "/t"])));
    let a = job.step(ok_exit());
    assert_eq!(a, Action::ListDir { path: dir.to_string() });
    let a = job.step(Event::Listing(vec![
        DirEntry { path: format!("{}\\old1.png", dir), is_dir: false },
        DirEntry { path: format!("{}\\old2.png", dir), is_dir: false },
    ]));
    assert_eq!(a, Action::RemoveFile { path: format!("{}\\old1.png", dir) });
    let a = job.step(Event::Done);
    assert_eq!(a, Action::RemoveFile { path: format!("{}\\old2.png", dir) });
    let mut a = job.step(Event::Done);
    let sizes = [32u32, 40, 48, 64, 96, 192, 208, 240, 424, 448, 1080];
    for size in sizes {
        match &a {
            Action::WriteFile { path, bytes } => {
                assert_eq!(path, &format!("{}\\{}x{}.png", dir, size, size));
                let written = image::load_from_memory_with_format(bytes, image::ImageFormat::Png)
                    .unwrap();
                assert_eq!((written.width(), written.height()), (size, size));
                assert_eq!(written.color(), image::ColorType::Rgb8);
                assert_eq!(bytes, &scaled_with_the_image_crate(&source, size));
            }
            other => panic!("expected a picture to be written, got {:?}", other),
        }
        a = job.step(Event::Done);
    }
    let key = "SOFTWARE\\Microsoft\\Windows\\CurrentVersion\\AccountPicture\\Users\\S-9";
    assert_eq!(
        a,
        Action::Edit(RegistryEdit::DeleteTree { hive: Hive::LocalMachine, key: key.to_string() })
    );
    a = job.step(Event::Done);
    for size in sizes {
        assert_eq!(
            a,
            Action::Edit(RegistryEdit::SetString {
                hive: Hive::LocalMachine,
                key: key.to_string(),
                name: format!("Image{}", size),
                value: format!("{}\\{}x{}.png", dir, size, size),
            })
        );
        a = job.step(Event::Done);
    }
    assert_eq!(
        a,
        Action::Edit(RegistryEdit::SetString {
            hive: Hive::Users,
            key: "S-9\\SOFTWARE\\OpenShell\\StartMenu\\Settings".to_string(),
            name: "UserPicturePath".to_string(),
            value: format!("{}\\448x448.png", dir),
        })
    );
    let a = job.step(Event::Done);
    assert_eq!(a, Action::Finish(Ok(())));
    assert_eq!(job.stage, ProfileStage::Finished);
}

#[test]
fn profile_picture_missing_key_is_no_failure() {
    let (mut job, mut a) = profile_job_up_to_saving(Some("png"), sample_png());
    for _ in 0..PROFILE_SIZE_COUNT {
        assert!(matches!(a, Action::WriteFile { .. }));
        a = job.step(Event::Done);
    }
    assert!(matches!(a, Action::Edit(RegistryEdit::DeleteTree { .. })));
    assert_eq!(job.waits_for(), Awaiting::Completion);
    let a = job.step(Event::Missing("The system cannot find the file specified.".to_string()));
    assert_eq!(
        a,
        Action::Edit(RegistryEdit::SetString {
            hive: Hive::LocalMachine,
            key: "SOFTWARE\\Microsoft\\Windows\\CurrentVersion\\AccountPicture\\Users\\S".to_string(),
            name: "Image32".to_string(),
            value: "P\\AccountPictures\\S\\32x32.png".to_string(),
        })
    );
    // Anywhere else, something missing ends the replacement with its description.
    let a = job.step(Event::Missing("gone".to_string()));
    assert_eq!(a, Action::Finish(Err(AmectError::Io("gone".to_string()))));
}

#[test]
fn profile_picture_failures() {
    let (mut job, _) = ProfileJob::start("S", Some("png".to_string()));
    let a = job.step(Event::Failed("access denied".to_string()));
    assert_eq!(a, Action::Finish(Err(AmectError::Io("access denied".to_string()))));

    let (mut job, _) = ProfileJob::start("S", Some("png".to_string()));
    job.step(Event::Contents(sample_png()));
    job.step(Event::Output(b"P".to_vec()));
    job.step(Event::Done);
    let a = job.step(failed_exit());
    assert_eq!(a, Action::Finish(Err(AmectError::DirectoryOwnership)));
    assert_eq!(
        AmectError::DirectoryOwnership.message(),
        "failed to take ownership of directory"
    );

    let (_, a) = profile_job_up_to_saving(Some("PNG"), sample_png());
    match a {
        Action::WriteFile { path, .. } => assert_eq!(path, "P\\AccountPictures\\S\\32x32.png"),
        other => panic!("expected a picture to be written, got {:?}", other),
    }
}

#[test]
fn profile_picture_needs_a_decodable_image() {
    for ext in [None, Some("txt"), Some("")] {
        let (mut job, _) = ProfileJob::start("S", ext.map(str::to_owned));
        let a = job.step(Event::Contents(sample_png()));
        assert_eq!(a, Action::Finish(Err(AmectError::UnknownImageFormat)));
        assert_eq!(job.stage, ProfileStage::Finished);
    }
    assert_eq!(
        AmectError::UnknownImageFormat.message(),
        "The image format could not be determined"
    );
    let (mut job, _) = ProfileJob::start("S", Some("png".to_string()));
    let a = job.step(Event::Contents(b"not an image".to_vec()));
    let expected = image::load_from_memory_with_format(b"not an image", image::ImageFormat::Png)
        .unwrap_err()
        .to_string();
    assert_eq!(a, Action::Finish(Err(AmectError::Image(expected.clone()))));
    assert_eq!(AmectError::Image(expected.clone()).message(), expected);
}

#[test]
fn answers_of_each_kind() {
    let missing = Event::Missing("not found".to_string());
    assert!(is_answer(Awaiting::Completion, &missing));
    assert!(!is_answer(Awaiting::Listing, &missing));
    assert!(!is_answer(Awaiting::Nothing, &missing));
    assert!(is_answer(Awaiting::Contents, &Event::Contents(vec![1, 2])));
    assert!(!is_answer(Awaiting::Completion, &Event::Contents(vec![])));
    assert!(!is_answer(Awaiting::Contents, &Event::Done));
}

#[test]
fn lockscreen_stops_when_something_is_missing() {
    let (mut job, _) = LockscreenJob::start("S");
    let a = job.step(Event::Missing("no such key".to_string()));
    assert_eq!(a, Action::Finish(Err(AmectError::Io("no such key".to_string()))));
    assert_eq!(job.stage, LockscreenStage::Finished);
}
