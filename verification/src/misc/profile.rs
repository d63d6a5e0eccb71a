//! Replacing the account picture: the steps, one at a time.
use vstd::prelude::*;

use crate::command::{owned, texts, CommandLine};
use crate::error::AmectError;
use crate::job::{answers, Action, Awaiting, DirEntry, Event};
use crate::misc::lockscreen::{lex_below, take_tree, take_tree_command};
use crate::picture::{decode_picture, decoded_image, image_extension_known, picture_png, scaled_png, Picture};
use crate::registry::{Hive, RegistryEdit};
use crate::text::{concat2, concat3, decimal, decimal_string};
use crate::winutils::{env_var_command, env_var_expression, env_var_of, parse_env_var};

verus! {

/// Number of picture sizes that are written.
pub const PROFILE_SIZE_COUNT: usize = 11;

/// The side lengths, in pixels, of the account pictures, in the order they are written.
pub open spec fn profile_sizes() -> Seq<u32> {
    seq![32u32, 40, 48, 64, 96, 192, 208, 240, 424, 448, 1080]
}

/// Side length of picture `i`.
pub fn profile_size_at(i: usize) -> (s: u32)
    requires
        i < PROFILE_SIZE_COUNT,
    ensures
        s == profile_sizes()[i as int],
{
    let sizes: [u32; 11] = [32, 40, 48, 64, 96, 192, 208, 240, 424, 448, 1080];
    assert(sizes@ =~= profile_sizes());
    sizes[i]
}

/// Directory of the account pictures of `sid` under the public profile `public`.
pub open spec fn picture_dir(public: Seq<char>, sid: Seq<char>) -> Seq<char> {
    public + "\\AccountPictures\\"@ + sid
}

/// File of the `size`-pixel picture in `dir`.
pub open spec fn picture_file(dir: Seq<char>, size: u32) -> Seq<char> {
    dir + "\\"@ + decimal(size as nat) + "x"@ + decimal(size as nat) + ".png"@
}

/// Key under `HKEY_LOCAL_MACHINE` that lists the account pictures of `sid`.
pub open spec fn account_picture_key(sid: Seq<char>) -> Seq<char> {
    "SOFTWARE\\Microsoft\\Windows\\CurrentVersion\\AccountPicture\\Users\\"@ + sid
}

/// Name of the value that holds the `size`-pixel picture.
pub open spec fn image_value_name(size: u32) -> Seq<char> {
    "Image"@ + decimal(size as nat)
}

/// Key under `HKEY_USERS` of the Open-Shell start menu settings of `sid`.
pub open spec fn start_menu_key(sid: Seq<char>) -> Seq<char> {
    sid + "\\SOFTWARE\\OpenShell\\StartMenu\\Settings"@
}

/// `icacls` resetting the permissions of a directory tree.
pub open spec fn reset_tree_command(path: Seq<char>) -> (Seq<char>, Seq<Seq<char>>) {
    ("icacls"@, seq![path, "/reset"@, "/t"@])
}

/// Where the account picture replacement stands.
#[derive(Clone, Copy, Debug, PartialEq, Eq)]
pub enum ProfileStage {
    /// Reading and decoding the chosen image.
    LoadImage,
    /// Reading `public`.
    ReadPublic,
    /// Creating the picture directory.
    CreateDir,
    /// Taking ownership of the picture directory.
    TakeDir,
    /// Resetting the permissions of the picture directory.
    ResetDir,
    /// Listing the picture directory.
    ListDir,
    /// Removing old entry `k` of the picture directory.
    RemoveOld(usize),
    /// Saving picture `i`.
    Save(usize),
    /// Deleting the old account picture key.
    ClearKey,
    /// Storing the value of picture `i`.
    SetImageValue(usize),
    /// Pointing the start menu at the picture.
    SetStartMenuPicture,
    /// Over.
    Finished,
}

/// The replacement of the account picture of `sid`.
pub struct ProfileJob {
    pub sid: String,
    /// The file extension of the chosen image, which names its format.
    pub extension: Option<String>,
    pub public: String,
    /// Entries of the picture directory, once listed.
    pub old: Vec<DirEntry>,
    /// The chosen image, once decoded.
    pub picture: Option<Picture>,
    pub stage: ProfileStage,
}

impl ProfileJob {
    /// The picture directory.
    pub open spec fn dir(self) -> Seq<char> {
        picture_dir(self.public@, self.sid@)
    }

    /// The stage's index points at what it names, and the image is decoded
    /// once it has been read.
    pub open spec fn wf(self) -> bool {
        &&& match self.stage {
            ProfileStage::RemoveOld(k) => k < self.old@.len(),
            ProfileStage::Save(i) => i < PROFILE_SIZE_COUNT,
            ProfileStage::SetImageValue(i) => i < PROFILE_SIZE_COUNT,
            _ => true,
        }
        &&& (self.stage != ProfileStage::LoadImage && self.stage != ProfileStage::Finished
            ==> self.picture is Some)
    }

    /// The kind of answer the job waits for.
    pub open spec fn awaiting(self) -> Awaiting {
        match self.stage {
            ProfileStage::LoadImage => Awaiting::Contents,
            ProfileStage::ReadPublic => Awaiting::Output,
            ProfileStage::TakeDir => Awaiting::Exit,
            ProfileStage::ResetDir => Awaiting::Exit,
            ProfileStage::ListDir => Awaiting::Listing,
            ProfileStage::Finished => Awaiting::Nothing,
            _ => Awaiting::Completion,
        }
    }

    /// The kind of answer the job waits for.
    pub fn waits_for(&self) -> (w: Awaiting)
        ensures
            w == self.awaiting(),
    {
        match self.stage {
            ProfileStage::LoadImage => Awaiting::Contents,
            ProfileStage::ReadPublic => Awaiting::Output,
            ProfileStage::TakeDir => Awaiting::Exit,
            ProfileStage::ResetDir => Awaiting::Exit,
            ProfileStage::ListDir => Awaiting::Listing,
            ProfileStage::Finished => Awaiting::Nothing,
            _ => Awaiting::Completion,
        }
    }
}

/// Ends the operation with the image error described as `m`.
pub open spec fn fails_with_image_error(a: Action, m: Seq<char>) -> bool {
    a matches Action::Finish(Err(AmectError::Image(t))) && t@ == m
}

/// Writes picture `i`: the chosen image scaled to the `i`-th size, as PNG,
/// into its file of the picture directory; or ends with the error that
/// encoding it gave.
pub open spec fn saves_picture(j: ProfileJob, i: int, n: ProfileJob, a: Action) -> bool {
    let size = profile_sizes()[i];
    match picture_png(j.picture.unwrap().content(), size) {
        Ok(b) => n.stage == ProfileStage::Save(i as usize) && a.writes_file(picture_file(j.dir(), size), b),
        Err(m) => n.stage == ProfileStage::Finished && fails_with_image_error(a, m),
    }
}

/// After `from` old entries are removed: remove the next, or save the first picture.
pub open spec fn moves_to_removal(j: ProfileJob, from: int, n: ProfileJob, a: Action) -> bool {
    if from < n.old@.len() {
        &&& n.stage == ProfileStage::RemoveOld(from as usize)
        &&& a.removes_file(n.old@[from].path@)
    } else {
        saves_picture(j, 0, n, a)
    }
}

/// The old key of the account pictures is gone (deleted now, or missing
/// already): store the value of the first picture.
pub open spec fn moves_to_values(j: ProfileJob, n: ProfileJob, a: Action) -> bool {
    &&& n.public@ == j.public@
    &&& n.stage == ProfileStage::SetImageValue(0)
    &&& a.sets_string(
        Hive::LocalMachine,
        account_picture_key(j.sid@),
        image_value_name(profile_sizes()[0]),
        picture_file(j.dir(), profile_sizes()[0]),
    )
}

/// What reading the chosen image yields: the decoded image, stored, and
/// the public profile's path asked for; or the end, when the file's
/// extension names no image format or the bytes do not decode in it.
pub open spec fn loads_image(j: ProfileJob, bytes: Seq<u8>, n: ProfileJob, a: Action) -> bool {
    match j.extension {
        Some(x) => if image_extension_known(x@) {
            match decoded_image(bytes, x@) {
                Ok(c) => {
                    &&& n.picture matches Some(p) && p.content() == c
                    &&& n.stage == ProfileStage::ReadPublic
                    &&& a.captures(("powershell"@, seq!["-NoP"@, "-C"@, env_var_expression("public"@)]))
                },
                Err(m) => n.stage == ProfileStage::Finished && fails_with_image_error(a, m),
            }
        } else {
            n.stage == ProfileStage::Finished && a.finishes_with(AmectError::UnknownImageFormat)
        },
        None => n.stage == ProfileStage::Finished && a.finishes_with(AmectError::UnknownImageFormat),
    }
}

/// One step of the account picture replacement: from `j`, on the answer
/// `e`, the job becomes `n` and asks for `a`.
pub open spec fn profile_step(j: ProfileJob, e: Event, n: ProfileJob, a: Action) -> bool {
    &&& n.sid@ == j.sid@
    &&& n.extension == j.extension
    &&& !(j.stage == ProfileStage::LoadImage && e is Contents) ==> n.picture == j.picture
    &&& !(j.stage == ProfileStage::ReadPublic && e is Output) ==> n.public@ == j.public@
    &&& !(j.stage == ProfileStage::ListDir && e is Listing) ==> n.old@ == j.old@
    &&& match e {
        Event::Failed(m) => n.stage == ProfileStage::Finished && a.finishes_with_failure(m@),
        Event::Missing(m) => if j.stage == ProfileStage::ClearKey {
            moves_to_values(j, n, a)
        } else {
            n.stage == ProfileStage::Finished && a.finishes_with_failure(m@)
        },
        _ => match j.stage {
            ProfileStage::LoadImage => match e {
                Event::Contents(b) => loads_image(j, b@, n, a),
                _ => false,
            },
            ProfileStage::ReadPublic => match e {
                Event::Output(b) => match env_var_of(b@) {
                    Ok(p) => {
                        &&& n.public@ == p
                        &&& n.stage == ProfileStage::CreateDir
                        &&& a.creates_dir(picture_dir(p, j.sid@))
                    },
                    Err(m) => n.stage == ProfileStage::Finished && a.finishes_not_utf8(m),
                },
                _ => false,
            },
            ProfileStage::CreateDir => {
                &&& n.public@ == j.public@
                &&& n.stage == ProfileStage::TakeDir
                &&& a.runs(take_tree_command(j.dir()))
            },
            ProfileStage::TakeDir => match e {
                Event::Exited { success, .. } => if success {
                    &&& n.public@ == j.public@
                    &&& n.stage == ProfileStage::ResetDir
                    &&& a.runs(reset_tree_command(j.dir()))
                } else {
                    n.stage == ProfileStage::Finished && a.finishes_with(
                        AmectError::DirectoryOwnership,
                    )
                },
                _ => false,
            },
            ProfileStage::ResetDir => match e {
                Event::Exited { success, .. } => if success {
                    &&& n.public@ == j.public@
                    &&& n.stage == ProfileStage::ListDir
                    &&& a.lists(j.dir())
                } else {
                    n.stage == ProfileStage::Finished && a.finishes_with(
                        AmectError::DirectoryOwnership,
                    )
                },
                _ => false,
            },
            ProfileStage::ListDir => match e {
                Event::Listing(es) => {
                    &&& n.public@ == j.public@
                    &&& n.old@ == es@
                    &&& moves_to_removal(j, 0, n, a)
                },
                _ => false,
            },
            ProfileStage::RemoveOld(k) => {
                &&& n.public@ == j.public@
                &&& n.old@ == j.old@
                &&& moves_to_removal(j, k + 1, n, a)
            },
            ProfileStage::Save(i) => {
                &&& n.public@ == j.public@
                &&& if i + 1 < PROFILE_SIZE_COUNT {
                    saves_picture(j, i + 1, n, a)
                } else {
                    &&& n.stage == ProfileStage::ClearKey
                    &&& a.deletes_tree(Hive::LocalMachine, account_picture_key(j.sid@))
                }
            },
            ProfileStage::ClearKey => moves_to_values(j, n, a),
            ProfileStage::SetImageValue(i) => {
                &&& n.public@ == j.public@
                &&& if i + 1 < PROFILE_SIZE_COUNT {
                    &&& n.stage == ProfileStage::SetImageValue((i + 1) as usize)
                    &&& a.sets_string(
                        Hive::LocalMachine,
                        account_picture_key(j.sid@),
                        image_value_name(profile_sizes()[i + 1]),
                        picture_file(j.dir(), profile_sizes()[i + 1]),
                    )
                } else {
                    &&& n.stage == ProfileStage::SetStartMenuPicture
                    &&& a.sets_string(
                        Hive::Users,
                        start_menu_key(j.sid@),
                        "UserPicturePath"@,
                        picture_file(j.dir(), 448),
                    )
                }
            },
            ProfileStage::SetStartMenuPicture => n.stage == ProfileStage::Finished && a.finishes_ok(),
            ProfileStage::Finished => false,
        },
    }
}

/// The picture directory of `sid` under `public`.
pub fn picture_dir_string(public: &str, sid: &str) -> (r: String)
    ensures
        r@ == picture_dir(public@, sid@),
{
    concat3(public, "\\AccountPictures\\", sid)
}

/// The file of the `size`-pixel picture in `dir`.
pub fn picture_file_string(dir: &str, size: u32) -> (r: String)
    ensures
        r@ == picture_file(dir@, size),
{
    let n = decimal_string(size as u64);
    let mut s = String::from_str(dir);
    s.append("\\");
    s.append(n.as_str());
    s.append("x");
    s.append(n.as_str());
    s.append(".png");
    s
}

/// `icacls path /reset /t`.
pub fn reset_tree(path: &str) -> (c: CommandLine)
    ensures
        c@ == reset_tree_command(path@),
{
    let c = CommandLine {
        program: owned("icacls"),
        args: vec![owned(path), owned("/reset"), owned("/t")],
    };
    assert(texts(c.args@) =~= reset_tree_command(path@).1);
    c
}

fn account_picture_key_string(sid: &str) -> (r: String)
    ensures
        r@ == account_picture_key(sid@),
{
    concat2("SOFTWARE\\Microsoft\\Windows\\CurrentVersion\\AccountPicture\\Users\\", sid)
}

fn image_value_name_string(size: u32) -> (r: String)
    ensures
        r@ == image_value_name(size),
{
    let n = decimal_string(size as u64);
    concat2("Image", n.as_str())
}

impl ProfileJob {
    /// The first step of replacing the account picture of `sid` with an
    /// image whose file has the extension `extension` (`None`: it has
    /// none): read the chosen image.
    pub fn start(sid: &str, extension: Option<String>) -> (r: (ProfileJob, Action))
        ensures
            r.0.sid@ == sid@,
            r.0.extension == extension,
            r.0.picture is None,
            r.0.stage == ProfileStage::LoadImage,
            r.0.wf(),
            r.1 == Action::ReadSourceImage,
    {
        (
            ProfileJob {
                sid: owned(sid),
                extension,
                public: String::new(),
                old: Vec::new(),
                picture: None,
                stage: ProfileStage::LoadImage,
            },
            Action::ReadSourceImage,
        )
    }

    fn dir_string(&self) -> (r: String)
        ensures
            r@ == self.dir(),
    {
        picture_dir_string(self.public.as_str(), self.sid.as_str())
    }

    /// Saves picture `i`, or ends with the error that encoding it gave.
    fn save_picture(&mut self, i: usize) -> (a: Action)
        requires
            i < PROFILE_SIZE_COUNT,
            old(self).picture is Some,
        ensures
            saves_picture(*old(self), i as int, *final(self), a),
            final(self).sid == old(self).sid,
            final(self).extension == old(self).extension,
            final(self).public == old(self).public,
            final(self).old == old(self).old,
            final(self).picture == old(self).picture,
            final(self).wf(),
    {
        let size = profile_size_at(i);
        let png = match &self.picture {
            Some(p) => scaled_png(p, size),
            None => {
                return Action::Finish(Ok(()));
            },
        };
        match png {
            Ok(bytes) => {
                self.stage = ProfileStage::Save(i);
                let dir = self.dir_string();
                Action::WriteFile { path: picture_file_string(dir.as_str(), size), bytes }
            },
            Err(m) => {
                self.stage = ProfileStage::Finished;
                Action::Finish(Err(AmectError::Image(m)))
            },
        }
    }

    /// Stores the value of picture `i`.
    fn image_value(&self, i: usize) -> (a: Action)
        requires
            i < PROFILE_SIZE_COUNT,
        ensures
            a.sets_string(
                Hive::LocalMachine,
                account_picture_key(self.sid@),
                image_value_name(profile_sizes()[i as int]),
                picture_file(self.dir(), profile_sizes()[i as int]),
            ),
    {
        let size = profile_size_at(i);
        let dir = self.dir_string();
        Action::Edit(
            RegistryEdit::SetString {
                hive: Hive::LocalMachine,
                key: account_picture_key_string(self.sid.as_str()),
                name: image_value_name_string(size),
                value: picture_file_string(dir.as_str(), size),
            },
        )
    }

    /// Decodes the chosen image, read as `bytes`, in the format its file
    /// extension names, and asks for the public profile's path.
    fn load_image(&mut self, bytes: &[u8]) -> (a: Action)
        requires
            old(self).stage == ProfileStage::LoadImage,
        ensures
            loads_image(*old(self), bytes@, *final(self), a),
            final(self).sid == old(self).sid,
            final(self).extension == old(self).extension,
            final(self).public == old(self).public,
            final(self).old == old(self).old,
            final(self).wf(),
    {
        let decoded = match &self.extension {
            Some(x) => decode_picture(bytes, x.as_str()),
            None => Err(None),
        };
        match decoded {
            Ok(p) => {
                self.picture = Some(p);
                self.stage = ProfileStage::ReadPublic;
                Action::Capture(env_var_command("public"))
            },
            Err(None) => {
                self.stage = ProfileStage::Finished;
                Action::Finish(Err(AmectError::UnknownImageFormat))
            },
            Err(Some(m)) => {
                self.stage = ProfileStage::Finished;
                Action::Finish(Err(AmectError::Image(m)))
            },
        }
    }

    /// Removes old entry `from`, or saves the first picture.
    fn next_removal(&mut self, from: usize) -> (a: Action)
        requires
            old(self).picture is Some,
        ensures
            moves_to_removal(*old(self), from as int, *final(self), a),
            final(self).sid == old(self).sid,
            final(self).extension == old(self).extension,
            final(self).public == old(self).public,
            final(self).old == old(self).old,
            final(self).picture == old(self).picture,
            final(self).wf(),
    {
        if from < self.old.len() {
            self.stage = ProfileStage::RemoveOld(from);
            Action::RemoveFile { path: self.old[from].path.clone() }
        } else {
            self.save_picture(0)
        }
    }

    /// The next step, given the answer to the previous one.
    pub fn step(&mut self, event: Event) -> (a: Action)
        requires
            old(self).wf(),
            answers(old(self).awaiting(), event),
        ensures
            final(self).wf(),
            profile_step(*old(self), event, *final(self), a),
    {
        if let Event::Failed(m) = event {
            self.stage = ProfileStage::Finished;
            return Action::Finish(Err(AmectError::Io(m)));
        }
        if let Event::Missing(m) = event {
            if let ProfileStage::ClearKey = self.stage {
                self.stage = ProfileStage::SetImageValue(0);
                return self.image_value(0);
            }
            self.stage = ProfileStage::Finished;
            return Action::Finish(Err(AmectError::Io(m)));
        }
        match self.stage {
            ProfileStage::LoadImage => {
                if let Event::Contents(b) = event {
                    self.load_image(b.as_slice())
                } else {
                    self.stage = ProfileStage::Finished;
                    Action::Finish(Ok(()))
                }
            },
            ProfileStage::ReadPublic => {
                if let Event::Output(b) = event {
                    match parse_env_var(b.as_slice()) {
                        Ok(p) => {
                            self.public = p;
                            self.stage = ProfileStage::CreateDir;
                            Action::CreateDirAll { path: self.dir_string() }
                        },
                        Err(err) => {
                            self.stage = ProfileStage::Finished;
                            Action::Finish(Err(err))
                        },
                    }
                } else {
                    self.stage = ProfileStage::Finished;
                    Action::Finish(Ok(()))
                }
            },
            ProfileStage::CreateDir => {
                self.stage = ProfileStage::TakeDir;
                Action::Run(take_tree(self.dir_string().as_str()))
            },
            ProfileStage::TakeDir => {
                if let Event::Exited { success, .. } = event {
                    if success {
                        self.stage = ProfileStage::ResetDir;
                        Action::Run(reset_tree(self.dir_string().as_str()))
                    } else {
                        self.stage = ProfileStage::Finished;
                        Action::Finish(Err(AmectError::DirectoryOwnership))
                    }
                } else {
                    self.stage = ProfileStage::Finished;
                    Action::Finish(Ok(()))
                }
            },
            ProfileStage::ResetDir => {
                if let Event::Exited { success, .. } = event {
                    if success {
                        self.stage = ProfileStage::ListDir;
                        Action::ListDir { path: self.dir_string() }
                    } else {
                        self.stage = ProfileStage::Finished;
                        Action::Finish(Err(AmectError::DirectoryOwnership))
                    }
                } else {
                    self.stage = ProfileStage::Finished;
                    Action::Finish(Ok(()))
                }
            },
            ProfileStage::ListDir => {
                if let Event::Listing(es) = event {
                    self.old = es;
                    self.next_removal(0)
                } else {
                    self.stage = ProfileStage::Finished;
                    Action::Finish(Ok(()))
                }
            },
            ProfileStage::RemoveOld(k) => {
                let count = self.old.len();
                assert(k < count);
                self.next_removal(k + 1)
            },
            ProfileStage::Save(i) => {
                if i + 1 < PROFILE_SIZE_COUNT {
                    self.save_picture(i + 1)
                } else {
                    self.stage = ProfileStage::ClearKey;
                    Action::Edit(
                        RegistryEdit::DeleteTree {
                            hive: Hive::LocalMachine,
                            key: account_picture_key_string(self.sid.as_str()),
                        },
                    )
                }
            },
            ProfileStage::ClearKey => {
                self.stage = ProfileStage::SetImageValue(0);
                self.image_value(0)
            },
            ProfileStage::SetImageValue(i) => {
                if i + 1 < PROFILE_SIZE_COUNT {
                    self.stage = ProfileStage::SetImageValue(i + 1);
                    self.image_value(i + 1)
                } else {
                    self.stage = ProfileStage::SetStartMenuPicture;
                    let dir = self.dir_string();
                    Action::Edit(
                        RegistryEdit::SetString {
                            hive: Hive::Users,
                            key: concat2(self.sid.as_str(), "\\SOFTWARE\\OpenShell\\StartMenu\\Settings"),
                            name: owned("UserPicturePath"),
                            value: picture_file_string(dir.as_str(), 448),
                        },
                    )
                }
            },
            ProfileStage::SetStartMenuPicture => {
                self.stage = ProfileStage::Finished;
                Action::Finish(Ok(()))
            },
            ProfileStage::Finished => Action::Finish(Ok(())),
        }
    }
}

/// The registry value of each picture size names the file saved for that
/// size: the step that saves picture `i` and the step that stores its value
/// agree on the path, as long as both belong to the same account and
/// public profile.
pub proof fn lemma_values_name_saved_files(
    j1: ProfileJob,
    e1: Event,
    n1: ProfileJob,
    a1: Action,
    j2: ProfileJob,
    e2: Event,
    n2: ProfileJob,
    a2: Action,
    i: usize,
)
    requires
        profile_step(j1, e1, n1, a1),
        profile_step(j2, e2, n2, a2),
        j1.sid@ == j2.sid@,
        j1.public@ == j2.public@,
        n1.stage == ProfileStage::Save(i),
        n2.stage == ProfileStage::SetImageValue(i),
        i < PROFILE_SIZE_COUNT,
    ensures
        a1 matches Action::WriteFile { path, .. } && path@ == picture_file(
            j1.dir(),
            profile_sizes()[i as int],
        ) && a2.sets_string(
            Hive::LocalMachine,
            account_picture_key(j2.sid@),
            image_value_name(profile_sizes()[i as int]),
            path@,
        ),
{
}

/// The image decoded from the chosen file is the one the job keeps: when
/// reading the file leads on, the file's extension names a format, and the
/// image the job holds is what decoding the file's bytes in it gives.
pub proof fn lemma_loaded_picture_is_decoded(j: ProfileJob, bytes: Vec<u8>, n: ProfileJob, a: Action)
    requires
        j.stage == ProfileStage::LoadImage,
        profile_step(j, Event::Contents(bytes), n, a),
        n.stage != ProfileStage::Finished,
    ensures
        j.extension matches Some(x) && image_extension_known(x@),
        n.picture matches Some(p) && decoded_image(bytes@, j.extension.unwrap()@) == Ok::<
            (u32, u32, u8, u8, Seq<u8>),
            Seq<char>,
        >(p.content()),
        n.stage == ProfileStage::ReadPublic,
{
}

/// Every picture written is the chosen image, as the job holds it, scaled
/// to that picture's size and encoded as PNG, written into that picture's
/// file; the image the job holds does not change meanwhile.
pub proof fn lemma_pictures_are_the_chosen_image(j: ProfileJob, e: Event, n: ProfileJob, a: Action, i: usize)
    requires
        profile_step(j, e, n, a),
        n.stage == ProfileStage::Save(i),
        i < PROFILE_SIZE_COUNT,
    ensures
        n.picture == j.picture,
        picture_png(j.picture.unwrap().content(), profile_sizes()[i as int]) is Ok,
        a.writes_file(
            picture_file(j.dir(), profile_sizes()[i as int]),
            picture_png(j.picture.unwrap().content(), profile_sizes()[i as int])->Ok_0,
        ),
{
}

/// The start menu shows the 448-pixel picture, one of the pictures saved.
pub proof fn lemma_start_menu_picture_saved()
    ensures
        profile_sizes()[9] == 448,
        exists|i: int| 0 <= i < PROFILE_SIZE_COUNT && profile_sizes()[i] == 448,
{
    assert(profile_sizes()[9] == 448);
}

/// How far the replacement still has to go: the remaining phase, then,
/// while old pictures are removed, the entries left.
pub open spec fn profile_progress(j: ProfileJob) -> (int, int, int, int) {
    match j.stage {
        ProfileStage::LoadImage => (31, 0, 0, 0),
        ProfileStage::ReadPublic => (30, 0, 0, 0),
        ProfileStage::CreateDir => (29, 0, 0, 0),
        ProfileStage::TakeDir => (28, 0, 0, 0),
        ProfileStage::ResetDir => (27, 0, 0, 0),
        ProfileStage::ListDir => (26, 0, 0, 0),
        ProfileStage::RemoveOld(k) => (25, j.old@.len() - k, 0, 0),
        ProfileStage::Save(i) => (24 - i, 0, 0, 0),
        ProfileStage::ClearKey => (13, 0, 0, 0),
        ProfileStage::SetImageValue(i) => (12 - i, 0, 0, 0),
        ProfileStage::SetStartMenuPicture => (1, 0, 0, 0),
        ProfileStage::Finished => (0, 0, 0, 0),
    }
}

/// The replacement always comes to an end: every step lowers its progress
/// measure in a well-founded order.
pub proof fn lemma_profile_progress(j: ProfileJob, e: Event, n: ProfileJob, a: Action)
    requires
        j.wf(),
        n.wf(),
        answers(j.awaiting(), e),
        profile_step(j, e, n, a),
    ensures
        lex_below(profile_progress(n), profile_progress(j)),
{
    let pn = profile_progress(n);
    let pj = profile_progress(j);
    assert(j.old@.len() == j.old.len() && n.old@.len() == n.old.len());
    match e {
        Event::Failed(_) | Event::Missing(_) => {
            assert(pj.0 > 0) by {
                match j.stage {
                    ProfileStage::Finished => assert(!answers(j.awaiting(), e)),
                    _ => {},
                }
            }
        },
        _ => {},
    }
}

/// Reading the chosen image ends the replacement with `UnknownImageFormat`
/// exactly when the file has no extension or one the `image` crate names no
/// format for; with a known extension whose bytes decode, the decoded image
/// is kept and the public profile's path is asked for; with a known
/// extension whose bytes do not decode, the replacement ends with the
/// crate's error.
pub proof fn lemma_known_images_are_decoded(j: ProfileJob, bytes: Vec<u8>, n: ProfileJob, a: Action)
    requires
        j.stage == ProfileStage::LoadImage,
        profile_step(j, Event::Contents(bytes), n, a),
    ensures
        a == Action::Finish(Err(AmectError::UnknownImageFormat)) <==> (j.extension is None || !image_extension_known(j.extension.unwrap()@)),
        j.extension is Some && image_extension_known(j.extension.unwrap()@) && decoded_image(bytes@, j.extension.unwrap()@) is Ok ==> {
            &&& n.stage == ProfileStage::ReadPublic
            &&& n.picture matches Some(p) && p.content() == decoded_image(bytes@, j.extension.unwrap()@)->Ok_0
            &&& a.captures(("powershell"@, seq!["-NoP"@, "-C"@, env_var_expression("public"@)]))
        },
        j.extension is Some && image_extension_known(j.extension.unwrap()@) && decoded_image(bytes@, j.extension.unwrap()@) is Err ==> {
            &&& n.stage == ProfileStage::Finished
            &&& a matches Action::Finish(Err(AmectError::Image(t))) && t@ == decoded_image(bytes@, j.extension.unwrap()@)->Err_0
        },
{
}

/// No picture, no old entry and no registry value is skipped: old entry
/// `k` is removed right after entry `k - 1` (or the listing, for the
/// first), the pictures are written size after size starting only once
/// every old entry is removed, the old key is cleared only after the last
/// size, the values are stored size after size after that, and the start
/// menu picture only after the last value.
pub proof fn lemma_profile_skips_nothing(j: ProfileJob, e: Event, n: ProfileJob, a: Action)
    requires
        j.wf(),
        profile_step(j, e, n, a),
        !(e is Failed),
    ensures
        n.stage matches ProfileStage::RemoveOld(k) ==> (k == 0 && j.stage == ProfileStage::ListDir)
            || (k > 0 && j.stage == ProfileStage::RemoveOld((k - 1) as usize)),
        n.stage matches ProfileStage::Save(i) ==> (i == 0 && (j.stage == ProfileStage::ListDir
            || j.stage is RemoveOld)) || (i > 0 && j.stage == ProfileStage::Save((i - 1) as usize)),
        n.stage == ProfileStage::Save(0) && j.stage == ProfileStage::ListDir ==> n.old@.len() == 0,
        n.stage == ProfileStage::Save(0) && j.stage is RemoveOld ==> j.stage->RemoveOld_0 + 1
            == j.old@.len(),
        n.stage == ProfileStage::ClearKey ==> j.stage == ProfileStage::Save(
            (PROFILE_SIZE_COUNT - 1) as usize,
        ),
        n.stage matches ProfileStage::SetImageValue(i) ==> (i == 0 && j.stage
            == ProfileStage::ClearKey) || (i > 0 && j.stage == ProfileStage::SetImageValue(
            (i - 1) as usize,
        )),
        n.stage == ProfileStage::SetStartMenuPicture ==> j.stage == ProfileStage::SetImageValue(
            (PROFILE_SIZE_COUNT - 1) as usize,
        ),
{
    assert(j.old@.len() == j.old.len() && n.old@.len() == n.old.len());
}

} // verus!
