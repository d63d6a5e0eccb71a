//! Replacing the lock screen image: the steps, one at a time.
use vstd::prelude::*;

use crate::command::{owned, texts, CommandLine};
use crate::error::AmectError;
use crate::job::{answers, listing_view, Action, Awaiting, DirEntry, Event};
use crate::registry::{Hive, RegistryEdit};
use crate::text::{char_vec, concat2, substring};
use crate::winutils::{env_var_command, env_var_expression, env_var_of, parse_env_var};

verus! {

/// Key under `HKEY_LOCAL_MACHINE` that holds the rotating lock screen setting of `sid`.
pub open spec fn creative_key(sid: Seq<char>) -> Seq<char> {
    "SOFTWARE\\Microsoft\\Windows\\CurrentVersion\\Authentication\\LogonUI\\Creative\\"@ + sid
}

/// Key under `HKEY_USERS` that holds the content delivery settings of `sid`.
pub open spec fn content_delivery_key(sid: Seq<char>) -> Seq<char> {
    sid + "\\SOFTWARE\\Microsoft\\Windows\\CurrentVersion\\ContentDeliveryManager"@
}

/// The value that switches the rotating ("spotlight") lock screen.
pub open spec fn rotating_value() -> Seq<char> {
    "RotatingLockScreenEnabled"@
}

/// Number of stock lock screen images that are replaced.
pub const STOCK_IMAGE_COUNT: usize = 3;

/// File name of stock image `i`.
pub open spec fn stock_image_name(i: int) -> Seq<char> {
    if i == 0 {
        "img100.jpg"@
    } else if i == 1 {
        "img103.png"@
    } else {
        "img0.jpg"@
    }
}

/// Path of stock image `i` under the Windows directory `windir`.
pub open spec fn stock_image_path(windir: Seq<char>, i: int) -> Seq<char> {
    windir + "\\Web\\Screen\\"@ + stock_image_name(i)
}

/// The directory of cached system data under `programdata`.
pub open spec fn system_data_dir(programdata: Seq<char>) -> Seq<char> {
    programdata + "\\Microsoft\\Windows\\SystemData"@
}

/// The `ReadOnly` directory inside `dir`.
pub open spec fn read_only_dir(dir: Seq<char>) -> Seq<char> {
    dir + "\\ReadOnly"@
}

/// `takeown` of one file.
pub open spec fn take_file_command(path: Seq<char>) -> (Seq<char>, Seq<Seq<char>>) {
    ("takeown"@, seq!["/f"@, path])
}

/// `icacls` resetting the permissions of `path`.
pub open spec fn reset_command(path: Seq<char>) -> (Seq<char>, Seq<Seq<char>>) {
    ("icacls"@, seq![path, "/reset"@])
}

/// `takeown` of a directory tree, answering yes to its questions.
pub open spec fn take_tree_command(path: Seq<char>) -> (Seq<char>, Seq<Seq<char>>) {
    ("takeown"@, seq!["/r"@, "/d"@, "y"@, "/f"@, path])
}

/// Whether `c` separates the components of a Windows path.
pub open spec fn is_path_separator(c: char) -> bool {
    c == '\\' || c == '/'
}

/// Start of the path component that ends at `j`: the index just after the
/// last separator before `j`, or zero.
pub open spec fn component_start(p: Seq<char>, j: int) -> int
    decreases j,
{
    if j <= 0 || j > p.len() {
        0
    } else if is_path_separator(p[j - 1]) {
        j
    } else {
        component_start(p, j - 1)
    }
}

/// The file name of the path `p`: its last component, everything after its
/// last separator.
pub open spec fn file_name(p: Seq<char>) -> Seq<char> {
    p.subrange(component_start(p, p.len() as int), p.len() as int)
}

/// A cached lock screen: a directory whose file name starts with `LockScreen_`.
pub open spec fn is_lockscreen_cache(e: (Seq<char>, bool)) -> bool {
    e.1 && "LockScreen_"@.is_prefix_of(file_name(e.0))
}

/// `component_start` lies between zero and `j`, and only a separator stands
/// right before it.
pub proof fn lemma_component_start(p: Seq<char>, j: int)
    requires
        0 <= j <= p.len(),
    ensures
        0 <= component_start(p, j) <= j,
        forall|k: int| component_start(p, j) <= k < j ==> !is_path_separator(#[trigger] p[k]),
        component_start(p, j) > 0 ==> is_path_separator(p[component_start(p, j) - 1]),
    decreases j,
{
    if j > 0 && !is_path_separator(p[j - 1]) {
        lemma_component_start(p, j - 1);
    }
}

/// First index at or after `i` of an entry that is a directory (the length if none).
pub open spec fn next_dir(es: Seq<(Seq<char>, bool)>, i: int) -> int
    decreases es.len() - i,
{
    if i < 0 || i >= es.len() {
        es.len() as int
    } else if es[i].1 {
        i
    } else {
        next_dir(es, i + 1)
    }
}

/// First index at or after `i` of a cached lock screen (the length if none).
pub open spec fn next_cache(es: Seq<(Seq<char>, bool)>, i: int) -> int
    decreases es.len() - i,
{
    if i < 0 || i >= es.len() {
        es.len() as int
    } else if is_lockscreen_cache(es[i]) {
        i
    } else {
        next_cache(es, i + 1)
    }
}

/// What `next_dir` finds is a directory, and it lies between `i` and the end.
pub proof fn lemma_next_dir(es: Seq<(Seq<char>, bool)>, i: int)
    requires
        0 <= i,
    ensures
        next_dir(es, i) <= es.len(),
        next_dir(es, i) < es.len() ==> i <= next_dir(es, i) && es[next_dir(es, i)].1,
        forall|k: int| i <= k < next_dir(es, i) ==> !(#[trigger] es[k]).1,
    decreases es.len() - i,
{
    if i < es.len() && !es[i].1 {
        lemma_next_dir(es, i + 1);
    }
}

/// What `next_cache` finds is a cached lock screen, and it lies between `i` and the end.
pub proof fn lemma_next_cache(es: Seq<(Seq<char>, bool)>, i: int)
    requires
        0 <= i,
    ensures
        next_cache(es, i) <= es.len(),
        next_cache(es, i) < es.len() ==> i <= next_cache(es, i) && is_lockscreen_cache(
            es[next_cache(es, i)],
        ),
        forall|k: int| i <= k < next_cache(es, i) ==> !is_lockscreen_cache(#[trigger] es[k]),
    decreases es.len() - i,
{
    if i < es.len() && !is_lockscreen_cache(es[i]) {
        lemma_next_cache(es, i + 1);
    }
}

/// Where the lock screen replacement stands.
#[derive(Clone, Copy, Debug, PartialEq, Eq)]
pub enum LockscreenStage {
    /// Switching off the rotating lock screen of the machine.
    Creative,
    /// Switching off the rotating lock screen of the user.
    ContentDelivery,
    /// Reading `windir`.
    Windir,
    /// Reading `programdata`.
    ProgramData,
    /// Taking ownership of stock image `i`.
    TakeImage(usize),
    /// Resetting the permissions of stock image `i`.
    ResetImage(usize),
    /// Copying the new image over stock image `i`.
    CopyImage(usize),
    /// Taking ownership of the system data directory.
    TakeData,
    /// Resetting the permissions of the system data directory.
    ResetData,
    /// Listing the system data directory.
    ListData,
    /// Listing the `ReadOnly` directory of system data entry `j`.
    ListReadOnly(usize),
    /// Removing cached lock screen `k` of the `ReadOnly` directory of entry `j`.
    RemoveCache(usize, usize),
    /// Over.
    Finished,
}

/// The replacement of the lock screen image of the account `sid`.
pub struct LockscreenJob {
    pub sid: String,
    pub windir: String,
    pub programdata: String,
    pub stage: LockscreenStage,
    /// Entries of the system data directory, once listed.
    pub outer: Vec<DirEntry>,
    /// Entries of the `ReadOnly` directory being cleaned, once listed.
    pub inner: Vec<DirEntry>,
}

impl LockscreenJob {
    /// The listings as text.
    pub open spec fn outer_view(self) -> Seq<(Seq<char>, bool)> {
        listing_view(self.outer@)
    }

    pub open spec fn inner_view(self) -> Seq<(Seq<char>, bool)> {
        listing_view(self.inner@)
    }

    /// The stage's indices point at what they name.
    pub open spec fn wf(self) -> bool {
        match self.stage {
            LockscreenStage::TakeImage(i) => i < STOCK_IMAGE_COUNT,
            LockscreenStage::ResetImage(i) => i < STOCK_IMAGE_COUNT,
            LockscreenStage::CopyImage(i) => i < STOCK_IMAGE_COUNT,
            LockscreenStage::ListReadOnly(j) => j < self.outer@.len() && self.outer@[j as int].is_dir,
            LockscreenStage::RemoveCache(j, k) => j < self.outer@.len() && self.outer@[j as int].is_dir
                && k < self.inner@.len() && is_lockscreen_cache(self.inner_view()[k as int]),
            _ => true,
        }
    }

    /// The kind of answer the job waits for.
    pub open spec fn awaiting(self) -> Awaiting {
        match self.stage {
            LockscreenStage::Creative => Awaiting::Completion,
            LockscreenStage::ContentDelivery => Awaiting::Completion,
            LockscreenStage::CopyImage(_) => Awaiting::Completion,
            LockscreenStage::RemoveCache(..) => Awaiting::Completion,
            LockscreenStage::Windir => Awaiting::Output,
            LockscreenStage::ProgramData => Awaiting::Output,
            LockscreenStage::TakeImage(_) => Awaiting::Exit,
            LockscreenStage::ResetImage(_) => Awaiting::Exit,
            LockscreenStage::TakeData => Awaiting::Exit,
            LockscreenStage::ResetData => Awaiting::Exit,
            LockscreenStage::ListData => Awaiting::Listing,
            LockscreenStage::ListReadOnly(_) => Awaiting::Listing,
            LockscreenStage::Finished => Awaiting::Nothing,
        }
    }

    /// The kind of answer the job waits for.
    pub fn waits_for(&self) -> (w: Awaiting)
        ensures
            w == self.awaiting(),
    {
        match self.stage {
            LockscreenStage::Creative => Awaiting::Completion,
            LockscreenStage::ContentDelivery => Awaiting::Completion,
            LockscreenStage::CopyImage(_) => Awaiting::Completion,
            LockscreenStage::RemoveCache(..) => Awaiting::Completion,
            LockscreenStage::Windir => Awaiting::Output,
            LockscreenStage::ProgramData => Awaiting::Output,
            LockscreenStage::TakeImage(_) => Awaiting::Exit,
            LockscreenStage::ResetImage(_) => Awaiting::Exit,
            LockscreenStage::TakeData => Awaiting::Exit,
            LockscreenStage::ResetData => Awaiting::Exit,
            LockscreenStage::ListData => Awaiting::Listing,
            LockscreenStage::ListReadOnly(_) => Awaiting::Listing,
            LockscreenStage::Finished => Awaiting::Nothing,
        }
    }
}

/// After the `ReadOnly` directory of entry `from - 1` of the listing
/// `outer` is done: list that of the next directory entry at or after
/// `from`, or finish.
pub open spec fn moves_to_outer(outer: Seq<DirEntry>, from: int, n: LockscreenJob, a: Action) -> bool {
    let next = next_dir(listing_view(outer), from);
    &&& n.outer@ == outer
    &&& if next < outer.len() {
        &&& n.stage == LockscreenStage::ListReadOnly(next as usize)
        &&& a.lists(read_only_dir(outer[next].path@))
    } else {
        &&& n.stage == LockscreenStage::Finished
        &&& a.finishes_ok()
    }
}

/// After cached lock screen `from - 1` of the `ReadOnly` directory of entry
/// `o` is removed (or its listing came in, `from == 0`): remove the next
/// cached lock screen, or move on to the next directory entry.
pub open spec fn moves_to_cache(outer: Seq<DirEntry>, o: int, from: int, n: LockscreenJob, a: Action) -> bool {
    let next = next_cache(n.inner_view(), from);
    if next < n.inner@.len() {
        &&& n.outer@ == outer
        &&& n.stage == LockscreenStage::RemoveCache(o as usize, next as usize)
        &&& a.removes_dir(n.inner@[next].path@)
    } else {
        moves_to_outer(outer, o + 1, n, a)
    }
}

/// One step of the lock screen replacement: from `j`, on the answer `e`, the
/// job becomes `n` and asks for `a`.
pub open spec fn lockscreen_step(j: LockscreenJob, e: Event, n: LockscreenJob, a: Action) -> bool {
    &&& n.sid@ == j.sid@
    &&& !(j.stage == LockscreenStage::Windir && e is Output) ==> n.windir@ == j.windir@
    &&& !(j.stage == LockscreenStage::ProgramData && e is Output) ==> n.programdata@
        == j.programdata@
    &&& !(j.stage == LockscreenStage::ListData && e is Listing) ==> n.outer@ == j.outer@
    &&& !(j.stage is ListReadOnly && e is Listing) ==> n.inner@ == j.inner@
    &&& match e {
        Event::Failed(m) => n.stage == LockscreenStage::Finished && a.finishes_with_failure(m@),
        Event::Missing(m) => n.stage == LockscreenStage::Finished && a.finishes_with_failure(m@),
        _ => match j.stage {
            LockscreenStage::Creative => {
                &&& n.stage == LockscreenStage::ContentDelivery
                &&& a.sets_dword(Hive::Users, content_delivery_key(j.sid@), rotating_value(), 0)
            },
            LockscreenStage::ContentDelivery => {
                &&& n.stage == LockscreenStage::Windir
                &&& a.captures(("powershell"@, seq!["-NoP"@, "-C"@, env_var_expression("windir"@)]))
            },
            LockscreenStage::Windir => match e {
                Event::Output(b) => match env_var_of(b@) {
                    Ok(w) => {
                        &&& n.windir@ == w
                        &&& n.stage == LockscreenStage::ProgramData
                        &&& a.captures(
                            ("powershell"@, seq!["-NoP"@, "-C"@, env_var_expression("programdata"@)]),
                        )
                    },
                    Err(m) => n.stage == LockscreenStage::Finished && a.finishes_not_utf8(m),
                },
                _ => false,
            },
            LockscreenStage::ProgramData => match e {
                Event::Output(b) => match env_var_of(b@) {
                    Ok(p) => {
                        &&& n.windir@ == j.windir@
                        &&& n.programdata@ == p
                        &&& n.stage == LockscreenStage::TakeImage(0)
                        &&& a.runs(take_file_command(stock_image_path(j.windir@, 0)))
                    },
                    Err(m) => n.stage == LockscreenStage::Finished && a.finishes_not_utf8(m),
                },
                _ => false,
            },
            LockscreenStage::TakeImage(i) => match e {
                Event::Exited { success, .. } => if success {
                    &&& n.windir@ == j.windir@
                    &&& n.programdata@ == j.programdata@
                    &&& n.stage == LockscreenStage::ResetImage(i)
                    &&& a.runs(reset_command(stock_image_path(j.windir@, i as int)))
                } else {
                    n.stage == LockscreenStage::Finished && a.finishes_with(
                        AmectError::ImageOwnership,
                    )
                },
                _ => false,
            },
            LockscreenStage::ResetImage(i) => match e {
                Event::Exited { success, .. } => if success {
                    &&& n.windir@ == j.windir@
                    &&& n.programdata@ == j.programdata@
                    &&& n.stage == LockscreenStage::CopyImage(i)
                    &&& a.copies_image_to(stock_image_path(j.windir@, i as int))
                } else {
                    n.stage == LockscreenStage::Finished && a.finishes_with(
                        AmectError::ImageOwnership,
                    )
                },
                _ => false,
            },
            LockscreenStage::CopyImage(i) => {
                &&& n.windir@ == j.windir@
                &&& n.programdata@ == j.programdata@
                &&& if i + 1 < STOCK_IMAGE_COUNT {
                    &&& n.stage == LockscreenStage::TakeImage((i + 1) as usize)
                    &&& a.runs(take_file_command(stock_image_path(j.windir@, i + 1)))
                } else {
                    &&& n.stage == LockscreenStage::TakeData
                    &&& a.runs(take_tree_command(system_data_dir(j.programdata@)))
                }
            },
            LockscreenStage::TakeData => match e {
                Event::Exited { success, .. } => if success {
                    &&& n.programdata@ == j.programdata@
                    &&& n.stage == LockscreenStage::ResetData
                    &&& a.runs(reset_command(system_data_dir(j.programdata@)))
                } else {
                    n.stage == LockscreenStage::Finished && a.finishes_with(
                        AmectError::DirectoryOwnership,
                    )
                },
                _ => false,
            },
            LockscreenStage::ResetData => match e {
                Event::Exited { success, .. } => if success {
                    &&& n.stage == LockscreenStage::ListData
                    &&& a.lists(system_data_dir(j.programdata@))
                } else {
                    n.stage == LockscreenStage::Finished && a.finishes_with(
                        AmectError::DirectoryOwnership,
                    )
                },
                _ => false,
            },
            LockscreenStage::ListData => match e {
                Event::Listing(es) => moves_to_outer(es@, 0, n, a),
                _ => false,
            },
            LockscreenStage::ListReadOnly(o) => match e {
                Event::Listing(es) => {
                    &&& n.inner@ == es@
                    &&& moves_to_cache(j.outer@, o as int, 0, n, a)
                },
                _ => false,
            },
            LockscreenStage::RemoveCache(o, k) => {
                &&& n.inner@ == j.inner@
                &&& moves_to_cache(j.outer@, o as int, k + 1, n, a)
            },
            LockscreenStage::Finished => false,
        },
    }
}

/// The stock image name `i` as a string.
fn stock_image_name_string(i: usize) -> (r: &'static str)
    requires
        i < STOCK_IMAGE_COUNT,
    ensures
        r@ == stock_image_name(i as int),
{
    if i == 0 {
        "img100.jpg"
    } else if i == 1 {
        "img103.png"
    } else {
        "img0.jpg"
    }
}

/// Path of stock image `i` under `windir`.
pub fn stock_image_path_string(windir: &str, i: usize) -> (r: String)
    requires
        i < STOCK_IMAGE_COUNT,
    ensures
        r@ == stock_image_path(windir@, i as int),
{
    let mut s = String::from_str(windir);
    s.append("\\Web\\Screen\\");
    s.append(stock_image_name_string(i));
    s
}

/// The system data directory under `programdata`.
pub fn system_data_dir_string(programdata: &str) -> (r: String)
    ensures
        r@ == system_data_dir(programdata@),
{
    concat2(programdata, "\\Microsoft\\Windows\\SystemData")
}

/// `takeown /f path`.
pub fn take_file(path: &str) -> (c: CommandLine)
    ensures
        c@ == take_file_command(path@),
{
    let c = CommandLine { program: owned("takeown"), args: vec![owned("/f"), owned(path)] };
    assert(texts(c.args@) =~= take_file_command(path@).1);
    c
}

/// `takeown /r /d y /f path`.
pub fn take_tree(path: &str) -> (c: CommandLine)
    ensures
        c@ == take_tree_command(path@),
{
    let c = CommandLine {
        program: owned("takeown"),
        args: vec![owned("/r"), owned("/d"), owned("y"), owned("/f"), owned(path)],
    };
    assert(texts(c.args@) =~= take_tree_command(path@).1);
    c
}

/// `icacls path /reset`.
pub fn reset_permissions(path: &str) -> (c: CommandLine)
    ensures
        c@ == reset_command(path@),
{
    let c = CommandLine { program: owned("icacls"), args: vec![owned(path), owned("/reset")] };
    assert(texts(c.args@) =~= reset_command(path@).1);
    c
}

/// Start of the file name of the path whose characters are `v`.
fn file_name_start(v: &Vec<char>) -> (k: usize)
    ensures
        k as int == component_start(v@, v@.len() as int),
        k <= v@.len(),
{
    let mut j: usize = v.len();
    while j > 0 && v[j - 1] != '\\' && v[j - 1] != '/'
        invariant
            j <= v@.len(),
            component_start(v@, j as int) == component_start(v@, v@.len() as int),
        decreases j,
    {
        j = j - 1;
    }
    j
}

/// Whether a listed entry is a cached lock screen.
pub fn is_lockscreen_cache_entry(e: &DirEntry) -> (r: bool)
    ensures
        r == is_lockscreen_cache((e.path@, e.is_dir)),
{
    if !e.is_dir {
        return false;
    }
    let prefix = "LockScreen_";
    proof {
        reveal_strlit("LockScreen_");
    }
    let v = char_vec(e.path.as_str());
    let k = file_name_start(&v);
    let n = v.len();
    proof {
        lemma_component_start(v@, n as int);
    }
    let ghost name = file_name(e.path@);
    assert(name == e.path@.subrange(k as int, n as int));
    if n - k < 11 {
        return false;
    }
    let head = substring(e.path.as_str(), k, k + 11);
    let r = head == String::from_str(prefix);
    proof {
        assert(name.subrange(0, 11) =~= e.path@.subrange(k as int, k + 11));
        if r {
            assert(name.subrange(0, 11) == "LockScreen_"@);
        } else {
            assert(name.subrange(0, 11) != "LockScreen_"@);
        }
    }
    r
}

impl LockscreenJob {
    /// The first step of replacing the lock screen image of the account
    /// `sid`: switch off the rotating lock screen of the machine.
    pub fn start(sid: &str) -> (r: (LockscreenJob, Action))
        ensures
            r.0.sid@ == sid@,
            r.0.stage == LockscreenStage::Creative,
            r.0.wf(),
            r.1.sets_dword(Hive::LocalMachine, creative_key(sid@), rotating_value(), 0),
    {
        let job = LockscreenJob {
            sid: owned(sid),
            windir: String::new(),
            programdata: String::new(),
            stage: LockscreenStage::Creative,
            outer: Vec::new(),
            inner: Vec::new(),
        };
        let key = concat2(
            "SOFTWARE\\Microsoft\\Windows\\CurrentVersion\\Authentication\\LogonUI\\Creative\\",
            sid,
        );
        (
            job,
            Action::Edit(
                RegistryEdit::SetDword {
                    hive: Hive::LocalMachine,
                    key,
                    name: owned("RotatingLockScreenEnabled"),
                    value: 0,
                },
            ),
        )
    }
}

/// First index at or after `from` of a directory entry.
fn next_dir_index(es: &Vec<DirEntry>, from: usize) -> (r: usize)
    ensures
        r as int == next_dir(listing_view(es@), from as int),
        r <= es@.len(),
{
    let mut i = from;
    if i > es.len() {
        i = es.len();
    }
    while i < es.len() && !es[i].is_dir
        invariant
            from <= i || i == es@.len(),
            i <= es@.len(),
            next_dir(listing_view(es@), i as int) == next_dir(listing_view(es@), from as int),
        decreases es@.len() - i,
    {
        i = i + 1;
    }
    i
}

/// First index at or after `from` of a cached lock screen.
fn next_cache_index(es: &Vec<DirEntry>, from: usize) -> (r: usize)
    ensures
        r as int == next_cache(listing_view(es@), from as int),
        r <= es@.len(),
{
    let mut i = from;
    if i > es.len() {
        i = es.len();
    }
    while i < es.len() && !is_lockscreen_cache_entry(&es[i])
        invariant
            from <= i || i == es@.len(),
            i <= es@.len(),
            next_cache(listing_view(es@), i as int) == next_cache(listing_view(es@), from as int),
        decreases es@.len() - i,
    {
        i = i + 1;
    }
    i
}

impl LockscreenJob {
    /// Lists the `ReadOnly` directory of the next directory entry at or
    /// after `from`, or finishes.
    fn advance_outer(&mut self, from: usize) -> (a: Action)
        ensures
            moves_to_outer(old(self).outer@, from as int, *final(self), a),
            final(self).sid == old(self).sid,
            final(self).windir == old(self).windir,
            final(self).programdata == old(self).programdata,
            final(self).inner == old(self).inner,
            final(self).wf(),
    {
        let next = next_dir_index(&self.outer, from);
        proof {
            lemma_next_dir(listing_view(self.outer@), from as int);
        }
        if next < self.outer.len() {
            self.stage = LockscreenStage::ListReadOnly(next);
            Action::ListDir { path: concat2(self.outer[next].path.as_str(), "\\ReadOnly") }
        } else {
            self.stage = LockscreenStage::Finished;
            Action::Finish(Ok(()))
        }
    }

    /// Removes the next cached lock screen at or after `from` in the
    /// `ReadOnly` listing of entry `o`, or moves on to the next entry.
    fn advance_cache(&mut self, o: usize, from: usize) -> (a: Action)
        requires
            o < old(self).outer@.len(),
            old(self).outer@[o as int].is_dir,
        ensures
            moves_to_cache(old(self).outer@, o as int, from as int, *final(self), a),
            final(self).inner == old(self).inner,
            final(self).sid == old(self).sid,
            final(self).windir == old(self).windir,
            final(self).programdata == old(self).programdata,
            final(self).wf(),
    {
        let next = next_cache_index(&self.inner, from);
        proof {
            lemma_next_cache(listing_view(self.inner@), from as int);
        }
        if next < self.inner.len() {
            self.stage = LockscreenStage::RemoveCache(o, next);
            Action::RemoveDirAll { path: self.inner[next].path.clone() }
        } else {
            let count = self.outer.len();
            assert(o < count);
            self.advance_outer(o + 1)
        }
    }

    /// The next step, given the answer to the previous one.
    pub fn step(&mut self, event: Event) -> (a: Action)
        requires
            old(self).wf(),
            answers(old(self).awaiting(), event),
        ensures
            final(self).wf(),
            lockscreen_step(*old(self), event, *final(self), a),
    {
        if let Event::Failed(m) = event {
            self.stage = LockscreenStage::Finished;
            return Action::Finish(Err(AmectError::Io(m)));
        }
        if let Event::Missing(m) = event {
            self.stage = LockscreenStage::Finished;
            return Action::Finish(Err(AmectError::Io(m)));
        }
        match self.stage {
            LockscreenStage::Creative => {
                self.stage = LockscreenStage::ContentDelivery;
                Action::Edit(
                    RegistryEdit::SetDword {
                        hive: Hive::Users,
                        key: concat2(
                            self.sid.as_str(),
                            "\\SOFTWARE\\Microsoft\\Windows\\CurrentVersion\\ContentDeliveryManager",
                        ),
                        name: owned("RotatingLockScreenEnabled"),
                        value: 0,
                    },
                )
            },
            LockscreenStage::ContentDelivery => {
                self.stage = LockscreenStage::Windir;
                Action::Capture(env_var_command("windir"))
            },
            LockscreenStage::Windir => {
                if let Event::Output(b) = event {
                    match parse_env_var(b.as_slice()) {
                        Ok(w) => {
                            self.windir = w;
                            self.stage = LockscreenStage::ProgramData;
                            Action::Capture(env_var_command("programdata"))
                        },
                        Err(err) => {
                            self.stage = LockscreenStage::Finished;
                            Action::Finish(Err(err))
                        },
                    }
                } else {
                    self.stage = LockscreenStage::Finished;
                    Action::Finish(Ok(()))
                }
            },
            LockscreenStage::ProgramData => {
                if let Event::Output(b) = event {
                    match parse_env_var(b.as_slice()) {
                        Ok(p) => {
                            self.programdata = p;
                            self.stage = LockscreenStage::TakeImage(0);
                            Action::Run(take_file(stock_image_path_string(self.windir.as_str(), 0).as_str()))
                        },
                        Err(err) => {
                            self.stage = LockscreenStage::Finished;
                            Action::Finish(Err(err))
                        },
                    }
                } else {
                    self.stage = LockscreenStage::Finished;
                    Action::Finish(Ok(()))
                }
            },
            LockscreenStage::TakeImage(i) => {
                if let Event::Exited { success, .. } = event {
                    if success {
                        self.stage = LockscreenStage::ResetImage(i);
                        Action::Run(reset_permissions(stock_image_path_string(self.windir.as_str(), i).as_str()))
                    } else {
                        self.stage = LockscreenStage::Finished;
                        Action::Finish(Err(AmectError::ImageOwnership))
                    }
                } else {
                    self.stage = LockscreenStage::Finished;
                    Action::Finish(Ok(()))
                }
            },
            LockscreenStage::ResetImage(i) => {
                if let Event::Exited { success, .. } = event {
                    if success {
                        self.stage = LockscreenStage::CopyImage(i);
                        Action::CopySourceImage { to: stock_image_path_string(self.windir.as_str(), i) }
                    } else {
                        self.stage = LockscreenStage::Finished;
                        Action::Finish(Err(AmectError::ImageOwnership))
                    }
                } else {
                    self.stage = LockscreenStage::Finished;
                    Action::Finish(Ok(()))
                }
            },
            LockscreenStage::CopyImage(i) => {
                if i + 1 < STOCK_IMAGE_COUNT {
                    self.stage = LockscreenStage::TakeImage(i + 1);
                    Action::Run(take_file(stock_image_path_string(self.windir.as_str(), i + 1).as_str()))
                } else {
                    self.stage = LockscreenStage::TakeData;
                    Action::Run(take_tree(system_data_dir_string(self.programdata.as_str()).as_str()))
                }
            },
            LockscreenStage::TakeData => {
                if let Event::Exited { success, .. } = event {
                    if success {
                        self.stage = LockscreenStage::ResetData;
                        Action::Run(reset_permissions(system_data_dir_string(self.programdata.as_str()).as_str()))
                    } else {
                        self.stage = LockscreenStage::Finished;
                        Action::Finish(Err(AmectError::DirectoryOwnership))
                    }
                } else {
                    self.stage = LockscreenStage::Finished;
                    Action::Finish(Ok(()))
                }
            },
            LockscreenStage::ResetData => {
                if let Event::Exited { success, .. } = event {
                    if success {
                        self.stage = LockscreenStage::ListData;
                        Action::ListDir { path: system_data_dir_string(self.programdata.as_str()) }
                    } else {
                        self.stage = LockscreenStage::Finished;
                        Action::Finish(Err(AmectError::DirectoryOwnership))
                    }
                } else {
                    self.stage = LockscreenStage::Finished;
                    Action::Finish(Ok(()))
                }
            },
            LockscreenStage::ListData => {
                if let Event::Listing(es) = event {
                    self.outer = es;
                    self.advance_outer(0)
                } else {
                    self.stage = LockscreenStage::Finished;
                    Action::Finish(Ok(()))
                }
            },
            LockscreenStage::ListReadOnly(o) => {
                if let Event::Listing(es) = event {
                    self.inner = es;
                    self.advance_cache(o, 0)
                } else {
                    self.stage = LockscreenStage::Finished;
                    Action::Finish(Ok(()))
                }
            },
            LockscreenStage::RemoveCache(o, k) => {
                let count = self.inner.len();
                assert(k < count);
                self.advance_cache(o, k + 1)
            },
            LockscreenStage::Finished => Action::Finish(Ok(())),
        }
    }
}

/// The chosen image is only copied over a stock image, and only right
/// after resetting that image's permissions succeeded.
pub proof fn lemma_copy_after_reset(j: LockscreenJob, e: Event, n: LockscreenJob, a: Action)
    requires
        j.wf(),
        lockscreen_step(j, e, n, a),
        a is CopySourceImage,
    ensures
        j.stage is ResetImage,
        e matches Event::Exited { success, .. } && success,
        a.copies_image_to(stock_image_path(j.windir@, j.stage->ResetImage_0 as int)),
        n.stage == LockscreenStage::CopyImage(j.stage->ResetImage_0),
{
    match e {
        Event::Failed(_) => {},
        _ => {
            match j.stage {
                LockscreenStage::ListData => {
                    lemma_next_dir(listing_view(n.outer@), 0);
                },
                LockscreenStage::ListReadOnly(o) => {
                    lemma_next_cache(n.inner_view(), 0);
                    lemma_next_dir(listing_view(j.outer@), o + 1);
                },
                LockscreenStage::RemoveCache(o, k) => {
                    lemma_next_cache(n.inner_view(), k + 1);
                    lemma_next_dir(listing_view(j.outer@), o + 1);
                },
                _ => {},
            }
        },
    }
}

/// Permissions of a stock image are only reset right after taking
/// ownership of that same image succeeded.
pub proof fn lemma_reset_after_take(j: LockscreenJob, e: Event, n: LockscreenJob, a: Action)
    requires
        j.wf(),
        lockscreen_step(j, e, n, a),
        n.stage is ResetImage,
    ensures
        j.stage == LockscreenStage::TakeImage(n.stage->ResetImage_0),
        e matches Event::Exited { success, .. } && success,
        a.runs(reset_command(stock_image_path(j.windir@, n.stage->ResetImage_0 as int))),
{
    match e {
        Event::Failed(_) => {},
        _ => {
            match j.stage {
                LockscreenStage::ListData => {
                    lemma_next_dir(listing_view(n.outer@), 0);
                },
                LockscreenStage::ListReadOnly(o) => {
                    lemma_next_cache(n.inner_view(), 0);
                    lemma_next_dir(listing_view(j.outer@), o + 1);
                },
                LockscreenStage::RemoveCache(o, k) => {
                    lemma_next_cache(n.inner_view(), k + 1);
                    lemma_next_dir(listing_view(j.outer@), o + 1);
                },
                _ => {},
            }
        },
    }
}

/// Only cached lock screens are removed: directories of the last
/// `ReadOnly` listing whose file name starts with `LockScreen_`.
pub proof fn lemma_removes_only_caches(j: LockscreenJob, e: Event, n: LockscreenJob, a: Action)
    requires
        j.wf(),
        lockscreen_step(j, e, n, a),
        a is RemoveDirAll,
    ensures
        n.stage is RemoveCache,
        a.removes_dir(n.inner@[n.stage->RemoveCache_1 as int].path@),
        n.inner@[n.stage->RemoveCache_1 as int].is_dir,
        "LockScreen_"@.is_prefix_of(file_name(a->RemoveDirAll_path@)),
{
    match e {
        Event::Failed(_) => {},
        _ => {
            match j.stage {
                LockscreenStage::ListData => {
                    lemma_next_dir(listing_view(n.outer@), 0);
                },
                LockscreenStage::ListReadOnly(o) => {
                    lemma_next_cache(n.inner_view(), 0);
                    lemma_next_dir(listing_view(j.outer@), o + 1);
                },
                LockscreenStage::RemoveCache(o, k) => {
                    lemma_next_cache(n.inner_view(), k + 1);
                    lemma_next_dir(listing_view(j.outer@), o + 1);
                },
                _ => {},
            }
            assert(n.inner@.len() == n.inner.len());
            let k = n.stage->RemoveCache_1 as int;
            assert(n.inner_view()[k] == (n.inner@[k].path@, n.inner@[k].is_dir));
        },
    }
}

/// A failure reported by the system ends the replacement with that failure.
pub proof fn lemma_failure_ends(j: LockscreenJob, m: String, n: LockscreenJob, a: Action)
    requires
        lockscreen_step(j, Event::Failed(m), n, a),
    ensures
        n.stage == LockscreenStage::Finished,
        a.finishes_with_failure(m@),
        n.awaiting() == Awaiting::Nothing,
{
}

/// How far the replacement still has to go: the remaining phase, then,
/// while caches are cleaned, the directory entries left, whether the
/// current `ReadOnly` directory is still to be listed, and its entries left.
pub open spec fn lockscreen_progress(j: LockscreenJob) -> (int, int, int, int) {
    match j.stage {
        LockscreenStage::Creative => (20, 0, 0, 0),
        LockscreenStage::ContentDelivery => (19, 0, 0, 0),
        LockscreenStage::Windir => (18, 0, 0, 0),
        LockscreenStage::ProgramData => (17, 0, 0, 0),
        LockscreenStage::TakeImage(i) => (16 - 3 * i, 0, 0, 0),
        LockscreenStage::ResetImage(i) => (15 - 3 * i, 0, 0, 0),
        LockscreenStage::CopyImage(i) => (14 - 3 * i, 0, 0, 0),
        LockscreenStage::TakeData => (7, 0, 0, 0),
        LockscreenStage::ResetData => (6, 0, 0, 0),
        LockscreenStage::ListData => (5, 0, 0, 0),
        LockscreenStage::ListReadOnly(o) => (4, j.outer@.len() - o, 1, 0),
        LockscreenStage::RemoveCache(o, k) => (4, j.outer@.len() - o, 0, j.inner@.len() - k),
        LockscreenStage::Finished => (0, 0, 0, 0),
    }
}

/// `a` comes before `b` in lexicographic order, all components bounded below by zero.
pub open spec fn lex_below(a: (int, int, int, int), b: (int, int, int, int)) -> bool {
    &&& 0 <= a.0 && 0 <= a.1 && 0 <= a.2 && 0 <= a.3
    &&& {
        ||| a.0 < b.0
        ||| a.0 == b.0 && a.1 < b.1
        ||| a.0 == b.0 && a.1 == b.1 && a.2 < b.2
        ||| a.0 == b.0 && a.1 == b.1 && a.2 == b.2 && a.3 < b.3
    }
}

/// The replacement always comes to an end: every step lowers its progress
/// measure in a well-founded order.
pub proof fn lemma_lockscreen_progress(j: LockscreenJob, e: Event, n: LockscreenJob, a: Action)
    requires
        j.wf(),
        n.wf(),
        answers(j.awaiting(), e),
        lockscreen_step(j, e, n, a),
    ensures
        lex_below(lockscreen_progress(n), lockscreen_progress(j)),
{
    let pn = lockscreen_progress(n);
    let pj = lockscreen_progress(j);
    assert(j.outer@.len() == j.outer.len() && n.outer@.len() == n.outer.len());
    assert(j.inner@.len() == j.inner.len() && n.inner@.len() == n.inner.len());
    match e {
        Event::Failed(_) => {
            assert(pj.0 > 0) by {
                match j.stage {
                    LockscreenStage::Finished => assert(!answers(j.awaiting(), e)),
                    _ => {},
                }
            }
        },
        _ => {
            match j.stage {
                LockscreenStage::ListData => {
                    lemma_next_dir(listing_view(n.outer@), 0);
                },
                LockscreenStage::ListReadOnly(o) => {
                    lemma_next_cache(n.inner_view(), 0);
                    lemma_next_dir(listing_view(j.outer@), o + 1);
                },
                LockscreenStage::RemoveCache(o, k) => {
                    lemma_next_cache(n.inner_view(), k + 1);
                    lemma_next_dir(listing_view(j.outer@), o + 1);
                },
                _ => {},
            }
        },
    }
}

/// The index into the system data listing of the directory whose
/// `ReadOnly` folder is being cleaned.
pub open spec fn outer_index(st: LockscreenStage) -> int {
    match st {
        LockscreenStage::ListReadOnly(o) => o as int,
        LockscreenStage::RemoveCache(o, _) => o as int,
        _ => -1,
    }
}

/// Where the search for the next cached lock screen of the `ReadOnly`
/// folder being cleaned starts after a step from `st`.
pub open spec fn cache_search_start(st: LockscreenStage) -> int {
    match st {
        LockscreenStage::RemoveCache(_, k) => k + 1,
        _ => 0,
    }
}

/// Once the system data directory is listed, the `ReadOnly` folder of its
/// first directory entry is listed next; with no directory entry at all,
/// the replacement is over.
pub proof fn lemma_lockscreen_lists_first_directory(
    j: LockscreenJob,
    es: Vec<DirEntry>,
    n: LockscreenJob,
    a: Action,
)
    requires
        j.stage == LockscreenStage::ListData,
        lockscreen_step(j, Event::Listing(es), n, a),
    ensures
        n.outer@ == es@,
        (exists|k: int| 0 <= k < es@.len() && (#[trigger] es@[k]).is_dir) ==> {
            &&& n.stage is ListReadOnly
            &&& {
                let k = n.stage->ListReadOnly_0 as int;
                &&& 0 <= k < es@.len()
                &&& es@[k].is_dir
                &&& forall|i: int| 0 <= i < k ==> !(#[trigger] es@[i]).is_dir
                &&& a.lists(read_only_dir(es@[k].path@))
            }
        },
        (forall|k: int| 0 <= k < es@.len() ==> !(#[trigger] es@[k]).is_dir) ==> n.stage
            == LockscreenStage::Finished && a.finishes_ok(),
{
    let v = listing_view(es@);
    lemma_next_dir(v, 0);
    assert(v.len() == es@.len());
    assert forall|i: int| 0 <= i < es@.len() implies v[i].1 == (#[trigger] es@[i]).is_dir by {}
    if exists|k: int| 0 <= k < es@.len() && (#[trigger] es@[k]).is_dir {
        let k = choose|k: int| 0 <= k < es@.len() && (#[trigger] es@[k]).is_dir;
        assert(v[k].1);
        assert(next_dir(v, 0) <= k);
        assert(es@.len() == es.len());
        let f = next_dir(v, 0);
        assert(n.stage == LockscreenStage::ListReadOnly(f as usize));
        assert forall|i: int| 0 <= i < f implies !(#[trigger] es@[i]).is_dir by {
            assert(!v[i].1);
        }
    }
}

/// While the caches are cleaned, no directory entry and no cached lock
/// screen is skipped: a step from the `ReadOnly` folder of entry `o`
/// either removes the first cached lock screen at or after where the
/// search resumes, or (when there is none) lists the `ReadOnly` folder of
/// the next directory entry after `o`, or, only when no directory entry
/// follows `o`, ends the replacement successfully.
pub proof fn lemma_lockscreen_visits_every_directory(
    j: LockscreenJob,
    e: Event,
    n: LockscreenJob,
    a: Action,
)
    requires
        j.wf(),
        j.stage is ListReadOnly || j.stage is RemoveCache,
        lockscreen_step(j, e, n, a),
        !(e is Failed),
        !(e is Missing),
    ensures
        n.outer@ == j.outer@,
        ({
            let o = outer_index(j.stage);
            let from = cache_search_start(j.stage);
            let out = j.outer@;
            let inner = n.inner@;
            &&& n.stage is RemoveCache ==> {
                let k = n.stage->RemoveCache_1 as int;
                &&& n.stage->RemoveCache_0 == o
                &&& from <= k < inner.len()
                &&& is_lockscreen_cache((inner[k].path@, inner[k].is_dir))
                &&& forall|i: int| from <= i < k ==> !is_lockscreen_cache(
                    ((#[trigger] inner[i]).path@, inner[i].is_dir),
                )
                &&& a.removes_dir(inner[k].path@)
            }
            &&& !(n.stage is RemoveCache) ==> forall|i: int| from <= i < inner.len()
                ==> !is_lockscreen_cache(((#[trigger] inner[i]).path@, inner[i].is_dir))
            &&& n.stage is ListReadOnly ==> {
                let o2 = n.stage->ListReadOnly_0 as int;
                &&& o < o2 < out.len()
                &&& out[o2].is_dir
                &&& forall|i: int| o < i < o2 ==> !(#[trigger] out[i]).is_dir
                &&& a.lists(read_only_dir(out[o2].path@))
            }
            &&& n.stage == LockscreenStage::Finished ==> a.finishes_ok() && forall|i: int|
                o < i < out.len() ==> !(#[trigger] out[i]).is_dir
            &&& (n.stage is RemoveCache || n.stage is ListReadOnly || n.stage
                == LockscreenStage::Finished)
        }),
{
    let o = outer_index(j.stage);
    let from = cache_search_start(j.stage);
    let ov = listing_view(j.outer@);
    let iv = n.inner_view();
    lemma_next_dir(ov, o + 1);
    lemma_next_cache(iv, from);
    assert(ov.len() == j.outer@.len());
    assert(iv.len() == n.inner@.len());
    assert forall|i: int| 0 <= i < j.outer@.len() implies ov[i].1 == (#[trigger] j.outer@[i]).is_dir by {}
    assert forall|i: int| 0 <= i < n.inner@.len() implies iv[i] == ((#[trigger] n.inner@[i]).path@, n.inner@[i].is_dir) by {}
    assert(j.outer@.len() == j.outer.len());
    assert(n.inner@.len() == n.inner.len());
}

/// Each of the three stock images is taken over, reset and overwritten in
/// turn, and none is skipped: image `i` is taken right after image `i - 1`
/// was copied (or, for the first, right after `programdata` was read), its
/// permissions are reset right after it was taken, it is copied right
/// after the reset, and the system data directory is taken over only after
/// the last image was copied. The images copied over are
/// `Web\Screen\img100.jpg`, `Web\Screen\img103.png` and
/// `Web\Screen\img0.jpg` under `windir`, in that order.
pub proof fn lemma_lockscreen_replaces_every_stock_image(j: LockscreenJob, e: Event, n: LockscreenJob, a: Action)
    requires
        j.wf(),
        lockscreen_step(j, e, n, a),
        !(e is Failed),
        !(e is Missing),
    ensures
        n.stage matches LockscreenStage::TakeImage(i) ==> (i == 0 && j.stage
            == LockscreenStage::ProgramData) || (i > 0 && j.stage == LockscreenStage::CopyImage(
            (i - 1) as usize,
        )),
        n.stage matches LockscreenStage::ResetImage(i) ==> j.stage == LockscreenStage::TakeImage(i),
        n.stage matches LockscreenStage::CopyImage(i) ==> j.stage == LockscreenStage::ResetImage(i),
        n.stage == LockscreenStage::TakeData ==> j.stage == LockscreenStage::CopyImage(
            (STOCK_IMAGE_COUNT - 1) as usize,
        ),
        n.stage == LockscreenStage::CopyImage(0) ==> a.copies_image_to(
            j.windir@ + "\\Web\\Screen\\img100.jpg"@,
        ),
        n.stage == LockscreenStage::CopyImage(1) ==> a.copies_image_to(
            j.windir@ + "\\Web\\Screen\\img103.png"@,
        ),
        n.stage == LockscreenStage::CopyImage(2) ==> a.copies_image_to(
            j.windir@ + "\\Web\\Screen\\img0.jpg"@,
        ),
{
    reveal_strlit("\\Web\\Screen\\");
    reveal_strlit("img100.jpg");
    reveal_strlit("img103.png");
    reveal_strlit("img0.jpg");
    reveal_strlit("\\Web\\Screen\\img100.jpg");
    reveal_strlit("\\Web\\Screen\\img103.png");
    reveal_strlit("\\Web\\Screen\\img0.jpg");
    assert("\\Web\\Screen\\"@ + "img100.jpg"@ =~= "\\Web\\Screen\\img100.jpg"@);
    assert("\\Web\\Screen\\"@ + "img103.png"@ =~= "\\Web\\Screen\\img103.png"@);
    assert("\\Web\\Screen\\"@ + "img0.jpg"@ =~= "\\Web\\Screen\\img0.jpg"@);
    let w = j.windir@;
    assert(w + "\\Web\\Screen\\"@ + "img100.jpg"@ =~= w + "\\Web\\Screen\\img100.jpg"@);
    assert(w + "\\Web\\Screen\\"@ + "img103.png"@ =~= w + "\\Web\\Screen\\img103.png"@);
    assert(w + "\\Web\\Screen\\"@ + "img0.jpg"@ =~= w + "\\Web\\Screen\\img0.jpg"@);
    match j.stage {
        LockscreenStage::ListData => {
            lemma_next_dir(listing_view(n.outer@), 0);
        },
        LockscreenStage::ListReadOnly(o) => {
            lemma_next_cache(n.inner_view(), 0);
            lemma_next_dir(listing_view(j.outer@), o + 1);
        },
        LockscreenStage::RemoveCache(o, k) => {
            lemma_next_cache(n.inner_view(), k + 1);
            lemma_next_dir(listing_view(j.outer@), o + 1);
        },
        _ => {},
    }
}

} // verus!
