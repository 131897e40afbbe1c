//! Building a cloud-init image.
//!
//! The image is a file system with the label that cloud-init looks for. It
//! holds the files that were given, and empty ones in place of a missing
//! `meta-data` or `user-data`. [`IsoBuild`] says what is done next; whoever
//! drives it touches the disk and reports what came of it.
use vstd::prelude::*;

use crate::number::{decimal, law_decimal_round_trip, push_decimal};
use crate::path::{file_name, file_name_of};
use crate::text::{join2, join3, opt_text, same_text, split, split_text, texts};

verus! {

/// A path in a directory.
pub open spec fn path_in(dir: Seq<char>, name: Seq<char>) -> Seq<char> {
    if dir.len() == 0 || dir.last() == '/' {
        dir + name
    } else {
        dir + seq!['/'] + name
    }
}

/// A path in a directory.
pub fn join_path(dir: &str, name: &str) -> (r: String)
    ensures
        r@ == path_in(dir@, name@),
{
    let chars = crate::text::to_chars(dir);
    let mut r = dir.to_owned();
    if chars.len() > 0 && chars[chars.len() - 1] != '/' {
        r.push('/');
    }
    r.append(name);
    assert(r@ =~= path_in(dir@, name@));
    r
}

/// What is done next, or how the build ended.
#[derive(Debug, Clone, Copy, PartialEq, Eq, Structural)]
pub enum IsoStage {
    /// Look whether the file at this position of the list exists.
    Exists { index: usize },
    /// Look whether the temporary directory exists.
    TempDirExists,
    /// Remove the temporary directory.
    RemoveTempDir,
    /// Create the temporary directory.
    CreateTempDir,
    /// Copy the file at this position into the temporary directory.
    Copy { index: usize },
    /// Write an empty `meta-data`.
    WriteMetaData,
    /// Write an empty `user-data`.
    WriteUserData,
    /// Make the image.
    MakeImage,
    /// Remove the temporary directory. Whether that succeeds does not matter.
    CleanUp,
    /// The image is there.
    Finished,
    /// There is no image.
    Failed,
}

/// What came of it.
#[derive(Debug)]
pub enum IsoReply {
    /// It is there, or it was done.
    Yes,
    /// It is not there, or it failed for this reason.
    No(String),
    /// The program that makes images could not be run, for this reason.
    NotRun(String),
}

/// An [`IsoReply`] over sequences of characters.
pub enum IsoReplyView {
    Yes,
    No(Seq<char>),
    NotRun(Seq<char>),
}

impl View for IsoReply {
    type V = IsoReplyView;

    open spec fn view(&self) -> IsoReplyView {
        match *self {
            IsoReply::Yes => IsoReplyView::Yes,
            IsoReply::No(reason) => IsoReplyView::No(reason@),
            IsoReply::NotRun(reason) => IsoReplyView::NotRun(reason@),
        }
    }
}

/// Builds a cloud-init image.
#[derive(Debug)]
pub struct IsoBuild {
    paths: Vec<String>,
    temp_dir: String,
    iso_path: String,
    stage: IsoStage,
    failure: Option<String>,
}

/// An [`IsoBuild`] over sequences.
#[verifier::ext_equal]
pub struct IsoBuildView {
    pub paths: Seq<Seq<char>>,
    pub temp_dir: Seq<char>,
    pub iso_path: Seq<char>,
    pub stage: IsoStage,
    pub failure: Option<Seq<char>>,
}

impl View for IsoBuild {
    type V = IsoBuildView;

    closed spec fn view(&self) -> IsoBuildView {
        IsoBuildView {
            paths: texts(self.paths@),
            temp_dir: self.temp_dir@,
            iso_path: self.iso_path@,
            stage: self.stage,
            failure: opt_text(self.failure),
        }
    }
}

/// Whether some path leads to a file of this name.
pub open spec fn gives(paths: Seq<Seq<char>>, name: Seq<char>) -> bool {
    exists|i: int| 0 <= i < paths.len() && file_name_of(#[trigger] paths[i]) == Some(name)
}

/// The name of the file at a path. Only paths whose names were checked are
/// asked about.
pub open spec fn base_name(path: Seq<char>) -> Seq<char> {
    match file_name_of(path) {
        Some(name) => name,
        None => path,
    }
}

impl IsoBuildView {
    /// The build at another stage.
    pub open spec fn at(self, stage: IsoStage) -> IsoBuildView {
        IsoBuildView { stage, ..self }
    }

    /// The build after a failure.
    pub open spec fn fail(self, message: Seq<char>) -> IsoBuildView {
        IsoBuildView { stage: IsoStage::Failed, failure: Some(message), ..self }
    }

    /// The build once all files are known to exist, or at the next one: its
    /// name has to be one that cloud-init knows.
    pub open spec fn check(self, index: int) -> IsoBuildView {
        if index < self.paths.len() {
            match file_name_of(self.paths[index]) {
                None => self.fail("invalid file path: "@ + self.paths[index]),
                Some(name) => if name == "user-data"@ || name == "meta-data"@ || name
                    == "network-config"@ {
                    self.at(IsoStage::Exists { index: index as usize })
                } else {
                    self.fail(
                        "unexpected cloud-init file '"@ + name
                            + "'; expected one of: meta-data, user-data, network-config"@,
                    )
                },
            }
        } else if !gives(self.paths, "user-data"@) && !gives(self.paths, "meta-data"@) {
            self.fail("cloud-init requires at least one of 'meta-data' or 'user-data'"@)
        } else {
            self.at(IsoStage::TempDirExists)
        }
    }

    /// The build at the next file to copy, or behind the last one.
    pub open spec fn copy(self, index: int) -> IsoBuildView {
        if index < self.paths.len() {
            self.at(IsoStage::Copy { index: index as usize })
        } else if !gives(self.paths, "meta-data"@) {
            self.at(IsoStage::WriteMetaData)
        } else {
            self.meta_data_done()
        }
    }

    /// The build once there is a `meta-data`.
    pub open spec fn meta_data_done(self) -> IsoBuildView {
        if !gives(self.paths, "user-data"@) {
            self.at(IsoStage::WriteUserData)
        } else {
            self.at(IsoStage::MakeImage)
        }
    }
}

/// The name of the temporary directory of the process `pid`.
pub open spec fn temp_dir_name(pid: u32) -> Seq<char> {
    "vfrust-cidata-"@ + decimal(pid as nat)
}

/// The name of the image of the process `pid`.
pub open spec fn iso_name(pid: u32) -> Seq<char> {
    "vfrust-cloud-init-"@ + decimal(pid as nat) + ".iso"@
}

/// The build before anything was done.
pub open spec fn iso_build(paths: Seq<Seq<char>>, temp: Seq<char>, pid: u32) -> IsoBuildView {
    let start = IsoBuildView {
        paths,
        temp_dir: path_in(temp, temp_dir_name(pid)),
        iso_path: path_in(temp, iso_name(pid)),
        stage: IsoStage::TempDirExists,
        failure: None,
    };
    if paths.len() == 0 {
        start.fail("cloud-init requires at least one file path"@)
    } else {
        start.check(0)
    }
}

/// The reason in a reply.
pub open spec fn reason_of(reply: IsoReplyView) -> Seq<char> {
    match reply {
        IsoReplyView::Yes => Seq::empty(),
        IsoReplyView::No(reason) => reason,
        IsoReplyView::NotRun(reason) => reason,
    }
}

/// The build after a reply.
pub open spec fn iso_step(v: IsoBuildView, reply: IsoReplyView) -> IsoBuildView {
    let yes = reply is Yes;
    let reason = reason_of(reply);
    match v.stage {
        IsoStage::Exists { index } => if yes {
            v.check(index + 1)
        } else {
            v.fail("cloud-init file does not exist: "@ + v.paths[index as int])
        },
        IsoStage::TempDirExists => if yes {
            v.at(IsoStage::RemoveTempDir)
        } else {
            v.at(IsoStage::CreateTempDir)
        },
        IsoStage::RemoveTempDir => if yes {
            v.at(IsoStage::CreateTempDir)
        } else {
            v.fail("failed to clean up temp dir: "@ + reason)
        },
        IsoStage::CreateTempDir => if yes {
            v.copy(0)
        } else {
            v.fail("failed to create temp dir: "@ + reason)
        },
        IsoStage::Copy { index } => if yes {
            v.copy(index + 1)
        } else {
            v.fail(
                "failed to copy "@ + v.paths[index as int] + " to "@ + path_in(
                    v.temp_dir,
                    base_name(v.paths[index as int]),
                ) + ": "@ + reason,
            )
        },
        IsoStage::WriteMetaData => if yes {
            v.meta_data_done()
        } else {
            v.fail("failed to create empty meta-data: "@ + reason)
        },
        IsoStage::WriteUserData => if yes {
            v.at(IsoStage::MakeImage)
        } else {
            v.fail("failed to create empty user-data: "@ + reason)
        },
        IsoStage::MakeImage => match reply {
            IsoReplyView::Yes => v.at(IsoStage::CleanUp),
            IsoReplyView::No(stderr) => IsoBuildView {
                stage: IsoStage::CleanUp,
                failure: Some("hdiutil failed: "@ + stderr),
                ..v
            },
            IsoReplyView::NotRun(e) => v.fail("failed to run hdiutil: "@ + e),
        },
        IsoStage::CleanUp => if v.failure is Some {
            v.at(IsoStage::Failed)
        } else {
            v.at(IsoStage::Finished)
        },
        IsoStage::Finished | IsoStage::Failed => v,
    }
}

/// Starts the build of a cloud-init image from the files at `paths`, with its
/// temporary files in `temp`.
pub fn generate_cloud_init_iso(paths: Vec<String>, temp: &str, pid: u32) -> (r: IsoBuild)
    ensures
        r@ == iso_build(texts(paths@), temp@, pid),
{
    let mut dir_name = "vfrust-cidata-".to_owned();
    push_decimal(&mut dir_name, pid as u64);
    let mut image_name = "vfrust-cloud-init-".to_owned();
    push_decimal(&mut image_name, pid as u64);
    image_name.append(".iso");
    let mut r = IsoBuild {
        paths,
        temp_dir: join_path(temp, dir_name.as_str()),
        iso_path: join_path(temp, image_name.as_str()),
        stage: IsoStage::TempDirExists,
        failure: None,
    };
    assert(r@.paths.len() == r.paths@.len());
    if r.paths.len() == 0 {
        r.fail("cloud-init requires at least one file path".to_owned());
    } else {
        r.check(0);
    }
    r
}

/// The paths of the files in the argument of the option: they have commas
/// between them.
pub fn cloud_init_paths(argument: &str) -> (r: Vec<String>)
    ensures
        texts(r@) == split(argument@, ','),
{
    split_text(argument, ',')
}

impl IsoBuild {
    /// The stage speaks of a file that is in the list.
    #[verifier::type_invariant]
    spec fn in_range(self) -> bool {
        match self.stage {
            IsoStage::Exists { index } | IsoStage::Copy { index } => index < self.paths@.len(),
            _ => true,
        }
    }

    /// What is done next, or how the build ended.
    pub fn stage(&self) -> (r: IsoStage)
        ensures
            r == self@.stage,
    {
        self.stage
    }

    /// The path of the file at a position of the list.
    pub fn path(&self, index: usize) -> (r: &str)
        requires
            index < self@.paths.len(),
        ensures
            r@ == self@.paths[index as int],
    {
        assert(self@.paths[index as int] == self.paths@[index as int]@);
        self.paths[index].as_str()
    }

    /// Where the file at a position of the list is copied to.
    pub fn destination(&self, index: usize) -> (r: String)
        requires
            index < self@.paths.len(),
        ensures
            r@ == path_in(self@.temp_dir, base_name(self@.paths[index as int])),
    {
        assert(self@.paths[index as int] == self.paths@[index as int]@);
        let path = self.paths[index].as_str();
        match file_name(path) {
            Some(name) => join_path(self.temp_dir.as_str(), name.as_str()),
            None => join_path(self.temp_dir.as_str(), path),
        }
    }

    /// The temporary directory.
    pub fn temp_dir(&self) -> (r: &str)
        ensures
            r@ == self@.temp_dir,
    {
        self.temp_dir.as_str()
    }

    /// The image.
    pub fn iso_path(&self) -> (r: &str)
        ensures
            r@ == self@.iso_path,
    {
        self.iso_path.as_str()
    }

    /// The message, once the build has failed.
    pub fn failure(&self) -> (r: Option<&str>)
        ensures
            self@.failure == match r {
                Some(m) => Some(m@),
                None => None,
            },
    {
        match &self.failure {
            Some(m) => Some(m.as_str()),
            None => None,
        }
    }

    /// The arguments of the program that makes images: an ISO 9660 image with
    /// the label `cidata`.
    pub fn image_arguments(&self) -> (r: Vec<String>)
        ensures
            texts(r@) == seq![
                "makehybrid"@,
                "-iso"@,
                "-joliet"@,
                "-default-volume-name"@,
                "cidata"@,
                "-o"@,
                self@.iso_path,
                self@.temp_dir,
            ],
    {
        let mut r: Vec<String> = Vec::new();
        r.push("makehybrid".to_owned());
        r.push("-iso".to_owned());
        r.push("-joliet".to_owned());
        r.push("-default-volume-name".to_owned());
        r.push("cidata".to_owned());
        r.push("-o".to_owned());
        r.push(self.iso_path.clone());
        r.push(self.temp_dir.clone());
        assert(texts(r@) =~= seq![
            "makehybrid"@,
            "-iso"@,
            "-joliet"@,
            "-default-volume-name"@,
            "cidata"@,
            "-o"@,
            self@.iso_path,
            self@.temp_dir,
        ]);
        r
    }

    fn fail(&mut self, message: String)
        ensures
            final(self)@ == old(self)@.fail(message@),
    {
        self.stage = IsoStage::Failed;
        self.failure = Some(message);
    }

    fn gives(&self, name: &str) -> (r: bool)
        ensures
            r == gives(self@.paths, name@),
    {
        let mut i: usize = 0;
        while i < self.paths.len()
            invariant
                i <= self.paths@.len(),
                self@.paths == texts(self.paths@),
                forall|j: int|
                    0 <= j < i ==> file_name_of(#[trigger] self@.paths[j]) != Some(name@),
            decreases self.paths@.len() - i,
        {
            assert(self@.paths[i as int] == self.paths@[i as int]@);
            if let Some(f) = file_name(self.paths[i].as_str()) {
                if same_text(f.as_str(), name) {
                    return true;
                }
            }
            i += 1;
        }
        false
    }

    fn check(&mut self, index: usize)
        ensures
            final(self)@ == old(self)@.check(index as int),
    {
        assert(self@.paths.len() == self.paths@.len());
        if index < self.paths.len() {
            let path = self.paths[index].as_str();
            assert(self@.paths[index as int] == path@);
            match file_name(path) {
                None => {
                    let m = join2("invalid file path: ", path);
                    self.fail(m);
                },
                Some(name) => {
                    let n = name.as_str();
                    if same_text(n, "user-data") || same_text(n, "meta-data") || same_text(
                        n,
                        "network-config",
                    ) {
                        self.stage = IsoStage::Exists { index };
                    } else {
                        self.fail(
                            join3(
                                "unexpected cloud-init file '",
                                n,
                                "'; expected one of: meta-data, user-data, network-config",
                            ),
                        );
                    }
                },
            }
        } else if !self.gives("user-data") && !self.gives("meta-data") {
            self.fail(
                "cloud-init requires at least one of 'meta-data' or 'user-data'".to_owned(),
            );
        } else {
            self.stage = IsoStage::TempDirExists;
        }
    }

    fn copy(&mut self, index: usize)
        ensures
            final(self)@ == old(self)@.copy(index as int),
    {
        assert(self@.paths.len() == self.paths@.len());
        if index < self.paths.len() {
            self.stage = IsoStage::Copy { index };
        } else if !self.gives("meta-data") {
            self.stage = IsoStage::WriteMetaData;
        } else {
            self.meta_data_done();
        }
    }

    fn meta_data_done(&mut self)
        ensures
            final(self)@ == old(self)@.meta_data_done(),
    {
        if !self.gives("user-data") {
            self.stage = IsoStage::WriteUserData;
        } else {
            self.stage = IsoStage::MakeImage;
        }
    }

    /// Takes what came of the current stage.
    pub fn advance(&mut self, reply: IsoReply)
        ensures
            final(self)@ == iso_step(old(self)@, reply@),
    {
        proof {
            use_type_invariant(&*self);
        }
        let yes = matches!(reply, IsoReply::Yes);
        let _count: usize = self.paths.len();
        match self.stage {
            IsoStage::Exists { index } => {
                if yes {
                    self.check(index + 1);
                } else {
                    assert(self@.paths[index as int] == self.paths@[index as int]@);
                    let m = join2("cloud-init file does not exist: ", self.paths[index].as_str());
                    self.fail(m);
                }
            },
            IsoStage::TempDirExists => {
                if yes {
                    self.stage = IsoStage::RemoveTempDir;
                } else {
                    self.stage = IsoStage::CreateTempDir;
                }
            },
            IsoStage::RemoveTempDir => {
                if yes {
                    self.stage = IsoStage::CreateTempDir;
                } else {
                    self.fail(reply.explain("failed to clean up temp dir: "));
                }
            },
            IsoStage::CreateTempDir => {
                if yes {
                    self.copy(0);
                } else {
                    self.fail(reply.explain("failed to create temp dir: "));
                }
            },
            IsoStage::Copy { index } => {
                if yes {
                    self.copy(index + 1);
                } else {
                    assert(self@.paths[index as int] == self.paths@[index as int]@);
                    let to = self.destination(index);
                    let mut m = join3("failed to copy ", self.paths[index].as_str(), " to ");
                    m.append(to.as_str());
                    m.append(": ");
                    let m = reply.explain(m.as_str());
                    self.fail(m);
                }
            },
            IsoStage::WriteMetaData => {
                if yes {
                    self.meta_data_done();
                } else {
                    self.fail(reply.explain("failed to create empty meta-data: "));
                }
            },
            IsoStage::WriteUserData => {
                if yes {
                    self.stage = IsoStage::MakeImage;
                } else {
                    self.fail(reply.explain("failed to create empty user-data: "));
                }
            },
            IsoStage::MakeImage => match reply {
                IsoReply::Yes => {
                    self.stage = IsoStage::CleanUp;
                },
                IsoReply::No(stderr) => {
                    self.stage = IsoStage::CleanUp;
                    self.failure = Some(join2("hdiutil failed: ", stderr.as_str()));
                },
                IsoReply::NotRun(e) => {
                    self.fail(join2("failed to run hdiutil: ", e.as_str()));
                },
            },
            IsoStage::CleanUp => {
                if self.failure.is_some() {
                    self.stage = IsoStage::Failed;
                } else {
                    self.stage = IsoStage::Finished;
                }
            },
            IsoStage::Finished => {},
            IsoStage::Failed => {},
        }
    }
}

impl IsoReply {
    fn explain(self, what: &str) -> (r: String)
        ensures
            r@ == what@ + reason_of(self@),
    {
        match self {
            IsoReply::Yes => {
                assert(what@ + Seq::empty() =~= what@);
                what.to_owned()
            },
            IsoReply::No(reason) => join2(what, reason.as_str()),
            IsoReply::NotRun(reason) => join2(what, reason.as_str()),
        }
    }
}

/// The build after several replies.
pub open spec fn iso_run(v: IsoBuildView, replies: Seq<IsoReplyView>) -> IsoBuildView
    decreases replies.len(),
{
    if replies.len() == 0 {
        v
    } else {
        iso_step(iso_run(v, replies.drop_last()), replies.last())
    }
}

/// What holds of a build at every stage: the file that is looked for or copied
/// is one of the list, a file is written only where it was not given, there is
/// data, and a build that is not over has an error only while it cleans up.
spec fn sound(v: IsoBuildView) -> bool {
    &&& v.stage matches IsoStage::Exists { index } ==> index < v.paths.len()
    &&& v.stage matches IsoStage::Copy { index } ==> index < v.paths.len()
    &&& v.stage is WriteMetaData ==> !gives(v.paths, "meta-data"@)
    &&& v.stage is WriteUserData ==> !gives(v.paths, "user-data"@)
    &&& !(v.stage is Exists || v.stage is Failed) ==> gives(v.paths, "user-data"@) || gives(
        v.paths,
        "meta-data"@,
    )
    &&& v.failure is Some ==> v.stage is CleanUp || v.stage is Failed
    &&& v.stage is Failed ==> v.failure is Some
}

/// Every build is sound, keeps its paths, and has a step less to go with every
/// reply.
proof fn lemma_run(paths: Seq<Seq<char>>, temp: Seq<char>, pid: u32, replies: Seq<IsoReplyView>)
    requires
        paths.len() <= usize::MAX,
    ensures
        ({
            let v = iso_run(iso_build(paths, temp, pid), replies);
            &&& sound(v)
            &&& v.paths == paths
            &&& v.temp_dir == path_in(temp, temp_dir_name(pid))
            &&& v.iso_path == path_in(temp, iso_name(pid))
            &&& steps_left(v) == 0 || steps_left(v) + replies.len() <= 2 * paths.len() + 8
        }),
    decreases replies.len(),
{
    if replies.len() > 0 {
        lemma_run(paths, temp, pid, replies.drop_last());
    }
}

/// The image and the temporary directory of a build are named after the
/// process, whatever happens.
pub proof fn law_build_keeps_its_paths(
    paths: Seq<Seq<char>>,
    temp: Seq<char>,
    pid: u32,
    replies: Seq<IsoReplyView>,
)
    requires
        paths.len() <= usize::MAX,
    ensures
        ({
            let v = iso_run(iso_build(paths, temp, pid), replies);
            &&& v.paths == paths
            &&& v.temp_dir == path_in(temp, temp_dir_name(pid))
            &&& v.iso_path == path_in(temp, iso_name(pid))
        }),
{
    lemma_run(paths, temp, pid, replies);
}

/// How many steps are left at most.
pub open spec fn steps_left(v: IsoBuildView) -> nat {
    let n = v.paths.len();
    match v.stage {
        IsoStage::Exists { index } => (2 * n + 8 - index) as nat,
        IsoStage::TempDirExists => n + 7,
        IsoStage::RemoveTempDir => n + 6,
        IsoStage::CreateTempDir => n + 5,
        IsoStage::Copy { index } => (n + 4 - index) as nat,
        IsoStage::WriteMetaData => 4,
        IsoStage::WriteUserData => 3,
        IsoStage::MakeImage => 2,
        IsoStage::CleanUp => 1,
        IsoStage::Finished | IsoStage::Failed => 0,
    }
}

/// A build ends after two replies for each file and eight more at the latest,
/// with an image or with a message.
pub proof fn law_build_ends(
    paths: Seq<Seq<char>>,
    temp: Seq<char>,
    pid: u32,
    replies: Seq<IsoReplyView>,
)
    requires
        paths.len() <= usize::MAX,
        replies.len() >= 2 * paths.len() + 8,
    ensures
        ({
            let v = iso_run(iso_build(paths, temp, pid), replies);
            ||| v.stage is Finished && v.failure is None
            ||| v.stage is Failed && v.failure is Some
        }),
{
    lemma_run(paths, temp, pid, replies);
}

/// Whether cloud-init knows the names of all files.
pub open spec fn names_are_known(paths: Seq<Seq<char>>) -> bool {
    forall|i: int|
        0 <= i < paths.len() ==> (file_name_of(#[trigger] paths[i]) matches Some(name) && (name
            == "user-data"@ || name == "meta-data"@ || name == "network-config"@))
}

/// Whether every reply is that it is there, or that it was done.
pub open spec fn all_yes(replies: Seq<IsoReplyView>) -> bool {
    forall|i: int| 0 <= i < replies.len() ==> (#[trigger] replies[i]) is Yes
}

/// Files with known names, a `user-data` or a `meta-data` among them, give an
/// image as long as nothing goes wrong.
pub proof fn law_good_files_give_an_image(
    paths: Seq<Seq<char>>,
    temp: Seq<char>,
    pid: u32,
    replies: Seq<IsoReplyView>,
)
    requires
        paths.len() <= usize::MAX,
        names_are_known(paths),
        gives(paths, "user-data"@) || gives(paths, "meta-data"@),
        all_yes(replies),
    ensures
        !(iso_run(iso_build(paths, temp, pid), replies).stage is Failed),
        iso_run(iso_build(paths, temp, pid), replies).failure is None,
        replies.len() >= 2 * paths.len() + 8 ==> iso_run(
            iso_build(paths, temp, pid),
            replies,
        ).stage is Finished,
    decreases replies.len(),
{
    let v = iso_run(iso_build(paths, temp, pid), replies);
    lemma_run(paths, temp, pid, replies);
    if replies.len() == 0 {
        assert(paths.len() > 0);
        assert(file_name_of(paths[0]) is Some);
    } else {
        let before = replies.drop_last();
        assert forall|i: int| 0 <= i < before.len() implies (#[trigger] before[i]) is Yes by {
            assert(before[i] == replies[i]);
        }
        law_good_files_give_an_image(paths, temp, pid, before);
        lemma_run(paths, temp, pid, before);
        assert(replies.last() is Yes);
        let m = iso_run(iso_build(paths, temp, pid), before);
        if let IsoStage::Exists { index } = m.stage {
            if index + 1 < paths.len() {
                assert(file_name_of(paths[index + 1]) is Some);
            }
        }
    }
}

/// Without a `user-data` and a `meta-data` there is no image, and nothing is
/// created, whatever the replies.
pub proof fn law_no_image_without_data(
    paths: Seq<Seq<char>>,
    temp: Seq<char>,
    pid: u32,
    replies: Seq<IsoReplyView>,
)
    requires
        paths.len() <= usize::MAX,
        !gives(paths, "user-data"@),
        !gives(paths, "meta-data"@),
    ensures
        ({
            let stage = iso_run(iso_build(paths, temp, pid), replies).stage;
            stage is Exists || stage is Failed
        }),
{
    lemma_run(paths, temp, pid, replies);
}

/// Where a file of an image comes from.
pub enum FileSource {
    /// It is a copy of the file at this position of the list.
    Given { index: int },
    /// It is empty.
    Empty,
}

/// The copies of the first `n` files, by name. A file takes the place of an
/// earlier one of the same name.
pub open spec fn copies_of(paths: Seq<Seq<char>>, n: int) -> Map<Seq<char>, FileSource>
    decreases n,
{
    if n <= 0 {
        Map::empty()
    } else {
        copies_of(paths, n - 1).insert(
            base_name(paths[n - 1]),
            FileSource::Given { index: n - 1 },
        )
    }
}

/// The files of a directory, with an empty one of this name where none was
/// given.
pub open spec fn or_empty(
    files: Map<Seq<char>, FileSource>,
    paths: Seq<Seq<char>>,
    name: Seq<char>,
) -> Map<Seq<char>, FileSource> {
    if gives(paths, name) {
        files
    } else {
        files.insert(name, FileSource::Empty)
    }
}

/// The files that go into an image, by name.
pub open spec fn image_contents(paths: Seq<Seq<char>>) -> Map<Seq<char>, FileSource> {
    or_empty(
        or_empty(copies_of(paths, paths.len() as int), paths, "meta-data"@),
        paths,
        "user-data"@,
    )
}

/// The files in the temporary directory after several replies: it is empty
/// once it was created, and gets the files that are copied and written.
pub open spec fn temp_contents(v: IsoBuildView, replies: Seq<IsoReplyView>) -> Map<
    Seq<char>,
    FileSource,
>
    decreases replies.len(),
{
    if replies.len() == 0 {
        Map::empty()
    } else {
        let before = temp_contents(v, replies.drop_last());
        let m = iso_run(v, replies.drop_last());
        if !(replies.last() is Yes) {
            before
        } else {
            match m.stage {
                IsoStage::CreateTempDir => Map::empty(),
                IsoStage::Copy { index } => before.insert(
                    base_name(m.paths[index as int]),
                    FileSource::Given { index: index as int },
                ),
                IsoStage::WriteMetaData => before.insert("meta-data"@, FileSource::Empty),
                IsoStage::WriteUserData => before.insert("user-data"@, FileSource::Empty),
                _ => before,
            }
        }
    }
}

/// What the temporary directory has to hold at a stage.
spec fn wanted_contents(v: IsoBuildView) -> Option<Map<Seq<char>, FileSource>> {
    let all = copies_of(v.paths, v.paths.len() as int);
    match v.stage {
        IsoStage::Copy { index } => Some(copies_of(v.paths, index as int)),
        IsoStage::WriteMetaData => Some(all),
        IsoStage::WriteUserData => Some(or_empty(all, v.paths, "meta-data"@)),
        IsoStage::MakeImage => Some(image_contents(v.paths)),
        _ => None,
    }
}

/// The copy of a name is the last file of that name among the first `n`, and
/// there is one exactly where there is such a file.
proof fn lemma_copies(paths: Seq<Seq<char>>, n: int, name: Seq<char>)
    requires
        0 <= n <= paths.len(),
    ensures
        copies_of(paths, n).contains_key(name) <==> exists|i: int|
            0 <= i < n && base_name(#[trigger] paths[i]) == name,
        copies_of(paths, n).contains_key(name) ==> (copies_of(paths, n)[name] matches
            FileSource::Given { index } && is_last_of_name(paths, n, index, name)),
    decreases n,
{
    if n > 0 {
        lemma_copies(paths, n - 1, name);
        if base_name(paths[n - 1]) == name {
            assert(is_last_of_name(paths, n, n - 1, name));
        }
    }
}

/// Whether the file at a position is the last one of a name among the first
/// `n`.
pub open spec fn is_last_of_name(
    paths: Seq<Seq<char>>,
    n: int,
    index: int,
    name: Seq<char>,
) -> bool {
    &&& 0 <= index < n
    &&& base_name(paths[index]) == name
    &&& forall|j: int| index < j < n ==> base_name(#[trigger] paths[j]) != name
}

/// When the image is made, the temporary directory holds exactly the files
/// that were given and an empty one for each that is missing.
pub proof fn law_image_contents(
    paths: Seq<Seq<char>>,
    temp: Seq<char>,
    pid: u32,
    replies: Seq<IsoReplyView>,
)
    requires
        paths.len() <= usize::MAX,
        iso_run(iso_build(paths, temp, pid), replies).stage is MakeImage,
    ensures
        temp_contents(iso_build(paths, temp, pid), replies) == image_contents(paths),
{
    lemma_contents(paths, temp, pid, replies);
    lemma_run(paths, temp, pid, replies);
}

/// Of several files of one name the last one is in the image. What is empty is
/// a `meta-data` or a `user-data` that was not given, and there is nothing
/// else.
pub proof fn law_last_file_of_a_name_counts(paths: Seq<Seq<char>>, name: Seq<char>)
    requires
        names_are_known(paths),
    ensures
        image_contents(paths).contains_key(name) <==> gives(paths, name) || name == "meta-data"@
            || name == "user-data"@,
        image_contents(paths).contains_key(name) ==> match image_contents(paths)[name] {
            FileSource::Given { index } => gives(paths, name) && is_last_of_name(
                paths,
                paths.len() as int,
                index,
                name,
            ),
            FileSource::Empty => !gives(paths, name),
        },
{
    lemma_copies(paths, paths.len() as int, name);
    assert forall|i: int| 0 <= i < paths.len() implies base_name(#[trigger] paths[i]) == name
        <==> file_name_of(paths[i]) == Some(name) by {
        assert(file_name_of(paths[i]) is Some);
    }
    if gives(paths, name) {
        let i = choose|i: int|
            0 <= i < paths.len() && file_name_of(#[trigger] paths[i]) == Some(name);
        assert(base_name(paths[i]) == name);
    }
}

proof fn lemma_contents(
    paths: Seq<Seq<char>>,
    temp: Seq<char>,
    pid: u32,
    replies: Seq<IsoReplyView>,
)
    requires
        paths.len() <= usize::MAX,
    ensures
        ({
            let v = iso_build(paths, temp, pid);
            wanted_contents(iso_run(v, replies)) matches Some(wanted) ==> temp_contents(v, replies)
                == wanted
        }),
    decreases replies.len(),
{
    if replies.len() > 0 {
        let v = iso_build(paths, temp, pid);
        let before = replies.drop_last();
        lemma_contents(paths, temp, pid, before);
        lemma_run(paths, temp, pid, before);
        lemma_run(paths, temp, pid, replies);
        let n = iso_run(v, replies);
        if let Some(wanted) = wanted_contents(n) {
            assert(temp_contents(v, replies) =~= wanted);
        }
    }
}

/// Whatever files were given, the image holds a `meta-data` and a
/// `user-data`.
pub proof fn law_image_is_complete(paths: Seq<Seq<char>>)
    ensures
        image_contents(paths).contains_key("meta-data"@),
        image_contents(paths).contains_key("user-data"@),
{
    let n = paths.len() as int;
    lemma_copies(paths, n, "meta-data"@);
    lemma_copies(paths, n, "user-data"@);
    if gives(paths, "meta-data"@) {
        let i = choose|i: int|
            0 <= i < n && file_name_of(#[trigger] paths[i]) == Some("meta-data"@);
        assert(base_name(paths[i]) == "meta-data"@);
    }
    if gives(paths, "user-data"@) {
        let i = choose|i: int|
            0 <= i < n && file_name_of(#[trigger] paths[i]) == Some("user-data"@);
        assert(base_name(paths[i]) == "user-data"@);
    }
}

/// A file whose name cloud-init does not know keeps the image from being made,
/// and anything from being created, wherever it stands in the list and
/// whatever the replies.
pub proof fn law_unknown_names_give_no_image(
    paths: Seq<Seq<char>>,
    temp: Seq<char>,
    pid: u32,
    replies: Seq<IsoReplyView>,
    i: int,
)
    requires
        paths.len() <= usize::MAX,
        0 <= i < paths.len(),
        file_name_of(paths[i]) != Some("user-data"@),
        file_name_of(paths[i]) != Some("meta-data"@),
        file_name_of(paths[i]) != Some("network-config"@),
    ensures
        ({
            let stage = iso_run(iso_build(paths, temp, pid), replies).stage;
            stage is Failed || (stage matches IsoStage::Exists { index } && index < i)
        }),
    decreases replies.len(),
{
    if replies.len() > 0 {
        law_unknown_names_give_no_image(paths, temp, pid, replies.drop_last(), i);
        lemma_run(paths, temp, pid, replies.drop_last());
    }
}

proof fn lemma_failure_stays(v: IsoBuildView, replies: Seq<IsoReplyView>, k: int)
    requires
        0 <= k <= replies.len(),
        iso_run(v, replies.take(k)).failure is Some,
    ensures
        iso_run(v, replies).failure is Some,
    decreases replies.len(),
{
    if k == replies.len() {
        assert(replies.take(k) =~= replies);
    } else {
        assert(replies.drop_last().take(k) =~= replies.take(k));
        lemma_failure_stays(v, replies.drop_last(), k);
    }
}

/// An image is made only where every step was done: every file was there, the
/// temporary directory was created, every file was copied or written and the
/// program succeeded. Only that there is no temporary directory yet, and that
/// it could not be removed in the end, does not matter.
pub proof fn law_images_need_every_step(
    paths: Seq<Seq<char>>,
    temp: Seq<char>,
    pid: u32,
    replies: Seq<IsoReplyView>,
    k: int,
)
    requires
        paths.len() <= usize::MAX,
        0 <= k < replies.len(),
        iso_run(iso_build(paths, temp, pid), replies).stage is Finished,
    ensures
        ({
            let stage = iso_run(iso_build(paths, temp, pid), replies.take(k)).stage;
            replies[k] is Yes || stage is TempDirExists || stage is CleanUp || stage is Finished
        }),
{
    let v = iso_build(paths, temp, pid);
    let m = iso_run(v, replies.take(k));
    lemma_run(paths, temp, pid, replies);
    lemma_run(paths, temp, pid, replies.take(k));
    assert(replies.take(k + 1).drop_last() =~= replies.take(k));
    assert(replies.take(k + 1).last() == replies[k]);
    let n = iso_run(v, replies.take(k + 1));
    assert(n == iso_step(m, replies[k]));
    if m.stage is Failed {
        lemma_failure_stays(v, replies, k);
    } else if !(replies[k] is Yes) && !(m.stage is TempDirExists) && !(m.stage is CleanUp) && !(
    m.stage is Finished) {
        assert(n.failure is Some);
        lemma_failure_stays(v, replies, k + 1);
    }
}

/// What is left of an earlier build is removed before the temporary directory
/// is created, and the directory is removed after the program has run, whether
/// or not it made an image.
pub proof fn law_temporary_directory(v: IsoBuildView, reason: Seq<char>)
    ensures
        v.stage is TempDirExists ==> iso_step(v, IsoReplyView::Yes).stage is RemoveTempDir
            && iso_step(v, IsoReplyView::No(reason)).stage is CreateTempDir,
        v.stage is RemoveTempDir ==> iso_step(v, IsoReplyView::Yes).stage is CreateTempDir
            && iso_step(v, IsoReplyView::No(reason)).stage is Failed,
        v.stage is MakeImage ==> iso_step(v, IsoReplyView::Yes).stage is CleanUp && iso_step(
            v,
            IsoReplyView::Yes,
        ).failure == v.failure,
        v.stage is MakeImage ==> iso_step(v, IsoReplyView::No(reason)).stage is CleanUp
            && iso_step(v, IsoReplyView::No(reason)).failure is Some,
        v.stage is CleanUp ==> (iso_step(v, IsoReplyView::No(reason)).stage is Finished
            <==> v.failure is None),
        v.stage is CleanUp ==> iso_step(v, IsoReplyView::No(reason)) == iso_step(
            v,
            IsoReplyView::Yes,
        ),
{
}

/// Different processes have different temporary directories and images.
pub proof fn law_builds_of_processes_do_not_meet(a: u32, b: u32)
    requires
        a != b,
    ensures
        temp_dir_name(a) != temp_dir_name(b),
        iso_name(a) != iso_name(b),
{
    law_decimal_round_trip(a as nat, u32::MAX as nat);
    law_decimal_round_trip(b as nat, u32::MAX as nat);
    if temp_dir_name(a) == temp_dir_name(b) {
        let n = "vfrust-cidata-"@.len() as int;
        assert(temp_dir_name(a).skip(n) =~= decimal(a as nat));
        assert(temp_dir_name(b).skip(n) =~= decimal(b as nat));
    }
    if iso_name(a) == iso_name(b) {
        let n = "vfrust-cloud-init-"@.len() as int;
        let end = iso_name(a).len() - ".iso"@.len();
        assert(iso_name(a).subrange(n, end) =~= decimal(a as nat));
        assert(iso_name(b).subrange(n, end) =~= decimal(b as nat));
    }
}

} // verus!
