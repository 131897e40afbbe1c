//! Building a Virtio block device.
use vstd::prelude::*;
use vstd::string::*;

use crate::config::device::storage::{
    DiskBackend, DiskCachingMode, DiskSyncMode, VirtioBlk, VirtioBlkView,
};
use crate::error::{outcome, Error, ErrorView};
use crate::number::{decimal, push_decimal};
use crate::text::{byte_len, byte_length, contains_char, join2, opt_text};

verus! {

/// Whether a text can be the identifier of a block device: at most 20 ASCII
/// bytes.
pub open spec fn is_block_device_id(id: Seq<char>) -> bool {
    vstd::utf8::is_ascii_chars(id) && id.len() <= 20
}

/// The error for a text that cannot be an identifier.
pub open spec fn block_device_id_error(id: Seq<char>) -> ErrorView {
    ErrorView::InvalidDevice(
        "block device identifier must be at most 20 ASCII bytes, got "@ + decimal(byte_len(id))
            + " bytes"@,
    )
}

/// Checks the identifier of a block device.
pub fn validate_block_device_id(id: &str) -> (r: Result<(), Error>)
    ensures
        outcome(r) == if is_block_device_id(id@) {
            Ok::<(), ErrorView>(())
        } else {
            Err(block_device_id_error(id@))
        },
{
    proof {
        if vstd::utf8::is_ascii_chars(id@) {
            vstd::utf8::is_ascii_chars_encode_utf8(id@);
        }
    }
    if !id.is_ascii() || byte_length(id) > 20 {
        let mut m = "block device identifier must be at most 20 ASCII bytes, got ".to_owned();
        push_decimal(&mut m, byte_length(id) as u64);
        m.append(" bytes");
        return Err(Error::InvalidDevice(m));
    }
    Ok(())
}

/// The part of a file's mode that says what kind of file it is.
pub const FILE_TYPE_MASK: i32 = 0xF000;

/// The kind of a block device.
pub const BLOCK_DEVICE_TYPE: i32 = 0x6000;

/// What is done next for a block device, or how that ended.
#[derive(Debug, Clone, Copy, PartialEq, Eq, Structural)]
pub enum BlkStage {
    /// Create an attachment for the disk image.
    AttachImage { read_only: bool, caching: DiskCachingMode, sync: DiskSyncMode },
    /// Ask for the mode of the file.
    Stat,
    /// Open the device.
    Open { read_only: bool },
    /// Create a fully synchronised attachment for the open device. The
    /// attachment owns the descriptor from here on.
    AttachDevice { fd: i32, read_only: bool },
    /// Create the device and give it its identifier.
    Identify,
    /// Create the device without an identifier.
    Finish,
    /// There is no device.
    Failed,
}

/// Builds a block device.
#[derive(Debug)]
pub struct BlkSetup {
    path: String,
    read_only: bool,
    device_id: Option<String>,
    stage: BlkStage,
    failure: Option<Error>,
}

/// A [`BlkSetup`] over sequences of characters.
pub struct BlkSetupView {
    pub path: Seq<char>,
    pub read_only: bool,
    pub device_id: Option<Seq<char>>,
    pub stage: BlkStage,
    pub failure: Option<ErrorView>,
}

impl View for BlkSetup {
    type V = BlkSetupView;

    closed spec fn view(&self) -> BlkSetupView {
        BlkSetupView {
            path: self.path@,
            read_only: self.read_only,
            device_id: opt_text(self.device_id),
            stage: self.stage,
            failure: match self.failure {
                Some(e) => Some(e@),
                None => None,
            },
        }
    }
}

impl BlkSetupView {
    /// The setup after a failure.
    pub open spec fn fail(self, error: ErrorView) -> BlkSetupView {
        BlkSetupView { stage: BlkStage::Failed, failure: Some(error), ..self }
    }

    /// The setup at another stage.
    pub open spec fn at(self, stage: BlkStage) -> BlkSetupView {
        BlkSetupView { stage, ..self }
    }

    /// The setup once there is an attachment.
    pub open spec fn attached(self) -> BlkSetupView {
        match self.device_id {
            Some(id) => if is_block_device_id(id) {
                self.at(BlkStage::Identify)
            } else {
                self.fail(block_device_id_error(id))
            },
            None => self.at(BlkStage::Finish),
        }
    }
}

/// The first thing to do for a block device.
pub open spec fn blk_setup(blk: VirtioBlkView) -> BlkSetupView {
    let start = BlkSetupView {
        path: blk.path,
        read_only: blk.read_only,
        device_id: blk.device_id,
        stage: BlkStage::Stat,
        failure: None,
    };
    match blk.backend {
        DiskBackend::Image => start.at(
            BlkStage::AttachImage {
                read_only: blk.read_only,
                caching: blk.caching_mode,
                sync: blk.sync_mode,
            },
        ),
        DiskBackend::BlockDevice => if blk.path.contains('\0') {
            start.fail(ErrorView::InvalidDevice("block device path contains null bytes"@))
        } else {
            start
        },
    }
}

/// What the system answered: a value (a mode, a descriptor, or nothing of
/// interest), or the text of an error.
pub open spec fn blk_step(v: BlkSetupView, answer: Result<i32, Seq<char>>) -> BlkSetupView {
    match v.stage {
        BlkStage::AttachImage { .. } => match answer {
            Ok(_) => v.attached(),
            Err(e) => v.fail(ErrorView::InvalidDevice("virtio-blk attachment: "@ + e)),
        },
        BlkStage::Stat => match answer {
            Ok(mode) => if mode & FILE_TYPE_MASK != BLOCK_DEVICE_TYPE {
                v.fail(ErrorView::InvalidDevice("path is not a block device: "@ + v.path))
            } else {
                v.at(BlkStage::Open { read_only: v.read_only })
            },
            Err(e) => v.fail(ErrorView::InvalidDevice("cannot stat block device path: "@ + e)),
        },
        BlkStage::Open { read_only } => match answer {
            Ok(fd) => v.at(BlkStage::AttachDevice { fd, read_only }),
            Err(e) => v.fail(ErrorView::InvalidDevice("cannot open block device: "@ + e)),
        },
        BlkStage::AttachDevice { .. } => match answer {
            Ok(_) => v.attached(),
            Err(e) => v.fail(ErrorView::InvalidDevice("block device attachment: "@ + e)),
        },
        BlkStage::Identify | BlkStage::Finish | BlkStage::Failed => v,
    }
}

/// The text of an answer.
pub open spec fn answer_text(answer: Result<i32, String>) -> Result<i32, Seq<char>> {
    match answer {
        Ok(n) => Ok(n),
        Err(e) => Err(e@),
    }
}

impl BlkSetup {
    /// Starts the setup of a block device.
    pub fn begin(blk: &VirtioBlk) -> (r: Self)
        ensures
            r@ == blk_setup(blk@),
    {
        let mut r = BlkSetup {
            path: blk.path.as_str().to_owned(),
            read_only: blk.read_only,
            device_id: match &blk.device_id {
                Some(id) => Some(id.as_str().to_owned()),
                None => None,
            },
            stage: BlkStage::Stat,
            failure: None,
        };
        match blk.backend {
            DiskBackend::Image => {
                r.stage = BlkStage::AttachImage {
                    read_only: blk.read_only,
                    caching: blk.caching_mode,
                    sync: blk.sync_mode,
                };
            },
            DiskBackend::BlockDevice => {
                if contains_char(blk.path.as_str(), '\0') {
                    r.fail("block device path contains null bytes".to_owned());
                }
            },
        }
        r
    }

    /// What is done next, or how the setup ended.
    pub fn stage(&self) -> (r: BlkStage)
        ensures
            r == self@.stage,
    {
        self.stage
    }

    /// The identifier of the device.
    pub fn device_id(&self) -> (r: Option<&str>)
        ensures
            self@.device_id == match r {
                Some(id) => Some(id@),
                None => None,
            },
    {
        match &self.device_id {
            Some(id) => Some(id.as_str()),
            None => None,
        }
    }

    /// The error, once the setup has failed.
    pub fn into_failure(self) -> (r: Option<Error>)
        ensures
            self@.failure == match r {
                Some(e) => Some(e@),
                None => None,
            },
    {
        self.failure
    }

    fn fail(&mut self, message: String)
        ensures
            final(self)@ == old(self)@.fail(ErrorView::InvalidDevice(message@)),
    {
        self.stage = BlkStage::Failed;
        self.failure = Some(Error::InvalidDevice(message));
    }

    fn attached(&mut self)
        ensures
            final(self)@ == old(self)@.attached(),
    {
        let check = match &self.device_id {
            Some(id) => {
                let valid = validate_block_device_id(id.as_str());
                match valid {
                    Ok(_) => {
                        self.stage = BlkStage::Identify;
                        return;
                    },
                    Err(e) => e,
                }
            },
            None => {
                self.stage = BlkStage::Finish;
                return;
            },
        };
        self.stage = BlkStage::Failed;
        self.failure = Some(check);
    }

    /// Takes the answer to what the current stage asked for.
    pub fn advance(&mut self, answer: Result<i32, String>)
        ensures
            final(self)@ == blk_step(old(self)@, answer_text(answer)),
    {
        match self.stage {
            BlkStage::AttachImage { read_only: _, caching: _, sync: _ } => match answer {
                Ok(_) => self.attached(),
                Err(e) => self.fail(join2("virtio-blk attachment: ", e.as_str())),
            },
            BlkStage::Stat => match answer {
                Ok(mode) => if mode & FILE_TYPE_MASK != BLOCK_DEVICE_TYPE {
                    let m = join2("path is not a block device: ", self.path.as_str());
                    self.fail(m);
                } else {
                    self.stage = BlkStage::Open { read_only: self.read_only };
                },
                Err(e) => self.fail(join2("cannot stat block device path: ", e.as_str())),
            },
            BlkStage::Open { read_only } => match answer {
                Ok(fd) => {
                    self.stage = BlkStage::AttachDevice { fd, read_only };
                },
                Err(e) => self.fail(join2("cannot open block device: ", e.as_str())),
            },
            BlkStage::AttachDevice { fd: _, read_only: _ } => match answer {
                Ok(_) => self.attached(),
                Err(e) => self.fail(join2("block device attachment: ", e.as_str())),
            },
            BlkStage::Identify => {},
            BlkStage::Finish => {},
            BlkStage::Failed => {},
        }
    }
}

/// The setup after several answers.
pub open spec fn blk_run(v: BlkSetupView, answers: Seq<Result<i32, Seq<char>>>) -> BlkSetupView
    decreases answers.len(),
{
    if answers.len() == 0 {
        v
    } else {
        blk_step(blk_run(v, answers.drop_last()), answers.last())
    }
}

/// How many answers are needed at most.
pub open spec fn answers_left(stage: BlkStage) -> nat {
    match stage {
        BlkStage::Stat => 3,
        BlkStage::Open { .. } => 2,
        BlkStage::AttachImage { .. } | BlkStage::AttachDevice { .. } => 1,
        BlkStage::Identify | BlkStage::Finish | BlkStage::Failed => 0,
    }
}

/// A setup ends after three answers at the latest. The device that it ends
/// with has the identifier that was asked for, which is a valid one, or none
/// where none was asked for; otherwise there is an error.
pub proof fn law_setup_of_a_block_device_ends(
    blk: VirtioBlkView,
    answers: Seq<Result<i32, Seq<char>>>,
)
    ensures
        ({
            let n = blk_run(blk_setup(blk), answers);
            &&& answers_left(n.stage) == 0 || answers_left(n.stage) + answers.len() <= 3
            &&& n.device_id == blk.device_id
            &&& n.stage is Identify ==> (blk.device_id matches Some(id) && is_block_device_id(id))
            &&& n.stage is Finish ==> blk.device_id is None
            &&& n.failure is Some <==> n.stage is Failed
        }),
    decreases answers.len(),
{
    if answers.len() > 0 {
        law_setup_of_a_block_device_ends(blk, answers.drop_last());
    }
}

/// A device is opened and attached with the access of the configuration, and
/// a disk image with its modes too.
pub proof fn law_access_is_as_configured(
    blk: VirtioBlkView,
    answers: Seq<Result<i32, Seq<char>>>,
)
    ensures
        ({
            let n = blk_run(blk_setup(blk), answers);
            &&& n.path == blk.path && n.read_only == blk.read_only
            &&& n.stage matches BlkStage::AttachImage { read_only, caching, sync } ==> read_only
                == blk.read_only && caching == blk.caching_mode && sync == blk.sync_mode
            &&& n.stage matches BlkStage::Open { read_only } ==> read_only == blk.read_only
            &&& n.stage matches BlkStage::AttachDevice { fd, read_only } ==> read_only
                == blk.read_only
        }),
    decreases answers.len(),
{
    if answers.len() > 0 {
        law_access_is_as_configured(blk, answers.drop_last());
    }
}

/// Whether the identifier of a device is none or a valid one.
pub open spec fn identifier_is_valid(id: Option<Seq<char>>) -> bool {
    id matches Some(text) ==> is_block_device_id(text)
}

/// A disk image gives a device exactly where it can be attached and the
/// identifier is valid.
pub proof fn law_disk_image(blk: VirtioBlkView, answer: Result<i32, Seq<char>>)
    requires
        blk.backend == DiskBackend::Image,
    ensures
        blk_run(blk_setup(blk), seq![answer]).stage is Failed <==> !(answer is Ok
            && identifier_is_valid(blk.device_id)),
{
    let v = blk_setup(blk);
    assert(seq![answer].drop_last() =~= Seq::empty());
    assert(blk_run(v, seq![answer].drop_last()) == v);
}

/// A block device gives a device exactly where its path holds no null, it is a
/// block device, it can be opened and attached, and the identifier is valid.
/// What is attached is what was opened.
pub proof fn law_block_device(
    blk: VirtioBlkView,
    stat: Result<i32, Seq<char>>,
    opened: Result<i32, Seq<char>>,
    attached: Result<i32, Seq<char>>,
)
    requires
        blk.backend == DiskBackend::BlockDevice,
    ensures
        blk_run(blk_setup(blk), seq![stat, opened, attached]).stage is Failed <==> !(
        !blk.path.contains('\0') && (stat matches Ok(mode) && mode & FILE_TYPE_MASK
            == BLOCK_DEVICE_TYPE) && opened is Ok && attached is Ok && identifier_is_valid(
            blk.device_id,
        )),
        blk_run(blk_setup(blk), seq![stat, opened]).stage matches BlkStage::AttachDevice {
            fd,
            read_only,
        } ==> opened == Ok::<i32, Seq<char>>(fd),
{
    let v = blk_setup(blk);
    let all = seq![stat, opened, attached];
    assert(all.drop_last() =~= seq![stat, opened]);
    assert(seq![stat, opened].drop_last() =~= seq![stat]);
    assert(seq![stat].drop_last() =~= Seq::empty());
    assert(blk_run(v, seq![stat].drop_last()) == v);
    assert(blk_run(v, seq![stat]) == blk_step(v, stat));
    assert(blk_run(v, seq![stat, opened]) == blk_step(blk_run(v, seq![stat]), opened));
    assert(blk_run(v, all) == blk_step(blk_run(v, seq![stat, opened]), attached));
}

proof fn lemma_chars_start_at_zero(c: char)
    ensures
        '\0' <= c,
{
}

/// An identifier is at most twenty characters long, and all of them are ASCII.
pub proof fn law_block_device_identifiers(id: Seq<char>)
    ensures
        is_block_device_id(id) <==> id.len() <= 20 && forall|k: int|
            0 <= k < id.len() ==> (#[trigger] id[k]) as int <= 127,
{
    if is_block_device_id(id) {
        assert forall|k: int| 0 <= k < id.len() implies (#[trigger] id[k]) as int <= 127 by {
            assert(id[k] <= '\u{7f}');
        }
    }
    if forall|k: int| 0 <= k < id.len() ==> (#[trigger] id[k]) as int <= 127 {
        assert forall|i: int| 0 <= i < id.len() implies '\0' <= #[trigger] id[i] && id[i]
            <= '\u{7f}' by {
            assert(id[i] as int <= 127);
            lemma_chars_start_at_zero(id[i]);
        }
        assert(vstd::utf8::is_ascii_chars(id));
    }
}

/// A device is what was looked at: first the file is asked for its mode, then
/// it is opened with the configured access, then what was opened is attached.
/// A disk image is attached at once.
pub proof fn law_block_device_steps_in_order(
    blk: VirtioBlkView,
    mode: i32,
    fd: i32,
)
    requires
        mode & 0xF000i32 == 0x6000i32,
        !blk.path.contains('\0'),
    ensures
        blk.backend == DiskBackend::Image ==> blk_setup(blk).stage == (BlkStage::AttachImage {
            read_only: blk.read_only,
            caching: blk.caching_mode,
            sync: blk.sync_mode,
        }),
        blk.backend == DiskBackend::BlockDevice ==> {
            let opening = blk_step(blk_setup(blk), Ok(mode));
            let attaching = blk_step(opening, Ok(fd));
            &&& blk_setup(blk).stage is Stat
            &&& opening.stage == (BlkStage::Open { read_only: blk.read_only })
            &&& attaching.stage == (BlkStage::AttachDevice { fd, read_only: blk.read_only })
        },
{
}

} // verus!
