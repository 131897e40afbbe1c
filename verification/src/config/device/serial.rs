//! Serial consoles.
use vstd::prelude::*;

verus! {

/// A Virtio serial port.
#[derive(Debug)]
pub struct VirtioSerial {
    pub attachment: SerialAttachment,
}

impl Clone for VirtioSerial {
    fn clone(&self) -> (r: Self)
        ensures
            r.attachment@ == self.attachment@,
    {
        VirtioSerial {
            attachment: self.attachment.clone(),
        }
    }
}

/// What a serial port is connected to on the host.
#[derive(Debug)]
pub enum SerialAttachment {
    File { path: String },
    Stdio,
    Pty,
}

impl Clone for SerialAttachment {
    fn clone(&self) -> (r: Self)
        ensures
            r@ == self@,
    {
        match self {
            SerialAttachment::File { path } => SerialAttachment::File { path: path.clone() },
            SerialAttachment::Stdio => SerialAttachment::Stdio,
            SerialAttachment::Pty => SerialAttachment::Pty,
        }
    }
}

/// A [`SerialAttachment`] over sequences of characters.
pub enum SerialAttachmentView {
    File { path: Seq<char> },
    Stdio,
    Pty,
}

impl View for SerialAttachment {
    type V = SerialAttachmentView;

    open spec fn view(&self) -> SerialAttachmentView {
        match *self {
            SerialAttachment::File { path } => SerialAttachmentView::File { path: path@ },
            SerialAttachment::Stdio => SerialAttachmentView::Stdio,
            SerialAttachment::Pty => SerialAttachmentView::Pty,
        }
    }
}

} // verus!
