//! Virtio sockets between host and guest.
use vstd::prelude::*;

use crate::text::{clone_opt, opt_text};

verus! {

/// A Virtio socket device, and the proxy to run for it.
#[derive(Debug)]
pub struct VirtioVsock {
    pub port: u32,
    pub socket_url: Option<String>,
    pub listen: bool,
}

impl Clone for VirtioVsock {
    fn clone(&self) -> (r: Self)
        ensures
            r@ == self@,
    {
        VirtioVsock {
            port: self.port,
            socket_url: clone_opt(&self.socket_url),
            listen: self.listen,
        }
    }
}

/// A [`VirtioVsock`] over sequences of characters.
pub struct VirtioVsockView {
    pub port: u32,
    pub socket_url: Option<Seq<char>>,
    pub listen: bool,
}

impl View for VirtioVsock {
    type V = VirtioVsockView;

    open spec fn view(&self) -> VirtioVsockView {
        VirtioVsockView {
            port: self.port,
            socket_url: opt_text(self.socket_url),
            listen: self.listen,
        }
    }
}

} // verus!
