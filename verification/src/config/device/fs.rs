//! Shared directories.
use vstd::prelude::*;

use crate::text::{clone_opt, opt_text};

verus! {

/// A host directory under a name of its own.
#[derive(Debug)]
pub struct SharedDir {
    pub name: String,
    pub path: String,
    pub read_only: bool,
}

impl Clone for SharedDir {
    fn clone(&self) -> (r: Self)
        ensures
            r@ == self@,
    {
        SharedDir {
            name: self.name.clone(),
            path: self.path.clone(),
            read_only: self.read_only,
        }
    }
}

/// A [`SharedDir`] over sequences of characters.
pub struct SharedDirView {
    pub name: Seq<char>,
    pub path: Seq<char>,
    pub read_only: bool,
}

impl View for SharedDir {
    type V = SharedDirView;

    open spec fn view(&self) -> SharedDirView {
        SharedDirView { name: self.name@, path: self.path@, read_only: self.read_only }
    }
}

/// A Virtio file system: one directory, or several named ones.
#[derive(Debug)]
pub struct VirtioFs {
    pub mount_tag: String,
    pub shared_dir: Option<String>,
    pub directories: Vec<SharedDir>,
}

impl Clone for VirtioFs {
    fn clone(&self) -> (r: Self)
        ensures
            r@ == self@,
    {
        VirtioFs {
            mount_tag: self.mount_tag.clone(),
            shared_dir: clone_opt(&self.shared_dir),
            directories: clone_dirs(&self.directories),
        }
    }
}

/// A [`VirtioFs`] over sequences.
#[verifier::ext_equal]
pub struct VirtioFsView {
    pub mount_tag: Seq<char>,
    pub shared_dir: Option<Seq<char>>,
    pub directories: Seq<SharedDirView>,
}

/// The views of a list of directories.
pub open spec fn dirs_view(dirs: Seq<SharedDir>) -> Seq<SharedDirView> {
    dirs.map_values(|d: SharedDir| d@)
}

/// A copy of a list of directories.
pub fn clone_dirs(dirs: &Vec<SharedDir>) -> (r: Vec<SharedDir>)
    ensures
        dirs_view(r@) == dirs_view(dirs@),
{
    let mut r: Vec<SharedDir> = Vec::new();
    let mut i: usize = 0;
    while i < dirs.len()
        invariant
            i <= dirs@.len(),
            dirs_view(r@) == dirs_view(dirs@).take(i as int),
        decreases dirs@.len() - i,
    {
        let ghost before = dirs_view(r@);
        r.push(dirs[i].clone());
        assert(dirs_view(r@) =~= before.push(dirs@[i as int]@));
        i += 1;
        assert(dirs_view(r@) =~= dirs_view(dirs@).take(i as int));
    }
    assert(dirs_view(r@) =~= dirs_view(dirs@));
    r
}

impl View for VirtioFs {
    type V = VirtioFsView;

    open spec fn view(&self) -> VirtioFsView {
        VirtioFsView {
            mount_tag: self.mount_tag@,
            shared_dir: opt_text(self.shared_dir),
            directories: dirs_view(self.directories@),
        }
    }
}

/// The Rosetta directory share, which runs x86_64 Linux binaries.
#[derive(Debug)]
pub struct Rosetta {
    pub mount_tag: String,
    pub install: bool,
    pub ignore_if_missing: bool,
}

impl Clone for Rosetta {
    fn clone(&self) -> (r: Self)
        ensures
            r@ == self@,
    {
        Rosetta {
            mount_tag: self.mount_tag.clone(),
            install: self.install,
            ignore_if_missing: self.ignore_if_missing,
        }
    }
}

/// A [`Rosetta`] over sequences of characters.
pub struct RosettaView {
    pub mount_tag: Seq<char>,
    pub install: bool,
    pub ignore_if_missing: bool,
}

impl View for Rosetta {
    type V = RosettaView;

    open spec fn view(&self) -> RosettaView {
        RosettaView {
            mount_tag: self.mount_tag@,
            install: self.install,
            ignore_if_missing: self.ignore_if_missing,
        }
    }
}

} // verus!
