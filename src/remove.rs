//! Options of a removal request.
use vstd::prelude::*;

verus! {

/// When a removal prompts.
#[derive(Debug, Clone, Copy, PartialEq, Eq, Structural)]
pub enum Intractive {
    Never,
    Once,
    Always,
}

impl Intractive {
    /// Returns `true` if this is `Never`.
    pub fn is_never(&self) -> (r: bool)
        ensures
            r == (*self == Intractive::Never),
    {
        *self == Intractive::Never
    }

    /// Returns `true` if this is `Once`.
    pub fn is_once(&self) -> (r: bool)
        ensures
            r == (*self == Intractive::Once),
    {
        *self == Intractive::Once
    }

    /// Returns `true` if this is `Always`.
    pub fn is_always(&self) -> (r: bool)
        ensures
            r == (*self == Intractive::Always),
    {
        *self == Intractive::Always
    }
}

impl Default for Intractive {
    /// An unset mode acts without prompting.
    fn default() -> (r: Self)
        ensures
            r == Intractive::Never,
    {
        Intractive::Never
    }
}

#[derive(Debug, Clone)]
pub struct Remover {
    pub paths: Vec<String>,
    pub force: bool,
    pub recursive: bool,
    pub dir: bool,
    pub verbose: bool,
    pub intractive: Intractive,
    pub one_file_system: bool,
    pub no_preserve_root: bool,
    pub preserve_root: bool,
}

impl Remover {
    /// No paths, every flag off, no prompting.
    pub fn new() -> (r: Self)
        ensures
            r.paths@.len() == 0,
            !r.force && !r.recursive && !r.dir && !r.verbose,
            r.intractive == Intractive::Never,
            !r.one_file_system && !r.no_preserve_root && !r.preserve_root,
    {
        Remover {
            paths: Vec::new(),
            force: false,
            recursive: false,
            dir: false,
            verbose: false,
            intractive: Intractive::Never,
            one_file_system: false,
            no_preserve_root: false,
            preserve_root: false,
        }
    }

    pub fn set_paths(&mut self, paths: Vec<String>)
        ensures
            *final(self) == (Remover { paths, ..*old(self) }),
    {
        self.paths = paths;
    }

    pub fn set_force(&mut self, force: bool)
        ensures
            *final(self) == (Remover { force, ..*old(self) }),
    {
        self.force = force;
    }

    pub fn set_recursive(&mut self, recursive: bool)
        ensures
            *final(self) == (Remover { recursive, ..*old(self) }),
    {
        self.recursive = recursive;
    }

    pub fn set_dir(&mut self, dir: bool)
        ensures
            *final(self) == (Remover { dir, ..*old(self) }),
    {
        self.dir = dir;
    }

    pub fn set_verbose(&mut self, verbose: bool)
        ensures
            *final(self) == (Remover { verbose, ..*old(self) }),
    {
        self.verbose = verbose;
    }

    pub fn set_intractive(&mut self, intractive: Intractive)
        ensures
            *final(self) == (Remover { intractive, ..*old(self) }),
    {
        self.intractive = intractive;
    }

    pub fn set_one_file_system(&mut self, one_file_system: bool)
        ensures
            *final(self) == (Remover { one_file_system, ..*old(self) }),
    {
        self.one_file_system = one_file_system;
    }

    pub fn set_no_preserve_root(&mut self, no_preserve_root: bool)
        ensures
            *final(self) == (Remover { no_preserve_root, ..*old(self) }),
    {
        self.no_preserve_root = no_preserve_root;
    }

    pub fn set_preserve_root(&mut self, preserve_root: bool)
        ensures
            *final(self) == (Remover { preserve_root, ..*old(self) }),
    {
        self.preserve_root = preserve_root;
    }
}

} // verus!
