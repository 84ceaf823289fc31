//! A plain data model of a resolved workspace: packages, their build
//! targets, and each target's kind and source path.
//!
//! Resolving a project root into this model is a collaborator outside this
//! crate; the extractor only queries it.

use vstd::prelude::*;

verus! {

/// The kind tag of a build target.
pub enum TargetKind {
    /// A library target, with the crate types it is built as
    /// (for example `"lib"`, `"cdylib"`).
    Lib(Vec<String>),
    /// Any non-library target kind.
    Other,
}

/// View of [`TargetKind`].
pub enum TargetKindV {
    Lib(Seq<Seq<char>>),
    Other,
}

impl DeepView for TargetKind {
    type V = TargetKindV;

    open spec fn deep_view(&self) -> TargetKindV {
        match self {
            TargetKind::Lib(kinds) => TargetKindV::Lib(kinds.deep_view()),
            TargetKind::Other => TargetKindV::Other,
        }
    }
}

/// One buildable compilation unit of a package.
pub struct Target {
    pub crate_name: String,
    pub kind: TargetKind,
    pub src_path: String,
}

/// View of [`Target`].
#[verifier::ext_equal]
pub struct TargetV {
    pub crate_name: Seq<char>,
    pub kind: TargetKindV,
    pub src_path: Seq<char>,
}

impl DeepView for Target {
    type V = TargetV;

    open spec fn deep_view(&self) -> TargetV {
        TargetV {
            crate_name: self.crate_name@,
            kind: self.kind.deep_view(),
            src_path: self.src_path@,
        }
    }
}

/// One package of the workspace, with the targets its manifest lists.
pub struct Package {
    pub name: String,
    pub targets: Vec<Target>,
}

/// View of [`Package`].
#[verifier::ext_equal]
pub struct PackageV {
    pub name: Seq<char>,
    pub targets: Seq<TargetV>,
}

impl DeepView for Package {
    type V = PackageV;

    open spec fn deep_view(&self) -> PackageV {
        PackageV { name: self.name@, targets: self.targets.deep_view() }
    }
}

/// A resolved workspace: its member packages and which member is the
/// current one.
pub struct Workspace {
    pub members: Vec<Package>,
    pub current: usize,
}

/// View of [`Workspace`].
#[verifier::ext_equal]
pub struct WorkspaceV {
    pub members: Seq<PackageV>,
    pub current: usize,
}

impl DeepView for Workspace {
    type V = WorkspaceV;

    open spec fn deep_view(&self) -> WorkspaceV {
        WorkspaceV { members: self.members.deep_view(), current: self.current }
    }
}

impl Workspace {
    /// A workspace is well formed when its current package exists.
    pub open spec fn wf(&self) -> bool {
        self.current < self.members.len()
    }
}

} // verus!
