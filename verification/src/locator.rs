//! Locating the backend executable.
//!
//! The locator builds an ordered list of candidate paths from the anchor
//! directories the host resolves (resource directory, the running
//! executable's own path, per-user local data directory), then returns the
//! first candidate that exists on the filesystem. Order encodes priority;
//! evaluation short-circuits on the first hit. Existence is reported by the
//! host as one flag per candidate, so the selection itself is pure.

use vstd::prelude::*;

use crate::path::FsPath;

verus! {

/// The anchor directories the host could resolve, each optional.
/// `exe_path` is the path of the running executable itself, not its
/// directory.
pub struct Anchors {
    pub resource_dir: Option<FsPath>,
    pub exe_path: Option<FsPath>,
    pub app_local_data_dir: Option<FsPath>,
}

/// The platform's name for the backend executable.
pub open spec fn spec_binary_name(windows: bool) -> Seq<char> {
    if windows {
        "nexa-backend.exe"@
    } else {
        "nexa-backend"@
    }
}

/// The executable name for the platform: a `.exe` suffix on Windows,
/// none elsewhere.
pub fn binary_name(windows: bool) -> (r: String)
    ensures
        r@ == spec_binary_name(windows),
{
    if windows {
        "nexa-backend.exe".to_string()
    } else {
        "nexa-backend".to_string()
    }
}

/// The candidate layouts under a resource-style anchor: nested
/// `binaries/nexa-backend/<name>`, flattened `nexa-backend/<name>`, then
/// `<name>` directly under the anchor.
pub open spec fn resource_layouts(anchor: Seq<Seq<char>>, name: Seq<char>) -> Seq<Seq<Seq<char>>> {
    seq![
        anchor.push("binaries"@).push("nexa-backend"@).push(name),
        anchor.push("nexa-backend"@).push(name),
        anchor.push(name),
    ]
}

/// The candidate layouts under the per-user data anchor: the nested and the
/// flattened layout only.
pub open spec fn data_layouts(anchor: Seq<Seq<char>>, name: Seq<char>) -> Seq<Seq<Seq<char>>> {
    seq![
        anchor.push("binaries"@).push("nexa-backend"@).push(name),
        anchor.push("nexa-backend"@).push(name),
    ]
}

/// The candidate layouts relative to the directory one level above the
/// executable's directory, probed because installers on some platforms
/// relocate resources there.
pub open spec fn exe_parent_layouts(parent: Seq<Seq<char>>, name: Seq<char>) -> Seq<
    Seq<Seq<char>>,
> {
    seq![
        parent.push("resources"@).push("binaries"@).push("nexa-backend"@).push(name),
        parent.push("resources"@).push("nexa-backend"@).push(name),
        parent.push("binaries"@).push("nexa-backend"@).push(name),
    ]
}

/// The candidate layouts relative to the executable's own directory: the
/// three resource-style layouts, conventional `resources` subdirectories,
/// a nested-bundle `_up_` layout, and, when the directory has a parent,
/// the layouts one level up.
pub open spec fn exe_dir_layouts(exe_dir: Seq<Seq<char>>, name: Seq<char>) -> Seq<Seq<Seq<char>>> {
    seq![
        exe_dir.push("binaries"@).push("nexa-backend"@).push(name),
        exe_dir.push("nexa-backend"@).push(name),
        exe_dir.push(name),
        exe_dir.push("resources"@).push("binaries"@).push("nexa-backend"@).push(name),
        exe_dir.push("resources"@).push("nexa-backend"@).push(name),
        exe_dir.push("_up_"@).push("resources"@).push("binaries"@).push("nexa-backend"@).push(name),
    ] + if exe_dir.len() > 0 {
        exe_parent_layouts(exe_dir.drop_last(), name)
    } else {
        Seq::<Seq<Seq<char>>>::empty()
    }
}

/// The view of an optional path.
pub open spec fn opt_path_view(p: Option<FsPath>) -> Option<Seq<Seq<char>>> {
    match p {
        Some(q) => Some(q@),
        None => None,
    }
}

/// The full candidate list, in priority order: resource-directory layouts
/// first, then layouts around the executable, then per-user data layouts.
/// An unavailable anchor contributes nothing. The executable path itself
/// contributes only through its containing directory.
pub open spec fn spec_candidates(
    resource_dir: Option<Seq<Seq<char>>>,
    exe_path: Option<Seq<Seq<char>>>,
    app_local_data_dir: Option<Seq<Seq<char>>>,
    windows: bool,
) -> Seq<Seq<Seq<char>>> {
    let name = spec_binary_name(windows);
    (match resource_dir {
        Some(rd) => resource_layouts(rd, name),
        None => Seq::<Seq<Seq<char>>>::empty(),
    }) + (match exe_path {
        Some(ep) => if ep.len() > 0 {
            exe_dir_layouts(ep.drop_last(), name)
        } else {
            Seq::<Seq<Seq<char>>>::empty()
        },
        None => Seq::<Seq<Seq<char>>>::empty(),
    }) + (match app_local_data_dir {
        Some(ad) => data_layouts(ad, name),
        None => Seq::<Seq<Seq<char>>>::empty(),
    })
}

/// The candidate list of a set of anchors.
pub open spec fn spec_candidates_of(anchors: Anchors, windows: bool) -> Seq<Seq<Seq<char>>> {
    spec_candidates(
        opt_path_view(anchors.resource_dir),
        opt_path_view(anchors.exe_path),
        opt_path_view(anchors.app_local_data_dir),
        windows,
    )
}

/// Build the candidate paths for the given anchors, in priority order.
pub fn candidate_paths(anchors: &Anchors, windows: bool) -> (r: Vec<FsPath>)
    ensures
        r.deep_view() == spec_candidates_of(*anchors, windows),
{
    let name = binary_name(windows);
    let mut out: Vec<FsPath> = Vec::new();

    match &anchors.resource_dir {
        Some(rd) => {
            out.push(rd.child("binaries").child("nexa-backend").child(name.as_str()));
            out.push(rd.child("nexa-backend").child(name.as_str()));
            out.push(rd.child(name.as_str()));
        },
        None => {},
    }
    let ghost first_block = out.deep_view();
    proof {
        assert(first_block =~~= (match opt_path_view(anchors.resource_dir) {
            Some(rd) => resource_layouts(rd, spec_binary_name(windows)),
            None => Seq::<Seq<Seq<char>>>::empty(),
        }));
    }

    match &anchors.exe_path {
        Some(ep) => {
            match ep.parent() {
                Some(exe_dir) => {
                    out.push(
                        exe_dir.child("binaries").child("nexa-backend").child(name.as_str()),
                    );
                    out.push(exe_dir.child("nexa-backend").child(name.as_str()));
                    out.push(exe_dir.child(name.as_str()));
                    out.push(
                        exe_dir.child("resources").child("binaries").child("nexa-backend").child(
                            name.as_str(),
                        ),
                    );
                    out.push(exe_dir.child("resources").child("nexa-backend").child(name.as_str()));
                    out.push(
                        exe_dir.child("_up_").child("resources").child("binaries").child(
                            "nexa-backend",
                        ).child(name.as_str()),
                    );
                    match exe_dir.parent() {
                        Some(parent_dir) => {
                            out.push(
                                parent_dir.child("resources").child("binaries").child(
                                    "nexa-backend",
                                ).child(name.as_str()),
                            );
                            out.push(
                                parent_dir.child("resources").child("nexa-backend").child(
                                    name.as_str(),
                                ),
                            );
                            out.push(
                                parent_dir.child("binaries").child("nexa-backend").child(
                                    name.as_str(),
                                ),
                            );
                        },
                        None => {},
                    }
                },
                None => {},
            }
        },
        None => {},
    }
    let ghost second_block = out.deep_view().skip(first_block.len() as int);
    proof {
        assert(second_block =~~= (match opt_path_view(anchors.exe_path) {
            Some(ep) => if ep.len() > 0 {
                exe_dir_layouts(ep.drop_last(), spec_binary_name(windows))
            } else {
                Seq::<Seq<Seq<char>>>::empty()
            },
            None => Seq::<Seq<Seq<char>>>::empty(),
        }));
    }

    match &anchors.app_local_data_dir {
        Some(ad) => {
            out.push(ad.child("binaries").child("nexa-backend").child(name.as_str()));
            out.push(ad.child("nexa-backend").child(name.as_str()));
        },
        None => {},
    }
    let ghost third_block = out.deep_view().skip(
        first_block.len() as int + second_block.len() as int,
    );
    proof {
        assert(third_block =~~= (match opt_path_view(anchors.app_local_data_dir) {
            Some(ad) => data_layouts(ad, spec_binary_name(windows)),
            None => Seq::<Seq<Seq<char>>>::empty(),
        }));
        assert(out.deep_view() =~~= first_block + second_block + third_block);
    }
    out
}

/// The index of the first set flag, if any.
pub fn first_existing_index(present: &Vec<bool>) -> (r: Option<usize>)
    ensures
        match r {
            Some(i) => i < present@.len() && present@[i as int] && forall|j: int|
                0 <= j < i as int ==> !present@[j],
            None => forall|j: int| 0 <= j < present@.len() ==> !present@[j],
        },
{
    let mut i: usize = 0;
    while i < present.len()
        invariant
            i <= present@.len(),
            forall|j: int| 0 <= j < i as int ==> !present@[j],
        decreases present@.len() - i,
    {
        if present[i] {
            return Some(i);
        }
        i += 1;
    }
    None
}

/// Pick the first candidate that exists.
///
/// `present` carries one flag per candidate, in the same order: the host's
/// answer to "does this path exist on the filesystem". The result, if any,
/// is the candidate at the first set flag; every candidate before it does
/// not exist. A result of `None` means no candidate exists.
pub fn locate(candidates: Vec<FsPath>, present: &Vec<bool>) -> (r: Option<FsPath>)
    requires
        candidates@.len() == present@.len(),
    ensures
        match r {
            Some(p) => exists|i: int|
                0 <= i < present@.len() && present@[i] && p@ == candidates.deep_view()[i]
                    && forall|j: int| 0 <= j < i ==> !present@[j],
            None => forall|j: int| 0 <= j < present@.len() ==> !present@[j],
        },
{
    let mut candidates = candidates;
    match first_existing_index(present) {
        Some(i) => {
            let p = candidates.remove(i);
            Some(p)
        },
        None => None,
    }
}

/// Law: when no anchor directory is available, the candidate list is
/// empty, and the locator therefore reports not-found.
pub proof fn lemma_no_anchors_no_candidates(windows: bool)
    ensures
        spec_candidates(None, None, None, windows) == Seq::<Seq<Seq<char>>>::empty(),
{
    assert(spec_candidates(None, None, None, windows) =~= Seq::<Seq<Seq<char>>>::empty());
}

} // verus!
