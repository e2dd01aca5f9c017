use nexa_supervisor::locator::{
    binary_name, candidate_paths, first_existing_index, locate, Anchors,
};
use nexa_supervisor::path::FsPath;

fn p(components: &[&str]) -> FsPath {
    FsPath::from_components(components.iter().map(|s| s.to_string()).collect())
}

fn comps(path: &FsPath) -> Vec<String> {
    path.components.clone()
}

fn owned(components: &[&str]) -> Vec<String> {
    components.iter().map(|s| s.to_string()).collect()
}

#[test]
fn binary_name_per_platform() {
    assert_eq!(binary_name(true), "nexa-backend.exe");
    assert_eq!(binary_name(false), "nexa-backend");
}

#[test]
fn resource_anchor_candidates_in_priority_order() {
    let anchors = Anchors {
        resource_dir: Some(p(&["res"])),
        exe_path: None,
        app_local_data_dir: None,
    };
    let cands = candidate_paths(&anchors, false);
    assert_eq!(cands.len(), 3);
    assert_eq!(comps(&cands[0]), owned(&["res", "binaries", "nexa-backend", "nexa-backend"]));
    assert_eq!(comps(&cands[1]), owned(&["res", "nexa-backend", "nexa-backend"]));
    assert_eq!(comps(&cands[2]), owned(&["res", "nexa-backend"]));
}

#[test]
fn exe_anchor_candidates_probe_around_the_executable() {
    let anchors = Anchors {
        resource_dir: None,
        exe_path: Some(p(&["opt", "app", "bin", "host"])),
        app_local_data_dir: None,
    };
    let cands = candidate_paths(&anchors, false);
    // six layouts under the executable's directory, three one level up
    assert_eq!(cands.len(), 9);
    assert_eq!(
        comps(&cands[0]),
        owned(&["opt", "app", "bin", "binaries", "nexa-backend", "nexa-backend"])
    );
    assert_eq!(comps(&cands[1]), owned(&["opt", "app", "bin", "nexa-backend", "nexa-backend"]));
    assert_eq!(comps(&cands[2]), owned(&["opt", "app", "bin", "nexa-backend"]));
    assert_eq!(
        comps(&cands[3]),
        owned(&["opt", "app", "bin", "resources", "binaries", "nexa-backend", "nexa-backend"])
    );
    assert_eq!(
        comps(&cands[4]),
        owned(&["opt", "app", "bin", "resources", "nexa-backend", "nexa-backend"])
    );
    assert_eq!(
        comps(&cands[5]),
        owned(&[
            "opt", "app", "bin", "_up_", "resources", "binaries", "nexa-backend", "nexa-backend"
        ])
    );
    assert_eq!(
        comps(&cands[6]),
        owned(&["opt", "app", "resources", "binaries", "nexa-backend", "nexa-backend"])
    );
    assert_eq!(
        comps(&cands[7]),
        owned(&["opt", "app", "resources", "nexa-backend", "nexa-backend"])
    );
    assert_eq!(
        comps(&cands[8]),
        owned(&["opt", "app", "binaries", "nexa-backend", "nexa-backend"])
    );
}

#[test]
fn exe_anchor_at_the_root_has_no_parent_layouts() {
    let anchors = Anchors {
        resource_dir: None,
        exe_path: Some(p(&["host"])),
        app_local_data_dir: None,
    };
    let cands = candidate_paths(&anchors, false);
    // the executable's directory is the root: no layouts one level up
    assert_eq!(cands.len(), 6);
    assert_eq!(comps(&cands[0]), owned(&["binaries", "nexa-backend", "nexa-backend"]));
    assert_eq!(comps(&cands[2]), owned(&["nexa-backend"]));
}

#[test]
fn data_anchor_contributes_two_layouts() {
    let anchors = Anchors {
        resource_dir: None,
        exe_path: None,
        app_local_data_dir: Some(p(&["home", "user", "data"])),
    };
    let cands = candidate_paths(&anchors, true);
    assert_eq!(cands.len(), 2);
    assert_eq!(
        comps(&cands[0]),
        owned(&["home", "user", "data", "binaries", "nexa-backend", "nexa-backend.exe"])
    );
    assert_eq!(
        comps(&cands[1]),
        owned(&["home", "user", "data", "nexa-backend", "nexa-backend.exe"])
    );
}

#[test]
fn first_existing_index_picks_the_first_set_flag() {
    assert_eq!(first_existing_index(&vec![false, true, true]), Some(1));
    assert_eq!(first_existing_index(&vec![true, false]), Some(0));
    assert_eq!(first_existing_index(&vec![false, false, false]), None);
    assert_eq!(first_existing_index(&vec![]), None);
}

#[test]
fn locate_returns_the_first_existing_candidate() {
    let anchors = Anchors {
        resource_dir: Some(p(&["res"])),
        exe_path: None,
        app_local_data_dir: None,
    };
    let cands = candidate_paths(&anchors, false);
    let expected = comps(&cands[2]);
    // existence at a known non-first index: only the third candidate exists
    let exists = vec![false, false, true];
    let found = locate(cands, &exists).expect("a candidate exists");
    assert_eq!(comps(&found), expected);
}

#[test]
fn locate_without_anchors_reports_not_found() {
    let anchors = Anchors { resource_dir: None, exe_path: None, app_local_data_dir: None };
    let cands = candidate_paths(&anchors, false);
    assert_eq!(cands.len(), 0);
    let exists: Vec<bool> = Vec::new();
    assert!(locate(cands, &exists).is_none());
}

#[test]
fn nested_layout_beats_flattened_layout() {
    // anchor A holds A/binaries/nexa-backend/nexa-backend but not
    // A/nexa-backend/nexa-backend
    let fake_fs: Vec<Vec<String>> = vec![owned(&["A", "binaries", "nexa-backend", "nexa-backend"])];
    let anchors = Anchors {
        resource_dir: Some(p(&["A"])),
        exe_path: None,
        app_local_data_dir: None,
    };
    let cands = candidate_paths(&anchors, false);
    let exists: Vec<bool> = cands.iter().map(|c| fake_fs.contains(&c.components)).collect();
    let found = locate(cands, &exists).expect("the nested layout exists");
    assert_eq!(comps(&found), owned(&["A", "binaries", "nexa-backend", "nexa-backend"]));
}
