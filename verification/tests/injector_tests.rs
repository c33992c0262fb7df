use genocide::injector::{choose_dll_path, dll_path_candidates};

#[test]
fn debug_candidates_in_order() {
    assert_eq!(
        dll_path_candidates(true),
        vec![
            "genocide.dll",
            "target/i686-pc-windows-msvc/debug/genocide.dll",
            "target/i686-pc-windows-msvc/debug/deps/genocide.dll",
        ]
    );
}

#[test]
fn release_candidates_in_order() {
    assert_eq!(
        dll_path_candidates(false),
        vec![
            "genocide.dll",
            "target/i686-pc-windows-msvc/release/genocide.dll",
            "target/i686-pc-windows-msvc/release/deps/genocide.dll",
        ]
    );
}

#[test]
fn first_existing_candidate_is_chosen() {
    assert_eq!(choose_dll_path(&vec![true, true, true]), Some(0));
    assert_eq!(choose_dll_path(&vec![false, true, true]), Some(1));
    assert_eq!(choose_dll_path(&vec![false, false, true]), Some(2));
    assert_eq!(choose_dll_path(&vec![false, false, false]), None);
    assert_eq!(choose_dll_path(&Vec::new()), None);
}
