//! Where the injector looks for the DLL it loads into the game.
use vstd::prelude::*;

verus! {

/// The places the DLL is looked for, in order: beside the injector, then
/// the build output of the profile the injector was built with (`debug`
/// or release), then that output's `deps` directory.
pub open spec fn dll_candidates(debug: bool) -> Seq<Seq<char>> {
    if debug {
        seq![
            "genocide.dll"@,
            "target/i686-pc-windows-msvc/debug/genocide.dll"@,
            "target/i686-pc-windows-msvc/debug/deps/genocide.dll"@,
        ]
    } else {
        seq![
            "genocide.dll"@,
            "target/i686-pc-windows-msvc/release/genocide.dll"@,
            "target/i686-pc-windows-msvc/release/deps/genocide.dll"@,
        ]
    }
}

/// The paths the injector tries, in the order it tries them.
pub fn dll_path_candidates(debug: bool) -> (res: Vec<&'static str>)
    ensures
        res@.len() == dll_candidates(debug).len(),
        forall|i: int| 0 <= i < res@.len() ==> (#[trigger] res@[i])@ == dll_candidates(debug)[i],
{
    let mut res: Vec<&'static str> = Vec::new();
    res.push("genocide.dll");
    if debug {
        res.push("target/i686-pc-windows-msvc/debug/genocide.dll");
        res.push("target/i686-pc-windows-msvc/debug/deps/genocide.dll");
    } else {
        res.push("target/i686-pc-windows-msvc/release/genocide.dll");
        res.push("target/i686-pc-windows-msvc/release/deps/genocide.dll");
    }
    res
}

/// Which candidate the injector loads, given which of them exist on disk:
/// the first that exists; nothing when none does (the injector then
/// reports that the DLL was not found and stops).
pub fn choose_dll_path(exists: &Vec<bool>) -> (res: Option<usize>)
    ensures
        match res {
            Some(i) => i < exists@.len() && exists@[i as int] && forall|j: int| 0 <= j < i ==> !exists@[j],
            None => forall|j: int| 0 <= j < exists@.len() ==> !exists@[j],
        },
{
    let mut i: usize = 0;
    while i < exists.len()
        invariant
            i <= exists@.len(),
            forall|j: int| 0 <= j < i ==> !exists@[j],
        decreases exists@.len() - i,
    {
        if exists[i] {
            return Some(i);
        }
        i = i + 1;
    }
    None
}

} // verus!
