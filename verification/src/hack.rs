use vstd::prelude::*;

use crate::memory::patch::{
    bytes_view, eject_allowed, inject_allowed, spec_eject, spec_inject, spec_injection_site,
    write_view, MemoryWrite, Patch, PatchState, PatchType,
};

verus! {

/// The offset, from the game module's base, of the jump into the automap hook.
pub const AUTOMAP_HOOK_OFFSET: usize = 0x5ADB3;

/// The offset, from the game module's base, of the jump into the interface hook.
pub const INTERFACE_HOOK_OFFSET: usize = 0x572D8;

/// The writes that a sequence of patch steps asks for, in order, skipping
/// the steps that ask for none.
pub open spec fn collect_writes(steps: Seq<Option<(usize, Seq<u8>)>>) -> Seq<(usize, Seq<u8>)>
    decreases steps.len(),
{
    if steps.len() == 0 {
        Seq::empty()
    } else {
        let rest = collect_writes(steps.drop_last());
        match steps.last() {
            Some(w) => rest.push(w),
            None => rest,
        }
    }
}

/// When every step asks for a write, all of them are collected, in order.
pub proof fn lemma_collect_all_writes(steps: Seq<Option<(usize, Seq<u8>)>>)
    requires
        forall|i: int| 0 <= i < steps.len() ==> #[trigger] steps[i] is Some,
    ensures
        collect_writes(steps).len() == steps.len(),
        forall|i: int| 0 <= i < steps.len() ==> #[trigger] collect_writes(steps)[i] == steps[i].unwrap(),
    decreases steps.len(),
{
    if steps.len() > 0 {
        let rest = steps.drop_last();
        assert forall|i: int| 0 <= i < rest.len() implies #[trigger] rest[i] is Some by {
            assert(rest[i] == steps[i]);
        }
        lemma_collect_all_writes(rest);
        assert(steps[steps.len() - 1] is Some);
    }
}

/// Installing patches that are not in place, with every original read, and
/// then ejecting them writes back exactly what was read, at the addresses
/// where the patches were written, in the same order.
pub proof fn lemma_eject_undoes_install(patches: Seq<PatchState>, module_base: usize, originals: Seq<Seq<u8>>)
    requires
        module_base != 0,
        originals.len() == patches.len(),
        forall|i: int| 0 <= i < patches.len() ==> !(#[trigger] patches[i]).injected,
    ensures
        ({
            let installed = Seq::new(patches.len(), |i: int| spec_inject(patches[i], module_base, Some(originals[i])).0);
            let written = collect_writes(Seq::new(patches.len(), |i: int| spec_inject(patches[i], module_base, Some(originals[i])).1));
            let restored = collect_writes(Seq::new(patches.len(), |i: int| spec_eject(installed[i], module_base)));
            &&& written.len() == patches.len()
            &&& restored.len() == patches.len()
            &&& forall|i: int| 0 <= i < patches.len() ==> (#[trigger] restored[i]) == (written[i].0, originals[i])
        }),
{
    let installed = Seq::new(patches.len(), |i: int| spec_inject(patches[i], module_base, Some(originals[i])).0);
    let install_steps = Seq::new(patches.len(), |i: int| spec_inject(patches[i], module_base, Some(originals[i])).1);
    let eject_steps = Seq::new(patches.len(), |i: int| spec_eject(installed[i], module_base));
    assert forall|i: int| 0 <= i < install_steps.len() implies #[trigger] install_steps[i] is Some by {
        assert(!patches[i].injected);
    }
    assert forall|i: int| 0 <= i < eject_steps.len() implies #[trigger] eject_steps[i] is Some by {
        assert(!patches[i].injected);
    }
    lemma_collect_all_writes(install_steps);
    lemma_collect_all_writes(eject_steps);
}

/// The writes of a list of `MemoryWrite`s, by value.
pub open spec fn writes_view(writes: Seq<MemoryWrite>) -> Seq<(usize, Seq<u8>)> {
    writes.map_values(|w: MemoryWrite| w@)
}

/// A patch as `Patch::new` makes it, by value.
pub open spec fn fresh_patch(patch_type: PatchType, offset: usize, length: usize, function: i32) -> PatchState {
    PatchState {
        patch_type,
        offset,
        length,
        function,
        old_bytes: Seq::new(length as nat, |i: int| 0u8),
        injected: false,
    }
}

/// The helper's state: the code patches that hook the game's drawing.
#[derive(Debug)]
pub struct Hack {
    patches: Vec<Patch>,
    hmodule: usize,
}

impl Hack {
    /// The patches, by value, in installation order.
    pub closed spec fn spec_patches(&self) -> Seq<PatchState> {
        self.patches@.map_values(|p: Patch| p@)
    }

    /// The handle of the helper's own module.
    pub closed spec fn spec_hmodule(&self) -> usize {
        self.hmodule
    }

    /// The helper loaded as module `hmodule`, with the two jump patches into
    /// the automap and interface drawing hooks, whose code lives at
    /// `automap_hook` and `interface_hook`.
    pub fn new(hmodule: usize, automap_hook: i32, interface_hook: i32) -> (res: Hack)
        ensures
            res.spec_hmodule() == hmodule,
            res.spec_patches() == seq![
                fresh_patch(PatchType::Jump, AUTOMAP_HOOK_OFFSET, 5, automap_hook),
                fresh_patch(PatchType::Jump, INTERFACE_HOOK_OFFSET, 6, interface_hook),
            ],
    {
        let mut patches: Vec<Patch> = Vec::new();
        patches.push(Patch::new(PatchType::Jump, AUTOMAP_HOOK_OFFSET, 5, automap_hook));
        patches.push(Patch::new(PatchType::Jump, INTERFACE_HOOK_OFFSET, 6, interface_hook));
        let res = Hack { patches, hmodule };
        assert(res.spec_patches() =~= seq![
            fresh_patch(PatchType::Jump, AUTOMAP_HOOK_OFFSET, 5, automap_hook),
            fresh_patch(PatchType::Jump, INTERFACE_HOOK_OFFSET, 6, interface_hook),
        ]);
        res
    }

    /// The handle of the helper's own module.
    pub fn hmodule(&self) -> (res: usize)
        ensures
            res == self.spec_hmodule(),
    {
        self.hmodule
    }

    /// The number of patches.
    pub fn patch_count(&self) -> (res: usize)
        ensures
            res == self.spec_patches().len(),
    {
        self.patches.len()
    }

    /// The number of bytes patch `i` overwrites.
    pub fn patch_length(&self, i: usize) -> (res: usize)
        requires
            i < self.spec_patches().len(),
        ensures
            res == self.spec_patches()[i as int].length,
    {
        self.patches[i].length()
    }

    /// Whether `install_patches` may be called for a module loaded at
    /// `module_base`: every patch may be injected there.
    pub fn can_install(&self, module_base: usize) -> (res: bool)
        ensures
            res == forall|i: int| 0 <= i < self.spec_patches().len() ==> inject_allowed(#[trigger] self.spec_patches()[i], module_base),
    {
        let mut i: usize = 0;
        while i < self.patches.len()
            invariant
                i <= self.patches@.len(),
                forall|j: int| 0 <= j < i ==> inject_allowed(#[trigger] self.spec_patches()[j], module_base),
            decreases self.patches@.len() - i,
        {
            if !self.patches[i].can_inject(module_base) {
                assert(!inject_allowed(self.spec_patches()[i as int], module_base));
                return false;
            }
            i = i + 1;
        }
        true
    }

    /// Whether `eject_patches` may be called for a module loaded at
    /// `module_base`: every patch may be ejected there.
    pub fn can_eject(&self, module_base: usize) -> (res: bool)
        ensures
            res == forall|i: int| 0 <= i < self.spec_patches().len() ==> eject_allowed(#[trigger] self.spec_patches()[i], module_base),
    {
        let mut i: usize = 0;
        while i < self.patches.len()
            invariant
                i <= self.patches@.len(),
                forall|j: int| 0 <= j < i ==> eject_allowed(#[trigger] self.spec_patches()[j], module_base),
            decreases self.patches@.len() - i,
        {
            if !self.patches[i].can_eject(module_base) {
                assert(!eject_allowed(self.spec_patches()[i as int], module_base));
                return false;
            }
            i = i + 1;
        }
        true
    }

    /// For each patch, the address whose bytes must be read before
    /// `install_patches`, or nothing when that patch will not be installed.
    pub fn injection_sites(&self, module_base: usize) -> (res: Vec<Option<usize>>)
        requires
            forall|i: int| 0 <= i < self.spec_patches().len() ==> inject_allowed(#[trigger] self.spec_patches()[i], module_base),
        ensures
            res@.len() == self.spec_patches().len(),
            forall|i: int|
                0 <= i < res@.len() ==> match #[trigger] res@[i] {
                    Some(a) => spec_injection_site(self.spec_patches()[i], module_base) == Some(a as int),
                    None => spec_injection_site(self.spec_patches()[i], module_base) is None,
                },
    {
        let mut res: Vec<Option<usize>> = Vec::new();
        let mut i: usize = 0;
        while i < self.patches.len()
            invariant
                i <= self.patches@.len(),
                res@.len() == i,
                forall|j: int| 0 <= j < self.spec_patches().len() ==> inject_allowed(#[trigger] self.spec_patches()[j], module_base),
                forall|j: int|
                    0 <= j < i ==> match #[trigger] res@[j] {
                        Some(a) => spec_injection_site(self.spec_patches()[j], module_base) == Some(a as int),
                        None => spec_injection_site(self.spec_patches()[j], module_base) is None,
                    },
            decreases self.patches@.len() - i,
        {
            assert(self.spec_patches()[i as int] == self.patches@[i as int]@);
            let site = self.patches[i].injection_site(module_base);
            res.push(site);
            i = i + 1;
        }
        res
    }

    /// Installs every patch in order. `originals[i]` is what the caller read
    /// at patch `i`'s injection site (nothing when there was no site or the
    /// read failed). The answer lists, in order, the writes to perform.
    pub fn install_patches(&mut self, module_base: usize, originals: Vec<Option<Vec<u8>>>) -> (res: Vec<MemoryWrite>)
        requires
            originals@.len() == old(self).spec_patches().len(),
            forall|i: int| 0 <= i < old(self).spec_patches().len() ==> inject_allowed(#[trigger] old(self).spec_patches()[i], module_base),
            forall|i: int|
                0 <= i < originals@.len() ==> (#[trigger] originals@[i] matches Some(b) ==> b@.len() == old(self).spec_patches()[i].length),
        ensures
            final(self).spec_patches().len() == old(self).spec_patches().len(),
            forall|i: int|
                0 <= i < old(self).spec_patches().len() ==> #[trigger] final(self).spec_patches()[i]
                    == spec_inject(old(self).spec_patches()[i], module_base, bytes_view(originals@[i])).0,
            writes_view(res@) == collect_writes(
                Seq::new(
                    old(self).spec_patches().len(),
                    |i: int| spec_inject(old(self).spec_patches()[i], module_base, bytes_view(originals@[i])).1,
                ),
            ),
    {
        let ghost old_patches = self.spec_patches();
        let ghost old_originals = originals@;
        let ghost steps = Seq::new(
            old_patches.len(),
            |i: int| spec_inject(old_patches[i], module_base, bytes_view(old_originals[i])).1,
        );
        let mut originals = originals;
        let mut res: Vec<MemoryWrite> = Vec::new();
        let n = self.patches.len();
        let mut i: usize = 0;
        while i < n
            invariant
                n == old_patches.len(),
                i <= n,
                self.patches@.len() == n,
                originals@ == old_originals.skip(i as int),
                old_originals.len() == n,
                steps == Seq::new(
                    old_patches.len(),
                    |k: int| spec_inject(old_patches[k], module_base, bytes_view(old_originals[k])).1,
                ),
                forall|k: int| 0 <= k < n ==> inject_allowed(#[trigger] old_patches[k], module_base),
                forall|k: int|
                    0 <= k < n ==> (#[trigger] old_originals[k] matches Some(b) ==> b@.len() == old_patches[k].length),
                forall|k: int|
                    0 <= k < i ==> #[trigger] self.patches@[k]@ == spec_inject(old_patches[k], module_base, bytes_view(old_originals[k])).0,
                forall|k: int| i <= k < n ==> #[trigger] self.patches@[k]@ == old_patches[k],
                writes_view(res@) == collect_writes(steps.take(i as int)),
            decreases n - i,
        {
            let original = originals.remove(0);
            assert(original == old_originals[i as int]);
            let write = self.patches[i].inject(module_base, original);
            proof {
                assert(steps.take(i + 1).drop_last() =~= steps.take(i as int));
                assert(steps.take(i + 1).last() == write_view(write));
            }
            match write {
                Some(w) => {
                    res.push(w);
                    assert(writes_view(res@) =~= collect_writes(steps.take(i as int)).push(w@));
                },
                None => {},
            }
            i = i + 1;
            assert(originals@ =~= old_originals.skip(i as int));
        }
        assert(steps.take(n as int) =~= steps);
        assert(self.spec_patches() =~= self.patches@.map_values(|p: Patch| p@));
        res
    }

    /// Asks every patch, in order, to write its saved bytes back. The
    /// patches themselves are left as they were.
    pub fn eject_patches(&mut self, module_base: usize) -> (res: Vec<MemoryWrite>)
        requires
            forall|i: int| 0 <= i < old(self).spec_patches().len() ==> eject_allowed(#[trigger] old(self).spec_patches()[i], module_base),
        ensures
            final(self).spec_patches() == old(self).spec_patches(),
            writes_view(res@) == collect_writes(
                Seq::new(old(self).spec_patches().len(), |i: int| spec_eject(old(self).spec_patches()[i], module_base)),
            ),
    {
        let ghost old_patches = self.spec_patches();
        let ghost steps = Seq::new(old_patches.len(), |i: int| spec_eject(old_patches[i], module_base));
        let mut res: Vec<MemoryWrite> = Vec::new();
        let n = self.patches.len();
        let mut i: usize = 0;
        while i < n
            invariant
                n == old_patches.len(),
                i <= n,
                self.patches@.len() == n,
                steps == Seq::new(old_patches.len(), |k: int| spec_eject(old_patches[k], module_base)),
                forall|k: int| 0 <= k < n ==> eject_allowed(#[trigger] old_patches[k], module_base),
                forall|k: int| 0 <= k < n ==> #[trigger] self.patches@[k]@ == old_patches[k],
                writes_view(res@) == collect_writes(steps.take(i as int)),
            decreases n - i,
        {
            let write = self.patches[i].eject(module_base);
            proof {
                assert(steps.take(i + 1).drop_last() =~= steps.take(i as int));
                assert(steps.take(i + 1).last() == write_view(write));
            }
            match write {
                Some(w) => {
                    res.push(w);
                    assert(writes_view(res@) =~= collect_writes(steps.take(i as int)).push(w@));
                },
                None => {},
            }
            i = i + 1;
        }
        assert(steps.take(n as int) =~= steps);
        assert(self.spec_patches() =~= old_patches);
        res
    }
}

} // verus!
