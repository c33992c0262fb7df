use vstd::prelude::*;

verus! {

/// How a patch rewrites the bytes at its address.
#[derive(Debug, Clone, Copy, PartialEq, Eq, Structural)]
pub enum PatchType {
    /// A near `call rel32` to the patch's function, then zero bytes.
    Call,
    /// A near `jmp rel32` to the patch's function, then zero bytes.
    Jump,
    /// Every byte set to the low byte of the patch's function value.
    Fill,
}

/// A write of `bytes` at the absolute address `address` of the game's memory.
#[derive(Debug)]
pub struct MemoryWrite {
    pub address: usize,
    pub bytes: Vec<u8>,
}

impl View for MemoryWrite {
    type V = (usize, Seq<u8>);

    open spec fn view(&self) -> (usize, Seq<u8>) {
        (self.address, self.bytes@)
    }
}

/// The abstract state of a patch.
pub struct PatchState {
    pub patch_type: PatchType,
    pub offset: usize,
    pub length: usize,
    pub function: i32,
    pub old_bytes: Seq<u8>,
    pub injected: bool,
}

/// A code patch at a fixed offset from the game module's base: it remembers
/// the bytes it overwrote so that they can be written back.
#[derive(Debug)]
pub struct Patch {
    patch_type: PatchType,
    offset: usize,
    length: usize,
    function: i32,
    old_bytes: Vec<u8>,
    injected: bool,
}

impl View for Patch {
    type V = PatchState;

    closed spec fn view(&self) -> PatchState {
        PatchState {
            patch_type: self.patch_type,
            offset: self.offset,
            length: self.length,
            function: self.function,
            old_bytes: self.old_bytes@,
            injected: self.injected,
        }
    }
}

/// `v` read as a 32-bit two's complement number (the value of `v as i32`).
pub open spec fn signed32(v: int) -> int {
    let low = v % 0x1_0000_0000;
    if low < 0x8000_0000 {
        low
    } else {
        low - 0x1_0000_0000
    }
}

/// Byte `k` (0 = least significant) of the 32-bit two's complement form of `v`.
pub open spec fn le_byte(v: int, k: int) -> u8 {
    let unsigned = v % 0x1_0000_0000;
    let shifted = if k == 0 {
        unsigned
    } else if k == 1 {
        unsigned / 0x100
    } else if k == 2 {
        unsigned / 0x1_0000
    } else {
        unsigned / 0x100_0000
    };
    (shifted % 0x100) as u8
}

/// The number that four little-endian bytes spell.
pub open spec fn le_u32(b0: u8, b1: u8, b2: u8, b3: u8) -> int {
    b0 + 0x100 * b1 + 0x1_0000 * b2 + 0x100_0000 * b3
}

/// The opcode byte of a near call or jump with a 32-bit displacement.
pub open spec fn opcode(patch_type: PatchType) -> u8 {
    match patch_type {
        PatchType::Call => 0xE8,
        _ => 0xE9,
    }
}

/// The displacement of a call or jump placed at `address` that lands on
/// `function`: the target minus the address of the next instruction.
pub open spec fn displacement(function: i32, address: int) -> int {
    function - (signed32(address) + 5)
}

/// The address a patch applies to: zero when the module base is unknown
/// (zero), else the base plus the patch's offset.
pub open spec fn spec_address(offset: usize, module_base: usize) -> int {
    if module_base == 0 {
        0
    } else {
        module_base + offset
    }
}

/// The bytes a patch writes at `address`.
pub open spec fn patch_bytes(patch_type: PatchType, function: i32, length: usize, address: int) -> Seq<u8> {
    match patch_type {
        PatchType::Fill => Seq::new(length as nat, |i: int| (function % 0x100) as u8),
        _ => Seq::new(
            length as nat,
            |i: int|
                if i == 0 {
                    opcode(patch_type)
                } else if i < 5 {
                    le_byte(displacement(function, address), i - 1)
                } else {
                    0u8
                },
        ),
    }
}

/// The bytes can be produced: a call or jump needs room for its five bytes,
/// and the address and displacement arithmetic stays within 32 bits.
pub open spec fn encodable(patch_type: PatchType, function: i32, length: usize, address: int) -> bool {
    match patch_type {
        PatchType::Fill => true,
        _ => {
            &&& length >= 5
            &&& signed32(address) + 5 <= i32::MAX
            &&& i32::MIN <= displacement(function, address) <= i32::MAX
        },
    }
}

/// Where `inject` would read and write: nowhere when the patch is already in
/// place or the address is unknown.
pub open spec fn spec_injection_site(p: PatchState, module_base: usize) -> Option<int> {
    let address = spec_address(p.offset, module_base);
    if p.injected || address == 0 {
        None
    } else {
        Some(address)
    }
}

/// What `inject` does: the new state and the write it asks for.
pub open spec fn spec_inject(p: PatchState, module_base: usize, original: Option<Seq<u8>>) -> (PatchState, Option<(usize, Seq<u8>)>) {
    let address = spec_address(p.offset, module_base);
    if p.injected || address == 0 {
        (p, None)
    } else {
        (
            PatchState {
                patch_type: p.patch_type,
                offset: p.offset,
                length: p.length,
                function: p.function,
                old_bytes: match original {
                    Some(bytes) => bytes,
                    None => p.old_bytes,
                },
                injected: true,
            },
            Some((address as usize, patch_bytes(p.patch_type, p.function, p.length, address))),
        )
    }
}

/// What `eject` asks for: the saved bytes written back at the patch's
/// address, if the patch is in place and the address is known.
pub open spec fn spec_eject(p: PatchState, module_base: usize) -> Option<(usize, Seq<u8>)> {
    let address = spec_address(p.offset, module_base);
    if !p.injected || address == 0 {
        None
    } else {
        Some((address as usize, p.old_bytes))
    }
}

/// `inject` can run on this state without overflow or an out-of-range write.
pub open spec fn inject_allowed(p: PatchState, module_base: usize) -> bool {
    !p.injected && module_base != 0 ==> {
        &&& module_base + p.offset <= usize::MAX
        &&& encodable(p.patch_type, p.function, p.length, module_base + p.offset)
    }
}

/// `eject` can run on this state without overflow.
pub open spec fn eject_allowed(p: PatchState, module_base: usize) -> bool {
    p.injected && module_base != 0 ==> module_base + p.offset <= usize::MAX
}

pub open spec fn write_view(w: Option<MemoryWrite>) -> Option<(usize, Seq<u8>)> {
    match w {
        Some(w) => Some(w@),
        None => None,
    }
}

pub open spec fn bytes_view(b: Option<Vec<u8>>) -> Option<Seq<u8>> {
    match b {
        Some(b) => Some(b@),
        None => None,
    }
}

/// `address as i32`, computed without a truncating cast.
fn address_as_i32(address: usize) -> (res: i64)
    ensures
        res == signed32(address as int),
        i32::MIN <= res <= i32::MAX,
{
    let wide: u64 = address as u64;
    let low: u64 = wide % 0x1_0000_0000;
    if low < 0x8000_0000 {
        low as i64
    } else {
        low as i64 - 0x1_0000_0000
    }
}

/// The low byte of `v`, as `v as u8` gives it.
fn low_byte(v: i32) -> (res: u8)
    ensures
        res == (v % 0x100) as u8,
{
    let wide: i64 = v as i64;
    let unsigned: u64 = if wide < 0 {
        (wide + 0x1_0000_0000) as u64
    } else {
        wide as u64
    };
    assert(unsigned as int % 0x100 == v % 0x100) by {
        if wide < 0 {
            vstd::arithmetic::div_mod::lemma_mod_add_multiples_vanish(v as int, 0x100);
            assert((v + 0x1_0000_0000) % 0x100 == v % 0x100) by {
                vstd::arithmetic::div_mod::lemma_mod_multiples_vanish(0x100_0000, v as int, 0x100);
            }
        }
    }
    (unsigned % 0x100) as u8
}

/// The four little-endian bytes of the 32-bit displacement `rel`.
fn le_bytes(rel: i64) -> (res: [u8; 4])
    requires
        i32::MIN <= rel <= i32::MAX,
    ensures
        res[0] == le_byte(rel as int, 0),
        res[1] == le_byte(rel as int, 1),
        res[2] == le_byte(rel as int, 2),
        res[3] == le_byte(rel as int, 3),
{
    let unsigned: u64 = if rel < 0 {
        (rel + 0x1_0000_0000) as u64
    } else {
        rel as u64
    };
    assert(unsigned as int == rel % 0x1_0000_0000) by {
        if rel < 0 {
            vstd::arithmetic::div_mod::lemma_mod_multiples_vanish(1, rel as int, 0x1_0000_0000);
            vstd::arithmetic::div_mod::lemma_small_mod((rel + 0x1_0000_0000) as nat, 0x1_0000_0000);
        } else {
            vstd::arithmetic::div_mod::lemma_small_mod(rel as nat, 0x1_0000_0000);
        }
    }
    [
        (unsigned % 0x100) as u8,
        ((unsigned / 0x100) % 0x100) as u8,
        ((unsigned / 0x1_0000) % 0x100) as u8,
        ((unsigned / 0x100_0000) % 0x100) as u8,
    ]
}

/// The bytes a patch of this type writes at `address`.
pub fn encode(patch_type: PatchType, function: i32, length: usize, address: usize) -> (res: Vec<u8>)
    requires
        encodable(patch_type, function, length, address as int),
    ensures
        res@ == patch_bytes(patch_type, function, length, address as int),
{
    let mut res: Vec<u8> = Vec::new();
    match patch_type {
        PatchType::Fill => {
            let byte = low_byte(function);
            let mut i: usize = 0;
            while i < length
                invariant
                    i <= length,
                    res@.len() == i,
                    byte == (function % 0x100) as u8,
                    forall|j: int| 0 <= j < i ==> res@[j] == (function % 0x100) as u8,
                decreases length - i,
            {
                res.push(byte);
                i = i + 1;
            }
        },
        _ => {
            let op: u8 = match patch_type {
                PatchType::Call => 0xE8,
                _ => 0xE9,
            };
            let base = address_as_i32(address);
            let rel: i64 = function as i64 - (base + 5);
            let bytes = le_bytes(rel);
            let mut i: usize = 0;
            while i < length
                invariant
                    i <= length,
                    res@.len() == i,
                    patch_type != PatchType::Fill,
                    op == opcode(patch_type),
                    rel == displacement(function, address as int),
                    bytes[0] == le_byte(rel as int, 0),
                    bytes[1] == le_byte(rel as int, 1),
                    bytes[2] == le_byte(rel as int, 2),
                    bytes[3] == le_byte(rel as int, 3),
                    forall|j: int| 0 <= j < i ==> res@[j] == patch_bytes(patch_type, function, length, address as int)[j],
                decreases length - i,
            {
                let byte: u8 = if i == 0 {
                    op
                } else if i < 5 {
                    bytes[i - 1]
                } else {
                    0
                };
                res.push(byte);
                i = i + 1;
            }
        },
    }
    assert(res@ =~= patch_bytes(patch_type, function, length, address as int));
    res
}

impl Patch {
    /// A patch that is not yet in place; its saved bytes start as `length` zeros.
    pub fn new(patch_type: PatchType, offset: usize, length: usize, function: i32) -> (res: Patch)
        ensures
            res@.patch_type == patch_type,
            res@.offset == offset,
            res@.length == length,
            res@.function == function,
            res@.old_bytes == Seq::new(length as nat, |i: int| 0u8),
            !res@.injected,
    {
        let mut old_bytes: Vec<u8> = Vec::new();
        let mut i: usize = 0;
        while i < length
            invariant
                i <= length,
                old_bytes@ == Seq::new(i as nat, |j: int| 0u8),
            decreases length - i,
        {
            old_bytes.push(0);
            i = i + 1;
            assert(old_bytes@ =~= Seq::new(i as nat, |j: int| 0u8));
        }
        Patch { patch_type, offset, length, function, old_bytes, injected: false }
    }

    /// The patch's address for a module loaded at `module_base`; zero when
    /// the base is unknown (zero).
    pub fn get_address(&self, module_base: usize) -> (res: usize)
        requires
            module_base != 0 ==> module_base + self@.offset <= usize::MAX,
        ensures
            res == spec_address(self@.offset, module_base),
    {
        if module_base == 0 {
            return 0;
        }
        module_base + self.offset
    }

    /// Whether the patch is in place.
    pub fn is_injected(&self) -> (res: bool)
        ensures
            res == self@.injected,
    {
        self.injected
    }

    /// The number of bytes the patch overwrites.
    pub fn length(&self) -> (res: usize)
        ensures
            res == self@.length,
    {
        self.length
    }

    /// Whether `inject` may be called for a module loaded at `module_base`
    /// (its address and displacement arithmetic does not overflow).
    pub fn can_inject(&self, module_base: usize) -> (res: bool)
        ensures
            res == inject_allowed(self@, module_base),
    {
        if self.injected || module_base == 0 {
            return true;
        }
        if module_base > usize::MAX - self.offset {
            return false;
        }
        let address = module_base + self.offset;
        match self.patch_type {
            PatchType::Fill => true,
            _ => {
                if self.length < 5 {
                    return false;
                }
                let base = address_as_i32(address);
                if base + 5 > 0x7fff_ffff {
                    return false;
                }
                let rel: i64 = self.function as i64 - (base + 5);
                -0x8000_0000 <= rel && rel <= 0x7fff_ffff
            },
        }
    }

    /// Whether `eject` may be called for a module loaded at `module_base`.
    pub fn can_eject(&self, module_base: usize) -> (res: bool)
        ensures
            res == eject_allowed(self@, module_base),
    {
        !self.injected || module_base == 0 || module_base <= usize::MAX - self.offset
    }

    /// The address whose current bytes must be read before `inject`, or
    /// nothing when `inject` would do nothing.
    pub fn injection_site(&self, module_base: usize) -> (res: Option<usize>)
        requires
            inject_allowed(self@, module_base),
        ensures
            match res {
                Some(a) => spec_injection_site(self@, module_base) == Some(a as int),
                None => spec_injection_site(self@, module_base) is None,
            },
    {
        if self.injected {
            return None;
        }
        let address = self.get_address(module_base);
        if address == 0 {
            return None;
        }
        Some(address)
    }

    /// Puts the patch in place, unless it already is or the address is
    /// unknown. `original` is what the caller read at the address (nothing
    /// when the read failed, which keeps the saved bytes); it becomes the
    /// saved bytes, and the answer is the write that installs the patch.
    pub fn inject(&mut self, module_base: usize, original: Option<Vec<u8>>) -> (res: Option<MemoryWrite>)
        requires
            inject_allowed(old(self)@, module_base),
            original matches Some(b) ==> b@.len() == old(self)@.length,
        ensures
            (final(self)@, write_view(res)) == spec_inject(old(self)@, module_base, bytes_view(original)),
    {
        if self.injected {
            return None;
        }
        let address = self.get_address(module_base);
        if address == 0 {
            return None;
        }
        match original {
            Some(bytes) => {
                self.old_bytes = bytes;
            },
            None => {},
        }
        let new_bytes = encode(self.patch_type, self.function, self.length, address);
        self.injected = true;
        Some(MemoryWrite { address, bytes: new_bytes })
    }

    /// Asks for the saved bytes to be written back, if the patch is in place
    /// and the address is known. The patch itself is left as it was: it
    /// still counts as in place afterwards.
    pub fn eject(&mut self, module_base: usize) -> (res: Option<MemoryWrite>)
        requires
            eject_allowed(old(self)@, module_base),
        ensures
            final(self)@ == old(self)@,
            write_view(res) == spec_eject(old(self)@, module_base),
    {
        if !self.injected {
            return None;
        }
        let address = self.get_address(module_base);
        if address == 0 {
            return None;
        }
        Some(MemoryWrite { address, bytes: self.old_bytes.clone() })
    }
}

/// The saved bytes cover exactly the patched region.
pub open spec fn well_formed(p: PatchState) -> bool {
    p.old_bytes.len() == p.length
}

proof fn lemma_bytes_recompose(u: u32)
    by (bit_vector)
    ensures
        u == u % 0x100 + 0x100 * ((u / 0x100) % 0x100) + 0x1_0000 * ((u / 0x1_0000) % 0x100)
            + 0x100_0000 * ((u / 0x100_0000) % 0x100),
{
}

/// A call or jump patch lands on its function: the displacement stored
/// little-endian in bytes 1 to 4, added to the address of the next
/// instruction (the patch's address plus five), gives the function.
pub proof fn lemma_branch_lands_on_function(patch_type: PatchType, function: i32, length: usize, address: int)
    requires
        patch_type != PatchType::Fill,
        encodable(patch_type, function, length, address),
    ensures
        ({
            let b = patch_bytes(patch_type, function, length, address);
            &&& b.len() == length
            &&& b[0] == opcode(patch_type)
            &&& signed32(address) + 5 + signed32(le_u32(b[1], b[2], b[3], b[4])) == function
        }),
{
    let b = patch_bytes(patch_type, function, length, address);
    let d = displacement(function, address);
    let u = d % 0x1_0000_0000;
    assert(0 <= u < 0x1_0000_0000);
    lemma_bytes_recompose(u as u32);
    assert(b[1] == le_byte(d, 0));
    assert(b[2] == le_byte(d, 1));
    assert(b[3] == le_byte(d, 2));
    assert(b[4] == le_byte(d, 3));
    assert(le_u32(b[1], b[2], b[3], b[4]) == u);
    if d >= 0 {
        vstd::arithmetic::div_mod::lemma_small_mod(d as nat, 0x1_0000_0000);
    } else {
        vstd::arithmetic::div_mod::lemma_mod_multiples_vanish(1, d, 0x1_0000_0000);
        vstd::arithmetic::div_mod::lemma_small_mod((d + 0x1_0000_0000) as nat, 0x1_0000_0000);
    }
    vstd::arithmetic::div_mod::lemma_small_mod(u as nat, 0x1_0000_0000);
}

/// Every byte the patch writes is one it saved first: the write covers
/// exactly the patch's length, and a well-formed patch stays well-formed.
pub proof fn lemma_inject_keeps_lengths(p: PatchState, module_base: usize, original: Option<Seq<u8>>)
    requires
        well_formed(p),
        original matches Some(b) ==> b.len() == p.length,
    ensures
        well_formed(spec_inject(p, module_base, original).0),
        spec_inject(p, module_base, original).1 matches Some(w) ==> w.1.len() == p.length,
{
}

/// Ejecting right after injecting writes the bytes that were read before
/// the injection back at the very address the injection wrote.
pub proof fn lemma_eject_restores_original(p: PatchState, module_base: usize, original: Seq<u8>)
    requires
        !p.injected,
        module_base != 0,
    ensures
        ({
            let (after, write) = spec_inject(p, module_base, Some(original));
            &&& write is Some
            &&& spec_eject(after, module_base) == Some((write.unwrap().0, original))
        }),
{
}

/// Injecting twice changes nothing the second time.
pub proof fn lemma_inject_twice_is_noop(p: PatchState, module_base: usize, first: Option<Seq<u8>>, second: Option<Seq<u8>>)
    ensures
        ({
            let after = spec_inject(p, module_base, first).0;
            spec_inject(after, module_base, second) == (after, None::<(usize, Seq<u8>)>)
        }),
{
}

} // verus!
