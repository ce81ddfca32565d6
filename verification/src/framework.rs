use vstd::prelude::*;

verus! {

/// The checks of the account framework that an instruction's accounts can fail.
#[derive(Clone, Copy, Debug, PartialEq, Eq)]
pub enum FrameworkError {
    /// An account that must sign the transaction did not.
    AccountNotSigner,
    /// An account that must be writable is not.
    ConstraintMut,
    /// A stored address does not match the account that was passed.
    ConstraintHasOne,
    /// An account's address is not the one derived from its seeds.
    ConstraintSeeds,
}

/// Why an instruction failed: an account check of the framework, an error of
/// the program itself, or an error of the runtime (such as an unreadable
/// sysvar).
#[derive(Debug, PartialEq, Eq)]
pub enum InstructionError<E> {
    Framework(FrameworkError),
    Custom(E),
    Program(anchor_lang::prelude::ProgramError),
}

/// The `n` low bytes of `x`, least significant first.
pub open spec fn le_bytes(x: nat, n: nat) -> Seq<u8>
    decreases n,
{
    if n == 0 {
        Seq::empty()
    } else {
        seq![(x % 256) as u8] + le_bytes(x / 256, (n - 1) as nat)
    }
}

/// The eight bytes of `x` in little-endian order, as `u64::to_le_bytes` gives them.
pub open spec fn u64_le_bytes(x: u64) -> Seq<u8> {
    le_bytes(x as nat, 8)
}

/// The little-endian bytes of `x`.
pub fn u64_to_le_bytes(x: u64) -> (r: Vec<u8>)
    ensures
        r@ == u64_le_bytes(x),
{
    let mut out: Vec<u8> = Vec::new();
    let mut v: u64 = x;
    let mut i: usize = 0;
    while i < 8
        invariant
            i <= 8,
            out@ + le_bytes(v as nat, (8 - i) as nat) == le_bytes(x as nat, 8),
        decreases 8 - i,
    {
        let b: u8 = (v % 256) as u8;
        let ghost rest = le_bytes((v / 256) as nat, (8 - i - 1) as nat);
        assert(le_bytes(v as nat, (8 - i) as nat) == seq![b] + rest);
        assert(out@.push(b) + rest =~= out@ + (seq![b] + rest));
        out.push(b);
        v = v / 256;
        i = i + 1;
    }
    assert(le_bytes(v as nat, 0) =~= Seq::<u8>::empty());
    assert(out@ + Seq::<u8>::empty() =~= out@);
    out
}

/// `256` to the power `n`: the first number that `n` bytes cannot hold.
pub open spec fn byte_bound(n: nat) -> nat
    decreases n,
{
    if n == 0 {
        1
    } else {
        256 * byte_bound((n - 1) as nat)
    }
}

/// Numbers that fit in `n` bytes are told apart by their `n` low bytes.
pub proof fn lemma_le_bytes_injective(x: nat, y: nat, n: nat)
    requires
        x < byte_bound(n),
        y < byte_bound(n),
        le_bytes(x, n) == le_bytes(y, n),
    ensures
        x == y,
    decreases n,
{
    if n > 0 {
        let m = (n - 1) as nat;
        let bm = byte_bound(m);
        assert(x / 256 < bm) by (nonlinear_arith)
            requires
                x < 256 * bm,
        ;
        assert(y / 256 < bm) by (nonlinear_arith)
            requires
                y < 256 * bm,
        ;
        assert(le_bytes(x, n)[0] == (x % 256) as u8);
        assert(le_bytes(y, n)[0] == (y % 256) as u8);
        assert(le_bytes(x, n).drop_first() =~= le_bytes(x / 256, m));
        assert(le_bytes(y, n).drop_first() =~= le_bytes(y / 256, m));
        lemma_le_bytes_injective(x / 256, y / 256, m);
        assert(x == 256 * (x / 256) + x % 256);
        assert(y == 256 * (y / 256) + y % 256);
    }
}

/// `le_bytes` gives exactly `n` bytes.
pub proof fn lemma_le_bytes_len(x: nat, n: nat)
    ensures
        le_bytes(x, n).len() == n,
    decreases n,
{
    if n > 0 {
        lemma_le_bytes_len(x / 256, (n - 1) as nat);
    }
}

/// The little-endian bytes of a `u64` are eight, and two different numbers
/// never have the same bytes: every bit of the number is in them.
pub proof fn lemma_u64_le_bytes_injective(x: u64, y: u64)
    ensures
        u64_le_bytes(x).len() == 8,
        u64_le_bytes(x) == u64_le_bytes(y) ==> x == y,
{
    lemma_le_bytes_len(x as nat, 8);
    reveal_with_fuel(byte_bound, 9);
    assert(byte_bound(8) == 0x1_0000_0000_0000_0000);
    if u64_le_bytes(x) == u64_le_bytes(y) {
        lemma_le_bytes_injective(x as nat, y as nat, 8);
    }
}

} // verus!
