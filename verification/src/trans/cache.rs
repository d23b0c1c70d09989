//! The keys of the lowering of a program: a function to lower is a
//! definition and a signature. Keys are told apart by one number each, under
//! which the cache of names holds them.

use vstd::prelude::*;
use vstd::set_lib::{lemma_int_range, lemma_len_difference, lemma_len_subset, set_int_range};
use crate::mir::{DefId, Program, SigId};

verus! {

/// A function to lower: a definition and the signature to lower it at.
pub type Key = (DefId, SigId);

/// Whether `key` is among the keys `ks`.
pub open spec fn has_key(ks: Seq<Key>, key: Key) -> bool {
    exists|i: int| 0 <= i < ks.len() && #[trigger] ks[i] == key
}

/// Whether the items of `a` are the first items of `b`.
pub open spec fn is_prefix<T>(a: Seq<T>, b: Seq<T>) -> bool {
    a.len() <= b.len() && forall|i: int| 0 <= i < a.len() ==> #[trigger] b[i] == a[i]
}

/// A key that is among some keys is among them when keys are added.
pub proof fn lemma_has_key_mono(a: Seq<Key>, b: Seq<Key>, key: Key)
    requires
        is_prefix(a, b),
        has_key(a, key),
    ensures
        has_key(b, key),
{
    let i = choose|i: int| 0 <= i < a.len() && #[trigger] a[i] == key;
    assert(b[i] == key);
}

/// After a key is added, the keys are those there were and the key added.
pub proof fn lemma_has_key_push(ks: Seq<Key>, added: Key, key: Key)
    ensures
        has_key(ks.push(added), key) <==> has_key(ks, key) || added == key,
{
    if has_key(ks, key) {
        let i = choose|i: int| 0 <= i < ks.len() && #[trigger] ks[i] == key;
        assert(ks.push(added)[i] == key);
    }
    if added == key {
        assert(ks.push(added)[ks.len() as int] == key);
    }
    if has_key(ks.push(added), key) {
        let i = choose|i: int| 0 <= i < ks.push(added).len() && #[trigger] ks.push(added)[i] == key;
        if i < ks.len() {
            assert(ks[i] == key);
        }
    }
}

/// A key as one number: keys of a program are told apart by it.
pub open spec fn key_code(program: &Program, key: Key) -> int {
    key.0 * program.sigs.len() + key.1
}

/// The numbers of the keys `ks`.
pub open spec fn key_codes(program: &Program, ks: Seq<Key>) -> Set<int> {
    Set::new(|c: int| exists|i: int| 0 <= i < ks.len() && key_code(program, #[trigger] ks[i]) == c)
}

/// The numbers of all keys of a program: a definition of the program with
/// a signature of the program.
pub open spec fn all_codes(program: &Program) -> Set<int> {
    set_int_range(0, program.defs.len() * program.sigs.len())
}

/// How many keys of the program are not among the keys `ks`.
pub open spec fn missing_keys(program: &Program, ks: Seq<Key>) -> nat {
    all_codes(program).difference(key_codes(program, ks)).len()
}

/// Whether every one of the keys is a key of the program.
pub open spec fn keys_in_range(program: &Program, ks: Seq<Key>) -> bool {
    forall|i: int|
        0 <= i < ks.len() ==> (#[trigger] ks[i]).0 < program.defs.len() && ks[i].1
            < program.sigs.len()
}

proof fn lemma_codes_finite(program: &Program)
    ensures
        all_codes(program).finite(),
{
    assert(0 <= program.defs.len() * program.sigs.len()) by (nonlinear_arith);
    lemma_int_range(0, program.defs.len() * program.sigs.len());
}

proof fn lemma_code_injective(n: int, d1: int, s1: int, d2: int, s2: int)
    requires
        0 <= s1 < n,
        0 <= s2 < n,
        0 <= d1,
        0 <= d2,
        d1 * n + s1 == d2 * n + s2,
    ensures
        d1 == d2,
        s1 == s2,
{
    if d1 < d2 {
        assert((d2 - d1) * n >= n) by (nonlinear_arith)
            requires
                d2 - d1 >= 1,
                n > 0,
        ;
        assert((d2 - d1) * n == d2 * n - d1 * n) by (nonlinear_arith);
    } else if d2 < d1 {
        assert((d1 - d2) * n >= n) by (nonlinear_arith)
            requires
                d1 - d2 >= 1,
                n > 0,
        ;
        assert((d1 - d2) * n == d1 * n - d2 * n) by (nonlinear_arith);
    }
}

proof fn lemma_code_in_range(nd: int, ns: int, d: int, s: int)
    requires
        0 <= d < nd,
        0 <= s < ns,
    ensures
        0 <= d * ns + s < nd * ns,
{
    assert(d * ns >= 0) by (nonlinear_arith)
        requires
            d >= 0,
            ns >= 0,
    ;
    assert(d * ns + ns <= nd * ns) by (nonlinear_arith)
        requires
            d + 1 <= nd,
            ns >= 0,
    ;
}

/// A new key never raises the number of keys that are missing.
pub proof fn lemma_missing_keys_mono(program: &Program, a: Seq<Key>, b: Seq<Key>)
    requires
        is_prefix(a, b),
    ensures
        missing_keys(program, b) <= missing_keys(program, a),
{
    lemma_codes_finite(program);
    let da = all_codes(program).difference(key_codes(program, a));
    let db = all_codes(program).difference(key_codes(program, b));
    lemma_len_difference(all_codes(program), key_codes(program, a));
    assert(da.subset_of(all_codes(program)));
    lemma_len_subset(da, all_codes(program));
    assert forall|c: int| db.contains(c) implies da.contains(c) by {
        if key_codes(program, a).contains(c) {
            let i = choose|i: int| 0 <= i < a.len() && key_code(program, #[trigger] a[i]) == c;
            assert(b[i] == a[i]);
            assert(key_codes(program, b).contains(c));
        }
    }
    lemma_len_subset(db, da);
}

/// A key of the program that was missing, once added, lowers the number
/// of keys that are missing.
pub proof fn lemma_missing_keys_insert(program: &Program, ks: Seq<Key>, key: Key)
    requires
        keys_in_range(program, ks),
        key.0 < program.defs.len(),
        key.1 < program.sigs.len(),
        !has_key(ks, key),
    ensures
        missing_keys(program, ks.push(key)) < missing_keys(program, ks),
{
    lemma_codes_finite(program);
    let n = program.sigs.len() as int;
    let c = key_code(program, key);
    let before = all_codes(program).difference(key_codes(program, ks));
    let after = all_codes(program).difference(key_codes(program, ks.push(key)));
    assert(before.subset_of(all_codes(program)));
    lemma_len_subset(before, all_codes(program));
    lemma_code_in_range(program.defs.len() as int, n, key.0 as int, key.1 as int);
    assert(all_codes(program).contains(c));
    if key_codes(program, ks).contains(c) {
        let i = choose|i: int| 0 <= i < ks.len() && key_code(program, #[trigger] ks[i]) == c;
        lemma_code_injective(n, ks[i].0 as int, ks[i].1 as int, key.0 as int, key.1 as int);
        assert(ks[i] == key);
    }
    assert(before.contains(c));
    assert(ks.push(key)[ks.len() as int] == key);
    assert(key_codes(program, ks.push(key)).contains(c));
    assert forall|x: int| after.contains(x) <==> before.remove(c).contains(x) by {
        if key_codes(program, ks).contains(x) {
            let i = choose|i: int| 0 <= i < ks.len() && key_code(program, #[trigger] ks[i]) == x;
            assert(ks.push(key)[i] == ks[i]);
            assert(key_codes(program, ks.push(key)).contains(x));
        }
        if key_codes(program, ks.push(key)).contains(x) && x != c {
            let i = choose|i: int|
                0 <= i < ks.push(key).len() && key_code(program, #[trigger] ks.push(key)[i]) == x;
            assert(i < ks.len());
            assert(ks.push(key)[i] == ks[i]);
            assert(key_codes(program, ks).contains(x));
        }
    }
    assert(after =~= before.remove(c));
    vstd::set::axiom_set_remove_len(before, c);
}

/// Keys of the program are told apart by their numbers: a key of the
/// program is among keys of the program exactly if its number is among
/// theirs.
pub proof fn lemma_code_has_key(program: &Program, ks: Seq<Key>, key: Key)
    requires
        keys_in_range(program, ks),
        key.0 < program.defs.len(),
        key.1 < program.sigs.len(),
    ensures
        key_codes(program, ks).contains(key_code(program, key)) <==> has_key(ks, key),
        0 <= key_code(program, key) < program.defs.len() * program.sigs.len(),
        key_code(program, key) <= u128::MAX,
{
    let n = program.sigs.len() as int;
    let c = key_code(program, key);
    lemma_code_in_range(program.defs.len() as int, n, key.0 as int, key.1 as int);
    lemma_code_fits(program.defs.len() as int, n);
    if key_codes(program, ks).contains(c) {
        let i = choose|i: int| 0 <= i < ks.len() && key_code(program, #[trigger] ks[i]) == c;
        lemma_code_injective(n, ks[i].0 as int, ks[i].1 as int, key.0 as int, key.1 as int);
        assert(ks[i] == key);
    }
    if has_key(ks, key) {
        let i = choose|i: int| 0 <= i < ks.len() && #[trigger] ks[i] == key;
        assert(key_code(program, ks[i]) == c);
    }
}

proof fn lemma_code_fits(nd: int, ns: int)
    requires
        0 <= nd <= usize::MAX,
        0 <= ns <= usize::MAX,
    ensures
        nd * ns <= u128::MAX,
{
    assert(nd * ns <= 0xffff_ffff_ffff_ffff * 0xffff_ffff_ffff_ffff) by (nonlinear_arith)
        requires
            0 <= nd <= 0xffff_ffff_ffff_ffff,
            0 <= ns <= 0xffff_ffff_ffff_ffff,
    ;
}

/// The number of the key `(did, sig)`, for a definition and a signature
/// of the program.
pub fn key_code_of(program: &Program, did: DefId, sig: SigId) -> (r: u128)
    requires
        did < program.defs.len(),
        sig < program.sigs.len(),
    ensures
        r == key_code(program, (did, sig)),
{
    proof {
        lemma_code_in_range(
            program.defs.len() as int,
            program.sigs.len() as int,
            did as int,
            sig as int,
        );
        lemma_code_fits(program.defs.len() as int, program.sigs.len() as int);
        assert(did * program.sigs.len() >= 0) by (nonlinear_arith)
            requires
                did >= 0,
                program.sigs.len() >= 0,
        ;
    }
    let n = program.sigs.len() as u128;
    did as u128 * n + sig as u128
}

} // verus!
