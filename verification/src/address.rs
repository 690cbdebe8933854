//! Account addresses, their order, and lists of signers.
use vstd::prelude::*;

verus! {

/// The address of an account: the bytes of its public key.
pub type Address = [u8; 32];

/// `a` stands before `b` in the order of their bytes.
pub open spec fn address_before(a: Address, b: Address) -> bool {
    exists|k: int| #[trigger] differs_first_at(a, b, k) && a[k] < b[k]
}

/// `k` is the first place where `a` and `b` hold different bytes.
pub open spec fn differs_first_at(a: Address, b: Address, k: int) -> bool {
    &&& 0 <= k < 32
    &&& a[k] != b[k]
    &&& forall|j: int| 0 <= j < k ==> a[j] == b[j]
}

/// The addresses of `s` ascend strictly.
pub open spec fn ascending(s: Seq<Address>) -> bool {
    forall|i: int, j: int| 0 <= i < j < s.len() ==> address_before(#[trigger] s[i], #[trigger] s[j])
}

/// `unique` holds what `listed` holds, each address once, in ascending order.
pub open spec fn unique_of(unique: Seq<Address>, listed: Seq<Address>) -> bool {
    &&& ascending(unique)
    &&& forall|a: Address| #[trigger] unique.contains(a) <==> listed.contains(a)
}

/// How two addresses compare, byte by byte.
#[derive(Clone, Copy, PartialEq, Eq, Structural, Debug)]
pub enum AddressOrder {
    Before,
    Same,
    After,
}

/// Compares two addresses by the first byte in which they differ.
pub fn address_order(a: &Address, b: &Address) -> (r: AddressOrder)
    ensures
        r == AddressOrder::Before <==> address_before(*a, *b),
        r == AddressOrder::Same <==> *a == *b,
        r == AddressOrder::After <==> address_before(*b, *a),
{
    let mut k: usize = 0;
    while k < 32
        invariant
            k <= 32,
            forall|j: int| 0 <= j < k ==> a[j] == b[j],
        decreases 32 - k,
    {
        if a[k] != b[k] {
            proof {
                assert(differs_first_at(*a, *b, k as int));
                assert(differs_first_at(*b, *a, k as int));
                if a[k as int] < b[k as int] {
                    law_address_order_is_strict(*a, *b);
                } else {
                    law_address_order_is_strict(*b, *a);
                }
            }
            if a[k] < b[k] {
                return AddressOrder::Before;
            }
            return AddressOrder::After;
        }
        k = k + 1;
    }
    assert(*a =~= *b);
    AddressOrder::Same
}

/// Tells whether two addresses are the same.
pub fn same_address(a: &Address, b: &Address) -> (r: bool)
    ensures
        r == (*a == *b),
{
    match address_order(a, b) {
        AddressOrder::Same => true,
        _ => false,
    }
}

/// The bytes of an optional address.
pub open spec fn address_bytes(address: Option<Address>) -> Option<Seq<u8>> {
    match address {
        Some(address) => Some(address@),
        None => None,
    }
}

/// Tells whether two optional addresses are the same.
pub fn same_optional_address(a: &Option<Address>, b: &Option<Address>) -> (r: bool)
    ensures
        r == (*a == *b),
{
    match (a, b) {
        (Some(x), Some(y)) => same_address(x, y),
        (None, None) => true,
        _ => false,
    }
}

/// Sorts signers by address and drops repeated ones.
pub fn unique_signers(listed: &Vec<Address>) -> (unique: Vec<Address>)
    ensures
        unique_of(unique@, listed@),
        unique.len() <= listed.len(),
{
    let mut unique: Vec<Address> = Vec::new();
    let mut i: usize = 0;
    while i < listed.len()
        invariant
            i <= listed.len(),
            unique.len() <= i,
            unique_of(unique@, listed@.take(i as int)),
        decreases listed.len() - i,
    {
        let ghost before = unique@;
        insert_signer(&mut unique, listed[i]);
        proof {
            let prefix = listed@.take(i as int);
            let longer = listed@.take(i + 1);
            assert(longer =~= prefix.push(listed@[i as int]));
            assert forall|a: Address| #[trigger] unique@.contains(a) <==> longer.contains(a) by {
                lemma_push_contains(prefix, listed@[i as int], a);
                assert(before.contains(a) <==> prefix.contains(a));
            }
        }
        i = i + 1;
    }
    assert(listed@.take(listed@.len() as int) =~= listed@);
    unique
}

/// Puts `signer` in its place among signers that ascend, unless it is there.
fn insert_signer(signers: &mut Vec<Address>, signer: Address)
    requires
        ascending(old(signers)@),
    ensures
        ascending(final(signers)@),
        final(signers).len() <= old(signers).len() + 1,
        forall|a: Address| #[trigger]
            final(signers)@.contains(a) <==> (old(signers)@.contains(a) || a == signer),
{
    let ghost before = signers@;
    let mut p: usize = 0;
    while p < signers.len()
        invariant
            p <= signers.len(),
            signers@ == before,
            before == old(signers)@,
            ascending(before),
            forall|j: int| 0 <= j < p ==> address_before(#[trigger] before[j], signer),
        decreases signers.len() - p,
    {
        match address_order(&signers[p], &signer) {
            AddressOrder::Before => {
                p = p + 1;
            },
            AddressOrder::Same => {
                assert(before[p as int] == signer);
                return;
            },
            AddressOrder::After => {
                signers.insert(p, signer);
                proof {
                    lemma_insert_ascending(before, p as int, signer);
                }
                return;
            },
        }
    }
    signers.push(signer);
    proof {
        assert(signers@ =~= before.insert(p as int, signer));
        lemma_insert_ascending(before, p as int, signer);
    }
}

/// No address stands before itself, and of two addresses at most one stands
/// before the other.
pub proof fn law_address_order_is_strict(a: Address, b: Address)
    requires
        address_before(a, b),
    ensures
        !address_before(b, a),
        a != b,
{
    let k = choose|k: int| #[trigger] differs_first_at(a, b, k) && a[k] < b[k];
    assert forall|m: int| !(#[trigger] differs_first_at(b, a, m) && b[m] < a[m]) by {
        if differs_first_at(b, a, m) {
            assert(m == k);
        }
    }
}

/// The addresses of a list determine its unique form: two lists with the same
/// addresses, in whatever order and however often repeated, have the same one.
pub proof fn law_unique_signers_are_determined(
    first: Seq<Address>,
    second: Seq<Address>,
    listed: Seq<Address>,
    relisted: Seq<Address>,
)
    requires
        unique_of(first, listed),
        unique_of(second, relisted),
        forall|a: Address| #[trigger] listed.contains(a) <==> relisted.contains(a),
    ensures
        first == second,
{
    assert forall|a: Address| #[trigger] first.contains(a) <==> second.contains(a) by {
        assert(listed.contains(a) <==> relisted.contains(a));
    }
    lemma_ascending_determined(first, second);
}

/// Of two different addresses, one stands before the other.
pub proof fn law_address_order_is_total(a: Address, b: Address)
    requires
        a != b,
    ensures
        address_before(a, b) || address_before(b, a),
{
    if forall|j: int| 0 <= j < 32 ==> a[j] == b[j] {
        assert(a =~= b);
    }
    let w = choose|j: int| 0 <= j < 32 && a[j] != b[j];
    let k = lemma_first_difference(a, b, w);
    assert(differs_first_at(b, a, k));
}

/// The order of addresses is transitive.
pub proof fn law_address_order_is_transitive(a: Address, b: Address, c: Address)
    requires
        address_before(a, b),
        address_before(b, c),
    ensures
        address_before(a, c),
{
    let k = choose|k: int| #[trigger] differs_first_at(a, b, k) && a[k] < b[k];
    let m = choose|m: int| #[trigger] differs_first_at(b, c, m) && b[m] < c[m];
    if k <= m {
        assert(differs_first_at(a, c, k));
    } else {
        assert(differs_first_at(a, c, m));
    }
}

proof fn lemma_push_contains(s: Seq<Address>, x: Address, a: Address)
    ensures
        s.push(x).contains(a) <==> (s.contains(a) || a == x),
{
    let t = s.push(x);
    if s.contains(a) {
        let j = choose|j: int| 0 <= j < s.len() && s[j] == a;
        assert(t[j] == a);
    }
    if a == x {
        assert(t[s.len() as int] == a);
    }
}

proof fn lemma_insert_ascending(s: Seq<Address>, p: int, x: Address)
    requires
        ascending(s),
        0 <= p <= s.len(),
        forall|j: int| 0 <= j < p ==> address_before(#[trigger] s[j], x),
        p < s.len() ==> address_before(x, s[p]),
    ensures
        ascending(s.insert(p, x)),
        forall|a: Address| #[trigger] s.insert(p, x).contains(a) <==> (s.contains(a) || a == x),
{
    let t = s.insert(p, x);
    assert forall|i: int, j: int| 0 <= i < j < t.len() implies address_before(
        #[trigger] t[i],
        #[trigger] t[j],
    ) by {
        if i == p && j > p + 1 {
            assert(address_before(s[p], s[j - 1]));
            law_address_order_is_transitive(x, s[p], s[j - 1]);
        }
    }
    assert forall|a: Address| #[trigger] t.contains(a) <==> (s.contains(a) || a == x) by {
        if s.contains(a) {
            let j = choose|j: int| 0 <= j < s.len() && s[j] == a;
            assert(t[if j < p {
                j
            } else {
                j + 1
            }] == a);
        }
        if a == x {
            assert(t[p] == a);
        }
    }
}

proof fn lemma_ascending_determined(a: Seq<Address>, b: Seq<Address>)
    requires
        ascending(a),
        ascending(b),
        forall|x: Address|
            #![trigger a.contains(x)]
            #![trigger b.contains(x)]
            a.contains(x) <==> b.contains(x),
    ensures
        a == b,
    decreases a.len() + b.len(),
{
    if a.len() == 0 {
        if b.len() > 0 {
            assert(b.contains(b[0]));
        }
        assert(a =~= b);
    } else if b.len() == 0 {
        assert(a.contains(a[0]));
    } else {
        let x = a.last();
        let y = b.last();
        assert(a.contains(x) && b.contains(y));
        let i = choose|i: int| 0 <= i < b.len() && b[i] == x;
        let j = choose|j: int| 0 <= j < a.len() && a[j] == y;
        if x != y {
            assert(address_before(b[i], b[b.len() - 1]));
            assert(address_before(a[j], a[a.len() - 1]));
            law_address_order_is_strict(x, y);
        }
        let c = a.drop_last();
        let d = b.drop_last();
        assert forall|z: Address|
            #![trigger c.contains(z)]
            #![trigger d.contains(z)]
            c.contains(z) <==> d.contains(z) by {
            if c.contains(z) {
                let m = choose|m: int| 0 <= m < c.len() && c[m] == z;
                assert(a[m] == z && address_before(a[m], a[a.len() - 1]));
                law_address_order_is_strict(z, x);
                assert(a.contains(z));
                let n = choose|n: int| 0 <= n < b.len() && b[n] == z;
                assert(d[n] == z);
            }
            if d.contains(z) {
                let m = choose|m: int| 0 <= m < d.len() && d[m] == z;
                assert(b[m] == z && address_before(b[m], b[b.len() - 1]));
                law_address_order_is_strict(z, x);
                assert(b.contains(z));
                let n = choose|n: int| 0 <= n < a.len() && a[n] == z;
                assert(c[n] == z);
            }
        }
        lemma_ascending_determined(c, d);
        assert(a =~= c.push(x));
        assert(b =~= d.push(y));
    }
}

proof fn lemma_first_difference(a: Address, b: Address, w: int) -> (k: int)
    requires
        0 <= w < 32,
        a[w] != b[w],
    ensures
        differs_first_at(a, b, k),
    decreases w,
{
    if forall|j: int| 0 <= j < w ==> a[j] == b[j] {
        w
    } else {
        let v = choose|j: int| 0 <= j < w && a[j] != b[j];
        lemma_first_difference(a, b, v)
    }
}

/// The bytes of an address that is there are its own, and there are none of one that is not.
pub proof fn law_an_address_has_its_own_bytes(address: Address)
    ensures
        address_bytes(Some(address)) == Some(address@),
        address_bytes(None) is None,
{
}

} // verus!
