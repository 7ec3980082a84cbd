use std::collections::hash_map::DefaultHasher;
use std::hash::Hasher;
use vstd::prelude::*;
use vstd::std_specs::hash::DefaultHasherAdditionalSpecFns;
use vstd::utf8::encode_utf8;
use vstd::relations::sorted_by;
use vstd::seq_lib::lemma_multiset_commutative;

verus! {

/// What `str::trim` returns: the characters with leading and trailing
/// Unicode white space removed.
pub uninterp spec fn trim_of(s: Seq<char>) -> Seq<char>;

/// Relies on `str::trim`: strips leading and trailing white space.
#[verifier::external_body]
pub(crate) fn trim(s: &str) -> (r: &str)
    ensures
        r@ == trim_of(s@),
{
    s.trim()
}

/// The hash of a string's UTF-8 bytes under a fresh `DefaultHasher`.
pub open spec fn hash_of(s: Seq<char>) -> u64 {
    DefaultHasher::spec_finish(seq![encode_utf8(s)])
}

/// Hashes a string's bytes with a fresh `DefaultHasher`.
fn str_hash(s: &str) -> (r: u64)
    ensures
        r == hash_of(s@),
{
    let mut hasher = DefaultHasher::new();
    hasher.write(s.as_bytes());
    assert(hasher@ =~= seq![encode_utf8(s@)]);
    hasher.finish()
}

/// The one-character string of the decimal digit `d`.
fn digit_str(d: u64) -> (r: &'static str)
    requires
        d < 10,
    ensures
        r@ == seq![digit(d as nat)],
{
    proof {
        reveal_strlit("0");
        reveal_strlit("1");
        reveal_strlit("2");
        reveal_strlit("3");
        reveal_strlit("4");
        reveal_strlit("5");
        reveal_strlit("6");
        reveal_strlit("7");
        reveal_strlit("8");
        reveal_strlit("9");
    }
    if d == 0 { "0" }
    else if d == 1 { "1" }
    else if d == 2 { "2" }
    else if d == 3 { "3" }
    else if d == 4 { "4" }
    else if d == 5 { "5" }
    else if d == 6 { "6" }
    else if d == 7 { "7" }
    else if d == 8 { "8" }
    else { "9" }
}

/// Appends the decimal representation of `n` to `out`.
fn push_decimal(out: &mut String, n: u64)
    ensures
        final(out)@ == old(out)@ + decimal(n as nat),
    decreases n,
{
    if n >= 10 {
        push_decimal(out, n / 10);
    }
    out.append(digit_str(n % 10));
    assert(n < 10 ==> n % 10 == n);
}

/// Relies on `slice::sort`: the slice ends up in ascending order, holding
/// the same values.
#[verifier::external_body]
fn sort_ascending(v: &mut Vec<u64>)
    ensures
        final(v)@.to_multiset() == old(v)@.to_multiset(),
        ascending(final(v)@),
{
    v.sort();
}

/// The decimal digit for `d < 10`.
pub open spec fn digit(d: nat) -> char {
    if d == 0 { '0' }
    else if d == 1 { '1' }
    else if d == 2 { '2' }
    else if d == 3 { '3' }
    else if d == 4 { '4' }
    else if d == 5 { '5' }
    else if d == 6 { '6' }
    else if d == 7 { '7' }
    else if d == 8 { '8' }
    else { '9' }
}

/// The decimal representation of `n`.
pub open spec fn decimal(n: nat) -> Seq<char>
    decreases n,
{
    if n < 10 {
        seq![digit(n)]
    } else {
        decimal(n / 10).push(digit(n % 10))
    }
}

pub open spec fn leq_u64() -> spec_fn(u64, u64) -> bool {
    |a: u64, b: u64| a <= b
}

pub open spec fn ascending(s: Seq<u64>) -> bool {
    sorted_by(s, leq_u64())
}

/// The 63-bit fingerprint of one participant: the hash of the trimmed name,
/// shifted right by one bit.
pub open spec fn fingerprint(name: Seq<char>) -> u64 {
    hash_of(trim_of(name)) >> 1u64
}

/// The fingerprints of the participants, in the order given.
pub open spec fn fingerprints(names: Seq<Seq<char>>) -> Seq<u64> {
    names.map_values(|n: Seq<char>| fingerprint(n))
}

/// `_fp1_fp2...` for the fingerprints in the order given.
pub open spec fn dm_suffix(fps: Seq<u64>) -> Seq<char>
    decreases fps.len(),
{
    if fps.len() == 0 {
        Seq::empty()
    } else {
        dm_suffix(fps.drop_last()) + seq!['_'] + decimal(fps.last() as nat)
    }
}

/// The direct-message channel for a list of participants: `DM` followed by
/// `_` and each fingerprint, in ascending order.
pub open spec fn dm_name(names: Seq<Seq<char>>) -> Seq<char> {
    seq!['D', 'M'] + dm_suffix(fingerprints(names).sort_by(leq_u64()))
}

/// The names behind a slice of string slices.
pub open spec fn names_of(names: Seq<&str>) -> Seq<Seq<char>> {
    names.map_values(|s: &str| s@)
}

/// Two ascending sequences holding the same values are the same sequence.
pub proof fn lemma_ascending_unique(a: Seq<u64>, b: Seq<u64>)
    requires
        ascending(a),
        ascending(b),
        a.to_multiset() == b.to_multiset(),
    ensures
        a == b,
    decreases a.len(),
{
    broadcast use vstd::seq_lib::group_to_multiset_ensures;

    a.to_multiset_ensures();
    b.to_multiset_ensures();
    if a.len() == 0 {
        assert(b.to_multiset().len() == 0);
        assert(a =~= b);
    } else {
        assert(b.len() == a.len());
        let x = a.last();
        let y = b.last();
        assert(a.drop_last().push(x) =~= a);
        assert(b.drop_last().push(y) =~= b);
        assert(a.to_multiset().count(y) > 0);
        assert(b.to_multiset().count(x) > 0);
        let i = choose|i: int| 0 <= i < a.len() && a[i] == y;
        let j = choose|j: int| 0 <= j < b.len() && b[j] == x;
        if i < a.len() - 1 {
            assert(leq_u64()(a[i], a[a.len() - 1]));
        }
        if j < b.len() - 1 {
            assert(leq_u64()(b[j], b[b.len() - 1]));
        }
        assert(x == y);
        a.drop_last().to_multiset_ensures();
        b.drop_last().to_multiset_ensures();
        assert(a.drop_last().to_multiset() =~= a.to_multiset().remove(x));
        assert(b.drop_last().to_multiset() =~= b.to_multiset().remove(x));
        assert forall|p: int, q: int| 0 <= p < q < a.drop_last().len() implies
            #[trigger] leq_u64()(a.drop_last()[p], a.drop_last()[q]) by {
            assert(leq_u64()(a[p], a[q]));
        }
        assert forall|p: int, q: int| 0 <= p < q < b.drop_last().len() implies
            #[trigger] leq_u64()(b.drop_last()[p], b.drop_last()[q]) by {
            assert(leq_u64()(b[p], b[q]));
        }
        lemma_ascending_unique(a.drop_last(), b.drop_last());
    }
}

/// The multiset of `s` with its element at `j` taken out.
proof fn lemma_remove_multiset<A>(s: Seq<A>, j: int)
    requires
        0 <= j < s.len(),
    ensures
        s.remove(j).to_multiset() == s.to_multiset().remove(s[j]),
{
    broadcast use vstd::seq_lib::group_to_multiset_ensures;

    let l = s.take(j);
    let r = s.skip(j + 1);
    assert(s.remove(j) =~= l + r);
    assert(s =~= l + (seq![s[j]] + r));
    lemma_multiset_commutative(l, r);
    lemma_multiset_commutative(l, seq![s[j]] + r);
    lemma_multiset_commutative(seq![s[j]], r);
    assert(seq![s[j]] =~= Seq::<A>::empty().push(s[j]));
    Seq::<A>::empty().to_multiset_ensures();
    assert(s.to_multiset() =~= s.remove(j).to_multiset().insert(s[j]));
}

/// Participant lists holding the same names give the same fingerprints, up
/// to order.
proof fn lemma_fingerprints_permuted(a: Seq<Seq<char>>, b: Seq<Seq<char>>)
    requires
        a.to_multiset() == b.to_multiset(),
    ensures
        fingerprints(a).to_multiset() == fingerprints(b).to_multiset(),
    decreases a.len(),
{
    broadcast use vstd::seq_lib::group_to_multiset_ensures;

    a.to_multiset_ensures();
    b.to_multiset_ensures();
    if a.len() == 0 {
        assert(b.len() == 0);
        assert(fingerprints(a) =~= fingerprints(b));
    } else {
        let x = a.last();
        assert(a.drop_last().push(x) =~= a);
        a.drop_last().to_multiset_ensures();
        assert(b.to_multiset().count(x) > 0);
        let j = choose|j: int| 0 <= j < b.len() && b[j] == x;
        let b2 = b.remove(j);
        lemma_remove_multiset(b, j);
        assert(a.drop_last().to_multiset() =~= a.to_multiset().remove(x));
        lemma_fingerprints_permuted(a.drop_last(), b2);
        let fb = fingerprints(b);
        assert(fingerprints(b2) =~= fb.remove(j));
        lemma_remove_multiset(fb, j);
        fb.to_multiset_ensures();
        assert(fb[j] == fingerprint(x));
        assert(fb.to_multiset().count(fingerprint(x)) > 0);
        assert(fingerprints(a) =~= fingerprints(a.drop_last()).push(fingerprint(x)));
        fingerprints(a.drop_last()).to_multiset_ensures();
        assert(fingerprints(a).to_multiset() =~= fb.to_multiset());
    }
}

/// The channel name does not depend on the order in which the participants
/// are listed: any two lists holding the same names, each as often, give the
/// same name.
pub proof fn lemma_dm_name_symmetric(a: Seq<Seq<char>>, b: Seq<Seq<char>>)
    requires
        a.to_multiset() == b.to_multiset(),
    ensures
        dm_name(a) == dm_name(b),
{
    lemma_fingerprints_permuted(a, b);
    fingerprints(a).lemma_sort_by_ensures(leq_u64());
    fingerprints(b).lemma_sort_by_ensures(leq_u64());
    lemma_ascending_unique(
        fingerprints(a).sort_by(leq_u64()),
        fingerprints(b).sort_by(leq_u64()),
    );
}

/// The channel name depends on nothing but the trimmed participant names:
/// lists that agree name by name once trimmed give the same name, every
/// time.
pub proof fn lemma_dm_name_deterministic(a: Seq<Seq<char>>, b: Seq<Seq<char>>)
    requires
        a.len() == b.len(),
        forall|i: int| 0 <= i < a.len() ==> trim_of(#[trigger] a[i]) == trim_of(b[i]),
    ensures
        dm_name(a) == dm_name(b),
{
    assert(fingerprints(a) =~= fingerprints(b));
}

/// The canonical channel identifier of a direct conversation between the
/// given participants.
pub fn generate_dm_name(usernames: &[&str]) -> (r: String)
    ensures
        r@ == dm_name(names_of(usernames@)),
{
    let ghost names = names_of(usernames@);
    let mut hashes: Vec<u64> = Vec::new();
    let mut i: usize = 0;
    while i < usernames.len()
        invariant
            i <= usernames@.len(),
            names == names_of(usernames@),
            hashes@ == fingerprints(names).take(i as int),
        decreases usernames@.len() - i,
    {
        let h = str_hash(trim(usernames[i]));
        hashes.push(h >> 1u64);
        assert(fingerprints(names).take(i as int + 1) =~= fingerprints(names).take(i as int).push(
            fingerprint(names[i as int]),
        ));
        i = i + 1;
    }
    assert(hashes@ =~= fingerprints(names));
    let ghost unsorted = hashes@;
    sort_ascending(&mut hashes);
    proof {
        unsorted.lemma_sort_by_ensures(leq_u64());
        lemma_ascending_unique(hashes@, unsorted.sort_by(leq_u64()));
    }
    let mut ret = String::from_str("DM");
    proof {
        reveal_strlit("DM");
    }
    let mut k: usize = 0;
    while k < hashes.len()
        invariant
            k <= hashes@.len(),
            ret@ == seq!['D', 'M'] + dm_suffix(hashes@.take(k as int)),
        decreases hashes@.len() - k,
    {
        ret.append("_");
        push_decimal(&mut ret, hashes[k]);
        proof {
            reveal_strlit("_");
            let t = hashes@.take(k as int + 1);
            assert(t.drop_last() =~= hashes@.take(k as int));
        }
        k = k + 1;
    }
    assert(hashes@.take(k as int) =~= hashes@);
    ret
}

} // verus!
