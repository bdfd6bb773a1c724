//! Immutable value-codec registries sorted by stable ID.

use vstd::prelude::*;

use super::value_codec_id::ValueCodecId;
use super::value_codec_registration::ValueCodecRegistration;
use super::value_codec_registration_source::source_less;
use super::value_codec_registration_source::source_lt;
use super::value_codec_registration_source::ValueCodecRegistrationSource;
use super::value_codec_registry_error::ValueCodecRegistryError;
use crate::util::bytes::bytes_lt;
use crate::util::bytes::compare_bytes;
use crate::util::bytes::lemma_bytes_lt_irreflexive;
use crate::util::bytes::lemma_bytes_lt_transitive;
use crate::util::bytes::ByteComparison;
use vstd::string::StringSliceAdditionalSpecFns;

verus! {

broadcast use vstd::seq_lib::group_to_multiset_ensures;

/// Every registration's ID sorts strictly before the IDs of those after it,
/// so no ID occurs twice.
pub open spec fn keys_strictly_sorted<D>(rs: Seq<ValueCodecRegistration<D>>) -> bool {
    forall|i: int, j: int|
        0 <= i < j < rs.len() ==> bytes_lt(#[trigger] rs[i].key(), #[trigger] rs[j].key())
}

/// Two registrations claim one stable ID.
pub open spec fn has_duplicate_ids<D>(rs: Seq<ValueCodecRegistration<D>>) -> bool {
    exists|i: int, j: int| 0 <= i < j < rs.len() && #[trigger] rs[i].key() == #[trigger] rs[j].key()
}

/// `rs[first]` and `rs[second]` are, in input order, the first two
/// registrations of the smallest ID that occurs more than once.
pub open spec fn first_duplicate_pair<D>(
    rs: Seq<ValueCodecRegistration<D>>,
    first: int,
    second: int,
) -> bool {
    &&& 0 <= first < second < rs.len()
    &&& rs[first].key() == rs[second].key()
    &&& forall|k: int| 0 <= k < second && k != first ==> #[trigger] rs[k].key() != rs[first].key()
    &&& forall|p: int, q: int|
        0 <= p < q < rs.len() && #[trigger] rs[p].key() == #[trigger] rs[q].key() ==> !bytes_lt(
            rs[p].key(),
            rs[first].key(),
        )
}

/// The two sources of a duplicate, the one that sorts first leading.
pub open spec fn ordered_sources(
    a: ValueCodecRegistrationSource,
    b: ValueCodecRegistrationSource,
) -> Seq<ValueCodecRegistrationSource> {
    if source_lt(b, a) {
        seq![b, a]
    } else {
        seq![a, b]
    }
}

/// The registration of `rs` whose ID has the bytes `key`, if any.
pub open spec fn lookup<D>(rs: Seq<ValueCodecRegistration<D>>, key: Seq<u8>) -> Option<
    ValueCodecRegistration<D>,
> {
    if exists|k: int| 0 <= k < rs.len() && #[trigger] rs[k].key() == key {
        Some(rs[choose|k: int| 0 <= k < rs.len() && #[trigger] rs[k].key() == key])
    } else {
        None
    }
}

/// An immutable value-codec registry sorted by stable ID.
pub struct ValueCodecRegistry<D> {
    registrations: Vec<ValueCodecRegistration<D>>,
}

impl<D> View for ValueCodecRegistry<D> {
    type V = Seq<ValueCodecRegistration<D>>;

    /// The registrations in ID order.
    closed spec fn view(&self) -> Seq<ValueCodecRegistration<D>> {
        self.registrations@
    }
}

/// Orders two IDs by their bytes.
fn compare_ids(a: ValueCodecId, b: ValueCodecId) -> (order: ByteComparison)
    ensures
        order == ByteComparison::Less <==> bytes_lt(a.spec_id_bytes(), b.spec_id_bytes()),
        order == ByteComparison::Equal <==> a.spec_id_bytes() == b.spec_id_bytes(),
        order == ByteComparison::Greater <==> bytes_lt(b.spec_id_bytes(), a.spec_id_bytes()),
{
    compare_bytes(a.as_str().as_bytes(), b.as_str().as_bytes())
}

/// Finds, in input order, the first two registrations of the smallest ID
/// that occurs more than once.
fn find_first_duplicate<D: Copy>(rs: &[ValueCodecRegistration<D>]) -> (found: Option<
    (usize, usize),
>)
    ensures
        match found {
            None => !has_duplicate_ids(rs@),
            Some((first, second)) => first_duplicate_pair(rs@, first as int, second as int),
        },
{
    let n = rs.len();
    let mut best: Option<(usize, usize)> = None;
    let mut i: usize = 0;
    while i < n
        invariant
            n == rs@.len(),
            i <= n,
            best is None ==> forall|p: int, q: int|
                0 <= p < i && p < q < n ==> #[trigger] rs@[p].key() != #[trigger] rs@[q].key(),
            best matches Some((f, s)) ==> {
                &&& f < i
                &&& f < s < n
                &&& rs@[f as int].key() == rs@[s as int].key()
                &&& forall|k: int|
                    0 <= k < s && k != f ==> #[trigger] rs@[k].key() != rs@[f as int].key()
                &&& forall|p: int, q: int|
                    0 <= p < i && p < q < n && #[trigger] rs@[p].key() == #[trigger] rs@[q].key()
                        ==> !bytes_lt(rs@[p].key(), rs@[f as int].key())
            },
        decreases n - i,
    {
        let id_i = rs[i].id();
        let mut j: usize = i + 1;
        let mut next: Option<usize> = None;
        while j < n
            invariant_except_break
                n == rs@.len(),
                i < n,
                id_i == rs@[i as int].spec_id(),
                i < j <= n,
                next is None,
                forall|k: int| i < k < j ==> #[trigger] rs@[k].key() != rs@[i as int].key(),
            ensures
                match next {
                    None => forall|k: int| i < k < n ==> #[trigger] rs@[k].key() != rs@[i as int].key(),
                    Some(s) => i < s < n && rs@[s as int].key() == rs@[i as int].key() && forall|
                        k: int,
                    | i < k < s ==> #[trigger] rs@[k].key() != rs@[i as int].key(),
                },
            decreases n - j,
        {
            if compare_ids(rs[j].id(), id_i) == ByteComparison::Equal {
                next = Some(j);
                break;
            }
            j = j + 1;
        }
        match next {
            None => {},
            Some(s) => {
                let replace = match best {
                    None => true,
                    Some((f, _)) => compare_ids(id_i, rs[f].id()) == ByteComparison::Less,
                };
                if replace {
                    proof {
                        let key_i = rs@[i as int].key();
                        lemma_bytes_lt_irreflexive(key_i);
                        if let Some((f, _)) = best {
                            let key_f = rs@[f as int].key();
                            assert forall|p: int, q: int|
                                0 <= p < i && p < q < n && #[trigger] rs@[p].key()
                                    == #[trigger] rs@[q].key() implies !bytes_lt(
                                rs@[p].key(),
                                key_i,
                            ) by {
                                if bytes_lt(rs@[p].key(), key_i) {
                                    lemma_bytes_lt_transitive(rs@[p].key(), key_i, key_f);
                                }
                            }
                            assert forall|k: int| 0 <= k < i implies #[trigger] rs@[k].key()
                                != key_i by {
                                if rs@[k].key() == key_i {
                                    assert(rs@[k].key() == rs@[i as int].key());
                                }
                            }
                        } else {
                            assert forall|k: int| 0 <= k < i implies #[trigger] rs@[k].key()
                                != key_i by {
                                if rs@[k].key() == key_i {
                                    assert(rs@[k].key() == rs@[i as int].key());
                                }
                            }
                        }
                    }
                    best = Some((i, s));
                }
            },
        }
        i = i + 1;
    }
    proof {
        if best is None {
            assert forall|p: int, q: int| 0 <= p < q < rs@.len() implies #[trigger] rs@[p].key()
                != #[trigger] rs@[q].key() by {}
        }
    }
    best
}

/// Sorts registrations without duplicate IDs by ID.
fn sort_by_id<D: Copy>(rs: &[ValueCodecRegistration<D>]) -> (sorted: Vec<
    ValueCodecRegistration<D>,
>)
    requires
        !has_duplicate_ids(rs@),
    ensures
        sorted@.to_multiset() == rs@.to_multiset(),
        keys_strictly_sorted(sorted@),
{
    let mut out: Vec<ValueCodecRegistration<D>> = Vec::new();
    let mut i: usize = 0;
    while i < rs.len()
        invariant
            i <= rs@.len(),
            !has_duplicate_ids(rs@),
            out@.to_multiset() == rs@.take(i as int).to_multiset(),
            keys_strictly_sorted(out@),
            forall|k: int|
                #![trigger out@[k]]
                0 <= k < out@.len() ==> exists|m: int| 0 <= m < i && out@[k] == #[trigger] rs@[m],
        decreases rs@.len() - i,
    {
        let item = rs[i];
        let mut p: usize = 0;
        while p < out.len() && compare_ids(out[p].id(), item.id()) == ByteComparison::Less
            invariant
                p <= out@.len(),
                forall|k: int| 0 <= k < p ==> bytes_lt(#[trigger] out@[k].key(), item.key()),
            decreases out@.len() - p,
        {
            p = p + 1;
        }
        proof {
            assert forall|k: int| 0 <= k < out@.len() implies #[trigger] out@[k].key()
                != item.key() by {
                let m = choose|m: int| 0 <= m < i && out@[k] == #[trigger] rs@[m];
                assert(rs@[m].key() != rs@[i as int].key());
            }
            assert forall|k: int| p <= k < out@.len() implies bytes_lt(
                item.key(),
                #[trigger] out@[k].key(),
            ) by {
                crate::util::bytes::lemma_bytes_lt_total(item.key(), out@[p as int].key());
                if k > p {
                    lemma_bytes_lt_transitive(item.key(), out@[p as int].key(), out@[k].key());
                }
            }
            assert(rs@.take(i as int + 1) =~= rs@.take(i as int).push(item));
        }
        let ghost before = out@;
        out.insert(p, item);
        proof {
            assert(out@ =~= before.insert(p as int, item));
            assert forall|a: int, b: int| 0 <= a < b < out@.len() implies bytes_lt(
                #[trigger] out@[a].key(),
                #[trigger] out@[b].key(),
            ) by {
                if a < p && b == p {
                } else if a < p && b > p {
                    assert(out@[b] == before[b - 1]);
                } else if a == p {
                    assert(out@[b] == before[b - 1]);
                } else if b < p {
                } else {
                    assert(out@[a] == before[a - 1]);
                    assert(out@[b] == before[b - 1]);
                }
            }
            assert forall|k: int| #![trigger out@[k]] 0 <= k < out@.len() implies exists|m: int|
                0 <= m < i + 1 && out@[k] == #[trigger] rs@[m] by {
                if k < p {
                    let m = choose|m: int| 0 <= m < i && before[k] == #[trigger] rs@[m];
                    assert(out@[k] == rs@[m]);
                } else if k == p {
                    assert(out@[k] == rs@[i as int]);
                } else {
                    let m = choose|m: int| 0 <= m < i && before[k - 1] == #[trigger] rs@[m];
                    assert(out@[k] == rs@[m]);
                }
            }
        }
        i = i + 1;
    }
    assert(rs@.take(rs@.len() as int) =~= rs@);
    out
}

impl<D> ValueCodecRegistry<D> {
    /// Registrations stay sorted strictly by ID.
    #[verifier::type_invariant]
    closed spec fn wf(self) -> bool {
        keys_strictly_sorted(self.registrations@)
    }

    /// Returns an empty local registry.
    pub fn empty() -> (registry: Self)
        ensures
            registry@ == Seq::<ValueCodecRegistration<D>>::empty(),
    {
        ValueCodecRegistry { registrations: Vec::new() }
    }

    /// Returns registrations in ID order.
    pub fn registrations(&self) -> (registrations: &[ValueCodecRegistration<D>])
        ensures
            registrations@ == self@,
            keys_strictly_sorted(self@),
    {
        proof {
            use_type_invariant(self);
        }
        self.registrations.as_slice()
    }

    /// Finds a registration by stable ID; `None` when no registration has
    /// that ID.
    pub fn get(&self, id: &str) -> (found: Option<&ValueCodecRegistration<D>>)
        ensures
            match found {
                Some(registration) => lookup(self@, id.spec_bytes()) == Some(*registration),
                None => lookup(self@, id.spec_bytes()) is None,
            },
    {
        proof {
            use_type_invariant(self);
        }
        let target = id.as_bytes();
        let ghost rs = self.registrations@;
        let mut lo: usize = 0;
        let mut hi: usize = self.registrations.len();
        while lo < hi
            invariant
                rs == self.registrations@,
                keys_strictly_sorted(rs),
                target@ == id.spec_bytes(),
                lo <= hi <= rs.len(),
                forall|k: int| 0 <= k < lo ==> bytes_lt(#[trigger] rs[k].key(), target@),
                forall|k: int| hi <= k < rs.len() ==> bytes_lt(target@, #[trigger] rs[k].key()),
            decreases hi - lo,
        {
            let mid = lo + (hi - lo) / 2;
            match compare_bytes(self.registrations[mid].id().as_str().as_bytes(), target) {
                ByteComparison::Less => {
                    proof {
                        assert forall|k: int| 0 <= k < mid + 1 implies bytes_lt(
                            #[trigger] rs[k].key(),
                            target@,
                        ) by {
                            if k < mid {
                                lemma_bytes_lt_transitive(rs[k].key(), rs[mid as int].key(), target@);
                            }
                        }
                    }
                    lo = mid + 1;
                },
                ByteComparison::Greater => {
                    proof {
                        assert forall|k: int| mid <= k < rs.len() implies bytes_lt(
                            target@,
                            #[trigger] rs[k].key(),
                        ) by {
                            if k > mid {
                                lemma_bytes_lt_transitive(target@, rs[mid as int].key(), rs[k].key());
                            }
                        }
                    }
                    hi = mid;
                },
                ByteComparison::Equal => {
                    proof {
                        assert(rs[mid as int].key() == target@);
                        let k = choose|k: int| 0 <= k < rs.len() && #[trigger] rs[k].key() == target@;
                        if k != mid {
                            lemma_bytes_lt_irreflexive(target@);
                        }
                        assert(lookup(rs, target@) == Some(rs[mid as int]));
                    }
                    return Some(&self.registrations[mid]);
                },
            }
        }
        proof {
            assert forall|k: int| 0 <= k < rs.len() implies #[trigger] rs[k].key() != target@ by {
                lemma_bytes_lt_irreflexive(target@);
            }
        }
        None
    }
}

impl<D: Copy> ValueCodecRegistry<D> {
    /// Builds a local registry from static registrations.
    ///
    /// Succeeds exactly when no two registrations claim one ID; the
    /// registry then holds the given registrations sorted by ID. Otherwise
    /// the error names the smallest ID claimed more than once, with the
    /// sources of its first two registrations in source order.
    pub fn from_registrations(registrations: &[ValueCodecRegistration<D>]) -> (result: Result<
        Self,
        ValueCodecRegistryError,
    >)
        ensures
            result is Ok <==> !has_duplicate_ids(registrations@),
            match result {
                Ok(registry) => {
                    &&& registry@.to_multiset() == registrations@.to_multiset()
                    &&& keys_strictly_sorted(registry@)
                },
                Err(ValueCodecRegistryError::DuplicateId { id, sources }) => exists|
                    first: int,
                    second: int,
                |
                    {
                        &&& first_duplicate_pair(registrations@, first, second)
                        &&& id == registrations@[first].spec_id().spec_str()
                        &&& sources@ == ordered_sources(
                            registrations@[first].spec_source(),
                            registrations@[second].spec_source(),
                        )
                    },
            },
    {
        match find_first_duplicate(registrations) {
            Some((first, second)) => {
                let a = registrations[first].source();
                let b = registrations[second].source();
                let mut sources: Vec<ValueCodecRegistrationSource> = Vec::new();
                if source_less(&b, &a) {
                    sources.push(b);
                    sources.push(a);
                } else {
                    sources.push(a);
                    sources.push(b);
                }
                proof {
                    assert(sources@ =~= ordered_sources(a, b));
                }
                Err(
                    ValueCodecRegistryError::DuplicateId {
                        id: registrations[first].id().as_str(),
                        sources,
                    },
                )
            },
            None => Ok(ValueCodecRegistry { registrations: sort_by_id(registrations) }),
        }
    }
}

/// What a registry built from registrations without duplicate IDs answers:
/// every given registration is found by its ID, and an ID no registration
/// claims finds nothing.
pub proof fn lemma_lookup_finds_registered<D>(
    registrations: Seq<ValueCodecRegistration<D>>,
    registry: Seq<ValueCodecRegistration<D>>,
    key: Seq<u8>,
)
    requires
        registry.to_multiset() == registrations.to_multiset(),
        keys_strictly_sorted(registry),
    ensures
        forall|i: int|
            0 <= i < registrations.len() && #[trigger] registrations[i].key() == key ==> lookup(
                registry,
                key,
            ) == Some(registrations[i]),
        (forall|i: int| 0 <= i < registrations.len() ==> #[trigger] registrations[i].key() != key)
            ==> lookup(registry, key) is None,
{
    assert forall|i: int| 0 <= i < registrations.len() && #[trigger] registrations[i].key()
        == key implies lookup(registry, key) == Some(registrations[i]) by {
        assert(registrations.contains(registrations[i]));
        assert(registry.to_multiset().count(registrations[i]) > 0);
        assert(registry.contains(registrations[i]));
        let k = choose|k: int| 0 <= k < registry.len() && registry[k] == registrations[i];
        assert(registry[k].key() == key);
        let c = choose|c: int| 0 <= c < registry.len() && #[trigger] registry[c].key() == key;
        if c != k {
            lemma_bytes_lt_irreflexive(key);
        }
    }
    if forall|i: int| 0 <= i < registrations.len() ==> #[trigger] registrations[i].key() != key {
        assert forall|k: int| 0 <= k < registry.len() implies #[trigger] registry[k].key()
            != key by {
            assert(registry.contains(registry[k]));
            assert(registrations.to_multiset().count(registry[k]) > 0);
            assert(registrations.contains(registry[k]));
        }
    }
}

/// The registry order is deterministic: two ID-sorted arrangements of the
/// same registrations are identical, whatever order they were given in.
pub proof fn lemma_sorted_order_is_unique<D>(
    a: Seq<ValueCodecRegistration<D>>,
    b: Seq<ValueCodecRegistration<D>>,
)
    requires
        a.to_multiset() == b.to_multiset(),
        keys_strictly_sorted(a),
        keys_strictly_sorted(b),
    ensures
        a == b,
    decreases a.len(),
{
    if a.len() == 0 {
        assert(b.to_multiset().len() == 0);
        assert(b =~= a);
    } else {
        assert(a.to_multiset().len() == a.len());
        assert(b.to_multiset().len() == b.len());
        assert(a.contains(a[0]));
        assert(b.to_multiset().count(a[0]) > 0);
        let k = choose|k: int| 0 <= k < b.len() && b[k] == a[0];
        assert(b.contains(b[0]));
        assert(a.to_multiset().count(b[0]) > 0);
        let m = choose|m: int| 0 <= m < a.len() && a[m] == b[0];
        if k != 0 {
            assert(bytes_lt(b[0].key(), b[k].key()));
            if m != 0 {
                assert(bytes_lt(a[0].key(), a[m].key()));
                crate::util::bytes::lemma_bytes_lt_asymmetric(a[0].key(), b[0].key());
            } else {
                lemma_bytes_lt_irreflexive(a[0].key());
            }
        }
        assert(a[0] == b[0]);
        assert(a.remove(0) =~= a.drop_first());
        assert(b.remove(0) =~= b.drop_first());
        assert(a.drop_first().to_multiset() == a.to_multiset().remove(a[0]));
        assert(b.drop_first().to_multiset() == b.to_multiset().remove(b[0]));
        lemma_sorted_order_is_unique(a.drop_first(), b.drop_first());
        assert(a =~= seq![a[0]] + a.drop_first());
        assert(b =~= seq![b[0]] + b.drop_first());
    }
}

} // verus!
