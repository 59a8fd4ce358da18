//! The registry capability and its mathematical model.
//!
//! A registry snapshot is modelled as a sequence of [`InterfaceView`] records;
//! the spec functions here say what looking a name up, removing a name and
//! creating a record mean on that model.  The proof functions at the end state
//! the laws the model obeys.

use vstd::prelude::*;
use crate::error::RegistryError;
use crate::iface::{Interface, InterfaceView};

verus! {

/// The address every record created by a registry receives.
pub open spec fn spec_default_addr() -> Seq<char> {
    "127.0.0.1"@
}

/// The netmask every record created by a registry receives.
pub open spec fn spec_default_netmask() -> Seq<char> {
    "255.0.0.0"@
}

/// The record that `create(name)` constructs.
pub open spec fn spec_default_interface(name: Seq<char>) -> InterfaceView {
    InterfaceView { name: name, addr: spec_default_addr(), netmask: spec_default_netmask() }
}

/// The first record named `n`, scanning front to back.
pub open spec fn spec_lookup(s: Seq<InterfaceView>, n: Seq<char>) -> Option<InterfaceView>
    decreases s.len(),
{
    if s.len() == 0 {
        None
    } else if s[0].name == n {
        Some(s[0])
    } else {
        spec_lookup(s.drop_first(), n)
    }
}

/// Whether some record in `s` is named `n`.
pub open spec fn spec_contains_name(s: Seq<InterfaceView>, n: Seq<char>) -> bool {
    spec_lookup(s, n) is Some
}

/// `s` with its first record named `n` removed; `s` itself when none is.
pub open spec fn spec_remove(s: Seq<InterfaceView>, n: Seq<char>) -> Seq<InterfaceView>
    decreases s.len(),
{
    if s.len() == 0 {
        s
    } else if s[0].name == n {
        s.drop_first()
    } else {
        seq![s[0]] + spec_remove(s.drop_first(), n)
    }
}

/// How many records in `s` are named `n`.
pub open spec fn spec_count_name(s: Seq<InterfaceView>, n: Seq<char>) -> nat
    decreases s.len(),
{
    if s.len() == 0 {
        0
    } else {
        (if s[0].name == n {
            1nat
        } else {
            0nat
        }) + spec_count_name(s.drop_first(), n)
    }
}

/// Registry well-formedness: at most one record per name.
pub open spec fn wf_names(s: Seq<InterfaceView>) -> bool {
    forall|i: int, j: int| 0 <= i < j < s.len() ==> s[i].name != s[j].name
}

/// The registry capability: a keyed store of interface records.  Each
/// operation returns a success value or a descriptive [`RegistryError`];
/// none of them panics.  Each implementation states its own exact contract.
pub trait Interfaces {
    /// Every currently known interface, in implementation-defined order.
    fn all(&self) -> Result<Vec<Interface>, RegistryError>;

    /// Register `name` with the default address and netmask; fails with
    /// `AlreadyExists` on a duplicate name.
    fn create(&mut self, name: &str) -> Result<Interface, RegistryError>;

    /// Remove `name`; reports absence with `false`, never with an error.
    fn delete(&mut self, name: &str) -> Result<bool, RegistryError>;

    /// Look `name` up; absence is `None`, not an error.
    fn get(&self, name: &str) -> Result<Option<Interface>, RegistryError>;

    /// Update a record's attributes; an unimplemented capability on every
    /// current backend, so it always fails.
    fn modify(&self, iface: Interface) -> Result<bool, RegistryError>;
}

/// A name is registered exactly when some position holds it.
pub proof fn lemma_contains_iff_index(s: Seq<InterfaceView>, n: Seq<char>)
    ensures
        spec_contains_name(s, n) <==> exists|k: int| 0 <= k < s.len() && s[k].name == n,
    decreases s.len(),
{
    if s.len() > 0 {
        lemma_contains_iff_index(s.drop_first(), n);
        if s[0].name == n {
            assert(0 <= 0 < s.len() && s[0].name == n);
        } else {
            if spec_contains_name(s, n) {
                let k = choose|k: int| 0 <= k < s.drop_first().len() && s.drop_first()[k].name == n;
                assert(s[k + 1].name == n);
            }
            if exists|k: int| 0 <= k < s.len() && s[k].name == n {
                let k = choose|k: int| 0 <= k < s.len() && s[k].name == n;
                assert(s.drop_first()[k - 1].name == n);
            }
        }
    }
}

/// When the first match sits at position `i`, the lookup returns it.
pub proof fn lemma_lookup_at_first_match(s: Seq<InterfaceView>, n: Seq<char>, i: int)
    requires
        0 <= i < s.len(),
        s[i].name == n,
        forall|k: int| 0 <= k < i ==> s[k].name != n,
    ensures
        spec_lookup(s, n) == Some(s[i]),
    decreases i,
{
    if i > 0 {
        lemma_lookup_at_first_match(s.drop_first(), n, i - 1);
    }
}

/// When no position matches, the lookup comes back empty.
pub proof fn lemma_lookup_no_match(s: Seq<InterfaceView>, n: Seq<char>)
    requires
        forall|k: int| 0 <= k < s.len() ==> s[k].name != n,
    ensures
        spec_lookup(s, n) is None,
    decreases s.len(),
{
    if s.len() > 0 {
        lemma_lookup_no_match(s.drop_first(), n);
    }
}

/// When the first match sits at position `i`, removal deletes exactly it.
pub proof fn lemma_remove_at_first_match(s: Seq<InterfaceView>, n: Seq<char>, i: int)
    requires
        0 <= i < s.len(),
        s[i].name == n,
        forall|k: int| 0 <= k < i ==> s[k].name != n,
    ensures
        spec_remove(s, n) == s.remove(i),
    decreases i,
{
    if i == 0 {
        assert(spec_remove(s, n) =~= s.remove(0));
    } else {
        lemma_remove_at_first_match(s.drop_first(), n, i - 1);
        assert(seq![s[0]] + s.drop_first().remove(i - 1) =~= s.remove(i));
    }
}

/// When no position matches, removal changes nothing.
pub proof fn lemma_remove_no_match(s: Seq<InterfaceView>, n: Seq<char>)
    requires
        forall|k: int| 0 <= k < s.len() ==> s[k].name != n,
    ensures
        spec_remove(s, n) == s,
    decreases s.len(),
{
    if s.len() > 0 {
        lemma_remove_no_match(s.drop_first(), n);
        assert(seq![s[0]] + s.drop_first() =~= s);
    }
}

/// Appending one record adds its name once to the tally and nothing else.
pub proof fn lemma_count_push(s: Seq<InterfaceView>, v: InterfaceView, n: Seq<char>)
    ensures
        spec_count_name(s.push(v), n) == spec_count_name(s, n) + (if v.name == n {
            1nat
        } else {
            0nat
        }),
    decreases s.len(),
{
    if s.len() == 0 {
        assert(s.push(v).drop_first() =~= s);
    } else {
        lemma_count_push(s.drop_first(), v, n);
        assert(s.push(v).drop_first() =~= s.drop_first().push(v));
    }
}

/// A name at no position has a tally of zero.
pub proof fn lemma_count_no_match(s: Seq<InterfaceView>, n: Seq<char>)
    requires
        forall|k: int| 0 <= k < s.len() ==> s[k].name != n,
    ensures
        spec_count_name(s, n) == 0,
    decreases s.len(),
{
    if s.len() > 0 {
        lemma_count_no_match(s.drop_first(), n);
    }
}

/// In a well-formed registry, a registered name occurs exactly once.
pub proof fn lemma_wf_count(s: Seq<InterfaceView>, n: Seq<char>)
    requires
        wf_names(s),
        spec_contains_name(s, n),
    ensures
        spec_count_name(s, n) == 1,
    decreases s.len(),
{
    if s.len() > 0 {
        if s[0].name == n {
            assert(forall|k: int| 0 <= k < s.drop_first().len()
                ==> s.drop_first()[k] == s[k + 1] && s[k + 1].name != n);
            lemma_count_no_match(s.drop_first(), n);
        } else {
            assert(wf_names(s.drop_first())) by {
                assert(forall|i: int, j: int|
                    0 <= i < j < s.drop_first().len() ==> s.drop_first()[i] == s[i + 1]
                        && s.drop_first()[j] == s[j + 1]);
            }
            lemma_wf_count(s.drop_first(), n);
        }
    }
}

/// Create/read round-trip: creating an absent name `n` in a well-formed
/// registry yields a well-formed state in which looking `n` up finds exactly
/// the created record, and the listing holds exactly one record named `n`.
pub proof fn lemma_create_round_trip(s: Seq<InterfaceView>, n: Seq<char>)
    requires
        wf_names(s),
        !spec_contains_name(s, n),
    ensures
        spec_lookup(s.push(spec_default_interface(n)), n) == Some(spec_default_interface(n)),
        spec_count_name(s.push(spec_default_interface(n)), n) == 1,
        wf_names(s.push(spec_default_interface(n))),
{
    let s1 = s.push(spec_default_interface(n));
    lemma_contains_iff_index(s, n);
    lemma_lookup_at_first_match(s1, n, s.len() as int);
    lemma_count_no_match(s, n);
    lemma_count_push(s, spec_default_interface(n), n);
}

/// Duplicate rejection: right after a successful create of `n`, the name is
/// registered — so, by the create contract, a second `create(n)` fails with
/// `AlreadyExists` and leaves the state (one record named `n`) untouched.
pub proof fn lemma_duplicate_rejected(s: Seq<InterfaceView>, n: Seq<char>)
    requires
        wf_names(s),
        !spec_contains_name(s, n),
    ensures
        spec_contains_name(s.push(spec_default_interface(n)), n),
        spec_count_name(s.push(spec_default_interface(n)), n) == 1,
{
    lemma_create_round_trip(s, n);
}

/// Delete idempotence: removing `n` from a well-formed registry leaves a
/// state without `n` — so, by the delete contract, a second `delete(n)`
/// reports `false` — and removing an absent name changes nothing.
pub proof fn lemma_delete_idempotent(s: Seq<InterfaceView>, n: Seq<char>)
    requires
        wf_names(s),
    ensures
        !spec_contains_name(spec_remove(s, n), n),
        !spec_contains_name(s, n) ==> spec_remove(s, n) == s,
{
    lemma_contains_iff_index(s, n);
    if spec_contains_name(s, n) {
        let i = choose|i: int| 0 <= i < s.len() && s[i].name == n
            && forall|k: int| 0 <= k < i ==> s[k].name != n;
        assert(exists|i: int| 0 <= i < s.len() && s[i].name == n
            && forall|k: int| 0 <= k < i ==> s[k].name != n) by {
            lemma_first_match_exists(s, n);
        }
        lemma_remove_at_first_match(s, n, i);
        s.remove_ensures(i);
        assert(forall|k: int| 0 <= k < s.remove(i).len() ==> s.remove(i)[k].name != n);
        lemma_lookup_no_match(s.remove(i), n);
    } else {
        lemma_remove_no_match(s, n);
        lemma_lookup_no_match(spec_remove(s, n), n);
    }
}

/// Among the positions holding `n` there is a first one.
pub proof fn lemma_first_match_exists(s: Seq<InterfaceView>, n: Seq<char>)
    requires
        exists|k: int| 0 <= k < s.len() && s[k].name == n,
    ensures
        exists|i: int|
            0 <= i < s.len() && s[i].name == n && forall|k: int| 0 <= k < i ==> s[k].name != n,
    decreases s.len(),
{
    if s[0].name == n {
        assert(s[0].name == n && forall|k: int| 0 <= k < 0 ==> s[k].name != n);
    } else {
        let k0 = choose|k: int| 0 <= k < s.len() && s[k].name == n;
        assert(s.drop_first()[k0 - 1].name == n);
        lemma_first_match_exists(s.drop_first(), n);
        let i = choose|i: int|
            0 <= i < s.drop_first().len() && s.drop_first()[i].name == n
                && forall|k: int| 0 <= k < i ==> s.drop_first()[k].name != n;
        assert(forall|k: int| 0 <= k < i ==> s[k + 1] == s.drop_first()[k]);
        assert(forall|k: int| 0 <= k < i + 1 ==> s[k].name != n) by {
            assert(forall|k: int| 1 <= k < i + 1 ==> s[k] == s.drop_first()[k - 1]);
        }
        assert(s[i + 1].name == n);
    }
}

/// Lost-update freedom: a successful create keeps every earlier record at its
/// position and with its tally, and adds exactly one record with the new
/// name.  Since the shared registry handle serializes operations, any
/// interleaving of successful creates of distinct names therefore ends with
/// every created name present exactly once.
pub proof fn lemma_create_preserves_entries(s: Seq<InterfaceView>, n: Seq<char>)
    requires
        wf_names(s),
        !spec_contains_name(s, n),
    ensures
        wf_names(s.push(spec_default_interface(n))),
        forall|i: int|
            0 <= i < s.len() ==> s.push(spec_default_interface(n))[i] == s[i],
        spec_count_name(s.push(spec_default_interface(n)), n) == 1,
        forall|m: Seq<char>|
            m != n ==> spec_count_name(s.push(spec_default_interface(n)), m)
                == spec_count_name(s, m),
{
    lemma_create_round_trip(s, n);
    assert forall|m: Seq<char>| m != n implies spec_count_name(
        s.push(spec_default_interface(n)),
        m,
    ) == spec_count_name(s, m) by {
        lemma_count_push(s, spec_default_interface(n), m);
    }
}

} // verus!
