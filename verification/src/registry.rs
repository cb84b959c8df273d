//! The process-wide table of operations.
//!
//! Connectors register [`Descriptor`]s into a [`Registry`] during an explicit
//! bootstrap phase; [`Registry::build`] then freezes them into a [`Table`],
//! which from that point on is read-only and is queried by
//! [`Table::lookup`]. Building fails fast on a duplicate
//! `(name, operation)` key rather than silently preferring one entry.

use vstd::prelude::*;

use crate::text::str_eq;

verus! {

/// The static identity of one operation: a connector family name, an
/// operation label within that family, and the uniform handler reference
/// `invoke` that the dispatcher calls for it.
pub struct Descriptor<H> {
    pub name: String,
    pub operation: String,
    pub invoke: H,
}

impl<H> Descriptor<H> {
    /// The composite routing key of this descriptor.
    pub open spec fn key(&self) -> (Seq<char>, Seq<char>) {
        (self.name@, self.operation@)
    }
}

/// No two descriptors in `s` share a `(name, operation)` key.
pub open spec fn unique_keys<H>(s: Seq<Descriptor<H>>) -> bool {
    forall|i: int, j: int| 0 <= i < j < s.len() ==> s[i].key() != s[j].key()
}

/// The lookup table that a sequence of registrations produces: each
/// descriptor's key mapped to its `invoke` reference (a later registration
/// would win, but `build` refuses duplicate keys outright).
pub open spec fn table_of<H>(s: Seq<Descriptor<H>>) -> Map<(Seq<char>, Seq<char>), H>
    decreases s.len(),
{
    if s.len() == 0 {
        Map::empty()
    } else {
        table_of(s.drop_last()).insert(s.last().key(), s.last().invoke)
    }
}

/// Law: after a successful build, looking up any registered pair yields
/// exactly the `invoke` reference that was registered with it. The sequence
/// is arbitrary, so this holds for every registration order.
pub proof fn lemma_lookup_after_build<H>(s: Seq<Descriptor<H>>, i: int)
    requires
        unique_keys(s),
        0 <= i < s.len(),
    ensures
        table_of(s).contains_key(s[i].key()),
        table_of(s)[s[i].key()] == s[i].invoke,
    decreases s.len(),
{
    if i == s.len() - 1 {
    } else {
        assert(unique_keys(s.drop_last()));
        assert(s.drop_last()[i] == s[i]);
        lemma_lookup_after_build(s.drop_last(), i);
        assert(s[i].key() != s.last().key());
    }
}

/// Every key of the built table comes from some registered descriptor.
pub proof fn lemma_table_key_registered<H>(s: Seq<Descriptor<H>>, k: (Seq<char>, Seq<char>))
    requires
        table_of(s).contains_key(k),
    ensures
        exists|i: int| 0 <= i < s.len() && s[i].key() == k,
    decreases s.len(),
{
    if s.len() == 0 {
    } else if s.last().key() == k {
        assert(s[s.len() - 1].key() == k);
    } else {
        lemma_table_key_registered(s.drop_last(), k);
        let i = choose|i: int| 0 <= i < s.drop_last().len() && s.drop_last()[i].key() == k;
        assert(s[i].key() == k);
    }
}

/// Law: the built table does not depend on the registration order — two
/// registration sequences holding the same descriptors (each free of
/// duplicate keys) build the same table.
pub proof fn lemma_build_order_independent<H>(s1: Seq<Descriptor<H>>, s2: Seq<Descriptor<H>>)
    requires
        unique_keys(s1),
        unique_keys(s2),
        forall|d: Descriptor<H>| s1.contains(d) <==> s2.contains(d),
    ensures
        table_of(s1) == table_of(s2),
{
    let t1 = table_of(s1);
    let t2 = table_of(s2);
    assert forall|k: (Seq<char>, Seq<char>)|
        #[trigger] t1.dom().contains(k) == #[trigger] t2.dom().contains(k) && (t1.dom().contains(k)
            ==> t1[k] == t2[k]) by {
        if t1.dom().contains(k) {
            lemma_table_key_registered(s1, k);
            let i = choose|i: int| 0 <= i < s1.len() && s1[i].key() == k;
            lemma_lookup_after_build(s1, i);
            assert(s1.contains(s1[i]));
            assert(s2.contains(s1[i]));
            let j = choose|j: int| 0 <= j < s2.len() && s2[j] == s1[i];
            lemma_lookup_after_build(s2, j);
        }
        if t2.dom().contains(k) {
            lemma_table_key_registered(s2, k);
            let j = choose|j: int| 0 <= j < s2.len() && s2[j].key() == k;
            assert(s2.contains(s2[j]));
            assert(s1.contains(s2[j]));
            let i = choose|i: int| 0 <= i < s1.len() && s1[i] == s2[j];
            lemma_lookup_after_build(s1, i);
        }
    }
    assert(t1.dom() =~= t2.dom());
    assert(t1 =~= t2);
}

/// A registration-time failure: two descriptors claimed the same key.
#[derive(Debug)]
pub enum BuildError {
    DuplicateRegistration { name: String, operation: String },
}

/// The pending set of registrations, before the table is built.
pub struct Registry<H> {
    descriptors: Vec<Descriptor<H>>,
}

impl<H> View for Registry<H> {
    type V = Seq<Descriptor<H>>;

    closed spec fn view(&self) -> Seq<Descriptor<H>> {
        self.descriptors@
    }
}

impl<H> Registry<H> {
    /// An empty registry, with no pending registrations.
    pub fn new() -> (r: Registry<H>)
        ensures
            r@ == Seq::<Descriptor<H>>::empty(),
    {
        Registry { descriptors: Vec::new() }
    }

    /// Appends one registration to the pending set. Safe to call from
    /// independent bootstrap steps in any order; no deduplication happens
    /// here — collisions are reported by `build`.
    pub fn register(&mut self, descriptor: Descriptor<H>)
        ensures
            final(self)@ == old(self)@.push(descriptor),
    {
        self.descriptors.push(descriptor);
    }

    /// Consumes the pending set and produces the frozen lookup table.
    ///
    /// Fails fast: if two registrations share a `(name, operation)` key, the
    /// build is rejected and the error names one such colliding key.
    pub fn build(self) -> (r: Result<Table<H>, BuildError>)
        ensures
            r is Ok <==> unique_keys(self@),
            r matches Ok(t) ==> t@ == table_of(self@),
            r matches Err(e) ==> e matches BuildError::DuplicateRegistration {
                name,
                operation,
            } && exists|i: int, j: int|
                0 <= i < j < self@.len() && self@[i].key() == self@[j].key() && self@[i].key() == (
                name@,
                operation@,
            ),
    {
        let n = self.descriptors.len();
        let mut i: usize = 0;
        while i < n
            invariant
                n == self.descriptors.len(),
                i <= n,
                forall|p: int, q: int|
                    0 <= p < q < n && p < i ==> self.descriptors@[p].key()
                        != self.descriptors@[q].key(),
            decreases n - i,
        {
            let mut j: usize = i + 1;
            while j < n
                invariant
                    n == self.descriptors.len(),
                    i < j <= n,
                    forall|q: int|
                        i < q < j ==> self.descriptors@[i as int].key()
                            != self.descriptors@[q].key(),
                decreases n - j,
            {
                let a = &self.descriptors[i];
                let b = &self.descriptors[j];
                if str_eq(a.name.as_str(), b.name.as_str()) && str_eq(
                    a.operation.as_str(),
                    b.operation.as_str(),
                ) {
                    proof {
                        let gi = i as int;
                        let gj = j as int;
                        assert(self@ == self.descriptors@);
                        assert(0 <= gi < gj < self@.len() && self@[gi].key() == self@[gj].key()
                            && self@[gi].key() == (a.name@, a.operation@));
                        assert(exists|p: int, q: int|
                            0 <= p < q < self@.len() && #[trigger] self@[p].key()
                                == #[trigger] self@[q].key() && self@[p].key() == (
                            a.name@,
                            a.operation@,
                        )) by {
                            assert(0 <= gi < gj < self@.len() && self@[gi].key()
                                == self@[gj].key() && self@[gi].key() == (a.name@, a.operation@));
                        }
                        assert(!unique_keys(self@));
                    }
                    return Err(BuildError::DuplicateRegistration {
                        name: a.name.clone(),
                        operation: a.operation.clone(),
                    });
                }
                j += 1;
            }
            i += 1;
        }
        Ok(Table { entries: self.descriptors })
    }
}

/// The frozen lookup table: read-only after `build`, queried per request.
pub struct Table<H> {
    entries: Vec<Descriptor<H>>,
}

impl<H> View for Table<H> {
    type V = Map<(Seq<char>, Seq<char>), H>;

    closed spec fn view(&self) -> Map<(Seq<char>, Seq<char>), H> {
        table_of(self.entries@)
    }
}

impl<H> Table<H> {
    #[verifier::type_invariant]
    spec fn wf(&self) -> bool {
        unique_keys(self.entries@)
    }

    /// Returns the `invoke` reference registered under `(name, operation)`,
    /// or `None` when no descriptor was registered under that key.
    pub fn lookup(&self, name: &str, operation: &str) -> (r: Option<&H>)
        ensures
            match r {
                Some(h) => self@.contains_key((name@, operation@)) && *h == self@[(
                    name@,
                    operation@,
                )],
                None => !self@.contains_key((name@, operation@)),
            },
    {
        proof {
            use_type_invariant(self);
        }
        let n = self.entries.len();
        let mut i: usize = 0;
        while i < n
            invariant
                n == self.entries.len(),
                i <= n,
                unique_keys(self.entries@),
                self@ == table_of(self.entries@),
                forall|j: int| 0 <= j < i ==> self.entries@[j].key() != (name@, operation@),
            decreases n - i,
        {
            let e = &self.entries[i];
            if str_eq(e.name.as_str(), name) && str_eq(e.operation.as_str(), operation) {
                proof {
                    assert(self.entries@[i as int].key() == (name@, operation@));
                    lemma_lookup_after_build(self.entries@, i as int);
                }
                return Some(&e.invoke);
            }
            i += 1;
        }
        proof {
            if self@.contains_key((name@, operation@)) {
                lemma_table_key_registered(self.entries@, (name@, operation@));
            }
        }
        None
    }
}

} // verus!
