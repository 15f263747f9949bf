//! The codec registry: descriptor lists populated once at startup and then
//! queried read-only, by codec name, for the rest of the process.

use vstd::prelude::*;

use crate::decoder::Descr;

verus! {

/// Defines a series of methods to interact with a list of codec descriptors.
///
/// A list is created empty, appended to during process initialization
/// (append never removes an existing entry) and then only queried: `by_name`
/// is a pure read that returns the first-registered entry under a name.
pub trait CodecList: Sized {
    /// The type of the structure used to describe a codec.
    type D: Copy;

    /// The entries of the list, in registration order, duplicates kept.
    spec fn entries(&self) -> Seq<Self::D>;

    /// The name under which a descriptor is registered and looked up.
    spec fn key(d: Self::D) -> Seq<char>;

    /// Creates a new, empty codec list.
    fn new() -> (r: Self)
        ensures
            r.entries() == Seq::<Self::D>::empty(),
    ;

    /// Search by name whether a codec descriptor is in the codec list and
    /// returns it.
    ///
    /// Returns the first-registered descriptor carrying the requested name;
    /// if no entry carries it, `None` is returned. Lookup never fails in any
    /// other way and leaves the list untouched.
    fn by_name(&self, name: &str) -> (r: Option<&Self::D>)
        ensures
            match r {
                Some(d) => exists|i: int|
                    0 <= i < self.entries().len() && self.entries()[i] == *d
                        && #[trigger] Self::key(self.entries()[i]) == name@
                        && (forall|j: int| 0 <= j < i ==> Self::key(self.entries()[j]) != name@),
                None => forall|i: int|
                    0 <= i < self.entries().len() ==> #[trigger] Self::key(self.entries()[i])
                        != name@,
            },
    ;

    /// Appends a codec to the list, after every entry already present.
    fn append(&mut self, desc: Self::D)
        ensures
            final(self).entries() == old(self).entries().push(desc),
    ;

    /// Adds a list of codec descriptors, equivalent to appending each in
    /// order.
    fn add_list(&mut self, descs: &[Self::D])
        ensures
            final(self).entries() == old(self).entries() + descs@,
    {
        let mut i: usize = 0;
        while i < descs.len()
            invariant
                0 <= i <= descs@.len(),
                self.entries() == old(self).entries() + descs@.subrange(0, i as int),
            decreases descs@.len() - i,
        {
            self.append(descs[i]);
            proof {
                assert(old(self).entries() + descs@.subrange(0, i as int + 1) =~= (old(self).entries() + descs@.subrange(0, i as int)).push(descs@[i as int]));
            }
            i = i + 1;
        }
        proof {
            assert(descs@.subrange(0, descs@.len() as int) =~= descs@);
        }
    }
}

/// Defines a series of methods to interact with a list of codec descriptors.
///
/// A reduced capability set for registration alone, kept for components that
/// only ever populate a list and never query it.
pub trait CodecList2: Sized {
    /// The type of the structure used to describe a codec.
    type D: Copy;

    /// The entries of the list, in registration order, duplicates kept.
    spec fn entries(&self) -> Seq<Self::D>;

    /// Creates a new, empty codec list.
    fn new() -> (r: Self)
        ensures
            r.entries() == Seq::<Self::D>::empty(),
    ;

    /// Appends a codec to the list, after every entry already present.
    fn append(&mut self, desc: Self::D)
        ensures
            final(self).entries() == old(self).entries().push(desc),
    ;
}

/// Relies on str's `PartialEq`: two string slices are equal exactly when
/// their character sequences are equal.
#[verifier::external_body]
fn str_equal(a: &str, b: &str) -> (r: bool)
    ensures
        r == (a@ == b@),
{
    a == b
}

/// A list of codec descriptors, in registration order.
pub struct Codecs {
    list: Vec<Descr>,
}

impl CodecList for Codecs {
    type D = Descr;

    closed spec fn entries(&self) -> Seq<Descr> {
        self.list@
    }

    open spec fn key(d: Descr) -> Seq<char> {
        d.codec@
    }

    fn new() -> (r: Self) {
        Codecs { list: Vec::new() }
    }

    fn by_name(&self, name: &str) -> (r: Option<&Descr>) {
        let mut i: usize = 0;
        while i < self.list.len()
            invariant
                0 <= i <= self.list@.len(),
                forall|j: int| 0 <= j < i ==> #[trigger] self.list@[j].codec@ != name@,
            decreases self.list@.len() - i,
        {
            if str_equal(self.list[i].codec, name) {
                proof {
                    assert(Self::key(self.entries()[i as int]) == name@);
                    assert(forall|j: int|
                        0 <= j < i ==> #[trigger] Self::key(self.entries()[j]) != name@);
                }
                return Some(&self.list[i]);
            }
            i = i + 1;
        }
        None
    }

    fn append(&mut self, desc: Descr) {
        self.list.push(desc);
    }
}

impl Codecs {
    /// Looks a codec up by name, reporting `NotFound` for a name that was
    /// never appended; otherwise behaves exactly as `by_name`.
    pub fn lookup(&self, name: &str) -> (r: Result<&Descr, crate::error::Error>)
        ensures
            match r {
                Ok(d) => exists|i: int|
                    0 <= i < self.entries().len() && self.entries()[i] == *d
                        && #[trigger] Self::key(self.entries()[i]) == name@ && (forall|j: int|
                        0 <= j < i ==> #[trigger] Self::key(self.entries()[j]) != name@),
                Err(e) => e == crate::error::Error::NotFound && (forall|i: int|
                    0 <= i < self.entries().len() ==> #[trigger] Self::key(self.entries()[i])
                        != name@),
            },
    {
        match self.by_name(name) {
            Some(d) => Ok(d),
            None => Err(crate::error::Error::NotFound),
        }
    }
}

/// Among any sequence of descriptors, every name carried by one of them has
/// a first carrier: an entry with that name before which no entry carries it.
pub proof fn lemma_first_carrier(ds: Seq<Descr>, i: int)
    requires
        0 <= i < ds.len(),
    ensures
        exists|j: int|
            0 <= j < ds.len() && #[trigger] ds[j].codec@ == ds[i].codec@ && (forall|k: int|
                0 <= k < j ==> ds[k].codec@ != ds[i].codec@),
    decreases ds.len(),
{
    let n = ds[i].codec@;
    if ds[0].codec@ == n {
        assert(ds[0].codec@ == ds[i].codec@ && (forall|k: int| 0 <= k < 0 ==> ds[k].codec@ != n));
    } else {
        let tail = ds.drop_first();
        assert(tail[i - 1] == ds[i]);
        lemma_first_carrier(tail, i - 1);
        let j0 = choose|j0: int|
            0 <= j0 < tail.len() && #[trigger] tail[j0].codec@ == tail[i - 1].codec@ && (forall|
                k: int,
            |
                0 <= k < j0 ==> #[trigger] tail[k].codec@ != tail[i - 1].codec@);
        assert(ds[j0 + 1].codec@ == ds[i].codec@);
        assert forall|k: int| 0 <= k < j0 + 1 implies ds[k].codec@ != n by {
            if k >= 1 {
                assert(tail[k - 1] == ds[k]);
            }
        }
    }
}

/// Round trip of registration: append descriptors `ds`, via `add_list`, to a
/// registry already holding `s`, and the list holds `s + ds`. For any `d`
/// among `ds` whose name no earlier entry of `s` carries, the name of `d`
/// then has a first carrier in the list — the entry `by_name(d.codec)`
/// returns — and that carrier is an element of `ds` carrying `d`'s name.
pub proof fn lemma_add_list_round_trip(s: Seq<Descr>, ds: Seq<Descr>, i: int)
    requires
        0 <= i < ds.len(),
        forall|k: int| 0 <= k < s.len() ==> #[trigger] s[k].codec@ != ds[i].codec@,
    ensures
        exists|j: int|
            0 <= j < (s + ds).len() && #[trigger] (s + ds)[j].codec@ == ds[i].codec@ && (forall|
                k: int,
            |
                0 <= k < j ==> #[trigger] (s + ds)[k].codec@ != ds[i].codec@) && ds.contains(
                (s + ds)[j],
            ),
{
    let n = ds[i].codec@;
    lemma_first_carrier(ds, i);
    let j0 = choose|j0: int|
        0 <= j0 < ds.len() && #[trigger] ds[j0].codec@ == n && (forall|k: int|
            0 <= k < j0 ==> #[trigger] ds[k].codec@ != n);
    let j = s.len() as int + j0;
    assert((s + ds)[j] == ds[j0]);
    assert((s + ds)[j].codec@ == n);
    assert forall|k: int| 0 <= k < j implies #[trigger] (s + ds)[k].codec@ != n by {
        if k < s.len() {
            assert((s + ds)[k] == s[k]);
        } else {
            assert((s + ds)[k] == ds[k - s.len()]);
        }
    }
    assert(ds.contains((s + ds)[j]));
}

} // verus!
