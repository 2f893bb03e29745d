//! Caller identifiers and lists of asset ids, as the tables store them.

use vstd::prelude::*;
use vstd::std_specs::convert::FromSpecImpl;

verus! {

/// An identity: the bytes of an authenticated caller's identifier. The
/// registry reads nothing in them; it only tells two identities apart.
#[derive(Clone, Debug, PartialEq, Eq, PartialOrd, Ord)]
pub struct StorablePrincipal(pub Vec<u8>);

impl View for StorablePrincipal {
    type V = Seq<u8>;

    open spec fn view(&self) -> Seq<u8> {
        self.0@
    }
}

impl From<Vec<u8>> for StorablePrincipal {
    fn from(p: Vec<u8>) -> (sp: Self) {
        StorablePrincipal(p)
    }
}

impl FromSpecImpl<Vec<u8>> for StorablePrincipal {
    open spec fn obeys_from_spec() -> bool {
        true
    }

    open spec fn from_spec(p: Vec<u8>) -> Self {
        StorablePrincipal(p)
    }
}

impl From<StorablePrincipal> for Vec<u8> {
    fn from(sp: StorablePrincipal) -> (p: Self) {
        sp.0
    }
}

impl FromSpecImpl<StorablePrincipal> for Vec<u8> {
    open spec fn obeys_from_spec() -> bool {
        true
    }

    open spec fn from_spec(sp: StorablePrincipal) -> Self {
        sp.0
    }
}

impl StorablePrincipal {
    /// Whether two identities are the same bytes.
    pub fn same(&self, other: &StorablePrincipal) -> (r: bool)
        ensures
            r == (self@ == other@),
    {
        bytes_equal(&self.0, &other.0)
    }

    /// A copy of the identity.
    pub fn copy(&self) -> (r: StorablePrincipal)
        ensures
            r@ == self@,
    {
        StorablePrincipal(copy_bytes(&self.0))
    }
}

/// Whether two byte vectors hold the same bytes.
pub fn bytes_equal(a: &Vec<u8>, b: &Vec<u8>) -> (r: bool)
    ensures
        r == (a@ == b@),
{
    if a.len() != b.len() {
        return false;
    }
    let mut i: usize = 0;
    while i < a.len()
        invariant
            a@.len() == b@.len(),
            i <= a@.len(),
            forall|j: int| 0 <= j < i ==> a@[j] == b@[j],
        decreases a@.len() - i,
    {
        if a[i] != b[i] {
            return false;
        }
        i += 1;
    }
    assert(a@ =~= b@);
    true
}

/// A copy of a byte vector.
pub fn copy_bytes(a: &Vec<u8>) -> (r: Vec<u8>)
    ensures
        r@ == a@,
{
    let mut r: Vec<u8> = Vec::with_capacity(a.len());
    let mut i: usize = 0;
    while i < a.len()
        invariant
            i <= a@.len(),
            r@ == a@.take(i as int),
        decreases a@.len() - i,
    {
        r.push(a[i]);
        assert(a@.take(i as int).push(a@[i as int]) =~= a@.take(i + 1));
        i += 1;
    }
    assert(a@.take(a@.len() as int) =~= a@);
    r
}

/// Whether a list of identities holds an identity.
pub fn contains_identity(list: &Vec<StorablePrincipal>, id: &StorablePrincipal) -> (r: bool)
    ensures
        r == exists|i: int| 0 <= i < list@.len() && (#[trigger] list@[i])@ == id@,
{
    let mut i: usize = 0;
    while i < list.len()
        invariant
            i <= list@.len(),
            forall|j: int| 0 <= j < i ==> (#[trigger] list@[j])@ != id@,
        decreases list@.len() - i,
    {
        if list[i].same(id) {
            return true;
        }
        i += 1;
    }
    false
}

/// The asset ids that one owner holds, in the order in which they came.
#[derive(Clone, Debug)]
pub struct StorableVecU64(pub Vec<u64>);

impl View for StorableVecU64 {
    type V = Seq<u64>;

    open spec fn view(&self) -> Seq<u64> {
        self.0@
    }
}

impl From<Vec<u64>> for StorableVecU64 {
    fn from(v: Vec<u64>) -> (sv: Self) {
        StorableVecU64(v)
    }
}

impl FromSpecImpl<Vec<u64>> for StorableVecU64 {
    open spec fn obeys_from_spec() -> bool {
        true
    }

    open spec fn from_spec(v: Vec<u64>) -> Self {
        StorableVecU64(v)
    }
}

impl From<StorableVecU64> for Vec<u64> {
    fn from(sv: StorableVecU64) -> (v: Self) {
        sv.0
    }
}

impl FromSpecImpl<StorableVecU64> for Vec<u64> {
    open spec fn obeys_from_spec() -> bool {
        true
    }

    open spec fn from_spec(sv: StorableVecU64) -> Self {
        sv.0
    }
}

} // verus!
