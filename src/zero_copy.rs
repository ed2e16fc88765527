use vstd::prelude::*;

verus! {

/// A byte range of one backing store, lent to host code.
#[derive(Debug, Clone, Copy, PartialEq, Eq, Structural)]
pub struct Lease {
    /// Identity of the backing store.
    pub store: u64,
    pub byte_offset: usize,
    pub byte_length: usize,
    /// Whether the holder may write through the lease.
    pub writable: bool,
}

/// The two leases share at least one byte of the same store.
pub open spec fn ranges_overlap(a: Lease, b: Lease) -> bool {
    &&& a.store == b.store
    &&& a.byte_length > 0
    &&& b.byte_length > 0
    &&& a.byte_offset < b.byte_offset + b.byte_length
    &&& b.byte_offset < a.byte_offset + a.byte_length
}

/// The two leases may not be held together: they overlap and one of them
/// may write.
pub open spec fn conflicts(a: Lease, b: Lease) -> bool {
    ranges_overlap(a, b) && (a.writable || b.writable)
}

/// No two leases of `leases` conflict.
pub open spec fn conflict_free(leases: Seq<Lease>) -> bool {
    forall|i: int, j: int| 0 <= i < leases.len() && 0 <= j < leases.len() && i != j
        ==> !conflicts(leases[i], leases[j])
}

/// Whether two leases overlap, decided without overflow.
pub fn overlaps(a: &Lease, b: &Lease) -> (r: bool)
    ensures
        r == ranges_overlap(*a, *b),
{
    if a.store != b.store || a.byte_length == 0 || b.byte_length == 0 {
        false
    } else if a.byte_offset <= b.byte_offset {
        b.byte_offset - a.byte_offset < a.byte_length
    } else {
        a.byte_offset - b.byte_offset < b.byte_length
    }
}

/// The bytes `byte_offset .. byte_offset + byte_length` of a backing store.
pub fn get_backing_store_slice(store: &[u8], byte_offset: usize, byte_length: usize) -> (r: &[u8])
    requires
        byte_offset + byte_length <= store@.len(),
    ensures
        r@ == store@.subrange(byte_offset as int, byte_offset + byte_length),
{
    let len: usize = store.len();
    let end: usize = byte_offset + byte_length;
    assert(end <= len);
    &store[byte_offset..end]
}

/// The bytes `byte_offset .. byte_offset + byte_length` of a backing store,
/// for writing; the rest of the store is left as it was.
pub fn get_backing_store_slice_mut(store: &mut [u8], byte_offset: usize, byte_length: usize) -> (r:
    &mut [u8])
    requires
        byte_offset + byte_length <= old(store)@.len(),
    ensures
        r@ == old(store)@.subrange(byte_offset as int, byte_offset + byte_length),
        final(store)@ == old(store)@.subrange(0, byte_offset as int) + final(r)@ + old(
            store,
        )@.subrange(byte_offset + byte_length, old(store)@.len() as int),
{
    let (_, rest) = store.split_at_mut(byte_offset);
    let (mid, _) = rest.split_at_mut(byte_length);
    mid
}

/// A borrowed view over engine-owned memory: a backing store, an offset and
/// a length. It cannot be duplicated; it is handed back to the
/// `BufferLeases` that lent it.
pub struct ZeroCopyBuf {
    lease: Lease,
}

impl ZeroCopyBuf {
    pub closed spec fn view(&self) -> Lease {
        self.lease
    }

    pub fn store(&self) -> (r: u64)
        ensures
            r == self@.store,
    {
        self.lease.store
    }

    pub fn byte_offset(&self) -> (r: usize)
        ensures
            r == self@.byte_offset,
    {
        self.lease.byte_offset
    }

    pub fn byte_length(&self) -> (r: usize)
        ensures
            r == self@.byte_length,
    {
        self.lease.byte_length
    }

    pub fn writable(&self) -> (r: bool)
        ensures
            r == self@.writable,
    {
        self.lease.writable
    }

    /// The bytes of `store` that this buffer covers.
    pub fn as_slice<'a>(&self, store: &'a [u8]) -> (r: &'a [u8])
        requires
            self@.byte_offset + self@.byte_length <= store@.len(),
        ensures
            r@ == store@.subrange(self@.byte_offset as int, self@.byte_offset + self@.byte_length),
    {
        get_backing_store_slice(store, self.lease.byte_offset, self.lease.byte_length)
    }

    /// The bytes of `store` that this buffer covers, for writing.
    pub fn as_mut_slice<'a>(&self, store: &'a mut [u8]) -> (r: &'a mut [u8])
        requires
            self@.writable,
            self@.byte_offset + self@.byte_length <= old(store)@.len(),
        ensures
            r@ == old(store)@.subrange(
                self@.byte_offset as int,
                self@.byte_offset + self@.byte_length,
            ),
            final(store)@ == old(store)@.subrange(0, self@.byte_offset as int) + final(r)@ + old(
                store,
            )@.subrange(self@.byte_offset + self@.byte_length, old(store)@.len() as int),
    {
        get_backing_store_slice_mut(store, self.lease.byte_offset, self.lease.byte_length)
    }
}

/// Among the buffers lent out at one time, two whose ranges overlap are
/// both read-only: no writable buffer shares a byte with another buffer.
pub proof fn lemma_overlapping_leases_read_only(leases: &BufferLeases, i: int, j: int)
    requires
        leases.wf(),
        0 <= i < leases@.len(),
        0 <= j < leases@.len(),
        i != j,
        ranges_overlap(leases@[i], leases@[j]),
    ensures
        !leases@[i].writable,
        !leases@[j].writable,
{
    assert(!conflicts(leases@[i], leases@[j]));
}

/// Writing through one buffer is local to it: when `after` is `store` with
/// the range of `a` replaced by `written` (as `as_mut_slice` leaves it), `a`
/// reads back exactly `written`, and a buffer `b` whose range does not
/// overlap reads the bytes it read before.
pub proof fn lemma_write_is_local(store: Seq<u8>, a: Lease, b: Lease, written: Seq<u8>, after: Seq<u8>)
    requires
        a.byte_offset + a.byte_length <= store.len(),
        b.byte_offset + b.byte_length <= store.len(),
        a.store == b.store,
        !ranges_overlap(a, b),
        written.len() == a.byte_length,
        after == store.subrange(0, a.byte_offset as int) + written + store.subrange(
            a.byte_offset + a.byte_length,
            store.len() as int,
        ),
    ensures
        after.subrange(a.byte_offset as int, a.byte_offset + a.byte_length) == written,
        after.subrange(b.byte_offset as int, b.byte_offset + b.byte_length) == store.subrange(
            b.byte_offset as int,
            b.byte_offset + b.byte_length,
        ),
{
    assert(after.len() == store.len());
    assert(after.subrange(a.byte_offset as int, a.byte_offset + a.byte_length) =~= written);
    assert(after.subrange(b.byte_offset as int, b.byte_offset + b.byte_length) =~= store.subrange(
        b.byte_offset as int,
        b.byte_offset + b.byte_length,
    ));
}

/// Why a buffer was not lent.
#[derive(Debug, Clone, Copy, PartialEq, Eq, Structural)]
pub enum LeaseError {
    /// The range does not lie inside the backing store.
    OutOfBounds,
    /// The range overlaps a range already lent, and one of the two may write.
    Conflict,
}

/// The ranges of backing stores that are lent out at present.
pub struct BufferLeases {
    leases: Vec<Lease>,
}

impl BufferLeases {
    pub closed spec fn view(&self) -> Seq<Lease> {
        self.leases@
    }

    pub open spec fn wf(&self) -> bool {
        conflict_free(self@)
    }

    /// No range is lent.
    pub fn new() -> (r: Self)
        ensures
            r.wf(),
            r@ == Seq::<Lease>::empty(),
    {
        BufferLeases { leases: Vec::new() }
    }

    /// The number of buffers lent out.
    pub fn len(&self) -> (r: usize)
        ensures
            r == self@.len(),
    {
        self.leases.len()
    }

    /// Lends `byte_length` bytes from `byte_offset` of the store `store`,
    /// whose size is `store_len`, unless that range conflicts with one
    /// already lent.
    pub fn lend(
        &mut self,
        store: u64,
        store_len: usize,
        byte_offset: usize,
        byte_length: usize,
        writable: bool,
    ) -> (r: Result<ZeroCopyBuf, LeaseError>)
        requires
            old(self).wf(),
        ensures
            final(self).wf(),
            ({
                let lease = Lease { store, byte_offset, byte_length, writable };
                &&& byte_offset + byte_length > store_len ==> r == Err::<ZeroCopyBuf, LeaseError>(
                    LeaseError::OutOfBounds,
                )
                &&& byte_offset + byte_length <= store_len && (exists|i: int|
                    0 <= i < old(self)@.len() && conflicts(old(self)@[i], lease)) ==> r == Err::<
                    ZeroCopyBuf,
                    LeaseError,
                >(LeaseError::Conflict)
                &&& r is Err ==> final(self)@ == old(self)@
                &&& r matches Ok(buf) ==> {
                    &&& byte_offset + byte_length <= store_len
                    &&& forall|i: int| 0 <= i < old(self)@.len() ==> !conflicts(old(self)@[i], lease)
                    &&& buf@ == lease
                    &&& final(self)@ == old(self)@.push(lease)
                }
                &&& byte_offset + byte_length <= store_len && (forall|i: int|
                    0 <= i < old(self)@.len() ==> !conflicts(old(self)@[i], lease)) ==> r is Ok
            }),
    {
        let lease = Lease { store, byte_offset, byte_length, writable };
        if byte_length > store_len || byte_offset > store_len - byte_length {
            return Err(LeaseError::OutOfBounds);
        }
        let mut i: usize = 0;
        while i < self.leases.len()
            invariant
                0 <= i <= self.leases@.len(),
                self@ == old(self)@,
                self.wf(),
                lease == (Lease { store, byte_offset, byte_length, writable }),
                byte_offset + byte_length <= store_len,
                forall|j: int| 0 <= j < i ==> !conflicts(self.leases@[j], lease),
            decreases self.leases@.len() - i,
        {
            let other = self.leases[i];
            let hit = overlaps(&other, &lease);
            assert(other == self.leases@[i as int]);
            if hit && (other.writable || writable) {
                assert(conflicts(self.leases@[i as int], lease));
                return Err(LeaseError::Conflict);
            }
            assert(!conflicts(self.leases@[i as int], lease));
            i = i + 1;
        }
        self.leases.push(lease);
        proof {
            let s = self.leases@;
            assert forall|a: int, b: int| 0 <= a < s.len() && 0 <= b < s.len() && a != b implies !conflicts(
                s[a],
                s[b],
            ) by {
                if a < s.len() - 1 && b < s.len() - 1 {
                    assert(!conflicts(old(self)@[a], old(self)@[b]));
                }
            }
        }
        Ok(ZeroCopyBuf { lease })
    }

    /// Takes a buffer back; its range may then be lent again. Answers
    /// whether the buffer was one that is lent out here.
    pub fn give_back(&mut self, buf: ZeroCopyBuf) -> (r: bool)
        requires
            old(self).wf(),
        ensures
            final(self).wf(),
            r == old(self)@.contains(buf@),
            r ==> final(self)@.to_multiset() == old(self)@.to_multiset().remove(buf@),
            !r ==> final(self)@ == old(self)@,
    {
        let mut i: usize = 0;
        while i < self.leases.len()
            invariant
                0 <= i <= self.leases@.len(),
                self@ == old(self)@,
                self.wf(),
                forall|j: int| 0 <= j < i ==> self.leases@[j] != buf@,
            decreases self.leases@.len() - i,
        {
            if self.leases[i] == buf.lease {
                let ghost before = self.leases@;
                let _ = self.leases.remove(i);
                proof {
                    let s = self.leases@;
                    assert(s == before.remove(i as int));
                    vstd::seq_lib::to_multiset_remove(before, i as int);
                    assert(before.contains(buf@));
                    assert forall|a: int, b: int| 0 <= a < s.len() && 0 <= b < s.len() && a != b implies !conflicts(
                        s[a],
                        s[b],
                    ) by {
                        let a0 = if a < i { a } else { a + 1 };
                        let b0 = if b < i { b } else { b + 1 };
                        assert(!conflicts(before[a0], before[b0]));
                    }
                }
                return true;
            }
            i = i + 1;
        }
        false
    }
}

} // verus!
