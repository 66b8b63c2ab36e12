//! The append-only store: a mapped region, the cursor that bounds its
//! committed prefix, and the rules by which appends move that cursor.

use vstd::prelude::*;

use crate::error::Error;
use crate::mapping::{flush, mapped_bytes, mapped_len, mapped_prefix, write_at};

verus! {

/// What a store holds, as readers and writers see it.
pub struct AppenderView {
    /// The committed bytes, in the order they were appended.
    pub content: Seq<u8>,
    /// The fixed size of the mapped region.
    pub capacity: nat,
    /// The length of the backing file: only bytes below it may be touched.
    pub file_len: nat,
    /// Set once a failed append could not be rolled back.
    pub poisoned: bool,
}

impl AppenderView {
    /// The committed content fits both in the region and in the backing file.
    pub open spec fn bounded(self) -> bool {
        self.content.len() <= self.capacity && self.content.len() <= self.file_len
    }
}

/// The outcome of opening a store over a region of `bytes` whose backing file
/// holds `file_len` bytes.
pub open spec fn open_spec(bytes: Seq<u8>, file_len: nat) -> Result<AppenderView, Error> {
    if file_len <= bytes.len() {
        Ok(AppenderView {
            content: bytes.subrange(0, file_len as int),
            capacity: bytes.len(),
            file_len,
            poisoned: false,
        })
    } else {
        Err(Error::MmapTooSmall)
    }
}

/// How the store moves once `data` has been written past its cursor: when
/// the flush succeeded the bytes are committed after the old content, and
/// when it failed nothing changes and the result is `Write`.
pub open spec fn publish_spec(pre: AppenderView, data: Seq<u8>, flushed: bool, post: AppenderView, r: Result<(), Error>) -> bool {
    if flushed {
        r == Ok::<(), Error>(()) && post == AppenderView { content: pre.content + data, ..pre }
    } else {
        r == Err::<(), Error>(Error::Write) && post == pre
    }
}

/// Whether appending `data` may take the store from `pre` to `post` with
/// result `r`. A request beyond the remaining capacity, on a poisoned store,
/// or beyond the backing file's length changes nothing; otherwise the bytes
/// are written and flushed, and the flush's outcome decides as in
/// `publish_spec`.
pub open spec fn append_spec(pre: AppenderView, data: Seq<u8>, post: AppenderView, r: Result<(), Error>) -> bool {
    if pre.content.len() + data.len() > pre.capacity {
        r == Err::<(), Error>(Error::MmapTooSmall) && post == pre
    } else if pre.poisoned || pre.content.len() + data.len() > pre.file_len {
        r == Err::<(), Error>(Error::Write) && post == pre
    } else {
        exists|flushed: bool| #[trigger] publish_spec(pre, data, flushed, post, r)
    }
}

/// An append-only byte store over a mutable memory map.
pub struct Appender {
    mmap: memmap::MmapMut,
    actual_size: usize,
    file_len: usize,
    poisoned: bool,
}

impl View for Appender {
    type V = AppenderView;

    closed spec fn view(&self) -> AppenderView {
        AppenderView {
            content: mapped_bytes(self.mmap).subrange(0, self.actual_size as int),
            capacity: mapped_bytes(self.mmap).len(),
            file_len: self.file_len as nat,
            poisoned: self.poisoned,
        }
    }
}

/// The cursor a store over a region of `map_size` bytes starts from when its
/// backing file holds `file_len` bytes: the file's length, or `MmapTooSmall`
/// when the region cannot hold the file.
pub fn initial_size(file_len: u64, map_size: usize) -> (r: Result<usize, Error>)
    ensures
        file_len <= map_size ==> r == Ok::<usize, Error>(file_len as usize),
        file_len > map_size ==> r == Err::<usize, Error>(Error::MmapTooSmall),
{
    if file_len <= map_size as u64 {
        Ok(file_len as usize)
    } else {
        Err(Error::MmapTooSmall)
    }
}

impl Appender {
    /// Whether the cursor lies within the mapped region and the backing file.
    pub closed spec fn wf(&self) -> bool {
        self.actual_size <= mapped_bytes(self.mmap).len() && self.actual_size <= self.file_len
    }

    /// Opens a store over `mmap`, whose backing file holds `file_len` bytes.
    /// The committed content is the first `file_len` bytes of the region.
    pub fn new(mmap: memmap::MmapMut, file_len: u64) -> (r: Result<Appender, Error>)
        ensures
            r is Ok <==> open_spec(mapped_bytes(mmap), file_len as nat) is Ok,
            r is Ok ==> r->Ok_0.wf() && r->Ok_0@.bounded(),
            r is Ok ==> Ok::<AppenderView, Error>(r->Ok_0@) == open_spec(mapped_bytes(mmap), file_len as nat),
            r is Err ==> Err::<AppenderView, Error>(r->Err_0) == open_spec(mapped_bytes(mmap), file_len as nat),
    {
        let map_size = mapped_len(&mmap);
        match initial_size(file_len, map_size) {
            Ok(actual_size) => Ok(Appender { mmap, actual_size, file_len: actual_size, poisoned: false }),
            Err(e) => Err(e),
        }
    }

    /// The size the store would have after appending `size_inc` bytes, when
    /// such an append may proceed; the error that the append would return
    /// without trying, when it may not.
    pub fn reserve(&self, size_inc: usize) -> (r: Result<usize, Error>)
        requires
            self.wf(),
        ensures
            self@.content.len() + size_inc > self@.capacity ==> r == Err::<usize, Error>(Error::MmapTooSmall),
            self@.content.len() + size_inc <= self@.capacity && self@.poisoned ==> r == Err::<usize, Error>(Error::Write),
            self@.content.len() + size_inc <= self@.capacity && !self@.poisoned
                ==> r is Ok && r->Ok_0 == self@.content.len() + size_inc,
    {
        let capacity = mapped_len(&self.mmap);
        if size_inc > capacity - self.actual_size {
            Err(Error::MmapTooSmall)
        } else if self.poisoned {
            Err(Error::Write)
        } else {
            Ok(self.actual_size + size_inc)
        }
    }

    /// Records that the backing file now holds `n` bytes, after it was grown
    /// to make room for an append.
    pub fn file_grown(&mut self, n: usize)
        requires
            old(self).wf(),
            old(self)@.content.len() <= n,
        ensures
            final(self).wf(),
            final(self)@.bounded(),
            final(self)@ == (AppenderView { file_len: n as nat, ..old(self)@ }),
    {
        self.file_len = n;
    }

    /// Appends `data` after the committed content. The bytes are written past
    /// the cursor and flushed before the cursor moves over them, so the
    /// committed prefix never holds a partial append. The backing file must
    /// already have been grown to hold them.
    pub fn append(&mut self, data: &[u8]) -> (r: Result<(), Error>)
        requires
            old(self).wf(),
        ensures
            final(self).wf(),
            final(self)@.bounded(),
            append_spec(old(self)@, data@, final(self)@, r),
    {
        assert(self@.content.len() == self.actual_size);
        let new_size = match self.reserve(data.len()) {
            Ok(n) => n,
            Err(e) => return Err(e),
        };
        if new_size > self.file_len {
            return Err(Error::Write);
        }
        let ghost pre = self@;
        write_at(&mut self.mmap, self.actual_size, data, self.file_len);
        assert(self@.content =~= pre.content);
        assert(mapped_bytes(self.mmap).subrange(self.actual_size as int, new_size as int) =~= data@);
        let flushed = flush(&self.mmap);
        let r = self.publish(new_size, flushed, Ghost(data@));
        assert(publish_spec(pre, data@, flushed, self@, r));
        r
    }

    /// Moves the cursor to `new_size` once the bytes before it are flushed;
    /// leaves the store as it was when the flush failed.
    fn publish(&mut self, new_size: usize, flushed: bool, Ghost(data): Ghost<Seq<u8>>) -> (r: Result<(), Error>)
        requires
            old(self).wf(),
            new_size == old(self).actual_size + data.len(),
            new_size <= mapped_bytes(old(self).mmap).len(),
            new_size <= old(self).file_len,
            mapped_bytes(old(self).mmap).subrange(old(self).actual_size as int, new_size as int) == data,
        ensures
            final(self).wf(),
            publish_spec(old(self)@, data, flushed, final(self)@, r),
    {
        if flushed {
            let ghost pre = self@;
            self.actual_size = new_size;
            assert(self@.content =~= pre.content + data);
            Ok(())
        } else {
            Err(Error::Write)
        }
    }

    /// Settles an append whose result was `r`. After a failure the backing
    /// file was truncated back to the committed size, which `rollback_ok`
    /// reports; a store whose rollback failed is poisoned. Returns `r`.
    pub fn settle(&mut self, r: Result<(), Error>, rollback_ok: bool) -> (out: Result<(), Error>)
        requires
            old(self).wf(),
        ensures
            final(self).wf(),
            final(self)@.bounded(),
            out == r,
            r is Ok ==> final(self)@ == old(self)@,
            r is Err && rollback_ok
                ==> final(self)@ == (AppenderView { file_len: old(self)@.content.len(), ..old(self)@ }),
            r is Err && !rollback_ok ==> final(self)@ == (AppenderView { poisoned: true, ..old(self)@ }),
    {
        if r.is_err() {
            if rollback_ok {
                self.file_len = self.actual_size;
            } else {
                self.poisoned = true;
            }
        }
        r
    }

    /// The committed bytes.
    pub fn get_data(&self) -> (r: &[u8])
        requires
            self.wf(),
        ensures
            r@ == self@.content,
    {
        mapped_prefix(&self.mmap, self.actual_size, self.file_len)
    }

    /// The number of committed bytes.
    pub fn size(&self) -> (r: usize)
        requires
            self.wf(),
        ensures
            r == self@.content.len(),
            r <= self@.capacity,
            r <= self@.file_len,
    {
        self.actual_size
    }

    /// The size of the mapped region.
    pub fn capacity(&self) -> (r: usize)
        ensures
            r == self@.capacity,
    {
        mapped_len(&self.mmap)
    }

    /// Releases the store, handing back its mapped region, whose first bytes
    /// are the committed content.
    pub fn close(self) -> (r: memmap::MmapMut)
        requires
            self.wf(),
        ensures
            mapped_bytes(r).len() == self@.capacity,
            mapped_bytes(r).subrange(0, self@.content.len() as int) == self@.content,
    {
        self.mmap
    }

    /// Whether a failed rollback has made the store unusable for appends.
    pub fn is_poisoned(&self) -> (r: bool)
        ensures
            r == self@.poisoned,
    {
        self.poisoned
    }
}

} // verus!
