//! Planning of file uploads: the choice between a single request and a
//! multipart upload, and the bookkeeping of a multipart upload.

use vstd::prelude::*;

verus! {

/// Size of one part of a multipart upload, in bytes (5 MiB). Files smaller
/// than this are uploaded in a single request.
pub const UPLOAD_BUFFER_SIZE: u64 = 5242880;

/// How a file of a given size is uploaded.
#[derive(Clone, Copy, Debug, PartialEq, Eq)]
pub enum UploadMode {
    /// One PUT of the whole file against a single upload link.
    Single,
    /// A multipart session: one part per chunk, then a finalize call.
    Multipart,
}

/// Picks the upload path for a file of `size` bytes.
pub fn upload_mode(size: u64) -> (r: UploadMode)
    ensures
        r == UploadMode::Single <==> size < UPLOAD_BUFFER_SIZE,
        r == UploadMode::Multipart <==> size >= UPLOAD_BUFFER_SIZE,
{
    if size < UPLOAD_BUFFER_SIZE {
        UploadMode::Single
    } else {
        UploadMode::Multipart
    }
}

/// The number of parts a file of `size` bytes is split into: the size
/// divided by the part size, rounded up.
pub open spec fn part_count(size: nat) -> nat {
    ((size + UPLOAD_BUFFER_SIZE - 1) / (UPLOAD_BUFFER_SIZE as int)) as nat
}

/// The length of part `i` (counted from 0) of a file of `size` bytes: a full
/// part, or what is left of the file.
pub open spec fn chunk_len(size: nat, i: nat) -> nat {
    if size >= i * UPLOAD_BUFFER_SIZE + UPLOAD_BUFFER_SIZE {
        UPLOAD_BUFFER_SIZE as nat
    } else if size >= i * UPLOAD_BUFFER_SIZE {
        (size - i * UPLOAD_BUFFER_SIZE) as nat
    } else {
        0
    }
}

/// The number of bytes in the first `k` parts of a file of `size` bytes.
pub open spec fn bytes_before(size: nat, k: nat) -> nat
    decreases k,
{
    if k == 0 {
        0
    } else {
        bytes_before(size, (k - 1) as nat) + chunk_len(size, (k - 1) as nat)
    }
}

proof fn lemma_part_count_bounds(size: nat)
    ensures
        part_count(size) * UPLOAD_BUFFER_SIZE >= size,
        part_count(size) > 0 ==> (part_count(size) - 1) * UPLOAD_BUFFER_SIZE < size,
{
    let c = UPLOAD_BUFFER_SIZE as int;
    let n = part_count(size) as int;
    assert(n == (size + c - 1) / c);
    assert(n * c >= size && (n > 0 ==> (n - 1) * c < size)) by (nonlinear_arith)
        requires
            n == (size + c - 1) / c,
            c > 0,
            size >= 0,
    ;
}

proof fn lemma_bytes_before(size: nat, k: nat)
    requires
        k <= part_count(size),
    ensures
        bytes_before(size, k) == if k * UPLOAD_BUFFER_SIZE <= size {
            k * UPLOAD_BUFFER_SIZE
        } else {
            size as int
        },
    decreases k,
{
    lemma_part_count_bounds(size);
    if k > 0 {
        lemma_bytes_before(size, (k - 1) as nat);
        assert((k - 1) * UPLOAD_BUFFER_SIZE < size) by (nonlinear_arith)
            requires
                k <= part_count(size),
                (part_count(size) - 1) * UPLOAD_BUFFER_SIZE < size,
                k > 0,
        ;
    }
}

/// The parts of a file cover it exactly: each of the `part_count(size)`
/// parts is non-empty and at most one part size long, a part past the last
/// one is empty, and the lengths of the parts add up to the file's size.
pub proof fn lemma_parts_cover_file(size: nat)
    ensures
        bytes_before(size, part_count(size)) == size,
        forall|i: nat|
            i < part_count(size) ==> 0 < #[trigger] chunk_len(size, i) <= UPLOAD_BUFFER_SIZE,
        forall|i: nat| i >= part_count(size) ==> #[trigger] chunk_len(size, i) == 0,
{
    lemma_part_count_bounds(size);
    lemma_bytes_before(size, part_count(size));
    assert forall|i: nat| i < part_count(size) implies 0 < #[trigger] chunk_len(size, i)
        <= UPLOAD_BUFFER_SIZE by {
        assert(i * UPLOAD_BUFFER_SIZE < size) by (nonlinear_arith)
            requires
                i < part_count(size),
                (part_count(size) - 1) * UPLOAD_BUFFER_SIZE < size,
        ;
    }
    assert forall|i: nat| i >= part_count(size) implies #[trigger] chunk_len(size, i) == 0 by {
        assert(i * UPLOAD_BUFFER_SIZE >= size) by (nonlinear_arith)
            requires
                i >= part_count(size),
                part_count(size) * UPLOAD_BUFFER_SIZE >= size,
        ;
    }
}

/// The receipt for one uploaded part.
#[derive(Clone, Debug, PartialEq, Eq)]
pub struct UploadPart {
    /// Position of the part in the file, counted from 1.
    pub part_number: u64,
    /// The completion token the storage returned for the part.
    pub etag: String,
}

/// The next part to send: read `len` bytes from the file, then upload them
/// under `part_number`.
#[derive(Clone, Copy, Debug, PartialEq, Eq)]
pub struct ChunkRequest {
    pub part_number: u64,
    pub len: u64,
}

/// A multipart upload in progress. The file is read once from start to end;
/// each part is read, uploaded and acknowledged before the next is asked for.
pub struct MultipartUpload {
    object_id: String,
    size: u64,
    remaining: u64,
    parts: Vec<UploadPart>,
}

impl MultipartUpload {
    pub closed spec fn spec_object_id(&self) -> Seq<char> {
        self.object_id@
    }

    /// Size of the file in bytes.
    pub closed spec fn spec_size(&self) -> nat {
        self.size as nat
    }

    /// Bytes of the file not yet handed to a part.
    pub closed spec fn spec_remaining(&self) -> nat {
        self.remaining as nat
    }

    /// Receipts of the parts uploaded so far, in the order they were read.
    pub closed spec fn spec_parts(&self) -> Seq<UploadPart> {
        self.parts@
    }

    /// Every part has been read and acknowledged.
    pub open spec fn spec_complete(&self) -> bool {
        self.spec_remaining() == 0
    }

    pub closed spec fn wf(&self) -> bool {
        &&& self.remaining <= self.size
        &&& self.parts@.len() <= part_count(self.size as nat)
        &&& self.size - self.remaining == bytes_before(self.size as nat, self.parts@.len())
        &&& self.remaining > 0 ==> self.size - self.remaining == self.parts@.len()
            * UPLOAD_BUFFER_SIZE
        &&& self.remaining == 0 ==> self.parts@.len() == part_count(self.size as nat)
        &&& forall|i: int|
            0 <= i < self.parts@.len() ==> #[trigger] self.parts@[i].part_number == i + 1
    }

    /// Starts the bookkeeping for uploading `size` bytes to object `object_id`.
    pub fn new(object_id: String, size: u64) -> (r: Self)
        ensures
            r.wf(),
            r.spec_object_id() == object_id@,
            r.spec_size() == size,
            r.spec_remaining() == size,
            r.spec_parts() == Seq::<UploadPart>::empty(),
    {
        MultipartUpload { object_id, size, remaining: size, parts: Vec::new() }
    }

    pub fn object_id(&self) -> (r: &String)
        ensures
            r@ == self.spec_object_id(),
    {
        &self.object_id
    }

    pub fn size(&self) -> (r: u64)
        ensures
            r == self.spec_size(),
    {
        self.size
    }

    pub fn remaining(&self) -> (r: u64)
        ensures
            r == self.spec_remaining(),
    {
        self.remaining
    }

    pub fn is_complete(&self) -> (r: bool)
        ensures
            r == self.spec_complete(),
    {
        self.remaining == 0
    }

    /// The part to read and upload next, or `None` once the whole file has
    /// been sent.
    pub fn next_chunk(&self) -> (r: Option<ChunkRequest>)
        requires
            self.wf(),
        ensures
            r is None <==> self.spec_complete(),
            r matches Some(c) ==> {
                &&& c.part_number == self.spec_parts().len() + 1
                &&& c.len == chunk_len(self.spec_size(), self.spec_parts().len())
                &&& c.len > 0
            },
    {
        if self.remaining == 0 {
            return None;
        }
        let k = self.parts.len() as u64;
        assert(self.parts@.len() < part_count(self.size as nat)) by {
            self.lemma_fewer_parts_while_remaining();
        }
        let len = if self.remaining < UPLOAD_BUFFER_SIZE {
            self.remaining
        } else {
            UPLOAD_BUFFER_SIZE
        };
        Some(ChunkRequest { part_number: k + 1, len })
    }

    proof fn lemma_fewer_parts_while_remaining(&self)
        requires
            self.wf(),
            self.remaining > 0,
        ensures
            self.parts@.len() < part_count(self.size as nat),
            self.parts@.len() + 1 < u64::MAX,
    {
        let k = self.parts@.len();
        let s = self.size as nat;
        assert(k * UPLOAD_BUFFER_SIZE < s);
        assert(part_count(s) * UPLOAD_BUFFER_SIZE + UPLOAD_BUFFER_SIZE > s) by (nonlinear_arith)
            requires
                part_count(s) == (s + UPLOAD_BUFFER_SIZE - 1) / (UPLOAD_BUFFER_SIZE as int),
        ;
        assert(part_count(s) * UPLOAD_BUFFER_SIZE >= s);
        assert(k < part_count(s)) by (nonlinear_arith)
            requires
                k * UPLOAD_BUFFER_SIZE < s,
                part_count(s) * UPLOAD_BUFFER_SIZE >= s,
        ;
        assert(part_count(s) <= s);
    }

    /// Records the receipt of the part that `next_chunk` announced.
    pub fn record_part(&mut self, etag: String)
        requires
            old(self).wf(),
            !old(self).spec_complete(),
        ensures
            final(self).wf(),
            final(self).spec_object_id() == old(self).spec_object_id(),
            final(self).spec_size() == old(self).spec_size(),
            final(self).spec_parts() == old(self).spec_parts().push(
                UploadPart { part_number: (old(self).spec_parts().len() + 1) as u64, etag },
            ),
            final(self).spec_remaining() == old(self).spec_remaining() - chunk_len(
                old(self).spec_size(),
                old(self).spec_parts().len(),
            ),
    {
        proof {
            self.lemma_fewer_parts_while_remaining();
        }
        let k = self.parts.len() as u64;
        let len = if self.remaining < UPLOAD_BUFFER_SIZE {
            self.remaining
        } else {
            UPLOAD_BUFFER_SIZE
        };
        self.remaining = self.remaining - len;
        self.parts.push(UploadPart { part_number: k + 1, etag });
        proof {
            let s = self.size as nat;
            let kk = k as nat;
            assert(bytes_before(s, kk + 1) == bytes_before(s, kk) + chunk_len(s, kk));
            if self.remaining == 0 {
                assert(s == kk * UPLOAD_BUFFER_SIZE + len);
                assert(0 < len <= UPLOAD_BUFFER_SIZE);
                assert(part_count(s) == kk + 1) by (nonlinear_arith)
                    requires
                        s == kk * UPLOAD_BUFFER_SIZE + len,
                        0 < len <= UPLOAD_BUFFER_SIZE,
                        part_count(s) == (s + UPLOAD_BUFFER_SIZE - 1) / (UPLOAD_BUFFER_SIZE as int),
                ;
            }
        }
    }

    /// A completed upload holds one receipt per part of the file, numbered
    /// from 1 up to `part_count(size)` without gaps, in the order in which the
    /// parts were read; so the part numbers strictly ascend.
    pub proof fn lemma_completed_manifest(&self)
        requires
            self.wf(),
            self.spec_complete(),
        ensures
            self.spec_parts().len() == part_count(self.spec_size()),
            forall|i: int|
                0 <= i < self.spec_parts().len() ==> #[trigger] self.spec_parts()[i].part_number
                    == i + 1,
            forall|i: int, j: int|
                0 <= i < j < self.spec_parts().len() ==> self.spec_parts()[i].part_number
                    < self.spec_parts()[j].part_number,
    {
        assert forall|i: int, j: int|
            0 <= i < j < self.spec_parts().len() implies self.spec_parts()[i].part_number
            < self.spec_parts()[j].part_number by {
            assert(self.parts@[i].part_number == i + 1);
            assert(self.parts@[j].part_number == j + 1);
        }
    }

    /// The receipts of all parts, in ascending part order, once the upload is
    /// complete; `None` while parts are missing.
    pub fn into_parts(self) -> (r: Option<Vec<UploadPart>>)
        ensures
            r is Some <==> self.spec_complete(),
            r matches Some(p) ==> p@ == self.spec_parts(),
    {
        if self.remaining == 0 {
            Some(self.parts)
        } else {
            None
        }
    }
}

} // verus!
