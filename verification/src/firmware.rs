//! A firmware image and its division into transfer blocks.
use vstd::prelude::*;
use crate::error::{DfuError, DfuErrorView};
use crate::text::joined;

verus! {

/// A raw binary image, written to flash byte for byte.
#[derive(Debug)]
pub struct Firmware {
    pub data: Vec<u8>,
    pub path: String,
}

/// `data` cut into consecutive pieces of `size` bytes; the last piece holds
/// what is left and may be shorter. An empty image has no pieces.
pub open spec fn spec_chunks(data: Seq<u8>, size: nat) -> Seq<Seq<u8>>
    decreases data.len(),
{
    if data.len() == 0 || size == 0 {
        Seq::empty()
    } else if data.len() <= size {
        seq![data]
    } else {
        seq![data.take(size as int)] + spec_chunks(data.skip(size as int), size)
    }
}

/// The byte sequences that a list of vectors holds.
pub open spec fn byte_views(v: Seq<Vec<u8>>) -> Seq<Seq<u8>> {
    v.map_values(|b: Vec<u8>| b@)
}

/// Message for an image file that could not be read.
pub open spec fn unreadable_message(reason: Seq<char>) -> Seq<char> {
    "could not read file: "@ + reason
}

/// The outcome of reading a file, bytes and reason taken as sequences.
pub open spec fn read_view(contents: Result<Vec<u8>, String>) -> Result<Seq<u8>, Seq<char>> {
    match contents {
        Ok(d) => Ok(d@),
        Err(r) => Err(r@),
    }
}

/// What loading an image gives, from its path and the outcome of reading it.
pub open spec fn spec_load(path: Seq<char>, contents: Result<Seq<u8>, Seq<char>>) -> Result<
    (Seq<u8>, Seq<char>),
    DfuErrorView,
> {
    match contents {
        Err(reason) => Err(DfuErrorView::InvalidFirmware(unreadable_message(reason))),
        Ok(data) => if data.len() == 0 {
            Err(DfuErrorView::InvalidFirmware("file is empty"@))
        } else {
            Ok((data, path))
        },
    }
}

/// An image loads exactly when its file was read and is not empty, and then
/// it holds the file's bytes and path unchanged.
pub proof fn lemma_load_outcome(path: Seq<char>, contents: Result<Seq<u8>, Seq<char>>)
    ensures
        (spec_load(path, contents) is Ok) <==> (contents is Ok && contents->Ok_0.len() > 0),
        spec_load(path, contents) is Ok ==> spec_load(path, contents)->Ok_0 == (
        contents->Ok_0,
        path,
        ),
        spec_load(path, contents) is Err ==> spec_load(path, contents)->Err_0 is InvalidFirmware,
{
}

/// The bytes of `data` from `start` up to `end`, as a new vector.
pub fn copy_range(data: &[u8], start: usize, end: usize) -> (res: Vec<u8>)
    requires
        start <= end <= data@.len(),
    ensures
        res@ == data@.subrange(start as int, end as int),
{
    let mut res: Vec<u8> = Vec::with_capacity(end - start);
    let mut i = start;
    while i < end
        invariant
            start <= i <= end <= data@.len(),
            res@ == data@.subrange(start as int, i as int),
        decreases end - i,
    {
        res.push(data[i]);
        i = i + 1;
    }
    res
}

impl Firmware {
    /// Builds the image from the file at `path`, given what reading that
    /// file gave: its bytes, or the reason it failed. An unreadable or empty
    /// file is refused.
    pub fn load(path: String, contents: Result<Vec<u8>, String>) -> (res: Result<Firmware, DfuError>)
        ensures
            match spec_load(path@, read_view(contents)) {
                Ok((data, p)) => res matches Ok(f) && f.data@ == data && f.path@ == p,
                Err(v) => res matches Err(e) && e@ == v,
            },
    {
        match contents {
            Err(reason) => Err(DfuError::InvalidFirmware(joined("could not read file: ", reason.as_str()))),
            Ok(data) => {
                if data.len() == 0 {
                    Err(DfuError::InvalidFirmware(String::from_str("file is empty")))
                } else {
                    Ok(Firmware { data, path })
                }
            },
        }
    }

    /// Number of bytes in the image.
    pub fn size(&self) -> (res: usize)
        ensures
            res == self.data@.len(),
    {
        self.data.len()
    }

    /// The image cut into consecutive pieces of `chunk_size` bytes, the last
    /// one possibly shorter.
    pub fn chunks(&self, chunk_size: usize) -> (res: Vec<Vec<u8>>)
        requires
            chunk_size > 0,
        ensures
            byte_views(res@) == spec_chunks(self.data@, chunk_size as nat),
    {
        let len = self.data.len();
        let mut res: Vec<Vec<u8>> = Vec::new();
        let mut offset: usize = 0;
        proof {
            assert(self.data@.skip(0) == self.data@);
            assert(byte_views(res@) + spec_chunks(self.data@.skip(0), chunk_size as nat)
                == spec_chunks(self.data@, chunk_size as nat));
        }
        while offset < len
            invariant
                len == self.data@.len(),
                chunk_size > 0,
                offset <= len,
                byte_views(res@) + spec_chunks(self.data@.skip(offset as int), chunk_size as nat)
                    == spec_chunks(self.data@, chunk_size as nat),
            decreases len - offset,
        {
            let ghost rest = self.data@.skip(offset as int);
            let end = if len - offset <= chunk_size {
                len
            } else {
                offset + chunk_size
            };
            let piece = copy_range(self.data.as_slice(), offset, end);
            let ghost old_res = res@;
            res.push(piece);
            proof {
                assert(byte_views(res@) == byte_views(old_res).push(piece@));
                if len - offset <= chunk_size {
                    assert(piece@ == rest);
                    assert(self.data@.skip(end as int).len() == 0);
                    assert(spec_chunks(rest, chunk_size as nat) == seq![rest]);
                    assert(spec_chunks(self.data@.skip(end as int), chunk_size as nat) == Seq::<
                        Seq<u8>,
                    >::empty());
                } else {
                    assert(piece@ == rest.take(chunk_size as int));
                    assert(rest.skip(chunk_size as int) == self.data@.skip(end as int));
                }
                assert(byte_views(res@) + spec_chunks(self.data@.skip(end as int), chunk_size as nat)
                    == byte_views(old_res) + spec_chunks(rest, chunk_size as nat));
            }
            offset = end;
        }
        proof {
            assert(self.data@.skip(offset as int).len() == 0);
            assert(byte_views(res@) + Seq::<Seq<u8>>::empty() == byte_views(res@));
        }
        res
    }
}

/// An image of at most `k` times `size` bytes is cut into at most `k`
/// pieces.
pub proof fn lemma_chunk_count(data: Seq<u8>, size: nat, k: nat)
    requires
        size > 0,
        data.len() <= k * size,
    ensures
        spec_chunks(data, size).len() <= k,
    decreases data.len(),
{
    if data.len() == 0 {
    } else if data.len() <= size {
        assert(k >= 1) by (nonlinear_arith)
            requires
                data.len() <= k * size,
                data.len() > 0,
        ;
    } else {
        assert(k >= 1) by (nonlinear_arith)
            requires
                data.len() <= k * size,
                data.len() > 0,
        ;
        let rest = data.skip(size as int);
        assert((k - 1) as nat * size == k * size - size) by (nonlinear_arith)
            requires
                k >= 1,
        ;
        lemma_chunk_count(rest, size, (k - 1) as nat);
    }
}

/// Cutting an image into pieces loses nothing and adds nothing: the pieces,
/// joined in order, give back the image; each piece holds between one and
/// `size` bytes, and only the last may hold fewer than `size`.
pub proof fn lemma_chunks_partition(data: Seq<u8>, size: nat)
    requires
        size > 0,
    ensures
        spec_chunks(data, size).flatten() == data,
        forall|i: int|
            0 <= i < spec_chunks(data, size).len() ==> 1 <= #[trigger] spec_chunks(data, size)[i].len()
                <= size,
        forall|i: int|
            0 <= i < spec_chunks(data, size).len() - 1 ==> #[trigger] spec_chunks(data, size)[i].len()
                == size,
    decreases data.len(),
{
    let c = spec_chunks(data, size);
    if data.len() == 0 {
        assert(c == Seq::<Seq<u8>>::empty());
    } else if data.len() <= size {
        assert(c == seq![data]);
        assert(c.drop_first() == Seq::<Seq<u8>>::empty());
        assert(c.drop_first().flatten() == Seq::<u8>::empty());
        assert(c.flatten() == data + Seq::<u8>::empty());
        assert(data + Seq::<u8>::empty() == data);
    } else {
        let rest = data.skip(size as int);
        lemma_chunks_partition(rest, size);
        let r = spec_chunks(rest, size);
        assert(c == seq![data.take(size as int)] + r);
        assert(c.drop_first() == r);
        assert(c.flatten() == data.take(size as int) + r.flatten());
        assert(data.take(size as int) + rest == data);
        assert forall|i: int| 0 <= i < c.len() implies 1 <= #[trigger] c[i].len() <= size by {
            if i > 0 {
                assert(c[i] == r[i - 1]);
            }
        }
        assert forall|i: int| 0 <= i < c.len() - 1 implies #[trigger] c[i].len() == size by {
            if i > 0 {
                assert(c[i] == r[i - 1]);
            }
        }
    }
}

} // verus!
