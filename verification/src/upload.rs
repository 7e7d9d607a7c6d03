//! Uploading a build context: the client cuts the archive into chunks, the
//! server puts them back together, refusing archives above its size limit, and
//! names the archive by its content.

use vstd::prelude::*;
use vstd::string::*;
use crate::id::{uuid_new_v5_url, uuid_v5_url, rfc4122_variant, uuid_version};
use crate::text::{decimal, push_decimal};

verus! {

/// Size of the chunks an archive is sent in (1 MiB).
pub const CHUNK_LEN: usize = 1048576;

/// The chunks of `d`: pieces of `CHUNK_LEN` bytes, in order, the last one possibly
/// shorter; none for empty data.
pub open spec fn chunks_of(d: Seq<u8>) -> Seq<Seq<u8>>
    decreases d.len(),
{
    if d.len() == 0 {
        Seq::empty()
    } else if d.len() <= CHUNK_LEN {
        seq![d]
    } else {
        seq![d.take(CHUNK_LEN as int)] + chunks_of(d.skip(CHUNK_LEN as int))
    }
}

/// The chunks joined together, in order.
pub open spec fn joined(cs: Seq<Seq<u8>>) -> Seq<u8>
    decreases cs.len(),
{
    if cs.len() == 0 {
        Seq::empty()
    } else {
        cs[0] + joined(cs.drop_first())
    }
}

/// Receiving one more chunk after `received`: the data so far, or `None` once
/// the archive grows beyond `limit` bytes.
pub open spec fn receive_step(limit: nat, received: Seq<u8>, chunk: Seq<u8>) -> Option<Seq<u8>> {
    if received.len() + chunk.len() > limit {
        None
    } else {
        Some(received + chunk)
    }
}

/// Receiving all of `cs` after `received`.
pub open spec fn receive_all(limit: nat, received: Seq<u8>, cs: Seq<Seq<u8>>) -> Option<Seq<u8>>
    decreases cs.len(),
{
    if cs.len() == 0 {
        Some(received)
    } else {
        match receive_step(limit, received, cs[0]) {
            Some(r) => receive_all(limit, r, cs.drop_first()),
            None => None,
        }
    }
}

/// Why an upload was refused.
#[derive(PartialEq, Eq, Structural, Clone, Copy, Debug)]
pub enum UploadError {
    /// The archive is larger than `limit` bytes.
    TooLarge { limit: usize },
}

impl UploadError {
    /// The text sent back with the refusal.
    pub fn message(&self) -> (s: String)
        ensures
            s@ == (match *self {
                UploadError::TooLarge { limit } => "too large archive, max size is "@ + decimal(limit as nat)
                    + " Byte"@,
            }),
    {
        match self {
            UploadError::TooLarge { limit } => {
                let mut s = "too large archive, max size is ".to_owned();
                push_decimal(&mut s, *limit as u64);
                s.append(" Byte");
                s
            },
        }
    }
}

/// Cuts `data` into the chunks it is sent in.
pub fn split_chunks(data: &Vec<u8>) -> (chunks: Vec<Vec<u8>>)
    ensures
        chunks@.map_values(|c: Vec<u8>| c@) == chunks_of(data@),
{
    let mut chunks: Vec<Vec<u8>> = Vec::new();
    let mut start: usize = 0;
    let ghost d = data@;
    assert(d.skip(0) =~= d);
    while start < data.len()
        invariant
            start <= data@.len(),
            d == data@,
            chunks@.map_values(|c: Vec<u8>| c@) + chunks_of(d.skip(start as int)) == chunks_of(d),
        decreases data@.len() - start,
    {
        let end: usize = if data.len() - start <= CHUNK_LEN { data.len() } else { start + CHUNK_LEN };
        let mut chunk: Vec<u8> = Vec::new();
        let mut i: usize = start;
        while i < end
            invariant
                start <= i <= end <= data@.len(),
                chunk@ == data@.subrange(start as int, i as int),
            decreases end - i,
        {
            chunk.push(data[i]);
            assert(chunk@ =~= data@.subrange(start as int, i + 1));
            i = i + 1;
        }
        let ghost rest = d.skip(start as int);
        let ghost old_views = chunks@.map_values(|c: Vec<u8>| c@);
        if end == data.len() {
            assert(rest =~= chunk@);
            assert(chunks_of(rest) == seq![rest]);
            assert(d.skip(end as int) =~= Seq::<u8>::empty());
        } else {
            assert(rest.take(CHUNK_LEN as int) =~= chunk@);
            assert(rest.skip(CHUNK_LEN as int) =~= d.skip(end as int));
        }
        chunks.push(chunk);
        assert(chunks@.map_values(|c: Vec<u8>| c@) =~= old_views.push(chunk@));
        assert(old_views.push(chunk@) + chunks_of(d.skip(end as int)) =~= old_views + chunks_of(rest));
        start = end;
    }
    assert(d.skip(start as int) =~= Seq::<u8>::empty());
    assert(chunks@.map_values(|c: Vec<u8>| c@) + chunks_of(d.skip(start as int)) =~= chunks@.map_values(
        |c: Vec<u8>| c@,
    ));
    chunks
}

/// The server side of an upload: the archive received so far, below the size
/// limit.
pub struct ArchiveReceiver {
    size_limit: usize,
    data: Vec<u8>,
}

impl ArchiveReceiver {
    pub closed spec fn wf(&self) -> bool {
        self.data@.len() <= self.size_limit
    }

    /// The bytes received so far.
    pub closed spec fn received(&self) -> Seq<u8> {
        self.data@
    }

    /// The largest archive accepted, in bytes.
    pub closed spec fn limit(&self) -> nat {
        self.size_limit as nat
    }

    /// Starts receiving an archive of at most `size_limit` bytes.
    pub fn new(size_limit: usize) -> (r: Self)
        ensures
            r.wf(),
            r.received() == Seq::<u8>::empty(),
            r.limit() == size_limit,
    {
        ArchiveReceiver { size_limit, data: Vec::new() }
    }

    /// Adds one chunk. Refused, with nothing added, where the archive would grow
    /// beyond the limit.
    pub fn push_chunk(&mut self, chunk: Vec<u8>) -> (r: Result<(), UploadError>)
        requires
            old(self).wf(),
        ensures
            final(self).wf(),
            final(self).limit() == old(self).limit(),
            final(self).limit() <= usize::MAX,
            match receive_step(old(self).limit(), old(self).received(), chunk@) {
                Some(d) => r is Ok && final(self).received() == d,
                None => r == Err::<(), UploadError>(UploadError::TooLarge { limit: old(self).limit() as usize })
                    && final(self).received() == old(self).received(),
            },
    {
        if chunk.len() > self.size_limit - self.data.len() {
            return Err(UploadError::TooLarge { limit: self.size_limit });
        }
        let mut i: usize = 0;
        let ghost before = self.data@;
        while i < chunk.len()
            invariant
                i <= chunk@.len(),
                self.data@ == before + chunk@.take(i as int),
                before.len() + chunk@.len() <= self.size_limit,
                self.size_limit == old(self).size_limit,
            decreases chunk@.len() - i,
        {
            self.data.push(chunk[i]);
            assert(self.data@ =~= before + chunk@.take(i + 1));
            i = i + 1;
        }
        assert(chunk@.take(chunk@.len() as int) =~= chunk@);
        Ok(())
    }

    /// The whole archive and the UUID that names it: the name-based UUID of its
    /// content.
    pub fn finish(self) -> (r: (Vec<u8>, [u8; 16]))
        ensures
            r.0@ == self.received(),
            r.1@ == uuid_v5_url(self.received()),
            uuid_version(r.1@) == 5,
            rfc4122_variant(r.1@),
    {
        let id = uuid_new_v5_url(self.data.as_slice());
        (self.data, id)
    }
}

proof fn lemma_receive_all(limit: nat, received: Seq<u8>, cs: Seq<Seq<u8>>)
    requires
        received.len() <= limit,
    ensures
        receive_all(limit, received, cs) == (if received.len() + joined(cs).len() <= limit {
            Some(received + joined(cs))
        } else {
            None
        }),
    decreases cs.len(),
{
    if cs.len() > 0 {
        assert(joined(cs) == cs[0] + joined(cs.drop_first()));
        assert(joined(cs).len() == cs[0].len() + joined(cs.drop_first()).len());
        if received.len() + cs[0].len() <= limit {
            assert(receive_step(limit, received, cs[0]) == Some(received + cs[0]));
            lemma_receive_all(limit, received + cs[0], cs.drop_first());
            assert(received + cs[0] + joined(cs.drop_first()) =~= received + joined(cs));
        } else {
            assert(receive_step(limit, received, cs[0]) is None);
            assert(receive_all(limit, received, cs) is None);
        }
    } else {
        assert(received + joined(cs) =~= received);
    }
}

proof fn lemma_joined_chunks(d: Seq<u8>)
    ensures
        joined(chunks_of(d)) == d,
    decreases d.len(),
{
    if d.len() > CHUNK_LEN {
        let cs = chunks_of(d);
        lemma_joined_chunks(d.skip(CHUNK_LEN as int));
        assert(cs[0] == d.take(CHUNK_LEN as int));
        assert(cs.drop_first() =~= chunks_of(d.skip(CHUNK_LEN as int)));
        assert(joined(cs) == cs[0] + joined(cs.drop_first()));
        assert(d.take(CHUNK_LEN as int) + d.skip(CHUNK_LEN as int) =~= d);
    } else if d.len() > 0 {
        let cs = chunks_of(d);
        assert(cs == seq![d]);
        assert(cs.drop_first() =~= Seq::<Seq<u8>>::empty());
        assert(joined(cs.drop_first()) == Seq::<u8>::empty());
        assert(joined(cs) == cs[0] + joined(cs.drop_first()));
        assert(d + Seq::<u8>::empty() =~= d);
    }
}

/// Every chunk but the last holds exactly `CHUNK_LEN` bytes, and the last holds at
/// least one and at most `CHUNK_LEN`.
pub proof fn lemma_chunk_sizes(d: Seq<u8>)
    ensures
        forall|i: int|
            0 <= i < chunks_of(d).len() ==> 0 < (#[trigger] chunks_of(d)[i]).len() <= CHUNK_LEN && (i
                < chunks_of(d).len() - 1 ==> chunks_of(d)[i].len() == CHUNK_LEN),
    decreases d.len(),
{
    if d.len() > CHUNK_LEN {
        let rest = d.skip(CHUNK_LEN as int);
        lemma_chunk_sizes(rest);
        let cs = chunks_of(d);
        assert forall|i: int| 0 < i < cs.len() implies cs[i] == chunks_of(rest)[i - 1] by {}
    }
}

/// What the server reassembles from the chunks the client sends is the archive
/// itself when it fits the limit, and the upload is refused when it does not.
pub proof fn lemma_upload_round_trip(limit: nat, d: Seq<u8>)
    ensures
        receive_all(limit, Seq::empty(), chunks_of(d)) == (if d.len() <= limit { Some(d) } else { None }),
{
    lemma_joined_chunks(d);
    lemma_receive_all(limit, Seq::empty(), chunks_of(d));
    assert(Seq::<u8>::empty() + d =~= d);
}

} // verus!
