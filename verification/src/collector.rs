use vstd::prelude::*;

use crate::limits::MAX_UPLOAD_BYTES;
use crate::reject::RejectKind;

verus! {

/// Grows a raw upload buffer chunk by chunk while enforcing the hard byte
/// ceiling. The buffer never holds more than `MAX_UPLOAD_BYTES`; a chunk
/// that would push it past the ceiling is refused and leaves it unchanged.
pub struct UploadCollector {
    buf: Vec<u8>,
}

impl View for UploadCollector {
    type V = Seq<u8>;

    closed spec fn view(&self) -> Seq<u8> {
        self.buf@
    }
}

impl UploadCollector {
    /// The byte-ceiling invariant: collection never materializes more than
    /// the configured maximum upload size.
    pub open spec fn wf(&self) -> bool {
        self@.len() <= MAX_UPLOAD_BYTES
    }

    pub fn new() -> (c: Self)
        ensures
            c@ == Seq::<u8>::empty(),
            c.wf(),
    {
        UploadCollector { buf: Vec::new() }
    }

    /// Appends one chunk of the "file" part, or refuses it when the ceiling
    /// would be crossed; a refused chunk leaves the buffer untouched and the
    /// caller is expected to stop feeding this request's stream.
    pub fn push_chunk(&mut self, chunk: &[u8]) -> (r: Result<(), RejectKind>)
        requires
            old(self).wf(),
        ensures
            final(self).wf(),
            r is Ok <==> old(self)@.len() + chunk@.len() <= MAX_UPLOAD_BYTES,
            r is Ok ==> final(self)@ == old(self)@ + chunk@,
            r is Err ==> final(self)@ == old(self)@ && r->Err_0 == RejectKind::PayloadTooLarge,
    {
        if chunk.len() > MAX_UPLOAD_BYTES - self.buf.len() {
            Err(RejectKind::PayloadTooLarge)
        } else {
            self.buf.extend_from_slice(chunk);
            proof {
                assert(final(self)@ =~= old(self)@ + chunk@);
            }
            Ok(())
        }
    }

    pub fn len(&self) -> (n: usize)
        ensures
            n == self@.len(),
    {
        self.buf.len()
    }

    /// Ends collection: a non-empty buffer is handed on to decoding, an empty
    /// one (no "file" part, or an empty one) is the `MissingFile` rejection.
    pub fn finish(self) -> (r: Result<Vec<u8>, RejectKind>)
        ensures
            r is Ok <==> self@.len() > 0,
            r is Ok ==> r->Ok_0@ == self@,
            r is Err ==> r->Err_0 == RejectKind::MissingFile,
    {
        if self.buf.len() == 0 {
            Err(RejectKind::MissingFile)
        } else {
            Ok(self.buf)
        }
    }
}

/// Only the multipart part named "file" contributes bytes to the upload
/// buffer; every other part is drained and discarded.
pub fn is_file_part(name: &String) -> (r: bool)
    ensures
        r == (name@ == "file"@),
{
    let want: String = "file".to_owned();
    *name == want
}

} // verus!
