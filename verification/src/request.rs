use vstd::prelude::*;

use crate::collector::{is_file_part, UploadCollector};
use crate::limits::MAX_UPLOAD_BYTES;
use crate::pipeline::{
    handle_upload, reply_matches, respond, sanitize_spec, HttpReply, OutputFormat, SanitizedOutput,
};
use crate::reject::RejectKind;

verus! {

/// One named multipart part, its body delivered as a sequence of byte
/// chunks.
pub struct UploadPart {
    pub name: String,
    pub chunks: Vec<Vec<u8>>,
}

impl View for UploadPart {
    type V = (Seq<char>, Seq<Seq<u8>>);

    open spec fn view(&self) -> (Seq<char>, Seq<Seq<u8>>) {
        (self.name@, self.chunks.deep_view())
    }
}

/// The chunks that count toward the upload buffer: those of every part named
/// "file", in stream order; all other parts are drained without contributing.
pub open spec fn file_chunks(parts: Seq<UploadPart>) -> Seq<Seq<u8>>
    decreases parts.len(),
{
    if parts.len() == 0 {
        Seq::empty()
    } else {
        file_chunks(parts.drop_last()) + (if parts.last()@.0 == "file"@ {
            parts.last()@.1
        } else {
            Seq::<Seq<u8>>::empty()
        })
    }
}

/// What bounded collection makes of a chunk sequence: the accumulated bytes,
/// unless some prefix crosses the byte ceiling, which is the terminal
/// `PayloadTooLarge` rejection — nothing past the offending chunk changes it.
pub open spec fn collected(chunks: Seq<Seq<u8>>) -> Result<Seq<u8>, RejectKind>
    decreases chunks.len(),
{
    if chunks.len() == 0 {
        Ok(Seq::empty())
    } else {
        match collected(chunks.drop_last()) {
            Err(k) => Err(k),
            Ok(buf) => {
                if buf.len() + chunks.last().len() > MAX_UPLOAD_BYTES {
                    Err(RejectKind::PayloadTooLarge)
                } else {
                    Ok(buf + chunks.last())
                }
            },
        }
    }
}

/// The outcome owed for a whole multipart request: collect the "file" bytes
/// under the ceiling, then sanitize the collected buffer.
pub open spec fn request_spec(parts: Seq<UploadPart>) -> Result<
    (Seq<u8>, OutputFormat),
    RejectKind,
> {
    match collected(file_chunks(parts)) {
        Err(k) => Err(k),
        Ok(buf) => sanitize_spec(buf),
    }
}

proof fn lemma_collected_push(chunks: Seq<Seq<u8>>, c: Seq<u8>)
    ensures
        collected(chunks.push(c)) == (match collected(chunks) {
            Err(k) => Err(k),
            Ok(buf) => {
                if buf.len() + c.len() > MAX_UPLOAD_BYTES {
                    Err(RejectKind::PayloadTooLarge)
                } else {
                    Ok(buf + c)
                }
            },
        }),
{
    assert(chunks.push(c).drop_last() =~= chunks);
    assert(chunks.push(c).last() == c);
}

proof fn lemma_collected_err_persists(chunks: Seq<Seq<u8>>, more: Seq<Seq<u8>>)
    requires
        collected(chunks) is Err,
    ensures
        collected(chunks + more) is Err,
        collected(chunks + more)->Err_0 == collected(chunks)->Err_0,
    decreases more.len(),
{
    if more.len() == 0 {
        assert(chunks + more =~= chunks);
    } else {
        lemma_collected_err_persists(chunks, more.drop_last());
        assert((chunks + more).drop_last() =~= chunks + more.drop_last());
    }
}

proof fn lemma_file_chunks_snoc(parts: Seq<UploadPart>, i: int)
    requires
        0 <= i < parts.len(),
    ensures
        file_chunks(parts.take(i + 1)) == file_chunks(parts.take(i)) + (if parts[i]@.0
            == "file"@ {
            parts[i]@.1
        } else {
            Seq::<Seq<u8>>::empty()
        }),
{
    assert(parts.take(i + 1).drop_last() =~= parts.take(i));
    assert(parts.take(i + 1).last() == parts[i]);
}

proof fn lemma_file_chunks_split(parts: Seq<UploadPart>, i: int)
    requires
        0 <= i <= parts.len(),
    ensures
        file_chunks(parts) == file_chunks(parts.take(i)) + file_chunks(parts.skip(i)),
    decreases parts.len(),
{
    if i == parts.len() {
        assert(parts.take(i) =~= parts);
        assert(parts.skip(i) =~= Seq::<UploadPart>::empty());
        assert(file_chunks(parts) =~= file_chunks(parts.take(i)) + file_chunks(parts.skip(i)));
    } else {
        let prev = parts.drop_last();
        lemma_file_chunks_split(prev, i);
        assert(prev.take(i) =~= parts.take(i));
        assert(parts.skip(i).drop_last() =~= prev.skip(i));
        assert(parts.skip(i).last() == parts.last());
        assert(file_chunks(parts) =~= file_chunks(parts.take(i)) + file_chunks(parts.skip(i)));
    }
}

/// The whole request pipeline over an in-memory part stream: select and
/// collect the "file" part under the byte ceiling (draining every other
/// part), then decode, guard, resize and transcode the collected buffer,
/// answering with exactly the reply `request_spec` owes.
pub fn process_upload(parts: &Vec<UploadPart>) -> (r: HttpReply)
    ensures
        reply_matches(r, request_spec(parts@)),
{
    let ghost ps = parts@;
    let mut collector = UploadCollector::new();
    let n = parts.len();
    let mut i: usize = 0;
    while i < n
        invariant
            i <= n,
            n == ps.len(),
            ps == parts@,
            collector.wf(),
            collected(file_chunks(ps.take(i as int))) == Ok::<Seq<u8>, RejectKind>(collector@),
        decreases n - i,
    {
        let part = &parts[i];
        if is_file_part(&part.name) {
            let ghost base = file_chunks(ps.take(i as int));
            let ghost body = ps[i as int]@.1;
            let m = part.chunks.len();
            let mut j: usize = 0;
            while j < m
                invariant
                    j <= m,
                    i < n,
                    n == ps.len(),
                    ps == parts@,
                    m == body.len(),
                    base == file_chunks(ps.take(i as int)),
                    body == ps[i as int]@.1,
                    ps[i as int]@.0 == "file"@,
                    collector.wf(),
                    collected(base + body.take(j as int)) == Ok::<Seq<u8>, RejectKind>(
                        collector@,
                    ),
                decreases m - j,
            {
                let filepart = &parts[i];
                proof {
                    assert(body == filepart.chunks.deep_view());
                    assert(body.len() == filepart.chunks@.len());
                }
                let chunk = &filepart.chunks[j];
                proof {
                    assert(chunk@ =~= body[j as int]);
                    lemma_collected_push(base + body.take(j as int), body[j as int]);
                    assert((base + body.take(j as int)).push(body[j as int]) =~= base + body.take(
                        j as int + 1,
                    ));
                }
                match collector.push_chunk(chunk.as_slice()) {
                    Ok(()) => {},
                    Err(k) => {
                        proof {
                            let prefix = base + body.take(j as int + 1);
                            assert(collected(prefix) is Err);
                            assert(collected(prefix)->Err_0 == RejectKind::PayloadTooLarge);
                            lemma_file_chunks_snoc(ps, i as int);
                            lemma_file_chunks_split(ps, i as int + 1);
                            let rest = body.skip(j as int + 1) + file_chunks(
                                ps.skip(i as int + 1),
                            );
                            assert(file_chunks(ps) =~= prefix + rest);
                            lemma_collected_err_persists(prefix, rest);
                        }
                        return respond(Err::<SanitizedOutput, RejectKind>(k));
                    },
                }
                j += 1;
            }
            proof {
                lemma_file_chunks_snoc(ps, i as int);
                assert(body.take(m as int) =~= body);
            }
        } else {
            proof {
                lemma_file_chunks_snoc(ps, i as int);
                assert(file_chunks(ps.take(i as int)) + Seq::<Seq<u8>>::empty() =~= file_chunks(
                    ps.take(i as int),
                ));
            }
        }
        i += 1;
    }
    proof {
        assert(ps.take(n as int) =~= ps);
    }
    match collector.finish() {
        Err(k) => respond(Err::<SanitizedOutput, RejectKind>(k)),
        Ok(data) => handle_upload(&data),
    }
}

} // verus!
