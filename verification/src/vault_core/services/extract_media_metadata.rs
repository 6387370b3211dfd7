use vstd::prelude::*;
use vstd::slice::slice_subrange;
use vstd::string::StringExecFns;
use crate::shared::utils::operators::builder::{
    ChunkHook, ContextMap, Finish, FinishHook, FnOperator, Forward, NoFlush, NoRecovery, PassThrough,
};
use crate::shared::utils::streaming::context::{ContextKind, ContextValue, PipelineContext};
use crate::shared::utils::streaming::errors::PipelineError;
use crate::shared::utils::streaming::traits::{OperatorCall, ProgressEmitter, StepState};
use crate::vault_core::domain::types::VideoMetadata;

verus! {

/// Number of leading bytes of a stream kept to recognise its format.
pub const HEADER_LIMIT: usize = 4096;

/// The MIME type that `infer::get` recognises in `header`, if any.
pub uninterp spec fn detected_mime(header: Seq<u8>) -> Option<Seq<char>>;

/// Formats are recognised on 64-bit targets only. There `infer::get` returns for every
/// header; on a 32-bit target some offset sums it makes from header fields (in its zip
/// and zstd checks) can overflow.
pub open spec fn recognises_formats() -> bool {
    usize::BITS == 64
}

/// Calls `infer::get` on `header` and returns the MIME type of the format it recognises.
/// The contract only ties the result to `detected_mime` of the argument; infer's table of
/// signatures is not written out. It is called on 64-bit targets only, where `get`'s
/// offset sums, made of 32-bit header fields, cannot overflow; its OLE2 check hands the
/// header to `cfb::CompoundFile::open`, which checks each field it reads and fails with
/// an error on a malformed file.
#[verifier::external_body]
fn infer_mime(header: &[u8]) -> (r: Option<String>)
    requires
        recognises_formats(),
    ensures
        match r {
            Some(m) => detected_mime(header@) == Some(m@),
            None => detected_mime(header@) is None,
        },
{
    match infer::get(header) {
        Some(kind) => Some(kind.mime_type().to_string()),
        None => None,
    }
}

/// The view of an optional text.
pub open spec fn text_view(t: Option<String>) -> Option<Seq<char>> {
    match t {
        Some(s) => Some(s@),
        None => None,
    }
}

/// The header kept once `chunk` arrives: the header grows with the chunk's bytes until it
/// holds `HEADER_LIMIT` bytes.
pub open spec fn absorbed_header(header: Seq<u8>, chunk: Seq<u8>) -> Seq<u8> {
    if header.len() < HEADER_LIMIT {
        let room = (HEADER_LIMIT - header.len()) as int;
        if chunk.len() <= room {
            header + chunk
        } else {
            header + chunk.take(room)
        }
    } else {
        header
    }
}

/// The content type once the header is `header`: a type already known stays; otherwise
/// it is what `infer` recognises in a non-empty header (on a 64-bit target; elsewhere it
/// stays unknown).
pub open spec fn detected_content(content: Option<Seq<char>>, header: Seq<u8>) -> Option<
    Seq<char>,
> {
    if content is None && header.len() > 0 && recognises_formats() {
        detected_mime(header)
    } else {
        content
    }
}

/// Byte count after `n` more bytes (it stops at `u64::MAX`).
pub open spec fn counted(total: u64, n: nat) -> u64 {
    if total + n <= u64::MAX {
        (total + n) as u64
    } else {
        u64::MAX
    }
}

/// The content type at the end of the stream: what was recognised, else, when some bytes
/// were seen, the generic `application/octet-stream`.
pub open spec fn final_content(content: Option<Seq<char>>, header: Seq<u8>) -> Option<Seq<char>> {
    if content is None && header.len() > 0 {
        Some("application/octet-stream"@)
    } else {
        content
    }
}

/// The bytes of a stream cut into `chunks`, in order.
pub open spec fn stream_of(chunks: Seq<Seq<u8>>) -> Seq<u8>
    decreases chunks.len(),
{
    if chunks.len() == 0 {
        Seq::<u8>::empty()
    } else {
        stream_of(chunks.drop_last()) + chunks.last()
    }
}

/// What the extractor has gathered once it saw `chunks`, in order: the byte count, the
/// content type, and the header.
pub open spec fn extraction(chunks: Seq<Seq<u8>>) -> (u64, Option<Seq<char>>, Seq<u8>)
    decreases chunks.len(),
{
    if chunks.len() == 0 {
        (0, None, Seq::<u8>::empty())
    } else {
        let (total, content, header) = extraction(chunks.drop_last());
        let h = absorbed_header(header, chunks.last());
        (counted(total, chunks.last().len()), detected_content(content, h), h)
    }
}

/// The header the extractor keeps is the start of the stream, up to `HEADER_LIMIT`
/// bytes, however the stream was cut into chunks.
pub proof fn law_header_is_stream_start(chunks: Seq<Seq<u8>>)
    ensures
        extraction(chunks).2 == stream_of(chunks).take(
            if stream_of(chunks).len() < HEADER_LIMIT {
                stream_of(chunks).len() as int
            } else {
                HEADER_LIMIT as int
            },
        ),
    decreases chunks.len(),
{
    if chunks.len() == 0 {
        assert(stream_of(chunks).take(0) =~= Seq::<u8>::empty());
    } else {
        let init = chunks.drop_last();
        let c = chunks.last();
        law_header_is_stream_start(init);
        let s = stream_of(init);
        let h = extraction(init).2;
        let s2 = stream_of(chunks);
        assert(s2 == s + c);
        if s.len() < HEADER_LIMIT {
            assert(s.take(s.len() as int) =~= s);
            let room = (HEADER_LIMIT - s.len()) as int;
            if c.len() <= room {
                assert(s2.take(s2.len() as int) =~= s + c);
            } else {
                assert(s2.take(HEADER_LIMIT as int) =~= s + c.take(room));
            }
        } else {
            assert(s2.take(HEADER_LIMIT as int) =~= s.take(HEADER_LIMIT as int));
        }
    }
}

/// The byte count is the length of the stream (it stops at `u64::MAX`).
pub proof fn law_count_is_stream_length(chunks: Seq<Seq<u8>>)
    ensures
        extraction(chunks).0 == counted(0, stream_of(chunks).len()),
    decreases chunks.len(),
{
    if chunks.len() > 0 {
        law_count_is_stream_length(chunks.drop_last());
    }
}

/// For a stream whose length fits in a `u64`, the byte count the extractor keeps is
/// exactly the stream's length, however the stream was cut into chunks.
pub proof fn law_count_is_exact_length(chunks: Seq<Seq<u8>>)
    requires
        stream_of(chunks).len() <= u64::MAX,
    ensures
        extraction(chunks).0 == stream_of(chunks).len(),
{
    law_count_is_stream_length(chunks);
}

/// While no type is known, each chunk has the type recognised afresh: on a 64-bit target,
/// once some bytes were seen, the type after a chunk that found no type known is what
/// `infer` recognises in the first `HEADER_LIMIT` bytes of the stream so far (all of them
/// when fewer), however large the chunks are.
pub proof fn law_type_recognised_from_stream_start(chunks: Seq<Seq<u8>>)
    requires
        recognises_formats(),
        chunks.len() > 0,
        extraction(chunks.drop_last()).1 is None,
        stream_of(chunks).len() > 0,
    ensures
        extraction(chunks).1 == detected_mime(
            stream_of(chunks).take(
                if stream_of(chunks).len() < HEADER_LIMIT {
                    stream_of(chunks).len() as int
                } else {
                    HEADER_LIMIT as int
                },
            ),
        ),
{
    law_header_is_stream_start(chunks);
}

/// The type of a one-chunk stream is what `infer` recognises in the chunk's first
/// `HEADER_LIMIT` bytes (on a 64-bit target), also when the chunk is longer than that.
pub proof fn law_type_of_first_chunk(c: Seq<u8>)
    requires
        recognises_formats(),
        c.len() > 0,
    ensures
        extraction(seq![c]).1 == detected_mime(
            c.take(if c.len() < HEADER_LIMIT { c.len() as int } else { HEADER_LIMIT as int }),
        ),
{
    let chunks = seq![c];
    assert(chunks.drop_last() =~= Seq::<Seq<u8>>::empty());
    assert(stream_of(chunks.drop_last()) =~= Seq::<u8>::empty());
    assert(stream_of(chunks) =~= c);
    law_type_recognised_from_stream_start(chunks);
}

/// Once a content type is recognised, later chunks do not change it.
pub proof fn law_content_type_kept(chunks: Seq<Seq<u8>>, k: int)
    requires
        0 <= k <= chunks.len(),
        extraction(chunks.take(k)).1 is Some,
    ensures
        extraction(chunks).1 == extraction(chunks.take(k)).1,
    decreases chunks.len(),
{
    if k == chunks.len() {
        assert(chunks.take(k) =~= chunks);
    } else {
        let init = chunks.drop_last();
        assert(init.take(k) =~= chunks.take(k));
        law_content_type_kept(init, k);
    }
}

/// State of the metadata extractor: the first bytes of the stream.
pub struct ExtractorState {
    header_buffer: Vec<u8>,
}

impl ExtractorState {
    pub closed spec fn header(&self) -> Seq<u8> {
        self.header_buffer@
    }

    /// A state with no byte seen.
    pub fn new() -> (r: Self)
        ensures
            r.header() == Seq::<u8>::empty(),
    {
        ExtractorState { header_buffer: Vec::with_capacity(HEADER_LIMIT) }
    }

    /// The header kept so far.
    pub fn header_bytes(&self) -> (r: &[u8])
        ensures
            r@ == self.header(),
    {
        self.header_buffer.as_slice()
    }

    /// Keeps the leading bytes of `chunk` that fit in the header.
    pub fn absorb(&mut self, chunk: &[u8])
        ensures
            final(self).header() == absorbed_header(old(self).header(), chunk@),
    {
        let len = self.header_buffer.len();
        if len < HEADER_LIMIT {
            let room = HEADER_LIMIT - len;
            let take = if room < chunk.len() {
                room
            } else {
                chunk.len()
            };
            let part = slice_subrange(chunk, 0, take);
            let mut i: usize = 0;
            while i < take
                invariant
                    0 <= i <= take,
                    take <= chunk@.len(),
                    part@ == chunk@.subrange(0, take as int),
                    self.header_buffer@ == old(self).header_buffer@ + part@.take(i as int),
                decreases take - i,
            {
                self.header_buffer.push(part[i]);
                i = i + 1;
                assert(part@.take(i as int) =~= part@.take((i - 1) as int).push(part@[i - 1]));
            }
            assert(part@.take(take as int) =~= part@);
            assert(chunk@.take(take as int) =~= chunk@.subrange(0, take as int));
            assert(chunk@.len() <= room ==> chunk@.subrange(0, take as int) =~= chunk@);
        }
    }
}

impl Default for ExtractorState {
    fn default() -> (r: Self)
        ensures
            r.header() == Seq::<u8>::empty(),
    {
        Self::new()
    }
}

/// Updates `metadata` for a chunk, with `state` already holding the chunk's leading bytes:
/// counts the chunk, and recognises the content type from the header when it is not
/// known yet. Returns the type recognised now, if any.
pub fn note_chunk(metadata: &mut VideoMetadata, header: &[u8], chunk_len: usize) -> (r: Option<String>)
    ensures
        final(metadata).base.total_size_bytes == counted(
            old(metadata).base.total_size_bytes,
            chunk_len as nat,
        ),
        text_view(final(metadata).base.content_type) == detected_content(
            text_view(old(metadata).base.content_type),
            header@,
        ),
        match r {
            Some(m) => old(metadata).base.content_type is None && text_view(
                final(metadata).base.content_type,
            ) == Some(m@),
            None => text_view(final(metadata).base.content_type) == text_view(
                old(metadata).base.content_type,
            ),
        },
        keeps_other_fields(*old(metadata), *final(metadata)),
{
    let total = metadata.base.total_size_bytes;
    let n = chunk_len as u64;
    if total <= u64::MAX - n {
        metadata.base.total_size_bytes = total + n;
    } else {
        metadata.base.total_size_bytes = u64::MAX;
    }
    if metadata.base.content_type.is_none() && header.len() > 0 && usize::BITS == 64 {
        match infer_mime(header) {
            Some(mime) => {
                let found = mime.clone();
                metadata.base.content_type = Some(mime);
                Some(found)
            },
            None => None,
        }
    } else {
        None
    }
}

/// Gives `metadata` its content type for the end of the stream: the generic
/// `application/octet-stream` when bytes were seen and no format was recognised.
pub fn settle_content_type(metadata: &mut VideoMetadata, header: &[u8])
    ensures
        text_view(final(metadata).base.content_type) == final_content(
            text_view(old(metadata).base.content_type),
            header@,
        ),
        final(metadata).base.total_size_bytes == old(metadata).base.total_size_bytes,
        keeps_other_fields(*old(metadata), *final(metadata)),
{
    if metadata.base.content_type.is_none() && header.len() > 0 {
        metadata.base.content_type = Some(String::from_str("application/octet-stream"));
    }
}

/// The video record the context holds, if any.
pub open spec fn video_of(ctx: Map<ContextKind, ContextValue>) -> Option<VideoMetadata> {
    if ctx.contains_key(ContextKind::Video) {
        match ctx[ContextKind::Video] {
            ContextValue::Video(m) => Some(m),
            _ => None,
        }
    } else {
        None
    }
}

/// `m` is the record an extractor starts from in context `ctx`: the one the context
/// holds, else a blank one.
pub open spec fn starting_record(ctx: Map<ContextKind, ContextValue>, m: VideoMetadata) -> bool {
    match video_of(ctx) {
        Some(v) => m == v,
        None => m.is_blank(),
    }
}

/// `after` differs from `before` at most in its byte count and content type.
pub open spec fn keeps_other_fields(before: VideoMetadata, after: VideoMetadata) -> bool {
    &&& after.base.id == before.base.id
    &&& after.base.original_name == before.base.original_name
    &&& after.base.checksum == before.base.checksum
    &&& after.base.created_at == before.base.created_at
    &&& after.base.attributes == before.base.attributes
    &&& after.duration_seconds_bits == before.duration_seconds_bits
    &&& after.width == before.width
    &&& after.height == before.height
    &&& after.fps_bits == before.fps_bits
    &&& after.timeline_indices == before.timeline_indices
}

/// `after` is `before` once a chunk of `n` bytes has been counted and the header
/// `header` examined; nothing else changes.
pub open spec fn chunk_noted(before: VideoMetadata, after: VideoMetadata, header: Seq<u8>, n: nat) -> bool {
    &&& after.base.total_size_bytes == counted(before.base.total_size_bytes, n)
    &&& text_view(after.base.content_type) == detected_content(text_view(before.base.content_type), header)
    &&& keeps_other_fields(before, after)
}

/// `after` is `before` with its content type settled for the end of the stream; nothing
/// else changes.
pub open spec fn record_settled(before: VideoMetadata, after: VideoMetadata, header: Seq<u8>) -> bool {
    &&& after.base.total_size_bytes == before.base.total_size_bytes
    &&& text_view(after.base.content_type) == final_content(text_view(before.base.content_type), header)
    &&& keeps_other_fields(before, after)
}

/// At the end of an empty stream (an empty header) the extractor leaves, in a context
/// that held no video record, a blank one.
pub proof fn law_empty_stream_leaves_blank_record(
    s0: ExtractorState,
    s1: ExtractorState,
    c0: ContextMap,
    c1: ContextMap,
)
    requires
        s0.header() == Seq::<u8>::empty(),
        video_of(c0) is None,
        extraction_settled(s0, s1, c0, c1, Ok(())),
    ensures
        video_of(c1) matches Some(m) && m.is_blank(),
{
    let (before, after) = choose|before: VideoMetadata, after: VideoMetadata|
        starting_record(c0, before) && record_settled(before, after, s0.header()) && c1
            == c0.insert(ContextKind::Video, ContextValue::Video(after));
    assert(video_of(c1) == Some(after));
    assert(after.base.content_type is None);
}

/// Makes sure the context holds a video record, storing a blank one otherwise.
fn ensure_video_record(ctx: &mut PipelineContext)
    ensures
        video_of(final(ctx)@) is Some,
        starting_record(old(ctx)@, video_of(final(ctx)@).unwrap()),
        final(ctx)@ == old(ctx)@.insert(ContextKind::Video, final(ctx)@[ContextKind::Video]),
{
    let present = match ctx.get(ContextKind::Video) {
        Some(ContextValue::Video(_)) => true,
        _ => false,
    };
    if !present {
        ctx.insert(ContextValue::Video(VideoMetadata::default()));
    } else {
        assert(old(ctx)@ =~= old(ctx)@.insert(ContextKind::Video, old(ctx)@[ContextKind::Video]));
    }
}

/// What the extractor does with `chunk`: its leading bytes join the header (`s0` to
/// `s1`), and the context's video record (a blank one when the context `c0` holds none)
/// counts the chunk and, while its type is unknown, takes the type recognised in the new
/// header. Nothing fails.
pub open spec fn chunk_extracted(
    chunk: Seq<u8>,
    s0: ExtractorState,
    s1: ExtractorState,
    c0: ContextMap,
    c1: ContextMap,
    r: Result<(), PipelineError>,
) -> bool {
    &&& r is Ok
    &&& s1.header() == absorbed_header(s0.header(), chunk)
    &&& exists|before: VideoMetadata, after: VideoMetadata|
        starting_record(c0, before) && chunk_noted(before, after, s1.header(), chunk.len()) && c1
            == c0.insert(ContextKind::Video, ContextValue::Video(after))
}

/// What the extractor does at the end of the stream: the header stays, and the context's
/// video record (a blank one when the context `c0` holds none) has its content type
/// settled from the header. Nothing fails.
pub open spec fn extraction_settled(
    s0: ExtractorState,
    s1: ExtractorState,
    c0: ContextMap,
    c1: ContextMap,
    r: Result<(), PipelineError>,
) -> bool {
    &&& r is Ok
    &&& s1.header() == s0.header()
    &&& exists|before: VideoMetadata, after: VideoMetadata|
        starting_record(c0, before) && record_settled(before, after, s0.header()) && c1
            == c0.insert(ContextKind::Video, ContextValue::Video(after))
}

/// The byte count and content type of the context's video record; a context without one
/// counts as a blank record.
pub open spec fn record_of(ctx: ContextMap) -> (u64, Option<Seq<char>>) {
    match video_of(ctx) {
        Some(m) => (m.base.total_size_bytes, text_view(m.base.content_type)),
        None => (0, None),
    }
}

/// Running the extractor's chunk step on each of `chunks` in turn (with state
/// `states[i]` and context `ctxs[i]` before chunk `i`), from an empty header and a blank
/// record, leaves the header, the byte count and the content type that `extraction`
/// gives for `chunks`.
pub proof fn law_extractor_follows_extraction(
    chunks: Seq<Seq<u8>>,
    states: Seq<ExtractorState>,
    ctxs: Seq<ContextMap>,
)
    requires
        states.len() == chunks.len() + 1,
        ctxs.len() == chunks.len() + 1,
        states[0].header() == Seq::<u8>::empty(),
        record_of(ctxs[0]) == (0u64, None::<Seq<char>>),
        forall|i: int|
            0 <= i < chunks.len() ==> #[trigger] chunk_extracted(
                chunks[i],
                states[i],
                states[i + 1],
                ctxs[i],
                ctxs[i + 1],
                Ok(()),
            ),
    ensures
        states.last().header() == extraction(chunks).2,
        record_of(ctxs.last()) == (extraction(chunks).0, extraction(chunks).1),
    decreases chunks.len(),
{
    if chunks.len() > 0 {
        let n = chunks.len() - 1;
        let init = chunks.drop_last();
        let s_init = states.drop_last();
        let c_init = ctxs.drop_last();
        assert forall|i: int| 0 <= i < init.len() implies #[trigger] chunk_extracted(
            init[i],
            s_init[i],
            s_init[i + 1],
            c_init[i],
            c_init[i + 1],
            Ok(()),
        ) by {
            assert(chunk_extracted(chunks[i], states[i], states[i + 1], ctxs[i], ctxs[i + 1], Ok(())));
        }
        law_extractor_follows_extraction(init, s_init, c_init);
        assert(chunk_extracted(chunks[n], states[n], states[n + 1], ctxs[n], ctxs[n + 1], Ok(())));
        let (before, after) = choose|before: VideoMetadata, after: VideoMetadata|
            starting_record(ctxs[n], before) && chunk_noted(
                before,
                after,
                states[n + 1].header(),
                chunks[n].len(),
            ) && ctxs[n + 1] == ctxs[n].insert(ContextKind::Video, ContextValue::Video(after));
        assert(video_of(ctxs[n + 1]) == Some(after));
        assert(chunks.last() == chunks[n]);
    }
}

/// Counting `a` more bytes, then `b` more, is counting `a + b` more.
pub proof fn lemma_counted_twice(t: u64, a: nat, b: nat)
    ensures
        counted(counted(t, a), b) == counted(t, a + b),
{
}

/// Running the extractor's chunk step on each of `chunks` in turn (contexts `ctxs`), from
/// any starting record, adds the stream's length to the record's byte count (stopping at
/// `u64::MAX`).
pub proof fn law_extractor_counts_from_any_record(
    chunks: Seq<Seq<u8>>,
    states: Seq<ExtractorState>,
    ctxs: Seq<ContextMap>,
)
    requires
        states.len() == chunks.len() + 1,
        ctxs.len() == chunks.len() + 1,
        forall|i: int|
            0 <= i < chunks.len() ==> #[trigger] chunk_extracted(
                chunks[i],
                states[i],
                states[i + 1],
                ctxs[i],
                ctxs[i + 1],
                Ok(()),
            ),
    ensures
        record_of(ctxs.last()).0 == counted(record_of(ctxs[0]).0, stream_of(chunks).len()),
    decreases chunks.len(),
{
    if chunks.len() == 0 {
        assert(ctxs.last() == ctxs[0]);
    } else {
        let n = chunks.len() - 1;
        let init = chunks.drop_last();
        let s_init = states.drop_last();
        let c_init = ctxs.drop_last();
        assert forall|i: int| 0 <= i < init.len() implies #[trigger] chunk_extracted(
            init[i],
            s_init[i],
            s_init[i + 1],
            c_init[i],
            c_init[i + 1],
            Ok(()),
        ) by {
            assert(chunk_extracted(chunks[i], states[i], states[i + 1], ctxs[i], ctxs[i + 1], Ok(())));
        }
        law_extractor_counts_from_any_record(init, s_init, c_init);
        assert(chunk_extracted(chunks[n], states[n], states[n + 1], ctxs[n], ctxs[n + 1], Ok(())));
        let (before, after) = choose|before: VideoMetadata, after: VideoMetadata|
            starting_record(ctxs[n], before) && chunk_noted(
                before,
                after,
                states[n + 1].header(),
                chunks[n].len(),
            ) && ctxs[n + 1] == ctxs[n].insert(ContextKind::Video, ContextValue::Video(after));
        assert(video_of(ctxs[n + 1]) == Some(after));
        assert(record_of(ctxs[n]).0 == before.base.total_size_bytes);
        assert(stream_of(chunks) == stream_of(init) + chunks[n]);
        lemma_counted_twice(record_of(ctxs[0]).0, stream_of(init).len(), chunks[n].len());
        assert(chunks.last() == chunks[n]);
    }
}

/// The chunk step of the metadata extractor.
pub struct ExtractChunk;

/// The end-of-stream step of the metadata extractor.
pub struct ExtractFlush;

impl<E: ProgressEmitter> ChunkHook<ExtractorState, E> for ExtractChunk {
    open spec fn chunk_done(
        &self,
        chunk: Seq<u8>,
        s0: ExtractorState,
        s1: ExtractorState,
        c0: ContextMap,
        c1: ContextMap,
        r: Result<(), PipelineError>,
    ) -> bool {
        chunk_extracted(chunk, s0, s1, c0, c1, r)
    }

    /// Keeps the chunk's leading bytes in the header, counts the chunk in the context's
    /// video record (created blank if missing), and recognises the content type from the
    /// header while it is unknown; a recognised type is announced.
    fn call(
        &mut self,
        chunk: &[u8],
        state: &mut ExtractorState,
        ctx: &mut PipelineContext,
        emitter: &mut E,
    ) -> (r: Result<(), PipelineError>) {
        state.absorb(chunk);
        ensure_video_record(ctx);
        let ghost mid = ctx@;
        let ghost before = video_of(ctx@).unwrap();
        match ctx.get_mut(ContextKind::Video) {
            Some(ContextValue::Video(meta)) => {
                let found = note_chunk(meta, state.header_bytes(), chunk.len());
                match found {
                    Some(mime) => {
                        let message = String::from_str("Container identificado: ").concat(mime.as_str());
                        emitter.emit(StepState::Processing, message.as_str());
                    },
                    None => {},
                }
            },
            _ => {
                assert(false);
            },
        }
        proof {
            let after = video_of(ctx@).unwrap();
            assert(chunk_noted(before, after, state.header(), chunk@.len()));
            assert(ctx@ =~= old(ctx)@.insert(ContextKind::Video, ContextValue::Video(after)));
        }
        Ok(())
    }
}

impl<E: ProgressEmitter> FinishHook<ExtractorState, E> for ExtractFlush {
    open spec fn finish_done(
        &self,
        s0: ExtractorState,
        s1: ExtractorState,
        c0: ContextMap,
        c1: ContextMap,
        r: Result<(), PipelineError>,
    ) -> bool {
        extraction_settled(s0, s1, c0, c1, r)
    }

    /// Settles the content type of the context's video record (created blank if missing)
    /// and announces the final type, `desconhecido` when none.
    fn call(&mut self, state: &mut ExtractorState, ctx: &mut PipelineContext, emitter: &mut E) -> (r:
        Result<(), PipelineError>) {
        ensure_video_record(ctx);
        let ghost before = video_of(ctx@).unwrap();
        match ctx.get_mut(ContextKind::Video) {
            Some(ContextValue::Video(meta)) => {
                settle_content_type(meta, state.header_bytes());
                let message = match &meta.base.content_type {
                    Some(mime) => String::from_str("Metadados finalizados: ").concat(mime.as_str()),
                    None => String::from_str("Metadados finalizados: desconhecido"),
                };
                emitter.emit(StepState::Completed, message.as_str());
            },
            _ => {
                assert(false);
            },
        }
        proof {
            let after = video_of(ctx@).unwrap();
            assert(record_settled(before, after, state.header()));
            assert(ctx@ =~= old(ctx)@.insert(ContextKind::Video, ContextValue::Video(after)));
        }
        Ok(())
    }
}

/// The metadata extractor: an operator that passes the stream on unchanged while it
/// counts its bytes and recognises its format from its first bytes, keeping the result
/// in the context's video record (`chunk_extracted` for each chunk, `extraction_settled`
/// at the end of the stream). It does not recover from errors.
pub fn extract_media_metadata<E: ProgressEmitter>() -> (r: FnOperator<
    ExtractorState,
    E,
    Forward<ExtractChunk>,
    Finish<ExtractFlush>,
    NoRecovery,
>)
    ensures
        r.spec_name()@ == "extract_media_metadata"@,
        r.spec_state().header() == Seq::<u8>::empty(),
        r.spec_next() == Forward(ExtractChunk),
        r.spec_flush() == Finish(ExtractFlush),
        r.spec_recovery() == NoRecovery,
        r.call_record() == Seq::<OperatorCall>::empty(),
{
    FnOperator::<(), E, PassThrough, NoFlush, NoRecovery>::with_state("extract_media_metadata", ExtractorState::new()).extract_it(
        ExtractChunk,
        ExtractFlush,
    )
}

} // verus!
