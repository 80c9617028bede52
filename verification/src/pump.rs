//! The loops that move bytes between sockets and channels, step by step.
use vstd::prelude::*;
use crate::network::virt::EstablishedConnection;

verus! {

/// The size of the buffer that a socket is read into.
pub const READER_BUFFER_SIZE: usize = 2048;

/// What a reader was answered: a read into its buffer, or the sending of a chunk.
pub enum ReaderEvent<E> {
    Read(core::result::Result<usize, E>),
    Sent(bool),
}

/// What a reader does next: read, send a chunk, or stop, for an error or without.
pub enum ReaderStep<E> {
    Read,
    Send(Vec<u8>),
    Stop,
    Fail(E),
}

/// What a reader does next, as a value.
pub enum ReaderStepView<E> {
    Read,
    Send(Seq<u8>),
    Stop,
    Fail(E),
}

impl<E> View for ReaderStep<E> {
    type V = ReaderStepView<E>;

    open spec fn view(&self) -> ReaderStepView<E> {
        match *self {
            ReaderStep::Read => ReaderStepView::Read,
            ReaderStep::Send(chunk) => ReaderStepView::Send(chunk@),
            ReaderStep::Stop => ReaderStepView::Stop,
            ReaderStep::Fail(error) => ReaderStepView::Fail(error),
        }
    }
}

/// The step that follows `event`, where `buf` is what was read into: each read is sent
/// as one chunk, until the socket is at its end or one side fails.
pub open spec fn reader_step<E>(buf: Seq<u8>, event: ReaderEvent<E>) -> ReaderStepView<E> {
    match event {
        ReaderEvent::Read(Ok(count)) => if count == 0 {
            ReaderStepView::Stop
        } else {
            ReaderStepView::Send(buf.take(count as int))
        },
        ReaderEvent::Read(Err(error)) => ReaderStepView::Fail(error),
        ReaderEvent::Sent(true) => ReaderStepView::Read,
        ReaderEvent::Sent(false) => ReaderStepView::Stop,
    }
}

/// Moves what is read from a socket into a channel.
pub fn aux_reader_to_sink<E>(buf: &[u8], event: ReaderEvent<E>) -> (step: ReaderStep<E>)
    requires
        event matches ReaderEvent::Read(Ok(count)) ==> count <= buf@.len(),
    ensures
        step@ == reader_step(buf@, event),
{
    match event {
        ReaderEvent::Read(Ok(count)) => {
            if count == 0 {
                ReaderStep::Stop
            } else {
                let mut chunk: Vec<u8> = Vec::new();
                let mut i: usize = 0;
                while i < count
                    invariant
                        i <= count <= buf@.len(),
                        chunk@ == buf@.take(i as int),
                    decreases count - i,
                {
                    chunk.push(buf[i]);
                    i += 1;
                    assert(chunk@ =~= buf@.take(i as int));
                }
                ReaderStep::Send(chunk)
            }
        },
        ReaderEvent::Read(Err(error)) => ReaderStep::Fail(error),
        ReaderEvent::Sent(true) => ReaderStep::Read,
        ReaderEvent::Sent(false) => ReaderStep::Stop,
    }
}

/// One turn of a reader: what its buffer holds after the read, what the read was
/// answered, and how the sending goes if there is something to send.
pub struct ReaderTurn<E> {
    pub buf: Seq<u8>,
    pub read: core::result::Result<usize, E>,
    pub sent: bool,
}

impl<E> ReaderTurn<E> {
    /// The bytes that were read.
    pub open spec fn bytes(self) -> Seq<u8> {
        match self.read {
            Ok(count) => self.buf.take(count as int),
            Err(_) => Seq::empty(),
        }
    }

    /// Whether something was read, no more than the buffer holds.
    pub open spec fn reads(self) -> bool {
        self.read matches Ok(count) && 0 < count <= self.buf.len()
    }
}

/// The items that a reader sends in these turns, one step after the other.
pub open spec fn sent_items<E>(turns: Seq<ReaderTurn<E>>) -> Seq<Seq<u8>>
    decreases turns.len(),
{
    if turns.len() == 0 {
        Seq::empty()
    } else {
        match reader_step(turns[0].buf, ReaderEvent::Read(turns[0].read)) {
            ReaderStepView::Send(chunk) => seq![chunk] + match reader_step::<E>(
                turns[0].buf,
                ReaderEvent::Sent(turns[0].sent),
            ) {
                ReaderStepView::Read => sent_items(turns.drop_first()),
                _ => Seq::empty(),
            },
            _ => Seq::empty(),
        }
    }
}

/// The bytes of all the turns, one after the other.
pub open spec fn read_bytes<E>(turns: Seq<ReaderTurn<E>>) -> Seq<u8>
    decreases turns.len(),
{
    if turns.len() == 0 {
        Seq::empty()
    } else {
        turns[0].bytes() + read_bytes(turns.drop_first())
    }
}

/// A reader sends what it reads, one item for each read, in order and with nothing
/// added, lost or repeated, for as long as it reads something and the item can be sent.
/// The items joined are the bytes that were read.
///
/// It ends with the turn `end`. Where that turn reads nothing, at the end of the socket
/// or for an error, nothing more is sent; where it reads something that cannot be sent,
/// that item is the last.
pub proof fn reads_are_sent_in_order<E>(turns: Seq<ReaderTurn<E>>, end: int)
    requires
        0 <= end <= turns.len(),
        forall|i: int| 0 <= i < end ==> (#[trigger] turns[i]).reads() && turns[i].sent,
        end < turns.len() ==> {
            ||| turns[end].read is Err
            ||| turns[end].read == Ok::<usize, E>(0)
            ||| turns[end].reads() && !turns[end].sent
        },
    ensures
        ({
            let count = if end < turns.len() && turns[end].reads() {
                end + 1
            } else {
                end
            };
            &&& sent_items(turns).len() == count
            &&& forall|i: int| 0 <= i < count ==> #[trigger] sent_items(turns)[i] == turns[i].bytes()
            &&& sent_items(turns).flatten() == read_bytes(turns.take(count))
        }),
    decreases turns.len(),
{
    let items = sent_items(turns);
    if turns.len() == 0 {
        assert(turns.take(0) =~= turns);
    } else if end == 0 {
        if turns[0].reads() {
            assert(items =~= seq![turns[0].bytes()]);
            assert(items.drop_first() =~= Seq::empty());
            assert(items.drop_first().flatten() =~= Seq::<u8>::empty());
            assert(turns.take(1).drop_first() =~= Seq::empty());
            assert(read_bytes(turns.take(1).drop_first()) =~= Seq::<u8>::empty());
            assert(items.flatten() =~= read_bytes(turns.take(1)));
        } else {
            assert(items =~= Seq::empty());
            assert(items.flatten() =~= read_bytes(turns.take(0)));
        }
    } else {
        let rest = turns.drop_first();
        assert(turns[0].reads() && turns[0].sent);
        assert forall|i: int| 0 <= i < end - 1 implies (#[trigger] rest[i]).reads() && rest[i].sent by {
            assert(turns[i + 1].reads() && turns[i + 1].sent);
        }
        reads_are_sent_in_order(rest, end - 1);
        let count = if end < turns.len() && turns[end].reads() {
            end + 1
        } else {
            end
        };
        assert(items == seq![turns[0].bytes()] + sent_items(rest));
        assert(items.drop_first() =~= sent_items(rest));
        assert(turns.take(count).drop_first() =~= rest.take(count - 1));
        assert forall|i: int| 0 <= i < count implies #[trigger] items[i] == turns[i].bytes() by {
            if i > 0 {
                assert(items[i] == sent_items(rest)[i - 1]);
            }
        }
    }
}

/// What a writer does next: write the rest of the chunk, or go on to the next chunk,
/// after an error or without.
pub enum WriterStep<E> {
    Write,
    Next(Option<E>),
}

/// The step that follows a write of a chunk with `len` bytes, of which `written` were
/// written before. A socket that takes nothing more, or fails, costs the rest of the
/// chunk; the writer goes on with the next one.
pub open spec fn writer_step<E>(
    len: int,
    written: int,
    write: core::result::Result<usize, E>,
) -> WriterStep<E> {
    match write {
        Ok(count) => if 0 < count && written + count < len {
            WriterStep::Write
        } else {
            WriterStep::Next(None)
        },
        Err(error) => WriterStep::Next(Some(error)),
    }
}

/// Writes one chunk to a socket, in as many writes as it takes.
pub struct ChunkWriter {
    chunk: Vec<u8>,
    written: usize,
}

/// Takes up the next chunk of a stream, until the stream ends.
pub fn next_chunk(received: Option<Vec<u8>>) -> (writer: Option<ChunkWriter>)
    ensures
        match received {
            Some(chunk) => writer matches Some(writer) && writer.chunk() == chunk@
                && writer.written() == 0,
            None => writer is None,
        },
{
    match received {
        Some(chunk) => Some(ChunkWriter::new(chunk)),
        None => None,
    }
}

impl ChunkWriter {
    pub closed spec fn chunk(&self) -> Seq<u8> {
        self.chunk@
    }

    /// How many bytes the socket took.
    pub closed spec fn written(&self) -> nat {
        self.written as nat
    }

    /// A writer at the start of `chunk`; the first write is due, though the chunk be
    /// empty.
    pub fn new(chunk: Vec<u8>) -> (writer: Self)
        ensures
            writer.chunk() == chunk@,
            writer.written() == 0,
    {
        ChunkWriter { chunk, written: 0 }
    }

    /// What is left to be written.
    pub fn rest(&self) -> (rest: &[u8])
        requires
            self.written() <= self.chunk().len(),
        ensures
            rest@ == self.chunk().skip(self.written() as int),
            self.chunk().len() <= usize::MAX,
    {
        let rest = vstd::slice::slice_subrange(self.chunk.as_slice(), self.written, self.chunk.len());
        assert(rest@ =~= self.chunk@.skip(self.written as int));
        rest
    }

    /// Goes on after a write.
    pub fn aux_stream_to_writer<E>(&mut self, write: core::result::Result<usize, E>) -> (step:
        WriterStep<E>)
        requires
            write matches Ok(count) ==> old(self).written() + count <= usize::MAX,
        ensures
            final(self).chunk() == old(self).chunk(),
            final(self).written() == old(self).written() + match write {
                Ok(count) => count as nat,
                Err(_) => 0,
            },
            step == writer_step(
                old(self).chunk().len() as int,
                old(self).written() as int,
                write,
            ),
    {
        match write {
            Ok(count) => {
                if count == 0 {
                    return WriterStep::Next(None);
                }
                self.written = self.written + count;
                if self.written >= self.chunk.len() {
                    WriterStep::Next(None)
                } else {
                    WriterStep::Write
                }
            },
            Err(error) => WriterStep::Next(Some(error)),
        }
    }
}

/// How many bytes the socket took in a write.
pub open spec fn count_of<E>(write: core::result::Result<usize, E>) -> int {
    match write {
        Ok(count) => count as int,
        Err(_) => 0,
    }
}

/// Whether `writes` are the answers to the writes of one chunk, from `written` on, up to
/// the one after which the writer goes on to the next chunk. No write takes more than it
/// was offered.
pub open spec fn writes_of<E>(
    chunk: Seq<u8>,
    written: int,
    writes: Seq<core::result::Result<usize, E>>,
) -> bool
    decreases writes.len(),
{
    &&& writes.len() > 0
    &&& written + count_of(writes[0]) <= chunk.len()
    &&& match writer_step(chunk.len() as int, written, writes[0]) {
        WriterStep::Write => writes_of(chunk, written + count_of(writes[0]), writes.drop_first()),
        WriterStep::Next(_) => writes.len() == 1,
    }
}

/// The bytes of `chunk` that the socket took in `writes`, from `written` on.
pub open spec fn taken<E>(
    chunk: Seq<u8>,
    written: int,
    writes: Seq<core::result::Result<usize, E>>,
) -> Seq<u8>
    decreases writes.len(),
{
    if writes.len() == 0 {
        Seq::empty()
    } else {
        chunk.skip(written).take(count_of(writes[0])) + taken(
            chunk,
            written + count_of(writes[0]),
            writes.drop_first(),
        )
    }
}

/// Whether a write failed or took nothing.
pub open spec fn write_fails<E>(write: core::result::Result<usize, E>) -> bool {
    count_of(write) == 0
}

/// Writing a chunk piece by piece loses and repeats nothing: what the socket took is a
/// part of the chunk from where the writing began, and all the rest of it unless a write
/// failed or took nothing.
pub proof fn pieces_make_up_the_chunk<E>(
    chunk: Seq<u8>,
    written: int,
    writes: Seq<core::result::Result<usize, E>>,
)
    requires
        0 <= written <= chunk.len(),
        writes_of(chunk, written, writes),
    ensures
        taken(chunk, written, writes).is_prefix_of(chunk.skip(written)),
        (forall|i: int| 0 <= i < writes.len() ==> !write_fails(#[trigger] writes[i]))
            || written == chunk.len() ==> taken(chunk, written, writes) == chunk.skip(written),
    decreases writes.len(),
{
    let count = count_of(writes[0]);
    let rest = writes.drop_first();
    let piece = chunk.skip(written).take(count);
    if writer_step(chunk.len() as int, written, writes[0]) is Write {
        pieces_make_up_the_chunk(chunk, written + count, rest);
        assert(chunk.skip(written) =~= piece + chunk.skip(written + count));
        assert(taken(chunk, written, writes) =~= piece + taken(chunk, written + count, rest));
        if forall|i: int| 0 <= i < writes.len() ==> !write_fails(#[trigger] writes[i]) {
            assert forall|i: int| 0 <= i < rest.len() implies !write_fails(#[trigger] rest[i]) by {
                assert(!write_fails(writes[i + 1]));
            }
        }
    } else {
        assert(taken(chunk, written + count, rest) =~= Seq::empty());
        assert(taken(chunk, written, writes) =~= piece);
        if !write_fails(writes[0]) {
            assert(piece =~= chunk.skip(written));
        }
    }
}

/// The bytes that a socket takes of `chunks`, when its writes are answered by `writes`:
/// the first chunk is at `written`, and each step is the one that follows the write.
pub open spec fn stream_taken<E>(
    chunks: Seq<Seq<u8>>,
    written: int,
    writes: Seq<core::result::Result<usize, E>>,
) -> Seq<u8>
    decreases writes.len(),
{
    if chunks.len() == 0 || writes.len() == 0 {
        Seq::empty()
    } else {
        chunks[0].skip(written).take(count_of(writes[0])) + match writer_step(
            chunks[0].len() as int,
            written,
            writes[0],
        ) {
            WriterStep::Write => stream_taken(
                chunks,
                written + count_of(writes[0]),
                writes.drop_first(),
            ),
            WriterStep::Next(_) => stream_taken(chunks.drop_first(), 0, writes.drop_first()),
        }
    }
}

proof fn lemma_first_chunk<E>(
    chunks: Seq<Seq<u8>>,
    written: int,
    writes: Seq<core::result::Result<usize, E>>,
    later: Seq<core::result::Result<usize, E>>,
)
    requires
        chunks.len() > 0,
        writes_of(chunks[0], written, writes),
    ensures
        stream_taken(chunks, written, writes + later) == taken(chunks[0], written, writes)
            + stream_taken(chunks.drop_first(), 0, later),
    decreases writes.len(),
{
    let all = writes + later;
    let count = count_of(writes[0]);
    assert(all[0] == writes[0]);
    assert(all.drop_first() =~= writes.drop_first() + later);
    if writer_step(chunks[0].len() as int, written, writes[0]) is Write {
        lemma_first_chunk(chunks, written + count, writes.drop_first(), later);
    } else {
        assert(taken(chunks[0], written + count, writes.drop_first()) =~= Seq::empty());
        assert(all.drop_first() =~= later);
    }
    assert(stream_taken(chunks, written, all) =~= taken(chunks[0], written, writes) + stream_taken(
        chunks.drop_first(),
        0,
        later,
    ));
}

/// What the socket takes of each chunk, when the `i`-th is written by `writes[i]`.
pub open spec fn taken_of_each<E>(
    chunks: Seq<Seq<u8>>,
    writes: Seq<Seq<core::result::Result<usize, E>>>,
) -> Seq<Seq<u8>> {
    Seq::new(chunks.len(), |i: int| taken(chunks[i], 0, writes[i]))
}

/// Whether no write of the chunk failed or took nothing, of a chunk that holds anything.
pub open spec fn written_whole<E>(
    chunk: Seq<u8>,
    writes: Seq<core::result::Result<usize, E>>,
) -> bool {
    chunk.len() == 0 || forall|j: int| 0 <= j < writes.len() ==> !write_fails(#[trigger] writes[j])
}

/// A stream of chunks is written chunk by chunk, in order. What the socket took of the
/// stream is what it took of each chunk, joined; of each chunk that is a part from its
/// start, and the whole chunk unless a write of this chunk failed or took nothing. So a
/// failure costs the rest of its own chunk only, and without one the socket took the
/// chunks joined.
pub proof fn chunks_make_up_the_stream<E>(
    chunks: Seq<Seq<u8>>,
    writes: Seq<Seq<core::result::Result<usize, E>>>,
)
    requires
        writes.len() == chunks.len(),
        forall|i: int| 0 <= i < chunks.len() ==> writes_of(#[trigger] chunks[i], 0, writes[i]),
    ensures
        stream_taken(chunks, 0, writes.flatten()) == taken_of_each(chunks, writes).flatten(),
        forall|i: int| 0 <= i < chunks.len() ==> (#[trigger] taken_of_each(chunks, writes)[i])
            .is_prefix_of(chunks[i]),
        forall|i: int|
            0 <= i < chunks.len() && written_whole(chunks[i], writes[i])
                ==> #[trigger] taken_of_each(chunks, writes)[i] == chunks[i],
        (forall|i: int| 0 <= i < chunks.len() ==> written_whole(#[trigger] chunks[i], writes[i]))
            ==> stream_taken(chunks, 0, writes.flatten()) == chunks.flatten(),
    decreases chunks.len(),
{
    let each = taken_of_each(chunks, writes);
    assert forall|i: int| 0 <= i < chunks.len() implies (#[trigger] each[i]).is_prefix_of(chunks[i])
        && (written_whole(chunks[i], writes[i]) ==> each[i] == chunks[i]) by {
        assert(writes_of(chunks[i], 0, writes[i]));
        pieces_make_up_the_chunk(chunks[i], 0, writes[i]);
        assert(chunks[i].skip(0) =~= chunks[i]);
    }
    if chunks.len() == 0 {
        assert(each =~= Seq::empty());
        assert(chunks =~= Seq::empty());
    } else {
        let later = writes.drop_first();
        let rest = chunks.drop_first();
        assert forall|i: int| 0 <= i < rest.len() implies writes_of(#[trigger] rest[i], 0, later[i]) by {
            assert(writes_of(chunks[i + 1], 0, writes[i + 1]));
        }
        chunks_make_up_the_stream(rest, later);
        assert(writes_of(chunks[0], 0, writes[0]));
        lemma_first_chunk(chunks, 0, writes[0], later.flatten());
        assert(writes.flatten() =~= writes[0] + later.flatten());
        assert(each.drop_first() =~= taken_of_each(rest, later));
        if forall|i: int| 0 <= i < chunks.len() ==> written_whole(#[trigger] chunks[i], writes[i]) {
            assert(each =~= chunks);
        }
    }
}

/// What a forwarding loop was answered: an item or the end of its source, or how the
/// sending of an item went.
pub enum ForwardEvent<D> {
    Received(Option<D>),
    Sent(bool),
}

/// What a forwarding loop does next.
pub enum ForwardStep<D> {
    Receive,
    Send(D),
    Stop,
}

/// The step that follows `event`: each item is sent on, until the source ends or
/// one cannot be sent.
pub open spec fn forward_step<D>(event: ForwardEvent<D>) -> ForwardStep<D> {
    match event {
        ForwardEvent::Received(Some(item)) => ForwardStep::Send(item),
        ForwardEvent::Received(None) => ForwardStep::Stop,
        ForwardEvent::Sent(true) => ForwardStep::Receive,
        ForwardEvent::Sent(false) => ForwardStep::Stop,
    }
}

/// Forwards the items of one channel to another.
pub fn aux_forward<D>(event: ForwardEvent<D>) -> (step: ForwardStep<D>)
    ensures
        step == forward_step(event),
{
    match event {
        ForwardEvent::Received(Some(item)) => ForwardStep::Send(item),
        ForwardEvent::Received(None) => ForwardStep::Stop,
        ForwardEvent::Sent(true) => ForwardStep::Receive,
        ForwardEvent::Sent(false) => ForwardStep::Stop,
    }
}

/// What sending on a connection takes next: an item is sent by the stack's connection
/// `to`. The stack is polled once at the end, however it came.
pub enum SendStep<D, V> {
    Receive,
    Send { item: D, to: V },
    PollAndStop,
}

/// Sends what comes in on a connection's channel by the connection's socket.
pub fn handle_conn_send<D, V: Clone>(
    established: &EstablishedConnection<V>,
    event: ForwardEvent<D>,
) -> (step: SendStep<D, V>)
    ensures
        match forward_step(event) {
            ForwardStep::Receive => step is Receive,
            ForwardStep::Send(item) => step matches SendStep::Send { item: sent, to } && sent == item
                && cloned(established.vconn, to),
            ForwardStep::Stop => step is PollAndStop,
        },
{
    match aux_forward(event) {
        ForwardStep::Receive => SendStep::Receive,
        ForwardStep::Send(item) => SendStep::Send { item, to: established.vconn.clone() },
        ForwardStep::Stop => SendStep::PollAndStop,
    }
}

/// What receiving frames takes next: the stack gets a frame and is polled, or the
/// receiving ends.
pub enum ReceiveStep<D> {
    HandOverAndPoll(D),
    Stop,
}

/// The step that follows what was received: each frame is handed over, until their
/// source ends.
pub open spec fn receive_step<D>(received: Option<D>) -> ReceiveStep<D> {
    match received {
        Some(frame) => ReceiveStep::HandOverAndPoll(frame),
        None => ReceiveStep::Stop,
    }
}

/// Hands the frames of a channel to the stack.
pub fn handle_stack_receive<D>(received: Option<D>) -> (step: ReceiveStep<D>)
    ensures
        step == receive_step(received),
{
    match received {
        Some(frame) => ReceiveStep::HandOverAndPoll(frame),
        None => ReceiveStep::Stop,
    }
}

/// The frames that the stack gets, when `frames` are received.
pub open spec fn handed_over<D>(frames: Seq<D>) -> Seq<D>
    decreases frames.len(),
{
    if frames.len() == 0 {
        Seq::empty()
    } else {
        match receive_step(Some(frames[0])) {
            ReceiveStep::HandOverAndPoll(frame) => seq![frame] + handed_over(frames.drop_first()),
            ReceiveStep::Stop => Seq::empty(),
        }
    }
}

/// The stack gets every frame once, in order.
pub proof fn frames_are_handed_over_in_order<D>(frames: Seq<D>)
    ensures
        handed_over(frames) == frames,
    decreases frames.len(),
{
    if frames.len() > 0 {
        frames_are_handed_over_in_order(frames.drop_first());
        assert(seq![frames[0]] + frames.drop_first() =~= frames);
    }
}

/// What a loop of forwarding steps sends of `items`, when the sending of its `i`-th
/// item goes as `sent[i]`.
pub open spec fn forwarded<D>(items: Seq<D>, sent: Seq<bool>) -> Seq<D>
    decreases items.len(),
{
    if items.len() == 0 {
        Seq::empty()
    } else {
        match forward_step(ForwardEvent::Received(Some(items[0]))) {
            ForwardStep::Send(item) => seq![item] + match forward_step::<D>(
                ForwardEvent::Sent(sent[0]),
            ) {
                ForwardStep::Receive => forwarded(items.drop_first(), sent.drop_first()),
                _ => Seq::empty(),
            },
            _ => Seq::empty(),
        }
    }
}

/// A forwarding loop sends its items in order, without gaps or repeats, up to and
/// with the first that cannot be sent; all of them if each can.
pub proof fn items_are_forwarded_in_order<D>(items: Seq<D>, sent: Seq<bool>, failed: int)
    requires
        sent.len() == items.len(),
        0 <= failed <= items.len(),
        forall|i: int| 0 <= i < failed ==> sent[i],
        failed < items.len() ==> !sent[failed],
    ensures
        failed < items.len() ==> forwarded(items, sent) == items.take(failed + 1),
        failed == items.len() ==> forwarded(items, sent) == items,
    decreases items.len(),
{
    if items.len() > 0 {
        let rest = items.drop_first();
        if failed > 0 {
            assert(sent[0]);
            assert forall|i: int| 0 <= i < failed - 1 implies sent.drop_first()[i] by {
                assert(sent[i + 1]);
            }
            items_are_forwarded_in_order(rest, sent.drop_first(), failed - 1);
            if failed < items.len() {
                assert(seq![items[0]] + rest.take(failed) =~= items.take(failed + 1));
            } else {
                assert(seq![items[0]] + rest =~= items);
            }
        } else {
            assert(seq![items[0]] + Seq::<D>::empty() =~= items.take(1));
        }
    }
}

/// What a reader does, whatever its buffer: it stops exactly at the end of its socket and
/// where an item could not be sent, reads exactly after an item was sent, sends exactly
/// what a read put at the start of the buffer, all of it, and fails exactly with the
/// error of a read.
pub proof fn readers_stop_at_the_end<E>(buf: &[u8], event: ReaderEvent<E>, step: ReaderStep<E>)
    requires
        event matches ReaderEvent::Read(Ok(count)) ==> count <= buf@.len(),
        call_ensures(aux_reader_to_sink::<E>, (buf, event), step),
    ensures
        step is Stop <==> event == ReaderEvent::<E>::Read(Ok(0)) || event
            == ReaderEvent::<E>::Sent(false),
        step is Read <==> event == ReaderEvent::<E>::Sent(true),
        step is Send <==> (event matches ReaderEvent::Read(Ok(count)) && count > 0),
        step matches ReaderStep::Send(item) ==> {
            &&& event matches ReaderEvent::Read(Ok(count))
            &&& item@.len() == count
            &&& forall|i: int| 0 <= i < count ==> #[trigger] item@[i] == buf@[i]
        },
        step is Fail <==> event matches ReaderEvent::Read(Err(_)),
        step matches ReaderStep::Fail(error) ==> event == ReaderEvent::<E>::Read(Err(error)),
        READER_BUFFER_SIZE == 2048,
{
}

/// What a writer does with a chunk, whatever it holds: it begins with the whole chunk, and
/// after a write offers what the socket did not take. It writes on exactly if the socket
/// took something and not all, and else goes on to the next chunk, with the error exactly
/// if there was one. It takes up chunks until there are no more.
pub proof fn writers_offer_what_is_left<E>(
    chunk: Vec<u8>,
    writer: ChunkWriter,
    first: &[u8],
    at: ChunkWriter,
    offered: &[u8],
    moved: &mut ChunkWriter,
    write: core::result::Result<usize, E>,
    step: WriterStep<E>,
    after: ChunkWriter,
    left: &[u8],
    taken_up: Option<ChunkWriter>,
    begun: &[u8],
    received: Option<Vec<u8>>,
)
    requires
        call_ensures(ChunkWriter::new, (chunk,), writer),
        call_ensures(ChunkWriter::rest, (&writer,), first),
        at.written() <= at.chunk().len(),
        call_ensures(ChunkWriter::rest, (&at,), offered),
        write matches Ok(count) ==> count <= offered@.len(),
        *old(moved) == at,
        call_ensures(ChunkWriter::aux_stream_to_writer::<E>, (moved, write), step),
        after == *final(moved),
        call_ensures(ChunkWriter::rest, (&after,), left),
        call_ensures(next_chunk, (received,), taken_up),
        taken_up matches Some(next) ==> call_ensures(ChunkWriter::rest, (&next,), begun),
    ensures
        first@ == chunk@,
        after.written() <= after.chunk().len(),
        match write {
            Ok(count) => left@ == offered@.skip(count as int),
            Err(_) => left@ == offered@,
        },
        step is Write <==> (write matches Ok(count) && 0 < count < offered@.len()),
        step matches WriterStep::Next(failed) ==> match write {
            Ok(_) => failed is None,
            Err(error) => failed == Some(error),
        },
        taken_up is Some <==> received is Some,
        received matches Some(next) ==> begun@ == next@,
{
    assert(first@ =~= chunk@);
    if let Ok(count) = write {
        assert(left@ =~= offered@.skip(count as int));
    }
    if let Some(next) = received {
        assert(begun@ =~= next@);
    }
}

/// What a forwarding loop does: it sends exactly what it received, receives exactly after
/// an item was sent, and stops exactly at the end of its source and where an item could
/// not be sent. So does the sending on a connection, which names the connection of the
/// stack with each item, and ends with a poll. Frames are handed over exactly as they
/// are received, until their source ends.
pub proof fn items_are_sent_as_received<D, V: Clone>(
    event: ForwardEvent<D>,
    step: ForwardStep<D>,
    established: EstablishedConnection<V>,
    send: SendStep<D, V>,
    received: Option<D>,
    handed: ReceiveStep<D>,
)
    requires
        call_ensures(aux_forward::<D>, (event,), step),
        call_ensures(handle_conn_send::<D, V>, (&established, event), send),
        call_ensures(handle_stack_receive::<D>, (received,), handed),
    ensures
        step is Send <==> event matches ForwardEvent::Received(Some(_)),
        step matches ForwardStep::Send(item) ==> event == ForwardEvent::Received(Some(item)),
        step is Receive <==> event == ForwardEvent::<D>::Sent(true),
        step is Stop <==> event == ForwardEvent::<D>::Received(None) || event
            == ForwardEvent::<D>::Sent(false),
        send is Send <==> event matches ForwardEvent::Received(Some(_)),
        send matches SendStep::Send { item, to } ==> event == ForwardEvent::Received(Some(item))
            && cloned(established.vconn, to),
        send is Receive <==> event == ForwardEvent::<D>::Sent(true),
        send is PollAndStop <==> event == ForwardEvent::<D>::Received(None) || event
            == ForwardEvent::<D>::Sent(false),
        handed is Stop <==> received is None,
        handed matches ReceiveStep::HandOverAndPoll(frame) ==> received == Some(frame),
{
}

} // verus!
