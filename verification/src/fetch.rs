//! Retrieval of a track's album art from the player server.
//!
//! The server offers art through two sources: a picture file that lies
//! beside the track, and a picture embedded in the track's tags. Either one
//! hands the art out in chunks, each with the total size of the picture. A
//! session asks the file-backed source first and the embedded source only
//! if the first has nothing; whichever answers with data serves the rest of
//! the transfer.
//!
//! The session does no I/O. It says which request is due, takes the
//! server's answer, and says what follows.

use vstd::prelude::*;
use crate::buffer::{append, contents};

verus! {

/// The two places art can come from.
#[derive(Debug, Clone, Copy, PartialEq, Eq, Structural)]
pub enum ArtSource {
    /// A picture file beside the track.
    FileBacked,
    /// A picture embedded in the track's tags.
    Embedded,
}

/// A request for the chunk of art that starts at `offset`.
#[derive(Debug, Clone, Copy, PartialEq, Eq, Structural)]
pub struct ArtRequest {
    pub source: ArtSource,
    pub offset: usize,
}

/// One answer with data: a chunk of the picture and the picture's total
/// size.
#[derive(Debug, PartialEq, Eq)]
pub struct ArtChunk {
    pub data: bytes::BytesMut,
    pub size: usize,
}

/// A session that still awaits an answer.
#[derive(Debug, PartialEq, Eq)]
pub enum FetchState {
    /// The file-backed source has been asked for the first chunk.
    ProbingFile,
    /// The file-backed source had nothing; the embedded source has been
    /// asked for the first chunk.
    ProbingEmbedded,
    /// `source` has delivered `buffer` so far, of `expected` bytes in all.
    Transferring { source: ArtSource, buffer: bytes::BytesMut, expected: usize },
}

/// What an answer leads to, short of failure.
#[derive(Debug, PartialEq, Eq)]
pub enum FetchProgress {
    /// Another request is due: the one of the new state.
    Continue(FetchState),
    /// The picture is complete.
    Complete { source: ArtSource, art: bytes::BytesMut },
    /// The track has no art.
    Absent,
}

/// A transfer that broke off.
#[derive(Debug, Clone, Copy, PartialEq, Eq, Structural)]
pub enum FetchError {
    /// The source stopped answering after `received` of `expected` bytes.
    Truncated { source: ArtSource, received: usize, expected: usize },
}

/// An answer with data, as the contracts see it.
pub struct ChunkView {
    pub data: Seq<u8>,
    pub size: nat,
}

/// A request, as the contracts see it.
pub struct RequestView {
    pub source: ArtSource,
    pub offset: nat,
}

/// A waiting session, as the contracts see it.
pub enum StateView {
    ProbingFile,
    ProbingEmbedded,
    Transferring { source: ArtSource, buffer: Seq<u8>, expected: nat },
}

/// Progress, as the contracts see it.
pub enum ProgressView {
    Continue(StateView),
    Complete { source: ArtSource, art: Seq<u8> },
    Absent,
}

/// A failure, as the contracts see it.
pub enum ErrorView {
    Truncated { source: ArtSource, received: nat, expected: nat },
}

impl View for ArtRequest {
    type V = RequestView;

    open spec fn view(&self) -> RequestView {
        RequestView { source: self.source, offset: self.offset as nat }
    }
}

impl View for ArtChunk {
    type V = ChunkView;

    open spec fn view(&self) -> ChunkView {
        ChunkView { data: contents(self.data), size: self.size as nat }
    }
}

impl View for FetchState {
    type V = StateView;

    open spec fn view(&self) -> StateView {
        match *self {
            FetchState::ProbingFile => StateView::ProbingFile,
            FetchState::ProbingEmbedded => StateView::ProbingEmbedded,
            FetchState::Transferring { source, buffer, expected } => StateView::Transferring {
                source,
                buffer: contents(buffer),
                expected: expected as nat,
            },
        }
    }
}

impl View for FetchProgress {
    type V = ProgressView;

    open spec fn view(&self) -> ProgressView {
        match *self {
            FetchProgress::Continue(state) => ProgressView::Continue(state@),
            FetchProgress::Complete { source, art } => ProgressView::Complete {
                source,
                art: contents(art),
            },
            FetchProgress::Absent => ProgressView::Absent,
        }
    }
}

impl View for FetchError {
    type V = ErrorView;

    open spec fn view(&self) -> ErrorView {
        match *self {
            FetchError::Truncated { source, received, expected } => ErrorView::Truncated {
                source,
                received: received as nat,
                expected: expected as nat,
            },
        }
    }
}

/// The server's answer, as the contracts see it.
pub open spec fn answer_view(response: Option<ArtChunk>) -> Option<ChunkView> {
    match response {
        Some(chunk) => Some(chunk@),
        None => None,
    }
}

/// The outcome of a step, as the contracts see it.
pub open spec fn outcome_view(r: Result<FetchProgress, FetchError>) -> Result<
    ProgressView,
    ErrorView,
> {
    match r {
        Ok(progress) => Ok(progress@),
        Err(e) => Err(e@),
    }
}

impl StateView {
    /// A transfer that goes on still lacks bytes.
    pub open spec fn wf(self) -> bool {
        match self {
            StateView::Transferring { buffer, expected, .. } => buffer.len() < expected,
            _ => true,
        }
    }

    /// The number of bytes received so far.
    pub open spec fn received(self) -> nat {
        match self {
            StateView::Transferring { buffer, .. } => buffer.len(),
            _ => 0,
        }
    }

    /// The request that the session awaits the answer to.
    pub open spec fn request(self) -> RequestView {
        match self {
            StateView::ProbingFile => RequestView { source: ArtSource::FileBacked, offset: 0 },
            StateView::ProbingEmbedded => RequestView { source: ArtSource::Embedded, offset: 0 },
            StateView::Transferring { source, buffer, .. } => RequestView {
                source,
                offset: buffer.len(),
            },
        }
    }

    /// What follows once `source` has delivered `buffer` of `expected`
    /// bytes: the picture, if nothing is missing, or the next request.
    pub open spec fn accept(source: ArtSource, buffer: Seq<u8>, expected: nat) -> ProgressView {
        if buffer.len() >= expected {
            ProgressView::Complete { source, art: buffer }
        } else {
            ProgressView::Continue(StateView::Transferring { source, buffer, expected })
        }
    }

    /// What the server's answer leads to.
    pub open spec fn step(self, response: Option<ChunkView>) -> Result<ProgressView, ErrorView> {
        match self {
            StateView::ProbingFile => match response {
                Some(chunk) => Ok(Self::accept(ArtSource::FileBacked, chunk.data, chunk.size)),
                None => Ok(ProgressView::Continue(StateView::ProbingEmbedded)),
            },
            StateView::ProbingEmbedded => match response {
                Some(chunk) => Ok(Self::accept(ArtSource::Embedded, chunk.data, chunk.size)),
                None => Ok(ProgressView::Absent),
            },
            StateView::Transferring { source, buffer, expected } => match response {
                Some(chunk) => Ok(Self::accept(source, buffer + chunk.data, expected)),
                None => Err(ErrorView::Truncated { source, received: buffer.len(), expected }),
            },
        }
    }

    /// Whether the answer can be taken: during a transfer, the bytes
    /// received and those of the answer must fit into one buffer.
    pub open spec fn fits(self, response: Option<ChunkView>) -> bool {
        match (self, response) {
            (StateView::Transferring { buffer, .. }, Some(chunk)) => buffer.len()
                + chunk.data.len() <= isize::MAX,
            _ => true,
        }
    }
}

impl FetchState {
    /// A session at its start: the file-backed source has been asked.
    pub fn new() -> (state: FetchState)
        ensures
            state@ == StateView::ProbingFile,
            state@.wf(),
    {
        FetchState::ProbingFile
    }

    /// The request that the session awaits the answer to.
    pub fn request(&self) -> (request: ArtRequest)
        ensures
            request@ == self@.request(),
    {
        match self {
            FetchState::ProbingFile => ArtRequest { source: ArtSource::FileBacked, offset: 0 },
            FetchState::ProbingEmbedded => ArtRequest { source: ArtSource::Embedded, offset: 0 },
            FetchState::Transferring { source, buffer, .. } => ArtRequest {
                source: *source,
                offset: buffer.len(),
            },
        }
    }

    /// The number of bytes received so far.
    pub fn received(&self) -> (n: usize)
        ensures
            n == self@.received(),
    {
        match self {
            FetchState::Transferring { buffer, .. } => buffer.len(),
            _ => 0,
        }
    }

    /// Whether `response` can be handed to `step`: during a transfer, its
    /// bytes and those received so far must fit into one buffer.
    pub fn fits(&self, response: &Option<ArtChunk>) -> (ok: bool)
        ensures
            ok == self@.fits(answer_view(*response)),
    {
        match (self, response) {
            (FetchState::Transferring { buffer, .. }, Some(chunk)) => {
                let held = buffer.len();
                let more = chunk.data.len();
                let limit = isize::MAX as usize;
                held <= limit && more <= limit - held
            },
            _ => true,
        }
    }

    /// Takes the server's answer to the request that was due, whatever its
    /// size: `None` where its bytes and those received so far do not fit
    /// into one buffer.
    pub fn checked_step(self, response: Option<ArtChunk>) -> (r: Option<
        Result<FetchProgress, FetchError>,
    >)
        ensures
            match r {
                Some(outcome) => {
                    &&& self@.fits(answer_view(response))
                    &&& outcome_view(outcome) == self@.step(answer_view(response))
                    &&& outcome matches Ok(FetchProgress::Continue(next)) ==> next@.wf()
                },
                None => !self@.fits(answer_view(response)),
            },
    {
        if self.fits(&response) {
            Some(self.step(response))
        } else {
            None
        }
    }

    /// Takes the server's answer to the request that was due.
    pub fn step(self, response: Option<ArtChunk>) -> (r: Result<FetchProgress, FetchError>)
        requires
            self@.fits(answer_view(response)),
        ensures
            outcome_view(r) == self@.step(answer_view(response)),
            r matches Ok(FetchProgress::Continue(next)) ==> next@.wf(),
    {
        match self {
            FetchState::ProbingFile => match response {
                Some(chunk) => Ok(accept_first(ArtSource::FileBacked, chunk)),
                None => Ok(FetchProgress::Continue(FetchState::ProbingEmbedded)),
            },
            FetchState::ProbingEmbedded => match response {
                Some(chunk) => Ok(accept_first(ArtSource::Embedded, chunk)),
                None => Ok(FetchProgress::Absent),
            },
            FetchState::Transferring { source, buffer, expected } => match response {
                Some(chunk) => {
                    let mut buffer = buffer;
                    append(&mut buffer, &chunk.data);
                    Ok(accept(source, buffer, expected))
                },
                None => Err(
                    FetchError::Truncated { source, received: buffer.len(), expected },
                ),
            },
        }
    }
}

/// What follows once `source` has delivered `buffer` of `expected` bytes.
fn accept(source: ArtSource, buffer: bytes::BytesMut, expected: usize) -> (progress: FetchProgress)
    ensures
        progress@ == StateView::accept(source, contents(buffer), expected as nat),
{
    if buffer.len() >= expected {
        FetchProgress::Complete { source, art: buffer }
    } else {
        FetchProgress::Continue(FetchState::Transferring { source, buffer, expected })
    }
}

/// Takes the first chunk of a picture: its bytes start the buffer, its size
/// is the size to reach, and room is set aside for what is missing.
fn accept_first(source: ArtSource, chunk: ArtChunk) -> (progress: FetchProgress)
    ensures
        progress@ == StateView::accept(source, chunk@.data, chunk@.size),
{
    let ArtChunk { data, size } = chunk;
    let mut buffer = data;
    let held = buffer.len();
    if held < size && size <= isize::MAX as usize {
        buffer.reserve(size - held);
    }
    accept(source, buffer, size)
}

/// The state in which a session that began in `start` awaits its next
/// answer once it has taken `answers` in order, or `None` if it has ended
/// by then.
pub open spec fn state_after(start: StateView, answers: Seq<Option<ChunkView>>) -> Option<
    StateView,
>
    decreases answers.len(),
{
    if answers.len() == 0 {
        Some(start)
    } else {
        match state_after(start, answers.drop_last()) {
            Some(state) => match state.step(answers.last()) {
                Ok(ProgressView::Continue(next)) => Some(next),
                _ => None,
            },
            None => None,
        }
    }
}

/// The bytes that the answers carry, in order.
pub open spec fn gathered(answers: Seq<Option<ChunkView>>) -> Seq<u8>
    decreases answers.len(),
{
    if answers.len() == 0 {
        Seq::empty()
    } else {
        match answers.last() {
            Some(chunk) => gathered(answers.drop_last()) + chunk.data,
            None => gathered(answers.drop_last()),
        }
    }
}

/// A session that still waits after some answers was waiting after each
/// shorter run of them.
pub proof fn lemma_waiting_before(start: StateView, answers: Seq<Option<ChunkView>>, k: int)
    requires
        0 <= k <= answers.len(),
        state_after(start, answers) is Some,
    ensures
        state_after(start, answers.take(k)) is Some,
    decreases answers.len(),
{
    if k == answers.len() {
        assert(answers.take(k) =~= answers);
    } else {
        assert(answers.drop_last().take(k) =~= answers.take(k));
        lemma_waiting_before(start, answers.drop_last(), k);
    }
}

/// A session stays well-formed: while a transfer goes on, bytes are
/// missing.
pub proof fn lemma_waiting_state_wf(start: StateView, answers: Seq<Option<ChunkView>>)
    requires
        start.wf(),
        state_after(start, answers) is Some,
    ensures
        state_after(start, answers)->0.wf(),
    decreases answers.len(),
{
    if answers.len() > 0 {
        lemma_waiting_state_wf(start, answers.drop_last());
    }
}

/// Once a transfer is under way, its source serves the rest of the
/// session.
proof fn lemma_source_sticks(
    start: StateView,
    answers: Seq<Option<ChunkView>>,
    from: int,
    to: int,
    source: ArtSource,
)
    requires
        0 <= from <= to <= answers.len(),
        state_after(start, answers.take(from)) matches Some(
            StateView::Transferring { source: s, .. },
        ) && s == source,
        state_after(start, answers.take(to)) is Some,
    ensures
        state_after(start, answers.take(to)) matches Some(
            StateView::Transferring { source: s, .. },
        ) && s == source,
    decreases to - from,
{
    if from < to {
        assert(answers.take(to).drop_last() =~= answers.take(to - 1));
        lemma_source_sticks(start, answers, from, to - 1, source);
    }
}

/// The two sources exclude each other: once a source has answered a request
/// with data, every later request of the session goes to that source. No
/// session asks the embedded source after the file-backed source has
/// delivered, nor the other way round.
pub proof fn lemma_sources_exclusive(answers: Seq<Option<ChunkView>>, i: int, j: int)
    requires
        0 <= i < j <= answers.len(),
        answers[i] is Some,
        state_after(StateView::ProbingFile, answers.take(j)) is Some,
    ensures
        state_after(StateView::ProbingFile, answers.take(i)) is Some,
        state_after(StateView::ProbingFile, answers.take(j))->0.request().source == state_after(
            StateView::ProbingFile,
            answers.take(i),
        )->0.request().source,
{
    let start = StateView::ProbingFile;
    assert(answers.take(j).take(i + 1) =~= answers.take(i + 1));
    lemma_waiting_before(start, answers.take(j), i + 1);
    assert(answers.take(i + 1).drop_last() =~= answers.take(i));
    let asked = state_after(start, answers.take(i))->0.request().source;
    lemma_source_sticks(start, answers, i + 1, j, asked);
}

/// A transfer ends with the picture exactly when the bytes received reach
/// the advertised size. Where the chunk brings no more than what was
/// missing, that is exactly when they equal it, and the picture then has
/// the advertised size.
pub proof fn lemma_complete_at_total(
    source: ArtSource,
    buffer: Seq<u8>,
    expected: nat,
    chunk: ChunkView,
)
    ensures
        ({
            let state = StateView::Transferring { source, buffer, expected };
            let total = buffer.len() + chunk.data.len();
            &&& state.step(Some(chunk)) is Ok
            &&& state.step(Some(chunk))->Ok_0 is Complete <==> total >= expected
            &&& total <= expected ==> (state.step(Some(chunk))->Ok_0 is Complete <==> total
                == expected)
            &&& state.step(Some(chunk)) matches Ok(ProgressView::Complete { source: s, art }) ==> s
                == source && art == buffer + chunk.data
        }),
{
}

/// The first answer with data decides the session: its source serves the
/// transfer and its size is the size to reach. With nothing missing the
/// picture is there at once; in particular a picture of size zero is
/// present, and empty if the answer carried no bytes.
pub proof fn lemma_first_chunk(state: StateView, chunk: ChunkView)
    requires
        state is ProbingFile || state is ProbingEmbedded,
    ensures
        state.step(Some(chunk)) is Ok,
        chunk.data.len() >= chunk.size ==> state.step(Some(chunk)) == Ok::<
            ProgressView,
            ErrorView,
        >(ProgressView::Complete { source: state.request().source, art: chunk.data }),
        chunk.data.len() < chunk.size ==> state.step(Some(chunk)) == Ok::<ProgressView, ErrorView>(
            ProgressView::Continue(
                StateView::Transferring {
                    source: state.request().source,
                    buffer: chunk.data,
                    expected: chunk.size,
                },
            ),
        ),
        chunk.data.len() <= chunk.size ==> (state.step(Some(chunk))->Ok_0 is Complete
            <==> chunk.data.len() == chunk.size),
        chunk.size == 0 && chunk.data.len() == 0 ==> state.step(Some(chunk)) == Ok::<
            ProgressView,
            ErrorView,
        >(ProgressView::Complete { source: state.request().source, art: Seq::<u8>::empty() }),
{
    if chunk.size == 0 && chunk.data.len() == 0 {
        assert(chunk.data =~= Seq::<u8>::empty());
    }
}

/// Absence and truncation are told apart: a session reports that there is
/// no art only when both sources had nothing for the first request, and a
/// source that falls silent during a transfer is an error.
pub proof fn lemma_absent_or_truncated(state: StateView)
    ensures
        state.step(None) == Ok::<ProgressView, ErrorView>(ProgressView::Absent)
            <==> state is ProbingEmbedded,
        state.step(None) is Err <==> state is Transferring,
{
}

/// While a session asks for a first chunk, no answer has carried bytes.
proof fn lemma_nothing_gathered(answers: Seq<Option<ChunkView>>)
    requires
        answers.len() == 0 || (answers.len() == 1 && answers[0] is None),
    ensures
        gathered(answers) == Seq::<u8>::empty(),
{
    if answers.len() == 1 {
        assert(gathered(answers.drop_last()) =~= Seq::<u8>::empty());
    }
}

/// A transfer holds the bytes of all answers so far, in the order in which
/// they came.
pub proof fn lemma_buffer_gathers(answers: Seq<Option<ChunkView>>)
    requires
        state_after(StateView::ProbingFile, answers) is Some,
    ensures
        match state_after(StateView::ProbingFile, answers)->0 {
            StateView::ProbingFile => answers.len() == 0,
            StateView::ProbingEmbedded => answers.len() == 1 && answers[0] is None,
            StateView::Transferring { buffer, .. } => buffer == gathered(answers),
        },
    decreases answers.len(),
{
    if answers.len() > 0 {
        lemma_buffer_gathers(answers.drop_last());
        if !(state_after(StateView::ProbingFile, answers.drop_last())->0 is Transferring) {
            lemma_nothing_gathered(answers.drop_last());
        }
    }
}

/// A picture that a session ends with is made of the bytes of all its
/// answers, in the order in which they came, and comes from the source
/// that was asked last.
pub proof fn lemma_picture_gathers(answers: Seq<Option<ChunkView>>)
    requires
        answers.len() > 0,
        state_after(StateView::ProbingFile, answers.drop_last()) is Some,
        state_after(StateView::ProbingFile, answers.drop_last())->0.step(answers.last())
            matches Ok(ProgressView::Complete { .. }),
    ensures
        ({
            let last = state_after(StateView::ProbingFile, answers.drop_last())->0;
            last.step(answers.last()) == Ok::<ProgressView, ErrorView>(
                ProgressView::Complete { source: last.request().source, art: gathered(answers) },
            )
        }),
{
    lemma_buffer_gathers(answers.drop_last());
    if !(state_after(StateView::ProbingFile, answers.drop_last())->0 is Transferring) {
        lemma_nothing_gathered(answers.drop_last());
    }
}

} // verus!
