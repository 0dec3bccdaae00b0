//! The leaf I/O future: one outstanding request/response exchange over a
//! non-blocking connection.
//!
//! The future is lazy: construction stores the request target and nothing
//! more. Its first poll asks the caller to open the connection and write the
//! full request (fire-and-forget), and yields. Every later poll consumes the
//! outcome of one non-blocking read: received bytes are appended to an
//! accumulator and the caller is asked to read again at once; the would-block
//! condition yields; a transient interruption is retried; end of stream
//! decodes the whole accumulator exactly once and resolves the future; any
//! other failure is fatal and surfaced as an `Abort` action.
use crate::future::{Future, IoAction, IoEvent, PollState};
use vstd::prelude::*;
use vstd::string::StringExecFns;

verus! {

/// The mathematical state of a leaf future: whether its request has been
/// issued, whether it has resolved, the bytes accumulated so far, and the
/// request target it serves.
pub ghost struct LeafView {
    pub connected: bool,
    pub done: bool,
    pub buffer: Seq<u8>,
    pub path: Seq<char>,
}

/// What `String::from_utf8_lossy` returns on these bytes: the text decoded
/// with invalid sequences replaced rather than rejected.
pub uninterp spec fn utf8_lossy(bytes: Seq<u8>) -> Seq<char>;

/// Relies on `String::from_utf8_lossy`: the decoded text is a function of
/// the bytes alone, and the empty input decodes to the empty text.
#[verifier::external_body]
fn decode_lossy(bytes: &Vec<u8>) -> (r: String)
    ensures
        r@ == utf8_lossy(bytes@),
        bytes@.len() == 0 ==> r@.len() == 0,
{
    String::from_utf8_lossy(bytes.as_slice()).to_string()
}

/// The request message written for a target: a plain-text request line, a
/// fixed host, a demand that the peer close the connection after replying,
/// and a blank-line terminator.
pub open spec fn spec_get_req(path: Seq<char>) -> Seq<char> {
    "GET "@ + path + " HTTP/1.1\r\nHost: localhost\r\nConnection: close\r\n\r\n"@
}

/// Serializes the request message for `path`.
pub fn get_req(path: &str) -> (r: String)
    ensures
        r@ == spec_get_req(path@),
{
    let mut r = String::from_str("GET ");
    r.append(path);
    r.append(" HTTP/1.1\r\nHost: localhost\r\nConnection: close\r\n\r\n");
    r
}

/// A leaf future performing one request/response exchange.
///
/// The connection itself is driven by the caller: this state machine asks
/// for each piece of socket work through an `IoAction` and consumes its
/// outcome as an `IoEvent`, so that every decision it takes is verified.
pub struct HttpFuture {
    connected: bool,
    done: bool,
    buffer: Vec<u8>,
    path: String,
}

impl View for HttpFuture {
    type V = LeafView;

    closed spec fn view(&self) -> LeafView {
        LeafView {
            connected: self.connected,
            done: self.done,
            buffer: self.buffer@,
            path: self.path@,
        }
    }
}

/// The leaf future's state after consuming one event.
pub open spec fn leaf_next(v: LeafView, ev: IoEvent) -> LeafView {
    match ev {
        IoEvent::Wake => LeafView { connected: true, done: v.done, buffer: v.buffer, path: v.path },
        IoEvent::Eof => LeafView { connected: v.connected, done: true, buffer: v.buffer, path: v.path },
        IoEvent::Data(b) => LeafView {
            connected: v.connected,
            done: v.done,
            buffer: v.buffer + b@,
            path: v.path,
        },
        IoEvent::Interrupted => v,
        IoEvent::WouldBlock => v,
        IoEvent::Failed => LeafView { connected: v.connected, done: true, buffer: v.buffer, path: v.path },
    }
}

/// The full step relation of one leaf poll: how the state advances, and
/// which result and action come back for each event.
pub open spec fn leaf_polled(
    pre: LeafView,
    post: LeafView,
    ev: IoEvent,
    out: PollState<String>,
    act: IoAction,
) -> bool {
    &&& post == leaf_next(pre, ev)
    &&& if !pre.connected {
        // First poll: issue the request and yield; never a value.
        &&& out is NotReady
        &&& act matches IoAction::Send(req) && req@ == spec_get_req(pre.path)
    } else {
        match ev {
            IoEvent::Eof => {
                &&& out matches PollState::Ready(s) && s@ == utf8_lossy(pre.buffer)
                &&& act is Idle
            },
            IoEvent::Data(_) => out is NotReady && act is Read,
            IoEvent::Interrupted => out is NotReady && act is Read,
            IoEvent::WouldBlock => out is NotReady && act is Idle,
            IoEvent::Failed => out is NotReady && act is Abort,
            IoEvent::Wake => false,
        }
    }
}

/// An event that keeps the exchange in flight: a chunk of data, a transient
/// interruption, or the would-block condition — neither end of stream nor a
/// fatal failure.
pub open spec fn mid_stream(ev: IoEvent) -> bool {
    ev is Data || ev is Interrupted || ev is WouldBlock
}

/// The leaf future's state after consuming a whole sequence of events.
pub open spec fn leaf_run(v: LeafView, evs: Seq<IoEvent>) -> LeafView
    decreases evs.len(),
{
    if evs.len() == 0 {
        v
    } else {
        leaf_run(leaf_next(v, evs[0]), evs.drop_first())
    }
}

/// The concatenation, in arrival order, of the payloads of the data events
/// in a sequence.
pub open spec fn data_concat(evs: Seq<IoEvent>) -> Seq<u8>
    decreases evs.len(),
{
    if evs.len() == 0 {
        Seq::<u8>::empty()
    } else {
        (match evs[0] {
            IoEvent::Data(b) => b@,
            _ => Seq::<u8>::empty(),
        }) + data_concat(evs.drop_first())
    }
}

/// The first poll of a leaf future can only connect and yield: whatever
/// sequence of polls is attempted before the connection is established, the
/// first of them transitions to connected-and-pending and returns not-ready,
/// never a ready value.
pub proof fn lemma_first_poll_never_ready(
    pre: LeafView,
    post: LeafView,
    ev: IoEvent,
    out: PollState<String>,
    act: IoAction,
)
    requires
        !pre.connected,
        ev is Wake,
        leaf_polled(pre, post, ev, out, act),
    ensures
        out is NotReady,
        post.connected,
        post.done == pre.done,
        post.buffer == pre.buffer,
        act matches IoAction::Send(req) && req@ == spec_get_req(pre.path),
{
}

/// Chunking does not matter: across any run of in-flight events, the
/// accumulator grows by exactly the concatenation of the delivered chunks in
/// arrival order, and the connection and target are untouched.
pub proof fn lemma_reassembly(v: LeafView, evs: Seq<IoEvent>)
    requires
        v.connected,
        !v.done,
        forall|i: int| 0 <= i < evs.len() ==> mid_stream(#[trigger] evs[i]),
    ensures
        leaf_run(v, evs).connected,
        !leaf_run(v, evs).done,
        leaf_run(v, evs).path == v.path,
        leaf_run(v, evs).buffer == v.buffer + data_concat(evs),
    decreases evs.len(),
{
    if evs.len() == 0 {
        assert(v.buffer + data_concat(evs) =~= v.buffer);
    } else {
        let rest = evs.drop_first();
        let v1 = leaf_next(v, evs[0]);
        assert(mid_stream(evs[0]));
        assert forall|i: int| 0 <= i < rest.len() implies mid_stream(#[trigger] rest[i]) by {
            assert(rest[i] == evs[i + 1]);
            assert(mid_stream(evs[i + 1]));
        }
        lemma_reassembly(v1, rest);
        match evs[0] {
            IoEvent::Data(b) => {
                assert((v.buffer + b@) + data_concat(rest) =~= v.buffer + (b@ + data_concat(rest)));
            },
            _ => {
                assert(Seq::<u8>::empty() + data_concat(rest) =~= data_concat(rest));
            },
        }
    }
}

/// The final decoded value is the decode of the full concatenation: however
/// the response bytes were chunked across individual reads, the poll that
/// consumes end of stream returns the text decoded from all of them in
/// arrival order.
pub proof fn lemma_decode_of_whole_stream(
    v: LeafView,
    evs: Seq<IoEvent>,
    post: LeafView,
    out: PollState<String>,
    act: IoAction,
)
    requires
        v.connected,
        !v.done,
        forall|i: int| 0 <= i < evs.len() ==> mid_stream(#[trigger] evs[i]),
        leaf_polled(leaf_run(v, evs), post, IoEvent::Eof, out, act),
    ensures
        out matches PollState::Ready(s) && s@ == utf8_lossy(v.buffer + data_concat(evs)),
{
    lemma_reassembly(v, evs);
}

pub struct Http;

impl Http {
    /// Builds the leaf future for `path`. No work happens yet: futures are
    /// lazy, and the exchange begins only on the first poll.
    pub fn new(path: &str) -> (f: HttpFuture)
        ensures
            f@ == (LeafView {
                connected: false,
                done: false,
                buffer: Seq::<u8>::empty(),
                path: path@,
            }),
            f.inv(),
            !f.resolved(),
            f.accepts(IoEvent::Wake),
    {
        HttpFuture::new(path)
    }
}

impl HttpFuture {
    fn new(path: &str) -> (f: Self)
        ensures
            f@ == (LeafView {
                connected: false,
                done: false,
                buffer: Seq::<u8>::empty(),
                path: path@,
            }),
    {
        Self { connected: false, done: false, buffer: Vec::new(), path: path.to_owned() }
    }
}

impl Future for HttpFuture {
    type Output = String;

    open spec fn inv(&self) -> bool {
        self@.done ==> self@.connected
    }

    /// Resolved exactly when the exchange has ended (value produced, or
    /// fatal failure surfaced).
    open spec fn resolved(&self) -> bool {
        self@.done
    }

    /// Before the request is issued only the bare `Wake` is meaningful;
    /// afterwards only read outcomes are: the write precedes every read.
    open spec fn accepts(&self, ev: IoEvent) -> bool {
        if self@.connected {
            !(ev is Wake)
        } else {
            ev is Wake
        }
    }

    open spec fn polled(
        pre: Self,
        post: Self,
        ev: IoEvent,
        out: PollState<String>,
        act: IoAction,
    ) -> bool {
        leaf_polled(pre@, post@, ev, out, act)
    }

    fn poll(&mut self, ev: IoEvent) -> (r: (PollState<String>, IoAction)) {
        if !self.connected {
            self.connected = true;
            let req = get_req(self.path.as_str());
            (PollState::NotReady, IoAction::Send(req))
        } else {
            match ev {
                IoEvent::Eof => {
                    self.done = true;
                    (PollState::Ready(decode_lossy(&self.buffer)), IoAction::Idle)
                },
                IoEvent::Data(mut b) => {
                    self.buffer.append(&mut b);
                    (PollState::NotReady, IoAction::Read)
                },
                IoEvent::Interrupted => (PollState::NotReady, IoAction::Read),
                IoEvent::WouldBlock => (PollState::NotReady, IoAction::Idle),
                IoEvent::Failed => {
                    self.done = true;
                    (PollState::NotReady, IoAction::Abort)
                },
                IoEvent::Wake => {
                    proof {
                        assert(false);
                    }
                    vstd::pervasive::unreached()
                },
            }
        }
    }
}

} // verus!
