//! Session state after the handshake: the intake of framed requests, the
//! dispatch of decoded requests, interrupts, and the notifications that a
//! filesystem sends to the kernel.
use crate::abi::{
    InHeader, InitOut, InterruptIn, LkIn, NotifyDeleteOut, NotifyInvalEntryOut,
    NotifyInvalInodeOut, NotifyPollWakeupOut, NotifyRetrieveOut, NotifyStoreOut, EIO, ENODEV,
    ENOENT, ENOSYS, FUSE_DESTROY, FUSE_INIT, FUSE_INTERRUPT, FUSE_LK_FLOCK, FUSE_NOTIFY_DELETE,
    FUSE_NOTIFY_INVAL_ENTRY, FUSE_NOTIFY_INVAL_INODE, FUSE_NOTIFY_POLL, FUSE_NOTIFY_RETRIEVE,
    FUSE_NOTIFY_STORE, FUSE_SETLK, FUSE_SETLKW, IN_HEADER_SIZE,
};
use crate::decoder::{encode, lemma_encode_len, to_bytes, Decoder};
use crate::init::ConnectionInfo;
use crate::interrupt::{
    after_finish, after_interrupt, after_register, InterruptState, InterruptTable,
};
use crate::op::spec_flock_op;
use crate::operation::{arg_of, decoded, known_opcode, well_formed, DecodeError, Operation};
use crate::reply::{
    error_frame, frame_bytes, frame_fits, negated_errno, notify_frame, reply_frame, seg_views,
    ReplyError,
};
use crate::wire::lemma_layout_size_push;
use vstd::prelude::*;
use vstd::slice::{slice_subrange, slice_to_vec};

verus! {

/// The plain state of a session.
pub struct SessionView {
    pub conn: InitOut,
    pub bufsize: u64,
    pub exited: bool,
    pub notify_unique: u64,
    pub interrupts: InterruptState,
}

/// The state of a FUSE session after a successful INIT.
#[derive(Debug)]
pub struct Session {
    conn: ConnectionInfo,
    bufsize: u64,
    exited: bool,
    notify_unique: u64,
    interrupts: InterruptTable,
}

impl View for Session {
    type V = SessionView;

    closed spec fn view(&self) -> SessionView {
        SessionView {
            conn: self.conn@,
            bufsize: self.bufsize,
            exited: self.exited,
            notify_unique: self.notify_unique,
            interrupts: self.interrupts@,
        }
    }
}

impl Session {
    /// A live session over the negotiated connection, with no retrieve id
    /// handed out and no pending interrupt.
    pub(crate) fn new(conn: ConnectionInfo, bufsize: u64) -> (r: Session)
        ensures
            r@ == (SessionView {
                conn: conn@,
                bufsize,
                exited: false,
                notify_unique: 0,
                interrupts: InterruptState { waiting: Map::empty(), early: Set::empty() },
            }),
    {
        Session { conn, bufsize, exited: false, notify_unique: 0, interrupts: InterruptTable::new() }
    }
}

/// Why a notification was not framed.
#[derive(Clone, Copy, Debug, PartialEq, Eq, Structural)]
pub enum NotifyError {
    /// The session has exited.
    NotConnected,
    /// The payload is too long for a frame.
    TooLong,
    /// Every retrieve id of the session was handed out.
    IdsExhausted,
}

/// Frame a notification, or say why not.
fn notification(session_exited: bool, code: i32, segs: &[Vec<u8>]) -> (r: Result<
    Vec<u8>,
    NotifyError,
>)
    ensures
        session_exited ==> r == Err::<Vec<u8>, NotifyError>(NotifyError::NotConnected),
        !session_exited && frame_fits(seg_views(segs@)) ==> (r matches Ok(b) && b@ == frame_bytes(
            0,
            code,
            seg_views(segs@),
        )),
        !session_exited && !frame_fits(seg_views(segs@)) ==> r == Err::<Vec<u8>, NotifyError>(
            NotifyError::TooLong,
        ),
{
    if session_exited {
        return Err(NotifyError::NotConnected);
    }
    match notify_frame(code, segs) {
        Ok(b) => Ok(b),
        Err(_) => Err(NotifyError::TooLong),
    }
}

/// The payload of an INVAL_ENTRY or DELETE notification: the fixed block, the name and its NUL.
pub open spec fn named_payload(fixed: Seq<u8>, name: Seq<u8>) -> Seq<Seq<u8>> {
    seq![fixed, name, seq![0u8]]
}

/// Why no request came out of a read.
#[derive(Clone, Copy, Debug, PartialEq, Eq, Structural)]
pub enum IntakeError {
    /// Fewer bytes than a request header were read.
    TooShort,
    /// The read failed with this OS error number, if any.
    Io(Option<i32>),
}

/// What one read of the kernel channel gave.
#[derive(Debug)]
pub enum Intake {
    /// A request arrived.
    Request(Request),
    /// The kernel asked for the read to be restarted.
    Retry,
    /// The filesystem was unmounted: the session is over.
    End,
    /// The read failed.
    Failed(IntakeError),
}

/// The answer that a request calls for, in terms of plain values.
pub enum Outcome {
    /// Nothing is sent.
    Skip,
    /// A reply with no payload and this error number (0 for success).
    Reply(i32),
    /// The interrupt of the request with this unique id.
    Interrupt(u64),
    /// The operation goes to the filesystem.
    Handle,
}

/// What a session does with a request whose header is `h` and argument region is `s`.
pub open spec fn outcome(exited: bool, h: InHeader, s: Seq<u8>) -> Outcome {
    let c = h.opcode;
    if exited {
        Outcome::Skip
    } else if c == FUSE_INIT || !well_formed(c, s) {
        Outcome::Reply(EIO)
    } else if c == FUSE_DESTROY {
        Outcome::Reply(0)
    } else if c == FUSE_INTERRUPT {
        Outcome::Interrupt(arg_of::<InterruptIn>(s).unwrap().unique)
    } else if !known_opcode(c) {
        Outcome::Reply(ENOSYS)
    } else if (c == FUSE_SETLK || c == FUSE_SETLKW) && arg_of::<LkIn>(s).unwrap().lk_flags
        & FUSE_LK_FLOCK != 0 && spec_flock_op(
        arg_of::<LkIn>(s).unwrap().typ,
        c == FUSE_SETLKW,
    ) is None {
        Outcome::Reply(EIO)
    } else {
        Outcome::Handle
    }
}

/// What the caller is to do with a request.
#[derive(Debug)]
pub enum Dispatch {
    /// Nothing is to be sent.
    Skip,
    /// Send this frame.
    Send(Vec<u8>),
    /// Hand the operation to the filesystem, which replies unless it is a FORGET.
    Handle(Operation),
    /// The kernel interrupted request `unique`; `signal` says whether its
    /// registered handler is to be signalled now.
    Interrupt { unique: u64, signal: bool },
}

/// A request read from the kernel channel.
#[derive(Debug)]
pub struct Request {
    header: InHeader,
    arg: Vec<u8>,
}

/// The plain contents of a request.
pub struct RequestView {
    pub header: InHeader,
    pub arg: Seq<u8>,
}

impl View for Request {
    type V = RequestView;

    closed spec fn view(&self) -> RequestView {
        RequestView { header: self.header, arg: self.arg@ }
    }
}

impl Request {
    /// The request held in one message of the kernel channel: a header, then
    /// the argument region. `None` if the message is shorter than a header.
    pub fn from_bytes(b: &[u8]) -> (r: Option<Request>)
        ensures
            b@.len() < IN_HEADER_SIZE ==> r is None,
            b@.len() >= IN_HEADER_SIZE ==> (r matches Some(req) && arg_of::<InHeader>(b@) == Some(
                req@.header,
            ) && req@.arg == b@.skip(IN_HEADER_SIZE as int)),
    {
        let n = b.len();
        if n < IN_HEADER_SIZE {
            return None;
        }
        let mut d = Decoder::new(b);
        proof {
            broadcast use lemma_layout_size_push;

        }
        let header = match d.fetch::<InHeader>() {
            Some(h) => h,
            None => return None,
        };
        let arg = slice_to_vec(slice_subrange(b, IN_HEADER_SIZE, n));
        assert(arg@ =~= b@.skip(IN_HEADER_SIZE as int));
        Some(Request { header, arg })
    }

    /// The header of the request.
    pub fn header(&self) -> (r: InHeader)
        ensures
            r == self@.header,
    {
        self.header
    }

    /// The argument region of the request.
    pub fn arg(&self) -> (r: &[u8])
        ensures
            r@ == self@.arg,
    {
        self.arg.as_slice()
    }

    /// Return the unique ID of the request.
    pub fn unique(&self) -> (r: u64)
        ensures
            r == self@.header.unique,
    {
        self.header.unique
    }

    /// Return the user ID of the calling process.
    pub fn uid(&self) -> (r: u32)
        ensures
            r == self@.header.uid,
    {
        self.header.uid
    }

    /// Return the group ID of the calling process.
    pub fn gid(&self) -> (r: u32)
        ensures
            r == self@.header.gid,
    {
        self.header.gid
    }

    /// Return the process ID of the calling process.
    pub fn pid(&self) -> (r: u32)
        ensures
            r == self@.header.pid,
    {
        self.header.pid
    }

    /// Return the opcode of the request.
    pub fn opcode(&self) -> (r: u32)
        ensures
            r == self@.header.opcode,
    {
        self.header.opcode
    }

    /// Decode the argument of this request; after the session has exited
    /// every request decodes as `Unknown`.
    pub fn operation(&self, session: &Session) -> (r: Result<Operation, DecodeError>)
        ensures
            session@.exited ==> r matches Ok(Operation::Unknown),
            !session@.exited ==> (r is Ok <==> well_formed(self@.header.opcode, self@.arg)),
            !session@.exited ==> (r matches Ok(op) ==> decoded(op, self@.header, self@.arg)),
    {
        if session.exited {
            return Ok(Operation::Unknown);
        }
        Operation::decode(&self.header, self.arg.as_slice())
    }

    /// Frame a successful reply to this request carrying the given segments.
    pub fn reply(&self, data: &[Vec<u8>]) -> (r: Result<Vec<u8>, ReplyError>)
        ensures
            frame_fits(seg_views(data@)) ==> (r matches Ok(b) && b@ == frame_bytes(
                self@.header.unique,
                0,
                seg_views(data@),
            )),
            !frame_fits(seg_views(data@)) ==> r == Err::<Vec<u8>, ReplyError>(
                ReplyError::TooLong,
            ),
    {
        reply_frame(self.header.unique, data)
    }

    /// Frame an error reply to this request.
    pub fn reply_error(&self, code: i32) -> (r: Vec<u8>)
        ensures
            r@ == frame_bytes(self@.header.unique, negated_errno(code), Seq::empty()),
    {
        error_frame(self.header.unique, code)
    }
}

impl Session {
    /// Returns the information about the FUSE connection.
    pub fn connection_info(&self) -> (r: &ConnectionInfo)
        ensures
            r@ == self@.conn,
    {
        &self.conn
    }

    /// Size of the buffer that a read of the kernel channel needs: room for
    /// the header and fixed arguments, plus the largest write payload.
    pub fn bufsize(&self) -> (r: u64)
        ensures
            r == self@.bufsize,
    {
        self.bufsize
    }

    /// Whether the session has exited.
    pub fn exited(&self) -> (r: bool)
        ensures
            r == self@.exited,
    {
        self.exited
    }

    /// End the session. Nothing else changes, and an exited session stays exited.
    pub fn exit(&mut self)
        ensures
            final(self)@ == (SessionView { exited: true, ..old(self)@ }),
    {
        self.exited = true;
    }

    /// The next retrieve id to be handed out.
    pub fn next_notify_unique(&self) -> (r: u64)
        ensures
            r == self@.notify_unique,
    {
        self.notify_unique
    }

    /// Turn one read of the kernel channel into a request.
    ///
    /// Once the session has exited (after DESTROY, or `exit`), intake is over
    /// whatever was read.
    ///
    /// `read` holds the bytes read (header and arguments), or the OS error
    /// number of a failed read. `ENODEV` ends the session, `ENOENT` asks for
    /// the read to be restarted, any other error is passed on, and a read
    /// shorter than a request header is invalid data.
    pub fn next_request(&self, read: Result<Vec<u8>, Option<i32>>) -> (r: Intake)
        ensures
            self@.exited ==> r is End,
            !self@.exited ==> match read {
                Ok(b) => if b@.len() < IN_HEADER_SIZE {
                    r matches Intake::Failed(e) && e == IntakeError::TooShort
                } else {
                    r matches Intake::Request(req) && arg_of::<InHeader>(b@) == Some(req@.header)
                        && req@.arg == b@.skip(IN_HEADER_SIZE as int)
                },
                Err(e) => if e == Some(ENODEV) {
                    r is End
                } else if e == Some(ENOENT) {
                    r is Retry
                } else {
                    r matches Intake::Failed(x) && x == IntakeError::Io(e)
                },
            },
    {
        if self.exited {
            return Intake::End;
        }
        match read {
            Err(e) => {
                if e == Some(ENODEV) {
                    Intake::End
                } else if e == Some(ENOENT) {
                    Intake::Retry
                } else {
                    Intake::Failed(IntakeError::Io(e))
                }
            },
            Ok(b) => match Request::from_bytes(b.as_slice()) {
                Some(req) => Intake::Request(req),
                None => Intake::Failed(IntakeError::TooShort),
            },
        }
    }

    /// Decide what a request calls for, and update the session.
    ///
    /// After the session has exited nothing is sent. INIT, and a request whose
    /// arguments are malformed, get `EIO`. DESTROY ends the session and gets
    /// an empty reply. INTERRUPT goes to the interrupt table. An opcode that
    /// this library does not handle gets `ENOSYS`, and a BSD lock request with
    /// an unknown lock type gets `EIO`. Every other request goes to the
    /// filesystem.
    pub fn process(&mut self, req: &Request) -> (r: Dispatch)
        ensures
            match outcome(old(self)@.exited, req@.header, req@.arg) {
                Outcome::Skip => r is Skip,
                Outcome::Reply(e) => r matches Dispatch::Send(b) && b@ == frame_bytes(
                    req@.header.unique,
                    negated_errno(e),
                    Seq::empty(),
                ),
                Outcome::Interrupt(u) => r == (Dispatch::Interrupt {
                    unique: u,
                    signal: after_interrupt(old(self)@.interrupts, u).1,
                }),
                Outcome::Handle => r matches Dispatch::Handle(op) && decoded(
                    op,
                    req@.header,
                    req@.arg,
                ),
            },
            final(self)@.interrupts == match outcome(old(self)@.exited, req@.header, req@.arg) {
                Outcome::Interrupt(u) => after_interrupt(old(self)@.interrupts, u).0,
                _ => old(self)@.interrupts,
            },
            final(self)@.exited == (old(self)@.exited || outcome(
                old(self)@.exited,
                req@.header,
                req@.arg,
            ) == Outcome::Reply(0)),
            final(self)@.conn == old(self)@.conn,
            final(self)@.bufsize == old(self)@.bufsize,
            final(self)@.notify_unique == old(self)@.notify_unique,
    {
        if self.exited {
            return Dispatch::Skip;
        }
        let unique = req.header.unique;
        if req.header.opcode == FUSE_INIT {
            return Dispatch::Send(error_frame(unique, EIO));
        }
        let op = match Operation::decode(&req.header, req.arg.as_slice()) {
            Ok(op) => op,
            Err(_) => return Dispatch::Send(error_frame(unique, EIO)),
        };
        match op {
            Operation::Destroy => {
                self.exited = true;
                Dispatch::Send(error_frame(unique, 0))
            },
            Operation::Interrupt(target) => {
                let signal = self.interrupts.interrupt(target);
                Dispatch::Interrupt { unique: target, signal }
            },
            Operation::Unknown => Dispatch::Send(error_frame(unique, ENOSYS)),
            Operation::Flock(x) => {
                if crate::op::flock_op(x.arg.typ, x.sleep).is_none() {
                    Dispatch::Send(error_frame(unique, EIO))
                } else {
                    Dispatch::Handle(Operation::Flock(x))
                }
            },
            other => Dispatch::Handle(other),
        }
    }

    /// Register interest in the cancellation of request `unique`. Returns
    /// whether it was interrupted already.
    pub fn enable_interrupt(&mut self, unique: u64) -> (r: bool)
        ensures
            (final(self)@.interrupts, r) == after_register(old(self)@.interrupts, unique),
            final(self)@ == (SessionView { interrupts: final(self)@.interrupts, ..old(self)@ }),
    {
        self.interrupts.register(unique)
    }

    /// Forget the interrupt bookkeeping of request `unique` once it was answered.
    pub fn finish(&mut self, unique: u64)
        ensures
            final(self)@.interrupts == after_finish(old(self)@.interrupts, unique),
            final(self)@ == (SessionView { interrupts: final(self)@.interrupts, ..old(self)@ }),
    {
        self.interrupts.finish(unique)
    }

    /// Frame a notification that invalidates the cache of an inode.
    pub fn notify_inval_inode(&self, ino: u64, off: i64, len: i64) -> (r: Result<
        Vec<u8>,
        NotifyError,
    >)
        ensures
            self@.exited ==> r == Err::<Vec<u8>, NotifyError>(NotifyError::NotConnected),
            !self@.exited ==> (r matches Ok(b) && b@ == frame_bytes(
                0,
                FUSE_NOTIFY_INVAL_INODE,
                seq![encode(NotifyInvalInodeOut { ino, off, len })],
            )),
    {
        let out = NotifyInvalInodeOut { ino, off, len };
        let segs = vec![to_bytes(&out)];
        proof {
            broadcast use lemma_layout_size_push;

            lemma_encode_len(out);
            assert(seg_views(segs@) =~= seq![encode(out)]);
            seq![encode(out)].lemma_flatten_one_element();
        }
        notification(self.exited, FUSE_NOTIFY_INVAL_INODE, segs.as_slice())
    }

    /// Frame a notification that invalidates a directory entry.
    pub fn notify_inval_entry(&self, parent: u64, name: &[u8]) -> (r: Result<
        Vec<u8>,
        NotifyError,
    >)
        ensures
            ({
                let segs = named_payload(
                    encode(NotifyInvalEntryOut { parent, namelen: name@.len() as u32 }),
                    name@,
                );
                &&& self@.exited ==> r == Err::<Vec<u8>, NotifyError>(NotifyError::NotConnected)
                &&& !self@.exited && frame_fits(segs) ==> (r matches Ok(b) && b@ == frame_bytes(
                    0,
                    FUSE_NOTIFY_INVAL_ENTRY,
                    segs,
                ))
                &&& !self@.exited && !frame_fits(segs) ==> r == Err::<Vec<u8>, NotifyError>(
                    NotifyError::TooLong,
                )
            }),
    {
        let out = NotifyInvalEntryOut { parent, namelen: name.len() as u32 };
        let segs = vec![to_bytes(&out), slice_to_vec(name), vec![0u8]];
        proof {
            assert(segs@[2]@ =~= seq![0u8]);
            assert(seg_views(segs@) =~= named_payload(encode(out), name@));
        }
        notification(self.exited, FUSE_NOTIFY_INVAL_ENTRY, segs.as_slice())
    }

    /// Frame a notification that a directory entry was deleted.
    pub fn notify_delete(&self, parent: u64, child: u64, name: &[u8]) -> (r: Result<
        Vec<u8>,
        NotifyError,
    >)
        ensures
            ({
                let segs = named_payload(
                    encode(NotifyDeleteOut { parent, child, namelen: name@.len() as u32 }),
                    name@,
                );
                &&& self@.exited ==> r == Err::<Vec<u8>, NotifyError>(NotifyError::NotConnected)
                &&& !self@.exited && frame_fits(segs) ==> (r matches Ok(b) && b@ == frame_bytes(
                    0,
                    FUSE_NOTIFY_DELETE,
                    segs,
                ))
                &&& !self@.exited && !frame_fits(segs) ==> r == Err::<Vec<u8>, NotifyError>(
                    NotifyError::TooLong,
                )
            }),
    {
        let out = NotifyDeleteOut { parent, child, namelen: name.len() as u32 };
        let segs = vec![to_bytes(&out), slice_to_vec(name), vec![0u8]];
        proof {
            assert(segs@[2]@ =~= seq![0u8]);
            assert(seg_views(segs@) =~= named_payload(encode(out), name@));
        }
        notification(self.exited, FUSE_NOTIFY_DELETE, segs.as_slice())
    }

    /// Frame a notification that pushes data of an inode into the kernel cache.
    pub fn notify_store(&self, ino: u64, offset: u64, data: &[Vec<u8>]) -> (r: Result<
        Vec<u8>,
        NotifyError,
    >)
        ensures
            ({
                let payload = seg_views(data@).flatten();
                let segs = seq![
                    encode(NotifyStoreOut { nodeid: ino, offset, size: payload.len() as u32 }),
                    payload,
                ];
                &&& self@.exited ==> r == Err::<Vec<u8>, NotifyError>(NotifyError::NotConnected)
                &&& !self@.exited && frame_fits(segs) ==> (r matches Ok(b) && b@ == frame_bytes(
                    0,
                    FUSE_NOTIFY_STORE,
                    segs,
                ))
                &&& !self@.exited && !frame_fits(segs) ==> r == Err::<Vec<u8>, NotifyError>(
                    NotifyError::TooLong,
                )
            }),
    {
        if self.exited {
            return Err(NotifyError::NotConnected);
        }
        let ghost payload = seg_views(data@).flatten();
        let body = match crate::reply::concat_within(data, 0xFFFF_FFFF) {
            Some(b) => b,
            None => {
                proof {
                    let segs = seq![
                        encode(NotifyStoreOut { nodeid: ino, offset, size: payload.len() as u32 }),
                        payload,
                    ];
                    lemma_two_segments(segs);
                }
                return Err(NotifyError::TooLong);
            },
        };
        let out = NotifyStoreOut { nodeid: ino, offset, size: body.len() as u32 };
        let segs = vec![to_bytes(&out), body];
        proof {
            assert(seg_views(segs@) =~= seq![encode(out), payload]);
        }
        notification(false, FUSE_NOTIFY_STORE, segs.as_slice())
    }

    /// Frame a notification that asks the kernel for the cached data of an
    /// inode, and return the fresh id that the kernel's NOTIFY_REPLY will carry.
    pub fn notify_retrieve(&mut self, ino: u64, offset: u64, size: u32) -> (r: Result<
        (u64, Vec<u8>),
        NotifyError,
    >)
        ensures
            old(self)@.exited ==> r == Err::<(u64, Vec<u8>), NotifyError>(NotifyError::NotConnected)
                && final(self)@ == old(self)@,
            !old(self)@.exited && old(self)@.notify_unique == u64::MAX ==> r == Err::<
                (u64, Vec<u8>),
                NotifyError,
            >(NotifyError::IdsExhausted) && final(self)@ == old(self)@,
            !old(self)@.exited && old(self)@.notify_unique < u64::MAX ==> (r matches Ok((id, b))
                && retrieved(old(self)@, final(self)@, id) && b@ == frame_bytes(
                0,
                FUSE_NOTIFY_RETRIEVE,
                seq![
                    encode(
                        NotifyRetrieveOut { notify_unique: id, nodeid: ino, offset, size },
                    ),
                ],
            )),
    {
        if self.exited {
            return Err(NotifyError::NotConnected);
        }
        if self.notify_unique == u64::MAX {
            return Err(NotifyError::IdsExhausted);
        }
        let unique = self.notify_unique;
        self.notify_unique = unique + 1;
        let out = NotifyRetrieveOut { notify_unique: unique, nodeid: ino, offset, size };
        let segs = vec![to_bytes(&out)];
        proof {
            broadcast use lemma_layout_size_push;

            lemma_encode_len(out);
            assert(seg_views(segs@) =~= seq![encode(out)]);
            seq![encode(out)].lemma_flatten_one_element();
        }
        match notification(false, FUSE_NOTIFY_RETRIEVE, segs.as_slice()) {
            Ok(b) => Ok((unique, b)),
            Err(e) => Err(e),
        }
    }

    /// Frame a notification that an awaited poll event is ready.
    pub fn notify_poll_wakeup(&self, kh: u64) -> (r: Result<Vec<u8>, NotifyError>)
        ensures
            self@.exited ==> r == Err::<Vec<u8>, NotifyError>(NotifyError::NotConnected),
            !self@.exited ==> (r matches Ok(b) && b@ == frame_bytes(
                0,
                FUSE_NOTIFY_POLL,
                seq![encode(NotifyPollWakeupOut { kh })],
            )),
    {
        let out = NotifyPollWakeupOut { kh };
        let segs = vec![to_bytes(&out)];
        proof {
            broadcast use lemma_layout_size_push;

            lemma_encode_len(out);
            assert(seg_views(segs@) =~= seq![encode(out)]);
            seq![encode(out)].lemma_flatten_one_element();
        }
        notification(self.exited, FUSE_NOTIFY_POLL, segs.as_slice())
    }
}

/// A retrieve notification took id `id` from session state `pre`, leaving `post`.
pub open spec fn retrieved(pre: SessionView, post: SessionView, id: u64) -> bool {
    &&& !pre.exited
    &&& id == pre.notify_unique
    &&& id < u64::MAX
    &&& post == SessionView { notify_unique: (id + 1) as u64, ..pre }
}

/// Retrieve ids strictly increase: of two retrieve notifications on one
/// session, the later one gets the larger id. Between them the counter may
/// only have stayed or grown, which every method of `Session` ensures.
pub proof fn lemma_retrieve_ids_increase(
    a: SessionView,
    b: SessionView,
    c: SessionView,
    d: SessionView,
    first: u64,
    second: u64,
)
    requires
        retrieved(a, b, first),
        b.notify_unique <= c.notify_unique,
        retrieved(c, d, second),
    ensures
        first < second,
{
}

/// Two segments flatten to their concatenation.
proof fn lemma_two_segments(segs: Seq<Seq<u8>>)
    requires
        segs.len() == 2,
    ensures
        segs.flatten() == segs[0] + segs[1],
{
    assert(segs.drop_first().drop_first() =~= Seq::<Seq<u8>>::empty());
    assert(segs.drop_first()[0] == segs[1]);
    assert(segs.drop_first().drop_first().flatten() == Seq::<u8>::empty());
    assert(segs[1] + Seq::<u8>::empty() =~= segs[1]);
    assert(segs.drop_first().flatten() =~= segs[1]);
}

} // verus!
