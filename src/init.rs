//! Session settings and the INIT handshake: negotiation of the protocol
//! version, the capabilities and the connection parameters.
use crate::abi::{
    InHeader, InitIn, InitOut, OutHeader, EIO, EPROTO, FUSE_BIG_WRITES, FUSE_INIT, FUSE_KERNEL_MINOR_VERSION,
    FUSE_KERNEL_VERSION, FUSE_MAX_PAGES, FUSE_NO_OPENDIR_SUPPORT, FUSE_NO_OPEN_SUPPORT,
    IN_HEADER_SIZE, MINIMUM_SUPPORTED_MINOR_VERSION,
};
use crate::flags::{CapabilityFlags, ALL_CAPABILITIES, DEFAULT_CAPABILITIES};
use crate::decoder::{encode, lemma_encode_len, to_bytes, Decoder};
use crate::interrupt::InterruptState;
use crate::operation::arg_of;
use crate::reply::{error_frame, frame_bytes, negated_errno, reply_frame, seg_views};
use crate::session::{Request, Session, SessionView};
use crate::wire::lemma_layout_size_push;
use vstd::prelude::*;

verus! {

/// Default upper bound of the size of a WRITE payload: 16 MiB.
pub const DEFAULT_MAX_WRITE: u32 = 16777216;
/// Room reserved in the intake buffer for the header and fixed arguments.
pub const BUFFER_HEADER_SIZE: u32 = 4096;
/// Largest `max_pages` that the kernel may be told.
pub const MAX_MAX_PAGES: u32 = 256;

/// Settings of a session, sent to the kernel at INIT.
#[derive(Clone, Copy, Debug)]
pub struct Config {
    max_readahead: u32,
    flags: CapabilityFlags,
    max_background: u16,
    congestion_threshold: u16,
    max_write: u32,
    time_gran: u32,
}

/// The plain values of a `Config`.
pub struct ConfigView {
    pub max_readahead: u32,
    pub flags: u32,
    pub max_background: u16,
    pub congestion_threshold: u16,
    pub max_write: u32,
    pub time_gran: u32,
}

impl View for Config {
    type V = ConfigView;

    closed spec fn view(&self) -> ConfigView {
        ConfigView {
            max_readahead: self.max_readahead,
            flags: self.flags.spec_bits(),
            max_background: self.max_background,
            congestion_threshold: self.congestion_threshold,
            max_write: self.max_write,
            time_gran: self.time_gran,
        }
    }
}

impl Config {
    /// The capability flags hold only known bits.
    pub open spec fn wf(&self) -> bool {
        self@.flags & !ALL_CAPABILITIES == 0
    }

    /// The capability flags.
    pub fn flags(&mut self) -> (r: &mut CapabilityFlags)
        ensures
            r.spec_bits() == old(self)@.flags,
            final(self)@.flags == final(r).spec_bits(),
            final(self)@.max_readahead == old(self)@.max_readahead,
            final(self)@.max_background == old(self)@.max_background,
            final(self)@.congestion_threshold == old(self)@.congestion_threshold,
            final(self)@.max_write == old(self)@.max_write,
            final(self)@.time_gran == old(self)@.time_gran,
            final(self).wf() <==> final(r).wf(),
            r.wf() <==> old(self).wf(),
    {
        &mut self.flags
    }

    /// Set the maximum readahead.
    pub fn max_readahead(&mut self, value: u32) -> (r: &mut Self)
        ensures
            r@ == (ConfigView { max_readahead: value, ..old(self)@ }),
            r.wf() == old(self).wf(),
            *final(self) == *final(r),
    {
        self.max_readahead = value;
        self
    }

    /// Set the maximum size of the write buffer.
    pub fn max_write(&mut self, value: u32) -> (r: &mut Self)
        ensures
            r@ == (ConfigView { max_write: value, ..old(self)@ }),
            r.wf() == old(self).wf(),
            *final(self) == *final(r),
    {
        self.max_write = value;
        self
    }

    /// Set the maximum number of pending *background* requests.
    pub fn max_background(&mut self, max_background: u16) -> (r: &mut Self)
        ensures
            r@ == (ConfigView { max_background, ..old(self)@ }),
            r.wf() == old(self).wf(),
            *final(self) == *final(r),
    {
        self.max_background = max_background;
        self
    }

    /// Set the threshold number of pending background requests at which the
    /// kernel marks the filesystem as *congested*.
    ///
    /// A value of 0 stands for three quarters of `max_background`. The value
    /// may not exceed `max_background`.
    pub fn congestion_threshold(&mut self, threshold: u16) -> (r: &mut Self)
        requires
            threshold <= old(self)@.max_background,
        ensures
            r@ == (ConfigView {
                congestion_threshold: if threshold == 0 {
                    (old(self)@.max_background * 3 / 4) as u16
                } else {
                    threshold
                },
                ..old(self)@
            }),
            r.wf() == old(self).wf(),
            *final(self) == *final(r),
    {
        let value = if threshold == 0 {
            (self.max_background as u32 * 3 / 4) as u16
        } else {
            threshold
        };
        self.congestion_threshold = value;
        self
    }

    /// Set the timestamp resolution supported by the filesystem, in
    /// nanoseconds (a power of 10; 1 by default).
    pub fn time_gran(&mut self, time_gran: u32) -> (r: &mut Self)
        ensures
            r@ == (ConfigView { time_gran, ..old(self)@ }),
            r.wf() == old(self).wf(),
            *final(self) == *final(r),
    {
        self.time_gran = time_gran;
        self
    }
}

impl Default for Config {
    /// Readahead unbounded, the default capabilities, no background limit,
    /// writes of up to 16 MiB, and a time granularity of 1 ns.
    fn default() -> (r: Self)
        ensures
            r@ == (ConfigView {
                max_readahead: u32::MAX,
                flags: DEFAULT_CAPABILITIES,
                max_background: 0,
                congestion_threshold: 0,
                max_write: DEFAULT_MAX_WRITE,
                time_gran: 1,
            }),
            r.wf(),
    {
        Config {
            max_readahead: u32::MAX,
            flags: CapabilityFlags::default(),
            max_background: 0,
            congestion_threshold: 0,
            max_write: DEFAULT_MAX_WRITE,
            time_gran: 1,
        }
    }
}

/// Options of the handshake beyond `Config`; none exist at this protocol level.
#[derive(Clone, Copy, Debug, Default)]
pub struct SessionInitializer {
    _p: (),
}

/// Information about the connection associated with a session.
#[derive(Clone, Copy, Debug)]
pub struct ConnectionInfo {
    out: InitOut,
}

impl View for ConnectionInfo {
    type V = InitOut;

    closed spec fn view(&self) -> InitOut {
        self.out
    }
}

impl ConnectionInfo {
    /// Returns the major version of the protocol.
    pub fn proto_major(&self) -> (r: u32)
        ensures
            r == self@.major,
    {
        self.out.major
    }

    /// Returns the minor version of the protocol.
    pub fn proto_minor(&self) -> (r: u32)
        ensures
            r == self@.minor,
    {
        self.out.minor
    }

    /// Returns the set of capability flags sent to the kernel driver.
    pub fn flags(&self) -> (r: CapabilityFlags)
        ensures
            r.spec_bits() == self@.flags & ALL_CAPABILITIES,
    {
        CapabilityFlags::from_bits_truncate(self.out.flags)
    }

    /// Returns whether the kernel supports zero-message opens: when it does,
    /// an `ENOSYS` reply to OPEN counts as success and no more OPEN requests
    /// are sent.
    pub fn no_open_support(&self) -> (r: bool)
        ensures
            r == (self@.flags & FUSE_NO_OPEN_SUPPORT != 0),
    {
        self.out.flags & FUSE_NO_OPEN_SUPPORT != 0
    }

    /// Returns whether the kernel supports zero-message opendirs.
    pub fn no_opendir_support(&self) -> (r: bool)
        ensures
            r == (self@.flags & FUSE_NO_OPENDIR_SUPPORT != 0),
    {
        self.out.flags & FUSE_NO_OPENDIR_SUPPORT != 0
    }

    /// Returns the maximum readahead.
    pub fn max_readahead(&self) -> (r: u32)
        ensures
            r == self@.max_readahead,
    {
        self.out.max_readahead
    }

    /// Returns the maximum size of the write buffer.
    pub fn max_write(&self) -> (r: u32)
        ensures
            r == self@.max_write,
    {
        self.out.max_write
    }

    /// Returns the maximum number of pending background requests.
    pub fn max_background(&self) -> (r: u16)
        ensures
            r == self@.max_background,
    {
        self.out.max_background
    }

    /// Returns the congestion threshold.
    pub fn congestion_threshold(&self) -> (r: u16)
        ensures
            r == self@.congestion_threshold,
    {
        self.out.congestion_threshold
    }

    /// Returns the timestamp granularity in nanoseconds.
    pub fn time_gran(&self) -> (r: u32)
        ensures
            r == self@.time_gran,
    {
        self.out.time_gran
    }

    /// Returns the maximum number of pages of a request, if it was negotiated.
    pub fn max_pages(&self) -> (r: Option<u16>)
        ensures
            r == (if self@.flags & FUSE_MAX_PAGES != 0 {
                Some(self@.max_pages)
            } else {
                None
            }),
    {
        if self.out.flags & FUSE_MAX_PAGES != 0 {
            Some(self.out.max_pages)
        } else {
            None
        }
    }
}

/// The number of pages that hold `max_write` bytes, at most 65535.
pub open spec fn pages_for(max_write: u32, pagesize: u32) -> u16 {
    let p = (max_write + pagesize - 1) / pagesize as int;
    if p > 65535 {
        65535
    } else {
        p as u16
    }
}

/// The smaller of two values.
pub open spec fn min_u32(a: u32, b: u32) -> u32 {
    if a <= b {
        a
    } else {
        b
    }
}

/// The INIT reply for configuration `c`, the kernel's offer `i` and the page size.
pub open spec fn negotiated(c: ConfigView, i: InitIn, pagesize: u32) -> InitOut {
    let max_pages_on = i.flags & FUSE_MAX_PAGES != 0;
    InitOut {
        major: FUSE_KERNEL_VERSION,
        minor: min_u32(FUSE_KERNEL_MINOR_VERSION, i.minor),
        max_readahead: min_u32(c.max_readahead, i.max_readahead),
        flags: (c.flags & (i.flags & ALL_CAPABILITIES)) | FUSE_BIG_WRITES | (if max_pages_on {
            FUSE_MAX_PAGES
        } else {
            0
        }),
        max_background: c.max_background,
        congestion_threshold: c.congestion_threshold,
        max_write: c.max_write,
        time_gran: c.time_gran,
        max_pages: if max_pages_on {
            pages_for(c.max_write, pagesize)
        } else {
            0
        },
    }
}

/// The INIT reply that only announces our version, for a kernel that offers a newer one.
pub open spec fn version_only() -> InitOut {
    InitOut {
        major: FUSE_KERNEL_VERSION,
        minor: FUSE_KERNEL_MINOR_VERSION,
        max_readahead: 0,
        flags: 0,
        max_background: 0,
        congestion_threshold: 0,
        max_write: 0,
        time_gran: 0,
        max_pages: 0,
    }
}

/// What the session remembers of the negotiation: the reply, with the
/// kernel's informational flags (those outside `ALL_CAPABILITIES`) added.
pub open spec fn connection_of(out: InitOut, i: InitIn) -> InitOut {
    InitOut { flags: out.flags | (i.flags & !ALL_CAPABILITIES), ..out }
}

/// The flags of a negotiated reply are among those the kernel offered, plus
/// BIG_WRITES and MAX_PAGES.
pub proof fn lemma_init_flags_within_offer(c: ConfigView, i: InitIn, pagesize: u32)
    ensures
        negotiated(c, i, pagesize).flags & !(i.flags | FUSE_BIG_WRITES | FUSE_MAX_PAGES) == 0,
        negotiated(c, i, pagesize).flags & FUSE_BIG_WRITES != 0,
{
    let f = negotiated(c, i, pagesize).flags;
    let a = c.flags;
    let b = i.flags;
    if b & FUSE_MAX_PAGES != 0 {
        assert(((a & (b & 0x1df45b)) | 0x20 | 0x400000) & !(b | 0x20 | 0x400000) == 0
            && ((a & (b & 0x1df45b)) | 0x20 | 0x400000) & 0x20 != 0) by (bit_vector);
    } else {
        assert(((a & (b & 0x1df45b)) | 0x20 | 0) & !(b | 0x20 | 0x400000) == 0
            && ((a & (b & 0x1df45b)) | 0x20 | 0) & 0x20 != 0) by (bit_vector);
    }
}

/// What to do with the request received during the handshake.
#[derive(Debug)]
pub enum InitStep {
    /// Send the frame and wait for the next request.
    Continue(Vec<u8>),
    /// Send the frame and give up: the kernel's protocol version is not supported.
    Refused(Vec<u8>),
    /// The INIT request lacks its argument.
    Malformed,
    /// Send the frame: the session is established.
    Established(Vec<u8>, Session),
}

/// The outcome of a handshake request, in plain values.
pub enum InitOutcome {
    /// Send these bytes and wait for the next request.
    Continue(Seq<u8>),
    /// Send these bytes and give up.
    Refused(Seq<u8>),
    /// The INIT request lacks its argument.
    Malformed,
    /// Send these bytes; the session starts in this state.
    Established(Seq<u8>, SessionView),
}

/// What the handshake does with a request whose header is `h` and argument
/// region is `s`, for configuration `c` and page size `pagesize`.
pub open spec fn init_outcome(
    c: ConfigView,
    h: InHeader,
    s: Seq<u8>,
    pagesize: u32,
) -> InitOutcome {
    if h.opcode != FUSE_INIT {
        InitOutcome::Continue(frame_bytes(h.unique, negated_errno(EIO), Seq::empty()))
    } else {
        match arg_of::<InitIn>(s) {
            None => InitOutcome::Malformed,
            Some(i) => if i.major > FUSE_KERNEL_VERSION {
                InitOutcome::Continue(frame_bytes(h.unique, 0, seq![encode(version_only())]))
            } else if i.major < FUSE_KERNEL_VERSION || i.minor < MINIMUM_SUPPORTED_MINOR_VERSION {
                InitOutcome::Refused(frame_bytes(h.unique, negated_errno(EPROTO), Seq::empty()))
            } else {
                InitOutcome::Established(
                    frame_bytes(h.unique, 0, seq![encode(negotiated(c, i, pagesize))]),
                    SessionView {
                        conn: connection_of(negotiated(c, i, pagesize), i),
                        bufsize: (BUFFER_HEADER_SIZE + c.max_write) as u64,
                        exited: false,
                        notify_unique: 0,
                        interrupts: InterruptState { waiting: Map::empty(), early: Set::empty() },
                    },
                )
            },
        }
    }
}

impl InitStep {
    /// The step in plain values.
    pub open spec fn outcome(&self) -> InitOutcome {
        match self {
            InitStep::Continue(f) => InitOutcome::Continue(f@),
            InitStep::Refused(f) => InitOutcome::Refused(f@),
            InitStep::Malformed => InitOutcome::Malformed,
            InitStep::Established(f, s) => InitOutcome::Established(f@, s@),
        }
    }
}

/// A successful reply carrying one payload of at most 64 bytes.
fn small_reply(unique: u64, payload: Vec<u8>) -> (r: Vec<u8>)
    requires
        payload@.len() <= 64,
    ensures
        r@ == frame_bytes(unique, 0, seq![payload@]),
{
    let segs = vec![payload];
    proof {
        assert(seg_views(segs@) =~= seq![payload@]);
        seq![payload@].lemma_flatten_one_element();
    }
    match reply_frame(unique, segs.as_slice()) {
        Ok(b) => b,
        Err(_) => Vec::new(),
    }
}

/// The smaller of two values.
fn min_of(a: u32, b: u32) -> (r: u32)
    ensures
        r == min_u32(a, b),
{
    if a <= b {
        a
    } else {
        b
    }
}

/// Handle one request of the handshake.
///
/// A request other than INIT is answered with `EIO`. An INIT whose major
/// version is newer than ours is answered with our version alone, and the
/// kernel retries. An INIT older than 7.23 is refused with `EPROTO`.
/// Otherwise the parameters are negotiated, and the session starts.
pub fn try_init(config: &Config, header: &InHeader, arg: &[u8], pagesize: u32) -> (r: InitStep)
    requires
        pagesize > 0,
        config.wf(),
    ensures
        r.outcome() == init_outcome(config@, *header, arg@, pagesize),
{
    if header.opcode != FUSE_INIT {
        return InitStep::Continue(error_frame(header.unique, EIO));
    }
    let mut d = Decoder::new(arg);
    let init_in = match d.fetch::<InitIn>() {
        Some(x) => x,
        None => return InitStep::Malformed,
    };
    if init_in.major > FUSE_KERNEL_VERSION {
        let out = InitOut {
            major: FUSE_KERNEL_VERSION,
            minor: FUSE_KERNEL_MINOR_VERSION,
            max_readahead: 0,
            flags: 0,
            max_background: 0,
            congestion_threshold: 0,
            max_write: 0,
            time_gran: 0,
            max_pages: 0,
        };
        proof {
            broadcast use lemma_layout_size_push;

            lemma_encode_len(out);
        }
        return InitStep::Continue(small_reply(header.unique, to_bytes(&out)));
    }
    if init_in.major < FUSE_KERNEL_VERSION || init_in.minor < MINIMUM_SUPPORTED_MINOR_VERSION {
        return InitStep::Refused(error_frame(header.unique, EPROTO));
    }
    let max_pages_on = init_in.flags & FUSE_MAX_PAGES != 0;
    let capable = CapabilityFlags::from_bits_truncate(init_in.flags);
    let granted = config.flags.bits() & capable.bits();
    let flags = granted | FUSE_BIG_WRITES | if max_pages_on {
        FUSE_MAX_PAGES
    } else {
        0
    };
    let max_pages: u16 = if max_pages_on {
        let pages: u64 = (config.max_write as u64 + pagesize as u64 - 1) / pagesize as u64;
        if pages > 65535 {
            65535
        } else {
            pages as u16
        }
    } else {
        0
    };
    let out = InitOut {
        major: FUSE_KERNEL_VERSION,
        minor: min_of(FUSE_KERNEL_MINOR_VERSION, init_in.minor),
        max_readahead: min_of(config.max_readahead, init_in.max_readahead),
        flags,
        max_background: config.max_background,
        congestion_threshold: config.congestion_threshold,
        max_write: config.max_write,
        time_gran: config.time_gran,
        max_pages,
    };
    proof {
        broadcast use lemma_layout_size_push;

        lemma_encode_len(out);
    }
    let frame = small_reply(header.unique, to_bytes(&out));
    let conn = ConnectionInfo {
        out: InitOut {
            major: out.major,
            minor: out.minor,
            max_readahead: out.max_readahead,
            flags: out.flags | (init_in.flags & !ALL_CAPABILITIES),
            max_background: out.max_background,
            congestion_threshold: out.congestion_threshold,
            max_write: out.max_write,
            time_gran: out.time_gran,
            max_pages: out.max_pages,
        },
    };
    let session = Session::new(conn, BUFFER_HEADER_SIZE as u64 + config.max_write as u64);
    InitStep::Established(frame, session)
}

/// How many requests the handshake reads at most before giving up.
pub const MAX_INIT_ATTEMPTS: u32 = 10;

/// Why a handshake failed.
#[derive(Clone, Copy, Debug, PartialEq, Eq, Structural)]
pub enum InitError {
    /// A message shorter than a request header was read.
    TooShort,
    /// The kernel's protocol version is not supported.
    Refused,
    /// The INIT request lacks its argument.
    Malformed,
    /// No acceptable INIT arrived within `MAX_INIT_ATTEMPTS` requests.
    Aborted,
}

/// What the reader of the handshake is to do next.
#[derive(Debug)]
pub enum HandshakeStep {
    /// Send the frame and read the next request.
    Continue(Vec<u8>),
    /// Send the frame, if any, and give up.
    Fail(Option<Vec<u8>>, InitError),
    /// Send the frame: the session is established.
    Done(Vec<u8>, Session),
}

/// The INIT handshake: the number of requests read so far.
#[derive(Clone, Copy, Debug)]
pub struct Handshake {
    attempts: u32,
}

impl Handshake {
    /// The number of requests handled so far.
    pub closed spec fn spec_attempts(&self) -> u32 {
        self.attempts
    }

    /// A handshake that has read nothing yet.
    pub fn new() -> (r: Self)
        ensures
            r.spec_attempts() == 0,
    {
        Handshake { attempts: 0 }
    }

    /// Handle one message read from the kernel channel during the handshake.
    ///
    /// A message shorter than a request header fails the handshake. Any other
    /// is handled by `try_init`; once `MAX_INIT_ATTEMPTS` messages were
    /// handled without establishing the session, the handshake is aborted.
    pub fn step(&mut self, config: &Config, message: &[u8], pagesize: u32) -> (r: HandshakeStep)
        requires
            pagesize > 0,
            config.wf(),
        ensures
            old(self).spec_attempts() >= MAX_INIT_ATTEMPTS ==> (r matches HandshakeStep::Fail(
                None,
                e,
            ) && e == InitError::Aborted),
            old(self).spec_attempts() < MAX_INIT_ATTEMPTS && message@.len() < IN_HEADER_SIZE ==> (
            r matches HandshakeStep::Fail(None, e) && e == InitError::TooShort),
            old(self).spec_attempts() < MAX_INIT_ATTEMPTS && message@.len() >= IN_HEADER_SIZE ==> {
                let h = arg_of::<InHeader>(message@).unwrap();
                let o = init_outcome(config@, h, message@.skip(IN_HEADER_SIZE as int), pagesize);
                &&& final(self).spec_attempts() == old(self).spec_attempts() + 1
                &&& match o {
                    InitOutcome::Continue(f) => if final(self).spec_attempts() < MAX_INIT_ATTEMPTS {
                        r matches HandshakeStep::Continue(g) && g@ == f
                    } else {
                        r matches HandshakeStep::Fail(Some(g), e) && g@ == f && e
                            == InitError::Aborted
                    },
                    InitOutcome::Refused(f) => r matches HandshakeStep::Fail(Some(g), e) && g@ == f
                        && e == InitError::Refused,
                    InitOutcome::Malformed => r matches HandshakeStep::Fail(None, e) && e
                        == InitError::Malformed,
                    InitOutcome::Established(f, v) => r matches HandshakeStep::Done(g, t) && g@ == f
                        && t@ == v,
                }
            },
    {
        if self.attempts >= MAX_INIT_ATTEMPTS {
            return HandshakeStep::Fail(None, InitError::Aborted);
        }
        let request = match Request::from_bytes(message) {
            Some(r) => r,
            None => return HandshakeStep::Fail(None, InitError::TooShort),
        };
        self.attempts = self.attempts + 1;
        match try_init(config, &request.header(), request.arg(), pagesize) {
            InitStep::Continue(frame) => {
                if self.attempts >= MAX_INIT_ATTEMPTS {
                    HandshakeStep::Fail(Some(frame), InitError::Aborted)
                } else {
                    HandshakeStep::Continue(frame)
                }
            },
            InitStep::Refused(frame) => HandshakeStep::Fail(Some(frame), InitError::Refused),
            InitStep::Malformed => HandshakeStep::Fail(None, InitError::Malformed),
            InitStep::Established(frame, session) => HandshakeStep::Done(frame, session),
        }
    }
}

/// An INIT offering major version 7 and minor 23 or later establishes the
/// session. The reply is a success header echoing the request's unique id,
/// followed by an INIT reply with major 7, the smaller of both minors, the
/// smaller readahead, and flags among those offered plus BIG_WRITES and
/// MAX_PAGES.
pub proof fn lemma_init_handshake(c: ConfigView, h: InHeader, s: Seq<u8>, pagesize: u32)
    requires
        h.opcode == FUSE_INIT,
        arg_of::<InitIn>(s) matches Some(i) && i.major == 7 && i.minor >= 23,
    ensures
        ({
            let i = arg_of::<InitIn>(s).unwrap();
            let o = negotiated(c, i, pagesize);
            &&& init_outcome(c, h, s, pagesize) matches InitOutcome::Established(f, v) && f
                == frame_bytes(h.unique, 0, seq![encode(o)]) && f.len() == 80 && !v.exited
                && v.conn.major == o.major && v.conn.minor == o.minor
            &&& o.major == 7
            &&& o.minor == min_u32(FUSE_KERNEL_MINOR_VERSION, i.minor)
            &&& o.max_readahead == min_u32(c.max_readahead, i.max_readahead)
            &&& o.flags & !(i.flags | FUSE_BIG_WRITES | FUSE_MAX_PAGES) == 0
            &&& o.flags & FUSE_BIG_WRITES != 0
            &&& c.flags & !ALL_CAPABILITIES == 0 ==> o.flags == (c.flags & i.flags)
                | FUSE_BIG_WRITES | (i.flags & FUSE_MAX_PAGES)
        }),
{
    broadcast use lemma_layout_size_push;

    let i = arg_of::<InitIn>(s).unwrap();
    let o = negotiated(c, i, pagesize);
    lemma_init_flags_within_offer(c, i, pagesize);
    lemma_encode_len(o);
    lemma_encode_len(OutHeader { len: 80, error: 0, unique: h.unique });
    seq![encode(o)].lemma_flatten_one_element();
    let a = c.flags;
    let b = i.flags;
    assert(a & !0x1df45bu32 == 0 ==> ((a & (b & 0x1df45b)) | 0x20 | (if b & 0x400000 != 0 {
        0x400000u32
    } else {
        0u32
    })) == (a & b) | 0x20 | (b & 0x400000)) by (bit_vector);
}

/// A kernel offering a newer major version is answered with our version and
/// no session yet; one offering major 6, or 7 with a minor below 23, is
/// refused with `EPROTO`.
pub proof fn lemma_version_negotiation(c: ConfigView, h: InHeader, s: Seq<u8>, pagesize: u32)
    requires
        h.opcode == FUSE_INIT,
        arg_of::<InitIn>(s) is Some,
    ensures
        ({
            let i = arg_of::<InitIn>(s).unwrap();
            &&& i.major == 8 ==> init_outcome(c, h, s, pagesize) == InitOutcome::Continue(
                frame_bytes(h.unique, 0, seq![encode(version_only())]),
            )
            &&& (i.major == 6 || (i.major == 7 && i.minor < 23)) ==> init_outcome(c, h, s, pagesize)
                == InitOutcome::Refused(frame_bytes(h.unique, -71i32, Seq::empty()))
        }),
{
}

} // verus!
