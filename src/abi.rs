//! Byte layouts and constants of the FUSE kernel ABI (protocol 7.31).
//!
//! All scalars are little-endian. Each fixed block implements [`Wire`], which
//! gives its field layout; the decoder reads blocks by it and the framer
//! writes them by it.
use crate::decoder::Wire;
use crate::wire::{valid_layout, valid_width};
use vstd::prelude::*;

verus! {

/// Major version of the protocol spoken here.
pub const FUSE_KERNEL_VERSION: u32 = 7;
/// Minor version of the protocol spoken here.
pub const FUSE_KERNEL_MINOR_VERSION: u32 = 31;
/// Oldest minor version that a session accepts.
pub const MINIMUM_SUPPORTED_MINOR_VERSION: u32 = 23;

/// Size of a request header.
pub const IN_HEADER_SIZE: usize = 40;
/// Size of a reply or notification header.
pub const OUT_HEADER_SIZE: usize = 16;

// Request opcodes.
pub const FUSE_LOOKUP: u32 = 1;
pub const FUSE_FORGET: u32 = 2;
pub const FUSE_GETATTR: u32 = 3;
pub const FUSE_SETATTR: u32 = 4;
pub const FUSE_READLINK: u32 = 5;
pub const FUSE_SYMLINK: u32 = 6;
pub const FUSE_MKNOD: u32 = 8;
pub const FUSE_MKDIR: u32 = 9;
pub const FUSE_UNLINK: u32 = 10;
pub const FUSE_RMDIR: u32 = 11;
pub const FUSE_RENAME: u32 = 12;
pub const FUSE_LINK: u32 = 13;
pub const FUSE_OPEN: u32 = 14;
pub const FUSE_READ: u32 = 15;
pub const FUSE_WRITE: u32 = 16;
pub const FUSE_STATFS: u32 = 17;
pub const FUSE_RELEASE: u32 = 18;
pub const FUSE_FSYNC: u32 = 20;
pub const FUSE_SETXATTR: u32 = 21;
pub const FUSE_GETXATTR: u32 = 22;
pub const FUSE_LISTXATTR: u32 = 23;
pub const FUSE_REMOVEXATTR: u32 = 24;
pub const FUSE_FLUSH: u32 = 25;
pub const FUSE_INIT: u32 = 26;
pub const FUSE_OPENDIR: u32 = 27;
pub const FUSE_READDIR: u32 = 28;
pub const FUSE_RELEASEDIR: u32 = 29;
pub const FUSE_FSYNCDIR: u32 = 30;
pub const FUSE_GETLK: u32 = 31;
pub const FUSE_SETLK: u32 = 32;
pub const FUSE_SETLKW: u32 = 33;
pub const FUSE_ACCESS: u32 = 34;
pub const FUSE_CREATE: u32 = 35;
pub const FUSE_INTERRUPT: u32 = 36;
pub const FUSE_BMAP: u32 = 37;
pub const FUSE_DESTROY: u32 = 38;
pub const FUSE_IOCTL: u32 = 39;
pub const FUSE_POLL: u32 = 40;
pub const FUSE_NOTIFY_REPLY: u32 = 41;
pub const FUSE_BATCH_FORGET: u32 = 42;
pub const FUSE_FALLOCATE: u32 = 43;
pub const FUSE_READDIRPLUS: u32 = 44;
pub const FUSE_RENAME2: u32 = 45;
pub const FUSE_LSEEK: u32 = 46;
pub const FUSE_COPY_FILE_RANGE: u32 = 47;

// Notification codes.
pub const FUSE_NOTIFY_POLL: i32 = 1;
pub const FUSE_NOTIFY_INVAL_INODE: i32 = 2;
pub const FUSE_NOTIFY_INVAL_ENTRY: i32 = 3;
pub const FUSE_NOTIFY_STORE: i32 = 4;
pub const FUSE_NOTIFY_RETRIEVE: i32 = 5;
pub const FUSE_NOTIFY_DELETE: i32 = 6;

// Capability bits of the INIT flags.
pub const FUSE_ASYNC_READ: u32 = 0x1;
pub const FUSE_POSIX_LOCKS: u32 = 0x2;
pub const FUSE_FILE_OPS: u32 = 0x4;
pub const FUSE_ATOMIC_O_TRUNC: u32 = 0x8;
pub const FUSE_EXPORT_SUPPORT: u32 = 0x10;
pub const FUSE_BIG_WRITES: u32 = 0x20;
pub const FUSE_DONT_MASK: u32 = 0x40;
pub const FUSE_SPLICE_WRITE: u32 = 0x80;
pub const FUSE_SPLICE_MOVE: u32 = 0x100;
pub const FUSE_SPLICE_READ: u32 = 0x200;
pub const FUSE_FLOCK_LOCKS: u32 = 0x400;
pub const FUSE_HAS_IOCTL_DIR: u32 = 0x800;
pub const FUSE_AUTO_INVAL_DATA: u32 = 0x1000;
pub const FUSE_DO_READDIRPLUS: u32 = 0x2000;
pub const FUSE_READDIRPLUS_AUTO: u32 = 0x4000;
pub const FUSE_ASYNC_DIO: u32 = 0x8000;
pub const FUSE_WRITEBACK_CACHE: u32 = 0x10000;
pub const FUSE_NO_OPEN_SUPPORT: u32 = 0x20000;
pub const FUSE_PARALLEL_DIROPS: u32 = 0x40000;
pub const FUSE_HANDLE_KILLPRIV: u32 = 0x80000;
pub const FUSE_POSIX_ACL: u32 = 0x100000;
pub const FUSE_ABORT_ERROR: u32 = 0x200000;
pub const FUSE_MAX_PAGES: u32 = 0x400000;
pub const FUSE_CACHE_SYMLINKS: u32 = 0x800000;
pub const FUSE_NO_OPENDIR_SUPPORT: u32 = 0x1000000;

// Bits of `SetattrIn::valid`.
pub const FATTR_MODE: u32 = 0x1;
pub const FATTR_UID: u32 = 0x2;
pub const FATTR_GID: u32 = 0x4;
pub const FATTR_SIZE: u32 = 0x8;
pub const FATTR_ATIME: u32 = 0x10;
pub const FATTR_MTIME: u32 = 0x20;
pub const FATTR_FH: u32 = 0x40;
pub const FATTR_ATIME_NOW: u32 = 0x80;
pub const FATTR_MTIME_NOW: u32 = 0x100;
pub const FATTR_LOCKOWNER: u32 = 0x200;
pub const FATTR_CTIME: u32 = 0x400;

// Other flag bits of request arguments.
pub const FUSE_GETATTR_FH: u32 = 0x1;
pub const FUSE_READ_LOCKOWNER: u32 = 0x2;
pub const FUSE_WRITE_LOCKOWNER: u32 = 0x2;
pub const FUSE_RELEASE_FLUSH: u32 = 0x1;
pub const FUSE_RELEASE_FLOCK_UNLOCK: u32 = 0x2;
pub const FUSE_FSYNC_FDATASYNC: u32 = 0x1;
pub const FUSE_LK_FLOCK: u32 = 0x1;
pub const FUSE_POLL_SCHEDULE_NOTIFY: u32 = 0x1;

// Lock types of `LkIn::typ` and `flock(2)` operations (Linux values).
pub const F_RDLCK: u32 = 0;
pub const F_WRLCK: u32 = 1;
pub const F_UNLCK: u32 = 2;
pub const LOCK_SH: u32 = 1;
pub const LOCK_EX: u32 = 2;
pub const LOCK_NB: u32 = 4;
pub const LOCK_UN: u32 = 8;

// Error numbers used by the protocol engine (Linux values).
pub const ENOENT: i32 = 2;
pub const EINTR: i32 = 4;
pub const EIO: i32 = 5;
pub const ENODEV: i32 = 19;
pub const ENOSYS: i32 = 38;
pub const EPROTO: i32 = 71;

/// Header of every request.
///
/// 40 bytes on the wire.
#[derive(Clone, Copy, Debug, PartialEq, Eq, Structural)]
pub struct InHeader {
    pub len: u32,
    pub opcode: u32,
    pub unique: u64,
    pub nodeid: u64,
    pub uid: u32,
    pub gid: u32,
    pub pid: u32,
}

impl Wire for InHeader {
    open spec fn layout() -> Seq<u8> {
        Seq::empty()
            .push(4u8)
            .push(4u8)
            .push(8u8)
            .push(8u8)
            .push(4u8)
            .push(4u8)
            .push(4u8)
            .push(4u8)
    }

    open spec fn from_cells(v: Seq<u64>) -> Self {
        InHeader {
            len: v[0] as u32,
            opcode: v[1] as u32,
            unique: v[2],
            nodeid: v[3],
            uid: v[4] as u32,
            gid: v[5] as u32,
            pid: v[6] as u32,
        }
    }

    open spec fn cells(&self) -> Seq<u64> {
        seq![
            self.len as u64,
            self.opcode as u64,
            self.unique,
            self.nodeid,
            self.uid as u64,
            self.gid as u64,
            self.pid as u64,
            0u64,
        ]
    }

    proof fn lemma_wire() {
        let l = Self::layout();
        assert(valid_layout(l)) by {
            assert forall|i: int| 0 <= i < l.len() implies valid_width(#[trigger] l[i]) by {
                assert(l[0] == 4);
                assert(l[1] == 4);
                assert(l[2] == 8);
                assert(l[3] == 8);
                assert(l[4] == 4);
                assert(l[5] == 4);
                assert(l[6] == 4);
                assert(l[7] == 4);
            }
        }
    }

    fn layout_exec() -> (r: Vec<u8>) {
        let r = vec![4u8, 4u8, 8u8, 8u8, 4u8, 4u8, 4u8, 4u8];
        assert(r@ =~= Self::layout());
        r
    }

    fn from_fields(v: &[u64]) -> (r: Self) {
        InHeader {
            len: v[0] as u32,
            opcode: v[1] as u32,
            unique: v[2],
            nodeid: v[3],
            uid: v[4] as u32,
            gid: v[5] as u32,
            pid: v[6] as u32,
        }
    }

    fn to_fields(&self) -> (r: Vec<u64>) {
        let r = vec![
                    self.len as u64,
                    self.opcode as u64,
                    self.unique,
                    self.nodeid,
                    self.uid as u64,
                    self.gid as u64,
                    self.pid as u64,
                    0u64,
                ];
        assert(r@ =~= self.cells());
        r
    }
}

/// Header of every reply and notification.
///
/// 16 bytes on the wire.
#[derive(Clone, Copy, Debug, PartialEq, Eq, Structural)]
pub struct OutHeader {
    pub len: u32,
    pub error: i32,
    pub unique: u64,
}

impl Wire for OutHeader {
    open spec fn layout() -> Seq<u8> {
        Seq::empty().push(4u8).push(4u8).push(8u8)
    }

    open spec fn from_cells(v: Seq<u64>) -> Self {
        OutHeader { len: v[0] as u32, error: v[1] as u32 as i32, unique: v[2] }
    }

    open spec fn cells(&self) -> Seq<u64> {
        seq![self.len as u64, self.error as u32 as u64, self.unique]
    }

    proof fn lemma_wire() {
        let l = Self::layout();
        assert(valid_layout(l)) by {
            assert forall|i: int| 0 <= i < l.len() implies valid_width(#[trigger] l[i]) by {
                assert(l[0] == 4);
                assert(l[1] == 4);
                assert(l[2] == 8);
            }
        }
        assert forall|e: i32| #[trigger] ((e as u32 as u64) as u32 as i32) == e by {
            assert((e as u32 as u64) as u32 as i32 == e) by (bit_vector);
        }
    }

    fn layout_exec() -> (r: Vec<u8>) {
        let r = vec![4u8, 4u8, 8u8];
        assert(r@ =~= Self::layout());
        r
    }

    fn from_fields(v: &[u64]) -> (r: Self) {
        OutHeader { len: v[0] as u32, error: v[1] as u32 as i32, unique: v[2] }
    }

    fn to_fields(&self) -> (r: Vec<u64>) {
        let r = vec![self.len as u64, self.error as u32 as u64, self.unique];
        assert(r@ =~= self.cells());
        r
    }
}

/// Argument of INIT: the kernel's offer.
///
/// 16 bytes on the wire.
#[derive(Clone, Copy, Debug, PartialEq, Eq, Structural)]
pub struct InitIn {
    pub major: u32,
    pub minor: u32,
    pub max_readahead: u32,
    pub flags: u32,
}

impl Wire for InitIn {
    open spec fn layout() -> Seq<u8> {
        Seq::empty().push(4u8).push(4u8).push(4u8).push(4u8)
    }

    open spec fn from_cells(v: Seq<u64>) -> Self {
        InitIn {
            major: v[0] as u32,
            minor: v[1] as u32,
            max_readahead: v[2] as u32,
            flags: v[3] as u32,
        }
    }

    open spec fn cells(&self) -> Seq<u64> {
        seq![self.major as u64, self.minor as u64, self.max_readahead as u64, self.flags as u64]
    }

    proof fn lemma_wire() {
        let l = Self::layout();
        assert(valid_layout(l)) by {
            assert forall|i: int| 0 <= i < l.len() implies valid_width(#[trigger] l[i]) by {
                assert(l[0] == 4);
                assert(l[1] == 4);
                assert(l[2] == 4);
                assert(l[3] == 4);
            }
        }
    }

    fn layout_exec() -> (r: Vec<u8>) {
        let r = vec![4u8, 4u8, 4u8, 4u8];
        assert(r@ =~= Self::layout());
        r
    }

    fn from_fields(v: &[u64]) -> (r: Self) {
        InitIn {
            major: v[0] as u32,
            minor: v[1] as u32,
            max_readahead: v[2] as u32,
            flags: v[3] as u32,
        }
    }

    fn to_fields(&self) -> (r: Vec<u64>) {
        let r = vec![
                    self.major as u64,
                    self.minor as u64,
                    self.max_readahead as u64,
                    self.flags as u64,
                ];
        assert(r@ =~= self.cells());
        r
    }
}

/// Reply to INIT: the negotiated parameters.
///
/// 64 bytes on the wire.
#[derive(Clone, Copy, Debug, PartialEq, Eq, Structural)]
pub struct InitOut {
    pub major: u32,
    pub minor: u32,
    pub max_readahead: u32,
    pub flags: u32,
    pub max_background: u16,
    pub congestion_threshold: u16,
    pub max_write: u32,
    pub time_gran: u32,
    pub max_pages: u16,
}

impl Wire for InitOut {
    open spec fn layout() -> Seq<u8> {
        Seq::empty()
            .push(4u8)
            .push(4u8)
            .push(4u8)
            .push(4u8)
            .push(2u8)
            .push(2u8)
            .push(4u8)
            .push(4u8)
            .push(2u8)
            .push(2u8)
            .push(4u8)
            .push(4u8)
            .push(4u8)
            .push(4u8)
            .push(4u8)
            .push(4u8)
            .push(4u8)
            .push(4u8)
    }

    open spec fn from_cells(v: Seq<u64>) -> Self {
        InitOut {
            major: v[0] as u32,
            minor: v[1] as u32,
            max_readahead: v[2] as u32,
            flags: v[3] as u32,
            max_background: v[4] as u16,
            congestion_threshold: v[5] as u16,
            max_write: v[6] as u32,
            time_gran: v[7] as u32,
            max_pages: v[8] as u16,
        }
    }

    open spec fn cells(&self) -> Seq<u64> {
        seq![
            self.major as u64,
            self.minor as u64,
            self.max_readahead as u64,
            self.flags as u64,
            self.max_background as u64,
            self.congestion_threshold as u64,
            self.max_write as u64,
            self.time_gran as u64,
            self.max_pages as u64,
            0u64,
            0u64,
            0u64,
            0u64,
            0u64,
            0u64,
            0u64,
            0u64,
            0u64,
        ]
    }

    proof fn lemma_wire() {
        let l = Self::layout();
        assert(valid_layout(l)) by {
            assert forall|i: int| 0 <= i < l.len() implies valid_width(#[trigger] l[i]) by {
                assert(l[0] == 4);
                assert(l[1] == 4);
                assert(l[2] == 4);
                assert(l[3] == 4);
                assert(l[4] == 2);
                assert(l[5] == 2);
                assert(l[6] == 4);
                assert(l[7] == 4);
                assert(l[8] == 2);
                assert(l[9] == 2);
                assert(l[10] == 4);
                assert(l[11] == 4);
                assert(l[12] == 4);
                assert(l[13] == 4);
                assert(l[14] == 4);
                assert(l[15] == 4);
                assert(l[16] == 4);
                assert(l[17] == 4);
            }
        }
    }

    fn layout_exec() -> (r: Vec<u8>) {
        let r = vec![
                    4u8,
                    4u8,
                    4u8,
                    4u8,
                    2u8,
                    2u8,
                    4u8,
                    4u8,
                    2u8,
                    2u8,
                    4u8,
                    4u8,
                    4u8,
                    4u8,
                    4u8,
                    4u8,
                    4u8,
                    4u8,
                ];
        assert(r@ =~= Self::layout());
        r
    }

    fn from_fields(v: &[u64]) -> (r: Self) {
        InitOut {
            major: v[0] as u32,
            minor: v[1] as u32,
            max_readahead: v[2] as u32,
            flags: v[3] as u32,
            max_background: v[4] as u16,
            congestion_threshold: v[5] as u16,
            max_write: v[6] as u32,
            time_gran: v[7] as u32,
            max_pages: v[8] as u16,
        }
    }

    fn to_fields(&self) -> (r: Vec<u64>) {
        let r = vec![
                    self.major as u64,
                    self.minor as u64,
                    self.max_readahead as u64,
                    self.flags as u64,
                    self.max_background as u64,
                    self.congestion_threshold as u64,
                    self.max_write as u64,
                    self.time_gran as u64,
                    self.max_pages as u64,
                    0u64,
                    0u64,
                    0u64,
                    0u64,
                    0u64,
                    0u64,
                    0u64,
                    0u64,
                    0u64,
                ];
        assert(r@ =~= self.cells());
        r
    }
}

/// Argument of FORGET.
///
/// 8 bytes on the wire.
#[derive(Clone, Copy, Debug, PartialEq, Eq, Structural)]
pub struct ForgetIn {
    pub nlookup: u64,
}

impl Wire for ForgetIn {
    open spec fn layout() -> Seq<u8> {
        Seq::empty().push(8u8)
    }

    open spec fn from_cells(v: Seq<u64>) -> Self {
        ForgetIn { nlookup: v[0] }
    }

    open spec fn cells(&self) -> Seq<u64> {
        seq![self.nlookup]
    }

    proof fn lemma_wire() {
        let l = Self::layout();
        assert(valid_layout(l)) by {
            assert forall|i: int| 0 <= i < l.len() implies valid_width(#[trigger] l[i]) by {
                assert(l[0] == 8);
            }
        }
    }

    fn layout_exec() -> (r: Vec<u8>) {
        let r = vec![8u8];
        assert(r@ =~= Self::layout());
        r
    }

    fn from_fields(v: &[u64]) -> (r: Self) {
        ForgetIn { nlookup: v[0] }
    }

    fn to_fields(&self) -> (r: Vec<u64>) {
        let r = vec![self.nlookup];
        assert(r@ =~= self.cells());
        r
    }
}

/// Argument of BATCH_FORGET; `count` entries follow.
///
/// 8 bytes on the wire.
#[derive(Clone, Copy, Debug, PartialEq, Eq, Structural)]
pub struct BatchForgetIn {
    pub count: u32,
}

impl Wire for BatchForgetIn {
    open spec fn layout() -> Seq<u8> {
        Seq::empty().push(4u8).push(4u8)
    }

    open spec fn from_cells(v: Seq<u64>) -> Self {
        BatchForgetIn { count: v[0] as u32 }
    }

    open spec fn cells(&self) -> Seq<u64> {
        seq![self.count as u64, 0u64]
    }

    proof fn lemma_wire() {
        let l = Self::layout();
        assert(valid_layout(l)) by {
            assert forall|i: int| 0 <= i < l.len() implies valid_width(#[trigger] l[i]) by {
                assert(l[0] == 4);
                assert(l[1] == 4);
            }
        }
    }

    fn layout_exec() -> (r: Vec<u8>) {
        let r = vec![4u8, 4u8];
        assert(r@ =~= Self::layout());
        r
    }

    fn from_fields(v: &[u64]) -> (r: Self) {
        BatchForgetIn { count: v[0] as u32 }
    }

    fn to_fields(&self) -> (r: Vec<u64>) {
        let r = vec![self.count as u64, 0u64];
        assert(r@ =~= self.cells());
        r
    }
}

/// One entry of BATCH_FORGET.
///
/// 16 bytes on the wire.
#[derive(Clone, Copy, Debug, PartialEq, Eq, Structural)]
pub struct ForgetOne {
    pub nodeid: u64,
    pub nlookup: u64,
}

impl Wire for ForgetOne {
    open spec fn layout() -> Seq<u8> {
        Seq::empty().push(8u8).push(8u8)
    }

    open spec fn from_cells(v: Seq<u64>) -> Self {
        ForgetOne { nodeid: v[0], nlookup: v[1] }
    }

    open spec fn cells(&self) -> Seq<u64> {
        seq![self.nodeid, self.nlookup]
    }

    proof fn lemma_wire() {
        let l = Self::layout();
        assert(valid_layout(l)) by {
            assert forall|i: int| 0 <= i < l.len() implies valid_width(#[trigger] l[i]) by {
                assert(l[0] == 8);
                assert(l[1] == 8);
            }
        }
    }

    fn layout_exec() -> (r: Vec<u8>) {
        let r = vec![8u8, 8u8];
        assert(r@ =~= Self::layout());
        r
    }

    fn from_fields(v: &[u64]) -> (r: Self) {
        ForgetOne { nodeid: v[0], nlookup: v[1] }
    }

    fn to_fields(&self) -> (r: Vec<u64>) {
        let r = vec![self.nodeid, self.nlookup];
        assert(r@ =~= self.cells());
        r
    }
}

/// Argument of GETATTR.
///
/// 16 bytes on the wire.
#[derive(Clone, Copy, Debug, PartialEq, Eq, Structural)]
pub struct GetattrIn {
    pub getattr_flags: u32,
    pub fh: u64,
}

impl Wire for GetattrIn {
    open spec fn layout() -> Seq<u8> {
        Seq::empty().push(4u8).push(4u8).push(8u8)
    }

    open spec fn from_cells(v: Seq<u64>) -> Self {
        GetattrIn { getattr_flags: v[0] as u32, fh: v[2] }
    }

    open spec fn cells(&self) -> Seq<u64> {
        seq![self.getattr_flags as u64, 0u64, self.fh]
    }

    proof fn lemma_wire() {
        let l = Self::layout();
        assert(valid_layout(l)) by {
            assert forall|i: int| 0 <= i < l.len() implies valid_width(#[trigger] l[i]) by {
                assert(l[0] == 4);
                assert(l[1] == 4);
                assert(l[2] == 8);
            }
        }
    }

    fn layout_exec() -> (r: Vec<u8>) {
        let r = vec![4u8, 4u8, 8u8];
        assert(r@ =~= Self::layout());
        r
    }

    fn from_fields(v: &[u64]) -> (r: Self) {
        GetattrIn { getattr_flags: v[0] as u32, fh: v[2] }
    }

    fn to_fields(&self) -> (r: Vec<u64>) {
        let r = vec![self.getattr_flags as u64, 0u64, self.fh];
        assert(r@ =~= self.cells());
        r
    }
}

/// Argument of SETATTR.
///
/// 88 bytes on the wire.
#[derive(Clone, Copy, Debug, PartialEq, Eq, Structural)]
pub struct SetattrIn {
    pub valid: u32,
    pub fh: u64,
    pub size: u64,
    pub lock_owner: u64,
    pub atime: u64,
    pub mtime: u64,
    pub ctime: u64,
    pub atimensec: u32,
    pub mtimensec: u32,
    pub ctimensec: u32,
    pub mode: u32,
    pub uid: u32,
    pub gid: u32,
}

impl Wire for SetattrIn {
    open spec fn layout() -> Seq<u8> {
        Seq::empty()
            .push(4u8)
            .push(4u8)
            .push(8u8)
            .push(8u8)
            .push(8u8)
            .push(8u8)
            .push(8u8)
            .push(8u8)
            .push(4u8)
            .push(4u8)
            .push(4u8)
            .push(4u8)
            .push(4u8)
            .push(4u8)
            .push(4u8)
            .push(4u8)
    }

    open spec fn from_cells(v: Seq<u64>) -> Self {
        SetattrIn {
            valid: v[0] as u32,
            fh: v[2],
            size: v[3],
            lock_owner: v[4],
            atime: v[5],
            mtime: v[6],
            ctime: v[7],
            atimensec: v[8] as u32,
            mtimensec: v[9] as u32,
            ctimensec: v[10] as u32,
            mode: v[11] as u32,
            uid: v[13] as u32,
            gid: v[14] as u32,
        }
    }

    open spec fn cells(&self) -> Seq<u64> {
        seq![
            self.valid as u64,
            0u64,
            self.fh,
            self.size,
            self.lock_owner,
            self.atime,
            self.mtime,
            self.ctime,
            self.atimensec as u64,
            self.mtimensec as u64,
            self.ctimensec as u64,
            self.mode as u64,
            0u64,
            self.uid as u64,
            self.gid as u64,
            0u64,
        ]
    }

    proof fn lemma_wire() {
        let l = Self::layout();
        assert(valid_layout(l)) by {
            assert forall|i: int| 0 <= i < l.len() implies valid_width(#[trigger] l[i]) by {
                assert(l[0] == 4);
                assert(l[1] == 4);
                assert(l[2] == 8);
                assert(l[3] == 8);
                assert(l[4] == 8);
                assert(l[5] == 8);
                assert(l[6] == 8);
                assert(l[7] == 8);
                assert(l[8] == 4);
                assert(l[9] == 4);
                assert(l[10] == 4);
                assert(l[11] == 4);
                assert(l[12] == 4);
                assert(l[13] == 4);
                assert(l[14] == 4);
                assert(l[15] == 4);
            }
        }
    }

    fn layout_exec() -> (r: Vec<u8>) {
        let r = vec![
                    4u8,
                    4u8,
                    8u8,
                    8u8,
                    8u8,
                    8u8,
                    8u8,
                    8u8,
                    4u8,
                    4u8,
                    4u8,
                    4u8,
                    4u8,
                    4u8,
                    4u8,
                    4u8,
                ];
        assert(r@ =~= Self::layout());
        r
    }

    fn from_fields(v: &[u64]) -> (r: Self) {
        SetattrIn {
            valid: v[0] as u32,
            fh: v[2],
            size: v[3],
            lock_owner: v[4],
            atime: v[5],
            mtime: v[6],
            ctime: v[7],
            atimensec: v[8] as u32,
            mtimensec: v[9] as u32,
            ctimensec: v[10] as u32,
            mode: v[11] as u32,
            uid: v[13] as u32,
            gid: v[14] as u32,
        }
    }

    fn to_fields(&self) -> (r: Vec<u64>) {
        let r = vec![
                    self.valid as u64,
                    0u64,
                    self.fh,
                    self.size,
                    self.lock_owner,
                    self.atime,
                    self.mtime,
                    self.ctime,
                    self.atimensec as u64,
                    self.mtimensec as u64,
                    self.ctimensec as u64,
                    self.mode as u64,
                    0u64,
                    self.uid as u64,
                    self.gid as u64,
                    0u64,
                ];
        assert(r@ =~= self.cells());
        r
    }
}

/// Argument of MKNOD; a name follows.
///
/// 16 bytes on the wire.
#[derive(Clone, Copy, Debug, PartialEq, Eq, Structural)]
pub struct MknodIn {
    pub mode: u32,
    pub rdev: u32,
    pub umask: u32,
}

impl Wire for MknodIn {
    open spec fn layout() -> Seq<u8> {
        Seq::empty().push(4u8).push(4u8).push(4u8).push(4u8)
    }

    open spec fn from_cells(v: Seq<u64>) -> Self {
        MknodIn { mode: v[0] as u32, rdev: v[1] as u32, umask: v[2] as u32 }
    }

    open spec fn cells(&self) -> Seq<u64> {
        seq![self.mode as u64, self.rdev as u64, self.umask as u64, 0u64]
    }

    proof fn lemma_wire() {
        let l = Self::layout();
        assert(valid_layout(l)) by {
            assert forall|i: int| 0 <= i < l.len() implies valid_width(#[trigger] l[i]) by {
                assert(l[0] == 4);
                assert(l[1] == 4);
                assert(l[2] == 4);
                assert(l[3] == 4);
            }
        }
    }

    fn layout_exec() -> (r: Vec<u8>) {
        let r = vec![4u8, 4u8, 4u8, 4u8];
        assert(r@ =~= Self::layout());
        r
    }

    fn from_fields(v: &[u64]) -> (r: Self) {
        MknodIn { mode: v[0] as u32, rdev: v[1] as u32, umask: v[2] as u32 }
    }

    fn to_fields(&self) -> (r: Vec<u64>) {
        let r = vec![self.mode as u64, self.rdev as u64, self.umask as u64, 0u64];
        assert(r@ =~= self.cells());
        r
    }
}

/// Argument of MKDIR; a name follows.
///
/// 8 bytes on the wire.
#[derive(Clone, Copy, Debug, PartialEq, Eq, Structural)]
pub struct MkdirIn {
    pub mode: u32,
    pub umask: u32,
}

impl Wire for MkdirIn {
    open spec fn layout() -> Seq<u8> {
        Seq::empty().push(4u8).push(4u8)
    }

    open spec fn from_cells(v: Seq<u64>) -> Self {
        MkdirIn { mode: v[0] as u32, umask: v[1] as u32 }
    }

    open spec fn cells(&self) -> Seq<u64> {
        seq![self.mode as u64, self.umask as u64]
    }

    proof fn lemma_wire() {
        let l = Self::layout();
        assert(valid_layout(l)) by {
            assert forall|i: int| 0 <= i < l.len() implies valid_width(#[trigger] l[i]) by {
                assert(l[0] == 4);
                assert(l[1] == 4);
            }
        }
    }

    fn layout_exec() -> (r: Vec<u8>) {
        let r = vec![4u8, 4u8];
        assert(r@ =~= Self::layout());
        r
    }

    fn from_fields(v: &[u64]) -> (r: Self) {
        MkdirIn { mode: v[0] as u32, umask: v[1] as u32 }
    }

    fn to_fields(&self) -> (r: Vec<u64>) {
        let r = vec![self.mode as u64, self.umask as u64];
        assert(r@ =~= self.cells());
        r
    }
}

/// Argument of RENAME; two names follow.
///
/// 8 bytes on the wire.
#[derive(Clone, Copy, Debug, PartialEq, Eq, Structural)]
pub struct RenameIn {
    pub newdir: u64,
}

impl Wire for RenameIn {
    open spec fn layout() -> Seq<u8> {
        Seq::empty().push(8u8)
    }

    open spec fn from_cells(v: Seq<u64>) -> Self {
        RenameIn { newdir: v[0] }
    }

    open spec fn cells(&self) -> Seq<u64> {
        seq![self.newdir]
    }

    proof fn lemma_wire() {
        let l = Self::layout();
        assert(valid_layout(l)) by {
            assert forall|i: int| 0 <= i < l.len() implies valid_width(#[trigger] l[i]) by {
                assert(l[0] == 8);
            }
        }
    }

    fn layout_exec() -> (r: Vec<u8>) {
        let r = vec![8u8];
        assert(r@ =~= Self::layout());
        r
    }

    fn from_fields(v: &[u64]) -> (r: Self) {
        RenameIn { newdir: v[0] }
    }

    fn to_fields(&self) -> (r: Vec<u64>) {
        let r = vec![self.newdir];
        assert(r@ =~= self.cells());
        r
    }
}

/// Argument of RENAME2; two names follow.
///
/// 16 bytes on the wire.
#[derive(Clone, Copy, Debug, PartialEq, Eq, Structural)]
pub struct Rename2In {
    pub newdir: u64,
    pub flags: u32,
}

impl Wire for Rename2In {
    open spec fn layout() -> Seq<u8> {
        Seq::empty().push(8u8).push(4u8).push(4u8)
    }

    open spec fn from_cells(v: Seq<u64>) -> Self {
        Rename2In { newdir: v[0], flags: v[1] as u32 }
    }

    open spec fn cells(&self) -> Seq<u64> {
        seq![self.newdir, self.flags as u64, 0u64]
    }

    proof fn lemma_wire() {
        let l = Self::layout();
        assert(valid_layout(l)) by {
            assert forall|i: int| 0 <= i < l.len() implies valid_width(#[trigger] l[i]) by {
                assert(l[0] == 8);
                assert(l[1] == 4);
                assert(l[2] == 4);
            }
        }
    }

    fn layout_exec() -> (r: Vec<u8>) {
        let r = vec![8u8, 4u8, 4u8];
        assert(r@ =~= Self::layout());
        r
    }

    fn from_fields(v: &[u64]) -> (r: Self) {
        Rename2In { newdir: v[0], flags: v[1] as u32 }
    }

    fn to_fields(&self) -> (r: Vec<u64>) {
        let r = vec![self.newdir, self.flags as u64, 0u64];
        assert(r@ =~= self.cells());
        r
    }
}

/// Argument of LINK; a name follows.
///
/// 8 bytes on the wire.
#[derive(Clone, Copy, Debug, PartialEq, Eq, Structural)]
pub struct LinkIn {
    pub oldnodeid: u64,
}

impl Wire for LinkIn {
    open spec fn layout() -> Seq<u8> {
        Seq::empty().push(8u8)
    }

    open spec fn from_cells(v: Seq<u64>) -> Self {
        LinkIn { oldnodeid: v[0] }
    }

    open spec fn cells(&self) -> Seq<u64> {
        seq![self.oldnodeid]
    }

    proof fn lemma_wire() {
        let l = Self::layout();
        assert(valid_layout(l)) by {
            assert forall|i: int| 0 <= i < l.len() implies valid_width(#[trigger] l[i]) by {
                assert(l[0] == 8);
            }
        }
    }

    fn layout_exec() -> (r: Vec<u8>) {
        let r = vec![8u8];
        assert(r@ =~= Self::layout());
        r
    }

    fn from_fields(v: &[u64]) -> (r: Self) {
        LinkIn { oldnodeid: v[0] }
    }

    fn to_fields(&self) -> (r: Vec<u64>) {
        let r = vec![self.oldnodeid];
        assert(r@ =~= self.cells());
        r
    }
}

/// Argument of OPEN and OPENDIR.
///
/// 8 bytes on the wire.
#[derive(Clone, Copy, Debug, PartialEq, Eq, Structural)]
pub struct OpenIn {
    pub flags: u32,
}

impl Wire for OpenIn {
    open spec fn layout() -> Seq<u8> {
        Seq::empty().push(4u8).push(4u8)
    }

    open spec fn from_cells(v: Seq<u64>) -> Self {
        OpenIn { flags: v[0] as u32 }
    }

    open spec fn cells(&self) -> Seq<u64> {
        seq![self.flags as u64, 0u64]
    }

    proof fn lemma_wire() {
        let l = Self::layout();
        assert(valid_layout(l)) by {
            assert forall|i: int| 0 <= i < l.len() implies valid_width(#[trigger] l[i]) by {
                assert(l[0] == 4);
                assert(l[1] == 4);
            }
        }
    }

    fn layout_exec() -> (r: Vec<u8>) {
        let r = vec![4u8, 4u8];
        assert(r@ =~= Self::layout());
        r
    }

    fn from_fields(v: &[u64]) -> (r: Self) {
        OpenIn { flags: v[0] as u32 }
    }

    fn to_fields(&self) -> (r: Vec<u64>) {
        let r = vec![self.flags as u64, 0u64];
        assert(r@ =~= self.cells());
        r
    }
}

/// Argument of CREATE; a name follows.
///
/// 16 bytes on the wire.
#[derive(Clone, Copy, Debug, PartialEq, Eq, Structural)]
pub struct CreateIn {
    pub flags: u32,
    pub mode: u32,
    pub umask: u32,
}

impl Wire for CreateIn {
    open spec fn layout() -> Seq<u8> {
        Seq::empty().push(4u8).push(4u8).push(4u8).push(4u8)
    }

    open spec fn from_cells(v: Seq<u64>) -> Self {
        CreateIn { flags: v[0] as u32, mode: v[1] as u32, umask: v[2] as u32 }
    }

    open spec fn cells(&self) -> Seq<u64> {
        seq![self.flags as u64, self.mode as u64, self.umask as u64, 0u64]
    }

    proof fn lemma_wire() {
        let l = Self::layout();
        assert(valid_layout(l)) by {
            assert forall|i: int| 0 <= i < l.len() implies valid_width(#[trigger] l[i]) by {
                assert(l[0] == 4);
                assert(l[1] == 4);
                assert(l[2] == 4);
                assert(l[3] == 4);
            }
        }
    }

    fn layout_exec() -> (r: Vec<u8>) {
        let r = vec![4u8, 4u8, 4u8, 4u8];
        assert(r@ =~= Self::layout());
        r
    }

    fn from_fields(v: &[u64]) -> (r: Self) {
        CreateIn { flags: v[0] as u32, mode: v[1] as u32, umask: v[2] as u32 }
    }

    fn to_fields(&self) -> (r: Vec<u64>) {
        let r = vec![self.flags as u64, self.mode as u64, self.umask as u64, 0u64];
        assert(r@ =~= self.cells());
        r
    }
}

/// Argument of READ and READDIR.
///
/// 40 bytes on the wire.
#[derive(Clone, Copy, Debug, PartialEq, Eq, Structural)]
pub struct ReadIn {
    pub fh: u64,
    pub offset: u64,
    pub size: u32,
    pub read_flags: u32,
    pub lock_owner: u64,
    pub flags: u32,
}

impl Wire for ReadIn {
    open spec fn layout() -> Seq<u8> {
        Seq::empty()
            .push(8u8)
            .push(8u8)
            .push(4u8)
            .push(4u8)
            .push(8u8)
            .push(4u8)
            .push(4u8)
    }

    open spec fn from_cells(v: Seq<u64>) -> Self {
        ReadIn {
            fh: v[0],
            offset: v[1],
            size: v[2] as u32,
            read_flags: v[3] as u32,
            lock_owner: v[4],
            flags: v[5] as u32,
        }
    }

    open spec fn cells(&self) -> Seq<u64> {
        seq![
            self.fh,
            self.offset,
            self.size as u64,
            self.read_flags as u64,
            self.lock_owner,
            self.flags as u64,
            0u64,
        ]
    }

    proof fn lemma_wire() {
        let l = Self::layout();
        assert(valid_layout(l)) by {
            assert forall|i: int| 0 <= i < l.len() implies valid_width(#[trigger] l[i]) by {
                assert(l[0] == 8);
                assert(l[1] == 8);
                assert(l[2] == 4);
                assert(l[3] == 4);
                assert(l[4] == 8);
                assert(l[5] == 4);
                assert(l[6] == 4);
            }
        }
    }

    fn layout_exec() -> (r: Vec<u8>) {
        let r = vec![8u8, 8u8, 4u8, 4u8, 8u8, 4u8, 4u8];
        assert(r@ =~= Self::layout());
        r
    }

    fn from_fields(v: &[u64]) -> (r: Self) {
        ReadIn {
            fh: v[0],
            offset: v[1],
            size: v[2] as u32,
            read_flags: v[3] as u32,
            lock_owner: v[4],
            flags: v[5] as u32,
        }
    }

    fn to_fields(&self) -> (r: Vec<u64>) {
        let r = vec![
                    self.fh,
                    self.offset,
                    self.size as u64,
                    self.read_flags as u64,
                    self.lock_owner,
                    self.flags as u64,
                    0u64,
                ];
        assert(r@ =~= self.cells());
        r
    }
}

/// Argument of WRITE; the payload follows.
///
/// 40 bytes on the wire.
#[derive(Clone, Copy, Debug, PartialEq, Eq, Structural)]
pub struct WriteIn {
    pub fh: u64,
    pub offset: u64,
    pub size: u32,
    pub write_flags: u32,
    pub lock_owner: u64,
    pub flags: u32,
}

impl Wire for WriteIn {
    open spec fn layout() -> Seq<u8> {
        Seq::empty()
            .push(8u8)
            .push(8u8)
            .push(4u8)
            .push(4u8)
            .push(8u8)
            .push(4u8)
            .push(4u8)
    }

    open spec fn from_cells(v: Seq<u64>) -> Self {
        WriteIn {
            fh: v[0],
            offset: v[1],
            size: v[2] as u32,
            write_flags: v[3] as u32,
            lock_owner: v[4],
            flags: v[5] as u32,
        }
    }

    open spec fn cells(&self) -> Seq<u64> {
        seq![
            self.fh,
            self.offset,
            self.size as u64,
            self.write_flags as u64,
            self.lock_owner,
            self.flags as u64,
            0u64,
        ]
    }

    proof fn lemma_wire() {
        let l = Self::layout();
        assert(valid_layout(l)) by {
            assert forall|i: int| 0 <= i < l.len() implies valid_width(#[trigger] l[i]) by {
                assert(l[0] == 8);
                assert(l[1] == 8);
                assert(l[2] == 4);
                assert(l[3] == 4);
                assert(l[4] == 8);
                assert(l[5] == 4);
                assert(l[6] == 4);
            }
        }
    }

    fn layout_exec() -> (r: Vec<u8>) {
        let r = vec![8u8, 8u8, 4u8, 4u8, 8u8, 4u8, 4u8];
        assert(r@ =~= Self::layout());
        r
    }

    fn from_fields(v: &[u64]) -> (r: Self) {
        WriteIn {
            fh: v[0],
            offset: v[1],
            size: v[2] as u32,
            write_flags: v[3] as u32,
            lock_owner: v[4],
            flags: v[5] as u32,
        }
    }

    fn to_fields(&self) -> (r: Vec<u64>) {
        let r = vec![
                    self.fh,
                    self.offset,
                    self.size as u64,
                    self.write_flags as u64,
                    self.lock_owner,
                    self.flags as u64,
                    0u64,
                ];
        assert(r@ =~= self.cells());
        r
    }
}

/// Argument of RELEASE and RELEASEDIR.
///
/// 24 bytes on the wire.
#[derive(Clone, Copy, Debug, PartialEq, Eq, Structural)]
pub struct ReleaseIn {
    pub fh: u64,
    pub flags: u32,
    pub release_flags: u32,
    pub lock_owner: u64,
}

impl Wire for ReleaseIn {
    open spec fn layout() -> Seq<u8> {
        Seq::empty().push(8u8).push(4u8).push(4u8).push(8u8)
    }

    open spec fn from_cells(v: Seq<u64>) -> Self {
        ReleaseIn { fh: v[0], flags: v[1] as u32, release_flags: v[2] as u32, lock_owner: v[3] }
    }

    open spec fn cells(&self) -> Seq<u64> {
        seq![self.fh, self.flags as u64, self.release_flags as u64, self.lock_owner]
    }

    proof fn lemma_wire() {
        let l = Self::layout();
        assert(valid_layout(l)) by {
            assert forall|i: int| 0 <= i < l.len() implies valid_width(#[trigger] l[i]) by {
                assert(l[0] == 8);
                assert(l[1] == 4);
                assert(l[2] == 4);
                assert(l[3] == 8);
            }
        }
    }

    fn layout_exec() -> (r: Vec<u8>) {
        let r = vec![8u8, 4u8, 4u8, 8u8];
        assert(r@ =~= Self::layout());
        r
    }

    fn from_fields(v: &[u64]) -> (r: Self) {
        ReleaseIn { fh: v[0], flags: v[1] as u32, release_flags: v[2] as u32, lock_owner: v[3] }
    }

    fn to_fields(&self) -> (r: Vec<u64>) {
        let r = vec![self.fh, self.flags as u64, self.release_flags as u64, self.lock_owner];
        assert(r@ =~= self.cells());
        r
    }
}

/// Argument of FLUSH.
///
/// 24 bytes on the wire.
#[derive(Clone, Copy, Debug, PartialEq, Eq, Structural)]
pub struct FlushIn {
    pub fh: u64,
    pub lock_owner: u64,
}

impl Wire for FlushIn {
    open spec fn layout() -> Seq<u8> {
        Seq::empty().push(8u8).push(4u8).push(4u8).push(8u8)
    }

    open spec fn from_cells(v: Seq<u64>) -> Self {
        FlushIn { fh: v[0], lock_owner: v[3] }
    }

    open spec fn cells(&self) -> Seq<u64> {
        seq![self.fh, 0u64, 0u64, self.lock_owner]
    }

    proof fn lemma_wire() {
        let l = Self::layout();
        assert(valid_layout(l)) by {
            assert forall|i: int| 0 <= i < l.len() implies valid_width(#[trigger] l[i]) by {
                assert(l[0] == 8);
                assert(l[1] == 4);
                assert(l[2] == 4);
                assert(l[3] == 8);
            }
        }
    }

    fn layout_exec() -> (r: Vec<u8>) {
        let r = vec![8u8, 4u8, 4u8, 8u8];
        assert(r@ =~= Self::layout());
        r
    }

    fn from_fields(v: &[u64]) -> (r: Self) {
        FlushIn { fh: v[0], lock_owner: v[3] }
    }

    fn to_fields(&self) -> (r: Vec<u64>) {
        let r = vec![self.fh, 0u64, 0u64, self.lock_owner];
        assert(r@ =~= self.cells());
        r
    }
}

/// Argument of FSYNC and FSYNCDIR.
///
/// 16 bytes on the wire.
#[derive(Clone, Copy, Debug, PartialEq, Eq, Structural)]
pub struct FsyncIn {
    pub fh: u64,
    pub fsync_flags: u32,
}

impl Wire for FsyncIn {
    open spec fn layout() -> Seq<u8> {
        Seq::empty().push(8u8).push(4u8).push(4u8)
    }

    open spec fn from_cells(v: Seq<u64>) -> Self {
        FsyncIn { fh: v[0], fsync_flags: v[1] as u32 }
    }

    open spec fn cells(&self) -> Seq<u64> {
        seq![self.fh, self.fsync_flags as u64, 0u64]
    }

    proof fn lemma_wire() {
        let l = Self::layout();
        assert(valid_layout(l)) by {
            assert forall|i: int| 0 <= i < l.len() implies valid_width(#[trigger] l[i]) by {
                assert(l[0] == 8);
                assert(l[1] == 4);
                assert(l[2] == 4);
            }
        }
    }

    fn layout_exec() -> (r: Vec<u8>) {
        let r = vec![8u8, 4u8, 4u8];
        assert(r@ =~= Self::layout());
        r
    }

    fn from_fields(v: &[u64]) -> (r: Self) {
        FsyncIn { fh: v[0], fsync_flags: v[1] as u32 }
    }

    fn to_fields(&self) -> (r: Vec<u64>) {
        let r = vec![self.fh, self.fsync_flags as u64, 0u64];
        assert(r@ =~= self.cells());
        r
    }
}

/// Argument of SETXATTR; a name and `size` value bytes follow.
///
/// 8 bytes on the wire.
#[derive(Clone, Copy, Debug, PartialEq, Eq, Structural)]
pub struct SetxattrIn {
    pub size: u32,
    pub flags: u32,
}

impl Wire for SetxattrIn {
    open spec fn layout() -> Seq<u8> {
        Seq::empty().push(4u8).push(4u8)
    }

    open spec fn from_cells(v: Seq<u64>) -> Self {
        SetxattrIn { size: v[0] as u32, flags: v[1] as u32 }
    }

    open spec fn cells(&self) -> Seq<u64> {
        seq![self.size as u64, self.flags as u64]
    }

    proof fn lemma_wire() {
        let l = Self::layout();
        assert(valid_layout(l)) by {
            assert forall|i: int| 0 <= i < l.len() implies valid_width(#[trigger] l[i]) by {
                assert(l[0] == 4);
                assert(l[1] == 4);
            }
        }
    }

    fn layout_exec() -> (r: Vec<u8>) {
        let r = vec![4u8, 4u8];
        assert(r@ =~= Self::layout());
        r
    }

    fn from_fields(v: &[u64]) -> (r: Self) {
        SetxattrIn { size: v[0] as u32, flags: v[1] as u32 }
    }

    fn to_fields(&self) -> (r: Vec<u64>) {
        let r = vec![self.size as u64, self.flags as u64];
        assert(r@ =~= self.cells());
        r
    }
}

/// Argument of GETXATTR (a name follows) and LISTXATTR.
///
/// 8 bytes on the wire.
#[derive(Clone, Copy, Debug, PartialEq, Eq, Structural)]
pub struct GetxattrIn {
    pub size: u32,
}

impl Wire for GetxattrIn {
    open spec fn layout() -> Seq<u8> {
        Seq::empty().push(4u8).push(4u8)
    }

    open spec fn from_cells(v: Seq<u64>) -> Self {
        GetxattrIn { size: v[0] as u32 }
    }

    open spec fn cells(&self) -> Seq<u64> {
        seq![self.size as u64, 0u64]
    }

    proof fn lemma_wire() {
        let l = Self::layout();
        assert(valid_layout(l)) by {
            assert forall|i: int| 0 <= i < l.len() implies valid_width(#[trigger] l[i]) by {
                assert(l[0] == 4);
                assert(l[1] == 4);
            }
        }
    }

    fn layout_exec() -> (r: Vec<u8>) {
        let r = vec![4u8, 4u8];
        assert(r@ =~= Self::layout());
        r
    }

    fn from_fields(v: &[u64]) -> (r: Self) {
        GetxattrIn { size: v[0] as u32 }
    }

    fn to_fields(&self) -> (r: Vec<u64>) {
        let r = vec![self.size as u64, 0u64];
        assert(r@ =~= self.cells());
        r
    }
}

/// Argument of GETLK, SETLK and SETLKW.
///
/// 48 bytes on the wire.
#[derive(Clone, Copy, Debug, PartialEq, Eq, Structural)]
pub struct LkIn {
    pub fh: u64,
    pub owner: u64,
    pub start: u64,
    pub end: u64,
    pub typ: u32,
    pub pid: u32,
    pub lk_flags: u32,
}

impl Wire for LkIn {
    open spec fn layout() -> Seq<u8> {
        Seq::empty()
            .push(8u8)
            .push(8u8)
            .push(8u8)
            .push(8u8)
            .push(4u8)
            .push(4u8)
            .push(4u8)
            .push(4u8)
    }

    open spec fn from_cells(v: Seq<u64>) -> Self {
        LkIn {
            fh: v[0],
            owner: v[1],
            start: v[2],
            end: v[3],
            typ: v[4] as u32,
            pid: v[5] as u32,
            lk_flags: v[6] as u32,
        }
    }

    open spec fn cells(&self) -> Seq<u64> {
        seq![
            self.fh,
            self.owner,
            self.start,
            self.end,
            self.typ as u64,
            self.pid as u64,
            self.lk_flags as u64,
            0u64,
        ]
    }

    proof fn lemma_wire() {
        let l = Self::layout();
        assert(valid_layout(l)) by {
            assert forall|i: int| 0 <= i < l.len() implies valid_width(#[trigger] l[i]) by {
                assert(l[0] == 8);
                assert(l[1] == 8);
                assert(l[2] == 8);
                assert(l[3] == 8);
                assert(l[4] == 4);
                assert(l[5] == 4);
                assert(l[6] == 4);
                assert(l[7] == 4);
            }
        }
    }

    fn layout_exec() -> (r: Vec<u8>) {
        let r = vec![8u8, 8u8, 8u8, 8u8, 4u8, 4u8, 4u8, 4u8];
        assert(r@ =~= Self::layout());
        r
    }

    fn from_fields(v: &[u64]) -> (r: Self) {
        LkIn {
            fh: v[0],
            owner: v[1],
            start: v[2],
            end: v[3],
            typ: v[4] as u32,
            pid: v[5] as u32,
            lk_flags: v[6] as u32,
        }
    }

    fn to_fields(&self) -> (r: Vec<u64>) {
        let r = vec![
                    self.fh,
                    self.owner,
                    self.start,
                    self.end,
                    self.typ as u64,
                    self.pid as u64,
                    self.lk_flags as u64,
                    0u64,
                ];
        assert(r@ =~= self.cells());
        r
    }
}

/// Argument of ACCESS.
///
/// 8 bytes on the wire.
#[derive(Clone, Copy, Debug, PartialEq, Eq, Structural)]
pub struct AccessIn {
    pub mask: u32,
}

impl Wire for AccessIn {
    open spec fn layout() -> Seq<u8> {
        Seq::empty().push(4u8).push(4u8)
    }

    open spec fn from_cells(v: Seq<u64>) -> Self {
        AccessIn { mask: v[0] as u32 }
    }

    open spec fn cells(&self) -> Seq<u64> {
        seq![self.mask as u64, 0u64]
    }

    proof fn lemma_wire() {
        let l = Self::layout();
        assert(valid_layout(l)) by {
            assert forall|i: int| 0 <= i < l.len() implies valid_width(#[trigger] l[i]) by {
                assert(l[0] == 4);
                assert(l[1] == 4);
            }
        }
    }

    fn layout_exec() -> (r: Vec<u8>) {
        let r = vec![4u8, 4u8];
        assert(r@ =~= Self::layout());
        r
    }

    fn from_fields(v: &[u64]) -> (r: Self) {
        AccessIn { mask: v[0] as u32 }
    }

    fn to_fields(&self) -> (r: Vec<u64>) {
        let r = vec![self.mask as u64, 0u64];
        assert(r@ =~= self.cells());
        r
    }
}

/// Argument of INTERRUPT.
///
/// 8 bytes on the wire.
#[derive(Clone, Copy, Debug, PartialEq, Eq, Structural)]
pub struct InterruptIn {
    pub unique: u64,
}

impl Wire for InterruptIn {
    open spec fn layout() -> Seq<u8> {
        Seq::empty().push(8u8)
    }

    open spec fn from_cells(v: Seq<u64>) -> Self {
        InterruptIn { unique: v[0] }
    }

    open spec fn cells(&self) -> Seq<u64> {
        seq![self.unique]
    }

    proof fn lemma_wire() {
        let l = Self::layout();
        assert(valid_layout(l)) by {
            assert forall|i: int| 0 <= i < l.len() implies valid_width(#[trigger] l[i]) by {
                assert(l[0] == 8);
            }
        }
    }

    fn layout_exec() -> (r: Vec<u8>) {
        let r = vec![8u8];
        assert(r@ =~= Self::layout());
        r
    }

    fn from_fields(v: &[u64]) -> (r: Self) {
        InterruptIn { unique: v[0] }
    }

    fn to_fields(&self) -> (r: Vec<u64>) {
        let r = vec![self.unique];
        assert(r@ =~= self.cells());
        r
    }
}

/// Argument of BMAP.
///
/// 16 bytes on the wire.
#[derive(Clone, Copy, Debug, PartialEq, Eq, Structural)]
pub struct BmapIn {
    pub block: u64,
    pub blocksize: u32,
}

impl Wire for BmapIn {
    open spec fn layout() -> Seq<u8> {
        Seq::empty().push(8u8).push(4u8).push(4u8)
    }

    open spec fn from_cells(v: Seq<u64>) -> Self {
        BmapIn { block: v[0], blocksize: v[1] as u32 }
    }

    open spec fn cells(&self) -> Seq<u64> {
        seq![self.block, self.blocksize as u64, 0u64]
    }

    proof fn lemma_wire() {
        let l = Self::layout();
        assert(valid_layout(l)) by {
            assert forall|i: int| 0 <= i < l.len() implies valid_width(#[trigger] l[i]) by {
                assert(l[0] == 8);
                assert(l[1] == 4);
                assert(l[2] == 4);
            }
        }
    }

    fn layout_exec() -> (r: Vec<u8>) {
        let r = vec![8u8, 4u8, 4u8];
        assert(r@ =~= Self::layout());
        r
    }

    fn from_fields(v: &[u64]) -> (r: Self) {
        BmapIn { block: v[0], blocksize: v[1] as u32 }
    }

    fn to_fields(&self) -> (r: Vec<u64>) {
        let r = vec![self.block, self.blocksize as u64, 0u64];
        assert(r@ =~= self.cells());
        r
    }
}

/// Argument of POLL.
///
/// 24 bytes on the wire.
#[derive(Clone, Copy, Debug, PartialEq, Eq, Structural)]
pub struct PollIn {
    pub fh: u64,
    pub kh: u64,
    pub flags: u32,
    pub events: u32,
}

impl Wire for PollIn {
    open spec fn layout() -> Seq<u8> {
        Seq::empty().push(8u8).push(8u8).push(4u8).push(4u8)
    }

    open spec fn from_cells(v: Seq<u64>) -> Self {
        PollIn { fh: v[0], kh: v[1], flags: v[2] as u32, events: v[3] as u32 }
    }

    open spec fn cells(&self) -> Seq<u64> {
        seq![self.fh, self.kh, self.flags as u64, self.events as u64]
    }

    proof fn lemma_wire() {
        let l = Self::layout();
        assert(valid_layout(l)) by {
            assert forall|i: int| 0 <= i < l.len() implies valid_width(#[trigger] l[i]) by {
                assert(l[0] == 8);
                assert(l[1] == 8);
                assert(l[2] == 4);
                assert(l[3] == 4);
            }
        }
    }

    fn layout_exec() -> (r: Vec<u8>) {
        let r = vec![8u8, 8u8, 4u8, 4u8];
        assert(r@ =~= Self::layout());
        r
    }

    fn from_fields(v: &[u64]) -> (r: Self) {
        PollIn { fh: v[0], kh: v[1], flags: v[2] as u32, events: v[3] as u32 }
    }

    fn to_fields(&self) -> (r: Vec<u64>) {
        let r = vec![self.fh, self.kh, self.flags as u64, self.events as u64];
        assert(r@ =~= self.cells());
        r
    }
}

/// Argument of FALLOCATE.
///
/// 32 bytes on the wire.
#[derive(Clone, Copy, Debug, PartialEq, Eq, Structural)]
pub struct FallocateIn {
    pub fh: u64,
    pub offset: u64,
    pub length: u64,
    pub mode: u32,
}

impl Wire for FallocateIn {
    open spec fn layout() -> Seq<u8> {
        Seq::empty().push(8u8).push(8u8).push(8u8).push(4u8).push(4u8)
    }

    open spec fn from_cells(v: Seq<u64>) -> Self {
        FallocateIn { fh: v[0], offset: v[1], length: v[2], mode: v[3] as u32 }
    }

    open spec fn cells(&self) -> Seq<u64> {
        seq![self.fh, self.offset, self.length, self.mode as u64, 0u64]
    }

    proof fn lemma_wire() {
        let l = Self::layout();
        assert(valid_layout(l)) by {
            assert forall|i: int| 0 <= i < l.len() implies valid_width(#[trigger] l[i]) by {
                assert(l[0] == 8);
                assert(l[1] == 8);
                assert(l[2] == 8);
                assert(l[3] == 4);
                assert(l[4] == 4);
            }
        }
    }

    fn layout_exec() -> (r: Vec<u8>) {
        let r = vec![8u8, 8u8, 8u8, 4u8, 4u8];
        assert(r@ =~= Self::layout());
        r
    }

    fn from_fields(v: &[u64]) -> (r: Self) {
        FallocateIn { fh: v[0], offset: v[1], length: v[2], mode: v[3] as u32 }
    }

    fn to_fields(&self) -> (r: Vec<u64>) {
        let r = vec![self.fh, self.offset, self.length, self.mode as u64, 0u64];
        assert(r@ =~= self.cells());
        r
    }
}

/// Argument of COPY_FILE_RANGE.
///
/// 56 bytes on the wire.
#[derive(Clone, Copy, Debug, PartialEq, Eq, Structural)]
pub struct CopyFileRangeIn {
    pub fh_in: u64,
    pub off_in: u64,
    pub nodeid_out: u64,
    pub fh_out: u64,
    pub off_out: u64,
    pub len: u64,
    pub flags: u64,
}

impl Wire for CopyFileRangeIn {
    open spec fn layout() -> Seq<u8> {
        Seq::empty()
            .push(8u8)
            .push(8u8)
            .push(8u8)
            .push(8u8)
            .push(8u8)
            .push(8u8)
            .push(8u8)
    }

    open spec fn from_cells(v: Seq<u64>) -> Self {
        CopyFileRangeIn {
            fh_in: v[0],
            off_in: v[1],
            nodeid_out: v[2],
            fh_out: v[3],
            off_out: v[4],
            len: v[5],
            flags: v[6],
        }
    }

    open spec fn cells(&self) -> Seq<u64> {
        seq![
            self.fh_in,
            self.off_in,
            self.nodeid_out,
            self.fh_out,
            self.off_out,
            self.len,
            self.flags,
        ]
    }

    proof fn lemma_wire() {
        let l = Self::layout();
        assert(valid_layout(l)) by {
            assert forall|i: int| 0 <= i < l.len() implies valid_width(#[trigger] l[i]) by {
                assert(l[0] == 8);
                assert(l[1] == 8);
                assert(l[2] == 8);
                assert(l[3] == 8);
                assert(l[4] == 8);
                assert(l[5] == 8);
                assert(l[6] == 8);
            }
        }
    }

    fn layout_exec() -> (r: Vec<u8>) {
        let r = vec![8u8, 8u8, 8u8, 8u8, 8u8, 8u8, 8u8];
        assert(r@ =~= Self::layout());
        r
    }

    fn from_fields(v: &[u64]) -> (r: Self) {
        CopyFileRangeIn {
            fh_in: v[0],
            off_in: v[1],
            nodeid_out: v[2],
            fh_out: v[3],
            off_out: v[4],
            len: v[5],
            flags: v[6],
        }
    }

    fn to_fields(&self) -> (r: Vec<u64>) {
        let r = vec![
                    self.fh_in,
                    self.off_in,
                    self.nodeid_out,
                    self.fh_out,
                    self.off_out,
                    self.len,
                    self.flags,
                ];
        assert(r@ =~= self.cells());
        r
    }
}

/// Argument of NOTIFY_REPLY; the retrieved data follows.
///
/// 40 bytes on the wire.
#[derive(Clone, Copy, Debug, PartialEq, Eq, Structural)]
pub struct NotifyRetrieveIn {
    pub offset: u64,
    pub size: u32,
}

impl Wire for NotifyRetrieveIn {
    open spec fn layout() -> Seq<u8> {
        Seq::empty().push(8u8).push(8u8).push(4u8).push(4u8).push(8u8).push(8u8)
    }

    open spec fn from_cells(v: Seq<u64>) -> Self {
        NotifyRetrieveIn { offset: v[1], size: v[2] as u32 }
    }

    open spec fn cells(&self) -> Seq<u64> {
        seq![0u64, self.offset, self.size as u64, 0u64, 0u64, 0u64]
    }

    proof fn lemma_wire() {
        let l = Self::layout();
        assert(valid_layout(l)) by {
            assert forall|i: int| 0 <= i < l.len() implies valid_width(#[trigger] l[i]) by {
                assert(l[0] == 8);
                assert(l[1] == 8);
                assert(l[2] == 4);
                assert(l[3] == 4);
                assert(l[4] == 8);
                assert(l[5] == 8);
            }
        }
    }

    fn layout_exec() -> (r: Vec<u8>) {
        let r = vec![8u8, 8u8, 4u8, 4u8, 8u8, 8u8];
        assert(r@ =~= Self::layout());
        r
    }

    fn from_fields(v: &[u64]) -> (r: Self) {
        NotifyRetrieveIn { offset: v[1], size: v[2] as u32 }
    }

    fn to_fields(&self) -> (r: Vec<u64>) {
        let r = vec![0u64, self.offset, self.size as u64, 0u64, 0u64, 0u64];
        assert(r@ =~= self.cells());
        r
    }
}

/// Payload of the POLL notification.
///
/// 8 bytes on the wire.
#[derive(Clone, Copy, Debug, PartialEq, Eq, Structural)]
pub struct NotifyPollWakeupOut {
    pub kh: u64,
}

impl Wire for NotifyPollWakeupOut {
    open spec fn layout() -> Seq<u8> {
        Seq::empty().push(8u8)
    }

    open spec fn from_cells(v: Seq<u64>) -> Self {
        NotifyPollWakeupOut { kh: v[0] }
    }

    open spec fn cells(&self) -> Seq<u64> {
        seq![self.kh]
    }

    proof fn lemma_wire() {
        let l = Self::layout();
        assert(valid_layout(l)) by {
            assert forall|i: int| 0 <= i < l.len() implies valid_width(#[trigger] l[i]) by {
                assert(l[0] == 8);
            }
        }
    }

    fn layout_exec() -> (r: Vec<u8>) {
        let r = vec![8u8];
        assert(r@ =~= Self::layout());
        r
    }

    fn from_fields(v: &[u64]) -> (r: Self) {
        NotifyPollWakeupOut { kh: v[0] }
    }

    fn to_fields(&self) -> (r: Vec<u64>) {
        let r = vec![self.kh];
        assert(r@ =~= self.cells());
        r
    }
}

/// Payload of the INVAL_INODE notification.
///
/// 24 bytes on the wire.
#[derive(Clone, Copy, Debug, PartialEq, Eq, Structural)]
pub struct NotifyInvalInodeOut {
    pub ino: u64,
    pub off: i64,
    pub len: i64,
}

impl Wire for NotifyInvalInodeOut {
    open spec fn layout() -> Seq<u8> {
        Seq::empty().push(8u8).push(8u8).push(8u8)
    }

    open spec fn from_cells(v: Seq<u64>) -> Self {
        NotifyInvalInodeOut { ino: v[0], off: v[1] as i64, len: v[2] as i64 }
    }

    open spec fn cells(&self) -> Seq<u64> {
        seq![self.ino, self.off as u64, self.len as u64]
    }

    proof fn lemma_wire() {
        let l = Self::layout();
        assert(valid_layout(l)) by {
            assert forall|i: int| 0 <= i < l.len() implies valid_width(#[trigger] l[i]) by {
                assert(l[0] == 8);
                assert(l[1] == 8);
                assert(l[2] == 8);
            }
        }
        assert forall|e: i64| #[trigger] ((e as u64) as i64) == e by {
            assert((e as u64) as i64 == e) by (bit_vector);
        }
    }

    fn layout_exec() -> (r: Vec<u8>) {
        let r = vec![8u8, 8u8, 8u8];
        assert(r@ =~= Self::layout());
        r
    }

    fn from_fields(v: &[u64]) -> (r: Self) {
        NotifyInvalInodeOut { ino: v[0], off: v[1] as i64, len: v[2] as i64 }
    }

    fn to_fields(&self) -> (r: Vec<u64>) {
        let r = vec![self.ino, self.off as u64, self.len as u64];
        assert(r@ =~= self.cells());
        r
    }
}

/// Payload of the INVAL_ENTRY notification; the name follows.
///
/// 16 bytes on the wire.
#[derive(Clone, Copy, Debug, PartialEq, Eq, Structural)]
pub struct NotifyInvalEntryOut {
    pub parent: u64,
    pub namelen: u32,
}

impl Wire for NotifyInvalEntryOut {
    open spec fn layout() -> Seq<u8> {
        Seq::empty().push(8u8).push(4u8).push(4u8)
    }

    open spec fn from_cells(v: Seq<u64>) -> Self {
        NotifyInvalEntryOut { parent: v[0], namelen: v[1] as u32 }
    }

    open spec fn cells(&self) -> Seq<u64> {
        seq![self.parent, self.namelen as u64, 0u64]
    }

    proof fn lemma_wire() {
        let l = Self::layout();
        assert(valid_layout(l)) by {
            assert forall|i: int| 0 <= i < l.len() implies valid_width(#[trigger] l[i]) by {
                assert(l[0] == 8);
                assert(l[1] == 4);
                assert(l[2] == 4);
            }
        }
    }

    fn layout_exec() -> (r: Vec<u8>) {
        let r = vec![8u8, 4u8, 4u8];
        assert(r@ =~= Self::layout());
        r
    }

    fn from_fields(v: &[u64]) -> (r: Self) {
        NotifyInvalEntryOut { parent: v[0], namelen: v[1] as u32 }
    }

    fn to_fields(&self) -> (r: Vec<u64>) {
        let r = vec![self.parent, self.namelen as u64, 0u64];
        assert(r@ =~= self.cells());
        r
    }
}

/// Payload of the DELETE notification; the name follows.
///
/// 24 bytes on the wire.
#[derive(Clone, Copy, Debug, PartialEq, Eq, Structural)]
pub struct NotifyDeleteOut {
    pub parent: u64,
    pub child: u64,
    pub namelen: u32,
}

impl Wire for NotifyDeleteOut {
    open spec fn layout() -> Seq<u8> {
        Seq::empty().push(8u8).push(8u8).push(4u8).push(4u8)
    }

    open spec fn from_cells(v: Seq<u64>) -> Self {
        NotifyDeleteOut { parent: v[0], child: v[1], namelen: v[2] as u32 }
    }

    open spec fn cells(&self) -> Seq<u64> {
        seq![self.parent, self.child, self.namelen as u64, 0u64]
    }

    proof fn lemma_wire() {
        let l = Self::layout();
        assert(valid_layout(l)) by {
            assert forall|i: int| 0 <= i < l.len() implies valid_width(#[trigger] l[i]) by {
                assert(l[0] == 8);
                assert(l[1] == 8);
                assert(l[2] == 4);
                assert(l[3] == 4);
            }
        }
    }

    fn layout_exec() -> (r: Vec<u8>) {
        let r = vec![8u8, 8u8, 4u8, 4u8];
        assert(r@ =~= Self::layout());
        r
    }

    fn from_fields(v: &[u64]) -> (r: Self) {
        NotifyDeleteOut { parent: v[0], child: v[1], namelen: v[2] as u32 }
    }

    fn to_fields(&self) -> (r: Vec<u64>) {
        let r = vec![self.parent, self.child, self.namelen as u64, 0u64];
        assert(r@ =~= self.cells());
        r
    }
}

/// Payload of the STORE notification; the data follows.
///
/// 24 bytes on the wire.
#[derive(Clone, Copy, Debug, PartialEq, Eq, Structural)]
pub struct NotifyStoreOut {
    pub nodeid: u64,
    pub offset: u64,
    pub size: u32,
}

impl Wire for NotifyStoreOut {
    open spec fn layout() -> Seq<u8> {
        Seq::empty().push(8u8).push(8u8).push(4u8).push(4u8)
    }

    open spec fn from_cells(v: Seq<u64>) -> Self {
        NotifyStoreOut { nodeid: v[0], offset: v[1], size: v[2] as u32 }
    }

    open spec fn cells(&self) -> Seq<u64> {
        seq![self.nodeid, self.offset, self.size as u64, 0u64]
    }

    proof fn lemma_wire() {
        let l = Self::layout();
        assert(valid_layout(l)) by {
            assert forall|i: int| 0 <= i < l.len() implies valid_width(#[trigger] l[i]) by {
                assert(l[0] == 8);
                assert(l[1] == 8);
                assert(l[2] == 4);
                assert(l[3] == 4);
            }
        }
    }

    fn layout_exec() -> (r: Vec<u8>) {
        let r = vec![8u8, 8u8, 4u8, 4u8];
        assert(r@ =~= Self::layout());
        r
    }

    fn from_fields(v: &[u64]) -> (r: Self) {
        NotifyStoreOut { nodeid: v[0], offset: v[1], size: v[2] as u32 }
    }

    fn to_fields(&self) -> (r: Vec<u64>) {
        let r = vec![self.nodeid, self.offset, self.size as u64, 0u64];
        assert(r@ =~= self.cells());
        r
    }
}

/// Payload of the RETRIEVE notification.
///
/// 32 bytes on the wire.
#[derive(Clone, Copy, Debug, PartialEq, Eq, Structural)]
pub struct NotifyRetrieveOut {
    pub notify_unique: u64,
    pub nodeid: u64,
    pub offset: u64,
    pub size: u32,
}

impl Wire for NotifyRetrieveOut {
    open spec fn layout() -> Seq<u8> {
        Seq::empty().push(8u8).push(8u8).push(8u8).push(4u8).push(4u8)
    }

    open spec fn from_cells(v: Seq<u64>) -> Self {
        NotifyRetrieveOut { notify_unique: v[0], nodeid: v[1], offset: v[2], size: v[3] as u32 }
    }

    open spec fn cells(&self) -> Seq<u64> {
        seq![self.notify_unique, self.nodeid, self.offset, self.size as u64, 0u64]
    }

    proof fn lemma_wire() {
        let l = Self::layout();
        assert(valid_layout(l)) by {
            assert forall|i: int| 0 <= i < l.len() implies valid_width(#[trigger] l[i]) by {
                assert(l[0] == 8);
                assert(l[1] == 8);
                assert(l[2] == 8);
                assert(l[3] == 4);
                assert(l[4] == 4);
            }
        }
    }

    fn layout_exec() -> (r: Vec<u8>) {
        let r = vec![8u8, 8u8, 8u8, 4u8, 4u8];
        assert(r@ =~= Self::layout());
        r
    }

    fn from_fields(v: &[u64]) -> (r: Self) {
        NotifyRetrieveOut { notify_unique: v[0], nodeid: v[1], offset: v[2], size: v[3] as u32 }
    }

    fn to_fields(&self) -> (r: Vec<u64>) {
        let r = vec![self.notify_unique, self.nodeid, self.offset, self.size as u64, 0u64];
        assert(r@ =~= self.cells());
        r
    }
}

} // verus!
