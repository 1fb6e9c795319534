//! Typed operations: one accessor trait per kind of request, the structs that
//! a decoded request yields, and the tagged union `Operation` selected by the
//! opcode.
use crate::abi::{
    AccessIn, BmapIn, CopyFileRangeIn, CreateIn, FallocateIn, FlushIn, FsyncIn, GetattrIn,
    GetxattrIn, LkIn, MkdirIn, MknodIn, OpenIn, PollIn, ReadIn, ReleaseIn, SetattrIn, SetxattrIn,
    WriteIn,
    FATTR_ATIME, FATTR_ATIME_NOW, FATTR_CTIME, FATTR_FH, FATTR_GID, FATTR_LOCKOWNER, FATTR_MODE,
    FATTR_MTIME, FATTR_MTIME_NOW, FATTR_SIZE, FATTR_UID, FUSE_FSYNC_FDATASYNC, FUSE_GETATTR_FH,
    FUSE_POLL_SCHEDULE_NOTIFY, FUSE_READ_LOCKOWNER, FUSE_RELEASE_FLOCK_UNLOCK,
    FUSE_RELEASE_FLUSH, FUSE_WRITE_LOCKOWNER, F_RDLCK, F_UNLCK, F_WRLCK, LOCK_EX, LOCK_NB,
    LOCK_SH, LOCK_UN,
};
use vstd::prelude::*;

verus! {

/// The identifier for locking operations.
#[derive(Clone, Copy, Debug, PartialEq, Eq, Hash, Structural)]
pub struct LockOwner(pub u64);

impl LockOwner {
    /// Create a `LockOwner` from the raw value.
    pub fn from_raw(id: u64) -> (r: Self)
        ensures
            r.0 == id,
    {
        LockOwner(id)
    }

    /// Take the raw value of this identifier.
    pub fn into_raw(self) -> (r: u64)
        ensures
            r == self.0,
    {
        self.0
    }
}

/// A point in time as seconds and nanoseconds since the epoch.
#[derive(Clone, Copy, Debug, PartialEq, Eq, Structural)]
pub struct Timespec {
    pub secs: u64,
    pub nanos: u32,
}

/// The time value requested to be set.
#[derive(Clone, Copy, Debug, PartialEq, Eq, Structural)]
pub enum SetAttrTime {
    /// Set the specified time value.
    Timespec(Timespec),
    /// Set the current time.
    Now,
}

pub open spec fn spec_set_attr_time(
    valid: u32,
    flag: u32,
    now_flag: u32,
    secs: u64,
    nanos: u32,
) -> Option<SetAttrTime> {
    if valid & flag == 0 {
        None
    } else if valid & now_flag != 0 {
        Some(SetAttrTime::Now)
    } else {
        Some(SetAttrTime::Timespec(Timespec { secs, nanos }))
    }
}

/// A time attribute of SETATTR: absent unless `flag` is valid; "now" when
/// `now_flag` is valid too.
#[verifier::when_used_as_spec(spec_set_attr_time)]
pub fn set_attr_time(
    valid: u32,
    flag: u32,
    now_flag: u32,
    secs: u64,
    nanos: u32,
) -> (r: Option<SetAttrTime>)
    ensures
        r == spec_set_attr_time(valid, flag, now_flag, secs, nanos),
{
    if valid & flag == 0 {
        None
    } else if valid & now_flag != 0 {
        Some(SetAttrTime::Now)
    } else {
        Some(SetAttrTime::Timespec(Timespec { secs, nanos }))
    }
}

pub open spec fn spec_flock_op(typ: u32, sleep: bool) -> Option<u32> {
    let base = if typ == F_RDLCK {
        Some(LOCK_SH)
    } else if typ == F_WRLCK {
        Some(LOCK_EX)
    } else if typ == F_UNLCK {
        Some(LOCK_UN)
    } else {
        None
    };
    match base {
        Some(op) => Some(if sleep { op } else { op | LOCK_NB }),
        None => None,
    }
}

/// The `flock(2)` operation for a lock type: read, write and unlock locks map
/// to shared, exclusive and unlock; `LOCK_NB` is added when the request may
/// not sleep. `None` for any other lock type.
#[verifier::when_used_as_spec(spec_flock_op)]
pub fn flock_op(typ: u32, sleep: bool) -> (r: Option<u32>)
    ensures
        r == spec_flock_op(typ, sleep),
{
    let base = if typ == F_RDLCK {
        LOCK_SH
    } else if typ == F_WRLCK {
        LOCK_EX
    } else if typ == F_UNLCK {
        LOCK_UN
    } else {
        return None;
    };
    Some(if sleep { base } else { base | LOCK_NB })
}

/// A forget information.
pub trait Forget {
    /// Return the inode number of the target inode.
    fn ino(&self) -> u64;

    /// Return the released lookup count of the target inode.
    fn nlookup(&self) -> u64;
}

/// One `(inode, lookup count)` pair of a FORGET or BATCH_FORGET request.
#[derive(Clone, Copy, Debug, PartialEq, Eq, Structural)]
pub struct ForgetEntry {
    pub ino: u64,
    pub nlookup: u64,
}

impl Forget for ForgetEntry {
    fn ino(&self) -> (r: u64)
        ensures
            r == (self.ino),
    {
        self.ino
    }

    fn nlookup(&self) -> (r: u64)
        ensures
            r == (self.nlookup),
    {
        self.nlookup
    }
}

/// Lookup a directory entry by name.
pub trait Lookup {
    /// Return the inode number of the parent directory.
    fn parent(&self) -> u64;

    /// Return the name of the entry to be looked up.
    fn name(&self) -> &[u8];
}

/// Decoded LOOKUP request.
#[derive(Clone, Debug)]
pub struct LookupOp {
    pub parent: u64,
    pub name: Vec<u8>,
}

impl Lookup for LookupOp {
    fn parent(&self) -> (r: u64)
        ensures
            r == (self.parent),
    {
        self.parent
    }

    fn name(&self) -> (r: &[u8])
        ensures
            r@ == self.name@,
    {
        self.name.as_slice()
    }
}

/// Get file attributes.
pub trait Getattr {
    /// Return the inode number for obtaining the attribute value.
    fn ino(&self) -> u64;

    /// Return the handle of opened file, if specified.
    fn fh(&self) -> Option<u64>;
}

/// Decoded GETATTR request.
#[derive(Clone, Copy, Debug, PartialEq, Eq, Structural)]
pub struct GetattrOp {
    pub ino: u64,
    pub arg: GetattrIn,
}

impl Getattr for GetattrOp {
    fn ino(&self) -> (r: u64)
        ensures
            r == (self.ino),
    {
        self.ino
    }

    fn fh(&self) -> (r: Option<u64>)
        ensures
            r == (if self.arg.getattr_flags & FUSE_GETATTR_FH != 0 {
                Some(self.arg.fh)
            } else {
                None
            }),
    {
        if self.arg.getattr_flags & FUSE_GETATTR_FH != 0 {
            Some(self.arg.fh)
        } else {
            None
        }
    }
}

/// Set file attributes.
pub trait Setattr {
    /// Return the inode number to be set the attribute values.
    fn ino(&self) -> u64;

    /// Return the handle of opened file, if specified.
    fn fh(&self) -> Option<u64>;

    /// Return the file mode to be set.
    fn mode(&self) -> Option<u32>;

    /// Return the user id to be set.
    fn uid(&self) -> Option<u32>;

    /// Return the group id to be set.
    fn gid(&self) -> Option<u32>;

    /// Return the size of the file content to be set.
    fn size(&self) -> Option<u64>;

    /// Return the last accessed time to be set.
    fn atime(&self) -> Option<SetAttrTime>;

    /// Return the last modified time to be set.
    fn mtime(&self) -> Option<SetAttrTime>;

    /// Return the last creation time to be set.
    fn ctime(&self) -> Option<Timespec>;

    /// Return the identifier of lock owner.
    fn lock_owner(&self) -> Option<LockOwner>;
}

/// Decoded SETATTR request.
#[derive(Clone, Copy, Debug, PartialEq, Eq, Structural)]
pub struct SetattrOp {
    pub ino: u64,
    pub arg: SetattrIn,
}

impl Setattr for SetattrOp {
    fn ino(&self) -> (r: u64)
        ensures
            r == (self.ino),
    {
        self.ino
    }

    fn fh(&self) -> (r: Option<u64>)
        ensures
            r == (if self.arg.valid & FATTR_FH != 0 {
                Some(self.arg.fh)
            } else {
                None
            }),
    {
        if self.arg.valid & FATTR_FH != 0 {
            Some(self.arg.fh)
        } else {
            None
        }
    }

    fn mode(&self) -> (r: Option<u32>)
        ensures
            r == (if self.arg.valid & FATTR_MODE != 0 {
                Some(self.arg.mode)
            } else {
                None
            }),
    {
        if self.arg.valid & FATTR_MODE != 0 {
            Some(self.arg.mode)
        } else {
            None
        }
    }

    fn uid(&self) -> (r: Option<u32>)
        ensures
            r == (if self.arg.valid & FATTR_UID != 0 {
                Some(self.arg.uid)
            } else {
                None
            }),
    {
        if self.arg.valid & FATTR_UID != 0 {
            Some(self.arg.uid)
        } else {
            None
        }
    }

    fn gid(&self) -> (r: Option<u32>)
        ensures
            r == (if self.arg.valid & FATTR_GID != 0 {
                Some(self.arg.gid)
            } else {
                None
            }),
    {
        if self.arg.valid & FATTR_GID != 0 {
            Some(self.arg.gid)
        } else {
            None
        }
    }

    fn size(&self) -> (r: Option<u64>)
        ensures
            r == (if self.arg.valid & FATTR_SIZE != 0 {
                Some(self.arg.size)
            } else {
                None
            }),
    {
        if self.arg.valid & FATTR_SIZE != 0 {
            Some(self.arg.size)
        } else {
            None
        }
    }

    fn atime(&self) -> (r: Option<SetAttrTime>)
        ensures
            r == set_attr_time(
                self.arg.valid,
                FATTR_ATIME,
                FATTR_ATIME_NOW,
                self.arg.atime,
                self.arg.atimensec,
            ),
    {
        set_attr_time(
            self.arg.valid,
            FATTR_ATIME,
            FATTR_ATIME_NOW,
            self.arg.atime,
            self.arg.atimensec,
        )
    }

    fn mtime(&self) -> (r: Option<SetAttrTime>)
        ensures
            r == set_attr_time(
                self.arg.valid,
                FATTR_MTIME,
                FATTR_MTIME_NOW,
                self.arg.mtime,
                self.arg.mtimensec,
            ),
    {
        set_attr_time(
            self.arg.valid,
            FATTR_MTIME,
            FATTR_MTIME_NOW,
            self.arg.mtime,
            self.arg.mtimensec,
        )
    }

    fn ctime(&self) -> (r: Option<Timespec>)
        ensures
            r == (if self.arg.valid & FATTR_CTIME != 0 {
                Some(Timespec { secs: self.arg.ctime, nanos: self.arg.ctimensec })
            } else {
                None
            }),
    {
        if self.arg.valid & FATTR_CTIME != 0 {
            Some(Timespec { secs: self.arg.ctime, nanos: self.arg.ctimensec })
        } else {
            None
        }
    }

    fn lock_owner(&self) -> (r: Option<LockOwner>)
        ensures
            r == (if self.arg.valid & FATTR_LOCKOWNER != 0 {
                Some(LockOwner(self.arg.lock_owner))
            } else {
                None
            }),
    {
        if self.arg.valid & FATTR_LOCKOWNER != 0 {
            Some(LockOwner(self.arg.lock_owner))
        } else {
            None
        }
    }
}

/// Read a symbolic link.
pub trait Readlink {
    /// Return the inode number to be read the link value.
    fn ino(&self) -> u64;
}

/// Decoded READLINK request.
#[derive(Clone, Copy, Debug, PartialEq, Eq, Structural)]
pub struct ReadlinkOp {
    pub ino: u64,
}

impl Readlink for ReadlinkOp {
    fn ino(&self) -> (r: u64)
        ensures
            r == (self.ino),
    {
        self.ino
    }
}

/// Create a symbolic link.
pub trait Symlink {
    /// Return the inode number of the parent directory.
    fn parent(&self) -> u64;

    /// Return the name of the symbolic link to create.
    fn name(&self) -> &[u8];

    /// Return the contents of the symbolic link.
    fn link(&self) -> &[u8];
}

/// Decoded SYMLINK request.
#[derive(Clone, Debug)]
pub struct SymlinkOp {
    pub parent: u64,
    pub name: Vec<u8>,
    pub link: Vec<u8>,
}

impl Symlink for SymlinkOp {
    fn parent(&self) -> (r: u64)
        ensures
            r == (self.parent),
    {
        self.parent
    }

    fn name(&self) -> (r: &[u8])
        ensures
            r@ == self.name@,
    {
        self.name.as_slice()
    }

    fn link(&self) -> (r: &[u8])
        ensures
            r@ == self.link@,
    {
        self.link.as_slice()
    }
}

/// Create a file node.
pub trait Mknod {
    /// Return the inode number of the parent directory.
    fn parent(&self) -> u64;

    /// Return the file name to create.
    fn name(&self) -> &[u8];

    /// Return the file type and permissions used when creating the new file.
    fn mode(&self) -> u32;

    /// Return the device number for special file.
    fn rdev(&self) -> u32;

    /// Return the umask of the calling process.
    fn umask(&self) -> u32;
}

/// Decoded MKNOD request.
#[derive(Clone, Debug)]
pub struct MknodOp {
    pub parent: u64,
    pub arg: MknodIn,
    pub name: Vec<u8>,
}

impl Mknod for MknodOp {
    fn parent(&self) -> (r: u64)
        ensures
            r == (self.parent),
    {
        self.parent
    }

    fn name(&self) -> (r: &[u8])
        ensures
            r@ == self.name@,
    {
        self.name.as_slice()
    }

    fn mode(&self) -> (r: u32)
        ensures
            r == (self.arg.mode),
    {
        self.arg.mode
    }

    fn rdev(&self) -> (r: u32)
        ensures
            r == (self.arg.rdev),
    {
        self.arg.rdev
    }

    fn umask(&self) -> (r: u32)
        ensures
            r == (self.arg.umask),
    {
        self.arg.umask
    }
}

/// Create a directory node.
pub trait Mkdir {
    /// Return the inode number of the parent directory where the directory is created.
    fn parent(&self) -> u64;

    /// Return the name of the directory to be created.
    fn name(&self) -> &[u8];

    /// Return the file type and permissions used when creating the new directory.
    fn mode(&self) -> u32;

    /// Return the umask of the calling process.
    fn umask(&self) -> u32;
}

/// Decoded MKDIR request.
#[derive(Clone, Debug)]
pub struct MkdirOp {
    pub parent: u64,
    pub arg: MkdirIn,
    pub name: Vec<u8>,
}

impl Mkdir for MkdirOp {
    fn parent(&self) -> (r: u64)
        ensures
            r == (self.parent),
    {
        self.parent
    }

    fn name(&self) -> (r: &[u8])
        ensures
            r@ == self.name@,
    {
        self.name.as_slice()
    }

    fn mode(&self) -> (r: u32)
        ensures
            r == (self.arg.mode),
    {
        self.arg.mode
    }

    fn umask(&self) -> (r: u32)
        ensures
            r == (self.arg.umask),
    {
        self.arg.umask
    }
}

/// Remove a file.
pub trait Unlink {
    /// Return the inode number of the parent directory.
    fn parent(&self) -> u64;

    /// Return the file name to be removed.
    fn name(&self) -> &[u8];
}

/// Decoded UNLINK request.
#[derive(Clone, Debug)]
pub struct UnlinkOp {
    pub parent: u64,
    pub name: Vec<u8>,
}

impl Unlink for UnlinkOp {
    fn parent(&self) -> (r: u64)
        ensures
            r == (self.parent),
    {
        self.parent
    }

    fn name(&self) -> (r: &[u8])
        ensures
            r@ == self.name@,
    {
        self.name.as_slice()
    }
}

/// Remove a directory.
pub trait Rmdir {
    /// Return the inode number of the parent directory.
    fn parent(&self) -> u64;

    /// Return the directory name to be removed.
    fn name(&self) -> &[u8];
}

/// Decoded RMDIR request.
#[derive(Clone, Debug)]
pub struct RmdirOp {
    pub parent: u64,
    pub name: Vec<u8>,
}

impl Rmdir for RmdirOp {
    fn parent(&self) -> (r: u64)
        ensures
            r == (self.parent),
    {
        self.parent
    }

    fn name(&self) -> (r: &[u8])
        ensures
            r@ == self.name@,
    {
        self.name.as_slice()
    }
}

/// Rename a file.
pub trait Rename {
    /// Return the inode number of the old parent directory.
    fn parent(&self) -> u64;

    /// Return the old name of the target node.
    fn name(&self) -> &[u8];

    /// Return the inode number of the new parent directory.
    fn newparent(&self) -> u64;

    /// Return the new name of the target node.
    fn newname(&self) -> &[u8];

    /// Return the rename flags.
    fn flags(&self) -> u32;
}

/// Decoded RENAME or RENAME2 request.
#[derive(Clone, Debug)]
pub struct RenameOp {
    pub parent: u64,
    pub newparent: u64,
    pub flags: u32,
    pub name: Vec<u8>,
    pub newname: Vec<u8>,
}

impl Rename for RenameOp {
    fn parent(&self) -> (r: u64)
        ensures
            r == (self.parent),
    {
        self.parent
    }

    fn name(&self) -> (r: &[u8])
        ensures
            r@ == self.name@,
    {
        self.name.as_slice()
    }

    fn newparent(&self) -> (r: u64)
        ensures
            r == (self.newparent),
    {
        self.newparent
    }

    fn newname(&self) -> (r: &[u8])
        ensures
            r@ == self.newname@,
    {
        self.newname.as_slice()
    }

    fn flags(&self) -> (r: u32)
        ensures
            r == (self.flags),
    {
        self.flags
    }
}

/// Create a hard link.
pub trait Link {
    /// Return the inode number of the existing file that the new link refers to.
    fn ino(&self) -> u64;

    /// Return the inode number of the parent directory where the hard link is created.
    fn newparent(&self) -> u64;

    /// Return the name of the hard link to be created.
    fn newname(&self) -> &[u8];
}

/// Decoded LINK request.
#[derive(Clone, Debug)]
pub struct LinkOp {
    pub ino: u64,
    pub newparent: u64,
    pub newname: Vec<u8>,
}

impl Link for LinkOp {
    fn ino(&self) -> (r: u64)
        ensures
            r == (self.ino),
    {
        self.ino
    }

    fn newparent(&self) -> (r: u64)
        ensures
            r == (self.newparent),
    {
        self.newparent
    }

    fn newname(&self) -> (r: &[u8])
        ensures
            r@ == self.newname@,
    {
        self.newname.as_slice()
    }
}

/// Open a file.
pub trait Open {
    /// Return the inode number to be opened.
    fn ino(&self) -> u64;

    /// Return the open flags.
    fn flags(&self) -> u32;
}

/// Decoded OPEN request.
#[derive(Clone, Copy, Debug, PartialEq, Eq, Structural)]
pub struct OpenOp {
    pub ino: u64,
    pub arg: OpenIn,
}

impl Open for OpenOp {
    fn ino(&self) -> (r: u64)
        ensures
            r == (self.ino),
    {
        self.ino
    }

    fn flags(&self) -> (r: u32)
        ensures
            r == (self.arg.flags),
    {
        self.arg.flags
    }
}

/// Read data from a file.
pub trait Read {
    /// Return the inode number to be read.
    fn ino(&self) -> u64;

    /// Return the handle of opened file.
    fn fh(&self) -> u64;

    /// Return the starting position of the content to be read.
    fn offset(&self) -> u64;

    /// Return the length of the data to be read.
    fn size(&self) -> u32;

    /// Return the flags specified at opening the file.
    fn flags(&self) -> u32;

    /// Return the identifier of lock owner.
    fn lock_owner(&self) -> Option<LockOwner>;
}

/// Decoded READ request.
#[derive(Clone, Copy, Debug, PartialEq, Eq, Structural)]
pub struct ReadOp {
    pub ino: u64,
    pub arg: ReadIn,
}

impl Read for ReadOp {
    fn ino(&self) -> (r: u64)
        ensures
            r == (self.ino),
    {
        self.ino
    }

    fn fh(&self) -> (r: u64)
        ensures
            r == (self.arg.fh),
    {
        self.arg.fh
    }

    fn offset(&self) -> (r: u64)
        ensures
            r == (self.arg.offset),
    {
        self.arg.offset
    }

    fn size(&self) -> (r: u32)
        ensures
            r == (self.arg.size),
    {
        self.arg.size
    }

    fn flags(&self) -> (r: u32)
        ensures
            r == (self.arg.flags),
    {
        self.arg.flags
    }

    fn lock_owner(&self) -> (r: Option<LockOwner>)
        ensures
            r == (if self.arg.read_flags & FUSE_READ_LOCKOWNER != 0 {
                Some(LockOwner(self.arg.lock_owner))
            } else {
                None
            }),
    {
        if self.arg.read_flags & FUSE_READ_LOCKOWNER != 0 {
            Some(LockOwner(self.arg.lock_owner))
        } else {
            None
        }
    }
}

/// Write data to a file.
pub trait Write {
    /// Return the inode number to be written.
    fn ino(&self) -> u64;

    /// Return the handle of opened file.
    fn fh(&self) -> u64;

    /// Return the starting position of contents to be written.
    fn offset(&self) -> u64;

    /// Return the length of contents to be written.
    fn size(&self) -> u32;

    /// Return the flags specified at opening the file.
    fn flags(&self) -> u32;

    /// Return the identifier of lock owner.
    fn lock_owner(&self) -> Option<LockOwner>;

    /// Return the payload to be written.
    fn data(&self) -> &[u8];
}

/// Decoded WRITE request, with its payload.
#[derive(Clone, Debug)]
pub struct WriteOp {
    pub ino: u64,
    pub arg: WriteIn,
    pub data: Vec<u8>,
}

impl Write for WriteOp {
    fn ino(&self) -> (r: u64)
        ensures
            r == (self.ino),
    {
        self.ino
    }

    fn fh(&self) -> (r: u64)
        ensures
            r == (self.arg.fh),
    {
        self.arg.fh
    }

    fn offset(&self) -> (r: u64)
        ensures
            r == (self.arg.offset),
    {
        self.arg.offset
    }

    fn size(&self) -> (r: u32)
        ensures
            r == (self.arg.size),
    {
        self.arg.size
    }

    fn flags(&self) -> (r: u32)
        ensures
            r == (self.arg.flags),
    {
        self.arg.flags
    }

    fn lock_owner(&self) -> (r: Option<LockOwner>)
        ensures
            r == (if self.arg.write_flags & FUSE_WRITE_LOCKOWNER != 0 {
                Some(LockOwner(self.arg.lock_owner))
            } else {
                None
            }),
    {
        if self.arg.write_flags & FUSE_WRITE_LOCKOWNER != 0 {
            Some(LockOwner(self.arg.lock_owner))
        } else {
            None
        }
    }

    fn data(&self) -> (r: &[u8])
        ensures
            r@ == self.data@,
    {
        self.data.as_slice()
    }
}

/// Release an opened file.
pub trait Release {
    /// Return the inode number of opened file.
    fn ino(&self) -> u64;

    /// Return the handle of opened file.
    fn fh(&self) -> u64;

    /// Return the flags specified at opening the file.
    fn flags(&self) -> u32;

    /// Return the identifier of lock owner.
    fn lock_owner(&self) -> LockOwner;

    /// Return whether the operation indicates a flush.
    fn flush(&self) -> bool;

    /// Return whether the `flock` locks for this file should be released.
    fn flock_release(&self) -> bool;
}

/// Decoded RELEASE request.
#[derive(Clone, Copy, Debug, PartialEq, Eq, Structural)]
pub struct ReleaseOp {
    pub ino: u64,
    pub arg: ReleaseIn,
}

impl Release for ReleaseOp {
    fn ino(&self) -> (r: u64)
        ensures
            r == (self.ino),
    {
        self.ino
    }

    fn fh(&self) -> (r: u64)
        ensures
            r == (self.arg.fh),
    {
        self.arg.fh
    }

    fn flags(&self) -> (r: u32)
        ensures
            r == (self.arg.flags),
    {
        self.arg.flags
    }

    fn lock_owner(&self) -> (r: LockOwner)
        ensures
            r == (LockOwner(self.arg.lock_owner)),
    {
        LockOwner(self.arg.lock_owner)
    }

    fn flush(&self) -> (r: bool)
        ensures
            r == (self.arg.release_flags & FUSE_RELEASE_FLUSH != 0),
    {
        self.arg.release_flags & FUSE_RELEASE_FLUSH != 0
    }

    fn flock_release(&self) -> (r: bool)
        ensures
            r == (self.arg.release_flags & FUSE_RELEASE_FLOCK_UNLOCK != 0),
    {
        self.arg.release_flags & FUSE_RELEASE_FLOCK_UNLOCK != 0
    }
}

/// Get the filesystem statistics.
pub trait Statfs {
    /// Return the inode number or `0` which means "undefined".
    fn ino(&self) -> u64;
}

/// Decoded STATFS request.
#[derive(Clone, Copy, Debug, PartialEq, Eq, Structural)]
pub struct StatfsOp {
    pub ino: u64,
}

impl Statfs for StatfsOp {
    fn ino(&self) -> (r: u64)
        ensures
            r == (self.ino),
    {
        self.ino
    }
}

/// Synchronize the file contents.
pub trait Fsync {
    /// Return the inode number to be synchronized.
    fn ino(&self) -> u64;

    /// Return the handle of opened file.
    fn fh(&self) -> u64;

    /// Return whether to synchronize only the file contents.
    fn datasync(&self) -> bool;
}

/// Decoded FSYNC request.
#[derive(Clone, Copy, Debug, PartialEq, Eq, Structural)]
pub struct FsyncOp {
    pub ino: u64,
    pub arg: FsyncIn,
}

impl Fsync for FsyncOp {
    fn ino(&self) -> (r: u64)
        ensures
            r == (self.ino),
    {
        self.ino
    }

    fn fh(&self) -> (r: u64)
        ensures
            r == (self.arg.fh),
    {
        self.arg.fh
    }

    fn datasync(&self) -> (r: bool)
        ensures
            r == (self.arg.fsync_flags & FUSE_FSYNC_FDATASYNC != 0),
    {
        self.arg.fsync_flags & FUSE_FSYNC_FDATASYNC != 0
    }
}

/// Set an extended attribute.
pub trait Setxattr {
    /// Return the inode number to set the value of extended attribute.
    fn ino(&self) -> u64;

    /// Return the name of extended attribute to be set.
    fn name(&self) -> &[u8];

    /// Return the value of extended attribute.
    fn value(&self) -> &[u8];

    /// Return the flags that specifies the meanings of this operation.
    fn flags(&self) -> u32;
}

/// Decoded SETXATTR request.
#[derive(Clone, Debug)]
pub struct SetxattrOp {
    pub ino: u64,
    pub arg: SetxattrIn,
    pub name: Vec<u8>,
    pub value: Vec<u8>,
}

impl Setxattr for SetxattrOp {
    fn ino(&self) -> (r: u64)
        ensures
            r == (self.ino),
    {
        self.ino
    }

    fn name(&self) -> (r: &[u8])
        ensures
            r@ == self.name@,
    {
        self.name.as_slice()
    }

    fn value(&self) -> (r: &[u8])
        ensures
            r@ == self.value@,
    {
        self.value.as_slice()
    }

    fn flags(&self) -> (r: u32)
        ensures
            r == (self.arg.flags),
    {
        self.arg.flags
    }
}

/// Get an extended attribute.
pub trait Getxattr {
    /// Return the inode number to be get the extended attribute.
    fn ino(&self) -> u64;

    /// Return the name of the extend attribute.
    fn name(&self) -> &[u8];

    /// Return the maximum length of the attribute value to be replied.
    fn size(&self) -> u32;
}

/// Decoded GETXATTR request.
#[derive(Clone, Debug)]
pub struct GetxattrOp {
    pub ino: u64,
    pub arg: GetxattrIn,
    pub name: Vec<u8>,
}

impl Getxattr for GetxattrOp {
    fn ino(&self) -> (r: u64)
        ensures
            r == (self.ino),
    {
        self.ino
    }

    fn name(&self) -> (r: &[u8])
        ensures
            r@ == self.name@,
    {
        self.name.as_slice()
    }

    fn size(&self) -> (r: u32)
        ensures
            r == (self.arg.size),
    {
        self.arg.size
    }
}

/// List extended attribute names.
pub trait Listxattr {
    /// Return the inode number to be obtained the attribute names.
    fn ino(&self) -> u64;

    /// Return the maximum length of the attribute names to be replied.
    fn size(&self) -> u32;
}

/// Decoded LISTXATTR request.
#[derive(Clone, Copy, Debug, PartialEq, Eq, Structural)]
pub struct ListxattrOp {
    pub ino: u64,
    pub arg: GetxattrIn,
}

impl Listxattr for ListxattrOp {
    fn ino(&self) -> (r: u64)
        ensures
            r == (self.ino),
    {
        self.ino
    }

    fn size(&self) -> (r: u32)
        ensures
            r == (self.arg.size),
    {
        self.arg.size
    }
}

/// Remove an extended attribute.
pub trait Removexattr {
    /// Return the inode number to remove the extended attribute.
    fn ino(&self) -> u64;

    /// Return the name of extended attribute to be removed.
    fn name(&self) -> &[u8];
}

/// Decoded REMOVEXATTR request.
#[derive(Clone, Debug)]
pub struct RemovexattrOp {
    pub ino: u64,
    pub name: Vec<u8>,
}

impl Removexattr for RemovexattrOp {
    fn ino(&self) -> (r: u64)
        ensures
            r == (self.ino),
    {
        self.ino
    }

    fn name(&self) -> (r: &[u8])
        ensures
            r@ == self.name@,
    {
        self.name.as_slice()
    }
}

/// Close a file descriptor.
pub trait Flush {
    /// Return the inode number of target file.
    fn ino(&self) -> u64;

    /// Return the handle of opened file.
    fn fh(&self) -> u64;

    /// Return the identifier of lock owner.
    fn lock_owner(&self) -> LockOwner;
}

/// Decoded FLUSH request.
#[derive(Clone, Copy, Debug, PartialEq, Eq, Structural)]
pub struct FlushOp {
    pub ino: u64,
    pub arg: FlushIn,
}

impl Flush for FlushOp {
    fn ino(&self) -> (r: u64)
        ensures
            r == (self.ino),
    {
        self.ino
    }

    fn fh(&self) -> (r: u64)
        ensures
            r == (self.arg.fh),
    {
        self.arg.fh
    }

    fn lock_owner(&self) -> (r: LockOwner)
        ensures
            r == (LockOwner(self.arg.lock_owner)),
    {
        LockOwner(self.arg.lock_owner)
    }
}

/// Open a directory.
pub trait Opendir {
    /// Return the inode number to be opened.
    fn ino(&self) -> u64;

    /// Return the open flags.
    fn flags(&self) -> u32;
}

/// Decoded OPENDIR request.
#[derive(Clone, Copy, Debug, PartialEq, Eq, Structural)]
pub struct OpendirOp {
    pub ino: u64,
    pub arg: OpenIn,
}

impl Opendir for OpendirOp {
    fn ino(&self) -> (r: u64)
        ensures
            r == (self.ino),
    {
        self.ino
    }

    fn flags(&self) -> (r: u32)
        ensures
            r == (self.arg.flags),
    {
        self.arg.flags
    }
}

/// Read contents from an opened directory.
pub trait Readdir {
    /// Return the inode number to be read.
    fn ino(&self) -> u64;

    /// Return the handle of opened directory.
    fn fh(&self) -> u64;

    /// Return the *offset* value to continue reading the directory stream.
    fn offset(&self) -> u64;

    /// Return the maximum length of returned data.
    fn size(&self) -> u32;
}

/// Decoded READDIR request.
#[derive(Clone, Copy, Debug, PartialEq, Eq, Structural)]
pub struct ReaddirOp {
    pub ino: u64,
    pub arg: ReadIn,
}

impl Readdir for ReaddirOp {
    fn ino(&self) -> (r: u64)
        ensures
            r == (self.ino),
    {
        self.ino
    }

    fn fh(&self) -> (r: u64)
        ensures
            r == (self.arg.fh),
    {
        self.arg.fh
    }

    fn offset(&self) -> (r: u64)
        ensures
            r == (self.arg.offset),
    {
        self.arg.offset
    }

    fn size(&self) -> (r: u32)
        ensures
            r == (self.arg.size),
    {
        self.arg.size
    }
}

/// Release an opened directory.
pub trait Releasedir {
    /// Return the inode number of opened directory.
    fn ino(&self) -> u64;

    /// Return the handle of opened directory.
    fn fh(&self) -> u64;

    /// Return the flags specified at opening the directory.
    fn flags(&self) -> u32;
}

/// Decoded RELEASEDIR request.
#[derive(Clone, Copy, Debug, PartialEq, Eq, Structural)]
pub struct ReleasedirOp {
    pub ino: u64,
    pub arg: ReleaseIn,
}

impl Releasedir for ReleasedirOp {
    fn ino(&self) -> (r: u64)
        ensures
            r == (self.ino),
    {
        self.ino
    }

    fn fh(&self) -> (r: u64)
        ensures
            r == (self.arg.fh),
    {
        self.arg.fh
    }

    fn flags(&self) -> (r: u32)
        ensures
            r == (self.arg.flags),
    {
        self.arg.flags
    }
}

/// Synchronize the directory contents.
pub trait Fsyncdir {
    /// Return the inode number to be synchronized.
    fn ino(&self) -> u64;

    /// Return the handle of opened directory.
    fn fh(&self) -> u64;

    /// Return whether to synchronize only the directory contents.
    fn datasync(&self) -> bool;
}

/// Decoded FSYNCDIR request.
#[derive(Clone, Copy, Debug, PartialEq, Eq, Structural)]
pub struct FsyncdirOp {
    pub ino: u64,
    pub arg: FsyncIn,
}

impl Fsyncdir for FsyncdirOp {
    fn ino(&self) -> (r: u64)
        ensures
            r == (self.ino),
    {
        self.ino
    }

    fn fh(&self) -> (r: u64)
        ensures
            r == (self.arg.fh),
    {
        self.arg.fh
    }

    fn datasync(&self) -> (r: bool)
        ensures
            r == (self.arg.fsync_flags & FUSE_FSYNC_FDATASYNC != 0),
    {
        self.arg.fsync_flags & FUSE_FSYNC_FDATASYNC != 0
    }
}

/// Test for a POSIX file lock.
pub trait Getlk {
    /// Return the inode number to be tested the lock.
    fn ino(&self) -> u64;

    /// Return the handle of opened file.
    fn fh(&self) -> u64;

    /// Return the identifier of lock owner.
    fn owner(&self) -> LockOwner;

    /// Return the lock type.
    fn typ(&self) -> u32;

    /// Return the start of the locked range.
    fn start(&self) -> u64;

    /// Return the end of the locked range.
    fn end(&self) -> u64;

    /// Return the process ID of the lock holder.
    fn pid(&self) -> u32;
}

/// Decoded GETLK request.
#[derive(Clone, Copy, Debug, PartialEq, Eq, Structural)]
pub struct GetlkOp {
    pub ino: u64,
    pub arg: LkIn,
}

impl Getlk for GetlkOp {
    fn ino(&self) -> (r: u64)
        ensures
            r == (self.ino),
    {
        self.ino
    }

    fn fh(&self) -> (r: u64)
        ensures
            r == (self.arg.fh),
    {
        self.arg.fh
    }

    fn owner(&self) -> (r: LockOwner)
        ensures
            r == (LockOwner(self.arg.owner)),
    {
        LockOwner(self.arg.owner)
    }

    fn typ(&self) -> (r: u32)
        ensures
            r == (self.arg.typ),
    {
        self.arg.typ
    }

    fn start(&self) -> (r: u64)
        ensures
            r == (self.arg.start),
    {
        self.arg.start
    }

    fn end(&self) -> (r: u64)
        ensures
            r == (self.arg.end),
    {
        self.arg.end
    }

    fn pid(&self) -> (r: u32)
        ensures
            r == (self.arg.pid),
    {
        self.arg.pid
    }
}

/// Acquire, modify or release a POSIX file lock.
pub trait Setlk {
    /// Return the inode number to be obtained the lock.
    fn ino(&self) -> u64;

    /// Return the handle of opened file.
    fn fh(&self) -> u64;

    /// Return the identifier of lock owner.
    fn owner(&self) -> LockOwner;

    /// Return the lock type.
    fn typ(&self) -> u32;

    /// Return the start of the locked range.
    fn start(&self) -> u64;

    /// Return the end of the locked range.
    fn end(&self) -> u64;

    /// Return the process ID of the lock holder.
    fn pid(&self) -> u32;

    /// Return whether the locking operation might sleep until a lock is obtained.
    fn sleep(&self) -> bool;
}

/// Decoded SETLK or SETLKW request on a POSIX lock.
#[derive(Clone, Copy, Debug, PartialEq, Eq, Structural)]
pub struct SetlkOp {
    pub ino: u64,
    pub arg: LkIn,
    pub sleep: bool,
}

impl Setlk for SetlkOp {
    fn ino(&self) -> (r: u64)
        ensures
            r == (self.ino),
    {
        self.ino
    }

    fn fh(&self) -> (r: u64)
        ensures
            r == (self.arg.fh),
    {
        self.arg.fh
    }

    fn owner(&self) -> (r: LockOwner)
        ensures
            r == (LockOwner(self.arg.owner)),
    {
        LockOwner(self.arg.owner)
    }

    fn typ(&self) -> (r: u32)
        ensures
            r == (self.arg.typ),
    {
        self.arg.typ
    }

    fn start(&self) -> (r: u64)
        ensures
            r == (self.arg.start),
    {
        self.arg.start
    }

    fn end(&self) -> (r: u64)
        ensures
            r == (self.arg.end),
    {
        self.arg.end
    }

    fn pid(&self) -> (r: u32)
        ensures
            r == (self.arg.pid),
    {
        self.arg.pid
    }

    fn sleep(&self) -> (r: bool)
        ensures
            r == (self.sleep),
    {
        self.sleep
    }
}

/// Acquire, modify or release a BSD file lock.
pub trait Flock {
    /// Return the target inode number.
    fn ino(&self) -> u64;

    /// Return the handle of opened file.
    fn fh(&self) -> u64;

    /// Return the identifier of lock owner.
    fn owner(&self) -> LockOwner;

    /// Return the locking operation of `flock(2)`, or `None` for an unknown lock type.
    fn op(&self) -> Option<u32>;
}

/// Decoded SETLK or SETLKW request on a BSD lock.
#[derive(Clone, Copy, Debug, PartialEq, Eq, Structural)]
pub struct FlockOp {
    pub ino: u64,
    pub arg: LkIn,
    pub sleep: bool,
}

impl Flock for FlockOp {
    fn ino(&self) -> (r: u64)
        ensures
            r == (self.ino),
    {
        self.ino
    }

    fn fh(&self) -> (r: u64)
        ensures
            r == (self.arg.fh),
    {
        self.arg.fh
    }

    fn owner(&self) -> (r: LockOwner)
        ensures
            r == (LockOwner(self.arg.owner)),
    {
        LockOwner(self.arg.owner)
    }

    fn op(&self) -> (r: Option<u32>)
        ensures
            r == (flock_op(self.arg.typ, self.sleep)),
    {
        flock_op(self.arg.typ, self.sleep)
    }
}

/// Check file access permissions.
pub trait Access {
    /// Return the inode number subject to the access permission check.
    fn ino(&self) -> u64;

    /// Return the requested access mode.
    fn mask(&self) -> u32;
}

/// Decoded ACCESS request.
#[derive(Clone, Copy, Debug, PartialEq, Eq, Structural)]
pub struct AccessOp {
    pub ino: u64,
    pub arg: AccessIn,
}

impl Access for AccessOp {
    fn ino(&self) -> (r: u64)
        ensures
            r == (self.ino),
    {
        self.ino
    }

    fn mask(&self) -> (r: u32)
        ensures
            r == (self.arg.mask),
    {
        self.arg.mask
    }
}

/// Create and open a file.
pub trait Create {
    /// Return the inode number of the parent directory.
    fn parent(&self) -> u64;

    /// Return the file name to crate.
    fn name(&self) -> &[u8];

    /// Return the file type and permissions used when creating the new file.
    fn mode(&self) -> u32;

    /// Return the umask of the calling process.
    fn umask(&self) -> u32;

    /// Return the open flags.
    fn open_flags(&self) -> u32;
}

/// Decoded CREATE request.
#[derive(Clone, Debug)]
pub struct CreateOp {
    pub parent: u64,
    pub arg: CreateIn,
    pub name: Vec<u8>,
}

impl Create for CreateOp {
    fn parent(&self) -> (r: u64)
        ensures
            r == (self.parent),
    {
        self.parent
    }

    fn name(&self) -> (r: &[u8])
        ensures
            r@ == self.name@,
    {
        self.name.as_slice()
    }

    fn mode(&self) -> (r: u32)
        ensures
            r == (self.arg.mode),
    {
        self.arg.mode
    }

    fn umask(&self) -> (r: u32)
        ensures
            r == (self.arg.umask),
    {
        self.arg.umask
    }

    fn open_flags(&self) -> (r: u32)
        ensures
            r == (self.arg.flags),
    {
        self.arg.flags
    }
}

/// Map block index within a file to block index within device.
pub trait Bmap {
    /// Return the inode number of the file node to be mapped.
    fn ino(&self) -> u64;

    /// Return the block index to be mapped.
    fn block(&self) -> u64;

    /// Returns the unit of block index.
    fn blocksize(&self) -> u32;
}

/// Decoded BMAP request.
#[derive(Clone, Copy, Debug, PartialEq, Eq, Structural)]
pub struct BmapOp {
    pub ino: u64,
    pub arg: BmapIn,
}

impl Bmap for BmapOp {
    fn ino(&self) -> (r: u64)
        ensures
            r == (self.ino),
    {
        self.ino
    }

    fn block(&self) -> (r: u64)
        ensures
            r == (self.arg.block),
    {
        self.arg.block
    }

    fn blocksize(&self) -> (r: u32)
        ensures
            r == (self.arg.blocksize),
    {
        self.arg.blocksize
    }
}

/// Allocate requested space.
pub trait Fallocate {
    /// Return the number of target inode to be allocated the space.
    fn ino(&self) -> u64;

    /// Return the handle for opened file.
    fn fh(&self) -> u64;

    /// Return the starting point of region to be allocated.
    fn offset(&self) -> u64;

    /// Return the length of region to be allocated.
    fn length(&self) -> u64;

    /// Return the mode that specifies how to allocate the region.
    fn mode(&self) -> u32;
}

/// Decoded FALLOCATE request.
#[derive(Clone, Copy, Debug, PartialEq, Eq, Structural)]
pub struct FallocateOp {
    pub ino: u64,
    pub arg: FallocateIn,
}

impl Fallocate for FallocateOp {
    fn ino(&self) -> (r: u64)
        ensures
            r == (self.ino),
    {
        self.ino
    }

    fn fh(&self) -> (r: u64)
        ensures
            r == (self.arg.fh),
    {
        self.arg.fh
    }

    fn offset(&self) -> (r: u64)
        ensures
            r == (self.arg.offset),
    {
        self.arg.offset
    }

    fn length(&self) -> (r: u64)
        ensures
            r == (self.arg.length),
    {
        self.arg.length
    }

    fn mode(&self) -> (r: u32)
        ensures
            r == (self.arg.mode),
    {
        self.arg.mode
    }
}

/// Copy a range of data from an opened file to another.
pub trait CopyFileRange {
    /// Return the inode number of source file.
    fn ino_in(&self) -> u64;

    /// Return the file handle of source file.
    fn fh_in(&self) -> u64;

    /// Return the starting point of source file where the data should be read.
    fn offset_in(&self) -> u64;

    /// Return the inode number of target file.
    fn ino_out(&self) -> u64;

    /// Return the file handle of target file.
    fn fh_out(&self) -> u64;

    /// Return the starting point of target file where the data should be written.
    fn offset_out(&self) -> u64;

    /// Return the maximum size of data to copy.
    fn length(&self) -> u64;

    /// Return the flag value for `copy_file_range` syscall.
    fn flags(&self) -> u64;
}

/// Decoded COPY_FILE_RANGE request.
#[derive(Clone, Copy, Debug, PartialEq, Eq, Structural)]
pub struct CopyFileRangeOp {
    pub ino: u64,
    pub arg: CopyFileRangeIn,
}

impl CopyFileRange for CopyFileRangeOp {
    fn ino_in(&self) -> (r: u64)
        ensures
            r == (self.ino),
    {
        self.ino
    }

    fn fh_in(&self) -> (r: u64)
        ensures
            r == (self.arg.fh_in),
    {
        self.arg.fh_in
    }

    fn offset_in(&self) -> (r: u64)
        ensures
            r == (self.arg.off_in),
    {
        self.arg.off_in
    }

    fn ino_out(&self) -> (r: u64)
        ensures
            r == (self.arg.nodeid_out),
    {
        self.arg.nodeid_out
    }

    fn fh_out(&self) -> (r: u64)
        ensures
            r == (self.arg.fh_out),
    {
        self.arg.fh_out
    }

    fn offset_out(&self) -> (r: u64)
        ensures
            r == (self.arg.off_out),
    {
        self.arg.off_out
    }

    fn length(&self) -> (r: u64)
        ensures
            r == (self.arg.len),
    {
        self.arg.len
    }

    fn flags(&self) -> (r: u64)
        ensures
            r == (self.arg.flags),
    {
        self.arg.flags
    }
}

/// Poll for readiness.
pub trait Poll {
    /// Return the inode number to check the I/O readiness.
    fn ino(&self) -> u64;

    /// Return the handle of opened file.
    fn fh(&self) -> u64;

    /// Return the requested poll events.
    fn events(&self) -> u32;

    /// Return the handle to this poll, if the kernel asks to be notified.
    fn kh(&self) -> Option<u64>;
}

/// Decoded POLL request.
#[derive(Clone, Copy, Debug, PartialEq, Eq, Structural)]
pub struct PollOp {
    pub ino: u64,
    pub arg: PollIn,
}

impl Poll for PollOp {
    fn ino(&self) -> (r: u64)
        ensures
            r == (self.ino),
    {
        self.ino
    }

    fn fh(&self) -> (r: u64)
        ensures
            r == (self.arg.fh),
    {
        self.arg.fh
    }

    fn events(&self) -> (r: u32)
        ensures
            r == (self.arg.events),
    {
        self.arg.events
    }

    fn kh(&self) -> (r: Option<u64>)
        ensures
            r == (if self.arg.flags & FUSE_POLL_SCHEDULE_NOTIFY != 0 {
                Some(self.arg.kh)
            } else {
                None
            }),
    {
        if self.arg.flags & FUSE_POLL_SCHEDULE_NOTIFY != 0 {
            Some(self.arg.kh)
        } else {
            None
        }
    }
}

} // verus!
