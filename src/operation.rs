//! The tagged union of decoded requests, and the decoder that selects the
//! variant by opcode and reads its arguments.
use crate::abi::{
    AccessIn, BatchForgetIn, BmapIn, CopyFileRangeIn, CreateIn, FallocateIn, FlushIn, ForgetIn,
    ForgetOne, FsyncIn, GetattrIn, GetxattrIn, InHeader, InterruptIn, LinkIn, LkIn, MkdirIn,
    MknodIn, NotifyRetrieveIn, OpenIn, PollIn, ReadIn, ReleaseIn, Rename2In, RenameIn, SetattrIn,
    SetxattrIn, WriteIn, FUSE_ACCESS, FUSE_BATCH_FORGET, FUSE_BMAP, FUSE_COPY_FILE_RANGE,
    FUSE_CREATE, FUSE_DESTROY, FUSE_FALLOCATE, FUSE_FLUSH, FUSE_FORGET, FUSE_FSYNC, FUSE_FSYNCDIR,
    FUSE_GETATTR, FUSE_GETLK, FUSE_GETXATTR, FUSE_INTERRUPT, FUSE_LINK, FUSE_LISTXATTR,
    FUSE_LK_FLOCK, FUSE_LOOKUP, FUSE_MKDIR, FUSE_MKNOD, FUSE_NOTIFY_REPLY, FUSE_OPEN,
    FUSE_OPENDIR, FUSE_POLL, FUSE_READ, FUSE_READDIR, FUSE_READLINK, FUSE_RELEASE,
    FUSE_RELEASEDIR, FUSE_REMOVEXATTR, FUSE_RENAME, FUSE_RENAME2, FUSE_RMDIR, FUSE_SETATTR,
    FUSE_SETLK, FUSE_SETLKW, FUSE_SETXATTR, FUSE_STATFS, FUSE_SYMLINK, FUSE_UNLINK, FUSE_WRITE,
};
use crate::decoder::{
    encode, encode_cstr, lemma_parse_bytes_encode, lemma_parse_cstr_encode,
    lemma_parse_fixed_encode, nul_free, parse_bytes, parse_cstr, parse_fixed, Decoder, Wire,
};
use crate::op::{
    AccessOp, BmapOp, CopyFileRangeOp, CreateOp, FallocateOp, FlockOp, FlushOp, ForgetEntry,
    FsyncOp, FsyncdirOp, GetattrOp, GetlkOp, GetxattrOp, LinkOp, ListxattrOp, LookupOp, MkdirOp,
    MknodOp, OpenOp, OpendirOp, PollOp, ReadOp, ReaddirOp, ReadlinkOp, ReleaseOp, ReleasedirOp,
    RemovexattrOp, RenameOp, RmdirOp, SetattrOp, SetlkOp, SetxattrOp, StatfsOp, SymlinkOp,
    UnlinkOp, WriteOp,
};
use vstd::prelude::*;
use vstd::slice::slice_to_vec;

verus! {

/// Decoded NOTIFY_REPLY request: the kernel's answer to a retrieve notification.
#[derive(Clone, Debug)]
pub struct NotifyReplyOp {
    /// The correlation id that the retrieve notification carried.
    pub unique: u64,
    pub ino: u64,
    pub offset: u64,
    pub size: u32,
    /// The retrieved data.
    pub data: Vec<u8>,
}

/// A decoded request, one variant per opcode.
#[derive(Clone, Debug)]
pub enum Operation {
    Lookup(LookupOp),
    /// FORGET and BATCH_FORGET, as the ordered `(inode, lookup count)` pairs.
    Forget(Vec<ForgetEntry>),
    Getattr(GetattrOp),
    Setattr(SetattrOp),
    Readlink(ReadlinkOp),
    Symlink(SymlinkOp),
    Mknod(MknodOp),
    Mkdir(MkdirOp),
    Unlink(UnlinkOp),
    Rmdir(RmdirOp),
    Rename(RenameOp),
    Link(LinkOp),
    Open(OpenOp),
    Read(ReadOp),
    Write(WriteOp),
    Release(ReleaseOp),
    Statfs(StatfsOp),
    Fsync(FsyncOp),
    Setxattr(SetxattrOp),
    Getxattr(GetxattrOp),
    Listxattr(ListxattrOp),
    Removexattr(RemovexattrOp),
    Flush(FlushOp),
    Opendir(OpendirOp),
    Readdir(ReaddirOp),
    Releasedir(ReleasedirOp),
    Fsyncdir(FsyncdirOp),
    Getlk(GetlkOp),
    Setlk(SetlkOp),
    Flock(FlockOp),
    Access(AccessOp),
    Create(CreateOp),
    Bmap(BmapOp),
    Fallocate(FallocateOp),
    CopyFileRange(CopyFileRangeOp),
    Poll(PollOp),
    NotifyReply(NotifyReplyOp),
    /// Cancel the pending request with this unique id.
    Interrupt(u64),
    Destroy,
    /// An opcode that this library does not handle.
    Unknown,
}

/// Why the arguments of a request could not be decoded.
#[derive(Clone, Copy, Debug, PartialEq, Eq, Structural)]
pub enum DecodeError {
    /// The argument region is shorter than the opcode's layout, or a name lacks its NUL.
    InvalidArg,
}

/// The fixed block at the start of `s`, if `s` is long enough.
pub open spec fn arg_of<T: Wire>(s: Seq<u8>) -> Option<T> {
    match parse_fixed::<T>(s) {
        Some((a, _)) => Some(a),
        None => None,
    }
}

/// What follows the fixed block at the start of `s`.
pub open spec fn after<T: Wire>(s: Seq<u8>) -> Seq<u8> {
    match parse_fixed::<T>(s) {
        Some((_, t)) => t,
        None => Seq::empty(),
    }
}

/// The NUL-terminated name at the start of `s`, without its NUL.
pub open spec fn cstr_of(s: Seq<u8>) -> Option<Seq<u8>> {
    match parse_cstr(s) {
        Some((n, _)) => Some(n),
        None => None,
    }
}

/// What follows the name at the start of `s`.
pub open spec fn after_cstr(s: Seq<u8>) -> Seq<u8> {
    match parse_cstr(s) {
        Some((_, t)) => t,
        None => Seq::empty(),
    }
}

/// The first `n` bytes of `s`, if it has them.
pub open spec fn bytes_of(s: Seq<u8>, n: nat) -> Option<Seq<u8>> {
    match parse_bytes(s, n) {
        Some((b, _)) => Some(b),
        None => None,
    }
}

/// `n` forget entries read one after another from the start of `s`.
pub open spec fn forget_list(s: Seq<u8>, n: nat) -> Option<Seq<ForgetEntry>>
    decreases n,
{
    if n == 0 {
        Some(Seq::empty())
    } else {
        match parse_fixed::<ForgetOne>(s) {
            Some((f, t)) => match forget_list(t, (n - 1) as nat) {
                Some(l) => Some(seq![ForgetEntry { ino: f.nodeid, nlookup: f.nlookup }] + l),
                None => None,
            },
            None => None,
        }
    }
}

/// Two names one after the other at the start of `s`.
pub open spec fn two_names(s: Seq<u8>, a: Seq<u8>, b: Seq<u8>) -> bool {
    cstr_of(s) == Some(a) && cstr_of(after_cstr(s)) == Some(b)
}

/// The argument region `s` holds what the opcode's layout asks for.
pub open spec fn well_formed(opcode: u32, s: Seq<u8>) -> bool {
    if opcode == FUSE_LOOKUP || opcode == FUSE_UNLINK || opcode == FUSE_RMDIR || opcode
        == FUSE_REMOVEXATTR {
        cstr_of(s) is Some
    } else if opcode == FUSE_SYMLINK {
        cstr_of(s) is Some && cstr_of(after_cstr(s)) is Some
    } else if opcode == FUSE_FORGET {
        arg_of::<ForgetIn>(s) is Some
    } else if opcode == FUSE_BATCH_FORGET {
        arg_of::<BatchForgetIn>(s) matches Some(a) && forget_list(
            after::<BatchForgetIn>(s),
            a.count as nat,
        ) is Some
    } else if opcode == FUSE_GETATTR {
        arg_of::<GetattrIn>(s) is Some
    } else if opcode == FUSE_SETATTR {
        arg_of::<SetattrIn>(s) is Some
    } else if opcode == FUSE_MKNOD {
        arg_of::<MknodIn>(s) is Some && cstr_of(after::<MknodIn>(s)) is Some
    } else if opcode == FUSE_MKDIR {
        arg_of::<MkdirIn>(s) is Some && cstr_of(after::<MkdirIn>(s)) is Some
    } else if opcode == FUSE_RENAME {
        arg_of::<RenameIn>(s) is Some && cstr_of(after::<RenameIn>(s)) is Some && cstr_of(
            after_cstr(after::<RenameIn>(s)),
        ) is Some
    } else if opcode == FUSE_RENAME2 {
        arg_of::<Rename2In>(s) is Some && cstr_of(after::<Rename2In>(s)) is Some && cstr_of(
            after_cstr(after::<Rename2In>(s)),
        ) is Some
    } else if opcode == FUSE_LINK {
        arg_of::<LinkIn>(s) is Some && cstr_of(after::<LinkIn>(s)) is Some
    } else if opcode == FUSE_OPEN || opcode == FUSE_OPENDIR {
        arg_of::<OpenIn>(s) is Some
    } else if opcode == FUSE_READ || opcode == FUSE_READDIR {
        arg_of::<ReadIn>(s) is Some
    } else if opcode == FUSE_WRITE {
        arg_of::<WriteIn>(s) is Some
    } else if opcode == FUSE_RELEASE || opcode == FUSE_RELEASEDIR {
        arg_of::<ReleaseIn>(s) is Some
    } else if opcode == FUSE_FSYNC || opcode == FUSE_FSYNCDIR {
        arg_of::<FsyncIn>(s) is Some
    } else if opcode == FUSE_SETXATTR {
        arg_of::<SetxattrIn>(s) matches Some(a) && cstr_of(after::<SetxattrIn>(s)) is Some
            && bytes_of(after_cstr(after::<SetxattrIn>(s)), a.size as nat) is Some
    } else if opcode == FUSE_GETXATTR {
        arg_of::<GetxattrIn>(s) is Some && cstr_of(after::<GetxattrIn>(s)) is Some
    } else if opcode == FUSE_LISTXATTR {
        arg_of::<GetxattrIn>(s) is Some
    } else if opcode == FUSE_FLUSH {
        arg_of::<FlushIn>(s) is Some
    } else if opcode == FUSE_GETLK || opcode == FUSE_SETLK || opcode == FUSE_SETLKW {
        arg_of::<LkIn>(s) is Some
    } else if opcode == FUSE_ACCESS {
        arg_of::<AccessIn>(s) is Some
    } else if opcode == FUSE_CREATE {
        arg_of::<CreateIn>(s) is Some && cstr_of(after::<CreateIn>(s)) is Some
    } else if opcode == FUSE_BMAP {
        arg_of::<BmapIn>(s) is Some
    } else if opcode == FUSE_FALLOCATE {
        arg_of::<FallocateIn>(s) is Some
    } else if opcode == FUSE_COPY_FILE_RANGE {
        arg_of::<CopyFileRangeIn>(s) is Some
    } else if opcode == FUSE_POLL {
        arg_of::<PollIn>(s) is Some
    } else if opcode == FUSE_NOTIFY_REPLY {
        arg_of::<NotifyRetrieveIn>(s) is Some
    } else if opcode == FUSE_INTERRUPT {
        arg_of::<InterruptIn>(s) is Some
    } else {
        true
    }
}

/// The opcodes that decode to a variant other than `Unknown`.
pub open spec fn known_opcode(opcode: u32) -> bool {
    ||| opcode == FUSE_LOOKUP
    ||| opcode == FUSE_FORGET
    ||| opcode == FUSE_GETATTR
    ||| opcode == FUSE_SETATTR
    ||| opcode == FUSE_READLINK
    ||| opcode == FUSE_SYMLINK
    ||| opcode == FUSE_MKNOD
    ||| opcode == FUSE_MKDIR
    ||| opcode == FUSE_UNLINK
    ||| opcode == FUSE_RMDIR
    ||| opcode == FUSE_RENAME
    ||| opcode == FUSE_LINK
    ||| opcode == FUSE_OPEN
    ||| opcode == FUSE_READ
    ||| opcode == FUSE_WRITE
    ||| opcode == FUSE_STATFS
    ||| opcode == FUSE_RELEASE
    ||| opcode == FUSE_FSYNC
    ||| opcode == FUSE_SETXATTR
    ||| opcode == FUSE_GETXATTR
    ||| opcode == FUSE_LISTXATTR
    ||| opcode == FUSE_REMOVEXATTR
    ||| opcode == FUSE_FLUSH
    ||| opcode == FUSE_OPENDIR
    ||| opcode == FUSE_READDIR
    ||| opcode == FUSE_RELEASEDIR
    ||| opcode == FUSE_FSYNCDIR
    ||| opcode == FUSE_GETLK
    ||| opcode == FUSE_SETLK
    ||| opcode == FUSE_SETLKW
    ||| opcode == FUSE_ACCESS
    ||| opcode == FUSE_CREATE
    ||| opcode == FUSE_INTERRUPT
    ||| opcode == FUSE_BMAP
    ||| opcode == FUSE_DESTROY
    ||| opcode == FUSE_POLL
    ||| opcode == FUSE_NOTIFY_REPLY
    ||| opcode == FUSE_BATCH_FORGET
    ||| opcode == FUSE_FALLOCATE
    ||| opcode == FUSE_RENAME2
    ||| opcode == FUSE_COPY_FILE_RANGE
}

/// `op` is what a request with header `h` and argument region `s` holds.
pub open spec fn decoded(op: Operation, h: InHeader, s: Seq<u8>) -> bool {
    let ino = h.nodeid;
    let c = h.opcode;
    match op {
        Operation::Lookup(x) => c == FUSE_LOOKUP && x.parent == ino && cstr_of(s) == Some(x.name@),
        Operation::Forget(v) => {
            ||| (c == FUSE_FORGET && (arg_of::<ForgetIn>(s) matches Some(a) && v@ == seq![
                ForgetEntry { ino, nlookup: a.nlookup },
            ]))
            ||| (c == FUSE_BATCH_FORGET && (arg_of::<BatchForgetIn>(s) matches Some(a)
                && forget_list(after::<BatchForgetIn>(s), a.count as nat) == Some(v@)))
        },
        Operation::Getattr(x) => c == FUSE_GETATTR && x.ino == ino && arg_of::<GetattrIn>(s)
            == Some(x.arg),
        Operation::Setattr(x) => c == FUSE_SETATTR && x.ino == ino && arg_of::<SetattrIn>(s)
            == Some(x.arg),
        Operation::Readlink(x) => c == FUSE_READLINK && x.ino == ino,
        Operation::Symlink(x) => c == FUSE_SYMLINK && x.parent == ino && two_names(
            s,
            x.name@,
            x.link@,
        ),
        Operation::Mknod(x) => c == FUSE_MKNOD && x.parent == ino && arg_of::<MknodIn>(s) == Some(
            x.arg,
        ) && cstr_of(after::<MknodIn>(s)) == Some(x.name@),
        Operation::Mkdir(x) => c == FUSE_MKDIR && x.parent == ino && arg_of::<MkdirIn>(s) == Some(
            x.arg,
        ) && cstr_of(after::<MkdirIn>(s)) == Some(x.name@),
        Operation::Unlink(x) => c == FUSE_UNLINK && x.parent == ino && cstr_of(s) == Some(x.name@),
        Operation::Rmdir(x) => c == FUSE_RMDIR && x.parent == ino && cstr_of(s) == Some(x.name@),
        Operation::Rename(x) => x.parent == ino && {
            ||| (c == FUSE_RENAME && (arg_of::<RenameIn>(s) matches Some(a) && x.newparent
                == a.newdir && x.flags == 0 && two_names(
                after::<RenameIn>(s),
                x.name@,
                x.newname@,
            )))
            ||| (c == FUSE_RENAME2 && (arg_of::<Rename2In>(s) matches Some(a) && x.newparent
                == a.newdir && x.flags == a.flags && two_names(
                after::<Rename2In>(s),
                x.name@,
                x.newname@,
            )))
        },
        Operation::Link(x) => {
            &&& c == FUSE_LINK
            &&& x.newparent == ino
            &&& (arg_of::<LinkIn>(s) matches Some(a) && x.ino == a.oldnodeid)
            &&& cstr_of(after::<LinkIn>(s)) == Some(x.newname@)
        },
        Operation::Open(x) => c == FUSE_OPEN && x.ino == ino && arg_of::<OpenIn>(s) == Some(x.arg),
        Operation::Read(x) => c == FUSE_READ && x.ino == ino && arg_of::<ReadIn>(s) == Some(x.arg),
        Operation::Write(x) => c == FUSE_WRITE && x.ino == ino && arg_of::<WriteIn>(s) == Some(
            x.arg,
        ) && x.data@ == after::<WriteIn>(s),
        Operation::Release(x) => c == FUSE_RELEASE && x.ino == ino && arg_of::<ReleaseIn>(s)
            == Some(x.arg),
        Operation::Statfs(x) => c == FUSE_STATFS && x.ino == ino,
        Operation::Fsync(x) => c == FUSE_FSYNC && x.ino == ino && arg_of::<FsyncIn>(s) == Some(
            x.arg,
        ),
        Operation::Setxattr(x) => c == FUSE_SETXATTR && x.ino == ino && arg_of::<SetxattrIn>(s)
            == Some(x.arg) && cstr_of(after::<SetxattrIn>(s)) == Some(x.name@) && bytes_of(
            after_cstr(after::<SetxattrIn>(s)),
            x.arg.size as nat,
        ) == Some(x.value@),
        Operation::Getxattr(x) => c == FUSE_GETXATTR && x.ino == ino && arg_of::<GetxattrIn>(s)
            == Some(x.arg) && cstr_of(after::<GetxattrIn>(s)) == Some(x.name@),
        Operation::Listxattr(x) => c == FUSE_LISTXATTR && x.ino == ino && arg_of::<GetxattrIn>(s)
            == Some(x.arg),
        Operation::Removexattr(x) => c == FUSE_REMOVEXATTR && x.ino == ino && cstr_of(s) == Some(
            x.name@,
        ),
        Operation::Flush(x) => c == FUSE_FLUSH && x.ino == ino && arg_of::<FlushIn>(s) == Some(
            x.arg,
        ),
        Operation::Opendir(x) => c == FUSE_OPENDIR && x.ino == ino && arg_of::<OpenIn>(s) == Some(
            x.arg,
        ),
        Operation::Readdir(x) => c == FUSE_READDIR && x.ino == ino && arg_of::<ReadIn>(s) == Some(
            x.arg,
        ),
        Operation::Releasedir(x) => c == FUSE_RELEASEDIR && x.ino == ino && arg_of::<ReleaseIn>(s)
            == Some(x.arg),
        Operation::Fsyncdir(x) => c == FUSE_FSYNCDIR && x.ino == ino && arg_of::<FsyncIn>(s)
            == Some(x.arg),
        Operation::Getlk(x) => c == FUSE_GETLK && x.ino == ino && arg_of::<LkIn>(s) == Some(x.arg),
        Operation::Setlk(x) => (c == FUSE_SETLK || c == FUSE_SETLKW) && x.ino == ino && arg_of::<
            LkIn,
        >(s) == Some(x.arg) && x.arg.lk_flags & FUSE_LK_FLOCK == 0 && x.sleep == (c
            == FUSE_SETLKW),
        Operation::Flock(x) => (c == FUSE_SETLK || c == FUSE_SETLKW) && x.ino == ino && arg_of::<
            LkIn,
        >(s) == Some(x.arg) && x.arg.lk_flags & FUSE_LK_FLOCK != 0 && x.sleep == (c
            == FUSE_SETLKW),
        Operation::Access(x) => c == FUSE_ACCESS && x.ino == ino && arg_of::<AccessIn>(s) == Some(
            x.arg,
        ),
        Operation::Create(x) => c == FUSE_CREATE && x.parent == ino && arg_of::<CreateIn>(s)
            == Some(x.arg) && cstr_of(after::<CreateIn>(s)) == Some(x.name@),
        Operation::Bmap(x) => c == FUSE_BMAP && x.ino == ino && arg_of::<BmapIn>(s) == Some(x.arg),
        Operation::Fallocate(x) => c == FUSE_FALLOCATE && x.ino == ino && arg_of::<FallocateIn>(s)
            == Some(x.arg),
        Operation::CopyFileRange(x) => c == FUSE_COPY_FILE_RANGE && x.ino == ino && arg_of::<
            CopyFileRangeIn,
        >(s) == Some(x.arg),
        Operation::Poll(x) => c == FUSE_POLL && x.ino == ino && arg_of::<PollIn>(s) == Some(x.arg),
        Operation::NotifyReply(x) => c == FUSE_NOTIFY_REPLY && x.unique == h.unique && x.ino == ino
            && (arg_of::<NotifyRetrieveIn>(s) matches Some(a) && x.offset == a.offset && x.size
            == a.size) && x.data@ == after::<NotifyRetrieveIn>(s),
        Operation::Interrupt(u) => c == FUSE_INTERRUPT && (arg_of::<InterruptIn>(s) matches Some(a)
            && u == a.unique),
        Operation::Destroy => c == FUSE_DESTROY,
        Operation::Unknown => !known_opcode(c),
    }
}

fn need<T>(o: Option<T>) -> (r: Result<T, DecodeError>)
    ensures
        match o {
            Some(x) => r == Ok::<T, DecodeError>(x),
            None => r == Err::<T, DecodeError>(DecodeError::InvalidArg),
        },
{
    match o {
        Some(x) => Ok(x),
        None => Err(DecodeError::InvalidArg),
    }
}

impl Operation {
    /// Decode the argument region `arg` of a request with header `header`.
    ///
    /// The variant is selected by the opcode; opcodes that this library does
    /// not handle give `Unknown`. Names come without their NUL terminator, and
    /// the payload of WRITE and NOTIFY_REPLY is everything after the fixed
    /// block.
    pub fn decode(header: &InHeader, arg: &[u8]) -> (r: Result<Operation, DecodeError>)
        ensures
            r is Ok <==> well_formed(header.opcode, arg@),
            r matches Ok(op) ==> decoded(op, *header, arg@),
    {
        let mut d = Decoder::new(arg);
        let ino = header.nodeid;
        let c = header.opcode;
        if c == FUSE_LOOKUP {
            let name = need(d.fetch_cstr())?;
            Ok(Operation::Lookup(LookupOp { parent: ino, name: slice_to_vec(name) }))
        } else if c == FUSE_UNLINK {
            let name = need(d.fetch_cstr())?;
            Ok(Operation::Unlink(UnlinkOp { parent: ino, name: slice_to_vec(name) }))
        } else if c == FUSE_RMDIR {
            let name = need(d.fetch_cstr())?;
            Ok(Operation::Rmdir(RmdirOp { parent: ino, name: slice_to_vec(name) }))
        } else if c == FUSE_REMOVEXATTR {
            let name = need(d.fetch_cstr())?;
            Ok(Operation::Removexattr(RemovexattrOp { ino, name: slice_to_vec(name) }))
        } else if c == FUSE_SYMLINK {
            let name = need(d.fetch_cstr())?;
            let link = need(d.fetch_cstr())?;
            Ok(
                Operation::Symlink(
                    SymlinkOp { parent: ino, name: slice_to_vec(name), link: slice_to_vec(link) },
                ),
            )
        } else if c == FUSE_FORGET {
            let a = need(d.fetch::<ForgetIn>())?;
            let v = vec![ForgetEntry { ino, nlookup: a.nlookup }];
            assert(v@ =~= seq![ForgetEntry { ino, nlookup: a.nlookup }]);
            Ok(Operation::Forget(v))
        } else if c == FUSE_BATCH_FORGET {
            let a = need(d.fetch::<BatchForgetIn>())?;
            let v = decode_forget_list(&mut d, a.count)?;
            Ok(Operation::Forget(v))
        } else if c == FUSE_GETATTR {
            let arg = need(d.fetch::<GetattrIn>())?;
            Ok(Operation::Getattr(GetattrOp { ino, arg }))
        } else if c == FUSE_SETATTR {
            let arg = need(d.fetch::<SetattrIn>())?;
            Ok(Operation::Setattr(SetattrOp { ino, arg }))
        } else if c == FUSE_READLINK {
            Ok(Operation::Readlink(ReadlinkOp { ino }))
        } else if c == FUSE_MKNOD {
            let arg = need(d.fetch::<MknodIn>())?;
            let name = need(d.fetch_cstr())?;
            Ok(Operation::Mknod(MknodOp { parent: ino, arg, name: slice_to_vec(name) }))
        } else if c == FUSE_MKDIR {
            let arg = need(d.fetch::<MkdirIn>())?;
            let name = need(d.fetch_cstr())?;
            Ok(Operation::Mkdir(MkdirOp { parent: ino, arg, name: slice_to_vec(name) }))
        } else if c == FUSE_RENAME {
            let arg = need(d.fetch::<RenameIn>())?;
            let name = need(d.fetch_cstr())?;
            let newname = need(d.fetch_cstr())?;
            Ok(
                Operation::Rename(
                    RenameOp {
                        parent: ino,
                        newparent: arg.newdir,
                        flags: 0,
                        name: slice_to_vec(name),
                        newname: slice_to_vec(newname),
                    },
                ),
            )
        } else if c == FUSE_RENAME2 {
            let arg = need(d.fetch::<Rename2In>())?;
            let name = need(d.fetch_cstr())?;
            let newname = need(d.fetch_cstr())?;
            Ok(
                Operation::Rename(
                    RenameOp {
                        parent: ino,
                        newparent: arg.newdir,
                        flags: arg.flags,
                        name: slice_to_vec(name),
                        newname: slice_to_vec(newname),
                    },
                ),
            )
        } else if c == FUSE_LINK {
            let arg = need(d.fetch::<LinkIn>())?;
            let newname = need(d.fetch_cstr())?;
            Ok(
                Operation::Link(
                    LinkOp { ino: arg.oldnodeid, newparent: ino, newname: slice_to_vec(newname) },
                ),
            )
        } else if c == FUSE_OPEN {
            let arg = need(d.fetch::<OpenIn>())?;
            Ok(Operation::Open(OpenOp { ino, arg }))
        } else if c == FUSE_READ {
            let arg = need(d.fetch::<ReadIn>())?;
            Ok(Operation::Read(ReadOp { ino, arg }))
        } else if c == FUSE_WRITE {
            let arg = need(d.fetch::<WriteIn>())?;
            let data = slice_to_vec(d.remaining());
            Ok(Operation::Write(WriteOp { ino, arg, data }))
        } else if c == FUSE_STATFS {
            Ok(Operation::Statfs(StatfsOp { ino }))
        } else if c == FUSE_RELEASE {
            let arg = need(d.fetch::<ReleaseIn>())?;
            Ok(Operation::Release(ReleaseOp { ino, arg }))
        } else if c == FUSE_FSYNC {
            let arg = need(d.fetch::<FsyncIn>())?;
            Ok(Operation::Fsync(FsyncOp { ino, arg }))
        } else if c == FUSE_SETXATTR {
            let arg = need(d.fetch::<SetxattrIn>())?;
            let name = need(d.fetch_cstr())?;
            let value = need(d.fetch_bytes(arg.size as usize))?;
            Ok(
                Operation::Setxattr(
                    SetxattrOp {
                        ino,
                        arg,
                        name: slice_to_vec(name),
                        value: slice_to_vec(value),
                    },
                ),
            )
        } else if c == FUSE_GETXATTR {
            let arg = need(d.fetch::<GetxattrIn>())?;
            let name = need(d.fetch_cstr())?;
            Ok(Operation::Getxattr(GetxattrOp { ino, arg, name: slice_to_vec(name) }))
        } else if c == FUSE_LISTXATTR {
            let arg = need(d.fetch::<GetxattrIn>())?;
            Ok(Operation::Listxattr(ListxattrOp { ino, arg }))
        } else if c == FUSE_FLUSH {
            let arg = need(d.fetch::<FlushIn>())?;
            Ok(Operation::Flush(FlushOp { ino, arg }))
        } else if c == FUSE_OPENDIR {
            let arg = need(d.fetch::<OpenIn>())?;
            Ok(Operation::Opendir(OpendirOp { ino, arg }))
        } else if c == FUSE_READDIR {
            let arg = need(d.fetch::<ReadIn>())?;
            Ok(Operation::Readdir(ReaddirOp { ino, arg }))
        } else if c == FUSE_RELEASEDIR {
            let arg = need(d.fetch::<ReleaseIn>())?;
            Ok(Operation::Releasedir(ReleasedirOp { ino, arg }))
        } else if c == FUSE_FSYNCDIR {
            let arg = need(d.fetch::<FsyncIn>())?;
            Ok(Operation::Fsyncdir(FsyncdirOp { ino, arg }))
        } else if c == FUSE_GETLK {
            let arg = need(d.fetch::<LkIn>())?;
            Ok(Operation::Getlk(GetlkOp { ino, arg }))
        } else if c == FUSE_SETLK || c == FUSE_SETLKW {
            let arg = need(d.fetch::<LkIn>())?;
            let sleep = c == FUSE_SETLKW;
            if arg.lk_flags & FUSE_LK_FLOCK != 0 {
                Ok(Operation::Flock(FlockOp { ino, arg, sleep }))
            } else {
                Ok(Operation::Setlk(SetlkOp { ino, arg, sleep }))
            }
        } else if c == FUSE_ACCESS {
            let arg = need(d.fetch::<AccessIn>())?;
            Ok(Operation::Access(AccessOp { ino, arg }))
        } else if c == FUSE_CREATE {
            let arg = need(d.fetch::<CreateIn>())?;
            let name = need(d.fetch_cstr())?;
            Ok(Operation::Create(CreateOp { parent: ino, arg, name: slice_to_vec(name) }))
        } else if c == FUSE_BMAP {
            let arg = need(d.fetch::<BmapIn>())?;
            Ok(Operation::Bmap(BmapOp { ino, arg }))
        } else if c == FUSE_FALLOCATE {
            let arg = need(d.fetch::<FallocateIn>())?;
            Ok(Operation::Fallocate(FallocateOp { ino, arg }))
        } else if c == FUSE_COPY_FILE_RANGE {
            let arg = need(d.fetch::<CopyFileRangeIn>())?;
            Ok(Operation::CopyFileRange(CopyFileRangeOp { ino, arg }))
        } else if c == FUSE_POLL {
            let arg = need(d.fetch::<PollIn>())?;
            Ok(Operation::Poll(PollOp { ino, arg }))
        } else if c == FUSE_NOTIFY_REPLY {
            let arg = need(d.fetch::<NotifyRetrieveIn>())?;
            let data = slice_to_vec(d.remaining());
            Ok(
                Operation::NotifyReply(
                    NotifyReplyOp {
                        unique: header.unique,
                        ino,
                        offset: arg.offset,
                        size: arg.size,
                        data,
                    },
                ),
            )
        } else if c == FUSE_INTERRUPT {
            let arg = need(d.fetch::<InterruptIn>())?;
            Ok(Operation::Interrupt(arg.unique))
        } else if c == FUSE_DESTROY {
            Ok(Operation::Destroy)
        } else {
            Ok(Operation::Unknown)
        }
    }
}

/// Read `count` forget entries.
fn decode_forget_list(d: &mut Decoder, count: u32) -> (r: Result<Vec<ForgetEntry>, DecodeError>)
    requires
        old(d).wf(),
    ensures
        final(d).wf(),
        match forget_list(old(d).rest(), count as nat) {
            Some(l) => r matches Ok(v) && v@ == l,
            None => r is Err,
        },
{
    let ghost s = d.rest();
    let mut v: Vec<ForgetEntry> = Vec::new();
    let mut i: u32 = 0;
    proof {
        if let Some(l) = forget_list(s, count as nat) {
            assert(v@ + l =~= l);
        }
    }
    while i < count
        invariant
            d.wf(),
            i <= count,
            s == old(d).rest(),
            forget_list(s, count as nat) == match forget_list(d.rest(), (count - i) as nat) {
                Some(l) => Some(v@ + l),
                None => None::<Seq<ForgetEntry>>,
            },
        decreases count - i,
    {
        let ghost k = (count - i) as nat;
        let ghost before = v@;
        let f = match d.fetch::<ForgetOne>() {
            Some(f) => f,
            None => {
                assert(forget_list(d.rest(), k) is None);
                return Err(DecodeError::InvalidArg);
            },
        };
        let e = ForgetEntry { ino: f.nodeid, nlookup: f.nlookup };
        v.push(e);
        proof {
            match forget_list(d.rest(), (k - 1) as nat) {
                Some(l) => {
                    assert(before + (seq![e] + l) =~= v@ + l);
                },
                None => {},
            }
        }
        i = i + 1;
    }
    Ok(v)
}

/// The bytes of a list of forget entries.
pub open spec fn forget_bytes(v: Seq<ForgetEntry>) -> Seq<u8>
    decreases v.len(),
{
    if v.len() == 0 {
        Seq::empty()
    } else {
        encode(ForgetOne { nodeid: v[0].ino, nlookup: v[0].nlookup }) + forget_bytes(v.drop_first())
    }
}

/// The opcode, inode field and argument region of a request that carries `op`.
pub open spec fn wire_of(op: Operation) -> (u32, u64, Seq<u8>) {
    let e = Seq::<u8>::empty();
    match op {
        Operation::Lookup(x) => (FUSE_LOOKUP, x.parent, encode_cstr(x.name@) + e),
        Operation::Forget(v) => (
            FUSE_BATCH_FORGET,
            0,
            encode(BatchForgetIn { count: v@.len() as u32 }) + (forget_bytes(v@) + e),
        ),
        Operation::Getattr(x) => (FUSE_GETATTR, x.ino, encode(x.arg) + e),
        Operation::Setattr(x) => (FUSE_SETATTR, x.ino, encode(x.arg) + e),
        Operation::Readlink(x) => (FUSE_READLINK, x.ino, e),
        Operation::Symlink(x) => (
            FUSE_SYMLINK,
            x.parent,
            encode_cstr(x.name@) + (encode_cstr(x.link@) + e),
        ),
        Operation::Mknod(x) => (FUSE_MKNOD, x.parent, encode(x.arg) + (encode_cstr(x.name@) + e)),
        Operation::Mkdir(x) => (FUSE_MKDIR, x.parent, encode(x.arg) + (encode_cstr(x.name@) + e)),
        Operation::Unlink(x) => (FUSE_UNLINK, x.parent, encode_cstr(x.name@) + e),
        Operation::Rmdir(x) => (FUSE_RMDIR, x.parent, encode_cstr(x.name@) + e),
        Operation::Rename(x) => (
            FUSE_RENAME2,
            x.parent,
            encode(Rename2In { newdir: x.newparent, flags: x.flags }) + (encode_cstr(x.name@) + (
            encode_cstr(x.newname@) + e)),
        ),
        Operation::Link(x) => (
            FUSE_LINK,
            x.newparent,
            encode(LinkIn { oldnodeid: x.ino }) + (encode_cstr(x.newname@) + e),
        ),
        Operation::Open(x) => (FUSE_OPEN, x.ino, encode(x.arg) + e),
        Operation::Read(x) => (FUSE_READ, x.ino, encode(x.arg) + e),
        Operation::Write(x) => (FUSE_WRITE, x.ino, encode(x.arg) + x.data@),
        Operation::Release(x) => (FUSE_RELEASE, x.ino, encode(x.arg) + e),
        Operation::Statfs(x) => (FUSE_STATFS, x.ino, e),
        Operation::Fsync(x) => (FUSE_FSYNC, x.ino, encode(x.arg) + e),
        Operation::Setxattr(x) => (
            FUSE_SETXATTR,
            x.ino,
            encode(x.arg) + (encode_cstr(x.name@) + (x.value@ + e)),
        ),
        Operation::Getxattr(x) => (
            FUSE_GETXATTR,
            x.ino,
            encode(x.arg) + (encode_cstr(x.name@) + e),
        ),
        Operation::Listxattr(x) => (FUSE_LISTXATTR, x.ino, encode(x.arg) + e),
        Operation::Removexattr(x) => (FUSE_REMOVEXATTR, x.ino, encode_cstr(x.name@) + e),
        Operation::Flush(x) => (FUSE_FLUSH, x.ino, encode(x.arg) + e),
        Operation::Opendir(x) => (FUSE_OPENDIR, x.ino, encode(x.arg) + e),
        Operation::Readdir(x) => (FUSE_READDIR, x.ino, encode(x.arg) + e),
        Operation::Releasedir(x) => (FUSE_RELEASEDIR, x.ino, encode(x.arg) + e),
        Operation::Fsyncdir(x) => (FUSE_FSYNCDIR, x.ino, encode(x.arg) + e),
        Operation::Getlk(x) => (FUSE_GETLK, x.ino, encode(x.arg) + e),
        Operation::Setlk(x) => (
            if x.sleep {
                FUSE_SETLKW
            } else {
                FUSE_SETLK
            },
            x.ino,
            encode(x.arg) + e,
        ),
        Operation::Flock(x) => (
            if x.sleep {
                FUSE_SETLKW
            } else {
                FUSE_SETLK
            },
            x.ino,
            encode(x.arg) + e,
        ),
        Operation::Access(x) => (FUSE_ACCESS, x.ino, encode(x.arg) + e),
        Operation::Create(x) => (FUSE_CREATE, x.parent, encode(x.arg) + (encode_cstr(x.name@) + e)),
        Operation::Bmap(x) => (FUSE_BMAP, x.ino, encode(x.arg) + e),
        Operation::Fallocate(x) => (FUSE_FALLOCATE, x.ino, encode(x.arg) + e),
        Operation::CopyFileRange(x) => (FUSE_COPY_FILE_RANGE, x.ino, encode(x.arg) + e),
        Operation::Poll(x) => (FUSE_POLL, x.ino, encode(x.arg) + e),
        Operation::NotifyReply(x) => (
            FUSE_NOTIFY_REPLY,
            x.ino,
            encode(NotifyRetrieveIn { offset: x.offset, size: x.size }) + x.data@,
        ),
        Operation::Interrupt(u) => (FUSE_INTERRUPT, 0, encode(InterruptIn { unique: u }) + e),
        Operation::Destroy => (FUSE_DESTROY, 0, e),
        Operation::Unknown => (0, 0, e),
    }
}

/// `op` can be put on the wire: names hold no NUL, an xattr value has the
/// announced size, a lock request's FLOCK bit matches its variant, a forget
/// list's length fits its count, and it is not `Unknown`.
pub open spec fn encodable(op: Operation) -> bool {
    match op {
        Operation::Lookup(x) => nul_free(x.name@),
        Operation::Forget(v) => v@.len() <= u32::MAX,
        Operation::Symlink(x) => nul_free(x.name@) && nul_free(x.link@),
        Operation::Mknod(x) => nul_free(x.name@),
        Operation::Mkdir(x) => nul_free(x.name@),
        Operation::Unlink(x) => nul_free(x.name@),
        Operation::Rmdir(x) => nul_free(x.name@),
        Operation::Rename(x) => nul_free(x.name@) && nul_free(x.newname@),
        Operation::Link(x) => nul_free(x.newname@),
        Operation::Setxattr(x) => nul_free(x.name@) && x.value@.len() == x.arg.size,
        Operation::Getxattr(x) => nul_free(x.name@),
        Operation::Removexattr(x) => nul_free(x.name@),
        Operation::Create(x) => nul_free(x.name@),
        Operation::Setlk(x) => x.arg.lk_flags & FUSE_LK_FLOCK == 0,
        Operation::Flock(x) => x.arg.lk_flags & FUSE_LK_FLOCK != 0,
        Operation::Unknown => false,
        _ => true,
    }
}

proof fn lemma_forget_round_trip(v: Seq<ForgetEntry>, tail: Seq<u8>)
    ensures
        forget_list(forget_bytes(v) + tail, v.len()) == Some(v),
    decreases v.len(),
{
    if v.len() > 0 {
        let f = ForgetOne { nodeid: v[0].ino, nlookup: v[0].nlookup };
        let rest = forget_bytes(v.drop_first()) + tail;
        assert(encode(f) + forget_bytes(v.drop_first()) + tail == encode(f) + rest);
        lemma_parse_fixed_encode(f, rest);
        lemma_forget_round_trip(v.drop_first(), tail);
        assert(seq![ForgetEntry { ino: f.nodeid, nlookup: f.nlookup }] + v.drop_first() =~= v);
    }
}

/// Decoding the wire form of an operation gives back that operation: its
/// fixed fields, its names (without their NUL) and its payload.
///
/// `decoded` fixes every field of the operation, so with the contract of
/// `Operation::decode`, a request that carries `op` decodes to `op`'s field
/// values.
pub proof fn lemma_decode_round_trip(op: Operation, h: InHeader)
    requires
        encodable(op),
        h.opcode == wire_of(op).0,
        h.nodeid == wire_of(op).1,
        op matches Operation::NotifyReply(x) ==> h.unique == x.unique,
    ensures
        well_formed(h.opcode, wire_of(op).2),
        decoded(op, h, wire_of(op).2),
{
    let e = Seq::<u8>::empty();
    match op {
        Operation::Lookup(x) => {
            lemma_parse_cstr_encode(x.name@, e);
        },
        Operation::Forget(v) => {
            let a = BatchForgetIn { count: v@.len() as u32 };
            lemma_parse_fixed_encode(a, forget_bytes(v@) + e);
            lemma_forget_round_trip(v@, e);
        },
        Operation::Getattr(x) => lemma_parse_fixed_encode(x.arg, e),
        Operation::Setattr(x) => lemma_parse_fixed_encode(x.arg, e),
        Operation::Readlink(x) => {},
        Operation::Symlink(x) => {
            lemma_parse_cstr_encode(x.name@, encode_cstr(x.link@) + e);
            lemma_parse_cstr_encode(x.link@, e);
        },
        Operation::Mknod(x) => {
            lemma_parse_fixed_encode(x.arg, encode_cstr(x.name@) + e);
            lemma_parse_cstr_encode(x.name@, e);
        },
        Operation::Mkdir(x) => {
            lemma_parse_fixed_encode(x.arg, encode_cstr(x.name@) + e);
            lemma_parse_cstr_encode(x.name@, e);
        },
        Operation::Unlink(x) => lemma_parse_cstr_encode(x.name@, e),
        Operation::Rmdir(x) => lemma_parse_cstr_encode(x.name@, e),
        Operation::Rename(x) => {
            let a = Rename2In { newdir: x.newparent, flags: x.flags };
            let names = encode_cstr(x.name@) + (encode_cstr(x.newname@) + e);
            lemma_parse_fixed_encode(a, names);
            lemma_parse_cstr_encode(x.name@, encode_cstr(x.newname@) + e);
            lemma_parse_cstr_encode(x.newname@, e);
        },
        Operation::Link(x) => {
            lemma_parse_fixed_encode(LinkIn { oldnodeid: x.ino }, encode_cstr(x.newname@) + e);
            lemma_parse_cstr_encode(x.newname@, e);
        },
        Operation::Open(x) => lemma_parse_fixed_encode(x.arg, e),
        Operation::Read(x) => lemma_parse_fixed_encode(x.arg, e),
        Operation::Write(x) => lemma_parse_fixed_encode(x.arg, x.data@),
        Operation::Release(x) => lemma_parse_fixed_encode(x.arg, e),
        Operation::Statfs(x) => {},
        Operation::Fsync(x) => lemma_parse_fixed_encode(x.arg, e),
        Operation::Setxattr(x) => {
            lemma_parse_fixed_encode(x.arg, encode_cstr(x.name@) + (x.value@ + e));
            lemma_parse_cstr_encode(x.name@, x.value@ + e);
            lemma_parse_bytes_encode(x.value@, e);
        },
        Operation::Getxattr(x) => {
            lemma_parse_fixed_encode(x.arg, encode_cstr(x.name@) + e);
            lemma_parse_cstr_encode(x.name@, e);
        },
        Operation::Listxattr(x) => lemma_parse_fixed_encode(x.arg, e),
        Operation::Removexattr(x) => lemma_parse_cstr_encode(x.name@, e),
        Operation::Flush(x) => lemma_parse_fixed_encode(x.arg, e),
        Operation::Opendir(x) => lemma_parse_fixed_encode(x.arg, e),
        Operation::Readdir(x) => lemma_parse_fixed_encode(x.arg, e),
        Operation::Releasedir(x) => lemma_parse_fixed_encode(x.arg, e),
        Operation::Fsyncdir(x) => lemma_parse_fixed_encode(x.arg, e),
        Operation::Getlk(x) => lemma_parse_fixed_encode(x.arg, e),
        Operation::Setlk(x) => lemma_parse_fixed_encode(x.arg, e),
        Operation::Flock(x) => lemma_parse_fixed_encode(x.arg, e),
        Operation::Access(x) => lemma_parse_fixed_encode(x.arg, e),
        Operation::Create(x) => {
            lemma_parse_fixed_encode(x.arg, encode_cstr(x.name@) + e);
            lemma_parse_cstr_encode(x.name@, e);
        },
        Operation::Bmap(x) => lemma_parse_fixed_encode(x.arg, e),
        Operation::Fallocate(x) => lemma_parse_fixed_encode(x.arg, e),
        Operation::CopyFileRange(x) => lemma_parse_fixed_encode(x.arg, e),
        Operation::Poll(x) => lemma_parse_fixed_encode(x.arg, e),
        Operation::NotifyReply(x) => {
            lemma_parse_fixed_encode(NotifyRetrieveIn { offset: x.offset, size: x.size }, x.data@);
        },
        Operation::Interrupt(u) => lemma_parse_fixed_encode(InterruptIn { unique: u }, e),
        Operation::Destroy => {},
        Operation::Unknown => {},
    }
}

/// Whatever decodes from the wire form of an operation has that same wire
/// form: the opcode, the inode field and every byte of the arguments are
/// given back, so no field of the operation is lost or changed by the round
/// trip.
pub proof fn lemma_decode_reencode(op: Operation, other: Operation, h: InHeader)
    requires
        encodable(op),
        h.opcode == wire_of(op).0,
        h.nodeid == wire_of(op).1,
        op matches Operation::NotifyReply(x) ==> h.unique == x.unique,
        decoded(other, h, wire_of(op).2),
    ensures
        wire_of(other) == wire_of(op),
{
    lemma_decode_round_trip(op, h);
}

} // verus!
