use polyfuse::abi::{
    InHeader, FATTR_ATIME, FATTR_ATIME_NOW, FATTR_CTIME, FATTR_MODE, FATTR_MTIME, FATTR_SIZE,
    FUSE_BATCH_FORGET, FUSE_FORGET, FUSE_INIT, FUSE_LK_FLOCK, FUSE_LOOKUP, FUSE_MKDIR,
    FUSE_NOTIFY_REPLY, FUSE_RELEASE, FUSE_RELEASE_FLUSH, FUSE_RENAME, FUSE_RENAME2,
    FUSE_SETATTR, FUSE_SETLK, FUSE_SETLKW, FUSE_SETXATTR, FUSE_SYMLINK, FUSE_WRITE,
    FUSE_WRITE_LOCKOWNER, F_RDLCK, F_UNLCK, F_WRLCK, LOCK_EX, LOCK_NB, LOCK_SH, LOCK_UN,
};
use polyfuse::decoder::Decoder;
use polyfuse::op::{
    Flock, Forget, LockOwner, Lookup, Mkdir, Release, Rename, SetAttrTime, Setattr, Setlk, Setxattr,
    Symlink, Timespec, Write,
};
use polyfuse::operation::{DecodeError, Operation};
use polyfuse::reply::{error_frame, reply_frame, send_reply};

fn header(opcode: u32, unique: u64, nodeid: u64) -> InHeader {
    InHeader { len: 0, opcode, unique, nodeid, uid: 0, gid: 0, pid: 0 }
}

fn u32s(vals: &[u32]) -> Vec<u8> {
    vals.iter().flat_map(|v| v.to_le_bytes()).collect()
}

fn u64s(vals: &[u64]) -> Vec<u8> {
    vals.iter().flat_map(|v| v.to_le_bytes()).collect()
}

fn lk_in(fh: u64, owner: u64, typ: u32, lk_flags: u32) -> Vec<u8> {
    let mut b = u64s(&[fh, owner, 10, 20]);
    b.extend(u32s(&[typ, 99, lk_flags, 0]));
    b
}

#[test]
fn write_payload_follows_fixed_block() {
    let mut arg = u64s(&[3, 4096]);
    arg.extend(u32s(&[5, FUSE_WRITE_LOCKOWNER]));
    arg.extend(u64s(&[0xfeed]));
    arg.extend(u32s(&[0o2, 0]));
    arg.extend_from_slice(b"hello");
    match Operation::decode(&header(FUSE_WRITE, 1, 8), &arg).unwrap() {
        Operation::Write(op) => {
            assert_eq!(op.ino(), 8);
            assert_eq!(op.fh(), 3);
            assert_eq!(op.offset(), 4096);
            assert_eq!(op.size(), 5);
            assert_eq!(op.flags(), 0o2);
            assert_eq!(op.lock_owner(), Some(LockOwner::from_raw(0xfeed)));
            assert_eq!(op.data(), b"hello");
        }
        other => panic!("unexpected {:?}", other),
    }
    assert_eq!(Operation::decode(&header(FUSE_WRITE, 1, 8), &arg[..39]).unwrap_err(), DecodeError::InvalidArg);
}

#[test]
fn rename_and_rename2_carry_two_names() {
    let mut arg = u64s(&[5]);
    arg.extend_from_slice(b"old\0new\0");
    match Operation::decode(&header(FUSE_RENAME, 1, 2), &arg).unwrap() {
        Operation::Rename(op) => {
            assert_eq!((op.parent(), op.newparent(), op.flags()), (2, 5, 0));
            assert_eq!((op.name(), op.newname()), (&b"old"[..], &b"new"[..]));
        }
        other => panic!("unexpected {:?}", other),
    }
    let mut arg = u64s(&[5]);
    arg.extend(u32s(&[1, 0]));
    arg.extend_from_slice(b"a\0b\0");
    match Operation::decode(&header(FUSE_RENAME2, 1, 2), &arg).unwrap() {
        Operation::Rename(op) => assert_eq!(op.flags(), 1),
        other => panic!("unexpected {:?}", other),
    }
    let mut arg = u64s(&[5]);
    arg.extend_from_slice(b"old\0new");
    assert_eq!(Operation::decode(&header(FUSE_RENAME, 1, 2), &arg).unwrap_err(), DecodeError::InvalidArg);
}

#[test]
fn symlink_and_mkdir_names() {
    match Operation::decode(&header(FUSE_SYMLINK, 1, 1), b"link\0target\0").unwrap() {
        Operation::Symlink(op) => {
            assert_eq!(op.name(), b"link");
            assert_eq!(op.link(), b"target");
        }
        other => panic!("unexpected {:?}", other),
    }
    let mut arg = u32s(&[0o755, 0o22]);
    arg.extend_from_slice(b"dir\0");
    match Operation::decode(&header(FUSE_MKDIR, 1, 1), &arg).unwrap() {
        Operation::Mkdir(op) => {
            assert_eq!((op.parent(), op.mode(), op.umask()), (1, 0o755, 0o22));
            assert_eq!(op.name(), b"dir");
        }
        other => panic!("unexpected {:?}", other),
    }
}

#[test]
fn missing_nul_is_invalid() {
    assert_eq!(Operation::decode(&header(FUSE_LOOKUP, 1, 1), b"hello").unwrap_err(), DecodeError::InvalidArg);
    assert_eq!(Operation::decode(&header(FUSE_LOOKUP, 1, 1), b"").unwrap_err(), DecodeError::InvalidArg);
    match Operation::decode(&header(FUSE_LOOKUP, 1, 1), b"\0").unwrap() {
        Operation::Lookup(op) => assert_eq!(op.name(), b""),
        other => panic!("unexpected {:?}", other),
    }
}

#[test]
fn setxattr_value_has_announced_size() {
    let mut arg = u32s(&[3, 1]);
    arg.extend_from_slice(b"user.a\0xyz");
    match Operation::decode(&header(FUSE_SETXATTR, 1, 4), &arg).unwrap() {
        Operation::Setxattr(op) => {
            assert_eq!(op.name(), b"user.a");
            assert_eq!(op.value(), b"xyz");
            assert_eq!(op.flags(), 1);
        }
        other => panic!("unexpected {:?}", other),
    }
    let mut short = u32s(&[4, 1]);
    short.extend_from_slice(b"user.a\0xyz");
    assert_eq!(Operation::decode(&header(FUSE_SETXATTR, 1, 4), &short).unwrap_err(), DecodeError::InvalidArg);
}

#[test]
fn forget_and_batch_forget_keep_order() {
    match Operation::decode(&header(FUSE_FORGET, 1, 9), &u64s(&[3])).unwrap() {
        Operation::Forget(v) => {
            assert_eq!(v.len(), 1);
            assert_eq!((v[0].ino(), v[0].nlookup()), (9, 3));
        }
        other => panic!("unexpected {:?}", other),
    }
    let mut arg = u32s(&[2, 0]);
    arg.extend(u64s(&[10, 1, 11, 2]));
    match Operation::decode(&header(FUSE_BATCH_FORGET, 1, 0), &arg).unwrap() {
        Operation::Forget(v) => {
            let pairs: Vec<(u64, u64)> = v.iter().map(|f| (f.ino(), f.nlookup())).collect();
            assert_eq!(pairs, vec![(10, 1), (11, 2)]);
        }
        other => panic!("unexpected {:?}", other),
    }
    assert_eq!(Operation::decode(&header(FUSE_BATCH_FORGET, 1, 0), &arg[..30]).unwrap_err(), DecodeError::InvalidArg);
}

#[test]
fn setattr_fields_follow_valid_bits() {
    let mut arg = u32s(&[FATTR_MODE | FATTR_SIZE | FATTR_ATIME | FATTR_ATIME_NOW | FATTR_MTIME | FATTR_CTIME, 0]);
    arg.extend(u64s(&[7, 1234, 0, 100, 200, 300]));
    arg.extend(u32s(&[1, 2, 3, 0o644, 0, 1000, 1000, 0]));
    match Operation::decode(&header(FUSE_SETATTR, 1, 5), &arg).unwrap() {
        Operation::Setattr(op) => {
            assert_eq!(op.ino(), 5);
            assert_eq!(op.fh(), None);
            assert_eq!(op.mode(), Some(0o644));
            assert_eq!(op.uid(), None);
            assert_eq!(op.gid(), None);
            assert_eq!(op.size(), Some(1234));
            assert_eq!(op.atime(), Some(SetAttrTime::Now));
            assert_eq!(op.mtime(), Some(SetAttrTime::Timespec(Timespec { secs: 200, nanos: 2 })));
            assert_eq!(op.ctime(), Some(Timespec { secs: 300, nanos: 3 }));
            assert_eq!(op.lock_owner(), None);
        }
        other => panic!("unexpected {:?}", other),
    }
}

#[test]
fn release_flush_bit() {
    let mut arg = u64s(&[6]);
    arg.extend(u32s(&[0o2, FUSE_RELEASE_FLUSH]));
    arg.extend(u64s(&[77]));
    match Operation::decode(&header(FUSE_RELEASE, 1, 3), &arg).unwrap() {
        Operation::Release(op) => {
            assert!(op.flush());
            assert!(!op.flock_release());
            assert_eq!(op.lock_owner().into_raw(), 77);
            assert_eq!(op.fh(), 6);
        }
        other => panic!("unexpected {:?}", other),
    }
}

#[test]
fn setlk_with_flock_bit_becomes_flock() {
    let cases = [
        (FUSE_SETLK, F_RDLCK, Some(LOCK_SH | LOCK_NB)),
        (FUSE_SETLKW, F_WRLCK, Some(LOCK_EX)),
        (FUSE_SETLKW, F_UNLCK, Some(LOCK_UN)),
        (FUSE_SETLK, 9, None),
    ];
    for (opcode, typ, expected) in cases {
        match Operation::decode(&header(opcode, 1, 2), &lk_in(4, 5, typ, FUSE_LK_FLOCK)).unwrap() {
            Operation::Flock(op) => {
                assert_eq!(op.op(), expected);
                assert_eq!(op.owner(), LockOwner::from_raw(5));
            }
            other => panic!("unexpected {:?}", other),
        }
    }
    match Operation::decode(&header(FUSE_SETLKW, 1, 2), &lk_in(4, 5, F_RDLCK, 0)).unwrap() {
        Operation::Setlk(op) => {
            assert!(op.sleep());
            assert_eq!((op.start(), op.end(), op.pid(), op.typ()), (10, 20, 99, F_RDLCK));
        }
        other => panic!("unexpected {:?}", other),
    }
}

#[test]
fn notify_reply_carries_retrieved_data() {
    let mut arg = u64s(&[0, 512]);
    arg.extend(u32s(&[3, 0]));
    arg.extend(u64s(&[0, 0]));
    arg.extend_from_slice(b"abc");
    match Operation::decode(&header(FUSE_NOTIFY_REPLY, 42, 7), &arg).unwrap() {
        Operation::NotifyReply(op) => {
            assert_eq!((op.unique, op.ino, op.offset, op.size), (42, 7, 512, 3));
            assert_eq!(op.data, b"abc".to_vec());
        }
        other => panic!("unexpected {:?}", other),
    }
}

#[test]
fn init_and_unknown_opcodes_decode_as_unknown() {
    assert!(matches!(Operation::decode(&header(FUSE_INIT, 1, 0), &[]), Ok(Operation::Unknown)));
    assert!(matches!(Operation::decode(&header(0x7FFF, 1, 0), &[1, 2, 3]), Ok(Operation::Unknown)));
}

#[test]
fn reply_frames_concatenate_segments() {
    let frame = reply_frame(9, &[b"ab".to_vec(), vec![], b"c".to_vec()]).unwrap();
    assert_eq!(&frame[0..4], &19u32.to_le_bytes());
    assert_eq!(&frame[4..8], &0i32.to_le_bytes());
    assert_eq!(&frame[8..16], &9u64.to_le_bytes());
    assert_eq!(&frame[16..], b"abc");
    let empty = reply_frame(3, &[]).unwrap();
    assert_eq!(empty.len(), 16);
}

#[test]
fn error_frames_negate_and_clamp() {
    let frame = error_frame(5, 2);
    assert_eq!(frame.len(), 16);
    assert_eq!(&frame[0..4], &16u32.to_le_bytes());
    assert_eq!(&frame[4..8], &(-2i32).to_le_bytes());
    assert_eq!(&frame[8..16], &5u64.to_le_bytes());
    let clamped = error_frame(5, i32::MIN);
    assert_eq!(&clamped[4..8], &i32::MAX.to_le_bytes());
    let frame = send_reply(1, 4, &[b"x".to_vec()]).unwrap();
    assert_eq!(&frame[0..4], &17u32.to_le_bytes());
    assert_eq!(&frame[4..8], &(-4i32).to_le_bytes());
}

#[test]
fn decoder_cursor_operations() {
    let bytes = [1u8, 0, 0, 0, b'a', 0, 9, 9, 9];
    let mut d = Decoder::new(&bytes);
    assert_eq!(d.fetch_bytes(4), Some(&bytes[0..4]));
    assert_eq!(d.fetch_cstr(), Some(&b"a"[..]));
    assert_eq!(d.remaining(), &[9, 9, 9]);
    assert_eq!(d.fetch_bytes(4), None);
    assert_eq!(d.remaining(), &[9, 9, 9]);
    assert_eq!(d.fetch_cstr(), None);
    assert_eq!(d.fetch_fields(&[2]), Some(vec![0x0909]));
    assert_eq!(d.remaining(), &[9]);
}

#[test]
fn lock_owner_round_trip() {
    assert_eq!(LockOwner::from_raw(0xdead_beef).into_raw(), 0xdead_beef);
    assert_eq!(LockOwner::from_raw(1), LockOwner::from_raw(1));
    assert_ne!(LockOwner::from_raw(1), LockOwner::from_raw(2));
}
