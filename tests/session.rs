use polyfuse::abi::{
    FUSE_BIG_WRITES, FUSE_DESTROY, FUSE_INIT, FUSE_INTERRUPT, FUSE_LOOKUP, FUSE_MAX_PAGES,
    FUSE_NO_OPENDIR_SUPPORT, FUSE_NO_OPEN_SUPPORT, FUSE_READ,
};
use polyfuse::interrupt::InterruptTable;
use polyfuse::op::{Lookup, Read};
use polyfuse::operation::Operation;
use polyfuse::flags::CapabilityFlags;
use polyfuse::init::{try_init, Config, Handshake, HandshakeStep, InitError, InitStep, DEFAULT_MAX_WRITE};
use polyfuse::session::{Dispatch, Intake, IntakeError, NotifyError, Request, Session};

const PAGESIZE: u32 = 4096;

fn in_header(len: u32, opcode: u32, unique: u64, nodeid: u64, uid: u32, gid: u32, pid: u32) -> Vec<u8> {
    let mut b = Vec::new();
    b.extend_from_slice(&len.to_le_bytes());
    b.extend_from_slice(&opcode.to_le_bytes());
    b.extend_from_slice(&unique.to_le_bytes());
    b.extend_from_slice(&nodeid.to_le_bytes());
    b.extend_from_slice(&uid.to_le_bytes());
    b.extend_from_slice(&gid.to_le_bytes());
    b.extend_from_slice(&pid.to_le_bytes());
    b.extend_from_slice(&0u32.to_le_bytes());
    b
}

fn init_in(major: u32, minor: u32, max_readahead: u32, flags: u32) -> Vec<u8> {
    let mut b = Vec::new();
    b.extend_from_slice(&major.to_le_bytes());
    b.extend_from_slice(&minor.to_le_bytes());
    b.extend_from_slice(&max_readahead.to_le_bytes());
    b.extend_from_slice(&flags.to_le_bytes());
    b
}

fn start_session() -> Session {
    let header = in_header(56, FUSE_INIT, 1, 0, 0, 0, 0);
    let arg = init_in(7, 31, 4096, CapabilityFlags::all().bits() | FUSE_MAX_PAGES);
    let mut d = polyfuse::decoder::Decoder::new(&header);
    let h = d.fetch::<polyfuse::abi::InHeader>().unwrap();
    match try_init(&Config::default(), &h, &arg, PAGESIZE) {
        InitStep::Established(_, s) => s,
        _ => panic!("initialization failed"),
    }
}

fn request(session: &Session, frame: Vec<u8>) -> Request {
    match session.next_request(Ok(frame)) {
        Intake::Request(r) => r,
        _ => panic!("no request"),
    }
}

fn out_header(b: &[u8]) -> (u32, i32, u64) {
    (
        u32::from_le_bytes(b[0..4].try_into().unwrap()),
        i32::from_le_bytes(b[4..8].try_into().unwrap()),
        u64::from_le_bytes(b[8..16].try_into().unwrap()),
    )
}

#[test]
fn init_default() {
    let input_len = 40 + 16;
    let header = in_header(input_len as u32, FUSE_INIT, 2, 0, 100, 100, 12);
    let arg = init_in(
        7,
        23,
        40,
        CapabilityFlags::all().bits() | FUSE_MAX_PAGES | FUSE_NO_OPEN_SUPPORT | FUSE_NO_OPENDIR_SUPPORT,
    );
    let mut input = Vec::with_capacity(input_len);
    input.extend_from_slice(&header);
    input.extend_from_slice(&arg);
    assert_eq!(input.len(), input_len);

    let mut d = polyfuse::decoder::Decoder::new(&input);
    let h = d.fetch::<polyfuse::abi::InHeader>().unwrap();
    let (output, session) = match try_init(&Config::default(), &h, d.remaining(), PAGESIZE) {
        InitStep::Established(frame, session) => (frame, session),
        _ => panic!("initialization failed"),
    };

    let expected_max_pages = (DEFAULT_MAX_WRITE / PAGESIZE) as u16;

    let output_len = 16 + 64;
    let mut expected = Vec::with_capacity(output_len);
    expected.extend_from_slice(&(output_len as u32).to_le_bytes());
    expected.extend_from_slice(&0i32.to_le_bytes());
    expected.extend_from_slice(&2u64.to_le_bytes());
    expected.extend_from_slice(&7u32.to_le_bytes());
    expected.extend_from_slice(&23u32.to_le_bytes());
    expected.extend_from_slice(&40u32.to_le_bytes());
    expected.extend_from_slice(
        &(CapabilityFlags::default().bits() | FUSE_MAX_PAGES | FUSE_BIG_WRITES).to_le_bytes(),
    );
    expected.extend_from_slice(&0u16.to_le_bytes());
    expected.extend_from_slice(&0u16.to_le_bytes());
    expected.extend_from_slice(&DEFAULT_MAX_WRITE.to_le_bytes());
    expected.extend_from_slice(&1u32.to_le_bytes());
    expected.extend_from_slice(&expected_max_pages.to_le_bytes());
    expected.extend_from_slice(&[0u8; 2 + 4 * 8]);
    assert_eq!(output.len(), output_len);

    assert_eq!(expected[0..4], output[0..4], "out_header.len");
    assert_eq!(expected[4..8], output[4..8], "out_header.error");
    assert_eq!(expected[8..16], output[8..16], "out_header.unique");

    let expected = &expected[16..];
    let output = &output[16..];
    assert_eq!(expected[0..4], output[0..4], "init_out.major");
    assert_eq!(expected[4..8], output[4..8], "init_out.minor");
    assert_eq!(expected[8..12], output[8..12], "init_out.max_readahead");
    assert_eq!(expected[12..16], output[12..16], "init_out.flags");
    assert_eq!(expected[16..18], output[16..18], "init_out.max_background");
    assert_eq!(expected[18..20], output[18..20], "init_out.congestion_threshold");
    assert_eq!(expected[20..24], output[20..24], "init_out.max_write");
    assert_eq!(expected[24..28], output[24..28], "init_out.time_gran");
    assert_eq!(expected[28..30], output[28..30], "init_out.max_pages");
    assert!(output[30..30 + 2 + 4 * 8].iter().all(|&b| b == 0x00), "init_out.paddings");

    let conn = session.connection_info();
    assert_eq!(conn.proto_major(), 7);
    assert_eq!(conn.proto_minor(), 23);
    assert_eq!(conn.max_readahead(), 40);
    assert_eq!(conn.max_background(), 0);
    assert_eq!(conn.congestion_threshold(), 0);
    assert_eq!(conn.max_write(), DEFAULT_MAX_WRITE);
    assert_eq!(conn.max_pages(), Some(expected_max_pages));
    assert_eq!(conn.time_gran(), 1);
    assert!(conn.no_open_support());
    assert!(conn.no_opendir_support());
    assert_eq!(session.bufsize(), 4096 + DEFAULT_MAX_WRITE as u64);
}

#[test]
fn init_newer_major_answers_version_and_waits() {
    let header = in_header(56, FUSE_INIT, 5, 0, 0, 0, 0);
    let mut d = polyfuse::decoder::Decoder::new(&header);
    let h = d.fetch::<polyfuse::abi::InHeader>().unwrap();
    match try_init(&Config::default(), &h, &init_in(8, 0, 0, 0), PAGESIZE) {
        InitStep::Continue(frame) => {
            assert_eq!(frame.len(), 80);
            assert_eq!(out_header(&frame), (80, 0, 5));
            assert_eq!(u32::from_le_bytes(frame[16..20].try_into().unwrap()), 7);
            assert_eq!(u32::from_le_bytes(frame[20..24].try_into().unwrap()), 31);
            assert!(frame[24..].iter().all(|&b| b == 0));
        }
        _ => panic!("expected the kernel to be asked to retry"),
    }
}

#[test]
fn init_old_versions_are_refused() {
    let header = in_header(56, FUSE_INIT, 6, 0, 0, 0, 0);
    let mut d = polyfuse::decoder::Decoder::new(&header);
    let h = d.fetch::<polyfuse::abi::InHeader>().unwrap();
    for (major, minor) in [(6u32, 40u32), (7, 22)] {
        match try_init(&Config::default(), &h, &init_in(major, minor, 0, 0), PAGESIZE) {
            InitStep::Refused(frame) => assert_eq!(out_header(&frame), (16, -71, 6)),
            _ => panic!("expected a refusal"),
        }
    }
}

#[test]
fn init_other_request_gets_eio() {
    let header = in_header(40, FUSE_LOOKUP, 9, 1, 0, 0, 0);
    let mut d = polyfuse::decoder::Decoder::new(&header);
    let h = d.fetch::<polyfuse::abi::InHeader>().unwrap();
    match try_init(&Config::default(), &h, b"x\0", PAGESIZE) {
        InitStep::Continue(frame) => assert_eq!(out_header(&frame), (16, -5, 9)),
        _ => panic!("expected EIO"),
    }
}

#[test]
fn init_without_argument_is_malformed() {
    let header = in_header(40, FUSE_INIT, 3, 0, 0, 0, 0);
    let mut d = polyfuse::decoder::Decoder::new(&header);
    let h = d.fetch::<polyfuse::abi::InHeader>().unwrap();
    assert!(matches!(try_init(&Config::default(), &h, &[7, 0, 0], PAGESIZE), InitStep::Malformed));
}

#[test]
fn init_max_pages_rounds_up_and_saturates() {
    let header = in_header(56, FUSE_INIT, 2, 0, 0, 0, 0);
    let mut d = polyfuse::decoder::Decoder::new(&header);
    let h = d.fetch::<polyfuse::abi::InHeader>().unwrap();
    let mut config = Config::default();
    config.max_write(4097);
    match try_init(&config, &h, &init_in(7, 31, 0, FUSE_MAX_PAGES), PAGESIZE) {
        InitStep::Established(_, s) => assert_eq!(s.connection_info().max_pages(), Some(2)),
        _ => panic!("initialization failed"),
    }
    let mut config = Config::default();
    config.max_write(u32::MAX);
    match try_init(&config, &h, &init_in(7, 31, 0, FUSE_MAX_PAGES), 1) {
        InitStep::Established(_, s) => assert_eq!(s.connection_info().max_pages(), Some(65535)),
        _ => panic!("initialization failed"),
    }
    match try_init(&Config::default(), &h, &init_in(7, 31, 0, 0), PAGESIZE) {
        InitStep::Established(frame, s) => {
            assert_eq!(s.connection_info().max_pages(), None);
            let flags = u32::from_le_bytes(frame[28..32].try_into().unwrap());
            assert_eq!(flags, FUSE_BIG_WRITES);
        }
        _ => panic!("initialization failed"),
    }
}

#[test]
fn lookup_decodes_name_without_nul() {
    let session = start_session();
    let mut frame = in_header(50, FUSE_LOOKUP, 4, 1, 0, 0, 0);
    frame.extend_from_slice(b"hello.txt\0");
    let req = request(&session, frame);
    match req.operation(&session).unwrap() {
        Operation::Lookup(op) => {
            assert_eq!(op.parent(), 1);
            assert_eq!(op.name(), b"hello.txt");
        }
        other => panic!("unexpected {:?}", other),
    }
}

#[test]
fn read_reply_has_length_thirty() {
    let mut session = start_session();
    let mut frame = in_header(80, FUSE_READ, 11, 2, 0, 0, 0);
    frame.extend_from_slice(&7u64.to_le_bytes());
    frame.extend_from_slice(&0u64.to_le_bytes());
    frame.extend_from_slice(&14u32.to_le_bytes());
    frame.extend_from_slice(&0u32.to_le_bytes());
    frame.extend_from_slice(&0u64.to_le_bytes());
    frame.extend_from_slice(&0u32.to_le_bytes());
    frame.extend_from_slice(&0u32.to_le_bytes());
    let req = request(&session, frame);
    match session.process(&req) {
        Dispatch::Handle(Operation::Read(op)) => {
            assert_eq!(op.ino(), 2);
            assert_eq!(op.fh(), 7);
            assert_eq!(op.offset(), 0);
            assert_eq!(op.size(), 14);
            assert_eq!(op.flags(), 0);
            assert_eq!(op.lock_owner(), None);
        }
        other => panic!("unexpected {:?}", other),
    }
    let reply = req.reply(&[b"Hello, world!\n".to_vec()]).unwrap();
    assert_eq!(reply.len(), 30);
    assert_eq!(out_header(&reply), (30, 0, 11));
    assert_eq!(&reply[16..], b"Hello, world!\n");
}

#[test]
fn unknown_opcode_gets_enosys() {
    let mut session = start_session();
    let req = request(&session, in_header(40, 0x7FFF, 12, 1, 0, 0, 0));
    match session.process(&req) {
        Dispatch::Send(frame) => assert_eq!(out_header(&frame), (16, -38, 12)),
        other => panic!("unexpected {:?}", other),
    }
}

#[test]
fn interrupt_before_register_is_observed() {
    let mut session = start_session();
    let mut frame = in_header(48, FUSE_INTERRUPT, 43, 0, 0, 0, 0);
    frame.extend_from_slice(&42u64.to_le_bytes());
    let req = request(&session, frame);
    match session.process(&req) {
        Dispatch::Interrupt { unique, signal } => {
            assert_eq!(unique, 42);
            assert!(!signal);
        }
        other => panic!("unexpected {:?}", other),
    }
    assert!(session.enable_interrupt(42));
    let again = request(&session, {
        let mut f = in_header(48, FUSE_INTERRUPT, 44, 0, 0, 0, 0);
        f.extend_from_slice(&42u64.to_le_bytes());
        f
    });
    match session.process(&again) {
        Dispatch::Interrupt { signal, .. } => assert!(!signal),
        other => panic!("unexpected {:?}", other),
    }
}

#[test]
fn interrupt_after_register_signals_once() {
    let mut table = InterruptTable::new();
    assert!(!table.register(7));
    assert!(table.interrupt(7));
    assert!(!table.interrupt(7));
    table.finish(7);
    assert!(!table.register(7));
}

#[test]
fn destroy_ends_the_session() {
    let mut session = start_session();
    let req = request(&session, in_header(40, FUSE_DESTROY, 13, 0, 0, 0, 0));
    match session.process(&req) {
        Dispatch::Send(frame) => {
            assert_eq!(frame.len(), 16);
            assert_eq!(out_header(&frame), (16, 0, 13));
        }
        other => panic!("unexpected {:?}", other),
    }
    assert!(session.exited());
    let later = Request::from_bytes(&in_header(40, 0x7FFF, 14, 0, 0, 0, 0)).unwrap();
    assert!(matches!(session.process(&later), Dispatch::Skip));
    assert!(matches!(later.operation(&session), Ok(Operation::Unknown)));
    assert!(matches!(session.next_request(Err(Some(19))), Intake::End));
    let mut frame = in_header(50, FUSE_LOOKUP, 15, 1, 0, 0, 0);
    frame.extend_from_slice(b"hello.txt\0");
    assert!(matches!(session.next_request(Ok(frame)), Intake::End));
    assert!(matches!(session.next_request(Err(Some(2))), Intake::End));
}

#[test]
fn short_read_is_invalid_data() {
    let session = start_session();
    match session.next_request(Ok(vec![0u8; 39])) {
        Intake::Failed(e) => assert_eq!(e, IntakeError::TooShort),
        other => panic!("unexpected {:?}", other),
    }
}

#[test]
fn enodev_ends_and_enoent_retries() {
    let session = start_session();
    assert!(matches!(session.next_request(Err(Some(19))), Intake::End));
    assert!(matches!(session.next_request(Err(Some(2))), Intake::Retry));
    match session.next_request(Err(Some(5))) {
        Intake::Failed(e) => assert_eq!(e, IntakeError::Io(Some(5))),
        other => panic!("unexpected {:?}", other),
    }
    match session.next_request(Err(None)) {
        Intake::Failed(e) => assert_eq!(e, IntakeError::Io(None)),
        other => panic!("unexpected {:?}", other),
    }
}

#[test]
fn request_accessors_echo_the_header() {
    let session = start_session();
    let req = request(&session, in_header(40, 0x7FFF, 77, 5, 100, 101, 12));
    assert_eq!(req.unique(), 77);
    assert_eq!(req.uid(), 100);
    assert_eq!(req.gid(), 101);
    assert_eq!(req.pid(), 12);
    assert_eq!(req.opcode(), 0x7FFF);
}

#[test]
fn retrieve_ids_increase() {
    let mut session = start_session();
    let (a, fa) = session.notify_retrieve(2, 0, 10).unwrap();
    let (b, _) = session.notify_retrieve(2, 0, 10).unwrap();
    let (c, _) = session.notify_retrieve(3, 8, 10).unwrap();
    assert!(a < b && b < c);
    assert_eq!(a, 0);
    assert_eq!(out_header(&fa), (48, 5, 0));
    assert_eq!(u64::from_le_bytes(fa[16..24].try_into().unwrap()), 0);
    assert_eq!(u64::from_le_bytes(fa[24..32].try_into().unwrap()), 2);
    assert_eq!(u32::from_le_bytes(fa[40..44].try_into().unwrap()), 10);
}

#[test]
fn notifications_fail_after_exit() {
    let mut session = start_session();
    assert!(session.notify_poll_wakeup(1).is_ok());
    session.exit();
    assert!(session.exited());
    assert_eq!(session.notify_inval_inode(1, 0, -1).unwrap_err(), NotifyError::NotConnected);
    assert_eq!(session.notify_inval_entry(1, b"a").unwrap_err(), NotifyError::NotConnected);
    assert_eq!(session.notify_delete(1, 2, b"a").unwrap_err(), NotifyError::NotConnected);
    assert_eq!(session.notify_store(1, 0, &[vec![1]]).unwrap_err(), NotifyError::NotConnected);
    assert_eq!(session.notify_retrieve(1, 0, 1).unwrap_err(), NotifyError::NotConnected);
    assert_eq!(session.notify_poll_wakeup(1).unwrap_err(), NotifyError::NotConnected);
    assert!(session.exited());
}

#[test]
fn notify_inval_entry_frames_name_and_nul() {
    let session = start_session();
    let frame = session.notify_inval_entry(1, b"hello.txt").unwrap();
    assert_eq!(out_header(&frame), (16 + 16 + 10, 3, 0));
    assert_eq!(u64::from_le_bytes(frame[16..24].try_into().unwrap()), 1);
    assert_eq!(u32::from_le_bytes(frame[24..28].try_into().unwrap()), 9);
    assert_eq!(&frame[32..], b"hello.txt\0");
}

#[test]
fn notify_delete_frames_child() {
    let session = start_session();
    let frame = session.notify_delete(1, 2, b"x").unwrap();
    assert_eq!(out_header(&frame), (16 + 24 + 2, 6, 0));
    assert_eq!(u64::from_le_bytes(frame[24..32].try_into().unwrap()), 2);
    assert_eq!(u32::from_le_bytes(frame[32..36].try_into().unwrap()), 1);
    assert_eq!(&frame[40..], b"x\0");
}

#[test]
fn notify_store_concatenates_data() {
    let session = start_session();
    let frame = session.notify_store(4, 100, &[b"ab".to_vec(), b"".to_vec(), b"cde".to_vec()]).unwrap();
    assert_eq!(out_header(&frame), (16 + 24 + 5, 4, 0));
    assert_eq!(u64::from_le_bytes(frame[16..24].try_into().unwrap()), 4);
    assert_eq!(u64::from_le_bytes(frame[24..32].try_into().unwrap()), 100);
    assert_eq!(u32::from_le_bytes(frame[32..36].try_into().unwrap()), 5);
    assert_eq!(&frame[40..], b"abcde");
}

#[test]
fn notify_inval_inode_and_poll_layouts() {
    let session = start_session();
    let frame = session.notify_inval_inode(9, -1, 4096).unwrap();
    assert_eq!(out_header(&frame), (40, 2, 0));
    assert_eq!(u64::from_le_bytes(frame[16..24].try_into().unwrap()), 9);
    assert_eq!(i64::from_le_bytes(frame[24..32].try_into().unwrap()), -1);
    assert_eq!(i64::from_le_bytes(frame[32..40].try_into().unwrap()), 4096);
    let frame = session.notify_poll_wakeup(0xABCD).unwrap();
    assert_eq!(out_header(&frame), (24, 1, 0));
    assert_eq!(u64::from_le_bytes(frame[16..24].try_into().unwrap()), 0xABCD);
}

#[test]
fn config_builders_and_congestion_threshold() {
    let mut config = Config::default();
    config.max_background(100).congestion_threshold(0).time_gran(10).max_readahead(5);
    config.flags().insert(CapabilityFlags::from_bits_truncate(polyfuse::abi::FUSE_POSIX_LOCKS));
    let header = in_header(56, FUSE_INIT, 2, 0, 0, 0, 0);
    let mut d = polyfuse::decoder::Decoder::new(&header);
    let h = d.fetch::<polyfuse::abi::InHeader>().unwrap();
    match try_init(&config, &h, &init_in(7, 40, 4096, CapabilityFlags::all().bits()), PAGESIZE) {
        InitStep::Established(_, s) => {
            let conn = s.connection_info();
            assert_eq!(conn.max_background(), 100);
            assert_eq!(conn.congestion_threshold(), 75);
            assert_eq!(conn.time_gran(), 10);
            assert_eq!(conn.max_readahead(), 5);
            assert_eq!(conn.proto_minor(), 31);
            assert!(conn.flags().contains(CapabilityFlags::from_bits_truncate(polyfuse::abi::FUSE_POSIX_LOCKS)));
            assert!(!conn.no_open_support());
        }
        _ => panic!("initialization failed"),
    }
}

#[test]
fn capability_flags_operations() {
    let all = CapabilityFlags::all();
    let default = CapabilityFlags::default();
    assert_eq!(default.bits(), 0xc9009);
    assert!(all.contains(default));
    assert_eq!(CapabilityFlags::from_bits_truncate(u32::MAX).bits(), all.bits());
    let mut f = CapabilityFlags::empty();
    f.insert(default);
    f.remove(CapabilityFlags::from_bits_truncate(polyfuse::abi::FUSE_ASYNC_READ));
    assert_eq!(f.bits(), 0xc9008);
    assert_eq!(default.intersection(CapabilityFlags::from_bits_truncate(0x9)).bits(), 0x9);
    assert_eq!(CapabilityFlags::empty().union(default).bits(), 0xc9009);
}

#[test]
fn handshake_gives_up_after_ten_requests() {
    let config = Config::default();
    let mut handshake = Handshake::new();
    let message = in_header(40, FUSE_LOOKUP, 1, 1, 0, 0, 0);
    for _ in 0..9 {
        match handshake.step(&config, &message, PAGESIZE) {
            HandshakeStep::Continue(frame) => assert_eq!(out_header(&frame), (16, -5, 1)),
            other => panic!("unexpected {:?}", other),
        }
    }
    match handshake.step(&config, &message, PAGESIZE) {
        HandshakeStep::Fail(Some(frame), e) => {
            assert_eq!(out_header(&frame), (16, -5, 1));
            assert_eq!(e, InitError::Aborted);
        }
        other => panic!("unexpected {:?}", other),
    }
}

#[test]
fn handshake_establishes_and_rejects_short_messages() {
    let config = Config::default();
    let mut handshake = Handshake::new();
    match handshake.step(&config, &[0u8; 12], PAGESIZE) {
        HandshakeStep::Fail(None, e) => assert_eq!(e, InitError::TooShort),
        other => panic!("unexpected {:?}", other),
    }
    let mut message = in_header(56, FUSE_INIT, 2, 0, 0, 0, 0);
    message.extend(init_in(7, 23, 40, 0));
    match handshake.step(&config, &message, PAGESIZE) {
        HandshakeStep::Done(frame, session) => {
            assert_eq!(out_header(&frame), (80, 0, 2));
            assert!(!session.exited());
        }
        other => panic!("unexpected {:?}", other),
    }
    let mut refused = in_header(56, FUSE_INIT, 3, 0, 0, 0, 0);
    refused.extend(init_in(7, 22, 40, 0));
    match Handshake::new().step(&config, &refused, PAGESIZE) {
        HandshakeStep::Fail(Some(frame), e) => {
            assert_eq!(out_header(&frame), (16, -71, 3));
            assert_eq!(e, InitError::Refused);
        }
        other => panic!("unexpected {:?}", other),
    }
}
