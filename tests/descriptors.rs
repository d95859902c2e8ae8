use forkpty::{
    is_alive, set_nonblocking, AsyncChild, AsyncPtyMaster, AsyncReader, Child, CloseError,
    Descriptor, ExitPoll, IoError, IoPoll, IsAlive, OsError, PtyMaster, Readiness,
    SetNonblocking,
};
use nix::fcntl::{fcntl, FcntlArg};
use nix::poll::{poll, PollFd, PollFlags};
use nix::pty::{openpty, Winsize};
use nix::sys::termios::Termios;
use nix::unistd::{close, pipe, read};

fn wait_readable(fd: i32) {
    let mut fds = [PollFd::new(fd, PollFlags::POLLIN)];
    assert_eq!(poll(&mut fds, 2000).unwrap(), 1);
}

fn status_flags(fd: i32) -> i32 {
    fcntl(fd, FcntlArg::F_GETFL).unwrap()
}

#[test]
fn slave_bytes_arrive_in_order_in_chunks() {
    let pty = openpty(None::<&Winsize>, None::<&Termios>).unwrap();
    let mut master = match AsyncPtyMaster::new(PtyMaster::new(pty.master)) {
        Ok(m) => m,
        Err(_) => panic!("master cannot be made non-blocking"),
    };
    let sent = b"hello, terminal: 0123456789";
    assert_eq!(nix::unistd::write(pty.slave, sent).unwrap(), sent.len());
    let mut got: Vec<u8> = Vec::new();
    let mut buf = [0u8; 4];
    while got.len() < sent.len() {
        match master.poll_read(&mut buf) {
            IoPoll::Ready(n) => {
                assert!(n > 0 && n <= 4);
                got.extend_from_slice(&buf[..n]);
            }
            IoPoll::Pending => {
                wait_readable(master.as_raw_fd());
                let w = master.readiness_event(true, false);
                assert!(w.read && !w.write);
            }
            IoPoll::Failed(e) => panic!("read failed: {:?}", e),
        }
    }
    assert_eq!(&got[..], &sent[..]);
    close(pty.slave).unwrap();
    assert_eq!(master.close(), Ok(()));
}

#[test]
fn master_bytes_reach_the_slave() {
    let pty = openpty(None::<&Winsize>, None::<&Termios>).unwrap();
    let mut master = match AsyncPtyMaster::new(PtyMaster::new(pty.master)) {
        Ok(m) => m,
        Err(_) => panic!("master cannot be made non-blocking"),
    };
    assert_eq!(master.poll_write(b"ping\n"), IoPoll::Ready(5));
    assert_eq!(master.poll_flush(), Ok(()));
    let mut buf = [0u8; 16];
    let n = read(pty.slave, &mut buf).unwrap();
    assert_eq!(&buf[..n], b"ping\n");
    close(pty.slave).unwrap();
    assert_eq!(master.poll_shutdown(), Ok(()));
    assert_eq!(master.close(), Ok(()));
}

#[test]
fn closed_writer_gives_end_of_stream() {
    let (r, w) = pipe().unwrap();
    let mut reader = match AsyncReader::new(r) {
        Ok(a) => a,
        Err(e) => panic!("{:?}", e),
    };
    close(w).unwrap();
    let mut buf = [7u8; 8];
    assert_eq!(reader.poll_read(&mut buf), IoPoll::Ready(0));
    assert_eq!(buf, [7u8; 8]);
    close(r).unwrap();
}

#[test]
fn idle_read_suspends_until_readiness() {
    let (r, w) = pipe().unwrap();
    let mut reader = match AsyncReader::new(r) {
        Ok(a) => a,
        Err(e) => panic!("{:?}", e),
    };
    assert_ne!(status_flags(r) & libc::O_NONBLOCK, 0);
    let mut buf = [9u8; 8];
    assert_eq!(reader.poll_read(&mut buf), IoPoll::Pending);
    let parked = Readiness { interested: true, ready: false, waiting: true };
    assert_eq!(reader.registration().read, parked);
    for _ in 0..3 {
        assert_eq!(reader.poll_read(&mut buf), IoPoll::Pending);
        assert_eq!(buf, [9u8; 8]);
        assert_eq!(reader.registration().read, parked);
    }
    assert!(!reader.readiness_event(false));
    assert_eq!(nix::unistd::write(w, b"xy").unwrap(), 2);
    assert_eq!(reader.poll_read(&mut buf), IoPoll::Pending);
    assert!(reader.readiness_event(true));
    assert_eq!(reader.poll_read(&mut buf), IoPoll::Ready(2));
    assert_eq!(&buf[..2], b"xy");
    close(w).unwrap();
    close(r).unwrap();
}

#[test]
fn bounded_read_times_out() {
    let (r, w) = pipe().unwrap();
    let master = PtyMaster::new(r);
    let mut reader = master.get_reader().unwrap();
    assert_eq!(reader.get_timeout(), -1);
    assert_eq!(reader.set_timeout(20), Ok(()));
    assert_eq!(reader.get_timeout(), 20);
    let mut buf = [0u8; 4];
    assert_eq!(reader.read(&mut buf), Err(IoError::TimedOut));
    assert_eq!(nix::unistd::write(w, b"abc").unwrap(), 3);
    assert_eq!(reader.read(&mut buf), Ok(3));
    assert_eq!(&buf[..3], b"abc");
    close(w).unwrap();
    assert_eq!(master.close(), Ok(()));
}

#[test]
fn bounded_write_goes_through() {
    let (r, w) = pipe().unwrap();
    let master = PtyMaster::new(w);
    let mut writer = master.get_writer().unwrap();
    assert_eq!(writer.set_timeout(100), Ok(()));
    assert_eq!(writer.write(b"data"), Ok(4));
    assert_eq!(writer.flush(), Ok(()));
    let mut buf = [0u8; 8];
    assert_eq!(read(r, &mut buf).unwrap(), 4);
    assert_eq!(&buf[..4], b"data");
    close(r).unwrap();
    assert_eq!(master.close(), Ok(()));
}

#[test]
fn nonblocking_flag_toggles() {
    let (r, w) = pipe().unwrap();
    assert_eq!(status_flags(r) & libc::O_NONBLOCK, 0);
    let written = set_nonblocking(r, true).unwrap();
    assert_ne!(written & libc::O_NONBLOCK, 0);
    assert_ne!(status_flags(r) & libc::O_NONBLOCK, 0);
    assert_eq!(set_nonblocking(r, true), Ok(written));
    let mut master = PtyMaster::new(r);
    let cleared = master.set_nonblocking(false).unwrap();
    assert_eq!(cleared, written & !libc::O_NONBLOCK);
    assert_eq!(status_flags(r) & libc::O_NONBLOCK, 0);
    close(w).unwrap();
    assert_eq!(master.close(), Ok(()));
    assert_eq!(set_nonblocking(r, true), Err(OsError::Errno(libc::EBADF)));
}

#[test]
fn waiting_for_a_stranger_fails() {
    let stranger = i32::MAX;
    assert_eq!(Child::new(stranger).status(), Err(OsError::Errno(libc::ECHILD)));
    assert_eq!(Child::new(stranger).wait(forkpty::WNOHANG), Err(OsError::Errno(libc::ECHILD)));
    let mut waiter = AsyncChild::new(stranger).status();
    assert_eq!(waiter.poll_exit(), ExitPoll::Failed(OsError::Errno(libc::ECHILD)));
    assert!(waiter.is_resolved());
}

#[test]
fn clone_outlives_closed_source() {
    let (r, w) = pipe().unwrap();
    let source = PtyMaster::new(r);
    let copy = source.try_clone().unwrap();
    assert_ne!(copy.as_raw_fd(), source.as_raw_fd());
    let raw = source.as_raw_fd();
    assert_eq!(source.close(), Ok(()));
    assert!(copy.is_alive());
    assert!(!is_alive(raw));
    assert_eq!(PtyMaster::new(raw).close(), Err(CloseError::DoubleClose));
    assert_eq!(nix::unistd::write(w, b"z").unwrap(), 1);
    let mut reader = copy.get_reader().unwrap();
    let mut buf = [0u8; 1];
    assert_eq!(reader.read(&mut buf), Ok(1));
    close(w).unwrap();
    assert_eq!(copy.close(), Ok(()));
}

#[test]
fn async_clone_has_its_own_registration() {
    let pty = openpty(None::<&Winsize>, None::<&Termios>).unwrap();
    let mut master = match AsyncPtyMaster::new(PtyMaster::new(pty.master)) {
        Ok(m) => m,
        Err(_) => panic!("master cannot be made non-blocking"),
    };
    let mut buf = [0u8; 4];
    assert_eq!(master.poll_read(&mut buf), IoPoll::Pending);
    let copy = master.try_clone().unwrap();
    assert_ne!(copy.as_raw_fd(), master.as_raw_fd());
    assert_eq!(copy.registration(), forkpty::Registration::new());
    assert_ne!(master.registration(), forkpty::Registration::new());
    let raw = copy.as_raw_fd();
    assert_eq!(copy.close(), Ok(()));
    assert!(!is_alive(raw));
    let owner = master.into_master();
    assert!(owner.is_alive());
    close(pty.slave).unwrap();
    assert_eq!(owner.close(), Ok(()));
}

#[test]
fn empty_buffers_move_nothing() {
    let (r, w) = pipe().unwrap();
    let mut writer = match forkpty::AsyncWriter::new(w) {
        Ok(a) => a,
        Err(e) => panic!("{:?}", e),
    };
    assert_eq!(writer.poll_write(b""), IoPoll::Ready(0));
    assert_eq!(writer.poll_write(b"q"), IoPoll::Ready(1));
    let mut reader = match AsyncReader::new(r) {
        Ok(a) => a,
        Err(e) => panic!("{:?}", e),
    };
    let mut empty: [u8; 0] = [];
    assert_eq!(reader.poll_read(&mut empty), IoPoll::Ready(0));
    let mut one = [0u8; 1];
    assert_eq!(reader.poll_read(&mut one), IoPoll::Ready(1));
    assert_eq!(one, *b"q");
    close(w).unwrap();
    close(r).unwrap();
}

#[test]
fn slave_hangup_reads_as_end_of_stream() {
    let pty = openpty(None::<&Winsize>, None::<&Termios>).unwrap();
    let master = PtyMaster::new(pty.master);
    let mut reader = master.get_async_reader().unwrap();
    close(pty.slave).unwrap();
    let mut buf = [5u8; 8];
    assert_eq!(reader.poll_read(&mut buf), IoPoll::Ready(0));
    assert_eq!(master.close(), Ok(()));
}

#[test]
fn async_reader_of_closed_descriptor_is_an_error() {
    let (r, w) = pipe().unwrap();
    let master = PtyMaster::new(r);
    let raw = master.as_raw_fd();
    assert_eq!(master.close(), Ok(()));
    close(w).unwrap();
    match PtyMaster::new(raw).get_async_writer() {
        Err(e) => assert_eq!(e, OsError::Errno(libc::EBADF)),
        Ok(_) => panic!("a closed descriptor was made non-blocking"),
    }
}
