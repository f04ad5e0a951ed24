use rust_proc_fs::backing_data::BackingData;
use rust_proc_fs::error::{Error, EBUSY, EFAULT, EINVAL, ENOMEM};
use rust_proc_fs::module::RustProcRamFile;
use rust_proc_fs::proc_fs::{
    proc_create, ProcDirEntry, ProcHandler, ProcOpFileHandle, ProcOps, SemaphoreOp, Whence,
};
use rust_proc_fs::ram_file::{FileBytes, ProcHand, O_TRUNC};
use rust_proc_fs::uaccess::{UserSliceReader, UserSliceWriter};

type Ops = ProcOps<'static, ProcHand>;

fn hand(bytes: &[u8]) -> ProcHand {
    let mut h = ProcHand { data: Some(FileBytes::new()) };
    let len = bytes.len();
    assert_eq!(h.pwrite(&mut file(), user(bytes), 0), Ok((len, len)));
    h
}

fn data(h: &ProcHand) -> Option<Vec<u8>> {
    h.data.as_ref().map(|b| b.as_slice().to_vec())
}

fn file() -> ProcOpFileHandle {
    ProcOpFileHandle { pos: 0, flags: 0, semaphore: 0x1000 }
}

fn user(bytes: &[u8]) -> UserSliceReader {
    UserSliceReader::new(bytes.to_vec(), 0)
}

#[test]
fn whence_numbers() {
    let all = [
        Whence::SeekSet,
        Whence::SeekCur,
        Whence::SeekEnd,
        Whence::SeekData,
        Whence::SeekHole,
    ];
    for (n, whence) in all.iter().enumerate() {
        assert_eq!(Whence::try_from(n as u32), Ok(*whence));
        assert_eq!(whence.as_u32(), n as u32);
    }
    assert_eq!(Whence::try_from(5), Err(Error { errno: EINVAL }));
    assert_eq!(Whence::try_from(u32::MAX), Err(Error { errno: EINVAL }));
}

#[test]
fn read_guard_shows_fields() {
    let mut f = ProcOpFileHandle { pos: 5, flags: 6, semaphore: 7 };
    let op = f.read_lock();
    assert_eq!(op, SemaphoreOp::DownRead(7));
    let guard = f.read_locked_ref(op);
    assert_eq!(*guard.pos_ref(), 5);
    assert_eq!(*guard.flags_ref(), 6);
    assert_eq!(guard.unlock(), SemaphoreOp::UpRead(7));
    assert_eq!(f, ProcOpFileHandle { pos: 5, flags: 6, semaphore: 7 });
}

#[test]
fn write_guard_changes_offset() {
    let mut f = ProcOpFileHandle { pos: 5, flags: 6, semaphore: 7 };
    let op = f.write_lock();
    assert_eq!(op, SemaphoreOp::DownWrite(7));
    let mut guard = f.write_locked_ref(op);
    *guard.pos_mut() += 4;
    *guard.pos_mut() *= 2;
    assert_eq!(guard.unlock(), SemaphoreOp::UpWrite(7));
    assert_eq!(f, ProcOpFileHandle { pos: 18, flags: 6, semaphore: 7 });
}

#[test]
fn unsynchronized_access() {
    let mut f = file();
    f.write_pos_unsync(12);
    assert_eq!(f.read_pos_unsync(), 12);
    assert_eq!(f.get_flags(), 0);
}

#[test]
fn table_of_operations() {
    let ops = Ops::new(3).ops;
    assert_eq!(ops.proc_flags, 3);
    assert!(ops.proc_open && ops.proc_read && ops.proc_write && ops.proc_lseek);
    assert!(!ops.proc_read_iter && !ops.proc_release && !ops.proc_poll && !ops.proc_ioctl);
    assert!(!ops.proc_compat_ioctl && !ops.proc_mmap && !ops.proc_get_unmapped_area);
}

#[test]
fn open_callback() {
    let mut h = hand(b"abc");
    let mut f = ProcOpFileHandle { flags: O_TRUNC, ..file() };
    assert_eq!(Ops::proc_open(&mut h, None), EINVAL);
    assert_eq!(data(&h), Some(b"abc".to_vec()));
    assert_eq!(Ops::proc_open(&mut h, Some(&mut f)), 0);
    assert_eq!(data(&h), Some(vec![]));
    h.take();
    assert_eq!(Ops::proc_open(&mut h, Some(&mut f)), EBUSY);
}

#[test]
fn read_callback() {
    let mut h = hand(b"abcdef");
    let mut w = UserSliceWriter::new(4);
    let mut offset = 1;
    let r = Ops::proc_read(&mut h, Some(&mut file()), &mut w, Some(&offset));
    assert_eq!(r, Ok((4, 5)));
    assert_eq!(w.staged, b"bcde".to_vec());
    assert_eq!(Ops::proc_read_done(&mut h, Some(&mut file()), r, 0, Some(&mut offset)), 4);
    assert_eq!(offset, 5);
    assert_eq!(data(&h), Some(b"abcdef".to_vec()));
}

#[test]
fn read_callback_not_delivered() {
    let mut h = hand(b"abcdef");
    let mut w = UserSliceWriter::new(4);
    let mut offset = 1;
    let r = Ops::proc_read(&mut h, Some(&mut file()), &mut w, Some(&offset));
    assert_eq!(Ops::proc_read_done(&mut h, Some(&mut file()), r, 1, Some(&mut offset)), -14);
    assert_eq!(offset, 1);
    assert_eq!(h.pread_done((4, 5), 0), Ok((4, 5)));
    assert_eq!(h.pread_done((4, 5), 4), Err(Error { errno: EFAULT }));
}

#[test]
fn read_callback_errors() {
    let mut h = hand(b"abcdef");
    let mut w = UserSliceWriter::new(4);
    let invalid = Err(Error { errno: EINVAL });
    assert_eq!(Ops::proc_read(&mut h, None, &mut w, Some(&0)), invalid);
    assert_eq!(Ops::proc_read(&mut h, Some(&mut file()), &mut w, None), invalid);
    assert_eq!(Ops::proc_read(&mut h, Some(&mut file()), &mut w, Some(&-1)), invalid);
    assert!(w.staged.is_empty());
    let mut offset = -1;
    assert_eq!(Ops::proc_read_done(&mut h, Some(&mut file()), invalid, 0, Some(&mut offset)), -22);
    assert_eq!(offset, -1);
    assert_eq!(Ops::proc_read_done(&mut h, Some(&mut file()), Ok((1, 2)), 0, None), -22);
    assert_eq!(Ops::proc_read_done(&mut h, None, Ok((1, 2)), 0, Some(&mut offset)), -22);
    assert_eq!(offset, -1);
}

fn read_call(h: &mut ProcHand, room: usize, offset: &mut i64) -> (isize, Vec<u8>) {
    let mut w = UserSliceWriter::new(room);
    let r = Ops::proc_read(h, Some(&mut file()), &mut w, Some(&*offset));
    let status = Ops::proc_read_done(h, Some(&mut file()), r, 0, Some(offset));
    (status, w.staged)
}

#[test]
fn run_of_reads_yields_file() {
    let mut h = hand(b"abcdefghij");
    let mut offset = 2;
    let mut all = Vec::new();
    let rooms = [3, 1, 2, 9];
    let mut i = 0;
    loop {
        let (status, bytes) = read_call(&mut h, rooms[i % 4], &mut offset);
        assert_eq!(status, bytes.len() as isize);
        if status == 0 {
            break;
        }
        all.extend_from_slice(&bytes);
        i += 1;
    }
    assert_eq!(all, b"cdefghij".to_vec());
    assert_eq!(i, 4);
    assert_eq!(offset, 10);
    assert_eq!(read_call(&mut h, 5, &mut offset), (0, vec![]));
    assert_eq!(offset, 10);
}

#[test]
fn callbacks_read_back_write() {
    let mut h = hand(b"abcdef");
    let mut p = 4;
    assert_eq!(Ops::proc_write(&mut h, Some(&mut file()), user(b"WXYZ"), Some(&mut p)), 4);
    let mut q = 4;
    assert_eq!(read_call(&mut h, 4, &mut q), (4, b"WXYZ".to_vec()));
    assert_eq!(q, p);
    assert_eq!(q, 8);
}

/// A handler that serves eight equal bytes and makes do with what reached the user.
struct Patient {
    short_reads: usize,
}

type Moved = Result<(usize, usize), Error>;
type File = ProcOpFileHandle;

impl ProcHandler for Patient {
    fn opens(_: Self, _: File, _: Self, _: File, _: Result<i32, Error>) -> bool {
        unreachable!()
    }

    fn reads(
        _: Self,
        _: File,
        _: UserSliceWriter,
        _: i64,
        _: Self,
        _: File,
        _: UserSliceWriter,
        _: Moved,
    ) -> bool {
        unreachable!()
    }

    fn settles(_: Self, _: File, _: (usize, usize), _: usize, _: Self, _: File, _: Moved) -> bool {
        unreachable!()
    }

    fn writes(_: Self, _: File, _: UserSliceReader, _: i64, _: Self, _: File, _: Moved) -> bool {
        unreachable!()
    }

    fn seeks(
        _: Self,
        _: File,
        _: i64,
        _: Whence,
        _: Self,
        _: File,
        _: Result<i64, Error>,
    ) -> bool {
        unreachable!()
    }

    fn open(&mut self, _file: &mut ProcOpFileHandle) -> Result<i32, Error> {
        Ok(3)
    }

    fn read(
        &mut self,
        _file: &mut ProcOpFileHandle,
        user_slice: &mut UserSliceWriter,
        offset: &i64,
    ) -> Result<(usize, usize), Error> {
        user_slice.write_slice(&[7; 8])?;
        Ok((8, *offset as usize + 8))
    }

    fn read_done(
        &mut self,
        _file: &mut ProcOpFileHandle,
        answer: (usize, usize),
        uncopied: usize,
    ) -> Result<(usize, usize), Error> {
        if uncopied > 0 {
            self.short_reads += 1;
        }
        Ok((answer.0 - uncopied, answer.1 - uncopied))
    }

    fn write(
        &mut self,
        _file: &mut ProcOpFileHandle,
        _user_slice: UserSliceReader,
        _offset: &i64,
    ) -> Result<(usize, usize), Error> {
        Err(Error { errno: EBUSY })
    }

    fn lseek(
        &mut self,
        file: &mut ProcOpFileHandle,
        offset: i64,
        _whence: Whence,
    ) -> Result<i64, Error> {
        file.write_pos_unsync(offset);
        Ok(offset)
    }
}

#[test]
fn handler_answers_short_read() {
    let mut h = Patient { short_reads: 0 };
    let mut w = UserSliceWriter::new(8);
    let mut offset = 10;
    let r = ProcOps::<Patient>::proc_read(&mut h, Some(&mut file()), &mut w, Some(&offset));
    assert_eq!(r, Ok((8, 18)));
    let f = &mut file();
    assert_eq!(ProcOps::<Patient>::proc_read_done(&mut h, Some(f), r, 3, Some(&mut offset)), 5);
    assert_eq!(offset, 15);
    assert_eq!(h.short_reads, 1);
    assert_eq!(ProcOps::<Patient>::proc_open(&mut h, Some(&mut file())), 3);
    let busy = ProcOps::<Patient>::proc_write(&mut h, Some(f), user(b"x"), Some(&mut offset));
    assert_eq!(busy, -16);
    assert_eq!(offset, 15);
}

#[test]
fn write_callback() {
    let mut h = hand(b"abcdef");
    let mut f = file();
    let mut offset = 4;
    assert_eq!(Ops::proc_write(&mut h, Some(&mut f), user(b"XYZ"), Some(&mut offset)), 3);
    assert_eq!(offset, 7);
    assert_eq!(data(&h), Some(b"abcdXYZ".to_vec()));
    offset = 8;
    assert_eq!(Ops::proc_write(&mut h, Some(&mut f), user(b"!"), Some(&mut offset)), -22);
    assert_eq!(offset, 8);
    assert_eq!(Ops::proc_write(&mut h, None, user(b"!"), Some(&mut offset)), -22);
    assert_eq!(Ops::proc_write(&mut h, Some(&mut f), user(b"!"), None), -22);
    assert_eq!(data(&h), Some(b"abcdXYZ".to_vec()));
}

#[test]
fn seek_callback() {
    let mut h = hand(b"abcdef");
    let mut f = file();
    assert_eq!(Ops::proc_lseek(&mut h, Some(&mut f), -2, 2), 4);
    assert_eq!(f.pos, 4);
    assert_eq!(Ops::proc_lseek(&mut h, Some(&mut f), 1, 1), 5);
    assert_eq!(Ops::proc_lseek(&mut h, Some(&mut f), 0, 4), 6);
    assert_eq!(Ops::proc_lseek(&mut h, Some(&mut f), 7, 0), -22);
    assert_eq!(Ops::proc_lseek(&mut h, Some(&mut f), 0, 5), -22);
    assert_eq!(Ops::proc_lseek(&mut h, Some(&mut f), 0, -1), -22);
    assert_eq!(Ops::proc_lseek(&mut h, None, 0, 0), -22);
    assert_eq!(f.pos, 6);
    h.take();
    assert_eq!(Ops::proc_lseek(&mut h, Some(&mut f), 0, 0), -16);
}

#[test]
fn create_call() {
    let pops: &'static Ops = Box::leak(Box::new(Ops::new(0)));
    let root = proc_create(b"dir", 0o555, None, pops);
    assert_eq!((root.name, root.mode, root.parent), (&b"dir"[..], 0o555, 0));
    let dir: ProcDirEntry<'static> = root.finish(0x2000).ok().unwrap();
    assert_eq!(dir.ptr, 0x2000);
    let call = proc_create(b"leaf\xff", 0o444, Some(&dir), pops);
    assert_eq!((call.name, call.mode, call.parent), (&b"leaf\xff"[..], 0o444, 0x2000));
    assert_eq!(*call.ops, pops.ops);
    assert_eq!(call.finish(0).err(), Some(Error { errno: ENOMEM }));
}

#[test]
fn load_use_unload() {
    let pops: &'static Ops = Box::leak(Box::new(RustProcRamFile::pops()));
    let mut backing = BackingData::new();
    let call = RustProcRamFile::init(&mut backing, Ok(()), pops).ok().unwrap();
    assert_eq!(call.name, b"rust-proc-file");
    assert_eq!(call.mode, 0o666);
    assert_eq!(call.parent, 0);
    assert_eq!(*call.ops, Ops::new(0).ops);
    let module = RustProcRamFile::init_created(&mut backing, call, 0x3000).ok().unwrap();
    let h = backing.get_initialized_data();
    assert_eq!(data(h), Some(vec![]));
    assert_eq!(h.pwrite(&mut file(), user(b"hi"), 0), Ok((2, 2)));
    let entry = module.unload(&mut backing);
    assert_eq!(entry.unwrap().ptr, 0x3000);
    assert!(module.unload(&mut backing).is_none());
    assert_eq!(data(backing.get_initialized_data()), Some(b"hi".to_vec()));
    module.unload_removed(&mut backing);
    let h = backing.get_initialized_data();
    assert_eq!(h.popen(&mut file()), Err(Error { errno: EBUSY }));
}

#[test]
fn load_without_lock() {
    let pops: &'static Ops = Box::leak(Box::new(RustProcRamFile::pops()));
    let mut backing = BackingData::new();
    let r = RustProcRamFile::init(&mut backing, Err(Error { errno: ENOMEM }), pops);
    assert_eq!(r.err(), Some(Error { errno: ENOMEM }));
    assert!(backing.data.is_none());
}

#[test]
fn load_without_entry() {
    let pops: &'static Ops = Box::leak(Box::new(RustProcRamFile::pops()));
    let mut backing = BackingData::new();
    let call = RustProcRamFile::init(&mut backing, Ok(()), pops).ok().unwrap();
    let r = RustProcRamFile::init_created(&mut backing, call, 0);
    assert_eq!(r.err(), Some(Error { errno: ENOMEM }));
    assert!(backing.entry.is_none());
    assert!(backing.data.is_some());
}

#[test]
fn storage() {
    let mut backing = BackingData::new();
    assert!(backing.take_pde().is_none());
    assert_eq!(backing.init_data(Err(Error { errno: ENOMEM })), Err(Error { errno: ENOMEM }));
    assert_eq!(backing.init_data(Ok(hand(b"x"))), Ok(()));
    assert_eq!(data(backing.get_initialized_data()), Some(b"x".to_vec()));
    backing.set_pde(ProcDirEntry { ptr: 4, _pd: core::marker::PhantomData });
    assert_eq!(backing.take_pde().unwrap().ptr, 4);
}
