use rust_proc_fs::error::{Error, EBUSY, EFAULT, EINVAL, ENOMEM};
use rust_proc_fs::proc_fs::{ProcHandler, ProcOpFileHandle, Whence};
use rust_proc_fs::ram_file::{flags_are_append, FileBytes, ProcHand, O_APPEND, O_TRUNC};
use rust_proc_fs::uaccess::{UserSliceReader, UserSliceWriter};

fn hand(bytes: &[u8]) -> ProcHand {
    let mut h = ProcHand { data: Some(FileBytes::new()) };
    let len = bytes.len();
    assert_eq!(h.pwrite(&mut file(0), user(bytes), 0), Ok((len, len)));
    h
}

fn data(h: &ProcHand) -> Option<Vec<u8>> {
    h.data.as_ref().map(|b| b.as_slice().to_vec())
}

fn gone() -> ProcHand {
    ProcHand { data: None }
}

fn file(flags: u32) -> ProcOpFileHandle {
    ProcOpFileHandle { pos: 0, flags, semaphore: 0x1000 }
}

fn user(bytes: &[u8]) -> UserSliceReader {
    UserSliceReader::new(bytes.to_vec(), 0)
}

fn err<T>(errno: i32) -> Result<T, Error> {
    Err(Error { errno })
}

fn read(h: &mut ProcHand, room: usize, offset: i64) -> (Result<(usize, usize), Error>, Vec<u8>) {
    let mut w = UserSliceWriter::new(room);
    let r = h.pread(&mut file(0), &mut w, offset);
    (r, w.staged)
}

#[test]
fn append_flag() {
    assert!(flags_are_append(O_APPEND));
    assert!(flags_are_append(O_APPEND | O_TRUNC | 1));
    assert!(!flags_are_append(O_TRUNC | 1));
    assert!(!flags_are_append(0));
}

#[test]
fn open_keeps_data() {
    let mut h = hand(b"abc");
    assert_eq!(h.popen(&mut file(O_APPEND)), Ok(0));
    assert_eq!(data(&h), Some(b"abc".to_vec()));
}

#[test]
fn open_truncates() {
    let mut h = hand(b"abc");
    assert_eq!(h.popen(&mut file(O_TRUNC | 2)), Ok(0));
    assert_eq!(data(&h), Some(vec![]));
}

#[test]
fn read_whole_file() {
    let mut h = hand(b"hello");
    assert_eq!(read(&mut h, 5, 0), (Ok((5, 5)), b"hello".to_vec()));
    assert_eq!(read(&mut h, 100, 0), (Ok((5, 5)), b"hello".to_vec()));
    assert_eq!(data(&h), Some(b"hello".to_vec()));
}

#[test]
fn read_section() {
    let mut h = hand(b"hello");
    assert_eq!(read(&mut h, 2, 1), (Ok((2, 3)), b"el".to_vec()));
    assert_eq!(read(&mut h, 2, 4), (Ok((1, 5)), b"o".to_vec()));
    assert_eq!(read(&mut h, 0, 1), (Ok((0, 1)), vec![]));
}

#[test]
fn read_at_and_past_end() {
    let mut h = hand(b"hello");
    assert_eq!(read(&mut h, 8, 5), (Ok((0, 5)), vec![]));
    assert_eq!(read(&mut h, 8, 6), (Ok((0, 6)), vec![]));
    assert_eq!(read(&mut h, 8, i64::MAX), (Ok((0, i64::MAX as usize)), vec![]));
}

#[test]
fn read_negative_offset() {
    let mut h = hand(b"hello");
    assert_eq!(read(&mut h, 8, -1), (err(EINVAL), vec![]));
    assert_eq!(read(&mut gone(), 8, -1), (err(EINVAL), vec![]));
}

#[test]
fn reads_join() {
    let mut h = hand(b"abcdefgh");
    let mut all = Vec::new();
    let mut offset = 0;
    loop {
        let (r, bytes) = read(&mut h, 3, offset);
        let (n, next) = r.unwrap();
        if n == 0 {
            break;
        }
        all.extend_from_slice(&bytes);
        offset = next as i64;
    }
    assert_eq!(all, b"abcdefgh".to_vec());
    assert_eq!(offset, 8);
}

#[test]
fn write_into_empty() {
    let mut h = hand(b"");
    assert_eq!(h.pwrite(&mut file(0), user(b"abc"), 0), Ok((3, 3)));
    assert_eq!(data(&h), Some(b"abc".to_vec()));
}

#[test]
fn write_in_place() {
    let mut h = hand(b"abcdef");
    assert_eq!(h.pwrite(&mut file(0), user(b"XY"), 2), Ok((2, 4)));
    assert_eq!(data(&h), Some(b"abXYef".to_vec()));
    assert_eq!(h.pwrite(&mut file(0), user(b"Z"), 5), Ok((1, 6)));
    assert_eq!(data(&h), Some(b"abXYeZ".to_vec()));
}

#[test]
fn write_over_end() {
    let mut h = hand(b"abcd");
    assert_eq!(h.pwrite(&mut file(0), user(b"WXYZ"), 2), Ok((4, 6)));
    assert_eq!(data(&h), Some(b"abWXYZ".to_vec()));
}

#[test]
fn write_at_end() {
    let mut h = hand(b"abcd");
    assert_eq!(h.pwrite(&mut file(0), user(b"ef"), 4), Ok((2, 6)));
    assert_eq!(data(&h), Some(b"abcdef".to_vec()));
}

#[test]
fn write_past_end_is_refused() {
    let mut h = hand(b"abcd");
    assert_eq!(h.pwrite(&mut file(0), user(b"ef"), 5), err(EINVAL));
    assert_eq!(h.pwrite(&mut file(0), user(b""), 5), err(EINVAL));
    assert_eq!(data(&h), Some(b"abcd".to_vec()));
}

#[test]
fn write_negative_offset_is_refused() {
    let mut h = hand(b"abcd");
    assert_eq!(h.pwrite(&mut file(0), user(b"ef"), -1), err(EINVAL));
    assert_eq!(h.pwrite(&mut file(O_APPEND), user(b"ef"), -1), err(EINVAL));
    assert_eq!(data(&h), Some(b"abcd".to_vec()));
}

#[test]
fn write_start() {
    let h = hand(b"abcd");
    assert_eq!(h.pwrite_start(0, 0), Ok(0));
    assert_eq!(h.pwrite_start(0, 4), Ok(4));
    assert_eq!(h.pwrite_start(0, 5), err(EINVAL));
    assert_eq!(h.pwrite_start(0, -1), err(EINVAL));
    assert_eq!(h.pwrite_start(O_APPEND, 99), Ok(4));
    assert_eq!(gone().pwrite_start(0, 0), err(EBUSY));
    assert_eq!(gone().pwrite_start(0, -1), err(EINVAL));
}

#[test]
fn write_nothing() {
    let mut h = hand(b"abcd");
    assert_eq!(h.pwrite(&mut file(0), user(b""), 1), Ok((0, 1)));
    assert_eq!(h.pwrite(&mut file(0), user(b""), 4), Ok((0, 4)));
    assert_eq!(data(&h), Some(b"abcd".to_vec()));
}

#[test]
fn append_ignores_offset() {
    let mut h = hand(b"ab");
    assert_eq!(h.pwrite(&mut file(O_APPEND), user(b"cd"), 0), Ok((2, 4)));
    assert_eq!(h.pwrite(&mut file(O_APPEND), user(b"ef"), 99), Ok((2, 6)));
    assert_eq!(data(&h), Some(b"abcdef".to_vec()));
}

#[test]
fn read_gives_back_write() {
    let mut h = hand(b"0123456789");
    let (n, next) = h.pwrite(&mut file(0), user(b"abcdef"), 7).unwrap();
    assert_eq!((n, next), (6, 13));
    assert_eq!(read(&mut h, n, (next - n) as i64), (Ok((6, 13)), b"abcdef".to_vec()));
    assert_eq!(read(&mut h, 7, 0).1, b"0123456".to_vec());
}

#[test]
fn writes_join() {
    let mut two = hand(b"0123456789");
    let (_, next) = two.pwrite(&mut file(0), user(b"abc"), 6).unwrap();
    assert_eq!(two.pwrite(&mut file(0), user(b"def"), next as i64), Ok((3, 12)));
    let mut one = hand(b"0123456789");
    assert_eq!(one.pwrite(&mut file(0), user(b"abcdef"), 6), Ok((6, 12)));
    assert_eq!(data(&one), data(&two));
}

#[test]
fn write_without_memory() {
    let mut h = hand(b"abcd");
    assert_eq!(h.pwrite_granted(&mut file(0), user(b"ef"), 4, false), err(ENOMEM));
    assert_eq!(data(&h), Some(b"abcd".to_vec()));
    assert_eq!(h.pwrite_granted(&mut file(0), user(b"XYZ"), 2, false), err(ENOMEM));
    assert_eq!(data(&h), Some(b"abXY".to_vec()));
    assert_eq!(h.pwrite_granted(&mut file(0), user(b"12"), 0, false), Ok((2, 2)));
    assert_eq!(data(&h), Some(b"12XY".to_vec()));
}

#[test]
fn write_from_unreadable_memory() {
    let mut h = hand(b"abcd");
    let torn = || UserSliceReader::new(vec![b'W', b'X', 0, 0], 2);
    assert_eq!(h.pwrite(&mut file(0), torn(), 4), err(EFAULT));
    assert_eq!(data(&h), Some(b"abcd".to_vec()));
    assert_eq!(h.pwrite(&mut file(0), torn(), 2), err(EFAULT));
    assert_eq!(data(&h), Some(b"abWX".to_vec()));
    assert_eq!(h.pwrite(&mut file(0), torn(), 0), err(EFAULT));
    assert_eq!(data(&h), Some(vec![b'W', b'X', 0, 0]));
}

#[test]
fn failed_write_keeps_length() {
    let mut h = hand(b"abcd");
    let r = h.pwrite(&mut file(0), UserSliceReader::new(vec![b'W', 0, 0, 0, 0], 4), 1);
    assert_eq!(r, err(EFAULT));
    let left = data(&h).unwrap();
    assert_eq!(left.len(), 4);
    assert_eq!(left[0], b'a');
}

#[test]
fn seek_from_start() {
    let mut h = hand(b"abcd");
    let mut f = file(0);
    assert_eq!(h.plseek(&mut f, 4, Whence::SeekSet), Ok(4));
    assert_eq!(f.pos, 4);
    assert_eq!(h.plseek(&mut f, 1, Whence::SeekData), Ok(1));
    assert_eq!(f.pos, 1);
    assert_eq!(h.plseek(&mut f, 5, Whence::SeekSet), err(EINVAL));
    assert_eq!(h.plseek(&mut f, -1, Whence::SeekSet), err(EINVAL));
    assert_eq!(h.plseek(&mut f, 5, Whence::SeekData), err(EINVAL));
    assert_eq!(f.pos, 1);
}

#[test]
fn seek_from_current() {
    let mut h = hand(b"abcd");
    let mut f = file(0);
    f.pos = 2;
    assert_eq!(h.plseek(&mut f, 1, Whence::SeekCur), Ok(3));
    assert_eq!(h.plseek(&mut f, -3, Whence::SeekCur), Ok(0));
    assert_eq!(h.plseek(&mut f, -1, Whence::SeekCur), err(EINVAL));
    assert_eq!(h.plseek(&mut f, 5, Whence::SeekCur), err(EINVAL));
    assert_eq!(f.pos, 0);
    f.pos = 2;
    assert_eq!(h.plseek(&mut f, i64::MAX, Whence::SeekCur), err(EINVAL));
    assert_eq!(f.pos, 2);
}

#[test]
fn seek_from_end() {
    let mut h = hand(b"abcd");
    let mut f = file(0);
    assert_eq!(h.plseek(&mut f, 0, Whence::SeekEnd), Ok(4));
    assert_eq!(h.plseek(&mut f, -4, Whence::SeekEnd), Ok(0));
    assert_eq!(h.plseek(&mut f, -5, Whence::SeekEnd), err(EINVAL));
    assert_eq!(h.plseek(&mut f, 1, Whence::SeekEnd), err(EINVAL));
    assert_eq!(h.plseek(&mut f, i64::MAX, Whence::SeekEnd), err(EINVAL));
    assert_eq!(f.pos, 0);
}

#[test]
fn seek_hole_is_end() {
    let mut h = hand(b"abcd");
    let mut f = file(0);
    assert_eq!(h.plseek(&mut f, 1, Whence::SeekHole), Ok(4));
    assert_eq!(h.plseek(&mut f, -77, Whence::SeekHole), Ok(4));
    assert_eq!(f.pos, 4);
}

#[test]
fn seek_settles() {
    let mut h = hand(b"abcd");
    let mut f = file(7);
    let pos = h.plseek(&mut f, -1, Whence::SeekEnd).unwrap();
    assert_eq!(pos, 3);
    assert_eq!(h.plseek(&mut f, 0, Whence::SeekCur), Ok(pos));
    assert_eq!(h.plseek(&mut f, pos, Whence::SeekSet), Ok(pos));
    assert_eq!(f.flags, 7);
    assert_eq!(h.pwrite(&mut f, user(b"D!"), pos), Ok((2, 5)));
}

#[test]
fn gone_file_is_busy() {
    let mut h = gone();
    let mut f = file(O_TRUNC);
    assert_eq!(h.popen(&mut f), err(EBUSY));
    assert_eq!(read(&mut h, 1, 0), (err(EBUSY), vec![]));
    assert_eq!(h.pwrite(&mut f, user(b"a"), 0), err(EBUSY));
    assert_eq!(h.plseek(&mut f, -1, Whence::SeekSet), err(EBUSY));
    assert!(h.data.is_none());
    assert_eq!(h.with_data().err(), Some(Error { errno: EBUSY }));
}

#[test]
fn with_data_changes_data() {
    let mut h = hand(b"ab");
    assert_eq!(h.with_data().ok().unwrap().len(), 2);
    h.with_data().ok().unwrap().clear();
    assert_eq!(data(&h), Some(vec![]));
}

#[test]
fn take_leaves_nothing() {
    let mut h = hand(b"ab");
    assert_eq!(h.take().unwrap().as_slice(), b"ab");
    assert!(h.take().is_none());
}

#[test]
fn handler_operations() {
    let mut h = hand(b"");
    let mut f = file(0);
    assert_eq!(h.open(&mut f), Ok(0));
    assert_eq!(h.write(&mut f, user(b"xyz"), &0), Ok((3, 3)));
    assert_eq!(h.lseek(&mut f, 1, Whence::SeekSet), Ok(1));
    let mut w = UserSliceWriter::new(8);
    assert_eq!(h.read(&mut f, &mut w, &1), Ok((2, 3)));
    assert_eq!(w.staged, b"yz".to_vec());
}
