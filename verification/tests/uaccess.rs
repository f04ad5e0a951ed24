use rust_proc_fs::error::{Error, EFAULT, EINVAL, ENOMEM};
use rust_proc_fs::uaccess::{reserve, UserSliceReader, UserSliceWriter};

#[test]
fn errno_range() {
    assert_eq!(Error::from_errno(-14).to_errno(), EFAULT);
    assert_eq!(Error::from_errno(-1).to_errno(), -1);
    assert_eq!(Error::from_errno(-4095).to_errno(), -4095);
    assert_eq!(Error::from_errno(-4096).to_errno(), EINVAL);
    assert_eq!(Error::from_errno(0).to_errno(), EINVAL);
    assert_eq!(Error::from_errno(22).to_errno(), EINVAL);
}

#[test]
fn read_slice_moves_on() {
    let mut r = UserSliceReader::new(vec![1, 2, 3], 0);
    let mut out = [9u8; 2];
    assert_eq!(r.len(), 3);
    assert_eq!(r.read_slice(&mut out), Ok(()));
    assert_eq!(out, [1, 2]);
    assert_eq!(r.len(), 1);
    assert_eq!(r.read_slice(&mut out), Err(Error { errno: EFAULT }));
    assert_eq!(out, [1, 2]);
    assert_eq!(r.len(), 1);
}

#[test]
fn read_slice_of_unreadable_bytes() {
    let mut r = UserSliceReader::new(vec![1, 0, 0], 2);
    let mut out = [9u8; 2];
    assert_eq!(r.read_slice(&mut out), Err(Error { errno: EFAULT }));
    assert_eq!(out, [1, 0]);
    assert_eq!(r.len(), 3);
    let mut one = [9u8; 1];
    assert_eq!(r.read_slice(&mut one), Ok(()));
    assert_eq!(one, [1]);
}

#[test]
fn read_all_appends() {
    let mut buf = vec![7];
    let mut r = UserSliceReader::new(vec![1, 2, 3], 0);
    assert_eq!(r.read_slice(&mut [0u8; 1]), Ok(()));
    assert_eq!(r.read_all(&mut buf, true), Ok(()));
    assert_eq!(buf, vec![7, 2, 3]);
}

#[test]
fn read_all_failures() {
    let mut buf = vec![7];
    let r = UserSliceReader::new(vec![1], 0).read_all(&mut buf, false);
    assert_eq!(r, Err(Error { errno: ENOMEM }));
    let r = UserSliceReader::new(vec![1], 1).read_all(&mut buf, true);
    assert_eq!(r, Err(Error { errno: EFAULT }));
    let r = UserSliceReader::new(vec![], 0).read_all(&mut buf, false);
    assert_eq!(r, Ok(()));
    assert_eq!(buf, vec![7]);
}

#[test]
fn reserve_decides() {
    let mut buf = vec![7];
    assert!(reserve(&mut buf, 0));
    assert!(reserve(&mut buf, 100));
    assert!(buf.capacity() >= 101);
    assert!(!reserve(&mut buf, usize::MAX));
    assert!(!reserve(&mut buf, usize::MAX - 1));
    assert!(!reserve(&mut buf, isize::MAX as usize));
    assert_eq!(buf, vec![7]);
}

#[test]
fn write_slice_gathers() {
    let mut w = UserSliceWriter::new(3);
    assert_eq!(w.len(), 3);
    assert_eq!(w.write_slice(&[1, 2]), Ok(()));
    assert_eq!(w.len(), 1);
    assert_eq!(w.write_slice(&[3, 4]), Err(Error { errno: EFAULT }));
    assert_eq!(w.staged, vec![1, 2]);
    assert_eq!(w.write_slice(&[3]), Ok(()));
    assert_eq!(w.staged, vec![1, 2, 3]);
    assert_eq!(w.len(), 0);
}
