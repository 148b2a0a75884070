use stream::error::StreamError;
use stream::memory::MemoryStream;
use stream::{read_exact, read_to_end, write_all, ReadStream, SeekStream, WriteStream};

#[test]
fn memory_write() {
    let mut s = MemoryStream::new();

    let buffer: [u8; 6] = [0, 1, 2, 3, 4, 5];
    write_all(&mut s, &buffer).expect("all should be written");

    assert_eq!(6, s.len().unwrap());
    assert_eq!(6, s.position().unwrap());
}

#[test]
fn memory_write_read() {
    let mut s = MemoryStream::new();

    let buffer: [u8; 6] = [0, 1, 2, 3, 4, 5];
    write_all(&mut s, &buffer).expect("all should be written");

    s.seek(0).unwrap();
    assert_eq!(0, s.position().unwrap());
    assert_eq!(6, s.len().unwrap());

    let mut buffer_read: Vec<u8> = vec![0u8; 6];
    read_exact(&mut s, &mut buffer_read).unwrap();
    assert_eq!(6, s.position().unwrap());

    assert_eq!(buffer.to_vec(), buffer_read);
}

#[test]
fn memory_read_to_end() {
    let mut s = MemoryStream::new();

    let buffer: [u8; 2] = [42, 10];
    write_all(&mut s, &buffer).expect("all should be written");

    s.seek(0).unwrap();
    assert_eq!(0, s.position().unwrap());
    assert_eq!(2, s.len().unwrap());

    let buffer_read = read_to_end(&mut s).unwrap();

    assert_eq!(buffer.to_vec(), buffer_read);
}

#[test]
fn memory_sparse_write_zero_fills() {
    let mut s = MemoryStream::new();

    write_all(&mut s, &[1u8]).unwrap();
    s.seek(5).unwrap();
    write_all(&mut s, &[7u8, 8u8]).unwrap();

    assert_eq!(7, s.len().unwrap());
    assert_eq!(7, s.position().unwrap());

    s.seek(0).unwrap();
    let all = read_to_end(&mut s).unwrap();
    assert_eq!(vec![1u8, 0, 0, 0, 0, 7, 8], all);
}

#[test]
fn memory_short_read_at_end() {
    let mut s = MemoryStream::new();
    write_all(&mut s, &[10u8, 20, 30]).unwrap();

    s.seek(1).unwrap();
    let mut dest: Vec<u8> = vec![0u8; 10];
    let n = s.read(&mut dest).unwrap();
    assert_eq!(2, n);
    assert_eq!(&[20u8, 30], &dest[..2]);
    assert_eq!(3, s.position().unwrap());

    let n = s.read(&mut dest).unwrap();
    assert_eq!(0, n);
    assert_eq!(3, s.position().unwrap());
}

#[test]
fn memory_read_exact_unexpected_eof() {
    let mut s = MemoryStream::new();
    write_all(&mut s, &[1u8, 2]).unwrap();

    s.seek(0).unwrap();
    let mut dest: Vec<u8> = vec![0u8; 5];
    let r = read_exact(&mut s, &mut dest);
    assert!(matches!(r, Err(StreamError::UnexpectedEof)));
    // The short read still delivered what was there and moved the cursor.
    assert_eq!(&[1u8, 2], &dest[..2]);
    assert_eq!(2, s.position().unwrap());
}

#[test]
fn memory_overwrite_keeps_length() {
    let mut s = MemoryStream::new();
    write_all(&mut s, &[0u8, 1, 2, 3, 4, 5]).unwrap();

    s.seek(2).unwrap();
    write_all(&mut s, &[9u8, 9]).unwrap();
    assert_eq!(6, s.len().unwrap());
    assert_eq!(4, s.position().unwrap());

    s.seek(0).unwrap();
    let all = read_to_end(&mut s).unwrap();
    assert_eq!(vec![0u8, 1, 9, 9, 4, 5], all);
}

#[test]
fn memory_empty_write_changes_nothing() {
    let mut s = MemoryStream::new();
    write_all(&mut s, &[5u8]).unwrap();
    s.seek(10).unwrap();

    let empty: [u8; 0] = [];
    let n = s.write(&empty).unwrap();
    assert_eq!(0, n);
    assert_eq!(1, s.len().unwrap());
    assert_eq!(10, s.position().unwrap());
}

#[test]
fn memory_seek_past_end_reads_nothing() {
    let mut s = MemoryStream::new();
    write_all(&mut s, &[1u8, 2]).unwrap();

    s.seek(50).unwrap();
    assert_eq!(50, s.position().unwrap());
    let mut dest: Vec<u8> = vec![0u8; 4];
    let n = s.read(&mut dest).unwrap();
    assert_eq!(0, n);
    assert_eq!(vec![0u8; 4], dest);
}

#[test]
fn memory_from_vec_and_back() {
    let mut s = MemoryStream::from(vec![42u8, 10]);
    assert_eq!(0, s.position().unwrap());
    assert_eq!(2, s.len().unwrap());

    let all = read_to_end(&mut s).unwrap();
    assert_eq!(vec![42u8, 10], all);

    let buffer: Vec<u8> = Vec::from(s);
    assert_eq!(vec![42u8, 10], buffer);
}

#[test]
fn memory_default_is_empty() {
    let mut s = MemoryStream::default();
    assert_eq!(0, s.len().unwrap());
    assert_eq!(0, s.position().unwrap());
    s.flush().unwrap();
    assert_eq!(0, s.len().unwrap());
}
