use stream::slice::SliceStream;
use stream::{read_exact, ReadStream, SeekStream};

#[test]
fn read_repeated() {
    let buffer: [u8; 6] = [0, 1, 2, 3, 4, 5];
    let mut s = SliceStream::new(&buffer);

    s.seek(0).unwrap();
    assert_eq!(0, s.position().unwrap());
    assert_eq!(6, s.len().unwrap());

    let mut buffer_read: Vec<u8> = vec![0u8; 6];
    read_exact(&mut s, &mut buffer_read).unwrap();
    assert_eq!(6, s.position().unwrap());

    assert_eq!(buffer.to_vec(), buffer_read);
}

#[test]
fn slice_short_read_at_end() {
    let buffer: [u8; 3] = [1, 2, 3];
    let mut s = SliceStream::new(&buffer);

    s.seek(1).unwrap();
    let mut dest: Vec<u8> = vec![0u8; 10];
    let n = s.read(&mut dest).unwrap();
    assert_eq!(2, n);
    assert_eq!(&[2u8, 3], &dest[..2]);
    assert_eq!(3, s.position().unwrap());

    let n = s.read(&mut dest).unwrap();
    assert_eq!(0, n);
}

#[test]
fn slice_seek_past_end_reads_nothing() {
    let buffer: [u8; 2] = [8, 9];
    let mut s = SliceStream::new(&buffer);

    s.seek(100).unwrap();
    assert_eq!(100, s.position().unwrap());
    let mut dest: Vec<u8> = vec![0u8; 4];
    let n = s.read(&mut dest).unwrap();
    assert_eq!(0, n);
    assert_eq!(2, s.len().unwrap());
}
