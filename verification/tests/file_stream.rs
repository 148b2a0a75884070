use stream::file::{FileStream, FileStreamMode, ReadPrep, WritePrep};

#[test]
fn file_core_starts_as_constructed() {
    let s = FileStream::new_read(10);
    assert_eq!(FileStreamMode::Read, s.current_mode());
    assert_eq!(0, s.position());
    assert_eq!(10, s.len());
    assert!(!s.must_flush());

    let s = FileStream::new_write(3);
    assert_eq!(FileStreamMode::Write, s.current_mode());
    assert_eq!(0, s.position());
    assert_eq!(3, s.len());
    assert!(s.must_flush());
}

#[test]
fn file_core_mode_switch() {
    // Write six bytes, go back to the start and read them again
    // without reopening: the switch into read mode must flush and
    // reposition the fresh reader.
    let mut s = FileStream::new_write(0);
    s.record_write(&[0u8, 1, 2, 3, 4, 5]);
    assert_eq!(6, s.position());
    assert_eq!(6, s.len());

    s.record_seek(0);
    assert_eq!(ReadPrep::FlushAndReposition(0), s.prepare_read());
    assert_eq!(FileStreamMode::Read, s.current_mode());
    s.record_read(6);
    assert_eq!(6, s.position());

    // Still open: overwrite two bytes in the middle. The switch into
    // write mode opens a writer at the current position without a
    // flush, and the overwrite must not grow the file.
    s.record_seek(2);
    assert_eq!(WritePrep::OpenWriterAt(2), s.prepare_write());
    assert_eq!(FileStreamMode::Write, s.current_mode());
    s.record_write(&[9u8, 9]);
    assert_eq!(4, s.position());
    assert_eq!(6, s.len());

    s.record_seek(0);
    assert_eq!(ReadPrep::FlushAndReposition(0), s.prepare_read());
    s.record_read(6);
    assert_eq!(6, s.position());
    assert_eq!(6, s.len());
}

#[test]
fn file_core_prepare_is_lazy() {
    let mut s = FileStream::new_read(4);
    // Already reading: nothing to do, and doing it twice stays lazy.
    assert_eq!(ReadPrep::Ready, s.prepare_read());
    assert_eq!(ReadPrep::Ready, s.prepare_read());

    assert_eq!(WritePrep::OpenWriterAt(0), s.prepare_write());
    assert_eq!(WritePrep::Ready, s.prepare_write());
}

#[test]
fn file_core_length_grows_past_end_only() {
    let mut s = FileStream::new_write(4);
    s.record_seek(2);
    s.record_write(&[5u8, 5, 5, 5]);
    // The write ends at 6, past the previous length of 4.
    assert_eq!(6, s.len());
    assert_eq!(6, s.position());

    s.record_seek(0);
    s.record_write(&[1u8]);
    assert_eq!(6, s.len());
    assert_eq!(1, s.position());

    // An empty write never grows the file, wherever the cursor sits.
    s.record_seek(50);
    let empty: [u8; 0] = [];
    s.record_write(&empty);
    assert_eq!(6, s.len());
    assert_eq!(50, s.position());
}

#[test]
fn file_core_read_at_end_is_empty() {
    let mut s = FileStream::new_read(2);
    s.record_seek(2);
    s.record_read(0);
    assert_eq!(2, s.position());
    assert_eq!(2, s.len());
}
