use irongate::buf_reader::buf_read::AsyncBufRead;
use irongate::buf_reader::buf_read_ext::AsyncBufReadExt;
use irongate::buf_reader::buf_reader::AsyncBufReader;
use irongate::buf_reader::buf_reader::FillStep;
use irongate::buf_reader::buf_reader::ReadStep;
use irongate::buf_reader::buf_reader::DEFAULT_CHUNK_SIZE;
use irongate::buf_reader::passthrough::AsyncBufPassthrough;

#[test]
fn a_new_reader_is_empty() {
    let reader = AsyncBufReader::new(17u8);
    assert_eq!(*reader.get_ref(), 17);
    assert_eq!(reader.len(), 0);
    assert!(reader.is_empty());
    assert!(reader.capacity() >= DEFAULT_CHUNK_SIZE);
    assert_eq!(reader.buffer(), b"");
    assert_eq!(reader.buf(), b"");
    assert!(!reader.eof());
    let small = AsyncBufReader::with_chunk_size(16, ());
    assert!(small.capacity() >= 16);
}

#[test]
fn peeking_fills_and_reading_consumes() {
    let mut reader = AsyncBufReader::new(());
    assert_eq!(reader.plan_fill(5), FillStep::Read);
    assert_eq!(reader.filled(b"Hello, world!", 5), 5);
    assert_eq!(&reader.buffer()[..5], b"Hello");
    assert!(reader.len() >= 5);
    // what was looked at is still there
    assert_eq!(reader.plan_fill(5), FillStep::Ready(5));
    assert_eq!(reader.plan_read(5), ReadStep::Fill);
    reader.served(5);
    assert_eq!(reader.plan_fill(2), FillStep::Ready(2));
    assert_eq!(&reader.buffer()[..2], b", ");
    reader.consume(2);
    assert_eq!(reader.buffer(), b"world!");
    assert_eq!(reader.plan_fill(100), FillStep::Read);
    // a read that gives nothing is the end
    assert_eq!(reader.filled(b"", 100), 6);
    assert!(reader.eof());
    assert_eq!(reader.plan_fill(100), FillStep::Ready(6));
    assert_eq!(reader.plan_fill(3), FillStep::Ready(3));
    reader.consume(6);
    assert_eq!(reader.plan_fill(3), FillStep::Ready(0));
    let (_, rest) = reader.into_parts();
    assert!(rest.is_empty());
}

#[test]
fn large_requests_grow_the_buffer() {
    let data = vec![0u8; 20000];
    let mut reader = AsyncBufReader::with_chunk_size(1024, ());
    assert_eq!(reader.plan_fill(10000), FillStep::Read);
    assert!(reader.capacity() >= 10000);
    assert_eq!(reader.filled(&data[..4000], 10000), 4000);
    assert_eq!(reader.plan_fill(10000), FillStep::Read);
    assert_eq!(reader.filled(&data[4000..], 10000), 10000);
    assert_eq!(reader.len(), 20000);
    assert_eq!(reader.plan_fill(10000), FillStep::Ready(10000));
}

#[test]
fn large_reads_go_past_the_buffer() {
    let mut reader = AsyncBufReader::with_chunk_size(8, ());
    assert_eq!(reader.plan_read(8), ReadStep::Inner);
    assert_eq!(reader.plan_read(7), ReadStep::Fill);
    reader.filled(b"abc", 3);
    assert_eq!(reader.plan_read(8), ReadStep::Serve(3));
    assert_eq!(reader.plan_read(2), ReadStep::Fill);
    reader.served(3);
    assert_eq!(reader.plan_read(100), ReadStep::Inner);
    reader.filled(b"", 1);
    assert_eq!(reader.plan_read(100), ReadStep::Ended);
}

#[test]
fn passthrough_empties_the_buffer_and_then_steps_aside() {
    let mut reader = AsyncBufReader::new(());
    reader.filled(b"passthrough", 4);
    reader.passthrough(true);
    assert_eq!(reader.plan_fill(100), FillStep::Ready(11));
    assert_eq!(reader.plan_read(4), ReadStep::Serve(4));
    reader.served(4);
    assert_eq!(reader.buffer(), b"through");
    assert_eq!(reader.plan_read(100), ReadStep::Serve(7));
    reader.served(7);
    assert!(reader.is_empty());
    assert_eq!(reader.plan_read(1), ReadStep::Inner);
    assert_eq!(reader.plan_fill(1), FillStep::Ready(0));
    reader.passthrough(false);
    assert_eq!(reader.plan_read(1), ReadStep::Fill);
    reader.discard_buffer();
    assert!(reader.is_empty());
}

#[test]
fn requests_beyond_what_memory_can_hold_are_declined() {
    assert!(AsyncBufReader::try_with_chunk_size(usize::MAX, ()).is_err());
    let mut reader = AsyncBufReader::try_with_chunk_size(4, ()).ok().unwrap();
    assert_eq!(reader.chunk(), 4);
    assert!(!reader.passes_through());
    assert_eq!(reader.try_plan_fill(usize::MAX), None);
    assert_eq!(reader.try_plan_fill(3), Some(FillStep::Read));
    assert_eq!(reader.try_filled(b"abcdef", 3), Some(3));
    assert_eq!(reader.buffer(), b"abcdef");
    assert_eq!(reader.try_plan_fill(3), Some(FillStep::Ready(3)));
    *reader.get_mut() = ();
}

#[test]
fn readers_without_waiting() {
    use_sync_reader();
}

fn use_sync_reader() {
    let mut reader = AsyncBufReader::new(());
    reader.filled(b"hello", 5);
    assert!(!AsyncBufRead::eof(&reader));
    assert_eq!(AsyncBufRead::buf(&reader), b"hello");
    AsyncBufRead::consume(&mut reader, 2);
    assert_eq!(AsyncBufReadExt::buffer(&reader), b"llo");
    assert!(!AsyncBufReadExt::ended(&reader));
    reader.consume_peeked(1);
    assert_eq!(reader.buffer(), b"lo");
    let mut slice: &[u8] = b"abc";
    assert!(!slice.eof());
    assert_eq!(slice.buf(), b"abc");
    AsyncBufRead::consume(&mut slice, 2);
    assert_eq!(slice, b"c");
    slice.consume_peeked(1);
    assert!(slice.is_empty());
}
