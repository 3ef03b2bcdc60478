//! Whole conversations: the library on one side, on the other a small stand-in
//! for the native decoder and an in-memory file system.

use std::cell::RefCell;
use std::collections::BTreeMap;
use std::io::{Cursor, Read, Seek, Write};
use std::rc::Rc;
use std::sync::atomic::{AtomicUsize, Ordering};
use std::sync::Arc;

use flate2::read::GzDecoder;
use flate2::write::GzEncoder;
use flate2::Compression;

use rapidgzip::callbacks::{cb_clone, cb_get_size, cb_read, cb_seek, write_cb};
use rapidgzip::protocol::Behavior;
use rapidgzip::source::{CloneFailureReader, FileClone};
use rapidgzip::sys::{CallbackEntry, SourceKind};
use rapidgzip::{
    rgz_callbacks_t, rgz_config_t, rgz_status_t, Error, ErrorKind, IoError, IoReadMode, ModeReport,
    Operation, Reader, ReaderBuilder, Reply, Request, SeekFrom, Step,
};

/// What came of a call on a source.
enum Answer<T> {
    Value(T),
    Error,
    Panic,
}

trait Source {
    fn read(&mut self, buf: &mut [u8]) -> Answer<usize>;
    fn seek(&mut self, pos: SeekFrom) -> Answer<u64>;
    fn position(&mut self) -> Answer<u64>;
    fn duplicate(&self) -> Option<Box<dyn Source>>;
}

fn std_pos(pos: SeekFrom) -> std::io::SeekFrom {
    match pos {
        SeekFrom::Start(n) => std::io::SeekFrom::Start(n),
        SeekFrom::End(n) => std::io::SeekFrom::End(n),
        SeekFrom::Current(n) => std::io::SeekFrom::Current(n),
    }
}

fn answer<T>(result: std::io::Result<T>) -> Answer<T> {
    match result {
        Ok(value) => Answer::Value(value),
        Err(_) => Answer::Error,
    }
}

struct Plain<R>(R);

impl<R: Read + Seek + Send + 'static> Source for Plain<R> {
    fn read(&mut self, buf: &mut [u8]) -> Answer<usize> {
        answer(self.0.read(buf))
    }
    fn seek(&mut self, pos: SeekFrom) -> Answer<u64> {
        answer(self.0.seek(std_pos(pos)))
    }
    fn position(&mut self) -> Answer<u64> {
        answer(self.0.stream_position())
    }
    fn duplicate(&self) -> Option<Box<dyn Source>> {
        None
    }
}

struct Cloneable<R>(R);

impl<R: Read + Seek + Clone + Send + 'static> Source for Cloneable<R> {
    fn read(&mut self, buf: &mut [u8]) -> Answer<usize> {
        answer(self.0.read(buf))
    }
    fn seek(&mut self, pos: SeekFrom) -> Answer<u64> {
        answer(self.0.seek(std_pos(pos)))
    }
    fn position(&mut self) -> Answer<u64> {
        answer(self.0.stream_position())
    }
    fn duplicate(&self) -> Option<Box<dyn Source>> {
        Some(Box::new(Cloneable(self.0.clone())))
    }
}

/// Runs an operation to its result.
fn drive<S: Operation>(
    mut step: Step<S, S::Output>,
    mut perform: impl FnMut(Request) -> Reply,
) -> S::Output {
    loop {
        match step {
            Step::Done(output) => return output,
            Step::Call(request, state) => {
                let reply = perform(request);
                assert!(state.accepts(&reply));
                step = state.resume(reply);
            }
        }
    }
}

fn on_source(source: &mut dyn Source, request: Request, buf: &mut [u8]) -> Reply {
    match request {
        Request::SourceRead { len } => {
            assert_eq!(len, buf.len());
            match source.read(buf) {
                Answer::Value(n) => Reply::SourceCount(Some(n)),
                Answer::Error => Reply::SourceCount(None),
                Answer::Panic => Reply::Panicked,
            }
        }
        Request::SourceSeek { pos } => match source.seek(pos) {
            Answer::Value(n) => Reply::SourceOffset(Some(n)),
            Answer::Error => Reply::SourceOffset(None),
            Answer::Panic => Reply::Panicked,
        },
        Request::SourcePosition => match source.position() {
            Answer::Value(n) => Reply::SourceOffset(Some(n)),
            Answer::Error => Reply::SourceOffset(None),
            Answer::Panic => Reply::Panicked,
        },
        _ => panic!("not a call on a source"),
    }
}

/// Reads a whole source the way the decoder does: measure, rewind, read.
fn slurp(source: &mut dyn Source) -> Option<Vec<u8>> {
    let size = drive(cb_get_size(), |q| on_source(source, q, &mut []));
    if size == u64::MAX {
        return None;
    }
    if drive(cb_seek(0, 0), |q| on_source(source, q, &mut [])) == u64::MAX {
        return None;
    }
    let mut data = Vec::new();
    loop {
        let mut buf = vec![0u8; 64];
        let n = drive(cb_read(false, buf.len()), |q| on_source(source, q, &mut buf));
        if n == usize::MAX {
            return None;
        }
        if n == 0 {
            return Some(data);
        }
        data.extend_from_slice(&buf[..n]);
    }
}

struct Native {
    source: Box<dyn Source>,
    callbacks: Option<rgz_callbacks_t>,
    config: rgz_config_t,
    data: Option<Vec<u8>>,
    pos: usize,
    keep_index: Option<bool>,
    index: Option<Vec<u8>>,
    last_error: Option<String>,
}

impl Native {
    fn decode(&mut self) -> Result<(), rgz_status_t> {
        if self.data.is_some() {
            return Ok(());
        }
        let mut worker = None;
        let clones = match self.callbacks {
            Some(callbacks) => callbacks.clone.is_some() && self.config.parallelism > 1,
            None => false,
        };
        if clones {
            let source = &self.source;
            let address = drive(cb_clone(), |_| {
                worker = source.duplicate();
                match worker {
                    Some(_) => Reply::Cloned(1),
                    None => Reply::Panicked,
                }
            });
            assert_eq!(address == 0, worker.is_none());
        }
        let bytes = match worker {
            Some(mut clone) => slurp(&mut *clone),
            None => slurp(&mut *self.source),
        };
        let bytes = match bytes {
            Some(bytes) => bytes,
            None => {
                self.last_error = Some("source failed".to_string());
                return Err(rgz_status_t::RGZ_STATUS_IO_ERROR);
            }
        };
        let mut data = Vec::new();
        if GzDecoder::new(&bytes[..]).read_to_end(&mut data).is_err() {
            self.last_error = None;
            return Err(rgz_status_t::RGZ_STATUS_DATA_ERROR);
        }
        self.data = Some(data);
        Ok(())
    }
}

#[derive(Clone)]
enum Node {
    File { data: Vec<u8>, mode: u32 },
    Link(Vec<u8>),
}

#[derive(Default)]
struct World {
    nodes: BTreeMap<Vec<u8>, Node>,
    read_only: bool,
    refuse_rename: bool,
    hide_modes: bool,
    refuse_modes: bool,
    temp: Option<(Vec<u8>, u32)>,
    temp_dirs: Vec<Vec<u8>>,
    opened: Option<Box<dyn Source>>,
    opened_kind: Option<SourceKind>,
    readers: BTreeMap<usize, Native>,
    next: usize,
    open_failure: Option<(rgz_status_t, Option<String>)>,
    keep_failure: Option<(rgz_status_t, Option<String>)>,
    export_failure: Option<(rgz_status_t, Option<String>)>,
    log: Vec<&'static str>,
}

impl World {
    fn resolve(&self, path: &[u8]) -> Option<Vec<u8>> {
        let mut path = path.to_vec();
        for _ in 0..8 {
            match self.nodes.get(&path) {
                Some(Node::File { .. }) => return Some(path),
                Some(Node::Link(target)) => path = target.clone(),
                None => return None,
            }
        }
        None
    }

    fn file(&self, path: &[u8]) -> Option<(Vec<u8>, u32)> {
        match self.nodes.get(&self.resolve(path)?) {
            Some(Node::File { data, mode }) => Some((data.clone(), *mode)),
            _ => None,
        }
    }

    fn add_reader(&mut self, source: Box<dyn Source>, callbacks: Option<rgz_callbacks_t>, config: rgz_config_t) -> Reply {
        if let Some((status, _)) = self.open_failure {
            return Reply::Opened { address: 0, status };
        }
        self.next += 1;
        let address = self.next;
        self.readers.insert(
            address,
            Native {
                source,
                callbacks,
                config,
                data: None,
                pos: 0,
                keep_index: None,
                index: None,
                last_error: None,
            },
        );
        Reply::Opened { address, status: rgz_status_t::RGZ_STATUS_OK }
    }

    fn advance(&mut self, address: usize, len: usize, mut sink: impl FnMut(&[u8])) -> Reply {
        let native = self.readers.get_mut(&address).unwrap();
        if let Err(status) = native.decode() {
            return Reply::Transferred { status, count: 0 };
        }
        let data = native.data.as_ref().unwrap();
        let count = len.min(data.len() - native.pos);
        sink(&data[native.pos..native.pos + count]);
        native.pos += count;
        if native.pos == data.len() {
            native.index = Some([b"IDX".as_slice(), &(data.len() as u64).to_le_bytes()].concat());
        }
        let status = if count < len {
            rgz_status_t::RGZ_STATUS_EOF
        } else {
            rgz_status_t::RGZ_STATUS_OK
        };
        Reply::Transferred { status, count }
    }

    fn perform(&mut self, request: Request, buf: &mut [u8], sink: &mut Vec<u8>) -> Reply {
        match request {
            Request::OpenPath { path, config } => {
                self.log.push("OpenPath");
                assert_eq!(path.last(), Some(&0));
                let path = &path[..path.len() - 1];
                match self.file(path) {
                    Some((data, _)) => {
                        self.add_reader(Box::new(Plain(Cursor::new(data))), None, config)
                    }
                    None => Reply::Opened { address: 0, status: rgz_status_t::RGZ_STATUS_IO_ERROR },
                }
            }
            Request::OpenCallbacks { callbacks, config } => {
                self.log.push("OpenCallbacks");
                let source = self.opened.take().unwrap();
                self.add_reader(source, Some(callbacks), config)
            }
            Request::Close { reader } => {
                self.log.push("Close");
                assert!(self.readers.remove(&reader.address()).is_some());
                Reply::Finished
            }
            Request::Read { reader, len } => {
                self.log.push("Read");
                assert_eq!(len, buf.len());
                self.advance(reader.address(), len, |bytes| buf[..bytes.len()].copy_from_slice(bytes))
            }
            Request::ReadDiscard { reader, len } => {
                self.log.push("ReadDiscard");
                self.advance(reader.address(), len, |_| ())
            }
            Request::ReadToFd { reader, output_fd, len } => {
                self.log.push("ReadToFd");
                assert_eq!(output_fd, 7);
                self.advance(reader.address(), len, |bytes| sink.extend_from_slice(bytes))
            }
            Request::SetKeepIndex { reader, keep_index } => {
                self.log.push("SetKeepIndex");
                if let Some((status, text)) = self.keep_failure.clone() {
                    self.readers.get_mut(&reader.address()).unwrap().last_error = text;
                    return Reply::Status(status);
                }
                self.readers.get_mut(&reader.address()).unwrap().keep_index = Some(keep_index);
                Reply::Status(rgz_status_t::RGZ_STATUS_OK)
            }
            Request::SeekTo { reader, offset } => {
                self.log.push("SeekTo");
                let native = self.readers.get_mut(&reader.address()).unwrap();
                if let Err(status) = native.decode() {
                    return Reply::Status(status);
                }
                if offset as usize > native.data.as_ref().unwrap().len() {
                    native.last_error = Some("beyond the end".to_string());
                    return Reply::Status(rgz_status_t::RGZ_STATUS_SEEK_ERROR);
                }
                native.pos = offset as usize;
                Reply::Status(rgz_status_t::RGZ_STATUS_OK)
            }
            Request::Tell { reader } => {
                self.log.push("Tell");
                let offset = self.readers[&reader.address()].pos as u64;
                Reply::Position { status: rgz_status_t::RGZ_STATUS_OK, offset }
            }
            Request::ImportIndex { reader, callbacks } => {
                self.log.push("ImportIndex");
                assert_eq!(callbacks.clone, None);
                let mut source = self.opened.take().unwrap();
                let bytes = slurp(&mut *source);
                let native = self.readers.get_mut(&reader.address()).unwrap();
                match bytes {
                    Some(bytes) if bytes.starts_with(b"IDX") => {
                        native.index = Some(bytes);
                        Reply::Status(rgz_status_t::RGZ_STATUS_OK)
                    }
                    _ => {
                        native.last_error = Some(" \n".to_string());
                        Reply::Status(rgz_status_t::RGZ_STATUS_INDEX_ERROR)
                    }
                }
            }
            Request::ExportIndex { reader } => {
                self.log.push("ExportIndex");
                if let Some((status, text)) = self.export_failure.clone() {
                    self.readers.get_mut(&reader.address()).unwrap().last_error = text;
                    return Reply::Status(status);
                }
                let index = self.readers[&reader.address()].index.clone().unwrap();
                for chunk in index.chunks(4) {
                    let taken = drive(write_cb(false, chunk.len()), |q| match q {
                        Request::WriteTemp { size } => {
                            assert_eq!(size, chunk.len());
                            self.temp.as_mut().unwrap().0.extend_from_slice(chunk);
                            Reply::Written(true)
                        }
                        _ => panic!("not a write"),
                    });
                    assert_eq!(taken, chunk.len());
                }
                Reply::Status(rgz_status_t::RGZ_STATUS_OK)
            }
            Request::LastError { reader } => {
                self.log.push("LastError");
                Reply::Message(self.readers[&reader.address()].last_error.clone())
            }
            Request::LastGlobalError => {
                self.log.push("LastGlobalError");
                Reply::Message(match &self.open_failure {
                    Some((_, text)) => text.clone(),
                    None => None,
                })
            }
            Request::OpenFile { path, kind } => {
                self.log.push("OpenFile");
                self.opened_kind = Some(kind);
                Reply::Outcome(match self.file(&path) {
                    Some((data, _)) => {
                        self.opened = Some(match kind {
                            SourceKind::Plain => Box::new(Plain(Cursor::new(data))),
                            SourceKind::Cloneable => Box::new(Cloneable(Cursor::new(data))),
                        });
                        Ok(())
                    }
                    None => Err("no such file".to_string()),
                })
            }
            Request::Probe { path } => {
                self.log.push("Probe");
                Reply::Found(self.nodes.contains_key(&path))
            }
            Request::Canonicalize { path } => {
                self.log.push("Canonicalize");
                Reply::Resolved(self.resolve(&path).ok_or("does not resolve".to_string()))
            }
            Request::Parent { path } => {
                self.log.push("Parent");
                // The root and the empty path have no parent, and a bare name has
                // the empty one.
                Reply::Directory(match path.iter().rposition(|b| *b == b'/') {
                    _ if path.is_empty() || path == b"/" => None,
                    Some(0) => Some(b"/".to_vec()),
                    Some(cut) => Some(path[..cut].to_vec()),
                    None => Some(Vec::new()),
                })
            }
            Request::FileMode { path } => {
                self.log.push("FileMode");
                if self.hide_modes {
                    return Reply::Mode(ModeReport::Failed("mode is hidden".to_string()));
                }
                Reply::Mode(match self.file(&path) {
                    Some((_, mode)) => ModeReport::Bits(mode),
                    None => ModeReport::Missing,
                })
            }
            Request::CreateTemp { dir, prefix, suffix } => {
                self.log.push("CreateTemp");
                assert_eq!(prefix, ".rapidgzip-index.");
                assert_eq!(suffix, ".tmp");
                self.temp_dirs.push(dir);
                if self.read_only {
                    return Reply::Outcome(Err("read-only".to_string()));
                }
                self.temp = Some((Vec::new(), 0o600));
                Reply::Outcome(Ok(()))
            }
            Request::SetTempMode { mode } => {
                self.log.push("SetTempMode");
                if self.refuse_modes {
                    return Reply::Outcome(Err("mode refused".to_string()));
                }
                self.temp.as_mut().unwrap().1 = mode;
                Reply::Outcome(Ok(()))
            }
            Request::PersistTemp { path } => {
                self.log.push("PersistTemp");
                if self.refuse_rename {
                    return Reply::Outcome(Err("rename refused".to_string()));
                }
                let (data, mode) = self.temp.take().unwrap();
                self.nodes.insert(path, Node::File { data, mode });
                Reply::Outcome(Ok(()))
            }
            Request::DiscardTemp => {
                self.log.push("DiscardTemp");
                assert!(self.temp.take().is_some());
                Reply::Finished
            }
            _ => panic!("a call on behalf of a callback"),
        }
    }
}

/// A reader of the library together with the world that it lives in.
struct Session {
    world: Rc<RefCell<World>>,
    reader: Option<Reader>,
}

fn run<S: Operation>(world: &Rc<RefCell<World>>, step: Step<S, S::Output>) -> S::Output {
    drive(step, |q| world.borrow_mut().perform(q, &mut [], &mut Vec::new()))
}

fn opened(
    world: &Rc<RefCell<World>>,
    step: Step<rapidgzip::open::Opening, Result<Reader, Error>>,
) -> Result<Session, Error> {
    let reader = run(world, step)?;
    Ok(Session { world: Rc::clone(world), reader: Some(reader) })
}

fn open_source(
    world: &Rc<RefCell<World>>,
    builder: ReaderBuilder,
    source: Box<dyn Source>,
) -> Result<Session, Error> {
    world.borrow_mut().opened = Some(source);
    opened(world, builder.open_reader())
}

fn open_reader<R: Read + Seek + Send + 'static>(
    world: &Rc<RefCell<World>>,
    builder: ReaderBuilder,
    source: R,
) -> Result<Session, Error> {
    open_source(world, builder, Box::new(Plain(source)))
}

fn open_path(world: &Rc<RefCell<World>>, builder: ReaderBuilder, path: &str) -> Result<Session, Error> {
    opened(world, builder.open(path.as_bytes(), path))
}

impl Session {
    fn read(&mut self, buf: &mut [u8]) -> Result<usize, IoError> {
        let step = self.reader.as_mut().unwrap().read(buf.len());
        drive(step, |q| self.world.borrow_mut().perform(q, buf, &mut Vec::new()))
    }

    fn read_to_end(&mut self, out: &mut Vec<u8>) -> Result<usize, IoError> {
        let mut total = 0;
        loop {
            let mut buf = [0u8; 1000];
            let n = self.read(&mut buf)?;
            if n == 0 {
                return Ok(total);
            }
            out.extend_from_slice(&buf[..n]);
            total += n;
        }
    }

    fn read_to_string(&mut self, out: &mut String) -> Result<usize, IoError> {
        let mut bytes = Vec::new();
        let n = self.read_to_end(&mut bytes)?;
        out.push_str(std::str::from_utf8(&bytes).unwrap());
        Ok(n)
    }

    fn read_discard(&mut self, len: usize) -> Result<usize, IoError> {
        let step = self.reader.as_mut().unwrap().read_discard(len);
        run(&self.world, step)
    }

    fn read_to_fd(&mut self, len: usize, out: &mut Vec<u8>) -> Result<usize, IoError> {
        let step = self.reader.as_mut().unwrap().read_to_fd(7, len);
        drive(step, |q| self.world.borrow_mut().perform(q, &mut [], out))
    }

    fn seek(&mut self, pos: SeekFrom) -> Result<u64, IoError> {
        let step = self.reader.as_mut().unwrap().seek(pos);
        run(&self.world, step)
    }

    fn stream_position(&mut self) -> Result<u64, IoError> {
        self.seek(SeekFrom::Current(0))
    }

    fn export_index(&mut self, path: &str) -> Result<(), Error> {
        let step = self.reader.as_mut().unwrap().export_index(path.as_bytes().to_vec());
        run(&self.world, step)
    }

    fn import_index(&mut self, path: &str) -> Result<(), Error> {
        let step = self.reader.as_mut().unwrap().import_index(path.as_bytes().to_vec());
        run(&self.world, step)
    }
}

impl Drop for Session {
    fn drop(&mut self) {
        if let Some(reader) = self.reader.take() {
            let request = reader.close();
            self.world.borrow_mut().perform(request, &mut [], &mut Vec::new());
        }
    }
}

fn world() -> Rc<RefCell<World>> {
    Rc::new(RefCell::new(World::default()))
}

fn gzip(payload: &[u8]) -> Vec<u8> {
    let mut encoder = GzEncoder::new(Vec::new(), Compression::default());
    encoder.write_all(payload).unwrap();
    encoder.finish().unwrap()
}

fn create_test_gz() -> Vec<u8> {
    gzip(b"Hello, rapidgzip! This is a test file for FFI bindings.")
}

/// Puts a compressed file into the world and returns what it holds.
fn write_test_gz_file(world: &Rc<RefCell<World>>, path: &str) -> String {
    let expected = (0..500)
        .map(|i| format!("index-roundtrip line {}\n", i))
        .collect::<String>();
    let data = gzip(expected.as_bytes());
    world
        .borrow_mut()
        .nodes
        .insert(path.as_bytes().to_vec(), Node::File { data, mode: 0o644 });
    expected
}

/// Opens a file, reads it to its end and exports the index.
fn export(world: &Rc<RefCell<World>>, gz: &str, index: &str) -> Result<(), Error> {
    let mut reader = open_path(world, ReaderBuilder::new().keep_index(true), gz).unwrap();
    let mut sink = String::new();
    reader.read_to_string(&mut sink).unwrap();
    world.borrow_mut().log.clear();
    reader.export_index(index)
}

#[test]
fn test_basic_read_with_cursor() {
    let world = world();
    let gz_data = create_test_gz();
    let cursor = Cursor::new(gz_data);

    let mut reader =
        open_reader(&world, ReaderBuilder::new(), cursor).expect("Failed to open reader");
    let mut out = String::new();
    reader.read_to_string(&mut out).expect("Failed to read");
    assert_eq!(
        out,
        "Hello, rapidgzip! This is a test file for FFI bindings."
    );
}

#[test]
fn test_cloneable_reader() {
    let world = world();
    let gz_data = create_test_gz();
    let cursor = Cursor::new(gz_data);

    // Use parallelism > 1 to force cloning of the reader
    world.borrow_mut().opened = Some(Box::new(Cloneable(cursor)));
    let builder = ReaderBuilder::new().parallelism(2);
    let mut reader = opened(&world, builder.open_cloneable_reader())
        .expect("Failed to open cloneable reader");
    let mut out = String::new();
    reader.read_to_string(&mut out).expect("Failed to read");
    assert_eq!(
        out,
        "Hello, rapidgzip! This is a test file for FFI bindings."
    );
}

struct DropCountingReader {
    inner: Cursor<Vec<u8>>,
    drops: Arc<AtomicUsize>,
}

impl Read for DropCountingReader {
    fn read(&mut self, buf: &mut [u8]) -> std::io::Result<usize> {
        self.inner.read(buf)
    }
}

impl Seek for DropCountingReader {
    fn seek(&mut self, pos: std::io::SeekFrom) -> std::io::Result<u64> {
        self.inner.seek(pos)
    }
}

impl Drop for DropCountingReader {
    fn drop(&mut self) {
        self.drops.fetch_add(1, Ordering::SeqCst);
    }
}

#[test]
fn test_reader_drop_releases_callback_user_data() {
    let world = world();
    let drops = Arc::new(AtomicUsize::new(0));

    {
        let reader = DropCountingReader {
            inner: Cursor::new(create_test_gz()),
            drops: Arc::clone(&drops),
        };

        let _reader = open_reader(&world, ReaderBuilder::new(), reader)
            .expect("Failed to open drop-counting reader");

        assert_eq!(drops.load(Ordering::SeqCst), 0);
    }

    assert_eq!(drops.load(Ordering::SeqCst), 1);
}

struct PanickingReader;

impl Source for PanickingReader {
    fn read(&mut self, _buf: &mut [u8]) -> Answer<usize> {
        Answer::Panic
    }
    fn seek(&mut self, _pos: SeekFrom) -> Answer<u64> {
        Answer::Value(0)
    }
    fn position(&mut self) -> Answer<u64> {
        Answer::Value(0)
    }
    fn duplicate(&self) -> Option<Box<dyn Source>> {
        None
    }
}

#[test]
fn test_ffi_panic_safety() {
    let world = world();
    let reader = PanickingReader;
    let result = open_source(&world, ReaderBuilder::new(), Box::new(reader));

    match result {
        Ok(mut r) => {
            let mut buf = [0u8; 10];
            let res = r.read(&mut buf);
            assert!(
                res.is_err() || res.unwrap() == 0,
                "Should handle panic gracefully"
            );
        }
        Err(_) => {
            panic!("the decoder reads its source on the first read");
        }
    }
}

struct ErrorReader;

impl Read for ErrorReader {
    fn read(&mut self, _buf: &mut [u8]) -> std::io::Result<usize> {
        Err(std::io::Error::new(
            std::io::ErrorKind::BrokenPipe,
            "Simulated IO error",
        ))
    }
}

impl Seek for ErrorReader {
    fn seek(&mut self, _pos: std::io::SeekFrom) -> std::io::Result<u64> {
        Ok(0)
    }
}

#[test]
fn test_ffi_io_error_handling() {
    let world = world();
    let reader = ErrorReader;
    let result = open_reader(&world, ReaderBuilder::new(), reader);
    match result {
        Ok(mut r) => {
            let mut buf = [0u8; 10];
            let res = r.read(&mut buf);
            assert!(
                res.is_err() || res.unwrap() == 0,
                "Should handle error gracefully"
            );
        }
        Err(_) => {
            panic!("the decoder reads its source on the first read");
        }
    }
}

/// A reader that is `Send` but explicitly `!Sync` via `PhantomData<Cell<()>>`.
struct SendNotSync {
    inner: Cursor<Vec<u8>>,
    _not_sync: std::marker::PhantomData<std::cell::Cell<()>>,
}

impl Read for SendNotSync {
    fn read(&mut self, buf: &mut [u8]) -> std::io::Result<usize> {
        self.inner.read(buf)
    }
}

impl Seek for SendNotSync {
    fn seek(&mut self, pos: std::io::SeekFrom) -> std::io::Result<u64> {
        self.inner.seek(pos)
    }
}

#[test]
fn test_open_reader_accepts_send_not_sync_and_forces_sequential() {
    let world = world();
    let gz_data = create_test_gz();
    let reader = SendNotSync {
        inner: Cursor::new(gz_data),
        _not_sync: std::marker::PhantomData,
    };

    let mut reader = open_reader(&world, ReaderBuilder::new().parallelism(4), reader)
        .expect("Send+!Sync reader must be accepted by open_reader");
    {
        // No way to clone the source is offered, so it is read sequentially.
        let world = world.borrow();
        let native = world.readers.values().next().unwrap();
        assert_eq!(native.callbacks.unwrap().clone, None);
        assert_eq!(native.config.parallelism, 4);
    }

    let mut out = String::new();
    reader.read_to_string(&mut out).expect("read");
    assert_eq!(
        out,
        "Hello, rapidgzip! This is a test file for FFI bindings."
    );
}

#[test]
fn test_seek_current_after_partial_read() {
    let world = world();
    let payload = b"abcdefghijklmnopqrstuvwxyz".repeat(400); // 10 400 bytes
    let gz_data = gzip(&payload);

    let mut reader =
        open_reader(&world, ReaderBuilder::new(), Cursor::new(gz_data)).expect("open");

    // Read exactly 100 bytes.
    let mut buf = vec![0u8; 100];
    let n = reader.read(&mut buf).expect("read 100 bytes");
    assert!(n > 0, "must read at least one byte");

    // Stream position must equal the number of bytes consumed.
    let pos = reader.stream_position().expect("stream_position()");
    assert_eq!(
        pos, n as u64,
        "stream position must equal bytes read so far"
    );

    // Continuing to read must produce the correct subsequent bytes.
    let mut rest = Vec::new();
    reader.read_to_end(&mut rest).expect("read rest");
    assert_eq!(
        buf[..n].len() + rest.len(),
        payload.len(),
        "total bytes read must equal uncompressed size"
    );
    assert_eq!(
        &buf[..n],
        &payload[..n],
        "first chunk must match payload start"
    );
    assert_eq!(rest, &payload[n..], "remainder must match payload tail");
}

#[test]
fn test_index_roundtrip_seek_and_read() {
    let world = world();
    let gz_path = "/tmp/roundtrip.gz";
    let expected = write_test_gz_file(&world, gz_path);
    let index_path = "/tmp/roundtrip.gzi";

    // First pass: read fully to build the index, then export it.
    {
        let mut reader = open_path(&world, ReaderBuilder::new().keep_index(true), gz_path)
            .expect("open for index build");
        let mut sink = String::new();
        reader
            .read_to_string(&mut sink)
            .expect("read to build index");
        reader.export_index(index_path).expect("export_index");
    }

    assert!(
        world.borrow().file(index_path.as_bytes()).is_some(),
        "index file must exist after export"
    );

    // Second pass: import the index and seek to the middle of the stream.
    let mid_byte = expected.len() / 2;
    let expected_tail = &expected[mid_byte..];

    let mut reader = open_path(&world, ReaderBuilder::new().keep_index(true), gz_path)
        .expect("open for seek test");
    reader.import_index(index_path).expect("import_index");

    reader
        .seek(SeekFrom::Start(mid_byte as u64))
        .expect("seek to mid");

    let mut actual_tail = String::new();
    reader
        .read_to_string(&mut actual_tail)
        .expect("read after seek");

    assert_eq!(
        actual_tail, expected_tail,
        "data after seek must match original plaintext from that offset"
    );
}

#[test]
fn failed_export_leaves_existing_index_alone() {
    let world = world();
    write_test_gz_file(&world, "/d/a.gz");
    export(&world, "/d/a.gz", "/d/a.gzi").unwrap();
    let original = world.borrow().file(b"/d/a.gzi").unwrap();
    assert!(!original.0.is_empty());

    world.borrow_mut().read_only = true;
    let error = export(&world, "/d/a.gz", "/d/a.gzi").unwrap_err();
    assert_eq!(error.to_string(), "IO error: read-only");
    assert_eq!(world.borrow().file(b"/d/a.gzi").unwrap(), original);
    assert_eq!(
        world.borrow().log[..5],
        ["Probe", "Canonicalize", "Parent", "FileMode", "CreateTemp"]
    );

    world.borrow_mut().read_only = false;
    world.borrow_mut().export_failure =
        Some((rgz_status_t::RGZ_STATUS_STATE_ERROR, Some("not built".to_string())));
    let error = export(&world, "/d/a.gz", "/d/a.gzi").unwrap_err();
    assert_eq!(error.to_string(), "Internal error: not built");
    assert_eq!(world.borrow().file(b"/d/a.gzi").unwrap(), original);
    assert!(world.borrow().temp.is_none());
    assert_eq!(
        world.borrow().log[4..8],
        ["CreateTemp", "ExportIndex", "LastError", "DiscardTemp"]
    );

    world.borrow_mut().export_failure = None;
    world.borrow_mut().refuse_rename = true;
    let error = export(&world, "/d/a.gz", "/d/a.gzi").unwrap_err();
    assert_eq!(error.to_string(), "IO error: rename refused");
    assert_eq!(world.borrow().file(b"/d/a.gzi").unwrap(), original);
    assert!(world.borrow().temp.is_none());
}

#[test]
fn export_to_broken_symlink_is_an_error() {
    let world = world();
    write_test_gz_file(&world, "/d/a.gz");
    world
        .borrow_mut()
        .nodes
        .insert(b"/d/broken.gzi".to_vec(), Node::Link(b"/d/missing.gzi".to_vec()));

    let error = export(&world, "/d/a.gz", "/d/broken.gzi").unwrap_err();
    assert_eq!(error.to_string(), "IO error: does not resolve");
    assert!(matches!(
        world.borrow().nodes.get(b"/d/broken.gzi".as_slice()),
        Some(Node::Link(_))
    ));
    assert_eq!(world.borrow().log[..2], ["Probe", "Canonicalize"]);
    assert!(world.borrow().temp_dirs.is_empty());
}

#[test]
fn export_preserves_permissions() {
    let world = world();
    write_test_gz_file(&world, "/d/a.gz");
    export(&world, "/d/a.gz", "/d/a.gzi").unwrap();
    assert_eq!(world.borrow().file(b"/d/a.gzi").unwrap().1, 0o600);
    assert!(!world.borrow().log.contains(&"SetTempMode"));

    if let Some(Node::File { mode, .. }) = world.borrow_mut().nodes.get_mut(b"/d/a.gzi".as_slice()) {
        *mode = 0o640;
    }
    export(&world, "/d/a.gz", "/d/a.gzi").unwrap();
    assert_eq!(world.borrow().file(b"/d/a.gzi").unwrap().1, 0o640);
    assert_eq!(world.borrow().log[5..8], ["ExportIndex", "SetTempMode", "PersistTemp"]);
}

#[test]
fn export_fails_where_permissions_cannot_be_kept() {
    let world = world();
    write_test_gz_file(&world, "/d/a.gz");
    world
        .borrow_mut()
        .nodes
        .insert(b"/d/a.gzi".to_vec(), Node::File { data: b"old".to_vec(), mode: 0o640 });

    world.borrow_mut().refuse_modes = true;
    let error = export(&world, "/d/a.gz", "/d/a.gzi").unwrap_err();
    assert_eq!(error.to_string(), "IO error: mode refused");
    assert_eq!(world.borrow().log[5..], ["ExportIndex", "SetTempMode", "DiscardTemp", "Close"]);
    assert_eq!(world.borrow().file(b"/d/a.gzi").unwrap(), (b"old".to_vec(), 0o640));
    assert!(world.borrow().temp.is_none());
    // Where nothing is to be replaced, there are no bits to set.
    export(&world, "/d/a.gz", "/d/new.gzi").unwrap();

    world.borrow_mut().hide_modes = true;
    let error = export(&world, "/d/a.gz", "/d/a.gzi").unwrap_err();
    assert_eq!(error.to_string(), "IO error: mode is hidden");
    assert_eq!(world.borrow().log, ["Probe", "Canonicalize", "Parent", "FileMode", "Close"]);
    assert_eq!(world.borrow().file(b"/d/a.gzi").unwrap(), (b"old".to_vec(), 0o640));
    // Where nothing was found, a failed look-up does not matter.
    export(&world, "/d/a.gz", "/d/newer.gzi").unwrap();
    assert_eq!(
        world.borrow().log,
        ["Probe", "Parent", "FileMode", "CreateTemp", "ExportIndex", "PersistTemp", "Close"]
    );
}

#[test]
fn export_follows_symlink() {
    let world = world();
    write_test_gz_file(&world, "/d/a.gz");
    export(&world, "/d/a.gz", "/real/a.gzi").unwrap();
    world
        .borrow_mut()
        .nodes
        .insert(b"/d/link.gzi".to_vec(), Node::Link(b"/real/a.gzi".to_vec()));
    if let Some(Node::File { data, .. }) = world.borrow_mut().nodes.get_mut(b"/real/a.gzi".as_slice()) {
        data.clear();
    }

    export(&world, "/d/a.gz", "/d/link.gzi").unwrap();
    assert!(matches!(
        world.borrow().nodes.get(b"/d/link.gzi".as_slice()),
        Some(Node::Link(_))
    ));
    assert!(world.borrow().file(b"/real/a.gzi").unwrap().0.starts_with(b"IDX"));
    // Beside the file that is replaced, not beside the link to it.
    assert_eq!(world.borrow().temp_dirs.last().unwrap(), b"/real");

    let mut reader = open_path(&world, ReaderBuilder::new(), "/d/a.gz").unwrap();
    reader.import_index("/real/a.gzi").unwrap();
}

#[test]
fn exported_chunks_arrive_whole_and_in_order() {
    let world = world();
    let expected = write_test_gz_file(&world, "/d/a.gz");
    export(&world, "/d/a.gz", "/d/a.gzi").unwrap();
    // The stand-in for the decoder hands its index over in chunks.
    let index = [b"IDX".as_slice(), &(expected.len() as u64).to_le_bytes()].concat();
    assert_eq!(world.borrow().file(b"/d/a.gzi").unwrap().0, index);
}

#[test]
fn export_to_bare_name_uses_its_empty_directory() {
    let world = world();
    write_test_gz_file(&world, "/d/a.gz");
    export(&world, "/d/a.gz", "a.gzi").unwrap();
    assert_eq!(world.borrow().temp_dirs.last().unwrap(), b"");
    assert!(world.borrow().file(b"a.gzi").is_some());
}

#[test]
fn export_to_path_without_directory_uses_the_current_one() {
    let world = world();
    write_test_gz_file(&world, "/d/a.gz");
    export(&world, "/d/a.gz", "").unwrap();
    assert_eq!(world.borrow().temp_dirs.last().unwrap(), b".");
}

/// Gives an export these replies in turn, and returns what it asked for last.
fn last_request(replies: Vec<Reply>) -> Request {
    let opened = Reply::Opened { address: 1, status: rgz_status_t::RGZ_STATUS_OK };
    let mut opened = Some(opened);
    let mut reader = drive(Reader::open_reader(), |_| opened.take().unwrap()).unwrap();
    let mut step = reader.export_index(b"/d/a.gzi".to_vec());
    for reply in replies {
        step = match step {
            Step::Call(_, state) => {
                assert!(state.accepts(&reply));
                state.resume(reply)
            }
            Step::Done(_) => panic!("over too early"),
        };
    }
    match step {
        Step::Call(request, _) => request,
        Step::Done(_) => panic!("over too early"),
    }
}

#[test]
fn export_goes_on_without_bits_to_keep() {
    for report in [ModeReport::Missing, ModeReport::Unavailable] {
        // The file was found; it is gone since, or has no such bits.
        let mut replies = vec![
            Reply::Found(true),
            Reply::Resolved(Ok(b"/r/a.gzi".to_vec())),
            Reply::Directory(Some(Vec::new())),
            Reply::Mode(report),
        ];
        replies.push(Reply::Outcome(Ok(())));
        replies.push(Reply::Status(rgz_status_t::RGZ_STATUS_OK));
        assert!(matches!(
            last_request(replies),
            Request::PersistTemp { path } if path == b"/r/a.gzi"
        ));
    }
    // A file that came to be after the first look has bits to keep, too.
    assert!(matches!(
        last_request(vec![
            Reply::Found(false),
            Reply::Directory(Some(Vec::new())),
            Reply::Mode(ModeReport::Bits(0o644)),
            Reply::Outcome(Ok(())),
            Reply::Status(rgz_status_t::RGZ_STATUS_OK),
        ]),
        Request::SetTempMode { mode: 0o644 }
    ));
    assert!(matches!(
        last_request(vec![
            Reply::Found(false),
            Reply::Directory(Some(Vec::new())),
            Reply::Mode(ModeReport::Failed("name too long".to_string())),
        ]),
        Request::CreateTemp { dir, .. } if dir.is_empty()
    ));
}

#[test]
fn open_failures_carry_the_thread_wide_text() {
    let world = world();
    world.borrow_mut().open_failure =
        Some((rgz_status_t::RGZ_STATUS_DATA_ERROR, Some("bad magic".to_string())));
    let error = open_reader(&world, ReaderBuilder::new(), Cursor::new(Vec::new())).err().unwrap();
    assert_eq!(error.to_string(), "Gzip data error: bad magic");
    assert_eq!(world.borrow().log, ["OpenCallbacks", "LastGlobalError"]);

    world.borrow_mut().open_failure =
        Some((rgz_status_t::RGZ_STATUS_OUT_OF_MEMORY, Some(" \t".to_string())));
    let error = open_reader(&world, ReaderBuilder::new(), Cursor::new(Vec::new())).err().unwrap();
    assert_eq!(error.to_string(), "Internal error: Out of memory");

    world.borrow_mut().open_failure = None;
    let error = open_path(&world, ReaderBuilder::new(), "/absent").err().unwrap();
    assert_eq!(error.to_string(), "IO error: I/O error");
}

#[test]
fn refused_index_policy_closes_the_reader() {
    let world = world();
    world.borrow_mut().keep_failure =
        Some((rgz_status_t::RGZ_STATUS_NOT_IMPLEMENTED, None));
    let result = open_reader(
        &world,
        ReaderBuilder::new().keep_index(false),
        Cursor::new(create_test_gz()),
    );
    assert_eq!(
        result.err().unwrap().to_string(),
        "Operation not supported: Unknown error"
    );
    assert!(world.borrow().readers.is_empty());
    assert_eq!(
        world.borrow().log,
        ["OpenCallbacks", "SetKeepIndex", "LastError", "Close"]
    );
}

#[test]
fn index_policy_is_set_only_if_asked_for() {
    let world = world();
    {
        let _reader =
            open_reader(&world, ReaderBuilder::new(), Cursor::new(create_test_gz())).unwrap();
        assert_eq!(world.borrow().readers.values().next().unwrap().keep_index, None);
    }
    let _reader = open_reader(
        &world,
        ReaderBuilder::new().keep_index(true).keep_index(false),
        Cursor::new(create_test_gz()),
    )
    .unwrap();
    assert_eq!(
        world.borrow().readers.values().next().unwrap().keep_index,
        Some(false)
    );
}

#[test]
fn path_with_nul_byte_is_refused() {
    let world = world();
    let error = opened(&world, ReaderBuilder::new().open(b"/a\0b", "/a?b")).err().unwrap();
    assert_eq!(
        error.to_string(),
        "Invalid argument: Path contains an interior NUL byte: /a?b"
    );
    assert!(world.borrow().log.is_empty());
    assert!(opened(&world, Reader::open(b"\0", "?")).is_err());
}

#[test]
fn default_open_uses_default_settings() {
    let world = world();
    write_test_gz_file(&world, "/d/a.gz");
    let _reader = opened(&world, Reader::open(b"/d/a.gz", "/d/a.gz")).unwrap();
    let config = world.borrow().readers.values().next().unwrap().config;
    assert_eq!(config, ReaderBuilder::new().to_ffi_config());
    assert_eq!(config.parallelism, 0);
    assert_eq!(config.chunk_size, 4 * 1024 * 1024);
    assert_eq!(config.struct_size, 32);

    world.borrow_mut().opened = Some(Box::new(Plain(Cursor::new(create_test_gz()))));
    let mut reader = opened(&world, Reader::open_reader()).unwrap();
    let mut out = String::new();
    reader.read_to_string(&mut out).unwrap();
    assert!(out.starts_with("Hello, rapidgzip!"));
}

#[test]
fn open_through_file_reads_a_cloneable_source() {
    let world = world();
    write_test_gz_file(&world, "/d/a.gz");
    let builder = ReaderBuilder::new().io_read_mode(IoReadMode::LockedReadAndSeek);
    let reader = opened(&world, builder.open_through_file(b"/d/a.gz".to_vec())).unwrap();
    {
        let world = world.borrow();
        let native = world.readers.values().next().unwrap();
        assert_eq!(native.callbacks.unwrap().clone, Some(CallbackEntry::CloneCloneable));
        assert_eq!(native.config.flags, 3);
        assert_eq!(world.opened_kind, Some(SourceKind::Cloneable));
    }
    drop(reader);

    world.borrow_mut().log.clear();
    let error = opened(&world, builder.open_through_file(b"/absent".to_vec())).err().unwrap();
    assert_eq!(error.to_string(), "IO error: no such file");
    assert_eq!(world.borrow().log, ["OpenFile"]);
}

#[test]
fn discarding_counts_decompressed_bytes() {
    let world = world();
    let payload = b"discard fast path should count bytes without copying".repeat(4096);
    let mut reader =
        open_reader(&world, ReaderBuilder::new(), Cursor::new(gzip(&payload))).unwrap();
    assert_eq!(reader.read_discard(usize::MAX).unwrap(), payload.len());
    assert_eq!(reader.read_discard(usize::MAX).unwrap(), 0);
}

#[test]
fn discarding_moves_on_as_reading_does() {
    let world = world();
    let payload = b"0123456789".repeat(50);
    let mut reading =
        open_reader(&world, ReaderBuilder::new(), Cursor::new(gzip(&payload))).unwrap();
    let mut discarding =
        open_reader(&world, ReaderBuilder::new(), Cursor::new(gzip(&payload))).unwrap();
    let mut buf = [0u8; 123];
    assert_eq!(reading.read(&mut buf).unwrap(), 123);
    assert_eq!(buf[..], payload[..123]);
    assert_eq!(discarding.read_discard(123).unwrap(), 123);
    assert_eq!(discarding.read_discard(0).unwrap(), 0);

    let mut rest = Vec::new();
    reading.read_to_end(&mut rest).unwrap();
    assert_eq!(rest, payload[123..]);
    let mut rest = Vec::new();
    discarding.read_to_end(&mut rest).unwrap();
    assert_eq!(rest, payload[123..]);
}

#[test]
fn streaming_to_a_descriptor_writes_decompressed_bytes() {
    let world = world();
    let payload = b"fd fast path should bypass the Rust copy loop".repeat(4096);
    let mut reader =
        open_reader(&world, ReaderBuilder::new(), Cursor::new(gzip(&payload))).unwrap();
    let mut out = Vec::new();
    assert_eq!(reader.read_to_fd(usize::MAX, &mut out).unwrap(), payload.len());
    assert_eq!(out, payload);
}

#[test]
fn transfers_of_nothing_make_no_call() {
    let world = world();
    let mut reader =
        open_reader(&world, ReaderBuilder::new(), Cursor::new(create_test_gz())).unwrap();
    world.borrow_mut().log.clear();
    assert_eq!(reader.read(&mut []).unwrap(), 0);
    assert_eq!(reader.read_discard(0).unwrap(), 0);
    assert_eq!(reader.read_to_fd(0, &mut Vec::new()).unwrap(), 0);
    assert!(world.borrow().log.is_empty());
}

#[test]
fn failed_reads_report_the_readers_text() {
    let world = world();
    let mut reader = open_reader(&world, ReaderBuilder::new(), ErrorReader).unwrap();
    let error = reader.read(&mut [0u8; 4]).unwrap_err();
    assert_eq!(error.kind(), ErrorKind::Other);
    assert_eq!(error.to_string(), "source failed");

    let mut reader =
        open_reader(&world, ReaderBuilder::new(), Cursor::new(b"no gzip".to_vec())).unwrap();
    let error = reader.read_discard(1).unwrap_err();
    assert_eq!(error.to_string(), "Unknown error");
}

#[test]
fn seeks_move_and_report() {
    let world = world();
    let payload = b"0123456789".repeat(10);
    let mut reader =
        open_reader(&world, ReaderBuilder::new(), Cursor::new(gzip(&payload))).unwrap();
    assert_eq!(reader.seek(SeekFrom::Start(95)).unwrap(), 95);
    assert_eq!(reader.seek(SeekFrom::Current(-92)).unwrap(), 3);
    let mut buf = [0u8; 4];
    assert_eq!(reader.read(&mut buf).unwrap(), 4);
    assert_eq!(&buf, b"3456");
    assert_eq!(reader.stream_position().unwrap(), 7);

    world.borrow_mut().log.clear();
    let error = reader.seek(SeekFrom::Current(-8)).unwrap_err();
    assert_eq!(error.kind(), ErrorKind::InvalidInput);
    assert_eq!(error.to_string(), "Seek before start of stream");
    assert_eq!(world.borrow().log, ["Tell"]);
    assert_eq!(reader.stream_position().unwrap(), 7);

    world.borrow_mut().log.clear();
    let error = reader.seek(SeekFrom::End(0)).unwrap_err();
    assert_eq!(error.kind(), ErrorKind::Unsupported);
    assert_eq!(
        error.to_string(),
        "Seek from end is not yet supported by the rapidgzip native ABI v0"
    );
    assert!(world.borrow().log.is_empty());

    let error = reader.seek(SeekFrom::Start(101)).unwrap_err();
    assert_eq!(error.kind(), ErrorKind::Other);
    assert_eq!(error.to_string(), "beyond the end");
}

#[test]
fn import_failures() {
    let world = world();
    write_test_gz_file(&world, "/d/a.gz");
    let mut reader = open_path(&world, ReaderBuilder::new(), "/d/a.gz").unwrap();
    let error = reader.import_index("/absent").unwrap_err();
    assert_eq!(error.to_string(), "IO error: no such file");
    assert_eq!(world.borrow().opened_kind, Some(SourceKind::Plain));

    // A blank text is replaced by the default one of the status.
    let error = reader.import_index("/d/a.gz").unwrap_err();
    assert_eq!(error.to_string(), "Index error: Index error");

    world.borrow_mut().opened = Some(Box::new(Plain(Cursor::new(b"IDX".to_vec()))));
    let step = reader.reader.as_mut().unwrap().import_index_reader();
    run(&world, step).unwrap();
}

#[test]
fn file_clone_stands_in_when_reopening_fails() {
    let clone: FileClone<u8> = FileClone::from_reopened(Err("gone".to_string()), "/x");
    let failed: CloneFailureReader = match clone {
        FileClone::Failed(failed) => failed,
        FileClone::Reopened(_) => panic!("nothing was opened"),
    };
    let error = failed.clone().io_error();
    assert_eq!(error.kind(), ErrorKind::Other);
    assert_eq!(
        error.to_string(),
        "Failed to reopen file handle for cloneable reader '/x': gone"
    );
    assert!(matches!(
        FileClone::from_reopened(Ok(5u8), "/x"),
        FileClone::Reopened(5)
    ));
}
