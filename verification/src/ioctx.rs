//! Stream handles and the per-invocation I/O context.
//!
//! A handle is either one of the interpreter's own inherited standard
//! streams, one end of an operating-system pipe created by the executor for a
//! pipeline, or a foreign pipe end supplied from outside (the interpreter's
//! driver may route the default streams anywhere). Pipe ends created here
//! carry a ghost identifier, so that contracts can state which stage of a
//! pipeline is wired to which pipe; the identifier names the pipe, duplicating
//! a handle keeps it.

use vstd::prelude::*;
use std::io::Write;
use os_pipe::{PipeReader, PipeWriter};

verus! {

#[verifier::external_type_specification]
#[verifier::external_body]
pub struct ExPipeReader(PipeReader);

#[verifier::external_type_specification]
#[verifier::external_body]
pub struct ExPipeWriter(PipeWriter);

/// What a handle refers to, as contracts see it.
pub enum HandleKind {
    /// The interpreter's inherited standard input.
    Stdin,
    /// The interpreter's inherited standard output.
    Stdout,
    /// The interpreter's inherited standard error.
    Stderr,
    /// The read end of the pipe with the given identifier.
    PipeRead(int),
    /// The write end of the pipe with the given identifier.
    PipeWrite(int),
    /// The read end of a pipe supplied from outside.
    ForeignRead,
    /// The write end of a pipe supplied from outside.
    ForeignWrite,
}

/// One stream handle: a duplicable reference to an OS-level stream endpoint.
pub enum IoHandle {
    Stdin,
    Stdout,
    Stderr,
    PipeRead { raw: PipeReader, id: Ghost<int> },
    PipeWrite { raw: PipeWriter, id: Ghost<int> },
    ForeignRead { raw: PipeReader },
    ForeignWrite { raw: PipeWriter },
}

impl IoHandle {
    /// The abstract referent of this handle.
    pub open spec fn kind(&self) -> HandleKind {
        match self {
            IoHandle::Stdin => HandleKind::Stdin,
            IoHandle::Stdout => HandleKind::Stdout,
            IoHandle::Stderr => HandleKind::Stderr,
            IoHandle::PipeRead { raw, id } => HandleKind::PipeRead(id@),
            IoHandle::PipeWrite { raw, id } => HandleKind::PipeWrite(id@),
            IoHandle::ForeignRead { raw } => HandleKind::ForeignRead,
            IoHandle::ForeignWrite { raw } => HandleKind::ForeignWrite,
        }
    }

    /// Whether this handle is one of the inherited standard streams, whose
    /// duplication never fails.
    pub open spec fn is_inherited(&self) -> bool {
        self is Stdin || self is Stdout || self is Stderr
    }

    /// Wrap the read end of a pipe made outside the executor.
    pub fn foreign_read(raw: PipeReader) -> (h: IoHandle)
        ensures
            h.kind() == HandleKind::ForeignRead,
    {
        IoHandle::ForeignRead { raw }
    }

    /// Wrap the write end of a pipe made outside the executor.
    pub fn foreign_write(raw: PipeWriter) -> (h: IoHandle)
        ensures
            h.kind() == HandleKind::ForeignWrite,
    {
        IoHandle::ForeignWrite { raw }
    }

    /// Duplicate this handle: the copy refers to the same stream endpoint.
    /// Duplicating an inherited stream always succeeds; duplicating a pipe
    /// end can fail at the operating-system level, yielding the error text.
    pub fn dup(&self) -> (r: Result<IoHandle, String>)
        ensures
            r matches Ok(h) ==> h.kind() == self.kind(),
            self.is_inherited() ==> r is Ok,
    {
        match self {
            IoHandle::Stdin => Ok(IoHandle::Stdin),
            IoHandle::Stdout => Ok(IoHandle::Stdout),
            IoHandle::Stderr => Ok(IoHandle::Stderr),
            IoHandle::PipeRead { raw, id } => match clone_reader(raw) {
                Ok(r2) => Ok(IoHandle::PipeRead { raw: r2, id: Ghost(id@) }),
                Err(e) => Err(e),
            },
            IoHandle::PipeWrite { raw, id } => match clone_writer(raw) {
                Ok(w2) => Ok(IoHandle::PipeWrite { raw: w2, id: Ghost(id@) }),
                Err(e) => Err(e),
            },
            IoHandle::ForeignRead { raw } => match clone_reader(raw) {
                Ok(r2) => Ok(IoHandle::ForeignRead { raw: r2 }),
                Err(e) => Err(e),
            },
            IoHandle::ForeignWrite { raw } => match clone_writer(raw) {
                Ok(w2) => Ok(IoHandle::ForeignWrite { raw: w2 }),
                Err(e) => Err(e),
            },
        }
    }

    /// Write a string to the stream this handle refers to, if it is writable.
    /// Returns whether the write went through.
    pub fn write_str(&self, s: &String) -> bool {
        match self {
            IoHandle::Stdin => false,
            IoHandle::Stdout => stdout_write(s.as_str()),
            IoHandle::Stderr => stderr_write(s.as_str()),
            IoHandle::PipeRead { raw, id } => false,
            IoHandle::PipeWrite { raw, id } => pipe_write(raw, s.as_str()),
            IoHandle::ForeignRead { raw } => false,
            IoHandle::ForeignWrite { raw } => pipe_write(raw, s.as_str()),
        }
    }
}

/// The abstract referents of an I/O context's three handles.
pub struct CtxKind {
    pub input: HandleKind,
    pub output: HandleKind,
    pub error: HandleKind,
}

/// The bundle of three stream handles in effect for one execution step.
pub struct IoCtx {
    pub input: IoHandle,
    pub output: IoHandle,
    pub error: IoHandle,
}

impl IoCtx {
    /// The abstract referents of the three handles.
    pub open spec fn kind(&self) -> CtxKind {
        CtxKind { input: self.input.kind(), output: self.output.kind(), error: self.error.kind() }
    }

    /// Whether all three handles are inherited standard streams.
    pub open spec fn is_inherited(&self) -> bool {
        self.input.is_inherited() && self.output.is_inherited() && self.error.is_inherited()
    }

    /// The interpreter's own standard streams.
    pub fn inherited() -> (c: IoCtx)
        ensures
            c.kind() == (CtxKind {
                input: HandleKind::Stdin,
                output: HandleKind::Stdout,
                error: HandleKind::Stderr,
            }),
            c.is_inherited(),
    {
        IoCtx { input: IoHandle::Stdin, output: IoHandle::Stdout, error: IoHandle::Stderr }
    }

    /// Duplicate the context: the copy's handles refer to the same three
    /// stream endpoints. Fails only where duplicating a pipe end fails.
    pub fn dup(&self) -> (r: Result<IoCtx, String>)
        ensures
            r matches Ok(c) ==> c.kind() == self.kind(),
            self.is_inherited() ==> r is Ok,
    {
        let input = match self.input.dup() {
            Ok(h) => h,
            Err(e) => {
                return Err(e);
            },
        };
        let output = match self.output.dup() {
            Ok(h) => h,
            Err(e) => {
                return Err(e);
            },
        };
        let error = match self.error.dup() {
            Ok(h) => h,
            Err(e) => {
                return Err(e);
            },
        };
        Ok(IoCtx { input, output, error })
    }
}

/// The abstract referents of an optional context override's handles.
pub open spec fn opt_ctx_kind(c: Option<IoCtx>) -> Option<CtxKind> {
    match c {
        None => None,
        Some(c0) => Some(c0.kind()),
    }
}

/// Whether an optional context override holds only inherited streams (in
/// particular, when there is no override at all).
pub open spec fn opt_ctx_inherited(c: Option<IoCtx>) -> bool {
    match c {
        None => true,
        Some(c0) => c0.is_inherited(),
    }
}

/// Duplicate an optional context override; `None` (no override) duplicates
/// to `None`.
pub fn dup_opt_ctx(c: &Option<IoCtx>) -> (r: Result<Option<IoCtx>, String>)
    ensures
        r matches Ok(d) ==> opt_ctx_kind(d) == opt_ctx_kind(*c),
        opt_ctx_inherited(*c) ==> r is Ok,
{
    match c {
        None => Ok(None),
        Some(c0) => match c0.dup() {
            Ok(d0) => Ok(Some(d0)),
            Err(e) => Err(e),
        },
    }
}

/// Relies on `os_pipe::pipe`: opens a fresh operating-system pipe and returns
/// its read and write ends, or the error text when the OS refuses.
#[verifier::external_body]
pub(crate) fn raw_pipe() -> Result<(PipeReader, PipeWriter), String> {
    match os_pipe::pipe() {
        Ok(p) => Ok(p),
        Err(e) => Err(e.to_string()),
    }
}

/// Relies on `os_pipe::PipeReader::try_clone`: duplicates the handle, which
/// then refers to the same pipe, or returns the error text.
#[verifier::external_body]
pub(crate) fn clone_reader(r: &PipeReader) -> Result<PipeReader, String> {
    match r.try_clone() {
        Ok(r2) => Ok(r2),
        Err(e) => Err(e.to_string()),
    }
}

/// Relies on `os_pipe::PipeWriter::try_clone`: duplicates the handle, which
/// then refers to the same pipe, or returns the error text.
#[verifier::external_body]
pub(crate) fn clone_writer(w: &PipeWriter) -> Result<PipeWriter, String> {
    match w.try_clone() {
        Ok(w2) => Ok(w2),
        Err(e) => Err(e.to_string()),
    }
}

/// Relies on `std::io::Write::write_fmt` on `&os_pipe::PipeWriter`: writes
/// the string into the pipe; reports whether the write went through.
#[verifier::external_body]
pub(crate) fn pipe_write(w: &PipeWriter, s: &str) -> bool {
    let mut wr = w;
    write!(wr, "{s}").is_ok()
}

/// Relies on `std::io::Write::write_fmt` on `std::io::Stdout`: writes the
/// string to the interpreter's standard output.
#[verifier::external_body]
pub(crate) fn stdout_write(s: &str) -> bool {
    write!(std::io::stdout(), "{s}").is_ok()
}

/// Relies on `std::io::Write::write_fmt` on `std::io::Stderr`: writes the
/// string to the interpreter's standard error.
#[verifier::external_body]
pub(crate) fn stderr_write(s: &str) -> bool {
    write!(std::io::stderr(), "{s}").is_ok()
}

/// Make a fresh pipe for wiring two pipeline stages together; on success both
/// ends carry the pipe identifier `id`.
pub fn make_pipe(id: Ghost<int>) -> (r: Result<(IoHandle, IoHandle), String>)
    ensures
        r matches Ok(p) ==> p.0.kind() == HandleKind::PipeRead(id@) && p.1.kind()
            == HandleKind::PipeWrite(id@),
{
    match raw_pipe() {
        Ok((rd, wr)) => Ok(
            (IoHandle::PipeRead { raw: rd, id: Ghost(id@) }, IoHandle::PipeWrite {
                raw: wr,
                id: Ghost(id@),
            }),
        ),
        Err(e) => Err(e),
    }
}

} // verus!
