//! A table of OpenGL entry points, filled on first use through a loader that the platform
//! provides.

use vstd::prelude::*;
use vstd::utf8::{decode_utf8, encode_utf8, valid_utf8};
use crate::str_util::{gather_null_terminated_bytes, is_before_nul, min_alloc_lossy_into_string, utf8_lossy};

verus! {

/// Loads the addresses of OpenGL functions, the platform's way.
pub trait GlProcLoader {
    /// The address of the OpenGL function named by `name`, a null-terminated ASCII string; zero
    /// when there is none.
    fn load_proc(&self, name: &[u8]) -> usize;
}

/// The OpenGL functions that the table holds.
#[derive(Clone, Copy, Debug, PartialEq, Eq, Structural)]
pub enum GlProc {
    /// `glAttachShader`
    AttachShader,
    /// `glBindBuffer`
    BindBuffer,
    /// `glBindVertexArray`
    BindVertexArray,
    /// `glBufferData`
    BufferData,
    /// `glClear`
    Clear,
    /// `glClearColor`
    ClearColor,
    /// `glCompileShader`
    CompileShader,
    /// `glCreateProgram`
    CreateProgram,
    /// `glCreateShader`
    CreateShader,
    /// `glDeleteShader`
    DeleteShader,
    /// `glDrawArrays`
    DrawArrays,
    /// `glDrawElements`
    DrawElements,
    /// `glEnableVertexAttribArray`
    EnableVertexAttribArray,
    /// `glGenBuffers`
    GenBuffers,
    /// `glGenVertexArrays`
    GenVertexArrays,
    /// `glGetProgramInfoLog`
    GetProgramInfoLog,
    /// `glGetProgramiv`
    GetProgramiv,
    /// `glGetShaderInfoLog`
    GetShaderInfoLog,
    /// `glGetShaderiv`
    GetShaderiv,
    /// `glLinkProgram`
    LinkProgram,
    /// `glShaderSource`
    ShaderSource,
    /// `glUseProgram`
    UseProgram,
    /// `glVertexAttribPointer`
    VertexAttribPointer,
}

/// The number of functions in the table.
pub const GL_PROC_COUNT: usize = 23;

impl GlProc {
    /// The function's position in the table.
    pub open spec fn spec_index(self) -> int {
        match self {
            GlProc::AttachShader => 0,
            GlProc::BindBuffer => 1,
            GlProc::BindVertexArray => 2,
            GlProc::BufferData => 3,
            GlProc::Clear => 4,
            GlProc::ClearColor => 5,
            GlProc::CompileShader => 6,
            GlProc::CreateProgram => 7,
            GlProc::CreateShader => 8,
            GlProc::DeleteShader => 9,
            GlProc::DrawArrays => 10,
            GlProc::DrawElements => 11,
            GlProc::EnableVertexAttribArray => 12,
            GlProc::GenBuffers => 13,
            GlProc::GenVertexArrays => 14,
            GlProc::GetProgramInfoLog => 15,
            GlProc::GetProgramiv => 16,
            GlProc::GetShaderInfoLog => 17,
            GlProc::GetShaderiv => 18,
            GlProc::LinkProgram => 19,
            GlProc::ShaderSource => 20,
            GlProc::UseProgram => 21,
            GlProc::VertexAttribPointer => 22,
        }
    }

    /// The function's position in the table.
    pub fn index(&self) -> (r: usize)
        ensures
            r == self.spec_index(),
            r < GL_PROC_COUNT,
    {
        match self {
            GlProc::AttachShader => 0,
            GlProc::BindBuffer => 1,
            GlProc::BindVertexArray => 2,
            GlProc::BufferData => 3,
            GlProc::Clear => 4,
            GlProc::ClearColor => 5,
            GlProc::CompileShader => 6,
            GlProc::CreateProgram => 7,
            GlProc::CreateShader => 8,
            GlProc::DeleteShader => 9,
            GlProc::DrawArrays => 10,
            GlProc::DrawElements => 11,
            GlProc::EnableVertexAttribArray => 12,
            GlProc::GenBuffers => 13,
            GlProc::GenVertexArrays => 14,
            GlProc::GetProgramInfoLog => 15,
            GlProc::GetProgramiv => 16,
            GlProc::GetShaderInfoLog => 17,
            GlProc::GetShaderiv => 18,
            GlProc::LinkProgram => 19,
            GlProc::ShaderSource => 20,
            GlProc::UseProgram => 21,
            GlProc::VertexAttribPointer => 22,
        }
    }

    /// The function's name.
    pub open spec fn spec_name(self) -> &'static str {
        match self {
            GlProc::AttachShader => "glAttachShader",
            GlProc::BindBuffer => "glBindBuffer",
            GlProc::BindVertexArray => "glBindVertexArray",
            GlProc::BufferData => "glBufferData",
            GlProc::Clear => "glClear",
            GlProc::ClearColor => "glClearColor",
            GlProc::CompileShader => "glCompileShader",
            GlProc::CreateProgram => "glCreateProgram",
            GlProc::CreateShader => "glCreateShader",
            GlProc::DeleteShader => "glDeleteShader",
            GlProc::DrawArrays => "glDrawArrays",
            GlProc::DrawElements => "glDrawElements",
            GlProc::EnableVertexAttribArray => "glEnableVertexAttribArray",
            GlProc::GenBuffers => "glGenBuffers",
            GlProc::GenVertexArrays => "glGenVertexArrays",
            GlProc::GetProgramInfoLog => "glGetProgramInfoLog",
            GlProc::GetProgramiv => "glGetProgramiv",
            GlProc::GetShaderInfoLog => "glGetShaderInfoLog",
            GlProc::GetShaderiv => "glGetShaderiv",
            GlProc::LinkProgram => "glLinkProgram",
            GlProc::ShaderSource => "glShaderSource",
            GlProc::UseProgram => "glUseProgram",
            GlProc::VertexAttribPointer => "glVertexAttribPointer",
        }
    }

    /// The function's name.
    pub fn name(&self) -> (r: &'static str)
        ensures
            r == self.spec_name(),
    {
        match self {
            GlProc::AttachShader => "glAttachShader",
            GlProc::BindBuffer => "glBindBuffer",
            GlProc::BindVertexArray => "glBindVertexArray",
            GlProc::BufferData => "glBufferData",
            GlProc::Clear => "glClear",
            GlProc::ClearColor => "glClearColor",
            GlProc::CompileShader => "glCompileShader",
            GlProc::CreateProgram => "glCreateProgram",
            GlProc::CreateShader => "glCreateShader",
            GlProc::DeleteShader => "glDeleteShader",
            GlProc::DrawArrays => "glDrawArrays",
            GlProc::DrawElements => "glDrawElements",
            GlProc::EnableVertexAttribArray => "glEnableVertexAttribArray",
            GlProc::GenBuffers => "glGenBuffers",
            GlProc::GenVertexArrays => "glGenVertexArrays",
            GlProc::GetProgramInfoLog => "glGetProgramInfoLog",
            GlProc::GetProgramiv => "glGetProgramiv",
            GlProc::GetShaderInfoLog => "glGetShaderInfoLog",
            GlProc::GetShaderiv => "glGetShaderiv",
            GlProc::LinkProgram => "glLinkProgram",
            GlProc::ShaderSource => "glShaderSource",
            GlProc::UseProgram => "glUseProgram",
            GlProc::VertexAttribPointer => "glVertexAttribPointer",
        }
    }

    /// The function's name as the null-terminated ASCII string that loaders take.
    pub fn c_name(&self) -> (r: Vec<u8>)
        ensures
            r@ == encode_utf8(self.spec_name()@).push(0),
    {
        let mut v = vstd::slice::slice_to_vec(self.name().as_bytes());
        v.push(0);
        v
    }
}

fn proc_at(i: usize) -> (r: GlProc)
    requires
        i < GL_PROC_COUNT,
    ensures
        r.spec_index() == i,
{
    match i {
        0 => GlProc::AttachShader,
        1 => GlProc::BindBuffer,
        2 => GlProc::BindVertexArray,
        3 => GlProc::BufferData,
        4 => GlProc::Clear,
        5 => GlProc::ClearColor,
        6 => GlProc::CompileShader,
        7 => GlProc::CreateProgram,
        8 => GlProc::CreateShader,
        9 => GlProc::DeleteShader,
        10 => GlProc::DrawArrays,
        11 => GlProc::DrawElements,
        12 => GlProc::EnableVertexAttribArray,
        13 => GlProc::GenBuffers,
        14 => GlProc::GenVertexArrays,
        15 => GlProc::GetProgramInfoLog,
        16 => GlProc::GetProgramiv,
        17 => GlProc::GetShaderInfoLog,
        18 => GlProc::GetShaderiv,
        19 => GlProc::LinkProgram,
        20 => GlProc::ShaderSource,
        21 => GlProc::UseProgram,
        _ => GlProc::VertexAttribPointer,
    }
}


/// Why an entry point could not be had.
#[derive(Clone, Copy, Debug, PartialEq, Eq, Structural)]
pub enum GlLoadError {
    /// The function is not loaded and there is no loader to load it with.
    NoLoader(GlProc),
    /// The loader found no address for the function.
    NotFound(GlProc),
}

/// The addresses of OpenGL functions, each loaded through the loader the first time it is
/// needed. Not thread-safe: one thread owns the table, as it owns the current context.
pub struct GlContext<L: GlProcLoader> {
    loader: Option<L>,
    procs: Vec<Option<usize>>,
}

impl<L: GlProcLoader> GlContext<L> {
    /// The address loaded for each function, by position; `None` where none is loaded yet.
    pub closed spec fn table(&self) -> Seq<Option<usize>> {
        self.procs@
    }

    /// Whether the table has a loader.
    pub closed spec fn has_loader(&self) -> bool {
        self.loader is Some
    }

    /// The table holds one entry per function, and no loaded address is null.
    pub open spec fn wf(&self) -> bool {
        &&& self.table().len() == GL_PROC_COUNT
        &&& forall|i: int| 0 <= i < GL_PROC_COUNT ==> (#[trigger] self.table()[i] matches Some(a) ==> a != 0)
    }

    /// The address loaded for a function, if any.
    pub open spec fn loaded(&self, p: GlProc) -> Option<usize> {
        self.table()[p.spec_index()]
    }

    fn empty_table() -> (r: Vec<Option<usize>>)
        ensures
            r@ == Seq::new(GL_PROC_COUNT as nat, |i: int| None::<usize>),
    {
        let mut v: Vec<Option<usize>> = Vec::new();
        while v.len() < GL_PROC_COUNT
            invariant
                v.len() <= GL_PROC_COUNT,
                forall|i: int| 0 <= i < v@.len() ==> v@[i] is None,
            decreases GL_PROC_COUNT - v.len(),
        {
            v.push(None);
        }
        assert(v@ =~= Seq::new(GL_PROC_COUNT as nat, |i: int| None::<usize>));
        v
    }

    /// An empty table without a loader.
    pub fn new() -> (r: Self)
        ensures
            r.wf(),
            !r.has_loader(),
            r.table() == Seq::new(GL_PROC_COUNT as nat, |i: int| None::<usize>),
    {
        GlContext { loader: None, procs: Self::empty_table() }
    }

    /// An empty table that loads through `loader`.
    pub fn new_with_loader(loader: L) -> (r: Self)
        ensures
            r.wf(),
            r.has_loader(),
            r.table() == Seq::new(GL_PROC_COUNT as nat, |i: int| None::<usize>),
    {
        GlContext { loader: Some(loader), procs: Self::empty_table() }
    }

    /// Replaces the loader; the addresses already loaded stay.
    pub fn set_loader(&mut self, loader: L)
        ensures
            final(self).has_loader(),
            final(self).table() == old(self).table(),
    {
        self.loader = Some(loader);
    }

    /// Whether a function's address is loaded.
    pub fn is_loaded(&self, p: GlProc) -> (r: bool)
        requires
            self.wf(),
        ensures
            r == self.loaded(p) is Some,
    {
        self.procs[p.index()].is_some()
    }

    /// Records what the loader returned for a function that is not loaded yet: a null address
    /// means that the function was not found, and the table stays as it was; any other address is
    /// kept in the table.
    pub fn record_proc_address(&mut self, p: GlProc, addr: usize) -> (r: Result<usize, GlLoadError>)
        requires
            old(self).wf(),
            old(self).loaded(p) is None,
        ensures
            final(self).wf(),
            final(self).has_loader() == old(self).has_loader(),
            addr == 0 ==> r == Err::<usize, GlLoadError>(GlLoadError::NotFound(p))
                && final(self).table() == old(self).table(),
            addr != 0 ==> r == Ok::<usize, GlLoadError>(addr)
                && final(self).table() == old(self).table().update(p.spec_index(), Some(addr)),
    {
        if addr == 0 {
            Err(GlLoadError::NotFound(p))
        } else {
            self.procs.set(p.index(), Some(addr));
            Ok(addr)
        }
    }

    /// The address of a function: the one already loaded, else the one that the loader returns
    /// for the function's null-terminated name (`GlProc::c_name`), recorded by
    /// `record_proc_address`. Without a loader, and only then, the error is `NoLoader` and the
    /// table stays as it was.
    pub fn proc_address(&mut self, p: GlProc) -> (r: Result<usize, GlLoadError>)
        requires
            old(self).wf(),
        ensures
            final(self).wf(),
            final(self).has_loader() == old(self).has_loader(),
            match old(self).loaded(p) {
                Some(a) => r == Ok::<usize, GlLoadError>(a)
                    && final(self).table() == old(self).table(),
                None => if !old(self).has_loader() {
                    r == Err::<usize, GlLoadError>(GlLoadError::NoLoader(p))
                        && final(self).table() == old(self).table()
                } else {
                    match r {
                        Ok(a) => a != 0 && final(self).table()
                            == old(self).table().update(p.spec_index(), Some(a)),
                        Err(e) => e == GlLoadError::NotFound(p)
                            && final(self).table() == old(self).table(),
                    }
                },
            },
    {
        let i = p.index();
        if let Some(a) = self.procs[i] {
            return Ok(a);
        }
        let addr = match &self.loader {
            None => return Err(GlLoadError::NoLoader(p)),
            Some(loader) => loader.load_proc(p.c_name().as_slice()),
        };
        self.record_proc_address(p, addr)
    }

    /// Loads every function that is not loaded yet, in table order, and returns what
    /// `proc_address` gave for each: entry `i` of the result is `Ok` with the address that entry
    /// `i` of the table then holds, or an error, and the table entry is then empty. Without a
    /// loader the table stays as it was.
    pub fn load_all(&mut self) -> (r: Vec<Result<usize, GlLoadError>>)
        requires
            old(self).wf(),
        ensures
            final(self).wf(),
            final(self).has_loader() == old(self).has_loader(),
            r@.len() == GL_PROC_COUNT,
            !old(self).has_loader() ==> final(self).table() == old(self).table(),
            forall|i: int|
                0 <= i < GL_PROC_COUNT ==> {
                    &&& (#[trigger] r@[i] matches Ok(a) ==> final(self).table()[i] == Some(a))
                    &&& (r@[i] is Err ==> final(self).table()[i] is None)
                    &&& (old(self).table()[i] matches Some(a) ==> r@[i] == Ok::<
                        usize,
                        GlLoadError,
                    >(a))
                    &&& (old(self).table()[i] is None && !old(self).has_loader() ==> r@[i] is Err)
                    &&& (old(self).table()[i] is None && old(self).has_loader() ==> (r@[i] is Err
                        <==> final(self).table()[i] is None))
                },
    {
        let mut results: Vec<Result<usize, GlLoadError>> = Vec::new();
        let mut i: usize = 0;
        while i < GL_PROC_COUNT
            invariant
                i <= GL_PROC_COUNT,
                results@.len() == i,
                self.wf(),
                self.has_loader() == old(self).has_loader(),
                !old(self).has_loader() ==> self.table() == old(self).table(),
                forall|j: int| i <= j < GL_PROC_COUNT ==> self.table()[j] == old(self).table()[j],
                forall|j: int|
                    0 <= j < i ==> {
                        &&& (#[trigger] results@[j] matches Ok(a) ==> self.table()[j] == Some(a))
                        &&& (results@[j] is Err ==> self.table()[j] is None)
                        &&& (old(self).table()[j] matches Some(a) ==> results@[j] == Ok::<
                            usize,
                            GlLoadError,
                        >(a))
                        &&& (old(self).table()[j] is None && !old(self).has_loader()
                            ==> results@[j] is Err)
                        &&& (old(self).table()[j] is None && old(self).has_loader() ==> (
                        results@[j] is Err <==> self.table()[j] is None))
                    },
            decreases GL_PROC_COUNT - i,
        {
            let p = proc_at(i);
            let ghost before = self.table();
            let res = self.proc_address(p);
            proof {
                assert forall|j: int| 0 <= j < GL_PROC_COUNT && j != i implies self.table()[j]
                    == before[j] by {}
            }
            results.push(res);
            i += 1;
        }
        results
    }
}


/// Whether a compile or link status that `glGetShaderiv` or `glGetProgramiv` reported means
/// success: only `GL_TRUE` (1) does.
pub fn status_succeeded(status: i32) -> (r: bool)
    ensures
        r == (status == 1),
{
    status == 1
}

/// How many bytes of an info-log buffer of `buf_len` bytes to read when the driver reports a log
/// of `reported_len` characters: the log, within the buffer.
pub open spec fn info_log_extent(buf_len: int, reported_len: i32) -> int {
    if reported_len < 0 {
        0
    } else if reported_len > buf_len {
        buf_len
    } else {
        reported_len as int
    }
}

/// The text of an info log that `glGetShaderInfoLog` or `glGetProgramInfoLog` wrote into `buf`,
/// reporting `reported_len` characters: the bytes of the log before its first zero, as a string
/// whose malformed UTF-8 sequences become U+FFFD.
pub fn info_log_text(buf: &[u8], reported_len: i32) -> (r: String)
    ensures
        exists|bytes: Seq<u8>|
            is_before_nul(buf@.take(info_log_extent(buf@.len() as int, reported_len)), bytes)
                && r@ == if valid_utf8(bytes) {
                decode_utf8(bytes)
            } else {
                utf8_lossy(bytes)
            },
{
    let n = buf.len();
    let extent: usize = if reported_len < 0 {
        0
    } else if reported_len as usize > n {
        n
    } else {
        reported_len as usize
    };
    let log = vstd::slice::slice_subrange(buf, 0, extent);
    let bytes = gather_null_terminated_bytes(log);
    assert(log@ == buf@.take(info_log_extent(buf@.len() as int, reported_len)));
    min_alloc_lossy_into_string(bytes)
}

} // verus!
