use std::cell::RefCell;
use triangle_from_scratch::gl::{info_log_text, status_succeeded, GlContext, GlLoadError, GlProc, GlProcLoader};

struct CountingLoader {
    calls: RefCell<Vec<Vec<u8>>>,
}

impl GlProcLoader for CountingLoader {
    fn load_proc(&self, name: &[u8]) -> usize {
        self.calls.borrow_mut().push(name.to_vec());
        if name == b"glClear\0" {
            0
        } else {
            0x1000 + name.len()
        }
    }
}

fn loader() -> CountingLoader {
    CountingLoader { calls: RefCell::new(Vec::new()) }
}

#[test]
fn procedures_load_once_and_are_kept() {
    let mut ctx = GlContext::new_with_loader(loader());
    assert!(!ctx.is_loaded(GlProc::UseProgram));
    let a = ctx.proc_address(GlProc::UseProgram);
    assert_eq!(a, Ok(0x1000 + b"glUseProgram\0".len()));
    assert!(ctx.is_loaded(GlProc::UseProgram));
    assert_eq!(ctx.proc_address(GlProc::UseProgram), a);
}

#[test]
fn missing_procedures_are_reported() {
    let mut ctx = GlContext::new_with_loader(loader());
    assert_eq!(ctx.proc_address(GlProc::Clear), Err(GlLoadError::NotFound(GlProc::Clear)));
    assert!(!ctx.is_loaded(GlProc::Clear));

    let mut none: GlContext<CountingLoader> = GlContext::new();
    assert_eq!(
        none.proc_address(GlProc::DrawElements),
        Err(GlLoadError::NoLoader(GlProc::DrawElements))
    );
    none.set_loader(loader());
    assert!(none.proc_address(GlProc::DrawElements).is_ok());
}

#[test]
fn load_all_fills_the_table() {
    let mut ctx = GlContext::new_with_loader(loader());
    ctx.load_all();
    assert!(ctx.is_loaded(GlProc::VertexAttribPointer));
    assert!(ctx.is_loaded(GlProc::AttachShader));
    assert!(!ctx.is_loaded(GlProc::Clear));
}

#[test]
fn proc_names_are_null_terminated() {
    assert_eq!(GlProc::GetShaderiv.name(), "glGetShaderiv");
    assert_eq!(GlProc::GetShaderiv.c_name(), b"glGetShaderiv\0".to_vec());
    assert_eq!(GlProc::AttachShader.index(), 0);
    assert_eq!(GlProc::VertexAttribPointer.index(), 22);
}

#[test]
fn info_log_text_reads_up_to_the_terminator() {
    let mut buf = [0u8; 16];
    buf[..5].copy_from_slice(b"error");
    assert_eq!(info_log_text(&buf, 5), "error");
    assert_eq!(info_log_text(&buf, 3), "err");
    assert_eq!(info_log_text(&buf, 100), "error");
    assert_eq!(info_log_text(&buf, -1), "");
    assert_eq!(info_log_text(&[b'a', 0xFF, 0], 2), "a\u{FFFD}");
}

#[test]
fn recorded_addresses_fill_the_table() {
    let mut ctx: GlContext<CountingLoader> = GlContext::new();
    assert_eq!(
        ctx.record_proc_address(GlProc::LinkProgram, 0),
        Err(GlLoadError::NotFound(GlProc::LinkProgram))
    );
    assert!(!ctx.is_loaded(GlProc::LinkProgram));
    assert_eq!(ctx.record_proc_address(GlProc::LinkProgram, 0x4242), Ok(0x4242));
    assert_eq!(ctx.proc_address(GlProc::LinkProgram), Ok(0x4242));
}

#[test]
fn load_all_reports_each_entry() {
    let mut ctx = GlContext::new_with_loader(loader());
    let results = ctx.load_all();
    assert_eq!(results.len(), 23);
    assert_eq!(results[GlProc::Clear.index()], Err(GlLoadError::NotFound(GlProc::Clear)));
    assert_eq!(
        results[GlProc::AttachShader.index()],
        Ok(0x1000 + b"glAttachShader\0".len())
    );

    let mut none: GlContext<CountingLoader> = GlContext::new();
    let results = none.load_all();
    assert!(results.iter().all(|r| matches!(r, Err(GlLoadError::NoLoader(_)))));
    assert!(!none.is_loaded(GlProc::UseProgram));
}

#[test]
fn only_gl_true_is_success() {
    assert!(status_succeeded(1));
    assert!(!status_succeeded(0));
    assert!(!status_succeeded(2));
}
