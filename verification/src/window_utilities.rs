//! Description of a top-level window as reported to the window picker.
use vstd::prelude::*;

verus! {

/// One enumerated window: its title, the owning application's name, the
/// native window handle, and the path of the extracted icon when one was
/// cached.
#[derive(Debug, Clone)]
pub struct WindowInfo {
    pub title: String,
    pub app_name: String,
    pub hwnd: isize,
    pub icon_path: Option<String>,
}

} // verus!
